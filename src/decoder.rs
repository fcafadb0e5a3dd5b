//! The read cursor of a decoding session: the decoded packet being read, the
//! channel layout and rate, and the count of samples handed out, from which
//! the playback position follows.
use vstd::prelude::*;

verus! {

pub const NANOS_PER_SEC: u128 = 1_000_000_000;

/// Number of whole frames in `nanos` nanoseconds at `rate` frames a second.
pub open spec fn frames_at(nanos: int, rate: int) -> int {
    nanos * rate / NANOS_PER_SEC as int
}

/// Position, in nanoseconds, after `counted` interleaved samples of
/// `channels` channels at `rate` frames a second.
pub open spec fn position_of(counted: int, channels: int, rate: int) -> int {
    (counted / channels) * NANOS_PER_SEC as int / rate
}

/// A seek target held to the total duration, where that is known.
pub open spec fn clamp_target(target: int, total: Option<u64>) -> int {
    match total {
        Some(t) => if target > t as int { t as int } else { target },
        None => target,
    }
}

/// Reads interleaved samples (as `f32` bit patterns) out of one decoded packet
/// at a time, and counts what it hands out.
pub struct DecodeCursor {
    packet: Vec<u32>,
    offset: usize,
    channels: u16,
    rate: u32,
    counted: u64,
    total: Option<u64>,
    decoded: Ghost<Seq<u32>>,
    delivered: Ghost<Seq<u32>>,
}

impl DecodeCursor {
    pub closed spec fn packet(&self) -> Seq<u32> {
        self.packet@
    }

    pub closed spec fn offset(&self) -> nat {
        self.offset as nat
    }

    pub closed spec fn channels(&self) -> nat {
        self.channels as nat
    }

    pub closed spec fn rate(&self) -> nat {
        self.rate as nat
    }

    /// Samples handed out so far, as the position counts them.
    pub closed spec fn counted(&self) -> nat {
        self.counted as nat
    }

    /// Total duration in nanoseconds, where the container gives it.
    pub closed spec fn total(&self) -> Option<u64> {
        self.total
    }

    /// Every sample loaded since the cursor was made or last moved, in order.
    pub closed spec fn decoded(&self) -> Seq<u32> {
        self.decoded@
    }

    /// Every sample handed out since the cursor was made or last moved, in
    /// order.
    pub closed spec fn delivered(&self) -> Seq<u32> {
        self.delivered@
    }

    pub open spec fn wf(&self) -> bool {
        &&& self.channels() >= 1
        &&& self.rate() >= 1
        &&& self.offset() <= self.packet().len()
        &&& self.decoded() == self.delivered() + self.packet().skip(self.offset() as int)
    }

    /// A cursor at the start of the first decoded packet.
    pub fn new(first_packet: Vec<u32>, channels: u16, rate: u32, total: Option<u64>) -> (r: DecodeCursor)
        requires
            channels >= 1,
            rate >= 1,
        ensures
            r.wf(),
            r.packet() == first_packet@,
            r.offset() == 0,
            r.channels() == channels,
            r.rate() == rate,
            r.counted() == 0,
            r.total() == total,
            r.decoded() == first_packet@,
            r.delivered() == Seq::<u32>::empty(),
    {
        let ghost loaded = first_packet@;
        let r = DecodeCursor {
            packet: first_packet,
            offset: 0,
            channels,
            rate,
            counted: 0,
            total,
            decoded: Ghost(loaded),
            delivered: Ghost(Seq::empty()),
        };
        assert(r.packet@.skip(0) =~= r.packet@);
        assert(r.decoded() =~= r.delivered() + r.packet@.skip(0));
        r
    }

    /// Whether the current packet has been read to its end.
    pub fn needs_packet(&self) -> (b: bool)
        requires
            self.wf(),
        ensures
            b == (self.offset() == self.packet().len()),
    {
        self.offset == self.packet.len()
    }

    /// Hands out the next sample of the current packet, or `None` when the
    /// packet is used up and the next one must be loaded.
    pub fn next_buffered(&mut self) -> (r: Option<u32>)
        requires
            old(self).wf(),
        ensures
            final(self).wf(),
            final(self).packet() == old(self).packet(),
            final(self).channels() == old(self).channels(),
            final(self).rate() == old(self).rate(),
            final(self).total() == old(self).total(),
            final(self).decoded() == old(self).decoded(),
            old(self).offset() < old(self).packet().len() ==> {
                &&& r == Some(old(self).packet()[old(self).offset() as int])
                &&& final(self).delivered() == old(self).delivered().push(r.unwrap())
                &&& final(self).offset() == old(self).offset() + 1
                &&& final(self).counted() == saturating_inc(old(self).counted())
            },
            old(self).offset() == old(self).packet().len() ==> {
                &&& r.is_none()
                &&& *final(self) == *old(self)
            },
    {
        if self.offset < self.packet.len() {
            let s = self.packet[self.offset];
            let ghost pending = self.packet@.skip(self.offset as int);
            self.offset = self.offset + 1;
            self.delivered = Ghost(self.delivered@.push(s));
            assert(pending =~= seq![s] + self.packet@.skip(self.offset as int));
            assert(self.decoded() =~= self.delivered() + self.packet@.skip(self.offset as int));
            if self.counted < u64::MAX {
                self.counted = self.counted + 1;
            }
            Some(s)
        } else {
            None
        }
    }

    /// Starts reading a newly decoded packet, whose layout may differ from
    /// the previous one.
    pub fn load_packet(&mut self, packet: Vec<u32>, channels: u16, rate: u32)
        requires
            old(self).wf(),
            old(self).offset() == old(self).packet().len(),
            channels >= 1,
            rate >= 1,
        ensures
            final(self).decoded() == old(self).decoded() + packet@,
            final(self).delivered() == old(self).delivered(),
            final(self).wf(),
            final(self).packet() == packet@,
            final(self).offset() == 0,
            final(self).channels() == channels,
            final(self).rate() == rate,
            final(self).counted() == old(self).counted(),
            final(self).total() == old(self).total(),
    {
        let ghost before = self.decoded@;
        let ghost loaded = packet@;
        assert(self.packet@.skip(self.offset as int) =~= Seq::<u32>::empty());
        self.packet = packet;
        self.offset = 0;
        self.channels = channels;
        self.rate = rate;
        self.decoded = Ghost(before + loaded);
        assert(self.packet@.skip(0) =~= self.packet@);
        assert(self.decoded() =~= self.delivered() + self.packet@.skip(0));
    }

    /// Playback position in nanoseconds: whole frames handed out, over the rate.
    pub fn position_nanos(&self) -> (r: u128)
        requires
            self.wf(),
        ensures
            r == position_of(self.counted() as int, self.channels() as int, self.rate() as int),
    {
        let frames = (self.counted / (self.channels as u64)) as u128;
        assert(frames * NANOS_PER_SEC <= u64::MAX as int * NANOS_PER_SEC) by (nonlinear_arith)
            requires
                frames <= u64::MAX,
        ;
        frames * NANOS_PER_SEC / (self.rate as u128)
    }

    /// Moves the cursor to `target` nanoseconds, held to the total duration:
    /// the current packet is dropped, so the next read decodes afresh, and
    /// the sample count is set to the frame at the target. Returns the held
    /// target, for the demuxer to seek to, and the number of leading samples
    /// to discard after it, so that the interleaving phase carries over.
    pub fn seek(&mut self, target: u64) -> (r: (u64, u16))
        requires
            old(self).wf(),
        ensures
            final(self).wf(),
            r.0 == clamp_target(target as int, old(self).total()),
            r.1 == old(self).counted() % old(self).channels(),
            final(self).packet().len() == 0,
            final(self).decoded() == Seq::<u32>::empty(),
            final(self).delivered() == Seq::<u32>::empty(),
            final(self).counted() == min_u64(frames_at(r.0 as int, old(self).rate() as int) * old(self).channels()),
            final(self).channels() == old(self).channels(),
            final(self).rate() == old(self).rate(),
            final(self).total() == old(self).total(),
    {
        let mut held = target;
        if let Some(total) = self.total {
            if held > total {
                held = total;
            }
        }
        let phase = (self.counted % (self.channels as u64)) as u16;
        assert((held as u128) * (self.rate as u128) <= u64::MAX as int * u32::MAX as int) by (nonlinear_arith)
            requires
                held <= u64::MAX,
                self.rate <= u32::MAX,
        ;
        let product = (held as u128) * (self.rate as u128);
        let frames = product / NANOS_PER_SEC;
        assert(frames * (self.channels as u128) <= (u64::MAX as int * u32::MAX as int) * u16::MAX as int) by (nonlinear_arith)
            requires
                frames <= product,
                product <= u64::MAX as int * u32::MAX as int,
                self.channels <= u16::MAX,
        ;
        let count = frames * (self.channels as u128);
        self.counted = if count > u64::MAX as u128 { u64::MAX } else { count as u64 };
        self.packet = Vec::new();
        self.offset = 0;
        self.decoded = Ghost(Seq::empty());
        self.delivered = Ghost(Seq::empty());
        assert(self.packet@.skip(0) =~= Seq::<u32>::empty());
        (held, phase)
    }

    /// Total duration in nanoseconds, where the container gives it.
    pub fn total_nanos(&self) -> (r: Option<u64>)
        ensures
            r == self.total(),
    {
        self.total
    }
}

pub open spec fn saturating_inc(n: nat) -> nat {
    if n < u64::MAX { n + 1 } else { n }
}

/// `n`, held to what a `u64` counter can reach.
pub open spec fn min_u64(n: int) -> int {
    if n > u64::MAX as int { u64::MAX as int } else { n }
}

/// Turns a mono packet into one of `channels` interleaved channels, each
/// sample repeated on every channel of its frame.
pub fn spread_mono(samples: &Vec<u32>, channels: u16) -> (r: Vec<u32>)
    requires
        channels >= 1,
        samples@.len() * channels <= usize::MAX,
    ensures
        r@.len() == samples@.len() * channels,
        forall|i: int| 0 <= i < r@.len() ==> #[trigger] r@[i] == samples@[i / channels as int],
{
    let ch = channels as usize;
    let mut r: Vec<u32> = Vec::new();
    let mut f: usize = 0;
    while f < samples.len()
        invariant
            ch == channels,
            ch >= 1,
            f <= samples@.len(),
            samples@.len() * ch <= usize::MAX,
            r@.len() == f * ch,
            forall|i: int| 0 <= i < r@.len() ==> #[trigger] r@[i] == samples@[i / ch as int],
        decreases samples@.len() - f,
    {
        let mut c: usize = 0;
        while c < ch
            invariant
                ch == channels,
                ch >= 1,
                f < samples@.len(),
                c <= ch,
                samples@.len() * ch <= usize::MAX,
                r@.len() == f * ch + c,
                forall|i: int| 0 <= i < r@.len() ==> #[trigger] r@[i] == samples@[i / ch as int],
            decreases ch - c,
        {
            assert(f * ch + c < samples@.len() * ch) by (nonlinear_arith)
                requires
                    f < samples@.len(),
                    c < ch,
            ;
            assert((f * ch + c) / ch as int == f) by (nonlinear_arith)
                requires
                    0 <= c < ch,
                    f >= 0,
            ;
            r.push(samples[f]);
            c = c + 1;
        }
        assert((f + 1) * ch == f * ch + ch) by (nonlinear_arith);
        f = f + 1;
    }
    r
}

/// Samples come out exactly as they were decoded, with none dropped,
/// repeated or reordered: what a cursor has handed out is always the start
/// of what was loaded into it, and the rest is still to come.
pub proof fn lemma_delivered_is_prefix(c: DecodeCursor)
    requires
        c.wf(),
    ensures
        c.delivered().len() <= c.decoded().len(),
        c.delivered() == c.decoded().take(c.delivered().len() as int),
        c.decoded().skip(c.delivered().len() as int) == c.packet().skip(c.offset() as int),
{
    assert(c.delivered() =~= c.decoded().take(c.delivered().len() as int));
    assert(c.decoded().skip(c.delivered().len() as int) =~= c.packet().skip(c.offset() as int));
}

/// After a seek to `target`, and the discard of the `phase` leading samples
/// that keep the channel interleaving, the reported position is at most the
/// target held to the total duration, and short of it by less than one
/// frame (and so by less than one block).
pub proof fn lemma_seek_lands_within_a_block(
    target: u64,
    total: Option<u64>,
    rate: u32,
    channels: u16,
    phase: nat,
)
    requires
        rate >= 1,
        channels >= 1,
        phase < channels,
        frames_at(clamp_target(target as int, total), rate as int) * channels + phase <= u64::MAX,
    ensures
        ({
            let held = clamp_target(target as int, total);
            let counted = frames_at(held, rate as int) * channels + phase;
            let pos = position_of(counted, channels as int, rate as int);
            &&& 0 <= pos <= held
            &&& (held - pos) * rate < NANOS_PER_SEC + rate
            &&& (held - pos) * rate <= crate::feeder::BLOCK_FRAMES * NANOS_PER_SEC
        }),
{
    let held = clamp_target(target as int, total);
    let n = NANOS_PER_SEC as int;
    let r = rate as int;
    let ch = channels as int;
    let f = frames_at(held, r);
    assert(held >= 0);
    assert(f >= 0) by (nonlinear_arith)
        requires f == held * r / n, held >= 0, r >= 1, n > 0;
    assert(f * n <= held * r < f * n + n) by (nonlinear_arith)
        requires f == held * r / n, held >= 0, r >= 1, n > 0;
    let counted = f * ch + phase;
    assert(counted / ch == f) by (nonlinear_arith)
        requires counted == f * ch + phase, 0 <= phase < ch, f >= 0;
    let pos = f * n / r;
    assert(pos == position_of(counted, ch, r));
    assert(0 <= pos && pos * r <= f * n < pos * r + r) by (nonlinear_arith)
        requires pos == f * n / r, f >= 0, r >= 1, n > 0;
    assert(pos <= held) by (nonlinear_arith)
        requires pos * r <= f * n, f * n <= held * r, r >= 1;
    assert((held - pos) * r < n + r) by (nonlinear_arith)
        requires held * r < f * n + n, f * n < pos * r + r;
    assert(n + r <= crate::feeder::BLOCK_FRAMES * n + 1);
}

} // verus!
