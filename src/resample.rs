//! Staging around the resampler: raw samples are gathered into chunks of a
//! fixed number of frames, split into one plane per channel for the
//! resampler, and its planes are interleaved again afterwards.
use vstd::prelude::*;

verus! {

/// Gathers interleaved samples and hands them out in chunks of a fixed size.
pub struct ChunkStage {
    pending: Vec<u32>,
    chunk: usize,
}

impl ChunkStage {
    /// Samples gathered and not yet handed out, oldest first.
    pub closed spec fn pending(&self) -> Seq<u32> {
        self.pending@
    }

    /// Samples in one chunk.
    pub closed spec fn chunk(&self) -> nat {
        self.chunk as nat
    }

    /// A stage for chunks of `chunk` samples, with nothing gathered.
    pub fn new(chunk: usize) -> (r: ChunkStage)
        requires
            chunk >= 1,
        ensures
            r.pending() == Seq::<u32>::empty(),
            r.chunk() == chunk,
    {
        ChunkStage { pending: Vec::new(), chunk }
    }

    /// Number of samples gathered.
    pub fn len(&self) -> (n: usize)
        ensures
            n == self.pending().len(),
    {
        self.pending.len()
    }

    /// Gathers `samples` after what is pending.
    pub fn feed(&mut self, samples: Vec<u32>)
        ensures
            final(self).pending() == old(self).pending() + samples@,
            final(self).chunk() == old(self).chunk(),
    {
        let mut s = samples;
        self.pending.append(&mut s);
    }

    /// Hands out the oldest full chunk, if one has been gathered.
    pub fn take_chunk(&mut self) -> (r: Option<Vec<u32>>)
        ensures
            final(self).chunk() == old(self).chunk(),
            old(self).pending().len() >= old(self).chunk() ==> {
                &&& r.is_some()
                &&& r.unwrap()@ == old(self).pending().take(old(self).chunk() as int)
                &&& final(self).pending() == old(self).pending().skip(old(self).chunk() as int)
            },
            old(self).pending().len() < old(self).chunk() ==> r.is_none() && final(self).pending()
                == old(self).pending(),
    {
        if self.pending.len() < self.chunk {
            return None;
        }
        let mut head = self.pending.split_off(self.chunk);
        std::mem::swap(&mut head, &mut self.pending);
        Some(head)
    }

    /// At the end of the stream: hands out what is pending, filled up to a
    /// whole chunk with silence, or `None` when nothing is pending.
    pub fn take_rest(&mut self) -> (r: Option<Vec<u32>>)
        requires
            old(self).pending().len() < old(self).chunk(),
        ensures
            final(self).chunk() == old(self).chunk(),
            final(self).pending() == Seq::<u32>::empty(),
            old(self).pending().len() == 0 ==> r.is_none(),
            old(self).pending().len() > 0 ==> r.is_some() && r.unwrap()@ == old(self).pending() + Seq::new(
                (old(self).chunk() - old(self).pending().len()) as nat,
                |i: int| 0u32,
            ),
    {
        if self.pending.len() == 0 {
            return None;
        }
        let mut out: Vec<u32> = Vec::new();
        std::mem::swap(&mut out, &mut self.pending);
        let ghost start = out@;
        while out.len() < self.chunk
            invariant
                start.len() <= out@.len() <= self.chunk,
                out@.take(start.len() as int) == start,
                forall|k: int| start.len() <= k < out@.len() ==> out@[k] == 0u32,
            decreases self.chunk - out@.len(),
        {
            out.push(0);
            assert(out@.take(start.len() as int) =~= start);
        }
        assert(out@ =~= start + Seq::new((self.chunk - start.len()) as nat, |i: int| 0u32));
        Some(out)
    }

    /// Drops everything gathered, as after a seek.
    pub fn clear(&mut self)
        ensures
            final(self).pending() == Seq::<u32>::empty(),
            final(self).chunk() == old(self).chunk(),
    {
        self.pending.clear();
    }
}

/// Splits interleaved samples into one plane per channel: plane `c` holds
/// sample `c` of every frame.
pub fn deinterleave<T: Copy>(samples: &Vec<T>, channels: usize) -> (r: Vec<Vec<T>>)
    requires
        channels >= 1,
        samples@.len() as int % (channels as int) == 0,
    ensures
        r@.len() == channels,
        forall|c: int| 0 <= c < channels ==> #[trigger] r@[c]@.len() == samples@.len() as int / (channels as int),
        forall|c: int, f: int|
            0 <= c < channels && 0 <= f < samples@.len() as int / (channels as int) ==> #[trigger] r@[c]@[f]
                == samples@[f * channels + c],
{
    let n = samples.len();
    let frames = n / channels;
    assert(frames * channels == samples@.len()) by (nonlinear_arith)
        requires
            frames == samples@.len() as int / (channels as int),
            samples@.len() as int % (channels as int) == 0,
            channels >= 1,
    ;
    let mut r: Vec<Vec<T>> = Vec::new();
    let mut c: usize = 0;
    while c < channels
        invariant
            c <= channels,
            n == samples@.len(),
            frames * channels == samples@.len(),
            frames == samples@.len() as int / (channels as int),
            r@.len() == c,
            forall|c2: int| 0 <= c2 < c ==> #[trigger] r@[c2]@.len() == frames,
            forall|c2: int, f: int|
                0 <= c2 < c && 0 <= f < frames ==> #[trigger] r@[c2]@[f] == samples@[f * channels + c2],
        decreases channels - c,
    {
        let mut plane: Vec<T> = Vec::with_capacity(frames);
        let mut f: usize = 0;
        while f < frames
            invariant
                c < channels,
                f <= frames,
                n == samples@.len(),
                frames * channels == samples@.len(),
                plane@.len() == f,
                forall|g: int| 0 <= g < f ==> #[trigger] plane@[g] == samples@[g * channels + c],
            decreases frames - f,
        {
            assert(f * channels + c < frames * channels) by (nonlinear_arith)
                requires
                    f < frames,
                    c < channels,
            ;
            plane.push(samples[f * channels + c]);
            f = f + 1;
        }
        r.push(plane);
        c = c + 1;
    }
    r
}

/// Joins planes of equal length into interleaved samples: frame `f` holds
/// sample `f` of every plane, in plane order.
pub fn interleave<T: Copy>(planes: &Vec<Vec<T>>, frames: usize) -> (r: Vec<T>)
    requires
        planes@.len() >= 1,
        forall|c: int| 0 <= c < planes@.len() ==> #[trigger] planes@[c]@.len() == frames,
        frames * planes@.len() <= usize::MAX,
    ensures
        r@.len() == frames * planes@.len(),
        forall|f: int, c: int|
            0 <= f < frames && 0 <= c < planes@.len() ==> #[trigger] r@[f * planes@.len() + c]
                == planes@[c]@[f],
{
    let channels = planes.len();
    let mut r: Vec<T> = Vec::new();
    let mut f: usize = 0;
    while f < frames
        invariant
            channels == planes@.len(),
            channels >= 1,
            f <= frames,
            frames * channels <= usize::MAX,
            forall|c: int| 0 <= c < channels ==> #[trigger] planes@[c]@.len() == frames,
            r@.len() == f * channels,
            forall|g: int, c: int|
                0 <= g < f && 0 <= c < channels ==> #[trigger] r@[g * channels + c] == planes@[c]@[g],
        decreases frames - f,
    {
        let mut c: usize = 0;
        while c < channels
            invariant
                channels == planes@.len(),
                channels >= 1,
                f < frames,
                c <= channels,
                frames * channels <= usize::MAX,
                forall|c2: int| 0 <= c2 < channels ==> #[trigger] planes@[c2]@.len() == frames,
                r@.len() == f * channels + c,
                forall|g: int, c2: int|
                    0 <= g < f && 0 <= c2 < channels ==> #[trigger] r@[g * channels + c2] == planes@[c2]@[g],
                forall|c2: int| 0 <= c2 < c ==> #[trigger] r@[f * channels + c2] == planes@[c2]@[f as int],
            decreases channels - c,
        {
            assert(f * channels + c < frames * channels) by (nonlinear_arith)
                requires
                    f < frames,
                    c < channels,
            ;
            let ghost before = r@;
            r.push(planes[c][f]);
            assert forall|g: int, c2: int| 0 <= g < f && 0 <= c2 < channels implies #[trigger] r@[g
                * channels + c2] == planes@[c2]@[g] by {
                assert(g * channels + c2 < f * channels) by (nonlinear_arith)
                    requires
                        0 <= g < f,
                        0 <= c2 < channels,
                ;
                assert(r@[g * channels + c2] == before[g * channels + c2]);
            }
            c = c + 1;
        }
        assert((f + 1) * channels == f * channels + channels) by (nonlinear_arith);
        f = f + 1;
    }
    r
}

} // verus!
