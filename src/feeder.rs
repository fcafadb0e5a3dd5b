//! The feeder's side of playback: the slot that holds the one active
//! decoding session, and the assembly of fixed-size blocks from what a
//! session yields.
use vstd::prelude::*;

verus! {

/// Channels of every block the feeder produces.
pub const CHANNELS: usize = 2;

/// Frames in one block.
pub const BLOCK_FRAMES: usize = 512;

/// Interleaved samples in one block.
pub const BLOCK_SAMPLES: usize = BLOCK_FRAMES * CHANNELS;

/// Blocks a playback ring holds.
pub const RING_BLOCKS: usize = 8;

/// Samples a playback ring holds.
pub const RING_CAPACITY: usize = BLOCK_SAMPLES * RING_BLOCKS;

/// Whether the stream ended at or before index `i` of `pulled`.
pub open spec fn ended_by(pulled: Seq<Option<u32>>, i: int) -> bool {
    exists|j: int| 0 <= j <= i && #[trigger] pulled[j].is_none()
}

/// The block made from the samples pulled from a session: each pulled
/// sample in its place, and silence from the end of the stream on.
pub open spec fn block_of(pulled: Seq<Option<u32>>) -> Seq<u32> {
    Seq::new(
        pulled.len(),
        |i: int|
            if ended_by(pulled, i) {
                0u32
            } else {
                pulled[i].unwrap()
            },
    )
}

/// Builds a block from the samples pulled from a session, one pull per slot.
/// Returns the block and whether the stream ended within it; from the first
/// missing sample on the block is silent.
pub fn assemble_block(pulled: &Vec<Option<u32>>) -> (r: (Vec<u32>, bool))
    ensures
        r.0@ == block_of(pulled@),
        r.1 == ended_by(pulled@, pulled@.len() - 1),
{
    let mut block: Vec<u32> = Vec::with_capacity(pulled.len());
    let mut ended = false;
    let mut i: usize = 0;
    while i < pulled.len()
        invariant
            i <= pulled@.len(),
            block@.len() == i,
            ended == ended_by(pulled@, i - 1),
            forall|k: int| 0 <= k < i ==> block@[k] == block_of(pulled@)[k],
        decreases pulled@.len() - i,
    {
        match pulled[i] {
            Some(s) => {
                if ended {
                    block.push(0);
                } else {
                    block.push(s);
                }
            },
            None => {
                ended = true;
                block.push(0);
            },
        }
        proof {
            if ended_by(pulled@, i as int - 1) {
                let j = choose|j: int| 0 <= j <= i - 1 && #[trigger] pulled@[j].is_none();
                assert(0 <= j <= i && pulled@[j].is_none());
            }
            if pulled@[i as int].is_none() {
                assert(ended_by(pulled@, i as int));
            }
            if ended_by(pulled@, i as int) && !pulled@[i as int].is_none() {
                let j = choose|j: int| 0 <= j <= i && #[trigger] pulled@[j].is_none();
                assert(j != i);
                assert(ended_by(pulled@, i as int - 1));
            }
        }
        i = i + 1;
    }
    assert(block@ =~= block_of(pulled@));
    (block, ended)
}

/// A block of silence.
pub fn silent_block() -> (r: Vec<u32>)
    ensures
        r@ == Seq::new(BLOCK_SAMPLES as nat, |i: int| 0u32),
{
    let mut block: Vec<u32> = Vec::with_capacity(BLOCK_SAMPLES);
    let mut i: usize = 0;
    while i < BLOCK_SAMPLES
        invariant
            i <= BLOCK_SAMPLES,
            block@.len() == i,
            forall|k: int| 0 <= k < i ==> block@[k] == 0u32,
        decreases BLOCK_SAMPLES - i,
    {
        block.push(0);
        i = i + 1;
    }
    assert(block@ =~= Seq::new(BLOCK_SAMPLES as nat, |i: int| 0u32));
    block
}

/// The one place that holds the active decoding session, if any. Every
/// transition goes through it: a start or a stop moves to a new generation,
/// and a session that the feeder took out for a block is put back only if no
/// start or stop came in the meantime and its stream did not end.
pub struct PlaybackSlot<D> {
    session: Option<D>,
    generation: u64,
}

/// The slot's state after a start of `d`.
pub open spec fn started<D>(s: (Option<D>, u64), d: D) -> (Option<D>, u64) {
    (Some(d), next_generation(s.1))
}

/// The slot's state after a stop.
pub open spec fn stopped<D>(s: (Option<D>, u64)) -> (Option<D>, u64) {
    (None, next_generation(s.1))
}

/// The slot's state after the feeder hands back `d`, taken out at
/// `generation`, with `ended` telling whether its stream ended.
pub open spec fn handed_back<D>(s: (Option<D>, u64), d: D, generation: u64, ended: bool) -> (
    Option<D>,
    u64,
) {
    if s.0.is_none() && s.1 == generation && !ended {
        (Some(d), s.1)
    } else {
        s
    }
}

pub open spec fn next_generation(g: u64) -> u64 {
    if g == u64::MAX { 0 } else { (g + 1) as u64 }
}

impl<D> PlaybackSlot<D> {
    /// The session held, and the generation of the last start or stop.
    pub closed spec fn view(&self) -> (Option<D>, u64) {
        (self.session, self.generation)
    }

    /// An empty slot.
    pub fn new() -> (r: PlaybackSlot<D>)
        ensures
            r@ == (None::<D>, 0u64),
    {
        PlaybackSlot { session: None, generation: 0 }
    }

    /// Whether a session is active.
    pub fn is_active(&self) -> (b: bool)
        ensures
            b == self@.0.is_some(),
    {
        self.session.is_some()
    }

    /// Makes `d` the active session, dropping whatever was active.
    pub fn start(&mut self, d: D)
        ensures
            final(self)@ == started(old(self)@, d),
    {
        self.session = Some(d);
        self.generation = if self.generation == u64::MAX { 0 } else { self.generation + 1 };
    }

    /// Drops the active session, if any.
    pub fn stop(&mut self)
        ensures
            final(self)@ == stopped(old(self)@),
    {
        self.session = None;
        self.generation = if self.generation == u64::MAX { 0 } else { self.generation + 1 };
    }

    /// Takes the active session out, for the feeder to decode one block
    /// from, together with the generation to hand it back under.
    pub fn take(&mut self) -> (r: Option<(D, u64)>)
        ensures
            final(self)@ == (None::<D>, old(self)@.1),
            r == match old(self)@.0 {
                Some(d) => Some((d, old(self)@.1)),
                None => None::<(D, u64)>,
            },
    {
        match self.session.take() {
            Some(d) => Some((d, self.generation)),
            None => None,
        }
    }

    /// Puts back a session taken out at `generation`, unless its stream
    /// `ended` or a start or stop came in since it was taken; in those cases
    /// it is dropped and the slot is left as it is.
    pub fn hand_back(&mut self, d: D, generation: u64, ended: bool)
        ensures
            final(self)@ == handed_back(old(self)@, d, generation, ended),
    {
        if self.session.is_none() && self.generation == generation && !ended {
            self.session = Some(d);
        }
    }
}

/// A start replaces the active session outright: a session that the feeder
/// took out before the start is never put back over the new one, whether or
/// not its stream ended, so no block mixes samples of the two.
pub proof fn lemma_start_replaces<D>(s: (Option<D>, u64), d_old: D, d_new: D, ended: bool)
    requires
        s.0.is_none(),
    ensures
        handed_back(started(s, d_new), d_old, s.1, ended) == started(s, d_new),
        started(s, d_new).0 == Some(d_new),
{
}

} // verus!
