//! The microphone filter chain and the integer parts of its stages: the
//! re-quantizing distortion, the delay lengths of the reverb, and the delay
//! lines its comb and all-pass filters run on.
use vstd::prelude::*;

verus! {

/// One stage of a filter chain: turns each sample into a new one, keeping
/// whatever state it needs between samples. `output` names what the stage
/// makes of a sample in its present state, `next` the state it moves to.
pub trait SampleTransformer<S>: Sized {
    spec fn output(&self, sample: S) -> S;

    spec fn next(&self, sample: S) -> Self;

    fn filter(&mut self, sample: S) -> (r: S)
        ensures
            r == old(self).output(sample),
            *final(self) == old(self).next(sample);
}

/// What a chain of `stages` makes of `x`: the sample passed through each
/// stage in turn, first to last.
pub open spec fn chain_output<S, F: SampleTransformer<S>>(stages: Seq<F>, x: S) -> S
    decreases stages.len(),
{
    if stages.len() == 0 {
        x
    } else {
        stages.last().output(chain_output(stages.drop_last(), x))
    }
}

/// The stages of a chain after they have passed `x` along.
pub open spec fn chain_after<S, F: SampleTransformer<S>>(stages: Seq<F>, x: S) -> Seq<F>
    decreases stages.len(),
{
    if stages.len() == 0 {
        Seq::empty()
    } else {
        chain_after(stages.drop_last(), x).push(
            stages.last().next(chain_output(stages.drop_last(), x)),
        )
    }
}

/// An ordered list of filter stages, applied to every microphone sample,
/// together with the output rate that new stages are built for.
pub struct FilterChain<F> {
    stages: Vec<F>,
    sample_rate: u32,
}

impl<F> FilterChain<F> {
    pub closed spec fn stages(&self) -> Seq<F> {
        self.stages@
    }

    pub closed spec fn spec_sample_rate(&self) -> u32 {
        self.sample_rate
    }

    /// A chain with no stages, for output at `sample_rate`.
    pub fn new(sample_rate: u32) -> (r: FilterChain<F>)
        ensures
            r.stages() == Seq::<F>::empty(),
            r.spec_sample_rate() == sample_rate,
    {
        FilterChain { stages: Vec::new(), sample_rate }
    }

    /// The output rate that stages are built for.
    pub fn sample_rate(&self) -> (r: u32)
        ensures
            r == self.spec_sample_rate(),
    {
        self.sample_rate
    }

    /// Number of stages.
    pub fn len(&self) -> (n: usize)
        ensures
            n == self.stages().len(),
    {
        self.stages.len()
    }

    /// Passes `sample` through every stage, first to last. A chain with no
    /// stages hands the sample back unchanged.
    pub fn filter<S>(&mut self, sample: S) -> (r: S) where F: SampleTransformer<S>
        ensures
            r == chain_output(old(self).stages(), sample),
            final(self).stages() == chain_after(old(self).stages(), sample),
            final(self).spec_sample_rate() == old(self).spec_sample_rate(),
            old(self).stages().len() == 0 ==> r == sample,
    {
        let ghost start = self.stages@;
        let mut x = sample;
        let mut i: usize = 0;
        assert(start.take(0) =~= Seq::<F>::empty());
        assert(start.skip(0) =~= start);
        assert(self.stages@ =~= chain_after(start.take(0), sample) + start.skip(0));
        while i < self.stages.len()
            invariant
                i <= start.len(),
                self.stages@.len() == start.len(),
                self.sample_rate == old(self).sample_rate,
                x == chain_output(start.take(i as int), sample),
                self.stages@ == chain_after(start.take(i as int), sample) + start.skip(i as int),
            decreases start.len() - i,
        {
            let ghost before = self.stages@;
            assert(before[i as int] == start[i as int]);
            x = self.stages[i].filter(x);
            proof {
                let t = start.take(i + 1);
                assert(t.drop_last() =~= start.take(i as int));
                assert(t.last() == start[i as int]);
                assert(self.stages@ =~= chain_after(t, sample) + start.skip(i + 1));
            }
            i = i + 1;
        }
        assert(start.take(start.len() as int) =~= start);
        assert(start.skip(start.len() as int) =~= Seq::<F>::empty());
        assert(self.stages@ =~= chain_after(start, sample));
        x
    }

    /// The microphone's share of the virtual output: the sample passed
    /// through the chain while the filter is `enabled`, the raw sample
    /// otherwise.
    pub fn filter_if<S>(&mut self, enabled: bool, sample: S) -> (r: S) where F: SampleTransformer<S>
        ensures
            final(self).spec_sample_rate() == old(self).spec_sample_rate(),
            enabled ==> r == chain_output(old(self).stages(), sample) && final(self).stages()
                == chain_after(old(self).stages(), sample),
            !enabled ==> r == sample && final(self).stages() == old(self).stages(),
            old(self).stages().len() == 0 ==> r == sample,
    {
        if enabled {
            self.filter(sample)
        } else {
            sample
        }
    }

    /// Replaces every stage at once with `stages`, in the order given.
    pub fn rebuild(&mut self, stages: Vec<F>)
        ensures
            final(self).stages() == stages@,
            final(self).spec_sample_rate() == old(self).spec_sample_rate(),
    {
        self.stages = stages;
    }
}

/// Halving that rounds toward zero, as integer division does.
pub open spec fn half_toward_zero(x: int) -> int {
    if x >= 0 { x / 2 } else { -((-x) / 2) }
}

/// The distortion of one 16-bit sample: multiplied by `strength`, clipped to
/// `cutoff` either way, brought back to 16 bits, and halved.
pub open spec fn distorted(s: i16, strength: i32, cutoff: i32) -> i16 {
    let p = s as int * strength as int;
    let c = if p < -(cutoff as int) {
        -(cutoff as int)
    } else if p > cutoff as int {
        cutoff as int
    } else {
        p
    };
    half_toward_zero((c as i16) as int) as i16
}

/// Crude re-quantizing distortion: a sample is boosted by an integer factor,
/// clipped hard, and rolled off by half.
#[derive(Clone, Copy, Debug)]
pub struct Shittify {
    strength: i32,
    cutoff: i32,
}

impl Shittify {
    #[verifier::type_invariant]
    spec fn inv(&self) -> bool {
        self.cutoff >= 0
    }

    /// The boost factor.
    pub closed spec fn spec_strength(&self) -> i32 {
        self.strength
    }

    /// The clipping ceiling.
    pub closed spec fn spec_cutoff(&self) -> i32 {
        self.cutoff
    }

    /// A distortion stage with the given boost factor and clipping ceiling.
    pub fn new(strength: i32, cutoff: i32) -> (r: Shittify)
        requires
            cutoff >= 0,
        ensures
            r.spec_strength() == strength,
            r.spec_cutoff() == cutoff,
    {
        Shittify { strength, cutoff }
    }

    /// Distorts one sample on the 16-bit scale.
    pub fn distort_pcm(&self, s: i16) -> (r: i16)
        ensures
            r == distorted(s, self.spec_strength(), self.spec_cutoff()),
    {
        proof {
            use_type_invariant(self);
        }
        assert(-32768 * 2147483648 <= (s as int) * (self.strength as int) <= 32768 * 2147483648) by (nonlinear_arith)
            requires
                -32768 <= s <= 32767,
                -2147483648 <= self.strength <= 2147483647,
        ;
        let p = (s as i64) * (self.strength as i64);
        let c: i64 = if p < -(self.cutoff as i64) {
            -(self.cutoff as i64)
        } else if p > self.cutoff as i64 {
            self.cutoff as i64
        } else {
            p
        };
        let w = (#[verifier::truncate] (c as i16)) as i32;
        let h: i32 = if w >= 0 { w / 2 } else { -((-w) / 2) };
        h as i16
    }
}

impl SampleTransformer<i16> for Shittify {
    open spec fn output(&self, sample: i16) -> i16 {
        distorted(sample, self.spec_strength(), self.spec_cutoff())
    }

    open spec fn next(&self, sample: i16) -> Shittify {
        *self
    }

    fn filter(&mut self, sample: i16) -> (r: i16) {
        self.distort_pcm(sample)
    }
}

/// Delay length, in samples at 44.1 kHz, of the reverb's first comb filter.
pub const COMB_TUNING_1: u32 = 1116;

/// Delay length, in samples at 44.1 kHz, of the second comb filter.
pub const COMB_TUNING_2: u32 = 1188;

/// Delay length, in samples at 44.1 kHz, of the third comb filter.
pub const COMB_TUNING_3: u32 = 1277;

/// Delay length, in samples at 44.1 kHz, of the fourth and longest comb
/// filter.
pub const COMB_TUNING_4: u32 = 1356;

/// Delay length, in samples at 44.1 kHz, of the reverb's all-pass filter.
pub const ALL_PASS_TUNING: u32 = 556;

/// The rate the delay lengths are given for.
pub const TUNING_RATE: u32 = 44100;

/// A delay length given at 44.1 kHz, scaled to `rate` (rounded down, and
/// never below one sample).
pub open spec fn scaled_delay(base: int, rate: int) -> int {
    let n = base * rate / TUNING_RATE as int;
    if n < 1 { 1 } else { n }
}

fn scale_delay(base: u32, rate: u32) -> (r: usize)
    requires
        base <= COMB_TUNING_4,
    ensures
        r == scaled_delay(base as int, rate as int),
{
    assert(base as int * rate as int <= 1356 * u32::MAX as int) by (nonlinear_arith)
        requires
            base <= 1356,
            rate <= u32::MAX,
    ;
    let p = (base as u64) * (rate as u64);
    let n = p / (TUNING_RATE as u64);
    assert(n * 44100 <= p) by (nonlinear_arith)
        requires
            n == p / 44100,
            p >= 0,
    ;
    if n < 1 {
        1
    } else {
        n as usize
    }
}

/// The delay lengths of the four comb filters at `rate`.
pub fn comb_delays(rate: u32) -> (r: Vec<usize>)
    ensures
        r@ == seq![
            scaled_delay(COMB_TUNING_1 as int, rate as int) as usize,
            scaled_delay(COMB_TUNING_2 as int, rate as int) as usize,
            scaled_delay(COMB_TUNING_3 as int, rate as int) as usize,
            scaled_delay(COMB_TUNING_4 as int, rate as int) as usize,
        ],
{
    let mut r: Vec<usize> = Vec::new();
    r.push(scale_delay(COMB_TUNING_1, rate));
    r.push(scale_delay(COMB_TUNING_2, rate));
    r.push(scale_delay(COMB_TUNING_3, rate));
    r.push(scale_delay(COMB_TUNING_4, rate));
    assert(r@ =~= seq![
        scaled_delay(COMB_TUNING_1 as int, rate as int) as usize,
        scaled_delay(COMB_TUNING_2 as int, rate as int) as usize,
        scaled_delay(COMB_TUNING_3 as int, rate as int) as usize,
        scaled_delay(COMB_TUNING_4 as int, rate as int) as usize,
    ]);
    r
}

/// The delay length of the all-pass filter at `rate`.
pub fn all_pass_delay(rate: u32) -> (r: usize)
    ensures
        r == scaled_delay(ALL_PASS_TUNING as int, rate as int),
{
    scale_delay(ALL_PASS_TUNING, rate)
}

/// A circular delay line: what is written comes out again after as many
/// writes as the line is long.
#[derive(Clone)]
pub struct DelayLine<T> {
    buffer: Vec<T>,
    index: usize,
}

impl<T: Copy> DelayLine<T> {
    /// The samples held, oldest first.
    pub closed spec fn view(&self) -> Seq<T> {
        self.buffer@.skip(self.index as int) + self.buffer@.take(self.index as int)
    }

    pub closed spec fn wf(&self) -> bool {
        self.index < self.buffer@.len()
    }

    /// A line of `len` samples, each `fill`.
    pub fn new(len: usize, fill: T) -> (r: DelayLine<T>)
        requires
            len >= 1,
        ensures
            r.wf(),
            r@ == Seq::new(len as nat, |i: int| fill),
    {
        let mut buffer: Vec<T> = Vec::with_capacity(len);
        let mut i: usize = 0;
        while i < len
            invariant
                i <= len,
                buffer@.len() == i,
                forall|k: int| 0 <= k < i ==> buffer@[k] == fill,
            decreases len - i,
        {
            buffer.push(fill);
            i = i + 1;
        }
        let r = DelayLine { buffer, index: 0 };
        assert(r@ =~= Seq::new(len as nat, |i: int| fill));
        r
    }

    /// The oldest sample held: the one that leaves on the next write.
    pub fn oldest(&self) -> (r: T)
        requires
            self.wf(),
        ensures
            r == self@[0],
    {
        self.buffer[self.index]
    }

    /// Drops the oldest sample and appends `v`.
    pub fn write(&mut self, v: T)
        requires
            old(self).wf(),
        ensures
            final(self).wf(),
            final(self)@ == old(self)@.drop_first().push(v),
    {
        let ghost before = self@;
        let ghost buf = self.buffer@;
        let ghost idx = self.index as int;
        self.buffer[self.index] = v;
        if self.index == self.buffer.len() - 1 {
            self.index = 0;
        } else {
            self.index = self.index + 1;
        }
        assert(self@ =~= before.drop_first().push(v));
    }
}

} // verus!
