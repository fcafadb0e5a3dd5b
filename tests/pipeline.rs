use soundboard::{
    all_pass_delay, assemble_block, comb_delays, deinterleave, interleave, silent_block,
    spread_mono, ChunkStage, DecodeCursor, DelayLine, FilterChain, PlaybackSlot, SampleRing,
    SampleTransformer, Shittify, BLOCK_SAMPLES,
};

#[test]
fn ring_keeps_a_push_that_fits() {
    let mut ring = SampleRing::new(8);
    assert_eq!(ring.push(&[1, 2, 3, 4, 5, 6, 7, 8]), 8);
    assert_eq!(ring.len(), 8);
    let mut out = [9u32; 8];
    assert_eq!(ring.pop_or_silence(&mut out), 8);
    assert_eq!(out, [1, 2, 3, 4, 5, 6, 7, 8]);
}

#[test]
fn ring_drops_what_does_not_fit() {
    let mut ring = SampleRing::new(4);
    assert_eq!(ring.push(&[1, 2, 3]), 3);
    assert_eq!(ring.push(&[4, 5, 6]), 1);
    let mut out = [0u32; 4];
    assert_eq!(ring.pop_or_silence(&mut out), 4);
    assert_eq!(out, [1, 2, 3, 4]);
}

#[test]
fn ring_pads_a_short_pop_with_silence() {
    let mut ring = SampleRing::new(16);
    ring.push(&[7, 8, 9]);
    let mut out = [5u32; 6];
    assert_eq!(ring.pop_or_silence(&mut out), 3);
    assert_eq!(out, [7, 8, 9, 0, 0, 0]);
    assert_eq!(ring.len(), 0);
}

#[test]
fn ring_halves_carry_samples_in_order() {
    let ring = SampleRing::new(8);
    let (mut prod, mut cons) = ring.split();
    assert_eq!(prod.push(&[1, 2, 3]), 3);
    let mut out = [4u32; 5];
    assert_eq!(cons.pop_or_silence(&mut out), 3);
    assert_eq!(out, [1, 2, 3, 0, 0]);
}

#[test]
fn block_is_silent_after_end_of_stream() {
    let pulled = vec![Some(1), Some(2), None, Some(4)];
    let (block, ended) = assemble_block(&pulled);
    assert_eq!(block, vec![1, 2, 0, 0]);
    assert!(ended);
    let (block, ended) = assemble_block(&vec![Some(3), Some(4)]);
    assert_eq!(block, vec![3, 4]);
    assert!(!ended);
}

#[test]
fn silent_block_is_all_zero() {
    let b = silent_block();
    assert_eq!(b.len(), BLOCK_SAMPLES);
    assert!(b.iter().all(|&s| s == 0));
}

#[test]
fn cursor_reads_packet_and_counts_position() {
    let mut c = DecodeCursor::new(vec![10, 11, 12, 13], 2, 4, Some(5_000_000_000));
    assert_eq!(c.next_buffered(), Some(10));
    assert_eq!(c.next_buffered(), Some(11));
    assert_eq!(c.next_buffered(), Some(12));
    assert_eq!(c.next_buffered(), Some(13));
    assert!(c.needs_packet());
    assert_eq!(c.next_buffered(), None);
    // two frames at four frames a second
    assert_eq!(c.position_nanos(), 500_000_000);
    c.load_packet(vec![20, 21], 2, 4);
    assert_eq!(c.next_buffered(), Some(20));
    assert_eq!(c.total_nanos(), Some(5_000_000_000));
}

#[test]
fn seek_is_held_to_the_total_duration() {
    let mut c = DecodeCursor::new(vec![1, 2, 3], 2, 48000, Some(2_000_000_000));
    c.next_buffered();
    let (target, discard) = c.seek(10_000_000_000);
    assert_eq!(target, 2_000_000_000);
    assert_eq!(discard, 1);
    assert!(c.needs_packet());
    assert_eq!(c.position_nanos(), 2_000_000_000);
}

#[test]
fn seek_position_is_within_a_block_of_the_target() {
    let mut c = DecodeCursor::new(vec![], 2, 44100, None);
    let (target, discard) = c.seek(1_234_567_891);
    assert_eq!(target, 1_234_567_891);
    assert_eq!(discard, 0);
    let pos = c.position_nanos();
    assert!(pos <= 1_234_567_891);
    assert!(1_234_567_891 - pos < 1_000_000_000 / 44100 + 1);
}

#[test]
fn mono_is_spread_over_channels() {
    assert_eq!(spread_mono(&vec![1, 2, 3], 2), vec![1, 1, 2, 2, 3, 3]);
    assert_eq!(spread_mono(&vec![], 2), Vec::<u32>::new());
}

#[test]
fn second_start_replaces_the_first_session() {
    let mut slot: PlaybackSlot<&str> = PlaybackSlot::new();
    slot.start("first");
    let (taken, generation) = slot.take().unwrap();
    assert_eq!(taken, "first");
    slot.start("second");
    slot.hand_back(taken, generation, false);
    let (now, _) = slot.take().unwrap();
    assert_eq!(now, "second");
}

#[test]
fn ended_session_is_not_handed_back() {
    let mut slot: PlaybackSlot<u8> = PlaybackSlot::new();
    slot.start(1);
    let (d, g) = slot.take().unwrap();
    slot.hand_back(d, g, true);
    assert!(!slot.is_active());
    slot.start(2);
    let (d, g) = slot.take().unwrap();
    slot.hand_back(d, g, false);
    assert!(slot.is_active());
    slot.stop();
    assert!(!slot.is_active());
}

#[test]
fn distortion_boosts_clips_and_halves() {
    let s = Shittify::new(12, 8000);
    assert_eq!(s.distort_pcm(100), 600);
    assert_eq!(s.distort_pcm(1000), 4000);
    assert_eq!(s.distort_pcm(-1000), -4000);
    assert_eq!(s.distort_pcm(-1), -6);
    assert_eq!(Shittify::new(3, 0).distort_pcm(123), 0);
}

#[test]
fn distortion_wraps_a_ceiling_above_sixteen_bits() {
    let s = Shittify::new(2, 40000);
    // 30000 * 2 = 60000 clips to 40000, which wraps to -25536 on sixteen
    // bits, then halves
    assert_eq!(s.distort_pcm(30000), -12768);
}

#[test]
fn reverb_delays_scale_with_rate() {
    assert_eq!(comb_delays(44100), vec![1116, 1188, 1277, 1356]);
    assert_eq!(comb_delays(48000), vec![1214, 1293, 1389, 1475]);
    assert_eq!(all_pass_delay(44100), 556);
    assert_eq!(all_pass_delay(48000), 605);
    assert_eq!(all_pass_delay(1), 1);
}

#[test]
fn delay_line_returns_input_after_its_length() {
    let mut d = DelayLine::new(3, 0i32);
    let mut out = Vec::new();
    for x in [1, 2, 3, 4, 5] {
        out.push(d.oldest());
        d.write(x);
    }
    assert_eq!(out, vec![0, 0, 0, 1, 2]);
}

#[derive(Clone)]
struct Gain(f32);

#[derive(Clone)]
struct Offset(f32);

#[derive(Clone)]
enum Stage {
    Gain(Gain),
    Offset(Offset),
}

impl SampleTransformer<f32> for Stage {
    fn output(&self, sample: f32) -> f32 {
        self.clone().filter(sample)
    }

    fn next(&self, sample: f32) -> Stage {
        let mut after = self.clone();
        after.filter(sample);
        after
    }

    fn filter(&mut self, sample: f32) -> f32 {
        match self {
            Stage::Gain(g) => sample * g.0,
            Stage::Offset(o) => sample + o.0,
        }
    }
}

#[test]
fn empty_chain_is_identity() {
    let mut chain: FilterChain<Stage> = FilterChain::new(48000);
    for x in [0.0f32, 0.5, -1.0, 0.123] {
        assert_eq!(chain.filter(x), x);
    }
    assert_eq!(chain.sample_rate(), 48000);
}

#[test]
fn chain_applies_stages_in_order() {
    let mut chain: FilterChain<Stage> = FilterChain::new(48000);
    chain.rebuild(vec![Stage::Gain(Gain(2.0)), Stage::Offset(Offset(1.0))]);
    assert_eq!(chain.filter(3.0), 7.0);
    chain.rebuild(vec![Stage::Offset(Offset(1.0)), Stage::Gain(Gain(2.0))]);
    assert_eq!(chain.filter(3.0), 8.0);
    assert_eq!(chain.len(), 2);
}

#[test]
fn chunks_are_handed_out_whole() {
    let mut stage = ChunkStage::new(4);
    stage.feed(vec![1, 2, 3]);
    assert_eq!(stage.take_chunk(), None);
    stage.feed(vec![4, 5, 6]);
    assert_eq!(stage.take_chunk(), Some(vec![1, 2, 3, 4]));
    assert_eq!(stage.len(), 2);
    assert_eq!(stage.take_chunk(), None);
    assert_eq!(stage.take_rest(), Some(vec![5, 6, 0, 0]));
    assert_eq!(stage.take_rest(), None);
    stage.feed(vec![9]);
    stage.clear();
    assert_eq!(stage.len(), 0);
}

#[test]
fn planes_round_trip() {
    let samples = vec![1.0f32, -1.0, 2.0, -2.0, 3.0, -3.0];
    let planes = deinterleave(&samples, 2);
    assert_eq!(planes, vec![vec![1.0, 2.0, 3.0], vec![-1.0, -2.0, -3.0]]);
    assert_eq!(interleave(&planes, 3), samples);
    assert_eq!(deinterleave(&vec![7u32, 8, 9], 1), vec![vec![7, 8, 9]]);
}

#[test]
fn mic_filter_toggle_only_changes_filtered_path() {
    let mut chain: FilterChain<Stage> = FilterChain::new(48000);
    chain.rebuild(vec![Stage::Gain(Gain(0.5))]);
    assert_eq!(chain.filter_if(false, 0.8), 0.8);
    assert_eq!(chain.filter_if(true, 0.8), 0.4);
}

#[test]
fn distortion_stages_chain_in_order() {
    let mut chain: FilterChain<Shittify> = FilterChain::new(44100);
    chain.rebuild(vec![Shittify::new(4, 30000), Shittify::new(1, 100)]);
    // 1000 * 4 = 4000, halved to 2000; then clipped to 100 and halved to 50
    assert_eq!(chain.filter(1000i16), 50);
    chain.rebuild(vec![Shittify::new(1, 100), Shittify::new(4, 30000)]);
    // clipped to 100, halved to 50; then 50 * 4 = 200, halved to 100
    assert_eq!(chain.filter(1000i16), 100);
}
