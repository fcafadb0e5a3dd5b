//! Verified core of a soundboard engine that routes a microphone into a
//! virtual output device and mixes sound effects into it: the sample rings
//! that carry audio between threads, the slot that holds the one playing
//! session and the feeder's block assembly, the decoder's read cursor and
//! position bookkeeping, the staging around the resampler, the filter chain
//! and the integer parts of its stages, and the command and hotkey handling
//! around them.
//!
//! Samples are `f32` values; where the library holds them itself they travel
//! as their bit patterns (`f32::to_bits`), the all-zero pattern being
//! silence.

pub mod control;
pub mod decoder;
pub mod feeder;
pub mod filter;
pub mod keys;
pub mod resample;
pub mod ring;
pub mod trigger;

pub use control::{
    find_matching, format_time_left, name_matches_query, Action, ActionSlot, StateStatus,
};
pub use decoder::{spread_mono, DecodeCursor};
pub use feeder::{
    assemble_block, silent_block, PlaybackSlot, BLOCK_FRAMES, BLOCK_SAMPLES, CHANNELS,
    RING_BLOCKS, RING_CAPACITY,
};
pub use filter::{
    all_pass_delay, comb_delays, DelayLine, FilterChain, SampleTransformer, Shittify,
};
pub use keys::{map_key, HotkeyHandler, Key, Keybind, TermKey};
pub use resample::{deinterleave, interleave, ChunkStage};
pub use ring::{SampleConsumer, SampleProducer, SampleRing};
pub use trigger::{draw_effect, pick_effect, playback_status};
