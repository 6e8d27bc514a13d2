//! A real-time audio synthesis core: a fixed-capacity single-producer /
//! single-consumer ring buffer of sample words, a hot-swappable parameter
//! store with crossfade scheduling, and the render-loop state machine that
//! drives block synthesis and backpressure.
//!
//! Sample data travels through the buffer as 4-byte words (the bit patterns
//! of IEEE 754 single-precision samples); the index arithmetic, capacity
//! accounting and scheduling decisions verified here are independent of how
//! those words are interpreted.

mod engine;
mod params;
mod ringbuf;

pub use engine::AudioEngine;
pub use engine::RenderAction;
pub use engine::MAX_BLOCK_SIZE;
pub use engine::STATS_INTERVAL;
pub use params::crossfade_fade_in_permille;
pub use params::ParameterSnapshot;
pub use params::ParameterStore;
pub use params::Waveform;
pub use params::DEFAULT_AMPLITUDE_BITS;
pub use params::DEFAULT_CROSSFADE_BLOCKS;
pub use params::DEFAULT_FREQUENCY_BITS;
pub use ringbuf::RingBuffer;
