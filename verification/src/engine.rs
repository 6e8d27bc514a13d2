//! The render engine and its scheduling state machine.
//!
//! The engine owns the ring buffer, the parameter store and the per-engine
//! render state. Each cycle the driving loop asks [`AudioEngine::next_action`]
//! what to do: render one block when the buffer has room for it, back off for
//! a fraction of a block's real-time duration when it does not, and halt once
//! stopped. The block itself — oscillators, ensemble summation, crossfade
//! blending — is synthesized outside and committed here as finished sample
//! words; the engine accounts for the write, the frame counter and the
//! statistics cadence.

use vstd::prelude::*;

use crate::params::ParameterSnapshot;
use crate::params::ParameterStore;
use crate::params::Waveform;
use crate::ringbuf::RingBuffer;

verus! {

/// Largest supported render block, in mono samples per cycle. A machine
/// limit: it keeps `2 * block_size` and the backoff arithmetic inside their
/// integer types, far above any real audio block.
pub const MAX_BLOCK_SIZE: usize = 0x0100_0000;

/// Number of successful renders between two statistics emissions.
pub const STATS_INTERVAL: u32 = 100;

/// What the render loop must do next.
#[derive(Clone, Copy, PartialEq, Eq, Structural, Debug)]
pub enum RenderAction {
    /// Space for a full stereo block is free: synthesize and commit one.
    RenderBlock,
    /// The buffer is too full: sleep briefly, then ask again.
    BackOff,
    /// The engine was stopped: leave the loop.
    Halt,
}

/// A render engine: one producer writing synthesized stereo blocks into a
/// fixed-capacity ring buffer at the pace the consumer frees space.
pub struct AudioEngine {
    buffer: RingBuffer,
    params: ParameterStore,
    buffer_size: usize,
    sample_rate_hz: u32,
    parallelism: usize,
    current_frame: u64,
    render_count: u32,
    is_running: bool,
}

impl AudioEngine {
    /// The engine's ring buffer.
    pub closed spec fn ring(self) -> RingBuffer {
        self.buffer
    }

    /// The parameter cells, as the snapshot a reader would take now.
    pub closed spec fn params(self) -> ParameterSnapshot {
        self.params.snapshot()
    }

    /// Mono samples per rendered block.
    pub closed spec fn block_size(self) -> int {
        self.buffer_size as int
    }

    /// Sample rate in Hz.
    pub closed spec fn rate_hz(self) -> int {
        self.sample_rate_hz as int
    }

    /// Number of detuned ensemble instances rendered per block.
    pub closed spec fn ensemble_size(self) -> int {
        self.parallelism as int
    }

    /// Monotonic count of mono frames rendered so far.
    pub closed spec fn frame(self) -> int {
        self.current_frame as int
    }

    /// Successful renders since the last statistics emission.
    pub closed spec fn stats_count(self) -> int {
        self.render_count as int
    }

    /// Whether the render loop should keep cycling.
    pub closed spec fn running(self) -> bool {
        self.is_running
    }

    /// A usable engine: a well-formed buffer and construction parameters
    /// inside their machine limits.
    pub open spec fn wf(self) -> bool {
        &&& self.ring().well_formed()
        &&& 1 <= self.block_size() <= MAX_BLOCK_SIZE
        &&& self.rate_hz() >= 1
        &&& self.params().crossfade_remaining <= crate::params::DEFAULT_CROSSFADE_BLOCKS
    }

    /// Everything but the parameter cells is the same in both states.
    pub open spec fn same_except_params(pre: AudioEngine, post: AudioEngine) -> bool {
        &&& post.ring() == pre.ring()
        &&& post.block_size() == pre.block_size()
        &&& post.rate_hz() == pre.rate_hz()
        &&& post.ensemble_size() == pre.ensemble_size()
        &&& post.frame() == pre.frame()
        &&& post.stats_count() == pre.stats_count()
        &&& post.running() == pre.running()
    }

    /// The construction parameters and parameter cells are the same in both
    /// states; only the render state (buffer, frame, statistics, running
    /// flag) may differ.
    pub open spec fn same_config(pre: AudioEngine, post: AudioEngine) -> bool {
        &&& post.params() == pre.params()
        &&& post.block_size() == pre.block_size()
        &&& post.rate_hz() == pre.rate_hz()
        &&& post.ensemble_size() == pre.ensemble_size()
    }

    /// Builds a stopped engine over an empty buffer of `total_slots` cells,
    /// with the initial parameters and the crossfade armed for the opening
    /// fade-in.
    pub fn new(
        total_slots: usize,
        buffer_size: usize,
        sample_rate_hz: u32,
        parallelism: usize,
        waveform: Waveform,
    ) -> (engine: AudioEngine)
        requires
            total_slots >= 1,
            1 <= buffer_size <= MAX_BLOCK_SIZE,
            sample_rate_hz >= 1,
        ensures
            engine.wf(),
            engine.ring().total_slots() == total_slots,
            engine.ring().contents() == Seq::<u32>::empty(),
            engine.ring().available_space() == total_slots - 1,
            engine.params().waveform == waveform,
            engine.params().frequency_bits == crate::params::DEFAULT_FREQUENCY_BITS,
            engine.params().amplitude_bits == crate::params::DEFAULT_AMPLITUDE_BITS,
            engine.params().crossfade_remaining == crate::params::DEFAULT_CROSSFADE_BLOCKS,
            engine.block_size() == buffer_size,
            engine.rate_hz() == sample_rate_hz,
            engine.ensemble_size() == parallelism,
            engine.frame() == 0,
            engine.stats_count() == 0,
            !engine.running(),
    {
        AudioEngine {
            buffer: RingBuffer::new(total_slots),
            params: ParameterStore::new(waveform),
            buffer_size,
            sample_rate_hz,
            parallelism,
            current_frame: 0,
            render_count: 0,
            is_running: false,
        }
    }

    /// Publishes a new waveform and re-arms the crossfade counter.
    pub fn set_waveform(&mut self, waveform: Waveform)
        ensures
            final(self).params() == (ParameterSnapshot {
                waveform,
                crossfade_remaining: crate::params::DEFAULT_CROSSFADE_BLOCKS,
                ..old(self).params()
            }),
            AudioEngine::same_except_params(*old(self), *final(self)),
            old(self).wf() ==> final(self).wf(),
    {
        self.params.set_waveform(waveform);
    }

    /// Publishes a new base frequency (as sample-word bits) and re-arms the
    /// crossfade counter.
    pub fn set_frequency(&mut self, frequency_bits: u32)
        ensures
            final(self).params() == (ParameterSnapshot {
                frequency_bits,
                crossfade_remaining: crate::params::DEFAULT_CROSSFADE_BLOCKS,
                ..old(self).params()
            }),
            AudioEngine::same_except_params(*old(self), *final(self)),
            old(self).wf() ==> final(self).wf(),
    {
        self.params.set_frequency(frequency_bits);
    }

    /// Publishes a new amplitude (as sample-word bits) and re-arms the
    /// crossfade counter.
    pub fn set_amplitude(&mut self, amplitude_bits: u32)
        ensures
            final(self).params() == (ParameterSnapshot {
                amplitude_bits,
                crossfade_remaining: crate::params::DEFAULT_CROSSFADE_BLOCKS,
                ..old(self).params()
            }),
            AudioEngine::same_except_params(*old(self), *final(self)),
            old(self).wf() ==> final(self).wf(),
    {
        self.params.set_amplitude(amplitude_bits);
    }

    /// The snapshot the render loop takes once per cycle.
    pub fn read_snapshot(&self) -> (s: ParameterSnapshot)
        ensures
            s == self.params(),
    {
        self.params.read_snapshot()
    }

    /// Lets the render loop start cycling.
    pub fn start(&mut self)
        ensures
            final(self).running(),
            final(self).ring() == old(self).ring(),
            final(self).frame() == old(self).frame(),
            final(self).stats_count() == old(self).stats_count(),
            AudioEngine::same_config(*old(self), *final(self)),
            final(self).wf() == old(self).wf(),
    {
        self.is_running = true;
    }

    /// Requests that the render loop exit; it observes the flag within one
    /// cycle.
    pub fn stop(&mut self)
        ensures
            !final(self).running(),
            final(self).ring() == old(self).ring(),
            final(self).frame() == old(self).frame(),
            final(self).stats_count() == old(self).stats_count(),
            AudioEngine::same_config(*old(self), *final(self)),
            final(self).wf() == old(self).wf(),
    {
        self.is_running = false;
    }

    /// Whether the render loop should keep cycling.
    pub fn is_running(&self) -> (r: bool)
        ensures
            r == self.running(),
    {
        self.is_running
    }

    /// Monotonic count of mono frames rendered so far.
    pub fn get_current_frame(&self) -> (frame: u64)
        ensures
            frame as int == self.frame(),
    {
        self.current_frame
    }

    /// Read-only access to the ring buffer, for inspection and for the
    /// consumer-side peek.
    pub fn buffer(&self) -> (rb: &RingBuffer)
        ensures
            *rb == self.ring(),
    {
        &self.buffer
    }

    /// The scheduling decision of one render cycle: render a block when a
    /// full stereo block fits into the buffer's free space, back off when
    /// it does not, halt once stopped. Backpressure is a decision, never an
    /// error.
    pub fn next_action(&self) -> (action: RenderAction)
        requires
            self.wf(),
        ensures
            action == RenderAction::Halt <==> !self.running(),
            action == RenderAction::RenderBlock <==> self.running() && self.ring().available_space()
                >= 2 * self.block_size(),
            action == RenderAction::BackOff <==> self.running() && self.ring().available_space() < 2
                * self.block_size(),
    {
        if !self.is_running {
            return RenderAction::Halt;
        }
        let available = self.buffer.available_to_write();
        if available >= 2 * self.buffer_size {
            RenderAction::RenderBlock
        } else {
            RenderAction::BackOff
        }
    }

    /// How long a backed-off cycle sleeps: a quarter of one block's
    /// real-time duration, in whole milliseconds.
    pub fn backoff_millis(&self) -> (ms: u64)
        requires
            self.wf(),
        ensures
            ms == self.block_size() * 1000 / self.rate_hz() / 4,
    {
        (self.buffer_size as u64) * 1000 / (self.sample_rate_hz as u64) / 4
    }

    /// Commits one finished stereo block to the ring buffer and accounts
    /// for it: the write copies what fits (all of it, when the loop asked
    /// `next_action` first), the frame counter advances by one block of
    /// mono frames, and one more render counts toward the statistics
    /// cadence.
    pub fn commit_block(&mut self, block: &[u32]) -> (written: usize)
        requires
            old(self).wf(),
            block@.len() == 2 * old(self).block_size(),
            old(self).frame() + old(self).block_size() <= u64::MAX,
            old(self).stats_count() < u32::MAX,
        ensures
            final(self).wf(),
            written as int == if block@.len() as int <= old(self).ring().available_space() {
                block@.len() as int
            } else {
                old(self).ring().available_space()
            },
            final(self).ring().contents() == old(self).ring().contents() + block@.take(
                written as int,
            ),
            final(self).ring().total_slots() == old(self).ring().total_slots(),
            final(self).ring().read_at() == old(self).ring().read_at(),
            final(self).frame() == old(self).frame() + old(self).block_size(),
            final(self).stats_count() == old(self).stats_count() + 1,
            final(self).running() == old(self).running(),
            AudioEngine::same_config(*old(self), *final(self)),
    {
        let written = self.buffer.write(block);
        self.current_frame = self.current_frame + (self.buffer_size as u64);
        self.render_count = self.render_count + 1;
        written
    }

    /// The statistics gate checked once per cycle: reports whether the
    /// cadence was reached, and if so resets the render counter so that the
    /// caller emits one aggregated statistics event and starts the next
    /// interval.
    pub fn take_stats_due(&mut self) -> (due: bool)
        ensures
            due <==> old(self).stats_count() == STATS_INTERVAL,
            due ==> final(self).stats_count() == 0,
            !due ==> *final(self) == *old(self),
            final(self).ring() == old(self).ring(),
            final(self).frame() == old(self).frame(),
            final(self).running() == old(self).running(),
            AudioEngine::same_config(*old(self), *final(self)),
            final(self).wf() == old(self).wf(),
    {
        if self.render_count == STATS_INTERVAL {
            self.render_count = 0;
            true
        } else {
            false
        }
    }

    /// One render cycle's view of the crossfade counter: whether the fresh
    /// block must be blended against the previous one, consuming one
    /// smoothing block if so.
    pub fn crossfade_step(&mut self) -> (active: bool)
        ensures
            active <==> old(self).params().crossfade_remaining > 0,
            active ==> final(self).params() == (ParameterSnapshot {
                crossfade_remaining: (old(self).params().crossfade_remaining - 1) as u32,
                ..old(self).params()
            }),
            !active ==> *final(self) == *old(self),
            AudioEngine::same_except_params(*old(self), *final(self)),
            old(self).wf() ==> final(self).wf(),
    {
        self.params.crossfade_step()
    }

    /// Consumer-side drain: releases the oldest `count` buffered samples.
    /// The render loop never calls this; it stands for the playback
    /// consumer on the other side of the shared region.
    pub fn consume_samples(&mut self, count: usize)
        requires
            old(self).wf(),
            count as int <= old(self).ring().contents().len(),
        ensures
            final(self).wf(),
            final(self).ring().contents() == old(self).ring().contents().skip(count as int),
            final(self).ring().total_slots() == old(self).ring().total_slots(),
            final(self).ring().write_at() == old(self).ring().write_at(),
            final(self).ring().available_space() == old(self).ring().available_space() + count,
            final(self).frame() == old(self).frame(),
            final(self).stats_count() == old(self).stats_count(),
            final(self).running() == old(self).running(),
            AudioEngine::same_config(*old(self), *final(self)),
    {
        proof {
            self.buffer.lemma_capacity_conservation();
        }
        self.buffer.advance_read(count);
    }
}

} // verus!
