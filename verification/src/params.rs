//! Hot-swappable synthesis parameters.
//!
//! Each parameter lives in its own independently-published cell: the control
//! path may change pitch, volume or waveform at any time without stalling
//! the render thread, and the render loop reads one snapshot per cycle. A
//! snapshot is not transactionally consistent across fields; the crossfade
//! counter absorbs the resulting discontinuity. Frequency and amplitude are
//! carried as the bit patterns of IEEE 754 single-precision values: the
//! store never interprets them, it only publishes them.

use vstd::prelude::*;

verus! {

/// Number of rendered blocks over which a parameter change is smoothed.
pub const DEFAULT_CROSSFADE_BLOCKS: u32 = 10;

/// Bit pattern of the initial frequency, 440 Hz (A4) as a single-precision
/// value.
pub const DEFAULT_FREQUENCY_BITS: u32 = 0x43DC_0000;

/// Bit pattern of the initial amplitude, 0.15 as a single-precision value.
pub const DEFAULT_AMPLITUDE_BITS: u32 = 0x3E19_999A;

/// Selects which generator of the oscillator bank renders a block.
#[derive(Clone, Copy, PartialEq, Eq, Structural, Debug)]
pub enum Waveform {
    Sine,
    Square,
    Triangle,
    Sawtooth,
}

/// A point-in-time read of the four parameter cells.
#[derive(Clone, Copy, PartialEq, Eq, Structural, Debug)]
pub struct ParameterSnapshot {
    /// Oscillator base frequency in Hz, as sample-word bits.
    pub frequency_bits: u32,
    /// Output amplitude, as sample-word bits.
    pub amplitude_bits: u32,
    /// Waveform rendered by the oscillator bank.
    pub waveform: Waveform,
    /// How many more rendered blocks the crossfade smoother must blend.
    pub crossfade_remaining: u32,
}

/// The parameter cells shared between the control path and the render loop.
/// Every setter that changes the sound also re-arms the crossfade counter so
/// that the smoother masks the discontinuity.
pub struct ParameterStore {
    frequency_bits: u32,
    amplitude_bits: u32,
    waveform: Waveform,
    crossfade_remaining: u32,
}

impl ParameterStore {
    /// The store's current values, as the snapshot a reader would take.
    pub closed spec fn snapshot(self) -> ParameterSnapshot {
        ParameterSnapshot {
            frequency_bits: self.frequency_bits,
            amplitude_bits: self.amplitude_bits,
            waveform: self.waveform,
            crossfade_remaining: self.crossfade_remaining,
        }
    }

    /// The crossfade counter never exceeds the window it is armed with:
    /// every path either sets it to `DEFAULT_CROSSFADE_BLOCKS` or counts it
    /// down.
    pub open spec fn counter_in_range(self) -> bool {
        self.snapshot().crossfade_remaining <= DEFAULT_CROSSFADE_BLOCKS
    }

    /// Builds a store with the initial frequency and amplitude, the given
    /// waveform, and the crossfade counter armed for the opening fade-in.
    pub fn new(waveform: Waveform) -> (store: ParameterStore)
        ensures
            store.snapshot() == (ParameterSnapshot {
                frequency_bits: DEFAULT_FREQUENCY_BITS,
                amplitude_bits: DEFAULT_AMPLITUDE_BITS,
                waveform,
                crossfade_remaining: DEFAULT_CROSSFADE_BLOCKS,
            }),
    {
        ParameterStore {
            frequency_bits: DEFAULT_FREQUENCY_BITS,
            amplitude_bits: DEFAULT_AMPLITUDE_BITS,
            waveform,
            crossfade_remaining: DEFAULT_CROSSFADE_BLOCKS,
        }
    }

    /// Publishes a new base frequency and re-arms the crossfade counter.
    pub fn set_frequency(&mut self, frequency_bits: u32)
        ensures
            final(self).snapshot() == (ParameterSnapshot {
                frequency_bits,
                crossfade_remaining: DEFAULT_CROSSFADE_BLOCKS,
                ..old(self).snapshot()
            }),
    {
        self.frequency_bits = frequency_bits;
        self.crossfade_remaining = DEFAULT_CROSSFADE_BLOCKS;
    }

    /// Publishes a new amplitude and re-arms the crossfade counter.
    pub fn set_amplitude(&mut self, amplitude_bits: u32)
        ensures
            final(self).snapshot() == (ParameterSnapshot {
                amplitude_bits,
                crossfade_remaining: DEFAULT_CROSSFADE_BLOCKS,
                ..old(self).snapshot()
            }),
    {
        self.amplitude_bits = amplitude_bits;
        self.crossfade_remaining = DEFAULT_CROSSFADE_BLOCKS;
    }

    /// Publishes a new waveform and re-arms the crossfade counter.
    pub fn set_waveform(&mut self, waveform: Waveform)
        ensures
            final(self).snapshot() == (ParameterSnapshot {
                waveform,
                crossfade_remaining: DEFAULT_CROSSFADE_BLOCKS,
                ..old(self).snapshot()
            }),
    {
        self.waveform = waveform;
        self.crossfade_remaining = DEFAULT_CROSSFADE_BLOCKS;
    }

    /// Reads all four cells at once; one such read happens per render cycle.
    pub fn read_snapshot(&self) -> (s: ParameterSnapshot)
        ensures
            s == self.snapshot(),
    {
        ParameterSnapshot {
            frequency_bits: self.frequency_bits,
            amplitude_bits: self.amplitude_bits,
            waveform: self.waveform,
            crossfade_remaining: self.crossfade_remaining,
        }
    }

    /// One render cycle's view of the crossfade counter: reports whether
    /// the block being rendered must still be blended against the previous
    /// block, and if so consumes one smoothing block. With the counter
    /// exhausted the block passes through unmodified and nothing changes.
    pub fn crossfade_step(&mut self) -> (active: bool)
        ensures
            active <==> old(self).snapshot().crossfade_remaining > 0,
            active ==> final(self).snapshot() == (ParameterSnapshot {
                crossfade_remaining: (old(self).snapshot().crossfade_remaining - 1) as u32,
                ..old(self).snapshot()
            }),
            !active ==> *final(self) == *old(self),
            old(self).counter_in_range() ==> final(self).counter_in_range(),
    {
        if self.crossfade_remaining > 0 {
            self.crossfade_remaining = self.crossfade_remaining - 1;
            true
        } else {
            false
        }
    }
}

/// Cubic ease-in weight of the crossfade blend, as a fraction of 1000.
/// A block rendered with `remaining` smoothing blocks left is
/// `fraction_done = 1 - remaining / DEFAULT_CROSSFADE_BLOCKS` of the way
/// through the fade, and the fresh block is weighed by
/// `fade_in = fraction_done^3`: zero for the first block after a parameter
/// change, the full weight once the counter is spent.
pub fn crossfade_fade_in_permille(remaining: u32) -> (w: u32)
    requires
        remaining <= DEFAULT_CROSSFADE_BLOCKS,
    ensures
        w == (DEFAULT_CROSSFADE_BLOCKS - remaining) * (DEFAULT_CROSSFADE_BLOCKS - remaining) * (
        DEFAULT_CROSSFADE_BLOCKS - remaining),
        w <= 1000,
        remaining == DEFAULT_CROSSFADE_BLOCKS ==> w == 0,
        remaining == 0 ==> w == 1000,
{
    let done = DEFAULT_CROSSFADE_BLOCKS - remaining;
    proof {
        assert(done * done <= 100) by (nonlinear_arith)
            requires
                0 <= done <= 10,
        ;
        assert(done * done * done <= 1000) by (nonlinear_arith)
            requires
                0 <= done <= 10,
        ;
        if remaining == 0 {
            assert(done * done * done == 1000) by (nonlinear_arith)
                requires
                    done == 10,
            ;
        }
    }
    done * done * done
}

} // verus!
