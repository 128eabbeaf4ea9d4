//! Speeds, the duration thresholds derived from them, and timed signals.
use vstd::prelude::*;

verus! {

/// Milliseconds per unit at `wpm` words per minute (PARIS standard: 50 units
/// to a word, so 60000 / 50 = 1200 ms per word-minute).
pub fn wpm_to_ms(wpm: u32) -> (r: u32)
    requires
        wpm > 0,
    ensures
        r == 1200u32 / wpm,
{
    1200 / wpm
}

/// One observed or generated interval: the line is on, or off, for
/// `duration` milliseconds.
#[derive(Clone, Copy, Debug, PartialEq, Eq, Structural)]
pub struct Signal {
    pub on: bool,
    pub duration: u32,
}

/// The four thresholds of one direction, in milliseconds: a dot lasts
/// `unit`, a dash `long`; a silence of `break_gap` ends a symbol and one
/// longer than `word_gap` ends a word.
#[derive(Clone, Copy, Debug, PartialEq, Eq, Structural)]
pub struct TimingProfile {
    pub unit: u32,
    pub long: u32,
    pub break_gap: u32,
    pub word_gap: u32,
}

impl TimingProfile {
    /// All four are positive and a dot is shorter than a dash.
    pub open spec fn wf(self) -> bool {
        &&& 0 < self.unit < self.long
        &&& 0 < self.break_gap
        &&& 0 < self.word_gap
    }

    /// The thresholds of a speed setting: a dash is three units; the
    /// symbol break three and the word space seven units of the (slower)
    /// Farnsworth speed.
    pub fn from_config(config: SignalConfig) -> (r: TimingProfile)
        requires
            config.fits(),
        ensures
            r == config.profile(),
            config.valid() ==> r.wf(),
    {
        TimingProfile {
            unit: config.unit_ms,
            long: config.unit_ms * 3,
            break_gap: config.fw_ms * 3,
            word_gap: config.fw_ms * 7,
        }
    }
}

/// The speed setting of one direction.
#[derive(Clone, Copy, Debug, Default, PartialEq, Eq, Structural)]
pub struct SignalConfig {
    /// Milliseconds per unit.
    pub unit_ms: u32,
    /// Milliseconds per unit of the spacing between symbols and words.
    pub fw_ms: u32,
    /// Tone frequency.
    pub freq: u32,
}

impl SignalConfig {
    /// The derived thresholds fit in 32 bits.
    pub open spec fn fits(self) -> bool {
        &&& self.unit_ms * 3 <= u32::MAX
        &&& self.fw_ms * 7 <= u32::MAX
    }

    /// Both speeds are positive.
    pub open spec fn valid(self) -> bool {
        &&& self.fits()
        &&& self.unit_ms > 0
        &&& self.fw_ms > 0
    }

    pub open spec fn profile(self) -> TimingProfile {
        TimingProfile {
            unit: self.unit_ms,
            long: (self.unit_ms * 3) as u32,
            break_gap: (self.fw_ms * 3) as u32,
            word_gap: (self.fw_ms * 7) as u32,
        }
    }
}

/// Settings for decoding live input.
#[derive(Clone, Copy, Debug, Default, PartialEq, Eq, Structural)]
pub struct InputConfig {
    pub signal: SignalConfig,
}

/// Settings for playing replies back.
#[derive(Clone, Copy, Debug, Default, PartialEq, Eq, Structural)]
pub struct OutputConfig {
    pub signal: SignalConfig,
}

/// The capture and the playback speeds, set independently.
#[derive(Clone, Copy, Debug, PartialEq, Eq, Structural)]
pub struct CwConfig {
    pub input: InputConfig,
    pub output: OutputConfig,
}

impl CwConfig {
    pub open spec fn fits(self) -> bool {
        self.input.signal.fits() && self.output.signal.fits()
    }
}

impl Default for CwConfig {
    /// Input at 15 words per minute, output at 20, both spaced at 10.
    fn default() -> (r: Self)
        ensures
            r.input.signal == (SignalConfig { unit_ms: 80, fw_ms: 120, freq: 550 }),
            r.output.signal == (SignalConfig { unit_ms: 60, fw_ms: 120, freq: 650 }),
    {
        CwConfig {
            output: OutputConfig {
                signal: SignalConfig { unit_ms: wpm_to_ms(20), fw_ms: wpm_to_ms(10), freq: 650 },
            },
            input: InputConfig {
                signal: SignalConfig { unit_ms: wpm_to_ms(15), fw_ms: wpm_to_ms(10), freq: 550 },
            },
        }
    }
}

} // verus!
