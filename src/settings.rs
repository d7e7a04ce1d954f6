use vstd::prelude::*;

verus! {

/// Default amount of time, in milliseconds, allowed to the transcriber.
pub const DEFAULT_LATENCY_MS: u32 = 4000;

/// Default accumulation cut-off, in milliseconds (0: do not accumulate).
pub const DEFAULT_ACCUMULATE_MS: u32 = 0;

/// Nanoseconds in one millisecond.
pub const NSECS_PER_MSEC: u64 = 1_000_000;

/// Caption styles of the CEA-608 encoder.
#[derive(Clone, Copy, Debug, PartialEq, Eq, Structural)]
pub enum Cea608Mode {
    PopOn,
    PaintOn,
    RollUp2,
    RollUp3,
    RollUp4,
}

impl Cea608Mode {
    /// Roll-up styles display text as it arrives and never accumulate it.
    pub open spec fn spec_is_rollup(self) -> bool {
        self is RollUp2 || self is RollUp3 || self is RollUp4
    }

    pub fn is_rollup(&self) -> (r: bool)
        ensures
            r == self.spec_is_rollup(),
    {
        match self {
            Cea608Mode::RollUp2 | Cea608Mode::RollUp3 | Cea608Mode::RollUp4 => true,
            _ => false,
        }
    }
}

/// A frame rate, as a fraction of frames per second.
#[derive(Clone, Copy, Debug, PartialEq, Eq, Structural)]
pub struct Fraction {
    pub numer: i32,
    pub denom: i32,
}

impl Fraction {
    pub fn new(numer: i32, denom: i32) -> (r: Fraction)
        ensures
            r.numer == numer,
            r.denom == denom,
    {
        Fraction { numer, denom }
    }

    /// The frame rate assumed when the video format does not give one.
    pub fn fallback() -> (r: Fraction)
        ensures
            r == spec_fallback_framerate(),
    {
        Fraction { numer: 30, denom: 1 }
    }
}

pub open spec fn spec_fallback_framerate() -> Fraction {
    Fraction { numer: 30, denom: 1 }
}

/// Converts a duration in milliseconds to nanoseconds; never overflows.
pub fn ms_to_ns(ms: u32) -> (r: u64)
    ensures
        r == ms as int * NSECS_PER_MSEC as int,
{
    assert(ms as int * 1_000_000 <= 0xffff_ffff * 1_000_000) by (nonlinear_arith)
        requires
            ms <= 0xffff_ffff,
    ;
    (ms as u64) * NSECS_PER_MSEC
}

/// Configuration that callers may change at any time, guarded apart from the
/// controller's own state.
#[derive(Clone, Copy, Debug, PartialEq, Eq, Structural)]
pub struct Settings {
    /// Whether captions are left out (bypass) rather than generated.
    pub passthrough: bool,
    /// Maximum latency added by the transcriber, in milliseconds.
    pub latency_ms: u32,
    /// Accumulation cut-off of the text wrapper, in milliseconds (0: disabled).
    pub accumulate_ms: u32,
    /// The captioning style.
    pub mode: Cea608Mode,
}

impl Settings {
    pub open spec fn spec_default() -> Settings {
        Settings {
            passthrough: false,
            latency_ms: DEFAULT_LATENCY_MS,
            accumulate_ms: DEFAULT_ACCUMULATE_MS,
            mode: Cea608Mode::RollUp2,
        }
    }

    /// Time, in nanoseconds, that the passthrough queues must be able to hold.
    pub open spec fn spec_max_size_time(self) -> int {
        (self.latency_ms as int + self.accumulate_ms as int) * NSECS_PER_MSEC as int
    }

    /// Accumulation budget handed to the text wrapper, in nanoseconds.
    pub open spec fn spec_accumulate_budget(self) -> int {
        if self.mode.spec_is_rollup() {
            0
        } else {
            self.accumulate_ms as int * NSECS_PER_MSEC as int
        }
    }

    pub fn max_size_time(&self) -> (r: u64)
        ensures
            r == self.spec_max_size_time(),
    {
        ms_to_ns(self.latency_ms) + ms_to_ns(self.accumulate_ms)
    }

    pub fn accumulate_budget(&self) -> (r: u64)
        ensures
            r == self.spec_accumulate_budget(),
    {
        if self.mode.is_rollup() {
            0
        } else {
            ms_to_ns(self.accumulate_ms)
        }
    }
}

impl Default for Settings {
    fn default() -> (r: Settings)
        ensures
            r == Settings::spec_default(),
    {
        Settings {
            passthrough: false,
            latency_ms: DEFAULT_LATENCY_MS,
            accumulate_ms: DEFAULT_ACCUMULATE_MS,
            mode: Cea608Mode::RollUp2,
        }
    }
}

} // verus!
