//! The switch that turns the phase timers on and off.

use vstd::prelude::*;

verus! {

/// What a build of the compiler has of the instrumentation.
#[derive(Clone, Copy, Debug, PartialEq, Eq, Structural)]
pub struct Build {
    /// Whether the target has a system clock to read.
    pub has_clock: bool,
    /// Whether timers and recorders are left out of the build.
    pub no_timers: bool,
    /// Whether every timer that starts is counted.
    pub counts_starts: bool,
}

/// The switch of the timers and the recorders.
///
/// Timers cost a clock read each, so they are off until a profiler asks for them.
#[derive(Clone, Copy, Debug, PartialEq, Eq, Structural)]
pub struct TimerSwitch {
    /// Whether the timers were asked for.
    pub enabled: bool,
    /// What the build has of them.
    pub build: Build,
}

impl TimerSwitch {
    /// Whether recorders accumulate.
    pub open spec fn recording(self) -> bool {
        self.enabled && !self.build.no_timers
    }

    /// Whether a timer that starts reads the clock.
    pub open spec fn timing(self) -> bool {
        self.enabled && !self.build.no_timers && self.build.has_clock
    }

    /// Whether a timer that starts is counted.
    pub open spec fn counting(self) -> bool {
        self.timing() && self.build.counts_starts
    }

    /// The switch of a process that has asked for no timers.
    pub fn new(build: Build) -> (r: TimerSwitch)
        ensures
            r == (TimerSwitch { enabled: false, build }),
    {
        TimerSwitch { enabled: false, build }
    }

    /// Whether recorders accumulate.
    pub fn is_recording(&self) -> (r: bool)
        ensures
            r == self.recording(),
            r == (self.enabled && !self.build.no_timers),
    {
        !self.build.no_timers && timers_enabled(self)
    }
}

/// Turns the phase timers on or off.
pub fn set_timers_enabled(switch: &mut TimerSwitch, on: bool)
    ensures
        *final(switch) == (TimerSwitch { enabled: on, ..*old(switch) }),
{
    switch.enabled = on;
}

/// Whether the phase timers were turned on.
pub fn timers_enabled(switch: &TimerSwitch) -> (r: bool)
    ensures
        r == switch.enabled,
{
    switch.enabled
}

} // verus!
