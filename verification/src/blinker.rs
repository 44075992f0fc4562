//! The main control loop, as a state and the decisions taken on it.
//!
//! The loop itself runs outside this library: each turn it hands over what it
//! found in the pending-press flag, reports what it is told to report, and
//! carries out one blink cycle.

use crate::delay::{next_delay, next_delay_spec, on_cycle, MAX_DELAY_MS};
use crate::flag::{load, store, PendingPress, SharedFlag};
use critical_section::CriticalSection;
use vstd::prelude::*;

verus! {

/// A logic level of the LED line.
#[derive(Clone, Copy, Debug, PartialEq, Eq, Structural)]
pub enum Level {
    Low,
    High,
}

/// One thing the main loop does to the outside during a blink cycle.
#[derive(Clone, Copy, Debug, PartialEq, Eq, Structural)]
pub enum Action {
    /// Block for this many milliseconds.
    Wait(u32),
    /// Drive the LED line to this level.
    Drive(Level),
}

/// The delay after the main loop has looked at the flag and found it set
/// (`pressed`) or clear.
pub open spec fn observed_delay(delay: u32, pressed: bool) -> u32 {
    if pressed {
        next_delay_spec(delay)
    } else {
        delay
    }
}

/// What the main loop reports after it has looked at the flag: the new delay
/// on a press, nothing otherwise.
pub open spec fn observed_report(delay: u32, pressed: bool) -> Option<u32> {
    if pressed {
        Some(next_delay_spec(delay))
    } else {
        None
    }
}

/// One blink cycle at `delay`: wait, LED high, wait, LED low.
pub open spec fn blink_cycle(delay: u32) -> Seq<Action> {
    seq![
        Action::Wait(delay),
        Action::Drive(Level::High),
        Action::Wait(delay),
        Action::Drive(Level::Low),
    ]
}

/// The state that the main loop owns: the current blink delay. It is always
/// one of the eight delays on the cycle, so never below the minimum nor above
/// the maximum.
#[derive(Debug)]
pub struct Blinker {
    delay_ms: u32,
}

impl View for Blinker {
    type V = u32;

    closed spec fn view(&self) -> u32 {
        self.delay_ms
    }
}

impl Blinker {
    /// The delay is always one of the eight values on the cycle.
    #[verifier::type_invariant]
    spec fn delay_on_cycle(self) -> bool {
        on_cycle(self.delay_ms)
    }

    /// The state at start-up: the delay is at its maximum.
    pub fn new() -> (blinker: Self)
        ensures
            blinker@ == MAX_DELAY_MS,
            on_cycle(blinker@),
    {
        Blinker { delay_ms: MAX_DELAY_MS }
    }

    /// The level at which the LED rests: before the first cycle and at the
    /// end of every cycle.
    pub fn rest_level() -> (level: Level)
        ensures
            level == Level::Low,
    {
        Level::Low
    }

    /// The current blink delay in milliseconds.
    pub fn delay_ms(&self) -> (ms: u32)
        ensures
            ms == self@,
            on_cycle(ms),
    {
        proof {
            use_type_invariant(self);
        }
        self.delay_ms
    }

    /// One look of the main loop at the flag: reads it and leaves it clear.
    /// On a press the delay moves one step along the cycle and the new delay
    /// is returned for the diagnostic; without one nothing changes and
    /// nothing is reported.
    pub fn observe(&mut self, pending: &mut PendingPress) -> (report: Option<u32>)
        ensures
            final(self)@ == observed_delay(old(self)@, old(pending)@),
            report == observed_report(old(self)@, old(pending)@),
            !final(pending)@,
            !old(pending)@ ==> *final(self) == *old(self),
            on_cycle(final(self)@),
    {
        proof {
            use_type_invariant(&*self);
        }
        if pending.take() {
            let next = next_delay(self.delay_ms);
            self.delay_ms = next;
            Some(next)
        } else {
            None
        }
    }

    /// One look of the main loop at the shared flag, inside the critical
    /// section `cs`. Whether a press was pending is for the interrupts to
    /// decide: the outcome is that of `observe` on a flag that was set or on
    /// one that was clear.
    pub fn poll(&mut self, flag: &SharedFlag, cs: CriticalSection<'_>) -> (report: Option<u32>)
        ensures
            exists|pressed: bool|
                final(self)@ == #[trigger] observed_delay(old(self)@, pressed) && report
                    == observed_report(old(self)@, pressed),
            report is None ==> *final(self) == *old(self),
            on_cycle(final(self)@),
    {
        let mut pending = load(flag, cs);
        let report = self.observe(&mut pending);
        store(flag, cs, pending);
        report
    }

    /// The blink cycle at the current delay, in the order in which the main
    /// loop carries it out.
    pub fn cycle(&self) -> (actions: [Action; 4])
        ensures
            actions@ == blink_cycle(self@),
    {
        let delay = self.delay_ms;
        let actions = [
            Action::Wait(delay),
            Action::Drive(Level::High),
            Action::Wait(delay),
            Action::Drive(Level::Low),
        ];
        assert(actions@ =~= blink_cycle(self@));
        actions
    }
}

} // verus!
