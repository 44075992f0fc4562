//! The interplay of button, interrupt handler and main loop as a transition
//! system, and what holds of every run of it.
//!
//! A step is something that happens without being interrupted: the hardware
//! latching an edge, the handler running from start to end, or the main loop
//! looking at the flag inside its critical section. That these do not
//! interleave is what the critical section gives; it is taken as given here.
//!
//! On the board the handler's step is the acknowledge at the pin followed by
//! `signal_press`, and the main loop's step is `Blinker::poll`. Here both act
//! on plain values, so that a run can be written down, reasoned about and
//! replayed.

use crate::blinker::{observed_delay, observed_report};
use crate::delay::{
    delay_after, lemma_delay_after_on_cycle, lemma_press_cycle, next_delay, next_delay_spec,
    on_cycle, MAX_DELAY_MS,
};
use vstd::prelude::*;

verus! {

/// The state between two steps.
#[derive(Clone, Copy, Debug, PartialEq, Eq, Structural)]
pub struct System {
    /// The blink delay, owned by the main loop.
    pub delay: u32,
    /// The pending-press flag, shared by handler and main loop.
    pub flag: bool,
    /// The interrupt-pending condition of the button line, kept by the
    /// hardware.
    pub interrupt_pending: bool,
}

/// One uninterrupted step of the system.
#[derive(Clone, Copy, Debug, PartialEq, Eq, Structural)]
pub enum Step {
    /// The button line sees a falling edge and the hardware latches it.
    Edge,
    /// The interrupt handler runs: it clears the interrupt-pending condition
    /// and raises the flag.
    Service,
    /// The main loop looks at the flag, clears it, and on a press moves the
    /// delay one step.
    Observe,
}

/// The state at power-up.
pub open spec fn initial() -> System {
    System { delay: MAX_DELAY_MS, flag: false, interrupt_pending: false }
}

/// The state after one step.
pub open spec fn step(s: System, e: Step) -> System {
    match e {
        Step::Edge => System { interrupt_pending: true, ..s },
        Step::Service => System { flag: true, interrupt_pending: false, ..s },
        Step::Observe => System { delay: observed_delay(s.delay, s.flag), flag: false, ..s },
    }
}

/// The state after the steps of `trace`, in order.
pub open spec fn run(s: System, trace: Seq<Step>) -> System
    decreases trace.len(),
{
    if trace.len() == 0 {
        s
    } else {
        step(run(s, trace.drop_last()), trace.last())
    }
}

/// How many times the main loop found a press along `trace`; each time it
/// moved the delay one step and emitted one diagnostic.
pub open spec fn observed(s: System, trace: Seq<Step>) -> nat
    decreases trace.len(),
{
    if trace.len() == 0 {
        0
    } else {
        let before = run(s, trace.drop_last());
        let found: nat = if trace.last() is Observe && before.flag {
            1
        } else {
            0
        };
        observed(s, trace.drop_last()) + found
    }
}

/// How many times the handler ran along `trace`.
pub open spec fn serviced(trace: Seq<Step>) -> nat
    decreases trace.len(),
{
    if trace.len() == 0 {
        0
    } else {
        let ran: nat = if trace.last() is Service {
            1
        } else {
            0
        };
        serviced(trace.drop_last()) + ran
    }
}

/// The state at power-up.
pub fn power_up() -> (s: System)
    ensures
        s == initial(),
{
    System { delay: MAX_DELAY_MS, flag: false, interrupt_pending: false }
}

/// Carries out one step on `s`.
pub fn advance(s: System, e: Step) -> (next: System)
    ensures
        next == step(s, e),
{
    match e {
        Step::Edge => System { delay: s.delay, flag: s.flag, interrupt_pending: true },
        Step::Service => System { delay: s.delay, flag: true, interrupt_pending: false },
        Step::Observe => {
            let delay = if s.flag {
                next_delay(s.delay)
            } else {
                s.delay
            };
            System { delay, flag: false, interrupt_pending: s.interrupt_pending }
        },
    }
}

/// No step of `trace` is the main loop looking at the flag: the trace lies
/// within one blink cycle.
pub open spec fn within_one_cycle(trace: Seq<Step>) -> bool {
    forall|i: int| 0 <= i < trace.len() ==> !(#[trigger] trace[i] is Observe)
}

/// Looking at the flag when it is clear changes nothing and reports nothing.
pub proof fn lemma_observe_clear_flag(s: System)
    requires
        !s.flag,
    ensures
        step(s, Step::Observe) == s,
        observed_report(s.delay, s.flag) is None,
{
}

/// The flag becomes set only by the handler, and in the state in which it has
/// become set the interrupt-pending condition is clear. The main loop never
/// touches that condition, and neither the hardware nor the main loop raises
/// the flag.
pub proof fn lemma_flag_raised_with_interrupt_cleared(s: System, e: Step)
    ensures
        step(s, e).flag && !s.flag ==> e is Service && !step(s, e).interrupt_pending,
        e is Service ==> step(s, e).flag && !step(s, e).interrupt_pending,
        e is Observe ==> step(s, e).interrupt_pending == s.interrupt_pending,
        e is Edge ==> step(s, e).flag == s.flag,
{
}

/// The delay at the end of a run is the delay at its start moved by as many
/// steps as presses were found.
pub proof fn lemma_run_delay(s: System, trace: Seq<Step>)
    ensures
        run(s, trace).delay == delay_after(s.delay, observed(s, trace)),
    decreases trace.len(),
{
    if trace.len() > 0 {
        lemma_run_delay(s, trace.drop_last());
    }
}

/// From power-up the delay is `400 - 50 * (n mod 8)` after `n` presses were
/// found, whatever else happened in between.
pub proof fn lemma_run_from_power_up(trace: Seq<Step>)
    ensures
        run(initial(), trace).delay == 400 - 50 * (observed(initial(), trace) % 8),
        on_cycle(run(initial(), trace).delay),
{
    lemma_run_delay(initial(), trace);
    lemma_press_cycle(observed(initial(), trace));
    lemma_delay_after_on_cycle(MAX_DELAY_MS, observed(initial(), trace));
}

/// Presses do not queue up: along any run the main loop finds at most one
/// press for each time the handler ran, counting a press that was already
/// pending at the start and one that is still pending at the end.
pub proof fn lemma_found_at_most_serviced(s: System, trace: Seq<Step>)
    ensures
        observed(s, trace) + (if run(s, trace).flag { 1nat } else { 0nat })
            <= serviced(trace) + (if s.flag { 1nat } else { 0nat }),
    decreases trace.len(),
{
    if trace.len() > 0 {
        lemma_found_at_most_serviced(s, trace.drop_last());
    }
}

/// Without a press the system stays as it is: if no press is pending and the
/// handler never runs, the delay keeps its value and nothing is reported,
/// however often the main loop looks.
pub proof fn lemma_no_press_no_change(s: System, trace: Seq<Step>)
    requires
        !s.flag,
        serviced(trace) == 0,
    ensures
        run(s, trace).delay == s.delay,
        !run(s, trace).flag,
        observed(s, trace) == 0,
{
    lemma_found_at_most_serviced(s, trace);
    lemma_run_delay(s, trace);
}

/// Within one blink cycle the delay does not move.
pub proof fn lemma_within_one_cycle_keeps_delay(s: System, trace: Seq<Step>)
    requires
        within_one_cycle(trace),
    ensures
        run(s, trace).delay == s.delay,
        observed(s, trace) == 0,
    decreases trace.len(),
{
    if trace.len() > 0 {
        let rest = trace.drop_last();
        assert(!(trace[trace.len() - 1] is Observe));
        assert forall|i: int| 0 <= i < rest.len() implies !(#[trigger] rest[i] is Observe) by {
            assert(rest[i] == trace[i]);
        }
        lemma_within_one_cycle_keeps_delay(s, rest);
    }
}

/// Any number of presses within one blink cycle count as one: after a trace
/// in which the handler ran at least once and the main loop did not look, the
/// delay is still unchanged, the next look moves it by exactly one step and
/// clears the flag, and the look after that changes nothing.
pub proof fn lemma_presses_coalesce(s: System, trace: Seq<Step>)
    requires
        within_one_cycle(trace),
        serviced(trace) >= 1,
    ensures
        run(s, trace).delay == s.delay,
        run(s, trace).flag,
        step(run(s, trace), Step::Observe).delay == next_delay_spec(s.delay),
        !step(run(s, trace), Step::Observe).flag,
        step(step(run(s, trace), Step::Observe), Step::Observe) == step(
            run(s, trace),
            Step::Observe,
        ),
    decreases trace.len(),
{
    lemma_within_one_cycle_keeps_delay(s, trace);
    let rest = trace.drop_last();
    assert(trace.len() > 0);
    assert(!(trace[trace.len() - 1] is Observe));
    if !(trace.last() is Service) {
        assert forall|i: int| 0 <= i < rest.len() implies !(#[trigger] rest[i] is Observe) by {
            assert(rest[i] == trace[i]);
        }
        lemma_presses_coalesce(s, rest);
    }
}

} // verus!
