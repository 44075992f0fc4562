//! The blink delay and the policy by which a button press changes it.
//!
//! A press shortens the delay by one step; at the minimum the next press
//! wraps it back to the maximum. Starting from the maximum this walks the
//! eight values 400, 350, ..., 50 and then repeats.

use vstd::prelude::*;

verus! {

/// Longest blink delay, in milliseconds; also the delay at start-up.
pub const MAX_DELAY_MS: u32 = 400;

/// Shortest blink delay, in milliseconds.
pub const MIN_DELAY_MS: u32 = 50;

/// Amount by which one button press shortens the delay, in milliseconds.
pub const STEP_MS: u32 = 50;

/// Number of distinct delays on the cycle that starts at the maximum.
pub const CYCLE_LEN: u32 = 8;

/// A delay within the bounds that the blinker keeps.
pub open spec fn in_range(delay: u32) -> bool {
    MIN_DELAY_MS <= delay <= MAX_DELAY_MS
}

/// A delay that presses can reach from the maximum: within bounds and a
/// whole number of steps.
pub open spec fn on_cycle(delay: u32) -> bool {
    in_range(delay) && delay % STEP_MS == 0
}

/// The delay that follows `delay` after one observed press: one step down,
/// or back to the maximum once the minimum has been reached.
pub open spec fn next_delay_spec(delay: u32) -> u32 {
    if delay <= MIN_DELAY_MS {
        MAX_DELAY_MS
    } else {
        (delay - STEP_MS) as u32
    }
}

/// The delay reached from `start` after `presses` observed presses.
pub open spec fn delay_after(start: u32, presses: nat) -> u32
    decreases presses,
{
    if presses == 0 {
        start
    } else {
        next_delay_spec(delay_after(start, (presses - 1) as nat))
    }
}

/// How many presses lead from the maximum to `delay`, for a delay on the cycle.
pub open spec fn position(delay: u32) -> int {
    (MAX_DELAY_MS - delay) / (STEP_MS as int)
}

/// Computes the delay that follows `delay` after one observed press.
///
/// The result stays on the cycle when `delay` is on it, and is never zero.
pub fn next_delay(delay: u32) -> (next: u32)
    ensures
        next == next_delay_spec(delay),
        on_cycle(delay) ==> on_cycle(next),
        next > 0,
{
    if delay <= MIN_DELAY_MS {
        MAX_DELAY_MS
    } else {
        delay - STEP_MS
    }
}

/// One press moves a delay on the cycle to the next position, and the
/// position after the last is the first again.
pub proof fn lemma_next_position(delay: u32)
    requires
        on_cycle(delay),
    ensures
        on_cycle(next_delay_spec(delay)),
        position(next_delay_spec(delay)) == (position(delay) + 1) % (CYCLE_LEN as int),
        0 <= position(delay) < CYCLE_LEN,
        delay == MAX_DELAY_MS - STEP_MS * position(delay),
{
}

/// From any delay on the cycle, `presses` presses advance the position by
/// `presses`, modulo the length of the cycle.
pub proof fn lemma_delay_after_on_cycle(start: u32, presses: nat)
    requires
        on_cycle(start),
    ensures
        on_cycle(delay_after(start, presses)),
        delay_after(start, presses) == MAX_DELAY_MS - STEP_MS * (
            (position(start) + presses) % (CYCLE_LEN as int)
        ),
    decreases presses,
{
    lemma_next_position(start);
    if presses > 0 {
        let before = delay_after(start, (presses - 1) as nat);
        lemma_delay_after_on_cycle(start, (presses - 1) as nat);
        lemma_next_position(before);
    }
}

/// Starting from the maximum, the delay after `presses` presses is
/// `400 - 50 * (presses mod 8)`: the eight delays repeat exactly.
pub proof fn lemma_press_cycle(presses: nat)
    ensures
        delay_after(MAX_DELAY_MS, presses) == 400 - 50 * (presses % 8),
{
    lemma_delay_after_on_cycle(MAX_DELAY_MS, presses);
}

/// A press at or below the minimum wraps to the maximum, and no press on any
/// delay yields zero.
pub proof fn lemma_wrap_at_minimum(delay: u32)
    ensures
        delay <= MIN_DELAY_MS ==> next_delay_spec(delay) == MAX_DELAY_MS,
        next_delay_spec(delay) > 0,
{
}

} // verus!
