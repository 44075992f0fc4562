//! The pending-press flag: the one value that the interrupt handler and the
//! main loop share.
//!
//! The handler raises it, the main loop takes it. Both touch it only inside a
//! critical section, which the token of type `CriticalSection` stands for.

use core::cell::Cell;
use critical_section::{CriticalSection, Mutex};
use vstd::prelude::*;

verus! {

/// `critical_section::Mutex`, carried through as an opaque value.
#[verifier::external_type_specification]
#[verifier::external_body]
#[verifier::reject_recursive_types(T)]
pub struct ExMutex<T>(Mutex<T>);

/// `critical_section::CriticalSection`, the token that only exists inside a
/// critical section.
#[verifier::external_type_specification]
#[verifier::external_body]
pub struct ExCriticalSection<'cs>(CriticalSection<'cs>);

/// `core::cell::Cell`, carried through as an opaque value.
#[verifier::external_type_specification]
#[verifier::external_body]
#[verifier::reject_recursive_types(T)]
pub struct ExCell<T: ?Sized>(Cell<T>);

/// The flag as it is kept in memory that both contexts reach. It starts out
/// holding `false`: no press is pending.
pub type SharedFlag = Mutex<Cell<bool>>;

/// The flag as a plain value: whether a press waits to be observed.
#[derive(Clone, Copy, Debug)]
pub struct PendingPress {
    set: bool,
}

impl View for PendingPress {
    type V = bool;

    closed spec fn view(&self) -> bool {
        self.set
    }
}

impl PendingPress {
    /// The flag at start-up: no press is pending.
    pub fn new() -> (flag: Self)
        ensures
            !flag@,
    {
        PendingPress { set: false }
    }

    /// Whether a press is pending.
    pub fn is_set(&self) -> (set: bool)
        ensures
            set == self@,
    {
        self.set
    }

    /// Records a press. Presses do not add up: after any number of them one
    /// press is pending.
    pub fn raise(&mut self)
        ensures
            final(self)@,
    {
        self.set = true;
    }

    /// Reads the flag and clears it in one step.
    pub fn take(&mut self) -> (pressed: bool)
        ensures
            pressed == old(self)@,
            !final(self)@,
    {
        let pressed = self.set;
        self.set = false;
        pressed
    }
}

/// Reads the shared flag through `Mutex::borrow` and `Cell::get`. What comes
/// back depends on the interrupts that fired before the critical section was
/// entered, so nothing is claimed of it.
#[verifier::external_body]
pub(crate) fn load(flag: &SharedFlag, cs: CriticalSection<'_>) -> (pending: PendingPress) {
    PendingPress { set: flag.borrow(cs).get() }
}

/// Writes the shared flag through `Mutex::borrow` and `Cell::set`. The cell is
/// reached through a shared reference, so no clause can speak of its content.
#[verifier::external_body]
pub(crate) fn store(flag: &SharedFlag, cs: CriticalSection<'_>, pending: PendingPress) {
    flag.borrow(cs).set(pending.set)
}

/// The handler's part: records a press in the shared flag.
///
/// The caller is inside the critical section `cs`, in which it has already
/// cleared the interrupt-pending condition of the button line.
pub fn signal_press(flag: &SharedFlag, cs: CriticalSection<'_>) {
    let mut pending = PendingPress::new();
    pending.raise();
    store(flag, cs, pending);
}

} // verus!
