//! Common capabilities of a unit's execution context: an address to be
//! reached at, and the managed view over the cancellation primitive.

use crate::controller::{stop_control, ControlState, RegistrationTaken};
use vstd::prelude::*;

verus! {

/// What every context offers: an address under which a scheduler can
/// reach the unit that runs inside it.
pub trait Context: Sized {
    type Address;

    /// A reference to the context's address.
    fn address(&self) -> &Self::Address;
}

/// A context that can be interrupted and reports the life status of the
/// unit it carries. The controller behind it is the only writer of the
/// interruption flag.
pub trait ManagedContext: Context {
    /// The abstract state of the context's controller.
    spec fn ctrl(&self) -> ControlState;

    /// Whether the unit is still meant to run.
    fn is_active(&self) -> (r: bool)
        ensures
            r == self.ctrl().active,
    ;

    /// Requests a stop through the context's controller: graceful when
    /// `force` is false, arming the immediate abort when it is true.
    fn stop(&mut self, force: bool) -> (r: Result<(), RegistrationTaken>)
        ensures
            r matches Ok(()),
            final (self).ctrl() == stop_control(old(self).ctrl(), force),
    ;

    /// Marks the context as interrupted; the unit winds down from the
    /// next step boundary on.
    fn shutdown(&mut self)
        ensures
            !final (self).ctrl().active,
    ;
}

} // verus!
