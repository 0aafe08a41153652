//! The cooperative cancellation primitive: a controller owning the
//! interruption flag and a single-use abort registration.

use vstd::prelude::*;

verus! {

/// The abstract state of a controller: the interruption flag, whether
/// the one-shot registration has been taken, and whether a forced stop
/// has requested an immediate abort.
pub ghost struct ControlState {
    pub active: bool,
    pub registration_taken: bool,
    pub abort_requested: bool,
}

/// Raised when `take_registration` is asked a second time on the same
/// controller: at most one abortable region per unit lifetime.
#[derive(Clone, Copy, Debug, PartialEq, Eq, Structural)]
pub struct RegistrationTaken;

/// A one-shot token arming exactly one cancellable region; produced by
/// `Controller::take_registration` and consumed by the region it guards.
pub struct Registration {
    token: (),
}

/// The state of a freshly built controller: running, registration still
/// available, no abort requested.
pub open spec fn initial_control() -> ControlState {
    ControlState { active: true, registration_taken: false, abort_requested: false }
}

/// How `stop` changes the abstract state: the flag goes down, and a
/// forced stop additionally requests the immediate abort.
pub open spec fn stop_control(s: ControlState, force: bool) -> ControlState {
    ControlState { active: false, abort_requested: s.abort_requested || force, ..s }
}

/// Whether a request for the registration would be granted.
pub open spec fn registration_available(s: ControlState) -> bool {
    !s.registration_taken
}

/// How a granted `take_registration` changes the abstract state.
pub open spec fn take_control(s: ControlState) -> ControlState {
    ControlState { registration_taken: true, ..s }
}

/// The registration is granted exactly once: a grant removes the
/// availability, and an unavailable registration is refused with the
/// state left untouched.
pub proof fn lemma_registration_single_use(s: ControlState)
    ensures
        registration_available(s) ==> !registration_available(take_control(s)),
        registration_available(initial_control()),
{
}

/// Sole owner of a unit's cancellation flag and of the one-shot abort
/// registration. Exactly one controller exists per runtime instance; the
/// flag is mutated only through its own `stop`.
pub struct Controller {
    active: bool,
    registration_taken: bool,
    abort_requested: bool,
}

impl View for Controller {
    type V = ControlState;

    closed spec fn view(&self) -> ControlState {
        ControlState {
            active: self.active,
            registration_taken: self.registration_taken,
            abort_requested: self.abort_requested,
        }
    }
}

impl Controller {
    /// A running controller with its registration still available.
    pub fn new() -> (c: Controller)
        ensures
            c@ == initial_control(),
    {
        Controller { active: true, registration_taken: false, abort_requested: false }
    }

    /// Whether the unit is still meant to run; loops consult this flag
    /// between steps.
    pub fn is_active(&self) -> (r: bool)
        ensures
            r == self@.active,
    {
        self.active
    }

    /// Whether a forced stop has requested the immediate abort of the
    /// armed region.
    pub fn is_abort_requested(&self) -> (r: bool)
        ensures
            r == self@.abort_requested,
    {
        self.abort_requested
    }

    /// Whether the one-shot registration has already been taken.
    pub fn is_registration_taken(&self) -> (r: bool)
        ensures
            r == self@.registration_taken,
    {
        self.registration_taken
    }

    /// Requests a stop. A graceful stop (`force == false`) only lowers
    /// the flag, so loops drain and finish; a forced stop additionally
    /// requests the immediate abort of the armed region. Always accepted.
    pub fn stop(&mut self, force: bool) -> (r: Result<(), RegistrationTaken>)
        ensures
            r matches Ok(()),
            final (self)@ == stop_control(old(self)@, force),
    {
        self.active = false;
        if force {
            self.abort_requested = true;
        }
        Ok(())
    }

    /// Hands out the one-shot abort registration. The first request on a
    /// controller is granted; every further request fails with
    /// `RegistrationTaken` and leaves the controller untouched.
    pub fn take_registration(&mut self) -> (r: Result<Registration, RegistrationTaken>)
        ensures
            registration_available(old(self)@) ==> (r matches Ok(_) && final (self)@
                == take_control(old(self)@)),
            !registration_available(old(self)@) ==> (r matches Err(RegistrationTaken)
                && final (self)@ == old(self)@),
    {
        if self.registration_taken {
            Err(RegistrationTaken)
        } else {
            self.registration_taken = true;
            Ok(Registration { token: () })
        }
    }
}

} // verus!
