//! The non-repeating primitive underneath a routine: a task runs its
//! body exactly once through the same abort machinery, with no retry
//! loop and no interval.

use crate::controller::{initial_control, registration_available, take_control, Controller};
use crate::fault::{Failures, Fault};
use vstd::prelude::*;

verus! {

/// A one-shot unit of work driven through the cancellation primitive.
pub trait Task: Sized {
    /// The task's body, run exactly once.
    fn routine(&mut self) -> (r: Result<(), Fault>) {
        Ok(())
    }

    /// Runs the body once inside the abort region: arms the one-shot
    /// registration, observes a pending abort at the boundary before
    /// the body starts, and otherwise lets the body run to completion.
    /// Arming consumes the registration, so a second run on the same
    /// controller fails.
    fn controlled_routine(&mut self, ctrl: &mut Controller) -> (r: Result<(), Fault>)
        default_ensures
            !registration_available(old(ctrl)@) ==> (r matches Err(_) && final (ctrl)@ == old(
                ctrl,
            )@),
            registration_available(old(ctrl)@) ==> final (ctrl)@ == take_control(old(ctrl)@),
            registration_available(old(ctrl)@) && old(ctrl)@.abort_requested ==> r matches Err(_),
    {
        let reg = match ctrl.take_registration() {
            Ok(reg) => reg,
            Err(_) => {
                return Err(Fault::new("the abort registration was already taken".to_owned()));
            }
        };
        let _ = reg;
        if ctrl.is_abort_requested() {
            return Err(Fault::new("task was aborted".to_owned()));
        }
        self.routine()
    }
}

/// The runtime instance owning one task, its controller and its
/// failure sink; the task is consumed by the single run.
pub struct TaskRuntime<T> {
    pub task: Option<T>,
    pub controller: Controller,
    pub failures: Failures,
}

impl<T: Task> TaskRuntime<T> {
    /// Wraps a task, ready to run once.
    pub fn new(task: T) -> (rt: TaskRuntime<T>)
        ensures
            rt.task is Some,
            rt.controller@ == initial_control(),
            rt.failures@ == Seq::<Seq<char>>::empty(),
    {
        TaskRuntime { task: Some(task), controller: Controller::new(), failures: Failures::new() }
    }

    /// Runs the task once through its abort machinery, recording the
    /// outcome in the failure sink. The task is consumed: a second
    /// call finds none and changes nothing.
    pub fn routine(&mut self)
        ensures
            final (self).task is None,
            old(self).task is None ==> (final (self).controller@ == old(self).controller@ && final (
            self).failures@ == old(self).failures@),
            old(self).failures@.is_prefix_of(final (self).failures@),
            final (self).failures@.len() <= old(self).failures@.len() + 1,
    {
        match self.task.take() {
            Some(mut task) => {
                let res = task.controlled_routine(&mut self.controller);
                self.failures.put(res);
            }
            None => {
                proof {
                    crate::fault::lemma_prefix_extends(old(self).failures@, self.failures@);
                }
            }
        }
    }
}

} // verus!
