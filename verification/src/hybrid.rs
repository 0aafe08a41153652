//! The hybrid task: a one-shot unit expressed as a state machine of
//! offloaded steps, driven outside the mailbox runtime. Each step's
//! retry loop observes the controller only between attempts.

use crate::controller::{initial_control, ControlState, Controller};
use crate::fault::{Failures, Fault};
use crate::Progress;
use vstd::prelude::*;

verus! {

/// A task whose behavior is a sequence of typed states.
pub trait HybrydTask: Sized {
    /// The closed set of step states of the task.
    type State;

    /// The first step of the task's state machine.
    fn initial_state(&mut self) -> (n: NextState<Self::State>);
}

/// The descriptor of a hybrid task's next step: perform a typed state
/// on a worker, or terminate — done, failed, or interrupted.
pub enum NextState<S> {
    Process(S),
    Done,
    Fail(Fault),
    Interrupt,
}

impl<S> NextState<S> {
    /// A step whose whole retry loop a scheduler may hand to a worker
    /// off the cooperative scheduler.
    pub fn do_sync(state: S) -> (n: NextState<S>)
        ensures
            n == NextState::Process(state),
    {
        NextState::Process(state)
    }

    /// Terminate successfully.
    pub fn done() -> (n: NextState<S>)
        ensures
            n == NextState::<S>::Done,
    {
        NextState::Done
    }

    /// Terminate with a wrapped domain error.
    pub fn fail(err: Fault) -> (n: NextState<S>)
        ensures
            n == NextState::<S>::Fail(err),
    {
        NextState::Fail(err)
    }

    /// Terminate because the task was interrupted.
    pub fn interrupt() -> (n: NextState<S>)
        ensures
            n == NextState::<S>::Interrupt,
    {
        NextState::Interrupt
    }
}

/// Offloaded step activity for a hybrid task: the same bounded retry
/// loop as the generic unit's performers. A failed attempt is first
/// offered to `repair`; retrying goes on only if it absorbs the error.
pub trait SyncActivity: HybrydTask {
    /// The bounded retry loop for one step: a produced descriptor ends
    /// the step, an absorbed error retries, an unabsorbed one is the
    /// step's failure; spent attempts yield the same step back, and an
    /// inactive controller at a boundary yields an interrupt.
    fn perform(&mut self, state: Self::State, ctrl: &mut Controller, attempts: u64) -> (r: Result<
        NextState<Self::State>,
        Fault,
    >)
        default_ensures
            !old(ctrl)@.active ==> (r matches Ok(n) && n is Interrupt && final (ctrl)@ == old(
                ctrl,
            )@),
            attempts == 0 && old(ctrl)@.active ==> (r matches Ok(n) && n == NextState::Process(
                state,
            ) && final (ctrl)@ == old(ctrl)@),
    {
        let mut st = state;
        let mut left = attempts;
        if !ctrl.is_active() {
            return Ok(NextState::interrupt());
        }
        while left > 0
            invariant
                left <= attempts,
                old(ctrl)@.active,
                left == attempts ==> (st == state && *ctrl == *old(ctrl)),
            decreases left,
        {
            match self.many(&mut st, ctrl) {
                Ok(Some(next)) => {
                    return Ok(next);
                }
                Ok(None) => {}
                Err(err) => {
                    match self.repair(err) {
                        Ok(()) => {}
                        Err(fatal) => {
                            return Err(fatal);
                        }
                    }
                }
            }
            if !ctrl.is_active() {
                return Ok(NextState::interrupt());
            }
            left = left - 1;
        }
        Ok(NextState::do_sync(st))
    }

    /// One attempt: `Some` ends the step with the next descriptor,
    /// `None` asks to be called again, an error goes to `repair`.
    fn many(&mut self, state: &mut Self::State, ctrl: &mut Controller) -> (r: Result<
        Option<NextState<Self::State>>,
        Fault,
    >) {
        match self.once(state, ctrl) {
            Ok(next) => Ok(Some(next)),
            Err(err) => Err(err),
        }
    }

    /// One shot of the step's own work, run to completion on the
    /// worker whatever the controller does meanwhile.
    fn once(&mut self, state: &mut Self::State, ctrl: &mut Controller) -> (r: Result<
        NextState<Self::State>,
        Fault,
    >)
        default_ensures
            *final (state) == *old(state),
            *final (ctrl) == *old(ctrl),
    {
        let _ = state;
        let _ = ctrl;
        Ok(NextState::done())
    }

    /// A chance at local recovery before the step fails; the default
    /// re-raises.
    fn repair(&mut self, err: Fault) -> (r: Result<(), Fault>)
        default_ensures
            r matches Err(e) && e == err,
    {
        Err(err)
    }

    /// Resolves a step the retry loop could not save; the default
    /// terminates the task with the failure.
    fn fallback(&mut self, err: Fault) -> (n: NextState<Self::State>)
        default_ensures
            n == NextState::<Self::State>::Fail(err),
    {
        NextState::fail(err)
    }
}

/// The loop driving one hybrid task to its terminal state; a crashed
/// step is resolved by `fallback`, a terminal failure is recorded in
/// the sink, and a finished task never moves again.
pub struct DoHybrid<T: HybrydTask> {
    task: Option<T>,
    next: Option<NextState<T::State>>,
    controller: Controller,
    failures: Failures,
    done: bool,
}

impl<T: HybrydTask> DoHybrid<T> {
    /// Whether the task has reached its terminal state.
    pub closed spec fn finished(&self) -> bool {
        self.done
    }

    /// The abstract state of the task's controller.
    pub closed spec fn ctrl_state(&self) -> ControlState {
        self.controller@
    }

    /// The recorded terminal failures.
    pub closed spec fn recorded(&self) -> Seq<Seq<char>> {
        self.failures@
    }

    /// Wraps a task, ready to run.
    pub fn new(task: T) -> (rt: DoHybrid<T>)
        ensures
            !rt.finished(),
            rt.ctrl_state() == initial_control(),
            rt.recorded() == Seq::<Seq<char>>::empty(),
    {
        DoHybrid {
            task: Some(task),
            next: None,
            controller: Controller::new(),
            failures: Failures::new(),
            done: false,
        }
    }

    /// Requests a stop at the next step boundary.
    pub fn stop(&mut self, force: bool)
        ensures
            final (self).ctrl_state() == crate::controller::stop_control(
                old(self).ctrl_state(),
                force,
            ),
            final (self).finished() == old(self).finished(),
            final (self).recorded() == old(self).recorded(),
    {
        let _ = self.controller.stop(force);
    }

    /// The recorded terminal failures, for inspection afterwards.
    pub fn failures(&self) -> (f: &Failures)
        ensures
            f@ == self.recorded(),
    {
        &self.failures
    }
}

impl<T: SyncActivity> DoHybrid<T> {
    /// Drives the task for at most `fuel` steps, each step's retry
    /// loop bounded by `attempts`; the controller is observed at every
    /// step boundary, and a finished runtime returns at once,
    /// unchanged.
    pub fn perform_task(&mut self, fuel: u64, attempts: u64) -> (p: Progress)
        ensures
            old(self).finished() ==> (p == Progress::Terminated && *final (self) == *old(self)),
            p == Progress::Terminated ==> final (self).finished(),
            p != Progress::Terminated ==> !final (self).finished(),
            !old(self).ctrl_state().active && fuel > 0 ==> p == Progress::Terminated,
    {
        if self.done {
            return Progress::Terminated;
        }
        let mut task = match self.task.take() {
            Some(t) => t,
            None => {
                self.done = true;
                return Progress::Terminated;
            }
        };
        let mut current: NextState<T::State> = match self.next.take() {
            Some(n) => n,
            None => task.initial_state(),
        };
        let mut left = fuel;
        while left > 0
            invariant
                !self.finished(),
                !old(self).finished(),
                !old(self).ctrl_state().active ==> (left == fuel && self.ctrl_state() == old(
                    self,
                ).ctrl_state()),
            decreases left,
        {
            if !self.controller.is_active() {
                let at_boundary = match &current {
                    NextState::Process(_) => true,
                    _ => false,
                };
                if at_boundary {
                    current = NextState::interrupt();
                }
            }
            match current {
                NextState::Process(state) => {
                    match SyncActivity::perform(&mut task, state, &mut self.controller, attempts) {
                        Ok(n) => {
                            current = n;
                        }
                        Err(err) => {
                            current = task.fallback(err);
                        }
                    }
                }
                NextState::Done => {
                    self.done = true;
                    return Progress::Terminated;
                }
                NextState::Fail(err) => {
                    self.failures.put(Err(err));
                    self.done = true;
                    return Progress::Terminated;
                }
                NextState::Interrupt => {
                    self.done = true;
                    return Progress::Terminated;
                }
            }
            left = left - 1;
        }
        self.next = Some(current);
        self.task = Some(task);
        Progress::Spent
    }
}

/// A one-shot fallible body run as a hybrid task's single step.
pub trait AnySyncFn: Sized {
    /// Consumes the body and produces its outcome.
    fn invoke(self) -> (r: Result<(), Fault>);
}

/// The single step state of a function task: call the stored body.
pub struct CallFn;

/// A hybrid task wrapping one fallible body.
pub struct SyncFn<F> {
    func: Option<F>,
}

impl<F: AnySyncFn> SyncFn<F> {
    /// Whether the one-shot body is still waiting to run.
    pub closed spec fn armed(&self) -> bool {
        self.func is Some
    }
}

impl<F: AnySyncFn> HybrydTask for SyncFn<F> {
    type State = CallFn;

    /// The first and only step: call the stored body.
    fn initial_state(&mut self) -> (n: NextState<CallFn>)
        ensures
            n == NextState::<CallFn>::Process(CallFn),
            *final (self) == *old(self),
    {
        NextState::do_sync(CallFn)
    }
}

impl<F: AnySyncFn> SyncActivity for SyncFn<F> {
    /// Consumes the body exactly once: an armed task's body decides
    /// the step — done on success, the body's error otherwise — and a
    /// consumed one can only report an error.
    fn once(&mut self, state: &mut CallFn, ctrl: &mut Controller) -> (r: Result<
        NextState<CallFn>,
        Fault,
    >)
        ensures
            !final (self).armed(),
            *final (ctrl) == *old(ctrl),
            old(self).armed() ==> ((r matches Ok(n) && n is Done) || r matches Err(_)),
            !old(self).armed() ==> r matches Err(_),
    {
        let _ = state;
        let _ = ctrl;
        match self.func.take() {
            Some(f) => {
                match f.invoke() {
                    Ok(()) => Ok(NextState::done()),
                    Err(err) => Err(err),
                }
            }
            None => Err(Fault::new("the body was already consumed".to_owned())),
        }
    }
}

impl<F: AnySyncFn> DoHybrid<SyncFn<F>> {
    /// Wraps a one-shot fallible body as a ready-to-run hybrid task.
    pub fn new_sync(func: F) -> (rt: DoHybrid<SyncFn<F>>)
        ensures
            !rt.finished(),
            rt.ctrl_state() == initial_control(),
            rt.recorded() == Seq::<Seq<char>>::empty(),
    {
        DoHybrid::new(SyncFn { func: Some(func) })
    }
}

} // verus!
