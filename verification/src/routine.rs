//! The routine executor: an interruptible, abortable, time-limited,
//! retrying loop built directly on the cancellation primitive. One
//! poll per round; waiting is a virtual clock the time limit is
//! measured against; a recorded error never stops the loop by itself.

use crate::context::{Context, ManagedContext};
use crate::controller::{
    initial_control, registration_available, take_control, ControlState, Controller,
    Registration, RegistrationTaken,
};
use crate::fault::{Failures, Fault};
use vstd::prelude::*;

verus! {

/// Why a routine's wrapped loop ended without an output: the armed
/// abort fired, the controller went inactive with no result, the time
/// limit elapsed, the abort region was requested twice, or the domain
/// logic failed terminally.
#[derive(Debug)]
pub enum TaskError {
    Aborted,
    Interrupted,
    Timeout,
    RegistrationTaken,
    Failed(Fault),
}

impl TaskError {
    /// The wrapped domain error this terminal outcome stands for.
    pub fn into_fault(self) -> (f: Fault)
        ensures
            self matches TaskError::Failed(inner) ==> f == inner,
            self is Aborted ==> f@ == "task was aborted"@,
            self is Interrupted ==> f@ == "task was interrupted"@,
            self is Timeout ==> f@ == "time for task execution elapsed"@,
            self is RegistrationTaken ==> f@ == "the abort registration was already taken"@,
    {
        match self {
            TaskError::Aborted => Fault::new("task was aborted".to_owned()),
            TaskError::Interrupted => Fault::new("task was interrupted".to_owned()),
            TaskError::Timeout => Fault::new("time for task execution elapsed".to_owned()),
            TaskError::RegistrationTaken => Fault::new(
                "the abort registration was already taken".to_owned(),
            ),
            TaskError::Failed(inner) => inner,
        }
    }
}

/// The routine's context: the controller it is cancelled through, the
/// spacing between repeat polls, the virtual clock of time spent
/// waiting, and the sink recording non-fatal poll errors.
pub struct TaskContext {
    controller: Controller,
    interval: u64,
    elapsed: u64,
    failures: Failures,
    address: u64,
}

impl TaskContext {
    /// The abstract state of the context's controller.
    pub closed spec fn ctrl_state(&self) -> ControlState {
        self.controller@
    }

    /// The spacing between repeat polls, in clock ticks.
    pub closed spec fn interval(&self) -> u64 {
        self.interval
    }

    /// The virtual clock: how long the routine has waited so far.
    pub closed spec fn elapsed(&self) -> u64 {
        self.elapsed
    }

    /// The recorded non-fatal poll errors.
    pub closed spec fn recorded(&self) -> Seq<Seq<char>> {
        self.failures@
    }

    /// A fresh context: running, clock at zero, one tick between
    /// polls until `set_interval` says otherwise.
    pub fn new() -> (ctx: TaskContext)
        ensures
            ctx.ctrl_state() == initial_control(),
            ctx.interval() == 1,
            ctx.elapsed() == 0,
            ctx.recorded() == Seq::<Seq<char>>::empty(),
    {
        TaskContext {
            controller: Controller::new(),
            interval: 1,
            elapsed: 0,
            failures: Failures::new(),
            address: 0,
        }
    }

    /// Sets the repeat interval: how far the clock advances for each
    /// wait between polls. A wait always advances the clock, so the
    /// interval is at least one tick.
    pub fn set_interval(&mut self, interval: u64)
        requires
            interval >= 1,
        ensures
            final (self).interval() == interval,
            final (self).elapsed() == old(self).elapsed(),
            final (self).ctrl_state() == old(self).ctrl_state(),
            final (self).recorded() == old(self).recorded(),
    {
        self.interval = interval;
    }

    /// Advances the virtual clock by one repeat interval, saturating
    /// at the clock's end.
    pub fn wait_interval(&mut self)
        ensures
            final (self).elapsed() == (if old(self).elapsed() + old(self).interval() <= u64::MAX {
                (old(self).elapsed() + old(self).interval()) as u64
            } else {
                u64::MAX
            }),
            final (self).interval() == old(self).interval(),
            final (self).ctrl_state() == old(self).ctrl_state(),
            final (self).recorded() == old(self).recorded(),
    {
        if self.elapsed <= u64::MAX - self.interval {
            self.elapsed = self.elapsed + self.interval;
        } else {
            self.elapsed = u64::MAX;
        }
    }

    /// Records a non-fatal outcome; an error is appended to the sink
    /// and never raised again.
    pub fn record(&mut self, res: Result<(), Fault>)
        ensures
            match res {
                Ok(()) => final (self).recorded() == old(self).recorded(),
                Err(f) => final (self).recorded() == old(self).recorded().push(f@),
            },
            old(self).recorded().is_prefix_of(final (self).recorded()),
            final (self).elapsed() == old(self).elapsed(),
            final (self).interval() == old(self).interval(),
            final (self).ctrl_state() == old(self).ctrl_state(),
    {
        self.failures.put(res);
    }

    /// How many poll errors were recorded so far.
    pub fn failure_count(&self) -> (n: usize)
        ensures
            n == self.recorded().len(),
    {
        self.failures.count()
    }

    /// Whether a forced stop has requested the immediate abort.
    pub fn abort_requested(&self) -> (b: bool)
        ensures
            b == self.ctrl_state().abort_requested,
    {
        self.controller.is_abort_requested()
    }

    /// The virtual clock's current reading.
    pub fn elapsed_ticks(&self) -> (t: u64)
        ensures
            t == self.elapsed(),
    {
        self.elapsed
    }

    /// Takes the one-shot abort registration from the controller.
    pub fn take_registration(&mut self) -> (r: Result<Registration, RegistrationTaken>)
        ensures
            registration_available(old(self).ctrl_state()) ==> (r matches Ok(_) && final (
            self).ctrl_state() == take_control(old(self).ctrl_state())),
            !registration_available(old(self).ctrl_state()) ==> (r matches Err(_) && final (
            self).ctrl_state() == old(self).ctrl_state()),
            final (self).elapsed() == old(self).elapsed(),
            final (self).interval() == old(self).interval(),
            final (self).recorded() == old(self).recorded(),
    {
        self.controller.take_registration()
    }
}

impl Context for TaskContext {
    type Address = u64;

    fn address(&self) -> &u64 {
        &self.address
    }
}

impl ManagedContext for TaskContext {
    closed spec fn ctrl(&self) -> ControlState {
        self.ctrl_state()
    }

    fn is_active(&self) -> (r: bool) {
        self.controller.is_active()
    }

    fn stop(&mut self, force: bool) -> (r: Result<(), RegistrationTaken>) {
        self.controller.stop(force)
    }

    fn shutdown(&mut self) {
        let _ = self.controller.stop(false);
    }
}

/// The elapsed clock at which a sweep of never-resolving polls ends,
/// starting from clock `e`, waiting `i` per round, against limit `d`.
pub open spec fn pending_sweep_end(e: nat, i: nat, d: nat) -> nat
    decreases (if e < d { d - e } else { 0 }),
        when i >= 1
{
    if e >= d {
        e
    } else {
        pending_sweep_end(e + i, i, d)
    }
}

/// A routine whose poll never resolves, with time limit `d`, ends in
/// `Timeout` at an elapsed time within `[d, d + i)`: the limit plus at
/// most one repeat interval of slack.
pub proof fn lemma_pending_sweep_times_out(e: nat, i: nat, d: nat)
    requires
        i >= 1,
        e < d,
    ensures
        d <= pending_sweep_end(e, i, d) < d + i,
    decreases d - e,
{
    if e + i < d {
        lemma_pending_sweep_times_out(e + i, i, d);
    } else {
        reveal_with_fuel(pending_sweep_end, 2);
    }
}

/// A periodic or one-shot unit of work driven by the routine executor.
pub trait Routine: Sized {
    type Output;

    /// One poll of the repeatable work: an output ends the loop, no
    /// output waits one interval and retries, and an error is
    /// recorded non-fatally and also waits — an error alone never
    /// stops the loop.
    fn repeatable_routine(&mut self) -> (r: Result<Option<Self::Output>, Fault>) {
        Ok(None)
    }

    /// An optional bound on the clock: when the loop's elapsed waiting
    /// time reaches it, the loop fails with `Timeout`.
    fn time_limit(&mut self) -> (r: Option<u64>) {
        None
    }

    /// The wait between polls; it always moves the clock forward.
    fn routine_wait(&mut self, succeed: bool, ctx: &mut TaskContext)
        requires
            old(ctx).interval() >= 1,
        ensures
            old(ctx).elapsed() < u64::MAX ==> final (ctx).elapsed() > old(ctx).elapsed(),
            final (ctx).interval() >= 1,
            old(ctx).recorded().is_prefix_of(final (ctx).recorded()),
        default_ensures
            final (ctx).elapsed() == (if old(ctx).elapsed() + old(ctx).interval() <= u64::MAX {
                (old(ctx).elapsed() + old(ctx).interval()) as u64
            } else {
                u64::MAX
            }),
            final (ctx).interval() == old(ctx).interval(),
            final (ctx).ctrl_state() == old(ctx).ctrl_state(),
            final (ctx).recorded() == old(ctx).recorded(),
    {
        let _ = succeed;
        ctx.wait_interval();
        proof {
            crate::fault::lemma_prefix_extends(old(ctx).recorded(), ctx.recorded());
        }
    }

    /// The retrying loop, polled while the controller is active and
    /// fuel remains. At each round's boundary the armed abort is
    /// observed first, then the time limit, then the interruption
    /// flag; only then does one poll run. Fuel running out leaves the
    /// loop pending with no terminal outcome.
    fn interruptable_routine(&mut self, ctx: &mut TaskContext, limit: Option<u64>, fuel: u64) -> (
    r: Result<Option<Self::Output>, TaskError>)
        requires
            old(ctx).interval() >= 1,
        default_ensures
            fuel > 0 && old(ctx).ctrl_state().abort_requested ==> (r matches Err(e) && e
                is Aborted && final (ctx).ctrl_state() == old(ctx).ctrl_state() && final (
            ctx).elapsed() == old(ctx).elapsed() && final (ctx).recorded() == old(
            ctx).recorded()),
            fuel > 0 && !old(ctx).ctrl_state().abort_requested && (limit matches Some(d) && old(
                ctx,
            ).elapsed() >= d) ==> (r matches Err(e) && e is Timeout && final (ctx).ctrl_state()
                == old(ctx).ctrl_state() && final (ctx).elapsed() == old(ctx).elapsed() && final (
            ctx).recorded() == old(ctx).recorded()),
            fuel > 0 && !old(ctx).ctrl_state().abort_requested && (limit matches Some(d) ==> old(
                ctx,
            ).elapsed() < d) && !old(ctx).ctrl_state().active ==> (r matches Err(e) && e
                is Interrupted && final (ctx).ctrl_state() == old(ctx).ctrl_state() && final (
            ctx).elapsed() == old(ctx).elapsed() && final (ctx).recorded() == old(
            ctx).recorded()),
            r matches Err(e) ==> (e is Aborted || e is Timeout || e is Interrupted),
            r matches Err(e) && e is Timeout ==> (limit matches Some(d) && final (ctx).elapsed()
                >= d),
            r matches Err(e) && e is Interrupted ==> !final (ctx).ctrl_state().active,
            old(ctx).recorded().is_prefix_of(final (ctx).recorded()),
    {
        let mut left = fuel;
        proof {
            crate::fault::lemma_prefix_extends(old(ctx).recorded(), ctx.recorded());
        }
        while left > 0
            invariant
                ctx.interval() >= 1,
                old(ctx).recorded().is_prefix_of(ctx.recorded()),
                old(ctx).ctrl_state().abort_requested ==> (left == fuel && ctx.ctrl_state() == old(
                    ctx,
                ).ctrl_state() && ctx.elapsed() == old(ctx).elapsed() && ctx.recorded() == old(
                    ctx,
                ).recorded()),
                !old(ctx).ctrl_state().abort_requested && (limit matches Some(d) && old(
                    ctx,
                ).elapsed() >= d) ==> (left == fuel && ctx.ctrl_state() == old(ctx).ctrl_state()
                    && ctx.elapsed() == old(ctx).elapsed() && ctx.recorded() == old(
                    ctx,
                ).recorded()),
                !old(ctx).ctrl_state().abort_requested && (limit matches Some(d) ==> old(
                    ctx,
                ).elapsed() < d) && !old(ctx).ctrl_state().active ==> (left == fuel
                    && ctx.ctrl_state() == old(ctx).ctrl_state() && ctx.elapsed() == old(
                    ctx,
                ).elapsed() && ctx.recorded() == old(ctx).recorded()),
            decreases left,
        {
            if ctx.abort_requested() {
                return Err(TaskError::Aborted);
            }
            match limit {
                Some(d) => {
                    if ctx.elapsed_ticks() >= d {
                        return Err(TaskError::Timeout);
                    }
                }
                None => {}
            }
            if !ctx.is_active() {
                return Err(TaskError::Interrupted);
            }
            match self.repeatable_routine() {
                Ok(Some(output)) => {
                    return Ok(Some(output));
                }
                Ok(None) => {
                    let ghost noted = ctx.recorded();
                    self.routine_wait(true, ctx);
                    proof {
                        crate::fault::lemma_prefix_trans(
                            old(ctx).recorded(),
                            noted,
                            ctx.recorded(),
                        );
                    }
                }
                Err(err) => {
                    let ghost noted = ctx.recorded();
                    ctx.record(Err(err));
                    let ghost midway = ctx.recorded();
                    self.routine_wait(false, ctx);
                    proof {
                        crate::fault::lemma_prefix_trans(old(ctx).recorded(), noted, midway);
                        crate::fault::lemma_prefix_trans(
                            old(ctx).recorded(),
                            midway,
                            ctx.recorded(),
                        );
                    }
                }
            }
            left = left - 1;
        }
        Ok(None)
    }

    /// One uniform place to react to every terminal outcome — output,
    /// timeout, abort, or interruption. The default forwards an
    /// outcome's error and absorbs its success.
    fn finalize(&mut self, result: Result<Self::Output, TaskError>) -> (r: Result<(), Fault>)
        default_ensures
            result matches Ok(_) ==> r matches Ok(()),
            result matches Err(TaskError::Failed(inner)) ==> (r matches Err(f) && f == inner),
            result matches Err(e) && e is Aborted ==> (r matches Err(f) && f@
                == "task was aborted"@),
            result matches Err(e) && e is Interrupted ==> (r matches Err(f) && f@
                == "task was interrupted"@),
            result matches Err(e) && e is Timeout ==> (r matches Err(f) && f@
                == "time for task execution elapsed"@),
            result matches Err(e) && e is RegistrationTaken ==> (r matches Err(f) && f@
                == "the abort registration was already taken"@),
    {
        match result {
            Ok(_) => Ok(()),
            Err(err) => Err(err.into_fault()),
        }
    }

    /// The whole wrapped run: arms the one-shot abort registration,
    /// takes the time limit, drives the retrying loop, and — whenever
    /// the loop resolves terminally — hands the outcome to `finalize`.
    /// Fuel running out leaves the routine pending, unfinalized.
    fn routine(&mut self, ctx: &mut TaskContext, fuel: u64) -> (r: Result<Option<()>, Fault>)
        requires
            old(ctx).interval() >= 1,
        default_ensures
            !registration_available(old(ctx).ctrl_state()) ==> (r matches Err(_) && final (
            ctx).ctrl_state() == old(ctx).ctrl_state() && final (ctx).elapsed() == old(
            ctx).elapsed() && final (ctx).recorded() == old(ctx).recorded()),
    {
        let reg = match ctx.take_registration() {
            Ok(reg) => reg,
            Err(_) => {
                return Err(TaskError::RegistrationTaken.into_fault());
            }
        };
        let _ = reg;
        let limit = self.time_limit();
        match self.interruptable_routine(ctx, limit, fuel) {
            Ok(Some(output)) => {
                match self.finalize(Ok(output)) {
                    Ok(()) => Ok(Some(())),
                    Err(err) => Err(err),
                }
            }
            Ok(None) => Ok(None),
            Err(terminal) => {
                match self.finalize(Err(terminal)) {
                    Ok(()) => Ok(Some(())),
                    Err(err) => Err(err),
                }
            }
        }
    }
}

} // verus!
