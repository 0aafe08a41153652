//! The generic unit runtime: a unit's behavior is a sequence of typed
//! state-machine steps executed by interchangeable performer
//! strategies — cooperative or thread-offloaded — driven by a loop that
//! binds the unit's lifecycle to the state machine and finalizes it
//! exactly once on every terminal path.

use crate::actor::Phase;
use crate::context::{Context, ManagedContext};
use crate::controller::{
    initial_control, stop_control, ControlState, Controller, RegistrationTaken,
};
use crate::fault::{Failures, Fault};
use crate::mailbox::{close_mailbox, send_transition, Mailbox, MailboxModel, Polled, SendError};
use crate::supervisor::{distinct_ids, has_entry, remove_entry, Relation, Tracker};
use crate::Progress;
use vstd::prelude::*;

verus! {

/// The strategy a step is performed with: on the cooperative scheduler
/// itself, or offloaded to a worker that runs the whole step off the
/// scheduler.
#[derive(Clone, Copy, Debug, PartialEq, Eq, Structural)]
pub enum Strategy {
    Cooperative,
    Offloaded,
}

/// The descriptor of a unit's next state-machine step: perform a typed
/// state under a strategy, wait for mailbox events, or terminate —
/// done, failed, or interrupted.
pub enum Next<S> {
    Step(Strategy, S),
    Events,
    Done,
    Fail(Fault),
    Interrupt,
}

impl<S> Next<S> {
    /// A step performed cooperatively on the shared scheduler.
    pub fn do_async(state: S) -> (n: Next<S>)
        ensures
            n == Next::Step(Strategy::Cooperative, state),
    {
        Next::Step(Strategy::Cooperative, state)
    }

    /// A step whose whole retry loop is handed to a worker off the
    /// scheduler; cancellation is observed only between its attempts.
    pub fn do_sync(state: S) -> (n: Next<S>)
        ensures
            n == Next::Step(Strategy::Offloaded, state),
    {
        Next::Step(Strategy::Offloaded, state)
    }

    /// Wait for the next mailbox event.
    pub fn events() -> (n: Next<S>)
        ensures
            n == Next::<S>::Events,
    {
        Next::Events
    }

    /// Terminate successfully.
    pub fn done() -> (n: Next<S>)
        ensures
            n == Next::<S>::Done,
    {
        Next::Done
    }

    /// Terminate with a wrapped domain error.
    pub fn fail(err: Fault) -> (n: Next<S>)
        ensures
            n == Next::<S>::Fail(err),
    {
        Next::Fail(err)
    }

    /// Terminate because the unit was interrupted.
    pub fn interrupt() -> (n: Next<S>)
        ensures
            n == Next::<S>::Interrupt,
    {
        Next::Interrupt
    }
}

/// The context a generic unit runs in: controller, mailbox, and the
/// supervision tracker for the children it spawns.
pub struct AgentSession<M, G> {
    controller: Controller,
    mailbox: Mailbox<M>,
    tracker: Tracker<G>,
    address: u64,
}

impl<M, G> AgentSession<M, G> {
    /// The abstract state of the session's controller.
    pub closed spec fn ctrl_state(&self) -> ControlState {
        self.controller@
    }

    /// The abstract state of the session's mailbox.
    pub closed spec fn mail(&self) -> MailboxModel<M> {
        self.mailbox@
    }

    /// The tracked children: identity and group key, in spawn order.
    pub closed spec fn children(&self) -> Seq<(u64, G)> {
        self.tracker.model()
    }

    /// How many child identities were handed out so far.
    pub closed spec fn spawned(&self) -> u64 {
        self.tracker.spawned()
    }

    /// The tracker's identities are distinct and below the next fresh
    /// one; every session the library builds satisfies this, and every
    /// operation preserves it.
    pub open spec fn children_wf(&self) -> bool {
        &&& distinct_ids(self.children())
        &&& forall|i: int| 0 <= i < self.children().len() ==> (#[trigger] self.children()[i]).0
            < self.spawned()
    }

    /// The address a scheduler assigned to this unit.
    pub closed spec fn address_id(&self) -> u64 {
        self.address
    }

    /// A fresh session: running, open empty mailbox, no child tracked.
    pub fn new(address: u64) -> (s: AgentSession<M, G>)
        ensures
            s.ctrl_state() == initial_control(),
            s.mail().queue == Seq::<M>::empty(),
            !s.mail().closed,
            s.children() == Seq::<(u64, G)>::empty(),
            s.spawned() == 0,
            s.children_wf(),
            s.address_id() == address,
    {
        AgentSession {
            controller: Controller::new(),
            mailbox: Mailbox::new(),
            tracker: Tracker::new(),
            address,
        }
    }

    /// Queues a message for this unit, keeping send order; fails once
    /// the mailbox is closed, handing the message back.
    pub fn send(&mut self, message: M) -> (r: Result<(), SendError<M>>)
        ensures
            final (self).mail() == send_transition(old(self).mail(), message),
            final (self).ctrl_state() == old(self).ctrl_state(),
            final (self).children() == old(self).children(),
            final (self).spawned() == old(self).spawned(),
            final (self).address_id() == old(self).address_id(),
            !old(self).mail().closed ==> r matches Ok(()),
            old(self).mail().closed ==> (r matches Err(e) && e.message == message),
    {
        self.mailbox.send(message)
    }

    /// Takes the next queued message, or reports the mailbox drained or
    /// still pending.
    pub fn poll(&mut self) -> (r: Polled<M>)
        ensures
            final (self).ctrl_state() == old(self).ctrl_state(),
            final (self).children() == old(self).children(),
            final (self).spawned() == old(self).spawned(),
            final (self).address_id() == old(self).address_id(),
            old(self).mail().queue.len() > 0 ==> (r matches Polled::Message(msg) && msg == old(
                self,
            ).mail().queue[0] && final (self).mail().queue == old(self).mail().queue.drop_first()
                && final (self).mail().closed == old(self).mail().closed),
            old(self).mail().queue.len() == 0 && old(self).mail().closed ==> (r
                matches Polled::Drained && final (self).mail() == old(self).mail()),
            old(self).mail().queue.len() == 0 && !old(self).mail().closed ==> (r
                matches Polled::Pending && final (self).mail() == old(self).mail()),
    {
        self.mailbox.poll()
    }

    /// How many messages are queued and not yet dispatched.
    pub fn queue_len(&self) -> (n: usize)
        ensures
            n == self.mail().queue.len(),
    {
        self.mailbox.len()
    }

    /// Whether the mailbox refuses further sends.
    pub fn mailbox_closed(&self) -> (b: bool)
        ensures
            b == self.mail().closed,
    {
        self.mailbox.is_closed()
    }

    /// Requests a stop through the session's controller, leaving
    /// mailbox and tracker untouched.
    pub fn request_stop(&mut self, force: bool)
        ensures
            final (self).ctrl_state() == stop_control(old(self).ctrl_state(), force),
            final (self).mail() == old(self).mail(),
            final (self).children() == old(self).children(),
            final (self).spawned() == old(self).spawned(),
            final (self).address_id() == old(self).address_id(),
    {
        let _ = self.controller.stop(force);
    }

    /// Registers a child under a fresh identity with its group key and
    /// hands back the identity together with the child's ready-to-run
    /// runtime; the scheduler that owns the parent decides where the
    /// child's loop actually runs.
    pub fn spawn_agent<C: Agent>(&mut self, child: C, group: G) -> (r: (u64, RunAgent<C>))
        requires
            old(self).children_wf(),
            old(self).spawned() < u64::MAX,
        ensures
            final (self).children_wf(),
            r.0 == old(self).spawned(),
            !has_entry(old(self).children(), r.0),
            final (self).children() == old(self).children().push((r.0, group)),
            final (self).spawned() == old(self).spawned() + 1,
            final (self).ctrl_state() == old(self).ctrl_state(),
            final (self).mail() == old(self).mail(),
            final (self).address_id() == old(self).address_id(),
            r.1.phase() == Phase::Created,
            r.1.engaged(),
            r.1.children_wf(),
    {
        let id = self.tracker.insert(group);
        let runtime = RunAgent::new(child);
        (id, runtime)
    }

    /// Removes the relation of a terminated child: a present identity
    /// exactly once, an absent one not at all.
    pub fn remove_child(&mut self, id: u64) -> (r: Option<Relation<G>>)
        requires
            old(self).children_wf(),
        ensures
            final (self).children_wf(),
            final (self).children() == remove_entry(old(self).children(), id),
            final (self).spawned() == old(self).spawned(),
            final (self).ctrl_state() == old(self).ctrl_state(),
            final (self).mail() == old(self).mail(),
            final (self).address_id() == old(self).address_id(),
            has_entry(old(self).children(), id) ==> (r matches Some(rel) && rel.id == id && final (
            self).children().len() == old(self).children().len() - 1),
            !has_entry(old(self).children(), id) ==> (r matches None && final (self).children()
                == old(self).children()),
    {
        self.tracker.remove(id)
    }

    /// Whether no child is tracked; queryable at any time.
    pub fn tracker_is_empty(&self) -> (b: bool)
        ensures
            b == (self.children().len() == 0),
    {
        self.tracker.is_empty()
    }

    /// How many child identities were handed out so far; a caller can
    /// check it against the identity space before spawning.
    pub fn spawn_count(&self) -> (n: u64)
        ensures
            n == self.spawned(),
    {
        self.tracker.spawn_count()
    }

    /// Closes the mailbox while keeping the unit running: the queued
    /// messages drain, and the drained mailbox then turns into a
    /// graceful stop.
    pub fn close_mailbox(&mut self)
        ensures
            final (self).mail() == close_mailbox(old(self).mail()),
            final (self).ctrl_state() == old(self).ctrl_state(),
            final (self).children() == old(self).children(),
            final (self).spawned() == old(self).spawned(),
            final (self).address_id() == old(self).address_id(),
    {
        self.mailbox.close();
    }

    /// Marks the unit as interrupted: the mailbox closes and the flag
    /// goes down, so the loop winds down at the next step boundary.
    pub fn shutdown_session(&mut self)
        ensures
            final (self).mail() == close_mailbox(old(self).mail()),
            final (self).ctrl_state() == stop_control(old(self).ctrl_state(), false),
            final (self).children() == old(self).children(),
            final (self).spawned() == old(self).spawned(),
            final (self).address_id() == old(self).address_id(),
    {
        self.mailbox.close();
        let _ = self.controller.stop(false);
    }
}

impl<M, G> Context for AgentSession<M, G> {
    type Address = u64;

    fn address(&self) -> &u64 {
        &self.address
    }
}

impl<M, G> ManagedContext for AgentSession<M, G> {
    closed spec fn ctrl(&self) -> ControlState {
        self.ctrl_state()
    }

    fn is_active(&self) -> (r: bool) {
        self.controller.is_active()
    }

    fn stop(&mut self, force: bool) -> (r: Result<(), RegistrationTaken>) {
        self.controller.stop(force)
    }

    fn shutdown(&mut self) {
        self.mailbox.close();
        let _ = self.controller.stop(false);
    }
}

/// A generic unit: user-defined state and logic, driven by the runtime
/// loop as a sequence of typed steps. The callbacks that receive the
/// session may reshape it freely but never corrupt the supervision
/// tracker.
pub trait Agent: Sized {
    /// The closed set of step states of this unit.
    type State;

    /// The closed set of messages this unit accepts.
    type Msg;

    /// The group key its spawned children are tracked under.
    type GroupBy;

    /// What `finalize` produces on every terminal path.
    type Output;

    /// One-shot setup; may directly produce the first step.
    fn initialize(&mut self, ctx: &mut AgentSession<Self::Msg, Self::GroupBy>) -> (n: Next<
        Self::State,
    >)
        ensures
            old(ctx).children_wf() ==> final (ctx).children_wf(),
        default_ensures
            *final (ctx) == *old(ctx),
    {
        self.begin()
    }

    /// The first step of a unit that needs no session during setup.
    fn begin(&mut self) -> (n: Next<Self::State>) {
        Next::events()
    }

    /// The handler the mailbox dispatches a message to; one call per
    /// message, strictly in send order.
    fn handle(&mut self, message: Self::Msg, ctx: &mut AgentSession<Self::Msg, Self::GroupBy>) -> (
    r: Result<(), Fault>)
        ensures
            old(ctx).children_wf() ==> final (ctx).children_wf(),
        default_ensures
            *final (ctx) == *old(ctx),
            r matches Ok(()),
    {
        let _ = message;
        let _ = ctx;
        Ok(())
    }

    /// Invoked when the stop fired: by default marks the context
    /// interrupted so nothing more is dispatched.
    fn interrupt(&mut self, ctx: &mut AgentSession<Self::Msg, Self::GroupBy>)
        ensures
            old(ctx).children_wf() ==> final (ctx).children_wf(),
        default_ensures
            final (ctx).mail() == close_mailbox(old(ctx).mail()),
            final (ctx).ctrl_state() == stop_control(old(ctx).ctrl_state(), false),
            final (ctx).children() == old(ctx).children(),
            final (ctx).spawned() == old(ctx).spawned(),
    {
        ctx.shutdown_session();
    }

    /// Invoked exactly once on every terminal path — done, failed, or
    /// interrupted — producing the unit's declared output.
    fn finalize(self, ctx: &mut AgentSession<Self::Msg, Self::GroupBy>) -> (out: Self::Output)
        ensures
            old(ctx).children_wf() ==> final (ctx).children_wf(),
    ;
}

/// The supervision capability a unit opts into: the callback fired
/// exactly once when a tracked child's runtime loop terminates.
pub trait Supervisor: Agent {
    /// Receives the terminated child's relation — identity and group
    /// key — on the parent's own loop; the default does nothing.
    fn finished(
        &mut self,
        rel: &Relation<Self::GroupBy>,
        ctx: &mut AgentSession<Self::Msg, Self::GroupBy>,
    )
        ensures
            old(ctx).children_wf() ==> final (ctx).children_wf(),
        default_ensures
            *final (ctx) == *old(ctx),
    {
        let _ = rel;
        let _ = ctx;
    }
}

/// Cooperative steps: the unit performs a state's retry loop on the
/// shared scheduler, observing the controller between attempts. An
/// attempt that fails is first offered to `repair`; retrying goes on
/// only if `repair` absorbs the error — deliberately the same recovery
/// path as the offloaded strategy, so where a step runs never changes
/// what its errors mean.
pub trait DoAsync: Agent {
    /// The bounded retry loop for one step: while the controller is
    /// active and attempts remain, ask `many` for progress. A produced
    /// descriptor ends the step; an absorbed error retries; an
    /// unabsorbed one is the step's failure. When the attempts are
    /// spent the same step is yielded back to the scheduler, and an
    /// inactive controller at a boundary yields an interrupt.
    fn perform(&mut self, state: Self::State, ctrl: &mut Controller, attempts: u64) -> (r: Result<
        Next<Self::State>,
        Fault,
    >)
        default_ensures
            !old(ctrl)@.active ==> (r matches Ok(n) && n is Interrupt && final (ctrl)@ == old(
                ctrl,
            )@),
            attempts == 0 && old(ctrl)@.active ==> (r matches Ok(n) && n == Next::Step(
                Strategy::Cooperative,
                state,
            ) && final (ctrl)@ == old(ctrl)@),
    {
        let mut st = state;
        let mut left = attempts;
        if !ctrl.is_active() {
            return Ok(Next::interrupt());
        }
        while left > 0
            invariant
                left <= attempts,
                old(ctrl)@.active,
                left == attempts ==> (st == state && *ctrl == *old(ctrl)),
            decreases left,
        {
            match self.many(&mut st, ctrl) {
                Ok(Some(next)) => {
                    return Ok(next);
                }
                Ok(None) => {}
                Err(err) => {
                    match self.repair(err) {
                        Ok(()) => {}
                        Err(fatal) => {
                            return Err(fatal);
                        }
                    }
                }
            }
            if !ctrl.is_active() {
                return Ok(Next::interrupt());
            }
            left = left - 1;
        }
        Ok(Next::do_async(st))
    }

    /// One attempt: `Some` ends the step with the next descriptor,
    /// `None` asks to be called again, an error goes to `repair`.
    fn many(&mut self, state: &mut Self::State, ctrl: &mut Controller) -> (r: Result<
        Option<Next<Self::State>>,
        Fault,
    >) {
        match self.once(state, ctrl) {
            Ok(next) => Ok(Some(next)),
            Err(err) => Err(err),
        }
    }

    /// One shot of the step's own work.
    fn once(&mut self, state: &mut Self::State, ctrl: &mut Controller) -> (r: Result<
        Next<Self::State>,
        Fault,
    >)
        default_ensures
            *final (state) == *old(state),
            *final (ctrl) == *old(ctrl),
    {
        let _ = state;
        let _ = ctrl;
        Ok(Next::done())
    }

    /// A chance at local recovery: absorb the error to retry, or
    /// re-raise it to fail the step. The default re-raises.
    fn repair(&mut self, err: Fault) -> (r: Result<(), Fault>)
        default_ensures
            r matches Err(e) && e == err,
    {
        Err(err)
    }

    /// Resolves a step the retry loop could not save: the replacement
    /// descriptor. The default terminates the unit with the failure.
    fn fallback(&mut self, err: Fault) -> (n: Next<Self::State>)
        default_ensures
            n == Next::<Self::State>::Fail(err),
    {
        Next::fail(err)
    }
}

/// Thread-offloaded steps: the same retry loop as the cooperative
/// strategy, but a scheduler runs the whole loop for one step on a
/// worker off the cooperative scheduler. Once an attempt is in flight
/// it always runs to completion; cancellation is observed only at the
/// boundary between attempts.
pub trait DoSync: Agent {
    /// The bounded retry loop for one offloaded step; identical
    /// settlement to the cooperative strategy — which attempts run is a
    /// scheduling matter, what their outcomes mean is not.
    fn perform(&mut self, state: Self::State, ctrl: &mut Controller, attempts: u64) -> (r: Result<
        Next<Self::State>,
        Fault,
    >)
        default_ensures
            !old(ctrl)@.active ==> (r matches Ok(n) && n is Interrupt && final (ctrl)@ == old(
                ctrl,
            )@),
            attempts == 0 && old(ctrl)@.active ==> (r matches Ok(n) && n == Next::Step(
                Strategy::Offloaded,
                state,
            ) && final (ctrl)@ == old(ctrl)@),
    {
        let mut st = state;
        let mut left = attempts;
        if !ctrl.is_active() {
            return Ok(Next::interrupt());
        }
        while left > 0
            invariant
                left <= attempts,
                old(ctrl)@.active,
                left == attempts ==> (st == state && *ctrl == *old(ctrl)),
            decreases left,
        {
            match self.many(&mut st, ctrl) {
                Ok(Some(next)) => {
                    return Ok(next);
                }
                Ok(None) => {}
                Err(err) => {
                    match self.repair(err) {
                        Ok(()) => {}
                        Err(fatal) => {
                            return Err(fatal);
                        }
                    }
                }
            }
            if !ctrl.is_active() {
                return Ok(Next::interrupt());
            }
            left = left - 1;
        }
        Ok(Next::do_sync(st))
    }

    /// One attempt of the offloaded step.
    fn many(&mut self, state: &mut Self::State, ctrl: &mut Controller) -> (r: Result<
        Option<Next<Self::State>>,
        Fault,
    >) {
        match self.once(state, ctrl) {
            Ok(next) => Ok(Some(next)),
            Err(err) => Err(err),
        }
    }

    /// One shot of the step's own work, run to completion on the
    /// worker whatever the controller does meanwhile.
    fn once(&mut self, state: &mut Self::State, ctrl: &mut Controller) -> (r: Result<
        Next<Self::State>,
        Fault,
    >)
        default_ensures
            *final (state) == *old(state),
            *final (ctrl) == *old(ctrl),
    {
        let _ = state;
        let _ = ctrl;
        Ok(Next::done())
    }

    /// A chance at local recovery before the step fails; the default
    /// re-raises.
    fn repair(&mut self, err: Fault) -> (r: Result<(), Fault>)
        default_ensures
            r matches Err(e) && e == err,
    {
        Err(err)
    }

    /// Resolves a step the retry loop could not save; the default
    /// terminates the unit with the failure.
    fn fallback(&mut self, err: Fault) -> (n: Next<Self::State>)
        default_ensures
            n == Next::<Self::State>::Fail(err),
    {
        Next::fail(err)
    }
}

/// The outcome of running one step: continue with the unit and its new
/// descriptor, a crash of the step that `fallback` resolves, or a unit
/// lost with the worker that was executing it.
pub enum Transition<T: Agent> {
    Next(T, Next<T::State>),
    Crashed(T, Fault),
    Lost(Fault),
}

/// Runs one step of a unit in this process under its strategy's retry
/// loop; the unit always comes back — a step performed in-process can
/// crash, but never lose the unit.
pub fn perform_step<T: DoAsync + DoSync>(
    agent: T,
    strategy: Strategy,
    state: T::State,
    ctrl: &mut Controller,
    attempts: u64,
) -> (t: Transition<T>)
    ensures
        !(t is Lost),
{
    let mut unit = agent;
    let res = match strategy {
        Strategy::Cooperative => DoAsync::perform(&mut unit, state, ctrl, attempts),
        Strategy::Offloaded => DoSync::perform(&mut unit, state, ctrl, attempts),
    };
    match res {
        Ok(next) => Transition::Next(unit, next),
        Err(err) => Transition::Crashed(unit, err),
    }
}

/// What a scheduler gets back from the worker it offloaded a step to:
/// the finished transition, or an error because the worker vanished.
/// A completed step's transition stands exactly as the worker produced
/// it, and a worker crash is absorbed as a lost-unit transition rather
/// than escaping as a process-fatal failure.
pub fn absorb_worker_outcome<T: Agent>(outcome: Result<Transition<T>, Fault>) -> (t: Transition<
    T,
>)
    ensures
        outcome matches Ok(tr) ==> t == tr,
        outcome matches Err(e) ==> t == Transition::<T>::Lost(e),
{
    match outcome {
        Ok(tr) => tr,
        Err(e) => Transition::Lost(e),
    }
}

/// What one completed attempt of a step's retry loop came back with.
pub ghost enum AttemptOutcome<S> {
    Advanced(Next<S>),
    Unsettled,
    Failed(Fault),
}

/// How one round of the retry loop resolves.
pub ghost enum RoundResult<S> {
    Interrupted,
    Settled(Next<S>),
    Again,
    Repair(Fault),
}

/// One round of a step's retry loop, as the performers run it: the
/// controller is consulted once, at the boundary before the attempt;
/// if it is active the attempt runs to completion and its outcome
/// alone decides the round. The controller's state after the boundary
/// is deliberately absent here: an in-flight attempt cannot be
/// interrupted.
pub open spec fn round_result<S>(boundary_active: bool, outcome: AttemptOutcome<S>) -> RoundResult<
    S,
> {
    if !boundary_active {
        RoundResult::Interrupted
    } else {
        match outcome {
            AttemptOutcome::Advanced(n) => RoundResult::Settled(n),
            AttemptOutcome::Unsettled => RoundResult::Again,
            AttemptOutcome::Failed(f) => RoundResult::Repair(f),
        }
    }
}

/// A stop requested while an attempt is mid-execution does not
/// interrupt that in-flight attempt: its round still settles on the
/// outcome the attempt produced. The interruption is observed at the
/// next boundary, where every outcome gives way to the interrupt.
pub proof fn lemma_stop_mid_attempt_not_observed<S>(
    c: ControlState,
    force: bool,
    outcome: AttemptOutcome<S>,
    later: AttemptOutcome<S>,
)
    requires
        c.active,
    ensures
        round_result(c.active, outcome) == round_result(true, outcome),
        !(round_result(c.active, outcome) is Interrupted),
        round_result(stop_control(c, force).active, later) == RoundResult::<S>::Interrupted,
{
}

/// The loop driving one generic unit: resolve the current descriptor,
/// perform it, react to the transition, and finalize exactly once on
/// the single transition into the terminal phase.
pub struct RunAgent<T: Agent> {
    agent: Option<T>,
    session: AgentSession<T::Msg, T::GroupBy>,
    next: Option<Next<T::State>>,
    output: Option<T::Output>,
    failures: Failures,
    crashes: u64,
    phase: Phase,
}

impl<T: Agent> RunAgent<T> {
    /// The lifecycle phase the unit is in.
    pub closed spec fn phase(&self) -> Phase {
        self.phase
    }

    /// Whether the unit has reached its terminal state.
    pub open spec fn terminated(&self) -> bool {
        self.phase() == Phase::Terminated
    }

    /// Whether the unit itself is still held by the loop.
    pub closed spec fn engaged(&self) -> bool {
        self.agent is Some
    }

    /// Whether finalize has produced the unit's output.
    pub closed spec fn has_output(&self) -> bool {
        self.output is Some
    }

    /// The abstract state of the unit's controller.
    pub closed spec fn ctrl_state(&self) -> ControlState {
        self.session.ctrl_state()
    }

    /// The abstract state of the unit's mailbox.
    pub closed spec fn mail(&self) -> MailboxModel<T::Msg> {
        self.session.mail()
    }

    /// The children tracked by the unit's session.
    pub closed spec fn children(&self) -> Seq<(u64, T::GroupBy)> {
        self.session.children()
    }

    /// How many child identities the session handed out.
    pub closed spec fn spawned(&self) -> u64 {
        self.session.spawned()
    }

    /// The session's tracker is well formed.
    pub open spec fn children_wf(&self) -> bool {
        &&& distinct_ids(self.children())
        &&& forall|i: int| 0 <= i < self.children().len() ==> (#[trigger] self.children()[i]).0
            < self.spawned()
    }

    /// The non-fatal failures recorded so far.
    pub closed spec fn recorded(&self) -> Seq<Seq<char>> {
        self.failures@
    }

    /// How many crashed transitions the loop has resolved.
    pub closed spec fn crash_count(&self) -> u64 {
        self.crashes
    }

    /// Wraps a unit, ready to run.
    pub fn new(agent: T) -> (rt: RunAgent<T>)
        ensures
            rt.phase() == Phase::Created,
            rt.engaged(),
            !rt.has_output(),
            rt.ctrl_state() == initial_control(),
            rt.mail().queue == Seq::<T::Msg>::empty(),
            !rt.mail().closed,
            rt.children() == Seq::<(u64, T::GroupBy)>::empty(),
            rt.spawned() == 0,
            rt.children_wf(),
            rt.recorded() == Seq::<Seq<char>>::empty(),
            rt.crash_count() == 0,
    {
        RunAgent {
            agent: Some(agent),
            session: AgentSession::new(0),
            next: None,
            output: None,
            failures: Failures::new(),
            crashes: 0,
            phase: Phase::Created,
        }
    }

    /// Queues a message for the unit; fails once the mailbox is closed.
    pub fn send(&mut self, message: T::Msg) -> (r: Result<(), SendError<T::Msg>>)
        ensures
            final (self).mail() == send_transition(old(self).mail(), message),
            final (self).ctrl_state() == old(self).ctrl_state(),
            final (self).phase() == old(self).phase(),
            final (self).engaged() == old(self).engaged(),
            final (self).has_output() == old(self).has_output(),
            final (self).children() == old(self).children(),
            final (self).spawned() == old(self).spawned(),
            final (self).crash_count() == old(self).crash_count(),
            !old(self).mail().closed ==> r matches Ok(()),
            old(self).mail().closed ==> (r matches Err(e) && e.message == message),
    {
        self.session.send(message)
    }

    /// Requests the graceful end: closes the mailbox, lets the queue
    /// drain, and the drained mailbox then turns into a stop.
    pub fn interrupt(&mut self)
        ensures
            final (self).mail() == close_mailbox(old(self).mail()),
            final (self).ctrl_state() == old(self).ctrl_state(),
            final (self).phase() == old(self).phase(),
            final (self).engaged() == old(self).engaged(),
            final (self).has_output() == old(self).has_output(),
            final (self).children() == old(self).children(),
            final (self).spawned() == old(self).spawned(),
            final (self).crash_count() == old(self).crash_count(),
    {
        self.session.close_mailbox();
    }

    /// Requests a stop at the next step boundary, graceful or forced,
    /// without waiting for the queue to drain.
    pub fn stop(&mut self, force: bool)
        ensures
            final (self).ctrl_state() == stop_control(old(self).ctrl_state(), force),
            final (self).mail() == old(self).mail(),
            final (self).phase() == old(self).phase(),
            final (self).engaged() == old(self).engaged(),
            final (self).has_output() == old(self).has_output(),
            final (self).children() == old(self).children(),
            final (self).spawned() == old(self).spawned(),
            final (self).crash_count() == old(self).crash_count(),
    {
        self.session.request_stop(force);
    }

    /// The unit's recorded non-fatal failures.
    pub fn failures(&self) -> (f: &Failures)
        ensures
            f@ == self.recorded(),
    {
        &self.failures
    }

    /// How many crashed transitions the loop has resolved through
    /// `fallback`.
    pub fn crashes(&self) -> (n: u64)
        ensures
            n == self.crash_count(),
    {
        self.crashes
    }

    /// Ends the handle and yields the unit's output: present exactly
    /// when the loop has finalized the unit.
    pub fn join(self) -> (out: Option<T::Output>)
        ensures
            out is Some <==> self.has_output(),
    {
        self.output
    }

    /// Whether no child is tracked by the unit's session.
    pub fn tracker_is_empty(&self) -> (b: bool)
        ensures
            b == (self.children().len() == 0),
    {
        self.session.tracker_is_empty()
    }

    /// Lends the unit out to the scheduler between turns — to collect
    /// the child runtimes it stored, say; `restore_agent` hands it
    /// back.
    pub fn take_agent(&mut self) -> (a: Option<T>)
        ensures
            a is Some <==> old(self).engaged(),
            !final (self).engaged(),
            final (self).phase() == old(self).phase(),
            final (self).has_output() == old(self).has_output(),
            final (self).ctrl_state() == old(self).ctrl_state(),
            final (self).mail() == old(self).mail(),
            final (self).children() == old(self).children(),
            final (self).spawned() == old(self).spawned(),
            final (self).recorded() == old(self).recorded(),
            final (self).crash_count() == old(self).crash_count(),
    {
        self.agent.take()
    }

    /// Hands the unit back after `take_agent`.
    pub fn restore_agent(&mut self, agent: T)
        requires
            !old(self).engaged(),
        ensures
            final (self).engaged(),
            final (self).phase() == old(self).phase(),
            final (self).has_output() == old(self).has_output(),
            final (self).ctrl_state() == old(self).ctrl_state(),
            final (self).mail() == old(self).mail(),
            final (self).children() == old(self).children(),
            final (self).spawned() == old(self).spawned(),
            final (self).recorded() == old(self).recorded(),
            final (self).crash_count() == old(self).crash_count(),
    {
        self.agent = Some(agent);
    }
}

impl<T: DoAsync + DoSync> RunAgent<T> {
    /// Drives the unit for at most `fuel` turns, each step's retry
    /// loop bounded by `attempts`. The controller is observed at every
    /// step boundary; a unit whose mailbox is open and empty parks as
    /// `Waiting` until an outside event arrives. On the single
    /// transition into the terminal phase the unit is interrupted (on
    /// the interrupt path), finalized exactly once, and its output
    /// stored; a terminated runtime returns at once, unchanged.
    pub fn run(&mut self, fuel: u64, attempts: u64) -> (p: Progress)
        ensures
            old(self).terminated() ==> (p == Progress::Terminated && *final (self) == *old(self)),
            p == Progress::Terminated ==> final (self).terminated(),
            p != Progress::Terminated ==> !final (self).terminated(),
            p != Progress::Terminated ==> final (self).engaged() == old(self).engaged(),
            old(self).engaged() && !old(self).terminated() && p == Progress::Terminated ==> final (
            self).has_output(),
            !old(self).terminated() && p == Progress::Terminated ==> !final (self).engaged(),
            old(self).children_wf() ==> final (self).children_wf(),
            p == Progress::Waiting ==> (final (self).mail().queue.len() == 0 && !final (
            self).mail().closed && final (self).ctrl_state().active),
            final (self).crash_count() >= old(self).crash_count(),
            !old(self).engaged() && !old(self).terminated() ==> p == Progress::Terminated,
            old(self).phase() == Phase::Running && old(self).engaged() && !old(
                self,
            ).ctrl_state().active && fuel > 0 ==> p == Progress::Terminated,
    {
        if self.phase == Phase::Terminated {
            return Progress::Terminated;
        }
        let mut agent = match self.agent.take() {
            Some(a) => a,
            None => {
                self.phase = Phase::Terminated;
                return Progress::Terminated;
            }
        };
        if self.phase == Phase::Created {
            let n = agent.initialize(&mut self.session);
            self.next = Some(n);
            self.phase = Phase::Running;
        }
        let mut current: Next<T::State> = match self.next.take() {
            Some(n) => n,
            None => Next::events(),
        };
        let mut left = fuel;
        while left > 0
            invariant
                self.phase() == Phase::Running,
                !self.engaged(),
                !old(self).terminated(),
                old(self).engaged(),
                old(self).children_wf() ==> self.session.children_wf(),
                self.crash_count() >= old(self).crash_count(),
                old(self).phase() == Phase::Running && !old(self).ctrl_state().active ==> (left
                    == fuel && self.session.ctrl_state() == old(self).ctrl_state()),
            decreases left,
        {
            if !self.session.is_active() {
                let at_boundary = match &current {
                    Next::Step(_, _) => true,
                    Next::Events => true,
                    _ => false,
                };
                if at_boundary {
                    current = Next::interrupt();
                }
            }
            match current {
                Next::Step(strategy, state) => {
                    let t = perform_step(
                        agent,
                        strategy,
                        state,
                        &mut self.session.controller,
                        attempts,
                    );
                    match t {
                        Transition::Next(unit, n) => {
                            agent = unit;
                            current = n;
                        }
                        Transition::Crashed(mut unit, err) => {
                            if self.crashes < u64::MAX {
                                self.crashes = self.crashes + 1;
                            }
                            let n = match strategy {
                                Strategy::Cooperative => DoAsync::fallback(&mut unit, err),
                                Strategy::Offloaded => DoSync::fallback(&mut unit, err),
                            };
                            agent = unit;
                            current = n;
                        }
                        Transition::Lost(err) => {
                            self.failures.put(Err(err));
                            self.phase = Phase::Terminated;
                            return Progress::Terminated;
                        }
                    }
                }
                Next::Events => {
                    if self.session.queue_len() == 0 && !self.session.mailbox_closed() {
                        self.next = Some(Next::events());
                        self.agent = Some(agent);
                        return Progress::Waiting;
                    }
                    match self.session.poll() {
                        Polled::Message(message) => {
                            let r = agent.handle(message, &mut self.session);
                            self.failures.put(r);
                        }
                        Polled::Drained => {
                            self.session.request_stop(false);
                        }
                        Polled::Pending => {}
                    }
                    current = Next::events();
                }
                Next::Done => {
                    let out = agent.finalize(&mut self.session);
                    self.output = Some(out);
                    self.phase = Phase::Terminated;
                    return Progress::Terminated;
                }
                Next::Fail(err) => {
                    self.failures.put(Err(err));
                    let out = agent.finalize(&mut self.session);
                    self.output = Some(out);
                    self.phase = Phase::Terminated;
                    return Progress::Terminated;
                }
                Next::Interrupt => {
                    agent.interrupt(&mut self.session);
                    let out = agent.finalize(&mut self.session);
                    self.output = Some(out);
                    self.phase = Phase::Terminated;
                    return Progress::Terminated;
                }
            }
            left = left - 1;
        }
        self.next = Some(current);
        self.agent = Some(agent);
        Progress::Spent
    }
}

impl<T: Supervisor> RunAgent<T> {
    /// Reports that a tracked child's runtime loop terminated. The
    /// child's relation is removed and `finished` delivered exactly
    /// once per child: a second report of the same identity removes
    /// nothing and fires nothing.
    pub fn child_terminated(&mut self, id: u64) -> (fired: bool)
        requires
            old(self).children_wf(),
            old(self).engaged(),
        ensures
            final (self).children_wf(),
            final (self).phase() == old(self).phase(),
            final (self).engaged(),
            fired == has_entry(old(self).children(), id),
            !fired ==> (final (self).children() == old(self).children() && final (self).spawned()
                == old(self).spawned()),
    {
        match self.session.remove_child(id) {
            Some(rel) => {
                let mut agent = match self.agent.take() {
                    Some(a) => a,
                    None => vstd::pervasive::unreached(),
                };
                agent.finished(&rel, &mut self.session);
                self.agent = Some(agent);
                true
            }
            None => false,
        }
    }
}

} // verus!
