//! The mailbox-driven unit: an actor handles its messages strictly in
//! send order, winds down gracefully once its mailbox is closed and
//! drained, and is finalized exactly once on every terminal path.

use crate::context::{Context, ManagedContext};
use crate::controller::{stop_control, ControlState, Controller, RegistrationTaken};
use crate::fault::{Failures, Fault};
use crate::mailbox::{close_mailbox, Mailbox, MailboxModel, Polled, SendError};
use crate::Progress;
use vstd::prelude::*;

verus! {

/// What one `event` call did to the plumbing: dispatched the next
/// queued message, observed the drained mailbox and requested the
/// graceful stop, or found nothing to do yet.
pub ghost enum EventAction<M> {
    Dispatched(M),
    Stopped,
    Waited,
}

/// How one `event` call moves the controller and the mailbox, apart
/// from whatever the dispatched handler itself does: the next queued
/// message leaves the queue; a drained closed mailbox turns into a
/// graceful stop request; an empty open mailbox waits.
pub open spec fn event_transition<M>(c: ControlState, m: MailboxModel<M>) -> (
    ControlState,
    MailboxModel<M>,
    EventAction<M>,
) {
    if m.queue.len() > 0 {
        (
            c,
            MailboxModel { queue: m.queue.drop_first(), ..m },
            EventAction::Dispatched(m.queue[0]),
        )
    } else if m.closed {
        (stop_control(c, false), m, EventAction::Stopped)
    } else {
        (c, m, EventAction::Waited)
    }
}

/// A second `event` on a drained mailbox is idempotent: it dispatches
/// nothing, leaves mailbox and controller exactly where the first call
/// left them, and observes the same stop again.
pub proof fn lemma_event_after_drain_idempotent<M>(c: ControlState, m: MailboxModel<M>)
    requires
        m.queue.len() == 0,
        m.closed,
    ensures
        ({
            let (c1, m1, a1) = event_transition(c, m);
            let (c2, m2, a2) = event_transition(c1, m1);
            &&& a1 == EventAction::<M>::Stopped
            &&& a2 == EventAction::<M>::Stopped
            &&& c2 == c1
            &&& m2 == m1
            &&& !c1.active
        }),
{
}

/// The context of a mailbox-driven unit: its controller, its mailbox,
/// and the address a scheduler knows it under.
pub struct ActorSession<M> {
    controller: Controller,
    mailbox: Mailbox<M>,
    address: u64,
}

impl<M> ActorSession<M> {
    /// The abstract state of the session's controller.
    pub closed spec fn ctrl_state(&self) -> ControlState {
        self.controller@
    }

    /// The abstract state of the session's mailbox.
    pub closed spec fn mail(&self) -> MailboxModel<M> {
        self.mailbox@
    }

    /// A fresh session: running, with an open empty mailbox.
    pub fn new(address: u64) -> (s: ActorSession<M>)
        ensures
            s.ctrl_state() == crate::controller::initial_control(),
            s.mail().queue == Seq::<M>::empty(),
            !s.mail().closed,
            s.address_id() == address,
    {
        ActorSession { controller: Controller::new(), mailbox: Mailbox::new(), address }
    }

    /// The address a scheduler assigned to this unit.
    pub closed spec fn address_id(&self) -> u64 {
        self.address
    }

    /// Queues a message for this unit, keeping send order; fails once
    /// the mailbox is closed, handing the message back.
    pub fn send(&mut self, message: M) -> (r: Result<(), SendError<M>>)
        ensures
            final (self).mail() == crate::mailbox::send_transition(old(self).mail(), message),
            final (self).ctrl_state() == old(self).ctrl_state(),
            final (self).address_id() == old(self).address_id(),
            !old(self).mail().closed ==> r matches Ok(()),
            old(self).mail().closed ==> (r matches Err(e) && e.message == message),
    {
        self.mailbox.send(message)
    }

    /// Takes the next queued message, or reports the mailbox drained or
    /// still pending.
    pub fn poll(&mut self) -> (r: Polled<M>)
        ensures
            final (self).ctrl_state() == old(self).ctrl_state(),
            final (self).address_id() == old(self).address_id(),
            old(self).mail().queue.len() > 0 ==> (r matches Polled::Message(msg) && msg == old(
                self,
            ).mail().queue[0] && final (self).mail().queue == old(self).mail().queue.drop_first()
                && final (self).mail().closed == old(self).mail().closed),
            old(self).mail().queue.len() == 0 && old(self).mail().closed ==> (r
                matches Polled::Drained && final (self).mail() == old(self).mail()),
            old(self).mail().queue.len() == 0 && !old(self).mail().closed ==> (r
                matches Polled::Pending && final (self).mail() == old(self).mail()),
    {
        self.mailbox.poll()
    }

    /// How many messages are queued and not yet dispatched.
    pub fn queue_len(&self) -> (n: usize)
        ensures
            n == self.mail().queue.len(),
    {
        self.mailbox.len()
    }

    /// Whether the mailbox refuses further sends.
    pub fn mailbox_closed(&self) -> (b: bool)
        ensures
            b == self.mail().closed,
    {
        self.mailbox.is_closed()
    }

    /// Requests a stop through the session's controller: graceful when
    /// `force` is false, arming the immediate abort when it is true.
    /// The mailbox is left untouched.
    pub fn request_stop(&mut self, force: bool)
        ensures
            final (self).ctrl_state() == stop_control(old(self).ctrl_state(), force),
            final (self).mail() == old(self).mail(),
            final (self).address_id() == old(self).address_id(),
    {
        let _ = self.controller.stop(force);
    }

    /// Closes the mailbox while keeping the unit running: the queued
    /// messages drain, and the drained mailbox then turns into a
    /// graceful stop.
    pub fn close_mailbox(&mut self)
        ensures
            final (self).mail() == close_mailbox(old(self).mail()),
            final (self).ctrl_state() == old(self).ctrl_state(),
            final (self).address_id() == old(self).address_id(),
    {
        self.mailbox.close();
    }
}

impl<M> Context for ActorSession<M> {
    type Address = u64;

    fn address(&self) -> &u64 {
        &self.address
    }
}

impl<M> ManagedContext for ActorSession<M> {
    closed spec fn ctrl(&self) -> ControlState {
        self.ctrl_state()
    }

    fn is_active(&self) -> (r: bool) {
        self.controller.is_active()
    }

    fn stop(&mut self, force: bool) -> (r: Result<(), RegistrationTaken>) {
        self.controller.stop(force)
    }

    /// Marks the unit as interrupted: the mailbox closes and the
    /// controller's flag goes down, so the loop winds down at the next
    /// step boundary.
    fn shutdown(&mut self) {
        self.mailbox.close();
        let _ = self.controller.stop(false);
    }
}

/// A mailbox-driven unit: lifecycle callbacks around an ordered stream
/// of messages. Handlers for one unit never overlap; messages are
/// dispatched strictly in send order.
pub trait Actor: Sized {
    /// The closed set of messages this unit accepts.
    type Msg;

    /// One-shot setup, before any message is dispatched.
    fn initialize(&mut self, ctx: &mut ActorSession<Self::Msg>) -> (r: Result<(), Fault>) {
        Ok(())
    }

    /// The handler an envelope dispatches to; one call per message,
    /// strictly in send order.
    fn handle(&mut self, message: Self::Msg, ctx: &mut ActorSession<Self::Msg>) -> (r: Result<
        (),
        Fault,
    >);

    /// Pulls the next envelope and dispatches it. On a closed and
    /// drained mailbox it requests the graceful stop instead — calling
    /// it again then is idempotent; on an open empty mailbox it leaves
    /// everything untouched and the unit waits.
    fn event(&mut self, ctx: &mut ActorSession<Self::Msg>) -> (r: Result<(), Fault>)
        default_ensures
            old(ctx).mail().queue.len() == 0 && old(ctx).mail().closed ==> (r matches Ok(())
                && final (ctx).mail() == old(ctx).mail() && final (ctx).ctrl_state()
                == stop_control(old(ctx).ctrl_state(), false)),
            old(ctx).mail().queue.len() == 0 && !old(ctx).mail().closed ==> (r matches Ok(())
                && final (ctx).mail() == old(ctx).mail() && final (ctx).ctrl_state() == old(
            ctx).ctrl_state()),
    {
        match ctx.poll() {
            Polled::Message(message) => self.handle(message, ctx),
            Polled::Drained => {
                ctx.request_stop(false);
                Ok(())
            }
            Polled::Pending => Ok(()),
        }
    }

    /// Invoked once the stop fired: by default closes the mailbox —
    /// every later send is refused while the queue drains — and marks
    /// the context inactive.
    fn interrupt(&mut self, ctx: &mut ActorSession<Self::Msg>) -> (r: Result<(), Fault>)
        default_ensures
            r matches Ok(()),
            final (ctx).mail() == close_mailbox(old(ctx).mail()),
            final (ctx).ctrl_state() == stop_control(old(ctx).ctrl_state(), false),
    {
        ctx.close_mailbox();
        ctx.request_stop(false);
        Ok(())
    }

    /// Invoked exactly once on every terminal path, after the unit's
    /// last step.
    fn finalize(&mut self, ctx: &mut ActorSession<Self::Msg>) -> (r: Result<(), Fault>) {
        Ok(())
    }
}

/// Where an actor's lifecycle stands: built but not yet initialized,
/// between its first step and its last, or terminated for good.
#[derive(Clone, Copy, Debug, PartialEq, Eq, Structural)]
pub enum Phase {
    Created,
    Running,
    Terminated,
}

/// The loop driving one mailbox-driven unit: initialize once, dispatch
/// events in send order while the controller is active, then interrupt
/// and finalize — the terminal path runs exactly once, and a terminated
/// runtime never moves again.
pub struct ActorRuntime<A: Actor> {
    actor: A,
    session: ActorSession<A::Msg>,
    failures: Failures,
    phase: Phase,
}

impl<A: Actor> ActorRuntime<A> {
    /// The lifecycle phase the unit is in.
    pub closed spec fn phase(&self) -> Phase {
        self.phase
    }

    /// Whether the unit has reached its terminal state.
    pub open spec fn terminated(&self) -> bool {
        self.phase() == Phase::Terminated
    }

    /// The abstract state of the unit's controller.
    pub closed spec fn ctrl_state(&self) -> ControlState {
        self.session.ctrl_state()
    }

    /// The abstract state of the unit's mailbox.
    pub closed spec fn mail(&self) -> MailboxModel<A::Msg> {
        self.session.mail()
    }

    /// The non-fatal failures recorded so far.
    pub closed spec fn recorded(&self) -> Seq<Seq<char>> {
        self.failures@
    }

    /// Wraps a unit, ready to run: active controller, open empty
    /// mailbox, no failure recorded.
    pub fn new(actor: A) -> (rt: ActorRuntime<A>)
        ensures
            rt.phase() == Phase::Created,
            rt.ctrl_state() == crate::controller::initial_control(),
            rt.mail().queue == Seq::<A::Msg>::empty(),
            !rt.mail().closed,
            rt.recorded() == Seq::<Seq<char>>::empty(),
    {
        ActorRuntime {
            actor,
            session: ActorSession::new(0),
            failures: Failures::new(),
            phase: Phase::Created,
        }
    }

    /// Queues a message for the unit; fails once the mailbox is closed.
    pub fn send(&mut self, message: A::Msg) -> (r: Result<(), SendError<A::Msg>>)
        ensures
            final (self).mail() == crate::mailbox::send_transition(old(self).mail(), message),
            final (self).ctrl_state() == old(self).ctrl_state(),
            final (self).phase() == old(self).phase(),
            !old(self).mail().closed ==> r matches Ok(()),
            old(self).mail().closed ==> (r matches Err(e) && e.message == message),
    {
        self.session.send(message)
    }

    /// Requests the graceful end: the mailbox closes, the queued
    /// messages still drain, and the drained mailbox then turns into a
    /// stop.
    pub fn interrupt(&mut self)
        ensures
            final (self).mail() == close_mailbox(old(self).mail()),
            final (self).ctrl_state() == old(self).ctrl_state(),
            final (self).phase() == old(self).phase(),
    {
        self.session.close_mailbox();
    }

    /// Requests a stop at the next step boundary, forced or graceful,
    /// without waiting for the queue to drain.
    pub fn stop(&mut self, force: bool)
        ensures
            final (self).ctrl_state() == stop_control(old(self).ctrl_state(), force),
            final (self).mail() == old(self).mail(),
            final (self).phase() == old(self).phase(),
    {
        self.session.request_stop(force);
    }

    /// A look at the unit itself, for the scheduler that owns the
    /// runtime.
    pub fn actor_ref(&self) -> &A {
        &self.actor
    }

    /// The unit's recorded non-fatal failures, for inspection after
    /// termination.
    pub fn failures(&self) -> (f: &Failures)
        ensures
            f@ == self.recorded(),
    {
        &self.failures
    }

    /// Drives the unit for at most `fuel` events. Initialization runs
    /// first if it has not yet; then events are dispatched in send
    /// order while the controller is active. Once the controller goes
    /// inactive the unit is interrupted and finalized — exactly once:
    /// only the single transition into `Terminated` reaches those
    /// callbacks, and a terminated runtime returns at once, unchanged.
    pub fn run(&mut self, fuel: u64) -> (p: Progress)
        ensures
            old(self).terminated() ==> (p == Progress::Terminated && *final (self) == *old(self)),
            p == Progress::Terminated ==> final (self).terminated(),
            p != Progress::Terminated ==> !final (self).terminated(),
            p == Progress::Waiting ==> (!final (self).terminated() && final (
            self).mail().queue.len() == 0 && !final (self).mail().closed && final (
            self).ctrl_state().active),
            p == Progress::Spent ==> (!final (self).terminated() && final (
            self).ctrl_state().active),
            old(self).phase() == Phase::Running && !old(self).ctrl_state().active ==> p
                == Progress::Terminated,
    {
        match self.phase {
            Phase::Terminated => {
                return Progress::Terminated;
            }
            Phase::Created => {
                let res = self.actor.initialize(&mut self.session);
                self.failures.put(res);
                self.phase = Phase::Running;
            }
            Phase::Running => {}
        }
        let mut remaining: u64 = fuel;
        while remaining > 0 && self.session.is_active()
            invariant
                self.phase() == Phase::Running,
                !old(self).terminated(),
                old(self).phase() == Phase::Running && !old(self).ctrl_state().active
                    ==> self.session.ctrl_state() == old(self).ctrl_state(),
            decreases remaining,
        {
            if self.session.queue_len() == 0 && !self.session.mailbox_closed() {
                return Progress::Waiting;
            }
            let res = self.actor.event(&mut self.session);
            self.failures.put(res);
            remaining = remaining - 1;
        }
        if self.session.is_active() {
            return Progress::Spent;
        }
        let res = self.actor.interrupt(&mut self.session);
        self.failures.put(res);
        let fin = self.actor.finalize(&mut self.session);
        self.failures.put(fin);
        self.phase = Phase::Terminated;
        Progress::Terminated
    }
}

} // verus!
