//! The ordered message queue behind a mailbox-driven unit: strict FIFO
//! delivery, and a close that refuses every later send while letting
//! the already queued messages drain.

use std::collections::VecDeque;
use vstd::prelude::*;

verus! {

/// The abstract state of a mailbox: the queued messages in send order,
/// and whether the mailbox still accepts new ones.
pub ghost struct MailboxModel<M> {
    pub queue: Seq<M>,
    pub closed: bool,
}

/// Returned when a message is sent to a closed mailbox; it hands the
/// rejected message back to the caller.
pub struct SendError<M> {
    pub message: M,
}

/// What a poll of the mailbox found: the next message in send order, the
/// end of a closed and drained mailbox, or nothing yet on an open one —
/// the unit then waits for outside events.
pub enum Polled<M> {
    Message(M),
    Drained,
    Pending,
}

/// How a send changes the abstract state: appended in send order while
/// the mailbox is open, refused without a trace once it is closed.
pub open spec fn send_transition<M>(s: MailboxModel<M>, m: M) -> MailboxModel<M> {
    if s.closed {
        s
    } else {
        MailboxModel { queue: s.queue.push(m), ..s }
    }
}

/// How closing changes the abstract state: no further sends are
/// accepted, the queued messages stay to be drained.
pub open spec fn close_mailbox<M>(s: MailboxModel<M>) -> MailboxModel<M> {
    MailboxModel { closed: true, ..s }
}

/// No message sent after the mailbox is closed is ever enqueued, so
/// none of them can ever be dispatched: whatever a closed mailbox hands
/// out later was queued before the close.
pub proof fn lemma_closed_mailbox_rejects<M>(s: MailboxModel<M>, m: M)
    requires
        s.closed,
    ensures
        send_transition(s, m) == s,
{
}

/// A strictly FIFO message queue with a one-way close.
pub struct Mailbox<M> {
    queue: VecDeque<M>,
    closed: bool,
}

impl<M> View for Mailbox<M> {
    type V = MailboxModel<M>;

    closed spec fn view(&self) -> MailboxModel<M> {
        MailboxModel { queue: self.queue@, closed: self.closed }
    }
}

impl<M> Mailbox<M> {
    /// An open, empty mailbox.
    pub fn new() -> (mb: Mailbox<M>)
        ensures
            mb@.queue == Seq::<M>::empty(),
            !mb@.closed,
    {
        Mailbox { queue: VecDeque::new(), closed: false }
    }

    /// Whether the mailbox still accepts sends.
    pub fn is_closed(&self) -> (b: bool)
        ensures
            b == self@.closed,
    {
        self.closed
    }

    /// How many messages are queued and not yet dispatched.
    pub fn len(&self) -> (n: usize)
        ensures
            n == self@.queue.len(),
    {
        self.queue.len()
    }

    /// Appends a message, keeping send order; a closed mailbox refuses
    /// it and hands it back, leaving the queue exactly as it was.
    pub fn send(&mut self, message: M) -> (r: Result<(), SendError<M>>)
        ensures
            final (self)@ == send_transition(old(self)@, message),
            !old(self)@.closed ==> r matches Ok(()),
            old(self)@.closed ==> (r matches Err(e) && e.message == message),
    {
        if self.closed {
            Err(SendError { message })
        } else {
            self.queue.push_back(message);
            Ok(())
        }
    }

    /// Closes the mailbox: every later send fails, the queued messages
    /// remain to be drained in order.
    pub fn close(&mut self)
        ensures
            final (self)@ == close_mailbox(old(self)@),
    {
        self.closed = true;
    }

    /// Takes the next message in send order. An empty closed mailbox
    /// reports `Drained`; an empty open one reports `Pending`, meaning a
    /// message may still arrive from outside.
    pub fn poll(&mut self) -> (r: Polled<M>)
        ensures
            old(self)@.queue.len() > 0 ==> (r matches Polled::Message(m) && m == old(
                self,
            )@.queue[0] && final (self)@.queue == old(self)@.queue.drop_first() && final (
            self)@.closed == old(self)@.closed),
            old(self)@.queue.len() == 0 && old(self)@.closed ==> (r matches Polled::Drained
                && final (self)@ == old(self)@),
            old(self)@.queue.len() == 0 && !old(self)@.closed ==> (r matches Polled::Pending
                && final (self)@ == old(self)@),
    {
        match self.queue.pop_front() {
            Some(m) => Polled::Message(m),
            None => {
                if self.closed {
                    Polled::Drained
                } else {
                    Polled::Pending
                }
            }
        }
    }
}

} // verus!
