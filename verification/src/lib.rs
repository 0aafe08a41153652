//! A runtime core for cancellable, resumable, supervisable units of
//! execution: a cooperative cancellation primitive, a state-machine step
//! abstraction with interchangeable performer strategies, a unit runtime
//! loop with a mailbox specialization, an interruptible and time-limited
//! routine executor, a supervision tracker, and a non-fatal failure sink.
//!
//! The core is deliberately synchronous and step-driven: every loop is
//! bounded by explicit fuel, and a scheduler around the library decides
//! when to resume a unit that is waiting for outside events.

pub mod actor;
pub mod agent;
pub mod context;
pub mod controller;
pub mod fault;
pub mod hybrid;
pub mod mailbox;
pub mod performers;
pub mod routine;
pub mod supervisor;
pub mod task;

use vstd::prelude::*;

verus! {

/// How far a fueled run of a unit's loop got. A scheduler keeps calling
/// back until the unit terminates: `Waiting` means the unit can only be
/// resumed by an outside event (a send or a stop), `Spent` means the
/// fuel ran out mid-work.
#[derive(Clone, Copy, Debug, PartialEq, Eq, Structural)]
pub enum Progress {
    Terminated,
    Waiting,
    Spent,
}

} // verus!
