//! Function units: a single one-shot body wrapped as a full unit, so a
//! bare computation can be spawned, cancelled and joined like any other
//! agent. An infallible body runs as one offloaded step; a fallible
//! resolving body runs as one cooperative step.

use crate::actor::Phase;
use crate::agent::{Agent, AgentSession, DoAsync, DoSync, Next, RunAgent, Strategy};
use crate::controller::{initial_control, Controller};
use crate::fault::Fault;
use vstd::prelude::*;

verus! {

/// The single step state of a function unit: call the stored body.
pub struct CallFn;

/// A one-shot fallible body: the resolving computation behind a
/// cooperative function unit. Consumed exactly once for its result.
pub trait AnyAsyncFut<T>: Sized {
    /// Consumes the body and resolves it to an output or an error.
    fn resolve(self) -> (r: Result<T, Fault>);
}

/// A one-shot infallible body: the computation behind an offloaded
/// function unit. Consumed exactly once for its result.
pub trait AnySyncFn<T>: Sized {
    /// Consumes the body and produces its output.
    fn invoke(self) -> (r: T);
}

/// A unit wrapping one infallible body, performed as a single
/// offloaded step; its result becomes the unit's output, and a unit
/// interrupted before the body ran falls back to the default output.
pub struct SyncFn<T, F> {
    func: Option<F>,
    output: Option<T>,
}

impl<T, F> SyncFn<T, F> {
    /// Whether the one-shot body is still waiting to run.
    pub closed spec fn armed(&self) -> bool {
        self.func is Some
    }

    /// Whether the body has produced the unit's output.
    pub closed spec fn resolved(&self) -> bool {
        self.output is Some
    }
}

impl<T: Default, F: AnySyncFn<T>> Agent for SyncFn<T, F> {
    type State = CallFn;

    type Msg = ();

    type GroupBy = ();

    type Output = T;

    /// The first and only step: call the stored body, offloaded.
    fn begin(&mut self) -> (n: Next<CallFn>)
        ensures
            n == Next::<CallFn>::Step(Strategy::Offloaded, CallFn),
            *final (self) == *old(self),
    {
        Next::do_sync(CallFn)
    }

    fn finalize(self, ctx: &mut AgentSession<(), ()>) -> (out: T) {
        let _ = ctx;
        match self.output {
            Some(out) => out,
            None => T::default(),
        }
    }
}

impl<T: Default, F: AnySyncFn<T>> SyncFn<T, F> {
    /// Consumes the body exactly once: an armed unit resolves to its
    /// output and finishes; a consumed one can only report an error.
    pub fn invoke_body(&mut self) -> (r: Result<Next<CallFn>, Fault>)
        ensures
            !final (self).armed(),
            old(self).armed() ==> (r matches Ok(n) && n is Done && final (self).resolved()),
            !old(self).armed() ==> (r matches Err(_) && final (self).resolved() == old(
                self,
            ).resolved()),
    {
        match self.func.take() {
            Some(f) => {
                self.output = Some(f.invoke());
                Ok(Next::done())
            }
            None => Err(Fault::new("the body was already consumed".to_owned())),
        }
    }
}

impl<T: Default, F: AnySyncFn<T>> DoSync for SyncFn<T, F> {
    fn once(&mut self, state: &mut CallFn, ctrl: &mut Controller) -> (r: Result<
        Next<CallFn>,
        Fault,
    >) {
        let _ = state;
        let _ = ctrl;
        self.invoke_body()
    }
}

impl<T: Default, F: AnySyncFn<T>> DoAsync for SyncFn<T, F> {

}

impl<T: Default, F: AnySyncFn<T>> RunAgent<SyncFn<T, F>> {
    /// Wraps a one-shot infallible body as a ready-to-run unit whose
    /// single step is offloaded.
    pub fn new_sync(func: F) -> (rt: RunAgent<SyncFn<T, F>>)
        ensures
            rt.phase() == Phase::Created,
            rt.engaged(),
            !rt.has_output(),
            rt.ctrl_state() == initial_control(),
            rt.children_wf(),
    {
        RunAgent::new(SyncFn { func: Some(func), output: None })
    }
}

/// A unit wrapping one fallible resolving body, performed as a single
/// cooperative step; a resolution error crashes the step and the unit
/// terminates through the default fallback.
pub struct AsyncFn<T, F> {
    fut: Option<F>,
    output: Option<T>,
}

impl<T, F> AsyncFn<T, F> {
    /// Whether the one-shot body is still waiting to resolve.
    pub closed spec fn armed(&self) -> bool {
        self.fut is Some
    }

    /// Whether the body has produced the unit's output.
    pub closed spec fn resolved(&self) -> bool {
        self.output is Some
    }
}

impl<T: Default, F: AnyAsyncFut<T>> Agent for AsyncFn<T, F> {
    type State = CallFn;

    type Msg = ();

    type GroupBy = ();

    type Output = T;

    /// The first and only step: resolve the stored body, cooperatively.
    fn begin(&mut self) -> (n: Next<CallFn>)
        ensures
            n == Next::<CallFn>::Step(Strategy::Cooperative, CallFn),
            *final (self) == *old(self),
    {
        Next::do_async(CallFn)
    }

    fn finalize(self, ctx: &mut AgentSession<(), ()>) -> (out: T) {
        let _ = ctx;
        match self.output {
            Some(out) => out,
            None => T::default(),
        }
    }
}

impl<T: Default, F: AnyAsyncFut<T>> AsyncFn<T, F> {
    /// Consumes the body exactly once: an armed unit either resolves
    /// to its output and finishes or reports the resolution error; a
    /// consumed one can only report an error.
    pub fn resolve_body(&mut self) -> (r: Result<Next<CallFn>, Fault>)
        ensures
            !final (self).armed(),
            old(self).armed() ==> ((r matches Ok(n) && n is Done && final (self).resolved())
                || r matches Err(_)),
            !old(self).armed() ==> (r matches Err(_) && final (self).resolved() == old(
                self,
            ).resolved()),
    {
        match self.fut.take() {
            Some(f) => {
                match f.resolve() {
                    Ok(out) => {
                        self.output = Some(out);
                        Ok(Next::done())
                    }
                    Err(err) => Err(err),
                }
            }
            None => Err(Fault::new("the body was already consumed".to_owned())),
        }
    }
}

impl<T: Default, F: AnyAsyncFut<T>> DoAsync for AsyncFn<T, F> {
    fn once(&mut self, state: &mut CallFn, ctrl: &mut Controller) -> (r: Result<
        Next<CallFn>,
        Fault,
    >) {
        let _ = state;
        let _ = ctrl;
        self.resolve_body()
    }
}

impl<T: Default, F: AnyAsyncFut<T>> DoSync for AsyncFn<T, F> {

}

impl<T: Default, F: AnyAsyncFut<T>> RunAgent<AsyncFn<T, F>> {
    /// Wraps a one-shot fallible body as a ready-to-run unit whose
    /// single step is cooperative.
    pub fn new_async(fut: F) -> (rt: RunAgent<AsyncFn<T, F>>)
        ensures
            rt.phase() == Phase::Created,
            rt.engaged(),
            !rt.has_output(),
            rt.ctrl_state() == initial_control(),
            rt.children_wf(),
    {
        RunAgent::new(AsyncFn { fut: Some(fut), output: None })
    }
}

} // verus!
