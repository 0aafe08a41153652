use crb::actor::{Actor, ActorRuntime, ActorSession};
use crb::agent::{
    absorb_worker_outcome, perform_step, Agent, AgentSession, DoAsync, DoSync, Next, RunAgent,
    Strategy, Transition,
};
use crb::context::ManagedContext;
use crb::controller::Controller;
use crb::fault::Fault;
use crb::hybrid::DoHybrid;
use crb::performers::{AnyAsyncFut, AnySyncFn};
use crb::Progress;

struct TestActor {
    received: Vec<String>,
}

struct Print(pub String);

impl Actor for TestActor {
    type Msg = Print;

    fn handle(&mut self, message: Print, _ctx: &mut ActorSession<Print>) -> Result<(), Fault> {
        self.received.push(message.0);
        Ok(())
    }
}

#[test]
fn test_actor() {
    let mut rt = ActorRuntime::new(TestActor { received: Vec::new() });
    assert!(rt.send(Print("Hello, Actor!".into())).is_ok());
    rt.interrupt();
    assert_eq!(rt.run(100), Progress::Terminated);
    assert_eq!(rt.actor_ref().received, vec!["Hello, Actor!".to_string()]);
    assert!(rt.failures().is_empty());
}

#[test]
fn messages_sent_after_close_are_never_dispatched() {
    let mut rt = ActorRuntime::new(TestActor { received: Vec::new() });
    assert!(rt.send(Print("before".into())).is_ok());
    rt.interrupt();
    assert!(rt.send(Print("after".into())).is_err());
    assert_eq!(rt.run(100), Progress::Terminated);
    assert_eq!(rt.actor_ref().received, vec!["before".to_string()]);
}

#[test]
fn event_after_drain_is_idempotent() {
    let mut session: ActorSession<Print> = ActorSession::new(0);
    session.close_mailbox();
    let mut actor = TestActor { received: Vec::new() };
    assert!(actor.event(&mut session).is_ok());
    assert!(!session.is_active());
    assert_eq!(session.queue_len(), 0);
    assert!(session.mailbox_closed());
    assert!(actor.event(&mut session).is_ok());
    assert!(!session.is_active());
    assert_eq!(session.queue_len(), 0);
    assert!(session.mailbox_closed());
    assert!(actor.received.is_empty());
}

struct FsmCounter {
    counter: u64,
    goal: u64,
}

struct Spin;

impl Agent for FsmCounter {
    type State = Spin;
    type Msg = ();
    type GroupBy = ();
    type Output = u64;

    fn begin(&mut self) -> Next<Spin> {
        Next::do_async(Spin)
    }

    fn finalize(self, _ctx: &mut AgentSession<(), ()>) -> u64 {
        self.counter
    }
}

impl DoAsync for FsmCounter {
    fn many(&mut self, _state: &mut Spin, _ctrl: &mut Controller) -> Result<Option<Next<Spin>>, Fault> {
        if self.counter >= self.goal {
            Ok(Some(Next::done()))
        } else {
            self.counter += 1;
            Ok(None)
        }
    }
}

impl DoSync for FsmCounter {}

struct MailCounter {
    counter: u64,
    goal: u64,
}

struct Tick;

impl Actor for MailCounter {
    type Msg = Tick;

    fn handle(&mut self, _message: Tick, ctx: &mut ActorSession<Tick>) -> Result<(), Fault> {
        if self.counter >= self.goal {
            ctx.shutdown();
        } else {
            self.counter += 1;
            let _ = ctx.send(Tick);
        }
        Ok(())
    }
}

#[test]
fn test_perf() {
    // The cooperative self-looping style.
    let mut fsm = RunAgent::new(FsmCounter { counter: 0, goal: 1000 });
    assert_eq!(fsm.run(10, 10_000), Progress::Terminated);
    let count = fsm.join().expect("a terminated unit has an output");
    assert!(count > 0);

    // The mailbox-event style.
    let mut actor = ActorRuntime::new(MailCounter { counter: 0, goal: 1000 });
    assert!(actor.send(Tick).is_ok());
    assert_eq!(actor.run(100_000), Progress::Terminated);
    assert!(actor.actor_ref().counter > 0);
}

#[test]
fn stop_requested_unit_terminates_at_the_next_boundary() {
    let mut rt = RunAgent::new(FsmCounter { counter: 0, goal: 1_000_000 });
    assert_eq!(rt.run(1, 1), Progress::Spent);
    rt.stop(false);
    assert_eq!(rt.run(10, 10), Progress::Terminated);
    assert!(rt.join().is_some());
}

#[test]
fn actor_stop_without_drain_terminates_and_dispatches_nothing() {
    let mut rt = ActorRuntime::new(TestActor { received: Vec::new() });
    assert!(rt.send(Print("queued".into())).is_ok());
    rt.stop(false);
    assert_eq!(rt.run(100), Progress::Terminated);
    // An immediate stop skips the drain: nothing was dispatched.
    assert!(rt.actor_ref().received.is_empty());
}

#[test]
fn fuel_runs_out_mid_work_and_resumes() {
    let mut fsm = RunAgent::new(FsmCounter { counter: 0, goal: 1_000_000 });
    assert_eq!(fsm.run(2, 3), Progress::Spent);
    assert_eq!(fsm.run(2, 3), Progress::Spent);
    assert_eq!(fsm.join(), None);
}

struct CrashUnit;

struct Sore;

impl Agent for CrashUnit {
    type State = Sore;
    type Msg = ();
    type GroupBy = ();
    type Output = u64;

    fn begin(&mut self) -> Next<Sore> {
        Next::do_async(Sore)
    }

    fn finalize(self, _ctx: &mut AgentSession<(), ()>) -> u64 {
        7
    }
}

impl DoAsync for CrashUnit {
    fn once(&mut self, _state: &mut Sore, _ctrl: &mut Controller) -> Result<Next<Sore>, Fault> {
        Err(Fault::new("this state always errors".to_string()))
    }
}

impl DoSync for CrashUnit {}

#[test]
fn always_erroring_step_crashes_once_and_finalizes_once() {
    let mut rt = RunAgent::new(CrashUnit);
    assert_eq!(rt.run(100, 100), Progress::Terminated);
    assert_eq!(rt.crashes(), 1);
    assert_eq!(rt.failures().count(), 1);
    assert_eq!(rt.failures().get(0).message().as_str(), "this state always errors");
    assert_eq!(rt.join(), Some(7));
}

struct MidStop {
    performed: Vec<u64>,
}

enum Stage {
    First,
    Second,
}

impl Agent for MidStop {
    type State = Stage;
    type Msg = ();
    type GroupBy = ();
    type Output = Vec<u64>;

    fn begin(&mut self) -> Next<Stage> {
        Next::do_sync(Stage::First)
    }

    fn finalize(self, _ctx: &mut AgentSession<(), ()>) -> Vec<u64> {
        self.performed
    }
}

impl DoSync for MidStop {
    fn once(&mut self, state: &mut Stage, ctrl: &mut Controller) -> Result<Next<Stage>, Fault> {
        match state {
            Stage::First => {
                self.performed.push(1);
                let _ = ctrl.stop(true);
                // The in-flight call keeps running after the forced
                // stop and its result is still used.
                self.performed.push(2);
                Ok(Next::do_sync(Stage::Second))
            }
            Stage::Second => {
                self.performed.push(3);
                Ok(Next::done())
            }
        }
    }
}

impl DoAsync for MidStop {}

#[test]
fn forced_stop_mid_offloaded_step_waits_for_the_step_boundary() {
    let mut rt = RunAgent::new(MidStop { performed: Vec::new() });
    assert_eq!(rt.run(100, 100), Progress::Terminated);
    // The first step ran to completion; the interruption was observed
    // at the next boundary, so the second step never started.
    assert_eq!(rt.join(), Some(vec![1, 2]));
}

#[test]
fn perform_step_never_loses_the_unit() {
    let unit = FsmCounter { counter: 0, goal: 3 };
    let mut ctrl = Controller::new();
    let t = perform_step(unit, Strategy::Cooperative, Spin, &mut ctrl, 100);
    match t {
        Transition::Next(unit, next) => {
            assert_eq!(unit.counter, 3);
            assert!(matches!(next, Next::Done));
        }
        _ => panic!("an in-process step must hand the unit back"),
    }
}

#[test]
fn worker_outcomes_are_absorbed_not_propagated() {
    let completed: Result<Transition<FsmCounter>, Fault> = Ok(Transition::Next(
        FsmCounter { counter: 1, goal: 1 },
        Next::done(),
    ));
    assert!(matches!(absorb_worker_outcome(completed), Transition::Next(_, _)));
    let vanished: Result<Transition<FsmCounter>, Fault> =
        Err(Fault::new("the worker vanished".to_string()));
    assert!(matches!(absorb_worker_outcome(vanished), Transition::Lost(_)));
}

struct Five;

impl AnySyncFn<u64> for Five {
    fn invoke(self) -> u64 {
        5
    }
}

#[test]
fn new_sync_runs_the_body_once() {
    let mut rt = RunAgent::new_sync(Five);
    assert_eq!(rt.run(100, 100), Progress::Terminated);
    assert_eq!(rt.join(), Some(5));
}

struct Nine;

impl AnyAsyncFut<u64> for Nine {
    fn resolve(self) -> Result<u64, Fault> {
        Ok(9)
    }
}

struct Refuses;

impl AnyAsyncFut<u64> for Refuses {
    fn resolve(self) -> Result<u64, Fault> {
        Err(Fault::new("the body refused".to_string()))
    }
}

#[test]
fn new_async_resolves_the_body() {
    let mut rt = RunAgent::new_async(Nine);
    assert_eq!(rt.run(100, 100), Progress::Terminated);
    assert_eq!(rt.join(), Some(9));
}

#[test]
fn new_async_failure_falls_back_to_the_default_output() {
    let mut rt = RunAgent::new_async(Refuses);
    assert_eq!(rt.run(100, 100), Progress::Terminated);
    assert_eq!(rt.crashes(), 1);
    assert_eq!(rt.join(), Some(0));
}

struct GoodBody;

impl crb::hybrid::AnySyncFn for GoodBody {
    fn invoke(self) -> Result<(), Fault> {
        Ok(())
    }
}

struct BadBody;

impl crb::hybrid::AnySyncFn for BadBody {
    fn invoke(self) -> Result<(), Fault> {
        Err(Fault::new("the hybrid body failed".to_string()))
    }
}

#[test]
fn hybrid_task_runs_to_done() {
    let mut rt = DoHybrid::new_sync(GoodBody);
    assert_eq!(rt.perform_task(100, 100), Progress::Terminated);
    assert!(rt.failures().is_empty());
    assert_eq!(rt.perform_task(100, 100), Progress::Terminated);
}

#[test]
fn hybrid_task_records_its_terminal_failure() {
    let mut rt = DoHybrid::new_sync(BadBody);
    assert_eq!(rt.perform_task(100, 100), Progress::Terminated);
    assert_eq!(rt.failures().count(), 1);
    assert_eq!(rt.failures().get(0).message().as_str(), "the hybrid body failed");
}

#[test]
fn hybrid_task_interrupts_at_the_boundary() {
    let mut rt = DoHybrid::new_sync(GoodBody);
    rt.stop(false);
    assert_eq!(rt.perform_task(100, 100), Progress::Terminated);
    assert!(rt.failures().is_empty());
}
