use crb::context::ManagedContext;
use crb::controller::{Controller, RegistrationTaken};
use crb::fault::Fault;
use crb::mailbox::{Mailbox, Polled};
use crb::routine::{Routine, TaskContext};
use crb::task::{Task, TaskRuntime};

#[test]
fn registration_taken_exactly_once() {
    let mut ctrl = Controller::new();
    assert!(ctrl.is_active());
    assert!(!ctrl.is_registration_taken());
    assert!(ctrl.take_registration().is_ok());
    assert!(ctrl.is_registration_taken());
    match ctrl.take_registration() {
        Ok(_) => panic!("a second registration must be refused"),
        Err(err) => assert_eq!(err, RegistrationTaken),
    }
    match ctrl.take_registration() {
        Ok(_) => panic!("a third registration must be refused"),
        Err(err) => assert_eq!(err, RegistrationTaken),
    }
}

#[test]
fn stop_lowers_the_flag() {
    let mut ctrl = Controller::new();
    assert!(ctrl.stop(false).is_ok());
    assert!(!ctrl.is_active());
    assert!(!ctrl.is_abort_requested());
    let mut forced = Controller::new();
    assert!(forced.stop(true).is_ok());
    assert!(!forced.is_active());
    assert!(forced.is_abort_requested());
}

#[test]
fn mailbox_is_fifo_and_close_rejects() {
    let mut mb: Mailbox<u32> = Mailbox::new();
    assert!(mb.send(1).is_ok());
    assert!(mb.send(2).is_ok());
    assert_eq!(mb.len(), 2);
    mb.close();
    match mb.send(3) {
        Ok(()) => panic!("a closed mailbox must refuse the send"),
        Err(rejected) => assert_eq!(rejected.message, 3),
    }
    assert_eq!(mb.len(), 2);
    assert!(matches!(mb.poll(), Polled::Message(1)));
    assert!(matches!(mb.poll(), Polled::Message(2)));
    assert!(matches!(mb.poll(), Polled::Drained));
    assert!(matches!(mb.poll(), Polled::Drained));
}

#[test]
fn open_empty_mailbox_is_pending() {
    let mut mb: Mailbox<u32> = Mailbox::new();
    assert!(matches!(mb.poll(), Polled::Pending));
    assert!(mb.send(7).is_ok());
    assert!(matches!(mb.poll(), Polled::Message(7)));
}

struct NeverDone;

impl Routine for NeverDone {
    type Output = u64;

    fn time_limit(&mut self) -> Option<u64> {
        Some(12)
    }
}

#[test]
fn routine_never_resolving_times_out_within_one_interval() {
    let mut ctx = TaskContext::new();
    ctx.set_interval(5);
    let mut routine = NeverDone;
    let outcome = routine.routine(&mut ctx, 100);
    match outcome {
        Err(fault) => assert_eq!(fault.message().as_str(), "time for task execution elapsed"),
        other => panic!("expected the time limit to elapse, got {:?}", other.is_ok()),
    }
    // limit 12, interval 5: polls wait at 5, 10, 15; the limit is seen
    // crossed at 15, within [12, 12 + 5).
    assert_eq!(ctx.elapsed_ticks(), 15);
    assert!(12 <= ctx.elapsed_ticks() && ctx.elapsed_ticks() < 17);
}

#[test]
fn routine_registration_is_single_use() {
    let mut ctx = TaskContext::new();
    ctx.set_interval(5);
    let mut routine = NeverDone;
    assert!(routine.routine(&mut ctx, 100).is_err());
    match routine.routine(&mut ctx, 100) {
        Err(fault) => assert_eq!(fault.message().as_str(), "the abort registration was already taken"),
        Ok(_) => panic!("the second run must fail to arm the abort region"),
    }
}

struct Flaky {
    polls: u32,
}

impl Routine for Flaky {
    type Output = u64;

    fn repeatable_routine(&mut self) -> Result<Option<u64>, Fault> {
        if self.polls < 3 {
            self.polls += 1;
            Err(Fault::new("flaky poll".to_string()))
        } else {
            Ok(Some(42))
        }
    }
}

#[test]
fn routine_errors_are_recorded_and_retried() {
    let mut ctx = TaskContext::new();
    ctx.set_interval(2);
    let mut routine = Flaky { polls: 0 };
    let outcome = routine.interruptable_routine(&mut ctx, None, 100);
    match outcome {
        Ok(Some(output)) => assert_eq!(output, 42),
        _ => panic!("three recorded errors must not stop the loop"),
    }
    assert_eq!(ctx.failure_count(), 3);
    assert_eq!(ctx.elapsed_ticks(), 6);
}

#[test]
fn routine_abort_takes_precedence_over_timeout() {
    let mut ctx = TaskContext::new();
    ctx.set_interval(1);
    assert!(ctx.stop(true).is_ok());
    let mut routine = NeverDone;
    // Both the abort and an already-elapsed limit of zero are due: the
    // abort wins.
    let outcome = routine.interruptable_routine(&mut ctx, Some(0), 100);
    match outcome {
        Err(err) => assert!(matches!(err, crb::routine::TaskError::Aborted)),
        Ok(_) => panic!("a forced stop must abort the loop"),
    }
    assert_eq!(ctx.elapsed_ticks(), 0);
}

#[test]
fn routine_graceful_stop_interrupts() {
    let mut ctx = TaskContext::new();
    assert!(ctx.stop(false).is_ok());
    let mut routine = NeverDone;
    let outcome = routine.interruptable_routine(&mut ctx, None, 100);
    assert!(matches!(outcome, Err(crb::routine::TaskError::Interrupted)));
}

#[test]
fn failed_outcome_keeps_its_cause() {
    let terminal = crb::routine::TaskError::Failed(Fault::new("root cause".to_string()));
    assert_eq!(terminal.into_fault().message().as_str(), "root cause");
}

struct QuietTask;

impl Task for QuietTask {}

struct SoreTask;

impl Task for SoreTask {
    fn routine(&mut self) -> Result<(), Fault> {
        Err(Fault::new("the body failed".to_string()))
    }
}

#[test]
fn task_runs_exactly_once() {
    let mut rt = TaskRuntime::new(QuietTask);
    assert!(rt.task.is_some());
    rt.routine();
    assert!(rt.task.is_none());
    assert!(rt.failures.is_empty());
    rt.routine();
    assert!(rt.failures.is_empty());
}

#[test]
fn task_records_failures_nonfatally() {
    let mut rt = TaskRuntime::new(SoreTask);
    rt.routine();
    assert_eq!(rt.failures.count(), 1);
    assert_eq!(rt.failures.get(0).message().as_str(), "the body failed");
}

#[test]
fn task_observes_pending_abort_at_the_boundary() {
    let mut rt = TaskRuntime::new(QuietTask);
    assert!(rt.controller.stop(true).is_ok());
    rt.routine();
    assert_eq!(rt.failures.count(), 1);
    assert_eq!(rt.failures.get(0).message().as_str(), "task was aborted");
}
