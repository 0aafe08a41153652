use crb::agent::{Agent, AgentSession, DoAsync, DoSync, Next, RunAgent, Supervisor};
use crb::context::ManagedContext;
use crb::supervisor::{Relation, Tracker};
use crb::Progress;

#[test]
fn tracker_shrinks_by_exactly_one_per_removal() {
    let mut tracker: Tracker<u32> = Tracker::new();
    assert!(tracker.is_empty());
    let a = tracker.insert(10);
    let b = tracker.insert(20);
    let c = tracker.insert(30);
    assert_eq!((a, b, c), (0, 1, 2));
    assert_eq!(tracker.len(), 3);

    let rel = tracker.remove(b).expect("the child is tracked");
    assert_eq!(rel.id, b);
    assert_eq!(rel.group, 20);
    assert_eq!(tracker.len(), 2);

    // A second report for the same child removes nothing.
    assert!(tracker.remove(b).is_none());
    assert_eq!(tracker.len(), 2);

    assert!(tracker.remove(a).is_some());
    assert!(tracker.remove(c).is_some());
    assert!(tracker.is_empty());
}

#[test]
fn n_children_need_n_removals() {
    let mut tracker: Tracker<&'static str> = Tracker::new();
    let mut ids = Vec::new();
    for _ in 0..5 {
        ids.push(tracker.insert("group"));
    }
    let mut removals = 0;
    for id in ids {
        if tracker.remove(id).is_some() {
            removals += 1;
        }
    }
    assert_eq!(removals, 5);
    assert!(tracker.is_empty());
}

struct Child;

impl Agent for Child {
    type State = ();
    type Msg = ();
    type GroupBy = ();
    type Output = ();

    fn begin(&mut self) -> Next<()> {
        Next::done()
    }

    fn finalize(self, _ctx: &mut AgentSession<(), ()>) {}
}

impl DoAsync for Child {}

impl DoSync for Child {}

#[derive(Default)]
struct TestSupervisor {
    respawned_once: bool,
    finished_calls: u64,
    pending: Vec<(u64, RunAgent<Child>)>,
}

impl Agent for TestSupervisor {
    type State = ();
    type Msg = ();
    type GroupBy = ();
    type Output = u64;

    fn initialize(&mut self, ctx: &mut AgentSession<(), ()>) -> Next<()> {
        let spawned = ctx.spawn_agent(Child, ());
        self.pending.push(spawned);
        Next::events()
    }

    fn finalize(self, _ctx: &mut AgentSession<(), ()>) -> u64 {
        self.finished_calls
    }
}

impl DoAsync for TestSupervisor {}

impl DoSync for TestSupervisor {}

impl Supervisor for TestSupervisor {
    fn finished(&mut self, _rel: &Relation<()>, ctx: &mut AgentSession<(), ()>) {
        self.finished_calls += 1;
        if !self.respawned_once {
            self.respawned_once = true;
            let spawned = ctx.spawn_agent(Child, ());
            self.pending.push(spawned);
        } else if ctx.tracker_is_empty() {
            ctx.shutdown();
        }
    }
}

#[test]
fn test_supervisor() {
    let mut sup = RunAgent::new(TestSupervisor::default());
    assert_eq!(sup.run(10, 10), Progress::Waiting);

    // The child spawned during initialization finalizes immediately.
    let mut unit = sup.take_agent().expect("the supervisor is running");
    let (first_id, mut first_child) = unit.pending.pop().expect("one child was spawned");
    sup.restore_agent(unit);
    assert_eq!(first_child.run(10, 10), Progress::Terminated);
    assert_eq!(first_child.join(), Some(()));

    // Its termination fires `finished` once, which spawns a replacement.
    assert!(sup.child_terminated(first_id));
    let mut unit = sup.take_agent().expect("the supervisor is running");
    let (second_id, mut second_child) = unit.pending.pop().expect("a replacement was spawned");
    assert_eq!(unit.finished_calls, 1);
    sup.restore_agent(unit);
    assert_ne!(first_id, second_id);

    // The replacement also finalizes immediately; the second `finished`
    // sees an empty tracker and shuts the supervisor down.
    assert_eq!(second_child.run(10, 10), Progress::Terminated);
    assert!(sup.child_terminated(second_id));
    assert!(sup.tracker_is_empty());

    // A repeated report for an already-removed child fires nothing.
    assert!(!sup.child_terminated(second_id));

    assert_eq!(sup.run(10, 10), Progress::Terminated);
    assert_eq!(sup.join(), Some(2));
}

struct Idle;

impl Agent for Idle {
    type State = ();
    type Msg = u8;
    type GroupBy = u8;
    type Output = ();

    fn finalize(self, _ctx: &mut AgentSession<u8, u8>) {}
}

impl DoAsync for Idle {}

impl DoSync for Idle {}

impl Supervisor for Idle {}

#[test]
fn finished_fires_exactly_once_per_child() {
    let mut sup = RunAgent::new(Idle);
    assert_eq!(sup.run(10, 10), Progress::Waiting);

    // No child with this identity was ever spawned, so nothing fires.
    assert!(!sup.child_terminated(99));
}
