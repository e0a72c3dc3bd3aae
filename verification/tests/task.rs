use fibe::{resolve, settle, wait_list, Condition, ResumableTask, Schedule, Task, WaitState};
use pulse::{Signal, SignalState};

/// Counts its steps; waits on the given signal after the first, and is done
/// after the third.
struct Counter {
    steps: u32,
    wait_on: Option<Signal>,
}

impl ResumableTask for Counter {
    fn resume(&mut self, _sched: &mut Schedule<Counter>) -> WaitState {
        self.steps += 1;
        match self.steps {
            1 => WaitState::Pending(self.wait_on.take().unwrap()),
            2 => WaitState::Ready,
            _ => WaitState::Completed,
        }
    }
}

#[test]
fn settle_ready_queues_without_prerequisite() {
    let mut sched: Schedule<u32> = Schedule::new();
    settle(7, WaitState::Ready, &mut sched);
    assert_eq!(sched.len(), 1);
    let tasks = sched.drain();
    assert_eq!(tasks[0].0, 7);
    assert!(tasks[0].1.is_none());
}

#[test]
fn settle_pending_queues_behind_the_signal() {
    let (signal, _trigger) = Signal::new();
    let id = signal.id();
    let mut sched: Schedule<u32> = Schedule::new();
    settle(1, WaitState::Ready, &mut sched);
    settle(2, WaitState::Pending(signal), &mut sched);
    let tasks = sched.drain();
    assert_eq!(tasks.len(), 2);
    assert_eq!(tasks[0].0, 1);
    assert_eq!(tasks[1].0, 2);
    assert_eq!(tasks[1].1.as_ref().map(|s| s.id()), Some(id));
}

#[test]
fn settle_completed_drops_the_task() {
    let mut sched: Schedule<u32> = Schedule::new();
    settle(9, WaitState::Completed, &mut sched);
    assert_eq!(sched.len(), 0);
    assert!(sched.drain().is_empty());
}

#[test]
fn wait_list_of_nothing_is_empty() {
    assert!(wait_list(None).is_empty());
}

#[test]
fn wait_list_of_a_signal_holds_it_alone() {
    let (signal, _trigger) = Signal::new();
    let id = signal.id();
    let deps = wait_list(Some(signal));
    assert_eq!(deps.len(), 1);
    assert_eq!(deps[0].id(), id);
}

#[test]
fn resumable_task_keeps_its_state_across_suspension() {
    let (signal, trigger) = Signal::new();
    let id = signal.id();
    let task = Counter { steps: 0, wait_on: Some(signal) };

    // First admission: the task suspends on its signal.
    let mut sched = Schedule::new();
    task.run(&mut sched);
    let mut queued = sched.drain();
    assert_eq!(queued.len(), 1);
    let (task, after) = queued.pop().unwrap();
    assert_eq!(task.steps, 1);
    let cond = match resolve(wait_list(after)) {
        Condition::Single(s) => s,
        _ => panic!("a pending task waits on exactly its signal"),
    };
    assert_eq!(cond.id(), id);
    assert!(cond.is_pending());
    trigger.pulse();
    assert_eq!(cond.state(), SignalState::Pulsed);

    // Second admission: ready again, no prerequisite.
    let mut sched = Schedule::new();
    task.run(&mut sched);
    let mut queued = sched.drain();
    let (task, after) = queued.pop().unwrap();
    assert_eq!(task.steps, 2);
    assert!(after.is_none());
    assert!(matches!(resolve(wait_list(after)), Condition::Open));

    // Third admission: completed, nothing is queued.
    let mut sched = Schedule::new();
    task.run(&mut sched);
    assert_eq!(sched.len(), 0);
}
