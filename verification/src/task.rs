//! Tasks, and the protocol by which a resumable task comes back to the
//! queue.

use crate::condition::{lemma_satisfied_iff_all_fired, Condition};
use crate::wait::WaitState;
use vstd::prelude::*;

verus! {

/// The capability that a running task is given: it queues units of work for
/// submission and never runs anything itself.
pub struct Schedule<T> {
    queue: Vec<(T, Option<pulse::Signal>)>,
}

impl<T> Schedule<T> {
    /// The queued tasks, oldest first, each with the signal it waits for.
    pub closed spec fn view(&self) -> Seq<(T, Option<pulse::Signal>)> {
        self.queue@
    }

    /// An empty schedule.
    pub fn new() -> (sched: Self)
        ensures
            sched@ == Seq::<(T, Option<pulse::Signal>)>::empty(),
    {
        Schedule { queue: Vec::new() }
    }

    /// Queues `task`, to be submitted with `after` as its one prerequisite,
    /// or with none.
    pub fn add_task(&mut self, task: T, after: Option<pulse::Signal>)
        ensures
            final(self)@ == old(self)@.push((task, after)),
    {
        self.queue.push((task, after));
    }

    /// How many tasks are queued.
    pub fn len(&self) -> (n: usize)
        ensures
            n == self@.len(),
    {
        self.queue.len()
    }

    /// Hands the queued tasks over for submission, oldest first.
    pub fn drain(self) -> (tasks: Vec<(T, Option<pulse::Signal>)>)
        ensures
            tasks@ == self@,
    {
        self.queue
    }
}

/// A long running task: it runs in steps and yields to the scheduler
/// between them.
pub trait ResumableTask: Sized {
    /// What one step does, as the author of the task declares it: the step
    /// takes the task from `before` to `after` and the queue from `queued`
    /// to `left`, and returns `state`. A task that declares nothing allows
    /// every step.
    open spec fn step(
        before: Self,
        queued: Seq<(Self, Option<pulse::Signal>)>,
        after: Self,
        left: Seq<(Self, Option<pulse::Signal>)>,
        state: WaitState,
    ) -> bool {
        true
    }

    /// Runs one step of the task and says what it waits for next.
    fn resume(&mut self, sched: &mut Schedule<Self>) -> (state: WaitState)
        ensures
            Self::step(*old(self), old(sched)@, *final(self), final(sched)@, state),
    ;
}

/// The building block of a task.
pub trait Task: Sized {
    /// Runs the task, consuming it.
    fn run(self, sched: &mut Schedule<Self>);
}

impl<T: ResumableTask> Task for T {
    /// Runs one step and queues the task again unless it has completed:
    /// the queue is what the step left, settled for the task as the step
    /// left it and for the state that the step returned.
    fn run(self, sched: &mut Schedule<T>)
        ensures
            exists|next: T, left: Seq<(T, Option<pulse::Signal>)>, state: WaitState|
                #[trigger] T::step(self, old(sched)@, next, left, state) && final(sched)@
                    == settled(left, next, state),
    {
        let mut task = self;
        let state = task.resume(sched);
        let ghost next = task;
        let ghost left = sched@;
        let ghost returned = state;
        settle(task, state, sched);
        assert(T::step(self, old(sched)@, next, left, returned) && sched@ == settled(
            left, next, returned));
    }
}

/// The queue once a step of `task` that returned `state` has been acted on:
/// a ready task is added at the end with no prerequisite, a pending one
/// with its signal as the only prerequisite, and a completed one is not
/// added.
pub open spec fn settled<T>(
    queue: Seq<(T, Option<pulse::Signal>)>,
    task: T,
    state: WaitState,
) -> Seq<(T, Option<pulse::Signal>)> {
    match state {
        WaitState::Ready => queue.push((task, None)),
        WaitState::Pending(signal) => queue.push((task, Some(signal))),
        WaitState::Completed => queue,
    }
}

/// Acts on what a step of `task` returned: a ready task is queued again
/// with no prerequisite, a pending one with its signal as the only
/// prerequisite, and a completed one is dropped.
pub fn settle<T>(task: T, state: WaitState, sched: &mut Schedule<T>)
    ensures
        final(sched)@ == settled(old(sched)@, task, state),
{
    match state {
        WaitState::Ready => {
            sched.add_task(task, None);
        },
        WaitState::Pending(signal) => {
            sched.add_task(task, Some(signal));
        },
        WaitState::Completed => (),
    }
}

/// The prerequisites of a queued task, as a list.
pub open spec fn waits_for(after: Option<pulse::Signal>) -> Seq<pulse::Signal> {
    match after {
        Some(signal) => seq![signal],
        None => Seq::empty(),
    }
}

/// The list of prerequisites with which a queued task is submitted.
pub fn wait_list(after: Option<pulse::Signal>) -> (deps: Vec<pulse::Signal>)
    ensures
        deps@ == waits_for(after),
{
    let mut deps: Vec<pulse::Signal> = Vec::new();
    match after {
        Some(signal) => {
            deps.push(signal);
            assert(deps@ =~= seq![signal]);
        },
        None => {},
    }
    deps
}

/// A task that went back to the queue pending on a signal runs again
/// exactly when that signal has fired; one that went back ready runs again
/// without waiting.
pub proof fn lemma_readmission(
    cond: Condition,
    after: Option<pulse::Signal>,
    fired: spec_fn(pulse::Signal) -> bool,
)
    requires
        cond.deps() == waits_for(after),
    ensures
        cond.satisfied(fired) <==> (after matches Some(signal) ==> fired(signal)),
{
    lemma_satisfied_iff_all_fired(cond, fired);
    match after {
        Some(signal) => {
            assert(cond.deps()[0] == signal);
        },
        None => {},
    }
}

} // verus!
