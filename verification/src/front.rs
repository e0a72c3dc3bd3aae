//! The producer's side: a task is described together with the handles it
//! waits for, and then handed to the back-end.

use crate::back::{Backend, StartError, Submission};
use crate::task::{wait_list, waits_for};
use vstd::prelude::*;

verus! {

/// A task that is being described: the work, and its prerequisites so far.
pub struct TaskBuilder<T> {
    task: T,
    deps: Vec<pulse::Signal>,
}

impl<T> TaskBuilder<T> {
    /// The work to be done.
    pub closed spec fn work(&self) -> T {
        self.task
    }

    /// The prerequisites named so far, in the order in which they came.
    pub closed spec fn deps(&self) -> Seq<pulse::Signal> {
        self.deps@
    }

    /// Describes a task that waits for nothing.
    pub fn new(task: T) -> (builder: Self)
        ensures
            builder.work() == task,
            builder.deps() == Seq::<pulse::Signal>::empty(),
    {
        TaskBuilder { task, deps: Vec::new() }
    }

    /// Describes a task that comes back to the queue: it waits for `after`
    /// alone, or for nothing.
    pub fn resumed(task: T, after: Option<pulse::Signal>) -> (builder: Self)
        ensures
            builder.work() == task,
            builder.deps() == waits_for(after),
    {
        TaskBuilder { task, deps: wait_list(after) }
    }

    /// Adds one prerequisite.
    pub fn after(self, handle: pulse::Signal) -> (builder: Self)
        ensures
            builder.work() == self.work(),
            builder.deps() == self.deps().push(handle),
    {
        let mut builder = self;
        builder.deps.push(handle);
        builder
    }

    /// Submits the task. An accepted task comes back with its submission,
    /// for the caller to run once `after` of the submission has fired; a
    /// refused one is dropped.
    pub fn start(self, backend: &mut Backend) -> (res: Result<(T, Submission), StartError>)
        ensures
            final(backend).exit_fires() == old(backend).exit_fires(),
            final(backend).mode() == old(backend).mode(),
            final(backend).closing() == old(backend).closing(),
            old(backend).closing() ==> res == Err::<(T, Submission), StartError>(
                StartError::Closed) && final(backend).live() == old(backend).live(),
            !old(backend).closing() ==> (res matches Ok(accepted) && accepted.0 == self.work()
                && old(backend).admits(final(backend), accepted.1, self.deps())),
    {
        match backend.start(self.deps) {
            Ok(submission) => Ok((self.task, submission)),
            Err(e) => Err(e),
        }
    }
}

/// Describes a task that waits for nothing.
pub fn task<T>(work: T) -> (builder: TaskBuilder<T>)
    ensures
        builder.work() == work,
        builder.deps() == Seq::<pulse::Signal>::empty(),
{
    TaskBuilder::new(work)
}

} // verus!
