//! The scheduling core of a task queue with dependency tracking.
//!
//! A submission names the handles it waits for; the queue turns that list
//! into one wait condition, keeps every accepted submission in a live set
//! until it is reaped, and ends its loop according to a shutdown policy.

pub mod signal;
pub mod wait;
pub mod condition;
pub mod back;
pub mod front;
pub mod task;

pub use crate::back::{Backend, ExitError, Outcome, Reactor, StartError, Submission};
pub use crate::front::{task, TaskBuilder};
pub use crate::condition::{resolve, Condition};
pub use crate::signal::Handle;
pub use crate::task::{settle, wait_list, ResumableTask, Schedule, Task};
pub use crate::wait::{finished, Wait, WaitState};
