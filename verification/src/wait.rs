//! Shutdown policies and the rule that ends the loop.

use vstd::prelude::*;

verus! {

/// Wait mode for the termination of the queue.
#[derive(PartialEq, Eq, Structural, Copy, Clone, Debug)]
pub enum Wait {
    /// Wait for nothing: terminate immediately.
    Nothing,
    /// Wait for active tasks only, drop the pending.
    Active,
    /// Wait for the whole queue to flush.
    Pending,
}

/// Wait mode for a task: what one step of a resumable task asks for.
#[derive(Clone, Debug)]
pub enum WaitState {
    /// The task is ready to run: it can be scheduled immediately.
    Ready,
    /// The task has completed and can be deleted.
    Completed,
    /// The task is pending on a signal.
    Pending(pulse::Signal),
}

/// Whether the loop ends, given the policy it has recorded (if shutdown was
/// requested at all) and the size of the live set.
///
/// `Active` and `Pending` are judged alike: the live set holds every
/// accepted submission, whether its wait condition has been met or not, so
/// both drain it to empty.
pub open spec fn should_stop(recorded: Option<Wait>, live: nat) -> bool {
    match recorded {
        Some(Wait::Nothing) => true,
        Some(Wait::Active) => live == 0,
        Some(Wait::Pending) => live == 0,
        None => false,
    }
}

/// Decides whether the loop ends.
pub fn finished(recorded: Option<Wait>, live: usize) -> (stop: bool)
    ensures
        stop == should_stop(recorded, live as nat),
{
    match recorded {
        Some(Wait::Nothing) => true,
        Some(Wait::Active) => live == 0,
        Some(Wait::Pending) => live == 0,
        None => false,
    }
}

/// Once `Wait::Nothing` is recorded the loop ends, whatever is still live.
pub proof fn lemma_nothing_stops_at_once(live: nat)
    ensures
        should_stop(Some(Wait::Nothing), live),
{
}

/// With `Wait::Active` or `Wait::Pending` recorded the loop ends exactly
/// when the live set is empty.
pub proof fn lemma_draining_stops_when_empty(wait: Wait, live: nat)
    requires
        wait != Wait::Nothing,
    ensures
        should_stop(Some(wait), live) <==> live == 0,
{
}

/// With `Wait::Active` or `Wait::Pending` recorded, the loop ends exactly
/// when nothing is left in the live set.
pub proof fn lemma_draining_ends_on_empty(wait: Wait, live: Set<usize>)
    requires
        wait != Wait::Nothing,
        live.finite(),
    ensures
        should_stop(Some(wait), live.len()) <==> live == Set::<usize>::empty(),
{
    vstd::set_lib::lemma_set_empty_equivalency_len(live);
}

/// Without a shutdown request the loop never ends.
pub proof fn lemma_no_request_no_stop(live: nat)
    ensures
        !should_stop(None, live),
{
}

} // verus!
