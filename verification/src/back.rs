//! The back-end of the task queue: the state that producers and the loop
//! share, and every decision that is taken on it.
//!
//! The back-end neither blocks nor spawns. Its owner keeps it behind a lock,
//! waits on the multiplexer, and hands each wake-up to [`Backend::wake`].

use crate::condition::resolve;
use crate::signal::{
    fire, fires, id_of, live_admit, live_ids, live_len, live_new, live_signal, live_try_next,
    select_add, signal_pair, stands_for, watched,
};
use crate::wait::{finished, should_stop, Wait};
use vstd::prelude::*;

verus! {

/// Why a shutdown request was refused.
#[derive(PartialEq, Eq, Structural, Copy, Clone, Debug)]
pub enum ExitError {
    /// The loop has not been started, or shutdown was requested before.
    NotRunning,
}

/// Why a submission was refused.
#[derive(PartialEq, Eq, Structural, Copy, Clone, Debug)]
pub enum StartError {
    /// Shutdown has been requested.
    Closed,
}

/// What a producer gets for an accepted submission.
pub struct Submission {
    /// The completion handle, for later submissions to depend on.
    pub handle: pulse::Signal,
    /// The trigger of the completion handle, to be fired once the task's
    /// body has returned.
    pub complete: pulse::Pulse,
    /// The wait condition: the task's body runs once this has fired.
    pub after: pulse::Signal,
    /// The key of the submission in the live set.
    pub id: usize,
}

/// What the loop keeps between two wake-ups.
pub struct Reactor {
    /// The identifier under which the exit signal is multiplexed.
    pub exit_id: usize,
    /// The identifier under which the live set's signal is multiplexed.
    pub active_id: usize,
    /// The shutdown policy, once the exit signal has been seen.
    pub recorded: Option<Wait>,
}

impl Reactor {
    /// The policy on record after a wake-up by `woken`, where `mode` is the
    /// policy that was requested last: the exit signal puts it on record,
    /// unless the live set's signal goes by the same identifier.
    pub open spec fn recorded_after(self, woken: usize, mode: Wait) -> Option<Wait> {
        if woken != self.active_id && woken == self.exit_id {
            Some(mode)
        } else {
            self.recorded
        }
    }
}

/// What one wake-up led to.
pub struct Outcome {
    /// The key of the submission that was reaped, if one was.
    pub reaped: Option<usize>,
    /// Whether the loop ends here.
    pub done: bool,
}

/// Task queue back-end.
pub struct Backend {
    exit: Option<pulse::Pulse>,
    exit_method: Wait,
    closing: bool,
    active: pulse::SelectMap<()>,
}

impl Backend {
    /// The identifier of the signal that the installed exit trigger fires,
    /// if one is installed and not yet used.
    pub closed spec fn exit_fires(&self) -> Option<usize> {
        match self.exit {
            Some(trigger) => Some(fires(trigger)),
            None => None,
        }
    }

    /// Whether the exit trigger is installed and not yet used.
    pub open spec fn armed(&self) -> bool {
        self.exit_fires() is Some
    }

    /// The shutdown policy that was requested last.
    pub closed spec fn mode(&self) -> Wait {
        self.exit_method
    }

    /// Whether shutdown has been requested.
    pub closed spec fn closing(&self) -> bool {
        self.closing
    }

    /// The keys of the live set.
    pub closed spec fn live(&self) -> Set<usize> {
        live_ids(self.active)
    }

    /// What accepting a submission that waits for `deps` does. The live set
    /// of `next` is that of `self` with one new key, which is the identifier
    /// of the submission's own completion handle and of the signal that its
    /// trigger fires. A single prerequisite is itself the wait condition;
    /// otherwise the wait condition stands for all of `deps`, and so has
    /// fired from the start where there is none.
    pub open spec fn admits(&self, next: &Backend, sub: Submission, deps: Seq<pulse::Signal>)
        -> bool {
        &&& !self.live().contains(sub.id)
        &&& next.live() == self.live().insert(sub.id)
        &&& id_of(sub.handle) == sub.id
        &&& fires(sub.complete) == sub.id
        &&& deps.len() == 1 ==> sub.after == deps[0]
        &&& deps.len() != 1 ==> stands_for(sub.after) == deps
    }

    /// Create a new back-end: no loop yet, nothing live.
    pub fn new() -> (backend: Backend)
        ensures
            !backend.armed(),
            !backend.closing(),
            backend.mode() == Wait::Nothing,
            backend.live() == Set::<usize>::empty(),
    {
        Backend { exit: None, exit_method: Wait::Nothing, closing: false, active: live_new() }
    }

    /// Accepts a submission that waits for `deps`, unless shutdown has been
    /// requested. The submission enters the live set under a key that was
    /// not in it, before anything can fire its completion handle. With one
    /// prerequisite the wait condition is that very handle.
    pub fn start(&mut self, deps: Vec<pulse::Signal>) -> (res: Result<Submission, StartError>)
        ensures
            final(self).exit_fires() == old(self).exit_fires(),
            final(self).mode() == old(self).mode(),
            final(self).closing() == old(self).closing(),
            old(self).closing() ==> res == Err::<Submission, StartError>(StartError::Closed)
                && final(self).live() == old(self).live(),
            !old(self).closing() ==> (res matches Ok(sub) && old(self).admits(
                final(self), sub, deps@)),
    {
        if self.closing {
            return Err(StartError::Closed);
        }
        let (handle, complete, id) = live_admit(&mut self.active);
        let cond = resolve(deps);
        let after = cond.arm();
        Ok(Submission { handle, complete, after, id })
    }

    /// Requests shutdown with the given policy: records it and fires the
    /// exit trigger, which is then gone. Refused, with nothing changed, when
    /// no exit trigger is installed: before the loop was started, or after
    /// an earlier request.
    pub fn exit(&mut self, wait: Wait) -> (res: Result<(), ExitError>)
        ensures
            old(self).armed() ==> res is Ok && !final(self).armed() && final(self).closing()
                && final(self).mode() == wait,
            !old(self).armed() ==> res == Err::<(), ExitError>(ExitError::NotRunning)
                && *final(self) == *old(self),
            final(self).live() == old(self).live(),
    {
        match self.exit.take() {
            Some(trigger) => {
                self.exit_method = wait;
                self.closing = true;
                fire(trigger);
                Ok(())
            },
            None => Err(ExitError::NotRunning),
        }
    }

    /// Starts the loop: installs a new exit trigger, puts the exit signal
    /// and the live set's signal under the multiplexer, and tells the
    /// caller, through `ack`, that the loop is live. The reactor holds the
    /// identifiers under which the two signals are waited on; the one of
    /// the exit signal is what the installed trigger fires.
    pub fn run(&mut self, select: &mut pulse::Select, ack: pulse::Pulse) -> (reactor: Reactor)
        ensures
            final(self).exit_fires() == Some(reactor.exit_id),
            final(self).mode() == old(self).mode(),
            final(self).closing() == old(self).closing(),
            final(self).live() == old(self).live(),
            reactor.recorded is None,
            watched(*final(select)) == watched(*old(select)).insert(reactor.exit_id).insert(
                reactor.active_id),
    {
        let (exit_signal, exit) = signal_pair();
        let exit_id = select_add(select, exit_signal);
        self.exit = Some(exit);
        let active_id = select_add(select, live_signal(&self.active));
        fire(ack);
        Reactor { exit_id, active_id, recorded: None }
    }

    /// Handles one wake-up of the loop by the signal `woken`.
    ///
    /// For the live set's signal, that signal is put under the multiplexer
    /// again and at most one finished submission is reaped. For the exit
    /// signal, the requested policy is recorded. Any other signal changes
    /// nothing. Then the loop's end is decided from the recorded policy and
    /// what is still live.
    pub fn wake(
        &mut self,
        select: &mut pulse::Select,
        reactor: &mut Reactor,
        woken: usize,
    ) -> (out: Outcome)
        ensures
            final(self).exit_fires() == old(self).exit_fires(),
            final(self).mode() == old(self).mode(),
            final(self).closing() == old(self).closing(),
            final(reactor).exit_id == old(reactor).exit_id,
            final(reactor).recorded == old(reactor).recorded_after(woken, old(self).mode()),
            woken == old(reactor).active_id ==> watched(*final(select)) == watched(
                *old(select)).insert(final(reactor).active_id),
            woken == old(reactor).active_id ==> (match out.reaped {
                Some(id) => old(self).live().contains(id)
                    && final(self).live() == old(self).live().remove(id),
                None => final(self).live() == old(self).live(),
            }),
            woken != old(reactor).active_id ==> watched(*final(select)) == watched(*old(select))
                && final(reactor).active_id == old(reactor).active_id
                && out.reaped is None
                && final(self).live() == old(self).live(),
            final(self).live().finite(),
            out.done == should_stop(final(reactor).recorded, final(self).live().len()),
    {
        let mut reaped: Option<usize> = None;
        if woken == reactor.active_id {
            reactor.active_id = select_add(select, live_signal(&self.active));
            reaped = live_try_next(&mut self.active);
        } else if woken == reactor.exit_id {
            reactor.recorded = Some(self.exit_method);
        }
        let done = finished(reactor.recorded, live_len(&self.active));
        Outcome { reaped, done }
    }

    /// Whether the exit trigger is installed and not yet used.
    pub fn is_armed(&self) -> (b: bool)
        ensures
            b == self.armed(),
    {
        self.exit.is_some()
    }

    /// Whether shutdown has been requested.
    pub fn is_closing(&self) -> (b: bool)
        ensures
            b == self.closing(),
    {
        self.closing
    }

    /// The shutdown policy that was requested last.
    pub fn exit_method(&self) -> (wait: Wait)
        ensures
            wait == self.mode(),
    {
        self.exit_method
    }

    /// The number of submissions in the live set.
    pub fn live_count(&self) -> (n: usize)
        ensures
            n == self.live().len(),
            self.live().finite(),
    {
        live_len(&self.active)
    }
}

} // verus!
