//! Dependency resolution: from a list of prerequisite handles to one wait
//! condition.

use crate::signal::{barrier_new, barrier_signal, fired_signal, stands_for};
use vstd::prelude::*;

verus! {

/// The wait condition of a submission.
pub enum Condition {
    /// Nothing to wait for.
    Open,
    /// One prerequisite: its own handle is the condition.
    Single(pulse::Signal),
    /// Two or more prerequisites, to be joined by a barrier.
    All(Vec<pulse::Signal>),
}

impl Condition {
    /// The prerequisites behind this wait condition, in their order.
    pub open spec fn deps(self) -> Seq<pulse::Signal> {
        match self {
            Condition::Open => Seq::empty(),
            Condition::Single(s) => seq![s],
            Condition::All(v) => v@,
        }
    }

    /// Whether the task may run, given which handles have fired.
    pub open spec fn satisfied(self, fired: spec_fn(pulse::Signal) -> bool) -> bool {
        match self {
            Condition::Open => true,
            Condition::Single(s) => fired(s),
            Condition::All(v) => forall|i: int| 0 <= i < v@.len() ==> fired(#[trigger] v@[i]),
        }
    }

    /// The signal to wait on: one that is made as fired for an open
    /// condition, the prerequisite itself for a single one, and the signal
    /// of a barrier over all of them otherwise.
    pub fn arm(self) -> (signal: pulse::Signal)
        ensures
            self matches Condition::Single(s) ==> signal == s,
            !(self is Single) ==> stands_for(signal) == self.deps(),
    {
        match self {
            Condition::Open => fired_signal(),
            Condition::Single(s) => s,
            Condition::All(v) => {
                let barrier = barrier_new(&v);
                barrier_signal(&barrier)
            },
        }
    }
}

/// Whether every handle of the list has fired.
pub open spec fn all_fired(
    deps: Seq<pulse::Signal>,
    fired: spec_fn(pulse::Signal) -> bool,
) -> bool {
    forall|i: int| 0 <= i < deps.len() ==> fired(#[trigger] deps[i])
}

/// Resolves a list of prerequisites into a wait condition: none gives an
/// open condition, exactly one is used as it is, two or more are joined.
pub fn resolve(deps: Vec<pulse::Signal>) -> (cond: Condition)
    ensures
        match cond {
            Condition::Open => deps@.len() == 0,
            Condition::Single(only) => deps@.len() == 1 && only == deps@[0],
            Condition::All(all) => deps@.len() >= 2 && all@ == deps@,
        },
        cond.deps() == deps@,
        forall|fired: spec_fn(pulse::Signal) -> bool| #[trigger]
            cond.satisfied(fired) <==> all_fired(deps@, fired),
{
    let mut deps = deps;
    let ghost all = deps@;
    let cond = if deps.len() == 0 {
        assert(all =~= Seq::empty());
        Condition::Open
    } else if deps.len() == 1 {
        match deps.pop() {
            Some(only) => {
                assert(all =~= seq![only]);
                Condition::Single(only)
            },
            None => Condition::Open,
        }
    } else {
        Condition::All(deps)
    };
    proof {
        assert forall|fired: spec_fn(pulse::Signal) -> bool| #[trigger]
            cond.satisfied(fired) <==> all_fired(all, fired) by {
            lemma_satisfied_iff_all_fired(cond, fired);
        }
    }
    cond
}

/// A task may run exactly when every one of its prerequisites has fired.
pub proof fn lemma_satisfied_iff_all_fired(cond: Condition, fired: spec_fn(pulse::Signal) -> bool)
    ensures
        cond.satisfied(fired) <==> all_fired(cond.deps(), fired),
{
    match cond {
        Condition::Open => {},
        Condition::Single(s) => {
            assert(cond.deps()[0] == s);
        },
        Condition::All(v) => {},
    }
}

/// A condition without prerequisites lets its task run at once.
pub proof fn lemma_no_dependency_runs(cond: Condition, fired: spec_fn(pulse::Signal) -> bool)
    requires
        cond.deps().len() == 0,
    ensures
        cond.satisfied(fired),
{
    lemma_satisfied_iff_all_fired(cond, fired);
}

/// A condition with one prerequisite lets its task run exactly when that one has
/// fired.
pub proof fn lemma_single_dependency(cond: Condition, fired: spec_fn(pulse::Signal) -> bool)
    requires
        cond.deps().len() == 1,
    ensures
        cond.satisfied(fired) <==> fired(cond.deps()[0]),
{
    lemma_satisfied_iff_all_fired(cond, fired);
}

/// The order of the prerequisites does not matter: two conditions over lists
/// that hold the same handles equally often let their tasks run together.
pub proof fn lemma_order_is_irrelevant(
    a: Condition,
    b: Condition,
    fired: spec_fn(pulse::Signal) -> bool,
)
    requires
        a.deps().to_multiset() == b.deps().to_multiset(),
    ensures
        a.satisfied(fired) <==> b.satisfied(fired),
{
    lemma_satisfied_iff_all_fired(a, fired);
    lemma_satisfied_iff_all_fired(b, fired);
    if a.satisfied(fired) {
        lemma_all_fired_by_contents(a.deps(), b.deps(), fired);
    }
    if b.satisfied(fired) {
        lemma_all_fired_by_contents(b.deps(), a.deps(), fired);
    }
}

/// Whether all handles of a list have fired does not depend on their order:
/// it is the same for two lists that hold the same handles equally often.
pub proof fn lemma_all_fired_in_any_order(
    x: Seq<pulse::Signal>,
    y: Seq<pulse::Signal>,
    fired: spec_fn(pulse::Signal) -> bool,
)
    requires
        x.to_multiset() == y.to_multiset(),
    ensures
        all_fired(x, fired) <==> all_fired(y, fired),
{
    if all_fired(x, fired) {
        lemma_all_fired_by_contents(x, y, fired);
    }
    if all_fired(y, fired) {
        lemma_all_fired_by_contents(y, x, fired);
    }
}

/// A handle that has fired stays fired, so a condition that was satisfied stays
/// satisfied for every later observer.
pub proof fn lemma_satisfied_is_stable(
    cond: Condition,
    before: spec_fn(pulse::Signal) -> bool,
    after: spec_fn(pulse::Signal) -> bool,
)
    requires
        forall|s: pulse::Signal| #[trigger] before(s) ==> after(s),
        cond.satisfied(before),
    ensures
        cond.satisfied(after),
{
}

proof fn lemma_all_fired_by_contents(
    x: Seq<pulse::Signal>,
    y: Seq<pulse::Signal>,
    fired: spec_fn(pulse::Signal) -> bool,
)
    requires
        x.to_multiset() == y.to_multiset(),
        forall|i: int| 0 <= i < x.len() ==> fired(#[trigger] x[i]),
    ensures
        forall|j: int| 0 <= j < y.len() ==> fired(#[trigger] y[j]),
{
    assert forall|j: int| 0 <= j < y.len() implies fired(#[trigger] y[j]) by {
        y.to_multiset_ensures();
        x.to_multiset_ensures();
        assert(y.contains(y[j]));
        assert(y.to_multiset().count(y[j]) > 0);
        assert(x.to_multiset().count(y[j]) > 0);
        assert(x.contains(y[j]));
        let i = choose|i: int| 0 <= i < x.len() && x[i] == y[j];
        assert(fired(x[i]));
    }
}

} // verus!
