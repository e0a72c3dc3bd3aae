//! The readiness-signal substrate, as far as the scheduler relies on it.
//!
//! Everything here is a thin layer over the `pulse` crate. The contracts in
//! this file are believed, not proved: each doc comment says which function
//! of `pulse` stands behind the item and what is claimed of it.

use pulse::Signals;
use vstd::prelude::*;

verus! {

/// `pulse::Signal`: the listening side of a one-shot signal.
#[verifier::external_type_specification]
#[verifier::external_body]
pub struct ExSignal(pulse::Signal);

/// `pulse::Pulse`: the trigger of a signal, used up by firing.
#[verifier::external_type_specification]
#[verifier::external_body]
pub struct ExPulse(pulse::Pulse);

/// `pulse::Barrier`: joins several signals into one.
#[verifier::external_type_specification]
#[verifier::external_body]
pub struct ExBarrier(pulse::Barrier);

/// `pulse::Select`: a multiplexer over a changing set of signals.
#[verifier::external_type_specification]
#[verifier::external_body]
pub struct ExSelect(pulse::Select);

/// `pulse::SelectMap`: a multiplexer that keeps a value with every signal.
#[verifier::external_type_specification]
#[verifier::external_body]
#[verifier::reject_recursive_types(T)]
pub struct ExSelectMap<T>(pulse::SelectMap<T>);

/// Task handle: the completion token of a submission.
pub type Handle = pulse::Signal;

/// The identifiers of the signals that a keyed multiplexer currently holds:
/// the keys of the `items` table inside `pulse::SelectMap`.
pub uninterp spec fn live_ids(m: pulse::SelectMap<()>) -> Set<usize>;

/// The identifier of a signal, as `pulse::Signal::id` reads it from the
/// signal's own value.
pub uninterp spec fn id_of(signal: pulse::Signal) -> usize;

/// The identifier of the signal that a trigger fires: the trigger's own
/// value holds it, as the signal's does.
pub uninterp spec fn fires(trigger: pulse::Pulse) -> usize;

/// The signals that a barrier was made over, in their order: what
/// `pulse::Barrier::new` was given when it made the barrier.
pub uninterp spec fn joined(barrier: pulse::Barrier) -> Seq<pulse::Signal>;

/// The signals that a derived signal stands for, by the way it was made: it
/// is fired once every one of them has fired, and is made as fired where
/// there is none. A trigger that is dropped unfired wakes what waits on its
/// signal just as a firing does.
pub uninterp spec fn stands_for(signal: pulse::Signal) -> Seq<pulse::Signal>;

/// `Clone::clone` of `pulse::Signal`: another reference to the same signal,
/// which goes by the same identifier.
pub assume_specification[ <pulse::Signal as Clone>::clone ](signal: &pulse::Signal) -> (copy:
    pulse::Signal)
    ensures
        id_of(copy) == id_of(*signal),
;

/// `pulse::Signal::new`: a pending signal with the trigger that fires it.
/// The two share one identifier.
#[verifier::external_body]
pub(crate) fn signal_pair() -> (pair: (pulse::Signal, pulse::Pulse))
    ensures
        fires(pair.1) == id_of(pair.0),
{
    pulse::Signal::new()
}

/// `pulse::Signal::pulsed`: a signal that is made as fired, so that it
/// waits for nothing.
#[verifier::external_body]
pub(crate) fn fired_signal() -> (signal: pulse::Signal)
    ensures
        stands_for(signal) == Seq::<pulse::Signal>::empty(),
{
    pulse::Signal::pulsed()
}

/// `pulse::Pulse::pulse`: fires the signal that the trigger belongs to and
/// consumes the trigger. The call returns nothing and leaves nothing
/// behind of which a claim could be made.
#[verifier::external_body]
pub(crate) fn fire(trigger: pulse::Pulse) {
    trigger.pulse()
}

/// `pulse::Barrier::new`: a barrier over the given signals.
#[verifier::external_body]
pub(crate) fn barrier_new(signals: &Vec<pulse::Signal>) -> (barrier: pulse::Barrier)
    ensures
        joined(barrier) == signals@,
{
    pulse::Barrier::new(signals)
}

/// `Signals::signal` of `pulse::Barrier`: a signal that is fired once every
/// input of the barrier has fired.
#[verifier::external_body]
pub(crate) fn barrier_signal(barrier: &pulse::Barrier) -> (signal: pulse::Signal)
    ensures
        stands_for(signal) == joined(*barrier),
{
    barrier.signal()
}

/// The identifiers of the signals that a multiplexer currently waits on:
/// the keys of the `signals` table inside `pulse::Select`.
pub uninterp spec fn watched(select: pulse::Select) -> Set<usize>;

/// `pulse::Select::add`: registers the signal with the multiplexer and
/// returns the signal's identifier, which is then among the keys of the
/// table.
#[verifier::external_body]
pub(crate) fn select_add(select: &mut pulse::Select, signal: pulse::Signal) -> (id: usize)
    ensures
        id == id_of(signal),
        watched(*final(select)) == watched(*old(select)).insert(id),
{
    select.add(signal)
}

/// `pulse::SelectMap::new`: a keyed multiplexer whose table is empty.
#[verifier::external_body]
pub(crate) fn live_new() -> (m: pulse::SelectMap<()>)
    ensures
        live_ids(m) == Set::<usize>::empty(),
{
    pulse::SelectMap::new()
}

/// `pulse::SelectMap::add` on a signal made by `pulse::Signal::new` for this
/// very call. The table gains the identifier of the new signal, which is the
/// address of an allocation that is alive together with every signal the
/// table still holds, so it was not among the keys before. The signal, its
/// trigger and the identifier that both go by are returned; the table keeps
/// a clone.
#[verifier::external_body]
pub(crate) fn live_admit(m: &mut pulse::SelectMap<()>) -> (entry: (
    pulse::Signal,
    pulse::Pulse,
    usize,
))
    ensures
        id_of(entry.0) == entry.2,
        fires(entry.1) == entry.2,
        !live_ids(*old(m)).contains(entry.2),
        live_ids(*final(m)) == live_ids(*old(m)).insert(entry.2),
{
    let (signal, trigger) = pulse::Signal::new();
    let id = signal.id();
    m.add(signal.clone(), ());
    (signal, trigger, id)
}

/// `pulse::SelectMap::try_next`: takes one entry whose signal has fired out
/// of the table, without blocking, and hands back the identifier of that
/// signal. With `None` the table is as it was; otherwise the identifier was
/// a key and is one no longer. Which fired entry leaves, and whether any has
/// fired, is left open.
#[verifier::external_body]
pub(crate) fn live_try_next(m: &mut pulse::SelectMap<()>) -> (ready: Option<usize>)
    ensures
        ready is None ==> live_ids(*final(m)) == live_ids(*old(m)),
        ready matches Some(id) ==> live_ids(*old(m)).contains(id) && live_ids(*final(m))
            == live_ids(*old(m)).remove(id),
{
    m.try_next().map(|entry| entry.0.id())
}

/// A set of exactly `n` identifiers.
pub open spec fn counts(ids: Set<usize>, n: nat) -> bool {
    ids.finite() && ids.len() == n
}

/// `pulse::SelectMap::len`: the number of entries in the table, which is a
/// hash map and so holds finitely many keys.
#[verifier::external_body]
pub(crate) fn live_len(m: &pulse::SelectMap<()>) -> (n: usize)
    ensures
        counts(live_ids(*m), n as nat),
{
    m.len()
}

/// `Signals::signal` of `pulse::SelectMap`: a signal that fires when an
/// entry of the table is ready to be taken. Nothing is claimed of it.
#[verifier::external_body]
pub(crate) fn live_signal(m: &pulse::SelectMap<()>) -> (signal: pulse::Signal) {
    m.signal()
}

} // verus!
