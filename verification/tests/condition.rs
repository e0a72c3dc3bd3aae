use fibe::{resolve, Condition, Handle};
use pulse::{Pulse, Signal, SignalState};

fn pairs(n: usize) -> (Vec<Handle>, Vec<Pulse>) {
    let mut signals = Vec::new();
    let mut triggers = Vec::new();
    for _ in 0..n {
        let (s, t) = Signal::new();
        signals.push(s);
        triggers.push(t);
    }
    (signals, triggers)
}

#[test]
fn resolve_of_nothing_is_open() {
    assert!(matches!(resolve(Vec::new()), Condition::Open));
}

#[test]
fn resolve_of_one_is_that_handle() {
    let (signals, _triggers) = pairs(1);
    let id = signals[0].id();
    match resolve(signals) {
        Condition::Single(s) => assert_eq!(s.id(), id),
        _ => panic!("one prerequisite must be used as it is"),
    }
}

#[test]
fn resolve_of_many_keeps_all_in_order() {
    let (signals, _triggers) = pairs(3);
    let ids: Vec<usize> = signals.iter().map(|s| s.id()).collect();
    match resolve(signals) {
        Condition::All(v) => {
            let got: Vec<usize> = v.iter().map(|s| s.id()).collect();
            assert_eq!(got, ids);
        }
        _ => panic!("several prerequisites must be joined"),
    }
}

#[test]
fn resolve_of_two_is_joined() {
    let (signals, _triggers) = pairs(2);
    assert!(matches!(resolve(signals), Condition::All(_)));
}

#[test]
fn open_condition_has_fired_already() {
    let signal = resolve(Vec::new()).arm();
    assert_eq!(signal.state(), SignalState::Pulsed);
    assert!(!signal.is_pending());
}

#[test]
fn single_condition_fires_with_its_prerequisite() {
    let (signals, mut triggers) = pairs(1);
    let id = signals[0].id();
    let signal = resolve(signals).arm();
    assert_eq!(signal.id(), id);
    assert!(signal.is_pending());
    triggers.pop().unwrap().pulse();
    assert_eq!(signal.state(), SignalState::Pulsed);
}

#[test]
fn joined_condition_waits_for_every_prerequisite() {
    let (signals, mut triggers) = pairs(3);
    let signal = resolve(signals).arm();
    assert!(signal.is_pending());
    triggers.remove(0).pulse();
    assert!(signal.is_pending());
    triggers.remove(0).pulse();
    assert!(signal.is_pending());
    triggers.remove(0).pulse();
    assert_eq!(signal.state(), SignalState::Pulsed);
}

#[test]
fn joined_condition_does_not_care_for_the_order() {
    let orders: [[usize; 3]; 6] =
        [[0, 1, 2], [0, 2, 1], [1, 0, 2], [1, 2, 0], [2, 0, 1], [2, 1, 0]];
    for order in orders.iter() {
        let (signals, triggers) = pairs(3);
        let mut triggers: Vec<Option<Pulse>> = triggers.into_iter().map(Some).collect();
        let signal = resolve(signals).arm();
        for (k, i) in order.iter().enumerate() {
            assert!(signal.is_pending(), "fired after {} of 3", k);
            triggers[*i].take().unwrap().pulse();
        }
        assert_eq!(signal.state(), SignalState::Pulsed);
    }
}

#[test]
fn fired_handle_serves_every_later_dependent() {
    let (signal, trigger) = Signal::new();
    trigger.pulse();
    for _ in 0..4 {
        let cond = resolve(vec![signal.clone()]).arm();
        assert_eq!(cond.state(), SignalState::Pulsed);
    }
    let (other, t) = Signal::new();
    t.pulse();
    let joined = resolve(vec![signal.clone(), other, signal.clone()]).arm();
    assert_eq!(joined.state(), SignalState::Pulsed);
}
