use fibe::{task, Backend, StartError, TaskBuilder, Wait};
use pulse::{Select, Signal, SignalState};

#[test]
fn builder_without_after_waits_for_nothing() {
    let mut backend = Backend::new();
    let (work, sub) = task("hello").start(&mut backend).ok().unwrap();
    assert_eq!(work, "hello");
    assert_eq!(sub.after.state(), SignalState::Pulsed);
    assert_eq!(backend.live_count(), 1);
}

#[test]
fn builder_after_one_handle_waits_on_it() {
    let mut backend = Backend::new();
    let (_, first) = task(1u8).start(&mut backend).ok().unwrap();
    let (work, second) =
        task(2u8).after(first.handle.clone()).start(&mut backend).ok().unwrap();
    assert_eq!(work, 2);
    assert_eq!(second.after.id(), first.handle.id());
    assert!(second.after.is_pending());
    first.complete.pulse();
    assert!(!second.after.is_pending());
}

#[test]
fn builder_after_two_handles_waits_for_both() {
    let mut backend = Backend::new();
    let (a, ta) = Signal::new();
    let (b, tb) = Signal::new();
    let (_, sub) = TaskBuilder::new(()).after(a).after(b).start(&mut backend).ok().unwrap();
    assert!(sub.after.is_pending());
    tb.pulse();
    assert!(sub.after.is_pending());
    ta.pulse();
    assert_eq!(sub.after.state(), SignalState::Pulsed);
}

#[test]
fn builder_resumed_waits_on_the_signal_alone() {
    let mut backend = Backend::new();
    let (signal, trigger) = Signal::new();
    let id = signal.id();
    let (work, sub) =
        TaskBuilder::resumed(5u32, Some(signal)).start(&mut backend).ok().unwrap();
    assert_eq!(work, 5);
    assert_eq!(sub.after.id(), id);
    assert!(sub.after.is_pending());
    trigger.pulse();
    assert_eq!(sub.after.state(), SignalState::Pulsed);
}

#[test]
fn builder_resumed_without_signal_is_ready() {
    let mut backend = Backend::new();
    let (_, sub) = TaskBuilder::resumed(5u32, None).start(&mut backend).ok().unwrap();
    assert_eq!(sub.after.state(), SignalState::Pulsed);
}

#[test]
fn builder_is_refused_after_shutdown() {
    let mut backend = Backend::new();
    let mut select = Select::new();
    let (_started, ack) = Signal::new();
    let _reactor = backend.run(&mut select, ack);
    backend.exit(Wait::Pending).unwrap();
    match task(0u8).start(&mut backend) {
        Err(e) => assert_eq!(e, StartError::Closed),
        Ok(_) => panic!("a submission after the shutdown request must be refused"),
    }
}
