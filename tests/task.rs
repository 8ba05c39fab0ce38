use async_core::task::{no_spawn_context, noop_context, panic_context, WakeCounter};

#[test]
fn wake_counter_counts_each_wake() {
    let wake_counter = WakeCounter::new();
    let lw = panic_context().with_waker(wake_counter.local_waker().clone());
    assert_eq!(wake_counter.count(), 0);
    lw.waker().wake();
    lw.waker().wake();
    assert_eq!(wake_counter.count(), 2);
}

#[test]
fn wake_counter_counts_clones_too() {
    let wake_counter = WakeCounter::default();
    let waker = wake_counter.local_waker().clone();
    for _ in 0..10 {
        waker.wake();
    }
    wake_counter.local_waker().wake();
    assert_eq!(wake_counter.count(), 11);
}

#[test]
fn contexts_report_what_they_allow() {
    assert!(!panic_context().may_spawn());
    assert!(!no_spawn_context().may_spawn());
    assert!(noop_context().may_spawn());
    noop_context().wake();
    no_spawn_context().waker().wake();
}
