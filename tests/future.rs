use async_core::future::{poll_fn, ready, Chain, Fuse, Future, MapOk, PendingOnce};
use async_core::poll::Poll;
use async_core::task::{no_spawn_context, noop_context, panic_context, Context, WakeCounter};
use std::cell::Cell;

#[test]
fn fuse() {
    let mut future = Fuse::new(ready::<i32>(2));
    let lw = &mut panic_context();
    assert!(future.poll(lw).is_ready());
    assert!(future.poll(lw).is_pending());
}

#[test]
fn fuse_stays_pending_after_ready() {
    let mut future = Fuse::new(ready(7u8));
    let cx = noop_context();
    assert_eq!(future.poll(&cx), Poll::Ready(7));
    assert!(future.is_terminated());
    for _ in 0..5 {
        assert_eq!(future.poll(&cx), Poll::Pending);
        assert!(future.is_terminated());
    }
}

#[test]
fn fuse_passes_pending_through() {
    let counter = WakeCounter::new();
    let cx = noop_context().with_waker(counter.local_waker().clone());
    let mut future = Fuse::new(PendingOnce::new(ready(1u32)));
    assert_eq!(future.poll(&cx), Poll::Pending);
    assert!(!future.is_terminated());
    assert_eq!(future.poll(&cx), Poll::Ready(1));
    assert_eq!(future.poll(&cx), Poll::Pending);
    assert_eq!(counter.count(), 1);
}

#[test]
fn pending_once_wakes_then_delegates() {
    let counter = WakeCounter::new();
    let cx = no_spawn_context().with_waker(counter.local_waker().clone());
    let mut future = PendingOnce::new(ready("done"));
    assert_eq!(future.poll(&cx), Poll::Pending);
    assert_eq!(counter.count(), 1);
    assert_eq!(future.poll(&cx), Poll::Ready("done"));
    assert_eq!(counter.count(), 1);
}

fn read_line(_cx: &Context) -> Poll<String> {
    Poll::Ready("Hello, World!".to_string())
}

#[test]
fn poll_fn_calls_the_function() {
    let mut future = poll_fn(read_line);
    let cx = noop_context();
    assert_eq!(future.poll(&cx), Poll::Ready("Hello, World!".to_owned()));
}

#[test]
fn poll_fn_counts_down() {
    let left = Cell::new(2u32);
    let mut future = poll_fn(|_cx: &Context| {
        if left.get() == 0 {
            Poll::Ready(10u32)
        } else {
            left.set(left.get() - 1);
            Poll::Pending
        }
    });
    let cx = noop_context();
    assert_eq!(future.poll(&cx), Poll::Pending);
    assert_eq!(future.poll(&cx), Poll::Pending);
    assert_eq!(future.poll(&cx), Poll::Ready(10));
}

#[test]
fn chain_calls_f_once_with_output_and_data() {
    let calls = Cell::new(0u32);
    let seen = Cell::new((0i32, ""));
    let mut chain: Chain<_, PendingOnce<async_core::future::Ready<String>>, &str> =
        Chain::new(ready(5i32), "x");
    let counter = WakeCounter::new();
    let cx = noop_context().with_waker(counter.local_waker().clone());
    let build = |o: i32, d: &'static str| {
        calls.set(calls.get() + 1);
        seen.set((o, d));
        PendingOnce::new(ready(format!("{}{}", d, o)))
    };
    assert_eq!(chain.poll(&cx, build), Poll::Pending);
    assert_eq!(calls.get(), 1);
    assert_eq!(seen.get(), (5, "x"));
    assert!(matches!(chain, Chain::Second(_)));
    let again = |_o: i32, _d: &'static str| {
        calls.set(calls.get() + 1);
        PendingOnce::new(ready(String::new()))
    };
    assert_eq!(chain.poll(&cx, again), Poll::Ready("x5".to_string()));
    assert_eq!(calls.get(), 1);
}

#[test]
fn chain_waits_for_first() {
    let calls = Cell::new(0u32);
    let mut chain: Chain<PendingOnce<async_core::future::Ready<u8>>, async_core::future::Ready<u16>, u16> =
        Chain::new(PendingOnce::new(ready(3u8)), 100u16);
    let cx = noop_context();
    let first = |o: u8, d: u16| {
        calls.set(calls.get() + 1);
        ready(o as u16 + d)
    };
    assert_eq!(chain.poll(&cx, first), Poll::Pending);
    assert_eq!(calls.get(), 0);
    assert!(matches!(chain, Chain::First(_, 100)));
    let second = |o: u8, d: u16| {
        calls.set(calls.get() + 1);
        ready(o as u16 + d)
    };
    assert_eq!(chain.poll(&cx, second), Poll::Ready(103));
    assert_eq!(calls.get(), 1);
}

#[test]
fn map_ok_maps_success() {
    let mut future = MapOk::new(ready(Ok::<u32, String>(21)), |v: u32| v * 2);
    let cx = noop_context();
    assert_eq!(future.poll(&cx), Poll::Ready(Ok(42)));
}

#[test]
fn map_ok_passes_error() {
    let mut future = MapOk::new(ready(Err::<u32, String>("bad".to_string())), |v: u32| v * 2);
    let cx = noop_context();
    assert_eq!(future.poll(&cx), Poll::Ready(Err("bad".to_string())));
}

#[test]
fn map_ok_waits_for_inner() {
    let mut future = MapOk::new(PendingOnce::new(ready(Ok::<u8, ()>(4))), |v: u8| v + 1);
    let cx = noop_context();
    assert_eq!(future.poll(&cx), Poll::Pending);
    assert_eq!(future.poll(&cx), Poll::Ready(Ok(5)));
}
