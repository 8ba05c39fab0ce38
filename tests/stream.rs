use async_core::future::{ready, Future, PendingOnce, Ready};
use async_core::poll::Poll;
use async_core::sink::{Sink, With};
use async_core::stream::{ErrInto, Stream, StreamFuture, TryStream};
use async_core::task::{noop_context, Context, WakeCounter};
use either::Either;

/// Yields its values in order, each after one pending poll.
struct Slow<T> {
    values: Vec<T>,
    next: usize,
    waited: bool,
}

impl<T: Clone> Slow<T> {
    fn new(values: Vec<T>) -> Self {
        Slow { values, next: 0, waited: false }
    }
}

impl<T: Clone> Stream for Slow<T> {
    type Item = T;

    fn poll_next(&mut self, cx: &Context) -> Poll<Option<T>> {
        if !self.waited {
            self.waited = true;
            cx.wake();
            return Poll::Pending;
        }
        self.waited = false;
        if self.next < self.values.len() {
            self.next += 1;
            Poll::Ready(Some(self.values[self.next - 1].clone()))
        } else {
            Poll::Ready(None)
        }
    }
}

#[test]
fn stream_future_hands_back_item_and_stream() {
    let mut future = StreamFuture::new(Slow::new(vec![1u8, 2]));
    let cx = noop_context();
    assert!(future.get_ref().is_some());
    assert_eq!(future.poll(&cx).is_pending(), true);
    match future.poll(&cx) {
        Poll::Ready((Some(1), rest)) => assert_eq!(rest.next, 1),
        _ => panic!("expected the first item"),
    }
    assert!(future.get_ref().is_none());
    assert!(future.get_mut().is_none());
    assert!(future.into_inner().is_none());
}

#[test]
fn stream_future_reports_end() {
    let mut future = StreamFuture::new(Slow::<u8>::new(vec![]));
    let cx = noop_context();
    assert!(future.poll(&cx).is_pending());
    assert!(matches!(future.poll(&cx), Poll::Ready((None, _))));
}

#[test]
fn stream_future_get_mut_changes_stream() {
    let mut future = StreamFuture::new(Slow::new(vec![1u8, 2]));
    if let Some(s) = future.get_mut() {
        s.next = 1;
        s.waited = true;
    }
    let cx = noop_context();
    assert!(matches!(future.poll(&cx), Poll::Ready((Some(2), _))));
}

#[test]
fn err_into_converts_errors_only() {
    let mut stream: ErrInto<Slow<Result<u8, u8>>, u32> =
        ErrInto::new(Slow::new(vec![Ok(1u8), Err(200u8)]));
    let cx = noop_context();
    assert_eq!(stream.poll_next(&cx), Poll::Pending);
    assert_eq!(stream.poll_next(&cx), Poll::Ready(Some(Ok(1u8))));
    assert_eq!(stream.poll_next(&cx), Poll::Pending);
    assert_eq!(stream.poll_next(&cx), Poll::Ready(Some(Err(200u32))));
    assert_eq!(stream.poll_next(&cx), Poll::Pending);
    assert_eq!(stream.poll_next(&cx), Poll::Ready(None));
}

#[test]
fn try_poll_next_is_poll_next() {
    let mut stream = Slow::new(vec![Ok::<u8, ()>(9)]);
    let cx = noop_context();
    assert_eq!(stream.try_poll_next(&cx), Poll::Pending);
    assert_eq!(stream.try_poll_next(&cx), Poll::Ready(Some(Ok(9))));
}

#[test]
fn either_polls_the_stream_it_holds() {
    let cx = noop_context();
    let mut left: Either<Slow<u8>, Slow<u8>> = Either::Left(Slow::new(vec![4]));
    let mut right: Either<Slow<u8>, Slow<u8>> = Either::Right(Slow::new(vec![]));
    assert_eq!(left.poll_next(&cx), Poll::Pending);
    assert_eq!(left.poll_next(&cx), Poll::Ready(Some(4)));
    assert_eq!(right.poll_next(&cx), Poll::Pending);
    assert_eq!(right.poll_next(&cx), Poll::Ready(None));
}

#[test]
fn with_sends_transformed_item_once() {
    let cx = noop_context();
    let mut sink = With::new(Vec::new(), |u: u32| ready(Ok::<u32, ()>(u * 2)));
    assert_eq!(sink.poll_ready(&cx), Poll::Ready(Ok(())));
    assert_eq!(sink.start_send(3), Ok(()));
    assert!(sink.get_ref().is_empty());
    assert_eq!(sink.poll_flush(&cx), Poll::Ready(Ok(())));
    assert_eq!(sink.get_ref(), &vec![6]);
    assert_eq!(sink.poll_flush(&cx), Poll::Ready(Ok(())));
    assert_eq!(sink.poll_close(&cx), Poll::Ready(Ok(())));
    assert_eq!(sink.into_inner(), vec![6]);
}

#[test]
fn with_no_duplicate_across_pending_flushes() {
    let counter = WakeCounter::new();
    let cx = noop_context().with_waker(counter.local_waker().clone());
    let mut sink: With<Vec<u32>, u32, PendingOnce<Ready<Result<u32, ()>>>, _> =
        With::new(Vec::new(), |u: u32| PendingOnce::new(ready(Ok::<u32, ()>(u * 2))));
    assert_eq!(sink.poll_ready(&cx), Poll::Ready(Ok(())));
    assert_eq!(sink.start_send(5), Ok(()));
    assert_eq!(sink.poll_flush(&cx), Poll::Pending);
    assert_eq!(counter.count(), 1);
    assert!(sink.get_ref().is_empty());
    assert_eq!(sink.poll_flush(&cx), Poll::Ready(Ok(())));
    assert_eq!(sink.poll_flush(&cx), Poll::Ready(Ok(())));
    assert_eq!(sink.get_ref(), &vec![10]);
    assert_eq!(sink.poll_ready(&cx), Poll::Ready(Ok(())));
    assert_eq!(sink.start_send(1), Ok(()));
    assert_eq!(sink.poll_ready(&cx), Poll::Pending);
    assert_eq!(sink.poll_ready(&cx), Poll::Ready(Ok(())));
    sink.get_mut().push(0);
    assert_eq!(sink.get_ref(), &vec![10, 2, 0]);
}

#[test]
fn with_passes_transform_error() {
    let cx = noop_context();
    let mut sink = With::new(Vec::<u32>::new(), |u: u32| {
        ready(if u == 0 { Err(()) } else { Ok(u) })
    });
    assert_eq!(sink.start_send(0), Ok(()));
    assert_eq!(sink.poll_flush(&cx), Poll::Ready(Err(())));
    assert!(sink.get_ref().is_empty());
}

#[test]
fn vec_sink_pushes() {
    let cx = noop_context();
    let mut v: Vec<char> = Vec::new();
    assert_eq!(v.poll_ready(&cx), Poll::Ready(Ok(())));
    assert_eq!(v.start_send('a'), Ok(()));
    assert_eq!(v.poll_flush(&cx), Poll::Ready(Ok(())));
    assert_eq!(v, vec!['a']);
}
