use async_core::io::{split, AsyncRead, AsyncWrite};
use async_core::lock::BiLock;
use async_core::poll::Poll;
use async_core::task::{noop_context, Context, WakeCounter};
use std::collections::VecDeque;

#[test]
fn bilock_excludes_and_wakes_waiter() {
    let (mut lock, a, b) = BiLock::new(5u32);
    let a_counter = WakeCounter::new();
    let b_counter = WakeCounter::new();
    let a_cx = noop_context().with_waker(a_counter.local_waker().clone());
    let b_cx = noop_context().with_waker(b_counter.local_waker().clone());
    let mut guard = match lock.poll_lock(&a, &a_cx) {
        Poll::Ready(g) => g,
        Poll::Pending => panic!("free lock must be taken"),
    };
    assert!(lock.poll_lock(&b, &b_cx).is_pending());
    assert!(lock.poll_lock(&b, &b_cx).is_pending());
    *guard.get_mut() += 1;
    assert_eq!(b_counter.count(), 0);
    assert!(lock.unlock(guard));
    assert_eq!(b_counter.count(), 1);
    assert_eq!(a_counter.count(), 0);
    let guard = match lock.poll_lock(&b, &b_cx) {
        Poll::Ready(g) => g,
        Poll::Pending => panic!("released lock must be taken"),
    };
    assert_eq!(*guard.get_ref(), 6);
    assert!(!lock.unlock(guard));
    assert_eq!(lock.into_inner(), Some(6));
}

#[test]
fn bilock_survivor_always_succeeds() {
    let (mut lock, a, b) = BiLock::new(String::from("v"));
    let cx = noop_context();
    lock.drop_handle(a);
    for _ in 0..3 {
        let guard = match lock.poll_lock(&b, &cx) {
            Poll::Ready(g) => g,
            Poll::Pending => panic!("sole owner must not wait"),
        };
        assert_eq!(guard.get_ref(), "v");
        lock.unlock(guard);
    }
}

/// Bytes written become readable only once flushed.
struct Pipe {
    unflushed: Vec<u8>,
    readable: VecDeque<u8>,
}

impl AsyncRead for Pipe {
    fn poll_read(&mut self, _cx: &Context, buf: &mut [u8]) -> Poll<std::io::Result<usize>> {
        let mut n = 0;
        while n < buf.len() {
            match self.readable.pop_front() {
                Some(b) => {
                    buf[n] = b;
                    n += 1;
                }
                None => break,
            }
        }
        Poll::Ready(Ok(n))
    }
}

impl AsyncWrite for Pipe {
    fn poll_write(&mut self, _cx: &Context, buf: &[u8]) -> Poll<std::io::Result<usize>> {
        self.unflushed.extend_from_slice(buf);
        Poll::Ready(Ok(buf.len()))
    }

    fn poll_flush(&mut self, _cx: &Context) -> Poll<std::io::Result<()>> {
        self.readable.extend(self.unflushed.drain(..));
        Poll::Ready(Ok(()))
    }

    fn poll_close(&mut self, cx: &Context) -> Poll<std::io::Result<()>> {
        self.poll_flush(cx)
    }
}

#[test]
fn split_halves_take_turns() {
    let (mut lock, reader, writer) = split(Pipe { unflushed: Vec::new(), readable: VecDeque::new() });
    let cx = noop_context();
    let mut buf = [0u8; 4];
    assert!(matches!(writer.poll_write(&mut lock, &cx, b"hi"), Poll::Ready(Ok(2))));
    assert!(matches!(reader.poll_read(&mut lock, &cx, &mut buf), Poll::Ready(Ok(0))));
    assert!(matches!(writer.poll_flush(&mut lock, &cx), Poll::Ready(Ok(()))));
    assert!(matches!(reader.poll_read(&mut lock, &cx, &mut buf), Poll::Ready(Ok(2))));
    assert_eq!(&buf[..2], b"hi");
    assert!(matches!(writer.poll_close(&mut lock, &cx), Poll::Ready(Ok(()))));
}

#[test]
fn split_read_takes_available_bytes() {
    let (mut lock, reader, _writer) = split(Pipe { unflushed: Vec::new(), readable: VecDeque::from(vec![1u8]) });
    let counter = WakeCounter::new();
    let cx = noop_context().with_waker(counter.local_waker().clone());
    let mut buf = [9u8; 1];
    assert!(matches!(reader.poll_read(&mut lock, &cx, &mut buf), Poll::Ready(Ok(1))));
    assert_eq!(buf, [1]);
    assert_eq!(counter.count(), 0);
}
