use crate::lock::{BiLock, BiLockGuard, Handle, Side};
use crate::poll::Poll;
use crate::task::Context;
use vstd::prelude::*;

verus! {

/// The error of an input or output operation, as std defines it; the
/// library only carries it from the resource to the caller.
#[verifier::external_type_specification]
#[verifier::external_body]
pub struct ExIoError(std::io::Error);

/// A source of bytes that is read by polling. Reads and writes go through one
/// buffer at a time; there are no vectored variants. An implementation may describe
/// its reads by `read_step`; one that does not promises nothing beyond the
/// signature.
pub trait AsyncRead {
    /// One `poll_read` may take `self` to `next`, the buffer from `buf` to
    /// `next_buf`, with result `r`.
    open spec fn read_step(
        &self,
        cx: &Context,
        next: &Self,
        buf: Seq<u8>,
        next_buf: Seq<u8>,
        r: Poll<Result<usize, std::io::Error>>,
    ) -> bool {
        true
    }

    /// Tries to read bytes into `buf`; `Ok(n)` tells how many were read.
    fn poll_read(&mut self, cx: &Context, buf: &mut [u8]) -> (r: Poll<Result<usize, std::io::Error>>)
        requires
            cx.can_wake(),
        ensures
            old(self).read_step(cx, final(self), old(buf)@, final(buf)@, r),
    ;
}

/// A destination of bytes that is written by polling. An implementation may
/// describe its operations by the three step functions; one that does not
/// promises nothing beyond the signatures.
pub trait AsyncWrite {
    /// One `poll_write` of `buf` may take `self` to `next` with result `r`.
    open spec fn write_step(
        &self,
        cx: &Context,
        next: &Self,
        buf: Seq<u8>,
        r: Poll<Result<usize, std::io::Error>>,
    ) -> bool {
        true
    }

    /// One `poll_flush` may take `self` to `next` with result `r`.
    open spec fn flush_step(&self, cx: &Context, next: &Self, r: Poll<Result<(), std::io::Error>>) -> bool {
        true
    }

    /// One `poll_close` may take `self` to `next` with result `r`.
    open spec fn close_step(&self, cx: &Context, next: &Self, r: Poll<Result<(), std::io::Error>>) -> bool {
        true
    }

    /// Tries to write bytes from `buf`; `Ok(n)` tells how many were taken.
    fn poll_write(&mut self, cx: &Context, buf: &[u8]) -> (r: Poll<Result<usize, std::io::Error>>)
        requires
            cx.can_wake(),
        ensures
            old(self).write_step(cx, final(self), buf@, r),
    ;

    /// Tries to drive written bytes to their destination.
    fn poll_flush(&mut self, cx: &Context) -> (r: Poll<Result<(), std::io::Error>>)
        requires
            cx.can_wake(),
        ensures
            old(self).flush_step(cx, final(self), r),
    ;

    /// Tries to flush and then close the destination.
    fn poll_close(&mut self, cx: &Context) -> (r: Poll<Result<(), std::io::Error>>)
        requires
            cx.can_wake(),
        ensures
            old(self).close_step(cx, final(self), r),
    ;
}

/// The reading half of a resource shared through a `BiLock`.
pub struct ReadHalf<T> {
    handle: Handle,
    marker: std::marker::PhantomData<T>,
}

/// The writing half of a resource shared through a `BiLock`.
pub struct WriteHalf<T> {
    handle: Handle,
    marker: std::marker::PhantomData<T>,
}

impl<T> ReadHalf<T> {
    /// The side of the lock this half polls with.
    pub closed spec fn side(&self) -> Side {
        self.handle.side()
    }
}

impl<T> WriteHalf<T> {
    /// The side of the lock this half polls with.
    pub closed spec fn side(&self) -> Side {
        self.handle.side()
    }
}

/// The lock is well formed, the handle of `side` is live, and no handle
/// holds the lock. Every operation of a half hands the value back before it
/// returns, so this holds between the operations of the two halves.
pub open spec fn shared_ready<T>(lock: &BiLock<T>, side: Side) -> bool {
    &&& lock.wf()
    &&& lock.alive(side)
    &&& lock.holder() is None
}

/// Splits a resource that can be both read and written into two halves that
/// take turns on it through the returned lock.
///
/// This is a sequential model of the split: each operation of a half takes
/// the lock by `&mut`, so whoever owns the lock drives both halves, one
/// operation at a time. An operation finds the lock held only when a guard
/// taken directly with `BiLock::poll_lock` is still out.
pub fn split<T: AsyncRead + AsyncWrite>(t: T) -> (r: (BiLock<T>, ReadHalf<T>, WriteHalf<T>))
    ensures
        shared_ready(&r.0, r.1.side()),
        shared_ready(&r.0, r.2.side()),
        r.1.side() != r.2.side(),
        r.0.value() == Some(t),
        !r.0.waiting(),
{
    let (lock, a, b) = BiLock::new(t);
    (
        lock,
        ReadHalf { handle: a, marker: std::marker::PhantomData },
        WriteHalf { handle: b, marker: std::marker::PhantomData },
    )
}

/// The lock was held by the sibling: the poll left it as it was, but for the
/// waker of `cx`, which is now the one registered.
pub open spec fn contended<T>(before: &BiLock<T>, cx: &Context, after: &BiLock<T>) -> bool {
    &&& before.value() is None
    &&& after.holder() == before.holder()
    &&& after.value() is None
    &&& after.waiter() == Some(cx.waker_view())
    &&& after.last_wake() == before.last_wake()
}

/// After an operation, the lock is free again and holds `t`.
pub open spec fn released<T>(after: &BiLock<T>, t: T) -> bool {
    after.holder() is None && after.value() == Some(t)
}

/// Takes the resource for `handle`, or registers the waker of `cx` when the
/// sibling holds it.
fn acquire<T>(lock: &mut BiLock<T>, handle: &Handle, cx: &Context) -> (r: Option<BiLockGuard<T>>)
    requires
        old(lock).wf(),
        old(lock).alive(handle.side()),
        old(lock).holder() != Some(handle.side()),
        cx.can_wake(),
    ensures
        final(lock).wf(),
        old(lock).same_handles(final(lock)),
        match r {
            Some(g) => {
                &&& old(lock).value() == Some(g.value())
                &&& g.side() == handle.side()
                &&& final(lock).holder() == Some(handle.side())
            },
            None => contended(old(lock), cx, final(lock)),
        },
{
    match lock.poll_lock(handle, cx) {
        Poll::Ready(guard) => Some(guard),
        Poll::Pending => None,
    }
}

/// Gives the resource back after an operation, which leaves the lock free.
fn release<T>(lock: &mut BiLock<T>, guard: BiLockGuard<T>)
    requires
        old(lock).wf(),
        old(lock).holder() == Some(guard.side()),
    ensures
        final(lock).wf(),
        released(final(lock), guard.value()),
        old(lock).same_handles(final(lock)),
{
    lock.unlock(guard);
}

impl<T: AsyncRead> ReadHalf<T> {
    /// Reads from the resource with the caller's context while holding the
    /// lock, then hands the lock back. While the sibling holds the lock the
    /// read is pending, `buf` is untouched and the caller's waker is
    /// registered.
    pub fn poll_read(&self, lock: &mut BiLock<T>, cx: &Context, buf: &mut [u8]) -> (r: Poll<
        Result<usize, std::io::Error>,
    >)
        requires
            old(lock).wf(),
            old(lock).alive(self.side()),
            old(lock).holder() != Some(self.side()),
            cx.can_wake(),
        ensures
            final(lock).wf(),
            old(lock).same_handles(final(lock)),
            old(lock).value() is Some ==> exists|t2: T|
                #[trigger] old(lock).value()->Some_0.read_step(cx, &t2, old(buf)@, final(buf)@, r) && released(final(lock), t2),
            old(lock).value() is None ==> r is Pending && final(buf)@ == old(buf)@ && contended(
                old(lock),
                cx,
                final(lock),
            ),
    {
        match acquire(&mut *lock, &self.handle, cx) {
            Some(mut guard) => {
                let r = guard.get_mut().poll_read(cx, buf);
                let ghost t2 = guard.value();
                release(&mut *lock, guard);
                assert(old(lock).value()->Some_0.read_step(cx, &t2, old(buf)@, buf@, r) && released(lock, t2));
                r
            },
            None => Poll::Pending,
        }
    }
}

impl<T: AsyncWrite> WriteHalf<T> {
    /// Writes to the resource with the caller's context while holding the
    /// lock, then hands the lock back. While the sibling holds the lock the
    /// write is pending and the caller's waker is registered.
    pub fn poll_write(&self, lock: &mut BiLock<T>, cx: &Context, buf: &[u8]) -> (r: Poll<
        Result<usize, std::io::Error>,
    >)
        requires
            old(lock).wf(),
            old(lock).alive(self.side()),
            old(lock).holder() != Some(self.side()),
            cx.can_wake(),
        ensures
            final(lock).wf(),
            old(lock).same_handles(final(lock)),
            old(lock).value() is Some ==> exists|t2: T|
                #[trigger] old(lock).value()->Some_0.write_step(cx, &t2, buf@, r) && released(final(lock), t2),
            old(lock).value() is None ==> r is Pending && contended(old(lock), cx, final(lock)),
    {
        match acquire(&mut *lock, &self.handle, cx) {
            Some(mut guard) => {
                let r = guard.get_mut().poll_write(cx, buf);
                let ghost t2 = guard.value();
                release(&mut *lock, guard);
                assert(old(lock).value()->Some_0.write_step(cx, &t2, buf@, r) && released(lock, t2));
                r
            },
            None => Poll::Pending,
        }
    }

    /// Flushes the resource with the caller's context while holding the
    /// lock, then hands the lock back. While the sibling holds the lock the
    /// flush is pending and the caller's waker is registered.
    pub fn poll_flush(&self, lock: &mut BiLock<T>, cx: &Context) -> (r: Poll<
        Result<(), std::io::Error>,
    >)
        requires
            old(lock).wf(),
            old(lock).alive(self.side()),
            old(lock).holder() != Some(self.side()),
            cx.can_wake(),
        ensures
            final(lock).wf(),
            old(lock).same_handles(final(lock)),
            old(lock).value() is Some ==> exists|t2: T|
                #[trigger] old(lock).value()->Some_0.flush_step(cx, &t2, r) && released(final(lock), t2),
            old(lock).value() is None ==> r is Pending && contended(old(lock), cx, final(lock)),
    {
        match acquire(&mut *lock, &self.handle, cx) {
            Some(mut guard) => {
                let r = guard.get_mut().poll_flush(cx);
                let ghost t2 = guard.value();
                release(&mut *lock, guard);
                assert(old(lock).value()->Some_0.flush_step(cx, &t2, r) && released(lock, t2));
                r
            },
            None => Poll::Pending,
        }
    }

    /// Closes the resource with the caller's context while holding the
    /// lock, then hands the lock back. While the sibling holds the lock the
    /// close is pending and the caller's waker is registered.
    pub fn poll_close(&self, lock: &mut BiLock<T>, cx: &Context) -> (r: Poll<
        Result<(), std::io::Error>,
    >)
        requires
            old(lock).wf(),
            old(lock).alive(self.side()),
            old(lock).holder() != Some(self.side()),
            cx.can_wake(),
        ensures
            final(lock).wf(),
            old(lock).same_handles(final(lock)),
            old(lock).value() is Some ==> exists|t2: T|
                #[trigger] old(lock).value()->Some_0.close_step(cx, &t2, r) && released(final(lock), t2),
            old(lock).value() is None ==> r is Pending && contended(old(lock), cx, final(lock)),
    {
        match acquire(&mut *lock, &self.handle, cx) {
            Some(mut guard) => {
                let r = guard.get_mut().poll_close(cx);
                let ghost t2 = guard.value();
                release(&mut *lock, guard);
                assert(old(lock).value()->Some_0.close_step(cx, &t2, r) && released(lock, t2));
                r
            },
            None => Poll::Pending,
        }
    }
}

} // verus!
