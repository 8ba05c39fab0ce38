use crate::future::Future;
use crate::poll::Poll;
use crate::task::Context;
use vstd::prelude::*;
use vstd::std_specs::convert::IntoSpec;

verus! {

/// An asynchronous sequence of values: each poll yields a value, reports
/// that none is available yet, or reports with `Ready(None)` that the
/// sequence has ended.
///
/// An implementation describes its behaviour by `pollable` and `step`, as a
/// `Future` does; one that does not promises nothing beyond the signature.
pub trait Stream {
    /// The values of the sequence.
    type Item;

    /// The state may be polled: it has not yet reported the end.
    open spec fn pollable(&self) -> bool {
        true
    }

    /// One poll may take the state `self` to `next` with result `r`.
    open spec fn step(&self, cx: &Context, next: &Self, r: Poll<Option<Self::Item>>) -> bool {
        true
    }

    /// Tries to pull out the next value. On `Pending` the waker of `cx` has
    /// been arranged to be signalled when a value may be available.
    fn poll_next(&mut self, cx: &Context) -> (r: Poll<Option<Self::Item>>)
        requires
            old(self).pollable(),
            cx.can_wake(),
        ensures
            old(self).step(cx, final(self), r),
            !(r matches Poll::Ready(None)) ==> final(self).pollable(),
    ;
}

/// A stream whose values are successes or failures, seen as such.
pub trait TryStream {
    /// The success values.
    type Ok;

    /// The failures.
    type Error;

    /// The state may be polled.
    spec fn try_pollable(&self) -> bool;

    /// One poll may take the state `self` to `next` with result `r`.
    spec fn try_step(&self, cx: &Context, next: &Self, r: Poll<Option<Result<Self::Ok, Self::Error>>>) -> bool;

    /// Polls this stream as a stream of results.
    fn try_poll_next(&mut self, cx: &Context) -> (r: Poll<Option<Result<Self::Ok, Self::Error>>>)
        requires
            old(self).try_pollable(),
            cx.can_wake(),
        ensures
            old(self).try_step(cx, final(self), r),
            !(r matches Poll::Ready(None)) ==> final(self).try_pollable(),
    ;
}

impl<S, T, E> TryStream for S where S: Stream<Item = Result<T, E>> {
    type Ok = T;

    type Error = E;

    open spec fn try_pollable(&self) -> bool {
        self.pollable()
    }

    open spec fn try_step(&self, cx: &Context, next: &Self, r: Poll<Option<Result<T, E>>>) -> bool {
        self.step(cx, next, r)
    }

    fn try_poll_next(&mut self, cx: &Context) -> (r: Poll<Option<Result<T, E>>>) {
        self.poll_next(cx)
    }
}

/// A future that waits for the next value of a stream and then hands back
/// that value together with the stream.
pub struct StreamFuture<St> {
    stream: Option<St>,
}

impl<St: Stream> StreamFuture<St> {
    /// The stream, until the future has completed.
    pub closed spec fn stream(&self) -> Option<St> {
        self.stream
    }

    /// Wraps `stream`.
    pub fn new(stream: St) -> (r: StreamFuture<St>)
        ensures
            r.stream() == Some(stream),
    {
        StreamFuture { stream: Some(stream) }
    }

    /// The stream, or `None` once the future has completed.
    pub fn get_ref(&self) -> (r: Option<&St>)
        ensures
            match r {
                Some(s) => self.stream() == Some(*s),
                None => self.stream() is None,
            },
    {
        self.stream.as_ref()
    }

    /// The stream, to be changed in place, or `None` once the future has
    /// completed.
    pub fn get_mut(&mut self) -> (r: Option<&mut St>)
        ensures
            r is Some <==> old(self).stream() is Some,
            r is Some ==> *r->Some_0 == old(self).stream()->Some_0 && final(self).stream() == Some(
                *final(r->Some_0),
            ),
            r is None ==> final(self).stream() is None,
    {
        self.stream.as_mut()
    }

    /// Gives up the future, returning the stream unless it was handed out.
    pub fn into_inner(self) -> (r: Option<St>)
        ensures
            r == self.stream(),
    {
        self.stream
    }
}

impl<St: Stream> Future for StreamFuture<St> {
    type Output = (Option<St::Item>, St);

    open spec fn pollable(&self) -> bool {
        self.stream() is Some && self.stream()->Some_0.pollable()
    }

    open spec fn step(&self, cx: &Context, next: &Self, r: Poll<Self::Output>) -> bool {
        exists|s: St, inner: Poll<Option<St::Item>>|
            {
                &&& #[trigger] self.stream()->Some_0.step(cx, &s, inner)
                &&& match inner {
                    Poll::Pending => r is Pending && next.stream() == Some(s),
                    Poll::Ready(item) => r == Poll::Ready((item, s)) && next.stream() is None,
                }
            }
    }

    fn poll(&mut self, cx: &Context) -> (r: Poll<Self::Output>) {
        let ghost before = *self;
        let mut stream = self.stream.take().unwrap();
        let inner = stream.poll_next(cx);
        assert(before.stream()->Some_0.step(cx, &stream, inner));
        match inner {
            Poll::Pending => {
                self.stream = Some(stream);
                Poll::Pending
            },
            Poll::Ready(item) => Poll::Ready((item, stream)),
        }
    }
}

/// A stream of results whose failures are converted into another error type.
pub struct ErrInto<St, E> {
    stream: St,
    marker: std::marker::PhantomData<E>,
}

impl<St, E> ErrInto<St, E> {
    /// The inner stream.
    pub closed spec fn stream(&self) -> St {
        self.stream
    }

    /// Wraps `stream`.
    pub fn new(stream: St) -> (r: ErrInto<St, E>)
        ensures
            r.stream() == stream,
    {
        ErrInto { stream, marker: std::marker::PhantomData }
    }
}

/// The value of `r` with a failure converted into `E`, where the conversion
/// is specified.
pub open spec fn converted<T, E0: Into<E>, E>(inner: Poll<Option<Result<T, E0>>>, r: Poll<
    Option<Result<T, E>>,
>) -> bool {
    match inner {
        Poll::Ready(Some(Err(e))) => r matches Poll::Ready(Some(Err(x))) && (
        <E0 as IntoSpec<E>>::obeys_into_spec() ==> x == <E0 as IntoSpec<E>>::into_spec(e)),
        Poll::Ready(Some(Ok(t))) => r == Poll::Ready(Some(Ok::<T, E>(t))),
        Poll::Ready(None) => r == Poll::<Option<Result<T, E>>>::Ready(None),
        Poll::Pending => r is Pending,
    }
}

impl<St, E> Stream for ErrInto<St, E> where St: TryStream, St::Error: Into<E> {
    type Item = Result<St::Ok, E>;

    open spec fn pollable(&self) -> bool {
        self.stream().try_pollable()
    }

    open spec fn step(&self, cx: &Context, next: &Self, r: Poll<Option<Self::Item>>) -> bool {
        exists|inner: Poll<Option<Result<St::Ok, St::Error>>>|
            #[trigger] self.stream().try_step(cx, &next.stream(), inner) && converted(inner, r)
    }

    fn poll_next(&mut self, cx: &Context) -> (r: Poll<Option<Self::Item>>) {
        let ghost before = *self;
        let inner = self.stream.try_poll_next(cx);
        assert(before.stream().try_step(cx, &self.stream(), inner));
        match inner {
            Poll::Pending => Poll::Pending,
            Poll::Ready(None) => Poll::Ready(None),
            Poll::Ready(Some(Ok(t))) => Poll::Ready(Some(Ok(t))),
            Poll::Ready(Some(Err(e))) => Poll::Ready(Some(Err(e.into()))),
        }
    }
}

/// Either of two values, as `either` defines it; its two variants are public
/// and hold the values as they are.
#[verifier::external_type_specification]
#[verifier::reject_recursive_types(L)]
#[verifier::reject_recursive_types(R)]
pub struct ExEither<L, R>(either::Either<L, R>);

/// One of two streams of the same values, polled as the stream it holds.
impl<A, B> Stream for either::Either<A, B> where A: Stream, B: Stream<Item = A::Item> {
    type Item = A::Item;

    open spec fn pollable(&self) -> bool {
        match self {
            either::Either::Left(a) => a.pollable(),
            either::Either::Right(b) => b.pollable(),
        }
    }

    open spec fn step(&self, cx: &Context, next: &Self, r: Poll<Option<Self::Item>>) -> bool {
        match (self, next) {
            (either::Either::Left(a), either::Either::Left(a2)) => a.step(cx, a2, r),
            (either::Either::Right(b), either::Either::Right(b2)) => b.step(cx, b2, r),
            _ => false,
        }
    }

    fn poll_next(&mut self, cx: &Context) -> (r: Poll<Option<Self::Item>>) {
        match self {
            either::Either::Left(a) => a.poll_next(cx),
            either::Either::Right(b) => b.poll_next(cx),
        }
    }
}

} // verus!
