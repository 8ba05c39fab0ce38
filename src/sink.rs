use crate::future::Future;
use crate::stream::Stream;
use crate::poll::Poll;
use crate::task::Context;
use vstd::prelude::*;
use vstd::std_specs::convert::FromSpec;

verus! {

/// An asynchronous consumer of values. A value is handed over in two
/// phases: `poll_ready` until it returns `Ready(Ok(()))`, then `start_send`.
/// `poll_flush` drives buffered values to their destination and
/// `poll_close` flushes and then releases the sink.
///
/// An implementation describes its state by `inv` and `can_send`, and each
/// operation by a step function; one that does not promises nothing beyond
/// the signatures.
pub trait Sink {
    /// The values the sink takes.
    type SinkItem;

    /// The failures the sink reports.
    type SinkError;

    /// The invariant of the sink's state, kept by every operation.
    open spec fn inv(&self) -> bool {
        true
    }

    /// `poll_ready` has returned `Ready(Ok(()))` and no value was sent since.
    open spec fn can_send(&self) -> bool {
        true
    }

    /// One `poll_ready` may take `self` to `next` with result `r`.
    open spec fn ready_step(&self, cx: &Context, next: &Self, r: Poll<Result<(), Self::SinkError>>) -> bool {
        true
    }

    /// One `start_send` of `item` may take `self` to `next` with result `r`.
    open spec fn send_step(&self, next: &Self, item: Self::SinkItem, r: Result<(), Self::SinkError>) -> bool {
        true
    }

    /// One `poll_flush` may take `self` to `next` with result `r`.
    open spec fn flush_step(&self, cx: &Context, next: &Self, r: Poll<Result<(), Self::SinkError>>) -> bool {
        true
    }

    /// One `poll_close` may take `self` to `next` with result `r`.
    open spec fn close_step(&self, cx: &Context, next: &Self, r: Poll<Result<(), Self::SinkError>>) -> bool {
        true
    }

    /// Tries to get ready to take one value.
    fn poll_ready(&mut self, cx: &Context) -> (r: Poll<Result<(), Self::SinkError>>)
        requires
            old(self).inv(),
            cx.can_wake(),
        ensures
            final(self).inv(),
            old(self).ready_step(cx, final(self), r),
            (r matches Poll::Ready(Ok(_))) ==> final(self).can_send(),
    ;

    /// Hands one value over; only right after `poll_ready` returned
    /// `Ready(Ok(()))`.
    fn start_send(&mut self, item: Self::SinkItem) -> (r: Result<(), Self::SinkError>)
        requires
            old(self).inv(),
            old(self).can_send(),
        ensures
            final(self).inv(),
            old(self).send_step(final(self), item, r),
    ;

    /// Tries to drive every value taken so far to its destination.
    fn poll_flush(&mut self, cx: &Context) -> (r: Poll<Result<(), Self::SinkError>>)
        requires
            old(self).inv(),
            cx.can_wake(),
        ensures
            final(self).inv(),
            old(self).flush_step(cx, final(self), r),
    ;

    /// Tries to flush and then release the sink.
    fn poll_close(&mut self, cx: &Context) -> (r: Poll<Result<(), Self::SinkError>>)
        requires
            old(self).inv(),
            cx.can_wake(),
        ensures
            final(self).inv(),
            old(self).close_step(cx, final(self), r),
    ;
}

/// A vector as a sink: it is always ready, and each value sent is pushed
/// at its end.
impl<T> Sink for Vec<T> {
    type SinkItem = T;

    type SinkError = ();

    open spec fn inv(&self) -> bool {
        true
    }

    open spec fn can_send(&self) -> bool {
        true
    }

    open spec fn ready_step(&self, cx: &Context, next: &Self, r: Poll<Result<(), ()>>) -> bool {
        r == Poll::Ready(Ok::<(), ()>(())) && next@ == self@
    }

    open spec fn send_step(&self, next: &Self, item: T, r: Result<(), ()>) -> bool {
        r == Ok::<(), ()>(()) && next@ == self@.push(item)
    }

    open spec fn flush_step(&self, cx: &Context, next: &Self, r: Poll<Result<(), ()>>) -> bool {
        r == Poll::Ready(Ok::<(), ()>(())) && next@ == self@
    }

    open spec fn close_step(&self, cx: &Context, next: &Self, r: Poll<Result<(), ()>>) -> bool {
        r == Poll::Ready(Ok::<(), ()>(())) && next@ == self@
    }

    fn poll_ready(&mut self, cx: &Context) -> (r: Poll<Result<(), ()>>) {
        Poll::Ready(Ok(()))
    }

    fn start_send(&mut self, item: T) -> (r: Result<(), ()>) {
        self.push(item);
        Ok(())
    }

    fn poll_flush(&mut self, cx: &Context) -> (r: Poll<Result<(), ()>>) {
        Poll::Ready(Ok(()))
    }

    fn poll_close(&mut self, cx: &Context) -> (r: Poll<Result<(), ()>>) {
        Poll::Ready(Ok(()))
    }
}

/// What a `With` sink holds between a send and the hand-over to the
/// underlying sink.
pub enum State<Fut, T> {
    /// Nothing is pending.
    Empty,
    /// The value is being transformed by this future.
    Process(Fut),
    /// The transformed value waits for the underlying sink to be ready.
    Buffered(T),
}

/// `x` is `e` converted by `E`'s `From`, where that conversion is specified.
pub open spec fn converted_from<E0, E: From<E0>>(e: E0, x: E) -> bool {
    <E as FromSpec<E0>>::obeys_from_spec() ==> x == <E as FromSpec<E0>>::from_spec(e)
}

/// `r` is `r0` with its failure converted into `E`.
pub open spec fn poll_converted<E0, E: From<E0>>(r0: Poll<Result<(), E0>>, r: Poll<
    Result<(), E>,
>) -> bool {
    match r0 {
        Poll::Pending => r is Pending,
        Poll::Ready(Ok(())) => r == Poll::Ready(Ok::<(), E>(())),
        Poll::Ready(Err(e)) => r matches Poll::Ready(Err(x)) && converted_from(e, x),
    }
}

/// A sink that transforms each value by an asynchronous computation before
/// it hands the result to an underlying sink.
pub struct With<Si: Sink, U, Fut, F> {
    sink: Si,
    f: F,
    state: State<Fut, Si::SinkItem>,
    marker: std::marker::PhantomData<U>,
}

impl<Si: Sink, U, Fut, F, E> With<Si, U, Fut, F> where
    F: FnMut(U) -> Fut,
    Fut: Future<Output = Result<Si::SinkItem, E>>,
    E: From<Si::SinkError>,
 {
    /// The underlying sink.
    pub closed spec fn sink(&self) -> Si {
        self.sink
    }

    /// The transforming function.
    pub closed spec fn func(&self) -> F {
        self.f
    }

    /// The value in flight, if any.
    pub closed spec fn state(&self) -> State<Fut, Si::SinkItem> {
        self.state
    }

    /// The function may be called on any value and makes futures that may be
    /// polled, and a future in flight may be polled.
    pub open spec fn wf(&self) -> bool {
        &&& forall|u: U| #[trigger] call_requires(self.func(), (u,))
        &&& forall|u: U, fut: Fut| #[trigger] call_ensures(self.func(), (u,), fut) ==> fut.pollable()
        &&& self.state() matches State::Process(fut) ==> fut.pollable()
        &&& self.sink().inv()
    }

    /// Wraps `sink`, to send through it what `f` makes of each value.
    pub fn new(sink: Si, f: F) -> (r: With<Si, U, Fut, F>)
        ensures
            r.sink() == sink,
            r.func() == f,
            r.state() is Empty,
    {
        With { sink, f, state: State::Empty, marker: std::marker::PhantomData::<U> }
    }

    /// The underlying sink.
    pub fn get_ref(&self) -> (r: &Si)
        ensures
            *r == self.sink(),
    {
        &self.sink
    }

    /// The underlying sink, to be changed in place.
    pub fn get_mut(&mut self) -> (r: &mut Si)
        ensures
            *r == old(self).sink(),
            final(self).sink() == *final(r),
            final(self).func() == old(self).func(),
            final(self).state() == old(self).state(),
    {
        &mut self.sink
    }

    /// Gives up the combinator, returning the underlying sink; a value in
    /// flight is dropped.
    pub fn into_inner(self) -> (r: Si)
        ensures
            r == self.sink(),
    {
        self.sink
    }

    /// Hands the buffered `item` over once the underlying sink `sink` is
    /// ready: the possible outcomes, ending in `next`.
    pub open spec fn hand_over(cx: &Context, sink: Si, item: Si::SinkItem, next: Self, r: Poll<Result<(), E>>) -> bool {
        exists|ready: Poll<Result<(), Si::SinkError>>, sink1: Si|
            {
                &&& #[trigger] sink.ready_step(cx, &sink1, ready)
                &&& match ready {
                    Poll::Ready(Ok(())) => exists|sent: Result<(), Si::SinkError>, sink2: Si|
                        {
                            &&& #[trigger] sink1.send_step(&sink2, item, sent)
                            &&& next.sink() == sink2
                            &&& next.state() is Empty
                            &&& match sent {
                                Ok(()) => r == Poll::Ready(Ok::<(), E>(())),
                                Err(e) => r matches Poll::Ready(Err(x)) && converted_from(e, x),
                            }
                        },
                    _ => {
                        &&& next.sink() == sink1
                        &&& next.state() == State::<Fut, Si::SinkItem>::Buffered(item)
                        &&& poll_converted(ready, r)
                    },
                }
            }
    }

    /// One drive of the value in flight may take `self` to `next` with
    /// result `r`: `Ready(Ok(()))` exactly when nothing is left in flight.
    pub open spec fn drive_step(&self, cx: &Context, next: Self, r: Poll<Result<(), E>>) -> bool {
        &&& next.func() == self.func()
        &&& match self.state() {
            State::Empty => r == Poll::Ready(Ok::<(), E>(())) && next.sink() == self.sink()
                && next.state() is Empty,
            State::Process(fut) => exists|fut2: Fut, out: Poll<Result<Si::SinkItem, E>>|
                {
                    &&& #[trigger] fut.step(cx, &fut2, out)
                    &&& match out {
                        Poll::Pending => r is Pending && next.sink() == self.sink() && next.state()
                            == State::<Fut, Si::SinkItem>::Process(fut2),
                        Poll::Ready(Err(e)) => r == Poll::Ready(Err::<(), E>(e))
                            && next.sink() == self.sink() && next.state() is Empty,
                        Poll::Ready(Ok(item)) => Self::hand_over(cx, self.sink(), item, next, r),
                    }
                },
            State::Buffered(item) => Self::hand_over(cx, self.sink(), item, next, r),
        }
    }

    /// Hands `item` to the underlying sink once it is ready.
    fn send_buffered(&mut self, cx: &Context, item: Si::SinkItem) -> (r: Poll<Result<(), E>>)
        requires
            cx.can_wake(),
            old(self).wf(),
        ensures
            Self::hand_over(cx, old(self).sink(), item, *final(self), r),
            final(self).func() == old(self).func(),
            final(self).wf(),
    {
        let ghost sink0 = self.sink;
        let ready = self.sink.poll_ready(cx);
        let ghost sink1 = self.sink;
        assert(sink0.ready_step(cx, &sink1, ready));
        match ready {
            Poll::Ready(Ok(())) => {
                let sent = self.sink.start_send(item);
                assert(sink1.send_step(&self.sink, item, sent));
                self.state = State::Empty;
                match sent {
                    Ok(()) => Poll::Ready(Ok(())),
                    Err(e) => Poll::Ready(Err(E::from(e))),
                }
            },
            Poll::Ready(Err(e)) => {
                self.state = State::Buffered(item);
                Poll::Ready(Err(E::from(e)))
            },
            Poll::Pending => {
                self.state = State::Buffered(item);
                Poll::Pending
            },
        }
    }

    /// Drives the value in flight: polls its future, then hands the result
    /// to the underlying sink.
    fn drive(&mut self, cx: &Context) -> (r: Poll<Result<(), E>>)
        requires
            cx.can_wake(),
            old(self).wf(),
        ensures
            old(self).drive_step(cx, *final(self), r),
            final(self).wf(),
    {
        let mut state: State<Fut, Si::SinkItem> = State::Empty;
        std::mem::swap(&mut self.state, &mut state);
        assert(self.func() == old(self).func() && self.sink() == old(self).sink());
        match state {
            State::Empty => Poll::Ready(Ok(())),
            State::Process(mut fut) => {
                let ghost fut0 = fut;
                let out = fut.poll(cx);
                assert(fut0.step(cx, &fut, out));
                match out {
                    Poll::Pending => {
                        self.state = State::Process(fut);
                        Poll::Pending
                    },
                    Poll::Ready(Err(e)) => Poll::Ready(Err(e)),
                    Poll::Ready(Ok(item)) => self.send_buffered(cx, item),
                }
            },
            State::Buffered(item) => self.send_buffered(cx, item),
        }
    }
}

impl<Si: Sink, U, Fut, F, E> Sink for With<Si, U, Fut, F> where
    F: FnMut(U) -> Fut,
    Fut: Future<Output = Result<Si::SinkItem, E>>,
    E: From<Si::SinkError>,
 {
    type SinkItem = U;

    type SinkError = E;

    open spec fn inv(&self) -> bool {
        self.wf()
    }

    open spec fn can_send(&self) -> bool {
        self.state() is Empty
    }

    open spec fn ready_step(&self, cx: &Context, next: &Self, r: Poll<Result<(), E>>) -> bool {
        self.drive_step(cx, *next, r)
    }

    open spec fn send_step(&self, next: &Self, item: U, r: Result<(), E>) -> bool {
        &&& r == Ok::<(), E>(())
        &&& next.sink() == self.sink()
        &&& next.func() == self.func()
        &&& exists|fut: Fut|
            call_ensures(self.func(), (item,), fut) && next.state() == State::<
                Fut,
                Si::SinkItem,
            >::Process(fut)
    }

    open spec fn flush_step(&self, cx: &Context, next: &Self, r: Poll<Result<(), E>>) -> bool {
        exists|mid: Self, driven: Poll<Result<(), E>>|
            {
                &&& #[trigger] self.drive_step(cx, mid, driven)
                &&& match driven {
                    Poll::Ready(Ok(())) => exists|flushed: Poll<Result<(), Si::SinkError>>|
                        {
                            &&& #[trigger] mid.sink().flush_step(cx, &next.sink(), flushed)
                            &&& next.state() is Empty
                            &&& next.func() == self.func()
                            &&& poll_converted(flushed, r)
                        },
                    _ => *next == mid && r == driven,
                }
            }
    }

    open spec fn close_step(&self, cx: &Context, next: &Self, r: Poll<Result<(), E>>) -> bool {
        exists|mid: Self, driven: Poll<Result<(), E>>|
            {
                &&& #[trigger] self.drive_step(cx, mid, driven)
                &&& match driven {
                    Poll::Ready(Ok(())) => exists|closed: Poll<Result<(), Si::SinkError>>|
                        {
                            &&& #[trigger] mid.sink().close_step(cx, &next.sink(), closed)
                            &&& next.state() is Empty
                            &&& next.func() == self.func()
                            &&& poll_converted(closed, r)
                        },
                    _ => *next == mid && r == driven,
                }
            }
    }

    fn poll_ready(&mut self, cx: &Context) -> (r: Poll<Result<(), E>>) {
        self.drive(cx)
    }

    fn start_send(&mut self, item: U) -> (r: Result<(), E>) {
        broadcast use vstd::function::group_function_axioms;

        assert(call_requires(self.func(), (item,)));
        let fut = (self.f)(item);
        self.state = State::Process(fut);
        Ok(())
    }

    fn poll_flush(&mut self, cx: &Context) -> (r: Poll<Result<(), E>>) {
        let ghost start = *self;
        let driven = self.drive(cx);
        let ghost mid = *self;
        assert(start.drive_step(cx, mid, driven));
        match driven {
            Poll::Ready(Ok(())) => {
                let flushed = self.sink.poll_flush(cx);
                assert(mid.sink().flush_step(cx, &self.sink(), flushed));
                match flushed {
                    Poll::Pending => Poll::Pending,
                    Poll::Ready(Ok(())) => Poll::Ready(Ok(())),
                    Poll::Ready(Err(e)) => Poll::Ready(Err(E::from(e))),
                }
            },
            _ => driven,
        }
    }

    fn poll_close(&mut self, cx: &Context) -> (r: Poll<Result<(), E>>) {
        let ghost start = *self;
        let driven = self.drive(cx);
        let ghost mid = *self;
        assert(start.drive_step(cx, mid, driven));
        match driven {
            Poll::Ready(Ok(())) => {
                let closed = self.sink.poll_close(cx);
                assert(mid.sink().close_step(cx, &self.sink(), closed));
                match closed {
                    Poll::Pending => Poll::Pending,
                    Poll::Ready(Ok(())) => Poll::Ready(Ok(())),
                    Poll::Ready(Err(e)) => Poll::Ready(Err(E::from(e))),
                }
            },
            _ => driven,
        }
    }
}

/// Once the value in flight has been handed over, a flush only flushes the
/// underlying sink: the value is not sent to it a second time.
pub proof fn lemma_flush_sends_nothing_more<Si: Sink, U, Fut, F, E>(
    cx: &Context,
    s: With<Si, U, Fut, F>,
    next: With<Si, U, Fut, F>,
    r: Poll<Result<(), E>>,
)
    where
        F: FnMut(U) -> Fut,
        Fut: Future<Output = Result<Si::SinkItem, E>>,
        E: From<Si::SinkError>,

    requires
        s.state() is Empty,
        s.flush_step(cx, &next, r),
    ensures
        next.state() is Empty,
        exists|flushed: Poll<Result<(), Si::SinkError>>|
            #[trigger] s.sink().flush_step(cx, &next.sink(), flushed) && poll_converted(flushed, r),
{
    let (mid, driven) = choose|mid: With<Si, U, Fut, F>, driven: Poll<Result<(), E>>|
        #[trigger] s.drive_step(cx, mid, driven) && match driven {
            Poll::Ready(Ok(())) => exists|flushed: Poll<Result<(), Si::SinkError>>|
                {
                    &&& #[trigger] mid.sink().flush_step(cx, &next.sink(), flushed)
                    &&& next.state() is Empty
                    &&& next.func() == s.func()
                    &&& poll_converted(flushed, r)
                },
            _ => next == mid && r == driven,
        };
    assert(mid.sink() == s.sink());
}

/// A flush that leaves the value in flight has not sent it: the underlying
/// sink was at most asked whether it is ready. With
/// `lemma_flush_sends_nothing_more`, a value is sent to the underlying sink
/// once, however many flushes were pending before.
pub proof fn lemma_pending_flush_sends_nothing<Si: Sink, U, Fut, F, E>(
    cx: &Context,
    s: With<Si, U, Fut, F>,
    next: With<Si, U, Fut, F>,
    r: Poll<Result<(), E>>,
)
    where
        F: FnMut(U) -> Fut,
        Fut: Future<Output = Result<Si::SinkItem, E>>,
        E: From<Si::SinkError>,

    requires
        s.flush_step(cx, &next, r),
        !(next.state() is Empty),
    ensures
        next.sink() == s.sink() || exists|ready: Poll<Result<(), Si::SinkError>>|
            #[trigger] s.sink().ready_step(cx, &next.sink(), ready),
{
    let (mid, driven) = choose|mid: With<Si, U, Fut, F>, driven: Poll<Result<(), E>>|
        #[trigger] s.drive_step(cx, mid, driven) && match driven {
            Poll::Ready(Ok(())) => exists|flushed: Poll<Result<(), Si::SinkError>>|
                {
                    &&& #[trigger] mid.sink().flush_step(cx, &next.sink(), flushed)
                    &&& next.state() is Empty
                    &&& next.func() == s.func()
                    &&& poll_converted(flushed, r)
                },
            _ => next == mid && r == driven,
        };
    assert(next == mid);
}

/// A `With` over a sink that is also a stream is that stream too: polling
/// it polls the underlying sink.
impl<Si: Sink + Stream, U, Fut, F, E> Stream for With<Si, U, Fut, F> where
    F: FnMut(U) -> Fut,
    Fut: Future<Output = Result<<Si as Sink>::SinkItem, E>>,
    E: From<<Si as Sink>::SinkError>,
 {
    type Item = <Si as Stream>::Item;

    open spec fn pollable(&self) -> bool {
        self.sink().pollable()
    }

    open spec fn step(&self, cx: &Context, next: &Self, r: Poll<Option<Self::Item>>) -> bool {
        &&& self.sink().step(cx, &next.sink(), r)
        &&& next.func() == self.func()
        &&& next.state() == self.state()
    }

    fn poll_next(&mut self, cx: &Context) -> (r: Poll<Option<Self::Item>>) {
        self.sink.poll_next(cx)
    }
}

} // verus!
