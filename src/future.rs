use crate::poll::Poll;
use crate::task::{Context, WakeReceipt};
use vstd::prelude::*;

verus! {

/// A single-shot asynchronous computation: poll it until it returns `Ready`,
/// then poll it no more.
///
/// An implementation describes its behaviour by two spec functions: whether
/// a state may be polled, and which (state before, state after, result)
/// triples a poll may produce. One that does not describe them promises
/// nothing beyond the signature, and combinators then prove nothing of it.
pub trait Future {
    /// The value the computation produces.
    type Output;

    /// The state may be polled: it has not yet returned its value.
    open spec fn pollable(&self) -> bool {
        true
    }

    /// One poll may take the state `self` to `next` with result `r`.
    open spec fn step(&self, cx: &Context, next: &Self, r: Poll<Self::Output>) -> bool {
        true
    }

    /// Tries to make progress. On `Pending` the waker of `cx` has been
    /// arranged to be signalled when progress is possible, and the future
    /// may be polled again.
    fn poll(&mut self, cx: &Context) -> (r: Poll<Self::Output>)
        requires
            old(self).pollable(),
            cx.can_wake(),
        ensures
            old(self).step(cx, final(self), r),
            r is Pending ==> final(self).pollable(),
    ;
}

/// A future that is ready with its value on the first poll.
pub struct Ready<T> {
    value: Option<T>,
}

/// Creates a future that is ready with `value` on the first poll.
pub fn ready<T>(value: T) -> (r: Ready<T>)
    ensures
        r.pollable(),
        r.value() == Some(value),
{
    Ready { value: Some(value) }
}

impl<T> Ready<T> {
    /// The value still to be handed out, if any.
    pub closed spec fn value(&self) -> Option<T> {
        self.value
    }
}

impl<T> Future for Ready<T> {
    type Output = T;

    open spec fn pollable(&self) -> bool {
        self.value() is Some
    }

    open spec fn step(&self, cx: &Context, next: &Self, r: Poll<T>) -> bool {
        &&& r == Poll::Ready(self.value()->Some_0)
        &&& next.value() is None
    }

    fn poll(&mut self, cx: &Context) -> (r: Poll<T>) {
        match self.value.take() {
            Some(v) => Poll::Ready(v),
            None => Poll::Pending,
        }
    }
}

/// A future that is safe to poll after completion: once its inner future
/// has returned `Ready`, every further poll returns `Pending`.
pub struct Fuse<Fut> {
    inner: Option<Fut>,
}

impl<Fut: Future> Fuse<Fut> {
    /// The inner future, or `None` once it has completed.
    pub closed spec fn inner(&self) -> Option<Fut> {
        self.inner
    }

    /// Wraps `future`.
    pub fn new(future: Fut) -> (r: Fuse<Fut>)
        ensures
            r.inner() == Some(future),
    {
        Fuse { inner: Some(future) }
    }

    /// Whether the inner future has completed.
    pub fn is_terminated(&self) -> (r: bool)
        ensures
            r == (self.inner() is None),
    {
        self.inner.is_none()
    }
}

impl<Fut: Future> Future for Fuse<Fut> {
    type Output = Fut::Output;

    open spec fn pollable(&self) -> bool {
        self.inner() is Some ==> self.inner()->Some_0.pollable()
    }

    open spec fn step(&self, cx: &Context, next: &Self, r: Poll<Fut::Output>) -> bool {
        match self.inner() {
            None => r is Pending && next.inner() is None,
            Some(f) => match r {
                Poll::Pending => next.inner() is Some && f.step(cx, &next.inner()->Some_0, r),
                Poll::Ready(_) => next.inner() is None && exists|g: Fut| f.step(cx, &g, r),
            },
        }
    }

    fn poll(&mut self, cx: &Context) -> (r: Poll<Fut::Output>) {
        match &mut self.inner {
            None => Poll::Pending,
            Some(f) => {
                let r = f.poll(cx);
                match r {
                    Poll::Pending => Poll::Pending,
                    Poll::Ready(v) => {
                        self.inner = None;
                        Poll::Ready(v)
                    },
                }
            },
        }
    }
}

/// Once a fused future has returned `Ready`, every further poll returns
/// `Pending` and leaves it completed.
pub proof fn lemma_fuse_done<Fut: Future>(
    cx: &Context,
    later: &Context,
    start: Fuse<Fut>,
    done: Fuse<Fut>,
    v: Fut::Output,
    next: Fuse<Fut>,
    r: Poll<Fut::Output>,
)
    requires
        start.step(cx, &done, Poll::Ready(v)),
        done.step(later, &next, r),
    ensures
        r is Pending,
        next.inner() is None,
{
}

/// A future that returns `Pending` once, signalling the waker, before it
/// polls its inner future.
pub struct PendingOnce<Fut> {
    future: Fut,
    polled_before: bool,
    signalled: Ghost<Option<WakeReceipt>>,
}

impl<Fut: Future> PendingOnce<Fut> {
    /// The inner future.
    pub closed spec fn future(&self) -> Fut {
        self.future
    }

    /// Whether the first poll has happened.
    pub closed spec fn polled_before(&self) -> bool {
        self.polled_before
    }

    /// The record of the signal that the first poll gave.
    pub closed spec fn signalled(&self) -> Option<WakeReceipt> {
        self.signalled@
    }

    /// Wraps `future`; it will first be polled on the second poll.
    pub fn new(future: Fut) -> (r: PendingOnce<Fut>)
        ensures
            r.future() == future,
            !r.polled_before(),
    {
        PendingOnce { future, polled_before: false, signalled: Ghost(None) }
    }
}

impl<Fut: Future> Future for PendingOnce<Fut> {
    type Output = Fut::Output;

    open spec fn pollable(&self) -> bool {
        self.future().pollable()
    }

    open spec fn step(&self, cx: &Context, next: &Self, r: Poll<Fut::Output>) -> bool {
        &&& next.polled_before()
        &&& if self.polled_before() {
            self.future().step(cx, &next.future(), r) && next.signalled() == self.signalled()
        } else {
            &&& r is Pending
            &&& next.future() == self.future()
            &&& next.signalled() matches Some(receipt) && receipt.waker() == cx.waker_view()
        }
    }

    fn poll(&mut self, cx: &Context) -> (r: Poll<Fut::Output>) {
        if self.polled_before {
            self.future.poll(cx)
        } else {
            self.polled_before = true;
            let receipt = cx.wake();
            self.signalled = Ghost(Some(receipt@));
            Poll::Pending
        }
    }
}

/// A future driven by a function: each poll calls the function with the
/// context and returns what it returns.
pub struct PollFn<F> {
    f: F,
}

impl<F> PollFn<F> {
    /// The wrapped function.
    pub closed spec fn func(&self) -> F {
        self.f
    }
}

/// Creates a future whose every poll calls `f`.
pub fn poll_fn<T, F>(f: F) -> (r: PollFn<F>)
    where
        F: FnMut(&Context) -> Poll<T>,
    ensures
        r.func() == f,
{
    PollFn { f }
}

impl<T, F> Future for PollFn<F> where F: FnMut(&Context) -> Poll<T> {
    type Output = T;

    open spec fn pollable(&self) -> bool {
        forall|cx: &Context| call_requires(self.func(), (cx,))
    }

    open spec fn step(&self, cx: &Context, next: &Self, r: Poll<T>) -> bool {
        &&& next.func() == self.func()
        &&& call_ensures(self.func(), (cx,), r)
    }

    fn poll(&mut self, cx: &Context) -> (r: Poll<T>) {
        broadcast use vstd::function::group_function_axioms;

        assert(call_requires(self.func(), (cx,)));
        (self.f)(cx)
    }
}

/// A future over a fallible future that applies a function to its success
/// value and passes its error through unchanged.
pub struct MapOk<Fut, F> {
    future: Fut,
    f: Option<F>,
}

impl<Fut, F> MapOk<Fut, F> {
    /// The inner future.
    pub closed spec fn future(&self) -> Fut {
        self.future
    }

    /// The function, until it has been applied.
    pub closed spec fn func(&self) -> Option<F> {
        self.f
    }

    /// Wraps `future`, to apply `f` to its success value.
    pub fn new(future: Fut, f: F) -> (r: MapOk<Fut, F>)
        ensures
            r.future() == future,
            r.func() == Some(f),
    {
        MapOk { future, f: Some(f) }
    }
}

impl<Fut, F, T, E, U> Future for MapOk<Fut, F> where
    Fut: Future<Output = Result<T, E>>,
    F: FnOnce(T) -> U,
 {
    type Output = Result<U, E>;

    open spec fn pollable(&self) -> bool {
        &&& self.future().pollable()
        &&& self.func() is Some
        &&& forall|t: T| call_requires(self.func()->Some_0, (t,))
    }

    open spec fn step(&self, cx: &Context, next: &Self, r: Poll<Result<U, E>>) -> bool {
        ||| {
            &&& self.future().step(cx, &next.future(), Poll::Pending)
            &&& r is Pending
            &&& next.func() == self.func()
        }
        ||| exists|o: Fut::Output|
            {
                &&& #[trigger] self.future().step(cx, &next.future(), Poll::Ready(o))
                &&& next.func() is None
                &&& match o {
                    Ok(t) => exists|u: U|
                        call_ensures(self.func()->Some_0, (t,), u) && r == Poll::Ready(
                            Ok::<U, E>(u),
                        ),
                    Err(e) => r == Poll::Ready(Err::<U, E>(e)),
                }
            }
    }

    fn poll(&mut self, cx: &Context) -> (r: Poll<Result<U, E>>) {
        let ghost before = *self;
        let inner = self.future.poll(cx);
        assert(before.future().step(cx, &self.future(), inner));
        match inner {
            Poll::Pending => Poll::Pending,
            Poll::Ready(Ok(t)) => {
                let f = self.f.take().unwrap();
                assert(call_requires(f, (t,)));
                let u = f(t);
                Poll::Ready(Ok(u))
            },
            Poll::Ready(Err(e)) => {
                self.f = None;
                Poll::Ready(Err(e))
            },
        }
    }
}

/// Two computations in sequence: the second is built from the output of the
/// first and some data kept for it.
pub enum Chain<Fut1, Fut2, Data> {
    /// Polling the first future, with the data kept for the second step.
    First(Fut1, Data),
    /// Polling the second future.
    Second(Fut2),
    /// Between the two steps: the first future is gone, the second not yet
    /// made.
    Empty,
}

impl<Fut1: Future, Fut2: Future, Data> Chain<Fut1, Fut2, Data> {
    /// A chain that starts with `fut1`, keeping `data` for the second step.
    pub fn new(fut1: Fut1, data: Data) -> (r: Chain<Fut1, Fut2, Data>)
        ensures
            r == Chain::<Fut1, Fut2, Data>::First(fut1, data),
    {
        Chain::First(fut1, data)
    }

    /// `f` accepts every output and data, and builds a future that may be
    /// polled.
    pub open spec fn builds_pollable<F: FnOnce(Fut1::Output, Data) -> Fut2>(f: F) -> bool {
        forall|o: Fut1::Output, d: Data| #[trigger]
            call_requires(f, (o, d)) && (forall|fut2: Fut2|
                call_ensures(f, (o, d), fut2) ==> fut2.pollable())
    }

    /// The chain may be polled with a function that builds the second
    /// future.
    pub open spec fn pollable<F: FnOnce(Fut1::Output, Data) -> Fut2>(&self, f: F) -> bool {
        match self {
            Chain::First(fut1, _) => fut1.pollable() && Self::builds_pollable(f),
            Chain::Second(fut2) => fut2.pollable(),
            Chain::Empty => false,
        }
    }

    /// Polls the chain. While the first future is pending the chain is
    /// pending. When it is ready, it is dropped, `f` is called once on its
    /// output and the kept data, and the future that `f` returns is polled
    /// in the same call and from then on.
    pub fn poll<F: FnOnce(Fut1::Output, Data) -> Fut2>(&mut self, cx: &Context, f: F) -> (r: Poll<
        Fut2::Output,
    >)
        requires
            old(self).pollable(f),
            cx.can_wake(),
        ensures
            match *old(self) {
                Chain::First(fut1, data) => exists|next1: Fut1, inner: Poll<Fut1::Output>|
                    #[trigger] fut1.step(cx, &next1, inner) && match inner {
                        Poll::Pending => r is Pending && *final(self) == Chain::<
                            Fut1,
                            Fut2,
                            Data,
                        >::First(next1, data),
                        Poll::Ready(o) => exists|fut2: Fut2, next2: Fut2|
                            call_ensures(f, (o, data), fut2) && #[trigger] fut2.step(cx, &next2, r)
                                && *final(self) == Chain::<Fut1, Fut2, Data>::Second(next2),
                    },
                Chain::Second(fut2) => exists|next2: Fut2|
                    #[trigger] fut2.step(cx, &next2, r) && *final(self) == Chain::<
                        Fut1,
                        Fut2,
                        Data,
                    >::Second(next2),
                Chain::Empty => false,
            },
            r is Pending ==> final(self).pollable(f),
    {
        if let Chain::Second(fut2) = self {
            return fut2.poll(cx);
        }
        // Between the steps the chain is `Empty`: the first future is moved
        // out, and dropped at the end of the arm that polls it, before `f`
        // is called.
        let mut state = Chain::Empty;
        std::mem::swap(self, &mut state);
        let ghost old1;
        let ghost next1;
        let (o, data) = match state {
            Chain::First(mut fut1, data) => {
                proof {
                    old1 = fut1;
                }
                match fut1.poll(cx) {
                    Poll::Pending => {
                        *self = Chain::First(fut1, data);
                        return Poll::Pending;
                    },
                    Poll::Ready(o) => {
                        proof {
                            next1 = fut1;
                        }
                        (o, data)
                    },
                }
            },
            _ => {
                return Poll::Pending;
            },
        };
        let ghost out = o;
        assert(old1.step(cx, &next1, Poll::Ready(out)));
        assert(call_requires(f, (o, data)));
        let mut fut2 = f(o, data);
        assert(fut2.pollable());
        let r = fut2.poll(cx);
        *self = Chain::Second(fut2);
        r
    }
}

} // verus!
