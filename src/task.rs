use std::sync::atomic::{AtomicUsize, Ordering};
use std::sync::Arc;
use vstd::prelude::*;

verus! {

/// How a waker reacts to a signal.
enum Signal {
    /// Signals are ignored.
    Ignore,
    /// The waker must never be signalled.
    Forbid,
    /// Each signal adds one to a shared counter.
    Count(Arc<AtomicUsize>),
}

/// A cloneable handle that a suspended computation keeps and signals to ask
/// for being polled again. Signalling it any number of times is harmless.
pub struct Waker {
    signal: Signal,
}

impl Waker {
    /// Whether this waker may be signalled.
    pub closed spec fn can_wake(&self) -> bool {
        !(self.signal is Forbid)
    }

    /// A waker that ignores every signal.
    pub fn noop() -> (r: Waker)
        ensures
            r.can_wake(),
    {
        Waker { signal: Signal::Ignore }
    }

    /// A waker that must never be signalled.
    pub fn forbidden() -> (r: Waker)
        ensures
            !r.can_wake(),
    {
        Waker { signal: Signal::Forbid }
    }

    /// Asks for the computation that registered this waker to be polled again.
    /// The returned receipt records that this waker was signalled.
    pub fn wake(&self) -> (receipt: Ghost<WakeReceipt>)
        requires
            self.can_wake(),
        ensures
            receipt@.waker() == *self,
    {
        match &self.signal {
            Signal::Count(counter) => {
                counter.fetch_add(1, Ordering::SeqCst);
            },
            _ => {},
        }
        Ghost(WakeReceipt { waker: *self })
    }
}

/// A record that a waker was signalled. Only `Waker::wake` makes one, so a
/// receipt in a contract shows that the signal was actually given.
pub struct WakeReceipt {
    waker: Waker,
}

impl WakeReceipt {
    /// The waker that was signalled.
    pub closed spec fn waker(&self) -> Waker {
        self.waker
    }
}

impl Clone for Waker {
    fn clone(&self) -> (r: Self)
        ensures
            r == *self,
    {
        match &self.signal {
            Signal::Ignore => Waker { signal: Signal::Ignore },
            Signal::Forbid => Waker { signal: Signal::Forbid },
            Signal::Count(counter) => Waker { signal: Signal::Count(Arc::clone(counter)) },
        }
    }
}

/// What a computation is handed on each poll: the waker to register.
pub struct Context {
    waker: Waker,
    may_spawn: bool,
}

impl Context {
    /// Whether the waker of this context may be signalled.
    pub open spec fn can_wake(&self) -> bool {
        self.waker_view().can_wake()
    }

    /// The waker of this context.
    pub closed spec fn waker_view(&self) -> Waker {
        self.waker
    }

    /// Whether this context allows new tasks to be spawned.
    pub closed spec fn spawn_allowed(&self) -> bool {
        self.may_spawn
    }

    /// The waker to register when a poll returns `Pending`.
    pub fn waker(&self) -> (r: &Waker)
        ensures
            *r == self.waker_view(),
    {
        &self.waker
    }

    /// Whether this context allows new tasks to be spawned.
    pub fn may_spawn(&self) -> (r: bool)
        ensures
            r == self.spawn_allowed(),
    {
        self.may_spawn
    }

    /// Signals the waker of this context.
    pub fn wake(&self) -> (receipt: Ghost<WakeReceipt>)
        requires
            self.can_wake(),
        ensures
            receipt@.waker() == self.waker_view(),
    {
        self.waker.wake()
    }

    /// The same context with another waker.
    pub fn with_waker(&self, waker: Waker) -> (r: Context)
        ensures
            r.waker_view() == waker,
            r.spawn_allowed() == self.spawn_allowed(),
    {
        Context { waker, may_spawn: self.may_spawn }
    }
}

/// A context whose waker and spawner must both stay unused.
pub fn panic_context() -> (r: Context)
    ensures
        !r.can_wake(),
        !r.spawn_allowed(),
{
    Context { waker: Waker::forbidden(), may_spawn: false }
}

/// A context whose waker ignores signals and whose spawner must stay unused.
pub fn no_spawn_context() -> (r: Context)
    ensures
        r.can_wake(),
        !r.spawn_allowed(),
{
    Context { waker: Waker::noop(), may_spawn: false }
}

/// A context whose waker and spawner both ignore every use.
pub fn noop_context() -> (r: Context)
    ensures
        r.can_wake(),
        r.spawn_allowed(),
{
    Context { waker: Waker::noop(), may_spawn: true }
}

/// A waker source that counts how many times its waker was signalled.
pub struct WakeCounter {
    count: Arc<AtomicUsize>,
    waker: Waker,
}

impl WakeCounter {
    /// Signals of `w` add one to this counter.
    pub closed spec fn counts_wakes_of(&self, w: Waker) -> bool {
        w.signal matches Signal::Count(c) && c == self.count
    }

    /// The counter's own waker is one whose signals it counts.
    pub closed spec fn wf(&self) -> bool {
        self.counts_wakes_of(self.waker)
    }

    /// A counter at zero with its waker.
    pub fn new() -> (r: WakeCounter)
        ensures
            r.wf(),
    {
        let count = Arc::new(AtomicUsize::new(0));
        let waker = Waker { signal: Signal::Count(Arc::clone(&count)) };
        WakeCounter { count, waker }
    }

    /// The waker whose every signal adds one to the counter.
    pub fn local_waker(&self) -> (r: &Waker)
        requires
            self.wf(),
        ensures
            r.can_wake(),
            self.counts_wakes_of(*r),
    {
        &self.waker
    }

    /// The number of signals so far. Wakers may be signalled from any thread,
    /// so this is a snapshot.
    pub fn count(&self) -> usize {
        self.count.load(Ordering::SeqCst)
    }
}

impl Default for WakeCounter {
    fn default() -> (r: Self)
        ensures
            r.wf(),
    {
        WakeCounter::new()
    }
}

} // verus!
