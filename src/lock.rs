use crate::poll::Poll;
use crate::task::{Context, WakeReceipt, Waker};
use vstd::prelude::*;

verus! {

/// Which of the two handles of a lock.
#[derive(Debug, Clone, Copy, PartialEq, Eq, Structural)]
pub enum Side {
    /// The first handle made by `BiLock::new`.
    Left,
    /// The second handle made by `BiLock::new`.
    Right,
}

impl Side {
    /// The sibling handle.
    pub open spec fn other(self) -> Side {
        match self {
            Side::Left => Side::Right,
            Side::Right => Side::Left,
        }
    }
}

/// One of the two handles of a `BiLock`. Handles are made only in pairs,
/// by `BiLock::new`, and cannot be copied.
pub struct Handle {
    side: Side,
}

impl Handle {
    /// The side this handle stands for.
    pub closed spec fn side(&self) -> Side {
        self.side
    }
}

/// Exclusive access to the value of a `BiLock`, held by one handle. The
/// value lives in the guard until it is handed back with `BiLock::unlock`.
/// Nothing releases the lock when a guard is dropped: a guard dropped
/// without `unlock` takes the value with it and leaves the lock held for
/// good.
pub struct BiLockGuard<T> {
    side: Side,
    value: T,
}

impl<T> BiLockGuard<T> {
    /// The handle that holds the lock.
    pub closed spec fn side(&self) -> Side {
        self.side
    }

    /// The guarded value.
    pub closed spec fn value(&self) -> T {
        self.value
    }

    /// The guarded value.
    pub fn get_ref(&self) -> (r: &T)
        ensures
            *r == self.value(),
    {
        &self.value
    }

    /// The guarded value, to be changed in place.
    pub fn get_mut(&mut self) -> (r: &mut T)
        ensures
            *r == old(self).value(),
            final(self).value() == *final(r),
            final(self).side() == old(self).side(),
    {
        &mut self.value
    }
}

/// One value shared by two handles, each of which can poll for exclusive
/// access to it. At most one handle holds the value at a time; the other
/// one's poll is pending and registers its waker, which the release of the
/// lock signals.
pub struct BiLock<T> {
    value: Option<T>,
    holder: Option<Side>,
    waiter: Option<Waker>,
    left_alive: bool,
    right_alive: bool,
    last_wake: Ghost<Option<WakeReceipt>>,
}

impl<T> BiLock<T> {
    /// The value, while no handle holds it.
    pub closed spec fn value(&self) -> Option<T> {
        self.value
    }

    /// The handle that holds the lock, if any.
    pub closed spec fn holder(&self) -> Option<Side> {
        self.holder
    }

    /// The waker registered by the last pending poll, until it is signalled.
    pub closed spec fn waiter(&self) -> Option<Waker> {
        self.waiter
    }

    /// A waker was registered by a pending poll and not signalled since.
    pub open spec fn waiting(&self) -> bool {
        self.waiter() is Some
    }

    /// The record of the last signal that a release gave.
    pub closed spec fn last_wake(&self) -> Option<WakeReceipt> {
        self.last_wake@
    }

    /// The handle of this side has not been dropped.
    pub closed spec fn alive(&self, side: Side) -> bool {
        match side {
            Side::Left => self.left_alive,
            Side::Right => self.right_alive,
        }
    }

    /// A registered waker may be signalled.
    pub closed spec fn waiter_wf(&self) -> bool {
        self.waiter matches Some(w) ==> w.can_wake()
    }

    /// The value is in the lock exactly when no handle holds it; only a live
    /// handle holds it; a registered waker may be signalled.
    pub open spec fn wf(&self) -> bool {
        &&& (self.value() is Some <==> self.holder() is None)
        &&& (self.holder() matches Some(s) ==> self.alive(s))
        &&& self.waiter_wf()
    }

    /// `next` has the same live handles as `self`.
    pub open spec fn same_handles(&self, next: &Self) -> bool {
        next.alive(Side::Left) == self.alive(Side::Left) && next.alive(Side::Right) == self.alive(
            Side::Right,
        )
    }

    /// One `poll_lock` by `side` with waker `waker` may take `self` to `next`
    /// with result `r`: it succeeds exactly when no handle holds the lock,
    /// and otherwise registers `waker`.
    pub open spec fn lock_step(
        &self,
        side: Side,
        waker: Waker,
        next: &Self,
        r: &Poll<BiLockGuard<T>>,
    ) -> bool {
        &&& self.same_handles(next)
        &&& next.last_wake() == self.last_wake()
        &&& match self.holder() {
            None => {
                &&& r matches Poll::Ready(g) && g.side() == side && g.value()
                    == self.value()->Some_0
                &&& next.holder() == Some(side)
                &&& next.value() is None
                &&& next.waiter() == self.waiter()
            },
            Some(h) => {
                &&& r is Pending
                &&& next.holder() == Some(h)
                &&& next.value() == self.value()
                &&& next.waiter() == Some(waker)
            },
        }
    }

    /// Handing `guard` back may take `self` to `next`, where `woke` tells
    /// whether the registered waker was signalled; if so, `next` holds the
    /// receipt of that signal.
    pub open spec fn unlock_step(&self, guard: &BiLockGuard<T>, next: &Self, woke: bool) -> bool {
        &&& self.same_handles(next)
        &&& next.holder() is None
        &&& next.value() == Some(guard.value())
        &&& !next.waiting()
        &&& woke == self.waiting()
        &&& if woke {
            next.last_wake() matches Some(receipt) && receipt.waker() == self.waiter()->Some_0
        } else {
            next.last_wake() == self.last_wake()
        }
    }

    /// Moves `value` into a new lock and returns it with its two handles.
    pub fn new(value: T) -> (r: (BiLock<T>, Handle, Handle))
        ensures
            r.0.wf(),
            r.0.value() == Some(value),
            r.0.holder() is None,
            !r.0.waiting(),
            r.0.last_wake() is None,
            r.0.alive(Side::Left),
            r.0.alive(Side::Right),
            r.1.side() == Side::Left,
            r.2.side() == Side::Right,
    {
        let lock = BiLock {
            value: Some(value),
            holder: None,
            waiter: None,
            left_alive: true,
            right_alive: true,
            last_wake: Ghost(None),
        };
        (lock, Handle { side: Side::Left }, Handle { side: Side::Right })
    }

    /// Tries to take the value for `handle`. When the sibling holds it, the
    /// waker of `cx` is registered and the poll is pending. A handle that
    /// holds the lock hands its guard back before it polls again.
    pub fn poll_lock(&mut self, handle: &Handle, cx: &Context) -> (r: Poll<BiLockGuard<T>>)
        requires
            old(self).wf(),
            old(self).alive(handle.side()),
            old(self).holder() != Some(handle.side()),
            cx.can_wake(),
        ensures
            final(self).wf(),
            old(self).lock_step(handle.side(), cx.waker_view(), final(self), &r),
    {
        match self.value.take() {
            Some(value) => {
                self.holder = Some(handle.side);
                Poll::Ready(BiLockGuard { side: handle.side, value })
            },
            None => {
                self.waiter = Some(cx.waker().clone());
                Poll::Pending
            },
        }
    }

    /// Hands the value back and signals the registered waker, if any.
    /// Returns whether one was signalled.
    pub fn unlock(&mut self, guard: BiLockGuard<T>) -> (woke: bool)
        requires
            old(self).wf(),
            old(self).holder() == Some(guard.side()),
        ensures
            final(self).wf(),
            old(self).unlock_step(&guard, final(self), woke),
    {
        self.value = Some(guard.value);
        self.holder = None;
        match self.waiter.take() {
            Some(w) => {
                let receipt = w.wake();
                self.last_wake = Ghost(Some(receipt@));
                true
            },
            None => false,
        }
    }

    /// Drops `handle`, which must not hold the lock. The sibling becomes the
    /// sole owner: its polls succeed whenever it does not hold the lock.
    pub fn drop_handle(&mut self, handle: Handle)
        requires
            old(self).wf(),
            old(self).alive(handle.side()),
            old(self).holder() != Some(handle.side()),
        ensures
            final(self).wf(),
            !final(self).alive(handle.side()),
            final(self).alive(handle.side().other()) == old(self).alive(handle.side().other()),
            final(self).holder() == old(self).holder(),
            final(self).value() == old(self).value(),
            final(self).waiter() == old(self).waiter(),
            final(self).last_wake() == old(self).last_wake(),
    {
        match handle.side {
            Side::Left => self.left_alive = false,
            Side::Right => self.right_alive = false,
        }
    }

    /// Takes the value back out of a lock that no handle holds.
    pub fn into_inner(self) -> (r: Option<T>)
        ensures
            r == self.value(),
    {
        self.value
    }
}

/// While one handle holds the lock, every poll, by either handle, is
/// pending and leaves the lock with its holder; so two guards are never out
/// at once.
pub proof fn lemma_exclusive<T>(
    lock: BiLock<T>,
    side: Side,
    waker: Waker,
    next: BiLock<T>,
    r: Poll<BiLockGuard<T>>,
)
    requires
        lock.holder() is Some,
        lock.lock_step(side, waker, &next, &r),
    ensures
        r is Pending,
        next.holder() == lock.holder(),
{
}

/// After one handle's poll succeeds, the next poll by any handle before the
/// guard is handed back is pending.
pub proof fn lemma_one_guard<T>(
    lock: BiLock<T>,
    first: Side,
    w1: Waker,
    mid: BiLock<T>,
    g: BiLockGuard<T>,
    second: Side,
    w2: Waker,
    next: BiLock<T>,
    r: Poll<BiLockGuard<T>>,
)
    requires
        lock.lock_step(first, w1, &mid, &Poll::Ready(g)),
        mid.lock_step(second, w2, &next, &r),
    ensures
        r is Pending,
        next.holder() == Some(first),
{
}

/// If one handle holds the lock and the other polls for it with some waker,
/// handing the guard back signals exactly that waker, and the waiting
/// handle's next poll succeeds.
pub proof fn lemma_release_wakes<T>(
    lock: BiLock<T>,
    guard: BiLockGuard<T>,
    waiting: Side,
    waker: Waker,
    l1: BiLock<T>,
    r1: Poll<BiLockGuard<T>>,
    l2: BiLock<T>,
    woke: bool,
    later: Waker,
    l3: BiLock<T>,
    r3: Poll<BiLockGuard<T>>,
)
    requires
        lock.holder() == Some(guard.side()),
        lock.lock_step(waiting, waker, &l1, &r1),
        l1.unlock_step(&guard, &l2, woke),
        l2.lock_step(waiting, later, &l3, &r3),
    ensures
        r1 is Pending,
        woke,
        l2.last_wake() matches Some(receipt) && receipt.waker() == waker,
        r3 matches Poll::Ready(g) && g.side() == waiting && g.value() == guard.value(),
{
}

/// Once a handle is dropped, every poll by the survivor that does not hold
/// the lock succeeds.
pub proof fn lemma_sole_owner<T>(
    lock: BiLock<T>,
    side: Side,
    waker: Waker,
    next: BiLock<T>,
    r: Poll<BiLockGuard<T>>,
)
    requires
        lock.wf(),
        !lock.alive(side.other()),
        lock.holder() != Some(side),
        lock.lock_step(side, waker, &next, &r),
    ensures
        r is Ready,
{
}

} // verus!
