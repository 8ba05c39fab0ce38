use vstd::prelude::*;

verus! {

/// The outcome of one attempt to make progress.
#[derive(Debug, Clone, Copy, PartialEq, Eq)]
pub enum Poll<T> {
    /// The computation finished with this value.
    Ready(T),
    /// No progress is possible now; the waker of the context was arranged to
    /// be signalled when it is.
    Pending,
}

impl<T> Poll<T> {
    /// True for `Ready`.
    pub fn is_ready(&self) -> (r: bool)
        ensures
            r == (*self is Ready),
    {
        match self {
            Poll::Ready(_) => true,
            Poll::Pending => false,
        }
    }

    /// True for `Pending`.
    pub fn is_pending(&self) -> (r: bool)
        ensures
            r == (*self is Pending),
    {
        match self {
            Poll::Ready(_) => false,
            Poll::Pending => true,
        }
    }
}

} // verus!
