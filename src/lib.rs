//! A cooperative asynchronous-computation core: the poll protocol for
//! futures, streams and sinks, wakers, a two-handle split lock, and a set
//! of combinator state machines built on them.

pub mod poll;
pub mod task;
pub mod future;
pub mod stream;
pub mod sink;
pub mod lock;
pub mod io;
