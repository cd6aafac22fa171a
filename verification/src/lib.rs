//! A single-shot wait group: a coordinator registers workers and blocks until
//! every one of them has released its handle.

pub mod jitter;
pub mod tally;
pub mod sync;
pub mod group;

pub use group::{Guard, NotGuard, WaitGroup, WaitGroupError};
