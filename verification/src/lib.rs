//! Verified core of a small multi-threaded async executor with an I/O reactor.
//!
//! The library holds the bookkeeping that the executor and the reactor decide on:
//! task identifiers, the table of tasks parked between polls, the table of wakers
//! that the reactor wakes on I/O readiness, the registration state of a
//! non-blocking stream and the decision a worker takes after polling a task.
//! Threads, channels, the operating system's poller and the raw waker live
//! around it.
use vstd::prelude::*;

pub mod executor;
pub mod slots;
pub mod stream;
pub mod task;

pub use executor::{Task, RunTimeDead};
pub use task::{TaskId, TaskIdSource};
