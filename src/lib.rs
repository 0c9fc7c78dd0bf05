//! A minimal future: a handle on the eventual result of a computation that
//! runs on a worker thread of its own, read by polling, by a blocking wait
//! with an optional timeout, or through completion callbacks.
mod awaiter;
mod channel;
pub mod resolution;

pub use awaiter::{shown, Await, Worker};
