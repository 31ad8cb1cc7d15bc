//! Event queue implementations.
//!
//! An event queue holds events with the time they happen at. Events come out
//! in order of time, and of events with the same time, the one pushed last
//! comes out first. The "current time" of a queue is the time of the event
//! most recently retrieved from it; no event may be pushed with a time before it.

pub mod radix;
pub mod order;


