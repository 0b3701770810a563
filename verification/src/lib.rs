//! A periodically updated scalar value, published thread-safely to a
//! pull-based reader.
//!
//! The library models a counter that a background ticker increments once per
//! fixed interval, a cooperative shutdown flag that stops the ticker, and the
//! pair of data-source adapters through which an external protocol stack
//! reads (and is refused writes to) the counter.

pub mod counter;
pub mod data_source;
pub mod shutdown;
pub mod ticker;
