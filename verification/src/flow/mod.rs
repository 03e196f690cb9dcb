//! Flow control: per-connection backpressure.

pub mod backpressure;

pub use backpressure::{BackpressureAction, BackpressureController, BackpressureStrategy, is_volatile};
