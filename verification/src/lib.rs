//! Notify-channel bridge: a producer that periodically emits counter values
//! into a FIFO work queue and raises a coalescing wake signal, and a consumer
//! that drains the queue on wake-up with a bounded wait.
//!
//! The bridge is modelled and verified in `model`, `wake`, `logline` and
//! `ports`; `bridge` carries the same steps over a real multi-producer
//! channel.

pub mod bridge;
pub mod logline;
pub mod model;
pub mod ports;
pub mod wake;

pub use wake::WakeSignal;
