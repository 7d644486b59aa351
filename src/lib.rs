//! Streaming of IQ samples from an RTL-SDR dongle: the sample converter, the
//! bounded sample buffer between the acquisition thread and the consumer, the
//! device lifecycle state machine and the consumer-facing stream control.
//!
//! The driver itself is reached from outside this library: each lifecycle step
//! is decided here, performed by the caller, and its status handed back.

pub mod buffer;
pub mod device;
pub mod error;
pub mod sample;
pub mod stream;
