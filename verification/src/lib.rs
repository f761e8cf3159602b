//! A kernel-probe handler core: one observability event per invocation of a
//! traced kernel function, emitted through a bounded, non-blocking channel,
//! with the outcome reported as an integer status code.

pub mod channel;
pub mod event;
pub mod probe;
