//! Relays desktop notifications to an overlay display over UDP.
//!
//! The verified core: layered configuration, the normalisation of a
//! notification record into a wire message, the snapshot diff of the polling
//! strategy, the event filter of the listener strategy, and the decisions of
//! the UDP sender and of the task supervisor.

pub mod config;
pub mod message;
pub mod normalize;
pub mod polling;
pub mod listener;
pub mod sender;
