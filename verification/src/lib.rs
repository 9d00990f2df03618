//! Core of a live video capture source: the session lifecycle state machine,
//! the single-slot frame mailbox bridging the asynchronous capture callback
//! and the pulling consumer, the bounded-wait pull protocol, and the
//! timestamp/duration derivation for produced buffers.
//!
//! The pipeline framework and the device transport are external collaborators:
//! they call into this core and perform the actual I/O, feeding the outcomes
//! of device operations and delivered frames back in as plain values.

pub mod errors;
pub mod format;
pub mod mailbox;
pub mod producer;
pub mod session;
