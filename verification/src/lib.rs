//! Coordination of a fixed pool of processing units before an operating
//! system is running: which units exist, which of them are enabled and
//! healthy, which single unit holds the bootstrap role, and how work is
//! dispatched to the others under a timeout.
//!
//! Contracts are stated over the registry's view, a sequence of
//! [`unit::ProcessingUnit`] records, and over the spec functions of
//! [`model`]; what follows from them for every use of a registry is proved
//! in [`laws`]. Three things are taken on trust, each marked where it
//! stands: the two readings of firmware status words in [`firmware`], and
//! the identifier type that [`hii`] stores without looking into it.

pub mod bsp;
pub mod command;
pub mod dispatch;
pub mod error;
pub mod firmware;
pub mod hii;
pub mod laws;
pub mod model;
pub mod registry;
pub mod service;
pub mod unit;
