//! A poll-driven adapter around one SCTP association.
//!
//! The protocol engine is `sctp-proto`; this crate owns the bookkeeping around
//! it: the registry of open streams, the translation of engine output into one
//! discrete event per poll, and the de-duplication of timer deadlines.

pub mod event;
pub mod registry;
pub mod engine;
pub mod translate;
pub mod adapter;
pub mod laws;
