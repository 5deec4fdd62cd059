//! The core of a small record service: transactions are created under fresh
//! identifiers, listed from an ordered key-value store, and streamed to
//! subscribers as the store reports each insertion.
//!
//! The store itself, the transport and the tasks live outside this crate.
//! Here are the rules they follow: what a record is, under which key it is
//! kept, how a scan of the store becomes a listing, and how one subscription
//! turns the store's change events into deliveries.

pub mod config;
pub mod fault;
pub mod key;
pub mod record;
pub mod service;
pub mod subscription;
