//! An append-and-update ledger for blockchain token transfers.
//!
//! Every transfer is recorded twice under one atomic unit of work: once as a
//! mutable transaction record (the current state of the transfer) and once as
//! an event record (a fact derived from the just-written transaction row).
//! Three write protocols share the machinery: outbound create, outbound
//! update on confirmation, and inbound create. Two read-only lookups find a
//! record by message hash or by transaction hash, scoped to a service
//! identity.

pub mod events;
pub mod laws;
pub mod ledger;
pub mod models;
