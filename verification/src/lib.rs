//! The on-chain state layer of a virtual-machine-hosted contract: a durable,
//! append-only registry of minted records with per-owner accounting, a
//! deterministic weak-entropy index selector, and a transaction-scoped
//! transient key-value store that passes ephemeral state across nested calls
//! within one transaction.
//!
//! The host-bound primitives of the hosting virtual machine (durable storage
//! cells, the transient-slot hooks, the caller address, the block timestamp,
//! the nested-call capability) appear here as explicit in-memory state and as
//! plain values handed to each entry point, so the whole state layer is
//! verified without a virtual-machine host.

pub mod addresses;
pub mod balances;
pub mod bytes32;
pub mod entries;
pub mod ledger;
pub mod owners;
pub mod scratchpad;
pub mod selector;
pub mod transient;
