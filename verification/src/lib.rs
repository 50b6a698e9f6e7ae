//! An Ethereum-compatible JSON-RPC facade for a ledger node.
//!
//! The crate translates the externally specified Ethereum RPC data model
//! (block references with special tags, hashes, receipts, rich blocks) into
//! decisions over the answers of three collaborators: a chain selector that
//! reports the canonical head, a runtime query engine, and a transaction
//! pool. The collaborators themselves live outside this crate; every
//! decision, translation and error-taxonomy rule is verified here.

pub mod api;
pub mod assembler;
pub mod error;
pub mod ingress;
pub mod laws;
pub mod resolver;
pub mod types;

use vstd::prelude::*;

verus! {

/// A wire-level error code: the facade reports every internal failure under
/// the single JSON-RPC "internal error" code.
pub const INTERNAL_ERROR_CODE: i64 = -32603;

} // verus!
