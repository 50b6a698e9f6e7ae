//! The chain view resolver: turns an externally supplied block reference
//! into a concrete chain position, or a concrete height for block-scoped
//! lookups.
//!
//! Only the `Latest` tag is implemented for state read paths; `Earliest`,
//! `Pending` and concrete past heights fail fast with an unsupported-feature
//! error, so a caller can tell "no such concept yet" apart from "found
//! nothing". The canonical head itself is reported by the chain selector
//! outside this crate; its answer comes in as a plain value.

use vstd::prelude::*;

verus! {

use crate::error::RpcError;
use crate::types::BlockReference;
use crate::types::ChainPosition;

/// Whether a state query's block reference is admitted: only the default
/// (absent) reference or the `Latest` tag. Historical state queries are out
/// of scope.
pub open spec fn admits_latest_only(number: Option<BlockReference>) -> bool {
    match number {
        None => true,
        Some(n) => n == BlockReference::Latest,
    }
}

/// What the latest-only guard returns: accepted, or the unsupported-feature
/// error — never silently the present state for a past height.
pub open spec fn check_latest_only_spec(number: Option<BlockReference>) -> Result<(), RpcError> {
    if admits_latest_only(number) {
        Ok(())
    } else {
        Err(RpcError::UnsupportedFeature)
    }
}

/// The guard on state read paths (balance, nonce, code): any reference other
/// than an absent one or `Latest` is rejected as unsupported.
pub fn check_latest_only(number: &Option<BlockReference>) -> (r: Result<(), RpcError>)
    ensures
        r == check_latest_only_spec(*number),
{
    match number {
        None => Ok(()),
        Some(BlockReference::Latest) => Ok(()),
        Some(_) => Err(RpcError::UnsupportedFeature),
    }
}

/// What head resolution returns: the selector's answer, or a resolution
/// failure when it reported no canonical head.
pub open spec fn resolve_latest_spec(head: Option<ChainPosition>) -> Result<
    ChainPosition,
    RpcError,
> {
    match head {
        Some(h) => Ok(h),
        None => Err(RpcError::ResolutionFailure),
    }
}

/// Resolves `Latest` from the chain selector's answer. A missing head is an
/// internal error, never a panic.
pub fn resolve_latest(head: Option<ChainPosition>) -> (r: Result<ChainPosition, RpcError>)
    ensures
        r == resolve_latest_spec(head),
{
    match head {
        Some(h) => Ok(h),
        None => Err(RpcError::ResolutionFailure),
    }
}

/// What the resolver returns for state read paths: `Latest` resolves to the
/// selector's head, every other reference is unsupported.
pub open spec fn resolve_spec(reference: BlockReference, head: Option<ChainPosition>) -> Result<
    ChainPosition,
    RpcError,
> {
    match reference {
        BlockReference::Latest => resolve_latest_spec(head),
        _ => Err(RpcError::UnsupportedFeature),
    }
}

/// The resolver's full contract for state read paths.
pub fn resolve(reference: BlockReference, head: Option<ChainPosition>) -> (r: Result<
    ChainPosition,
    RpcError,
>)
    ensures
        r == resolve_spec(reference, head),
{
    match reference {
        BlockReference::Latest => resolve_latest(head),
        _ => Err(RpcError::UnsupportedFeature),
    }
}

/// What height resolution returns for block-scoped lookups: a concrete
/// number is used as it stands, `Latest` is the head's current height, any
/// other tag is unsupported.
pub open spec fn resolve_height_spec(number: BlockReference, head_height: u64) -> Result<
    u64,
    RpcError,
> {
    match number {
        BlockReference::Number(n) => Ok(n),
        BlockReference::Latest => Ok(head_height),
        _ => Err(RpcError::UnsupportedFeature),
    }
}

/// Height resolution for block-by-number style lookups.
pub fn resolve_height(number: BlockReference, head_height: u64) -> (r: Result<u64, RpcError>)
    ensures
        r == resolve_height_spec(number, head_height),
{
    match number {
        BlockReference::Number(n) => Ok(n),
        BlockReference::Latest => Ok(head_height),
        _ => Err(RpcError::UnsupportedFeature),
    }
}

} // verus!
