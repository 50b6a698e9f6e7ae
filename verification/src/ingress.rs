//! The transaction ingress pipeline: decode raw bytes, compute the canonical
//! hash, resolve the canonical head, and judge the pool's answer.
//!
//! Decoding and hashing call the `rlp`, `ethereum` and `sha3` crates; both
//! are functions of the raw bytes alone, so the hash returned to the caller
//! is stable and reproducible from the input, independent of pool state.
//! Conversion and pool submission happen outside this crate; the pool's
//! answer comes back in as a plain value.

use vstd::prelude::*;

verus! {

use crate::error::RpcError;
use crate::types::ChainPosition;
use crate::types::Hash256;

/// Whether `rlp::decode` accepts the bytes as a canonically encoded signed
/// legacy transaction.
pub uninterp spec fn tx_decodes(bytes: Seq<u8>) -> bool;

/// The canonical transaction hash of the transaction the bytes encode: the
/// Keccak-256 digest of the decoded transaction's canonical re-encoding.
pub uninterp spec fn tx_hash_of(bytes: Seq<u8>) -> Seq<u8>;

/// `ethereum::LegacyTransaction`, carried opaquely: the node's conversion
/// capability and the pool consume it outside this crate.
#[verifier::external_type_specification]
#[verifier::external_body]
pub struct ExLegacyTransaction(ethereum::LegacyTransaction);

/// Relies on `rlp::decode` and `rlp::encode` for `ethereum::LegacyTransaction`
/// and on `sha3::Keccak256`: whether the bytes decode, and the digest of the
/// decoded transaction's re-encoding, depend on the input bytes alone; a
/// Keccak-256 digest holds 32 bytes.
#[verifier::external_body]
fn decode_and_hash(bytes: &Vec<u8>) -> (r: Option<(ethereum::LegacyTransaction, Vec<u8>)>)
    ensures
        r is Some <==> tx_decodes(bytes@),
        r matches Some(p) ==> p.1@ == tx_hash_of(bytes@) && p.1@.len() == 32,
{
    match rlp::decode::<ethereum::LegacyTransaction>(&bytes[..]) {
        Ok(tx) => {
            let encoded = rlp::encode(&tx);
            let digest = <sha3::Keccak256 as sha3::Digest>::digest(&encoded);
            Some((tx, digest.as_slice().to_vec()))
        },
        Err(_) => None,
    }
}

/// A submission ready for the pool: the decoded transaction, the canonical
/// hash computed from the raw bytes, and the canonical position it will be
/// submitted at.
pub struct PreparedSubmission {
    pub transaction: ethereum::LegacyTransaction,
    pub hash: Hash256,
    pub position: ChainPosition,
}

/// Steps of the pipeline before the pool is touched, in order: decode the
/// raw bytes (malformed bytes fail immediately, the pool is never reached),
/// compute the canonical hash from the bytes alone, and take the resolved
/// canonical head (a missing head aborts the submission).
pub fn prepare_submission(bytes: &Vec<u8>, head: Option<ChainPosition>) -> (r: Result<
    PreparedSubmission,
    RpcError,
>)
    ensures
        !tx_decodes(bytes@) ==> r == Err::<PreparedSubmission, RpcError>(RpcError::DecodeFailure),
        tx_decodes(bytes@) && head is None ==> r == Err::<PreparedSubmission, RpcError>(
            RpcError::ResolutionFailure,
        ),
        r is Ok <==> tx_decodes(bytes@) && head is Some,
        r matches Ok(p) ==> p.hash@ == tx_hash_of(bytes@) && p.hash.wf() && Some(p.position)
            == head,
{
    match decode_and_hash(bytes) {
        None => Err(RpcError::DecodeFailure),
        Some((transaction, digest)) => match head {
            None => Err(RpcError::ResolutionFailure),
            Some(position) => Ok(
                PreparedSubmission { transaction, hash: Hash256 { bytes: digest }, position },
            ),
        },
    }
}

/// The single resolution of the submission future: on acceptance the caller
/// receives the hash computed at preparation — never one the pool computed;
/// on rejection, one submission failure, with no retry.
pub fn submission_outcome(prepared_hash: Hash256, pool_accepted: bool) -> (r: Result<
    Hash256,
    RpcError,
>)
    ensures
        pool_accepted ==> r == Ok::<Hash256, RpcError>(prepared_hash),
        !pool_accepted ==> r == Err::<Hash256, RpcError>(RpcError::SubmissionFailure),
{
    if pool_accepted {
        Ok(prepared_hash)
    } else {
        Err(RpcError::SubmissionFailure)
    }
}

} // verus!
