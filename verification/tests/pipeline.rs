//! Tests of the transaction ingress pipeline: decoding, canonical hashing,
//! head resolution, pool outcome judgement, and the submit-then-query
//! scenario.

use eth_rpc::api::EthApi;
use eth_rpc::error::RpcError;
use eth_rpc::ingress::submission_outcome;
use eth_rpc::types::{Address, ChainPosition, Hash256, TransactionStatus};

use ethereum_types::{H160, U256};
use sha3::{Digest, Keccak256};

/// A canonically encoded signed legacy transaction: the nine RLP fields in
/// order, with a structurally valid signature (v = 27, r = s = 1).
fn sample_raw_tx() -> Vec<u8> {
    let mut s = rlp::RlpStream::new_list(9);
    s.append(&U256::from(1u64)); // nonce
    s.append(&U256::from(20u64)); // gas price
    s.append(&U256::from(21000u64)); // gas limit
    s.append(&H160::from_low_u64_be(5)); // recipient
    s.append(&U256::from(7u64)); // value
    s.append(&Vec::<u8>::new()); // input
    s.append(&27u64); // v
    s.append(&U256::from(1u64)); // r
    s.append(&U256::from(1u64)); // s
    s.out().to_vec()
}

fn head(height: u64) -> ChainPosition {
    ChainPosition { hash: Hash256 { bytes: vec![0xab; 32] }, height }
}

#[test]
fn same_bytes_same_hash_across_instances() {
    let bytes = sample_raw_tx();
    let first = EthApi::new();
    let second = EthApi::new();
    let p1 = first
        .send_raw_transaction(&bytes, Some(head(3)))
        .expect("well-formed bytes are accepted");
    let p2 = second
        .send_raw_transaction(&bytes, Some(head(9)))
        .expect("well-formed bytes are accepted");
    assert_eq!(p1.hash, p2.hash);
}

#[test]
fn prepared_hash_is_keccak_of_canonical_encoding() {
    let bytes = sample_raw_tx();
    let api = EthApi::new();
    let prepared = api
        .send_raw_transaction(&bytes, Some(head(1)))
        .expect("well-formed bytes are accepted");
    // The sample encoding is canonical, so the re-encoding equals the input
    // and the canonical hash is the Keccak-256 digest of the input bytes.
    let expected = Keccak256::digest(&bytes);
    assert_eq!(prepared.hash.bytes.as_slice(), expected.as_slice());
    assert_eq!(prepared.hash.bytes.len(), 32);
}

#[test]
fn prepared_position_is_the_resolved_head() {
    let bytes = sample_raw_tx();
    let api = EthApi::new();
    let prepared = api
        .send_raw_transaction(&bytes, Some(head(11)))
        .expect("well-formed bytes are accepted");
    assert_eq!(prepared.position, head(11));
}

#[test]
fn garbage_bytes_fail_decode() {
    let api = EthApi::new();
    let bytes = vec![0x01, 0x02, 0x03];
    let r = api.send_raw_transaction(&bytes, Some(head(1)));
    assert_eq!(r.err(), Some(RpcError::DecodeFailure));
}

#[test]
fn truncated_bytes_fail_decode() {
    let api = EthApi::new();
    let mut bytes = sample_raw_tx();
    bytes.pop();
    let r = api.send_raw_transaction(&bytes, Some(head(1)));
    assert_eq!(r.err(), Some(RpcError::DecodeFailure));
}

#[test]
fn empty_bytes_fail_decode() {
    let api = EthApi::new();
    let r = api.send_raw_transaction(&Vec::new(), Some(head(1)));
    assert_eq!(r.err(), Some(RpcError::DecodeFailure));
}

#[test]
fn malformed_bytes_fail_before_head_resolution() {
    // Decode failure is reported even when no head is available: the bytes
    // are rejected before anything else is consulted.
    let api = EthApi::new();
    let bytes = vec![0xc0];
    let r = api.send_raw_transaction(&bytes, None);
    assert_eq!(r.err(), Some(RpcError::DecodeFailure));
}

#[test]
fn missing_head_aborts_submission() {
    let api = EthApi::new();
    let bytes = sample_raw_tx();
    let r = api.send_raw_transaction(&bytes, None);
    assert_eq!(r.err(), Some(RpcError::ResolutionFailure));
}

#[test]
fn pool_acceptance_returns_prepared_hash() {
    let hash = Hash256 { bytes: vec![0x11; 32] };
    let r = submission_outcome(hash.clone(), true);
    assert_eq!(r, Ok(hash));
}

#[test]
fn pool_rejection_is_submission_failure() {
    let hash = Hash256 { bytes: vec![0x11; 32] };
    let r = submission_outcome(hash, false);
    assert_eq!(r.err(), Some(RpcError::SubmissionFailure));
}

#[test]
fn submit_then_query_receipt_scenario() {
    let api = EthApi::new();
    let bytes = sample_raw_tx();
    let prepared = api
        .send_raw_transaction(&bytes, Some(head(4)))
        .expect("well-formed bytes are accepted");
    let hash = prepared.hash;

    // Before the transaction is processed the engine knows no status: the
    // receipt query returns the empty result, not an error.
    let pending = api.transaction_receipt(Some(head(4)), Some(None));
    assert_eq!(pending, Ok(None));

    // After processing, the engine's status record carries the same hash;
    // the assembled receipt reports it unchanged.
    let status = TransactionStatus {
        transaction_hash: hash.clone(),
        transaction_index: 0,
        from: Address { bytes: vec![0x22; 20] },
        to: None,
        contract_address: None,
    };
    let settled = api
        .transaction_receipt(Some(head(5)), Some(Some(status)))
        .expect("a status record assembles")
        .expect("a receipt is present");
    assert_eq!(settled.transaction_hash, Some(hash));
}
