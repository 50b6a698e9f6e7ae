//! The response assembler: pure, total functions from the node's internal
//! query results to the externally specified wire shapes.
//!
//! Directly available fields are copied; fields this facade cannot yet
//! derive (block hash, author, miner, total difficulty, uncles, size, full
//! transaction bodies, gas accounting of receipts, logs) are `None`, so a
//! client can tell an unavailable field apart from a genuine zero.

use vstd::prelude::*;

verus! {

use crate::types::BlockData;
use crate::types::RpcBlock;
use crate::types::RpcReceipt;
use crate::types::TransactionStatus;
use crate::types::Uint256;

/// The exact wire block assembled from an internal block body.
pub open spec fn rich_block_spec(block: BlockData) -> RpcBlock {
    RpcBlock {
        hash: None,
        parent_hash: block.parent_hash,
        uncles_hash: None,
        author: None,
        miner: None,
        state_root: block.state_root,
        transactions_root: block.transactions_root,
        receipts_root: block.receipts_root,
        number: Some(block.number),
        gas_used: block.gas_used,
        gas_limit: block.gas_limit,
        extra_data: None,
        logs_bloom: Some(block.logs_bloom),
        timestamp: Uint256 { lo: block.timestamp as u128, hi: 0u128 },
        difficulty: block.difficulty,
        total_difficulty: None,
        seal_fields: None,
        uncles: None,
        transactions: None,
        size: None,
    }
}

/// Assembles the wire block: copies the directly available header fields and
/// leaves every not-yet-derivable field empty. Total: no input is rejected.
pub fn rich_block_build(block: BlockData) -> (r: RpcBlock)
    ensures
        r == rich_block_spec(block),
{
    let timestamp = Uint256::from_u64(block.timestamp);
    RpcBlock {
        hash: None,
        parent_hash: block.parent_hash,
        uncles_hash: None,
        author: None,
        miner: None,
        state_root: block.state_root,
        transactions_root: block.transactions_root,
        receipts_root: block.receipts_root,
        number: Some(block.number),
        gas_used: block.gas_used,
        gas_limit: block.gas_limit,
        extra_data: None,
        logs_bloom: Some(block.logs_bloom),
        timestamp,
        difficulty: block.difficulty,
        total_difficulty: None,
        seal_fields: None,
        uncles: None,
        transactions: None,
        size: None,
    }
}

/// The exact wire receipt assembled from a transaction-status record.
pub open spec fn receipt_spec(status: TransactionStatus) -> RpcReceipt {
    RpcReceipt {
        transaction_hash: Some(status.transaction_hash),
        transaction_index: Some(status.transaction_index),
        block_hash: None,
        from: Some(status.from),
        to: status.to,
        block_number: None,
        cumulative_gas_used: None,
        gas_used: None,
        contract_address: status.contract_address,
        logs: None,
        state_root: None,
        logs_bloom: None,
        status_code: None,
    }
}

/// Assembles the wire receipt: the status record's hash, index, sender,
/// recipient and deployed-contract address carry over; missing optional
/// fields become `None`, never an error. Total: no input is rejected.
pub fn build_receipt(status: TransactionStatus) -> (r: RpcReceipt)
    ensures
        r == receipt_spec(status),
{
    RpcReceipt {
        transaction_hash: Some(status.transaction_hash),
        transaction_index: Some(status.transaction_index),
        block_hash: None,
        from: Some(status.from),
        to: status.to,
        block_number: None,
        cumulative_gas_used: None,
        gas_used: None,
        contract_address: status.contract_address,
        logs: None,
        state_root: None,
        logs_bloom: None,
        status_code: None,
    }
}

} // verus!
