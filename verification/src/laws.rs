//! The facade's cross-cutting guarantees, stated and proved over the same
//! spec functions that the method contracts use.

use vstd::prelude::*;

verus! {

use crate::api::account_view_spec;
use crate::api::balance_spec;
use crate::api::block_by_hash_spec;
use crate::api::block_by_number_spec;
use crate::api::chain_id_spec;
use crate::api::code_at_spec;
use crate::api::transaction_count_spec;
use crate::api::transaction_receipt_spec;
use crate::error::RpcError;
use crate::ingress::tx_hash_of;
use crate::resolver::resolve_height_spec;
use crate::types::AccountBasic;
use crate::types::AccountView;
use crate::types::BlockData;
use crate::types::BlockReference;
use crate::types::ChainPosition;
use crate::types::Hash256;
use crate::types::RpcBlock;
use crate::types::TransactionStatus;
use crate::types::Uint256;

/// Decoding followed by hashing is deterministic: the canonical hash is a
/// function of the raw bytes alone, so two independent pipeline instances
/// given the same bytes report the same transaction hash. The premises are
/// exactly what `ingress::prepare_submission` ensures of each instance.
pub proof fn lemma_submission_hash_deterministic(bytes: Seq<u8>, h1: Hash256, h2: Hash256)
    requires
        h1@ == tx_hash_of(bytes),
        h2@ == tx_hash_of(bytes),
    ensures
        h1@ == h2@,
{
}

/// A block-by-number lookup under the `Latest` tag decides exactly as one
/// under the head's current concrete height: when no new block has been
/// produced between the calls (the head and the engine's answer are
/// unchanged), the results are identical.
pub proof fn lemma_latest_matches_current_height(
    head: ChainPosition,
    lookup: Option<Option<BlockData>>,
)
    ensures
        block_by_number_spec(BlockReference::Latest, Some(head), lookup) == block_by_number_spec(
            BlockReference::Number(head.height),
            Some(head),
            lookup,
        ),
{
}

/// A block reference that resolves but names no existing block yields the
/// empty result, never an error — by hash and by number alike.
pub proof fn lemma_absent_block_is_empty_result(number: BlockReference, head: ChainPosition)
    requires
        resolve_height_spec(number, head.height) is Ok,
    ensures
        block_by_hash_spec(Some(head), Some(None)) == Ok::<Option<RpcBlock>, RpcError>(None),
        block_by_number_spec(number, Some(head), Some(None)) == Ok::<Option<RpcBlock>, RpcError>(
            None,
        ),
{
}

/// An account view at `Latest` carries a non-negative balance and nonce —
/// the quantities are unsigned by construction.
pub proof fn lemma_account_view_nonnegative(
    number: Option<BlockReference>,
    head: Option<ChainPosition>,
    account: Option<AccountBasic>,
    code: Option<Vec<u8>>,
)
    ensures
        account_view_spec(number, head, account, code) matches Ok(v) ==> v.balance.as_nat() >= 0
            && v.nonce.as_nat() >= 0,
{
}

/// Repeated account queries without an intervening state change — the same
/// head and the same engine answers — return identical values. The premises
/// are exactly what `api::EthApi::account_view` ensures of each call.
pub proof fn lemma_account_view_repeatable(
    number: Option<BlockReference>,
    head: Option<ChainPosition>,
    account: Option<AccountBasic>,
    code: Option<Vec<u8>>,
    r1: Result<AccountView, RpcError>,
    r2: Result<AccountView, RpcError>,
)
    requires
        r1 == account_view_spec(number, head, account, code),
        r2 == account_view_spec(number, head, account, code),
    ensures
        r1 == r2,
{
}

/// A historical (non-`Latest`) balance, nonce or code query fails with the
/// unsupported-feature error — whatever the address, the head, or the
/// engine's answer, so no present-state data is ever passed off as history.
pub proof fn lemma_historical_state_query_unsupported(
    number: BlockReference,
    head: Option<ChainPosition>,
    account: Option<AccountBasic>,
    code: Option<Vec<u8>>,
)
    requires
        number != BlockReference::Latest,
    ensures
        balance_spec(Some(number), head, account) == Err::<Uint256, RpcError>(
            RpcError::UnsupportedFeature,
        ),
        transaction_count_spec(Some(number), head, account) == Err::<Uint256, RpcError>(
            RpcError::UnsupportedFeature,
        ),
        code_at_spec(Some(number), head, code) == Err::<Vec<u8>, RpcError>(
            RpcError::UnsupportedFeature,
        ),
        account_view_spec(Some(number), head, account, code) == Err::<AccountView, RpcError>(
            RpcError::UnsupportedFeature,
        ),
{
}

/// A receipt assembled for a processed transaction reports that
/// transaction's own hash: querying by the hash the ingress pipeline
/// returned yields a receipt whose `transaction_hash` equals it.
pub proof fn lemma_receipt_reports_transaction_hash(head: ChainPosition, status: TransactionStatus)
    ensures
        transaction_receipt_spec(Some(head), Some(Some(status))) matches Ok(r) && r matches Some(
            receipt,
        ) && receipt.transaction_hash == Some(status.transaction_hash),
{
}

/// The chain id is stable across concurrent calls against an unchanged
/// chain: two calls that observe the same head and engine answer return the
/// same value. The premises are exactly what `api::EthApi::chain_id`
/// ensures of each call.
pub proof fn lemma_chain_id_stable(
    head: Option<ChainPosition>,
    engine_id: Option<u64>,
    r1: Result<Option<u64>, RpcError>,
    r2: Result<Option<u64>, RpcError>,
)
    requires
        r1 == chain_id_spec(head, engine_id),
        r2 == chain_id_spec(head, engine_id),
    ensures
        r1 == r2,
{
}

} // verus!
