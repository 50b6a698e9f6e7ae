//! Tests of the query methods: guards, head and height resolution, response
//! assembly, and the stubbed endpoints.

use eth_rpc::api::EthApi;
use eth_rpc::error::RpcError;
use eth_rpc::resolver::{check_latest_only, resolve, resolve_height, resolve_latest};
use eth_rpc::types::{
    AccountBasic, Address, BlockData, BlockReference, CallRequest, ChainPosition, Filter, Hash256,
    Uint256,
};

fn head(height: u64) -> ChainPosition {
    ChainPosition { hash: Hash256 { bytes: vec![0xcd; 32] }, height }
}

fn sample_block() -> BlockData {
    BlockData {
        parent_hash: Hash256 { bytes: vec![0x01; 32] },
        state_root: Hash256 { bytes: vec![0x02; 32] },
        transactions_root: Hash256 { bytes: vec![0x03; 32] },
        receipts_root: Hash256 { bytes: vec![0x04; 32] },
        number: Uint256 { lo: 42, hi: 0 },
        gas_used: Uint256 { lo: 1000, hi: 0 },
        gas_limit: Uint256 { lo: 8000000, hi: 0 },
        timestamp: 1234567,
        difficulty: Uint256 { lo: 9, hi: 0 },
        logs_bloom: vec![0; 256],
    }
}

fn sample_account() -> AccountBasic {
    AccountBasic {
        balance: Uint256 { lo: 500, hi: 0 },
        nonce: Uint256 { lo: 3, hi: 0 },
    }
}

#[test]
fn resolver_latest_returns_head() {
    assert_eq!(resolve_latest(Some(head(8))), Ok(head(8)));
    assert_eq!(resolve_latest(None), Err(RpcError::ResolutionFailure));
}

#[test]
fn resolver_rejects_unsupported_tags() {
    assert_eq!(
        resolve(BlockReference::Earliest, Some(head(8))),
        Err(RpcError::UnsupportedFeature)
    );
    assert_eq!(
        resolve(BlockReference::Pending, Some(head(8))),
        Err(RpcError::UnsupportedFeature)
    );
    assert_eq!(
        resolve(BlockReference::Number(2), Some(head(8))),
        Err(RpcError::UnsupportedFeature)
    );
    assert_eq!(resolve(BlockReference::Latest, Some(head(8))), Ok(head(8)));
}

#[test]
fn height_resolution_rules() {
    assert_eq!(resolve_height(BlockReference::Number(9), 50), Ok(9));
    assert_eq!(resolve_height(BlockReference::Latest, 50), Ok(50));
    assert_eq!(
        resolve_height(BlockReference::Earliest, 50),
        Err(RpcError::UnsupportedFeature)
    );
    assert_eq!(
        resolve_height(BlockReference::Pending, 50),
        Err(RpcError::UnsupportedFeature)
    );
}

#[test]
fn latest_only_guard_rules() {
    assert_eq!(check_latest_only(&None), Ok(()));
    assert_eq!(check_latest_only(&Some(BlockReference::Latest)), Ok(()));
    assert_eq!(
        check_latest_only(&Some(BlockReference::Number(1))),
        Err(RpcError::UnsupportedFeature)
    );
}

#[test]
fn chain_id_value() {
    let api = EthApi::new();
    assert_eq!(api.chain_id(Some(head(1)), Some(42)), Ok(Some(42)));
    assert_eq!(api.chain_id(None, Some(42)), Err(RpcError::ResolutionFailure));
    assert_eq!(api.chain_id(Some(head(1)), None), Err(RpcError::QueryFailure));
}

#[test]
fn chain_id_stable_across_calls_on_unchanged_chain() {
    let first = EthApi::new();
    let second = EthApi::new();
    let r1 = first.chain_id(Some(head(6)), Some(77));
    let r2 = second.chain_id(Some(head(6)), Some(77));
    assert_eq!(r1, r2);
    assert_eq!(r1, Ok(Some(77)));
}

#[test]
fn gas_price_value() {
    let api = EthApi::new();
    let price = Uint256 { lo: 1_000_000_000, hi: 0 };
    assert_eq!(api.gas_price(Some(head(1)), Some(price)), Ok(price));
    assert_eq!(api.gas_price(None, Some(price)), Err(RpcError::ResolutionFailure));
    assert_eq!(api.gas_price(Some(head(1)), None), Err(RpcError::QueryFailure));
}

#[test]
fn author_value() {
    let api = EthApi::new();
    let author = Address { bytes: vec![0x33; 20] };
    assert_eq!(api.author(Some(head(1)), Some(author.clone())), Ok(author));
    assert_eq!(api.author(None, None), Err(RpcError::ResolutionFailure));
    assert_eq!(api.author(Some(head(1)), None), Err(RpcError::QueryFailure));
}

#[test]
fn block_number_is_head_height() {
    let api = EthApi::new();
    assert_eq!(api.block_number(Some(head(1234))), Ok(Uint256 { lo: 1234, hi: 0 }));
    assert_eq!(api.block_number(None), Err(RpcError::ResolutionFailure));
}

#[test]
fn balance_at_latest() {
    let api = EthApi::new();
    let r = api.balance(Some(BlockReference::Latest), Some(head(1)), Some(sample_account()));
    assert_eq!(r, Ok(Uint256 { lo: 500, hi: 0 }));
    let r = api.balance(None, Some(head(1)), Some(sample_account()));
    assert_eq!(r, Ok(Uint256 { lo: 500, hi: 0 }));
    assert_eq!(
        api.balance(None, None, Some(sample_account())),
        Err(RpcError::ResolutionFailure)
    );
    assert_eq!(api.balance(None, Some(head(1)), None), Err(RpcError::QueryFailure));
}

#[test]
fn nonce_at_latest() {
    let api = EthApi::new();
    let r = api.transaction_count(None, Some(head(1)), Some(sample_account()));
    assert_eq!(r, Ok(Uint256 { lo: 3, hi: 0 }));
}

#[test]
fn code_at_latest() {
    let api = EthApi::new();
    let r = api.code_at(None, Some(head(1)), Some(vec![0x60, 0x60]));
    assert_eq!(r, Ok(vec![0x60, 0x60]));
    assert_eq!(api.code_at(None, Some(head(1)), None), Err(RpcError::QueryFailure));
}

#[test]
fn historical_queries_unsupported_regardless_of_answers() {
    let api = EthApi::new();
    for reference in [
        BlockReference::Number(7),
        BlockReference::Earliest,
        BlockReference::Pending,
    ] {
        assert_eq!(
            api.balance(Some(reference), Some(head(9)), Some(sample_account())),
            Err(RpcError::UnsupportedFeature)
        );
        assert_eq!(
            api.transaction_count(Some(reference), Some(head(9)), Some(sample_account())),
            Err(RpcError::UnsupportedFeature)
        );
        assert_eq!(
            api.code_at(Some(reference), Some(head(9)), Some(Vec::new())),
            Err(RpcError::UnsupportedFeature)
        );
        assert_eq!(
            api.account_view(Some(reference), Some(head(9)), Some(sample_account()), Some(Vec::new())),
            Err(RpcError::UnsupportedFeature)
        );
    }
}

#[test]
fn account_view_repeated_calls_identical() {
    let api = EthApi::new();
    let r1 = api.account_view(None, Some(head(2)), Some(sample_account()), Some(vec![0xfe]));
    let r2 = api.account_view(None, Some(head(2)), Some(sample_account()), Some(vec![0xfe]));
    assert_eq!(r1, r2);
    let view = r1.expect("complete answers assemble");
    assert_eq!(view.balance, Uint256 { lo: 500, hi: 0 });
    assert_eq!(view.nonce, Uint256 { lo: 3, hi: 0 });
    assert_eq!(view.code, vec![0xfe]);
}

#[test]
fn account_view_partial_answer_is_query_failure() {
    let api = EthApi::new();
    let r = api.account_view(None, Some(head(2)), Some(sample_account()), None);
    assert_eq!(r, Err(RpcError::QueryFailure));
    let r = api.account_view(None, Some(head(2)), None, Some(Vec::new()));
    assert_eq!(r, Err(RpcError::QueryFailure));
}

#[test]
fn block_by_number_latest_equals_current_height() {
    let api = EthApi::new();
    let by_latest =
        api.block_by_number(BlockReference::Latest, Some(head(42)), Some(Some(sample_block())));
    let by_height = api.block_by_number(
        BlockReference::Number(42),
        Some(head(42)),
        Some(Some(sample_block())),
    );
    assert_eq!(by_latest, by_height);
}

#[test]
fn block_by_number_assembles_wire_block() {
    let api = EthApi::new();
    let block = api
        .block_by_number(BlockReference::Latest, Some(head(42)), Some(Some(sample_block())))
        .expect("latest resolves")
        .expect("the block exists");
    assert_eq!(block.parent_hash, Hash256 { bytes: vec![0x01; 32] });
    assert_eq!(block.state_root, Hash256 { bytes: vec![0x02; 32] });
    assert_eq!(block.transactions_root, Hash256 { bytes: vec![0x03; 32] });
    assert_eq!(block.receipts_root, Hash256 { bytes: vec![0x04; 32] });
    assert_eq!(block.number, Some(Uint256 { lo: 42, hi: 0 }));
    assert_eq!(block.gas_used, Uint256 { lo: 1000, hi: 0 });
    assert_eq!(block.gas_limit, Uint256 { lo: 8000000, hi: 0 });
    assert_eq!(block.timestamp, Uint256 { lo: 1234567, hi: 0 });
    assert_eq!(block.difficulty, Uint256 { lo: 9, hi: 0 });
    assert_eq!(block.logs_bloom, Some(vec![0; 256]));
    // Not-yet-derivable fields are reported as absent, not as zeros.
    assert_eq!(block.hash, None);
    assert_eq!(block.uncles_hash, None);
    assert_eq!(block.author, None);
    assert_eq!(block.miner, None);
    assert_eq!(block.extra_data, None);
    assert_eq!(block.total_difficulty, None);
    assert_eq!(block.seal_fields, None);
    assert_eq!(block.uncles, None);
    assert_eq!(block.transactions, None);
    assert_eq!(block.size, None);
}

#[test]
fn absent_block_is_empty_result_not_error() {
    let api = EthApi::new();
    assert_eq!(api.block_by_hash(Some(head(1)), Some(None)), Ok(None));
    assert_eq!(api.block_by_hash(Some(head(1)), None), Ok(None));
    assert_eq!(
        api.block_by_number(BlockReference::Number(999), Some(head(1)), Some(None)),
        Ok(None)
    );
    assert_eq!(
        api.block_by_number(BlockReference::Latest, Some(head(1)), None),
        Ok(None)
    );
}

#[test]
fn block_by_number_unsupported_tag() {
    let api = EthApi::new();
    assert_eq!(
        api.block_by_number(BlockReference::Pending, Some(head(1)), Some(Some(sample_block()))),
        Err(RpcError::UnsupportedFeature)
    );
}

#[test]
fn block_lookup_requires_head() {
    let api = EthApi::new();
    assert_eq!(
        api.block_by_hash(None, Some(Some(sample_block()))),
        Err(RpcError::ResolutionFailure)
    );
    assert_eq!(
        api.block_by_number(BlockReference::Number(1), None, Some(Some(sample_block()))),
        Err(RpcError::ResolutionFailure)
    );
}

#[test]
fn block_transaction_count_rules() {
    let api = EthApi::new();
    assert_eq!(
        api.block_transaction_count_by_number(BlockReference::Latest, Some(head(1)), Some(Some(3))),
        Ok(Some(3))
    );
    assert_eq!(
        api.block_transaction_count_by_number(BlockReference::Number(5), Some(head(1)), Some(None)),
        Ok(None)
    );
    // A failed engine lookup is the empty result for this method.
    assert_eq!(
        api.block_transaction_count_by_number(BlockReference::Latest, Some(head(1)), None),
        Ok(None)
    );
    assert_eq!(
        api.block_transaction_count_by_number(BlockReference::Pending, Some(head(1)), Some(Some(3))),
        Err(RpcError::UnsupportedFeature)
    );
}

#[test]
fn trivial_endpoint_values() {
    let api = EthApi::new();
    assert_eq!(api.hashrate(), Ok(Uint256 { lo: 0, hi: 0 }));
    assert_eq!(api.is_mining(), Ok(false));
    assert_eq!(api.accounts(), Ok(Vec::new()));
    assert_eq!(api.is_listening(), Ok(true));
    assert_eq!(api.version(), Ok(String::from("2.0")));
    assert_eq!(
        api.block_uncles_count_by_hash(Hash256 { bytes: vec![0; 32] }),
        Ok(Uint256 { lo: 0, hi: 0 })
    );
    assert_eq!(
        api.block_uncles_count_by_number(BlockReference::Latest),
        Ok(Uint256 { lo: 0, hi: 0 })
    );
    assert_eq!(
        api.uncle_by_block_hash_and_index(Hash256 { bytes: vec![0; 32] }, 0),
        Ok(None)
    );
    assert_eq!(
        api.uncle_by_block_number_and_index(BlockReference::Latest, 0),
        Ok(None)
    );
}

#[test]
fn work_is_placeholder_package() {
    let api = EthApi::new();
    let work = api.work().expect("the placeholder package is returned");
    assert_eq!(work.pow_hash, Hash256 { bytes: vec![0; 32] });
    assert_eq!(work.seed_hash, Hash256 { bytes: vec![0; 32] });
    assert_eq!(work.target, Hash256 { bytes: vec![0; 32] });
    assert_eq!(work.number, None);
}

#[test]
fn stubbed_endpoints_report_unsupported() {
    let api = EthApi::new();
    assert_eq!(api.protocol_version(), Err(RpcError::UnsupportedFeature));
    assert_eq!(api.syncing(), Err(RpcError::UnsupportedFeature));
    assert_eq!(
        api.account_proof(Address { bytes: vec![0; 20] }, Vec::new(), None),
        Err(RpcError::UnsupportedFeature)
    );
    assert_eq!(
        api.storage_at(Address { bytes: vec![0; 20] }, Uint256 { lo: 0, hi: 0 }, None),
        Err(RpcError::UnsupportedFeature)
    );
    assert_eq!(
        api.block_transaction_count_by_hash(Hash256 { bytes: vec![0; 32] }),
        Err(RpcError::UnsupportedFeature)
    );
    assert_eq!(api.submit_transaction(vec![0x01]), Err(RpcError::UnsupportedFeature));
    let request = CallRequest {
        from: None,
        to: None,
        gas_price: None,
        gas: None,
        value: None,
        data: None,
        nonce: None,
    };
    assert_eq!(api.call(request.clone(), None), Err(RpcError::UnsupportedFeature));
    assert_eq!(api.estimate_gas(request, None), Err(RpcError::UnsupportedFeature));
    assert_eq!(
        api.transaction_by_hash(Hash256 { bytes: vec![0; 32] }),
        Err(RpcError::UnsupportedFeature)
    );
    assert_eq!(
        api.transaction_by_block_hash_and_index(Hash256 { bytes: vec![0; 32] }, 0),
        Err(RpcError::UnsupportedFeature)
    );
    assert_eq!(
        api.transaction_by_block_number_and_index(BlockReference::Latest, 0),
        Err(RpcError::UnsupportedFeature)
    );
    assert_eq!(api.compilers(), Err(RpcError::UnsupportedFeature));
    assert_eq!(api.compile_lll(String::from("x")), Err(RpcError::UnsupportedFeature));
    assert_eq!(api.compile_solidity(String::from("x")), Err(RpcError::UnsupportedFeature));
    assert_eq!(api.compile_serpent(String::from("x")), Err(RpcError::UnsupportedFeature));
    let filter = Filter { from_block: None, to_block: None, address: None };
    assert_eq!(api.logs(filter), Err(RpcError::UnsupportedFeature));
    assert_eq!(
        api.submit_work(0, Hash256 { bytes: vec![0; 32] }, Hash256 { bytes: vec![0; 32] }),
        Err(RpcError::UnsupportedFeature)
    );
    assert_eq!(
        api.submit_hashrate(Uint256 { lo: 0, hi: 0 }, Hash256 { bytes: vec![0; 32] }),
        Err(RpcError::UnsupportedFeature)
    );
}
