//! The RPC method surface. Each method is the verified decision half of one
//! JSON-RPC call: the caller performs the outside calls — ask the chain
//! selector for the head, query the runtime engine, submit to the pool —
//! and hands their answers in as plain values (`None` for a failed
//! collaborator call). The method then applies the facade's rules: guards,
//! height resolution, response assembly, and the error taxonomy.
//!
//! Endpoints that are deliberately out of scope report the unsupported-
//! feature error instead of fabricating data or crashing.

use vstd::prelude::*;

verus! {

use crate::assembler::build_receipt;
use crate::assembler::receipt_spec;
use crate::assembler::rich_block_build;
use crate::assembler::rich_block_spec;
use crate::error::RpcError;
use crate::ingress::prepare_submission;
use crate::ingress::tx_decodes;
use crate::ingress::tx_hash_of;
use crate::ingress::PreparedSubmission;
use crate::resolver::admits_latest_only;
use crate::resolver::check_latest_only;
use crate::resolver::resolve_height;
use crate::resolver::resolve_height_spec;
use crate::types::AccountBasic;
use crate::types::AccountView;
use crate::types::Address;
use crate::types::BlockData;
use crate::types::BlockReference;
use crate::types::CallRequest;
use crate::types::ChainPosition;
use crate::types::Filter;
use crate::types::Hash256;
use crate::types::LogEntry;
use crate::types::RpcBlock;
use crate::types::RpcReceipt;
use crate::types::RpcTransaction;
use crate::types::SyncStatus;
use crate::types::TransactionStatus;
use crate::types::Uint256;
use crate::types::Work;

/// What the chain-id method returns, given the selector's head and the
/// engine's answer at that head.
pub open spec fn chain_id_spec(head: Option<ChainPosition>, engine_id: Option<u64>) -> Result<
    Option<u64>,
    RpcError,
> {
    match head {
        None => Err(RpcError::ResolutionFailure),
        Some(_) => match engine_id {
            None => Err(RpcError::QueryFailure),
            Some(id) => Ok(Some(id)),
        },
    }
}

/// What the gas-price method returns.
pub open spec fn gas_price_spec(head: Option<ChainPosition>, engine_price: Option<Uint256>) -> Result<
    Uint256,
    RpcError,
> {
    match head {
        None => Err(RpcError::ResolutionFailure),
        Some(_) => match engine_price {
            None => Err(RpcError::QueryFailure),
            Some(p) => Ok(p),
        },
    }
}

/// What the author method returns.
pub open spec fn author_spec(head: Option<ChainPosition>, engine_author: Option<Address>) -> Result<
    Address,
    RpcError,
> {
    match head {
        None => Err(RpcError::ResolutionFailure),
        Some(_) => match engine_author {
            None => Err(RpcError::QueryFailure),
            Some(a) => Ok(a),
        },
    }
}

/// What the block-number method returns: the head's height, widened.
pub open spec fn block_number_spec(head: Option<ChainPosition>) -> Result<Uint256, RpcError> {
    match head {
        None => Err(RpcError::ResolutionFailure),
        Some(h) => Ok(Uint256 { lo: h.height as u128, hi: 0u128 }),
    }
}

/// What the balance method returns: the latest-only guard comes first, then
/// head resolution, then the engine's account answer.
pub open spec fn balance_spec(
    number: Option<BlockReference>,
    head: Option<ChainPosition>,
    account: Option<AccountBasic>,
) -> Result<Uint256, RpcError> {
    if !admits_latest_only(number) {
        Err(RpcError::UnsupportedFeature)
    } else {
        match head {
            None => Err(RpcError::ResolutionFailure),
            Some(_) => match account {
                None => Err(RpcError::QueryFailure),
                Some(a) => Ok(a.balance),
            },
        }
    }
}

/// What the transaction-count (nonce) method returns; the same guards as
/// the balance method, then the account's nonce.
pub open spec fn transaction_count_spec(
    number: Option<BlockReference>,
    head: Option<ChainPosition>,
    account: Option<AccountBasic>,
) -> Result<Uint256, RpcError> {
    if !admits_latest_only(number) {
        Err(RpcError::UnsupportedFeature)
    } else {
        match head {
            None => Err(RpcError::ResolutionFailure),
            Some(_) => match account {
                None => Err(RpcError::QueryFailure),
                Some(a) => Ok(a.nonce),
            },
        }
    }
}

/// What the code method returns; the same guards, then the engine's code
/// answer.
pub open spec fn code_at_spec(
    number: Option<BlockReference>,
    head: Option<ChainPosition>,
    code: Option<Vec<u8>>,
) -> Result<Vec<u8>, RpcError> {
    if !admits_latest_only(number) {
        Err(RpcError::UnsupportedFeature)
    } else {
        match head {
            None => Err(RpcError::ResolutionFailure),
            Some(_) => match code {
                None => Err(RpcError::QueryFailure),
                Some(c) => Ok(c),
            },
        }
    }
}

/// What the bundled account view returns: balance, nonce and code at one
/// position; a partial engine answer is a query failure, never a partial
/// default.
pub open spec fn account_view_spec(
    number: Option<BlockReference>,
    head: Option<ChainPosition>,
    account: Option<AccountBasic>,
    code: Option<Vec<u8>>,
) -> Result<AccountView, RpcError> {
    if !admits_latest_only(number) {
        Err(RpcError::UnsupportedFeature)
    } else {
        match head {
            None => Err(RpcError::ResolutionFailure),
            Some(_) => match (account, code) {
                (Some(a), Some(c)) => Ok(
                    AccountView { balance: a.balance, nonce: a.nonce, code: c },
                ),
                _ => Err(RpcError::QueryFailure),
            },
        }
    }
}

/// What the block-by-hash method returns: an absent block — or a failed
/// engine lookup — is the empty result, never an error.
pub open spec fn block_by_hash_spec(
    head: Option<ChainPosition>,
    lookup: Option<Option<BlockData>>,
) -> Result<Option<RpcBlock>, RpcError> {
    match head {
        None => Err(RpcError::ResolutionFailure),
        Some(_) => match lookup {
            Some(Some(b)) => Ok(Some(rich_block_spec(b))),
            _ => Ok(None),
        },
    }
}

/// What the block-by-number method returns: the head is required, the
/// height is resolved (`Latest` becomes the head's height, a tag other than
/// a number or `Latest` is unsupported), and an absent block is the empty
/// result, never an error.
pub open spec fn block_by_number_spec(
    number: BlockReference,
    head: Option<ChainPosition>,
    lookup: Option<Option<BlockData>>,
) -> Result<Option<RpcBlock>, RpcError> {
    match head {
        None => Err(RpcError::ResolutionFailure),
        Some(h) => match resolve_height_spec(number, h.height) {
            Err(e) => Err(e),
            Ok(_) => match lookup {
                Some(Some(b)) => Ok(Some(rich_block_spec(b))),
                _ => Ok(None),
            },
        },
    }
}

/// What the per-block transaction-count method returns: the same height
/// resolution as block-by-number, and a failed engine lookup is the empty
/// result.
pub open spec fn block_transaction_count_by_number_spec(
    number: BlockReference,
    head: Option<ChainPosition>,
    count: Option<Option<u64>>,
) -> Result<Option<u64>, RpcError> {
    match head {
        None => Err(RpcError::ResolutionFailure),
        Some(h) => match resolve_height_spec(number, h.height) {
            Err(e) => Err(e),
            Ok(_) => match count {
                None => Ok(None),
                Some(c) => Ok(c),
            },
        },
    }
}

/// What the transaction-receipt method returns: a failed status query is an
/// error, an absent transaction is the empty result, and a present record
/// becomes the assembled receipt.
pub open spec fn transaction_receipt_spec(
    head: Option<ChainPosition>,
    status: Option<Option<TransactionStatus>>,
) -> Result<Option<RpcReceipt>, RpcError> {
    match head {
        None => Err(RpcError::ResolutionFailure),
        Some(_) => match status {
            None => Err(RpcError::QueryFailure),
            Some(None) => Ok(None),
            Some(Some(s)) => Ok(Some(receipt_spec(s))),
        },
    }
}

/// The facade itself. It holds no state of its own: every call decides over
/// the collaborator answers handed to it, so concurrent calls are
/// independent by construction.
pub struct EthApi {}

impl EthApi {
    /// A fresh facade handle.
    pub fn new() -> (r: EthApi)
        ensures
            r == (EthApi {}),
    {
        EthApi {}
    }

    /// eth_chainId.
    pub fn chain_id(&self, head: Option<ChainPosition>, engine_id: Option<u64>) -> (r: Result<
        Option<u64>,
        RpcError,
    >)
        ensures
            r == chain_id_spec(head, engine_id),
    {
        match head {
            None => Err(RpcError::ResolutionFailure),
            Some(_) => match engine_id {
                None => Err(RpcError::QueryFailure),
                Some(id) => Ok(Some(id)),
            },
        }
    }

    /// eth_gasPrice.
    pub fn gas_price(&self, head: Option<ChainPosition>, engine_price: Option<Uint256>) -> (r:
        Result<Uint256, RpcError>)
        ensures
            r == gas_price_spec(head, engine_price),
    {
        match head {
            None => Err(RpcError::ResolutionFailure),
            Some(_) => match engine_price {
                None => Err(RpcError::QueryFailure),
                Some(p) => Ok(p),
            },
        }
    }

    /// eth_coinbase: the block author reported by the engine.
    pub fn author(&self, head: Option<ChainPosition>, engine_author: Option<Address>) -> (r: Result<
        Address,
        RpcError,
    >)
        ensures
            r == author_spec(head, engine_author),
    {
        match head {
            None => Err(RpcError::ResolutionFailure),
            Some(_) => match engine_author {
                None => Err(RpcError::QueryFailure),
                Some(a) => Ok(a),
            },
        }
    }

    /// eth_blockNumber: the canonical head's height.
    pub fn block_number(&self, head: Option<ChainPosition>) -> (r: Result<Uint256, RpcError>)
        ensures
            r == block_number_spec(head),
    {
        match head {
            None => Err(RpcError::ResolutionFailure),
            Some(h) => Ok(Uint256::from_u64(h.height)),
        }
    }

    /// eth_getBalance. The guard runs first: a historical reference is
    /// rejected whatever the other answers hold.
    pub fn balance(
        &self,
        number: Option<BlockReference>,
        head: Option<ChainPosition>,
        account: Option<AccountBasic>,
    ) -> (r: Result<Uint256, RpcError>)
        ensures
            r == balance_spec(number, head, account),
    {
        let guard = check_latest_only(&number);
        match guard {
            Err(e) => Err(e),
            Ok(()) => match head {
                None => Err(RpcError::ResolutionFailure),
                Some(_) => match account {
                    None => Err(RpcError::QueryFailure),
                    Some(a) => Ok(a.balance),
                },
            },
        }
    }

    /// eth_getTransactionCount: the account's nonce, under the same guard
    /// as the balance method.
    pub fn transaction_count(
        &self,
        number: Option<BlockReference>,
        head: Option<ChainPosition>,
        account: Option<AccountBasic>,
    ) -> (r: Result<Uint256, RpcError>)
        ensures
            r == transaction_count_spec(number, head, account),
    {
        let guard = check_latest_only(&number);
        match guard {
            Err(e) => Err(e),
            Ok(()) => match head {
                None => Err(RpcError::ResolutionFailure),
                Some(_) => match account {
                    None => Err(RpcError::QueryFailure),
                    Some(a) => Ok(a.nonce),
                },
            },
        }
    }

    /// eth_getCode, under the same guard as the balance method.
    pub fn code_at(
        &self,
        number: Option<BlockReference>,
        head: Option<ChainPosition>,
        code: Option<Vec<u8>>,
    ) -> (r: Result<Vec<u8>, RpcError>)
        ensures
            r == code_at_spec(number, head, code),
    {
        let guard = check_latest_only(&number);
        match guard {
            Err(e) => Err(e),
            Ok(()) => match head {
                None => Err(RpcError::ResolutionFailure),
                Some(_) => match code {
                    None => Err(RpcError::QueryFailure),
                    Some(c) => Ok(c),
                },
            },
        }
    }

    /// The bundled account view at the latest position: balance, nonce and
    /// code together, or one query failure — never a partial default.
    pub fn account_view(
        &self,
        number: Option<BlockReference>,
        head: Option<ChainPosition>,
        account: Option<AccountBasic>,
        code: Option<Vec<u8>>,
    ) -> (r: Result<AccountView, RpcError>)
        ensures
            r == account_view_spec(number, head, account, code),
    {
        let guard = check_latest_only(&number);
        match guard {
            Err(e) => Err(e),
            Ok(()) => match head {
                None => Err(RpcError::ResolutionFailure),
                Some(_) => match (account, code) {
                    (Some(a), Some(c)) => Ok(
                        AccountView { balance: a.balance, nonce: a.nonce, code: c },
                    ),
                    _ => Err(RpcError::QueryFailure),
                },
            },
        }
    }

    /// eth_getBlockByHash: the caller looks the hash up at the head's
    /// execution context and hands the answer in.
    pub fn block_by_hash(
        &self,
        head: Option<ChainPosition>,
        lookup: Option<Option<BlockData>>,
    ) -> (r: Result<Option<RpcBlock>, RpcError>)
        ensures
            r == block_by_hash_spec(head, lookup),
    {
        match head {
            None => Err(RpcError::ResolutionFailure),
            Some(_) => match lookup {
                Some(Some(b)) => Ok(Some(rich_block_build(b))),
                _ => Ok(None),
            },
        }
    }

    /// eth_getBlockByNumber: the caller queries the resolved height (see
    /// `resolver::resolve_height`) and hands the answer in.
    pub fn block_by_number(
        &self,
        number: BlockReference,
        head: Option<ChainPosition>,
        lookup: Option<Option<BlockData>>,
    ) -> (r: Result<Option<RpcBlock>, RpcError>)
        ensures
            r == block_by_number_spec(number, head, lookup),
    {
        match head {
            None => Err(RpcError::ResolutionFailure),
            Some(h) => {
                let height = resolve_height(number, h.height);
                match height {
                    Err(e) => Err(e),
                    Ok(_) => match lookup {
                        Some(Some(b)) => Ok(Some(rich_block_build(b))),
                        _ => Ok(None),
                    },
                }
            },
        }
    }

    /// eth_getBlockTransactionCountByNumber, under the same height
    /// resolution as block-by-number.
    pub fn block_transaction_count_by_number(
        &self,
        number: BlockReference,
        head: Option<ChainPosition>,
        count: Option<Option<u64>>,
    ) -> (r: Result<Option<u64>, RpcError>)
        ensures
            r == block_transaction_count_by_number_spec(number, head, count),
    {
        match head {
            None => Err(RpcError::ResolutionFailure),
            Some(h) => {
                let height = resolve_height(number, h.height);
                match height {
                    Err(e) => Err(e),
                    Ok(_) => match count {
                        None => Ok(None),
                        Some(c) => Ok(c),
                    },
                }
            },
        }
    }

    /// eth_getTransactionReceipt: assembles the receipt from the engine's
    /// status record; an absent transaction is the empty result.
    pub fn transaction_receipt(
        &self,
        head: Option<ChainPosition>,
        status: Option<Option<TransactionStatus>>,
    ) -> (r: Result<Option<RpcReceipt>, RpcError>)
        ensures
            r == transaction_receipt_spec(head, status),
    {
        match head {
            None => Err(RpcError::ResolutionFailure),
            Some(_) => match status {
                None => Err(RpcError::QueryFailure),
                Some(None) => Ok(None),
                Some(Some(s)) => Ok(Some(build_receipt(s))),
            },
        }
    }

    /// eth_sendRawTransaction, up to the pool: decode the raw bytes, hash
    /// them canonically, and attach the resolved head. The caller converts
    /// the prepared transaction, submits it to the pool, and judges the
    /// pool's answer with `ingress::submission_outcome`; malformed bytes
    /// fail here and never reach the pool.
    pub fn send_raw_transaction(&self, bytes: &Vec<u8>, head: Option<ChainPosition>) -> (r: Result<
        PreparedSubmission,
        RpcError,
    >)
        ensures
            !tx_decodes(bytes@) ==> r == Err::<PreparedSubmission, RpcError>(
                RpcError::DecodeFailure,
            ),
            tx_decodes(bytes@) && head is None ==> r == Err::<PreparedSubmission, RpcError>(
                RpcError::ResolutionFailure,
            ),
            r is Ok <==> tx_decodes(bytes@) && head is Some,
            r matches Ok(p) ==> p.hash@ == tx_hash_of(bytes@) && p.hash.wf() && Some(p.position)
                == head,
    {
        prepare_submission(bytes, head)
    }

    /// eth_hashrate: this facade does not mine.
    pub fn hashrate(&self) -> (r: Result<Uint256, RpcError>)
        ensures
            r == Ok::<Uint256, RpcError>((Uint256 { lo: 0u128, hi: 0u128 })),
    {
        Ok(Uint256::zero())
    }

    /// eth_mining: this facade does not mine.
    pub fn is_mining(&self) -> (r: Result<bool, RpcError>)
        ensures
            r == Ok::<bool, RpcError>(false),
    {
        Ok(false)
    }

    /// eth_accounts: this facade manages no local accounts.
    pub fn accounts(&self) -> (r: Result<Vec<Address>, RpcError>)
        ensures
            r matches Ok(v) && v@.len() == 0,
    {
        Ok(Vec::new())
    }

    /// eth_getUncleCountByBlockHash: uncle blocks are out of scope, the
    /// count is zero.
    pub fn block_uncles_count_by_hash(&self, _hash: Hash256) -> (r: Result<Uint256, RpcError>)
        ensures
            r == Ok::<Uint256, RpcError>((Uint256 { lo: 0u128, hi: 0u128 })),
    {
        Ok(Uint256::zero())
    }

    /// eth_getUncleCountByBlockNumber: uncle blocks are out of scope.
    pub fn block_uncles_count_by_number(&self, _number: BlockReference) -> (r: Result<
        Uint256,
        RpcError,
    >)
        ensures
            r == Ok::<Uint256, RpcError>((Uint256 { lo: 0u128, hi: 0u128 })),
    {
        Ok(Uint256::zero())
    }

    /// eth_getUncleByBlockHashAndIndex: uncle blocks are out of scope, the
    /// result is empty.
    pub fn uncle_by_block_hash_and_index(&self, _hash: Hash256, _index: u32) -> (r: Result<
        Option<RpcBlock>,
        RpcError,
    >)
        ensures
            r == Ok::<Option<RpcBlock>, RpcError>(None),
    {
        Ok(None)
    }

    /// eth_getUncleByBlockNumberAndIndex: uncle blocks are out of scope.
    pub fn uncle_by_block_number_and_index(
        &self,
        _number: BlockReference,
        _index: u32,
    ) -> (r: Result<Option<RpcBlock>, RpcError>)
        ensures
            r == Ok::<Option<RpcBlock>, RpcError>(None),
    {
        Ok(None)
    }

    /// eth_getWork: this facade does not mine; the placeholder package of
    /// all-zero hashes and no block number.
    pub fn work(&self) -> (r: Result<Work, RpcError>)
        ensures
            r matches Ok(w) && w.pow_hash.wf() && w.seed_hash.wf() && w.target.wf()
                && w.number is None,
            r matches Ok(w) ==> forall|i: int|
                0 <= i < 32 ==> w.pow_hash@[i] == 0u8 && w.seed_hash@[i] == 0u8 && w.target@[i]
                    == 0u8,
    {
        Ok(
            Work {
                pow_hash: Hash256::zero(),
                seed_hash: Hash256::zero(),
                target: Hash256::zero(),
                number: None,
            },
        )
    }

    /// net_listening: the transport is assumed up.
    pub fn is_listening(&self) -> (r: Result<bool, RpcError>)
        ensures
            r == Ok::<bool, RpcError>(true),
    {
        Ok(true)
    }

    /// net_version.
    pub fn version(&self) -> (r: Result<String, RpcError>)
        ensures
            r matches Ok(v) && v@ == "2.0"@,
    {
        Ok(String::from_str("2.0"))
    }

    /// eth_protocolVersion is not implemented by this facade.
    pub fn protocol_version(&self) -> (r: Result<String, RpcError>)
        ensures
            r == Err::<String, RpcError>(RpcError::UnsupportedFeature),
    {
        Err(RpcError::UnsupportedFeature)
    }

    /// eth_syncing is not implemented by this facade.
    pub fn syncing(&self) -> (r: Result<SyncStatus, RpcError>)
        ensures
            r == Err::<SyncStatus, RpcError>(RpcError::UnsupportedFeature),
    {
        Err(RpcError::UnsupportedFeature)
    }

    /// eth_getProof is not implemented by this facade.
    pub fn account_proof(
        &self,
        _address: Address,
        _positions: Vec<Hash256>,
        _number: Option<BlockReference>,
    ) -> (r: Result<AccountView, RpcError>)
        ensures
            r == Err::<AccountView, RpcError>(RpcError::UnsupportedFeature),
    {
        Err(RpcError::UnsupportedFeature)
    }

    /// eth_getStorageAt is not implemented by this facade.
    pub fn storage_at(
        &self,
        _address: Address,
        _index: Uint256,
        _number: Option<BlockReference>,
    ) -> (r: Result<Hash256, RpcError>)
        ensures
            r == Err::<Hash256, RpcError>(RpcError::UnsupportedFeature),
    {
        Err(RpcError::UnsupportedFeature)
    }

    /// eth_getBlockTransactionCountByHash is not implemented by this facade.
    pub fn block_transaction_count_by_hash(&self, _hash: Hash256) -> (r: Result<
        Option<u64>,
        RpcError,
    >)
        ensures
            r == Err::<Option<u64>, RpcError>(RpcError::UnsupportedFeature),
    {
        Err(RpcError::UnsupportedFeature)
    }

    /// eth_submitTransaction is not implemented by this facade; raw bytes go
    /// through the ingress pipeline instead.
    pub fn submit_transaction(&self, _bytes: Vec<u8>) -> (r: Result<Hash256, RpcError>)
        ensures
            r == Err::<Hash256, RpcError>(RpcError::UnsupportedFeature),
    {
        Err(RpcError::UnsupportedFeature)
    }

    /// eth_call is not implemented by this facade.
    pub fn call(&self, _request: CallRequest, _number: Option<BlockReference>) -> (r: Result<
        Vec<u8>,
        RpcError,
    >)
        ensures
            r == Err::<Vec<u8>, RpcError>(RpcError::UnsupportedFeature),
    {
        Err(RpcError::UnsupportedFeature)
    }

    /// eth_estimateGas is not implemented by this facade.
    pub fn estimate_gas(&self, _request: CallRequest, _number: Option<BlockReference>) -> (r:
        Result<Uint256, RpcError>)
        ensures
            r == Err::<Uint256, RpcError>(RpcError::UnsupportedFeature),
    {
        Err(RpcError::UnsupportedFeature)
    }

    /// eth_getTransactionByHash is not implemented by this facade.
    pub fn transaction_by_hash(&self, _hash: Hash256) -> (r: Result<
        Option<RpcTransaction>,
        RpcError,
    >)
        ensures
            r == Err::<Option<RpcTransaction>, RpcError>(RpcError::UnsupportedFeature),
    {
        Err(RpcError::UnsupportedFeature)
    }

    /// eth_getTransactionByBlockHashAndIndex is not implemented by this
    /// facade.
    pub fn transaction_by_block_hash_and_index(&self, _hash: Hash256, _index: u32) -> (r: Result<
        Option<RpcTransaction>,
        RpcError,
    >)
        ensures
            r == Err::<Option<RpcTransaction>, RpcError>(RpcError::UnsupportedFeature),
    {
        Err(RpcError::UnsupportedFeature)
    }

    /// eth_getTransactionByBlockNumberAndIndex is not implemented by this
    /// facade.
    pub fn transaction_by_block_number_and_index(
        &self,
        _number: BlockReference,
        _index: u32,
    ) -> (r: Result<Option<RpcTransaction>, RpcError>)
        ensures
            r == Err::<Option<RpcTransaction>, RpcError>(RpcError::UnsupportedFeature),
    {
        Err(RpcError::UnsupportedFeature)
    }

    /// eth_getCompilers is not implemented by this facade.
    pub fn compilers(&self) -> (r: Result<Vec<String>, RpcError>)
        ensures
            r == Err::<Vec<String>, RpcError>(RpcError::UnsupportedFeature),
    {
        Err(RpcError::UnsupportedFeature)
    }

    /// eth_compileLLL is not implemented by this facade.
    pub fn compile_lll(&self, _source: String) -> (r: Result<Vec<u8>, RpcError>)
        ensures
            r == Err::<Vec<u8>, RpcError>(RpcError::UnsupportedFeature),
    {
        Err(RpcError::UnsupportedFeature)
    }

    /// eth_compileSolidity is not implemented by this facade.
    pub fn compile_solidity(&self, _source: String) -> (r: Result<Vec<u8>, RpcError>)
        ensures
            r == Err::<Vec<u8>, RpcError>(RpcError::UnsupportedFeature),
    {
        Err(RpcError::UnsupportedFeature)
    }

    /// eth_compileSerpent is not implemented by this facade.
    pub fn compile_serpent(&self, _source: String) -> (r: Result<Vec<u8>, RpcError>)
        ensures
            r == Err::<Vec<u8>, RpcError>(RpcError::UnsupportedFeature),
    {
        Err(RpcError::UnsupportedFeature)
    }

    /// eth_getLogs is not implemented by this facade.
    pub fn logs(&self, _filter: Filter) -> (r: Result<Vec<LogEntry>, RpcError>)
        ensures
            r == Err::<Vec<LogEntry>, RpcError>(RpcError::UnsupportedFeature),
    {
        Err(RpcError::UnsupportedFeature)
    }

    /// eth_submitWork is not implemented by this facade.
    pub fn submit_work(&self, _nonce: u64, _pow_hash: Hash256, _mix_digest: Hash256) -> (r: Result<
        bool,
        RpcError,
    >)
        ensures
            r == Err::<bool, RpcError>(RpcError::UnsupportedFeature),
    {
        Err(RpcError::UnsupportedFeature)
    }

    /// eth_submitHashrate is not implemented by this facade.
    pub fn submit_hashrate(&self, _rate: Uint256, _id: Hash256) -> (r: Result<bool, RpcError>)
        ensures
            r == Err::<bool, RpcError>(RpcError::UnsupportedFeature),
    {
        Err(RpcError::UnsupportedFeature)
    }
}

} // verus!
