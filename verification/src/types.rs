//! The plain data model of the facade: block references, chain positions,
//! hashes, addresses and 256-bit quantities, together with the externally
//! specified wire shapes (rich block, receipt, transaction, wire error).
//!
//! Every value is held as plain data so that each rule that reads it can be
//! verified. Wire fields that this facade cannot yet derive from the node's
//! answers are `Option` fields set to `None`, so a client can tell "not
//! computed" apart from a genuine zero or empty value.

use vstd::prelude::*;

verus! {

/// An externally supplied reference to a block: one of the protocol's
/// special tags, or a concrete height.
#[derive(Clone, Copy, Debug, PartialEq, Eq, Structural)]
pub enum BlockReference {
    Earliest,
    Latest,
    Pending,
    Number(u64),
}

/// A 32-byte hash, held as plain bytes.
#[derive(Clone, Debug, PartialEq, Eq)]
pub struct Hash256 {
    pub bytes: Vec<u8>,
}

impl View for Hash256 {
    type V = Seq<u8>;

    open spec fn view(&self) -> Seq<u8> {
        self.bytes@
    }
}

impl Hash256 {
    /// A hash is well formed when it holds exactly 32 bytes.
    pub open spec fn wf(&self) -> bool {
        self@.len() == 32
    }

    /// The all-zero hash.
    pub fn zero() -> (r: Hash256)
        ensures
            r.wf(),
            forall|i: int| 0 <= i < 32 ==> r@[i] == 0u8,
    {
        let mut bytes: Vec<u8> = Vec::new();
        let mut i: usize = 0;
        while i < 32
            invariant
                i <= 32,
                bytes@.len() == i,
                forall|j: int| 0 <= j < i ==> bytes@[j] == 0u8,
            decreases 32 - i,
        {
            bytes.push(0u8);
            i = i + 1;
        }
        Hash256 { bytes }
    }
}

/// A 20-byte account address, held as plain bytes.
#[derive(Clone, Debug, PartialEq, Eq)]
pub struct Address {
    pub bytes: Vec<u8>,
}

impl View for Address {
    type V = Seq<u8>;

    open spec fn view(&self) -> Seq<u8> {
        self.bytes@
    }
}

impl Address {
    /// An address is well formed when it holds exactly 20 bytes.
    pub open spec fn wf(&self) -> bool {
        self@.len() == 20
    }
}

/// An unsigned 256-bit quantity, held as two 128-bit halves.
#[derive(Clone, Copy, Debug, PartialEq, Eq, Structural)]
pub struct Uint256 {
    pub lo: u128,
    pub hi: u128,
}

impl Uint256 {
    /// The mathematical value: `hi` are the upper 128 bits, `lo` the lower.
    pub open spec fn as_nat(self) -> nat {
        (self.lo + self.hi * 0x100000000000000000000000000000000) as nat
    }

    /// The zero quantity.
    pub fn zero() -> (r: Uint256)
        ensures
            r == (Uint256 { lo: 0u128, hi: 0u128 }),
            r.as_nat() == 0,
    {
        Uint256 { lo: 0, hi: 0 }
    }

    /// Widens a 64-bit value.
    pub fn from_u64(v: u64) -> (r: Uint256)
        ensures
            r == (Uint256 { lo: v as u128, hi: 0u128 }),
            r.as_nat() == v,
    {
        Uint256 { lo: v as u128, hi: 0 }
    }
}

/// The concrete chain position a block reference resolves to: the canonical
/// block hash and its height. Valid only for the call that obtained it.
#[derive(Clone, Debug, PartialEq, Eq)]
pub struct ChainPosition {
    pub hash: Hash256,
    pub height: u64,
}

impl ChainPosition {
    pub open spec fn wf(&self) -> bool {
        self.hash.wf()
    }
}

/// The engine's answer to a basic account query: balance and nonce.
#[derive(Clone, Copy, Debug, PartialEq, Eq, Structural)]
pub struct AccountBasic {
    pub balance: Uint256,
    pub nonce: Uint256,
}

/// The bundled account view: balance, nonce and code, as queried at one
/// chain position.
#[derive(Clone, Debug, PartialEq, Eq)]
pub struct AccountView {
    pub balance: Uint256,
    pub nonce: Uint256,
    pub code: Vec<u8>,
}

/// A block body as the node's engine reports it: the fields this facade
/// reads when it assembles the wire representation.
#[derive(Clone, Debug, PartialEq, Eq)]
pub struct BlockData {
    pub parent_hash: Hash256,
    pub state_root: Hash256,
    pub transactions_root: Hash256,
    pub receipts_root: Hash256,
    pub number: Uint256,
    pub gas_used: Uint256,
    pub gas_limit: Uint256,
    pub timestamp: u64,
    pub difficulty: Uint256,
    pub logs_bloom: Vec<u8>,
}

impl BlockData {
    pub open spec fn wf(&self) -> bool {
        &&& self.parent_hash.wf()
        &&& self.state_root.wf()
        &&& self.transactions_root.wf()
        &&& self.receipts_root.wf()
        &&& self.logs_bloom@.len() == 256
    }
}

/// The engine's record of an included transaction, as far as this facade
/// reads it when it assembles a receipt.
#[derive(Clone, Debug, PartialEq, Eq)]
pub struct TransactionStatus {
    pub transaction_hash: Hash256,
    pub transaction_index: u32,
    pub from: Address,
    pub to: Option<Address>,
    pub contract_address: Option<Address>,
}

impl TransactionStatus {
    pub open spec fn wf(&self) -> bool {
        &&& self.transaction_hash.wf()
        &&& self.from.wf()
        &&& (self.to matches Some(a) ==> a.wf())
        &&& (self.contract_address matches Some(a) ==> a.wf())
    }
}

/// A log entry in the wire receipt shape. This facade does not yet derive
/// logs, so no function of the crate constructs one.
#[derive(Clone, Debug, PartialEq, Eq)]
pub struct LogEntry {
    pub address: Address,
    pub topics: Vec<Hash256>,
    pub data: Vec<u8>,
}

/// A transaction in the wire shape. This facade does not yet derive full
/// transaction bodies, so no function of the crate constructs one.
#[derive(Clone, Debug, PartialEq, Eq)]
pub struct RpcTransaction {
    pub hash: Hash256,
    pub nonce: Uint256,
    pub from: Option<Address>,
    pub to: Option<Address>,
    pub value: Uint256,
    pub gas_price: Uint256,
    pub gas: Uint256,
    pub input: Vec<u8>,
}

/// The externally specified rich-block shape. Fields this facade cannot yet
/// derive are `None`, never a fabricated zero.
#[derive(Clone, Debug, PartialEq, Eq)]
pub struct RpcBlock {
    pub hash: Option<Hash256>,
    pub parent_hash: Hash256,
    pub uncles_hash: Option<Hash256>,
    pub author: Option<Address>,
    pub miner: Option<Address>,
    pub state_root: Hash256,
    pub transactions_root: Hash256,
    pub receipts_root: Hash256,
    pub number: Option<Uint256>,
    pub gas_used: Uint256,
    pub gas_limit: Uint256,
    pub extra_data: Option<Vec<u8>>,
    pub logs_bloom: Option<Vec<u8>>,
    pub timestamp: Uint256,
    pub difficulty: Uint256,
    pub total_difficulty: Option<Uint256>,
    pub seal_fields: Option<Vec<Vec<u8>>>,
    pub uncles: Option<Vec<Hash256>>,
    pub transactions: Option<Vec<RpcTransaction>>,
    pub size: Option<Uint256>,
}

/// The externally specified receipt shape. Fields this facade cannot yet
/// derive are `None`, never a fabricated zero.
#[derive(Clone, Debug, PartialEq, Eq)]
pub struct RpcReceipt {
    pub transaction_hash: Option<Hash256>,
    pub transaction_index: Option<u32>,
    pub block_hash: Option<Hash256>,
    pub from: Option<Address>,
    pub to: Option<Address>,
    pub block_number: Option<Uint256>,
    pub cumulative_gas_used: Option<Uint256>,
    pub gas_used: Option<Uint256>,
    pub contract_address: Option<Address>,
    pub logs: Option<Vec<LogEntry>>,
    pub state_root: Option<Hash256>,
    pub logs_bloom: Option<Vec<u8>>,
    pub status_code: Option<u8>,
}

/// The proof-of-work package returned by the mining endpoint; this facade
/// does not mine, so it reports the protocol's placeholder package.
#[derive(Clone, Debug, PartialEq, Eq)]
pub struct Work {
    pub pow_hash: Hash256,
    pub seed_hash: Hash256,
    pub target: Hash256,
    pub number: Option<u64>,
}

/// A call request, accepted by the execution endpoints that this facade
/// reports as unsupported.
#[derive(Clone, Debug, PartialEq, Eq)]
pub struct CallRequest {
    pub from: Option<Address>,
    pub to: Option<Address>,
    pub gas_price: Option<Uint256>,
    pub gas: Option<Uint256>,
    pub value: Option<Uint256>,
    pub data: Option<Vec<u8>>,
    pub nonce: Option<Uint256>,
}

/// A log filter, accepted by the log endpoint that this facade reports as
/// unsupported.
#[derive(Clone, Debug, PartialEq, Eq)]
pub struct Filter {
    pub from_block: Option<BlockReference>,
    pub to_block: Option<BlockReference>,
    pub address: Option<Address>,
}

/// The synchronisation status shape of the status endpoint that this facade
/// reports as unsupported.
#[derive(Clone, Copy, Debug, PartialEq, Eq, Structural)]
pub enum SyncStatus {
    NotSyncing,
    Syncing,
}

/// The only failure representation that ever crosses the RPC boundary:
/// a code, a short message, and optional data (never filled by this facade).
#[derive(Clone, Debug, PartialEq, Eq)]
pub struct WireError {
    pub code: i64,
    pub message: String,
    pub data: Option<String>,
}

} // verus!
