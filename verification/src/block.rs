//! Blocks and transactions as the backend stores them, and the block,
//! body and transaction shapes that the bridge hands to reth.
use vstd::prelude::*;
use alloy_consensus::Header as AlloyHeader;
use alloy_primitives::U256 as AlloyU256;
use crate::primitives::{Address, B256, TxType, U256, b256_from_bytes, b256_of_bytes};

verus! {

/// An element-by-element copy of a vector of plain values.
pub fn copy_vec<T: Copy>(v: &Vec<T>) -> (r: Vec<T>)
    ensures
        r@ == v@,
{
    let mut r: Vec<T> = Vec::new();
    let n = v.len();
    for i in 0..n
        invariant
            n == v@.len(),
            r@ == v@.subrange(0, i as int),
    {
        r.push(v[i]);
        assert(r@ =~= v@.subrange(0, i + 1));
    }
    assert(r@ =~= v@);
    r
}

/// A block header. The hash-valued fields, the beneficiary, the logs bloom, the
/// difficulty and the nonce are held as their big-endian bytes.
#[derive(Debug, PartialEq, Eq)]
pub struct Header {
    pub parent_hash: [u8; 32],
    pub ommers_hash: [u8; 32],
    pub beneficiary: [u8; 20],
    pub state_root: [u8; 32],
    pub transactions_root: [u8; 32],
    pub receipts_root: [u8; 32],
    pub logs_bloom: [u8; 256],
    pub difficulty: [u8; 32],
    pub number: u64,
    pub gas_limit: u64,
    pub gas_used: u64,
    pub timestamp: u64,
    pub extra_data: Vec<u8>,
    pub mix_hash: [u8; 32],
    pub nonce: [u8; 8],
    pub base_fee_per_gas: Option<u64>,
    pub withdrawals_root: Option<[u8; 32]>,
    pub blob_gas_used: Option<u64>,
    pub excess_blob_gas: Option<u64>,
    pub parent_beacon_block_root: Option<[u8; 32]>,
    pub requests_hash: Option<[u8; 32]>,
}

pub struct HeaderView {
    pub parent_hash: [u8; 32],
    pub ommers_hash: [u8; 32],
    pub beneficiary: [u8; 20],
    pub state_root: [u8; 32],
    pub transactions_root: [u8; 32],
    pub receipts_root: [u8; 32],
    pub logs_bloom: [u8; 256],
    pub difficulty: [u8; 32],
    pub number: u64,
    pub gas_limit: u64,
    pub gas_used: u64,
    pub timestamp: u64,
    pub extra_data: Seq<u8>,
    pub mix_hash: [u8; 32],
    pub nonce: [u8; 8],
    pub base_fee_per_gas: Option<u64>,
    pub withdrawals_root: Option<[u8; 32]>,
    pub blob_gas_used: Option<u64>,
    pub excess_blob_gas: Option<u64>,
    pub parent_beacon_block_root: Option<[u8; 32]>,
    pub requests_hash: Option<[u8; 32]>,
}

impl View for Header {
    type V = HeaderView;

    open spec fn view(&self) -> HeaderView {
        HeaderView {
            parent_hash: self.parent_hash,
            ommers_hash: self.ommers_hash,
            beneficiary: self.beneficiary,
            state_root: self.state_root,
            transactions_root: self.transactions_root,
            receipts_root: self.receipts_root,
            logs_bloom: self.logs_bloom,
            difficulty: self.difficulty,
            number: self.number,
            gas_limit: self.gas_limit,
            gas_used: self.gas_used,
            timestamp: self.timestamp,
            extra_data: self.extra_data@,
            mix_hash: self.mix_hash,
            nonce: self.nonce,
            base_fee_per_gas: self.base_fee_per_gas,
            withdrawals_root: self.withdrawals_root,
            blob_gas_used: self.blob_gas_used,
            excess_blob_gas: self.excess_blob_gas,
            parent_beacon_block_root: self.parent_beacon_block_root,
            requests_hash: self.requests_hash,
        }
    }
}

impl Clone for Header {
    fn clone(&self) -> (r: Self)
        ensures
            r@ == self@,
    {
        Header {
            parent_hash: self.parent_hash,
            ommers_hash: self.ommers_hash,
            beneficiary: self.beneficiary,
            state_root: self.state_root,
            transactions_root: self.transactions_root,
            receipts_root: self.receipts_root,
            logs_bloom: self.logs_bloom,
            difficulty: self.difficulty,
            number: self.number,
            gas_limit: self.gas_limit,
            gas_used: self.gas_used,
            timestamp: self.timestamp,
            extra_data: copy_vec(&self.extra_data),
            mix_hash: self.mix_hash,
            nonce: self.nonce,
            base_fee_per_gas: self.base_fee_per_gas,
            withdrawals_root: self.withdrawals_root,
            blob_gas_used: self.blob_gas_used,
            excess_blob_gas: self.excess_blob_gas,
            parent_beacon_block_root: self.parent_beacon_block_root,
            requests_hash: self.requests_hash,
        }
    }
}

/// The 32 bytes of a header's hash: the Keccak-256 digest of its RLP encoding.
pub uninterp spec fn spec_header_hash(h: HeaderView) -> Seq<u8>;

/// `alloy_consensus::Header::hash_slow` of the alloy header with the same fields.
/// Trusted: the digest is a function of the header's fields alone, named `spec_header_hash`.
#[verifier::external_body]
fn header_hash_bytes(h: Header) -> (r: [u8; 32])
    ensures
        r@ == spec_header_hash(h@),
{
    *AlloyHeader {
        parent_hash: h.parent_hash.into(), ommers_hash: h.ommers_hash.into(),
        beneficiary: h.beneficiary.into(), state_root: h.state_root.into(),
        transactions_root: h.transactions_root.into(), receipts_root: h.receipts_root.into(),
        logs_bloom: h.logs_bloom.into(), difficulty: AlloyU256::from_be_bytes(h.difficulty),
        number: h.number, gas_limit: h.gas_limit, gas_used: h.gas_used, timestamp: h.timestamp,
        extra_data: h.extra_data.into(), mix_hash: h.mix_hash.into(), nonce: h.nonce.into(),
        base_fee_per_gas: h.base_fee_per_gas, withdrawals_root: h.withdrawals_root.map(Into::into),
        blob_gas_used: h.blob_gas_used, excess_blob_gas: h.excess_blob_gas,
        parent_beacon_block_root: h.parent_beacon_block_root.map(Into::into),
        requests_hash: h.requests_hash.map(Into::into),
    }.hash_slow()
}

/// The hash of a header.
pub open spec fn spec_seal_hash(h: HeaderView) -> B256 {
    b256_of_bytes(spec_header_hash(h))
}

/// The hash of a header: the Keccak-256 digest of its RLP encoding.
pub fn seal_hash(h: &Header) -> (r: B256)
    ensures
        r == spec_seal_hash(h@),
{
    let bytes = header_hash_bytes(h.clone());
    b256_from_bytes(bytes)
}

/// A validator withdrawal carried by a block body.
#[derive(Clone, Copy, Debug, PartialEq, Eq, Structural)]
pub struct Withdrawal {
    pub index: u64,
    pub validator_index: u64,
    pub address: Address,
    pub amount: u64,
}

/// The envelope kind of a stored transaction: the five Ethereum types, and the
/// two kinds that have no Ethereum form (deposits and Tempo transactions).
#[derive(Clone, Copy, Debug, PartialEq, Eq, Structural)]
pub enum TxKind {
    Legacy,
    Eip2930,
    Eip1559,
    Eip4844,
    Eip7702,
    Deposit,
    Tempo,
}

/// An ECDSA signature over secp256k1: the `r` and `s` scalars as their big-endian
/// bytes, and the parity of the `y` coordinate of the signing point.
#[derive(Clone, Copy, Debug, PartialEq, Eq)]
pub struct Signature {
    pub r: [u8; 32],
    pub s: [u8; 32],
    pub y_parity: bool,
}

/// An entry of an access list: an address and the storage slots of it that the
/// transaction declares.
#[derive(Debug, PartialEq, Eq)]
pub struct AccessListItem {
    pub address: Address,
    pub storage_keys: Vec<B256>,
}

pub struct AccessListItemView {
    pub address: Address,
    pub storage_keys: Seq<B256>,
}

impl View for AccessListItem {
    type V = AccessListItemView;

    open spec fn view(&self) -> AccessListItemView {
        AccessListItemView { address: self.address, storage_keys: self.storage_keys@ }
    }
}

impl Clone for AccessListItem {
    fn clone(&self) -> (r: Self)
        ensures
            r@ == self@,
    {
        AccessListItem { address: self.address, storage_keys: copy_vec(&self.storage_keys) }
    }
}

/// An EIP-7702 authorization: the chain, the delegate address and the nonce that
/// the authority signed, with the authority's signature.
#[derive(Clone, Copy, Debug, PartialEq, Eq)]
pub struct Authorization {
    pub chain_id: U256,
    pub address: Address,
    pub nonce: u64,
    pub y_parity: bool,
    pub r: [u8; 32],
    pub s: [u8; 32],
}

/// What a transaction carries besides its fixed fields: its call data, its access
/// list, its blob hashes and its authorizations (each empty where the type has none).
#[derive(Debug, PartialEq, Eq)]
pub struct TxPayload {
    pub input: Vec<u8>,
    pub access_list: Vec<AccessListItem>,
    pub blob_versioned_hashes: Vec<B256>,
    pub authorization_list: Vec<Authorization>,
}

pub struct TxPayloadView {
    pub input: Seq<u8>,
    pub access_list: Seq<AccessListItemView>,
    pub blob_versioned_hashes: Seq<B256>,
    pub authorization_list: Seq<Authorization>,
}

impl View for TxPayload {
    type V = TxPayloadView;

    open spec fn view(&self) -> TxPayloadView {
        TxPayloadView {
            input: self.input@,
            access_list: self.access_list@.map_values(|a: AccessListItem| a@),
            blob_versioned_hashes: self.blob_versioned_hashes@,
            authorization_list: self.authorization_list@,
        }
    }
}

impl Clone for TxPayload {
    fn clone(&self) -> (r: Self)
        ensures
            r@ == self@,
    {
        let mut access_list: Vec<AccessListItem> = Vec::new();
        let n = self.access_list.len();
        for i in 0..n
            invariant
                n == self.access_list@.len(),
                access_list@.len() == i,
                forall|j: int| 0 <= j < i ==> (#[trigger] access_list@[j])@ == self.access_list@[j]@,
        {
            access_list.push(self.access_list[i].clone());
        }
        let r = TxPayload {
            input: copy_vec(&self.input),
            access_list,
            blob_versioned_hashes: copy_vec(&self.blob_versioned_hashes),
            authorization_list: copy_vec(&self.authorization_list),
        };
        assert(r@.access_list =~= self@.access_list);
        r
    }
}

/// A transaction as the backend stores it.
///
/// `signature_hash` is the hash that `signature` signs (for a typed transaction,
/// the Keccak-256 digest of its type byte and the RLP of its unsigned fields);
/// `impersonated_sender` is set for transactions sent on behalf of an impersonated account.
#[derive(Debug, PartialEq, Eq)]
pub struct Transaction {
    pub hash: B256,
    pub kind: TxKind,
    pub chain_id: Option<u64>,
    pub nonce: u64,
    pub gas_limit: u64,
    /// The gas price of a legacy or access-list transaction, the fee cap of the others.
    pub max_fee_per_gas: u128,
    pub max_priority_fee_per_gas: Option<u128>,
    pub to: Option<Address>,
    pub value: U256,
    pub payload: TxPayload,
    pub signature: Signature,
    pub signature_hash: [u8; 32],
    pub impersonated_sender: Option<Address>,
}

pub struct TransactionView {
    pub hash: B256,
    pub kind: TxKind,
    pub chain_id: Option<u64>,
    pub nonce: u64,
    pub gas_limit: u64,
    pub max_fee_per_gas: u128,
    pub max_priority_fee_per_gas: Option<u128>,
    pub to: Option<Address>,
    pub value: U256,
    pub payload: TxPayloadView,
    pub signature: Signature,
    pub signature_hash: [u8; 32],
    pub impersonated_sender: Option<Address>,
}

impl View for Transaction {
    type V = TransactionView;

    open spec fn view(&self) -> TransactionView {
        TransactionView {
            hash: self.hash,
            kind: self.kind,
            chain_id: self.chain_id,
            nonce: self.nonce,
            gas_limit: self.gas_limit,
            max_fee_per_gas: self.max_fee_per_gas,
            max_priority_fee_per_gas: self.max_priority_fee_per_gas,
            to: self.to,
            value: self.value,
            payload: self.payload@,
            signature: self.signature,
            signature_hash: self.signature_hash,
            impersonated_sender: self.impersonated_sender,
        }
    }
}

impl Clone for Transaction {
    fn clone(&self) -> (r: Self)
        ensures
            r@ == self@,
    {
        Transaction {
            hash: self.hash,
            kind: self.kind,
            chain_id: self.chain_id,
            nonce: self.nonce,
            gas_limit: self.gas_limit,
            max_fee_per_gas: self.max_fee_per_gas,
            max_priority_fee_per_gas: self.max_priority_fee_per_gas,
            to: self.to,
            value: self.value,
            payload: self.payload.clone(),
            signature: self.signature,
            signature_hash: self.signature_hash,
            impersonated_sender: self.impersonated_sender,
        }
    }
}

/// The views of a sequence of stored transactions.
pub open spec fn txs_view(txs: Seq<Transaction>) -> Seq<TransactionView> {
    txs.map_values(|t: Transaction| t@)
}

/// A copy of a list of stored transactions.
pub fn clone_txs(txs: &Vec<Transaction>) -> (r: Vec<Transaction>)
    ensures
        txs_view(r@) == txs_view(txs@),
{
    let mut r: Vec<Transaction> = Vec::new();
    let n = txs.len();
    for i in 0..n
        invariant
            n == txs@.len(),
            r@.len() == i,
            forall|j: int| 0 <= j < i ==> (#[trigger] r@[j])@ == txs@[j]@,
    {
        r.push(txs[i].clone());
    }
    assert(txs_view(r@) =~= txs_view(txs@));
    r
}

/// A signed Ethereum transaction in the form reth expects.
#[derive(Debug, PartialEq, Eq)]
pub struct TransactionSigned {
    pub hash: B256,
    pub tx_type: TxType,
    pub chain_id: Option<u64>,
    pub nonce: u64,
    pub gas_limit: u64,
    pub max_fee_per_gas: u128,
    pub max_priority_fee_per_gas: Option<u128>,
    pub to: Option<Address>,
    pub value: U256,
    pub payload: TxPayload,
    pub signature: Signature,
}

pub struct TransactionSignedView {
    pub hash: B256,
    pub tx_type: TxType,
    pub chain_id: Option<u64>,
    pub nonce: u64,
    pub gas_limit: u64,
    pub max_fee_per_gas: u128,
    pub max_priority_fee_per_gas: Option<u128>,
    pub to: Option<Address>,
    pub value: U256,
    pub payload: TxPayloadView,
    pub signature: Signature,
}

impl View for TransactionSigned {
    type V = TransactionSignedView;

    open spec fn view(&self) -> TransactionSignedView {
        TransactionSignedView {
            hash: self.hash,
            tx_type: self.tx_type,
            chain_id: self.chain_id,
            nonce: self.nonce,
            gas_limit: self.gas_limit,
            max_fee_per_gas: self.max_fee_per_gas,
            max_priority_fee_per_gas: self.max_priority_fee_per_gas,
            to: self.to,
            value: self.value,
            payload: self.payload@,
            signature: self.signature,
        }
    }
}

/// The views of a sequence of reth transactions.
pub open spec fn signed_txs_view(txs: Seq<TransactionSigned>) -> Seq<TransactionSignedView> {
    txs.map_values(|t: TransactionSigned| t@)
}

/// A block as the backend stores it.
pub struct Block {
    pub header: Header,
    pub transactions: Vec<Transaction>,
    pub withdrawals: Option<Vec<Withdrawal>>,
}

pub struct BlockView {
    pub header: HeaderView,
    pub transactions: Seq<TransactionView>,
    pub withdrawals: Option<Seq<Withdrawal>>,
}

pub open spec fn opt_vec_view<T>(v: Option<Vec<T>>) -> Option<Seq<T>> {
    match v {
        Some(w) => Some(w@),
        None => None,
    }
}

pub fn copy_opt_vec<T: Copy>(v: &Option<Vec<T>>) -> (r: Option<Vec<T>>)
    ensures
        opt_vec_view(r) == opt_vec_view(*v),
{
    match v {
        Some(w) => Some(copy_vec(w)),
        None => None,
    }
}

impl View for Block {
    type V = BlockView;

    open spec fn view(&self) -> BlockView {
        BlockView {
            header: self.header@,
            transactions: txs_view(self.transactions@),
            withdrawals: opt_vec_view(self.withdrawals),
        }
    }
}

impl Clone for Block {
    fn clone(&self) -> (r: Self)
        ensures
            r@ == self@,
    {
        Block {
            header: self.header.clone(),
            transactions: clone_txs(&self.transactions),
            withdrawals: copy_opt_vec(&self.withdrawals),
        }
    }
}

/// An event log emitted by a transaction.
pub struct Log {
    pub address: Address,
    pub topics: Vec<B256>,
    pub data: Vec<u8>,
}

pub struct LogView {
    pub address: Address,
    pub topics: Seq<B256>,
    pub data: Seq<u8>,
}

impl View for Log {
    type V = LogView;

    open spec fn view(&self) -> LogView {
        LogView { address: self.address, topics: self.topics@, data: self.data@ }
    }
}

impl Clone for Log {
    fn clone(&self) -> (r: Self)
        ensures
            r@ == self@,
    {
        Log { address: self.address, topics: copy_vec(&self.topics), data: copy_vec(&self.data) }
    }
}

/// The views of a sequence of logs.
pub open spec fn logs_view(logs: Seq<Log>) -> Seq<LogView> {
    logs.map_values(|l: Log| l@)
}

/// A copy of a list of logs.
pub fn clone_logs(logs: &Vec<Log>) -> (r: Vec<Log>)
    ensures
        logs_view(r@) == logs_view(logs@),
{
    let mut r: Vec<Log> = Vec::new();
    let n = logs.len();
    for i in 0..n
        invariant
            n == logs@.len(),
            r@.len() == i,
            forall|j: int| 0 <= j < i ==> (#[trigger] r@[j])@ == logs@[j]@,
    {
        let l = logs[i].clone();
        r.push(l);
    }
    assert(logs_view(r@) =~= logs_view(logs@));
    r
}

/// The body of a reth block.
pub struct RethBlockBody {
    pub transactions: Vec<TransactionSigned>,
    pub ommers: Vec<Header>,
    pub withdrawals: Option<Vec<Withdrawal>>,
}

pub struct RethBlockBodyView {
    pub transactions: Seq<TransactionSignedView>,
    pub ommers: Seq<HeaderView>,
    pub withdrawals: Option<Seq<Withdrawal>>,
}

impl View for RethBlockBody {
    type V = RethBlockBodyView;

    open spec fn view(&self) -> RethBlockBodyView {
        RethBlockBodyView {
            transactions: signed_txs_view(self.transactions@),
            ommers: self.ommers@.map_values(|h: Header| h@),
            withdrawals: opt_vec_view(self.withdrawals),
        }
    }
}

/// A reth block: a header and a body.
pub struct RethBlock {
    pub header: Header,
    pub body: RethBlockBody,
}

pub struct RethBlockView {
    pub header: HeaderView,
    pub body: RethBlockBodyView,
}

impl View for RethBlock {
    type V = RethBlockView;

    open spec fn view(&self) -> RethBlockView {
        RethBlockView { header: self.header@, body: self.body@ }
    }
}

/// A header together with the hash it is known by.
pub struct SealedHeader {
    pub header: Header,
    pub hash: B256,
}

pub struct SealedHeaderView {
    pub header: HeaderView,
    pub hash: B256,
}

impl View for SealedHeader {
    type V = SealedHeaderView;

    open spec fn view(&self) -> SealedHeaderView {
        SealedHeaderView { header: self.header@, hash: self.hash }
    }
}

/// A reth block together with the hash it is known by.
pub struct SealedBlock {
    pub block: RethBlock,
    pub hash: B256,
}

pub struct SealedBlockView {
    pub block: RethBlockView,
    pub hash: B256,
}

impl View for SealedBlock {
    type V = SealedBlockView;

    open spec fn view(&self) -> SealedBlockView {
        SealedBlockView { block: self.block@, hash: self.hash }
    }
}

impl SealedBlock {
    /// The block without its hash.
    pub fn into_block(self) -> (r: RethBlock)
        ensures
            r@ == self@.block,
    {
        self.block
    }
}

/// A sealed block together with the sender of each of its transactions.
pub struct RecoveredBlock {
    pub block: SealedBlock,
    pub senders: Vec<Address>,
}

pub struct RecoveredBlockView {
    pub block: SealedBlockView,
    pub senders: Seq<Address>,
}

impl View for RecoveredBlock {
    type V = RecoveredBlockView;

    open spec fn view(&self) -> RecoveredBlockView {
        RecoveredBlockView { block: self.block@, senders: self.senders@ }
    }
}

} // verus!
