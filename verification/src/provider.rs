//! `AnvilProvider`: answers reth's block, header, transaction, receipt and state
//! queries from a [`BackendView`].
use std::sync::Arc;
use vstd::prelude::*;
use crate::backend::{
    AccountInfo, BackendView, Bytecode, DatabaseError, MinedTx, StateModel,
    StateRef,
    opt_block_view,
};
use crate::block::{
    Block, BlockView, Header, RecoveredBlock, RecoveredBlockView, RethBlock, RethBlockView,
    SealedBlock, SealedBlockView, SealedHeader, SealedHeaderView, HeaderView, Transaction,
    TransactionSignedView, TransactionView, signed_txs_view,
    TransactionSigned, opt_vec_view,
};
use crate::convert::{
    convert_block, convert_receipt_view, convert_tx, converted_txs, senders_of, signed_of,
    spec_convert_block, spec_convert_receipt, spec_convert_tx, spec_sealed_block,
};
use crate::primitives::{
    Address, B256, BlockHashOrNumber, BlockId, BlockNumHash, BlockNumberOrTag, Bound, ChainInfo,
    U256, keccak_empty, spec_keccak_empty,
};
use crate::receipt::{RethReceipt, RethReceiptView, opt_receipt_view};
use crate::text::{append_hex_b256, spec_hex_b256};

verus! {

/// An error answered to a provider query.
#[derive(Clone, Copy, Debug, PartialEq, Eq, Structural)]
pub enum ProviderError {
    /// A read of the state database failed.
    Database(DatabaseError),
    /// The latest state's lock is held for writing; answered without waiting.
    DbReadLockBusy,
    /// No canonical block has the requested number.
    BlockHashNotFound(B256),
    /// No state is kept for the block with this hash.
    StateForHashNotFound(B256),
    FinalizedBlockNotFound,
    SafeBlockNotFound,
}

impl ProviderError {
    /// The text of the error.
    pub open spec fn spec_message(&self) -> Seq<char> {
        match *self {
            ProviderError::Database(e) => e.spec_message(),
            ProviderError::DbReadLockBusy => "db read lock busy"@,
            ProviderError::BlockHashNotFound(h) => "block hash "@ + spec_hex_b256(h)
                + " does not exist in Headers table"@,
            ProviderError::StateForHashNotFound(h) => "no state found for block hash "@
                + spec_hex_b256(h),
            ProviderError::FinalizedBlockNotFound => "finalized block not found"@,
            ProviderError::SafeBlockNotFound => "safe block not found"@,
        }
    }

    /// The text of the error.
    pub fn message(&self) -> (r: String)
        ensures
            r@ == self.spec_message(),
    {
        match *self {
            ProviderError::Database(e) => e.message(),
            ProviderError::DbReadLockBusy => String::from_str("db read lock busy"),
            ProviderError::BlockHashNotFound(h) => {
                let mut s = String::from_str("block hash ");
                append_hex_b256(&mut s, h);
                s.append(" does not exist in Headers table");
                s
            },
            ProviderError::StateForHashNotFound(h) => {
                let mut s = String::from_str("no state found for block hash ");
                append_hex_b256(&mut s, h);
                s
            },
            ProviderError::FinalizedBlockNotFound => String::from_str("finalized block not found"),
            ProviderError::SafeBlockNotFound => String::from_str("safe block not found"),
        }
    }
}

/// Where a block is looked up.
#[derive(Clone, Copy, Debug, PartialEq, Eq, Structural)]
pub enum BlockSource {
    Any,
    Pending,
    Canonical,
}

/// Which form of transaction a recovered block should hold.
#[derive(Clone, Copy, Debug, PartialEq, Eq, Structural)]
pub enum TransactionVariant {
    NoHash,
    WithHash,
}

/// Where a mined transaction stands in the chain.
#[derive(Clone, Copy, Debug, PartialEq, Eq, Structural)]
pub struct TransactionMeta {
    pub tx_hash: B256,
    pub index: u64,
    pub block_hash: B256,
    pub block_number: u64,
    pub base_fee: Option<u64>,
    pub excess_blob_gas: Option<u64>,
    pub timestamp: u64,
}

/// An account as reth sees it: `bytecode_hash` is `None` for an account without code.
#[derive(Clone, Copy, Debug, PartialEq, Eq, Structural)]
pub struct Account {
    pub nonce: u64,
    pub balance: U256,
    pub bytecode_hash: Option<B256>,
}

/// Where a block's transactions start in a global transaction numbering, and how many there are.
#[derive(Clone, Copy, Debug, PartialEq, Eq, Structural)]
pub struct StoredBlockBodyIndices {
    pub first_tx_num: u64,
    pub tx_count: u64,
}

/// An account as it was before a transaction changed it.
#[derive(Clone, Copy, Debug, PartialEq, Eq, Structural)]
pub struct AccountBeforeTx {
    pub address: Address,
    pub info: Option<Account>,
}

pub open spec fn opt_reth_block_view(b: Option<RethBlock>) -> Option<RethBlockView> {
    match b {
        Some(x) => Some(x@),
        None => None,
    }
}

pub open spec fn opt_recovered_view(b: Option<RecoveredBlock>) -> Option<RecoveredBlockView> {
    match b {
        Some(x) => Some(x@),
        None => None,
    }
}

// ---------------------------------------------------------------------------
// What each query answers, over the backend's description of the chain.
// ---------------------------------------------------------------------------

/// The hash a block id names: a hash names itself where such a block is stored,
/// a number names the canonical hash for it.
pub open spec fn spec_resolve<B: BackendView>(b: B, id: BlockHashOrNumber) -> Option<B256> {
    match id {
        BlockHashOrNumber::Hash(h) => if b.spec_block(h) is Some {
            Some(h)
        } else {
            None
        },
        BlockHashOrNumber::Number(n) => b.spec_number_to_hash(n),
    }
}

/// The canonical block with the given number, with its hash.
pub open spec fn canonical_block<B: BackendView>(b: B, n: u64) -> Option<(B256, BlockView)> {
    match b.spec_number_to_hash(n) {
        Some(h) => match b.spec_block(h) {
            Some(blk) => Some((h, blk)),
            None => None,
        },
        None => None,
    }
}

/// The canonical blocks with numbers in `start..end`, in order of number,
/// leaving out numbers that have no stored canonical block.
pub open spec fn canonical_blocks<B: BackendView>(b: B, start: int, end: int) -> Seq<(B256, BlockView)>
    decreases end - start,
{
    if end <= start {
        Seq::empty()
    } else {
        let rest = canonical_blocks(b, start, end - 1);
        match canonical_block(b, (end - 1) as u64) {
            Some(p) => rest.push(p),
            None => rest,
        }
    }
}

/// The canonical hashes for numbers in `start..end`, in order, leaving out
/// numbers without one.
pub open spec fn canonical_hashes<B: BackendView>(b: B, start: int, end: int) -> Seq<B256>
    decreases end - start,
{
    if end <= start {
        Seq::empty()
    } else {
        let rest = canonical_hashes(b, start, end - 1);
        match b.spec_number_to_hash((end - 1) as u64) {
            Some(h) => rest.push(h),
            None => rest,
        }
    }
}

pub open spec fn headers_of(s: Seq<(B256, BlockView)>) -> Seq<HeaderView> {
    s.map_values(|p: (B256, BlockView)| p.1.header)
}

pub open spec fn sealed_headers_of(s: Seq<(B256, BlockView)>) -> Seq<SealedHeaderView> {
    s.map_values(|p: (B256, BlockView)| SealedHeaderView { header: p.1.header, hash: p.0 })
}

pub open spec fn reth_blocks_of(s: Seq<(B256, BlockView)>) -> Seq<RethBlockView> {
    s.map_values(|p: (B256, BlockView)| spec_convert_block(p.1))
}

/// The recovered form of a stored block: converted, sealed under the hash of its
/// header, with the senders of its converted transactions.
pub open spec fn spec_recovered(block: BlockView) -> RecoveredBlockView {
    RecoveredBlockView {
        block: spec_sealed_block(block),
        senders: senders_of(converted_txs(block.transactions)),
    }
}

pub open spec fn recovered_of(s: Seq<(B256, BlockView)>) -> Seq<RecoveredBlockView> {
    s.map_values(|p: (B256, BlockView)| spec_recovered(p.1))
}

pub open spec fn opt_header_view(h: Option<Header>) -> Option<HeaderView> {
    match h {
        Some(x) => Some(x@),
        None => None,
    }
}

pub open spec fn opt_sealed_header_view(h: Option<SealedHeader>) -> Option<SealedHeaderView> {
    match h {
        Some(x) => Some(x@),
        None => None,
    }
}

/// `taken` is the longest prefix of `all` whose every element `predicate` accepts.
pub open spec fn taken_while<F: Fn(&SealedHeader) -> bool>(
    predicate: F,
    all: Seq<SealedHeaderView>,
    taken: Seq<SealedHeader>,
) -> bool {
    &&& taken.len() <= all.len()
    &&& forall|i: int| 0 <= i < taken.len() ==> (#[trigger] taken[i])@ == all[i]
    &&& forall|i: int| 0 <= i < taken.len() ==> call_ensures(predicate, (&(#[trigger] taken[i]),), true)
    &&& taken.len() < all.len() ==> exists|h: SealedHeader|
        h@ == all[taken.len() as int] && call_ensures(predicate, (&h,), false)
}

/// The first block number of a range.
pub open spec fn range_start(start: Bound) -> int {
    match start {
        Bound::Included(n) => n as int,
        Bound::Excluded(n) => n + 1,
        Bound::Unbounded => 0,
    }
}

/// The end (exclusive) of a range; an unbounded range ends after the best block.
pub open spec fn range_end<B: BackendView>(b: B, end: Bound) -> int {
    match end {
        Bound::Included(n) => n + 1,
        Bound::Excluded(n) => n as int,
        Bound::Unbounded => b.spec_best_number() + 1,
    }
}

/// A range whose ends can be computed in 64 bits.
pub open spec fn range_fits<B: BackendView>(b: B, start: Bound, end: Bound) -> bool {
    &&& start != Bound::Excluded(u64::MAX)
    &&& end != Bound::Included(u64::MAX)
    &&& end == Bound::Unbounded ==> b.spec_best_number() < u64::MAX
}

/// The number and hash of the block a tag names; the number is 0 where no block
/// with that hash is stored.
pub open spec fn spec_tag_num_hash<B: BackendView>(b: B, tag: BlockNumberOrTag) -> Option<BlockNumHash> {
    match b.spec_tag_hash(tag) {
        Some(h) => Some(
            BlockNumHash {
                number: match b.spec_block(h) {
                    Some(blk) => blk.header.number,
                    None => 0,
                },
                hash: h,
            },
        ),
        None => None,
    }
}

/// The hash a block id names, as reth's `block_hash_for_id` resolves it.
pub open spec fn spec_hash_for_id<B: BackendView>(b: B, id: BlockId) -> Option<B256> {
    match id {
        BlockId::Hash(h) => Some(h.block_hash),
        BlockId::Number(tag) => match tag {
            BlockNumberOrTag::Latest => Some(b.spec_best_hash()),
            BlockNumberOrTag::Pending => None,
            BlockNumberOrTag::Finalized => match spec_tag_num_hash(b, BlockNumberOrTag::Finalized) {
                Some(nh) => Some(nh.hash),
                None => None,
            },
            BlockNumberOrTag::Safe => match spec_tag_num_hash(b, BlockNumberOrTag::Safe) {
                Some(nh) => Some(nh.hash),
                None => None,
            },
            BlockNumberOrTag::Earliest => b.spec_number_to_hash(0),
            BlockNumberOrTag::Number(n) => b.spec_number_to_hash(n),
        },
    }
}

/// The reth block stored under a hash.
pub open spec fn spec_find_block<B: BackendView>(b: B, hash: B256) -> Option<RethBlockView> {
    match b.spec_block(hash) {
        Some(blk) => Some(spec_convert_block(blk)),
        None => None,
    }
}

/// The reth block that a block id names.
pub open spec fn spec_block_at<B: BackendView>(b: B, id: BlockHashOrNumber) -> Option<RethBlockView> {
    match spec_resolve(b, id) {
        Some(h) => spec_find_block(b, h),
        None => None,
    }
}

/// The header stored under a hash.
pub open spec fn spec_header<B: BackendView>(b: B, hash: B256) -> Option<HeaderView> {
    match b.spec_block(hash) {
        Some(blk) => Some(blk.header),
        None => None,
    }
}

/// The recovered block that a block id names.
pub open spec fn spec_recovered_at<B: BackendView>(b: B, id: BlockHashOrNumber) -> Option<RecoveredBlockView> {
    match spec_resolve(b, id) {
        Some(h) => match b.spec_block(h) {
            Some(blk) => Some(spec_recovered(blk)),
            None => None,
        },
        None => None,
    }
}

/// The stored transaction of a mined transaction: the one at its index in its block.
pub open spec fn spec_mined_stored_tx<B: BackendView>(b: B, hash: B256) -> Option<(TransactionView, BlockView)> {
    match b.spec_mined_tx(hash) {
        Some(m) => match b.spec_block(m.block_hash) {
            Some(blk) => {
                let idx = (m.info.transaction_index as usize) as int;
                if idx < blk.transactions.len() {
                    Some((blk.transactions[idx], blk))
                } else {
                    None
                }
            },
            None => None,
        },
        None => None,
    }
}

pub open spec fn opt_signed_view(t: Option<TransactionSigned>) -> Option<TransactionSignedView> {
    match t {
        Some(x) => Some(x@),
        None => None,
    }
}

pub open spec fn opt_signed_meta_view(t: Option<(TransactionSigned, TransactionMeta)>) -> Option<(TransactionSignedView, TransactionMeta)> {
    match t {
        Some((x, m)) => Some((x@, m)),
        None => None,
    }
}

pub open spec fn opt_signed_txs_view(v: Option<Vec<TransactionSigned>>) -> Option<Seq<TransactionSignedView>> {
    match v {
        Some(w) => Some(signed_txs_view(w@)),
        None => None,
    }
}

/// The reth transaction for a mined transaction hash.
pub open spec fn spec_tx_by_hash<B: BackendView>(b: B, hash: B256) -> Option<TransactionSignedView> {
    match spec_mined_stored_tx(b, hash) {
        Some((tx, _)) => match spec_convert_tx(tx) {
            Some(p) => Some(p.0),
            None => None,
        },
        None => None,
    }
}

/// The reth transaction for a mined transaction hash, with where it stands.
pub open spec fn spec_tx_with_meta<B: BackendView>(b: B, hash: B256) -> Option<(TransactionSignedView, TransactionMeta)> {
    match spec_tx_by_hash(b, hash) {
        Some(t) => {
            let m = b.spec_mined_tx(hash).unwrap();
            let blk = b.spec_block(m.block_hash).unwrap();
            Some(
                (
                    t,
                    TransactionMeta {
                        tx_hash: hash,
                        index: m.info.transaction_index,
                        block_hash: m.block_hash,
                        block_number: m.block_number,
                        base_fee: blk.header.base_fee_per_gas,
                        excess_blob_gas: blk.header.excess_blob_gas,
                        timestamp: blk.header.timestamp,
                    },
                ),
            )
        },
        None => None,
    }
}

/// The reth transactions of the block a block id names.
pub open spec fn spec_block_txs<B: BackendView>(b: B, id: BlockHashOrNumber) -> Option<Seq<TransactionSignedView>> {
    match spec_resolve(b, id) {
        Some(h) => match b.spec_block(h) {
            Some(blk) => Some(signed_of(converted_txs(blk.transactions))),
            None => None,
        },
        None => None,
    }
}

/// The reth receipt of a mined transaction.
pub open spec fn spec_receipt<B: BackendView>(b: B, hash: B256) -> Option<RethReceiptView> {
    match b.spec_mined_tx(hash) {
        Some(m) => spec_convert_receipt(m.receipt),
        None => None,
    }
}

/// The reth receipts of the transactions with the given hashes, in order,
/// leaving out those that have none.
pub open spec fn receipts_of<B: BackendView>(b: B, hashes: Seq<B256>) -> Seq<RethReceiptView>
    decreases hashes.len(),
{
    if hashes.len() == 0 {
        Seq::empty()
    } else {
        let rest = receipts_of(b, hashes.drop_last());
        match spec_receipt(b, hashes.last()) {
            Some(r) => rest.push(r),
            None => rest,
        }
    }
}

/// The reth receipts of the block a block id names.
pub open spec fn spec_block_receipts<B: BackendView>(b: B, id: BlockHashOrNumber) -> Option<Seq<RethReceiptView>> {
    match spec_resolve(b, id) {
        Some(h) => match b.spec_block(h) {
            Some(blk) => Some(receipts_of(b, blk.transactions.map_values(|t: TransactionView| t.hash))),
            None => None,
        },
        None => None,
    }
}

/// The latest state, or the error that reading it gives.
pub open spec fn spec_latest<B: BackendView>(b: B) -> Result<StateModel, ProviderError> {
    match b.spec_current_state() {
        Some(s) => Ok(s),
        None => Err(ProviderError::DbReadLockBusy),
    }
}

/// The state for the block with the given hash: the latest state for the best
/// block, otherwise the state kept for that block.
pub open spec fn spec_history_by_hash<B: BackendView>(b: B, hash: B256) -> Result<StateModel, ProviderError> {
    if hash == b.spec_best_hash() {
        spec_latest(b)
    } else {
        match b.spec_stored_state(hash) {
            Some(s) => Ok(s),
            None => Err(ProviderError::StateForHashNotFound(hash)),
        }
    }
}

/// The state for the canonical block with the given number.
pub open spec fn spec_history_by_number<B: BackendView>(b: B, number: u64) -> Result<StateModel, ProviderError> {
    match b.spec_number_to_hash(number) {
        Some(h) => spec_history_by_hash(b, h),
        None => Err(ProviderError::BlockHashNotFound(B256::spec_zero())),
    }
}

/// The state a block number or tag names.
pub open spec fn spec_state_by_tag<B: BackendView>(b: B, tag: BlockNumberOrTag) -> Result<StateModel, ProviderError> {
    match tag {
        BlockNumberOrTag::Latest => spec_latest(b),
        BlockNumberOrTag::Pending => spec_latest(b),
        BlockNumberOrTag::Earliest => spec_history_by_number(b, 0),
        BlockNumberOrTag::Number(n) => spec_history_by_number(b, n),
        BlockNumberOrTag::Finalized => match spec_tag_num_hash(b, BlockNumberOrTag::Finalized) {
            Some(nh) => spec_history_by_hash(b, nh.hash),
            None => Err(ProviderError::FinalizedBlockNotFound),
        },
        BlockNumberOrTag::Safe => match spec_tag_num_hash(b, BlockNumberOrTag::Safe) {
            Some(nh) => spec_history_by_hash(b, nh.hash),
            None => Err(ProviderError::SafeBlockNotFound),
        },
    }
}

pub open spec fn state_provider_model<S: StateRef>(r: Result<AnvilStateProvider<S>, ProviderError>) -> Result<
    StateModel,
    ProviderError,
> {
    match r {
        Ok(p) => Ok(p.model()),
        Err(e) => Err(e),
    }
}

// ---------------------------------------------------------------------------
// The provider.
// ---------------------------------------------------------------------------

/// Provider that wraps a [`BackendView`] and answers reth's storage queries.
pub struct AnvilProvider<B, C> {
    backend: Arc<B>,
    chain_spec: Arc<C>,
}

impl<B, C> Clone for AnvilProvider<B, C> {
    fn clone(&self) -> (r: Self)
        ensures
            r.spec_backend() == self.spec_backend(),
            r.spec_chain_spec() == self.spec_chain_spec(),
    {
        AnvilProvider { backend: Arc::clone(&self.backend), chain_spec: Arc::clone(&self.chain_spec) }
    }
}

impl<B, C> AnvilProvider<B, C> {
    /// The backend the provider reads.
    pub closed spec fn spec_backend(&self) -> B {
        *self.backend
    }

    /// The chain specification the provider hands out.
    pub closed spec fn spec_chain_spec(&self) -> C {
        *self.chain_spec
    }
}

impl<B: BackendView, C> AnvilProvider<B, C> {
    pub fn new(backend: Arc<B>, chain_spec: Arc<C>) -> (r: Self)
        ensures
            r.spec_backend() == *backend,
            r.spec_chain_spec() == *chain_spec,
    {
        AnvilProvider { backend, chain_spec }
    }

    /// Resolve a block hash from the blockchain storage.
    fn resolve_block_hash(&self, id: BlockHashOrNumber) -> (r: Option<B256>)
        ensures
            r == spec_resolve(self.spec_backend(), id),
    {
        match id {
            BlockHashOrNumber::Hash(h) => {
                if self.backend.has_block(h) {
                    Some(h)
                } else {
                    None
                }
            },
            BlockHashOrNumber::Number(n) => self.backend.number_to_hash(n),
        }
    }

    /// Get a block from storage by hash.
    fn get_block(&self, hash: &B256) -> (r: Option<Block>)
        ensures
            opt_block_view(r) == self.spec_backend().spec_block(*hash),
    {
        self.backend.block_by_hash(*hash)
    }

    // ----- block hashes and numbers -----

    pub fn block_hash(&self, number: u64) -> (r: Result<Option<B256>, ProviderError>)
        ensures
            r == Ok::<Option<B256>, ProviderError>(self.spec_backend().spec_number_to_hash(number)),
    {
        Ok(self.backend.number_to_hash(number))
    }

    /// The canonical hashes of the blocks numbered `start..end`.
    pub fn canonical_hashes_range(&self, start: u64, end: u64) -> (r: Result<Vec<B256>, ProviderError>)
        ensures
            r matches Ok(v) && v@ == canonical_hashes(self.spec_backend(), start as int, end as int),
    {
        let mut hashes: Vec<B256> = Vec::new();
        if start >= end {
            assert(canonical_hashes(self.spec_backend(), start as int, end as int) =~= Seq::<B256>::empty());
            return Ok(hashes);
        }
        let mut n = start;
        while n < end
            invariant
                start <= n <= end,
                hashes@ == canonical_hashes(self.spec_backend(), start as int, n as int),
            decreases end - n,
        {
            if let Some(h) = self.backend.number_to_hash(n) {
                hashes.push(h);
                assert(hashes@ =~= canonical_hashes(self.spec_backend(), start as int, n + 1));
            }
            n = n + 1;
        }
        Ok(hashes)
    }

    pub fn chain_info(&self) -> (r: Result<ChainInfo, ProviderError>)
        ensures
            r == Ok::<ChainInfo, ProviderError>(
                ChainInfo {
                    best_hash: self.spec_backend().spec_best_hash(),
                    best_number: self.spec_backend().spec_best_number(),
                },
            ),
    {
        Ok(ChainInfo { best_hash: self.backend.best_hash(), best_number: self.backend.best_number() })
    }

    pub fn best_block_number(&self) -> (r: Result<u64, ProviderError>)
        ensures
            r == Ok::<u64, ProviderError>(self.spec_backend().spec_best_number()),
    {
        Ok(self.backend.best_number())
    }

    pub fn last_block_number(&self) -> (r: Result<u64, ProviderError>)
        ensures
            r == Ok::<u64, ProviderError>(self.spec_backend().spec_best_number()),
    {
        Ok(self.backend.best_number())
    }

    /// The number of the block stored under a hash.
    pub fn block_number(&self, hash: B256) -> (r: Result<Option<u64>, ProviderError>)
        ensures
            r == Ok::<Option<u64>, ProviderError>(
                match self.spec_backend().spec_block(hash) {
                    Some(blk) => Some(blk.header.number),
                    None => None,
                },
            ),
    {
        match self.backend.block_by_hash(hash) {
            Some(b) => Ok(Some(b.header.number)),
            None => Ok(None),
        }
    }

    fn tag_num_hash(&self, tag: BlockNumberOrTag) -> (r: Option<BlockNumHash>)
        ensures
            r == spec_tag_num_hash(self.spec_backend(), tag),
    {
        match self.backend.block_hash(tag) {
            Some(h) => {
                let number = match self.backend.block_by_hash(h) {
                    Some(b) => b.header.number,
                    None => 0,
                };
                Some(BlockNumHash { number, hash: h })
            },
            None => None,
        }
    }

    /// There is no pending block.
    pub fn pending_block_num_hash(&self) -> (r: Result<Option<BlockNumHash>, ProviderError>)
        ensures
            r == Ok::<Option<BlockNumHash>, ProviderError>(None),
    {
        Ok(None)
    }

    pub fn safe_block_num_hash(&self) -> (r: Result<Option<BlockNumHash>, ProviderError>)
        ensures
            r == Ok::<Option<BlockNumHash>, ProviderError>(
                spec_tag_num_hash(self.spec_backend(), BlockNumberOrTag::Safe),
            ),
    {
        Ok(self.tag_num_hash(BlockNumberOrTag::Safe))
    }

    pub fn finalized_block_num_hash(&self) -> (r: Result<Option<BlockNumHash>, ProviderError>)
        ensures
            r == Ok::<Option<BlockNumHash>, ProviderError>(
                spec_tag_num_hash(self.spec_backend(), BlockNumberOrTag::Finalized),
            ),
    {
        Ok(self.tag_num_hash(BlockNumberOrTag::Finalized))
    }

    pub fn safe_block_hash(&self) -> (r: Result<Option<B256>, ProviderError>)
        ensures
            r == Ok::<Option<B256>, ProviderError>(
                match spec_tag_num_hash(self.spec_backend(), BlockNumberOrTag::Safe) {
                    Some(nh) => Some(nh.hash),
                    None => None,
                },
            ),
    {
        match self.tag_num_hash(BlockNumberOrTag::Safe) {
            Some(nh) => Ok(Some(nh.hash)),
            None => Ok(None),
        }
    }

    pub fn finalized_block_hash(&self) -> (r: Result<Option<B256>, ProviderError>)
        ensures
            r == Ok::<Option<B256>, ProviderError>(
                match spec_tag_num_hash(self.spec_backend(), BlockNumberOrTag::Finalized) {
                    Some(nh) => Some(nh.hash),
                    None => None,
                },
            ),
    {
        match self.tag_num_hash(BlockNumberOrTag::Finalized) {
            Some(nh) => Ok(Some(nh.hash)),
            None => Ok(None),
        }
    }

    /// The hash a block id names.
    pub fn block_hash_for_id(&self, id: BlockId) -> (r: Result<Option<B256>, ProviderError>)
        ensures
            r == Ok::<Option<B256>, ProviderError>(spec_hash_for_id(self.spec_backend(), id)),
    {
        match id {
            BlockId::Hash(h) => Ok(Some(h.block_hash)),
            BlockId::Number(tag) => match tag {
                BlockNumberOrTag::Latest => Ok(Some(self.backend.best_hash())),
                BlockNumberOrTag::Pending => Ok(None),
                BlockNumberOrTag::Finalized => self.finalized_block_hash(),
                BlockNumberOrTag::Safe => self.safe_block_hash(),
                BlockNumberOrTag::Earliest => self.block_hash(0),
                BlockNumberOrTag::Number(n) => self.block_hash(n),
            },
        }
    }

    pub fn chain_spec(&self) -> (r: Arc<C>)
        ensures
            *r == self.spec_chain_spec(),
    {
        Arc::clone(&self.chain_spec)
    }
}


impl<B: BackendView, C> AnvilProvider<B, C> {
    // ----- headers -----

    pub fn header(&self, block_hash: B256) -> (r: Result<Option<Header>, ProviderError>)
        ensures
            r matches Ok(h) && opt_header_view(h) == spec_header(self.spec_backend(), block_hash),
    {
        match self.get_block(&block_hash) {
            Some(b) => Ok(Some(b.header)),
            None => Ok(None),
        }
    }

    pub fn header_by_number(&self, num: u64) -> (r: Result<Option<Header>, ProviderError>)
        ensures
            r matches Ok(h) && opt_header_view(h) == match self.spec_backend().spec_number_to_hash(
                num,
            ) {
                Some(h) => spec_header(self.spec_backend(), h),
                None => None,
            },
    {
        match self.backend.number_to_hash(num) {
            Some(h) => self.header(h),
            None => Ok(None),
        }
    }

    /// The headers of the canonical blocks numbered from `start` to `end`, in order.
    pub fn headers_range(&self, start: Bound, end: Bound) -> (r: Result<Vec<Header>, ProviderError>)
        requires
            range_fits(self.spec_backend(), start, end),
        ensures
            r matches Ok(v) && v@.map_values(|h: Header| h@) == headers_of(
                canonical_blocks(
                    self.spec_backend(),
                    range_start(start),
                    range_end(self.spec_backend(), end),
                ),
            ),
    {
        let (first, stop) = self.range_bounds(start, end);
        let mut headers: Vec<Header> = Vec::new();
        if first >= stop {
            assert(canonical_blocks(self.spec_backend(), first as int, stop as int) =~= Seq::<
                (B256, BlockView),
            >::empty());
            assert(headers@.map_values(|h: Header| h@) =~= headers_of(Seq::<(B256, BlockView)>::empty()));
            return Ok(headers);
        }
        let mut n = first;
        while n < stop
            invariant
                first <= n <= stop,
                headers@.map_values(|h: Header| h@) == headers_of(
                    canonical_blocks(self.spec_backend(), first as int, n as int),
                ),
            decreases stop - n,
        {
            if let Some(h) = self.backend.number_to_hash(n) {
                if let Some(block) = self.backend.block_by_hash(h) {
                    let ghost prev = headers@;
                    let ghost bv = block@;
                    assert(canonical_blocks(self.spec_backend(), first as int, n + 1) == canonical_blocks(
                        self.spec_backend(),
                        first as int,
                        n as int,
                    ).push((h, bv)));
                    headers.push(block.header);
                    assert(headers@ == prev.push(headers@.last()));
                    assert(headers@.map_values(|h: Header| h@) =~= prev.map_values(|h: Header| h@).push(bv.header));
                    assert(headers@.map_values(|h: Header| h@) =~= headers_of(
                        canonical_blocks(self.spec_backend(), first as int, n + 1),
                    ));
                }
            }
            n = n + 1;
        }
        Ok(headers)
    }

    /// The first number and the exclusive end of a range, in 64 bits.
    fn range_bounds(&self, start: Bound, end: Bound) -> (r: (u64, u64))
        requires
            range_fits(self.spec_backend(), start, end),
        ensures
            r.0 == range_start(start),
            r.1 == range_end(self.spec_backend(), end),
    {
        let first = match start {
            Bound::Included(n) => n,
            Bound::Excluded(n) => n + 1,
            Bound::Unbounded => 0,
        };
        let stop = match end {
            Bound::Included(n) => n + 1,
            Bound::Excluded(n) => n,
            Bound::Unbounded => self.backend.best_number() + 1,
        };
        (first, stop)
    }

    /// The canonical block numbered `number`, sealed under its hash.
    pub fn sealed_header(&self, number: u64) -> (r: Result<Option<SealedHeader>, ProviderError>)
        ensures
            r matches Ok(s) && opt_sealed_header_view(s) == match canonical_block(
                self.spec_backend(),
                number,
            ) {
                Some(p) => Some(SealedHeaderView { header: p.1.header, hash: p.0 }),
                None => None,
            },
    {
        if let Some(hash) = self.backend.number_to_hash(number) {
            if let Some(block) = self.backend.block_by_hash(hash) {
                return Ok(Some(SealedHeader { header: block.header, hash }));
            }
        }
        Ok(None)
    }

    /// The sealed headers of the canonical blocks in the range, in order, up to
    /// the first one that `predicate` refuses.
    pub fn sealed_headers_while<F: Fn(&SealedHeader) -> bool>(
        &self,
        start: Bound,
        end: Bound,
        predicate: F,
    ) -> (r: Result<Vec<SealedHeader>, ProviderError>)
        requires
            range_fits(self.spec_backend(), start, end),
            forall|h: SealedHeader| call_requires(predicate, (&h,)),
        ensures
            r matches Ok(v) && taken_while(
                predicate,
                sealed_headers_of(
                    canonical_blocks(
                        self.spec_backend(),
                        range_start(start),
                        range_end(self.spec_backend(), end),
                    ),
                ),
                v@,
            ),
    {
        let ghost b = self.spec_backend();
        let (first, stop) = self.range_bounds(start, end);
        let ghost all = sealed_headers_of(canonical_blocks(b, first as int, stop as int));
        let mut headers: Vec<SealedHeader> = Vec::new();
        if first >= stop {
            assert(canonical_blocks(b, first as int, stop as int) =~= Seq::<(B256, BlockView)>::empty());
            return Ok(headers);
        }
        let mut n = first;
        let mut stopped = false;
        while n < stop && !stopped
            invariant
                b == self.spec_backend(),
                all == sealed_headers_of(canonical_blocks(b, first as int, stop as int)),
                first <= n <= stop,
                forall|h: SealedHeader| call_requires(predicate, (&h,)),
                !stopped ==> headers@.map_values(|s: SealedHeader| s@) == sealed_headers_of(
                    canonical_blocks(b, first as int, n as int),
                ),
                headers@.len() <= all.len(),
                forall|i: int| 0 <= i < headers@.len() ==> (#[trigger] headers@[i])@ == all[i],
                stopped ==> {
                    &&& headers@.len() < all.len()
                    &&& exists|h: SealedHeader|
                        h@ == all[headers@.len() as int] && call_ensures(predicate, (&h,), false)
                },
                forall|i: int|
                    0 <= i < headers@.len() ==> call_ensures(predicate, (&(#[trigger] headers@[i]),), true),
            decreases stop - n, if stopped { 0int } else { 1int },
        {
            proof {
                lemma_canonical_blocks_prefix(b, first as int, n as int, stop as int);
                lemma_canonical_blocks_prefix(b, first as int, (n + 1) as int, stop as int);
            }
            let ghost before = canonical_blocks(b, first as int, n as int);
            let ghost next = canonical_blocks(b, first as int, n + 1);
            if let Some(hash) = self.backend.number_to_hash(n) {
                if let Some(block) = self.backend.block_by_hash(hash) {
                    let ghost bv = block@;
                    let sealed = SealedHeader { header: block.header, hash };
                    assert(next == before.push((hash, bv)));
                    let ghost k = before.len() as int;
                    assert(headers@.map_values(|s: SealedHeader| s@).len() == k);
                    assert(canonical_blocks(b, first as int, stop as int)[k] == next[k]);
                    assert(all[k] == sealed@);
                    if !predicate(&sealed) {
                        stopped = true;
                    } else {
                        let ghost prev = headers@;
                        headers.push(sealed);
                        assert(headers@ == prev.push(headers@.last()));
                        assert(headers@.map_values(|s: SealedHeader| s@) =~= sealed_headers_of(next));
                    }
                } else {
                    assert(next == before);
                }
            } else {
                assert(next == before);
            }
            if !stopped {
                n = n + 1;
            }
        }
        proof {
            if !stopped {
                assert(n == stop);
                assert(headers@.map_values(|s: SealedHeader| s@).len() == all.len());
            }
        }
        Ok(headers)
    }
}

/// The canonical blocks of a shorter range are a prefix of those of a longer one.
pub proof fn lemma_canonical_blocks_prefix<B: BackendView>(b: B, start: int, mid: int, end: int)
    requires
        start <= mid <= end,
    ensures
        canonical_blocks(b, start, mid).len() <= canonical_blocks(b, start, end).len(),
        canonical_blocks(b, start, mid) == canonical_blocks(b, start, end).subrange(
            0,
            canonical_blocks(b, start, mid).len() as int,
        ),
    decreases end - mid,
{
    if mid < end {
        lemma_canonical_blocks_prefix(b, start, mid, end - 1);
        let shorter = canonical_blocks(b, start, end - 1);
        let longer = canonical_blocks(b, start, end);
        assert(shorter == longer.subrange(0, shorter.len() as int));
        assert(canonical_blocks(b, start, mid) =~= longer.subrange(
            0,
            canonical_blocks(b, start, mid).len() as int,
        ));
    } else {
        assert(canonical_blocks(b, start, mid) =~= canonical_blocks(b, start, end).subrange(
            0,
            canonical_blocks(b, start, mid).len() as int,
        ));
    }
}

/// Wraps a state snapshot to answer reth's state queries.
pub struct AnvilStateProvider<S>(S);

impl<S: StateRef> AnvilStateProvider<S> {
    /// What each read of the wrapped snapshot returns.
    pub closed spec fn model(&self) -> StateModel {
        self.0.state_model()
    }

    pub fn new(state: S) -> (r: Self)
        ensures
            r.model() == state.state_model(),
    {
        AnvilStateProvider(state)
    }
}


impl<B: BackendView, C> AnvilProvider<B, C> {
    // ----- blocks -----

    /// The converted block stored under a hash; the source is not consulted.
    pub fn find_block_by_hash(&self, hash: B256, source: BlockSource) -> (r: Result<Option<RethBlock>, ProviderError>)
        ensures
            r matches Ok(b) && opt_reth_block_view(b) == spec_find_block(self.spec_backend(), hash),
    {
        match self.get_block(&hash) {
            Some(b) => Ok(Some(convert_block(&b).0.into_block())),
            None => Ok(None),
        }
    }

    pub fn block(&self, id: BlockHashOrNumber) -> (r: Result<Option<RethBlock>, ProviderError>)
        ensures
            r matches Ok(b) && opt_reth_block_view(b) == spec_block_at(self.spec_backend(), id),
    {
        let hash = match self.resolve_block_hash(id) {
            Some(h) => h,
            None => return Ok(None),
        };
        self.find_block_by_hash(hash, BlockSource::Any)
    }

    pub fn block_by_number(&self, number: u64) -> (r: Result<Option<RethBlock>, ProviderError>)
        ensures
            r matches Ok(b) && opt_reth_block_view(b) == spec_block_at(
                self.spec_backend(),
                BlockHashOrNumber::Number(number),
            ),
    {
        self.block(BlockHashOrNumber::Number(number))
    }

    pub fn block_by_hash(&self, hash: B256) -> (r: Result<Option<RethBlock>, ProviderError>)
        ensures
            r matches Ok(b) && opt_reth_block_view(b) == spec_block_at(
                self.spec_backend(),
                BlockHashOrNumber::Hash(hash),
            ),
    {
        self.block(BlockHashOrNumber::Hash(hash))
    }

    /// There is no pending block.
    pub fn pending_block(&self) -> (r: Result<Option<RecoveredBlock>, ProviderError>)
        ensures
            r matches Ok(None),
    {
        Ok(None)
    }

    /// There is no pending block, nor receipts for one.
    pub fn pending_block_and_receipts(&self) -> (r: Result<Option<(RecoveredBlock, Vec<RethReceipt>)>, ProviderError>)
        ensures
            r matches Ok(None),
    {
        Ok(None)
    }

    /// The block a block id names, sealed under its hash, with the senders of its
    /// transactions; the variant is not consulted.
    pub fn recovered_block(&self, id: BlockHashOrNumber, transaction_kind: TransactionVariant) -> (r: Result<Option<RecoveredBlock>, ProviderError>)
        ensures
            r matches Ok(b) && opt_recovered_view(b) == spec_recovered_at(self.spec_backend(), id),
    {
        let hash = match self.resolve_block_hash(id) {
            Some(h) => h,
            None => return Ok(None),
        };
        let anvil_block = match self.get_block(&hash) {
            Some(b) => b,
            None => return Ok(None),
        };
        let (block, senders) = convert_block(&anvil_block);
        Ok(Some(RecoveredBlock { block, senders }))
    }

    pub fn sealed_block_with_senders(&self, id: BlockHashOrNumber, transaction_kind: TransactionVariant) -> (r: Result<Option<RecoveredBlock>, ProviderError>)
        ensures
            r matches Ok(b) && opt_recovered_view(b) == spec_recovered_at(self.spec_backend(), id),
    {
        self.recovered_block(id, transaction_kind)
    }

    /// The converted canonical blocks numbered `start` to `end`, both included, in order.
    pub fn block_range(&self, start: u64, end: u64) -> (r: Result<Vec<RethBlock>, ProviderError>)
        ensures
            r matches Ok(v) && v@.map_values(|x: RethBlock| x@) == reth_blocks_of(
                canonical_blocks(self.spec_backend(), start as int, end + 1),
            ),
    {
        let ghost b = self.spec_backend();
        let mut blocks: Vec<RethBlock> = Vec::new();
        if start > end {
            assert(canonical_blocks(b, start as int, end + 1) =~= Seq::<(B256, BlockView)>::empty());
            assert(blocks@.map_values(|x: RethBlock| x@) =~= reth_blocks_of(Seq::empty()));
            return Ok(blocks);
        }
        let mut n = start;
        loop
            invariant_except_break
                start <= n <= end,
                b == self.spec_backend(),
                blocks@.map_values(|x: RethBlock| x@) == reth_blocks_of(
                    canonical_blocks(b, start as int, n as int),
                ),
            ensures
                blocks@.map_values(|x: RethBlock| x@) == reth_blocks_of(
                    canonical_blocks(b, start as int, end + 1),
                ),
            decreases end - n,
        {
            if let Some(hash) = self.backend.number_to_hash(n) {
                if let Some(anvil_block) = self.backend.block_by_hash(hash) {
                    let converted = convert_block(&anvil_block).0.into_block();
                    assert(canonical_blocks(b, start as int, n + 1) == canonical_blocks(
                        b,
                        start as int,
                        n as int,
                    ).push((hash, anvil_block@)));
                    let ghost prev = blocks@;
                    blocks.push(converted);
                    assert(blocks@ == prev.push(converted));
                    assert(blocks@.map_values(|x: RethBlock| x@) =~= prev.map_values(|x: RethBlock| x@).push(converted@));
                    assert(reth_blocks_of(canonical_blocks(b, start as int, n as int).push((hash, anvil_block@))) =~= reth_blocks_of(canonical_blocks(b, start as int, n as int)).push(spec_convert_block(anvil_block@)));
                    assert(blocks@.map_values(|x: RethBlock| x@) =~= reth_blocks_of(
                        canonical_blocks(b, start as int, n + 1),
                    ));
                }
            }
            if n == end {
                break;
            }
            n = n + 1;
        }
        Ok(blocks)
    }

    /// The canonical blocks numbered `start` to `end`, both included, in order,
    /// each sealed under its hash with the senders of its transactions.
    pub fn recovered_block_range(&self, start: u64, end: u64) -> (r: Result<Vec<RecoveredBlock>, ProviderError>)
        ensures
            r matches Ok(v) && v@.map_values(|x: RecoveredBlock| x@) == recovered_of(
                canonical_blocks(self.spec_backend(), start as int, end + 1),
            ),
    {
        let ghost b = self.spec_backend();
        let mut blocks: Vec<RecoveredBlock> = Vec::new();
        if start > end {
            assert(canonical_blocks(b, start as int, end + 1) =~= Seq::<(B256, BlockView)>::empty());
            assert(blocks@.map_values(|x: RecoveredBlock| x@) =~= recovered_of(Seq::empty()));
            return Ok(blocks);
        }
        let mut n = start;
        loop
            invariant_except_break
                start <= n <= end,
                b == self.spec_backend(),
                blocks@.map_values(|x: RecoveredBlock| x@) == recovered_of(
                    canonical_blocks(b, start as int, n as int),
                ),
            ensures
                blocks@.map_values(|x: RecoveredBlock| x@) == recovered_of(
                    canonical_blocks(b, start as int, end + 1),
                ),
            decreases end - n,
        {
            if let Some(hash) = self.backend.number_to_hash(n) {
                if let Some(anvil_block) = self.backend.block_by_hash(hash) {
                    let (block, senders) = convert_block(&anvil_block);
                    assert(canonical_blocks(b, start as int, n + 1) == canonical_blocks(
                        b,
                        start as int,
                        n as int,
                    ).push((hash, anvil_block@)));
                    let rb = RecoveredBlock { block, senders };
                    assert(rb@ == spec_recovered(anvil_block@));
                    let ghost prev = blocks@;
                    blocks.push(rb);
                    assert(blocks@ == prev.push(rb));
                    assert(blocks@.map_values(|x: RecoveredBlock| x@) =~= prev.map_values(|x: RecoveredBlock| x@).push(rb@));
                    assert(recovered_of(canonical_blocks(b, start as int, n as int).push((hash, anvil_block@))) =~= recovered_of(canonical_blocks(b, start as int, n as int)).push(spec_recovered(anvil_block@)));
                    assert(blocks@.map_values(|x: RecoveredBlock| x@) =~= recovered_of(
                        canonical_blocks(b, start as int, n + 1),
                    ));
                }
            }
            if n == end {
                break;
            }
            n = n + 1;
        }
        Ok(blocks)
    }

    pub fn block_with_senders_range(&self, start: u64, end: u64) -> (r: Result<Vec<RecoveredBlock>, ProviderError>)
        ensures
            r matches Ok(v) && v@.map_values(|x: RecoveredBlock| x@) == recovered_of(
                canonical_blocks(self.spec_backend(), start as int, end + 1),
            ),
    {
        self.recovered_block_range(start, end)
    }

    /// Blocks are not numbered by transaction id.
    pub fn block_by_transaction_id(&self, id: u64) -> (r: Result<Option<u64>, ProviderError>)
        ensures
            r == Ok::<Option<u64>, ProviderError>(None),
    {
        Ok(None)
    }

    pub fn block_by_id(&self, id: BlockId) -> (r: Result<Option<RethBlock>, ProviderError>)
        ensures
            r matches Ok(b) && opt_reth_block_view(b) == match id {
                BlockId::Hash(h) => spec_block_at(self.spec_backend(), BlockHashOrNumber::Hash(h.block_hash)),
                BlockId::Number(tag) => match self.spec_backend().spec_tag_hash(tag) {
                    Some(h) => spec_block_at(self.spec_backend(), BlockHashOrNumber::Hash(h)),
                    None => None,
                },
            },
    {
        match id {
            BlockId::Hash(hash) => self.block(BlockHashOrNumber::Hash(hash.block_hash)),
            BlockId::Number(num) => match self.backend.block_hash(num) {
                Some(h) => self.block(BlockHashOrNumber::Hash(h)),
                None => Ok(None),
            },
        }
    }

    pub fn sealed_header_by_id(&self, id: BlockId) -> (r: Result<Option<SealedHeader>, ProviderError>)
        ensures
            r matches Ok(s) && opt_sealed_header_view(s) == match id {
                BlockId::Hash(h) => match spec_header(self.spec_backend(), h.block_hash) {
                    Some(header) => Some(SealedHeaderView { header, hash: h.block_hash }),
                    None => None,
                },
                BlockId::Number(tag) => match self.spec_backend().spec_tag_hash(tag) {
                    Some(h) => match spec_header(self.spec_backend(), h) {
                        Some(header) => Some(SealedHeaderView { header, hash: h }),
                        None => None,
                    },
                    None => None,
                },
            },
    {
        match id {
            BlockId::Hash(hash) => {
                let block = self.get_block(&hash.block_hash);
                match block {
                    Some(b) => Ok(Some(SealedHeader { header: b.header, hash: hash.block_hash })),
                    None => Ok(None),
                }
            },
            BlockId::Number(num) => match self.backend.block_hash(num) {
                Some(h) => match self.backend.block_by_hash(h) {
                    Some(b) => Ok(Some(SealedHeader { header: b.header, hash: h })),
                    None => Ok(None),
                },
                None => Ok(None),
            },
        }
    }

    pub fn header_by_id(&self, id: BlockId) -> (r: Result<Option<Header>, ProviderError>)
        ensures
            r matches Ok(x) && opt_header_view(x) == match id {
                BlockId::Hash(h) => spec_header(self.spec_backend(), h.block_hash),
                BlockId::Number(tag) => match self.spec_backend().spec_tag_hash(tag) {
                    Some(h) => spec_header(self.spec_backend(), h),
                    None => None,
                },
            },
    {
        match id {
            BlockId::Hash(hash) => self.header(hash.block_hash),
            BlockId::Number(num) => match self.backend.block_hash(num) {
                Some(h) => self.header(h),
                None => Ok(None),
            },
        }
    }
}


impl<B: BackendView, C> AnvilProvider<B, C> {
    // ----- transactions -----

    /// Transactions are not numbered.
    pub fn transaction_id(&self, tx_hash: B256) -> (r: Result<Option<u64>, ProviderError>)
        ensures
            r == Ok::<Option<u64>, ProviderError>(None),
    {
        Ok(None)
    }

    pub fn transaction_by_id(&self, id: u64) -> (r: Result<Option<TransactionSigned>, ProviderError>)
        ensures
            r == Ok::<Option<TransactionSigned>, ProviderError>(None),
    {
        Ok(None)
    }

    pub fn transaction_by_id_unhashed(&self, id: u64) -> (r: Result<Option<TransactionSigned>, ProviderError>)
        ensures
            r == Ok::<Option<TransactionSigned>, ProviderError>(None),
    {
        Ok(None)
    }

    pub fn transaction_sender(&self, id: u64) -> (r: Result<Option<Address>, ProviderError>)
        ensures
            r == Ok::<Option<Address>, ProviderError>(None),
    {
        Ok(None)
    }

    /// The stored transaction that a mined transaction points at, with its block.
    fn mined_stored_tx(&self, hash: B256) -> (r: Option<(Transaction, Block, MinedTx<B::Receipt>)>)
        ensures
            match r {
                Some((tx, blk, m)) => {
                    &&& spec_mined_stored_tx(self.spec_backend(), hash) == Some((tx@, blk@))
                    &&& self.spec_backend().spec_mined_tx(hash) == Some(crate::backend::mined_model(m))
                    &&& self.spec_backend().spec_block(m.block_hash) == Some(blk@)
                },
                None => spec_mined_stored_tx(self.spec_backend(), hash) is None,
            },
    {
        if let Some(mined) = self.backend.mined_transaction_by_hash(hash) {
            if let Some(block) = self.backend.block_by_hash(mined.block_hash) {
                let idx = mined.info.transaction_index as usize;
                if idx < block.transactions.len() {
                    let tx = block.transactions[idx].clone();
                    return Some((tx, block, mined));
                }
            }
        }
        None
    }

    pub fn transaction_by_hash(&self, hash: B256) -> (r: Result<Option<TransactionSigned>, ProviderError>)
        ensures
            r matches Ok(t) && opt_signed_view(t) == spec_tx_by_hash(self.spec_backend(), hash),
    {
        if let Some((tx, _block, _mined)) = self.mined_stored_tx(hash) {
            if let Some((reth_tx, _)) = convert_tx(&tx) {
                return Ok(Some(reth_tx));
            }
        }
        Ok(None)
    }

    pub fn transaction_by_hash_with_meta(&self, hash: B256) -> (r: Result<Option<(TransactionSigned, TransactionMeta)>, ProviderError>)
        ensures
            r matches Ok(t) && opt_signed_meta_view(t) == spec_tx_with_meta(self.spec_backend(), hash),
    {
        if let Some((tx, block, mined)) = self.mined_stored_tx(hash) {
            if let Some((reth_tx, _)) = convert_tx(&tx) {
                let meta = TransactionMeta {
                    tx_hash: hash,
                    index: mined.info.transaction_index,
                    block_hash: mined.block_hash,
                    block_number: mined.block_number,
                    base_fee: block.header.base_fee_per_gas,
                    excess_blob_gas: block.header.excess_blob_gas,
                    timestamp: block.header.timestamp,
                };
                return Ok(Some((reth_tx, meta)));
            }
        }
        Ok(None)
    }

    /// The converted transactions of the block a block id names, in order.
    pub fn transactions_by_block(&self, block_id: BlockHashOrNumber) -> (r: Result<Option<Vec<TransactionSigned>>, ProviderError>)
        ensures
            r matches Ok(v) && opt_signed_txs_view(v) == spec_block_txs(self.spec_backend(), block_id),
    {
        let hash = match self.resolve_block_hash(block_id) {
            Some(h) => h,
            None => return Ok(None),
        };
        if let Some(block) = self.backend.block_by_hash(hash) {
            let (converted, _) = convert_block(&block);
            return Ok(Some(converted.block.body.transactions));
        }
        Ok(None)
    }

    /// Transactions are not numbered, so no range of them is known.
    pub fn transactions_by_tx_range(&self, start: u64, end: u64) -> (r: Result<Vec<TransactionSigned>, ProviderError>)
        ensures
            r matches Ok(v) && v@.len() == 0,
    {
        Ok(Vec::new())
    }

    pub fn transactions_by_block_range(&self, start: Bound, end: Bound) -> (r: Result<Vec<Vec<TransactionSigned>>, ProviderError>)
        ensures
            r matches Ok(v) && v@.len() == 0,
    {
        Ok(Vec::new())
    }

    pub fn senders_by_tx_range(&self, start: u64, end: u64) -> (r: Result<Vec<Address>, ProviderError>)
        ensures
            r matches Ok(v) && v@.len() == 0,
    {
        Ok(Vec::new())
    }

    // ----- receipts -----

    pub fn receipt(&self, id: u64) -> (r: Result<Option<RethReceipt>, ProviderError>)
        ensures
            r matches Ok(None),
    {
        Ok(None)
    }

    pub fn receipt_by_hash(&self, hash: B256) -> (r: Result<Option<RethReceipt>, ProviderError>)
        ensures
            r matches Ok(x) && opt_receipt_view(x) == spec_receipt(self.spec_backend(), hash),
    {
        if let Some(mined) = self.backend.mined_transaction_by_hash(hash) {
            return Ok(convert_receipt_view(&mined.receipt));
        }
        Ok(None)
    }

    /// The receipts of the transactions of the block a block id names, in order,
    /// leaving out transactions without a convertible receipt.
    pub fn receipts_by_block(&self, block: BlockHashOrNumber) -> (r: Result<Option<Vec<RethReceipt>>, ProviderError>)
        ensures
            r matches Ok(x) && match x {
                Some(v) => spec_block_receipts(self.spec_backend(), block) == Some(
                    v@.map_values(|x: RethReceipt| x@),
                ),
                None => spec_block_receipts(self.spec_backend(), block) is None,
            },
    {
        let ghost b = self.spec_backend();
        let hash = match self.resolve_block_hash(block) {
            Some(h) => h,
            None => return Ok(None),
        };
        if !self.backend.has_block(hash) {
            return Ok(None);
        }
        let tx_hashes = self.backend.block_transaction_hashes(hash);
        let mut receipts: Vec<RethReceipt> = Vec::new();
        let n = tx_hashes.len();
        for i in 0..n
            invariant
                b == self.spec_backend(),
                n == tx_hashes@.len(),
                receipts@.map_values(|x: RethReceipt| x@) == receipts_of(
                    b,
                    tx_hashes@.subrange(0, i as int),
                ),
        {
            let ghost before = tx_hashes@.subrange(0, i as int);
            let ghost next = tx_hashes@.subrange(0, i + 1);
            assert(next.drop_last() =~= before);
            if let Some(receipt) = self.receipt_for(tx_hashes[i]) {
                let ghost prev = receipts@;
                receipts.push(receipt);
                assert(receipts@.map_values(|x: RethReceipt| x@) =~= prev.map_values(
                    |x: RethReceipt| x@,
                ).push(receipt@));
            }
        }
        assert(tx_hashes@.subrange(0, n as int) =~= tx_hashes@);
        Ok(Some(receipts))
    }

    fn receipt_for(&self, tx_hash: B256) -> (r: Option<RethReceipt>)
        ensures
            opt_receipt_view(r) == spec_receipt(self.spec_backend(), tx_hash),
    {
        match self.backend.mined_transaction_by_hash(tx_hash) {
            Some(mined) => convert_receipt_view(&mined.receipt),
            None => None,
        }
    }

    pub fn receipts_by_tx_range(&self, start: u64, end: u64) -> (r: Result<Vec<RethReceipt>, ProviderError>)
        ensures
            r matches Ok(v) && v@.len() == 0,
    {
        Ok(Vec::new())
    }

    pub fn receipts_by_block_range(&self, start: u64, end: u64) -> (r: Result<Vec<Vec<RethReceipt>>, ProviderError>)
        ensures
            r matches Ok(v) && v@.len() == 0,
    {
        Ok(Vec::new())
    }

    /// No global transaction numbering is kept, so no block has body indices.
    pub fn block_body_indices(&self, num: u64) -> (r: Result<Option<StoredBlockBodyIndices>, ProviderError>)
        ensures
            r == Ok::<Option<StoredBlockBodyIndices>, ProviderError>(None),
    {
        Ok(None)
    }

    pub fn block_body_indices_range(&self, start: u64, end: u64) -> (r: Result<Vec<StoredBlockBodyIndices>, ProviderError>)
        ensures
            r matches Ok(v) && v@.len() == 0,
    {
        Ok(Vec::new())
    }

    /// No account change sets are kept.
    pub fn account_block_changeset(&self, block_number: u64) -> (r: Result<Vec<AccountBeforeTx>, ProviderError>)
        ensures
            r matches Ok(v) && v@.len() == 0,
    {
        Ok(Vec::new())
    }

    pub fn get_account_before_block(&self, block_number: u64, address: Address) -> (r: Result<Option<AccountBeforeTx>, ProviderError>)
        ensures
            r == Ok::<Option<AccountBeforeTx>, ProviderError>(None),
    {
        Ok(None)
    }

    pub fn account_changesets_range(&self, start: Bound, end: Bound) -> (r: Result<Vec<(u64, AccountBeforeTx)>, ProviderError>)
        ensures
            r matches Ok(v) && v@.len() == 0,
    {
        Ok(Vec::new())
    }

    /// Accounts are read through a state provider, not here.
    pub fn basic_account(&self, address: &Address) -> (r: Result<Option<Account>, ProviderError>)
        ensures
            r == Ok::<Option<Account>, ProviderError>(None),
    {
        Ok(None)
    }

    // ----- state -----

    /// A provider over the latest state.
    pub fn latest(&self) -> (r: Result<AnvilStateProvider<B::State>, ProviderError>)
        ensures
            state_provider_model(r) == spec_latest(self.spec_backend()),
    {
        match self.backend.try_current_state() {
            Some(state) => Ok(AnvilStateProvider::new(state)),
            None => Err(ProviderError::DbReadLockBusy),
        }
    }

    pub fn state_by_block_number_or_tag(&self, number_or_tag: BlockNumberOrTag) -> (r: Result<AnvilStateProvider<B::State>, ProviderError>)
        ensures
            state_provider_model(r) == spec_state_by_tag(self.spec_backend(), number_or_tag),
    {
        match number_or_tag {
            BlockNumberOrTag::Latest | BlockNumberOrTag::Pending => self.latest(),
            BlockNumberOrTag::Earliest => self.history_by_block_number(0),
            BlockNumberOrTag::Number(num) => self.history_by_block_number(num),
            BlockNumberOrTag::Finalized => {
                let hash = match self.finalized_block_hash() {
                    Ok(Some(h)) => h,
                    _ => return Err(ProviderError::FinalizedBlockNotFound),
                };
                self.history_by_block_hash(hash)
            },
            BlockNumberOrTag::Safe => {
                let hash = match self.safe_block_hash() {
                    Ok(Some(h)) => h,
                    _ => return Err(ProviderError::SafeBlockNotFound),
                };
                self.history_by_block_hash(hash)
            },
        }
    }

    pub fn history_by_block_number(&self, block: u64) -> (r: Result<AnvilStateProvider<B::State>, ProviderError>)
        ensures
            state_provider_model(r) == spec_history_by_number(self.spec_backend(), block),
    {
        match self.backend.number_to_hash(block) {
            Some(h) => self.history_by_block_hash(h),
            None => Err(ProviderError::BlockHashNotFound(B256::zero())),
        }
    }

    pub fn history_by_block_hash(&self, block: B256) -> (r: Result<AnvilStateProvider<B::State>, ProviderError>)
        ensures
            state_provider_model(r) == spec_history_by_hash(self.spec_backend(), block),
    {
        if block == self.backend.best_hash() {
            return self.latest();
        }
        match self.backend.state_by_block_hash(block) {
            Ok(Some(state)) => Ok(AnvilStateProvider::new(state)),
            Ok(None) => Err(ProviderError::StateForHashNotFound(block)),
            Err(e) => Err(db_err_to_provider(e)),
        }
    }

    pub fn state_by_block_hash(&self, block: B256) -> (r: Result<AnvilStateProvider<B::State>, ProviderError>)
        ensures
            state_provider_model(r) == spec_history_by_hash(self.spec_backend(), block),
    {
        self.history_by_block_hash(block)
    }

    pub fn pending(&self) -> (r: Result<AnvilStateProvider<B::State>, ProviderError>)
        ensures
            state_provider_model(r) == spec_latest(self.spec_backend()),
    {
        self.latest()
    }

    /// No pending state is kept.
    pub fn pending_state_by_hash(&self, block_hash: B256) -> (r: Result<Option<AnvilStateProvider<B::State>>, ProviderError>)
        ensures
            r matches Ok(None),
    {
        Ok(None)
    }

    pub fn maybe_pending(&self) -> (r: Result<Option<AnvilStateProvider<B::State>>, ProviderError>)
        ensures
            r matches Ok(None),
    {
        Ok(None)
    }
}

/// A state database error as a provider error.
fn db_err_to_provider(e: DatabaseError) -> (r: ProviderError)
    ensures
        r == ProviderError::Database(e),
{
    ProviderError::Database(e)
}

/// The account record reth sees for a state record.
pub open spec fn spec_account(info: AccountInfo) -> Account {
    Account {
        nonce: info.nonce,
        balance: info.balance,
        bytecode_hash: if info.code_hash == spec_keccak_empty() {
            None
        } else {
            Some(info.code_hash)
        },
    }
}

impl<S: StateRef> AnvilStateProvider<S> {
    /// The hash of the block with the given number; a zero hash reads as none.
    pub fn block_hash(&self, number: u64) -> (r: Result<Option<B256>, ProviderError>)
        ensures
            r == match (self.model().block_hash)(number) {
                Ok(h) => if h == B256::spec_zero() {
                    Ok(None)
                } else {
                    Ok(Some(h))
                },
                Err(e) => Err(ProviderError::Database(e)),
            },
    {
        match self.0.block_hash_ref(number) {
            Ok(h) => {
                if h.is_zero() {
                    Ok(None)
                } else {
                    Ok(Some(h))
                }
            },
            Err(e) => Err(db_err_to_provider(e)),
        }
    }

    pub fn canonical_hashes_range(&self, start: u64, end: u64) -> (r: Result<Vec<B256>, ProviderError>)
        ensures
            r matches Ok(v) && v@.len() == 0,
    {
        Ok(Vec::new())
    }

    /// The account at an address: its nonce, balance, and code hash unless it has no code.
    pub fn basic_account(&self, address: &Address) -> (r: Result<Option<Account>, ProviderError>)
        ensures
            r == match (self.model().basic)(*address) {
                Ok(Some(info)) => Ok(Some(spec_account(info))),
                Ok(None) => Ok(None),
                Err(e) => Err(ProviderError::Database(e)),
            },
    {
        match self.0.basic_ref(*address) {
            Ok(Some(info)) => {
                let empty = keccak_empty();
                Ok(
                    Some(
                        Account {
                            nonce: info.nonce,
                            balance: info.balance,
                            bytecode_hash: if info.code_hash == empty {
                                None
                            } else {
                                Some(info.code_hash)
                            },
                        },
                    ),
                )
            },
            Ok(None) => Ok(None),
            Err(e) => Err(db_err_to_provider(e)),
        }
    }

    /// The code with the given hash; the hash of empty code names no code.
    pub fn bytecode_by_hash(&self, code_hash: &B256) -> (r: Result<Option<Bytecode>, ProviderError>)
        ensures
            match r {
                Ok(Some(c)) => *code_hash != spec_keccak_empty() && (self.model().code)(*code_hash)
                    == Ok::<Seq<u8>, DatabaseError>(c@),
                Ok(None) => *code_hash == spec_keccak_empty(),
                Err(e) => *code_hash != spec_keccak_empty() && exists|d: DatabaseError|
                    (self.model().code)(*code_hash) == Err::<Seq<u8>, DatabaseError>(d) && e
                        == ProviderError::Database(d),
            },
    {
        if *code_hash == keccak_empty() {
            return Ok(None);
        }
        match self.0.code_by_hash_ref(*code_hash) {
            Ok(code) => Ok(Some(code)),
            Err(e) => Err(db_err_to_provider(e)),
        }
    }

    /// The value of a storage slot; a zero value reads as none.
    pub fn storage(&self, account: Address, storage_key: B256) -> (r: Result<Option<U256>, ProviderError>)
        ensures
            r == match (self.model().storage)(account, U256 { hi: storage_key.hi, lo: storage_key.lo }) {
                Ok(v) => if v == U256::spec_zero() {
                    Ok(None)
                } else {
                    Ok(Some(v))
                },
                Err(e) => Err(ProviderError::Database(e)),
            },
    {
        match self.0.storage_ref(account, U256::from_b256(storage_key)) {
            Ok(val) => {
                if val.is_zero() {
                    Ok(None)
                } else {
                    Ok(Some(val))
                }
            },
            Err(e) => Err(db_err_to_provider(e)),
        }
    }
}

impl AnvilStateProvider<crate::memory::MemoryState> {
    /// A provider over a standalone copy of a snapshot.
    pub fn from_state_db_ref(state: &crate::memory::MemoryState) -> (r: Self)
        ensures
            r.model() == state.state_model(),
    {
        AnvilStateProvider(state.snapshot())
    }
}

} // verus!
