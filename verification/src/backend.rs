//! Read-only access to anvil's backend storage: blocks, mined transactions and
//! state snapshots, each described by what a read of it returns.
use vstd::prelude::*;
use crate::block::{Block, BlockView};
use crate::primitives::{Address, B256, BlockId, BlockNumberOrTag, U256};
use crate::receipt::{ReceiptModel, ReceiptView, receipt_model};
use crate::text::{append_hex_b256, spec_hex_b256};

verus! {

/// Transaction metadata that the backend keeps for a mined transaction.
#[derive(Clone, Copy, Debug, PartialEq, Eq, Structural)]
pub struct TransactionInfo {
    pub transaction_hash: B256,
    pub transaction_index: u64,
    pub from: Address,
    pub to: Option<Address>,
    pub contract_address: Option<Address>,
}

/// Metadata for a mined transaction, extracted from the backend's storage.
pub struct MinedTx<R> {
    /// Transaction metadata (hash, index, sender, ...)
    pub info: TransactionInfo,
    /// The receipt envelope.
    pub receipt: R,
    /// Hash of the block containing this transaction.
    pub block_hash: B256,
    /// Number of the block containing this transaction.
    pub block_number: u64,
}

/// What the bridge reads of a mined transaction.
pub struct MinedTxModel {
    pub info: TransactionInfo,
    pub receipt: ReceiptModel,
    pub block_hash: B256,
    pub block_number: u64,
}

pub open spec fn mined_model<R: ReceiptView>(m: MinedTx<R>) -> MinedTxModel {
    MinedTxModel {
        info: m.info,
        receipt: receipt_model(m.receipt),
        block_hash: m.block_hash,
        block_number: m.block_number,
    }
}

pub open spec fn opt_mined_model<R: ReceiptView>(m: Option<MinedTx<R>>) -> Option<MinedTxModel> {
    match m {
        Some(x) => Some(mined_model(x)),
        None => None,
    }
}

pub open spec fn opt_block_view(b: Option<Block>) -> Option<BlockView> {
    match b {
        Some(x) => Some(x@),
        None => None,
    }
}

/// An error of the state database.
#[derive(Clone, Copy, Debug, PartialEq, Eq, Structural)]
pub enum DatabaseError {
    MissingAccount(Address),
    MissingCode(B256),
    GetAccount(Address),
    GetStorage(Address, U256),
    GetBlockHash(u64),
    BlockNotFound(BlockId),
}

impl DatabaseError {
    /// The text of the error.
    pub open spec fn spec_message(&self) -> Seq<char> {
        match *self {
            DatabaseError::MissingAccount(_) => "missing account"@,
            DatabaseError::MissingCode(h) => "code should already be loaded: "@ + spec_hex_b256(h),
            DatabaseError::GetAccount(_) => "failed to get account"@,
            DatabaseError::GetStorage(_, _) => "failed to get storage"@,
            DatabaseError::GetBlockHash(_) => "failed to get block hash"@,
            DatabaseError::BlockNotFound(_) => "block does not exist"@,
        }
    }

    /// The text of the error.
    pub fn message(&self) -> (r: String)
        ensures
            r@ == self.spec_message(),
    {
        match *self {
            DatabaseError::MissingAccount(_) => String::from_str("missing account"),
            DatabaseError::MissingCode(h) => {
                let mut s = String::from_str("code should already be loaded: ");
                append_hex_b256(&mut s, h);
                s
            },
            DatabaseError::GetAccount(_) => String::from_str("failed to get account"),
            DatabaseError::GetStorage(_, _) => String::from_str("failed to get storage"),
            DatabaseError::GetBlockHash(_) => String::from_str("failed to get block hash"),
            DatabaseError::BlockNotFound(_) => String::from_str("block does not exist"),
        }
    }
}

/// The basic record of an account in a state snapshot.
#[derive(Clone, Copy, Debug, PartialEq, Eq, Structural)]
pub struct AccountInfo {
    pub balance: U256,
    pub nonce: u64,
    pub code_hash: B256,
}

/// Contract code.
pub struct Bytecode {
    pub bytes: Vec<u8>,
}

impl View for Bytecode {
    type V = Seq<u8>;

    open spec fn view(&self) -> Seq<u8> {
        self.bytes@
    }
}

pub open spec fn code_result_view(r: Result<Bytecode, DatabaseError>) -> Result<
    Seq<u8>,
    DatabaseError,
> {
    match r {
        Ok(c) => Ok(c@),
        Err(e) => Err(e),
    }
}

/// What each read of a state snapshot returns.
pub struct StateModel {
    pub basic: spec_fn(Address) -> Result<Option<AccountInfo>, DatabaseError>,
    pub code: spec_fn(B256) -> Result<Seq<u8>, DatabaseError>,
    pub storage: spec_fn(Address, U256) -> Result<U256, DatabaseError>,
    pub block_hash: spec_fn(u64) -> Result<B256, DatabaseError>,
}

/// Read access to a state snapshot: accounts, code, storage slots and block hashes.
pub trait StateRef: Sized {
    spec fn state_model(&self) -> StateModel;

    /// The basic record of an account, `None` if the account does not exist.
    fn basic_ref(&self, address: Address) -> (r: Result<Option<AccountInfo>, DatabaseError>)
        ensures
            r == (self.state_model().basic)(address),
    ;

    /// The code with the given hash.
    fn code_by_hash_ref(&self, code_hash: B256) -> (r: Result<Bytecode, DatabaseError>)
        ensures
            code_result_view(r) == (self.state_model().code)(code_hash),
    ;

    /// The value of a storage slot of an account.
    fn storage_ref(&self, address: Address, index: U256) -> (r: Result<U256, DatabaseError>)
        ensures
            r == (self.state_model().storage)(address, index),
    ;

    /// The hash of the block with the given number.
    fn block_hash_ref(&self, number: u64) -> (r: Result<B256, DatabaseError>)
        ensures
            r == (self.state_model().block_hash)(number),
    ;
}

pub open spec fn state_result_model<S: StateRef>(r: Result<S, DatabaseError>) -> Result<
    StateModel,
    DatabaseError,
> {
    match r {
        Ok(s) => Ok(s.state_model()),
        Err(e) => Err(e),
    }
}

pub open spec fn opt_state_model<S: StateRef>(r: Option<S>) -> Option<StateModel> {
    match r {
        Some(s) => Some(s.state_model()),
        None => None,
    }
}

pub open spec fn opt_state_result_model<S: StateRef>(r: Result<Option<S>, DatabaseError>) -> Result<
    Option<StateModel>,
    DatabaseError,
> {
    match r {
        Ok(Some(s)) => Ok(Some(s.state_model())),
        Ok(None) => Ok(None),
        Err(e) => Err(e),
    }
}

/// Read-only view of anvil's backend, providing access to blocks, transactions, and state.
///
/// The `spec_` functions describe the stored chain; each method returns what they say.
pub trait BackendView: Sized {
    /// The state snapshot type.
    type State: StateRef;

    /// The receipt type stored in mined transactions.
    type Receipt: ReceiptView;

    spec fn spec_best_hash(&self) -> B256;

    spec fn spec_best_number(&self) -> u64;

    /// The hash that a block number or tag resolves to.
    spec fn spec_tag_hash(&self, id: BlockNumberOrTag) -> Option<B256>;

    /// The hash of the canonical block with the given number.
    spec fn spec_number_to_hash(&self, number: u64) -> Option<B256>;

    /// The stored block with the given hash.
    spec fn spec_block(&self, hash: B256) -> Option<BlockView>;

    /// The mined transaction with the given hash.
    spec fn spec_mined_tx(&self, hash: B256) -> Option<MinedTxModel>;

    /// The latest state; `None` while a writer holds the lock on it.
    spec fn spec_current_state(&self) -> Option<StateModel>;

    /// The state kept for the block with the given hash.
    spec fn spec_stored_state(&self, hash: B256) -> Option<StateModel>;

    /// A block number given as a tag resolves as the number itself does.
    proof fn lemma_number_tag(&self, number: u64)
        ensures
            self.spec_tag_hash(BlockNumberOrTag::Number(number)) == self.spec_number_to_hash(
                number,
            ),
    ;

    /// Returns the hash of the current best block.
    fn best_hash(&self) -> (r: B256)
        ensures
            r == self.spec_best_hash(),
    ;

    /// Returns the number of the current best block.
    fn best_number(&self) -> (r: u64)
        ensures
            r == self.spec_best_number(),
    ;

    /// Resolves a block number/tag to a block hash.
    fn block_hash(&self, id: BlockNumberOrTag) -> (r: Option<B256>)
        ensures
            r == self.spec_tag_hash(id),
    ;

    /// Returns the hash for the given block number, if it exists.
    fn number_to_hash(&self, number: u64) -> (r: Option<B256>)
        ensures
            r == self.spec_number_to_hash(number),
    ;

    /// Returns `true` if a block with the given hash exists in storage.
    fn has_block(&self, hash: B256) -> (r: bool)
        ensures
            r == self.spec_block(hash) is Some,
    ;

    /// Returns the block for the given hash, if it exists.
    fn block_by_hash(&self, hash: B256) -> (r: Option<Block>)
        ensures
            opt_block_view(r) == self.spec_block(hash),
    ;

    /// Returns a mined transaction by its hash, if it exists.
    fn mined_transaction_by_hash(&self, hash: B256) -> (r: Option<MinedTx<Self::Receipt>>)
        ensures
            opt_mined_model(r) == self.spec_mined_tx(hash),
    ;

    /// Returns all transaction hashes in the block identified by hash.
    fn block_transaction_hashes(&self, block_hash: B256) -> (r: Vec<B256>)
        ensures
            r@ == block_tx_hashes(self.spec_block(block_hash)),
    ;

    /// Reads the latest state without waiting for its lock: an owned snapshot,
    /// or `None` while a writer holds the lock.
    fn try_current_state(&self) -> (r: Option<Self::State>)
        ensures
            opt_state_model(r) == self.spec_current_state(),
    ;

    /// Returns an owned, standalone snapshot of the latest state. While a writer
    /// holds the state lock, the latest block is reported as not found.
    fn latest_state(&self) -> (r: Result<Self::State, DatabaseError>)
        ensures
            state_result_model(r) == match self.spec_current_state() {
                Some(st) => Ok(st),
                None => Err(DatabaseError::BlockNotFound(BlockId::Number(BlockNumberOrTag::Latest))),
            },
    ;

    /// Returns an owned, standalone snapshot for the given block hash.
    /// Returns `Ok(None)` if the state for that block is unavailable; the lookup
    /// itself does not fail.
    fn state_by_block_hash(&self, hash: B256) -> (r: Result<Option<Self::State>, DatabaseError>)
        ensures
            opt_state_result_model(r) == Ok::<_, DatabaseError>(self.spec_stored_state(hash)),
    ;
}

/// The hashes of the transactions of a block, in order; empty where there is no block.
pub open spec fn block_tx_hashes(block: Option<BlockView>) -> Seq<B256> {
    match block {
        Some(b) => b.transactions.map_values(|t: crate::block::TransactionView| t.hash),
        None => Seq::empty(),
    }
}

} // verus!
