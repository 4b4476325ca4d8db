//! Read-side RPC calls answered through [`AnvilProvider`]: `eth_blockNumber`,
//! `eth_getBalance` and `eth_getTransactionCount`.
use std::sync::Arc;
use vstd::prelude::*;
use crate::backend::{BackendView, StateModel};
use crate::primitives::{Address, BlockId, U256};
use crate::provider::{
    AnvilProvider, AnvilStateProvider, ProviderError, spec_hash_for_id, spec_history_by_hash,
    spec_latest,
};

verus! {

/// Why a read-side call failed.
#[derive(Clone, Copy, Debug, PartialEq, Eq, Structural)]
pub enum ReadError {
    /// A provider query failed.
    Provider(ProviderError),
    /// The requested block id names no block.
    BlockNotFound,
}

impl ReadError {
    /// The text of the error.
    pub open spec fn spec_message(&self) -> Seq<char> {
        match *self {
            ReadError::Provider(e) => e.spec_message(),
            ReadError::BlockNotFound => "block not found"@,
        }
    }

    /// The text of the error.
    pub fn message(&self) -> (r: String)
        ensures
            r@ == self.spec_message(),
    {
        match *self {
            ReadError::Provider(e) => e.message(),
            ReadError::BlockNotFound => String::from_str("block not found"),
        }
    }
}

/// The state a call reads: the block the id names, or the latest state.
pub open spec fn spec_call_state<B: BackendView>(b: B, block: Option<BlockId>) -> Result<StateModel, ReadError> {
    match block {
        Some(id) => match spec_hash_for_id(b, id) {
            Some(h) => match spec_history_by_hash(b, h) {
                Ok(s) => Ok(s),
                Err(e) => Err(ReadError::Provider(e)),
            },
            None => Err(ReadError::BlockNotFound),
        },
        None => match spec_latest(b) {
            Ok(s) => Ok(s),
            Err(e) => Err(ReadError::Provider(e)),
        },
    }
}

/// The balance of an account in a state; zero for an account that does not exist.
pub open spec fn spec_balance(state: Result<StateModel, ReadError>, address: Address) -> Result<U256, ReadError> {
    match state {
        Ok(s) => match (s.basic)(address) {
            Ok(Some(info)) => Ok(info.balance),
            Ok(None) => Ok(U256::spec_zero()),
            Err(d) => Err(ReadError::Provider(ProviderError::Database(d))),
        },
        Err(e) => Err(e),
    }
}

/// The nonce of an account in a state; zero for an account that does not exist.
pub open spec fn spec_nonce(state: Result<StateModel, ReadError>, address: Address) -> Result<U256, ReadError> {
    match state {
        Ok(s) => match (s.basic)(address) {
            Ok(Some(info)) => Ok(U256 { hi: 0, lo: info.nonce as u128 }),
            Ok(None) => Ok(U256::spec_zero()),
            Err(d) => Err(ReadError::Provider(ProviderError::Database(d))),
        },
        Err(e) => Err(e),
    }
}

/// Read-side RPC adapter backed by `AnvilProvider`.
pub struct RethReadAdapter<B, C> {
    provider: AnvilProvider<B, C>,
}

impl<B, C> RethReadAdapter<B, C> {
    /// The provider the adapter reads.
    pub closed spec fn spec_provider(&self) -> AnvilProvider<B, C> {
        self.provider
    }
}

impl<B, C> Clone for RethReadAdapter<B, C> {
    fn clone(&self) -> (r: Self)
        ensures
            r.spec_provider().spec_backend() == self.spec_provider().spec_backend(),
            r.spec_provider().spec_chain_spec() == self.spec_provider().spec_chain_spec(),
    {
        RethReadAdapter { provider: self.provider.clone() }
    }
}

impl<B: BackendView, C> RethReadAdapter<B, C> {
    pub fn new(backend: Arc<B>, chain_spec: Arc<C>) -> (r: Self)
        ensures
            r.spec_provider().spec_backend() == *backend,
            r.spec_provider().spec_chain_spec() == *chain_spec,
    {
        RethReadAdapter { provider: AnvilProvider::new(backend, chain_spec) }
    }

    /// `eth_blockNumber` — returns the latest block number.
    pub fn block_number(&self) -> (r: Result<U256, ReadError>)
        ensures
            r == Ok::<U256, ReadError>(
                U256 { hi: 0, lo: self.spec_provider().spec_backend().spec_best_number() as u128 },
            ),
    {
        match self.provider.best_block_number() {
            Ok(n) => Ok(U256::from_u64(n)),
            Err(e) => Err(ReadError::Provider(e)),
        }
    }

    /// The state a call reads.
    fn call_state(&self, block: Option<BlockId>) -> (r: Result<AnvilStateProvider<B::State>, ReadError>)
        ensures
            match r {
                Ok(p) => spec_call_state(self.spec_provider().spec_backend(), block) == Ok::<
                    StateModel,
                    ReadError,
                >(p.model()),
                Err(e) => spec_call_state(self.spec_provider().spec_backend(), block) == Err::<
                    StateModel,
                    ReadError,
                >(e),
            },
    {
        match block {
            Some(id) => {
                let hash = match self.provider.block_hash_for_id(id) {
                    Ok(Some(h)) => h,
                    Ok(None) => return Err(ReadError::BlockNotFound),
                    Err(e) => return Err(ReadError::Provider(e)),
                };
                match self.provider.history_by_block_hash(hash) {
                    Ok(p) => Ok(p),
                    Err(e) => Err(ReadError::Provider(e)),
                }
            },
            None => match self.provider.latest() {
                Ok(p) => Ok(p),
                Err(e) => Err(ReadError::Provider(e)),
            },
        }
    }

    /// `eth_getBalance` — returns the balance of an account at the given block.
    pub fn get_balance(&self, address: Address, block: Option<BlockId>) -> (r: Result<U256, ReadError>)
        ensures
            r == spec_balance(spec_call_state(self.spec_provider().spec_backend(), block), address),
    {
        let state = self.call_state(block)?;
        match state.basic_account(&address) {
            Ok(Some(account)) => Ok(account.balance),
            Ok(None) => Ok(U256::zero()),
            Err(e) => Err(ReadError::Provider(e)),
        }
    }

    /// `eth_getTransactionCount` — returns the nonce of an account at the given block.
    pub fn get_transaction_count(&self, address: Address, block: Option<BlockId>) -> (r: Result<U256, ReadError>)
        ensures
            r == spec_nonce(spec_call_state(self.spec_provider().spec_backend(), block), address),
    {
        let state = match self.call_state(block) {
            Ok(s) => s,
            Err(e) => return Err(e),
        };
        match state.basic_account(&address) {
            Ok(Some(account)) => Ok(U256::from_u64(account.nonce)),
            Ok(None) => Ok(U256::zero()),
            Err(e) => Err(ReadError::Provider(e)),
        }
    }
}

} // verus!
