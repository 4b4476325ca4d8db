//! State-root, storage-root and proof queries. Anvil keeps no Merkle trie, so each
//! answers a fixed value: a zero root, a proof with no nodes, no trie updates.
use vstd::prelude::*;
use crate::primitives::{Address, B256, U256};
use crate::provider::{Account, AnvilStateProvider, ProviderError};

verus! {

/// The trie nodes that a state-root computation changed.
pub struct TrieUpdates {
    /// Changed account-trie nodes, each as its encoded bytes.
    pub account_nodes: Vec<Vec<u8>>,
    /// Paths of removed account-trie nodes.
    pub removed_nodes: Vec<Vec<u8>>,
    /// Hashed addresses whose storage trie changed.
    pub storage_tries: Vec<B256>,
}

impl TrieUpdates {
    pub open spec fn spec_is_empty(&self) -> bool {
        &&& self.account_nodes@.len() == 0
        &&& self.removed_nodes@.len() == 0
        &&& self.storage_tries@.len() == 0
    }

    /// No updates.
    pub fn new() -> (r: Self)
        ensures
            r.spec_is_empty(),
    {
        TrieUpdates { account_nodes: Vec::new(), removed_nodes: Vec::new(), storage_tries: Vec::new() }
    }
}

/// The proof of one storage slot.
pub struct StorageProof {
    /// The slot.
    pub key: B256,
    /// The value the proof shows for it.
    pub value: U256,
    /// The encoded trie nodes from the storage root to the slot.
    pub proof: Vec<Vec<u8>>,
}

/// The proof of several storage slots of one account.
pub struct StorageMultiProof {
    /// The encoded nodes of the proved storage subtree.
    pub subtree: Vec<Vec<u8>>,
}

impl StorageMultiProof {
    pub open spec fn spec_is_empty(&self) -> bool {
        self.subtree@.len() == 0
    }
}

/// The proof of an account and of some of its storage slots.
pub struct AccountProof {
    pub address: Address,
    /// The account the proof shows; `None` for an account that does not exist.
    pub info: Option<Account>,
    /// The encoded trie nodes from the state root to the account.
    pub proof: Vec<Vec<u8>>,
    pub storage_proofs: Vec<StorageProof>,
}

/// The proof of several accounts and of their storage.
pub struct MultiProof {
    /// The encoded nodes of the proved account subtree.
    pub account_subtree: Vec<Vec<u8>>,
    /// The storage proofs, by hashed address.
    pub storages: Vec<(B256, StorageMultiProof)>,
}

impl MultiProof {
    pub open spec fn spec_is_empty(&self) -> bool {
        self.account_subtree@.len() == 0 && self.storages@.len() == 0
    }
}

/// The changed accounts and storage of a state, keyed by hashed address.
pub struct HashedPostState {
    pub accounts: Vec<(B256, Option<Account>)>,
    /// Hashed address, hashed slot and new value of each changed slot.
    pub storages: Vec<(B256, B256, U256)>,
}

impl HashedPostState {
    pub open spec fn spec_is_empty(&self) -> bool {
        self.accounts@.len() == 0 && self.storages@.len() == 0
    }
}

impl<S> AnvilStateProvider<S> {
    // ----- state roots -----

    /// The state root after a change of state: always zero.
    pub fn state_root<T>(&self, _state: T) -> (r: Result<B256, ProviderError>)
        ensures
            r == Ok::<B256, ProviderError>(B256::spec_zero()),
    {
        Ok(B256::zero())
    }

    /// The state root from precomputed trie nodes: always zero.
    pub fn state_root_from_nodes<T>(&self, _input: T) -> (r: Result<B256, ProviderError>)
        ensures
            r == Ok::<B256, ProviderError>(B256::spec_zero()),
    {
        Ok(B256::zero())
    }

    /// The state root and the trie updates after a change of state: zero, and none.
    pub fn state_root_with_updates<T>(&self, _state: T) -> (r: Result<(B256, TrieUpdates), ProviderError>)
        ensures
            r matches Ok((root, updates)) && root == B256::spec_zero() && updates.spec_is_empty(),
    {
        Ok((B256::zero(), TrieUpdates::new()))
    }

    /// The state root and the trie updates from precomputed trie nodes: zero, and none.
    pub fn state_root_from_nodes_with_updates<T>(&self, _input: T) -> (r: Result<(B256, TrieUpdates), ProviderError>)
        ensures
            r matches Ok((root, updates)) && root == B256::spec_zero() && updates.spec_is_empty(),
    {
        Ok((B256::zero(), TrieUpdates::new()))
    }

    // ----- storage roots and proofs -----

    /// The storage root of an account after a change of its storage: always zero.
    pub fn storage_root<T>(&self, _address: Address, _hashed_storage: T) -> (r: Result<B256, ProviderError>)
        ensures
            r == Ok::<B256, ProviderError>(B256::spec_zero()),
    {
        Ok(B256::zero())
    }

    /// The proof of a storage slot: the slot, a zero value and no nodes.
    pub fn storage_proof<T>(&self, _address: Address, slot: B256, _hashed_storage: T) -> (r: Result<StorageProof, ProviderError>)
        ensures
            r matches Ok(p) && p.key == slot && p.value == U256::spec_zero() && p.proof@.len() == 0,
    {
        Ok(StorageProof { key: slot, value: U256::zero(), proof: Vec::new() })
    }

    /// The proof of several storage slots: no nodes.
    pub fn storage_multiproof<T>(&self, _address: Address, _slots: &[B256], _hashed_storage: T) -> (r: Result<StorageMultiProof, ProviderError>)
        ensures
            r matches Ok(p) && p.spec_is_empty(),
    {
        Ok(StorageMultiProof { subtree: Vec::new() })
    }

    // ----- state proofs -----

    /// The proof of an account: the address, no account, no nodes and no storage proofs.
    pub fn account_proof<T>(&self, _input: T, address: Address, _slots: &[B256]) -> (r: Result<AccountProof, ProviderError>)
        ensures
            r matches Ok(p) && p.address == address && p.info is None && p.proof@.len() == 0
                && p.storage_proofs@.len() == 0,
    {
        Ok(AccountProof { address, info: None, proof: Vec::new(), storage_proofs: Vec::new() })
    }

    /// The proof of several accounts: no nodes.
    pub fn multiproof<T, U>(&self, _input: T, _targets: U) -> (r: Result<MultiProof, ProviderError>)
        ensures
            r matches Ok(p) && p.spec_is_empty(),
    {
        Ok(MultiProof { account_subtree: Vec::new(), storages: Vec::new() })
    }

    /// The execution witness of a change of state: no preimages.
    pub fn witness<T, U, M>(&self, _input: T, _target: U, _mode: M) -> (r: Result<Vec<Vec<u8>>, ProviderError>)
        ensures
            r matches Ok(w) && w@.len() == 0,
    {
        Ok(Vec::new())
    }

    /// The hashed form of a bundle of state changes: empty.
    pub fn hashed_post_state<T>(&self, _bundle_state: &T) -> (r: HashedPostState)
        ensures
            r.spec_is_empty(),
    {
        HashedPostState { accounts: Vec::new(), storages: Vec::new() }
    }
}

} // verus!
