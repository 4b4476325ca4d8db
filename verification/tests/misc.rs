use anvil_reth_bridge::backend::DatabaseError;
use anvil_reth_bridge::memory::MemoryState;
use anvil_reth_bridge::provider::{AnvilStateProvider, ProviderError};
use anvil_reth_bridge::reth_api::ReadError;
use anvil_reth_bridge::create2::Create2Inspector;
use anvil_reth_bridge::network::{AnvilNetwork, SocketAddrV4};
use anvil_reth_bridge::primitives::{Address, B256, U256};

#[test]
fn network_is_a_local_noop() {
    let n = AnvilNetwork::new(31337);
    assert_eq!(n.chain_id(), 31337);
    assert!(!n.is_syncing());
    assert!(!n.is_initially_syncing());
    assert_eq!(n.local_addr(), SocketAddrV4 { a: 127, b: 0, c: 0, d: 1, port: 0 });
    let status = n.network_status();
    assert_eq!(status.client_version, "anvil/0.0.0");
    assert_eq!(status.protocol_version, 0);
    assert_eq!(status.eth_protocol_info.network, 1);
    assert_eq!(status.eth_protocol_info.difficulty, None);
    assert_eq!(status.eth_protocol_info.genesis, B256::zero());
    assert_eq!(status.eth_protocol_info.head, B256::zero());
    assert!(status.capabilities.is_empty());
}

#[test]
fn create2_deployer_round_trip() {
    let mut i = Create2Inspector::default();
    assert_eq!(i.deployer(), Address::zero());
    let d = Address { hi: 0x4e59b448, lo: 0x47b379578588920ca78fbf26c0b4956c };
    i.set_deployer(d);
    assert_eq!(i.deployer(), d);
    let copy = i;
    assert_eq!(copy.deployer(), d);
}

#[test]
fn words_and_hashes() {
    assert!(B256::zero().is_zero());
    assert!(!B256 { hi: 1, lo: 0 }.is_zero());
    assert!(U256::zero().is_zero());
    assert!(!U256::from_u64(1).is_zero());
    assert_eq!(U256::from_u64(u64::MAX), U256 { hi: 0, lo: u64::MAX as u128 });
    assert_eq!(U256::from_b256(B256 { hi: 3, lo: 4 }), U256 { hi: 3, lo: 4 });
}

#[test]
fn state_roots_and_proofs_are_empty() {
    let p = AnvilStateProvider::new(MemoryState::new());
    assert_eq!(p.state_root(()).unwrap(), B256::zero());
    assert_eq!(p.state_root_from_nodes(0u8).unwrap(), B256::zero());
    let (root, updates) = p.state_root_with_updates(()).unwrap();
    assert_eq!(root, B256::zero());
    assert!(updates.account_nodes.is_empty() && updates.removed_nodes.is_empty() && updates.storage_tries.is_empty());
    let (root, updates) = p.state_root_from_nodes_with_updates(()).unwrap();
    assert_eq!(root, B256::zero());
    assert!(updates.account_nodes.is_empty());
    let a = Address { hi: 0, lo: 7 };
    assert_eq!(p.storage_root(a, ()).unwrap(), B256::zero());
    let slot = B256 { hi: 1, lo: 2 };
    let sp = p.storage_proof(a, slot, ()).unwrap();
    assert_eq!(sp.key, slot);
    assert_eq!(sp.value, U256::zero());
    assert!(sp.proof.is_empty());
    assert!(p.storage_multiproof(a, &[slot], ()).unwrap().subtree.is_empty());
    let ap = p.account_proof((), a, &[slot]).unwrap();
    assert_eq!(ap.address, a);
    assert!(ap.info.is_none() && ap.proof.is_empty() && ap.storage_proofs.is_empty());
    let mp = p.multiproof((), ()).unwrap();
    assert!(mp.account_subtree.is_empty() && mp.storages.is_empty());
    assert!(p.witness((), (), ()).unwrap().is_empty());
    let hs = p.hashed_post_state(&());
    assert!(hs.accounts.is_empty() && hs.storages.is_empty());
}

#[test]
fn error_messages() {
    assert_eq!(ReadError::BlockNotFound.message(), "block not found");
    assert_eq!(ReadError::Provider(ProviderError::DbReadLockBusy).message(), "db read lock busy");
    let h = B256 { hi: 0xab, lo: 0x0123456789abcdef };
    let hex = "0x000000000000000000000000000000ab00000000000000000123456789abcdef";
    assert_eq!(
        ProviderError::BlockHashNotFound(h).message(),
        format!("block hash {hex} does not exist in Headers table")
    );
    assert_eq!(
        ReadError::Provider(ProviderError::StateForHashNotFound(h)).message(),
        format!("no state found for block hash {hex}")
    );
    assert_eq!(ProviderError::SafeBlockNotFound.message(), "safe block not found");
    assert_eq!(ProviderError::FinalizedBlockNotFound.message(), "finalized block not found");
    assert_eq!(
        ProviderError::Database(DatabaseError::MissingCode(h)).message(),
        format!("code should already be loaded: {hex}")
    );
    assert_eq!(
        ProviderError::Database(DatabaseError::GetBlockHash(3)).message(),
        "failed to get block hash"
    );
}
