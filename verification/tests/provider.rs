use std::sync::Arc;

use anvil_reth_bridge::backend::{
    AccountInfo, BackendView, Bytecode, DatabaseError, MinedTx, StateModel, StateRef,
    TransactionInfo,
};
use anvil_reth_bridge::block::{seal_hash, Block, Header, Log, Signature, Transaction, TxKind, TxPayload};
use anvil_reth_bridge::memory::{
    AccountEntry, CodeEntry, MemoryBackend, MemoryState, NumberHash, StorageEntry, TxEntry,
};
use anvil_reth_bridge::primitives::{
    Address, BlockHashOrNumber, BlockId, BlockNumberOrTag, Bound, RpcBlockHash,
    TxType, B256, U256,
};
use anvil_reth_bridge::provider::{
    AnvilProvider, AnvilStateProvider, BlockSource, ProviderError, TransactionVariant,
};
use anvil_reth_bridge::receipt::{ReceiptEnvelope, ReceiptStatus, TxReceipt};
use anvil_reth_bridge::reth_api::{ReadError, RethReadAdapter};

/// The Keccak-256 digest of empty input: the code hash of an account without code.
fn keccak_empty() -> B256 {
    B256 { hi: 0xc5d2460186f7233c927e7db2dcc703c0, lo: 0xe500b653ca82273b7bfad8045d85a470 }
}

fn h(n: u128) -> B256 {
    B256 { hi: 0, lo: n }
}

fn block_hash(number: u64) -> B256 {
    B256 { hi: 0xb10c, lo: number as u128 + 1 }
}

fn addr(n: u128) -> Address {
    Address { hi: 0, lo: n }
}

fn bytes(b: B256) -> [u8; 32] {
    let mut r = [0u8; 32];
    r[..16].copy_from_slice(&b.hi.to_be_bytes());
    r[16..].copy_from_slice(&b.lo.to_be_bytes());
    r
}

fn header(number: u64) -> Header {
    Header {
        parent_hash: if number == 0 { [0u8; 32] } else { bytes(block_hash(number - 1)) },
        ommers_hash: [0u8; 32],
        beneficiary: [0u8; 20],
        state_root: [0u8; 32],
        transactions_root: [0u8; 32],
        receipts_root: [0u8; 32],
        logs_bloom: [0u8; 256],
        difficulty: [0u8; 32],
        number,
        gas_limit: 30_000_000,
        gas_used: 0,
        timestamp: 1_700_000_000 + number,
        extra_data: vec![],
        mix_hash: [0u8; 32],
        nonce: [0u8; 8],
        base_fee_per_gas: Some(875_000_000),
        withdrawals_root: None,
        blob_gas_used: None,
        excess_blob_gas: Some(0),
        parent_beacon_block_root: None,
        requests_hash: None,
    }
}

/// The address of the secret key 1, which signs the test transfers.
fn dev0() -> Address {
    Address { hi: 0x7e5f4552, lo: 0x091a69125d5dfcb7b8c2659029395bdf }
}

/// The hash each test transfer's signature signs.
const SIGNED_HASH: [u8; 32] = [0xab; 32];

/// The signature that the secret key 1 makes over `SIGNED_HASH`.
fn dev0_signature() -> Signature {
    let mut k = [0u8; 32];
    k[31] = 1;
    let s = alloy_consensus::crypto::secp256k1::sign_message(k.into(), SIGNED_HASH.into()).unwrap();
    Signature { r: s.r().to_be_bytes(), s: s.s().to_be_bytes(), y_parity: s.v() }
}
const DEV1: u128 = 0x7099;

fn account(balance: u64, nonce: u64) -> AccountInfo {
    AccountInfo { balance: U256 { hi: 0, lo: balance as u128 }, nonce, code_hash: keccak_empty() }
}

fn dev_state(nonce0: u64, balance0: u64, balance1: u64) -> MemoryState {
    let mut s = MemoryState::new();
    s.accounts.push(AccountEntry { address: dev0(), info: account(balance0, nonce0) });
    s.accounts.push(AccountEntry { address: addr(DEV1), info: account(balance1, 0) });
    s
}

/// A fresh chain: a genesis block numbered 0 and funded dev accounts.
fn fresh() -> MemoryBackend {
    let genesis = Block { header: header(0), transactions: vec![], withdrawals: None };
    MemoryBackend::new(block_hash(0), genesis, dev_state(0, 10_000, 10_000))
}

fn transfer(hash: u128, kind: TxKind) -> Transaction {
    Transaction {
        hash: h(hash),
        kind,
        chain_id: Some(31337),
        nonce: 0,
        gas_limit: 21_000,
        max_fee_per_gas: 1_000_000_000,
        max_priority_fee_per_gas: Some(1),
        to: Some(addr(DEV1)),
        value: U256::from_u64(1000),
        payload: TxPayload {
            input: vec![],
            access_list: vec![],
            blob_versioned_hashes: vec![],
            authorization_list: vec![],
        },
        signature: dev0_signature(),
        signature_hash: SIGNED_HASH,
        impersonated_sender: None,
    }
}

fn mined(tx_hash: u128, index: u64, number: u64, receipt: ReceiptEnvelope) -> TxEntry {
    TxEntry {
        hash: h(tx_hash),
        mined: MinedTx {
            info: TransactionInfo {
                transaction_hash: h(tx_hash),
                transaction_index: index,
                from: dev0(),
                to: Some(addr(DEV1)),
                contract_address: None,
            },
            receipt,
            block_hash: block_hash(number),
            block_number: number,
        },
    }
}

fn ok_receipt(gas: u64) -> TxReceipt {
    TxReceipt {
        status: ReceiptStatus::Eip658(true),
        cumulative_gas_used: gas,
        logs: vec![Log { address: addr(DEV1), topics: vec![h(1)], data: vec![] }],
    }
}

/// Mines block 1 holding a transfer from DEV0 to DEV1 and a deposit.
fn after_transfer() -> MemoryBackend {
    let mut b = fresh();
    let block = Block {
        header: header(1),
        transactions: vec![transfer(0xaa, TxKind::Eip1559), transfer(0xbb, TxKind::Deposit)],
        withdrawals: None,
    };
    let txs = vec![
        mined(0xaa, 0, 1, ReceiptEnvelope::Eip1559(ok_receipt(21_000))),
        mined(
            0xbb,
            1,
            1,
            ReceiptEnvelope::Deposit(anvil_reth_bridge::receipt::DepositReceipt {
                inner: ok_receipt(42_000),
                deposit_nonce: None,
                deposit_receipt_version: None,
            }),
        ),
    ];
    b.insert_block(block_hash(1), block, txs, dev_state(1, 9_000, 11_000));
    b
}

fn provider(b: MemoryBackend) -> AnvilProvider<MemoryBackend, u64> {
    AnvilProvider::new(Arc::new(b), Arc::new(31337u64))
}

/// Extends a chain with empty blocks up to and including `last`.
fn grow(b: &mut MemoryBackend, last: u64) {
    let mut n = b.best_number + 1;
    while n <= last {
        let block = Block { header: header(n), transactions: vec![], withdrawals: None };
        b.insert_block(block_hash(n), block, vec![], dev_state(1, 9_000, 11_000));
        n += 1;
    }
}

#[test]
fn test_block_num_reader() {
    let provider = provider(fresh());
    let best = provider.best_block_number().unwrap();
    assert_eq!(best, 0, "fresh anvil should be at block 0");
    let info = provider.chain_info().unwrap();
    assert_eq!(info.best_number, 0);
    assert_ne!(info.best_hash, B256::zero(), "genesis hash should not be zero");
}

#[test]
fn test_header_provider() {
    let provider = provider(fresh());
    let header = provider.header_by_number(0).unwrap();
    assert!(header.is_some(), "genesis header should exist");
    assert_eq!(header.unwrap().number, 0);
    let missing = provider.header_by_number(999).unwrap();
    assert!(missing.is_none(), "non-existent block should return None");
}

#[test]
fn test_block_reader() {
    let provider = provider(fresh());
    let block = provider.block_by_number(0).unwrap();
    assert!(block.is_some(), "genesis block should exist");
    let block = block.unwrap();
    assert_eq!(block.header.number, 0);
    assert!(block.body.transactions.is_empty(), "genesis should have no txs");
}

#[test]
fn test_state_provider_latest() {
    let provider = provider(fresh());
    let state = provider.latest().unwrap();
    let account = state.basic_account(&dev0()).unwrap();
    assert!(account.is_some(), "dev account should exist");
    let account = account.unwrap();
    assert!(!account.balance.is_zero(), "dev account should have balance");
    assert_eq!(account.nonce, 0, "fresh dev account nonce should be 0");
}

#[test]
fn test_after_transaction() {
    let provider = provider(after_transfer());
    let best = provider.best_block_number().unwrap();
    assert!(best >= 1, "block should have been mined, got {best}");
    let found_tx = provider.transaction_by_hash(h(0xaa)).unwrap();
    assert!(found_tx.is_some(), "mined tx should be findable by hash");
    let receipt = provider.receipt_by_hash(h(0xaa)).unwrap();
    assert!(receipt.is_some(), "receipt should exist for mined tx");
    let state = provider.latest().unwrap();
    let sender_account = state.basic_account(&dev0()).unwrap().unwrap();
    assert_eq!(sender_account.nonce, 1, "sender nonce should be 1 after tx");
}

#[test]
fn block_hash_and_numbers() {
    let p = provider(after_transfer());
    assert_eq!(p.block_hash(1).unwrap(), Some(block_hash(1)));
    assert_eq!(p.block_hash(2).unwrap(), None);
    assert_eq!(p.last_block_number().unwrap(), 1);
    assert_eq!(p.block_number(block_hash(1)).unwrap(), Some(1));
    assert_eq!(p.block_number(h(0x1234)).unwrap(), None);
    assert_eq!(p.chain_info().unwrap().best_hash, block_hash(1));
    assert_eq!(*p.chain_spec(), 31337);
}

#[test]
fn canonical_hashes_range_is_half_open() {
    let mut b = fresh();
    grow(&mut b, 3);
    let p = provider(b);
    assert_eq!(p.canonical_hashes_range(0, 3).unwrap(), vec![block_hash(0), block_hash(1), block_hash(2)]);
    assert_eq!(p.canonical_hashes_range(2, 10).unwrap(), vec![block_hash(2), block_hash(3)]);
    assert!(p.canonical_hashes_range(3, 1).unwrap().is_empty());
    assert!(p.canonical_hashes_range(2, 2).unwrap().is_empty());
}

#[test]
fn headers_range_bounds() {
    let mut b = fresh();
    grow(&mut b, 3);
    let p = provider(b);
    let all = p.headers_range(Bound::Unbounded, Bound::Unbounded).unwrap();
    assert_eq!(all.iter().map(|x| x.number).collect::<Vec<_>>(), vec![0, 1, 2, 3]);
    let mid = p.headers_range(Bound::Excluded(0), Bound::Included(2)).unwrap();
    assert_eq!(mid.iter().map(|x| x.number).collect::<Vec<_>>(), vec![1, 2]);
    let tail = p.headers_range(Bound::Included(3), Bound::Excluded(100)).unwrap();
    assert_eq!(tail.len(), 1);
    assert!(p.headers_range(Bound::Included(2), Bound::Excluded(2)).unwrap().is_empty());
}

#[test]
fn sealed_header_and_while() {
    let mut b = fresh();
    grow(&mut b, 4);
    let p = provider(b);
    let sealed = p.sealed_header(2).unwrap().unwrap();
    assert_eq!(sealed.hash, block_hash(2));
    assert_eq!(sealed.header.number, 2);
    assert!(p.sealed_header(9).unwrap().is_none());
    let taken = p.sealed_headers_while(Bound::Unbounded, Bound::Unbounded, |s| s.header.number < 2).unwrap();
    assert_eq!(taken.iter().map(|s| s.hash).collect::<Vec<_>>(), vec![block_hash(0), block_hash(1)]);
    let all = p.sealed_headers_while(Bound::Included(1), Bound::Included(3), |_| true).unwrap();
    assert_eq!(all.len(), 3);
    let none = p.sealed_headers_while(Bound::Unbounded, Bound::Unbounded, |_| false).unwrap();
    assert!(none.is_empty());
}

#[test]
fn blocks_by_hash_number_and_id() {
    let p = provider(after_transfer());
    let by_hash = p.block(BlockHashOrNumber::Hash(block_hash(1))).unwrap().unwrap();
    assert_eq!(by_hash.header.number, 1);
    assert_eq!(by_hash.body.transactions.len(), 1);
    assert_eq!(by_hash.body.transactions[0].tx_type, TxType::Eip1559);
    assert!(p.block(BlockHashOrNumber::Hash(h(0x999))).unwrap().is_none());
    assert!(p.block(BlockHashOrNumber::Number(7)).unwrap().is_none());
    assert!(p.find_block_by_hash(block_hash(0), BlockSource::Canonical).unwrap().is_some());
    assert!(p.block_by_hash(block_hash(0)).unwrap().is_some());

    let latest = p.block_by_id(BlockId::Number(BlockNumberOrTag::Latest)).unwrap().unwrap();
    assert_eq!(latest.header.number, 1);
    let earliest = p.block_by_id(BlockId::Number(BlockNumberOrTag::Earliest)).unwrap().unwrap();
    assert_eq!(earliest.header.number, 0);
    assert!(p.block_by_id(BlockId::Number(BlockNumberOrTag::Pending)).unwrap().is_none());
    let rpc = RpcBlockHash { block_hash: block_hash(1), require_canonical: None };
    assert_eq!(p.block_by_id(BlockId::Hash(rpc)).unwrap().unwrap().header.number, 1);

    assert!(p.pending_block().unwrap().is_none());
    assert!(p.pending_block_and_receipts().unwrap().is_none());
    assert!(p.block_by_transaction_id(0).unwrap().is_none());
}

#[test]
fn recovered_blocks_carry_hash_and_senders() {
    let p = provider(after_transfer());
    let rb = p.recovered_block(BlockHashOrNumber::Number(1), TransactionVariant::WithHash).unwrap().unwrap();
    // Sealed under the hash of its header, not the hash it was looked up by.
    assert_eq!(rb.block.hash, seal_hash(&header(1)));
    assert_ne!(rb.block.hash, block_hash(1));
    assert_eq!(rb.senders, vec![dev0()]);
    assert_eq!(rb.block.block.body.transactions.len(), 1);
    let same = p.sealed_block_with_senders(BlockHashOrNumber::Hash(block_hash(1)), TransactionVariant::NoHash).unwrap().unwrap();
    assert_eq!(same.block.hash, rb.block.hash);
    assert!(p.recovered_block(BlockHashOrNumber::Number(5), TransactionVariant::NoHash).unwrap().is_none());
}

#[test]
fn block_ranges_are_inclusive() {
    let mut b = after_transfer();
    grow(&mut b, 3);
    let p = provider(b);
    let blocks = p.block_range(1, 2).unwrap();
    assert_eq!(blocks.iter().map(|b| b.header.number).collect::<Vec<_>>(), vec![1, 2]);
    assert!(p.block_range(2, 1).unwrap().is_empty());
    assert_eq!(p.block_range(3, 100).unwrap().len(), 1);
    let rec = p.recovered_block_range(0, 3).unwrap();
    assert_eq!(rec.len(), 4);
    assert_eq!(rec[1].senders, vec![dev0()]);
    assert_eq!(rec[2].block.hash, seal_hash(&header(2)));
    assert_eq!(p.block_with_senders_range(0, 0).unwrap().len(), 1);
}

#[test]
fn headers_by_id() {
    let p = provider(after_transfer());
    let rpc = RpcBlockHash { block_hash: block_hash(0), require_canonical: Some(true) };
    assert_eq!(p.header_by_id(BlockId::Hash(rpc)).unwrap().unwrap().number, 0);
    assert_eq!(p.header_by_id(BlockId::Number(BlockNumberOrTag::Number(1))).unwrap().unwrap().number, 1);
    assert!(p.header_by_id(BlockId::Number(BlockNumberOrTag::Number(8))).unwrap().is_none());
    let sealed = p.sealed_header_by_id(BlockId::Number(BlockNumberOrTag::Latest)).unwrap().unwrap();
    assert_eq!(sealed.hash, block_hash(1));
    let unknown = RpcBlockHash { block_hash: h(0x77), require_canonical: None };
    assert!(p.sealed_header_by_id(BlockId::Hash(unknown)).unwrap().is_none());
    assert_eq!(p.header(block_hash(1)).unwrap().unwrap().timestamp, 1_700_000_001);
}

#[test]
fn safe_and_finalized_trail_the_best_block() {
    let p = provider(fresh());
    let safe = p.safe_block_num_hash().unwrap().unwrap();
    assert_eq!(safe.number, 0);
    assert_eq!(safe.hash, block_hash(0));
    assert_eq!(p.finalized_block_num_hash().unwrap().unwrap().hash, block_hash(0));
    assert!(p.pending_block_num_hash().unwrap().is_none());

    let mut b = fresh();
    grow(&mut b, 70);
    let p = provider(b);
    let safe = p.safe_block_num_hash().unwrap().unwrap();
    assert_eq!(safe.number, 38);
    assert_eq!(safe.hash, block_hash(38));
    let fin = p.finalized_block_num_hash().unwrap().unwrap();
    assert_eq!(fin.number, 6);
    assert_eq!(p.safe_block_hash().unwrap(), Some(block_hash(38)));
    assert_eq!(p.finalized_block_hash().unwrap(), Some(block_hash(6)));
}

#[test]
fn block_hash_for_id_each_tag() {
    let mut b = fresh();
    grow(&mut b, 40);
    let p = provider(b);
    let rpc = RpcBlockHash { block_hash: h(0x55), require_canonical: None };
    assert_eq!(p.block_hash_for_id(BlockId::Hash(rpc)).unwrap(), Some(h(0x55)));
    assert_eq!(p.block_hash_for_id(BlockId::Number(BlockNumberOrTag::Latest)).unwrap(), Some(block_hash(40)));
    assert_eq!(p.block_hash_for_id(BlockId::Number(BlockNumberOrTag::Pending)).unwrap(), None);
    assert_eq!(p.block_hash_for_id(BlockId::Number(BlockNumberOrTag::Safe)).unwrap(), Some(block_hash(8)));
    assert_eq!(p.block_hash_for_id(BlockId::Number(BlockNumberOrTag::Finalized)).unwrap(), Some(block_hash(0)));
    assert_eq!(p.block_hash_for_id(BlockId::Number(BlockNumberOrTag::Earliest)).unwrap(), Some(block_hash(0)));
    assert_eq!(p.block_hash_for_id(BlockId::Number(BlockNumberOrTag::Number(12))).unwrap(), Some(block_hash(12)));
    assert_eq!(p.block_hash_for_id(BlockId::Number(BlockNumberOrTag::Number(41))).unwrap(), None);
}

#[test]
fn transactions_with_meta_and_by_block() {
    let p = provider(after_transfer());
    let (t, meta) = p.transaction_by_hash_with_meta(h(0xaa)).unwrap().unwrap();
    assert_eq!(t.hash, h(0xaa));
    assert_eq!(meta.tx_hash, h(0xaa));
    assert_eq!(meta.index, 0);
    assert_eq!(meta.block_hash, block_hash(1));
    assert_eq!(meta.block_number, 1);
    assert_eq!(meta.base_fee, Some(875_000_000));
    assert_eq!(meta.excess_blob_gas, Some(0));
    assert_eq!(meta.timestamp, 1_700_000_001);
    // The deposit is mined but has no reth form.
    assert!(p.transaction_by_hash(h(0xbb)).unwrap().is_none());
    assert!(p.transaction_by_hash_with_meta(h(0xbb)).unwrap().is_none());
    assert!(p.transaction_by_hash(h(0xcc)).unwrap().is_none());

    let txs = p.transactions_by_block(BlockHashOrNumber::Number(1)).unwrap().unwrap();
    assert_eq!(txs.len(), 1);
    assert_eq!(txs[0].hash, h(0xaa));
    assert!(p.transactions_by_block(BlockHashOrNumber::Number(0)).unwrap().unwrap().is_empty());
    assert!(p.transactions_by_block(BlockHashOrNumber::Number(5)).unwrap().is_none());

    assert!(p.transaction_id(h(0xaa)).unwrap().is_none());
    assert!(p.transaction_by_id(0).unwrap().is_none());
    assert!(p.transaction_by_id_unhashed(0).unwrap().is_none());
    assert!(p.transaction_sender(0).unwrap().is_none());
    assert!(p.transactions_by_tx_range(0, 10).unwrap().is_empty());
    assert!(p.transactions_by_block_range(Bound::Unbounded, Bound::Unbounded).unwrap().is_empty());
    assert!(p.senders_by_tx_range(0, 10).unwrap().is_empty());
}

#[test]
fn mined_transaction_with_index_out_of_block_is_not_found() {
    let mut b = fresh();
    let block = Block { header: header(1), transactions: vec![], withdrawals: None };
    let txs = vec![mined(0xaa, 3, 1, ReceiptEnvelope::Legacy(ok_receipt(1)))];
    b.insert_block(block_hash(1), block, txs, dev_state(0, 1, 1));
    let p = provider(b);
    assert!(p.transaction_by_hash(h(0xaa)).unwrap().is_none());
    assert!(p.receipt_by_hash(h(0xaa)).unwrap().is_some());
}

#[test]
fn receipts_by_hash_and_block() {
    let p = provider(after_transfer());
    let r = p.receipt_by_hash(h(0xaa)).unwrap().unwrap();
    assert_eq!(r.tx_type, TxType::Eip1559);
    assert!(r.success);
    assert_eq!(r.cumulative_gas_used, 21_000);
    assert!(p.receipt_by_hash(h(0xbb)).unwrap().is_none());
    assert!(p.receipt_by_hash(h(0xcc)).unwrap().is_none());
    let rs = p.receipts_by_block(BlockHashOrNumber::Hash(block_hash(1))).unwrap().unwrap();
    assert_eq!(rs.len(), 1);
    assert_eq!(rs[0].cumulative_gas_used, 21_000);
    assert!(p.receipts_by_block(BlockHashOrNumber::Number(0)).unwrap().unwrap().is_empty());
    assert!(p.receipts_by_block(BlockHashOrNumber::Number(3)).unwrap().is_none());
    assert!(p.receipt(0).unwrap().is_none());
    assert!(p.receipts_by_tx_range(0, 5).unwrap().is_empty());
    assert!(p.receipts_by_block_range(0, 5).unwrap().is_empty());
    assert!(p.basic_account(&dev0()).unwrap().is_none());
}

#[test]
fn historical_states() {
    let p = provider(after_transfer());
    let old = p.history_by_block_hash(block_hash(0)).unwrap();
    assert_eq!(old.basic_account(&dev0()).unwrap().unwrap().nonce, 0);
    let now = p.history_by_block_number(1).unwrap();
    assert_eq!(now.basic_account(&dev0()).unwrap().unwrap().nonce, 1);
    let earliest = p.state_by_block_number_or_tag(BlockNumberOrTag::Earliest).unwrap();
    assert_eq!(earliest.basic_account(&addr(DEV1)).unwrap().unwrap().balance, U256::from_u64(10_000));
    let pending = p.state_by_block_number_or_tag(BlockNumberOrTag::Pending).unwrap();
    assert_eq!(pending.basic_account(&addr(DEV1)).unwrap().unwrap().balance, U256::from_u64(11_000));
    assert!(p.state_by_block_number_or_tag(BlockNumberOrTag::Safe).is_ok());
    assert!(p.state_by_block_number_or_tag(BlockNumberOrTag::Finalized).is_ok());
    assert!(p.state_by_block_hash(block_hash(1)).is_ok());
    assert!(p.pending().is_ok());
    assert!(p.pending_state_by_hash(block_hash(1)).unwrap().is_none());
    assert!(p.maybe_pending().unwrap().is_none());
}

#[test]
fn state_errors() {
    let p = provider(after_transfer());
    match p.history_by_block_number(999) {
        Err(e) => assert_eq!(e, ProviderError::BlockHashNotFound(B256::zero())),
        Ok(_) => panic!("expected an error"),
    }
    match p.history_by_block_hash(h(0x42)) {
        Err(e) => assert_eq!(e, ProviderError::StateForHashNotFound(h(0x42))),
        Ok(_) => panic!("expected an error"),
    }
    match p.state_by_block_number_or_tag(BlockNumberOrTag::Number(5)) {
        Err(e) => assert_eq!(e, ProviderError::BlockHashNotFound(B256::zero())),
        Ok(_) => panic!("expected an error"),
    }
}

#[test]
fn safe_tag_without_a_block_is_an_error() {
    let mut b = fresh();
    grow(&mut b, 40);
    // Forget the canonical hash of block 8, which the safe tag names.
    b.hashes.retain(|e| e.number != 8);
    let p = provider(b);
    match p.state_by_block_number_or_tag(BlockNumberOrTag::Safe) {
        Err(e) => assert_eq!(e, ProviderError::SafeBlockNotFound),
        Ok(_) => panic!("expected an error"),
    }
    let mut b = fresh();
    grow(&mut b, 70);
    b.hashes.retain(|e| e.number != 6);
    let p = provider(b);
    match p.state_by_block_number_or_tag(BlockNumberOrTag::Finalized) {
        Err(e) => assert_eq!(e, ProviderError::FinalizedBlockNotFound),
        Ok(_) => panic!("expected an error"),
    }
}

#[test]
fn state_provider_reads() {
    let mut s = MemoryState::new();
    let code_hash = h(0xc0de);
    s.accounts.push(AccountEntry {
        address: addr(1),
        info: AccountInfo { balance: U256::from_u64(5), nonce: 2, code_hash },
    });
    s.accounts.push(AccountEntry { address: addr(2), info: account(1, 0) });
    s.code.push(CodeEntry { hash: code_hash, code: vec![0x60, 0x00] });
    s.storage.push(StorageEntry { address: addr(1), slot: U256::from_u64(1), value: U256::from_u64(9) });
    s.storage.push(StorageEntry { address: addr(1), slot: U256::from_u64(2), value: U256::zero() });
    s.block_hashes.push(NumberHash { number: 4, hash: h(0x44) });
    let p = AnvilStateProvider::new(s);

    let a = p.basic_account(&addr(1)).unwrap().unwrap();
    assert_eq!(a.bytecode_hash, Some(code_hash));
    assert_eq!(a.nonce, 2);
    let b = p.basic_account(&addr(2)).unwrap().unwrap();
    assert_eq!(b.bytecode_hash, None);
    assert!(p.basic_account(&addr(3)).unwrap().is_none());

    assert_eq!(p.bytecode_by_hash(&code_hash).unwrap().unwrap().bytes, vec![0x60, 0x00]);
    assert!(p.bytecode_by_hash(&keccak_empty()).unwrap().is_none());
    assert!(p.bytecode_by_hash(&h(0x1)).unwrap().unwrap().bytes.is_empty());

    assert_eq!(p.storage(addr(1), h(1)).unwrap(), Some(U256::from_u64(9)));
    assert_eq!(p.storage(addr(1), h(2)).unwrap(), None);
    assert_eq!(p.storage(addr(9), h(1)).unwrap(), None);

    assert_eq!(p.block_hash(4).unwrap(), Some(h(0x44)));
    assert_eq!(p.block_hash(5).unwrap(), None);
    assert!(p.canonical_hashes_range(0, 10).unwrap().is_empty());
}

#[test]
fn only_the_empty_digest_means_no_code() {
    let mut s = MemoryState::new();
    let zero_code = AccountInfo { balance: U256::zero(), nonce: 0, code_hash: B256::zero() };
    s.accounts.push(AccountEntry { address: addr(1), info: zero_code });
    s.accounts.push(AccountEntry { address: addr(2), info: account(0, 0) });
    let p = AnvilStateProvider::new(s);
    assert_eq!(p.basic_account(&addr(1)).unwrap().unwrap().bytecode_hash, Some(B256::zero()));
    assert_eq!(p.basic_account(&addr(2)).unwrap().unwrap().bytecode_hash, None);
    assert!(p.bytecode_by_hash(&B256::zero()).unwrap().is_some());
}

#[test]
fn from_state_db_ref_is_a_copy() {
    let s = dev_state(3, 1, 2);
    let p = AnvilStateProvider::from_state_db_ref(&s);
    assert_eq!(p.basic_account(&dev0()).unwrap().unwrap().nonce, 3);
}

#[test]
fn later_entries_replace_earlier_ones() {
    let mut b = fresh();
    let block = Block { header: header(0), transactions: vec![], withdrawals: None };
    // A reorg of block 0 under a new hash.
    b.insert_block(h(0xfeed), block, vec![], dev_state(0, 1, 1));
    assert_eq!(b.number_to_hash(0), Some(h(0xfeed)));
    assert!(b.has_block(block_hash(0)));
    assert_eq!(b.block_transaction_hashes(h(0xfeed)), Vec::<B256>::new());
}

#[test]
fn backend_view_of_memory_backend() {
    let b = after_transfer();
    assert_eq!(b.best_hash(), block_hash(1));
    assert_eq!(b.block_transaction_hashes(block_hash(1)), vec![h(0xaa), h(0xbb)]);
    assert!(b.block_transaction_hashes(h(0x1)).is_empty());
    assert!(b.mined_transaction_by_hash(h(0xbb)).is_some());
    assert_eq!(b.block_hash(BlockNumberOrTag::Pending), None);
    assert!(b.state_by_block_hash(block_hash(0)).unwrap().is_some());
    assert!(b.state_by_block_hash(block_hash(1)).unwrap().is_none());
    assert!(b.latest_state().is_ok());
    assert_eq!(
        b.try_current_state().unwrap().accounts.len(),
        b.latest_state().unwrap().accounts.len()
    );
    assert!(b.block_by_hash(block_hash(1)).is_some());
}

#[test]
fn read_adapter_calls() {
    let b = after_transfer();
    let a = RethReadAdapter::new(Arc::new(b), Arc::new(1u64));
    assert_eq!(a.block_number().unwrap(), U256::from_u64(1));
    assert_eq!(a.get_balance(addr(DEV1), None).unwrap(), U256::from_u64(11_000));
    let genesis = BlockId::Number(BlockNumberOrTag::Number(0));
    assert_eq!(a.get_balance(addr(DEV1), Some(genesis)).unwrap(), U256::from_u64(10_000));
    assert_eq!(a.get_balance(addr(0x5), None).unwrap(), U256::zero());
    assert_eq!(a.get_transaction_count(dev0(), None).unwrap(), U256::from_u64(1));
    assert_eq!(a.get_transaction_count(dev0(), Some(genesis)).unwrap(), U256::zero());
    assert_eq!(a.get_transaction_count(addr(0x5), None).unwrap(), U256::zero());
    let latest = BlockId::Number(BlockNumberOrTag::Latest);
    assert_eq!(a.get_balance(addr(DEV1), Some(latest)).unwrap(), a.get_balance(addr(DEV1), None).unwrap());
    assert_eq!(a.get_balance(addr(DEV1), Some(BlockId::Number(BlockNumberOrTag::Pending))), Err(ReadError::BlockNotFound));
    let unknown = BlockId::Hash(RpcBlockHash { block_hash: h(0x99), require_canonical: None });
    assert_eq!(
        a.get_transaction_count(dev0(), Some(unknown)),
        Err(ReadError::Provider(ProviderError::StateForHashNotFound(h(0x99))))
    );
    let c = a.clone();
    assert_eq!(c.block_number().unwrap(), U256::from_u64(1));
}

/// A state snapshot whose every read fails.
struct Failing;

impl StateRef for Failing {
    // Only the verifier reads the model; nothing calls it at run time.
    fn state_model(&self) -> StateModel {
        unreachable!()
    }
    fn basic_ref(&self, address: Address) -> Result<Option<AccountInfo>, DatabaseError> {
        Err(DatabaseError::GetAccount(address))
    }
    fn code_by_hash_ref(&self, code_hash: B256) -> Result<Bytecode, DatabaseError> {
        Err(DatabaseError::MissingCode(code_hash))
    }
    fn storage_ref(&self, address: Address, index: U256) -> Result<U256, DatabaseError> {
        Err(DatabaseError::GetStorage(address, index))
    }
    fn block_hash_ref(&self, number: u64) -> Result<B256, DatabaseError> {
        Err(DatabaseError::GetBlockHash(number))
    }
}

#[test]
fn database_errors_become_provider_errors() {
    let p = AnvilStateProvider::new(Failing);
    assert_eq!(p.basic_account(&addr(1)), Err(ProviderError::Database(DatabaseError::GetAccount(addr(1)))));
    assert!(matches!(p.bytecode_by_hash(&h(3)), Err(ProviderError::Database(DatabaseError::MissingCode(_)))));
    assert_eq!(p.storage(addr(1), h(2)), Err(ProviderError::Database(DatabaseError::GetStorage(addr(1), U256::from_u64(2)))));
    assert_eq!(p.block_hash(7), Err(ProviderError::Database(DatabaseError::GetBlockHash(7))));
    assert!(p.bytecode_by_hash(&keccak_empty()).unwrap().is_none());
}

#[test]
fn one_number_range_is_the_block_by_number() {
    let p = provider(after_transfer());
    for n in 0..3u64 {
        let range = p.block_range(n, n).unwrap();
        match p.block_by_number(n).unwrap() {
            Some(b) => {
                assert_eq!(range.len(), 1);
                assert_eq!(range[0].header, b.header);
                assert_eq!(range[0].body.transactions, b.body.transactions);
            }
            None => assert!(range.is_empty()),
        }
    }
}

#[test]
fn no_body_indices_or_change_sets() {
    let p = provider(after_transfer());
    assert!(p.block_body_indices(1).unwrap().is_none());
    assert!(p.block_body_indices_range(0, 1).unwrap().is_empty());
    assert!(p.account_block_changeset(1).unwrap().is_empty());
    assert!(p.get_account_before_block(1, dev0()).unwrap().is_none());
    assert!(p.account_changesets_range(Bound::Unbounded, Bound::Unbounded).unwrap().is_empty());
}

#[test]
fn busy_state_lock_is_answered_without_waiting() {
    let mut b = after_transfer();
    b.state_locked = true;
    // The backend itself reports the latest block as not found, as anvil's does.
    assert_eq!(
        b.latest_state().err(),
        Some(DatabaseError::BlockNotFound(BlockId::Number(BlockNumberOrTag::Latest)))
    );
    assert!(b.try_current_state().is_none());
    let p = provider(b);
    match p.latest() {
        Err(e) => assert_eq!(e, ProviderError::DbReadLockBusy),
        Ok(_) => panic!("expected the busy-lock error"),
    }
    // Historical states do not take the lock.
    assert!(p.history_by_block_hash(block_hash(0)).is_ok());
    let mut b = after_transfer();
    b.state_locked = true;
    let a = RethReadAdapter::new(Arc::new(b), Arc::new(1u64));
    assert_eq!(a.get_balance(addr(DEV1), None), Err(ReadError::Provider(ProviderError::DbReadLockBusy)));
    let genesis = BlockId::Number(BlockNumberOrTag::Number(0));
    assert_eq!(a.get_balance(addr(DEV1), Some(genesis)).unwrap(), U256::from_u64(10_000));
}
