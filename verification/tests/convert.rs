use anvil_reth_bridge::block::{
    copy_vec, seal_hash, AccessListItem, Authorization, Block, Header, Log, Signature,
    Transaction, TxKind, TxPayload, Withdrawal,
};
use anvil_reth_bridge::convert::{convert_block, convert_receipt, convert_receipt_view, convert_tx};
use anvil_reth_bridge::primitives::{Address, TxType, B256, U256};
use anvil_reth_bridge::receipt::{
    DepositReceipt, ReceiptEnvelope, ReceiptStatus, ReceiptView, TxReceipt,
};

fn h(n: u128) -> B256 {
    B256 { hi: 0, lo: n }
}

fn addr(n: u128) -> Address {
    Address { hi: 0, lo: n }
}

fn header(number: u64) -> Header {
    Header {
        parent_hash: [0u8; 32],
        ommers_hash: [0u8; 32],
        beneficiary: [0u8; 20],
        state_root: [0u8; 32],
        transactions_root: [0u8; 32],
        receipts_root: [0u8; 32],
        logs_bloom: [0u8; 256],
        difficulty: [0u8; 32],
        number,
        gas_limit: 30_000_000,
        gas_used: 0,
        timestamp: 1_700_000_000 + number,
        extra_data: vec![],
        mix_hash: [0u8; 32],
        nonce: [0u8; 8],
        base_fee_per_gas: Some(1_000_000_000),
        withdrawals_root: None,
        blob_gas_used: None,
        excess_blob_gas: Some(0),
        parent_beacon_block_root: None,
        requests_hash: None,
    }
}

fn b256_of(bytes: [u8; 32]) -> B256 {
    let mut hi = [0u8; 16];
    let mut lo = [0u8; 16];
    hi.copy_from_slice(&bytes[..16]);
    lo.copy_from_slice(&bytes[16..]);
    B256 { hi: u128::from_be_bytes(hi), lo: u128::from_be_bytes(lo) }
}

/// The header's hash as alloy computes it.
fn alloy_hash(h: &Header) -> B256 {
    let a = alloy_consensus::Header {
        parent_hash: h.parent_hash.into(),
        ommers_hash: h.ommers_hash.into(),
        beneficiary: h.beneficiary.into(),
        state_root: h.state_root.into(),
        transactions_root: h.transactions_root.into(),
        receipts_root: h.receipts_root.into(),
        logs_bloom: h.logs_bloom.into(),
        difficulty: alloy_primitives::U256::from_be_bytes(h.difficulty),
        number: h.number,
        gas_limit: h.gas_limit,
        gas_used: h.gas_used,
        timestamp: h.timestamp,
        extra_data: h.extra_data.clone().into(),
        mix_hash: h.mix_hash.into(),
        nonce: h.nonce.into(),
        base_fee_per_gas: h.base_fee_per_gas,
        withdrawals_root: h.withdrawals_root.map(Into::into),
        blob_gas_used: h.blob_gas_used,
        excess_blob_gas: h.excess_blob_gas,
        parent_beacon_block_root: h.parent_beacon_block_root.map(Into::into),
        requests_hash: h.requests_hash.map(Into::into),
    };
    b256_of(a.hash_slow().0)
}

/// The hash each test transaction's signature signs.
const SIGNED_HASH: [u8; 32] = [0xab; 32];

fn secret(k: u8) -> alloy_primitives::B256 {
    let mut b = [0u8; 32];
    b[31] = k;
    b.into()
}

/// The signature that the key `k` makes over `SIGNED_HASH`.
fn signature(k: u8) -> Signature {
    let s = alloy_consensus::crypto::secp256k1::sign_message(secret(k), SIGNED_HASH.into()).unwrap();
    Signature { r: s.r().to_be_bytes(), s: s.s().to_be_bytes(), y_parity: s.v() }
}

/// A signature that no key makes: both scalars zero.
fn bad_signature() -> Signature {
    Signature { r: [0u8; 32], s: [0u8; 32], y_parity: false }
}

/// The address of the key `k`.
fn who(k: u8) -> Address {
    let s = alloy_consensus::crypto::secp256k1::sign_message(secret(k), SIGNED_HASH.into()).unwrap();
    let a = alloy_consensus::crypto::secp256k1::recover_signer(&s, SIGNED_HASH.into()).unwrap();
    let b = a.0 .0;
    let mut hi = [0u8; 4];
    let mut lo = [0u8; 16];
    hi.copy_from_slice(&b[..4]);
    lo.copy_from_slice(&b[4..]);
    Address { hi: u32::from_be_bytes(hi), lo: u128::from_be_bytes(lo) }
}

fn payload() -> TxPayload {
    TxPayload {
        input: vec![0xa9, 0x05, 0x9c, 0xbb],
        access_list: vec![AccessListItem { address: addr(2), storage_keys: vec![h(1), h(2)] }],
        blob_versioned_hashes: vec![],
        authorization_list: vec![Authorization {
            chain_id: U256::from_u64(31337),
            address: addr(3),
            nonce: 4,
            y_parity: true,
            r: [1u8; 32],
            s: [2u8; 32],
        }],
    }
}

fn tx(hash: u128, kind: TxKind, key: Option<u8>) -> Transaction {
    Transaction {
        hash: h(hash),
        kind,
        chain_id: Some(31337),
        nonce: 0,
        gas_limit: 21_000,
        max_fee_per_gas: 2_000_000_000,
        max_priority_fee_per_gas: Some(1_000_000_000),
        to: Some(addr(2)),
        value: U256::from_u64(1000),
        payload: payload(),
        signature: match key {
            Some(k) => signature(k),
            None => bad_signature(),
        },
        signature_hash: SIGNED_HASH,
        impersonated_sender: None,
    }
}

fn log(n: u128) -> Log {
    Log { address: addr(n), topics: vec![h(n), h(n + 1)], data: vec![1, 2, 3] }
}

fn receipt(status: ReceiptStatus, gas: u64) -> TxReceipt {
    TxReceipt { status, cumulative_gas_used: gas, logs: vec![log(7)] }
}

#[test]
fn convert_tx_legacy_keeps_fields_and_signer() {
    let t = tx(10, TxKind::Legacy, Some(1));
    let (signed, sender) = convert_tx(&t).unwrap();
    // The address of the secret key 1.
    assert_eq!(sender, Address { hi: 0x7e5f4552, lo: 0x091a69125d5dfcb7b8c2659029395bdf });
    assert_eq!(sender, who(1));
    assert_eq!(signed.signature, t.signature);
    assert_eq!(signed.payload, payload());
    assert_eq!(signed.payload.input, vec![0xa9, 0x05, 0x9c, 0xbb]);
    assert_eq!(signed.payload.access_list[0].storage_keys, vec![h(1), h(2)]);
    assert_eq!(signed.payload.authorization_list[0].nonce, 4);
    assert_eq!(signed.chain_id, Some(31337));
    assert_eq!(signed.max_fee_per_gas, 2_000_000_000);
    assert_eq!(signed.max_priority_fee_per_gas, Some(1_000_000_000));
    assert_eq!(signed.hash, h(10));
    assert_eq!(signed.tx_type, TxType::Legacy);
    assert_eq!(signed.gas_limit, 21_000);
    assert_eq!(signed.to, Some(addr(2)));
    assert_eq!(signed.value, U256::from_u64(1000));
}

#[test]
fn convert_tx_each_ethereum_kind() {
    let kinds = [
        (TxKind::Legacy, TxType::Legacy),
        (TxKind::Eip2930, TxType::Eip2930),
        (TxKind::Eip1559, TxType::Eip1559),
        (TxKind::Eip4844, TxType::Eip4844),
        (TxKind::Eip7702, TxType::Eip7702),
    ];
    for (kind, ty) in kinds {
        let (signed, _) = convert_tx(&tx(1, kind, Some(1))).unwrap();
        assert_eq!(signed.tx_type, ty);
    }
}

#[test]
fn convert_tx_impersonated_sender_wins() {
    let mut t = tx(10, TxKind::Eip1559, Some(1));
    t.impersonated_sender = Some(addr(9));
    assert_eq!(convert_tx(&t).unwrap().1, addr(9));
    t.signature = bad_signature();
    assert_eq!(convert_tx(&t).unwrap().1, addr(9));
}

#[test]
fn convert_tx_rejects_deposit_tempo_and_unrecoverable() {
    assert!(convert_tx(&tx(1, TxKind::Deposit, Some(1))).is_none());
    assert!(convert_tx(&tx(1, TxKind::Tempo, Some(1))).is_none());
    assert!(convert_tx(&tx(1, TxKind::Eip1559, None)).is_none());
}

#[test]
fn coerce_status_treats_state_root_as_success() {
    assert!(ReceiptStatus::Eip658(true).coerce_status());
    assert!(!ReceiptStatus::Eip658(false).coerce_status());
    assert!(ReceiptStatus::PostState(h(5)).coerce_status());
}

#[test]
fn convert_receipt_each_kind() {
    let r = convert_receipt(&ReceiptEnvelope::Eip1559(receipt(ReceiptStatus::Eip658(false), 42)))
        .unwrap();
    assert_eq!(r.tx_type, TxType::Eip1559);
    assert!(!r.success);
    assert_eq!(r.cumulative_gas_used, 42);
    assert_eq!(r.logs.len(), 1);
    assert_eq!(r.logs[0].address, addr(7));
    assert_eq!(r.logs[0].topics, vec![h(7), h(8)]);
    assert_eq!(r.logs[0].data, vec![1, 2, 3]);

    let r = convert_receipt(&ReceiptEnvelope::Legacy(receipt(ReceiptStatus::PostState(h(1)), 5)))
        .unwrap();
    assert_eq!(r.tx_type, TxType::Legacy);
    assert!(r.success);

    let deposit = ReceiptEnvelope::Deposit(DepositReceipt {
        inner: receipt(ReceiptStatus::Eip658(true), 1),
        deposit_nonce: Some(3),
        deposit_receipt_version: Some(1),
    });
    assert!(convert_receipt(&deposit).is_none());
    assert!(convert_receipt(&ReceiptEnvelope::Tempo(receipt(ReceiptStatus::Eip658(true), 1)))
        .is_none());
}

#[test]
fn receipt_view_reads_deposit_inner_receipt() {
    let deposit = ReceiptEnvelope::Deposit(DepositReceipt {
        inner: receipt(ReceiptStatus::Eip658(true), 77),
        deposit_nonce: None,
        deposit_receipt_version: None,
    });
    assert_eq!(deposit.tx_type(), None);
    assert!(deposit.success());
    assert_eq!(deposit.cumulative_gas_used(), 77);
    assert_eq!(deposit.logs().len(), 1);
    assert!(convert_receipt_view(&deposit).is_none());
}

#[test]
fn convert_receipt_view_agrees_with_convert_receipt() {
    let env = ReceiptEnvelope::Eip4844(receipt(ReceiptStatus::Eip658(true), 99));
    let a = convert_receipt(&env).unwrap();
    let b = convert_receipt_view(&env).unwrap();
    assert_eq!(a.tx_type, b.tx_type);
    assert_eq!(a.success, b.success);
    assert_eq!(a.cumulative_gas_used, b.cumulative_gas_used);
    assert_eq!(a.logs.len(), b.logs.len());
}

#[test]
fn convert_block_skips_unconvertible_and_aligns_senders() {
    let block = Block {
        header: header(5),
        transactions: vec![
            tx(1, TxKind::Legacy, Some(1)),
            tx(2, TxKind::Deposit, Some(2)),
            tx(3, TxKind::Eip1559, None),
            tx(4, TxKind::Eip7702, Some(4)),
        ],
        withdrawals: Some(vec![Withdrawal { index: 1, validator_index: 2, address: addr(3), amount: 4 }]),
    };
    let (sealed, senders) = convert_block(&block);
    assert_eq!(sealed.hash, alloy_hash(&header(5)));
    let reth = sealed.block;
    assert_eq!(reth.header, header(5));
    assert_eq!(reth.body.transactions.len(), 2);
    assert_eq!(reth.body.transactions[0].hash, h(1));
    assert_eq!(reth.body.transactions[1].hash, h(4));
    assert_eq!(senders, vec![who(1), who(4)]);
    assert!(reth.body.ommers.is_empty());
    assert_eq!(reth.body.withdrawals.as_ref().unwrap().len(), 1);
    assert_eq!(reth.body.withdrawals.unwrap()[0].amount, 4);
}

#[test]
fn convert_block_empty() {
    let block = Block { header: header(0), transactions: vec![], withdrawals: None };
    let (sealed, senders) = convert_block(&block);
    assert_eq!(sealed.hash, alloy_hash(&header(0)));
    let reth = sealed.block;
    assert!(reth.body.transactions.is_empty());
    assert!(senders.is_empty());
    assert!(reth.body.withdrawals.is_none());
}

#[test]
fn block_clone_and_copy_vec_keep_contents() {
    let block = Block {
        header: header(3),
        transactions: vec![tx(1, TxKind::Legacy, Some(1))],
        withdrawals: None,
    };
    let c = block.clone();
    assert_eq!(c.header, block.header);
    assert_eq!(c.transactions, block.transactions);
    assert_eq!(copy_vec(&vec![1u8, 2, 3]), vec![1u8, 2, 3]);
}

#[test]
fn seal_hash_is_the_alloy_header_hash() {
    let mut hd = header(7);
    hd.parent_hash = [0x11; 32];
    hd.beneficiary = [0x22; 20];
    hd.logs_bloom[3] = 0x80;
    hd.difficulty[31] = 2;
    hd.extra_data = vec![0xde, 0xad, 0xbe, 0xef];
    hd.nonce = [0, 0, 0, 0, 0, 0, 0, 0x42];
    hd.withdrawals_root = Some([0x33; 32]);
    hd.blob_gas_used = Some(131072);
    hd.parent_beacon_block_root = Some([0x44; 32]);
    let expected = alloy_hash(&hd);
    assert_eq!(seal_hash(&hd), expected);
    assert_ne!(seal_hash(&hd), seal_hash(&header(7)));
    assert_ne!(expected, B256::zero());
}

#[test]
fn sender_is_recovered_from_the_signature() {
    let mut t = tx(10, TxKind::Eip1559, Some(3));
    assert_eq!(convert_tx(&t).unwrap().1, who(3));
    assert_ne!(who(3), who(1));
    // A signature over another hash recovers another address, or none.
    t.signature_hash = [0xcd; 32];
    assert_ne!(convert_tx(&t).map(|p| p.1), Some(who(3)));
}

#[test]
fn high_s_signature_is_refused() {
    let mut t = tx(10, TxKind::Eip1559, Some(1));
    // s above half the curve order (EIP-2).
    t.signature.s = [0xff; 32];
    t.signature.s[0] = 0x80;
    assert!(convert_tx(&t).is_none());
    t.impersonated_sender = Some(addr(5));
    assert_eq!(convert_tx(&t).unwrap().1, addr(5));
}

#[test]
fn receipt_clone_keeps_kind_and_fields() {
    let deposit = ReceiptEnvelope::Deposit(DepositReceipt {
        inner: receipt(ReceiptStatus::PostState(h(9)), 77),
        deposit_nonce: Some(4),
        deposit_receipt_version: Some(1),
    });
    match deposit.clone() {
        ReceiptEnvelope::Deposit(d) => {
            assert_eq!(d.inner.status, ReceiptStatus::PostState(h(9)));
            assert_eq!(d.inner.cumulative_gas_used, 77);
            assert_eq!(d.inner.logs.len(), 1);
            assert_eq!(d.deposit_nonce, Some(4));
            assert_eq!(d.deposit_receipt_version, Some(1));
        }
        _ => panic!("a deposit receipt should clone to a deposit receipt"),
    }
    match ReceiptEnvelope::Tempo(receipt(ReceiptStatus::Eip658(false), 3)).clone() {
        ReceiptEnvelope::Tempo(r) => assert_eq!(r.status, ReceiptStatus::Eip658(false)),
        _ => panic!("a Tempo receipt should clone to a Tempo receipt"),
    }
}
