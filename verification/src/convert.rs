//! Conversion of the backend's blocks, transactions and receipts into reth's shapes.
use vstd::prelude::*;
use alloy_consensus::crypto::secp256k1 as alloy_secp256k1;
use alloy_primitives::{Signature as AlloySignature, U256 as AlloyU256};
use crate::block::{
    Block, Header, RethBlock, RethBlockBody, RethBlockBodyView, RethBlockView, Signature,
    Transaction, TransactionSigned, TransactionSignedView, TransactionView, signed_txs_view, TxKind, copy_opt_vec, SealedBlock, SealedBlockView, seal_hash,
    spec_seal_hash,
};
use crate::primitives::{Address, TxType, address_from_bytes, address_of_bytes, be_value};
use crate::receipt::{
    ReceiptEnvelope, ReceiptModel, ReceiptView, RethReceipt, RethReceiptView, opt_receipt_view,
    receipt_model,
};

verus! {

/// The 20 bytes of the address that secp256k1 public-key recovery gives for a
/// signature (`r`, `s`, `y_parity`) over a 32-byte message hash; `None` where
/// recovery fails.
pub uninterp spec fn spec_recover_signer(r: Seq<u8>, s: Seq<u8>, y_parity: bool, hash: Seq<u8>) -> Option<Seq<u8>>;

/// Half the order of the secp256k1 curve: EIP-2 refuses signatures whose `s` is above it.
pub open spec fn secp256k1n_half() -> nat {
    57896044618658097711785492504343953926418782139537452191302581570759080747168nat
}

pub open spec fn opt_address_bytes(a: Option<[u8; 20]>) -> Option<Seq<u8>> {
    match a {
        Some(b) => Some(b@),
        None => None,
    }
}

/// `alloy_consensus::crypto::secp256k1::recover_signer`: recovers the signer of a
/// signature over a message hash. Trusted: its result is a function of the signature
/// and the hash alone, named `spec_recover_signer`, and it fails for an `s` above
/// half the curve order, as its source checks first.
#[verifier::external_body]
fn recover_signer(sig: Signature, hash: [u8; 32]) -> (r: Option<[u8; 20]>)
    ensures
        opt_address_bytes(r) == spec_recover_signer(sig.r@, sig.s@, sig.y_parity, hash@),
        be_value(sig.s@) > secp256k1n_half() ==> r is None,
{
    let s = AlloySignature::new(
        AlloyU256::from_be_bytes(sig.r),
        AlloyU256::from_be_bytes(sig.s),
        sig.y_parity,
    );
    alloy_secp256k1::recover_signer(&s, hash.into()).ok().map(|a| a.0 .0)
}

/// The signer that recovery gives for a stored transaction's signature.
pub open spec fn spec_signer(tx: TransactionView) -> Option<Address> {
    match spec_recover_signer(
        tx.signature.r@,
        tx.signature.s@,
        tx.signature.y_parity,
        tx.signature_hash@,
    ) {
        Some(b) => Some(address_of_bytes(b)),
        None => None,
    }
}

/// The sender of a stored transaction: the impersonated account where there is one,
/// otherwise the signer that signature recovery gives.
pub open spec fn spec_recover(tx: TransactionView) -> Option<Address> {
    match tx.impersonated_sender {
        Some(s) => Some(s),
        None => spec_signer(tx),
    }
}

/// The Ethereum type of a transaction kind; `None` for deposits and Tempo transactions.
pub open spec fn spec_eth_type(kind: TxKind) -> Option<TxType> {
    match kind {
        TxKind::Legacy => Some(TxType::Legacy),
        TxKind::Eip2930 => Some(TxType::Eip2930),
        TxKind::Eip1559 => Some(TxType::Eip1559),
        TxKind::Eip4844 => Some(TxType::Eip4844),
        TxKind::Eip7702 => Some(TxType::Eip7702),
        TxKind::Deposit => None,
        TxKind::Tempo => None,
    }
}

/// The reth form of a stored transaction, and its sender; `None` where the sender
/// cannot be recovered or the transaction has no Ethereum form.
pub open spec fn spec_convert_tx(tx: TransactionView) -> Option<(TransactionSignedView, Address)> {
    match (spec_recover(tx), spec_eth_type(tx.kind)) {
        (Some(sender), Some(tx_type)) => Some(
            (
                TransactionSignedView {
                    hash: tx.hash,
                    tx_type,
                    chain_id: tx.chain_id,
                    nonce: tx.nonce,
                    gas_limit: tx.gas_limit,
                    max_fee_per_gas: tx.max_fee_per_gas,
                    max_priority_fee_per_gas: tx.max_priority_fee_per_gas,
                    to: tx.to,
                    value: tx.value,
                    payload: tx.payload,
                    signature: tx.signature,
                },
                sender,
            ),
        ),
        _ => None,
    }
}

fn recover(tx: &Transaction) -> (r: Option<Address>)
    ensures
        r == spec_recover(tx@),
        tx.impersonated_sender is None && be_value(tx.signature.s@) > secp256k1n_half() ==> r is None,
{
    match tx.impersonated_sender {
        Some(s) => Some(s),
        None => match recover_signer(tx.signature, tx.signature_hash) {
            Some(b) => Some(address_from_bytes(b)),
            None => None,
        },
    }
}

fn try_into_eth(kind: TxKind) -> (r: Option<TxType>)
    ensures
        r == spec_eth_type(kind),
{
    match kind {
        TxKind::Legacy => Some(TxType::Legacy),
        TxKind::Eip2930 => Some(TxType::Eip2930),
        TxKind::Eip1559 => Some(TxType::Eip1559),
        TxKind::Eip4844 => Some(TxType::Eip4844),
        TxKind::Eip7702 => Some(TxType::Eip7702),
        TxKind::Deposit | TxKind::Tempo => None,
    }
}

pub open spec fn opt_signed_pair_view(r: Option<(TransactionSigned, Address)>) -> Option<(TransactionSignedView, Address)> {
    match r {
        Some((t, a)) => Some((t@, a)),
        None => None,
    }
}

/// Converts a stored transaction to reth's `TransactionSigned`, returning the
/// recovered sender.
///
/// Returns `None` for Deposit and Tempo transactions (not standard Ethereum types),
/// and where the sender cannot be recovered.
pub fn convert_tx(tx: &Transaction) -> (r: Option<(TransactionSigned, Address)>)
    ensures
        opt_signed_pair_view(r) == spec_convert_tx(tx@),
        tx.impersonated_sender is None && be_value(tx.signature.s@) > secp256k1n_half() ==> r is None,
{
    let sender = match recover(tx) {
        Some(s) => s,
        None => return None,
    };
    let tx_type = match try_into_eth(tx.kind) {
        Some(t) => t,
        None => return None,
    };
    let reth_tx = TransactionSigned {
        hash: tx.hash,
        tx_type,
        chain_id: tx.chain_id,
        nonce: tx.nonce,
        gas_limit: tx.gas_limit,
        max_fee_per_gas: tx.max_fee_per_gas,
        max_priority_fee_per_gas: tx.max_priority_fee_per_gas,
        to: tx.to,
        value: tx.value,
        payload: tx.payload.clone(),
        signature: tx.signature,
    };
    Some((reth_tx, sender))
}

/// The reth receipt made of what is read from a receipt; `None` where it has no
/// Ethereum transaction type.
pub open spec fn spec_convert_receipt(m: ReceiptModel) -> Option<RethReceiptView> {
    match m.tx_type {
        Some(tx_type) => Some(
            RethReceiptView {
                tx_type,
                success: m.success,
                cumulative_gas_used: m.cumulative_gas_used,
                logs: m.logs,
            },
        ),
        None => None,
    }
}

/// Converts a receipt implementing [`ReceiptView`] to reth's `Receipt`.
///
/// Returns `None` for non-standard receipt types (Deposit, Tempo).
pub fn convert_receipt_view<R: ReceiptView>(receipt: &R) -> (r: Option<RethReceipt>)
    ensures
        opt_receipt_view(r) == spec_convert_receipt(receipt_model(*receipt)),
{
    let tx_type = match receipt.tx_type() {
        Some(t) => t,
        None => return None,
    };
    Some(
        RethReceipt {
            tx_type,
            success: receipt.success(),
            cumulative_gas_used: receipt.cumulative_gas_used(),
            logs: receipt.logs(),
        },
    )
}

/// Converts a stored receipt envelope to reth's `Receipt`.
///
/// Returns `None` for Deposit and Tempo receipts.
pub fn convert_receipt(receipt: &ReceiptEnvelope) -> (r: Option<RethReceipt>)
    ensures
        opt_receipt_view(r) == spec_convert_receipt(receipt_model(*receipt)),
{
    let (tx_type, inner) = match receipt {
        ReceiptEnvelope::Legacy(r) => (TxType::Legacy, r),
        ReceiptEnvelope::Eip2930(r) => (TxType::Eip2930, r),
        ReceiptEnvelope::Eip1559(r) => (TxType::Eip1559, r),
        ReceiptEnvelope::Eip4844(r) => (TxType::Eip4844, r),
        ReceiptEnvelope::Eip7702(r) => (TxType::Eip7702, r),
        ReceiptEnvelope::Deposit(_) | ReceiptEnvelope::Tempo(_) => return None,
    };
    Some(
        RethReceipt {
            tx_type,
            success: inner.status.coerce_status(),
            cumulative_gas_used: inner.cumulative_gas_used,
            logs: crate::block::clone_logs(&inner.logs),
        },
    )
}

/// The converted transactions of a sequence, with their senders, in order;
/// transactions that do not convert are left out.
pub open spec fn converted_txs(txs: Seq<TransactionView>) -> Seq<(TransactionSignedView, Address)>
    decreases txs.len(),
{
    if txs.len() == 0 {
        Seq::empty()
    } else {
        let rest = converted_txs(txs.drop_last());
        match spec_convert_tx(txs.last()) {
            Some(p) => rest.push(p),
            None => rest,
        }
    }
}

pub open spec fn signed_of(pairs: Seq<(TransactionSignedView, Address)>) -> Seq<TransactionSignedView> {
    pairs.map_values(|p: (TransactionSignedView, Address)| p.0)
}

pub open spec fn senders_of(pairs: Seq<(TransactionSignedView, Address)>) -> Seq<Address> {
    pairs.map_values(|p: (TransactionSignedView, Address)| p.1)
}

/// The reth block for a stored block: its header, its converted transactions,
/// no ommers, and its withdrawals.
pub open spec fn spec_convert_block(block: crate::block::BlockView) -> RethBlockView {
    RethBlockView {
        header: block.header,
        body: RethBlockBodyView {
            transactions: signed_of(converted_txs(block.transactions)),
            ommers: Seq::empty(),
            withdrawals: block.withdrawals,
        },
    }
}

/// The sealed reth block for a stored block: the converted block, under the hash
/// of its header.
pub open spec fn spec_sealed_block(block: crate::block::BlockView) -> SealedBlockView {
    SealedBlockView { block: spec_convert_block(block), hash: spec_seal_hash(block.header) }
}

/// Converts a stored block to a sealed reth block plus the list of senders of its
/// transactions.
///
/// Transactions that cannot be converted (Deposit, Tempo) are skipped. The block is
/// sealed under the hash of its header.
pub fn convert_block(block: &Block) -> (r: (SealedBlock, Vec<Address>))
    ensures
        r.0@ == spec_sealed_block(block@),
        r.1@ == senders_of(converted_txs(block@.transactions)),
        r.1@.len() == r.0@.block.body.transactions.len(),
{
    let mut reth_txs: Vec<TransactionSigned> = Vec::new();
    let mut senders: Vec<Address> = Vec::new();
    let n = block.transactions.len();
    for i in 0..n
        invariant
            n == block.transactions@.len(),
            signed_txs_view(reth_txs@) == signed_of(converted_txs(block@.transactions.subrange(0, i as int))),
            senders@ == senders_of(converted_txs(block@.transactions.subrange(0, i as int))),
    {
        let ghost prefix = block@.transactions.subrange(0, i as int);
        let ghost next = block@.transactions.subrange(0, i + 1);
        assert(next.drop_last() =~= prefix);
        assert(next.last() == block.transactions@[i as int]@);
        if let Some((reth_tx, sender)) = convert_tx(&block.transactions[i]) {
            let ghost before = reth_txs@;
            let ghost v = reth_tx@;
            reth_txs.push(reth_tx);
            assert(reth_txs@ == before.push(reth_tx));
            assert(signed_txs_view(reth_txs@) =~= signed_txs_view(before).push(v));
            senders.push(sender);
            assert(signed_txs_view(reth_txs@) =~= signed_of(converted_txs(next)));
            assert(senders@ =~= senders_of(converted_txs(next)));
        }
    }
    assert(block@.transactions.subrange(0, n as int) =~= block@.transactions);
    let header: Header = block.header.clone();
    let hash = seal_hash(&block.header);
    let reth_body = RethBlockBody {
        transactions: reth_txs,
        ommers: Vec::new(),
        withdrawals: copy_opt_vec(&block.withdrawals),
    };
    let reth_block = RethBlock { header, body: reth_body };
    assert(reth_block@.body.ommers =~= Seq::<crate::block::HeaderView>::empty());
    (SealedBlock { block: reth_block, hash }, senders)
}

} // verus!
