//! What the conversions and the provider's queries give, stated over the stored
//! values they read.
use vstd::prelude::*;
use crate::backend::{BackendView, StateModel};
use crate::block::{TransactionView, TxKind};
use crate::convert::{converted_txs, signed_of, spec_convert_tx, spec_recover_signer};
use crate::laws::law_converted_txs_all;
use crate::memory::MemoryBackend;
use crate::primitives::{
    address_of_bytes, Address, U256, B256, BlockHashOrNumber, BlockId, BlockNumberOrTag, RpcBlockHash, TxType,
};
use crate::provider::{
    ProviderError, canonical_block, canonical_blocks, canonical_hashes, headers_of, receipts_of,
    reth_blocks_of, sealed_headers_of,
    spec_recovered_at, spec_block_at, spec_block_receipts, spec_history_by_hash,
    spec_history_by_number, spec_latest, spec_receipt, spec_resolve, spec_state_by_tag,
    spec_tx_by_hash, spec_tx_with_meta,
};
use crate::receipt::RethReceiptView;
use crate::reth_api::{ReadError, spec_balance, spec_call_state, spec_nonce};

verus! {

/// A converted transaction keeps every field of the stored one: its hash, chain,
/// nonce, gas limit, fees, recipient, value, payload and signature. Its type is the
/// Ethereum type of the stored kind, and its sender is the impersonated account
/// where there is one, otherwise the address that recovery gives for the signature.
/// It converts exactly when it has an Ethereum type and a sender.
pub proof fn law_convert_tx_keeps_fields(tx: TransactionView)
    ensures
        spec_convert_tx(tx) matches Some(p) ==> {
            &&& p.0.hash == tx.hash
            &&& p.0.chain_id == tx.chain_id
            &&& p.0.nonce == tx.nonce
            &&& p.0.gas_limit == tx.gas_limit
            &&& p.0.max_fee_per_gas == tx.max_fee_per_gas
            &&& p.0.max_priority_fee_per_gas == tx.max_priority_fee_per_gas
            &&& p.0.to == tx.to
            &&& p.0.value == tx.value
            &&& p.0.payload == tx.payload
            &&& p.0.signature == tx.signature
        },
        spec_convert_tx(tx) matches Some(p) ==> match tx.kind {
            TxKind::Legacy => p.0.tx_type == TxType::Legacy,
            TxKind::Eip2930 => p.0.tx_type == TxType::Eip2930,
            TxKind::Eip1559 => p.0.tx_type == TxType::Eip1559,
            TxKind::Eip4844 => p.0.tx_type == TxType::Eip4844,
            TxKind::Eip7702 => p.0.tx_type == TxType::Eip7702,
            TxKind::Deposit => false,
            TxKind::Tempo => false,
        },
        tx.kind == TxKind::Deposit || tx.kind == TxKind::Tempo ==> spec_convert_tx(tx) is None,
        tx.impersonated_sender matches Some(a) ==> match spec_convert_tx(tx) {
            Some(p) => p.1 == a,
            None => tx.kind == TxKind::Deposit || tx.kind == TxKind::Tempo,
        },
        tx.impersonated_sender is None ==> match spec_recover_signer(
            tx.signature.r@,
            tx.signature.s@,
            tx.signature.y_parity,
            tx.signature_hash@,
        ) {
            Some(bytes) => match spec_convert_tx(tx) {
                Some(p) => p.1 == address_of_bytes(bytes),
                None => tx.kind == TxKind::Deposit || tx.kind == TxKind::Tempo,
            },
            None => spec_convert_tx(tx) is None,
        },
{
}

/// Converting the transactions of two lists one after the other gives the
/// converted transactions of the first list followed by those of the second.
pub proof fn law_converted_txs_concat(s: Seq<TransactionView>, t: Seq<TransactionView>)
    ensures
        converted_txs(s + t) == converted_txs(s) + converted_txs(t),
    decreases t.len(),
{
    if t.len() == 0 {
        assert(s + t =~= s);
        assert(converted_txs(s) + converted_txs(t) =~= converted_txs(s));
    } else {
        law_converted_txs_concat(s, t.drop_last());
        assert((s + t).drop_last() =~= s + t.drop_last());
        assert((s + t).last() == t.last());
        let rest = converted_txs(s) + converted_txs(t.drop_last());
        match spec_convert_tx(t.last()) {
            Some(p) => {
                assert(converted_txs(s) + converted_txs(t) =~= rest.push(p));
            },
            None => {},
        }
    }
}

/// A single transaction converts to itself alone, or to nothing.
pub proof fn law_converted_txs_single(tx: TransactionView)
    ensures
        converted_txs(seq![tx]) == match spec_convert_tx(tx) {
            Some(p) => seq![p],
            None => Seq::empty(),
        },
{
    assert(seq![tx].drop_last() =~= Seq::<TransactionView>::empty());
    assert(seq![tx].last() == tx);
    assert(converted_txs(Seq::<TransactionView>::empty()) =~= Seq::empty());
    match spec_convert_tx(tx) {
        Some(p) => {
            assert(Seq::<(crate::block::TransactionSignedView, crate::primitives::Address)>::empty().push(p) =~= seq![p]);
        },
        None => {},
    }
}

/// The reth block read at a hash is the block stored under it: the same header,
/// no ommers, the same withdrawals, at most as many transactions; and where every
/// stored transaction converts, each one converted, in its place. No block is read
/// where none is stored. A block read by number is the block stored under the
/// hash of that number.
pub proof fn law_block_is_stored_block<B: BackendView>(b: B, h: B256, n: u64)
    ensures
        match (spec_block_at(b, BlockHashOrNumber::Hash(h)), b.spec_block(h)) {
            (Some(rb), Some(blk)) => {
                &&& rb.header == blk.header
                &&& rb.body.ommers.len() == 0
                &&& rb.body.withdrawals == blk.withdrawals
                &&& rb.body.transactions.len() <= blk.transactions.len()
                &&& (forall|i: int| 0 <= i < blk.transactions.len()
                    ==> (#[trigger] spec_convert_tx(blk.transactions[i])) is Some) ==> {
                    &&& rb.body.transactions.len() == blk.transactions.len()
                    &&& forall|i: int| 0 <= i < blk.transactions.len()
                        ==> rb.body.transactions[i] == ((#[trigger] spec_convert_tx(blk.transactions[i]))->0).0
                }
            },
            (None, None) => true,
            _ => false,
        },
        spec_block_at(b, BlockHashOrNumber::Number(n)) == match b.spec_number_to_hash(n) {
            Some(hn) => spec_block_at(b, BlockHashOrNumber::Hash(hn)),
            None => None,
        },
{
    match b.spec_block(h) {
        Some(blk) => {
            crate::laws::law_converted_txs_bounded(blk.transactions);
            if forall|i: int| 0 <= i < blk.transactions.len()
                ==> (#[trigger] spec_convert_tx(blk.transactions[i])) is Some {
                law_converted_txs_all(blk.transactions);
            }
        },
        None => {},
    }
}

/// The receipt of a mined transaction is made of the stored receipt: its
/// Ethereum type, success, cumulative gas and logs; none where the stored receipt
/// has no Ethereum type, and none for a hash that is not mined.
pub proof fn law_receipt_is_stored_receipt<B: BackendView>(b: B, h: B256)
    ensures
        match b.spec_mined_tx(h) {
            Some(m) => match m.receipt.tx_type {
                Some(t) => spec_receipt(b, h) == Some(RethReceiptView {
                    tx_type: t,
                    success: m.receipt.success,
                    cumulative_gas_used: m.receipt.cumulative_gas_used,
                    logs: m.receipt.logs,
                }),
                None => spec_receipt(b, h) is None,
            },
            None => spec_receipt(b, h) is None,
        },
{
}

/// The receipts of two lists of hashes one after the other are the receipts of
/// the first list followed by those of the second.
pub proof fn law_receipts_concat<B: BackendView>(b: B, s: Seq<B256>, t: Seq<B256>)
    ensures
        receipts_of(b, s + t) == receipts_of(b, s) + receipts_of(b, t),
    decreases t.len(),
{
    if t.len() == 0 {
        assert(s + t =~= s);
        assert(receipts_of(b, s) + receipts_of(b, t) =~= receipts_of(b, s));
    } else {
        law_receipts_concat(b, s, t.drop_last());
        assert((s + t).drop_last() =~= s + t.drop_last());
        assert((s + t).last() == t.last());
        let rest = receipts_of(b, s) + receipts_of(b, t.drop_last());
        match spec_receipt(b, t.last()) {
            Some(r) => {
                assert(receipts_of(b, s) + receipts_of(b, t) =~= rest.push(r));
            },
            None => {},
        }
    }
}

proof fn lemma_receipts_all<B: BackendView>(b: B, hs: Seq<B256>)
    requires
        forall|i: int| 0 <= i < hs.len() ==> (#[trigger] spec_receipt(b, hs[i])) is Some,
    ensures
        receipts_of(b, hs).len() == hs.len(),
        forall|k: int| 0 <= k < hs.len() ==> receipts_of(b, hs)[k] == (#[trigger] spec_receipt(b, hs[k]))->0,
    decreases hs.len(),
{
    if hs.len() > 0 {
        let init = hs.drop_last();
        assert forall|i: int| 0 <= i < init.len() implies (#[trigger] spec_receipt(b, init[i])) is Some by {
            assert(init[i] == hs[i]);
        }
        lemma_receipts_all(b, init);
        assert(spec_receipt(b, hs[hs.len() - 1]) is Some);
        assert forall|k: int| 0 <= k < hs.len() implies receipts_of(b, hs)[k] == (#[trigger] spec_receipt(b, hs[k]))->0 by {
            if k < hs.len() - 1 {
                assert(init[k] == hs[k]);
            }
        }
    }
}

/// The receipts of a block whose every transaction has a receipt are one per
/// transaction, in the order of the block's transactions: the k-th is the receipt
/// of the block's k-th transaction.
pub proof fn law_block_receipts_in_order<B: BackendView>(b: B, id: BlockHashOrNumber, h: B256)
    requires
        spec_resolve(b, id) == Some(h),
        b.spec_block(h) is Some,
        forall|i: int| 0 <= i < b.spec_block(h)->0.transactions.len()
            ==> (#[trigger] spec_receipt(b, b.spec_block(h)->0.transactions[i].hash)) is Some,
    ensures
        spec_block_receipts(b, id) matches Some(rs) && {
            let txs = b.spec_block(h)->0.transactions;
            &&& rs.len() == txs.len()
            &&& forall|k: int| 0 <= k < txs.len() ==> rs[k] == (#[trigger] spec_receipt(b, txs[k].hash))->0
        },
{
    let txs = b.spec_block(h)->0.transactions;
    let hs = txs.map_values(|t: TransactionView| t.hash);
    assert forall|i: int| 0 <= i < hs.len() implies (#[trigger] spec_receipt(b, hs[i])) is Some by {
        assert(hs[i] == txs[i].hash);
    }
    lemma_receipts_all(b, hs);
    assert forall|k: int| 0 <= k < txs.len() implies receipts_of(b, hs)[k] == (#[trigger] spec_receipt(b, txs[k].hash))->0 by {
        assert(hs[k] == txs[k].hash);
    }
}

/// The state opened at a tag is the state at the block the tag names: the latest
/// state for `latest` and `pending`, the state of block 0 for `earliest`, the state
/// of the canonical block with the number for a number, and the state at the hash
/// that the backend resolves `safe` or `finalized` to (an error naming the tag where
/// it resolves to none). The state at a number is the state at that number's hash.
pub proof fn law_state_at_tag<B: BackendView>(b: B, n: u64)
    ensures
        spec_state_by_tag(b, BlockNumberOrTag::Latest) == spec_latest(b),
        spec_state_by_tag(b, BlockNumberOrTag::Pending) == spec_latest(b),
        spec_state_by_tag(b, BlockNumberOrTag::Earliest) == spec_history_by_number(b, 0),
        spec_state_by_tag(b, BlockNumberOrTag::Number(n)) == spec_history_by_number(b, n),
        spec_history_by_number(b, n) == match b.spec_number_to_hash(n) {
            Some(h) => spec_history_by_hash(b, h),
            None => Err(ProviderError::BlockHashNotFound(B256::spec_zero())),
        },
        spec_state_by_tag(b, BlockNumberOrTag::Safe) == match b.spec_tag_hash(BlockNumberOrTag::Safe) {
            Some(h) => spec_history_by_hash(b, h),
            None => Err(ProviderError::SafeBlockNotFound),
        },
        spec_state_by_tag(b, BlockNumberOrTag::Finalized) == match b.spec_tag_hash(
            BlockNumberOrTag::Finalized,
        ) {
            Some(h) => spec_history_by_hash(b, h),
            None => Err(ProviderError::FinalizedBlockNotFound),
        },
{
}

/// On the in-memory chain, while the chain is no longer than an epoch, the state
/// at `safe` and at `finalized` is the state at the genesis block; later, it is the
/// state at the canonical block one (for `safe`) or two (for `finalized`) epochs
/// behind the best block.
pub proof fn law_memory_safe_state(b: MemoryBackend)
    ensures
        b.best_number <= 32 ==> spec_state_by_tag(b, BlockNumberOrTag::Safe) == spec_history_by_hash(
            b,
            b.genesis_hash,
        ),
        b.best_number <= 64 ==> spec_state_by_tag(b, BlockNumberOrTag::Finalized)
            == spec_history_by_hash(b, b.genesis_hash),
        b.best_number > 32 ==> spec_state_by_tag(b, BlockNumberOrTag::Safe) == match b.spec_number_to_hash(
            (b.best_number - 32) as u64,
        ) {
            Some(h) => spec_history_by_hash(b, h),
            None => Err(ProviderError::SafeBlockNotFound),
        },
{
}

/// A mined transaction found with its position is the stored transaction at that
/// position of its block, converted: its position is the mined record's index, its
/// block hash and number are the mined record's, and the base fee, excess blob gas
/// and timestamp are those of the block's header. It is found with its position
/// exactly when it is found alone.
pub proof fn law_tx_meta_is_position<B: BackendView>(b: B, h: B256)
    ensures
        spec_tx_with_meta(b, h) matches Some((t, m)) ==> {
            let mt = b.spec_mined_tx(h)->0;
            let blk = b.spec_block(mt.block_hash)->0;
            &&& b.spec_mined_tx(h) is Some
            &&& b.spec_block(mt.block_hash) is Some
            &&& m.tx_hash == h
            &&& m.index == mt.info.transaction_index
            &&& m.block_hash == mt.block_hash
            &&& m.block_number == mt.block_number
            &&& m.base_fee == blk.header.base_fee_per_gas
            &&& m.excess_blob_gas == blk.header.excess_blob_gas
            &&& m.timestamp == blk.header.timestamp
            &&& (m.index as usize) < blk.transactions.len()
            &&& spec_convert_tx(blk.transactions[(m.index as usize) as int]) matches Some(p) && p.0 == t
        },
        spec_tx_with_meta(b, h) is Some <==> spec_tx_by_hash(b, h) is Some,
        spec_tx_with_meta(b, h) matches Some((t, _)) ==> spec_tx_by_hash(b, h) == Some(t),
{
}

/// A provider result as a read-side error.
pub open spec fn as_read(r: Result<StateModel, ProviderError>) -> Result<StateModel, ReadError> {
    match r {
        Ok(s) => Ok(s),
        Err(e) => Err(ReadError::Provider(e)),
    }
}

/// A read-side call at a block id reads the state at the block the id names: at a
/// hash, the state at that hash; at `earliest`, the state of block 0; at a number of
/// a canonical block, the state the provider opens at that number; at `latest`, the
/// state read with no block. An id that names no block is answered `BlockNotFound`.
pub proof fn law_call_state_at_id<B: BackendView>(b: B, rpc: RpcBlockHash, n: u64)
    ensures
        spec_call_state(b, Some(BlockId::Hash(rpc))) == as_read(spec_history_by_hash(b, rpc.block_hash)),
        spec_call_state(b, Some(BlockId::Number(BlockNumberOrTag::Earliest))) == match b.spec_number_to_hash(0) {
            Some(h) => as_read(spec_history_by_hash(b, h)),
            None => Err(ReadError::BlockNotFound),
        },
        b.spec_number_to_hash(0) is Some ==> spec_call_state(b, Some(BlockId::Number(BlockNumberOrTag::Earliest)))
            == as_read(spec_state_by_tag(b, BlockNumberOrTag::Earliest)),
        b.spec_number_to_hash(n) is Some ==> spec_call_state(b, Some(BlockId::Number(BlockNumberOrTag::Number(n))))
            == as_read(spec_state_by_tag(b, BlockNumberOrTag::Number(n))),
        b.spec_number_to_hash(n) is None ==> spec_call_state(b, Some(BlockId::Number(BlockNumberOrTag::Number(n))))
            == Err::<StateModel, _>(ReadError::BlockNotFound),
        spec_call_state(b, Some(BlockId::Number(BlockNumberOrTag::Latest))) == spec_call_state(b, None),
        spec_call_state(b, None) == as_read(spec_latest(b)),
        spec_call_state(b, Some(BlockId::Number(BlockNumberOrTag::Pending))) == Err::<StateModel, _>(
            ReadError::BlockNotFound,
        ),
{
}

/// A recovered block carries, for a block whose every transaction converts, one
/// sender per stored transaction in order: the sender that converting that
/// transaction gives.
pub proof fn law_recovered_senders_in_order<B: BackendView>(b: B, id: BlockHashOrNumber, h: B256)
    requires
        spec_resolve(b, id) == Some(h),
        b.spec_block(h) is Some,
        forall|i: int| 0 <= i < b.spec_block(h)->0.transactions.len()
            ==> (#[trigger] spec_convert_tx(b.spec_block(h)->0.transactions[i])) is Some,
    ensures
        spec_recovered_at(b, id) matches Some(rb) && {
            let txs = b.spec_block(h)->0.transactions;
            &&& rb.senders.len() == txs.len()
            &&& forall|k: int| 0 <= k < txs.len() ==> rb.senders[k] == ((#[trigger] spec_convert_tx(txs[k]))->0).1
            &&& rb.block.block.body.transactions.len() == txs.len()
            &&& forall|k: int| 0 <= k < txs.len() ==> rb.block.block.body.transactions[k] == (spec_convert_tx(txs[k])->0).0
        },
{
    law_converted_txs_all(b.spec_block(h)->0.transactions);
}

/// A transaction found by hash is the stored transaction at the mined record's
/// index in the mined record's block, converted; it is found exactly when that
/// block is stored, the index lies in it, and the transaction there converts.
pub proof fn law_tx_by_hash_is_position<B: BackendView>(b: B, h: B256)
    ensures
        spec_tx_by_hash(b, h) == match b.spec_mined_tx(h) {
            Some(mt) => match b.spec_block(mt.block_hash) {
                Some(blk) => if ((mt.info.transaction_index as usize) as int) < blk.transactions.len() {
                    match spec_convert_tx(blk.transactions[(mt.info.transaction_index as usize) as int]) {
                        Some(p) => Some(p.0),
                        None => None,
                    }
                } else {
                    None
                },
                None => None,
            },
            None => None,
        },
{
}

/// Canonical hashes over two adjoining number ranges are those of the first range
/// followed by those of the second; over one number, the canonical hash of that
/// number, if any. The same holds of canonical blocks.
pub proof fn law_canonical_ranges_concat<B: BackendView>(b: B, start: int, mid: int, end: int)
    requires
        start <= mid <= end,
    ensures
        canonical_hashes(b, start, end) == canonical_hashes(b, start, mid) + canonical_hashes(b, mid, end),
        canonical_blocks(b, start, end) == canonical_blocks(b, start, mid) + canonical_blocks(b, mid, end),
    decreases end - mid,
{
    if mid == end {
        assert(canonical_hashes(b, start, mid) + canonical_hashes(b, mid, end) =~= canonical_hashes(b, start, mid));
        assert(canonical_blocks(b, start, mid) + canonical_blocks(b, mid, end) =~= canonical_blocks(b, start, mid));
    } else {
        law_canonical_ranges_concat(b, start, mid, end - 1);
        match b.spec_number_to_hash((end - 1) as u64) {
            Some(x) => {
                assert(canonical_hashes(b, start, mid) + canonical_hashes(b, mid, end) =~= (
                    canonical_hashes(b, start, mid) + canonical_hashes(b, mid, end - 1)).push(x));
            },
            None => {},
        }
        match canonical_block(b, (end - 1) as u64) {
            Some(x) => {
                assert(canonical_blocks(b, start, mid) + canonical_blocks(b, mid, end) =~= (
                    canonical_blocks(b, start, mid) + canonical_blocks(b, mid, end - 1)).push(x));
            },
            None => {},
        }
    }
}

/// Over the one number `n`, the canonical hashes are that number's hash, and the
/// canonical blocks that number's stored block with its hash.
pub proof fn law_canonical_single<B: BackendView>(b: B, n: u64)
    ensures
        canonical_hashes(b, n as int, n + 1) == match b.spec_number_to_hash(n) {
            Some(h) => seq![h],
            None => Seq::empty(),
        },
        canonical_blocks(b, n as int, n + 1) == match b.spec_number_to_hash(n) {
            Some(h) => match b.spec_block(h) {
                Some(blk) => seq![(h, blk)],
                None => Seq::empty(),
            },
            None => Seq::empty(),
        },
{
    assert(canonical_hashes(b, n as int, n as int) =~= Seq::empty());
    assert(canonical_blocks(b, n as int, n as int) =~= Seq::empty());
    assert(((n + 1) - 1) as u64 == n);
    match b.spec_number_to_hash(n) {
        Some(h) => {
            assert(Seq::<B256>::empty().push(h) =~= seq![h]);
            match b.spec_block(h) {
                Some(blk) => {
                    assert(Seq::<(B256, crate::block::BlockView)>::empty().push((h, blk)) =~= seq![(h, blk)]);
                },
                None => {},
            }
        },
        None => {},
    }
}

/// A call at `safe` or `finalized` reads the state at the hash the backend resolves
/// the tag to, and is answered `BlockNotFound` where it resolves to none.
pub proof fn law_call_state_at_safe_and_finalized<B: BackendView>(b: B)
    ensures
        spec_call_state(b, Some(BlockId::Number(BlockNumberOrTag::Safe))) == match b.spec_tag_hash(
            BlockNumberOrTag::Safe,
        ) {
            Some(h) => as_read(spec_history_by_hash(b, h)),
            None => Err(ReadError::BlockNotFound),
        },
        spec_call_state(b, Some(BlockId::Number(BlockNumberOrTag::Finalized))) == match b.spec_tag_hash(
            BlockNumberOrTag::Finalized,
        ) {
            Some(h) => as_read(spec_history_by_hash(b, h)),
            None => Err(ReadError::BlockNotFound),
        },
{
}

/// The balance read in a state is the account's balance there, zero for an account
/// that does not exist; the transaction count is the account's nonce, zero likewise.
/// Both fail exactly where the state or the account read fails, with the same error.
pub proof fn law_balance_and_nonce(st: Result<StateModel, ReadError>, a: Address)
    ensures
        match st {
            Ok(s) => match (s.basic)(a) {
                Ok(Some(info)) => spec_balance(st, a) == Ok::<U256, ReadError>(info.balance)
                    && spec_nonce(st, a) == Ok::<U256, ReadError>(U256 { hi: 0, lo: info.nonce as u128 }),
                Ok(None) => spec_balance(st, a) == Ok::<U256, ReadError>(U256 { hi: 0, lo: 0 })
                    && spec_nonce(st, a) == Ok::<U256, ReadError>(U256 { hi: 0, lo: 0 }),
                Err(d) => spec_balance(st, a) == Err::<U256, ReadError>(ReadError::Provider(ProviderError::Database(d)))
                    && spec_nonce(st, a) == Err::<U256, ReadError>(ReadError::Provider(ProviderError::Database(d))),
            },
            Err(e) => spec_balance(st, a) == Err::<U256, ReadError>(e) && spec_nonce(st, a) == Err::<U256, ReadError>(e),
        },
{
}

/// The headers, sealed headers and reth blocks of a list of canonical blocks are
/// those of the first part followed by those of the second; of one block, its
/// header, its header sealed under its hash, and its converted form.
pub proof fn law_range_views(s: Seq<(B256, crate::block::BlockView)>, t: Seq<(B256, crate::block::BlockView)>, h: B256, blk: crate::block::BlockView)
    ensures
        headers_of(s + t) == headers_of(s) + headers_of(t),
        sealed_headers_of(s + t) == sealed_headers_of(s) + sealed_headers_of(t),
        reth_blocks_of(s + t) == reth_blocks_of(s) + reth_blocks_of(t),
        headers_of(seq![(h, blk)]) == seq![blk.header],
        sealed_headers_of(seq![(h, blk)]) == seq![crate::block::SealedHeaderView { header: blk.header, hash: h }],
        reth_blocks_of(seq![(h, blk)]) == seq![crate::convert::spec_convert_block(blk)],
{
    assert(headers_of(s + t) =~= headers_of(s) + headers_of(t));
    assert(sealed_headers_of(s + t) =~= sealed_headers_of(s) + sealed_headers_of(t));
    assert(reth_blocks_of(s + t) =~= reth_blocks_of(s) + reth_blocks_of(t));
    assert(headers_of(seq![(h, blk)]) =~= seq![blk.header]);
    assert(sealed_headers_of(seq![(h, blk)]) =~= seq![crate::block::SealedHeaderView { header: blk.header, hash: h }]);
    assert(reth_blocks_of(seq![(h, blk)]) =~= seq![crate::convert::spec_convert_block(blk)]);
}

} // verus!
