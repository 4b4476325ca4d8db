//! Properties that hold across the bridge's queries and the in-memory chain.
use vstd::prelude::*;
use crate::backend::{BackendView, MinedTxModel, StateModel, StateRef};
use crate::block::{BlockView, SealedHeader, SealedHeaderView, TransactionView};
use crate::convert::{
    converted_txs, senders_of, signed_of, spec_convert_block, spec_convert_receipt,
    spec_convert_tx,
};
use crate::memory::{
    MemoryBackend, MemoryState, NumberHash, TxEntry, find_block, find_number, find_tx,
    spec_insert_block,
};
use crate::primitives::{
    B256, BlockHashOrNumber, BlockId, BlockNumberOrTag, RpcBlockHash,
};
use crate::provider::{
    canonical_blocks, canonical_hashes, reth_blocks_of, spec_block_at, spec_block_txs, spec_header,
    spec_history_by_hash, spec_latest, spec_receipt, spec_recovered_at, spec_resolve,
    spec_tx_by_hash, taken_while, ProviderError,
};
use crate::reth_api::{ReadError, spec_call_state};

verus! {

/// Converting a block keeps no more transactions than it has, and as many senders
/// as converted transactions.
pub proof fn law_converted_txs_bounded(txs: Seq<TransactionView>)
    ensures
        converted_txs(txs).len() <= txs.len(),
        signed_of(converted_txs(txs)).len() == senders_of(converted_txs(txs)).len(),
    decreases txs.len(),
{
    if txs.len() > 0 {
        law_converted_txs_bounded(txs.drop_last());
    }
}

/// A block whose transactions all convert keeps every one of them, in order,
/// each with its recovered sender.
pub proof fn law_converted_txs_all(txs: Seq<TransactionView>)
    requires
        forall|i: int| 0 <= i < txs.len() ==> (#[trigger] spec_convert_tx(txs[i])) is Some,
    ensures
        converted_txs(txs).len() == txs.len(),
        forall|i: int| 0 <= i < txs.len() ==> converted_txs(txs)[i] == spec_convert_tx(txs[i])->0,
    decreases txs.len(),
{
    if txs.len() > 0 {
        let init = txs.drop_last();
        assert forall|i: int| 0 <= i < init.len() implies (#[trigger] spec_convert_tx(init[i])) is Some by {
            assert(init[i] == txs[i]);
        }
        law_converted_txs_all(init);
        assert(spec_convert_tx(txs[txs.len() - 1]) is Some);
        assert forall|i: int| 0 <= i < txs.len() implies converted_txs(txs)[i] == spec_convert_tx(
            txs[i],
        )->0 by {
            if i < txs.len() - 1 {
                assert(init[i] == txs[i]);
            }
        }
    }
}

/// A block named by number is the block named by that number as a tag, for the
/// block, for its header, and for its sealed header.
pub proof fn law_number_is_number_tag<B: BackendView>(b: B, n: u64)
    ensures
        b.spec_tag_hash(BlockNumberOrTag::Number(n)) == spec_resolve(b, BlockHashOrNumber::Number(n)),
        spec_block_at(b, BlockHashOrNumber::Number(n)) == match b.spec_tag_hash(
            BlockNumberOrTag::Number(n),
        ) {
            Some(h) => spec_block_at(b, BlockHashOrNumber::Hash(h)),
            None => None,
        },
        (match b.spec_number_to_hash(n) {
            Some(h) => spec_header(b, h),
            None => None,
        }) == match b.spec_tag_hash(BlockNumberOrTag::Number(n)) {
            Some(h) => spec_header(b, h),
            None => None,
        },
{
    b.lemma_number_tag(n);
}

/// A recovered block is the block itself, sealed under the hash of its header,
/// with one sender per converted transaction.
pub proof fn law_recovered_block_is_block<B: BackendView>(b: B, id: BlockHashOrNumber)
    ensures
        match spec_recovered_at(b, id) {
            Some(rb) => {
                &&& spec_block_at(b, id) == Some(rb.block.block)
                &&& rb.block.hash == crate::block::spec_seal_hash(rb.block.block.header)
                &&& rb.senders.len() == rb.block.block.body.transactions.len()
            },
            None => spec_block_at(b, id) is None,
        },
{
    match spec_resolve(b, id) {
        Some(h) => match b.spec_block(h) {
            Some(blk) => {
                law_converted_txs_bounded(blk.transactions);
            },
            None => {},
        },
        None => {},
    }
}

/// The transactions of a block are those of the block's body.
pub proof fn law_block_txs_are_body<B: BackendView>(b: B, id: BlockHashOrNumber)
    ensures
        spec_block_txs(b, id) == match spec_block_at(b, id) {
            Some(blk) => Some(blk.body.transactions),
            None => None,
        },
{
}

/// A range of canonical blocks or hashes holds at most one entry per number.
pub proof fn law_canonical_ranges_bounded<B: BackendView>(b: B, start: int, end: int)
    ensures
        canonical_blocks(b, start, end).len() <= if end > start {
            end - start
        } else {
            0
        },
        canonical_hashes(b, start, end).len() <= if end > start {
            end - start
        } else {
            0
        },
        canonical_blocks(b, start, end).len() <= canonical_hashes(b, start, end).len(),
    decreases end - start,
{
    if end > start {
        law_canonical_ranges_bounded(b, start, end - 1);
    }
}

/// The blocks of a one-number range are the block read by that number, if any.
pub proof fn law_block_range_single<B: BackendView>(b: B, n: u64)
    ensures
        reth_blocks_of(canonical_blocks(b, n as int, n + 1)) == match spec_block_at(
            b,
            BlockHashOrNumber::Number(n),
        ) {
            Some(x) => seq![x],
            None => Seq::<crate::block::RethBlockView>::empty(),
        },
{
    assert(canonical_blocks(b, n as int, n as int) =~= Seq::<(B256, BlockView)>::empty());
    assert(reth_blocks_of(canonical_blocks(b, n as int, n + 1)) =~= match spec_block_at(
        b,
        BlockHashOrNumber::Number(n),
    ) {
        Some(x) => seq![x],
        None => Seq::<crate::block::RethBlockView>::empty(),
    });
}

/// Reading at the latest tag reads the latest state, as reading at no block does.
pub proof fn law_latest_tag_is_latest<B: BackendView>(b: B)
    ensures
        spec_call_state(b, Some(BlockId::Number(BlockNumberOrTag::Latest))) == spec_call_state(
            b,
            None,
        ),
        spec_history_by_hash(b, b.spec_best_hash()) == spec_latest(b),
{
}

/// The state read at a block hash is the latest state for the best block; for any
/// other block it is the state kept for that block, and where none is kept the
/// read fails with `StateForHashNotFound` carrying the requested hash.
pub proof fn law_history_by_hash<B: BackendView>(b: B, hash: B256)
    ensures
        hash == b.spec_best_hash() ==> spec_history_by_hash(b, hash) == spec_latest(b),
        hash != b.spec_best_hash() ==> spec_history_by_hash(b, hash) == match b.spec_stored_state(hash) {
            Some(st) => Ok::<_, ProviderError>(st),
            None => Err(ProviderError::StateForHashNotFound(hash)),
        },
{
}

/// While a writer holds the state lock, the latest state reads as busy, and a
/// read at no block or at the latest tag fails with that error.
pub proof fn law_busy_lock<B: BackendView>(b: B)
    requires
        b.spec_current_state() is None,
    ensures
        spec_latest(b) == Err::<StateModel, _>(ProviderError::DbReadLockBusy),
        spec_call_state(b, None) == Err::<StateModel, _>(ReadError::Provider(ProviderError::DbReadLockBusy)),
{
}

/// Reading a block by its hash as an RPC id reads the block stored under that hash.
pub proof fn law_hash_id_reads_block<B: BackendView>(b: B, h: B256, canonical: Option<bool>)
    ensures
        crate::provider::spec_hash_for_id(
            b,
            BlockId::Hash(RpcBlockHash { block_hash: h, require_canonical: canonical }),
        ) == Some(h),
        spec_block_at(b, BlockHashOrNumber::Hash(h)) == match b.spec_block(h) {
            Some(blk) => Some(crate::convert::spec_convert_block(blk)),
            None => None,
        },
{
}

/// Taking headers while a predicate holds yields a prefix of them, and all of
/// them when the predicate refuses none.
pub proof fn law_taken_while_prefix<F: Fn(&SealedHeader) -> bool>(
    predicate: F,
    all: Seq<SealedHeaderView>,
    taken: Seq<SealedHeader>,
)
    requires
        taken_while(predicate, all, taken),
    ensures
        all.subrange(0, taken.len() as int) == taken.map_values(|s: SealedHeader| s@),
        (forall|h: SealedHeader| !call_ensures(predicate, (&h,), false)) ==> taken.map_values(
            |s: SealedHeader| s@,
        ) == all,
{
    assert(all.subrange(0, taken.len() as int) =~= taken.map_values(|s: SealedHeader| s@));
    if forall|h: SealedHeader| !call_ensures(predicate, (&h,), false) {
        if taken.len() < all.len() {
            let h = choose|h: SealedHeader|
                h@ == all[taken.len() as int] && call_ensures(predicate, (&h,), false);
            assert(call_ensures(predicate, (&h,), false));
        }
        assert(taken.map_values(|s: SealedHeader| s@) =~= all);
    }
}

// ---------------------------------------------------------------------------
// The in-memory chain.
// ---------------------------------------------------------------------------

proof fn lemma_find_number_push(s: Seq<NumberHash>, e: NumberHash, n: u64)
    ensures
        find_number(s.push(e), n) == if e.number == n {
            Some(e.hash)
        } else {
            find_number(s, n)
        },
{
    assert(s.push(e).drop_last() =~= s);
}

proof fn lemma_find_tx_append(s: Seq<TxEntry>, t: Seq<TxEntry>, h: B256)
    ensures
        find_tx(s + t, h) == match find_tx(t, h) {
            Some(m) => Some(m),
            None => find_tx(s, h),
        },
    decreases t.len(),
{
    if t.len() == 0 {
        assert(s + t =~= s);
    } else {
        assert((s + t).drop_last() =~= s + t.drop_last());
        lemma_find_tx_append(s, t.drop_last(), h);
    }
}

/// After a block is mined into the in-memory chain, reads give back what was
/// written: the block under its hash, its hash for its number, the best block,
/// the mined transactions, the new latest state, and the former latest state
/// for the former best block; everything else reads as before.
pub proof fn law_insert_block_reads_back(
    old: MemoryBackend,
    new: MemoryBackend,
    hash: B256,
    block: BlockView,
    txs: Seq<TxEntry>,
    state: MemoryState,
)
    requires
        spec_insert_block(old, new, hash, block, txs, state),
    ensures
        new.spec_best_hash() == hash,
        new.spec_best_number() == block.header.number,
        new.spec_block(hash) == Some(block),
        forall|h: B256| h != hash ==> new.spec_block(h) == old.spec_block(h),
        new.spec_number_to_hash(block.header.number) == Some(hash),
        forall|n: u64| n != block.header.number ==> new.spec_number_to_hash(n)
            == old.spec_number_to_hash(n),
        forall|t: B256| new.spec_mined_tx(t) == match find_tx(txs, t) {
            Some(m) => Some(m),
            None => old.spec_mined_tx(t),
        },
        new.spec_current_state() == if old.state_locked {
            None
        } else {
            Some(state.state_model())
        },
        new.spec_stored_state(old.best_hash) == Some(old.latest.state_model()),
        forall|h: B256| h != old.best_hash ==> new.spec_stored_state(h) == old.spec_stored_state(h),
        spec_block_at(new, BlockHashOrNumber::Hash(hash)) == Some(spec_convert_block(block)),
        spec_block_at(new, BlockHashOrNumber::Number(block.header.number)) == Some(
            spec_convert_block(block),
        ),
{
    assert(new.blocks@.drop_last() == old.blocks@);
    assert forall|n: u64| true implies new.spec_number_to_hash(n) == if n == block.header.number {
        Some(hash)
    } else {
        old.spec_number_to_hash(n)
    } by {
        lemma_find_number_push(old.hashes@, NumberHash { number: block.header.number, hash }, n);
    }
    assert forall|t: B256| true implies new.spec_mined_tx(t) == match find_tx(txs, t) {
        Some(m) => Some(m),
        None => old.spec_mined_tx(t),
    } by {
        lemma_find_tx_append(old.transactions@, txs, t);
    }
}

/// A transaction mined in a block is found by its hash, converted as the stored
/// transaction at its index converts, and its receipt is the converted receipt
/// that was mined with it.
pub proof fn law_mined_transaction_found(
    old: MemoryBackend,
    new: MemoryBackend,
    hash: B256,
    block: BlockView,
    txs: Seq<TxEntry>,
    state: MemoryState,
    tx_hash: B256,
    mined: MinedTxModel,
)
    requires
        spec_insert_block(old, new, hash, block, txs, state),
        find_tx(txs, tx_hash) == Some(mined),
        mined.block_hash == hash,
        (mined.info.transaction_index as usize) < block.transactions.len(),
    ensures
        spec_tx_by_hash(new, tx_hash) == match spec_convert_tx(
            block.transactions[(mined.info.transaction_index as usize) as int],
        ) {
            Some(p) => Some(p.0),
            None => None,
        },
        spec_receipt(new, tx_hash) == spec_convert_receipt(mined.receipt),
{
    law_insert_block_reads_back(old, new, hash, block, txs, state);
}

/// A chain made of a genesis block holds exactly that block: under its hash, and
/// as the canonical block for its number and no other; it is the best block.
pub proof fn law_fresh_chain(b: MemoryBackend, genesis_hash: B256, genesis: BlockView)
    requires
        b.best_hash == genesis_hash,
        b.best_number == genesis.header.number,
        b.genesis_hash == genesis_hash,
        b.hashes@ == seq![NumberHash { number: genesis.header.number, hash: genesis_hash }],
        b.blocks@.len() == 1,
        b.blocks@[0].hash == genesis_hash,
        b.blocks@[0].block@ == genesis,
    ensures
        b.spec_best_number() == genesis.header.number,
        b.spec_number_to_hash(genesis.header.number) == Some(genesis_hash),
        spec_header(b, genesis_hash) == Some(genesis.header),
        forall|n: u64| n != genesis.header.number ==> b.spec_number_to_hash(n) is None,
        forall|h: B256| h != genesis_hash ==> b.spec_block(h) is None,
{
    assert(b.hashes@.drop_last() =~= Seq::<NumberHash>::empty());
    assert(b.blocks@.drop_last() =~= Seq::<crate::memory::BlockEntry>::empty());
    assert(b.blocks@.last() == b.blocks@[0]);
    assert forall|n: u64| n != genesis.header.number implies b.spec_number_to_hash(n) is None by {
        assert(find_number(b.hashes@.drop_last(), n) is None);
    }
    assert forall|h: B256| h != genesis_hash implies b.spec_block(h) is None by {
        assert(find_block(b.blocks@.drop_last(), h) is None);
    }
}

} // verus!
