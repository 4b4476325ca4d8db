//! An in-memory chain: blocks, canonical hashes, mined transactions and state
//! snapshots, read through [`BackendView`] and [`StateRef`].
//!
//! Every table is a list of entries; a read finds the entry for a key that was
//! added last, so adding an entry replaces what was there for its key.
use vstd::prelude::*;
use crate::backend::{
    AccountInfo, BackendView, Bytecode, DatabaseError, MinedTx, MinedTxModel,
    StateModel, StateRef,
    mined_model, opt_block_view,
};
use crate::block::{Block, BlockView, copy_vec};
use crate::primitives::{Address, B256, BlockId, BlockNumberOrTag, U256};
use crate::receipt::ReceiptEnvelope;

verus! {

/// The hash recorded for a block number.
#[derive(Clone, Copy, Debug, PartialEq, Eq, Structural)]
pub struct NumberHash {
    pub number: u64,
    pub hash: B256,
}

#[derive(Clone, Copy, Debug, PartialEq, Eq, Structural)]
pub struct AccountEntry {
    pub address: Address,
    pub info: AccountInfo,
}

#[derive(Clone, Copy, Debug, PartialEq, Eq, Structural)]
pub struct StorageEntry {
    pub address: Address,
    pub slot: U256,
    pub value: U256,
}

pub struct CodeEntry {
    pub hash: B256,
    pub code: Vec<u8>,
}

/// A state snapshot held in memory.
///
/// An account without an entry does not exist, a slot without an entry holds zero,
/// a code hash without an entry names empty code, and a block number without an
/// entry has the zero hash. No read fails.
pub struct MemoryState {
    pub accounts: Vec<AccountEntry>,
    pub storage: Vec<StorageEntry>,
    pub code: Vec<CodeEntry>,
    pub block_hashes: Vec<NumberHash>,
}

pub open spec fn find_number(s: Seq<NumberHash>, number: u64) -> Option<B256>
    decreases s.len(),
{
    if s.len() == 0 {
        None
    } else if s.last().number == number {
        Some(s.last().hash)
    } else {
        find_number(s.drop_last(), number)
    }
}

pub open spec fn find_account(s: Seq<AccountEntry>, address: Address) -> Option<AccountInfo>
    decreases s.len(),
{
    if s.len() == 0 {
        None
    } else if s.last().address == address {
        Some(s.last().info)
    } else {
        find_account(s.drop_last(), address)
    }
}

pub open spec fn find_slot(s: Seq<StorageEntry>, address: Address, slot: U256) -> Option<U256>
    decreases s.len(),
{
    if s.len() == 0 {
        None
    } else if s.last().address == address && s.last().slot == slot {
        Some(s.last().value)
    } else {
        find_slot(s.drop_last(), address, slot)
    }
}

pub open spec fn find_code(s: Seq<CodeEntry>, hash: B256) -> Option<Seq<u8>>
    decreases s.len(),
{
    if s.len() == 0 {
        None
    } else if s.last().hash == hash {
        Some(s.last().code@)
    } else {
        find_code(s.drop_last(), hash)
    }
}

fn lookup_number(v: &Vec<NumberHash>, number: u64) -> (r: Option<B256>)
    ensures
        r == find_number(v@, number),
{
    let mut i = v.len();
    assert(v@.subrange(0, i as int) =~= v@);
    while i > 0
        invariant
            i <= v@.len(),
            find_number(v@, number) == find_number(v@.subrange(0, i as int), number),
        decreases i,
    {
        assert(v@.subrange(0, i as int).drop_last() =~= v@.subrange(0, i - 1));
        if v[i - 1].number == number {
            return Some(v[i - 1].hash);
        }
        i = i - 1;
    }
    None
}

fn lookup_account(v: &Vec<AccountEntry>, address: Address) -> (r: Option<AccountInfo>)
    ensures
        r == find_account(v@, address),
{
    let mut i = v.len();
    assert(v@.subrange(0, i as int) =~= v@);
    while i > 0
        invariant
            i <= v@.len(),
            find_account(v@, address) == find_account(v@.subrange(0, i as int), address),
        decreases i,
    {
        assert(v@.subrange(0, i as int).drop_last() =~= v@.subrange(0, i - 1));
        if v[i - 1].address == address {
            return Some(v[i - 1].info);
        }
        i = i - 1;
    }
    None
}

fn lookup_slot(v: &Vec<StorageEntry>, address: Address, slot: U256) -> (r: Option<U256>)
    ensures
        r == find_slot(v@, address, slot),
{
    let mut i = v.len();
    assert(v@.subrange(0, i as int) =~= v@);
    while i > 0
        invariant
            i <= v@.len(),
            find_slot(v@, address, slot) == find_slot(v@.subrange(0, i as int), address, slot),
        decreases i,
    {
        assert(v@.subrange(0, i as int).drop_last() =~= v@.subrange(0, i - 1));
        if v[i - 1].address == address && v[i - 1].slot == slot {
            return Some(v[i - 1].value);
        }
        i = i - 1;
    }
    None
}

fn lookup_code(v: &Vec<CodeEntry>, hash: B256) -> (r: Option<Vec<u8>>)
    ensures
        match r {
            Some(c) => find_code(v@, hash) == Some(c@),
            None => find_code(v@, hash) is None,
        },
{
    let mut i = v.len();
    assert(v@.subrange(0, i as int) =~= v@);
    while i > 0
        invariant
            i <= v@.len(),
            find_code(v@, hash) == find_code(v@.subrange(0, i as int), hash),
        decreases i,
    {
        assert(v@.subrange(0, i as int).drop_last() =~= v@.subrange(0, i - 1));
        if v[i - 1].hash == hash {
            return Some(copy_vec(&v[i - 1].code));
        }
        i = i - 1;
    }
    None
}

impl MemoryState {
    /// A state with no accounts, storage, code or block hashes.
    pub fn new() -> (r: MemoryState)
        ensures
            r.accounts@.len() == 0,
            r.storage@.len() == 0,
            r.code@.len() == 0,
            r.block_hashes@.len() == 0,
    {
        MemoryState {
            accounts: Vec::new(),
            storage: Vec::new(),
            code: Vec::new(),
            block_hashes: Vec::new(),
        }
    }

    /// A standalone copy of the snapshot, which reads as the snapshot itself does.
    pub fn snapshot(&self) -> (r: MemoryState)
        ensures
            r.state_model() == self.state_model(),
    {
        let mut code: Vec<CodeEntry> = Vec::new();
        let n = self.code.len();
        for i in 0..n
            invariant
                n == self.code@.len(),
                code@.len() == i,
                forall|j: int|
                    0 <= j < i ==> (#[trigger] code@[j]).hash == self.code@[j].hash
                        && code@[j].code@ == self.code@[j].code@,
        {
            code.push(CodeEntry { hash: self.code[i].hash, code: copy_vec(&self.code[i].code) });
        }
        let r = MemoryState {
            accounts: copy_vec(&self.accounts),
            storage: copy_vec(&self.storage),
            code,
            block_hashes: copy_vec(&self.block_hashes),
        };
        assert forall|h: B256| find_code(r.code@, h) == find_code(self.code@, h) by {
            lemma_find_code_same(r.code@, self.code@, h);
        }
        assert(r.state_model().code =~= self.state_model().code);
        r
    }
}

proof fn lemma_find_code_same(a: Seq<CodeEntry>, b: Seq<CodeEntry>, h: B256)
    requires
        a.len() == b.len(),
        forall|j: int| 0 <= j < a.len() ==> (#[trigger] a[j]).hash == b[j].hash && a[j].code@ == b[j].code@,
    ensures
        find_code(a, h) == find_code(b, h),
    decreases a.len(),
{
    if a.len() > 0 {
        lemma_find_code_same(a.drop_last(), b.drop_last(), h);
    }
}

impl StateRef for MemoryState {
    open spec fn state_model(&self) -> StateModel {
        StateModel {
            basic: |a: Address| Ok(find_account(self.accounts@, a)),
            code: |h: B256|
                match find_code(self.code@, h) {
                    Some(c) => Ok(c),
                    None => Ok(Seq::empty()),
                },
            storage: |a: Address, slot: U256|
                match find_slot(self.storage@, a, slot) {
                    Some(v) => Ok(v),
                    None => Ok(U256::spec_zero()),
                },
            block_hash: |n: u64|
                match find_number(self.block_hashes@, n) {
                    Some(h) => Ok(h),
                    None => Ok(B256::spec_zero()),
                },
        }
    }

    fn basic_ref(&self, address: Address) -> (r: Result<Option<AccountInfo>, DatabaseError>) {
        Ok(lookup_account(&self.accounts, address))
    }

    fn code_by_hash_ref(&self, code_hash: B256) -> (r: Result<Bytecode, DatabaseError>) {
        match lookup_code(&self.code, code_hash) {
            Some(c) => Ok(Bytecode { bytes: c }),
            None => Ok(Bytecode { bytes: Vec::new() }),
        }
    }

    fn storage_ref(&self, address: Address, index: U256) -> (r: Result<U256, DatabaseError>) {
        match lookup_slot(&self.storage, address, index) {
            Some(v) => Ok(v),
            None => Ok(U256::zero()),
        }
    }

    fn block_hash_ref(&self, number: u64) -> (r: Result<B256, DatabaseError>) {
        match lookup_number(&self.block_hashes, number) {
            Some(h) => Ok(h),
            None => Ok(B256::zero()),
        }
    }
}


/// A block stored under its hash.
pub struct BlockEntry {
    pub hash: B256,
    pub block: Block,
}

/// A mined transaction stored under its hash.
pub struct TxEntry {
    pub hash: B256,
    pub mined: MinedTx<ReceiptEnvelope>,
}

/// The state kept for the block with the given hash.
pub struct StateEntry {
    pub hash: B256,
    pub state: MemoryState,
}

pub open spec fn find_block(s: Seq<BlockEntry>, hash: B256) -> Option<BlockView>
    decreases s.len(),
{
    if s.len() == 0 {
        None
    } else if s.last().hash == hash {
        Some(s.last().block@)
    } else {
        find_block(s.drop_last(), hash)
    }
}

pub open spec fn find_tx(s: Seq<TxEntry>, hash: B256) -> Option<MinedTxModel>
    decreases s.len(),
{
    if s.len() == 0 {
        None
    } else if s.last().hash == hash {
        Some(mined_model(s.last().mined))
    } else {
        find_tx(s.drop_last(), hash)
    }
}

pub open spec fn find_state(s: Seq<StateEntry>, hash: B256) -> Option<StateModel>
    decreases s.len(),
{
    if s.len() == 0 {
        None
    } else if s.last().hash == hash {
        Some(s.last().state.state_model())
    } else {
        find_state(s.drop_last(), hash)
    }
}

fn lookup_block(v: &Vec<BlockEntry>, hash: B256) -> (r: Option<Block>)
    ensures
        opt_block_view(r) == find_block(v@, hash),
{
    let mut i = v.len();
    assert(v@.subrange(0, i as int) =~= v@);
    while i > 0
        invariant
            i <= v@.len(),
            find_block(v@, hash) == find_block(v@.subrange(0, i as int), hash),
        decreases i,
    {
        assert(v@.subrange(0, i as int).drop_last() =~= v@.subrange(0, i - 1));
        if v[i - 1].hash == hash {
            return Some(v[i - 1].block.clone());
        }
        i = i - 1;
    }
    None
}

fn contains_block(v: &Vec<BlockEntry>, hash: B256) -> (r: bool)
    ensures
        r == find_block(v@, hash) is Some,
{
    let mut i = v.len();
    assert(v@.subrange(0, i as int) =~= v@);
    while i > 0
        invariant
            i <= v@.len(),
            find_block(v@, hash) == find_block(v@.subrange(0, i as int), hash),
        decreases i,
    {
        assert(v@.subrange(0, i as int).drop_last() =~= v@.subrange(0, i - 1));
        if v[i - 1].hash == hash {
            return true;
        }
        i = i - 1;
    }
    false
}

fn lookup_tx(v: &Vec<TxEntry>, hash: B256) -> (r: Option<MinedTx<ReceiptEnvelope>>)
    ensures
        match r {
            Some(m) => find_tx(v@, hash) == Some(mined_model(m)),
            None => find_tx(v@, hash) is None,
        },
{
    let mut i = v.len();
    assert(v@.subrange(0, i as int) =~= v@);
    while i > 0
        invariant
            i <= v@.len(),
            find_tx(v@, hash) == find_tx(v@.subrange(0, i as int), hash),
        decreases i,
    {
        assert(v@.subrange(0, i as int).drop_last() =~= v@.subrange(0, i - 1));
        if v[i - 1].hash == hash {
            let m = &v[i - 1].mined;
            return Some(
                MinedTx {
                    info: m.info,
                    receipt: m.receipt.clone(),
                    block_hash: m.block_hash,
                    block_number: m.block_number,
                },
            );
        }
        i = i - 1;
    }
    None
}

fn lookup_state(v: &Vec<StateEntry>, hash: B256) -> (r: Option<MemoryState>)
    ensures
        match r {
            Some(s) => find_state(v@, hash) == Some(s.state_model()),
            None => find_state(v@, hash) is None,
        },
{
    let mut i = v.len();
    assert(v@.subrange(0, i as int) =~= v@);
    while i > 0
        invariant
            i <= v@.len(),
            find_state(v@, hash) == find_state(v@.subrange(0, i as int), hash),
        decreases i,
    {
        assert(v@.subrange(0, i as int).drop_last() =~= v@.subrange(0, i - 1));
        if v[i - 1].hash == hash {
            return Some(v[i - 1].state.snapshot());
        }
        i = i - 1;
    }
    None
}

/// The number of slots in an epoch, by which the safe block trails the best block.
pub const SLOTS_IN_AN_EPOCH: u64 = 32;

/// anvil's in-memory chain: blocks by hash, canonical hashes by number, mined
/// transactions by hash, the state of earlier blocks, the latest state, and
/// whether a writer holds the latest state's lock.
pub struct MemoryBackend {
    pub best_hash: B256,
    pub best_number: u64,
    pub genesis_hash: B256,
    pub hashes: Vec<NumberHash>,
    pub blocks: Vec<BlockEntry>,
    pub transactions: Vec<TxEntry>,
    pub states: Vec<StateEntry>,
    pub latest: MemoryState,
    /// Whether a writer holds the lock on the latest state.
    pub state_locked: bool,
}

/// `new` is `old` after mining a block: the block becomes the best block and the
/// canonical one for its number, its transactions are recorded, the former latest
/// state is kept for the former best block, and `state` becomes the latest state.
pub open spec fn spec_insert_block(
    old: MemoryBackend,
    new: MemoryBackend,
    hash: B256,
    block: BlockView,
    transactions: Seq<TxEntry>,
    state: MemoryState,
) -> bool {
    &&& new.best_hash == hash
    &&& new.best_number == block.header.number
    &&& new.genesis_hash == old.genesis_hash
    &&& new.hashes@ == old.hashes@.push(NumberHash { number: block.header.number, hash })
    &&& new.blocks@.len() == old.blocks@.len() + 1
    &&& new.blocks@.drop_last() == old.blocks@
    &&& new.blocks@.last().hash == hash
    &&& new.blocks@.last().block@ == block
    &&& new.transactions@ == old.transactions@ + transactions
    &&& new.states@.len() == old.states@.len() + 1
    &&& new.states@.drop_last() == old.states@
    &&& new.states@.last().hash == old.best_hash
    &&& new.states@.last().state.state_model() == old.latest.state_model()
    &&& new.latest.state_model() == state.state_model()
    &&& new.state_locked == old.state_locked
}

impl MemoryBackend {
    /// A chain that holds only its genesis block, with the given state.
    pub fn new(genesis_hash: B256, genesis: Block, state: MemoryState) -> (r: MemoryBackend)
        ensures
            r.best_hash == genesis_hash,
            r.best_number == genesis.header.number,
            r.genesis_hash == genesis_hash,
            r.hashes@ == seq![NumberHash { number: genesis.header.number, hash: genesis_hash }],
            r.blocks@.len() == 1,
            r.blocks@[0].hash == genesis_hash,
            r.blocks@[0].block@ == genesis@,
            r.transactions@.len() == 0,
            r.states@.len() == 0,
            r.latest.state_model() == state.state_model(),
            !r.state_locked,
    {
        let number = genesis.header.number;
        let mut hashes: Vec<NumberHash> = Vec::new();
        hashes.push(NumberHash { number, hash: genesis_hash });
        let mut blocks: Vec<BlockEntry> = Vec::new();
        blocks.push(BlockEntry { hash: genesis_hash, block: genesis });
        MemoryBackend {
            best_hash: genesis_hash,
            best_number: number,
            genesis_hash,
            hashes,
            blocks,
            transactions: Vec::new(),
            states: Vec::new(),
            latest: state,
            state_locked: false,
        }
    }

    /// Adds a mined block as the new best block, with its mined transactions and
    /// the state after it; the state that was latest is kept for the former best block.
    pub fn insert_block(
        &mut self,
        hash: B256,
        block: Block,
        transactions: Vec<TxEntry>,
        state: MemoryState,
    )
        ensures
            spec_insert_block(*old(self), *final(self), hash, block@, transactions@, state),
    {
        let number = block.header.number;
        self.hashes.push(NumberHash { number, hash });
        self.blocks.push(BlockEntry { hash, block });
        let mut txs = transactions;
        self.transactions.append(&mut txs);
        let mut previous = state;
        std::mem::swap(&mut self.latest, &mut previous);
        let former_best = self.best_hash;
        self.states.push(StateEntry { hash: former_best, state: previous });
        self.best_hash = hash;
        self.best_number = number;
        assert(self.blocks@.drop_last() =~= old(self).blocks@);
        assert(self.states@.drop_last() =~= old(self).states@);
        assert(self.transactions@ =~= old(self).transactions@ + transactions@);
    }
}

impl BackendView for MemoryBackend {
    type State = MemoryState;

    type Receipt = ReceiptEnvelope;

    open spec fn spec_best_hash(&self) -> B256 {
        self.best_hash
    }

    open spec fn spec_best_number(&self) -> u64 {
        self.best_number
    }

    /// `Latest` is the best block and `Earliest` the genesis block; `Safe` and
    /// `Finalized` trail the best block by one and two epochs, and are the genesis
    /// block while the chain is not longer than that; `Pending` names no block.
    open spec fn spec_tag_hash(&self, id: BlockNumberOrTag) -> Option<B256> {
        match id {
            BlockNumberOrTag::Latest => Some(self.best_hash),
            BlockNumberOrTag::Earliest => Some(self.genesis_hash),
            BlockNumberOrTag::Pending => None,
            BlockNumberOrTag::Number(n) => find_number(self.hashes@, n),
            BlockNumberOrTag::Safe => if self.best_number > SLOTS_IN_AN_EPOCH {
                find_number(self.hashes@, (self.best_number - SLOTS_IN_AN_EPOCH) as u64)
            } else {
                Some(self.genesis_hash)
            },
            BlockNumberOrTag::Finalized => if self.best_number > 2 * SLOTS_IN_AN_EPOCH {
                find_number(self.hashes@, (self.best_number - 2 * SLOTS_IN_AN_EPOCH) as u64)
            } else {
                Some(self.genesis_hash)
            },
        }
    }

    open spec fn spec_number_to_hash(&self, number: u64) -> Option<B256> {
        find_number(self.hashes@, number)
    }

    open spec fn spec_block(&self, hash: B256) -> Option<BlockView> {
        find_block(self.blocks@, hash)
    }

    open spec fn spec_mined_tx(&self, hash: B256) -> Option<MinedTxModel> {
        find_tx(self.transactions@, hash)
    }

    /// The latest state, unless a writer holds the state lock.
    open spec fn spec_current_state(&self) -> Option<StateModel> {
        if self.state_locked {
            None
        } else {
            Some(self.latest.state_model())
        }
    }

    open spec fn spec_stored_state(&self, hash: B256) -> Option<StateModel> {
        find_state(self.states@, hash)
    }

    proof fn lemma_number_tag(&self, number: u64) {
    }

    fn best_hash(&self) -> (r: B256) {
        self.best_hash
    }

    fn best_number(&self) -> (r: u64) {
        self.best_number
    }

    fn block_hash(&self, id: BlockNumberOrTag) -> (r: Option<B256>) {
        match id {
            BlockNumberOrTag::Latest => Some(self.best_hash),
            BlockNumberOrTag::Earliest => Some(self.genesis_hash),
            BlockNumberOrTag::Pending => None,
            BlockNumberOrTag::Number(n) => lookup_number(&self.hashes, n),
            BlockNumberOrTag::Safe => {
                if self.best_number > SLOTS_IN_AN_EPOCH {
                    lookup_number(&self.hashes, self.best_number - SLOTS_IN_AN_EPOCH)
                } else {
                    Some(self.genesis_hash)
                }
            },
            BlockNumberOrTag::Finalized => {
                if self.best_number > 2 * SLOTS_IN_AN_EPOCH {
                    lookup_number(&self.hashes, self.best_number - 2 * SLOTS_IN_AN_EPOCH)
                } else {
                    Some(self.genesis_hash)
                }
            },
        }
    }

    fn number_to_hash(&self, number: u64) -> (r: Option<B256>) {
        lookup_number(&self.hashes, number)
    }

    fn has_block(&self, hash: B256) -> (r: bool) {
        contains_block(&self.blocks, hash)
    }

    fn block_by_hash(&self, hash: B256) -> (r: Option<Block>) {
        lookup_block(&self.blocks, hash)
    }

    fn mined_transaction_by_hash(&self, hash: B256) -> (r: Option<MinedTx<ReceiptEnvelope>>) {
        lookup_tx(&self.transactions, hash)
    }

    fn block_transaction_hashes(&self, block_hash: B256) -> (r: Vec<B256>) {
        match lookup_block(&self.blocks, block_hash) {
            Some(block) => {
                let mut hashes: Vec<B256> = Vec::new();
                let n = block.transactions.len();
                for i in 0..n
                    invariant
                        n == block.transactions@.len(),
                        hashes@ == block.transactions@.subrange(0, i as int).map_values(
                            |t: crate::block::Transaction| t.hash,
                        ),
                {
                    hashes.push(block.transactions[i].hash);
                    assert(hashes@ =~= block.transactions@.subrange(0, i + 1).map_values(
                        |t: crate::block::Transaction| t.hash,
                    ));
                }
                assert(block.transactions@.subrange(0, n as int) =~= block.transactions@);
                hashes
            },
            None => Vec::new(),
        }
    }

    fn try_current_state(&self) -> (r: Option<MemoryState>) {
        if self.state_locked {
            None
        } else {
            Some(self.latest.snapshot())
        }
    }

    fn latest_state(&self) -> (r: Result<MemoryState, DatabaseError>) {
        match self.try_current_state() {
            Some(state) => Ok(state),
            None => Err(DatabaseError::BlockNotFound(BlockId::Number(BlockNumberOrTag::Latest))),
        }
    }

    fn state_by_block_hash(&self, hash: B256) -> (r: Result<Option<MemoryState>, DatabaseError>) {
        Ok(lookup_state(&self.states, hash))
    }
}

} // verus!
