//! Plain-value forms of the Ethereum primitives that the bridge reads:
//! 256-bit hashes and words, addresses, block identifiers and range bounds.
use vstd::prelude::*;

verus! {

/// A 256-bit hash, held as its big-endian upper and lower 128-bit halves.
#[derive(Clone, Copy, Debug, PartialEq, Eq, Structural)]
pub struct B256 {
    pub hi: u128,
    pub lo: u128,
}

impl B256 {
    /// The all-zero hash.
    pub open spec fn spec_zero() -> B256 {
        B256 { hi: 0, lo: 0 }
    }

    pub fn zero() -> (r: B256)
        ensures
            r == B256::spec_zero(),
    {
        B256 { hi: 0, lo: 0 }
    }

    pub fn is_zero(&self) -> (r: bool)
        ensures
            r == (*self == B256::spec_zero()),
    {
        self.hi == 0 && self.lo == 0
    }
}

/// The Keccak-256 digest of the empty input, the code hash of an account without code.
pub open spec fn spec_keccak_empty() -> B256 {
    B256 { hi: 0xc5d2460186f7233c927e7db2dcc703c0, lo: 0xe500b653ca82273b7bfad8045d85a470 }
}

/// Reads `alloy_primitives::KECCAK256_EMPTY` into the library's hash form.
/// Trusted: that constant is the digest written in `spec_keccak_empty`
/// (alloy documents it as the Keccak-256 hash of the empty string).
#[verifier::external_body]
pub(crate) fn keccak_empty() -> (r: B256)
    ensures
        r == spec_keccak_empty(),
{
    let bytes: [u8; 32] = alloy_primitives::KECCAK256_EMPTY.0;
    let mut hi = [0u8; 16];
    let mut lo = [0u8; 16];
    hi.copy_from_slice(&bytes[..16]);
    lo.copy_from_slice(&bytes[16..]);
    B256 { hi: u128::from_be_bytes(hi), lo: u128::from_be_bytes(lo) }
}

/// The number that a sequence of bytes stands for, most significant byte first.
pub open spec fn be_value(s: Seq<u8>) -> nat
    decreases s.len(),
{
    if s.len() == 0 {
        0
    } else {
        be_value(s.drop_last()) * 256 + s.last() as nat
    }
}

/// 256 to the power `n`.
pub open spec fn pow256(n: nat) -> nat
    decreases n,
{
    if n == 0 {
        1
    } else {
        256 * pow256((n - 1) as nat)
    }
}

/// The hash whose 32 big-endian bytes are `b`.
pub open spec fn b256_of_bytes(b: Seq<u8>) -> B256 {
    B256 {
        hi: be_value(b.subrange(0, 16)) as u128,
        lo: be_value(b.subrange(16, 32)) as u128,
    }
}

proof fn lemma_be_value_bound(s: Seq<u8>)
    ensures
        be_value(s) < pow256(s.len()),
    decreases s.len(),
{
    if s.len() > 0 {
        let d = s.drop_last();
        lemma_be_value_bound(d);
        let v = be_value(d);
        let p = pow256(d.len());
        let l = s.last() as nat;
        assert(v * 256 + l < 256 * p) by (nonlinear_arith)
            requires
                v < p,
                l < 256,
        ;
    }
}

proof fn lemma_pow256_16()
    ensures
        pow256(16) == 0x1_0000_0000_0000_0000_0000_0000_0000_0000nat,
{
    reveal_with_fuel(pow256, 17);
}

proof fn lemma_pow256_mono(a: nat, b: nat)
    requires
        a <= b,
    ensures
        pow256(a) <= pow256(b),
    decreases b,
{
    if a < b {
        lemma_pow256_mono(a, (b - 1) as nat);
    }
}

/// The hash whose 32 big-endian bytes are `b`.
pub fn b256_from_bytes(b: [u8; 32]) -> (r: B256)
    ensures
        r == b256_of_bytes(b@),
{
    let hi = be_u128(&b, 0, 16);
    let lo = be_u128(&b, 16, 16);
    B256 { hi, lo }
}

proof fn lemma_pow256_4()
    ensures
        pow256(4) == 0x1_0000_0000nat,
{
    reveal_with_fuel(pow256, 5);
}

/// The number that `len` bytes of `b`, from `start` on, stand for.
fn be_u128(b: &[u8], start: usize, len: usize) -> (r: u128)
    requires
        len <= 16,
        start + len <= b@.len(),
        start + len <= usize::MAX,
    ensures
        r == be_value(b@.subrange(start as int, start + len)),
{
    let mut acc: u128 = 0;
    let mut i: usize = 0;
    while i < len
        invariant
            len <= 16,
            start + len <= b@.len(),
            start + len <= usize::MAX,
            i <= len,
            acc == be_value(b@.subrange(start as int, start + i)),
        decreases len - i,
    {
        let ghost prefix = b@.subrange(start as int, start + i);
        let ghost next = b@.subrange(start as int, start + i + 1);
        assert(next.drop_last() =~= prefix);
        proof {
            lemma_be_value_bound(prefix);
            lemma_pow256_mono(i as nat, 15);
            lemma_pow256_16();
            assert(pow256(16) == 256 * pow256(15));
            let p = pow256(i as nat);
            assert(acc * 256 + 255 < 0x1_0000_0000_0000_0000_0000_0000_0000_0000nat) by (nonlinear_arith)
                requires
                    acc < p,
                    p <= pow256(15),
                    256 * pow256(15) == 0x1_0000_0000_0000_0000_0000_0000_0000_0000nat,
            ;
        }
        acc = acc * 256 + b[start + i] as u128;
        i = i + 1;
    }
    acc
}

/// The address whose 20 big-endian bytes are `b`.
pub open spec fn address_of_bytes(b: Seq<u8>) -> Address {
    Address {
        hi: be_value(b.subrange(0, 4)) as u32,
        lo: be_value(b.subrange(4, 20)) as u128,
    }
}

/// The address whose 20 big-endian bytes are `b`.
pub fn address_from_bytes(b: [u8; 20]) -> (r: Address)
    ensures
        r == address_of_bytes(b@),
{
    let hi = be_u128(&b, 0, 4);
    proof {
        lemma_be_value_bound(b@.subrange(0, 4));
        lemma_pow256_4();
    }
    let lo = be_u128(&b, 4, 16);
    Address { hi: hi as u32, lo }
}

/// A 160-bit account address: the upper 32 bits and the lower 128 bits.
#[derive(Clone, Copy, Debug, PartialEq, Eq, Structural)]
pub struct Address {
    pub hi: u32,
    pub lo: u128,
}

impl Address {
    pub open spec fn spec_zero() -> Address {
        Address { hi: 0, lo: 0 }
    }

    pub fn zero() -> (r: Address)
        ensures
            r == Address::spec_zero(),
    {
        Address { hi: 0, lo: 0 }
    }
}

/// An unsigned 256-bit word: the upper and lower 128-bit halves.
#[derive(Clone, Copy, Debug, PartialEq, Eq, Structural)]
pub struct U256 {
    pub hi: u128,
    pub lo: u128,
}

impl U256 {
    /// The number that the word stands for.
    pub open spec fn value(self) -> nat {
        self.hi as nat * 0x1_0000_0000_0000_0000_0000_0000_0000_0000nat + self.lo as nat
    }

    pub open spec fn spec_zero() -> U256 {
        U256 { hi: 0, lo: 0 }
    }

    pub fn zero() -> (r: U256)
        ensures
            r == U256::spec_zero(),
            r.value() == 0,
    {
        U256 { hi: 0, lo: 0 }
    }

    pub fn from_u64(n: u64) -> (r: U256)
        ensures
            r == (U256 { hi: 0, lo: n as u128 }),
            r.value() == n,
    {
        U256 { hi: 0, lo: n as u128 }
    }

    pub fn is_zero(&self) -> (r: bool)
        ensures
            r == (*self == U256::spec_zero()),
            r == (self.value() == 0),
    {
        self.hi == 0 && self.lo == 0
    }

    /// The word whose 32 big-endian bytes are those of the hash.
    pub fn from_b256(h: B256) -> (r: U256)
        ensures
            r == (U256 { hi: h.hi, lo: h.lo }),
    {
        U256 { hi: h.hi, lo: h.lo }
    }
}

/// The Ethereum transaction types that a reth receipt or transaction can carry.
#[derive(Clone, Copy, Debug, PartialEq, Eq, Structural)]
pub enum TxType {
    Legacy,
    Eip2930,
    Eip1559,
    Eip4844,
    Eip7702,
}

/// A block number or one of the named block tags.
#[derive(Clone, Copy, Debug, PartialEq, Eq, Structural)]
pub enum BlockNumberOrTag {
    Latest,
    Finalized,
    Safe,
    Earliest,
    Pending,
    Number(u64),
}

/// A block named by its hash or by its number.
#[derive(Clone, Copy, Debug, PartialEq, Eq, Structural)]
pub enum BlockHashOrNumber {
    Hash(B256),
    Number(u64),
}

/// A block hash as an RPC caller gives it.
#[derive(Clone, Copy, Debug, PartialEq, Eq, Structural)]
pub struct RpcBlockHash {
    pub block_hash: B256,
    pub require_canonical: Option<bool>,
}

/// A block named by hash, or by number or tag.
#[derive(Clone, Copy, Debug, PartialEq, Eq, Structural)]
pub enum BlockId {
    Hash(RpcBlockHash),
    Number(BlockNumberOrTag),
}

/// A block's number together with its hash.
#[derive(Clone, Copy, Debug, PartialEq, Eq, Structural)]
pub struct BlockNumHash {
    pub number: u64,
    pub hash: B256,
}

/// The head of the chain.
#[derive(Clone, Copy, Debug, PartialEq, Eq, Structural)]
pub struct ChainInfo {
    pub best_hash: B256,
    pub best_number: u64,
}

/// One end of a range of block numbers.
#[derive(Clone, Copy, Debug, PartialEq, Eq, Structural)]
pub enum Bound {
    Included(u64),
    Excluded(u64),
    Unbounded,
}

} // verus!
