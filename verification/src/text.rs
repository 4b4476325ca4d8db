//! Lower-case hexadecimal rendering of hashes, for error messages.
use vstd::prelude::*;
use crate::primitives::B256;

verus! {

/// The lower-case hexadecimal digit of a value below 16.
pub open spec fn spec_hex_digit(n: u8) -> char {
    if n == 0 { '0' }
    else if n == 1 { '1' }
    else if n == 2 { '2' }
    else if n == 3 { '3' }
    else if n == 4 { '4' }
    else if n == 5 { '5' }
    else if n == 6 { '6' }
    else if n == 7 { '7' }
    else if n == 8 { '8' }
    else if n == 9 { '9' }
    else if n == 10 { 'a' }
    else if n == 11 { 'b' }
    else if n == 12 { 'c' }
    else if n == 13 { 'd' }
    else if n == 14 { 'e' }
    else { 'f' }
}

/// The `i`-th four-bit digit of `x`, counting from the most significant.
pub open spec fn nibble(x: u128, i: int) -> u8 {
    ((x >> (((31 - i) * 4) as u32)) & 0xf) as u8
}

/// The 32 hexadecimal digits of a 128-bit value, most significant first.
pub open spec fn spec_hex_u128(x: u128) -> Seq<char> {
    Seq::new(32, |i: int| spec_hex_digit(nibble(x, i)))
}

/// A hash as `0x` and its 64 lower-case hexadecimal digits.
pub open spec fn spec_hex_b256(h: B256) -> Seq<char> {
    seq!['0', 'x'] + spec_hex_u128(h.hi) + spec_hex_u128(h.lo)
}

fn hex_digit(n: u8) -> (r: &'static str)
    requires
        n < 16,
    ensures
        r@ == seq![spec_hex_digit(n)],
{
    proof {
        reveal_strlit("0");
        reveal_strlit("1");
        reveal_strlit("2");
        reveal_strlit("3");
        reveal_strlit("4");
        reveal_strlit("5");
        reveal_strlit("6");
        reveal_strlit("7");
        reveal_strlit("8");
        reveal_strlit("9");
        reveal_strlit("a");
        reveal_strlit("b");
        reveal_strlit("c");
        reveal_strlit("d");
        reveal_strlit("e");
        reveal_strlit("f");
    }
    let r = if n == 0 { "0" }
    else if n == 1 { "1" }
    else if n == 2 { "2" }
    else if n == 3 { "3" }
    else if n == 4 { "4" }
    else if n == 5 { "5" }
    else if n == 6 { "6" }
    else if n == 7 { "7" }
    else if n == 8 { "8" }
    else if n == 9 { "9" }
    else if n == 10 { "a" }
    else if n == 11 { "b" }
    else if n == 12 { "c" }
    else if n == 13 { "d" }
    else if n == 14 { "e" }
    else { "f" };
    assert(r@ =~= seq![spec_hex_digit(n)]);
    r
}

/// Appends the 32 hexadecimal digits of a 128-bit value.
fn append_hex_u128(s: &mut String, x: u128)
    ensures
        final(s)@ == old(s)@ + spec_hex_u128(x),
{
    let ghost start = s@;
    let mut i: u32 = 0;
    while i < 32
        invariant
            i <= 32,
            s@ == start + Seq::new(i as nat, |k: int| spec_hex_digit(nibble(x, k))),
        decreases 32 - i,
    {
        let shift: u32 = (31 - i) * 4;
        let v: u128 = (x >> shift) & 0xf;
        assert(v < 16) by (bit_vector)
            requires
                v == (x >> shift) & 0xf,
        ;
        let d = hex_digit(v as u8);
        s.append(d);
        assert(nibble(x, i as int) == v as u8);
        assert(s@ =~= start + Seq::new((i + 1) as nat, |k: int| spec_hex_digit(nibble(x, k))));
        i = i + 1;
    }
    assert(Seq::new(32, |k: int| spec_hex_digit(nibble(x, k))) =~= spec_hex_u128(x));
}

/// Appends a hash as `0x` and its 64 lower-case hexadecimal digits.
pub fn append_hex_b256(s: &mut String, h: B256)
    ensures
        final(s)@ == old(s)@ + spec_hex_b256(h),
{
    let ghost start = s@;
    proof {
        reveal_strlit("0x");
    }
    s.append("0x");
    append_hex_u128(s, h.hi);
    append_hex_u128(s, h.lo);
    assert(s@ =~= start + spec_hex_b256(h));
}

} // verus!
