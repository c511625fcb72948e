//! The single bits of a number, and what the bitwise operations do to them.
use crate::bitwise::{bytes_and, bytes_not, bytes_or, bytes_xor};
use crate::radix::{
    le_value, lemma_value_bound, lemma_value_skip_pred, lemma_value_split, pow256,
};
use crate::uint::{u206265, BYTES};
use vstd::arithmetic::div_mod::{
    lemma_basic_div, lemma_div_denominator, lemma_fundamental_div_mod_converse,
    lemma_hoist_over_denominator, lemma_mod_multiples_vanish,
};
use vstd::arithmetic::power2::{
    lemma2_to64, lemma_pow2_adds, lemma_pow2_pos, lemma_pow2_strictly_increases, pow2,
};
use vstd::bits::lemma_u8_shr_is_div;
use vstd::prelude::*;

verus! {

/// Whether bit `i` of the number `v` is set; bit 0 is the lowest.
pub open spec fn bit(v: nat, i: nat) -> bool {
    (v / pow2(i)) % 2 == 1
}

/// A bit of a byte is the lowest bit of the byte shifted down to it.
proof fn lemma_bit_of_byte(x: u8, k: u8)
    requires
        k < 8,
    ensures
        bit(x as nat, k as nat) == ((x >> k) & 1 == 1),
{
    lemma_u8_shr_is_div(x, k);
    let y = x >> k;
    assert((y & 1 == 1) == (y % 2 == 1)) by (bit_vector);
}

/// The bits of the bytewise operations on two bytes.
proof fn lemma_byte_bits(x: u8, y: u8, k: u8)
    requires
        k < 8,
    ensures
        bit((x & y) as nat, k as nat) == (bit(x as nat, k as nat) && bit(y as nat, k as nat)),
        bit((x | y) as nat, k as nat) == (bit(x as nat, k as nat) || bit(y as nat, k as nat)),
        bit((x ^ y) as nat, k as nat) == (bit(x as nat, k as nat) != bit(y as nat, k as nat)),
        bit((!x) as nat, k as nat) == !bit(x as nat, k as nat),
        k == 0 ==> bit((!x & 0x01) as nat, 0) == !bit(x as nat, 0),
        k > 0 ==> !bit((!x & 0x01) as nat, k as nat),
{
    lemma_bit_of_byte(x, k);
    lemma_bit_of_byte(y, k);
    lemma_bit_of_byte(x & y, k);
    lemma_bit_of_byte(x | y, k);
    lemma_bit_of_byte(x ^ y, k);
    lemma_bit_of_byte(!x, k);
    lemma_bit_of_byte(!x & 0x01, k);
    assert(k < 8 ==> (((x & y) >> k) & 1 == 1) == (((x >> k) & 1 == 1) && ((y >> k) & 1 == 1)))
        by (bit_vector);
    assert(k < 8 ==> (((x | y) >> k) & 1 == 1) == (((x >> k) & 1 == 1) || ((y >> k) & 1 == 1)))
        by (bit_vector);
    assert(k < 8 ==> (((x ^ y) >> k) & 1 == 1) == (((x >> k) & 1 == 1) != ((y >> k) & 1 == 1)))
        by (bit_vector);
    assert(k < 8 ==> (((!x) >> k) & 1 == 1) == !((x >> k) & 1 == 1)) by (bit_vector);
    assert(k == 0 ==> (((!x & 0x01) >> k) & 1 == 1) == !((x >> k) & 1 == 1)) by (bit_vector);
    assert(0 < k < 8 ==> !(((!x & 0x01) >> k) & 1 == 1)) by (bit_vector);
}

/// Bit `8 * j + k` of the value of a byte sequence is bit `k` of byte `j`.
pub proof fn lemma_bit_of_value(s: Seq<u8>, j: int, k: nat)
    requires
        0 <= j < s.len(),
        k < 8,
    ensures
        bit(le_value(s), (8 * j + k) as nat) == bit(s[j] as nat, k),
{
    let v = le_value(s);
    let pj = pow256(j as nat);
    let pk = pow2(k);
    let hi = le_value(s.skip(j));
    let lo = le_value(s.take(j));
    let rest = le_value(s.skip(j + 1));
    let x = s[j] as nat;
    lemma_value_split(s, j);
    lemma_value_bound(s.take(j));
    lemma_pow2_pos((8 * j) as nat);
    lemma_pow2_pos(k);
    lemma_pow2_adds((8 * j) as nat, k);
    lemma_fundamental_div_mod_converse(v as int, pj as int, hi as int, lo as int);
    lemma_div_denominator(v as int, pj as int, pk as int);
    lemma_value_skip_pred(s, j + 1);
    lemma_pow2_adds(k, (8 - k) as nat);
    lemma_pow2_adds(1, (7 - k) as nat);
    lemma2_to64();
    let g = pow2((8 - k) as nat);
    let h = pow2((7 - k) as nat);
    assert(256 * rest == (g * rest) * pk) by (nonlinear_arith)
        requires
            pk * g == 256,
    ;
    lemma_hoist_over_denominator(x as int, (g * rest) as int, pk);
    assert(g * rest == 2 * (h * rest)) by (nonlinear_arith)
        requires
            g == 2 * h,
    ;
    lemma_mod_multiples_vanish((h * rest) as int, (x / pk) as int, 2);
}

/// No bit is set at or above the length of a byte sequence.
pub proof fn lemma_bit_above_value(s: Seq<u8>, i: nat)
    requires
        i >= 8 * s.len(),
    ensures
        !bit(le_value(s), i),
{
    lemma_value_bound(s);
    if i > 8 * s.len() {
        lemma_pow2_strictly_increases(8 * s.len(), i);
    }
    lemma_basic_div(le_value(s) as int, pow2(i) as int);
}

/// Numbers with the same bits are the same number.
pub proof fn lemma_bits_determine(v: nat, w: nat)
    requires
        forall|i: nat| #[trigger] bit(v, i) == bit(w, i),
    ensures
        v == w,
    decreases v + w,
{
    if v + w > 0 {
        lemma2_to64();
        assert(bit(v, 0) == bit(w, 0));
        assert forall|i: nat| #[trigger] bit(v / 2, i) == bit(w / 2, i) by {
            lemma_pow2_adds(1, i);
            lemma_pow2_pos(i);
            lemma_div_denominator(v as int, 2, pow2(i) as int);
            lemma_div_denominator(w as int, 2, pow2(i) as int);
            assert(bit(v, i + 1) == bit(w, i + 1));
        }
        lemma_bits_determine(v / 2, w / 2);
    }
}

/// Every bit of the AND of two integers is set exactly when it is set in
/// both.
pub proof fn lemma_and_bits(x: u206265, y: u206265, i: nat)
    ensures
        bit(le_value(bytes_and(x.bytes(), y.bytes())), i) == (bit(x@, i) && bit(y@, i)),
{
    x.lemma_bytes();
    y.lemma_bytes();
    let a = x.bytes();
    let b = y.bytes();
    let r = bytes_and(a, b);
    if i >= 8 * BYTES {
        lemma_bit_above_value(a, i);
        lemma_bit_above_value(b, i);
        lemma_bit_above_value(r, i);
    } else {
        let j = (i / 8) as int;
        let k = (i % 8) as nat;
        lemma_bit_of_value(a, j, k);
        lemma_bit_of_value(b, j, k);
        lemma_bit_of_value(r, j, k);
        lemma_byte_bits(a[j], b[j], k as u8);
    }
}

/// Every bit of the OR of two integers is set exactly when it is set in
/// one of them.
pub proof fn lemma_or_bits(x: u206265, y: u206265, i: nat)
    ensures
        bit(le_value(bytes_or(x.bytes(), y.bytes())), i) == (bit(x@, i) || bit(y@, i)),
{
    x.lemma_bytes();
    y.lemma_bytes();
    let a = x.bytes();
    let b = y.bytes();
    let r = bytes_or(a, b);
    if i >= 8 * BYTES {
        lemma_bit_above_value(a, i);
        lemma_bit_above_value(b, i);
        lemma_bit_above_value(r, i);
    } else {
        let j = (i / 8) as int;
        let k = (i % 8) as nat;
        lemma_bit_of_value(a, j, k);
        lemma_bit_of_value(b, j, k);
        lemma_bit_of_value(r, j, k);
        lemma_byte_bits(a[j], b[j], k as u8);
    }
}

/// Every bit of the XOR of two integers is set exactly when it is set in
/// one of them and not in the other.
pub proof fn lemma_xor_bits(x: u206265, y: u206265, i: nat)
    ensures
        bit(le_value(bytes_xor(x.bytes(), y.bytes())), i) == (bit(x@, i) != bit(y@, i)),
{
    x.lemma_bytes();
    y.lemma_bytes();
    let a = x.bytes();
    let b = y.bytes();
    let r = bytes_xor(a, b);
    if i >= 8 * BYTES {
        lemma_bit_above_value(a, i);
        lemma_bit_above_value(b, i);
        lemma_bit_above_value(r, i);
    } else {
        let j = (i / 8) as int;
        let k = (i % 8) as nat;
        lemma_bit_of_value(a, j, k);
        lemma_bit_of_value(b, j, k);
        lemma_bit_of_value(r, j, k);
        lemma_byte_bits(a[j], b[j], k as u8);
    }
}

/// Every bit of the complement below the width is set exactly when it is
/// not set in the integer, and no bit is set from the width on.
pub proof fn lemma_not_bits(x: u206265, i: nat)
    ensures
        bit(le_value(bytes_not(x.bytes())), i) == (i < 206_265 && !bit(x@, i)),
{
    x.lemma_bytes();
    let a = x.bytes();
    let r = bytes_not(a);
    if i >= 8 * BYTES {
        lemma_bit_above_value(r, i);
    } else {
        let j = (i / 8) as int;
        let k = (i % 8) as nat;
        lemma_bit_of_value(a, j, k);
        lemma_bit_of_value(r, j, k);
        lemma_byte_bits(a[j], a[j], k as u8);
    }
}

} // verus!
