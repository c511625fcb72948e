//! The laws of the arithmetic: what holds of every integer.
use crate::additive::{
    difference_underflows, sum_overflows, wrapping_difference, wrapping_sum,
};
use crate::bitwise::{bytes_and, bytes_not, bytes_xor};
use crate::convert::{
    lemma_native_widths, narrowed_i128, narrowed_i16, narrowed_i32, narrowed_i64, narrowed_i8,
    narrowed_isize, narrowed_u128, narrowed_u16, narrowed_u32, narrowed_u64, narrowed_u8,
    narrowed_usize, u206265ToSigned, u206265ToUnsigned, widened,
};
use crate::format::decimal_digits;
use crate::logarithm::{is_floor_log, is_floor_log2};
use crate::multiply::{product_overflows, wrapping_product};
use crate::radix::{
    le_value, lemma_pow256_adds, lemma_pow256_monotonic, lemma_significant_len_bounds,
    lemma_significant_len_unique, lemma_value_ones, lemma_value_zeros, pow256, significant_len,
};
use crate::shift::{shifted_left, shifted_right};
use crate::uint::{lemma_modulus, modulus, u206265, BYTES};
use vstd::arithmetic::div_mod::{
    lemma_add_mod_noop, lemma_div_multiples_vanish, lemma_fundamental_div_mod,
    lemma_fundamental_div_mod_converse, lemma_mod_bound, lemma_small_mod, lemma_truncate_middle,
};
use vstd::arithmetic::power::{
    lemma_pow0, lemma_pow1, lemma_pow_adds, lemma_pow_positive, lemma_pow_strictly_increases,
};
use vstd::arithmetic::power2::{
    lemma2_to64, lemma_pow2_adds, lemma_pow2_pos, lemma_pow2_strictly_increases, pow2,
};
use vstd::layout::signed_int_min_max_values;
use vstd::prelude::*;

verus! {

/// The modulus exceeds every product of two native integers.
pub proof fn lemma_modulus_is_large()
    ensures
        modulus() > (u128::MAX + 1) * (u128::MAX + 1),
        pow256(32) < modulus(),
        pow256(32) == (u128::MAX + 1) * (u128::MAX + 1),
{
    lemma_native_widths();
    lemma_pow256_adds(16, 16);
    lemma_pow2_strictly_increases(256, 206_265);
}

/// A `u8` converted into the integer and back is the same `u8`.
pub proof fn lemma_round_trip_u8(v: u8)
    ensures
        narrowed_u8(v as nat) == Ok::<u8, u206265ToUnsigned>(v),
{
}

/// A `u16` converted into the integer and back is the same `u16`.
pub proof fn lemma_round_trip_u16(v: u16)
    ensures
        narrowed_u16(v as nat) == Ok::<u16, u206265ToUnsigned>(v),
{
}

/// A `u32` converted into the integer and back is the same `u32`.
pub proof fn lemma_round_trip_u32(v: u32)
    ensures
        narrowed_u32(v as nat) == Ok::<u32, u206265ToUnsigned>(v),
{
}

/// A `u64` converted into the integer and back is the same `u64`.
pub proof fn lemma_round_trip_u64(v: u64)
    ensures
        narrowed_u64(v as nat) == Ok::<u64, u206265ToUnsigned>(v),
{
}

/// A `u128` converted into the integer and back is the same `u128`.
pub proof fn lemma_round_trip_u128(v: u128)
    ensures
        narrowed_u128(v as nat) == Ok::<u128, u206265ToUnsigned>(v),
{
}

/// A `usize` converted into the integer and back is the same `usize`.
pub proof fn lemma_round_trip_usize(v: usize)
    ensures
        narrowed_usize(v as nat) == Ok::<usize, u206265ToUnsigned>(v),
{
}

/// An `i8` that is not negative, converted into the integer and back, is
/// the same `i8`; a negative one is not converted.
pub proof fn lemma_round_trip_i8(v: i8)
    ensures
        v < 0 <==> widened(v as int) is None,
        v >= 0 ==> widened(v as int) == Some(v as nat) && narrowed_i8(v as nat) == Ok::<
            i8,
            u206265ToSigned,
        >(v),
{
    signed_int_min_max_values();
    vstd::layout::unsigned_int_max_values();
    lemma_pow2_adds((i8::BITS - 1) as nat, 1);
    lemma2_to64();
}

/// An `i16` that is not negative, converted into the integer and back, is
/// the same `i16`; a negative one is not converted.
pub proof fn lemma_round_trip_i16(v: i16)
    ensures
        v < 0 <==> widened(v as int) is None,
        v >= 0 ==> widened(v as int) == Some(v as nat) && narrowed_i16(v as nat) == Ok::<
            i16,
            u206265ToSigned,
        >(v),
{
    signed_int_min_max_values();
    vstd::layout::unsigned_int_max_values();
    lemma_pow2_adds((i16::BITS - 1) as nat, 1);
    lemma2_to64();
}

/// An `i32` that is not negative, converted into the integer and back, is
/// the same `i32`; a negative one is not converted.
pub proof fn lemma_round_trip_i32(v: i32)
    ensures
        v < 0 <==> widened(v as int) is None,
        v >= 0 ==> widened(v as int) == Some(v as nat) && narrowed_i32(v as nat) == Ok::<
            i32,
            u206265ToSigned,
        >(v),
{
    signed_int_min_max_values();
    vstd::layout::unsigned_int_max_values();
    lemma_pow2_adds((i32::BITS - 1) as nat, 1);
    lemma2_to64();
}

/// An `i64` that is not negative, converted into the integer and back, is
/// the same `i64`; a negative one is not converted.
pub proof fn lemma_round_trip_i64(v: i64)
    ensures
        v < 0 <==> widened(v as int) is None,
        v >= 0 ==> widened(v as int) == Some(v as nat) && narrowed_i64(v as nat) == Ok::<
            i64,
            u206265ToSigned,
        >(v),
{
    signed_int_min_max_values();
    vstd::layout::unsigned_int_max_values();
    lemma_pow2_adds((i64::BITS - 1) as nat, 1);
    lemma2_to64();
}

/// An `i128` that is not negative, converted into the integer and back, is
/// the same `i128`; a negative one is not converted.
pub proof fn lemma_round_trip_i128(v: i128)
    ensures
        v < 0 <==> widened(v as int) is None,
        v >= 0 ==> widened(v as int) == Some(v as nat) && narrowed_i128(v as nat) == Ok::<
            i128,
            u206265ToSigned,
        >(v),
{
    signed_int_min_max_values();
    vstd::layout::unsigned_int_max_values();
    lemma_pow2_adds((i128::BITS - 1) as nat, 1);
    lemma2_to64();
}

/// An `isize` that is not negative, converted into the integer and back, is
/// the same `isize`; a negative one is not converted.
pub proof fn lemma_round_trip_isize(v: isize)
    ensures
        v < 0 <==> widened(v as int) is None,
        v >= 0 ==> widened(v as int) == Some(v as nat) && narrowed_isize(v as nat) == Ok::<
            isize,
            u206265ToSigned,
        >(v),
{
    signed_int_min_max_values();
    vstd::layout::unsigned_int_max_values();
    lemma_pow2_adds((isize::BITS - 1) as nat, 1);
    lemma2_to64();
}

/// The sum of two integers that fit 128 bits never overflows; narrowed to
/// 128 bits it is the native sum, or, where the native sum overflows, the
/// failure that asks for 17 bytes.
pub proof fn lemma_add_matches_native(a: u128, b: u128)
    ensures
        !sum_overflows(a as nat, b as nat),
        a + b <= u128::MAX ==> narrowed_u128(wrapping_sum(a as nat, b as nat)) == Ok::<
            u128,
            u206265ToUnsigned,
        >((a + b) as u128),
        a + b > u128::MAX ==> narrowed_u128(wrapping_sum(a as nat, b as nat)) == Err::<
            u128,
            u206265ToUnsigned,
        >(u206265ToUnsigned { bytes_required: 17 }),
        a + b > u128::MAX ==> significant_len((a + b) as nat) == 17,
{
    lemma_modulus_is_large();
    lemma_native_widths();
    let s = (a + b) as nat;
    lemma_small_mod(s, modulus());
    if a + b > u128::MAX {
        crate::radix::lemma_pow256_succ(16);
        lemma_significant_len_unique(s, 17);
    }
}

/// The difference of two integers that fit 128 bits underflows exactly
/// when the native difference does; narrowed to 128 bits it is the native
/// difference, or, where that underflows, the failure that asks for all
/// the bytes of the integer.
pub proof fn lemma_sub_matches_native(a: u128, b: u128)
    ensures
        difference_underflows(a as nat, b as nat) == (a < b),
        a >= b ==> narrowed_u128(wrapping_difference(a as nat, b as nat)) == Ok::<
            u128,
            u206265ToUnsigned,
        >((a - b) as u128),
        a < b ==> narrowed_u128(wrapping_difference(a as nat, b as nat)) == Err::<
            u128,
            u206265ToUnsigned,
        >(u206265ToUnsigned { bytes_required: BYTES }),
{
    lemma_modulus_is_large();
    lemma_native_widths();
    lemma_modulus();
    let m = modulus();
    if a >= b {
        lemma_small_mod((a - b) as nat, m);
    } else {
        let d = a - b;
        lemma_fundamental_div_mod_converse(d, m as int, -1, d + m);
        lemma_pow256_monotonic(32, 25_783);
        lemma_significant_len_unique((d + m) as nat, 25_784);
    }
}

/// The product of two integers that fit 128 bits never overflows; narrowed
/// to 128 bits it is the native product, or, where the native product
/// overflows, the failure that asks for the bytes that the product needs.
pub proof fn lemma_mul_matches_native(a: u128, b: u128)
    ensures
        !product_overflows(a as nat, b as nat),
        a * b <= u128::MAX ==> narrowed_u128(wrapping_product(a as nat, b as nat)) == Ok::<
            u128,
            u206265ToUnsigned,
        >((a * b) as u128),
        a * b > u128::MAX ==> narrowed_u128(wrapping_product(a as nat, b as nat)) == Err::<
            u128,
            u206265ToUnsigned,
        >(u206265ToUnsigned { bytes_required: significant_len((a * b) as nat) as usize }),
        a * b > u128::MAX ==> 17 <= significant_len((a * b) as nat) <= 32,
{
    lemma_modulus_is_large();
    lemma_native_widths();
    let p = (a as nat) * (b as nat);
    let w = u128::MAX + 1;
    assert(p < w * w) by (nonlinear_arith)
        requires
            p == (a as nat) * (b as nat),
            a < w,
            b < w,
    ;
    lemma_small_mod(p, modulus());
    if a * b > u128::MAX {
        lemma_significant_len_bounds(p);
        let n = significant_len(p);
        if n < 17 {
            lemma_pow256_monotonic(n, 16);
        }
        if n > 32 {
            lemma_pow256_monotonic(32, (n - 1) as nat);
        }
    }
}

/// Addition does not depend on the order of its operands.
pub proof fn lemma_add_commutative(a: u206265, b: u206265)
    ensures
        wrapping_sum(a@, b@) == wrapping_sum(b@, a@),
        sum_overflows(a@, b@) == sum_overflows(b@, a@),
{
}

/// Addition does not depend on how its operands are grouped.
pub proof fn lemma_add_associative(a: u206265, b: u206265, c: u206265)
    ensures
        wrapping_sum(wrapping_sum(a@, b@), c@) == wrapping_sum(a@, wrapping_sum(b@, c@)),
{
    let m = modulus() as int;
    lemma_modulus();
    lemma_add_mod_noop((a@ + b@) as int, c@ as int, m);
    lemma_add_mod_noop(a@ as int, (b@ + c@) as int, m);
    vstd::arithmetic::div_mod::lemma_mod_twice((a@ + b@) as int, m);
    vstd::arithmetic::div_mod::lemma_mod_twice((b@ + c@) as int, m);
    lemma_add_mod_noop(((a@ + b@) % modulus()) as int, c@ as int, m);
    lemma_add_mod_noop(a@ as int, ((b@ + c@) % modulus()) as int, m);
}

/// An integer minus itself is zero, without underflow.
pub proof fn lemma_sub_self(a: u206265)
    ensures
        wrapping_difference(a@, a@) == 0,
        !difference_underflows(a@, a@),
{
    lemma_modulus();
    lemma_small_mod(0, modulus());
}

/// Two integers that fit 128 bits never overflow the sum.
pub proof fn lemma_add_native_never_overflows(a: u206265, b: u206265)
    requires
        a@ <= u128::MAX,
        b@ <= u128::MAX,
    ensures
        !sum_overflows(a@, b@),
{
    lemma_modulus_is_large();
}

/// Quotient and remainder make up the dividend, and the remainder is below
/// the divisor.
pub proof fn lemma_div_rem(a: u206265, b: u206265)
    requires
        b@ != 0,
    ensures
        a@ == b@ * (a@ / b@) + a@ % b@,
        a@ % b@ < b@,
{
    lemma_fundamental_div_mod(a@ as int, b@ as int);
    lemma_mod_bound(a@ as int, b@ as int);
}

/// A shift to the left and back by the same amount below the width keeps
/// the bits that did not leave at the top.
pub proof fn lemma_shl_then_shr(x: u206265, n: u32)
    requires
        n < 206_265,
    ensures
        shifted_right(shifted_left(x@, n as nat), n as nat) == x@ % pow2((206_265 - n) as nat),
{
    let k = (206_265 - n) as nat;
    lemma_small_mod(n as nat, 206_265);
    lemma_pow2_adds(n as nat, k);
    lemma_pow2_pos(n as nat);
    lemma_pow2_pos(k);
    let b = pow2(n as nat) as int;
    let c = pow2(k) as int;
    lemma_truncate_middle(x@ as int, b, c);
    lemma_div_multiples_vanish((x@ % pow2(k)) as int, b);
    assert(x@ * pow2(n as nat) == b * x@) by (nonlinear_arith)
        requires
            b == pow2(n as nat),
    ;
}

/// The complement of the complement is the integer itself.
pub proof fn lemma_not_involution(x: u206265)
    requires
        x.wf(),
    ensures
        bytes_not(bytes_not(x.bytes())) == x.bytes(),
{
    x.lemma_bytes();
    let a = x.bytes();
    assert forall|j: int| 0 <= j < a.len() implies #[trigger] bytes_not(bytes_not(a))[j] == a[j] by {
        let v = a[j];
        assert(!!v == v) by (bit_vector);
        assert(v <= 1 ==> !(!v & 0x01) & 0x01 == v) by (bit_vector);
    }
    assert(bytes_not(bytes_not(a)) =~= a);
}

/// An integer XOR its complement is the maximum value.
pub proof fn lemma_xor_not_is_max(x: u206265)
    requires
        x.wf(),
    ensures
        le_value(bytes_xor(x.bytes(), bytes_not(x.bytes()))) == modulus() - 1,
{
    x.lemma_bytes();
    let a = x.bytes();
    let r = bytes_xor(a, bytes_not(a));
    assert forall|j: int| 0 <= j < BYTES - 1 implies r.drop_last()[j] == 0xff by {
        let v = a[j];
        assert(v ^ !v == 0xff) by (bit_vector);
    }
    let t = a[BYTES - 1];
    assert(t <= 1 ==> t ^ (!t & 0x01) == 1) by (bit_vector);
    lemma_value_ones(r.drop_last());
    lemma_modulus();
    assert(1 * pow256(25_783) == pow256(25_783));
}

/// An integer AND its complement is zero.
pub proof fn lemma_and_not_is_zero(x: u206265)
    requires
        x.wf(),
    ensures
        le_value(bytes_and(x.bytes(), bytes_not(x.bytes()))) == 0,
{
    x.lemma_bytes();
    let a = x.bytes();
    let r = bytes_and(a, bytes_not(a));
    assert forall|j: int| 0 <= j < r.len() implies r[j] == 0 by {
        let v = a[j];
        assert(v & !v == 0) by (bit_vector);
        assert(v & (!v & 0x01) == 0) by (bit_vector);
    }
    lemma_value_zeros(r);
}

/// A number has at most one logarithm to a base of at least two.
pub proof fn lemma_floor_log_unique(v: nat, base: nat, k1: nat, k2: nat)
    requires
        base >= 2,
        is_floor_log(v, base, k1),
        is_floor_log(v, base, k2),
    ensures
        k1 == k2,
{
    if k1 < k2 {
        if k1 + 1 < k2 {
            lemma_pow_strictly_increases(base, k1 + 1, k2);
        }
    } else if k2 < k1 {
        if k2 + 1 < k1 {
            lemma_pow_strictly_increases(base, k2 + 1, k1);
        }
    }
}

/// The logarithm of one is zero, to every base of at least two.
pub proof fn lemma_log_of_one(base: nat)
    requires
        base >= 2,
    ensures
        is_floor_log(1, base, 0),
        forall|k: nat| is_floor_log(1, base, k) ==> k == 0,
{
    lemma_pow0(base as int);
    lemma_pow1(base as int);
    assert forall|k: nat| is_floor_log(1, base, k) implies k == 0 by {
        lemma_floor_log_unique(1, base, k, 0);
    }
}

/// A number has at most one base-2 logarithm, and that of one is zero.
pub proof fn lemma_floor_log2_unique(v: nat, k1: nat, k2: nat)
    requires
        is_floor_log2(v, k1),
        is_floor_log2(v, k2),
    ensures
        k1 == k2,
        v == 1 ==> k1 == 0,
{
    lemma2_to64();
    if k1 < k2 {
        if k1 + 1 < k2 {
            lemma_pow2_strictly_increases(k1 + 1, k2);
        }
    } else if k2 < k1 {
        if k2 + 1 < k1 {
            lemma_pow2_strictly_increases(k2 + 1, k1);
        }
    }
    if v == 1 && k1 > 0 {
        lemma_pow2_strictly_increases(0, k1);
    }
}

/// A number other than zero has one decimal digit more than its base-10
/// logarithm.
pub proof fn lemma_decimal_length(v: nat, k: nat)
    requires
        is_floor_log(v, 10, k),
    ensures
        decimal_digits(v).len() == k + 1,
    decreases v,
{
    lemma_pow0(10);
    lemma_pow1(10);
    if v < 10 {
        lemma_pow_positive(10, k);
        lemma_floor_log_unique(v, 10, k, 0);
    } else {
        if k == 0 {
            assert(false);
        }
        let j = (k - 1) as nat;
        lemma_pow_adds(10, 1, j);
        lemma_pow_adds(10, 1, k);
        lemma_pow_positive(10, j);
        lemma_decimal_length(v / 10, j);
    }
}

} // verus!
