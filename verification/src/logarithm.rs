//! Integer logarithms.
use crate::radix::{
    le_value, lemma_value_bound, lemma_value_take_succ, lemma_value_zero_tail, pow256,
};
use crate::compare::{const_eq, const_lt};
use crate::divide::const_div_assign;
use crate::multiply::const_mul;
use crate::uint::{modulus, u206265, BYTES};
use vstd::arithmetic::div_mod::{
    lemma_basic_div, lemma_div_denominator, lemma_div_is_ordered, lemma_div_is_strictly_smaller,
    lemma_fundamental_div_mod, lemma_mod_bound,
};
use vstd::arithmetic::power::{lemma_pow0, lemma_pow1, lemma_pow_adds, pow};
use vstd::arithmetic::power2::{
    lemma2_to64, lemma_pow2_adds, lemma_pow2_pos, lemma_pow2_strictly_increases,
    lemma_pow2_unfold, pow2,
};
use vstd::bits::lemma_u32_shl_is_mul;
use vstd::prelude::*;

verus! {

/// Whether `k` is the base-2 logarithm of `v`, rounded down.
pub open spec fn is_floor_log2(v: nat, k: nat) -> bool {
    pow2(k) <= v < pow2(k + 1)
}

/// The logarithm of a number follows from that of its highest nonzero byte.
proof fn lemma_log2_from_top_byte(s: Seq<u8>, n: int, k: nat)
    requires
        1 <= n <= s.len(),
        forall|j: int| n <= j < s.len() ==> s[j] == 0,
        pow2(k) <= s[n - 1] < pow2(k + 1),
    ensures
        is_floor_log2(le_value(s), (8 * (n - 1) + k) as nat),
        k < 8,
{
    lemma_value_zero_tail(s, n);
    lemma_value_take_succ(s, n - 1);
    lemma_value_bound(s.take(n - 1));
    let p = pow256((n - 1) as nat);
    let top = s[n - 1] as nat;
    let low = le_value(s.take(n - 1));
    lemma_pow2_adds((8 * (n - 1)) as nat, k);
    lemma_pow2_adds((8 * (n - 1)) as nat, k + 1);
    assert(pow2(k) * p <= top * p) by (nonlinear_arith)
        requires
            pow2(k) <= top,
    ;
    assert(top * p + p <= pow2(k + 1) * p) by (nonlinear_arith)
        requires
            top + 1 <= pow2(k + 1),
    ;
    assert(p * pow2(k) == pow2(k) * p) by (nonlinear_arith);
    assert(p * pow2(k + 1) == pow2(k + 1) * p) by (nonlinear_arith);
    lemma2_to64();
    if k >= 8 {
        if k > 8 {
            lemma_pow2_strictly_increases(8, k);
        }
    }
}

/// The base-2 logarithm of `val`, rounded down; nothing for zero.
///
/// Much faster than the general logarithm with base 2.
pub fn const_ilog2(val: &u206265) -> (r: Option<u32>)
    ensures
        val@ == 0 <==> r is None,
        r matches Some(k) ==> is_floor_log2(val@, k as nat) && k < 206_265,
{
    let high_byte_pos = val.significant_bytes();
    let high_byte = val.0[high_byte_pos - 1];
    proof {
        assert(val.0@ == val.bytes());
        if high_byte == 0 {
            lemma_value_zero_tail(val.0@, 1);
            lemma_value_take_succ(val.0@, 0);
            assert(0 * pow256(0) == 0);
        }
    }
    let Some(high_byte_bit) = high_byte.checked_ilog2() else {
        return None;
    };
    proof {
        lemma_log2_from_top_byte(val.0@, high_byte_pos as int, high_byte_bit as nat);
        lemma2_to64();
        if high_byte_pos == BYTES {
            use_type_invariant(val);
            assert(high_byte_bit == 0) by {
                if high_byte_bit > 0 {
                    lemma_pow2_strictly_increases(0, high_byte_bit as nat);
                }
            }
        }
    }
    Some((val.significant_bytes_u32() - 1) * 8 + high_byte_bit)
}

/// Whether `k` is the logarithm of `v` to the base `base`, rounded down.
pub open spec fn is_floor_log(v: nat, base: nat, k: nat) -> bool {
    pow(base as int, k) <= v < pow(base as int, k + 1)
}

/// A power of a base of at least two is at least the same power of two.
proof fn lemma_pow_at_least_pow2(b: nat, e: nat)
    requires
        b >= 2,
    ensures
        pow(b as int, e) >= pow2(e),
        pow(b as int, e) >= 1,
    decreases e,
{
    lemma_pow2_pos(e);
    if e == 0 {
        lemma_pow0(b as int);
        lemma2_to64();
    } else {
        lemma_pow_at_least_pow2(b, (e - 1) as nat);
        lemma_pow_adds(b as int, 1, (e - 1) as nat);
        lemma_pow1(b as int);
        lemma_pow2_unfold(e);
        let x = pow(b as int, (e - 1) as nat);
        assert(b * x >= 2 * x) by (nonlinear_arith)
            requires
                b >= 2,
                x >= 0,
        ;
    }
}

/// The square of the power with exponent `2^j` is the power with exponent
/// `2^(j+1)`.
proof fn lemma_square_doubles(b: nat, j: nat)
    ensures
        pow(b as int, pow2(j)) * pow(b as int, pow2(j)) == pow(b as int, pow2(j + 1)),
{
    lemma_pow_adds(b as int, pow2(j), pow2(j));
    lemma_pow2_unfold(j + 1);
}

/// An exponent whose power of the base does not exceed an integer is below
/// the bit width.
proof fn lemma_exponent_bound(v: nat, b: nat, e: nat)
    requires
        b >= 2,
        pow(b as int, e) <= v,
        v < modulus(),
    ensures
        e < 206_265,
{
    lemma_pow_at_least_pow2(b, e);
    if e >= 206_265 {
        if e > 206_265 {
            lemma_pow2_strictly_increases(206_265, e);
        }
    }
}

/// Dividing the working value by one more power of the base.
proof fn lemma_log_step(v: nat, b: nat, e: nat, d: nat, w: nat)
    requires
        b >= 2,
        d >= 1,
        w == v / (pow(b as int, e) as nat),
        pow(b as int, d) <= w,
    ensures
        w / (pow(b as int, d) as nat) == v / (pow(b as int, e + d) as nat),
        w / (pow(b as int, d) as nat) >= 1,
        w / (pow(b as int, d) as nat) < w,
        pow(b as int, e + d) <= v,
{
    let pe = pow(b as int, e);
    let pd = pow(b as int, d);
    lemma_pow_at_least_pow2(b, e);
    lemma_pow_at_least_pow2(b, d);
    lemma_pow_adds(b as int, e, d);
    lemma_div_denominator(v as int, pe, pd);
    lemma_div_is_ordered(pd, w as int, pd);
    vstd::arithmetic::div_mod::lemma_div_by_self(pd);
    lemma_pow2_unfold(d);
    lemma_pow2_pos((d - 1) as nat);
    lemma_div_is_strictly_smaller(w as int, pd);
    assert(pe * pd > 0) by (nonlinear_arith)
        requires
            pe >= 1,
            pd >= 1,
    ;
    if v < pe * pd {
        lemma_basic_div(v as int, pe * pd);
    }
}

/// Once the working value is below the base, the exponent is the logarithm.
proof fn lemma_log_finish(v: nat, b: nat, e: nat, w: nat)
    requires
        b >= 2,
        w == v / (pow(b as int, e) as nat),
        1 <= w < b,
    ensures
        is_floor_log(v, b, e),
{
    let pe = pow(b as int, e);
    lemma_pow_at_least_pow2(b, e);
    lemma_pow_adds(b as int, e, 1);
    lemma_pow1(b as int);
    lemma_fundamental_div_mod(v as int, pe);
    lemma_mod_bound(v as int, pe);
    let r = v as int % pe;
    assert(pe * w >= pe) by (nonlinear_arith)
        requires
            w >= 1,
            pe >= 1,
    ;
    assert(pe * w + pe <= pe * b) by (nonlinear_arith)
        requires
            w + 1 <= b,
            pe >= 1,
    ;
}

/// The largest number of powers of the base that are kept: the base itself
/// and its repeated squares.
pub const MAX_SQUARES: usize = 17;

/// The logarithm of `val` to the base `base`, rounded down; nothing when
/// the base is below two or `val` is zero.
///
/// The squares `base^2`, `base^4`, `base^8`, ... are computed when they are
/// first needed and kept, at most [`MAX_SQUARES`] of them and none that
/// does not fit the width. The working value is divided by the largest of
/// them that does not exceed it, and the exponent of that power is added to
/// the result, until the working value is below the base.
pub fn const_ilog(val: &u206265, base: &u206265) -> (r: Option<u32>)
    ensures
        (base@ < 2 || val@ == 0) <==> r is None,
        r matches Some(k) ==> is_floor_log(val@, base@, k as nat),
{
    let zero = u206265::zero();
    let one = u206265::one();
    if !const_lt(&one, base) || const_eq(val, &zero) {
        return None;
    }
    if const_eq(val, &one) {
        proof {
            lemma_pow0(base@ as int);
            lemma_pow1(base@ as int);
        }
        return Some(0);
    }
    let mut work = val.const_clone();
    let mut res: u32 = 0;
    let mut powers: Vec<u206265> = Vec::new();
    powers.push(base.const_clone());
    let mut full = false;
    proof {
        lemma2_to64();
        lemma_pow1(base@ as int);
        lemma_pow0(base@ as int);
        val.lemma_wf();
        use_type_invariant(val);
    }
    while !const_lt(&work, base)
        invariant
            base@ >= 2,
            val@ < modulus(),
            1 <= powers.len() <= MAX_SQUARES,
            forall|j: int| 0 <= j < powers.len() ==> (#[trigger] powers[j])@ == pow(
                base@ as int,
                pow2(j as nat),
            ),
            work@ == val@ / (pow(base@ as int, res as nat) as nat),
            work@ >= 1,
            pow(base@ as int, res as nat) <= val@,
        decreases work@,
    {
        let mut level: usize = 0;
        proof {
            lemma2_to64();
            lemma_pow1(base@ as int);
        }
        loop
            invariant
                base@ >= 2,
                level < powers.len() <= MAX_SQUARES,
                forall|j: int| 0 <= j < powers.len() ==> (#[trigger] powers[j])@ == pow(
                    base@ as int,
                    pow2(j as nat),
                ),
                powers[level as int]@ <= work@,
            decreases MAX_SQUARES - level,
        {
            if level + 1 == powers.len() {
                if full || powers.len() == MAX_SQUARES {
                    break ;
                }
                let (square, overflow) = const_mul(&powers[level], &powers[level]);
                if overflow {
                    full = true;
                    break ;
                }
                proof {
                    lemma_square_doubles(base@, level as nat);
                    lemma_pow_at_least_pow2(base@, pow2(level as nat));
                    lemma_pow_at_least_pow2(base@, pow2((level + 1) as nat));
                    vstd::arithmetic::div_mod::lemma_small_mod(
                        powers[level as int]@ * powers[level as int]@,
                        modulus(),
                    );
                }
                powers.push(square);
            }
            if const_lt(&work, &powers[level + 1]) {
                break ;
            }
            level += 1;
        }
        proof {
            lemma_pow2_pos(level as nat);
            lemma_pow_at_least_pow2(base@, pow2(level as nat));
            lemma_log_step(val@, base@, res as nat, pow2(level as nat), work@);
            lemma_exponent_bound(val@, base@, res as nat + pow2(level as nat));
            lemma2_to64();
            if level < 16 {
                lemma_pow2_strictly_increases(level as nat, 16);
            }
            lemma_u32_shl_is_mul(1, level as u32);
        }
        const_div_assign(&mut work, &powers[level]);
        res += 1u32 << (level as u32);
    }
    proof {
        lemma_log_finish(val@, base@, res as nat, work@);
    }
    Some(res)
}

/// The base-10 logarithm of `val`, rounded down; nothing for zero.
pub fn const_ilog10(val: &u206265) -> (r: Option<u32>)
    ensures
        val@ == 0 <==> r is None,
        r matches Some(k) ==> is_floor_log(val@, 10, k as nat),
{
    let ten = u206265::from_u8(10);
    const_ilog(val, &ten)
}

} // verus!
