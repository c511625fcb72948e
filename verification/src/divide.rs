//! Division with remainder: binary long division by trial subtraction of
//! shifted divisors.
use crate::additive::{const_add, const_sub};
use crate::compare::const_lt;
use crate::logarithm::{const_ilog2, is_floor_log2};
use crate::radix::{lemma_pow256_adds, lemma_pow256_monotonic, lemma_pow256_zero, pow256};
use crate::shift::{const_shl, BITS_U32};
use crate::uint::{modulus, u206265};
use vstd::arithmetic::div_mod::{lemma_fundamental_div_mod_converse, lemma_small_mod};
use vstd::arithmetic::power2::{lemma2_to64, lemma_pow2_adds, lemma_pow2_pos, pow2};
use vstd::prelude::*;

verus! {

/// Before the first step the dividend is below the divisor shifted by the
/// number of bit positions that the byte lengths give.
proof fn lemma_division_start(a: nat, b: nat, la: nat, lb: nat, bits: nat)
    requires
        1 <= la,
        1 <= lb,
        a < pow256(la),
        b >= pow256((lb - 1) as nat),
        bits == 8 * ((if la >= lb {
            la - lb
        } else {
            0
        }) + 2),
    ensures
        a < b * pow2(bits),
{
    let d: nat = if la >= lb {
        (la - lb) as nat
    } else {
        0
    };
    let pb = pow256((lb - 1) as nat);
    let pd = pow256(d + 2);
    lemma_pow256_adds((lb - 1) as nat, d + 2);
    lemma_pow256_monotonic(la, lb + d + 1);
    assert(b * pd >= pb * pd) by (nonlinear_arith)
        requires
            b >= pb,
    ;
}

/// A divisor shifted into the top of the width exceeds every integer.
proof fn lemma_division_start_capped(a: nat, b: nat, k: nat)
    requires
        a < modulus(),
        k < 206_265,
        pow2(k) <= b,
    ensures
        a < b * pow2((206_265 - k) as nat),
{
    let s = (206_265 - k) as nat;
    lemma_pow2_adds(k, s);
    assert(b * pow2(s) >= pow2(k) * pow2(s)) by (nonlinear_arith)
        requires
            b >= pow2(k),
    ;
}

/// A divisor shifted by fewer bits than the width leaves above it is not
/// cut by the shift.
proof fn lemma_probe_fits(b: nat, k: nat, bit: nat)
    requires
        b < pow2(k + 1),
        bit + k + 1 <= 206_265,
    ensures
        b * pow2(bit) < modulus(),
        pow2(bit) < modulus(),
        (b * pow2(bit % 206_265)) % modulus() == b * pow2(bit),
        (1 * pow2(bit % 206_265)) % modulus() == pow2(bit),
{
    lemma_pow2_adds(k + 1, bit);
    lemma_pow2_pos(bit);
    assert(b * pow2(bit) < pow2(k + 1) * pow2(bit)) by (nonlinear_arith)
        requires
            b < pow2(k + 1),
            pow2(bit) > 0,
    ;
    if bit + k + 1 < 206_265 {
        vstd::arithmetic::power2::lemma_pow2_strictly_increases(bit + k + 1, 206_265);
    }
    if bit < 206_265 {
        vstd::arithmetic::power2::lemma_pow2_strictly_increases(bit, 206_265);
    }
    lemma_small_mod(bit, 206_265);
    lemma_small_mod(b * pow2(bit), modulus());
    lemma_small_mod(pow2(bit), modulus());
}

/// One step of the long division that subtracts the shifted divisor.
proof fn lemma_division_step(a: nat, b: nat, q: nat, r: nat, bit: nat)
    requires
        a == q * b + r,
        a < modulus(),
        b >= 1,
        r >= b * pow2(bit),
        r < b * pow2(bit + 1),
    ensures
        a == (q + pow2(bit)) * b + (r - b * pow2(bit)),
        r - b * pow2(bit) < b * pow2(bit),
        q + pow2(bit) < modulus(),
{
    let p = pow2(bit);
    lemma_pow2_adds(bit, 1);
    lemma2_to64();
    assert((q + p) * b == q * b + b * p) by (nonlinear_arith);
    assert(b * (p * 2) == 2 * (b * p)) by (nonlinear_arith);
    assert(q + p <= (q + p) * b) by (nonlinear_arith)
        requires
            b >= 1,
    ;
}

/// Divides `lhs` by `rhs`.
///
/// Returns the quotient and the remainder, or nothing when `rhs` is zero.
///
/// The divisor is shifted to every bit position from the highest that the
/// byte lengths of the operands allow down to zero, and subtracted from the
/// remainder wherever it does not exceed it. Positions at which the shifted
/// divisor would not fit the width are left out: there it exceeds every
/// remainder.
pub fn const_div_rem(lhs: &u206265, rhs: &u206265) -> (r: Option<(u206265, u206265)>)
    ensures
        rhs@ == 0 <==> r is None,
        r matches Some((quotient, remainder)) ==> quotient@ == lhs@ / rhs@ && remainder@ == lhs@
            % rhs@,
{
    let Some(rhs_log) = const_ilog2(rhs) else {
        return None;
    };
    let lhs_bytes = lhs.significant_bytes();
    let rhs_bytes = rhs.significant_bytes();
    let byte_gap = if lhs_bytes >= rhs_bytes {
        lhs_bytes - rhs_bytes
    } else {
        0
    };
    let significant_bits = ((byte_gap + 2) * 8) as u32;
    let mut bit = if significant_bits > BITS_U32 - rhs_log {
        BITS_U32 - rhs_log
    } else {
        significant_bits
    };
    let mut remainder = lhs.const_clone();
    let mut result = u206265::zero();
    let one = u206265::one();
    proof {
        lhs.lemma_wf();
        use_type_invariant(lhs);
        if significant_bits > BITS_U32 - rhs_log {
            lemma_division_start_capped(lhs@, rhs@, rhs_log as nat);
        } else {
            lemma_pow256_zero();
            lemma_pow2_pos(rhs_log as nat);
            lemma_division_start(
                lhs@,
                rhs@,
                lhs_bytes as nat,
                rhs_bytes as nat,
                significant_bits as nat,
            );
        }
        assert(0 * rhs@ == 0);
    }
    while bit > 0
        invariant
            bit + rhs_log <= 206_265,
            is_floor_log2(rhs@, rhs_log as nat),
            lhs@ < modulus(),
            one@ == 1,
            lhs@ == result@ * rhs@ + remainder@,
            remainder@ < rhs@ * pow2(bit as nat),
        decreases bit,
    {
        bit -= 1;
        let (probe, _) = const_shl(rhs, bit);
        proof {
            lemma_probe_fits(rhs@, rhs_log as nat, bit as nat);
            lemma_pow2_pos(rhs_log as nat);
        }
        if const_lt(&remainder, &probe) {
            continue ;
        }
        proof {
            lemma_division_step(lhs@, rhs@, result@, remainder@, bit as nat);
            lemma_small_mod((remainder@ - probe@) as nat, modulus());
            lemma_small_mod(result@ + pow2(bit as nat), modulus());
        }
        remainder = const_sub(&remainder, &probe).0;
        let res_add = const_shl(&one, bit).0;
        result = const_add(&result, &res_add).0;
    }
    proof {
        lemma2_to64();
        assert(rhs@ * 1 == rhs@);
        assert(result@ * rhs@ == rhs@ * result@) by (nonlinear_arith);
        lemma_pow2_pos(rhs_log as nat);
        lemma_fundamental_div_mod_converse(
            lhs@ as int,
            rhs@ as int,
            result@ as int,
            remainder@ as int,
        );
    }
    Some((result, remainder))
}

/// Divides `lhs` by `rhs`; nothing when `rhs` is zero.
pub fn const_div(lhs: &u206265, rhs: &u206265) -> (r: Option<u206265>)
    ensures
        rhs@ == 0 <==> r is None,
        r matches Some(quotient) ==> quotient@ == lhs@ / rhs@,
{
    if let Some((result, _)) = const_div_rem(lhs, rhs) {
        Some(result)
    } else {
        None
    }
}

/// The remainder of `lhs` divided by `rhs`; nothing when `rhs` is zero.
pub fn const_rem(lhs: &u206265, rhs: &u206265) -> (r: Option<u206265>)
    ensures
        rhs@ == 0 <==> r is None,
        r matches Some(remainder) ==> remainder@ == lhs@ % rhs@,
{
    if let Some((_, result)) = const_div_rem(lhs, rhs) {
        Some(result)
    } else {
        None
    }
}

/// Divides `lhs` by `rhs` in place. The divisor must not be zero.
pub fn const_div_assign(lhs: &mut u206265, rhs: &u206265)
    requires
        rhs@ != 0,
    ensures
        final(lhs)@ == old(lhs)@ / rhs@,
{
    if let Some(result) = const_div(lhs, rhs) {
        *lhs = result;
    }
}

/// Replaces `lhs` by its remainder when divided by `rhs`. The divisor must
/// not be zero.
pub fn const_rem_assign(lhs: &mut u206265, rhs: &u206265)
    requires
        rhs@ != 0,
    ensures
        final(lhs)@ == old(lhs)@ % rhs@,
{
    if let Some(result) = const_rem(lhs, rhs) {
        *lhs = result;
    }
}

} // verus!
