//! Addition and subtraction with carry and borrow propagation.
use crate::radix::{
    le_value, lemma_pow256_monotonic, lemma_pow256_succ, lemma_value_bound,
    lemma_value_take_succ, lemma_value_zero_tail, pow256,
};
use crate::uint::{lemma_modulus, modulus, u206265, BYTES};
use vstd::arithmetic::div_mod::{lemma_fundamental_div_mod_converse, lemma_small_mod};
use vstd::prelude::*;

verus! {

/// The sum of two numbers, reduced to the width of the integer.
pub open spec fn wrapping_sum(a: nat, b: nat) -> nat {
    (a + b) % modulus()
}

/// Whether the sum of two numbers is too large for the integer.
pub open spec fn sum_overflows(a: nat, b: nat) -> bool {
    a + b >= modulus()
}

/// One step of the carry chain: byte `i` of the sum and the carry out of it
/// extend the partial sum by one position.
proof fn lemma_carry_step(
    r0: Seq<u8>,
    r1: Seq<u8>,
    a: Seq<u8>,
    b: Seq<u8>,
    i: int,
    c0: nat,
    c1: nat,
)
    requires
        0 <= i < a.len(),
        a.len() == b.len(),
        a.len() == r0.len(),
        a.len() == r1.len(),
        r1.take(i) == r0.take(i),
        le_value(r0.take(i)) + c0 * pow256(i as nat) == le_value(a.take(i)) + le_value(b.take(i)),
        r1[i] as nat + 256 * c1 == c0 + a[i] as nat + b[i] as nat,
    ensures
        le_value(r1.take(i + 1)) + c1 * pow256((i + 1) as nat) == le_value(a.take(i + 1))
            + le_value(b.take(i + 1)),
{
    let p = pow256(i as nat);
    lemma_value_take_succ(r1, i);
    lemma_value_take_succ(a, i);
    lemma_value_take_succ(b, i);
    lemma_pow256_succ(i as nat);
    let s = r1[i] as nat;
    let x = a[i] as nat;
    let y = b[i] as nat;
    assert(s * p + c1 * (256 * p) == c0 * p + x * p + y * p) by (nonlinear_arith)
        requires
            s + 256 * c1 == c0 + x + y,
    ;
}

/// When both operands end below the top byte, the chain ends without a
/// carry and the sum fits.
proof fn lemma_carry_short(r: Seq<u8>, a: Seq<u8>, b: Seq<u8>, longest: int, c: nat)
    requires
        a.len() == BYTES,
        b.len() == BYTES,
        r.len() == BYTES,
        1 <= longest < BYTES - 1,
        forall|j: int| longest <= j < BYTES ==> a[j] == 0,
        forall|j: int| longest <= j < BYTES ==> b[j] == 0,
        forall|j: int| longest < j < BYTES ==> r[j] == 0,
        le_value(r.take(longest + 1)) + c * pow256((longest + 1) as nat) == le_value(
            a.take(longest + 1),
        ) + le_value(b.take(longest + 1)),
    ensures
        le_value(r) == le_value(a) + le_value(b),
        le_value(a) + le_value(b) < modulus(),
        le_value(r) == wrapping_sum(le_value(a), le_value(b)),
        !sum_overflows(le_value(a), le_value(b)),
{
    let n = longest + 1;
    let p = pow256(longest as nat);
    lemma_value_zero_tail(a, longest);
    lemma_value_zero_tail(b, longest);
    lemma_value_zero_tail(a, n);
    lemma_value_zero_tail(b, n);
    lemma_value_bound(a.take(longest));
    lemma_value_bound(b.take(longest));
    lemma_pow256_succ(longest as nat);
    lemma_value_zero_tail(r, n);
    let total = le_value(a) + le_value(b);
    let low = le_value(r.take(n));
    assert(c == 0) by (nonlinear_arith)
        requires
            low + c * (256 * p) == total,
            total < 2 * p,
    ;
    lemma_pow256_monotonic(n as nat, (BYTES - 1) as nat);
    lemma_modulus();
    lemma_small_mod(total, modulus());
}

/// When the chain reaches the top byte, the sum overflows exactly when the
/// top byte would hold 2 or 3, and the stored byte drops that excess.
proof fn lemma_carry_top(r: Seq<u8>, a: Seq<u8>, b: Seq<u8>, c: nat, top: nat)
    requires
        a.len() == BYTES,
        b.len() == BYTES,
        r.len() == BYTES,
        le_value(r.take(BYTES - 1)) + c * pow256((BYTES - 1) as nat) == le_value(
            a.take(BYTES - 1),
        ) + le_value(b.take(BYTES - 1)),
        top == c + a[BYTES - 1] as nat + b[BYTES - 1] as nat,
        top <= 3,
        r[BYTES - 1] as nat == if top >= 2 {
            (top - 2) as nat
        } else {
            top
        },
    ensures
        le_value(r) == wrapping_sum(le_value(a), le_value(b)),
        (top >= 2) == sum_overflows(le_value(a), le_value(b)),
{
    let p = pow256((BYTES - 1) as nat);
    let low = le_value(r.take(BYTES - 1));
    lemma_modulus();
    lemma_value_bound(r.take(BYTES - 1));
    lemma_value_take_succ(r, BYTES - 1);
    lemma_value_take_succ(a, BYTES - 1);
    lemma_value_take_succ(b, BYTES - 1);
    assert(r.take(BYTES as int) =~= r);
    assert(a.take(BYTES as int) =~= a);
    assert(b.take(BYTES as int) =~= b);
    let total = le_value(a) + le_value(b);
    let x = a[BYTES - 1] as nat;
    let y = b[BYTES - 1] as nat;
    assert(top * p == c * p + x * p + y * p) by (nonlinear_arith)
        requires
            top == c + x + y,
    ;
    assert(total == low + top * p);
    if top >= 2 {
        let t2 = (top - 2) as nat;
        assert(top * p == t2 * p + 2 * p) by (nonlinear_arith)
            requires
                top == t2 + 2,
        ;
        assert(t2 * p <= p) by (nonlinear_arith)
            requires
                t2 <= 1,
        ;
        lemma_fundamental_div_mod_converse(total as int, modulus() as int, 1, total - modulus());
    } else {
        assert(top * p <= p) by (nonlinear_arith)
            requires
                top <= 1,
        ;
        lemma_small_mod(total, modulus());
    }
}

/// Adds `rhs` to `lhs` in place, keeping the low 206265 bits of the sum.
///
/// Returns whether the true sum did not fit.
pub fn const_add_assign(lhs: &mut u206265, rhs: &u206265) -> (overflow: bool)
    ensures
        final(lhs)@ == wrapping_sum(old(lhs)@, rhs@),
        overflow == sum_overflows(old(lhs)@, rhs@),
{
    let lhs_bytes = lhs.significant_bytes();
    let rhs_bytes = rhs.significant_bytes();
    let longest = if lhs_bytes > rhs_bytes {
        lhs_bytes
    } else {
        rhs_bytes
    };
    let limit = if longest < BYTES - 1 {
        longest + 1
    } else {
        BYTES - 1
    };
    let ghost a = lhs.0@;
    let ghost b = rhs.0@;
    proof {
        use_type_invariant(&*lhs);
        use_type_invariant(rhs);
        assert(a.take(0) =~= b.take(0));
        assert(a == lhs.bytes());
        assert(b == rhs.bytes());
    }
    let mut carry: u8 = 0;
    let mut i: usize = 0;
    while i < limit
        invariant
            i <= limit < BYTES,
            carry <= 1,
            lhs.0[BYTES - 1] <= 1,
            a.len() == BYTES,
            b == rhs.0@,
            le_value(lhs.0@.take(i as int)) + carry as nat * pow256(i as nat) == le_value(
                a.take(i as int),
            ) + le_value(b.take(i as int)),
            forall|j: int| i <= j < BYTES ==> #[trigger] lhs.0@[j] == a[j],
        decreases limit - i,
    {
        let ghost before = lhs.0@;
        let ghost carry_in = carry as nat;
        let (sum, first) = carry.overflowing_add(lhs.0[i]);
        let (sum, second) = sum.overflowing_add(rhs.0[i]);
        carry = if first || second {
            1
        } else {
            0
        };
        lhs.0[i] = sum;
        proof {
            assert(lhs.0@.take(i as int) =~= before.take(i as int));
            lemma_carry_step(before, lhs.0@, a, b, i as int, carry_in, carry as nat);
        }
        i += 1;
    }
    if longest >= BYTES - 1 {
        let ghost before = lhs.0@;
        let top: u8 = carry + lhs.0[BYTES - 1] + rhs.0[BYTES - 1];
        let overflow = top >= 2;
        lhs.0[BYTES - 1] = if overflow {
            top - 2
        } else {
            top
        };
        proof {
            assert(lhs.0@.take(BYTES - 1) =~= before.take(BYTES - 1));
            lemma_carry_top(lhs.0@, a, b, carry as nat, top as nat);
        }
        overflow
    } else {
        proof {
            lemma_carry_short(lhs.0@, a, b, longest as int, carry as nat);
        }
        false
    }
}

/// Adds `rhs` to `lhs`, keeping the low 206265 bits of the sum.
///
/// Returns the sum and whether the true sum did not fit.
pub fn const_add(lhs: &u206265, rhs: &u206265) -> (r: (u206265, bool))
    ensures
        r.0@ == wrapping_sum(lhs@, rhs@),
        r.1 == sum_overflows(lhs@, rhs@),
{
    let mut result = lhs.const_clone();
    let overflow = const_add_assign(&mut result, rhs);
    (result, overflow)
}

/// The difference of two numbers, reduced to the width of the integer.
pub open spec fn wrapping_difference(a: nat, b: nat) -> nat {
    ((a - b) % (modulus() as int)) as nat
}

/// Whether the difference of two numbers is negative.
pub open spec fn difference_underflows(a: nat, b: nat) -> bool {
    a < b
}

/// One step of the borrow chain: byte `i` of the difference and the borrow
/// out of it extend the partial difference by one position.
proof fn lemma_borrow_step(
    r0: Seq<u8>,
    r1: Seq<u8>,
    a: Seq<u8>,
    b: Seq<u8>,
    i: int,
    c0: nat,
    c1: nat,
)
    requires
        0 <= i < a.len(),
        a.len() == b.len(),
        a.len() == r0.len(),
        a.len() == r1.len(),
        r1.take(i) == r0.take(i),
        le_value(r0.take(i)) + le_value(b.take(i)) == le_value(a.take(i)) + c0 * pow256(i as nat),
        r1[i] as nat + c0 + b[i] as nat == a[i] as nat + 256 * c1,
    ensures
        le_value(r1.take(i + 1)) + le_value(b.take(i + 1)) == le_value(a.take(i + 1)) + c1
            * pow256((i + 1) as nat),
{
    let p = pow256(i as nat);
    lemma_value_take_succ(r1, i);
    lemma_value_take_succ(a, i);
    lemma_value_take_succ(b, i);
    lemma_pow256_succ(i as nat);
    let s = r1[i] as nat;
    let x = a[i] as nat;
    let y = b[i] as nat;
    assert(s * p + c0 * p + y * p == x * p + c1 * (256 * p)) by (nonlinear_arith)
        requires
            s + c0 + y == x + 256 * c1,
    ;
}

/// At the top byte the difference is negative exactly when the byte
/// borrows, and the stored bit is the low bit of the wrapped byte.
proof fn lemma_borrow_top(r: Seq<u8>, a: Seq<u8>, b: Seq<u8>, c: nat, under: bool)
    requires
        a.len() == BYTES,
        b.len() == BYTES,
        r.len() == BYTES,
        a[BYTES - 1] <= 1,
        b[BYTES - 1] <= 1,
        c <= 1,
        le_value(r.take(BYTES - 1)) + le_value(b.take(BYTES - 1)) == le_value(a.take(BYTES - 1))
            + c * pow256((BYTES - 1) as nat),
        under == ((a[BYTES - 1] as nat) < c + b[BYTES - 1] as nat),
        r[BYTES - 1] as nat + c + b[BYTES - 1] as nat == a[BYTES - 1] as nat + if under {
            2nat
        } else {
            0nat
        },
    ensures
        le_value(r) == wrapping_difference(le_value(a), le_value(b)),
        under == difference_underflows(le_value(a), le_value(b)),
{
    let p = pow256((BYTES - 1) as nat);
    let low = le_value(r.take(BYTES - 1));
    lemma_modulus();
    lemma_value_bound(r.take(BYTES - 1));
    lemma_value_take_succ(r, BYTES - 1);
    lemma_value_take_succ(a, BYTES - 1);
    lemma_value_take_succ(b, BYTES - 1);
    assert(r.take(BYTES as int) =~= r);
    assert(a.take(BYTES as int) =~= a);
    assert(b.take(BYTES as int) =~= b);
    let x = a[BYTES - 1] as nat;
    let y = b[BYTES - 1] as nat;
    let t = r[BYTES - 1] as nat;
    let diff = le_value(a) - le_value(b);
    if under {
        assert(t * p + c * p + y * p == x * p + 2 * p) by (nonlinear_arith)
            requires
                t + c + y == x + 2,
        ;
        assert(t * p <= p) by (nonlinear_arith)
            requires
                t <= 1,
        ;
        assert(le_value(r) == diff + modulus());
        assert(diff < 0 && diff + modulus() >= 0);
        lemma_fundamental_div_mod_converse(diff, modulus() as int, -1, diff + modulus());
    } else {
        assert(t * p + c * p + y * p == x * p) by (nonlinear_arith)
            requires
                t + c + y == x,
        ;
        assert(t * p <= p) by (nonlinear_arith)
            requires
                t <= 1,
        ;
        assert(le_value(r) == diff);
        lemma_small_mod(diff as nat, modulus());
    }
}

/// Subtracts `rhs` from `lhs` in place, keeping the low 206265 bits of the
/// difference.
///
/// Returns whether the true difference was negative.
pub fn const_sub_assign(lhs: &mut u206265, rhs: &u206265) -> (underflow: bool)
    ensures
        final(lhs)@ == wrapping_difference(old(lhs)@, rhs@),
        underflow == difference_underflows(old(lhs)@, rhs@),
{
    let ghost a = lhs.0@;
    let ghost b = rhs.0@;
    proof {
        use_type_invariant(&*lhs);
        use_type_invariant(rhs);
        assert(a.take(0) =~= b.take(0));
    }
    let mut borrow: u8 = 0;
    let mut i: usize = 0;
    while i < BYTES - 1
        invariant
            i <= BYTES - 1,
            borrow <= 1,
            lhs.0[BYTES - 1] <= 1,
            a.len() == BYTES,
            b == rhs.0@,
            le_value(lhs.0@.take(i as int)) + le_value(b.take(i as int)) == le_value(
                a.take(i as int),
            ) + borrow as nat * pow256(i as nat),
            forall|j: int| i <= j < BYTES ==> #[trigger] lhs.0@[j] == a[j],
        decreases BYTES - 1 - i,
    {
        let ghost before = lhs.0@;
        let ghost borrow_in = borrow as nat;
        let (sub, first) = lhs.0[i].overflowing_sub(borrow);
        let (sub, second) = sub.overflowing_sub(rhs.0[i]);
        borrow = if first || second {
            1
        } else {
            0
        };
        lhs.0[i] = sub;
        proof {
            assert(lhs.0@.take(i as int) =~= before.take(i as int));
            lemma_borrow_step(before, lhs.0@, a, b, i as int, borrow_in, borrow as nat);
        }
        i += 1;
    }
    let ghost before = lhs.0@;
    assert(lhs.0@[BYTES - 1] == a[BYTES - 1]);
    let (sub, first) = lhs.0[BYTES - 1].overflowing_sub(borrow);
    let (sub, second) = sub.overflowing_sub(rhs.0[BYTES - 1]);
    let last = sub & 0x01;
    let underflow = sub & 0xFE != 0;
    proof {
        assert(sub & 0x01 == sub % 2) by (bit_vector);
        assert((sub & 0xFE != 0) == (sub >= 2)) by (bit_vector);
    }
    lhs.0[BYTES - 1] = last;
    proof {
        assert(lhs.0@.take(BYTES - 1) =~= before.take(BYTES - 1));
        lemma_borrow_top(lhs.0@, a, b, borrow as nat, underflow);
    }
    underflow
}

/// Subtracts `rhs` from `lhs`, keeping the low 206265 bits of the
/// difference.
///
/// Returns the difference and whether the true difference was negative.
pub fn const_sub(lhs: &u206265, rhs: &u206265) -> (r: (u206265, bool))
    ensures
        r.0@ == wrapping_difference(lhs@, rhs@),
        r.1 == difference_underflows(lhs@, rhs@),
{
    let mut result = lhs.const_clone();
    let underflow = const_sub_assign(&mut result, rhs);
    (result, underflow)
}

} // verus!
