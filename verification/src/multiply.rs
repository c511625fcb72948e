//! Schoolbook multiplication, one output byte at a time.
use crate::radix::{
    le_value, lemma_pow256_adds, lemma_pow256_monotonic, lemma_pow256_succ,
    lemma_value_bound, lemma_value_split, lemma_value_take_succ, lemma_value_zero_tail,
    lemma_value_zeros, pow256,
};
use crate::uint::{lemma_modulus, modulus, u206265, BYTES};
use vstd::arithmetic::div_mod::{lemma_fundamental_div_mod_converse, lemma_small_mod};
use vstd::prelude::*;

verus! {

/// The product of two numbers, reduced to the width of the integer.
pub open spec fn wrapping_product(a: nat, b: nat) -> nat {
    (a * b) % modulus()
}

/// Whether the product of two numbers is too large for the integer.
pub open spec fn product_overflows(a: nat, b: nat) -> bool {
    a * b >= modulus()
}

/// The sum of the byte products `a[i] * b[p - i]` over `i < k`: what column
/// `p` of the schoolbook scheme collects from the first `k` bytes of `a`.
pub open spec fn column(a: Seq<u8>, b: Seq<u8>, p: int, k: int) -> nat
    decreases k,
{
    if k <= 0 {
        0
    } else {
        column(a, b, p, k - 1) + a[k - 1] as nat * b[p - (k - 1)] as nat
    }
}

/// The part of the product that lies in the columns below `n`, taken over
/// the first `k` bytes of `a`.
pub open spec fn low_part(a: Seq<u8>, b: Seq<u8>, n: int, k: int) -> nat
    decreases k,
{
    if k <= 0 {
        0
    } else {
        low_part(a, b, n, k - 1) + a[k - 1] as nat * pow256((k - 1) as nat) * le_value(
            b.take(n - (k - 1)),
        )
    }
}

/// The part of the product that lies in the columns from `n` on, in units
/// of `256^n`, taken over the first `k` bytes of `a`.
pub open spec fn high_part(a: Seq<u8>, b: Seq<u8>, n: int, k: int) -> nat
    decreases k,
{
    if k <= 0 {
        0
    } else {
        high_part(a, b, n, k - 1) + a[k - 1] as nat * le_value(b.skip(n - (k - 1)))
    }
}

/// A column gains nothing from bytes of `a` that are zero.
proof fn lemma_column_zero_a(a: Seq<u8>, b: Seq<u8>, p: int, k1: int, k2: int)
    requires
        0 <= k1 <= k2 <= a.len(),
        forall|i: int| k1 <= i < k2 ==> a[i] == 0,
    ensures
        column(a, b, p, k2) == column(a, b, p, k1),
    decreases k2 - k1,
{
    if k1 < k2 {
        lemma_column_zero_a(a, b, p, k1, k2 - 1);
        assert(a[k2 - 1] == 0);
        assert(0 * b[p - (k2 - 1)] as nat == 0);
    }
}

/// A column gains nothing where the bytes of `b` that it meets are zero.
proof fn lemma_column_zero_b(a: Seq<u8>, b: Seq<u8>, p: int, k: int)
    requires
        0 <= k <= p + 1,
        p < b.len(),
        forall|j: int| p - k < j <= p ==> b[j] == 0,
    ensures
        column(a, b, p, k) == 0,
    decreases k,
{
    if k > 0 {
        lemma_column_zero_b(a, b, p, k - 1);
        assert(b[p - (k - 1)] == 0);
        assert(a[k - 1] as nat * 0 == 0);
    }
}

/// A column of at most `k` byte products is at most `k` times the largest
/// byte product.
proof fn lemma_column_bound(a: Seq<u8>, b: Seq<u8>, p: int, k: int)
    requires
        0 <= k,
    ensures
        column(a, b, p, k) <= k * 65025,
    decreases k,
{
    if k > 0 {
        lemma_column_bound(a, b, p, k - 1);
        let x = a[k - 1] as nat;
        let y = b[p - (k - 1)] as nat;
        assert(x * y <= 65025) by (nonlinear_arith)
            requires
                x <= 255,
                y <= 255,
        ;
    }
}

/// Taking one more column into the low part adds that column at its weight.
proof fn lemma_low_part_next_column(a: Seq<u8>, b: Seq<u8>, n: int, k: int)
    requires
        0 <= k <= n + 1,
        n < b.len(),
    ensures
        low_part(a, b, n + 1, k) == low_part(a, b, n, k) + pow256(n as nat) * column(a, b, n, k),
    decreases k,
{
    if k <= 0 {
        assert(pow256(n as nat) * 0 == 0);
    } else {
        let i = k - 1;
        lemma_low_part_next_column(a, b, n, i);
        let m = n - i;
        let x = a[i] as nat;
        let y = b[m] as nat;
        let pi = pow256(i as nat);
        let pm = pow256(m as nat);
        let pn = pow256(n as nat);
        lemma_pow256_adds(i as nat, m as nat);
        if i == n {
            assert(b.take(0).len() == 0);
            assert(b.take(n - i) =~= b.take(0));
        }
        lemma_value_take_succ(b, m);
        let v = le_value(b.take(m));
        let c = column(a, b, n, i);
        assert(x * pi * (v + y * pm) + pn * c == x * pi * v + pn * (c + x * y)) by (nonlinear_arith)
            requires
                pn == pi * pm,
        ;
    }
}

/// Going from `n` columns to `n + 1` adds column `n` at its weight.
proof fn lemma_low_part_advance(a: Seq<u8>, b: Seq<u8>, n: int)
    requires
        0 <= n < b.len(),
    ensures
        low_part(a, b, n + 1, n + 1) == low_part(a, b, n, n) + pow256(n as nat) * column(
            a,
            b,
            n,
            n + 1,
        ),
{
    lemma_low_part_next_column(a, b, n, n + 1);
    assert(b.take(n - n).len() == 0);
    let x = a[n] as nat * pow256(n as nat);
    assert(x * 0 == 0);
}

/// The low and the high part together are the product of the first `k`
/// bytes of `a` with all of `b`.
proof fn lemma_parts_make_product(a: Seq<u8>, b: Seq<u8>, n: int, k: int)
    requires
        0 <= k <= n,
        k <= a.len(),
        n <= b.len(),
    ensures
        low_part(a, b, n, k) + pow256(n as nat) * high_part(a, b, n, k) == le_value(a.take(k))
            * le_value(b),
    decreases k,
{
    if k <= 0 {
        assert(pow256(n as nat) * 0 == 0);
        assert(a.take(k).len() == 0);
        assert(0 * le_value(b) == 0);
    } else {
        let i = k - 1;
        lemma_parts_make_product(a, b, n, i);
        let m = n - i;
        let x = a[i] as nat;
        let pi = pow256(i as nat);
        let pm = pow256(m as nat);
        let pn = pow256(n as nat);
        lemma_pow256_adds(i as nat, m as nat);
        lemma_value_split(b, m);
        lemma_value_take_succ(a, i);
        let lo = le_value(b.take(m));
        let hi = le_value(b.skip(m));
        let l = low_part(a, b, n, i);
        let h = high_part(a, b, n, i);
        let av = le_value(a.take(i));
        let bv = le_value(b);
        assert(l + x * pi * lo + pn * (h + x * hi) == (av + x * pi) * bv) by (nonlinear_arith)
            requires
                l + pn * h == av * bv,
                bv == lo + pm * hi,
                pn == pi * pm,
        ;
    }
}

/// Nothing lies in the columns from `n` on when the operands are short
/// enough.
proof fn lemma_high_part_zero(a: Seq<u8>, b: Seq<u8>, n: int, k: int, la: int, lb: int)
    requires
        0 <= k <= n,
        k <= a.len(),
        n <= b.len(),
        0 <= la,
        0 <= lb,
        la + lb <= n + 1,
        forall|i: int| la <= i < a.len() ==> a[i] == 0,
        forall|j: int| lb <= j < b.len() ==> b[j] == 0,
    ensures
        high_part(a, b, n, k) == 0,
    decreases k,
{
    if k > 0 {
        let i = k - 1;
        lemma_high_part_zero(a, b, n, i, la, lb);
        if i < la {
            lemma_value_zeros(b.skip(n - i));
            assert(a[i] as nat * 0 == 0);
        } else {
            assert(a[i] == 0);
            assert(0 * le_value(b.skip(n - i)) == 0);
        }
    }
}

/// The largest carry that can pass from one column to the next.
pub const MAX_CARRY: u32 = 6_574_920;

/// The product of short operands: it fits, the chain ends without a carry,
/// and the bytes written are the bytes of the product.
proof fn lemma_product_short(r: Seq<u8>, a: Seq<u8>, b: Seq<u8>, n: int, la: int, lb: int, c: nat)
    requires
        a.len() == BYTES,
        b.len() == BYTES,
        r.len() == BYTES,
        1 <= la,
        1 <= lb,
        n == la + lb + 2,
        n <= BYTES,
        forall|i: int| la <= i < BYTES ==> a[i] == 0,
        forall|j: int| lb <= j < BYTES ==> b[j] == 0,
        forall|j: int| n <= j < BYTES ==> r[j] == 0,
        le_value(r.take(n)) + c * pow256(n as nat) == low_part(a, b, n, n),
    ensures
        le_value(r) == wrapping_product(le_value(a), le_value(b)),
        !product_overflows(le_value(a), le_value(b)),
        r[BYTES - 1] == 0 || n == BYTES,
        n == BYTES ==> r[BYTES - 1] <= 1,
{
    let av = le_value(a);
    let bv = le_value(b);
    lemma_parts_make_product(a, b, n, n);
    lemma_high_part_zero(a, b, n, n, la, lb);
    assert(pow256(n as nat) * 0 == 0);
    lemma_value_zero_tail(a, n);
    lemma_value_zero_tail(a, la);
    lemma_value_zero_tail(b, lb);
    lemma_value_zero_tail(r, n);
    lemma_value_bound(a.take(la));
    lemma_value_bound(b.take(lb));
    lemma_pow256_adds(la as nat, lb as nat);
    let pa = pow256(la as nat);
    let pb = pow256(lb as nat);
    assert(av * bv < pa * pb) by (nonlinear_arith)
        requires
            av < pa,
            bv < pb,
    ;
    lemma_pow256_monotonic((la + lb) as nat, n as nat);
    lemma_pow256_monotonic((la + lb) as nat, (BYTES - 1) as nat);
    lemma_modulus();
    let low = le_value(r.take(n));
    let pn = pow256(n as nat);
    assert(c == 0) by (nonlinear_arith)
        requires
            low + c * pn == av * bv,
            av * bv < pn,
    ;
    lemma_small_mod(av * bv, modulus());
    if n == BYTES {
        lemma_value_take_succ(r, BYTES - 1);
        assert(r.take(BYTES as int) =~= r);
        let p = pow256((BYTES - 1) as nat);
        let t = r[BYTES - 1] as nat;
        assert(t <= 1) by (nonlinear_arith)
            requires
                t * p < 2 * p,
        ;
    }
}

/// The product of operands that reach the top column: the bytes written,
/// with the top byte masked to its low bit, are the wrapped product, and
/// the product overflows exactly when something lies above that bit.
proof fn lemma_product_top(
    r: Seq<u8>,
    a: Seq<u8>,
    b: Seq<u8>,
    la: int,
    lb: int,
    c: nat,
    top: u8,
)
    requires
        a.len() == BYTES,
        b.len() == BYTES,
        r.len() == BYTES,
        1 <= la <= BYTES,
        1 <= lb <= BYTES,
        forall|i: int| la <= i < BYTES ==> a[i] == 0,
        forall|j: int| lb <= j < BYTES ==> b[j] == 0,
        la > 1 ==> le_value(a) >= pow256((la - 1) as nat),
        lb > 1 ==> le_value(b) >= pow256((lb - 1) as nat),
        le_value(r.take(BYTES - 1)) + top as nat * pow256((BYTES - 1) as nat) + c * pow256(
            BYTES as nat,
        ) == low_part(a, b, BYTES as int, BYTES as int),
        r[BYTES - 1] == top % 2,
    ensures
        le_value(r) == wrapping_product(le_value(a), le_value(b)),
        (top > 1 || c != 0 || la + lb >= BYTES + 2) == product_overflows(le_value(a), le_value(b)),
{
    let n = BYTES as int;
    let av = le_value(a);
    let bv = le_value(b);
    let p = pow256((BYTES - 1) as nat);
    let pn = pow256(BYTES as nat);
    let m = modulus();
    lemma_modulus();
    lemma_parts_make_product(a, b, n, n);
    assert(a.take(n) =~= a);
    let h = high_part(a, b, n, n);
    let low = le_value(r.take(BYTES - 1));
    lemma_value_bound(r.take(BYTES - 1));
    lemma_value_take_succ(r, BYTES - 1);
    assert(r.take(n) =~= r);
    let t = (top % 2) as nat;
    let q = (top / 2) as nat;
    assert(t * p <= p) by (nonlinear_arith)
        requires
            t <= 1,
    ;
    let k = q + 128 * (c + h);
    assert(av * bv == m * k + (low + t * p)) by (nonlinear_arith)
        requires
            low + top as nat * p + c * pn + pn * h == av * bv,
            top as nat == 2 * q + t,
            m == 2 * p,
            pn == 128 * m,
            k == q + 128 * (c + h),
    ;
    lemma_fundamental_div_mod_converse(
        (av * bv) as int,
        m as int,
        k as int,
        (low + t * p) as int,
    );
    if la + lb >= BYTES + 2 {
        let pa = pow256((la - 1) as nat);
        let pb = pow256((lb - 1) as nat);
        lemma_pow256_adds((la - 1) as nat, (lb - 1) as nat);
        lemma_pow256_monotonic(BYTES as nat, (la + lb - 2) as nat);
        assert(av * bv >= pa * pb) by (nonlinear_arith)
            requires
                av >= pa,
                bv >= pb,
        ;
    } else {
        lemma_high_part_zero(a, b, n, n, la, lb);
        if k > 0 {
            assert(m * k >= m) by (nonlinear_arith)
                requires
                    k >= 1,
            ;
        } else {
            assert(m * 0 == 0);
        }
    }
}

/// Multiplies `lhs` by `rhs`, keeping the low 206265 bits of the product.
///
/// Returns the product and whether the true product did not fit.
///
/// Every output byte collects the products of the byte pairs of its column
/// in a 32-bit accumulator, gives its low eight bits and carries the rest.
/// Only the significant bytes of the operands take part. The product does
/// not fit when the top byte holds more than its one bit, when a carry
/// leaves the last column, or when the operands are long enough to reach
/// beyond the last column.
pub fn const_mul(lhs: &u206265, rhs: &u206265) -> (r: (u206265, bool))
    ensures
        r.0@ == wrapping_product(lhs@, rhs@),
        r.1 == product_overflows(lhs@, rhs@),
{
    let lhs_bytes = lhs.significant_bytes();
    let rhs_bytes = rhs.significant_bytes();
    let max_power = if lhs_bytes + rhs_bytes + 2 > BYTES {
        BYTES
    } else {
        lhs_bytes + rhs_bytes + 2
    };
    let ghost a = lhs.0@;
    let ghost b = rhs.0@;
    let mut result = [0u8; BYTES];
    let mut carry: u32 = 0;
    let mut top: u8 = 0;
    let mut power: usize = 0;
    proof {
        assert(a == lhs.bytes());
        assert(b == rhs.bytes());
        assert(result@.take(0).len() == 0);
    }
    while power < max_power
        invariant
            power <= max_power <= BYTES,
            1 <= lhs_bytes <= BYTES,
            1 <= rhs_bytes <= BYTES,
            a == lhs.0@,
            b == rhs.0@,
            carry <= MAX_CARRY,
            forall|i: int| lhs_bytes <= i < BYTES ==> a[i] == 0,
            forall|j: int| rhs_bytes <= j < BYTES ==> b[j] == 0,
            forall|j: int| power <= j < BYTES ==> result@[j] == 0,
            power < BYTES ==> le_value(result@.take(power as int)) + carry as nat * pow256(
                power as nat,
            ) == low_part(a, b, power as int, power as int),
            power == BYTES ==> le_value(result@.take(BYTES - 1)) + top as nat * pow256(
                (BYTES - 1) as nat,
            ) + carry as nat * pow256(BYTES as nat) == low_part(a, b, BYTES as int, BYTES as int),
        decreases max_power - power,
    {
        let first = if power + 1 > rhs_bytes {
            power + 1 - rhs_bytes
        } else {
            0
        };
        let end = if power < lhs_bytes {
            power + 1
        } else {
            lhs_bytes
        };
        let mut sum: u32 = carry;
        let mut i: usize = first;
        proof {
            lemma_column_zero_b(a, b, power as int, first as int);
        }
        while i < end
            invariant
                first <= i <= power + 1,
                end <= power + 1,
                power < BYTES,
                a == lhs.0@,
                b == rhs.0@,
                carry <= MAX_CARRY,
                sum == carry + column(a, b, power as int, i as int),
            decreases end - i,
        {
            proof {
                lemma_column_bound(a, b, power as int, i as int);
                let x = a[i as int] as nat;
                let y = b[power - i] as nat;
                assert(x * y <= 65025) by (nonlinear_arith)
                    requires
                        x <= 255,
                        y <= 255,
                ;
            }
            sum += lhs.0[i] as u32 * rhs.0[power - i] as u32;
            i += 1;
        }
        proof {
            assert(sum & 0xFF == sum % 256) by (bit_vector);
            assert(sum >> 8 == sum / 256) by (bit_vector);
        }
        let low = (sum & 0xFF) as u8;
        let ghost carry_in = carry as nat;
        carry = sum >> 8;
        proof {
            lemma_column_zero_a(a, b, power as int, i as int, power + 1);
            lemma_column_bound(a, b, power as int, i as int);
            lemma_low_part_advance(a, b, power as int);
            lemma_pow256_succ(power as nat);
            let pw = pow256(power as nat);
            let col = column(a, b, power as int, power + 1);
            let l = low as nat;
            let c = carry as nat;
            assert(carry_in * pw + pw * col == l * pw + c * (256 * pw)) by (nonlinear_arith)
                requires
                    carry_in + col == l + 256 * c,
            ;
        }
        let ghost before = result@;
        if power == BYTES - 1 {
            top = low;
        } else {
            result[power] = low;
            proof {
                assert(result@.take(power as int) =~= before.take(power as int));
                lemma_value_take_succ(result@, power as int);
            }
        }
        power += 1;
    }
    if max_power == BYTES {
        let overflow = top > 1 || carry != 0 || lhs_bytes + rhs_bytes >= BYTES + 2;
        let ghost before = result@;
        result[BYTES - 1] = top & 0x01;
        proof {
            assert(top & 0x01 == top % 2) by (bit_vector);
            assert(result@.take(BYTES - 1) =~= before.take(BYTES - 1));
            lemma_product_top(
                result@,
                a,
                b,
                lhs_bytes as int,
                rhs_bytes as int,
                carry as nat,
                top,
            );
        }
        (u206265(result), overflow)
    } else {
        proof {
            lemma_product_short(
                result@,
                a,
                b,
                max_power as int,
                lhs_bytes as int,
                rhs_bytes as int,
                carry as nat,
            );
        }
        (u206265(result), false)
    }
}

/// Multiplies `lhs` by `rhs` in place, keeping the low 206265 bits of the
/// product.
///
/// Returns whether the true product did not fit.
pub fn const_mul_assign(lhs: &mut u206265, rhs: &u206265) -> (overflow: bool)
    ensures
        final(lhs)@ == wrapping_product(old(lhs)@, rhs@),
        overflow == product_overflows(old(lhs)@, rhs@),
{
    let (result, overflow) = const_mul(lhs, rhs);
    *lhs = result;
    overflow
}

} // verus!
