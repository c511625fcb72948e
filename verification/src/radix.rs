//! The mathematical value of a little-endian byte sequence, and the facts
//! about it that the arithmetic kernel relies on.
use vstd::arithmetic::div_mod::*;
use vstd::arithmetic::mul::*;
use vstd::arithmetic::power2::*;
use vstd::prelude::*;

verus! {

/// The weight of byte position `n`: 256 to the power `n`.
pub open spec fn pow256(n: nat) -> nat {
    pow2(8 * n)
}

/// The number that the bytes `s` denote, least significant byte first.
pub open spec fn le_value(s: Seq<u8>) -> nat
    decreases s.len(),
{
    if s.len() == 0 {
        0
    } else {
        le_value(s.drop_last()) + s.last() as nat * pow256((s.len() - 1) as nat)
    }
}

pub proof fn lemma_pow256_zero()
    ensures
        pow256(0) == 1,
{
    lemma2_to64();
}

pub proof fn lemma_pow256_succ(n: nat)
    ensures
        pow256(n + 1) == 256 * pow256(n),
        pow256(n) > 0,
{
    lemma2_to64();
    lemma_pow2_adds(8, 8 * n);
    lemma_pow2_pos(8 * n);
}

pub proof fn lemma_pow256_adds(a: nat, b: nat)
    ensures
        pow256(a + b) == pow256(a) * pow256(b),
        pow256(a) > 0,
        pow256(b) > 0,
{
    lemma_pow2_adds(8 * a, 8 * b);
    lemma_pow2_pos(8 * a);
    lemma_pow2_pos(8 * b);
}

pub proof fn lemma_pow256_monotonic(a: nat, b: nat)
    requires
        a <= b,
    ensures
        pow256(a) <= pow256(b),
        pow256(a) > 0,
{
    lemma_pow2_pos(8 * a);
    if a < b {
        lemma_pow2_strictly_increases(8 * a, 8 * b);
    }
}

/// Taking one more byte adds that byte at its weight.
pub proof fn lemma_value_take_succ(s: Seq<u8>, i: int)
    requires
        0 <= i < s.len(),
    ensures
        le_value(s.take(i + 1)) == le_value(s.take(i)) + s[i] as nat * pow256(i as nat),
{
    assert(s.take(i + 1).drop_last() =~= s.take(i));
}

/// `n` bytes denote a number below `256^n`.
pub proof fn lemma_value_bound(s: Seq<u8>)
    ensures
        le_value(s) < pow256(s.len()),
    decreases s.len(),
{
    if s.len() == 0 {
        lemma_pow256_zero();
    } else {
        let n = (s.len() - 1) as nat;
        lemma_value_bound(s.drop_last());
        lemma_pow256_succ(n);
        assert(s.last() as nat * pow256(n) <= 255 * pow256(n)) by (nonlinear_arith)
            requires
                s.last() as nat <= 255,
        ;
    }
}

/// Bytes that are all zero denote zero.
pub proof fn lemma_value_zeros(s: Seq<u8>)
    requires
        forall|j: int| 0 <= j < s.len() ==> s[j] == 0,
    ensures
        le_value(s) == 0,
    decreases s.len(),
{
    if s.len() > 0 {
        lemma_value_zeros(s.drop_last());
        assert(0 * pow256((s.len() - 1) as nat) == 0);
    }
}

/// Zero bytes at the top do not change the value.
pub proof fn lemma_value_zero_tail(s: Seq<u8>, n: int)
    requires
        0 <= n <= s.len(),
        forall|j: int| n <= j < s.len() ==> s[j] == 0,
    ensures
        le_value(s) == le_value(s.take(n)),
    decreases s.len() - n,
{
    if n == s.len() {
        assert(s.take(n) =~= s);
    } else {
        lemma_value_zero_tail(s.drop_last(), n);
        assert(s.drop_last().take(n) =~= s.take(n));
        assert(0 * pow256((s.len() - 1) as nat) == 0);
    }
}

/// The value splits at any position into a low part and a weighted high part.
pub proof fn lemma_value_split(s: Seq<u8>, i: int)
    requires
        0 <= i <= s.len(),
    ensures
        le_value(s) == le_value(s.take(i)) + pow256(i as nat) * le_value(s.skip(i)),
    decreases s.len() - i,
{
    if i == s.len() {
        assert(s.take(i) =~= s);
        assert(s.skip(i).len() == 0);
        assert(pow256(i as nat) * 0 == 0);
    } else {
        let n = (s.len() - 1) as nat;
        let t = s.drop_last();
        lemma_value_split(t, i);
        assert(t.take(i) =~= s.take(i));
        assert(s.skip(i).drop_last() =~= t.skip(i));
        assert(s.skip(i).last() == s.last());
        let hi = le_value(t.skip(i));
        let top = s.last() as nat;
        assert(le_value(s.skip(i)) == hi + top * pow256((n - i) as nat));
        lemma_pow256_adds(i as nat, (n - i) as nat);
        assert(pow256(i as nat) * (hi + top * pow256((n - i) as nat)) == pow256(i as nat) * hi
            + top * pow256(n)) by (nonlinear_arith)
            requires
                pow256(n) == pow256(i as nat) * pow256((n - i) as nat),
        ;
    }
}

/// Two byte sequences of one length that denote the same number are equal.
pub proof fn lemma_value_injective(a: Seq<u8>, b: Seq<u8>)
    requires
        a.len() == b.len(),
        le_value(a) == le_value(b),
    ensures
        a =~= b,
    decreases a.len(),
{
    if a.len() > 0 {
        let n = (a.len() - 1) as nat;
        let p = pow256(n);
        lemma_value_bound(a.drop_last());
        lemma_value_bound(b.drop_last());
        let x = le_value(a.drop_last());
        let y = le_value(b.drop_last());
        let h = a.last() as nat;
        let k = b.last() as nat;
        assert(h == k) by (nonlinear_arith)
            requires
                x + h * p == y + k * p,
                x < p,
                y < p,
        ;
        lemma_value_injective(a.drop_last(), b.drop_last());
        assert forall|j: int| 0 <= j < a.len() implies a[j] == b[j] by {
            if j < n {
                assert(a.drop_last()[j] == b.drop_last()[j]);
            }
        }
    }
}

/// The top byte of a sequence is the value divided by the top weight.
pub proof fn lemma_value_top_byte(s: Seq<u8>)
    requires
        s.len() > 0,
    ensures
        s.last() as nat == le_value(s) / pow256((s.len() - 1) as nat),
        le_value(s.drop_last()) == le_value(s) % pow256((s.len() - 1) as nat),
{
    let n = (s.len() - 1) as nat;
    let p = pow256(n);
    lemma_value_bound(s.drop_last());
    lemma_pow256_monotonic(0, n);
    let x = le_value(s.drop_last());
    let h = s.last() as nat;
    lemma_fundamental_div_mod_converse(le_value(s) as int, p as int, h as int, x as int);
}

/// The number of bytes needed to write `v` without leading zero bytes; zero
/// needs one.
pub open spec fn significant_len(v: nat) -> nat
    decreases v,
{
    if v < 256 {
        1
    } else {
        1 + significant_len(v / 256)
    }
}

/// A number in `[256^(n-1), 256^n)` needs exactly `n` bytes; so does any
/// number below 256 for `n == 1`.
pub proof fn lemma_significant_len_unique(v: nat, n: nat)
    requires
        n >= 1,
        v < pow256(n),
        n > 1 ==> v >= pow256((n - 1) as nat),
    ensures
        significant_len(v) == n,
    decreases n,
{
    lemma_pow256_zero();
    lemma_pow256_succ(0);
    if n > 1 {
        let m = (n - 1) as nat;
        lemma_pow256_succ(m);
        lemma_pow256_monotonic(1, m);
        assert(v >= 256);
        if m > 1 {
            lemma_pow256_succ((m - 1) as nat);
        }
        lemma_significant_len_unique(v / 256, m);
    }
}

/// The bounds that the number of significant bytes puts on a number.
pub proof fn lemma_significant_len_bounds(v: nat)
    ensures
        significant_len(v) >= 1,
        v < pow256(significant_len(v)),
        significant_len(v) > 1 ==> v >= pow256((significant_len(v) - 1) as nat),
    decreases v,
{
    lemma_pow256_zero();
    lemma_pow256_succ(0);
    if v >= 256 {
        lemma_significant_len_bounds(v / 256);
        let m = significant_len(v / 256);
        lemma_pow256_succ(m);
        lemma_pow256_succ((m - 1) as nat);
    }
}

/// The bounds on the value of bytes whose highest nonzero byte is at `n - 1`.
pub proof fn lemma_value_significant(s: Seq<u8>, n: int)
    requires
        1 <= n <= s.len(),
        forall|j: int| n <= j < s.len() ==> s[j] == 0,
        n > 1 ==> s[n - 1] != 0,
    ensures
        le_value(s) < pow256(n as nat),
        n > 1 ==> le_value(s) >= pow256((n - 1) as nat),
        significant_len(le_value(s)) == n,
{
    lemma_value_zero_tail(s, n);
    lemma_value_bound(s.take(n));
    if n > 1 {
        lemma_value_take_succ(s, n - 1);
        let p = pow256((n - 1) as nat);
        assert(s[n - 1] as nat * p >= p) by (nonlinear_arith)
            requires
                s[n - 1] as nat >= 1,
        ;
    }
    lemma_significant_len_unique(le_value(s), n as nat);
}

/// Two byte sequences that agree above position `i` are ordered as their
/// bytes at `i` are.
pub proof fn lemma_value_decided_at(a: Seq<u8>, b: Seq<u8>, i: usize)
    requires
        a.len() == b.len(),
        i < a.len(),
        forall|j: int| i < j < a.len() ==> a[j] == b[j],
        a[i as int] < b[i as int],
    ensures
        le_value(a) < le_value(b),
{
    let k = i as int;
    let p = pow256(i as nat);
    lemma_value_split(a, k + 1);
    lemma_value_split(b, k + 1);
    assert(a.skip(k + 1) =~= b.skip(k + 1));
    lemma_value_take_succ(a, k);
    lemma_value_take_succ(b, k);
    lemma_value_bound(a.take(k));
    let x = a[k] as nat;
    let y = b[k] as nat;
    assert(x * p + p <= y * p) by (nonlinear_arith)
        requires
            x + 1 <= y,
    ;
}

/// Two byte sequences that agree everywhere denote the same number.
pub proof fn lemma_value_same(a: Seq<u8>, b: Seq<u8>)
    requires
        a.len() == b.len(),
        forall|j: int| 0 <= j < a.len() ==> a[j] == b[j],
    ensures
        le_value(a) == le_value(b),
{
    assert(a =~= b);
}

/// A number that needs fewer bytes is the smaller one.
pub proof fn lemma_shorter_is_less(v: nat, w: nat, n: usize, m: usize)
    requires
        1 <= n < m,
        v < pow256(n as nat),
        w >= pow256((m - 1) as nat),
    ensures
        v < w,
{
    lemma_pow256_monotonic(n as nat, (m - 1) as nat);
}

/// Dropping one byte less from the front puts that byte below the rest.
pub proof fn lemma_value_skip_pred(s: Seq<u8>, i: int)
    requires
        0 < i <= s.len(),
    ensures
        le_value(s.skip(i - 1)) == s[i - 1] as nat + 256 * le_value(s.skip(i)),
{
    let t = s.skip(i - 1);
    lemma_value_split(t, 1);
    assert(t.skip(1) =~= s.skip(i));
    lemma_value_take_succ(t, 0);
    assert(t.take(0).len() == 0);
    lemma_pow256_zero();
    lemma_pow256_succ(0);
    assert(t[0] == s[i - 1]);
    assert(le_value(t.take(0)) == 0);
    let unit = pow256(0);
    assert(t[0] as nat * unit == t[0] as nat) by (nonlinear_arith)
        requires
            unit == 1,
    ;
    assert(pow256(1) == 256);
}

/// Bytes that are all `0xff` denote the largest number of their length.
pub proof fn lemma_value_ones(s: Seq<u8>)
    requires
        forall|j: int| 0 <= j < s.len() ==> s[j] == 0xff,
    ensures
        le_value(s) + 1 == pow256(s.len()),
    decreases s.len(),
{
    if s.len() == 0 {
        lemma_pow256_zero();
    } else {
        lemma_value_ones(s.drop_last());
        lemma_pow256_succ((s.len() - 1) as nat);
    }
}

} // verus!
