//! Left and right shifts: whole bytes first, then the bits within a byte.
use crate::radix::{
    le_value, lemma_pow256_adds, lemma_pow256_succ, lemma_value_bound, lemma_value_skip_pred,
    lemma_value_split, lemma_value_take_succ, lemma_value_zero_tail, lemma_value_zeros, pow256,
};
use crate::uint::{lemma_modulus, lemma_top_byte, modulus, u206265, BYTES};
use vstd::arithmetic::div_mod::{
    lemma_div_denominator, lemma_fundamental_div_mod_converse, lemma_small_mod,
};
use vstd::arithmetic::power2::{
    lemma2_to64, lemma_pow2_adds, lemma_pow2_pos, lemma_pow2_strictly_increases, pow2,
};
use vstd::bits::{lemma_u16_shl_is_mul, lemma_u16_shr_is_div};
use vstd::prelude::*;

verus! {

/// Number of bits in the integer, as a shift amount.
pub const BITS_U32: u32 = 206_265;

/// Whether a shift amount is as large as the width, so that it is reduced
/// modulo the width before the shift.
pub open spec fn shift_overflows(n: nat) -> bool {
    n >= 206_265
}

/// A number shifted left by `n` bits, reduced to the width of the integer.
/// The amount itself is first reduced modulo the width.
pub open spec fn shifted_left(v: nat, n: nat) -> nat {
    (v * pow2(n % 206_265)) % modulus()
}

/// A number shifted right by `n` bits. The amount itself is first reduced
/// modulo the width.
pub open spec fn shifted_right(v: nat, n: nat) -> nat {
    v / pow2(n % 206_265)
}

/// The powers of two below 256.
proof fn lemma_pow2_small(s: nat)
    requires
        s < 8,
    ensures
        1 <= pow2(s) <= 128,
        pow2(s) * pow2((8 - s) as nat) == 256,
{
    lemma2_to64();
    lemma_pow2_pos(s);
    if s < 7 {
        lemma_pow2_strictly_increases(s, 7);
    }
    lemma_pow2_adds(s, (8 - s) as nat);
}

/// A shift amount splits into whole bytes and bits within a byte.
proof fn lemma_split_amount(n: u32)
    ensures
        n >> 3 == n / 8,
        n & 0b111 == n % 8,
        pow2(n as nat) == pow256((n / 8) as nat) * pow2((n % 8) as nat),
{
    assert(n >> 3 == n / 8) by (bit_vector);
    assert(n & 0b111 == n % 8) by (bit_vector);
    lemma_pow2_adds((8 * (n / 8)) as nat, (n % 8) as nat);
}

/// What the 16-bit accumulator holds after one byte of a left shift.
proof fn lemma_shl_accumulate(x: u8, s: u16, carry: u16)
    requires
        s < 8,
        carry < pow2(s as nat),
    ensures
        ((x as u16) << s) == x * pow2(s as nat),
        carry + x * pow2(s as nat) < 256 * pow2(s as nat),
        256 * pow2(s as nat) <= 32768,
        ({
            let t = (carry + ((x as u16) << s)) as u16;
            &&& t & 0x00FF == t % 256
            &&& t >> 8 == t / 256
            &&& t / 256 < pow2(s as nat)
        }),
{
    let f = pow2(s as nat);
    lemma_pow2_small(s as nat);
    assert(x * f <= 255 * f) by (nonlinear_arith)
        requires
            x <= 255,
            f >= 0,
    ;
    lemma_u16_shl_is_mul(x as u16, s);
    let t = (carry + ((x as u16) << s)) as u16;
    assert(t & 0x00FF == t % 256) by (bit_vector);
    assert(t >> 8 == t / 256) by (bit_vector);
}

/// One step of a left shift within the bytes: byte `i` of the result and
/// the bits carried out of it.
proof fn lemma_shl_step(
    c0: Seq<u8>,
    c1: Seq<u8>,
    mid: Seq<u8>,
    i: int,
    f: nat,
    carry0: nat,
    carry1: nat,
)
    requires
        0 <= i < mid.len(),
        c0.len() == mid.len(),
        c1.len() == mid.len(),
        c1.take(i) == c0.take(i),
        le_value(c0.take(i)) + carry0 * pow256(i as nat) == le_value(mid.take(i)) * f,
        c1[i] as nat + 256 * carry1 == carry0 + mid[i] as nat * f,
    ensures
        le_value(c1.take(i + 1)) + carry1 * pow256((i + 1) as nat) == le_value(mid.take(i + 1))
            * f,
{
    let p = pow256(i as nat);
    lemma_value_take_succ(c1, i);
    lemma_value_take_succ(mid, i);
    lemma_pow256_succ(i as nat);
    let y = c1[i] as nat;
    let x = mid[i] as nat;
    let v = le_value(mid.take(i));
    assert(y * p + carry1 * (256 * p) + v * f == carry0 * p + (v + x * p) * f) by (nonlinear_arith)
        requires
            y + 256 * carry1 == carry0 + x * f,
    ;
}

/// Moving the bytes up by `k` positions multiplies by `256^k`, up to what
/// leaves at the top.
proof fn lemma_bytes_moved_up(old_bytes: Seq<u8>, mid: Seq<u8>, k: int)
    requires
        old_bytes.len() == BYTES,
        mid.len() == BYTES,
        0 <= k < BYTES,
        forall|j: int| 0 <= j < k ==> mid[j] == 0,
        forall|j: int| k <= j < BYTES ==> mid[j] == old_bytes[j - k],
    ensures
        le_value(mid) + pow256(BYTES as nat) * le_value(old_bytes.skip(BYTES - k)) == pow256(
            k as nat,
        ) * le_value(old_bytes),
        le_value(mid.take(k)) == 0,
{
    lemma_value_split(mid, k);
    lemma_value_zeros(mid.take(k));
    assert(mid.skip(k) =~= old_bytes.take(BYTES - k));
    lemma_value_split(old_bytes, BYTES - k);
    lemma_pow256_adds(k as nat, (BYTES - k) as nat);
    let pk = pow256(k as nat);
    let pr = pow256((BYTES - k) as nat);
    let lo = le_value(old_bytes.take(BYTES - k));
    let hi = le_value(old_bytes.skip(BYTES - k));
    assert(pk * lo + (pk * pr) * hi == pk * (lo + pr * hi)) by (nonlinear_arith);
}

/// The end of a left shift: with the top byte masked to its low bit, the
/// bytes denote the shifted number reduced to the width.
proof fn lemma_shl_finish(
    old_bytes: Seq<u8>,
    mid: Seq<u8>,
    cur: Seq<u8>,
    fin: Seq<u8>,
    n: u32,
    carry: nat,
)
    requires
        old_bytes.len() == BYTES,
        mid.len() == BYTES,
        cur.len() == BYTES,
        fin.len() == BYTES,
        n < 206_265,
        forall|j: int| 0 <= j < n / 8 ==> mid[j] == 0,
        forall|j: int| n / 8 <= j < BYTES ==> mid[j] == old_bytes[j - n / 8],
        le_value(cur) + carry * pow256(BYTES as nat) == le_value(mid) * pow2((n % 8) as nat),
        fin.take(BYTES - 1) == cur.take(BYTES - 1),
        fin[BYTES - 1] == cur[BYTES - 1] % 2,
    ensures
        le_value(fin) == shifted_left(le_value(old_bytes), n as nat),
{
    let k = (n / 8) as int;
    let f = pow2((n % 8) as nat);
    let v = le_value(old_bytes);
    let m = modulus();
    let p = pow256((BYTES - 1) as nat);
    let pn = pow256(BYTES as nat);
    lemma_modulus();
    lemma_split_amount(n);
    lemma_bytes_moved_up(old_bytes, mid, k);
    let hi = le_value(old_bytes.skip(BYTES - k));
    let pk = pow256(k as nat);
    lemma_value_take_succ(cur, BYTES - 1);
    lemma_value_take_succ(fin, BYTES - 1);
    assert(cur.take(BYTES as int) =~= cur);
    assert(fin.take(BYTES as int) =~= fin);
    let low = le_value(cur.take(BYTES - 1));
    lemma_value_bound(cur.take(BYTES - 1));
    let top = cur[BYTES - 1] as nat;
    let t = top % 2;
    let q = top / 2;
    let w = q + 128 * (carry + hi * f);
    assert(t * p <= p) by (nonlinear_arith)
        requires
            t <= 1,
    ;
    let excess = carry + hi * f;
    assert(v * (pk * f) == (pk * v) * f) by (nonlinear_arith);
    assert((le_value(mid) + pn * hi) * f == le_value(mid) * f + pn * (hi * f))
        by (nonlinear_arith);
    assert(top * p == q * m + t * p) by (nonlinear_arith)
        requires
            top == 2 * q + t,
            m == 2 * p,
    ;
    assert(carry * pn + pn * (hi * f) == m * (128 * excess)) by (nonlinear_arith)
        requires
            pn == 128 * m,
            excess == carry + hi * f,
    ;
    assert(q * m + m * (128 * excess) == m * w) by (nonlinear_arith)
        requires
            w == q + 128 * excess,
    ;
    assert(v * (pk * f) == m * w + (low + t * p));
    lemma_small_mod(n as nat, 206_265);
    lemma_fundamental_div_mod_converse(
        (v * pow2(n as nat)) as int,
        m as int,
        w as int,
        (low + t * p) as int,
    );
}

/// Shifts the bytes left by `rhs` bits in place and masks the top byte.
fn shl_bytes(bytes: &mut [u8; BYTES], rhs: u32) -> (overflow: bool)
    ensures
        final(bytes)@[BYTES - 1] <= 1,
        le_value(final(bytes)@) == shifted_left(le_value(old(bytes)@), rhs as nat),
        overflow == shift_overflows(rhs as nat),
{
    let overflow = rhs >= BITS_U32;
    let amount = if overflow {
        rhs % BITS_U32
    } else {
        rhs
    };
    proof {
        lemma_split_amount(amount);
        if !overflow {
            lemma_small_mod(rhs as nat, 206_265);
        }
    }
    let byte_shift = (amount >> 3) as usize;
    let subbyte_shift = (amount & 0b111) as u16;
    let ghost start = bytes@;
    if byte_shift > 0 {
        let mut i: usize = BYTES;
        while i > byte_shift
            invariant
                0 < byte_shift <= i <= BYTES,
                forall|j: int| i <= j < BYTES ==> bytes@[j] == start[j - byte_shift],
                forall|j: int| 0 <= j < i ==> bytes@[j] == start[j],
            decreases i,
        {
            i -= 1;
            bytes[i] = bytes[i - byte_shift];
        }
        let mut cleared: usize = 0;
        while cleared < byte_shift
            invariant
                cleared <= byte_shift < BYTES,
                forall|j: int| byte_shift <= j < BYTES ==> bytes@[j] == start[j - byte_shift],
                forall|j: int| 0 <= j < cleared ==> bytes@[j] == 0,
            decreases byte_shift - cleared,
        {
            bytes[cleared] = 0;
            cleared += 1;
        }
    }
    let ghost mid = bytes@;
    proof {
        lemma_bytes_moved_up(start, mid, byte_shift as int);
        lemma_pow2_small(subbyte_shift as nat);
        assert(0 * pow2(subbyte_shift as nat) == 0);
    }
    let mut carry: u16 = 0;
    let mut i: usize = byte_shift;
    while i < BYTES
        invariant
            byte_shift <= i <= BYTES,
            subbyte_shift < 8,
            mid.len() == BYTES,
            carry < pow2(subbyte_shift as nat),
            le_value(bytes@.take(i as int)) + carry as nat * pow256(i as nat) == le_value(
                mid.take(i as int),
            ) * pow2(subbyte_shift as nat),
            forall|j: int| i <= j < BYTES ==> bytes@[j] == mid[j],
        decreases BYTES - i,
    {
        let ghost before = bytes@;
        let ghost carry_in = carry as nat;
        proof {
            lemma_shl_accumulate(bytes@[i as int], subbyte_shift, carry);
        }
        carry += (bytes[i] as u16) << subbyte_shift;
        bytes[i] = (carry & 0x00FF) as u8;
        carry >>= 8;
        proof {
            assert(bytes@.take(i as int) =~= before.take(i as int));
            lemma_shl_step(
                before,
                bytes@,
                mid,
                i as int,
                pow2(subbyte_shift as nat),
                carry_in,
                carry as nat,
            );
        }
        i += 1;
    }
    let ghost cur = bytes@;
    let top = bytes[BYTES - 1];
    bytes[BYTES - 1] = top & 0x01;
    proof {
        assert(top & 0x01 == top % 2) by (bit_vector);
        assert(cur.take(BYTES as int) =~= cur);
        assert(mid.take(BYTES as int) =~= mid);
        assert(bytes@.take(BYTES - 1) =~= cur.take(BYTES - 1));
        lemma_shl_finish(start, mid, cur, bytes@, amount, carry as nat);
    }
    overflow
}

/// Shifts `lhs` left by `rhs` bits in place. An amount as large as the
/// width is first reduced modulo the width; bits that leave at the top are
/// dropped.
///
/// Returns whether the amount had to be reduced.
pub fn const_shl_assign(lhs: &mut u206265, rhs: u32) -> (overflow: bool)
    ensures
        final(lhs)@ == shifted_left(old(lhs)@, rhs as nat),
        overflow == shift_overflows(rhs as nat),
{
    let mut bytes = lhs.0;
    let overflow = shl_bytes(&mut bytes, rhs);
    *lhs = u206265(bytes);
    overflow
}

/// Shifts `lhs` left by `rhs` bits. An amount as large as the width is
/// first reduced modulo the width; bits that leave at the top are dropped.
///
/// Returns the result and whether the amount had to be reduced.
pub fn const_shl(lhs: &u206265, rhs: u32) -> (r: (u206265, bool))
    ensures
        r.0@ == shifted_left(lhs@, rhs as nat),
        r.1 == shift_overflows(rhs as nat),
{
    let mut bytes = lhs.0;
    let overflow = shl_bytes(&mut bytes, rhs);
    (u206265(bytes), overflow)
}

/// Moving the bytes down by `k` positions divides by `256^k`.
proof fn lemma_bytes_moved_down(old_bytes: Seq<u8>, mid: Seq<u8>, k: int)
    requires
        old_bytes.len() == BYTES,
        mid.len() == BYTES,
        0 <= k < BYTES,
        forall|j: int| 0 <= j < BYTES - k ==> mid[j] == old_bytes[j + k],
        forall|j: int| BYTES - k <= j < BYTES ==> mid[j] == 0,
    ensures
        le_value(mid) == le_value(old_bytes) / pow256(k as nat),
        le_value(mid.skip(BYTES - k)) == 0,
{
    lemma_value_zero_tail(mid, BYTES - k);
    assert(mid.take(BYTES - k) =~= old_bytes.skip(k));
    lemma_value_split(old_bytes, k);
    lemma_value_bound(old_bytes.take(k));
    lemma_value_zeros(mid.skip(BYTES - k));
    let pk = pow256(k as nat);
    let hi = le_value(old_bytes.skip(k));
    let lo = le_value(old_bytes.take(k));
    assert(pk * hi == hi * pk) by (nonlinear_arith);
    lemma_fundamental_div_mod_converse(le_value(old_bytes) as int, pk as int, hi as int, lo as int);
}

/// What the 16-bit accumulator holds after one byte of a right shift. The
/// accumulator enters with the bits that left the byte above, in its high
/// byte, and leaves with the bits that leave this byte.
proof fn lemma_shr_accumulate(x: u8, s: u16, carry: u16, r: nat)
    requires
        s < 8,
        r < pow2(s as nat),
        carry == r * pow2((8 - s) as nat) * 256,
    ensures
        carry + (((x as u16) << 8) >> s) <= u16::MAX,
        ({
            let t = (carry + (((x as u16) << 8) >> s)) as u16;
            let f = pow2(s as nat);
            &&& t >> 8 < 256
            &&& (t >> 8) * f + x as nat % f == x + 256 * r
            &&& t << 8 == (x as nat % f) * pow2((8 - s) as nat) * 256
        }),
{
    let f = pow2(s as nat);
    let g = pow2((8 - s) as nat);
    lemma_pow2_small(s as nat);
    lemma2_to64();
    let wide = x as u16;
    lemma_u16_shl_is_mul(wide, 8);
    let v: u16 = wide << 8;
    assert(v == 256 * x);
    lemma_u16_shr_is_div(v, s);
    let q = x as nat / f;
    let r0 = x as nat % f;
    vstd::arithmetic::div_mod::lemma_fundamental_div_mod(x as int, f as int);
    assert(f * q == q * f) by (nonlinear_arith);
    vstd::arithmetic::div_mod::lemma_mod_bound(x as int, f as int);
    assert(256 * x == (x * g) * f) by (nonlinear_arith)
        requires
            f * g == 256,
    ;
    lemma_fundamental_div_mod_converse(v as int, f as int, x * g, 0);
    assert(v >> s == x * g);
    assert(x * g == 256 * q + r0 * g) by (nonlinear_arith)
        requires
            x as nat == q * f + r0,
            f * g == 256,
    ;
    assert(r0 * g + g <= 256) by (nonlinear_arith)
        requires
            r0 + 1 <= f,
            f * g == 256,
    ;
    assert(r * g + g <= 256) by (nonlinear_arith)
        requires
            r + 1 <= f,
            f * g == 256,
    ;
    assert(g >= 1) by (nonlinear_arith)
        requires
            f * g == 256,
            f >= 1,
            g >= 0,
    ;
    assert(q * f <= x as nat);
    assert(q <= 255) by (nonlinear_arith)
        requires
            q * f <= 255,
            f >= 1,
    ;
    assert((r * g + q) * f + r0 == x + 256 * r) by (nonlinear_arith)
        requires
            x as nat == q * f + r0,
            f * g == 256,
    ;
    assert(r * g + q < 256) by (nonlinear_arith)
        requires
            (r * g + q) * f + r0 == x + 256 * r,
            r + 1 <= f,
            x <= 255,
    ;
    assert(r * g * 256 + x * g == 256 * (r * g + q) + r0 * g) by (nonlinear_arith)
        requires
            x * g == 256 * q + r0 * g,
    ;
    let t = (carry + (v >> s)) as u16;
    assert(t == 256 * (r * g + q) + r0 * g);
    assert(t >> 8 == t / 256) by (bit_vector);
    assert(t << 8 == (t % 256) * 256) by (bit_vector);
    lemma_fundamental_div_mod_converse(t as int, 256, (r * g + q) as int, (r0 * g) as int);
}

/// One step of a right shift within the bytes, from the top downwards.
proof fn lemma_shr_step(
    c0: Seq<u8>,
    c1: Seq<u8>,
    mid: Seq<u8>,
    i: int,
    f: nat,
    r0: nat,
    r1: nat,
)
    requires
        0 < i <= mid.len(),
        c0.len() == mid.len(),
        c1.len() == mid.len(),
        c1.skip(i) == c0.skip(i),
        le_value(c0.skip(i)) * f + r0 == le_value(mid.skip(i)),
        c1[i - 1] as nat * f + r1 == mid[i - 1] as nat + 256 * r0,
    ensures
        le_value(c1.skip(i - 1)) * f + r1 == le_value(mid.skip(i - 1)),
{
    lemma_value_skip_pred(c1, i);
    lemma_value_skip_pred(mid, i);
    let y = c1[i - 1] as nat;
    let w = le_value(c1.skip(i));
    assert((y + 256 * w) * f == y * f + 256 * (w * f)) by (nonlinear_arith);
}

/// The end of a right shift: the bytes denote the quotient by the power of
/// two, and the top byte still uses only its lowest bit.
proof fn lemma_shr_finish(old_bytes: Seq<u8>, mid: Seq<u8>, cur: Seq<u8>, n: u32, r: nat)
    requires
        old_bytes.len() == BYTES,
        mid.len() == BYTES,
        cur.len() == BYTES,
        n < 206_265,
        old_bytes[BYTES - 1] <= 1,
        forall|j: int| 0 <= j < BYTES - n / 8 ==> mid[j] == old_bytes[j + n / 8],
        forall|j: int| BYTES - n / 8 <= j < BYTES ==> mid[j] == 0,
        le_value(cur) * pow2((n % 8) as nat) + r == le_value(mid),
        r < pow2((n % 8) as nat),
    ensures
        le_value(cur) == shifted_right(le_value(old_bytes), n as nat),
        cur[BYTES - 1] <= 1,
{
    let k = (n / 8) as int;
    let f = pow2((n % 8) as nat);
    let pk = pow256(k as nat);
    let v = le_value(old_bytes);
    lemma_split_amount(n);
    lemma_bytes_moved_down(old_bytes, mid, k);
    lemma_pow2_pos((n % 8) as nat);
    lemma_pow2_pos((8 * k) as nat);
    assert(le_value(cur) * f == f * le_value(cur)) by (nonlinear_arith);
    lemma_fundamental_div_mod_converse(le_value(mid) as int, f as int, le_value(cur) as int, r as int);
    lemma_div_denominator(v as int, pk as int, f as int);
    lemma_small_mod(n as nat, 206_265);
    vstd::arithmetic::div_mod::lemma_div_nonincreasing(v as int, pow2(n as nat) as int);
    lemma_pow2_pos(n as nat);
    lemma_top_byte(old_bytes);
    lemma_top_byte(cur);
}

/// Shifts the bytes right by `rhs` bits in place.
fn shr_bytes(bytes: &mut [u8; BYTES], rhs: u32) -> (overflow: bool)
    requires
        old(bytes)@[BYTES - 1] <= 1,
    ensures
        final(bytes)@[BYTES - 1] <= 1,
        le_value(final(bytes)@) == shifted_right(le_value(old(bytes)@), rhs as nat),
        overflow == shift_overflows(rhs as nat),
{
    let overflow = rhs >= BITS_U32;
    let amount = if overflow {
        rhs % BITS_U32
    } else {
        rhs
    };
    proof {
        lemma_split_amount(amount);
        if !overflow {
            lemma_small_mod(rhs as nat, 206_265);
        }
    }
    let byte_shift = (amount >> 3) as usize;
    let subbyte_shift = (amount & 0b111) as u16;
    let ghost start = bytes@;
    if byte_shift > 0 {
        let mut i: usize = 0;
        while i < BYTES - byte_shift
            invariant
                0 < byte_shift < BYTES,
                i <= BYTES - byte_shift,
                forall|j: int| 0 <= j < i ==> bytes@[j] == start[j + byte_shift],
                forall|j: int| i <= j < BYTES ==> bytes@[j] == start[j],
            decreases BYTES - byte_shift - i,
        {
            bytes[i] = bytes[i + byte_shift];
            i += 1;
        }
        let mut cleared: usize = BYTES - byte_shift;
        while cleared < BYTES
            invariant
                0 < byte_shift < BYTES,
                BYTES - byte_shift <= cleared <= BYTES,
                forall|j: int| 0 <= j < BYTES - byte_shift ==> bytes@[j] == start[j + byte_shift],
                forall|j: int| BYTES - byte_shift <= j < cleared ==> bytes@[j] == 0,
            decreases BYTES - cleared,
        {
            bytes[cleared] = 0;
            cleared += 1;
        }
    }
    let ghost mid = bytes@;
    let ghost mut rest: nat = 0;
    proof {
        lemma_bytes_moved_down(start, mid, byte_shift as int);
        lemma_pow2_small(subbyte_shift as nat);
        assert(0 * pow2(subbyte_shift as nat) == 0);
        assert(0 * pow2((8 - subbyte_shift) as nat) * 256 == 0);
    }
    let mut carry: u16 = 0;
    let mut i: usize = BYTES - byte_shift;
    while i > 0
        invariant
            i <= BYTES - byte_shift,
            subbyte_shift < 8,
            mid.len() == BYTES,
            rest < pow2(subbyte_shift as nat),
            carry == rest * pow2((8 - subbyte_shift) as nat) * 256,
            le_value(bytes@.skip(i as int)) * pow2(subbyte_shift as nat) + rest == le_value(
                mid.skip(i as int),
            ),
            forall|j: int| 0 <= j < i ==> bytes@[j] == mid[j],
        decreases i,
    {
        i -= 1;
        let ghost before = bytes@;
        let ghost rest_in = rest;
        proof {
            lemma_shr_accumulate(bytes@[i as int], subbyte_shift, carry, rest);
            rest = bytes@[i as int] as nat % pow2(subbyte_shift as nat);
            lemma_pow2_pos(subbyte_shift as nat);
        }
        carry += ((bytes[i] as u16) << 8) >> subbyte_shift;
        bytes[i] = (carry >> 8) as u8;
        carry <<= 8;
        proof {
            assert(bytes@.skip(i + 1) =~= before.skip(i + 1));
            lemma_shr_step(
                before,
                bytes@,
                mid,
                i + 1,
                pow2(subbyte_shift as nat),
                rest_in,
                rest,
            );
        }
    }
    proof {
        assert(bytes@.skip(0) =~= bytes@);
        assert(mid.skip(0) =~= mid);
        lemma_shr_finish(start, mid, bytes@, amount, rest);
    }
    overflow
}

/// Shifts `lhs` right by `rhs` bits in place. An amount as large as the
/// width is first reduced modulo the width.
///
/// Returns whether the amount had to be reduced.
pub fn const_shr_assign(lhs: &mut u206265, rhs: u32) -> (overflow: bool)
    ensures
        final(lhs)@ == shifted_right(old(lhs)@, rhs as nat),
        overflow == shift_overflows(rhs as nat),
{
    proof {
        use_type_invariant(&*lhs);
    }
    let mut bytes = lhs.0;
    let overflow = shr_bytes(&mut bytes, rhs);
    *lhs = u206265(bytes);
    overflow
}

/// Shifts `lhs` right by `rhs` bits. An amount as large as the width is
/// first reduced modulo the width.
///
/// Returns the result and whether the amount had to be reduced.
pub fn const_shr(lhs: &u206265, rhs: u32) -> (r: (u206265, bool))
    ensures
        r.0@ == shifted_right(lhs@, rhs as nat),
        r.1 == shift_overflows(rhs as nat),
{
    proof {
        use_type_invariant(lhs);
    }
    let mut bytes = lhs.0;
    let overflow = shr_bytes(&mut bytes, rhs);
    (u206265(bytes), overflow)
}

} // verus!
