//! Text output: hexadecimal and decimal digits.
use crate::compare::const_eq;
use crate::divide::const_div_rem;
use crate::radix::{le_value, lemma_value_skip_pred, lemma_value_zero_tail, pow256};
use crate::uint::{u206265, BYTES};
use vstd::arithmetic::div_mod::{
    lemma_div_is_strictly_smaller, lemma_fundamental_div_mod, lemma_mod_bound,
};
use vstd::prelude::*;

verus! {

/// The character of one decimal digit.
pub open spec fn decimal_char(d: nat) -> char {
    (48 + d) as char
}

/// The character of one hexadecimal digit, in upper or lower case.
pub open spec fn hex_char(d: nat, upper: bool) -> char {
    if d < 10 {
        (48 + d) as char
    } else if upper {
        (55 + d) as char
    } else {
        (87 + d) as char
    }
}

/// The decimal digits of a number, without leading zeros; zero is `0`.
pub open spec fn decimal_digits(v: nat) -> Seq<char>
    decreases v,
{
    if v < 10 {
        seq![decimal_char(v)]
    } else {
        decimal_digits(v / 10).push(decimal_char(v % 10))
    }
}

/// The last `width` decimal digits of a number, with leading zeros.
pub open spec fn padded_decimal_digits(v: nat, width: nat) -> Seq<char>
    decreases width,
{
    if width == 0 {
        Seq::empty()
    } else {
        padded_decimal_digits(v / 10, (width - 1) as nat).push(decimal_char(v % 10))
    }
}

/// The hexadecimal digits of a number, without leading zeros; zero is `0`.
pub open spec fn hex_digits(v: nat, upper: bool) -> Seq<char>
    decreases v,
{
    if v < 16 {
        seq![hex_char(v, upper)]
    } else {
        hex_digits(v / 16, upper).push(hex_char(v % 16, upper))
    }
}

/// Ten to the power `n`.
pub open spec fn pow10(n: nat) -> nat
    decreases n,
{
    if n == 0 {
        1
    } else {
        10 * pow10((n - 1) as nat)
    }
}

/// The number of decimal digits that one chunk of the decimal output holds.
pub const CHUNK_DIGITS: usize = 38;

/// Ten to the power of the number of digits in a chunk.
pub const CHUNK: u128 = 100_000_000_000_000_000_000_000_000_000_000_000_000;

proof fn lemma_chunk()
    ensures
        pow10(38) == CHUNK,
{
    reveal_with_fuel(pow10, 40);
}

/// Below a nonzero number, a chunk of `width` digits adds exactly its
/// padded digits.
proof fn lemma_decimal_append(high: nat, low: nat, width: nat)
    requires
        high > 0,
        low < pow10(width),
    ensures
        decimal_digits(high * pow10(width) + low) == decimal_digits(high) + padded_decimal_digits(
            low,
            width,
        ),
    decreases width,
{
    if width == 0 {
        assert(high * 1 == high);
        assert(decimal_digits(high) + Seq::<char>::empty() =~= decimal_digits(high));
    } else {
        let p = pow10((width - 1) as nat);
        let x = high * pow10(width) + low;
        lemma_decimal_append(high, low / 10, (width - 1) as nat);
        assert(high * (10 * p) == 10 * (high * p)) by (nonlinear_arith);
        assert(p >= 1) by {
            lemma_pow10_positive((width - 1) as nat);
        }
        assert(high * p >= 1) by (nonlinear_arith)
            requires
                high >= 1,
                p >= 1,
        ;
        assert(x / 10 == high * p + low / 10);
        assert(x % 10 == low % 10);
        assert(decimal_digits(x) == decimal_digits(x / 10).push(decimal_char(x % 10)));
        assert((decimal_digits(high) + padded_decimal_digits(low / 10, (width - 1) as nat)).push(
            decimal_char(low % 10),
        ) =~= decimal_digits(high) + padded_decimal_digits(low, width));
    }
}

proof fn lemma_pow10_positive(n: nat)
    ensures
        pow10(n) >= 1,
    decreases n,
{
    if n > 0 {
        lemma_pow10_positive((n - 1) as nat);
    }
}

/// Below a nonzero number, a byte adds exactly its two hexadecimal digits.
proof fn lemma_hex_append(high: nat, byte: u8, upper: bool)
    requires
        high > 0,
    ensures
        hex_digits(256 * high + byte as nat, upper) == hex_digits(high, upper).push(
            hex_char(byte as nat / 16, upper),
        ).push(hex_char(byte as nat % 16, upper)),
{
    let x = 256 * high + byte as nat;
    assert(x / 16 == 16 * high + byte as nat / 16);
    assert(x % 16 == byte as nat % 16);
    let y = x / 16;
    assert(y / 16 == high);
    assert(y % 16 == byte as nat / 16);
    assert(hex_digits(x, upper) == hex_digits(y, upper).push(hex_char(x % 16, upper)));
    assert(hex_digits(y, upper) == hex_digits(high, upper).push(hex_char(y % 16, upper)));
}

/// The character of a digit below ten.
fn decimal_char_of(d: u8) -> (c: char)
    requires
        d < 10,
    ensures
        c == decimal_char(d as nat),
{
    (48 + d) as char
}

/// The character of a digit below sixteen.
fn hex_char_of(d: u8, upper: bool) -> (c: char)
    requires
        d < 16,
    ensures
        c == hex_char(d as nat, upper),
{
    if d < 10 {
        (48 + d) as char
    } else if upper {
        (55 + d) as char
    } else {
        (87 + d) as char
    }
}

/// Appends the decimal digits of `value`, without leading zeros.
fn push_decimal(out: &mut String, value: u128)
    ensures
        final(out)@ == old(out)@ + decimal_digits(value as nat),
    decreases value,
{
    if value >= 10 {
        push_decimal(out, value / 10);
    }
    out.push(decimal_char_of((value % 10) as u8));
    proof {
        if value >= 10 {
            assert(old(out)@ + decimal_digits((value / 10) as nat).push(
                decimal_char((value % 10) as nat),
            ) =~= (old(out)@ + decimal_digits((value / 10) as nat)).push(
                decimal_char((value % 10) as nat),
            ));
        } else {
            assert(old(out)@ + seq![decimal_char(value as nat)] =~= old(out)@.push(
                decimal_char(value as nat),
            ));
        }
    }
}

/// Appends the last `width` decimal digits of `value`, with leading zeros.
fn push_padded_decimal(out: &mut String, value: u128, width: usize)
    ensures
        final(out)@ == old(out)@ + padded_decimal_digits(value as nat, width as nat),
    decreases width,
{
    if width == 0 {
        proof {
            assert(old(out)@ + Seq::<char>::empty() =~= old(out)@);
        }
        return ;
    }
    push_padded_decimal(out, value / 10, width - 1);
    out.push(decimal_char_of((value % 10) as u8));
    proof {
        assert(old(out)@ + padded_decimal_digits((value / 10) as nat, (width - 1) as nat).push(
            decimal_char((value % 10) as nat),
        ) =~= (old(out)@ + padded_decimal_digits((value / 10) as nat, (width - 1) as nat)).push(
            decimal_char((value % 10) as nat),
        ));
    }
}

impl u206265 {
    /// The hexadecimal digits of the integer, most significant first,
    /// without a prefix and without leading zeros.
    pub fn format_hex(&self, upper: bool) -> (r: String)
        ensures
            r@ == hex_digits(self@, upper),
    {
        let highest_byte = self.significant_bytes() - 1;
        let ghost s = self.0@.take(highest_byte + 1);
        let mut out = String::new();
        let top = self.0[highest_byte];
        if top >= 16 {
            out.push(hex_char_of(top / 16, upper));
        }
        out.push(hex_char_of(top % 16, upper));
        proof {
            assert(self.0@ == self.bytes());
            lemma_value_zero_tail(self.0@, highest_byte + 1);
            lemma_value_skip_pred(s, highest_byte + 1);
            assert(s.skip(highest_byte + 1).len() == 0);
            if top >= 16 {
                assert(hex_digits((top / 16) as nat, upper) == seq![
                    hex_char((top / 16) as nat, upper),
                ]);
                assert(hex_digits(top as nat, upper) == hex_digits((top / 16) as nat, upper).push(
                    hex_char((top % 16) as nat, upper),
                ));
            }
            assert(out@ =~= hex_digits(top as nat, upper));
        }
        let mut i: usize = highest_byte;
        while i > 0
            invariant
                i <= highest_byte < BYTES,
                s == self.0@.take(highest_byte + 1),
                highest_byte > 0 ==> self.0@[highest_byte as int] != 0,
                out@ == hex_digits(le_value(s.skip(i as int)), upper),
            decreases i,
        {
            proof {
                lemma_value_skip_pred(s, i as int);
                lemma_nonzero_from_top(s, i as int);
                lemma_hex_append(le_value(s.skip(i as int)), s[i - 1], upper);
            }
            i -= 1;
            let byte = self.0[i];
            out.push(hex_char_of(byte / 16, upper));
            out.push(hex_char_of(byte % 16, upper));
        }
        proof {
            assert(s.skip(0) =~= s);
        }
        out
    }

    /// The lower-case hexadecimal digits of the integer.
    pub fn format_lower_hex(&self) -> (r: String)
        ensures
            r@ == hex_digits(self@, false),
    {
        self.format_hex(false)
    }

    /// The upper-case hexadecimal digits of the integer.
    pub fn format_upper_hex(&self) -> (r: String)
        ensures
            r@ == hex_digits(self@, true),
    {
        self.format_hex(true)
    }

    /// The decimal digits of the integer, most significant first, without a
    /// sign and without leading zeros.
    pub fn format_decimal(&self) -> (r: String)
        ensures
            r@ == decimal_digits(self@),
    {
        let zero = u206265::zero();
        let mut out = String::new();
        if const_eq(self, &zero) {
            out.push('0');
            proof {
                assert(out@ =~= decimal_digits(0));
            }
            return out;
        }
        let chunk = u206265::from_u128(CHUNK);
        let mut chunks: Vec<u128> = Vec::new();
        let mut val = self.const_clone();
        let ghost mut quotients: Seq<nat> = seq![self@];
        while !const_eq(&val, &zero)
            invariant
                zero@ == 0,
                chunk@ == CHUNK,
                quotients.len() == chunks.len() + 1,
                quotients[0] == self@,
                quotients.last() == val@,
                self@ != 0,
                forall|j: int| 0 <= j < chunks.len() ==> quotients[j] > 0,
                forall|j: int|
                    0 <= j < chunks.len() ==> #[trigger] quotients[j + 1] == quotients[j] / (
                    CHUNK as nat),
                forall|j: int|
                    0 <= j < chunks.len() ==> #[trigger] chunks[j] as nat == quotients[j] % (
                    CHUNK as nat),
            decreases val@,
        {
            let (div, rem) = const_div_rem(&val, &chunk).unwrap();
            proof {
                lemma_mod_bound(val@ as int, CHUNK as int);
                lemma_div_is_strictly_smaller(val@ as int, CHUNK as int);
                quotients = quotients.push(div@);
            }
            let digits = rem.try_into_u128().unwrap();
            val = div;
            chunks.push(digits);
        }
        let mut i: usize = chunks.len() - 1;
        proof {
            assert(quotients[i + 1] == quotients[i as int] / (CHUNK as nat));
            if quotients[i as int] >= CHUNK {
                vstd::arithmetic::div_mod::lemma_div_non_zero(
                    quotients[i as int] as int,
                    CHUNK as int,
                );
            }
            vstd::arithmetic::div_mod::lemma_small_mod(quotients[i as int], CHUNK as nat);
            assert(out@ + decimal_digits(chunks[i as int] as nat) =~= decimal_digits(
                chunks[i as int] as nat,
            ));
        }
        push_decimal(&mut out, chunks[i]);
        while i > 0
            invariant
                i < chunks.len(),
                quotients.len() == chunks.len() + 1,
                quotients[0] == self@,
                forall|j: int| 0 <= j < chunks.len() ==> quotients[j] > 0,
                forall|j: int|
                    0 <= j < chunks.len() ==> #[trigger] quotients[j + 1] == quotients[j] / (
                    CHUNK as nat),
                forall|j: int|
                    0 <= j < chunks.len() ==> #[trigger] chunks[j] as nat == quotients[j] % (
                    CHUNK as nat),
                out@ == decimal_digits(quotients[i as int]),
            decreases i,
        {
            i -= 1;
            proof {
                let q = quotients[i as int];
                lemma_chunk();
                lemma_fundamental_div_mod(q as int, CHUNK as int);
                lemma_mod_bound(q as int, CHUNK as int);
                assert(quotients[i + 1] == q / (CHUNK as nat));
                assert(chunks[i as int] as nat == q % (CHUNK as nat));
                assert((CHUNK as nat) * quotients[i + 1] == quotients[i + 1] * pow10(38))
                    by (nonlinear_arith)
                    requires
                        pow10(38) == CHUNK,
                ;
                lemma_decimal_append(quotients[i + 1], chunks[i as int] as nat, 38);
            }
            push_padded_decimal(&mut out, chunks[i], CHUNK_DIGITS);
        }
        out
    }
}

/// Bytes whose top byte is not zero denote a nonzero number, whatever is
/// dropped below.
proof fn lemma_nonzero_from_top(s: Seq<u8>, i: int)
    requires
        0 <= i < s.len(),
        s.last() != 0,
    ensures
        le_value(s.skip(i)) > 0,
{
    let t = s.skip(i);
    assert(t.last() == s.last());
    let p = pow256((t.len() - 1) as nat);
    crate::radix::lemma_pow256_monotonic(0, (t.len() - 1) as nat);
    assert(t.last() as nat * p >= 1) by (nonlinear_arith)
        requires
            t.last() as nat >= 1,
            p >= 1,
    ;
}

} // verus!
