//! Bitwise AND, OR, XOR and NOT, byte by byte.
//!
//! Every result is stated twice: over the bytes of the operands, and over
//! the single bits of the numbers that they denote.
use crate::bits::{bit, lemma_and_bits, lemma_not_bits, lemma_or_bits, lemma_xor_bits};
use crate::radix::{le_value, lemma_pow256_succ, pow256};
use crate::uint::{lemma_modulus, modulus, u206265, BYTES};
use vstd::prelude::*;

verus! {

/// The bytewise AND of two byte sequences.
pub open spec fn bytes_and(a: Seq<u8>, b: Seq<u8>) -> Seq<u8> {
    Seq::new(a.len(), |i: int| a[i] & b[i])
}

/// The bytewise OR of two byte sequences.
pub open spec fn bytes_or(a: Seq<u8>, b: Seq<u8>) -> Seq<u8> {
    Seq::new(a.len(), |i: int| a[i] | b[i])
}

/// The bytewise XOR of two byte sequences.
pub open spec fn bytes_xor(a: Seq<u8>, b: Seq<u8>) -> Seq<u8> {
    Seq::new(a.len(), |i: int| a[i] ^ b[i])
}

/// The bytewise complement of a byte sequence, with the last byte masked
/// to its lowest bit.
pub open spec fn bytes_not(a: Seq<u8>) -> Seq<u8> {
    Seq::new(
        a.len(),
        |i: int|
            if i == a.len() - 1 {
                !a[i] & 0x01
            } else {
                !a[i]
            },
    )
}

/// What the three binary operations do to zero bytes and to the top byte.
proof fn lemma_byte_facts(a: u8, b: u8)
    ensures
        a & b <= a,
        a <= 1 && b <= 1 ==> a | b <= 1,
        a <= 1 && b <= 1 ==> a ^ b <= 1,
        a == 0 && b == 0 ==> a & b == 0 && a | b == 0 && a ^ b == 0,
{
    assert(a & b <= a) by (bit_vector);
    assert(a <= 1 && b <= 1 ==> a | b <= 1) by (bit_vector);
    assert(a <= 1 && b <= 1 ==> a ^ b <= 1) by (bit_vector);
    assert(a == 0 && b == 0 ==> a & b == 0 && a | b == 0 && a ^ b == 0) by (bit_vector);
}

/// The complement of a byte, and of the single bit of the top byte.
proof fn lemma_complement(a: u8)
    ensures
        !a == 255 - a,
        a <= 1 ==> !a & 0x01 == 1 - a,
{
    assert(!a == 255 - a) by (bit_vector);
    assert(a <= 1 ==> !a & 0x01 == 1 - a) by (bit_vector);
}

/// The complement of the bytes below the top denotes what is missing to
/// the largest number of that length.
proof fn lemma_complement_value(a: Seq<u8>, c: Seq<u8>)
    requires
        a.len() == c.len(),
        forall|j: int| 0 <= j < a.len() ==> c[j] == 255 - a[j],
    ensures
        le_value(a) + le_value(c) + 1 == pow256(a.len()),
    decreases a.len(),
{
    if a.len() == 0 {
        crate::radix::lemma_pow256_zero();
    } else {
        let n = (a.len() - 1) as nat;
        lemma_complement_value(a.drop_last(), c.drop_last());
        lemma_pow256_succ(n);
        let p = pow256(n);
        let x = a.last() as nat;
        let y = c.last() as nat;
        assert(x * p + y * p == 255 * p) by (nonlinear_arith)
            requires
                x + y == 255,
        ;
    }
}

/// The complement denotes the largest integer minus the number.
pub proof fn lemma_not_value(a: Seq<u8>)
    requires
        a.len() == BYTES,
        a[BYTES - 1] <= 1,
    ensures
        le_value(bytes_not(a)) == modulus() - 1 - le_value(a),
        bytes_not(a)[BYTES - 1] <= 1,
{
    let c = bytes_not(a);
    assert forall|j: int| 0 <= j < BYTES - 1 implies c.drop_last()[j] == 255 - a.drop_last()[j] by {
        lemma_complement(a[j]);
    }
    lemma_complement(a[BYTES - 1]);
    lemma_complement_value(a.drop_last(), c.drop_last());
    lemma_modulus();
    let p = pow256((BYTES - 1) as nat);
    let x = a[BYTES - 1] as nat;
    let y = c[BYTES - 1] as nat;
    assert(x * p + y * p == p) by (nonlinear_arith)
        requires
            x + y == 1,
    ;
}

/// Replaces `lhs` by the bitwise AND of `lhs` and `rhs`.
pub fn const_bitand_assign(lhs: &mut u206265, rhs: &u206265)
    ensures
        final(lhs).bytes() == bytes_and(old(lhs).bytes(), rhs.bytes()),
        forall|i: nat| #[trigger] bit(final(lhs)@, i) == (bit(old(lhs)@, i) && bit(rhs@, i)),
{
    let lhs_bytes = lhs.significant_bytes();
    let rhs_bytes = rhs.significant_bytes();
    let bytes = if lhs_bytes >= rhs_bytes {
        lhs_bytes
    } else {
        rhs_bytes
    };
    let ghost a = lhs.0@;
    let ghost b = rhs.0@;
    proof {
        use_type_invariant(&*lhs);
        assert(a == lhs.bytes());
        assert(b == rhs.bytes());
    }
    let mut i: usize = 0;
    while i < bytes
        invariant
            i <= bytes <= BYTES,
            b == rhs.0@,
            a.len() == BYTES,
            a[BYTES - 1] <= 1,
            lhs.0[BYTES - 1] <= 1,
            forall|j: int| 0 <= j < i ==> lhs.0@[j] == a[j] & b[j],
            forall|j: int| i <= j < BYTES ==> lhs.0@[j] == a[j],
        decreases bytes - i,
    {
        proof {
            lemma_byte_facts(lhs.0@[i as int], rhs.0@[i as int]);
        }
        lhs.0[i] &= rhs.0[i];
        i += 1;
    }
    proof {
        assert forall|j: int| 0 <= j < BYTES implies lhs.0@[j] == a[j] & b[j] by {
            lemma_byte_facts(a[j], b[j]);
        }
        assert(lhs.0@ =~= bytes_and(a, b));
        assert forall|i: nat| #[trigger] bit(lhs@, i) == (bit(old(lhs)@, i) && bit(rhs@, i)) by {
            lemma_and_bits(*old(lhs), *rhs, i);
        }
    }
}

/// The bitwise AND of `lhs` and `rhs`.
pub fn const_bitand(lhs: &u206265, rhs: &u206265) -> (r: u206265)
    ensures
        r.bytes() == bytes_and(lhs.bytes(), rhs.bytes()),
        forall|i: nat| #[trigger] bit(r@, i) == (bit(lhs@, i) && bit(rhs@, i)),
{
    let mut result = lhs.const_clone();
    const_bitand_assign(&mut result, rhs);
    result
}

/// Replaces `lhs` by the bitwise OR of `lhs` and `rhs`.
pub fn const_bitor_assign(lhs: &mut u206265, rhs: &u206265)
    ensures
        final(lhs).bytes() == bytes_or(old(lhs).bytes(), rhs.bytes()),
        forall|i: nat| #[trigger] bit(final(lhs)@, i) == (bit(old(lhs)@, i) || bit(rhs@, i)),
{
    let lhs_bytes = lhs.significant_bytes();
    let rhs_bytes = rhs.significant_bytes();
    let bytes = if lhs_bytes >= rhs_bytes {
        lhs_bytes
    } else {
        rhs_bytes
    };
    let ghost a = lhs.0@;
    let ghost b = rhs.0@;
    proof {
        use_type_invariant(&*lhs);
        use_type_invariant(rhs);
        assert(a == lhs.bytes());
        assert(b == rhs.bytes());
    }
    let mut i: usize = 0;
    while i < bytes
        invariant
            i <= bytes <= BYTES,
            b == rhs.0@,
            a.len() == BYTES,
            a[BYTES - 1] <= 1,
            b[BYTES - 1] <= 1,
            lhs.0[BYTES - 1] <= 1,
            forall|j: int| 0 <= j < i ==> lhs.0@[j] == a[j] | b[j],
            forall|j: int| i <= j < BYTES ==> lhs.0@[j] == a[j],
        decreases bytes - i,
    {
        proof {
            lemma_byte_facts(lhs.0@[i as int], rhs.0@[i as int]);
        }
        lhs.0[i] |= rhs.0[i];
        i += 1;
    }
    proof {
        assert forall|j: int| 0 <= j < BYTES implies lhs.0@[j] == a[j] | b[j] by {
            lemma_byte_facts(a[j], b[j]);
        }
        assert(lhs.0@ =~= bytes_or(a, b));
        assert forall|i: nat| #[trigger] bit(lhs@, i) == (bit(old(lhs)@, i) || bit(rhs@, i)) by {
            lemma_or_bits(*old(lhs), *rhs, i);
        }
    }
}

/// The bitwise OR of `lhs` and `rhs`.
pub fn const_bitor(lhs: &u206265, rhs: &u206265) -> (r: u206265)
    ensures
        r.bytes() == bytes_or(lhs.bytes(), rhs.bytes()),
        forall|i: nat| #[trigger] bit(r@, i) == (bit(lhs@, i) || bit(rhs@, i)),
{
    let mut result = lhs.const_clone();
    const_bitor_assign(&mut result, rhs);
    result
}

/// Replaces `lhs` by the bitwise XOR of `lhs` and `rhs`.
pub fn const_bitxor_assign(lhs: &mut u206265, rhs: &u206265)
    ensures
        final(lhs).bytes() == bytes_xor(old(lhs).bytes(), rhs.bytes()),
        forall|i: nat| #[trigger] bit(final(lhs)@, i) == (bit(old(lhs)@, i) != bit(rhs@, i)),
{
    let lhs_bytes = lhs.significant_bytes();
    let rhs_bytes = rhs.significant_bytes();
    let bytes = if lhs_bytes >= rhs_bytes {
        lhs_bytes
    } else {
        rhs_bytes
    };
    let ghost a = lhs.0@;
    let ghost b = rhs.0@;
    proof {
        use_type_invariant(&*lhs);
        use_type_invariant(rhs);
        assert(a == lhs.bytes());
        assert(b == rhs.bytes());
    }
    let mut i: usize = 0;
    while i < bytes
        invariant
            i <= bytes <= BYTES,
            b == rhs.0@,
            a.len() == BYTES,
            a[BYTES - 1] <= 1,
            b[BYTES - 1] <= 1,
            lhs.0[BYTES - 1] <= 1,
            forall|j: int| 0 <= j < i ==> lhs.0@[j] == a[j] ^ b[j],
            forall|j: int| i <= j < BYTES ==> lhs.0@[j] == a[j],
        decreases bytes - i,
    {
        proof {
            lemma_byte_facts(lhs.0@[i as int], rhs.0@[i as int]);
        }
        lhs.0[i] ^= rhs.0[i];
        i += 1;
    }
    proof {
        assert forall|j: int| 0 <= j < BYTES implies lhs.0@[j] == a[j] ^ b[j] by {
            lemma_byte_facts(a[j], b[j]);
        }
        assert(lhs.0@ =~= bytes_xor(a, b));
        assert forall|i: nat| #[trigger] bit(lhs@, i) == (bit(old(lhs)@, i) != bit(rhs@, i)) by {
            lemma_xor_bits(*old(lhs), *rhs, i);
        }
    }
}

/// The bitwise XOR of `lhs` and `rhs`.
pub fn const_bitxor(lhs: &u206265, rhs: &u206265) -> (r: u206265)
    ensures
        r.bytes() == bytes_xor(lhs.bytes(), rhs.bytes()),
        forall|i: nat| #[trigger] bit(r@, i) == (bit(lhs@, i) != bit(rhs@, i)),
{
    let mut result = lhs.const_clone();
    const_bitxor_assign(&mut result, rhs);
    result
}

/// Inverts every bit of the integer in place.
pub fn const_not_assign(val: &mut u206265)
    ensures
        final(val).bytes() == bytes_not(old(val).bytes()),
        final(val)@ == modulus() - 1 - old(val)@,
        forall|i: nat| #[trigger] bit(final(val)@, i) == (i < 206_265 && !bit(old(val)@, i)),
{
    let ghost a = val.0@;
    proof {
        use_type_invariant(&*val);
    }
    let mut i: usize = 0;
    while i < BYTES - 1
        invariant
            i <= BYTES - 1,
            a.len() == BYTES,
            val.0[BYTES - 1] <= 1,
            forall|j: int| 0 <= j < i ==> val.0@[j] == !a[j],
            forall|j: int| i <= j < BYTES ==> val.0@[j] == a[j],
        decreases BYTES - 1 - i,
    {
        val.0[i] = !val.0[i];
        i += 1;
    }
    proof {
        lemma_complement(a[BYTES - 1]);
    }
    val.0[BYTES - 1] = !val.0[BYTES - 1] & 0x01;
    proof {
        assert(val.0@ =~= bytes_not(a));
        lemma_not_value(a);
        assert forall|i: nat| #[trigger] bit(val@, i) == (i < 206_265 && !bit(old(val)@, i)) by {
            lemma_not_bits(*old(val), i);
        }
    }
}

} // verus!
