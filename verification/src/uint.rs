//! The integer type, its invariant and its constants.
use crate::radix::{
    le_value, lemma_pow256_zero, lemma_value_bound, lemma_value_injective, lemma_value_ones,
    lemma_value_significant, lemma_value_take_succ, lemma_value_top_byte, lemma_value_zero_tail,
    lemma_value_zeros, pow256, significant_len,
};
use vstd::arithmetic::power2::{lemma2_to64, lemma_pow2_adds, lemma_pow2_pos, pow2};
use vstd::prelude::*;

verus! {

/// Number of bits in the integer.
pub const BITS: usize = 206_265;

/// Number of bytes that hold the integer; the last one uses a single bit.
pub const BYTES: usize = 25_784;

/// The exclusive upper bound of the representable values: two to the power
/// of the bit width.
pub open spec fn modulus() -> nat {
    pow2(206_265)
}

/// The modulus is twice the weight of the most significant byte.
pub proof fn lemma_modulus()
    ensures
        modulus() == 2 * pow256(25_783),
        pow256(25_784) == 128 * modulus(),
        modulus() > 0,
{
    lemma2_to64();
    lemma_pow2_adds(1, 206_264);
    lemma_pow2_adds(7, 206_265);
    lemma_pow2_pos(206_265);
}

/// An unsigned integer of exactly 206265 bits, held as little-endian bytes.
#[allow(non_camel_case_types)]
#[derive(Debug, Hash)]
pub struct u206265(pub(crate) [u8; BYTES]);

impl Clone for u206265 {
    fn clone(&self) -> (r: Self)
        ensures
            r == *self,
    {
        self.const_clone()
    }
}

impl View for u206265 {
    type V = nat;

    /// The number that the integer denotes.
    open(crate) spec fn view(&self) -> nat {
        le_value(self.0@)
    }
}

impl u206265 {
    /// Only the lowest bit of the most significant byte is ever used.
    #[verifier::type_invariant]
    pub open(crate) spec fn wf(self) -> bool {
        self.0[BYTES - 1] <= 1
    }

    /// The bytes of the integer, least significant first.
    pub open(crate) spec fn bytes(self) -> Seq<u8> {
        self.0@
    }

    /// The bytes are as many as the width asks for, and the number is their
    /// little-endian value.
    pub proof fn lemma_bytes(self)
        ensures
            self.bytes().len() == BYTES,
            self@ == le_value(self.bytes()),
            self.wf() <==> self.bytes()[BYTES - 1] <= 1,
    {
    }

    /// A well-formed integer is below the modulus, and nothing else is.
    pub proof fn lemma_wf(self)
        ensures
            self.wf() <==> self@ < modulus(),
    {
        lemma_top_byte(self.0@);
    }

    /// The integer that denotes the number `v`, for a number below the
    /// modulus.
    pub open spec fn of_nat(v: nat) -> Self {
        choose|x: Self| x.wf() && x@ == v
    }

    /// An integer is the integer of the number that it denotes.
    pub proof fn lemma_of_nat(self)
        requires
            self.wf(),
        ensures
            Self::of_nat(self@) == self,
            Self::of_nat(self@).wf(),
    {
        let x = Self::of_nat(self@);
        assert(x.wf() && x@ == self@);
        x.lemma_view_injective(self);
    }

    /// The integer that holds the bytes `s`.
    pub open spec fn of_bytes(s: Seq<u8>) -> Self {
        choose|x: Self| x.bytes() == s
    }

    /// An integer is the integer of the bytes that it holds.
    pub proof fn lemma_of_bytes(self)
        ensures
            Self::of_bytes(self.bytes()) == self,
    {
        let x = Self::of_bytes(self.bytes());
        assert(x.bytes() == self.bytes());
        assert(x.0 =~= self.0);
    }

    /// Integers that denote the same number are the same integer.
    pub proof fn lemma_view_injective(self, other: Self)
        requires
            self@ == other@,
        ensures
            self == other,
    {
        lemma_value_injective(self.0@, other.0@);
        assert(self.0 =~= other.0);
    }

    /// Number of bytes actually containing something.
    pub fn significant_bytes(&self) -> (n: usize)
        ensures
            n == significant_len(self@),
            1 <= n <= BYTES,
            forall|j: int| n <= j < BYTES ==> self.bytes()[j] == 0,
            n > 1 ==> self.bytes()[n - 1] != 0,
            self@ < pow256(n as nat),
            n > 1 ==> self@ >= pow256((n - 1) as nat),
    {
        let mut i: usize = BYTES - 1;
        loop
            invariant
                i < BYTES,
                forall|j: int| i < j < BYTES ==> self.0[j] == 0,
            decreases i,
        {
            if self.0[i] > 0 {
                proof {
                    lemma_value_significant(self.0@, i + 1);
                }
                return i + 1;
            }
            if i == 0 {
                proof {
                    lemma_value_significant(self.0@, 1);
                }
                return 1;
            }
            i -= 1;
        }
    }

    /// Same as [`Self::significant_bytes`], but returns `u32` instead of `usize`.
    pub fn significant_bytes_u32(&self) -> (n: u32)
        ensures
            n == significant_len(self@),
            1 <= n <= BYTES,
    {
        let n = self.significant_bytes();
        n as u32
    }

    /// A byte slice of internal memory, containing integer's data.
    pub fn significant_bytes_slice(&self) -> (s: &[u8])
        ensures
            s@ == self.bytes().take(significant_len(self@) as int),
    {
        let n = self.significant_bytes();
        vstd::slice::slice_subrange(self.0.as_slice(), 0, n)
    }

    /// A copy of the integer.
    pub fn const_clone(&self) -> (r: Self)
        ensures
            r == *self,
    {
        proof {
            use_type_invariant(self);
        }
        u206265(self.0)
    }

    /// The minimum value: zero.
    pub fn min_value() -> (r: Self)
        ensures
            r@ == 0,
    {
        Self::zero()
    }

    /// The integer zero.
    pub fn zero() -> (r: Self)
        ensures
            r@ == 0,
    {
        let r = u206265([0u8; BYTES]);
        proof {
            lemma_value_zeros(r.0@);
        }
        r
    }

    /// The integer one.
    pub fn one() -> (r: Self)
        ensures
            r@ == 1,
    {
        let mut a = [0u8; BYTES];
        a[0] = 1;
        proof {
            lemma_value_zero_tail(a@, 1);
            lemma_value_take_succ(a@, 0);
            lemma_pow256_zero();
        }
        u206265(a)
    }

    /// The maximum value: two to the power of the bit width, minus one.
    pub fn max_value() -> (r: Self)
        ensures
            r@ == modulus() - 1,
    {
        let mut a = [0xffu8; BYTES];
        a[BYTES - 1] = 1;
        proof {
            lemma_modulus();
            lemma_value_ones(a@.take(BYTES - 1));
            lemma_value_take_succ(a@, BYTES - 1);
            assert(a@.take(BYTES as int) =~= a@);
        }
        u206265(a)
    }
}

/// The most significant byte uses only its lowest bit exactly when the
/// bytes denote a number below the modulus.
pub proof fn lemma_top_byte(s: Seq<u8>)
    requires
        s.len() == BYTES,
    ensures
        s[BYTES - 1] <= 1 <==> le_value(s) < modulus(),
{
    lemma_modulus();
    lemma_value_top_byte(s);
    lemma_value_bound(s.drop_last());
    let p = pow256(25_783);
    let top = s[BYTES - 1] as nat;
    let low = le_value(s.drop_last());
    assert(le_value(s) == low + top * p);
    if top <= 1 {
        assert(top * p <= p) by (nonlinear_arith)
            requires
                top <= 1,
        ;
    } else {
        assert(top * p >= 2 * p) by (nonlinear_arith)
            requires
                top >= 2,
        ;
    }
}

} // verus!
