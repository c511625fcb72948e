//! Conversions between the integer and the native integer types.
use crate::radix::{
    le_value, lemma_pow256_monotonic, lemma_pow256_succ, lemma_pow256_zero, lemma_value_bound,
    lemma_value_skip_pred, lemma_value_take_succ, lemma_value_zero_tail, pow256, significant_len,
};
use crate::uint::{u206265, BYTES};
use vstd::arithmetic::power2::{lemma2_to64, lemma_pow2_adds};
use vstd::layout::unsigned_int_max_values;
use vstd::prelude::*;

verus! {

/// The failure to convert the integer into a smaller unsigned integer.
#[allow(non_camel_case_types)]
#[derive(Debug, PartialEq, Eq, PartialOrd, Ord, Hash)]
pub struct u206265ToUnsigned {
    /// Minimum number of bytes required for successful conversion.
    pub bytes_required: usize,
}

/// The failure to convert a negative integer into the unsigned integer.
#[derive(Debug)]
pub struct NegativeIntError(());

impl NegativeIntError {
    /// The one value of this error.
    pub closed spec fn value() -> Self {
        NegativeIntError(())
    }

    /// Creates the error.
    pub(crate) fn new() -> (r: Self)
        ensures
            r == Self::value(),
    {
        NegativeIntError(())
    }
}

/// The failure to convert the integer into a signed integer.
#[allow(non_camel_case_types)]
#[derive(Debug, PartialEq, Eq, PartialOrd, Ord, Hash)]
pub enum u206265ToSigned {
    /// The number does not fit the unsigned integer of the same width.
    Unsigned(u206265ToUnsigned),
    /// The number fits the unsigned integer of the same width, but not the
    /// signed one.
    Signed,
}

/// What narrowing a number to `width` bytes gives: the number if it fits,
/// else the number of bytes that it needs.
pub open spec fn narrowed(v: nat, width: nat) -> Result<nat, u206265ToUnsigned> {
    if v < pow256(width) {
        Ok(v)
    } else {
        Err(u206265ToUnsigned { bytes_required: significant_len(v) as usize })
    }
}

/// What widening a native signed value gives: the number, unless the value
/// is negative.
pub open spec fn widened(value: int) -> Option<nat> {
    if value < 0 {
        None
    } else {
        Some(value as nat)
    }
}

/// What converting a number into a `u8` gives: the number if it fits, else
/// the number of bytes that it needs.
pub open spec fn narrowed_u8(v: nat) -> Result<u8, u206265ToUnsigned> {
    if v <= u8::MAX {
        Ok(v as u8)
    } else {
        Err(u206265ToUnsigned { bytes_required: significant_len(v) as usize })
    }
}

/// What converting a number into a `u16` gives: the number if it fits, else
/// the number of bytes that it needs.
pub open spec fn narrowed_u16(v: nat) -> Result<u16, u206265ToUnsigned> {
    if v <= u16::MAX {
        Ok(v as u16)
    } else {
        Err(u206265ToUnsigned { bytes_required: significant_len(v) as usize })
    }
}

/// What converting a number into a `u32` gives: the number if it fits, else
/// the number of bytes that it needs.
pub open spec fn narrowed_u32(v: nat) -> Result<u32, u206265ToUnsigned> {
    if v <= u32::MAX {
        Ok(v as u32)
    } else {
        Err(u206265ToUnsigned { bytes_required: significant_len(v) as usize })
    }
}

/// What converting a number into a `u64` gives: the number if it fits, else
/// the number of bytes that it needs.
pub open spec fn narrowed_u64(v: nat) -> Result<u64, u206265ToUnsigned> {
    if v <= u64::MAX {
        Ok(v as u64)
    } else {
        Err(u206265ToUnsigned { bytes_required: significant_len(v) as usize })
    }
}

/// What converting a number into a `u128` gives: the number if it fits, else
/// the number of bytes that it needs.
pub open spec fn narrowed_u128(v: nat) -> Result<u128, u206265ToUnsigned> {
    if v <= u128::MAX {
        Ok(v as u128)
    } else {
        Err(u206265ToUnsigned { bytes_required: significant_len(v) as usize })
    }
}

/// What converting a number into a `usize` gives: the number if it fits, else
/// the number of bytes that it needs.
pub open spec fn narrowed_usize(v: nat) -> Result<usize, u206265ToUnsigned> {
    if v <= usize::MAX {
        Ok(v as usize)
    } else {
        Err(u206265ToUnsigned { bytes_required: significant_len(v) as usize })
    }
}

/// What converting a number into an `i8` gives: the number if it fits; else
/// which of the two steps fails, the one into a `u8` or the one from there
/// into an `i8`.
pub open spec fn narrowed_i8(v: nat) -> Result<i8, u206265ToSigned> {
    match narrowed_u8(v) {
        Err(error) => Err(u206265ToSigned::Unsigned(error)),
        Ok(unsigned) => if unsigned <= i8::MAX {
            Ok(unsigned as i8)
        } else {
            Err(u206265ToSigned::Signed)
        },
    }
}

/// What converting a number into an `i16` gives: the number if it fits; else
/// which of the two steps fails, the one into a `u16` or the one from there
/// into an `i16`.
pub open spec fn narrowed_i16(v: nat) -> Result<i16, u206265ToSigned> {
    match narrowed_u16(v) {
        Err(error) => Err(u206265ToSigned::Unsigned(error)),
        Ok(unsigned) => if unsigned <= i16::MAX {
            Ok(unsigned as i16)
        } else {
            Err(u206265ToSigned::Signed)
        },
    }
}

/// What converting a number into an `i32` gives: the number if it fits; else
/// which of the two steps fails, the one into a `u32` or the one from there
/// into an `i32`.
pub open spec fn narrowed_i32(v: nat) -> Result<i32, u206265ToSigned> {
    match narrowed_u32(v) {
        Err(error) => Err(u206265ToSigned::Unsigned(error)),
        Ok(unsigned) => if unsigned <= i32::MAX {
            Ok(unsigned as i32)
        } else {
            Err(u206265ToSigned::Signed)
        },
    }
}

/// What converting a number into an `i64` gives: the number if it fits; else
/// which of the two steps fails, the one into a `u64` or the one from there
/// into an `i64`.
pub open spec fn narrowed_i64(v: nat) -> Result<i64, u206265ToSigned> {
    match narrowed_u64(v) {
        Err(error) => Err(u206265ToSigned::Unsigned(error)),
        Ok(unsigned) => if unsigned <= i64::MAX {
            Ok(unsigned as i64)
        } else {
            Err(u206265ToSigned::Signed)
        },
    }
}

/// What converting a number into an `i128` gives: the number if it fits; else
/// which of the two steps fails, the one into a `u128` or the one from there
/// into an `i128`.
pub open spec fn narrowed_i128(v: nat) -> Result<i128, u206265ToSigned> {
    match narrowed_u128(v) {
        Err(error) => Err(u206265ToSigned::Unsigned(error)),
        Ok(unsigned) => if unsigned <= i128::MAX {
            Ok(unsigned as i128)
        } else {
            Err(u206265ToSigned::Signed)
        },
    }
}

/// What converting a number into an `isize` gives: the number if it fits; else
/// which of the two steps fails, the one into a `usize` or the one from there
/// into an `isize`.
pub open spec fn narrowed_isize(v: nat) -> Result<isize, u206265ToSigned> {
    match narrowed_usize(v) {
        Err(error) => Err(u206265ToSigned::Unsigned(error)),
        Ok(unsigned) => if unsigned <= isize::MAX {
            Ok(unsigned as isize)
        } else {
            Err(u206265ToSigned::Signed)
        },
    }
}

/// The weights of the byte positions at which the native integers end.
pub proof fn lemma_native_widths()
    ensures
        pow256(1) == u8::MAX + 1,
        pow256(2) == u16::MAX + 1,
        pow256(4) == u32::MAX + 1,
        pow256(8) == u64::MAX + 1,
        pow256(16) == u128::MAX + 1,
        pow256((usize::BITS / 8) as nat) == usize::MAX + 1,
{
    lemma2_to64();
    lemma_pow2_adds(64, 64);
    unsigned_int_max_values();
    assert(0x10000000000000000 * 0x10000000000000000 == 0x100000000000000000000000000000000int)
        by (nonlinear_arith);
}

/// Creates the integer from little-endian bytes: the least significant byte
/// comes first.
///
/// There must be no more bytes than the integer has, and if there are as
/// many, the last one must be at most 1.
pub fn create_bytes<const N: usize>(bytes: [u8; N]) -> (r: u206265)
    requires
        N <= BYTES,
        N == BYTES ==> bytes[BYTES - 1] <= 1,
    ensures
        r@ == le_value(bytes@),
{
    let mut result = [0u8; BYTES];
    let mut i: usize = 0;
    while i < N
        invariant
            i <= N <= BYTES,
            forall|j: int| 0 <= j < i ==> result@[j] == bytes@[j],
            forall|j: int| i <= j < BYTES ==> result@[j] == 0,
        decreases N - i,
    {
        result[i] = bytes[i];
        i += 1;
    }
    proof {
        lemma_value_zero_tail(result@, N as int);
        assert(result@.take(N as int) =~= bytes@);
    }
    u206265(result)
}

/// The sixteen little-endian bytes of a native integer.
fn le_bytes_of(value: u128) -> (r: [u8; 16])
    ensures
        le_value(r@) == value,
{
    let mut result = [0u8; 16];
    let mut rest = value;
    let mut i: usize = 0;
    proof {
        lemma_pow256_zero();
        assert(result@.take(0).len() == 0);
    }
    while i < 16
        invariant
            i <= 16,
            le_value(result@.take(i as int)) + rest * pow256(i as nat) == value,
        decreases 16 - i,
    {
        let ghost before = result@;
        let ghost rest_in = rest as nat;
        result[i] = (rest % 256) as u8;
        rest = rest / 256;
        proof {
            assert(result@.take(i as int) =~= before.take(i as int));
            lemma_value_take_succ(result@, i as int);
            lemma_pow256_succ(i as nat);
            let p = pow256(i as nat);
            let b = result@[i as int] as nat;
            assert(b * p + rest as nat * (256 * p) == rest_in * p) by (nonlinear_arith)
                requires
                    rest_in == 256 * rest as nat + b,
            ;
        }
        i += 1;
    }
    proof {
        lemma_native_widths();
        assert(result@.take(16) =~= result@);
        let p = pow256(16);
        let low = le_value(result@);
        assert(rest == 0) by (nonlinear_arith)
            requires
                low + rest * p == value,
                value < p,
        ;
    }
    result
}

impl u206265 {
    /// The number that the lowest `width` bytes denote.
    fn low_value(&self, width: usize) -> (r: u128)
        requires
            1 <= width <= 16,
        ensures
            r == le_value(self.bytes().take(width as int)),
    {
        let ghost s = self.0@.take(width as int);
        let mut acc: u128 = 0;
        let mut i: usize = width;
        proof {
            assert(s.skip(width as int).len() == 0);
            lemma_native_widths();
        }
        while i > 0
            invariant
                i <= width <= 16,
                s == self.0@.take(width as int),
                acc == le_value(s.skip(i as int)),
                pow256(16) == u128::MAX + 1,
            decreases i,
        {
            proof {
                lemma_value_skip_pred(s, i as int);
                lemma_value_bound(s.skip(i as int));
                lemma_value_bound(s.skip(i - 1));
                lemma_pow256_monotonic((width - i + 1) as nat, 16);
            }
            i -= 1;
            acc = acc * 256 + self.0[i] as u128;
        }
        proof {
            assert(s.skip(0) =~= s);
        }
        acc
    }

    /// Narrows the integer to `width` bytes, if it fits.
    fn narrow(&self, width: usize) -> (r: Result<u128, u206265ToUnsigned>)
        requires
            1 <= width <= 16,
        ensures
            match narrowed(self@, width as nat) {
                Ok(v) => r == Ok::<u128, u206265ToUnsigned>(v as u128) && v <= u128::MAX,
                Err(e) => r == Err::<u128, u206265ToUnsigned>(e),
            },
    {
        let significant_length = self.significant_bytes();
        if significant_length > width {
            proof {
                lemma_pow256_monotonic(width as nat, (significant_length - 1) as nat);
            }
            return Err(u206265ToUnsigned { bytes_required: significant_length });
        }
        proof {
            lemma_pow256_monotonic(significant_length as nat, width as nat);
            lemma_pow256_monotonic(width as nat, 16);
            lemma_native_widths();
            assert(self.0@ == self.bytes());
            lemma_value_zero_tail(self.0@, width as int);
        }
        Ok(self.low_value(width))
    }

    /// Creates the integer from a `u8`. This always succeeds.
    pub fn try_from_u8(value: u8) -> (r: Option<Self>)
        ensures
            r matches Some(x) && x@ == value,
    {
        Some(Self::from_u8(value))
    }

    /// Creates the integer from a `u8`.
    pub fn from_u8(value: u8) -> (r: Self)
        ensures
            r@ == value,
    {
        create_bytes(le_bytes_of(value as u128))
    }

    /// The largest `u8`, as the integer.
    pub fn max_u8() -> (r: Self)
        ensures
            r@ == u8::MAX,
    {
        Self::from_u8(u8::MAX)
    }

    /// Converts the integer into a `u8`, if it fits; else tells how many
    /// bytes the number needs.
    pub fn try_into_u8(&self) -> (r: Result<u8, u206265ToUnsigned>)
        ensures
            r == narrowed_u8(self@),
    {
        proof {
            lemma_native_widths();
        }
        match self.narrow(1) {
            Ok(value) => Ok(value as u8),
            Err(error) => Err(error),
        }
    }

    /// Creates the integer from a `u16`. This always succeeds.
    pub fn try_from_u16(value: u16) -> (r: Option<Self>)
        ensures
            r matches Some(x) && x@ == value,
    {
        Some(Self::from_u16(value))
    }

    /// Creates the integer from a `u16`.
    pub fn from_u16(value: u16) -> (r: Self)
        ensures
            r@ == value,
    {
        create_bytes(le_bytes_of(value as u128))
    }

    /// The largest `u16`, as the integer.
    pub fn max_u16() -> (r: Self)
        ensures
            r@ == u16::MAX,
    {
        Self::from_u16(u16::MAX)
    }

    /// Converts the integer into a `u16`, if it fits; else tells how many
    /// bytes the number needs.
    pub fn try_into_u16(&self) -> (r: Result<u16, u206265ToUnsigned>)
        ensures
            r == narrowed_u16(self@),
    {
        proof {
            lemma_native_widths();
        }
        match self.narrow(2) {
            Ok(value) => Ok(value as u16),
            Err(error) => Err(error),
        }
    }

    /// Creates the integer from a `u32`. This always succeeds.
    pub fn try_from_u32(value: u32) -> (r: Option<Self>)
        ensures
            r matches Some(x) && x@ == value,
    {
        Some(Self::from_u32(value))
    }

    /// Creates the integer from a `u32`.
    pub fn from_u32(value: u32) -> (r: Self)
        ensures
            r@ == value,
    {
        create_bytes(le_bytes_of(value as u128))
    }

    /// The largest `u32`, as the integer.
    pub fn max_u32() -> (r: Self)
        ensures
            r@ == u32::MAX,
    {
        Self::from_u32(u32::MAX)
    }

    /// Converts the integer into a `u32`, if it fits; else tells how many
    /// bytes the number needs.
    pub fn try_into_u32(&self) -> (r: Result<u32, u206265ToUnsigned>)
        ensures
            r == narrowed_u32(self@),
    {
        proof {
            lemma_native_widths();
        }
        match self.narrow(4) {
            Ok(value) => Ok(value as u32),
            Err(error) => Err(error),
        }
    }

    /// Creates the integer from a `u64`. This always succeeds.
    pub fn try_from_u64(value: u64) -> (r: Option<Self>)
        ensures
            r matches Some(x) && x@ == value,
    {
        Some(Self::from_u64(value))
    }

    /// Creates the integer from a `u64`.
    pub fn from_u64(value: u64) -> (r: Self)
        ensures
            r@ == value,
    {
        create_bytes(le_bytes_of(value as u128))
    }

    /// The largest `u64`, as the integer.
    pub fn max_u64() -> (r: Self)
        ensures
            r@ == u64::MAX,
    {
        Self::from_u64(u64::MAX)
    }

    /// Converts the integer into a `u64`, if it fits; else tells how many
    /// bytes the number needs.
    pub fn try_into_u64(&self) -> (r: Result<u64, u206265ToUnsigned>)
        ensures
            r == narrowed_u64(self@),
    {
        proof {
            lemma_native_widths();
        }
        match self.narrow(8) {
            Ok(value) => Ok(value as u64),
            Err(error) => Err(error),
        }
    }

    /// Creates the integer from a `u128`. This always succeeds.
    pub fn try_from_u128(value: u128) -> (r: Option<Self>)
        ensures
            r matches Some(x) && x@ == value,
    {
        Some(Self::from_u128(value))
    }

    /// Creates the integer from a `u128`.
    pub fn from_u128(value: u128) -> (r: Self)
        ensures
            r@ == value,
    {
        create_bytes(le_bytes_of(value as u128))
    }

    /// The largest `u128`, as the integer.
    pub fn max_u128() -> (r: Self)
        ensures
            r@ == u128::MAX,
    {
        Self::from_u128(u128::MAX)
    }

    /// Converts the integer into a `u128`, if it fits; else tells how many
    /// bytes the number needs.
    pub fn try_into_u128(&self) -> (r: Result<u128, u206265ToUnsigned>)
        ensures
            r == narrowed_u128(self@),
    {
        proof {
            lemma_native_widths();
        }
        match self.narrow(16) {
            Ok(value) => Ok(value as u128),
            Err(error) => Err(error),
        }
    }

    /// Creates the integer from a `usize`. This always succeeds.
    pub fn try_from_usize(value: usize) -> (r: Option<Self>)
        ensures
            r matches Some(x) && x@ == value,
    {
        Some(Self::from_usize(value))
    }

    /// Creates the integer from a `usize`.
    pub fn from_usize(value: usize) -> (r: Self)
        ensures
            r@ == value,
    {
        create_bytes(le_bytes_of(value as u128))
    }

    /// The largest `usize`, as the integer.
    pub fn max_usize() -> (r: Self)
        ensures
            r@ == usize::MAX,
    {
        Self::from_usize(usize::MAX)
    }

    /// Converts the integer into a `usize`, if it fits; else tells how many
    /// bytes the number needs.
    pub fn try_into_usize(&self) -> (r: Result<usize, u206265ToUnsigned>)
        ensures
            r == narrowed_usize(self@),
    {
        proof {
            lemma_native_widths();
        }
        match self.narrow((usize::BITS / 8) as usize) {
            Ok(value) => Ok(value as usize),
            Err(error) => Err(error),
        }
    }

    /// Creates the integer from an `i8`, unless the value is negative.
    pub fn try_from_i8(value: i8) -> (r: Option<Self>)
        ensures
            match r {
                Some(x) => widened(value as int) == Some(x@),
                None => widened(value as int) is None,
            },
    {
        if value >= 0 {
            Some(Self::from_u8(value as u8))
        } else {
            None
        }
    }

    /// The largest `i8`, as the integer.
    pub fn max_i8() -> (r: Self)
        ensures
            r@ == i8::MAX,
    {
        Self::from_u8(i8::MAX as u8)
    }

    /// Converts the integer into an `i8`. This fails when the number does
    /// not fit a `u8`, and when it fits a `u8` but not an `i8`.
    pub fn try_into_i8(&self) -> (r: Result<i8, u206265ToSigned>)
        ensures
            r == narrowed_i8(self@),
    {
        let unsigned = match self.try_into_u8() {
            Ok(unsigned) => unsigned,
            Err(error) => {
                return Err(u206265ToSigned::Unsigned(error));
            },
        };
        if unsigned <= i8::MAX as u8 {
            Ok(unsigned as i8)
        } else {
            Err(u206265ToSigned::Signed)
        }
    }

    /// Creates the integer from an `i16`, unless the value is negative.
    pub fn try_from_i16(value: i16) -> (r: Option<Self>)
        ensures
            match r {
                Some(x) => widened(value as int) == Some(x@),
                None => widened(value as int) is None,
            },
    {
        if value >= 0 {
            Some(Self::from_u16(value as u16))
        } else {
            None
        }
    }

    /// The largest `i16`, as the integer.
    pub fn max_i16() -> (r: Self)
        ensures
            r@ == i16::MAX,
    {
        Self::from_u16(i16::MAX as u16)
    }

    /// Converts the integer into an `i16`. This fails when the number does
    /// not fit a `u16`, and when it fits a `u16` but not an `i16`.
    pub fn try_into_i16(&self) -> (r: Result<i16, u206265ToSigned>)
        ensures
            r == narrowed_i16(self@),
    {
        let unsigned = match self.try_into_u16() {
            Ok(unsigned) => unsigned,
            Err(error) => {
                return Err(u206265ToSigned::Unsigned(error));
            },
        };
        if unsigned <= i16::MAX as u16 {
            Ok(unsigned as i16)
        } else {
            Err(u206265ToSigned::Signed)
        }
    }

    /// Creates the integer from an `i32`, unless the value is negative.
    pub fn try_from_i32(value: i32) -> (r: Option<Self>)
        ensures
            match r {
                Some(x) => widened(value as int) == Some(x@),
                None => widened(value as int) is None,
            },
    {
        if value >= 0 {
            Some(Self::from_u32(value as u32))
        } else {
            None
        }
    }

    /// The largest `i32`, as the integer.
    pub fn max_i32() -> (r: Self)
        ensures
            r@ == i32::MAX,
    {
        Self::from_u32(i32::MAX as u32)
    }

    /// Converts the integer into an `i32`. This fails when the number does
    /// not fit a `u32`, and when it fits a `u32` but not an `i32`.
    pub fn try_into_i32(&self) -> (r: Result<i32, u206265ToSigned>)
        ensures
            r == narrowed_i32(self@),
    {
        let unsigned = match self.try_into_u32() {
            Ok(unsigned) => unsigned,
            Err(error) => {
                return Err(u206265ToSigned::Unsigned(error));
            },
        };
        if unsigned <= i32::MAX as u32 {
            Ok(unsigned as i32)
        } else {
            Err(u206265ToSigned::Signed)
        }
    }

    /// Creates the integer from an `i64`, unless the value is negative.
    pub fn try_from_i64(value: i64) -> (r: Option<Self>)
        ensures
            match r {
                Some(x) => widened(value as int) == Some(x@),
                None => widened(value as int) is None,
            },
    {
        if value >= 0 {
            Some(Self::from_u64(value as u64))
        } else {
            None
        }
    }

    /// The largest `i64`, as the integer.
    pub fn max_i64() -> (r: Self)
        ensures
            r@ == i64::MAX,
    {
        Self::from_u64(i64::MAX as u64)
    }

    /// Converts the integer into an `i64`. This fails when the number does
    /// not fit a `u64`, and when it fits a `u64` but not an `i64`.
    pub fn try_into_i64(&self) -> (r: Result<i64, u206265ToSigned>)
        ensures
            r == narrowed_i64(self@),
    {
        let unsigned = match self.try_into_u64() {
            Ok(unsigned) => unsigned,
            Err(error) => {
                return Err(u206265ToSigned::Unsigned(error));
            },
        };
        if unsigned <= i64::MAX as u64 {
            Ok(unsigned as i64)
        } else {
            Err(u206265ToSigned::Signed)
        }
    }

    /// Creates the integer from an `i128`, unless the value is negative.
    pub fn try_from_i128(value: i128) -> (r: Option<Self>)
        ensures
            match r {
                Some(x) => widened(value as int) == Some(x@),
                None => widened(value as int) is None,
            },
    {
        if value >= 0 {
            Some(Self::from_u128(value as u128))
        } else {
            None
        }
    }

    /// The largest `i128`, as the integer.
    pub fn max_i128() -> (r: Self)
        ensures
            r@ == i128::MAX,
    {
        Self::from_u128(i128::MAX as u128)
    }

    /// Converts the integer into an `i128`. This fails when the number does
    /// not fit a `u128`, and when it fits a `u128` but not an `i128`.
    pub fn try_into_i128(&self) -> (r: Result<i128, u206265ToSigned>)
        ensures
            r == narrowed_i128(self@),
    {
        let unsigned = match self.try_into_u128() {
            Ok(unsigned) => unsigned,
            Err(error) => {
                return Err(u206265ToSigned::Unsigned(error));
            },
        };
        if unsigned <= i128::MAX as u128 {
            Ok(unsigned as i128)
        } else {
            Err(u206265ToSigned::Signed)
        }
    }

    /// Creates the integer from an `isize`, unless the value is negative.
    pub fn try_from_isize(value: isize) -> (r: Option<Self>)
        ensures
            match r {
                Some(x) => widened(value as int) == Some(x@),
                None => widened(value as int) is None,
            },
    {
        if value >= 0 {
            Some(Self::from_usize(value as usize))
        } else {
            None
        }
    }

    /// The largest `isize`, as the integer.
    pub fn max_isize() -> (r: Self)
        ensures
            r@ == isize::MAX,
    {
        Self::from_usize(isize::MAX as usize)
    }

    /// Converts the integer into an `isize`. This fails when the number does
    /// not fit a `usize`, and when it fits a `usize` but not an `isize`.
    pub fn try_into_isize(&self) -> (r: Result<isize, u206265ToSigned>)
        ensures
            r == narrowed_isize(self@),
    {
        let unsigned = match self.try_into_usize() {
            Ok(unsigned) => unsigned,
            Err(error) => {
                return Err(u206265ToSigned::Unsigned(error));
            },
        };
        if unsigned <= isize::MAX as usize {
            Ok(unsigned as isize)
        } else {
            Err(u206265ToSigned::Signed)
        }
    }
}

} // verus!
