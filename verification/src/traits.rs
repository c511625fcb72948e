//! The standard conversion traits between the integer and the native
//! integer types.
use crate::convert::{
    narrowed_i128, narrowed_i16, narrowed_i32, narrowed_i64, narrowed_i8, narrowed_isize,
    narrowed_u128, narrowed_u16, narrowed_u32, narrowed_u64, narrowed_u8, narrowed_usize,
    u206265ToSigned, u206265ToUnsigned, NegativeIntError,
};
use crate::uint::u206265;
use vstd::prelude::*;
use vstd::std_specs::convert::{FromSpecImpl, TryFromSpecImpl};

verus! {

/// What converting a native signed value into the integer gives: the
/// integer of that number, unless the value is negative.
pub open spec fn from_signed(value: int) -> Result<u206265, NegativeIntError> {
    if value < 0 {
        Err(NegativeIntError::value())
    } else {
        Ok(u206265::of_nat(value as nat))
    }
}

impl From<u8> for u206265 {
    fn from(value: u8) -> (r: Self) {
        let r = Self::from_u8(value);
        proof {
            use_type_invariant(&r);
            r.lemma_of_nat();
        }
        r
    }
}

impl FromSpecImpl<u8> for u206265 {
    open spec fn obeys_from_spec() -> bool {
        true
    }

    open spec fn from_spec(v: u8) -> Self {
        u206265::of_nat(v as nat)
    }
}

impl<'from> From<&'from u8> for u206265 {
    fn from(value: &'from u8) -> (r: Self) {
        let r = Self::from_u8(*value);
        proof {
            use_type_invariant(&r);
            r.lemma_of_nat();
        }
        r
    }
}

impl<'from> FromSpecImpl<&'from u8> for u206265 {
    open spec fn obeys_from_spec() -> bool {
        true
    }

    open spec fn from_spec(v: &'from u8) -> Self {
        u206265::of_nat(*v as nat)
    }
}

impl TryFrom<u206265> for u8 {
    type Error = u206265ToUnsigned;

    fn try_from(value: u206265) -> (r: Result<Self, Self::Error>) {
        value.try_into_u8()
    }
}

impl TryFromSpecImpl<u206265> for u8 {
    open spec fn obeys_try_from_spec() -> bool {
        true
    }

    open spec fn try_from_spec(v: u206265) -> Result<Self, Self::Error> {
        narrowed_u8(v@)
    }
}

impl<'from> TryFrom<&'from u206265> for u8 {
    type Error = u206265ToUnsigned;

    fn try_from(value: &'from u206265) -> (r: Result<Self, Self::Error>) {
        value.try_into_u8()
    }
}

impl<'from> TryFromSpecImpl<&'from u206265> for u8 {
    open spec fn obeys_try_from_spec() -> bool {
        true
    }

    open spec fn try_from_spec(v: &'from u206265) -> Result<Self, Self::Error> {
        narrowed_u8(v@)
    }
}

impl From<u16> for u206265 {
    fn from(value: u16) -> (r: Self) {
        let r = Self::from_u16(value);
        proof {
            use_type_invariant(&r);
            r.lemma_of_nat();
        }
        r
    }
}

impl FromSpecImpl<u16> for u206265 {
    open spec fn obeys_from_spec() -> bool {
        true
    }

    open spec fn from_spec(v: u16) -> Self {
        u206265::of_nat(v as nat)
    }
}

impl<'from> From<&'from u16> for u206265 {
    fn from(value: &'from u16) -> (r: Self) {
        let r = Self::from_u16(*value);
        proof {
            use_type_invariant(&r);
            r.lemma_of_nat();
        }
        r
    }
}

impl<'from> FromSpecImpl<&'from u16> for u206265 {
    open spec fn obeys_from_spec() -> bool {
        true
    }

    open spec fn from_spec(v: &'from u16) -> Self {
        u206265::of_nat(*v as nat)
    }
}

impl TryFrom<u206265> for u16 {
    type Error = u206265ToUnsigned;

    fn try_from(value: u206265) -> (r: Result<Self, Self::Error>) {
        value.try_into_u16()
    }
}

impl TryFromSpecImpl<u206265> for u16 {
    open spec fn obeys_try_from_spec() -> bool {
        true
    }

    open spec fn try_from_spec(v: u206265) -> Result<Self, Self::Error> {
        narrowed_u16(v@)
    }
}

impl<'from> TryFrom<&'from u206265> for u16 {
    type Error = u206265ToUnsigned;

    fn try_from(value: &'from u206265) -> (r: Result<Self, Self::Error>) {
        value.try_into_u16()
    }
}

impl<'from> TryFromSpecImpl<&'from u206265> for u16 {
    open spec fn obeys_try_from_spec() -> bool {
        true
    }

    open spec fn try_from_spec(v: &'from u206265) -> Result<Self, Self::Error> {
        narrowed_u16(v@)
    }
}

impl From<u32> for u206265 {
    fn from(value: u32) -> (r: Self) {
        let r = Self::from_u32(value);
        proof {
            use_type_invariant(&r);
            r.lemma_of_nat();
        }
        r
    }
}

impl FromSpecImpl<u32> for u206265 {
    open spec fn obeys_from_spec() -> bool {
        true
    }

    open spec fn from_spec(v: u32) -> Self {
        u206265::of_nat(v as nat)
    }
}

impl<'from> From<&'from u32> for u206265 {
    fn from(value: &'from u32) -> (r: Self) {
        let r = Self::from_u32(*value);
        proof {
            use_type_invariant(&r);
            r.lemma_of_nat();
        }
        r
    }
}

impl<'from> FromSpecImpl<&'from u32> for u206265 {
    open spec fn obeys_from_spec() -> bool {
        true
    }

    open spec fn from_spec(v: &'from u32) -> Self {
        u206265::of_nat(*v as nat)
    }
}

impl TryFrom<u206265> for u32 {
    type Error = u206265ToUnsigned;

    fn try_from(value: u206265) -> (r: Result<Self, Self::Error>) {
        value.try_into_u32()
    }
}

impl TryFromSpecImpl<u206265> for u32 {
    open spec fn obeys_try_from_spec() -> bool {
        true
    }

    open spec fn try_from_spec(v: u206265) -> Result<Self, Self::Error> {
        narrowed_u32(v@)
    }
}

impl<'from> TryFrom<&'from u206265> for u32 {
    type Error = u206265ToUnsigned;

    fn try_from(value: &'from u206265) -> (r: Result<Self, Self::Error>) {
        value.try_into_u32()
    }
}

impl<'from> TryFromSpecImpl<&'from u206265> for u32 {
    open spec fn obeys_try_from_spec() -> bool {
        true
    }

    open spec fn try_from_spec(v: &'from u206265) -> Result<Self, Self::Error> {
        narrowed_u32(v@)
    }
}

impl From<u64> for u206265 {
    fn from(value: u64) -> (r: Self) {
        let r = Self::from_u64(value);
        proof {
            use_type_invariant(&r);
            r.lemma_of_nat();
        }
        r
    }
}

impl FromSpecImpl<u64> for u206265 {
    open spec fn obeys_from_spec() -> bool {
        true
    }

    open spec fn from_spec(v: u64) -> Self {
        u206265::of_nat(v as nat)
    }
}

impl<'from> From<&'from u64> for u206265 {
    fn from(value: &'from u64) -> (r: Self) {
        let r = Self::from_u64(*value);
        proof {
            use_type_invariant(&r);
            r.lemma_of_nat();
        }
        r
    }
}

impl<'from> FromSpecImpl<&'from u64> for u206265 {
    open spec fn obeys_from_spec() -> bool {
        true
    }

    open spec fn from_spec(v: &'from u64) -> Self {
        u206265::of_nat(*v as nat)
    }
}

impl TryFrom<u206265> for u64 {
    type Error = u206265ToUnsigned;

    fn try_from(value: u206265) -> (r: Result<Self, Self::Error>) {
        value.try_into_u64()
    }
}

impl TryFromSpecImpl<u206265> for u64 {
    open spec fn obeys_try_from_spec() -> bool {
        true
    }

    open spec fn try_from_spec(v: u206265) -> Result<Self, Self::Error> {
        narrowed_u64(v@)
    }
}

impl<'from> TryFrom<&'from u206265> for u64 {
    type Error = u206265ToUnsigned;

    fn try_from(value: &'from u206265) -> (r: Result<Self, Self::Error>) {
        value.try_into_u64()
    }
}

impl<'from> TryFromSpecImpl<&'from u206265> for u64 {
    open spec fn obeys_try_from_spec() -> bool {
        true
    }

    open spec fn try_from_spec(v: &'from u206265) -> Result<Self, Self::Error> {
        narrowed_u64(v@)
    }
}

impl From<u128> for u206265 {
    fn from(value: u128) -> (r: Self) {
        let r = Self::from_u128(value);
        proof {
            use_type_invariant(&r);
            r.lemma_of_nat();
        }
        r
    }
}

impl FromSpecImpl<u128> for u206265 {
    open spec fn obeys_from_spec() -> bool {
        true
    }

    open spec fn from_spec(v: u128) -> Self {
        u206265::of_nat(v as nat)
    }
}

impl<'from> From<&'from u128> for u206265 {
    fn from(value: &'from u128) -> (r: Self) {
        let r = Self::from_u128(*value);
        proof {
            use_type_invariant(&r);
            r.lemma_of_nat();
        }
        r
    }
}

impl<'from> FromSpecImpl<&'from u128> for u206265 {
    open spec fn obeys_from_spec() -> bool {
        true
    }

    open spec fn from_spec(v: &'from u128) -> Self {
        u206265::of_nat(*v as nat)
    }
}

impl TryFrom<u206265> for u128 {
    type Error = u206265ToUnsigned;

    fn try_from(value: u206265) -> (r: Result<Self, Self::Error>) {
        value.try_into_u128()
    }
}

impl TryFromSpecImpl<u206265> for u128 {
    open spec fn obeys_try_from_spec() -> bool {
        true
    }

    open spec fn try_from_spec(v: u206265) -> Result<Self, Self::Error> {
        narrowed_u128(v@)
    }
}

impl<'from> TryFrom<&'from u206265> for u128 {
    type Error = u206265ToUnsigned;

    fn try_from(value: &'from u206265) -> (r: Result<Self, Self::Error>) {
        value.try_into_u128()
    }
}

impl<'from> TryFromSpecImpl<&'from u206265> for u128 {
    open spec fn obeys_try_from_spec() -> bool {
        true
    }

    open spec fn try_from_spec(v: &'from u206265) -> Result<Self, Self::Error> {
        narrowed_u128(v@)
    }
}

impl From<usize> for u206265 {
    fn from(value: usize) -> (r: Self) {
        let r = Self::from_usize(value);
        proof {
            use_type_invariant(&r);
            r.lemma_of_nat();
        }
        r
    }
}

impl FromSpecImpl<usize> for u206265 {
    open spec fn obeys_from_spec() -> bool {
        true
    }

    open spec fn from_spec(v: usize) -> Self {
        u206265::of_nat(v as nat)
    }
}

impl<'from> From<&'from usize> for u206265 {
    fn from(value: &'from usize) -> (r: Self) {
        let r = Self::from_usize(*value);
        proof {
            use_type_invariant(&r);
            r.lemma_of_nat();
        }
        r
    }
}

impl<'from> FromSpecImpl<&'from usize> for u206265 {
    open spec fn obeys_from_spec() -> bool {
        true
    }

    open spec fn from_spec(v: &'from usize) -> Self {
        u206265::of_nat(*v as nat)
    }
}

impl TryFrom<u206265> for usize {
    type Error = u206265ToUnsigned;

    fn try_from(value: u206265) -> (r: Result<Self, Self::Error>) {
        value.try_into_usize()
    }
}

impl TryFromSpecImpl<u206265> for usize {
    open spec fn obeys_try_from_spec() -> bool {
        true
    }

    open spec fn try_from_spec(v: u206265) -> Result<Self, Self::Error> {
        narrowed_usize(v@)
    }
}

impl<'from> TryFrom<&'from u206265> for usize {
    type Error = u206265ToUnsigned;

    fn try_from(value: &'from u206265) -> (r: Result<Self, Self::Error>) {
        value.try_into_usize()
    }
}

impl<'from> TryFromSpecImpl<&'from u206265> for usize {
    open spec fn obeys_try_from_spec() -> bool {
        true
    }

    open spec fn try_from_spec(v: &'from u206265) -> Result<Self, Self::Error> {
        narrowed_usize(v@)
    }
}

impl TryFrom<i8> for u206265 {
    type Error = NegativeIntError;

    fn try_from(value: i8) -> (r: Result<Self, Self::Error>) {
        match Self::try_from_i8(value) {
            Some(r) => {
                proof {
                    use_type_invariant(&r);
                    r.lemma_of_nat();
                }
                Ok(r)
            },
            None => Err(NegativeIntError::new()),
        }
    }
}

impl TryFromSpecImpl<i8> for u206265 {
    open spec fn obeys_try_from_spec() -> bool {
        true
    }

    open spec fn try_from_spec(v: i8) -> Result<Self, Self::Error> {
        from_signed(v as int)
    }
}

impl<'from> TryFrom<&'from i8> for u206265 {
    type Error = NegativeIntError;

    fn try_from(value: &'from i8) -> (r: Result<Self, Self::Error>) {
        match Self::try_from_i8(*value) {
            Some(r) => {
                proof {
                    use_type_invariant(&r);
                    r.lemma_of_nat();
                }
                Ok(r)
            },
            None => Err(NegativeIntError::new()),
        }
    }
}

impl<'from> TryFromSpecImpl<&'from i8> for u206265 {
    open spec fn obeys_try_from_spec() -> bool {
        true
    }

    open spec fn try_from_spec(v: &'from i8) -> Result<Self, Self::Error> {
        from_signed(*v as int)
    }
}

impl TryFrom<u206265> for i8 {
    type Error = u206265ToSigned;

    fn try_from(value: u206265) -> (r: Result<Self, Self::Error>) {
        value.try_into_i8()
    }
}

impl TryFromSpecImpl<u206265> for i8 {
    open spec fn obeys_try_from_spec() -> bool {
        true
    }

    open spec fn try_from_spec(v: u206265) -> Result<Self, Self::Error> {
        narrowed_i8(v@)
    }
}

impl<'from> TryFrom<&'from u206265> for i8 {
    type Error = u206265ToSigned;

    fn try_from(value: &'from u206265) -> (r: Result<Self, Self::Error>) {
        value.try_into_i8()
    }
}

impl<'from> TryFromSpecImpl<&'from u206265> for i8 {
    open spec fn obeys_try_from_spec() -> bool {
        true
    }

    open spec fn try_from_spec(v: &'from u206265) -> Result<Self, Self::Error> {
        narrowed_i8(v@)
    }
}

impl TryFrom<i16> for u206265 {
    type Error = NegativeIntError;

    fn try_from(value: i16) -> (r: Result<Self, Self::Error>) {
        match Self::try_from_i16(value) {
            Some(r) => {
                proof {
                    use_type_invariant(&r);
                    r.lemma_of_nat();
                }
                Ok(r)
            },
            None => Err(NegativeIntError::new()),
        }
    }
}

impl TryFromSpecImpl<i16> for u206265 {
    open spec fn obeys_try_from_spec() -> bool {
        true
    }

    open spec fn try_from_spec(v: i16) -> Result<Self, Self::Error> {
        from_signed(v as int)
    }
}

impl<'from> TryFrom<&'from i16> for u206265 {
    type Error = NegativeIntError;

    fn try_from(value: &'from i16) -> (r: Result<Self, Self::Error>) {
        match Self::try_from_i16(*value) {
            Some(r) => {
                proof {
                    use_type_invariant(&r);
                    r.lemma_of_nat();
                }
                Ok(r)
            },
            None => Err(NegativeIntError::new()),
        }
    }
}

impl<'from> TryFromSpecImpl<&'from i16> for u206265 {
    open spec fn obeys_try_from_spec() -> bool {
        true
    }

    open spec fn try_from_spec(v: &'from i16) -> Result<Self, Self::Error> {
        from_signed(*v as int)
    }
}

impl TryFrom<u206265> for i16 {
    type Error = u206265ToSigned;

    fn try_from(value: u206265) -> (r: Result<Self, Self::Error>) {
        value.try_into_i16()
    }
}

impl TryFromSpecImpl<u206265> for i16 {
    open spec fn obeys_try_from_spec() -> bool {
        true
    }

    open spec fn try_from_spec(v: u206265) -> Result<Self, Self::Error> {
        narrowed_i16(v@)
    }
}

impl<'from> TryFrom<&'from u206265> for i16 {
    type Error = u206265ToSigned;

    fn try_from(value: &'from u206265) -> (r: Result<Self, Self::Error>) {
        value.try_into_i16()
    }
}

impl<'from> TryFromSpecImpl<&'from u206265> for i16 {
    open spec fn obeys_try_from_spec() -> bool {
        true
    }

    open spec fn try_from_spec(v: &'from u206265) -> Result<Self, Self::Error> {
        narrowed_i16(v@)
    }
}

impl TryFrom<i32> for u206265 {
    type Error = NegativeIntError;

    fn try_from(value: i32) -> (r: Result<Self, Self::Error>) {
        match Self::try_from_i32(value) {
            Some(r) => {
                proof {
                    use_type_invariant(&r);
                    r.lemma_of_nat();
                }
                Ok(r)
            },
            None => Err(NegativeIntError::new()),
        }
    }
}

impl TryFromSpecImpl<i32> for u206265 {
    open spec fn obeys_try_from_spec() -> bool {
        true
    }

    open spec fn try_from_spec(v: i32) -> Result<Self, Self::Error> {
        from_signed(v as int)
    }
}

impl<'from> TryFrom<&'from i32> for u206265 {
    type Error = NegativeIntError;

    fn try_from(value: &'from i32) -> (r: Result<Self, Self::Error>) {
        match Self::try_from_i32(*value) {
            Some(r) => {
                proof {
                    use_type_invariant(&r);
                    r.lemma_of_nat();
                }
                Ok(r)
            },
            None => Err(NegativeIntError::new()),
        }
    }
}

impl<'from> TryFromSpecImpl<&'from i32> for u206265 {
    open spec fn obeys_try_from_spec() -> bool {
        true
    }

    open spec fn try_from_spec(v: &'from i32) -> Result<Self, Self::Error> {
        from_signed(*v as int)
    }
}

impl TryFrom<u206265> for i32 {
    type Error = u206265ToSigned;

    fn try_from(value: u206265) -> (r: Result<Self, Self::Error>) {
        value.try_into_i32()
    }
}

impl TryFromSpecImpl<u206265> for i32 {
    open spec fn obeys_try_from_spec() -> bool {
        true
    }

    open spec fn try_from_spec(v: u206265) -> Result<Self, Self::Error> {
        narrowed_i32(v@)
    }
}

impl<'from> TryFrom<&'from u206265> for i32 {
    type Error = u206265ToSigned;

    fn try_from(value: &'from u206265) -> (r: Result<Self, Self::Error>) {
        value.try_into_i32()
    }
}

impl<'from> TryFromSpecImpl<&'from u206265> for i32 {
    open spec fn obeys_try_from_spec() -> bool {
        true
    }

    open spec fn try_from_spec(v: &'from u206265) -> Result<Self, Self::Error> {
        narrowed_i32(v@)
    }
}

impl TryFrom<i64> for u206265 {
    type Error = NegativeIntError;

    fn try_from(value: i64) -> (r: Result<Self, Self::Error>) {
        match Self::try_from_i64(value) {
            Some(r) => {
                proof {
                    use_type_invariant(&r);
                    r.lemma_of_nat();
                }
                Ok(r)
            },
            None => Err(NegativeIntError::new()),
        }
    }
}

impl TryFromSpecImpl<i64> for u206265 {
    open spec fn obeys_try_from_spec() -> bool {
        true
    }

    open spec fn try_from_spec(v: i64) -> Result<Self, Self::Error> {
        from_signed(v as int)
    }
}

impl<'from> TryFrom<&'from i64> for u206265 {
    type Error = NegativeIntError;

    fn try_from(value: &'from i64) -> (r: Result<Self, Self::Error>) {
        match Self::try_from_i64(*value) {
            Some(r) => {
                proof {
                    use_type_invariant(&r);
                    r.lemma_of_nat();
                }
                Ok(r)
            },
            None => Err(NegativeIntError::new()),
        }
    }
}

impl<'from> TryFromSpecImpl<&'from i64> for u206265 {
    open spec fn obeys_try_from_spec() -> bool {
        true
    }

    open spec fn try_from_spec(v: &'from i64) -> Result<Self, Self::Error> {
        from_signed(*v as int)
    }
}

impl TryFrom<u206265> for i64 {
    type Error = u206265ToSigned;

    fn try_from(value: u206265) -> (r: Result<Self, Self::Error>) {
        value.try_into_i64()
    }
}

impl TryFromSpecImpl<u206265> for i64 {
    open spec fn obeys_try_from_spec() -> bool {
        true
    }

    open spec fn try_from_spec(v: u206265) -> Result<Self, Self::Error> {
        narrowed_i64(v@)
    }
}

impl<'from> TryFrom<&'from u206265> for i64 {
    type Error = u206265ToSigned;

    fn try_from(value: &'from u206265) -> (r: Result<Self, Self::Error>) {
        value.try_into_i64()
    }
}

impl<'from> TryFromSpecImpl<&'from u206265> for i64 {
    open spec fn obeys_try_from_spec() -> bool {
        true
    }

    open spec fn try_from_spec(v: &'from u206265) -> Result<Self, Self::Error> {
        narrowed_i64(v@)
    }
}

impl TryFrom<i128> for u206265 {
    type Error = NegativeIntError;

    fn try_from(value: i128) -> (r: Result<Self, Self::Error>) {
        match Self::try_from_i128(value) {
            Some(r) => {
                proof {
                    use_type_invariant(&r);
                    r.lemma_of_nat();
                }
                Ok(r)
            },
            None => Err(NegativeIntError::new()),
        }
    }
}

impl TryFromSpecImpl<i128> for u206265 {
    open spec fn obeys_try_from_spec() -> bool {
        true
    }

    open spec fn try_from_spec(v: i128) -> Result<Self, Self::Error> {
        from_signed(v as int)
    }
}

impl<'from> TryFrom<&'from i128> for u206265 {
    type Error = NegativeIntError;

    fn try_from(value: &'from i128) -> (r: Result<Self, Self::Error>) {
        match Self::try_from_i128(*value) {
            Some(r) => {
                proof {
                    use_type_invariant(&r);
                    r.lemma_of_nat();
                }
                Ok(r)
            },
            None => Err(NegativeIntError::new()),
        }
    }
}

impl<'from> TryFromSpecImpl<&'from i128> for u206265 {
    open spec fn obeys_try_from_spec() -> bool {
        true
    }

    open spec fn try_from_spec(v: &'from i128) -> Result<Self, Self::Error> {
        from_signed(*v as int)
    }
}

impl TryFrom<u206265> for i128 {
    type Error = u206265ToSigned;

    fn try_from(value: u206265) -> (r: Result<Self, Self::Error>) {
        value.try_into_i128()
    }
}

impl TryFromSpecImpl<u206265> for i128 {
    open spec fn obeys_try_from_spec() -> bool {
        true
    }

    open spec fn try_from_spec(v: u206265) -> Result<Self, Self::Error> {
        narrowed_i128(v@)
    }
}

impl<'from> TryFrom<&'from u206265> for i128 {
    type Error = u206265ToSigned;

    fn try_from(value: &'from u206265) -> (r: Result<Self, Self::Error>) {
        value.try_into_i128()
    }
}

impl<'from> TryFromSpecImpl<&'from u206265> for i128 {
    open spec fn obeys_try_from_spec() -> bool {
        true
    }

    open spec fn try_from_spec(v: &'from u206265) -> Result<Self, Self::Error> {
        narrowed_i128(v@)
    }
}

impl TryFrom<isize> for u206265 {
    type Error = NegativeIntError;

    fn try_from(value: isize) -> (r: Result<Self, Self::Error>) {
        match Self::try_from_isize(value) {
            Some(r) => {
                proof {
                    use_type_invariant(&r);
                    r.lemma_of_nat();
                }
                Ok(r)
            },
            None => Err(NegativeIntError::new()),
        }
    }
}

impl TryFromSpecImpl<isize> for u206265 {
    open spec fn obeys_try_from_spec() -> bool {
        true
    }

    open spec fn try_from_spec(v: isize) -> Result<Self, Self::Error> {
        from_signed(v as int)
    }
}

impl<'from> TryFrom<&'from isize> for u206265 {
    type Error = NegativeIntError;

    fn try_from(value: &'from isize) -> (r: Result<Self, Self::Error>) {
        match Self::try_from_isize(*value) {
            Some(r) => {
                proof {
                    use_type_invariant(&r);
                    r.lemma_of_nat();
                }
                Ok(r)
            },
            None => Err(NegativeIntError::new()),
        }
    }
}

impl<'from> TryFromSpecImpl<&'from isize> for u206265 {
    open spec fn obeys_try_from_spec() -> bool {
        true
    }

    open spec fn try_from_spec(v: &'from isize) -> Result<Self, Self::Error> {
        from_signed(*v as int)
    }
}

impl TryFrom<u206265> for isize {
    type Error = u206265ToSigned;

    fn try_from(value: u206265) -> (r: Result<Self, Self::Error>) {
        value.try_into_isize()
    }
}

impl TryFromSpecImpl<u206265> for isize {
    open spec fn obeys_try_from_spec() -> bool {
        true
    }

    open spec fn try_from_spec(v: u206265) -> Result<Self, Self::Error> {
        narrowed_isize(v@)
    }
}

impl<'from> TryFrom<&'from u206265> for isize {
    type Error = u206265ToSigned;

    fn try_from(value: &'from u206265) -> (r: Result<Self, Self::Error>) {
        value.try_into_isize()
    }
}

impl<'from> TryFromSpecImpl<&'from u206265> for isize {
    open spec fn obeys_try_from_spec() -> bool {
        true
    }

    open spec fn try_from_spec(v: &'from u206265) -> Result<Self, Self::Error> {
        narrowed_isize(v@)
    }
}

} // verus!
