//! Contracts for the functions of the standard library that the library
//! calls and that Verus knows nothing of. Verus takes them on trust: they
//! say what the documentation of the standard library says.
use vstd::arithmetic::power2::pow2;
use vstd::prelude::*;

verus! {

/// `u8::overflowing_add`: the sum of the two bytes reduced modulo 256,
/// together with a flag that tells whether the true sum exceeded 255.
pub assume_specification[ u8::overflowing_add ](x: u8, y: u8) -> (r: (u8, bool))
    ensures
        r.1 == (x + y > 255),
        r.0 == if x + y > 255 {
            x + y - 256
        } else {
            x + y
        },
;

/// `u8::overflowing_sub`: the difference of the two bytes reduced modulo
/// 256, together with a flag that tells whether the true difference was
/// negative.
pub assume_specification[ u8::overflowing_sub ](x: u8, y: u8) -> (r: (u8, bool))
    ensures
        r.1 == (x < y),
        r.0 == if x < y {
            x - y + 256
        } else {
            x - y
        },
;

/// `u8::checked_ilog2`: nothing for zero; for any other byte the position
/// of its highest set bit, which is its base-2 logarithm rounded down.
pub assume_specification[ u8::checked_ilog2 ](x: u8) -> (r: Option<u32>)
    ensures
        x == 0 <==> r is None,
        r matches Some(k) ==> pow2(k as nat) <= x < pow2((k + 1) as nat),
;

/// `String::push`: the string afterwards is the string before with the
/// character appended at its end.
pub assume_specification[ String::push ](s: &mut String, c: char)
    ensures
        final(s)@ == old(s)@.push(c),
;

} // verus!
