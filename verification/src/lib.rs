//! A fixed-width unsigned integer of 206265 bits with a verified arithmetic
//! kernel.
//!
//! The integer [`u206265`] holds 25784 little-endian bytes, of which the
//! last uses a single bit. Every function states what it computes over the
//! number that the integer denotes, written `x@`, or over its bytes, and
//! Verus proves that it does:
//!
//! - [`radix`]: the value of a byte sequence and the facts about it
//! - [`uint`]: the type, its invariant, its constants, its significant length
//! - [`compare`]: the total order
//! - [`additive`], [`multiply`], [`divide`]: arithmetic that wraps at the
//!   width and tells when it did
//! - [`shift`], [`bitwise`], [`bits`]: shifts, the bitwise operations and
//!   what they do to every bit
//! - [`logarithm`]: integer logarithms
//! - [`convert`], [`traits`]: conversions from and into the native integers
//! - [`format`]: decimal and hexadecimal digits
//! - [`fold`]: sums and products of slices
//! - [`ops`], [`shift_ops`]: the operators
//! - [`laws`]: what holds of every integer
//! - [`std_contracts`]: the contracts that are taken on trust

pub mod additive;
pub mod bits;
pub mod bitwise;
pub mod compare;
pub mod convert;
pub mod divide;
pub mod fold;
pub mod format;
pub mod laws;
pub mod logarithm;
pub mod multiply;
pub mod ops;
pub mod radix;
pub mod shift;
pub mod shift_ops;
pub mod std_contracts;
pub mod traits;
pub mod uint;

pub use additive::{const_add, const_add_assign, const_sub, const_sub_assign};
pub use bitwise::{
    const_bitand, const_bitand_assign, const_bitor, const_bitor_assign, const_bitxor,
    const_bitxor_assign, const_not_assign,
};
pub use compare::{const_cmp, const_eq, const_lt};
pub use convert::{create_bytes, u206265ToSigned, u206265ToUnsigned, NegativeIntError};
pub use divide::{const_div, const_div_assign, const_div_rem, const_rem, const_rem_assign};
pub use logarithm::{const_ilog, const_ilog10, const_ilog2};
pub use multiply::{const_mul, const_mul_assign};
pub use shift::{const_shl, const_shl_assign, const_shr, const_shr_assign};
pub use uint::{u206265, BITS, BYTES};
