//! The 64-bit STARK field and FRI options of the winter crates, as the
//! proof systems use them: the field's modulus, the byte encoding of field
//! elements, field subtraction, and FRI option sets. Every function here is
//! a trusted boundary; its doc comment says what its contract claims.
//!
//! The field element type is winter-math's 64-bit `BaseElement`; it is
//! named here as the base field of winter-crypto's `Rp64_256` hasher, which
//! is that same type.
use vstd::prelude::*;
use winter_crypto::hashers::Rp64_256;
use winter_crypto::ElementHasher;
use winter_math::StarkField;
use winter_utils::Serializable;
use crate::text::le_bytes_u64;

verus! {

/// The modulus of winter-math's 64-bit field: 2^64 - 2^32 + 1.
pub open spec fn field_prime() -> int {
    18446744069414584321
}

/// A positive power of two, in the form std's `is_power_of_two` tests.
pub open spec fn power_of_two(n: usize) -> bool {
    n > 0 && n & ((n - 1) as usize) == 0
}

/// Reads `StarkField::MODULUS` of winter-math's 64-bit `BaseElement`.
/// Claimed, as the source defines the constant: 2^64 - 2^32 + 1.
#[verifier::external_body]
pub(crate) fn field_modulus() -> (res: u64)
    ensures
        res == field_prime(),
{
    <<Rp64_256 as ElementHasher>::BaseField as StarkField>::MODULUS
}

/// Computes `BaseElement::from(x).to_bytes()`. Claimed, as the source shows
/// (`to_bytes` writes the canonical value little-endian, and a `u32` is its
/// own canonical value): the eight little-endian bytes of `x`.
#[verifier::external_body]
pub(crate) fn field_element_bytes(x: u32) -> (res: Vec<u8>)
    ensures
        res@ == le_bytes_u64(x as u64),
{
    <<Rp64_256 as ElementHasher>::BaseField as From<u32>>::from(x).to_bytes()
}

/// Computes `(BaseElement::from(a) - BaseElement::from(b)).to_bytes()`.
/// Claimed: field subtraction is subtraction modulo the field's prime, and
/// the result is written as the eight little-endian bytes of its canonical
/// value.
#[verifier::external_body]
pub(crate) fn field_difference_bytes(a: u32, b: u32) -> (res: Vec<u8>)
    ensures
        res@ == le_bytes_u64(((a - b) % field_prime()) as u64),
{
    let fa = <<Rp64_256 as ElementHasher>::BaseField as From<u32>>::from(a);
    let fb = <<Rp64_256 as ElementHasher>::BaseField as From<u32>>::from(b);
    (fa - fb).to_bytes()
}

/// `winter_fri::FriOptions`, carried through without looking inside.
#[verifier::external_type_specification]
#[verifier::external_body]
pub struct ExFriOptions(winter_fri::FriOptions);

/// Calls `winter_fri::FriOptions::new`. It panics unless the blowup factor
/// is a power of two and the folding factor is 2, 4, 8 or 16, so `requires`
/// asks for both. Nothing is claimed of the options, which stay opaque.
#[verifier::external_body]
pub(crate) fn fri_options_new(blowup_factor: usize, folding_factor: usize, remainder_max_degree: usize) -> (res:
    winter_fri::FriOptions)
    requires
        power_of_two(blowup_factor),
        folding_factor == 2 || folding_factor == 4 || folding_factor == 8 || folding_factor == 16,
{
    winter_fri::FriOptions::new(blowup_factor, folding_factor, remainder_max_degree)
}

} // verus!
