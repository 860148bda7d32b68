//! The integer side of compensation.
//!
//! The compensation polynomials are evaluated in double precision by the
//! caller. What is decided here is decided on integers: the codes that
//! enter the polynomials, and whether the denominator of the pressure
//! polynomial, given as the bit pattern of a double, can be divided by.

use vstd::prelude::*;
use vstd::string::StringExecFns;

verus! {

/// The pressure polynomial met a denominator of zero.
#[derive(Clone, Copy, Debug, PartialEq, Eq, Structural)]
pub struct CompensationFailure;

/// Why a reading could not be had: the transport failed, or the
/// compensation did.
pub enum SensorError<E> {
    /// The transport reported this error.
    Bus(E),
    /// The device answered, but its values cannot be compensated.
    Compensation(CompensationFailure),
}

/// Sign bit of a double.
pub const SIGN_BIT: u64 = 0x8000_0000_0000_0000;

/// Whether `bits` is the pattern of positive or negative zero, the two
/// doubles that compare equal to zero.
pub open spec fn is_zero(bits: u64) -> bool {
    bits == 0 || bits == SIGN_BIT
}

impl CompensationFailure {
    pub open spec fn spec_message() -> Seq<char> {
        "Pressure compensation failed"@
    }

    /// Describes the failure in words.
    pub fn message(&self) -> (text: String)
        ensures
            text@ == Self::spec_message(),
    {
        String::from_str("Pressure compensation failed")
    }
}

/// Decides whether the pressure polynomial may divide by `denominator`, the
/// bit pattern of its term `var1`: it may unless the term is exactly zero.
pub fn check_denominator(denominator: u64) -> (r: Result<(), CompensationFailure>)
    ensures
        r is Err <==> is_zero(denominator),
{
    if denominator == 0 || denominator == SIGN_BIT {
        Err(CompensationFailure)
    } else {
        Ok(())
    }
}

/// Zero is recognised by every bit but the sign.
pub proof fn lemma_zero_ignores_sign(bits: u64)
    ensures
        is_zero(bits) <==> bits & 0x7FFF_FFFF_FFFF_FFFF == 0,
{
    assert((bits == 0 || bits == 0x8000_0000_0000_0000u64) <==> bits & 0x7FFF_FFFF_FFFF_FFFF == 0)
        by (bit_vector);
}

} // verus!
