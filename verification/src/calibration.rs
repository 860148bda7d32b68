//! Factory calibration of one device.

use vstd::prelude::*;
use crate::codec::{i16_from_word, signed_word};
use crate::registers::Register;

verus! {

/// Number of calibration words on the device.
pub const CALIBRATION_WORDS: usize = 12;

/// The twelve compensation coefficients, as the integers the device stores.
/// `dig_t1` and `dig_p1` are unsigned, the others two's complement.
#[derive(Clone, Copy, Debug, PartialEq, Eq, Structural)]
pub struct Calibration {
    pub dig_t1: u16,
    pub dig_t2: i16,
    pub dig_t3: i16,
    pub dig_p1: u16,
    pub dig_p2: i16,
    pub dig_p3: i16,
    pub dig_p4: i16,
    pub dig_p5: i16,
    pub dig_p6: i16,
    pub dig_p7: i16,
    pub dig_p8: i16,
    pub dig_p9: i16,
}

/// The register that holds calibration word `index`, in the order in which
/// the words are read: `dig_t1..dig_t3`, then `dig_p1..dig_p9`.
pub open spec fn calibration_register(index: int) -> Register {
    if index == 0 {
        Register::DigT1
    } else if index == 1 {
        Register::DigT2
    } else if index == 2 {
        Register::DigT3
    } else if index == 3 {
        Register::DigP1
    } else if index == 4 {
        Register::DigP2
    } else if index == 5 {
        Register::DigP3
    } else if index == 6 {
        Register::DigP4
    } else if index == 7 {
        Register::DigP5
    } else if index == 8 {
        Register::DigP6
    } else if index == 9 {
        Register::DigP7
    } else if index == 10 {
        Register::DigP8
    } else {
        Register::DigP9
    }
}

impl Calibration {
    /// The profile that the twelve words stand for.
    pub open spec fn spec_from_words(words: Seq<u16>) -> Calibration
        recommends
            words.len() == CALIBRATION_WORDS,
    {
        Calibration {
            dig_t1: words[0],
            dig_t2: signed_word(words[1] as int) as i16,
            dig_t3: signed_word(words[2] as int) as i16,
            dig_p1: words[3],
            dig_p2: signed_word(words[4] as int) as i16,
            dig_p3: signed_word(words[5] as int) as i16,
            dig_p4: signed_word(words[6] as int) as i16,
            dig_p5: signed_word(words[7] as int) as i16,
            dig_p6: signed_word(words[8] as int) as i16,
            dig_p7: signed_word(words[9] as int) as i16,
            dig_p8: signed_word(words[10] as int) as i16,
            dig_p9: signed_word(words[11] as int) as i16,
        }
    }

    /// Builds the profile from the twelve calibration words, given in
    /// register order.
    pub fn from_words(words: &[u16; 12]) -> (c: Calibration)
        ensures
            c == Self::spec_from_words(words@),
    {
        Calibration {
            dig_t1: words[0],
            dig_t2: i16_from_word(words[1]),
            dig_t3: i16_from_word(words[2]),
            dig_p1: words[3],
            dig_p2: i16_from_word(words[4]),
            dig_p3: i16_from_word(words[5]),
            dig_p4: i16_from_word(words[6]),
            dig_p5: i16_from_word(words[7]),
            dig_p6: i16_from_word(words[8]),
            dig_p7: i16_from_word(words[9]),
            dig_p8: i16_from_word(words[10]),
            dig_p9: i16_from_word(words[11]),
        }
    }
}

/// The calibration words lie two bytes apart, starting at `dig_t1`.
pub proof fn lemma_calibration_layout(index: int)
    requires
        0 <= index < CALIBRATION_WORDS,
    ensures
        calibration_register(index).is_calibration(),
        calibration_register(index).spec_address() == 0x88 + 2 * index,
{
}

} // verus!
