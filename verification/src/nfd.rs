//! The syllable splitter: closed-form index arithmetic that takes a complete
//! Hangul syllable codepoint to its leading consonant, vowel, and optional
//! trailing consonant codepoints.

use vstd::arithmetic::div_mod::{
    lemma_div_is_ordered, lemma_div_pos_is_pos, lemma_fundamental_div_mod,
    lemma_mod_division_less_than_divisor, lemma_mod_multiples_vanish,
};
use vstd::prelude::*;

use crate::utils::{is_choseong, is_complete_hangul, is_jongseong, is_jungseong};

verus! {

pub const HANGUL_BASE: u32 = 0xAC00;
pub const HANGUL_LAST: u32 = 0xD7A3;

pub const JUNGSEONG_COUNT: u32 = 0x15;
pub const JONGSEONG_COUNT: u32 = 0x1C;

pub const CHOSEONG_BASE: u32 = 0x1100;
pub const JUNGSEONG_BASE: u32 = 0x1161;
pub const JONGSEONG_BASE: u32 = 0x11A8;

pub const JUNGSEONG_AND_JONGSEONG_NUMBER_OF_CASES: u32 = JUNGSEONG_COUNT * JONGSEONG_COUNT;

/// Position of a syllable codepoint within the precomposed Hangul block.
pub open spec fn syllable_offset(cp: u32) -> int {
    cp - HANGUL_BASE
}

/// The leading-consonant codepoint of a complete syllable.
pub open spec fn choseong_code_of(cp: u32) -> u32 {
    (CHOSEONG_BASE + syllable_offset(cp) / (JUNGSEONG_AND_JONGSEONG_NUMBER_OF_CASES as int)) as u32
}

/// The vowel codepoint of a complete syllable.
pub open spec fn jungseong_code_of(cp: u32) -> u32 {
    (JUNGSEONG_BASE + (syllable_offset(cp) % (JUNGSEONG_AND_JONGSEONG_NUMBER_OF_CASES as int)) / (
    JONGSEONG_COUNT as int)) as u32
}

/// The trailing-consonant slot of a complete syllable: zero means absent.
pub open spec fn jongseong_index_of(cp: u32) -> int {
    syllable_offset(cp) % (JONGSEONG_COUNT as int)
}

/// The trailing-consonant codepoint of a complete syllable whose trailing
/// slot is occupied.
pub open spec fn jongseong_code_of(cp: u32) -> u32 {
    (JONGSEONG_BASE + jongseong_index_of(cp) - 1) as u32
}

/// The Unicode Hangul composition formula: the syllable codepoint built from
/// a leading-consonant codepoint, a vowel codepoint, and a trailing slot.
pub open spec fn compose_syllable(choseong: u32, jungseong: u32, jongseong_index: int) -> int {
    HANGUL_BASE + (JUNGSEONG_AND_JONGSEONG_NUMBER_OF_CASES as int) * (choseong - CHOSEONG_BASE)
        + (JONGSEONG_COUNT as int) * (jungseong - JUNGSEONG_BASE) + jongseong_index
}

/// Splitting a complete syllable yields a leading consonant, a vowel, and a
/// trailing slot each within its block, and the composition formula applied
/// to them reconstructs the syllable exactly.
pub proof fn lemma_split_round_trip(cp: u32)
    requires
        is_complete_hangul(cp),
    ensures
        is_choseong(choseong_code_of(cp)),
        is_jungseong(jungseong_code_of(cp)),
        0 <= jongseong_index_of(cp) < 28,
        jongseong_index_of(cp) > 0 ==> is_jongseong(jongseong_code_of(cp)),
        compose_syllable(choseong_code_of(cp), jungseong_code_of(cp), jongseong_index_of(cp))
            == cp,
{
    let off = syllable_offset(cp);
    let ci = off / 588;
    let rem = off % 588;

    lemma_fundamental_div_mod(off, 588);
    lemma_fundamental_div_mod(rem, 28);

    lemma_div_pos_is_pos(off, 588);
    lemma_div_is_ordered(off, 11171, 588);
    assert(11171int / 588 == 18);

    lemma_mod_division_less_than_divisor(off, 588);
    lemma_div_pos_is_pos(rem, 28);
    lemma_div_is_ordered(rem, 587, 28);
    assert(587int / 28 == 20);
    lemma_mod_division_less_than_divisor(rem, 28);

    assert(588 * ci == 28 * (21 * ci)) by (nonlinear_arith);
    lemma_mod_multiples_vanish(21 * ci, rem, 28);
    assert(off % 28 == rem % 28);
}

/// A split syllable: the leading-consonant codepoint, the vowel codepoint,
/// and the trailing-consonant codepoint where one is present.
pub struct Nfd(pub u32, pub u32, pub Option<u32>);

impl Nfd {
    /// Splits a complete syllable codepoint into its component codepoints by
    /// the composition formula, and returns None on any other codepoint.
    pub fn normalize_from_u32(letter_code: u32) -> (r: Option<Self>)
        ensures
            r is Some <==> is_complete_hangul(letter_code),
            r matches Some(nfd) ==> {
                &&& nfd.0 == choseong_code_of(letter_code)
                &&& nfd.1 == jungseong_code_of(letter_code)
                &&& (nfd.2 is Some <==> jongseong_index_of(letter_code) > 0)
                &&& (nfd.2 matches Some(j) ==> j == jongseong_code_of(letter_code))
            },
    {
        if !Self::is_complete_hangul_from_u32(letter_code) {
            return None;
        }

        proof {
            lemma_split_round_trip(letter_code);
        }

        let hangul_code = letter_code - HANGUL_BASE;

        let choseong_index = hangul_code / JUNGSEONG_AND_JONGSEONG_NUMBER_OF_CASES;
        let jungseong_index = (hangul_code % JUNGSEONG_AND_JONGSEONG_NUMBER_OF_CASES)
            / JONGSEONG_COUNT;
        let jongseong_index = hangul_code % JONGSEONG_COUNT;

        let choseong = CHOSEONG_BASE + choseong_index;
        let jungseong = JUNGSEONG_BASE + jungseong_index;
        let jongseong = if jongseong_index > 0 {
            Some(JONGSEONG_BASE + jongseong_index - 1)
        } else {
            None
        };

        Some(Self(choseong, jungseong, jongseong))
    }

    pub fn is_complete_hangul_from_u32(letter_code: u32) -> (r: bool)
        ensures
            r == is_complete_hangul(letter_code),
    {
        HANGUL_BASE <= letter_code && letter_code <= HANGUL_LAST
    }
}

} // verus!
