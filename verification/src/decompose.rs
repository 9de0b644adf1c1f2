//! The decomposer facade: walks the characters of a string, splits each
//! complete Hangul syllable into its components, atomizes each component, and
//! passes every other character through unchanged.

use vstd::prelude::*;
use vstd::string::StrSliceExecFns;

use crate::choseong::{choseong_atoms, Choseong};
use crate::jongseong::{jongseong_atoms, Jongseong};
use crate::jungseong::{jungseong_atoms, Jungseong};
use crate::nfd::{
    choseong_code_of, jongseong_code_of, jongseong_index_of, jungseong_code_of,
    lemma_split_round_trip, Nfd,
};
use crate::utils::{char_to_string, codes_to_chars, is_complete_hangul, push_char};

verus! {

/// The decomposition group owed to one character: for a complete syllable,
/// the strings spelling the atoms of its two or three components, in order;
/// for any other character, the singleton group holding it unchanged.
pub open spec fn group_matches(group: Seq<String>, c: char) -> bool {
    let cp = c as u32;
    if is_complete_hangul(cp) {
        &&& group.len() == (if jongseong_index_of(cp) > 0 {
            3int
        } else {
            2int
        })
        &&& group[0]@ == codes_to_chars(choseong_atoms(choseong_code_of(cp)))
        &&& group[1]@ == codes_to_chars(jungseong_atoms(jungseong_code_of(cp)))
        &&& (jongseong_index_of(cp) > 0 ==> group[2]@ == codes_to_chars(
            jongseong_atoms(jongseong_code_of(cp)),
        ))
    } else {
        group.len() == 1 && group[0]@ == seq![c]
    }
}

/// The character owed to one input character by the initial-consonant
/// extraction: the raw leading consonant of a complete syllable, any other
/// character unchanged.
pub open spec fn choseong_letter_of(c: char) -> char {
    if is_complete_hangul(c as u32) {
        choseong_code_of(c as u32) as char
    } else {
        c
    }
}

/// A string ends in a final consonant when its last character is a complete
/// syllable whose trailing slot is occupied.
pub open spec fn spec_has_batchim(s: Seq<char>) -> bool {
    &&& s.len() > 0
    &&& is_complete_hangul(s.last() as u32)
    &&& jongseong_index_of(s.last() as u32) > 0
}

/// A character outside the complete-syllable block decomposes to the
/// singleton group holding that character unchanged.
pub proof fn lemma_non_syllable_passthrough(group: Seq<String>, c: char)
    requires
        !is_complete_hangul(c as u32),
        group_matches(group, c),
    ensures
        group.len() == 1,
        group[0]@ == seq![c],
{
}

pub struct Decompose;

impl Decompose {
    /// Decomposes every character of the input: one group per character, in
    /// input order.
    pub fn decompose_to_groups(string: String) -> (r: Vec<Vec<String>>)
        ensures
            r@.len() == string@.len(),
            forall|i: int| 0 <= i < string@.len() ==> group_matches(#[trigger] r@[i]@, string@[i]),
    {
        let s = string.as_str();
        let len = s.unicode_len();
        let mut result: Vec<Vec<String>> = Vec::new();
        let mut i: usize = 0;
        while i < len
            invariant
                s@ == string@,
                len == string@.len(),
                i <= len,
                result@.len() == i,
                forall|k: int| 0 <= k < i ==> group_matches(#[trigger] result@[k]@, string@[k]),
            decreases len - i,
        {
            let letter = s.get_char(i);
            let mut group: Vec<String> = Vec::new();

            match DecomposedHangul::new(letter) {
                Some(decomposed_hangul) => {
                    let DecomposedHangul { choseong, jungseong, jongseong } = decomposed_hangul;
                    group.push(choseong.decomposed_string);
                    group.push(jungseong.decomposed_string);
                    if let Some(jongseong) = jongseong {
                        group.push(jongseong.decomposed_string);
                    }
                },
                None => {
                    group.push(char_to_string(letter));
                },
            }

            result.push(group);
            i = i + 1;
        }
        result
    }

    /// Replaces every complete syllable by its raw (non-atomized) leading
    /// consonant and keeps every other character, one output character per
    /// input character.
    pub fn get_choseong(string: String) -> (r: String)
        ensures
            r@.len() == string@.len(),
            forall|i: int| 0 <= i < string@.len() ==> r@[i] == choseong_letter_of(string@[i]),
    {
        let s = string.as_str();
        let len = s.unicode_len();
        let mut result = String::new();
        let mut i: usize = 0;
        while i < len
            invariant
                s@ == string@,
                len == string@.len(),
                i <= len,
                result@.len() == i,
                forall|k: int| 0 <= k < i ==> result@[k] == choseong_letter_of(string@[k]),
            decreases len - i,
        {
            proof {
                broadcast use vstd::utf8::char_u32_cast;

            }
            let letter = s.get_char(i);
            match DecomposedHangul::new(letter) {
                Some(decomposed_hangul) => {
                    push_char(&mut result, decomposed_hangul.choseong.value);
                },
                None => {
                    push_char(&mut result, letter);
                },
            }
            i = i + 1;
        }
        result
    }

    /// True exactly when the last character of the input is a complete
    /// syllable with an occupied trailing-consonant slot; false on an empty
    /// input.
    pub fn has_batchim(string: String) -> (r: bool)
        ensures
            r == spec_has_batchim(string@),
    {
        let s = string.as_str();
        let len = s.unicode_len();
        if len == 0 {
            return false;
        }
        let last_char = s.get_char(len - 1);
        match DecomposedHangul::new(last_char) {
            Some(decomposed_hangul) => decomposed_hangul.jongseong.is_some(),
            None => false,
        }
    }
}

/// A complete syllable split into its components, each already atomized.
pub struct DecomposedHangul {
    pub choseong: Choseong,
    pub jungseong: Jungseong,
    pub jongseong: Option<Jongseong>,
}

impl DecomposedHangul {
    /// The components are well formed and are exactly those that the
    /// composition formula assigns to the syllable codepoint.
    pub open spec fn is_decomposition_of(self, cp: u32) -> bool {
        &&& self.choseong.wf()
        &&& self.choseong.unicode == choseong_code_of(cp)
        &&& self.jungseong.wf()
        &&& self.jungseong.unicode == jungseong_code_of(cp)
        &&& (self.jongseong is Some <==> jongseong_index_of(cp) > 0)
        &&& (self.jongseong matches Some(j) ==> j.wf() && j.unicode == jongseong_code_of(cp))
    }

    /// Splits and atomizes a complete syllable character, and returns None on
    /// any other character.
    pub fn new(letter: char) -> (r: Option<DecomposedHangul>)
        ensures
            r is Some <==> is_complete_hangul(letter as u32),
            r matches Some(d) ==> d.is_decomposition_of(letter as u32),
    {
        Self::new_inner(letter)
    }

    fn new_inner(letter: char) -> (r: Option<DecomposedHangul>)
        ensures
            r is Some <==> is_complete_hangul(letter as u32),
            r matches Some(d) ==> d.is_decomposition_of(letter as u32),
    {
        let letter = letter as u32;

        if !crate::utils::is_complete_hangul_from_u32(letter) {
            return None;
        }

        proof {
            lemma_split_round_trip(letter);
        }

        let nfd = match Nfd::normalize_from_u32(letter) {
            Some(nfd) => nfd,
            None => {
                proof {
                    assert(false);
                }
                return None;
            },
        };
        let Nfd(choseong_code, jungseong_code, jongseong_code) = nfd;

        let choseong = match Choseong::new_from_u32(choseong_code) {
            Some(choseong) => choseong,
            None => {
                proof {
                    assert(false);
                }
                return None;
            },
        };
        let jungseong = Jungseong::new(jungseong_code);

        let mut jongseong: Option<Jongseong> = None;
        if let Some(jongseong_code) = jongseong_code {
            jongseong = Jongseong::maybe_new(jongseong_code);
        }

        Some(Self { choseong, jungseong, jongseong })
    }
}

} // verus!
