//! The trailing-consonant (jongseong) atomizer: a 27-entry table that splits
//! the eleven consonant clusters into their two component consonants and maps
//! every other trailing consonant to itself.

use vstd::prelude::*;

use crate::utils::{char_from_u32, codes_to_chars, codes_to_string, is_jongseong};

verus! {

/// The trailing-consonant table: the ordered atoms of one trailing-consonant
/// codepoint. The eleven consonant clusters split into two consonants; every
/// other entry maps to itself.
pub open spec fn jongseong_atoms(cp: u32) -> Seq<u32> {
    if cp == 0x11AA {
        seq![0x11A8u32, 0x11BAu32]
    } else if cp == 0x11AC {
        seq![0x11ABu32, 0x11BDu32]
    } else if cp == 0x11AD {
        seq![0x11ABu32, 0x11C2u32]
    } else if cp == 0x11B0 {
        seq![0x11AFu32, 0x11A8u32]
    } else if cp == 0x11B1 {
        seq![0x11AFu32, 0x11B7u32]
    } else if cp == 0x11B2 {
        seq![0x11AFu32, 0x11B8u32]
    } else if cp == 0x11B3 {
        seq![0x11AFu32, 0x11BAu32]
    } else if cp == 0x11B4 {
        seq![0x11AFu32, 0x11C0u32]
    } else if cp == 0x11B5 {
        seq![0x11AFu32, 0x11C1u32]
    } else if cp == 0x11B6 {
        seq![0x11AFu32, 0x11C2u32]
    } else if cp == 0x11B9 {
        seq![0x11B8u32, 0x11BAu32]
    } else {
        seq![cp]
    }
}

/// Every trailing-consonant table entry holds exactly one or two atoms.
pub proof fn lemma_jongseong_atoms_complete(cp: u32)
    requires
        is_jongseong(cp),
    ensures
        1 <= jongseong_atoms(cp).len() <= 2,
{
}

/// Trailing-consonant atoms are terminal: each atom of a trailing consonant
/// is itself a trailing consonant, and re-atomizing it yields exactly that
/// atom back.
pub proof fn lemma_jongseong_atoms_terminal(cp: u32)
    requires
        is_jongseong(cp),
    ensures
        forall|i: int|
            0 <= i < jongseong_atoms(cp).len() ==> is_jongseong(
                #[trigger] jongseong_atoms(cp)[i],
            ),
        forall|i: int|
            0 <= i < jongseong_atoms(cp).len() ==> jongseong_atoms(
                #[trigger] jongseong_atoms(cp)[i],
            ) == seq![jongseong_atoms(cp)[i]],
{
}

/// A trailing-consonant component: its character, its codepoint, and its
/// atoms both as codepoints and as the string they spell.
pub struct Jongseong {
    pub value: char,
    pub unicode: u32,
    pub decomposed: Vec<u32>,
    pub decomposed_string: String,
}

impl Jongseong {
    /// A well-formed trailing consonant: the codepoint lies in the trailing
    /// block, the character and the atoms agree with it, and the string
    /// spells the atoms.
    pub open spec fn wf(self) -> bool {
        &&& is_jongseong(self.unicode)
        &&& self.value as u32 == self.unicode
        &&& self.decomposed@ == jongseong_atoms(self.unicode)
        &&& self.decomposed_string@ == codes_to_chars(self.decomposed@)
    }

    /// Builds the trailing-consonant component of the given codepoint, and
    /// returns None on a codepoint outside the trailing-consonant block.
    pub fn maybe_new(unicode: u32) -> (r: Option<Self>)
        ensures
            r is Some <==> is_jongseong(unicode),
            r matches Some(j) ==> j.wf() && j.unicode == unicode,
    {
        Self::maybe_new_from_u32(unicode)
    }

    fn maybe_new_from_u32(unicode: u32) -> (r: Option<Self>)
        ensures
            r is Some <==> is_jongseong(unicode),
            r matches Some(j) ==> j.wf() && j.unicode == unicode,
    {
        if !crate::utils::is_jongseong_from_u32(unicode) {
            return None;
        }

        let value = char_from_u32(unicode);
        let decomposed = Self::decompose_jongseong_from_u32(unicode);
        proof {
            lemma_jongseong_atoms_terminal(unicode);
        }
        let decomposed_string = codes_to_string(&decomposed);

        Some(Self { value, unicode, decomposed, decomposed_string })
    }

    fn decompose_jongseong_from_u32(jongseong_code: u32) -> (r: Vec<u32>)
        requires
            is_jongseong(jongseong_code),
        ensures
            r@ == jongseong_atoms(jongseong_code),
    {
        match jongseong_code {
            0x11A8 => vec![0x11A8],  // "ㄱ"
            0x11A9 => vec![0x11A9],  // "ㄲ"
            0x11AA => vec![0x11A8, 0x11BA],  // "ㄱㅅ"
            0x11AB => vec![0x11AB],  // "ㄴ"
            0x11AC => vec![0x11AB, 0x11BD],  // "ㄴㅈ"
            0x11AD => vec![0x11AB, 0x11C2],  // "ㄴㅎ"
            0x11AE => vec![0x11AE],  // "ㄷ"
            0x11AF => vec![0x11AF],  // "ㄹ"
            0x11B0 => vec![0x11AF, 0x11A8],  // "ㄹㄱ"
            0x11B1 => vec![0x11AF, 0x11B7],  // "ㄹㅁ"
            0x11B2 => vec![0x11AF, 0x11B8],  // "ㄹㅂ"
            0x11B3 => vec![0x11AF, 0x11BA],  // "ㄹㅅ"
            0x11B4 => vec![0x11AF, 0x11C0],  // "ㄹㅌ"
            0x11B5 => vec![0x11AF, 0x11C1],  // "ㄹㅍ"
            0x11B6 => vec![0x11AF, 0x11C2],  // "ㄹㅎ"
            0x11B7 => vec![0x11B7],  // "ㅁ"
            0x11B8 => vec![0x11B8],  // "ㅂ"
            0x11B9 => vec![0x11B8, 0x11BA],  // "ㅂㅅ"
            0x11BA => vec![0x11BA],  // "ㅅ"
            0x11BB => vec![0x11BB],  // "ㅆ"
            0x11BC => vec![0x11BC],  // "ㅇ"
            0x11BD => vec![0x11BD],  // "ㅈ"
            0x11BE => vec![0x11BE],  // "ㅊ"
            0x11BF => vec![0x11BF],  // "ㅋ"
            0x11C0 => vec![0x11C0],  // "ㅌ"
            0x11C1 => vec![0x11C1],  // "ㅍ"
            0x11C2 => vec![0x11C2],  // "ㅎ"
            // kept out by the range precondition; identity keeps the arm total
            _ => vec![jongseong_code],
        }
    }
}

} // verus!
