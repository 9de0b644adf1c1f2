//! The vowel (jungseong) atomizer: a 21-entry table that splits the seven
//! compound diphthongs into their two component monophthongs and maps every
//! other vowel to itself.

use vstd::prelude::*;

use crate::utils::{char_from_u32, codes_to_chars, codes_to_string, is_jungseong};

verus! {

/// The vowel table: the ordered atoms of one vowel codepoint. The seven
/// compound diphthongs split into two monophthongs; every other entry maps
/// to itself.
pub open spec fn jungseong_atoms(cp: u32) -> Seq<u32> {
    if cp == 0x116A {
        seq![0x1169u32, 0x1161u32]
    } else if cp == 0x116B {
        seq![0x1169u32, 0x1162u32]
    } else if cp == 0x116C {
        seq![0x1169u32, 0x1175u32]
    } else if cp == 0x116F {
        seq![0x116Eu32, 0x1165u32]
    } else if cp == 0x1170 {
        seq![0x116Eu32, 0x1166u32]
    } else if cp == 0x1171 {
        seq![0x116Eu32, 0x1175u32]
    } else if cp == 0x1174 {
        seq![0x1173u32, 0x1175u32]
    } else {
        seq![cp]
    }
}

/// Every vowel table entry holds exactly one or two atoms.
pub proof fn lemma_jungseong_atoms_complete(cp: u32)
    requires
        is_jungseong(cp),
    ensures
        1 <= jungseong_atoms(cp).len() <= 2,
{
}

/// Vowel atoms are terminal: each atom of a vowel is itself a vowel, and
/// re-atomizing it yields exactly that atom back.
pub proof fn lemma_jungseong_atoms_terminal(cp: u32)
    requires
        is_jungseong(cp),
    ensures
        forall|i: int|
            0 <= i < jungseong_atoms(cp).len() ==> is_jungseong(
                #[trigger] jungseong_atoms(cp)[i],
            ),
        forall|i: int|
            0 <= i < jungseong_atoms(cp).len() ==> jungseong_atoms(
                #[trigger] jungseong_atoms(cp)[i],
            ) == seq![jungseong_atoms(cp)[i]],
{
}

/// A vowel component: its character, its codepoint, and its atoms both as
/// codepoints and as the string they spell.
pub struct Jungseong {
    pub value: char,
    pub unicode: u32,
    pub decomposed: Vec<u32>,
    pub decomposed_string: String,
}

impl Jungseong {
    /// A well-formed vowel: the codepoint lies in the vowel block, the
    /// character and the atoms agree with it, and the string spells the atoms.
    pub open spec fn wf(self) -> bool {
        &&& is_jungseong(self.unicode)
        &&& self.value as u32 == self.unicode
        &&& self.decomposed@ == jungseong_atoms(self.unicode)
        &&& self.decomposed_string@ == codes_to_chars(self.decomposed@)
    }

    /// Builds the vowel component of the given vowel codepoint.
    pub fn new(unicode: u32) -> (r: Self)
        requires
            is_jungseong(unicode),
        ensures
            r.wf(),
            r.unicode == unicode,
    {
        Self::new_from_u32(unicode)
    }

    fn new_from_u32(unicode: u32) -> (r: Self)
        requires
            is_jungseong(unicode),
        ensures
            r.wf(),
            r.unicode == unicode,
    {
        let value = char_from_u32(unicode);
        let decomposed = Self::decompose_jungseong_from_u32(unicode);
        proof {
            lemma_jungseong_atoms_terminal(unicode);
        }
        let decomposed_string = codes_to_string(&decomposed);

        Self { value, unicode, decomposed, decomposed_string }
    }

    fn decompose_jungseong_from_u32(jungseong_code: u32) -> (r: Vec<u32>)
        requires
            is_jungseong(jungseong_code),
        ensures
            r@ == jungseong_atoms(jungseong_code),
    {
        match jungseong_code {
            0x1161 => vec![0x1161],  // "ㅏ"
            0x1162 => vec![0x1162],  // "ㅐ"
            0x1163 => vec![0x1163],  // "ㅑ"
            0x1164 => vec![0x1164],  // "ㅒ"
            0x1165 => vec![0x1165],  // "ㅓ"
            0x1166 => vec![0x1166],  // "ㅔ"
            0x1167 => vec![0x1167],  // "ㅕ"
            0x1168 => vec![0x1168],  // "ㅖ"
            0x1169 => vec![0x1169],  // "ㅗ"
            0x116A => vec![0x1169, 0x1161],  // "ㅗㅏ"
            0x116B => vec![0x1169, 0x1162],  // "ㅗㅐ"
            0x116C => vec![0x1169, 0x1175],  // "ㅗㅣ"
            0x116D => vec![0x116D],  // "ㅛ"
            0x116E => vec![0x116E],  // "ㅜ"
            0x116F => vec![0x116E, 0x1165],  // "ㅜㅓ"
            0x1170 => vec![0x116E, 0x1166],  // "ㅜㅔ"
            0x1171 => vec![0x116E, 0x1175],  // "ㅜㅣ"
            0x1172 => vec![0x1172],  // "ㅠ"
            0x1173 => vec![0x1173],  // "ㅡ"
            0x1174 => vec![0x1173, 0x1175],  // "ㅡㅣ"
            0x1175 => vec![0x1175],  // "ㅣ"
            // kept out by the range precondition; identity keeps the arm total
            _ => vec![jungseong_code],
        }
    }
}

} // verus!
