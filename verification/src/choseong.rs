//! The leading-consonant (choseong) component: no compound leading consonants
//! exist in the modern inventory, so every entry atomizes to itself.

use vstd::prelude::*;

use crate::utils::{char_from_u32, codes_to_chars, codes_to_string, is_choseong};

verus! {

/// The leading-consonant table: every leading consonant is its own single
/// atom.
pub open spec fn choseong_atoms(cp: u32) -> Seq<u32> {
    seq![cp]
}

/// Leading-consonant atoms are terminal: every leading consonant is its own
/// single atom, so re-atomizing it yields exactly that atom back.
pub proof fn lemma_choseong_atoms_terminal(cp: u32)
    requires
        is_choseong(cp),
    ensures
        choseong_atoms(cp).len() == 1,
        is_choseong(choseong_atoms(cp)[0]),
        choseong_atoms(choseong_atoms(cp)[0]) == seq![choseong_atoms(cp)[0]],
{
}

/// A leading-consonant component: its character, its codepoint, and its atoms
/// both as codepoints and as the string they spell.
pub struct Choseong {
    pub value: char,
    pub unicode: u32,
    pub decomposed: Vec<u32>,
    pub decomposed_string: String,
}

impl Choseong {
    /// A well-formed leading consonant: the codepoint lies in the leading
    /// block, the character and the atoms agree with it, and the string
    /// spells the atoms.
    pub open spec fn wf(self) -> bool {
        &&& is_choseong(self.unicode)
        &&& self.value as u32 == self.unicode
        &&& self.decomposed@ == choseong_atoms(self.unicode)
        &&& self.decomposed_string@ == codes_to_chars(self.decomposed@)
    }

    /// Builds the leading-consonant component of the given codepoint, and
    /// returns None on a codepoint outside the leading-consonant block.
    pub fn new_from_u32(unicode: u32) -> (r: Option<Self>)
        ensures
            r is Some <==> is_choseong(unicode),
            r matches Some(c) ==> c.wf() && c.unicode == unicode,
    {
        if !Self::is_choseong_from_u32(unicode) {
            return None;
        }

        let value = char_from_u32(unicode);
        let mut decomposed: Vec<u32> = Vec::new();
        decomposed.push(unicode);
        let decomposed_string = codes_to_string(&decomposed);

        proof {
            assert(decomposed@ =~= choseong_atoms(unicode));
        }
        Some(Self { value, unicode, decomposed, decomposed_string })
    }

    fn is_choseong_from_u32(choseong_code: u32) -> (r: bool)
        ensures
            r == is_choseong(choseong_code),
    {
        0x1100 <= choseong_code && choseong_code <= 0x1112
    }
}

} // verus!
