//! Range classifiers for the Hangul codepoint blocks, and small helpers for
//! turning validated codepoints into characters and strings.

use vstd::prelude::*;

verus! {

/// A complete precomposed Hangul syllable codepoint.
pub open spec fn is_complete_hangul(cp: u32) -> bool {
    0xAC00 <= cp <= 0xD7A3
}

/// A leading-consonant (choseong) codepoint.
pub open spec fn is_choseong(cp: u32) -> bool {
    0x1100 <= cp <= 0x1112
}

/// A vowel (jungseong) codepoint.
pub open spec fn is_jungseong(cp: u32) -> bool {
    0x1161 <= cp <= 0x1175
}

/// A trailing-consonant (jongseong) codepoint.
pub open spec fn is_jongseong(cp: u32) -> bool {
    0x11A8 <= cp <= 0x11C2
}

pub fn is_complete_hangul_from_u32(letter_unicode: u32) -> (r: bool)
    ensures
        r == is_complete_hangul(letter_unicode),
{
    0xAC00 <= letter_unicode && letter_unicode <= 0xD7A3
}

pub fn is_choseong_from_u32(choseong_code: u32) -> (r: bool)
    ensures
        r == is_choseong(choseong_code),
{
    0x1100 <= choseong_code && choseong_code <= 0x1112
}

pub fn is_jungseong_from_u32(jungseong_code: u32) -> (r: bool)
    ensures
        r == is_jungseong(jungseong_code),
{
    0x1161 <= jungseong_code && jungseong_code <= 0x1175
}

pub fn is_jongseong_from_u32(jongseong_code: u32) -> (r: bool)
    ensures
        r == is_jongseong(jongseong_code),
{
    0x11A8 <= jongseong_code && jongseong_code <= 0x11C2
}

/// The character sequence spelled by a sequence of scalar-value codepoints.
pub open spec fn codes_to_chars(codes: Seq<u32>) -> Seq<char> {
    codes.map_values(|cp: u32| cp as char)
}

/// Relies on char::from_u32: for a Unicode scalar value it returns Some of
/// the character with that value, and the unwrap cannot fail.
#[verifier::external_body]
pub(crate) fn char_from_u32(code: u32) -> (r: char)
    requires
        vstd::utf8::is_scalar(code),
    ensures
        r as u32 == code,
{
    char::from_u32(code).unwrap()
}

/// Relies on String::push: appends the given character at the end.
#[verifier::external_body]
pub(crate) fn push_char(s: &mut String, c: char)
    ensures
        final(s)@ == old(s)@.push(c),
{
    s.push(c)
}

/// Materializes a sequence of scalar-value codepoints as a string, one
/// character per codepoint, in order.
pub fn codes_to_string(codes: &Vec<u32>) -> (r: String)
    requires
        forall|i: int| 0 <= i < codes@.len() ==> vstd::utf8::is_scalar(#[trigger] codes@[i]),
    ensures
        r@ == codes_to_chars(codes@),
{
    let mut r = String::new();
    let mut i: usize = 0;
    while i < codes.len()
        invariant
            i <= codes@.len(),
            forall|k: int| 0 <= k < codes@.len() ==> vstd::utf8::is_scalar(#[trigger] codes@[k]),
            r@ == codes_to_chars(codes@.subrange(0, i as int)),
        decreases codes@.len() - i,
    {
        let c = char_from_u32(codes[i]);
        push_char(&mut r, c);
        proof {
            broadcast use vstd::utf8::char_u32_cast;

            assert(codes@.subrange(0, i + 1) =~= codes@.subrange(0, i as int).push(codes@[i as int]));
            assert(r@ =~= codes_to_chars(codes@.subrange(0, i + 1)));
        }
        i = i + 1;
    }
    proof {
        assert(codes@.subrange(0, codes@.len() as int) =~= codes@);
    }
    r
}

/// Makes the one-character string holding exactly the given character.
pub fn char_to_string(c: char) -> (r: String)
    ensures
        r@ == seq![c],
{
    let mut r = String::new();
    push_char(&mut r, c);
    proof {
        assert(r@ =~= seq![c]);
    }
    r
}

} // verus!
