//! Decomposition of precomposed Hangul syllables (U+AC00..U+D7A3) into their
//! constituent Jamo, and of compound Jamo into their atomic phonetic parts.

pub mod choseong;
pub mod decompose;
pub mod jongseong;
pub mod jungseong;
pub mod nfd;
pub mod utils;
