use hangul::decompose::{Decompose, DecomposedHangul};
use hangul::nfd::Nfd;

#[test]
fn test_get_choseong() {
    let testcase = "버그가 싫다.".to_string();
    let result = Decompose::get_choseong(testcase);
    println!("{:?}", result);
}

#[test]
fn test_decompose_to_groups() {
    let testcase = "버그가 싫다".to_string();
    let result = Decompose::decompose_to_groups(testcase);
    let expected = vec![
        vec!["ᄇ", "ᅥ"],
        vec!["ᄀ", "ᅳ"],
        vec!["ᄀ", "ᅡ"],
        vec![" "],
        vec!["ᄉ", "ᅵ", "ᆯᇂ"],
        vec!["ᄃ", "ᅡ"],
    ];
    assert_eq!(result, expected);
}

#[test]
fn test_decomposed_hangul() {
    let result = DecomposedHangul::new('각');
    if let Some(decomposed_hangul) = result {
        let choseong = decomposed_hangul.choseong.unicode;
        let jungseong = decomposed_hangul.jungseong.unicode;
        let jongseong = decomposed_hangul.jongseong.unwrap().unicode;

        assert_eq!(choseong, 0x1100); // 'ㄱ'
        assert_eq!(jungseong, 0x1161); // 'ㅏ'
        assert_eq!(jongseong, 0x11A8); // 'ㄱ'
        assert_ne!(choseong, jongseong); // leading and trailing 'ㄱ' differ
    }
}

#[test]
fn test_decompose() {
    let testcase = "안녕하세요.";
    let result = Decompose::decompose_to_groups(testcase.to_string());

    assert_eq!(
        result,
        vec![
            vec!["ᄋ", "ᅡ", "ᆫ"],
            vec!["ᄂ", "ᅧ", "ᆼ"],
            vec!["ᄒ", "ᅡ"],
            vec!["ᄉ", "ᅦ"],
            vec!["ᄋ", "ᅭ"],
            vec!["."]
        ]
    )
}

#[test]
fn test_get_choseong_keeps_length_and_letters() {
    let result = Decompose::get_choseong("버그가 싫다.".to_string());
    assert_eq!(result, "ᄇᄀᄀ ᄉᄃ.");
    assert_eq!(result.chars().count(), "버그가 싫다.".chars().count());
}

#[test]
fn test_has_batchim() {
    assert_eq!(Decompose::has_batchim("".to_string()), false);
    assert_eq!(Decompose::has_batchim("가".to_string()), false);
    assert_eq!(Decompose::has_batchim("값".to_string()), true);
}

#[test]
fn test_has_batchim_checks_only_last_character() {
    assert_eq!(Decompose::has_batchim("값이".to_string()), false);
    assert_eq!(Decompose::has_batchim("가격".to_string()), true);
    assert_eq!(Decompose::has_batchim("값.".to_string()), false);
}

#[test]
fn test_non_hangul_passes_through() {
    let result = Decompose::decompose_to_groups("A".to_string());
    assert_eq!(result, vec![vec!["A"]]);
    // both neighbours of the syllable block stay untouched
    let result = Decompose::decompose_to_groups("\u{ABFF}\u{D7A4}".to_string());
    assert_eq!(result, vec![vec!["\u{ABFF}"], vec!["\u{D7A4}"]]);
}

#[test]
fn test_block_boundaries_decompose() {
    // first and last codepoints of the precomposed syllable block
    let result = Decompose::decompose_to_groups("\u{AC00}\u{D7A3}".to_string());
    assert_eq!(
        result,
        vec![vec!["\u{1100}", "\u{1161}"], vec!["\u{1112}", "\u{1175}", "\u{11C2}"]]
    );
}

#[test]
fn test_normalize_round_trip_over_whole_block() {
    for cp in 0xAC00..=0xD7A3u32 {
        let Nfd(choseong, jungseong, jongseong) = Nfd::normalize_from_u32(cp).unwrap();
        assert!((0x1100..=0x1112).contains(&choseong));
        assert!((0x1161..=0x1175).contains(&jungseong));
        let jongseong_index = match jongseong {
            Some(j) => {
                assert!((0x11A8..=0x11C2).contains(&j));
                j - 0x11A8 + 1
            }
            None => 0,
        };
        let recomposed =
            0xAC00 + 588 * (choseong - 0x1100) + 28 * (jungseong - 0x1161) + jongseong_index;
        assert_eq!(recomposed, cp);
    }
}
