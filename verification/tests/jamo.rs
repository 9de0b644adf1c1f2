use hangul::choseong::Choseong;
use hangul::jongseong::Jongseong;
use hangul::jungseong::Jungseong;
use hangul::nfd::Nfd;
use hangul::utils::is_jungseong_from_u32;

#[test]
fn test_choseong() {
    let letter = '궑';
    let Nfd(choseong_code, _, _) = Nfd::normalize_from_u32(letter as u32).unwrap();
    let choseong = Choseong::new_from_u32(choseong_code).unwrap();

    assert_eq!(choseong.unicode, 0x1100);
    assert_eq!(
        choseong
            .decomposed_string
            .chars()
            .map(|c| c as u32)
            .collect::<Vec<u32>>(),
        vec![0x1100]
    )
}

#[test]
fn test_jongseong() {
    let letter = '궑';
    let Nfd(_, _, jongseong_code) = Nfd::normalize_from_u32(letter as u32).unwrap();
    if let Some(jongseong_code) = jongseong_code {
        let jongseong = Jongseong::maybe_new(jongseong_code).unwrap();

        assert_eq!(jongseong.unicode, 0x11B0);
        assert_eq!(
            jongseong
                .decomposed_string
                .chars()
                .map(|c| c as u32)
                .collect::<Vec<u32>>(),
            vec![0x11AF, 0x11A8]
        )
    }
}

#[test]
fn test_jungseong() {
    let letter = '궐';
    let Nfd(_, jungseong_code, _) = Nfd::normalize_from_u32(letter as u32).unwrap();
    let jungseong = Jungseong::new(jungseong_code);

    assert_eq!(
        jungseong
            .decomposed_string
            .chars()
            .map(|c| c as u32)
            .collect::<Vec<u32>>(),
        "ㅜㅓ"
            .chars()
            // compatibility-block vowels sit 0x1FEE above their combining forms
            .map(|c| if is_jungseong_from_u32(c as u32) {
                c as u32
            } else {
                c as u32 - 0x1FEE
            })
            .collect::<Vec<u32>>()
    )
}

#[test]
fn test_choseong_rejects_out_of_range() {
    assert!(Choseong::new_from_u32(0x10FF).is_none());
    assert!(Choseong::new_from_u32(0x1113).is_none());
    assert!(Choseong::new_from_u32(0xAC00).is_none());
}

#[test]
fn test_jongseong_rejects_out_of_range() {
    assert!(Jongseong::maybe_new(0x20).is_none());
    assert!(Jongseong::maybe_new(0x11A7).is_none());
    assert!(Jongseong::maybe_new(0x11C3).is_none());
}

#[test]
fn test_jungseong_atoms_are_terminal() {
    // re-atomizing every atom of every vowel yields that atom unchanged
    for cp in 0x1161..=0x1175u32 {
        let atoms = Jungseong::new(cp).decomposed;
        assert!(1 <= atoms.len() && atoms.len() <= 2);
        for atom in atoms {
            assert!(is_jungseong_from_u32(atom));
            assert_eq!(Jungseong::new(atom).decomposed, vec![atom]);
        }
    }
}

#[test]
fn test_jongseong_atoms_are_terminal() {
    // re-atomizing every atom of every trailing consonant yields it unchanged
    for cp in 0x11A8..=0x11C2u32 {
        let atoms = Jongseong::maybe_new(cp).unwrap().decomposed;
        assert!(1 <= atoms.len() && atoms.len() <= 2);
        for atom in atoms {
            let again = Jongseong::maybe_new(atom).unwrap();
            assert_eq!(again.decomposed, vec![atom]);
        }
    }
}

#[test]
fn test_compound_jungseong_atoms() {
    let jungseong = Jungseong::new(0x116A);
    assert_eq!(jungseong.decomposed, vec![0x1169, 0x1161]);
    assert_eq!(jungseong.decomposed_string, "ᅩᅡ");
    let jungseong = Jungseong::new(0x1174);
    assert_eq!(jungseong.decomposed, vec![0x1173, 0x1175]);
}

#[test]
fn test_compound_jongseong_atoms() {
    let jongseong = Jongseong::maybe_new(0x11AA).unwrap();
    assert_eq!(jongseong.decomposed, vec![0x11A8, 0x11BA]);
    assert_eq!(jongseong.decomposed_string, "ᆨᆺ");
    let jongseong = Jongseong::maybe_new(0x11B9).unwrap();
    assert_eq!(jongseong.decomposed, vec![0x11B8, 0x11BA]);
}
