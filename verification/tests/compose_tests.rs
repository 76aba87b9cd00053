use korean::backspace::backspace;
use korean::compose::{combine_final, combine_vowel, decompose_final, decompose_vowel};
use korean::keymap_2beolsik::{map_key, Jamo};
use korean::syllable::{
    choseong_index, compose_syllable, jongseong_index, jungseong_index, CHOSEONG, JONGSEONG,
    JUNGSEONG,
};
use std::collections::HashSet;
use korean::{HangulComposer, InputResult};

fn simulate(input: &str) -> String {
    let mut composer = HangulComposer::new();
    let mut out = String::new();
    for ch in input.chars() {
        match composer.input_key(ch) {
            InputResult::Commit { text } => out.push_str(&text),
            InputResult::CommitAndPreedit { commit, .. } => out.push_str(&commit),
            _ => {}
        }
    }
    if let Some(text) = composer.commit() {
        out.push_str(&text);
    }
    out
}

#[test]
fn composes_basic_words() {
    assert_eq!(simulate("gksrmf"), "한글");
    assert_eq!(simulate("dkssud"), "안녕");
    assert_eq!(simulate("rkskek"), "가나다");
    assert_eq!(simulate("rhk"), "과");
    assert_eq!(simulate("rhkf"), "괄");
    assert_eq!(simulate("rkqt"), "값");
}

#[test]
fn shifted_keys_keep_normal_jamo_unless_2beolsik_changes_them() {
    assert_eq!(simulate("A"), "ㅁ");
    assert_eq!(simulate("akA"), "맘");
    assert_eq!(simulate("K"), "ㅏ");
    assert_eq!(simulate("Rk"), "까");
    assert_eq!(simulate("O"), "ㅒ");
}

#[test]
fn decomposes_with_backspace() {
    let mut composer = HangulComposer::new();
    for ch in "rkqt".chars() {
        composer.input_key(ch);
    }
    assert_eq!(composer.preedit(), "값");

    composer.backspace();
    assert_eq!(composer.preedit(), "갑");
    composer.backspace();
    assert_eq!(composer.preedit(), "가");
    composer.backspace();
    assert_eq!(composer.preedit(), "ㄱ");
    composer.backspace();
    assert_eq!(composer.preedit(), "");
}

#[test]
fn syllable_code_points_follow_the_unicode_formula() {
    // 0xAC00 + (l * 21 + v) * 28 + t
    assert_eq!(compose_syllable('ㄱ', 'ㅏ', None), Some('가'));
    assert_eq!(compose_syllable('ㅎ', 'ㅣ', Some('ㅎ')), Some('힣'));
    assert_eq!(compose_syllable('ㅎ', 'ㅏ', Some('ㄴ')), Some('한'));
    assert_eq!(compose_syllable('ㄱ', 'ㅏ', Some('ㅄ')), Some('값'));
    assert_eq!(compose_syllable('ㅇ', 'ㅗ', None), Some('오'));
}

#[test]
fn syllable_needs_jamo_of_each_table() {
    assert_eq!(compose_syllable('ㅏ', 'ㅏ', None), None);
    assert_eq!(compose_syllable('ㄱ', 'ㄱ', None), None);
    assert_eq!(compose_syllable('ㄱ', 'ㅏ', Some('ㄸ')), None);
    assert_eq!(compose_syllable('a', 'ㅏ', None), None);
}

#[test]
fn jamo_indices_are_table_positions() {
    assert_eq!(choseong_index('ㄱ'), Some(0));
    assert_eq!(choseong_index('ㅎ'), Some(18));
    assert_eq!(choseong_index('ㄳ'), None);
    assert_eq!(jungseong_index('ㅏ'), Some(0));
    assert_eq!(jungseong_index('ㅣ'), Some(20));
    assert_eq!(jungseong_index('ㄱ'), None);
    assert_eq!(jongseong_index('ㄱ'), Some(1));
    assert_eq!(jongseong_index('ㅎ'), Some(27));
    assert_eq!(jongseong_index('ㄸ'), None);
}

#[test]
fn compound_jamo_split_back_into_their_halves() {
    assert_eq!(combine_vowel('ㅗ', 'ㅏ'), Some('ㅘ'));
    assert_eq!(decompose_vowel('ㅘ'), Some(('ㅗ', 'ㅏ')));
    assert_eq!(combine_vowel('ㅡ', 'ㅣ'), Some('ㅢ'));
    assert_eq!(decompose_vowel('ㅢ'), Some(('ㅡ', 'ㅣ')));
    assert_eq!(combine_vowel('ㅏ', 'ㅗ'), None);
    assert_eq!(decompose_vowel('ㅏ'), None);
    assert_eq!(combine_final('ㄹ', 'ㄱ'), Some('ㄺ'));
    assert_eq!(decompose_final('ㄺ'), Some(('ㄹ', 'ㄱ')));
    assert_eq!(combine_final('ㅂ', 'ㅅ'), Some('ㅄ'));
    assert_eq!(decompose_final('ㅄ'), Some(('ㅂ', 'ㅅ')));
    assert_eq!(combine_final('ㅅ', 'ㄱ'), None);
    assert_eq!(decompose_final('ㄱ'), None);
}

#[test]
fn keymap_follows_two_beolsik_layout() {
    assert_eq!(map_key('r'), Some(Jamo::Consonant('ㄱ')));
    assert_eq!(map_key('R'), Some(Jamo::Consonant('ㄲ')));
    assert_eq!(map_key('S'), Some(Jamo::Consonant('ㄴ')));
    assert_eq!(map_key('P'), Some(Jamo::Vowel('ㅖ')));
    assert_eq!(map_key('l'), Some(Jamo::Vowel('ㅣ')));
    assert_eq!(map_key('1'), None);
    assert_eq!(map_key(' '), None);
}

#[test]
fn non_jamo_key_commits_composition_and_itself() {
    let mut composer = HangulComposer::new();
    composer.input_key('g');
    composer.input_key('k');
    match composer.input_key('1') {
        InputResult::Commit { text } => assert_eq!(text, "하1"),
        other => panic!("unexpected {other:?}"),
    }
    assert_eq!(composer.preedit(), "");
}

#[test]
fn vowel_after_final_moves_the_final_to_the_next_syllable() {
    let mut composer = HangulComposer::new();
    for ch in "rkq".chars() {
        composer.input_key(ch);
    }
    assert_eq!(composer.preedit(), "갑");
    match composer.input_key('k') {
        InputResult::CommitAndPreedit { commit, preedit } => {
            assert_eq!(commit, "가");
            assert_eq!(preedit, "바");
        }
        other => panic!("unexpected {other:?}"),
    }
    let mut composer = HangulComposer::new();
    for ch in "rkqt".chars() {
        composer.input_key(ch);
    }
    match composer.input_key('k') {
        InputResult::CommitAndPreedit { commit, preedit } => {
            assert_eq!(commit, "갑");
            assert_eq!(preedit, "사");
        }
        other => panic!("unexpected {other:?}"),
    }
}

#[test]
fn backspace_undoes_a_key_that_only_changed_the_composition() {
    let mut composer = HangulComposer::new();
    for ch in "rhk".chars() {
        composer.input_key(ch);
    }
    assert_eq!(composer.preedit(), "과");
    assert_eq!(
        composer.input_key('f'),
        InputResult::PreeditChanged { preedit: "괄".to_string() }
    );
    assert_eq!(
        backspace(&mut composer),
        InputResult::PreeditChanged { preedit: "과".to_string() }
    );
    assert_eq!(
        composer.backspace(),
        InputResult::PreeditChanged { preedit: "고".to_string() }
    );
    assert_eq!(
        composer.backspace(),
        InputResult::PreeditChanged { preedit: "ㄱ".to_string() }
    );
    assert_eq!(composer.backspace(), InputResult::Clear);
    assert_eq!(composer.backspace(), InputResult::Clear);
}

#[test]
fn commit_hands_out_preedit_once() {
    let mut composer = HangulComposer::new();
    assert_eq!(composer.commit(), None);
    composer.input_key('d');
    composer.input_key('k');
    assert_eq!(composer.commit(), Some("아".to_string()));
    assert_eq!(composer.commit(), None);
    composer.input_key('k');
    composer.reset();
    assert_eq!(composer.preedit(), "");
}

#[test]
fn different_jamo_give_different_syllables() {
    let mut seen = HashSet::new();
    let finals: Vec<Option<char>> = std::iter::once(None)
        .chain(JONGSEONG.iter().map(|&c| Some(c)))
        .collect();
    for &initial in CHOSEONG.iter() {
        for &vowel in JUNGSEONG.iter() {
            for &final_jamo in finals.iter() {
                let syllable = compose_syllable(initial, vowel, final_jamo).unwrap();
                assert!(seen.insert(syllable), "{initial}{vowel}{final_jamo:?}");
            }
        }
    }
    assert_eq!(seen.len(), 11172);
}

#[test]
fn layout_keys_never_let_latin_letters_through() {
    let is_hangul = |c: char| {
        let n = c as u32;
        (0x3131..=0x318E).contains(&n) || (0xAC00..=0xD7A3).contains(&n)
    };
    let mut composer = HangulComposer::new();
    let keys: String = ('a'..='z').chain('A'..='Z').collect::<String>().repeat(3);
    for key in keys.chars() {
        let texts = match composer.input_key(key) {
            InputResult::PreeditChanged { preedit } => vec![preedit],
            InputResult::Commit { text } => vec![text],
            InputResult::CommitAndPreedit { commit, preedit } => vec![commit, preedit],
            InputResult::Clear => vec![],
        };
        for text in texts {
            assert!(text.chars().all(is_hangul), "{key}: {text:?}");
        }
        assert!(composer.preedit().chars().all(is_hangul));
    }
}

#[test]
fn layout_keys_always_leave_one_character_of_preedit() {
    let mut composer = HangulComposer::new();
    let keys: String = "gksrmfdkssudrhkwhgdmsdlfRkTdjEOPQWqnpdml".repeat(2);
    for key in keys.chars() {
        match composer.input_key(key) {
            InputResult::PreeditChanged { preedit } => {
                assert_eq!(preedit, composer.preedit(), "{key}");
                assert_eq!(preedit.chars().count(), 1, "{key}");
            }
            InputResult::CommitAndPreedit { commit, preedit } => {
                assert_eq!(preedit, composer.preedit(), "{key}");
                assert_eq!(preedit.chars().count(), 1, "{key}");
                assert_eq!(commit.chars().count(), 1, "{key}");
            }
            other => panic!("{key}: {other:?}"),
        }
    }
}

#[test]
fn reachable_preedits_are_table_jamo_or_syllables() {
    let in_tables = |c: char| {
        CHOSEONG.contains(&c) || JUNGSEONG.contains(&c) || ('\u{AC00}'..='\u{D7A3}').contains(&c)
    };
    let mut composer = HangulComposer::new();
    let keys = "gks,rmf1dkTEQWOP kk\u{8}hkl\u{8}\u{8}fkr\u{8}fkrk.nlz";
    for key in keys.chars() {
        if key == '\u{8}' {
            composer.backspace();
        } else {
            composer.input_key(key);
        }
        let preedit = composer.preedit();
        assert!(preedit.chars().count() <= 1, "{key}: {preedit:?}");
        assert!(preedit.chars().all(in_tables), "{key}: {preedit:?}");
    }
}
