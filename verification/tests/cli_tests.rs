use korean::cli::{parse_setup_options, simulate};
use korean::sources::{append_ibus_source, remove_ibus_source, source_index, source_items, source_list};

#[test]
fn appends_korean_to_empty_sources() {
    assert_eq!(append_ibus_source("[]", "korean"), "[('ibus', 'korean')]");
}

#[test]
fn appends_korean_to_typed_empty_sources() {
    assert_eq!(
        append_ibus_source("@a(ss) []", "korean"),
        "[('ibus', 'korean')]"
    );
}

#[test]
fn does_not_duplicate_existing_korean_source() {
    let sources = "[('ibus', 'korean')]";
    assert_eq!(append_ibus_source(sources, "korean"), sources);
}

#[test]
fn finds_korean_source_index() {
    let sources = "[('xkb', 'us'), ('ibus', 'korean')]";
    assert_eq!(source_index(sources, "korean"), Some(1));
}

#[test]
fn finds_korean_when_it_is_first() {
    let sources = "[('ibus', 'korean'), ('xkb', 'us')]";
    assert_eq!(source_index(sources, "korean"), Some(0));
}

#[test]
fn removes_korean_source() {
    let sources = "[('xkb', 'us'), ('ibus', 'korean'), ('ibus', 'hangul')]";
    assert_eq!(
        remove_ibus_source(sources, "korean"),
        "[('xkb', 'us'), ('ibus', 'hangul')]"
    );
}

#[test]
fn removes_korean_when_it_is_only_source() {
    assert_eq!(remove_ibus_source("[('ibus', 'korean')]", "korean"), "[]");
}

#[test]
fn removes_from_typed_empty_sources() {
    assert_eq!(remove_ibus_source("@a(ss) []", "korean"), "[]");
}

#[test]
fn parses_setup_caps_switch_option() {
    let options = parse_setup_options(vec!["--caps-switch".into(), "--quiet".into()]).unwrap();
    assert!(options.caps_switch);
    assert!(options.quiet);
}

#[test]
fn rejects_unknown_setup_option() {
    assert!(parse_setup_options(vec!["--unknown".into()]).is_err());
}

#[test]
fn unknown_setup_option_is_named_in_the_error() {
    match parse_setup_options(vec!["--quiet".into(), "--bogus".into(), "--other".into()]) {
        Err(message) => assert_eq!(message, "Unknown setup option: --bogus"),
        Ok(_) => panic!("expected an error"),
    }
    let options = parse_setup_options(vec![]).unwrap();
    assert!(!options.caps_switch);
    assert!(!options.quiet);
}

#[test]
fn source_items_read_typed_and_spaced_lists() {
    assert_eq!(
        source_items("  @a(ss) [('xkb', 'us'),  ('ibus', 'korean')]\n"),
        vec!["('xkb', 'us')".to_string(), "('ibus', 'korean')".to_string()]
    );
    assert!(source_items("[]").is_empty());
    assert!(source_items("").is_empty());
    assert_eq!(source_list(&[]), "[]");
    assert_eq!(
        source_list(&["('xkb', 'us')".to_string(), "('ibus', 'korean')".to_string()]),
        "[('xkb', 'us'), ('ibus', 'korean')]"
    );
}

#[test]
fn appended_source_is_then_found_and_removed() {
    let sources = "[('xkb', 'us')]";
    let added = append_ibus_source(sources, "korean");
    assert_eq!(added, "[('xkb', 'us'), ('ibus', 'korean')]");
    assert_eq!(source_index(&added, "korean"), Some(1));
    let removed = remove_ibus_source(&added, "korean");
    assert_eq!(removed, sources);
    assert_eq!(source_index(&removed, "korean"), None);
}

#[test]
fn simulate_prints_each_step_of_hangul() {
    let simulation = simulate("gksrmf");
    let expected = ["ㅎ", "하", "한", "한ㄱ", "한그", "한글"];
    assert_eq!(simulation.shown.len(), expected.len());
    for (shown, expected) in simulation.shown.iter().zip(expected) {
        assert_eq!(shown, expected);
    }
    assert_eq!(simulation.final_text, "한글");
}

#[test]
fn removing_undoes_appending_on_a_typed_list() {
    let sources = "@a(ss) [('xkb', 'us'),   ('xkb', 'kr')]";
    let added = append_ibus_source(sources, "korean");
    assert_eq!(added, "[('xkb', 'us'), ('xkb', 'kr'), ('ibus', 'korean')]");
    assert_eq!(
        source_items(&remove_ibus_source(&added, "korean")),
        source_items(sources)
    );
}

#[test]
fn pair_lists_read_back_with_or_without_type_annotation() {
    let items = vec![
        "('xkb', 'us')".to_string(),
        "('ibus', 'korean')".to_string(),
        "('xkb', 'kr+kr104')".to_string(),
    ];
    let list = source_list(&items);
    assert_eq!(source_items(&list), items);
    assert_eq!(source_items(&format!("@a(ss) {list}")), items);
    assert!(source_items(&source_list(&[])).is_empty());
    assert!(source_items("@a(ss) []").is_empty());
}
