//! Texts and the names of new files.
use tensaku::state_file::{after_create, temp_name, Created, WriteStep, TEMP_ATTEMPTS};
use tensaku::text::{decimal, is_white, lower, number, trim};

#[test]
fn new_files_sit_beside_the_old_one() {
    assert_eq!(temp_name(Some("state.toml"), 41, 0), ".state.toml.tensaku-tmp-41-0");
    assert_ne!(temp_name(Some("state.toml"), 1, 12), temp_name(Some("state.toml"), 11, 2));
}

#[test]
fn a_name_without_a_file_is_the_usual_one() {
    assert_eq!(temp_name(None, 7, 8), ".state.toml.tensaku-tmp-7-8");
}

#[test]
fn taken_names_are_tried_past() {
    assert_eq!(after_create(0, Created::Yes), WriteStep::Write);
    assert_eq!(after_create(0, Created::AlreadyExists), WriteStep::Retry);
    assert_eq!(after_create(TEMP_ATTEMPTS - 1, Created::AlreadyExists), WriteStep::GiveUp);
    assert_eq!(after_create(5, Created::Failed), WriteStep::Fail);
}

#[test]
fn numbers_read_back() {
    for n in [0u64, 7, 10, 99, 100, 123_456_789, u64::MAX] {
        assert_eq!(decimal(n), n.to_string());
        assert_eq!(number(&decimal(n)), Some(n));
    }
    assert_eq!(number(""), None);
    assert_eq!(number("12x"), None);
    assert_eq!(number("18446744073709551616"), None);
}

#[test]
fn blanks_are_trimmed() {
    assert_eq!(trim("  a b\t\n"), "a b");
    assert_eq!(trim("\u{a0}\u{3000}"), "");
    assert_eq!(trim(trim("  x ")), trim("  x "));
    assert!(is_white(' '));
    assert!(!is_white('x'));
}

#[test]
fn letters_are_lowered() {
    assert_eq!(lower("Ctrl+Shift+A"), "ctrl+shift+a");
    assert_eq!(lower("f12-"), "f12-");
}
