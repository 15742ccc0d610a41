use prefix_renamer::names::{
    effective_prefix, new_name, strip_prefix, RenameError, DEFAULT_PREFIX_LENGTH,
};

const HASHED: &str = "C6A91478B2AF28F550DD3B128D5D2886_test_1.xml";

#[test]
fn default_prefix_is_thirty_two() {
    assert_eq!(DEFAULT_PREFIX_LENGTH, 32);
    assert_eq!(effective_prefix(None), 32);
}

#[test]
fn configured_prefix_is_used() {
    assert_eq!(effective_prefix(Some(5)), 5);
    assert_eq!(effective_prefix(Some(0)), 0);
}

#[test]
fn strip_removes_the_hash() {
    assert_eq!(strip_prefix(HASHED, 32), Ok(String::from("_test_1.xml")));
    assert_eq!(strip_prefix(HASHED, 32), Ok(String::from(&HASHED[32..])));
}

#[test]
fn strip_with_longer_prefix_drops_the_underscore() {
    assert_eq!(strip_prefix(HASHED, 33), Ok(String::from("test_1.xml")));
}

#[test]
fn strip_of_nothing_keeps_the_name() {
    assert_eq!(strip_prefix(HASHED, 0), Ok(String::from(HASHED)));
}

#[test]
fn strip_of_the_whole_name_leaves_nothing() {
    assert_eq!(strip_prefix("abc", 3), Ok(String::new()));
    assert_eq!(strip_prefix("", 0), Ok(String::new()));
}

#[test]
fn strip_fails_on_a_short_name() {
    assert_eq!(strip_prefix("short.xml", 32), Err(RenameError::PrefixTooLong));
    assert_eq!(strip_prefix("abc", 4), Err(RenameError::PrefixTooLong));
    assert_eq!(strip_prefix("", 1), Err(RenameError::PrefixTooLong));
}

#[test]
fn strip_counts_bytes() {
    // 'é' takes two bytes.
    assert_eq!(strip_prefix("éa.xml", 2), Ok(String::from("a.xml")));
    assert_eq!(strip_prefix("aé", 3), Ok(String::new()));
    assert_eq!(strip_prefix("aé", 4), Err(RenameError::PrefixTooLong));
}

#[test]
fn strip_fails_inside_a_character() {
    assert_eq!(strip_prefix("éa.xml", 1), Err(RenameError::SplitsCharacter));
    assert_eq!(strip_prefix("a€b", 2), Err(RenameError::SplitsCharacter));
    assert_eq!(strip_prefix("a€b", 3), Err(RenameError::SplitsCharacter));
    assert_eq!(strip_prefix("a€b", 4), Ok(String::from("b")));
}

#[test]
fn new_name_without_parent_is_the_suffix() {
    assert_eq!(new_name("sites", HASHED, 32, false), Ok(String::from("_test_1.xml")));
}

#[test]
fn new_name_with_parent_puts_it_in_front() {
    assert_eq!(new_name("sites", HASHED, 32, true), Ok(String::from("sites_test_1.xml")));
    assert_eq!(new_name("", HASHED, 32, true), Ok(String::from("_test_1.xml")));
}

#[test]
fn new_name_fails_as_strip_does() {
    assert_eq!(new_name("sites", "a.xml", 32, true), Err(RenameError::PrefixTooLong));
    assert_eq!(new_name("sites", "a.xml", 32, false), Err(RenameError::PrefixTooLong));
    assert_eq!(new_name("sites", "é.xml", 1, true), Err(RenameError::SplitsCharacter));
}
