use relay_control::paths::fix_pathbuf_parts;
use relay_control::slave::parse_slave;
use relay_control::state::{check_state_str, state_bool_to_str, state_str_to_bool, StateStrError};

#[test]
fn well_formed_relay_string_is_accepted() {
    assert!(check_state_str("0101010101010101"));
    assert_eq!(
        state_str_to_bool("0101010101010101").unwrap(),
        (0..16).map(|i| i % 2 == 1).collect::<Vec<bool>>()
    );
}

#[test]
fn short_relay_string_is_rejected() {
    assert!(!check_state_str("012"));
    assert_eq!(state_str_to_bool("012"), Err(StateStrError::WrongLength));
}

#[test]
fn empty_relay_string_is_rejected() {
    assert!(!check_state_str(""));
    assert_eq!(state_str_to_bool(""), Err(StateStrError::WrongLength));
}

#[test]
fn bad_character_is_rejected() {
    assert!(!check_state_str("0101010101010102"));
    assert_eq!(state_str_to_bool("01010101010101x1"), Err(StateStrError::BadChar));
    assert!(!check_state_str("010101010101010"));
    assert!(!check_state_str("01010101010101010"));
}

#[test]
fn relay_string_round_trip() {
    let s = "1100101000001111";
    let v = state_str_to_bool(s).unwrap();
    assert_eq!(state_bool_to_str(&v), s);
    assert_eq!(state_bool_to_str(&[true, false, false]), "100");
    assert_eq!(state_bool_to_str(&[]), "");
}

#[test]
fn slave_ids_from_text() {
    assert_eq!(parse_slave("1"), Some(1));
    assert_eq!(parse_slave("255"), Some(255));
    assert_eq!(parse_slave("017"), Some(17));
    assert_eq!(parse_slave("0"), None);
    assert_eq!(parse_slave("256"), None);
    assert_eq!(parse_slave("1000"), None);
    assert_eq!(parse_slave(""), None);
    assert_eq!(parse_slave("12a"), None);
    assert_eq!(parse_slave("-1"), None);
}

#[test]
fn path_parts_are_joined_with_spaces() {
    assert_eq!(fix_pathbuf_parts(&[]), None);
    let parts = vec!["/home/me/my".to_string(), "relay".to_string(), "project.json".to_string()];
    assert_eq!(fix_pathbuf_parts(&parts), Some("/home/me/my relay project.json".to_string()));
    assert_eq!(fix_pathbuf_parts(&["a".to_string()]), Some("a".to_string()));
}
