use genesis_verify::waypoint::{hex_chars_of_str, waypoint_from_str, Waypoint};

fn hash_of(c: char) -> Vec<char> {
    vec![c; 64]
}

fn hash_str(c: char) -> String {
    c.to_string().repeat(64)
}

#[test]
fn waypoint_renders_canonically() {
    let w = Waypoint { version: 7, hash: hash_of('a') };
    assert_eq!(w.to_text(), format!("7:{}", hash_str('a')));
}

#[test]
fn waypoint_zero_version_renders() {
    let w = Waypoint { version: 0, hash: hash_of('0') };
    assert_eq!(w.to_text(), format!("0:{}", hash_str('0')));
}

#[test]
fn waypoint_large_version_renders() {
    let w = Waypoint { version: u64::MAX, hash: hash_of('f') };
    assert_eq!(w.to_text(), format!("18446744073709551615:{}", hash_str('f')));
}

#[test]
fn waypoint_round_trips() {
    let w = Waypoint { version: 3141592653589793238, hash: hash_of('c') };
    let text = w.to_text();
    let parsed = waypoint_from_str(&text).expect("canonical text must parse");
    assert_eq!(parsed.version, 3141592653589793238);
    assert_eq!(parsed.hash, hash_of('c'));
}

#[test]
fn waypoint_parse_accepts_max_version() {
    let text = format!("18446744073709551615:{}", hash_str('a'));
    let parsed = waypoint_from_str(&text).expect("max version fits");
    assert_eq!(parsed.version, u64::MAX);
}

#[test]
fn waypoint_parse_rejects_overflow() {
    let text = format!("18446744073709551616:{}", hash_str('a'));
    assert!(waypoint_from_str(&text).is_none());
}

#[test]
fn waypoint_parse_rejects_empty() {
    assert!(waypoint_from_str("").is_none());
}

#[test]
fn waypoint_parse_rejects_missing_colon() {
    assert!(waypoint_from_str(&hash_str('a')).is_none());
}

#[test]
fn waypoint_parse_rejects_empty_version() {
    assert!(waypoint_from_str(&format!(":{}", hash_str('a'))).is_none());
}

#[test]
fn waypoint_parse_rejects_leading_zero() {
    assert!(waypoint_from_str(&format!("07:{}", hash_str('a'))).is_none());
}

#[test]
fn waypoint_parse_rejects_short_hash() {
    assert!(waypoint_from_str(&format!("7:{}", "a".repeat(63))).is_none());
}

#[test]
fn waypoint_parse_rejects_long_hash() {
    assert!(waypoint_from_str(&format!("7:{}", "a".repeat(65))).is_none());
}

#[test]
fn waypoint_parse_rejects_uppercase_hash() {
    assert!(waypoint_from_str(&format!("7:{}", "A".repeat(64))).is_none());
}

#[test]
fn waypoint_parse_rejects_nonhex_hash() {
    assert!(waypoint_from_str(&format!("7:{}", "g".repeat(64))).is_none());
}

#[test]
fn waypoint_parse_rejects_nondigit_version() {
    assert!(waypoint_from_str(&format!("7a:{}", hash_str('b'))).is_none());
}

#[test]
fn waypoint_equals_compares_by_value() {
    let a = Waypoint { version: 5, hash: hash_of('a') };
    let b = Waypoint { version: 5, hash: hash_of('a') };
    let c = Waypoint { version: 5, hash: hash_of('b') };
    let d = Waypoint { version: 6, hash: hash_of('a') };
    assert!(a.equals(&b));
    assert!(!a.equals(&c));
    assert!(!a.equals(&d));
}

#[test]
fn hex_chars_validates_length_and_alphabet() {
    assert!(hex_chars_of_str(&"a".repeat(64)).is_some());
    assert!(hex_chars_of_str(&"a".repeat(63)).is_none());
    assert!(hex_chars_of_str(&"G".repeat(64)).is_none());
    let chars = hex_chars_of_str(&"0123456789abcdef".repeat(4)).unwrap();
    assert_eq!(chars.len(), 64);
    assert_eq!(chars[10], 'a');
}
