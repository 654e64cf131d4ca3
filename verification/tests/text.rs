use twitter_stream::text::{fmt_join, is_json_whitespace, not, write_i32, write_u64, JoinDisplay};

#[test]
fn decimal_text() {
    let mut s = String::new();
    write_u64(0, &mut s);
    assert_eq!(s, "0");
    let mut s = String::from("x=");
    write_u64(18446744073709551615, &mut s);
    assert_eq!(s, "x=18446744073709551615");
    let mut s = String::new();
    write_i32(-2147483648, &mut s);
    assert_eq!(s, "-2147483648");
    let mut s = String::new();
    write_i32(305, &mut s);
    assert_eq!(s, "305");
}

#[test]
fn join_with_separator() {
    let mut s = String::new();
    fmt_join(&[1u64, 22, 333], ", ", &mut s);
    assert_eq!(s, "1, 22, 333");
    let mut s = String::from("a");
    fmt_join::<u64>(&[], ",", &mut s);
    assert_eq!(s, "a");
    let words = vec!["x".to_owned(), "y".to_owned()];
    assert_eq!(JoinDisplay(&words, "%2C").to_string(), "x%2Cy");
    assert_eq!(JoinDisplay(&[7i32, -8], "|").to_string(), "7|-8");
}

#[test]
fn predicates() {
    assert!(not(&false));
    assert!(!not(&true));
    for c in [b' ', b'\t', b'\n', b'\r'] {
        assert!(is_json_whitespace(c));
    }
    for c in [b'a', b'{', 0u8, 0x0b, 0x0c] {
        assert!(!is_json_whitespace(c));
    }
}
