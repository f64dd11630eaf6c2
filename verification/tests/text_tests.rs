use tes3mp_runner::text::{
    chars_of, contains_text, parse_u16, path_join, string_of, trim_text, u16_to_decimal,
};

#[test]
fn parse_u16_accepts_what_from_str_accepts() {
    assert_eq!(parse_u16("25565"), Some(25565));
    assert_eq!(parse_u16("+5"), Some(5));
    assert_eq!(parse_u16("0001"), Some(1));
    assert_eq!(parse_u16("65535"), Some(65535));
    assert_eq!(parse_u16("0"), Some(0));
}

#[test]
fn parse_u16_rejects_what_from_str_rejects() {
    assert_eq!(parse_u16(""), None);
    assert_eq!(parse_u16("+"), None);
    assert_eq!(parse_u16("-1"), None);
    assert_eq!(parse_u16("65536"), None);
    assert_eq!(parse_u16("99999999999"), None);
    assert_eq!(parse_u16("12a"), None);
    assert_eq!(parse_u16("\u{0661}\u{0662}"), None);
    assert_eq!(parse_u16(" 1"), None);
}

#[test]
fn parse_u16_agrees_with_std() {
    for s in ["7", "+42", "00", "65535", "65536", "", "+", "x", "1 ", "٣"] {
        assert_eq!(parse_u16(s), s.parse::<u16>().ok(), "{:?}", s);
    }
}

#[test]
fn decimal_round_trip_on_values() {
    for n in [0u16, 1, 9, 10, 99, 100, 25565, 65535] {
        let s = u16_to_decimal(n);
        assert_eq!(s, n.to_string());
        assert_eq!(parse_u16(&s), Some(n));
    }
}

#[test]
fn trim_text_removes_surrounding_whitespace() {
    assert_eq!(trim_text("  1.2.3.4\n"), "1.2.3.4");
    assert_eq!(trim_text("\u{3000}x y\u{a0}"), "x y");
    assert_eq!(trim_text("   "), "");
}

#[test]
fn contains_text_finds_substrings() {
    assert!(contains_text("1.2.3.4:25565", ":25565"));
    assert!(!contains_text("1.2.3.4:2556", ":25565"));
    assert!(contains_text("abc", ""));
    assert!(!contains_text("", "a"));
    assert!(contains_text("aab", "ab"));
}

#[test]
fn path_join_behaves_like_pathbuf_join() {
    assert_eq!(path_join("/mnt/server", "lib"), "/mnt/server/lib");
    assert_eq!(path_join("/mnt/server/", "lib"), "/mnt/server/lib");
    assert_eq!(path_join("", "lib"), "lib");
    assert_eq!(path_join("/mnt", "/etc"), "/etc");
    for (a, b) in [("/x", "y/z"), ("x/", "y"), (".", "a"), ("", ""), ("a", "")] {
        let expected = std::path::Path::new(a).join(b).to_string_lossy().into_owned();
        assert_eq!(path_join(a, b), expected);
    }
}

#[test]
fn chars_and_string_round_trip() {
    let v = chars_of("héllo");
    assert_eq!(v, vec!['h', 'é', 'l', 'l', 'o']);
    assert_eq!(string_of(&v), "héllo");
}
