use clean_api::text::{bool_to_text, eq_ignore_ascii_case, is_blank, str_eq, u64_to_decimal};

#[test]
fn decimal_rendering_matches_to_string() {
    assert_eq!(u64_to_decimal(0), "0");
    assert_eq!(u64_to_decimal(7), "7");
    assert_eq!(u64_to_decimal(10), "10");
    assert_eq!(u64_to_decimal(12345), "12345");
    assert_eq!(u64_to_decimal(u64::MAX), u64::MAX.to_string());
}

#[test]
fn bool_rendering() {
    assert_eq!(bool_to_text(true), "true");
    assert_eq!(bool_to_text(false), "false");
}

#[test]
fn blank_texts_are_those_that_trim_to_nothing() {
    for s in ["", " ", "\t\n\r", "\u{3000}\u{a0}", "\u{2028}"] {
        assert!(is_blank(s), "{s:?}");
        assert_eq!(is_blank(s), s.trim().is_empty());
    }
    for s in ["a", " a ", "\u{200b}", "-"] {
        assert!(!is_blank(s), "{s:?}");
        assert_eq!(is_blank(s), s.trim().is_empty());
    }
}

#[test]
fn ascii_case_insensitive_comparison() {
    assert!(eq_ignore_ascii_case("asc", "ASC"));
    assert!(eq_ignore_ascii_case("AsC", "ASC"));
    assert!(!eq_ignore_ascii_case("ASCX", "ASC"));
    assert!(!eq_ignore_ascii_case("desc", "ASC"));
    assert!(!eq_ignore_ascii_case("äsc", "ÄSC"));
}

#[test]
fn exact_comparison() {
    assert!(str_eq("code", "code"));
    assert!(!str_eq("Code", "code"));
    assert!(!str_eq("code ", "code"));
    assert!(str_eq("", ""));
}
