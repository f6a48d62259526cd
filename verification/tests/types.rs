use fazuh_common::types::char_is_whitespace;
use fazuh_common::types::split_percent_suffix;

#[test]
fn split_plain_decimal() {
    assert_eq!(split_percent_suffix("0.8"), ("0.8", false));
    assert_eq!(split_percent_suffix("1.0"), ("1.0", false));
    assert_eq!(split_percent_suffix("80"), ("80", false));
}

#[test]
fn split_percent_sign() {
    assert_eq!(split_percent_suffix("80%"), ("80", true));
    assert_eq!(split_percent_suffix("100%"), ("100", true));
    assert_eq!(split_percent_suffix("0%"), ("0", true));
}

#[test]
fn split_trims_whitespace_first() {
    assert_eq!(split_percent_suffix("  50% \n"), ("50", true));
    assert_eq!(split_percent_suffix("\t0.5 "), ("0.5", false));
    // a space before the sign stays in the number part
    assert_eq!(split_percent_suffix("50 %"), ("50 ", true));
}

#[test]
fn split_trims_unicode_whitespace() {
    assert_eq!(split_percent_suffix("\u{3000}75%\u{a0}"), ("75", true));
    assert_eq!(split_percent_suffix("\u{2003}\u{85}1\u{2029}"), ("1", false));
}

#[test]
fn split_edge_cases() {
    assert_eq!(split_percent_suffix(""), ("", false));
    assert_eq!(split_percent_suffix("   "), ("", false));
    assert_eq!(split_percent_suffix("%"), ("", true));
    assert_eq!(split_percent_suffix("%%"), ("%", true));
    assert_eq!(split_percent_suffix("abc"), ("abc", false));
    assert_eq!(split_percent_suffix("é%"), ("é", true));
}

#[test]
fn whitespace_agrees_with_std() {
    for u in 0u32..=0x3100 {
        if let Some(c) = char::from_u32(u) {
            assert_eq!(char_is_whitespace(c), c.is_whitespace(), "U+{:04X}", u);
        }
    }
    for c in ['\u{feff}', '\u{200b}', '\u{10ffff}', 'a'] {
        assert_eq!(char_is_whitespace(c), c.is_whitespace());
    }
}
