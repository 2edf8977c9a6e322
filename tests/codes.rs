use watch_party::code::{code_from_text, code_to_text, parse_code_text, CODE_SPACE};

#[test]
fn codes_are_written_in_four_symbols() {
    assert_eq!(code_to_text(0), "0000");
    assert_eq!(code_to_text(CODE_SPACE - 1), "ZZZZ");
    assert_eq!(code_to_text(480854), "AB12");
    assert_eq!(code_to_text(36), "0010");
}

#[test]
fn codes_read_back_in_either_case() {
    assert_eq!(code_from_text("AB12"), Some(480854));
    assert_eq!(code_from_text("ab12"), Some(480854));
    assert_eq!(code_from_text("aB12"), Some(480854));
    assert_eq!(code_from_text("zzzz"), Some(CODE_SPACE - 1));
}

#[test]
fn malformed_codes_name_nothing() {
    assert_eq!(code_from_text("AB1"), None);
    assert_eq!(code_from_text("AB123"), None);
    assert_eq!(code_from_text("AB!2"), None);
    assert_eq!(code_from_text(""), None);
}

#[test]
fn every_written_code_reads_back() {
    for c in [0u32, 1, 35, 36, 1295, 1296, 46655, 46656, 999_999, CODE_SPACE - 1] {
        assert_eq!(code_from_text(&code_to_text(c)), Some(c));
    }
}

#[test]
fn lower_cased_text_is_read_in_lower_case_only() {
    assert_eq!(parse_code_text("ab12"), Some(480854));
    assert_eq!(parse_code_text("AB12"), None);
}

#[test]
fn case_folding_follows_unicode_lower_casing() {
    // the Kelvin sign lower-cases to 'k'
    assert_eq!(code_from_text("\u{212A}000"), code_from_text("K000"));
    assert_eq!(code_from_text("\u{212A}000"), Some(20 * 46656));
}
