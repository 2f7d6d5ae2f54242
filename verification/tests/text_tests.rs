use livesplit_term::text::{
    align_center, align_left, align_right, blank, clamp_width, format_info_text, merge,
    u32_decimal,
};

#[test]
fn clamp_width_cuts_only_over_width() {
    assert_eq!(clamp_width("abc", 5), "abc");
    assert_eq!(clamp_width("abcdef", 4), "abcd");
    assert_eq!(clamp_width("", 4), "");
    assert_eq!(clamp_width("abc", 0), "");
}

#[test]
fn merge_whitespace_overlay_keeps_base() {
    assert_eq!(merge("hello", "     "), "hello");
    assert_eq!(merge("a b c", "     "), "a b c");
    assert_eq!(merge("", ""), "");
}

#[test]
fn merge_tab_and_nbsp_count_as_blank() {
    assert_eq!(merge("abc", "\t\u{00A0} "), "abc");
}

#[test]
fn merge_opaque_overlay_wins() {
    assert_eq!(merge("hello", "WORLD"), "WORLD");
    assert_eq!(merge("     ", "WORLD"), "WORLD");
}

#[test]
fn merge_mixed_positions() {
    assert_eq!(merge("abcde", "1 2 3"), "1b2d3");
}

#[test]
fn align_right_pads_on_left() {
    assert_eq!(align_right("0:00", 9), "     0:00");
    assert_eq!(align_right("123456789", 9), "123456789");
    assert_eq!(align_right("1234567890", 9), "1234567890");
    assert_eq!(align_right("", 3), "   ");
}

#[test]
fn align_left_pads_on_right() {
    assert_eq!(align_left("abc", 6), "abc   ");
    assert_eq!(align_left("toolong", 3), "toolong");
}

#[test]
fn align_center_extra_space_goes_right() {
    assert_eq!(align_center("abc", 6), " abc  ");
    assert_eq!(align_center("abc", 7), "  abc  ");
    assert_eq!(align_center("abc", 3), "abc");
    assert_eq!(align_center("Any%", 35), format!("{:^35}", "Any%"));
}

#[test]
fn format_info_text_exact() {
    let r = format_info_text("Sum of Best Segments", "0:00");
    assert_eq!(r.len(), 35);
    assert_eq!(r, "Sum of Best Segments           0:00");
    assert_eq!(format_info_text("", ""), " ".repeat(35));
}

#[test]
fn format_info_text_matches_zip_overlay() {
    let label = "Previous Segment";
    let value = "-0:01.2";
    let base = format!("{:<35}", label);
    let over = format!("{:>35}", value);
    let expected: String = base
        .chars()
        .zip(over.chars())
        .map(|(t, v)| if v.is_whitespace() { t } else { v })
        .collect();
    assert_eq!(format_info_text(label, value), expected);
}

#[test]
fn u32_decimal_exact() {
    assert_eq!(u32_decimal(0), "0");
    assert_eq!(u32_decimal(7), "7");
    assert_eq!(u32_decimal(42), "42");
    assert_eq!(u32_decimal(1234567890), "1234567890");
    assert_eq!(u32_decimal(u32::MAX), "4294967295");
}

#[test]
fn blank_matches_unicode_whitespace() {
    for c in [' ', '\t', '\n', '\r', '\u{00A0}', '\u{2003}', '\u{3000}'] {
        assert!(blank(c), "{c:?}");
        assert!(c.is_whitespace(), "{c:?}");
    }
    for c in ['x', '0', '_', '\u{200B}'] {
        assert!(!blank(c), "{c:?}");
        assert!(!c.is_whitespace(), "{c:?}");
    }
}
