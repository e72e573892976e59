use rwc::chars::{encoded_width, is_whitespace};

#[test]
fn whitespace_is_what_unicode_calls_white_space() {
    let mut code: u32 = 0;
    while code <= 0x10FFFF {
        if let Some(c) = char::from_u32(code) {
            assert_eq!(is_whitespace(c), c.is_whitespace());
        }
        code += 1;
    }
}

#[test]
fn width_is_the_length_of_the_utf8_encoding() {
    let mut code: u32 = 0;
    while code <= 0x10FFFF {
        if let Some(c) = char::from_u32(code) {
            assert_eq!(encoded_width(c), c.len_utf8() as u64);
        }
        code += 1;
    }
}

#[test]
fn widths_at_the_borders() {
    assert_eq!(encoded_width('\u{7f}'), 1);
    assert_eq!(encoded_width('\u{80}'), 2);
    assert_eq!(encoded_width('\u{7ff}'), 2);
    assert_eq!(encoded_width('\u{800}'), 3);
    assert_eq!(encoded_width('\u{ffff}'), 3);
    assert_eq!(encoded_width('\u{10000}'), 4);
    assert_eq!(encoded_width('\u{10ffff}'), 4);
}
