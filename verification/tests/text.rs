use image_resizer::text::{chars_of, is_whitespace, to_ascii_lower, trim_bounds};

#[test]
fn characters_come_in_order() {
    assert_eq!(chars_of("a\u{e9}z"), vec!['a', '\u{e9}', 'z']);
    assert_eq!(chars_of(""), Vec::<char>::new());
}

#[test]
fn only_ascii_capitals_are_lowered() {
    for code in 0u32..=0x10FFFF {
        if let Some(c) = char::from_u32(code) {
            assert_eq!(to_ascii_lower(c), c.to_ascii_lowercase(), "{c:?}");
        }
    }
    assert_eq!(to_ascii_lower('Q'), 'q');
    assert_eq!(to_ascii_lower('\u{c9}'), '\u{c9}');
}

#[test]
fn white_space_is_what_the_standard_library_calls_so() {
    for code in 0u32..=0x10FFFF {
        if let Some(c) = char::from_u32(code) {
            assert_eq!(is_whitespace(c), c.is_whitespace(), "{c:?}");
        }
    }
}

#[test]
fn bounds_leave_out_white_space_at_both_ends() {
    assert_eq!(trim_bounds(&chars_of("  a b \n")), (2, 5));
    assert_eq!(trim_bounds(&chars_of("ab")), (0, 2));
    let (lo, hi) = trim_bounds(&chars_of(" \t "));
    assert_eq!(lo, hi);
    let (lo, hi) = trim_bounds(&chars_of(""));
    assert_eq!((lo, hi), (0, 0));
}
