use image_resizer::resize_spec::{ParseError, ResizeSpec, ResizeTarget};

/// Source dimensions scaled by a percentage, in single precision, rounded
/// half away from zero.
fn scaled(number: &str, width: u32, height: u32) -> Option<(u32, u32)> {
    let percent = number.parse::<f32>().ok()? / 100.0;
    Some(((width as f32 * percent).round() as u32, (height as f32 * percent).round() as u32))
}

/// A specification applied to a source of `width` by `height`.
fn parse(text: &str, width: u32, height: u32) -> Result<(u32, u32), ParseError> {
    let spec = ResizeSpec::parse(text)?;
    let dimensions = match &spec {
        ResizeSpec::Percent(number) => scaled(number, width, height),
        ResizeSpec::Exact(_, _) => None,
    };
    let target = spec.target(dimensions)?;
    Ok((target.width(), target.height()))
}

#[test]
fn fifty_percent_halves_both_dimensions() {
    assert_eq!(ResizeSpec::parse("50%"), Ok(ResizeSpec::Percent(String::from("50"))));
    assert_eq!(parse("50%", 200, 100), Ok((100, 50)));
}

#[test]
fn thirty_three_percent_rounds_to_nearest() {
    assert_eq!(parse("33%", 10, 10), Ok((3, 3)));
}

#[test]
fn percentage_rounds_half_away_from_zero() {
    assert_eq!(parse("50%", 3, 5), Ok((2, 3)));
    assert_eq!(parse("25%", 10, 6), Ok((3, 2)));
}

#[test]
fn percentage_may_enlarge() {
    assert_eq!(parse("150%", 200, 100), Ok((300, 150)));
    assert_eq!(parse("12.5%", 80, 16), Ok((10, 2)));
}

#[test]
fn exact_dimensions_stand_whatever_the_source() {
    assert_eq!(ResizeSpec::parse("300x150"), Ok(ResizeSpec::Exact(300, 150)));
    for (width, height) in [(1, 1), (200, 100), (0, 0), (u32::MAX, 7), (300, 150)] {
        assert_eq!(parse("300x150", width, height), Ok((300, 150)));
    }
}

#[test]
fn exact_dimensions_ignore_what_was_scaled() {
    let spec = ResizeSpec::parse("8x9").unwrap();
    assert_eq!(spec.target(Some((1, 1))).map(|t| (t.width(), t.height())), Ok((8, 9)));
    assert_eq!(spec.target(None).map(|t| (t.width(), t.height())), Ok((8, 9)));
}

#[test]
fn width_that_is_no_number_is_rejected() {
    assert_eq!(ResizeSpec::parse("abcx100"), Err(ParseError::InvalidWidth));
    assert_eq!(parse("abcx100", 200, 100), Err(ParseError::InvalidWidth));
}

#[test]
fn height_that_is_no_number_is_rejected() {
    assert_eq!(ResizeSpec::parse("100xabc"), Err(ParseError::InvalidHeight));
    assert_eq!(ResizeSpec::parse("100x1.5"), Err(ParseError::InvalidHeight));
}

#[test]
fn width_is_looked_at_before_height() {
    assert_eq!(ResizeSpec::parse("axb"), Err(ParseError::InvalidWidth));
}

#[test]
fn three_components_are_rejected() {
    assert_eq!(ResizeSpec::parse("100x100x100"), Err(ParseError::BadFormat));
    assert_eq!(parse("100x100x100", 200, 100), Err(ParseError::BadFormat));
}

#[test]
fn text_without_separator_is_rejected() {
    for text in ["", "100", "100X100", "100*100", "100 100", "abc"] {
        assert_eq!(ResizeSpec::parse(text), Err(ParseError::BadFormat), "{text:?}");
    }
}

#[test]
fn empty_components_are_rejected() {
    for text in ["x", "x100", "100x", "xx"] {
        assert_eq!(ResizeSpec::parse(text), Err(ParseError::BadFormat), "{text:?}");
    }
}

#[test]
fn zero_percent_is_rejected() {
    assert_eq!(parse("0%", 200, 100), Err(ParseError::InvalidDimensions));
}

#[test]
fn negative_percent_is_rejected() {
    assert_eq!(parse("-50%", 200, 100), Err(ParseError::InvalidDimensions));
}

#[test]
fn percentage_too_small_for_a_pixel_is_rejected() {
    assert_eq!(parse("1%", 10, 10), Err(ParseError::InvalidDimensions));
    assert_eq!(parse("10%", 100, 4), Err(ParseError::InvalidDimensions));
}

#[test]
fn percentage_that_is_no_number_is_rejected() {
    for text in ["%", "%%", "50%%", "5%0%", "abc%", "5 0%", "50%x%", "x%", "10x10%"] {
        assert_eq!(parse(text, 200, 100), Err(ParseError::InvalidPercentage), "{text:?}");
    }
}

#[test]
fn only_the_final_percent_sign_is_stripped() {
    assert_eq!(ResizeSpec::parse("50%%"), Ok(ResizeSpec::Percent(String::from("50%"))));
    assert_eq!(ResizeSpec::parse("5%0%%%"), Ok(ResizeSpec::Percent(String::from("5%0%%"))));
    assert_eq!(ResizeSpec::parse("%"), Ok(ResizeSpec::Percent(String::new())));
    assert_eq!(parse("50%%", 200, 100), Err(ParseError::InvalidPercentage));
}

#[test]
fn zero_dimensions_are_rejected() {
    assert_eq!(parse("0x10", 200, 100), Err(ParseError::InvalidDimensions));
    assert_eq!(parse("10x0", 200, 100), Err(ParseError::InvalidDimensions));
    assert_eq!(parse("0x0", 200, 100), Err(ParseError::InvalidDimensions));
    assert_eq!(ResizeSpec::parse("0x10"), Ok(ResizeSpec::Exact(0, 10)));
}

#[test]
fn integers_are_read_as_the_standard_library_reads_them() {
    let samples = [
        "0", "1", "7", "10", "007", "+5", "+0", "++5", "+", "-", "-5", "- 5", "5+", " 5", "5 ", "5_000",
        "4294967295", "4294967296", "04294967295", "42949672950", "99999999999999999999", "1e3",
        "0x10", "١٢٣", "12a", "a12", "1.0", "",
    ];
    for sample in samples {
        if sample.contains('x') || sample.is_empty() {
            continue;
        }
        let expected = sample.parse::<u32>().ok();
        let as_width = ResizeSpec::parse(&format!("{sample}x1"));
        let as_height = ResizeSpec::parse(&format!("1x{sample}"));
        match expected {
            Some(value) => {
                assert_eq!(as_width, Ok(ResizeSpec::Exact(value, 1)), "{sample:?}");
                assert_eq!(as_height, Ok(ResizeSpec::Exact(1, value)), "{sample:?}");
            }
            None => {
                assert_eq!(as_width, Err(ParseError::InvalidWidth), "{sample:?}");
                assert_eq!(as_height, Err(ParseError::InvalidHeight), "{sample:?}");
            }
        }
    }
}

#[test]
fn every_small_integer_is_read_back() {
    for value in (0u32..20_000).chain(u32::MAX - 20_000..=u32::MAX) {
        let text = format!("{value}x{value}");
        assert_eq!(ResizeSpec::parse(&text), Ok(ResizeSpec::Exact(value, value)));
    }
}

#[test]
fn target_is_positive() {
    let target = ResizeTarget::new(640, 480).unwrap();
    assert_eq!((target.width(), target.height()), (640, 480));
    assert_eq!(ResizeTarget::new(1, 1).map(|t| (t.width(), t.height())), Ok((1, 1)));
    assert_eq!(ResizeTarget::new(0, 480), Err(ParseError::InvalidDimensions));
    assert_eq!(ResizeTarget::new(640, 0), Err(ParseError::InvalidDimensions));
}

#[test]
fn parse_error_messages() {
    assert_eq!(ParseError::InvalidPercentage.message(), "invalid percentage");
    assert_eq!(ParseError::BadFormat.message(), "bad format");
    assert_eq!(ParseError::InvalidWidth.message(), "invalid width");
    assert_eq!(ParseError::InvalidHeight.message(), "invalid height");
    assert_eq!(ParseError::InvalidDimensions.message(), "invalid dimensions");
}
