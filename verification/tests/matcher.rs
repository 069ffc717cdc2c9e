use image_resizer::matcher::{is_image_extension, is_image_file, ImageFileRef};

const NAMES: [&str; 7] = ["jpg", "jpeg", "png", "gif", "bmp", "tiff", "webp"];

#[test]
fn supported_extensions_in_lower_case() {
    for name in NAMES {
        assert!(is_image_extension(name), "{name}");
        assert!(is_image_file(&format!("dir/picture.{name}")), "{name}");
    }
}

#[test]
fn supported_extensions_in_upper_case() {
    for name in NAMES {
        let upper = name.to_ascii_uppercase();
        assert!(is_image_extension(&upper), "{upper}");
        assert!(is_image_file(&format!("picture.{upper}")), "{upper}");
    }
}

#[test]
fn supported_extensions_in_every_mix_of_cases() {
    for name in NAMES {
        let letters: Vec<char> = name.chars().collect();
        for mask in 0u32..(1u32 << letters.len()) {
            let mut mixed = String::new();
            for (i, c) in letters.iter().enumerate() {
                if mask & (1 << i) != 0 {
                    mixed.push(c.to_ascii_uppercase());
                } else {
                    mixed.push(*c);
                }
            }
            assert!(is_image_extension(&mixed), "{mixed}");
            assert!(is_image_file(&format!("a/b/c.{mixed}")), "{mixed}");
        }
    }
}

#[test]
fn other_extensions_are_not_images() {
    for name in ["txt", "jp", "jpgg", "pn", "svg", "ico", "tif", "jpe", "", "png ", " png", "p.ng"] {
        assert!(!is_image_extension(name), "{name:?}");
    }
    for path in ["notes.txt", "archive.tar.gz", "picture.png.bak", "picture.", "a.jpg/readme.md"] {
        assert!(!is_image_file(path), "{path}");
    }
}

#[test]
fn missing_extension_is_not_an_image() {
    for path in ["", "png", "dir/png", ".png", "dir/.jpg", "..", "dir.png/file", "/", "."] {
        assert!(!is_image_file(path), "{path:?}");
    }
}

#[test]
fn extension_is_that_of_the_final_component() {
    assert!(is_image_file("some.dir/photo.jpeg"));
    assert!(is_image_file("archive.tar.webp"));
    assert!(is_image_file("photo.PnG"));
    assert!(is_image_file("..png"));
    assert!(!is_image_file("photo.png/inner"));
}

#[test]
fn only_the_extension_decides() {
    assert!(!is_image_file("png.txt"));
    assert!(!is_image_file("photo.png.txt"));
    assert!(is_image_file("photo.txt.png"));
}

/// Every text that differs from a supported name in the letter at `index`
/// is matched as lower-casing by the standard library would match it. The
/// letter runs over the planes that hold letters with a case, and over a
/// few characters beyond them.
fn agrees_with_unicode_lower_casing_at(index: usize) {
    for name in NAMES {
        if index >= name.len() {
            continue;
        }
        for code in (0u32..0x30000).chain([0x30000, 0xE0041, 0xF0061, 0x10FFFF]) {
            if let Some(c) = char::from_u32(code) {
                let mut text = String::from(&name[..index]);
                text.push(c);
                text.push_str(&name[index + 1..]);
                let expected = NAMES.contains(&text.to_lowercase().as_str());
                assert_eq!(is_image_extension(&text), expected, "{text:?}");
            }
        }
    }
}

#[test]
fn matching_agrees_with_unicode_lower_casing_at_the_first_letter() {
    agrees_with_unicode_lower_casing_at(0);
}

#[test]
fn matching_agrees_with_unicode_lower_casing_at_the_second_letter() {
    agrees_with_unicode_lower_casing_at(1);
}

#[test]
fn matching_agrees_with_unicode_lower_casing_at_the_third_letter() {
    agrees_with_unicode_lower_casing_at(2);
}

#[test]
fn matching_agrees_with_unicode_lower_casing_at_the_fourth_letter() {
    agrees_with_unicode_lower_casing_at(3);
}

#[test]
fn characters_that_lower_case_to_several_do_not_match() {
    assert!(!is_image_extension("g\u{130}f"));
    assert!(!is_image_extension("G\u{130}F"));
    assert!(!is_image_extension("t\u{130}ff"));
}

#[test]
fn image_file_ref_holds_image_paths_only() {
    let file = ImageFileRef::new("shots/one.PNG").expect("an image path");
    assert_eq!(file.as_str(), "shots/one.PNG");
    assert!(ImageFileRef::new("shots/one.txt").is_none());
    assert!(ImageFileRef::new("shots/one").is_none());
    assert!(ImageFileRef::new("").is_none());
}
