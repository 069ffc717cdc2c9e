use image_resizer::gate::{confirms, prompt, GateStep, OverwriteGate};

#[test]
fn forced_gate_never_asks() {
    let gate = OverwriteGate::new(true);
    for exists in [false, true] {
        assert_eq!(gate.step(exists), GateStep::Write);
        assert!(gate.may_write(exists, None));
        assert!(gate.may_write(exists, Some("n")));
    }
}

#[test]
fn absent_output_is_written_without_asking() {
    let gate = OverwriteGate::new(false);
    assert_eq!(gate.step(false), GateStep::Write);
    assert!(gate.may_write(false, None));
}

#[test]
fn existing_output_needs_an_answer() {
    let gate = OverwriteGate::new(false);
    assert_eq!(gate.step(true), GateStep::Ask);
    assert!(!gate.may_write(true, None));
    assert!(gate.may_write(true, Some("y\n")));
    assert!(gate.may_write(true, Some("Y")));
    assert!(!gate.may_write(true, Some("n\n")));
    assert!(!gate.may_write(true, Some("\n")));
}

#[test]
fn only_a_lone_y_confirms() {
    for answer in ["y", "Y", " y", "y ", "\ty\r\n", "  Y  \n", "\u{a0}y\u{3000}"] {
        assert!(confirms(answer), "{answer:?}");
    }
    for answer in ["", "\n", "n", "N", "yes", "yy", "y y", "ye", "no", "1", "ý", "y\u{200b}", "y.", "-y"] {
        assert!(!confirms(answer), "{answer:?}");
    }
}

#[test]
fn trimming_agrees_with_the_standard_library() {
    for code in 0u32..=0x10FFFF {
        if let Some(c) = char::from_u32(code) {
            for answer in [format!("{c}y"), format!("y{c}"), format!("{c}")] {
                let expected = answer.trim().eq_ignore_ascii_case("y");
                assert_eq!(confirms(&answer), expected, "{answer:?}");
            }
        }
    }
}

#[test]
fn prompt_names_the_path() {
    assert_eq!(
        prompt("out/a.png"),
        "Output file out/a.png already exists. Overwrite? [y/N]"
    );
    assert_eq!(prompt(""), "Output file  already exists. Overwrite? [y/N]");
}
