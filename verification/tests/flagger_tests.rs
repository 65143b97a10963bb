use std::str::FromStr;

use flagger::cli::{Fill, Invert, SetCmd, SubCommand};
use flagger::ops::{fill, invert};
use flagger::text::{format_output, parse_representation, Representation};

#[test]
fn it_fills_binary_numbers() {
    assert_eq!(fill(0), 0b0 as usize);
    assert_eq!(fill(1), 0b1 as usize);
    assert_eq!(fill(2), 0b11 as usize);
    assert_eq!(fill(3), 0b111 as usize);
    assert_eq!(fill(4), 0b1111 as usize);
}

#[test]
fn it_fills_binary_numbers_for_powers_of_two() {
    for i in 1..32 {
        let number: usize = 1 << i;
        assert_eq!(fill(i), number - 1);
    }
}

#[test]
fn it_sets_a_binary_digit() {
    assert_eq!(flagger::ops::set(0), 0);
    for i in 1..32 {
        assert_eq!(flagger::ops::set(i), 1 << (i - 1));
    }
}

#[test]
fn it_inverts_digits() {
    //it is 1-indexed
    assert_eq!(invert(0, 0), 0);
    assert_eq!(invert(0, 1), 0);

    assert_eq!(invert(1, 4), 0b1110);
    assert_eq!(invert(2, 4), 0b1101);
    assert_eq!(invert(3, 4), 0b1011);
    assert_eq!(invert(4, 4), 0b0111);
}

#[test]
fn it_demonstrates_that_inverting_and_setting_together_form_fill() {
    let width: usize = 32;
    for i in 1..width {
        let ored = invert(i, width) | flagger::ops::set(i);
        assert_eq!(ored, fill(width));
    }
}

#[test]
fn it_formats_output() {
    assert_eq!(format_output(1, Representation::Binary), "0b1");
    assert_eq!(format_output(2, Representation::Binary), "0b10");
    assert_eq!(format_output(3, Representation::Binary), "0b11");
    assert_eq!(format_output(4, Representation::Binary), "0b100");
    //same as decimal for 1 to 9
    for i in 1..9 {
        assert_eq!(format_output(i, Representation::Hex), format!("0x{}", i));
    }
}

#[test]
fn it_parses_representations_from_string() {
    assert_eq!(Representation::from_str("x"), Ok(Representation::Hex));
    assert_eq!(Representation::from_str("X"), Ok(Representation::HexUp));
    assert_eq!(Representation::from_str("b"), Ok(Representation::Binary));
}

#[test]
fn it_rejects_other_representation_tokens() {
    assert_eq!(parse_representation("y"), Err("no match"));
    assert_eq!(parse_representation("xb"), Err("no match"));
    assert_eq!(parse_representation(""), Err("no match"));
    assert_eq!(Representation::from_str("hex"), Err("no match"));
}

#[test]
fn it_formats_hexadecimal_in_both_cases() {
    assert_eq!(format_output(255, Representation::Hex), "0xff");
    assert_eq!(format_output(255, Representation::HexUp), "0xFF");
    assert_eq!(format_output(0, Representation::Hex), "0x0");
    assert_eq!(format_output(0, Representation::Binary), "0b0");
    assert_eq!(format_output(48879, Representation::Hex), "0xbeef");
    assert_eq!(format_output(48879, Representation::HexUp), "0xBEEF");
}

#[test]
fn it_builds_commentary_strings() {
    let f = Fill { count: 4, rep: Representation::Hex, comment: true };
    assert_eq!(f.commentary_string().unwrap(), "full bitmap of 4 bits");

    let quiet = Fill { count: 4, rep: Representation::Hex, comment: false };
    assert_eq!(quiet.commentary_string(), None);

    let s = SetCmd { count: 12, rep: Representation::Hex, comment: true };
    assert_eq!(s.commentary_string().unwrap(), "single bit set at index 12");

    let i = Invert { count: 3, width: 4, rep: Representation::Binary, comment: true };
    assert_eq!(
        i.commentary_string().unwrap(),
        "inverted bitmap at index 2 of width 4"
    );
}

#[test]
fn it_renders_whole_lines() {
    let fill_line = SubCommand::Fill(Fill { count: 4, rep: Representation::Hex, comment: false });
    assert_eq!(flagger::cli::render_line(&fill_line), "0xf");

    let set_line =
        SubCommand::SetCmd(SetCmd { count: 3, rep: Representation::Binary, comment: false });
    assert_eq!(flagger::cli::render_line(&set_line), "0b100");

    let invert_line = SubCommand::Invert(Invert {
        count: 3,
        width: 4,
        rep: Representation::Binary,
        comment: true,
    });
    assert_eq!(
        flagger::cli::render_line(&invert_line),
        "0b1011 #inverted bitmap at index 2 of width 4"
    );
}

#[test]
fn it_renders_large_masks() {
    assert_eq!(format_output(fill(32), Representation::Hex), "0xffffffff");
    assert_eq!(
        flagger::ops::set(64),
        0x8000_0000_0000_0000usize
    );
    assert_eq!(invert(1, 8), 0b1111_1110);
    assert_eq!(invert(1, 8) | flagger::ops::set(1), fill(8));
}
