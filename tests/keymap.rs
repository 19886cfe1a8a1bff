use ps2::device::Scancode;
use ps2::keyboard::UnknownScancode;
use ps2::keymap::{
    get_code_ps2_set_2, get_extended_code_ps2_set_2, get_us_qwerty_char, Keycode, A, ENTER, F9,
    LEFT_SHIFT, Q, SPACE, UP_ARROW,
};

#[test]
fn keycode_round_trip() {
    for row in 0u8..8 {
        for column in 0u8..32 {
            let k = Keycode::from_position(row, column);
            assert_eq!(k.row(), row);
            assert_eq!(k.column(), column);
        }
    }
}

#[test]
fn keycode_packing() {
    assert_eq!(Keycode::from_position(2, 1).value(), 0x41);
    assert_eq!(Keycode::from_position(3, 1).value(), A);
    assert_eq!(Keycode::from_position(4, 12).value(), UP_ARROW);
    assert_eq!(Keycode::from_position(0, 9).value(), F9);
}

#[test]
fn qwerty_case_pairs() {
    assert_eq!(get_us_qwerty_char(Keycode::from_value(Q)), Some(('q', 'Q')));
    assert_eq!(get_us_qwerty_char(Keycode::from_value(A)), Some(('a', 'A')));
    assert_eq!(get_us_qwerty_char(Keycode::from_position(1, 1)), Some(('1', '!')));
    assert_eq!(get_us_qwerty_char(Keycode::from_value(SPACE)), Some((' ', ' ')));
    assert_eq!(get_us_qwerty_char(Keycode::from_value(ENTER)), Some(('\n', '\n')));
}

#[test]
fn qwerty_shift_variants_differ() {
    for v in 0u16..256 {
        let k = Keycode::from_value(v as u8);
        if let Some((lower, upper)) = get_us_qwerty_char(k) {
            let same = lower == upper;
            let caseless = [SPACE, ENTER, Keycode::from_position(2, 0).value(), Keycode::from_position(1, 13).value()]
                .contains(&(v as u8));
            assert_eq!(same, caseless, "keycode {:#x}", v);
        }
    }
}

#[test]
fn qwerty_no_char_for_non_printable() {
    assert_eq!(get_us_qwerty_char(Keycode::from_value(UP_ARROW)), None);
    assert_eq!(get_us_qwerty_char(Keycode::from_value(LEFT_SHIFT)), None);
    assert_eq!(get_us_qwerty_char(Keycode::from_value(F9)), None);
}

#[test]
fn set2_plain_and_extended_tables() {
    assert_eq!(get_code_ps2_set_2(0x1C), Some(Keycode::from_value(A)));
    assert_eq!(get_code_ps2_set_2(0x15), Some(Keycode::from_value(Q)));
    assert_eq!(get_code_ps2_set_2(0x01), Some(Keycode::from_value(F9)));
    assert_eq!(get_code_ps2_set_2(0x00), None);
    assert_eq!(get_code_ps2_set_2(0x75), Some(Keycode::from_position(2, 18)));
    assert_eq!(get_extended_code_ps2_set_2(0x75), Some(Keycode::from_value(UP_ARROW)));
    assert_eq!(get_extended_code_ps2_set_2(0x1C), None);
}

#[test]
fn keycode_from_scancode() {
    assert_eq!(Keycode::try_from(Scancode::new(0x1C, false, true)), Ok(Keycode::from_value(A)));
    assert_eq!(Keycode::try_from(Scancode::new(0x75, true, true)), Ok(Keycode::from_value(UP_ARROW)));
    assert_eq!(
        Keycode::try_from(Scancode::new(0x02, false, true)),
        Err(UnknownScancode::UnknownPlainScancode(0x02))
    );
    assert_eq!(
        Keycode::try_from(Scancode::new(0x02, true, false)),
        Err(UnknownScancode::UnknownExtendedScancode(0x02))
    );
}

// Known gap: the keypad does not follow NumLock; its keys type no character in either state.
#[test]
fn numpad_keys_type_no_character() {
    assert_eq!(get_code_ps2_set_2(0x69), Some(Keycode::from_position(4, 13)));
    assert_eq!(get_us_qwerty_char(Keycode::from_position(4, 13)), None);
    assert_eq!(get_us_qwerty_char(Keycode::from_position(5, 11)), None);
}
