use ps2::device::{DecodeState, Scancode};

fn decode(bytes: &[u8]) -> (DecodeState, Vec<Scancode>) {
    let mut state = DecodeState::Idle;
    let mut out = Vec::new();
    for &b in bytes {
        let (next, emitted) = state.step(b);
        state = next;
        if let Some(sc) = emitted {
            out.push(sc);
        }
    }
    (state, out)
}

#[test]
fn decode_plain_make() {
    assert_eq!(decode(&[0x1C]), (DecodeState::Idle, vec![Scancode::new(0x1C, false, true)]));
}

#[test]
fn decode_break_and_extended() {
    let (state, out) = decode(&[0x1C, 0xF0, 0x1C, 0xE0, 0x75, 0xE0, 0xF0, 0x75]);
    assert_eq!(state, DecodeState::Idle);
    assert_eq!(
        out,
        vec![
            Scancode::new(0x1C, false, true),
            Scancode::new(0x1C, false, false),
            Scancode::new(0x75, true, true),
            Scancode::new(0x75, true, false),
        ]
    );
}

#[test]
fn decode_prefix_order_does_not_matter() {
    assert_eq!(decode(&[0xF0, 0xE0, 0x75]).1, vec![Scancode::new(0x75, true, false)]);
    assert_eq!(decode(&[0xE1, 0x14]).1, vec![Scancode::new(0x14, true, true)]);
}

#[test]
fn decode_zero_is_dropped_and_resets() {
    let (state, out) = decode(&[0xE0, 0xF0, 0x00, 0x1C]);
    assert_eq!(state, DecodeState::Idle);
    assert_eq!(out, vec![Scancode::new(0x1C, false, true)]);
}

#[test]
fn decode_one_scancode_per_terminal_byte() {
    let bytes: Vec<u8> = (0u16..256).map(|b| b as u8).collect();
    let (state, out) = decode(&bytes);
    let terminals: Vec<u8> =
        bytes.iter().copied().filter(|&b| b != 0 && b != 0xE0 && b != 0xE1 && b != 0xF0).collect();
    assert_eq!(state, DecodeState::Idle);
    assert_eq!(out.iter().map(|s| s.code).collect::<Vec<_>>(), terminals);
}

#[test]
fn decode_pending_prefix_state() {
    assert_eq!(decode(&[0xE0]).0, DecodeState::Extended);
    assert_eq!(decode(&[0xF0]).0, DecodeState::Break);
    assert_eq!(decode(&[0xE0, 0xF0]).0, DecodeState::ExtendedBreak);
}
