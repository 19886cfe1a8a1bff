use ps2::controller::{Controller, Ps2Error};
use ps2::device::{DevicePort, DeviceState, Scancode};
use ps2::io::ScriptedPorts;
use ps2::keyboard::{
    KeyEventType, Keyboard as KeyboardDriver, ModifierFlags, Ps2Keyboard, Ps2KeyboardError, ALT, CTRL, SHIFT,
};
use ps2::keymap::{Keycode, A, LEFT_SHIFT, UP_ARROW};

fn controller(input: Vec<u8>) -> Controller<ScriptedPorts> {
    Controller::new(ScriptedPorts::new(input, vec![]))
}

#[test]
fn make_a() {
    let mut c = controller(vec![0x1C]);
    let mut kb = Ps2Keyboard::new();
    let e = kb.read_event(&mut c).unwrap().unwrap();
    assert_eq!(e.keycode, Keycode::from_value(A));
    assert_eq!(e.char, Some('a'));
    assert_eq!(e.event_type, KeyEventType::Make);
    assert!(kb.pressed(Keycode::from_value(A)));
    assert_eq!(kb.read_event(&mut c), Ok(None));
}

#[test]
fn make_then_break_a() {
    let mut c = controller(vec![0x1C, 0xF0, 0x1C]);
    let mut kb = Ps2Keyboard::new();
    assert_eq!(kb.read_event(&mut c).unwrap().unwrap().event_type, KeyEventType::Make);
    let e = kb.read_event(&mut c).unwrap().unwrap();
    assert_eq!(e.keycode, Keycode::from_value(A));
    assert_eq!(e.event_type, KeyEventType::Break);
    assert!(!kb.pressed(Keycode::from_value(A)));
}

#[test]
fn shifted_a() {
    let mut c = controller(vec![0x12, 0x1C]);
    let mut kb = Ps2Keyboard::new();
    let shift = kb.read_event(&mut c).unwrap().unwrap();
    assert_eq!(shift.keycode, Keycode::from_value(LEFT_SHIFT));
    assert_eq!(shift.char, None);
    assert!(!shift.modifiers.contains(SHIFT));
    let e = kb.read_event(&mut c).unwrap().unwrap();
    assert_eq!(e.char, Some('A'));
    assert!(e.modifiers.contains(SHIFT));
    assert!(!e.modifiers.contains(CTRL));
}

#[test]
fn extended_up_arrow() {
    let mut c = controller(vec![0xE0, 0x75]);
    let mut kb = Ps2Keyboard::new();
    let e = kb.read_event(&mut c).unwrap().unwrap();
    assert_eq!(e.keycode, Keycode::from_value(UP_ARROW));
    assert_eq!(e.char, None);
    assert_eq!(e.event_type, KeyEventType::Make);
}

#[test]
fn repeated_make_is_repeat() {
    let mut c = controller(vec![0x1C, 0x1C]);
    let mut kb = Ps2Keyboard::new();
    assert_eq!(kb.read_event(&mut c).unwrap().unwrap().event_type, KeyEventType::Make);
    assert_eq!(kb.read_event(&mut c).unwrap().unwrap().event_type, KeyEventType::Repeat);
}

#[test]
fn unknown_scancode_gives_no_event() {
    let mut c = controller(vec![0x02, 0x1C]);
    let mut kb = Ps2Keyboard::new();
    assert_eq!(kb.read_event(&mut c), Ok(None));
    assert_eq!(kb.read_event(&mut c).unwrap().unwrap().char, Some('a'));
}

#[test]
fn incomplete_scancode_is_expected_response() {
    let mut c = controller(vec![0xE0]);
    let mut kb = Ps2Keyboard::new();
    assert_eq!(kb.read_event(&mut c), Err(Ps2KeyboardError::Ps2Error(Ps2Error::ExpectedResponse)));
}

#[test]
fn modifier_flags() {
    let m = ModifierFlags::from_modifiers(true, true, true);
    assert_eq!(m.bits(), CTRL | ALT | SHIFT);
    assert!(ModifierFlags::from_modifiers(false, true, false).contains(ALT));
    assert_eq!(ModifierFlags::empty().bits(), 0);
}

#[test]
fn process_scancode_updates_held_keys() {
    let mut kb = Ps2Keyboard::new();
    let e = kb.process_scancode(&Scancode::new(0x14, true, true)).unwrap();
    assert_eq!(e.event_type, KeyEventType::Make);
    let a = kb.create_event(&Scancode::new(0x1C, false, true)).unwrap();
    assert!(a.modifiers.contains(CTRL));
    assert_eq!(kb.process_scancode(&Scancode::new(0x02, false, true)), None);
}

#[test]
fn keyboard_enable_and_disable() {
    let mut kb = Ps2Keyboard::new();
    let mut absent = controller(vec![]);
    assert_eq!(kb.enable(&mut absent), Err(Ps2KeyboardError::Ps2Error(Ps2Error::DeviceUnavailable)));
    // Initialisation finds the keyboard only; then enable, scan set 2 and enable scanning.
    let io = ScriptedPorts::new(
        vec![],
        vec![
            None, None, Some(0x00), None, None, Some(0x55), Some(0x00), Some(0x01), Some(0xFA),
            None, Some(0xFA), Some(0xFA), Some(0xFA),
        ],
    );
    let mut c = Controller::new(io);
    assert_eq!(c.initialize().map(|r| r.devices), Ok(1));
    assert_eq!(kb.enable(&mut c), Ok(()));
    assert_eq!(c.device(DevicePort::One), Some(DeviceState::Enabled));
    assert_eq!(kb.disable(&mut c), Ok(()));
    assert_eq!(c.device(DevicePort::One), Some(DeviceState::Available));
}

#[test]
fn keyboard_error_mapping() {
    assert_eq!(Ps2KeyboardError::from(Ps2Error::DeviceDisabled), Ps2KeyboardError::KeyboardNotEnabled);
    assert_eq!(Ps2KeyboardError::from(Ps2Error::RetriesExceeded), Ps2KeyboardError::Ps2Error(Ps2Error::RetriesExceeded));
}
