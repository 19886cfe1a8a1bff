use ps2::command::{ControllerCommand, DeviceCommand};
use ps2::controller::{ConfigFlags, Controller, InitReport, Ps2Error, PORT_CLOCK_1, PORT_INTERRUPT_1, PORT_TRANSLATION_1};
use ps2::device::{DevicePort, DeviceState};
use ps2::io::{PortOp, ScriptedPorts, DATA_PORT, STATUS_COMMAND_PORT};

fn writes(io: &ScriptedPorts) -> Vec<(u16, u8)> {
    io.log()
        .iter()
        .filter_map(|op| match op {
            PortOp::Write { port, value } => Some((*port, *value)),
            PortOp::Read { .. } => None,
        })
        .collect()
}

#[test]
fn initialize_with_no_devices_reports_zero() {
    // Replies, one per write: disable ×2, read config, write config ×2, self-test, port tests ×2.
    let io = ScriptedPorts::new(vec![], vec![None, None, Some(0x47), None, None, Some(0x55), Some(0x01), Some(0x01)]);
    let mut c = Controller::new(io);
    assert_eq!(c.initialize(), Ok(InitReport { devices: 0, self_test_passed: true }));
    assert_eq!(c.device(DevicePort::One), None);
    assert_eq!(c.device(DevicePort::Two), None);
    assert!(c.keyboard().is_none());
    assert!(c.mouse().is_none());
    assert_eq!(
        writes(c.io()),
        vec![
            (STATUS_COMMAND_PORT, 0xAD),
            (STATUS_COMMAND_PORT, 0xA7),
            (STATUS_COMMAND_PORT, 0x20),
            (STATUS_COMMAND_PORT, 0x60),
            (DATA_PORT, 0x04),
            (STATUS_COMMAND_PORT, 0xAA),
            (STATUS_COMMAND_PORT, 0xAB),
            (STATUS_COMMAND_PORT, 0xA9),
        ]
    );
}

#[test]
fn initialize_with_both_devices() {
    let io = ScriptedPorts::new(
        vec![0xAA],
        vec![None, None, Some(0x65), None, None, Some(0x55), Some(0x00), Some(0x00), Some(0xFA), None, Some(0xFA)],
    );
    let mut c = Controller::new(io);
    assert_eq!(c.initialize(), Ok(InitReport { devices: 2, self_test_passed: true }));
    assert_eq!(c.device(DevicePort::One), Some(DeviceState::Available));
    assert_eq!(c.device(DevicePort::Two), Some(DeviceState::Available));
    let w = writes(c.io());
    assert_eq!(w[0], (STATUS_COMMAND_PORT, 0xAD));
    assert_eq!(w[4], (DATA_PORT, 0x24));
    assert_eq!(&w[w.len() - 3..], &[(DATA_PORT, 0xFF), (STATUS_COMMAND_PORT, 0xD4), (DATA_PORT, 0xFF)]);
    assert_eq!(c.io().remaining(), 0);
}

#[test]
fn initialize_tolerates_failed_self_test() {
    let io = ScriptedPorts::new(vec![], vec![None, None, Some(0x00), None, None, Some(0xFC), Some(0x00), Some(0x01), Some(0xFA)]);
    let mut c = Controller::new(io);
    assert_eq!(c.initialize(), Ok(InitReport { devices: 1, self_test_passed: false }));
    assert_eq!(c.device(DevicePort::One), Some(DeviceState::Available));
    assert!(c.mouse().is_none());
}

#[test]
fn initialize_stops_on_failed_reset() {
    let io = ScriptedPorts::new(vec![], vec![None, None, Some(0x00), None, None, Some(0x55), Some(0x00), Some(0x01), Some(0x34)]);
    let mut c = Controller::new(io);
    assert_eq!(c.initialize(), Err(Ps2Error::UnexpectedResponse(0x34)));
}

#[test]
fn initialize_without_controller_reply() {
    let mut c = Controller::new(ScriptedPorts::new(vec![], vec![]));
    assert_eq!(c.initialize(), Err(Ps2Error::ExpectedResponse));
}

#[test]
fn config_round_trip() {
    let io = ScriptedPorts::new(vec![], vec![Some(0xFF)]);
    let mut c = Controller::new(io);
    let mut config = c.config().unwrap();
    assert_eq!(config.bits(), 0xFF);
    assert!(config.contains(PORT_INTERRUPT_1 | PORT_CLOCK_1));
    config.set(PORT_TRANSLATION_1, false);
    assert!(!config.contains(PORT_TRANSLATION_1));
    c.set_config(config);
    assert_eq!(writes(c.io())[1..].to_vec(), vec![(STATUS_COMMAND_PORT, 0x60), (DATA_PORT, 0xBF)]);
    assert_eq!(ConfigFlags::from_bits_truncate(0x84).bits(), 0);
    assert_eq!(ConfigFlags::empty().bits(), 0);
}

#[test]
fn mutable_device_access() {
    let io = ScriptedPorts::new(vec![], vec![None, None, Some(0x00), None, None, Some(0x55), Some(0x00), Some(0x00), Some(0xFA), None, Some(0xFA)]);
    let mut c = Controller::new(io);
    assert_eq!(c.initialize().map(|r| r.devices), Ok(2));
    assert!(c.keyboard_mut().is_some());
    assert!(c.mouse_mut().is_some());
}

#[test]
fn initialize_keeps_other_config_bits() {
    let io = ScriptedPorts::new(vec![], vec![None, None, Some(0xC7), None, None, Some(0x55), Some(0x01), Some(0x01)]);
    let mut c = Controller::new(io);
    assert!(c.initialize().is_ok());
    assert_eq!(writes(c.io())[4], (DATA_PORT, 0x84));
}

#[test]
fn config_reads_whole_byte() {
    let mut c = Controller::new(ScriptedPorts::new(vec![], vec![Some(0x04)]));
    assert_eq!(c.config().map(|f| f.bits()), Ok(0x04));
}

#[test]
fn command_bytes() {
    assert_eq!(ControllerCommand::WriteInputPort2.byte(), 0xD4);
    assert_eq!(DeviceCommand::Reset.byte(), 0xFF);
}
