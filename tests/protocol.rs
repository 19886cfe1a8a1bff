use ps2::controller::Ps2Error;
use ps2::device::{command, command_data, command_ret, Device, DevicePort, DeviceState, DeviceType, Keyboard, Mouse, Scancode, UnknownDevice};
use ps2::io::{PortOp, Ports, ScriptedPorts, DATA_PORT, STATUS_COMMAND_PORT};

fn ports(input: Vec<u8>, responses: Vec<Option<u8>>) -> Ports<ScriptedPorts> {
    Ports::new(ScriptedPorts::new(input, responses))
}

fn writes(io: &ScriptedPorts) -> Vec<(u16, u8)> {
    io.log()
        .iter()
        .filter_map(|op| match op {
            PortOp::Write { port, value } => Some((*port, *value)),
            PortOp::Read { .. } => None,
        })
        .collect()
}

fn enabled_keyboard() -> Keyboard {
    let mut k = Keyboard::new(DevicePort::One);
    k.set_state(DeviceState::Enabled);
    k
}

#[test]
fn resend_three_times_then_ack_succeeds() {
    let mut io = ports(vec![], vec![Some(0xFE), Some(0xFE), Some(0xFE), Some(0xFA)]);
    assert_eq!(command(&enabled_keyboard(), &mut io, 0xF4), Ok(()));
    assert_eq!(writes(io.inner()), vec![(DATA_PORT, 0xF4); 4]);
}

#[test]
fn resend_every_try_exceeds_retries() {
    let mut io = ports(vec![], vec![Some(0xFE); 8]);
    assert_eq!(command(&enabled_keyboard(), &mut io, 0xF4), Err(Ps2Error::RetriesExceeded));
    assert_eq!(writes(io.inner()).len(), 4);
}

#[test]
fn unexpected_reply_is_reported() {
    let mut io = ports(vec![], vec![Some(0x12)]);
    assert_eq!(command(&enabled_keyboard(), &mut io, 0xF4), Err(Ps2Error::UnexpectedResponse(0x12)));
}

#[test]
fn missing_reply_is_reported() {
    let mut io = ports(vec![], vec![]);
    assert_eq!(command(&enabled_keyboard(), &mut io, 0xF4), Err(Ps2Error::ExpectedResponse));
}

#[test]
fn command_needs_enabled_device() {
    let mut io = ports(vec![], vec![Some(0xFA)]);
    let mut k = Keyboard::new(DevicePort::One);
    assert_eq!(command(&k, &mut io, 0xF4), Err(Ps2Error::DeviceUnavailable));
    k.set_state(DeviceState::Available);
    assert_eq!(command(&k, &mut io, 0xF4), Err(Ps2Error::DeviceDisabled));
    assert!(io.inner().log().is_empty());
}

#[test]
fn second_port_is_routed_before_every_try() {
    let mut m = Mouse::new(DevicePort::Two);
    m.set_state(DeviceState::Enabled);
    let mut io = ports(vec![], vec![None, Some(0xFE), None, Some(0xFA)]);
    assert_eq!(command(&m, &mut io, 0xF6), Ok(()));
    assert_eq!(
        writes(io.inner()),
        vec![(STATUS_COMMAND_PORT, 0xD4), (DATA_PORT, 0xF6), (STATUS_COMMAND_PORT, 0xD4), (DATA_PORT, 0xF6)]
    );
}

#[test]
fn command_with_data_sends_both() {
    let mut io = ports(vec![], vec![Some(0xFA), Some(0xFE), Some(0xFA)]);
    assert_eq!(command_data(&enabled_keyboard(), &mut io, 0xF0, 2), Ok(()));
    assert_eq!(writes(io.inner()), vec![(DATA_PORT, 0xF0), (DATA_PORT, 2), (DATA_PORT, 2)]);
}

#[test]
fn command_with_data_stops_after_failed_command() {
    let mut io = ports(vec![], vec![Some(0xFE); 4]);
    assert_eq!(command_data(&enabled_keyboard(), &mut io, 0xF0, 2), Err(Ps2Error::RetriesExceeded));
    assert_eq!(writes(io.inner()), vec![(DATA_PORT, 0xF0); 4]);
}

#[test]
fn command_with_return_gives_reply() {
    let mut io = ports(vec![], vec![Some(0xFE), Some(0xEE)]);
    assert_eq!(command_ret(&enabled_keyboard(), &mut io, 0xEE), Ok(0xEE));
}

#[test]
fn identify_maps_identifier() {
    let mut io = ports(vec![], vec![Some(0xFA), None]);
    let k = enabled_keyboard();
    let mut io2 = ports(vec![0xFA, 0xAB], vec![]);
    assert_eq!(k.identify(&mut io2), Ok(Ok(DeviceType::Mf2Keyboard)));
    assert_eq!(k.identify(&mut io), Err(Ps2Error::ExpectedResponse));
    let mut io4 = ports(vec![0xFA, 0xAB, 0x41], vec![]);
    assert_eq!(k.identify(&mut io4), Ok(Ok(DeviceType::TranslatedMf2Keyboard)));
    let mut io3 = ports(vec![0xFA, 0x77], vec![]);
    assert_eq!(k.identify(&mut io3), Ok(Err(UnknownDevice { identifier: 0x77 })));
}

#[test]
fn device_type_table() {
    assert_eq!(DeviceType::try_from(0x00), Ok(DeviceType::Mouse));
    assert_eq!(DeviceType::try_from(0x03), Ok(DeviceType::MouseWithScrollWheel));
    assert_eq!(DeviceType::try_from(0x04), Ok(DeviceType::FiveButtonMouse));
    assert_eq!(DeviceType::try_from(0x83), Ok(DeviceType::Mf2Keyboard));
    assert_eq!(DeviceType::try_from(0xC1), Ok(DeviceType::TranslatedMf2Keyboard));
    assert_eq!(DeviceType::try_from(0x05), Err(UnknownDevice { identifier: 0x05 }));
}

#[test]
fn enable_disable_lifecycle() {
    let mut io = ports(vec![], vec![]);
    let mut k = Keyboard::new(DevicePort::One);
    assert_eq!(k.enable(&mut io), Err(Ps2Error::DeviceUnavailable));
    assert!(io.inner().log().is_empty());
    k.set_state(DeviceState::Available);
    assert_eq!(k.enable(&mut io), Ok(()));
    assert_eq!(k.state(), DeviceState::Enabled);
    k.disable(&mut io);
    assert_eq!(k.state(), DeviceState::Available);
    k.disable(&mut io);
    assert_eq!(k.state(), DeviceState::Available);
    assert_eq!(
        writes(io.inner()),
        vec![(STATUS_COMMAND_PORT, 0xAE), (STATUS_COMMAND_PORT, 0xAD), (STATUS_COMMAND_PORT, 0xAD)]
    );
}

#[test]
fn port_test_detects_device() {
    let mut io = ports(vec![], vec![Some(0x00), Some(0x02)]);
    let mut m = Mouse::new(DevicePort::Two);
    assert_eq!(m.test(&mut io), Ok(true));
    assert_eq!(m.state(), DeviceState::Available);
    assert_eq!(m.test(&mut io), Ok(false));
    assert_eq!(m.state(), DeviceState::Unavailable);
    assert_eq!(writes(io.inner()), vec![(STATUS_COMMAND_PORT, 0xA9), (STATUS_COMMAND_PORT, 0xA9)]);
}

#[test]
fn reset_allowed_when_available() {
    let mut io = ports(vec![], vec![Some(0xFA)]);
    let mut k = Keyboard::new(DevicePort::One);
    assert_eq!(k.reset(&mut io), Err(Ps2Error::DeviceUnavailable));
    k.set_state(DeviceState::Available);
    assert_eq!(k.reset(&mut io), Ok(()));
    assert_eq!(writes(io.inner()), vec![(DATA_PORT, 0xFF)]);
}

#[test]
fn long_prefix_run_is_kept_for_next_call() {
    let mut input = vec![0xE0u8; 8];
    input.push(0x75);
    let mut io = ports(input, vec![]);
    let mut k = Keyboard::new(DevicePort::One);
    assert_eq!(k.read_scancode(&mut io), Ok(None));
    assert_eq!(k.read_scancode(&mut io), Ok(Some(Scancode::new(0x75, true, true))));
    assert_eq!(k.read_scancode(&mut io), Ok(None));
}
