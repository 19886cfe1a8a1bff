//! PS/2 devices: their lifecycle, the command/ACK/RESEND protocol, and the scancode decoder of
//! the keyboard.

use vstd::prelude::*;
use crate::command::{ControllerCommand, ControllerReturnCommand, DeviceCommand, SET_GET_SCANCODE};
use crate::controller::Ps2Error;
use crate::io::{
    self, PortIo, PortOp, Ports, Transfer, transfers, received, output_full, output_from_port_2,
    op_value, status_at, ends_idle,
    lemma_received_push, ACK, DATA_PORT, RESEND, RETRIES, STATUS_COMMAND_PORT,
};

verus! {

/// The lifecycle of the device on one port.
#[derive(PartialEq, Eq, Structural, Clone, Copy, Debug)]
pub enum DeviceState {
    /// No device answered on the port.
    Unavailable,
    /// The device passed its port test but is not enabled.
    Available,
    /// The device has been enabled.
    Enabled,
}

/// The type of a device, as reported by the identify command.
#[derive(PartialEq, Eq, Structural, Clone, Copy, Debug)]
pub enum DeviceType {
    TranslatedAtKeyboard,
    Mouse,
    MouseWithScrollWheel,
    FiveButtonMouse,
    Mf2Keyboard,
    TranslatedMf2Keyboard,
}

/// An identify reply that names no known device type.
#[derive(PartialEq, Eq, Structural, Clone, Copy, Debug)]
pub struct UnknownDevice {
    pub identifier: u8,
}

pub open spec fn device_type_of(value: u8) -> Result<DeviceType, UnknownDevice> {
    if value == 0x00 {
        Ok(DeviceType::Mouse)
    } else if value == 0x03 {
        Ok(DeviceType::MouseWithScrollWheel)
    } else if value == 0x04 {
        Ok(DeviceType::FiveButtonMouse)
    } else if value == 0xAB || value == 0x83 {
        Ok(DeviceType::Mf2Keyboard)
    } else if value == 0x41 || value == 0xC1 {
        Ok(DeviceType::TranslatedMf2Keyboard)
    } else {
        Err(UnknownDevice { identifier: value })
    }
}

impl DeviceType {
    /// The device type for an identify reply. 0xAB, which some translated MF2 keyboards also
    /// send, is read as an MF2 keyboard.
    pub fn try_from(value: u8) -> (r: Result<DeviceType, UnknownDevice>)
        ensures
            r == device_type_of(value),
    {
        match value {
            0x00 => Ok(DeviceType::Mouse),
            0x03 => Ok(DeviceType::MouseWithScrollWheel),
            0x04 => Ok(DeviceType::FiveButtonMouse),
            0xAB | 0x83 => Ok(DeviceType::Mf2Keyboard),
            0x41 | 0xC1 => Ok(DeviceType::TranslatedMf2Keyboard),
            identifier => Err(UnknownDevice { identifier }),
        }
    }
}

/// One of the two physical PS/2 channels.
#[derive(PartialEq, Eq, Structural, Clone, Copy, Debug)]
pub enum DevicePort {
    One,
    Two,
}

/// The transfers that route the next data byte to `port`: the second port needs a controller
/// command before every byte.
pub open spec fn route(port: DevicePort) -> Seq<Transfer> {
    if port == DevicePort::Two {
        seq![Transfer::Sent { port: STATUS_COMMAND_PORT, value: 0xD4 }]
    } else {
        seq![]
    }
}

pub open spec fn reply_transfers(reply: Option<u8>) -> Seq<Transfer> {
    match reply {
        Some(value) => seq![Transfer::Received { value }],
        None => seq![],
    }
}

/// One try: `byte` is sent to the device on `port`, then `reply` is read (or nothing came).
pub open spec fn attempt(port: DevicePort, byte: u8, reply: Option<u8>) -> Seq<Transfer> {
    route(port).push(Transfer::Sent { port: DATA_PORT, value: byte }) + reply_transfers(reply)
}

/// The tries of `byte`, one for each reply.
pub open spec fn attempts(port: DevicePort, byte: u8, replies: Seq<Option<u8>>) -> Seq<Transfer>
    decreases replies.len(),
{
    if replies.len() == 0 {
        seq![]
    } else {
        attempts(port, byte, replies.drop_last()) + attempt(port, byte, replies.last())
    }
}

/// The replies of a retried send: one to `RETRIES` tries, each but the last answered by RESEND,
/// and the last answered by RESEND only when no try is left.
pub open spec fn retry_run(replies: Seq<Option<u8>>) -> bool {
    &&& 0 < replies.len() <= RETRIES
    &&& forall|i: int| 0 <= i < replies.len() - 1 ==> replies[i] == Some(RESEND)
    &&& replies.last() == Some(RESEND) ==> replies.len() == RETRIES
}

/// The outcome of a retried send that expects ACK.
pub open spec fn ack_outcome(replies: Seq<Option<u8>>) -> Result<(), Ps2Error> {
    match replies.last() {
        Some(b) => if b == RESEND {
            Err(Ps2Error::RetriesExceeded)
        } else if b == ACK {
            Ok(())
        } else {
            Err(Ps2Error::UnexpectedResponse(b))
        },
        None => Err(Ps2Error::ExpectedResponse),
    }
}

/// The outcome of a retried send whose reply is returned as it came.
pub open spec fn reply_outcome(replies: Seq<Option<u8>>) -> Result<u8, Ps2Error> {
    match replies.last() {
        Some(b) => if b == RESEND {
            Err(Ps2Error::RetriesExceeded)
        } else {
            Ok(b)
        },
        None => Err(Ps2Error::ExpectedResponse),
    }
}

/// `after` is `before` followed by a retried send of `byte` that got `replies`.
pub open spec fn exchanged(
    before: Seq<Transfer>,
    after: Seq<Transfer>,
    port: DevicePort,
    byte: u8,
    replies: Seq<Option<u8>>,
) -> bool {
    retry_run(replies) && after == before + attempts(port, byte, replies)
}

/// The outcome of a command with a data byte: the command's replies, then the data's.
pub open spec fn data_outcome(cmd_replies: Seq<Option<u8>>, data_replies: Seq<Option<u8>>) -> Result<
    (),
    Ps2Error,
> {
    if ack_outcome(cmd_replies) is Ok {
        ack_outcome(data_replies)
    } else {
        ack_outcome(cmd_replies)
    }
}

/// `after` is `before` followed by a command with a data byte: the data is sent only once the
/// command was acknowledged.
pub open spec fn data_exchanged(
    before: Seq<Transfer>,
    after: Seq<Transfer>,
    port: DevicePort,
    cmd: u8,
    data: u8,
    cmd_replies: Seq<Option<u8>>,
    data_replies: Seq<Option<u8>>,
) -> bool {
    &&& retry_run(cmd_replies)
    &&& ack_outcome(cmd_replies) is Ok ==> retry_run(data_replies) && after == before + attempts(
        port,
        cmd,
        cmd_replies,
    ) + attempts(port, data, data_replies)
    &&& !(ack_outcome(cmd_replies) is Ok) ==> after == before + attempts(port, cmd, cmd_replies)
}

pub proof fn lemma_attempts_push(port: DevicePort, byte: u8, replies: Seq<Option<u8>>, reply: Option<u8>)
    ensures
        attempts(port, byte, replies.push(reply)) == attempts(port, byte, replies) + attempt(
            port,
            byte,
            reply,
        ),
{
    assert(replies.push(reply).drop_last() =~= replies);
}

fn is_resend(reply: Option<u8>) -> (r: bool)
    ensures
        r == (reply == Some(RESEND)),
{
    match reply {
        Some(b) => b == RESEND,
        None => false,
    }
}

/// One try: routes to `port`, sends `byte` and reads the reply.
fn send_once<P: PortIo>(io: &mut Ports<P>, port: DevicePort, byte: u8) -> (r: Option<u8>)
    ensures
        transfers(final(io).history()) == transfers(old(io).history()) + attempt(port, byte, r),
{
    let ghost t0 = transfers(io.history());
    if port == DevicePort::Two {
        io::write(io, STATUS_COMMAND_PORT, ControllerCommand::WriteInputPort2.byte());
    }
    assert(transfers(io.history()) == t0 + route(port));
    io::write(io, DATA_PORT, byte);
    let r = io::read(io);
    proof {
        assert(t0 + attempt(port, byte, r) =~= t0 + route(port).push(
            Transfer::Sent { port: DATA_PORT, value: byte },
        ) + reply_transfers(r));
        assert(transfers(io.history()) =~= t0 + attempt(port, byte, r));
    }
    r
}

/// Sends `byte` to the device on `port`, again after each RESEND, at most `RETRIES` times.
/// Returns the last reply and, as ghost state, every reply.
fn send_with_retries<P: PortIo>(io: &mut Ports<P>, port: DevicePort, byte: u8) -> (r: (
    Option<u8>,
    Ghost<Seq<Option<u8>>>,
))
    ensures
        exchanged(transfers(old(io).history()), transfers(final(io).history()), port, byte, r.1@),
        r.1@.last() == r.0,
{
    let ghost t0 = transfers(io.history());
    let mut reply = send_once(io, port, byte);
    let ghost mut replies: Seq<Option<u8>> = seq![reply];
    proof {
        lemma_attempts_push(port, byte, seq![], reply);
        assert(seq![].push(reply) =~= replies);
        assert(attempts(port, byte, seq![]) =~= seq![]);
        assert(transfers(io.history()) =~= t0 + attempts(port, byte, replies));
    }
    let mut n: u8 = 1;
    while n < RETRIES && is_resend(reply)
        invariant
            1 <= n <= RETRIES,
            replies.len() == n,
            replies.last() == reply,
            forall|i: int| 0 <= i < replies.len() - 1 ==> replies[i] == Some(RESEND),
            transfers(io.history()) == t0 + attempts(port, byte, replies),
        decreases RETRIES - n,
    {
        let next = send_once(io, port, byte);
        proof {
            lemma_attempts_push(port, byte, replies, next);
            assert(transfers(io.history()) =~= t0 + attempts(port, byte, replies.push(next)));
            replies = replies.push(next);
        }
        reply = next;
        n = n + 1;
    }
    (reply, Ghost(replies))
}

fn ack_result(reply: Option<u8>) -> (r: Result<(), Ps2Error>)
    ensures
        forall|replies: Seq<Option<u8>>| replies.len() > 0 && replies.last() == reply ==> r == #[trigger] ack_outcome(replies),
{
    match reply {
        Some(b) => if b == RESEND {
            Err(Ps2Error::RetriesExceeded)
        } else if b == ACK {
            Ok(())
        } else {
            Err(Ps2Error::UnexpectedResponse(b))
        },
        None => Err(Ps2Error::ExpectedResponse),
    }
}

/// The error for a command sent to a device in `state`, if that state forbids it.
pub open spec fn state_error(state: DeviceState) -> Option<Ps2Error> {
    match state {
        DeviceState::Unavailable => Some(Ps2Error::DeviceUnavailable),
        DeviceState::Available => Some(Ps2Error::DeviceDisabled),
        DeviceState::Enabled => None,
    }
}


/// Sends `byte` to the device on `port` with retries, expecting ACK.
fn send_command<P: PortIo>(io: &mut Ports<P>, port: DevicePort, byte: u8) -> (r: Result<(), Ps2Error>)
    ensures
        exists|replies: Seq<Option<u8>>|
            #[trigger] exchanged(transfers(old(io).history()), transfers(final(io).history()), port, byte, replies)
                && r == ack_outcome(replies),
{
    let (reply, replies) = send_with_retries(io, port, byte);
    let r = ack_result(reply);
    assert(r == ack_outcome(replies@));
    r
}

/// Sends `cmd` with retries, expecting ACK, to a device in `state` on `port`; only an enabled
/// device takes commands.
fn command_in_state<P: PortIo>(state: DeviceState, port: DevicePort, io: &mut Ports<P>, cmd: u8) -> (r: Result<(), Ps2Error>)
    ensures
        state_error(state) matches Some(e) ==> r == Err::<(), Ps2Error>(e)
            && final(io).history() == old(io).history(),
        state_error(state) is None ==> exists|replies: Seq<Option<u8>>|
            #[trigger] exchanged(transfers(old(io).history()), transfers(final(io).history()), port, cmd, replies)
                && r == ack_outcome(replies),
{
    if state != DeviceState::Enabled {
        return Err(if state == DeviceState::Unavailable {
            Ps2Error::DeviceUnavailable
        } else {
            Ps2Error::DeviceDisabled
        });
    }
    send_command(io, port, cmd)
}

/// Transfers ending in a received byte: that byte.
pub open spec fn last_received(t: Seq<Transfer>) -> u8 {
    match t.last() {
        Transfer::Received { value } => value,
        Transfer::Sent { value, .. } => value,
    }
}

/// The controller command that enables the port.
pub open spec fn enable_byte(port: DevicePort) -> u8 {
    if port == DevicePort::One { 0xAE } else { 0xA8 }
}

/// The controller command that disables the port.
pub open spec fn disable_byte(port: DevicePort) -> u8 {
    if port == DevicePort::One { 0xAD } else { 0xA7 }
}

/// The controller command that tests the port.
pub open spec fn test_byte(port: DevicePort) -> u8 {
    if port == DevicePort::One { 0xAB } else { 0xA9 }
}

/// The state after a port test: a pass makes an absent device available, a failure makes it
/// unavailable.
pub open spec fn tested_state(state: DeviceState, passed: bool) -> DeviceState {
    if !passed {
        DeviceState::Unavailable
    } else if state == DeviceState::Unavailable {
        DeviceState::Available
    } else {
        state
    }
}

/// The state after the port is disabled.
pub open spec fn disabled_state(state: DeviceState) -> DeviceState {
    if state == DeviceState::Enabled { DeviceState::Available } else { state }
}

/// The identify command was sent with `replies`, and, once acknowledged, `id` was read.
/// The first identification byte of an MF2 keyboard; a second byte follows it.
pub const KEYBOARD_IDENTIFIER: u8 = 0xAB;

/// The identification bytes read after the identify command was acknowledged: the first,
/// and, after `KEYBOARD_IDENTIFIER`, a second.
pub open spec fn identity_transfers(id1: Option<u8>, id2: Option<u8>) -> Seq<Transfer> {
    reply_transfers(id1) + if id1 == Some(KEYBOARD_IDENTIFIER) {
        reply_transfers(id2)
    } else {
        seq![]
    }
}

pub open spec fn identified(
    before: Seq<Transfer>,
    after: Seq<Transfer>,
    port: DevicePort,
    replies: Seq<Option<u8>>,
    id1: Option<u8>,
    id2: Option<u8>,
) -> bool {
    &&& retry_run(replies)
    &&& ack_outcome(replies) is Ok ==> after == before + attempts(port, 0xF2, replies)
        + identity_transfers(id1, id2)
    &&& !(ack_outcome(replies) is Ok) ==> after == before + attempts(port, 0xF2, replies)
}

/// The outcome of identify: the type that the last identification byte names (the first when
/// a keyboard's second byte did not come).
pub open spec fn identify_outcome(replies: Seq<Option<u8>>, id1: Option<u8>, id2: Option<u8>) -> Result<
    Result<DeviceType, UnknownDevice>,
    Ps2Error,
> {
    match ack_outcome(replies) {
        Err(e) => Err(e),
        Ok(_) => match id1 {
            Some(b) => if b == KEYBOARD_IDENTIFIER && id2 is Some {
                Ok(device_type_of(id2.unwrap()))
            } else {
                Ok(device_type_of(b))
            },
            None => Err(Ps2Error::ExpectedResponse),
        },
    }
}

/// A PS/2 device on one port.
pub trait Device {
    spec fn spec_port(&self) -> DevicePort;

    spec fn spec_state(&self) -> DeviceState;

    /// The port the device is on.
    fn port(&self) -> (r: DevicePort)
        ensures
            r == self.spec_port(),
    ;

    /// The lifecycle state of the device.
    fn state(&self) -> (r: DeviceState)
        ensures
            r == self.spec_state(),
    ;

    /// Records a new lifecycle state.
    fn set_state(&mut self, state: DeviceState)
        ensures
            final(self).spec_state() == state,
            final(self).spec_port() == old(self).spec_port(),
    ;

    /// Enables the port of this device. Fails, without touching the hardware, when no device
    /// is present.
    fn enable<P: PortIo>(&mut self, io: &mut Ports<P>) -> (r: Result<(), Ps2Error>)
        ensures
            final(self).spec_port() == old(self).spec_port(),
            old(self).spec_state() == DeviceState::Unavailable ==> r == Err::<(), Ps2Error>(
                Ps2Error::DeviceUnavailable,
            ) && final(io).history() == old(io).history() && final(self).spec_state()
                == DeviceState::Unavailable,
            old(self).spec_state() != DeviceState::Unavailable ==> r is Ok && final(self).spec_state()
                == DeviceState::Enabled && transfers(final(io).history()) == transfers(
                old(io).history(),
            ).push(Transfer::Sent { port: STATUS_COMMAND_PORT, value: enable_byte(old(self).spec_port()) }),
    {
        if self.state() == DeviceState::Unavailable {
            return Err(Ps2Error::DeviceUnavailable);
        }
        let cmd = if self.port() == DevicePort::One {
            ControllerCommand::EnablePort1
        } else {
            ControllerCommand::EnablePort2
        };
        io::write(io, STATUS_COMMAND_PORT, cmd.byte());
        self.set_state(DeviceState::Enabled);
        Ok(())
    }

    /// Disables the port of this device. An enabled device becomes available; any other state
    /// is kept.
    fn disable<P: PortIo>(&mut self, io: &mut Ports<P>)
        ensures
            final(self).spec_port() == old(self).spec_port(),
            final(self).spec_state() == disabled_state(old(self).spec_state()),
            transfers(final(io).history()) == transfers(old(io).history()).push(
                Transfer::Sent { port: STATUS_COMMAND_PORT, value: disable_byte(old(self).spec_port()) },
            ),
    {
        let cmd = if self.port() == DevicePort::One {
            ControllerCommand::DisablePort1
        } else {
            ControllerCommand::DisablePort2
        };
        io::write(io, STATUS_COMMAND_PORT, cmd.byte());
        if self.state() == DeviceState::Enabled {
            self.set_state(DeviceState::Available);
        }
    }

    /// Runs the controller's test of this port. A reply of 0x00 means that a device is present;
    /// returns whether it came.
    fn test<P: PortIo>(&mut self, io: &mut Ports<P>) -> (r: Result<bool, Ps2Error>)
        ensures
            final(self).spec_port() == old(self).spec_port(),
            r is Err ==> ends_idle(final(io).history()),
            r is Err ==> r == Err::<bool, Ps2Error>(Ps2Error::ExpectedResponse) && final(self).spec_state()
                == old(self).spec_state() && transfers(final(io).history()) == transfers(
                old(io).history(),
            ).push(Transfer::Sent { port: STATUS_COMMAND_PORT, value: test_byte(old(self).spec_port()) }),
            r matches Ok(passed) ==> transfers(final(io).history()) == transfers(old(io).history()).push(
                Transfer::Sent { port: STATUS_COMMAND_PORT, value: test_byte(old(self).spec_port()) },
            ).push(Transfer::Received { value: last_received(transfers(final(io).history())) })
                && passed == (last_received(transfers(final(io).history())) == 0)
                && final(self).spec_state() == tested_state(old(self).spec_state(), passed),
    {
        let cmd = if self.port() == DevicePort::One {
            ControllerReturnCommand::TestPort1
        } else {
            ControllerReturnCommand::TestPort2
        };
        io::write(io, STATUS_COMMAND_PORT, cmd.byte());
        match io::read(io) {
            None => Err(Ps2Error::ExpectedResponse),
            Some(b) => {
                let passed = b == 0;
                if !passed {
                    self.set_state(DeviceState::Unavailable);
                } else if self.state() == DeviceState::Unavailable {
                    self.set_state(DeviceState::Available);
                }
                Ok(passed)
            },
        }
    }

    /// Asks the device to start sending data (scancodes, mouse packets).
    fn enable_scanning<P: PortIo>(&self, io: &mut Ports<P>) -> (r: Result<(), Ps2Error>)
        ensures
            state_error(self.spec_state()) matches Some(e) ==> r == Err::<(), Ps2Error>(e)
                && final(io).history() == old(io).history(),
            state_error(self.spec_state()) is None ==> exists|replies: Seq<Option<u8>>|
                #[trigger] exchanged(transfers(old(io).history()), transfers(final(io).history()), self.spec_port(), 0xF4, replies)
                    && r == ack_outcome(replies),
    {
        command_in_state(self.state(), self.port(), io, DeviceCommand::EnableScanning.byte())
    }

    /// Asks the device to stop sending data.
    fn disable_scanning<P: PortIo>(&self, io: &mut Ports<P>) -> (r: Result<(), Ps2Error>)
        ensures
            state_error(self.spec_state()) matches Some(e) ==> r == Err::<(), Ps2Error>(e)
                && final(io).history() == old(io).history(),
            state_error(self.spec_state()) is None ==> exists|replies: Seq<Option<u8>>|
                #[trigger] exchanged(transfers(old(io).history()), transfers(final(io).history()), self.spec_port(), 0xF5, replies)
                    && r == ack_outcome(replies),
    {
        command_in_state(self.state(), self.port(), io, DeviceCommand::DisableScanning.byte())
    }

    /// Restores the device's default parameters.
    fn set_defaults<P: PortIo>(&self, io: &mut Ports<P>) -> (r: Result<(), Ps2Error>)
        ensures
            state_error(self.spec_state()) matches Some(e) ==> r == Err::<(), Ps2Error>(e)
                && final(io).history() == old(io).history(),
            state_error(self.spec_state()) is None ==> exists|replies: Seq<Option<u8>>|
                #[trigger] exchanged(transfers(old(io).history()), transfers(final(io).history()), self.spec_port(), 0xF6, replies)
                    && r == ack_outcome(replies),
    {
        command_in_state(self.state(), self.port(), io, DeviceCommand::SetDefaults.byte())
    }

    /// Resets the device. Allowed whenever a device is present, enabled or not.
    fn reset<P: PortIo>(&self, io: &mut Ports<P>) -> (r: Result<(), Ps2Error>)
        ensures
            self.spec_state() == DeviceState::Unavailable ==> r == Err::<(), Ps2Error>(
                Ps2Error::DeviceUnavailable,
            ) && final(io).history() == old(io).history(),
            self.spec_state() != DeviceState::Unavailable ==> exists|replies: Seq<Option<u8>>|
                #[trigger] exchanged(transfers(old(io).history()), transfers(final(io).history()), self.spec_port(), 0xFF, replies)
                    && r == ack_outcome(replies),
    {
        if self.state() == DeviceState::Unavailable {
            return Err(Ps2Error::DeviceUnavailable);
        }
        send_command(io, self.port(), DeviceCommand::Reset.byte())
    }

    /// Asks the device for its type: reads one identification byte, and a second after
    /// `KEYBOARD_IDENTIFIER`. An identifier that names no known type is returned as
    /// `Ok(Err(UnknownDevice))`: the exchange itself succeeded.
    fn identify<P: PortIo>(&self, io: &mut Ports<P>) -> (r: Result<Result<DeviceType, UnknownDevice>, Ps2Error>)
        ensures
            state_error(self.spec_state()) matches Some(e) ==> r == Err::<Result<DeviceType, UnknownDevice>, Ps2Error>(e)
                && final(io).history() == old(io).history(),
            state_error(self.spec_state()) is None ==> exists|replies: Seq<Option<u8>>, id1: Option<u8>, id2: Option<u8>|
                #[trigger] identified(transfers(old(io).history()), transfers(final(io).history()), self.spec_port(), replies, id1, id2)
                    && r == identify_outcome(replies, id1, id2),
    {
        if self.state() != DeviceState::Enabled {
            return Err(if self.state() == DeviceState::Unavailable {
                Ps2Error::DeviceUnavailable
            } else {
                Ps2Error::DeviceDisabled
            });
        }
        let ghost t0 = transfers(io.history());
        let (reply, replies) = send_with_retries(io, self.port(), 0xF2);
        match ack_result(reply) {
            Err(e) => {
                assert(identified(t0, transfers(io.history()), self.spec_port(), replies@, None, None));
                Err(e)
            },
            Ok(()) => {
                let ghost t1 = transfers(io.history());
                let id1 = io::read(io);
                match id1 {
                    None => {
                        assert(identified(t0, transfers(io.history()), self.spec_port(), replies@, id1, None)) by {
                            assert(transfers(io.history()) =~= t1 + identity_transfers(id1, None));
                        }
                        Err(Ps2Error::ExpectedResponse)
                    },
                    Some(b) => {
                        if b == KEYBOARD_IDENTIFIER {
                            let ghost t2 = transfers(io.history());
                            let id2 = io::read(io);
                            assert(identified(t0, transfers(io.history()), self.spec_port(), replies@, id1, id2)) by {
                                assert(transfers(io.history()) =~= t1 + identity_transfers(id1, id2));
                            }
                            match id2 {
                                Some(b2) => Ok(DeviceType::try_from(b2)),
                                None => Ok(DeviceType::try_from(b)),
                            }
                        } else {
                            assert(identified(t0, transfers(io.history()), self.spec_port(), replies@, id1, None)) by {
                                assert(transfers(io.history()) =~= t1 + identity_transfers(id1, None));
                            }
                            Ok(DeviceType::try_from(b))
                        }
                    },
                }
            },
        }
    }
}

/// Sends a command byte to `device`, with retries, expecting ACK. Only an enabled device takes
/// commands: otherwise nothing is sent.
pub fn command<D: Device + ?Sized, P: PortIo>(device: &D, io: &mut Ports<P>, cmd: u8) -> (r: Result<(), Ps2Error>)
    ensures
        state_error(device.spec_state()) matches Some(e) ==> r == Err::<(), Ps2Error>(e)
            && final(io).history() == old(io).history(),
        state_error(device.spec_state()) is None ==> exists|replies: Seq<Option<u8>>|
            #[trigger] exchanged(transfers(old(io).history()), transfers(final(io).history()), device.spec_port(), cmd, replies)
                && r == ack_outcome(replies),
{
    command_in_state(device.state(), device.port(), io, cmd)
}

/// Sends a command byte to `device`, with retries, and returns the first reply that is not
/// RESEND.
pub fn command_ret<D: Device + ?Sized, P: PortIo>(device: &D, io: &mut Ports<P>, cmd: u8) -> (r: Result<u8, Ps2Error>)
    ensures
        state_error(device.spec_state()) matches Some(e) ==> r == Err::<u8, Ps2Error>(e)
            && final(io).history() == old(io).history(),
        state_error(device.spec_state()) is None ==> exists|replies: Seq<Option<u8>>|
            #[trigger] exchanged(transfers(old(io).history()), transfers(final(io).history()), device.spec_port(), cmd, replies)
                && r == reply_outcome(replies),
{
    let state = device.state();
    if state != DeviceState::Enabled {
        return Err(if state == DeviceState::Unavailable {
            Ps2Error::DeviceUnavailable
        } else {
            Ps2Error::DeviceDisabled
        });
    }
    let (reply, replies) = send_with_retries(io, device.port(), cmd);
    let r = match reply {
        Some(b) => if b == RESEND {
            Err(Ps2Error::RetriesExceeded)
        } else {
            Ok(b)
        },
        None => Err(Ps2Error::ExpectedResponse),
    };
    assert(r == reply_outcome(replies@));
    r
}

/// Sends a command byte and then a data byte to `device`, each with retries and expecting ACK.
/// The data byte is sent only once the command was acknowledged.
pub fn command_data<D: Device + ?Sized, P: PortIo>(device: &D, io: &mut Ports<P>, cmd: u8, data: u8) -> (r: Result<(), Ps2Error>)
    ensures
        state_error(device.spec_state()) matches Some(e) ==> r == Err::<(), Ps2Error>(e)
            && final(io).history() == old(io).history(),
        state_error(device.spec_state()) is None ==> exists|cmd_replies: Seq<Option<u8>>, data_replies: Seq<Option<u8>>|
            #[trigger] data_exchanged(transfers(old(io).history()), transfers(final(io).history()), device.spec_port(), cmd, data, cmd_replies, data_replies)
                && r == data_outcome(cmd_replies, data_replies),
{
    let state = device.state();
    if state != DeviceState::Enabled {
        return Err(if state == DeviceState::Unavailable {
            Ps2Error::DeviceUnavailable
        } else {
            Ps2Error::DeviceDisabled
        });
    }
    let ghost t0 = transfers(io.history());
    let port = device.port();
    let (reply, cmd_replies) = send_with_retries(io, port, cmd);
    match ack_result(reply) {
        Err(e) => {
            assert(data_exchanged(t0, transfers(io.history()), port, cmd, data, cmd_replies@, seq![]));
            assert(Err::<(), Ps2Error>(e) == data_outcome(cmd_replies@, seq![]));
            Err(e)
        },
        Ok(()) => {
            let ghost t1 = transfers(io.history());
            let (reply2, data_replies) = send_with_retries(io, port, data);
            let r = ack_result(reply2);
            assert(data_exchanged(t0, transfers(io.history()), port, cmd, data, cmd_replies@, data_replies@));
            assert(r == data_outcome(cmd_replies@, data_replies@));
            r
        },
    }
}


/// A PS/2 scan set.
#[derive(PartialEq, Eq, Structural, Clone, Copy, Debug)]
pub enum Scanset {
    One,
    Two,
    Three,
}

impl Scanset {
    pub open spec fn spec_byte(self) -> u8 {
        match self {
            Scanset::One => 1,
            Scanset::Two => 2,
            Scanset::Three => 3,
        }
    }

    /// The data byte that selects this scan set.
    pub fn byte(self) -> (r: u8)
        ensures
            r == self.spec_byte(),
    {
        match self {
            Scanset::One => 1,
            Scanset::Two => 2,
            Scanset::Three => 3,
        }
    }
}

/// A key transition received from a keyboard: the raw code, whether it came after an extended
/// prefix, and whether it is a press (make) or a release (break).
#[derive(PartialEq, Eq, Structural, Clone, Copy, Debug)]
pub struct Scancode {
    pub code: u8,
    pub extended: bool,
    pub make: bool,
}

impl Scancode {
    pub fn new(scancode: u8, extended: bool, make: bool) -> (r: Scancode)
        ensures
            r == (Scancode { code: scancode, extended, make }),
    {
        Scancode { code: scancode, extended, make }
    }
}

/// Scan set 2 prefix: the next code is from the extended table.
pub const EXTENDED_PREFIX: u8 = 0xE0;

/// Scan set 2 prefix, used by the pause key: read as an extended prefix.
pub const EXTENDED_PREFIX_2: u8 = 0xE1;

/// Scan set 2 prefix: the next code is a key release.
pub const BREAK_PREFIX: u8 = 0xF0;

/// The prefixes seen since the last complete scancode.
#[derive(PartialEq, Eq, Structural, Clone, Copy, Debug)]
pub enum DecodeState {
    Idle,
    Extended,
    Break,
    ExtendedBreak,
}

impl DecodeState {
    pub open spec fn is_extended(self) -> bool {
        self == DecodeState::Extended || self == DecodeState::ExtendedBreak
    }

    pub open spec fn is_break(self) -> bool {
        self == DecodeState::Break || self == DecodeState::ExtendedBreak
    }

    /// Consumes one byte: a prefix is folded into the state; any other byte ends the scancode
    /// and returns the state to `Idle`, emitting a scancode unless the byte is 0x00.
    pub fn step(self, byte: u8) -> (r: (DecodeState, Option<Scancode>))
        ensures
            r == decode_step(self, byte),
    {
        let extended = self == DecodeState::Extended || self == DecodeState::ExtendedBreak;
        let brk = self == DecodeState::Break || self == DecodeState::ExtendedBreak;
        if byte == EXTENDED_PREFIX || byte == EXTENDED_PREFIX_2 {
            (if brk { DecodeState::ExtendedBreak } else { DecodeState::Extended }, None)
        } else if byte == BREAK_PREFIX {
            (if extended { DecodeState::ExtendedBreak } else { DecodeState::Break }, None)
        } else if byte == 0 {
            (DecodeState::Idle, None)
        } else {
            (DecodeState::Idle, Some(Scancode { code: byte, extended, make: !brk }))
        }
    }
}

pub open spec fn is_prefix(b: u8) -> bool {
    b == EXTENDED_PREFIX || b == EXTENDED_PREFIX_2 || b == BREAK_PREFIX
}

pub open spec fn decode_step(s: DecodeState, b: u8) -> (DecodeState, Option<Scancode>) {
    if b == EXTENDED_PREFIX || b == EXTENDED_PREFIX_2 {
        (if s.is_break() { DecodeState::ExtendedBreak } else { DecodeState::Extended }, None)
    } else if b == BREAK_PREFIX {
        (if s.is_extended() { DecodeState::ExtendedBreak } else { DecodeState::Break }, None)
    } else if b == 0 {
        (DecodeState::Idle, None)
    } else {
        (DecodeState::Idle, Some(Scancode { code: b, extended: s.is_extended(), make: !s.is_break() }))
    }
}

/// The decoder state after `bytes`, starting from `s`.
pub open spec fn feed(s: DecodeState, bytes: Seq<u8>) -> DecodeState
    decreases bytes.len(),
{
    if bytes.len() == 0 {
        s
    } else {
        decode_step(feed(s, bytes.drop_last()), bytes.last()).0
    }
}

/// What the last byte of `bytes` emits, starting from `s`.
pub open spec fn emitted(s: DecodeState, bytes: Seq<u8>) -> Option<Scancode> {
    if bytes.len() == 0 {
        None
    } else {
        decode_step(feed(s, bytes.drop_last()), bytes.last()).1
    }
}

/// Every scancode that `bytes` emits, starting from `s`.
pub open spec fn scancodes(s: DecodeState, bytes: Seq<u8>) -> Seq<Scancode>
    decreases bytes.len(),
{
    if bytes.len() == 0 {
        seq![]
    } else {
        match emitted(s, bytes) {
            Some(sc) => scancodes(s, bytes.drop_last()).push(sc),
            None => scancodes(s, bytes.drop_last()),
        }
    }
}

/// The bytes of `bytes` that end a scancode and are not 0x00, in order.
pub open spec fn terminal_codes(bytes: Seq<u8>) -> Seq<u8>
    decreases bytes.len(),
{
    if bytes.len() == 0 {
        seq![]
    } else if !is_prefix(bytes.last()) && bytes.last() != 0 {
        terminal_codes(bytes.drop_last()).push(bytes.last())
    } else {
        terminal_codes(bytes.drop_last())
    }
}

/// The status byte shows a byte from the keyboard waiting to be read.
pub open spec fn keyboard_byte_ready(status: u8) -> bool {
    output_full(status) && !output_from_port_2(status)
}

/// `h1` is `h0` followed by one call of `read_scancode` that read `bytes` from the data
/// register, took the decoder from `d0` to `d1` and returned `r`.
pub open spec fn scanned(
    h0: Seq<PortOp>,
    h1: Seq<PortOp>,
    d0: DecodeState,
    d1: DecodeState,
    bytes: Seq<u8>,
    r: Result<Option<Scancode>, Ps2Error>,
) -> bool {
    let status = op_value(h1[h0.len() as int]);
    &&& h1.len() > h0.len()
    &&& h1.subrange(0, h0.len() as int) == h0
    &&& status_at(h1, h0.len() as int)
    &&& transfers(h1) == transfers(h0) + received(bytes)
    &&& d1 == feed(d0, bytes)
    &&& bytes.len() <= MAX_SCANCODE_BYTES
    &&& forall|i: int| 0 <= i < bytes.len() - 1 ==> is_prefix(#[trigger] bytes[i])
    &&& !keyboard_byte_ready(status) ==> h1.len() == h0.len() + 1 && bytes.len() == 0 && r
        == Ok::<Option<Scancode>, Ps2Error>(None)
    &&& keyboard_byte_ready(status) ==> match r {
        Err(e) => {
            &&& e == Ps2Error::ExpectedResponse
            &&& bytes.len() < MAX_SCANCODE_BYTES
            &&& forall|i: int| 0 <= i < bytes.len() ==> is_prefix(#[trigger] bytes[i])
            &&& ends_idle(h1)
        },
        Ok(out) => {
            &&& bytes.len() > 0
            &&& is_prefix(bytes.last()) ==> bytes.len() == MAX_SCANCODE_BYTES
            &&& out == emitted(d0, bytes)
        },
    }
}

/// The most bytes one call of `read_scancode` consumes.
pub const MAX_SCANCODE_BYTES: u32 = 8;

/// The PS/2 keyboard device.
pub struct Keyboard {
    port: DevicePort,
    state: DeviceState,
    decoder: DecodeState,
}

impl Keyboard {
    pub closed spec fn decoder(&self) -> DecodeState {
        self.decoder
    }

    /// A keyboard on `port`, not yet detected.
    pub fn new(port: DevicePort) -> (r: Keyboard)
        ensures
            r.spec_port() == port,
            r.spec_state() == DeviceState::Unavailable,
            r.decoder() == DecodeState::Idle,
    {
        Keyboard { port, state: DeviceState::Unavailable, decoder: DecodeState::Idle }
    }

    /// Reads one scancode. First reads the status register: with no keyboard byte waiting,
    /// returns `Ok(None)` and reads nothing else. Otherwise reads bytes until one that is not a
    /// prefix, which ends the scancode (`Ok(None)` for 0x00), until a read times out
    /// (`ExpectedResponse`), or until `MAX_SCANCODE_BYTES` prefixes came in a row (`Ok(None)`);
    /// the prefixes read are kept for the next call.
    pub fn read_scancode<P: PortIo>(&mut self, io: &mut Ports<P>) -> (r: Result<Option<Scancode>, Ps2Error>)
        ensures
            final(self).spec_port() == old(self).spec_port(),
            final(self).spec_state() == old(self).spec_state(),
            exists|bytes: Seq<u8>|
                #[trigger] scanned(old(io).history(), final(io).history(), old(self).decoder(), final(self).decoder(), bytes, r),
    {
        let ghost d0 = self.decoder;
        let ghost h0 = io.history();
        let ghost t0 = transfers(io.history());
        let status = io::read_status(io);
        let ghost first = io.history();
        proof {
            assert(t0 + received(seq![]) =~= t0);
            assert(first.subrange(0, h0.len() as int) =~= h0);
            assert(status_at(first, h0.len() as int));
        }
        if !io::status_can_read(status) || !io::status_from_keyboard(status) {
            assert(feed(d0, seq![]) == d0);
            assert(scanned(h0, io.history(), d0, self.decoder, seq![], Ok(None)));
            return Ok(None);
        }
        let ghost mut bytes: Seq<u8> = seq![];
        let mut n: u32 = 0;
        while n < MAX_SCANCODE_BYTES
            invariant
                transfers(io.history()) == t0 + received(bytes),
                bytes.len() == n,
                n <= MAX_SCANCODE_BYTES,
                self.decoder == feed(d0, bytes),
                forall|i: int| 0 <= i < bytes.len() ==> is_prefix(bytes[i]),
                self.port == old(self).port,
                self.state == old(self).state,
                d0 == old(self).decoder,
                h0 == old(io).history(),
                t0 == transfers(h0),
                io.history().len() > h0.len(),
                io.history().subrange(0, first.len() as int) == first,
                first.len() == h0.len() + 1,
                first.subrange(0, h0.len() as int) == h0,
                status_at(first, h0.len() as int),
                op_value(first[h0.len() as int]) == status,
                keyboard_byte_ready(status),
            decreases MAX_SCANCODE_BYTES - n,
        {
            let ghost before = io.history();
            let got = io::read(io);
            proof {
                assert(io.history().subrange(0, first.len() as int) =~= before.subrange(0, first.len() as int));
            }
            match got {
                None => {
                    proof {
                        let h1 = io.history();
                        assert(h1.subrange(0, h0.len() as int) =~= first.subrange(0, h0.len() as int));
                        assert(h1[h0.len() as int] == first[h0.len() as int]);
                        assert(scanned(h0, h1, d0, self.decoder, bytes, Err(Ps2Error::ExpectedResponse)));
                    }
                    return Err(Ps2Error::ExpectedResponse);
                },
                Some(b) => {
                    let (next, out) = self.decoder.step(b);
                    self.decoder = next;
                    proof {
                        lemma_received_push(bytes, b);
                        assert(bytes.push(b).drop_last() =~= bytes);
                        bytes = bytes.push(b);
                    }
                    if !(b == EXTENDED_PREFIX || b == EXTENDED_PREFIX_2 || b == BREAK_PREFIX) {
                        proof {
                            let h1 = io.history();
                            assert(h1.subrange(0, h0.len() as int) =~= first.subrange(0, h0.len() as int));
                            assert(h1[h0.len() as int] == first[h0.len() as int]);
                            assert(out == emitted(d0, bytes));
                            assert(scanned(h0, h1, d0, self.decoder, bytes, Ok(out)));
                        }
                        return Ok(out);
                    }
                },
            }
            n = n + 1;
        }
        proof {
            let h1 = io.history();
            assert(h1.subrange(0, h0.len() as int) =~= first.subrange(0, h0.len() as int));
            assert(h1[h0.len() as int] == first[h0.len() as int]);
            assert(bytes.len() > 0);
            assert(emitted(d0, bytes) is None);
            assert(scanned(h0, h1, d0, self.decoder, bytes, Ok(None)));
        }
        Ok(None)
    }

    /// Selects the keyboard's scan set.
    pub fn set_scanset<P: PortIo>(&self, io: &mut Ports<P>, scanset: Scanset) -> (r: Result<(), Ps2Error>)
        ensures
            state_error(self.spec_state()) matches Some(e) ==> r == Err::<(), Ps2Error>(e)
                && final(io).history() == old(io).history(),
            state_error(self.spec_state()) is None ==> exists|cmd_replies: Seq<Option<u8>>, data_replies: Seq<Option<u8>>|
                #[trigger] data_exchanged(transfers(old(io).history()), transfers(final(io).history()), self.spec_port(), SET_GET_SCANCODE, scanset.spec_byte(), cmd_replies, data_replies)
                    && r == data_outcome(cmd_replies, data_replies),
    {
        command_data(self, io, SET_GET_SCANCODE, scanset.byte())
    }
}

impl Device for Keyboard {
    closed spec fn spec_port(&self) -> DevicePort {
        self.port
    }

    closed spec fn spec_state(&self) -> DeviceState {
        self.state
    }

    fn port(&self) -> (r: DevicePort) {
        self.port
    }

    fn state(&self) -> (r: DeviceState) {
        self.state
    }

    fn set_state(&mut self, state: DeviceState) {
        self.state = state;
    }
}

/// The PS/2 mouse device.
pub struct Mouse {
    port: DevicePort,
    state: DeviceState,
}

impl Mouse {
    /// A mouse on `port`, not yet detected.
    pub fn new(port: DevicePort) -> (r: Mouse)
        ensures
            r.spec_port() == port,
            r.spec_state() == DeviceState::Unavailable,
    {
        Mouse { port, state: DeviceState::Unavailable }
    }
}

impl Device for Mouse {
    closed spec fn spec_port(&self) -> DevicePort {
        self.port
    }

    closed spec fn spec_state(&self) -> DeviceState {
        self.state
    }

    fn port(&self) -> (r: DevicePort) {
        self.port
    }

    fn state(&self) -> (r: DeviceState) {
        self.state
    }

    fn set_state(&mut self, state: DeviceState) {
        self.state = state;
    }
}

proof fn lemma_attempts_shape(port: DevicePort, byte: u8, replies: Seq<Option<u8>>)
    requires
        replies.len() > 0,
        forall|i: int| 0 <= i < replies.len() - 1 ==> replies[i] == Some(RESEND),
    ensures
        attempts(port, byte, replies).len() == (replies.len() - 1) * (route(port).len() + 2)
            + attempt(port, byte, replies.last()).len(),
        attempts(port, byte, replies).last() == attempt(port, byte, replies.last()).last(),
    decreases replies.len(),
{
    let rest = replies.drop_last();
    if rest.len() > 0 {
        lemma_attempts_shape(port, byte, rest);
        assert(rest.last() == Some(RESEND));
        assert((rest.len() - 1) * (route(port).len() + 2) + (route(port).len() + 2) == (replies.len()
            - 1) * (route(port).len() + 2)) by (nonlinear_arith)
            requires
                rest.len() == replies.len() - 1,
        ;
    } else {
        assert(attempts(port, byte, rest) =~= seq![]);
    }
}

/// What crossed the wire determines the replies of a retried send: two runs of replies whose
/// tries made the same transfers are the same run, so they have the same outcome.
pub proof fn lemma_replies_determined(
    port: DevicePort,
    byte: u8,
    replies: Seq<Option<u8>>,
    observed: Seq<Option<u8>>,
)
    requires
        retry_run(replies),
        retry_run(observed),
        attempts(port, byte, replies) == attempts(port, byte, observed),
    ensures
        replies == observed,
        ack_outcome(replies) == ack_outcome(observed),
        reply_outcome(replies) == reply_outcome(observed),
{
    lemma_attempts_shape(port, byte, replies);
    lemma_attempts_shape(port, byte, observed);
    let x = replies.last();
    let y = observed.last();
    let k = route(port).len() + 2;
    assert(x == y) by {
        match x {
            Some(v) => {
                assert(attempt(port, byte, x).last() == Transfer::Received { value: v });
                match y {
                    Some(w) => assert(attempt(port, byte, y).last() == Transfer::Received { value: w }),
                    None => assert(attempt(port, byte, y).last() == Transfer::Sent { port: DATA_PORT, value: byte }),
                }
            },
            None => {
                assert(attempt(port, byte, x).last() == Transfer::Sent { port: DATA_PORT, value: byte });
                if let Some(w) = y {
                    assert(attempt(port, byte, y).last() == Transfer::Received { value: w });
                }
            },
        }
    }
    assert(replies.len() == observed.len()) by {
        let a = replies.len() - 1;
        let b = observed.len() - 1;
        assert(a * k == b * k);
        assert(a == b) by (nonlinear_arith)
            requires
                a * k == b * k,
                k > 0,
        ;
    }
    assert(replies =~= observed);
}

/// A command whose `RETRIES` tries were answered by RESEND but the last, answered by ACK,
/// succeeded; a command whose `RETRIES` tries were all answered by RESEND failed with
/// `RetriesExceeded`. `replies` are the replies that the command's contract speaks of, and
/// `observed` are those that its transfers show.
pub proof fn lemma_resend_limit(
    before: Seq<Transfer>,
    after: Seq<Transfer>,
    port: DevicePort,
    cmd: u8,
    replies: Seq<Option<u8>>,
    observed: Seq<Option<u8>>,
)
    requires
        exchanged(before, after, port, cmd, replies),
        after == before + attempts(port, cmd, observed),
        observed.len() == RETRIES,
        forall|i: int| 0 <= i < RETRIES - 1 ==> observed[i] == Some(RESEND),
    ensures
        observed.last() == Some(ACK) ==> ack_outcome(replies) == Ok::<(), Ps2Error>(()),
        observed.last() == Some(RESEND) ==> ack_outcome(replies) == Err::<(), Ps2Error>(
            Ps2Error::RetriesExceeded,
        ),
{
    assert(attempts(port, cmd, replies) =~= after.subrange(before.len() as int, after.len() as int));
    assert(attempts(port, cmd, observed) =~= after.subrange(before.len() as int, after.len() as int));
    lemma_replies_determined(port, cmd, replies, observed);
}

/// A run of replies never has a try after an answer other than RESEND, and never more than
/// `RETRIES` tries: no RESEND run is cut short, and none goes on for ever.
pub proof fn lemma_retry_run_shape(replies: Seq<Option<u8>>, i: int)
    requires
        retry_run(replies),
        0 <= i < replies.len(),
        replies[i] != Some(RESEND),
    ensures
        i == replies.len() - 1,
        replies.len() <= RETRIES,
{
}

/// Disabling a device that is not enabled keeps its state, and disabling twice leaves the
/// state that disabling once left.
pub proof fn lemma_disable_idempotent(state: DeviceState)
    ensures
        state != DeviceState::Enabled ==> disabled_state(state) == state,
        disabled_state(disabled_state(state)) == disabled_state(state),
        disabled_state(state) != DeviceState::Enabled,
{
}

/// The decoder cannot get stuck: every byte that is not a prefix ends the scancode in progress
/// and returns the decoder to `Idle`; a byte sequence emits exactly one scancode for each such
/// byte that is not 0x00, in order, with that byte as its code.
pub proof fn lemma_decode_resynchronizes(s: DecodeState, bytes: Seq<u8>)
    ensures
        bytes.len() > 0 && !is_prefix(bytes.last()) ==> feed(s, bytes) == DecodeState::Idle,
        scancodes(s, bytes).len() == terminal_codes(bytes).len(),
        forall|i: int| 0 <= i < scancodes(s, bytes).len() ==> #[trigger] scancodes(s, bytes)[i].code
            == terminal_codes(bytes)[i],
    decreases bytes.len(),
{
    if bytes.len() > 0 {
        lemma_decode_resynchronizes(s, bytes.drop_last());
    }
}

/// The flags of an emitted scancode are those of the prefixes before it: extended after an
/// extended prefix, a break after a break prefix, whichever order they came in.
pub proof fn lemma_prefix_flags(b: u8)
    requires
        !is_prefix(b),
        b != 0,
    ensures
        decode_step(DecodeState::Idle, b).1 == Some(Scancode { code: b, extended: false, make: true }),
        decode_step(feed(DecodeState::Idle, seq![EXTENDED_PREFIX]), b).1 == Some(
            Scancode { code: b, extended: true, make: true },
        ),
        decode_step(feed(DecodeState::Idle, seq![BREAK_PREFIX]), b).1 == Some(
            Scancode { code: b, extended: false, make: false },
        ),
        decode_step(feed(DecodeState::Idle, seq![EXTENDED_PREFIX, BREAK_PREFIX]), b).1 == Some(
            Scancode { code: b, extended: true, make: false },
        ),
        decode_step(feed(DecodeState::Idle, seq![BREAK_PREFIX, EXTENDED_PREFIX]), b).1 == Some(
            Scancode { code: b, extended: true, make: false },
        ),
{
    reveal_with_fuel(feed, 3);
    assert(seq![EXTENDED_PREFIX].drop_last() =~= Seq::<u8>::empty());
    assert(seq![BREAK_PREFIX].drop_last() =~= Seq::<u8>::empty());
    assert(seq![EXTENDED_PREFIX, BREAK_PREFIX].drop_last() =~= seq![EXTENDED_PREFIX]);
    assert(seq![BREAK_PREFIX, EXTENDED_PREFIX].drop_last() =~= seq![BREAK_PREFIX]);
}

} // verus!
