//! The PS/2 controller: it owns both devices, reads and writes the configuration byte, and runs
//! the initialisation sequence.

use vstd::prelude::*;
use crate::command::{ControllerCommand, ControllerDataCommand, ControllerReturnCommand};
use crate::device::{Device, DevicePort, DeviceState, Keyboard, Mouse, disabled_state, tested_state};
use crate::device::{ack_outcome, attempts, exchanged, retry_run, reply_transfers, last_received};
use crate::io::{
    self, PortIo, PortOp, Ports, Transfer, transfers, received, ends_idle, op_value, output_full,
    status_at, ACK, DATA_PORT, STATUS_COMMAND_PORT, WAIT_TIMEOUT,
};

verus! {

/// An error returned by a PS/2 operation.
#[derive(PartialEq, Eq, Structural, Clone, Copy, Debug)]
pub enum Ps2Error {
    /// Every try of a command was answered with RESEND.
    RetriesExceeded,
    /// The device is not present.
    DeviceUnavailable,
    /// The device is present but not enabled.
    DeviceDisabled,
    /// ACK was expected, this byte came instead.
    UnexpectedResponse(u8),
    /// A reply was expected but none came in time.
    ExpectedResponse,
}


/// Configuration bit: interrupts of the first port are enabled.
pub const PORT_INTERRUPT_1: u8 = 0x01;

/// Configuration bit: interrupts of the second port are enabled.
pub const PORT_INTERRUPT_2: u8 = 0x02;

/// Configuration bit: the clock of the first port is disabled.
pub const PORT_CLOCK_1: u8 = 0x10;

/// Configuration bit: the clock of the second port is disabled.
pub const PORT_CLOCK_2: u8 = 0x20;

/// Configuration bit: the controller translates scan set 2 to scan set 1.
pub const PORT_TRANSLATION_1: u8 = 0x40;

/// Every configuration bit that `ConfigFlags` knows.
pub const CONFIG_KNOWN_BITS: u8 = 0x73;

/// Reply of the controller to its self-test when it passed.
pub const CONTROLLER_TEST_PASSED: u8 = 0x55;

/// The controller's configuration byte, restricted to the bits listed above.
#[derive(PartialEq, Eq, Structural, Clone, Copy, Debug)]
pub struct ConfigFlags {
    bits: u8,
}

impl ConfigFlags {
    pub closed spec fn spec_bits(self) -> u8 {
        self.bits
    }

    /// The flags of a configuration byte, every bit kept.
    pub fn from_bits(bits: u8) -> (r: ConfigFlags)
        ensures
            r.spec_bits() == bits,
    {
        ConfigFlags { bits }
    }

    /// The flags of a configuration byte with the bits that no constant here names dropped.
    pub fn from_bits_truncate(bits: u8) -> (r: ConfigFlags)
        ensures
            r.spec_bits() == bits & CONFIG_KNOWN_BITS,
    {
        ConfigFlags { bits: bits & CONFIG_KNOWN_BITS }
    }

    /// No flag set.
    pub fn empty() -> (r: ConfigFlags)
        ensures
            r.spec_bits() == 0,
    {
        ConfigFlags { bits: 0 }
    }

    /// The configuration byte.
    pub fn bits(&self) -> (r: u8)
        ensures
            r == self.spec_bits(),
    {
        self.bits
    }

    /// Whether every bit of `flags` is set.
    pub fn contains(&self, flags: u8) -> (r: bool)
        ensures
            r == (self.spec_bits() & flags == flags),
    {
        self.bits & flags == flags
    }

    /// Sets (`value`) or clears the bits of `flags`; the other bits are kept.
    pub fn set(&mut self, flags: u8, value: bool)
        ensures
            final(self).spec_bits() == if value {
                old(self).spec_bits() | flags
            } else {
                old(self).spec_bits() & !flags
            },
    {
        if value {
            self.bits = self.bits | flags;
        } else {
            self.bits = self.bits & !flags;
        }
    }
}

/// The configuration that initialisation writes for a read configuration byte: both ports'
/// interrupts and translation off, every other bit kept.
pub open spec fn initial_config(read: u8) -> u8 {
    read & !(PORT_INTERRUPT_1 | PORT_INTERRUPT_2 | PORT_TRANSLATION_1)
}

/// The number of devices found: one for each port whose test passed.
pub open spec fn count_present(port1: bool, port2: bool) -> u8 {
    ((if port1 { 1int } else { 0int }) + (if port2 { 1int } else { 0int })) as u8
}

/// The reply of a successful controller command, `None` for one that timed out.
pub open spec fn ok_reply(r: Result<u8, Ps2Error>) -> Option<u8> {
    match r {
        Ok(b) => Some(b),
        Err(_) => None,
    }
}

/// The transfers of reading the configuration (reply `config`) and, when it came, writing it
/// back as `initial_config`.
pub open spec fn config_transfers(config: Option<u8>) -> Seq<Transfer> {
    seq![Transfer::Sent { port: STATUS_COMMAND_PORT, value: 0x20 }] + reply_transfers(config) + match config {
        Some(c) => seq![
            Transfer::Sent { port: STATUS_COMMAND_PORT, value: 0x60 },
            Transfer::Sent { port: DATA_PORT, value: initial_config(c) },
        ],
        None => seq![],
    }
}

/// The transfers of the controller self-test, which replied `reply`.
pub open spec fn self_test_transfers(reply: Option<u8>) -> Seq<Transfer> {
    seq![Transfer::Sent { port: STATUS_COMMAND_PORT, value: 0xAA }] + reply_transfers(reply)
}

/// The transfers of testing both ports; the second port is tested only once the first
/// replied.
pub open spec fn discovery_transfers(port1: Option<u8>, port2: Option<u8>) -> Seq<Transfer> {
    seq![Transfer::Sent { port: STATUS_COMMAND_PORT, value: 0xAB }] + reply_transfers(port1) + if port1 is Some {
        seq![Transfer::Sent { port: STATUS_COMMAND_PORT, value: 0xA9 }] + reply_transfers(port2)
    } else {
        seq![]
    }
}

/// The number of devices found by the port tests, or `ExpectedResponse` when one did not reply.
pub open spec fn discovery_outcome(port1: Option<u8>, port2: Option<u8>) -> Result<u8, Ps2Error> {
    match (port1, port2) {
        (Some(a), Some(b)) => Ok(count_present(a == 0, b == 0)),
        _ => Err(Ps2Error::ExpectedResponse),
    }
}

/// The state of a device after its port test, which replied `reply` if it replied.
pub open spec fn after_test(state: DeviceState, reply: Option<u8>) -> DeviceState {
    match reply {
        Some(b) => tested_state(state, b == 0),
        None => state,
    }
}

/// `after` is `before` followed by the port tests, with replies `port1` and `port2`.
pub open spec fn discovered(before: Seq<Transfer>, after: Seq<Transfer>, port1: Option<u8>, port2: Option<u8>) -> bool {
    &&& after == before + discovery_transfers(port1, port2)
    &&& port1 is None ==> port2 is None
}

/// Whether the mouse is reset: it is present, and the keyboard, if present, was reset.
pub open spec fn mouse_reset_reached(keyboard: bool, mouse: bool, reset1: Seq<Option<u8>>) -> bool {
    mouse && !(keyboard && ack_outcome(reset1) is Err)
}

/// The transfers of resetting the devices present, keyboard first; a failed reset ends them.
pub open spec fn reset_transfers(
    keyboard: bool,
    mouse: bool,
    reset1: Seq<Option<u8>>,
    reset2: Seq<Option<u8>>,
) -> Seq<Transfer> {
    (if keyboard { attempts(DevicePort::One, 0xFF, reset1) } else { seq![] }) + if mouse_reset_reached(
        keyboard,
        mouse,
        reset1,
    ) {
        attempts(DevicePort::Two, 0xFF, reset2)
    } else {
        seq![]
    }
}

/// The outcome of resetting the devices present: the first failed reset's error.
pub open spec fn reset_outcome(
    keyboard: bool,
    mouse: bool,
    reset1: Seq<Option<u8>>,
    reset2: Seq<Option<u8>>,
) -> Result<(), Ps2Error> {
    if keyboard && ack_outcome(reset1) is Err {
        ack_outcome(reset1)
    } else if mouse && ack_outcome(reset2) is Err {
        ack_outcome(reset2)
    } else {
        Ok(())
    }
}

/// The replies of the resets that were sent form runs of tries.
pub open spec fn resets_valid(keyboard: bool, mouse: bool, reset1: Seq<Option<u8>>, reset2: Seq<Option<u8>>) -> bool {
    &&& keyboard ==> retry_run(reset1)
    &&& mouse_reset_reached(keyboard, mouse, reset1) ==> retry_run(reset2)
}

/// `after` is `before` followed by the resets of the devices in `keyboard` and `mouse` state
/// that are present.
pub open spec fn devices_reset(
    before: Seq<Transfer>,
    after: Seq<Transfer>,
    keyboard: DeviceState,
    mouse: DeviceState,
    reset1: Seq<Option<u8>>,
    reset2: Seq<Option<u8>>,
) -> bool {
    let keyboard_present = keyboard != DeviceState::Unavailable;
    let mouse_present = mouse != DeviceState::Unavailable;
    &&& after == before + reset_transfers(keyboard_present, mouse_present, reset1, reset2)
    &&& resets_valid(keyboard_present, mouse_present, reset1, reset2)
}

/// `after` is `before` followed by the configuration step, whose read got `config`.
pub open spec fn config_initialized(before: Seq<Transfer>, after: Seq<Transfer>, config: Option<u8>) -> bool {
    after == before + config_transfers(config)
}

/// The self-test reply that a call of `test_controller` returning `r` got, the transfers being
/// `t` after it.
pub open spec fn test_reply(r: Result<bool, Ps2Error>, t: Seq<Transfer>) -> Option<u8> {
    match r {
        Ok(_) => Some(last_received(t)),
        Err(_) => None,
    }
}

/// What initialisation reports: how many devices were found, and whether the controller
/// passed its self-test (a failure does not stop initialisation).
#[derive(PartialEq, Eq, Structural, Clone, Copy, Debug)]
pub struct InitReport {
    pub devices: u8,
    pub self_test_passed: bool,
}

/// With every controller reply in and no device on either port, initialisation succeeds and
/// reports no device, whatever the self-test replied: a failed self-test does not stop it.
pub proof fn lemma_init_without_devices(
    config: u8,
    self_test: u8,
    port1: u8,
    port2: u8,
    reset1: Seq<Option<u8>>,
    reset2: Seq<Option<u8>>,
)
    requires
        port1 != 0,
        port2 != 0,
    ensures
        init_outcome(Some(config), Some(self_test), Some(port1), Some(port2), reset1, reset2) == Ok::<
            InitReport,
            Ps2Error,
        >(InitReport { devices: 0, self_test_passed: self_test == CONTROLLER_TEST_PASSED }),
{
}

/// Every controller command of initialisation got its reply.
pub open spec fn all_replied(config: Option<u8>, self_test: Option<u8>, port1: Option<u8>, port2: Option<u8>) -> bool {
    config is Some && self_test is Some && port1 is Some && port2 is Some
}

/// The transfers of initialisation, which stops at the first controller command without a
/// reply and at the first failed reset: both ports disabled, the output buffer flushed
/// (`flushed`), the configuration read and written back, the self-test, the port tests
/// (0x00 when a device is present), the resets of the devices present, and a last flush.
pub open spec fn init_transfers(
    flushed: Seq<u8>,
    config: Option<u8>,
    self_test: Option<u8>,
    port1: Option<u8>,
    port2: Option<u8>,
    reset1: Seq<Option<u8>>,
    reset2: Seq<Option<u8>>,
    flushed_after: Seq<u8>,
) -> Seq<Transfer> {
    let present1 = port1 == Some(0u8);
    let present2 = port2 == Some(0u8);
    seq![
        Transfer::Sent { port: STATUS_COMMAND_PORT, value: 0xAD },
        Transfer::Sent { port: STATUS_COMMAND_PORT, value: 0xA7 },
    ] + received(flushed) + config_transfers(config) + (if config is Some {
        self_test_transfers(self_test)
    } else {
        seq![]
    }) + (if config is Some && self_test is Some {
        discovery_transfers(port1, port2)
    } else {
        seq![]
    }) + (if all_replied(config, self_test, port1, port2) {
        reset_transfers(present1, present2, reset1, reset2)
    } else {
        seq![]
    }) + (if all_replied(config, self_test, port1, port2) && reset_outcome(present1, present2, reset1, reset2) is Ok {
        received(flushed_after)
    } else {
        seq![]
    })
}

/// The outcome of initialisation for the replies it got.
pub open spec fn init_outcome(
    config: Option<u8>,
    self_test: Option<u8>,
    port1: Option<u8>,
    port2: Option<u8>,
    reset1: Seq<Option<u8>>,
    reset2: Seq<Option<u8>>,
) -> Result<InitReport, Ps2Error> {
    if !all_replied(config, self_test, port1, port2) {
        Err(Ps2Error::ExpectedResponse)
    } else {
        match reset_outcome(port1 == Some(0u8), port2 == Some(0u8), reset1, reset2) {
            Err(e) => Err(e),
            Ok(_) => Ok(
                InitReport {
                    devices: count_present(port1 == Some(0u8), port2 == Some(0u8)),
                    self_test_passed: self_test == Some(CONTROLLER_TEST_PASSED),
                },
            ),
        }
    }
}

/// The state of a device after initialisation, from its port test reply.
pub open spec fn detected_state(state: DeviceState, reply: Option<u8>) -> DeviceState {
    match reply {
        Some(b) => if b == 0 { DeviceState::Available } else { DeviceState::Unavailable },
        None => disabled_state(state),
    }
}

/// One call of `initialize`: the history went from `h0` to `h1` (transfers `t0` to `t1`), the
/// devices from states `k0`, `m0` to `k1`, `m1`, and it returned `r`, for some replies of the
/// hardware. A missing controller reply is a read that timed out.
pub open spec fn initialized(
    h1: Seq<PortOp>,
    t0: Seq<Transfer>,
    t1: Seq<Transfer>,
    k0: DeviceState,
    m0: DeviceState,
    k1: DeviceState,
    m1: DeviceState,
    r: Result<InitReport, Ps2Error>,
) -> bool {
    exists|
        flushed: Seq<u8>,
        config: Option<u8>,
        self_test: Option<u8>,
        port1: Option<u8>,
        port2: Option<u8>,
        reset1: Seq<Option<u8>>,
        reset2: Seq<Option<u8>>,
        flushed_after: Seq<u8>,
    |
        {
            &&& t1 == t0 + #[trigger] init_transfers(
                flushed,
                config,
                self_test,
                port1,
                port2,
                reset1,
                reset2,
                flushed_after,
            )
            &&& r == init_outcome(config, self_test, port1, port2, reset1, reset2)
            &&& resets_valid(port1 == Some(0u8), port2 == Some(0u8), reset1, reset2)
            &&& !all_replied(config, self_test, port1, port2) ==> ends_idle(h1)
            &&& config is None ==> self_test is None
            &&& self_test is None ==> port1 is None
            &&& port1 is None ==> port2 is None
            &&& k1 == detected_state(k0, port1)
            &&& m1 == detected_state(m0, port2)
        }
}

proof fn lemma_init_transcript(
    t0: Seq<Transfer>,
    t2: Seq<Transfer>,
    t3: Seq<Transfer>,
    t4: Seq<Transfer>,
    t5: Seq<Transfer>,
    t6: Seq<Transfer>,
    t7: Seq<Transfer>,
    t8: Seq<Transfer>,
    flushed: Seq<u8>,
    config: Option<u8>,
    self_test: Option<u8>,
    port1: Option<u8>,
    port2: Option<u8>,
    reset1: Seq<Option<u8>>,
    reset2: Seq<Option<u8>>,
    flushed_after: Seq<u8>,
)
    requires
        t2 == t0.push(Transfer::Sent { port: STATUS_COMMAND_PORT, value: 0xAD }).push(
            Transfer::Sent { port: STATUS_COMMAND_PORT, value: 0xA7 },
        ),
        t3 == t2 + received(flushed),
        t4 =~= t3 + config_transfers(config),
        t5 =~= t4 + (if config is Some { self_test_transfers(self_test) } else { seq![] }),
        t6 =~= t5 + (if config is Some && self_test is Some { discovery_transfers(port1, port2) } else { seq![] }),
        t7 =~= t6 + (if all_replied(config, self_test, port1, port2) {
            reset_transfers(port1 == Some(0u8), port2 == Some(0u8), reset1, reset2)
        } else {
            seq![]
        }),
        t8 =~= t7 + (if all_replied(config, self_test, port1, port2) && reset_outcome(
            port1 == Some(0u8),
            port2 == Some(0u8),
            reset1,
            reset2,
        ) is Ok {
            received(flushed_after)
        } else {
            seq![]
        }),
    ensures
        t8 == t0 + init_transfers(flushed, config, self_test, port1, port2, reset1, reset2, flushed_after),
{
    let head = seq![
        Transfer::Sent { port: STATUS_COMMAND_PORT, value: 0xAD },
        Transfer::Sent { port: STATUS_COMMAND_PORT, value: 0xA7 },
    ];
    assert(t2 =~= t0 + head);
    assert(t8 =~= t0 + init_transfers(flushed, config, self_test, port1, port2, reset1, reset2, flushed_after));
}

/// The PS/2 controller. It owns the port access and both devices, so that no two transactions
/// interleave on the hardware registers.
pub struct Controller<P: PortIo> {
    pub(crate) io: Ports<P>,
    pub(crate) keyboard: Keyboard,
    pub(crate) mouse: Mouse,
}

impl<P: PortIo> Controller<P> {
    pub closed spec fn spec_io(&self) -> Ports<P> {
        self.io
    }

    pub closed spec fn spec_keyboard(&self) -> Keyboard {
        self.keyboard
    }

    pub closed spec fn spec_mouse(&self) -> Mouse {
        self.mouse
    }

    /// The keyboard is on the first port and the mouse on the second.
    pub open spec fn wf(&self) -> bool {
        &&& self.spec_keyboard().spec_port() == DevicePort::One
        &&& self.spec_mouse().spec_port() == DevicePort::Two
    }

    /// The transfers made through this controller's port access so far.
    pub open spec fn spec_transfers(&self) -> Seq<Transfer> {
        transfers(self.spec_io().history())
    }

    pub open spec fn keyboard_state(&self) -> DeviceState {
        self.spec_keyboard().spec_state()
    }

    pub open spec fn mouse_state(&self) -> DeviceState {
        self.spec_mouse().spec_state()
    }

    /// A controller over `io`, with the keyboard on the first port and the mouse on the second,
    /// neither detected yet.
    pub fn new(io: P) -> (r: Controller<P>)
        ensures
            r.wf(),
            r.spec_io().spec_inner() == io,
            r.spec_transfers() == Seq::<Transfer>::empty(),
            r.keyboard_state() == DeviceState::Unavailable,
            r.mouse_state() == DeviceState::Unavailable,
            r.spec_keyboard().spec_port() == DevicePort::One,
            r.spec_mouse().spec_port() == DevicePort::Two,
            r.spec_keyboard().decoder() == crate::device::DecodeState::Idle,
    {
        let io = Ports::new(io);
        assert(transfers(io.history()) =~= Seq::<Transfer>::empty());
        Controller { io, keyboard: Keyboard::new(DevicePort::One), mouse: Mouse::new(DevicePort::Two) }
    }

    /// The keyboard, if one was detected.
    pub fn keyboard(&self) -> (r: Option<&Keyboard>)
        ensures
            r is Some == (self.keyboard_state() != DeviceState::Unavailable),
            r matches Some(k) ==> *k == self.spec_keyboard(),
    {
        if self.keyboard.state() != DeviceState::Unavailable {
            Some(&self.keyboard)
        } else {
            None
        }
    }

    /// The mouse, if one was detected.
    pub fn mouse(&self) -> (r: Option<&Mouse>)
        ensures
            r is Some == (self.mouse_state() != DeviceState::Unavailable),
            r matches Some(m) ==> *m == self.spec_mouse(),
    {
        if self.mouse.state() != DeviceState::Unavailable {
            Some(&self.mouse)
        } else {
            None
        }
    }

    /// The keyboard, mutably, if one was detected.
    pub fn keyboard_mut(&mut self) -> (r: Option<&mut Keyboard>)
        ensures
            r is Some == (old(self).keyboard_state() != DeviceState::Unavailable),
            r matches Some(k) ==> *k == old(self).spec_keyboard() && final(self).spec_keyboard() == *final(k),
            r is None ==> *final(self) == *old(self),
            final(self).spec_mouse() == old(self).spec_mouse(),
            final(self).spec_io() == old(self).spec_io(),
    {
        if self.keyboard.state() != DeviceState::Unavailable {
            Some(&mut self.keyboard)
        } else {
            None
        }
    }

    /// The mouse, mutably, if one was detected.
    pub fn mouse_mut(&mut self) -> (r: Option<&mut Mouse>)
        ensures
            r is Some == (old(self).mouse_state() != DeviceState::Unavailable),
            r matches Some(m) ==> *m == old(self).spec_mouse() && final(self).spec_mouse() == *final(m),
            r is None ==> *final(self) == *old(self),
            final(self).spec_keyboard() == old(self).spec_keyboard(),
            final(self).spec_io() == old(self).spec_io(),
    {
        if self.mouse.state() != DeviceState::Unavailable {
            Some(&mut self.mouse)
        } else {
            None
        }
    }

    /// The state of the device on `port`, if one was detected there.
    pub fn device(&self, port: DevicePort) -> (r: Option<DeviceState>)
        requires
            self.wf(),
        ensures
            port == DevicePort::One ==> r == if self.keyboard_state() == DeviceState::Unavailable {
                None
            } else {
                Some(self.keyboard_state())
            },
            port == DevicePort::Two ==> r == if self.mouse_state() == DeviceState::Unavailable {
                None
            } else {
                Some(self.mouse_state())
            },
    {
        let state = if self.keyboard.port() == port {
            self.keyboard.state()
        } else {
            self.mouse.state()
        };
        if state == DeviceState::Unavailable {
            None
        } else {
            Some(state)
        }
    }

    /// The platform's port access.
    pub fn io(&self) -> (r: &P)
        ensures
            *r == self.spec_io().spec_inner(),
    {
        self.io.inner()
    }

    /// The keyboard and the port access, borrowed together, so that the keyboard can be driven
    /// while the controller is held.
    pub fn keyboard_and_io(&mut self) -> (r: (&mut Keyboard, &mut Ports<P>))
        ensures
            *r.0 == old(self).spec_keyboard(),
            *r.1 == old(self).spec_io(),
            final(self).spec_keyboard() == *final(r.0),
            final(self).spec_io() == *final(r.1),
            final(self).spec_mouse() == old(self).spec_mouse(),
    {
        (&mut self.keyboard, &mut self.io)
    }

    /// Sends a controller command that has no reply.
    pub fn command(&mut self, cmd: ControllerCommand)
        ensures
            final(self).spec_transfers() == old(self).spec_transfers().push(
                Transfer::Sent { port: STATUS_COMMAND_PORT, value: cmd.spec_byte() },
            ),
            final(self).spec_keyboard() == old(self).spec_keyboard(),
            final(self).spec_mouse() == old(self).spec_mouse(),
    {
        io::write(&mut self.io, STATUS_COMMAND_PORT, cmd.byte());
    }

    /// Sends a controller command followed by its data byte.
    pub fn command_data(&mut self, cmd: ControllerDataCommand, data: u8)
        ensures
            final(self).spec_transfers() == old(self).spec_transfers().push(
                Transfer::Sent { port: STATUS_COMMAND_PORT, value: cmd.spec_byte() },
            ).push(Transfer::Sent { port: DATA_PORT, value: data }),
            final(self).spec_keyboard() == old(self).spec_keyboard(),
            final(self).spec_mouse() == old(self).spec_mouse(),
    {
        io::write(&mut self.io, STATUS_COMMAND_PORT, cmd.byte());
        io::write(&mut self.io, DATA_PORT, data);
    }

    /// Sends a controller command and returns its one-byte reply as it came;
    /// `ExpectedResponse` when the read timed out.
    pub fn command_ret(&mut self, cmd: ControllerReturnCommand) -> (r: Result<u8, Ps2Error>)
        ensures
            final(self).spec_transfers() == old(self).spec_transfers().push(
                Transfer::Sent { port: STATUS_COMMAND_PORT, value: cmd.spec_byte() },
            ) + reply_transfers(ok_reply(r)),
            r is Err ==> r == Err::<u8, Ps2Error>(Ps2Error::ExpectedResponse) && ends_idle(
                final(self).spec_io().history(),
            ),
            final(self).spec_keyboard() == old(self).spec_keyboard(),
            final(self).spec_mouse() == old(self).spec_mouse(),
    {
        io::write(&mut self.io, STATUS_COMMAND_PORT, cmd.byte());
        let ghost t1 = self.spec_transfers();
        let r = match io::read(&mut self.io) {
            Some(b) => Ok(b),
            None => Err(Ps2Error::ExpectedResponse),
        };
        assert(self.spec_transfers() =~= t1 + reply_transfers(ok_reply(r)));
        r
    }

    /// Reads the configuration byte; every bit is kept.
    pub fn config(&mut self) -> (r: Result<ConfigFlags, Ps2Error>)
        ensures
            r matches Ok(c) ==> final(self).spec_transfers() == old(self).spec_transfers().push(
                Transfer::Sent { port: STATUS_COMMAND_PORT, value: 0x20 },
            ).push(Transfer::Received { value: c.spec_bits() }),
            r is Err ==> r == Err::<ConfigFlags, Ps2Error>(Ps2Error::ExpectedResponse)
                && final(self).spec_transfers() == old(self).spec_transfers().push(
                Transfer::Sent { port: STATUS_COMMAND_PORT, value: 0x20 },
            ) && ends_idle(final(self).spec_io().history()),
            final(self).spec_keyboard() == old(self).spec_keyboard(),
            final(self).spec_mouse() == old(self).spec_mouse(),
    {
        let ghost t0 = self.spec_transfers();
        let read = self.command_ret(ControllerReturnCommand::ReadConfig);
        match read {
            Ok(b) => {
                assert(self.spec_transfers() =~= t0.push(Transfer::Sent { port: STATUS_COMMAND_PORT, value: 0x20 }).push(
                    Transfer::Received { value: b },
                ));
                Ok(ConfigFlags::from_bits(b))
            },
            Err(e) => {
                assert(self.spec_transfers() =~= t0.push(Transfer::Sent { port: STATUS_COMMAND_PORT, value: 0x20 }));
                Err(e)
            },
        }
    }

    /// Writes the configuration byte.
    pub fn set_config(&mut self, config: ConfigFlags)
        ensures
            final(self).spec_transfers() == old(self).spec_transfers().push(
                Transfer::Sent { port: STATUS_COMMAND_PORT, value: 0x60 },
            ).push(Transfer::Sent { port: DATA_PORT, value: config.spec_bits() }),
            final(self).spec_keyboard() == old(self).spec_keyboard(),
            final(self).spec_mouse() == old(self).spec_mouse(),
    {
        self.command_data(ControllerDataCommand::WriteConfig, config.bits())
    }

    /// Reads the configuration, turns off both ports' interrupts and translation, and writes
    /// it back.
    fn initialize_config(&mut self) -> (r: Result<(), Ps2Error>)
        ensures
            exists|config: Option<u8>|
                #[trigger] config_initialized(old(self).spec_transfers(), final(self).spec_transfers(), config)
                    && (r is Ok <==> config is Some),
            r is Err ==> r == Err::<(), Ps2Error>(Ps2Error::ExpectedResponse) && ends_idle(
                final(self).spec_io().history(),
            ),
            final(self).spec_keyboard() == old(self).spec_keyboard(),
            final(self).spec_mouse() == old(self).spec_mouse(),
    {
        let ghost t0 = self.spec_transfers();
        let mut config = match self.config() {
            Ok(c) => c,
            Err(e) => {
                assert(self.spec_transfers() =~= t0 + config_transfers(None));
                assert(config_initialized(t0, self.spec_transfers(), None));
                return Err(e);
            },
        };
        let ghost read = config.spec_bits();
        config.set(PORT_INTERRUPT_1, false);
        config.set(PORT_INTERRUPT_2, false);
        config.set(PORT_TRANSLATION_1, false);
        proof {
            assert(forall|b: u8| b & !1u8 & !2u8 & !0x40u8 == b & !(1u8 | 2u8 | 0x40u8)) by (bit_vector);
        }
        self.set_config(config);
        assert(self.spec_transfers() =~= t0 + config_transfers(Some(read)));
        assert(config_initialized(t0, self.spec_transfers(), Some(read)));
        Ok(())
    }

    /// Runs the controller's self-test; returns whether it passed.
    fn test_controller(&mut self) -> (r: Result<bool, Ps2Error>)
        ensures
            final(self).spec_transfers() == old(self).spec_transfers() + self_test_transfers(
                test_reply(r, final(self).spec_transfers()),
            ),
            r matches Ok(passed) ==> passed == (last_received(final(self).spec_transfers())
                == CONTROLLER_TEST_PASSED),
            r is Err ==> r == Err::<bool, Ps2Error>(Ps2Error::ExpectedResponse) && ends_idle(
                final(self).spec_io().history(),
            ),
            final(self).spec_keyboard() == old(self).spec_keyboard(),
            final(self).spec_mouse() == old(self).spec_mouse(),
    {
        let ghost t0 = self.spec_transfers();
        let reply = self.command_ret(ControllerReturnCommand::TestController);
        assert(self.spec_transfers() =~= t0 + self_test_transfers(ok_reply(reply)));
        match reply {
            Ok(b) => Ok(b == CONTROLLER_TEST_PASSED),
            Err(e) => Err(e),
        }
    }

    /// Tests both ports for a device; returns how many are present. The second port is tested
    /// only once the first replied.
    fn discover_devices(&mut self) -> (r: Result<u8, Ps2Error>)
        requires
            old(self).wf(),
        ensures
            final(self).wf(),
            exists|port1: Option<u8>, port2: Option<u8>|
                #[trigger] discovered(old(self).spec_transfers(), final(self).spec_transfers(), port1, port2)
                    && r == discovery_outcome(port1, port2)
                    && final(self).keyboard_state() == after_test(old(self).keyboard_state(), port1)
                    && final(self).mouse_state() == after_test(old(self).mouse_state(), port2),
            r is Err ==> ends_idle(final(self).spec_io().history()),
    {
        let ghost t0 = self.spec_transfers();
        let first = self.keyboard.test(&mut self.io);
        let ghost t1 = self.spec_transfers();
        let ghost p1: Option<u8> = match first {
            Ok(_) => Some(last_received(t1)),
            Err(_) => None,
        };
        proof {
            assert(t1 =~= t0 + seq![Transfer::Sent { port: STATUS_COMMAND_PORT, value: 0xAB }] + reply_transfers(p1));
        }
        let a = match first {
            Ok(a) => a,
            Err(e) => {
                assert(discovered(t0, t1, None, None));
                return Err(e);
            },
        };
        let second = self.mouse.test(&mut self.io);
        let ghost p2: Option<u8> = match second {
            Ok(_) => Some(last_received(self.spec_transfers())),
            Err(_) => None,
        };
        proof {
            assert(self.spec_transfers() =~= t0 + discovery_transfers(p1, p2));
            assert(discovered(t0, self.spec_transfers(), p1, p2));
        }
        let b = second?;
        let mut n: u8 = 0;
        if a {
            n = n + 1;
        }
        if b {
            n = n + 1;
        }
        Ok(n)
    }

    /// Resets every present device, keyboard first, stopping at the first failure.
    fn reset_devices(&mut self) -> (r: Result<(), Ps2Error>)
        requires
            old(self).wf(),
        ensures
            final(self).wf(),
            final(self).spec_keyboard() == old(self).spec_keyboard(),
            final(self).spec_mouse() == old(self).spec_mouse(),
            exists|reset1: Seq<Option<u8>>, reset2: Seq<Option<u8>>|
                #[trigger] devices_reset(
                    old(self).spec_transfers(),
                    final(self).spec_transfers(),
                    old(self).keyboard_state(),
                    old(self).mouse_state(),
                    reset1,
                    reset2,
                ) && r == reset_outcome(
                    old(self).keyboard_state() != DeviceState::Unavailable,
                    old(self).mouse_state() != DeviceState::Unavailable,
                    reset1,
                    reset2,
                ),
    {
        let ghost t0 = self.spec_transfers();
        let ghost kp = self.keyboard.spec_state() != DeviceState::Unavailable;
        let ghost mp = self.mouse.spec_state() != DeviceState::Unavailable;
        let ghost mut reset1: Seq<Option<u8>> = seq![Some(ACK)];
        let ghost mut reset2: Seq<Option<u8>> = seq![Some(ACK)];
        if self.keyboard.state() != DeviceState::Unavailable {
            let r = self.keyboard.reset(&mut self.io);
            proof {
                reset1 = choose|replies: Seq<Option<u8>>| #[trigger] exchanged(t0, self.spec_transfers(), self.keyboard.spec_port(), 0xFF, replies) && r == ack_outcome(replies);
            }
            if r.is_err() {
                proof {
                    assert(self.spec_transfers() =~= t0 + reset_transfers(kp, mp, reset1, reset2));
                    assert(devices_reset(t0, self.spec_transfers(), self.keyboard.spec_state(), self.mouse.spec_state(), reset1, reset2));
                }
                return r;
            }
        }
        let ghost t1 = self.spec_transfers();
        if self.mouse.state() != DeviceState::Unavailable {
            let r = self.mouse.reset(&mut self.io);
            proof {
                reset2 = choose|replies: Seq<Option<u8>>| #[trigger] exchanged(t1, self.spec_transfers(), self.mouse.spec_port(), 0xFF, replies) && r == ack_outcome(replies);
                assert(self.spec_transfers() =~= t0 + reset_transfers(kp, mp, reset1, reset2));
                assert(devices_reset(t0, self.spec_transfers(), self.keyboard.spec_state(), self.mouse.spec_state(), reset1, reset2));
            }
            return r;
        }
        proof {
            assert(self.spec_transfers() =~= t0 + reset_transfers(kp, mp, reset1, reset2));
            assert(devices_reset(t0, self.spec_transfers(), self.keyboard.spec_state(), self.mouse.spec_state(), reset1, reset2));
        }
        Ok(())
    }

    /// Initialises the controller and its devices: disables both ports, flushes the output
    /// buffer, turns off interrupts and translation, runs the controller self-test (a failure
    /// is reported, and does not stop the sequence), tests both ports for a device (an absent
    /// device is no error), resets every device found, keyboard first, and flushes again.
    /// A controller command without a reply ends the sequence with `ExpectedResponse`, and the
    /// first failed reset ends it with its error.
    pub fn initialize(&mut self) -> (r: Result<InitReport, Ps2Error>)
        requires
            old(self).wf(),
        ensures
            final(self).wf(),
            final(self).keyboard_state() != DeviceState::Enabled,
            final(self).mouse_state() != DeviceState::Enabled,
            initialized(
                final(self).spec_io().history(),
                old(self).spec_transfers(),
                final(self).spec_transfers(),
                old(self).keyboard_state(),
                old(self).mouse_state(),
                final(self).keyboard_state(),
                final(self).mouse_state(),
                r,
            ),
    {
        let ghost t0 = self.spec_transfers();
        let ghost k0 = self.keyboard_state();
        let ghost m0 = self.mouse_state();
        self.keyboard.disable(&mut self.io);
        self.mouse.disable(&mut self.io);
        let ghost t2 = self.spec_transfers();
        self.flush();
        let ghost t3 = self.spec_transfers();
        let ghost flushed = choose|bytes: Seq<u8>| t3 == t2 + #[trigger] received(bytes);
        let ghost none_r: Seq<Option<u8>> = seq![Some(ACK)];
        let configured = self.initialize_config();
        let ghost config = choose|config: Option<u8>| #[trigger] config_initialized(t3, self.spec_transfers(), config)
            && (configured is Ok <==> config is Some);
        if let Err(e) = configured {
            proof {
                let t = self.spec_transfers();
                lemma_init_transcript(t0, t2, t3, t, t, t, t, t, flushed, config, None, None, None, none_r, none_r, seq![]);
                assert(initialized(self.spec_io().history(), t0, self.spec_transfers(), k0, m0, self.keyboard_state(), self.mouse_state(), Err(e)));
            }
            return Err(e);
        }
        let ghost t4 = self.spec_transfers();
        let tested = self.test_controller();
        let ghost self_test = test_reply(tested, self.spec_transfers());
        let passed = match tested {
            Ok(p) => p,
            Err(e) => {
                proof {
                    let t = self.spec_transfers();
                    lemma_init_transcript(t0, t2, t3, t4, t, t, t, t, flushed, config, self_test, None, None, none_r, none_r, seq![]);
                    assert(initialized(self.spec_io().history(), t0, self.spec_transfers(), k0, m0, self.keyboard_state(), self.mouse_state(), Err(e)));
                }
                return Err(e);
            },
        };
        let ghost t5 = self.spec_transfers();
        let ghost k5 = self.keyboard_state();
        let ghost m5 = self.mouse_state();
        let found = self.discover_devices();
        let ghost (port1, port2) = choose|port1: Option<u8>, port2: Option<u8>| #[trigger] discovered(t5, self.spec_transfers(), port1, port2)
            && found == discovery_outcome(port1, port2)
            && self.keyboard_state() == after_test(k5, port1)
            && self.mouse_state() == after_test(m5, port2);
        let n = match found {
            Ok(n) => n,
            Err(e) => {
                proof {
                    let t = self.spec_transfers();
                    lemma_init_transcript(t0, t2, t3, t4, t5, t, t, t, flushed, config, self_test, port1, port2, none_r, none_r, seq![]);
                    assert(initialized(self.spec_io().history(), t0, self.spec_transfers(), k0, m0, self.keyboard_state(), self.mouse_state(), Err(e)));
                }
                return Err(e);
            },
        };
        let ghost t6 = self.spec_transfers();
        let ghost k6 = self.keyboard_state();
        let ghost m6 = self.mouse_state();
        let reset = self.reset_devices();
        let ghost (reset1, reset2) = choose|reset1: Seq<Option<u8>>, reset2: Seq<Option<u8>>| #[trigger] devices_reset(
            t6, self.spec_transfers(), k6, m6, reset1, reset2)
            && reset == reset_outcome(k6 != DeviceState::Unavailable, m6 != DeviceState::Unavailable, reset1, reset2);
        if let Err(e) = reset {
            proof {
                let t = self.spec_transfers();
                lemma_init_transcript(t0, t2, t3, t4, t5, t6, t, t, flushed, config, self_test, port1, port2, reset1, reset2, seq![]);
                assert(initialized(self.spec_io().history(), t0, self.spec_transfers(), k0, m0, self.keyboard_state(), self.mouse_state(), Err(e)));
            }
            return Err(e);
        }
        let ghost t7 = self.spec_transfers();
        self.flush();
        let ghost flushed_after = choose|bytes: Seq<u8>| self.spec_transfers() == t7 + #[trigger] received(bytes);
        let report = InitReport { devices: n, self_test_passed: passed };
        proof {
            lemma_init_transcript(t0, t2, t3, t4, t5, t6, t7, self.spec_transfers(), flushed, config, self_test, port1, port2, reset1, reset2, flushed_after);
            assert(initialized(self.spec_io().history(), t0, self.spec_transfers(), k0, m0, self.keyboard_state(), self.mouse_state(), Ok(report)));
        }
        Ok(report)
    }

    /// Drains the output buffer.
    fn flush(&mut self)
        ensures
            final(self).spec_io().history().subrange(0, old(self).spec_io().history().len() as int)
                == old(self).spec_io().history(),
            exists|bytes: Seq<u8>|
                {
                    &&& final(self).spec_transfers() == old(self).spec_transfers() + #[trigger] received(bytes)
                    &&& bytes.len() == WAIT_TIMEOUT || (final(self).spec_io().history().len()
                        > old(self).spec_io().history().len() && status_at(
                        final(self).spec_io().history(),
                        final(self).spec_io().history().len() - 1,
                    ) && !output_full(op_value(final(self).spec_io().history().last())))
                },
            final(self).spec_keyboard() == old(self).spec_keyboard(),
            final(self).spec_mouse() == old(self).spec_mouse(),
    {
        io::flush_output(&mut self.io);
    }
}

} // verus!
