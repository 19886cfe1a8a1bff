//! The keyboard driver: turns scancodes into key events, tracking which keys are held and which
//! modifiers are active.

use vstd::prelude::*;
use crate::controller::{Controller, Ps2Error};
use crate::device::{
    DecodeState, Device, DevicePort, DeviceState, Scancode, Scanset, scanned, data_exchanged, data_outcome,
    exchanged, ack_outcome, enable_byte, disable_byte, disabled_state,
};
use crate::io::{PortIo, PortOp, Ports, Transfer, transfers, STATUS_COMMAND_PORT};
use crate::keymap::{
    Keycode, get_code_ps2_set_2, get_extended_code_ps2_set_2, get_us_qwerty_char, set2_code,
    set2_extended_code, us_qwerty_chars, LEFT_ALT, LEFT_CONTROL, LEFT_SHIFT, RIGHT_ALT,
    RIGHT_CONTROL, RIGHT_SHIFT,
};

verus! {

/// Modifier bit: a CTRL key is held.
pub const CTRL: u8 = 0x01;

/// Modifier bit: an ALT key is held.
pub const ALT: u8 = 0x02;

/// Modifier bit: a SHIFT key is held.
pub const SHIFT: u8 = 0x04;

/// The modifiers held when a key event happened.
#[derive(PartialEq, Eq, Structural, Clone, Copy, Debug)]
pub struct ModifierFlags {
    bits: u8,
}

pub open spec fn modifier_bits(ctrl: bool, alt: bool, shift: bool) -> u8 {
    ((if ctrl { 1int } else { 0int }) + (if alt { 2int } else { 0int }) + (if shift { 4int } else { 0int })) as u8
}

impl ModifierFlags {
    pub closed spec fn spec_bits(self) -> u8 {
        self.bits
    }

    /// The flags with CTRL, ALT and SHIFT set as given.
    pub fn from_modifiers(ctrl: bool, alt: bool, shift: bool) -> (r: ModifierFlags)
        ensures
            r.spec_bits() == modifier_bits(ctrl, alt, shift),
    {
        let mut bits: u8 = 0;
        if ctrl {
            bits = bits + CTRL;
        }
        if alt {
            bits = bits + ALT;
        }
        if shift {
            bits = bits + SHIFT;
        }
        ModifierFlags { bits }
    }

    /// No modifier.
    pub fn empty() -> (r: ModifierFlags)
        ensures
            r.spec_bits() == 0,
    {
        ModifierFlags { bits: 0 }
    }

    /// The flags as a byte.
    pub fn bits(&self) -> (r: u8)
        ensures
            r == self.spec_bits(),
    {
        self.bits
    }

    /// Whether every bit of `flags` is set.
    pub fn contains(&self, flags: u8) -> (r: bool)
        ensures
            r == (self.spec_bits() & flags == flags),
    {
        self.bits & flags == flags
    }
}

/// Each modifier bit of `modifier_bits` is set exactly when its modifier is.
pub proof fn lemma_modifier_bits(ctrl: bool, alt: bool, shift: bool)
    ensures
        (modifier_bits(ctrl, alt, shift) & CTRL == CTRL) == ctrl,
        (modifier_bits(ctrl, alt, shift) & ALT == ALT) == alt,
        (modifier_bits(ctrl, alt, shift) & SHIFT == SHIFT) == shift,
{
    let b = modifier_bits(ctrl, alt, shift);
    assert(forall|x: u8| x < 8 ==> ((x & 1u8 == 1u8) == (x % 2 == 1))) by (bit_vector);
    assert(forall|x: u8| x < 8 ==> ((x & 2u8 == 2u8) == ((x / 2) % 2 == 1))) by (bit_vector);
    assert(forall|x: u8| x < 8 ==> ((x & 4u8 == 4u8) == (x / 4 == 1))) by (bit_vector);
}

/// The kind of a key event.
#[derive(PartialEq, Eq, Structural, Clone, Copy, Debug)]
pub enum KeyEventType {
    /// The key was pressed.
    Make,
    /// The key was released.
    Break,
    /// The key is held down and the keyboard repeated it.
    Repeat,
}

/// A key event: the key, the character it types (if any), the kind of event and the modifiers
/// held.
#[derive(PartialEq, Eq, Structural, Clone, Copy, Debug)]
pub struct KeyEvent {
    pub keycode: Keycode,
    pub char: Option<char>,
    pub event_type: KeyEventType,
    pub modifiers: ModifierFlags,
}

/// An error of the PS/2 keyboard driver.
#[derive(PartialEq, Eq, Structural, Clone, Copy, Debug)]
pub enum Ps2KeyboardError {
    /// An error while talking to the keyboard.
    Ps2Error(Ps2Error),
    /// The keyboard is not enabled.
    KeyboardNotEnabled,
}

pub open spec fn keyboard_error(error: Ps2Error) -> Ps2KeyboardError {
    match error {
        Ps2Error::DeviceDisabled => Ps2KeyboardError::KeyboardNotEnabled,
        other => Ps2KeyboardError::Ps2Error(other),
    }
}

impl From<Ps2Error> for Ps2KeyboardError {
    fn from(error: Ps2Error) -> (r: Ps2KeyboardError) {
        match error {
            Ps2Error::DeviceDisabled => Ps2KeyboardError::KeyboardNotEnabled,
            other => Ps2KeyboardError::Ps2Error(other),
        }
    }
}

impl vstd::std_specs::convert::FromSpecImpl<Ps2Error> for Ps2KeyboardError {
    open spec fn obeys_from_spec() -> bool {
        true
    }

    open spec fn from_spec(v: Ps2Error) -> Ps2KeyboardError {
        keyboard_error(v)
    }
}

/// A scancode that no keymap entry covers.
#[derive(PartialEq, Eq, Structural, Clone, Copy, Debug)]
pub enum UnknownScancode {
    UnknownPlainScancode(u8),
    UnknownExtendedScancode(u8),
}

/// The keycode value of a scancode: from the extended table for an extended scancode, from the
/// plain table otherwise.
pub open spec fn keycode_of(scancode: Scancode) -> Option<u8> {
    if scancode.extended {
        set2_extended_code(scancode.code)
    } else {
        set2_code(scancode.code)
    }
}

impl Keycode {
    /// The keycode of a scan set 2 scancode.
    pub fn try_from(scancode: Scancode) -> (r: Result<Keycode, UnknownScancode>)
        ensures
            r matches Ok(k) ==> keycode_of(scancode) == Some(k.spec_value()),
            r is Err ==> keycode_of(scancode) is None,
            r matches Err(e) ==> e == if scancode.extended {
                UnknownScancode::UnknownExtendedScancode(scancode.code)
            } else {
                UnknownScancode::UnknownPlainScancode(scancode.code)
            },
    {
        let converted = if !scancode.extended {
            get_code_ps2_set_2(scancode.code)
        } else {
            get_extended_code_ps2_set_2(scancode.code)
        };
        match converted {
            Some(keycode) => Ok(keycode),
            None => if scancode.extended {
                Err(UnknownScancode::UnknownExtendedScancode(scancode.code))
            } else {
                Err(UnknownScancode::UnknownPlainScancode(scancode.code))
            },
        }
    }
}

/// Whether key `k` is held in the table `held`; keys beyond the table are not.
pub open spec fn held_at(held: Seq<bool>, k: u8) -> bool {
    k < held.len() && held[k as int]
}

pub open spec fn ctrl_held(held: Seq<bool>) -> bool {
    held_at(held, LEFT_CONTROL) || held_at(held, RIGHT_CONTROL)
}

pub open spec fn alt_held(held: Seq<bool>) -> bool {
    held_at(held, LEFT_ALT) || held_at(held, RIGHT_ALT)
}

pub open spec fn shift_held(held: Seq<bool>) -> bool {
    held_at(held, LEFT_SHIFT) || held_at(held, RIGHT_SHIFT)
}

/// The character key `k` types, shifted or not.
pub open spec fn char_for(k: u8, shift: bool) -> Option<char> {
    match us_qwerty_chars(k) {
        Some(chars) => Some(if shift { chars.1 } else { chars.0 }),
        None => None,
    }
}

/// Break for a release; Repeat for a press of a key already held; Make for a fresh press.
pub open spec fn event_type_for(held: Seq<bool>, k: u8, make: bool) -> KeyEventType {
    if !make {
        KeyEventType::Break
    } else if held_at(held, k) {
        KeyEventType::Repeat
    } else {
        KeyEventType::Make
    }
}

/// `event` is the event of `scancode` when `held` are the keys held before it: none for a
/// scancode without a keycode.
pub open spec fn is_event_for(held: Seq<bool>, scancode: Scancode, event: Option<KeyEvent>) -> bool {
    match keycode_of(scancode) {
        None => event is None,
        Some(k) => event matches Some(e) && e.keycode.spec_value() == k && e.char == char_for(
            k,
            shift_held(held),
        ) && e.event_type == event_type_for(held, k, scancode.make) && e.modifiers.spec_bits()
            == modifier_bits(ctrl_held(held), alt_held(held), shift_held(held)),
    }
}

/// The held keys after `scancode`: its key is held exactly when the scancode is a press.
pub open spec fn held_after(held: Seq<bool>, scancode: Scancode) -> Seq<bool> {
    match keycode_of(scancode) {
        Some(k) => if k < held.len() {
            held.update(k as int, scancode.make)
        } else {
            held
        },
        None => held,
    }
}

/// The number of entries of the held-key table: one for every keycode value.
pub const KEY_COUNT: usize = 256;

/// `after` is `before` followed by the transfers of a keyboard setup: the scan set 2 command
/// with its data (replies `set_cmd`, `set_data`), then, if that succeeded, enable scanning
/// (replies `scan`); `mid` is where the first part ends.
pub open spec fn setup_exchanged(
    before: Seq<Transfer>,
    mid: Seq<Transfer>,
    after: Seq<Transfer>,
    port: DevicePort,
    set_cmd: Seq<Option<u8>>,
    set_data: Seq<Option<u8>>,
    scan: Seq<Option<u8>>,
) -> bool {
    &&& data_exchanged(before, mid, port, 0xF0, 2, set_cmd, set_data)
    &&& data_outcome(set_cmd, set_data) is Ok ==> exchanged(mid, after, port, 0xF4, scan)
    &&& !(data_outcome(set_cmd, set_data) is Ok) ==> after == mid
}

pub open spec fn setup_outcome(
    set_cmd: Seq<Option<u8>>,
    set_data: Seq<Option<u8>>,
    scan: Seq<Option<u8>>,
) -> Result<(), Ps2KeyboardError> {
    match data_outcome(set_cmd, set_data) {
        Err(e) => Err(keyboard_error(e)),
        Ok(_) => match ack_outcome(scan) {
            Err(e) => Err(keyboard_error(e)),
            Ok(_) => Ok(()),
        },
    }
}

/// Enables the keyboard's port, selects scan set 2 and enables scanning.
fn setup_keyboard<P: PortIo>(keyboard: &mut crate::device::Keyboard, io: &mut Ports<P>) -> (r: Result<(), Ps2KeyboardError>)
    ensures
        final(keyboard).spec_port() == old(keyboard).spec_port(),
        old(keyboard).spec_state() == DeviceState::Unavailable ==> r == Err::<(), Ps2KeyboardError>(
            Ps2KeyboardError::Ps2Error(Ps2Error::DeviceUnavailable),
        ) && final(io).history() == old(io).history()
            && final(keyboard).spec_state() == DeviceState::Unavailable,
        old(keyboard).spec_state() != DeviceState::Unavailable ==> final(keyboard).spec_state()
            == DeviceState::Enabled && keyboard_set_up(
            transfers(old(io).history()),
            transfers(final(io).history()),
            old(keyboard).spec_port(),
            r,
        ),
{
    match keyboard.enable(io) {
        Err(e) => {
            return Err(Ps2KeyboardError::from(e));
        },
        Ok(()) => {},
    }
    let ghost t1 = transfers(io.history());
    let set = keyboard.set_scanset(io, Scanset::Two);
    let ghost t2 = transfers(io.history());
    match set {
        Err(e) => {
            proof {
                let (c, d) = choose|c: Seq<Option<u8>>, d: Seq<Option<u8>>| #[trigger] data_exchanged(t1, t2, keyboard.spec_port(), 0xF0, 2, c, d) && set == data_outcome(c, d);
                assert(setup_exchanged(t1, t2, t2, keyboard.spec_port(), c, d, seq![]));
            }
            return Err(Ps2KeyboardError::from(e));
        },
        Ok(()) => {},
    }
    let scan = keyboard.enable_scanning(io);
    proof {
        let (c, d) = choose|c: Seq<Option<u8>>, d: Seq<Option<u8>>| #[trigger] data_exchanged(t1, t2, keyboard.spec_port(), 0xF0, 2, c, d) && set == data_outcome(c, d);
        let e = choose|e: Seq<Option<u8>>| #[trigger] exchanged(t2, transfers(io.history()), keyboard.spec_port(), 0xF4, e) && scan == ack_outcome(e);
        assert(setup_exchanged(t1, t2, transfers(io.history()), keyboard.spec_port(), c, d, e));
    }
    match scan {
        Err(e) => Err(Ps2KeyboardError::from(e)),
        Ok(()) => Ok(()),
    }
}

/// `after` is `before` followed by the keyboard setup on `port`: enabling the port, then
/// `setup_exchanged`; `r` is its outcome.
pub open spec fn keyboard_set_up(before: Seq<Transfer>, after: Seq<Transfer>, port: DevicePort, r: Result<(), Ps2KeyboardError>) -> bool {
    exists|mid: Seq<Transfer>, set_cmd: Seq<Option<u8>>, set_data: Seq<Option<u8>>, scan: Seq<Option<u8>>|
        #[trigger] setup_exchanged(
            before.push(Transfer::Sent { port: STATUS_COMMAND_PORT, value: enable_byte(port) }),
            mid,
            after,
            port,
            set_cmd,
            set_data,
            scan,
        ) && r == setup_outcome(set_cmd, set_data, scan)
}

/// The event that a call of `read_scancode` returning `scanned` leads to, with `held0` the keys
/// held before and `held1` after.
pub open spec fn event_from(
    scanned: Result<Option<Scancode>, Ps2Error>,
    held0: Seq<bool>,
    held1: Seq<bool>,
    r: Result<Option<KeyEvent>, Ps2KeyboardError>,
) -> bool {
    match scanned {
        Err(e) => r == Err::<Option<KeyEvent>, Ps2KeyboardError>(keyboard_error(e)) && held1 == held0,
        Ok(None) => r == Ok::<Option<KeyEvent>, Ps2KeyboardError>(None) && held1 == held0,
        Ok(Some(sc)) => r matches Ok(out) && is_event_for(held0, sc, out) && held1 == held_after(
            held0,
            sc,
        ),
    }
}

/// One call of `read_event`: the port history went from `h0` to `h1` as in one call of
/// `read_scancode` (decoder from `d0` to `d1`), and its scancode, if any, became the event.
pub open spec fn event_read(
    h0: Seq<PortOp>,
    h1: Seq<PortOp>,
    d0: DecodeState,
    d1: DecodeState,
    held0: Seq<bool>,
    held1: Seq<bool>,
    r: Result<Option<KeyEvent>, Ps2KeyboardError>,
) -> bool {
    exists|bytes: Seq<u8>, sc: Result<Option<Scancode>, Ps2Error>|
        #[trigger] scanned(h0, h1, d0, d1, bytes, sc) && event_from(sc, held0, held1, r)
}

/// A keyboard driver.
pub trait Keyboard {
    /// Enables the keyboard and prepares it for use.
    fn enable<P: PortIo>(&mut self, controller: &mut Controller<P>) -> Result<(), Ps2KeyboardError>;

    /// Disables the keyboard; it must not be used until enabled again.
    fn disable<P: PortIo>(&mut self, controller: &mut Controller<P>) -> Result<(), Ps2KeyboardError>;

    /// Polls for the next key event; `None` when none happened since the last poll.
    fn read_event<P: PortIo>(&mut self, controller: &mut Controller<P>) -> Result<Option<KeyEvent>, Ps2KeyboardError>;

    /// Whether the key is held down.
    fn pressed(&self, keycode: Keycode) -> bool;
}

/// The driver of a PS/2 keyboard: it keeps a table of the keys held.
pub struct Ps2Keyboard {
    key_states: Vec<bool>,
}

impl Ps2Keyboard {
    /// The keys held, indexed by keycode value.
    pub closed spec fn held(&self) -> Seq<bool> {
        self.key_states@
    }

    /// The table has one entry for every keycode value.
    pub open spec fn wf(&self) -> bool {
        self.held().len() == KEY_COUNT
    }

    /// A driver with no key held.
    pub fn new() -> (r: Ps2Keyboard)
        ensures
            r.wf(),
            forall|i: int| 0 <= i < KEY_COUNT ==> !r.held()[i],
    {
        let mut key_states: Vec<bool> = Vec::new();
        while key_states.len() < KEY_COUNT
            invariant
                key_states@.len() <= KEY_COUNT,
                forall|i: int| 0 <= i < key_states@.len() ==> !key_states@[i],
            decreases KEY_COUNT - key_states@.len(),
        {
            key_states.push(false);
        }
        Ps2Keyboard { key_states }
    }

    fn is_held(&self, keycode: u8) -> (r: bool)
        ensures
            r == held_at(self.held(), keycode),
    {
        (keycode as usize) < self.key_states.len() && self.key_states[keycode as usize]
    }

    /// The event of `scancode`, given the keys held now; `None` for a scancode that the keymap
    /// does not know.
    pub fn create_event(&self, scancode: &Scancode) -> (r: Option<KeyEvent>)
        ensures
            is_event_for(self.held(), *scancode, r),
    {
        let ctrl = self.is_held(LEFT_CONTROL) || self.is_held(RIGHT_CONTROL);
        let alt = self.is_held(LEFT_ALT) || self.is_held(RIGHT_ALT);
        let shift = self.is_held(LEFT_SHIFT) || self.is_held(RIGHT_SHIFT);
        let modifiers = ModifierFlags::from_modifiers(ctrl, alt, shift);
        match Keycode::try_from(*scancode) {
            Ok(keycode) => {
                let char = match get_us_qwerty_char(keycode) {
                    Some(chars) => Some(if shift { chars.1 } else { chars.0 }),
                    None => None,
                };
                let event_type = if !scancode.make {
                    KeyEventType::Break
                } else if self.is_held(keycode.value()) {
                    KeyEventType::Repeat
                } else {
                    KeyEventType::Make
                };
                Some(KeyEvent { keycode, char, event_type, modifiers })
            },
            Err(_) => None,
        }
    }

    /// The event of `scancode`; then records whether its key is held. The event is classified
    /// against the keys held before the scancode.
    pub fn process_scancode(&mut self, scancode: &Scancode) -> (r: Option<KeyEvent>)
        ensures
            is_event_for(old(self).held(), *scancode, r),
            final(self).held() == held_after(old(self).held(), *scancode),
            final(self).held().len() == old(self).held().len(),
    {
        let event = self.create_event(scancode);
        if let Some(e) = event {
            let k = e.keycode.value() as usize;
            if k < self.key_states.len() {
                self.key_states.set(k, scancode.make);
            }
        }
        event
    }
}

impl Keyboard for Ps2Keyboard {
    /// Enables the keyboard's port, selects scan set 2 and enables scanning.
    fn enable<P: PortIo>(&mut self, controller: &mut Controller<P>) -> (r: Result<(), Ps2KeyboardError>)
        ensures
            final(self).held() == old(self).held(),
            final(controller).spec_keyboard().spec_port() == old(controller).spec_keyboard().spec_port(),
            final(controller).spec_mouse() == old(controller).spec_mouse(),
            old(controller).keyboard_state() == DeviceState::Unavailable ==> r == Err::<(), Ps2KeyboardError>(
                Ps2KeyboardError::Ps2Error(Ps2Error::DeviceUnavailable),
            ) && final(controller).spec_transfers() == old(controller).spec_transfers()
                && final(controller).keyboard_state() == DeviceState::Unavailable,
            old(controller).keyboard_state() != DeviceState::Unavailable ==> final(controller).keyboard_state()
                == DeviceState::Enabled,
            old(controller).keyboard_state() != DeviceState::Unavailable ==> keyboard_set_up(
                old(controller).spec_transfers(),
                final(controller).spec_transfers(),
                old(controller).spec_keyboard().spec_port(),
                r,
            ),
    {
        let (keyboard, io) = controller.keyboard_and_io();
        setup_keyboard(keyboard, io)
    }

    /// Disables the keyboard's port.
    fn disable<P: PortIo>(&mut self, controller: &mut Controller<P>) -> (r: Result<(), Ps2KeyboardError>)
        ensures
            r is Ok,
            final(self).held() == old(self).held(),
            final(controller).spec_mouse() == old(controller).spec_mouse(),
            final(controller).spec_keyboard().spec_port() == old(controller).spec_keyboard().spec_port(),
            final(controller).keyboard_state() == disabled_state(old(controller).keyboard_state()),
            final(controller).spec_transfers() == old(controller).spec_transfers().push(
                Transfer::Sent {
                    port: STATUS_COMMAND_PORT,
                    value: disable_byte(old(controller).spec_keyboard().spec_port()),
                },
            ),
    {
        let (keyboard, io) = controller.keyboard_and_io();
        keyboard.disable(io);
        Ok(())
    }

    /// Reads the next scancode from the keyboard and turns it into an event.
    fn read_event<P: PortIo>(&mut self, controller: &mut Controller<P>) -> (r: Result<Option<KeyEvent>, Ps2KeyboardError>)
        ensures
            final(controller).spec_mouse() == old(controller).spec_mouse(),
            final(controller).spec_keyboard().spec_port() == old(controller).spec_keyboard().spec_port(),
            final(controller).keyboard_state() == old(controller).keyboard_state(),
            final(self).held().len() == old(self).held().len(),
            event_read(
                old(controller).spec_io().history(),
                final(controller).spec_io().history(),
                old(controller).spec_keyboard().decoder(),
                final(controller).spec_keyboard().decoder(),
                old(self).held(),
                final(self).held(),
                r,
            ),
    {
        let (keyboard, io) = controller.keyboard_and_io();
        let ghost h0 = io.history();
        let ghost d0 = keyboard.decoder();
        let ghost k0 = self.held();
        let scanned_r = keyboard.read_scancode(io);
        let r = match scanned_r {
            Err(e) => Err(Ps2KeyboardError::from(e)),
            Ok(None) => Ok(None),
            Ok(Some(scancode)) => Ok(self.process_scancode(&scancode)),
        };
        proof {
            let bytes = choose|bytes: Seq<u8>| #[trigger] scanned(h0, io.history(), d0, keyboard.decoder(), bytes, scanned_r);
            assert(event_from(scanned_r, k0, self.held(), r));
            assert(scanned(h0, io.history(), d0, keyboard.decoder(), bytes, scanned_r));
        }
        r
    }

    /// Whether the key is held down.
    fn pressed(&self, keycode: Keycode) -> (r: bool)
        ensures
            r == held_at(self.held(), keycode.spec_value()),
    {
        self.is_held(keycode.value())
    }
}

} // verus!
