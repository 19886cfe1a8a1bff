//! Keycodes and the keymaps: scan set 2 codes to keycodes, and keycodes to the characters of
//! the US QWERTY layout.
//!
//! A keycode names a key by its position on a reference keyboard, row and column, whatever the
//! scan set or the national layout: the key left of `W` is `A` on every layout.

use vstd::prelude::*;

verus! {

/// A portable key identifier: the row (3 bits) and column (5 bits) of the key's position.
#[derive(PartialEq, Eq, Structural, Clone, Copy, Debug)]
pub struct Keycode {
    inner: u8,
}

/// The value of the keycode at `row`, `column`.
pub open spec fn pack(row: u8, column: u8) -> u8 {
    (column & 0x1F) | ((row & 0x7) << 5u8)
}

impl Keycode {
    pub closed spec fn spec_value(self) -> u8 {
        self.inner
    }

    pub open spec fn spec_row(self) -> u8 {
        self.spec_value() >> 5u8
    }

    pub open spec fn spec_column(self) -> u8 {
        self.spec_value() & 0x1F
    }

    /// The keycode of the key at `row` (0 to 7) and `column` (0 to 31).
    pub fn from_position(row: u8, column: u8) -> (r: Keycode)
        requires
            row < 8,
            column < 32,
        ensures
            r.spec_value() == pack(row, column),
    {
        Keycode { inner: (column & 0x1F) | ((row & 0x7) << 5u8) }
    }

    /// The keycode with this value.
    pub fn from_value(value: u8) -> (r: Keycode)
        ensures
            r.spec_value() == value,
    {
        Keycode { inner: value }
    }

    /// The keycode's value, as the index of a table of keys.
    pub fn value(&self) -> (r: u8)
        ensures
            r == self.spec_value(),
    {
        self.inner
    }

    /// The row of the key.
    pub fn row(&self) -> (r: u8)
        ensures
            r == self.spec_row(),
    {
        self.inner >> 5u8
    }

    /// The column of the key.
    pub fn column(&self) -> (r: u8)
        ensures
            r == self.spec_column(),
    {
        self.inner & 0x1F
    }
}


// Keycodes of the reference layout; each is `pack(row, column)`.

/// Row 0, column 0.
pub const ESCAPE: u8 = 0x00;

/// Row 0, column 1.
pub const F1: u8 = 0x01;

/// Row 0, column 2.
pub const F2: u8 = 0x02;

/// Row 0, column 3.
pub const F3: u8 = 0x03;

/// Row 0, column 4.
pub const F4: u8 = 0x04;

/// Row 0, column 5.
pub const F5: u8 = 0x05;

/// Row 0, column 6.
pub const F6: u8 = 0x06;

/// Row 0, column 7.
pub const F7: u8 = 0x07;

/// Row 0, column 8.
pub const F8: u8 = 0x08;

/// Row 0, column 9.
pub const F9: u8 = 0x09;

/// Row 0, column 10.
pub const F10: u8 = 0x0a;

/// Row 0, column 11.
pub const F11: u8 = 0x0b;

/// Row 0, column 12.
pub const F12: u8 = 0x0c;

/// Row 0, column 13.
pub const PRINT_SCREEN: u8 = 0x0d;

/// Row 0, column 14.
pub const SCROLL_LOCK: u8 = 0x0e;

/// Row 0, column 15.
pub const PAUSE: u8 = 0x0f;

/// Row 1, column 0.
pub const BACK_TICK: u8 = 0x20;

/// Row 1, column 1.
pub const KEY_1: u8 = 0x21;

/// Row 1, column 2.
pub const KEY_2: u8 = 0x22;

/// Row 1, column 3.
pub const KEY_3: u8 = 0x23;

/// Row 1, column 4.
pub const KEY_4: u8 = 0x24;

/// Row 1, column 5.
pub const KEY_5: u8 = 0x25;

/// Row 1, column 6.
pub const KEY_6: u8 = 0x26;

/// Row 1, column 7.
pub const KEY_7: u8 = 0x27;

/// Row 1, column 8.
pub const KEY_8: u8 = 0x28;

/// Row 1, column 9.
pub const KEY_9: u8 = 0x29;

/// Row 1, column 10.
pub const KEY_0: u8 = 0x2a;

/// Row 1, column 11.
pub const MINUS: u8 = 0x2b;

/// Row 1, column 12.
pub const EQUALS: u8 = 0x2c;

/// Row 1, column 13.
pub const BACKSPACE: u8 = 0x2d;

/// Row 1, column 14.
pub const INSERT: u8 = 0x2e;

/// Row 1, column 15.
pub const HOME: u8 = 0x2f;

/// Row 1, column 16.
pub const PAGE_UP: u8 = 0x30;

/// Row 1, column 17.
pub const NUM_LOCK: u8 = 0x31;

/// Row 1, column 18.
pub const NUM_PAD_FORWARD_SLASH: u8 = 0x32;

/// Row 1, column 19.
pub const NUM_PAD_ASTERISK: u8 = 0x33;

/// Row 1, column 20.
pub const NUM_PAD_MINUS: u8 = 0x34;

/// Row 2, column 0.
pub const TAB: u8 = 0x40;

/// Row 2, column 1.
pub const Q: u8 = 0x41;

/// Row 2, column 2.
pub const W: u8 = 0x42;

/// Row 2, column 3.
pub const E: u8 = 0x43;

/// Row 2, column 4.
pub const R: u8 = 0x44;

/// Row 2, column 5.
pub const T: u8 = 0x45;

/// Row 2, column 6.
pub const Y: u8 = 0x46;

/// Row 2, column 7.
pub const U: u8 = 0x47;

/// Row 2, column 8.
pub const I: u8 = 0x48;

/// Row 2, column 9.
pub const O: u8 = 0x49;

/// Row 2, column 10.
pub const P: u8 = 0x4a;

/// Row 2, column 11.
pub const SQUARE_BRACKET_OPEN: u8 = 0x4b;

/// Row 2, column 12.
pub const SQUARE_BRACKET_CLOSE: u8 = 0x4c;

/// Row 2, column 13.
pub const BACK_SLASH: u8 = 0x4d;

/// Row 2, column 14.
pub const DELETE: u8 = 0x4e;

/// Row 2, column 15.
pub const END: u8 = 0x4f;

/// Row 2, column 16.
pub const PAGE_DOWN: u8 = 0x50;

/// Row 2, column 17.
pub const NUM_PAD_7: u8 = 0x51;

/// Row 2, column 18.
pub const NUM_PAD_8: u8 = 0x52;

/// Row 2, column 19.
pub const NUM_PAD_9: u8 = 0x53;

/// Row 3, column 0.
pub const CAPS_LOCK: u8 = 0x60;

/// Row 3, column 1.
pub const A: u8 = 0x61;

/// Row 3, column 2.
pub const S: u8 = 0x62;

/// Row 3, column 3.
pub const D: u8 = 0x63;

/// Row 3, column 4.
pub const F: u8 = 0x64;

/// Row 3, column 5.
pub const G: u8 = 0x65;

/// Row 3, column 6.
pub const H: u8 = 0x66;

/// Row 3, column 7.
pub const J: u8 = 0x67;

/// Row 3, column 8.
pub const K: u8 = 0x68;

/// Row 3, column 9.
pub const L: u8 = 0x69;

/// Row 3, column 10.
pub const SEMI_COLON: u8 = 0x6a;

/// Row 3, column 11.
pub const SINGLE_QUOTE: u8 = 0x6b;

/// Row 3, column 12.
pub const ENTER: u8 = 0x6c;

/// Row 3, column 13.
pub const NUM_PAD_4: u8 = 0x6d;

/// Row 3, column 14.
pub const NUM_PAD_5: u8 = 0x6e;

/// Row 3, column 15.
pub const NUM_PAD_6: u8 = 0x6f;

/// Row 3, column 16.
pub const NUM_PAD_PLUS: u8 = 0x70;

/// Row 4, column 0.
pub const LEFT_SHIFT: u8 = 0x80;

/// Row 4, column 1.
pub const Z: u8 = 0x81;

/// Row 4, column 2.
pub const X: u8 = 0x82;

/// Row 4, column 3.
pub const C: u8 = 0x83;

/// Row 4, column 4.
pub const V: u8 = 0x84;

/// Row 4, column 5.
pub const B: u8 = 0x85;

/// Row 4, column 6.
pub const N: u8 = 0x86;

/// Row 4, column 7.
pub const M: u8 = 0x87;

/// Row 4, column 8.
pub const COMMA: u8 = 0x88;

/// Row 4, column 9.
pub const PERIOD: u8 = 0x89;

/// Row 4, column 10.
pub const FORWARD_SLASH: u8 = 0x8a;

/// Row 4, column 11.
pub const RIGHT_SHIFT: u8 = 0x8b;

/// Row 4, column 12.
pub const UP_ARROW: u8 = 0x8c;

/// Row 4, column 13.
pub const NUM_PAD_1: u8 = 0x8d;

/// Row 4, column 14.
pub const NUM_PAD_2: u8 = 0x8e;

/// Row 4, column 15.
pub const NUM_PAD_3: u8 = 0x8f;

/// Row 5, column 0.
pub const LEFT_CONTROL: u8 = 0xa0;

/// Row 5, column 1.
pub const LEFT_WIN: u8 = 0xa1;

/// Row 5, column 2.
pub const LEFT_ALT: u8 = 0xa2;

/// Row 5, column 3.
pub const SPACE: u8 = 0xa3;

/// Row 5, column 4.
pub const RIGHT_ALT: u8 = 0xa4;

/// Row 5, column 5.
pub const RIGHT_WIN: u8 = 0xa5;

/// Row 5, column 6.
pub const FUNCTION: u8 = 0xa6;

/// Row 5, column 7.
pub const RIGHT_CONTROL: u8 = 0xa7;

/// Row 5, column 8.
pub const LEFT_ARROW: u8 = 0xa8;

/// Row 5, column 9.
pub const DOWN_ARROW: u8 = 0xa9;

/// Row 5, column 10.
pub const RIGHT_ARROW: u8 = 0xaa;

/// Row 5, column 11.
pub const NUM_PAD_0: u8 = 0xab;

/// Row 5, column 12.
pub const NUM_PAD_DELETE: u8 = 0xac;

/// Row 5, column 13.
pub const NUM_PAD_ENTER: u8 = 0xad;

/// The US QWERTY characters of a keycode value: unshifted, then shifted. `None` for keys that
/// type no character.
pub open spec fn us_qwerty_chars(code: u8) -> Option<(char, char)> {
    if code == KEY_1 {
        Some(('1', '!'))
    } else if code == KEY_2 {
        Some(('2', '@'))
    } else if code == KEY_3 {
        Some(('3', '#'))
    } else if code == KEY_4 {
        Some(('4', '$'))
    } else if code == KEY_5 {
        Some(('5', '%'))
    } else if code == KEY_6 {
        Some(('6', '^'))
    } else if code == KEY_7 {
        Some(('7', '&'))
    } else if code == KEY_8 {
        Some(('8', '*'))
    } else if code == KEY_9 {
        Some(('9', '('))
    } else if code == KEY_0 {
        Some(('0', ')'))
    } else if code == MINUS {
        Some(('-', '_'))
    } else if code == EQUALS {
        Some(('=', '+'))
    } else if code == BACKSPACE {
        Some(('\x08', '\x08'))
    } else if code == TAB {
        Some(('\t', '\t'))
    } else if code == Q {
        Some(('q', 'Q'))
    } else if code == W {
        Some(('w', 'W'))
    } else if code == E {
        Some(('e', 'E'))
    } else if code == R {
        Some(('r', 'R'))
    } else if code == T {
        Some(('t', 'T'))
    } else if code == Y {
        Some(('y', 'Y'))
    } else if code == U {
        Some(('u', 'U'))
    } else if code == I {
        Some(('i', 'I'))
    } else if code == O {
        Some(('o', 'O'))
    } else if code == P {
        Some(('p', 'P'))
    } else if code == SQUARE_BRACKET_OPEN {
        Some(('[', '{'))
    } else if code == SQUARE_BRACKET_CLOSE {
        Some((']', '}'))
    } else if code == ENTER {
        Some(('\n', '\n'))
    } else if code == A {
        Some(('a', 'A'))
    } else if code == S {
        Some(('s', 'S'))
    } else if code == D {
        Some(('d', 'D'))
    } else if code == F {
        Some(('f', 'F'))
    } else if code == G {
        Some(('g', 'G'))
    } else if code == H {
        Some(('h', 'H'))
    } else if code == J {
        Some(('j', 'J'))
    } else if code == K {
        Some(('k', 'K'))
    } else if code == L {
        Some(('l', 'L'))
    } else if code == SEMI_COLON {
        Some((';', ':'))
    } else if code == SINGLE_QUOTE {
        Some(('\'', '\"'))
    } else if code == BACK_TICK {
        Some(('`', '~'))
    } else if code == BACK_SLASH {
        Some(('\\', '|'))
    } else if code == Z {
        Some(('z', 'Z'))
    } else if code == X {
        Some(('x', 'X'))
    } else if code == C {
        Some(('c', 'C'))
    } else if code == V {
        Some(('v', 'V'))
    } else if code == B {
        Some(('b', 'B'))
    } else if code == N {
        Some(('n', 'N'))
    } else if code == M {
        Some(('m', 'M'))
    } else if code == COMMA {
        Some((',', '<'))
    } else if code == PERIOD {
        Some(('.', '>'))
    } else if code == FORWARD_SLASH {
        Some(('/', '?'))
    } else if code == SPACE {
        Some((' ', ' '))
    } else {
        None
    }
}

/// The US QWERTY characters of `keycode`: unshifted, then shifted. `None` for keys that type no
/// character (arrows, function keys, locks, modifiers).
pub fn get_us_qwerty_char(keycode: Keycode) -> (r: Option<(char, char)>)
    ensures
        r == us_qwerty_chars(keycode.spec_value()),
{
    let code = keycode.value();
    if code == KEY_1 {
        Some(('1', '!'))
    } else if code == KEY_2 {
        Some(('2', '@'))
    } else if code == KEY_3 {
        Some(('3', '#'))
    } else if code == KEY_4 {
        Some(('4', '$'))
    } else if code == KEY_5 {
        Some(('5', '%'))
    } else if code == KEY_6 {
        Some(('6', '^'))
    } else if code == KEY_7 {
        Some(('7', '&'))
    } else if code == KEY_8 {
        Some(('8', '*'))
    } else if code == KEY_9 {
        Some(('9', '('))
    } else if code == KEY_0 {
        Some(('0', ')'))
    } else if code == MINUS {
        Some(('-', '_'))
    } else if code == EQUALS {
        Some(('=', '+'))
    } else if code == BACKSPACE {
        Some(('\x08', '\x08'))
    } else if code == TAB {
        Some(('\t', '\t'))
    } else if code == Q {
        Some(('q', 'Q'))
    } else if code == W {
        Some(('w', 'W'))
    } else if code == E {
        Some(('e', 'E'))
    } else if code == R {
        Some(('r', 'R'))
    } else if code == T {
        Some(('t', 'T'))
    } else if code == Y {
        Some(('y', 'Y'))
    } else if code == U {
        Some(('u', 'U'))
    } else if code == I {
        Some(('i', 'I'))
    } else if code == O {
        Some(('o', 'O'))
    } else if code == P {
        Some(('p', 'P'))
    } else if code == SQUARE_BRACKET_OPEN {
        Some(('[', '{'))
    } else if code == SQUARE_BRACKET_CLOSE {
        Some((']', '}'))
    } else if code == ENTER {
        Some(('\n', '\n'))
    } else if code == A {
        Some(('a', 'A'))
    } else if code == S {
        Some(('s', 'S'))
    } else if code == D {
        Some(('d', 'D'))
    } else if code == F {
        Some(('f', 'F'))
    } else if code == G {
        Some(('g', 'G'))
    } else if code == H {
        Some(('h', 'H'))
    } else if code == J {
        Some(('j', 'J'))
    } else if code == K {
        Some(('k', 'K'))
    } else if code == L {
        Some(('l', 'L'))
    } else if code == SEMI_COLON {
        Some((';', ':'))
    } else if code == SINGLE_QUOTE {
        Some(('\'', '\"'))
    } else if code == BACK_TICK {
        Some(('`', '~'))
    } else if code == BACK_SLASH {
        Some(('\\', '|'))
    } else if code == Z {
        Some(('z', 'Z'))
    } else if code == X {
        Some(('x', 'X'))
    } else if code == C {
        Some(('c', 'C'))
    } else if code == V {
        Some(('v', 'V'))
    } else if code == B {
        Some(('b', 'B'))
    } else if code == N {
        Some(('n', 'N'))
    } else if code == M {
        Some(('m', 'M'))
    } else if code == COMMA {
        Some((',', '<'))
    } else if code == PERIOD {
        Some(('.', '>'))
    } else if code == FORWARD_SLASH {
        Some(('/', '?'))
    } else if code == SPACE {
        Some((' ', ' '))
    } else {
        None
    }
}

/// The keycode value of a scan set 2 code, if the key is known.
pub open spec fn set2_code(scancode: u8) -> Option<u8> {
    match scancode {
        0x01 => Some(F9),
        0x03 => Some(F5),
        0x04 => Some(F3),
        0x05 => Some(F1),
        0x06 => Some(F2),
        0x07 => Some(F12),
        0x09 => Some(F10),
        0x0A => Some(F8),
        0x0B => Some(F6),
        0x0C => Some(F4),
        0x0D => Some(TAB),
        0x0E => Some(BACK_TICK),
        0x11 => Some(LEFT_ALT),
        0x12 => Some(LEFT_SHIFT),
        0x14 => Some(LEFT_CONTROL),
        0x15 => Some(Q),
        0x16 => Some(KEY_1),
        0x1A => Some(Z),
        0x1B => Some(S),
        0x1C => Some(A),
        0x1D => Some(W),
        0x1E => Some(KEY_2),
        0x21 => Some(C),
        0x22 => Some(X),
        0x23 => Some(D),
        0x24 => Some(E),
        0x25 => Some(KEY_4),
        0x26 => Some(KEY_3),
        0x29 => Some(SPACE),
        0x2A => Some(V),
        0x2B => Some(F),
        0x2C => Some(T),
        0x2D => Some(R),
        0x2E => Some(KEY_5),
        0x31 => Some(N),
        0x32 => Some(B),
        0x33 => Some(H),
        0x34 => Some(G),
        0x35 => Some(Y),
        0x36 => Some(KEY_6),
        0x3A => Some(M),
        0x3B => Some(J),
        0x3C => Some(U),
        0x3D => Some(KEY_7),
        0x3E => Some(KEY_8),
        0x41 => Some(COMMA),
        0x42 => Some(K),
        0x43 => Some(I),
        0x44 => Some(O),
        0x45 => Some(KEY_0),
        0x46 => Some(KEY_9),
        0x49 => Some(PERIOD),
        0x4A => Some(FORWARD_SLASH),
        0x4B => Some(L),
        0x4C => Some(SEMI_COLON),
        0x4D => Some(P),
        0x4E => Some(MINUS),
        0x52 => Some(SINGLE_QUOTE),
        0x54 => Some(SQUARE_BRACKET_OPEN),
        0x55 => Some(EQUALS),
        0x58 => Some(CAPS_LOCK),
        0x59 => Some(RIGHT_SHIFT),
        0x5A => Some(ENTER),
        0x5B => Some(SQUARE_BRACKET_CLOSE),
        0x5D => Some(BACK_SLASH),
        0x66 => Some(BACKSPACE),
        0x69 => Some(NUM_PAD_1),
        0x6B => Some(NUM_PAD_4),
        0x6C => Some(NUM_PAD_7),
        0x70 => Some(NUM_PAD_0),
        0x71 => Some(NUM_PAD_DELETE),
        0x72 => Some(NUM_PAD_2),
        0x73 => Some(NUM_PAD_5),
        0x74 => Some(NUM_PAD_6),
        0x75 => Some(NUM_PAD_8),
        0x76 => Some(ESCAPE),
        0x77 => Some(NUM_LOCK),
        0x78 => Some(F11),
        0x79 => Some(NUM_PAD_PLUS),
        0x7A => Some(NUM_PAD_3),
        0x7B => Some(NUM_PAD_MINUS),
        0x7C => Some(NUM_PAD_ASTERISK),
        0x7D => Some(NUM_PAD_9),
        0x7E => Some(SCROLL_LOCK),
        0x83 => Some(F7),
        _ => None,
    }
}

/// The keycode of a scan set 2 code, if the key is known.
pub fn get_code_ps2_set_2(scancode: u8) -> (r: Option<Keycode>)
    ensures
        r is Some == set2_code(scancode) is Some,
        r matches Some(k) ==> k.spec_value() == set2_code(scancode).unwrap(),
{
    let code = match scancode {
        0x01 => F9,
        0x03 => F5,
        0x04 => F3,
        0x05 => F1,
        0x06 => F2,
        0x07 => F12,
        0x09 => F10,
        0x0A => F8,
        0x0B => F6,
        0x0C => F4,
        0x0D => TAB,
        0x0E => BACK_TICK,
        0x11 => LEFT_ALT,
        0x12 => LEFT_SHIFT,
        0x14 => LEFT_CONTROL,
        0x15 => Q,
        0x16 => KEY_1,
        0x1A => Z,
        0x1B => S,
        0x1C => A,
        0x1D => W,
        0x1E => KEY_2,
        0x21 => C,
        0x22 => X,
        0x23 => D,
        0x24 => E,
        0x25 => KEY_4,
        0x26 => KEY_3,
        0x29 => SPACE,
        0x2A => V,
        0x2B => F,
        0x2C => T,
        0x2D => R,
        0x2E => KEY_5,
        0x31 => N,
        0x32 => B,
        0x33 => H,
        0x34 => G,
        0x35 => Y,
        0x36 => KEY_6,
        0x3A => M,
        0x3B => J,
        0x3C => U,
        0x3D => KEY_7,
        0x3E => KEY_8,
        0x41 => COMMA,
        0x42 => K,
        0x43 => I,
        0x44 => O,
        0x45 => KEY_0,
        0x46 => KEY_9,
        0x49 => PERIOD,
        0x4A => FORWARD_SLASH,
        0x4B => L,
        0x4C => SEMI_COLON,
        0x4D => P,
        0x4E => MINUS,
        0x52 => SINGLE_QUOTE,
        0x54 => SQUARE_BRACKET_OPEN,
        0x55 => EQUALS,
        0x58 => CAPS_LOCK,
        0x59 => RIGHT_SHIFT,
        0x5A => ENTER,
        0x5B => SQUARE_BRACKET_CLOSE,
        0x5D => BACK_SLASH,
        0x66 => BACKSPACE,
        0x69 => NUM_PAD_1,
        0x6B => NUM_PAD_4,
        0x6C => NUM_PAD_7,
        0x70 => NUM_PAD_0,
        0x71 => NUM_PAD_DELETE,
        0x72 => NUM_PAD_2,
        0x73 => NUM_PAD_5,
        0x74 => NUM_PAD_6,
        0x75 => NUM_PAD_8,
        0x76 => ESCAPE,
        0x77 => NUM_LOCK,
        0x78 => F11,
        0x79 => NUM_PAD_PLUS,
        0x7A => NUM_PAD_3,
        0x7B => NUM_PAD_MINUS,
        0x7C => NUM_PAD_ASTERISK,
        0x7D => NUM_PAD_9,
        0x7E => SCROLL_LOCK,
        0x83 => F7,
        _ => {
            return None;
        },
    };
    Some(Keycode { inner: code })
}

/// The keycode value of a scan set 2 code that followed an extended prefix, if the key is known.
pub open spec fn set2_extended_code(scancode: u8) -> Option<u8> {
    match scancode {
        0x11 => Some(RIGHT_ALT),
        0x14 => Some(RIGHT_CONTROL),
        0x4A => Some(NUM_PAD_FORWARD_SLASH),
        0x5A => Some(NUM_PAD_ENTER),
        0x69 => Some(END),
        0x6B => Some(LEFT_ARROW),
        0x6C => Some(HOME),
        0x70 => Some(INSERT),
        0x71 => Some(DELETE),
        0x72 => Some(DOWN_ARROW),
        0x74 => Some(RIGHT_ARROW),
        0x75 => Some(UP_ARROW),
        0x7A => Some(PAGE_DOWN),
        0x7D => Some(PAGE_UP),
        _ => None,
    }
}

/// The keycode of a scan set 2 code that followed an extended prefix, if the key is known.
pub fn get_extended_code_ps2_set_2(scancode: u8) -> (r: Option<Keycode>)
    ensures
        r is Some == set2_extended_code(scancode) is Some,
        r matches Some(k) ==> k.spec_value() == set2_extended_code(scancode).unwrap(),
{
    let code = match scancode {
        0x11 => RIGHT_ALT,
        0x14 => RIGHT_CONTROL,
        0x4A => NUM_PAD_FORWARD_SLASH,
        0x5A => NUM_PAD_ENTER,
        0x69 => END,
        0x6B => LEFT_ARROW,
        0x6C => HOME,
        0x70 => INSERT,
        0x71 => DELETE,
        0x72 => DOWN_ARROW,
        0x74 => RIGHT_ARROW,
        0x75 => UP_ARROW,
        0x7A => PAGE_DOWN,
        0x7D => PAGE_UP,
        _ => {
            return None;
        },
    };
    Some(Keycode { inner: code })
}

/// Every key that types a character types two different ones, unshifted and shifted, but for
/// the keys whose character has no shifted form (space, tab, enter, backspace), which type the
/// same character either way.
pub proof fn lemma_shift_variants(code: u8)
    requires
        us_qwerty_chars(code) is Some,
    ensures
        (us_qwerty_chars(code).unwrap().0 == us_qwerty_chars(code).unwrap().1) == (code == SPACE
            || code == TAB || code == ENTER || code == BACKSPACE),
{
}

/// A keycode built from a position (as `from_position` builds it) gives that position back.
pub proof fn lemma_keycode_round_trip(keycode: Keycode, row: u8, column: u8)
    requires
        row < 8,
        column < 32,
        keycode.spec_value() == pack(row, column),
    ensures
        keycode.spec_row() == row,
        keycode.spec_column() == column,
{
    assert(((column & 0x1F) | ((row & 0x7) << 5u8)) >> 5u8 == row) by (bit_vector)
        requires row < 8u8, column < 32u8;
    assert(((column & 0x1F) | ((row & 0x7) << 5u8)) & 0x1F == column) by (bit_vector)
        requires row < 8u8, column < 32u8;
}

} // verus!
