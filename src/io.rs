//! Port-level access to the PS/2 controller: the two hardware registers, the status byte, and
//! bounded busy-polling reads and writes.
//!
//! The raw port primitive is the [`PortIo`] trait. Its contract records every port access in a
//! history; what the layers above promise is stated over [`transfers`], the bytes that were
//! written to a register or read from the data register, in order.

use vstd::prelude::*;

verus! {

/// Data register: bytes to and from devices.
pub const DATA_PORT: u16 = 0x60;

/// Status register when read, controller command register when written.
pub const STATUS_COMMAND_PORT: u16 = 0x64;

/// The number of status polls before assuming that no data will arrive.
pub const WAIT_TIMEOUT: u32 = 1000000;

/// The number of times a command is sent before giving up on RESEND replies.
pub const RETRIES: u8 = 4;

/// Device reply: send the last byte again.
pub const RESEND: u8 = 0xFE;

/// Device reply: the last byte was accepted.
pub const ACK: u8 = 0xFA;

/// Reply of a keyboard whose self-test passed.
pub const KEYBOARD_SELF_TEST_PASSED: u8 = 0xAA;

/// Reply of a keyboard to the echo command.
pub const KEYBOARD_ECHO_REPLY: u8 = 0xEE;

/// Status bit: the output buffer is full (a byte can be read).
pub const STATUS_OUTPUT_FULL: u8 = 0x01;

/// Status bit: the input buffer is full (no byte can be written yet).
pub const STATUS_INPUT_FULL: u8 = 0x02;

/// Status bit: the byte in the output buffer came from the second port.
pub const STATUS_OUTPUT_PORT_2: u8 = 0x20;

/// One access to a hardware port.
#[derive(PartialEq, Eq, Structural, Clone, Copy, Debug)]
pub enum PortOp {
    Read { port: u16, value: u8 },
    Write { port: u16, value: u8 },
}

/// Byte-wide access to hardware ports: the primitive that the platform provides.
pub trait PortIo {
    /// Reads one byte from `port`.
    fn read_port(&mut self, port: u16) -> u8;

    /// Writes one byte to `port`.
    fn write_port(&mut self, port: u16, value: u8);
}

/// Port access that keeps, in specifications, the history of every access made through it.
pub struct Ports<P: PortIo> {
    raw: P,
    history: Ghost<Seq<PortOp>>,
}

impl<P: PortIo> Ports<P> {
    /// Every access made so far, in order.
    pub closed spec fn history(&self) -> Seq<PortOp> {
        self.history@
    }

    pub closed spec fn spec_inner(&self) -> P {
        self.raw
    }

    /// Access through `raw`, with an empty history.
    pub fn new(raw: P) -> (r: Ports<P>)
        ensures
            r.history() == Seq::<PortOp>::empty(),
            r.spec_inner() == raw,
    {
        Ports { raw, history: Ghost(Seq::empty()) }
    }

    /// The underlying port access.
    pub fn inner(&self) -> (r: &P)
        ensures
            *r == self.spec_inner(),
    {
        &self.raw
    }

    /// Reads one byte from `port`.
    pub fn read_port(&mut self, port: u16) -> (r: u8)
        ensures
            final(self).history() == old(self).history().push(PortOp::Read { port, value: r }),
    {
        let r = self.raw.read_port(port);
        self.history = Ghost(self.history@.push(PortOp::Read { port, value: r }));
        r
    }

    /// Writes one byte to `port`.
    pub fn write_port(&mut self, port: u16, value: u8)
        ensures
            final(self).history() == old(self).history().push(PortOp::Write { port, value }),
    {
        self.raw.write_port(port, value);
        self.history = Ghost(self.history@.push(PortOp::Write { port, value }));
    }
}

/// A byte that crossed a register: written to a port, or read from the data port.
#[derive(PartialEq, Eq, Structural, Clone, Copy, Debug)]
pub enum Transfer {
    Sent { port: u16, value: u8 },
    Received { value: u8 },
}

pub open spec fn transfer_of(op: PortOp) -> Seq<Transfer> {
    match op {
        PortOp::Read { port, value } => if port == DATA_PORT {
            seq![Transfer::Received { value }]
        } else {
            seq![]
        },
        PortOp::Write { port, value } => seq![Transfer::Sent { port, value }],
    }
}

/// The transfers of a history: status reads are left out.
pub open spec fn transfers(ops: Seq<PortOp>) -> Seq<Transfer>
    decreases ops.len(),
{
    if ops.len() == 0 {
        seq![]
    } else {
        transfers(ops.drop_last()) + transfer_of(ops.last())
    }
}

/// Each byte of `bytes` received, in order.
pub open spec fn received(bytes: Seq<u8>) -> Seq<Transfer>
    decreases bytes.len(),
{
    if bytes.len() == 0 {
        seq![]
    } else {
        received(bytes.drop_last()).push(Transfer::Received { value: bytes.last() })
    }
}

pub open spec fn output_full(status: u8) -> bool {
    status & STATUS_OUTPUT_FULL != 0
}

pub open spec fn input_full(status: u8) -> bool {
    status & STATUS_INPUT_FULL != 0
}

pub open spec fn output_from_port_2(status: u8) -> bool {
    status & STATUS_OUTPUT_PORT_2 != 0
}

pub open spec fn last_value(ops: Seq<PortOp>) -> u8 {
    match ops.last() {
        PortOp::Read { value, .. } => value,
        PortOp::Write { value, .. } => value,
    }
}

pub proof fn lemma_transfers_push(ops: Seq<PortOp>, op: PortOp)
    ensures
        transfers(ops.push(op)) == transfers(ops) + transfer_of(op),
{
    assert(ops.push(op).drop_last() =~= ops);
}

pub proof fn lemma_received_push(bytes: Seq<u8>, b: u8)
    ensures
        received(bytes.push(b)) == received(bytes).push(Transfer::Received { value: b }),
{
    assert(bytes.push(b).drop_last() =~= bytes);
}

/// The status byte read from the status register.
pub fn read_status<P: PortIo>(io: &mut Ports<P>) -> (r: u8)
    ensures
        final(io).history() == old(io).history().push(
            PortOp::Read { port: STATUS_COMMAND_PORT, value: r },
        ),
        transfers(final(io).history()) == transfers(old(io).history()),
{
    let r = io.read_port(STATUS_COMMAND_PORT);
    proof {
        lemma_transfers_push(old(io).history(), PortOp::Read { port: STATUS_COMMAND_PORT, value: r });
        assert(transfers(io.history()) =~= transfers(old(io).history()));
    }
    r
}

/// Every access of `ops` is a status read that shows no byte to read.
pub open spec fn idle_polls(ops: Seq<PortOp>) -> bool {
    forall|i: int|
        0 <= i < ops.len() ==> (#[trigger] ops[i] matches PortOp::Read { port, value } && port
            == STATUS_COMMAND_PORT && !output_full(value))
}

/// Whether the status byte allows a write (input buffer empty).
pub fn status_can_write(status: u8) -> (r: bool)
    ensures
        r == !input_full(status),
{
    status & STATUS_INPUT_FULL == 0
}

/// Whether the status byte offers a byte to read (output buffer full).
pub fn status_can_read(status: u8) -> (r: bool)
    ensures
        r == output_full(status),
{
    status & STATUS_OUTPUT_FULL != 0
}

/// Whether the byte on offer comes from the first port (the keyboard).
pub fn status_from_keyboard(status: u8) -> (r: bool)
    ensures
        r == !output_from_port_2(status),
{
    status & STATUS_OUTPUT_PORT_2 == 0
}

/// Whether a byte can be written now: reads the status register.
pub fn can_write<P: PortIo>(io: &mut Ports<P>) -> (r: bool)
    ensures
        final(io).history() == old(io).history().push(
            PortOp::Read { port: STATUS_COMMAND_PORT, value: last_value(final(io).history()) },
        ),
        r == !input_full(last_value(final(io).history())),
        transfers(final(io).history()) == transfers(old(io).history()),
{
    let s = read_status(io);
    status_can_write(s)
}

/// Whether a byte can be read now: reads the status register.
pub fn can_read<P: PortIo>(io: &mut Ports<P>) -> (r: bool)
    ensures
        final(io).history() == old(io).history().push(
            PortOp::Read { port: STATUS_COMMAND_PORT, value: last_value(final(io).history()) },
        ),
        r == output_full(last_value(final(io).history())),
        transfers(final(io).history()) == transfers(old(io).history()),
{
    let s = read_status(io);
    status_can_read(s)
}

/// Whether the next byte to read comes from the keyboard: reads the status register.
pub fn can_read_keyboard<P: PortIo>(io: &mut Ports<P>) -> (r: bool)
    ensures
        final(io).history() == old(io).history().push(
            PortOp::Read { port: STATUS_COMMAND_PORT, value: last_value(final(io).history()) },
        ),
        r == !output_from_port_2(last_value(final(io).history())),
        transfers(final(io).history()) == transfers(old(io).history()),
{
    let s = read_status(io);
    status_from_keyboard(s)
}

/// Whether the next byte to read comes from the mouse: reads the status register.
pub fn can_read_mouse<P: PortIo>(io: &mut Ports<P>) -> (r: bool)
    ensures
        final(io).history() == old(io).history().push(
            PortOp::Read { port: STATUS_COMMAND_PORT, value: last_value(final(io).history()) },
        ),
        r == output_from_port_2(last_value(final(io).history())),
        transfers(final(io).history()) == transfers(old(io).history()),
{
    let s = read_status(io);
    !status_from_keyboard(s)
}

/// The value that the access `op` read or wrote.
pub open spec fn op_value(op: PortOp) -> u8 {
    match op {
        PortOp::Read { value, .. } => value,
        PortOp::Write { value, .. } => value,
    }
}

/// The access at `k` reads the status register.
pub open spec fn status_at(h: Seq<PortOp>, k: int) -> bool {
    h[k] matches PortOp::Read { port, .. } && port == STATUS_COMMAND_PORT
}

/// The accesses from `from` to `to` are status reads that show no byte to read.
pub open spec fn polls_idle(h: Seq<PortOp>, from: int, to: int) -> bool {
    forall|k: int| from <= k < to ==> #[trigger] status_at(h, k) && !output_full(op_value(h[k]))
}

/// The accesses from `from` to `to` are status reads that show the input buffer full.
pub open spec fn polls_busy(h: Seq<PortOp>, from: int, to: int) -> bool {
    forall|k: int| from <= k < to ==> #[trigger] status_at(h, k) && input_full(op_value(h[k]))
}

/// The history ends with `WAIT_TIMEOUT` status reads that show no byte to read: a read that
/// timed out.
pub open spec fn ends_idle(h: Seq<PortOp>) -> bool {
    h.len() >= WAIT_TIMEOUT && polls_idle(h, h.len() - WAIT_TIMEOUT, h.len() as int)
}

/// `h1` is `h0` followed by a write of `value` to `port`: status reads that show the input
/// buffer full, then one that shows it empty (or, after `WAIT_TIMEOUT` full ones, none), then
/// the write.
pub open spec fn written_after_polls(h0: Seq<PortOp>, h1: Seq<PortOp>, port: u16, value: u8) -> bool {
    &&& h0.len() + 2 <= h1.len() <= h0.len() + WAIT_TIMEOUT + 1
    &&& h1.subrange(0, h0.len() as int) == h0
    &&& h1.last() == (PortOp::Write { port, value })
    &&& polls_busy(h1, h0.len() as int, h1.len() - 2)
    &&& status_at(h1, h1.len() - 2)
    &&& !input_full(op_value(h1[h1.len() - 2])) || h1.len() == h0.len() + WAIT_TIMEOUT + 1
}

/// `h1` is `h0` followed by a read of the data register: status reads that show no byte, then,
/// for `Some(v)`, one that shows a byte and the read of `v`; for `None`, `WAIT_TIMEOUT` status
/// reads that show no byte.
pub open spec fn read_after_polls(h0: Seq<PortOp>, h1: Seq<PortOp>, r: Option<u8>) -> bool {
    &&& h1.subrange(0, h0.len() as int) == h0
    &&& match r {
        Some(v) => {
            &&& h0.len() + 2 <= h1.len() <= h0.len() + WAIT_TIMEOUT + 1
            &&& h1.last() == (PortOp::Read { port: DATA_PORT, value: v })
            &&& polls_idle(h1, h0.len() as int, h1.len() - 2)
            &&& status_at(h1, h1.len() - 2)
            &&& output_full(op_value(h1[h1.len() - 2]))
        },
        None => h1.len() == h0.len() + WAIT_TIMEOUT && polls_idle(h1, h0.len() as int, h1.len() as int),
    }
}

/// Writes `value` to `port` once the controller's input buffer is empty.
///
/// The status register is polled until it shows the buffer empty, at most `WAIT_TIMEOUT` times:
/// a write must return, so after that many polls the byte is written all the same.
pub fn write<P: PortIo>(io: &mut Ports<P>, port: u16, value: u8)
    ensures
        transfers(final(io).history()) == transfers(old(io).history()).push(
            Transfer::Sent { port, value },
        ),
        written_after_polls(old(io).history(), final(io).history(), port, value),
{
    let ghost h0 = io.history();
    let mut i: u32 = 0;
    let mut ready = false;
    while i < WAIT_TIMEOUT && !ready
        invariant
            h0 == old(io).history(),
            i <= WAIT_TIMEOUT,
            io.history().len() == h0.len() + i,
            io.history().subrange(0, h0.len() as int) == h0,
            transfers(io.history()) == transfers(h0),
            forall|k: int| h0.len() <= k < io.history().len() ==> #[trigger] status_at(io.history(), k),
            polls_busy(io.history(), h0.len() as int, io.history().len() - (if ready { 1int } else { 0int })),
            ready ==> i > 0 && !input_full(op_value(io.history().last())),
        decreases WAIT_TIMEOUT - i,
    {
        let ghost before = io.history();
        ready = can_write(io);
        proof {
            assert(io.history().subrange(0, h0.len() as int) =~= before.subrange(0, h0.len() as int));
            assert forall|k: int| h0.len() <= k < io.history().len() implies #[trigger] status_at(io.history(), k) by {
                if k < before.len() {
                    assert(status_at(before, k));
                }
            }
            assert forall|k: int| h0.len() <= k < io.history().len() - (if ready { 1int } else { 0int })
                implies #[trigger] status_at(io.history(), k) && input_full(op_value(io.history()[k])) by {
                if k < before.len() {
                    assert(status_at(before, k));
                }
            }
        }
        i = i + 1;
    }
    let ghost before = io.history();
    io.write_port(port, value);
    proof {
        lemma_transfers_push(before, PortOp::Write { port, value });
        assert(transfer_of(PortOp::Write { port, value }) =~= seq![Transfer::Sent { port, value }]);
        assert(transfers(io.history()) =~= transfers(old(io).history()).push(
            Transfer::Sent { port, value },
        ));
        let h1 = io.history();
        assert(h1.subrange(0, h0.len() as int) =~= before.subrange(0, h0.len() as int));
        assert(status_at(before, before.len() - 1));
        assert forall|k: int| h0.len() <= k < h1.len() - 2 implies #[trigger] status_at(h1, k)
            && input_full(op_value(h1[k])) by {
            assert(status_at(before, k));
        }
    }
}

/// Reads a byte from the data register, polling the status register at most `WAIT_TIMEOUT`
/// times for one to arrive. `None` when none arrived.
pub fn read<P: PortIo>(io: &mut Ports<P>) -> (r: Option<u8>)
    ensures
        r matches Some(v) ==> transfers(final(io).history()) == transfers(old(io).history()).push(
            Transfer::Received { value: v },
        ),
        r is None ==> transfers(final(io).history()) == transfers(old(io).history()),
        read_after_polls(old(io).history(), final(io).history(), r),
        r is None ==> ends_idle(final(io).history()),
{
    let mut i: u32 = 0;
    let ghost h0 = io.history();
    while i < WAIT_TIMEOUT
        invariant
            transfers(io.history()) == transfers(old(io).history()),
            h0 == old(io).history(),
            i <= WAIT_TIMEOUT,
            io.history().len() == h0.len() + i,
            io.history().subrange(0, h0.len() as int) == h0,
            polls_idle(io.history(), h0.len() as int, io.history().len() as int),
        decreases WAIT_TIMEOUT - i,
    {
        let ghost before = io.history();
        let ready = can_read(io);
        proof {
            assert(io.history().subrange(0, h0.len() as int) =~= before.subrange(0, h0.len() as int));
            assert(status_at(io.history(), io.history().len() - 1));
        }
        if ready {
            let ghost polled = io.history();
            let v = io.read_port(DATA_PORT);
            proof {
                lemma_transfers_push(polled, PortOp::Read { port: DATA_PORT, value: v });
                assert(transfers(io.history()) =~= transfers(old(io).history()).push(
                    Transfer::Received { value: v },
                ));
                let h1 = io.history();
                assert(h1.subrange(0, h0.len() as int) =~= polled.subrange(0, h0.len() as int));
                assert(h1[h1.len() - 2] == polled.last());
                assert forall|k: int| h0.len() <= k < h1.len() - 2 implies #[trigger] status_at(h1, k)
                    && !output_full(op_value(h1[k])) by {
                    assert(status_at(before, k));
                }
                assert(status_at(h1, h1.len() - 2));
            }
            return Some(v);
        }
        proof {
            let h1 = io.history();
            assert forall|k: int| h0.len() <= k < h1.len() implies #[trigger] status_at(h1, k)
                && !output_full(op_value(h1[k])) by {
                if k < before.len() {
                    assert(status_at(before, k));
                }
            }
        }
        i = i + 1;
    }
    None
}

/// Drains the controller's output buffer, discarding every byte in it: reads the data register
/// while the status register shows a byte, and stops at the first status read that shows none.
/// At most `WAIT_TIMEOUT` bytes are discarded, far more than the controller can hold.
pub fn flush_output<P: PortIo>(io: &mut Ports<P>)
    ensures
        final(io).history().subrange(0, old(io).history().len() as int) == old(io).history(),
        exists|bytes: Seq<u8>|
            {
                &&& transfers(final(io).history()) == transfers(old(io).history()) + #[trigger] received(bytes)
                &&& bytes.len() == WAIT_TIMEOUT || (final(io).history().len() > old(io).history().len()
                    && status_at(final(io).history(), final(io).history().len() - 1)
                    && !output_full(op_value(final(io).history().last())))
            },
{
    let ghost h0 = io.history();
    let ghost mut bytes: Seq<u8> = seq![];
    let mut i: u32 = 0;
    let mut empty = false;
    proof {
        assert(transfers(io.history()) =~= transfers(old(io).history()) + received(bytes));
        assert(io.history().subrange(0, h0.len() as int) =~= h0);
    }
    while i < WAIT_TIMEOUT && !empty
        invariant
            h0 == old(io).history(),
            i <= WAIT_TIMEOUT,
            bytes.len() == i,
            io.history().len() >= h0.len(),
            io.history().subrange(0, h0.len() as int) == h0,
            transfers(io.history()) == transfers(h0) + received(bytes),
            empty ==> io.history().len() > h0.len() && status_at(io.history(), io.history().len() - 1)
                && !output_full(op_value(io.history().last())),
        decreases WAIT_TIMEOUT - i + (if empty { 0int } else { 1int }),
    {
        let ghost before = io.history();
        let ready = can_read(io);
        proof {
            assert(io.history().subrange(0, h0.len() as int) =~= before.subrange(0, h0.len() as int));
        }
        if !ready {
            empty = true;
        } else {
            let ghost polled = io.history();
            let v = io.read_port(DATA_PORT);
            proof {
                assert(io.history().subrange(0, h0.len() as int) =~= polled.subrange(0, h0.len() as int));
                lemma_transfers_push(polled, PortOp::Read { port: DATA_PORT, value: v });
                lemma_received_push(bytes, v);
                assert(transfers(io.history()) =~= transfers(old(io).history()) + received(
                    bytes.push(v),
                ));
                bytes = bytes.push(v);
            }
            i = i + 1;
        }
    }
}

/// Port access that plays a scripted controller and records every access.
///
/// The output buffer starts with the `input` bytes; the n-th write to any port then appends
/// the n-th entry of `responses` to it, when that entry is `Some`. The status register reports
/// a byte to read while the buffer is not empty, and always accepts writes. Reading the data
/// register with the buffer empty gives 0.
pub struct ScriptedPorts {
    responses: Vec<Option<u8>>,
    writes: usize,
    buffer: Vec<u8>,
    head: usize,
    log: Vec<PortOp>,
}

impl ScriptedPorts {
    /// Every access made so far, in order.
    pub closed spec fn spec_log(&self) -> Seq<PortOp> {
        self.log@
    }

    /// The bytes in the output buffer, oldest first.
    pub closed spec fn spec_pending(&self) -> Seq<u8> {
        if self.head <= self.buffer@.len() {
            self.buffer@.subrange(self.head as int, self.buffer@.len() as int)
        } else {
            seq![]
        }
    }

    /// The responses to the writes still to come, in order.
    pub closed spec fn spec_responses(&self) -> Seq<Option<u8>> {
        if self.writes <= self.responses@.len() {
            self.responses@.subrange(self.writes as int, self.responses@.len() as int)
        } else {
            seq![]
        }
    }

    /// A scripted controller with `input` waiting to be read and `responses` to the writes.
    pub fn new(input: Vec<u8>, responses: Vec<Option<u8>>) -> (r: ScriptedPorts)
        ensures
            r.spec_log() == Seq::<PortOp>::empty(),
            r.spec_pending() == input@,
            r.spec_responses() == responses@,
    {
        let r = ScriptedPorts { responses, writes: 0, buffer: input, head: 0, log: Vec::new() };
        assert(r.spec_pending() =~= r.buffer@);
        assert(r.spec_responses() =~= r.responses@);
        r
    }

    /// Every access made so far, in order.
    pub fn log(&self) -> (r: &Vec<PortOp>)
        ensures
            r@ == self.spec_log(),
    {
        &self.log
    }

    /// The number of bytes in the output buffer.
    pub fn remaining(&self) -> (r: usize)
        ensures
            r == self.spec_pending().len(),
    {
        if self.head < self.buffer.len() {
            self.buffer.len() - self.head
        } else {
            0
        }
    }
}

impl PortIo for ScriptedPorts {
    fn read_port(&mut self, port: u16) -> u8 {
        let value = if port == STATUS_COMMAND_PORT {
            if self.head < self.buffer.len() {
                STATUS_OUTPUT_FULL
            } else {
                0
            }
        } else if port == DATA_PORT && self.head < self.buffer.len() {
            let b = self.buffer[self.head];
            self.head = self.head + 1;
            b
        } else {
            0
        };
        self.log.push(PortOp::Read { port, value });
        value
    }

    fn write_port(&mut self, port: u16, value: u8) {
        if self.writes < self.responses.len() {
            if let Some(b) = self.responses[self.writes] {
                self.buffer.push(b);
            }
        }
        if self.writes < usize::MAX {
            self.writes = self.writes + 1;
        }
        self.log.push(PortOp::Write { port, value });
    }
}

} // verus!
