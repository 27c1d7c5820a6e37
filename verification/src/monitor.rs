//! The transfer engine: chip-select sequencing, command transmission,
//! per-device reads with checksum verification, and completion polling.
//!
//! The engine owns the bus and the chip-select pin for its whole lifetime.
//! Its contracts are stated over the bus's exchange logs: every transmitted
//! command frame carries a correct checksum, every accepted response frame
//! passed the checksum check, responses keep chain order, and the
//! chip-select line ends released after every call — except while a
//! line-hold poll sequence is deliberately in progress, and except when the
//! release operation itself is what failed.

use crate::bus::ChipSelectPin;
use crate::bus::SpiBus;
use crate::framer::frame;
use crate::framer::spec_frame;
use crate::pec15::PEC15;
use crate::pec15::lemma_pec15_detects_single_bit_flip;
use crate::pec15::spec_pec15;
use vstd::prelude::*;

verus! {

/// Poll strategy: what happens to the chip-select line once a command has
/// been transmitted.
pub trait PollMethod<CS: ChipSelectPin>: Sized {
    /// True if the strategy leaves the line asserted after a command, so
    /// that completion can later be observed on the data-out line.
    spec fn holds_line(&self) -> bool;

    /// Concludes a command exchange: releases the line, or leaves it as it
    /// stands, according to the strategy.
    fn end_command(&self, cs: &mut CS) -> (r: Result<(), CS::Fault>)
        ensures
            r is Ok ==> (if self.holds_line() {
                final(cs).is_low() == old(cs).is_low()
            } else {
                !final(cs).is_low()
            }),
    ;
}

/// Leaves the chip-select line asserted; completion is observed later by
/// sampling the data-out line.
pub struct SDOLinePolling {}

impl<CS: ChipSelectPin> PollMethod<CS> for SDOLinePolling {
    open spec fn holds_line(&self) -> bool {
        true
    }

    fn end_command(&self, cs: &mut CS) -> (r: Result<(), CS::Fault>) {
        Ok(())
    }
}

/// Releases the chip-select line right after the command; no completion
/// polling is used.
pub struct NoPolling {}

impl<CS: ChipSelectPin> PollMethod<CS> for NoPolling {
    open spec fn holds_line(&self) -> bool {
        false
    }

    fn end_command(&self, cs: &mut CS) -> (r: Result<(), CS::Fault>) {
        cs.set_high()
    }
}

/// ADC frequency and filtering settings.
#[derive(Clone, Copy, Debug, PartialEq, Eq)]
pub enum ADCMode {
    /// 27kHz, or 14kHz with the alternative mode bit set.
    Fast,
    /// 7kHz, or 3kHz with the alternative mode bit set.
    Normal,
    /// 26Hz, or 2kHz with the alternative mode bit set.
    Filtered,
    /// 422Hz, or 1kHz with the alternative mode bit set.
    Other,
}

impl ADCMode {
    /// The 2-bit mode field of the conversion opcode.
    pub open spec fn spec_code(self) -> u16 {
        match self {
            ADCMode::Fast => 0x1,
            ADCMode::Normal => 0x2,
            ADCMode::Filtered => 0x3,
            ADCMode::Other => 0x0,
        }
    }

    fn code(self) -> (r: u16)
        ensures
            r == self.spec_code(),
    {
        match self {
            ADCMode::Fast => 0x1,
            ADCMode::Normal => 0x2,
            ADCMode::Filtered => 0x3,
            ADCMode::Other => 0x0,
        }
    }
}

/// Cell selection for an ADC conversion.
#[derive(Clone, Copy, Debug, PartialEq, Eq)]
pub enum CellSelection {
    /// All cells.
    All,
    /// Cells 1, 7, 13.
    Group1,
    /// Cells 2, 8, 14.
    Group2,
    /// Cells 3, 9, 15.
    Group3,
    /// Cells 4, 10, 16.
    Group4,
    /// Cells 5, 11, 17.
    Group5,
    /// Cells 6, 12, 18.
    Group6,
}

impl CellSelection {
    /// The cell-selection field of the conversion opcode.
    pub open spec fn spec_code(self) -> u16 {
        match self {
            CellSelection::All => 0x0,
            CellSelection::Group1 => 0x1,
            CellSelection::Group2 => 0x2,
            CellSelection::Group3 => 0x3,
            CellSelection::Group4 => 0x4,
            CellSelection::Group5 => 0x5,
            CellSelection::Group6 => 0x6,
        }
    }

    fn code(self) -> (r: u16)
        ensures
            r == self.spec_code(),
    {
        match self {
            CellSelection::All => 0x0,
            CellSelection::Group1 => 0x1,
            CellSelection::Group2 => 0x2,
            CellSelection::Group3 => 0x3,
            CellSelection::Group4 => 0x4,
            CellSelection::Group5 => 0x5,
            CellSelection::Group6 => 0x6,
        }
    }
}

/// Cell voltage register groups.
#[derive(Clone, Copy, Debug, PartialEq, Eq)]
pub enum CellVoltageRegister {
    RegisterA,
    RegisterB,
    RegisterC,
    RegisterD,
    RegisterE,
    RegisterF,
}

impl CellVoltageRegister {
    /// The read opcode of the register group.
    pub open spec fn spec_opcode(self) -> u16 {
        match self {
            CellVoltageRegister::RegisterA => 0x4,
            CellVoltageRegister::RegisterB => 0x6,
            CellVoltageRegister::RegisterC => 0x8,
            CellVoltageRegister::RegisterD => 0xA,
            CellVoltageRegister::RegisterE => 0x9,
            CellVoltageRegister::RegisterF => 0xB,
        }
    }

    fn opcode(self) -> (r: u16)
        ensures
            r == self.spec_opcode(),
    {
        match self {
            CellVoltageRegister::RegisterA => 0x4,
            CellVoltageRegister::RegisterB => 0x6,
            CellVoltageRegister::RegisterC => 0x8,
            CellVoltageRegister::RegisterD => 0xA,
            CellVoltageRegister::RegisterE => 0x9,
            CellVoltageRegister::RegisterF => 0xB,
        }
    }
}

/// Error of a transfer-engine call. `BE` is the bus's failure value, `CE`
/// the chip-select pin's; both are propagated verbatim and never retried.
#[derive(Debug, PartialEq)]
pub enum Error<BE, CE> {
    /// The bus transfer failed.
    TransferError(BE),
    /// Changing the chip-select line failed.
    CSPinError(CE),
    /// The checksum of a returned response frame was invalid.
    ChecksumMismatch,
}

/// The conversion opcode composed from its fixed base, the mode bits
/// (shifted into bits 7..9), the cell-selection bits (bits 0..3) and the
/// discharge-permit flag (bit 4). The fields never overlap.
pub open spec fn conv_command(mode: ADCMode, cells: CellSelection, dcp: bool) -> u16 {
    let base = 0x0260u16 | (mode.spec_code() << 7) | cells.spec_code();
    if dcp {
        base | 0x0010
    } else {
        base
    }
}

/// `n` all-ones filler bytes, clocked out to read a response.
pub open spec fn fill_frame(n: int) -> Seq<u8> {
    Seq::new(n as nat, |i: int| 0xffu8)
}

/// True of an 8-byte response frame whose trailing two bytes equal the
/// checksum of its six payload bytes.
pub open spec fn valid_response(f: Seq<u8>) -> bool {
    f.len() == 8 && spec_pec15(f.subrange(0, 6)) == seq![f[6], f[7]]
}

/// The three 16-bit values held little-endian in the first six bytes of a
/// response frame.
pub open spec fn decode_payload(f: Seq<u8>) -> Seq<u16>
    recommends
        f.len() >= 6,
{
    seq![
        (f[0] as u16) | ((f[1] as u16) << 8),
        (f[2] as u16) | ((f[3] as u16) << 8),
        (f[4] as u16) | ((f[5] as u16) << 8),
    ]
}

/// Law: round-trip. A response frame assembled from three 16-bit values,
/// encoded little-endian and completed with their correct checksum, is
/// accepted by the integrity check and decodes to exactly those three
/// values, in order.
pub proof fn lemma_response_round_trip(a: u16, b: u16, c: u16)
    ensures
        ({
            let payload = seq![
                a as u8,
                (a >> 8) as u8,
                b as u8,
                (b >> 8) as u8,
                c as u8,
                (c >> 8) as u8,
            ];
            let f = payload + spec_pec15(payload);
            valid_response(f) && decode_payload(f) == seq![a, b, c]
        }),
{
    let payload = seq![a as u8, (a >> 8) as u8, b as u8, (b >> 8) as u8, c as u8, (c >> 8) as u8];
    let pec = spec_pec15(payload);
    let f = payload + pec;
    assert(f.subrange(0, 6) =~= payload);
    assert(seq![f[6], f[7]] =~= pec);
    assert(((a as u8) as u16) | ((((a >> 8) as u8) as u16) << 8) == a) by (bit_vector);
    assert(((b as u8) as u16) | ((((b >> 8) as u8) as u16) << 8) == b) by (bit_vector);
    assert(((c as u8) as u16) | ((((c >> 8) as u8) as u16) << 8) == c) by (bit_vector);
    assert(decode_payload(f) =~= seq![a, b, c]);
}

/// Law: round-trip, rejection half. A response frame that passes the
/// integrity check stops passing it when any single bit of its six payload
/// bytes is flipped.
pub proof fn lemma_response_bit_flip_rejected(f: Seq<u8>, j: int, m: u8)
    requires
        valid_response(f),
        0 <= j < 6,
        m < 8,
    ensures
        !valid_response(f.update(j, f[j] ^ (1u8 << m))),
{
    let f2 = f.update(j, f[j] ^ (1u8 << m));
    assert(f2.subrange(0, 6) =~= f.subrange(0, 6).update(j, f[j] ^ (1u8 << m)));
    lemma_pec15_detects_single_bit_flip(f.subrange(0, 6), j, m);
    if valid_response(f2) {
        assert(seq![f2[6], f2[7]] =~= seq![f[6], f[7]]);
    }
}

/// Client for an LTC681X daisy chain of `L` devices over bus `B` with
/// chip-select pin `CS`, concluding commands with poll strategy `P`.
pub struct LTC681X<B: SpiBus, CS: ChipSelectPin, P: PollMethod<CS>, const L: usize> {
    /// The serial bus.
    bus: B,
    /// The chip-select pin.
    cs: CS,
    /// The strategy concluding each command exchange.
    poll_method: P,
}

impl<B: SpiBus, CS: ChipSelectPin, P: PollMethod<CS>, const L: usize> LTC681X<B, CS, P, L> {
    /// The buffers the engine has clocked out over the bus, oldest first.
    pub closed spec fn sent_log(&self) -> Seq<Seq<u8>> {
        self.bus.sent_log()
    }

    /// The buffers the engine has clocked in over the bus, oldest first.
    pub closed spec fn recv_log(&self) -> Seq<Seq<u8>> {
        self.bus.recv_log()
    }

    /// True while the chip-select line is asserted (low).
    pub closed spec fn cs_asserted(&self) -> bool {
        self.cs.is_low()
    }

    /// True if the active poll strategy holds the line after a command.
    pub closed spec fn holds_line(&self) -> bool {
        self.poll_method.holds_line()
    }

    /// The bus collaborator, for inspection.
    pub fn bus_ref(&self) -> (r: &B)
        ensures
            r.sent_log() == self.sent_log(),
            r.recv_log() == self.recv_log(),
    {
        &self.bus
    }

    /// The chip-select collaborator, for inspection.
    pub fn cs_ref(&self) -> (r: &CS)
        ensures
            r.is_low() == self.cs_asserted(),
    {
        &self.cs
    }

    /// Frames `command` and transmits it: the opcode's two big-endian bytes
    /// followed by their checksum. The received bytes of this exchange carry
    /// no payload and are discarded.
    fn send_command(&mut self, command: u16) -> (r: Result<(), B::Fault>)
        ensures
            final(self).cs_asserted() == old(self).cs_asserted(),
            final(self).holds_line() == old(self).holds_line(),
            r is Ok ==> final(self).sent_log() == old(self).sent_log().push(spec_frame(command))
                && final(self).recv_log().len() == old(self).recv_log().len() + 1 && final(self).recv_log().take(old(self).recv_log().len() as int) == old(self).recv_log(),
            r is Err ==> final(self).sent_log() == old(self).sent_log() && final(self).recv_log()
                == old(self).recv_log(),
    {
        let f = frame(command);
        let mut data: Vec<u8> = Vec::new();
        data.push(f[0]);
        data.push(f[1]);
        data.push(f[2]);
        data.push(f[3]);
        proof {
            assert(data@ =~= spec_frame(command));
        }
        let r = self.bus.transfer(&mut data);
        proof {
            if r is Ok {
                lemma_push_keeps_prefix(old(self).recv_log(), final(self).recv_log().last());
            }
        }
        r
    }

    /// Performs one 8-byte per-device read: clocks out all-ones filler and
    /// verifies that the trailing two received bytes equal the checksum of
    /// the six received payload bytes, decoding those into three
    /// little-endian 16-bit values.
    fn read(&mut self) -> (r: Result<[u16; 3], Error<B::Fault, CS::Fault>>)
        ensures
            final(self).cs_asserted() == old(self).cs_asserted(),
            final(self).holds_line() == old(self).holds_line(),
            final(self).sent_log().len() >= old(self).sent_log().len(),
            final(self).recv_log().len() >= old(self).recv_log().len(),
            final(self).sent_log().take(old(self).sent_log().len() as int) == old(self).sent_log(),
            final(self).recv_log().take(old(self).recv_log().len() as int) == old(self).recv_log(),
            r matches Ok(t) ==> ({
                &&& final(self).sent_log() == old(self).sent_log().push(fill_frame(8))
                &&& final(self).recv_log().len() == old(self).recv_log().len() + 1
                &&& final(self).recv_log().take(old(self).recv_log().len() as int) == old(self).recv_log()
                &&& valid_response(final(self).recv_log().last())
                &&& t@ == decode_payload(final(self).recv_log().last())
            }),
            r matches Err(e) ==> !(e is CSPinError),
            r matches Err(e) ==> (e is TransferError ==> final(self).sent_log() == old(self).sent_log() && final(self).recv_log() == old(self).recv_log()),
            r matches Err(e) ==> (e is ChecksumMismatch ==> ({
                &&& final(self).sent_log() == old(self).sent_log().push(fill_frame(8))
                &&& final(self).recv_log().len() == old(self).recv_log().len() + 1
                &&& final(self).recv_log().take(old(self).recv_log().len() as int) == old(self).recv_log()
                &&& !valid_response(final(self).recv_log().last())
            })),
    {
        let mut data: Vec<u8> = Vec::new();
        let mut k: usize = 0;
        while k < 8
            invariant
                k <= 8,
                data@ =~= fill_frame(k as int),
            decreases 8 - k,
        {
            data.push(0xff);
            proof {
                assert(data@ =~= fill_frame(k + 1));
            }
            k = k + 1;
        }
        proof {
            assert(data@ =~= fill_frame(8));
        }
        match self.bus.transfer(&mut data) {
            Err(e) => {
                proof {
                    lemma_take_full(old(self).sent_log());
                    lemma_take_full(old(self).recv_log());
                }
                return Err(Error::TransferError(e));
            },
            Ok(()) => {},
        }
        proof {
            lemma_push_keeps_prefix(old(self).sent_log(), self.sent_log().last());
            lemma_push_keeps_prefix(old(self).recv_log(), self.recv_log().last());
            assert(self.recv_log().last() == data@);
        }
        let mut payload: Vec<u8> = Vec::new();
        payload.push(data[0]);
        payload.push(data[1]);
        payload.push(data[2]);
        payload.push(data[3]);
        payload.push(data[4]);
        payload.push(data[5]);
        proof {
            assert(payload@ =~= data@.subrange(0, 6));
        }
        let pec = PEC15::calc(payload.as_slice());
        if pec[0] != data[6] || pec[1] != data[7] {
            proof {
                assert(!valid_response(data@));
            }
            return Err(Error::ChecksumMismatch);
        }
        proof {
            assert(seq![data@[6], data@[7]] =~= spec_pec15(data@.subrange(0, 6)));
        }
        let t = [
            (data[0] as u16) | ((data[1] as u16) << 8),
            (data[2] as u16) | ((data[3] as u16) << 8),
            (data[4] as u16) | ((data[5] as u16) << 8),
        ];
        proof {
            assert(t@ =~= decode_payload(data@));
        }
        Ok(t)
    }

    /// Starts an ADC conversion of cell voltages: asserts chip-select,
    /// composes the conversion opcode from the mode, cell selection and
    /// discharge permission, transmits its frame, and concludes through the
    /// active poll strategy. On a bus failure the line is released before
    /// the error is returned.
    pub fn start_conv_cells(&mut self, mode: ADCMode, cells: CellSelection, dcp: bool) -> (r:
        Result<(), Error<B::Fault, CS::Fault>>)
        ensures
            final(self).holds_line() == old(self).holds_line(),
            final(self).sent_log().take(old(self).sent_log().len() as int) == old(self).sent_log(),
            final(self).recv_log().take(old(self).recv_log().len() as int) == old(self).recv_log(),
            r is Ok ==> ({
                &&& final(self).sent_log() == old(self).sent_log().push(
                    spec_frame(conv_command(mode, cells, dcp)),
                )
                &&& final(self).recv_log().len() == old(self).recv_log().len() + 1
                &&& (old(self).holds_line() ==> final(self).cs_asserted())
                &&& (!old(self).holds_line() ==> !final(self).cs_asserted())
            }),
            r matches Err(e) ==> !(e is ChecksumMismatch),
            r matches Err(e) ==> (e is TransferError ==> !final(self).cs_asserted() && final(self).sent_log() == old(self).sent_log()),
    {
        match self.cs.set_low() {
            Err(e) => {
                proof {
                    lemma_take_full(old(self).sent_log());
                    lemma_take_full(old(self).recv_log());
                }
                return Err(Error::CSPinError(e));
            },
            Ok(()) => {},
        }
        let mode_bits = mode.code();
        let cell_bits = cells.code();
        let mut command: u16 = 0x0260;
        command = command | (mode_bits << 7);
        command = command | cell_bits;
        if dcp {
            command = command | 0x0010;
        }
        proof {
            assert(command == conv_command(mode, cells, dcp));
        }
        match self.send_command(command) {
            Err(e) => {
                proof {
                    lemma_take_full(old(self).sent_log());
                    lemma_take_full(old(self).recv_log());
                }
                match self.cs.set_high() {
                    Err(pe) => {
                        return Err(Error::CSPinError(pe));
                    },
                    Ok(()) => {
                        return Err(Error::TransferError(e));
                    },
                }
            },
            Ok(()) => {},
        }
        proof {
            lemma_push_keeps_prefix(old(self).sent_log(), self.sent_log().last());
        }
        match self.poll_method.end_command(&mut self.cs) {
            Err(e) => Err(Error::CSPinError(e)),
            Ok(()) => Ok(()),
        }
    }

    /// Reads one register group across the whole chain: asserts chip-select,
    /// transmits the register's read opcode, performs one 8-byte read per
    /// device in chain order, and releases the line on every path. The first
    /// checksum mismatch aborts the whole call: no partial results are ever
    /// returned. On success the `L` decoded triples are returned in the
    /// order the devices answered.
    pub fn read_cell_voltages(&mut self, register: CellVoltageRegister) -> (r: Result<
        Vec<[u16; 3]>,
        Error<B::Fault, CS::Fault>,
    >)
        ensures
            final(self).holds_line() == old(self).holds_line(),
            final(self).sent_log().take(old(self).sent_log().len() as int) == old(self).sent_log(),
            final(self).recv_log().take(old(self).recv_log().len() as int) == old(self).recv_log(),
            r matches Ok(v) ==> ({
                let sbase = old(self).sent_log().len() as int;
                let rbase = old(self).recv_log().len() as int;
                &&& v@.len() == L as int
                &&& !final(self).cs_asserted()
                &&& final(self).sent_log().len() == sbase + 1 + L as int
                &&& final(self).sent_log()[sbase] == spec_frame(register.spec_opcode())
                &&& forall|i: int|
                    0 <= i < L as int ==> #[trigger] final(self).sent_log()[sbase + 1 + i]
                        == fill_frame(8)
                &&& final(self).recv_log().len() == rbase + 1 + L as int
                &&& forall|i: int|
                    0 <= i < L as int ==> valid_response(
                        #[trigger] final(self).recv_log()[rbase + 1 + i],
                    )
                &&& forall|i: int|
                    0 <= i < L as int ==> (#[trigger] v@[i])@ == decode_payload(
                        final(self).recv_log()[rbase + 1 + i],
                    ) && valid_response(final(self).recv_log()[rbase + 1 + i])
            }),
            r matches Err(e) ==> (e is TransferError ==> !final(self).cs_asserted()),
            r matches Err(e) ==> (e is ChecksumMismatch ==> !final(self).cs_asserted() && final(self).recv_log().len() > old(self).recv_log().len() + 1 && !valid_response(
                final(self).recv_log().last(),
            )),
    {
        let ghost sbase = self.sent_log().len() as int;
        let ghost rbase = self.recv_log().len() as int;
        proof {
            lemma_take_full(old(self).sent_log());
            lemma_take_full(old(self).recv_log());
        }
        match self.cs.set_low() {
            Err(e) => {
                return Err(Error::CSPinError(e));
            },
            Ok(()) => {},
        }
        match self.send_command(register.opcode()) {
            Err(e) => {
                match self.cs.set_high() {
                    Err(pe) => {
                        return Err(Error::CSPinError(pe));
                    },
                    Ok(()) => {
                        return Err(Error::TransferError(e));
                    },
                }
            },
            Ok(()) => {},
        }
        proof {
            lemma_push_keeps_prefix(old(self).sent_log(), self.sent_log().last());
        }
        let mut result: Vec<[u16; 3]> = Vec::new();
        let mut i: usize = 0;
        while i < L
            invariant
                i <= L,
                sbase == old(self).sent_log().len() as int,
                rbase == old(self).recv_log().len() as int,
                result@.len() == i as int,
                self.cs_asserted(),
                self.holds_line() == old(self).holds_line(),
                self.sent_log().len() == sbase + 1 + i as int,
                self.sent_log().take(sbase) == old(self).sent_log(),
                self.sent_log()[sbase] == spec_frame(register.spec_opcode()),
                forall|k: int|
                    0 <= k < i as int ==> #[trigger] self.sent_log()[sbase + 1 + k] == fill_frame(
                        8,
                    ),
                self.recv_log().len() == rbase + 1 + i as int,
                self.recv_log().take(rbase) == old(self).recv_log(),
                forall|k: int|
                    0 <= k < i as int ==> valid_response(
                        #[trigger] self.recv_log()[rbase + 1 + k],
                    ),
                forall|k: int|
                    0 <= k < i as int ==> (#[trigger] result@[k])@ == decode_payload(
                        self.recv_log()[rbase + 1 + k],
                    ),
            decreases L - i,
        {
            let ghost prev_sent = self.sent_log();
            let ghost prev_recv = self.recv_log();
            let ghost prev_result = result@;
            match self.read() {
                Ok(t) => {
                    result.push(t);
                },
                Err(e) => {
                    proof {
                        lemma_take_of_take(self.sent_log(), sbase, prev_sent);
                        lemma_take_of_take(self.recv_log(), rbase, prev_recv);
                    }
                    match self.cs.set_high() {
                        Err(pe) => {
                            return Err(Error::CSPinError(pe));
                        },
                        Ok(()) => {
                            return Err(e);
                        },
                    }
                },
            }
            proof {
                lemma_take_of_take(self.sent_log(), sbase, prev_sent);
                lemma_take_of_take(self.recv_log(), rbase, prev_recv);
                assert forall|k: int| 0 <= k <= i as int implies #[trigger] self.sent_log()[sbase
                    + 1 + k] == fill_frame(8) by {
                    if k < i as int {
                        lemma_take_index(self.sent_log(), prev_sent.len() as int, sbase + 1 + k);
                    } else {
                        assert(self.sent_log() == prev_sent.push(fill_frame(8)));
                    }
                }
                assert forall|k: int| 0 <= k <= i as int implies valid_response(
                    #[trigger] self.recv_log()[rbase + 1 + k],
                ) && result@[k]@ == decode_payload(self.recv_log()[rbase + 1 + k]) by {
                    assert(result@ == prev_result.push(result@.last()));
                    if k < i as int {
                        lemma_take_index(self.recv_log(), prev_recv.len() as int, rbase + 1 + k);
                        assert(result@[k] == prev_result[k]);
                    } else {
                        assert(rbase + 1 + k == self.recv_log().len() - 1);
                        assert(self.recv_log()[rbase + 1 + k] == self.recv_log().last());
                        assert(result@[k] == result@.last());
                    }
                }
            }
            i = i + 1;
        }
        match self.cs.set_high() {
            Err(e) => {
                return Err(Error::CSPinError(e));
            },
            Ok(()) => {},
        }
        Ok(result)
    }
}

impl<B: SpiBus, CS: ChipSelectPin, const L: usize> LTC681X<B, CS, NoPolling, L> {
    /// A new engine over `bus` and `cs`, releasing the chip-select line
    /// right after each command.
    pub fn new(bus: B, cs: CS) -> (r: Self)
        ensures
            r.sent_log() == bus.sent_log(),
            r.recv_log() == bus.recv_log(),
            r.cs_asserted() == cs.is_low(),
            !r.holds_line(),
    {
        LTC681X { bus, cs, poll_method: NoPolling {} }
    }
}

impl<B: SpiBus, CS: ChipSelectPin, P: PollMethod<CS>, const L: usize> LTC681X<B, CS, P, L> {
    /// Switches to data-out-line polling. The switch is explicit and
    /// irreversible: it consumes this engine and yields a new one over the
    /// same collaborators.
    pub fn enable_sdo_polling(self) -> (r: LTC681X<B, CS, SDOLinePolling, L>)
        ensures
            r.sent_log() == self.sent_log(),
            r.recv_log() == self.recv_log(),
            r.cs_asserted() == self.cs_asserted(),
            r.holds_line(),
    {
        LTC681X { bus: self.bus, cs: self.cs, poll_method: SDOLinePolling {} }
    }
}

impl<B: SpiBus, CS: ChipSelectPin, const L: usize> LTC681X<B, CS, SDOLinePolling, L> {
    /// Samples the data-out line for conversion completion: clocks out one
    /// all-ones byte. An all-ones byte back means the chain is idle — the
    /// chip-select line is released and `true` returned. Any other byte is
    /// reported as `false` with the line left as it stands, so the caller
    /// may poll again without resending the command.
    pub fn adc_ready(&mut self) -> (r: Result<bool, Error<B::Fault, CS::Fault>>)
        ensures
            final(self).sent_log().take(old(self).sent_log().len() as int) == old(self).sent_log(),
            final(self).recv_log().take(old(self).recv_log().len() as int) == old(self).recv_log(),
            r matches Ok(done) ==> ({
                &&& final(self).sent_log() == old(self).sent_log().push(fill_frame(1))
                &&& final(self).recv_log().len() == old(self).recv_log().len() + 1
                &&& final(self).recv_log().last().len() == 1
                &&& (done <==> final(self).recv_log().last()[0] == 0xff)
                &&& (done ==> !final(self).cs_asserted())
                &&& (!done ==> final(self).cs_asserted() == old(self).cs_asserted())
            }),
            r matches Err(e) ==> !(e is ChecksumMismatch),
            r matches Err(e) ==> (e is TransferError ==> final(self).sent_log() == old(self).sent_log() && final(self).recv_log() == old(self).recv_log() && final(self).cs_asserted() == old(self).cs_asserted()),
    {
        proof {
            lemma_take_full(old(self).sent_log());
            lemma_take_full(old(self).recv_log());
        }
        let mut data: Vec<u8> = Vec::new();
        data.push(0xff);
        proof {
            assert(data@ =~= fill_frame(1));
        }
        match self.bus.transfer(&mut data) {
            Err(e) => {
                return Err(Error::TransferError(e));
            },
            Ok(()) => {},
        }
        proof {
            lemma_push_keeps_prefix(old(self).sent_log(), self.sent_log().last());
            lemma_push_keeps_prefix(old(self).recv_log(), self.recv_log().last());
        }
        if data[0] == 0xff {
            match self.cs.set_high() {
                Err(e) => {
                    return Err(Error::CSPinError(e));
                },
                Ok(()) => {},
            }
            return Ok(true);
        }
        Ok(false)
    }
}

/// An index below a take's bound reads the underlying sequence.
proof fn lemma_take_index<T>(s: Seq<T>, n: int, j: int)
    requires
        0 <= j < n <= s.len(),
    ensures
        s.take(n)[j] == s[j],
{
}

/// Pushing onto a sequence leaves its old content as the prefix.
proof fn lemma_push_keeps_prefix<T>(s: Seq<T>, x: T)
    ensures
        s.push(x).take(s.len() as int) == s,
{
    assert(s.push(x).take(s.len() as int) =~= s);
}

/// Taking a sequence's whole length gives the sequence back.
proof fn lemma_take_full<T>(s: Seq<T>)
    ensures
        s.take(s.len() as int) == s,
{
    assert(s.take(s.len() as int) =~= s);
}

/// A shorter take of a longer one: if `p` is a prefix seen as `long.take`,
/// then taking `n` bytes of `long` equals taking `n` of `p`.
proof fn lemma_take_of_take<T>(long: Seq<T>, n: int, p: Seq<T>)
    requires
        0 <= n <= p.len(),
        p.len() <= long.len(),
        long.take(p.len() as int) == p,
    ensures
        long.take(n) == p.take(n),
{
    assert(long.take(n) =~= p.take(n));
}

} // verus!
