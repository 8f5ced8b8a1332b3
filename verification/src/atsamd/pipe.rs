//! Pipes: the descriptors in memory that the USB peripheral reads, cf
//! §32.8.7 of the SAMD21 data sheet, and the decisions of the engine that
//! makes transfers with them. The engine is told what the registers of the
//! pipe hold and says what is to be written to them.
use crate::bits::{field8, le16, le32, with_field32, word_byte};
use crate::control::{RequestCode, RequestDirection, RequestType, SetupPacket, WValue};
use crate::endpoint::HostEndpoint;
use crate::{HostError, TransferType};
use vstd::prelude::*;

#[allow(unused)]
pub mod addr;
#[allow(unused)]
pub mod ctrl_pipe;
#[allow(unused)]
pub mod ext_reg;
#[allow(unused)]
pub mod pck_size;
#[allow(unused)]
pub mod status_bk;
#[allow(unused)]
pub mod status_pipe;
#[allow(unused)]
pub mod table;

use addr::Addr;
use ctrl_pipe::CtrlPipe;
use ext_reg::ExtReg;
use pck_size::PckSize;
use status_bk::StatusBk;
use status_pipe::StatusPipe;

verus! {

/// Maximum time to wait for a control request with data to finish, in
/// milliseconds. cf §9.2.6.1 of USB 2.0.
pub const USB_TIMEOUT: u64 = 5000;

/// samd21 only supports 8 pipes.
pub const MAX_PIPES: usize = 8;

/// How many times to retry a transaction that has transient errors.
pub const NAK_LIMIT: usize = 15;

/// The largest number of bytes that the byte count of a bank can hold, and
/// one more.
pub const BYTE_COUNT_LIMIT: u16 = 16_384;

/// The token that opens a transaction.
#[derive(Copy, Clone, Debug, PartialEq, Eq, Structural)]
pub enum PipeToken {
    Setup,
    In,
    Out,
}

impl PipeToken {
    /// The token as the configuration register of the pipe holds it.
    pub open spec fn code(self) -> u8 {
        match self {
            Self::Setup => 0x0,
            Self::In => 0x1,
            Self::Out => 0x2,
        }
    }

    /// The token as the configuration register of the pipe holds it.
    pub fn bits(self) -> (b: u8)
        ensures
            b == self.code(),
    {
        match self {
            Self::Setup => 0x0,
            Self::In => 0x1,
            Self::Out => 0x2,
        }
    }
}

/// The type of a pipe.
#[derive(Copy, Clone, Debug, PartialEq, Eq, Structural)]
pub enum PipeType {
    Disabled,
    Control,
    ISO,
    Bulk,
    Interrupt,
    Extended,
    _Reserved0,
    _Reserved1,
}

impl PipeType {
    /// The type as the configuration register of the pipe holds it.
    pub open spec fn code(self) -> u8 {
        match self {
            Self::Disabled => 0x0,
            Self::Control => 0x1,
            Self::ISO => 0x2,
            Self::Bulk => 0x3,
            Self::Interrupt => 0x4,
            Self::Extended => 0x5,
            Self::_Reserved0 => 0x6,
            Self::_Reserved1 => 0x7,
        }
    }

    /// The type as the configuration register of the pipe holds it.
    pub fn bits(self) -> (b: u8)
        ensures
            b == self.code(),
    {
        match self {
            Self::Disabled => 0x0,
            Self::Control => 0x1,
            Self::ISO => 0x2,
            Self::Bulk => 0x3,
            Self::Interrupt => 0x4,
            Self::Extended => 0x5,
            Self::_Reserved0 => 0x6,
            Self::_Reserved1 => 0x7,
        }
    }

    /// The type of the pipe for transfers of the type `v`.
    pub open spec fn of_transfer(v: TransferType) -> Self {
        match v {
            TransferType::Control => Self::Control,
            TransferType::Isochronous => Self::ISO,
            TransferType::Bulk => Self::Bulk,
            TransferType::Interrupt => Self::Interrupt,
        }
    }
}

impl From<TransferType> for PipeType {
    fn from(v: TransferType) -> (t: Self)
        ensures
            t == PipeType::of_transfer(v),
    {
        match v {
            TransferType::Control => Self::Control,
            TransferType::Isochronous => Self::ISO,
            TransferType::Bulk => Self::Bulk,
            TransferType::Interrupt => Self::Interrupt,
        }
    }
}

impl vstd::std_specs::convert::FromSpecImpl<TransferType> for PipeType {
    open spec fn obeys_from_spec() -> bool {
        true
    }

    open spec fn from_spec(v: TransferType) -> Self {
        PipeType::of_transfer(v)
    }
}

/// The descriptor of a pipe, cf §32.8.7.1: two banks, 32 bytes.
#[derive(Clone, Copy, Debug)]
pub struct PipeDesc {
    pub bank0: BankDesc,
    /// For double buffering, which the engine does not use
    pub bank1: BankDesc,
}

/// The number of bytes of a pipe descriptor in memory.
pub const PIPE_DESC_LEN: usize = 32;

/// The number of bytes of a bank in memory.
pub const BANK_DESC_LEN: usize = 16;

impl PipeDesc {
    /// A descriptor with every register at zero.
    pub fn new() -> (d: Self)
        ensures
            d.bank0.is_zero(),
            d.bank1.is_zero(),
    {
        Self { bank0: BankDesc::new(), bank1: BankDesc::new() }
    }

    /// The descriptor as it lies in memory: bank 0 at offset 0, bank 1 at
    /// offset 0x10.
    pub open spec fn image(self) -> Seq<u8> {
        self.bank0.image() + self.bank1.image()
    }

    /// The descriptor as it lies in memory.
    pub fn to_bytes(&self) -> (bytes: [u8; 32])
        ensures
            bytes@ == self.image(),
            bytes@.subrange(0, 16) == self.bank0.image(),
            bytes@.subrange(16, 32) == self.bank1.image(),
    {
        let b0 = self.bank0.to_bytes();
        let b1 = self.bank1.to_bytes();
        let bytes = [
            b0[0],
            b0[1],
            b0[2],
            b0[3],
            b0[4],
            b0[5],
            b0[6],
            b0[7],
            b0[8],
            b0[9],
            b0[10],
            b0[11],
            b0[12],
            b0[13],
            b0[14],
            b0[15],
            b1[0],
            b1[1],
            b1[2],
            b1[3],
            b1[4],
            b1[5],
            b1[6],
            b1[7],
            b1[8],
            b1[9],
            b1[10],
            b1[11],
            b1[12],
            b1[13],
            b1[14],
            b1[15],
        ];
        proof {
            assert(bytes@ =~= self.image());
            assert(bytes@.subrange(0, 16) =~= self.bank0.image());
            assert(bytes@.subrange(16, 32) =~= self.bank1.image());
        }
        bytes
    }
}

/// One bank of a pipe descriptor: 16 bytes.
#[derive(Clone, Copy, Debug)]
pub struct BankDesc {
    pub addr: Addr,
    pub pcksize: PckSize,
    pub extreg: ExtReg,
    pub status_bk: StatusBk,
    pub ctrl_pipe: CtrlPipe,
    pub status_pipe: StatusPipe,
}

impl BankDesc {
    /// Whether every register is zero.
    pub open spec fn is_zero(self) -> bool {
        &&& self.addr@ == 0
        &&& self.pcksize@ == 0
        &&& self.extreg@ == 0
        &&& self.status_bk@ == 0
        &&& self.ctrl_pipe@ == 0
        &&& self.status_pipe@ == 0
    }

    /// A bank with every register at zero.
    pub fn new() -> (b: Self)
        ensures
            b.is_zero(),
    {
        Self {
            addr: Addr::from(0),
            pcksize: PckSize::from(0),
            extreg: ExtReg::from(0),
            status_bk: StatusBk::from(0),
            ctrl_pipe: CtrlPipe::from(0),
            status_pipe: StatusPipe::from(0),
        }
    }

    /// The bank as it lies in memory, each register with its low byte
    /// first: the address at offset 0, the packet size at 4, the extended
    /// register at 8, the bank status at 0xa, a byte that is not used, the
    /// pipe control at 0xc, the pipe status at 0xe, and another byte that is
    /// not used.
    pub open spec fn image(self) -> Seq<u8> {
        le32(self.addr@) + le32(self.pcksize@) + le16(self.extreg@) + seq![self.status_bk@, 0u8]
            + le16(self.ctrl_pipe@) + seq![self.status_pipe@, 0u8]
    }

    /// The bank as it lies in memory.
    pub fn to_bytes(&self) -> (bytes: [u8; 16])
        ensures
            bytes@ == self.image(),
            bytes@.subrange(0, 4) == le32(self.addr@),
            bytes@.subrange(4, 8) == le32(self.pcksize@),
            bytes@.subrange(8, 10) == le16(self.extreg@),
            bytes@[10] == self.status_bk@,
            bytes@.subrange(12, 14) == le16(self.ctrl_pipe@),
            bytes@[14] == self.status_pipe@,
    {
        let a = self.addr.read().bits();
        let p = self.pcksize.read().bits();
        let e = self.extreg.read().bits();
        let c = self.ctrl_pipe.read().bits();
        let bytes = [
            word_byte(a, 0),
            word_byte(a, 1),
            word_byte(a, 2),
            word_byte(a, 3),
            word_byte(p, 0),
            word_byte(p, 1),
            word_byte(p, 2),
            word_byte(p, 3),
            crate::bits::lo_byte(e),
            crate::bits::hi_byte(e),
            self.status_bk.read().bits(),
            0,
            crate::bits::lo_byte(c),
            crate::bits::hi_byte(c),
            self.status_pipe.read().bits(),
            0,
        ];
        proof {
            assert(bytes@ =~= self.image());
            assert(bytes@.subrange(0, 4) =~= le32(self.addr@));
            assert(bytes@.subrange(4, 8) =~= le32(self.pcksize@));
            assert(bytes@.subrange(8, 10) =~= le16(self.extreg@));
            assert(bytes@.subrange(12, 14) =~= le16(self.ctrl_pipe@));
        }
        bytes
    }
}

/// The interrupt flags of a pipe that the engine looks at.
#[derive(Clone, Copy, Debug, PartialEq, Eq, Structural)]
pub struct PipeFlags {
    /// TRCPT0: a transfer through bank 0 is complete
    pub trcpt0: bool,
    /// TXSTP: the setup packet was sent
    pub txstp: bool,
    /// STALL: the device answered with a stall
    pub stall: bool,
    /// TRFAIL: the transfer failed
    pub trfail: bool,
}

/// One of the interrupt flags of a pipe.
#[derive(Clone, Copy, Debug, PartialEq, Eq, Structural)]
pub enum PipeFlag {
    TransferComplete,
    SetupSent,
    Stall,
    TransferFail,
}

/// What a look at a pipe found, and what is to be written to the pipe for
/// it.
#[derive(Clone, Copy, Debug, PartialEq, Eq)]
pub struct Dispatched {
    /// Done, not yet done, or failed
    pub result: Result<bool, HostError>,
    /// The interrupt flag to acknowledge, if one was acted upon
    pub clear: Option<PipeFlag>,
    /// Whether the pipe is to be frozen
    pub freeze: bool,
}

/// Bit `pos` of `bits`.
pub open spec fn bit8(bits: u8, pos: u8) -> bool {
    field8(bits, pos, 1) == 1
}

/// The flag that says that a transaction with the token `token` is
/// complete.
pub open spec fn completion_flag(token: PipeToken) -> PipeFlag {
    match token {
        PipeToken::Setup => PipeFlag::SetupSent,
        PipeToken::In => PipeFlag::TransferComplete,
        PipeToken::Out => PipeFlag::TransferComplete,
    }
}

/// Whether the flags say that a transaction with the token `token` is
/// complete.
pub open spec fn transfer_complete(token: PipeToken, flags: PipeFlags) -> bool {
    match token {
        PipeToken::Setup => flags.txstp,
        PipeToken::In => flags.trcpt0,
        PipeToken::Out => flags.trcpt0,
    }
}

/// What the flags of a pipe and the status of its bank say of a transaction
/// with the token `token`. Completion comes first; then the errors in this
/// order: error flow, which is a NAK, CRC16, PID, data PID, time out, data
/// toggle, stall, transfer fail.
pub open spec fn poll_result(token: PipeToken, flags: PipeFlags, bank: BankDesc) -> Result<
    bool,
    HostError,
> {
    if transfer_complete(token, flags) {
        Ok(true)
    } else if bit8(bank.status_bk@, 1) {
        Err(HostError::Nak)
    } else if bit8(bank.status_pipe@, 4) {
        Err(HostError::Crc)
    } else if bit8(bank.status_pipe@, 2) {
        Err(HostError::Pid)
    } else if bit8(bank.status_pipe@, 1) {
        Err(HostError::DataPid)
    } else if bit8(bank.status_pipe@, 3) {
        Err(HostError::HardTimeout)
    } else if bit8(bank.status_pipe@, 0) {
        Err(HostError::Toggle)
    } else if flags.stall {
        Err(HostError::Stall)
    } else if flags.trfail {
        Err(HostError::Fail)
    } else {
        Ok(false)
    }
}

/// The interrupt flag that is acknowledged for the result `result` of a
/// look at a pipe: the one that the result was read from.
pub open spec fn flag_to_clear(token: PipeToken, result: Result<bool, HostError>) -> Option<
    PipeFlag,
> {
    match result {
        Ok(true) => Some(completion_flag(token)),
        Err(HostError::Stall) => Some(PipeFlag::Stall),
        Err(HostError::Fail) => Some(PipeFlag::TransferFail),
        _ => None,
    }
}

/// Whether a transaction with the token `token` is complete; the flag that
/// says so is then to be acknowledged.
pub fn is_transfer_complete(token: PipeToken, flags: PipeFlags) -> (done: bool)
    ensures
        done == transfer_complete(token, flags),
{
    match token {
        PipeToken::Setup => flags.txstp,
        PipeToken::In | PipeToken::Out => flags.trcpt0,
    }
}

/// Looks at a pipe after a packet was dispatched: `flags` are its interrupt
/// flags, `bank` is bank 0 of its descriptor. A pipe whose transaction is
/// complete is to be frozen.
pub fn dispatch_result(token: PipeToken, flags: PipeFlags, bank: &BankDesc) -> (d: Dispatched)
    ensures
        d.result == poll_result(token, flags, *bank),
        d.clear == flag_to_clear(token, d.result),
        d.freeze == transfer_complete(token, flags),
        d.result == Ok::<bool, HostError>(true) <==> transfer_complete(token, flags),
{
    if is_transfer_complete(token, flags) {
        // transfer complete -> freeze pipe
        let clear = match token {
            PipeToken::Setup => PipeFlag::SetupSent,
            PipeToken::In | PipeToken::Out => PipeFlag::TransferComplete,
        };
        Dispatched { result: Ok(true), clear: Some(clear), freeze: true }
    } else if bank.status_bk.read().errorflow().bit_is_set() {
        Dispatched { result: Err(HostError::Nak), clear: None, freeze: false }
    } else if bank.status_pipe.read().crc16er().bit_is_set() {
        Dispatched { result: Err(HostError::Crc), clear: None, freeze: false }
    } else if bank.status_pipe.read().pider().bit_is_set() {
        Dispatched { result: Err(HostError::Pid), clear: None, freeze: false }
    } else if bank.status_pipe.read().dapider().bit_is_set() {
        Dispatched { result: Err(HostError::DataPid), clear: None, freeze: false }
    } else if bank.status_pipe.read().touter().bit_is_set() {
        Dispatched { result: Err(HostError::HardTimeout), clear: None, freeze: false }
    } else if bank.status_pipe.read().dtgler().bit_is_set() {
        Dispatched { result: Err(HostError::Toggle), clear: None, freeze: false }
    } else if flags.stall {
        Dispatched { result: Err(HostError::Stall), clear: Some(PipeFlag::Stall), freeze: false }
    } else if flags.trfail {
        Dispatched {
            result: Err(HostError::Fail),
            clear: Some(PipeFlag::TransferFail),
            freeze: false,
        }
    } else {
        // Nothing wrong, but not done yet.
        Dispatched { result: Ok(false), clear: None, freeze: false }
    }
}

/// What is written to a pipe to send a packet off. Apart from this the token
/// goes into the configuration of the pipe, the flags for a failed transfer,
/// a pipe error and a stall are acknowledged beforehand, and the pipe is
/// unfrozen afterwards, which starts the transaction.
#[derive(Clone, Copy, Debug, PartialEq, Eq, Structural)]
pub struct PacketSetup {
    /// The token of the packet
    pub token: PipeToken,
    /// The flag to acknowledge so that it can tell of this packet
    pub clear: Option<PipeFlag>,
    /// Whether bank 0 is marked ready, or marked not ready
    pub bank_ready: bool,
    /// The data toggle of the pipe
    pub data_toggle: bool,
}

/// What is written to a pipe to send off a packet with the token `token`
/// for an endpoint whose data toggle is `toggle`.
pub open spec fn packet_setup(token: PipeToken, toggle: bool) -> PacketSetup {
    match token {
        PipeToken::Setup => PacketSetup {
            token,
            clear: Some(PipeFlag::SetupSent),
            bank_ready: true,
            data_toggle: false,
        },
        PipeToken::In => PacketSetup { token, clear: None, bank_ready: false, data_toggle: toggle },
        PipeToken::Out => PacketSetup {
            token,
            clear: Some(PipeFlag::TransferComplete),
            bank_ready: true,
            data_toggle: toggle,
        },
    }
}

/// Prepares a packet with the token `token` for `ep`. A setup packet puts
/// the data toggle of the endpoint at 1 and that of the pipe at 0; any other
/// packet goes with the data toggle of the endpoint, which stays.
pub fn dispatch_packet<E: HostEndpoint>(ep: &mut E, token: PipeToken) -> (p: PacketSetup)
    ensures
        p == packet_setup(token, old(ep).spec_toggle()),
        token == PipeToken::Setup ==> *final(ep) == old(ep).spec_with_toggle(true) && final(ep).spec_toggle(),
        token != PipeToken::Setup ==> *final(ep) == *old(ep),
{
    match token {
        PipeToken::Setup => {
            ep.set_toggle(true);
            PacketSetup {
                token,
                clear: Some(PipeFlag::SetupSent),
                bank_ready: true,
                data_toggle: false,
            }
        },
        PipeToken::In => PacketSetup {
            token,
            clear: None,
            bank_ready: false,
            data_toggle: ep.toggle(),
        },
        PipeToken::Out => PacketSetup {
            token,
            clear: Some(PipeFlag::TransferComplete),
            bank_ready: true,
            data_toggle: ep.toggle(),
        },
    }
}

/// Corrects the data toggle after the device found it wrong: for a packet
/// with data the toggle of the endpoint flips, and the pipe gets the new
/// one; for a setup packet the pipe gets 0. The result is the toggle for the
/// pipe.
pub fn data_toggle<E: HostEndpoint>(ep: &mut E, token: PipeToken) -> (toggle: bool)
    ensures
        token == PipeToken::Setup ==> !toggle && *final(ep) == *old(ep),
        token != PipeToken::Setup ==> toggle == !old(ep).spec_toggle() && *final(ep) == old(ep).spec_with_toggle(toggle) && final(ep).spec_toggle() == toggle,
{
    match token {
        PipeToken::In | PipeToken::Out => ep.flip_toggle(),
        PipeToken::Setup => false,
    }
}

/// When a packet with data has been transferred, the data toggle of the
/// endpoint is the complement of what it was. A setup packet puts the data
/// toggle at 1 when it is sent off, and there it stays when the packet has
/// been transferred.
pub proof fn lemma_data_toggle(token: PipeToken, toggle: bool)
    ensures
        token != PipeToken::Setup ==> toggle_after(token, toggle, Ok(true)) == !toggle,
        token == PipeToken::Setup ==> toggle_after(token, true, Ok(true)),
        packet_setup(token, toggle).token == token,
{
}

/// How a transaction that is under way goes on.
#[derive(Clone, Copy, Debug, PartialEq, Eq)]
pub enum SyncStep {
    /// Look again
    Pending,
    /// The transaction is over
    Done(Result<(), HostError>),
}

/// What one look at a transaction under way led to.
#[derive(Clone, Copy, Debug, PartialEq, Eq)]
pub struct SyncPoll {
    /// How the transaction goes on
    pub step: SyncStep,
    /// The interrupt flag to acknowledge, if one was acted upon
    pub clear: Option<PipeFlag>,
    /// Whether the pipe is to be frozen
    pub freeze: bool,
    /// The data toggle to give the pipe, if it is to change
    pub data_toggle: Option<bool>,
}

/// One transaction: a packet was sent off, and the pipe is looked at until
/// the transaction is complete, has failed for good, or has taken too long.
#[derive(Clone, Copy, Debug)]
pub struct SyncTx {
    token: PipeToken,
    until: u64,
    naks: usize,
    last: HostError,
}

/// What a transaction under way holds.
pub struct SyncView {
    /// The token of the packet
    pub token: PipeToken,
    /// The time after which the transaction is given up
    pub until: u64,
    /// The transient errors so far
    pub naks: nat,
    /// The last of them that was no NAK, or `Fail` where there was none
    pub last: HostError,
}

impl View for SyncTx {
    type V = SyncView;

    closed spec fn view(&self) -> SyncView {
        SyncView {
            token: self.token,
            until: self.until,
            naks: self.naks as nat,
            last: self.last,
        }
    }
}

/// The error that a transaction ends with once too many errors were
/// counted, `err` being the one just seen: `err`, unless it is a NAK, which
/// is no error to report; else the last error before it that was none.
pub open spec fn error_to_report(last: HostError, err: HostError) -> HostError {
    if err == HostError::Nak {
        last
    } else {
        err
    }
}

/// What a look at a transaction under way leads to: `interrupt` says whether
/// the endpoint is an interrupt endpoint, and `result` is what the pipe
/// showed.
///
/// A transaction that is complete is over. A toggle error is corrected and
/// the transaction goes on. A NAK on an interrupt endpoint and a stall end
/// the transaction at once. Every other error is counted: the transaction
/// goes on until one more than `NAK_LIMIT` were counted, and then ends with
/// the last of them that was no NAK, or with `Fail` if all were.
pub open spec fn sync_step(tx: SyncView, interrupt: bool, result: Result<bool, HostError>) -> SyncStep {
    match result {
        Ok(true) => SyncStep::Done(Ok(())),
        Ok(false) => SyncStep::Pending,
        Err(HostError::Toggle) => SyncStep::Pending,
        Err(HostError::Stall) => SyncStep::Done(Err(HostError::Stall)),
        Err(other) => if other == HostError::Nak && interrupt {
            SyncStep::Done(Err(HostError::Nak))
        } else if tx.naks >= NAK_LIMIT {
            SyncStep::Done(Err(error_to_report(tx.last, other)))
        } else {
            SyncStep::Pending
        },
    }
}

/// Whether the result `result` of a look at a pipe is an error that counts
/// against the limit of retries.
pub open spec fn counts_as_retry(interrupt: bool, result: Result<bool, HostError>) -> bool {
    match result {
        Ok(_) => false,
        Err(HostError::Toggle) => false,
        Err(HostError::Stall) => false,
        Err(HostError::Nak) => !interrupt,
        Err(_) => true,
    }
}

/// The data toggle of the endpoint after a look at a transaction: it flips
/// when a packet with data is complete, and when a toggle error on such a
/// packet is corrected.
pub open spec fn toggle_after(token: PipeToken, toggle: bool, result: Result<bool, HostError>) -> bool {
    match result {
        Ok(true) => if token == PipeToken::Setup {
            toggle
        } else {
            !toggle
        },
        Err(HostError::Toggle) => if token == PipeToken::Setup {
            toggle
        } else {
            !toggle
        },
        _ => toggle,
    }
}

impl SyncTx {
    #[verifier::type_invariant]
    spec fn within_limit(self) -> bool {
        &&& self.naks <= NAK_LIMIT
        &&& self.last != HostError::Nak
        &&& self.last != HostError::SoftTimeout
    }

    /// Sends off a packet with the token `token` for `ep`; the transaction
    /// is given up once the time is past `until`. What is to be written to
    /// the pipe comes with the transaction.
    pub fn start<E: HostEndpoint>(ep: &mut E, token: PipeToken, until: u64) -> (r: (
        SyncTx,
        PacketSetup,
    ))
        ensures
            r.0@ == (SyncView { token, until, naks: 0, last: HostError::Fail }),
            r.1 == packet_setup(token, old(ep).spec_toggle()),
            token == PipeToken::Setup ==> *final(ep) == old(ep).spec_with_toggle(true) && final(ep).spec_toggle(),
            token != PipeToken::Setup ==> *final(ep) == *old(ep),
    {
        let setup = dispatch_packet(ep, token);
        (SyncTx { token, until, naks: 0, last: HostError::Fail }, setup)
    }

    /// Looks at the transaction at the time `now`: `flags` are the interrupt
    /// flags of the pipe and `bank` is bank 0 of its descriptor. Past the
    /// deadline the transaction is over with `SoftTimeout`, and the pipe is
    /// not looked at. Before that it never ends with `SoftTimeout`: the
    /// error that is remembered is neither that nor a NAK, and the pipe
    /// shows neither that. A NAK ends the transaction on an interrupt
    /// endpoint only.
    pub fn poll<E: HostEndpoint>(
        &mut self,
        ep: &mut E,
        now: u64,
        flags: PipeFlags,
        bank: &BankDesc,
    ) -> (p: SyncPoll)
        ensures
            old(self)@.last != HostError::Nak,
            old(self)@.last != HostError::SoftTimeout,
            final(self)@.last != HostError::Nak,
            final(self)@.last != HostError::SoftTimeout,
            p.step == SyncStep::Done(Err(HostError::SoftTimeout)) <==> now > old(self)@.until,
            p.step == SyncStep::Done(Err(HostError::Nak)) ==> now <= old(self)@.until
                && old(ep).spec_ep_props().tr_type == TransferType::Interrupt,
            final(self)@.naks <= NAK_LIMIT,
            final(self)@.token == old(self)@.token,
            final(self)@.until == old(self)@.until,
            now > old(self)@.until ==> p == (SyncPoll {
                step: SyncStep::Done(Err(HostError::SoftTimeout)),
                clear: None,
                freeze: false,
                data_toggle: None,
            }) && *final(ep) == *old(ep) && final(self)@ == old(self)@,
            now <= old(self)@.until ==> {
                let result = poll_result(old(self)@.token, flags, *bank);
                let interrupt = old(ep).spec_ep_props().tr_type == TransferType::Interrupt;
                let toggle = toggle_after(old(self)@.token, old(ep).spec_toggle(), result);
                &&& p.step == sync_step(old(self)@, interrupt, result)
                &&& p.clear == flag_to_clear(old(self)@.token, result)
                &&& p.freeze == transfer_complete(old(self)@.token, flags)
                &&& p.data_toggle == if result == Err::<bool, HostError>(HostError::Toggle) {
                    Some(
                        if old(self)@.token == PipeToken::Setup {
                            false
                        } else {
                            toggle
                        },
                    )
                } else {
                    None
                }
                &&& final(ep).spec_toggle() == toggle
                &&& if toggle == old(ep).spec_toggle() {
                    *final(ep) == *old(ep)
                } else {
                    *final(ep) == old(ep).spec_with_toggle(toggle)
                }
                &&& final(self)@.naks == if counts_as_retry(interrupt, result) && p.step
                    == SyncStep::Pending {
                    old(self)@.naks + 1
                } else {
                    old(self)@.naks
                }
                &&& final(self)@.last == match result {
                    Err(e) => if counts_as_retry(interrupt, result) {
                        error_to_report(old(self)@.last, e)
                    } else {
                        old(self)@.last
                    },
                    Ok(_) => old(self)@.last,
                }
            },
    {
        proof {
            use_type_invariant(&*self);
        }
        if now > self.until {
            return SyncPoll {
                step: SyncStep::Done(Err(HostError::SoftTimeout)),
                clear: None,
                freeze: false,
                data_toggle: None,
            };
        }
        let d = dispatch_result(self.token, flags, bank);
        let token = self.token;
        match d.result {
            Ok(true) => {
                match token {
                    PipeToken::In | PipeToken::Out => {
                        // Save endpoint toggle state on successful transfer.
                        let flipped = !ep.toggle();
                        ep.set_toggle(flipped);
                    },
                    PipeToken::Setup => {},
                }
                SyncPoll {
                    step: SyncStep::Done(Ok(())),
                    clear: d.clear,
                    freeze: d.freeze,
                    data_toggle: None,
                }
            },
            Ok(false) => SyncPoll {
                step: SyncStep::Pending,
                clear: d.clear,
                freeze: d.freeze,
                data_toggle: None,
            },
            Err(err) => {
                match err {
                    HostError::Toggle => {
                        let toggle = data_toggle(ep, token);
                        SyncPoll {
                            step: SyncStep::Pending,
                            clear: d.clear,
                            freeze: d.freeze,
                            data_toggle: Some(toggle),
                        }
                    },
                    HostError::Stall => SyncPoll {
                        step: SyncStep::Done(Err(HostError::Stall)),
                        clear: d.clear,
                        freeze: d.freeze,
                        data_toggle: None,
                    },
                    other => {
                        // Flow error on interrupt pipes means we got a NAK = no data
                        let interrupt = match ep.transfer_type() {
                            TransferType::Interrupt => true,
                            _ => false,
                        };
                        let nak = match other {
                            HostError::Nak => true,
                            _ => false,
                        };
                        if nak && interrupt {
                            SyncPoll {
                                step: SyncStep::Done(Err(HostError::Nak)),
                                clear: d.clear,
                                freeze: d.freeze,
                                data_toggle: None,
                            }
                        } else if self.naks >= NAK_LIMIT {
                            if !nak {
                                self.last = other;
                            }
                            SyncPoll {
                                step: SyncStep::Done(Err(self.last)),
                                clear: d.clear,
                                freeze: d.freeze,
                                data_toggle: None,
                            }
                        } else {
                            if !nak {
                                self.last = other;
                            }
                            self.naks = self.naks + 1;
                            SyncPoll {
                                step: SyncStep::Pending,
                                clear: d.clear,
                                freeze: d.freeze,
                                data_toggle: None,
                            }
                        }
                    },
                }
            },
        }
    }
}

/// Where in the buffer the next packet lies, and how long it may be.
#[derive(Clone, Copy, Debug, PartialEq, Eq, Structural)]
pub struct PacketSlot {
    /// The offset of the packet in the buffer
    pub offset: usize,
    /// The largest number of bytes that the packet may hold
    pub max_len: u16,
}

/// How a transfer goes on.
#[derive(Clone, Copy, Debug, PartialEq, Eq)]
pub enum TransferStep {
    /// One more packet
    Packet(PacketSlot),
    /// The transfer is over: the number of bytes transferred, or the error
    Done(Result<usize, HostError>),
}

/// The length of a packet for an endpoint that takes `max_packet_size`
/// bytes, when `remaining` bytes of the buffer are left: the smaller of the
/// two.
pub open spec fn packet_len(max_packet_size: u16, remaining: nat) -> u16 {
    if remaining >= max_packet_size {
        max_packet_size
    } else {
        remaining as u16
    }
}

/// The length of a packet for an endpoint that takes `max_packet_size`
/// bytes, when `remaining` bytes of the buffer are left.
pub fn packet_length(max_packet_size: u16, remaining: usize) -> (len: u16)
    ensures
        len == packet_len(max_packet_size, remaining as nat),
        len <= max_packet_size,
        len <= remaining,
{
    if remaining >= max_packet_size as usize {
        max_packet_size
    } else {
        remaining as u16
    }
}

/// What a transfer holds: the bytes transferred so far, the length of the
/// buffer, whether a short packet has ended the transfer, whether the
/// device sent more than it was asked for, and the error of the packet that
/// failed, if one did.
pub struct TransferView {
    pub total: nat,
    pub len: nat,
    pub ended: bool,
    pub overrun: bool,
    pub failed: Option<HostError>,
}

/// A transfer with a buffer of `len` bytes before its first packet.
pub open spec fn transfer_start(len: nat) -> TransferView {
    TransferView { total: 0, len, ended: false, overrun: false, failed: None }
}

/// How a transfer goes on: with one more packet behind the bytes
/// transferred so far, as long as the buffer is not full and no short packet
/// has ended the transfer. A transfer of which a packet failed is over with
/// the error of that packet, and one in which the device sent more than it
/// was asked for fails.
pub open spec fn transfer_step(t: TransferView, max_packet_size: u16) -> TransferStep {
    if let Some(e) = t.failed {
        TransferStep::Done(Err(e))
    } else if t.overrun {
        TransferStep::Done(Err(HostError::Fail))
    } else if t.ended || t.total >= t.len {
        TransferStep::Done(Ok(t.total as usize))
    } else {
        TransferStep::Packet(
            PacketSlot {
                offset: t.total as usize,
                max_len: packet_len(max_packet_size, (t.len - t.total) as nat),
            },
        )
    }
}

/// The transfer after a packet of `count` bytes: a transfer that is over
/// stays as it is; a packet longer than was asked for is an overrun; else
/// the bytes count, and a packet shorter than `max_packet_size` ends a
/// transfer to the host.
pub open spec fn transfer_after(
    t: TransferView,
    count: u16,
    max_packet_size: u16,
    short_ends: bool,
) -> TransferView {
    if transfer_step(t, max_packet_size) is Done {
        t
    } else if count > packet_len(max_packet_size, (t.len - t.total) as nat) {
        TransferView { overrun: true, ..t }
    } else {
        TransferView {
            total: t.total + count as nat,
            ended: short_ends && count < max_packet_size,
            ..t
        }
    }
}

/// The transfer after a packet has failed with `e`: a transfer that is over
/// stays as it is; else the transfer is over with that error, and no other
/// packet follows.
pub open spec fn transfer_failed(t: TransferView, e: HostError) -> TransferView {
    if t.failed is Some || t.overrun || t.ended || t.total >= t.len {
        t
    } else {
        TransferView { failed: Some(e), ..t }
    }
}

/// A transfer from an endpoint into a buffer, packet by packet. A packet
/// shorter than the endpoint's largest ends the transfer, cf §5.3.2 of USB
/// 2.0.
#[derive(Clone, Copy, Debug)]
pub struct InTransfer {
    total: usize,
    len: usize,
    ended: bool,
    overrun: bool,
    failed: Option<HostError>,
}

impl View for InTransfer {
    type V = TransferView;

    closed spec fn view(&self) -> TransferView {
        TransferView {
            total: self.total as nat,
            len: self.len as nat,
            ended: self.ended,
            overrun: self.overrun,
            failed: self.failed,
        }
    }
}

impl InTransfer {
    #[verifier::type_invariant]
    spec fn within_buffer(self) -> bool {
        self.total <= self.len
    }

    /// A transfer into a buffer of `len` bytes, of which nothing was
    /// received yet.
    pub fn new(len: usize) -> (t: Self)
        ensures
            t@ == transfer_start(len as nat),
    {
        InTransfer { total: 0, len, ended: false, overrun: false, failed: None }
    }

    /// The number of bytes received so far; never more than the buffer
    /// holds.
    pub fn total(&self) -> (n: usize)
        ensures
            n == self@.total,
            n <= self@.len,
    {
        proof {
            use_type_invariant(self);
        }
        self.total
    }

    /// How the transfer goes on, for an endpoint that gives at most
    /// `max_packet_size` bytes at once.
    pub fn step(&self, max_packet_size: u16) -> (s: TransferStep)
        ensures
            s == transfer_step(self@, max_packet_size),
            s matches TransferStep::Packet(slot) ==> slot.offset + slot.max_len <= self@.len,
            s matches TransferStep::Done(Ok(n)) ==> n <= self@.len,
    {
        proof {
            use_type_invariant(self);
        }
        if let Some(e) = self.failed {
            TransferStep::Done(Err(e))
        } else if self.overrun {
            TransferStep::Done(Err(HostError::Fail))
        } else if self.ended || self.total >= self.len {
            TransferStep::Done(Ok(self.total))
        } else {
            TransferStep::Packet(
                PacketSlot {
                    offset: self.total,
                    max_len: packet_length(max_packet_size, self.len - self.total),
                },
            )
        }
    }

    /// Takes in that a packet of `byte_count` bytes was received.
    pub fn received(&mut self, byte_count: u16, max_packet_size: u16)
        ensures
            final(self)@ == transfer_after(old(self)@, byte_count, max_packet_size, true),
    {
        proof {
            use_type_invariant(&*self);
        }
        if self.failed.is_some() || self.overrun || self.ended || self.total >= self.len {
            return ;
        }
        let max_len = packet_length(max_packet_size, self.len - self.total);
        if byte_count > max_len {
            self.overrun = true;
        } else {
            self.total = self.total + byte_count as usize;
            self.ended = byte_count < max_packet_size;
        }
    }

    /// Takes in that the packet failed with `error`: the transfer is over
    /// with that error.
    pub fn token_failed(&mut self, error: HostError)
        ensures
            final(self)@ == transfer_failed(old(self)@, error),
    {
        proof {
            use_type_invariant(&*self);
        }
        if self.failed.is_some() || self.overrun || self.ended || self.total >= self.len {
            return ;
        }
        self.failed = Some(error);
    }
}

/// A transfer from a buffer to an endpoint, packet by packet, until the
/// buffer is sent.
#[derive(Clone, Copy, Debug)]
pub struct OutTransfer {
    total: usize,
    len: usize,
    overrun: bool,
    failed: Option<HostError>,
}

impl View for OutTransfer {
    type V = TransferView;

    closed spec fn view(&self) -> TransferView {
        TransferView {
            total: self.total as nat,
            len: self.len as nat,
            ended: false,
            overrun: self.overrun,
            failed: self.failed,
        }
    }
}

impl OutTransfer {
    #[verifier::type_invariant]
    spec fn within_buffer(self) -> bool {
        self.total <= self.len
    }

    /// A transfer of a buffer of `len` bytes, of which nothing was sent
    /// yet.
    pub fn new(len: usize) -> (t: Self)
        ensures
            t@ == transfer_start(len as nat),
    {
        OutTransfer { total: 0, len, overrun: false, failed: None }
    }

    /// The number of bytes sent so far; never more than the buffer holds.
    pub fn total(&self) -> (n: usize)
        ensures
            n == self@.total,
            n <= self@.len,
    {
        proof {
            use_type_invariant(self);
        }
        self.total
    }

    /// How the transfer goes on, for an endpoint that takes at most
    /// `max_packet_size` bytes at once.
    pub fn step(&self, max_packet_size: u16) -> (s: TransferStep)
        ensures
            s == transfer_step(self@, max_packet_size),
            s matches TransferStep::Packet(slot) ==> slot.offset + slot.max_len <= self@.len,
            s matches TransferStep::Done(Ok(n)) ==> n == self@.len,
    {
        proof {
            use_type_invariant(self);
        }
        if let Some(e) = self.failed {
            TransferStep::Done(Err(e))
        } else if self.overrun {
            TransferStep::Done(Err(HostError::Fail))
        } else if self.total >= self.len {
            TransferStep::Done(Ok(self.total))
        } else {
            TransferStep::Packet(
                PacketSlot {
                    offset: self.total,
                    max_len: packet_length(max_packet_size, self.len - self.total),
                },
            )
        }
    }

    /// Takes in that a packet of `byte_count` bytes was sent.
    pub fn sent(&mut self, byte_count: u16, max_packet_size: u16)
        ensures
            final(self)@ == transfer_after(old(self)@, byte_count, max_packet_size, false),
    {
        proof {
            use_type_invariant(&*self);
        }
        if self.failed.is_some() || self.overrun || self.total >= self.len {
            return ;
        }
        let max_len = packet_length(max_packet_size, self.len - self.total);
        if byte_count > max_len {
            self.overrun = true;
        } else {
            self.total = self.total + byte_count as usize;
        }
    }

    /// Takes in that the packet failed with `error`: the transfer is over
    /// with that error.
    pub fn token_failed(&mut self, error: HostError)
        ensures
            final(self)@ == transfer_failed(old(self)@, error),
    {
        proof {
            use_type_invariant(&*self);
        }
        if self.failed.is_some() || self.overrun || self.total >= self.len {
            return ;
        }
        self.failed = Some(error);
    }
}

/// A transfer to the host after the packets with the lengths `counts` were
/// received one after the other.
pub open spec fn received_all(t: TransferView, counts: Seq<u16>, max_packet_size: u16) -> TransferView
    decreases counts.len(),
{
    if counts.len() == 0 {
        t
    } else {
        transfer_after(
            received_all(t, counts.drop_last(), max_packet_size),
            counts.last(),
            max_packet_size,
            true,
        )
    }
}

/// The sum of the lengths `counts`.
pub open spec fn sum_of(counts: Seq<u16>) -> nat
    decreases counts.len(),
{
    if counts.len() == 0 {
        0
    } else {
        sum_of(counts.drop_last()) + counts.last() as nat
    }
}

/// Whether a transfer into a buffer of `len` bytes asks for each of the
/// packets with the lengths `counts`, and gets none longer than it asked
/// for.
pub open spec fn all_asked_for(len: nat, counts: Seq<u16>, max_packet_size: u16) -> bool
    decreases counts.len(),
{
    if counts.len() == 0 {
        true
    } else {
        let before = received_all(
            transfer_start(len),
            counts.drop_last(),
            max_packet_size,
        );
        &&& all_asked_for(len, counts.drop_last(), max_packet_size)
        &&& transfer_step(before, max_packet_size) is Packet
        &&& counts.last() <= packet_len(max_packet_size, (len - before.total) as nat)
    }
}

/// As long as a transfer to the host gets the packets it asks for, the bytes
/// received are the sum of the packets, they fit in the buffer, every packet
/// but the last was full, and the transfer has ended if the last was not.
pub proof fn lemma_in_transfer_total(len: nat, counts: Seq<u16>, max_packet_size: u16)
    requires
        all_asked_for(len, counts, max_packet_size),
    ensures
        received_all(
            transfer_start(len),
            counts,
            max_packet_size,
        ) == (TransferView {
            total: sum_of(counts),
            len,
            ended: counts.len() > 0 && counts.last() < max_packet_size,
            overrun: false,
            failed: None,
        }),
        sum_of(counts) <= len,
        forall|i: int| 0 <= i < counts.len() - 1 ==> #[trigger] counts[i] == max_packet_size,
    decreases counts.len(),
{
    if counts.len() > 0 {
        let init = transfer_start(len);
        let front = counts.drop_last();
        lemma_in_transfer_total(len, front, max_packet_size);
        let before = received_all(init, front, max_packet_size);
        assert(transfer_step(before, max_packet_size) is Packet);
        assert forall|i: int| 0 <= i < counts.len() - 1 implies #[trigger] counts[i]
            == max_packet_size by {
            assert(counts[i] == front[i]);
            if i == front.len() - 1 {
                assert(front.last() == front[i]);
            }
        }
    }
}

/// A packet that is shorter than the endpoint's largest ends a transfer to
/// the host: no further packet is asked for, and the transfer returns the
/// sum of the lengths of the packets received.
pub proof fn lemma_short_packet_ends(len: nat, counts: Seq<u16>, max_packet_size: u16)
    requires
        counts.len() > 0,
        all_asked_for(len, counts, max_packet_size),
        counts.last() < max_packet_size,
    ensures
        transfer_step(
            received_all(
                transfer_start(len),
                counts,
                max_packet_size,
            ),
            max_packet_size,
        ) == TransferStep::Done(Ok(sum_of(counts) as usize)),
{
    lemma_in_transfer_total(len, counts, max_packet_size);
}

/// Each packet of a transfer to the host is asked for behind the bytes
/// that came before it: the last of the packets `counts` was asked for at
/// the offset that is the sum of the lengths of the packets before it, with
/// room for the rest of the buffer or for a full packet, whichever is less.
/// This holds of each packet, since the packets before it are asked for as
/// well.
pub proof fn lemma_packet_offset(len: nat, counts: Seq<u16>, max_packet_size: u16)
    requires
        counts.len() > 0,
        all_asked_for(len, counts, max_packet_size),
    ensures
        all_asked_for(len, counts.drop_last(), max_packet_size),
        sum_of(counts.drop_last()) < len,
        transfer_step(
            received_all(transfer_start(len), counts.drop_last(), max_packet_size),
            max_packet_size,
        ) == TransferStep::Packet(
            PacketSlot {
                offset: sum_of(counts.drop_last()) as usize,
                max_len: packet_len(
                    max_packet_size,
                    (len - sum_of(counts.drop_last())) as nat,
                ),
            },
        ),
{
    lemma_in_transfer_total(len, counts.drop_last(), max_packet_size);
}

/// A transfer to the host whose buffer is full is over: no further packet
/// is asked for, and the transfer returns the length of the buffer.
pub proof fn lemma_full_buffer_ends(len: nat, counts: Seq<u16>, max_packet_size: u16)
    requires
        all_asked_for(len, counts, max_packet_size),
        sum_of(counts) == len,
    ensures
        transfer_step(
            received_all(transfer_start(len), counts, max_packet_size),
            max_packet_size,
        ) == TransferStep::Done(Ok(len as usize)),
{
    lemma_in_transfer_total(len, counts, max_packet_size);
}

/// A packet that fails ends a transfer with its error: after the packets
/// `counts`, a packet that fails with `e` leaves a transfer that returns
/// `e`, asks for no further packet, and stays as it is whatever is handed
/// to it.
pub proof fn lemma_failed_packet_ends(
    len: nat,
    counts: Seq<u16>,
    max_packet_size: u16,
    e: HostError,
    later: u16,
    other: HostError,
)
    requires
        all_asked_for(len, counts, max_packet_size),
        transfer_step(
            received_all(transfer_start(len), counts, max_packet_size),
            max_packet_size,
        ) is Packet,
    ensures
        ({
            let failed = transfer_failed(
                received_all(transfer_start(len), counts, max_packet_size),
                e,
            );
            &&& transfer_step(failed, max_packet_size) == TransferStep::Done(
                Err::<usize, HostError>(e),
            )
            &&& transfer_after(failed, later, max_packet_size, true) == failed
            &&& transfer_failed(failed, other) == failed
        }),
{
    lemma_in_transfer_total(len, counts, max_packet_size);
}

/// The sum of packets that are all of one length.
proof fn lemma_sum_of_full(counts: Seq<u16>, size: u16)
    requires
        forall|i: int| 0 <= i < counts.len() ==> #[trigger] counts[i] == size,
    ensures
        sum_of(counts) == counts.len() * size,
    decreases counts.len(),
{
    if counts.len() > 0 {
        let front = counts.drop_last();
        assert forall|i: int| 0 <= i < front.len() implies #[trigger] front[i] == size by {
            assert(front[i] == counts[i]);
        }
        lemma_sum_of_full(front, size);
        assert(counts.last() == counts[counts.len() - 1]);
        assert(counts.len() * size == front.len() * size + size) by (nonlinear_arith)
            requires
                counts.len() == front.len() + 1,
        ;
    }
}

/// A transfer to the host comes to an end: as long as it asks for packets,
/// all packets so far were full, so that there were fewer of them than the
/// buffer has bytes.
pub proof fn lemma_in_transfer_ends(len: nat, counts: Seq<u16>, max_packet_size: u16)
    requires
        max_packet_size > 0,
        all_asked_for(len, counts, max_packet_size),
        transfer_step(
            received_all(
                transfer_start(len),
                counts,
                max_packet_size,
            ),
            max_packet_size,
        ) is Packet,
    ensures
        sum_of(counts) == counts.len() * max_packet_size,
        counts.len() < len,
{
    lemma_in_transfer_total(len, counts, max_packet_size);
    assert forall|i: int| 0 <= i < counts.len() implies #[trigger] counts[i]
        == max_packet_size by {
        if i == counts.len() - 1 {
            assert(counts.last() == counts[i]);
        }
    }
    lemma_sum_of_full(counts, max_packet_size);
    assert(counts.len() <= counts.len() * max_packet_size) by (nonlinear_arith)
        requires
            max_packet_size >= 1,
    ;
}

/// The stages of a control transfer.
#[derive(Clone, Copy, Debug, PartialEq, Eq, Structural)]
pub enum ControlStage {
    /// The setup packet
    Setup,
    /// The data, with the token of its packets
    Data(PipeToken),
    /// The status: a packet without data, with this token
    Status(PipeToken),
    /// The transfer is over
    Done,
}

/// The token of the data stage of a control transfer with `len` bytes of
/// data: there is no data stage without data.
pub open spec fn data_token(direction: RequestDirection, len: nat) -> Option<PipeToken> {
    if len == 0 {
        None
    } else {
        match direction {
            RequestDirection::DeviceToHost => Some(PipeToken::In),
            RequestDirection::HostToDevice => Some(PipeToken::Out),
        }
    }
}

/// The token of the status stage: it goes the other way than the data, and
/// to the host where there was no data.
pub open spec fn status_token(data: Option<PipeToken>) -> PipeToken {
    match data {
        Some(PipeToken::In) => PipeToken::Out,
        _ => PipeToken::In,
    }
}

/// The stage that follows `stage` in a control transfer in the direction
/// `direction` with `len` bytes of data.
pub open spec fn stage_after(stage: ControlStage, direction: RequestDirection, len: nat) -> ControlStage {
    match stage {
        ControlStage::Setup => match data_token(direction, len) {
            Some(token) => ControlStage::Data(token),
            None => ControlStage::Status(status_token(None)),
        },
        ControlStage::Data(token) => ControlStage::Status(status_token(Some(token))),
        ControlStage::Status(_) => ControlStage::Done,
        ControlStage::Done => ControlStage::Done,
    }
}

/// The setup packet of a control transfer with a buffer of `len` bytes. A
/// buffer that is longer than `wLength` can say makes no request.
pub fn control_setup(
    bm_request_type: RequestType,
    b_request: RequestCode,
    w_value: WValue,
    w_index: u16,
    len: usize,
) -> (r: Result<SetupPacket, HostError>)
    ensures
        len > u16::MAX ==> r == Err::<SetupPacket, HostError>(HostError::InvalidRequest),
        len <= u16::MAX ==> (r matches Ok(p) && p.bm_request_type == bm_request_type
            && p.b_request == b_request && p.w_value == w_value && p.w_index == w_index
            && p.w_length == len),
{
    if len > u16::MAX as usize {
        Err(HostError::InvalidRequest)
    } else {
        Ok(SetupPacket { bm_request_type, b_request, w_value, w_index, w_length: len as u16 })
    }
}

/// The stage that follows `stage` in a control transfer with the request
/// type `bm_request_type` and a buffer of `len` bytes. Without data the
/// status stage follows the setup stage and goes to the host.
pub fn next_stage(stage: ControlStage, bm_request_type: RequestType, len: usize) -> (next: ControlStage)
    ensures
        (bm_request_type.spec_direction() matches Some(direction) && next == stage_after(
            stage,
            direction,
            len as nat,
        )),
        stage == ControlStage::Setup && len == 0 ==> next == ControlStage::Status(PipeToken::In),
{
    let direction = match bm_request_type.direction() {
        Some(d) => d,
        None => RequestDirection::HostToDevice,
    };
    match stage {
        ControlStage::Setup => {
            if len == 0 {
                ControlStage::Status(PipeToken::In)
            } else {
                match direction {
                    RequestDirection::DeviceToHost => ControlStage::Data(PipeToken::In),
                    RequestDirection::HostToDevice => ControlStage::Data(PipeToken::Out),
                }
            }
        },
        ControlStage::Data(token) => match token {
            // the status goes the other way than the data
            PipeToken::In => ControlStage::Status(PipeToken::Out),
            _ => ControlStage::Status(PipeToken::In),
        },
        ControlStage::Status(_) => ControlStage::Done,
        ControlStage::Done => ControlStage::Done,
    }
}

/// A control transfer without data has a setup stage and a status stage to
/// the host, and nothing between them.
pub proof fn lemma_control_without_data(direction: RequestDirection)
    ensures
        data_token(direction, 0) is None,
        stage_after(ControlStage::Setup, direction, 0) == ControlStage::Status(PipeToken::In),
        stage_after(ControlStage::Status(PipeToken::In), direction, 0) == ControlStage::Done,
{
}

/// A control transfer under way: the stage that is to run next, and what
/// the transfer returns as things stand, which is the number of bytes that
/// the data stage transferred, or the error of the stage that failed.
#[derive(Clone, Copy, Debug, PartialEq, Eq)]
pub struct ControlProgress {
    pub stage: ControlStage,
    pub outcome: Result<usize, HostError>,
}

/// A control transfer before its first stage.
pub open spec fn control_start() -> ControlProgress {
    ControlProgress { stage: ControlStage::Setup, outcome: Ok(0) }
}

/// The control transfer `p` in the direction `direction` with `len` bytes
/// of data, once its stage has run and returned `result`. A stage that fails
/// ends the transfer with its error: no other stage follows. Else the next
/// stage follows, cf [`stage_after`], and what the data stage returns is
/// what the transfer returns. A transfer that is over stays as it is.
pub open spec fn control_after(
    p: ControlProgress,
    direction: RequestDirection,
    len: nat,
    result: Result<usize, HostError>,
) -> ControlProgress {
    match p.stage {
        ControlStage::Done => p,
        _ => match result {
            Err(e) => ControlProgress { stage: ControlStage::Done, outcome: Err(e) },
            Ok(n) => ControlProgress {
                stage: stage_after(p.stage, direction, len),
                outcome: if p.stage is Data {
                    Ok(n)
                } else {
                    p.outcome
                },
            },
        },
    }
}

impl ControlProgress {
    /// A control transfer before its first stage, the setup stage.
    pub fn new() -> (p: Self)
        ensures
            p == control_start(),
    {
        ControlProgress { stage: ControlStage::Setup, outcome: Ok(0) }
    }
}

/// Takes in what the stage of the control transfer `progress` returned,
/// `result`, and says how the transfer goes on, cf [`control_after`]: the
/// transfer has the request type `bm_request_type` and a buffer of `len`
/// bytes. The setup stage and the status stage return no count that
/// matters.
pub fn control_step(
    progress: ControlProgress,
    bm_request_type: RequestType,
    len: usize,
    result: Result<usize, HostError>,
) -> (next: ControlProgress)
    ensures
        (bm_request_type.spec_direction() matches Some(direction) && next == control_after(
            progress,
            direction,
            len as nat,
            result,
        )),
        !(progress.stage is Done) && result is Err ==> next.stage == ControlStage::Done
            && next.outcome == result,
{
    let _direction = bm_request_type.direction();
    match progress.stage {
        ControlStage::Done => progress,
        ControlStage::Data(_) => match result {
            Err(e) => ControlProgress { stage: ControlStage::Done, outcome: Err(e) },
            Ok(n) => ControlProgress {
                stage: next_stage(progress.stage, bm_request_type, len),
                outcome: Ok(n),
            },
        },
        _ => match result {
            Err(e) => ControlProgress { stage: ControlStage::Done, outcome: Err(e) },
            Ok(_) => ControlProgress {
                stage: next_stage(progress.stage, bm_request_type, len),
                outcome: progress.outcome,
            },
        },
    }
}

/// The control transfer `p` once its stages have run one after the other
/// and returned `results` in this order.
pub open spec fn control_run(
    p: ControlProgress,
    direction: RequestDirection,
    len: nat,
    results: Seq<Result<usize, HostError>>,
) -> ControlProgress
    decreases results.len(),
{
    if results.len() == 0 {
        p
    } else {
        control_run(control_after(p, direction, len, results[0]), direction, len, results.skip(1))
    }
}

/// The stages of the control transfer `p` that run, in their order, where
/// the stages return `results` in this order: each of them sends its token,
/// and a transfer that is over sends none.
pub open spec fn stages_run(
    p: ControlProgress,
    direction: RequestDirection,
    len: nat,
    results: Seq<Result<usize, HostError>>,
) -> Seq<ControlStage>
    decreases results.len(),
{
    if results.len() == 0 || p.stage is Done {
        Seq::empty()
    } else {
        seq![p.stage] + stages_run(
            control_after(p, direction, len, results[0]),
            direction,
            len,
            results.skip(1),
        )
    }
}

/// A transfer that is over stays as it is, whatever is handed to it, and no
/// stage runs.
pub proof fn lemma_control_over(
    p: ControlProgress,
    direction: RequestDirection,
    len: nat,
    results: Seq<Result<usize, HostError>>,
)
    requires
        p.stage is Done,
    ensures
        control_run(p, direction, len, results) == p,
        stages_run(p, direction, len, results) == Seq::<ControlStage>::empty(),
    decreases results.len(),
{
    if results.len() > 0 {
        lemma_control_over(p, direction, len, results.skip(1));
    }
}

/// The stage of a control transfer that fails first ends the transfer with
/// its error: where the stages before the place `i` succeed and the stage at
/// `i` fails with `e`, the transfer returns `e`, the stages up to that one
/// have run, and none after it, whatever else `results` holds. So a failed
/// setup stage is followed by no data stage and no status stage.
pub proof fn lemma_failed_stage_ends(
    direction: RequestDirection,
    len: nat,
    results: Seq<Result<usize, HostError>>,
    i: int,
    e: HostError,
)
    requires
        0 <= i < results.len(),
        i < (if len == 0 { 2int } else { 3int }),
        forall|j: int| 0 <= j < i ==> (#[trigger] results[j]) is Ok,
        results[i] == Err::<usize, HostError>(e),
    ensures
        control_run(control_start(), direction, len, results) == (ControlProgress {
            stage: ControlStage::Done,
            outcome: Err(e),
        }),
        stages_run(control_start(), direction, len, results).len() == i + 1,
        stages_run(control_start(), direction, len, results)[0] == ControlStage::Setup,
{
    let p0 = control_start();
    let p1 = control_after(p0, direction, len, results[0]);
    let r1 = results.skip(1);
    assert(stages_run(p0, direction, len, results) =~= seq![p0.stage] + stages_run(
        p1,
        direction,
        len,
        r1,
    ));
    assert(control_run(p0, direction, len, results) == control_run(p1, direction, len, r1));
    if i == 0 {
        lemma_control_over(p1, direction, len, r1);
    } else {
        assert(results[0] is Ok);
        assert(r1[0] == results[1]);
        let p2 = control_after(p1, direction, len, r1[0]);
        let r2 = r1.skip(1);
        assert(control_run(p1, direction, len, r1) == control_run(p2, direction, len, r2));
        assert(stages_run(p1, direction, len, r1) =~= seq![p1.stage] + stages_run(
            p2,
            direction,
            len,
            r2,
        ));
        if i == 1 {
            lemma_control_over(p2, direction, len, r2);
        } else {
            assert(results[1] is Ok);
            assert(r2[0] == results[2]);
            let p3 = control_after(p2, direction, len, r2[0]);
            let r3 = r2.skip(1);
            assert(control_run(p2, direction, len, r2) == control_run(p3, direction, len, r3));
            assert(stages_run(p2, direction, len, r2) =~= seq![p2.stage] + stages_run(
                p3,
                direction,
                len,
                r3,
            ));
            lemma_control_over(p3, direction, len, r3);
        }
    }
}

/// A control transfer without data whose stages succeed returns `Ok(0)`,
/// whatever its direction: the setup stage runs, then the status stage to
/// the host, and nothing between them or after them.
pub proof fn lemma_control_without_data_runs(
    direction: RequestDirection,
    results: Seq<Result<usize, HostError>>,
)
    requires
        results.len() >= 2,
        results[0] is Ok,
        results[1] is Ok,
    ensures
        control_run(control_start(), direction, 0, results) == (ControlProgress {
            stage: ControlStage::Done,
            outcome: Ok(0),
        }),
        stages_run(control_start(), direction, 0, results) == seq![
            ControlStage::Setup,
            ControlStage::Status(PipeToken::In),
        ],
{
    let p0 = control_start();
    let p1 = control_after(p0, direction, 0, results[0]);
    let r1 = results.skip(1);
    assert(r1[0] == results[1]);
    let p2 = control_after(p1, direction, 0, r1[0]);
    let r2 = r1.skip(1);
    lemma_control_over(p2, direction, 0, r2);
    assert(control_run(p0, direction, 0, results) == control_run(p1, direction, 0, r1));
    assert(control_run(p1, direction, 0, r1) == control_run(p2, direction, 0, r2));
    assert(stages_run(p1, direction, 0, r1) =~= seq![p1.stage] + stages_run(
        p2,
        direction,
        0,
        r2,
    ));
    assert(stages_run(p0, direction, 0, results) =~= seq![
        ControlStage::Setup,
        ControlStage::Status(PipeToken::In),
    ]);
}

impl PipeDesc {
    /// Writes the length of the packet to come into bank 0: `len` is the
    /// byte count, and the multi packet size is zero. Nothing else changes.
    pub fn bank0_size(&mut self, len: u16)
        requires
            len < BYTE_COUNT_LIMIT,
        ensures
            final(self).bank0.pcksize@ == with_field32(
                with_field32(old(self).bank0.pcksize@, 0, 0x3fff, len as u32),
                14,
                0x3fff,
                0,
            ),
            *final(self) == (PipeDesc {
                bank0: BankDesc { pcksize: final(self).bank0.pcksize, ..old(self).bank0 },
                ..*old(self)
            }),
    {
        self.bank0.pcksize.modify(|_r: &pck_size::R, w: &mut pck_size::W| -> (out: &mut pck_size::W)
            ensures
                out@ == with_field32(with_field32(old(w)@, 0, 0x3fff, len as u32), 14, 0x3fff, 0),
                *final(out) == *final(w),
            {
                w.byte_count().bits(len);
                w.multi_packet_size().bits(0)
            });
    }

    /// Points bank 0 at the packet that lies `offset` bytes into a buffer
    /// of `buf_len` bytes at the address `base`, for an endpoint that takes
    /// `max_pck` bytes at once, and returns the length of the packet. The
    /// peripheral wants the address of the packet to be a multiple of 4.
    pub fn bank0_set(&mut self, base: u32, buf_len: usize, offset: usize, max_pck: u16) -> (max_len: u16)
        requires
            offset <= buf_len,
            base + offset <= u32::MAX,
            packet_len(max_pck, (buf_len - offset) as nat) < BYTE_COUNT_LIMIT,
        ensures
            max_len == packet_len(max_pck, (buf_len - offset) as nat),
            final(self).bank0.addr@ == base + offset,
            final(self).bank0.pcksize@ == with_field32(
                with_field32(old(self).bank0.pcksize@, 0, 0x3fff, max_len as u32),
                14,
                0x3fff,
                0,
            ),
            *final(self) == (PipeDesc {
                bank0: BankDesc {
                    addr: final(self).bank0.addr,
                    pcksize: final(self).bank0.pcksize,
                    ..old(self).bank0
                },
                ..*old(self)
            }),
    {
        // start address
        let start = base + offset as u32;
        self.bank0.addr.write(|w: &mut addr::W| -> (out: &mut addr::W)
            ensures
                out@ == start,
                *final(out) == *final(w),
            { w.addr().bits(start) });
        // max length
        let max_len = packet_length(max_pck, buf_len - offset);
        self.bank0_size(max_len);
        max_len
    }
}

} // verus!
