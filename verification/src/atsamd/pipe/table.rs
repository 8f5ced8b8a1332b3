//! The table of pipe descriptors that the USB peripheral reads.
use super::ctrl_pipe;
use super::pck_size;
use super::pck_size::SizeW;
use super::{PipeDesc, PipeType, MAX_PIPES};
use crate::bits::{with_field16, with_field32};
use crate::endpoint::HostEndpoint;
use vstd::prelude::*;

verus! {

/// The descriptors of the pipes, one after the other as the peripheral
/// wants them.
pub struct PipeTable {
    tbl: [PipeDesc; 8],
}

/// The pipe that was made ready for an endpoint, and the type to give it.
#[derive(Clone, Copy, Debug, PartialEq, Eq, Structural)]
pub struct PipeSelection {
    /// The number of the pipe
    pub index: usize,
    /// The type of the pipe
    pub ptype: PipeType,
}

/// The number of the pipe for the endpoint with the number `endpoint`:
/// pipe 0 is for the control endpoint, pipe 1 for all others.
pub open spec fn pipe_index(endpoint: u8) -> usize {
    if endpoint == 0 {
        0
    } else {
        1
    }
}

/// The size of a pipe for packets of up to `max_packet_size` bytes: the
/// smallest that holds them, or the largest there is.
pub open spec fn size_class_of(max_packet_size: u16) -> SizeW {
    if max_packet_size <= 8 {
        SizeW::Bytes8
    } else if max_packet_size <= 16 {
        SizeW::Bytes16
    } else if max_packet_size <= 32 {
        SizeW::Bytes32
    } else if max_packet_size <= 64 {
        SizeW::Bytes64
    } else if max_packet_size <= 128 {
        SizeW::Bytes128
    } else if max_packet_size <= 256 {
        SizeW::Bytes256
    } else if max_packet_size <= 512 {
        SizeW::Bytes512
    } else {
        SizeW::Bytes1024
    }
}

/// The size of a pipe for packets of up to `max_packet_size` bytes.
pub fn size_class(max_packet_size: u16) -> (size: SizeW)
    ensures
        size == size_class_of(max_packet_size),
        max_packet_size <= 1024 ==> size.bytes() >= max_packet_size,
        size != SizeW::Bytes8 ==> size.bytes() < 2 * max_packet_size,
{
    if max_packet_size <= 8 {
        SizeW::Bytes8
    } else if max_packet_size <= 16 {
        SizeW::Bytes16
    } else if max_packet_size <= 32 {
        SizeW::Bytes32
    } else if max_packet_size <= 64 {
        SizeW::Bytes64
    } else if max_packet_size <= 128 {
        SizeW::Bytes128
    } else if max_packet_size <= 256 {
        SizeW::Bytes256
    } else if max_packet_size <= 512 {
        SizeW::Bytes512
    } else {
        SizeW::Bytes1024
    }
}

/// The descriptor `desc` written anew for the endpoint with the address
/// `ep_addr` of the device at `dev_addr`, with packets of up to
/// `max_packet_size` bytes: the pipe control of bank 0 gets the address of
/// the device and the number of the endpoint, and the packet size gets the
/// size of the pipe. Everything else stays.
pub open spec fn desc_for(desc: PipeDesc, made: PipeDesc, dev_addr: u8, ep_addr: u8, max_packet_size: u16) -> bool {
    &&& made.bank0.ctrl_pipe@ == with_field16(
        with_field16(desc.bank0.ctrl_pipe@, 0, 0x7f, dev_addr as u16),
        8,
        0xf,
        ep_addr as u16,
    )
    &&& made.bank0.pcksize@ == with_field32(
        desc.bank0.pcksize@,
        28,
        0x7,
        size_class_of(max_packet_size).code() as u32,
    )
    &&& made == (PipeDesc {
        bank0: super::BankDesc {
            ctrl_pipe: made.bank0.ctrl_pipe,
            pcksize: made.bank0.pcksize,
            ..desc.bank0
        },
        ..desc
    })
}

impl View for PipeTable {
    type V = Seq<PipeDesc>;

    closed spec fn view(&self) -> Seq<PipeDesc> {
        self.tbl@
    }
}

impl PipeTable {
    /// A table of descriptors with every register at zero.
    pub fn new() -> (t: Self)
        ensures
            t@.len() == MAX_PIPES,
            forall|i: int| 0 <= i < MAX_PIPES ==> (#[trigger] t@[i]).bank0.is_zero() && t@[i].bank1.is_zero(),
    {
        let d = PipeDesc::new();
        Self { tbl: [d;8] }
    }

    /// The descriptor of the pipe `i`.
    pub fn desc(&self, i: usize) -> (d: PipeDesc)
        requires
            i < MAX_PIPES,
        ensures
            d == self@[i as int],
    {
        self.tbl[i]
    }

    /// Puts `d` in the place of the descriptor of the pipe `i`.
    pub fn set_desc(&mut self, i: usize, d: PipeDesc)
        requires
            i < MAX_PIPES,
        ensures
            final(self)@ == old(self)@.update(i as int, d),
    {
        self.tbl[i] = d;
    }

    /// Makes a pipe ready for a transfer with `endpoint`: pipe 0 for a
    /// control endpoint, pipe 1 for any other. The descriptor of the pipe is
    /// written anew for the endpoint; the other descriptors stay.
    pub fn pipe_for<E: HostEndpoint>(&mut self, endpoint: &E) -> (sel: PipeSelection)
        ensures
            sel.index == pipe_index(endpoint.spec_ep_props().ep_addr.spec_absolute()),
            sel.ptype == PipeType::of_transfer(endpoint.spec_ep_props().tr_type),
            final(self)@.len() == old(self)@.len(),
            forall|i: int|
                0 <= i < MAX_PIPES && i != sel.index ==> #[trigger] final(self)@[i] == old(self)@[i],
            desc_for(
                old(self)@[sel.index as int],
                final(self)@[sel.index as int],
                endpoint.spec_ep_props().dev_addr@,
                endpoint.spec_ep_props().ep_addr@,
                endpoint.spec_max_packet_size(),
            ),
    {
        let i: usize = if endpoint.endpoint_address().absolute() == 0 {
            0
        } else {
            1
        };
        let mut pdesc = self.tbl[i];
        let dev: u8 = endpoint.device_address().number();
        let ep: u8 = endpoint.endpoint_address().into();
        pdesc.bank0.ctrl_pipe.write(|w: &mut ctrl_pipe::W| -> (out: &mut ctrl_pipe::W)
            ensures
                out@ == with_field16(with_field16(old(w)@, 0, 0x7f, dev as u16), 8, 0xf, ep as u16),
                *final(out) == *final(w),
            {
                w.pdaddr().set_addr(dev);
                w.pepnum().set_epnum(ep)
            });
        let size = size_class(endpoint.max_packet_size());
        pdesc.bank0.pcksize.write(|w: &mut pck_size::W| -> (out: &mut pck_size::W)
            ensures
                out@ == with_field32(old(w)@, 28, 0x7, size.code() as u32),
                *final(out) == *final(w),
            { w.size().variant(size) });
        self.tbl[i] = pdesc;
        PipeSelection { index: i, ptype: PipeType::from(endpoint.transfer_type()) }
    }
}

} // verus!
