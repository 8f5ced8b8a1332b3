//! Endpoints: what identifies one, and its data toggle.
use crate::address::DevAddress;
use crate::host::{DataCall, HostAnswer, HostCall, Transferred, UsbHost};
use crate::{Direction, HostError, MaxPacketSize, TransferType, UsbError};
use vstd::prelude::*;

verus! {

/// An endpoint of a device, as the host keeps it.
#[derive(Debug, Clone, Copy)]
pub struct Endpoint {
    props: EpProps,
    max_packet_len: u16,
    toggle: bool,
}

impl Endpoint {
    /// The endpoint of the device at `device_address` that an endpoint
    /// descriptor with these fields describes.
    pub closed spec fn spec_from_raw(
        device_address: DevAddress,
        max_packet_size: u16,
        b_endpoint_address: u8,
        bm_attributes: u8,
    ) -> Self {
        Endpoint {
            props: EpProps {
                dev_addr: device_address,
                ep_addr: EpAddress::of_byte(b_endpoint_address),
                tr_type: TransferType::of_attributes(bm_attributes),
            },
            max_packet_len: max_packet_size,
            toggle: false,
        }
    }

    /// The endpoint of the device at `device_address` that an endpoint
    /// descriptor with these fields describes. Its data toggle is 0.
    pub fn from_raw(
        device_address: DevAddress,
        max_packet_size: u16,
        b_endpoint_address: u8,
        bm_attributes: u8,
    ) -> (ep: Self)
        ensures
            ep == Endpoint::spec_from_raw(
                device_address,
                max_packet_size,
                b_endpoint_address,
                bm_attributes,
            ),
            ep.spec_ep_props() == (EpProps {
                dev_addr: device_address,
                ep_addr: EpAddress::of_byte(b_endpoint_address),
                tr_type: TransferType::of_attributes(bm_attributes),
            }),
            ep.spec_max_packet_size() == max_packet_size,
            !ep.spec_toggle(),
    {
        Endpoint {
            props: EpProps {
                dev_addr: device_address,
                ep_addr: EpAddress::from(b_endpoint_address),
                tr_type: TransferType::from(bm_attributes),
            },
            max_packet_len: max_packet_size,
            toggle: false,
        }
    }

    /// Sets the largest packet; nothing else changes.
    pub fn set_max_packet_size(&mut self, size: u16)
        ensures
            final(self).spec_max_packet_size() == size,
            final(self).spec_ep_props() == old(self).spec_ep_props(),
            final(self).spec_toggle() == old(self).spec_toggle(),
    {
        self.max_packet_len = size
    }

    /// Sets the address of the device; nothing else changes.
    pub fn set_device_address(&mut self, addr: DevAddress)
        ensures
            final(self).spec_ep_props() == (EpProps { dev_addr: addr, ..old(self).spec_ep_props() }),
            final(self).spec_max_packet_size() == old(self).spec_max_packet_size(),
            final(self).spec_toggle() == old(self).spec_toggle(),
    {
        self.props.dev_addr = addr
    }
}

/// Read-only utility structure that captures an endpoint's static properties.
#[derive(Debug, Clone, Copy, PartialEq, Eq, Structural)]
pub struct EpProps {
    pub dev_addr: DevAddress,
    pub ep_addr: EpAddress,
    pub tr_type: TransferType,
}

impl EndpointProperties for EpProps {
    open spec fn spec_ep_props(&self) -> EpProps {
        *self
    }

    fn device_address(&self) -> DevAddress {
        self.dev_addr
    }

    fn endpoint_address(&self) -> EpAddress {
        self.ep_addr
    }

    fn transfer_type(&self) -> TransferType {
        self.tr_type
    }
}

impl EndpointProperties for Endpoint {
    closed spec fn spec_ep_props(&self) -> EpProps {
        self.props
    }

    fn ep_props(&self) -> EpProps {
        self.props
    }

    fn device_address(&self) -> DevAddress {
        self.props.dev_addr
    }

    fn endpoint_address(&self) -> EpAddress {
        self.props.ep_addr
    }

    fn transfer_type(&self) -> TransferType {
        self.props.tr_type
    }
}

impl MaxPacketSize for Endpoint {
    closed spec fn spec_max_packet_size(&self) -> u16 {
        self.max_packet_len
    }

    fn max_packet_size(&self) -> u16 {
        self.max_packet_len
    }
}

impl DataToggle for Endpoint {
    closed spec fn spec_toggle(&self) -> bool {
        self.toggle
    }

    closed spec fn spec_with_toggle(&self, toggle: bool) -> Self {
        Endpoint { toggle, ..*self }
    }

    fn toggle(&self) -> bool {
        self.toggle
    }

    fn set_toggle(&mut self, toggle: bool) {
        self.toggle = toggle
    }
}

/// Changing the toggle of an endpoint changes nothing else of it.
pub proof fn lemma_endpoint_with_toggle(ep: Endpoint, toggle: bool)
    ensures
        ep.spec_with_toggle(toggle).spec_toggle() == toggle,
        ep.spec_with_toggle(toggle).spec_ep_props() == ep.spec_ep_props(),
        ep.spec_with_toggle(toggle).spec_max_packet_size() == ep.spec_max_packet_size(),
        ep.spec_with_toggle(ep.spec_toggle()) == ep,
{
}

/// Bit 7 is the direction, with OUT = 0 and IN = 1
pub const ENDPOINT_DIRECTION_MASK: u8 = 0x80;

/// Bits 3..0 are the endpoint number
pub const ENDPOINT_NUMBER_MASK: u8 = 0x0F;

/// An endpoint address holds the direction bit and the number, nothing else.
pub const ENDPOINT_ADDRESS_MASK: u8 = 0x8F;

/// The address of an endpoint within its device: the number in bits 0 to 3,
/// the direction in bit 7, the other bits zero.
#[derive(Clone, Copy, Debug, PartialEq, Eq, Structural)]
pub struct EpAddress(u8);

impl View for EpAddress {
    type V = u8;

    closed spec fn view(&self) -> u8 {
        self.0
    }
}

impl EpAddress {
    /// The address that the byte `addr` of a descriptor holds.
    pub closed spec fn of_byte(addr: u8) -> Self {
        EpAddress(addr & ENDPOINT_ADDRESS_MASK)
    }

    /// The address that the byte `addr` of a descriptor holds: its reserved
    /// bits are dropped.
    pub fn from_byte(addr: u8) -> (a: Self)
        ensures
            a == EpAddress::of_byte(addr),
    {
        Self(addr & ENDPOINT_ADDRESS_MASK)
    }

    /// The way the endpoint goes.
    pub open spec fn spec_direction(&self) -> Direction {
        if self@ & ENDPOINT_DIRECTION_MASK == 0 {
            Direction::Out
        } else {
            Direction::In
        }
    }

    /// The number of the endpoint.
    pub open spec fn spec_absolute(&self) -> u8 {
        self@ & ENDPOINT_NUMBER_MASK
    }

    /// Direction inferred from the endpoint address
    pub fn direction(&self) -> (d: Direction)
        ensures
            d == self.spec_direction(),
    {
        match self.0 & ENDPOINT_DIRECTION_MASK {
            0 => Direction::Out,
            _ => Direction::In,
        }
    }

    /// Absolute endpoint number, irrespective of direction
    /// Two endpoints per interface can share the same absolute number (one In, one Out)
    pub fn absolute(&self) -> (n: u8)
        ensures
            n == self.spec_absolute(),
            n <= 15,
    {
        let x = self.0;
        assert(x & 0x0F <= 15) by (bit_vector);
        self.0 & ENDPOINT_NUMBER_MASK
    }
}

/// The parts of an endpoint address are those of the byte it was made of,
/// and the address is the byte without its reserved bits.
pub proof fn lemma_ep_address_of_byte(addr: u8)
    ensures
        EpAddress::of_byte(addr)@ == addr & ENDPOINT_ADDRESS_MASK,
        EpAddress::of_byte(addr).spec_absolute() == addr & ENDPOINT_NUMBER_MASK,
        EpAddress::of_byte(addr).spec_direction() == if addr & ENDPOINT_DIRECTION_MASK == 0 {
            Direction::Out
        } else {
            Direction::In
        },
{
    assert((addr & 0x8F) & 0x0F == addr & 0x0F && (addr & 0x8F) & 0x80 == addr & 0x80)
        by (bit_vector);
}

impl From<u8> for EpAddress {
    fn from(addr: u8) -> (a: Self)
        ensures
            a == EpAddress::of_byte(addr),
    {
        EpAddress::from_byte(addr)
    }
}

impl vstd::std_specs::convert::FromSpecImpl<u8> for EpAddress {
    open spec fn obeys_from_spec() -> bool {
        true
    }

    open spec fn from_spec(addr: u8) -> Self {
        EpAddress::of_byte(addr)
    }
}

impl From<EpAddress> for u8 {
    fn from(addr: EpAddress) -> (b: u8)
        ensures
            b == addr@,
    {
        addr.0
    }
}

impl vstd::std_specs::convert::FromSpecImpl<EpAddress> for u8 {
    open spec fn obeys_from_spec() -> bool {
        true
    }

    open spec fn from_spec(addr: EpAddress) -> u8 {
        addr@
    }
}

impl HostEndpoint for Endpoint {

}

/// What identifies an endpoint.
pub trait EndpointProperties {
    /// The properties of the endpoint.
    spec fn spec_ep_props(&self) -> EpProps;

    /// The properties of the endpoint.
    fn ep_props(&self) -> (props: EpProps)
        ensures
            props == self.spec_ep_props(),
    {
        EpProps {
            dev_addr: self.device_address(),
            ep_addr: self.endpoint_address(),
            tr_type: self.transfer_type(),
        }
    }

    /// Address of the device owning this endpoint
    fn device_address(&self) -> (addr: DevAddress)
        ensures
            addr == self.spec_ep_props().dev_addr,
    ;

    /// Endpoint address, unique for the interface (includes direction bit)
    fn endpoint_address(&self) -> (addr: EpAddress)
        ensures
            addr == self.spec_ep_props().ep_addr,
    ;

    /// The way the endpoint goes, as its address says.
    fn direction(&self) -> (d: Direction)
        ensures
            d == self.spec_ep_props().ep_addr.spec_direction(),
    {
        self.endpoint_address().direction()
    }

    /// The type of transfer this endpoint uses
    fn transfer_type(&self) -> (t: TransferType)
        ensures
            t == self.spec_ep_props().tr_type,
    ;
}

/// The data toggle of an endpoint.
pub trait DataToggle: Sized {
    /// The data toggle sequence bit for the next transfer.
    spec fn spec_toggle(&self) -> bool;

    /// The endpoint with the toggle `toggle` and everything else as it is.
    spec fn spec_with_toggle(&self, toggle: bool) -> Self;

    /// The data toggle sequence bit for the next transfer from the
    /// device to the host.
    fn toggle(&self) -> (t: bool)
        ensures
            t == self.spec_toggle(),
    ;

    /// The `USBHost` will, when required, update the data toggle
    /// sequence bit for the next device to host transfer.
    fn set_toggle(&mut self, toggle: bool)
        ensures
            *final(self) == old(self).spec_with_toggle(toggle),
            final(self).spec_toggle() == toggle,
    ;

    /// Sets the toggle to the complement of what it is, and returns it.
    fn flip_toggle(&mut self) -> (flipped: bool)
        ensures
            flipped == !old(self).spec_toggle(),
            *final(self) == old(self).spec_with_toggle(flipped),
            final(self).spec_toggle() == flipped,
    {
        let flipped = !self.toggle();
        self.set_toggle(flipped);
        flipped
    }
}

/// What a bulk transfer to the host returns, given what the host returned.
pub open spec fn bulk_in_outcome(props: EpProps, r: Result<usize, HostError>) -> Result<
    usize,
    UsbError,
> {
    match r {
        Ok(n) => Ok(n),
        Err(e) => Err(UsbError::BulkIn(props, e)),
    }
}

/// What a bulk transfer to the device returns, given what the host returned.
pub open spec fn bulk_out_outcome(props: EpProps, r: Result<usize, HostError>) -> Result<
    usize,
    UsbError,
> {
    match r {
        Ok(n) => Ok(n),
        Err(e) => Err(UsbError::BulkOut(props, e)),
    }
}

/// What an interrupt transfer returns, given what the host returned.
pub open spec fn interrupt_in_outcome(props: EpProps, r: Result<usize, HostError>) -> Result<
    usize,
    UsbError,
> {
    match r {
        Ok(n) => Ok(n),
        Err(e) => Err(UsbError::Interrupt(props, e)),
    }
}

/// The error that keeps a transfer of type `wanted` in the direction `way`
/// from an endpoint with the properties `props`, if there is one: the type is
/// looked at first.
pub open spec fn transfer_mismatch(props: EpProps, wanted: TransferType, way: Direction) -> Option<
    UsbError,
> {
    if props.tr_type != wanted {
        Some(UsbError::TransferTypeMismatch)
    } else if props.ep_addr.spec_direction() != way {
        Some(UsbError::DirectionMismatch)
    } else {
        None
    }
}

/// Puts the endpoint into the error of a failed bulk transfer to the host.
pub fn bulk_in_result(props: EpProps, r: Result<usize, HostError>) -> (out: Result<
    usize,
    UsbError,
>)
    ensures
        out == bulk_in_outcome(props, r),
{
    match r {
        Ok(n) => Ok(n),
        Err(e) => Err(UsbError::BulkIn(props, e)),
    }
}

/// Puts the endpoint into the error of a failed bulk transfer to the device.
pub fn bulk_out_result(props: EpProps, r: Result<usize, HostError>) -> (out: Result<
    usize,
    UsbError,
>)
    ensures
        out == bulk_out_outcome(props, r),
{
    match r {
        Ok(n) => Ok(n),
        Err(e) => Err(UsbError::BulkOut(props, e)),
    }
}

/// Puts the endpoint into the error of a failed interrupt transfer.
pub fn interrupt_in_result(props: EpProps, r: Result<usize, HostError>) -> (out: Result<
    usize,
    UsbError,
>)
    ensures
        out == interrupt_in_outcome(props, r),
{
    match r {
        Ok(n) => Ok(n),
        Err(e) => Err(UsbError::Interrupt(props, e)),
    }
}

/// An endpoint for bulk transfers.
pub trait BulkEndpoint: HostEndpoint + Sized {
    /// Reads from the endpoint into `buffer`, and returns the number of bytes
    /// read. An endpoint that is not a bulk endpoint to the host is left
    /// alone, and so are the host and the buffer.
    fn bulk_in<H: UsbHost>(&mut self, host: &mut H, buffer: &mut [u8]) -> (r: Result<
        usize,
        UsbError,
    >)
        ensures
            final(buffer)@.len() == old(buffer)@.len(),
            match transfer_mismatch(old(self).spec_ep_props(), TransferType::Bulk, Direction::In) {
                Some(e) => r == Err::<usize, UsbError>(e) && *final(self) == *old(self) && *final(host) == *old(host) && final(buffer)@ == old(buffer)@,
                None => *final(self) == old(self).spec_with_toggle(final(self).spec_toggle())
                    && (exists|hr: Result<usize, HostError>|
                    r == bulk_in_outcome(old(self).spec_ep_props(), hr) && (hr matches Ok(n) ==> n
                        <= old(buffer)@.len())) && exists|t: Transferred| #[trigger]
                    read_from(*old(host), *final(host), *old(self), *final(self), old(buffer)@, t)
                        && t.data == Some(final(buffer)@) && r == bulk_in_outcome(
                        old(self).spec_ep_props(),
                        t.result,
                    ),
            },
    {
        if self.transfer_type() != TransferType::Bulk {
            return Err(UsbError::TransferTypeMismatch);
        }
        if self.direction() != Direction::In {
            return Err(UsbError::DirectionMismatch);
        }
        let props = self.ep_props();
        let hr = host.in_transfer(self, buffer);
        proof {
            let t = Transferred { toggle: self.spec_toggle(), data: Some(buffer@), result: hr };
            assert(read_from(*old(host), *host, *old(self), *self, old(buffer)@, t));
        }
        bulk_in_result(props, hr)
    }

    /// Writes `buffer` to the endpoint, and returns the number of bytes
    /// written. An endpoint that is not a bulk endpoint to the device is left
    /// alone, and so is the host.
    fn bulk_out<H: UsbHost>(&mut self, host: &mut H, buffer: &[u8]) -> (r: Result<usize, UsbError>)
        ensures
            match transfer_mismatch(old(self).spec_ep_props(), TransferType::Bulk, Direction::Out) {
                Some(e) => r == Err::<usize, UsbError>(e) && *final(self) == *old(self) && *final(host) == *old(host),
                None => *final(self) == old(self).spec_with_toggle(final(self).spec_toggle())
                    && (exists|hr: Result<usize, HostError>|
                    r == bulk_out_outcome(old(self).spec_ep_props(), hr)) && exists|t: Transferred| #[trigger]
                    written_to(*old(host), *final(host), *old(self), *final(self), buffer@, t)
                        && r == bulk_out_outcome(old(self).spec_ep_props(), t.result),
            },
    {
        if self.transfer_type() != TransferType::Bulk {
            return Err(UsbError::TransferTypeMismatch);
        }
        if self.direction() != Direction::Out {
            return Err(UsbError::DirectionMismatch);
        }
        let props = self.ep_props();
        let hr = host.out_transfer(self, buffer);
        proof {
            let t = Transferred { toggle: self.spec_toggle(), data: None, result: hr };
            assert(written_to(*old(host), *host, *old(self), *self, buffer@, t));
        }
        bulk_out_result(props, hr)
    }
}

impl BulkEndpoint for Endpoint {

}

/// The transfer to the host that the endpoint `e` asks of a host with a
/// buffer that holds `data`.
pub open spec fn in_call<E: HostEndpoint>(e: E, data: Seq<u8>) -> HostCall {
    HostCall::In(
        DataCall {
            ep: e.spec_ep_props(),
            max_packet_size: e.spec_max_packet_size(),
            toggle: e.spec_toggle(),
            data,
        },
    )
}

/// The transfer to the device that the endpoint `e` asks of a host with
/// the bytes `data`.
pub open spec fn out_call<E: HostEndpoint>(e: E, data: Seq<u8>) -> HostCall {
    HostCall::Out(
        DataCall {
            ep: e.spec_ep_props(),
            max_packet_size: e.spec_max_packet_size(),
            toggle: e.spec_toggle(),
            data,
        },
    )
}

/// Whether the endpoint `e0` asked the host `h0` for data with a buffer that
/// held `data`, and the host answered with `t`: the host is `h1` afterwards
/// and the endpoint `e1`, which differs from `e0` in the data toggle at
/// most; the buffer is as long as before, and no more bytes were transferred
/// than it has.
pub open spec fn read_from<H: UsbHost, E: HostEndpoint>(h0: H, h1: H, e0: E, e1: E, data: Seq<u8>, t: Transferred) -> bool {
    &&& h0.answers(in_call(e0, data), h1, HostAnswer::Transferred(t))
    &&& e1 == e0.spec_with_toggle(t.toggle)
    &&& t.data matches Some(after) && after.len() == data.len()
    &&& t.result matches Ok(n) ==> n <= data.len()
}

/// Whether the endpoint `e0` handed the bytes `data` to the host `h0`, and
/// the host answered with `t`: the host is `h1` afterwards and the endpoint
/// `e1`, which differs from `e0` in the data toggle at most.
pub open spec fn written_to<H: UsbHost, E: HostEndpoint>(h0: H, h1: H, e0: E, e1: E, data: Seq<u8>, t: Transferred) -> bool {
    &&& h0.answers(out_call(e0, data), h1, HostAnswer::Transferred(t))
    &&& e1 == e0.spec_with_toggle(t.toggle)
    &&& t.data is None
}

/// An endpoint for interrupt transfers.
pub trait InterruptEndpoint: HostEndpoint + Sized {
    /// Reads from the endpoint into `buffer`, and returns the number of bytes
    /// read. An endpoint that is not an interrupt endpoint to the host is
    /// left alone, and so are the host and the buffer.
    fn interrupt_in<H: UsbHost>(&mut self, host: &mut H, buffer: &mut [u8]) -> (r: Result<
        usize,
        UsbError,
    >)
        ensures
            final(buffer)@.len() == old(buffer)@.len(),
            match transfer_mismatch(
                old(self).spec_ep_props(),
                TransferType::Interrupt,
                Direction::In,
            ) {
                Some(e) => r == Err::<usize, UsbError>(e) && *final(self) == *old(self) && *final(host) == *old(host) && final(buffer)@ == old(buffer)@,
                None => *final(self) == old(self).spec_with_toggle(final(self).spec_toggle())
                    && (exists|hr: Result<usize, HostError>|
                    r == interrupt_in_outcome(old(self).spec_ep_props(), hr) && (hr matches Ok(n)
                        ==> n <= old(buffer)@.len())) && exists|t: Transferred| #[trigger]
                    read_from(*old(host), *final(host), *old(self), *final(self), old(buffer)@, t)
                        && t.data == Some(final(buffer)@) && r == interrupt_in_outcome(
                        old(self).spec_ep_props(),
                        t.result,
                    ),
            },
    {
        if self.transfer_type() != TransferType::Interrupt {
            return Err(UsbError::TransferTypeMismatch);
        }
        if self.direction() != Direction::In {
            return Err(UsbError::DirectionMismatch);
        }
        let props = self.ep_props();
        let hr = host.in_transfer(self, buffer);
        proof {
            let t = Transferred { toggle: self.spec_toggle(), data: Some(buffer@), result: hr };
            assert(read_from(*old(host), *host, *old(self), *self, old(buffer)@, t));
        }
        interrupt_in_result(props, hr)
    }
}

impl InterruptEndpoint for Endpoint {

}

/// An endpoint as a host controller needs it.
pub trait HostEndpoint: DataToggle + MaxPacketSize + EndpointProperties {

}

} // verus!
