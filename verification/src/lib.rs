//! Host side of the USB for small microcontrollers.
//!
//! The crate holds the parts of a USB host stack that do not depend on a
//! particular chip: device addresses, the standard requests and descriptors,
//! the descriptor parser, the device lifecycle, the transfer engine of a pipe
//! and the stack that ties drivers to devices. A host controller is reached
//! through the [`UsbHost`] trait.
use vstd::prelude::*;

pub mod address;
pub mod atsamd;
pub mod bits;
pub mod class;
pub mod control;
pub mod descriptor;
pub mod device;
pub mod driver;
pub mod endpoint;
pub mod host;
pub mod parser;
pub mod setup;
pub mod stack;

pub use address::{AddressPool, DevAddress, MAX_DEVICES};
pub use class::DeviceClass;
pub use control::{
    RequestCode, RequestDirection, RequestKind, RequestRecipient, RequestType, SetupPacket, WValue,
};
pub use descriptor::{
    ConfigurationDescriptor, DescriptorType, DeviceDescriptor, EndpointDescriptor,
    InterfaceAssociationDescriptor, InterfaceDescriptor,
};
pub use device::{ControlEndpoint, Device, DeviceOps, DeviceState, Driver};
pub use endpoint::{
    BulkEndpoint, DataToggle, Endpoint, EndpointProperties, EpAddress, EpProps, HostEndpoint,
    InterruptEndpoint,
};
pub use host::{HostEvent, UsbHost};
pub use parser::{DescriptorParser, DescriptorRef};
pub use stack::{DriverIdx, UsbStack};

verus! {

/// Errors that can be generated when attempting to do a USB transfer.
#[derive(Debug, Clone, Copy, PartialEq, Eq, Structural)]
pub enum UsbError {
    /// The device has an address already.
    AddressSet,
    /// All 127 addresses are taken.
    OutOfAddresses,
    /// The descriptor does not fit in the buffer for it.
    DescriptorTooBig,
    /// Zero is no configuration to select.
    InvalidConfig,
    /// A control transfer failed.
    Control(DevAddress, RequestType, RequestCode, HostError),
    /// Reading a descriptor failed.
    GetDescriptor(EpProps, HostError),
    /// Giving the device its address failed.
    SetAddress(EpProps, HostError),
    /// Selecting the configuration failed.
    SetConfiguration(EpProps, HostError),
    /// Selecting the interface failed.
    SetInterface(EpProps, HostError),
    /// A bulk transfer to the host failed.
    BulkIn(EpProps, HostError),
    /// A bulk transfer to the device failed.
    BulkOut(EpProps, HostError),
    /// An interrupt transfer failed.
    Interrupt(EpProps, HostError),
    /// The descriptor is malformed.
    InvalidDescriptor,
    /// A driver failed.
    Driver,
    /// The device has no driver though its state asks for one.
    NoDriver,
    /// A value is outside of what it may be.
    OutOfRange,
    /// The stack holds as many drivers as it can.
    TooManyDrivers,
    /// The stack holds as many devices as it can.
    TooManyDevices,
    /// The driver holds as many endpoints as it can.
    TooManyEndpoints,
    /// The endpoint is not of the type that the transfer is for.
    TransferTypeMismatch,
    /// The endpoint does not go the way of the transfer.
    DirectionMismatch,
}

/// A transfer error, as the pipe engine of a host controller reports it.
#[derive(Copy, Clone, Debug, PartialEq, Eq, Structural)]
pub enum HostError {
    /// The request itself is malformed.
    InvalidRequest,
    /// The device had nothing to say yet; retryable.
    Nak,
    /// The device refused the request; final.
    Stall,
    /// The hardware flagged a failed transfer.
    Fail,
    /// Host and device disagree on the data toggle.
    Toggle,
    /// CRC16 mismatch.
    Crc,
    /// Corrupted packet identifier.
    Pid,
    /// Corrupted data packet identifier.
    DataPid,
    /// The transfer did not finish before its deadline.
    SoftTimeout,
    /// The hardware gave up on the transaction.
    HardTimeout,
}

/// The type of transfer to use when talking to USB devices.
#[derive(Copy, Clone, Debug, PartialEq, Eq, Structural)]
pub enum TransferType {
    Control,
    Isochronous,
    Bulk,
    Interrupt,
}

/// The bits of an endpoint's `bmAttributes` that hold the transfer type.
pub const TRANSFER_TYPE_MASK: u8 = 0b00000011;

impl TransferType {
    /// The two bits that stand for the type.
    pub open spec fn code(self) -> u8 {
        match self {
            Self::Control => 0,
            Self::Isochronous => 1,
            Self::Bulk => 2,
            Self::Interrupt => 3,
        }
    }

    /// The two bits that stand for the type.
    pub fn bits(self) -> (b: u8)
        ensures
            b == self.code(),
    {
        match self {
            Self::Control => 0,
            Self::Isochronous => 1,
            Self::Bulk => 2,
            Self::Interrupt => 3,
        }
    }

    /// The type that the low two bits of `attributes` stand for.
    pub open spec fn of_attributes(attributes: u8) -> Self {
        let code = attributes & TRANSFER_TYPE_MASK;
        if code == 0 {
            Self::Control
        } else if code == 1 {
            Self::Isochronous
        } else if code == 2 {
            Self::Bulk
        } else {
            Self::Interrupt
        }
    }

    /// The type with the code `v`, if `v` is one.
    pub fn from_repr(v: u8) -> (r: Option<Self>)
        ensures
            match r {
                Some(t) => t.code() == v,
                None => v > 3,
            },
    {
        match v {
            0 => Some(Self::Control),
            1 => Some(Self::Isochronous),
            2 => Some(Self::Bulk),
            3 => Some(Self::Interrupt),
            _ => None,
        }
    }
}

impl From<u8> for TransferType {
    fn from(ttype: u8) -> (t: Self)
        ensures
            t == TransferType::of_attributes(ttype),
    {
        match ttype & TRANSFER_TYPE_MASK {
            0 => Self::Control,
            1 => Self::Isochronous,
            2 => Self::Bulk,
            _ => Self::Interrupt,
        }
    }
}

impl vstd::std_specs::convert::FromSpecImpl<u8> for TransferType {
    open spec fn obeys_from_spec() -> bool {
        true
    }

    open spec fn from_spec(ttype: u8) -> Self {
        TransferType::of_attributes(ttype)
    }
}

/// The direction of a transfer, seen from the host.
///
/// cf §9.6.6 of USB 2.0
#[derive(Copy, Clone, Debug, PartialEq, Eq, Structural)]
pub enum Direction {
    Out,
    In,
}

/// The number of a configuration of a device.
pub type ConfigNum = u8;

/// The number of an interface of a configuration.
pub type InterfaceNum = u8;

/// The largest packet that an endpoint takes or gives.
pub trait MaxPacketSize {
    /// The largest packet, in bytes.
    spec fn spec_max_packet_size(&self) -> u16;

    /// The largest packet, in bytes.
    fn max_packet_size(&self) -> (size: u16)
        ensures
            size == self.spec_max_packet_size(),
    ;
}

} // verus!
