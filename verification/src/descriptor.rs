//! A collection of structures defining descriptors in the USB.
//!
//! These types are defined in §9.5 and 9.6 of the USB 2.0
//! specification. On the wire a descriptor is packed and little-endian;
//! each structure here is read from and written to those bytes field by
//! field.
use crate::bits::{lemma_zero_bytes, from_le16, half_word, hi_byte, le16, lemma_field16_bound, lemma_le16_round_trip, lo_byte};
use crate::MaxPacketSize;
use vstd::prelude::*;

verus! {

/// The kind of a descriptor: its second byte.
#[derive(Copy, Clone, Debug, PartialEq, Eq, Structural)]
pub enum DescriptorType {
    Device,
    Configuration,
    String,
    Interface,
    Endpoint,
    DeviceQualifier,
    OtherSpeed,
    InterfacePower,
    InterfaceAssociation,
    ClassInterface,
    ClassEndpoint,
}

impl DescriptorType {
    /// The byte that stands for the value.
    pub open spec fn code(self) -> u8 {
        match self {
            Self::Device => 1,
            Self::Configuration => 2,
            Self::String => 3,
            Self::Interface => 4,
            Self::Endpoint => 5,
            Self::DeviceQualifier => 6,
            Self::OtherSpeed => 7,
            Self::InterfacePower => 8,
            Self::InterfaceAssociation => 11,
            Self::ClassInterface => 0x24,
            Self::ClassEndpoint => 0x25,
        }
    }

    /// The value that the byte `v` stands for, if it stands for one.
    pub open spec fn of_code(v: u8) -> Option<Self> {
        if v == 1 {
            Some(Self::Device)
        } else if v == 2 {
            Some(Self::Configuration)
        } else if v == 3 {
            Some(Self::String)
        } else if v == 4 {
            Some(Self::Interface)
        } else if v == 5 {
            Some(Self::Endpoint)
        } else if v == 6 {
            Some(Self::DeviceQualifier)
        } else if v == 7 {
            Some(Self::OtherSpeed)
        } else if v == 8 {
            Some(Self::InterfacePower)
        } else if v == 11 {
            Some(Self::InterfaceAssociation)
        } else if v == 0x24 {
            Some(Self::ClassInterface)
        } else if v == 0x25 {
            Some(Self::ClassEndpoint)
        } else {
            None
        }
    }

    /// The byte that stands for the value.
    pub fn bits(self) -> (b: u8)
        ensures
            b == self.code(),
            Self::of_code(b) == Some(self),
    {
        match self {
            Self::Device => 1,
            Self::Configuration => 2,
            Self::String => 3,
            Self::Interface => 4,
            Self::Endpoint => 5,
            Self::DeviceQualifier => 6,
            Self::OtherSpeed => 7,
            Self::InterfacePower => 8,
            Self::InterfaceAssociation => 11,
            Self::ClassInterface => 0x24,
            Self::ClassEndpoint => 0x25,
        }
    }

    /// The value that the byte `v` stands for, if it stands for one.
    pub fn from_repr(v: u8) -> (r: Option<Self>)
        ensures
            r == Self::of_code(v),
            r matches Some(x) ==> x.code() == v,
    {
        match v {
            1 => Some(Self::Device),
            2 => Some(Self::Configuration),
            3 => Some(Self::String),
            4 => Some(Self::Interface),
            5 => Some(Self::Endpoint),
            6 => Some(Self::DeviceQualifier),
            7 => Some(Self::OtherSpeed),
            8 => Some(Self::InterfacePower),
            11 => Some(Self::InterfaceAssociation),
            0x24 => Some(Self::ClassInterface),
            0x25 => Some(Self::ClassEndpoint),
            _ => None,
        }
    }
}

impl DescriptorType {
    /// The value that the byte `v` stands for, or why it stands for none.
    pub open spec fn try_of_code(v: u8) -> Result<Self, &'static str> {
        match Self::of_code(v) {
            Some(x) => Ok(x),
            None => Err("invalid descriptor"),
        }
    }
}

impl TryFrom<u8> for DescriptorType {
    type Error = &'static str;

    fn try_from(v: u8) -> (r: Result<Self, &'static str>)
        ensures
            r == Self::try_of_code(v),
    {
        match Self::from_repr(v) {
            Some(x) => Ok(x),
            None => Err("invalid descriptor"),
        }
    }
}

impl vstd::std_specs::convert::TryFromSpecImpl<u8> for DescriptorType {
    open spec fn obeys_try_from_spec() -> bool {
        true
    }

    open spec fn try_from_spec(v: u8) -> Result<Self, &'static str> {
        Self::try_of_code(v)
    }
}

/// What a device says of itself, cf §9.6.1 of the USB 2.0 specification.
#[derive(Copy, Clone, Debug, PartialEq, Eq, Structural)]
pub struct DeviceDescriptor {
    pub b_length: u8,
    pub b_descriptor_type: DescriptorType,
    pub bcd_usb: u16,
    pub b_device_class: u8,
    pub b_device_sub_class: u8,
    pub b_device_protocol: u8,
    pub b_max_packet_size: u8,
    pub id_vendor: u16,
    pub id_product: u16,
    pub bcd_device: u16,
    pub i_manufacturer: u8,
    pub i_product: u8,
    pub i_serial_number: u8,
    pub b_num_configurations: u8,
}

/// The number of bytes of a [`DeviceDescriptor`] on the wire.
pub const DEVICE_DESCRIPTOR_LEN: usize = 18;

impl DeviceDescriptor {
    /// The descriptor as it goes on the wire: the fields in their order,
    /// without gaps, the low byte of each first.
    pub open spec fn wire(self) -> Seq<u8> {
        seq![
            self.b_length,
            self.b_descriptor_type.code(),
            le16(self.bcd_usb)[0],
            le16(self.bcd_usb)[1],
            self.b_device_class,
            self.b_device_sub_class,
            self.b_device_protocol,
            self.b_max_packet_size,
            le16(self.id_vendor)[0],
            le16(self.id_vendor)[1],
            le16(self.id_product)[0],
            le16(self.id_product)[1],
            le16(self.bcd_device)[0],
            le16(self.bcd_device)[1],
            self.i_manufacturer,
            self.i_product,
            self.i_serial_number,
            self.b_num_configurations,
        ]
    }

    /// The descriptor that the first 18 bytes of `b` hold, if `b` has as
    /// many and every byte that stands for a kind stands for one.
    pub open spec fn of_wire(b: Seq<u8>) -> Option<Self> {
        if b.len() < DEVICE_DESCRIPTOR_LEN || DescriptorType::of_code(b[1]) is None {
            None
        } else {
            Some(
                DeviceDescriptor {
                    b_length: b[0],
                    b_descriptor_type: DescriptorType::of_code(b[1]).unwrap(),
                    bcd_usb: from_le16(b[2], b[3]),
                    b_device_class: b[4],
                    b_device_sub_class: b[5],
                    b_device_protocol: b[6],
                    b_max_packet_size: b[7],
                    id_vendor: from_le16(b[8], b[9]),
                    id_product: from_le16(b[10], b[11]),
                    bcd_device: from_le16(b[12], b[13]),
                    i_manufacturer: b[14],
                    i_product: b[15],
                    i_serial_number: b[16],
                    b_num_configurations: b[17],
                },
            )
        }
    }

    /// The descriptor as it goes on the wire.
    pub fn to_bytes(&self) -> (bytes: [u8; 18])
        ensures
            bytes@ == self.wire(),
            Self::of_wire(bytes@) == Some(*self),
    {
        let bytes = [
            self.b_length,
            self.b_descriptor_type.bits(),
            lo_byte(self.bcd_usb),
            hi_byte(self.bcd_usb),
            self.b_device_class,
            self.b_device_sub_class,
            self.b_device_protocol,
            self.b_max_packet_size,
            lo_byte(self.id_vendor),
            hi_byte(self.id_vendor),
            lo_byte(self.id_product),
            hi_byte(self.id_product),
            lo_byte(self.bcd_device),
            hi_byte(self.bcd_device),
            self.i_manufacturer,
            self.i_product,
            self.i_serial_number,
            self.b_num_configurations,
        ];
        proof {
            assert(bytes@ =~= self.wire());
            lemma_device_round_trip(*self);
        }
        bytes
    }

    /// Reads a descriptor from the first 18 bytes of `buf`.
    pub fn from_bytes(buf: &[u8]) -> (d: Option<Self>)
        ensures
            d == Self::of_wire(buf@),
    {
        if buf.len() < DEVICE_DESCRIPTOR_LEN {
            return None;
        }
        let b_descriptor_type = match DescriptorType::from_repr(buf[1]) {
            Some(x) => x,
            None => {
                return None;
            },
        };
        Some(
            DeviceDescriptor {
                b_length: buf[0],
                b_descriptor_type,
                bcd_usb: half_word(buf[2], buf[3]),
                b_device_class: buf[4],
                b_device_sub_class: buf[5],
                b_device_protocol: buf[6],
                b_max_packet_size: buf[7],
                id_vendor: half_word(buf[8], buf[9]),
                id_product: half_word(buf[10], buf[11]),
                bcd_device: half_word(buf[12], buf[13]),
                i_manufacturer: buf[14],
                i_product: buf[15],
                i_serial_number: buf[16],
                b_num_configurations: buf[17],
            },
        )
    }
}

/// A descriptor read back from its own bytes is the descriptor.
pub proof fn lemma_device_round_trip(d: DeviceDescriptor)
    ensures
        d.wire().len() == DEVICE_DESCRIPTOR_LEN,
        DeviceDescriptor::of_wire(d.wire()) == Some(d),
{
    lemma_le16_round_trip(d.bcd_usb);
    lemma_field16_bound(d.bcd_usb, 0, 0xff);
    lemma_field16_bound(d.bcd_usb, 8, 0xff);
    lemma_le16_round_trip(d.id_vendor);
    lemma_field16_bound(d.id_vendor, 0, 0xff);
    lemma_field16_bound(d.id_vendor, 8, 0xff);
    lemma_le16_round_trip(d.id_product);
    lemma_field16_bound(d.id_product, 0, 0xff);
    lemma_field16_bound(d.id_product, 8, 0xff);
    lemma_le16_round_trip(d.bcd_device);
    lemma_field16_bound(d.bcd_device, 0, 0xff);
    lemma_field16_bound(d.bcd_device, 8, 0xff);
}

/// The head of a configuration, cf §9.6.3. `w_total_length` counts the
/// descriptors of its interfaces and endpoints too.
#[derive(Copy, Clone, Debug, PartialEq, Eq, Structural)]
pub struct ConfigurationDescriptor {
    pub b_length: u8,
    pub b_descriptor_type: DescriptorType,
    pub w_total_length: u16,
    pub b_num_interfaces: u8,
    pub b_configuration_value: u8,
    pub i_configuration: u8,
    pub bm_attributes: u8,
    pub b_max_power: u8,
}

/// The number of bytes of a [`ConfigurationDescriptor`] on the wire.
pub const CONFIGURATION_DESCRIPTOR_LEN: usize = 9;

impl ConfigurationDescriptor {
    /// The descriptor as it goes on the wire: the fields in their order,
    /// without gaps, the low byte of each first.
    pub open spec fn wire(self) -> Seq<u8> {
        seq![
            self.b_length,
            self.b_descriptor_type.code(),
            le16(self.w_total_length)[0],
            le16(self.w_total_length)[1],
            self.b_num_interfaces,
            self.b_configuration_value,
            self.i_configuration,
            self.bm_attributes,
            self.b_max_power,
        ]
    }

    /// The descriptor that the first 9 bytes of `b` hold, if `b` has as
    /// many and every byte that stands for a kind stands for one.
    pub open spec fn of_wire(b: Seq<u8>) -> Option<Self> {
        if b.len() < CONFIGURATION_DESCRIPTOR_LEN || DescriptorType::of_code(b[1]) is None {
            None
        } else {
            Some(
                ConfigurationDescriptor {
                    b_length: b[0],
                    b_descriptor_type: DescriptorType::of_code(b[1]).unwrap(),
                    w_total_length: from_le16(b[2], b[3]),
                    b_num_interfaces: b[4],
                    b_configuration_value: b[5],
                    i_configuration: b[6],
                    bm_attributes: b[7],
                    b_max_power: b[8],
                },
            )
        }
    }

    /// The descriptor as it goes on the wire.
    pub fn to_bytes(&self) -> (bytes: [u8; 9])
        ensures
            bytes@ == self.wire(),
            Self::of_wire(bytes@) == Some(*self),
    {
        let bytes = [
            self.b_length,
            self.b_descriptor_type.bits(),
            lo_byte(self.w_total_length),
            hi_byte(self.w_total_length),
            self.b_num_interfaces,
            self.b_configuration_value,
            self.i_configuration,
            self.bm_attributes,
            self.b_max_power,
        ];
        proof {
            assert(bytes@ =~= self.wire());
            lemma_configuration_round_trip(*self);
        }
        bytes
    }

    /// Reads a descriptor from the first 9 bytes of `buf`.
    pub fn from_bytes(buf: &[u8]) -> (d: Option<Self>)
        ensures
            d == Self::of_wire(buf@),
    {
        if buf.len() < CONFIGURATION_DESCRIPTOR_LEN {
            return None;
        }
        let b_descriptor_type = match DescriptorType::from_repr(buf[1]) {
            Some(x) => x,
            None => {
                return None;
            },
        };
        Some(
            ConfigurationDescriptor {
                b_length: buf[0],
                b_descriptor_type,
                w_total_length: half_word(buf[2], buf[3]),
                b_num_interfaces: buf[4],
                b_configuration_value: buf[5],
                i_configuration: buf[6],
                bm_attributes: buf[7],
                b_max_power: buf[8],
            },
        )
    }
}

/// A descriptor read back from its own bytes is the descriptor.
pub proof fn lemma_configuration_round_trip(d: ConfigurationDescriptor)
    ensures
        d.wire().len() == CONFIGURATION_DESCRIPTOR_LEN,
        ConfigurationDescriptor::of_wire(d.wire()) == Some(d),
{
    lemma_le16_round_trip(d.w_total_length);
    lemma_field16_bound(d.w_total_length, 0, 0xff);
    lemma_field16_bound(d.w_total_length, 8, 0xff);
}

/// An interface of a configuration, cf §9.6.5.
#[derive(Copy, Clone, Debug, PartialEq, Eq, Structural)]
pub struct InterfaceDescriptor {
    pub b_length: u8,
    pub b_descriptor_type: DescriptorType,
    pub b_interface_number: u8,
    pub b_alternate_setting: u8,
    pub b_num_endpoints: u8,
    pub b_interface_class: u8,
    pub b_interface_sub_class: u8,
    pub b_interface_protocol: u8,
    pub i_interface: u8,
}

/// The number of bytes of a [`InterfaceDescriptor`] on the wire.
pub const INTERFACE_DESCRIPTOR_LEN: usize = 9;

impl InterfaceDescriptor {
    /// The descriptor as it goes on the wire: the fields in their order,
    /// without gaps, the low byte of each first.
    pub open spec fn wire(self) -> Seq<u8> {
        seq![
            self.b_length,
            self.b_descriptor_type.code(),
            self.b_interface_number,
            self.b_alternate_setting,
            self.b_num_endpoints,
            self.b_interface_class,
            self.b_interface_sub_class,
            self.b_interface_protocol,
            self.i_interface,
        ]
    }

    /// The descriptor that the first 9 bytes of `b` hold, if `b` has as
    /// many and every byte that stands for a kind stands for one.
    pub open spec fn of_wire(b: Seq<u8>) -> Option<Self> {
        if b.len() < INTERFACE_DESCRIPTOR_LEN || DescriptorType::of_code(b[1]) is None {
            None
        } else {
            Some(
                InterfaceDescriptor {
                    b_length: b[0],
                    b_descriptor_type: DescriptorType::of_code(b[1]).unwrap(),
                    b_interface_number: b[2],
                    b_alternate_setting: b[3],
                    b_num_endpoints: b[4],
                    b_interface_class: b[5],
                    b_interface_sub_class: b[6],
                    b_interface_protocol: b[7],
                    i_interface: b[8],
                },
            )
        }
    }

    /// The descriptor as it goes on the wire.
    pub fn to_bytes(&self) -> (bytes: [u8; 9])
        ensures
            bytes@ == self.wire(),
            Self::of_wire(bytes@) == Some(*self),
    {
        let bytes = [
            self.b_length,
            self.b_descriptor_type.bits(),
            self.b_interface_number,
            self.b_alternate_setting,
            self.b_num_endpoints,
            self.b_interface_class,
            self.b_interface_sub_class,
            self.b_interface_protocol,
            self.i_interface,
        ];
        proof {
            assert(bytes@ =~= self.wire());
            lemma_interface_round_trip(*self);
        }
        bytes
    }

    /// Reads a descriptor from the first 9 bytes of `buf`.
    pub fn from_bytes(buf: &[u8]) -> (d: Option<Self>)
        ensures
            d == Self::of_wire(buf@),
    {
        if buf.len() < INTERFACE_DESCRIPTOR_LEN {
            return None;
        }
        let b_descriptor_type = match DescriptorType::from_repr(buf[1]) {
            Some(x) => x,
            None => {
                return None;
            },
        };
        Some(
            InterfaceDescriptor {
                b_length: buf[0],
                b_descriptor_type,
                b_interface_number: buf[2],
                b_alternate_setting: buf[3],
                b_num_endpoints: buf[4],
                b_interface_class: buf[5],
                b_interface_sub_class: buf[6],
                b_interface_protocol: buf[7],
                i_interface: buf[8],
            },
        )
    }
}

/// A descriptor read back from its own bytes is the descriptor.
pub proof fn lemma_interface_round_trip(d: InterfaceDescriptor)
    ensures
        d.wire().len() == INTERFACE_DESCRIPTOR_LEN,
        InterfaceDescriptor::of_wire(d.wire()) == Some(d),
{
}

/// An endpoint of an interface, cf §9.6.6.
#[derive(Copy, Clone, Debug, PartialEq, Eq, Structural)]
pub struct EndpointDescriptor {
    pub b_length: u8,
    pub b_descriptor_type: DescriptorType,
    pub b_endpoint_address: u8,
    pub bm_attributes: u8,
    pub w_max_packet_size: u16,
    pub b_interval: u8,
}

/// The number of bytes of a [`EndpointDescriptor`] on the wire.
pub const ENDPOINT_DESCRIPTOR_LEN: usize = 7;

impl EndpointDescriptor {
    /// The descriptor as it goes on the wire: the fields in their order,
    /// without gaps, the low byte of each first.
    pub open spec fn wire(self) -> Seq<u8> {
        seq![
            self.b_length,
            self.b_descriptor_type.code(),
            self.b_endpoint_address,
            self.bm_attributes,
            le16(self.w_max_packet_size)[0],
            le16(self.w_max_packet_size)[1],
            self.b_interval,
        ]
    }

    /// The descriptor that the first 7 bytes of `b` hold, if `b` has as
    /// many and every byte that stands for a kind stands for one.
    pub open spec fn of_wire(b: Seq<u8>) -> Option<Self> {
        if b.len() < ENDPOINT_DESCRIPTOR_LEN || DescriptorType::of_code(b[1]) is None {
            None
        } else {
            Some(
                EndpointDescriptor {
                    b_length: b[0],
                    b_descriptor_type: DescriptorType::of_code(b[1]).unwrap(),
                    b_endpoint_address: b[2],
                    bm_attributes: b[3],
                    w_max_packet_size: from_le16(b[4], b[5]),
                    b_interval: b[6],
                },
            )
        }
    }

    /// The descriptor as it goes on the wire.
    pub fn to_bytes(&self) -> (bytes: [u8; 7])
        ensures
            bytes@ == self.wire(),
            Self::of_wire(bytes@) == Some(*self),
    {
        let bytes = [
            self.b_length,
            self.b_descriptor_type.bits(),
            self.b_endpoint_address,
            self.bm_attributes,
            lo_byte(self.w_max_packet_size),
            hi_byte(self.w_max_packet_size),
            self.b_interval,
        ];
        proof {
            assert(bytes@ =~= self.wire());
            lemma_endpoint_round_trip(*self);
        }
        bytes
    }

    /// Reads a descriptor from the first 7 bytes of `buf`.
    pub fn from_bytes(buf: &[u8]) -> (d: Option<Self>)
        ensures
            d == Self::of_wire(buf@),
    {
        if buf.len() < ENDPOINT_DESCRIPTOR_LEN {
            return None;
        }
        let b_descriptor_type = match DescriptorType::from_repr(buf[1]) {
            Some(x) => x,
            None => {
                return None;
            },
        };
        Some(
            EndpointDescriptor {
                b_length: buf[0],
                b_descriptor_type,
                b_endpoint_address: buf[2],
                bm_attributes: buf[3],
                w_max_packet_size: half_word(buf[4], buf[5]),
                b_interval: buf[6],
            },
        )
    }
}

/// A descriptor read back from its own bytes is the descriptor.
pub proof fn lemma_endpoint_round_trip(d: EndpointDescriptor)
    ensures
        d.wire().len() == ENDPOINT_DESCRIPTOR_LEN,
        EndpointDescriptor::of_wire(d.wire()) == Some(d),
{
    lemma_le16_round_trip(d.w_max_packet_size);
    lemma_field16_bound(d.w_max_packet_size, 0, 0xff);
    lemma_field16_bound(d.w_max_packet_size, 8, 0xff);
}

/// Interfaces that make up one function, cf the Interface Association
/// Descriptors engineering change notice.
#[derive(Copy, Clone, Debug, PartialEq, Eq, Structural)]
pub struct InterfaceAssociationDescriptor {
    pub b_length: u8,
    pub b_descriptor_type: DescriptorType,
    pub b_first_interface: u8,
    pub b_interface_count: u8,
    pub b_function_class: u8,
    pub b_function_sub_class: u8,
    pub b_function_protocol: u8,
    pub i_function: u8,
}

/// The number of bytes of a [`InterfaceAssociationDescriptor`] on the wire.
pub const INTERFACE_ASSOCIATION_DESCRIPTOR_LEN: usize = 8;

impl InterfaceAssociationDescriptor {
    /// The descriptor as it goes on the wire: the fields in their order,
    /// without gaps, the low byte of each first.
    pub open spec fn wire(self) -> Seq<u8> {
        seq![
            self.b_length,
            self.b_descriptor_type.code(),
            self.b_first_interface,
            self.b_interface_count,
            self.b_function_class,
            self.b_function_sub_class,
            self.b_function_protocol,
            self.i_function,
        ]
    }

    /// The descriptor that the first 8 bytes of `b` hold, if `b` has as
    /// many and every byte that stands for a kind stands for one.
    pub open spec fn of_wire(b: Seq<u8>) -> Option<Self> {
        if b.len() < INTERFACE_ASSOCIATION_DESCRIPTOR_LEN || DescriptorType::of_code(b[1]) is None {
            None
        } else {
            Some(
                InterfaceAssociationDescriptor {
                    b_length: b[0],
                    b_descriptor_type: DescriptorType::of_code(b[1]).unwrap(),
                    b_first_interface: b[2],
                    b_interface_count: b[3],
                    b_function_class: b[4],
                    b_function_sub_class: b[5],
                    b_function_protocol: b[6],
                    i_function: b[7],
                },
            )
        }
    }

    /// The descriptor as it goes on the wire.
    pub fn to_bytes(&self) -> (bytes: [u8; 8])
        ensures
            bytes@ == self.wire(),
            Self::of_wire(bytes@) == Some(*self),
    {
        let bytes = [
            self.b_length,
            self.b_descriptor_type.bits(),
            self.b_first_interface,
            self.b_interface_count,
            self.b_function_class,
            self.b_function_sub_class,
            self.b_function_protocol,
            self.i_function,
        ];
        proof {
            assert(bytes@ =~= self.wire());
            lemma_interface_association_round_trip(*self);
        }
        bytes
    }

    /// Reads a descriptor from the first 8 bytes of `buf`.
    pub fn from_bytes(buf: &[u8]) -> (d: Option<Self>)
        ensures
            d == Self::of_wire(buf@),
    {
        if buf.len() < INTERFACE_ASSOCIATION_DESCRIPTOR_LEN {
            return None;
        }
        let b_descriptor_type = match DescriptorType::from_repr(buf[1]) {
            Some(x) => x,
            None => {
                return None;
            },
        };
        Some(
            InterfaceAssociationDescriptor {
                b_length: buf[0],
                b_descriptor_type,
                b_first_interface: buf[2],
                b_interface_count: buf[3],
                b_function_class: buf[4],
                b_function_sub_class: buf[5],
                b_function_protocol: buf[6],
                i_function: buf[7],
            },
        )
    }
}

/// A descriptor read back from its own bytes is the descriptor.
pub proof fn lemma_interface_association_round_trip(d: InterfaceAssociationDescriptor)
    ensures
        d.wire().len() == INTERFACE_ASSOCIATION_DESCRIPTOR_LEN,
        InterfaceAssociationDescriptor::of_wire(d.wire()) == Some(d),
{
}

impl MaxPacketSize for EndpointDescriptor {
    open spec fn spec_max_packet_size(&self) -> u16 {
        self.w_max_packet_size
    }

    fn max_packet_size(&self) -> u16 {
        self.w_max_packet_size
    }
}

impl Default for DeviceDescriptor {
    fn default() -> (d: Self)
        ensures
            d.wire() == seq![18u8, 1, 0, 0, 0, 0, 0, 0, 0, 0, 0, 0, 0, 0, 0, 0, 0, 0],
    {
        let d = DeviceDescriptor {
            b_length: 18,
            b_descriptor_type: DescriptorType::Device,
            bcd_usb: 0,
            b_device_class: 0,
            b_device_sub_class: 0,
            b_device_protocol: 0,
            b_max_packet_size: 0,
            id_vendor: 0,
            id_product: 0,
            bcd_device: 0,
            i_manufacturer: 0,
            i_product: 0,
            i_serial_number: 0,
            b_num_configurations: 0,
        };
        proof {
            lemma_zero_bytes();
            assert(d.wire() =~= seq![18u8, 1, 0, 0, 0, 0, 0, 0, 0, 0, 0, 0, 0, 0, 0, 0, 0, 0]);
        }
        d
    }
}

impl Default for ConfigurationDescriptor {
    fn default() -> (d: Self)
        ensures
            d.wire() == seq![9u8, 2, 0, 0, 0, 0, 0, 0, 0],
    {
        let d = ConfigurationDescriptor {
            b_length: 9,
            b_descriptor_type: DescriptorType::Configuration,
            w_total_length: 0,
            b_num_interfaces: 0,
            b_configuration_value: 0,
            i_configuration: 0,
            bm_attributes: 0,
            b_max_power: 0,
        };
        proof {
            lemma_zero_bytes();
            assert(d.wire() =~= seq![9u8, 2, 0, 0, 0, 0, 0, 0, 0]);
        }
        d
    }
}

} // verus!
