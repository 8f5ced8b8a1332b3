//! A collection of structures for use in setting up devices during
//! enumeration.
//!
//! These types are all defined in §9.3 of the USB 2.0 specification. Their
//! readers say in words why a byte stands for nothing.
use crate::bits::{
    field16, hi_byte, le16, lemma_field16_bound, lemma_half_word_set, lo_byte, with_field16,
};
use crate::control::{lemma_request_type_parts, lemma_request_type_set};
use vstd::prelude::*;

verus! {

/// The field `bmRequestType` of a setup packet: the direction in bit 7, the
/// kind in bits 5 and 6, the recipient in bits 0 to 4.
#[derive(Clone, Copy, Debug, PartialEq, Eq, Structural)]
pub struct RequestType(u8);

impl View for RequestType {
    type V = u8;

    closed spec fn view(&self) -> u8 {
        self.0
    }
}

impl RequestType {
    /// The request type with the bits `bits`.
    pub fn from_bits(bits: u8) -> (t: Self)
        ensures
            t@ == bits,
    {
        RequestType(bits)
    }

    /// The byte as it goes on the wire.
    pub fn bits(self) -> (b: u8)
        ensures
            b == self@,
    {
        self.0
    }

    /// The recipient that the byte names.
    pub open spec fn spec_recipient(self) -> Result<RequestRecipient, &'static str> {
        RequestRecipient::of_code(self@ & 0x1f)
    }

    /// The kind that the byte names.
    pub open spec fn spec_kind(self) -> Result<RequestKind, &'static str> {
        RequestKind::of_code(self@ & 0x60)
    }

    /// The direction that the byte names.
    pub open spec fn spec_direction(self) -> Result<RequestDirection, &'static str> {
        RequestDirection::of_code(self@ & 0x80)
    }

    /// The recipient, unless bits 0 to 4 hold a reserved value.
    pub fn recipient(self) -> (r: Result<RequestRecipient, &'static str>)
        ensures
            r == self.spec_recipient(),
    {
        RequestRecipient::try_from(self.0 & 0x1f)
    }

    /// Sets the recipient and leaves kind and direction as they are.
    pub fn set_recipient(&mut self, v: RequestRecipient)
        ensures
            final(self)@ == (old(self)@ & !0x1fu8) | v.code(),
            final(self).spec_recipient() == Ok::<RequestRecipient, &'static str>(v),
            final(self).spec_kind() == old(self).spec_kind(),
            final(self).spec_direction() == old(self).spec_direction(),
    {
        proof {
            lemma_request_type_set(self.0, v.code());
        }
        self.0 = (self.0 & !0x1fu8) | v.bits();
    }

    /// The kind, unless bits 5 and 6 hold the reserved value.
    pub fn kind(self) -> (r: Result<RequestKind, &'static str>)
        ensures
            r == self.spec_kind(),
    {
        RequestKind::try_from(self.0 & 0x60)
    }

    /// Sets the kind and leaves recipient and direction as they are.
    pub fn set_kind(&mut self, v: RequestKind)
        ensures
            final(self)@ == (old(self)@ & !0x60u8) | v.code(),
            final(self).spec_kind() == Ok::<RequestKind, &'static str>(v),
            final(self).spec_recipient() == old(self).spec_recipient(),
            final(self).spec_direction() == old(self).spec_direction(),
    {
        proof {
            lemma_request_type_set(self.0, v.code());
        }
        self.0 = (self.0 & !0x60u8) | v.bits();
    }

    /// The direction: bit 7.
    pub fn direction(self) -> (r: Result<RequestDirection, &'static str>)
        ensures
            r == self.spec_direction(),
            r is Ok,
    {
        proof {
            lemma_request_type_set(self.0, 0);
        }
        RequestDirection::try_from(self.0 & 0x80)
    }

    /// Sets the direction and leaves recipient and kind as they are.
    pub fn set_direction(&mut self, v: RequestDirection)
        ensures
            final(self)@ == (old(self)@ & !0x80u8) | v.code(),
            final(self).spec_direction() == Ok::<RequestDirection, &'static str>(v),
            final(self).spec_recipient() == old(self).spec_recipient(),
            final(self).spec_kind() == old(self).spec_kind(),
    {
        proof {
            lemma_request_type_set(self.0, v.code());
        }
        self.0 = (self.0 & !0x80u8) | v.bits();
    }

    /// The request type as a spec value.
    pub closed spec fn of_parts(
        dir: RequestDirection,
        kind: RequestKind,
        recip: RequestRecipient,
    ) -> Self {
        RequestType(dir.code() | kind.code() | recip.code())
    }
}

impl From<(RequestDirection, RequestKind, RequestRecipient)> for RequestType {
    fn from(v: (RequestDirection, RequestKind, RequestRecipient)) -> (t: Self)
        ensures
            t@ == v.0.code() | v.1.code() | v.2.code(),
            t.spec_direction() == Ok::<RequestDirection, &'static str>(v.0),
            t.spec_kind() == Ok::<RequestKind, &'static str>(v.1),
            t.spec_recipient() == Ok::<RequestRecipient, &'static str>(v.2),
    {
        proof {
            lemma_request_type_parts(v.0.code(), v.1.code(), v.2.code());
        }
        Self(v.0.bits() | v.1.bits() | v.2.bits())
    }
}

impl vstd::std_specs::convert::FromSpecImpl<(RequestDirection, RequestKind, RequestRecipient)> for RequestType {
    open spec fn obeys_from_spec() -> bool {
        true
    }

    open spec fn from_spec(v: (RequestDirection, RequestKind, RequestRecipient)) -> Self {
        RequestType::of_parts(v.0, v.1, v.2)
    }
}

/// A request type made of a direction, a kind and a recipient gives back each
/// of the three.
pub proof fn lemma_request_type_round_trip(
    dir: RequestDirection,
    kind: RequestKind,
    recip: RequestRecipient,
)
    ensures
        RequestType::of_parts(dir, kind, recip).spec_direction() == Ok::<
            RequestDirection,
            &'static str,
        >(dir),
        RequestType::of_parts(dir, kind, recip).spec_kind() == Ok::<RequestKind, &'static str>(
            kind,
        ),
        RequestType::of_parts(dir, kind, recip).spec_recipient() == Ok::<
            RequestRecipient,
            &'static str,
        >(recip),
{
    lemma_request_type_parts(dir.code(), kind.code(), recip.code());
}

/// Which way the data stage of a control transfer goes.
#[derive(Copy, Clone, Debug, PartialEq, Eq, Structural)]
pub enum RequestDirection {
    HostToDevice,
    DeviceToHost,
}

impl RequestDirection {
    /// The value as it stands in a setup packet.
    pub open spec fn code(self) -> u8 {
        match self {
            Self::HostToDevice => 0x00,
            Self::DeviceToHost => 0x80,
        }
    }

    /// The value as it stands in a setup packet.
    pub fn bits(self) -> (b: u8)
        ensures
            b == self.code(),
    {
        match self {
            Self::HostToDevice => 0x00,
            Self::DeviceToHost => 0x80,
        }
    }

    /// What `v` stands for, or why it stands for nothing.
    pub open spec fn of_code(v: u8) -> Result<Self, &'static str> {
        if v == 0x00 {
            Ok(Self::HostToDevice)
        } else if v == 0x80 {
            Ok(Self::DeviceToHost)
        } else {
            Err("direction can only be 0x00 or 0x80")
        }
    }
}

impl TryFrom<u8> for RequestDirection {
    type Error = &'static str;

    fn try_from(v: u8) -> (r: Result<Self, &'static str>)
        ensures
            r == Self::of_code(v),
    {
        match v {
            0x00 => Ok(Self::HostToDevice),
            0x80 => Ok(Self::DeviceToHost),
            _ => Err("direction can only be 0x00 or 0x80"),
        }
    }
}

impl vstd::std_specs::convert::TryFromSpecImpl<u8> for RequestDirection {
    open spec fn obeys_try_from_spec() -> bool {
        true
    }

    open spec fn try_from_spec(v: u8) -> Result<Self, &'static str> {
        Self::of_code(v)
    }
}

/// Who defined the request.
#[derive(Copy, Clone, Debug, PartialEq, Eq, Structural)]
pub enum RequestKind {
    Standard,
    Class,
    Vendor,
}

impl RequestKind {
    /// The value as it stands in a setup packet.
    pub open spec fn code(self) -> u8 {
        match self {
            Self::Standard => 0x00,
            Self::Class => 0x20,
            Self::Vendor => 0x40,
        }
    }

    /// The value as it stands in a setup packet.
    pub fn bits(self) -> (b: u8)
        ensures
            b == self.code(),
    {
        match self {
            Self::Standard => 0x00,
            Self::Class => 0x20,
            Self::Vendor => 0x40,
        }
    }

    /// What `v` stands for, or why it stands for nothing.
    pub open spec fn of_code(v: u8) -> Result<Self, &'static str> {
        if v == 0x00 {
            Ok(Self::Standard)
        } else if v == 0x20 {
            Ok(Self::Class)
        } else if v == 0x40 {
            Ok(Self::Vendor)
        } else {
            Err("type can only be 0x00, 0x20, or 0x40")
        }
    }
}

impl TryFrom<u8> for RequestKind {
    type Error = &'static str;

    fn try_from(v: u8) -> (r: Result<Self, &'static str>)
        ensures
            r == Self::of_code(v),
    {
        match v {
            0x00 => Ok(Self::Standard),
            0x20 => Ok(Self::Class),
            0x40 => Ok(Self::Vendor),
            _ => Err("type can only be 0x00, 0x20, or 0x40"),
        }
    }
}

impl vstd::std_specs::convert::TryFromSpecImpl<u8> for RequestKind {
    open spec fn obeys_try_from_spec() -> bool {
        true
    }

    open spec fn try_from_spec(v: u8) -> Result<Self, &'static str> {
        Self::of_code(v)
    }
}

/// Whom the request is for.
#[derive(Copy, Clone, Debug, PartialEq, Eq, Structural)]
pub enum RequestRecipient {
    Device,
    Interface,
    Endpoint,
    Other,
}

impl RequestRecipient {
    /// The value as it stands in a setup packet.
    pub open spec fn code(self) -> u8 {
        match self {
            Self::Device => 0x00,
            Self::Interface => 0x01,
            Self::Endpoint => 0x02,
            Self::Other => 0x03,
        }
    }

    /// The value as it stands in a setup packet.
    pub fn bits(self) -> (b: u8)
        ensures
            b == self.code(),
    {
        match self {
            Self::Device => 0x00,
            Self::Interface => 0x01,
            Self::Endpoint => 0x02,
            Self::Other => 0x03,
        }
    }

    /// What `v` stands for, or why it stands for nothing.
    pub open spec fn of_code(v: u8) -> Result<Self, &'static str> {
        if v == 0x00 {
            Ok(Self::Device)
        } else if v == 0x01 {
            Ok(Self::Interface)
        } else if v == 0x02 {
            Ok(Self::Endpoint)
        } else if v == 0x03 {
            Ok(Self::Other)
        } else {
            Err("recipient can only be between 0 and 3")
        }
    }
}

impl TryFrom<u8> for RequestRecipient {
    type Error = &'static str;

    fn try_from(v: u8) -> (r: Result<Self, &'static str>)
        ensures
            r == Self::of_code(v),
    {
        match v {
            0x00 => Ok(Self::Device),
            0x01 => Ok(Self::Interface),
            0x02 => Ok(Self::Endpoint),
            0x03 => Ok(Self::Other),
            _ => Err("recipient can only be between 0 and 3"),
        }
    }
}

impl vstd::std_specs::convert::TryFromSpecImpl<u8> for RequestRecipient {
    open spec fn obeys_try_from_spec() -> bool {
        true
    }

    open spec fn try_from_spec(v: u8) -> Result<Self, &'static str> {
        Self::of_code(v)
    }
}

/// The field `wValue` of a setup packet: two bytes, the low one first on the
/// wire.
#[derive(Clone, Copy, Debug, PartialEq, Eq, Structural)]
pub struct WValue(u16);

impl View for WValue {
    type V = u16;

    closed spec fn view(&self) -> u16 {
        self.0
    }
}

impl Default for WValue {
    fn default() -> (w: Self)
        ensures
            w@ == 0,
    {
        WValue(0)
    }
}

impl WValue {
    /// The low byte.
    pub open spec fn spec_lo(self) -> u8 {
        field16(self@, 0, 0xff) as u8
    }

    /// The high byte.
    pub open spec fn spec_hi(self) -> u8 {
        field16(self@, 8, 0xff) as u8
    }

    /// The value with the low byte `lo` and the high byte `hi`.
    pub closed spec fn of_bytes(lo: u8, hi: u8) -> Self {
        WValue(with_field16(with_field16(0, 0, 0xff, lo as u16), 8, 0xff, hi as u16))
    }

    /// The value as a half word.
    pub fn bits(self) -> (b: u16)
        ensures
            b == self@,
    {
        self.0
    }

    /// The low byte.
    pub fn w_value_lo(self) -> (b: u8)
        ensures
            b == self.spec_lo(),
    {
        lo_byte(self.0)
    }

    /// Sets the low byte and leaves the high byte as it is.
    pub fn set_w_value_lo(&mut self, v: u8)
        ensures
            final(self)@ == with_field16(old(self)@, 0, 0xff, v as u16),
            final(self).spec_lo() == v,
            final(self).spec_hi() == old(self).spec_hi(),
    {
        proof {
            lemma_half_word_set(self.0, v);
        }
        self.0 = (self.0 & !(0xffu16 << 0u16)) | (((v as u16) & 0xffu16) << 0u16);
    }

    /// The high byte.
    pub fn w_value_hi(self) -> (b: u8)
        ensures
            b == self.spec_hi(),
    {
        hi_byte(self.0)
    }

    /// Sets the high byte and leaves the low byte as it is.
    pub fn set_w_value_hi(&mut self, v: u8)
        ensures
            final(self)@ == with_field16(old(self)@, 8, 0xff, v as u16),
            final(self).spec_hi() == v,
            final(self).spec_lo() == old(self).spec_lo(),
    {
        proof {
            lemma_half_word_set(self.0, v);
        }
        self.0 = (self.0 & !(0xffu16 << 8u16)) | (((v as u16) & 0xffu16) << 8u16);
    }
}

impl From<(u8, u8)> for WValue {
    fn from(v: (u8, u8)) -> (w: Self)
        ensures
            w == WValue::of_bytes(v.0, v.1),
            w.spec_lo() == v.0,
            w.spec_hi() == v.1,
    {
        let mut rc = Self(0);
        rc.set_w_value_lo(v.0);
        rc.set_w_value_hi(v.1);
        rc
    }
}

impl vstd::std_specs::convert::FromSpecImpl<(u8, u8)> for WValue {
    open spec fn obeys_from_spec() -> bool {
        true
    }

    open spec fn from_spec(v: (u8, u8)) -> Self {
        WValue::of_bytes(v.0, v.1)
    }
}

/// The standard requests, cf table 9-4 of the USB 2.0 specification.
#[derive(Copy, Clone, Debug, PartialEq, Eq, Structural)]
pub enum RequestCode {
    GetStatus,
    ClearFeature,
    SetFeature,
    SetAddress,
    GetDescriptor,
    SetDescriptor,
    GetConfiguration,
    SetConfiguration,
    GetInterface,
    SetInterface,
    SynchFrame,
}

impl RequestCode {
    /// The value as it stands in a setup packet.
    pub open spec fn code(self) -> u8 {
        match self {
            Self::GetStatus => 0,
            Self::ClearFeature => 1,
            Self::SetFeature => 3,
            Self::SetAddress => 5,
            Self::GetDescriptor => 6,
            Self::SetDescriptor => 7,
            Self::GetConfiguration => 8,
            Self::SetConfiguration => 9,
            Self::GetInterface => 10,
            Self::SetInterface => 11,
            Self::SynchFrame => 12,
        }
    }

    /// The value as it stands in a setup packet.
    pub fn bits(self) -> (b: u8)
        ensures
            b == self.code(),
    {
        match self {
            Self::GetStatus => 0,
            Self::ClearFeature => 1,
            Self::SetFeature => 3,
            Self::SetAddress => 5,
            Self::GetDescriptor => 6,
            Self::SetDescriptor => 7,
            Self::GetConfiguration => 8,
            Self::SetConfiguration => 9,
            Self::GetInterface => 10,
            Self::SetInterface => 11,
            Self::SynchFrame => 12,
        }
    }

    /// What `v` stands for, or why it stands for nothing.
    pub open spec fn of_code(v: u8) -> Result<Self, &'static str> {
        if v == 0 {
            Ok(Self::GetStatus)
        } else if v == 1 {
            Ok(Self::ClearFeature)
        } else if v == 3 {
            Ok(Self::SetFeature)
        } else if v == 5 {
            Ok(Self::SetAddress)
        } else if v == 6 {
            Ok(Self::GetDescriptor)
        } else if v == 7 {
            Ok(Self::SetDescriptor)
        } else if v == 8 {
            Ok(Self::GetConfiguration)
        } else if v == 9 {
            Ok(Self::SetConfiguration)
        } else if v == 10 {
            Ok(Self::GetInterface)
        } else if v == 11 {
            Ok(Self::SetInterface)
        } else if v == 12 {
            Ok(Self::SynchFrame)
        } else {
            Err("invalid request value")
        }
    }
}

impl TryFrom<u8> for RequestCode {
    type Error = &'static str;

    fn try_from(v: u8) -> (r: Result<Self, &'static str>)
        ensures
            r == Self::of_code(v),
    {
        match v {
            0 => Ok(Self::GetStatus),
            1 => Ok(Self::ClearFeature),
            3 => Ok(Self::SetFeature),
            5 => Ok(Self::SetAddress),
            6 => Ok(Self::GetDescriptor),
            7 => Ok(Self::SetDescriptor),
            8 => Ok(Self::GetConfiguration),
            9 => Ok(Self::SetConfiguration),
            10 => Ok(Self::GetInterface),
            11 => Ok(Self::SetInterface),
            12 => Ok(Self::SynchFrame),
            _ => Err("invalid request value"),
        }
    }
}

impl vstd::std_specs::convert::TryFromSpecImpl<u8> for RequestCode {
    open spec fn obeys_try_from_spec() -> bool {
        true
    }

    open spec fn try_from_spec(v: u8) -> Result<Self, &'static str> {
        Self::of_code(v)
    }
}

impl Default for RequestCode {
    fn default() -> (c: Self)
        ensures
            c == RequestCode::GetStatus,
    {
        Self::GetStatus
    }
}

/// The eight bytes that open a control transfer.
#[derive(Copy, Clone, Debug)]
pub struct SetupPacket {
    pub bm_request_type: RequestType,
    pub b_request: RequestCode,
    pub w_value: WValue,
    pub w_index: u16,
    pub w_length: u16,
}

impl SetupPacket {
    /// The packet as it goes on the wire: `bmRequestType` at offset 0,
    /// `bRequest` at 1, then `wValue` at 2, `wIndex` at 4 and `wLength` at 6,
    /// each with its low byte first.
    pub open spec fn wire(self) -> Seq<u8> {
        seq![self.bm_request_type@, self.b_request.code()] + le16(self.w_value@) + le16(
            self.w_index,
        ) + le16(self.w_length)
    }

    /// The packet as it goes on the wire.
    pub fn to_bytes(&self) -> (bytes: [u8; 8])
        ensures
            bytes@ == self.wire(),
            bytes@[0] == self.bm_request_type@,
            bytes@[1] == self.b_request.code(),
            bytes@[2] == self.w_value.spec_lo(),
            bytes@[3] == self.w_value.spec_hi(),
            bytes@.subrange(4, 6) == le16(self.w_index),
            bytes@.subrange(6, 8) == le16(self.w_length),
    {
        let bytes = [
            self.bm_request_type.bits(),
            self.b_request.bits(),
            self.w_value.w_value_lo(),
            self.w_value.w_value_hi(),
            lo_byte(self.w_index),
            hi_byte(self.w_index),
            lo_byte(self.w_length),
            hi_byte(self.w_length),
        ];
        proof {
            lemma_field16_bound(self.w_value@, 0, 0xff);
            lemma_field16_bound(self.w_value@, 8, 0xff);
            assert(bytes@ =~= self.wire());
            assert(bytes@.subrange(4, 6) =~= le16(self.w_index));
            assert(bytes@.subrange(6, 8) =~= le16(self.w_length));
        }
        bytes
    }
}

} // verus!
