//! Structures and constants for control transfers.
//!
//! These types are all defined in §9.3 of the USB 2.0 specification.
use crate::bits::{
    field16, from_le16, half_word, hi_byte, le16, lemma_field16_bound, lemma_from_le16_bytes,
    lemma_half_word_set, lo_byte, with_field16,
};
use vstd::prelude::*;

verus! {

/// The bit of `bmRequestType` that holds the direction.
pub const DIRECTION_MASK: u8 = 0x80;

/// The bits of `bmRequestType` that hold the kind.
pub const KIND_MASK: u8 = 0x60;

/// The bits of `bmRequestType` that hold the recipient.
pub const RECIPIENT_MASK: u8 = 0x1f;

/// Which way the data stage of a control transfer goes.
#[derive(Copy, Clone, Debug, PartialEq, Eq, Structural)]
pub enum RequestDirection {
    HostToDevice,
    DeviceToHost,
}

impl RequestDirection {
    /// The direction as it stands in `bmRequestType`.
    pub open spec fn code(self) -> u8 {
        match self {
            Self::HostToDevice => 0x00,
            Self::DeviceToHost => 0x80,
        }
    }

    /// The direction as it stands in `bmRequestType`.
    pub fn bits(self) -> (b: u8)
        ensures
            b == self.code(),
    {
        match self {
            Self::HostToDevice => 0x00,
            Self::DeviceToHost => 0x80,
        }
    }

    /// The direction that `v` stands for.
    pub fn from_repr(v: u8) -> (r: Option<Self>)
        ensures
            r == Self::of_code(v),
    {
        match v {
            0x00 => Some(Self::HostToDevice),
            0x80 => Some(Self::DeviceToHost),
            _ => None,
        }
    }

    /// The direction with the code `v`.
    pub open spec fn of_code(v: u8) -> Option<Self> {
        if v == 0x00 {
            Some(Self::HostToDevice)
        } else if v == 0x80 {
            Some(Self::DeviceToHost)
        } else {
            None
        }
    }
}

/// Who defined the request.
#[derive(Copy, Clone, Debug, PartialEq, Eq, Structural)]
pub enum RequestKind {
    Standard,
    Class,
    Vendor,
}

impl RequestKind {
    /// The kind as it stands in `bmRequestType`.
    pub open spec fn code(self) -> u8 {
        match self {
            Self::Standard => 0x00,
            Self::Class => 0x20,
            Self::Vendor => 0x40,
        }
    }

    /// The kind as it stands in `bmRequestType`.
    pub fn bits(self) -> (b: u8)
        ensures
            b == self.code(),
    {
        match self {
            Self::Standard => 0x00,
            Self::Class => 0x20,
            Self::Vendor => 0x40,
        }
    }

    /// The kind that `v` stands for.
    pub fn from_repr(v: u8) -> (r: Option<Self>)
        ensures
            r == Self::of_code(v),
    {
        match v {
            0x00 => Some(Self::Standard),
            0x20 => Some(Self::Class),
            0x40 => Some(Self::Vendor),
            _ => None,
        }
    }

    /// The kind with the code `v`.
    pub open spec fn of_code(v: u8) -> Option<Self> {
        if v == 0x00 {
            Some(Self::Standard)
        } else if v == 0x20 {
            Some(Self::Class)
        } else if v == 0x40 {
            Some(Self::Vendor)
        } else {
            None
        }
    }
}

/// Whom the request is for.
#[derive(Copy, Clone, Debug, PartialEq, Eq, Structural)]
pub enum RequestRecipient {
    Device,
    Interface,
    Endpoint,
    Other,
}

impl RequestRecipient {
    /// The recipient as it stands in `bmRequestType`.
    pub open spec fn code(self) -> u8 {
        match self {
            Self::Device => 0x00,
            Self::Interface => 0x01,
            Self::Endpoint => 0x02,
            Self::Other => 0x03,
        }
    }

    /// The recipient as it stands in `bmRequestType`.
    pub fn bits(self) -> (b: u8)
        ensures
            b == self.code(),
    {
        match self {
            Self::Device => 0x00,
            Self::Interface => 0x01,
            Self::Endpoint => 0x02,
            Self::Other => 0x03,
        }
    }

    /// The recipient that `v` stands for.
    pub fn from_repr(v: u8) -> (r: Option<Self>)
        ensures
            r == Self::of_code(v),
    {
        match v {
            0x00 => Some(Self::Device),
            0x01 => Some(Self::Interface),
            0x02 => Some(Self::Endpoint),
            0x03 => Some(Self::Other),
            _ => None,
        }
    }

    /// The recipient with the code `v`.
    pub open spec fn of_code(v: u8) -> Option<Self> {
        if v == 0x00 {
            Some(Self::Device)
        } else if v == 0x01 {
            Some(Self::Interface)
        } else if v == 0x02 {
            Some(Self::Endpoint)
        } else if v == 0x03 {
            Some(Self::Other)
        } else {
            None
        }
    }
}

/// The field `bmRequestType` of a setup packet: the direction in bit 7, the
/// kind in bits 5 and 6, the recipient in bits 0 to 4.
#[derive(Clone, Copy, Debug, PartialEq, Eq, Structural)]
pub struct RequestType(u8);

impl View for RequestType {
    type V = u8;

    closed spec fn view(&self) -> u8 {
        self.0
    }
}

/// The byte that holds the three parts.
pub open spec fn request_type_bits(
    dir: RequestDirection,
    kind: RequestKind,
    recip: RequestRecipient,
) -> u8 {
    dir.code() | kind.code() | recip.code()
}

/// The parts of a byte made of three codes are these codes.
pub proof fn lemma_request_type_parts(d: u8, k: u8, r: u8)
    by (bit_vector)
    requires
        d == 0x00 || d == 0x80,
        k == 0x00 || k == 0x20 || k == 0x40,
        r <= 0x03,
    ensures
        (d | k | r) & 0x80 == d,
        (d | k | r) & 0x60 == k,
        (d | k | r) & 0x1f == r,
{
}

/// Setting one part of the byte to a code puts the code there and leaves
/// the other two parts as they were; bit 7 is always a direction.
pub proof fn lemma_request_type_set(bits: u8, v: u8)
    by (bit_vector)
    ensures
        v <= 0x03 ==> ((bits & !0x1fu8) | v) & 0x1f == v && ((bits & !0x1fu8) | v) & 0x60 == bits
            & 0x60 && ((bits & !0x1fu8) | v) & 0x80 == bits & 0x80,
        (v == 0x00 || v == 0x20 || v == 0x40) ==> ((bits & !0x60u8) | v) & 0x60 == v && ((bits
            & !0x60u8) | v) & 0x1f == bits & 0x1f && ((bits & !0x60u8) | v) & 0x80 == bits & 0x80,
        (v == 0x00 || v == 0x80) ==> ((bits & !0x80u8) | v) & 0x80 == v && ((bits & !0x80u8) | v)
            & 0x1f == bits & 0x1f && ((bits & !0x80u8) | v) & 0x60 == bits & 0x60,
        bits & 0x80 == 0x00 || bits & 0x80 == 0x80,
{
}

impl RequestType {
    /// The request type with the bits `bits`.
    pub fn from_bits(bits: u8) -> (t: Self)
        ensures
            t@ == bits,
    {
        RequestType(bits)
    }

    /// The byte as it goes on the wire.
    pub fn bits(self) -> (b: u8)
        ensures
            b == self@,
    {
        self.0
    }

    /// The recipient that the byte names.
    pub open spec fn spec_recipient(self) -> Option<RequestRecipient> {
        RequestRecipient::of_code(self@ & RECIPIENT_MASK)
    }

    /// The kind that the byte names.
    pub open spec fn spec_kind(self) -> Option<RequestKind> {
        RequestKind::of_code(self@ & KIND_MASK)
    }

    /// The direction that the byte names.
    pub open spec fn spec_direction(self) -> Option<RequestDirection> {
        RequestDirection::of_code(self@ & DIRECTION_MASK)
    }

    /// The recipient, unless bits 0 to 4 hold a reserved value.
    pub fn recipient(self) -> (r: Option<RequestRecipient>)
        ensures
            r == self.spec_recipient(),
    {
        RequestRecipient::from_repr(self.0 & RECIPIENT_MASK)
    }

    /// Sets the recipient and leaves kind and direction as they are.
    pub fn set_recipient(&mut self, v: RequestRecipient)
        ensures
            final(self)@ == (old(self)@ & !RECIPIENT_MASK) | v.code(),
            final(self).spec_recipient() == Some(v),
            final(self).spec_kind() == old(self).spec_kind(),
            final(self).spec_direction() == old(self).spec_direction(),
    {
        proof {
            lemma_request_type_set(self.0, v.code());
        }
        self.0 = (self.0 & !RECIPIENT_MASK) | v.bits();
    }

    /// The kind, unless bits 5 and 6 hold the reserved value.
    pub fn kind(self) -> (r: Option<RequestKind>)
        ensures
            r == self.spec_kind(),
    {
        RequestKind::from_repr(self.0 & KIND_MASK)
    }

    /// Sets the kind and leaves recipient and direction as they are.
    pub fn set_kind(&mut self, v: RequestKind)
        ensures
            final(self)@ == (old(self)@ & !KIND_MASK) | v.code(),
            final(self).spec_kind() == Some(v),
            final(self).spec_recipient() == old(self).spec_recipient(),
            final(self).spec_direction() == old(self).spec_direction(),
    {
        proof {
            lemma_request_type_set(self.0, v.code());
        }
        self.0 = (self.0 & !KIND_MASK) | v.bits();
    }

    /// The direction: bit 7.
    pub fn direction(self) -> (r: Option<RequestDirection>)
        ensures
            r == self.spec_direction(),
            r is Some,
    {
        proof {
            lemma_request_type_set(self.0, 0);
        }
        RequestDirection::from_repr(self.0 & DIRECTION_MASK)
    }

    /// Sets the direction and leaves recipient and kind as they are.
    pub fn set_direction(&mut self, v: RequestDirection)
        ensures
            final(self)@ == (old(self)@ & !DIRECTION_MASK) | v.code(),
            final(self).spec_direction() == Some(v),
            final(self).spec_recipient() == old(self).spec_recipient(),
            final(self).spec_kind() == old(self).spec_kind(),
    {
        proof {
            lemma_request_type_set(self.0, v.code());
        }
        self.0 = (self.0 & !DIRECTION_MASK) | v.bits();
    }

    /// The request type as a spec value.
    pub closed spec fn of_parts(
        dir: RequestDirection,
        kind: RequestKind,
        recip: RequestRecipient,
    ) -> Self {
        RequestType(request_type_bits(dir, kind, recip))
    }
}

impl From<(RequestDirection, RequestKind, RequestRecipient)> for RequestType {
    fn from(v: (RequestDirection, RequestKind, RequestRecipient)) -> (t: Self)
        ensures
            t == RequestType::of_parts(v.0, v.1, v.2),
            t@ == request_type_bits(v.0, v.1, v.2),
            t.spec_direction() == Some(v.0),
            t.spec_kind() == Some(v.1),
            t.spec_recipient() == Some(v.2),
    {
        proof {
            lemma_request_type_parts(v.0.code(), v.1.code(), v.2.code());
        }
        Self(v.0.bits() | v.1.bits() | v.2.bits())
    }
}

impl vstd::std_specs::convert::FromSpecImpl<(RequestDirection, RequestKind, RequestRecipient)> for RequestType {
    open spec fn obeys_from_spec() -> bool {
        true
    }

    open spec fn from_spec(v: (RequestDirection, RequestKind, RequestRecipient)) -> Self {
        RequestType::of_parts(v.0, v.1, v.2)
    }
}

/// A request type made of a direction, a kind and a recipient gives back each
/// of the three.
pub proof fn lemma_request_type_round_trip(
    dir: RequestDirection,
    kind: RequestKind,
    recip: RequestRecipient,
)
    ensures
        RequestType::of_parts(dir, kind, recip)@ == request_type_bits(dir, kind, recip),
        RequestType::of_parts(dir, kind, recip).spec_direction() == Some(dir),
        RequestType::of_parts(dir, kind, recip).spec_kind() == Some(kind),
        RequestType::of_parts(dir, kind, recip).spec_recipient() == Some(recip),
{
    lemma_request_type_parts(dir.code(), kind.code(), recip.code());
}

/// The field `wValue` of a setup packet: two bytes, the low one first on the
/// wire.
#[derive(Clone, Copy, Debug, PartialEq, Eq, Structural)]
pub struct WValue(u16);

impl View for WValue {
    type V = u16;

    closed spec fn view(&self) -> u16 {
        self.0
    }
}

impl Default for WValue {
    fn default() -> (w: Self)
        ensures
            w@ == 0,
    {
        WValue(0)
    }
}

impl WValue {
    /// The low byte.
    pub open spec fn spec_lo(self) -> u8 {
        field16(self@, 0, 0xff) as u8
    }

    /// The high byte.
    pub open spec fn spec_hi(self) -> u8 {
        field16(self@, 8, 0xff) as u8
    }

    /// The value with the low byte `lo` and the high byte `hi`.
    pub closed spec fn of_lo_hi(lo: u8, hi: u8) -> Self {
        WValue(from_le16(lo, hi))
    }

    /// The value with the low byte `lo` and the high byte `hi`.
    pub fn lo_hi(lo: u8, hi: u8) -> (w: Self)
        ensures
            w == WValue::of_lo_hi(lo, hi),
            w@ == from_le16(lo, hi),
            w.spec_lo() == lo,
            w.spec_hi() == hi,
    {
        proof {
            lemma_from_le16_bytes(lo, hi);
        }
        Self(half_word(lo, hi))
    }

    /// The value as a half word.
    pub fn bits(self) -> (b: u16)
        ensures
            b == self@,
    {
        self.0
    }

    /// The low byte.
    pub fn w_value_lo(self) -> (b: u8)
        ensures
            b == self.spec_lo(),
    {
        lo_byte(self.0)
    }

    /// Sets the low byte and leaves the high byte as it is.
    pub fn set_w_value_lo(&mut self, v: u8)
        ensures
            final(self)@ == with_field16(old(self)@, 0, 0xff, v as u16),
            final(self).spec_lo() == v,
            final(self).spec_hi() == old(self).spec_hi(),
    {
        proof {
            lemma_half_word_set(self.0, v);
        }
        self.0 = (self.0 & !(0xffu16 << 0u16)) | (((v as u16) & 0xffu16) << 0u16);
    }

    /// The high byte.
    pub fn w_value_hi(self) -> (b: u8)
        ensures
            b == self.spec_hi(),
    {
        hi_byte(self.0)
    }

    /// Sets the high byte and leaves the low byte as it is.
    pub fn set_w_value_hi(&mut self, v: u8)
        ensures
            final(self)@ == with_field16(old(self)@, 8, 0xff, v as u16),
            final(self).spec_hi() == v,
            final(self).spec_lo() == old(self).spec_lo(),
    {
        proof {
            lemma_half_word_set(self.0, v);
        }
        self.0 = (self.0 & !(0xffu16 << 8u16)) | (((v as u16) & 0xffu16) << 8u16);
    }
}

/// The standard requests, cf table 9-4 of the USB 2.0 specification.
#[derive(Clone, Copy, Debug, PartialEq, Eq, Structural)]
pub enum RequestCode {
    GetStatus,
    ClearFeature,
    SetFeature,
    SetAddress,
    GetDescriptor,
    SetDescriptor,
    GetConfiguration,
    SetConfiguration,
    GetInterface,
    SetInterface,
    SynchFrame,
}

impl RequestCode {
    /// The number of the request, `bRequest`.
    pub open spec fn code(self) -> u8 {
        match self {
            Self::GetStatus => 0,
            Self::ClearFeature => 1,
            Self::SetFeature => 3,
            Self::SetAddress => 5,
            Self::GetDescriptor => 6,
            Self::SetDescriptor => 7,
            Self::GetConfiguration => 8,
            Self::SetConfiguration => 9,
            Self::GetInterface => 10,
            Self::SetInterface => 11,
            Self::SynchFrame => 12,
        }
    }

    /// The number of the request, `bRequest`.
    pub fn bits(self) -> (b: u8)
        ensures
            b == self.code(),
    {
        match self {
            Self::GetStatus => 0,
            Self::ClearFeature => 1,
            Self::SetFeature => 3,
            Self::SetAddress => 5,
            Self::GetDescriptor => 6,
            Self::SetDescriptor => 7,
            Self::GetConfiguration => 8,
            Self::SetConfiguration => 9,
            Self::GetInterface => 10,
            Self::SetInterface => 11,
            Self::SynchFrame => 12,
        }
    }

    /// The request with the number `v`, if there is one.
    pub fn from_repr(v: u8) -> (r: Option<Self>)
        ensures
            match r {
                Some(c) => c.code() == v,
                None => forall|c: RequestCode| c.code() != v,
            },
    {
        match v {
            0 => Some(Self::GetStatus),
            1 => Some(Self::ClearFeature),
            3 => Some(Self::SetFeature),
            5 => Some(Self::SetAddress),
            6 => Some(Self::GetDescriptor),
            7 => Some(Self::SetDescriptor),
            8 => Some(Self::GetConfiguration),
            9 => Some(Self::SetConfiguration),
            10 => Some(Self::GetInterface),
            11 => Some(Self::SetInterface),
            12 => Some(Self::SynchFrame),
            _ => None,
        }
    }
}

impl Default for RequestCode {
    fn default() -> (c: Self)
        ensures
            c == RequestCode::GetStatus,
    {
        Self::GetStatus
    }
}

/// The number of bytes of a setup packet.
pub const SETUP_PACKET_LEN: usize = 8;

/// The eight bytes that open a control transfer.
#[derive(Copy, Clone, Debug)]
pub struct SetupPacket {
    pub bm_request_type: RequestType,
    pub b_request: RequestCode,
    pub w_value: WValue,
    pub w_index: u16,
    pub w_length: u16,
}

impl SetupPacket {
    /// The packet as it goes on the wire: `bmRequestType` at offset 0,
    /// `bRequest` at 1, then `wValue` at 2, `wIndex` at 4 and `wLength` at 6,
    /// each with its low byte first.
    pub open spec fn wire(self) -> Seq<u8> {
        seq![self.bm_request_type@, self.b_request.code()] + le16(self.w_value@) + le16(
            self.w_index,
        ) + le16(self.w_length)
    }

    /// The packet as it goes on the wire.
    pub fn to_bytes(&self) -> (bytes: [u8; 8])
        ensures
            bytes@ == self.wire(),
            bytes@.len() == SETUP_PACKET_LEN,
            bytes@[0] == self.bm_request_type@,
            bytes@[1] == self.b_request.code(),
            bytes@[2] == self.w_value.spec_lo(),
            bytes@[3] == self.w_value.spec_hi(),
            bytes@.subrange(4, 6) == le16(self.w_index),
            bytes@.subrange(6, 8) == le16(self.w_length),
    {
        let bytes = [
            self.bm_request_type.bits(),
            self.b_request.bits(),
            self.w_value.w_value_lo(),
            self.w_value.w_value_hi(),
            lo_byte(self.w_index),
            hi_byte(self.w_index),
            lo_byte(self.w_length),
            hi_byte(self.w_length),
        ];
        proof {
            lemma_field16_bound(self.w_value@, 0, 0xff);
            lemma_field16_bound(self.w_value@, 8, 0xff);
            assert(bytes@ =~= self.wire());
            assert(bytes@.subrange(4, 6) =~= le16(self.w_index));
            assert(bytes@.subrange(6, 8) =~= le16(self.w_length));
        }
        bytes
    }
}

} // verus!
