//! Packet Size, cf §32.8.7.3.
//!
//! Offset: 0x04 & 0x14
//! Reset: 0xxxxxxxxx
//! Property: NA
use crate::bits::{field32, lemma_field32_bound, with_field32};
use vstd::prelude::*;

verus! {

/// The register as it lies in the descriptor.
#[derive(Clone, Copy, Debug)]
pub struct PckSize(u32);

/// What was read from the register.
pub struct R {
    bits: u32,
}

/// What will be written to the register.
pub struct W {
    bits: u32,
}

impl View for PckSize {
    type V = u32;

    closed spec fn view(&self) -> u32 {
        self.0
    }
}

impl View for R {
    type V = u32;

    closed spec fn view(&self) -> u32 {
        self.bits
    }
}

impl View for W {
    type V = u32;

    closed spec fn view(&self) -> u32 {
        self.bits
    }
}

impl PckSize {
    /// The value of the register.
    pub fn read(self) -> (r: R)
        ensures
            r@ == self@,
    {
        R { bits: self.0 }
    }

    /// Hands `f` the present value and stores what `f` leaves of it.
    pub fn write<F>(&mut self, f: F) where F: FnOnce(&mut W) -> &mut W
        requires
            forall|w: &mut W| w@ == old(self)@ ==> #[trigger] f.requires((w,)),
        ensures
            exists|w: &mut W, out: &mut W|
                w@ == old(self)@ && #[trigger] f.ensures((w,), out) && *final(out) == *out
                    && final(self)@ == final(w)@,
    {
        let mut w = W { bits: self.0 };
        f(&mut w);
        self.0 = w.bits;
    }

    /// As `write`, for an `f` that also reads the present value.
    pub fn modify<F>(&mut self, f: F) where for <'w>F: FnOnce(&R, &'w mut W) -> &'w mut W
        requires
            forall|r: &R, w: &mut W|
                r@ == old(self)@ && w@ == old(self)@ ==> #[trigger] f.requires((r, w)),
        ensures
            exists|r: &R, w: &mut W, out: &mut W|
                r@ == old(self)@ && w@ == old(self)@ && #[trigger] f.ensures((r, w), out)
                    && *final(out) == *out && final(self)@ == final(w)@,
    {
        let r = R { bits: self.0 };
        let mut w = W { bits: self.0 };
        f(&r, &mut w);
        self.0 = w.bits;
    }
}

impl From<u32> for PckSize {
    fn from(v: u32) -> (r: Self)
        ensures
            r@ == v,
    {
        Self(v)
    }
}

impl vstd::std_specs::convert::FromSpecImpl<u32> for PckSize {
    open spec fn obeys_from_spec() -> bool {
        true
    }

    closed spec fn from_spec(v: u32) -> Self {
        PckSize(v)
    }
}

impl R {
    /// Value in raw bits.
    pub fn bits(&self) -> (b: u32)
        ensures
            b == self@,
    {
        self.bits
    }

    /// The field AUTO_ZLP: bit 31.
    pub fn auto_zlp(&self) -> (f: AutoZLPR)
        ensures
            f@ == (field32(self@, 31, 1) == 1),
    {
        AutoZLPR(((self.bits >> 31u32) & 1u32) == 1)
    }

    /// The field SIZE: bits 28 to 30.
    pub fn size(&self) -> (f: SizeR)
        ensures
            f.code() == field32(self@, 28, 0x7),
    {
        proof {
            lemma_field32_bound(self.bits, 28, 0x7);
        }
        SizeR::from_bits(((self.bits >> 28u32) & 0x7u32) as u8)
    }

    /// The field MULTI_PACKET_SIZE: bits 14 to 27.
    pub fn multi_packet_size(&self) -> (f: MultiPacketSizeR)
        ensures
            f@ == field32(self@, 14, 0x3fff),
    {
        proof {
            lemma_field32_bound(self.bits, 14, 0x3fff);
        }
        MultiPacketSizeR((((self.bits >> 14u32) & 0x3fffu32) as u16))
    }

    /// The field BYTE_COUNT: bits 0 to 13.
    pub fn byte_count(&self) -> (f: ByteCountR)
        ensures
            f@ == field32(self@, 0, 0x3fff),
    {
        proof {
            lemma_field32_bound(self.bits, 0, 0x3fff);
        }
        ByteCountR((((self.bits >> 0u32) & 0x3fffu32) as u16))
    }
}

/// Automatic Zero Length Packet
///
/// This bit defines the automatic Zero Length Packet mode of the
/// pipe.
///
/// When enabled, the USB module will manage the ZLP handshake by
/// hardware. This bit is for OUT pipes only. When disabled the
/// handshake should be managed by firmware.
pub struct AutoZLPR(bool);

impl View for AutoZLPR {
    type V = bool;

    closed spec fn view(&self) -> bool {
        self.0
    }
}

impl AutoZLPR {
    pub fn bit(&self) -> (b: bool)
        ensures
            b == self@,
    {
        self.0
    }

    pub fn bit_is_set(&self) -> (b: bool)
        ensures
            b == self@,
    {
        self.bit()
    }

    pub fn bit_is_clear(&self) -> (b: bool)
        ensures
            b == !self@,
    {
        !self.bit()
    }
}

/// Multi Packet IN or OUT size
///
/// These bits define the 14-bit value that is used for multi-packet
/// transfers.
///
/// For IN pipes, MULTI_PACKET_SIZE holds the total number of bytes
/// sent. MULTI_PACKET_SIZE should be written to zero when setting up
/// a new transfer.
///
/// For OUT pipes, MULTI_PACKET_SIZE holds the total data size for the
/// complete transfer. This value must be a multiple of the maximum
/// packet size.
pub struct MultiPacketSizeR(u16);

impl View for MultiPacketSizeR {
    type V = u16;

    closed spec fn view(&self) -> u16 {
        self.0
    }
}

impl MultiPacketSizeR {
    pub fn bits(&self) -> (v: u16)
        ensures
            v == self@,
    {
        self.0
    }
}

/// Byte Count
///
/// These bits define the 14-bit value that contains number of bytes
/// sent in the last OUT or SETUP transaction for an OUT pipe, or of
/// the number of bytes to be received in the next IN transaction for
/// an input pipe.
///
/// The field takes 14 bits from offset 0.
pub struct ByteCountR(u16);

impl View for ByteCountR {
    type V = u16;

    closed spec fn view(&self) -> u16 {
        self.0
    }
}

impl ByteCountR {
    pub fn bits(&self) -> (v: u16)
        ensures
            v == self@,
    {
        self.0
    }
}

impl W {
    /// Write raw bits.
    pub fn bits(&mut self, v: u32) -> (w: &mut Self)
        ensures
            w@ == v,
            *final(w) == *final(self),
    {
        self.bits = v;
        self
    }

    /// The writer of the field AUTO_ZLP.
    pub fn auto_zlp(&mut self) -> (p: AutoZLPW<'_>)
        ensures
            *p.w == *old(self),
            *final(p.w) == *final(self),
    {
        AutoZLPW { w: self }
    }

    /// The writer of the field SIZE.
    pub fn size(&mut self) -> (p: _SizeW<'_>)
        ensures
            *p.w == *old(self),
            *final(p.w) == *final(self),
    {
        _SizeW { w: self }
    }

    /// The writer of the field MULTI_PACKET_SIZE.
    pub fn multi_packet_size(&mut self) -> (p: MultiPacketSizeW<'_>)
        ensures
            *p.w == *old(self),
            *final(p.w) == *final(self),
    {
        MultiPacketSizeW { w: self }
    }

    /// The writer of the field BYTE_COUNT.
    pub fn byte_count(&mut self) -> (p: ByteCountW<'_>)
        ensures
            *p.w == *old(self),
            *final(p.w) == *final(self),
    {
        ByteCountW { w: self }
    }
}

/// Writes the field AUTO_ZLP.
pub struct AutoZLPW<'a> {
    pub w: &'a mut W,
}

impl<'a> AutoZLPW<'a> {
    /// Sets the bit to `v`.
    pub fn bit(self, v: bool) -> (w: &'a mut W)
        ensures
            w@ == with_field32(old(self.w)@, 31, 1, if v { 1u32 } else { 0u32 }),
            *final(w) == *final(self.w),
    {
        let b: u32 = if v {
            1
        } else {
            0
        };
        self.w.bits = (self.w.bits & !(1u32 << 31u32)) | ((b & 1u32) << 31u32);
        self.w
    }

    /// Sets the bit.
    pub fn set_bit(self) -> (w: &'a mut W)
        ensures
            w@ == with_field32(old(self.w)@, 31, 1, 1),
            *final(w) == *final(self.w),
    {
        self.bit(true)
    }

    /// Clears the bit.
    pub fn clear_bit(self) -> (w: &'a mut W)
        ensures
            w@ == with_field32(old(self.w)@, 31, 1, 0),
            *final(w) == *final(self.w),
    {
        self.bit(false)
    }
}

/// Writes the field SIZE.
pub struct _SizeW<'a> {
    pub w: &'a mut W,
}

impl<'a> _SizeW<'a> {
    /// Sets the field to `v`, of which the bits under 0x7 count.
    pub fn bits(self, v: u8) -> (w: &'a mut W)
        ensures
            w@ == with_field32(old(self.w)@, 28, 0x7, v as u32),
            *final(w) == *final(self.w),
    {
        self.w.bits = (self.w.bits & !(0x7u32 << 28u32)) | (((v as u32) & 0x7u32) << 28u32);
        self.w
    }

    /// Sets the field to the code of `v`.
    pub fn variant(self, v: SizeW) -> (w: &'a mut W)
        ensures
            w@ == with_field32(old(self.w)@, 28, 0x7, v.code() as u32),
            *final(w) == *final(self.w),
    {
        self.bits(v.bits())
    }

    /// Sets the size of the pipe to 8 bytes.
    pub fn bytes8(self) -> (w: &'a mut W)
        ensures
            w@ == with_field32(old(self.w)@, 28, 0x7, 0),
            *final(w) == *final(self.w),
    {
        self.variant(SizeW::Bytes8)
    }

    /// Sets the size of the pipe to 16 bytes.
    pub fn bytes16(self) -> (w: &'a mut W)
        ensures
            w@ == with_field32(old(self.w)@, 28, 0x7, 1),
            *final(w) == *final(self.w),
    {
        self.variant(SizeW::Bytes16)
    }

    /// Sets the size of the pipe to 32 bytes.
    pub fn bytes32(self) -> (w: &'a mut W)
        ensures
            w@ == with_field32(old(self.w)@, 28, 0x7, 2),
            *final(w) == *final(self.w),
    {
        self.variant(SizeW::Bytes32)
    }

    /// Sets the size of the pipe to 64 bytes.
    pub fn bytes64(self) -> (w: &'a mut W)
        ensures
            w@ == with_field32(old(self.w)@, 28, 0x7, 3),
            *final(w) == *final(self.w),
    {
        self.variant(SizeW::Bytes64)
    }

    /// Sets the size of the pipe to 128 bytes.
    pub fn bytes128(self) -> (w: &'a mut W)
        ensures
            w@ == with_field32(old(self.w)@, 28, 0x7, 4),
            *final(w) == *final(self.w),
    {
        self.variant(SizeW::Bytes128)
    }

    /// Sets the size of the pipe to 256 bytes.
    pub fn bytes256(self) -> (w: &'a mut W)
        ensures
            w@ == with_field32(old(self.w)@, 28, 0x7, 5),
            *final(w) == *final(self.w),
    {
        self.variant(SizeW::Bytes256)
    }

    /// Sets the size of the pipe to 512 bytes.
    pub fn bytes512(self) -> (w: &'a mut W)
        ensures
            w@ == with_field32(old(self.w)@, 28, 0x7, 6),
            *final(w) == *final(self.w),
    {
        self.variant(SizeW::Bytes512)
    }

    /// Sets the size of the pipe to 1024 bytes.
    pub fn bytes1024(self) -> (w: &'a mut W)
        ensures
            w@ == with_field32(old(self.w)@, 28, 0x7, 7),
            *final(w) == *final(self.w),
    {
        self.variant(SizeW::Bytes1024)
    }
}

/// Writes the field MULTI_PACKET_SIZE.
pub struct MultiPacketSizeW<'a> {
    pub w: &'a mut W,
}

impl<'a> MultiPacketSizeW<'a> {
    /// Sets the field to `v`, of which the bits under 0x3fff count.
    pub fn bits(self, v: u16) -> (w: &'a mut W)
        requires
            v < 16_384,
        ensures
            w@ == with_field32(old(self.w)@, 14, 0x3fff, v as u32),
            *final(w) == *final(self.w),
    {
        self.w.bits = (self.w.bits & !(0x3fffu32 << 14u32)) | (((v as u32) & 0x3fffu32) << 14u32);
        self.w
    }
}

/// Writes the field BYTE_COUNT.
pub struct ByteCountW<'a> {
    pub w: &'a mut W,
}

impl<'a> ByteCountW<'a> {
    /// Sets the field to `v`, of which the bits under 0x3fff count.
    pub fn bits(self, v: u16) -> (w: &'a mut W)
        requires
            v < 16_384,
        ensures
            w@ == with_field32(old(self.w)@, 0, 0x3fff, v as u32),
            *final(w) == *final(self.w),
    {
        self.w.bits = (self.w.bits & !(0x3fffu32 << 0u32)) | (((v as u32) & 0x3fffu32) << 0u32);
        self.w
    }
}

/// Pipe size
///
/// These bits contains the size of the pipe.
///
/// These bits are cleared upon sending a USB reset.
#[derive(Clone, Copy, Debug, PartialEq, Eq, Structural)]
pub enum SizeR {
    Bytes8,
    Bytes16,
    Bytes32,
    Bytes64,
    Bytes128,
    Bytes256,
    Bytes512,
    Bytes1024,
}

impl SizeR {
    /// The three bits that stand for the size.
    pub open spec fn code(self) -> u8 {
        match self {
            Self::Bytes8 => 0,
            Self::Bytes16 => 1,
            Self::Bytes32 => 2,
            Self::Bytes64 => 3,
            Self::Bytes128 => 4,
            Self::Bytes256 => 5,
            Self::Bytes512 => 6,
            Self::Bytes1024 => 7,
        }
    }

    pub fn bits(self) -> (b: u8)
        ensures
            b == self.code(),
    {
        match self {
            Self::Bytes8 => 0x0,
            Self::Bytes16 => 0x1,
            Self::Bytes32 => 0x2,
            Self::Bytes64 => 0x3,
            Self::Bytes128 => 0x4,
            Self::Bytes256 => 0x5,
            Self::Bytes512 => 0x6,
            Self::Bytes1024 => 0x7,
        }
    }

    /// The size that `v` stands for; the field holds 0 to 7 only.
    pub fn from_bits(v: u8) -> (s: Self)
        requires
            v <= 7,
        ensures
            s.code() == v,
    {
        match v {
            0x0 => Self::Bytes8,
            0x1 => Self::Bytes16,
            0x2 => Self::Bytes32,
            0x3 => Self::Bytes64,
            0x4 => Self::Bytes128,
            0x5 => Self::Bytes256,
            0x6 => Self::Bytes512,
            _ => Self::Bytes1024,
        }
    }

    pub fn is_bytes8(self) -> (b: bool)
        ensures
            b == (self == Self::Bytes8),
    {
        self == Self::Bytes8
    }

    pub fn is_bytes16(self) -> (b: bool)
        ensures
            b == (self == Self::Bytes16),
    {
        self == Self::Bytes16
    }

    pub fn is_bytes32(self) -> (b: bool)
        ensures
            b == (self == Self::Bytes32),
    {
        self == Self::Bytes32
    }

    pub fn is_bytes64(self) -> (b: bool)
        ensures
            b == (self == Self::Bytes64),
    {
        self == Self::Bytes64
    }

    pub fn is_bytes128(self) -> (b: bool)
        ensures
            b == (self == Self::Bytes128),
    {
        self == Self::Bytes128
    }

    pub fn is_bytes256(self) -> (b: bool)
        ensures
            b == (self == Self::Bytes256),
    {
        self == Self::Bytes256
    }

    pub fn is_bytes512(self) -> (b: bool)
        ensures
            b == (self == Self::Bytes512),
    {
        self == Self::Bytes512
    }

    pub fn is_bytes1024(self) -> (b: bool)
        ensures
            b == (self == Self::Bytes1024),
    {
        self == Self::Bytes1024
    }
}

#[derive(Copy, Clone, Debug, PartialEq, Eq, Structural)]
pub enum SizeW {
    Bytes8,
    Bytes16,
    Bytes32,
    Bytes64,
    Bytes128,
    Bytes256,
    Bytes512,
    Bytes1024,
}

impl SizeW {
    /// The three bits that stand for the size.
    pub open spec fn code(self) -> u8 {
        match self {
            Self::Bytes8 => 0,
            Self::Bytes16 => 1,
            Self::Bytes32 => 2,
            Self::Bytes64 => 3,
            Self::Bytes128 => 4,
            Self::Bytes256 => 5,
            Self::Bytes512 => 6,
            Self::Bytes1024 => 7,
        }
    }

    /// The number of bytes that the size stands for.
    pub open spec fn bytes(self) -> int {
        match self {
            Self::Bytes8 => 8,
            Self::Bytes16 => 16,
            Self::Bytes32 => 32,
            Self::Bytes64 => 64,
            Self::Bytes128 => 128,
            Self::Bytes256 => 256,
            Self::Bytes512 => 512,
            Self::Bytes1024 => 1024,
        }
    }

    pub fn bits(self) -> (b: u8)
        ensures
            b == self.code(),
    {
        match self {
            Self::Bytes8 => 0,
            Self::Bytes16 => 1,
            Self::Bytes32 => 2,
            Self::Bytes64 => 3,
            Self::Bytes128 => 4,
            Self::Bytes256 => 5,
            Self::Bytes512 => 6,
            Self::Bytes1024 => 7,
        }
    }
}

} // verus!
