//! Host Status Pipe.
//!
//! Offset: 0x0e & 0x1e
//! Reset: 0xxxxxx
//! Property: PAC Write-Protection, Write-Synchronized, Read-Synchronized
use crate::bits::{field8, lemma_field8_bound, with_field8};
use vstd::prelude::*;

verus! {

/// The register as it lies in the descriptor.
#[derive(Clone, Copy, Debug)]
pub struct StatusPipe(u8);

/// What was read from the register.
pub struct R {
    bits: u8,
}

/// What will be written to the register.
pub struct W {
    bits: u8,
}

impl View for StatusPipe {
    type V = u8;

    closed spec fn view(&self) -> u8 {
        self.0
    }
}

impl View for R {
    type V = u8;

    closed spec fn view(&self) -> u8 {
        self.bits
    }
}

impl View for W {
    type V = u8;

    closed spec fn view(&self) -> u8 {
        self.bits
    }
}

impl StatusPipe {
    /// The value of the register.
    pub fn read(self) -> (r: R)
        ensures
            r@ == self@,
    {
        R { bits: self.0 }
    }

    /// Hands `f` the present value and stores what `f` leaves of it.
    pub fn write<F>(&mut self, f: F) where F: FnOnce(&mut W) -> &mut W
        requires
            forall|w: &mut W| w@ == old(self)@ ==> #[trigger] f.requires((w,)),
        ensures
            exists|w: &mut W, out: &mut W|
                w@ == old(self)@ && #[trigger] f.ensures((w,), out) && *final(out) == *out
                    && final(self)@ == final(w)@,
    {
        let mut w = W { bits: self.0 };
        f(&mut w);
        self.0 = w.bits;
    }
}

impl From<u8> for StatusPipe {
    fn from(v: u8) -> (r: Self)
        ensures
            r@ == v,
    {
        Self(v)
    }
}

impl vstd::std_specs::convert::FromSpecImpl<u8> for StatusPipe {
    open spec fn obeys_from_spec() -> bool {
        true
    }

    closed spec fn from_spec(v: u8) -> Self {
        StatusPipe(v)
    }
}

impl R {
    /// Value in raw bits.
    pub fn bits(&self) -> (b: u8)
        ensures
            b == self@,
    {
        self.bits
    }

    /// The field ERCNT: bits 5 to 7.
    pub fn ercnt(&self) -> (f: ErCntR)
        ensures
            f@ == field8(self@, 5, 0x7),
    {
        proof {
            lemma_field8_bound(self.bits, 5, 0x7);
        }
        ErCntR((self.bits >> 5u8) & 0x7u8)
    }

    /// The field CRC16ER: bit 4.
    pub fn crc16er(&self) -> (f: CRC16ErR)
        ensures
            f@ == (field8(self@, 4, 1) == 1),
    {
        CRC16ErR(((self.bits >> 4u8) & 1u8) == 1)
    }

    /// The field TOUTER: bit 3.
    pub fn touter(&self) -> (f: TOutErrR)
        ensures
            f@ == (field8(self@, 3, 1) == 1),
    {
        TOutErrR(((self.bits >> 3u8) & 1u8) == 1)
    }

    /// The field PIDER: bit 2.
    pub fn pider(&self) -> (f: PIDErR)
        ensures
            f@ == (field8(self@, 2, 1) == 1),
    {
        PIDErR(((self.bits >> 2u8) & 1u8) == 1)
    }

    /// The field DAPIDER: bit 1.
    pub fn dapider(&self) -> (f: DaPIDErR)
        ensures
            f@ == (field8(self@, 1, 1) == 1),
    {
        DaPIDErR(((self.bits >> 1u8) & 1u8) == 1)
    }

    /// The field DTGLER: bit 0.
    pub fn dtgler(&self) -> (f: DTglErR)
        ensures
            f@ == (field8(self@, 0, 1) == 1),
    {
        DTglErR(((self.bits >> 0u8) & 1u8) == 1)
    }
}

/// Pipe Error Counter
///
/// The number of errors detected on the pipe.
pub struct ErCntR(u8);

impl View for ErCntR {
    type V = u8;

    closed spec fn view(&self) -> u8 {
        self.0
    }
}

impl ErCntR {
    pub fn bits(&self) -> (v: u8)
        ensures
            v == self@,
    {
        self.0
    }
}

/// CRC16 ERROR
///
/// This bit defines the CRC16 Error Status.
///
/// This bit is set when a CRC 16 error has been detected during a IN
/// transactions.
pub struct CRC16ErR(bool);

impl View for CRC16ErR {
    type V = bool;

    closed spec fn view(&self) -> bool {
        self.0
    }
}

impl CRC16ErR {
    pub fn bit(&self) -> (b: bool)
        ensures
            b == self@,
    {
        self.0
    }

    pub fn bit_is_set(&self) -> (b: bool)
        ensures
            b == self@,
    {
        self.bit()
    }

    pub fn bit_is_clear(&self) -> (b: bool)
        ensures
            b == !self@,
    {
        !self.bit()
    }
}

/// TIME OUT ERROR
///
/// This bit defines the Time Out Error Status.
///
/// This bit is set when a Time Out error has been detected during a
/// USB transaction.
pub struct TOutErrR(bool);

impl View for TOutErrR {
    type V = bool;

    closed spec fn view(&self) -> bool {
        self.0
    }
}

impl TOutErrR {
    pub fn bit(&self) -> (b: bool)
        ensures
            b == self@,
    {
        self.0
    }

    pub fn bit_is_set(&self) -> (b: bool)
        ensures
            b == self@,
    {
        self.bit()
    }

    pub fn bit_is_clear(&self) -> (b: bool)
        ensures
            b == !self@,
    {
        !self.bit()
    }
}

/// PID ERROR
///
/// This bit defines the PID Error Status.
///
/// This bit is set when a PID error has been detected during a USB
/// transaction.
pub struct PIDErR(bool);

impl View for PIDErR {
    type V = bool;

    closed spec fn view(&self) -> bool {
        self.0
    }
}

impl PIDErR {
    pub fn bit(&self) -> (b: bool)
        ensures
            b == self@,
    {
        self.0
    }

    pub fn bit_is_set(&self) -> (b: bool)
        ensures
            b == self@,
    {
        self.bit()
    }

    pub fn bit_is_clear(&self) -> (b: bool)
        ensures
            b == !self@,
    {
        !self.bit()
    }
}

/// Data PID ERROR
///
/// This bit defines the PID Error Status.
///
/// This bit is set when a Data PID error has been detected during a
/// USB transaction.
pub struct DaPIDErR(bool);

impl View for DaPIDErR {
    type V = bool;

    closed spec fn view(&self) -> bool {
        self.0
    }
}

impl DaPIDErR {
    pub fn bit(&self) -> (b: bool)
        ensures
            b == self@,
    {
        self.0
    }

    pub fn bit_is_set(&self) -> (b: bool)
        ensures
            b == self@,
    {
        self.bit()
    }

    pub fn bit_is_clear(&self) -> (b: bool)
        ensures
            b == !self@,
    {
        !self.bit()
    }
}

/// Data Toggle Error
///
/// This bit defines the Data Toggle Error Status.
///
/// This bit is set when a Data Toggle Error has been detected.
pub struct DTglErR(bool);

impl View for DTglErR {
    type V = bool;

    closed spec fn view(&self) -> bool {
        self.0
    }
}

impl DTglErR {
    pub fn bit(&self) -> (b: bool)
        ensures
            b == self@,
    {
        self.0
    }

    pub fn bit_is_set(&self) -> (b: bool)
        ensures
            b == self@,
    {
        self.bit()
    }

    pub fn bit_is_clear(&self) -> (b: bool)
        ensures
            b == !self@,
    {
        !self.bit()
    }
}

impl W {
    /// Write raw bits.
    pub fn bits(&mut self, v: u8) -> (w: &mut Self)
        ensures
            w@ == v,
            *final(w) == *final(self),
    {
        self.bits = v;
        self
    }

    /// The writer of the field ERCNT.
    pub fn ercnt(&mut self) -> (p: ErCntW<'_>)
        ensures
            *p.w == *old(self),
            *final(p.w) == *final(self),
    {
        ErCntW { w: self }
    }

    /// The writer of the field CRC16ER.
    pub fn crc16er(&mut self) -> (p: CRC16ErW<'_>)
        ensures
            *p.w == *old(self),
            *final(p.w) == *final(self),
    {
        CRC16ErW { w: self }
    }

    /// The writer of the field TOUTER.
    pub fn touter(&mut self) -> (p: TOutErW<'_>)
        ensures
            *p.w == *old(self),
            *final(p.w) == *final(self),
    {
        TOutErW { w: self }
    }

    /// The writer of the field PIDER.
    pub fn pider(&mut self) -> (p: PIDErW<'_>)
        ensures
            *p.w == *old(self),
            *final(p.w) == *final(self),
    {
        PIDErW { w: self }
    }

    /// The writer of the field DAPIDER.
    pub fn dapider(&mut self) -> (p: DaPIDErW<'_>)
        ensures
            *p.w == *old(self),
            *final(p.w) == *final(self),
    {
        DaPIDErW { w: self }
    }

    /// The writer of the field DTGLER.
    pub fn dtgler(&mut self) -> (p: DTglErW<'_>)
        ensures
            *p.w == *old(self),
            *final(p.w) == *final(self),
    {
        DTglErW { w: self }
    }
}

/// Writes the field ERCNT.
pub struct ErCntW<'a> {
    pub w: &'a mut W,
}

impl<'a> ErCntW<'a> {
    /// Sets the field to `v`, of which the bits under 0x7 count.
    pub fn bits(self, v: u8) -> (w: &'a mut W)
        ensures
            w@ == with_field8(old(self.w)@, 5, 0x7, v),
            *final(w) == *final(self.w),
    {
        self.w.bits = (self.w.bits & !(0x7u8 << 5u8)) | ((v & 0x7u8) << 5u8);
        self.w
    }

    /// Sets the field to `v`, of which the bits under 0x7 count.
    pub fn set_count(self, v: u8) -> (w: &'a mut W)
        ensures
            w@ == with_field8(old(self.w)@, 5, 0x7, v),
            *final(w) == *final(self.w),
    {
        self.bits(v)
    }
}

/// Writes the field CRC16ER.
pub struct CRC16ErW<'a> {
    pub w: &'a mut W,
}

impl<'a> CRC16ErW<'a> {
    /// Sets the bit to `v`.
    pub fn bit(self, v: bool) -> (w: &'a mut W)
        ensures
            w@ == with_field8(old(self.w)@, 4, 1, if v { 1u8 } else { 0u8 }),
            *final(w) == *final(self.w),
    {
        let b: u8 = if v {
            1
        } else {
            0
        };
        self.w.bits = (self.w.bits & !(1u8 << 4u8)) | ((b & 1u8) << 4u8);
        self.w
    }

    /// Sets the bit.
    pub fn set_bit(self) -> (w: &'a mut W)
        ensures
            w@ == with_field8(old(self.w)@, 4, 1, 1),
            *final(w) == *final(self.w),
    {
        self.bit(true)
    }

    /// Clears the bit.
    pub fn clear_bit(self) -> (w: &'a mut W)
        ensures
            w@ == with_field8(old(self.w)@, 4, 1, 0),
            *final(w) == *final(self.w),
    {
        self.bit(false)
    }
}

/// Writes the field TOUTER.
pub struct TOutErW<'a> {
    pub w: &'a mut W,
}

impl<'a> TOutErW<'a> {
    /// Sets the bit to `v`.
    pub fn bit(self, v: bool) -> (w: &'a mut W)
        ensures
            w@ == with_field8(old(self.w)@, 3, 1, if v { 1u8 } else { 0u8 }),
            *final(w) == *final(self.w),
    {
        let b: u8 = if v {
            1
        } else {
            0
        };
        self.w.bits = (self.w.bits & !(1u8 << 3u8)) | ((b & 1u8) << 3u8);
        self.w
    }

    /// Sets the bit.
    pub fn set_bit(self) -> (w: &'a mut W)
        ensures
            w@ == with_field8(old(self.w)@, 3, 1, 1),
            *final(w) == *final(self.w),
    {
        self.bit(true)
    }

    /// Clears the bit.
    pub fn clear_bit(self) -> (w: &'a mut W)
        ensures
            w@ == with_field8(old(self.w)@, 3, 1, 0),
            *final(w) == *final(self.w),
    {
        self.bit(false)
    }
}

/// Writes the field PIDER.
pub struct PIDErW<'a> {
    pub w: &'a mut W,
}

impl<'a> PIDErW<'a> {
    /// Sets the bit to `v`.
    pub fn bit(self, v: bool) -> (w: &'a mut W)
        ensures
            w@ == with_field8(old(self.w)@, 2, 1, if v { 1u8 } else { 0u8 }),
            *final(w) == *final(self.w),
    {
        let b: u8 = if v {
            1
        } else {
            0
        };
        self.w.bits = (self.w.bits & !(1u8 << 2u8)) | ((b & 1u8) << 2u8);
        self.w
    }

    /// Sets the bit.
    pub fn set_bit(self) -> (w: &'a mut W)
        ensures
            w@ == with_field8(old(self.w)@, 2, 1, 1),
            *final(w) == *final(self.w),
    {
        self.bit(true)
    }

    /// Clears the bit.
    pub fn clear_bit(self) -> (w: &'a mut W)
        ensures
            w@ == with_field8(old(self.w)@, 2, 1, 0),
            *final(w) == *final(self.w),
    {
        self.bit(false)
    }
}

/// Writes the field DAPIDER.
pub struct DaPIDErW<'a> {
    pub w: &'a mut W,
}

impl<'a> DaPIDErW<'a> {
    /// Sets the bit to `v`.
    pub fn bit(self, v: bool) -> (w: &'a mut W)
        ensures
            w@ == with_field8(old(self.w)@, 1, 1, if v { 1u8 } else { 0u8 }),
            *final(w) == *final(self.w),
    {
        let b: u8 = if v {
            1
        } else {
            0
        };
        self.w.bits = (self.w.bits & !(1u8 << 1u8)) | ((b & 1u8) << 1u8);
        self.w
    }

    /// Sets the bit.
    pub fn set_bit(self) -> (w: &'a mut W)
        ensures
            w@ == with_field8(old(self.w)@, 1, 1, 1),
            *final(w) == *final(self.w),
    {
        self.bit(true)
    }

    /// Clears the bit.
    pub fn clear_bit(self) -> (w: &'a mut W)
        ensures
            w@ == with_field8(old(self.w)@, 1, 1, 0),
            *final(w) == *final(self.w),
    {
        self.bit(false)
    }
}

/// Writes the field DTGLER.
pub struct DTglErW<'a> {
    pub w: &'a mut W,
}

impl<'a> DTglErW<'a> {
    /// Sets the bit to `v`.
    pub fn bit(self, v: bool) -> (w: &'a mut W)
        ensures
            w@ == with_field8(old(self.w)@, 0, 1, if v { 1u8 } else { 0u8 }),
            *final(w) == *final(self.w),
    {
        let b: u8 = if v {
            1
        } else {
            0
        };
        self.w.bits = (self.w.bits & !(1u8 << 0u8)) | ((b & 1u8) << 0u8);
        self.w
    }

    /// Sets the bit.
    pub fn set_bit(self) -> (w: &'a mut W)
        ensures
            w@ == with_field8(old(self.w)@, 0, 1, 1),
            *final(w) == *final(self.w),
    {
        self.bit(true)
    }

    /// Clears the bit.
    pub fn clear_bit(self) -> (w: &'a mut W)
        ensures
            w@ == with_field8(old(self.w)@, 0, 1, 0),
            *final(w) == *final(self.w),
    {
        self.bit(false)
    }
}

} // verus!
