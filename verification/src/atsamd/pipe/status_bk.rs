//! Host Status Bank, cf §32.8.7.5.
//!
//! Offset: 0x0a & 0x1a
//! Reset: 0xxxxxxx
//! Property: NA
use crate::bits::{field8, with_field8};
use vstd::prelude::*;

verus! {

/// The register as it lies in the descriptor.
#[derive(Clone, Copy, Debug)]
pub struct StatusBk(u8);

/// What was read from the register.
pub struct R {
    bits: u8,
}

/// What will be written to the register.
pub struct W {
    bits: u8,
}

impl View for StatusBk {
    type V = u8;

    closed spec fn view(&self) -> u8 {
        self.0
    }
}

impl View for R {
    type V = u8;

    closed spec fn view(&self) -> u8 {
        self.bits
    }
}

impl View for W {
    type V = u8;

    closed spec fn view(&self) -> u8 {
        self.bits
    }
}

impl StatusBk {
    /// The value of the register.
    pub fn read(self) -> (r: R)
        ensures
            r@ == self@,
    {
        R { bits: self.0 }
    }

    /// Hands `f` the present value and stores what `f` leaves of it.
    pub fn write<F>(&mut self, f: F) where F: FnOnce(&mut W) -> &mut W
        requires
            forall|w: &mut W| w@ == old(self)@ ==> #[trigger] f.requires((w,)),
        ensures
            exists|w: &mut W, out: &mut W|
                w@ == old(self)@ && #[trigger] f.ensures((w,), out) && *final(out) == *out
                    && final(self)@ == final(w)@,
    {
        let mut w = W { bits: self.0 };
        f(&mut w);
        self.0 = w.bits;
    }
}

impl From<u8> for StatusBk {
    fn from(v: u8) -> (r: Self)
        ensures
            r@ == v,
    {
        Self(v)
    }
}

impl vstd::std_specs::convert::FromSpecImpl<u8> for StatusBk {
    open spec fn obeys_from_spec() -> bool {
        true
    }

    closed spec fn from_spec(v: u8) -> Self {
        StatusBk(v)
    }
}

impl R {
    /// Value in raw bits.
    pub fn bits(&self) -> (b: u8)
        ensures
            b == self@,
    {
        self.bits
    }

    /// The field ERRORFLOW: bit 1.
    pub fn errorflow(&self) -> (f: ErrorFlowR)
        ensures
            f@ == (field8(self@, 1, 1) == 1),
    {
        ErrorFlowR(((self.bits >> 1u8) & 1u8) == 1)
    }

    /// The field CRCERR: bit 0.
    pub fn crcerr(&self) -> (f: CRCErrR)
        ensures
            f@ == (field8(self@, 0, 1) == 1),
    {
        CRCErrR(((self.bits >> 0u8) & 1u8) == 1)
    }
}

/// Error Flow Status
///
/// This bit defines the Error Flow Status.
///
/// This bit is set when a Error Flow has been detected during
/// transfer from/towards this bank.
///
/// For IN transfer, a NAK handshake has been received. For OUT
/// transfer, a NAK handshake has been received. For Isochronous IN
/// transfer, an overrun condition has occurred. For Isochronous OUT
/// transfer, an underflow condition has occurred.
pub struct ErrorFlowR(bool);

impl View for ErrorFlowR {
    type V = bool;

    closed spec fn view(&self) -> bool {
        self.0
    }
}

impl ErrorFlowR {
    pub fn bit(&self) -> (b: bool)
        ensures
            b == self@,
    {
        self.0
    }

    pub fn bit_is_set(&self) -> (b: bool)
        ensures
            b == self@,
    {
        self.bit()
    }

    pub fn bit_is_clear(&self) -> (b: bool)
        ensures
            b == !self@,
    {
        !self.bit()
    }
}

/// CRC Error
///
/// This bit defines the CRC Error Status.
///
/// This bit is set when a CRC error has been detected in an
/// isochronous IN endpoint bank.
pub struct CRCErrR(bool);

impl View for CRCErrR {
    type V = bool;

    closed spec fn view(&self) -> bool {
        self.0
    }
}

impl CRCErrR {
    pub fn bit(&self) -> (b: bool)
        ensures
            b == self@,
    {
        self.0
    }

    pub fn bit_is_set(&self) -> (b: bool)
        ensures
            b == self@,
    {
        self.bit()
    }

    pub fn bit_is_clear(&self) -> (b: bool)
        ensures
            b == !self@,
    {
        !self.bit()
    }
}

impl W {
    /// Write raw bits.
    pub fn bits(&mut self, v: u8) -> (w: &mut Self)
        ensures
            w@ == v,
            *final(w) == *final(self),
    {
        self.bits = v;
        self
    }

    /// The writer of the field ERRORFLOW.
    pub fn errorflow(&mut self) -> (p: ErrorFlowW<'_>)
        ensures
            *p.w == *old(self),
            *final(p.w) == *final(self),
    {
        ErrorFlowW { w: self }
    }

    /// The writer of the field CRCERR.
    pub fn crcerr(&mut self) -> (p: CRCErrW<'_>)
        ensures
            *p.w == *old(self),
            *final(p.w) == *final(self),
    {
        CRCErrW { w: self }
    }
}

/// Writes the field ERRORFLOW.
pub struct ErrorFlowW<'a> {
    pub w: &'a mut W,
}

impl<'a> ErrorFlowW<'a> {
    /// Sets the bit to `v`.
    pub fn bit(self, v: bool) -> (w: &'a mut W)
        ensures
            w@ == with_field8(old(self.w)@, 1, 1, if v { 1u8 } else { 0u8 }),
            *final(w) == *final(self.w),
    {
        let b: u8 = if v {
            1
        } else {
            0
        };
        self.w.bits = (self.w.bits & !(1u8 << 1u8)) | ((b & 1u8) << 1u8);
        self.w
    }

    /// Sets the bit.
    pub fn set_bit(self) -> (w: &'a mut W)
        ensures
            w@ == with_field8(old(self.w)@, 1, 1, 1),
            *final(w) == *final(self.w),
    {
        self.bit(true)
    }

    /// Clears the bit.
    pub fn clear_bit(self) -> (w: &'a mut W)
        ensures
            w@ == with_field8(old(self.w)@, 1, 1, 0),
            *final(w) == *final(self.w),
    {
        self.bit(false)
    }
}

/// Writes the field CRCERR.
pub struct CRCErrW<'a> {
    pub w: &'a mut W,
}

impl<'a> CRCErrW<'a> {
    /// Sets the bit to `v`.
    pub fn bit(self, v: bool) -> (w: &'a mut W)
        ensures
            w@ == with_field8(old(self.w)@, 0, 1, if v { 1u8 } else { 0u8 }),
            *final(w) == *final(self.w),
    {
        let b: u8 = if v {
            1
        } else {
            0
        };
        self.w.bits = (self.w.bits & !(1u8 << 0u8)) | ((b & 1u8) << 0u8);
        self.w
    }

    /// Sets the bit.
    pub fn set_bit(self) -> (w: &'a mut W)
        ensures
            w@ == with_field8(old(self.w)@, 0, 1, 1),
            *final(w) == *final(self.w),
    {
        self.bit(true)
    }

    /// Clears the bit.
    pub fn clear_bit(self) -> (w: &'a mut W)
        ensures
            w@ == with_field8(old(self.w)@, 0, 1, 0),
            *final(w) == *final(self.w),
    {
        self.bit(false)
    }
}

} // verus!
