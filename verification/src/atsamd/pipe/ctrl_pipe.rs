//! Host Control Pipe.
//!
//! Offset: 0x0c
//! Reset: 0xXXXX
//! Property: PAC Write-Protection, Write-Synchronized, Read-Synchronized
use crate::bits::{field16, lemma_field16_bound, with_field16};
use vstd::prelude::*;

verus! {

/// The register as it lies in the descriptor.
#[derive(Clone, Copy, Debug)]
pub struct CtrlPipe(u16);

/// What was read from the register.
pub struct R {
    bits: u16,
}

/// What will be written to the register.
pub struct W {
    bits: u16,
}

impl View for CtrlPipe {
    type V = u16;

    closed spec fn view(&self) -> u16 {
        self.0
    }
}

impl View for R {
    type V = u16;

    closed spec fn view(&self) -> u16 {
        self.bits
    }
}

impl View for W {
    type V = u16;

    closed spec fn view(&self) -> u16 {
        self.bits
    }
}

impl CtrlPipe {
    /// The value of the register.
    pub fn read(self) -> (r: R)
        ensures
            r@ == self@,
    {
        R { bits: self.0 }
    }

    /// Hands `f` the present value and stores what `f` leaves of it.
    pub fn write<F>(&mut self, f: F) where F: FnOnce(&mut W) -> &mut W
        requires
            forall|w: &mut W| w@ == old(self)@ ==> #[trigger] f.requires((w,)),
        ensures
            exists|w: &mut W, out: &mut W|
                w@ == old(self)@ && #[trigger] f.ensures((w,), out) && *final(out) == *out
                    && final(self)@ == final(w)@,
    {
        let mut w = W { bits: self.0 };
        f(&mut w);
        self.0 = w.bits;
    }

    /// As `write`, for an `f` that also reads the present value.
    pub fn modify<F>(&mut self, f: F) where for <'w>F: FnOnce(&R, &'w mut W) -> &'w mut W
        requires
            forall|r: &R, w: &mut W|
                r@ == old(self)@ && w@ == old(self)@ ==> #[trigger] f.requires((r, w)),
        ensures
            exists|r: &R, w: &mut W, out: &mut W|
                r@ == old(self)@ && w@ == old(self)@ && #[trigger] f.ensures((r, w), out)
                    && *final(out) == *out && final(self)@ == final(w)@,
    {
        let r = R { bits: self.0 };
        let mut w = W { bits: self.0 };
        f(&r, &mut w);
        self.0 = w.bits;
    }
}

impl From<u16> for CtrlPipe {
    fn from(v: u16) -> (r: Self)
        ensures
            r@ == v,
    {
        Self(v)
    }
}

impl vstd::std_specs::convert::FromSpecImpl<u16> for CtrlPipe {
    open spec fn obeys_from_spec() -> bool {
        true
    }

    closed spec fn from_spec(v: u16) -> Self {
        CtrlPipe(v)
    }
}

impl R {
    /// Value in raw bits.
    pub fn bits(&self) -> (b: u16)
        ensures
            b == self@,
    {
        self.bits
    }

    /// The field PERMAX: bits 12 to 15.
    pub fn permax(&self) -> (f: PErMaxR)
        ensures
            f@ == field16(self@, 12, 0xf),
    {
        proof {
            lemma_field16_bound(self.bits, 12, 0xf);
        }
        PErMaxR((((self.bits >> 12u16) & 0xfu16) as u8))
    }

    /// The field PEPNUM: bits 8 to 11.
    pub fn pepnum(&self) -> (f: PEpNumR)
        ensures
            f@ == field16(self@, 8, 0xf),
    {
        proof {
            lemma_field16_bound(self.bits, 8, 0xf);
        }
        PEpNumR((((self.bits >> 8u16) & 0xfu16) as u8))
    }

    /// The field PDADDR: bits 0 to 6.
    pub fn pdaddr(&self) -> (f: PDAddrR)
        ensures
            f@ == field16(self@, 0, 0x7f),
    {
        proof {
            lemma_field16_bound(self.bits, 0, 0x7f);
        }
        PDAddrR((((self.bits >> 0u16) & 0x7fu16) as u8))
    }
}

/// Pipe Error Max Number
///
/// These bits define the maximum number of error for this Pipe before
/// freezing the pipe automatically.
pub struct PErMaxR(u8);

impl View for PErMaxR {
    type V = u8;

    closed spec fn view(&self) -> u8 {
        self.0
    }
}

impl PErMaxR {
    pub fn max(&self) -> (v: u8)
        ensures
            v == self@,
    {
        self.0
    }
}

/// Pipe EndPoint Number
///
/// These bits define the number of endpoint for this Pipe.
pub struct PEpNumR(u8);

impl View for PEpNumR {
    type V = u8;

    closed spec fn view(&self) -> u8 {
        self.0
    }
}

impl PEpNumR {
    pub fn epnum(&self) -> (v: u8)
        ensures
            v == self@,
    {
        self.0
    }
}

/// Pipe Device Address
///
/// These bits define the Device Address for this pipe.
pub struct PDAddrR(u8);

impl View for PDAddrR {
    type V = u8;

    closed spec fn view(&self) -> u8 {
        self.0
    }
}

impl PDAddrR {
    pub fn addr(&self) -> (v: u8)
        ensures
            v == self@,
    {
        self.0
    }
}

impl W {
    /// Write raw bits.
    pub fn bits(&mut self, v: u16) -> (w: &mut Self)
        ensures
            w@ == v,
            *final(w) == *final(self),
    {
        self.bits = v;
        self
    }

    /// The writer of the field PERMAX.
    pub fn permax(&mut self) -> (p: PErMaxW<'_>)
        ensures
            *p.w == *old(self),
            *final(p.w) == *final(self),
    {
        PErMaxW { w: self }
    }

    /// The writer of the field PEPNUM.
    pub fn pepnum(&mut self) -> (p: PEpNumW<'_>)
        ensures
            *p.w == *old(self),
            *final(p.w) == *final(self),
    {
        PEpNumW { w: self }
    }

    /// The writer of the field PDADDR.
    pub fn pdaddr(&mut self) -> (p: PDAddrW<'_>)
        ensures
            *p.w == *old(self),
            *final(p.w) == *final(self),
    {
        PDAddrW { w: self }
    }
}

/// Writes the field PERMAX.
pub struct PErMaxW<'a> {
    pub w: &'a mut W,
}

impl<'a> PErMaxW<'a> {
    /// Sets the field to `v`, of which the bits under 0xf count.
    pub fn bits(self, v: u8) -> (w: &'a mut W)
        ensures
            w@ == with_field16(old(self.w)@, 12, 0xf, v as u16),
            *final(w) == *final(self.w),
    {
        self.w.bits = (self.w.bits & !(0xfu16 << 12u16)) | (((v as u16) & 0xfu16) << 12u16);
        self.w
    }

    /// Sets the field to `v`, of which the bits under 0xf count.
    pub fn set_max(self, v: u8) -> (w: &'a mut W)
        ensures
            w@ == with_field16(old(self.w)@, 12, 0xf, v as u16),
            *final(w) == *final(self.w),
    {
        self.bits(v)
    }
}

/// Writes the field PEPNUM.
pub struct PEpNumW<'a> {
    pub w: &'a mut W,
}

impl<'a> PEpNumW<'a> {
    /// Sets the field to `v`, of which the bits under 0xf count.
    pub fn bits(self, v: u8) -> (w: &'a mut W)
        ensures
            w@ == with_field16(old(self.w)@, 8, 0xf, v as u16),
            *final(w) == *final(self.w),
    {
        self.w.bits = (self.w.bits & !(0xfu16 << 8u16)) | (((v as u16) & 0xfu16) << 8u16);
        self.w
    }

    /// Sets the field to `v`, of which the bits under 0xf count.
    pub fn set_epnum(self, v: u8) -> (w: &'a mut W)
        ensures
            w@ == with_field16(old(self.w)@, 8, 0xf, v as u16),
            *final(w) == *final(self.w),
    {
        self.bits(v)
    }
}

/// Writes the field PDADDR.
pub struct PDAddrW<'a> {
    pub w: &'a mut W,
}

impl<'a> PDAddrW<'a> {
    /// Sets the field to `v`, of which the bits under 0x7f count.
    pub fn bits(self, v: u8) -> (w: &'a mut W)
        ensures
            w@ == with_field16(old(self.w)@, 0, 0x7f, v as u16),
            *final(w) == *final(self.w),
    {
        self.w.bits = (self.w.bits & !(0x7fu16 << 0u16)) | (((v as u16) & 0x7fu16) << 0u16);
        self.w
    }

    /// Sets the field to `v`, of which the bits under 0x7f count.
    pub fn set_addr(self, v: u8) -> (w: &'a mut W)
        ensures
            w@ == with_field16(old(self.w)@, 0, 0x7f, v as u16),
            *final(w) == *final(self.w),
    {
        self.bits(v)
    }
}

} // verus!
