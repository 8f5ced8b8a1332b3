//! Extended Register, cf §32.8.7.4.
//!
//! Offset: 0x08
//! Reset: 0xxxxxxxx
//! Property: NA
use crate::bits::{field16, lemma_field16_bound, with_field16};
use vstd::prelude::*;

verus! {

/// The register as it lies in the descriptor.
#[derive(Clone, Copy, Debug)]
pub struct ExtReg(u16);

/// What was read from the register.
pub struct R {
    bits: u16,
}

/// What will be written to the register.
pub struct W {
    bits: u16,
}

impl View for ExtReg {
    type V = u16;

    closed spec fn view(&self) -> u16 {
        self.0
    }
}

impl View for R {
    type V = u16;

    closed spec fn view(&self) -> u16 {
        self.bits
    }
}

impl View for W {
    type V = u16;

    closed spec fn view(&self) -> u16 {
        self.bits
    }
}

impl ExtReg {
    /// The value of the register.
    pub fn read(self) -> (r: R)
        ensures
            r@ == self@,
    {
        R { bits: self.0 }
    }

    /// Hands `f` the present value and stores what `f` leaves of it.
    pub fn write<F>(&mut self, f: F) where F: FnOnce(&mut W) -> &mut W
        requires
            forall|w: &mut W| w@ == old(self)@ ==> #[trigger] f.requires((w,)),
        ensures
            exists|w: &mut W, out: &mut W|
                w@ == old(self)@ && #[trigger] f.ensures((w,), out) && *final(out) == *out
                    && final(self)@ == final(w)@,
    {
        let mut w = W { bits: self.0 };
        f(&mut w);
        self.0 = w.bits;
    }
}

impl From<u16> for ExtReg {
    fn from(v: u16) -> (r: Self)
        ensures
            r@ == v,
    {
        Self(v)
    }
}

impl vstd::std_specs::convert::FromSpecImpl<u16> for ExtReg {
    open spec fn obeys_from_spec() -> bool {
        true
    }

    closed spec fn from_spec(v: u16) -> Self {
        ExtReg(v)
    }
}

impl R {
    /// Value in raw bits.
    pub fn bits(&self) -> (b: u16)
        ensures
            b == self@,
    {
        self.bits
    }

    /// The field VARIABLE: bits 4 to 14.
    pub fn variable(&self) -> (f: VariableR)
        ensures
            f@ == field16(self@, 4, 0x7ff),
    {
        proof {
            lemma_field16_bound(self.bits, 4, 0x7ff);
        }
        VariableR((self.bits >> 4u16) & 0x7ffu16)
    }

    /// The field SUBPID: bits 0 to 3.
    pub fn subpid(&self) -> (f: SubPIDR)
        ensures
            f@ == field16(self@, 0, 0xf),
    {
        proof {
            lemma_field16_bound(self.bits, 0, 0xf);
        }
        SubPIDR((((self.bits >> 0u16) & 0xfu16) as u8))
    }
}

/// Variable field send with extended token
///
/// These bits define the VARIABLE field sent with extended token, cf
/// section 2.1.1 of the USB 2.0 Link Power Management addendum:
/// bLinkState in bits 0 to 3, BESL in bits 4 to 7, bRemoteWake in bit 8.
pub struct VariableR(u16);

impl View for VariableR {
    type V = u16;

    closed spec fn view(&self) -> u16 {
        self.0
    }
}

impl VariableR {
    pub fn bits(&self) -> (v: u16)
        ensures
            v == self@,
    {
        self.0
    }
}

/// SUBPID field with extended token
///
/// These bits define the SUBPID field sent with extended token, cf
/// table 2.2 of the USB 2.0 Link Power Management addendum.
pub struct SubPIDR(u8);

impl View for SubPIDR {
    type V = u8;

    closed spec fn view(&self) -> u8 {
        self.0
    }
}

impl SubPIDR {
    pub fn bits(&self) -> (v: u8)
        ensures
            v == self@,
    {
        self.0
    }
}

impl W {
    /// Write raw bits.
    pub fn bits(&mut self, v: u16) -> (w: &mut Self)
        ensures
            w@ == v,
            *final(w) == *final(self),
    {
        self.bits = v;
        self
    }

    /// The writer of the field VARIABLE.
    pub fn variable(&mut self) -> (p: VariableW<'_>)
        ensures
            *p.w == *old(self),
            *final(p.w) == *final(self),
    {
        VariableW { w: self }
    }

    /// The writer of the field SUBPID.
    pub fn subpid(&mut self) -> (p: SubPIDW<'_>)
        ensures
            *p.w == *old(self),
            *final(p.w) == *final(self),
    {
        SubPIDW { w: self }
    }
}

/// Writes the field VARIABLE.
pub struct VariableW<'a> {
    pub w: &'a mut W,
}

impl<'a> VariableW<'a> {
    /// Sets the field to `v`, of which the bits under 0x7ff count.
    pub fn bits(self, v: u16) -> (w: &'a mut W)
        ensures
            w@ == with_field16(old(self.w)@, 4, 0x7ff, v),
            *final(w) == *final(self.w),
    {
        self.w.bits = (self.w.bits & !(0x7ffu16 << 4u16)) | ((v & 0x7ffu16) << 4u16);
        self.w
    }
}

/// Writes the field SUBPID.
pub struct SubPIDW<'a> {
    pub w: &'a mut W,
}

impl<'a> SubPIDW<'a> {
    /// Sets the field to `v`, of which the bits under 0xf count.
    pub fn bits(self, v: u16) -> (w: &'a mut W)
        ensures
            w@ == with_field16(old(self.w)@, 0, 0xf, v),
            *final(w) == *final(self.w),
    {
        self.w.bits = (self.w.bits & !(0xfu16 << 0u16)) | ((v & 0xfu16) << 0u16);
        self.w
    }
}

} // verus!
