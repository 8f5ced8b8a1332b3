//! Address of the Data Buffer, cf §32.8.7.2.
//!
//! Offset: 0x00 & 0x10
//! Reset: 0xxxxxxxxx
//! Property: NA
use vstd::prelude::*;

verus! {

/// The register as it lies in the descriptor.
#[derive(Clone, Copy, Debug)]
pub struct Addr(u32);

/// What was read from the register.
pub struct R {
    bits: u32,
}

/// What will be written to the register.
pub struct W {
    bits: u32,
}

impl View for Addr {
    type V = u32;

    closed spec fn view(&self) -> u32 {
        self.0
    }
}

impl View for R {
    type V = u32;

    closed spec fn view(&self) -> u32 {
        self.bits
    }
}

impl View for W {
    type V = u32;

    closed spec fn view(&self) -> u32 {
        self.bits
    }
}

impl Addr {
    /// The value of the register.
    pub fn read(self) -> (r: R)
        ensures
            r@ == self@,
    {
        R { bits: self.0 }
    }

    /// Hands `f` the present value and stores what `f` leaves of it.
    pub fn write<F>(&mut self, f: F) where F: FnOnce(&mut W) -> &mut W
        requires
            forall|w: &mut W| w@ == old(self)@ ==> #[trigger] f.requires((w,)),
        ensures
            exists|w: &mut W, out: &mut W|
                w@ == old(self)@ && #[trigger] f.ensures((w,), out) && *final(out) == *out
                    && final(self)@ == final(w)@,
    {
        let mut w = W { bits: self.0 };
        f(&mut w);
        self.0 = w.bits;
    }

    /// As `write`, for an `f` that also reads the present value.
    pub fn modify<F>(&mut self, f: F) where for <'w>F: FnOnce(&R, &'w mut W) -> &'w mut W
        requires
            forall|r: &R, w: &mut W|
                r@ == old(self)@ && w@ == old(self)@ ==> #[trigger] f.requires((r, w)),
        ensures
            exists|r: &R, w: &mut W, out: &mut W|
                r@ == old(self)@ && w@ == old(self)@ && #[trigger] f.ensures((r, w), out)
                    && *final(out) == *out && final(self)@ == final(w)@,
    {
        let r = R { bits: self.0 };
        let mut w = W { bits: self.0 };
        f(&r, &mut w);
        self.0 = w.bits;
    }
}

impl From<u32> for Addr {
    fn from(v: u32) -> (r: Self)
        ensures
            r@ == v,
    {
        Self(v)
    }
}

impl vstd::std_specs::convert::FromSpecImpl<u32> for Addr {
    open spec fn obeys_from_spec() -> bool {
        true
    }

    closed spec fn from_spec(v: u32) -> Self {
        Addr(v)
    }
}

impl R {
    /// Value in raw bits.
    pub fn bits(&self) -> (b: u32)
        ensures
            b == self@,
    {
        self.bits
    }

    /// The field ADDR: the whole register.
    pub fn addr(&self) -> (f: AddrR)
        ensures
            f@ == self@,
    {
        AddrR(self.bits)
    }
}

/// Data Pointer Address Value
///
/// These bits define the data pointer address as an absolute double
/// word address in RAM. The two least significant bits must be zero
/// to ensure the descriptor is 32-bit aligned.
pub struct AddrR(u32);

impl View for AddrR {
    type V = u32;

    closed spec fn view(&self) -> u32 {
        self.0
    }
}

impl AddrR {
    pub fn bits(&self) -> (v: u32)
        ensures
            v == self@,
    {
        self.0
    }
}

impl W {
    /// Write raw bits.
    pub fn bits(&mut self, v: u32) -> (w: &mut Self)
        ensures
            w@ == v,
            *final(w) == *final(self),
    {
        self.bits = v;
        self
    }

    /// The writer of the field ADDR.
    pub fn addr(&mut self) -> (p: AddrW<'_>)
        ensures
            *p.w == *old(self),
            *final(p.w) == *final(self),
    {
        AddrW { w: self }
    }
}

/// Writes the field ADDR.
pub struct AddrW<'a> {
    pub w: &'a mut W,
}

impl<'a> AddrW<'a> {
    /// Sets the field to `v`. The peripheral wants a multiple of 4: the
    /// buffer is to be aligned to 32 bits, cf §32.8.7.2 of the SAMD21 data
    /// sheet.
    pub fn bits(self, v: u32) -> (w: &'a mut W)
        ensures
            w@ == v,
            *final(w) == *final(self.w),
    {
        self.w.bits = v;
        self.w
    }
}

} // verus!
