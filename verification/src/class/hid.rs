//! Constants of the human interface device class.
use vstd::prelude::*;

verus! {

/// Whether the interface speaks the boot protocol.
#[derive(Copy, Clone, Debug, PartialEq, Eq, Structural)]
pub enum HidSubclass {
    NoBoot,
    Boot,
}

impl HidSubclass {
    /// The byte that stands for the value.
    pub open spec fn code(self) -> u8 {
        match self {
            Self::NoBoot => 0,
            Self::Boot => 1,
        }
    }

    /// The value that the byte `v` stands for, if it stands for one.
    pub open spec fn of_code(v: u8) -> Option<Self> {
        if v == 0 {
            Some(Self::NoBoot)
        } else if v == 1 {
            Some(Self::Boot)
        } else {
            None
        }
    }

    /// The byte that stands for the value.
    pub fn bits(self) -> (b: u8)
        ensures
            b == self.code(),
            Self::of_code(b) == Some(self),
    {
        match self {
            Self::NoBoot => 0,
            Self::Boot => 1,
        }
    }

    /// The value that the byte `v` stands for, if it stands for one.
    pub fn from_repr(v: u8) -> (r: Option<Self>)
        ensures
            r == Self::of_code(v),
            r matches Some(x) ==> x.code() == v,
    {
        match v {
            0 => Some(Self::NoBoot),
            1 => Some(Self::Boot),
            _ => None,
        }
    }
}

/// The protocol code of a boot interface: what the device is.
#[derive(Copy, Clone, Debug, PartialEq, Eq, Structural)]
pub enum HidDevice {
    Keyboard,
    Mouse,
}

impl HidDevice {
    /// The byte that stands for the value.
    pub open spec fn code(self) -> u8 {
        match self {
            Self::Keyboard => 1,
            Self::Mouse => 2,
        }
    }

    /// The value that the byte `v` stands for, if it stands for one.
    pub open spec fn of_code(v: u8) -> Option<Self> {
        if v == 1 {
            Some(Self::Keyboard)
        } else if v == 2 {
            Some(Self::Mouse)
        } else {
            None
        }
    }

    /// The byte that stands for the value.
    pub fn bits(self) -> (b: u8)
        ensures
            b == self.code(),
            Self::of_code(b) == Some(self),
    {
        match self {
            Self::Keyboard => 1,
            Self::Mouse => 2,
        }
    }

    /// The value that the byte `v` stands for, if it stands for one.
    pub fn from_repr(v: u8) -> (r: Option<Self>)
        ensures
            r == Self::of_code(v),
            r matches Some(x) ==> x.code() == v,
    {
        match v {
            1 => Some(Self::Keyboard),
            2 => Some(Self::Mouse),
            _ => None,
        }
    }
}

/// The protocol that `SET_PROTOCOL` selects.
#[derive(Copy, Clone, Debug, PartialEq, Eq, Structural)]
pub enum HidProtocol {
    Boot,
    Report,
}

impl HidProtocol {
    /// The byte that stands for the value.
    pub open spec fn code(self) -> u8 {
        match self {
            Self::Boot => 0,
            Self::Report => 1,
        }
    }

    /// The value that the byte `v` stands for, if it stands for one.
    pub open spec fn of_code(v: u8) -> Option<Self> {
        if v == 0 {
            Some(Self::Boot)
        } else if v == 1 {
            Some(Self::Report)
        } else {
            None
        }
    }

    /// The byte that stands for the value.
    pub fn bits(self) -> (b: u8)
        ensures
            b == self.code(),
            Self::of_code(b) == Some(self),
    {
        match self {
            Self::Boot => 0,
            Self::Report => 1,
        }
    }

    /// The value that the byte `v` stands for, if it stands for one.
    pub fn from_repr(v: u8) -> (r: Option<Self>)
        ensures
            r == Self::of_code(v),
            r matches Some(x) ==> x.code() == v,
    {
        match v {
            0 => Some(Self::Boot),
            1 => Some(Self::Report),
            _ => None,
        }
    }
}

} // verus!
