//! USB class constants and structs
//! Used by descriptor parser and drivers
use vstd::prelude::*;

pub mod audio;
pub mod hid;

verus! {

/// The class of a device or of an interface, as the USB-IF assigns them.
#[derive(Copy, Clone, Debug, PartialEq, Eq, Structural)]
pub enum DeviceClass {
    FromInterface,
    Audio,
    Cdc,
    Hid,
    Physical,
    Imaging,
    Printer,
    MassStorage,
    Hub,
    CdcData,
    SmartCard,
    ContentSecurity,
    Video,
    PersonalHealthcare,
    AudioVideo,
    Billboard,
    UsbTypeCBridge,
    I3C,
    Diagnostic,
    WirelessController,
    Misc,
    ApplicationSpecific,
    VendorSpecific,
}

impl DeviceClass {
    /// The byte that stands for the value.
    pub open spec fn code(self) -> u8 {
        match self {
            Self::FromInterface => 0x00,
            Self::Audio => 0x01,
            Self::Cdc => 0x02,
            Self::Hid => 0x03,
            Self::Physical => 0x05,
            Self::Imaging => 0x06,
            Self::Printer => 0x07,
            Self::MassStorage => 0x08,
            Self::Hub => 0x09,
            Self::CdcData => 0x0A,
            Self::SmartCard => 0x0B,
            Self::ContentSecurity => 0x0D,
            Self::Video => 0x0E,
            Self::PersonalHealthcare => 0x0F,
            Self::AudioVideo => 0x10,
            Self::Billboard => 0x11,
            Self::UsbTypeCBridge => 0x12,
            Self::I3C => 0x30,
            Self::Diagnostic => 0xDC,
            Self::WirelessController => 0xE0,
            Self::Misc => 0xEF,
            Self::ApplicationSpecific => 0xFE,
            Self::VendorSpecific => 0xFF,
        }
    }

    /// The value that the byte `v` stands for, if it stands for one.
    pub open spec fn of_code(v: u8) -> Option<Self> {
        if v == 0x00 {
            Some(Self::FromInterface)
        } else if v == 0x01 {
            Some(Self::Audio)
        } else if v == 0x02 {
            Some(Self::Cdc)
        } else if v == 0x03 {
            Some(Self::Hid)
        } else if v == 0x05 {
            Some(Self::Physical)
        } else if v == 0x06 {
            Some(Self::Imaging)
        } else if v == 0x07 {
            Some(Self::Printer)
        } else if v == 0x08 {
            Some(Self::MassStorage)
        } else if v == 0x09 {
            Some(Self::Hub)
        } else if v == 0x0A {
            Some(Self::CdcData)
        } else if v == 0x0B {
            Some(Self::SmartCard)
        } else if v == 0x0D {
            Some(Self::ContentSecurity)
        } else if v == 0x0E {
            Some(Self::Video)
        } else if v == 0x0F {
            Some(Self::PersonalHealthcare)
        } else if v == 0x10 {
            Some(Self::AudioVideo)
        } else if v == 0x11 {
            Some(Self::Billboard)
        } else if v == 0x12 {
            Some(Self::UsbTypeCBridge)
        } else if v == 0x30 {
            Some(Self::I3C)
        } else if v == 0xDC {
            Some(Self::Diagnostic)
        } else if v == 0xE0 {
            Some(Self::WirelessController)
        } else if v == 0xEF {
            Some(Self::Misc)
        } else if v == 0xFE {
            Some(Self::ApplicationSpecific)
        } else if v == 0xFF {
            Some(Self::VendorSpecific)
        } else {
            None
        }
    }

    /// The byte that stands for the value.
    pub fn bits(self) -> (b: u8)
        ensures
            b == self.code(),
            Self::of_code(b) == Some(self),
    {
        match self {
            Self::FromInterface => 0x00,
            Self::Audio => 0x01,
            Self::Cdc => 0x02,
            Self::Hid => 0x03,
            Self::Physical => 0x05,
            Self::Imaging => 0x06,
            Self::Printer => 0x07,
            Self::MassStorage => 0x08,
            Self::Hub => 0x09,
            Self::CdcData => 0x0A,
            Self::SmartCard => 0x0B,
            Self::ContentSecurity => 0x0D,
            Self::Video => 0x0E,
            Self::PersonalHealthcare => 0x0F,
            Self::AudioVideo => 0x10,
            Self::Billboard => 0x11,
            Self::UsbTypeCBridge => 0x12,
            Self::I3C => 0x30,
            Self::Diagnostic => 0xDC,
            Self::WirelessController => 0xE0,
            Self::Misc => 0xEF,
            Self::ApplicationSpecific => 0xFE,
            Self::VendorSpecific => 0xFF,
        }
    }

    /// The value that the byte `v` stands for, if it stands for one.
    pub fn from_repr(v: u8) -> (r: Option<Self>)
        ensures
            r == Self::of_code(v),
            r matches Some(x) ==> x.code() == v,
    {
        match v {
            0x00 => Some(Self::FromInterface),
            0x01 => Some(Self::Audio),
            0x02 => Some(Self::Cdc),
            0x03 => Some(Self::Hid),
            0x05 => Some(Self::Physical),
            0x06 => Some(Self::Imaging),
            0x07 => Some(Self::Printer),
            0x08 => Some(Self::MassStorage),
            0x09 => Some(Self::Hub),
            0x0A => Some(Self::CdcData),
            0x0B => Some(Self::SmartCard),
            0x0D => Some(Self::ContentSecurity),
            0x0E => Some(Self::Video),
            0x0F => Some(Self::PersonalHealthcare),
            0x10 => Some(Self::AudioVideo),
            0x11 => Some(Self::Billboard),
            0x12 => Some(Self::UsbTypeCBridge),
            0x30 => Some(Self::I3C),
            0xDC => Some(Self::Diagnostic),
            0xE0 => Some(Self::WirelessController),
            0xEF => Some(Self::Misc),
            0xFE => Some(Self::ApplicationSpecific),
            0xFF => Some(Self::VendorSpecific),
            _ => None,
        }
    }
}

/// The subclass of a device or of an interface; what it means depends on the
/// class.
pub type DeviceSubclass = u8;

} // verus!
