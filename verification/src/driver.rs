//! Drivers for classes of devices.
use crate::descriptor::DeviceDescriptor;
use crate::device::Device;
use crate::host::UsbHost;
use crate::parser::DescriptorParser;
use crate::UsbError;
use vstd::prelude::*;

pub mod kinds;
pub mod keyboard;
pub mod midi;

pub use kinds::ClassDriver;
pub use keyboard::BootKbdDriver;

verus! {

/// Trait for drivers that keep their devices to themselves: the stack hands
/// each new device to the drivers in turn, and lets each do its work at
/// every turn.
pub trait Driver {
    /// return Ok(true) if driver took device (stop looking for other drivers)
    fn register<H: UsbHost>(
        &mut self,
        usbhost: &mut H,
        device: &mut Device,
        desc: &DeviceDescriptor,
        conf: &mut DescriptorParser<'_>,
    ) -> Result<bool, UsbError>;

    /// Remove the device at address `address` from the driver's
    /// registry, if necessary.
    fn unregister(&mut self, device: &Device);

    /// Called regularly by the USB host to allow the driver to do any
    /// work necessary on its registered devices.
    ///
    /// `usbhost` may be used for communication with the USB when
    /// required.
    fn tick<H: UsbHost>(&mut self, usbhost: &mut H) -> Result<(), UsbError>;
}

} // verus!
