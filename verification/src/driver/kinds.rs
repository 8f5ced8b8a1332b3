//! One type for the drivers of a stack that holds drivers of several kinds.
use crate::address::DevAddress;
use crate::class::DeviceClass;
use crate::device::{Device, DeviceState, DeviceView, Driver, SETTLE_DELAY};
use crate::driver::keyboard::{
    keyboard_accepts, keyboard_config_set, keyboard_registered, keyboard_turned,
    keyboard_unregistered, BootKbdDriver,
};
use crate::driver::midi::{
    midi_accepts, midi_config_set, midi_registered, midi_turned, midi_unregistered,
    UsbMidiDriver,
};
use crate::host::{followed, HostAnswer, HostCall, HostLog, HostStep, UsbHost};
use crate::parser::{DescriptorParser, ParserView};
use crate::{ConfigNum, InterfaceNum, UsbError};
use vstd::prelude::*;

verus! {

/// A driver of one of the kinds that the library has. A stack whose drivers
/// are of this type can hold keyboard drivers and MIDI drivers side by side.
/// Each call is handed on to the driver that the value holds, and a driver
/// stays of its kind: what holds of a call is what holds of that call on
/// the driver that the value holds.
pub enum ClassDriver {
    /// A driver for boot keyboards
    Keyboard(BootKbdDriver),
    /// A driver for MIDI devices
    Midi(UsbMidiDriver),
}

impl ClassDriver {
    /// The keyboard driver that the value holds, if it holds one.
    pub open spec fn keyboard(self) -> Option<BootKbdDriver> {
        match self {
            ClassDriver::Keyboard(k) => Some(k),
            ClassDriver::Midi(_) => None,
        }
    }

    /// The MIDI driver that the value holds, if it holds one.
    pub open spec fn midi(self) -> Option<UsbMidiDriver> {
        match self {
            ClassDriver::Keyboard(_) => None,
            ClassDriver::Midi(m) => Some(m),
        }
    }
}

impl Driver for ClassDriver {
    fn name(&self) -> &str {
        match self {
            ClassDriver::Keyboard(k) => k.name(),
            ClassDriver::Midi(m) => m.name(),
        }
    }

    open spec fn spec_accept(&self, device: DeviceView, conf: ParserView) -> Option<
        (DeviceClass, ConfigNum, InterfaceNum),
    > {
        match *self {
            ClassDriver::Keyboard(_) => keyboard_accepts(conf),
            ClassDriver::Midi(_) => midi_accepts(conf),
        }
    }

    open spec fn registers(
        &self,
        device: Device,
        conf: ParserView,
        after: Self,
        device_after: Device,
        r: Result<(), UsbError>,
    ) -> bool {
        match (*self, after) {
            (ClassDriver::Keyboard(k0), ClassDriver::Keyboard(k1)) => keyboard_registered(
                k0,
                k1,
                device,
                device_after,
                conf,
                r,
            ),
            (ClassDriver::Midi(m0), ClassDriver::Midi(m1)) => midi_registered(
                m0,
                m1,
                device,
                device_after,
                conf,
                r,
            ),
            _ => false,
        }
    }

    open spec fn unregisters(&self, address: DevAddress, after: Self) -> bool {
        match (*self, after) {
            (ClassDriver::Keyboard(k0), ClassDriver::Keyboard(k1)) => keyboard_unregistered(
                k0,
                k1,
                address,
            ),
            (ClassDriver::Midi(m0), ClassDriver::Midi(m1)) => midi_unregistered(m0, m1, address),
            _ => false,
        }
    }

    open spec fn config_set(
        &self,
        device: Device,
        device_after: Device,
        state: DeviceState,
        log: HostLog,
    ) -> bool {
        match *self {
            ClassDriver::Keyboard(_) => keyboard_config_set(device, device_after, state, log),
            ClassDriver::Midi(_) => midi_config_set(device, device_after, state, log),
        }
    }

    open spec fn runs(
        &self,
        device: Device,
        after: Self,
        device_after: Device,
        r: Result<(), UsbError>,
        log: HostLog,
    ) -> bool {
        match (*self, after) {
            (ClassDriver::Keyboard(k0), ClassDriver::Keyboard(k1)) => keyboard_turned(
                k0,
                k1,
                device,
                device_after,
                r,
                log,
            ),
            (ClassDriver::Midi(m0), ClassDriver::Midi(m1)) => midi_turned(
                m0,
                m1,
                device,
                device_after,
                r,
                log,
            ),
            _ => false,
        }
    }

    /// What the driver that the value holds says.
    fn accept(&self, device: &mut Device, conf: &mut DescriptorParser<'_>) -> (r: Option<(DeviceClass, ConfigNum, InterfaceNum)>)
    {
        match self {
            ClassDriver::Keyboard(k) => k.accept(device, conf),
            ClassDriver::Midi(m) => m.accept(device, conf),
        }
    }

    /// The driver that the value holds registers the device.
    fn register(&mut self, device: &mut Device, conf: &mut DescriptorParser<'_>) -> (r: Result<(), UsbError>)
    {
        match self {
            ClassDriver::Keyboard(k) => k.register(device, conf),
            ClassDriver::Midi(m) => m.register(device, conf),
        }
    }

    /// The driver that the value holds is told that the device is gone.
    fn unregister(&mut self, device: DevAddress)
    {
        match self {
            ClassDriver::Keyboard(k) => k.unregister(device),
            ClassDriver::Midi(m) => m.unregister(device),
        }
    }

    /// What the driver that the value holds says: a keyboard waits for the
    /// boot protocol to be selected on interface 0, until the time that the
    /// host gives for `SETTLE_DELAY` from now, and a MIDI device runs. The
    /// device and the host stay as they are.
    fn state_after_config_set<H: UsbHost>(&self, host: &mut H, device: &mut Device) -> (s: DeviceState)
        ensures
            *final(device) == *old(device),
            *final(host) == *old(host),
            match *self {
                ClassDriver::Keyboard(_) => s matches DeviceState::SetInterface(iface, until)
                    && iface == 0 && old(host).answers(
                    HostCall::AfterMillis(SETTLE_DELAY),
                    *old(host),
                    HostAnswer::Time(until),
                ),
                ClassDriver::Midi(_) => s == DeviceState::Running,
            },
    {
        match self {
            ClassDriver::Keyboard(k) => {
                let s = k.state_after_config_set(host, device);
                proof {
                    let log = choose|log: Seq<HostStep>| #[trigger]
                        k.config_set(*old(device), *device, s, log) && followed(
                            *old(host),
                            *host,
                            log,
                        );
                    assert(self.config_set(*old(device), *device, s, log));
                }
                s
            },
            ClassDriver::Midi(m) => {
                let s = m.state_after_config_set(host, device);
                proof {
                    let log = choose|log: Seq<HostStep>| #[trigger]
                        m.config_set(*old(device), *device, s, log) && followed(
                            *old(host),
                            *host,
                            log,
                        );
                    assert(self.config_set(*old(device), *device, s, log));
                }
                s
            },
        }
    }

    /// The turn of the driver that the value holds.
    fn run<H: UsbHost>(&mut self, host: &mut H, device: &mut Device) -> (r: Result<(), UsbError>)
    {
        match self {
            ClassDriver::Keyboard(k) => {
                let ghost k0 = *k;
                let r = k.run(host, device);
                proof {
                    let log = choose|log: Seq<HostStep>| #[trigger]
                        k0.runs(*old(device), *k, *device, r, log) && followed(
                            *old(host),
                            *host,
                            log,
                        );
                    assert(old(self).runs(*old(device), *self, *device, r, log));
                }
                r
            },
            ClassDriver::Midi(m) => {
                let ghost m0 = *m;
                let r = m.run(host, device);
                proof {
                    let log = choose|log: Seq<HostStep>| #[trigger]
                        m0.runs(*old(device), *m, *device, r, log) && followed(
                            *old(host),
                            *host,
                            log,
                        );
                    assert(old(self).runs(*old(device), *self, *device, r, log));
                }
                r
            },
        }
    }
}

} // verus!
