use embedded_usb_host::address::DevAddress;
use embedded_usb_host::class::DeviceClass;
use embedded_usb_host::control::{RequestCode, RequestType, WValue};
use embedded_usb_host::descriptor::DescriptorType;
use embedded_usb_host::device::{
    ControlEndpoint, ControlRequest, Device, DeviceOps, DeviceState, DeviceView, Driver,
    LifecycleAction,
};
use embedded_usb_host::driver::ClassDriver;
use embedded_usb_host::driver::keyboard::{BootKbdDriver, BootKbdPacket};
use embedded_usb_host::driver::midi::{
    cable_number, find_midi_interface, is_midi_interface, with_cable_number, JackPort,
    MidiEvent, UsbMidiDriver,
};
use embedded_usb_host::endpoint::{
    BulkEndpoint, DataToggle, Endpoint, EndpointProperties, EpAddress, EpProps, HostEndpoint,
    InterruptEndpoint,
};
use embedded_usb_host::host::{HostAnswer, HostCall, HostEvent, HostLog, UsbHost};
use embedded_usb_host::parser::{DescriptorParser, ParserView};
use embedded_usb_host::stack::{UsbStack, DEVICE_SLOTS, MAX_DRIVERS};
use embedded_usb_host::{
    ConfigNum, Direction, HostError, InterfaceNum, MaxPacketSize, TransferType, UsbError,
};

/// One control transfer, as the host saw it.
#[derive(Debug, Clone, PartialEq, Eq)]
struct Control {
    address: u8,
    request_type: u8,
    request: RequestCode,
    value: u16,
    index: u16,
    length: Option<usize>,
    max_packet_size: u16,
}

/// A host controller that answers from a script.
struct ScriptedHost {
    time: u64,
    packet_size: u16,
    events: Vec<HostEvent>,
    device_descriptor: Vec<u8>,
    configuration: Vec<u8>,
    fail: Option<(RequestCode, HostError)>,
    controls: Vec<Control>,
    ins: Vec<(u8, u8)>,
    in_data: Vec<Result<Vec<u8>, HostError>>,
    outs: Vec<(u8, u8, Vec<u8>)>,
    out_result: Result<usize, HostError>,
}

impl ScriptedHost {
    fn new() -> Self {
        ScriptedHost {
            time: 0,
            packet_size: 64,
            events: Vec::new(),
            device_descriptor: vec![
                0x12, 0x01, 0x00, 0x02, 0x00, 0x00, 0x00, 0x08, 0x34, 0x12, 0x78, 0x56, 0x00,
                0x01, 0x01, 0x02, 0x03, 0x01,
            ],
            configuration: keyboard_configuration(),
            fail: None,
            controls: Vec::new(),
            ins: Vec::new(),
            in_data: Vec::new(),
            outs: Vec::new(),
            out_result: Ok(0),
        }
    }
}

impl UsbHost for ScriptedHost {
    fn answers(&self, _call: HostCall, _after: Self, _answer: HostAnswer) -> bool {
        unreachable!()
    }

    fn update(&mut self) -> Option<HostEvent> {
        if self.events.is_empty() {
            None
        } else {
            Some(self.events.remove(0))
        }
    }

    fn max_host_packet_size(&self) -> u16 {
        self.packet_size
    }

    fn after_millis(&self, millis: u64) -> u64 {
        self.time + millis
    }

    fn control_transfer<E: HostEndpoint>(
        &mut self,
        ep: &mut E,
        bm_request_type: RequestType,
        b_request: RequestCode,
        w_value: WValue,
        w_index: u16,
        buf: Option<&mut [u8]>,
    ) -> Result<usize, HostError> {
        self.controls.push(Control {
            address: ep.device_address().number(),
            request_type: bm_request_type.bits(),
            request: b_request,
            value: w_value.bits(),
            index: w_index,
            length: buf.as_ref().map(|b| b.len()),
            max_packet_size: ep.max_packet_size(),
        });
        if let Some((code, err)) = self.fail {
            if code == b_request {
                return Err(err);
            }
        }
        ep.set_toggle(true);
        match (b_request, buf) {
            (RequestCode::GetDescriptor, Some(buf)) => {
                let source = if w_value.w_value_hi() == 1 {
                    &self.device_descriptor
                } else {
                    &self.configuration
                };
                let n = buf.len().min(source.len());
                buf[..n].copy_from_slice(&source[..n]);
                Ok(n)
            }
            _ => Ok(0),
        }
    }

    fn in_transfer<E: HostEndpoint>(&mut self, ep: &mut E, buf: &mut [u8]) -> Result<usize, HostError> {
        self.ins.push((ep.device_address().number(), ep.endpoint_address().into()));
        if self.in_data.is_empty() {
            return Err(HostError::Nak);
        }
        match self.in_data.remove(0) {
            Ok(data) => {
                let n = buf.len().min(data.len());
                buf[..n].copy_from_slice(&data[..n]);
                ep.flip_toggle();
                Ok(n)
            }
            Err(e) => Err(e),
        }
    }

    fn out_transfer<E: HostEndpoint>(&mut self, ep: &mut E, buf: &[u8]) -> Result<usize, HostError> {
        self.outs.push((ep.device_address().number(), ep.endpoint_address().into(), buf.to_vec()));
        match self.out_result {
            Ok(_) => {
                ep.flip_toggle();
                Ok(buf.len())
            }
            Err(e) => Err(e),
        }
    }
}

/// A driver that takes every device, or none, and counts what it is asked.
struct Recorder {
    takes: bool,
    register_error: Option<UsbError>,
    run_error: Option<UsbError>,
    accepted: usize,
    registered: Vec<u8>,
    unregistered: Vec<u8>,
    runs: usize,
}

impl Recorder {
    fn new(takes: bool) -> Self {
        Recorder {
            takes,
            register_error: None,
            run_error: None,
            accepted: 0,
            registered: Vec::new(),
            unregistered: Vec::new(),
            runs: 0,
        }
    }
}

impl Driver for Recorder {
    fn registers(
        &self,
        _device: Device,
        _conf: ParserView,
        _after: Self,
        _device_after: Device,
        _r: Result<(), UsbError>,
    ) -> bool {
        unreachable!()
    }

    fn unregisters(&self, _address: DevAddress, _after: Self) -> bool {
        unreachable!()
    }

    fn config_set(
        &self,
        _device: Device,
        _device_after: Device,
        _state: DeviceState,
        _log: HostLog,
    ) -> bool {
        unreachable!()
    }

    fn runs(
        &self,
        _device: Device,
        _after: Self,
        _device_after: Device,
        _r: Result<(), UsbError>,
        _log: HostLog,
    ) -> bool {
        unreachable!()
    }

    fn spec_accept(
        &self,
        _device: DeviceView,
        _conf: ParserView,
    ) -> Option<(DeviceClass, ConfigNum, InterfaceNum)> {
        unreachable!()
    }

    fn name(&self) -> &str {
        "Recorder"
    }

    fn accept(
        &self,
        _device: &mut Device,
        conf: &mut DescriptorParser<'_>,
    ) -> Option<(DeviceClass, ConfigNum, InterfaceNum)> {
        // leave the parser somewhere in the middle: the stack rewinds it
        conf.next();
        if self.takes {
            Some((DeviceClass::VendorSpecific, 1, 7))
        } else {
            None
        }
    }

    fn register(&mut self, device: &mut Device, conf: &mut DescriptorParser<'_>) -> Result<(), UsbError> {
        assert_eq!(conf.position(), 0);
        self.accepted += 1;
        match self.register_error {
            Some(e) => Err(e),
            None => {
                self.registered.push(device.device_address().number());
                Ok(())
            }
        }
    }

    fn unregister(&mut self, device: DevAddress) {
        self.unregistered.push(device.number());
    }

    fn state_after_config_set<H: UsbHost>(&self, _host: &mut H, _device: &mut Device) -> DeviceState {
        DeviceState::Running
    }

    fn run<H: UsbHost>(&mut self, _host: &mut H, _device: &mut Device) -> Result<(), UsbError> {
        self.runs += 1;
        match self.run_error {
            Some(e) => Err(e),
            None => Ok(()),
        }
    }
}

fn keyboard_configuration() -> Vec<u8> {
    vec![
        0x09, 0x02, 0x22, 0x00, 0x01, 0x01, 0x00, 0xa0, 0x32, 0x09, 0x04, 0x00, 0x00, 0x01, 0x03,
        0x01, 0x01, 0x00, 0x09, 0x21, 0x11, 0x01, 0x00, 0x01, 0x22, 0x41, 0x00, 0x07, 0x05, 0x81,
        0x03, 0x08, 0x00, 0x0a,
    ]
}

fn midi_configuration() -> Vec<u8> {
    let mut c = vec![
        // configuration 2
        0x09, 0x02, 0x00, 0x00, 0x02, 0x02, 0x00, 0x80, 0x32,
        // audio control interface
        0x09, 0x04, 0x00, 0x00, 0x00, 0x01, 0x01, 0x00, 0x00,
        // MIDI streaming interface, number 1
        0x09, 0x04, 0x01, 0x00, 0x02, 0x01, 0x03, 0x00, 0x00,
        // MS header
        0x07, 0x24, 0x01, 0x00, 0x01, 0x41, 0x00,
        // two embedded MIDI IN jacks, 1 and 2, and an external one, 9
        0x06, 0x24, 0x02, 0x01, 0x01, 0x00, 0x06, 0x24, 0x02, 0x01, 0x02, 0x00, 0x06, 0x24, 0x02,
        0x02, 0x09, 0x00,
        // two embedded MIDI OUT jacks, 3 and 4
        0x09, 0x24, 0x03, 0x01, 0x03, 0x01, 0x09, 0x01, 0x00, 0x09, 0x24, 0x03, 0x01, 0x04, 0x01,
        0x09, 0x01, 0x00,
        // endpoint 2 OUT bulk 64, with its class descriptor
        0x07, 0x05, 0x02, 0x02, 0x40, 0x00, 0x00, 0x05, 0x25, 0x01, 0x01, 0x03,
        // endpoint 1 IN bulk 32, with its class descriptor
        0x07, 0x05, 0x81, 0x02, 0x20, 0x00, 0x00, 0x05, 0x25, 0x01, 0x01, 0x01,
    ];
    let len = c.len() as u16;
    c[2] = len as u8;
    c[3] = (len >> 8) as u8;
    c
}

fn turn(stack: &mut UsbStack<ScriptedHost, Recorder>) {
    stack.update().unwrap();
}

#[test]
fn new_device_looks_like_this() {
    let d = Device::new(64);
    assert_eq!(d.state(), DeviceState::SetAddress);
    assert_eq!(d.error(), None);
    assert_eq!(d.device_address().number(), 0);
    assert_eq!(u8::from(d.endpoint_address()), 0);
    assert_eq!(d.transfer_type(), TransferType::Control);
    assert_eq!(d.direction(), Direction::Out);
    assert_eq!(d.max_packet_size(), 64);
    assert!(!d.toggle());
    assert_eq!(d.action(), LifecycleAction::Address);
    assert_eq!(
        d.ep_props(),
        EpProps {
            dev_addr: DevAddress::from_u8(0),
            ep_addr: EpAddress::from(0),
            tr_type: TransferType::Control
        }
    );
}

#[test]
fn lifecycle_actions() {
    let mut d = Device::new(8);
    d.set_state(DeviceState::SetConfig(77));
    assert_eq!(d.action(), LifecycleAction::ConfigureAfter(77));
    for state in [
        DeviceState::SetInterface(0, 5),
        DeviceState::SetReport(1),
        DeviceState::SetIdle,
        DeviceState::Running,
    ] {
        d.set_state(state);
        assert_eq!(d.state(), state);
        assert_eq!(d.action(), LifecycleAction::Run);
    }
    d.set_state(DeviceState::Orphan);
    assert_eq!(d.action(), LifecycleAction::Nothing);
    d.set_state(DeviceState::Running);
    d.set_error(UsbError::NoDriver);
    assert_eq!(d.error(), Some(UsbError::NoDriver));
    assert_eq!(d.action(), LifecycleAction::Nothing);
    assert_ne!(DeviceOps::SetConfig(1), DeviceOps::GetConfigDescriptor(1));
}

#[test]
fn control_requests_on_the_wire() {
    let r = ControlRequest::get_descriptor(DescriptorType::Configuration, 3);
    assert_eq!((r.bm_request_type.bits(), r.b_request, r.w_value.bits(), r.w_index), (0x80, RequestCode::GetDescriptor, 0x0203, 0));
    let r = ControlRequest::set(RequestCode::SetAddress, embedded_usb_host::control::RequestRecipient::Device, 5, 0, 0);
    assert_eq!((r.bm_request_type.bits(), r.b_request, r.w_value.bits(), r.w_index), (0x00, RequestCode::SetAddress, 5, 0));
    let r = ControlRequest::set_class(RequestCode::SetInterface, embedded_usb_host::control::RequestRecipient::Interface, 1, 2, 9);
    assert_eq!((r.bm_request_type.bits(), r.b_request, r.w_value.bits(), r.w_index), (0x21, RequestCode::SetInterface, 0x0201, 9));
}

#[test]
fn device_descriptor_shrinks_the_packet_size() {
    let mut host = ScriptedHost::new();
    let mut d = Device::new(64);
    let desc = d.get_device_descriptor(&mut host).unwrap();
    assert_eq!(desc.b_max_packet_size, 8);
    assert_eq!(desc.id_vendor, 0x1234);
    assert_eq!(d.max_packet_size(), 8);
    assert_eq!(
        host.controls,
        vec![Control {
            address: 0,
            request_type: 0x80,
            request: RequestCode::GetDescriptor,
            value: 0x0100,
            index: 0,
            length: Some(18),
            max_packet_size: 64
        }]
    );
    // a device that takes larger packets than the host keeps the size of the host
    let mut host = ScriptedHost::new();
    host.device_descriptor[7] = 64;
    let mut d = Device::new(8);
    d.get_device_descriptor(&mut host).unwrap();
    assert_eq!(d.max_packet_size(), 8);
    let mut d = Device::new(64);
    d.get_device_descriptor(&mut host).unwrap();
    assert_eq!(d.max_packet_size(), 64);
}

#[test]
fn bytes_that_are_no_device_descriptor() {
    let mut d = Device::new(64);
    assert_eq!(d.accept_device_descriptor(&[0u8; 18]), Err(UsbError::InvalidDescriptor));
    assert_eq!(d.accept_device_descriptor(&[0x12, 0x01, 0, 2]), Err(UsbError::InvalidDescriptor));
    assert_eq!(d.max_packet_size(), 64);
    let mut host = ScriptedHost::new();
    host.device_descriptor = vec![0; 18];
    assert_eq!(d.get_device_descriptor(&mut host), Err(UsbError::InvalidDescriptor));
}

#[test]
fn set_address_once() {
    let mut host = ScriptedHost::new();
    host.time = 1000;
    let mut d = Device::new(8);
    assert_eq!(d.set_address(&mut host, DevAddress::from_u8(9)), Ok(()));
    assert_eq!(d.device_address().number(), 9);
    assert_eq!(d.state(), DeviceState::SetConfig(1010));
    assert_eq!(host.controls.len(), 1);
    assert_eq!(host.controls[0].request, RequestCode::SetAddress);
    assert_eq!(host.controls[0].value, 9);
    assert_eq!(host.controls[0].length, None);
    assert_eq!(d.set_address(&mut host, DevAddress::from_u8(10)), Err(UsbError::AddressSet));
    assert_eq!(d.device_address().number(), 9);
    assert_eq!(host.controls.len(), 1);
}

#[test]
fn failed_requests_name_the_endpoint() {
    let mut host = ScriptedHost::new();
    let mut d = Device::new(8);
    host.fail = Some((RequestCode::SetAddress, HostError::Stall));
    let props = d.ep_props();
    assert_eq!(
        d.set_address(&mut host, DevAddress::from_u8(9)),
        Err(UsbError::SetAddress(props, HostError::Stall))
    );
    assert_eq!(d.state(), DeviceState::SetAddress);
    assert_eq!(d.device_address().number(), 0);
    host.fail = Some((RequestCode::SetConfiguration, HostError::Crc));
    assert_eq!(
        d.set_configuration(&mut host, 1),
        Err(UsbError::SetConfiguration(props, HostError::Crc))
    );
    host.fail = Some((RequestCode::SetInterface, HostError::Fail));
    assert_eq!(
        d.set_interface(&mut host, 0, 0),
        Err(UsbError::SetInterface(props, HostError::Fail))
    );
    host.fail = Some((RequestCode::GetDescriptor, HostError::SoftTimeout));
    assert_eq!(
        d.get_device_descriptor(&mut host),
        Err(UsbError::GetDescriptor(props, HostError::SoftTimeout))
    );
    let mut buf = [0u8; 64];
    assert_eq!(
        d.get_configuration_descriptors(&mut host, 0, &mut buf),
        Err(UsbError::GetDescriptor(props, HostError::SoftTimeout))
    );
    assert_eq!(
        d.control_set_class(
            &mut host,
            RequestCode::SetInterface,
            embedded_usb_host::control::RequestRecipient::Interface,
            0,
            0,
            0
        ),
        Ok(())
    );
    assert_eq!(
        d.control_set(
            &mut host,
            RequestCode::GetDescriptor,
            embedded_usb_host::control::RequestRecipient::Device,
            0,
            0,
            0
        ),
        Err(HostError::SoftTimeout)
    );
}

#[test]
fn configuration_zero_is_not_asked_for() {
    let mut host = ScriptedHost::new();
    let mut d = Device::new(8);
    assert_eq!(d.set_configuration(&mut host, 0), Err(UsbError::InvalidConfig));
    assert!(host.controls.is_empty());
    assert_eq!(d.set_configuration(&mut host, 2), Ok(()));
    assert_eq!(host.controls[0].request, RequestCode::SetConfiguration);
    assert_eq!(host.controls[0].value, 2);
    assert_eq!(d.set_interface(&mut host, 4, 1), Ok(()));
    assert_eq!(
        (host.controls[1].request_type, host.controls[1].request, host.controls[1].value, host.controls[1].index),
        (0x21, RequestCode::SetInterface, 1, 4)
    );
}

#[test]
fn configuration_is_read_head_first() {
    let mut host = ScriptedHost::new();
    let mut d = Device::new(8);
    let mut buf = [0xeeu8; 64];
    assert_eq!(d.get_configuration_descriptors(&mut host, 0, &mut buf), Ok(34));
    assert_eq!(&buf[..34], &keyboard_configuration()[..]);
    assert_eq!(&buf[34..], &[0xee; 30]);
    assert_eq!(host.controls.len(), 2);
    assert_eq!(host.controls[0].length, Some(9));
    assert_eq!(host.controls[1].length, Some(34));
    assert_eq!(host.controls[1].value, 0x0200);
    // a buffer that is too short
    let mut host = ScriptedHost::new();
    let mut short = [0u8; 33];
    assert_eq!(
        d.get_configuration_descriptors(&mut host, 0, &mut short),
        Err(UsbError::DescriptorTooBig)
    );
    assert_eq!(host.controls.len(), 1);
    // a head that is none
    host.configuration[1] = 0x77;
    assert_eq!(
        d.get_configuration_descriptors(&mut host, 0, &mut buf),
        Err(UsbError::InvalidDescriptor)
    );
}

#[test]
fn endpoint_addresses() {
    let a = EpAddress::from(0x85);
    assert_eq!(a.direction(), Direction::In);
    assert_eq!(a.absolute(), 5);
    assert_eq!(u8::from(a), 0x85);
    let a = EpAddress::from_byte(0x7f);
    assert_eq!(a.direction(), Direction::Out);
    assert_eq!(a.absolute(), 15);
    assert_eq!(u8::from(a), 0x0f);
    assert_eq!(TransferType::from(0xfe), TransferType::Bulk);
    assert_eq!(TransferType::from(0x01), TransferType::Isochronous);
    assert_eq!(TransferType::from_repr(3), Some(TransferType::Interrupt));
    assert_eq!(TransferType::from_repr(4), None);
    assert_eq!(TransferType::Control.bits(), 0);
}

#[test]
fn endpoints_from_descriptors() {
    let mut ep = Endpoint::from_raw(DevAddress::from_u8(4), 512, 0x83, 0x02);
    assert_eq!(ep.device_address().number(), 4);
    assert_eq!(u8::from(ep.endpoint_address()), 0x83);
    assert_eq!(ep.direction(), Direction::In);
    assert_eq!(ep.transfer_type(), TransferType::Bulk);
    assert_eq!(ep.max_packet_size(), 512);
    assert!(!ep.toggle());
    assert!(ep.flip_toggle());
    assert!(ep.toggle());
    assert!(!ep.flip_toggle());
    ep.set_max_packet_size(64);
    ep.set_device_address(DevAddress::from_u8(5));
    assert_eq!(ep.max_packet_size(), 64);
    let props = ep.ep_props();
    assert_eq!(props.device_address().number(), 5);
    assert_eq!(props.endpoint_address(), EpAddress::from(0x83));
    assert_eq!(props.transfer_type(), TransferType::Bulk);
    assert_eq!(props.direction(), Direction::In);
    assert_eq!(props.ep_props(), props);
}

#[test]
fn transfers_check_type_and_direction() {
    let mut host = ScriptedHost::new();
    let mut buf = [0u8; 8];
    let mut bulk_in = Endpoint::from_raw(DevAddress::from_u8(4), 64, 0x81, 0x02);
    let mut bulk_out = Endpoint::from_raw(DevAddress::from_u8(4), 64, 0x01, 0x02);
    let mut int_in = Endpoint::from_raw(DevAddress::from_u8(4), 8, 0x82, 0x03);
    let mut int_out = Endpoint::from_raw(DevAddress::from_u8(4), 8, 0x02, 0x03);
    assert_eq!(int_in.bulk_in(&mut host, &mut buf), Err(UsbError::TransferTypeMismatch));
    assert_eq!(int_out.bulk_in(&mut host, &mut buf), Err(UsbError::TransferTypeMismatch));
    assert_eq!(bulk_out.bulk_in(&mut host, &mut buf), Err(UsbError::DirectionMismatch));
    assert_eq!(int_in.bulk_out(&mut host, &buf), Err(UsbError::TransferTypeMismatch));
    assert_eq!(bulk_in.bulk_out(&mut host, &buf), Err(UsbError::DirectionMismatch));
    assert_eq!(bulk_in.interrupt_in(&mut host, &mut buf), Err(UsbError::TransferTypeMismatch));
    assert_eq!(int_out.interrupt_in(&mut host, &mut buf), Err(UsbError::DirectionMismatch));
    assert!(host.ins.is_empty() && host.outs.is_empty());

    host.in_data = vec![Ok(vec![1, 2, 3]), Err(HostError::Stall), Ok(vec![9; 8])];
    assert_eq!(bulk_in.bulk_in(&mut host, &mut buf), Ok(3));
    assert_eq!(&buf[..3], &[1, 2, 3]);
    assert!(bulk_in.toggle());
    assert_eq!(
        bulk_in.bulk_in(&mut host, &mut buf),
        Err(UsbError::BulkIn(bulk_in.ep_props(), HostError::Stall))
    );
    assert_eq!(int_in.interrupt_in(&mut host, &mut buf), Ok(8));
    assert_eq!(
        int_in.interrupt_in(&mut host, &mut buf),
        Err(UsbError::Interrupt(int_in.ep_props(), HostError::Nak))
    );
    assert_eq!(bulk_out.bulk_out(&mut host, &[5, 6]), Ok(2));
    assert_eq!(host.outs, vec![(4, 0x01, vec![5, 6])]);
    host.out_result = Err(HostError::Fail);
    assert_eq!(
        bulk_out.bulk_out(&mut host, &[5, 6]),
        Err(UsbError::BulkOut(bulk_out.ep_props(), HostError::Fail))
    );
}

#[test]
fn drivers_are_limited() {
    let mut stack = UsbStack::new(ScriptedHost::new());
    assert_eq!(stack.driver_count(), 0);
    for i in 0..MAX_DRIVERS {
        assert_eq!(stack.add_driver(Recorder::new(false)), Ok(()));
        assert_eq!(stack.driver_count(), i + 1);
    }
    assert_eq!(stack.add_driver(Recorder::new(true)), Err(UsbError::TooManyDrivers));
    assert_eq!(stack.driver_count(), 4);
}

#[test]
fn devices_are_limited() {
    let mut stack: UsbStack<ScriptedHost, Recorder> = UsbStack::new(ScriptedHost::new());
    for i in 0..DEVICE_SLOTS {
        assert_eq!(stack.attach(8), Ok(()));
        assert_eq!(stack.device_count(), i + 1);
    }
    assert_eq!(stack.attach(8), Err(UsbError::TooManyDevices));
    assert_eq!(stack.device_count(), 16);
    assert!(stack.device(16).is_none());
    let (last, driver) = stack.device(15).unwrap();
    assert_eq!(last.state(), DeviceState::SetAddress);
    assert_eq!(last.max_packet_size(), 8);
    assert_eq!(driver, None);
    stack.reset();
    assert_eq!(stack.device_count(), 0);
    assert!(stack.device(0).is_none());
}

#[test]
fn a_new_device_is_addressed() {
    let mut host = ScriptedHost::new();
    host.packet_size = 8;
    host.time = 500;
    host.events = vec![HostEvent::Ready];
    let mut stack = UsbStack::new(host);
    stack.add_driver(Recorder::new(true)).unwrap();
    turn(&mut stack);
    assert_eq!(stack.device_count(), 1);
    let (device, driver) = stack.device(0).unwrap();
    assert_eq!(device.device_address().number(), 1);
    assert_eq!(device.state(), DeviceState::SetConfig(510));
    assert_eq!(device.error(), None);
    assert_eq!(driver, None);
    // nothing happens before the device has settled
    turn(&mut stack);
    assert_eq!(stack.device(0).unwrap().0.state(), DeviceState::SetConfig(510));
}

#[test]
fn stall_on_get_descriptor_stops_the_device() {
    let mut host = ScriptedHost::new();
    host.events = vec![HostEvent::Ready];
    host.fail = Some((RequestCode::GetDescriptor, HostError::Stall));
    let mut stack = UsbStack::new(host);
    stack.add_driver(Recorder::new(true)).unwrap();
    turn(&mut stack);
    let (device, _) = stack.device(0).unwrap();
    assert_eq!(device.state(), DeviceState::SetAddress);
    assert_eq!(device.device_address().number(), 0);
    assert_eq!(device.error(), Some(UsbError::GetDescriptor(device.ep_props(), HostError::Stall)));
    // the device is left alone from now on, and no address was used up
    turn(&mut stack);
    turn(&mut stack);
    assert_eq!(stack.device(0).unwrap().0, device);
    assert_eq!(stack.attach(8), Ok(()));
    assert_eq!(stack.update_dev(1), Err(UsbError::GetDescriptor(device.ep_props(), HostError::Stall)));
}

#[test]
fn failed_set_address_gives_the_address_back() {
    let mut host = ScriptedHost::new();
    host.events = vec![HostEvent::Ready];
    host.fail = Some((RequestCode::SetAddress, HostError::Fail));
    let mut stack: UsbStack<ScriptedHost, Recorder> = UsbStack::new(host);
    turn(&mut stack);
    let (device, _) = stack.device(0).unwrap();
    assert_eq!(device.state(), DeviceState::SetAddress);
    assert!(matches!(device.error(), Some(UsbError::SetAddress(_, HostError::Fail))));
    // the shrunk packet size stays
    assert_eq!(device.max_packet_size(), 8);
}

#[test]
fn first_driver_that_accepts_wins() {
    let mut host = ScriptedHost::new();
    host.events = vec![HostEvent::Ready];
    let mut stack = UsbStack::new(host);
    stack.add_driver(Recorder::new(false)).unwrap();
    stack.add_driver(Recorder::new(true)).unwrap();
    stack.add_driver(Recorder::new(true)).unwrap();
    turn(&mut stack);
    turn(&mut stack);
    assert_eq!(stack.device(0).unwrap().1, None);
    // the device has settled after 10 ms
    assert_eq!(stack.configure_dev(0), Ok(Some((1, 7))));
    assert_eq!(stack.device(0).unwrap().1, None);
}

#[test]
fn bus_reset_ends_every_device() {
    let mut host = ScriptedHost::new();
    host.events = vec![HostEvent::Ready];
    let mut stack = UsbStack::new(host);
    stack.add_driver(Recorder::new(true)).unwrap();
    turn(&mut stack);
    assert_eq!(stack.device(0).unwrap().0.device_address().number(), 1);
    assert_eq!(stack.attach(64), Ok(()));
    turn(&mut stack);
    assert_eq!(stack.device(1).unwrap().0.device_address().number(), 2);
    stack.reset();
    assert_eq!(stack.device_count(), 0);
    // address 1 is available again
    assert_eq!(stack.attach(64), Ok(()));
    turn(&mut stack);
    assert_eq!(stack.device(0).unwrap().0.device_address().number(), 1);
}

fn settle(stack: &mut UsbStack<LateHost, Recorder>) {
    stack.update().unwrap();
    stack.update().unwrap();
}

/// A scripted host whose clock jumps ahead by a second at each turn.
struct LateHost {
    inner: ScriptedHost,
    turns: std::cell::Cell<u64>,
}

impl UsbHost for LateHost {
    fn answers(&self, _call: HostCall, _after: Self, _answer: HostAnswer) -> bool {
        unreachable!()
    }

    fn update(&mut self) -> Option<HostEvent> {
        self.turns.set(self.turns.get() + 1);
        self.inner.update()
    }

    fn max_host_packet_size(&self) -> u16 {
        self.inner.max_host_packet_size()
    }

    fn after_millis(&self, millis: u64) -> u64 {
        self.turns.get() * 1000 + millis
    }

    fn control_transfer<E: HostEndpoint>(
        &mut self,
        ep: &mut E,
        bm_request_type: RequestType,
        b_request: RequestCode,
        w_value: WValue,
        w_index: u16,
        buf: Option<&mut [u8]>,
    ) -> Result<usize, HostError> {
        self.inner.control_transfer(ep, bm_request_type, b_request, w_value, w_index, buf)
    }

    fn in_transfer<E: HostEndpoint>(&mut self, ep: &mut E, buf: &mut [u8]) -> Result<usize, HostError> {
        self.inner.in_transfer(ep, buf)
    }

    fn out_transfer<E: HostEndpoint>(&mut self, ep: &mut E, buf: &[u8]) -> Result<usize, HostError> {
        self.inner.out_transfer(ep, buf)
    }
}

fn late(mut inner: ScriptedHost) -> LateHost {
    inner.events = vec![HostEvent::Ready];
    LateHost { inner, turns: std::cell::Cell::new(0) }
}

#[test]
fn device_without_a_driver_is_an_orphan() {
    let mut stack = UsbStack::new(late(ScriptedHost::new()));
    stack.add_driver(Recorder::new(false)).unwrap();
    settle(&mut stack);
    let (device, driver) = stack.device(0).unwrap();
    assert_eq!(device.state(), DeviceState::Orphan);
    assert_eq!(device.error(), None);
    assert_eq!(driver, None);
    assert_eq!(device.device_address().number(), 1);
    // an orphan is left alone
    assert_eq!(stack.update_dev(0), Ok(()));
    assert_eq!(stack.device(0).unwrap().0, device);
}

#[test]
fn device_with_a_driver_runs() {
    let mut stack = UsbStack::new(late(ScriptedHost::new()));
    stack.add_driver(Recorder::new(false)).unwrap();
    stack.add_driver(Recorder::new(true)).unwrap();
    settle(&mut stack);
    let (device, driver) = stack.device(0).unwrap();
    assert_eq!(device.state(), DeviceState::Running);
    assert_eq!(driver, Some(1));
    assert_eq!(device.error(), None);
    stack.update().unwrap();
    stack.update().unwrap();
    assert_eq!(stack.device(0).unwrap().0.state(), DeviceState::Running);
}

#[test]
fn driver_that_fails_to_register_leaves_an_orphan() {
    let mut stack = UsbStack::new(late(ScriptedHost::new()));
    let mut driver = Recorder::new(true);
    driver.register_error = Some(UsbError::TooManyEndpoints);
    stack.add_driver(driver).unwrap();
    settle(&mut stack);
    let (device, driver) = stack.device(0).unwrap();
    assert_eq!(device.state(), DeviceState::Orphan);
    assert_eq!(device.error(), Some(UsbError::TooManyEndpoints));
    assert_eq!(driver, None);
}

#[test]
fn error_of_a_driver_stops_the_device() {
    let mut stack = UsbStack::new(late(ScriptedHost::new()));
    let mut driver = Recorder::new(true);
    driver.run_error = Some(UsbError::Driver);
    stack.add_driver(driver).unwrap();
    settle(&mut stack);
    assert_eq!(stack.device(0).unwrap().0.error(), None);
    stack.update().unwrap();
    let (device, _) = stack.device(0).unwrap();
    assert_eq!(device.error(), Some(UsbError::Driver));
    assert_eq!(device.state(), DeviceState::Running);
    stack.fail_device(0, UsbError::NoDriver);
    assert_eq!(stack.device(0).unwrap().0.error(), Some(UsbError::NoDriver));
}

#[test]
fn running_device_without_a_driver() {
    let mut stack: UsbStack<LateHost, Recorder> = UsbStack::new(late(ScriptedHost::new()));
    settle(&mut stack);
    assert_eq!(stack.device(0).unwrap().0.state(), DeviceState::Orphan);
    let mut host = ScriptedHost::new();
    let mut device = Device::new(8);
    device.set_address(&mut host, DevAddress::from_u8(3)).unwrap();
    device.set_state(DeviceState::Running);
    assert_eq!(device.action(), LifecycleAction::Run);
}

#[test]
fn reset_event_unregisters_and_clears() {
    let mut inner = ScriptedHost::new();
    inner.events = vec![HostEvent::Ready];
    let mut host = late(inner);
    host.inner.events.push(HostEvent::Ready);
    host.inner.events.push(HostEvent::Reset);
    host.inner.events.push(HostEvent::Ready);
    let mut stack = UsbStack::new(host);
    stack.add_driver(Recorder::new(true)).unwrap();
    stack.update().unwrap();
    stack.update().unwrap();
    assert_eq!(stack.device_count(), 2);
    assert_eq!(stack.device(0).unwrap().0.state(), DeviceState::Running);
    assert_eq!(stack.device(1).unwrap().0.device_address().number(), 2);
    stack.update().unwrap();
    assert_eq!(stack.device_count(), 0);
    stack.update().unwrap();
    assert_eq!(stack.device_count(), 1);
    assert_eq!(stack.device(0).unwrap().0.device_address().number(), 1);
}

#[test]
fn seventeenth_device_is_reported() {
    let mut host = ScriptedHost::new();
    host.events = vec![HostEvent::Ready; 17];
    let mut stack: UsbStack<ScriptedHost, Recorder> = UsbStack::new(host);
    for _ in 0..16 {
        assert_eq!(stack.update(), Ok(()));
    }
    assert_eq!(stack.update(), Err(UsbError::TooManyDevices));
    assert_eq!(stack.device_count(), 16);
    let mut addresses: Vec<u8> =
        (0..16).map(|i| stack.device(i).unwrap().0.device_address().number()).collect();
    addresses.sort();
    assert_eq!(addresses, (1..=16).collect::<Vec<u8>>());
}

#[test]
fn boot_keyboard_is_accepted() {
    let driver = BootKbdDriver::new();
    let mut device = Device::new(8);
    let conf = keyboard_configuration();
    let mut parser = DescriptorParser::new(&conf);
    assert_eq!(driver.name(), "BootKbd");
    assert_eq!(driver.accept(&mut device, &mut parser), Some((DeviceClass::Hid, 1, 0)));
    // a mouse is not
    let mut mouse = keyboard_configuration();
    mouse[16] = 2;
    let mut parser = DescriptorParser::new(&mouse);
    assert_eq!(driver.accept(&mut device, &mut parser), None);
    // an interface before any configuration does not count
    let mut parser = DescriptorParser::new(&conf[9..]);
    assert_eq!(driver.accept(&mut device, &mut parser), None);
    let mut parser = DescriptorParser::new(&[]);
    assert_eq!(driver.accept(&mut device, &mut parser), None);
}

#[test]
fn boot_keyboard_keeps_the_last_endpoint() {
    let mut host = ScriptedHost::new();
    let mut driver = BootKbdDriver::new();
    let mut device = Device::new(8);
    device.set_address(&mut host, DevAddress::from_u8(5)).unwrap();
    let mut conf = keyboard_configuration();
    conf.extend_from_slice(&[0x07, 0x05, 0x82, 0x03, 0x10, 0x00, 0x01]);
    let mut parser = DescriptorParser::new(&conf);
    assert_eq!(driver.register(&mut device, &mut parser), Ok(()));
    let ep = driver.endpoint(DevAddress::from_u8(5)).unwrap();
    assert_eq!(u8::from(ep.endpoint_address()), 0x82);
    assert_eq!(ep.max_packet_size(), 16);
    assert_eq!(ep.transfer_type(), TransferType::Interrupt);
    assert_eq!(ep.device_address().number(), 5);
    assert!(driver.endpoint(DevAddress::from_u8(6)).is_none());
    driver.unregister(DevAddress::from_u8(6));
    assert!(driver.endpoint(DevAddress::from_u8(5)).is_some());
    driver.unregister(DevAddress::from_u8(5));
    assert!(driver.endpoint(DevAddress::from_u8(5)).is_none());
    // a configuration without endpoints registers nothing
    let mut parser = DescriptorParser::new(&conf[..27]);
    assert_eq!(driver.register(&mut device, &mut parser), Ok(()));
    assert!(driver.endpoint(DevAddress::from_u8(5)).is_none());
}

#[test]
fn boot_keyboard_driver_takes_two_keyboards() {
    let mut host = ScriptedHost::new();
    let mut driver = BootKbdDriver::new();
    let conf = keyboard_configuration();
    for addr in [1u8, 2, 3] {
        let mut device = Device::new(8);
        device.set_address(&mut host, DevAddress::from_u8(addr)).unwrap();
        let mut parser = DescriptorParser::new(&conf);
        let r = driver.register(&mut device, &mut parser);
        if addr < 3 {
            assert_eq!(r, Ok(()));
        } else {
            assert_eq!(r, Err(UsbError::TooManyDevices));
        }
    }
    assert!(driver.endpoint(DevAddress::from_u8(2)).is_some());
    assert!(driver.endpoint(DevAddress::from_u8(3)).is_none());
    // a keyboard that is known registers anew
    let mut device = Device::new(8);
    device.set_address(&mut host, DevAddress::from_u8(1)).unwrap();
    let mut parser = DescriptorParser::new(&conf);
    assert_eq!(driver.register(&mut device, &mut parser), Ok(()));
}

#[test]
fn boot_keyboard_enumerates_and_polls() {
    let mut stack = UsbStack::new(late(ScriptedHost::new()));
    stack.add_driver(BootKbdDriver::new()).unwrap();
    stack.update().unwrap();
    stack.update().unwrap();
    let (device, driver) = stack.device(0).unwrap();
    assert_eq!(driver, Some(0));
    assert_eq!(device.state(), DeviceState::SetInterface(0, 2010));
    assert_eq!(device.device_address().number(), 1);
    stack.update().unwrap();
    assert_eq!(stack.device(0).unwrap().0.state(), DeviceState::Running);
    stack.update().unwrap();
    assert_eq!(stack.device(0).unwrap().0.error(), None);
}

#[test]
fn boot_keyboard_reports() {
    let mut host = ScriptedHost::new();
    let mut driver = BootKbdDriver::new();
    let mut device = Device::new(8);
    device.set_address(&mut host, DevAddress::from_u8(1)).unwrap();
    let conf = keyboard_configuration();
    let mut parser = DescriptorParser::new(&conf);
    driver.register(&mut device, &mut parser).unwrap();
    assert_eq!(
        driver.state_after_config_set(&mut host, &mut device),
        DeviceState::SetInterface(0, 10)
    );
    device.set_state(DeviceState::SetInterface(0, 10));
    // not yet settled
    assert_eq!(driver.run(&mut host, &mut device), Ok(()));
    assert_eq!(device.state(), DeviceState::SetInterface(0, 10));
    host.time = 10;
    host.controls.clear();
    assert_eq!(driver.run(&mut host, &mut device), Ok(()));
    assert_eq!(device.state(), DeviceState::Running);
    assert_eq!(
        (host.controls[0].request_type, host.controls[0].request, host.controls[0].value, host.controls[0].index),
        (0x21, RequestCode::SetInterface, 0, 0)
    );
    // an idle report, a report with a key, no report
    host.in_data = vec![Ok(vec![0; 8]), Ok(vec![2, 0, 4, 5, 0, 0, 0, 0])];
    assert_eq!(driver.run(&mut host, &mut device), Ok(()));
    assert_eq!(driver.take_report(), None);
    assert!(driver.endpoint(DevAddress::from_u8(1)).unwrap().toggle());
    assert_eq!(driver.run(&mut host, &mut device), Ok(()));
    assert!(!driver.endpoint(DevAddress::from_u8(1)).unwrap().toggle());
    assert_eq!(
        driver.take_report(),
        Some(BootKbdPacket { modifiers: 2, r0: 0, keys: [4, 5, 0, 0, 0, 0] })
    );
    assert_eq!(driver.take_report(), None);
    assert_eq!(driver.run(&mut host, &mut device), Ok(()));
    assert_eq!(driver.take_report(), None);
    assert_eq!(host.ins, vec![(1, 0x81), (1, 0x81), (1, 0x81)]);
    // a failed request leaves the device where it is
    device.set_state(DeviceState::SetInterface(3, 0));
    host.fail = Some((RequestCode::SetInterface, HostError::Stall));
    assert_eq!(
        driver.run(&mut host, &mut device),
        Err(UsbError::SetInterface(device.ep_props(), HostError::Stall))
    );
    assert_eq!(device.state(), DeviceState::SetInterface(3, 0));
    // a device that is not a keyboard of the driver is left alone
    let mut other = Device::new(8);
    host.fail = None;
    other.set_address(&mut host, DevAddress::from_u8(9)).unwrap();
    other.set_state(DeviceState::Running);
    host.ins.clear();
    assert_eq!(driver.run(&mut host, &mut other), Ok(()));
    assert!(host.ins.is_empty());
}

#[test]
fn keyboard_reports_from_bytes() {
    assert_eq!(BootKbdPacket::from_bytes(&[0; 8]), None);
    assert_eq!(
        BootKbdPacket::from_bytes(&[0, 0, 0, 0, 0, 0, 0, 1]),
        Some(BootKbdPacket { modifiers: 0, r0: 0, keys: [0, 0, 0, 0, 0, 1] })
    );
    assert_eq!(
        BootKbdPacket::from_bytes(&[1, 2, 3, 4, 5, 6, 7, 8]),
        Some(BootKbdPacket { modifiers: 1, r0: 2, keys: [3, 4, 5, 6, 7, 8] })
    );
    assert_eq!(BootKbdPacket::default(), BootKbdPacket { modifiers: 0, r0: 0, keys: [0; 6] });
}

#[test]
fn midi_interface_is_found() {
    let conf = midi_configuration();
    let mut parser = DescriptorParser::new(&conf);
    assert_eq!(find_midi_interface(&mut parser), Some((2, 1)));
    let driver = UsbMidiDriver::new();
    let mut device = Device::new(64);
    parser.rewind();
    assert_eq!(driver.name(), "UsbMidi");
    assert_eq!(driver.accept(&mut device, &mut parser), Some((DeviceClass::Audio, 2, 1)));
    let keyboard = keyboard_configuration();
    let mut parser = DescriptorParser::new(&keyboard);
    assert_eq!(driver.accept(&mut device, &mut parser), None);
    // the interface without a configuration
    let mut parser = DescriptorParser::new(&conf[9..]);
    assert_eq!(find_midi_interface(&mut parser), None);
    // a second MIDI interface ends the search: a configuration behind it does not count
    let mut two = conf[18..27].to_vec();
    two.extend_from_slice(&conf[18..27]);
    two.extend_from_slice(&conf[..9]);
    let mut parser = DescriptorParser::new(&two);
    assert_eq!(find_midi_interface(&mut parser), None);
    match DescriptorParser::new(&conf[18..]).next() {
        Some(embedded_usb_host::parser::DescriptorRef::Interface(i)) => {
            assert!(is_midi_interface(&i))
        }
        _ => panic!(),
    }
}

#[test]
fn midi_device_gets_a_port_for_each_embedded_jack() {
    let mut host = ScriptedHost::new();
    let mut driver = UsbMidiDriver::new();
    let mut device = Device::new(64);
    device.set_address(&mut host, DevAddress::from_u8(7)).unwrap();
    let conf = midi_configuration();
    let mut parser = DescriptorParser::new(&conf);
    assert_eq!(driver.register(&mut device, &mut parser), Ok(()));
    let d = driver.device(DevAddress::from_u8(7)).unwrap();
    assert_eq!(d.jack_count, 4);
    assert_eq!(
        &d.jacks[..4],
        &[
            JackPort { out: false, jack_id: 1, port_id: 0 },
            JackPort { out: false, jack_id: 2, port_id: 1 },
            JackPort { out: true, jack_id: 3, port_id: 2 },
            JackPort { out: true, jack_id: 4, port_id: 3 },
        ]
    );
    let ep_in = d.ep_in.unwrap();
    let ep_out = d.ep_out.unwrap();
    assert_eq!((u8::from(ep_in.endpoint_address()), ep_in.max_packet_size()), (0x81, 32));
    assert_eq!((u8::from(ep_out.endpoint_address()), ep_out.max_packet_size()), (0x02, 64));
    assert_eq!(ep_in.device_address().number(), 7);
    assert_eq!(d.port_of_jack(2, false), Some(1));
    assert_eq!(d.port_of_jack(2, true), None);
    assert_eq!(d.port_of_jack(9, false), None);
    assert_eq!(d.jack_of_port(3, true), Some(4));
    assert_eq!(d.jack_of_port(3, false), None);
    // the ports of the next device are numbered on
    let mut second = Device::new(64);
    second.set_address(&mut host, DevAddress::from_u8(8)).unwrap();
    parser.rewind();
    assert_eq!(driver.register(&mut second, &mut parser), Ok(()));
    assert_eq!(driver.device(DevAddress::from_u8(8)).unwrap().jacks[0].port_id, 4);
    driver.unregister(DevAddress::from_u8(7));
    assert!(driver.device(DevAddress::from_u8(7)).is_none());
    assert!(driver.device(DevAddress::from_u8(8)).is_some());
}

#[test]
fn midi_jacks_without_their_endpoint_get_no_port() {
    let mut host = ScriptedHost::new();
    let mut driver = UsbMidiDriver::new();
    let mut device = Device::new(64);
    device.set_address(&mut host, DevAddress::from_u8(7)).unwrap();
    let conf = midi_configuration();
    // without the endpoint to the host
    let mut parser = DescriptorParser::new(&conf[..conf.len() - 12]);
    assert_eq!(driver.register(&mut device, &mut parser), Ok(()));
    let d = driver.device(DevAddress::from_u8(7)).unwrap();
    assert!(d.ep_in.is_none());
    assert_eq!(
        &d.jacks[..d.jack_count],
        &[
            JackPort { out: true, jack_id: 3, port_id: 0 },
            JackPort { out: true, jack_id: 4, port_id: 1 },
        ]
    );
}

#[test]
fn midi_device_with_too_much() {
    let mut host = ScriptedHost::new();
    let mut driver = UsbMidiDriver::new();
    let mut device = Device::new(64);
    device.set_address(&mut host, DevAddress::from_u8(7)).unwrap();
    let conf = midi_configuration();
    let mut three = conf.clone();
    three.extend_from_slice(&[0x07, 0x05, 0x83, 0x02, 0x20, 0x00, 0x00]);
    let mut parser = DescriptorParser::new(&three);
    assert_eq!(driver.register(&mut device, &mut parser), Err(UsbError::TooManyEndpoints));
    let mut jacks = conf.clone();
    for id in 10..13u8 {
        jacks.extend_from_slice(&[0x06, 0x24, 0x02, 0x01, id, 0x00]);
    }
    let mut parser = DescriptorParser::new(&jacks);
    assert_eq!(driver.register(&mut device, &mut parser), Err(UsbError::OutOfRange));
    assert!(driver.device(DevAddress::from_u8(7)).is_none());
    for addr in 1..=17u8 {
        let mut device = Device::new(64);
        device.set_address(&mut host, DevAddress::from_u8(addr)).unwrap();
        let mut parser = DescriptorParser::new(&conf);
        let r = driver.register(&mut device, &mut parser);
        if addr <= 16 {
            assert_eq!(r, Ok(()));
        } else {
            assert_eq!(r, Err(UsbError::TooManyDevices));
        }
    }
}

#[test]
fn midi_packets_are_carried() {
    let mut host = ScriptedHost::new();
    let mut driver = UsbMidiDriver::new();
    let mut device = Device::new(64);
    device.set_address(&mut host, DevAddress::from_u8(7)).unwrap();
    let conf = midi_configuration();
    let mut parser = DescriptorParser::new(&conf);
    driver.register(&mut device, &mut parser).unwrap();
    device.set_state(DeviceState::Running);
    // to the device: port 3 is the MIDI OUT jack 4, port 0 is a MIDI IN jack, port 9 is unknown
    assert!(driver.send(3, [0x09, 0x90, 0x40, 0x7f]));
    assert!(driver.send(0, [0x09, 0x90, 0x41, 0x7f]));
    assert!(driver.send(2, [0xf8, 0x80, 0x40, 0x00]));
    assert!(driver.send(9, [0x09, 0x90, 0x42, 0x7f]));
    // from the device: cable 2, cable 1, cable 3 which is no MIDI IN jack, and half a packet
    host.in_data = vec![Ok(vec![
        0x29, 0x90, 0x30, 0x10, 0x18, 0x80, 0x31, 0x00, 0x39, 0x90, 0x32, 0x10, 0x29, 0x90,
    ])];
    assert_eq!(driver.run(&mut host, &mut device), Ok(()));
    assert_eq!(
        host.outs,
        vec![(7, 0x02, vec![0x49, 0x90, 0x40, 0x7f]), (7, 0x02, vec![0x38, 0x80, 0x40, 0x00])]
    );
    assert_eq!(host.ins, vec![(7, 0x81)]);
    assert_eq!(driver.receive(), Some(MidiEvent { port_id: 1, packet: [0x29, 0x90, 0x30, 0x10] }));
    assert_eq!(driver.receive(), Some(MidiEvent { port_id: 0, packet: [0x18, 0x80, 0x31, 0x00] }));
    assert_eq!(driver.receive(), None);
    // the toggles of the endpoints are kept
    let d = driver.device(DevAddress::from_u8(7)).unwrap();
    assert!(d.ep_in.unwrap().toggle());
    assert!(!d.ep_out.unwrap().toggle());
    // the packets for other ports wait
    host.outs.clear();
    assert_eq!(driver.run(&mut host, &mut device), Ok(()));
    assert!(host.outs.is_empty());
    // a device that the driver does not have
    let mut other = Device::new(64);
    host.ins.clear();
    assert_eq!(driver.run(&mut host, &mut other), Ok(()));
    assert!(host.ins.is_empty());
}

#[test]
fn midi_queue_is_limited() {
    let mut driver = UsbMidiDriver::new();
    for i in 0..16u8 {
        assert!(driver.send(1, [i, 0, 0, 0]));
    }
    assert!(!driver.send(1, [16, 0, 0, 0]));
}

#[test]
fn cable_numbers() {
    assert_eq!(cable_number(&[0x3b, 1, 2, 3]), 3);
    assert_eq!(cable_number(&[0xf0, 0, 0, 0]), 15);
    assert_eq!(with_cable_number(&[0x3b, 1, 2, 3], 0), [0x0b, 1, 2, 3]);
    assert_eq!(with_cable_number(&[0x0b, 1, 2, 3], 15), [0xfb, 1, 2, 3]);
    assert_eq!(with_cable_number(&[0x0b, 1, 2, 3], 0x1a), [0xab, 1, 2, 3]);
}

#[test]
fn events_of_the_host() {
    let mut stack: UsbStack<ScriptedHost, Recorder> = UsbStack::new(ScriptedHost::new());
    assert_eq!(stack.handle_event(None), Ok(()));
    assert_eq!(stack.device_count(), 0);
    assert_eq!(stack.handle_event(Some(HostEvent::Ready)), Ok(()));
    assert_eq!(stack.device_count(), 1);
    let (device, driver) = stack.device(0).unwrap();
    assert_eq!(device.state(), DeviceState::SetAddress);
    assert_eq!(device.max_packet_size(), 64);
    assert_eq!(driver, None);
    assert_eq!(stack.handle_event(Some(HostEvent::Reset)), Ok(()));
    assert_eq!(stack.device_count(), 0);
    for _ in 0..16 {
        assert_eq!(stack.handle_event(Some(HostEvent::Ready)), Ok(()));
    }
    assert_eq!(stack.handle_event(Some(HostEvent::Ready)), Err(UsbError::TooManyDevices));
    stack.update_devices();
    assert_eq!(stack.device(15).unwrap().0.device_address().number(), 16);
}

#[test]
fn places_without_a_device() {
    let mut stack: UsbStack<ScriptedHost, Recorder> = UsbStack::new(ScriptedHost::new());
    assert_eq!(stack.update_dev(0), Err(UsbError::OutOfRange));
    assert_eq!(stack.configure_dev(0), Err(UsbError::OutOfRange));
    stack.fail_device(0, UsbError::Driver);
    stack.attach(8).unwrap();
    assert_eq!(stack.update_dev(1), Err(UsbError::OutOfRange));
    // a device without an address is asked at the address zero; no driver is there to take it
    assert_eq!(stack.configure_dev(0), Ok(None));
    assert_eq!(stack.device(0).unwrap().0.state(), DeviceState::SetAddress);
    assert_eq!(stack.device(0).unwrap().0.device_address().number(), 0);
    assert_eq!(stack.device(0).unwrap().1, None);
    stack.fail_device(0, UsbError::Driver);
    assert_eq!(stack.device(0).unwrap().0.error(), Some(UsbError::Driver));
    assert_eq!(stack.update_dev(0), Ok(()));
    assert_eq!(stack.device(0).unwrap().0.device_address().number(), 0);
}

#[test]
fn select_driver_asks_in_order() {
    let mut stack = UsbStack::new(ScriptedHost::new());
    let mut device = Device::new(8);
    let conf = keyboard_configuration();
    assert_eq!(stack.select_driver(&mut device, &conf), None);
    stack.add_driver(Recorder::new(false)).unwrap();
    assert_eq!(stack.select_driver(&mut device, &conf), None);
    stack.add_driver(Recorder::new(false)).unwrap();
    stack.add_driver(Recorder::new(true)).unwrap();
    stack.add_driver(Recorder::new(true)).unwrap();
    assert_eq!(stack.select_driver(&mut device, &conf), Some((2, 1, 7)));
    assert_eq!(device, Device::new(8));
}

#[test]
fn keyboard_and_midi_drivers_choose_by_the_configuration() {
    let mut device = Device::new(8);
    let mut keyboards = UsbStack::new(ScriptedHost::new());
    keyboards.add_driver(BootKbdDriver::new()).unwrap();
    assert_eq!(keyboards.select_driver(&mut device, &keyboard_configuration()), Some((0, 1, 0)));
    assert_eq!(keyboards.select_driver(&mut device, &midi_configuration()), None);
    let mut midi = UsbStack::new(ScriptedHost::new());
    midi.add_driver(UsbMidiDriver::new()).unwrap();
    assert_eq!(midi.select_driver(&mut device, &midi_configuration()), Some((0, 2, 1)));
    assert_eq!(midi.select_driver(&mut device, &keyboard_configuration()), None);
    assert_eq!(midi.select_driver(&mut device, &[]), None);
}

#[test]
fn midi_routing_by_hand() {
    let mut host = ScriptedHost::new();
    let mut driver = UsbMidiDriver::new();
    let mut device = Device::new(64);
    device.set_address(&mut host, DevAddress::from_u8(7)).unwrap();
    let conf = midi_configuration();
    let mut parser = DescriptorParser::new(&conf);
    driver.register(&mut device, &mut parser).unwrap();
    let d = driver.device(DevAddress::from_u8(7)).unwrap();
    assert_eq!(driver.take_outgoing(&d), None);
    assert!(driver.send(1, [0x0f, 1, 1, 1]));
    assert!(driver.send(2, [0x0f, 2, 2, 2]));
    assert!(driver.send(3, [0xff, 3, 3, 3]));
    assert_eq!(driver.take_outgoing(&d), Some([0x3f, 2, 2, 2]));
    assert_eq!(driver.take_outgoing(&d), Some([0x4f, 3, 3, 3]));
    assert_eq!(driver.take_outgoing(&d), None);
    driver.route_received(&d, &[0x10, 1, 2, 3, 0x00, 4, 5, 6, 0x20, 7, 8, 9, 0x10]);
    assert_eq!(driver.receive(), Some(MidiEvent { port_id: 0, packet: [0x10, 1, 2, 3] }));
    assert_eq!(driver.receive(), Some(MidiEvent { port_id: 1, packet: [0x20, 7, 8, 9] }));
    assert_eq!(driver.receive(), None);
    driver.route_received(&d, &[0x10, 1, 2]);
    driver.route_received(&d, &[]);
    assert_eq!(driver.receive(), None);
    // packets beyond the room of the queue are dropped
    let mut flood = Vec::new();
    for i in 0..20u8 {
        flood.extend_from_slice(&[0x10, i, 0, 0]);
    }
    driver.route_received(&d, &flood);
    for i in 0..16u8 {
        assert_eq!(driver.receive(), Some(MidiEvent { port_id: 0, packet: [0x10, i, 0, 0] }));
    }
    assert_eq!(driver.receive(), None);
}

#[test]
fn keyboard_report_is_kept_until_taken() {
    let mut driver = BootKbdDriver::new();
    driver.report_received(&[0; 8]);
    assert_eq!(driver.take_report(), None);
    driver.report_received(&[1, 0, 4, 0, 0, 0, 0, 0]);
    driver.report_received(&[0; 8]);
    assert_eq!(
        driver.take_report(),
        Some(BootKbdPacket { modifiers: 1, r0: 0, keys: [4, 0, 0, 0, 0, 0] })
    );
    driver.report_received(&[1, 0, 4, 0, 0, 0, 0, 0]);
    driver.report_received(&[0, 0, 5, 0, 0, 0, 0, 0]);
    assert_eq!(
        driver.take_report(),
        Some(BootKbdPacket { modifiers: 0, r0: 0, keys: [5, 0, 0, 0, 0, 0] })
    );
}

#[test]
fn keyboard_and_midi_drivers_side_by_side() {
    let mut stack = UsbStack::new(ScriptedHost::new());
    stack.add_driver(ClassDriver::Midi(UsbMidiDriver::new())).unwrap();
    stack.add_driver(ClassDriver::Keyboard(BootKbdDriver::new())).unwrap();
    let mut device = Device::new(8);
    assert_eq!(stack.select_driver(&mut device, &keyboard_configuration()), Some((1, 1, 0)));
    assert_eq!(stack.select_driver(&mut device, &midi_configuration()), Some((0, 2, 1)));
    assert_eq!(stack.select_driver(&mut device, &[]), None);
    assert_eq!(ClassDriver::Keyboard(BootKbdDriver::new()).name(), BootKbdDriver::new().name());
    assert_eq!(ClassDriver::Midi(UsbMidiDriver::new()).name(), UsbMidiDriver::new().name());
}

#[test]
fn keyboard_finds_its_driver_among_drivers_of_two_kinds() {
    let mut stack = UsbStack::new(late(ScriptedHost::new()));
    stack.add_driver(ClassDriver::Midi(UsbMidiDriver::new())).unwrap();
    stack.add_driver(ClassDriver::Keyboard(BootKbdDriver::new())).unwrap();
    stack.update().unwrap();
    stack.update().unwrap();
    let (device, driver) = stack.device(0).unwrap();
    assert_eq!(driver, Some(1));
    assert_eq!(device.state(), DeviceState::SetInterface(0, 2010));
    stack.update().unwrap();
    assert_eq!(stack.device(0).unwrap().0.state(), DeviceState::Running);
    stack.update().unwrap();
    assert_eq!(stack.device(0).unwrap().0.error(), None);
}

#[test]
fn midi_device_finds_its_driver_among_drivers_of_two_kinds() {
    let mut host = ScriptedHost::new();
    host.configuration = midi_configuration();
    let mut stack = UsbStack::new(late(host));
    stack.add_driver(ClassDriver::Keyboard(BootKbdDriver::new())).unwrap();
    stack.add_driver(ClassDriver::Midi(UsbMidiDriver::new())).unwrap();
    stack.update().unwrap();
    stack.update().unwrap();
    let (device, driver) = stack.device(0).unwrap();
    assert_eq!(driver, Some(1));
    assert_eq!(device.state(), DeviceState::Running);
    stack.update().unwrap();
    assert_eq!(stack.device(0).unwrap().0.error(), None);
}

#[test]
fn driver_of_either_kind_is_handed_each_call() {
    let mut host = ScriptedHost::new();
    let mut device = Device::new(64);
    device.set_address(&mut host, DevAddress::from_u8(7)).unwrap();
    let conf = midi_configuration();
    let mut driver = ClassDriver::Midi(UsbMidiDriver::new());
    let mut parser = DescriptorParser::new(&conf);
    assert_eq!(driver.accept(&mut device, &mut parser), Some((DeviceClass::Audio, 2, 1)));
    let mut parser = DescriptorParser::new(&conf);
    driver.register(&mut device, &mut parser).unwrap();
    assert_eq!(driver.state_after_config_set(&mut host, &mut device), DeviceState::Running);
    device.set_state(DeviceState::Running);
    if let ClassDriver::Midi(m) = &mut driver {
        assert!(m.device(DevAddress::from_u8(7)).is_some());
        assert!(m.send(3, [0x09, 0x90, 0x40, 0x7f]));
    } else {
        panic!("a MIDI driver");
    }
    assert_eq!(driver.run(&mut host, &mut device), Ok(()));
    assert_eq!(host.outs, vec![(7, 0x02, vec![0x49, 0x90, 0x40, 0x7f])]);
    driver.unregister(DevAddress::from_u8(7));
    match &driver {
        ClassDriver::Midi(m) => assert!(m.device(DevAddress::from_u8(7)).is_none()),
        _ => panic!("a MIDI driver"),
    }
    // the same with a keyboard
    let conf = keyboard_configuration();
    let mut keyboard = Device::new(8);
    keyboard.set_address(&mut host, DevAddress::from_u8(1)).unwrap();
    let mut driver = ClassDriver::Keyboard(BootKbdDriver::new());
    let mut parser = DescriptorParser::new(&conf);
    assert_eq!(driver.accept(&mut keyboard, &mut parser), Some((DeviceClass::Hid, 1, 0)));
    let mut parser = DescriptorParser::new(&conf);
    driver.register(&mut keyboard, &mut parser).unwrap();
    assert_eq!(
        driver.state_after_config_set(&mut host, &mut keyboard),
        DeviceState::SetInterface(0, 10)
    );
    keyboard.set_state(DeviceState::Running);
    host.in_data = vec![Ok(vec![2, 0, 4, 5, 0, 0, 0, 0])];
    assert_eq!(driver.run(&mut host, &mut keyboard), Ok(()));
    match &mut driver {
        ClassDriver::Keyboard(k) => assert_eq!(
            k.take_report(),
            Some(BootKbdPacket { modifiers: 2, r0: 0, keys: [4, 5, 0, 0, 0, 0] })
        ),
        _ => panic!("a keyboard driver"),
    }
}

#[test]
fn midi_device_runs_once_it_is_configured() {
    let mut host = ScriptedHost::new();
    let driver = UsbMidiDriver::new();
    let mut device = Device::new(64);
    device.set_address(&mut host, DevAddress::from_u8(7)).unwrap();
    let before = device;
    host.controls.clear();
    host.time = 77;
    assert_eq!(driver.state_after_config_set(&mut host, &mut device), DeviceState::Running);
    // neither the device nor the host is touched
    assert_eq!(device, before);
    assert!(host.controls.is_empty());
    // a keyboard waits 10 ms from now for its protocol
    let keyboard = BootKbdDriver::new();
    assert_eq!(
        keyboard.state_after_config_set(&mut host, &mut device),
        DeviceState::SetInterface(0, 87)
    );
    assert_eq!(device, before);
    assert!(host.controls.is_empty());
}
