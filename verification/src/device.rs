//! A device on the bus: its address, its place in the lifecycle, and the
//! control requests that move it through enumeration.
use crate::address::{lemma_same_number, DevAddress};
use crate::class::DeviceClass;
use crate::control::{
    RequestCode, RequestDirection, RequestKind, RequestRecipient, RequestType, WValue,
};
use crate::descriptor::{
    ConfigurationDescriptor, DescriptorType, DeviceDescriptor, CONFIGURATION_DESCRIPTOR_LEN,
    DEVICE_DESCRIPTOR_LEN,
};
use crate::endpoint::{DataToggle, EndpointProperties, EpAddress, EpProps, HostEndpoint};
use crate::host::{
    followed, ControlCall, HostAnswer, HostCall, HostLog, HostStep, Transferred, UsbHost,
};
use crate::parser::{DescriptorParser, ParserView};
use crate::{ConfigNum, HostError, InterfaceNum, MaxPacketSize, TransferType, UsbError};
use vstd::prelude::*;

verus! {

/// How long a device is left alone after it was given its address and after
/// its configuration was selected, in milliseconds. cf §9.2.6.3 of USB 2.0
pub const SETTLE_DELAY: u64 = 10;

/// Where a device stands in its lifecycle.
#[derive(Clone, Copy, Debug, PartialEq, Eq, Structural)]
pub enum DeviceState {
    /// Device needs an address
    SetAddress,
    /// Device needs a configuration to be selected, once the time has come
    SetConfig(u64),
    /// HID
    /// Device needs an interface to be selected (maybe), once the time has
    /// come
    SetInterface(InterfaceNum, u64),
    /// HID
    SetReport(InterfaceNum),
    /// HID
    SetIdle,
    /// Device is active and polled
    Running,
    /// No driver
    Orphan,
}

/// What the stack does with a device at a turn.
#[derive(Clone, Copy, Debug, PartialEq, Eq, Structural)]
pub enum LifecycleAction {
    /// The device is left alone
    Nothing,
    /// The device is given an address
    Address,
    /// The device is given a driver and configured, once the time has come
    ConfigureAfter(u64),
    /// The driver of the device is run
    Run,
}

/// What the stack does at a turn with a device in the state `state`: a
/// device that has failed or has no driver is left alone; one without an
/// address is given one; one with an address is configured once it has
/// settled; in every other state the device belongs to its driver.
pub open spec fn lifecycle_action(state: DeviceState, failed: bool) -> LifecycleAction {
    if failed {
        LifecycleAction::Nothing
    } else {
        match state {
            DeviceState::SetAddress => LifecycleAction::Address,
            DeviceState::SetConfig(until) => LifecycleAction::ConfigureAfter(until),
            DeviceState::Orphan => LifecycleAction::Nothing,
            _ => LifecycleAction::Run,
        }
    }
}

/// The requests that enumeration makes of a device.
#[derive(Clone, Copy, Debug, PartialEq, Eq, Structural)]
pub enum DeviceOps {
    SetAddress(DevAddress),
    SetConfig(ConfigNum),
    SetInterface(InterfaceNum),
    GetConfigDescriptor(ConfigNum),
    GetDeviceDescriptor,
}

/// The fields of a control request that the caller chooses; the length is
/// that of the buffer.
#[derive(Clone, Copy, Debug)]
pub struct ControlRequest {
    pub bm_request_type: RequestType,
    pub b_request: RequestCode,
    pub w_value: WValue,
    pub w_index: u16,
}

impl ControlRequest {
    /// Whether the request has these parts.
    pub open spec fn is(
        self,
        dir: RequestDirection,
        kind: RequestKind,
        recip: RequestRecipient,
        code: RequestCode,
        lo: u8,
        hi: u8,
        index: u16,
    ) -> bool {
        &&& self.bm_request_type.spec_direction() == Some(dir)
        &&& self.bm_request_type.spec_kind() == Some(kind)
        &&& self.bm_request_type.spec_recipient() == Some(recip)
        &&& self.b_request == code
        &&& self.w_value.spec_lo() == lo
        &&& self.w_value.spec_hi() == hi
        &&& self.w_index == index
    }

    /// `GET_DESCRIPTOR` for the descriptor of the type `desc_type` with the
    /// index `desc_index`.
    pub open spec fn spec_get_descriptor(desc_type: DescriptorType, desc_index: u8) -> Self {
        ControlRequest {
            bm_request_type: RequestType::of_parts(
                RequestDirection::DeviceToHost,
                RequestKind::Standard,
                RequestRecipient::Device,
            ),
            b_request: RequestCode::GetDescriptor,
            w_value: WValue::of_lo_hi(desc_index, desc_type.code()),
            w_index: 0,
        }
    }

    /// A request without data from the host to `recip`, standard or of the
    /// class.
    pub open spec fn spec_set(kind: RequestKind, code: RequestCode, recip: RequestRecipient, lo_val: u8, hi_val: u8, windex: u16) -> Self {
        ControlRequest {
            bm_request_type: RequestType::of_parts(RequestDirection::HostToDevice, kind, recip),
            b_request: code,
            w_value: WValue::of_lo_hi(lo_val, hi_val),
            w_index: windex,
        }
    }

    /// `GET_DESCRIPTOR` for the descriptor of the type `desc_type` with the
    /// index `desc_index`: a standard request to the device, with the index
    /// in the low byte of the value and the type in the high byte.
    pub fn get_descriptor(desc_type: DescriptorType, desc_index: u8) -> (r: Self)
        ensures
            r == ControlRequest::spec_get_descriptor(desc_type, desc_index),
            r.is(
                RequestDirection::DeviceToHost,
                RequestKind::Standard,
                RequestRecipient::Device,
                RequestCode::GetDescriptor,
                desc_index,
                desc_type.code(),
                0,
            ),
    {
        ControlRequest {
            bm_request_type: RequestType::from(
                (
                    RequestDirection::DeviceToHost,
                    RequestKind::Standard,
                    RequestRecipient::Device,
                ),
            ),
            b_request: RequestCode::GetDescriptor,
            w_value: WValue::lo_hi(desc_index, desc_type.bits()),
            w_index: 0,
        }
    }

    /// A standard request without data from the host to `recip`.
    pub fn set(code: RequestCode, recip: RequestRecipient, lo_val: u8, hi_val: u8, windex: u16) -> (r: Self)
        ensures
            r == ControlRequest::spec_set(RequestKind::Standard, code, recip, lo_val, hi_val, windex),
            r.is(
                RequestDirection::HostToDevice,
                RequestKind::Standard,
                recip,
                code,
                lo_val,
                hi_val,
                windex,
            ),
    {
        ControlRequest {
            bm_request_type: RequestType::from(
                (RequestDirection::HostToDevice, RequestKind::Standard, recip),
            ),
            b_request: code,
            w_value: WValue::lo_hi(lo_val, hi_val),
            w_index: windex,
        }
    }

    /// A class request without data from the host to `recip`.
    pub fn set_class(
        code: RequestCode,
        recip: RequestRecipient,
        lo_val: u8,
        hi_val: u8,
        windex: u16,
    ) -> (r: Self)
        ensures
            r == ControlRequest::spec_set(RequestKind::Class, code, recip, lo_val, hi_val, windex),
            r.is(
                RequestDirection::HostToDevice,
                RequestKind::Class,
                recip,
                code,
                lo_val,
                hi_val,
                windex,
            ),
    {
        ControlRequest {
            bm_request_type: RequestType::from(
                (RequestDirection::HostToDevice, RequestKind::Class, recip),
            ),
            b_request: code,
            w_value: WValue::lo_hi(lo_val, hi_val),
            w_index: windex,
        }
    }
}

/// An endpoint that takes control requests.
pub trait ControlEndpoint: HostEndpoint {
    /// Retrieve descriptor(s): makes the request
    /// [`ControlRequest::get_descriptor`] with `buffer` for the data, and
    /// returns the number of bytes read or what the host failed with.
    fn control_get_descriptor<H: UsbHost>(
        &mut self,
        host: &mut H,
        desc_type: DescriptorType,
        desc_index: u8,
        buffer: &mut [u8],
    ) -> (r: Result<usize, UsbError>)
        ensures
            *final(self) == old(self).spec_with_toggle(final(self).spec_toggle()),
            final(buffer)@.len() == old(buffer)@.len(),
            match r {
                Ok(n) => n <= old(buffer)@.len(),
                Err(e) => (e matches UsbError::GetDescriptor(p, _) && p == old(self).spec_ep_props()),
            },
    ;

    /// Generic control write: makes the request [`ControlRequest::set`]
    /// without data.
    fn control_set<H: UsbHost>(
        &mut self,
        host: &mut H,
        code: RequestCode,
        recip: RequestRecipient,
        lo_val: u8,
        hi_val: u8,
        windex: u16,
    ) -> (r: Result<(), HostError>)
        ensures
            *final(self) == old(self).spec_with_toggle(final(self).spec_toggle()),
    ;

    /// Generic class write: makes the request [`ControlRequest::set_class`]
    /// without data.
    fn control_set_class<H: UsbHost>(
        &mut self,
        host: &mut H,
        code: RequestCode,
        recip: RequestRecipient,
        lo_val: u8,
        hi_val: u8,
        windex: u16,
    ) -> (r: Result<(), HostError>)
        ensures
            *final(self) == old(self).spec_with_toggle(final(self).spec_toggle()),
    ;
}

/// The control transfer that the device `d` asks of a host with the request
/// `req` and a buffer that holds `data`.
pub open spec fn control_call(d: Device, req: ControlRequest, data: Option<Seq<u8>>) -> HostCall {
    HostCall::Control(
        ControlCall {
            ep: d.spec_ep_props(),
            max_packet_size: d.spec_max_packet_size(),
            toggle: d.spec_toggle(),
            bm_request_type: req.bm_request_type,
            b_request: req.b_request,
            w_value: req.w_value,
            w_index: req.w_index,
            data,
        },
    )
}

/// Whether the device `d0` made the request `req` of the host `h0` with a
/// buffer that held `data`, and the host answered with `t`: the host is `h1`
/// afterwards and the device `d1`, which differs from `d0` in the data
/// toggle at most; the buffer is as long as before, and no more bytes were
/// transferred than it has.
pub open spec fn asked<H: UsbHost>(
    h0: H,
    h1: H,
    d0: Device,
    d1: Device,
    req: ControlRequest,
    data: Option<Seq<u8>>,
    t: Transferred,
) -> bool {
    &&& h0.answers(control_call(d0, req, data), h1, HostAnswer::Transferred(t))
    &&& d1 == d0.spec_with_toggle(t.toggle)
    &&& match data {
        Some(before) => t.data matches Some(after) && after.len() == before.len() && (
        t.result matches Ok(n) ==> n <= before.len()),
        None => t.data is None && (t.result matches Ok(n) ==> n == 0),
    }
}

/// What `control_get_descriptor` returns when the host returned `r`.
pub open spec fn descriptor_result(props: EpProps, r: Result<usize, HostError>) -> Result<usize, UsbError> {
    match r {
        Ok(n) => Ok(n),
        Err(e) => Err(UsbError::GetDescriptor(props, e)),
    }
}

/// What a request without data returns when the host returned `r`.
pub open spec fn set_result(r: Result<usize, HostError>) -> Result<(), HostError> {
    match r {
        Ok(_) => Ok(()),
        Err(e) => Err(e),
    }
}

/// `n` bytes that are zero.
pub open spec fn zeros(n: nat) -> Seq<u8> {
    Seq::new(n, |i: int| 0u8)
}

/// Whether `get_device_descriptor` on the device `d0` with the host `h0`
/// can lead to the device `d1`, the host `h1` and the result `r`, the host
/// having answered with `t`: the device asks for its device descriptor with
/// a buffer of 18 bytes. Where the host fails, the error names the endpoint;
/// else the bytes are read as a device descriptor, and the largest packet of
/// the control endpoint shrinks to what the descriptor allows.
pub open spec fn device_descriptor_read<H: UsbHost>(
    h0: H,
    h1: H,
    d0: Device,
    d1: Device,
    r: Result<DeviceDescriptor, UsbError>,
    t: Transferred,
) -> bool {
    let asked_device = d0.spec_with_toggle(t.toggle);
    &&& asked(
        h0,
        h1,
        d0,
        asked_device,
        ControlRequest::spec_get_descriptor(DescriptorType::Device, 0),
        Some(zeros(18)),
        t,
    )
    &&& match t.result {
        Ok(_) => r == device_descriptor_outcome(t.data.unwrap()) && d1@ == match r {
            Ok(desc) => DeviceView {
                max_packet_size: shrunk_packet_size(
                    asked_device@.max_packet_size,
                    desc.b_max_packet_size,
                ),
                ..asked_device@
            },
            Err(_) => asked_device@,
        },
        Err(e) => r == Err::<DeviceDescriptor, UsbError>(
            UsbError::GetDescriptor(d0.spec_ep_props(), e),
        ) && d1 == asked_device,
    }
}

/// What the host answered while a configuration was read: the host between
/// the two requests, the answer to the request for the head, and the answer
/// to the request for the whole.
pub struct ConfigurationTrace<H> {
    pub mid: H,
    pub head: Transferred,
    pub whole: Transferred,
}

/// Whether `get_configuration_descriptors` on the device `d0` with the host
/// `h0` and a buffer that holds `buf0` can lead to the device `d1`, the host
/// `h1`, the buffer `buf1` and the result `r`, the host having answered as
/// `tr` says. First the device asks for the head of the configuration with a
/// buffer of 9 bytes. Where the host fails, that is the result. Else the
/// head says how long the whole is, cf [`configuration_length_of`]; a head
/// that is none and a whole that is longer than the buffer are errors, and
/// the host is not asked again. Else the device asks for the configuration
/// anew with the first bytes of the buffer, as many as the whole has, and
/// the result is what the host returns then; the rest of the buffer stays.
pub open spec fn configuration_read<H: UsbHost>(
    h0: H,
    h1: H,
    d0: Device,
    d1: Device,
    cfg_idx: u8,
    buf0: Seq<u8>,
    buf1: Seq<u8>,
    r: Result<usize, UsbError>,
    tr: ConfigurationTrace<H>,
) -> bool {
    let req = ControlRequest::spec_get_descriptor(DescriptorType::Configuration, cfg_idx);
    let dm = d0.spec_with_toggle(tr.head.toggle);
    &&& asked(h0, tr.mid, d0, dm, req, Some(zeros(9)), tr.head)
    &&& match tr.head.result {
        Err(e) => r == Err::<usize, UsbError>(UsbError::GetDescriptor(d0.spec_ep_props(), e))
            && h1 == tr.mid && d1 == dm && buf1 == buf0,
        Ok(_) => match configuration_length_of(tr.head.data.unwrap(), buf0.len()) {
            Err(e) => r == Err::<usize, UsbError>(e) && h1 == tr.mid && d1 == dm && buf1 == buf0,
            Ok(total) => asked(
                tr.mid,
                h1,
                dm,
                d1,
                req,
                Some(buf0.subrange(0, total as int)),
                tr.whole,
            ) && buf1 == tr.whole.data.unwrap() + buf0.subrange(total as int, buf0.len() as int)
                && r == descriptor_result(d0.spec_ep_props(), tr.whole.result),
        },
    }
}

/// Whether `set_address` on the device `d0` with the host `h0` and the
/// address `addr` can lead to the device `d1`, the host `h1` and the result
/// `r`, the host having answered with `t` and with the time `settled` to the
/// question for the time `SETTLE_DELAY` from now. A device that has an
/// address asks nothing. Else the device makes the standard request
/// `SET_ADDRESS` with the number of the address; where the host fails, the
/// error names the endpoint, and else the device has the address and waits
/// until `settled` for its configuration.
pub open spec fn address_given<H: UsbHost>(
    h0: H,
    h1: H,
    d0: Device,
    d1: Device,
    addr: DevAddress,
    r: Result<(), UsbError>,
    t: Transferred,
    settled: u64,
) -> bool {
    if d0@.address@ != 0 {
        r == Err::<(), UsbError>(UsbError::AddressSet) && h1 == h0 && d1 == d0
    } else {
        let dm = d0.spec_with_toggle(t.toggle);
        &&& asked(
            h0,
            h1,
            d0,
            dm,
            ControlRequest::spec_set(
                RequestKind::Standard,
                RequestCode::SetAddress,
                RequestRecipient::Device,
                addr@,
                0,
                0,
            ),
            None,
            t,
        )
        &&& match t.result {
            Ok(_) => r is Ok && h1.answers(
                HostCall::AfterMillis(SETTLE_DELAY),
                h1,
                HostAnswer::Time(settled),
            ) && d1@ == (DeviceView {
                address: addr,
                state: DeviceState::SetConfig(settled),
                ..dm@
            }),
            Err(e) => r == Err::<(), UsbError>(UsbError::SetAddress(d0.spec_ep_props(), e)) && d1
                == dm,
        }
    }
}

/// Whether `set_configuration` on the device `d0` with the host `h0` and
/// the configuration `config_num` can lead to the device `d1`, the host `h1`
/// and the result `r`, the host having answered with `t`. Zero is no
/// configuration: the host is not asked. Else the device makes the standard
/// request `SET_CONFIGURATION` with the number of the configuration; where
/// the host fails, the error names the endpoint.
pub open spec fn configuration_selected<H: UsbHost>(
    h0: H,
    h1: H,
    d0: Device,
    d1: Device,
    config_num: u8,
    r: Result<(), UsbError>,
    t: Transferred,
) -> bool {
    if config_num == 0 {
        r == Err::<(), UsbError>(UsbError::InvalidConfig) && h1 == h0 && d1 == d0
    } else {
        &&& asked(
            h0,
            h1,
            d0,
            d1,
            ControlRequest::spec_set(
                RequestKind::Standard,
                RequestCode::SetConfiguration,
                RequestRecipient::Device,
                config_num,
                0,
                0,
            ),
            None,
            t,
        )
        &&& r == match t.result {
            Ok(_) => Ok(()),
            Err(e) => Err(UsbError::SetConfiguration(d0.spec_ep_props(), e)),
        }
    }
}

/// The request that `set_interface` makes: the class request
/// `SET_INTERFACE` to the interface `iface_num`, with the protocol in the low
/// byte of the value.
pub open spec fn interface_request(iface_num: u8, protocol: u8) -> ControlRequest {
    ControlRequest::spec_set(
        RequestKind::Class,
        RequestCode::SetInterface,
        RequestRecipient::Interface,
        protocol,
        0,
        iface_num as u16,
    )
}

/// Whether `set_interface` on the device `d0` with the host `h0` can lead
/// to the device `d1`, the host `h1` and the result `r`, the host having
/// answered with `t`: the device makes the class request `SET_INTERFACE` to
/// the interface `iface_num`, with the protocol in the low byte of the
/// value; where the host fails, the error names the endpoint.
pub open spec fn interface_selected<H: UsbHost>(
    h0: H,
    h1: H,
    d0: Device,
    d1: Device,
    iface_num: u8,
    protocol: u8,
    r: Result<(), UsbError>,
    t: Transferred,
) -> bool {
    &&& asked(h0, h1, d0, d1, interface_request(iface_num, protocol), None, t)
    &&& r == match t.result {
        Ok(_) => Ok(()),
        Err(e) => Err(UsbError::SetInterface(d0.spec_ep_props(), e)),
    }
}

/// A device on the bus. It is also its own control endpoint, endpoint 0.
#[derive(Debug, Clone, Copy, PartialEq, Eq, Structural)]
pub struct Device {
    device_address: DevAddress,
    state: DeviceState,
    max_packet_len: u16,
    toggle: bool,
    error: Option<UsbError>,
}

/// What a device holds.
pub struct DeviceView {
    /// The address: 0 until the device was given one.
    pub address: DevAddress,
    /// Where the device stands in its lifecycle.
    pub state: DeviceState,
    /// The largest packet of the control endpoint.
    pub max_packet_size: u16,
    /// The data toggle of the control endpoint.
    pub toggle: bool,
    /// The error that stopped the device, if one did.
    pub error: Option<UsbError>,
}

impl View for Device {
    type V = DeviceView;

    closed spec fn view(&self) -> DeviceView {
        DeviceView {
            address: self.device_address,
            state: self.state,
            max_packet_size: self.max_packet_len,
            toggle: self.toggle,
            error: self.error,
        }
    }
}

/// The device after the host had it for a transfer: as before, but for the
/// data toggle.
pub open spec fn after_transfer(before: DeviceView, after: DeviceView) -> bool {
    after == (DeviceView { toggle: after.toggle, ..before })
}

/// What `get_device_descriptor` makes of the 18 bytes that the device
/// returned: the descriptor, if the bytes hold one.
pub open spec fn device_descriptor_outcome(bytes: Seq<u8>) -> Result<DeviceDescriptor, UsbError> {
    match DeviceDescriptor::of_wire(bytes) {
        Some(d) => Ok(d),
        None => Err(UsbError::InvalidDescriptor),
    }
}

/// The largest packet of the control endpoint once the device has said what
/// its endpoint 0 takes: the smaller of the two.
pub open spec fn shrunk_packet_size(current: u16, b_max_packet_size: u8) -> u16 {
    if (b_max_packet_size as u16) < current {
        b_max_packet_size as u16
    } else {
        current
    }
}

impl Device {
    /// A device that was just attached: it has the address 0, needs an
    /// address, and talks in packets of at most `max_bus_packet_size` bytes.
    pub fn new(max_bus_packet_size: u16) -> (d: Self)
        ensures
            d@.address@ == 0,
            d@.state == DeviceState::SetAddress,
            d@.max_packet_size == max_bus_packet_size,
            !d@.toggle,
            d@.error is None,
    {
        Self {
            state: DeviceState::SetAddress,
            device_address: DevAddress::from_u8(0),
            max_packet_len: max_bus_packet_size,
            error: None,
            toggle: false,
        }
    }

    /// What the stack does with the device at this turn.
    pub fn action(&self) -> (a: LifecycleAction)
        ensures
            a == lifecycle_action(self@.state, self@.error is Some),
    {
        if self.error.is_some() {
            return LifecycleAction::Nothing;
        }
        match self.state {
            DeviceState::SetAddress => LifecycleAction::Address,
            DeviceState::SetConfig(until) => LifecycleAction::ConfigureAfter(until),
            DeviceState::Orphan => LifecycleAction::Nothing,
            _ => LifecycleAction::Run,
        }
    }

    /// Where the device stands in its lifecycle.
    pub fn state(&self) -> (s: DeviceState)
        ensures
            s == self@.state,
    {
        self.state
    }

    /// Puts the device at `state`.
    pub fn set_state(&mut self, state: DeviceState)
        ensures
            final(self)@ == (DeviceView { state, ..old(self)@ }),
    {
        self.state = state;
    }

    /// The error that stopped the device, if one did.
    pub fn error(&self) -> (e: Option<UsbError>)
        ensures
            e == self@.error,
    {
        self.error
    }

    /// Stops the device with `error`.
    pub fn set_error(&mut self, error: UsbError)
        ensures
            final(self)@ == (DeviceView { error: Some(error), ..old(self)@ }),
    {
        self.error = Some(error)
    }

    /// Takes in the bytes that the device returned for its device
    /// descriptor: the largest packet of the control endpoint shrinks to
    /// what the descriptor allows, if that is less. Bytes that hold no
    /// device descriptor change nothing.
    pub fn accept_device_descriptor(&mut self, bytes: &[u8]) -> (r: Result<
        DeviceDescriptor,
        UsbError,
    >)
        ensures
            r == device_descriptor_outcome(bytes@),
            match r {
                Ok(d) => final(self)@ == (DeviceView {
                    max_packet_size: shrunk_packet_size(
                        old(self)@.max_packet_size,
                        d.b_max_packet_size,
                    ),
                    ..old(self)@
                }),
                Err(_) => final(self)@ == old(self)@,
            },
            final(self)@.max_packet_size <= old(self)@.max_packet_size,
    {
        match DeviceDescriptor::from_bytes(bytes) {
            Some(dev_desc) => {
                if (dev_desc.b_max_packet_size as u16) < self.max_packet_len {
                    self.max_packet_len = dev_desc.b_max_packet_size as u16;
                }
                Ok(dev_desc)
            },
            None => Err(UsbError::InvalidDescriptor),
        }
    }

    /// Reads the device descriptor, and shrinks the largest packet of the
    /// control endpoint to what the descriptor allows, cf
    /// [`device_descriptor_read`].
    pub fn get_device_descriptor<H: UsbHost>(&mut self, host: &mut H) -> (r: Result<DeviceDescriptor, UsbError>)
        ensures
            exists|t: Transferred| #[trigger]
                device_descriptor_read(*old(host), *final(host), *old(self), *final(self), r, t),
            match r {
                Ok(d) => final(self)@ == (DeviceView {
                    toggle: final(self)@.toggle,
                    max_packet_size: shrunk_packet_size(
                        old(self)@.max_packet_size,
                        d.b_max_packet_size,
                    ),
                    ..old(self)@
                }),
                Err(e) => after_transfer(old(self)@, final(self)@) && (e
                    == UsbError::InvalidDescriptor || (e matches UsbError::GetDescriptor(p, _)
                    && p == old(self).spec_ep_props())),
            },
    {
        let mut raw = [0u8;18];
        assert(raw@ =~= zeros(18));
        let read = self.control_get_descriptor(host, DescriptorType::Device, 0, &mut raw);
        let ghost asked_device = *self;
        let ghost t = choose|t: Transferred|
            asked(
                *old(host),
                *host,
                *old(self),
                asked_device,
                ControlRequest::spec_get_descriptor(DescriptorType::Device, 0),
                Some(zeros(18)),
                t,
            ) && raw@ == t.data.unwrap() && read == descriptor_result(
                old(self).spec_ep_props(),
                t.result,
            );
        let r = match read {
            Ok(_) => self.accept_device_descriptor(&raw),
            Err(e) => Err(e),
        };
        proof {
            assert(device_descriptor_read(*old(host), *host, *old(self), *self, r, t));
        }
        r
    }

    /// Reads the configuration with the index `cfg_idx` and all that belongs
    /// to it into `buffer`, and returns the number of bytes read: first the
    /// head of the configuration, which says how long the whole is, then the
    /// whole, cf [`configuration_read`]. A configuration longer than `buffer`
    /// is not read.
    pub fn get_configuration_descriptors<H: UsbHost>(
        &mut self,
        host: &mut H,
        cfg_idx: u8,
        buffer: &mut [u8],
    ) -> (r: Result<usize, UsbError>)
        ensures
            exists|tr: ConfigurationTrace<H>| #[trigger]
                configuration_read(
                    *old(host),
                    *final(host),
                    *old(self),
                    *final(self),
                    cfg_idx,
                    old(buffer)@,
                    final(buffer)@,
                    r,
                    tr,
                ),
            after_transfer(old(self)@, final(self)@),
            final(buffer)@.len() == old(buffer)@.len(),
            match r {
                Ok(n) => n <= old(buffer)@.len(),
                Err(e) => e == UsbError::DescriptorTooBig || e == UsbError::InvalidDescriptor || (e
                    matches UsbError::GetDescriptor(p, _) && p == old(self).spec_ep_props()),
            },
    {
        let mut raw = [0u8;9];
        assert(raw@ =~= zeros(9));
        let ghost req = ControlRequest::spec_get_descriptor(DescriptorType::Configuration, cfg_idx);
        let first = self.control_get_descriptor(host, DescriptorType::Configuration, cfg_idx, &mut raw);
        let ghost dm = *self;
        let ghost hm = *host;
        let ghost head = choose|t: Transferred|
            asked(*old(host), hm, *old(self), dm, req, Some(zeros(9)), t) && raw@
                == t.data.unwrap() && first == descriptor_result(old(self).spec_ep_props(), t.result);
        proof {
            lemma_device_endpoint(*old(self), head.toggle);
        }
        match first {
            Ok(_) => {},
            Err(e) => {
                proof {
                    let tr = ConfigurationTrace { mid: hm, head, whole: head };
                    assert(configuration_read(
                        *old(host),
                        *host,
                        *old(self),
                        *self,
                        cfg_idx,
                        old(buffer)@,
                        buffer@,
                        Err::<usize, UsbError>(e),
                        tr,
                    ));
                }
                return Err(e);
            },
        }
        let total = match configuration_length(&raw, buffer.len()) {
            Ok(total) => total,
            Err(e) => {
                proof {
                    let tr = ConfigurationTrace { mid: hm, head, whole: head };
                    assert(configuration_read(
                        *old(host),
                        *host,
                        *old(self),
                        *self,
                        cfg_idx,
                        old(buffer)@,
                        buffer@,
                        Err::<usize, UsbError>(e),
                        tr,
                    ));
                }
                return Err(e);
            },
        };
        let ghost buf0 = buffer@;
        let (whole, _rest) = buffer.split_at_mut(total);
        let r = self.control_get_descriptor(host, DescriptorType::Configuration, cfg_idx, whole);
        proof {
            let answer = choose|t: Transferred|
                asked(hm, *host, dm, *self, req, Some(buf0.subrange(0, total as int)), t) && whole@
                    == t.data.unwrap() && r == descriptor_result(dm.spec_ep_props(), t.result);
            let tr = ConfigurationTrace { mid: hm, head, whole: answer };
            lemma_device_endpoint(dm, answer.toggle);
            assert(final(buffer)@ == answer.data.unwrap() + buf0.subrange(
                total as int,
                buf0.len() as int,
            ));
            assert(configuration_read(
                *old(host),
                *host,
                *old(self),
                *self,
                cfg_idx,
                old(buffer)@,
                final(buffer)@,
                r,
                tr,
            ));
        }
        r
    }

    /// Takes in what the host returned for `SET_ADDRESS`: on success the
    /// device has the address `dev_addr` and waits until `settled` for its
    /// configuration.
    pub fn address_set(
        &mut self,
        dev_addr: DevAddress,
        result: Result<(), HostError>,
        settled: u64,
    ) -> (r: Result<(), UsbError>)
        ensures
            match result {
                Ok(_) => r is Ok && final(self)@ == (DeviceView {
                    address: dev_addr,
                    state: DeviceState::SetConfig(settled),
                    ..old(self)@
                }),
                Err(e) => r == Err::<(), UsbError>(
                    UsbError::SetAddress(old(self).spec_ep_props(), e),
                ) && final(self)@ == old(self)@,
            },
    {
        match result {
            Ok(_) => {
                self.device_address = dev_addr;
                self.state = DeviceState::SetConfig(settled);
                Ok(())
            },
            Err(e) => Err(UsbError::SetAddress(self.ep_props(), e)),
        }
    }

    /// Gives the device the address `dev_addr`, cf [`address_given`]. A
    /// device that has an address is not asked: the error is `AddressSet`.
    /// On success the device waits 10 ms for its configuration.
    pub fn set_address<H: UsbHost>(&mut self, host: &mut H, dev_addr: DevAddress) -> (r: Result<(), UsbError>)
        ensures
            exists|t: Transferred, settled: u64| #[trigger]
                address_given(
                    *old(host),
                    *final(host),
                    *old(self),
                    *final(self),
                    dev_addr,
                    r,
                    t,
                    settled,
                ),
            old(self)@.address@ != 0 ==> r == Err::<(), UsbError>(UsbError::AddressSet) && *final(self) == *old(self) && *final(host) == *old(host),
            old(self)@.address@ == 0 ==> match r {
                Ok(_) => final(self)@.address == dev_addr && final(self)@.state is SetConfig
                    && final(self)@.max_packet_size == old(self)@.max_packet_size && final(self)@.error == old(self)@.error,
                Err(e) => after_transfer(old(self)@, final(self)@) && (e matches UsbError::SetAddress(
                    p,
                    _,
                ) && p == old(self).spec_ep_props()),
            },
    {
        if 0u8 == self.device_address.number() {
            let result = self.control_set(
                host,
                RequestCode::SetAddress,
                RequestRecipient::Device,
                dev_addr.number(),
                0,
                0,
            );
            let ghost dm = *self;
            let ghost t = choose|t: Transferred|
                asked(
                    *old(host),
                    *host,
                    *old(self),
                    dm,
                    ControlRequest::spec_set(
                        RequestKind::Standard,
                        RequestCode::SetAddress,
                        RequestRecipient::Device,
                        dev_addr@,
                        0,
                        0,
                    ),
                    None,
                    t,
                ) && result == set_result(t.result);
            let settled = match result {
                Ok(_) => host.after_millis(SETTLE_DELAY),
                Err(_) => 0,
            };
            let r = self.address_set(dev_addr, result, settled);
            proof {
                lemma_device_endpoint(*old(self), t.toggle);
                assert(address_given(*old(host), *host, *old(self), *self, dev_addr, r, t, settled));
            }
            r
        } else {
            proof {
                let t = Transferred { toggle: false, data: None, result: Ok(0) };
                assert(address_given(
                    *old(host),
                    *host,
                    *old(self),
                    *self,
                    dev_addr,
                    Err::<(), UsbError>(UsbError::AddressSet),
                    t,
                    0,
                ));
            }
            Err(UsbError::AddressSet)
        }
    }

    /// Selects the configuration `config_num`, cf
    /// [`configuration_selected`]. Zero is no configuration: the device is
    /// not asked, and the error is `InvalidConfig`.
    pub fn set_configuration<H: UsbHost>(&mut self, host: &mut H, config_num: u8) -> (r: Result<(), UsbError>)
        ensures
            exists|t: Transferred| #[trigger]
                configuration_selected(
                    *old(host),
                    *final(host),
                    *old(self),
                    *final(self),
                    config_num,
                    r,
                    t,
                ),
            config_num == 0 ==> r == Err::<(), UsbError>(UsbError::InvalidConfig) && *final(self)
                == *old(self) && *final(host) == *old(host),
            config_num != 0 ==> after_transfer(old(self)@, final(self)@) && (r matches Err(e)
                ==> (e matches UsbError::SetConfiguration(p, _) && p == old(self).spec_ep_props())),
    {
        if config_num == 0 {
            proof {
                let t = Transferred { toggle: false, data: None, result: Ok(0) };
                assert(configuration_selected(
                    *old(host),
                    *host,
                    *old(self),
                    *self,
                    config_num,
                    Err::<(), UsbError>(UsbError::InvalidConfig),
                    t,
                ));
            }
            return Err(UsbError::InvalidConfig);
        }
        let props = self.ep_props();
        let result = self.control_set(
            host,
            RequestCode::SetConfiguration,
            RequestRecipient::Device,
            config_num,
            0,
            0,
        );
        let ghost t = choose|t: Transferred|
            asked(
                *old(host),
                *host,
                *old(self),
                *self,
                ControlRequest::spec_set(
                    RequestKind::Standard,
                    RequestCode::SetConfiguration,
                    RequestRecipient::Device,
                    config_num,
                    0,
                    0,
                ),
                None,
                t,
            ) && result == set_result(t.result);
        let r = match result {
            Ok(_) => Ok(()),
            Err(e) => Err(UsbError::SetConfiguration(props, e)),
        };
        proof {
            lemma_device_endpoint(*old(self), t.toggle);
            assert(configuration_selected(*old(host), *host, *old(self), *self, config_num, r, t));
        }
        r
    }

    /// Selects the protocol `protocol` of the interface `iface_num`: a class
    /// request to the interface, cf [`interface_selected`].
    pub fn set_interface<H: UsbHost>(&mut self, host: &mut H, iface_num: u8, protocol: u8) -> (r: Result<(), UsbError>)
        ensures
            exists|t: Transferred| #[trigger]
                interface_selected(
                    *old(host),
                    *final(host),
                    *old(self),
                    *final(self),
                    iface_num,
                    protocol,
                    r,
                    t,
                ),
            after_transfer(old(self)@, final(self)@),
            r matches Err(e) ==> (e matches UsbError::SetInterface(p, _) && p
                == old(self).spec_ep_props()),
    {
        let props = self.ep_props();
        let result = self.control_set_class(
            host,
            RequestCode::SetInterface,
            RequestRecipient::Interface,
            protocol,
            0,
            iface_num as u16,
        );
        let ghost t = choose|t: Transferred|
            asked(
                *old(host),
                *host,
                *old(self),
                *self,
                ControlRequest::spec_set(
                    RequestKind::Class,
                    RequestCode::SetInterface,
                    RequestRecipient::Interface,
                    protocol,
                    0,
                    iface_num as u16,
                ),
                None,
                t,
            ) && result == set_result(t.result);
        let r = match result {
            Ok(_) => Ok(()),
            Err(e) => Err(UsbError::SetInterface(props, e)),
        };
        proof {
            lemma_device_endpoint(*old(self), t.toggle);
            assert(interface_selected(*old(host), *host, *old(self), *self, iface_num, protocol, r, t));
        }
        r
    }
}

/// The length of the whole configuration, as its head in `head` says, if
/// `head` holds the head of a configuration and the whole fits in `capacity`
/// bytes.
pub open spec fn configuration_length_of(head: Seq<u8>, capacity: nat) -> Result<usize, UsbError> {
    match ConfigurationDescriptor::of_wire(head) {
        Some(d) => if d.w_total_length as nat > capacity {
            Err(UsbError::DescriptorTooBig)
        } else {
            Ok(d.w_total_length as usize)
        },
        None => Err(UsbError::InvalidDescriptor),
    }
}

/// The length of the whole configuration whose head `head` holds, to be read
/// into a buffer of `capacity` bytes.
pub fn configuration_length(head: &[u8], capacity: usize) -> (r: Result<usize, UsbError>)
    ensures
        r == configuration_length_of(head@, capacity as nat),
        r matches Ok(n) ==> n <= capacity,
{
    match ConfigurationDescriptor::from_bytes(head) {
        Some(config_root) => {
            if config_root.w_total_length as usize > capacity {
                Err(UsbError::DescriptorTooBig)
            } else {
                Ok(config_root.w_total_length as usize)
            }
        },
        None => Err(UsbError::InvalidDescriptor),
    }
}

impl HostEndpoint for Device {

}

impl EndpointProperties for Device {
    closed spec fn spec_ep_props(&self) -> EpProps {
        EpProps {
            dev_addr: self.device_address,
            ep_addr: EpAddress::of_byte(0),
            tr_type: TransferType::Control,
        }
    }

    fn device_address(&self) -> DevAddress {
        self.device_address
    }

    fn endpoint_address(&self) -> EpAddress {
        EpAddress::from_byte(0)
    }

    fn transfer_type(&self) -> TransferType {
        TransferType::Control
    }
}

impl MaxPacketSize for Device {
    closed spec fn spec_max_packet_size(&self) -> u16 {
        self.max_packet_len
    }

    fn max_packet_size(&self) -> u16 {
        self.max_packet_len
    }
}

impl DataToggle for Device {
    closed spec fn spec_toggle(&self) -> bool {
        self.toggle
    }

    closed spec fn spec_with_toggle(&self, toggle: bool) -> Self {
        Device { toggle, ..*self }
    }

    fn toggle(&self) -> bool {
        self.toggle
    }

    fn set_toggle(&mut self, toggle: bool) {
        self.toggle = toggle
    }
}

/// A device as an endpoint: its properties are those of endpoint 0 of its
/// address, and a change of the toggle changes nothing else.
pub proof fn lemma_device_endpoint(d: Device, toggle: bool)
    ensures
        d.spec_ep_props() == (EpProps {
            dev_addr: d@.address,
            ep_addr: EpAddress::of_byte(0),
            tr_type: TransferType::Control,
        }),
        d.spec_max_packet_size() == d@.max_packet_size,
        d.spec_toggle() == d@.toggle,
        d.spec_with_toggle(toggle)@ == (DeviceView { toggle, ..d@ }),
{
}

impl ControlEndpoint for Device {
    /// Makes the request [`ControlRequest::spec_get_descriptor`] of the
    /// host, with `buffer` for the data, and returns what the host returns,
    /// an error with the endpoint added, cf [`asked`].
    fn control_get_descriptor<H: UsbHost>(
        &mut self,
        host: &mut H,
        desc_type: DescriptorType,
        desc_index: u8,
        buffer: &mut [u8],
    ) -> (r: Result<usize, UsbError>)
        ensures
            exists|t: Transferred| #[trigger]
                asked(
                    *old(host),
                    *final(host),
                    *old(self),
                    *final(self),
                    ControlRequest::spec_get_descriptor(desc_type, desc_index),
                    Some(old(buffer)@),
                    t,
                ) && final(buffer)@ == t.data.unwrap() && r == descriptor_result(
                    old(self).spec_ep_props(),
                    t.result,
                ),
    {
        let props = self.ep_props();
        let req = ControlRequest::get_descriptor(desc_type, desc_index);
        let hr = host.control_transfer(
            self,
            req.bm_request_type,
            req.b_request,
            req.w_value,
            req.w_index,
            Some(buffer),
        );
        proof {
            let t = Transferred { toggle: self.spec_toggle(), data: Some(buffer@), result: hr };
            assert(asked(
                *old(host),
                *host,
                *old(self),
                *self,
                ControlRequest::spec_get_descriptor(desc_type, desc_index),
                Some(old(buffer)@),
                t,
            ));
        }
        match hr {
            Ok(len) => Ok(len),
            Err(err) => Err(UsbError::GetDescriptor(props, err)),
        }
    }

    /// Makes the standard request [`ControlRequest::spec_set`] of the host,
    /// without data, and returns whether the host succeeded, or its error,
    /// cf [`asked`].
    fn control_set<H: UsbHost>(
        &mut self,
        host: &mut H,
        code: RequestCode,
        recip: RequestRecipient,
        lo_val: u8,
        hi_val: u8,
        windex: u16,
    ) -> (r: Result<(), HostError>)
        ensures
            exists|t: Transferred| #[trigger]
                asked(
                    *old(host),
                    *final(host),
                    *old(self),
                    *final(self),
                    ControlRequest::spec_set(
                        RequestKind::Standard,
                        code,
                        recip,
                        lo_val,
                        hi_val,
                        windex,
                    ),
                    None,
                    t,
                ) && r == set_result(t.result),
    {
        let req = ControlRequest::set(code, recip, lo_val, hi_val, windex);
        let hr = host.control_transfer(
            self,
            req.bm_request_type,
            req.b_request,
            req.w_value,
            req.w_index,
            None,
        );
        proof {
            let t = Transferred { toggle: self.spec_toggle(), data: None, result: hr };
            assert(asked(
                *old(host),
                *host,
                *old(self),
                *self,
                ControlRequest::spec_set(RequestKind::Standard, code, recip, lo_val, hi_val, windex),
                None,
                t,
            ));
        }
        match hr {
            Ok(_) => Ok(()),
            Err(e) => Err(e),
        }
    }

    /// Makes the class request [`ControlRequest::spec_set`] of the host,
    /// without data, and returns whether the host succeeded, or its error,
    /// cf [`asked`].
    fn control_set_class<H: UsbHost>(
        &mut self,
        host: &mut H,
        code: RequestCode,
        recip: RequestRecipient,
        lo_val: u8,
        hi_val: u8,
        windex: u16,
    ) -> (r: Result<(), HostError>)
        ensures
            exists|t: Transferred| #[trigger]
                asked(
                    *old(host),
                    *final(host),
                    *old(self),
                    *final(self),
                    ControlRequest::spec_set(RequestKind::Class, code, recip, lo_val, hi_val, windex),
                    None,
                    t,
                ) && r == set_result(t.result),
    {
        let req = ControlRequest::set_class(code, recip, lo_val, hi_val, windex);
        let hr = host.control_transfer(
            self,
            req.bm_request_type,
            req.b_request,
            req.w_value,
            req.w_index,
            None,
        );
        proof {
            let t = Transferred { toggle: self.spec_toggle(), data: None, result: hr };
            assert(asked(
                *old(host),
                *host,
                *old(self),
                *self,
                ControlRequest::spec_set(RequestKind::Class, code, recip, lo_val, hi_val, windex),
                None,
                t,
            ));
        }
        match hr {
            Ok(_) => Ok(()),
            Err(e) => Err(e),
        }
    }
}

/// Trait for drivers on the USB host.
///
/// A driver leaves the address of a device as it is, and does not put a
/// device back to where it needs an address. Where it is asked whether it
/// takes a device, it leaves the device as it is, and where it registers
/// one, it leaves the state of the device as it is.
///
/// What else a driver does is up to the driver: `registers`, `unregisters`,
/// `config_set` and `runs` say what a call can lead to.
pub trait Driver: Sized {
    /// The name of the driver, for the log.
    fn name(&self) -> &str;

    /// What `accept` says of a device and a parser as these are.
    spec fn spec_accept(&self, device: DeviceView, conf: ParserView) -> Option<
        (DeviceClass, ConfigNum, InterfaceNum),
    >;

    /// Whether `register` with the device `device` and a parser at `conf`
    /// can lead to the driver `after`, the device `device_after` and the
    /// result `r`.
    spec fn registers(
        &self,
        device: Device,
        conf: ParserView,
        after: Self,
        device_after: Device,
        r: Result<(), UsbError>,
    ) -> bool;

    /// Whether `unregister` with the address `address` can lead to the
    /// driver `after`.
    spec fn unregisters(&self, address: DevAddress, after: Self) -> bool;

    /// Whether `run` with the device `device` can lead to the driver
    /// `after`, the device `device_after` and the result `r`, where the host
    /// was asked what `log` holds and gave the answers of `log`.
    spec fn runs(
        &self,
        device: Device,
        after: Self,
        device_after: Device,
        r: Result<(), UsbError>,
        log: HostLog,
    ) -> bool;

    /// Whether `state_after_config_set` with the device `device` can lead
    /// to the device `device_after` and the state `state`, where the host was
    /// asked what `log` holds and gave the answers of `log`.
    spec fn config_set(
        &self,
        device: Device,
        device_after: Device,
        state: DeviceState,
        log: HostLog,
    ) -> bool;

    /// Whether the driver takes the device whose configuration `conf`
    /// walks, and if so, for which class, with which configuration and which
    /// interface. The first driver that takes a device gets it. The answer
    /// goes by the driver, the device and the configuration alone, and the
    /// device stays as it is.
    fn accept(&self, device: &mut Device, conf: &mut DescriptorParser<'_>) -> (r: Option<(DeviceClass, ConfigNum, InterfaceNum)>)
        ensures
            *final(device) == *old(device),
            r == self.spec_accept(old(device)@, old(conf)@),
    ;

    /// Called once the device is configured: the driver makes a note of
    /// the endpoints it will use.
    fn register(&mut self, device: &mut Device, conf: &mut DescriptorParser<'_>) -> (r: Result<(), UsbError>)
        ensures
            final(device)@.address == old(device)@.address,
            final(device)@.state == old(device)@.state,
            old(self).registers(*old(device), old(conf)@, *final(self), *final(device), r),
    ;

    /// The device at the address `device` is gone.
    fn unregister(&mut self, device: DevAddress)
        ensures
            old(self).unregisters(device, *final(self)),
    ;

    /// The state in which the device goes on once its configuration is
    /// selected, cf `config_set`: `Running` for a driver that has nothing to
    /// do first; HID drivers have the protocol selected first. The driver
    /// may ask the host for that.
    fn state_after_config_set<H: UsbHost>(&self, host: &mut H, device: &mut Device) -> (s: DeviceState)
        ensures
            final(device)@.address == old(device)@.address,
            final(device)@.state == old(device)@.state,
            !(s is SetAddress),
            exists|log: Seq<HostStep>| #[trigger]
                self.config_set(*old(device), *final(device), s, log) && followed(
                    *old(host),
                    *final(host),
                    log,
                ),
    ;

    /// Called at each turn of the stack for each device of the driver.
    fn run<H: UsbHost>(&mut self, host: &mut H, device: &mut Device) -> (r: Result<(), UsbError>)
        ensures
            final(device)@.address == old(device)@.address,
            !(old(device)@.state is SetAddress) ==> !(final(device)@.state is SetAddress),
            exists|log: Seq<HostStep>| #[trigger]
                old(self).runs(*old(device), *final(self), *final(device), r, log) && followed(
                    *old(host),
                    *final(host),
                    log,
                ),
    ;
}

} // verus!
