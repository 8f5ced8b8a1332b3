//! Simple USB host-side driver for USB keyboards supporting "boot" protocol (i.e. legacy PC BIOS compatible).
//! Tested working with classic Dell SK-8115
//! Does not handle newer keyboards such as HP KU-1156
use crate::address::DevAddress;
use crate::class::DeviceClass;
use crate::descriptor::{ConfigurationDescriptor, EndpointDescriptor, InterfaceDescriptor};
use crate::device::{
    after_transfer, control_call, interface_request, interface_selected, zeros, Device,
    DeviceState, DeviceView, Driver, SETTLE_DELAY,
};
use crate::endpoint::{
    in_call, interrupt_in_outcome, read_from, transfer_mismatch, DataToggle, Endpoint,
    EndpointProperties, InterruptEndpoint,
};
use crate::host::{
    followed, lemma_followed_push, HostAnswer, HostCall, HostLog, HostStep, Transferred,
    UsbHost,
};
use crate::parser::{
    bytes_at, descriptor_len_at, parser_after, ref_kind, DescriptorParser, DescriptorRef,
    ParserView, RefKind,
};
use crate::{ConfigNum, Direction, InterfaceNum, MaxPacketSize, TransferType, UsbError};
use vstd::prelude::*;

verus! {

/// How many total devices this driver can support.
pub const MAX_DEVICES: usize = 2;

/// `hash32::FnvHasher`: the hasher of the maps.
#[verifier::external_type_specification]
#[verifier::external_body]
pub struct ExFnvHasher(hash32::FnvHasher);

/// `hash32::BuildHasherDefault`: what makes the hasher of a map.
#[verifier::external_type_specification]
#[verifier::external_body]
#[verifier::reject_recursive_types(H)]
pub struct ExBuildHasherDefault<H>(hash32::BuildHasherDefault<H>);

/// `heapless::IndexMap`: a map with a fixed capacity. What one holds is
/// known through a name for its contents and through the contracts of the
/// calls on it.
#[verifier::external_type_specification]
#[verifier::external_body]
#[verifier::reject_recursive_types(K)]
#[verifier::reject_recursive_types(V)]
#[verifier::reject_recursive_types(S)]
pub struct ExIndexMap<K, V, S, const N: usize>(heapless::IndexMap<K, V, S, N>);

/// The endpoints that a `heapless::FnvIndexMap` holds, each under the
/// number of the address of its device.
pub uninterp spec fn endpoint_map(m: heapless::FnvIndexMap<u8, Endpoint, 2>) -> Map<u8, Endpoint>;

/// `heapless::IndexMap::new`: a map that holds nothing.
#[verifier::external_body]
fn endpoints_new() -> (m: heapless::FnvIndexMap<u8, Endpoint, 2>)
    ensures
        endpoint_map(m) =~= Map::empty(),
{
    heapless::IndexMap::new()
}

/// `heapless::IndexMap::get`: the value under `key`, if there is one.
#[verifier::external_body]
fn endpoints_get(m: &heapless::FnvIndexMap<u8, Endpoint, 2>, key: u8) -> (r: Option<Endpoint>)
    ensures
        r == if endpoint_map(*m).dom().contains(key) {
            Some(endpoint_map(*m)[key])
        } else {
            None
        },
{
    match m.get(&key) {
        Some(ep) => Some(*ep),
        None => None,
    }
}

/// `heapless::IndexMap::insert`: puts `value` under `key`, in the place of
/// the value that was there, if there was one; a key that is new to a map
/// that holds 2 keys is refused and the map stays as it is. The result says
/// whether the value is in the map.
#[verifier::external_body]
fn endpoints_insert(m: &mut heapless::FnvIndexMap<u8, Endpoint, 2>, key: u8, value: Endpoint) -> (inserted: bool)
    ensures
        inserted == (endpoint_map(*old(m)).dom().contains(key) || endpoint_map(
            *old(m),
        ).dom().len() < MAX_DEVICES),
        inserted ==> endpoint_map(*final(m)) == endpoint_map(*old(m)).insert(key, value),
        !inserted ==> endpoint_map(*final(m)) == endpoint_map(*old(m)),
{
    m.insert(key, value).is_ok()
}

/// `heapless::IndexMap::remove`: takes `key` and its value out of the map
/// and returns the value, if there was one.
#[verifier::external_body]
fn endpoints_remove(m: &mut heapless::FnvIndexMap<u8, Endpoint, 2>, key: u8) -> (r: Option<Endpoint>)
    ensures
        endpoint_map(*final(m)) == endpoint_map(*old(m)).remove(key),
        r == if endpoint_map(*old(m)).dom().contains(key) {
            Some(endpoint_map(*old(m))[key])
        } else {
            None
        },
{
    m.remove(&key)
}

/// A report of a keyboard in the boot protocol.
#[derive(Debug, Clone, Copy, Default, Eq, PartialEq)]
pub struct BootKbdPacket {
    pub modifiers: u8,
    pub r0: u8,
    pub keys: [u8; 6],
}

impl BootKbdPacket {
    /// The report that the 8 bytes `b` hold: the modifiers, a byte that is
    /// reserved, and the codes of up to six keys that are down.
    pub open spec fn of_bytes(b: Seq<u8>) -> BootKbdPacket {
        BootKbdPacket { modifiers: b[0], r0: b[1], keys: [b[2], b[3], b[4], b[5], b[6], b[7]] }
    }

    /// Whether the bytes `b` of a report say anything: one of them is not
    /// zero.
    pub open spec fn says_something(b: Seq<u8>) -> bool {
        exists|i: int| 0 <= i < b.len() && #[trigger] b[i] != 0
    }

    /// The report that the 8 bytes `b` hold, if it says anything.
    pub fn from_bytes(b: &[u8; 8]) -> (p: Option<BootKbdPacket>)
        ensures
            p == if BootKbdPacket::says_something(b@) {
                Some(BootKbdPacket::of_bytes(b@))
            } else {
                None
            },
    {
        if b[0] != 0 || b[1] != 0 || b[2] != 0 || b[3] != 0 || b[4] != 0 || b[5] != 0 || b[6]
            != 0 || b[7] != 0 {
            Some(BootKbdPacket { modifiers: b[0], r0: b[1], keys: [b[2], b[3], b[4], b[5], b[6], b[7]] })
        } else {
            None
        }
    }
}

/// Whether the interface is that of a keyboard that speaks the boot
/// protocol: class HID, subclass boot, protocol keyboard.
pub open spec fn is_boot_keyboard(d: InterfaceDescriptor) -> bool {
    d.b_interface_class == 3 && d.b_interface_sub_class == 1 && d.b_interface_protocol == 1
}

/// The configuration and the interface of the first boot keyboard that a
/// parser at `p` comes to, `config` being the value of the configuration it
/// has seen last: an interface counts only behind a configuration.
pub open spec fn boot_keyboard_in(p: ParserView, config: Option<u8>) -> Option<(u8, u8)>
    decreases p.bytes.len() - p.pos,
{
    match descriptor_len_at(p.bytes, p.pos) {
        Some(n) => {
            let b = bytes_at(p.bytes, p.pos, n);
            let kind = ref_kind(b, p.class);
            if kind == RefKind::Configuration {
                boot_keyboard_in(
                    parser_after(p),
                    Some(ConfigurationDescriptor::of_wire(b).unwrap().b_configuration_value),
                )
            } else if kind == RefKind::Interface && config is Some && is_boot_keyboard(
                InterfaceDescriptor::of_wire(b).unwrap(),
            ) {
                Some((config.unwrap(), InterfaceDescriptor::of_wire(b).unwrap().b_interface_number))
            } else {
                boot_keyboard_in(parser_after(p), config)
            }
        },
        None => None,
    }
}

/// The last endpoint that a parser at `p` comes to, `last` being the last
/// it has seen.
pub open spec fn last_endpoint_in(p: ParserView, last: Option<EndpointDescriptor>) -> Option<EndpointDescriptor>
    decreases p.bytes.len() - p.pos,
{
    match descriptor_len_at(p.bytes, p.pos) {
        Some(n) => {
            let b = bytes_at(p.bytes, p.pos, n);
            if ref_kind(b, p.class) == RefKind::Endpoint {
                last_endpoint_in(parser_after(p), EndpointDescriptor::of_wire(b))
            } else {
                last_endpoint_in(parser_after(p), last)
            }
        },
        None => last,
    }
}

/// The endpoint of the device at `addr` that the descriptor `e` describes.
pub open spec fn endpoint_of(addr: DevAddress, e: EndpointDescriptor) -> Endpoint {
    Endpoint::spec_from_raw(addr, e.w_max_packet_size, e.b_endpoint_address, e.bm_attributes)
}

/// Boot protocol keyboard driver for USB hosts.
pub struct BootKbdDriver {
    device_endpoints: heapless::FnvIndexMap<u8, Endpoint, 2>,
    report: Option<BootKbdPacket>,
}

impl BootKbdDriver {
    /// The endpoints of the keyboards of the driver, each under the number
    /// of the address of its keyboard.
    pub closed spec fn endpoints(&self) -> Map<u8, Endpoint> {
        endpoint_map(self.device_endpoints)
    }

    /// The last report of a keyboard that said anything and was not taken
    /// yet.
    pub closed spec fn report(&self) -> Option<BootKbdPacket> {
        self.report
    }

    /// A driver without keyboards.
    pub fn new() -> (d: Self)
        ensures
            d.endpoints() == Map::<u8, Endpoint>::empty(),
            d.report() is None,
    {
        Self { device_endpoints: endpoints_new(), report: None }
    }

    /// The endpoint of the keyboard at `addr`, if the driver has one.
    pub fn endpoint(&self, addr: DevAddress) -> (ep: Option<Endpoint>)
        ensures
            ep == if self.endpoints().dom().contains(addr@) {
                Some(self.endpoints()[addr@])
            } else {
                None
            },
    {
        endpoints_get(&self.device_endpoints, addr.number())
    }

    /// Takes in the 8 bytes that a keyboard sent: a report that says
    /// anything is kept in the place of the one before it.
    pub fn report_received(&mut self, bytes: &[u8; 8])
        ensures
            final(self).endpoints() == old(self).endpoints(),
            final(self).report() == if BootKbdPacket::says_something(bytes@) {
                Some(BootKbdPacket::of_bytes(bytes@))
            } else {
                old(self).report()
            },
    {
        if let Some(report) = BootKbdPacket::from_bytes(bytes) {
            self.report = Some(report);
        }
    }

    /// Takes the last report of a keyboard that said anything.
    pub fn take_report(&mut self) -> (r: Option<BootKbdPacket>)
        ensures
            r == old(self).report(),
            final(self).report() is None,
            final(self).endpoints() == old(self).endpoints(),
    {
        let r = self.report;
        self.report = None;
        r
    }
}

/// What `register` of the keyboard driver `k0` with the device `d0` and a
/// parser at `conf` leads to: the device stays, and the last endpoint that
/// the parser comes to is kept for the device. A driver that has endpoints
/// for `MAX_DEVICES` other devices takes none for this one.
pub open spec fn keyboard_registered(
    k0: BootKbdDriver,
    k1: BootKbdDriver,
    d0: Device,
    d1: Device,
    conf: ParserView,
    r: Result<(), UsbError>,
) -> bool {
    &&& d1 == d0
    &&& k1.report() == k0.report()
    &&& match last_endpoint_in(conf, None) {
        Some(e) => if k0.endpoints().dom().contains(d0@.address@) || k0.endpoints().dom().len()
            < MAX_DEVICES {
            r is Ok && k1.endpoints() == k0.endpoints().insert(
                d0@.address@,
                endpoint_of(d0@.address, e),
            )
        } else {
            r == Err::<(), UsbError>(UsbError::TooManyDevices) && k1.endpoints() == k0.endpoints()
        },
        None => r is Ok && k1.endpoints() == k0.endpoints(),
    }
}

/// What the turn of the keyboard driver `k0` with the device `d0` leads
/// to, where the host was asked what `log` holds and gave the answers of
/// `log`.
///
/// A device that the driver has no endpoint for is left alone, and the host
/// is not asked. For a keyboard that waits for its protocol the host is
/// asked for the time. Until the time has come nothing more happens; then
/// the boot protocol is selected on its interface, cf
/// [`interface_request`], and the keyboard runs from then on, unless the
/// host fails, which is the result. A keyboard that runs is asked for a
/// report of 8 bytes through its endpoint, cf [`in_call`]; the data toggle
/// of the endpoint is kept, and a report that says anything is kept in the
/// place of the one before it. An endpoint that is no interrupt endpoint to
/// the host is not asked. In any other state nothing happens.
pub open spec fn keyboard_turned(
    k0: BootKbdDriver,
    k1: BootKbdDriver,
    d0: Device,
    d1: Device,
    r: Result<(), UsbError>,
    log: Seq<HostStep>,
) -> bool {
    let addr = d0@.address@;
    let idle = r is Ok && k1.endpoints() == k0.endpoints() && k1.report() == k0.report() && d1
        == d0 && log.len() == 0;
    if !k0.endpoints().dom().contains(addr) {
        idle
    } else {
        let ep = k0.endpoints()[addr];
        match d0@.state {
            DeviceState::SetInterface(iface, until) => {
                &&& k1.endpoints() == k0.endpoints()
                &&& k1.report() == k0.report()
                &&& log.len() >= 1
                &&& log[0].call == HostCall::AfterMillis(0)
                &&& log[0].answer matches HostAnswer::Time(now)
                &&& if now >= until {
                    &&& log.len() == 2
                    &&& log[1].call == control_call(d0, interface_request(iface, 0), None)
                    &&& log[1].answer matches HostAnswer::Transferred(t)
                    &&& match t.result {
                        Ok(_) => r is Ok && d1@ == (DeviceView {
                            state: DeviceState::Running,
                            ..d0.spec_with_toggle(t.toggle)@
                        }),
                        Err(e) => r == Err::<(), UsbError>(
                            UsbError::SetInterface(d0.spec_ep_props(), e),
                        ) && d1 == d0.spec_with_toggle(t.toggle),
                    }
                } else {
                    log.len() == 1 && r is Ok && d1 == d0
                }
            },
            DeviceState::Running => {
                &&& r is Ok
                &&& d1 == d0
                &&& match transfer_mismatch(
                    ep.spec_ep_props(),
                    TransferType::Interrupt,
                    Direction::In,
                ) {
                    Some(_) => log.len() == 0 && k1.endpoints() == k0.endpoints() && k1.report()
                        == k0.report(),
                    None => {
                        &&& log.len() == 1
                        &&& log[0].call == in_call(ep, zeros(8))
                        &&& log[0].answer matches HostAnswer::Transferred(t)
                        &&& t.data matches Some(bytes)
                        &&& k1.endpoints() == k0.endpoints().insert(
                            addr,
                            ep.spec_with_toggle(t.toggle),
                        )
                        &&& k1.report() == match t.result {
                            Ok(_) => if BootKbdPacket::says_something(bytes) {
                                Some(BootKbdPacket::of_bytes(bytes))
                            } else {
                                k0.report()
                            },
                            Err(_) => k0.report(),
                        }
                    },
                }
            },
            _ => idle,
        }
    }
}

/// What the keyboard driver says of a configuration at `conf`: it takes the
/// first boot keyboard of the configuration, cf [`boot_keyboard_in`].
pub open spec fn keyboard_accepts(conf: ParserView) -> Option<(DeviceClass, ConfigNum, InterfaceNum)> {
    match boot_keyboard_in(conf, None) {
        Some(found) => Some((DeviceClass::Hid, found.0, found.1)),
        None => None,
    }
}

/// What `unregister` of the keyboard driver `k0` with the address `address`
/// leads to: the endpoint of the device at that address is forgotten.
pub open spec fn keyboard_unregistered(k0: BootKbdDriver, k1: BootKbdDriver, address: DevAddress) -> bool {
    k1.endpoints() == k0.endpoints().remove(address@) && k1.report() == k0.report()
}

/// What the keyboard driver says of a device whose configuration is
/// selected: the device stays, the host is asked once, for the time
/// `SETTLE_DELAY` from now, and the device waits until then for the boot
/// protocol to be selected on interface 0.
pub open spec fn keyboard_config_set(
    device: Device,
    device_after: Device,
    state: DeviceState,
    log: HostLog,
) -> bool {
    &&& device_after == device
    &&& log.len() == 1
    &&& log[0].call == HostCall::AfterMillis(SETTLE_DELAY)
    &&& log[0].answer matches HostAnswer::Time(until)
    &&& state == DeviceState::SetInterface(0, until)
}

impl Driver for BootKbdDriver {
    open spec fn registers(
        &self,
        device: Device,
        conf: ParserView,
        after: Self,
        device_after: Device,
        r: Result<(), UsbError>,
    ) -> bool {
        keyboard_registered(*self, after, device, device_after, conf, r)
    }

    open spec fn unregisters(&self, address: DevAddress, after: Self) -> bool {
        keyboard_unregistered(*self, after, address)
    }

    open spec fn config_set(
        &self,
        device: Device,
        device_after: Device,
        state: DeviceState,
        log: HostLog,
    ) -> bool {
        keyboard_config_set(device, device_after, state, log)
    }

    open spec fn runs(
        &self,
        device: Device,
        after: Self,
        device_after: Device,
        r: Result<(), UsbError>,
        log: HostLog,
    ) -> bool {
        keyboard_turned(*self, after, device, device_after, r, log)
    }

    fn name(&self) -> &str {
        "BootKbd"
    }

    open spec fn spec_accept(&self, device: DeviceView, conf: ParserView) -> Option<
        (DeviceClass, ConfigNum, InterfaceNum),
    > {
        keyboard_accepts(conf)
    }

    /// Takes the first boot keyboard of the configuration, cf
    /// [`boot_keyboard_in`].
    fn accept(&self, _device: &mut Device, parser: &mut DescriptorParser<'_>) -> (r: Option<(DeviceClass, ConfigNum, InterfaceNum)>)
        ensures
            *final(_device) == *old(_device),
            final(parser)@.bytes == old(parser)@.bytes,
            r == match boot_keyboard_in(old(parser)@, None) {
                Some(found) => Some((DeviceClass::Hid, found.0, found.1)),
                None => None,
            },
    {
        let mut config_num: Option<u8> = None;
        let _left = parser.remaining();
        loop
            invariant
                parser@.bytes == old(parser)@.bytes,
                parser@.pos <= parser@.bytes.len(),
                *_device == *old(_device),
                boot_keyboard_in(parser@, config_num) == boot_keyboard_in(old(parser)@, None),
            decreases parser@.bytes.len() - parser@.pos,
        {
            let ghost before = parser@;
            match parser.next() {
                Some(desc) => {
                    match desc {
                        DescriptorRef::Configuration(cdesc) => {
                            config_num = Some(cdesc.b_configuration_value);
                        },
                        DescriptorRef::Interface(idesc) => {
                            if idesc.b_interface_class == 3 && idesc.b_interface_sub_class == 1
                                && idesc.b_interface_protocol == 1 {
                                if let Some(config_num) = config_num {
                                    return Some(
                                        (DeviceClass::Hid, config_num, idesc.b_interface_number),
                                    );
                                }
                            }
                        },
                        _ => {},
                    }
                },
                None => {
                    return None;
                },
            }
        }
    }

    /// Makes a note of the last endpoint of the configuration for the
    /// device. A driver that has endpoints for `MAX_DEVICES` other devices
    /// takes none for this one.
    fn register(&mut self, device: &mut Device, parser: &mut DescriptorParser<'_>) -> (r: Result<(), UsbError>)
        ensures
            keyboard_registered(
                *old(self),
                *final(self),
                *old(device),
                *final(device),
                old(parser)@,
                r,
            ),
            *final(device) == *old(device),
            final(self).report() == old(self).report(),
            match last_endpoint_in(old(parser)@, None) {
                Some(e) => if old(self).endpoints().dom().contains(old(device)@.address@) || old(self).endpoints().dom().len() < MAX_DEVICES {
                    r is Ok && final(self).endpoints() == old(self).endpoints().insert(
                        old(device)@.address@,
                        endpoint_of(old(device)@.address, e),
                    )
                } else {
                    r == Err::<(), UsbError>(UsbError::TooManyDevices) && final(self).endpoints()
                        == old(self).endpoints()
                },
                None => r is Ok && final(self).endpoints() == old(self).endpoints(),
            },
    {
        let addr = device.device_address();
        let ghost start = endpoint_map(self.device_endpoints);
        let ghost fits = start.dom().contains(addr@) || start.dom().len() < MAX_DEVICES;
        let ghost mut last: Option<EndpointDescriptor> = None;
        let mut seen = false;
        let mut refused = false;
        let _left = parser.remaining();
        proof {
            crate::device::lemma_device_endpoint(*device, false);
        }
        loop
            invariant
                parser@.pos <= parser@.bytes.len(),
                *device == *old(device),
                addr == old(device)@.address,
                self.report == old(self).report,
                start == endpoint_map(old(self).device_endpoints),
                fits == (start.dom().contains(addr@) || start.dom().len() < MAX_DEVICES),
                last_endpoint_in(parser@, last) == last_endpoint_in(old(parser)@, None),
                seen == last is Some,
                refused == (seen && !fits),
                endpoint_map(self.device_endpoints) == match last {
                    Some(e) => if fits {
                        start.insert(addr@, endpoint_of(addr, e))
                    } else {
                        start
                    },
                    None => start,
                },
            decreases parser@.bytes.len() - parser@.pos,
        {
            match parser.next() {
                Some(desc) => {
                    match desc {
                        DescriptorRef::Endpoint(edesc) => {
                            let new_ep = Endpoint::from_raw(
                                addr,
                                edesc.max_packet_size(),
                                edesc.b_endpoint_address,
                                edesc.bm_attributes,
                            );
                            let ghost held = endpoint_map(self.device_endpoints);
                            if !endpoints_insert(&mut self.device_endpoints, addr.number(), new_ep) {
                                refused = true;
                            }
                            proof {
                                if fits && seen {
                                    assert(held.insert(addr@, new_ep) =~= start.insert(
                                        addr@,
                                        new_ep,
                                    ));
                                }
                                last = Some(edesc);
                            }
                            seen = true;
                        },
                        _ => {},
                    }
                },
                None => {
                    if refused {
                        return Err(UsbError::TooManyDevices);
                    } else {
                        return Ok(());
                    }
                },
            }
        }
    }

    /// Forgets the endpoint of the keyboard at `address`.
    fn unregister(&mut self, address: DevAddress)
        ensures
            final(self).endpoints() == old(self).endpoints().remove(address@),
            final(self).report() == old(self).report(),
    {
        // nothing we can do if this return None.
        let _ = endpoints_remove(&mut self.device_endpoints, address.number());
    }

    /// A keyboard has the boot protocol selected on interface 0 before it
    /// runs, once it has settled: the host is asked for the time
    /// `SETTLE_DELAY` from now, until which the keyboard waits.
    fn state_after_config_set<H: UsbHost>(&self, host: &mut H, _device: &mut Device) -> (s: DeviceState)
        ensures
            *final(_device) == *old(_device),
            *final(host) == *old(host),
            s matches DeviceState::SetInterface(iface, until) && iface == 0 && old(host).answers(
                HostCall::AfterMillis(SETTLE_DELAY),
                *old(host),
                HostAnswer::Time(until),
            ),
    {
        let until = host.after_millis(SETTLE_DELAY);
        proof {
            let asked = HostStep {
                call: HostCall::AfterMillis(SETTLE_DELAY),
                answer: HostAnswer::Time(until),
            };
            let log = Seq::<HostStep>::empty().push(asked);
            assert(followed(*host, *host, Seq::<HostStep>::empty()));
            lemma_followed_push(*host, *host, *host, Seq::<HostStep>::empty(), asked);
            assert(self.config_set(
                *old(_device),
                *_device,
                DeviceState::SetInterface(0, until),
                log,
            ));
        }
        DeviceState::SetInterface(0, until)
    }

    /// The turn of a keyboard, cf [`keyboard_turned`]. One that waits for
    /// its protocol gets the boot protocol selected, once it has settled,
    /// and runs from then on. One that runs is asked for a report, which is
    /// kept if it says anything. A device that the driver has no endpoint
    /// for is left alone.
    fn run<H: UsbHost>(&mut self, host: &mut H, device: &mut Device) -> (r: Result<(), UsbError>)
        ensures
            after_transfer(old(device)@, final(device)@) || final(device)@ == (DeviceView {
                toggle: final(device)@.toggle,
                state: DeviceState::Running,
                ..old(device)@
            }),
            !old(self).endpoints().dom().contains(old(device)@.address@) ==> r is Ok && *final(device) == *old(device) && *final(host) == *old(host) && final(self).endpoints() == old(self).endpoints() && final(self).report() == old(self).report(),
            final(self).endpoints().dom() =~= old(self).endpoints().dom(),
            r matches Err(e) ==> old(device)@.state is SetInterface && final(device)@.state
                == old(device)@.state,
    {
        let addr = device.device_address();
        let ghost nothing = Seq::<HostStep>::empty();
        proof {
            crate::device::lemma_device_endpoint(*device, false);
            assert(followed(*host, *host, nothing));
        }
        let mut endpoint = match endpoints_get(&self.device_endpoints, addr.number()) {
            Some(ep) => ep,
            None => {
                proof {
                    assert(old(self).runs(*old(device), *self, *device, Ok::<(), UsbError>(()), nothing));
                }
                return Ok(());
            },
        };
        match device.state() {
            DeviceState::SetInterface(iface, until) => {
                let due = host.delay_done(until);
                let ghost now = choose|t: u64| #[trigger]
                    host.answers(HostCall::AfterMillis(0), *host, HostAnswer::Time(t)) && due == (t
                        >= until);
                let ghost timed = HostStep {
                    call: HostCall::AfterMillis(0),
                    answer: HostAnswer::Time(now),
                };
                proof {
                    lemma_followed_push(*old(host), *host, *host, nothing, timed);
                }
                if due {
                    let selected = device.set_interface(host, iface, 0);
                    let ghost t = choose|t: Transferred| #[trigger]
                        interface_selected(
                            *old(host),
                            *host,
                            *old(device),
                            *device,
                            iface,
                            0,
                            selected,
                            t,
                        );
                    let ghost asked = HostStep {
                        call: control_call(*old(device), interface_request(iface, 0), None),
                        answer: HostAnswer::Transferred(t),
                    };
                    let ghost log = nothing.push(timed).push(asked);
                    proof {
                        crate::device::lemma_device_endpoint(*old(device), t.toggle);
                        lemma_followed_push(*old(host), *old(host), *host, nothing.push(timed), asked);
                    }
                    match selected {
                        Ok(_) => {},
                        Err(e) => {
                            proof {
                                assert(old(self).runs(*old(device), *self, *device, Err::<(), UsbError>(e), log));
                            }
                            return Err(e);
                        },
                    }
                    device.set_state(DeviceState::Running);
                    proof {
                        assert(old(self).runs(*old(device), *self, *device, Ok::<(), UsbError>(()), log));
                    }
                } else {
                    proof {
                        assert(old(self).runs(*old(device), *self, *device, Ok::<(), UsbError>(()), nothing.push(timed)));
                    }
                }
            },
            DeviceState::Running => {
                let mut buf = [0u8;8];
                assert(buf@ =~= zeros(8));
                let ghost ep0 = endpoint;
                let read = endpoint.interrupt_in(host, &mut buf);
                let ghost log = if transfer_mismatch(
                    ep0.spec_ep_props(),
                    TransferType::Interrupt,
                    Direction::In,
                ) is None {
                    let t = choose|t: Transferred| #[trigger]
                        read_from(*old(host), *host, ep0, endpoint, zeros(8), t) && t.data == Some(
                            buf@,
                        ) && read == interrupt_in_outcome(ep0.spec_ep_props(), t.result);
                    nothing.push(
                        HostStep { call: in_call(ep0, zeros(8)), answer: HostAnswer::Transferred(t) },
                    )
                } else {
                    nothing
                };
                proof {
                    if log.len() == 1 {
                        lemma_followed_push(*old(host), *old(host), *host, nothing, log[0]);
                        assert(nothing.push(log[0]) =~= log);
                    }
                }
                match read {
                    Ok(_size) => {
                        self.report_received(&buf);
                    },
                    Err(_) => {},
                }
                let ghost held = endpoint_map(self.device_endpoints);
                let kept = endpoints_insert(&mut self.device_endpoints, addr.number(), endpoint);
                assert(kept);
                assert(held.insert(addr@, endpoint).dom() =~= held.dom());
                proof {
                    if log.len() == 0 {
                        assert(held.insert(addr@, endpoint) =~= held);
                    }
                    assert(old(self).runs(*old(device), *self, *device, Ok::<(), UsbError>(()), log));
                }
            },
            _ => {
                proof {
                    assert(old(self).runs(*old(device), *self, *device, Ok::<(), UsbError>(()), nothing));
                }
            },
        }
        Ok(())
    }
}

} // verus!
