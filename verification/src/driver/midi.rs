//! Driver for USB MIDI devices: it finds the MIDI streaming interface of a
//! device, makes a port for each of its embedded jacks, and carries the
//! packets between the ports and the bulk endpoints of the device. The
//! packets of the ports wait in two queues for the application, which ties
//! the ports to its MIDI registry.
use crate::address::DevAddress;
use crate::class::audio::{
    audio_kind, AudioDescriptorRef, AudioKind, MSInJackDescriptor, MSOutJackDescriptor,
};
use crate::descriptor::DescriptorType;
use crate::class::DeviceClass;
use crate::descriptor::{ConfigurationDescriptor, EndpointDescriptor, InterfaceDescriptor};
use crate::device::{zeros, Device, DeviceState, DeviceView, Driver};
use crate::endpoint::{
    in_call, out_call, DataToggle, Endpoint, EndpointProperties, EpAddress,
};
use crate::host::{
    followed, lemma_followed_push, HostAnswer, HostLog, HostStep, Transferred, UsbHost,
};
use crate::parser::{
    bytes_at, descriptor_len_at, parser_after, ref_kind, DescriptorParser, DescriptorRef,
    ParserView, RefKind,
};
use crate::{ConfigNum, Direction, InterfaceNum, MaxPacketSize, UsbError};
use vstd::prelude::*;

verus! {

/// How many total devices this driver can support.
pub const MAX_MIDI_DEVICES: usize = 16;

/// Max number of endpoints per device.
/// 2 is the minimum for duplex devices
pub const MAX_ENDPOINTS_PER_DEV: usize = 2;

/// Max number of jacks per endpoint
pub const MAX_JACKS_PER_ENDPOINT: usize = 4;

/// Max number of jacks per device
pub const MAX_JACKS_PER_DEV: usize = 8;

/// The number of packets that each of the two queues holds.
pub const MAX_QUEUED_PACKETS: usize = 16;

/// The number of bytes of a USB MIDI event packet.
pub const USB_MIDI_PACKET_LEN: usize = 4;

pub const USB_CLASS_NONE: u8 = 0x00;

pub const USB_AUDIO_CLASS: u8 = 0x01;

pub const USB_AUDIO_CONTROL_SUBCLASS: u8 = 0x01;

pub const USB_MIDI_STREAMING_SUBCLASS: u8 = 0x03;

/// The type of an embedded jack.
pub const JACK_TYPE_EMBEDDED: u8 = 1;

/// The number of a jack, which is also the cable number of its packets.
pub type JackId = u8;

/// Whether the interface is a MIDI streaming interface.
pub open spec fn spec_is_midi_interface(idesc: InterfaceDescriptor) -> bool {
    idesc.b_interface_class == USB_AUDIO_CLASS && idesc.b_interface_sub_class
        == USB_MIDI_STREAMING_SUBCLASS
}

/// Whether the interface is a MIDI streaming interface: class audio,
/// subclass MIDI streaming.
pub fn is_midi_interface(idesc: &InterfaceDescriptor) -> (b: bool)
    ensures
        b == spec_is_midi_interface(*idesc),
{
    idesc.b_interface_class == USB_AUDIO_CLASS && idesc.b_interface_sub_class
        == USB_MIDI_STREAMING_SUBCLASS
}

/// The cable number of a USB MIDI event packet: the high four bits of its
/// first byte.
pub open spec fn spec_cable_number(packet: [u8; 4]) -> u8 {
    packet@[0] >> 4
}

/// The packet with the cable number `cable`, of which the low four bits
/// count, and everything else as it is.
pub open spec fn spec_with_cable_number(packet: [u8; 4], cable: u8) -> Seq<u8> {
    seq![(packet@[0] & 0x0f) | ((cable & 0x0f) << 4), packet@[1], packet@[2], packet@[3]]
}

/// The cable number of a USB MIDI event packet.
pub fn cable_number(packet: &[u8; 4]) -> (cable: u8)
    ensures
        cable == spec_cable_number(*packet),
        cable <= 15,
{
    let b = packet[0];
    assert(b >> 4 <= 15) by (bit_vector);
    b >> 4
}

/// The packet with the cable number `cable`.
pub fn with_cable_number(packet: &[u8; 4], cable: u8) -> (tagged: [u8; 4])
    ensures
        tagged@ == spec_with_cable_number(*packet, cable),
        cable <= 15 ==> spec_cable_number(tagged) == cable,
{
    let b = packet[0];
    assert(((b & 0x0f) | ((cable & 0x0f) << 4)) >> 4 == cable & 0x0f && (cable <= 15 ==> cable
        & 0x0f == cable)) by (bit_vector);
    let tagged = [(b & 0x0f) | ((cable & 0x0f) << 4), packet[1], packet[2], packet[3]];
    assert(tagged@ =~= spec_with_cable_number(*packet, cable));
    tagged
}

/// The configuration and the interface that the driver takes of what a
/// parser at `p` comes to: the first MIDI streaming interface, and the last
/// configuration before the second such interface or the end; `config` and
/// `iface` are what was seen so far.
pub open spec fn midi_interface_in(p: ParserView, config: Option<u8>, iface: Option<u8>) -> Option<(u8, u8)>
    decreases p.bytes.len() - p.pos,
{
    let found = match (config, iface) {
        (Some(c), Some(i)) => Some((c, i)),
        _ => None,
    };
    match descriptor_len_at(p.bytes, p.pos) {
        Some(n) => {
            let b = bytes_at(p.bytes, p.pos, n);
            let kind = ref_kind(b, p.class);
            if kind == RefKind::Configuration {
                midi_interface_in(
                    parser_after(p),
                    Some(ConfigurationDescriptor::of_wire(b).unwrap().b_configuration_value),
                    iface,
                )
            } else if kind == RefKind::Interface && spec_is_midi_interface(
                InterfaceDescriptor::of_wire(b).unwrap(),
            ) {
                if iface is Some {
                    found
                } else {
                    midi_interface_in(
                        parser_after(p),
                        config,
                        Some(InterfaceDescriptor::of_wire(b).unwrap().b_interface_number),
                    )
                }
            } else {
                midi_interface_in(parser_after(p), config, iface)
            }
        },
        None => found,
    }
}

/// The configuration and the interface, where both were seen.
fn both(config: Option<u8>, iface: Option<u8>) -> (r: Option<(ConfigNum, InterfaceNum)>)
    ensures
        r == match (config, iface) {
            (Some(c), Some(i)) => Some((c, i)),
            _ => None,
        },
{
    if let Some(iface) = iface {
        if let Some(cfg) = config {
            return Some((cfg, iface));
        }
    }
    None
}

/// Finds the MIDI streaming interface in what `parser` walks, cf
/// [`midi_interface_in`].
pub fn find_midi_interface(parser: &mut DescriptorParser<'_>) -> (r: Option<(ConfigNum, InterfaceNum)>)
    ensures
        final(parser)@.bytes == old(parser)@.bytes,
        r == midi_interface_in(old(parser)@, None, None),
{
    let mut config: Option<u8> = None;
    let mut midi_interface: Option<u8> = None;
    let _left = parser.remaining();
    loop
        invariant
            parser@.bytes == old(parser)@.bytes,
            parser@.pos <= parser@.bytes.len(),
            midi_interface_in(parser@, config, midi_interface) == midi_interface_in(
                old(parser)@,
                None,
                None,
            ),
        decreases parser@.bytes.len() - parser@.pos,
    {
        match parser.next() {
            Some(desc) => {
                match desc {
                    DescriptorRef::Configuration(cdesc) => {
                        config = Some(cdesc.b_configuration_value);
                    },
                    DescriptorRef::Interface(idesc) => {
                        if is_midi_interface(&idesc) {
                            if midi_interface.is_some() {
                                // new interface, done enumerating MIDI endpoints
                                return both(config, midi_interface);
                            }
                            midi_interface = Some(idesc.b_interface_number);
                        }
                    },
                    _ => {},
                }
            },
            None => {
                return both(config, midi_interface);
            },
        }
    }
}

/// What the endpoints of a device come to: the last endpoint to the host,
/// the last endpoint to the device, and the number of endpoints.
pub struct EndpointScan {
    pub ep_in: Option<EndpointDescriptor>,
    pub ep_out: Option<EndpointDescriptor>,
    pub count: nat,
}

/// The way of the endpoint that `e` describes.
pub open spec fn way_of(e: EndpointDescriptor) -> Direction {
    EpAddress::of_byte(e.b_endpoint_address).spec_direction()
}

/// What `s` becomes with the endpoints that a parser at `p` comes to.
pub open spec fn midi_endpoints(p: ParserView, s: EndpointScan) -> EndpointScan
    decreases p.bytes.len() - p.pos,
{
    match descriptor_len_at(p.bytes, p.pos) {
        Some(n) => {
            let b = bytes_at(p.bytes, p.pos, n);
            if ref_kind(b, p.class) == RefKind::Endpoint {
                let e = EndpointDescriptor::of_wire(b).unwrap();
                midi_endpoints(
                    parser_after(p),
                    if way_of(e) == Direction::In {
                        EndpointScan { ep_in: Some(e), count: s.count + 1, ..s }
                    } else {
                        EndpointScan { ep_out: Some(e), count: s.count + 1, ..s }
                    },
                )
            } else {
                midi_endpoints(parser_after(p), s)
            }
        },
        None => s,
    }
}

/// The parser at `p` once it has yielded all it can.
pub open spec fn parser_end(p: ParserView) -> ParserView
    decreases p.bytes.len() - p.pos,
{
    match descriptor_len_at(p.bytes, p.pos) {
        Some(n) => parser_end(parser_after(p)),
        None => p,
    }
}

/// The embedded jack that the descriptor with the bytes `b` describes, if
/// it describes one for which the device has an endpoint: whether it is a
/// MIDI OUT jack, and its number. A MIDI OUT jack goes with the endpoint to
/// the device, a MIDI IN jack with the endpoint to the host.
pub open spec fn jack_in(b: Seq<u8>, p: ParserView, has_in: bool, has_out: bool) -> Option<(bool, u8)> {
    if ref_kind(b, p.class) != RefKind::Audio {
        None
    } else {
        match audio_kind(p.subclass, DescriptorType::of_code(b[1]).unwrap(), b) {
            Some(AudioKind::MSOutJack) => {
                let j = MSOutJackDescriptor::of_wire(b).unwrap();
                if j.b_jack_type == JACK_TYPE_EMBEDDED && has_out {
                    Some((true, j.b_jack_id))
                } else {
                    None
                }
            },
            Some(AudioKind::MSInJack) => {
                let j = MSInJackDescriptor::of_wire(b).unwrap();
                if j.b_jack_type == JACK_TYPE_EMBEDDED && has_in {
                    Some((false, j.b_jack_id))
                } else {
                    None
                }
            },
            _ => None,
        }
    }
}

/// The jacks `acc` and behind them the embedded jacks that a parser at `p`
/// comes to, cf [`jack_in`].
pub open spec fn midi_jacks(p: ParserView, has_in: bool, has_out: bool, acc: Seq<(bool, u8)>) -> Seq<(bool, u8)>
    decreases p.bytes.len() - p.pos,
{
    match descriptor_len_at(p.bytes, p.pos) {
        Some(n) => match jack_in(bytes_at(p.bytes, p.pos, n), p, has_in, has_out) {
            Some(jack) => midi_jacks(parser_after(p), has_in, has_out, acc.push(jack)),
            None => midi_jacks(parser_after(p), has_in, has_out, acc),
        },
        None => acc,
    }
}

/// The number of MIDI OUT jacks, or of MIDI IN jacks, among `jacks`.
pub open spec fn jacks_of_kind(jacks: Seq<(bool, u8)>, out: bool) -> nat
    decreases jacks.len(),
{
    if jacks.len() == 0 {
        0
    } else {
        jacks_of_kind(jacks.drop_last(), out) + if jacks.last().0 == out {
            1nat
        } else {
            0nat
        }
    }
}

/// A jack of a device and the port that stands for it.
#[derive(Clone, Copy, Debug, PartialEq, Eq, Structural)]
pub struct JackPort {
    /// Whether the jack is a MIDI OUT jack, which goes with the endpoint to
    /// the device
    pub out: bool,
    /// The number of the jack, which is the cable number of its packets
    pub jack_id: JackId,
    /// The number of the port
    pub port_id: usize,
}

/// The jacks `jacks`, each with a port; the ports are numbered from
/// `first_port` on.
pub open spec fn ports_for(jacks: Seq<(bool, u8)>, first_port: nat) -> Seq<JackPort> {
    Seq::new(
        jacks.len(),
        |i: int| JackPort { out: jacks[i].0, jack_id: jacks[i].1, port_id: (first_port + i) as usize },
    )
}

/// Reads the endpoints of what `parser` walks to its end, cf
/// [`midi_endpoints`]: the last endpoint to the host, the last endpoint to
/// the device, and whether there are more than `MAX_ENDPOINTS_PER_DEV`.
pub fn scan_endpoints(parser: &mut DescriptorParser<'_>) -> (r: (Option<EndpointDescriptor>, Option<EndpointDescriptor>, bool))
    ensures
        final(parser)@ == parser_end(old(parser)@),
        r.0 == midi_endpoints(old(parser)@, EndpointScan { ep_in: None, ep_out: None, count: 0 }).ep_in,
        r.1 == midi_endpoints(old(parser)@, EndpointScan { ep_in: None, ep_out: None, count: 0 }).ep_out,
        r.2 == (midi_endpoints(
            old(parser)@,
            EndpointScan { ep_in: None, ep_out: None, count: 0 },
        ).count > MAX_ENDPOINTS_PER_DEV),
{
    let mut ep_in: Option<EndpointDescriptor> = None;
    let mut ep_out: Option<EndpointDescriptor> = None;
    let mut count: usize = 0;
    let _left = parser.remaining();
    loop
        invariant
            parser@.pos <= parser@.bytes.len(),
            count <= parser@.pos,
            parser_end(parser@) == parser_end(old(parser)@),
            midi_endpoints(parser@, EndpointScan { ep_in, ep_out, count: count as nat })
                == midi_endpoints(
                old(parser)@,
                EndpointScan { ep_in: None, ep_out: None, count: 0 },
            ),
        decreases parser@.bytes.len() - parser@.pos,
    {
        match parser.next() {
            Some(desc) => {
                match desc {
                    DescriptorRef::Endpoint(edesc) => {
                        match EpAddress::from_byte(edesc.b_endpoint_address).direction() {
                            Direction::In => {
                                ep_in = Some(edesc);
                            },
                            Direction::Out => {
                                ep_out = Some(edesc);
                            },
                        }
                        let _pos = parser.position();
                        count = count + 1;
                    },
                    _ => {},
                }
            },
            None => {
                return (ep_in, ep_out, count > MAX_ENDPOINTS_PER_DEV);
            },
        }
    }
}

/// Whether there are more jacks of one kind among `jacks` than an endpoint
/// can have.
pub open spec fn too_many_jacks(jacks: Seq<(bool, u8)>) -> bool {
    jacks_of_kind(jacks, true) > MAX_JACKS_PER_ENDPOINT || jacks_of_kind(jacks, false)
        > MAX_JACKS_PER_ENDPOINT
}

/// The jacks of one kind and of the other are all the jacks.
proof fn lemma_jacks_of_kinds(jacks: Seq<(bool, u8)>)
    ensures
        jacks_of_kind(jacks, true) + jacks_of_kind(jacks, false) == jacks.len(),
    decreases jacks.len(),
{
    if jacks.len() > 0 {
        lemma_jacks_of_kinds(jacks.drop_last());
    }
}

/// Reads the embedded jacks of what `parser` walks to its end, cf
/// [`midi_jacks`], and gives each a port, numbered from `first_port` on:
/// the jacks with their ports, and their number. Nothing is returned where
/// there are more than `MAX_JACKS_PER_ENDPOINT` jacks of one kind.
pub fn scan_jacks(parser: &mut DescriptorParser<'_>, has_in: bool, has_out: bool, first_port: usize) -> (r: Option<([JackPort; 8], usize)>)
    requires
        first_port + MAX_JACKS_PER_DEV <= usize::MAX,
    ensures
        final(parser)@ == parser_end(old(parser)@),
        r is None <==> too_many_jacks(midi_jacks(old(parser)@, has_in, has_out, Seq::empty())),
        r matches Some(found) ==> found.1 <= MAX_JACKS_PER_DEV && found.0@.subrange(
            0,
            found.1 as int,
        ) == ports_for(midi_jacks(old(parser)@, has_in, has_out, Seq::empty()), first_port as nat),
{
    let blank = JackPort { out: false, jack_id: 0, port_id: 0 };
    let mut jacks = [blank;8];
    let mut n: usize = 0;
    let mut ins: usize = 0;
    let mut outs: usize = 0;
    let ghost mut acc: Seq<(bool, u8)> = Seq::empty();
    let _left = parser.remaining();
    loop
        invariant
            parser@.pos <= parser@.bytes.len(),
            first_port + MAX_JACKS_PER_DEV <= usize::MAX,
            parser_end(parser@) == parser_end(old(parser)@),
            midi_jacks(parser@, has_in, has_out, acc) == midi_jacks(
                old(parser)@,
                has_in,
                has_out,
                Seq::empty(),
            ),
            ins == jacks_of_kind(acc, false),
            outs == jacks_of_kind(acc, true),
            ins + outs <= parser@.pos,
            n <= MAX_JACKS_PER_DEV,
            !too_many_jacks(acc) ==> n == acc.len() && jacks@.subrange(0, n as int) == ports_for(
                acc,
                first_port as nat,
            ),
        decreases parser@.bytes.len() - parser@.pos,
    {
        let found: Option<(bool, u8)> = match parser.next() {
            Some(desc) => {
                match desc {
                    DescriptorRef::Audio(AudioDescriptorRef::MSOutJack(out_jack)) => {
                        if out_jack.b_jack_type == JACK_TYPE_EMBEDDED && has_out {
                            Some((true, out_jack.b_jack_id))
                        } else {
                            None
                        }
                    },
                    DescriptorRef::Audio(AudioDescriptorRef::MSInJack(in_jack)) => {
                        if in_jack.b_jack_type == JACK_TYPE_EMBEDDED && has_in {
                            Some((false, in_jack.b_jack_id))
                        } else {
                            None
                        }
                    },
                    _ => None,
                }
            },
            None => {
                proof {
                    lemma_jacks_of_kinds(acc);
                }
                if ins > MAX_JACKS_PER_ENDPOINT || outs > MAX_JACKS_PER_ENDPOINT {
                    return None;
                } else {
                    return Some((jacks, n));
                }
            },
        };
        if let Some(jack) = found {
            let _pos = parser.position();
            let ghost before = acc;
            let ghost stored = jacks@;
            proof {
                acc = acc.push(jack);
                assert(acc.drop_last() =~= before);
                lemma_jacks_of_kinds(before);
                lemma_jacks_of_kinds(acc);
            }
            if jack.0 {
                outs = outs + 1;
            } else {
                ins = ins + 1;
            }
            if ins <= MAX_JACKS_PER_ENDPOINT && outs <= MAX_JACKS_PER_ENDPOINT {
                jacks[n] = JackPort { out: jack.0, jack_id: jack.1, port_id: first_port + n };
                n = n + 1;
                proof {
                    assert(jacks@.subrange(0, n as int) =~= ports_for(acc, first_port as nat)) by {
                        assert forall|i: int| 0 <= i < n - 1 implies jacks@[i] == ports_for(
                            acc,
                            first_port as nat,
                        )[i] by {
                            assert(jacks@[i] == stored[i]);
                            assert(stored.subrange(0, n - 1)[i] == ports_for(
                                before,
                                first_port as nat,
                            )[i]);
                        }
                    }
                }
            }
        }
    }
}

/// A MIDI device: its endpoint to the host, its endpoint to the device, and
/// its first `jack_count` jacks with their ports.
#[derive(Clone, Copy, Debug)]
pub struct MidiDevice {
    pub ep_in: Option<Endpoint>,
    pub ep_out: Option<Endpoint>,
    pub jacks: [JackPort; 8],
    pub jack_count: usize,
}

impl MidiDevice {
    /// The jacks of the device with their ports.
    pub open spec fn ports(self) -> Seq<JackPort> {
        self.jacks@.subrange(0, self.jack_count as int)
    }

    /// Whether the device has no more jacks than it has room for.
    pub open spec fn wf(self) -> bool {
        self.jack_count <= MAX_JACKS_PER_DEV
    }

    /// The place of the first jack of the kind `out` for which `m` holds,
    /// if there is one among the jacks that the device has room for.
    pub open spec fn first_jack(self, out: bool, m: spec_fn(JackPort) -> bool, from: int) -> Option<int>
        decreases MAX_JACKS_PER_DEV - from,
    {
        if from < 0 || from >= self.jack_count || from >= MAX_JACKS_PER_DEV {
            None
        } else if self.jacks@[from].out == out && m(self.jacks@[from]) {
            Some(from)
        } else {
            self.first_jack(out, m, from + 1)
        }
    }

    /// The port of the first jack of the kind `out` with the number `jack`.
    pub fn port_of_jack(&self, jack: JackId, out: bool) -> (port: Option<usize>)
        ensures
            port == match self.first_jack(out, |j: JackPort| j.jack_id == jack, 0) {
                Some(i) => Some(self.jacks@[i].port_id),
                None => None,
            },
    {
        let mut i: usize = 0;
        while i < self.jack_count && i < MAX_JACKS_PER_DEV
            invariant
                self.first_jack(out, |j: JackPort| j.jack_id == jack, i as int) == self.first_jack(
                    out,
                    |j: JackPort| j.jack_id == jack,
                    0,
                ),
            decreases MAX_JACKS_PER_DEV - i,
        {
            if self.jacks[i].out == out && self.jacks[i].jack_id == jack {
                return Some(self.jacks[i].port_id);
            }
            i += 1;
        }
        None
    }

    /// The number of the first jack of the kind `out` with the port `port`.
    pub fn jack_of_port(&self, port: usize, out: bool) -> (jack: Option<JackId>)
        ensures
            jack == match self.first_jack(out, |j: JackPort| j.port_id == port, 0) {
                Some(i) => Some(self.jacks@[i].jack_id),
                None => None,
            },
    {
        let mut i: usize = 0;
        while i < self.jack_count && i < MAX_JACKS_PER_DEV
            invariant
                self.first_jack(out, |j: JackPort| j.port_id == port, i as int) == self.first_jack(
                    out,
                    |j: JackPort| j.port_id == port,
                    0,
                ),
            decreases MAX_JACKS_PER_DEV - i,
        {
            if self.jacks[i].out == out && self.jacks[i].port_id == port {
                return Some(self.jacks[i].jack_id);
            }
            i += 1;
        }
        None
    }
}

/// A packet of a port.
#[derive(Clone, Copy, Debug, PartialEq, Eq)]
pub struct MidiEvent {
    /// The number of the port
    pub port_id: usize,
    /// The USB MIDI event packet
    pub packet: [u8; 4],
}

/// The devices that a `heapless::FnvIndexMap` holds, each under the number
/// of its address.
pub uninterp spec fn midi_devices(m: heapless::FnvIndexMap<u8, MidiDevice, 16>) -> Map<u8, MidiDevice>;

/// `heapless::IndexMap::new`: a map that holds nothing.
#[verifier::external_body]
fn devices_new() -> (m: heapless::FnvIndexMap<u8, MidiDevice, 16>)
    ensures
        midi_devices(m) =~= Map::empty(),
{
    heapless::IndexMap::new()
}

/// `heapless::IndexMap::get`: the value under `key`, if there is one.
#[verifier::external_body]
fn devices_get(m: &heapless::FnvIndexMap<u8, MidiDevice, 16>, key: u8) -> (r: Option<MidiDevice>)
    ensures
        r == if midi_devices(*m).dom().contains(key) {
            Some(midi_devices(*m)[key])
        } else {
            None
        },
{
    match m.get(&key) {
        Some(d) => Some(*d),
        None => None,
    }
}

/// `heapless::IndexMap::insert`: puts `value` under `key`, in the place of
/// the value that was there, if there was one; a key that is new to a map
/// that holds 16 keys is refused and the map stays as it is. The result
/// says whether the value is in the map.
#[verifier::external_body]
fn devices_insert(m: &mut heapless::FnvIndexMap<u8, MidiDevice, 16>, key: u8, value: MidiDevice) -> (inserted: bool)
    ensures
        inserted == (midi_devices(*old(m)).dom().contains(key) || midi_devices(
            *old(m),
        ).dom().len() < MAX_MIDI_DEVICES),
        inserted ==> midi_devices(*final(m)) == midi_devices(*old(m)).insert(key, value),
        !inserted ==> midi_devices(*final(m)) == midi_devices(*old(m)),
{
    m.insert(key, value).is_ok()
}

/// `heapless::IndexMap::remove`: takes `key` and its value out of the map
/// and returns the value, if there was one.
#[verifier::external_body]
fn devices_remove(m: &mut heapless::FnvIndexMap<u8, MidiDevice, 16>, key: u8) -> (r: Option<MidiDevice>)
    ensures
        midi_devices(*final(m)) == midi_devices(*old(m)).remove(key),
        r == if midi_devices(*old(m)).dom().contains(key) {
            Some(midi_devices(*old(m))[key])
        } else {
            None
        },
{
    m.remove(&key)
}

/// The packets that a `heapless::Vec` holds, in their order.
pub uninterp spec fn midi_queue(q: heapless::Vec<MidiEvent, 16>) -> Seq<MidiEvent>;

/// `heapless::Vec::new`: a vector that holds nothing.
#[verifier::external_body]
fn queue_new() -> (q: heapless::Vec<MidiEvent, 16>)
    ensures
        midi_queue(q) =~= Seq::empty(),
{
    heapless::Vec::new()
}

/// The length of the slice of a `heapless::Vec`: the number of packets in
/// it, which is never more than its capacity of 16.
#[verifier::external_body]
fn queue_len(q: &heapless::Vec<MidiEvent, 16>) -> (n: usize)
    ensures
        n == midi_queue(*q).len(),
        n <= MAX_QUEUED_PACKETS,
{
    q.len()
}

/// `heapless::Vec::push`: appends the packet where fewer than 16 are held,
/// and refuses it where the vector is full, which then stays as it is. The
/// result says whether the packet was appended.
#[verifier::external_body]
fn queue_push(q: &mut heapless::Vec<MidiEvent, 16>, event: MidiEvent) -> (pushed: bool)
    ensures
        pushed == (midi_queue(*old(q)).len() < MAX_QUEUED_PACKETS),
        pushed ==> midi_queue(*final(q)) == midi_queue(*old(q)).push(event),
        !pushed ==> midi_queue(*final(q)) == midi_queue(*old(q)),
{
    q.push(event).is_ok()
}

/// Indexing the slice of a `heapless::Vec`: the packet at `i`.
#[verifier::external_body]
fn queue_get(q: &heapless::Vec<MidiEvent, 16>, i: usize) -> (event: MidiEvent)
    requires
        i < midi_queue(*q).len(),
    ensures
        event == midi_queue(*q)[i as int],
{
    q[i]
}

/// `heapless::Vec::remove`: takes the packet at `i` out of the vector and
/// returns it; the packets behind it move up.
#[verifier::external_body]
fn queue_remove(q: &mut heapless::Vec<MidiEvent, 16>, i: usize) -> (event: MidiEvent)
    requires
        i < midi_queue(*old(q)).len(),
    ensures
        event == midi_queue(*old(q))[i as int],
        midi_queue(*final(q)) == midi_queue(*old(q)).remove(i as int),
{
    q.remove(i)
}

/// The MIDI device at `addr` that the endpoints `ep_in` and `ep_out` and
/// the jacks `jacks` make.
pub open spec fn midi_device_of(
    addr: DevAddress,
    ep_in: Option<EndpointDescriptor>,
    ep_out: Option<EndpointDescriptor>,
    d: MidiDevice,
) -> bool {
    &&& d.ep_in == match ep_in {
        Some(e) => Some(
            Endpoint::spec_from_raw(addr, e.w_max_packet_size, e.b_endpoint_address, e.bm_attributes),
        ),
        None => None,
    }
    &&& d.ep_out == match ep_out {
        Some(e) => Some(
            Endpoint::spec_from_raw(addr, e.w_max_packet_size, e.b_endpoint_address, e.bm_attributes),
        ),
        None => None,
    }
}

/// Driver for USB MIDI devices.
pub struct UsbMidiDriver {
    /// Keep track of endpoints, jacks and ports for each device
    devices: heapless::FnvIndexMap<u8, MidiDevice, 16>,
    /// The packets on their way to the devices
    outbox: heapless::Vec<MidiEvent, 16>,
    /// The packets that came from the devices
    inbox: heapless::Vec<MidiEvent, 16>,
    next_port_id: usize,
}

impl UsbMidiDriver {
    /// The devices of the driver, each under the number of its address.
    pub closed spec fn devices(&self) -> Map<u8, MidiDevice> {
        midi_devices(self.devices)
    }

    /// The packets on their way to the devices.
    pub closed spec fn outbox(&self) -> Seq<MidiEvent> {
        midi_queue(self.outbox)
    }

    /// The packets that came from the devices.
    pub closed spec fn inbox(&self) -> Seq<MidiEvent> {
        midi_queue(self.inbox)
    }

    /// The number of the next port.
    pub closed spec fn next_port(&self) -> usize {
        self.next_port_id
    }

    /// Whether every device has no more jacks than it has room for.
    pub open spec fn wf(&self) -> bool {
        forall|a: u8| self.devices().dom().contains(a) ==> (#[trigger] self.devices()[a]).wf()
    }

    /// A driver without devices and without packets.
    pub fn new() -> (d: Self)
        ensures
            d.wf(),
            d.devices() =~= Map::empty(),
            d.outbox().len() == 0,
            d.inbox().len() == 0,
            d.next_port() == 0,
    {
        UsbMidiDriver {
            devices: devices_new(),
            outbox: queue_new(),
            inbox: queue_new(),
            next_port_id: 0,
        }
    }

    /// The device at `addr`, if the driver has it.
    pub fn device(&self, addr: DevAddress) -> (d: Option<MidiDevice>)
        ensures
            d == if self.devices().dom().contains(addr@) {
                Some(self.devices()[addr@])
            } else {
                None
            },
    {
        devices_get(&self.devices, addr.number())
    }

    /// Queues `packet` for the jack of the port `port_id`. The result says
    /// whether there was room for it.
    pub fn send(&mut self, port_id: usize, packet: [u8; 4]) -> (queued: bool)
        ensures
            queued == (old(self).outbox().len() < MAX_QUEUED_PACKETS),
            queued ==> final(self).outbox() == old(self).outbox().push(MidiEvent { port_id, packet }),
            !queued ==> final(self).outbox() == old(self).outbox(),
            final(self).inbox() == old(self).inbox(),
            final(self).devices() == old(self).devices(),
            final(self).next_port() == old(self).next_port(),
    {
        queue_push(&mut self.outbox, MidiEvent { port_id, packet })
    }

    /// Takes the packet that came first of those that came from the
    /// devices.
    pub fn receive(&mut self) -> (event: Option<MidiEvent>)
        ensures
            old(self).inbox().len() == 0 ==> event is None && final(self).inbox() == old(self).inbox(),
            old(self).inbox().len() > 0 ==> event == Some(old(self).inbox()[0]) && final(self).inbox() == old(self).inbox().remove(0),
            final(self).outbox() == old(self).outbox(),
            final(self).devices() == old(self).devices(),
            final(self).next_port() == old(self).next_port(),
    {
        if queue_len(&self.inbox) == 0 {
            None
        } else {
            Some(queue_remove(&mut self.inbox, 0))
        }
    }
}

/// The endpoint of the device at `addr` that `e` describes, if `e` is one.
fn endpoint_for(addr: DevAddress, e: Option<EndpointDescriptor>) -> (ep: Option<Endpoint>)
    ensures
        ep == match e {
            Some(e) => Some(
                Endpoint::spec_from_raw(
                    addr,
                    e.w_max_packet_size,
                    e.b_endpoint_address,
                    e.bm_attributes,
                ),
            ),
            None => None,
        },
{
    match e {
        Some(e) => Some(
            Endpoint::from_raw(addr, e.max_packet_size(), e.b_endpoint_address, e.bm_attributes),
        ),
        None => None,
    }
}

/// The jack of the device `dev` that the packet `event` is for, if it is
/// for one of its MIDI OUT jacks.
pub open spec fn out_jack_of(dev: MidiDevice, event: MidiEvent) -> Option<JackId> {
    match dev.first_jack(true, |j: JackPort| j.port_id == event.port_id, 0) {
        Some(i) => Some(dev.jacks@[i].jack_id),
        None => None,
    }
}

/// The place of the first packet among `outbox` from `from` on that is for
/// a MIDI OUT jack of the device `dev`.
pub open spec fn first_outgoing(outbox: Seq<MidiEvent>, dev: MidiDevice, from: int) -> Option<int>
    decreases outbox.len() - from,
{
    if from < 0 || from >= outbox.len() {
        None
    } else if out_jack_of(dev, outbox[from]) is Some {
        Some(from)
    } else {
        first_outgoing(outbox, dev, from + 1)
    }
}

/// The place that `first_outgoing` finds is one of `outbox`, at `from` or
/// behind it.
pub proof fn lemma_first_outgoing(outbox: Seq<MidiEvent>, dev: MidiDevice, from: int)
    ensures
        first_outgoing(outbox, dev, from) matches Some(i) ==> from <= i < outbox.len()
            && out_jack_of(dev, outbox[i]) is Some,
    decreases outbox.len() - from,
{
    if 0 <= from < outbox.len() && out_jack_of(dev, outbox[from]) is None {
        lemma_first_outgoing(outbox, dev, from + 1);
    }
}

/// The port of the MIDI IN jack of the device `dev` that the packet
/// `packet` came from, by its cable number.
pub open spec fn in_port_of(dev: MidiDevice, packet: [u8; 4]) -> Option<usize> {
    match dev.first_jack(false, |j: JackPort| j.jack_id == spec_cable_number(packet), 0) {
        Some(i) => Some(dev.jacks@[i].port_id),
        None => None,
    }
}

/// The packets `inbox` and behind them those of the packets in `bytes` from
/// the offset `k` on that came from a MIDI IN jack of the device `dev`, each
/// under the port of its jack, as far as there is room for them. Bytes at
/// the end that make no whole packet do not count.
pub open spec fn routed_in(dev: MidiDevice, bytes: Seq<u8>, k: int, inbox: Seq<MidiEvent>) -> Seq<MidiEvent>
    decreases bytes.len() - k,
{
    if k < 0 || k + USB_MIDI_PACKET_LEN > bytes.len() {
        inbox
    } else {
        let packet = [bytes[k], bytes[k + 1], bytes[k + 2], bytes[k + 3]];
        routed_in(
            dev,
            bytes,
            k + USB_MIDI_PACKET_LEN,
            match in_port_of(dev, packet) {
                Some(port_id) => if inbox.len() < MAX_QUEUED_PACKETS {
                    inbox.push(MidiEvent { port_id, packet })
                } else {
                    inbox
                },
                None => inbox,
            },
        )
    }
}

impl UsbMidiDriver {
    /// Takes the first of the waiting packets that is for a MIDI OUT jack
    /// of the device `dev`, cf [`first_outgoing`], and returns it with the
    /// number of the jack for its cable number.
    pub fn take_outgoing(&mut self, dev: &MidiDevice) -> (packet: Option<[u8; 4]>)
        ensures
            final(self).inbox() == old(self).inbox(),
            final(self).devices() == old(self).devices(),
            final(self).next_port() == old(self).next_port(),
            match first_outgoing(old(self).outbox(), *dev, 0) {
                Some(i) => final(self).outbox() == old(self).outbox().remove(i) && (packet matches Some(
                    tagged,
                ) && tagged@ == spec_with_cable_number(
                    old(self).outbox()[i].packet,
                    out_jack_of(*dev, old(self).outbox()[i]).unwrap(),
                )),
                None => packet is None && final(self).outbox() == old(self).outbox(),
            },
    {
        let n = queue_len(&self.outbox);
        let mut i: usize = 0;
        while i < n
            invariant
                i <= n,
                n == midi_queue(self.outbox).len(),
                *self == *old(self),
                first_outgoing(midi_queue(self.outbox), *dev, i as int) == first_outgoing(
                    midi_queue(self.outbox),
                    *dev,
                    0,
                ),
            decreases n - i,
        {
            let event = queue_get(&self.outbox, i);
            if let Some(jack) = dev.jack_of_port(event.port_id, true) {
                // sent packets are edited with the cable_num / jack_id of their MIDI port
                let tagged = with_cable_number(&event.packet, jack);
                let _ = queue_remove(&mut self.outbox, i);
                return Some(tagged);
            }
            i += 1;
        }
        None
    }

    /// Takes in the bytes `bytes` that the device `dev` sent: each whole
    /// packet that came from a MIDI IN jack of the device is queued under
    /// the port of the jack, cf [`routed_in`].
    pub fn route_received(&mut self, dev: &MidiDevice, bytes: &[u8])
        ensures
            final(self).inbox() == routed_in(*dev, bytes@, 0, old(self).inbox()),
            final(self).outbox() == old(self).outbox(),
            final(self).devices() == old(self).devices(),
            final(self).next_port() == old(self).next_port(),
    {
        let len = bytes.len();
        let mut k: usize = 0;
        while k < len && len - k >= USB_MIDI_PACKET_LEN
            invariant
                len == bytes@.len(),
                k <= len,
                self.devices == old(self).devices,
                self.outbox == old(self).outbox,
                self.next_port_id == old(self).next_port_id,
                routed_in(*dev, bytes@, k as int, midi_queue(self.inbox)) == routed_in(
                    *dev,
                    bytes@,
                    0,
                    midi_queue(old(self).inbox),
                ),
            decreases len - k,
        {
            // received packets are dispatched to ports according to their cable_num / jack_id
            let packet = [bytes[k], bytes[k + 1], bytes[k + 2], bytes[k + 3]];
            if let Some(port_id) = dev.port_of_jack(cable_number(&packet), false) {
                let _ = queue_push(&mut self.inbox, MidiEvent { port_id, packet });
            }
            k += USB_MIDI_PACKET_LEN;
        }
    }
}

/// What `register` of the MIDI driver `m0` with the device `d0` and a
/// parser at `conf` leads to. The device stays, and so do the packets that
/// wait. The last endpoint to the host and the last to the device are kept,
/// cf [`midi_endpoints`], and each embedded jack of the configuration gets
/// the next port, cf [`midi_jacks`] and [`ports_for`]. A device with more
/// than `MAX_ENDPOINTS_PER_DEV` endpoints, with more than
/// `MAX_JACKS_PER_ENDPOINT` jacks of one kind, or one beyond
/// `MAX_MIDI_DEVICES` devices is refused, and the driver stays as it is.
pub open spec fn midi_registered(
    m0: UsbMidiDriver,
    m1: UsbMidiDriver,
    d0: Device,
    d1: Device,
    conf: ParserView,
    r: Result<(), UsbError>,
) -> bool {
    let eps = midi_endpoints(conf, EndpointScan { ep_in: None, ep_out: None, count: 0 });
    let jacks = midi_jacks(
        ParserView { pos: 0, ..parser_end(conf) },
        eps.ep_in is Some,
        eps.ep_out is Some,
        Seq::empty(),
    );
    let addr = d0@.address;
    &&& d1 == d0
    &&& m1.outbox() == m0.outbox()
    &&& m1.inbox() == m0.inbox()
    &&& r is Err ==> m1.devices() == m0.devices() && m1.next_port() == m0.next_port()
    &&& if eps.count > MAX_ENDPOINTS_PER_DEV {
        r == Err::<(), UsbError>(UsbError::TooManyEndpoints)
    } else if m0.next_port() + MAX_JACKS_PER_DEV > usize::MAX || too_many_jacks(jacks) {
        r == Err::<(), UsbError>(UsbError::OutOfRange)
    } else if !m0.devices().dom().contains(addr@) && m0.devices().dom().len()
        >= MAX_MIDI_DEVICES {
        r == Err::<(), UsbError>(UsbError::TooManyDevices)
    } else {
        &&& r is Ok
        &&& m1.next_port() == m0.next_port() + jacks.len()
        &&& m1.devices().dom() =~= m0.devices().dom().insert(addr@)
        &&& forall|a: u8|
            a != addr@ && m0.devices().dom().contains(a) ==> #[trigger] m1.devices()[a]
                == m0.devices()[a]
        &&& midi_device_of(addr, eps.ep_in, eps.ep_out, m1.devices()[addr@])
        &&& m1.devices()[addr@].ports() == ports_for(jacks, m0.next_port() as nat)
    }
}

/// The packet that goes out for the waiting packet `event`: its bytes with
/// the number of the MIDI OUT jack of `dev` that it is for as the cable
/// number.
pub open spec fn outgoing_bytes(dev: MidiDevice, event: MidiEvent) -> Seq<u8> {
    spec_with_cable_number(event.packet, out_jack_of(dev, event).unwrap())
}

/// Whether at most `left` of the packets `q0` that are for a MIDI OUT jack
/// of the device `dev` went out through the endpoint `e0`, one transfer
/// each, cf [`out_call`], in the order in which they waited: `log` holds
/// these transfers and what the host answered, and the endpoint `e1` and the
/// waiting packets `q1` are what this leaves. Of an answer only the data
/// toggle is kept.
pub open spec fn packets_sent(
    e0: Endpoint,
    e1: Endpoint,
    dev: MidiDevice,
    q0: Seq<MidiEvent>,
    q1: Seq<MidiEvent>,
    left: nat,
    log: Seq<HostStep>,
) -> bool
    decreases left,
{
    if left == 0 {
        e1 == e0 && q1 == q0 && log.len() == 0
    } else {
        match first_outgoing(q0, dev, 0) {
            None => e1 == e0 && q1 == q0 && log.len() == 0,
            Some(i) => {
                &&& log.len() > 0
                &&& log[0].call == out_call(e0, outgoing_bytes(dev, q0[i]))
                &&& log[0].answer matches HostAnswer::Transferred(t)
                &&& packets_sent(
                    e0.spec_with_toggle(t.toggle),
                    e1,
                    dev,
                    q0.remove(i),
                    q1,
                    (left - 1) as nat,
                    log.skip(1),
                )
            },
        }
    }
}

/// What the turn of the MIDI driver `m0` with the device `d0` leads to,
/// where the host was asked what `log` holds and gave the answers of `log`.
///
/// A device that the driver does not have is left alone, and the host is
/// not asked. Of a device that it has, the waiting packets for its MIDI OUT
/// jacks go to its endpoint to the device, cf [`packets_sent`], as many as
/// waited at most. Then its endpoint to the host is asked for 64 bytes, cf
/// [`in_call`], and the bytes that came are taken in, cf [`routed_in`]. The
/// data toggles of the two endpoints are kept. The device itself stays, and
/// the result is `Ok` whatever the host answers.
pub open spec fn midi_turned(
    m0: UsbMidiDriver,
    m1: UsbMidiDriver,
    d0: Device,
    d1: Device,
    r: Result<(), UsbError>,
    log: Seq<HostStep>,
) -> bool {
    let addr = d0@.address@;
    &&& r is Ok
    &&& d1 == d0
    &&& m1.next_port() == m0.next_port()
    &&& if !m0.devices().dom().contains(addr) {
        log.len() == 0 && m1.devices() == m0.devices() && m1.outbox() == m0.outbox()
            && m1.inbox() == m0.inbox()
    } else {
        let dev = m0.devices()[addr];
        let dev1 = m1.devices()[addr];
        let sent = if dev.ep_in is Some {
            log.drop_last()
        } else {
            log
        };
        &&& m1.devices() == m0.devices().insert(addr, dev1)
        &&& dev1.jacks == dev.jacks
        &&& dev1.jack_count == dev.jack_count
        &&& match dev.ep_out {
            Some(e0) => dev1.ep_out matches Some(e1) && packets_sent(
                e0,
                e1,
                dev,
                m0.outbox(),
                m1.outbox(),
                m0.outbox().len(),
                sent,
            ),
            None => dev1.ep_out is None && sent.len() == 0 && m1.outbox() == m0.outbox(),
        }
        &&& match dev.ep_in {
            Some(e0) => {
                &&& log.len() > 0
                &&& log.last().call == in_call(e0, zeros(64))
                &&& log.last().answer matches HostAnswer::Transferred(t)
                &&& t.data matches Some(bytes)
                &&& dev1.ep_in == Some(e0.spec_with_toggle(t.toggle))
                &&& m1.inbox() == match t.result {
                    Ok(len) => routed_in(
                        MidiDevice { ep_out: dev1.ep_out, ..dev },
                        bytes.subrange(0, len as int),
                        0,
                        m0.inbox(),
                    ),
                    Err(_) => m0.inbox(),
                }
            },
            None => dev1.ep_in is None && m1.inbox() == m0.inbox(),
        }
    }
}

/// What the MIDI driver says of a configuration at `conf`: it takes the
/// first MIDI streaming interface of the configuration, cf
/// [`midi_interface_in`].
pub open spec fn midi_accepts(conf: ParserView) -> Option<(DeviceClass, ConfigNum, InterfaceNum)> {
    match midi_interface_in(conf, None, None) {
        Some(found) => Some((DeviceClass::Audio, found.0, found.1)),
        None => None,
    }
}

/// What `unregister` of the MIDI driver `m0` with the address `address`
/// leads to: the device at that address is forgotten, with its endpoints,
/// jacks and ports; the packets that wait stay.
pub open spec fn midi_unregistered(m0: UsbMidiDriver, m1: UsbMidiDriver, address: DevAddress) -> bool {
    &&& m1.devices() == m0.devices().remove(address@)
    &&& m1.outbox() == m0.outbox()
    &&& m1.inbox() == m0.inbox()
    &&& m1.next_port() == m0.next_port()
}

/// What the MIDI driver says of a device whose configuration is selected:
/// the device stays, the host is not asked, and the device runs from then
/// on.
pub open spec fn midi_config_set(
    device: Device,
    device_after: Device,
    state: DeviceState,
    log: HostLog,
) -> bool {
    device_after == device && log.len() == 0 && state == DeviceState::Running
}

impl Driver for UsbMidiDriver {
    open spec fn registers(
        &self,
        device: Device,
        conf: ParserView,
        after: Self,
        device_after: Device,
        r: Result<(), UsbError>,
    ) -> bool {
        midi_registered(*self, after, device, device_after, conf, r)
    }

    open spec fn unregisters(&self, address: DevAddress, after: Self) -> bool {
        midi_unregistered(*self, after, address)
    }

    open spec fn config_set(
        &self,
        device: Device,
        device_after: Device,
        state: DeviceState,
        log: HostLog,
    ) -> bool {
        midi_config_set(device, device_after, state, log)
    }

    open spec fn runs(
        &self,
        device: Device,
        after: Self,
        device_after: Device,
        r: Result<(), UsbError>,
        log: HostLog,
    ) -> bool {
        midi_turned(*self, after, device, device_after, r, log)
    }

    fn name(&self) -> &str {
        "UsbMidi"
    }

    open spec fn spec_accept(&self, device: DeviceView, conf: ParserView) -> Option<
        (DeviceClass, ConfigNum, InterfaceNum),
    > {
        midi_accepts(conf)
    }

    /// Takes the first MIDI streaming interface of the configuration, cf
    /// [`midi_interface_in`].
    fn accept(&self, _device: &mut Device, parser: &mut DescriptorParser<'_>) -> (r: Option<(DeviceClass, ConfigNum, InterfaceNum)>)
        ensures
            *final(_device) == *old(_device),
            final(parser)@.bytes == old(parser)@.bytes,
            r == match midi_interface_in(old(parser)@, None, None) {
                Some(found) => Some((DeviceClass::Audio, found.0, found.1)),
                None => None,
            },
    {
        match find_midi_interface(parser) {
            Some(found) => Some((DeviceClass::Audio, found.0, found.1)),
            None => None,
        }
    }

    /// Makes a note of the endpoints and of the embedded jacks of the
    /// device, and gives each jack a port. First the endpoints are read, cf
    /// [`midi_endpoints`]: the last to the host and the last to the device
    /// are kept. Then the configuration is read anew for the jacks, cf
    /// [`midi_jacks`]. A device with more than `MAX_ENDPOINTS_PER_DEV`
    /// endpoints, with more than `MAX_JACKS_PER_ENDPOINT` jacks of one kind,
    /// or one beyond `MAX_MIDI_DEVICES` devices is refused, and the driver
    /// stays as it is.
    fn register(&mut self, device: &mut Device, parser: &mut DescriptorParser<'_>) -> (r: Result<(), UsbError>)
        ensures
            midi_registered(
                *old(self),
                *final(self),
                *old(device),
                *final(device),
                old(parser)@,
                r,
            ),
            *final(device) == *old(device),
            final(self).outbox() == old(self).outbox(),
            final(self).inbox() == old(self).inbox(),
            old(self).wf() ==> final(self).wf(),
            r is Err ==> final(self).devices() == old(self).devices() && final(self).next_port()
                == old(self).next_port(),
            ({
                let eps = midi_endpoints(
                    old(parser)@,
                    EndpointScan { ep_in: None, ep_out: None, count: 0 },
                );
                let jacks = midi_jacks(
                    ParserView { pos: 0, ..parser_end(old(parser)@) },
                    eps.ep_in is Some,
                    eps.ep_out is Some,
                    Seq::empty(),
                );
                let addr = old(device)@.address;
                if eps.count > MAX_ENDPOINTS_PER_DEV {
                    r == Err::<(), UsbError>(UsbError::TooManyEndpoints)
                } else if old(self).next_port() + MAX_JACKS_PER_DEV > usize::MAX || too_many_jacks(
                    jacks,
                ) {
                    r == Err::<(), UsbError>(UsbError::OutOfRange)
                } else if !old(self).devices().dom().contains(addr@) && old(self).devices().dom().len() >= MAX_MIDI_DEVICES {
                    r == Err::<(), UsbError>(UsbError::TooManyDevices)
                } else {
                    &&& r is Ok
                    &&& final(self).next_port() == old(self).next_port() + jacks.len()
                    &&& final(self).devices().dom() =~= old(self).devices().dom().insert(addr@)
                    &&& forall|a: u8|
                        a != addr@ && old(self).devices().dom().contains(a) ==> #[trigger] final(self).devices()[a] == old(self).devices()[a]
                    &&& midi_device_of(addr, eps.ep_in, eps.ep_out, final(self).devices()[addr@])
                    &&& final(self).devices()[addr@].ports() == ports_for(
                        jacks,
                        old(self).next_port() as nat,
                    )
                }
            }),
    {
        let dev_addr = device.device_address();
        proof {
            crate::device::lemma_device_endpoint(*device, false);
        }
        // phase 1 - identify interface and endpoints
        let (ep_in, ep_out, too_many) = scan_endpoints(parser);
        if too_many {
            return Err(UsbError::TooManyEndpoints);
        }
        if self.next_port_id > usize::MAX - MAX_JACKS_PER_DEV {
            return Err(UsbError::OutOfRange);
        }
        // phase 2 - create ports for each jack

        parser.rewind();
        let (jacks, jack_count) = match scan_jacks(
            parser,
            ep_in.is_some(),
            ep_out.is_some(),
            self.next_port_id,
        ) {
            Some(found) => found,
            None => {
                return Err(UsbError::OutOfRange);
            },
        };
        let midi_device = MidiDevice {
            ep_in: endpoint_for(dev_addr, ep_in),
            ep_out: endpoint_for(dev_addr, ep_out),
            jacks,
            jack_count,
        };
        let ghost held = midi_devices(self.devices);
        let ghost jacks_found = midi_jacks(
            ParserView { pos: 0, ..parser_end(old(parser)@) },
            ep_in is Some,
            ep_out is Some,
            Seq::empty(),
        );
        proof {
            assert(midi_device.ports().len() == jack_count);
            assert(ports_for(jacks_found, self.next_port_id as nat).len() == jacks_found.len());
        }
        if !devices_insert(&mut self.devices, dev_addr.number(), midi_device) {
            proof {
                assert(midi_devices(self.devices) == held);
                assert forall|a: u8| self.devices().dom().contains(a) implies (
                #[trigger] self.devices()[a]).wf() == old(self).devices()[a].wf() by {}
            }
            return Err(UsbError::TooManyDevices);
        }
        self.next_port_id = self.next_port_id + jack_count;
        proof {
            assert(midi_devices(self.devices).dom() =~= held.dom().insert(dev_addr@));
            assert(midi_device.wf());
            assert forall|a: u8| self.devices().dom().contains(a) && old(self).wf() implies (
            #[trigger] self.devices()[a]).wf() by {
                if a != dev_addr@ {
                    assert(self.devices()[a] == old(self).devices()[a]);
                }
            }
        }
        Ok(())
    }

    /// Forgets the device at `address`, with its endpoints, jacks and
    /// ports.
    fn unregister(&mut self, address: DevAddress)
        ensures
            final(self).devices() == old(self).devices().remove(address@),
            final(self).outbox() == old(self).outbox(),
            final(self).inbox() == old(self).inbox(),
            final(self).next_port() == old(self).next_port(),
    {
        let _ = devices_remove(&mut self.devices, address.number());
    }

    /// A MIDI device has nothing selected first: it runs once its
    /// configuration is selected. The device and the host stay as they are.
    fn state_after_config_set<H: UsbHost>(&self, _host: &mut H, _device: &mut Device) -> (s: DeviceState)
        ensures
            s == DeviceState::Running,
            *final(_device) == *old(_device),
            *final(_host) == *old(_host),
    {
        proof {
            assert(followed(*_host, *_host, Seq::<HostStep>::empty()));
            assert(self.config_set(
                *old(_device),
                *_device,
                DeviceState::Running,
                Seq::<HostStep>::empty(),
            ));
        }
        DeviceState::Running
    }

    /// The turn of a MIDI device. The packets that wait for the MIDI OUT
    /// jacks of the device go to its endpoint to the device, each with the
    /// number of its jack for the cable number. Then the endpoint to the
    /// host is read, and each packet that came for a MIDI IN jack of the
    /// device is queued under the port of the jack. A device that the driver
    /// does not have is left alone.
    fn run<H: UsbHost>(&mut self, host: &mut H, device: &mut Device) -> (r: Result<(), UsbError>)
        ensures
            r is Ok,
            *final(device) == *old(device),
            final(self).next_port() == old(self).next_port(),
            final(self).devices().dom() =~= old(self).devices().dom(),
            !old(self).devices().dom().contains(old(device)@.address@) ==> *final(host) == *old(host) && final(self).devices() == old(self).devices() && final(self).outbox() == old(self).outbox() && final(self).inbox() == old(self).inbox(),
    {
        let addr = device.device_address().number();
        let ghost nothing = Seq::<HostStep>::empty();
        proof {
            crate::device::lemma_device_endpoint(*device, false);
            assert(followed(*host, *host, nothing));
        }
        let mut dev = match devices_get(&self.devices, addr) {
            Some(d) => d,
            None => {
                proof {
                    assert(old(self).runs(*old(device), *self, *device, Ok::<(), UsbError>(()), nothing));
                }
                return Ok(());
            },
        };
        let ghost dev0 = dev;
        let ghost mut sent = nothing;
        if let Some(ep) = dev.ep_out {
            let mut ep = ep;
            let ghost ep0 = ep;
            let mut left = queue_len(&self.outbox);
            let ghost waiting = left as nat;
            proof {
                assert forall|e: Endpoint, q: Seq<MidiEvent>, rest: Seq<HostStep>| #[trigger]
                    packets_sent(ep, e, dev0, self.outbox(), q, left as nat, rest) implies packets_sent(
                    ep0,
                    e,
                    dev0,
                    old(self).outbox(),
                    q,
                    waiting,
                    sent + rest,
                ) by {
                    assert(sent + rest =~= rest);
                }
            }
            while left > 0
                invariant
                    self.next_port() == old(self).next_port(),
                    self.devices() == old(self).devices(),
                    self.inbox() == old(self).inbox(),
                    *device == *old(device),
                    dev == dev0,
                    followed(*old(host), *host, sent),
                    forall|e: Endpoint, q: Seq<MidiEvent>, rest: Seq<HostStep>| #[trigger]
                        packets_sent(ep, e, dev0, self.outbox(), q, left as nat, rest)
                            ==> packets_sent(
                            ep0,
                            e,
                            dev0,
                            old(self).outbox(),
                            q,
                            waiting,
                            sent + rest,
                        ),
                ensures
                    left == 0 || first_outgoing(self.outbox(), dev0, 0) is None,
                decreases left,
            {
                let ghost host_before = *host;
                let ghost ep_before = ep;
                let ghost waiting_before = self.outbox();
                let ghost sent_before = sent;
                let ghost left_before = left as nat;
                match self.take_outgoing(&dev) {
                    Some(packet) => {
                        let written = host.out_transfer(&mut ep, &packet);
                        left -= 1;
                        proof {
                            let i = first_outgoing(waiting_before, dev0, 0).unwrap();
                            lemma_first_outgoing(waiting_before, dev0, 0);
                            let step = HostStep {
                                call: out_call(ep_before, outgoing_bytes(dev0, waiting_before[i])),
                                answer: HostAnswer::Transferred(
                                    Transferred {
                                        toggle: ep.spec_toggle(),
                                        data: None,
                                        result: written,
                                    },
                                ),
                            };
                            lemma_followed_push(*old(host), host_before, *host, sent_before, step);
                            sent = sent_before.push(step);
                            assert forall|e: Endpoint, q: Seq<MidiEvent>, rest: Seq<HostStep>| #[trigger]
                                packets_sent(
                                    ep,
                                    e,
                                    dev0,
                                    self.outbox(),
                                    q,
                                    left as nat,
                                    rest,
                                ) implies packets_sent(
                                ep0,
                                e,
                                dev0,
                                old(self).outbox(),
                                q,
                                waiting,
                                sent + rest,
                            ) by {
                                let more = seq![step] + rest;
                                assert(more[0] == step);
                                assert(more.skip(1) =~= rest);
                                assert(packets_sent(
                                    ep_before,
                                    e,
                                    dev0,
                                    waiting_before,
                                    q,
                                    left_before,
                                    more,
                                ));
                                assert(sent_before + more =~= sent + rest);
                            }
                        }
                    },
                    None => {
                        break ;
                    },
                }
            }
            proof {
                assert(packets_sent(ep, ep, dev0, self.outbox(), self.outbox(), left as nat, nothing));
                assert(sent + nothing =~= sent);
            }
            dev.ep_out = Some(ep);
        }
        let ghost log = sent;
        if let Some(ep) = dev.ep_in {
            let mut ep = ep;
            let ghost ep0 = ep;
            let ghost host_before = *host;
            let mut buf = [0u8;64];
            assert(buf@ =~= zeros(64));
            let read = host.in_transfer(&mut ep, &mut buf);
            proof {
                let step = HostStep {
                    call: in_call(ep0, zeros(64)),
                    answer: HostAnswer::Transferred(
                        Transferred { toggle: ep.spec_toggle(), data: Some(buf@), result: read },
                    ),
                };
                lemma_followed_push(*old(host), host_before, *host, sent, step);
                log = sent.push(step);
                assert(log.drop_last() =~= sent);
            }
            match read {
                Ok(len) => {
                    self.route_received(&dev, vstd::slice::slice_subrange(buf.as_slice(), 0, len));
                },
                Err(_) => {},
            }
            dev.ep_in = Some(ep);
        }
        let ghost held = midi_devices(self.devices);
        let _ = devices_insert(&mut self.devices, addr, dev);
        proof {
            assert(held.insert(addr, dev).dom() =~= held.dom());
            assert(old(self).runs(*old(device), *self, *device, Ok::<(), UsbError>(()), log));
        }
        Ok(())
    }
}

} // verus!
