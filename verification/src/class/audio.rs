//! The class-specific descriptors of audio functions: audio control, audio
//! streaming and MIDI streaming.
use crate::bits::{from_le16, from_le32, half_word, hi_byte, le16, le32, lemma_field16_bound, lemma_le16_round_trip, lemma_le32_round_trip, lo_byte, word, word_byte};
use crate::descriptor::DescriptorType;
use vstd::prelude::*;

verus! {

/// The subclasses of the audio class.
#[derive(Copy, Clone, Debug, PartialEq, Eq, Structural)]
pub enum AudioSubclass {
    AudioControl,
    AudioStream,
    MidiStream,
}

impl AudioSubclass {
    /// The byte that stands for the value.
    pub open spec fn code(self) -> u8 {
        match self {
            Self::AudioControl => 0x01,
            Self::AudioStream => 0x02,
            Self::MidiStream => 0x03,
        }
    }

    /// The value that the byte `v` stands for, if it stands for one.
    pub open spec fn of_code(v: u8) -> Option<Self> {
        if v == 0x01 {
            Some(Self::AudioControl)
        } else if v == 0x02 {
            Some(Self::AudioStream)
        } else if v == 0x03 {
            Some(Self::MidiStream)
        } else {
            None
        }
    }

    /// The byte that stands for the value.
    pub fn bits(self) -> (b: u8)
        ensures
            b == self.code(),
            Self::of_code(b) == Some(self),
    {
        match self {
            Self::AudioControl => 0x01,
            Self::AudioStream => 0x02,
            Self::MidiStream => 0x03,
        }
    }

    /// The value that the byte `v` stands for, if it stands for one.
    pub fn from_repr(v: u8) -> (r: Option<Self>)
        ensures
            r == Self::of_code(v),
            r matches Some(x) ==> x.code() == v,
    {
        match v {
            0x01 => Some(Self::AudioControl),
            0x02 => Some(Self::AudioStream),
            0x03 => Some(Self::MidiStream),
            _ => None,
        }
    }
}

/// A class-specific descriptor of an audio function. One that is not
/// known, or shorter than its kind asks, is handed on as its bytes.
#[derive(Debug, Clone, Copy)]
pub enum AudioDescriptorRef<'a> {
    ACInterfaceHeader(ACInterfaceHeaderDescriptor),
    ACClockSource(ACClockSourceDescriptor),
    ACClockSelector(ACClockSelectorDescriptor),
    ACFeatureUnit(ACFeatureUnitDescriptor),
    ACInputTerminal(ACInputTerminalDescriptor),
    ACOutputTerminal(ACOutputTerminalDescriptor),
    ASInterface(ASInterfaceDescriptor),
    ASFormatType1(ASFormatType1Descriptor),
    MSInterface(MSInterfaceDescriptor),
    MSInJack(MSInJackDescriptor),
    MSOutJack(MSOutJackDescriptor),
    ASEndpoint(ASEndpointDescriptor),
    MSEndpoint(MSEndpointDescriptor),
    Unknown(&'a [u8]),
}

/// The kinds of class-specific descriptors that are read field by field.
#[derive(Debug, Clone, Copy, PartialEq, Eq, Structural)]
pub enum AudioKind {
    ACInterfaceHeader,
    ACClockSource,
    ACClockSelector,
    ACFeatureUnit,
    ACInputTerminal,
    ACOutputTerminal,
    ASInterface,
    ASFormatType1,
    MSInterface,
    MSInJack,
    MSOutJack,
    ASEndpoint,
    MSEndpoint,
}

/// The kind that a class-specific descriptor of the type `desc_type` with
/// the subtype byte `subtype` has in an interface of the subclass `subclass`.
pub open spec fn audio_kind_of(subclass: AudioSubclass, desc_type: DescriptorType, subtype: u8) -> Option<
    AudioKind,
> {
    if desc_type == DescriptorType::ClassInterface && subclass == AudioSubclass::AudioControl && subtype == 0x01 {
        Some(AudioKind::ACInterfaceHeader)
    } else if desc_type == DescriptorType::ClassInterface && subclass == AudioSubclass::AudioControl && subtype == 0x02 {
        Some(AudioKind::ACInputTerminal)
    } else if desc_type == DescriptorType::ClassInterface && subclass == AudioSubclass::AudioControl && subtype == 0x03 {
        Some(AudioKind::ACOutputTerminal)
    } else if desc_type == DescriptorType::ClassInterface && subclass == AudioSubclass::AudioControl && subtype == 0x06 {
        Some(AudioKind::ACFeatureUnit)
    } else if desc_type == DescriptorType::ClassInterface && subclass == AudioSubclass::AudioControl && subtype == 0x0A {
        Some(AudioKind::ACClockSource)
    } else if desc_type == DescriptorType::ClassInterface && subclass == AudioSubclass::AudioControl && subtype == 0x0B {
        Some(AudioKind::ACClockSelector)
    } else if desc_type == DescriptorType::ClassInterface && subclass == AudioSubclass::AudioStream && subtype == 0x01 {
        Some(AudioKind::ASInterface)
    } else if desc_type == DescriptorType::ClassInterface && subclass == AudioSubclass::AudioStream && subtype == 0x02 {
        Some(AudioKind::ASFormatType1)
    } else if desc_type == DescriptorType::ClassInterface && subclass == AudioSubclass::MidiStream && subtype == 0x01 {
        Some(AudioKind::MSInterface)
    } else if desc_type == DescriptorType::ClassInterface && subclass == AudioSubclass::MidiStream && subtype == 0x03 {
        Some(AudioKind::MSOutJack)
    } else if desc_type == DescriptorType::ClassInterface && subclass == AudioSubclass::MidiStream && subtype == 0x02 {
        Some(AudioKind::MSInJack)
    } else if desc_type == DescriptorType::ClassEndpoint && subclass == AudioSubclass::AudioStream && subtype == 0x01 {
        Some(AudioKind::ASEndpoint)
    } else if desc_type == DescriptorType::ClassEndpoint && subclass == AudioSubclass::MidiStream && subtype == 0x01 {
        Some(AudioKind::MSEndpoint)
    } else {
        None
    }
}

/// Whether the bytes `b` hold a descriptor of the kind `kind` in full.
pub open spec fn audio_fits(kind: AudioKind, b: Seq<u8>) -> bool {
    match kind {
        AudioKind::ACInterfaceHeader => ACInterfaceHeaderDescriptor::of_wire(b) is Some,
        AudioKind::ACClockSource => ACClockSourceDescriptor::of_wire(b) is Some,
        AudioKind::ACClockSelector => ACClockSelectorDescriptor::of_wire(b) is Some,
        AudioKind::ACFeatureUnit => ACFeatureUnitDescriptor::of_wire(b) is Some,
        AudioKind::ACInputTerminal => ACInputTerminalDescriptor::of_wire(b) is Some,
        AudioKind::ACOutputTerminal => ACOutputTerminalDescriptor::of_wire(b) is Some,
        AudioKind::ASInterface => ASInterfaceDescriptor::of_wire(b) is Some,
        AudioKind::ASFormatType1 => ASFormatType1Descriptor::of_wire(b) is Some,
        AudioKind::MSInterface => MSInterfaceDescriptor::of_wire(b) is Some,
        AudioKind::MSInJack => MSInJackDescriptor::of_wire(b) is Some,
        AudioKind::MSOutJack => MSOutJackDescriptor::of_wire(b) is Some,
        AudioKind::ASEndpoint => ASEndpointDescriptor::of_wire(b) is Some,
        AudioKind::MSEndpoint => MSEndpointDescriptor::of_wire(b) is Some,
    }
}

/// The kind as which the bytes `b` of a class-specific descriptor are read,
/// in an interface with the subclass byte `subclass`: none where there is no
/// subclass or an unknown one, where `b` has no subtype byte, where the
/// subtype is not known, or where `b` is too short for its kind.
pub open spec fn audio_kind(subclass: Option<u8>, desc_type: DescriptorType, b: Seq<u8>) -> Option<
    AudioKind,
> {
    match subclass {
        Some(code) => if b.len() < 3 {
            None
        } else {
            match AudioSubclass::of_code(code) {
                Some(sc) => match audio_kind_of(sc, desc_type, b[2]) {
                    Some(kind) => if audio_fits(kind, b) {
                        Some(kind)
                    } else {
                        None
                    },
                    None => None,
                },
                None => None,
            }
        },
        None => None,
    }
}

impl<'a> AudioDescriptorRef<'a> {
    /// The kind of the descriptor, if it was read field by field.
    pub open spec fn spec_kind(self) -> Option<AudioKind> {
        match self {
            Self::ACInterfaceHeader(_) => Some(AudioKind::ACInterfaceHeader),
            Self::ACClockSource(_) => Some(AudioKind::ACClockSource),
            Self::ACClockSelector(_) => Some(AudioKind::ACClockSelector),
            Self::ACFeatureUnit(_) => Some(AudioKind::ACFeatureUnit),
            Self::ACInputTerminal(_) => Some(AudioKind::ACInputTerminal),
            Self::ACOutputTerminal(_) => Some(AudioKind::ACOutputTerminal),
            Self::ASInterface(_) => Some(AudioKind::ASInterface),
            Self::ASFormatType1(_) => Some(AudioKind::ASFormatType1),
            Self::MSInterface(_) => Some(AudioKind::MSInterface),
            Self::MSInJack(_) => Some(AudioKind::MSInJack),
            Self::MSOutJack(_) => Some(AudioKind::MSOutJack),
            Self::ASEndpoint(_) => Some(AudioKind::ASEndpoint),
            Self::MSEndpoint(_) => Some(AudioKind::MSEndpoint),
            Self::Unknown(_) => None,
        }
    }

    /// Whether this is what the bytes `b` hold.
    pub open spec fn describes(self, b: Seq<u8>) -> bool {
        match self {
            Self::ACInterfaceHeader(d) => ACInterfaceHeaderDescriptor::of_wire(b) == Some(d),
            Self::ACClockSource(d) => ACClockSourceDescriptor::of_wire(b) == Some(d),
            Self::ACClockSelector(d) => ACClockSelectorDescriptor::of_wire(b) == Some(d),
            Self::ACFeatureUnit(d) => ACFeatureUnitDescriptor::of_wire(b) == Some(d),
            Self::ACInputTerminal(d) => ACInputTerminalDescriptor::of_wire(b) == Some(d),
            Self::ACOutputTerminal(d) => ACOutputTerminalDescriptor::of_wire(b) == Some(d),
            Self::ASInterface(d) => ASInterfaceDescriptor::of_wire(b) == Some(d),
            Self::ASFormatType1(d) => ASFormatType1Descriptor::of_wire(b) == Some(d),
            Self::MSInterface(d) => MSInterfaceDescriptor::of_wire(b) == Some(d),
            Self::MSInJack(d) => MSInJackDescriptor::of_wire(b) == Some(d),
            Self::MSOutJack(d) => MSOutJackDescriptor::of_wire(b) == Some(d),
            Self::ASEndpoint(d) => ASEndpointDescriptor::of_wire(b) == Some(d),
            Self::MSEndpoint(d) => MSEndpointDescriptor::of_wire(b) == Some(d),
            Self::Unknown(s) => s@ == b,
        }
    }

    /// The kind of the descriptor, if it was read field by field.
    pub fn kind(&self) -> (k: Option<AudioKind>)
        ensures
            k == self.spec_kind(),
    {
        match self {
            Self::ACInterfaceHeader(_) => Some(AudioKind::ACInterfaceHeader),
            Self::ACClockSource(_) => Some(AudioKind::ACClockSource),
            Self::ACClockSelector(_) => Some(AudioKind::ACClockSelector),
            Self::ACFeatureUnit(_) => Some(AudioKind::ACFeatureUnit),
            Self::ACInputTerminal(_) => Some(AudioKind::ACInputTerminal),
            Self::ACOutputTerminal(_) => Some(AudioKind::ACOutputTerminal),
            Self::ASInterface(_) => Some(AudioKind::ASInterface),
            Self::ASFormatType1(_) => Some(AudioKind::ASFormatType1),
            Self::MSInterface(_) => Some(AudioKind::MSInterface),
            Self::MSInJack(_) => Some(AudioKind::MSInJack),
            Self::MSOutJack(_) => Some(AudioKind::MSOutJack),
            Self::ASEndpoint(_) => Some(AudioKind::ASEndpoint),
            Self::MSEndpoint(_) => Some(AudioKind::MSEndpoint),
            Self::Unknown(_) => None,
        }
    }
}

/// The kind that a class-specific descriptor of the type `desc_type` with
/// the subtype byte `subtype` has in an interface of the subclass `subclass`.
pub fn select_kind(subclass: AudioSubclass, desc_type: DescriptorType, subtype: u8) -> (k: Option<
    AudioKind,
>)
    ensures
        k == audio_kind_of(subclass, desc_type, subtype),
{
    match desc_type {
        DescriptorType::ClassInterface => match subclass {
            AudioSubclass::AudioControl => match ACInterfaceSubtype::from_repr(subtype) {
                Some(ACInterfaceSubtype::InterfaceHeader) => Some(AudioKind::ACInterfaceHeader),
                Some(ACInterfaceSubtype::InputTerminalDescriptor) => Some(
                    AudioKind::ACInputTerminal,
                ),
                Some(ACInterfaceSubtype::OutputTerminalDescriptor) => Some(
                    AudioKind::ACOutputTerminal,
                ),
                Some(ACInterfaceSubtype::FeatureUnitDescriptor) => Some(AudioKind::ACFeatureUnit),
                Some(ACInterfaceSubtype::ClockSourceDescriptor) => Some(AudioKind::ACClockSource),
                Some(ACInterfaceSubtype::ClockSelectorDescriptor) => Some(
                    AudioKind::ACClockSelector,
                ),
                None => None,
            },
            AudioSubclass::AudioStream => match ASInterfaceSubtype::from_repr(subtype) {
                Some(ASInterfaceSubtype::AudioStreamHeader) => Some(AudioKind::ASInterface),
                Some(ASInterfaceSubtype::FormatType1) => Some(AudioKind::ASFormatType1),
                None => None,
            },
            AudioSubclass::MidiStream => match MSInterfaceSubtype::from_repr(subtype) {
                Some(MSInterfaceSubtype::MsHeader) => Some(AudioKind::MSInterface),
                Some(MSInterfaceSubtype::MidiOutJack) => Some(AudioKind::MSOutJack),
                Some(MSInterfaceSubtype::MidiInJack) => Some(AudioKind::MSInJack),
                _ => None,
            },
        },
        DescriptorType::ClassEndpoint => match subclass {
            AudioSubclass::AudioStream => match ASEndpointSubtype::from_repr(subtype) {
                Some(ASEndpointSubtype::IsochronousEndpoint) => Some(AudioKind::ASEndpoint),
                None => None,
            },
            AudioSubclass::MidiStream => match MSEndpointSubtype::from_repr(subtype) {
                Some(MSEndpointSubtype::BulkEndpoint) => Some(AudioKind::MSEndpoint),
                None => None,
            },
            _ => None,
        },
        _ => None,
    }
}

/// Reads the bytes `buf` as a descriptor of the kind `kind`, or hands them
/// on where they are too short for it.
pub fn read_as<'a>(kind: AudioKind, buf: &'a [u8]) -> (r: AudioDescriptorRef<'a>)
    ensures
        r.describes(buf@),
        r.spec_kind() == if audio_fits(kind, buf@) {
            Some(kind)
        } else {
            None
        },
{
    match kind {
        AudioKind::ACInterfaceHeader => match ACInterfaceHeaderDescriptor::from_bytes(buf) {
            Some(d) => AudioDescriptorRef::ACInterfaceHeader(d),
            None => AudioDescriptorRef::Unknown(buf),
        },
        AudioKind::ACClockSource => match ACClockSourceDescriptor::from_bytes(buf) {
            Some(d) => AudioDescriptorRef::ACClockSource(d),
            None => AudioDescriptorRef::Unknown(buf),
        },
        AudioKind::ACClockSelector => match ACClockSelectorDescriptor::from_bytes(buf) {
            Some(d) => AudioDescriptorRef::ACClockSelector(d),
            None => AudioDescriptorRef::Unknown(buf),
        },
        AudioKind::ACFeatureUnit => match ACFeatureUnitDescriptor::from_bytes(buf) {
            Some(d) => AudioDescriptorRef::ACFeatureUnit(d),
            None => AudioDescriptorRef::Unknown(buf),
        },
        AudioKind::ACInputTerminal => match ACInputTerminalDescriptor::from_bytes(buf) {
            Some(d) => AudioDescriptorRef::ACInputTerminal(d),
            None => AudioDescriptorRef::Unknown(buf),
        },
        AudioKind::ACOutputTerminal => match ACOutputTerminalDescriptor::from_bytes(buf) {
            Some(d) => AudioDescriptorRef::ACOutputTerminal(d),
            None => AudioDescriptorRef::Unknown(buf),
        },
        AudioKind::ASInterface => match ASInterfaceDescriptor::from_bytes(buf) {
            Some(d) => AudioDescriptorRef::ASInterface(d),
            None => AudioDescriptorRef::Unknown(buf),
        },
        AudioKind::ASFormatType1 => match ASFormatType1Descriptor::from_bytes(buf) {
            Some(d) => AudioDescriptorRef::ASFormatType1(d),
            None => AudioDescriptorRef::Unknown(buf),
        },
        AudioKind::MSInterface => match MSInterfaceDescriptor::from_bytes(buf) {
            Some(d) => AudioDescriptorRef::MSInterface(d),
            None => AudioDescriptorRef::Unknown(buf),
        },
        AudioKind::MSInJack => match MSInJackDescriptor::from_bytes(buf) {
            Some(d) => AudioDescriptorRef::MSInJack(d),
            None => AudioDescriptorRef::Unknown(buf),
        },
        AudioKind::MSOutJack => match MSOutJackDescriptor::from_bytes(buf) {
            Some(d) => AudioDescriptorRef::MSOutJack(d),
            None => AudioDescriptorRef::Unknown(buf),
        },
        AudioKind::ASEndpoint => match ASEndpointDescriptor::from_bytes(buf) {
            Some(d) => AudioDescriptorRef::ASEndpoint(d),
            None => AudioDescriptorRef::Unknown(buf),
        },
        AudioKind::MSEndpoint => match MSEndpointDescriptor::from_bytes(buf) {
            Some(d) => AudioDescriptorRef::MSEndpoint(d),
            None => AudioDescriptorRef::Unknown(buf),
        },
    }
}

/// Reads a class-specific descriptor of an audio function: `buf` holds the
/// descriptor, `desc_type` says whether it belongs to an interface or to an
/// endpoint, and `subclass` is the subclass of the interface it stands in.
pub fn parse<'a>(subclass: Option<u8>, desc_type: DescriptorType, buf: &'a [u8]) -> (r:
    AudioDescriptorRef<'a>)
    ensures
        r.spec_kind() == audio_kind(subclass, desc_type, buf@),
        r.describes(buf@),
{
    if let Some(subclass) = subclass {
        if buf.len() < 3 {
            return AudioDescriptorRef::Unknown(buf);
        }
        if let Some(subclass) = AudioSubclass::from_repr(subclass) {
            if let Some(kind) = select_kind(subclass, desc_type, buf[2]) {
                return read_as(kind, buf);
            }
        }
    }
    AudioDescriptorRef::Unknown(buf)
}

/// The kinds of class-specific descriptors of an audio control interface.
#[derive(Copy, Clone, Debug, PartialEq, Eq, Structural)]
pub enum ACInterfaceSubtype {
    InterfaceHeader,
    InputTerminalDescriptor,
    OutputTerminalDescriptor,
    FeatureUnitDescriptor,
    ClockSourceDescriptor,
    ClockSelectorDescriptor,
}

impl ACInterfaceSubtype {
    /// The byte that stands for the value.
    pub open spec fn code(self) -> u8 {
        match self {
            Self::InterfaceHeader => 0x01,
            Self::InputTerminalDescriptor => 0x02,
            Self::OutputTerminalDescriptor => 0x03,
            Self::FeatureUnitDescriptor => 0x06,
            Self::ClockSourceDescriptor => 0x0A,
            Self::ClockSelectorDescriptor => 0x0B,
        }
    }

    /// The value that the byte `v` stands for, if it stands for one.
    pub open spec fn of_code(v: u8) -> Option<Self> {
        if v == 0x01 {
            Some(Self::InterfaceHeader)
        } else if v == 0x02 {
            Some(Self::InputTerminalDescriptor)
        } else if v == 0x03 {
            Some(Self::OutputTerminalDescriptor)
        } else if v == 0x06 {
            Some(Self::FeatureUnitDescriptor)
        } else if v == 0x0A {
            Some(Self::ClockSourceDescriptor)
        } else if v == 0x0B {
            Some(Self::ClockSelectorDescriptor)
        } else {
            None
        }
    }

    /// The byte that stands for the value.
    pub fn bits(self) -> (b: u8)
        ensures
            b == self.code(),
            Self::of_code(b) == Some(self),
    {
        match self {
            Self::InterfaceHeader => 0x01,
            Self::InputTerminalDescriptor => 0x02,
            Self::OutputTerminalDescriptor => 0x03,
            Self::FeatureUnitDescriptor => 0x06,
            Self::ClockSourceDescriptor => 0x0A,
            Self::ClockSelectorDescriptor => 0x0B,
        }
    }

    /// The value that the byte `v` stands for, if it stands for one.
    pub fn from_repr(v: u8) -> (r: Option<Self>)
        ensures
            r == Self::of_code(v),
            r matches Some(x) ==> x.code() == v,
    {
        match v {
            0x01 => Some(Self::InterfaceHeader),
            0x02 => Some(Self::InputTerminalDescriptor),
            0x03 => Some(Self::OutputTerminalDescriptor),
            0x06 => Some(Self::FeatureUnitDescriptor),
            0x0A => Some(Self::ClockSourceDescriptor),
            0x0B => Some(Self::ClockSelectorDescriptor),
            _ => None,
        }
    }
}

/// The head of the class-specific descriptors of an audio control interface.
#[derive(Copy, Clone, Debug, PartialEq, Eq, Structural)]
pub struct ACInterfaceHeaderDescriptor {
    pub b_length: u8,
    pub b_descriptor_type: DescriptorType,
    pub b_descriptor_subtype: ACInterfaceSubtype,
    pub bcd_adc: u16,
    pub b_category: u8,
    pub w_total_length: u16,
    pub bm_controls: u8,
}

/// The number of bytes of a [`ACInterfaceHeaderDescriptor`] on the wire.
pub const AC_INTERFACE_HEADER_LEN: usize = 9;

impl ACInterfaceHeaderDescriptor {
    /// The descriptor as it goes on the wire: the fields in their order,
    /// without gaps, the low byte of each first.
    pub open spec fn wire(self) -> Seq<u8> {
        seq![
            self.b_length,
            self.b_descriptor_type.code(),
            self.b_descriptor_subtype.code(),
            le16(self.bcd_adc)[0],
            le16(self.bcd_adc)[1],
            self.b_category,
            le16(self.w_total_length)[0],
            le16(self.w_total_length)[1],
            self.bm_controls,
        ]
    }

    /// The descriptor that the first 9 bytes of `b` hold, if `b` has as
    /// many and every byte that stands for a kind stands for one.
    pub open spec fn of_wire(b: Seq<u8>) -> Option<Self> {
        if b.len() < AC_INTERFACE_HEADER_LEN || DescriptorType::of_code(b[1]) is None || ACInterfaceSubtype::of_code(b[2]) is None {
            None
        } else {
            Some(
                ACInterfaceHeaderDescriptor {
                    b_length: b[0],
                    b_descriptor_type: DescriptorType::of_code(b[1]).unwrap(),
                    b_descriptor_subtype: ACInterfaceSubtype::of_code(b[2]).unwrap(),
                    bcd_adc: from_le16(b[3], b[4]),
                    b_category: b[5],
                    w_total_length: from_le16(b[6], b[7]),
                    bm_controls: b[8],
                },
            )
        }
    }

    /// The descriptor as it goes on the wire.
    pub fn to_bytes(&self) -> (bytes: [u8; 9])
        ensures
            bytes@ == self.wire(),
            Self::of_wire(bytes@) == Some(*self),
    {
        let bytes = [
            self.b_length,
            self.b_descriptor_type.bits(),
            self.b_descriptor_subtype.bits(),
            lo_byte(self.bcd_adc),
            hi_byte(self.bcd_adc),
            self.b_category,
            lo_byte(self.w_total_length),
            hi_byte(self.w_total_length),
            self.bm_controls,
        ];
        proof {
            assert(bytes@ =~= self.wire());
            lemma_ac_interface_header_round_trip(*self);
        }
        bytes
    }

    /// Reads a descriptor from the first 9 bytes of `buf`.
    pub fn from_bytes(buf: &[u8]) -> (d: Option<Self>)
        ensures
            d == Self::of_wire(buf@),
    {
        if buf.len() < AC_INTERFACE_HEADER_LEN {
            return None;
        }
        let b_descriptor_type = match DescriptorType::from_repr(buf[1]) {
            Some(x) => x,
            None => {
                return None;
            },
        };
        let b_descriptor_subtype = match ACInterfaceSubtype::from_repr(buf[2]) {
            Some(x) => x,
            None => {
                return None;
            },
        };
        Some(
            ACInterfaceHeaderDescriptor {
                b_length: buf[0],
                b_descriptor_type,
                b_descriptor_subtype,
                bcd_adc: half_word(buf[3], buf[4]),
                b_category: buf[5],
                w_total_length: half_word(buf[6], buf[7]),
                bm_controls: buf[8],
            },
        )
    }
}

/// A descriptor read back from its own bytes is the descriptor.
pub proof fn lemma_ac_interface_header_round_trip(d: ACInterfaceHeaderDescriptor)
    ensures
        d.wire().len() == AC_INTERFACE_HEADER_LEN,
        ACInterfaceHeaderDescriptor::of_wire(d.wire()) == Some(d),
{
    lemma_le16_round_trip(d.bcd_adc);
    lemma_field16_bound(d.bcd_adc, 0, 0xff);
    lemma_field16_bound(d.bcd_adc, 8, 0xff);
    lemma_le16_round_trip(d.w_total_length);
    lemma_field16_bound(d.w_total_length, 0, 0xff);
    lemma_field16_bound(d.w_total_length, 8, 0xff);
}

/// A clock source of an audio function.
#[derive(Copy, Clone, Debug, PartialEq, Eq, Structural)]
pub struct ACClockSourceDescriptor {
    pub b_length: u8,
    pub b_descriptor_type: DescriptorType,
    pub b_descriptor_subtype: ACInterfaceSubtype,
    pub b_clock_id: u8,
    pub bm_attributes: u8,
    pub bm_controls: u8,
    pub b_assoc_terminal: u8,
    pub i_clock_source: u8,
}

/// The number of bytes of a [`ACClockSourceDescriptor`] on the wire.
pub const AC_CLOCK_SOURCE_LEN: usize = 8;

impl ACClockSourceDescriptor {
    /// The descriptor as it goes on the wire: the fields in their order,
    /// without gaps, the low byte of each first.
    pub open spec fn wire(self) -> Seq<u8> {
        seq![
            self.b_length,
            self.b_descriptor_type.code(),
            self.b_descriptor_subtype.code(),
            self.b_clock_id,
            self.bm_attributes,
            self.bm_controls,
            self.b_assoc_terminal,
            self.i_clock_source,
        ]
    }

    /// The descriptor that the first 8 bytes of `b` hold, if `b` has as
    /// many and every byte that stands for a kind stands for one.
    pub open spec fn of_wire(b: Seq<u8>) -> Option<Self> {
        if b.len() < AC_CLOCK_SOURCE_LEN || DescriptorType::of_code(b[1]) is None || ACInterfaceSubtype::of_code(b[2]) is None {
            None
        } else {
            Some(
                ACClockSourceDescriptor {
                    b_length: b[0],
                    b_descriptor_type: DescriptorType::of_code(b[1]).unwrap(),
                    b_descriptor_subtype: ACInterfaceSubtype::of_code(b[2]).unwrap(),
                    b_clock_id: b[3],
                    bm_attributes: b[4],
                    bm_controls: b[5],
                    b_assoc_terminal: b[6],
                    i_clock_source: b[7],
                },
            )
        }
    }

    /// The descriptor as it goes on the wire.
    pub fn to_bytes(&self) -> (bytes: [u8; 8])
        ensures
            bytes@ == self.wire(),
            Self::of_wire(bytes@) == Some(*self),
    {
        let bytes = [
            self.b_length,
            self.b_descriptor_type.bits(),
            self.b_descriptor_subtype.bits(),
            self.b_clock_id,
            self.bm_attributes,
            self.bm_controls,
            self.b_assoc_terminal,
            self.i_clock_source,
        ];
        proof {
            assert(bytes@ =~= self.wire());
            lemma_ac_clock_source_round_trip(*self);
        }
        bytes
    }

    /// Reads a descriptor from the first 8 bytes of `buf`.
    pub fn from_bytes(buf: &[u8]) -> (d: Option<Self>)
        ensures
            d == Self::of_wire(buf@),
    {
        if buf.len() < AC_CLOCK_SOURCE_LEN {
            return None;
        }
        let b_descriptor_type = match DescriptorType::from_repr(buf[1]) {
            Some(x) => x,
            None => {
                return None;
            },
        };
        let b_descriptor_subtype = match ACInterfaceSubtype::from_repr(buf[2]) {
            Some(x) => x,
            None => {
                return None;
            },
        };
        Some(
            ACClockSourceDescriptor {
                b_length: buf[0],
                b_descriptor_type,
                b_descriptor_subtype,
                b_clock_id: buf[3],
                bm_attributes: buf[4],
                bm_controls: buf[5],
                b_assoc_terminal: buf[6],
                i_clock_source: buf[7],
            },
        )
    }
}

/// A descriptor read back from its own bytes is the descriptor.
pub proof fn lemma_ac_clock_source_round_trip(d: ACClockSourceDescriptor)
    ensures
        d.wire().len() == AC_CLOCK_SOURCE_LEN,
        ACClockSourceDescriptor::of_wire(d.wire()) == Some(d),
{
}

/// A clock selector with one input pin.
#[derive(Copy, Clone, Debug, PartialEq, Eq, Structural)]
pub struct ACClockSelectorDescriptor {
    pub b_length: u8,
    pub b_descriptor_type: DescriptorType,
    pub b_descriptor_subtype: ACInterfaceSubtype,
    pub b_clock_id: u8,
    pub b_nr_in_pins: u8,
    pub ba_c_source_id: u8,
    pub bm_controls: u8,
    pub i_clock_selector: u8,
}

/// The number of bytes of a [`ACClockSelectorDescriptor`] on the wire.
pub const AC_CLOCK_SELECTOR_LEN: usize = 8;

impl ACClockSelectorDescriptor {
    /// The descriptor as it goes on the wire: the fields in their order,
    /// without gaps, the low byte of each first.
    pub open spec fn wire(self) -> Seq<u8> {
        seq![
            self.b_length,
            self.b_descriptor_type.code(),
            self.b_descriptor_subtype.code(),
            self.b_clock_id,
            self.b_nr_in_pins,
            self.ba_c_source_id,
            self.bm_controls,
            self.i_clock_selector,
        ]
    }

    /// The descriptor that the first 8 bytes of `b` hold, if `b` has as
    /// many and every byte that stands for a kind stands for one.
    pub open spec fn of_wire(b: Seq<u8>) -> Option<Self> {
        if b.len() < AC_CLOCK_SELECTOR_LEN || DescriptorType::of_code(b[1]) is None || ACInterfaceSubtype::of_code(b[2]) is None {
            None
        } else {
            Some(
                ACClockSelectorDescriptor {
                    b_length: b[0],
                    b_descriptor_type: DescriptorType::of_code(b[1]).unwrap(),
                    b_descriptor_subtype: ACInterfaceSubtype::of_code(b[2]).unwrap(),
                    b_clock_id: b[3],
                    b_nr_in_pins: b[4],
                    ba_c_source_id: b[5],
                    bm_controls: b[6],
                    i_clock_selector: b[7],
                },
            )
        }
    }

    /// The descriptor as it goes on the wire.
    pub fn to_bytes(&self) -> (bytes: [u8; 8])
        ensures
            bytes@ == self.wire(),
            Self::of_wire(bytes@) == Some(*self),
    {
        let bytes = [
            self.b_length,
            self.b_descriptor_type.bits(),
            self.b_descriptor_subtype.bits(),
            self.b_clock_id,
            self.b_nr_in_pins,
            self.ba_c_source_id,
            self.bm_controls,
            self.i_clock_selector,
        ];
        proof {
            assert(bytes@ =~= self.wire());
            lemma_ac_clock_selector_round_trip(*self);
        }
        bytes
    }

    /// Reads a descriptor from the first 8 bytes of `buf`.
    pub fn from_bytes(buf: &[u8]) -> (d: Option<Self>)
        ensures
            d == Self::of_wire(buf@),
    {
        if buf.len() < AC_CLOCK_SELECTOR_LEN {
            return None;
        }
        let b_descriptor_type = match DescriptorType::from_repr(buf[1]) {
            Some(x) => x,
            None => {
                return None;
            },
        };
        let b_descriptor_subtype = match ACInterfaceSubtype::from_repr(buf[2]) {
            Some(x) => x,
            None => {
                return None;
            },
        };
        Some(
            ACClockSelectorDescriptor {
                b_length: buf[0],
                b_descriptor_type,
                b_descriptor_subtype,
                b_clock_id: buf[3],
                b_nr_in_pins: buf[4],
                ba_c_source_id: buf[5],
                bm_controls: buf[6],
                i_clock_selector: buf[7],
            },
        )
    }
}

/// A descriptor read back from its own bytes is the descriptor.
pub proof fn lemma_ac_clock_selector_round_trip(d: ACClockSelectorDescriptor)
    ensures
        d.wire().len() == AC_CLOCK_SELECTOR_LEN,
        ACClockSelectorDescriptor::of_wire(d.wire()) == Some(d),
{
}

/// A feature unit with the controls of the master and of four channels.
#[derive(Copy, Clone, Debug, PartialEq, Eq, Structural)]
pub struct ACFeatureUnitDescriptor {
    pub b_length: u8,
    pub b_descriptor_type: DescriptorType,
    pub b_descriptor_subtype: ACInterfaceSubtype,
    pub b_unit_id: u8,
    pub b_source_id: u8,
    pub bma_controls_0: u32,
    pub bma_controls_1: u32,
    pub bma_controls_2: u32,
    pub bma_controls_3: u32,
    pub bma_controls_4: u32,
    pub i_feature: u8,
}

/// The number of bytes of a [`ACFeatureUnitDescriptor`] on the wire.
pub const AC_FEATURE_UNIT_LEN: usize = 26;

impl ACFeatureUnitDescriptor {
    /// The descriptor as it goes on the wire: the fields in their order,
    /// without gaps, the low byte of each first.
    pub open spec fn wire(self) -> Seq<u8> {
        seq![
            self.b_length,
            self.b_descriptor_type.code(),
            self.b_descriptor_subtype.code(),
            self.b_unit_id,
            self.b_source_id,
            le32(self.bma_controls_0)[0],
            le32(self.bma_controls_0)[1],
            le32(self.bma_controls_0)[2],
            le32(self.bma_controls_0)[3],
            le32(self.bma_controls_1)[0],
            le32(self.bma_controls_1)[1],
            le32(self.bma_controls_1)[2],
            le32(self.bma_controls_1)[3],
            le32(self.bma_controls_2)[0],
            le32(self.bma_controls_2)[1],
            le32(self.bma_controls_2)[2],
            le32(self.bma_controls_2)[3],
            le32(self.bma_controls_3)[0],
            le32(self.bma_controls_3)[1],
            le32(self.bma_controls_3)[2],
            le32(self.bma_controls_3)[3],
            le32(self.bma_controls_4)[0],
            le32(self.bma_controls_4)[1],
            le32(self.bma_controls_4)[2],
            le32(self.bma_controls_4)[3],
            self.i_feature,
        ]
    }

    /// The descriptor that the first 26 bytes of `b` hold, if `b` has as
    /// many and every byte that stands for a kind stands for one.
    pub open spec fn of_wire(b: Seq<u8>) -> Option<Self> {
        if b.len() < AC_FEATURE_UNIT_LEN || DescriptorType::of_code(b[1]) is None || ACInterfaceSubtype::of_code(b[2]) is None {
            None
        } else {
            Some(
                ACFeatureUnitDescriptor {
                    b_length: b[0],
                    b_descriptor_type: DescriptorType::of_code(b[1]).unwrap(),
                    b_descriptor_subtype: ACInterfaceSubtype::of_code(b[2]).unwrap(),
                    b_unit_id: b[3],
                    b_source_id: b[4],
                    bma_controls_0: from_le32(b[5], b[6], b[7], b[8]),
                    bma_controls_1: from_le32(b[9], b[10], b[11], b[12]),
                    bma_controls_2: from_le32(b[13], b[14], b[15], b[16]),
                    bma_controls_3: from_le32(b[17], b[18], b[19], b[20]),
                    bma_controls_4: from_le32(b[21], b[22], b[23], b[24]),
                    i_feature: b[25],
                },
            )
        }
    }

    /// The descriptor as it goes on the wire.
    pub fn to_bytes(&self) -> (bytes: [u8; 26])
        ensures
            bytes@ == self.wire(),
            Self::of_wire(bytes@) == Some(*self),
    {
        let bytes = [
            self.b_length,
            self.b_descriptor_type.bits(),
            self.b_descriptor_subtype.bits(),
            self.b_unit_id,
            self.b_source_id,
            word_byte(self.bma_controls_0, 0),
            word_byte(self.bma_controls_0, 1),
            word_byte(self.bma_controls_0, 2),
            word_byte(self.bma_controls_0, 3),
            word_byte(self.bma_controls_1, 0),
            word_byte(self.bma_controls_1, 1),
            word_byte(self.bma_controls_1, 2),
            word_byte(self.bma_controls_1, 3),
            word_byte(self.bma_controls_2, 0),
            word_byte(self.bma_controls_2, 1),
            word_byte(self.bma_controls_2, 2),
            word_byte(self.bma_controls_2, 3),
            word_byte(self.bma_controls_3, 0),
            word_byte(self.bma_controls_3, 1),
            word_byte(self.bma_controls_3, 2),
            word_byte(self.bma_controls_3, 3),
            word_byte(self.bma_controls_4, 0),
            word_byte(self.bma_controls_4, 1),
            word_byte(self.bma_controls_4, 2),
            word_byte(self.bma_controls_4, 3),
            self.i_feature,
        ];
        proof {
            assert(bytes@ =~= self.wire());
            lemma_ac_feature_unit_round_trip(*self);
        }
        bytes
    }

    /// Reads a descriptor from the first 26 bytes of `buf`.
    pub fn from_bytes(buf: &[u8]) -> (d: Option<Self>)
        ensures
            d == Self::of_wire(buf@),
    {
        if buf.len() < AC_FEATURE_UNIT_LEN {
            return None;
        }
        let b_descriptor_type = match DescriptorType::from_repr(buf[1]) {
            Some(x) => x,
            None => {
                return None;
            },
        };
        let b_descriptor_subtype = match ACInterfaceSubtype::from_repr(buf[2]) {
            Some(x) => x,
            None => {
                return None;
            },
        };
        Some(
            ACFeatureUnitDescriptor {
                b_length: buf[0],
                b_descriptor_type,
                b_descriptor_subtype,
                b_unit_id: buf[3],
                b_source_id: buf[4],
                bma_controls_0: word(buf[5], buf[6], buf[7], buf[8]),
                bma_controls_1: word(buf[9], buf[10], buf[11], buf[12]),
                bma_controls_2: word(buf[13], buf[14], buf[15], buf[16]),
                bma_controls_3: word(buf[17], buf[18], buf[19], buf[20]),
                bma_controls_4: word(buf[21], buf[22], buf[23], buf[24]),
                i_feature: buf[25],
            },
        )
    }
}

/// A descriptor read back from its own bytes is the descriptor.
pub proof fn lemma_ac_feature_unit_round_trip(d: ACFeatureUnitDescriptor)
    ensures
        d.wire().len() == AC_FEATURE_UNIT_LEN,
        ACFeatureUnitDescriptor::of_wire(d.wire()) == Some(d),
{
    lemma_le32_round_trip(d.bma_controls_0);
    lemma_le32_round_trip(d.bma_controls_1);
    lemma_le32_round_trip(d.bma_controls_2);
    lemma_le32_round_trip(d.bma_controls_3);
    lemma_le32_round_trip(d.bma_controls_4);
}

/// An input terminal of an audio function.
#[derive(Copy, Clone, Debug, PartialEq, Eq, Structural)]
pub struct ACInputTerminalDescriptor {
    pub b_length: u8,
    pub b_descriptor_type: DescriptorType,
    pub b_descriptor_subtype: ACInterfaceSubtype,
    pub b_terminal_id: u8,
    pub w_terminal_type: u16,
    pub b_assoc_terminal: u8,
    pub b_c_source_id: u8,
    pub b_nr_channels: u8,
    pub bm_channel_config: u8,
    pub i_channel_names: u8,
    pub bm_controls: u8,
    pub i_terminal: u8,
}

/// The number of bytes of a [`ACInputTerminalDescriptor`] on the wire.
pub const AC_INPUT_TERMINAL_LEN: usize = 13;

impl ACInputTerminalDescriptor {
    /// The descriptor as it goes on the wire: the fields in their order,
    /// without gaps, the low byte of each first.
    pub open spec fn wire(self) -> Seq<u8> {
        seq![
            self.b_length,
            self.b_descriptor_type.code(),
            self.b_descriptor_subtype.code(),
            self.b_terminal_id,
            le16(self.w_terminal_type)[0],
            le16(self.w_terminal_type)[1],
            self.b_assoc_terminal,
            self.b_c_source_id,
            self.b_nr_channels,
            self.bm_channel_config,
            self.i_channel_names,
            self.bm_controls,
            self.i_terminal,
        ]
    }

    /// The descriptor that the first 13 bytes of `b` hold, if `b` has as
    /// many and every byte that stands for a kind stands for one.
    pub open spec fn of_wire(b: Seq<u8>) -> Option<Self> {
        if b.len() < AC_INPUT_TERMINAL_LEN || DescriptorType::of_code(b[1]) is None || ACInterfaceSubtype::of_code(b[2]) is None {
            None
        } else {
            Some(
                ACInputTerminalDescriptor {
                    b_length: b[0],
                    b_descriptor_type: DescriptorType::of_code(b[1]).unwrap(),
                    b_descriptor_subtype: ACInterfaceSubtype::of_code(b[2]).unwrap(),
                    b_terminal_id: b[3],
                    w_terminal_type: from_le16(b[4], b[5]),
                    b_assoc_terminal: b[6],
                    b_c_source_id: b[7],
                    b_nr_channels: b[8],
                    bm_channel_config: b[9],
                    i_channel_names: b[10],
                    bm_controls: b[11],
                    i_terminal: b[12],
                },
            )
        }
    }

    /// The descriptor as it goes on the wire.
    pub fn to_bytes(&self) -> (bytes: [u8; 13])
        ensures
            bytes@ == self.wire(),
            Self::of_wire(bytes@) == Some(*self),
    {
        let bytes = [
            self.b_length,
            self.b_descriptor_type.bits(),
            self.b_descriptor_subtype.bits(),
            self.b_terminal_id,
            lo_byte(self.w_terminal_type),
            hi_byte(self.w_terminal_type),
            self.b_assoc_terminal,
            self.b_c_source_id,
            self.b_nr_channels,
            self.bm_channel_config,
            self.i_channel_names,
            self.bm_controls,
            self.i_terminal,
        ];
        proof {
            assert(bytes@ =~= self.wire());
            lemma_ac_input_terminal_round_trip(*self);
        }
        bytes
    }

    /// Reads a descriptor from the first 13 bytes of `buf`.
    pub fn from_bytes(buf: &[u8]) -> (d: Option<Self>)
        ensures
            d == Self::of_wire(buf@),
    {
        if buf.len() < AC_INPUT_TERMINAL_LEN {
            return None;
        }
        let b_descriptor_type = match DescriptorType::from_repr(buf[1]) {
            Some(x) => x,
            None => {
                return None;
            },
        };
        let b_descriptor_subtype = match ACInterfaceSubtype::from_repr(buf[2]) {
            Some(x) => x,
            None => {
                return None;
            },
        };
        Some(
            ACInputTerminalDescriptor {
                b_length: buf[0],
                b_descriptor_type,
                b_descriptor_subtype,
                b_terminal_id: buf[3],
                w_terminal_type: half_word(buf[4], buf[5]),
                b_assoc_terminal: buf[6],
                b_c_source_id: buf[7],
                b_nr_channels: buf[8],
                bm_channel_config: buf[9],
                i_channel_names: buf[10],
                bm_controls: buf[11],
                i_terminal: buf[12],
            },
        )
    }
}

/// A descriptor read back from its own bytes is the descriptor.
pub proof fn lemma_ac_input_terminal_round_trip(d: ACInputTerminalDescriptor)
    ensures
        d.wire().len() == AC_INPUT_TERMINAL_LEN,
        ACInputTerminalDescriptor::of_wire(d.wire()) == Some(d),
{
    lemma_le16_round_trip(d.w_terminal_type);
    lemma_field16_bound(d.w_terminal_type, 0, 0xff);
    lemma_field16_bound(d.w_terminal_type, 8, 0xff);
}

/// An output terminal of an audio function.
#[derive(Copy, Clone, Debug, PartialEq, Eq, Structural)]
pub struct ACOutputTerminalDescriptor {
    pub b_length: u8,
    pub b_descriptor_type: DescriptorType,
    pub b_descriptor_subtype: ACInterfaceSubtype,
    pub b_terminal_id: u8,
    pub w_terminal_type: u16,
    pub b_assoc_terminal: u8,
    pub b_source_id: u8,
    pub b_c_source_id: u8,
    pub bm_controls: u8,
    pub i_terminal: u8,
}

/// The number of bytes of a [`ACOutputTerminalDescriptor`] on the wire.
pub const AC_OUTPUT_TERMINAL_LEN: usize = 11;

impl ACOutputTerminalDescriptor {
    /// The descriptor as it goes on the wire: the fields in their order,
    /// without gaps, the low byte of each first.
    pub open spec fn wire(self) -> Seq<u8> {
        seq![
            self.b_length,
            self.b_descriptor_type.code(),
            self.b_descriptor_subtype.code(),
            self.b_terminal_id,
            le16(self.w_terminal_type)[0],
            le16(self.w_terminal_type)[1],
            self.b_assoc_terminal,
            self.b_source_id,
            self.b_c_source_id,
            self.bm_controls,
            self.i_terminal,
        ]
    }

    /// The descriptor that the first 11 bytes of `b` hold, if `b` has as
    /// many and every byte that stands for a kind stands for one.
    pub open spec fn of_wire(b: Seq<u8>) -> Option<Self> {
        if b.len() < AC_OUTPUT_TERMINAL_LEN || DescriptorType::of_code(b[1]) is None || ACInterfaceSubtype::of_code(b[2]) is None {
            None
        } else {
            Some(
                ACOutputTerminalDescriptor {
                    b_length: b[0],
                    b_descriptor_type: DescriptorType::of_code(b[1]).unwrap(),
                    b_descriptor_subtype: ACInterfaceSubtype::of_code(b[2]).unwrap(),
                    b_terminal_id: b[3],
                    w_terminal_type: from_le16(b[4], b[5]),
                    b_assoc_terminal: b[6],
                    b_source_id: b[7],
                    b_c_source_id: b[8],
                    bm_controls: b[9],
                    i_terminal: b[10],
                },
            )
        }
    }

    /// The descriptor as it goes on the wire.
    pub fn to_bytes(&self) -> (bytes: [u8; 11])
        ensures
            bytes@ == self.wire(),
            Self::of_wire(bytes@) == Some(*self),
    {
        let bytes = [
            self.b_length,
            self.b_descriptor_type.bits(),
            self.b_descriptor_subtype.bits(),
            self.b_terminal_id,
            lo_byte(self.w_terminal_type),
            hi_byte(self.w_terminal_type),
            self.b_assoc_terminal,
            self.b_source_id,
            self.b_c_source_id,
            self.bm_controls,
            self.i_terminal,
        ];
        proof {
            assert(bytes@ =~= self.wire());
            lemma_ac_output_terminal_round_trip(*self);
        }
        bytes
    }

    /// Reads a descriptor from the first 11 bytes of `buf`.
    pub fn from_bytes(buf: &[u8]) -> (d: Option<Self>)
        ensures
            d == Self::of_wire(buf@),
    {
        if buf.len() < AC_OUTPUT_TERMINAL_LEN {
            return None;
        }
        let b_descriptor_type = match DescriptorType::from_repr(buf[1]) {
            Some(x) => x,
            None => {
                return None;
            },
        };
        let b_descriptor_subtype = match ACInterfaceSubtype::from_repr(buf[2]) {
            Some(x) => x,
            None => {
                return None;
            },
        };
        Some(
            ACOutputTerminalDescriptor {
                b_length: buf[0],
                b_descriptor_type,
                b_descriptor_subtype,
                b_terminal_id: buf[3],
                w_terminal_type: half_word(buf[4], buf[5]),
                b_assoc_terminal: buf[6],
                b_source_id: buf[7],
                b_c_source_id: buf[8],
                bm_controls: buf[9],
                i_terminal: buf[10],
            },
        )
    }
}

/// A descriptor read back from its own bytes is the descriptor.
pub proof fn lemma_ac_output_terminal_round_trip(d: ACOutputTerminalDescriptor)
    ensures
        d.wire().len() == AC_OUTPUT_TERMINAL_LEN,
        ACOutputTerminalDescriptor::of_wire(d.wire()) == Some(d),
{
    lemma_le16_round_trip(d.w_terminal_type);
    lemma_field16_bound(d.w_terminal_type, 0, 0xff);
    lemma_field16_bound(d.w_terminal_type, 8, 0xff);
}

// Audio Stream

/// The kinds of class-specific descriptors of an audio streaming interface.
#[derive(Copy, Clone, Debug, PartialEq, Eq, Structural)]
pub enum ASInterfaceSubtype {
    AudioStreamHeader,
    FormatType1,
}

impl ASInterfaceSubtype {
    /// The byte that stands for the value.
    pub open spec fn code(self) -> u8 {
        match self {
            Self::AudioStreamHeader => 0x01,
            Self::FormatType1 => 0x02,
        }
    }

    /// The value that the byte `v` stands for, if it stands for one.
    pub open spec fn of_code(v: u8) -> Option<Self> {
        if v == 0x01 {
            Some(Self::AudioStreamHeader)
        } else if v == 0x02 {
            Some(Self::FormatType1)
        } else {
            None
        }
    }

    /// The byte that stands for the value.
    pub fn bits(self) -> (b: u8)
        ensures
            b == self.code(),
            Self::of_code(b) == Some(self),
    {
        match self {
            Self::AudioStreamHeader => 0x01,
            Self::FormatType1 => 0x02,
        }
    }

    /// The value that the byte `v` stands for, if it stands for one.
    pub fn from_repr(v: u8) -> (r: Option<Self>)
        ensures
            r == Self::of_code(v),
            r matches Some(x) ==> x.code() == v,
    {
        match v {
            0x01 => Some(Self::AudioStreamHeader),
            0x02 => Some(Self::FormatType1),
            _ => None,
        }
    }
}

/// The head of the class-specific descriptors of an audio streaming interface.
#[derive(Copy, Clone, Debug, PartialEq, Eq, Structural)]
pub struct ASInterfaceDescriptor {
    pub b_length: u8,
    pub b_descriptor_type: DescriptorType,
    pub b_descriptor_subtype: ASInterfaceSubtype,
    pub b_terminal_link: u8,
    pub bm_controls: u8,
    pub b_format_type: u8,
    pub bm_formats: u32,
    pub b_nr_channels: u8,
    pub bm_channel_config: u32,
    pub i_channel_names: u8,
}

/// The number of bytes of a [`ASInterfaceDescriptor`] on the wire.
pub const AS_INTERFACE_LEN: usize = 16;

impl ASInterfaceDescriptor {
    /// The descriptor as it goes on the wire: the fields in their order,
    /// without gaps, the low byte of each first.
    pub open spec fn wire(self) -> Seq<u8> {
        seq![
            self.b_length,
            self.b_descriptor_type.code(),
            self.b_descriptor_subtype.code(),
            self.b_terminal_link,
            self.bm_controls,
            self.b_format_type,
            le32(self.bm_formats)[0],
            le32(self.bm_formats)[1],
            le32(self.bm_formats)[2],
            le32(self.bm_formats)[3],
            self.b_nr_channels,
            le32(self.bm_channel_config)[0],
            le32(self.bm_channel_config)[1],
            le32(self.bm_channel_config)[2],
            le32(self.bm_channel_config)[3],
            self.i_channel_names,
        ]
    }

    /// The descriptor that the first 16 bytes of `b` hold, if `b` has as
    /// many and every byte that stands for a kind stands for one.
    pub open spec fn of_wire(b: Seq<u8>) -> Option<Self> {
        if b.len() < AS_INTERFACE_LEN || DescriptorType::of_code(b[1]) is None || ASInterfaceSubtype::of_code(b[2]) is None {
            None
        } else {
            Some(
                ASInterfaceDescriptor {
                    b_length: b[0],
                    b_descriptor_type: DescriptorType::of_code(b[1]).unwrap(),
                    b_descriptor_subtype: ASInterfaceSubtype::of_code(b[2]).unwrap(),
                    b_terminal_link: b[3],
                    bm_controls: b[4],
                    b_format_type: b[5],
                    bm_formats: from_le32(b[6], b[7], b[8], b[9]),
                    b_nr_channels: b[10],
                    bm_channel_config: from_le32(b[11], b[12], b[13], b[14]),
                    i_channel_names: b[15],
                },
            )
        }
    }

    /// The descriptor as it goes on the wire.
    pub fn to_bytes(&self) -> (bytes: [u8; 16])
        ensures
            bytes@ == self.wire(),
            Self::of_wire(bytes@) == Some(*self),
    {
        let bytes = [
            self.b_length,
            self.b_descriptor_type.bits(),
            self.b_descriptor_subtype.bits(),
            self.b_terminal_link,
            self.bm_controls,
            self.b_format_type,
            word_byte(self.bm_formats, 0),
            word_byte(self.bm_formats, 1),
            word_byte(self.bm_formats, 2),
            word_byte(self.bm_formats, 3),
            self.b_nr_channels,
            word_byte(self.bm_channel_config, 0),
            word_byte(self.bm_channel_config, 1),
            word_byte(self.bm_channel_config, 2),
            word_byte(self.bm_channel_config, 3),
            self.i_channel_names,
        ];
        proof {
            assert(bytes@ =~= self.wire());
            lemma_as_interface_round_trip(*self);
        }
        bytes
    }

    /// Reads a descriptor from the first 16 bytes of `buf`.
    pub fn from_bytes(buf: &[u8]) -> (d: Option<Self>)
        ensures
            d == Self::of_wire(buf@),
    {
        if buf.len() < AS_INTERFACE_LEN {
            return None;
        }
        let b_descriptor_type = match DescriptorType::from_repr(buf[1]) {
            Some(x) => x,
            None => {
                return None;
            },
        };
        let b_descriptor_subtype = match ASInterfaceSubtype::from_repr(buf[2]) {
            Some(x) => x,
            None => {
                return None;
            },
        };
        Some(
            ASInterfaceDescriptor {
                b_length: buf[0],
                b_descriptor_type,
                b_descriptor_subtype,
                b_terminal_link: buf[3],
                bm_controls: buf[4],
                b_format_type: buf[5],
                bm_formats: word(buf[6], buf[7], buf[8], buf[9]),
                b_nr_channels: buf[10],
                bm_channel_config: word(buf[11], buf[12], buf[13], buf[14]),
                i_channel_names: buf[15],
            },
        )
    }
}

/// A descriptor read back from its own bytes is the descriptor.
pub proof fn lemma_as_interface_round_trip(d: ASInterfaceDescriptor)
    ensures
        d.wire().len() == AS_INTERFACE_LEN,
        ASInterfaceDescriptor::of_wire(d.wire()) == Some(d),
{
    lemma_le32_round_trip(d.bm_formats);
    lemma_le32_round_trip(d.bm_channel_config);
}

/// The format of a stream of type I.
#[derive(Copy, Clone, Debug, PartialEq, Eq, Structural)]
pub struct ASFormatType1Descriptor {
    pub b_length: u8,
    pub b_descriptor_type: DescriptorType,
    pub b_descriptor_subtype: ASInterfaceSubtype,
    pub b_format_type: u8,
    pub b_subslot_size: u8,
    pub b_bit_resolution: u8,
}

/// The number of bytes of a [`ASFormatType1Descriptor`] on the wire.
pub const AS_FORMAT_TYPE1_LEN: usize = 6;

impl ASFormatType1Descriptor {
    /// The descriptor as it goes on the wire: the fields in their order,
    /// without gaps, the low byte of each first.
    pub open spec fn wire(self) -> Seq<u8> {
        seq![
            self.b_length,
            self.b_descriptor_type.code(),
            self.b_descriptor_subtype.code(),
            self.b_format_type,
            self.b_subslot_size,
            self.b_bit_resolution,
        ]
    }

    /// The descriptor that the first 6 bytes of `b` hold, if `b` has as
    /// many and every byte that stands for a kind stands for one.
    pub open spec fn of_wire(b: Seq<u8>) -> Option<Self> {
        if b.len() < AS_FORMAT_TYPE1_LEN || DescriptorType::of_code(b[1]) is None || ASInterfaceSubtype::of_code(b[2]) is None {
            None
        } else {
            Some(
                ASFormatType1Descriptor {
                    b_length: b[0],
                    b_descriptor_type: DescriptorType::of_code(b[1]).unwrap(),
                    b_descriptor_subtype: ASInterfaceSubtype::of_code(b[2]).unwrap(),
                    b_format_type: b[3],
                    b_subslot_size: b[4],
                    b_bit_resolution: b[5],
                },
            )
        }
    }

    /// The descriptor as it goes on the wire.
    pub fn to_bytes(&self) -> (bytes: [u8; 6])
        ensures
            bytes@ == self.wire(),
            Self::of_wire(bytes@) == Some(*self),
    {
        let bytes = [
            self.b_length,
            self.b_descriptor_type.bits(),
            self.b_descriptor_subtype.bits(),
            self.b_format_type,
            self.b_subslot_size,
            self.b_bit_resolution,
        ];
        proof {
            assert(bytes@ =~= self.wire());
            lemma_as_format_type1_round_trip(*self);
        }
        bytes
    }

    /// Reads a descriptor from the first 6 bytes of `buf`.
    pub fn from_bytes(buf: &[u8]) -> (d: Option<Self>)
        ensures
            d == Self::of_wire(buf@),
    {
        if buf.len() < AS_FORMAT_TYPE1_LEN {
            return None;
        }
        let b_descriptor_type = match DescriptorType::from_repr(buf[1]) {
            Some(x) => x,
            None => {
                return None;
            },
        };
        let b_descriptor_subtype = match ASInterfaceSubtype::from_repr(buf[2]) {
            Some(x) => x,
            None => {
                return None;
            },
        };
        Some(
            ASFormatType1Descriptor {
                b_length: buf[0],
                b_descriptor_type,
                b_descriptor_subtype,
                b_format_type: buf[3],
                b_subslot_size: buf[4],
                b_bit_resolution: buf[5],
            },
        )
    }
}

/// A descriptor read back from its own bytes is the descriptor.
pub proof fn lemma_as_format_type1_round_trip(d: ASFormatType1Descriptor)
    ensures
        d.wire().len() == AS_FORMAT_TYPE1_LEN,
        ASFormatType1Descriptor::of_wire(d.wire()) == Some(d),
{
}

/// The kinds of class-specific descriptors of an audio streaming endpoint.
#[derive(Copy, Clone, Debug, PartialEq, Eq, Structural)]
pub enum ASEndpointSubtype {
    IsochronousEndpoint,
}

impl ASEndpointSubtype {
    /// The byte that stands for the value.
    pub open spec fn code(self) -> u8 {
        match self {
            Self::IsochronousEndpoint => 0x01,
        }
    }

    /// The value that the byte `v` stands for, if it stands for one.
    pub open spec fn of_code(v: u8) -> Option<Self> {
        if v == 0x01 {
            Some(Self::IsochronousEndpoint)
        } else {
            None
        }
    }

    /// The byte that stands for the value.
    pub fn bits(self) -> (b: u8)
        ensures
            b == self.code(),
            Self::of_code(b) == Some(self),
    {
        match self {
            Self::IsochronousEndpoint => 0x01,
        }
    }

    /// The value that the byte `v` stands for, if it stands for one.
    pub fn from_repr(v: u8) -> (r: Option<Self>)
        ensures
            r == Self::of_code(v),
            r matches Some(x) ==> x.code() == v,
    {
        match v {
            0x01 => Some(Self::IsochronousEndpoint),
            _ => None,
        }
    }
}

/// The class-specific descriptor of an isochronous audio endpoint.
#[derive(Copy, Clone, Debug, PartialEq, Eq, Structural)]
pub struct ASEndpointDescriptor {
    pub b_length: u8,
    pub b_descriptor_type: DescriptorType,
    pub b_descriptor_subtype: ASEndpointSubtype,
    pub bm_attributes: u8,
    pub bm_controls: u8,
    pub b_lock_delay_units: u8,
    pub w_lock_delay: u16,
}

/// The number of bytes of a [`ASEndpointDescriptor`] on the wire.
pub const AS_ENDPOINT_LEN: usize = 8;

impl ASEndpointDescriptor {
    /// The descriptor as it goes on the wire: the fields in their order,
    /// without gaps, the low byte of each first.
    pub open spec fn wire(self) -> Seq<u8> {
        seq![
            self.b_length,
            self.b_descriptor_type.code(),
            self.b_descriptor_subtype.code(),
            self.bm_attributes,
            self.bm_controls,
            self.b_lock_delay_units,
            le16(self.w_lock_delay)[0],
            le16(self.w_lock_delay)[1],
        ]
    }

    /// The descriptor that the first 8 bytes of `b` hold, if `b` has as
    /// many and every byte that stands for a kind stands for one.
    pub open spec fn of_wire(b: Seq<u8>) -> Option<Self> {
        if b.len() < AS_ENDPOINT_LEN || DescriptorType::of_code(b[1]) is None || ASEndpointSubtype::of_code(b[2]) is None {
            None
        } else {
            Some(
                ASEndpointDescriptor {
                    b_length: b[0],
                    b_descriptor_type: DescriptorType::of_code(b[1]).unwrap(),
                    b_descriptor_subtype: ASEndpointSubtype::of_code(b[2]).unwrap(),
                    bm_attributes: b[3],
                    bm_controls: b[4],
                    b_lock_delay_units: b[5],
                    w_lock_delay: from_le16(b[6], b[7]),
                },
            )
        }
    }

    /// The descriptor as it goes on the wire.
    pub fn to_bytes(&self) -> (bytes: [u8; 8])
        ensures
            bytes@ == self.wire(),
            Self::of_wire(bytes@) == Some(*self),
    {
        let bytes = [
            self.b_length,
            self.b_descriptor_type.bits(),
            self.b_descriptor_subtype.bits(),
            self.bm_attributes,
            self.bm_controls,
            self.b_lock_delay_units,
            lo_byte(self.w_lock_delay),
            hi_byte(self.w_lock_delay),
        ];
        proof {
            assert(bytes@ =~= self.wire());
            lemma_as_endpoint_round_trip(*self);
        }
        bytes
    }

    /// Reads a descriptor from the first 8 bytes of `buf`.
    pub fn from_bytes(buf: &[u8]) -> (d: Option<Self>)
        ensures
            d == Self::of_wire(buf@),
    {
        if buf.len() < AS_ENDPOINT_LEN {
            return None;
        }
        let b_descriptor_type = match DescriptorType::from_repr(buf[1]) {
            Some(x) => x,
            None => {
                return None;
            },
        };
        let b_descriptor_subtype = match ASEndpointSubtype::from_repr(buf[2]) {
            Some(x) => x,
            None => {
                return None;
            },
        };
        Some(
            ASEndpointDescriptor {
                b_length: buf[0],
                b_descriptor_type,
                b_descriptor_subtype,
                bm_attributes: buf[3],
                bm_controls: buf[4],
                b_lock_delay_units: buf[5],
                w_lock_delay: half_word(buf[6], buf[7]),
            },
        )
    }
}

/// A descriptor read back from its own bytes is the descriptor.
pub proof fn lemma_as_endpoint_round_trip(d: ASEndpointDescriptor)
    ensures
        d.wire().len() == AS_ENDPOINT_LEN,
        ASEndpointDescriptor::of_wire(d.wire()) == Some(d),
{
    lemma_le16_round_trip(d.w_lock_delay);
    lemma_field16_bound(d.w_lock_delay, 0, 0xff);
    lemma_field16_bound(d.w_lock_delay, 8, 0xff);
}

// MIDI Stream

/// The kinds of class-specific descriptors of a MIDI streaming interface.
#[derive(Copy, Clone, Debug, PartialEq, Eq, Structural)]
pub enum MSInterfaceSubtype {
    MsHeader,
    MidiInJack,
    MidiOutJack,
    Element,
}

impl MSInterfaceSubtype {
    /// The byte that stands for the value.
    pub open spec fn code(self) -> u8 {
        match self {
            Self::MsHeader => 0x01,
            Self::MidiInJack => 0x02,
            Self::MidiOutJack => 0x03,
            Self::Element => 0x04,
        }
    }

    /// The value that the byte `v` stands for, if it stands for one.
    pub open spec fn of_code(v: u8) -> Option<Self> {
        if v == 0x01 {
            Some(Self::MsHeader)
        } else if v == 0x02 {
            Some(Self::MidiInJack)
        } else if v == 0x03 {
            Some(Self::MidiOutJack)
        } else if v == 0x04 {
            Some(Self::Element)
        } else {
            None
        }
    }

    /// The byte that stands for the value.
    pub fn bits(self) -> (b: u8)
        ensures
            b == self.code(),
            Self::of_code(b) == Some(self),
    {
        match self {
            Self::MsHeader => 0x01,
            Self::MidiInJack => 0x02,
            Self::MidiOutJack => 0x03,
            Self::Element => 0x04,
        }
    }

    /// The value that the byte `v` stands for, if it stands for one.
    pub fn from_repr(v: u8) -> (r: Option<Self>)
        ensures
            r == Self::of_code(v),
            r matches Some(x) ==> x.code() == v,
    {
        match v {
            0x01 => Some(Self::MsHeader),
            0x02 => Some(Self::MidiInJack),
            0x03 => Some(Self::MidiOutJack),
            0x04 => Some(Self::Element),
            _ => None,
        }
    }
}

/// The head of the class-specific descriptors of a MIDI streaming interface.
#[derive(Copy, Clone, Debug, PartialEq, Eq, Structural)]
pub struct MSInterfaceDescriptor {
    pub b_length: u8,
    pub b_descriptor_type: DescriptorType,
    pub b_descriptor_subtype: MSInterfaceSubtype,
    pub bcd_msc: u16,
    pub w_total_length: u16,
}

/// The number of bytes of a [`MSInterfaceDescriptor`] on the wire.
pub const MS_INTERFACE_LEN: usize = 7;

impl MSInterfaceDescriptor {
    /// The descriptor as it goes on the wire: the fields in their order,
    /// without gaps, the low byte of each first.
    pub open spec fn wire(self) -> Seq<u8> {
        seq![
            self.b_length,
            self.b_descriptor_type.code(),
            self.b_descriptor_subtype.code(),
            le16(self.bcd_msc)[0],
            le16(self.bcd_msc)[1],
            le16(self.w_total_length)[0],
            le16(self.w_total_length)[1],
        ]
    }

    /// The descriptor that the first 7 bytes of `b` hold, if `b` has as
    /// many and every byte that stands for a kind stands for one.
    pub open spec fn of_wire(b: Seq<u8>) -> Option<Self> {
        if b.len() < MS_INTERFACE_LEN || DescriptorType::of_code(b[1]) is None || MSInterfaceSubtype::of_code(b[2]) is None {
            None
        } else {
            Some(
                MSInterfaceDescriptor {
                    b_length: b[0],
                    b_descriptor_type: DescriptorType::of_code(b[1]).unwrap(),
                    b_descriptor_subtype: MSInterfaceSubtype::of_code(b[2]).unwrap(),
                    bcd_msc: from_le16(b[3], b[4]),
                    w_total_length: from_le16(b[5], b[6]),
                },
            )
        }
    }

    /// The descriptor as it goes on the wire.
    pub fn to_bytes(&self) -> (bytes: [u8; 7])
        ensures
            bytes@ == self.wire(),
            Self::of_wire(bytes@) == Some(*self),
    {
        let bytes = [
            self.b_length,
            self.b_descriptor_type.bits(),
            self.b_descriptor_subtype.bits(),
            lo_byte(self.bcd_msc),
            hi_byte(self.bcd_msc),
            lo_byte(self.w_total_length),
            hi_byte(self.w_total_length),
        ];
        proof {
            assert(bytes@ =~= self.wire());
            lemma_ms_interface_round_trip(*self);
        }
        bytes
    }

    /// Reads a descriptor from the first 7 bytes of `buf`.
    pub fn from_bytes(buf: &[u8]) -> (d: Option<Self>)
        ensures
            d == Self::of_wire(buf@),
    {
        if buf.len() < MS_INTERFACE_LEN {
            return None;
        }
        let b_descriptor_type = match DescriptorType::from_repr(buf[1]) {
            Some(x) => x,
            None => {
                return None;
            },
        };
        let b_descriptor_subtype = match MSInterfaceSubtype::from_repr(buf[2]) {
            Some(x) => x,
            None => {
                return None;
            },
        };
        Some(
            MSInterfaceDescriptor {
                b_length: buf[0],
                b_descriptor_type,
                b_descriptor_subtype,
                bcd_msc: half_word(buf[3], buf[4]),
                w_total_length: half_word(buf[5], buf[6]),
            },
        )
    }
}

/// A descriptor read back from its own bytes is the descriptor.
pub proof fn lemma_ms_interface_round_trip(d: MSInterfaceDescriptor)
    ensures
        d.wire().len() == MS_INTERFACE_LEN,
        MSInterfaceDescriptor::of_wire(d.wire()) == Some(d),
{
    lemma_le16_round_trip(d.bcd_msc);
    lemma_field16_bound(d.bcd_msc, 0, 0xff);
    lemma_field16_bound(d.bcd_msc, 8, 0xff);
    lemma_le16_round_trip(d.w_total_length);
    lemma_field16_bound(d.w_total_length, 0, 0xff);
    lemma_field16_bound(d.w_total_length, 8, 0xff);
}

/// A MIDI IN jack.
#[derive(Copy, Clone, Debug, PartialEq, Eq, Structural)]
pub struct MSInJackDescriptor {
    pub b_length: u8,
    pub b_descriptor_type: DescriptorType,
    pub b_descriptor_subtype: MSInterfaceSubtype,
    pub b_jack_type: u8,
    pub b_jack_id: u8,
    pub i_jack: u8,
}

/// The number of bytes of a [`MSInJackDescriptor`] on the wire.
pub const MS_IN_JACK_LEN: usize = 6;

impl MSInJackDescriptor {
    /// The descriptor as it goes on the wire: the fields in their order,
    /// without gaps, the low byte of each first.
    pub open spec fn wire(self) -> Seq<u8> {
        seq![
            self.b_length,
            self.b_descriptor_type.code(),
            self.b_descriptor_subtype.code(),
            self.b_jack_type,
            self.b_jack_id,
            self.i_jack,
        ]
    }

    /// The descriptor that the first 6 bytes of `b` hold, if `b` has as
    /// many and every byte that stands for a kind stands for one.
    pub open spec fn of_wire(b: Seq<u8>) -> Option<Self> {
        if b.len() < MS_IN_JACK_LEN || DescriptorType::of_code(b[1]) is None || MSInterfaceSubtype::of_code(b[2]) is None {
            None
        } else {
            Some(
                MSInJackDescriptor {
                    b_length: b[0],
                    b_descriptor_type: DescriptorType::of_code(b[1]).unwrap(),
                    b_descriptor_subtype: MSInterfaceSubtype::of_code(b[2]).unwrap(),
                    b_jack_type: b[3],
                    b_jack_id: b[4],
                    i_jack: b[5],
                },
            )
        }
    }

    /// The descriptor as it goes on the wire.
    pub fn to_bytes(&self) -> (bytes: [u8; 6])
        ensures
            bytes@ == self.wire(),
            Self::of_wire(bytes@) == Some(*self),
    {
        let bytes = [
            self.b_length,
            self.b_descriptor_type.bits(),
            self.b_descriptor_subtype.bits(),
            self.b_jack_type,
            self.b_jack_id,
            self.i_jack,
        ];
        proof {
            assert(bytes@ =~= self.wire());
            lemma_ms_in_jack_round_trip(*self);
        }
        bytes
    }

    /// Reads a descriptor from the first 6 bytes of `buf`.
    pub fn from_bytes(buf: &[u8]) -> (d: Option<Self>)
        ensures
            d == Self::of_wire(buf@),
    {
        if buf.len() < MS_IN_JACK_LEN {
            return None;
        }
        let b_descriptor_type = match DescriptorType::from_repr(buf[1]) {
            Some(x) => x,
            None => {
                return None;
            },
        };
        let b_descriptor_subtype = match MSInterfaceSubtype::from_repr(buf[2]) {
            Some(x) => x,
            None => {
                return None;
            },
        };
        Some(
            MSInJackDescriptor {
                b_length: buf[0],
                b_descriptor_type,
                b_descriptor_subtype,
                b_jack_type: buf[3],
                b_jack_id: buf[4],
                i_jack: buf[5],
            },
        )
    }
}

/// A descriptor read back from its own bytes is the descriptor.
pub proof fn lemma_ms_in_jack_round_trip(d: MSInJackDescriptor)
    ensures
        d.wire().len() == MS_IN_JACK_LEN,
        MSInJackDescriptor::of_wire(d.wire()) == Some(d),
{
}

/// A MIDI OUT jack with one input pin.
#[derive(Copy, Clone, Debug, PartialEq, Eq, Structural)]
pub struct MSOutJackDescriptor {
    pub b_length: u8,
    pub b_descriptor_type: DescriptorType,
    pub b_descriptor_subtype: MSInterfaceSubtype,
    pub b_jack_type: u8,
    pub b_jack_id: u8,
    pub b_nr_input_pins: u8,
    pub ba_source_id: u8,
    pub ba_source_pin: u8,
    pub i_jack: u8,
}

/// The number of bytes of a [`MSOutJackDescriptor`] on the wire.
pub const MS_OUT_JACK_LEN: usize = 9;

impl MSOutJackDescriptor {
    /// The descriptor as it goes on the wire: the fields in their order,
    /// without gaps, the low byte of each first.
    pub open spec fn wire(self) -> Seq<u8> {
        seq![
            self.b_length,
            self.b_descriptor_type.code(),
            self.b_descriptor_subtype.code(),
            self.b_jack_type,
            self.b_jack_id,
            self.b_nr_input_pins,
            self.ba_source_id,
            self.ba_source_pin,
            self.i_jack,
        ]
    }

    /// The descriptor that the first 9 bytes of `b` hold, if `b` has as
    /// many and every byte that stands for a kind stands for one.
    pub open spec fn of_wire(b: Seq<u8>) -> Option<Self> {
        if b.len() < MS_OUT_JACK_LEN || DescriptorType::of_code(b[1]) is None || MSInterfaceSubtype::of_code(b[2]) is None {
            None
        } else {
            Some(
                MSOutJackDescriptor {
                    b_length: b[0],
                    b_descriptor_type: DescriptorType::of_code(b[1]).unwrap(),
                    b_descriptor_subtype: MSInterfaceSubtype::of_code(b[2]).unwrap(),
                    b_jack_type: b[3],
                    b_jack_id: b[4],
                    b_nr_input_pins: b[5],
                    ba_source_id: b[6],
                    ba_source_pin: b[7],
                    i_jack: b[8],
                },
            )
        }
    }

    /// The descriptor as it goes on the wire.
    pub fn to_bytes(&self) -> (bytes: [u8; 9])
        ensures
            bytes@ == self.wire(),
            Self::of_wire(bytes@) == Some(*self),
    {
        let bytes = [
            self.b_length,
            self.b_descriptor_type.bits(),
            self.b_descriptor_subtype.bits(),
            self.b_jack_type,
            self.b_jack_id,
            self.b_nr_input_pins,
            self.ba_source_id,
            self.ba_source_pin,
            self.i_jack,
        ];
        proof {
            assert(bytes@ =~= self.wire());
            lemma_ms_out_jack_round_trip(*self);
        }
        bytes
    }

    /// Reads a descriptor from the first 9 bytes of `buf`.
    pub fn from_bytes(buf: &[u8]) -> (d: Option<Self>)
        ensures
            d == Self::of_wire(buf@),
    {
        if buf.len() < MS_OUT_JACK_LEN {
            return None;
        }
        let b_descriptor_type = match DescriptorType::from_repr(buf[1]) {
            Some(x) => x,
            None => {
                return None;
            },
        };
        let b_descriptor_subtype = match MSInterfaceSubtype::from_repr(buf[2]) {
            Some(x) => x,
            None => {
                return None;
            },
        };
        Some(
            MSOutJackDescriptor {
                b_length: buf[0],
                b_descriptor_type,
                b_descriptor_subtype,
                b_jack_type: buf[3],
                b_jack_id: buf[4],
                b_nr_input_pins: buf[5],
                ba_source_id: buf[6],
                ba_source_pin: buf[7],
                i_jack: buf[8],
            },
        )
    }
}

/// A descriptor read back from its own bytes is the descriptor.
pub proof fn lemma_ms_out_jack_round_trip(d: MSOutJackDescriptor)
    ensures
        d.wire().len() == MS_OUT_JACK_LEN,
        MSOutJackDescriptor::of_wire(d.wire()) == Some(d),
{
}

/// Where a MIDI jack is: inside the function or on its case.
#[derive(Copy, Clone, Debug, PartialEq, Eq, Structural)]
pub enum JackType {
    Embedded,
    External,
}

impl JackType {
    /// The byte that stands for the value.
    pub open spec fn code(self) -> u8 {
        match self {
            Self::Embedded => 1,
            Self::External => 2,
        }
    }

    /// The value that the byte `v` stands for, if it stands for one.
    pub open spec fn of_code(v: u8) -> Option<Self> {
        if v == 1 {
            Some(Self::Embedded)
        } else if v == 2 {
            Some(Self::External)
        } else {
            None
        }
    }

    /// The byte that stands for the value.
    pub fn bits(self) -> (b: u8)
        ensures
            b == self.code(),
            Self::of_code(b) == Some(self),
    {
        match self {
            Self::Embedded => 1,
            Self::External => 2,
        }
    }

    /// The value that the byte `v` stands for, if it stands for one.
    pub fn from_repr(v: u8) -> (r: Option<Self>)
        ensures
            r == Self::of_code(v),
            r matches Some(x) ==> x.code() == v,
    {
        match v {
            1 => Some(Self::Embedded),
            2 => Some(Self::External),
            _ => None,
        }
    }
}

/// The kinds of class-specific descriptors of a MIDI streaming endpoint.
#[derive(Copy, Clone, Debug, PartialEq, Eq, Structural)]
pub enum MSEndpointSubtype {
    BulkEndpoint,
}

impl MSEndpointSubtype {
    /// The byte that stands for the value.
    pub open spec fn code(self) -> u8 {
        match self {
            Self::BulkEndpoint => 0x01,
        }
    }

    /// The value that the byte `v` stands for, if it stands for one.
    pub open spec fn of_code(v: u8) -> Option<Self> {
        if v == 0x01 {
            Some(Self::BulkEndpoint)
        } else {
            None
        }
    }

    /// The byte that stands for the value.
    pub fn bits(self) -> (b: u8)
        ensures
            b == self.code(),
            Self::of_code(b) == Some(self),
    {
        match self {
            Self::BulkEndpoint => 0x01,
        }
    }

    /// The value that the byte `v` stands for, if it stands for one.
    pub fn from_repr(v: u8) -> (r: Option<Self>)
        ensures
            r == Self::of_code(v),
            r matches Some(x) ==> x.code() == v,
    {
        match v {
            0x01 => Some(Self::BulkEndpoint),
            _ => None,
        }
    }
}

/// The class-specific descriptor of a bulk MIDI endpoint with one jack.
#[derive(Copy, Clone, Debug, PartialEq, Eq, Structural)]
pub struct MSEndpointDescriptor {
    pub b_length: u8,
    pub b_descriptor_type: DescriptorType,
    pub b_descriptor_subtype: MSEndpointSubtype,
    pub b_num_emb_midi_jack: u8,
    pub ba_assoc_jack_id: u8,
}

/// The number of bytes of a [`MSEndpointDescriptor`] on the wire.
pub const MS_ENDPOINT_LEN: usize = 5;

impl MSEndpointDescriptor {
    /// The descriptor as it goes on the wire: the fields in their order,
    /// without gaps, the low byte of each first.
    pub open spec fn wire(self) -> Seq<u8> {
        seq![
            self.b_length,
            self.b_descriptor_type.code(),
            self.b_descriptor_subtype.code(),
            self.b_num_emb_midi_jack,
            self.ba_assoc_jack_id,
        ]
    }

    /// The descriptor that the first 5 bytes of `b` hold, if `b` has as
    /// many and every byte that stands for a kind stands for one.
    pub open spec fn of_wire(b: Seq<u8>) -> Option<Self> {
        if b.len() < MS_ENDPOINT_LEN || DescriptorType::of_code(b[1]) is None || MSEndpointSubtype::of_code(b[2]) is None {
            None
        } else {
            Some(
                MSEndpointDescriptor {
                    b_length: b[0],
                    b_descriptor_type: DescriptorType::of_code(b[1]).unwrap(),
                    b_descriptor_subtype: MSEndpointSubtype::of_code(b[2]).unwrap(),
                    b_num_emb_midi_jack: b[3],
                    ba_assoc_jack_id: b[4],
                },
            )
        }
    }

    /// The descriptor as it goes on the wire.
    pub fn to_bytes(&self) -> (bytes: [u8; 5])
        ensures
            bytes@ == self.wire(),
            Self::of_wire(bytes@) == Some(*self),
    {
        let bytes = [
            self.b_length,
            self.b_descriptor_type.bits(),
            self.b_descriptor_subtype.bits(),
            self.b_num_emb_midi_jack,
            self.ba_assoc_jack_id,
        ];
        proof {
            assert(bytes@ =~= self.wire());
            lemma_ms_endpoint_round_trip(*self);
        }
        bytes
    }

    /// Reads a descriptor from the first 5 bytes of `buf`.
    pub fn from_bytes(buf: &[u8]) -> (d: Option<Self>)
        ensures
            d == Self::of_wire(buf@),
    {
        if buf.len() < MS_ENDPOINT_LEN {
            return None;
        }
        let b_descriptor_type = match DescriptorType::from_repr(buf[1]) {
            Some(x) => x,
            None => {
                return None;
            },
        };
        let b_descriptor_subtype = match MSEndpointSubtype::from_repr(buf[2]) {
            Some(x) => x,
            None => {
                return None;
            },
        };
        Some(
            MSEndpointDescriptor {
                b_length: buf[0],
                b_descriptor_type,
                b_descriptor_subtype,
                b_num_emb_midi_jack: buf[3],
                ba_assoc_jack_id: buf[4],
            },
        )
    }
}

/// A descriptor read back from its own bytes is the descriptor.
pub proof fn lemma_ms_endpoint_round_trip(d: MSEndpointDescriptor)
    ensures
        d.wire().len() == MS_ENDPOINT_LEN,
        MSEndpointDescriptor::of_wire(d.wire()) == Some(d),
{
}

} // verus!
