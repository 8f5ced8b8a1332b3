//! The parser of configuration descriptors: a cursor that walks the bytes
//! that a device returned and yields one descriptor after the other.
use crate::class::audio::{audio_kind, parse, AudioDescriptorRef};
use crate::class::DeviceClass;
use crate::descriptor::{
    ConfigurationDescriptor, DescriptorType, DeviceDescriptor, EndpointDescriptor,
    InterfaceAssociationDescriptor, InterfaceDescriptor,
};
use vstd::prelude::*;
use vstd::slice::slice_subrange;

verus! {

/// Whether `raw` is well-formed UTF-16 with the low byte of each unit first,
/// as `utf16string` judges it.
pub uninterp spec fn utf16le_valid(raw: Seq<u8>) -> bool;

/// The characters that `raw` encodes, where it is well-formed.
pub uninterp spec fn utf16le_text(raw: Seq<u8>) -> Seq<char>;

/// `utf16string::WStr::from_utf16le`, which checks the bytes and fails on
/// those that are no UTF-16: the result says whether it succeeded.
#[verifier::external_body]
fn utf16le_check(raw: &[u8]) -> (ok: bool)
    ensures
        ok == utf16le_valid(raw@),
{
    utf16string::WStr::from_utf16le(raw).is_ok()
}

/// `utf16string::WStr::to_utf8`, on the string that `WStr::from_utf16le`
/// makes of the bytes: the characters as a `String`, or nothing where the
/// bytes are no UTF-16.
#[verifier::external_body]
fn utf16le_decode(raw: &[u8]) -> (text: Option<String>)
    ensures
        text is Some <==> utf16le_valid(raw@),
        text matches Some(s) ==> s@ == utf16le_text(raw@),
{
    match utf16string::WStr::from_utf16le(raw) {
        Ok(s) => Some(s.to_utf8()),
        Err(_) => None,
    }
}

/// The text of a string descriptor: UTF-16, little-endian, without a
/// terminating NUL.
#[derive(Debug, Clone, Copy)]
pub struct Utf16Str<'a> {
    raw: &'a [u8],
}

impl<'a> Utf16Str<'a> {
    #[verifier::type_invariant]
    spec fn well_formed(self) -> bool {
        utf16le_valid(self.raw@)
    }

    /// The bytes of the text.
    pub closed spec fn bytes(self) -> Seq<u8> {
        self.raw@
    }

    /// The text in `raw`, if `raw` is well-formed.
    pub fn new(raw: &'a [u8]) -> (s: Option<Self>)
        ensures
            s is Some <==> utf16le_valid(raw@),
            s matches Some(t) ==> t.bytes() == raw@,
    {
        if utf16le_check(raw) {
            Some(Utf16Str { raw })
        } else {
            None
        }
    }

    /// The bytes of the text.
    pub fn as_bytes(&self) -> (b: &'a [u8])
        ensures
            b@ == self.bytes(),
            utf16le_valid(b@),
    {
        proof {
            use_type_invariant(self);
        }
        self.raw
    }

    /// The text as a `String`.
    pub fn to_utf8(&self) -> (text: String)
        ensures
            text@ == utf16le_text(self.bytes()),
    {
        proof {
            use_type_invariant(self);
        }
        match utf16le_decode(self.raw) {
            Some(text) => text,
            None => String::new(),
        }
    }
}

/// A descriptor as the parser yields it.
#[derive(Debug, Clone, Copy)]
pub enum DescriptorRef<'a> {
    Device(DeviceDescriptor),
    Configuration(ConfigurationDescriptor),
    String(Utf16Str<'a>),
    Interface(InterfaceDescriptor),
    Endpoint(EndpointDescriptor),
    InterfaceAssociation(InterfaceAssociationDescriptor),
    Audio(AudioDescriptorRef<'a>),
    UnknownClassInterface(&'a [u8]),
    UnknownClassEndpoint(&'a [u8]),
    Unknown(&'a [u8]),
}

/// The forms that a descriptor can be yielded in.
#[derive(Debug, Clone, Copy, PartialEq, Eq, Structural)]
pub enum RefKind {
    Device,
    Configuration,
    String,
    Interface,
    Endpoint,
    InterfaceAssociation,
    Audio,
    UnknownClassInterface,
    UnknownClassEndpoint,
    Unknown,
}

/// The form in which the descriptor with the bytes `b` is yielded, after an
/// interface of the class `class`. A descriptor without a type byte, of a
/// type that is not known, too short for its type, or a string that is no
/// UTF-16, is yielded as its bytes.
pub open spec fn ref_kind(b: Seq<u8>, class: Option<DeviceClass>) -> RefKind {
    if b.len() < 2 {
        RefKind::Unknown
    } else {
        match DescriptorType::of_code(b[1]) {
            Some(DescriptorType::Device) => if DeviceDescriptor::of_wire(b) is Some {
                RefKind::Device
            } else {
                RefKind::Unknown
            },
            Some(DescriptorType::Configuration) => if ConfigurationDescriptor::of_wire(b) is Some {
                RefKind::Configuration
            } else {
                RefKind::Unknown
            },
            Some(DescriptorType::String) => if utf16le_valid(b.subrange(2, b.len() as int)) {
                RefKind::String
            } else {
                RefKind::Unknown
            },
            Some(DescriptorType::Interface) => if InterfaceDescriptor::of_wire(b) is Some {
                RefKind::Interface
            } else {
                RefKind::Unknown
            },
            Some(DescriptorType::Endpoint) => if EndpointDescriptor::of_wire(b) is Some {
                RefKind::Endpoint
            } else {
                RefKind::Unknown
            },
            Some(DescriptorType::InterfaceAssociation) => if InterfaceAssociationDescriptor::of_wire(
                b,
            ) is Some {
                RefKind::InterfaceAssociation
            } else {
                RefKind::Unknown
            },
            Some(DescriptorType::ClassInterface) => if class == Some(DeviceClass::Audio) {
                RefKind::Audio
            } else {
                RefKind::UnknownClassInterface
            },
            Some(DescriptorType::ClassEndpoint) => if class == Some(DeviceClass::Audio) {
                RefKind::Audio
            } else {
                RefKind::UnknownClassEndpoint
            },
            _ => RefKind::Unknown,
        }
    }
}

impl<'a> DescriptorRef<'a> {
    /// The form of the descriptor.
    pub open spec fn spec_kind(self) -> RefKind {
        match self {
            Self::Device(_) => RefKind::Device,
            Self::Configuration(_) => RefKind::Configuration,
            Self::String(_) => RefKind::String,
            Self::Interface(_) => RefKind::Interface,
            Self::Endpoint(_) => RefKind::Endpoint,
            Self::InterfaceAssociation(_) => RefKind::InterfaceAssociation,
            Self::Audio(_) => RefKind::Audio,
            Self::UnknownClassInterface(_) => RefKind::UnknownClassInterface,
            Self::UnknownClassEndpoint(_) => RefKind::UnknownClassEndpoint,
            Self::Unknown(_) => RefKind::Unknown,
        }
    }

    /// Whether this is what the bytes `b` hold, after an interface of the
    /// subclass `subclass`: a structure holds the fields that `b` starts
    /// with, a string the bytes behind the first two, and bytes are `b`.
    pub open spec fn describes(self, b: Seq<u8>, subclass: Option<u8>) -> bool {
        match self {
            Self::Device(d) => DeviceDescriptor::of_wire(b) == Some(d),
            Self::Configuration(d) => ConfigurationDescriptor::of_wire(b) == Some(d),
            Self::String(s) => b.len() >= 2 && s.bytes() == b.subrange(2, b.len() as int),
            Self::Interface(d) => InterfaceDescriptor::of_wire(b) == Some(d),
            Self::Endpoint(d) => EndpointDescriptor::of_wire(b) == Some(d),
            Self::InterfaceAssociation(d) => InterfaceAssociationDescriptor::of_wire(b) == Some(d),
            Self::Audio(a) => b.len() >= 2 && DescriptorType::of_code(b[1]) is Some && a.describes(
                b,
            ) && a.spec_kind() == audio_kind(subclass, DescriptorType::of_code(b[1]).unwrap(), b),
            Self::UnknownClassInterface(s) => s@ == b,
            Self::UnknownClassEndpoint(s) => s@ == b,
            Self::Unknown(s) => s@ == b,
        }
    }

    /// The form of the descriptor.
    pub fn kind(&self) -> (k: RefKind)
        ensures
            k == self.spec_kind(),
    {
        match self {
            Self::Device(_) => RefKind::Device,
            Self::Configuration(_) => RefKind::Configuration,
            Self::String(_) => RefKind::String,
            Self::Interface(_) => RefKind::Interface,
            Self::Endpoint(_) => RefKind::Endpoint,
            Self::InterfaceAssociation(_) => RefKind::InterfaceAssociation,
            Self::Audio(_) => RefKind::Audio,
            Self::UnknownClassInterface(_) => RefKind::UnknownClassInterface,
            Self::UnknownClassEndpoint(_) => RefKind::UnknownClassEndpoint,
            Self::Unknown(_) => RefKind::Unknown,
        }
    }
}

/// Where a parser stands: the bytes it walks, its cursor, and the class and
/// subclass of the interface it saw last.
pub struct ParserView {
    pub bytes: Seq<u8>,
    pub pos: nat,
    pub class: Option<DeviceClass>,
    pub subclass: Option<u8>,
}

/// The length of the descriptor at `pos`, if one lies there in full: the
/// byte at `pos`, unless `pos` is at the end, the byte is zero, or the bytes
/// run out before the descriptor ends.
pub open spec fn descriptor_len_at(bytes: Seq<u8>, pos: nat) -> Option<nat> {
    if pos < bytes.len() && bytes[pos as int] != 0 && pos + bytes[pos as int] <= bytes.len() {
        Some(bytes[pos as int] as nat)
    } else {
        None
    }
}

/// The `n` bytes of `bytes` from `pos` on.
pub open spec fn bytes_at(bytes: Seq<u8>, pos: nat, n: nat) -> Seq<u8> {
    bytes.subrange(pos as int, (pos + n) as int)
}

/// The class that the parser keeps after the descriptor with the bytes `b`:
/// that of `b`, if `b` is an interface, whatever class it names; a class
/// that is not known counts as none.
pub open spec fn class_after(b: Seq<u8>, class: Option<DeviceClass>) -> Option<DeviceClass> {
    match InterfaceDescriptor::of_wire(b) {
        Some(d) => if b[1] == 4 {
            DeviceClass::of_code(d.b_interface_class)
        } else {
            class
        },
        None => class,
    }
}

/// The subclass that the parser keeps after the descriptor with the bytes
/// `b`: that of `b`, if `b` is an interface, whatever subclass it names.
pub open spec fn subclass_after(b: Seq<u8>, subclass: Option<u8>) -> Option<u8> {
    match InterfaceDescriptor::of_wire(b) {
        Some(d) => if b[1] == 4 {
            Some(d.b_interface_sub_class)
        } else {
            subclass
        },
        None => subclass,
    }
}

/// The parser after it has yielded the descriptor at its cursor, or as it is
/// where no descriptor lies there.
pub open spec fn parser_after(p: ParserView) -> ParserView {
    match descriptor_len_at(p.bytes, p.pos) {
        Some(n) => {
            let b = bytes_at(p.bytes, p.pos, n);
            ParserView {
                bytes: p.bytes,
                pos: p.pos + n,
                class: class_after(b, p.class),
                subclass: subclass_after(b, p.subclass),
            }
        },
        None => p,
    }
}

/// Class-specific descriptors go by the interface that was yielded last.
/// Once the parser has yielded an interface, it keeps the class and the
/// subclass of that interface, whatever it kept before; any other
/// descriptor leaves what it keeps. So a class-specific descriptor `later`
/// that comes while the parser keeps them is an audio descriptor where the
/// class of that interface is audio, and one of an unknown class else.
pub proof fn lemma_class_follows_interface(p: ParserView, later: Seq<u8>)
    requires
        descriptor_len_at(p.bytes, p.pos) is Some,
        later.len() >= 2,
    ensures
        ({
            let b = bytes_at(p.bytes, p.pos, descriptor_len_at(p.bytes, p.pos).unwrap());
            let q = parser_after(p);
            if ref_kind(b, p.class) == RefKind::Interface {
                let d = InterfaceDescriptor::of_wire(b).unwrap();
                &&& q.class == DeviceClass::of_code(d.b_interface_class)
                &&& q.subclass == Some(d.b_interface_sub_class)
                &&& later[1] == 0x24 ==> ref_kind(later, q.class) == if d.b_interface_class == 1 {
                    RefKind::Audio
                } else {
                    RefKind::UnknownClassInterface
                }
                &&& later[1] == 0x25 ==> ref_kind(later, q.class) == if d.b_interface_class == 1 {
                    RefKind::Audio
                } else {
                    RefKind::UnknownClassEndpoint
                }
            } else {
                q.class == p.class && q.subclass == p.subclass
            }
        }),
{
}

/// A forward cursor over the bytes of a configuration descriptor.
pub struct DescriptorParser<'a> {
    buf: &'a [u8],
    pos: usize,
    class: Option<DeviceClass>,
    subclass: Option<u8>,
}

impl<'a> View for DescriptorParser<'a> {
    type V = ParserView;

    closed spec fn view(&self) -> ParserView {
        ParserView {
            bytes: self.buf@,
            pos: self.pos as nat,
            class: self.class,
            subclass: self.subclass,
        }
    }
}

impl<'a> DescriptorParser<'a> {
    #[verifier::type_invariant]
    spec fn cursor_in_range(self) -> bool {
        self.pos <= self.buf@.len()
    }

    /// A parser at the start of `buf`, which has seen no interface yet.
    pub fn new(buf: &'a [u8]) -> (p: Self)
        ensures
            p@ == (ParserView { bytes: buf@, pos: 0, class: None, subclass: None }),
    {
        Self { buf, pos: 0, class: None, subclass: None }
    }

    /// Puts the cursor back to the start. What the parser knows of the last
    /// interface stays.
    pub fn rewind(&mut self)
        ensures
            final(self)@ == (ParserView { pos: 0, ..old(self)@ }),
    {
        self.pos = 0;
    }

    /// The place of the cursor: the number of bytes behind it.
    pub fn position(&self) -> (pos: usize)
        ensures
            pos == self@.pos,
            pos <= self@.bytes.len(),
    {
        proof {
            use_type_invariant(self);
        }
        self.pos
    }

    /// The number of bytes between the cursor and the end.
    pub fn remaining(&self) -> (n: usize)
        ensures
            n == self@.bytes.len() - self@.pos,
    {
        proof {
            use_type_invariant(self);
        }
        self.buf.len() - self.pos
    }

    /// Yields the descriptor at the cursor and moves the cursor behind it.
    /// At the end of the bytes, at a length byte of zero and at a descriptor
    /// that the bytes do not hold in full, nothing is yielded and the parser
    /// stays as it is.
    pub fn next(&mut self) -> (r: Option<DescriptorRef<'a>>)
        ensures
            final(self)@ == parser_after(old(self)@),
            final(self)@.pos <= final(self)@.bytes.len(),
            match descriptor_len_at(old(self)@.bytes, old(self)@.pos) {
                Some(n) => r matches Some(d) && d.spec_kind() == ref_kind(
                    bytes_at(old(self)@.bytes, old(self)@.pos, n),
                    old(self)@.class,
                ) && d.describes(
                    bytes_at(old(self)@.bytes, old(self)@.pos, n),
                    old(self)@.subclass,
                ),
                None => r is None,
            },
    {
        proof {
            use_type_invariant(&*self);
        }
        if self.pos >= self.buf.len() {
            // we're done here
            return None;
        }
        let desc_len = self.buf[self.pos] as usize;
        if desc_len == 0 {
            return None;
        }
        if desc_len > self.buf.len() - self.pos {
            return None;
        }
        let desc_next = self.pos + desc_len;
        let desc = slice_subrange(self.buf, self.pos, desc_next);
        let desc_ref = read_descriptor(desc, self.class, self.subclass);
        if let DescriptorRef::Interface(ifdesc) = desc_ref {
            if desc[1] == 4 {
                self.class = DeviceClass::from_repr(ifdesc.b_interface_class);
                self.subclass = Some(ifdesc.b_interface_sub_class);
            }
        }
        // advance to next descriptor

        self.pos = desc_next;
        Some(desc_ref)
    }
}

/// Reads the bytes of one descriptor, which stands after an interface of
/// the class `class` and the subclass `subclass`.
pub fn read_descriptor<'a>(desc: &'a [u8], class: Option<DeviceClass>, subclass: Option<u8>) -> (r: DescriptorRef<'a>)
    ensures
        r.spec_kind() == ref_kind(desc@, class),
        r.describes(desc@, subclass),
{
    if desc.len() < 2 {
        return DescriptorRef::Unknown(desc);
    }
    let is_audio = match class {
        Some(DeviceClass::Audio) => true,
        _ => false,
    };
    match DescriptorType::from_repr(desc[1]) {
        Some(DescriptorType::Device) => match DeviceDescriptor::from_bytes(desc) {
            Some(d) => DescriptorRef::Device(d),
            None => DescriptorRef::Unknown(desc),
        },
        Some(DescriptorType::Configuration) => match ConfigurationDescriptor::from_bytes(desc) {
            Some(d) => DescriptorRef::Configuration(d),
            None => DescriptorRef::Unknown(desc),
        },
        Some(DescriptorType::String) => match Utf16Str::new(slice_subrange(desc, 2, desc.len())) {
            Some(s) => DescriptorRef::String(s),
            None => DescriptorRef::Unknown(desc),
        },
        Some(DescriptorType::Interface) => match InterfaceDescriptor::from_bytes(desc) {
            Some(d) => DescriptorRef::Interface(d),
            None => DescriptorRef::Unknown(desc),
        },
        Some(DescriptorType::Endpoint) => match EndpointDescriptor::from_bytes(desc) {
            Some(d) => DescriptorRef::Endpoint(d),
            None => DescriptorRef::Unknown(desc),
        },
        Some(DescriptorType::InterfaceAssociation) => match InterfaceAssociationDescriptor::from_bytes(
            desc,
        ) {
            Some(d) => DescriptorRef::InterfaceAssociation(d),
            None => DescriptorRef::Unknown(desc),
        },
        Some(DescriptorType::ClassInterface) => if is_audio {
            DescriptorRef::Audio(parse(subclass, DescriptorType::ClassInterface, desc))
        } else {
            DescriptorRef::UnknownClassInterface(desc)
        },
        Some(DescriptorType::ClassEndpoint) => if is_audio {
            DescriptorRef::Audio(parse(subclass, DescriptorType::ClassEndpoint, desc))
        } else {
            DescriptorRef::UnknownClassEndpoint(desc)
        },
        _ => DescriptorRef::Unknown(desc),
    }
}

/// Where a parser that starts at `pos` stops: the first place from which it
/// yields nothing.
pub open spec fn stop_pos(bytes: Seq<u8>, pos: nat) -> nat
    decreases bytes.len() - pos,
{
    match descriptor_len_at(bytes, pos) {
        Some(n) => stop_pos(bytes, pos + n),
        None => pos,
    }
}

/// The sum of the lengths of the descriptors that a parser yields from `pos`
/// on.
pub open spec fn yielded_bytes(bytes: Seq<u8>, pos: nat) -> nat
    decreases bytes.len() - pos,
{
    match descriptor_len_at(bytes, pos) {
        Some(n) => n + yielded_bytes(bytes, pos + n),
        None => 0,
    }
}

/// The number of descriptors that a parser yields from `pos` on.
pub open spec fn yielded_count(bytes: Seq<u8>, pos: nat) -> nat
    decreases bytes.len() - pos,
{
    match descriptor_len_at(bytes, pos) {
        Some(n) => 1 + yielded_count(bytes, pos + n),
        None => 0,
    }
}

/// The number of interfaces that a parser at `p` yields as such until it
/// stops, alternate settings other than 0 not counted.
pub open spec fn interfaces_yielded(p: ParserView) -> nat
    decreases p.bytes.len() - p.pos,
{
    match descriptor_len_at(p.bytes, p.pos) {
        Some(n) => {
            let b = bytes_at(p.bytes, p.pos, n);
            (if ref_kind(b, p.class) == RefKind::Interface && InterfaceDescriptor::of_wire(
                b,
            ).unwrap().b_alternate_setting == 0 {
                1nat
            } else {
                0nat
            }) + interfaces_yielded(parser_after(p))
        },
        None => 0,
    }
}

/// The number of endpoints that a parser at `p` yields as such until it
/// stops.
pub open spec fn endpoints_yielded(p: ParserView) -> nat
    decreases p.bytes.len() - p.pos,
{
    match descriptor_len_at(p.bytes, p.pos) {
        Some(n) => (if ref_kind(bytes_at(p.bytes, p.pos, n), p.class) == RefKind::Endpoint {
            1nat
        } else {
            0nat
        }) + endpoints_yielded(parser_after(p)),
        None => 0,
    }
}

/// The number of interface descriptors in the chain of descriptors from
/// `pos` on: those of type 4 with at least 9 bytes and the alternate setting
/// 0.
pub open spec fn interfaces_in(bytes: Seq<u8>, pos: nat) -> nat
    decreases bytes.len() - pos,
{
    match descriptor_len_at(bytes, pos) {
        Some(n) => (if n >= 9 && bytes[(pos + 1) as int] == 4 && bytes[(pos + 3) as int] == 0 {
            1nat
        } else {
            0nat
        }) + interfaces_in(bytes, pos + n),
        None => 0,
    }
}

/// The number of endpoint descriptors in the chain of descriptors from `pos`
/// on: those of type 5 with at least 7 bytes.
pub open spec fn endpoints_in(bytes: Seq<u8>, pos: nat) -> nat
    decreases bytes.len() - pos,
{
    match descriptor_len_at(bytes, pos) {
        Some(n) => (if n >= 7 && bytes[(pos + 1) as int] == 5 {
            1nat
        } else {
            0nat
        }) + endpoints_in(bytes, pos + n),
        None => 0,
    }
}

/// The number of endpoints that the interface descriptors in the chain from
/// `pos` on announce, every alternate setting counted.
pub open spec fn endpoints_announced(bytes: Seq<u8>, pos: nat) -> nat
    decreases bytes.len() - pos,
{
    match descriptor_len_at(bytes, pos) {
        Some(n) => (if n >= 9 && bytes[(pos + 1) as int] == 4 {
            bytes[(pos + 4) as int] as nat
        } else {
            0nat
        }) + endpoints_announced(bytes, pos + n),
        None => 0,
    }
}

/// Whether `bytes` is a configuration as a device should return it: it
/// starts with a configuration descriptor whose total length is that of
/// `bytes`, its descriptors follow each other up to the last byte, it holds
/// as many interfaces as its head says, and as many endpoints as its
/// interfaces announce.
pub open spec fn well_formed_configuration(bytes: Seq<u8>) -> bool {
    &&& bytes.len() >= 9
    &&& bytes[0] >= 9
    &&& bytes[1] == 2
    &&& ConfigurationDescriptor::of_wire(bytes) matches Some(head)
    &&& head.w_total_length == bytes.len()
    &&& stop_pos(bytes, 0) == bytes.len()
    &&& interfaces_in(bytes, 0) == head.b_num_interfaces
    &&& endpoints_in(bytes, 0) == endpoints_announced(bytes, 0)
}

/// The descriptors that a parser yields lie one behind the other: their
/// lengths add up to the way from where it starts to where it stops, which
/// is never behind the end.
pub proof fn lemma_yielded_bytes(bytes: Seq<u8>, pos: nat)
    requires
        pos <= bytes.len(),
    ensures
        pos <= stop_pos(bytes, pos) <= bytes.len(),
        yielded_bytes(bytes, pos) == stop_pos(bytes, pos) - pos,
        descriptor_len_at(bytes, stop_pos(bytes, pos)) is None,
    decreases bytes.len() - pos,
{
    match descriptor_len_at(bytes, pos) {
        Some(n) => {
            lemma_yielded_bytes(bytes, pos + n);
        },
        None => {},
    }
}

/// A parser yields an interface as such exactly where an interface
/// descriptor of full length lies, and an endpoint likewise.
pub proof fn lemma_yielded_kinds(p: ParserView)
    requires
        p.pos <= p.bytes.len(),
    ensures
        interfaces_yielded(p) == interfaces_in(p.bytes, p.pos),
        endpoints_yielded(p) == endpoints_in(p.bytes, p.pos),
    decreases p.bytes.len() - p.pos,
{
    match descriptor_len_at(p.bytes, p.pos) {
        Some(n) => {
            let b = bytes_at(p.bytes, p.pos, n);
            assert(b.len() == n);
            if n >= 2 {
                assert(b[1] == p.bytes[(p.pos + 1) as int]);
            }
            if n >= 9 {
                assert(b[3] == p.bytes[(p.pos + 3) as int]);
            }
            lemma_yielded_kinds(parser_after(p));
        },
        None => {},
    }
}

/// On a well-formed configuration the lengths of the descriptors that a new
/// parser yields add up to the length of the buffer, it yields as many
/// interfaces as the head of the configuration counts, alternate settings
/// aside, and as many endpoints as the interfaces announce.
pub proof fn lemma_well_formed_configuration(bytes: Seq<u8>)
    requires
        well_formed_configuration(bytes),
    ensures
        yielded_bytes(bytes, 0) == bytes.len(),
        interfaces_yielded(ParserView { bytes, pos: 0, class: None, subclass: None })
            == ConfigurationDescriptor::of_wire(bytes).unwrap().b_num_interfaces,
        endpoints_yielded(ParserView { bytes, pos: 0, class: None, subclass: None })
            == endpoints_announced(bytes, 0),
{
    lemma_yielded_bytes(bytes, 0);
    lemma_yielded_kinds(ParserView { bytes, pos: 0, class: None, subclass: None });
}

/// A parser on no bytes yields nothing, and so does one that stands at a
/// length byte of zero, however often it is asked.
pub proof fn lemma_parser_stops(p: ParserView)
    requires
        p.bytes.len() == 0 || (p.pos < p.bytes.len() && p.bytes[p.pos as int] == 0),
    ensures
        descriptor_len_at(p.bytes, p.pos) is None,
        parser_after(p) == p,
        yielded_count(p.bytes, p.pos) == 0,
{
}

} // verus!
