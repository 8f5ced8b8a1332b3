use embedded_usb_host::class::audio::{AudioDescriptorRef, AudioKind, MSInterfaceSubtype};
use embedded_usb_host::descriptor::DescriptorType;
use embedded_usb_host::parser::{DescriptorParser, DescriptorRef, RefKind, Utf16Str};

fn kinds(buf: &[u8]) -> Vec<RefKind> {
    let mut parser = DescriptorParser::new(buf);
    let mut out = Vec::new();
    while let Some(desc) = parser.next() {
        out.push(desc.kind());
    }
    out
}

fn keyboard_configuration() -> Vec<u8> {
    vec![
        // configuration
        0x09, 0x02, 0x22, 0x00, 0x01, 0x01, 0x00, 0xa0, 0x32,
        // interface: HID, boot, keyboard
        0x09, 0x04, 0x00, 0x00, 0x01, 0x03, 0x01, 0x01, 0x00,
        // HID descriptor
        0x09, 0x21, 0x11, 0x01, 0x00, 0x01, 0x22, 0x41, 0x00,
        // endpoint: 1 IN, interrupt, 8 bytes, 10 ms
        0x07, 0x05, 0x81, 0x03, 0x08, 0x00, 0x0a,
    ]
}

#[test]
fn empty_buffer_yields_nothing() {
    let mut parser = DescriptorParser::new(&[]);
    assert!(parser.next().is_none());
    assert!(parser.next().is_none());
    assert_eq!(parser.remaining(), 0);
}

#[test]
fn zero_length_descriptor_stops_the_parser() {
    let buf = [0x02, 0x30, 0x00, 0x05, 0x01, 0x02, 0x03];
    let mut parser = DescriptorParser::new(&buf);
    match parser.next() {
        Some(DescriptorRef::Unknown(bytes)) => assert_eq!(bytes, &[0x02, 0x30]),
        _ => panic!("the first descriptor is of no known type"),
    }
    assert!(parser.next().is_none());
    assert!(parser.next().is_none());
    assert_eq!(parser.position(), 2);
}

#[test]
fn descriptor_longer_than_the_rest_stops_the_parser() {
    let buf = [0x02, 0x30, 0x09, 0x04, 0x00];
    let mut parser = DescriptorParser::new(&buf);
    assert!(parser.next().is_some());
    assert!(parser.next().is_none());
    assert_eq!(parser.remaining(), 3);
}

#[test]
fn keyboard_configuration_is_walked_to_the_end() {
    let buf = keyboard_configuration();
    let mut parser = DescriptorParser::new(&buf);
    let mut total = 0usize;
    let mut interfaces = 0;
    let mut endpoints = 0;
    match parser.next() {
        Some(DescriptorRef::Configuration(c)) => {
            total += c.b_length as usize;
            assert_eq!(c.w_total_length as usize, buf.len());
            assert_eq!(c.b_num_interfaces, 1);
            assert_eq!(c.b_configuration_value, 1);
            assert_eq!(c.b_descriptor_type, DescriptorType::Configuration);
        }
        _ => panic!("a configuration comes first"),
    }
    while let Some(desc) = parser.next() {
        match desc {
            DescriptorRef::Interface(i) => {
                total += i.b_length as usize;
                interfaces += 1;
                assert_eq!(
                    (i.b_interface_class, i.b_interface_sub_class, i.b_interface_protocol),
                    (3, 1, 1)
                );
                assert_eq!(i.b_num_endpoints, 1);
            }
            DescriptorRef::Endpoint(e) => {
                total += e.b_length as usize;
                endpoints += 1;
                assert_eq!(e.b_endpoint_address, 0x81);
                assert_eq!(e.bm_attributes, 3);
                assert_eq!(e.w_max_packet_size, 8);
                assert_eq!(e.b_interval, 10);
            }
            DescriptorRef::Unknown(bytes) => {
                total += bytes.len();
                assert_eq!(bytes[1], 0x21);
            }
            _ => panic!("nothing else is in this configuration"),
        }
    }
    assert_eq!(total, buf.len());
    assert_eq!(interfaces, 1);
    assert_eq!(endpoints, 1);
    assert_eq!(parser.remaining(), 0);
}

#[test]
fn rewind_starts_over() {
    let buf = keyboard_configuration();
    let mut parser = DescriptorParser::new(&buf);
    while parser.next().is_some() {}
    assert_eq!(parser.position(), buf.len());
    parser.rewind();
    assert_eq!(parser.position(), 0);
    assert!(matches!(parser.next(), Some(DescriptorRef::Configuration(_))));
}

#[test]
fn short_descriptors_are_handed_on_as_bytes() {
    // an interface of 5 bytes, a lone length byte, an endpoint cut short
    let buf = [0x05, 0x04, 0x00, 0x00, 0x01, 0x01, 0x06, 0x05, 0x81, 0x03, 0x08, 0x00];
    assert_eq!(kinds(&buf), vec![RefKind::Unknown, RefKind::Unknown, RefKind::Unknown]);
    let mut parser = DescriptorParser::new(&buf);
    match parser.next() {
        Some(DescriptorRef::Unknown(bytes)) => assert_eq!(bytes, &buf[0..5]),
        _ => panic!(),
    }
    match parser.next() {
        Some(DescriptorRef::Unknown(bytes)) => assert_eq!(bytes, &[0x01]),
        _ => panic!(),
    }
}

#[test]
fn device_and_association_descriptors() {
    let buf = [
        0x12, 0x01, 0x00, 0x02, 0xef, 0x02, 0x01, 0x40, 0x34, 0x12, 0x78, 0x56, 0x00, 0x01, 0x01,
        0x02, 0x03, 0x01, 0x08, 0x0b, 0x00, 0x02, 0x01, 0x03, 0x00, 0x00,
    ];
    let mut parser = DescriptorParser::new(&buf);
    match parser.next() {
        Some(DescriptorRef::Device(d)) => {
            assert_eq!(d.bcd_usb, 0x0200);
            assert_eq!(d.b_max_packet_size, 64);
            assert_eq!(d.id_vendor, 0x1234);
            assert_eq!(d.id_product, 0x5678);
            assert_eq!(d.b_num_configurations, 1);
        }
        _ => panic!(),
    }
    match parser.next() {
        Some(DescriptorRef::InterfaceAssociation(a)) => {
            assert_eq!(a.b_first_interface, 0);
            assert_eq!(a.b_interface_count, 2);
            assert_eq!(a.b_function_class, 1);
            assert_eq!(a.b_function_sub_class, 3);
        }
        _ => panic!(),
    }
    assert!(parser.next().is_none());
}

#[test]
fn string_descriptor_is_utf16() {
    // "Hi" and a clef, which takes a surrogate pair
    let buf = [0x0a, 0x03, b'H', 0, b'i', 0, 0x34, 0xd8, 0x1e, 0xdd];
    let mut parser = DescriptorParser::new(&buf);
    match parser.next() {
        Some(DescriptorRef::String(s)) => {
            assert_eq!(s.as_bytes(), &buf[2..]);
            assert_eq!(s.to_utf8(), "Hi\u{1d11e}");
        }
        _ => panic!("a string descriptor"),
    }
}

#[test]
fn string_descriptor_that_is_no_utf16_is_handed_on_as_bytes() {
    // a lone trailing surrogate
    let buf = [0x04, 0x03, 0x1e, 0xdd];
    assert_eq!(kinds(&buf), vec![RefKind::Unknown]);
    // an odd number of bytes
    let buf = [0x05, 0x03, b'H', 0, b'i'];
    assert_eq!(kinds(&buf), vec![RefKind::Unknown]);
    assert!(Utf16Str::new(&[0x1e, 0xdd]).is_none());
    assert_eq!(Utf16Str::new(&[b'o', 0, b'k', 0]).unwrap().to_utf8(), "ok");
    assert_eq!(Utf16Str::new(&[]).unwrap().to_utf8(), "");
}

#[test]
fn class_descriptors_without_an_audio_interface() {
    let buf = [
        0x09, 0x04, 0x00, 0x00, 0x01, 0x03, 0x01, 0x01, 0x00, 0x03, 0x24, 0x01, 0x03, 0x25,
        0x01,
    ];
    assert_eq!(
        kinds(&buf),
        vec![RefKind::Interface, RefKind::UnknownClassInterface, RefKind::UnknownClassEndpoint]
    );
    // before any interface
    assert_eq!(kinds(&[0x03, 0x24, 0x01]), vec![RefKind::UnknownClassInterface]);
}

#[test]
fn midi_class_descriptors_are_read() {
    let buf = [
        // interface: audio, MIDI streaming
        0x09, 0x04, 0x01, 0x00, 0x02, 0x01, 0x03, 0x00, 0x00,
        // MS header
        0x07, 0x24, 0x01, 0x00, 0x01, 0x25, 0x00,
        // MIDI IN jack, embedded, id 1
        0x06, 0x24, 0x02, 0x01, 0x01, 0x00,
        // MIDI OUT jack, embedded, id 3
        0x09, 0x24, 0x03, 0x01, 0x03, 0x01, 0x02, 0x01, 0x00,
        // element: not read
        0x04, 0x24, 0x04, 0x00,
        // endpoint 1 OUT bulk
        0x07, 0x05, 0x01, 0x02, 0x40, 0x00, 0x00,
        // MS bulk endpoint
        0x05, 0x25, 0x01, 0x01, 0x01,
    ];
    let mut parser = DescriptorParser::new(&buf);
    assert!(matches!(parser.next(), Some(DescriptorRef::Interface(_))));
    match parser.next() {
        Some(DescriptorRef::Audio(AudioDescriptorRef::MSInterface(h))) => {
            assert_eq!(h.b_descriptor_subtype, MSInterfaceSubtype::MsHeader);
            assert_eq!(h.bcd_msc, 0x0100);
            assert_eq!(h.w_total_length, 0x25);
        }
        _ => panic!("the header"),
    }
    match parser.next() {
        Some(DescriptorRef::Audio(a)) => {
            assert_eq!(a.kind(), Some(AudioKind::MSInJack));
            match a {
                AudioDescriptorRef::MSInJack(j) => {
                    assert_eq!((j.b_jack_type, j.b_jack_id), (1, 1))
                }
                _ => panic!(),
            }
        }
        _ => panic!("the MIDI IN jack"),
    }
    match parser.next() {
        Some(DescriptorRef::Audio(AudioDescriptorRef::MSOutJack(j))) => {
            assert_eq!((j.b_jack_type, j.b_jack_id, j.b_nr_input_pins), (1, 3, 1));
            assert_eq!((j.ba_source_id, j.ba_source_pin), (2, 1));
        }
        _ => panic!("the MIDI OUT jack"),
    }
    match parser.next() {
        Some(DescriptorRef::Audio(AudioDescriptorRef::Unknown(bytes))) => {
            assert_eq!(bytes, &[0x04, 0x24, 0x04, 0x00])
        }
        _ => panic!("the element"),
    }
    assert!(matches!(parser.next(), Some(DescriptorRef::Endpoint(_))));
    match parser.next() {
        Some(DescriptorRef::Audio(AudioDescriptorRef::MSEndpoint(e))) => {
            assert_eq!((e.b_num_emb_midi_jack, e.ba_assoc_jack_id), (1, 1))
        }
        _ => panic!("the class endpoint"),
    }
    assert!(parser.next().is_none());
}

#[test]
fn class_descriptors_go_by_the_last_interface() {
    // audio, MIDI streaming; then an interface that names no class
    let buf = [
        0x09, 0x04, 0x01, 0x00, 0x00, 0x01, 0x03, 0x00, 0x00, 0x06, 0x24, 0x02, 0x01, 0x07, 0x00,
        0x09, 0x04, 0x02, 0x00, 0x00, 0x00, 0x00, 0x00, 0x00, 0x06, 0x24, 0x02, 0x01, 0x07, 0x00,
        0x05, 0x25, 0x01, 0x01, 0x01,
    ];
    assert_eq!(
        kinds(&buf),
        vec![
            RefKind::Interface,
            RefKind::Audio,
            RefKind::Interface,
            RefKind::UnknownClassInterface,
            RefKind::UnknownClassEndpoint
        ]
    );
    // audio; then HID without a subclass
    let buf = [
        0x09, 0x04, 0x00, 0x00, 0x00, 0x01, 0x01, 0x00, 0x00, 0x09, 0x04, 0x01, 0x00, 0x01, 0x03,
        0x00, 0x00, 0x00, 0x09, 0x24, 0x01, 0x00, 0x01, 0x09, 0x00, 0x01, 0x01,
    ];
    let mut parser = DescriptorParser::new(&buf);
    assert!(matches!(parser.next(), Some(DescriptorRef::Interface(_))));
    assert!(matches!(parser.next(), Some(DescriptorRef::Interface(_))));
    match parser.next() {
        Some(DescriptorRef::UnknownClassInterface(bytes)) => assert_eq!(bytes, &buf[18..]),
        _ => panic!("the class descriptor of the HID interface"),
    }
    assert!(parser.next().is_none());
    // HID; then audio with the subclass zero
    let buf = [
        0x09, 0x04, 0x00, 0x00, 0x01, 0x03, 0x01, 0x01, 0x00, 0x09, 0x04, 0x01, 0x00, 0x00, 0x01,
        0x00, 0x00, 0x00, 0x04, 0x24, 0x09, 0x00, 0x05, 0x25, 0x01, 0x01, 0x01,
    ];
    assert_eq!(
        kinds(&buf),
        vec![RefKind::Interface, RefKind::Interface, RefKind::Audio, RefKind::Audio]
    );
}
