use embedded_usb_host::class::audio::{
    parse, ACFeatureUnitDescriptor, ACInterfaceSubtype, ASInterfaceDescriptor,
    ASInterfaceSubtype, AudioDescriptorRef, AudioKind, AudioSubclass, JackType,
    MSEndpointSubtype, MSInJackDescriptor, MSInterfaceSubtype,
};
use embedded_usb_host::class::hid::{HidDevice, HidProtocol, HidSubclass};
use embedded_usb_host::class::DeviceClass;
use embedded_usb_host::descriptor::DescriptorType;

#[test]
fn class_codes() {
    assert_eq!(DeviceClass::from_repr(0x03), Some(DeviceClass::Hid));
    assert_eq!(DeviceClass::from_repr(0xef), Some(DeviceClass::Misc));
    assert_eq!(DeviceClass::from_repr(0x04), None);
    assert_eq!(DeviceClass::Audio.bits(), 1);
    assert_eq!(DeviceClass::VendorSpecific.bits(), 0xff);
    assert_eq!(HidSubclass::Boot.bits(), 1);
    assert_eq!(HidDevice::Keyboard.bits(), 1);
    assert_eq!(HidDevice::Mouse.bits(), 2);
    assert_eq!(HidProtocol::Boot.bits(), 0);
    assert_eq!(AudioSubclass::from_repr(3), Some(AudioSubclass::MidiStream));
    assert_eq!(AudioSubclass::from_repr(4), None);
    assert_eq!(JackType::Embedded.bits(), 1);
    assert_eq!(MSEndpointSubtype::from_repr(1), Some(MSEndpointSubtype::BulkEndpoint));
    assert_eq!(ACInterfaceSubtype::from_repr(0x0a), Some(ACInterfaceSubtype::ClockSourceDescriptor));
}

#[test]
fn parse_selects_by_subclass_type_and_subtype() {
    let jack = [0x06, 0x24, 0x02, 0x01, 0x05, 0x09];
    match parse(Some(3), DescriptorType::ClassInterface, &jack) {
        AudioDescriptorRef::MSInJack(j) => assert_eq!(
            j,
            MSInJackDescriptor {
                b_length: 6,
                b_descriptor_type: DescriptorType::ClassInterface,
                b_descriptor_subtype: MSInterfaceSubtype::MidiInJack,
                b_jack_type: 1,
                b_jack_id: 5,
                i_jack: 9,
            }
        ),
        _ => panic!("a MIDI IN jack"),
    }
    // the same bytes in an audio control interface are an input terminal, cut short
    assert_eq!(parse(Some(1), DescriptorType::ClassInterface, &jack).kind(), None);
    // without a subclass, with an unknown one, and as a class endpoint
    assert_eq!(parse(None, DescriptorType::ClassInterface, &jack).kind(), None);
    assert_eq!(parse(Some(9), DescriptorType::ClassInterface, &jack).kind(), None);
    assert_eq!(parse(Some(3), DescriptorType::ClassEndpoint, &jack).kind(), None);
    // too short for a subtype
    match parse(Some(3), DescriptorType::ClassInterface, &jack[..2]) {
        AudioDescriptorRef::Unknown(bytes) => assert_eq!(bytes, &jack[..2]),
        _ => panic!(),
    }
}

#[test]
fn parse_reads_every_kind() {
    let cases: [(u8, DescriptorType, &[u8], AudioKind); 13] = [
        (1, DescriptorType::ClassInterface, &[9, 0x24, 0x01, 0, 2, 1, 0x30, 0, 0], AudioKind::ACInterfaceHeader),
        (1, DescriptorType::ClassInterface, &[13, 0x24, 0x02, 1, 1, 2, 0, 0, 2, 3, 0, 0, 0], AudioKind::ACInputTerminal),
        (1, DescriptorType::ClassInterface, &[11, 0x24, 0x03, 2, 1, 3, 0, 1, 0, 0, 0], AudioKind::ACOutputTerminal),
        (1, DescriptorType::ClassInterface, &[26, 0x24, 0x06, 3, 1, 1, 0, 0, 0, 2, 0, 0, 0, 3, 0, 0, 0, 4, 0, 0, 0, 5, 0, 0, 0, 0], AudioKind::ACFeatureUnit),
        (1, DescriptorType::ClassInterface, &[8, 0x24, 0x0a, 4, 1, 1, 0, 0], AudioKind::ACClockSource),
        (1, DescriptorType::ClassInterface, &[8, 0x24, 0x0b, 5, 1, 4, 1, 0], AudioKind::ACClockSelector),
        (2, DescriptorType::ClassInterface, &[16, 0x24, 0x01, 1, 0, 1, 1, 0, 0, 0, 2, 3, 0, 0, 0, 0], AudioKind::ASInterface),
        (2, DescriptorType::ClassInterface, &[6, 0x24, 0x02, 1, 2, 16], AudioKind::ASFormatType1),
        (3, DescriptorType::ClassInterface, &[7, 0x24, 0x01, 0, 1, 7, 0], AudioKind::MSInterface),
        (3, DescriptorType::ClassInterface, &[6, 0x24, 0x02, 1, 1, 0], AudioKind::MSInJack),
        (3, DescriptorType::ClassInterface, &[9, 0x24, 0x03, 1, 2, 1, 1, 1, 0], AudioKind::MSOutJack),
        (2, DescriptorType::ClassEndpoint, &[8, 0x25, 0x01, 0, 0, 0, 0, 0], AudioKind::ASEndpoint),
        (3, DescriptorType::ClassEndpoint, &[5, 0x25, 0x01, 1, 1], AudioKind::MSEndpoint),
    ];
    for (subclass, desc_type, bytes, kind) in cases {
        assert_eq!(parse(Some(subclass), desc_type, bytes).kind(), Some(kind));
        // one byte short
        assert_eq!(parse(Some(subclass), desc_type, &bytes[..bytes.len() - 1]).kind(), None);
    }
}

#[test]
fn words_are_little_endian() {
    let unit = ACFeatureUnitDescriptor {
        b_length: 26,
        b_descriptor_type: DescriptorType::ClassInterface,
        b_descriptor_subtype: ACInterfaceSubtype::FeatureUnitDescriptor,
        b_unit_id: 3,
        b_source_id: 1,
        bma_controls_0: 0x0403_0201,
        bma_controls_1: 0,
        bma_controls_2: 0xffff_ffff,
        bma_controls_3: 0x8000_0000,
        bma_controls_4: 1,
        i_feature: 7,
    };
    let bytes = unit.to_bytes();
    assert_eq!(&bytes[5..9], &[1, 2, 3, 4]);
    assert_eq!(&bytes[13..17], &[0xff; 4]);
    assert_eq!(&bytes[17..21], &[0, 0, 0, 0x80]);
    assert_eq!(ACFeatureUnitDescriptor::from_bytes(&bytes), Some(unit));
    let stream = ASInterfaceDescriptor {
        b_length: 16,
        b_descriptor_type: DescriptorType::ClassInterface,
        b_descriptor_subtype: ASInterfaceSubtype::AudioStreamHeader,
        b_terminal_link: 1,
        bm_controls: 2,
        b_format_type: 1,
        bm_formats: 0x1234_5678,
        b_nr_channels: 2,
        bm_channel_config: 3,
        i_channel_names: 0,
    };
    assert_eq!(ASInterfaceDescriptor::from_bytes(&stream.to_bytes()), Some(stream));
    assert_eq!(&stream.to_bytes()[6..10], &[0x78, 0x56, 0x34, 0x12]);
}
