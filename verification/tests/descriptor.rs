use embedded_usb_host::descriptor::{
    ConfigurationDescriptor, DescriptorType, DeviceDescriptor, EndpointDescriptor,
    InterfaceAssociationDescriptor, InterfaceDescriptor, CONFIGURATION_DESCRIPTOR_LEN,
    DEVICE_DESCRIPTOR_LEN, ENDPOINT_DESCRIPTOR_LEN, INTERFACE_DESCRIPTOR_LEN,
};
use embedded_usb_host::MaxPacketSize;

fn assert_offset(name: &str, image: &[u8], field: &[u8], offset: usize) {
    assert_eq!(&image[offset..offset + field.len()], field, "{} register offset.", name);
}

#[test]
fn device_descriptor_layout() {
    let len = DEVICE_DESCRIPTOR_LEN;
    assert_eq!(len, 18);
    let desc = DeviceDescriptor {
        b_length: len as u8,
        b_descriptor_type: DescriptorType::Device,
        bcd_usb: 0x1001,
        b_device_class: 0xaa,
        b_device_sub_class: 0xbb,
        b_device_protocol: 0xcc,
        b_max_packet_size: 0xdd,
        id_vendor: 0xdead,
        id_product: 0xbeef,
        bcd_device: 0xf00d,
        i_manufacturer: 0x11,
        i_product: 0x22,
        i_serial_number: 0x33,
        b_num_configurations: 0x44,
    };
    let got = desc.to_bytes();
    assert_offset("b_length", &got, &[desc.b_length], 0x00);
    assert_offset("b_descriptor_type", &got, &[desc.b_descriptor_type.bits()], 0x01);
    assert_offset("bcd_usb", &got, &desc.bcd_usb.to_le_bytes(), 0x02);
    assert_offset("b_device_class", &got, &[desc.b_device_class], 0x04);
    assert_offset("b_device_sub_class", &got, &[desc.b_device_sub_class], 0x05);
    assert_offset("b_device_protocol", &got, &[desc.b_device_protocol], 0x06);
    assert_offset("b_max_packet_size", &got, &[desc.b_max_packet_size], 0x07);
    assert_offset("id_vendor", &got, &desc.id_vendor.to_le_bytes(), 0x08);
    assert_offset("id_product", &got, &desc.id_product.to_le_bytes(), 0x0a);
    assert_offset("bcd_device", &got, &desc.bcd_device.to_le_bytes(), 0x0c);
    assert_offset("i_manufacturer", &got, &[desc.i_manufacturer], 0x0e);
    assert_offset("i_product", &got, &[desc.i_product], 0x0f);
    assert_offset("i_serial_number", &got, &[desc.i_serial_number], 0x10);
    assert_offset("b_num_configurations", &got, &[desc.b_num_configurations], 0x011);

    let want = &[
        0x12, 0x01, 0x01, 0x10, 0xaa, 0xbb, 0xcc, 0xdd, 0xad, 0xde, 0xef, 0xbe, 0x0d, 0xf0, 0x11,
        0x22, 0x33, 0x44,
    ];
    assert_eq!(&got, want);
    assert_eq!(DeviceDescriptor::from_bytes(want), Some(desc));
}

#[test]
fn configuration_descriptor_layout() {
    let len = CONFIGURATION_DESCRIPTOR_LEN;
    assert_eq!(len, 9);
    let desc = ConfigurationDescriptor {
        b_length: len as u8,
        b_descriptor_type: DescriptorType::Configuration,
        w_total_length: 0xdead,
        b_num_interfaces: 0x22,
        b_configuration_value: 0x33,
        i_configuration: 0x44,
        bm_attributes: 0x55,
        b_max_power: 0x66,
    };
    let got = desc.to_bytes();
    assert_offset("b_length", &got, &[desc.b_length], 0x00);
    assert_offset("b_descriptor_type", &got, &[desc.b_descriptor_type.bits()], 0x01);
    assert_offset("w_total_length", &got, &desc.w_total_length.to_le_bytes(), 0x02);
    assert_offset("b_num_interfaces", &got, &[desc.b_num_interfaces], 0x04);
    assert_offset("b_configuration_value", &got, &[desc.b_configuration_value], 0x05);
    assert_offset("i_configuration", &got, &[desc.i_configuration], 0x06);
    assert_offset("bm_attributes", &got, &[desc.bm_attributes], 0x07);
    assert_offset("b_max_power", &got, &[desc.b_max_power], 0x08);

    let want = &[0x09, 0x02, 0xad, 0xde, 0x22, 0x33, 0x44, 0x55, 0x66];
    assert_eq!(&got, want);
    assert_eq!(ConfigurationDescriptor::from_bytes(want), Some(desc));
}

#[test]
fn interface_descriptor_layout() {
    let len = INTERFACE_DESCRIPTOR_LEN;
    assert_eq!(len, 9);
    let desc = InterfaceDescriptor {
        b_length: len as u8,
        b_descriptor_type: DescriptorType::Interface,
        b_interface_number: 0xee,
        b_alternate_setting: 0xaa,
        b_num_endpoints: 0xf7,
        b_interface_class: 0x11,
        b_interface_sub_class: 0x22,
        b_interface_protocol: 0x33,
        i_interface: 0x44,
    };
    let got = desc.to_bytes();
    assert_offset("b_length", &got, &[desc.b_length], 0x00);
    assert_offset("b_descriptor_type", &got, &[desc.b_descriptor_type.bits()], 0x01);
    assert_offset("b_interface_number", &got, &[desc.b_interface_number], 0x02);
    assert_offset("b_alternate_setting", &got, &[desc.b_alternate_setting], 0x03);
    assert_offset("b_num_endpoints", &got, &[desc.b_num_endpoints], 0x04);
    assert_offset("b_interface_class", &got, &[desc.b_interface_class], 0x05);
    assert_offset("b_interface_sub_class", &got, &[desc.b_interface_sub_class], 0x06);
    assert_offset("b_interface_protocol", &got, &[desc.b_interface_protocol], 0x07);
    assert_offset("i_interface", &got, &[desc.i_interface], 0x08);

    let want = &[0x09, 0x04, 0xee, 0xaa, 0xf7, 0x11, 0x22, 0x33, 0x44];
    assert_eq!(&got, want);
    assert_eq!(InterfaceDescriptor::from_bytes(want), Some(desc));
}

#[test]
fn endpoint_descriptor_layout() {
    let len = ENDPOINT_DESCRIPTOR_LEN;
    assert_eq!(len, 7);
    let desc = EndpointDescriptor {
        b_length: len as u8,
        b_descriptor_type: DescriptorType::Endpoint,
        b_endpoint_address: 2,
        bm_attributes: 0xae,
        w_max_packet_size: 0xdead,
        b_interval: 0x7a,
    };
    let got = desc.to_bytes();
    assert_offset("b_length", &got, &[desc.b_length], 0x00);
    assert_offset("b_descriptor_type", &got, &[desc.b_descriptor_type.bits()], 0x01);
    assert_offset("b_endpoint_address", &got, &[desc.b_endpoint_address], 0x02);
    assert_offset("bm_attributes", &got, &[desc.bm_attributes], 0x03);
    assert_offset("w_max_packet_size", &got, &desc.w_max_packet_size.to_le_bytes(), 0x04);
    assert_offset("b_interval", &got, &[desc.b_interval], 0x06);

    let want = &[0x07, 0x05, 0x02, 0xae, 0xad, 0xde, 0x7a];
    assert_eq!(&got, want);
    assert_eq!(EndpointDescriptor::from_bytes(want), Some(desc));
    assert_eq!(desc.max_packet_size(), 0xdead);
}

#[test]
fn descriptors_too_short_or_of_no_type() {
    assert_eq!(DeviceDescriptor::from_bytes(&[0x12, 0x01, 0x00]), None);
    assert_eq!(EndpointDescriptor::from_bytes(&[0x07, 0x05, 0x02, 0xae, 0xad, 0xde]), None);
    assert_eq!(
        InterfaceDescriptor::from_bytes(&[0x09, 0x09, 0xee, 0xaa, 0xf7, 0x11, 0x22, 0x33, 0x44]),
        None
    );
    assert_eq!(ConfigurationDescriptor::from_bytes(&[]), None);
}

#[test]
fn descriptor_types() {
    assert_eq!(DescriptorType::try_from(1), Ok(DescriptorType::Device));
    assert_eq!(DescriptorType::try_from(8), Ok(DescriptorType::InterfacePower));
    assert_eq!(DescriptorType::try_from(0), Err("invalid descriptor"));
    assert_eq!(DescriptorType::try_from(9), Err("invalid descriptor"));
    assert_eq!(DescriptorType::from_repr(0x24), Some(DescriptorType::ClassInterface));
    assert_eq!(DescriptorType::from_repr(0x25), Some(DescriptorType::ClassEndpoint));
    assert_eq!(DescriptorType::from_repr(11), Some(DescriptorType::InterfaceAssociation));
    assert_eq!(DescriptorType::Endpoint.bits(), 5);
}

#[test]
fn interface_association_round_trip() {
    let desc = InterfaceAssociationDescriptor {
        b_length: 8,
        b_descriptor_type: DescriptorType::InterfaceAssociation,
        b_first_interface: 1,
        b_interface_count: 2,
        b_function_class: 3,
        b_function_sub_class: 4,
        b_function_protocol: 5,
        i_function: 6,
    };
    let bytes = desc.to_bytes();
    assert_eq!(bytes, [8, 11, 1, 2, 3, 4, 5, 6]);
    assert_eq!(InterfaceAssociationDescriptor::from_bytes(&bytes), Some(desc));
}

#[test]
fn default_descriptors() {
    let d = DeviceDescriptor::default();
    assert_eq!(d.to_bytes(), [18, 1, 0, 0, 0, 0, 0, 0, 0, 0, 0, 0, 0, 0, 0, 0, 0, 0]);
    let c = ConfigurationDescriptor::default();
    assert_eq!(c.to_bytes(), [9, 2, 0, 0, 0, 0, 0, 0, 0]);
}
