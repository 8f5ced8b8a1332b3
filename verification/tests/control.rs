use embedded_usb_host::control::{
    RequestCode, RequestDirection, RequestKind, RequestRecipient, RequestType, SetupPacket, WValue,
    SETUP_PACKET_LEN,
};

fn assert_offset(name: &str, image: &[u8], field: &[u8], offset: usize) {
    assert_eq!(&image[offset..offset + field.len()], field, "{} register offset.", name);
}

#[test]
fn control_setup_packet_layout() {
    let sp = SetupPacket {
        bm_request_type: RequestType::from((
            RequestDirection::HostToDevice,
            RequestKind::Class,
            RequestRecipient::Endpoint,
        )),
        b_request: RequestCode::GetInterface,
        w_value: WValue::lo_hi(0xf0, 0x0d),
        w_index: 0xadde,
        w_length: 0xefbe,
    };
    let result = sp.to_bytes();
    assert_eq!(result.len(), SETUP_PACKET_LEN);
    assert_offset("bm_request_type", &result, &[sp.bm_request_type.bits()], 0x00);
    assert_offset("b_request", &result, &[sp.b_request.bits()], 0x01);
    assert_offset("w_value", &result, &sp.w_value.bits().to_le_bytes(), 0x02);
    assert_offset("w_index", &result, &sp.w_index.to_le_bytes(), 0x04);
    assert_offset("w_length", &result, &sp.w_length.to_le_bytes(), 0x06);

    let expected = &[0x22, 0x0a, 0xf0, 0x0d, 0xde, 0xad, 0xbe, 0xef];
    assert_eq!(&result, expected);
}

#[test]
fn request_type_gives_back_its_parts() {
    let dirs = [RequestDirection::HostToDevice, RequestDirection::DeviceToHost];
    let kinds = [RequestKind::Standard, RequestKind::Class, RequestKind::Vendor];
    let recips = [
        RequestRecipient::Device,
        RequestRecipient::Interface,
        RequestRecipient::Endpoint,
        RequestRecipient::Other,
    ];
    for dir in dirs {
        for kind in kinds {
            for recip in recips {
                let t = RequestType::from((dir, kind, recip));
                assert_eq!(t.direction(), Some(dir));
                assert_eq!(t.kind(), Some(kind));
                assert_eq!(t.recipient(), Some(recip));
            }
        }
    }
    assert_eq!(
        RequestType::from((
            RequestDirection::DeviceToHost,
            RequestKind::Vendor,
            RequestRecipient::Other
        ))
        .bits(),
        0xc3
    );
}

#[test]
fn request_type_reserved_values() {
    assert_eq!(RequestType::from_bits(0x60).kind(), None);
    assert_eq!(RequestType::from_bits(0x04).recipient(), None);
    assert_eq!(RequestType::from_bits(0x1f).recipient(), None);
    assert_eq!(RequestType::from_bits(0x9f).direction(), Some(RequestDirection::DeviceToHost));
}

#[test]
fn request_type_setters_touch_one_part() {
    let mut t = RequestType::from((
        RequestDirection::DeviceToHost,
        RequestKind::Vendor,
        RequestRecipient::Other,
    ));
    t.set_kind(RequestKind::Class);
    assert_eq!(t.bits(), 0xa3);
    t.set_recipient(RequestRecipient::Interface);
    assert_eq!(t.bits(), 0xa1);
    t.set_direction(RequestDirection::HostToDevice);
    assert_eq!(t.bits(), 0x21);
    assert_eq!(t.kind(), Some(RequestKind::Class));
    assert_eq!(t.recipient(), Some(RequestRecipient::Interface));
    assert_eq!(t.direction(), Some(RequestDirection::HostToDevice));
}

#[test]
fn w_value_lo_hi() {
    let w = WValue::lo_hi(0x12, 0x34);
    assert_eq!(w.w_value_lo(), 0x12);
    assert_eq!(w.w_value_hi(), 0x34);
    assert_eq!(w.bits(), 0x3412);
    let mut w = WValue::default();
    assert_eq!(w.bits(), 0);
    w.set_w_value_hi(0xab);
    assert_eq!(w.bits(), 0xab00);
    w.set_w_value_lo(0xcd);
    assert_eq!(w.bits(), 0xabcd);
    w.set_w_value_hi(0x01);
    assert_eq!(w.bits(), 0x01cd);
}

#[test]
fn request_codes() {
    assert_eq!(RequestCode::from_repr(5), Some(RequestCode::SetAddress));
    assert_eq!(RequestCode::from_repr(12), Some(RequestCode::SynchFrame));
    assert_eq!(RequestCode::from_repr(2), None);
    assert_eq!(RequestCode::from_repr(13), None);
    assert_eq!(RequestCode::SetConfiguration.bits(), 9);
    assert_eq!(RequestCode::default(), RequestCode::GetStatus);
    assert_eq!(RequestDirection::from_repr(0x80), Some(RequestDirection::DeviceToHost));
    assert_eq!(RequestDirection::from_repr(0x40), None);
    assert_eq!(RequestKind::from_repr(0x40), Some(RequestKind::Vendor));
    assert_eq!(RequestRecipient::from_repr(4), None);
}
