use embedded_usb_host::setup::{
    RequestCode, RequestDirection, RequestKind, RequestRecipient, RequestType, SetupPacket, WValue,
};

fn assert_offset(name: &str, image: &[u8], field: &[u8], offset: usize) {
    assert_eq!(&image[offset..offset + field.len()], field, "{} register offset.", name);
}

#[test]
fn setup_setup_packet_layout() {
    let sp = SetupPacket {
        bm_request_type: RequestType::from((
            RequestDirection::HostToDevice,
            RequestKind::Class,
            RequestRecipient::Endpoint,
        )),
        b_request: RequestCode::GetInterface,
        w_value: WValue::from((0xf0, 0x0d)),
        w_index: 0xadde,
        w_length: 0xefbe,
    };
    let got = sp.to_bytes();
    let len = got.len();
    assert_eq!(len, 8);
    assert_offset("bm_request_type", &got, &[sp.bm_request_type.bits()], 0x00);
    assert_offset("b_request", &got, &[sp.b_request.bits()], 0x01);
    assert_offset("w_value", &got, &sp.w_value.bits().to_le_bytes(), 0x02);
    assert_offset("w_index", &got, &sp.w_index.to_le_bytes(), 0x04);
    assert_offset("w_length", &got, &sp.w_length.to_le_bytes(), 0x06);

    let want = &[0x22, 0x0a, 0xf0, 0x0d, 0xde, 0xad, 0xbe, 0xef];
    assert_eq!(&got, want);
}

#[test]
fn setup_readers_say_why() {
    assert_eq!(RequestType::from_bits(0xa1).direction(), Ok(RequestDirection::DeviceToHost));
    assert_eq!(RequestType::from_bits(0xa1).kind(), Ok(RequestKind::Class));
    assert_eq!(RequestType::from_bits(0xa1).recipient(), Ok(RequestRecipient::Interface));
    assert_eq!(
        RequestType::from_bits(0x60).kind(),
        Err("type can only be 0x00, 0x20, or 0x40")
    );
    assert_eq!(
        RequestType::from_bits(0x07).recipient(),
        Err("recipient can only be between 0 and 3")
    );
    assert_eq!(RequestDirection::try_from(1), Err("direction can only be 0x00 or 0x80"));
    assert_eq!(RequestCode::try_from(2), Err("invalid request value"));
    assert_eq!(RequestCode::try_from(11), Ok(RequestCode::SetInterface));
    assert_eq!(RequestCode::default(), RequestCode::GetStatus);
}

#[test]
fn setup_setters() {
    let mut t = RequestType::from_bits(0);
    t.set_direction(RequestDirection::DeviceToHost);
    t.set_kind(RequestKind::Vendor);
    t.set_recipient(RequestRecipient::Endpoint);
    assert_eq!(t.bits(), 0xc2);
    t.set_kind(RequestKind::Standard);
    assert_eq!(t.bits(), 0x82);
    let mut w = WValue::from((1, 2));
    assert_eq!((w.w_value_lo(), w.w_value_hi()), (1, 2));
    w.set_w_value_lo(0xff);
    assert_eq!(w.bits(), 0x02ff);
    assert_eq!(WValue::default().bits(), 0);
}
