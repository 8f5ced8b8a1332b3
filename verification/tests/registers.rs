use embedded_usb_host::atsamd::pipe::addr::Addr;
use embedded_usb_host::atsamd::pipe::ctrl_pipe::CtrlPipe;
use embedded_usb_host::atsamd::pipe::ext_reg::ExtReg;
use embedded_usb_host::atsamd::pipe::pck_size::{PckSize, SizeR, SizeW};
use embedded_usb_host::atsamd::pipe::status_bk::StatusBk;
use embedded_usb_host::atsamd::pipe::status_pipe::StatusPipe;

#[test]
fn addr_register() {
    let mut a = Addr::from(0);
    a.write(|w| w.addr().bits(0x2000_0100));
    assert_eq!(a.read().bits(), 0x2000_0100);
    assert_eq!(a.read().addr().bits(), 0x2000_0100);
    a.modify(|r, w| {
        let next = r.bits() + 64;
        w.addr().bits(next)
    });
    assert_eq!(a.read().addr().bits(), 0x2000_0140);
    a.write(|w| w.bits(0xffff_fffc));
    assert_eq!(a.read().bits(), 0xffff_fffc);
}

#[test]
fn ctrl_pipe_fields() {
    let mut c = CtrlPipe::from(0);
    c.write(|w| {
        w.pdaddr().set_addr(0x55);
        w.pepnum().set_epnum(0x0a);
        w.permax().set_max(0x0c)
    });
    assert_eq!(c.read().bits(), 0xca55);
    assert_eq!(c.read().pdaddr().addr(), 0x55);
    assert_eq!(c.read().pepnum().epnum(), 0x0a);
    assert_eq!(c.read().permax().max(), 0x0c);
    // a field takes the bits that fit and leaves the others alone
    c.modify(|_, w| w.pepnum().bits(0xf3));
    assert_eq!(c.read().bits(), 0xc355);
    c.write(|w| w.pdaddr().bits(0xff));
    assert_eq!(c.read().bits(), 0xc37f);
    assert_eq!(c.read().pdaddr().addr(), 127);
    let mut c = CtrlPipe::from(0xffff);
    c.write(|w| w.permax().bits(0));
    assert_eq!(c.read().bits(), 0x0fff);
}

#[test]
fn ext_reg_fields() {
    let mut e = ExtReg::from(0);
    e.write(|w| {
        w.subpid().bits(0x3);
        w.variable().bits(0x7ff)
    });
    assert_eq!(e.read().bits(), 0x7ff3);
    assert_eq!(e.read().subpid().bits(), 3);
    assert_eq!(e.read().variable().bits(), 0x7ff);
    e.write(|w| w.variable().bits(0x0801));
    assert_eq!(e.read().variable().bits(), 1);
    assert_eq!(e.read().bits(), 0x0013);
    e.write(|w| w.bits(0x8000));
    assert_eq!(e.read().variable().bits(), 0);
}

#[test]
fn pck_size_fields() {
    let mut p = PckSize::from(0);
    p.write(|w| {
        w.byte_count().bits(0x1234);
        w.multi_packet_size().bits(0x2abc);
        w.size().bytes64();
        w.auto_zlp().set_bit()
    });
    assert_eq!(p.read().bits(), 0x8000_0000 | (3 << 28) | (0x2abc << 14) | 0x1234);
    assert_eq!(p.read().byte_count().bits(), 0x1234);
    assert_eq!(p.read().multi_packet_size().bits(), 0x2abc);
    assert_eq!(p.read().size(), SizeR::Bytes64);
    assert!(p.read().size().is_bytes64());
    assert!(!p.read().size().is_bytes8());
    assert!(p.read().auto_zlp().bit());
    assert!(p.read().auto_zlp().bit_is_set());
    assert!(!p.read().auto_zlp().bit_is_clear());
    p.modify(|_, w| w.auto_zlp().clear_bit());
    assert!(p.read().auto_zlp().bit_is_clear());
    p.modify(|_, w| w.byte_count().bits(0));
    assert_eq!(p.read().bits(), (3 << 28) | (0x2abc << 14));
    p.write(|w| w.size().variant(SizeW::Bytes1024));
    assert_eq!(p.read().size().bits(), 7);
    assert!(p.read().size().is_bytes1024());
    p.write(|w| w.size().bits(0xfd));
    assert_eq!(p.read().size(), SizeR::Bytes256);
}

#[test]
fn pck_size_classes() {
    let sizes = [
        (SizeW::Bytes8, SizeR::Bytes8, 0),
        (SizeW::Bytes16, SizeR::Bytes16, 1),
        (SizeW::Bytes32, SizeR::Bytes32, 2),
        (SizeW::Bytes64, SizeR::Bytes64, 3),
        (SizeW::Bytes128, SizeR::Bytes128, 4),
        (SizeW::Bytes256, SizeR::Bytes256, 5),
        (SizeW::Bytes512, SizeR::Bytes512, 6),
        (SizeW::Bytes1024, SizeR::Bytes1024, 7),
    ];
    for (w, r, code) in sizes {
        assert_eq!(w.bits(), code);
        assert_eq!(r.bits(), code);
        assert_eq!(SizeR::from_bits(code), r);
        let mut p = PckSize::from(0xffff_ffff);
        p.write(|x| x.size().variant(w));
        assert_eq!(p.read().size(), r);
        assert_eq!(p.read().bits(), 0x8fff_ffff | ((code as u32) << 28));
    }
    let mut p = PckSize::from(0);
    p.write(|w| w.size().bytes8());
    assert!(p.read().size().is_bytes8());
    p.write(|w| w.size().bytes16());
    assert!(p.read().size().is_bytes16());
    p.write(|w| w.size().bytes32());
    assert!(p.read().size().is_bytes32());
    p.write(|w| w.size().bytes128());
    assert!(p.read().size().is_bytes128());
    p.write(|w| w.size().bytes256());
    assert!(p.read().size().is_bytes256());
    p.write(|w| w.size().bytes512());
    assert!(p.read().size().is_bytes512());
    p.write(|w| w.size().bytes1024());
    assert_eq!(p.read().bits(), 7 << 28);
}

#[test]
fn status_bk_bits() {
    let mut s = StatusBk::from(0);
    s.write(|w| w.errorflow().set_bit());
    assert_eq!(s.read().bits(), 2);
    assert!(s.read().errorflow().bit_is_set());
    assert!(s.read().errorflow().bit());
    assert!(s.read().crcerr().bit_is_clear());
    s.write(|w| w.crcerr().bit(true));
    assert_eq!(s.read().bits(), 3);
    assert!(s.read().crcerr().bit_is_set());
    s.write(|w| w.errorflow().clear_bit());
    assert_eq!(s.read().bits(), 1);
    assert!(s.read().errorflow().bit_is_clear());
    s.write(|w| w.crcerr().clear_bit());
    assert_eq!(s.read().bits(), 0);
    s.write(|w| w.bits(0xfc));
    assert!(!s.read().crcerr().bit());
    assert!(!s.read().errorflow().bit());
}

#[test]
fn status_pipe_bits() {
    let mut s = StatusPipe::from(0);
    s.write(|w| w.dtgler().set_bit());
    assert_eq!(s.read().bits(), 0x01);
    s.write(|w| w.dapider().set_bit());
    assert_eq!(s.read().bits(), 0x03);
    s.write(|w| w.pider().set_bit());
    assert_eq!(s.read().bits(), 0x07);
    s.write(|w| w.touter().set_bit());
    assert_eq!(s.read().bits(), 0x0f);
    s.write(|w| w.crc16er().set_bit());
    assert_eq!(s.read().bits(), 0x1f);
    s.write(|w| w.ercnt().set_count(5));
    assert_eq!(s.read().bits(), 0xbf);
    assert_eq!(s.read().ercnt().bits(), 5);
    assert!(s.read().dtgler().bit_is_set());
    assert!(s.read().dapider().bit_is_set());
    assert!(s.read().pider().bit_is_set());
    assert!(s.read().touter().bit_is_set());
    assert!(s.read().crc16er().bit_is_set());
    s.write(|w| w.pider().clear_bit());
    assert_eq!(s.read().bits(), 0xbb);
    assert!(s.read().pider().bit_is_clear());
    assert!(!s.read().pider().bit());
    s.write(|w| {
        w.dtgler().bit(false);
        w.dapider().bit(false);
        w.touter().clear_bit();
        w.crc16er().clear_bit();
        w.ercnt().bits(0xf8)
    });
    assert_eq!(s.read().bits(), 0);
    assert!(s.read().dtgler().bit_is_clear());
    assert!(s.read().dapider().bit_is_clear());
    assert!(s.read().touter().bit_is_clear());
    assert!(s.read().crc16er().bit_is_clear());
    assert!(!s.read().touter().bit());
    assert!(!s.read().crc16er().bit());
    assert!(!s.read().dapider().bit());
    assert!(!s.read().dtgler().bit());
}
