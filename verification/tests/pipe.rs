use embedded_usb_host::atsamd::pipe::addr::Addr;
use embedded_usb_host::atsamd::pipe::ctrl_pipe::CtrlPipe;
use embedded_usb_host::atsamd::pipe::ext_reg::ExtReg;
use embedded_usb_host::atsamd::pipe::pck_size::PckSize;
use embedded_usb_host::atsamd::pipe::status_bk::StatusBk;
use embedded_usb_host::atsamd::pipe::status_pipe::StatusPipe;
use embedded_usb_host::atsamd::pipe::{BankDesc, PipeDesc, BANK_DESC_LEN, PIPE_DESC_LEN};

fn assert_offset(name: &str, image: &[u8], field: &[u8], offset: usize) {
    assert_eq!(&image[offset..offset + field.len()], field, "{} register offset.", name);
}

fn distinct_bank(seed: u8) -> BankDesc {
    let mut bd = BankDesc::new();
    bd.addr = Addr::from(0x1122_3340 + seed as u32 * 4);
    bd.pcksize = PckSize::from(0x5566_7788 + seed as u32);
    bd.extreg = ExtReg::from(0x99aa + seed as u16);
    bd.status_bk = StatusBk::from(0xbb + seed);
    bd.ctrl_pipe = CtrlPipe::from(0xccdd + seed as u16);
    bd.status_pipe = StatusPipe::from(0xee + seed);
    bd
}

#[test]
fn bank_desc_sizes() {
    assert_eq!(core::mem::size_of::<Addr>(), 4, "Addr register size.");
    assert_eq!(core::mem::size_of::<PckSize>(), 4, "PckSize register size.");
    assert_eq!(core::mem::size_of::<ExtReg>(), 2, "ExtReg register size.");
    assert_eq!(core::mem::size_of::<StatusBk>(), 1, "StatusBk register size.");
    assert_eq!(core::mem::size_of::<CtrlPipe>(), 2, "CtrlPipe register size.");
    assert_eq!(core::mem::size_of::<StatusPipe>(), 1, "StatusPipe register size.");

    // addr at 0x00 for 4
    // pcksize at 0x04 for 4
    // extreg at 0x08 for 2
    // status_bk at 0x0a for 2
    // ctrl_pipe at 0x0c for 2
    // status_pipe at 0x0e for 1
    assert_eq!(BankDesc::new().to_bytes().len(), 16, "Bank descriptor size.");
    assert_eq!(BANK_DESC_LEN, 16, "Bank descriptor size.");
}

#[test]
fn bank_desc_offsets() {
    let bd = distinct_bank(0);
    let image = bd.to_bytes();

    assert_offset("Addr", &image, &bd.addr.read().bits().to_le_bytes(), 0x00);
    assert_offset("PckSize", &image, &bd.pcksize.read().bits().to_le_bytes(), 0x04);
    assert_offset("ExtReg", &image, &bd.extreg.read().bits().to_le_bytes(), 0x08);
    assert_offset("StatusBk", &image, &[bd.status_bk.read().bits()], 0x0a);
    assert_offset("CtrlPipe", &image, &bd.ctrl_pipe.read().bits().to_le_bytes(), 0x0c);
    assert_offset("StatusPipe", &image, &[bd.status_pipe.read().bits()], 0x0e);
    assert_eq!(
        image,
        [
            0x40, 0x33, 0x22, 0x11, 0x88, 0x77, 0x66, 0x55, 0xaa, 0x99, 0xbb, 0x00, 0xdd, 0xcc,
            0xee, 0x00
        ]
    );
}

#[test]
fn pipe_desc_size() {
    assert_eq!(PipeDesc::new().to_bytes().len(), 32);
    assert_eq!(PIPE_DESC_LEN, 32);
}

#[test]
fn pipe_desc_offsets() {
    let mut pd = PipeDesc::new();
    pd.bank0 = distinct_bank(1);
    pd.bank1 = distinct_bank(2);
    let image = pd.to_bytes();

    assert_offset("Bank0", &image, &pd.bank0.to_bytes(), 0x00);
    assert_offset("Bank1", &image, &pd.bank1.to_bytes(), 0x10);
}

#[test]
fn new_descriptors_are_zero() {
    assert_eq!(PipeDesc::new().to_bytes(), [0u8; 32]);
    assert_eq!(BankDesc::new().to_bytes(), [0u8; 16]);
}
