use embedded_usb_host::address::DevAddress;
use embedded_usb_host::atsamd::error::{Failure, PipeErr};
use embedded_usb_host::atsamd::host::{
    host_update, next_irq, packet_size_for_speed, HostIrq, HostIrqFlags, HostState, HostUpdate,
    BUS_SETTLE_DELAY,
};
use embedded_usb_host::atsamd::pipe::status_bk::StatusBk;
use embedded_usb_host::atsamd::pipe::status_pipe::StatusPipe;
use embedded_usb_host::atsamd::pipe::table::{size_class, PipeTable};
use embedded_usb_host::atsamd::pipe::pck_size::SizeW;
use embedded_usb_host::atsamd::pipe::{
    control_setup, control_step, data_toggle, dispatch_packet, dispatch_result,
    is_transfer_complete, next_stage, packet_length, BankDesc, ControlProgress, ControlStage,
    Dispatched, InTransfer, OutTransfer, PacketSetup, PacketSlot, PipeDesc, PipeFlag, PipeFlags,
    PipeToken, PipeType, SyncPoll, SyncStep, SyncTx, TransferStep, MAX_PIPES, NAK_LIMIT,
    USB_TIMEOUT,
};
use embedded_usb_host::control::{
    RequestCode, RequestDirection, RequestKind, RequestRecipient, RequestType, WValue,
};
use embedded_usb_host::endpoint::{DataToggle, Endpoint, EndpointProperties};
use embedded_usb_host::host::HostEvent;
use embedded_usb_host::{HostError, MaxPacketSize, TransferType};

const NO_FLAGS: PipeFlags = PipeFlags { trcpt0: false, txstp: false, stall: false, trfail: false };

fn bulk_in_endpoint() -> Endpoint {
    Endpoint::from_raw(DevAddress::from_u8(3), 64, 0x81, 0x02)
}

fn interrupt_endpoint() -> Endpoint {
    Endpoint::from_raw(DevAddress::from_u8(3), 8, 0x82, 0x03)
}

fn bank(status_bk: u8, status_pipe: u8) -> BankDesc {
    let mut b = BankDesc::new();
    b.status_bk = StatusBk::from(status_bk);
    b.status_pipe = StatusPipe::from(status_pipe);
    b
}

#[test]
fn constants() {
    assert_eq!(NAK_LIMIT, 15);
    assert_eq!(USB_TIMEOUT, 5000);
    assert_eq!(MAX_PIPES, 8);
    assert_eq!(BUS_SETTLE_DELAY, 20);
    assert_eq!(PipeToken::Setup.bits(), 0);
    assert_eq!(PipeToken::In.bits(), 1);
    assert_eq!(PipeToken::Out.bits(), 2);
    assert_eq!(PipeType::from(TransferType::Control), PipeType::Control);
    assert_eq!(PipeType::from(TransferType::Isochronous).bits(), 2);
    assert_eq!(PipeType::from(TransferType::Bulk).bits(), 3);
    assert_eq!(PipeType::from(TransferType::Interrupt).bits(), 4);
    assert_eq!(PipeType::Disabled.bits(), 0);
    assert_eq!(PipeType::Extended.bits(), 5);
}

#[test]
fn completion_is_read_from_the_flag_of_the_token() {
    let setup_sent = PipeFlags { txstp: true, ..NO_FLAGS };
    let complete = PipeFlags { trcpt0: true, ..NO_FLAGS };
    assert!(is_transfer_complete(PipeToken::Setup, setup_sent));
    assert!(!is_transfer_complete(PipeToken::Setup, complete));
    assert!(is_transfer_complete(PipeToken::In, complete));
    assert!(is_transfer_complete(PipeToken::Out, complete));
    assert!(!is_transfer_complete(PipeToken::In, setup_sent));
    assert_eq!(
        dispatch_result(PipeToken::In, complete, &bank(0xff, 0xff)),
        Dispatched { result: Ok(true), clear: Some(PipeFlag::TransferComplete), freeze: true }
    );
    assert_eq!(
        dispatch_result(PipeToken::Setup, setup_sent, &bank(0, 0)),
        Dispatched { result: Ok(true), clear: Some(PipeFlag::SetupSent), freeze: true }
    );
}

#[test]
fn errors_are_found_in_their_order() {
    let all = PipeFlags { trcpt0: false, txstp: false, stall: true, trfail: true };
    let found = |bk: u8, sp: u8, flags: PipeFlags| dispatch_result(PipeToken::In, flags, &bank(bk, sp));
    assert_eq!(found(0x02, 0x1f, all).result, Err(HostError::Nak));
    assert_eq!(found(0x01, 0x1f, all).result, Err(HostError::Crc));
    assert_eq!(found(0x00, 0x0f, all).result, Err(HostError::Pid));
    assert_eq!(found(0x00, 0x0b, all).result, Err(HostError::DataPid));
    assert_eq!(found(0x00, 0x09, all).result, Err(HostError::HardTimeout));
    assert_eq!(found(0x00, 0x01, all).result, Err(HostError::Toggle));
    assert_eq!(
        found(0x00, 0xe0, all),
        Dispatched { result: Err(HostError::Stall), clear: Some(PipeFlag::Stall), freeze: false }
    );
    assert_eq!(
        found(0x00, 0x00, PipeFlags { stall: false, ..all }),
        Dispatched {
            result: Err(HostError::Fail),
            clear: Some(PipeFlag::TransferFail),
            freeze: false
        }
    );
    assert_eq!(
        found(0x01, 0xe0, NO_FLAGS),
        Dispatched { result: Ok(false), clear: None, freeze: false }
    );
    assert_eq!(found(0x02, 0, NO_FLAGS).clear, None);
}

#[test]
fn packets_are_sent_off_with_the_toggle_of_the_endpoint() {
    let mut ep = bulk_in_endpoint();
    assert_eq!(
        dispatch_packet(&mut ep, PipeToken::In),
        PacketSetup { token: PipeToken::In, clear: None, bank_ready: false, data_toggle: false }
    );
    assert!(!ep.toggle());
    ep.set_toggle(true);
    assert_eq!(
        dispatch_packet(&mut ep, PipeToken::Out),
        PacketSetup {
            token: PipeToken::Out,
            clear: Some(PipeFlag::TransferComplete),
            bank_ready: true,
            data_toggle: true
        }
    );
    assert!(ep.toggle());
    let mut ep = bulk_in_endpoint();
    assert_eq!(
        dispatch_packet(&mut ep, PipeToken::Setup),
        PacketSetup {
            token: PipeToken::Setup,
            clear: Some(PipeFlag::SetupSent),
            bank_ready: true,
            data_toggle: false
        }
    );
    assert!(ep.toggle());
    assert_eq!(ep.max_packet_size(), 64);
    assert_eq!(ep.device_address().number(), 3);
}

#[test]
fn toggle_flips_when_data_was_transferred() {
    for token in [PipeToken::In, PipeToken::Out] {
        for start in [false, true] {
            let mut ep = bulk_in_endpoint();
            ep.set_toggle(start);
            let (mut tx, _) = SyncTx::start(&mut ep, token, 100);
            assert_eq!(ep.toggle(), start);
            let poll = tx.poll(&mut ep, 5, NO_FLAGS, &bank(0, 0));
            assert_eq!(poll.step, SyncStep::Pending);
            assert_eq!(ep.toggle(), start);
            let poll =
                tx.poll(&mut ep, 6, PipeFlags { trcpt0: true, ..NO_FLAGS }, &bank(0, 0));
            assert_eq!(
                poll,
                SyncPoll {
                    step: SyncStep::Done(Ok(())),
                    clear: Some(PipeFlag::TransferComplete),
                    freeze: true,
                    data_toggle: None
                }
            );
            assert_eq!(ep.toggle(), !start);
        }
    }
}

#[test]
fn toggle_is_one_after_setup() {
    for start in [false, true] {
        let mut ep = bulk_in_endpoint();
        ep.set_toggle(start);
        let (mut tx, setup) = SyncTx::start(&mut ep, PipeToken::Setup, 100);
        assert!(!setup.data_toggle);
        assert!(ep.toggle());
        let poll = tx.poll(&mut ep, 1, PipeFlags { txstp: true, ..NO_FLAGS }, &bank(0, 0));
        assert_eq!(poll.step, SyncStep::Done(Ok(())));
        assert_eq!(poll.clear, Some(PipeFlag::SetupSent));
        assert!(ep.toggle());
    }
}

#[test]
fn toggle_error_is_corrected_and_not_counted() {
    let mut ep = bulk_in_endpoint();
    let (mut tx, _) = SyncTx::start(&mut ep, PipeToken::In, 100);
    for i in 0..40u64 {
        let before = ep.toggle();
        let poll = tx.poll(&mut ep, i, NO_FLAGS, &bank(0, 0x01));
        assert_eq!(
            poll,
            SyncPoll {
                step: SyncStep::Pending,
                clear: None,
                freeze: false,
                data_toggle: Some(!before)
            }
        );
        assert_eq!(ep.toggle(), !before);
    }
    let mut ep = bulk_in_endpoint();
    let (mut tx, _) = SyncTx::start(&mut ep, PipeToken::Setup, 100);
    let poll = tx.poll(&mut ep, 0, NO_FLAGS, &bank(0, 0x01));
    assert_eq!(poll.data_toggle, Some(false));
    assert!(ep.toggle());
    assert!(!data_toggle(&mut ep, PipeToken::Setup));
    assert!(ep.toggle());
    assert!(!data_toggle(&mut ep, PipeToken::In));
    assert!(!ep.toggle());
}

#[test]
fn stall_ends_the_transaction_at_once() {
    let mut ep = bulk_in_endpoint();
    let (mut tx, _) = SyncTx::start(&mut ep, PipeToken::Setup, 100);
    let poll = tx.poll(&mut ep, 0, PipeFlags { stall: true, ..NO_FLAGS }, &bank(0, 0));
    assert_eq!(
        poll,
        SyncPoll {
            step: SyncStep::Done(Err(HostError::Stall)),
            clear: Some(PipeFlag::Stall),
            freeze: false,
            data_toggle: None
        }
    );
}

#[test]
fn nak_on_an_interrupt_endpoint_ends_the_transaction_at_once() {
    let mut ep = interrupt_endpoint();
    let (mut tx, _) = SyncTx::start(&mut ep, PipeToken::In, 100);
    let poll = tx.poll(&mut ep, 0, NO_FLAGS, &bank(0x02, 0));
    assert_eq!(poll.step, SyncStep::Done(Err(HostError::Nak)));
    assert!(!ep.toggle());
}

#[test]
fn nak_exhaustion_on_bulk_out() {
    let mut ep = Endpoint::from_raw(DevAddress::from_u8(3), 64, 0x01, 0x02);
    let (mut tx, _) = SyncTx::start(&mut ep, PipeToken::Out, 1000);
    for i in 0..15u64 {
        assert_eq!(tx.poll(&mut ep, i, NO_FLAGS, &bank(0x02, 0)).step, SyncStep::Pending);
    }
    assert_eq!(
        tx.poll(&mut ep, 15, NO_FLAGS, &bank(0x02, 0)).step,
        SyncStep::Done(Err(HostError::Fail))
    );
    assert!(!ep.toggle());
}

#[test]
fn retries_end_with_the_last_error_that_was_no_nak() {
    let mut ep = bulk_in_endpoint();
    let (mut tx, _) = SyncTx::start(&mut ep, PipeToken::In, 1000);
    assert_eq!(tx.poll(&mut ep, 0, NO_FLAGS, &bank(0, 0x10)).step, SyncStep::Pending);
    for i in 1..15u64 {
        assert_eq!(tx.poll(&mut ep, i, NO_FLAGS, &bank(0x02, 0)).step, SyncStep::Pending);
    }
    // pending looks do not count
    for i in 15..60u64 {
        assert_eq!(tx.poll(&mut ep, i, NO_FLAGS, &bank(0, 0)).step, SyncStep::Pending);
    }
    assert_eq!(
        tx.poll(&mut ep, 60, NO_FLAGS, &bank(0x02, 0)).step,
        SyncStep::Done(Err(HostError::Crc))
    );
    let mut ep = bulk_in_endpoint();
    let (mut tx, _) = SyncTx::start(&mut ep, PipeToken::In, 1000);
    for i in 0..15u64 {
        assert_eq!(tx.poll(&mut ep, i, NO_FLAGS, &bank(0, 0x08)).step, SyncStep::Pending);
    }
    assert_eq!(
        tx.poll(&mut ep, 15, PipeFlags { trfail: true, ..NO_FLAGS }, &bank(0, 0x04)).step,
        SyncStep::Done(Err(HostError::Pid))
    );
}

#[test]
fn transaction_is_given_up_after_its_deadline() {
    let mut ep = bulk_in_endpoint();
    let (mut tx, _) = SyncTx::start(&mut ep, PipeToken::In, 5000);
    assert_eq!(tx.poll(&mut ep, 5000, NO_FLAGS, &bank(0, 0)).step, SyncStep::Pending);
    let late = tx.poll(&mut ep, 5001, PipeFlags { trcpt0: true, ..NO_FLAGS }, &bank(0, 0));
    assert_eq!(
        late,
        SyncPoll {
            step: SyncStep::Done(Err(HostError::SoftTimeout)),
            clear: None,
            freeze: false,
            data_toggle: None
        }
    );
    assert!(!ep.toggle());
}

#[test]
fn soft_timeout_comes_only_past_the_deadline() {
    // whatever the pipe shows, up to the deadline the transaction does not time out
    let all = PipeFlags { trcpt0: false, txstp: false, stall: true, trfail: true };
    for (bk, sp, flags) in [
        (0x02u8, 0x1fu8, all),
        (0x01, 0x1f, all),
        (0x00, 0x0f, all),
        (0x00, 0x0b, all),
        (0x00, 0x09, all),
        (0x00, 0x01, all),
        (0x00, 0xe0, all),
        (0x00, 0x00, PipeFlags { stall: false, ..all }),
        (0x00, 0x00, NO_FLAGS),
    ] {
        let mut ep = bulk_in_endpoint();
        let (mut tx, _) = SyncTx::start(&mut ep, PipeToken::In, 100);
        for now in 0..=100u64 {
            let step = tx.poll(&mut ep, now, flags, &bank(bk, sp)).step;
            assert_ne!(step, SyncStep::Done(Err(HostError::SoftTimeout)));
            // a NAK is never what a bulk transaction ends with
            assert_ne!(step, SyncStep::Done(Err(HostError::Nak)));
        }
        assert_eq!(
            tx.poll(&mut ep, 101, flags, &bank(bk, sp)).step,
            SyncStep::Done(Err(HostError::SoftTimeout))
        );
    }
}

#[test]
fn in_transfer_ends_with_a_short_packet() {
    let mut t = InTransfer::new(200);
    assert_eq!(t.step(64), TransferStep::Packet(PacketSlot { offset: 0, max_len: 64 }));
    t.received(64, 64);
    assert_eq!(t.step(64), TransferStep::Packet(PacketSlot { offset: 64, max_len: 64 }));
    t.received(64, 64);
    assert_eq!(t.step(64), TransferStep::Packet(PacketSlot { offset: 128, max_len: 64 }));
    t.received(10, 64);
    assert_eq!(t.step(64), TransferStep::Done(Ok(138)));
    assert_eq!(t.total(), 138);
    // a transfer that is over takes nothing more
    t.received(64, 64);
    assert_eq!(t.step(64), TransferStep::Done(Ok(138)));
}

#[test]
fn in_transfer_ends_when_the_buffer_is_full() {
    let mut t = InTransfer::new(18);
    assert_eq!(t.step(8), TransferStep::Packet(PacketSlot { offset: 0, max_len: 8 }));
    t.received(8, 8);
    t.received(8, 8);
    assert_eq!(t.step(8), TransferStep::Packet(PacketSlot { offset: 16, max_len: 2 }));
    t.received(2, 8);
    assert_eq!(t.step(8), TransferStep::Done(Ok(18)));
    let t = InTransfer::new(0);
    assert_eq!(t.step(8), TransferStep::Done(Ok(0)));
    let mut t = InTransfer::new(8);
    t.received(0, 8);
    assert_eq!(t.step(8), TransferStep::Done(Ok(0)));
}

#[test]
fn overrun_fails_the_transfer() {
    let mut t = InTransfer::new(10);
    t.received(8, 8);
    assert_eq!(t.step(8), TransferStep::Packet(PacketSlot { offset: 8, max_len: 2 }));
    t.received(3, 8);
    assert_eq!(t.step(8), TransferStep::Done(Err(HostError::Fail)));
    assert_eq!(t.total(), 8);
    let mut t = OutTransfer::new(4);
    t.sent(5, 8);
    assert_eq!(t.step(8), TransferStep::Done(Err(HostError::Fail)));
}

#[test]
fn failed_packet_ends_the_transfer() {
    let mut t = InTransfer::new(200);
    t.received(64, 64);
    assert_eq!(t.step(64), TransferStep::Packet(PacketSlot { offset: 64, max_len: 64 }));
    t.token_failed(HostError::Stall);
    assert_eq!(t.step(64), TransferStep::Done(Err(HostError::Stall)));
    assert_eq!(t.total(), 64);
    // a transfer that is over takes nothing more
    t.received(64, 64);
    t.token_failed(HostError::Nak);
    assert_eq!(t.step(64), TransferStep::Done(Err(HostError::Stall)));
    assert_eq!(t.total(), 64);
    // the first packet fails
    let mut t = InTransfer::new(8);
    t.token_failed(HostError::SoftTimeout);
    assert_eq!(t.step(8), TransferStep::Done(Err(HostError::SoftTimeout)));
    // a transfer that has ended well does not fail afterwards
    let mut t = InTransfer::new(8);
    t.received(3, 8);
    t.token_failed(HostError::Crc);
    assert_eq!(t.step(8), TransferStep::Done(Ok(3)));
    let mut t = OutTransfer::new(20);
    t.sent(8, 8);
    t.token_failed(HostError::Nak);
    assert_eq!(t.step(8), TransferStep::Done(Err(HostError::Nak)));
    t.sent(8, 8);
    assert_eq!(t.step(8), TransferStep::Done(Err(HostError::Nak)));
    assert_eq!(t.total(), 8);
    let mut t = OutTransfer::new(8);
    t.sent(8, 8);
    t.token_failed(HostError::Fail);
    assert_eq!(t.step(8), TransferStep::Done(Ok(8)));
}

#[test]
fn out_transfer_goes_on_until_the_buffer_is_sent() {
    let mut t = OutTransfer::new(20);
    assert_eq!(t.step(8), TransferStep::Packet(PacketSlot { offset: 0, max_len: 8 }));
    t.sent(8, 8);
    // a short packet does not end a transfer to the device
    t.sent(3, 8);
    assert_eq!(t.step(8), TransferStep::Packet(PacketSlot { offset: 11, max_len: 8 }));
    t.sent(8, 8);
    assert_eq!(t.step(8), TransferStep::Packet(PacketSlot { offset: 19, max_len: 1 }));
    t.sent(1, 8);
    assert_eq!(t.step(8), TransferStep::Done(Ok(20)));
    assert_eq!(t.total(), 20);
    assert_eq!(OutTransfer::new(0).step(8), TransferStep::Done(Ok(0)));
}

#[test]
fn packet_lengths() {
    assert_eq!(packet_length(64, 1000), 64);
    assert_eq!(packet_length(64, 64), 64);
    assert_eq!(packet_length(64, 63), 63);
    assert_eq!(packet_length(64, 0), 0);
    assert_eq!(packet_length(8, 70_000), 8);
    assert_eq!(packet_length(0xffff, 0x1_0000), 0xffff);
}

#[test]
fn control_transfer_without_data_has_a_status_stage_to_the_host() {
    for dir in [RequestDirection::HostToDevice, RequestDirection::DeviceToHost] {
        let t = RequestType::from((dir, RequestKind::Standard, RequestRecipient::Device));
        assert_eq!(next_stage(ControlStage::Setup, t, 0), ControlStage::Status(PipeToken::In));
        assert_eq!(next_stage(ControlStage::Status(PipeToken::In), t, 0), ControlStage::Done);
        assert_eq!(next_stage(ControlStage::Done, t, 0), ControlStage::Done);
    }
}

#[test]
fn control_transfer_with_data() {
    let read = RequestType::from((
        RequestDirection::DeviceToHost,
        RequestKind::Standard,
        RequestRecipient::Device,
    ));
    let write = RequestType::from((
        RequestDirection::HostToDevice,
        RequestKind::Class,
        RequestRecipient::Interface,
    ));
    assert_eq!(next_stage(ControlStage::Setup, read, 18), ControlStage::Data(PipeToken::In));
    assert_eq!(
        next_stage(ControlStage::Data(PipeToken::In), read, 18),
        ControlStage::Status(PipeToken::Out)
    );
    assert_eq!(next_stage(ControlStage::Setup, write, 1), ControlStage::Data(PipeToken::Out));
    assert_eq!(
        next_stage(ControlStage::Data(PipeToken::Out), write, 1),
        ControlStage::Status(PipeToken::In)
    );
    assert_eq!(next_stage(ControlStage::Status(PipeToken::Out), read, 18), ControlStage::Done);
}

/// Runs a control transfer whose stages return `results` in this order, and
/// gives the stages that ran and what the transfer returns.
fn control_run(
    t: RequestType,
    len: usize,
    results: &[Result<usize, HostError>],
) -> (Vec<ControlStage>, Result<usize, HostError>) {
    let mut progress = ControlProgress::new();
    let mut stages = Vec::new();
    let mut next = 0;
    while progress.stage != ControlStage::Done {
        stages.push(progress.stage);
        progress = control_step(progress, t, len, results[next]);
        next += 1;
    }
    (stages, progress.outcome)
}

#[test]
fn control_transfer_returns_what_the_data_stage_transferred() {
    let read = RequestType::from((
        RequestDirection::DeviceToHost,
        RequestKind::Standard,
        RequestRecipient::Device,
    ));
    let write = RequestType::from((
        RequestDirection::HostToDevice,
        RequestKind::Class,
        RequestRecipient::Interface,
    ));
    assert_eq!(ControlProgress::new(), ControlProgress { stage: ControlStage::Setup, outcome: Ok(0) });
    assert_eq!(
        control_run(read, 18, &[Ok(0), Ok(8), Ok(0)]),
        (
            vec![
                ControlStage::Setup,
                ControlStage::Data(PipeToken::In),
                ControlStage::Status(PipeToken::Out)
            ],
            Ok(8)
        )
    );
    assert_eq!(
        control_run(write, 4, &[Ok(5), Ok(4), Ok(7)]),
        (
            vec![
                ControlStage::Setup,
                ControlStage::Data(PipeToken::Out),
                ControlStage::Status(PipeToken::In)
            ],
            Ok(4)
        )
    );
    for t in [read, write] {
        assert_eq!(
            control_run(t, 0, &[Ok(3), Ok(9)]),
            (vec![ControlStage::Setup, ControlStage::Status(PipeToken::In)], Ok(0))
        );
    }
}

#[test]
fn failed_stage_ends_the_control_transfer() {
    let read = RequestType::from((
        RequestDirection::DeviceToHost,
        RequestKind::Standard,
        RequestRecipient::Device,
    ));
    // the device answers the setup packet with STALL: no data, no status
    assert_eq!(
        control_run(read, 18, &[Err(HostError::Stall)]),
        (vec![ControlStage::Setup], Err(HostError::Stall))
    );
    assert_eq!(
        control_run(read, 18, &[Ok(0), Err(HostError::SoftTimeout)]),
        (
            vec![ControlStage::Setup, ControlStage::Data(PipeToken::In)],
            Err(HostError::SoftTimeout)
        )
    );
    assert_eq!(
        control_run(read, 18, &[Ok(0), Ok(18), Err(HostError::Nak)]),
        (
            vec![
                ControlStage::Setup,
                ControlStage::Data(PipeToken::In),
                ControlStage::Status(PipeToken::Out)
            ],
            Err(HostError::Nak)
        )
    );
    assert_eq!(
        control_run(read, 0, &[Ok(0), Err(HostError::Fail)]),
        (vec![ControlStage::Setup, ControlStage::Status(PipeToken::In)], Err(HostError::Fail))
    );
    // a transfer that is over stays as it is
    let over = ControlProgress { stage: ControlStage::Done, outcome: Err(HostError::Stall) };
    assert_eq!(control_step(over, read, 18, Ok(4)), over);
    assert_eq!(control_step(over, read, 18, Err(HostError::Crc)), over);
}

#[test]
fn setup_packet_of_a_control_transfer() {
    let t = RequestType::from((
        RequestDirection::DeviceToHost,
        RequestKind::Standard,
        RequestRecipient::Device,
    ));
    let p = control_setup(t, RequestCode::GetDescriptor, WValue::lo_hi(0, 1), 0, 18).unwrap();
    assert_eq!(p.to_bytes(), [0x80, 0x06, 0x00, 0x01, 0x00, 0x00, 0x12, 0x00]);
    let p = control_setup(t, RequestCode::GetDescriptor, WValue::lo_hi(0, 2), 9, 0xffff).unwrap();
    assert_eq!(p.to_bytes(), [0x80, 0x06, 0x00, 0x02, 0x09, 0x00, 0xff, 0xff]);
    assert_eq!(
        control_setup(t, RequestCode::GetDescriptor, WValue::lo_hi(0, 2), 0, 0x1_0000).err(),
        Some(HostError::InvalidRequest)
    );
}

#[test]
fn bank0_is_pointed_at_the_packet() {
    let mut d = PipeDesc::new();
    d.bank0_size(0x3fff);
    assert_eq!(d.bank0.pcksize.read().bits(), 0x3fff);
    d.bank0.pcksize.write(|w| {
        w.size().bytes64();
        w.multi_packet_size().bits(77)
    });
    let max_len = d.bank0_set(0x2000_0000, 100, 64, 64);
    assert_eq!(max_len, 36);
    assert_eq!(d.bank0.addr.read().addr().bits(), 0x2000_0040);
    assert_eq!(d.bank0.pcksize.read().byte_count().bits(), 36);
    assert_eq!(d.bank0.pcksize.read().multi_packet_size().bits(), 0);
    assert!(d.bank0.pcksize.read().size().is_bytes64());
    assert_eq!(d.bank1.to_bytes(), [0u8; 16]);
    assert_eq!(d.bank0_set(0x2000_0000, 8, 0, 64), 8);
    assert_eq!(d.bank0_set(0x2000_0004, 1000, 128, 8), 8);
    assert_eq!(d.bank0.addr.read().bits(), 0x2000_0084);
}

#[test]
fn pipe_sizes_are_rounded_up() {
    let cases = [
        (0, SizeW::Bytes8),
        (8, SizeW::Bytes8),
        (9, SizeW::Bytes16),
        (16, SizeW::Bytes16),
        (17, SizeW::Bytes32),
        (33, SizeW::Bytes64),
        (64, SizeW::Bytes64),
        (65, SizeW::Bytes128),
        (200, SizeW::Bytes256),
        (257, SizeW::Bytes512),
        (512, SizeW::Bytes512),
        (513, SizeW::Bytes1024),
        (1023, SizeW::Bytes1024),
        (1024, SizeW::Bytes1024),
        (60_000, SizeW::Bytes1024),
    ];
    for (mps, size) in cases {
        assert_eq!(size_class(mps), size, "{}", mps);
    }
}

#[test]
fn pipe_table_makes_a_pipe_ready() {
    let mut table = PipeTable::new();
    for i in 0..MAX_PIPES {
        assert_eq!(table.desc(i).to_bytes(), [0u8; 32]);
    }
    let control = Endpoint::from_raw(DevAddress::from_u8(100), 8, 0x00, 0x00);
    let sel = table.pipe_for(&control);
    assert_eq!((sel.index, sel.ptype), (0, PipeType::Control));
    let d = table.desc(0);
    assert_eq!(d.bank0.ctrl_pipe.read().pdaddr().addr(), 100);
    assert_eq!(d.bank0.ctrl_pipe.read().pepnum().epnum(), 0);
    assert!(d.bank0.pcksize.read().size().is_bytes8());

    let bulk = Endpoint::from_raw(DevAddress::from_u8(5), 64, 0x83, 0x02);
    let sel = table.pipe_for(&bulk);
    assert_eq!((sel.index, sel.ptype), (1, PipeType::Bulk));
    let d = table.desc(1);
    assert_eq!(d.bank0.ctrl_pipe.read().bits(), 0x0305);
    assert!(d.bank0.pcksize.read().size().is_bytes64());
    // pipe 1 is written anew for the next endpoint, pipe 0 stays
    let interrupt = Endpoint::from_raw(DevAddress::from_u8(6), 10, 0x81, 0x03);
    let sel = table.pipe_for(&interrupt);
    assert_eq!((sel.index, sel.ptype), (1, PipeType::Interrupt));
    assert_eq!(table.desc(1).bank0.ctrl_pipe.read().bits(), 0x0106);
    assert!(table.desc(1).bank0.pcksize.read().size().is_bytes16());
    assert_eq!(table.desc(0).bank0.ctrl_pipe.read().pdaddr().addr(), 100);
    let mut d = table.desc(2);
    d.bank0_size(5);
    table.set_desc(2, d);
    assert_eq!(table.desc(2).bank0.pcksize.read().byte_count().bits(), 5);
    assert_eq!(interrupt.transfer_type(), TransferType::Interrupt);
}

const NO_IRQ: HostIrqFlags = HostIrqFlags {
    ddisc: false,
    dconn: false,
    ramacer: false,
    uprsm: false,
    dnrsm: false,
    wakeup: false,
    rst: false,
    hsof: false,
};

#[test]
fn interrupts_are_served_in_their_order() {
    let all = HostIrqFlags {
        ddisc: true,
        dconn: true,
        ramacer: true,
        uprsm: true,
        dnrsm: true,
        wakeup: true,
        rst: true,
        hsof: true,
    };
    assert_eq!(next_irq(NO_IRQ), None);
    assert_eq!(next_irq(all), Some(HostIrq::Detached));
    assert_eq!(next_irq(HostIrqFlags { ddisc: false, ..all }), Some(HostIrq::Attached));
    assert_eq!(
        next_irq(HostIrqFlags { ddisc: false, dconn: false, ..all }),
        Some(HostIrq::RamAccess)
    );
    assert_eq!(next_irq(HostIrqFlags { uprsm: true, hsof: true, ..NO_IRQ }), Some(HostIrq::UpstreamResume));
    assert_eq!(next_irq(HostIrqFlags { dnrsm: true, rst: true, ..NO_IRQ }), Some(HostIrq::DownResume));
    assert_eq!(next_irq(HostIrqFlags { wakeup: true, rst: true, ..NO_IRQ }), Some(HostIrq::WakeUp));
    assert_eq!(next_irq(HostIrqFlags { rst: true, hsof: true, ..NO_IRQ }), Some(HostIrq::Reset));
    assert_eq!(next_irq(HostIrqFlags { hsof: true, ..NO_IRQ }), Some(HostIrq::HostStartOfFrame));
}

fn quiet(state: HostState) -> HostUpdate {
    HostUpdate { state, event: None, reset_host: false, bus_reset: false, enable_sof: false }
}

#[test]
fn host_goes_from_init_to_connected() {
    let u = host_update(HostState::Init, None, 0, 20);
    assert_eq!(
        u,
        HostUpdate {
            state: HostState::Disconnected,
            event: Some(HostEvent::Reset),
            reset_host: true,
            bus_reset: false,
            enable_sof: false
        }
    );
    assert_eq!(host_update(HostState::Disconnected, None, 1, 21), quiet(HostState::Disconnected));
    let u = host_update(HostState::Disconnected, Some(HostIrq::Attached), 2, 22);
    assert_eq!(u, HostUpdate { bus_reset: true, ..quiet(HostState::BusReset) });
    assert_eq!(
        host_update(HostState::BusReset, Some(HostIrq::HostStartOfFrame), 3, 23),
        quiet(HostState::BusReset)
    );
    let u = host_update(HostState::BusReset, Some(HostIrq::Reset), 4, 24);
    assert_eq!(u, HostUpdate { enable_sof: true, ..quiet(HostState::BusSettleUntil(24)) });
    assert_eq!(
        host_update(HostState::BusSettleUntil(24), Some(HostIrq::HostStartOfFrame), 23, 43),
        quiet(HostState::BusSettleUntil(24))
    );
    assert_eq!(
        host_update(HostState::BusSettleUntil(24), Some(HostIrq::Reset), 30, 50),
        quiet(HostState::BusSettleUntil(24))
    );
    let u = host_update(HostState::BusSettleUntil(24), Some(HostIrq::HostStartOfFrame), 24, 44);
    assert_eq!(u, HostUpdate { event: Some(HostEvent::Ready), ..quiet(HostState::Connected) });
    assert_eq!(
        host_update(HostState::Connected, Some(HostIrq::HostStartOfFrame), 25, 45),
        quiet(HostState::Connected)
    );
}

#[test]
fn detach_leads_back_to_init_and_then_to_a_reset() {
    for state in [
        HostState::Disconnected,
        HostState::BusReset,
        HostState::BusSettleUntil(9),
        HostState::Connected,
        HostState::Error,
    ] {
        assert_eq!(host_update(state, Some(HostIrq::Detached), 5, 25), quiet(HostState::Init));
    }
    for irq in [None, Some(HostIrq::Detached), Some(HostIrq::Attached), Some(HostIrq::WakeUp)] {
        let u = host_update(HostState::Init, irq, 5, 25);
        assert_eq!(u.state, HostState::Disconnected);
        assert_eq!(u.event, Some(HostEvent::Reset));
        assert!(u.reset_host);
    }
}

#[test]
fn packet_size_goes_by_speed() {
    assert_eq!(packet_size_for_speed(0), 64);
    assert_eq!(packet_size_for_speed(1), 8);
    assert_eq!(packet_size_for_speed(3), 8);
}

#[test]
fn pipe_errors_in_words() {
    assert_eq!(PipeErr::TransferFail.failure(), Failure::Transient("Transfer failed"));
    assert_eq!(PipeErr::Flow.failure(), Failure::Transient("Data flow"));
    assert_eq!(PipeErr::DataToggle.failure(), Failure::Transient("Data toggle"));
    assert_eq!(PipeErr::Stall.failure(), Failure::Permanent("Stall"));
    assert_eq!(PipeErr::ShortPacket.failure(), Failure::Permanent("Short packet"));
    assert_eq!(PipeErr::SoftwareTimeout.failure(), Failure::Permanent("Software timeout"));
    assert_eq!(PipeErr::from("bad luck").failure(), Failure::Permanent("bad luck"));
    assert_eq!(PipeErr::from("x"), PipeErr::Other("x"));
}
