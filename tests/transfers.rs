use usb_host::{
    convert_type, Channel, ChannelError, ControlStage, DeviceEvent, Direction, EndpointInfo,
    EndpointType, HostError, Peripheral, Speed, TransferStatus, USBHostInterruptHandler, UsbHost,
    WakeTarget, CNTR_INIT, CNTR_RUN, ISTR_CTR, ISTR_DCON_STAT, ISTR_ERR, ISTR_LS_DCON,
    ISTR_RESET,
};

fn endpoint(ep_type: EndpointType, mps: u16) -> EndpointInfo {
    EndpointInfo { addr: 0x81, ep_type, max_packet_size: mps, interval_ms: 0 }
}

fn connected_host() -> (Peripheral, USBHostInterruptHandler, UsbHost) {
    let mut hw = Peripheral::new();
    let mut host = UsbHost::new(&mut hw);
    host.start(&mut hw);
    hw.istr = ISTR_DCON_STAT;
    (hw, USBHostInterruptHandler::new(), host)
}

fn tx_bits(hw: &Peripheral, i: usize) -> u32 {
    (hw.epr[i] >> 4) & 3
}

fn rx_bits(hw: &Peripheral, i: usize) -> u32 {
    (hw.epr[i] >> 12) & 3
}

/// What the device side does: finish the transmission on slot `i`.
fn device_takes_out(hw: &mut Peripheral, i: usize) {
    hw.epr[i] = (hw.epr[i] & !0x0030) | 0x0080;
}

/// What the device side does: deliver `data` into the receive buffer of `ch`.
fn device_sends_in(hw: &mut Peripheral, ch: &Channel, data: &[u8]) {
    let b = ch.buf_in.as_ref().unwrap();
    let base = b.addr() as usize;
    for (k, byte) in data.iter().enumerate() {
        let w = (base + k) / 4;
        let sh = 8 * ((base + k) % 4);
        hw.ram[w] = (hw.ram[w] & !(0xff << sh)) | ((*byte as u32) << sh);
    }
    let d = 2 * ch.index + 1;
    hw.ram[d] = (hw.ram[d] & !(0x3ff << 16)) | ((data.len() as u32) << 16);
    hw.epr[ch.index] = (hw.epr[ch.index] & !0x3000) | 0x8000;
}

#[test]
fn host_init_and_start_registers() {
    let mut hw = Peripheral::new();
    let host = UsbHost::new(&mut hw);
    assert_eq!(hw.cntr, CNTR_INIT);
    assert_eq!(host.allocated_pipes, 0);
    assert_eq!(host.mem.free(), 64);
    let mut host = host;
    host.start(&mut hw);
    assert_eq!(hw.cntr, CNTR_RUN);
    hw.istr = 0x1234;
    assert_eq!(host.get_status(&hw), 0x1234);
    host.bus_reset_begin(&mut hw);
    assert_eq!(hw.cntr, CNTR_RUN | 1);
    host.bus_reset_end(&mut hw);
    assert_eq!(hw.cntr, CNTR_RUN);
}

#[test]
fn two_bulk_channels_get_slots_one_and_two() {
    let (mut hw, _irq, mut host) = connected_host();
    let a = host
        .alloc_channel(&mut hw, 1, &endpoint(EndpointType::Bulk, 64), EndpointType::Bulk, Direction::In, false)
        .unwrap();
    let b = host
        .alloc_channel(&mut hw, 1, &endpoint(EndpointType::Bulk, 30), EndpointType::Bulk, Direction::Out, false)
        .unwrap();
    assert_eq!(a.index, 1);
    assert_eq!(b.index, 2);
    let ai = a.buf_in.as_ref().unwrap();
    assert!(a.buf_out.is_none());
    let bo = b.buf_out.as_ref().unwrap();
    assert!(b.buf_in.is_none());
    assert_eq!((ai.addr(), ai.len()), (64, 64));
    assert_eq!((bo.addr(), bo.len()), (128, 32));
    assert!(ai.addr() + ai.len() <= bo.addr());
    assert_eq!(host.allocated_pipes, 0b110);
    assert_eq!(hw.ram[3], 64 | (0x8400 << 16));
    // Register pointed at device 1, bulk, endpoint number = slot.
    assert_eq!(hw.epr[1] & 0x007f_060f, (1 << 16) | 1);
    assert_eq!(hw.epr[2] & 0x007f_060f, (1 << 16) | 2);
}

#[test]
fn channel_slots_run_out_after_seven() {
    let (mut hw, _irq, mut host) = connected_host();
    let ep = endpoint(EndpointType::Interrupt, 8);
    let mut seen = Vec::new();
    for _ in 0..7 {
        let ch = host
            .alloc_channel(&mut hw, 2, &ep, EndpointType::Interrupt, Direction::Out, false)
            .unwrap();
        assert_ne!(ch.index, 0);
        assert!(!seen.contains(&ch.index));
        seen.push(ch.index);
    }
    assert_eq!(seen, vec![1, 2, 3, 4, 5, 6, 7]);
    let r = host.alloc_channel(&mut hw, 2, &ep, EndpointType::Interrupt, Direction::Out, false);
    assert_eq!(r.err(), Some(HostError::OutOfChannels));
    let ctl = host
        .alloc_channel(&mut hw, 0, &endpoint(EndpointType::Control, 8), EndpointType::Control, Direction::InOut, false)
        .unwrap();
    assert_eq!(ctl.index, 0);
}

#[test]
fn released_slot_is_reused() {
    let (mut hw, _irq, mut host) = connected_host();
    let ep = endpoint(EndpointType::Bulk, 8);
    let a = host.alloc_channel(&mut hw, 2, &ep, EndpointType::Bulk, Direction::In, false).unwrap();
    let b = host.alloc_channel(&mut hw, 2, &ep, EndpointType::Bulk, Direction::In, false).unwrap();
    assert_eq!((a.index, b.index), (1, 2));
    host.release_channel(a);
    let c = host.alloc_channel(&mut hw, 2, &ep, EndpointType::Bulk, Direction::In, false).unwrap();
    assert_eq!(c.index, 1);
    assert_eq!(c.buf_in.as_ref().unwrap().addr(), 80);
}

#[test]
fn memory_exhaustion_is_out_of_slots() {
    let (mut hw, _irq, mut host) = connected_host();
    let ep = endpoint(EndpointType::Bulk, 512);
    let r = host.alloc_channel(&mut hw, 3, &ep, EndpointType::Bulk, Direction::InOut, false);
    assert_eq!(r.err(), Some(HostError::OutOfSlots));
    assert_eq!(host.allocated_pipes, 0);
    let ok = host
        .alloc_channel(&mut hw, 3, &endpoint(EndpointType::Bulk, 64), EndpointType::Bulk, Direction::In, false)
        .unwrap();
    assert_eq!(ok.index, 1);
}

#[test]
fn out_transfer_completes_with_requested_length() {
    let (mut hw, mut irq, mut host) = connected_host();
    let ch = host
        .alloc_channel(&mut hw, 4, &endpoint(EndpointType::Bulk, 64), EndpointType::Bulk, Direction::Out, false)
        .unwrap();
    let data = vec![9u8, 8, 7];
    let x = ch.begin_write(&mut hw, &mut irq, &data, 10);
    assert_eq!(x.len, 3);
    assert_eq!(tx_bits(&hw, 1), 3);
    let base = ch.buf_out.as_ref().unwrap().addr() as u32;
    assert_eq!(hw.ram[2], base | (3 << 16));
    assert_eq!(hw.ram[(base / 4) as usize], 0x0007_0809);
    assert!(irq.ep_out[1].registered);
    assert_eq!(ch.poll_write(&mut hw, &mut irq, &x, 20), TransferStatus::Pending);
    device_takes_out(&mut hw, 1);
    assert_eq!(ch.poll_write(&mut hw, &mut irq, &x, 30), TransferStatus::Complete(Ok(3)));
}

#[test]
fn in_transfer_returns_bytes_received() {
    let (mut hw, mut irq, mut host) = connected_host();
    let ch = host
        .alloc_channel(&mut hw, 4, &endpoint(EndpointType::Bulk, 64), EndpointType::Bulk, Direction::In, false)
        .unwrap();
    let mut buf = vec![0u8; 16];
    let mut x = ch.begin_read(&mut hw, &mut irq, 0);
    assert_eq!(rx_bits(&hw, 1), 3);
    assert_eq!(ch.poll_read(&mut hw, &mut irq, &mut x, &mut buf, 5), TransferStatus::Pending);
    device_sends_in(&mut hw, &ch, &[1, 2, 3, 4, 5]);
    assert_eq!(ch.poll_read(&mut hw, &mut irq, &mut x, &mut buf, 6), TransferStatus::Complete(Ok(5)));
    assert_eq!(&buf[..6], &[1, 2, 3, 4, 5, 0]);
}

#[test]
fn in_transfer_spans_packets() {
    let (mut hw, mut irq, mut host) = connected_host();
    let ch = host
        .alloc_channel(&mut hw, 4, &endpoint(EndpointType::Bulk, 8), EndpointType::Bulk, Direction::In, false)
        .unwrap();
    let mut buf = vec![0u8; 12];
    let mut x = ch.begin_read(&mut hw, &mut irq, 0);
    device_sends_in(&mut hw, &ch, &[1, 2, 3, 4, 5, 6, 7, 8]);
    assert_eq!(ch.poll_read(&mut hw, &mut irq, &mut x, &mut buf, 1), TransferStatus::Pending);
    assert_eq!(x.count, 8);
    assert_eq!(rx_bits(&hw, 1), 3);
    device_sends_in(&mut hw, &ch, &[9, 10, 11, 12]);
    assert_eq!(ch.poll_read(&mut hw, &mut irq, &mut x, &mut buf, 2), TransferStatus::Complete(Ok(12)));
    assert_eq!(buf, vec![1, 2, 3, 4, 5, 6, 7, 8, 9, 10, 11, 12]);
}

#[test]
fn in_transfer_overflow() {
    let (mut hw, mut irq, mut host) = connected_host();
    let ch = host
        .alloc_channel(&mut hw, 4, &endpoint(EndpointType::Bulk, 64), EndpointType::Bulk, Direction::In, false)
        .unwrap();
    let mut buf = vec![0u8; 4];
    let mut x = ch.begin_read(&mut hw, &mut irq, 0);
    device_sends_in(&mut hw, &ch, &[1, 2, 3, 4, 5, 6]);
    assert_eq!(
        ch.poll_read(&mut hw, &mut irq, &mut x, &mut buf, 1),
        TransferStatus::Complete(Err(ChannelError::BufferOverflow))
    );
    assert_eq!(buf, vec![0, 0, 0, 0]);
}

#[test]
fn transfer_times_out_after_one_second() {
    let (mut hw, mut irq, mut host) = connected_host();
    let ch = host
        .alloc_channel(&mut hw, 4, &endpoint(EndpointType::Bulk, 64), EndpointType::Bulk, Direction::InOut, false)
        .unwrap();
    let x = ch.begin_write(&mut hw, &mut irq, &vec![1u8], 500);
    // Hardware answers NAK forever.
    hw.epr[1] = (hw.epr[1] & !0x0030) | 0x0020;
    assert_eq!(ch.poll_write(&mut hw, &mut irq, &x, 1500), TransferStatus::Pending);
    assert_eq!(
        ch.poll_write(&mut hw, &mut irq, &x, 1501),
        TransferStatus::Complete(Err(ChannelError::Timeout))
    );
    assert_eq!(tx_bits(&hw, 1), 0);

    let mut buf = vec![0u8; 8];
    let mut r = ch.begin_read(&mut hw, &mut irq, 0);
    assert_eq!(ch.poll_read(&mut hw, &mut irq, &mut r, &mut buf, 1000), TransferStatus::Pending);
    assert_eq!(
        ch.poll_read(&mut hw, &mut irq, &mut r, &mut buf, 1001),
        TransferStatus::Complete(Err(ChannelError::Timeout))
    );
    assert_eq!(rx_bits(&hw, 1), 0);
}

#[test]
fn disconnect_wins_over_status() {
    let (mut hw, mut irq, mut host) = connected_host();
    let ch = host
        .alloc_channel(&mut hw, 4, &endpoint(EndpointType::Bulk, 64), EndpointType::Bulk, Direction::InOut, false)
        .unwrap();
    let x = ch.begin_write(&mut hw, &mut irq, &vec![1u8, 2], 0);
    device_takes_out(&mut hw, 1);
    hw.istr = 0;
    assert_eq!(
        ch.poll_write(&mut hw, &mut irq, &x, 1),
        TransferStatus::Complete(Err(ChannelError::Disconnected))
    );
    assert_eq!(tx_bits(&hw, 1), 0);
    let mut buf = vec![0u8; 8];
    let mut r = ch.begin_read(&mut hw, &mut irq, 0);
    assert_eq!(
        ch.poll_read(&mut hw, &mut irq, &mut r, &mut buf, 1),
        TransferStatus::Complete(Err(ChannelError::Disconnected))
    );
    assert_eq!(rx_bits(&hw, 1), 0);
}

#[test]
fn stall_fails_and_disables() {
    let (mut hw, mut irq, mut host) = connected_host();
    let ch = host
        .alloc_channel(&mut hw, 4, &endpoint(EndpointType::Bulk, 64), EndpointType::Bulk, Direction::Out, false)
        .unwrap();
    let x = ch.begin_write(&mut hw, &mut irq, &vec![1u8], 0);
    hw.epr[1] = (hw.epr[1] & !0x0030) | 0x0010;
    assert_eq!(
        ch.poll_write(&mut hw, &mut irq, &x, 1),
        TransferStatus::Complete(Err(ChannelError::Stall))
    );
    assert_eq!(tx_bits(&hw, 1), 0);
}

#[test]
fn control_in_runs_setup_data_status() {
    let (mut hw, mut irq, mut host) = connected_host();
    let ch = host
        .alloc_channel(&mut hw, 0, &endpoint(EndpointType::Control, 64), EndpointType::Control, Direction::InOut, false)
        .unwrap();
    assert_eq!(ch.index, 0);
    let setup = vec![0x80u8, 6, 0, 1, 0, 0, 4, 0];
    let mut buf = vec![0u8; 4];
    let mut x = ch.begin_control(&mut hw, &mut irq, &setup, 0);
    // Setup flag, then an 8-byte OUT.
    assert_ne!(hw.epr[0] & 0x0800, 0);
    assert_eq!(hw.ram[0] >> 16, 8);
    assert_eq!(tx_bits(&hw, 0), 3);
    assert_eq!(ch.poll_control_in(&mut hw, &mut irq, &mut x, &mut buf, 1), TransferStatus::Pending);
    assert_eq!(x.stage, ControlStage::Setup);
    device_takes_out(&mut hw, 0);
    // Data stage: IN of up to 4 bytes.
    assert_eq!(ch.poll_control_in(&mut hw, &mut irq, &mut x, &mut buf, 2), TransferStatus::Pending);
    assert_eq!(x.stage, ControlStage::Data);
    assert_eq!(rx_bits(&hw, 0), 3);
    device_sends_in(&mut hw, &ch, &[0x12, 0x01, 0x00, 0x02]);
    // Status stage: OUT of 0 bytes.
    assert_eq!(ch.poll_control_in(&mut hw, &mut irq, &mut x, &mut buf, 3), TransferStatus::Pending);
    assert_eq!(x.stage, ControlStage::Status);
    assert_eq!(hw.ram[0] >> 16, 0);
    assert_eq!(tx_bits(&hw, 0), 3);
    device_takes_out(&mut hw, 0);
    assert_eq!(ch.poll_control_in(&mut hw, &mut irq, &mut x, &mut buf, 4), TransferStatus::Complete(Ok(4)));
    assert_eq!(buf, vec![0x12, 0x01, 0x00, 0x02]);
    assert_eq!(x.stage, ControlStage::Done(Ok(4)));
}

#[test]
fn control_out_with_and_without_data() {
    let (mut hw, mut irq, mut host) = connected_host();
    let ch = host
        .alloc_channel(&mut hw, 0, &endpoint(EndpointType::Control, 8), EndpointType::Control, Direction::InOut, false)
        .unwrap();
    let setup = vec![0x00u8, 9, 1, 0, 0, 0, 0, 0];
    let empty: Vec<u8> = Vec::new();
    let mut x = ch.begin_control(&mut hw, &mut irq, &setup, 0);
    device_takes_out(&mut hw, 0);
    assert_eq!(ch.poll_control_out(&mut hw, &mut irq, &mut x, &empty, 1), TransferStatus::Pending);
    assert_eq!(x.stage, ControlStage::Status);
    device_sends_in(&mut hw, &ch, &[]);
    assert_eq!(ch.poll_control_out(&mut hw, &mut irq, &mut x, &empty, 2), TransferStatus::Complete(Ok(0)));

    let data = vec![5u8, 6, 7];
    let mut x = ch.begin_control(&mut hw, &mut irq, &setup, 10);
    device_takes_out(&mut hw, 0);
    assert_eq!(ch.poll_control_out(&mut hw, &mut irq, &mut x, &data, 11), TransferStatus::Pending);
    assert_eq!(x.stage, ControlStage::Data);
    assert_eq!(hw.ram[0] >> 16, 3);
    device_takes_out(&mut hw, 0);
    assert_eq!(ch.poll_control_out(&mut hw, &mut irq, &mut x, &data, 12), TransferStatus::Pending);
    assert_eq!(x.stage, ControlStage::Status);
    device_sends_in(&mut hw, &ch, &[]);
    assert_eq!(ch.poll_control_out(&mut hw, &mut irq, &mut x, &data, 13), TransferStatus::Complete(Ok(3)));
}

#[test]
fn control_stage_failure_ends_transfer() {
    let (mut hw, mut irq, mut host) = connected_host();
    let ch = host
        .alloc_channel(&mut hw, 0, &endpoint(EndpointType::Control, 8), EndpointType::Control, Direction::InOut, false)
        .unwrap();
    let setup = vec![0u8; 8];
    let mut buf = vec![0u8; 4];
    let mut x = ch.begin_control(&mut hw, &mut irq, &setup, 0);
    hw.epr[0] = (hw.epr[0] & !0x0030) | 0x0010;
    let r = ch.poll_control_in(&mut hw, &mut irq, &mut x, &mut buf, 1);
    assert_eq!(r, TransferStatus::Complete(Err(ChannelError::Stall)));
    assert_eq!(x.stage, ControlStage::Done(Err(ChannelError::Stall)));
    assert_eq!(ch.poll_control_in(&mut hw, &mut irq, &mut x, &mut buf, 2), r);
}

#[test]
fn interrupt_clears_flags_and_wakes() {
    let mut hw = Peripheral::new();
    let mut irq = USBHostInterruptHandler::new();
    irq.bus.register();
    let mut t = irq.ep_in[2];
    t.register();
    irq.ep_in[2] = t;
    hw.epr[2] = 0x8000 | 0x0200_0000 | 0x3000 | 0x0002;
    hw.istr = ISTR_RESET | ISTR_CTR | ISTR_DCON_STAT | 2;
    irq.on_interrupt(&mut hw);
    assert_eq!(hw.istr, ISTR_CTR | ISTR_DCON_STAT | 2);
    assert_eq!(hw.epr[2], 0x3000 | 0x0002);
    assert!(irq.bus.woken && !irq.bus.registered);
    assert!(irq.ep_in[2].woken);
    assert!(!irq.ep_out[2].woken);
    assert_eq!(irq.ep_in[1], WakeTarget::new());
}

#[test]
fn interrupt_error_flag_cleared_without_status_change() {
    let mut hw = Peripheral::new();
    let mut irq = USBHostInterruptHandler::new();
    hw.epr[3] = 0x2020 | 0x0003;
    hw.istr = ISTR_ERR | ISTR_DCON_STAT | 3;
    irq.on_interrupt(&mut hw);
    assert_eq!(hw.istr, ISTR_DCON_STAT | 3);
    assert_eq!(hw.epr[3], 0x2020 | 0x0003);
    assert!(!irq.bus.woken);
}

#[test]
fn wake_target_arm_fire_consume() {
    let mut t = WakeTarget::new();
    t.wake();
    assert!(!t.woken);
    t.register();
    t.register();
    t.wake();
    assert!(t.woken && !t.registered);
    assert!(t.take_wake());
    assert!(!t.take_wake());
}

#[test]
fn device_event_reports_speed() {
    let mut hw = Peripheral::new();
    let mut irq = USBHostInterruptHandler::new();
    let host = UsbHost::new(&mut hw);
    assert_eq!(host.poll_device_event(&hw, &mut irq), None);
    assert!(irq.bus.registered);
    hw.istr = ISTR_DCON_STAT | ISTR_LS_DCON;
    assert_eq!(host.poll_device_event(&hw, &mut irq), Some(DeviceEvent::Connected(Speed::Low)));
    hw.istr = ISTR_DCON_STAT;
    assert_eq!(host.poll_device_event(&hw, &mut irq), Some(DeviceEvent::Connected(Speed::Full)));
}

#[test]
fn retarget_and_type_codes() {
    assert_eq!(convert_type(EndpointType::Bulk), 0);
    assert_eq!(convert_type(EndpointType::Control), 1);
    assert_eq!(convert_type(EndpointType::Isochronous), 2);
    assert_eq!(convert_type(EndpointType::Interrupt), 3);
    let mut hw = Peripheral::new();
    let ch = Channel::new(5, None, None, 8, 8);
    hw.epr[5] = 0x1010 | 0x0040;
    assert_eq!(ch.retarget_channel(&mut hw, 0x85, &endpoint(EndpointType::Interrupt, 8), false), Ok(()));
    assert_eq!(hw.epr[5], 0x1010 | 0x0040 | (0x05 << 16) | (3 << 9) | 5);
}
