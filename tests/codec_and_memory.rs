use usb_host::{
    align_len_up, calc_receive_len_bits, decode_receive_capacity, epr_invariant, read_out_len,
    rx_stat_write, stat_rx, stat_tx, tx_stat_write, write_in, write_receive_buffer_descriptor,
    write_transmit_buffer_descriptor, EndpointBuffer, EndpointMemory, Stat, USBRAM_WORDS,
};

#[test]
fn receive_len_codec_round_trip_all_lengths() {
    for len in 2u16..=1024 {
        let (cap, bits) = calc_receive_len_bits(len);
        assert!(cap >= len, "capacity {} below {}", cap, len);
        assert_eq!(cap % 4, 0);
        assert_eq!(bits & 0x3ff, 0);
        let mut ram = vec![0u32; USBRAM_WORDS];
        write_receive_buffer_descriptor(&mut ram, 3, 0x0100, bits);
        assert_eq!(ram[7], 0x0100 | ((bits as u32) << 16));
        let back = read_out_len(&ram, 3);
        assert_eq!(back, bits);
        assert_eq!(decode_receive_capacity(back), cap);
    }
}

#[test]
fn receive_len_codec_exact_values() {
    assert_eq!(calc_receive_len_bits(2), (4, 0x0800));
    assert_eq!(calc_receive_len_bits(8), (8, 0x1000));
    assert_eq!(calc_receive_len_bits(60), (60, 0x7800));
    assert_eq!(calc_receive_len_bits(61), (64, 0x8400));
    assert_eq!(calc_receive_len_bits(64), (64, 0x8400));
    assert_eq!(calc_receive_len_bits(65), (96, 0x8800));
    assert_eq!(calc_receive_len_bits(1024), (1024, 0xfc00));
}

#[test]
fn align_len_up_rounds_to_words() {
    assert_eq!(align_len_up(0), 0);
    assert_eq!(align_len_up(1), 4);
    assert_eq!(align_len_up(4), 4);
    assert_eq!(align_len_up(5), 8);
    assert_eq!(align_len_up(63), 64);
}

#[test]
fn transmit_descriptor_word() {
    let mut ram = vec![0u32; USBRAM_WORDS];
    write_transmit_buffer_descriptor(&mut ram, 2, 0x0140, 8);
    assert_eq!(ram[4], 0x0008_0140);
    let before = ram.clone();
    write_in(&mut ram, 2, 0x0180);
    assert_eq!(ram, before);
}

#[test]
fn invariant_image_keeps_everything() {
    assert_eq!(epr_invariant(0), 0x8080);
    assert_eq!(epr_invariant(0xffff), 0x8f8f);
    assert_eq!(epr_invariant(0x0603_3021), 0x0603_8081);
}

#[test]
fn status_toggle_writes() {
    // rx NAK (0b10) to VALID (0b11): flip only the low status bit.
    let cur: u32 = 0x2000 | 0x0001;
    assert_eq!(rx_stat_write(cur, 3), 0x8081 | 0x1000);
    assert_eq!(stat_rx(cur), Stat::Nak);
    // tx STALL (0b01) to DISABLED: flip the low status bit.
    let cur: u32 = 0x0010;
    assert_eq!(tx_stat_write(cur, 0), 0x8080 | 0x0010);
    assert_eq!(stat_tx(cur), Stat::Stall);
    assert_eq!(Stat::from_bits(3), Stat::Valid);
    assert_eq!(Stat::Disabled.to_bits(), 0);
}

#[test]
fn allocator_grants_disjoint_ranges_until_full() {
    let mut m = EndpointMemory::new();
    assert_eq!(m.free(), 64);
    assert_eq!(m.allocate(64), Ok(64));
    assert_eq!(m.allocate(8), Ok(128));
    assert_eq!(m.free(), 136);
    assert_eq!(m.allocate(1024), Err(()));
    assert_eq!(m.free(), 136);
    assert_eq!(m.allocate(888), Ok(136));
    assert_eq!(m.free(), 1024);
    assert_eq!(m.allocate(4), Err(()));
    assert_eq!(m.allocate(0), Ok(1024));
}

#[test]
fn endpoint_buffer_write_then_read() {
    let mut ram = vec![0xffff_ffffu32; USBRAM_WORDS];
    let b = EndpointBuffer::new(64, 8);
    assert_eq!(b.addr(), 64);
    assert_eq!(b.len(), 8);
    b.write(&mut ram, &vec![1, 2, 3, 4, 5]);
    assert_eq!(ram[16], 0x0403_0201);
    assert_eq!(ram[17], 0x0000_0005);
    assert_eq!(ram[18], 0xffff_ffff);
    assert_eq!(ram[15], 0xffff_ffff);
    let mut out = vec![0u8; 7];
    b.read(&ram, &mut out, 1, 5);
    assert_eq!(out, vec![0, 1, 2, 3, 4, 5, 0]);
}
