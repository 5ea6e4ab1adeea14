//! Packet-memory geometry and the buffer descriptor table (BTABLE) codec.
//!
//! Packet memory is a window of 32-bit words. The table sits at its start:
//! slot `i` owns word `2 * i` (transmit: address | byte count << 16) and word
//! `2 * i + 1` (receive: address | capacity code << 16, whose low ten bits the
//! hardware fills with the received byte count).
use vstd::prelude::*;

verus! {

/// Number of endpoint register slots.
pub const EP_COUNT: usize = 8;
/// Size of the packet-memory window in bytes.
pub const USBRAM_SIZE: u16 = 1024;
/// Size of the packet-memory window in 32-bit words.
pub const USBRAM_WORDS: usize = 256;
/// Granularity of packet-memory allocation, in bytes.
pub const USBRAM_ALIGN: u16 = 4;
/// Bytes taken by the descriptor table: two words per slot.
pub const BTABLE_BYTES: u16 = 64;

pub open spec fn align_up(len: nat) -> nat {
    (len + 3) / 4 * 4
}

/// Capacity reserved for a receive buffer of `len` requested bytes.
pub open spec fn recv_capacity(len: nat) -> nat {
    if len <= 60 {
        align_up(len)
    } else {
        (len + 31) / 32 * 32
    }
}

/// Capacity code for the upper half of a receive descriptor: two-byte
/// blocks up to 60 bytes, else 32-byte blocks (count minus one) with the
/// block-size flag set.
pub open spec fn recv_len_bits(len: nat) -> nat {
    if len <= 60 {
        align_up(len) / 2 * 1024
    } else {
        (((len + 31) / 32 - 1) * 1024 + 0x8000) as nat
    }
}

/// Capacity in bytes that the hardware reads from a capacity code.
pub open spec fn decode_capacity(bits: u16) -> nat {
    if bits & 0x8000u16 != 0 {
        ((((bits >> 10u16) & 0x1fu16) + 1) * 32) as nat
    } else {
        (((bits >> 10u16) & 0x1fu16) * 2) as nat
    }
}

/// A descriptor word: buffer address in the low half, `field` in the high half.
pub open spec fn descriptor_word(addr: u16, field: u16) -> u32 {
    (addr as u32) | ((field as u32) << 16u32)
}

/// The high half of a descriptor word.
pub open spec fn upper_half(w: u32) -> u16 {
    (w >> 16u32) as u16
}

/// Rounds a byte length up to the allocation granularity.
pub fn align_len_up(len: u16) -> (r: u16)
    requires
        len <= 0xfffc,
    ensures
        r as nat == align_up(len as nat),
        r >= len,
        r % 4 == 0,
{
    let l: u32 = len as u32;
    let r: u32 = (l + 3) / 4 * 4;
    r as u16
}

/// Returns `(capacity, capacity code)` for a receive buffer of `len` bytes.
pub fn calc_receive_len_bits(len: u16) -> (r: (u16, u16))
    requires
        2 <= len <= 1024,
    ensures
        r.0 as nat == recv_capacity(len as nat),
        r.1 as nat == recv_len_bits(len as nat),
{
    if len <= 60 {
        let a = align_len_up(len);
        let x: u16 = a / 2;
        assert(x < 32);
        assert(x << 10u16 == x * 1024) by (bit_vector)
            requires
                x < 32,
        ;
        (a, x << 10)
    } else {
        let n: u16 = (len + 31) / 32;
        let x: u16 = n - 1;
        assert(x < 32);
        assert((x << 10u16) | 0x8000u16 == x * 1024 + 0x8000) by (bit_vector)
            requires
                x < 32,
        ;
        (n * 32, (x << 10) | 0x8000)
    }
}

/// Capacity in bytes encoded by a receive capacity code.
pub fn decode_receive_capacity(bits: u16) -> (r: u16)
    ensures
        r as nat == decode_capacity(bits),
{
    let n: u16 = (bits >> 10) & 0x1f;
    assert(n < 32) by (bit_vector)
        requires
            n == (bits >> 10u16) & 0x1fu16,
    ;
    if bits & 0x8000 != 0 {
        (n + 1) * 32
    } else {
        n * 2
    }
}

proof fn lemma_descriptor_halves(addr: u16, field: u16)
    ensures
        upper_half(descriptor_word(addr, field)) == field,
        descriptor_word(addr, field) & 0xffffu32 == addr as u32,
{
    let a = addr as u32;
    let f = field as u32;
    assert((((a | (f << 16u32)) >> 16u32) as u16) == f as u16 && (a | (f << 16u32)) & 0xffffu32
        == a) by (bit_vector)
        requires
            a < 0x10000,
            f < 0x10000,
    ;
}

/// For every requested length in 2..=1024 the reserved capacity covers the
/// request, the capacity code leaves the received-count field at zero, and
/// the capacity that the hardware decodes from a receive descriptor written
/// with that code, and read back, is exactly the reserved capacity.
pub proof fn lemma_receive_len_round_trip(len: u16, addr: u16)
    requires
        2 <= len <= 1024,
    ensures
        recv_capacity(len as nat) >= len,
        recv_capacity(len as nat) <= 1024,
        recv_len_bits(len as nat) < 0x10000,
        (recv_len_bits(len as nat) as u16) & 0x3ffu16 == 0,
        upper_half(descriptor_word(addr, recv_len_bits(len as nat) as u16)) == recv_len_bits(
            len as nat,
        ) as u16,
        decode_capacity(upper_half(descriptor_word(addr, recv_len_bits(len as nat) as u16)))
            == recv_capacity(len as nat),
{
    let bits = recv_len_bits(len as nat) as u16;
    lemma_descriptor_halves(addr, bits);
    if len <= 60 {
        let x: u16 = (align_up(len as nat) / 2) as u16;
        assert(x < 32);
        assert(x << 10u16 == x * 1024) by (bit_vector)
            requires
                x < 32,
        ;
        assert(bits == x << 10u16);
        assert(bits & 0x8000u16 == 0 && (bits >> 10u16) & 0x1fu16 == x && bits & 0x3ffu16 == 0)
            by (bit_vector)
            requires
                x < 32,
                bits == x << 10u16,
        ;
    } else {
        let x: u16 = ((len + 31) / 32 - 1) as u16;
        assert(x < 32);
        assert((x << 10u16) | 0x8000u16 == x * 1024 + 0x8000) by (bit_vector)
            requires
                x < 32,
        ;
        assert(bits == (x << 10u16) | 0x8000u16);
        assert(bits & 0x8000u16 != 0 && (bits >> 10u16) & 0x1fu16 == x && bits & 0x3ffu16 == 0)
            by (bit_vector)
            requires
                x < 32,
                bits == (x << 10u16) | 0x8000u16,
        ;
    }
}

/// Records the transmit buffer address of slot `index`. With 32-bit packet
/// memory the address is written together with the byte count before each
/// transmission, so nothing is stored here.
pub fn write_in(ram: &mut Vec<u32>, index: usize, addr: u16)
    requires
        index < EP_COUNT,
    ensures
        final(ram)@ == old(ram)@,
{
}

/// Writes the transmit descriptor of slot `index`: buffer address and the
/// exact number of bytes to send.
pub fn write_transmit_buffer_descriptor(ram: &mut Vec<u32>, index: usize, addr: u16, len: u16)
    requires
        index < EP_COUNT,
        old(ram).len() == USBRAM_WORDS,
    ensures
        final(ram)@ == old(ram)@.update(2 * index as int, descriptor_word(addr, len)),
{
    ram.set(index * 2, (addr as u32) | ((len as u32) << 16));
}

/// Writes the receive descriptor of slot `index`: buffer address and
/// capacity code.
pub fn write_receive_buffer_descriptor(
    ram: &mut Vec<u32>,
    index: usize,
    addr: u16,
    max_len_bits: u16,
)
    requires
        index < EP_COUNT,
        old(ram).len() == USBRAM_WORDS,
    ensures
        final(ram)@ == old(ram)@.update(2 * index as int + 1, descriptor_word(addr, max_len_bits)),
{
    ram.set(index * 2 + 1, (addr as u32) | ((max_len_bits as u32) << 16));
}

/// Reads the high half of the receive descriptor of slot `index`; its low
/// ten bits are the byte count of the last reception.
pub fn read_out_len(ram: &Vec<u32>, index: usize) -> (r: u16)
    requires
        index < EP_COUNT,
        ram.len() == USBRAM_WORDS,
    ensures
        r == upper_half(ram@[2 * index + 1]),
{
    (ram[index * 2 + 1] >> 16) as u16
}

} // verus!
