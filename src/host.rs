//! Channels and the host driver: slot and memory allocation, the register
//! state machine of a single-buffered transfer, and control transfers.
use crate::btable::{
    align_len_up, calc_receive_len_bits, descriptor_word, read_out_len, upper_half, write_in,
    write_receive_buffer_descriptor, write_transmit_buffer_descriptor, align_up, recv_capacity,
    recv_len_bits, BTABLE_BYTES, EP_COUNT, USBRAM_SIZE,
};
use crate::hw::{Peripheral, USBHostInterruptHandler};
use crate::mem::{ram_byte, EndpointBuffer, EndpointMemory};
use crate::regs::{
    epr_after_write, epr_invariant, rx_stat_write, stat_of, stat_rx, stat_rx_bits, stat_tx,
    stat_tx_bits, tx_stat_write, with_stat_rx, with_stat_tx, Stat, CNTR_FRES, CNTR_INIT,
    CNTR_RUN, EPR_SETUP, ISTR_DCON_STAT, ISTR_LS_DCON,
};
use crate::waker::WakeTarget;
use vstd::prelude::*;

verus! {

/// Number of endpoint register slots that channels can use.
pub const USB_MAX_PIPES: usize = 8;
/// Time a single-direction transfer may take, in milliseconds.
pub const TIMEOUT_MS: u64 = 1000;

/// USB endpoint transfer type.
#[derive(Clone, Copy, Debug, PartialEq, Eq, Structural)]
pub enum EndpointType {
    Control,
    Isochronous,
    Bulk,
    Interrupt,
}

/// Directions a channel serves.
#[derive(Clone, Copy, Debug, PartialEq, Eq, Structural)]
pub enum Direction {
    In,
    Out,
    InOut,
}

pub open spec fn is_in(d: Direction) -> bool {
    d != Direction::Out
}

pub open spec fn is_out(d: Direction) -> bool {
    d != Direction::In
}

/// Endpoint of a device as its descriptor gives it.
#[derive(Clone, Copy, Debug, PartialEq, Eq, Structural)]
pub struct EndpointInfo {
    pub addr: u8,
    pub ep_type: EndpointType,
    pub max_packet_size: u16,
    pub interval_ms: u8,
}

/// Why a transfer on a channel failed.
#[derive(Clone, Copy, Debug, PartialEq, Eq, Structural)]
pub enum ChannelError {
    BufferOverflow,
    Stall,
    Timeout,
    Disconnected,
}

/// Why a channel could not be allocated.
#[derive(Clone, Copy, Debug, PartialEq, Eq, Structural)]
pub enum HostError {
    OutOfSlots,
    OutOfChannels,
}

/// Speed of a connected device.
#[derive(Clone, Copy, Debug, PartialEq, Eq, Structural)]
pub enum Speed {
    Low,
    Full,
}

/// Bus-level event.
#[derive(Clone, Copy, Debug, PartialEq, Eq, Structural)]
pub enum DeviceEvent {
    Connected(Speed),
    Disconnected,
}

/// Where a transfer stands after one poll.
#[derive(Clone, Copy, Debug, PartialEq, Eq)]
pub enum TransferStatus {
    Pending,
    Complete(Result<usize, ChannelError>),
}

/// Endpoint type code of the EP_TYPE register field.
pub open spec fn ep_type_code(t: EndpointType) -> u32 {
    match t {
        EndpointType::Bulk => 0,
        EndpointType::Control => 1,
        EndpointType::Isochronous => 2,
        EndpointType::Interrupt => 3,
    }
}

pub fn convert_type(t: EndpointType) -> (r: u32)
    ensures
        r == ep_type_code(t),
{
    match t {
        EndpointType::Bulk => 0,
        EndpointType::Control => 1,
        EndpointType::Isochronous => 2,
        EndpointType::Interrupt => 3,
    }
}

/// An endpoint register pointed at device `addr`, transfer type code `t`
/// and endpoint number `i`; everything else kept.
pub open spec fn retargeted(e: u32, addr: u8, t: u32, i: u32) -> u32 {
    (e & !0x007f_060fu32) | (((addr as u32) & 0x7fu32) << 16u32) | (t << 9u32) | i
}

/// The peripheral apart from its endpoint registers and packet memory.
pub open spec fn same_control(a: &Peripheral, b: &Peripheral) -> bool {
    &&& a.cntr == b.cntr
    &&& a.istr == b.istr
    &&& a.btable == b.btable
}

/// One channel: an endpoint register slot and the packet-memory buffers of
/// the directions it serves.
pub struct Channel {
    /// Register slot (0 for the control channel).
    pub index: usize,
    pub max_packet_size_in: u16,
    pub max_packet_size_out: u16,
    pub buf_in: Option<EndpointBuffer>,
    pub buf_out: Option<EndpointBuffer>,
}

/// Packet memory after `data` was loaded into the transmit buffer of `ch`
/// and its transmit descriptor set to the length of `data`.
pub open spec fn tx_loaded(ch: &Channel, before: Seq<u32>, after: Seq<u32>, data: Seq<u8>) -> bool {
    match ch.buf_out {
        Some(b) => {
            &&& after.len() == before.len()
            &&& forall|k: int| 0 <= k < data.len() ==> ram_byte(after, b.base() + k) == data[k]
            &&& after[2 * ch.index] == descriptor_word(b.base() as u16, data.len() as u16)
            &&& forall|w: int|
                0 <= w < before.len() && w != 2 * ch.index && !(b.base() / 4 <= w < b.base() / 4 + (
                data.len() + 3) / 4) ==> after[w] == before[w]
        },
        None => after == before,
    }
}

impl Channel {
    pub open spec fn wf(&self) -> bool {
        &&& self.index < EP_COUNT
        &&& self.buf_in matches Some(b) ==> b.wf() && b.base() >= BTABLE_BYTES
        &&& self.buf_out matches Some(b) ==> b.wf() && b.base() >= BTABLE_BYTES
    }

    pub fn new(
        index: usize,
        buf_in: Option<EndpointBuffer>,
        buf_out: Option<EndpointBuffer>,
        max_packet_size_in: u16,
        max_packet_size_out: u16,
    ) -> (c: Self)
        ensures
            c.index == index,
            c.buf_in == buf_in,
            c.buf_out == buf_out,
            c.max_packet_size_in == max_packet_size_in,
            c.max_packet_size_out == max_packet_size_out,
    {
        Channel { index, max_packet_size_in, max_packet_size_out, buf_in, buf_out }
    }

    /// Sets the receive status of this slot to VALID.
    pub fn activate_rx(&self, hw: &mut Peripheral)
        requires
            self.wf(),
            old(hw).wf(),
        ensures
            final(hw).wf(),
            same_control(final(hw), old(hw)),
            final(hw).ram@ == old(hw).ram@,
            final(hw).epr@ == old(hw).epr@.update(
                self.index as int,
                with_stat_rx(old(hw).epr@[self.index as int], 3),
            ),
    {
        let w = rx_stat_write(hw.epr[self.index], 3);
        hw.write_epr(self.index, w);
    }

    /// Sets the transmit status of this slot to VALID.
    pub fn activate_tx(&self, hw: &mut Peripheral)
        requires
            self.wf(),
            old(hw).wf(),
        ensures
            final(hw).wf(),
            same_control(final(hw), old(hw)),
            final(hw).ram@ == old(hw).ram@,
            final(hw).epr@ == old(hw).epr@.update(
                self.index as int,
                with_stat_tx(old(hw).epr@[self.index as int], 3),
            ),
    {
        let w = tx_stat_write(hw.epr[self.index], 3);
        hw.write_epr(self.index, w);
    }

    /// Sets the receive status of this slot to DISABLED.
    pub fn disable_rx(&self, hw: &mut Peripheral)
        requires
            self.wf(),
            old(hw).wf(),
        ensures
            final(hw).wf(),
            same_control(final(hw), old(hw)),
            final(hw).ram@ == old(hw).ram@,
            final(hw).epr@ == old(hw).epr@.update(
                self.index as int,
                with_stat_rx(old(hw).epr@[self.index as int], 0),
            ),
    {
        let w = rx_stat_write(hw.epr[self.index], 0);
        hw.write_epr(self.index, w);
    }

    /// Sets the transmit status of this slot to DISABLED.
    pub fn disable_tx(&self, hw: &mut Peripheral)
        requires
            self.wf(),
            old(hw).wf(),
        ensures
            final(hw).wf(),
            same_control(final(hw), old(hw)),
            final(hw).ram@ == old(hw).ram@,
            final(hw).epr@ == old(hw).epr@.update(
                self.index as int,
                with_stat_tx(old(hw).epr@[self.index as int], 0),
            ),
    {
        let w = tx_stat_write(hw.epr[self.index], 0);
        hw.write_epr(self.index, w);
    }

    /// Points the slot at device `addr` and the transfer type of `endpoint`,
    /// keeping status, toggle and completion bits. The low-speed preamble
    /// flag `pre` needs no register setting on this peripheral.
    pub fn retarget_channel(
        &self,
        hw: &mut Peripheral,
        addr: u8,
        endpoint: &EndpointInfo,
        pre: bool,
    ) -> (r: Result<(), HostError>)
        requires
            self.wf(),
            old(hw).wf(),
        ensures
            r is Ok,
            final(hw).wf(),
            same_control(final(hw), old(hw)),
            final(hw).ram@ == old(hw).ram@,
            final(hw).epr@ == old(hw).epr@.update(
                self.index as int,
                retargeted(
                    old(hw).epr@[self.index as int],
                    addr,
                    ep_type_code(endpoint.ep_type),
                    self.index as u32,
                ),
            ),
    {
        let i = self.index;
        let e = hw.epr[i];
        let t = convert_type(endpoint.ep_type);
        let a: u32 = (addr as u32) & 0x7f;
        let iu: u32 = i as u32;
        let w = (epr_invariant(e) & !0x007f_060f) | (a << 16) | (t << 9) | iu;
        proof {
            assert(epr_after_write(e, w) == retargeted(e, addr, t, iu)) by {
                let x = addr as u32;
                assert((((((e | 0x8080u32) & !0x7070u32) & !0x007f_060fu32) | (a << 16u32) | (t
                    << 9u32) | iu) & !0x0600_f0f0u32) | ((e ^ ((((e | 0x8080u32) & !0x7070u32)
                    & !0x007f_060fu32) | (a << 16u32) | (t << 9u32) | iu)) & 0x7070u32) | (e & ((((e
                    | 0x8080u32) & !0x7070u32) & !0x007f_060fu32) | (a << 16u32) | (t << 9u32) | iu)
                    & 0x0600_8080u32) == (e & !0x007f_060fu32) | ((x & 0x7fu32) << 16u32) | (t
                    << 9u32) | iu) by (bit_vector)
                    requires
                        a == x & 0x7fu32,
                        t < 4,
                        iu < 16,
                ;
            }
        }
        hw.write_epr(i, w);
        Ok(())
    }

    /// Loads `buf` into the transmit buffer and sets the transmit descriptor
    /// to its length; a channel without one writes nothing.
    pub fn write_data(&self, hw: &mut Peripheral, buf: &Vec<u8>)
        requires
            self.wf(),
            old(hw).wf(),
            self.buf_out matches Some(b) ==> buf.len() <= b.size(),
        ensures
            final(hw).wf(),
            same_control(final(hw), old(hw)),
            final(hw).epr@ == old(hw).epr@,
            tx_loaded(self, old(hw).ram@, final(hw).ram@, buf@),
    {
        match &self.buf_out {
            Some(b) => {
                b.write(&mut hw.ram, buf);
                let ghost mid = hw.ram@;
                write_transmit_buffer_descriptor(&mut hw.ram, self.index, b.addr(), buf.len() as u16);
                proof {
                    assert forall|k: int| 0 <= k < buf.len() implies ram_byte(
                        hw.ram@,
                        b.base() + k,
                    ) == buf@[k] by {
                        assert((b.base() + k) / 4 >= 16);
                        assert(ram_byte(hw.ram@, b.base() + k) == ram_byte(mid, b.base() + k));
                    }
                }
            },
            None => {},
        }
    }

    /// Copies the bytes of the last reception into `buf[start..]` and
    /// returns how many there were; fails with `BufferOverflow`, copying
    /// nothing, when they do not fit there or exceed the receive buffer.
    pub fn read_data(&self, hw: &Peripheral, buf: &mut Vec<u8>, start: usize) -> (r: Result<
        usize,
        ChannelError,
    >)
        requires
            self.wf(),
            hw.wf(),
            self.buf_in is Some,
            start <= old(buf).len(),
        ensures
            final(buf).len() == old(buf).len(),
            ({
                let rx = rx_count(hw, self.index);
                let b = self.buf_in->Some_0;
                if rx > old(buf).len() - start || rx > b.size() {
                    r == Err::<usize, ChannelError>(ChannelError::BufferOverflow) && final(buf)@
                        == old(buf)@
                } else {
                    &&& r == Ok::<usize, ChannelError>(rx as usize)
                    &&& forall|k: int|
                        0 <= k < final(buf).len() ==> final(buf)@[k] == if start <= k < start
                            + rx {
                            ram_byte(hw.ram@, b.base() + k - start)
                        } else {
                            old(buf)@[k]
                        }
                }
            }),
    {
        let rx_len: usize = (read_out_len(&hw.ram, self.index) & 0x3ff) as usize;
        let b = self.buf_in.as_ref().unwrap();
        if rx_len > buf.len() - start || rx_len > b.len() as usize {
            return Err(ChannelError::BufferOverflow);
        }
        b.read(&hw.ram, buf, start, rx_len);
        Ok(rx_len)
    }
}

/// Byte count of the last reception on slot `i`, as the hardware left it in
/// the receive descriptor.
pub open spec fn rx_count(hw: &Peripheral, i: usize) -> int {
    (upper_half(hw.ram@[2 * i + 1]) & 0x3ffu16) as int
}

/// An OUT transfer in flight: its byte count and when it started.
#[derive(Clone, Copy, Debug, PartialEq, Eq, Structural)]
pub struct OutTransfer {
    pub len: usize,
    pub started_ms: u64,
}

/// An IN transfer in flight: bytes received so far and when it started.
#[derive(Clone, Copy, Debug, PartialEq, Eq, Structural)]
pub struct InTransfer {
    pub count: usize,
    pub started_ms: u64,
}

/// Milliseconds from `t0` to `now` on a clock that does not go back.
pub open spec fn elapsed_ms(now: u64, t0: u64) -> int {
    if now >= t0 {
        now - t0
    } else {
        0
    }
}

pub open spec fn timed_out(now: u64, t0: u64) -> bool {
    elapsed_ms(now, t0) > TIMEOUT_MS
}

/// A device is present on the bus.
pub open spec fn connected(istr: u32) -> bool {
    istr & 0x2000_0000u32 != 0
}

/// A wake target armed by its waiter.
pub open spec fn armed(t: WakeTarget) -> WakeTarget {
    WakeTarget { registered: true, woken: t.woken }
}

/// `h` after the waiter of direction IN (`dir_in`) or OUT of slot `i` armed
/// its target.
pub open spec fn armed_at(h: &USBHostInterruptHandler, g: &USBHostInterruptHandler, i: int, dir_in: bool) -> bool {
    &&& g.wf()
    &&& g.bus == h.bus
    &&& if dir_in {
        g.ep_in@ == h.ep_in@.update(i, armed(h.ep_in@[i])) && g.ep_out@ == h.ep_out@
    } else {
        g.ep_out@ == h.ep_out@.update(i, armed(h.ep_out@[i])) && g.ep_in@ == h.ep_in@
    }
}

/// Result of one poll of an OUT transfer of `len` bytes, from the bus
/// status `istr`, the slot's register `e` and whether the deadline passed:
/// a lost device fails with `Disconnected` whatever the status, then a
/// passed deadline with `Timeout`; DISABLED means all `len` bytes went out,
/// STALL fails with `Stall`, NAK and VALID keep waiting.
pub open spec fn out_poll_status(istr: u32, e: u32, late: bool, len: usize) -> TransferStatus {
    if !connected(istr) {
        TransferStatus::Complete(Err(ChannelError::Disconnected))
    } else if late {
        TransferStatus::Complete(Err(ChannelError::Timeout))
    } else {
        match stat_of(stat_tx_bits(e)) {
            Stat::Disabled => TransferStatus::Complete(Ok(len)),
            Stat::Stall => TransferStatus::Complete(Err(ChannelError::Stall)),
            _ => TransferStatus::Pending,
        }
    }
}

/// The slot's register after that poll: the transmit direction is disabled
/// on every failure and left alone otherwise.
pub open spec fn out_poll_epr(istr: u32, e: u32, late: bool) -> u32 {
    if !connected(istr) || late || stat_of(stat_tx_bits(e)) == Stat::Stall {
        with_stat_tx(e, 0)
    } else {
        e
    }
}

impl Channel {
    /// Loads `buf`, arms the OUT wake target and sets the transmit status
    /// to VALID: the start of an OUT transfer.
    pub fn begin_write(
        &self,
        hw: &mut Peripheral,
        irq: &mut USBHostInterruptHandler,
        buf: &Vec<u8>,
        now_ms: u64,
    ) -> (x: OutTransfer)
        requires
            self.wf(),
            old(hw).wf(),
            old(irq).wf(),
            self.buf_out matches Some(b) ==> buf.len() <= b.size(),
        ensures
            x == (OutTransfer { len: buf.len(), started_ms: now_ms }),
            final(hw).wf(),
            same_control(final(hw), old(hw)),
            tx_loaded(self, old(hw).ram@, final(hw).ram@, buf@),
            final(hw).epr@ == old(hw).epr@.update(
                self.index as int,
                with_stat_tx(old(hw).epr@[self.index as int], 3),
            ),
            armed_at(old(irq), final(irq), self.index as int, false),
    {
        self.write_data(hw, buf);
        let mut t = irq.ep_out[self.index];
        t.register();
        irq.ep_out.set(self.index, t);
        self.activate_tx(hw);
        OutTransfer { len: buf.len(), started_ms: now_ms }
    }

    /// Arms the IN wake target and sets the receive status to VALID: the
    /// start of an IN transfer.
    pub fn begin_read(&self, hw: &mut Peripheral, irq: &mut USBHostInterruptHandler, now_ms: u64) -> (x:
        InTransfer)
        requires
            self.wf(),
            old(hw).wf(),
            old(irq).wf(),
        ensures
            x == (InTransfer { count: 0, started_ms: now_ms }),
            final(hw).wf(),
            same_control(final(hw), old(hw)),
            final(hw).ram@ == old(hw).ram@,
            final(hw).epr@ == old(hw).epr@.update(
                self.index as int,
                with_stat_rx(old(hw).epr@[self.index as int], 3),
            ),
            armed_at(old(irq), final(irq), self.index as int, true),
    {
        let mut t = irq.ep_in[self.index];
        t.register();
        irq.ep_in.set(self.index, t);
        self.activate_rx(hw);
        InTransfer { count: 0, started_ms: now_ms }
    }

    /// One poll of an OUT transfer, run whenever its waiter resumes: re-arms
    /// the wake target, then checks the bus, the deadline and the transmit
    /// status.
    pub fn poll_write(
        &self,
        hw: &mut Peripheral,
        irq: &mut USBHostInterruptHandler,
        xfer: &OutTransfer,
        now_ms: u64,
    ) -> (r: TransferStatus)
        requires
            self.wf(),
            old(hw).wf(),
            old(irq).wf(),
        ensures
            final(hw).wf(),
            same_control(final(hw), old(hw)),
            final(hw).ram@ == old(hw).ram@,
            armed_at(old(irq), final(irq), self.index as int, false),
            r == out_poll_status(
                old(hw).istr,
                old(hw).epr@[self.index as int],
                timed_out(now_ms, xfer.started_ms),
                xfer.len,
            ),
            final(hw).epr@ == old(hw).epr@.update(
                self.index as int,
                out_poll_epr(
                    old(hw).istr,
                    old(hw).epr@[self.index as int],
                    timed_out(now_ms, xfer.started_ms),
                ),
            ),
    {
        let i = self.index;
        let mut t = irq.ep_out[i];
        t.register();
        irq.ep_out.set(i, t);
        let ghost e = hw.epr@[i as int];
        if hw.istr & ISTR_DCON_STAT == 0 {
            self.disable_tx(hw);
            return TransferStatus::Complete(Err(ChannelError::Disconnected));
        }
        let el: u64 = if now_ms >= xfer.started_ms {
            now_ms - xfer.started_ms
        } else {
            0
        };
        if el > TIMEOUT_MS {
            self.disable_tx(hw);
            return TransferStatus::Complete(Err(ChannelError::Timeout));
        }
        match stat_tx(hw.epr[i]) {
            Stat::Disabled => {
                assert(hw.epr@ == hw.epr@.update(i as int, e));
                TransferStatus::Complete(Ok(xfer.len))
            },
            Stat::Stall => {
                self.disable_tx(hw);
                TransferStatus::Complete(Err(ChannelError::Stall))
            },
            _ => {
                assert(hw.epr@ == hw.epr@.update(i as int, e));
                TransferStatus::Pending
            },
        }
    }

    /// One poll of an IN transfer into `buf`, run whenever its waiter
    /// resumes. After the bus, deadline and status checks of an OUT poll, a
    /// DISABLED receive status means a packet arrived: it is appended to
    /// `buf` at `xfer.count`; the transfer ends when `buf` is full or the
    /// packet was shorter than the maximum packet size, else the receive
    /// direction is activated again for the next packet.
    pub fn poll_read(
        &self,
        hw: &mut Peripheral,
        irq: &mut USBHostInterruptHandler,
        xfer: &mut InTransfer,
        buf: &mut Vec<u8>,
        now_ms: u64,
    ) -> (r: TransferStatus)
        requires
            self.wf(),
            self.buf_in is Some,
            old(hw).wf(),
            old(irq).wf(),
            old(xfer).count <= old(buf).len(),
        ensures
            final(hw).wf(),
            same_control(final(hw), old(hw)),
            final(hw).ram@ == old(hw).ram@,
            armed_at(old(irq), final(irq), self.index as int, true),
            final(buf).len() == old(buf).len(),
            final(xfer).started_ms == old(xfer).started_ms,
            final(xfer).count <= final(buf).len(),
            r == in_poll_status(
                old(hw).istr,
                old(hw).epr@[self.index as int],
                timed_out(now_ms, old(xfer).started_ms),
                rx_count(old(hw), self.index),
                old(xfer).count as int,
                old(buf).len() as int,
                self.buf_in->Some_0.size(),
                self.max_packet_size_in as int,
            ),
            ({
                let i = self.index as int;
                let e = old(hw).epr@[i];
                let istr = old(hw).istr;
                let c = old(xfer).count;
                let n = old(buf).len();
                let b = self.buf_in->Some_0;
                let rx = rx_count(old(hw), self.index);
                let unchanged = final(buf)@ == old(buf)@ && *final(xfer) == *old(xfer);
                if !connected(istr) {
                    &&& r == TransferStatus::Complete(Err(ChannelError::Disconnected))
                    &&& final(hw).epr@ == old(hw).epr@.update(i, with_stat_rx(e, 0))
                    &&& unchanged
                } else if timed_out(now_ms, old(xfer).started_ms) {
                    &&& r == TransferStatus::Complete(Err(ChannelError::Timeout))
                    &&& final(hw).epr@ == old(hw).epr@.update(i, with_stat_rx(e, 0))
                    &&& unchanged
                } else if stat_of(stat_rx_bits(e)) == Stat::Stall {
                    &&& r == TransferStatus::Complete(Err(ChannelError::Stall))
                    &&& final(hw).epr@ == old(hw).epr@.update(i, with_stat_rx(e, 0))
                    &&& unchanged
                } else if stat_of(stat_rx_bits(e)) != Stat::Disabled {
                    &&& r == TransferStatus::Pending
                    &&& final(hw).epr@ == old(hw).epr@
                    &&& unchanged
                } else if rx > n - c || rx > b.size() {
                    &&& r == TransferStatus::Complete(Err(ChannelError::BufferOverflow))
                    &&& final(hw).epr@ == old(hw).epr@
                    &&& unchanged
                } else {
                    &&& final(xfer).count == c + rx
                    &&& forall|k: int|
                        0 <= k < n ==> final(buf)@[k] == if c <= k < c + rx {
                            ram_byte(old(hw).ram@, b.base() + k - c)
                        } else {
                            old(buf)@[k]
                        }
                    &&& if c + rx == n || rx < self.max_packet_size_in {
                        &&& r == TransferStatus::Complete(Ok((c + rx) as usize))
                        &&& final(hw).epr@ == old(hw).epr@
                    } else {
                        &&& r == TransferStatus::Pending
                        &&& final(hw).epr@ == old(hw).epr@.update(i, with_stat_rx(e, 3))
                    }
                }
            }),
    {
        let i = self.index;
        let mut t = irq.ep_in[i];
        t.register();
        irq.ep_in.set(i, t);
        if hw.istr & ISTR_DCON_STAT == 0 {
            self.disable_rx(hw);
            return TransferStatus::Complete(Err(ChannelError::Disconnected));
        }
        let el: u64 = if now_ms >= xfer.started_ms {
            now_ms - xfer.started_ms
        } else {
            0
        };
        if el > TIMEOUT_MS {
            self.disable_rx(hw);
            return TransferStatus::Complete(Err(ChannelError::Timeout));
        }
        match stat_rx(hw.epr[i]) {
            Stat::Disabled => {
                let n = match self.read_data(hw, buf, xfer.count) {
                    Ok(n) => n,
                    Err(err) => {
                        return TransferStatus::Complete(Err(err));
                    },
                };
                xfer.count = xfer.count + n;
                if xfer.count == buf.len() || n < self.max_packet_size_in as usize {
                    TransferStatus::Complete(Ok(xfer.count))
                } else {
                    self.activate_rx(hw);
                    TransferStatus::Pending
                }
            },
            Stat::Stall => {
                self.disable_rx(hw);
                TransferStatus::Complete(Err(ChannelError::Stall))
            },
            _ => TransferStatus::Pending,
        }
    }
}

/// Result of one poll of an IN transfer that has `count` of `len` bytes,
/// with `rx` bytes in the last reception, a receive buffer of `cap` bytes
/// and packets of at most `mps` bytes. The bus, deadline and stall checks
/// are those of an OUT poll; after a reception that does not fit the
/// transfer ends when it is full or the packet was short.
pub open spec fn in_poll_status(
    istr: u32,
    e: u32,
    late: bool,
    rx: int,
    count: int,
    len: int,
    cap: int,
    mps: int,
) -> TransferStatus {
    if !connected(istr) {
        TransferStatus::Complete(Err(ChannelError::Disconnected))
    } else if late {
        TransferStatus::Complete(Err(ChannelError::Timeout))
    } else if stat_of(stat_rx_bits(e)) == Stat::Stall {
        TransferStatus::Complete(Err(ChannelError::Stall))
    } else if stat_of(stat_rx_bits(e)) != Stat::Disabled {
        TransferStatus::Pending
    } else if rx > len - count || rx > cap {
        TransferStatus::Complete(Err(ChannelError::BufferOverflow))
    } else if count + rx == len || rx < mps {
        TransferStatus::Complete(Ok((count + rx) as usize))
    } else {
        TransferStatus::Pending
    }
}

/// Stage of a control transfer: setup packet out, optional data stage,
/// zero-length status stage in the opposite direction, then the outcome.
#[derive(Clone, Copy, Debug, PartialEq, Eq)]
pub enum ControlStage {
    Setup,
    Data,
    Status,
    Done(Result<usize, ChannelError>),
}

/// A control transfer in flight.
#[derive(Clone, Copy, Debug, PartialEq, Eq)]
pub struct ControlTransfer {
    pub stage: ControlStage,
    /// The current OUT stage.
    pub out: OutTransfer,
    /// The current IN stage.
    pub inp: InTransfer,
    /// Bytes received in the data stage of a control-in transfer.
    pub count: usize,
}

/// Outcome of one stage poll: `Some(Ok(n))` when the stage completed with
/// `n` bytes, `Some(Err(_))` when it failed, `None` while it is pending.
pub open spec fn stage_result(s: TransferStatus) -> Option<Result<usize, ChannelError>> {
    match s {
        TransferStatus::Pending => None,
        TransferStatus::Complete(r) => Some(r),
    }
}

impl Channel {
    /// Marks the slot's next transaction as a setup packet and sends the
    /// eight-byte `setup`: the start of a control transfer.
    pub fn begin_control(
        &self,
        hw: &mut Peripheral,
        irq: &mut USBHostInterruptHandler,
        setup: &Vec<u8>,
        now_ms: u64,
    ) -> (x: ControlTransfer)
        requires
            self.wf(),
            old(hw).wf(),
            old(irq).wf(),
            setup.len() == 8,
            self.buf_out matches Some(b) ==> 8 <= b.size(),
        ensures
            x.stage == ControlStage::Setup,
            x.out == (OutTransfer { len: 8, started_ms: now_ms }),
            x.inp.count == 0,
            x.count == 0,
            final(hw).wf(),
            same_control(final(hw), old(hw)),
            tx_loaded(self, old(hw).ram@, final(hw).ram@, setup@),
            final(hw).epr@ == old(hw).epr@.update(
                self.index as int,
                with_stat_tx(old(hw).epr@[self.index as int] | EPR_SETUP, 3),
            ),
            armed_at(old(irq), final(irq), self.index as int, false),
    {
        let i = self.index;
        let e = hw.epr[i];
        let w = epr_invariant(e) | EPR_SETUP;
        proof {
            assert(((((e | 0x8080u32) & !0x7070u32) | 0x0800u32) & !0x0600_f0f0u32) | ((e ^ (((e
                | 0x8080u32) & !0x7070u32) | 0x0800u32)) & 0x7070u32) | (e & (((e | 0x8080u32)
                & !0x7070u32) | 0x0800u32) & 0x0600_8080u32) == e | 0x0800u32) by (bit_vector);
        }
        hw.write_epr(i, w);
        let out = self.begin_write(hw, irq, setup, now_ms);
        ControlTransfer {
            stage: ControlStage::Setup,
            out,
            inp: InTransfer { count: 0, started_ms: now_ms },
            count: 0,
        }
    }

    /// One poll of a control-in transfer reading into `buf`. Setup stage
    /// done: the data stage reads into `buf`. Data stage done with `n`
    /// bytes: a zero-length status packet goes out. Status stage done: the
    /// transfer returns `n`. A failed stage ends the transfer with its error.
    pub fn poll_control_in(
        &self,
        hw: &mut Peripheral,
        irq: &mut USBHostInterruptHandler,
        xfer: &mut ControlTransfer,
        buf: &mut Vec<u8>,
        now_ms: u64,
    ) -> (r: TransferStatus)
        requires
            self.wf(),
            self.buf_in is Some,
            self.buf_out is Some,
            old(hw).wf(),
            old(irq).wf(),
            old(xfer).inp.count <= old(buf).len(),
        ensures
            final(hw).wf(),
            final(irq).wf(),
            final(buf).len() == old(buf).len(),
            final(xfer).inp.count <= final(buf).len(),
            ({
                let i = self.index as int;
                let e = old(hw).epr@[i];
                let x = *old(xfer);
                match x.stage {
                    ControlStage::Setup => {
                        let s = out_poll_status(
                            old(hw).istr,
                            e,
                            timed_out(now_ms, x.out.started_ms),
                            x.out.len,
                        );
                        match stage_result(s) {
                            None => r == TransferStatus::Pending && final(xfer).stage == x.stage,
                            Some(Err(err)) => r == s && final(xfer).stage == ControlStage::Done(
                                Err(err),
                            ),
                            Some(Ok(_)) => {
                                &&& r == TransferStatus::Pending
                                &&& final(xfer).stage == ControlStage::Data
                                &&& final(xfer).inp == (InTransfer { count: 0, started_ms: now_ms })
                                &&& stat_rx_bits(final(hw).epr@[i]) == 3
                            },
                        }
                    },
                    ControlStage::Data => {
                        let s = in_poll_status(
                            old(hw).istr,
                            e,
                            timed_out(now_ms, x.inp.started_ms),
                            rx_count(old(hw), self.index),
                            x.inp.count as int,
                            old(buf).len() as int,
                            self.buf_in->Some_0.size(),
                            self.max_packet_size_in as int,
                        );
                        &&& forall|k: int|
                            0 <= k < old(buf).len() ==> final(buf)@[k] == if x.inp.count <= k
                                < final(xfer).inp.count {
                                ram_byte(old(hw).ram@, self.buf_in->Some_0.base() + k - x.inp.count)
                            } else {
                                old(buf)@[k]
                            }
                        &&& match stage_result(s) {
                            None => r == TransferStatus::Pending && final(xfer).stage == x.stage,
                            Some(Err(err)) => r == s && final(xfer).stage == ControlStage::Done(
                                Err(err),
                            ),
                            Some(Ok(n)) => {
                                &&& r == TransferStatus::Pending
                                &&& final(xfer).stage == ControlStage::Status
                                &&& final(xfer).count == n
                                &&& final(xfer).out == (OutTransfer { len: 0, started_ms: now_ms })
                                &&& stat_tx_bits(final(hw).epr@[i]) == 3
                            },
                        }
                    },
                    ControlStage::Status => {
                        let s = out_poll_status(
                            old(hw).istr,
                            e,
                            timed_out(now_ms, x.out.started_ms),
                            x.out.len,
                        );
                        match stage_result(s) {
                            None => r == TransferStatus::Pending && final(xfer).stage == x.stage,
                            Some(Err(err)) => r == s && final(xfer).stage == ControlStage::Done(
                                Err(err),
                            ),
                            Some(Ok(_)) => {
                                &&& r == TransferStatus::Complete(Ok(x.count))
                                &&& final(xfer).stage == ControlStage::Done(Ok(x.count))
                            },
                        }
                    },
                    ControlStage::Done(res) => {
                        &&& r == TransferStatus::Complete(res)
                        &&& *final(xfer) == x
                        &&& final(hw).epr@ == old(hw).epr@
                        &&& final(buf)@ == old(buf)@
                    },
                }
            }),
    {
        match xfer.stage {
            ControlStage::Setup => {
                let out = xfer.out;
                match self.poll_write(hw, irq, &out, now_ms) {
                    TransferStatus::Pending => TransferStatus::Pending,
                    TransferStatus::Complete(Err(err)) => {
                        xfer.stage = ControlStage::Done(Err(err));
                        TransferStatus::Complete(Err(err))
                    },
                    TransferStatus::Complete(Ok(_)) => {
                        let ghost before = hw.epr@[self.index as int];
                        xfer.inp = self.begin_read(hw, irq, now_ms);
                        xfer.stage = ControlStage::Data;
                        proof {
                            lemma_status_reads_back(before, 3);
                        }
                        TransferStatus::Pending
                    },
                }
            },
            ControlStage::Data => {
                let mut inp = xfer.inp;
                let r = self.poll_read(hw, irq, &mut inp, buf, now_ms);
                xfer.inp = inp;
                match r {
                    TransferStatus::Pending => TransferStatus::Pending,
                    TransferStatus::Complete(Err(err)) => {
                        xfer.stage = ControlStage::Done(Err(err));
                        TransferStatus::Complete(Err(err))
                    },
                    TransferStatus::Complete(Ok(n)) => {
                        xfer.count = n;
                        let zero: Vec<u8> = Vec::new();
                        let ghost before = hw.epr@[self.index as int];
                        xfer.out = self.begin_write(hw, irq, &zero, now_ms);
                        xfer.stage = ControlStage::Status;
                        proof {
                            lemma_status_reads_back(before, 3);
                        }
                        TransferStatus::Pending
                    },
                }
            },
            ControlStage::Status => {
                let out = xfer.out;
                match self.poll_write(hw, irq, &out, now_ms) {
                    TransferStatus::Pending => TransferStatus::Pending,
                    TransferStatus::Complete(Err(err)) => {
                        xfer.stage = ControlStage::Done(Err(err));
                        TransferStatus::Complete(Err(err))
                    },
                    TransferStatus::Complete(Ok(_)) => {
                        xfer.stage = ControlStage::Done(Ok(xfer.count));
                        TransferStatus::Complete(Ok(xfer.count))
                    },
                }
            },
            ControlStage::Done(res) => TransferStatus::Complete(res),
        }
    }
}

/// A status field written through `with_stat_rx` / `with_stat_tx` reads
/// back as the value written, and the other direction's field is kept: so
/// after a failed poll the direction reads DISABLED, and after an
/// activation VALID.
pub proof fn lemma_status_reads_back(e: u32, t: u32)
    requires
        t < 4,
    ensures
        stat_rx_bits(with_stat_rx(e, t)) == t,
        stat_tx_bits(with_stat_tx(e, t)) == t,
        stat_tx_bits(with_stat_rx(e, t)) == stat_tx_bits(e),
        stat_rx_bits(with_stat_tx(e, t)) == stat_rx_bits(e),
{
    assert((((e & !0x3000u32) | (t << 12u32)) >> 12u32) & 3u32 == t) by (bit_vector)
        requires
            t < 4,
    ;
    assert((((e & !0x0030u32) | (t << 4u32)) >> 4u32) & 3u32 == t) by (bit_vector)
        requires
            t < 4,
    ;
    assert((((e & !0x3000u32) | (t << 12u32)) >> 4u32) & 3u32 == (e >> 4u32) & 3u32)
        by (bit_vector)
        requires
            t < 4,
    ;
    assert((((e & !0x0030u32) | (t << 4u32)) >> 12u32) & 3u32 == (e >> 12u32) & 3u32)
        by (bit_vector)
        requires
            t < 4,
    ;
}

impl Channel {
    /// One poll of a control-out transfer sending `buf`. Setup stage done:
    /// `buf` goes out as the data stage, or, when it is empty, the
    /// zero-length status stage is read at once. Data stage done: the
    /// status stage is read. Status stage done: the transfer returns the
    /// length of `buf`. A failed stage ends the transfer with its error.
    pub fn poll_control_out(
        &self,
        hw: &mut Peripheral,
        irq: &mut USBHostInterruptHandler,
        xfer: &mut ControlTransfer,
        buf: &Vec<u8>,
        now_ms: u64,
    ) -> (r: TransferStatus)
        requires
            self.wf(),
            self.buf_in is Some,
            self.buf_out matches Some(b) && buf.len() <= b.size(),
            old(hw).wf(),
            old(irq).wf(),
            old(xfer).stage == ControlStage::Status ==> old(xfer).inp.count == 0,
        ensures
            final(hw).wf(),
            final(irq).wf(),
            final(xfer).stage == ControlStage::Status ==> final(xfer).inp.count == 0,
            ({
                let i = self.index as int;
                let e = old(hw).epr@[i];
                let x = *old(xfer);
                match x.stage {
                    ControlStage::Setup => {
                        let s = out_poll_status(
                            old(hw).istr,
                            e,
                            timed_out(now_ms, x.out.started_ms),
                            x.out.len,
                        );
                        match stage_result(s) {
                            None => r == TransferStatus::Pending && final(xfer).stage == x.stage,
                            Some(Err(err)) => r == s && final(xfer).stage == ControlStage::Done(
                                Err(err),
                            ),
                            Some(Ok(_)) => {
                                &&& r == TransferStatus::Pending
                                &&& if buf.len() == 0 {
                                    &&& final(xfer).stage == ControlStage::Status
                                    &&& final(xfer).inp == (InTransfer { count: 0, started_ms: now_ms })
                                    &&& stat_rx_bits(final(hw).epr@[i]) == 3
                                } else {
                                    &&& final(xfer).stage == ControlStage::Data
                                    &&& final(xfer).out == (OutTransfer { len: buf.len(), started_ms: now_ms })
                                    &&& tx_loaded(self, old(hw).ram@, final(hw).ram@, buf@)
                                    &&& stat_tx_bits(final(hw).epr@[i]) == 3
                                }
                            },
                        }
                    },
                    ControlStage::Data => {
                        let s = out_poll_status(
                            old(hw).istr,
                            e,
                            timed_out(now_ms, x.out.started_ms),
                            x.out.len,
                        );
                        match stage_result(s) {
                            None => r == TransferStatus::Pending && final(xfer).stage == x.stage,
                            Some(Err(err)) => r == s && final(xfer).stage == ControlStage::Done(
                                Err(err),
                            ),
                            Some(Ok(_)) => {
                                &&& r == TransferStatus::Pending
                                &&& final(xfer).stage == ControlStage::Status
                                &&& final(xfer).inp == (InTransfer { count: 0, started_ms: now_ms })
                                &&& stat_rx_bits(final(hw).epr@[i]) == 3
                            },
                        }
                    },
                    ControlStage::Status => {
                        let s = in_poll_status(
                            old(hw).istr,
                            e,
                            timed_out(now_ms, x.inp.started_ms),
                            rx_count(old(hw), self.index),
                            0,
                            0,
                            self.buf_in->Some_0.size(),
                            self.max_packet_size_in as int,
                        );
                        match stage_result(s) {
                            None => r == TransferStatus::Pending && final(xfer).stage == x.stage,
                            Some(Err(err)) => r == s && final(xfer).stage == ControlStage::Done(
                                Err(err),
                            ),
                            Some(Ok(_)) => {
                                &&& r == TransferStatus::Complete(Ok(buf.len() as usize))
                                &&& final(xfer).stage == ControlStage::Done(Ok(buf.len() as usize))
                            },
                        }
                    },
                    ControlStage::Done(res) => {
                        &&& r == TransferStatus::Complete(res)
                        &&& *final(xfer) == x
                        &&& final(hw).epr@ == old(hw).epr@
                    },
                }
            }),
    {
        match xfer.stage {
            ControlStage::Setup => {
                let out = xfer.out;
                match self.poll_write(hw, irq, &out, now_ms) {
                    TransferStatus::Pending => TransferStatus::Pending,
                    TransferStatus::Complete(Err(err)) => {
                        xfer.stage = ControlStage::Done(Err(err));
                        TransferStatus::Complete(Err(err))
                    },
                    TransferStatus::Complete(Ok(_)) => {
                        let ghost before = hw.epr@[self.index as int];
                        proof {
                            lemma_status_reads_back(before, 3);
                        }
                        if buf.len() == 0 {
                            xfer.inp = self.begin_read(hw, irq, now_ms);
                            xfer.stage = ControlStage::Status;
                        } else {
                            xfer.out = self.begin_write(hw, irq, buf, now_ms);
                            xfer.stage = ControlStage::Data;
                        }
                        TransferStatus::Pending
                    },
                }
            },
            ControlStage::Data => {
                let out = xfer.out;
                match self.poll_write(hw, irq, &out, now_ms) {
                    TransferStatus::Pending => TransferStatus::Pending,
                    TransferStatus::Complete(Err(err)) => {
                        xfer.stage = ControlStage::Done(Err(err));
                        TransferStatus::Complete(Err(err))
                    },
                    TransferStatus::Complete(Ok(_)) => {
                        let ghost before = hw.epr@[self.index as int];
                        proof {
                            lemma_status_reads_back(before, 3);
                        }
                        xfer.inp = self.begin_read(hw, irq, now_ms);
                        xfer.stage = ControlStage::Status;
                        TransferStatus::Pending
                    },
                }
            },
            ControlStage::Status => {
                let mut status: Vec<u8> = Vec::new();
                let mut inp = xfer.inp;
                let r = self.poll_read(hw, irq, &mut inp, &mut status, now_ms);
                xfer.inp = inp;
                match r {
                    TransferStatus::Pending => TransferStatus::Pending,
                    TransferStatus::Complete(Err(err)) => {
                        xfer.stage = ControlStage::Done(Err(err));
                        TransferStatus::Complete(Err(err))
                    },
                    TransferStatus::Complete(Ok(_)) => {
                        xfer.stage = ControlStage::Done(Ok(buf.len()));
                        TransferStatus::Complete(Ok(buf.len()))
                    },
                }
            },
            ControlStage::Done(res) => TransferStatus::Complete(res),
        }
    }
}

/// Slot `i` is taken in the channel bitmap `p`.
pub open spec fn pipe_taken(p: u8, i: u8) -> bool {
    (p >> i) & 1u8 == 1u8
}

/// Setting or clearing bit `i` of the bitmap changes slot `i` alone.
proof fn lemma_pipe_bit(p: u8, i: u8, j: u8)
    requires
        i < 8,
        j < 8,
    ensures
        pipe_taken(p | (1u8 << i), j) == (j == i || pipe_taken(p, j)),
        pipe_taken(p & !(1u8 << i), j) == (j != i && pipe_taken(p, j)),
{
    let q = p | (1u8 << i);
    let z = p & !(1u8 << i);
    assert(((q >> j) & 1u8 == 1u8) == (j == i || (p >> j) & 1u8 == 1u8)) by (bit_vector)
        requires
            i < 8,
            j < 8,
            q == p | (1u8 << i),
    ;
    assert(((z >> j) & 1u8 == 1u8) == (j != i && (p >> j) & 1u8 == 1u8)) by (bit_vector)
        requires
            i < 8,
            j < 8,
            z == p & !(1u8 << i),
    ;
}

/// The host driver: packet-memory allocator and channel bitmap. Slot 0 is
/// the control channel's and never appears in the bitmap.
pub struct UsbHost {
    pub mem: EndpointMemory,
    pub allocated_pipes: u8,
}

impl UsbHost {
    pub open spec fn wf(&self) -> bool {
        self.mem.wf()
    }

    /// Powers the peripheral up in host mode with reset forced, puts the
    /// descriptor table at the start of packet memory, and starts with all
    /// packet memory above the table free and no channel slot taken.
    pub fn new(hw: &mut Peripheral) -> (h: Self)
        requires
            old(hw).wf(),
        ensures
            h.wf(),
            h.allocated_pipes == 0,
            h.mem.free_offset() == BTABLE_BYTES,
            h.mem.granted().len() == 0,
            final(hw).wf(),
            final(hw).cntr == CNTR_INIT,
            final(hw).btable == 0,
            final(hw).istr == old(hw).istr,
            final(hw).epr@ == old(hw).epr@,
            final(hw).ram@ == old(hw).ram@,
    {
        hw.cntr = CNTR_INIT;
        hw.btable = 0;
        UsbHost { mem: EndpointMemory::new(), allocated_pipes: 0 }
    }

    /// Leaves reset and enables the connect-change and transfer interrupts.
    pub fn start(&mut self, hw: &mut Peripheral)
        requires
            old(hw).wf(),
        ensures
            final(hw).wf(),
            final(hw).cntr == CNTR_RUN,
            final(hw).istr == old(hw).istr,
            final(hw).btable == old(hw).btable,
            final(hw).epr@ == old(hw).epr@,
            final(hw).ram@ == old(hw).ram@,
            *final(self) == *old(self),
    {
        hw.cntr = CNTR_RUN;
    }

    /// The interrupt status register.
    pub fn get_status(&self, hw: &Peripheral) -> (r: u32)
        ensures
            r == hw.istr,
    {
        hw.istr
    }

    /// Grants `len` bytes of packet memory; see `EndpointMemory::allocate`.
    pub fn alloc_channel_mem(&mut self, len: u16) -> (r: Result<u16, ()>)
        requires
            old(self).wf(),
            len % 4 == 0,
        ensures
            final(self).wf(),
            final(self).allocated_pipes == old(self).allocated_pipes,
            match r {
                Ok(addr) => {
                    &&& addr as int == old(self).mem.free_offset()
                    &&& old(self).mem.free_offset() + len <= USBRAM_SIZE
                    &&& final(self).mem.free_offset() == old(self).mem.free_offset() + len
                    &&& final(self).mem.granted() == old(self).mem.granted().push(
                        (addr as int, len as int),
                    )
                },
                Err(()) => {
                    &&& old(self).mem.free_offset() + len > USBRAM_SIZE
                    &&& *final(self) == *old(self)
                },
            },
    {
        self.mem.allocate(len)
    }

    /// Forces a reset condition on the bus; `bus_reset_end` releases it
    /// once 50 ms have passed.
    pub fn bus_reset_begin(&self, hw: &mut Peripheral)
        requires
            old(hw).wf(),
        ensures
            final(hw).wf(),
            final(hw).cntr == old(hw).cntr | 1u32,
            final(hw).istr == old(hw).istr,
            final(hw).epr@ == old(hw).epr@,
            final(hw).ram@ == old(hw).ram@,
    {
        hw.cntr = hw.cntr | CNTR_FRES;
    }

    /// Releases the forced bus reset; the device is then in its default
    /// state.
    pub fn bus_reset_end(&self, hw: &mut Peripheral)
        requires
            old(hw).wf(),
        ensures
            final(hw).wf(),
            final(hw).cntr == old(hw).cntr & !1u32,
            final(hw).istr == old(hw).istr,
            final(hw).epr@ == old(hw).epr@,
            final(hw).ram@ == old(hw).ram@,
    {
        hw.cntr = hw.cntr & !CNTR_FRES;
    }

    /// One poll of a wait for a device: arms the bus wake target and, when
    /// a device is present, reports it with its speed.
    pub fn poll_device_event(&self, hw: &Peripheral, irq: &mut USBHostInterruptHandler) -> (r:
        Option<DeviceEvent>)
        ensures
            final(irq).bus == armed(old(irq).bus),
            final(irq).ep_in == old(irq).ep_in,
            final(irq).ep_out == old(irq).ep_out,
            r == if connected(hw.istr) {
                Some(
                    DeviceEvent::Connected(
                        if hw.istr & 0x4000_0000u32 != 0 {
                            Speed::Low
                        } else {
                            Speed::Full
                        },
                    ),
                )
            } else {
                None
            },
    {
        irq.bus.register();
        if hw.istr & ISTR_DCON_STAT != 0 {
            let speed = if hw.istr & ISTR_LS_DCON != 0 {
                Speed::Low
            } else {
                Speed::Full
            };
            Some(DeviceEvent::Connected(speed))
        } else {
            None
        }
    }

    /// Frees the slot of a channel that is no longer used.
    pub fn release_channel(&mut self, ch: Channel)
        requires
            ch.index < 8,
        ensures
            final(self).mem == old(self).mem,
            ch.index == 0 ==> final(self).allocated_pipes == old(self).allocated_pipes,
            ch.index != 0 ==> forall|j: u8|
                j < 8 ==> pipe_taken(final(self).allocated_pipes, j) == ((j as int != ch.index as int)
                    && pipe_taken(old(self).allocated_pipes, j)),
    {
        if ch.index != 0 {
            let i: u8 = ch.index as u8;
            let p = self.allocated_pipes;
            let mask: u8 = 1u8 << i;
            self.allocated_pipes = p & !mask;
            assert forall|j: u8| j < 8 implies pipe_taken(self.allocated_pipes, j) == ((j as int
                != ch.index as int) && pipe_taken(old(self).allocated_pipes, j)) by {
                lemma_pipe_bit(p, i, j);
            }
        }
    }
}

proof fn lemma_recv_capacity_aligned(len: nat)
    requires
        2 <= len <= 1024,
    ensures
        recv_capacity(len) % 4 == 0,
        len <= recv_capacity(len) <= 1024,
{
    if len > 60 {
        let n = (len + 31) / 32;
        assert(n * 32 % 4 == 0) by (nonlinear_arith);
        assert(n * 32 >= len) by (nonlinear_arith)
            requires
                n == (len + 31) / 32,
        ;
        assert(n * 32 <= 1024) by (nonlinear_arith)
            requires
                n == (len + 31) / 32,
                len <= 1024,
        ;
    }
}

/// Packet memory that a channel for `dir` with packets of `mps` bytes needs.
pub open spec fn channel_mem_need(dir: Direction, mps: u16) -> int {
    (if is_in(dir) {
        recv_capacity(mps as nat) as int
    } else {
        0
    }) + (if is_out(dir) {
        align_up(mps as nat) as int
    } else {
        0
    })
}

/// Memory reserved for the IN direction of such a channel.
pub open spec fn channel_in_need(dir: Direction, mps: u16) -> int {
    if is_in(dir) {
        recv_capacity(mps as nat) as int
    } else {
        0
    }
}

/// The ranges that allocating such a channel grants, from offset `free`.
pub open spec fn channel_grants(dir: Direction, mps: u16, free: int) -> Seq<(int, int)> {
    (if is_in(dir) {
        seq![(free, channel_in_need(dir, mps))]
    } else {
        Seq::<(int, int)>::empty()
    }) + (if is_out(dir) {
        seq![(free + channel_in_need(dir, mps), align_up(mps as nat) as int)]
    } else {
        Seq::<(int, int)>::empty()
    })
}

impl UsbHost {
    /// Lowest slot in 1..8 that the bitmap leaves free.
    fn find_free_pipe(&self) -> (r: Option<u8>)
        ensures
            match r {
                Some(i) => {
                    &&& 1 <= i < 8
                    &&& !pipe_taken(self.allocated_pipes, i)
                    &&& forall|j: u8| 1 <= j < i ==> pipe_taken(self.allocated_pipes, j)
                },
                None => forall|j: u8| 1 <= j < 8 ==> pipe_taken(self.allocated_pipes, j),
            },
    {
        let p = self.allocated_pipes;
        let mut i: u8 = 1;
        while i < 8
            invariant
                1 <= i <= 8,
                p == self.allocated_pipes,
                forall|j: u8| 1 <= j < i ==> pipe_taken(p, j),
            decreases 8 - i,
        {
            if (p >> i) & 1 != 1 {
                return Some(i);
            }
            i = i + 1;
        }
        None
    }

    /// Allocates a channel to endpoint `endpoint` of device `addr`. A
    /// control channel always takes slot 0; any other takes the lowest free
    /// slot in 1..8, or fails with `OutOfChannels`. The directions that
    /// `dir` names then get packet memory in turn (IN: the receive capacity
    /// for the packet size, with its receive descriptor written; OUT: the
    /// packet size rounded up to a word), failing with `OutOfSlots` when
    /// the window is exhausted, and the slot's register is pointed at the
    /// endpoint. A slot is marked taken only on success.
    pub fn alloc_channel(
        &mut self,
        hw: &mut Peripheral,
        addr: u8,
        endpoint: &EndpointInfo,
        channel_type: EndpointType,
        dir: Direction,
        pre: bool,
    ) -> (r: Result<Channel, HostError>)
        requires
            old(self).wf(),
            old(hw).wf(),
            is_in(dir) ==> 2 <= endpoint.max_packet_size <= 1024,
        ensures
            final(self).wf(),
            final(hw).wf(),
            same_control(final(hw), old(hw)),
            ({
                let p = old(self).allocated_pipes;
                let mps = endpoint.max_packet_size;
                let full = forall|j: u8| 1 <= j < 8 ==> pipe_taken(p, j);
                let free = old(self).mem.free_offset();
                &&& (r == Err::<Channel, HostError>(HostError::OutOfChannels)) == (channel_type
                    != EndpointType::Control && full)
                &&& (r == Err::<Channel, HostError>(HostError::OutOfSlots)) == (!(channel_type
                    != EndpointType::Control && full) && free + channel_mem_need(dir, mps)
                    > USBRAM_SIZE)
                &&& r is Ok == (!(channel_type != EndpointType::Control && full) && free
                    + channel_mem_need(dir, mps) <= USBRAM_SIZE)
                &&& r is Err ==> final(self).allocated_pipes == p
                &&& r == Err::<Channel, HostError>(HostError::OutOfChannels) ==> *final(self)
                    == *old(self) && final(hw).epr@ == old(hw).epr@ && final(hw).ram@ == old(
                    hw,
                ).ram@
                &&& r matches Ok(ch) ==> {
                    &&& ch.wf()
                    &&& ch.max_packet_size_in == mps
                    &&& ch.max_packet_size_out == mps
                    &&& if channel_type == EndpointType::Control {
                        ch.index == 0 && final(self).allocated_pipes == p
                    } else {
                        &&& 1 <= ch.index < 8
                        &&& !pipe_taken(p, ch.index as u8)
                        &&& forall|j: u8| 1 <= j < ch.index ==> pipe_taken(p, j)
                        &&& forall|j: u8|
                            j < 8 ==> pipe_taken(final(self).allocated_pipes, j) == (j as int
                                == ch.index as int || pipe_taken(p, j))
                    }
                    &&& final(self).mem.free_offset() == free + channel_mem_need(dir, mps)
                    &&& final(self).mem.granted() == old(self).mem.granted() + channel_grants(
                        dir,
                        mps,
                        free,
                    )
                    &&& (ch.buf_in is Some) == is_in(dir)
                    &&& (ch.buf_out is Some) == is_out(dir)
                    &&& ch.buf_in matches Some(b) ==> {
                        &&& b.base() == free
                        &&& b.size() == recv_capacity(mps as nat)
                        &&& final(hw).ram@[2 * ch.index + 1] == descriptor_word(
                            free as u16,
                            recv_len_bits(mps as nat) as u16,
                        )
                    }
                    &&& ch.buf_out matches Some(b) ==> {
                        &&& b.base() == free + channel_in_need(dir, mps)
                        &&& b.size() == align_up(mps as nat)
                    }
                    &&& final(hw).epr@ == old(hw).epr@.update(
                        ch.index as int,
                        retargeted(
                            old(hw).epr@[ch.index as int],
                            addr,
                            ep_type_code(endpoint.ep_type),
                            ch.index as u32,
                        ),
                    )
                }
            }),
    {
        let p = self.allocated_pipes;
        let ghost free = self.mem.free_offset();
        let ghost granted0 = self.mem.granted();
        proof {
            self.mem.lemma_free_bounds();
        }
        let index: u8 = if channel_type == EndpointType::Control {
            0
        } else {
            match self.find_free_pipe() {
                Some(i) => i,
                None => {
                    return Err(HostError::OutOfChannels);
                },
            }
        };
        let mps = endpoint.max_packet_size;
        let buf_in = if dir != Direction::Out {
            let (len, len_bits) = calc_receive_len_bits(mps);
            proof {
                lemma_recv_capacity_aligned(mps as nat);
            }
            let buffer_addr = match self.mem.allocate(len) {
                Ok(a) => a,
                Err(()) => {
                    return Err(HostError::OutOfSlots);
                },
            };
            write_receive_buffer_descriptor(&mut hw.ram, index as usize, buffer_addr, len_bits);
            Some(EndpointBuffer::new(buffer_addr, len))
        } else {
            None
        };
        let buf_out = if dir != Direction::In {
            if mps > USBRAM_SIZE {
                return Err(HostError::OutOfSlots);
            }
            let len = align_len_up(mps);
            proof {
                self.mem.lemma_free_bounds();
            }
            let buffer_addr = match self.mem.allocate(len) {
                Ok(a) => a,
                Err(()) => {
                    return Err(HostError::OutOfSlots);
                },
            };
            write_in(&mut hw.ram, index as usize, buffer_addr);
            Some(EndpointBuffer::new(buffer_addr, len))
        } else {
            None
        };
        let channel = Channel::new(index as usize, buf_in, buf_out, mps, mps);
        match channel.retarget_channel(hw, addr, endpoint, pre) {
            Ok(()) => {},
            Err(e) => {
                return Err(e);
            },
        }
        if index != 0 {
            self.allocated_pipes = p | (1u8 << index);
            assert forall|j: u8| j < 8 implies pipe_taken(self.allocated_pipes, j) == (j as int
                == index as int || pipe_taken(p, j)) by {
                lemma_pipe_bit(p, index, j);
            }
        }
        assert(self.mem.granted() =~= granted0 + channel_grants(dir, mps, free));
        Ok(channel)
    }
}

/// A transfer whose direction reaches DISABLED while the device is present
/// and before the deadline succeeds: an OUT transfer with the byte count
/// requested, an IN transfer with the bytes that arrived, when they fit and
/// end the transfer.
pub proof fn lemma_disabled_status_completes(
    istr: u32,
    e: u32,
    len: usize,
    rx: int,
    count: int,
    buf_len: int,
    cap: int,
    mps: int,
)
    requires
        connected(istr),
    ensures
        stat_tx_bits(e) == 0 ==> out_poll_status(istr, e, false, len)
            == TransferStatus::Complete(Ok(len)) && out_poll_epr(istr, e, false) == e,
        stat_rx_bits(e) == 0 && 0 <= rx <= buf_len - count && rx <= cap && (count + rx == buf_len
            || rx < mps) ==> in_poll_status(istr, e, false, rx, count, buf_len, cap, mps)
            == TransferStatus::Complete(Ok((count + rx) as usize)),
{
    assert(0u32 & 3u32 == 0) by (bit_vector);
}

/// A transfer whose direction stays NAK or VALID keeps waiting up to the
/// deadline; past it the poll fails with `Timeout` and leaves the direction
/// DISABLED.
pub proof fn lemma_stuck_transfer_times_out(istr: u32, e: u32, len: usize)
    requires
        connected(istr),
    ensures
        stat_tx_bits(e) >= 2 ==> {
            &&& out_poll_status(istr, e, false, len) == TransferStatus::Pending
            &&& out_poll_epr(istr, e, false) == e
            &&& out_poll_status(istr, e, true, len) == TransferStatus::Complete(
                Err(ChannelError::Timeout),
            )
            &&& stat_tx_bits(out_poll_epr(istr, e, true)) == 0
        },
        forall|rx: int, count: int, buf_len: int, cap: int, mps: int|
            stat_rx_bits(e) >= 2 ==> {
                &&& in_poll_status(istr, e, false, rx, count, buf_len, cap, mps)
                    == TransferStatus::Pending
                &&& in_poll_status(istr, e, true, rx, count, buf_len, cap, mps)
                    == TransferStatus::Complete(Err(ChannelError::Timeout))
            },
        stat_rx_bits(with_stat_rx(e, 0)) == 0,
{
    lemma_status_reads_back(e, 0);
    assert(stat_tx_bits(e) >= 2 ==> stat_of(stat_tx_bits(e)) == Stat::Nak || stat_of(stat_tx_bits(e))
        == Stat::Valid) by {
        assert(stat_tx_bits(e) < 4) by (bit_vector);
        assert(stat_tx_bits(e) & 3 == stat_tx_bits(e)) by (bit_vector);
    }
    assert(stat_rx_bits(e) >= 2 ==> stat_of(stat_rx_bits(e)) == Stat::Nak || stat_of(stat_rx_bits(e))
        == Stat::Valid) by {
        assert(stat_rx_bits(e) < 4) by (bit_vector);
        assert(stat_rx_bits(e) & 3 == stat_rx_bits(e)) by (bit_vector);
    }
}

/// Once the device is gone a poll fails with `Disconnected`, whatever the
/// status of the direction and the time, and leaves the direction DISABLED.
pub proof fn lemma_disconnect_wins(istr: u32, e: u32, late: bool, len: usize)
    requires
        !connected(istr),
    ensures
        out_poll_status(istr, e, late, len) == TransferStatus::Complete(
            Err(ChannelError::Disconnected),
        ),
        stat_tx_bits(out_poll_epr(istr, e, late)) == 0,
        forall|rx: int, count: int, buf_len: int, cap: int, mps: int|
            in_poll_status(istr, e, late, rx, count, buf_len, cap, mps) == TransferStatus::Complete(
                Err(ChannelError::Disconnected),
            ),
{
    lemma_status_reads_back(e, 0);
}

} // verus!
