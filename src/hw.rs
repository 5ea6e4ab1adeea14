//! The peripheral as plain register values, and the interrupt handler that
//! clears its event flags and wakes the waiters.
use crate::btable::{EP_COUNT, USBRAM_WORDS};
use crate::regs::{epr_after_write, epr_invariant, istr_after_write, ISTR_CTR, ISTR_EP_ID, ISTR_ERR, ISTR_RESET};
use crate::waker::{fired, WakeTarget};
use vstd::prelude::*;

verus! {

/// Register file and packet memory of the USB peripheral.
pub struct Peripheral {
    /// Control register.
    pub cntr: u32,
    /// Interrupt status register.
    pub istr: u32,
    /// Offset of the descriptor table in packet memory.
    pub btable: u32,
    /// One endpoint register per slot.
    pub epr: Vec<u32>,
    /// Packet memory, one entry per 32-bit word.
    pub ram: Vec<u32>,
}

impl Peripheral {
    pub open spec fn wf(&self) -> bool {
        &&& self.epr.len() == EP_COUNT
        &&& self.ram.len() == USBRAM_WORDS
    }

    /// A peripheral with every register and memory word at zero.
    pub fn new() -> (p: Self)
        ensures
            p.wf(),
            p.cntr == 0,
            p.istr == 0,
            forall|i: int| 0 <= i < EP_COUNT ==> p.epr@[i] == 0,
            forall|i: int| 0 <= i < USBRAM_WORDS ==> p.ram@[i] == 0,
    {
        let mut epr: Vec<u32> = Vec::new();
        while epr.len() < EP_COUNT
            invariant
                epr.len() <= EP_COUNT,
                forall|i: int| 0 <= i < epr.len() ==> epr@[i] == 0,
            decreases EP_COUNT - epr.len(),
        {
            epr.push(0);
        }
        let mut ram: Vec<u32> = Vec::new();
        while ram.len() < USBRAM_WORDS
            invariant
                ram.len() <= USBRAM_WORDS,
                forall|i: int| 0 <= i < ram.len() ==> ram@[i] == 0,
            decreases USBRAM_WORDS - ram.len(),
        {
            ram.push(0);
        }
        Peripheral { cntr: 0, istr: 0, btable: 0, epr, ram }
    }

    /// Writes `w` to the endpoint register of slot `i`, with the hardware's
    /// toggle and clear semantics.
    pub fn write_epr(&mut self, i: usize, w: u32)
        requires
            old(self).wf(),
            i < EP_COUNT,
        ensures
            final(self).wf(),
            final(self).epr@ == old(self).epr@.update(i as int, epr_after_write(old(self).epr@[i as int], w)),
            final(self).ram@ == old(self).ram@,
            final(self).cntr == old(self).cntr,
            final(self).istr == old(self).istr,
            final(self).btable == old(self).btable,
    {
        let cur = self.epr[i];
        let v = (w & !0x0600_f0f0u32) | ((cur ^ w) & 0x7070u32) | (cur & w & 0x0600_8080u32);
        self.epr.set(i, v);
    }

    /// Writes `w` to the interrupt status register: event flags written as
    /// zero are cleared.
    pub fn write_istr(&mut self, w: u32)
        requires
            old(self).wf(),
        ensures
            final(self).wf(),
            final(self).istr == istr_after_write(old(self).istr, w),
            final(self).epr@ == old(self).epr@,
            final(self).ram@ == old(self).ram@,
            final(self).cntr == old(self).cntr,
            final(self).btable == old(self).btable,
    {
        self.istr = self.istr & (w | 0x6000_801f);
    }
}

/// Wake targets that the interrupt handler fires: one for bus events and
/// one per slot and direction.
pub struct USBHostInterruptHandler {
    pub bus: WakeTarget,
    pub ep_in: Vec<WakeTarget>,
    pub ep_out: Vec<WakeTarget>,
}

/// An endpoint register after its completion and error flags are cleared.
pub open spec fn flags_cleared(e: u32) -> u32 {
    e & !0x0600_8080u32
}

impl USBHostInterruptHandler {
    pub open spec fn wf(&self) -> bool {
        &&& self.ep_in.len() == EP_COUNT
        &&& self.ep_out.len() == EP_COUNT
    }

    /// No waiter registered and nothing woken.
    pub fn new() -> (h: Self)
        ensures
            h.wf(),
            h.bus == WakeTarget::new_spec(),
            forall|i: int| 0 <= i < EP_COUNT ==> h.ep_in@[i] == WakeTarget::new_spec(),
            forall|i: int| 0 <= i < EP_COUNT ==> h.ep_out@[i] == WakeTarget::new_spec(),
    {
        let mut ep_in: Vec<WakeTarget> = Vec::new();
        let mut ep_out: Vec<WakeTarget> = Vec::new();
        while ep_in.len() < EP_COUNT
            invariant
                ep_in.len() <= EP_COUNT,
                ep_out.len() == ep_in.len(),
                forall|i: int| 0 <= i < ep_in.len() ==> ep_in@[i] == WakeTarget::new_spec(),
                forall|i: int| 0 <= i < ep_out.len() ==> ep_out@[i] == WakeTarget::new_spec(),
            decreases EP_COUNT - ep_in.len(),
        {
            ep_in.push(WakeTarget::new());
            ep_out.push(WakeTarget::new());
        }
        USBHostInterruptHandler { bus: WakeTarget::new(), ep_in, ep_out }
    }

    /// Handles one interrupt: clears the connect-change and error flags of
    /// ISTR and wakes the bus waiter on a connect change; on a completed
    /// transaction clears the completion and error flags of the slot named
    /// by ISTR, leaving its status and toggle bits alone, and wakes the
    /// waiter of each direction that completed; on a bus error rewrites the
    /// slot's register without changing it.
    pub fn on_interrupt(&mut self, hw: &mut Peripheral)
        requires
            old(self).wf(),
            old(hw).wf(),
        ensures
            final(self).wf(),
            final(hw).wf(),
            final(hw).istr == old(hw).istr & !0x2400u32,
            final(hw).ram@ == old(hw).ram@,
            final(hw).cntr == old(hw).cntr,
            final(self).bus == if old(hw).istr & 0x0400u32 != 0 {
                fired(old(self).bus)
            } else {
                old(self).bus
            },
            ({
                let istr = old(hw).istr;
                let id = (istr & 0xfu32) as int;
                let e = old(hw).epr@[id];
                if istr & 0x8000u32 != 0 && id < EP_COUNT {
                    &&& final(hw).epr@ == old(hw).epr@.update(id, flags_cleared(e))
                    &&& final(self).ep_in@ == if e & 0x8000u32 != 0 {
                        old(self).ep_in@.update(id, fired(old(self).ep_in@[id]))
                    } else {
                        old(self).ep_in@
                    }
                    &&& final(self).ep_out@ == if e & 0x0080u32 != 0 {
                        old(self).ep_out@.update(id, fired(old(self).ep_out@[id]))
                    } else {
                        old(self).ep_out@
                    }
                } else {
                    &&& final(hw).epr@ == old(hw).epr@
                    &&& final(self).ep_in@ == old(self).ep_in@
                    &&& final(self).ep_out@ == old(self).ep_out@
                }
            }),
    {
        let istr = hw.istr;
        let id: usize = (istr & ISTR_EP_ID) as usize;
        if istr & ISTR_RESET != 0 {
            hw.write_istr(!ISTR_RESET);
            self.bus.wake();
            proof {
                assert(istr & (!0x0400u32 | 0x6000_801fu32) == istr & !0x0400u32) by (bit_vector);
            }
        } else {
            assert(istr & 0x0400u32 == 0 ==> istr & !0x0400u32 == istr) by (bit_vector);
        }
        assert(hw.istr == istr & !0x0400u32);
        if istr & ISTR_CTR != 0 && id < EP_COUNT {
            let e = hw.epr[id];
            let w = epr_invariant(e) & !(e & 0x0600_8080);
            proof {
                assert(((((e | 0x8080u32) & !0x7070u32) & !(e & 0x0600_8080u32)) & !0x0600_f0f0u32)
                    | ((e ^ (((e | 0x8080u32) & !0x7070u32) & !(e & 0x0600_8080u32))) & 0x7070u32)
                    | (e & (((e | 0x8080u32) & !0x7070u32) & !(e & 0x0600_8080u32))
                    & 0x0600_8080u32) == e & !0x0600_8080u32) by (bit_vector);
            }
            hw.write_epr(id, w);
            if e & 0x8000 != 0 {
                let mut t = self.ep_in[id];
                t.wake();
                self.ep_in.set(id, t);
            }
            if e & 0x0080 != 0 {
                let mut t = self.ep_out[id];
                t.wake();
                self.ep_out.set(id, t);
            }
        }
        if istr & ISTR_ERR != 0 {
            hw.write_istr(!0u32);
            hw.write_istr(!ISTR_ERR);
            proof {
                let y = istr & !0x0400u32;
                assert(y & (!0u32 | 0x6000_801fu32) == y) by (bit_vector);
                assert((y & (!0x2000u32 | 0x6000_801fu32)) == istr & !0x2400u32) by (bit_vector)
                    requires
                        y == istr & !0x0400u32,
                ;
            }
            if id < EP_COUNT {
                let e = hw.epr[id];
                hw.write_epr(id, epr_invariant(e));
            }
        } else {
            assert(istr & 0x2000u32 == 0 ==> istr & !0x0400u32 == istr & !0x2400u32) by (bit_vector);
        }
    }
}

} // verus!
