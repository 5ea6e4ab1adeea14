//! Bit layout of the endpoint (EPR), interrupt status (ISTR) and control
//! (CNTR) registers, and what a write does to each of them.
//!
//! EPR layout: EA [3:0], STAT_TX [5:4], DTOG_TX 6, CTR_TX 7, EP_KIND 8,
//! EP_TYPE [10:9], SETUP 11, STAT_RX [13:12], DTOG_RX 14, CTR_RX 15,
//! DEVADDR [22:16], ERR_TX 25, ERR_RX 26.
//!
//! Writing an EPR: STAT_* and DTOG_* flip where a 1 is written; CTR_* and
//! ERR_* are cleared where a 0 is written and kept where a 1 is written;
//! every other bit takes the written value.
use vstd::prelude::*;

verus! {

/// Setup-in-progress flag of an endpoint register.
pub const EPR_SETUP: u32 = 0x0800;

/// ISTR: endpoint slot of the last completed transaction.
pub const ISTR_EP_ID: u32 = 0x000f;
/// ISTR: device connect / disconnect detected (the reset flag in host mode).
pub const ISTR_RESET: u32 = 0x0400;
/// ISTR: bus error.
pub const ISTR_ERR: u32 = 0x2000;
/// ISTR: a transaction completed on slot `EP_ID`.
pub const ISTR_CTR: u32 = 0x8000;
/// ISTR: a device is connected.
pub const ISTR_DCON_STAT: u32 = 0x2000_0000;
/// ISTR: the connected device is low speed.
pub const ISTR_LS_DCON: u32 = 0x4000_0000;

/// CNTR: force USB reset.
pub const CNTR_FRES: u32 = 0x0001;
/// CNTR value right after power-up: powered, reset forced, host mode.
pub const CNTR_INIT: u32 = 0x8000_0001;
/// CNTR value once started: host mode, reset and transfer interrupts enabled.
pub const CNTR_RUN: u32 = 0x8000_8400;

/// Hardware status of one direction of an endpoint slot.
#[derive(Clone, Copy, Debug, PartialEq, Eq, Structural)]
pub enum Stat {
    Disabled,
    Stall,
    Nak,
    Valid,
}

pub open spec fn stat_of(bits: u32) -> Stat {
    if bits & 3 == 0 {
        Stat::Disabled
    } else if bits & 3 == 1 {
        Stat::Stall
    } else if bits & 3 == 2 {
        Stat::Nak
    } else {
        Stat::Valid
    }
}

pub open spec fn stat_bits(s: Stat) -> u32 {
    match s {
        Stat::Disabled => 0,
        Stat::Stall => 1,
        Stat::Nak => 2,
        Stat::Valid => 3,
    }
}

impl Stat {
    pub fn from_bits(bits: u32) -> (r: Stat)
        ensures
            r == stat_of(bits),
    {
        let b = bits & 3;
        if b == 0 {
            Stat::Disabled
        } else if b == 1 {
            Stat::Stall
        } else if b == 2 {
            Stat::Nak
        } else {
            Stat::Valid
        }
    }

    pub fn to_bits(self) -> (r: u32)
        ensures
            r == stat_bits(self),
    {
        match self {
            Stat::Disabled => 0,
            Stat::Stall => 1,
            Stat::Nak => 2,
            Stat::Valid => 3,
        }
    }
}

/// Receive-direction status field.
pub open spec fn stat_rx_bits(r: u32) -> u32 {
    (r >> 12u32) & 3
}

/// Transmit-direction status field.
pub open spec fn stat_tx_bits(r: u32) -> u32 {
    (r >> 4u32) & 3
}

pub open spec fn with_stat_rx(r: u32, t: u32) -> u32 {
    (r & !0x3000u32) | (t << 12u32)
}

pub open spec fn with_stat_tx(r: u32, t: u32) -> u32 {
    (r & !0x0030u32) | (t << 4u32)
}

/// The register after the hardware takes the write `w` over `old`.
pub open spec fn epr_after_write(old: u32, w: u32) -> u32 {
    (w & !0x0600_f0f0u32) | ((old ^ w) & 0x7070u32) | (old & w & 0x0600_8080u32)
}

/// The safe-to-write image of `r`: completion flags written as "keep",
/// toggle and status bits written as "do not flip".
pub open spec fn safe_image(r: u32) -> u32 {
    (r | 0x8080u32) & !0x7070u32
}

/// The ISTR after the hardware takes the write `w` over `old`: event flags
/// are cleared where a 0 is written; slot id, CTR and connection status are
/// read-only.
pub open spec fn istr_after_write(old: u32, w: u32) -> u32 {
    old & (w | 0x6000_801fu32)
}

/// The value to write to an endpoint register so that it keeps every bit:
/// completion flags set (do not clear), toggle and status bits zero (do not
/// flip).
pub fn epr_invariant(r: u32) -> (v: u32)
    ensures
        v == safe_image(r),
        epr_after_write(r, v) == r,
{
    proof {
        assert(((r | 0x8080u32) & !0x7070u32) & !0x0600_f0f0u32 | ((r ^ ((r | 0x8080u32)
            & !0x7070u32)) & 0x7070u32) | (r & ((r | 0x8080u32) & !0x7070u32) & 0x0600_8080u32)
            == r) by (bit_vector);
    }
    (r | 0x8080) & !0x7070
}

/// The write that moves the receive status of `cur` to `t` and keeps every
/// other bit.
pub fn rx_stat_write(cur: u32, t: u32) -> (w: u32)
    requires
        t < 4,
    ensures
        epr_after_write(cur, w) == with_stat_rx(cur, t),
{
    proof {
        assert(((((cur | 0x8080u32) & !0x7070u32) | ((cur ^ (t << 12u32)) & 0x3000u32))
            & !0x0600_f0f0u32) | ((cur ^ (((cur | 0x8080u32) & !0x7070u32) | ((cur ^ (t
            << 12u32)) & 0x3000u32))) & 0x7070u32) | (cur & (((cur | 0x8080u32)
            & !0x7070u32) | ((cur ^ (t << 12u32)) & 0x3000u32)) & 0x0600_8080u32) == (cur
            & !0x3000u32) | (t << 12u32)) by (bit_vector)
            requires
                t < 4,
        ;
    }
    epr_invariant(cur) | ((cur ^ (t << 12)) & 0x3000)
}

/// The write that moves the transmit status of `cur` to `t` and keeps every
/// other bit.
pub fn tx_stat_write(cur: u32, t: u32) -> (w: u32)
    requires
        t < 4,
    ensures
        epr_after_write(cur, w) == with_stat_tx(cur, t),
{
    proof {
        assert(((((cur | 0x8080u32) & !0x7070u32) | ((cur ^ (t << 4u32)) & 0x0030u32))
            & !0x0600_f0f0u32) | ((cur ^ (((cur | 0x8080u32) & !0x7070u32) | ((cur ^ (t
            << 4u32)) & 0x0030u32))) & 0x7070u32) | (cur & (((cur | 0x8080u32)
            & !0x7070u32) | ((cur ^ (t << 4u32)) & 0x0030u32)) & 0x0600_8080u32) == (cur
            & !0x0030u32) | (t << 4u32)) by (bit_vector)
            requires
                t < 4,
        ;
    }
    epr_invariant(cur) | ((cur ^ (t << 4)) & 0x0030)
}

/// Reads the receive status field.
pub fn stat_rx(r: u32) -> (s: Stat)
    ensures
        s == stat_of(stat_rx_bits(r)),
{
    Stat::from_bits((r >> 12) & 3)
}

/// Reads the transmit status field.
pub fn stat_tx(r: u32) -> (s: Stat)
    ensures
        s == stat_of(stat_tx_bits(r)),
{
    Stat::from_bits((r >> 4) & 3)
}

} // verus!
