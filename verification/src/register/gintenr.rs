//! gintenr, the global interrupt enable register (CSR 0x800).
//!
//! The register is a window onto `mstatus`: its bit 3 is `MIE` and its bit 7
//! is `MPIE`. Writing 0x08 to it enables interrupts globally.

use crate::hart::{Csr, CsrAccess, CsrOp, Hart, GINTENR_MASK};
use vstd::prelude::*;

verus! {

/// The global interrupt enable bit, `MIE`.
pub const GINTENR_ENABLE: usize = 0x8;

/// What a read of gintenr returns on `hart`.
pub open spec fn value(hart: Hart) -> usize {
    hart.mstatus & GINTENR_MASK
}

/// `hart` after `bits` is written to gintenr: `MIE` and `MPIE` are taken from
/// `bits`, the rest of `mstatus` stays.
pub open spec fn written(hart: Hart, bits: usize) -> Hart {
    Hart { mstatus: (hart.mstatus & !GINTENR_MASK) | (bits & GINTENR_MASK), ..hart }
}

/// `hart` with the global interrupt enable bit set.
pub open spec fn enabled(hart: Hart) -> Hart {
    Hart { mstatus: hart.mstatus | GINTENR_ENABLE, ..hart }
}

/// `hart` with the global interrupt enable bit cleared.
pub open spec fn disabled(hart: Hart) -> Hart {
    Hart { mstatus: hart.mstatus & !GINTENR_ENABLE, ..hart }
}

/// Setting or clearing the enable bit through the window of gintenr is
/// setting or clearing it in `mstatus`.
proof fn lemma_window(mstatus: usize)
    by (bit_vector)
    ensures
        (mstatus & !0x88usize) | (((mstatus & 0x88) | 0x8) & 0x88) == mstatus | 0x8,
        (mstatus & !0x88usize) | (((mstatus & 0x88) & !0x8usize) & 0x88) == mstatus & !0x8usize,
{
}

/// The instruction that enables interrupts globally: `csrs 0x800, 0x8`.
pub fn enable_access() -> (access: CsrAccess)
    ensures
        access == (CsrAccess { csr: Csr::Gintenr, op: CsrOp::SetBits, bits: GINTENR_ENABLE }),
{
    CsrAccess { csr: Csr::Gintenr, op: CsrOp::SetBits, bits: GINTENR_ENABLE }
}

/// The instruction that disables interrupts globally and hands the old
/// value of the register back: `csrrc 0x800, 0x8`.
pub fn disable_access() -> (access: CsrAccess)
    ensures
        access == (CsrAccess { csr: Csr::Gintenr, op: CsrOp::ClearBits, bits: GINTENR_ENABLE }),
{
    CsrAccess { csr: Csr::Gintenr, op: CsrOp::ClearBits, bits: GINTENR_ENABLE }
}

/// Whether interrupts are enabled globally in `bits`, a value of gintenr.
pub fn is_enabled(bits: usize) -> (enabled: bool)
    ensures
        enabled == (bits & GINTENR_ENABLE != 0),
{
    (bits & 0x8) != 0
}

/// Reads gintenr.
#[inline]
pub fn read(hart: &Hart) -> (bits: usize)
    ensures
        bits == value(*hart),
{
    hart.read_csr(Csr::Gintenr)
}

/// Writes `bits` to gintenr.
#[inline]
pub fn write(hart: &mut Hart, bits: usize)
    ensures
        *final(hart) == written(*old(hart), bits),
{
    hart.access(CsrAccess { csr: Csr::Gintenr, op: CsrOp::Write, bits });
}

/// Enables interrupts globally: sets bit 3 and leaves every other bit.
#[inline]
pub fn set_enable(hart: &mut Hart)
    ensures
        *final(hart) == enabled(*old(hart)),
{
    proof {
        lemma_window(hart.mstatus);
    }
    hart.access(enable_access());
}

/// Disables interrupts globally in one step and returns the value that
/// gintenr held before.
#[inline]
pub fn set_disable(hart: &mut Hart) -> (prev: usize)
    ensures
        prev == value(*old(hart)),
        *final(hart) == disabled(*old(hart)),
{
    proof {
        lemma_window(hart.mstatus);
    }
    hart.access(disable_access())
}

} // verus!
