//! mtvec, the trap vector base address and mode register.

use crate::hart::{Csr, CsrAccess, CsrOp, Hart};
use vstd::prelude::*;

verus! {

/// The bits of mtvec that hold the mode.
pub const MTVEC_MODE_MASK: usize = 0x3;

/// The alignment that the base of a vector table must have.
pub const MTVEC_BASE_ALIGNMENT: usize = 1024;

/// How the core finds the routine for a trap.
#[derive(Clone, Copy, Debug, PartialEq, Eq, Structural)]
pub enum TrapMode {
    /// Every trap enters the one routine at the base address.
    Direct,
    /// An interrupt enters through the table at the base address: the entry
    /// for a cause lies four bytes times the cause beyond the base and holds
    /// the absolute address of the handler.
    VectoredAddress,
}

impl TrapMode {
    /// The mode as the low two bits of mtvec.
    pub open spec fn encoding(self) -> usize {
        match self {
            TrapMode::Direct => 0,
            TrapMode::VectoredAddress => 3,
        }
    }

    /// The mode as the low two bits of mtvec.
    pub fn bits(self) -> (bits: usize)
        ensures
            bits == self.encoding(),
    {
        match self {
            TrapMode::Direct => 0,
            TrapMode::VectoredAddress => 3,
        }
    }
}

/// The value of mtvec for a table at `addr` in `mode`.
pub open spec fn encode(addr: usize, mode: TrapMode) -> usize {
    addr | mode.encoding()
}

/// The base address held in a value of mtvec.
pub open spec fn base_of(bits: usize) -> usize {
    bits & !MTVEC_MODE_MASK
}

/// The mode held in a value of mtvec, if its two bits name one.
pub open spec fn mode_of(bits: usize) -> Option<TrapMode> {
    if bits & MTVEC_MODE_MASK == 0 {
        Some(TrapMode::Direct)
    } else if bits & MTVEC_MODE_MASK == 3 {
        Some(TrapMode::VectoredAddress)
    } else {
        None
    }
}

/// Writes base address and mode to mtvec. The low two bits of the register
/// hold the mode, so `addr` must leave them clear.
pub fn write(hart: &mut Hart, addr: usize, mode: TrapMode)
    requires
        addr & MTVEC_MODE_MASK == 0,
    ensures
        *final(hart) == (Hart { mtvec: encode(addr, mode), ..*old(hart) }),
{
    hart.access(CsrAccess { csr: Csr::Mtvec, op: CsrOp::Write, bits: addr | mode.bits() });
}

/// The base address in mtvec.
pub fn base(hart: &Hart) -> (addr: usize)
    ensures
        addr == base_of(hart.mtvec),
{
    hart.read_csr(Csr::Mtvec) & !MTVEC_MODE_MASK
}

/// The trap mode in mtvec, or `None` where the mode bits name none.
pub fn trap_mode(hart: &Hart) -> (mode: Option<TrapMode>)
    ensures
        mode == mode_of(hart.mtvec),
{
    let bits = hart.read_csr(Csr::Mtvec) & MTVEC_MODE_MASK;
    if bits == 0 {
        Some(TrapMode::Direct)
    } else if bits == 3 {
        Some(TrapMode::VectoredAddress)
    } else {
        None
    }
}

/// Where the hardware turns to for a trap with the cause code `code`: to
/// the base address where every trap enters one routine, and to the entry
/// four bytes times the code beyond the base where the table is entered by
/// absolute address. `None` where the mode bits name no mode.
pub open spec fn entry_of(bits: usize, code: usize) -> Option<int> {
    match mode_of(bits) {
        Some(TrapMode::Direct) => Some(base_of(bits) as int),
        Some(TrapMode::VectoredAddress) => Some(base_of(bits) + 4 * code),
        None => None,
    }
}

/// Where the hardware turns to for a trap with the cause code `code`, as
/// mtvec stands; `None` where the mode bits name no mode or the address
/// does not fit a register.
pub fn entry(hart: &Hart, code: usize) -> (address: Option<usize>)
    ensures
        match entry_of(hart.mtvec, code) {
            Some(a) => if a <= usize::MAX {
                address == Some(a as usize)
            } else {
                address is None
            },
            None => address is None,
        },
{
    let at = base(hart);
    match trap_mode(hart) {
        Some(TrapMode::Direct) => Some(at),
        Some(TrapMode::VectoredAddress) => match code.checked_mul(4) {
            Some(offset) => at.checked_add(offset),
            None => None,
        },
        None => None,
    }
}

/// What is written is read back: base and mode of an encoded value are the
/// address and the mode it was made from.
pub proof fn lemma_encode_decode(addr: usize, mode: TrapMode)
    requires
        addr & MTVEC_MODE_MASK == 0,
    ensures
        base_of(encode(addr, mode)) == addr,
        mode_of(encode(addr, mode)) == Some(mode),
{
    assert(base_of(addr | 0) == addr && (addr | 0) & 0x3 == 0 && base_of(addr | 3) == addr && (addr
        | 3) & 0x3 == 3) by (bit_vector)
        requires
            addr & 0x3 == 0,
    ;
}

} // verus!
