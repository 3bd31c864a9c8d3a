//! corecfgr, the core configuration register (CSR 0xBC0): pipeline control
//! and dynamic prediction control.

use crate::hart::{Csr, CsrAccess, CsrOp, Hart};
use vstd::prelude::*;

verus! {

/// The value that the vendor's start-up code gives the register.
pub const CORECFGR_DEFAULT: usize = 0x1f;

/// Reads corecfgr.
pub fn read(hart: &Hart) -> (bits: usize)
    ensures
        bits == hart.corecfgr,
{
    hart.read_csr(Csr::Corecfgr)
}

/// Sets in corecfgr every bit that is set in `bits`; the bits that are
/// already set stay set.
pub fn write(hart: &mut Hart, bits: usize)
    ensures
        *final(hart) == (Hart { corecfgr: old(hart).corecfgr | bits, ..*old(hart) }),
{
    hart.access(CsrAccess { csr: Csr::Corecfgr, op: CsrOp::SetBits, bits });
}

/// Sets the bits of the default configuration, 0x1f.
pub fn set_default(hart: &mut Hart)
    ensures
        *final(hart) == (Hart {
            corecfgr: old(hart).corecfgr | CORECFGR_DEFAULT,
            ..*old(hart)
        }),
{
    write(hart, CORECFGR_DEFAULT)
}

} // verus!
