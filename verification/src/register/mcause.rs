//! mcause, the cause of the last trap: one flag that tells an interrupt from
//! an exception, and below it the cause code.

use riscv::register::mcause::Mcause;
use vstd::prelude::*;

verus! {

/// The most significant bit of a register value: set for an interrupt.
pub open spec fn interrupt_flag() -> usize {
    1usize << ((usize::BITS - 1) as usize)
}

/// The cause code in `bits`: every bit below the interrupt flag.
pub open spec fn cause_code(bits: usize) -> usize {
    bits & ((interrupt_flag() - 1) as usize)
}

/// Whether `bits` reports an interrupt.
pub open spec fn cause_is_interrupt(bits: usize) -> bool {
    bits & interrupt_flag() != 0
}

/// Builds an `Mcause` of the `riscv` crate from `bits` and calls its `code`:
/// the outside function extracts the field that starts at bit 0 and reaches
/// up to the bit below the most significant one.
#[verifier::external_body]
pub(crate) fn code(bits: usize) -> (code: usize)
    ensures
        code == cause_code(bits),
{
    Mcause::from_bits(bits).code()
}

/// Builds an `Mcause` of the `riscv` crate from `bits` and calls its
/// `is_exception`: the outside function returns the negation of the most
/// significant bit.
#[verifier::external_body]
pub(crate) fn is_exception(bits: usize) -> (exception: bool)
    ensures
        exception == !cause_is_interrupt(bits),
{
    Mcause::from_bits(bits).is_exception()
}

} // verus!
