//! Core peripherals.

use vstd::prelude::*;

pub mod stk;

verus! {

/// The address of the register block of the system timer.
pub const STK_BASE: usize = 0xE000_F000;

/// SysTick, the system timer of the core.
pub struct STK {
    pub(crate) block: stk::RegisterBlock,
}

impl View for STK {
    type V = stk::RegisterBlock;

    /// The registers of the timer.
    closed spec fn view(&self) -> stk::RegisterBlock {
        self.block
    }
}

impl STK {
    /// A timer with every register zero.
    pub fn new() -> (timer: STK)
        ensures
            timer@ == (stk::RegisterBlock { ctlr: 0, sr: 0, cntl: 0, cnth: 0, cmplr: 0, cmphr: 0 }),
    {
        STK { block: stk::RegisterBlock { ctlr: 0, sr: 0, cntl: 0, cnth: 0, cmplr: 0, cmphr: 0 } }
    }

    /// A timer whose registers hold `block`.
    pub fn from_registers(block: stk::RegisterBlock) -> (timer: STK)
        ensures
            timer@ == block,
    {
        STK { block }
    }

}

impl core::ops::Deref for STK {
    type Target = stk::RegisterBlock;

    /// The registers of the timer.
    #[inline(always)]
    fn deref(&self) -> (block: &stk::RegisterBlock)
        ensures
            *block == self@,
    {
        &self.block
    }
}

} // verus!
