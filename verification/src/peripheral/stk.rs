//! The operations of SysTick, the 64-bit system timer.

use crate::bits::{high_half, join_words, lower_word, upper_word};
use crate::peripheral::STK;
use vstd::prelude::*;

verus! {

/// The registers of the system timer.
#[derive(Clone, Copy, Debug, PartialEq, Eq, Structural)]
pub struct RegisterBlock {
    /// Control Register
    pub ctlr: u32,
    /// State Register
    pub sr: u32,
    /// Counter Value Low
    pub cntl: u32,
    /// Counter Value High
    pub cnth: u32,
    /// Reload Value Low
    pub cmplr: u32,
    /// Reload Value High
    pub cmphr: u32,
}

/// The clock that the timer counts.
#[derive(Clone, Copy, Debug, PartialEq, Eq, Structural)]
pub enum StkClkSource {
    /// Use HCLK/8 as clock source
    HclkDiv8,
    /// Use HCLK as clock source
    Hclk,
}

/// Control register: the counter runs.
pub const STK_CTLR_STE: u32 = 0x1;

/// Control register: the counter raises its interrupt.
pub const STK_CTLR_STIE: u32 = 0x2;

/// Control register: the counter counts HCLK, not HCLK/8.
pub const STK_CTLR_STCLK: u32 = 0x4;

/// State register: the counter has wrapped.
pub const STK_SR_CNTIF: u32 = 0x1;

/// Setting a bit of a 32-bit word sets it, clearing it clears it, for the
/// bits that the timer's operations touch.
proof fn lemma_timer_bits(word: u32)
    by (bit_vector)
    ensures
        (word | 0x1) & 0x1 != 0,
        (word & !0x1u32) & 0x1 == 0,
        (word | 0x2) & 0x2 != 0,
        (word & !0x2u32) & 0x2 == 0,
        (word | 0x4) & 0x4 != 0,
        (word & !0x4u32) & 0x4 == 0,
{
}

impl RegisterBlock {
    /// The 64-bit counter value.
    pub open spec fn current(self) -> int {
        self.cnth * 0x1_0000_0000 + self.cntl
    }

    /// Whether the counter runs.
    pub open spec fn counter_enabled(self) -> bool {
        self.ctlr & STK_CTLR_STE != 0
    }

    /// Whether the counter raises its interrupt.
    pub open spec fn interrupt_enabled(self) -> bool {
        self.ctlr & STK_CTLR_STIE != 0
    }

    /// Whether the counter has wrapped since the flag was last cleared.
    pub open spec fn wrapped(self) -> bool {
        self.sr & STK_SR_CNTIF != 0
    }

    /// The clock that the timer counts.
    pub open spec fn clock_source(self) -> StkClkSource {
        if self.ctlr & STK_CTLR_STCLK != 0 {
            StkClkSource::Hclk
        } else {
            StkClkSource::HclkDiv8
        }
    }
}

impl STK {
    /// Clear current counter value's low 32 bits
    #[inline]
    pub fn clear_current_low(&mut self)
        ensures
            final(self)@ == (RegisterBlock { cntl: 0, ..old(self)@ }),
    {
        self.block.cntl = 0;
    }

    /// Clear current counter value's high 32 bits
    #[inline]
    pub fn clear_current_high(&mut self)
        ensures
            final(self)@ == (RegisterBlock { cnth: 0, ..old(self)@ }),
    {
        self.block.cnth = 0;
    }

    /// Clear the current counter value.
    /// Note: this operation is non-atomic, user should add lock if needed.
    #[inline]
    pub fn clear_current_non_atomic(&mut self)
        ensures
            final(self)@ == (RegisterBlock { cntl: 0, cnth: 0, ..old(self)@ }),
            final(self)@.current() == 0,
    {
        self.clear_current_low();
        self.clear_current_high();
    }

    /// Gets current value's low 32 bits
    #[inline]
    pub fn get_current_low(&self) -> (low: u32)
        ensures
            low == self@.cntl,
    {
        self.block.cntl
    }

    /// Gets current value's high 32 bits
    #[inline]
    pub fn get_current_high(&self) -> (high: u32)
        ensures
            high == self@.cnth,
    {
        self.block.cnth
    }

    /// Gets the current 64-bit value.
    /// Note: this operation is non-atomic, user should add lock if needed.
    #[inline]
    pub fn get_current_non_atomic(&self) -> (current: u64)
        ensures
            current == self@.current(),
    {
        join_words(self.get_current_high(), self.get_current_low())
    }

    /// Disable counter
    #[inline]
    pub fn disable_counter(&mut self)
        ensures
            final(self)@ == (RegisterBlock { ctlr: old(self)@.ctlr & !STK_CTLR_STE, ..old(self)@ }),
            !final(self)@.counter_enabled(),
    {
        proof {
            lemma_timer_bits(self.block.ctlr);
        }
        self.block.ctlr = self.block.ctlr & !STK_CTLR_STE;
    }

    /// Disable SysTick interrupt
    #[inline]
    pub fn disable_interrupt(&mut self)
        ensures
            final(self)@ == (RegisterBlock {
                ctlr: old(self)@.ctlr & !STK_CTLR_STIE,
                ..old(self)@
            }),
            !final(self)@.interrupt_enabled(),
    {
        proof {
            lemma_timer_bits(self.block.ctlr);
        }
        self.block.ctlr = self.block.ctlr & !STK_CTLR_STIE;
    }

    /// Enables counter
    #[inline]
    pub fn enable_counter(&mut self)
        ensures
            final(self)@ == (RegisterBlock { ctlr: old(self)@.ctlr | STK_CTLR_STE, ..old(self)@ }),
            final(self)@.counter_enabled(),
    {
        proof {
            lemma_timer_bits(self.block.ctlr);
        }
        self.block.ctlr = self.block.ctlr | STK_CTLR_STE;
    }

    /// Enables SysTick interrupt
    #[inline]
    pub fn enable_interrupt(&mut self)
        ensures
            final(self)@ == (RegisterBlock { ctlr: old(self)@.ctlr | STK_CTLR_STIE, ..old(self)@ }),
            final(self)@.interrupt_enabled(),
    {
        proof {
            lemma_timer_bits(self.block.ctlr);
        }
        self.block.ctlr = self.block.ctlr | STK_CTLR_STIE;
    }

    /// Chooses the clock that the timer counts.
    #[inline]
    pub fn set_clock_source(&mut self, clk_source: StkClkSource)
        ensures
            final(self)@ == (RegisterBlock {
                ctlr: match clk_source {
                    StkClkSource::Hclk => old(self)@.ctlr | STK_CTLR_STCLK,
                    StkClkSource::HclkDiv8 => old(self)@.ctlr & !STK_CTLR_STCLK,
                },
                ..old(self)@
            }),
            final(self)@.clock_source() == clk_source,
    {
        proof {
            lemma_timer_bits(self.block.ctlr);
        }
        match clk_source {
            StkClkSource::Hclk => {
                self.block.ctlr = self.block.ctlr | STK_CTLR_STCLK;
            },
            StkClkSource::HclkDiv8 => {
                self.block.ctlr = self.block.ctlr & !STK_CTLR_STCLK;
            },
        }
    }

    /// Sets reload value's low 32 bit
    #[inline]
    pub fn set_reload_low(&mut self, value: u32)
        ensures
            final(self)@ == (RegisterBlock { cmplr: value, ..old(self)@ }),
    {
        self.block.cmplr = value;
    }

    /// Sets reload value's high 32 bit
    #[inline]
    pub fn set_reload_high(&mut self, value: u32)
        ensures
            final(self)@ == (RegisterBlock { cmphr: value, ..old(self)@ }),
    {
        self.block.cmphr = value;
    }

    /// Writes the low half of `value` and then its high half, both to the
    /// low reload register: that register ends up holding the high half, and
    /// the high reload register is not written. This operation is
    /// non-atomic, user should add lock if needed.
    #[inline]
    pub fn set_reload_non_atomic(&mut self, value: u64)
        ensures
            final(self)@ == (RegisterBlock { cmplr: high_half(value), ..old(self)@ }),
    {
        self.set_reload_low(lower_word(value));
        self.set_reload_low(upper_word(value));
    }

    /// Checks if the counter wrapped (underflowed) since the last check
    #[inline]
    pub fn has_wrapped(&self) -> (wrapped: bool)
        ensures
            wrapped == self@.wrapped(),
    {
        self.block.sr & STK_SR_CNTIF != 0
    }

    /// Clear the counter wrapped (underflowed) flag
    pub fn clear_wrapped_flag(&mut self)
        ensures
            final(self)@ == (RegisterBlock { sr: old(self)@.sr & !STK_SR_CNTIF, ..old(self)@ }),
            !final(self)@.wrapped(),
    {
        proof {
            lemma_timer_bits(self.block.sr);
        }
        self.block.sr = self.block.sr & !STK_SR_CNTIF;
    }

    /// Checks if counter is enabled
    #[inline]
    pub fn is_counter_enabled(&self) -> (enabled: bool)
        ensures
            enabled == self@.counter_enabled(),
    {
        self.block.ctlr & STK_CTLR_STE != 0
    }

    /// Checks if SysTick interrupt is enabled
    #[inline]
    pub fn is_interrupt_enabled(&self) -> (enabled: bool)
        ensures
            enabled == self@.interrupt_enabled(),
    {
        self.block.ctlr & STK_CTLR_STIE != 0
    }
}

} // verus!
