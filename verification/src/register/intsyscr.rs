//! intsyscr, the interrupt system control register (CSR 0x804).
//!
//! Writing 0x3 to it enables nested interrupts and the hardware stack.

use crate::bits::{get_bit, get_bits, lemma_bit_range_is_shift_and_mask, lemma_single_bits};
use crate::hart::{Csr, Hart};
use vstd::prelude::*;

verus! {

/// A value of the intsyscr register.
#[derive(Clone, Copy, Debug)]
pub struct Intsyscr {
    bits: usize,
}

impl View for Intsyscr {
    type V = usize;

    /// The register value.
    closed spec fn view(&self) -> usize {
        self.bits
    }
}

impl Intsyscr {
    /// The register value `bits`.
    pub fn from_bits(bits: usize) -> (r: Intsyscr)
        ensures
            r@ == bits,
    {
        Intsyscr { bits }
    }

    /// The register value as a word.
    pub fn bits(&self) -> (bits: usize)
        ensures
            bits == self@,
    {
        self.bits
    }

    /// Hardware stack enable: bit 0.
    #[inline]
    pub fn hwstken(&self) -> (r: bool)
        ensures
            r == (self@ & 0x1 != 0),
    {
        proof {
            lemma_single_bits(self.bits);
        }
        get_bit(self.bits, 0)
    }

    /// Interrupt nesting enable: bit 1.
    #[inline]
    pub fn inesten(&self) -> (r: bool)
        ensures
            r == (self@ & 0x2 != 0),
    {
        proof {
            lemma_single_bits(self.bits);
        }
        get_bit(self.bits, 1)
    }

    /// Preemption configuration: bits 2 and 3.
    #[inline]
    pub fn pmtcfg(&self) -> (r: u8)
        ensures
            r == (self@ >> 2usize) & 0x3,
    {
        proof {
            lemma_bit_range_is_shift_and_mask(self.bits);
        }
        get_bits(self.bits, 2, 3) as u8
    }

    /// Hardware stack overflow enable: bit 4.
    #[inline]
    pub fn hwstkoven(&self) -> (r: bool)
        ensures
            r == (self@ & 0x10 != 0),
    {
        proof {
            lemma_single_bits(self.bits);
        }
        get_bit(self.bits, 4)
    }

    /// Global interrupt hardware stack enable: bit 5.
    #[inline]
    pub fn gihwstknen(&self) -> (r: bool)
        ensures
            r == (self@ & 0x20 != 0),
    {
        proof {
            lemma_single_bits(self.bits);
        }
        get_bit(self.bits, 5)
    }

    /// Preemption status: bits 8 to 15.
    #[inline]
    pub fn pmtsta(&self) -> (r: u8)
        ensures
            r == (self@ >> 8usize) & 0xff,
    {
        proof {
            lemma_bit_range_is_shift_and_mask(self.bits);
        }
        get_bits(self.bits, 8, 15) as u8
    }
}

/// Reads intsyscr.
pub fn read(hart: &Hart) -> (r: Intsyscr)
    ensures
        r@ == hart.intsyscr,
{
    Intsyscr { bits: hart.read_csr(Csr::Intsyscr) }
}

} // verus!
