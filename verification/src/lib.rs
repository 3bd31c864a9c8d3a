//! Low-level support for WCH's QingKe RISC-V cores.
//!
//! The crate holds the interrupt side of the core: the interrupt controller
//! ([`pfic`]), the control and status registers that are particular to the
//! core ([`register`]), the critical section of a single hart
//! ([`critical_section_impl`]), and the runtime ([`rt`]) with the vector
//! tables, the trap dispatcher, the interrupt setup and the boot sequence.
//!
//! Every operation acts on an explicit value that stands for the hardware
//! it touches: a [`hart::Hart`] for the registers of the hart, a
//! [`pfic::Pfic`] for the register block of the controller, a vector of
//! bytes for the memory. What an operation does to the hardware is its
//! contract over these values. The operations that only work out an address
//! or a register value are the same for the model and for the hardware.

pub mod bits;
pub mod critical_section_impl;
pub mod hart;
pub mod interrupt;
pub mod peripheral;
pub mod pfic;
pub mod register;
pub mod rt;
