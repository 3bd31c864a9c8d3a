//! The memory map of the controller: where each of its registers lies.
//!
//! The word registers come in banks of 32-bit words at consecutive
//! addresses. The priority bytes form a bank of their own, one byte for each
//! line.

use vstd::prelude::*;

verus! {

/// Interrupt enable status register 0.
pub const PFIC_ISR0: usize = 0xE000_E000;

/// Interrupt pending status register 0.
pub const PFIC_IPR0: usize = 0xE000_E020;

/// VTF base address register, on the cores that have one.
pub const PFIC_VTFBADDRR: usize = 0xE000_E044;

/// VTF line register: 8 bits for each channel.
pub const PFIC_VTFIDR: usize = 0xE000_E050;

/// VTF address register 0.
pub const PFIC_VTFADDRR0: usize = 0xE000_E060;

/// Interrupt enable register 0.
pub const PFIC_IENR0: usize = 0xE000_E100;

/// Interrupt reset-enable register 0.
pub const PFIC_IRER0: usize = 0xE000_E180;

/// Interrupt pending-set register 0.
pub const PFIC_IPSR0: usize = 0xE000_E200;

/// Interrupt pending-reset register 0.
pub const PFIC_IPRR0: usize = 0xE000_E280;

/// Interrupt active status register 0.
pub const PFIC_IACTR0: usize = 0xE000_E300;

/// Interrupt priority register 0: 8 bits for each line.
pub const PFIC_IPRIOR0: usize = 0xE000_E400;

/// System control register.
pub const PFIC_SCTLR: usize = 0xE000_ED10;

/// The banks of word registers.
#[derive(Clone, Copy, Debug, PartialEq, Eq, Structural)]
pub enum Bank {
    /// Enable status of the lines; read only.
    Isr,
    /// Pending status of the lines; read only.
    Ipr,
    /// The base address that VTF channels share.
    VtfBaddrr,
    /// The lines of the VTF channels.
    VtfIdr,
    /// The address registers of the VTF channels.
    VtfAddrr,
    /// Enables the lines whose bits are written as one; write only.
    Ienr,
    /// Disables the lines whose bits are written as one; write only.
    Irer,
    /// Makes the lines pending whose bits are written as one; write only.
    Ipsr,
    /// Takes the pending state from the lines whose bits are written as
    /// one; write only.
    Iprr,
    /// Active status of the lines; read only.
    Iactr,
    /// System control.
    Sctlr,
}

impl Bank {
    /// The address of the first word of the bank.
    pub open spec fn base(self) -> usize {
        match self {
            Bank::Isr => PFIC_ISR0,
            Bank::Ipr => PFIC_IPR0,
            Bank::VtfBaddrr => PFIC_VTFBADDRR,
            Bank::VtfIdr => PFIC_VTFIDR,
            Bank::VtfAddrr => PFIC_VTFADDRR0,
            Bank::Ienr => PFIC_IENR0,
            Bank::Irer => PFIC_IRER0,
            Bank::Ipsr => PFIC_IPSR0,
            Bank::Iprr => PFIC_IPRR0,
            Bank::Iactr => PFIC_IACTR0,
            Bank::Sctlr => PFIC_SCTLR,
        }
    }

    /// The number of words in the bank: eight for a bitmap of the lines,
    /// four for the VTF address registers, one for a single register.
    pub open spec fn words(self) -> usize {
        match self {
            Bank::VtfBaddrr | Bank::VtfIdr | Bank::Sctlr => 1,
            Bank::VtfAddrr => 4,
            _ => 8,
        }
    }

    /// Whether `address` is the address of a word of the bank.
    pub open spec fn holds(self, address: usize) -> bool {
        &&& self.base() <= address < self.base() + 4 * self.words()
        &&& (address - self.base()) % 4 == 0
    }

    /// The address of the first word of the bank.
    pub fn base_address(self) -> (address: usize)
        ensures
            address == self.base(),
    {
        match self {
            Bank::Isr => PFIC_ISR0,
            Bank::Ipr => PFIC_IPR0,
            Bank::VtfBaddrr => PFIC_VTFBADDRR,
            Bank::VtfIdr => PFIC_VTFIDR,
            Bank::VtfAddrr => PFIC_VTFADDRR0,
            Bank::Ienr => PFIC_IENR0,
            Bank::Irer => PFIC_IRER0,
            Bank::Ipsr => PFIC_IPSR0,
            Bank::Iprr => PFIC_IPRR0,
            Bank::Iactr => PFIC_IACTR0,
            Bank::Sctlr => PFIC_SCTLR,
        }
    }

    /// The number of words in the bank.
    pub fn len(self) -> (words: usize)
        ensures
            words == self.words(),
    {
        match self {
            Bank::VtfBaddrr | Bank::VtfIdr | Bank::Sctlr => 1,
            Bank::VtfAddrr => 4,
            _ => 8,
        }
    }

    /// The address of the word number `index` of the bank.
    pub fn address(self, index: usize) -> (address: usize)
        requires
            index < self.words(),
        ensures
            address == self.base() + 4 * index,
            located(address) == Some((self, index as int)),
    {
        self.base_address() + 4 * index
    }
}

/// The word register at `address`: its bank and its number in the bank, or
/// `None` where no word register lies at `address`.
pub open spec fn located(address: usize) -> Option<(Bank, int)> {
    if Bank::Isr.holds(address) {
        Some((Bank::Isr, (address - PFIC_ISR0) / 4))
    } else if Bank::Ipr.holds(address) {
        Some((Bank::Ipr, (address - PFIC_IPR0) / 4))
    } else if Bank::VtfBaddrr.holds(address) {
        Some((Bank::VtfBaddrr, 0))
    } else if Bank::VtfIdr.holds(address) {
        Some((Bank::VtfIdr, 0))
    } else if Bank::VtfAddrr.holds(address) {
        Some((Bank::VtfAddrr, (address - PFIC_VTFADDRR0) / 4))
    } else if Bank::Ienr.holds(address) {
        Some((Bank::Ienr, (address - PFIC_IENR0) / 4))
    } else if Bank::Irer.holds(address) {
        Some((Bank::Irer, (address - PFIC_IRER0) / 4))
    } else if Bank::Ipsr.holds(address) {
        Some((Bank::Ipsr, (address - PFIC_IPSR0) / 4))
    } else if Bank::Iprr.holds(address) {
        Some((Bank::Iprr, (address - PFIC_IPRR0) / 4))
    } else if Bank::Iactr.holds(address) {
        Some((Bank::Iactr, (address - PFIC_IACTR0) / 4))
    } else if Bank::Sctlr.holds(address) {
        Some((Bank::Sctlr, 0))
    } else {
        None
    }
}

/// The line whose priority byte lies at `address`, or `None` where no
/// priority byte lies there.
pub open spec fn located_priority(address: usize) -> Option<u8> {
    if PFIC_IPRIOR0 <= address < PFIC_IPRIOR0 + 256 {
        Some((address - PFIC_IPRIOR0) as u8)
    } else {
        None
    }
}

/// The number of the word of `bank` that lies at `address`, if one does.
fn in_bank(bank: Bank, address: usize) -> (index: Option<usize>)
    ensures
        index is Some <==> bank.holds(address),
        index matches Some(i) ==> address == bank.base() + 4 * i && i < bank.words(),
{
    let base = bank.base_address();
    if address >= base && address - base < 4 * bank.len() && (address - base) % 4 == 0 {
        Some((address - base) / 4)
    } else {
        None
    }
}

/// Finds the word register at `address`: its bank and its number in the
/// bank.
pub fn locate(address: usize) -> (place: Option<(Bank, usize)>)
    ensures
        place matches Some((bank, index)) ==> located(address) == Some((bank, index as int))
            && index < bank.words() && address == bank.base() + 4 * index,
        place is None <==> located(address) is None,
{
    if let Some(index) = in_bank(Bank::Isr, address) {
        Some((Bank::Isr, index))
    } else if let Some(index) = in_bank(Bank::Ipr, address) {
        Some((Bank::Ipr, index))
    } else if let Some(index) = in_bank(Bank::VtfBaddrr, address) {
        Some((Bank::VtfBaddrr, index))
    } else if let Some(index) = in_bank(Bank::VtfIdr, address) {
        Some((Bank::VtfIdr, index))
    } else if let Some(index) = in_bank(Bank::VtfAddrr, address) {
        Some((Bank::VtfAddrr, index))
    } else if let Some(index) = in_bank(Bank::Ienr, address) {
        Some((Bank::Ienr, index))
    } else if let Some(index) = in_bank(Bank::Irer, address) {
        Some((Bank::Irer, index))
    } else if let Some(index) = in_bank(Bank::Ipsr, address) {
        Some((Bank::Ipsr, index))
    } else if let Some(index) = in_bank(Bank::Iprr, address) {
        Some((Bank::Iprr, index))
    } else if let Some(index) = in_bank(Bank::Iactr, address) {
        Some((Bank::Iactr, index))
    } else if let Some(index) = in_bank(Bank::Sctlr, address) {
        Some((Bank::Sctlr, index))
    } else {
        None
    }
}

/// The address of the word that holds the bit of the line `irq` in the
/// bitmap `bank`: word `irq / 32` of the bank.
pub fn word_address(bank: Bank, irq: u8) -> (address: usize)
    requires
        bank.words() == 8,
    ensures
        address == bank.base() + 4 * (irq as int / 32),
        located(address) == Some((bank, irq as int / 32)),
{
    bank.address((irq / 32) as usize)
}

/// The address of the priority byte of the line `irq`.
pub fn priority_address(irq: u8) -> (address: usize)
    ensures
        address == PFIC_IPRIOR0 + irq,
        located_priority(address) == Some(irq),
        located(address) is None,
{
    PFIC_IPRIOR0 + irq as usize
}

/// The line whose priority byte lies at `address`.
pub fn locate_priority(address: usize) -> (line: Option<u8>)
    ensures
        line == located_priority(address),
{
    if address >= PFIC_IPRIOR0 && address - PFIC_IPRIOR0 < 256 {
        Some((address - PFIC_IPRIOR0) as u8)
    } else {
        None
    }
}

/// The address of the address register of the VTF channel `channel`.
pub fn vtf_address_register(channel: u8) -> (address: usize)
    requires
        channel < 4,
    ensures
        address == PFIC_VTFADDRR0 + 4 * channel,
        located(address) == Some((Bank::VtfAddrr, channel as int)),
{
    Bank::VtfAddrr.address(channel as usize)
}

/// No address belongs to two registers: the banks of word registers lie
/// apart from one another and from the priority bytes.
pub proof fn lemma_banks_lie_apart(a: Bank, b: Bank, address: usize)
    ensures
        a.holds(address) && b.holds(address) ==> a == b,
        a.holds(address) ==> located(address) == Some((a, (address - a.base()) / 4)),
        a.holds(address) ==> located_priority(address) is None,
{
}

} // verus!
