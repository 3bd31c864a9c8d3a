//! PFIC, the programmable fast interrupt controller.
//!
//! The controller holds, for each of its 256 interrupt lines, three bits
//! (enabled, pending, active) in bitmaps of 32-bit words, and a priority
//! byte. A line's bit is bit `line % 32` of word `line / 32`. Four channels
//! give chosen lines a fast path that bypasses the vector table (VTF).
//!
//! The operations are a stateless front of the register block: each one
//! works out an address and a value and reads or writes that register. An
//! access of one register is atomic; a sequence of accesses is not, and
//! needs a critical section where registers must agree.

use crate::bits::{
    lemma_bit_three, lemma_combined_bit, lemma_lowest_bit, lemma_replace_byte,
    lemma_single_bit_meets_itself,
};
use crate::critical_section_impl::SingleHartCriticalSection;
use crate::hart::Hart;
use crate::interrupt::{Priority, PRIORITY_MASK};
use crate::pfic::map::{
    locate, locate_priority, located, located_priority, priority_address, vtf_address_register,
    word_address, Bank, PFIC_SCTLR, PFIC_VTFIDR,
};
use vstd::prelude::*;

pub mod map;
pub mod v3;

verus! {

/// The number of interrupt lines.
pub const LINES: usize = 256;

/// The number of 32-bit words in each bitmap.
pub const WORDS: usize = 8;

/// The number of VTF channels.
pub const VTF_CHANNELS: u8 = 4;

/// The bit of the system control register that makes `wfi` behave as `wfe`.
pub const SCTLR_WFITOWFE: u32 = 0x8;

/// The bit of a VTF address register that enables the channel.
pub const VTF_ENABLE: u32 = 0x0000_0001;

/// The register block of the controller.
pub struct Pfic {
    /// Interrupt enable status, read through ISR.
    isr: [u32; 8],
    /// Interrupt pending status, read through IPR.
    ipr: [u32; 8],
    /// Interrupt active status, read through IACTR.
    iactr: [u32; 8],
    /// Interrupt priority, one byte for each line.
    iprior: [u8; 256],
    /// The lines of the four VTF channels, one byte for each channel.
    vtfidr: u32,
    /// The base address that the VTF channels of the older cores share.
    vtfbaddrr: u32,
    /// The address registers of the four VTF channels.
    vtfaddrr: [u32; 4],
    /// System control.
    sctlr: u32,
}

/// What the controller holds.
pub struct PficView {
    /// The enabled lines.
    pub enabled: Set<u8>,
    /// The pending lines.
    pub pending: Set<u8>,
    /// The lines whose handler is running.
    pub active: Set<u8>,
    /// The priority byte of each of the 256 lines.
    pub priority: Seq<u8>,
    /// The VTF line register.
    pub vtf_lines: u32,
    /// The VTF base address register.
    pub vtf_base: u32,
    /// The four VTF address registers.
    pub vtf_address: Seq<u32>,
    /// The system control register.
    pub system_control: u32,
}

/// A VTF channel.
#[derive(Clone, Copy, Debug, PartialEq, Eq)]
pub struct VtfChannel {
    /// The line that takes the fast path.
    pub line: u8,
    /// The handler's address, as far as the channel's own register holds it.
    pub handler: u32,
    /// Whether the channel is in use.
    pub enabled: bool,
}

/// The number of the bitmap word that holds the bit of `irq`.
pub open spec fn line_word(irq: u8) -> int {
    irq as int / 32
}

/// The bit of `irq` within its bitmap word.
pub open spec fn line_mask(irq: u8) -> u32 {
    1u32 << ((irq % 32) as u32)
}

/// The lines whose bit is set in the bitmap `words`.
pub open spec fn lines_set(words: Seq<u32>) -> Set<u8> {
    Set::new(|irq: u8| words[line_word(irq)] & line_mask(irq) != 0)
}

/// The lines whose bit is set in `value`, taken as the word number `word`
/// of a bitmap.
pub open spec fn lines_of_word(word: int, value: u32) -> Set<u8> {
    Set::new(|irq: u8| line_word(irq) == word && value & line_mask(irq) != 0)
}

/// Whether `value` is the word number `word` of the bitmap of `lines`: each
/// of its 32 bits says whether the bit's line is among `lines`.
pub open spec fn word_shows(value: u32, lines: Set<u8>, word: int) -> bool {
    forall|irq: u8|
        line_word(irq) == word ==> (#[trigger] lines.contains(irq) == (value & line_mask(irq)
            != 0))
}

impl PficView {
    /// Whether the view has the shape of a controller: a priority byte for
    /// each line and an address register for each VTF channel.
    pub open spec fn wf(self) -> bool {
        &&& self.priority.len() == LINES
        &&& self.vtf_address.len() == VTF_CHANNELS
    }

    /// Channel `channel` as the newer cores read the registers: the line is
    /// the channel's byte of the line register, the lowest bit of the address
    /// register enables the channel, and the rest is the handler's address.
    pub open spec fn vtf_channel(self, channel: u8) -> VtfChannel {
        VtfChannel {
            line: ((self.vtf_lines >> ((channel * 8) as u32)) & 0xff) as u8,
            handler: self.vtf_address[channel as int] & !VTF_ENABLE,
            enabled: self.vtf_address[channel as int] & VTF_ENABLE != 0,
        }
    }

    /// Whether `wfi` is made to behave as `wfe`.
    pub open spec fn wfi_is_wfe(self) -> bool {
        self.system_control & SCTLR_WFITOWFE != 0
    }

    /// The controller with the line `irq` enabled.
    pub open spec fn with_enabled(self, irq: u8) -> PficView {
        PficView { enabled: self.enabled.insert(irq), ..self }
    }

    /// The controller with the line `irq` disabled.
    pub open spec fn without_enabled(self, irq: u8) -> PficView {
        PficView { enabled: self.enabled.remove(irq), ..self }
    }

    /// The controller with the line `irq` pending.
    pub open spec fn with_pending(self, irq: u8) -> PficView {
        PficView { pending: self.pending.insert(irq), ..self }
    }

    /// The controller with the line `irq` not pending.
    pub open spec fn without_pending(self, irq: u8) -> PficView {
        PficView { pending: self.pending.remove(irq), ..self }
    }

    /// The controller with `byte` as the priority byte of the line `irq`.
    pub open spec fn with_priority(self, irq: u8, byte: u8) -> PficView {
        PficView { priority: self.priority.update(irq as int, byte), ..self }
    }

    /// The controller after the core has taken the interrupt of the line
    /// `irq`: the line is no longer pending, and it is active.
    pub open spec fn entered(self, irq: u8) -> PficView {
        PficView { pending: self.pending.remove(irq), active: self.active.insert(irq), ..self }
    }

    /// The controller after the handler of the line `irq` has returned: the
    /// line is no longer active.
    pub open spec fn left(self, irq: u8) -> PficView {
        PficView { active: self.active.remove(irq), ..self }
    }

    /// The controller with the line `irq` on the VTF channel `channel`, as
    /// the newer cores hold it: the channel's byte of the line register is
    /// `irq`, and the channel's address register holds `address` with the
    /// enable bit set.
    pub open spec fn with_vtf(self, channel: u8, irq: u8, address: u32) -> PficView {
        PficView {
            vtf_lines: lines_with_channel(self.vtf_lines, channel, irq),
            vtf_address: self.vtf_address.update(channel as int, address | VTF_ENABLE),
            ..self
        }
    }

    /// The controller with the VTF channel `channel` out of use, as the
    /// newer cores hold it: the enable bit of the channel's address register
    /// is clear.
    pub open spec fn without_vtf(self, channel: u8) -> PficView {
        PficView {
            vtf_address: self.vtf_address.update(
                channel as int,
                self.vtf_address[channel as int] & !VTF_ENABLE,
            ),
            ..self
        }
    }

    /// The controller with the bit that makes `wfi` behave as `wfe` set to
    /// `v`.
    pub open spec fn with_wfi_as_wfe(self, v: bool) -> PficView {
        PficView { system_control: control_with_wfi_as_wfe(self.system_control, v), ..self }
    }

    /// The controller after `value` is written to the word register at
    /// `address`. A write to an enable or pending register acts on the lines
    /// whose bits are written as one and leaves the others; a write to a
    /// VTF or system control register replaces what it holds; a write to a
    /// status register, or to an address where no word register lies, does
    /// nothing.
    pub open spec fn after_write32(self, address: usize, value: u32) -> PficView {
        match located(address) {
            Some((Bank::Ienr, word)) => PficView {
                enabled: self.enabled.union(lines_of_word(word, value)),
                ..self
            },
            Some((Bank::Irer, word)) => PficView {
                enabled: self.enabled.difference(lines_of_word(word, value)),
                ..self
            },
            Some((Bank::Ipsr, word)) => PficView {
                pending: self.pending.union(lines_of_word(word, value)),
                ..self
            },
            Some((Bank::Iprr, word)) => PficView {
                pending: self.pending.difference(lines_of_word(word, value)),
                ..self
            },
            Some((Bank::VtfBaddrr, _)) => PficView { vtf_base: value, ..self },
            Some((Bank::VtfIdr, _)) => PficView { vtf_lines: value, ..self },
            Some((Bank::VtfAddrr, channel)) => PficView {
                vtf_address: self.vtf_address.update(channel, value),
                ..self
            },
            Some((Bank::Sctlr, _)) => PficView { system_control: value, ..self },
            _ => self,
        }
    }

    /// Whether `value` is what a read of the word register at `address`
    /// gives. A status register shows its 32 lines; a VTF or system control
    /// register gives back what it holds; a write-only register, and an
    /// address where no word register lies, give nothing.
    pub open spec fn reads32(self, address: usize, value: Option<u32>) -> bool {
        match located(address) {
            Some((Bank::Isr, word)) => value is Some && word_shows(value->0, self.enabled, word),
            Some((Bank::Ipr, word)) => value is Some && word_shows(value->0, self.pending, word),
            Some((Bank::Iactr, word)) => value is Some && word_shows(value->0, self.active, word),
            Some((Bank::VtfBaddrr, _)) => value == Some(self.vtf_base),
            Some((Bank::VtfIdr, _)) => value == Some(self.vtf_lines),
            Some((Bank::VtfAddrr, channel)) => value == Some(self.vtf_address[channel]),
            Some((Bank::Sctlr, _)) => value == Some(self.system_control),
            _ => value is None,
        }
    }

    /// The controller after `value` is written to the priority byte at
    /// `address`; a write to an address where no priority byte lies does
    /// nothing.
    pub open spec fn after_write8(self, address: usize, value: u8) -> PficView {
        match located_priority(address) {
            Some(irq) => self.with_priority(irq, value),
            None => self,
        }
    }

    /// What a read of the priority byte at `address` gives.
    pub open spec fn read8(self, address: usize) -> Option<u8> {
        match located_priority(address) {
            Some(irq) => Some(self.priority[irq as int]),
            None => None,
        }
    }
}

impl View for Pfic {
    type V = PficView;

    closed spec fn view(&self) -> PficView {
        PficView {
            enabled: lines_set(self.isr@),
            pending: lines_set(self.ipr@),
            active: lines_set(self.iactr@),
            priority: self.iprior@,
            vtf_lines: self.vtfidr,
            vtf_base: self.vtfbaddrr,
            vtf_address: self.vtfaddrr@,
            system_control: self.sctlr,
        }
    }
}

/// The VTF line register `lines` with `irq` as the line of the channel
/// `channel`.
pub open spec fn lines_with_channel(lines: u32, channel: u8, irq: u8) -> u32 {
    let shift = (channel * 8) as u32;
    (lines & !(0xffu32 << shift)) | ((irq as u32) << shift)
}

/// The system control register `control` with the bit that makes `wfi`
/// behave as `wfe` set to `v`.
pub open spec fn control_with_wfi_as_wfe(control: u32, v: bool) -> u32 {
    if v {
        control | SCTLR_WFITOWFE
    } else {
        control & !SCTLR_WFITOWFE
    }
}

/// The number of the bitmap word that holds the bit of `irq`.
pub fn word_index(irq: u8) -> (word: usize)
    ensures
        word == line_word(irq),
        word < WORDS,
{
    (irq / 32) as usize
}

/// The bit of `irq` within its bitmap word.
pub fn word_mask(irq: u8) -> (mask: u32)
    ensures
        mask == line_mask(irq),
{
    1u32 << ((irq % 32) as u32)
}

/// Whether the bit of `irq` is set in `word`, the word of a bitmap that
/// holds it.
pub fn line_is_set(word: u32, irq: u8) -> (set: bool)
    ensures
        set == (word & line_mask(irq) != 0),
{
    word & word_mask(irq) != 0
}

/// The value of the VTF line register that names `irq` as the line of the
/// channel `channel` and keeps the lines of the other channels of `lines`.
pub fn vtf_lines_value(lines: u32, channel: u8, irq: u8) -> (value: u32)
    requires
        channel < VTF_CHANNELS,
    ensures
        value == lines_with_channel(lines, channel, irq),
{
    // [31:24]: Numbering of VTF interrupt 3
    // [23:16]: Numbering of VTF interrupt 2
    // [15:8]: Numbering of VTF interrupt 1
    // [7:0]: Numbering of VTF interrupt 0
    let shift: u32 = (channel as u32) * 8;
    let irq_bits = (irq as u32) << shift;
    let irq_mask = 0xFFu32 << shift;
    lines & !irq_mask | irq_bits
}

/// The value of a VTF address register for a channel that is in use, with
/// the handler at `address`.
pub fn vtf_enabled_value(address: u32) -> (value: u32)
    ensures
        value == address | VTF_ENABLE,
{
    address | 0x0000_0001
}

/// The value of a VTF address register that holds `value`, for a channel
/// that is out of use.
pub fn vtf_disabled_value(value: u32) -> (disabled: u32)
    ensures
        disabled == value & !VTF_ENABLE,
{
    proof {
        lemma_lowest_bit(value);
    }
    value & 0xFFFF_FFFE
}

/// The value of the system control register that holds `control`, with the
/// bit that makes `wfi` behave as `wfe` set to `v`.
pub fn control_value(control: u32, v: bool) -> (value: u32)
    ensures
        value == control_with_wfi_as_wfe(control, v),
{
    let mut val = control;
    // 0x8 is WFITOWFE bit
    if v {
        val |= 0x8;
    } else {
        val &= !0x8;
    }
    val
}

/// Writing `value` over the bits of word `word` of a bitmap adds the lines
/// of `value` to the lines of the bitmap.
proof fn lemma_bitmap_set(before: Seq<u32>, word: int, value: u32)
    requires
        before.len() == WORDS,
        0 <= word < WORDS,
    ensures
        lines_set(before.update(word, before[word] | value)) == lines_set(before).union(
            lines_of_word(word, value),
        ),
{
    let after = before.update(word, before[word] | value);
    assert forall|irq: u8|
        lines_set(after).contains(irq) == lines_set(before).union(
            lines_of_word(word, value),
        ).contains(irq) by {
        if line_word(irq) == word {
            lemma_combined_bit(before[word], value, (irq % 32) as u32);
        }
    }
    assert(lines_set(after) =~= lines_set(before).union(lines_of_word(word, value)));
}

/// Clearing the bits of `value` in word `word` of a bitmap takes the lines
/// of `value` from the lines of the bitmap.
proof fn lemma_bitmap_clear(before: Seq<u32>, word: int, value: u32)
    requires
        before.len() == WORDS,
        0 <= word < WORDS,
    ensures
        lines_set(before.update(word, before[word] & !value)) == lines_set(before).difference(
            lines_of_word(word, value),
        ),
{
    let after = before.update(word, before[word] & !value);
    assert forall|irq: u8|
        lines_set(after).contains(irq) == lines_set(before).difference(
            lines_of_word(word, value),
        ).contains(irq) by {
        if line_word(irq) == word {
            lemma_combined_bit(before[word], value, (irq % 32) as u32);
        }
    }
    assert(lines_set(after) =~= lines_set(before).difference(lines_of_word(word, value)));
}

/// The mask of a line, written to the line's word, names that line alone;
/// the word zero names no line.
pub proof fn lemma_mask_names_one_line(irq: u8)
    ensures
        lines_of_word(line_word(irq), line_mask(irq)) == set![irq],
        forall|word: int| lines_of_word(word, 0) == Set::<u8>::empty(),
{
    assert forall|other: u8|
        lines_of_word(line_word(irq), line_mask(irq)).contains(other) == (other == irq) by {
        lemma_single_bit_meets_itself((irq % 32) as u32, (other % 32) as u32);
    }
    assert(lines_of_word(line_word(irq), line_mask(irq)) =~= set![irq]);
    assert forall|word: int| lines_of_word(word, 0) == Set::<u8>::empty() by {
        assert forall|other: u8| !lines_of_word(word, 0).contains(other) by {
            lemma_single_bit_meets_itself(0, (other % 32) as u32);
        }
        assert(lines_of_word(word, 0) =~= Set::<u8>::empty());
    }
}

impl Pfic {
    /// A controller with every register zero: no line enabled, pending or
    /// active, every priority zero, no VTF channel in use.
    pub fn new() -> (pfic: Pfic)
        ensures
            pfic@.enabled == Set::<u8>::empty(),
            pfic@.pending == Set::<u8>::empty(),
            pfic@.active == Set::<u8>::empty(),
            pfic@.priority == Seq::new(LINES as nat, |i: int| 0u8),
            pfic@.vtf_lines == 0,
            pfic@.vtf_base == 0,
            pfic@.vtf_address == Seq::new(VTF_CHANNELS as nat, |i: int| 0u32),
            pfic@.system_control == 0,
    {
        let pfic = Pfic {
            isr: [0u32;8],
            ipr: [0u32;8],
            iactr: [0u32;8],
            iprior: [0u8;256],
            vtfidr: 0,
            vtfbaddrr: 0,
            vtfaddrr: [0u32;4],
            sctlr: 0,
        };
        proof {
            assert forall|irq: u8| !lines_set(pfic.isr@).contains(irq) by {
                lemma_single_bit_meets_itself(0, (irq % 32) as u32);
            }
            assert(pfic@.enabled =~= Set::<u8>::empty());
            assert(pfic@.pending =~= Set::<u8>::empty());
            assert(pfic@.active =~= Set::<u8>::empty());
            assert(pfic@.priority =~= Seq::new(LINES as nat, |i: int| 0u8));
            assert(pfic@.vtf_address =~= Seq::new(VTF_CHANNELS as nat, |i: int| 0u32));
        }
        pfic
    }

    /// The view has one priority byte for each line and one address register
    /// for each VTF channel.
    pub proof fn lemma_view_wf(self)
        ensures
            self@.wf(),
    {
    }

    /// Writes `value` to the word register at `address`.
    pub fn write32(&mut self, address: usize, value: u32)
        ensures
            final(self)@ == old(self)@.after_write32(address, value),
    {
        match locate(address) {
            Some((Bank::Ienr, word)) => {
                proof {
                    lemma_bitmap_set(self.isr@, word as int, value);
                }
                self.isr[word] = self.isr[word] | value;
            },
            Some((Bank::Irer, word)) => {
                proof {
                    lemma_bitmap_clear(self.isr@, word as int, value);
                }
                self.isr[word] = self.isr[word] & !value;
            },
            Some((Bank::Ipsr, word)) => {
                proof {
                    lemma_bitmap_set(self.ipr@, word as int, value);
                }
                self.ipr[word] = self.ipr[word] | value;
            },
            Some((Bank::Iprr, word)) => {
                proof {
                    lemma_bitmap_clear(self.ipr@, word as int, value);
                }
                self.ipr[word] = self.ipr[word] & !value;
            },
            Some((Bank::VtfBaddrr, _)) => {
                self.vtfbaddrr = value;
            },
            Some((Bank::VtfIdr, _)) => {
                self.vtfidr = value;
            },
            Some((Bank::VtfAddrr, channel)) => {
                self.vtfaddrr[channel] = value;
            },
            Some((Bank::Sctlr, _)) => {
                self.sctlr = value;
            },
            _ => {},
        }
    }

    /// Reads the word register at `address`.
    pub fn read32(&self, address: usize) -> (value: Option<u32>)
        ensures
            self@.reads32(address, value),
    {
        match locate(address) {
            Some((Bank::Isr, word)) => Some(self.isr[word]),
            Some((Bank::Ipr, word)) => Some(self.ipr[word]),
            Some((Bank::Iactr, word)) => Some(self.iactr[word]),
            Some((Bank::VtfBaddrr, _)) => Some(self.vtfbaddrr),
            Some((Bank::VtfIdr, _)) => Some(self.vtfidr),
            Some((Bank::VtfAddrr, channel)) => Some(self.vtfaddrr[channel]),
            Some((Bank::Sctlr, _)) => Some(self.sctlr),
            _ => None,
        }
    }

    /// Writes `value` to the priority byte at `address`.
    pub fn write8(&mut self, address: usize, value: u8)
        ensures
            final(self)@ == old(self)@.after_write8(address, value),
    {
        if let Some(irq) = locate_priority(address) {
            self.iprior[irq as usize] = value;
        }
    }

    /// Reads the priority byte at `address`.
    pub fn read8(&self, address: usize) -> (value: Option<u8>)
        ensures
            value == self@.read8(address),
    {
        match locate_priority(address) {
            Some(irq) => Some(self.iprior[irq as usize]),
            None => None,
        }
    }
}

/// Enables the line `irq`: writes the line's bit to the enable register,
/// which only ever sets bits.
#[inline]
pub fn enable_interrupt(pfic: &mut Pfic, irq: u8)
    ensures
        final(pfic)@ == old(pfic)@.with_enabled(irq),
{
    proof {
        lemma_mask_names_one_line(irq);
        assert(pfic@.enabled.union(set![irq]) =~= pfic@.enabled.insert(irq));
    }
    pfic.write32(word_address(Bank::Ienr, irq), word_mask(irq));
}

/// Disables the line `irq`: writes the line's bit to the reset-enable
/// register, which only ever clears bits.
#[inline]
pub fn disable_interrupt(pfic: &mut Pfic, irq: u8)
    ensures
        final(pfic)@ == old(pfic)@.without_enabled(irq),
{
    proof {
        lemma_mask_names_one_line(irq);
        assert(pfic@.enabled.difference(set![irq]) =~= pfic@.enabled.remove(irq));
    }
    pfic.write32(word_address(Bank::Irer, irq), word_mask(irq));
}

/// Whether the line `irq` is enabled.
#[inline]
pub fn is_enabled(pfic: &Pfic, irq: u8) -> (enabled: bool)
    ensures
        enabled == pfic@.enabled.contains(irq),
{
    match pfic.read32(word_address(Bank::Isr, irq)) {
        Some(word) => line_is_set(word, irq),
        None => false,
    }
}

/// Whether the line `irq` is disabled.
#[inline]
pub fn is_disabled(pfic: &Pfic, irq: u8) -> (disabled: bool)
    ensures
        disabled == !pfic@.enabled.contains(irq),
{
    !is_enabled(pfic, irq)
}

/// Whether the line `irq` is pending.
#[inline]
pub fn is_pending(pfic: &Pfic, irq: u8) -> (pending: bool)
    ensures
        pending == pfic@.pending.contains(irq),
{
    match pfic.read32(word_address(Bank::Ipr, irq)) {
        Some(word) => line_is_set(word, irq),
        None => false,
    }
}

/// Makes the line `irq` pending: writes the line's bit to the pending-set
/// register.
#[inline]
pub fn pend_interrupt(pfic: &mut Pfic, irq: u8)
    ensures
        final(pfic)@ == old(pfic)@.with_pending(irq),
{
    proof {
        lemma_mask_names_one_line(irq);
        assert(pfic@.pending.union(set![irq]) =~= pfic@.pending.insert(irq));
    }
    pfic.write32(word_address(Bank::Ipsr, irq), word_mask(irq));
}

/// Takes the pending state from the line `irq`: writes the line's bit to the
/// pending-reset register.
#[inline]
pub fn unpend_interrupt(pfic: &mut Pfic, irq: u8)
    ensures
        final(pfic)@ == old(pfic)@.without_pending(irq),
{
    proof {
        lemma_mask_names_one_line(irq);
        assert(pfic@.pending.difference(set![irq]) =~= pfic@.pending.remove(irq));
    }
    pfic.write32(word_address(Bank::Iprr, irq), word_mask(irq));
}

/// Whether the handler of the line `irq` is running.
#[inline]
pub fn is_active(pfic: &Pfic, irq: u8) -> (active: bool)
    ensures
        active == pfic@.active.contains(irq),
{
    match pfic.read32(word_address(Bank::Iactr, irq)) {
        Some(word) => line_is_set(word, irq),
        None => false,
    }
}

/// Writes the priority byte of the line `irq`. The high nibble of the byte
/// is the priority; the low nibble is reserved.
#[inline]
pub fn set_priority(pfic: &mut Pfic, irq: u8, priority: u8)
    ensures
        final(pfic)@ == old(pfic)@.with_priority(irq, priority),
{
    pfic.write8(priority_address(irq), priority);
}

/// Reads the priority byte of the line `irq`.
#[inline]
pub fn get_priority(pfic: &Pfic, irq: u8) -> (priority: u8)
    ensures
        priority == pfic@.priority[irq as int],
{
    match pfic.read8(priority_address(irq)) {
        Some(priority) => priority,
        None => 0,
    }
}

/// What `with_vtf` does to the channels: channel `channel` holds the line
/// and the handler's address and is in use, and every other channel is as it
/// was.
pub proof fn lemma_with_vtf(pfic: PficView, channel: u8, irq: u8, address: u32)
    requires
        pfic.wf(),
        channel < VTF_CHANNELS,
    ensures
        pfic.with_vtf(channel, irq, address).wf(),
        pfic.with_vtf(channel, irq, address).vtf_channel(channel) == (VtfChannel {
            line: irq,
            handler: address & !VTF_ENABLE,
            enabled: true,
        }),
        forall|other: u8|
            other < VTF_CHANNELS && other != channel ==> #[trigger] pfic.with_vtf(
                channel,
                irq,
                address,
            ).vtf_channel(other) == pfic.vtf_channel(other),
{
    let after = pfic.with_vtf(channel, irq, address);
    lemma_lowest_bit(address);
    assert forall|other: u8| other < VTF_CHANNELS implies #[trigger] after.vtf_channel(other) == (
    if other == channel {
        VtfChannel { line: irq, handler: address & !VTF_ENABLE, enabled: true }
    } else {
        pfic.vtf_channel(other)
    }) by {
        lemma_replace_byte(pfic.vtf_lines, irq as u32, (channel * 8) as u32, (other * 8) as u32);
    }
}

/// What `without_vtf` does to the channels: channel `channel` is out of use
/// and keeps its line and its handler's address, and every other channel is
/// as it was.
pub proof fn lemma_without_vtf(pfic: PficView, channel: u8)
    requires
        pfic.wf(),
        channel < VTF_CHANNELS,
    ensures
        pfic.without_vtf(channel).wf(),
        pfic.without_vtf(channel).vtf_channel(channel) == (VtfChannel {
            enabled: false,
            ..pfic.vtf_channel(channel)
        }),
        forall|other: u8|
            other < VTF_CHANNELS && other != channel ==> #[trigger] pfic.without_vtf(
                channel,
            ).vtf_channel(other) == pfic.vtf_channel(other),
{
    lemma_lowest_bit(pfic.vtf_address[channel as int]);
}

/// Enabling a VTF channel and then disabling it leaves the channel out of
/// use, with the line and the handler that it was given, and leaves the
/// other three channels and the state of every line as they were before.
pub proof fn lemma_vtf_enable_then_disable(pfic: PficView, channel: u8, irq: u8, address: u32)
    requires
        pfic.wf(),
        channel < VTF_CHANNELS,
    ensures
        ({
            let after = pfic.with_vtf(channel, irq, address).without_vtf(channel);
            &&& !after.vtf_channel(channel).enabled
            &&& after.vtf_channel(channel).line == irq
            &&& after.vtf_channel(channel).handler == address & !VTF_ENABLE
            &&& forall|other: u8|
                other < VTF_CHANNELS && other != channel ==> #[trigger] after.vtf_channel(other)
                    == pfic.vtf_channel(other)
            &&& after.enabled == pfic.enabled
            &&& after.pending == pfic.pending
            &&& after.active == pfic.active
            &&& after.priority == pfic.priority
            &&& after.vtf_base == pfic.vtf_base
            &&& after.system_control == pfic.system_control
        }),
{
    let enabled = pfic.with_vtf(channel, irq, address);
    lemma_with_vtf(pfic, channel, irq, address);
    lemma_without_vtf(enabled, channel);
    let after = enabled.without_vtf(channel);
    assert forall|other: u8| other < VTF_CHANNELS && other != channel implies #[trigger] after
        .vtf_channel(other) == pfic.vtf_channel(other) by {
        assert(enabled.vtf_channel(other) == pfic.vtf_channel(other));
    }
}

/// The priority byte that was written to a line is the one that is read
/// from it, so the priority in its high nibble comes back unchanged; the
/// bytes of the other lines stay.
pub proof fn lemma_priority_read_back(pfic: PficView, irq: u8, byte: u8)
    requires
        pfic.wf(),
    ensures
        pfic.with_priority(irq, byte).priority[irq as int] == byte,
        Priority::of_byte(pfic.with_priority(irq, byte).priority[irq as int]) == Priority::of_byte(
            byte,
        ),
        pfic.with_priority(irq, byte).priority[irq as int] & PRIORITY_MASK == byte & PRIORITY_MASK,
        forall|other: u8|
            other != irq ==> #[trigger] pfic.with_priority(irq, byte).priority[other as int]
                == pfic.priority[other as int],
{
}

/// Gives the line `irq` the fast path of the VTF channel `channel`, with the
/// handler at `address`. The lowest bit of `address` is not part of the
/// handler's address: the register holds the channel's enable bit there.
pub fn enable_vtf(pfic: &mut Pfic, channel: u8, irq: u8, address: u32)
    requires
        channel < VTF_CHANNELS,
    ensures
        final(pfic)@ == old(pfic)@.with_vtf(channel, irq, address),
        final(pfic)@.vtf_channel(channel) == (VtfChannel {
            line: irq,
            handler: address & !VTF_ENABLE,
            enabled: true,
        }),
        forall|other: u8|
            other < VTF_CHANNELS && other != channel ==> #[trigger] final(pfic)@.vtf_channel(other)
                == old(pfic)@.vtf_channel(other),
{
    proof {
        pfic.lemma_view_wf();
        lemma_with_vtf(pfic@, channel, irq, address);
    }
    let lines = match pfic.read32(PFIC_VTFIDR) {
        Some(lines) => lines,
        None => 0,
    };
    pfic.write32(PFIC_VTFIDR, vtf_lines_value(lines, channel, irq));

    pfic.write32(vtf_address_register(channel), vtf_enabled_value(address));
}

/// Takes the VTF channel `channel` out of use. The channel keeps its line
/// and its handler's address; the other channels are not touched.
pub fn disable_vtf(pfic: &mut Pfic, channel: u8)
    requires
        channel < VTF_CHANNELS,
    ensures
        final(pfic)@ == old(pfic)@.without_vtf(channel),
        final(pfic)@.vtf_channel(channel) == (VtfChannel {
            enabled: false,
            ..old(pfic)@.vtf_channel(channel)
        }),
        forall|other: u8|
            other < VTF_CHANNELS && other != channel ==> #[trigger] final(pfic)@.vtf_channel(other)
                == old(pfic)@.vtf_channel(other),
{
    proof {
        pfic.lemma_view_wf();
        lemma_without_vtf(pfic@, channel);
    }
    let val = match pfic.read32(vtf_address_register(channel)) {
        Some(val) => val,
        None => 0,
    };
    pfic.write32(vtf_address_register(channel), vtf_disabled_value(val));
}

/// Makes `wfi` behave as `wfe` where `v` is true, and as itself where it is
/// false, inside a critical section on `hart`. The hart is left as it was.
pub fn wfi_to_wfe(hart: &mut Hart, pfic: &mut Pfic, v: bool)
    ensures
        final(pfic)@ == old(pfic)@.with_wfi_as_wfe(v),
        final(pfic)@.wfi_is_wfe() == v,
        *final(hart) == *old(hart),
{
    let irq_state = SingleHartCriticalSection::acquire(hart);
    let val = match pfic.read32(PFIC_SCTLR) {
        Some(val) => val,
        None => 0,
    };
    pfic.write32(PFIC_SCTLR, control_value(val, v));
    SingleHartCriticalSection::release(hart, irq_state);
    proof {
        lemma_bit_three(old(pfic)@.system_control);
        SingleHartCriticalSection::lemma_round_trip(*old(hart));
    }
}

/// What the controller does when the core takes the interrupt of the line
/// `irq`: the line must be enabled and pending; it then stops being
/// pending and becomes active. Returns whether the interrupt was taken;
/// where it was not, nothing changes.
pub fn enter_handler(pfic: &mut Pfic, irq: u8) -> (taken: bool)
    ensures
        taken == (old(pfic)@.enabled.contains(irq) && old(pfic)@.pending.contains(irq)),
        taken ==> final(pfic)@ == old(pfic)@.entered(irq),
        !taken ==> final(pfic)@ == old(pfic)@,
{
    if is_enabled(pfic, irq) && is_pending(pfic, irq) {
        let offset = word_index(irq);
        let mask = word_mask(irq);
        proof {
            lemma_mask_names_one_line(irq);
            lemma_bitmap_clear(pfic.ipr@, offset as int, mask);
            lemma_bitmap_set(pfic.iactr@, offset as int, mask);
            assert(pfic@.pending.difference(set![irq]) =~= pfic@.pending.remove(irq));
            assert(pfic@.active.union(set![irq]) =~= pfic@.active.insert(irq));
        }
        pfic.ipr[offset] = pfic.ipr[offset] & !mask;
        pfic.iactr[offset] = pfic.iactr[offset] | mask;
        true
    } else {
        false
    }
}

/// What the controller does when the handler of the line `irq` returns:
/// the line stops being active.
pub fn leave_handler(pfic: &mut Pfic, irq: u8)
    ensures
        final(pfic)@ == old(pfic)@.left(irq),
{
    let offset = word_index(irq);
    let mask = word_mask(irq);
    proof {
        lemma_mask_names_one_line(irq);
        lemma_bitmap_clear(pfic.iactr@, offset as int, mask);
        assert(pfic@.active.difference(set![irq]) =~= pfic@.active.remove(irq));
    }
    pfic.iactr[offset] = pfic.iactr[offset] & !mask;
}

/// Reads the VTF channel `channel`: its line, its handler's address, and
/// whether it is in use.
pub fn read_vtf(pfic: &Pfic, channel: u8) -> (state: VtfChannel)
    requires
        channel < VTF_CHANNELS,
    ensures
        state == pfic@.vtf_channel(channel),
{
    let shift: u32 = (channel as u32) * 8;
    let lines = match pfic.read32(PFIC_VTFIDR) {
        Some(lines) => lines,
        None => 0,
    };
    let val = match pfic.read32(vtf_address_register(channel)) {
        Some(val) => val,
        None => 0,
    };
    proof {
        lemma_replace_byte(lines, 0, shift, shift);
    }
    VtfChannel {
        line: ((lines >> shift) & 0xff) as u8,
        handler: val & !VTF_ENABLE,
        enabled: val & VTF_ENABLE != 0,
    }
}

/// Whether `wfi` is made to behave as `wfe`.
pub fn is_wfi_to_wfe(pfic: &Pfic) -> (v: bool)
    ensures
        v == pfic@.wfi_is_wfe(),
{
    match pfic.read32(PFIC_SCTLR) {
        Some(val) => val & SCTLR_WFITOWFE != 0,
        None => false,
    }
}

} // verus!
