//! The boot sequence: what the core does between reset and the first
//! instruction of the application.
//!
//! Memory is a sequence of bytes, addressed from zero. A word is four
//! bytes; the sequence moves and clears whole words only, so a range whose
//! length is no multiple of four is rounded up to the next word.

use crate::hart::{
    previous_privilege, Csr, CsrAccess, CsrOp, Hart, Privilege, MSTATUS_FS_HIGH, MSTATUS_FS_LOW,
};
use crate::rt::setup::{configured, lemma_configured, qingke_setup_interrupts, Core};
use vstd::prelude::*;

verus! {

/// The number of bytes in a word.
pub const WORD_BYTES: usize = 4;

/// The number of words that the sequence handles for the range from `start`
/// up to `end`: none where the range is empty, and else as many as it takes
/// to cover the range.
pub open spec fn word_count(start: int, end: int) -> nat {
    if start < end {
        ((end - start + 3) / 4) as nat
    } else {
        0
    }
}

/// `memory` after the word at `src` has been read and stored at `dst`.
pub open spec fn with_word_copied(memory: Seq<u8>, src: int, dst: int) -> Seq<u8> {
    Seq::new(
        memory.len(),
        |i: int|
            if dst <= i < dst + 4 {
                memory[src + (i - dst)]
            } else {
                memory[i]
            },
    )
}

/// `memory` after `words` words have been copied from `src` to `dst`, one
/// after the other and lowest address first: the last word is copied into
/// the memory that the copying of the words before it has left.
pub open spec fn with_words_copied(memory: Seq<u8>, src: int, dst: int, words: nat) -> Seq<u8>
    decreases words,
{
    if words == 0 {
        memory
    } else {
        with_word_copied(
            with_words_copied(memory, src, dst, (words - 1) as nat),
            src + 4 * (words - 1),
            dst + 4 * (words - 1),
        )
    }
}

/// `memory` after `words` words from `start` on have been cleared.
pub open spec fn with_words_zeroed(memory: Seq<u8>, start: int, words: nat) -> Seq<u8> {
    Seq::new(
        memory.len(),
        |i: int|
            if start <= i < start + 4 * words {
                0u8
            } else {
                memory[i]
            },
    )
}

/// Copying words changes nothing but the words that it writes, and where
/// it overwrites no word that it has yet to read, each byte written is the
/// byte that the memory held at the same place of the source before.
pub proof fn lemma_copy_is_exact(memory: Seq<u8>, src: int, dst: int, words: nat)
    requires
        0 <= src,
        0 <= dst,
        src + 4 * words <= memory.len(),
        dst + 4 * words <= memory.len(),
    ensures
        with_words_copied(memory, src, dst, words).len() == memory.len(),
        forall|j: int|
            0 <= j < memory.len() && !(dst <= j < dst + 4 * words) ==> #[trigger] with_words_copied(
                memory,
                src,
                dst,
                words,
            )[j] == memory[j],
        dst <= src || src + 4 * words <= dst ==> forall|i: int|
            0 <= i < 4 * words ==> #[trigger] with_words_copied(memory, src, dst, words)[dst + i]
                == memory[src + i],
    decreases words,
{
    if words > 0 {
        let before = with_words_copied(memory, src, dst, (words - 1) as nat);
        let after = with_words_copied(memory, src, dst, words);
        lemma_copy_is_exact(memory, src, dst, (words - 1) as nat);
        assert(after == with_word_copied(before, src + 4 * (words - 1), dst + 4 * (words - 1)));
        if dst <= src || src + 4 * words <= dst {
            assert forall|i: int| 0 <= i < 4 * words implies #[trigger] after[dst + i] == memory[src
                + i] by {
                if i >= 4 * (words - 1) {
                    // read from the source word, which no earlier copy has written
                    assert(before[src + i] == memory[src + i]);
                } else {
                    assert(before[dst + i] == memory[src + i]);
                }
            }
        }
    }
}

/// An empty range is neither copied nor cleared: the memory stays as it is.
pub proof fn lemma_empty_range_is_untouched(memory: Seq<u8>, src: int, dst: int, end: int)
    requires
        dst >= end,
    ensures
        word_count(dst, end) == 0,
        with_words_copied(memory, src, dst, word_count(dst, end)) == memory,
        with_words_zeroed(memory, dst, word_count(dst, end)) == memory,
{
    assert(with_words_zeroed(memory, dst, 0) =~= memory);
}

/// Copying and clearing can be repeated: clearing a range twice is clearing
/// it once, and so is copying to a range that shares no byte with its
/// source.
pub proof fn lemma_steps_are_idempotent(memory: Seq<u8>, src: int, dst: int, words: nat)
    requires
        0 <= src,
        0 <= dst,
        src + 4 * words <= memory.len(),
        dst + 4 * words <= memory.len(),
    ensures
        with_words_zeroed(with_words_zeroed(memory, dst, words), dst, words) == with_words_zeroed(
            memory,
            dst,
            words,
        ),
        dst + 4 * words <= src || src + 4 * words <= dst ==> with_words_copied(
            with_words_copied(memory, src, dst, words),
            src,
            dst,
            words,
        ) == with_words_copied(memory, src, dst, words),
{
    assert(with_words_zeroed(with_words_zeroed(memory, dst, words), dst, words)
        =~= with_words_zeroed(memory, dst, words));
    if dst + 4 * words <= src || src + 4 * words <= dst {
        let once = with_words_copied(memory, src, dst, words);
        let twice = with_words_copied(once, src, dst, words);
        lemma_copy_is_exact(memory, src, dst, words);
        lemma_copy_is_exact(once, src, dst, words);
        assert forall|j: int| 0 <= j < memory.len() implies twice[j] == once[j] by {
            if dst <= j < dst + 4 * words {
                let i = j - dst;
                assert(twice[dst + i] == once[src + i]);
                assert(once[dst + i] == memory[src + i]);
                assert(once[src + i] == memory[src + i]);
            }
        }
        assert(twice =~= once);
    }
}

/// Copies the words from `src` on to the range from `dst` up to `end`,
/// lowest address first. Where the range is empty, nothing is copied.
pub fn copy_words(memory: &mut Vec<u8>, src: usize, dst: usize, end: usize)
    requires
        src + 4 * word_count(dst as int, end as int) <= old(memory).len(),
        dst + 4 * word_count(dst as int, end as int) <= old(memory).len(),
    ensures
        final(memory)@ == with_words_copied(
            old(memory)@,
            src as int,
            dst as int,
            word_count(dst as int, end as int),
        ),
        dst >= end ==> final(memory)@ == old(memory)@,
        final(memory).len() == old(memory).len(),
{
    let ghost words = word_count(dst as int, end as int);
    let ghost mut copied: nat = 0;
    let mut a0 = src;
    let mut a1 = dst;
    while a1 < end
        invariant
            words == word_count(dst as int, end as int),
            copied <= words,
            a0 == src + 4 * copied,
            a1 == dst + 4 * copied,
            a1 < end <==> copied < words,
            memory.len() == old(memory).len(),
            src + 4 * words <= memory.len(),
            dst + 4 * words <= memory.len(),
            memory@ == with_words_copied(old(memory)@, src as int, dst as int, copied),
        decreases words - copied,
    {
        let ghost before = memory@;
        let b0 = memory[a0];
        let b1 = memory[a0 + 1];
        let b2 = memory[a0 + 2];
        let b3 = memory[a0 + 3];
        memory.set(a1, b0);
        memory.set(a1 + 1, b1);
        memory.set(a1 + 2, b2);
        memory.set(a1 + 3, b3);
        proof {
            assert(memory@ =~= with_word_copied(before, a0 as int, a1 as int));
            copied = copied + 1;
        }
        a0 += 4;
        a1 += 4;
    }
}

/// Clears the words of the range from `start` up to `end`, lowest address
/// first. Where the range is empty, nothing is cleared.
pub fn zero_words(memory: &mut Vec<u8>, start: usize, end: usize)
    requires
        start + 4 * word_count(start as int, end as int) <= old(memory).len(),
    ensures
        final(memory)@ == with_words_zeroed(
            old(memory)@,
            start as int,
            word_count(start as int, end as int),
        ),
        start >= end ==> final(memory)@ == old(memory)@,
        final(memory).len() == old(memory).len(),
{
    let ghost words = word_count(start as int, end as int);
    let ghost mut cleared: nat = 0;
    let mut a0 = start;
    proof {
        assert(memory@ =~= with_words_zeroed(old(memory)@, start as int, 0));
    }
    while a0 < end
        invariant
            words == word_count(start as int, end as int),
            cleared <= words,
            a0 == start + 4 * cleared,
            a0 < end <==> cleared < words,
            memory.len() == old(memory).len(),
            start + 4 * words <= memory.len(),
            memory@ == with_words_zeroed(old(memory)@, start as int, cleared),
        decreases words - cleared,
    {
        memory.set(a0, 0);
        memory.set(a0 + 1, 0);
        memory.set(a0 + 2, 0);
        memory.set(a0 + 3, 0);
        proof {
            cleared = cleared + 1;
            assert(memory@ =~= with_words_zeroed(old(memory)@, start as int, cleared));
        }
        a0 += 4;
    }
}

/// The addresses that the linker gives the boot sequence.
#[derive(Copy, Clone, Debug, PartialEq, Eq, Structural)]
pub struct Layout {
    /// The value of the global pointer.
    pub global_pointer: usize,
    /// The top of the stack.
    pub stack_top: usize,
    /// Where the code for fast memory lies in storage.
    pub highcode_lma: usize,
    /// Where the code for fast memory starts in fast memory.
    pub highcode_vma_start: usize,
    /// Where the code for fast memory ends in fast memory.
    pub highcode_vma_end: usize,
    /// Where the image of the initialized data lies in storage.
    pub data_lma: usize,
    /// Where the initialized data starts in RAM.
    pub data_vma: usize,
    /// Where the initialized data ends in RAM.
    pub edata: usize,
    /// Where the uninitialized data starts in RAM.
    pub sbss: usize,
    /// Where the uninitialized data ends in RAM.
    pub ebss: usize,
    /// The entry of the application.
    pub main: usize,
}

/// What the boot sequence is built for.
#[derive(Copy, Clone, Debug, PartialEq, Eq, Structural)]
pub struct Options {
    /// The generation of the core.
    pub core: Core,
    /// Whether code is moved to fast memory and run from there.
    pub highcode: bool,
    /// Whether the core has a floating-point unit.
    pub floating_point: bool,
}

impl Layout {
    /// Whether every word that the boot sequence reads or writes lies in a
    /// memory of `len` bytes.
    pub open spec fn fits(self, len: nat, options: Options) -> bool {
        &&& options.highcode ==> {
            let words = word_count(self.highcode_vma_start as int, self.highcode_vma_end as int);
            &&& self.highcode_lma + 4 * words <= len
            &&& self.highcode_vma_start + 4 * words <= len
        }
        &&& self.data_lma + 4 * word_count(self.data_vma as int, self.edata as int) <= len
        &&& self.data_vma + 4 * word_count(self.data_vma as int, self.edata as int) <= len
        &&& self.sbss + 4 * word_count(self.sbss as int, self.ebss as int) <= len
    }

    /// The memory when the application starts: the code for fast memory
    /// copied, where there is any; then the initialized data copied; then
    /// the uninitialized data cleared.
    pub open spec fn loaded(self, memory: Seq<u8>, options: Options) -> Seq<u8> {
        let relocated = if options.highcode {
            with_words_copied(
                memory,
                self.highcode_lma as int,
                self.highcode_vma_start as int,
                word_count(self.highcode_vma_start as int, self.highcode_vma_end as int),
            )
        } else {
            memory
        };
        let initialized = with_words_copied(
            relocated,
            self.data_lma as int,
            self.data_vma as int,
            word_count(self.data_vma as int, self.edata as int),
        );
        with_words_zeroed(
            initialized,
            self.sbss as int,
            word_count(self.sbss as int, self.ebss as int),
        )
    }

    /// The hart when the application starts: global pointer and stack
    /// pointer loaded, the interrupt system set up, the floating-point unit
    /// marked usable where there is one, and the return from machine mode
    /// taken to the entry of the application.
    pub open spec fn started(self, hart: Hart, options: Options) -> Hart {
        let pointed = Hart { gp: self.global_pointer, sp: self.stack_top, ..hart };
        let set_up = configured(pointed, options.core, options.highcode);
        let with_unit = if options.floating_point {
            Hart { mstatus: with_fs_initial(set_up.mstatus), ..set_up }
        } else {
            set_up
        };
        (Hart { mepc: self.main, ..with_unit }).after_mret()
    }
}

/// `mstatus` with the field `FS` set to its initial state: the more
/// significant bit cleared, then the less significant one set.
pub open spec fn with_fs_initial(mstatus: usize) -> usize {
    (mstatus & !MSTATUS_FS_HIGH) | MSTATUS_FS_LOW
}

/// The bit-level facts about the start: marking the floating-point unit
/// usable gives `FS` the value 1 and leaves `MIE`, `MPIE` and `MPP`, and the
/// return from machine mode leaves `FS`.
proof fn lemma_start_bits(mstatus: usize)
    by (bit_vector)
    ensures
        ((mstatus & !0x4000usize) | 0x2000) & 0x6000 == 0x2000,
        ((mstatus & !0x4000usize) | 0x2000) & 0x80 == mstatus & 0x80,
        ((mstatus & !0x4000usize) | 0x2000) & 0x8 == mstatus & 0x8,
        ((mstatus & !0x4000usize) | 0x2000) & 0x1800 == mstatus & 0x1800,
        (mstatus | 0x8) & 0x6000 == mstatus & 0x6000,
        (mstatus | 0x8) & 0x8 != 0,
        (mstatus | 0x8) & 0x1800 == mstatus & 0x1800,
{
}

/// What holds when the application starts: the hart executes at the entry
/// of the application with the pointers from the layout, interrupts are
/// enabled, the privilege level is the one that the interrupt setup left in
/// `MPP`, and where there is a floating-point unit, `FS` holds 1.
pub proof fn lemma_started(layout: Layout, hart: Hart, options: Options)
    ensures
        layout.started(hart, options).pc == layout.main,
        layout.started(hart, options).mepc == layout.main,
        layout.started(hart, options).gp == layout.global_pointer,
        layout.started(hart, options).sp == layout.stack_top,
        layout.started(hart, options).interrupts_enabled(),
        layout.started(hart, options).privilege == previous_privilege(
            configured(hart, options.core, options.highcode).mstatus,
        ),
        options.core == Core::V2 ==> layout.started(hart, options).privilege == Privilege::User,
        options.floating_point ==> layout.started(hart, options).mstatus & (MSTATUS_FS_HIGH
            | MSTATUS_FS_LOW) == MSTATUS_FS_LOW,
{
    let pointed = Hart { gp: layout.global_pointer, sp: layout.stack_top, ..hart };
    let set_up = configured(pointed, options.core, options.highcode);
    lemma_configured(pointed, options.core, options.highcode);
    lemma_configured(hart, options.core, options.highcode);
    lemma_start_bits(set_up.mstatus);
    lemma_start_bits(with_fs_initial(set_up.mstatus));
    assert(0x4000usize | 0x2000 == 0x6000) by (bit_vector);
}

/// The steps of the boot sequence.
#[derive(Copy, Clone, Debug, PartialEq, Eq, Structural)]
pub enum BootStep {
    /// Load the global pointer.
    LoadGlobalPointer,
    /// Load the stack pointer.
    LoadStackPointer,
    /// Copy the code for fast memory there from storage.
    RelocateCode,
    /// Copy the image of the initialized data from storage to RAM.
    CopyData,
    /// Clear the uninitialized data.
    ClearBss,
    /// Set the interrupt system up.
    SetupInterrupts,
    /// Mark the floating-point unit usable.
    EnableFloatingPoint,
    /// Load the entry of the application into mepc and return from machine
    /// mode.
    Start,
}

/// The number of steps in the boot sequence.
pub const BOOT_STEPS: usize = 8;

/// The steps of the boot sequence in their order.
pub open spec fn boot_order() -> Seq<BootStep> {
    seq![
        BootStep::LoadGlobalPointer,
        BootStep::LoadStackPointer,
        BootStep::RelocateCode,
        BootStep::CopyData,
        BootStep::ClearBss,
        BootStep::SetupInterrupts,
        BootStep::EnableFloatingPoint,
        BootStep::Start,
    ]
}

/// The machine that boots: the hart and the memory.
pub struct Machine {
    /// The hart.
    pub hart: Hart,
    /// The bytes of the memory.
    pub memory: Seq<u8>,
}

impl BootStep {
    /// Whether the step is taken: code is moved only where it runs from
    /// fast memory, and the floating-point unit is marked usable only where
    /// there is one.
    pub open spec fn applies(self, options: Options) -> bool {
        match self {
            BootStep::RelocateCode => options.highcode,
            BootStep::EnableFloatingPoint => options.floating_point,
            _ => true,
        }
    }

    /// Whether the step is taken.
    pub fn is_taken(self, options: &Options) -> (taken: bool)
        ensures
            taken == self.applies(*options),
    {
        match self {
            BootStep::RelocateCode => options.highcode,
            BootStep::EnableFloatingPoint => options.floating_point,
            _ => true,
        }
    }
}

impl Layout {
    /// The machine after `step`; a step that is not taken leaves it.
    pub open spec fn after_step(self, machine: Machine, options: Options, step: BootStep) -> Machine {
        if !step.applies(options) {
            machine
        } else {
            match step {
                BootStep::LoadGlobalPointer => Machine {
                    hart: Hart { gp: self.global_pointer, ..machine.hart },
                    ..machine
                },
                BootStep::LoadStackPointer => Machine {
                    hart: Hart { sp: self.stack_top, ..machine.hart },
                    ..machine
                },
                BootStep::RelocateCode => Machine {
                    memory: with_words_copied(
                        machine.memory,
                        self.highcode_lma as int,
                        self.highcode_vma_start as int,
                        word_count(self.highcode_vma_start as int, self.highcode_vma_end as int),
                    ),
                    ..machine
                },
                BootStep::CopyData => Machine {
                    memory: with_words_copied(
                        machine.memory,
                        self.data_lma as int,
                        self.data_vma as int,
                        word_count(self.data_vma as int, self.edata as int),
                    ),
                    ..machine
                },
                BootStep::ClearBss => Machine {
                    memory: with_words_zeroed(
                        machine.memory,
                        self.sbss as int,
                        word_count(self.sbss as int, self.ebss as int),
                    ),
                    ..machine
                },
                BootStep::SetupInterrupts => Machine {
                    hart: configured(machine.hart, options.core, options.highcode),
                    ..machine
                },
                BootStep::EnableFloatingPoint => Machine {
                    hart: Hart { mstatus: with_fs_initial(machine.hart.mstatus), ..machine.hart },
                    ..machine
                },
                BootStep::Start => Machine {
                    hart: (Hart { mepc: self.main, ..machine.hart }).after_mret(),
                    ..machine
                },
            }
        }
    }

    /// The machine after the first `count` steps of the boot sequence, taken
    /// in their order.
    pub open spec fn after_steps(self, machine: Machine, options: Options, count: nat) -> Machine
        decreases count,
    {
        if count == 0 {
            machine
        } else {
            self.after_step(
                self.after_steps(machine, options, (count - 1) as nat),
                options,
                boot_order()[count - 1],
            )
        }
    }

    /// The steps of the boot sequence, taken in their order, load the memory
    /// and start the application; and up to the interrupt setup, they leave
    /// the registers of the interrupt system as they found them.
    pub proof fn lemma_boot_steps(self, machine: Machine, options: Options)
        ensures
            self.after_steps(machine, options, BOOT_STEPS as nat) == (Machine {
                hart: self.started(machine.hart, options),
                memory: self.loaded(machine.memory, options),
            }),
            self.after_steps(machine, options, 5).memory == self.loaded(machine.memory, options),
            self.after_steps(machine, options, 5).hart == (Hart {
                gp: self.global_pointer,
                sp: self.stack_top,
                ..machine.hart
            }),
    {
        reveal_with_fuel(Layout::after_steps, 9);
    }
}

/// The step number `index` of the boot sequence, or `None` where the
/// sequence has no more than `index` steps.
pub fn boot_step(index: usize) -> (step: Option<BootStep>)
    ensures
        step == if index < BOOT_STEPS {
            Some(boot_order()[index as int])
        } else {
            None
        },
{
    match index {
        0 => Some(BootStep::LoadGlobalPointer),
        1 => Some(BootStep::LoadStackPointer),
        2 => Some(BootStep::RelocateCode),
        3 => Some(BootStep::CopyData),
        4 => Some(BootStep::ClearBss),
        5 => Some(BootStep::SetupInterrupts),
        6 => Some(BootStep::EnableFloatingPoint),
        7 => Some(BootStep::Start),
        _ => None,
    }
}

/// Takes one step of the boot sequence; a step that does not apply changes
/// nothing.
pub fn take_step(
    hart: &mut Hart,
    memory: &mut Vec<u8>,
    layout: &Layout,
    options: &Options,
    step: BootStep,
)
    requires
        layout.fits(old(memory).len() as nat, *options),
        step == BootStep::SetupInterrupts ==> !old(hart).interrupts_enabled(),
    ensures
        (Machine { hart: *final(hart), memory: final(memory)@ }) == layout.after_step(
            Machine { hart: *old(hart), memory: old(memory)@ },
            *options,
            step,
        ),
        final(memory).len() == old(memory).len(),
{
    if !step.is_taken(options) {
        return ;
    }
    match step {
        BootStep::LoadGlobalPointer => {
            hart.gp = layout.global_pointer;
        },
        BootStep::LoadStackPointer => {
            hart.sp = layout.stack_top;
        },
        BootStep::RelocateCode => {
            // load highcode from flash to ram
            copy_words(
                memory,
                layout.highcode_lma,
                layout.highcode_vma_start,
                layout.highcode_vma_end,
            );
        },
        BootStep::CopyData => {
            // load data from flash to ram
            copy_words(memory, layout.data_lma, layout.data_vma, layout.edata);
        },
        BootStep::ClearBss => {
            // clear bss section
            zero_words(memory, layout.sbss, layout.ebss);
        },
        BootStep::SetupInterrupts => {
            qingke_setup_interrupts(hart, options.core, options.highcode);
        },
        BootStep::EnableFloatingPoint => {
            // bit 14 is FS most significant bit, bit 13 is FS least significant bit
            hart.access(
                CsrAccess { csr: Csr::Mstatus, op: CsrOp::ClearBits, bits: MSTATUS_FS_HIGH },
            );
            hart.access(CsrAccess { csr: Csr::Mstatus, op: CsrOp::SetBits, bits: MSTATUS_FS_LOW });
        },
        BootStep::Start => {
            hart.access(CsrAccess { csr: Csr::Mepc, op: CsrOp::Write, bits: layout.main });
            hart.mret();
        },
    }
}

/// The boot sequence, entered at reset:
///
/// 1. load the global pointer;
/// 2. load the stack pointer;
/// 3. where code runs from fast memory, copy it there from storage;
/// 4. copy the image of the initialized data from storage to RAM;
/// 5. clear the uninitialized data;
/// 6. set the interrupt system up;
/// 7. where there is a floating-point unit, mark it usable;
/// 8. load the entry of the application into mepc and return from machine
///    mode.
pub fn handle_reset(hart: &mut Hart, memory: &mut Vec<u8>, layout: &Layout, options: &Options)
    requires
        layout.fits(old(memory).len() as nat, *options),
        !old(hart).interrupts_enabled(),
    ensures
        final(memory)@ == layout.loaded(old(memory)@, *options),
        *final(hart) == layout.started(*old(hart), *options),
{
    let ghost reset = Machine { hart: *old(hart), memory: old(memory)@ };
    proof {
        layout.lemma_boot_steps(reset, *options);
    }
    let mut index: usize = 0;
    loop
        invariant_except_break
            index <= BOOT_STEPS,
        invariant
            memory.len() == old(memory).len(),
            layout.fits(memory.len() as nat, *options),
            (Machine { hart: *hart, memory: memory@ }) == layout.after_steps(
                reset,
                *options,
                index as nat,
            ),
            index <= 5 ==> hart.mstatus == old(hart).mstatus,
            !old(hart).interrupts_enabled(),
        ensures
            index == BOOT_STEPS,
        decreases BOOT_STEPS - index,
    {
        match boot_step(index) {
            Some(step) => {
                take_step(hart, memory, layout, options, step);
                index += 1;
            },
            None => {
                break ;
            },
        }
    }
}

} // verus!
