use qingke::hart::{Hart, Privilege};
use qingke::rt::boot::{
    boot_step, copy_words, handle_reset, take_step, zero_words, BootStep, Layout, Options,
    BOOT_STEPS, WORD_BYTES,
};
use qingke::rt::setup::Core;

fn counting(len: usize) -> Vec<u8> {
    (0..len).map(|i| (i as u8).wrapping_add(1)).collect()
}

#[test]
fn a_word_is_four_bytes() {
    assert_eq!(WORD_BYTES, 4);
}

#[test]
fn copying_an_empty_range_changes_nothing() {
    let before = counting(32);
    let mut memory = before.clone();
    copy_words(&mut memory, 0, 16, 16);
    assert_eq!(memory, before);
    copy_words(&mut memory, 0, 16, 8);
    assert_eq!(memory, before);
    copy_words(&mut memory, 0, 16, 0);
    assert_eq!(memory, before);
    // an empty range may lie anywhere, even beyond the memory
    copy_words(&mut memory, 1000, 2000, 2000);
    assert_eq!(memory, before);
}

#[test]
fn clearing_an_empty_range_changes_nothing() {
    let before = counting(32);
    let mut memory = before.clone();
    zero_words(&mut memory, 8, 8);
    assert_eq!(memory, before);
    zero_words(&mut memory, 8, 4);
    assert_eq!(memory, before);
    zero_words(&mut memory, 5000, 100);
    assert_eq!(memory, before);
}

#[test]
fn copying_moves_whole_words() {
    let before = counting(32);
    let mut memory = before.clone();
    copy_words(&mut memory, 0, 16, 24);
    assert_eq!(&memory[16..24], &before[0..8]);
    assert_eq!(&memory[0..16], &before[0..16]);
    assert_eq!(&memory[24..32], &before[24..32]);
}

#[test]
fn copying_rounds_a_ragged_range_up_to_a_word() {
    let before = counting(32);
    let mut memory = before.clone();
    // five bytes asked for: two words written
    copy_words(&mut memory, 0, 16, 21);
    assert_eq!(&memory[16..24], &before[0..8]);
    assert_eq!(&memory[24..32], &before[24..32]);

    let mut memory = before.clone();
    // one byte asked for: one word written
    copy_words(&mut memory, 4, 20, 21);
    assert_eq!(&memory[20..24], &before[4..8]);
    assert_eq!(&memory[0..20], &before[0..20]);
    assert_eq!(&memory[24..32], &before[24..32]);
}

#[test]
fn copying_goes_from_the_lowest_address_up() {
    // The destination starts one word above the source: each word that is
    // read has just been written, so the first word fills the range.
    let mut memory = counting(20);
    copy_words(&mut memory, 0, 4, 16);
    assert_eq!(memory, vec![1, 2, 3, 4, 1, 2, 3, 4, 1, 2, 3, 4, 1, 2, 3, 4, 17, 18, 19, 20]);
}

#[test]
fn copying_downwards_over_itself_is_exact() {
    let before = counting(20);
    let mut memory = before.clone();
    copy_words(&mut memory, 4, 0, 16);
    assert_eq!(&memory[0..16], &before[4..20]);
    assert_eq!(&memory[16..20], &before[16..20]);
}

#[test]
fn copying_works_at_addresses_that_are_not_word_aligned() {
    let before = counting(16);
    let mut memory = before.clone();
    copy_words(&mut memory, 1, 9, 13);
    assert_eq!(&memory[9..13], &before[1..5]);
    assert_eq!(&memory[0..9], &before[0..9]);
    assert_eq!(&memory[13..16], &before[13..16]);
}

#[test]
fn clearing_zeroes_whole_words() {
    let before = counting(32);
    let mut memory = before.clone();
    zero_words(&mut memory, 8, 16);
    assert_eq!(&memory[8..16], &[0u8; 8]);
    assert_eq!(&memory[0..8], &before[0..8]);
    assert_eq!(&memory[16..32], &before[16..32]);

    let mut memory = before.clone();
    // six bytes asked for: two words cleared
    zero_words(&mut memory, 8, 14);
    assert_eq!(&memory[8..16], &[0u8; 8]);
    assert_eq!(&memory[16..32], &before[16..32]);
}

#[test]
fn clearing_twice_is_clearing_once() {
    let mut memory = counting(32);
    zero_words(&mut memory, 4, 12);
    let once = memory.clone();
    zero_words(&mut memory, 4, 12);
    assert_eq!(memory, once);
}

fn layout() -> Layout {
    Layout {
        global_pointer: 0x2000_0800,
        stack_top: 0x2000_5000,
        highcode_lma: 0,
        highcode_vma_start: 64,
        highcode_vma_end: 72,
        data_lma: 8,
        data_vma: 80,
        edata: 92,
        sbss: 96,
        ebss: 104,
        main: 0x0000_0200,
    }
}

#[test]
fn reset_loads_memory_and_starts_the_application() {
    let before = counting(128);
    let mut memory = before.clone();
    let mut hart = Hart::new();
    let options = Options { core: Core::V4, highcode: false, floating_point: false };
    handle_reset(&mut hart, &mut memory, &layout(), &options);

    // no code is moved to fast memory
    assert_eq!(&memory[64..72], &before[64..72]);
    // the initialized data is copied
    assert_eq!(&memory[80..92], &before[8..20]);
    // the uninitialized data is cleared
    assert_eq!(&memory[96..104], &[0u8; 8]);
    // nothing else is touched
    assert_eq!(&memory[0..80], &before[0..80]);
    assert_eq!(&memory[92..96], &before[92..96]);
    assert_eq!(&memory[104..128], &before[104..128]);

    assert_eq!(hart.gp, 0x2000_0800);
    assert_eq!(hart.sp, 0x2000_5000);
    assert_eq!(hart.pc, 0x200);
    assert_eq!(hart.mepc, 0x200);
    assert_eq!(hart.mtvec, 0x3);
    assert_eq!(hart.intsyscr, 0x3);
    assert_eq!(hart.corecfgr, 0x1f);
    assert_eq!(hart.mstatus, 0x88);
    assert_eq!(hart.privilege, Privilege::User);
    assert!(hart.global_interrupt_enabled());
}

#[test]
fn reset_moves_code_to_fast_memory_where_configured() {
    let before = counting(128);
    let mut memory = before.clone();
    let mut hart = Hart::new();
    let options = Options { core: Core::V4, highcode: true, floating_point: false };
    handle_reset(&mut hart, &mut memory, &layout(), &options);
    assert_eq!(&memory[64..72], &before[0..8]);
    assert_eq!(&memory[80..92], &before[8..20]);
    assert_eq!(&memory[96..104], &[0u8; 8]);
    assert_eq!(hart.mtvec, 0x2000_0003);
}

#[test]
fn reset_marks_the_floating_point_unit_usable() {
    for mstatus in [0usize, 0x4000, 0x6000, 0x2000] {
        let mut memory = counting(128);
        let mut hart = Hart::new();
        hart.mstatus = mstatus;
        let options = Options { core: Core::V3, highcode: false, floating_point: true };
        handle_reset(&mut hart, &mut memory, &layout(), &options);
        assert_eq!(hart.mstatus & 0x6000, 0x2000);
        assert_eq!(hart.mstatus, 0x2088);
    }
    let mut memory = counting(128);
    let mut hart = Hart::new();
    hart.mstatus = 0x4000;
    let options = Options { core: Core::V3, highcode: false, floating_point: false };
    handle_reset(&mut hart, &mut memory, &layout(), &options);
    assert_eq!(hart.mstatus, 0x4088);
}

#[test]
fn reset_of_a_v2_core_enters_the_application_in_user_mode() {
    let mut memory = counting(128);
    let mut hart = Hart::new();
    hart.mstatus = 0x1800;
    let options = Options { core: Core::V2, highcode: false, floating_point: false };
    handle_reset(&mut hart, &mut memory, &layout(), &options);
    assert_eq!(hart.privilege, Privilege::User);
    assert_eq!(hart.mstatus, 0x88);
    assert_eq!(hart.corecfgr, 0);
    assert_eq!(hart.pc, 0x200);
}

#[test]
fn reset_with_empty_sections_leaves_the_memory() {
    let before = counting(64);
    let mut memory = before.clone();
    let mut hart = Hart::new();
    let empty = Layout {
        global_pointer: 1,
        stack_top: 2,
        highcode_lma: 0,
        highcode_vma_start: 16,
        highcode_vma_end: 16,
        data_lma: 0,
        data_vma: 32,
        edata: 32,
        sbss: 48,
        ebss: 48,
        main: 3,
    };
    let options = Options { core: Core::V4, highcode: true, floating_point: true };
    handle_reset(&mut hart, &mut memory, &empty, &options);
    assert_eq!(memory, before);
    assert_eq!(hart.gp, 1);
    assert_eq!(hart.sp, 2);
    assert_eq!(hart.pc, 3);
}

#[test]
fn the_boot_sequence_has_eight_steps_in_a_fixed_order() {
    assert_eq!(BOOT_STEPS, 8);
    let expected = [
        BootStep::LoadGlobalPointer,
        BootStep::LoadStackPointer,
        BootStep::RelocateCode,
        BootStep::CopyData,
        BootStep::ClearBss,
        BootStep::SetupInterrupts,
        BootStep::EnableFloatingPoint,
        BootStep::Start,
    ];
    for (index, step) in expected.iter().enumerate() {
        assert_eq!(boot_step(index), Some(*step));
    }
    assert_eq!(boot_step(8), None);
    assert_eq!(boot_step(usize::MAX), None);
}

#[test]
fn two_steps_depend_on_what_the_core_has() {
    for highcode in [false, true] {
        for floating_point in [false, true] {
            let options = Options { core: Core::V4, highcode, floating_point };
            assert_eq!(BootStep::RelocateCode.is_taken(&options), highcode);
            assert_eq!(BootStep::EnableFloatingPoint.is_taken(&options), floating_point);
            for step in [
                BootStep::LoadGlobalPointer,
                BootStep::LoadStackPointer,
                BootStep::CopyData,
                BootStep::ClearBss,
                BootStep::SetupInterrupts,
                BootStep::Start,
            ] {
                assert!(step.is_taken(&options));
            }
        }
    }
}

#[test]
fn each_step_does_its_own_work_only() {
    let before = counting(128);
    let options = Options { core: Core::V4, highcode: true, floating_point: true };

    let mut memory = before.clone();
    let mut hart = Hart::new();
    take_step(&mut hart, &mut memory, &layout(), &options, BootStep::LoadGlobalPointer);
    assert_eq!(hart, Hart { gp: 0x2000_0800, ..Hart::new() });
    assert_eq!(memory, before);

    take_step(&mut hart, &mut memory, &layout(), &options, BootStep::LoadStackPointer);
    assert_eq!(hart, Hart { gp: 0x2000_0800, sp: 0x2000_5000, ..Hart::new() });
    assert_eq!(memory, before);

    let pointed = hart;
    take_step(&mut hart, &mut memory, &layout(), &options, BootStep::RelocateCode);
    assert_eq!(hart, pointed);
    assert_eq!(&memory[64..72], &before[0..8]);
    assert_eq!(&memory[0..64], &before[0..64]);
    assert_eq!(&memory[72..128], &before[72..128]);

    take_step(&mut hart, &mut memory, &layout(), &options, BootStep::CopyData);
    assert_eq!(hart, pointed);
    assert_eq!(&memory[80..92], &before[8..20]);
    assert_eq!(&memory[92..128], &before[92..128]);

    take_step(&mut hart, &mut memory, &layout(), &options, BootStep::ClearBss);
    assert_eq!(hart, pointed);
    assert_eq!(&memory[96..104], &[0u8; 8]);
    assert_eq!(&memory[104..128], &before[104..128]);
    let loaded = memory.clone();

    // the memory is complete before the interrupt system is set up
    take_step(&mut hart, &mut memory, &layout(), &options, BootStep::SetupInterrupts);
    assert_eq!(memory, loaded);
    assert_eq!(
        hart,
        Hart { mtvec: 0x2000_0003, corecfgr: 0x1f, intsyscr: 0x3, mstatus: 0x88, ..pointed }
    );

    take_step(&mut hart, &mut memory, &layout(), &options, BootStep::EnableFloatingPoint);
    assert_eq!(memory, loaded);
    assert_eq!(hart.mstatus, 0x2088);

    take_step(&mut hart, &mut memory, &layout(), &options, BootStep::Start);
    assert_eq!(memory, loaded);
    assert_eq!(hart.mepc, 0x200);
    assert_eq!(hart.pc, 0x200);
    assert_eq!(hart.privilege, Privilege::User);
}

#[test]
fn a_step_that_is_not_taken_changes_nothing() {
    let before = counting(128);
    let options = Options { core: Core::V4, highcode: false, floating_point: false };
    let mut memory = before.clone();
    let mut hart = Hart::new();
    hart.mstatus = 0x4000;
    let at_reset = hart;
    take_step(&mut hart, &mut memory, &layout(), &options, BootStep::RelocateCode);
    take_step(&mut hart, &mut memory, &layout(), &options, BootStep::EnableFloatingPoint);
    assert_eq!(hart, at_reset);
    assert_eq!(memory, before);
}

#[test]
fn reset_is_its_steps_taken_in_order() {
    for core in [Core::V2, Core::V3, Core::V4] {
        for highcode in [false, true] {
            for floating_point in [false, true] {
                let options = Options { core, highcode, floating_point };
                let mut by_reset = counting(128);
                let mut reset_hart = Hart::new();
                reset_hart.mstatus = 0x1800;
                let mut by_steps = by_reset.clone();
                let mut steps_hart = reset_hart;
                handle_reset(&mut reset_hart, &mut by_reset, &layout(), &options);
                let mut index = 0;
                while let Some(step) = boot_step(index) {
                    take_step(&mut steps_hart, &mut by_steps, &layout(), &options, step);
                    index += 1;
                }
                assert_eq!(index, 8);
                assert_eq!(reset_hart, steps_hart);
                assert_eq!(by_reset, by_steps);
            }
        }
    }
}
