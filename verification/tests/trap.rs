use qingke::critical_section_impl::SingleHartCriticalSection;
use qingke::hart::Hart;
use qingke::pfic::{enable_interrupt, is_active, is_pending, pend_interrupt, Pfic};
use qingke::rt::trap::{
    dispatch, dispatch_exception, dispatch_interrupt, external_interrupts, install, lookup,
    qingke_exception_handler, take_interrupt, CoreInterrupts, Exceptions, ExternalInterrupts,
    InstallError, Target, CORE_INTERRUPTS_LEN, EXCEPTIONS_LEN, EXTERNAL_INTERRUPTS_LEN,
};
use qingke::rt::{
    core_interrupts, core_interrupts_by_code, exceptions, CoreInterrupt, Exception,
};

const INTERRUPT: usize = 1 << (usize::BITS - 1);

fn external_table() -> ExternalInterrupts<u32> {
    let mut table: ExternalInterrupts<u32> = [None; 256];
    table[16] = Some(1016);
    table[40] = Some(1040);
    table[255] = Some(1255);
    // an entry below the length of the core table, which no interrupt reaches
    table[3] = Some(1003);
    table
}

fn core_table() -> CoreInterrupts<u32> {
    let mut table: CoreInterrupts<u32> = [None; 15];
    table[2] = Some(2);
    table[12] = Some(12);
    table[14] = Some(14);
    table
}

fn exception_table() -> Exceptions<u32> {
    let mut table: Exceptions<u32> = [None; 12];
    table[0] = Some(500);
    table[5] = Some(505);
    table[11] = Some(511);
    table
}

#[test]
fn table_lengths() {
    assert_eq!(EXCEPTIONS_LEN, 12);
    assert_eq!(CORE_INTERRUPTS_LEN, 15);
    assert_eq!(EXTERNAL_INTERRUPTS_LEN, 256);
    assert_eq!(exceptions().len(), EXCEPTIONS_LEN);
    assert_eq!(core_interrupts().len(), CORE_INTERRUPTS_LEN);
    assert_eq!(external_table().len(), EXTERNAL_INTERRUPTS_LEN);
}

#[test]
fn lookup_checks_the_code_against_the_length() {
    let table = exception_table();
    assert_eq!(lookup(&table, 0), Some(500));
    assert_eq!(lookup(&table, 1), None);
    assert_eq!(lookup(&table, 11), Some(511));
    assert_eq!(lookup(&table, 12), None);
    assert_eq!(lookup(&table, usize::MAX), None);
    let empty: [Option<u32>; 0] = [];
    assert_eq!(lookup(&empty, 0), None);
}

#[test]
fn every_exception_code_goes_to_its_entry_or_to_the_fallback() {
    let table = exceptions();
    let expected = [
        Target::Handler(Exception::InstructionMisaligned),
        Target::Handler(Exception::InstructionFault),
        Target::Handler(Exception::IllegalInstruction),
        Target::Handler(Exception::Breakpoint),
        Target::Handler(Exception::LoadMisaligned),
        Target::Handler(Exception::LoadFault),
        Target::Handler(Exception::StoreMisaligned),
        Target::Handler(Exception::StoreFault),
        Target::Handler(Exception::UserEnvCall),
        Target::ExceptionHandler,
        Target::ExceptionHandler,
        Target::Handler(Exception::MachineEnvCall),
    ];
    for code in 0..EXCEPTIONS_LEN {
        assert_eq!(dispatch_exception(&table, code), expected[code]);
        assert_eq!(qingke_exception_handler(code, &table), expected[code]);
    }
}

#[test]
fn an_exception_code_beyond_the_table_goes_to_the_fallback() {
    let table = exception_table();
    for code in [12usize, 13, 255, 256, 1 << 20, INTERRUPT - 1] {
        assert_eq!(dispatch_exception(&table, code), Target::ExceptionHandler);
        assert_eq!(qingke_exception_handler(code, &table), Target::ExceptionHandler);
    }
    assert_eq!(dispatch_exception(&table, usize::MAX), Target::ExceptionHandler);
}

#[test]
fn an_absent_exception_entry_goes_to_the_fallback() {
    let table = exception_table();
    assert_eq!(dispatch_exception(&table, 0), Target::Handler(500));
    assert_eq!(dispatch_exception(&table, 1), Target::ExceptionHandler);
    assert_eq!(dispatch_exception(&table, 5), Target::Handler(505));
    assert_eq!(dispatch_exception(&table, 10), Target::ExceptionHandler);
    assert_eq!(dispatch_exception(&table, 11), Target::Handler(511));
}

#[test]
fn core_interrupts_are_consulted_before_external_interrupts() {
    let core = core_table();
    let external = external_table();
    assert_eq!(dispatch_interrupt(&core, &external, 2), Target::Handler(2));
    assert_eq!(dispatch_interrupt(&core, &external, 12), Target::Handler(12));
    assert_eq!(dispatch_interrupt(&core, &external, 14), Target::Handler(14));
    // code 3 has an entry in the external table only; the core table decides
    assert_eq!(dispatch_interrupt(&core, &external, 3), Target::DefaultHandler);
    // beyond the core table, the external table is consulted
    assert_eq!(dispatch_interrupt(&core, &external, 15), Target::DefaultHandler);
    assert_eq!(dispatch_interrupt(&core, &external, 16), Target::Handler(1016));
    assert_eq!(dispatch_interrupt(&core, &external, 40), Target::Handler(1040));
    assert_eq!(dispatch_interrupt(&core, &external, 41), Target::DefaultHandler);
    assert_eq!(dispatch_interrupt(&core, &external, 255), Target::Handler(1255));
}

#[test]
fn an_interrupt_code_beyond_both_tables_goes_to_the_default_handler() {
    let core = core_table();
    let external = external_table();
    for code in [256usize, 257, 1000, INTERRUPT - 1, usize::MAX] {
        assert_eq!(dispatch_interrupt(&core, &external, code), Target::DefaultHandler);
    }
}

#[test]
fn with_every_entry_present_only_codes_beyond_the_tables_reach_the_default_handler() {
    let core: [Option<usize>; 16] = core::array::from_fn(|i| Some(i));
    let external: [Option<usize>; 256] = core::array::from_fn(|i| Some(1000 + i));
    for code in 0..300usize {
        let expected = if code < 16 {
            Target::Handler(code)
        } else if code < 256 {
            Target::Handler(1000 + code)
        } else {
            Target::DefaultHandler
        };
        assert_eq!(dispatch_interrupt(&core, &external, code), expected);
    }
}

#[test]
fn dispatch_tells_exceptions_from_interrupts_by_the_top_bit_of_the_cause() {
    let exceptions = exception_table();
    let core = core_table();
    let external = external_table();
    assert_eq!(dispatch(5, &exceptions, &core, &external), Target::Handler(505));
    assert_eq!(dispatch(2, &exceptions, &core, &external), Target::ExceptionHandler);
    assert_eq!(dispatch(12, &exceptions, &core, &external), Target::ExceptionHandler);
    assert_eq!(dispatch(INTERRUPT | 2, &exceptions, &core, &external), Target::Handler(2));
    assert_eq!(dispatch(INTERRUPT | 5, &exceptions, &core, &external), Target::DefaultHandler);
    assert_eq!(dispatch(INTERRUPT | 12, &exceptions, &core, &external), Target::Handler(12));
    assert_eq!(dispatch(INTERRUPT | 40, &exceptions, &core, &external), Target::Handler(1040));
    assert_eq!(dispatch(INTERRUPT | 256, &exceptions, &core, &external), Target::DefaultHandler);
    assert_eq!(dispatch(usize::MAX, &exceptions, &core, &external), Target::DefaultHandler);
    assert_eq!(dispatch(INTERRUPT, &exceptions, &core, &external), Target::DefaultHandler);
    assert_eq!(dispatch(0, &exceptions, &core, &external), Target::Handler(500));
}

#[test]
fn the_shared_exception_entry_halts_on_an_interrupt() {
    let exceptions = exception_table();
    assert_eq!(qingke_exception_handler(0, &exceptions), Target::Handler(500));
    assert_eq!(qingke_exception_handler(11, &exceptions), Target::Handler(511));
    assert_eq!(qingke_exception_handler(9, &exceptions), Target::ExceptionHandler);
    assert_eq!(qingke_exception_handler(INTERRUPT, &exceptions), Target::Halt);
    assert_eq!(qingke_exception_handler(INTERRUPT | 5, &exceptions), Target::Halt);
    assert_eq!(qingke_exception_handler(usize::MAX, &exceptions), Target::Halt);
}

#[test]
fn core_interrupt_try_from_knows_seven_codes() {
    assert_eq!(CoreInterrupt::try_from(2), Ok(CoreInterrupt::NonMaskableInt));
    assert_eq!(CoreInterrupt::try_from(3), Ok(CoreInterrupt::Exception));
    assert_eq!(CoreInterrupt::try_from(5), Ok(CoreInterrupt::MachineEnvCall));
    assert_eq!(CoreInterrupt::try_from(8), Ok(CoreInterrupt::UserEnvCall));
    assert_eq!(CoreInterrupt::try_from(9), Ok(CoreInterrupt::Breakpoint));
    assert_eq!(CoreInterrupt::try_from(12), Ok(CoreInterrupt::SysTick));
    assert_eq!(CoreInterrupt::try_from(14), Ok(CoreInterrupt::Software));
    let known = [2u8, 3, 5, 8, 9, 12, 14];
    for irq in 0..=255u8 {
        match CoreInterrupt::try_from(irq) {
            Ok(interrupt) => {
                assert!(known.contains(&irq));
                assert_eq!(interrupt.number(), irq);
            }
            Err(code) => {
                assert!(!known.contains(&irq));
                assert_eq!(code, irq);
            }
        }
    }
}

#[test]
fn core_interrupt_table_leaves_the_code_zero_out() {
    let table = core_interrupts();
    for (index, entry) in table.iter().enumerate() {
        assert_eq!(*entry, CoreInterrupt::try_from(index as u8 + 1).ok());
    }
    assert_eq!(table[0], None);
    assert_eq!(table[1], Some(CoreInterrupt::NonMaskableInt));
    assert_eq!(table[11], Some(CoreInterrupt::SysTick));
    assert_eq!(table[13], Some(CoreInterrupt::Software));
    assert_eq!(table[14], None);
}

#[test]
fn an_interrupt_is_taken_only_with_interrupts_enabled_globally() {
    let mut pfic = Pfic::new();
    enable_interrupt(&mut pfic, 17);
    pend_interrupt(&mut pfic, 17);
    let mut hart = Hart::new();
    assert!(!take_interrupt(&hart, &mut pfic, 17));
    assert!(is_pending(&pfic, 17));
    assert!(!is_active(&pfic, 17));
    hart.mstatus = 0x8;
    assert!(!take_interrupt(&hart, &mut pfic, 18));
    assert!(take_interrupt(&hart, &mut pfic, 17));
    assert!(!is_pending(&pfic, 17));
    assert!(is_active(&pfic, 17));
    // taken once: the line is no longer pending
    assert!(!take_interrupt(&hart, &mut pfic, 17));
}

#[test]
fn no_interrupt_is_taken_inside_a_critical_section() {
    let mut pfic = Pfic::new();
    enable_interrupt(&mut pfic, 30);
    pend_interrupt(&mut pfic, 30);
    let mut hart = Hart::new();
    hart.mstatus = 0x88;
    let token = SingleHartCriticalSection::acquire(&mut hart);
    assert!(!take_interrupt(&hart, &mut pfic, 30));
    assert!(is_pending(&pfic, 30));
    SingleHartCriticalSection::release(&mut hart, token);
    assert!(take_interrupt(&hart, &mut pfic, 30));
    assert!(is_active(&pfic, 30));
}

#[test]
fn core_interrupt_table_by_code_has_an_entry_for_the_code_zero() {
    let by_code = core_interrupts_by_code();
    let laid_out = core_interrupts();
    assert_eq!(by_code.len(), 16);
    assert_eq!(by_code[0], None);
    for code in 0..16usize {
        assert_eq!(by_code[code], CoreInterrupt::try_from(code as u8).ok());
    }
    for index in 0..15usize {
        assert_eq!(laid_out[index], by_code[index + 1]);
    }
}

#[test]
fn core_interrupts_are_dispatched_by_their_codes() {
    let core = core_interrupts_by_code();
    let mut external: [Option<CoreInterrupt>; 256] = [None; 256];
    // entries that no interrupt reaches: the core table decides for these codes
    external[0] = Some(CoreInterrupt::Software);
    external[12] = Some(CoreInterrupt::Software);
    external[13] = Some(CoreInterrupt::Software);
    for code in 0..16usize {
        let expected = match CoreInterrupt::try_from(code as u8) {
            Ok(interrupt) => Target::Handler(interrupt),
            Err(_) => Target::DefaultHandler,
        };
        assert_eq!(dispatch_interrupt(&core, &external, code), expected);
    }
    assert_eq!(
        dispatch_interrupt(&core, &external, 12),
        Target::Handler(CoreInterrupt::SysTick)
    );
    assert_eq!(dispatch_interrupt(&core, &external, 16), Target::DefaultHandler);
}

#[test]
fn the_external_table_is_empty_at_boot() {
    let table: ExternalInterrupts<u32> = external_interrupts();
    assert_eq!(table.len(), 256);
    for code in 0..300usize {
        assert_eq!(lookup(&table, code), None);
    }
    let core = core_table();
    for code in 15..300usize {
        assert_eq!(dispatch_interrupt(&core, &table, code), Target::DefaultHandler);
    }
}

#[test]
fn a_handler_is_installed_while_interrupts_are_disabled() {
    let mut table: ExternalInterrupts<u32> = external_interrupts();
    let hart = Hart::new();
    assert_eq!(install(&mut table, &hart, 40, 7), Ok(()));
    assert_eq!(install(&mut table, &hart, 255, 8), Ok(()));
    assert_eq!(install(&mut table, &hart, 0, 9), Ok(()));
    for code in 0..256usize {
        let expected = match code {
            40 => Some(7),
            255 => Some(8),
            0 => Some(9),
            _ => None,
        };
        assert_eq!(lookup(&table, code), expected);
    }
    // a second handler for a code takes the place of the first
    assert_eq!(install(&mut table, &hart, 40, 17), Ok(()));
    assert_eq!(lookup(&table, 40), Some(17));
    assert_eq!(dispatch_interrupt(&core_table(), &table, 40), Target::Handler(17));
}

#[test]
fn no_handler_is_installed_beyond_the_table() {
    let mut table: ExternalInterrupts<u32> = external_interrupts();
    let before = table;
    let hart = Hart::new();
    assert_eq!(install(&mut table, &hart, 256, 1), Err(InstallError::OutOfRange));
    assert_eq!(install(&mut table, &hart, usize::MAX, 1), Err(InstallError::OutOfRange));
    assert_eq!(table, before);
}

#[test]
fn no_handler_is_installed_once_interrupts_are_enabled() {
    let mut table: ExternalInterrupts<u32> = external_interrupts();
    let mut hart = Hart::new();
    assert_eq!(install(&mut table, &hart, 40, 7), Ok(()));
    let before = table;
    hart.mstatus = 0x8;
    assert_eq!(install(&mut table, &hart, 41, 8), Err(InstallError::Unmasked));
    assert_eq!(install(&mut table, &hart, 40, 9), Err(InstallError::Unmasked));
    // the state of the hart is reported first
    assert_eq!(install(&mut table, &hart, 256, 9), Err(InstallError::Unmasked));
    assert_eq!(table, before);
}
