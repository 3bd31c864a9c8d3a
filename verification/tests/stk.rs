use qingke::peripheral::stk::{
    RegisterBlock, StkClkSource, STK_CTLR_STCLK, STK_CTLR_STE, STK_CTLR_STIE, STK_SR_CNTIF,
};
use qingke::peripheral::{STK, STK_BASE};

fn block() -> RegisterBlock {
    RegisterBlock {
        ctlr: 0xffff_fff0,
        sr: 0xf0,
        cntl: 0x1234_5678,
        cnth: 0x9abc_def0,
        cmplr: 0x1111_1111,
        cmphr: 0x2222_2222,
    }
}

#[test]
fn timer_constants() {
    assert_eq!(STK_BASE, 0xE000_F000);
    assert_eq!(STK_CTLR_STE, 1 << 0);
    assert_eq!(STK_CTLR_STIE, 1 << 1);
    assert_eq!(STK_CTLR_STCLK, 1 << 2);
    assert_eq!(STK_SR_CNTIF, 1 << 0);
}

#[test]
fn a_new_timer_is_all_zero() {
    let timer = STK::new();
    let zero = RegisterBlock { ctlr: 0, sr: 0, cntl: 0, cnth: 0, cmplr: 0, cmphr: 0 };
    assert_eq!(*timer, zero);
    assert!(!timer.is_counter_enabled());
    assert!(!timer.is_interrupt_enabled());
    assert!(!timer.has_wrapped());
    assert_eq!(timer.get_current_non_atomic(), 0);
}

#[test]
fn the_current_value_is_put_together_from_two_halves() {
    let timer = STK::from_registers(block());
    assert_eq!(timer.get_current_low(), 0x1234_5678);
    assert_eq!(timer.get_current_high(), 0x9abc_def0);
    assert_eq!(timer.get_current_non_atomic(), 0x9abc_def0_1234_5678);
    let full = STK::from_registers(RegisterBlock { cntl: u32::MAX, cnth: u32::MAX, ..block() });
    assert_eq!(full.get_current_non_atomic(), u64::MAX);
}

#[test]
fn clearing_the_current_value() {
    let mut timer = STK::from_registers(block());
    timer.clear_current_low();
    assert_eq!(*timer, RegisterBlock { cntl: 0, ..block() });
    timer.clear_current_high();
    assert_eq!(*timer, RegisterBlock { cntl: 0, cnth: 0, ..block() });

    let mut timer = STK::from_registers(block());
    timer.clear_current_non_atomic();
    assert_eq!(*timer, RegisterBlock { cntl: 0, cnth: 0, ..block() });
    assert_eq!(timer.get_current_non_atomic(), 0);
}

#[test]
fn counter_enable_is_bit_zero_of_the_control_register() {
    let mut timer = STK::from_registers(block());
    assert!(!timer.is_counter_enabled());
    timer.enable_counter();
    assert!(timer.is_counter_enabled());
    assert_eq!(*timer, RegisterBlock { ctlr: 0xffff_fff1, ..block() });
    timer.disable_counter();
    assert!(!timer.is_counter_enabled());
    assert_eq!(*timer, block());
}

#[test]
fn interrupt_enable_is_bit_one_of_the_control_register() {
    let mut timer = STK::from_registers(block());
    assert!(!timer.is_interrupt_enabled());
    timer.enable_interrupt();
    assert!(timer.is_interrupt_enabled());
    assert!(!timer.is_counter_enabled());
    assert_eq!(*timer, RegisterBlock { ctlr: 0xffff_fff2, ..block() });
    timer.disable_interrupt();
    assert!(!timer.is_interrupt_enabled());
    assert_eq!(*timer, block());
}

#[test]
fn the_clock_source_is_bit_two_of_the_control_register() {
    let mut timer = STK::from_registers(block());
    timer.set_clock_source(StkClkSource::Hclk);
    assert_eq!(*timer, RegisterBlock { ctlr: 0xffff_fff4, ..block() });
    timer.set_clock_source(StkClkSource::HclkDiv8);
    assert_eq!(*timer, block());
}

#[test]
fn reload_halves_are_written_to_their_registers() {
    let mut timer = STK::from_registers(block());
    timer.set_reload_low(0xaaaa_0001);
    assert_eq!(*timer, RegisterBlock { cmplr: 0xaaaa_0001, ..block() });
    timer.set_reload_high(0xbbbb_0002);
    assert_eq!(
        *timer,
        RegisterBlock { cmplr: 0xaaaa_0001, cmphr: 0xbbbb_0002, ..block() }
    );
}

#[test]
fn the_whole_reload_value_goes_through_the_low_register() {
    let mut timer = STK::from_registers(block());
    timer.set_reload_non_atomic(0x0123_4567_89ab_cdef);
    assert_eq!(*timer, RegisterBlock { cmplr: 0x0123_4567, ..block() });
    timer.set_reload_non_atomic(0xffff_ffff);
    assert_eq!(*timer, RegisterBlock { cmplr: 0, ..block() });
}

#[test]
fn the_wrapped_flag_is_bit_zero_of_the_state_register() {
    let mut timer = STK::from_registers(RegisterBlock { sr: 0xf1, ..block() });
    assert!(timer.has_wrapped());
    timer.clear_wrapped_flag();
    assert!(!timer.has_wrapped());
    assert_eq!(*timer, block());
    timer.clear_wrapped_flag();
    assert_eq!(*timer, block());
}
