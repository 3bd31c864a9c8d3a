use qingke::hart::{Hart, Privilege};
use qingke::register::mtvec::TrapMode;
use qingke::register::{intsyscr, mtvec};
use qingke::rt::setup::{
    qingke_setup_interrupts, Core, CORECFGR_SETUP, INTSYSCR_NEST_AND_STACK, VECTOR_BASE,
    VECTOR_BASE_HIGHCODE,
};

fn hart_at_reset(mstatus: usize) -> Hart {
    let mut hart = Hart::new();
    hart.mstatus = mstatus;
    hart.intsyscr = 0x20;
    hart.corecfgr = 0x100;
    hart.sp = 0x2000_5000;
    hart
}

#[test]
fn setup_constants() {
    assert_eq!(VECTOR_BASE, 0);
    assert_eq!(VECTOR_BASE_HIGHCODE, 0x2000_0000);
    assert_eq!(INTSYSCR_NEST_AND_STACK, 0x3);
    assert_eq!(CORECFGR_SETUP, 0x1f);
    assert_eq!(VECTOR_BASE % mtvec::MTVEC_BASE_ALIGNMENT, 0);
    assert_eq!(VECTOR_BASE_HIGHCODE % mtvec::MTVEC_BASE_ALIGNMENT, 0);
}

#[test]
fn setup_of_a_v2_core() {
    let before = hart_at_reset(0x1800);
    let mut hart = before;
    qingke_setup_interrupts(&mut hart, Core::V2, false);
    assert_eq!(hart.mstatus, 0x80);
    assert_eq!(hart.intsyscr, 0x3);
    assert_eq!(hart.corecfgr, 0x100);
    assert_eq!(hart.mtvec, 0x3);
    assert!(!hart.global_interrupt_enabled());
    let expected = Hart { mstatus: 0x80, intsyscr: 0x3, mtvec: 0x3, ..before };
    assert_eq!(hart, expected);
}

#[test]
fn setup_of_a_v3_core() {
    let before = hart_at_reset(0x1800);
    let mut hart = before;
    qingke_setup_interrupts(&mut hart, Core::V3, false);
    let expected = Hart { mstatus: 0x1888, mtvec: 0x3, ..before };
    assert_eq!(hart, expected);
    assert!(hart.global_interrupt_enabled());
}

#[test]
fn setup_of_a_v4_core() {
    let before = hart_at_reset(0x1800);
    let mut hart = before;
    qingke_setup_interrupts(&mut hart, Core::V4, false);
    let expected =
        Hart { mstatus: 0x1888, intsyscr: 0x3, corecfgr: 0x1f, mtvec: 0x3, ..before };
    assert_eq!(hart, expected);
    assert!(hart.global_interrupt_enabled());
    let control = intsyscr::read(&hart);
    assert!(control.hwstken());
    assert!(control.inesten());
}

#[test]
fn setup_with_code_in_fast_memory_moves_the_vector_base() {
    for core in [Core::V2, Core::V3, Core::V4] {
        let mut hart = hart_at_reset(0);
        qingke_setup_interrupts(&mut hart, core, true);
        assert_eq!(hart.mtvec, 0x2000_0003);
        assert_eq!(mtvec::base(&hart), 0x2000_0000);
        assert_eq!(mtvec::trap_mode(&hart), Some(TrapMode::VectoredAddress));

        let mut hart = hart_at_reset(0);
        qingke_setup_interrupts(&mut hart, core, false);
        assert_eq!(mtvec::base(&hart), 0);
        assert_eq!(mtvec::trap_mode(&hart), Some(TrapMode::VectoredAddress));
    }
}

#[test]
fn after_setup_a_return_enables_interrupts() {
    for core in [Core::V2, Core::V3, Core::V4] {
        for mstatus in [0usize, 0x1800, 0x6000] {
            let mut hart = hart_at_reset(mstatus);
            qingke_setup_interrupts(&mut hart, core, false);
            assert_ne!(hart.mstatus & 0x80, 0);
            hart.mret();
            assert!(hart.global_interrupt_enabled());
        }
    }
}

#[test]
fn after_setup_a_v2_core_returns_to_user_mode() {
    let mut hart = hart_at_reset(0x1800);
    qingke_setup_interrupts(&mut hart, Core::V2, false);
    hart.mret();
    assert_eq!(hart.privilege, Privilege::User);

    // V3 and V4 leave MPP as it was
    for core in [Core::V3, Core::V4] {
        let mut hart = hart_at_reset(0x1800);
        qingke_setup_interrupts(&mut hart, core, false);
        hart.mret();
        assert_eq!(hart.privilege, Privilege::Machine);
        let mut hart = hart_at_reset(0);
        qingke_setup_interrupts(&mut hart, core, false);
        hart.mret();
        assert_eq!(hart.privilege, Privilege::User);
    }
}
