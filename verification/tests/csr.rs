use qingke::hart::{Csr, CsrAccess, CsrOp, Hart, GINTENR_MASK};
use qingke::register::gintenr;
use qingke::rt::setup::{qingke_setup_interrupts, setup_step, Core};

const ALL: [Csr; 7] = [
    Csr::Mstatus,
    Csr::Mtvec,
    Csr::Mepc,
    Csr::Mcause,
    Csr::Gintenr,
    Csr::Intsyscr,
    Csr::Corecfgr,
];

#[test]
fn csr_numbers() {
    assert_eq!(Csr::Mstatus.address(), 0x300);
    assert_eq!(Csr::Mtvec.address(), 0x305);
    assert_eq!(Csr::Mepc.address(), 0x341);
    assert_eq!(Csr::Mcause.address(), 0x342);
    assert_eq!(Csr::Gintenr.address(), 0x800);
    assert_eq!(Csr::Intsyscr.address(), 0x804);
    assert_eq!(Csr::Corecfgr.address(), 0xBC0);
    assert_eq!(GINTENR_MASK, 0x88);
}

#[test]
fn the_three_kinds_of_access() {
    assert_eq!(CsrOp::Write.apply(0xf0, 0x3c), 0x3c);
    assert_eq!(CsrOp::SetBits.apply(0xf0, 0x3c), 0xfc);
    assert_eq!(CsrOp::ClearBits.apply(0xf0, 0x3c), 0xc0);
    assert_eq!(CsrOp::SetBits.apply(0, 0), 0);
    assert_eq!(CsrOp::ClearBits.apply(usize::MAX, usize::MAX), 0);
}

#[test]
fn an_access_changes_its_own_register_and_returns_the_old_value() {
    for csr in ALL {
        if csr == Csr::Gintenr {
            continue;
        }
        let mut hart = Hart::new();
        assert_eq!(hart.access(CsrAccess { csr, op: CsrOp::Write, bits: 0x1234 }), 0);
        assert_eq!(hart.read_csr(csr), 0x1234);
        assert_eq!(hart.access(CsrAccess { csr, op: CsrOp::SetBits, bits: 0x4003 }), 0x1234);
        assert_eq!(hart.read_csr(csr), 0x5237);
        assert_eq!(hart.access(CsrAccess { csr, op: CsrOp::ClearBits, bits: 0x0030 }), 0x5237);
        assert_eq!(hart.read_csr(csr), 0x5207);
        for other in ALL {
            if other != csr && !(csr == Csr::Mstatus && other == Csr::Gintenr) {
                assert_eq!(hart.read_csr(other), 0);
            }
        }
    }
}

#[test]
fn gintenr_is_a_window_onto_mstatus() {
    let mut hart = Hart::new();
    hart.mstatus = 0x1880;
    assert_eq!(hart.read_csr(Csr::Gintenr), 0x80);
    let before = hart.access(CsrAccess { csr: Csr::Gintenr, op: CsrOp::SetBits, bits: 0x8 });
    assert_eq!(before, 0x80);
    assert_eq!(hart.mstatus, 0x1888);
    let before = hart.access(CsrAccess { csr: Csr::Gintenr, op: CsrOp::Write, bits: 0xffff });
    assert_eq!(before, 0x88);
    assert_eq!(hart.mstatus, 0x1888);
    let before = hart.access(CsrAccess { csr: Csr::Gintenr, op: CsrOp::ClearBits, bits: 0xff });
    assert_eq!(before, 0x88);
    assert_eq!(hart.mstatus, 0x1800);
    hart.access(CsrAccess { csr: Csr::Mstatus, op: CsrOp::Write, bits: 0x8 });
    assert_eq!(hart.read_csr(Csr::Gintenr), 0x8);
}

#[test]
fn the_accesses_of_gintenr() {
    assert_eq!(
        gintenr::enable_access(),
        CsrAccess { csr: Csr::Gintenr, op: CsrOp::SetBits, bits: 0x8 }
    );
    assert_eq!(
        gintenr::disable_access(),
        CsrAccess { csr: Csr::Gintenr, op: CsrOp::ClearBits, bits: 0x8 }
    );
    assert!(gintenr::is_enabled(0x8));
    assert!(gintenr::is_enabled(0x88));
    assert!(!gintenr::is_enabled(0x80));
    assert!(!gintenr::is_enabled(0));
    assert_eq!(gintenr::GINTENR_ENABLE, 0x8);
}

fn steps(core: Core, highcode: bool) -> Vec<CsrAccess> {
    let mut all = Vec::new();
    let mut index = 0;
    while let Some(access) = setup_step(core, highcode, index) {
        all.push(access);
        index += 1;
    }
    all
}

#[test]
fn the_setup_of_a_v2_core_is_three_accesses() {
    assert_eq!(
        steps(Core::V2, false),
        vec![
            CsrAccess { csr: Csr::Mtvec, op: CsrOp::Write, bits: 0x3 },
            CsrAccess { csr: Csr::Mstatus, op: CsrOp::Write, bits: 0x80 },
            CsrAccess { csr: Csr::Intsyscr, op: CsrOp::Write, bits: 0x3 },
        ]
    );
}

#[test]
fn the_setup_of_a_v3_core_is_two_accesses() {
    assert_eq!(
        steps(Core::V3, true),
        vec![
            CsrAccess { csr: Csr::Mtvec, op: CsrOp::Write, bits: 0x2000_0003 },
            CsrAccess { csr: Csr::Mstatus, op: CsrOp::SetBits, bits: 0x88 },
        ]
    );
}

#[test]
fn the_setup_of_a_v4_core_is_five_accesses() {
    assert_eq!(
        steps(Core::V4, false),
        vec![
            CsrAccess { csr: Csr::Mtvec, op: CsrOp::Write, bits: 0x3 },
            CsrAccess { csr: Csr::Corecfgr, op: CsrOp::Write, bits: 0x1f },
            CsrAccess { csr: Csr::Intsyscr, op: CsrOp::Write, bits: 0x3 },
            CsrAccess { csr: Csr::Mstatus, op: CsrOp::SetBits, bits: 0x88 },
            CsrAccess { csr: Csr::Gintenr, op: CsrOp::SetBits, bits: 0x8 },
        ]
    );
    assert_eq!(setup_step(Core::V4, false, 5), None);
    assert_eq!(setup_step(Core::V4, false, usize::MAX), None);
}

#[test]
fn the_trap_vector_is_written_before_interrupts_are_enabled() {
    for core in [Core::V2, Core::V3, Core::V4] {
        for highcode in [false, true] {
            let mut hart = Hart::new();
            let mut vector_written = false;
            for access in steps(core, highcode) {
                hart.access(access);
                if access.csr == Csr::Mtvec {
                    vector_written = true;
                }
                assert!(vector_written || !hart.global_interrupt_enabled());
            }
            assert!(vector_written);
        }
    }
}

#[test]
fn the_setup_is_its_accesses_made_in_order() {
    for core in [Core::V2, Core::V3, Core::V4] {
        for highcode in [false, true] {
            for mstatus in [0usize, 0x1800, 0x6080] {
                let mut by_setup = Hart::new();
                by_setup.mstatus = mstatus;
                let mut by_steps = by_setup;
                qingke_setup_interrupts(&mut by_setup, core, highcode);
                for access in steps(core, highcode) {
                    by_steps.access(access);
                }
                assert_eq!(by_setup, by_steps);
            }
        }
    }
}
