//! Interrupt setup: the one-time configuration of interrupt nesting, the
//! hardware stack, the privilege level after a return, and the trap vector.

use crate::hart::{previous_privilege, Csr, CsrAccess, CsrOp, Hart, Privilege, MSTATUS_MPIE};
use crate::register::gintenr;
use crate::register::mtvec;
use crate::register::mtvec::TrapMode;
use vstd::prelude::*;

verus! {

/// The generations of the core that the setup tells apart.
#[derive(Copy, Clone, Debug, PartialEq, Eq, Structural)]
pub enum Core {
    /// QingKe V2A, V2C.
    V2,
    /// QingKe V3A.
    V3,
    /// QingKe V4, and any core that is not known to be older.
    V4,
}

/// The base of the vector table where the code runs from fast memory.
pub const VECTOR_BASE_HIGHCODE: usize = 0x2000_0000;

/// The base of the vector table where the code runs from mapped storage.
pub const VECTOR_BASE: usize = 0x0000_0000;

/// What the setup writes to intsyscr: nested interrupts and hardware stack.
pub const INTSYSCR_NEST_AND_STACK: usize = 0x3;

/// What the setup writes to corecfgr: pipeline and prediction control.
pub const CORECFGR_SETUP: usize = 0x1f;

/// The base of the vector table.
pub open spec fn vector_base(highcode: bool) -> usize {
    if highcode {
        VECTOR_BASE_HIGHCODE
    } else {
        VECTOR_BASE
    }
}

/// The hart after the interrupt setup of a core of generation `core`.
///
/// - V2: mstatus is 0x80, so that a return goes to user mode with
///   interrupts enabled; intsyscr enables nested interrupts and the hardware
///   stack.
/// - V3: `MPIE` and `MIE` are set in mstatus, the rest of it stays.
/// - V4: corecfgr is 0x1f; intsyscr enables nested interrupts and the
///   hardware stack; `MPIE` and `MIE` are set in mstatus.
///
/// On each, mtvec names the vector table, entered by absolute address.
pub open spec fn configured(hart: Hart, core: Core, highcode: bool) -> Hart {
    let mtvec = mtvec::encode(vector_base(highcode), TrapMode::VectoredAddress);
    match core {
        Core::V2 => Hart { mtvec, mstatus: 0x80, intsyscr: INTSYSCR_NEST_AND_STACK, ..hart },
        Core::V3 => Hart { mtvec, mstatus: hart.mstatus | 0x88, ..hart },
        Core::V4 => Hart {
            mtvec,
            corecfgr: CORECFGR_SETUP,
            intsyscr: INTSYSCR_NEST_AND_STACK,
            mstatus: hart.mstatus | 0x88,
            ..hart
        },
    }
}

/// What the configured hart is good for: the vector table is found at its
/// aligned base and entered by absolute address, and a return from machine
/// mode enables interrupts. On V2 the return goes to user mode; on V3 and V4
/// it goes where `MPP` pointed before.
pub proof fn lemma_configured(hart: Hart, core: Core, highcode: bool)
    ensures
        mtvec::mode_of(configured(hart, core, highcode).mtvec) == Some(TrapMode::VectoredAddress),
        mtvec::base_of(configured(hart, core, highcode).mtvec) == vector_base(highcode),
        vector_base(highcode) % mtvec::MTVEC_BASE_ALIGNMENT == 0,
        configured(hart, core, highcode).mstatus & MSTATUS_MPIE != 0,
        configured(hart, core, highcode).after_mret().interrupts_enabled(),
        core == Core::V2 ==> previous_privilege(configured(hart, core, highcode).mstatus)
            == Privilege::User,
        core != Core::V2 ==> previous_privilege(configured(hart, core, highcode).mstatus)
            == previous_privilege(hart.mstatus),
        core != Core::V2 ==> configured(hart, core, highcode).interrupts_enabled(),
{
    lemma_setup_bits(hart.mstatus);
    mtvec::lemma_encode_decode(vector_base(highcode), TrapMode::VectoredAddress);
}

/// The bit-level facts that the setup rests on: both vector bases leave the
/// mode bits of mtvec clear, and the values written to mstatus set `MPIE`,
/// and on V3 and V4 `MIE`, without touching `MPP`.
proof fn lemma_setup_bits(mstatus: usize)
    by (bit_vector)
    ensures
        0x2000_0000usize & 0x3 == 0,
        0x0000_0000usize & 0x3 == 0,
        0x80usize & 0x80 != 0,
        0x80usize & 0x8 == 0,
        0x80usize & 0x1800 != 0x1800,
        (0x80usize | 0x8) & 0x8 != 0,
        (mstatus | 0x88) & 0x80 != 0,
        (mstatus | 0x88) & 0x8 != 0,
        (mstatus | 0x88) | 0x8 == mstatus | 0x88,
        (mstatus | 0x88) & 0x1800 == mstatus & 0x1800,
        ((mstatus | 0x88) & !0x88usize) | ((((mstatus | 0x88) & 0x88) | 0x8) & 0x88) == mstatus
            | 0x88,
{
}

/// The register accesses that make up the interrupt setup of a core of
/// generation `core`, in the order in which they are made. The trap vector
/// is written first, before any access that enables interrupts.
pub open spec fn setup_accesses(core: Core, highcode: bool) -> Seq<CsrAccess> {
    let vector = CsrAccess {
        csr: Csr::Mtvec,
        op: CsrOp::Write,
        bits: mtvec::encode(vector_base(highcode), TrapMode::VectoredAddress),
    };
    match core {
        Core::V2 => seq![
            vector,
            CsrAccess { csr: Csr::Mstatus, op: CsrOp::Write, bits: 0x80 },
            CsrAccess { csr: Csr::Intsyscr, op: CsrOp::Write, bits: INTSYSCR_NEST_AND_STACK },
        ],
        Core::V3 => seq![vector, CsrAccess { csr: Csr::Mstatus, op: CsrOp::SetBits, bits: 0x88 }],
        Core::V4 => seq![
            vector,
            CsrAccess { csr: Csr::Corecfgr, op: CsrOp::Write, bits: CORECFGR_SETUP },
            CsrAccess { csr: Csr::Intsyscr, op: CsrOp::Write, bits: INTSYSCR_NEST_AND_STACK },
            CsrAccess { csr: Csr::Mstatus, op: CsrOp::SetBits, bits: 0x88 },
            CsrAccess { csr: Csr::Gintenr, op: CsrOp::SetBits, bits: gintenr::GINTENR_ENABLE },
        ],
    }
}

/// The accesses of the setup, made in their order, configure the hart; the
/// first of them writes the trap vector, and up to it the global interrupt
/// enable is as it was found.
pub proof fn lemma_setup_accesses(hart: Hart, core: Core, highcode: bool)
    ensures
        1 <= setup_accesses(core, highcode).len() <= 5,
        hart.after_first(setup_accesses(core, highcode), setup_accesses(core, highcode).len())
            == configured(hart, core, highcode),
        setup_accesses(core, highcode)[0] == (CsrAccess {
            csr: Csr::Mtvec,
            op: CsrOp::Write,
            bits: mtvec::encode(vector_base(highcode), TrapMode::VectoredAddress),
        }),
        hart.after_first(setup_accesses(core, highcode), 1).interrupts_enabled()
            == hart.interrupts_enabled(),
{
    reveal_with_fuel(Hart::after_first, 6);
    lemma_setup_bits(hart.mstatus);
}

/// The setup configures before it enables: entered with interrupts
/// disabled, it enables them only once the trap vector, the interrupt
/// system control and the core configuration hold what they are set up to
/// hold.
pub proof fn lemma_setup_configures_before_it_enables(
    hart: Hart,
    core: Core,
    highcode: bool,
    count: nat,
)
    requires
        !hart.interrupts_enabled(),
        count <= setup_accesses(core, highcode).len(),
        hart.after_first(setup_accesses(core, highcode), count).interrupts_enabled(),
    ensures
        hart.after_first(setup_accesses(core, highcode), count).mtvec == configured(
            hart,
            core,
            highcode,
        ).mtvec,
        hart.after_first(setup_accesses(core, highcode), count).intsyscr == configured(
            hart,
            core,
            highcode,
        ).intsyscr,
        hart.after_first(setup_accesses(core, highcode), count).corecfgr == configured(
            hart,
            core,
            highcode,
        ).corecfgr,
{
    reveal_with_fuel(Hart::after_first, 6);
    lemma_setup_bits(hart.mstatus);
}

/// The access number `index` of the interrupt setup, or `None` where the
/// setup has no more than `index` accesses.
pub fn setup_step(core: Core, highcode: bool, index: usize) -> (access: Option<CsrAccess>)
    ensures
        access == if index < setup_accesses(core, highcode).len() {
            Some(setup_accesses(core, highcode)[index as int])
        } else {
            None
        },
{
    // Qingke V2's mtvec must be 1KB aligned.
    let base = if highcode {
        VECTOR_BASE_HIGHCODE
    } else {
        VECTOR_BASE
    };
    let vector = CsrAccess {
        csr: Csr::Mtvec,
        op: CsrOp::Write,
        bits: base | TrapMode::VectoredAddress.bits(),
    };
    // return to user mode
    // mstatus
    // - use 0x88 to set mpp=0, return to user mode
    // - use 0x1888 to set mpp=3, return to machine mode
    let status = CsrAccess { csr: Csr::Mstatus, op: CsrOp::SetBits, bits: 0x88 };
    // intsyscr: open nested interrupts and hardware stack functions
    // 0x3 both nested interrupts and hardware stack
    // 0x1 only hardware stack
    let nesting = CsrAccess { csr: Csr::Intsyscr, op: CsrOp::Write, bits: INTSYSCR_NEST_AND_STACK };
    match core {
        Core::V2 => match index {
            0 => Some(vector),
            1 => Some(CsrAccess { csr: Csr::Mstatus, op: CsrOp::Write, bits: 0x80 }),
            2 => Some(nesting),
            _ => None,
        },
        Core::V3 => match index {
            0 => Some(vector),
            1 => Some(status),
            _ => None,
        },
        Core::V4 => match index {
            0 => Some(vector),
            // corecfgr: pipeline control bit & dynamic prediction control
            1 => Some(CsrAccess { csr: Csr::Corecfgr, op: CsrOp::Write, bits: CORECFGR_SETUP }),
            2 => Some(nesting),
            3 => Some(status),
            4 => Some(gintenr::enable_access()),
            _ => None,
        },
    }
}

/// Sets the interrupt system up: makes the accesses of the setup in their
/// order. It must run before interrupts are enabled globally.
pub fn qingke_setup_interrupts(hart: &mut Hart, core: Core, highcode: bool)
    requires
        !old(hart).interrupts_enabled(),
    ensures
        *final(hart) == configured(*old(hart), core, highcode),
{
    let ghost accesses = setup_accesses(core, highcode);
    proof {
        lemma_setup_accesses(*old(hart), core, highcode);
    }
    let mut index: usize = 0;
    loop
        invariant_except_break
            index <= accesses.len(),
        invariant
            accesses == setup_accesses(core, highcode),
            accesses.len() <= 5,
            *hart == old(hart).after_first(accesses, index as nat),
        ensures
            index == accesses.len(),
        decreases accesses.len() - index,
    {
        match setup_step(core, highcode, index) {
            Some(access) => {
                hart.access(access);
                index += 1;
            },
            None => {
                break ;
            },
        }
    }
}

} // verus!
