//! The state of one hart: its control and status registers, the registers
//! that the boot sequence loads, and the privilege level it runs at.

use vstd::prelude::*;

verus! {

/// `mstatus.MIE`, the global interrupt enable bit.
pub const MSTATUS_MIE: usize = 0x8;

/// `mstatus.MPIE`, the global interrupt enable as it was before the last trap.
pub const MSTATUS_MPIE: usize = 0x80;

/// `mstatus.MPP`, the privilege level that a return from a trap goes to.
pub const MSTATUS_MPP: usize = 0x1800;

/// The more significant bit of `mstatus.FS`.
pub const MSTATUS_FS_HIGH: usize = 0x4000;

/// The less significant bit of `mstatus.FS`.
pub const MSTATUS_FS_LOW: usize = 0x2000;

/// A privilege level of the core.
#[derive(Clone, Copy, Debug, PartialEq, Eq, Structural)]
pub enum Privilege {
    User,
    Machine,
}

/// One hardware thread: the registers that this crate reads and writes.
#[derive(Clone, Copy, Debug, PartialEq, Eq, Structural)]
pub struct Hart {
    /// Machine status.
    pub mstatus: usize,
    /// Trap vector base address and mode.
    pub mtvec: usize,
    /// The address that a return from a trap jumps to.
    pub mepc: usize,
    /// The cause of the last trap.
    pub mcause: usize,
    /// Interrupt system control (CSR 0x804).
    pub intsyscr: usize,
    /// Core configuration (CSR 0xBC0).
    pub corecfgr: usize,
    /// The global pointer.
    pub gp: usize,
    /// The stack pointer.
    pub sp: usize,
    /// The program counter.
    pub pc: usize,
    /// The level at which the hart executes.
    pub privilege: Privilege,
}

/// The privilege level that `mstatus.MPP` names in `mstatus`: machine mode
/// when both bits are set, user mode otherwise.
pub open spec fn previous_privilege(mstatus: usize) -> Privilege {
    if mstatus & MSTATUS_MPP == MSTATUS_MPP {
        Privilege::Machine
    } else {
        Privilege::User
    }
}

/// `mstatus` after a return from a trap: `MIE` takes the value of `MPIE`.
pub open spec fn mstatus_after_return(mstatus: usize) -> usize {
    if mstatus & MSTATUS_MPIE != 0 {
        mstatus | MSTATUS_MIE
    } else {
        mstatus & !MSTATUS_MIE
    }
}

impl Hart {
    /// A hart in machine mode with every register zero.
    pub fn new() -> (hart: Hart)
        ensures
            hart == Hart::zeroed(),
            !hart.interrupts_enabled(),
    {
        assert(0usize & 0x8 == 0) by (bit_vector);
        Hart {
            mstatus: 0,
            mtvec: 0,
            mepc: 0,
            mcause: 0,
            intsyscr: 0,
            corecfgr: 0,
            gp: 0,
            sp: 0,
            pc: 0,
            privilege: Privilege::Machine,
        }
    }

    /// The state that `new` returns.
    pub open spec fn zeroed() -> Hart {
        Hart {
            mstatus: 0,
            mtvec: 0,
            mepc: 0,
            mcause: 0,
            intsyscr: 0,
            corecfgr: 0,
            gp: 0,
            sp: 0,
            pc: 0,
            privilege: Privilege::Machine,
        }
    }

    /// Whether maskable interrupts may be delivered to this hart.
    pub open spec fn interrupts_enabled(self) -> bool {
        self.mstatus & MSTATUS_MIE != 0
    }

    /// Whether maskable interrupts may be delivered to this hart.
    pub fn global_interrupt_enabled(&self) -> (enabled: bool)
        ensures
            enabled == self.interrupts_enabled(),
    {
        self.mstatus & MSTATUS_MIE != 0
    }

    /// The state after the `mret` instruction.
    pub open spec fn after_mret(self) -> Hart {
        Hart {
            pc: self.mepc,
            privilege: previous_privilege(self.mstatus),
            mstatus: mstatus_after_return(self.mstatus),
            ..self
        }
    }

    /// Executes `mret`: execution continues at `mepc`, at the privilege level
    /// held in `mstatus.MPP`, with the global interrupt enable restored from
    /// `mstatus.MPIE`.
    pub fn mret(&mut self)
        ensures
            *final(self) == old(self).after_mret(),
    {
        self.pc = self.mepc;
        self.privilege = if self.mstatus & MSTATUS_MPP == MSTATUS_MPP {
            Privilege::Machine
        } else {
            Privilege::User
        };
        if self.mstatus & MSTATUS_MPIE != 0 {
            self.mstatus = self.mstatus | MSTATUS_MIE;
        } else {
            self.mstatus = self.mstatus & !MSTATUS_MIE;
        }
    }
}

/// The control and status registers that this crate accesses.
#[derive(Clone, Copy, Debug, PartialEq, Eq, Structural)]
pub enum Csr {
    /// Machine status, CSR 0x300.
    Mstatus,
    /// Trap vector base address and mode, CSR 0x305.
    Mtvec,
    /// The return address of a trap, CSR 0x341.
    Mepc,
    /// The cause of a trap, CSR 0x342.
    Mcause,
    /// Global interrupt enable, CSR 0x800: a window onto `MIE` and `MPIE`
    /// of machine status.
    Gintenr,
    /// Interrupt system control, CSR 0x804.
    Intsyscr,
    /// Core configuration, CSR 0xBC0.
    Corecfgr,
}

/// The three ways in which an instruction changes a register.
#[derive(Clone, Copy, Debug, PartialEq, Eq, Structural)]
pub enum CsrOp {
    /// `csrw`: the register takes the value.
    Write,
    /// `csrs`: the bits of the value are set in the register.
    SetBits,
    /// `csrc`: the bits of the value are cleared in the register.
    ClearBits,
}

/// One access of a control and status register.
#[derive(Clone, Copy, Debug, PartialEq, Eq, Structural)]
pub struct CsrAccess {
    /// The register.
    pub csr: Csr,
    /// What is done to it.
    pub op: CsrOp,
    /// The value that the instruction is given.
    pub bits: usize,
}

/// The bits of machine status that gintenr shows: `MIE` and `MPIE`.
pub const GINTENR_MASK: usize = 0x88;

impl Csr {
    /// The number of the register.
    pub open spec fn number(self) -> u16 {
        match self {
            Csr::Mstatus => 0x300,
            Csr::Mtvec => 0x305,
            Csr::Mepc => 0x341,
            Csr::Mcause => 0x342,
            Csr::Gintenr => 0x800,
            Csr::Intsyscr => 0x804,
            Csr::Corecfgr => 0xBC0,
        }
    }

    /// The number of the register.
    pub fn address(self) -> (number: u16)
        ensures
            number == self.number(),
    {
        match self {
            Csr::Mstatus => 0x300,
            Csr::Mtvec => 0x305,
            Csr::Mepc => 0x341,
            Csr::Mcause => 0x342,
            Csr::Gintenr => 0x800,
            Csr::Intsyscr => 0x804,
            Csr::Corecfgr => 0xBC0,
        }
    }
}

impl CsrOp {
    /// What a register that holds `before` holds after the instruction is
    /// given `bits`.
    pub open spec fn applied(self, before: usize, bits: usize) -> usize {
        match self {
            CsrOp::Write => bits,
            CsrOp::SetBits => before | bits,
            CsrOp::ClearBits => before & !bits,
        }
    }

    /// What a register that holds `before` holds after the instruction is
    /// given `bits`.
    pub fn apply(self, before: usize, bits: usize) -> (after: usize)
        ensures
            after == self.applied(before, bits),
    {
        match self {
            CsrOp::Write => bits,
            CsrOp::SetBits => before | bits,
            CsrOp::ClearBits => before & !bits,
        }
    }
}

impl Hart {
    /// What a read of `csr` gives.
    pub open spec fn csr(self, csr: Csr) -> usize {
        match csr {
            Csr::Mstatus => self.mstatus,
            Csr::Mtvec => self.mtvec,
            Csr::Mepc => self.mepc,
            Csr::Mcause => self.mcause,
            Csr::Gintenr => self.mstatus & GINTENR_MASK,
            Csr::Intsyscr => self.intsyscr,
            Csr::Corecfgr => self.corecfgr,
        }
    }

    /// The hart with `value` in `csr`. Of a value for gintenr, `MIE` and
    /// `MPIE` go to machine status and the rest is dropped.
    pub open spec fn with_csr(self, csr: Csr, value: usize) -> Hart {
        match csr {
            Csr::Mstatus => Hart { mstatus: value, ..self },
            Csr::Mtvec => Hart { mtvec: value, ..self },
            Csr::Mepc => Hart { mepc: value, ..self },
            Csr::Mcause => Hart { mcause: value, ..self },
            Csr::Gintenr => Hart {
                mstatus: (self.mstatus & !GINTENR_MASK) | (value & GINTENR_MASK),
                ..self
            },
            Csr::Intsyscr => Hart { intsyscr: value, ..self },
            Csr::Corecfgr => Hart { corecfgr: value, ..self },
        }
    }

    /// The hart after `access`.
    pub open spec fn after(self, access: CsrAccess) -> Hart {
        self.with_csr(access.csr, access.op.applied(self.csr(access.csr), access.bits))
    }

    /// The hart after the first `count` of `accesses`, made in their order.
    pub open spec fn after_first(self, accesses: Seq<CsrAccess>, count: nat) -> Hart
        decreases count,
    {
        if count == 0 {
            self
        } else {
            self.after_first(accesses, (count - 1) as nat).after(accesses[count - 1])
        }
    }

    /// Reads `csr`.
    pub fn read_csr(&self, csr: Csr) -> (value: usize)
        ensures
            value == self.csr(csr),
    {
        match csr {
            Csr::Mstatus => self.mstatus,
            Csr::Mtvec => self.mtvec,
            Csr::Mepc => self.mepc,
            Csr::Mcause => self.mcause,
            Csr::Gintenr => self.mstatus & GINTENR_MASK,
            Csr::Intsyscr => self.intsyscr,
            Csr::Corecfgr => self.corecfgr,
        }
    }

    /// Performs `access` as one instruction and returns what the register
    /// held before.
    pub fn access(&mut self, access: CsrAccess) -> (before: usize)
        ensures
            before == old(self).csr(access.csr),
            *final(self) == old(self).after(access),
    {
        let before = self.read_csr(access.csr);
        let value = access.op.apply(before, access.bits);
        match access.csr {
            Csr::Mstatus => {
                self.mstatus = value;
            },
            Csr::Mtvec => {
                self.mtvec = value;
            },
            Csr::Mepc => {
                self.mepc = value;
            },
            Csr::Mcause => {
                self.mcause = value;
            },
            Csr::Gintenr => {
                self.mstatus = (self.mstatus & !GINTENR_MASK) | (value & GINTENR_MASK);
            },
            Csr::Intsyscr => {
                self.intsyscr = value;
            },
            Csr::Corecfgr => {
                self.corecfgr = value;
            },
        }
        before
    }
}

} // verus!
