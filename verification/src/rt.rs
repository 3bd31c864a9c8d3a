//! The runtime of a QingKe core: the vector tables and the trap dispatcher,
//! the interrupt setup, and the boot sequence.
//!
//! Differences to the runtime of a standard RISC-V core:
//!
//! - The structure of exception handlers is different
//! - The structure of core interrupt handlers is different
//! - Hardware stack push is available, so no need to push manually

use vstd::prelude::*;

pub mod attribute;
pub mod boot;
pub mod setup;
pub mod trap;

verus! {

/// The interrupts that the core itself raises, each with its cause code.
#[derive(Copy, Clone, Debug, PartialEq, Eq, Structural)]
pub enum CoreInterrupt {
    NonMaskableInt,
    Exception,
    MachineEnvCall,
    UserEnvCall,
    Breakpoint,
    SysTick,
    Software,
}

impl CoreInterrupt {
    /// The cause code of the interrupt.
    pub open spec fn code(self) -> u8 {
        match self {
            CoreInterrupt::NonMaskableInt => 2,
            CoreInterrupt::Exception => 3,
            CoreInterrupt::MachineEnvCall => 5,
            CoreInterrupt::UserEnvCall => 8,
            CoreInterrupt::Breakpoint => 9,
            CoreInterrupt::SysTick => 12,
            CoreInterrupt::Software => 14,
        }
    }

    /// The core interrupt with the cause code `irq`, if there is one.
    pub open spec fn of_code(irq: u8) -> Option<CoreInterrupt> {
        if irq == 2 {
            Some(CoreInterrupt::NonMaskableInt)
        } else if irq == 3 {
            Some(CoreInterrupt::Exception)
        } else if irq == 5 {
            Some(CoreInterrupt::MachineEnvCall)
        } else if irq == 8 {
            Some(CoreInterrupt::UserEnvCall)
        } else if irq == 9 {
            Some(CoreInterrupt::Breakpoint)
        } else if irq == 12 {
            Some(CoreInterrupt::SysTick)
        } else if irq == 14 {
            Some(CoreInterrupt::Software)
        } else {
            None
        }
    }

    /// The cause code of the interrupt.
    pub fn number(self) -> (irq: u8)
        ensures
            irq == self.code(),
    {
        match self {
            CoreInterrupt::NonMaskableInt => 2,
            CoreInterrupt::Exception => 3,
            CoreInterrupt::MachineEnvCall => 5,
            CoreInterrupt::UserEnvCall => 8,
            CoreInterrupt::Breakpoint => 9,
            CoreInterrupt::SysTick => 12,
            CoreInterrupt::Software => 14,
        }
    }

    /// The core interrupt with the cause code `irq`, or `irq` itself where
    /// no core interrupt has that code.
    pub fn try_from(irq: u8) -> (r: Result<Self, u8>)
        ensures
            r == match Self::of_code(irq) {
                Some(interrupt) => Ok::<CoreInterrupt, u8>(interrupt),
                None => Err::<CoreInterrupt, u8>(irq),
            },
            r is Ok <==> irq == 2 || irq == 3 || irq == 5 || irq == 8 || irq == 9 || irq == 12
                || irq == 14,
            r matches Ok(interrupt) ==> interrupt.code() == irq,
    {
        match irq {
            2 => Ok(CoreInterrupt::NonMaskableInt),
            3 => Ok(CoreInterrupt::Exception),
            5 => Ok(CoreInterrupt::MachineEnvCall),
            8 => Ok(CoreInterrupt::UserEnvCall),
            9 => Ok(CoreInterrupt::Breakpoint),
            12 => Ok(CoreInterrupt::SysTick),
            14 => Ok(CoreInterrupt::Software),
            _ => Err(irq),
        }
    }

    /// Every core interrupt is found again from its own cause code, and a
    /// code names at most the interrupt that has it.
    pub proof fn lemma_code_round_trip(interrupt: CoreInterrupt, irq: u8)
        ensures
            Self::of_code(interrupt.code()) == Some(interrupt),
            Self::of_code(irq) == Some(interrupt) <==> interrupt.code() == irq,
    {
    }
}

/// The exceptions that have a handler of their own, each under the name
/// that its handler is exported by.
#[derive(Copy, Clone, Debug, PartialEq, Eq, Structural)]
pub enum Exception {
    InstructionMisaligned,
    InstructionFault,
    IllegalInstruction,
    Breakpoint,
    LoadMisaligned,
    LoadFault,
    StoreMisaligned,
    StoreFault,
    UserEnvCall,
    MachineEnvCall,
}

impl Exception {
    /// The cause code of the exception.
    pub open spec fn code(self) -> int {
        match self {
            Exception::InstructionMisaligned => 0,
            Exception::InstructionFault => 1,
            Exception::IllegalInstruction => 2,
            Exception::Breakpoint => 3,
            Exception::LoadMisaligned => 4,
            Exception::LoadFault => 5,
            Exception::StoreMisaligned => 6,
            Exception::StoreFault => 7,
            Exception::UserEnvCall => 8,
            Exception::MachineEnvCall => 11,
        }
    }

    /// The exception with the cause code `code`, if it has a handler of its
    /// own. The codes 9 and 10 have none.
    pub open spec fn of_code(code: int) -> Option<Exception> {
        if code == 0 {
            Some(Exception::InstructionMisaligned)
        } else if code == 1 {
            Some(Exception::InstructionFault)
        } else if code == 2 {
            Some(Exception::IllegalInstruction)
        } else if code == 3 {
            Some(Exception::Breakpoint)
        } else if code == 4 {
            Some(Exception::LoadMisaligned)
        } else if code == 5 {
            Some(Exception::LoadFault)
        } else if code == 6 {
            Some(Exception::StoreMisaligned)
        } else if code == 7 {
            Some(Exception::StoreFault)
        } else if code == 8 {
            Some(Exception::UserEnvCall)
        } else if code == 11 {
            Some(Exception::MachineEnvCall)
        } else {
            None
        }
    }

    /// Every exception is found again from its own cause code, and a code
    /// names at most the exception that has it.
    pub proof fn lemma_code_round_trip(exception: Exception, code: int)
        ensures
            Self::of_code(exception.code()) == Some(exception),
            Self::of_code(code) == Some(exception) <==> exception.code() == code,
    {
    }
}

/// The table of exception handlers as the runtime fills it: the entry for a
/// cause code names the exception with that code.
pub fn exceptions() -> (table: [Option<Exception>; 12])
    ensures
        forall|code: int| 0 <= code < 12 ==> #[trigger] table@[code] == Exception::of_code(code),
{
    [
        Some(Exception::InstructionMisaligned),  // 0
        Some(Exception::InstructionFault),
        Some(Exception::IllegalInstruction),
        Some(Exception::Breakpoint),
        Some(Exception::LoadMisaligned),
        Some(Exception::LoadFault),  // 5, Not accurate, async
        Some(Exception::StoreMisaligned),
        Some(Exception::StoreFault),  // 7, Not accurate, async
        Some(Exception::UserEnvCall),  // not available for Qingke V2
        None,
        None,
        Some(Exception::MachineEnvCall),
    ]
}

/// The table of core interrupt handlers as it lies in the vector table,
/// which the hardware walks when it vectors interrupts itself. The table
/// leaves the cause code 0 out: the entry at index `i` is for the cause code
/// `i + 1`.
pub fn core_interrupts() -> (table: [Option<CoreInterrupt>; 15])
    ensures
        forall|i: int|
            0 <= i < 15 ==> #[trigger] table@[i] == CoreInterrupt::of_code((i + 1) as u8),
{
    [
        // skip 0
        None,
        Some(CoreInterrupt::NonMaskableInt),  // 2
        Some(CoreInterrupt::Exception),  // 3
        None,
        Some(CoreInterrupt::MachineEnvCall),  // 5
        None,
        None,
        Some(CoreInterrupt::UserEnvCall),  // 8
        Some(CoreInterrupt::Breakpoint),  // 9
        None,
        None,
        Some(CoreInterrupt::SysTick),  // 12
        None,
        Some(CoreInterrupt::Software),  // 14
        None,
    ]
}

/// The table of core interrupt handlers as the dispatcher indexes it: the
/// entry at index `code` is for the cause code `code`, and the cause code 0
/// has an entry, which is empty.
pub fn core_interrupts_by_code() -> (table: [Option<CoreInterrupt>; 16])
    ensures
        forall|code: int|
            0 <= code < 16 ==> #[trigger] table@[code] == CoreInterrupt::of_code(code as u8),
{
    [
        None,
        None,
        Some(CoreInterrupt::NonMaskableInt),  // 2
        Some(CoreInterrupt::Exception),  // 3
        None,
        Some(CoreInterrupt::MachineEnvCall),  // 5
        None,
        None,
        Some(CoreInterrupt::UserEnvCall),  // 8
        Some(CoreInterrupt::Breakpoint),  // 9
        None,
        None,
        Some(CoreInterrupt::SysTick),  // 12
        None,
        Some(CoreInterrupt::Software),  // 14
        None,
    ]
}

} // verus!
