//! The vector tables and the trap dispatcher.
//!
//! A vector table is an array of optional handlers of a fixed length. A
//! handler is whatever the caller uses to refer to one; the dispatcher hands
//! it back and calls nothing. Every index that comes from the cause
//! register is checked against the table's length before it is used.

use crate::hart::Hart;
use crate::pfic::{enter_handler, Pfic};
use crate::register::mcause;
use crate::register::mcause::{cause_code, cause_is_interrupt};
use vstd::prelude::*;

verus! {

/// The length of the table of exception handlers.
pub const EXCEPTIONS_LEN: usize = 12;

/// The length of the table of core interrupt handlers; it has no entry for
/// the cause code 0.
pub const CORE_INTERRUPTS_LEN: usize = 15;

/// The length of the table of external interrupt handlers.
pub const EXTERNAL_INTERRUPTS_LEN: usize = 256;

/// The table of exception handlers, indexed by the exception's cause code.
pub type Exceptions<H> = [Option<H>; 12];

/// The table of core interrupt handlers.
pub type CoreInterrupts<H> = [Option<H>; 15];

/// The table of external interrupt handlers.
pub type ExternalInterrupts<H> = [Option<H>; 256];

/// Where a trap goes.
#[derive(Debug, PartialEq, Eq)]
pub enum Target<H> {
    /// To the handler found in a vector table.
    Handler(H),
    /// To the fallback for exceptions, `ExceptionHandler`.
    ExceptionHandler,
    /// To the fallback for interrupts, `DefaultHandler`, which loops forever.
    DefaultHandler,
    /// Nowhere: the entry routine loops forever where it stands.
    Halt,
}

impl<H: Copy> Clone for Target<H> {
    fn clone(&self) -> (target: Self)
        ensures
            target == *self,
    {
        *self
    }
}

impl<H: Copy> Copy for Target<H> {

}

/// The entry of `table` for the cause code `code`: absent where `code` lies
/// beyond the table.
pub open spec fn slot<H>(table: Seq<Option<H>>, code: int) -> Option<H> {
    if 0 <= code < table.len() {
        table[code]
    } else {
        None
    }
}

/// Where an exception with the cause code `code` goes: to its entry in the
/// table, and to the fallback for exceptions where it has none.
pub open spec fn exception_target<H>(exceptions: Seq<Option<H>>, code: int) -> Target<H> {
    match slot(exceptions, code) {
        Some(handler) => Target::Handler(handler),
        None => Target::ExceptionHandler,
    }
}

/// Where an interrupt with the cause code `code` goes. A code within the
/// table of core interrupts is looked up there and nowhere else; a code
/// beyond it and within the table of external interrupts is looked up
/// there. An absent entry, and a code beyond both tables, give the default
/// handler.
pub open spec fn interrupt_target<H>(
    core: Seq<Option<H>>,
    external: Seq<Option<H>>,
    code: int,
) -> Target<H> {
    let found = if code < core.len() {
        slot(core, code)
    } else {
        slot(external, code)
    };
    match found {
        Some(handler) => Target::Handler(handler),
        None => Target::DefaultHandler,
    }
}

/// Where the trap with the cause register value `cause` goes when every
/// trap enters one routine.
pub open spec fn trap_target<H>(
    cause: usize,
    exceptions: Seq<Option<H>>,
    core: Seq<Option<H>>,
    external: Seq<Option<H>>,
) -> Target<H> {
    if cause_is_interrupt(cause) {
        interrupt_target(core, external, cause_code(cause) as int)
    } else {
        exception_target(exceptions, cause_code(cause) as int)
    }
}

/// Where the trap with the cause register value `cause` goes from the entry
/// that exceptions share when the hardware vectors interrupts itself: an
/// exception is looked up; anything else has no business there.
pub open spec fn shared_entry_target<H>(cause: usize, exceptions: Seq<Option<H>>) -> Target<H> {
    if cause_is_interrupt(cause) {
        Target::Halt
    } else {
        exception_target(exceptions, cause_code(cause) as int)
    }
}

/// The entry of `table` for the cause code `code`, after a check of `code`
/// against the table's length.
pub fn lookup<H: Copy, const N: usize>(table: &[Option<H>; N], code: usize) -> (entry: Option<H>)
    ensures
        entry == slot(table@, code as int),
{
    if code < N {
        table[code]
    } else {
        None
    }
}

/// Finds where an exception with the cause code `code` goes.
pub fn dispatch_exception<H: Copy, const N: usize>(exceptions: &[Option<H>; N], code: usize) -> (target:
    Target<H>)
    ensures
        target == exception_target(exceptions@, code as int),
        code < N && exceptions@[code as int] is Some ==> target == Target::Handler(
            exceptions@[code as int]->0,
        ),
        code < N && exceptions@[code as int] is None ==> target == Target::<H>::ExceptionHandler,
        code >= N ==> target == Target::<H>::ExceptionHandler,
{
    if code < N {
        let h = &exceptions[code];
        if let Some(handler) = h {
            Target::Handler(*handler)
        } else {
            Target::ExceptionHandler
        }
    } else {
        Target::ExceptionHandler
    }
}

/// Finds where an interrupt with the cause code `code` goes: the table of
/// core interrupts is consulted first, the table of external interrupts
/// for the codes beyond it.
pub fn dispatch_interrupt<H: Copy, const C: usize, const E: usize>(
    core: &[Option<H>; C],
    external: &[Option<H>; E],
    code: usize,
) -> (target: Target<H>)
    ensures
        target == interrupt_target(core@, external@, code as int),
        code < C ==> target == match core@[code as int] {
            Some(handler) => Target::Handler(handler),
            None => Target::DefaultHandler,
        },
        C <= code < E ==> target == match external@[code as int] {
            Some(handler) => Target::Handler(handler),
            None => Target::DefaultHandler,
        },
        code >= C && code >= E ==> target == Target::<H>::DefaultHandler,
{
    if code < C {
        let h = &core[code];
        if let Some(handler) = h {
            Target::Handler(*handler)
        } else {
            Target::DefaultHandler
        }
    } else if code < E {
        let h = &external[code];
        if let Some(handler) = h {
            Target::Handler(*handler)
        } else {
            Target::DefaultHandler
        }
    } else {
        Target::DefaultHandler
    }
}

/// The dispatcher for a core on which every trap enters one routine:
/// `cause` is the value of the cause register.
pub fn dispatch<H: Copy, const X: usize, const C: usize, const E: usize>(
    cause: usize,
    exceptions: &[Option<H>; X],
    core: &[Option<H>; C],
    external: &[Option<H>; E],
) -> (target: Target<H>)
    ensures
        target == trap_target(cause, exceptions@, core@, external@),
{
    let code = mcause::code(cause);

    if mcause::is_exception(cause) {
        dispatch_exception(exceptions, code)
    } else {
        dispatch_interrupt(core, external, code)
    }
}

/// The entry that exceptions share on a core that vectors interrupts in
/// hardware: `cause` is the value of the cause register. An exception goes
/// according to the table of exceptions; for anything else the routine
/// loops forever.
pub fn qingke_exception_handler<H: Copy, const X: usize>(
    cause: usize,
    exceptions: &[Option<H>; X],
) -> (target: Target<H>)
    ensures
        target == shared_entry_target(cause, exceptions@),
{
    // jump according to the exceptions table
    let code = mcause::code(cause);

    if mcause::is_exception(cause) {
        if code < X {
            let h = &exceptions[code];
            if let Some(handler) = h {
                Target::Handler(*handler)
            } else {
                Target::ExceptionHandler
            }
        } else {
            Target::ExceptionHandler
        }
    } else {
        Target::Halt
    }
}

/// For interrupts, the table of core interrupts comes first: a code within
/// it goes where that table says, whatever the table of external
/// interrupts holds.
pub proof fn lemma_core_interrupts_first<H>(
    core: Seq<Option<H>>,
    external: Seq<Option<H>>,
    other_external: Seq<Option<H>>,
    code: int,
)
    requires
        0 <= code < core.len(),
    ensures
        interrupt_target(core, external, code) == interrupt_target(core, other_external, code),
        interrupt_target(core, external, code) == match core[code] {
            Some(handler) => Target::Handler(handler),
            None => Target::DefaultHandler,
        },
{
}

/// Where the entry that a code is looked up in holds a handler, the default
/// handler is reached only by a code beyond both tables, which for tables of
/// the usual lengths is a code beyond the table of external interrupts.
pub proof fn lemma_default_handler_beyond_tables<H>(
    core: Seq<Option<H>>,
    external: Seq<Option<H>>,
    code: int,
)
    requires
        0 <= code,
        code < core.len() ==> core[code] is Some,
        core.len() <= code < external.len() ==> external[code] is Some,
    ensures
        interrupt_target(core, external, code) == Target::<H>::DefaultHandler <==> code
            >= core.len() && code >= external.len(),
        core.len() <= external.len() ==> (interrupt_target(core, external, code)
            == Target::<H>::DefaultHandler <==> code >= external.len()),
{
}

/// Why a handler was not put into a vector table.
#[derive(Copy, Clone, Debug, PartialEq, Eq, Structural)]
pub enum InstallError {
    /// Interrupts are enabled globally: the tables are filled before that
    /// and stay as they are from then on.
    Unmasked,
    /// The table has no entry for the cause code.
    OutOfRange,
}

/// The table of external interrupt handlers as it is at boot: every entry
/// absent.
pub fn external_interrupts<H: Copy>() -> (table: [Option<H>; 256])
    ensures
        forall|code: int| 0 <= code < 256 ==> #[trigger] table@[code] is None,
{
    [None;256]
}

/// Puts `handler` into `table` as the entry for the cause code `code`. A
/// table is filled while interrupts are still disabled globally; once they
/// are enabled, nothing is put into it any more.
pub fn install<H: Copy, const N: usize>(
    table: &mut [Option<H>; N],
    hart: &Hart,
    code: usize,
    handler: H,
) -> (installed: Result<(), InstallError>)
    ensures
        installed == if hart.interrupts_enabled() {
            Err::<(), InstallError>(InstallError::Unmasked)
        } else if code >= N {
            Err::<(), InstallError>(InstallError::OutOfRange)
        } else {
            Ok::<(), InstallError>(())
        },
        installed is Ok ==> final(table)@ == old(table)@.update(code as int, Some(handler)),
        installed is Err ==> final(table)@ == old(table)@,
{
    if hart.global_interrupt_enabled() {
        Err(InstallError::Unmasked)
    } else if code >= N {
        Err(InstallError::OutOfRange)
    } else {
        table[code] = Some(handler);
        Ok(())
    }
}

/// What happens when the line `irq` asks for the hart's attention: the
/// interrupt is taken only where interrupts are enabled globally and the
/// line is enabled and pending. The line then stops being pending and
/// becomes active. Returns whether the interrupt was taken; where it was
/// not, nothing changes.
pub fn take_interrupt(hart: &Hart, pfic: &mut Pfic, irq: u8) -> (taken: bool)
    ensures
        taken == (hart.interrupts_enabled() && old(pfic)@.enabled.contains(irq) && old(
            pfic,
        )@.pending.contains(irq)),
        taken ==> final(pfic)@ == old(pfic)@.entered(irq),
        !taken ==> final(pfic)@ == old(pfic)@,
{
    if hart.global_interrupt_enabled() {
        enter_handler(pfic, irq)
    } else {
        false
    }
}

} // verus!
