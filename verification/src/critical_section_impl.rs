//! The critical section of a single hart: mutual exclusion against maskable
//! interrupts, by way of the global interrupt enable.
//!
//! Non-maskable interrupts and exceptions are not held off, and a second
//! hart is not excluded.

use crate::hart::Hart;
use crate::register::gintenr;
use vstd::prelude::*;

verus! {

/// The critical section implementation for a core with one hart.
pub struct SingleHartCriticalSection;

/// Clearing the global enable bit and setting it again gives back a word in
/// which it was set; clearing it changes nothing in a word in which it was
/// clear; and the bit is seen through the window of gintenr.
proof fn lemma_enable_bit(mstatus: usize)
    by (bit_vector)
    ensures
        ((mstatus & 0x88) & 0x8 != 0) == (mstatus & 0x8 != 0),
        mstatus & 0x8 != 0 ==> (mstatus & !0x8usize) | 0x8 == mstatus,
        mstatus & 0x8 == 0 ==> mstatus & !0x8usize == mstatus,
        (mstatus & !0x8usize) & 0x8 == 0,
        (mstatus | 0x8) & 0x8 != 0,
{
}

impl SingleHartCriticalSection {
    /// The hart inside a critical section entered from `hart`.
    pub open spec fn entered(hart: Hart) -> Hart {
        gintenr::disabled(hart)
    }

    /// The token that entering a critical section from `hart` hands out:
    /// whether interrupts were enabled.
    pub open spec fn token(hart: Hart) -> bool {
        hart.interrupts_enabled()
    }

    /// The hart after a critical section is left with the token `irq_state`.
    pub open spec fn left(hart: Hart, irq_state: bool) -> Hart {
        if irq_state {
            gintenr::enabled(hart)
        } else {
            hart
        }
    }

    /// Enters a critical section: reads and clears the global interrupt
    /// enable in one step and returns whether it was set.
    pub fn acquire(hart: &mut Hart) -> (irq_state: bool)
        ensures
            irq_state == Self::token(*old(hart)),
            *final(hart) == Self::entered(*old(hart)),
            !final(hart).interrupts_enabled(),
    {
        proof {
            lemma_enable_bit(hart.mstatus);
        }
        gintenr::is_enabled(gintenr::set_disable(hart))
    }

    /// Leaves a critical section: enables interrupts again only if they were
    /// enabled when the section was entered.
    pub fn release(hart: &mut Hart, irq_state: bool)
        ensures
            *final(hart) == Self::left(*old(hart), irq_state),
    {
        // Only re-enable interrupts if they were enabled before the critical section.
        if irq_state {
            gintenr::set_enable(hart);
        }
    }

    /// The states that a hart passes through in `depth` critical sections
    /// nested in one another, entered from `hart`: after each `acquire` and
    /// after each `release`, in the order in which they happen. Each release
    /// is given the token of its own acquire.
    pub open spec fn nested(hart: Hart, depth: nat) -> Seq<Hart>
        decreases depth,
    {
        if depth == 0 {
            Seq::empty()
        } else {
            let inside = Self::entered(hart);
            let inner = Self::nested(inside, (depth - 1) as nat);
            let innermost = if inner.len() == 0 {
                inside
            } else {
                inner.last()
            };
            seq![inside] + inner + seq![Self::left(innermost, Self::token(hart))]
        }
    }

    /// Entering a critical section and leaving it with the token that the
    /// entry returned puts the hart back as it was, whether interrupts were
    /// enabled or not.
    pub proof fn lemma_round_trip(hart: Hart)
        ensures
            Self::left(Self::entered(hart), Self::token(hart)) == hart,
            !Self::entered(hart).interrupts_enabled(),
    {
        lemma_enable_bit(hart.mstatus);
    }

    /// A critical section inside another changes nothing: entered with
    /// interrupts disabled, it returns the token `false`, leaves the hart as
    /// it is, and its release leaves interrupts disabled.
    pub proof fn lemma_inner_section_is_inert(hart: Hart)
        requires
            !hart.interrupts_enabled(),
        ensures
            Self::token(hart) == false,
            Self::entered(hart) == hart,
            Self::left(hart, Self::token(hart)) == hart,
    {
        lemma_enable_bit(hart.mstatus);
    }

    /// In critical sections nested to any depth, interrupts stay disabled
    /// from the first acquire up to the outermost release, and the outermost
    /// release puts the hart back as it was before the first acquire.
    pub proof fn lemma_nested_sections(hart: Hart, depth: nat)
        requires
            depth >= 1,
        ensures
            Self::nested(hart, depth).len() == 2 * depth,
            forall|i: int|
                0 <= i < 2 * depth - 1 ==> !(#[trigger] Self::nested(hart, depth)[i])
                    .interrupts_enabled(),
            Self::nested(hart, depth).last() == hart,
        decreases depth,
    {
        let inside = Self::entered(hart);
        let inner = Self::nested(inside, (depth - 1) as nat);
        Self::lemma_round_trip(hart);
        if depth == 1 {
            assert(inner.len() == 0);
        } else {
            Self::lemma_nested_sections(inside, (depth - 1) as nat);
            Self::lemma_inner_section_is_inert(inside);
            assert(inner.last() == inside);
            let all = Self::nested(hart, depth);
            assert forall|i: int| 0 <= i < 2 * depth - 1 implies !(#[trigger] all[i])
                .interrupts_enabled() by {
                if i == 0 {
                } else if i < 2 * depth - 2 {
                    assert(all[i] == inner[i - 1]);
                } else {
                    assert(all[i] == inner.last());
                }
            }
        }
    }
}

} // verus!
