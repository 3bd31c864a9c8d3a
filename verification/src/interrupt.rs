//! Interrupt priorities.

use vstd::prelude::*;
use vstd::std_specs::convert::FromSpecImpl;

verus! {

/// The bits of a line's priority byte that hold the priority.
pub const PRIORITY_MASK: u8 = 0xf0;

/// The priority of an interrupt line: the high nibble of the line's priority
/// byte. The variants are declared in the order of their bytes.
#[derive(Debug, Copy, Clone, Eq, PartialEq, Ord, PartialOrd, Structural)]
#[allow(missing_docs)]
pub enum Priority {
    P0,
    P1,
    P2,
    P3,
    P4,
    P5,
    P6,
    P7,
    P8,
    P9,
    P10,
    P11,
    P12,
    P13,
    P14,
    P15,
}

impl Priority {
    /// The priority byte of this priority: the level in the high nibble,
    /// the low nibble zero.
    pub open spec fn byte(self) -> u8 {
        match self {
            Priority::P0 => 0x00,
            Priority::P1 => 0x10,
            Priority::P2 => 0x20,
            Priority::P3 => 0x30,
            Priority::P4 => 0x40,
            Priority::P5 => 0x50,
            Priority::P6 => 0x60,
            Priority::P7 => 0x70,
            Priority::P8 => 0x80,
            Priority::P9 => 0x90,
            Priority::P10 => 0xa0,
            Priority::P11 => 0xb0,
            Priority::P12 => 0xc0,
            Priority::P13 => 0xd0,
            Priority::P14 => 0xe0,
            Priority::P15 => 0xf0,
        }
    }

    /// The priority that a priority byte holds: its low nibble is ignored.
    pub open spec fn of_byte(byte: u8) -> Priority {
        let high = byte & PRIORITY_MASK;
        if high == 0x00 {
            Priority::P0
        } else if high == 0x10 {
            Priority::P1
        } else if high == 0x20 {
            Priority::P2
        } else if high == 0x30 {
            Priority::P3
        } else if high == 0x40 {
            Priority::P4
        } else if high == 0x50 {
            Priority::P5
        } else if high == 0x60 {
            Priority::P6
        } else if high == 0x70 {
            Priority::P7
        } else if high == 0x80 {
            Priority::P8
        } else if high == 0x90 {
            Priority::P9
        } else if high == 0xa0 {
            Priority::P10
        } else if high == 0xb0 {
            Priority::P11
        } else if high == 0xc0 {
            Priority::P12
        } else if high == 0xd0 {
            Priority::P13
        } else if high == 0xe0 {
            Priority::P14
        } else {
            Priority::P15
        }
    }
}

impl From<u8> for Priority {
    fn from(priority: u8) -> (p: Priority) {
        let high = priority & PRIORITY_MASK;
        if high == 0x00 {
            Priority::P0
        } else if high == 0x10 {
            Priority::P1
        } else if high == 0x20 {
            Priority::P2
        } else if high == 0x30 {
            Priority::P3
        } else if high == 0x40 {
            Priority::P4
        } else if high == 0x50 {
            Priority::P5
        } else if high == 0x60 {
            Priority::P6
        } else if high == 0x70 {
            Priority::P7
        } else if high == 0x80 {
            Priority::P8
        } else if high == 0x90 {
            Priority::P9
        } else if high == 0xa0 {
            Priority::P10
        } else if high == 0xb0 {
            Priority::P11
        } else if high == 0xc0 {
            Priority::P12
        } else if high == 0xd0 {
            Priority::P13
        } else if high == 0xe0 {
            Priority::P14
        } else {
            Priority::P15
        }
    }
}

impl FromSpecImpl<u8> for Priority {
    open spec fn obeys_from_spec() -> bool {
        true
    }

    open spec fn from_spec(priority: u8) -> Priority {
        Priority::of_byte(priority)
    }
}

impl From<Priority> for u8 {
    fn from(p: Priority) -> (byte: u8) {
        match p {
            Priority::P0 => 0x00,
            Priority::P1 => 0x10,
            Priority::P2 => 0x20,
            Priority::P3 => 0x30,
            Priority::P4 => 0x40,
            Priority::P5 => 0x50,
            Priority::P6 => 0x60,
            Priority::P7 => 0x70,
            Priority::P8 => 0x80,
            Priority::P9 => 0x90,
            Priority::P10 => 0xa0,
            Priority::P11 => 0xb0,
            Priority::P12 => 0xc0,
            Priority::P13 => 0xd0,
            Priority::P14 => 0xe0,
            Priority::P15 => 0xf0,
        }
    }
}

impl FromSpecImpl<Priority> for u8 {
    open spec fn obeys_from_spec() -> bool {
        true
    }

    open spec fn from_spec(p: Priority) -> u8 {
        p.byte()
    }
}

/// The byte of the priority that a byte holds is that byte with its low
/// nibble cleared.
pub proof fn lemma_priority_keeps_high_nibble(byte: u8)
    ensures
        Priority::of_byte(byte).byte() == byte & PRIORITY_MASK,
{
    let high = byte & PRIORITY_MASK;
    assert(high == 0x00 || high == 0x10 || high == 0x20 || high == 0x30 || high == 0x40 || high
        == 0x50 || high == 0x60 || high == 0x70 || high == 0x80 || high == 0x90 || high == 0xa0
        || high == 0xb0 || high == 0xc0 || high == 0xd0 || high == 0xe0 || high == 0xf0)
        by (bit_vector)
        requires
            high == byte & 0xf0,
    ;
}

/// A priority is read back from its own byte.
pub proof fn lemma_priority_round_trip(p: Priority)
    ensures
        Priority::of_byte(p.byte()) == p,
        p.byte() & PRIORITY_MASK == p.byte(),
{
    let b = p.byte();
    assert(b & 0xf0 == b) by (bit_vector)
        requires
            b == 0x00 || b == 0x10 || b == 0x20 || b == 0x30 || b == 0x40 || b == 0x50 || b
                == 0x60 || b == 0x70 || b == 0x80 || b == 0x90 || b == 0xa0 || b == 0xb0 || b
                == 0xc0 || b == 0xd0 || b == 0xe0 || b == 0xf0,
    ;
}

/// Two bytes hold the same priority exactly when their high nibbles agree.
pub proof fn lemma_same_priority_same_nibble(a: u8, b: u8)
    ensures
        Priority::of_byte(a) == Priority::of_byte(b) <==> a & PRIORITY_MASK == b & PRIORITY_MASK,
{
    lemma_priority_keeps_high_nibble(a);
    lemma_priority_keeps_high_nibble(b);
}

} // verus!
