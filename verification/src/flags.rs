//! Condition-code flags and their packing into the status register.
//!
//! Four independent booleans (zero, negative, carry, overflow) occupy the
//! four lowest bits of the status register: Z in bit 0, N in bit 1, C in
//! bit 2, V in bit 3.

use vstd::prelude::*;

verus! {

/// The four condition-code flags of the status register.
#[derive(Debug, Clone, Copy, PartialEq, Eq, Structural)]
pub struct StatusFlags {
    pub zero: bool,
    pub negative: bool,
    pub carry: bool,
    pub overflow: bool,
}

/// The status-register word that encodes a flag set.
pub open spec fn spec_flag_bits(f: StatusFlags) -> u16 {
    ((if f.zero {
        1int
    } else {
        0int
    }) + (if f.negative {
        2int
    } else {
        0int
    }) + (if f.carry {
        4int
    } else {
        0int
    }) + (if f.overflow {
        8int
    } else {
        0int
    })) as u16
}

/// The flag set that a status-register word encodes; bits above 3 are ignored.
pub open spec fn spec_flags_from(sr: u16) -> StatusFlags {
    StatusFlags {
        zero: sr & 1 != 0,
        negative: sr & 2 != 0,
        carry: sr & 4 != 0,
        overflow: sr & 8 != 0,
    }
}

impl StatusFlags {
    /// A flag set with every flag clear.
    pub fn new() -> (r: StatusFlags)
        ensures
            r == (StatusFlags { zero: false, negative: false, carry: false, overflow: false }),
    {
        StatusFlags { zero: false, negative: false, carry: false, overflow: false }
    }

    /// Pack the flags into a status-register word.
    pub fn to_u16(&self) -> (sr: u16)
        ensures
            sr == spec_flag_bits(*self),
    {
        let mut sr: u16 = 0;
        if self.zero {
            sr = sr + 1;
        }
        if self.negative {
            sr = sr + 2;
        }
        if self.carry {
            sr = sr + 4;
        }
        if self.overflow {
            sr = sr + 8;
        }
        sr
    }

    /// Unpack a status-register word into its flag set.
    pub fn from_u16(sr: u16) -> (r: StatusFlags)
        ensures
            r == spec_flags_from(sr),
    {
        StatusFlags {
            zero: (sr & 1) != 0,
            negative: (sr & 2) != 0,
            carry: (sr & 4) != 0,
            overflow: (sr & 8) != 0,
        }
    }
}

/// Round trip: unpacking the packed encoding of any flag set reproduces
/// that flag set exactly.
pub proof fn lemma_flags_round_trip(f: StatusFlags)
    ensures
        spec_flags_from(spec_flag_bits(f)) == f,
{
    let z = f.zero;
    let n = f.negative;
    let c = f.carry;
    let v = f.overflow;
    let b = spec_flag_bits(f);
    assert({
        let w = ((if z {
            1int
        } else {
            0int
        }) + (if n {
            2int
        } else {
            0int
        }) + (if c {
            4int
        } else {
            0int
        }) + (if v {
            8int
        } else {
            0int
        })) as u16;
        (w & 1 != 0) == z && (w & 2 != 0) == n && (w & 4 != 0) == c && (w & 8 != 0) == v
    }) by (bit_vector);
}

} // verus!
