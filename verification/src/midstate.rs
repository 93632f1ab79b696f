use crate::error::ErrorKind;
use vstd::arithmetic::power2::{lemma2_to64, pow2};
use vstd::prelude::*;

verus! {

/// Number of midstates as the control register of the IP core encodes it.
#[derive(Debug, Clone, Copy, PartialEq, Eq, Structural)]
pub enum MidstateCountReg {
    One,
    Two,
    Four,
}

/// Number of midstates the FPGA sends to the chips with each work.
///
/// Everyone who takes a hardware id apart needs it, in one of three forms:
///  * a bitmask that cuts the midstate index out of a hardware id,
///  * the base-2 logarithm of the number of midstates,
///  * the FPGA configuration value.
///
/// A `MidstateCount` is always one the hardware supports: no other can be
/// constructed.
#[derive(Debug, Clone, Copy, PartialEq, Eq)]
pub struct MidstateCount {
    /// base-2 logarithm of the number of midstates
    log2: usize,
}

impl View for MidstateCount {
    type V = nat;

    /// The number of midstates: 1, 2 or 4.
    closed spec fn view(&self) -> nat {
        if self.log2 == 0 {
            1
        } else if self.log2 == 1 {
            2
        } else {
            4
        }
    }
}

impl MidstateCount {
    #[verifier::type_invariant]
    closed spec fn inv(self) -> bool {
        self.log2 <= 2
    }

    /// Whether the hardware supports `count` midstates per work.
    pub open spec fn supported(count: int) -> bool {
        count == 1 || count == 2 || count == 4
    }

    /// Base-2 logarithm of the number of midstates.
    pub open spec fn spec_bits(self) -> nat {
        if self@ == 1 {
            0
        } else if self@ == 2 {
            1
        } else {
            2
        }
    }

    /// The mask that leaves the midstate index of a hardware id.
    pub open spec fn spec_mask(self) -> nat {
        (self@ - 1) as nat
    }

    /// The register value that stands for this number of midstates.
    pub open spec fn spec_reg(self) -> MidstateCountReg {
        if self@ == 1 {
            MidstateCountReg::One
        } else if self@ == 2 {
            MidstateCountReg::Two
        } else {
            MidstateCountReg::Four
        }
    }

    /// The count is one of the three the hardware knows, and it is two to
    /// the power of its bit width.
    pub proof fn lemma_supported(self)
        ensures
            Self::supported(self@ as int),
            self@ == pow2(self.spec_bits()),
            self.spec_mask() + 1 == self@,
    {
        lemma2_to64();
    }

    /// Accepts 1, 2 and 4 and rejects every other count.
    pub fn new(count: usize) -> (r: Result<Self, ErrorKind>)
        ensures
            Self::supported(count as int) ==> r is Ok && r->Ok_0@ == count,
            !Self::supported(count as int) ==> r == Err::<Self, ErrorKind>(
                ErrorKind::UnsupportedMidstateCount(count),
            ),
    {
        match count {
            1 => Ok(Self { log2: 0 }),
            2 => Ok(Self { log2: 1 }),
            4 => Ok(Self { log2: 2 }),
            _ => Err(ErrorKind::UnsupportedMidstateCount(count)),
        }
    }

    /// Midstate count encoded for the FPGA.
    pub fn to_reg(&self) -> (r: MidstateCountReg)
        ensures
            r == self.spec_reg(),
    {
        proof {
            use_type_invariant(self);
        }
        if self.log2 == 0 {
            MidstateCountReg::One
        } else if self.log2 == 1 {
            MidstateCountReg::Two
        } else {
            MidstateCountReg::Four
        }
    }

    /// Midstate count.
    #[inline]
    pub fn to_count(&self) -> (r: usize)
        ensures
            r == self@,
    {
        proof {
            use_type_invariant(self);
            assert(1usize << 0usize == 1usize) by (bit_vector);
            assert(1usize << 1usize == 2usize) by (bit_vector);
            assert(1usize << 2usize == 4usize) by (bit_vector);
        }
        1 << self.log2
    }

    /// Base-2 logarithm of the midstate count.
    #[inline]
    pub fn to_bits(&self) -> (r: usize)
        ensures
            r == self.spec_bits(),
            pow2(r as nat) == self@,
    {
        proof {
            use_type_invariant(self);
            lemma2_to64();
        }
        self.log2
    }

    /// Midstate count mask, which cuts the midstate index out of a
    /// hardware id.
    #[inline]
    pub fn to_mask(&self) -> (r: usize)
        ensures
            r == self@ - 1,
            r == self.spec_mask(),
    {
        proof {
            use_type_invariant(self);
            assert(1usize << 0usize == 1usize) by (bit_vector);
            assert(1usize << 1usize == 2usize) by (bit_vector);
            assert(1usize << 2usize == 4usize) by (bit_vector);
        }
        (1 << self.log2) - 1
    }

    /// The midstate index that a hardware id carries in its low bits.
    #[inline]
    pub fn midstate_idx(&self, hardware_id: u32) -> (r: usize)
        ensures
            r == midstate_idx_of(hardware_id, *self),
            r < self@,
    {
        let mask = self.to_mask();
        let id = hardware_id as usize;
        proof {
            assert(id & 0 == id % 1) by (bit_vector);
            assert(id & 1 == id % 2) by (bit_vector);
            assert(id & 3 == id % 4) by (bit_vector);
        }
        id & mask
    }

    /// The work id that a hardware id carries above the midstate index.
    #[inline]
    pub fn work_id(&self, hardware_id: u32) -> (r: usize)
        ensures
            r == work_id_of(hardware_id, *self),
    {
        let bits = self.to_bits();
        let id = hardware_id as usize;
        proof {
            assert(id >> 0 == id / 1) by (bit_vector);
            assert(id >> 1 == id / 2) by (bit_vector);
            assert(id >> 2 == id / 4) by (bit_vector);
        }
        id >> bits
    }
}

/// The midstate index of a hardware id: what is left of it when the work
/// id is taken away.
pub open spec fn midstate_idx_of(hardware_id: u32, midstate_count: MidstateCount) -> int {
    hardware_id as int % midstate_count@ as int
}

/// The work id of a hardware id: the id without its midstate index field.
pub open spec fn work_id_of(hardware_id: u32, midstate_count: MidstateCount) -> int {
    hardware_id as int / midstate_count@ as int
}

/// A hardware id is its work id, shifted up by the width of the midstate
/// index, with the midstate index below it; and the index is one that the
/// hardware can tell apart.
pub proof fn lemma_hardware_id_split(hardware_id: u32, midstate_count: MidstateCount)
    ensures
        hardware_id == work_id_of(hardware_id, midstate_count) * midstate_count@
            + midstate_idx_of(hardware_id, midstate_count),
        0 <= midstate_idx_of(hardware_id, midstate_count) < midstate_count@,
        0 <= work_id_of(hardware_id, midstate_count) <= hardware_id,
{
    midstate_count.lemma_supported();
}

} // verus!
