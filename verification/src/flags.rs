//! The processor status register.

use vstd::prelude::*;

verus! {

/// The status register: eight named one-bit flags held in one byte.
///
/// ```text
/// 7 6 5 4 3 2 1 0
/// N V _ B D I Z C
/// ```
///
/// A flag is named by its mask, one of the constants of this type; a mask with
/// several bits set names all of them at once.
#[derive(Clone, Copy, Debug)]
pub struct CPUFlags {
    pub bits: u8,
}

impl CPUFlags {
    pub const CARRY: u8 = 0b0000_0001;

    pub const ZERO: u8 = 0b0000_0010;

    pub const INTERRUPT_DISABLE: u8 = 0b0000_0100;

    /// Decimal mode. Kept as a flag; arithmetic never consults it.
    pub const DECIMAL_MODE: u8 = 0b0000_1000;

    pub const BREAK: u8 = 0b0001_0000;

    pub const UNUSED: u8 = 0b0010_0000;

    pub const OVERFLOW: u8 = 0b0100_0000;

    pub const NEGATIVE: u8 = 0b1000_0000;

    /// `mask` names exactly one flag.
    pub open spec fn single(mask: u8) -> bool {
        ||| mask == Self::CARRY
        ||| mask == Self::ZERO
        ||| mask == Self::INTERRUPT_DISABLE
        ||| mask == Self::DECIMAL_MODE
        ||| mask == Self::BREAK
        ||| mask == Self::UNUSED
        ||| mask == Self::OVERFLOW
        ||| mask == Self::NEGATIVE
    }

    /// Every flag named by `mask` is set.
    pub open spec fn has(self, mask: u8) -> bool {
        self.bits & mask == mask
    }

    /// `self` with the flags of `mask` set.
    pub open spec fn with(self, mask: u8) -> CPUFlags {
        CPUFlags { bits: self.bits | mask }
    }

    /// `self` with the flags of `mask` cleared.
    pub open spec fn without(self, mask: u8) -> CPUFlags {
        CPUFlags { bits: self.bits & !mask }
    }

    /// `self` with the flags of `mask` set if `on` holds and cleared otherwise.
    pub open spec fn assign(self, mask: u8, on: bool) -> CPUFlags {
        if on {
            self.with(mask)
        } else {
            self.without(mask)
        }
    }

    /// The register that holds the byte `bits`. All eight bits name a flag, so
    /// none is dropped.
    pub fn from_bits_truncate(bits: u8) -> (f: CPUFlags)
        ensures
            f.bits == bits,
    {
        CPUFlags { bits }
    }

    /// The register as a byte.
    pub fn bits(&self) -> (b: u8)
        ensures
            b == self.bits,
    {
        self.bits
    }

    /// Tests whether every flag named by `mask` is set.
    pub fn contains(&self, mask: u8) -> (b: bool)
        ensures
            b == self.has(mask),
    {
        self.bits & mask == mask
    }

    /// Sets the flags named by `mask`.
    pub fn insert(&mut self, mask: u8)
        ensures
            *final(self) == old(self).with(mask),
    {
        self.bits = self.bits | mask;
    }

    /// Clears the flags named by `mask`.
    pub fn remove(&mut self, mask: u8)
        ensures
            *final(self) == old(self).without(mask),
    {
        self.bits = self.bits & !mask;
    }

    /// Sets the flags named by `mask` if `value` holds, and clears them
    /// otherwise.
    pub fn set(&mut self, mask: u8, value: bool)
        ensures
            *final(self) == old(self).assign(mask, value),
    {
        if value {
            self.insert(mask);
        } else {
            self.remove(mask);
        }
    }

    /// Setting or clearing one flag decides that flag and leaves every other
    /// flag as it was.
    pub proof fn lemma_assign(self, mask: u8, on: bool, other: u8)
        requires
            Self::single(mask),
            Self::single(other),
        ensures
            self.assign(mask, on).has(mask) == on,
            other != mask ==> self.assign(mask, on).has(other) == self.has(other),
    {
        let b: u8 = self.bits;
        assert((b | mask) & mask == mask) by (bit_vector);
        assert(mask != 0 ==> (b & !mask) & mask != mask) by (bit_vector);
        assert(other != mask ==> (b | mask) & other == b & other && (b & !mask) & other == b
            & other) by (bit_vector)
            requires
                mask == 1 || mask == 2 || mask == 4 || mask == 8 || mask == 16 || mask == 32
                    || mask == 64 || mask == 128,
                other == 1 || other == 2 || other == 4 || other == 8 || other == 16 || other
                    == 32 || other == 64 || other == 128,
        ;
    }
}

} // verus!
