use vstd::prelude::*;

verus! {

/// Single-bit access to an unsigned integer. Bit 0 is the least significant.
pub trait BitManipulation: Sized {
    /// The number of bits of the type.
    spec fn width() -> nat;

    /// Whether the bit at `index` is set.
    spec fn bit(&self, index: u8) -> bool;

    /// Gets the bit at `index`.
    fn get_bit(&self, index: u8) -> (r: bool)
        requires
            index < Self::width(),
        ensures
            r == self.bit(index),
    ;

    /// Sets the bit at `index` to `value` and leaves every other bit as it is.
    fn set_bit(&mut self, index: u8, value: bool)
        requires
            index < Self::width(),
        ensures
            final(self).bit(index) == value,
            forall|j: u8| j < Self::width() && j != index ==> final(self).bit(j) == old(self).bit(j),
    ;

    /// Gets the bit at `index`, counted from the most significant bit.
    fn get_bit_big_endian(&self, index: u8) -> (r: bool)
        requires
            index < Self::width(),
        ensures
            r == self.bit((Self::width() - 1 - index) as u8),
    ;
}

impl BitManipulation for u32 {
    open spec fn width() -> nat {
        32
    }

    open spec fn bit(&self, index: u8) -> bool {
        (*self >> index) & 1 == 1
    }

    fn get_bit(&self, index: u8) -> (r: bool) {
        (*self >> index) & 1 == 1
    }

    fn get_bit_big_endian(&self, index: u8) -> (r: bool) {
        (*self >> (31 - index)) & 1 == 1
    }

    fn set_bit(&mut self, index: u8, value: bool) {
        let x: u32 = *self;
        if value {
            *self = x | (1 << index);
        } else {
            *self = x & (0xFFFFFFFF ^ (1 << index));
        }
        assert forall|j: u8| j < 32 implies #[trigger] self.bit(j) == (if j == index {
            value
        } else {
            x.bit(j)
        }) by {
            assert(((x | (1u32 << index)) >> j) & 1 == (if j == index {
                1u32
            } else {
                (x >> j) & 1
            }) && ((x & (0xFFFFFFFFu32 ^ (1u32 << index))) >> j) & 1 == (if j == index {
                0u32
            } else {
                (x >> j) & 1
            })) by (bit_vector)
                requires
                    j < 32,
                    index < 32,
            ;
        }
    }
}

impl BitManipulation for u64 {
    open spec fn width() -> nat {
        64
    }

    open spec fn bit(&self, index: u8) -> bool {
        (*self >> index) & 1 == 1
    }

    fn get_bit(&self, index: u8) -> (r: bool) {
        (*self >> index) & 1 == 1
    }

    fn get_bit_big_endian(&self, index: u8) -> (r: bool) {
        (*self >> (63 - index)) & 1 == 1
    }

    fn set_bit(&mut self, index: u8, value: bool) {
        let x: u64 = *self;
        if value {
            *self = x | (1 << index);
        } else {
            *self = x & (0xFFFFFFFFFFFFFFFF ^ (1 << index));
        }
        assert forall|j: u8| j < 64 implies #[trigger] self.bit(j) == (if j == index {
            value
        } else {
            x.bit(j)
        }) by {
            assert(((x | (1u64 << index)) >> j) & 1 == (if j == index {
                1u64
            } else {
                (x >> j) & 1
            }) && ((x & (0xFFFFFFFFFFFFFFFFu64 ^ (1u64 << index))) >> j) & 1 == (if j == index {
                0u64
            } else {
                (x >> j) & 1
            })) by (bit_vector)
                requires
                    j < 64,
                    index < 64,
            ;
        }
    }
}

impl BitManipulation for u16 {
    open spec fn width() -> nat {
        16
    }

    open spec fn bit(&self, index: u8) -> bool {
        (*self >> index) & 1 == 1
    }

    fn get_bit(&self, index: u8) -> (r: bool) {
        (*self >> index) & 1 == 1
    }

    fn get_bit_big_endian(&self, index: u8) -> (r: bool) {
        (*self >> (15 - index)) & 1 == 1
    }

    fn set_bit(&mut self, index: u8, value: bool) {
        let x: u16 = *self;
        if value {
            *self = x | (1 << index);
        } else {
            *self = x & (0xFFFF ^ (1 << index));
        }
        assert forall|j: u8| j < 16 implies #[trigger] self.bit(j) == (if j == index {
            value
        } else {
            x.bit(j)
        }) by {
            assert(((x | (1u16 << index)) >> j) & 1 == (if j == index {
                1u16
            } else {
                (x >> j) & 1
            }) && ((x & (0xFFFFu16 ^ (1u16 << index))) >> j) & 1 == (if j == index {
                0u16
            } else {
                (x >> j) & 1
            })) by (bit_vector)
                requires
                    j < 16,
                    index < 16,
            ;
        }
    }
}

impl BitManipulation for u8 {
    open spec fn width() -> nat {
        8
    }

    open spec fn bit(&self, index: u8) -> bool {
        (*self >> index) & 1 == 1
    }

    fn get_bit(&self, index: u8) -> (r: bool) {
        (*self >> index) & 1 == 1
    }

    fn get_bit_big_endian(&self, index: u8) -> (r: bool) {
        (*self >> (7 - index)) & 1 == 1
    }

    fn set_bit(&mut self, index: u8, value: bool) {
        let x: u8 = *self;
        if value {
            *self = x | (1 << index);
        } else {
            *self = x & (0xFF ^ (1 << index));
        }
        assert forall|j: u8| j < 8 implies #[trigger] self.bit(j) == (if j == index {
            value
        } else {
            x.bit(j)
        }) by {
            assert(((x | (1u8 << index)) >> j) & 1 == (if j == index {
                1u8
            } else {
                (x >> j) & 1
            }) && ((x & (0xFFu8 ^ (1u8 << index))) >> j) & 1 == (if j == index {
                0u8
            } else {
                (x >> j) & 1
            })) by (bit_vector)
                requires
                    j < 8,
                    index < 8,
            ;
        }
    }
}

} // verus!
