use vstd::prelude::*;

verus! {

/// The nine arithmetic and control flags of the machine.
#[derive(Debug, Clone, Copy, PartialEq, Eq)]
pub struct X86Flags {
    pub carry: bool,
    pub parity: bool,
    pub adjust: bool,
    pub zero: bool,
    pub sign: bool,
    pub trap: bool,
    pub interrupt: bool,
    pub direction: bool,
    pub overflow: bool,
}

/// The number of bits that are set among the low eight bits of `v`.
pub open spec fn low_byte_ones(v: int) -> int {
    v % 2 + v / 2 % 2 + v / 4 % 2 + v / 8 % 2 + v / 16 % 2 + v / 32 % 2 + v / 64 % 2 + v / 128 % 2
}

/// The parity flag of a result: set when the low byte holds an even number of set bits.
pub open spec fn even_parity(v: int) -> bool {
    low_byte_ones(v) % 2 == 0
}

/// The weight of a flag in the packed flag word: `weight` where it is set, else nothing.
#[verifier::opaque]
pub open spec fn flag_bit(set: bool, weight: int) -> int {
    if set {
        weight
    } else {
        0
    }
}

/// The packed flag word of `f`: each flag at its architectural bit, and bit 1, which is always set.
pub open spec fn packed_flags(f: X86Flags) -> int {
    2 + flag_bit(f.carry, 0x001) + flag_bit(f.parity, 0x004) + flag_bit(f.adjust, 0x010) + flag_bit(
        f.zero,
        0x040,
    ) + flag_bit(f.sign, 0x080) + flag_bit(f.trap, 0x100) + flag_bit(f.interrupt, 0x200) + flag_bit(
        f.direction,
        0x400,
    ) + flag_bit(f.overflow, 0x800)
}

/// The flags that the packed flag word `w` holds.
pub open spec fn unpacked_flags(w: int) -> X86Flags {
    X86Flags {
        carry: w % 2 == 1,
        parity: w / 0x004 % 2 == 1,
        adjust: w / 0x010 % 2 == 1,
        zero: w / 0x040 % 2 == 1,
        sign: w / 0x080 % 2 == 1,
        trap: w / 0x100 % 2 == 1,
        interrupt: w / 0x200 % 2 == 1,
        direction: w / 0x400 % 2 == 1,
        overflow: w / 0x800 % 2 == 1,
    }
}

/// Unpacking a packed flag word gives back the flags that were packed.
pub proof fn lemma_flags_round_trip(f: X86Flags)
    ensures
        unpacked_flags(packed_flags(f)) == f,
{
    reveal(flag_bit);
}

/// The weight of a flag as a machine integer.
fn flag_weight(set: bool, weight: u32) -> (r: u32)
    ensures
        r == flag_bit(set, weight as int),
        r <= weight,
{
    reveal(flag_bit);
    if set {
        weight
    } else {
        0
    }
}

impl Default for X86Flags {
    fn default() -> (r: X86Flags)
        ensures
            r == unpacked_flags(0),
    {
        X86Flags {
            carry: false,
            parity: false,
            adjust: false,
            zero: false,
            sign: false,
            trap: false,
            interrupt: false,
            direction: false,
            overflow: false,
        }
    }
}

impl X86Flags {
    /// Sets the parity flag from the low byte of `val`.
    pub fn calculate_parity(&mut self, val: u32)
        ensures
            *final(self) == (X86Flags { parity: even_parity(val as int), ..*old(self) }),
    {
        let ones: u32 = val % 2 + val / 2 % 2 + val / 4 % 2 + val / 8 % 2 + val / 16 % 2 + val / 32
            % 2 + val / 64 % 2 + val / 128 % 2;
        self.parity = ones % 2 == 0;
    }

    /// Sets the sign flag from the top bit of a byte.
    pub fn calculate_sign8(&mut self, val: u8)
        ensures
            *final(self) == (X86Flags { sign: val >= 0x80, ..*old(self) }),
    {
        self.sign = val >= 0x80;
    }

    /// Sets the sign flag from the top bit of a word.
    pub fn calculate_sign16(&mut self, val: u16)
        ensures
            *final(self) == (X86Flags { sign: val >= 0x8000, ..*old(self) }),
    {
        self.sign = val >= 0x8000;
    }

    /// Sets the sign flag from the top bit of a double word.
    pub fn calculate_sign32(&mut self, val: u32)
        ensures
            *final(self) == (X86Flags { sign: val >= 0x8000_0000, ..*old(self) }),
    {
        self.sign = val >= 0x8000_0000;
    }

    /// Sets the zero flag where `result` is 0.
    pub fn calculate_zero(&mut self, result: u32)
        ensures
            *final(self) == (X86Flags { zero: result == 0, ..*old(self) }),
    {
        self.zero = result == 0;
    }

    /// Packs the flags into the flag word.
    pub fn serialize_flag_storage(self) -> (r: u32)
        ensures
            r == packed_flags(self),
    {
        let carry: u32 = flag_weight(self.carry, 0x001);
        let parity: u32 = flag_weight(self.parity, 0x004);
        let adjust: u32 = flag_weight(self.adjust, 0x010);
        let zero: u32 = flag_weight(self.zero, 0x040);
        let sign: u32 = flag_weight(self.sign, 0x080);
        let trap: u32 = flag_weight(self.trap, 0x100);
        let interrupt: u32 = flag_weight(self.interrupt, 0x200);
        let direction: u32 = flag_weight(self.direction, 0x400);
        let overflow: u32 = flag_weight(self.overflow, 0x800);
        2 + carry + parity + adjust + zero + sign + trap + interrupt + direction + overflow
    }

    /// Takes every flag from the flag word.
    pub fn deserialize_flag_storage(&mut self, flag_store: u32)
        ensures
            *final(self) == unpacked_flags(flag_store as int),
    {
        self.carry = flag_store % 2 == 1;
        self.parity = flag_store / 0x004 % 2 == 1;
        self.adjust = flag_store / 0x010 % 2 == 1;
        self.zero = flag_store / 0x040 % 2 == 1;
        self.sign = flag_store / 0x080 % 2 == 1;
        self.trap = flag_store / 0x100 % 2 == 1;
        self.interrupt = flag_store / 0x200 % 2 == 1;
        self.direction = flag_store / 0x400 % 2 == 1;
        self.overflow = flag_store / 0x800 % 2 == 1;
    }
}

} // verus!
