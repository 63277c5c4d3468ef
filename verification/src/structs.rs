use vstd::prelude::*;
use crate::vm::VMError;

verus! {

/// The number of arguments an instruction can have.
pub const MAX_ARGS: usize = 3;

/// The width of a value.
#[derive(PartialEq, Eq, Copy, Clone, Debug)]
pub enum ValueSize {
    /// No value; resolves to 0 or to an error depending on context
    Zero,
    /// One byte
    Byte,
    /// Two bytes
    Word,
    /// Four bytes
    Dword,
    /// Eight bytes
    Qword,
}

impl ValueSize {
    /// The number of bytes a value of this width takes in memory.
    pub open spec fn bytes(self) -> nat {
        match self {
            ValueSize::Zero => 0,
            ValueSize::Byte => 1,
            ValueSize::Word => 2,
            ValueSize::Dword => 4,
            ValueSize::Qword => 8,
        }
    }

    /// Two to the power of the width in bits: the number of values of this width.
    pub open spec fn modulus(self) -> int {
        match self {
            ValueSize::Zero => 1,
            ValueSize::Byte => 0x100,
            ValueSize::Word => 0x1_0000,
            ValueSize::Dword => 0x1_0000_0000,
            ValueSize::Qword => 0x1_0000_0000_0000_0000,
        }
    }

    /// Whether this is one of the three widths instructions operate on.
    pub open spec fn is_operand(self) -> bool {
        self == ValueSize::Byte || self == ValueSize::Word || self == ValueSize::Dword
    }
}

/// A value together with its width.
#[derive(PartialEq, Eq, Copy, Clone, Debug)]
pub enum SizedValue {
    /// No value present; resolves to 0 or to an error depending on context
    Empty,
    /// A byte
    Byte(u8),
    /// A word of two bytes
    Word(u16),
    /// A double word of four bytes
    Dword(u32),
    /// A quadruple word of eight bytes
    Qword(u64),
}

impl SizedValue {
    /// The width of the value.
    pub open spec fn size(self) -> ValueSize {
        match self {
            SizedValue::Empty => ValueSize::Zero,
            SizedValue::Byte(_) => ValueSize::Byte,
            SizedValue::Word(_) => ValueSize::Word,
            SizedValue::Dword(_) => ValueSize::Dword,
            SizedValue::Qword(_) => ValueSize::Qword,
        }
    }

    /// The value read as an unsigned number; `Empty` reads as 0.
    pub open spec fn value(self) -> int {
        match self {
            SizedValue::Empty => 0,
            SizedValue::Byte(v) => v as int,
            SizedValue::Word(v) => v as int,
            SizedValue::Dword(v) => v as int,
            SizedValue::Qword(v) => v as int,
        }
    }

    /// The value read as a two's complement number of its own width.
    pub open spec fn signed(self) -> int {
        if 2 * self.value() >= self.size().modulus() {
            self.value() - self.size().modulus()
        } else {
            self.value()
        }
    }

    /// The value of width `s` that holds the number `v`.
    pub open spec fn of(s: ValueSize, v: int) -> SizedValue {
        match s {
            ValueSize::Zero => SizedValue::Empty,
            ValueSize::Byte => SizedValue::Byte(v as u8),
            ValueSize::Word => SizedValue::Word(v as u16),
            ValueSize::Dword => SizedValue::Dword(v as u32),
            ValueSize::Qword => SizedValue::Qword(v as u64),
        }
    }

    /// Zero extension to width `s`: the same number, where the value is not wider than `s`.
    pub open spec fn spec_zx(self, s: ValueSize) -> Result<int, VMError> {
        if self.size().bytes() <= s.bytes() {
            Ok(self.value())
        } else {
            Err(VMError::TooBigSizeExpectation)
        }
    }

    /// Sign extension to width `s`: the same two's complement number, where
    /// the value is not wider than `s`.
    pub open spec fn spec_sx(self, s: ValueSize) -> Result<int, VMError> {
        if self.size().bytes() <= s.bytes() {
            Ok(self.signed() % s.modulus())
        } else {
            Err(VMError::TooBigSizeExpectation)
        }
    }

    /// Truncation to width `s`: the low bits of the number.
    pub open spec fn spec_trunc(self, s: ValueSize) -> int {
        self.value() % s.modulus()
    }

    /// The outcome of `convert_size_zx`: the value extended with zeros to
    /// width `s`. It fails only where `s` is no width or narrower than the value.
    pub open spec fn spec_convert_zx(self, s: ValueSize) -> Result<SizedValue, VMError> {
        match s {
            ValueSize::Zero => Err(VMError::WrongSizeExpectation),
            _ => match self.spec_zx(s) {
                Ok(v) => Ok(SizedValue::of(s, v)),
                Err(e) => Err(e),
            },
        }
    }

    /// The outcome of `convert_size_sx`: the value extended with its sign to
    /// width `s`. It fails only where `s` is no width or narrower than the value.
    pub open spec fn spec_convert_sx(self, s: ValueSize) -> Result<SizedValue, VMError> {
        match s {
            ValueSize::Zero => Err(VMError::WrongSizeExpectation),
            _ => match self.spec_sx(s) {
                Ok(v) => Ok(SizedValue::of(s, v)),
                Err(e) => Err(e),
            },
        }
    }

    /// The value, where it is exactly a quadruple word.
    pub fn u64_exact(&self) -> (r: Result<u64, VMError>)
        ensures
            r == match *self {
                SizedValue::Qword(v) => Ok::<u64, VMError>(v),
                _ => Err(VMError::WrongSizeExpectation),
            },
    {
        match self {
            SizedValue::Qword(v) => Ok(*v),
            _ => Err(VMError::WrongSizeExpectation),
        }
    }

    /// The value, where it is exactly a double word.
    pub fn u32_exact(&self) -> (r: Result<u32, VMError>)
        ensures
            r == match *self {
                SizedValue::Dword(v) => Ok::<u32, VMError>(v),
                _ => Err(VMError::WrongSizeExpectation),
            },
    {
        match self {
            SizedValue::Dword(v) => Ok(*v),
            _ => Err(VMError::WrongSizeExpectation),
        }
    }

    /// The value, where it is exactly a word.
    pub fn u16_exact(&self) -> (r: Result<u16, VMError>)
        ensures
            r == match *self {
                SizedValue::Word(v) => Ok::<u16, VMError>(v),
                _ => Err(VMError::WrongSizeExpectation),
            },
    {
        match self {
            SizedValue::Word(v) => Ok(*v),
            _ => Err(VMError::WrongSizeExpectation),
        }
    }

    /// The value, where it is exactly a byte.
    pub fn u8_exact(&self) -> (r: Result<u8, VMError>)
        ensures
            r == match *self {
                SizedValue::Byte(v) => Ok::<u8, VMError>(v),
                _ => Err(VMError::WrongSizeExpectation),
            },
    {
        match self {
            SizedValue::Byte(v) => Ok(*v),
            _ => Err(VMError::WrongSizeExpectation),
        }
    }

    /// The value zero-extended to 64 bits, which never fails.
    pub fn u64_zx(&self) -> (r: Result<u64, VMError>)
        ensures
            match self.spec_zx(ValueSize::Qword) {
                Ok(v) => r == Ok::<u64, VMError>(v as u64) && r.unwrap() == v,
                Err(e) => r == Err::<u64, VMError>(e),
            },
    {
        match self {
            SizedValue::Qword(v) => Ok(*v),
            SizedValue::Dword(v) => Ok(*v as u64),
            SizedValue::Word(v) => Ok(*v as u64),
            SizedValue::Byte(v) => Ok(*v as u64),
            SizedValue::Empty => Ok(0),
        }
    }

    /// The value sign-extended to 64 bits, which never fails.
    pub fn u64_sx(&self) -> (r: Result<u64, VMError>)
        ensures
            match self.spec_sx(ValueSize::Qword) {
                Ok(v) => r == Ok::<u64, VMError>(v as u64) && r.unwrap() == v,
                Err(e) => r == Err::<u64, VMError>(e),
            },
    {
        match self {
            SizedValue::Qword(v) => Ok(*v),
            SizedValue::Dword(v) => if *v < 0x8000_0000 {
                Ok(*v as u64)
            } else {
                Ok(*v as u64 + 0xFFFF_FFFF_0000_0000)
            },
            SizedValue::Word(v) => if *v < 0x8000 {
                Ok(*v as u64)
            } else {
                Ok(*v as u64 + 0xFFFF_FFFF_FFFF_0000)
            },
            SizedValue::Byte(v) => if *v < 0x80 {
                Ok(*v as u64)
            } else {
                Ok(*v as u64 + 0xFFFF_FFFF_FFFF_FF00)
            },
            SizedValue::Empty => Ok(0),
        }
    }

    /// The value as a byte, extended with zeros or with its sign, which is
    /// the same for a byte; fails on a wider value.
    pub fn u8_zx(&self) -> (r: Result<u8, VMError>)
        ensures
            match self.spec_zx(ValueSize::Byte) {
                Ok(v) => r == Ok::<u8, VMError>(v as u8) && r.unwrap() == v,
                Err(e) => r == Err::<u8, VMError>(e),
            },
            match self.spec_sx(ValueSize::Byte) {
                Ok(v) => r == Ok::<u8, VMError>(v as u8) && r.unwrap() == v,
                Err(e) => r == Err::<u8, VMError>(e),
            },
    {
        match self {
            SizedValue::Byte(v) => Ok(*v),
            SizedValue::Empty => Ok(0),
            _ => Err(VMError::TooBigSizeExpectation),
        }
    }

    /// The value zero-extended to 32 bits; fails on a wider value.
    pub fn u32_zx(&self) -> (r: Result<u32, VMError>)
        ensures
            match self.spec_zx(ValueSize::Dword) {
                Ok(v) => r == Ok::<u32, VMError>(v as u32) && r.unwrap() == v,
                Err(e) => r == Err::<u32, VMError>(e),
            },
    {
        match self {
            SizedValue::Dword(v) => Ok(*v),
            SizedValue::Word(v) => Ok(*v as u32),
            SizedValue::Byte(v) => Ok(*v as u32),
            SizedValue::Qword(_v) => Err(VMError::TooBigSizeExpectation),
            SizedValue::Empty => Ok(0),
        }
    }

    /// The value zero-extended to 16 bits; fails on a wider value.
    pub fn u16_zx(&self) -> (r: Result<u16, VMError>)
        ensures
            match self.spec_zx(ValueSize::Word) {
                Ok(v) => r == Ok::<u16, VMError>(v as u16) && r.unwrap() == v,
                Err(e) => r == Err::<u16, VMError>(e),
            },
    {
        match self {
            SizedValue::Word(v) => Ok(*v),
            SizedValue::Byte(v) => Ok(*v as u16),
            SizedValue::Empty => Ok(0),
            SizedValue::Dword(_v) => Err(VMError::TooBigSizeExpectation),
            SizedValue::Qword(_v) => Err(VMError::TooBigSizeExpectation),
        }
    }

    /// The value sign-extended to 32 bits; fails on a wider value.
    pub fn u32_sx(&self) -> (r: Result<u32, VMError>)
        ensures
            match self.spec_sx(ValueSize::Dword) {
                Ok(v) => r == Ok::<u32, VMError>(v as u32) && r.unwrap() == v,
                Err(e) => r == Err::<u32, VMError>(e),
            },
    {
        match self {
            SizedValue::Dword(v) => Ok(*v),
            SizedValue::Word(v) => if *v < 0x8000 {
                Ok(*v as u32)
            } else {
                Ok(*v as u32 + 0xFFFF_0000)
            },
            SizedValue::Byte(v) => if *v < 0x80 {
                Ok(*v as u32)
            } else {
                Ok(*v as u32 + 0xFFFF_FF00)
            },
            SizedValue::Empty => Ok(0),
            SizedValue::Qword(_v) => Err(VMError::TooBigSizeExpectation),
        }
    }

    /// The value sign-extended to 16 bits; fails on a wider value.
    pub fn u16_sx(&self) -> (r: Result<u16, VMError>)
        ensures
            match self.spec_sx(ValueSize::Word) {
                Ok(v) => r == Ok::<u16, VMError>(v as u16) && r.unwrap() == v,
                Err(e) => r == Err::<u16, VMError>(e),
            },
    {
        match self {
            SizedValue::Word(v) => Ok(*v),
            SizedValue::Byte(v) => if *v < 0x80 {
                Ok(*v as u16)
            } else {
                Ok(*v as u16 + 0xFF00)
            },
            SizedValue::Empty => Ok(0),
            SizedValue::Dword(_v) => Err(VMError::TooBigSizeExpectation),
            SizedValue::Qword(_v) => Err(VMError::TooBigSizeExpectation),
        }
    }

    /// The value zero-extended to 64 bits.
    pub fn u64_trunc(&self) -> (r: u64)
        ensures
            r == self.spec_trunc(ValueSize::Qword),
    {
        match self {
            SizedValue::Dword(v) => *v as u64,
            SizedValue::Qword(v) => *v,
            SizedValue::Word(v) => *v as u64,
            SizedValue::Byte(v) => *v as u64,
            SizedValue::Empty => 0,
        }
    }

    /// The low 32 bits of the value.
    pub fn u32_trunc(&self) -> (r: u32)
        ensures
            r == self.spec_trunc(ValueSize::Dword),
    {
        match self {
            SizedValue::Dword(v) => *v,
            SizedValue::Qword(v) => (*v % 0x1_0000_0000) as u32,
            SizedValue::Word(v) => *v as u32,
            SizedValue::Byte(v) => *v as u32,
            SizedValue::Empty => 0,
        }
    }

    /// The low 16 bits of the value.
    pub fn u16_trunc(&self) -> (r: u16)
        ensures
            r == self.spec_trunc(ValueSize::Word),
    {
        match self {
            SizedValue::Word(v) => *v,
            SizedValue::Byte(v) => *v as u16,
            SizedValue::Empty => 0,
            SizedValue::Dword(v) => (*v % 0x1_0000) as u16,
            SizedValue::Qword(v) => (*v % 0x1_0000) as u16,
        }
    }

    /// The low 8 bits of the value.
    pub fn u8_trunc(&self) -> (r: u8)
        ensures
            r == self.spec_trunc(ValueSize::Byte),
    {
        match self {
            SizedValue::Word(v) => (*v % 0x100) as u8,
            SizedValue::Byte(v) => *v,
            SizedValue::Empty => 0,
            SizedValue::Dword(v) => (*v % 0x100) as u8,
            SizedValue::Qword(v) => (*v % 0x100) as u8,
        }
    }

    /// Converts to width `s` by zero extension. It fails where `s` is no
    /// width, and where the value is wider than `s`.
    pub fn convert_size_zx(&self, s: ValueSize) -> (r: Result<SizedValue, VMError>)
        ensures
            r == self.spec_convert_zx(s),
    {
        match s {
            ValueSize::Qword => Ok(SizedValue::Qword(self.u64_zx()?)),
            ValueSize::Dword => Ok(SizedValue::Dword(self.u32_zx()?)),
            ValueSize::Word => Ok(SizedValue::Word(self.u16_zx()?)),
            ValueSize::Byte => Ok(SizedValue::Byte(self.u8_zx()?)),
            ValueSize::Zero => Err(VMError::WrongSizeExpectation),
        }
    }

    /// Converts to width `s` by sign extension. It fails where `s` is no
    /// width, and where the value is wider than `s`.
    pub fn convert_size_sx(&self, s: ValueSize) -> (r: Result<SizedValue, VMError>)
        ensures
            r == self.spec_convert_sx(s),
    {
        match s {
            ValueSize::Qword => Ok(SizedValue::Qword(self.u64_sx()?)),
            ValueSize::Dword => Ok(SizedValue::Dword(self.u32_sx()?)),
            ValueSize::Word => Ok(SizedValue::Word(self.u16_sx()?)),
            ValueSize::Byte => Ok(SizedValue::Byte(self.u8_zx()?)),
            ValueSize::Zero => Err(VMError::WrongSizeExpectation),
        }
    }

    /// Converts to width `s`, zero-extending a narrower value and keeping the
    /// low bits of a wider one.
    pub fn convert_size_trunc(&self, s: ValueSize) -> (r: SizedValue)
        ensures
            r == SizedValue::of(s, self.spec_trunc(s)),
            r.size() == s,
            r.value() == self.spec_trunc(s) || s == ValueSize::Zero,
    {
        match s {
            ValueSize::Qword => SizedValue::Qword(self.u64_trunc()),
            ValueSize::Dword => SizedValue::Dword(self.u32_trunc()),
            ValueSize::Word => SizedValue::Word(self.u16_trunc()),
            ValueSize::Byte => SizedValue::Byte(self.u8_trunc()),
            ValueSize::Zero => SizedValue::Empty,
        }
    }
}

/// Where an instruction's argument lives: in the instruction itself, in a
/// register, or in memory under one of the addressing forms.
#[derive(PartialEq, Eq, Copy, Clone, Debug)]
#[allow(inconsistent_fields)]
pub enum ArgLocation {
    /// The instruction has no such argument
    Nowhere,
    Immediate(SizedValue),
    /// An absolute address
    Address(u32, ValueSize),
    RegisterValue(u8, ValueSize),
    /// The address is held in a register
    RegisterAddress(u8, ValueSize),
    /// `[reg + offset]`; a negative offset is held as its two's complement,
    /// which a wrapping addition treats alike
    ModRMAddress { offset: Option<u32>, reg: Option<u8>, size: ValueSize },
    /// `[base + index * scale + offset]`, the scale being 1, 2, 4 or 8
    SIBAddress { offset: u32, base: Option<u8>, scale: u8, index: Option<u8>, size: ValueSize },
}

impl ArgLocation {
    /// Whether the location is in memory: an absolute address, the address
    /// in a register, or one of the two computed addressing forms.
    pub open spec fn in_memory(self) -> bool {
        self is Address || self is RegisterAddress || self is ModRMAddress || self is SIBAddress
    }

    /// Every register the location names is one of the eight.
    pub open spec fn wf(self) -> bool {
        match self {
            ArgLocation::RegisterValue(r, _) => r < 8,
            ArgLocation::RegisterAddress(r, _) => r < 8,
            ArgLocation::ModRMAddress { offset, reg, size } => reg matches Some(r) ==> r < 8,
            ArgLocation::SIBAddress { offset, base, scale, index, size } => {
                &&& base matches Some(r) ==> r < 8
                &&& index matches Some(r) ==> r < 8
            },
            _ => true,
        }
    }
}

impl Default for ArgLocation {
    fn default() -> (r: ArgLocation)
        ensures
            r == ArgLocation::Nowhere,
    {
        ArgLocation::Nowhere
    }
}

/// An argument as the decoder hands it to the handlers: its location, and
/// whether reaching it costs a memory access.
#[derive(PartialEq, Eq, Copy, Clone, Debug)]
pub struct OpArgument {
    pub location: ArgLocation,
    pub is_memory: bool,
}

impl Default for OpArgument {
    fn default() -> (r: OpArgument)
        ensures
            r == (OpArgument { location: ArgLocation::Nowhere, is_memory: false }),
    {
        OpArgument { location: ArgLocation::Nowhere, is_memory: false }
    }
}

} // verus!
