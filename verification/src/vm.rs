use vstd::prelude::*;
use crate::flags::{unpacked_flags, X86Flags};
use crate::memory::{
    le_bytes, lemma_store_then_load, region_base, region_offset, spec_load, spec_sized_memory,
    spec_store, MemorySystem, WRITEABLE_MEMORY,
};
use crate::opcodes::{entries_wf, OpcodeFn, OpcodeProperties};
use crate::ops::{
    dispatch, handler_effect, interrupt_number, lemma_handler_gas, read_interrupt_number,
};
use crate::pipeline::{fill_pipeline, filled, slots_wf, Pipeline};
use crate::structs::{ArgLocation, SizedValue, ValueSize};
use crate::subset::{opcode_table, subset_table};

verus! {

/// Everything that can go wrong in the machine.
#[derive(PartialEq, Eq, Debug, Copy, Clone)]
pub enum VMError {
    /// No error
    NoError,
    /// The functionality is not implemented
    NotYetImplemented,
    /// A division by zero, or a quotient that does not fit its destination
    DivideByZero,
    /// A read past the end of a region
    ReadBadMemory(u32),
    /// A write past the end of a region
    WroteBadMemory(u32),
    /// A write by the guest to read-only memory
    WroteReadOnlyMemory(u32),
    /// An access to an address that no region holds
    ReadUnloadedMemory(u32),
    /// A region was added at an address that is no multiple of 0x10000
    UnalignedMemoryAddition,
    /// A region was added where one is already
    ConflictingMemoryAddition,
    /// An opcode outside the supported subset; the byte is the first of the instruction
    InvalidOpcode(u8),
    /// A write to an argument that is no place, such as an immediate
    WroteUnwriteableArgument,
    /// Decoding needed more bytes than it was given
    DecodingOverrun,
    /// A value did not have the width that was expected
    WrongSizeExpectation,
    /// A value was too wide for the conversion asked of it
    TooBigSizeExpectation,
    /// No error: the escape by which `hlt` stops the machine
    InternalVMStop,
    /// The hypervisor met an unrecoverable error
    SyscallError,
    /// The gas ran out; execution may be resumed after a refill
    OutOfGas,
    /// An instruction is encoded in a way the subset does not allow
    InvalidOpcodeEncoding,
}


/// The number of gas tiers.
pub const GASCOST_COUNT: usize = 9;

/// The tiers by which instructions are charged.
#[derive(Debug, Copy, Clone, PartialEq, Eq)]
pub enum GasCost {
    /// Free of charge; only for instructions that do nothing
    Free,
    /// Very little or very simple logic
    VeryLow,
    /// Some logic, though not a lot of complexity
    Low,
    /// A somewhat complex instruction
    Moderate,
    /// A very complex or slow instruction
    High,
    /// A surcharge for a branch that cannot be predicted, conditional or indirect
    ConditionalBranch,
    /// A surcharge for each argument in memory
    MemoryAccess,
    /// A surcharge for each instruction that is executed from writeable memory
    WriteableMemoryExec,
    /// A surcharge for an instruction with a Mod R/M byte
    ModRMSurcharge,
}

impl GasCost {
    /// The place of the tier in a charger's list of costs.
    pub open spec fn index(self) -> int {
        match self {
            GasCost::Free => 0,
            GasCost::VeryLow => 1,
            GasCost::Low => 2,
            GasCost::Moderate => 3,
            GasCost::High => 4,
            GasCost::ConditionalBranch => 5,
            GasCost::MemoryAccess => 6,
            GasCost::WriteableMemoryExec => 7,
            GasCost::ModRMSurcharge => 8,
        }
    }

    /// The place of the tier in a charger's list of costs.
    pub fn ordinal(self) -> (r: usize)
        ensures
            r == self.index(),
            r < GASCOST_COUNT,
    {
        match self {
            GasCost::Free => 0,
            GasCost::VeryLow => 1,
            GasCost::Low => 2,
            GasCost::Moderate => 3,
            GasCost::High => 4,
            GasCost::ConditionalBranch => 5,
            GasCost::MemoryAccess => 6,
            GasCost::WriteableMemoryExec => 7,
            GasCost::ModRMSurcharge => 8,
        }
    }
}

impl Default for GasCost {
    fn default() -> (r: GasCost)
        ensures
            r == GasCost::Low,
    {
        GasCost::Low
    }
}

/// What each gas tier costs.
#[derive(Debug)]
pub struct GasCharger {
    pub costs: [u64; GASCOST_COUNT],
}

impl Default for GasCharger {
    fn default() -> (r: GasCharger)
        ensures
            r.costs@ == seq![0u64, 0, 0, 0, 0, 0, 0, 0, 0],
    {
        let r = GasCharger { costs: [0, 0, 0, 0, 0, 0, 0, 0, 0] };
        assert(r.costs@ =~= seq![0u64, 0, 0, 0, 0, 0, 0, 0, 0]);
        r
    }
}

impl GasCharger {
    /// The cost of a tier.
    pub fn cost(&self, tier: GasCost) -> (r: u64)
        ensures
            r == self.costs@[tier.index()],
    {
        self.costs[tier.ordinal()]
    }

    /// A simple schedule for tests: the tiers cost 0, 1, 4, 10 and 20, a
    /// branch that cannot be predicted 10, a memory access 1, execution
    /// from writeable memory 15 and a Mod R/M byte 1.
    pub fn test_schedule() -> (r: GasCharger)
        ensures
            r.costs@ == seq![0u64, 1, 4, 10, 20, 10, 1, 15, 1],
    {
        let r = GasCharger { costs: [0, 1, 4, 10, 20, 10, 1, 15, 1] };
        assert(r.costs@ =~= seq![0u64, 1, 4, 10, 20, 10, 1, 15, 1]);
        r
    }
}

/// The 32-bit registers, in the order in which instructions encode them.
#[derive(PartialEq, Eq, Copy, Clone, Debug)]
pub enum Reg32 {
    EAX,
    ECX,
    EDX,
    EBX,
    ESP,
    EBP,
    ESI,
    EDI,
}

/// The 16-bit registers, in the order in which instructions encode them.
#[derive(PartialEq, Eq, Copy, Clone, Debug)]
pub enum Reg16 {
    AX,
    CX,
    DX,
    BX,
    SP,
    BP,
    SI,
    DI,
}

/// The 8-bit registers, in the order in which instructions encode them.
#[derive(PartialEq, Eq, Copy, Clone, Debug)]
pub enum Reg8 {
    AL,
    CL,
    DL,
    BL,
    AH,
    CH,
    DH,
    BH,
}

impl Reg32 {
    /// The number by which instructions name the register.
    pub open spec fn index(self) -> u8 {
        match self {
            Reg32::EAX => 0,
            Reg32::ECX => 1,
            Reg32::EDX => 2,
            Reg32::EBX => 3,
            Reg32::ESP => 4,
            Reg32::EBP => 5,
            Reg32::ESI => 6,
            Reg32::EDI => 7,
        }
    }

    /// The number by which instructions name the register.
    pub fn number(self) -> (r: u8)
        ensures
            r == self.index(),
            r < 8,
    {
        match self {
            Reg32::EAX => 0,
            Reg32::ECX => 1,
            Reg32::EDX => 2,
            Reg32::EBX => 3,
            Reg32::ESP => 4,
            Reg32::EBP => 5,
            Reg32::ESI => 6,
            Reg32::EDI => 7,
        }
    }
}

impl Reg16 {
    /// The number by which instructions name the register.
    pub open spec fn index(self) -> u8 {
        match self {
            Reg16::AX => 0,
            Reg16::CX => 1,
            Reg16::DX => 2,
            Reg16::BX => 3,
            Reg16::SP => 4,
            Reg16::BP => 5,
            Reg16::SI => 6,
            Reg16::DI => 7,
        }
    }

    /// The number by which instructions name the register.
    pub fn number(self) -> (r: u8)
        ensures
            r == self.index(),
            r < 8,
    {
        match self {
            Reg16::AX => 0,
            Reg16::CX => 1,
            Reg16::DX => 2,
            Reg16::BX => 3,
            Reg16::SP => 4,
            Reg16::BP => 5,
            Reg16::SI => 6,
            Reg16::DI => 7,
        }
    }
}

impl Reg8 {
    /// The number by which instructions name the register.
    pub open spec fn index(self) -> u8 {
        match self {
            Reg8::AL => 0,
            Reg8::CL => 1,
            Reg8::DL => 2,
            Reg8::BL => 3,
            Reg8::AH => 4,
            Reg8::CH => 5,
            Reg8::DH => 6,
            Reg8::BH => 7,
        }
    }

    /// The number by which instructions name the register.
    pub fn number(self) -> (r: u8)
        ensures
            r == self.index(),
            r < 8,
    {
        match self {
            Reg8::AL => 0,
            Reg8::CL => 1,
            Reg8::DL => 2,
            Reg8::BL => 3,
            Reg8::AH => 4,
            Reg8::CH => 5,
            Reg8::DH => 6,
            Reg8::BH => 7,
        }
    }
}

/// The whole state of the machine.
pub struct VM {
    /// The eight 32-bit registers, in the order EAX, ECX, EDX, EBX, ESP, EBP, ESI, EDI
    pub regs: [u32; 8],
    /// The address of the instruction that is executed next
    pub eip: u32,
    pub flags: X86Flags,
    pub memory: MemorySystem,
    /// The address of the instruction that failed, after a failure
    pub error_eip: u32,
    /// The gas that is left
    pub gas_remaining: u64,
    /// What the gas tiers cost
    pub charger: GasCharger,
}

/// The way out of the machine, which the `int` instructions take.
pub trait Hypervisor {
    /// Serves interrupt `num`. It may read and change all of the machine.
    fn interrupt(&mut self, vm: &mut VM, num: u8) -> Result<(), VMError>;
}

/// The machine as a mathematical value: what the contracts speak of.
pub struct Machine {
    /// The eight registers
    pub regs: Seq<u32>,
    pub eip: u32,
    pub flags: X86Flags,
    /// The regions by their start, each with its bytes
    pub memory: Map<u32, Seq<u8>>,
    pub error_eip: u32,
    pub gas_remaining: u64,
    /// The cost of each gas tier
    pub costs: Seq<u64>,
}

/// The 32-bit number that `v` wraps to.
pub open spec fn wrap32(v: int) -> u32 {
    (v % 0x1_0000_0000) as u32
}

impl Machine {
    /// The value of register `reg` at width `size`. The byte registers 4 to
    /// 7 are the second bytes of registers 0 to 3.
    pub open spec fn get_reg(self, reg: u8, size: ValueSize) -> SizedValue {
        match size {
            ValueSize::Zero => SizedValue::Empty,
            ValueSize::Byte => if reg < 4 {
                SizedValue::Byte((self.regs[reg as int] % 0x100) as u8)
            } else {
                SizedValue::Byte((self.regs[reg - 4] / 0x100 % 0x100) as u8)
            },
            ValueSize::Word => SizedValue::Word((self.regs[reg as int] % 0x1_0000) as u16),
            ValueSize::Dword => SizedValue::Dword(self.regs[reg as int]),
            ValueSize::Qword => SizedValue::Empty,
        }
    }

    /// The machine after `value` is written to register `reg`: the bits
    /// that the width of `value` does not cover stay as they are.
    pub open spec fn set_reg(self, reg: u8, value: SizedValue) -> Machine {
        match value {
            SizedValue::Empty => self,
            SizedValue::Qword(_) => self,
            SizedValue::Byte(v) => if reg < 4 {
                Machine {
                    regs: self.regs.update(
                        reg as int,
                        (self.regs[reg as int] - self.regs[reg as int] % 0x100 + v) as u32,
                    ),
                    ..self
                }
            } else {
                Machine {
                    regs: self.regs.update(
                        reg - 4,
                        (self.regs[reg - 4] - self.regs[reg - 4] / 0x100 % 0x100 * 0x100 + v
                            * 0x100) as u32,
                    ),
                    ..self
                }
            },
            SizedValue::Word(v) => Machine {
                regs: self.regs.update(
                    reg as int,
                    (self.regs[reg as int] - self.regs[reg as int] % 0x1_0000 + v) as u32,
                ),
                ..self
            },
            SizedValue::Dword(v) => Machine { regs: self.regs.update(reg as int, v), ..self },
        }
    }

    /// The value of width `size` that memory holds at `address`.
    #[verifier::opaque]
    pub open spec fn get_mem(self, address: u32, size: ValueSize) -> Result<SizedValue, VMError> {
        match size {
            ValueSize::Zero => Ok(SizedValue::Empty),
            _ => match spec_load(self.memory, address, size.bytes() as int) {
                Ok(v) => Ok(SizedValue::of(size, v)),
                Err(e) => Err(e),
            },
        }
    }

    /// The machine after the guest writes `value` to memory at `address`,
    /// and whether it could: below `WRITEABLE_MEMORY` it cannot.
    #[verifier::opaque]
    pub open spec fn set_mem(self, address: u32, value: SizedValue) -> (
        Machine,
        Result<(), VMError>,
    ) {
        if address < WRITEABLE_MEMORY {
            (self, Err(VMError::WroteReadOnlyMemory(address)))
        } else {
            match value {
                SizedValue::Empty => (self, Ok(())),
                _ => (
                    Machine {
                        memory: spec_store(
                            self.memory,
                            address,
                            le_bytes(value.value(), value.size().bytes()),
                        ).0,
                        ..self
                    },
                    spec_store(
                        self.memory,
                        address,
                        le_bytes(value.value(), value.size().bytes()),
                    ).1,
                ),
            }
        }
    }

    /// The address that a `[reg + offset]` or `[base + index * scale + offset]`
    /// location refers to; an absent part counts as 0, and the sum wraps.
    #[verifier::opaque]
    pub open spec fn effective_address(self, arg: ArgLocation) -> u32 {
        match arg {
            ArgLocation::ModRMAddress { offset, reg, size } => wrap32(
                (match offset {
                    Some(o) => o as int,
                    None => 0,
                }) + (match reg {
                    Some(r) => self.regs[r as int] as int,
                    None => 0,
                }),
            ),
            ArgLocation::SIBAddress { offset, base, scale, index, size } => wrap32(
                (match base {
                    Some(r) => self.regs[r as int] as int,
                    None => 0,
                }) + (match index {
                    Some(r) => self.regs[r as int] as int,
                    None => 0,
                }) * scale + offset,
            ),
            _ => 0,
        }
    }

    /// The value at a location.
    #[verifier::opaque]
    pub open spec fn get_arg(self, arg: ArgLocation) -> Result<SizedValue, VMError> {
        match arg {
            ArgLocation::Nowhere => Ok(SizedValue::Empty),
            ArgLocation::Immediate(v) => Ok(v),
            ArgLocation::Address(a, s) => self.get_mem(a, s),
            ArgLocation::RegisterValue(r, s) => Ok(self.get_reg(r, s)),
            ArgLocation::RegisterAddress(r, s) => self.get_mem(self.regs[r as int], s),
            ArgLocation::ModRMAddress { offset, reg, size } => self.get_mem(
                self.effective_address(arg),
                size,
            ),
            ArgLocation::SIBAddress { offset, base, scale, index, size } => self.get_mem(
                self.effective_address(arg),
                size,
            ),
        }
    }

    /// The address that a location in memory refers to.
    #[verifier::opaque]
    pub open spec fn get_arg_lea(self, arg: ArgLocation) -> Result<u32, VMError> {
        match arg {
            ArgLocation::Address(a, _) => Ok(a),
            ArgLocation::RegisterAddress(r, _) => Ok(self.regs[r as int]),
            ArgLocation::ModRMAddress { offset, reg, size } => Ok(self.effective_address(arg)),
            ArgLocation::SIBAddress { offset, base, scale, index, size } => Ok(
                self.effective_address(arg),
            ),
            _ => Err(VMError::InvalidOpcodeEncoding),
        }
    }

    /// The machine after `v` is stored at a location, and whether it could
    /// be. An absolute address, a register and the address in a register
    /// take a value that is no wider than they are and extend it with zeros;
    /// the two computed addressing forms take the low bits of any value.
    #[verifier::opaque]
    pub open spec fn set_arg(
        self,
        arg: ArgLocation,
        v: SizedValue,
    ) -> (Machine, Result<(), VMError>) {
        match arg {
            ArgLocation::Nowhere => (self, Ok(())),
            ArgLocation::Immediate(_) => (self, Err(VMError::WroteUnwriteableArgument)),
            ArgLocation::Address(a, s) => match v.spec_convert_zx(s) {
                Ok(w) => self.set_mem(a, w),
                Err(e) => (self, Err(e)),
            },
            ArgLocation::RegisterValue(r, s) => match v.spec_convert_zx(s) {
                Ok(w) => (self.set_reg(r, w), Ok(())),
                Err(e) => (self, Err(e)),
            },
            ArgLocation::RegisterAddress(r, s) => match v.spec_convert_zx(s) {
                Ok(w) => self.set_mem(self.regs[r as int], w),
                Err(e) => (self, Err(e)),
            },
            ArgLocation::ModRMAddress { offset, reg, size } => self.set_mem(
                self.effective_address(arg),
                SizedValue::of(size, v.spec_trunc(size)),
            ),
            ArgLocation::SIBAddress { offset, base, scale, index, size } => self.set_mem(
                self.effective_address(arg),
                SizedValue::of(size, v.spec_trunc(size)),
            ),
        }
    }
}

/// The width of the native word: a word under an operand size prefix, else a double word.
pub open spec fn native_size(size_override: bool) -> ValueSize {
    if size_override {
        ValueSize::Word
    } else {
        ValueSize::Dword
    }
}

impl Machine {
    /// The machine after `val` is pushed at the width of the native word,
    /// and whether it could be: the value is written below the stack
    /// pointer, which then moves down to it. A value that is wider than the
    /// native word is refused.
    pub open spec fn push(self, val: SizedValue, size_override: bool) -> (
        Machine,
        Result<(), VMError>,
    ) {
        match val.spec_zx(native_size(size_override)) {
            Err(e) => (self, Err(e)),
            Ok(v) => {
                let sp = wrap32(self.regs[4] - native_size(size_override).bytes());
                let (m, r) = self.set_mem(sp, SizedValue::of(native_size(size_override), v));
                match r {
                    Err(e) => (m, Err(e)),
                    Ok(()) => (Machine { regs: m.regs.update(4, sp), ..m }, Ok(())),
                }
            },
        }
    }

    /// The machine after a value of width `size` is popped, and the value:
    /// it is read at the stack pointer, which then moves up past it.
    pub open spec fn pop(self, size: ValueSize) -> (Machine, Result<SizedValue, VMError>) {
        match self.get_mem(self.regs[4], size) {
            Err(e) => (self, Err(e)),
            Ok(v) => (
                Machine { regs: self.regs.update(4, wrap32(self.regs[4] + size.bytes())), ..self },
                Ok(v),
            ),
        }
    }
}

/// A write to memory changes nothing but memory.
pub broadcast proof fn lemma_set_mem_frame(m: Machine, address: u32, value: SizedValue)
    ensures
        #![trigger m.set_mem(address, value)]
        m.set_mem(address, value).0 == (Machine {
            memory: m.set_mem(address, value).0.memory,
            ..m
        }),
{
    reveal(Machine::set_mem);
}

/// Storing a value at a location changes registers or memory and nothing else.
pub broadcast proof fn lemma_set_arg_frame(m: Machine, arg: ArgLocation, v: SizedValue)
    ensures
        #![trigger m.set_arg(arg, v)]
        m.set_arg(arg, v).0 == (Machine {
            regs: m.set_arg(arg, v).0.regs,
            memory: m.set_arg(arg, v).0.memory,
            ..m
        }),
{
    reveal(Machine::set_arg);
    lemma_set_mem_frame(m, m.effective_address(arg), SizedValue::of(arg->ModRMAddress_size, v.spec_trunc(arg->ModRMAddress_size)));
    lemma_set_mem_frame(m, m.effective_address(arg), SizedValue::of(arg->SIBAddress_size, v.spec_trunc(arg->SIBAddress_size)));
    if let ArgLocation::Address(a, s) = arg {
        if let Ok(w) = v.spec_convert_zx(s) {
            lemma_set_mem_frame(m, a, w);
        }
    }
    if let ArgLocation::RegisterAddress(r, s) = arg {
        if let Ok(w) = v.spec_convert_zx(s) {
            lemma_set_mem_frame(m, m.regs[r as int], w);
        }
    }
}

/// Whether a result, where it is a failure, is a fault of the instruction
/// itself: neither the halt nor the want of gas.
pub open spec fn fails_by_fault<T>(r: Result<T, VMError>) -> bool {
    r matches Err(e) ==> e != VMError::InternalVMStop && e != VMError::OutOfGas
}

/// Where a read from memory fails, it is by a fault.
pub broadcast proof fn lemma_get_mem_faults(m: Machine, address: u32, size: ValueSize)
    ensures
        #![trigger m.get_mem(address, size)]
        fails_by_fault(m.get_mem(address, size)),
{
    reveal(Machine::get_mem);
}

/// Where a write to memory fails, it is by a fault.
pub broadcast proof fn lemma_set_mem_faults(m: Machine, address: u32, value: SizedValue)
    ensures
        #![trigger m.set_mem(address, value)]
        fails_by_fault(m.set_mem(address, value).1),
{
    reveal(Machine::set_mem);
}

/// Where the value at a location cannot be read, it is by a fault.
pub broadcast proof fn lemma_get_arg_faults(m: Machine, arg: ArgLocation)
    ensures
        #![trigger m.get_arg(arg)]
        fails_by_fault(m.get_arg(arg)),
{
    broadcast use lemma_get_mem_faults;

    reveal(Machine::get_arg);
}

/// Where a location has no address, that is a fault.
pub broadcast proof fn lemma_get_arg_lea_faults(m: Machine, arg: ArgLocation)
    ensures
        #![trigger m.get_arg_lea(arg)]
        fails_by_fault(m.get_arg_lea(arg)),
{
    reveal(Machine::get_arg_lea);
}

/// Where a value cannot be stored at a location, it is by a fault.
pub broadcast proof fn lemma_set_arg_faults(m: Machine, arg: ArgLocation, v: SizedValue)
    ensures
        #![trigger m.set_arg(arg, v)]
        fails_by_fault(m.set_arg(arg, v).1),
{
    broadcast use lemma_set_mem_faults;

    reveal(Machine::set_arg);
}

/// The views of a register alias each other. After a double word `v` was
/// written to one of the eight registers, its 16-bit view holds the low 16
/// bits of `v`; for the first four registers the low byte view holds the
/// low 8 bits of `v` and the high byte view the 8 bits above them. The
/// other registers stay as they are.
pub proof fn lemma_register_aliasing(m: Machine, r: u8, v: u32)
    requires
        m.regs.len() == 8,
        r < 8,
    ensures
        m.set_reg(r, SizedValue::Dword(v)).get_reg(r, ValueSize::Dword) == SizedValue::Dword(v),
        m.set_reg(r, SizedValue::Dword(v)).get_reg(r, ValueSize::Word) == SizedValue::Word(
            (v % 0x1_0000) as u16,
        ),
        r < 4 ==> m.set_reg(r, SizedValue::Dword(v)).get_reg(r, ValueSize::Byte) == SizedValue::Byte(
            (v % 0x100) as u8,
        ),
        r < 4 ==> m.set_reg(r, SizedValue::Dword(v)).get_reg((r + 4) as u8, ValueSize::Byte)
            == SizedValue::Byte((v / 0x100 % 0x100) as u8),
        forall|other: int|
            0 <= other < 8 && other != r ==> m.set_reg(r, SizedValue::Dword(v)).regs[other]
                == m.regs[other],
{
}

/// Writing the high byte view of one of the first four registers leaves
/// the low byte view and the upper 16 bits of the register as they are,
/// and the high byte view then holds what was written.
pub proof fn lemma_high_byte_write(m: Machine, r: u8, b: u8)
    requires
        m.regs.len() == 8,
        r < 4,
    ensures
        m.set_reg((r + 4) as u8, SizedValue::Byte(b)).get_reg((r + 4) as u8, ValueSize::Byte)
            == SizedValue::Byte(b),
        m.set_reg((r + 4) as u8, SizedValue::Byte(b)).get_reg(r, ValueSize::Byte) == m.get_reg(
            r,
            ValueSize::Byte,
        ),
        m.set_reg((r + 4) as u8, SizedValue::Byte(b)).regs[r as int] / 0x1_0000 == m.regs[r as int]
            / 0x1_0000,
{
    lemma_replace_second_byte(m.regs[r as int] as int, b as int);
}

/// Replacing the second byte of a number of four bytes changes that byte
/// and no other.
#[verifier::rlimit(30)]
proof fn lemma_replace_second_byte(x: int, b: int)
    requires
        0 <= x < 0x1_0000_0000,
        0 <= b < 0x100,
    ensures
        0 <= x - x / 0x100 % 0x100 * 0x100 + b * 0x100 < 0x1_0000_0000,
        (x - x / 0x100 % 0x100 * 0x100 + b * 0x100) % 0x100 == x % 0x100,
        (x - x / 0x100 % 0x100 * 0x100 + b * 0x100) / 0x100 % 0x100 == b,
        (x - x / 0x100 % 0x100 * 0x100 + b * 0x100) / 0x1_0000 == x / 0x1_0000,
{
    let t = x / 0x100;
    let l = x % 0x100;
    let q = t / 0x100;
    let h = t % 0x100;
    assert(x == t * 0x100 + l);
    assert(t == q * 0x100 + h);
    assert(q == x / 0x1_0000);
    let y = x - h * 0x100 + b * 0x100;
    let u = q * 0x100 + b;
    assert(y == u * 0x100 + l);
    assert(y / 0x100 == u);
    assert(y % 0x100 == l);
    assert(u / 0x100 == q);
    assert(u % 0x100 == b);
    assert(y / 0x1_0000 == u / 0x100);
}

/// Memory below `WRITEABLE_MEMORY` is read-only to the guest: a write
/// there fails with the address and leaves the machine as it is.
pub proof fn lemma_read_only_memory(m: Machine, address: u32, value: SizedValue)
    requires
        address < WRITEABLE_MEMORY,
    ensures
        m.set_mem(address, value) == (m, Err::<(), VMError>(VMError::WroteReadOnlyMemory(address))),
{
    reveal(Machine::set_mem);
}

/// What the guest has written to memory it reads back: after a write of a
/// byte, a word, a double word or a quadruple word that succeeded, a read
/// of the same width at the same address gives the value that was written.
pub proof fn lemma_memory_round_trip(m: Machine, address: u32, value: SizedValue)
    requires
        m.set_mem(address, value).1 is Ok,
        value != SizedValue::Empty,
    ensures
        m.set_mem(address, value).0.get_mem(address, value.size()) == Ok::<SizedValue, VMError>(
            value,
        ),
{
    reveal(Machine::set_mem);
    reveal(Machine::get_mem);
    lemma_store_then_load(m.memory, address, value.value(), value.size().bytes());
}

impl View for VM {
    type V = Machine;

    open spec fn view(&self) -> Machine {
        Machine {
            regs: self.regs@,
            eip: self.eip,
            flags: self.flags,
            memory: self.memory@,
            error_eip: self.error_eip,
            gas_remaining: self.gas_remaining,
            costs: self.charger.costs@,
        }
    }
}

impl Default for VM {
    fn default() -> (r: VM)
        ensures
            r@.regs == seq![0u32, 0, 0, 0, 0, 0, 0, 0],
            r@.eip == 0,
            r@.flags == unpacked_flags(0),
            r@.memory == Map::<u32, Seq<u8>>::empty(),
            r@.error_eip == 0,
            r@.gas_remaining == 0,
            r@.costs == seq![0u64, 0, 0, 0, 0, 0, 0, 0, 0],
    {
        let r = VM {
            regs: [0, 0, 0, 0, 0, 0, 0, 0],
            eip: 0,
            flags: X86Flags::default(),
            memory: MemorySystem::default(),
            error_eip: 0,
            gas_remaining: 0,
            charger: GasCharger::default(),
        };
        assert(r.regs@ =~= seq![0u32, 0, 0, 0, 0, 0, 0, 0]);
        r
    }
}

impl VM {
    /// The value of register `reg` at width `size`.
    pub fn get_reg(&self, reg: u8, size: ValueSize) -> (r: SizedValue)
        requires
            reg < 8,
        ensures
            r == self@.get_reg(reg, size),
    {
        match size {
            ValueSize::Zero => SizedValue::Empty,
            ValueSize::Byte => {
                if reg < 4 {
                    SizedValue::Byte((self.regs[reg as usize] % 0x100) as u8)
                } else {
                    SizedValue::Byte((self.regs[(reg - 4) as usize] / 0x100 % 0x100) as u8)
                }
            },
            ValueSize::Word => SizedValue::Word((self.regs[reg as usize] % 0x1_0000) as u16),
            ValueSize::Dword => SizedValue::Dword(self.regs[reg as usize]),
            ValueSize::Qword => SizedValue::Empty,
        }
    }

    /// Writes `value` to register `reg`, at the width of the value.
    pub fn set_reg(&mut self, reg: u8, value: SizedValue)
        requires
            reg < 8,
        ensures
            final(self)@ == old(self)@.set_reg(reg, value),
    {
        match value {
            SizedValue::Empty => (),
            SizedValue::Qword(_v) => (),
            SizedValue::Byte(v) => {
                if reg < 4 {
                    let r: usize = reg as usize;
                    let old_value: u32 = self.regs[r];
                    self.regs[r] = old_value - old_value % 0x100 + v as u32;
                } else {
                    let r: usize = (reg - 4) as usize;
                    let old_value: u32 = self.regs[r];
                    self.regs[r] = old_value - old_value / 0x100 % 0x100 * 0x100 + v as u32 * 0x100;
                }
            },
            SizedValue::Word(v) => {
                let r: usize = reg as usize;
                let old_value: u32 = self.regs[r];
                self.regs[r] = old_value - old_value % 0x1_0000 + v as u32;
            },
            SizedValue::Dword(v) => {
                self.regs[reg as usize] = v;
            },
        }
    }

    /// The value of width `size` that memory holds at `address`.
    pub fn get_mem(&self, address: u32, size: ValueSize) -> (r: Result<SizedValue, VMError>)
        ensures
            r == self@.get_mem(address, size),
    {
        reveal(Machine::get_mem);
        match size {
            ValueSize::Zero => Ok(SizedValue::Empty),
            ValueSize::Byte => Ok(SizedValue::Byte(self.memory.get_u8(address)?)),
            ValueSize::Word => Ok(SizedValue::Word(self.memory.get_u16(address)?)),
            ValueSize::Dword => Ok(SizedValue::Dword(self.memory.get_u32(address)?)),
            ValueSize::Qword => Ok(SizedValue::Qword(self.memory.get_u64(address)?)),
        }
    }

    /// Writes `value` to memory at `address`, as the guest does: below
    /// `WRITEABLE_MEMORY` the write fails.
    pub fn set_mem(&mut self, address: u32, value: SizedValue) -> (r: Result<(), VMError>)
        ensures
            (final(self)@, r) == old(self)@.set_mem(address, value),
    {
        reveal(Machine::set_mem);
        if address < WRITEABLE_MEMORY {
            return Err(VMError::WroteReadOnlyMemory(address));
        }
        match value {
            SizedValue::Empty => (),
            SizedValue::Byte(v) => {
                self.memory.set_u8(address, v)?;
            },
            SizedValue::Word(v) => {
                self.memory.set_u16(address, v)?;
            },
            SizedValue::Dword(v) => {
                self.memory.set_u32(address, v)?;
            },
            SizedValue::Qword(v) => {
                self.memory.set_u64(address, v)?;
            },
        };
        Ok(())
    }

    /// The address that a `[reg + offset]` or `[base + index * scale + offset]`
    /// location refers to.
    pub fn calculate_modrm_address(&self, arg: &ArgLocation) -> (r: u32)
        requires
            arg.wf(),
            *arg is ModRMAddress || *arg is SIBAddress,
        ensures
            r == self@.effective_address(*arg),
    {
        reveal(Machine::effective_address);
        match arg {
            ArgLocation::ModRMAddress { offset, reg, size: _ } => {
                let o: u64 = match offset {
                    Some(x) => *x as u64,
                    None => 0,
                };
                let r: u64 = match reg {
                    Some(x) => self.regs[*x as usize] as u64,
                    None => 0,
                };
                ((o + r) % 0x1_0000_0000) as u32
            },
            ArgLocation::SIBAddress { offset, base, scale, index, size: _ } => {
                let b: u64 = match base {
                    Some(x) => self.regs[*x as usize] as u64,
                    None => 0,
                };
                let ind: u64 = match index {
                    Some(x) => self.regs[*x as usize] as u64,
                    None => 0,
                };
                let s: u64 = *scale as u64;
                assert(ind * s <= 0xFFFF_FFFF * 0xFF) by (nonlinear_arith)
                    requires
                        ind <= 0xFFFF_FFFF,
                        s <= 0xFF,
                ;
                ((b + ind * s + *offset as u64) % 0x1_0000_0000) as u32
            },
            _ => 0,
        }
    }

    /// The value at a location.
    pub fn get_arg(&self, arg: ArgLocation) -> (r: Result<SizedValue, VMError>)
        requires
            arg.wf(),
        ensures
            r == self@.get_arg(arg),
    {
        reveal(Machine::get_arg);
        match arg {
            ArgLocation::Nowhere => Ok(SizedValue::Empty),
            ArgLocation::Immediate(v) => Ok(v),
            ArgLocation::Address(a, s) => self.get_mem(a, s),
            ArgLocation::RegisterValue(r, s) => Ok(self.get_reg(r, s)),
            ArgLocation::RegisterAddress(r, s) => self.get_mem(self.regs[r as usize], s),
            ArgLocation::ModRMAddress { offset: _, reg: _, size } => self.get_mem(
                self.calculate_modrm_address(&arg),
                size,
            ),
            ArgLocation::SIBAddress { offset: _, base: _, scale: _, index: _, size } => self.get_mem(
                self.calculate_modrm_address(&arg),
                size,
            ),
        }
    }

    /// The address that a location in memory refers to; memory is not
    /// read. A location that is not in memory is an encoding error.
    pub fn get_arg_lea(&self, arg: ArgLocation) -> (r: Result<u32, VMError>)
        requires
            arg.wf(),
        ensures
            r == self@.get_arg_lea(arg),
    {
        reveal(Machine::get_arg_lea);
        match arg {
            ArgLocation::Address(a, _) => Ok(a),
            ArgLocation::RegisterAddress(r, _) => Ok(self.regs[r as usize]),
            ArgLocation::ModRMAddress { offset: _, reg: _, size: _ } => Ok(
                self.calculate_modrm_address(&arg),
            ),
            ArgLocation::SIBAddress { offset: _, base: _, scale: _, index: _, size: _ } => Ok(
                self.calculate_modrm_address(&arg),
            ),
            _ => Err(VMError::InvalidOpcodeEncoding),
        }
    }

    /// Stores `v` at a location.
    pub fn set_arg(&mut self, arg: ArgLocation, v: SizedValue) -> (r: Result<(), VMError>)
        requires
            arg.wf(),
        ensures
            (final(self)@, r) == old(self)@.set_arg(arg, v),
    {
        reveal(Machine::set_arg);
        match arg {
            ArgLocation::Nowhere => Ok(()),
            ArgLocation::Immediate(_v) => Err(VMError::WroteUnwriteableArgument),
            ArgLocation::Address(a, s) => {
                let w = v.convert_size_zx(s)?;
                self.set_mem(a, w)
            },
            ArgLocation::RegisterValue(r, s) => {
                let w = v.convert_size_zx(s)?;
                self.set_reg(r, w);
                Ok(())
            },
            ArgLocation::RegisterAddress(r, s) => {
                let w = v.convert_size_zx(s)?;
                self.set_mem(self.regs[r as usize], w)
            },
            ArgLocation::ModRMAddress { offset: _, reg: _, size } => {
                let sized = v.convert_size_trunc(size);
                self.set_mem(self.calculate_modrm_address(&arg), sized)
            },
            ArgLocation::SIBAddress { offset: _, base: _, scale: _, index: _, size } => {
                let sized = v.convert_size_trunc(size);
                self.set_mem(self.calculate_modrm_address(&arg), sized)
            },
        }
    }

    /// Pops a word off the stack.
    pub fn pop16(&mut self) -> (r: Result<SizedValue, VMError>)
        ensures
            (final(self)@, r) == old(self)@.pop(ValueSize::Word),
    {
        let esp: u32 = self.regs[4];
        let v = self.get_mem(esp, ValueSize::Word)?;
        self.regs[4] = esp.wrapping_add(2);
        Ok(v)
    }

    /// Pops a double word off the stack.
    pub fn pop32(&mut self) -> (r: Result<SizedValue, VMError>)
        ensures
            (final(self)@, r) == old(self)@.pop(ValueSize::Dword),
    {
        let esp: u32 = self.regs[4];
        let v = self.get_mem(esp, ValueSize::Dword)?;
        self.regs[4] = esp.wrapping_add(4);
        Ok(v)
    }

    /// Pushes `val` onto the stack at the width of the native word.
    pub fn push_stack(&mut self, val: SizedValue, pipeline: &Pipeline) -> (r: Result<(), VMError>)
        ensures
            (final(self)@, r) == old(self)@.push(val, pipeline.size_override),
    {
        if pipeline.size_override {
            let v: u16 = val.u16_zx()?;
            let sp: u32 = self.regs[4].wrapping_sub(2);
            self.set_mem(sp, SizedValue::Word(v))?;
            self.regs[4] = sp;
        } else {
            let v: u32 = val.u32_zx()?;
            let sp: u32 = self.regs[4].wrapping_sub(4);
            self.set_mem(sp, SizedValue::Dword(v))?;
            self.regs[4] = sp;
        }
        Ok(())
    }

    /// The value of an 8-bit register.
    pub fn reg8(&self, r: Reg8) -> (v: u8)
        ensures
            SizedValue::Byte(v) == self@.get_reg(r.index(), ValueSize::Byte),
    {
        match self.get_reg(r.number(), ValueSize::Byte) {
            SizedValue::Byte(v) => v,
            _ => 0,
        }
    }

    /// The value of a 16-bit register.
    pub fn reg16(&self, r: Reg16) -> (v: u16)
        ensures
            v == self@.regs[r.index() as int] % 0x1_0000,
    {
        match self.get_reg(r.number(), ValueSize::Word) {
            SizedValue::Word(v) => v,
            _ => 0,
        }
    }

    /// The value of a 32-bit register.
    pub fn reg32(&self, r: Reg32) -> (v: u32)
        ensures
            v == self@.regs[r.index() as int],
    {
        match self.get_reg(r.number(), ValueSize::Dword) {
            SizedValue::Dword(v) => v,
            _ => 0,
        }
    }

    /// Writes an 8-bit register.
    pub fn set_reg8(&mut self, r: Reg8, v: u8)
        ensures
            final(self)@ == old(self)@.set_reg(r.index(), SizedValue::Byte(v)),
    {
        self.set_reg(r.number(), SizedValue::Byte(v));
    }

    /// Writes a 16-bit register.
    pub fn set_reg16(&mut self, r: Reg16, v: u16)
        ensures
            final(self)@ == old(self)@.set_reg(r.index(), SizedValue::Word(v)),
    {
        self.set_reg(r.number(), SizedValue::Word(v));
    }

    /// Writes a 32-bit register.
    pub fn set_reg32(&mut self, r: Reg32, v: u32)
        ensures
            final(self)@ == old(self)@.set_reg(r.index(), SizedValue::Dword(v)),
    {
        self.set_reg(r.number(), SizedValue::Dword(v));
    }
}

/// The number of slots of the pipeline. It makes no difference to what
/// the machine does, only to how fast it does it: with too few slots
/// decoding and executing take turns too often, with too many an
/// unpredictable instruction wastes too many empty ones.
pub const PIPELINE_SIZE: usize = 16;

/// What a cycle does after the handler of a slot has returned `r`: after
/// success the instruction pointer moves past the instruction and the
/// cycle goes on; after a halt the cycle ends with `true`; after a failure
/// the address of the instruction is noted and the cycle ends with the failure.
pub open spec fn concluded(m: Machine, p: Pipeline, r: Result<(), VMError>) -> (
    Machine,
    Option<Result<bool, VMError>>,
) {
    match r {
        Ok(()) => (Machine { eip: wrap32(m.eip + p.eip_size), ..m }, None),
        Err(VMError::InternalVMStop) => (m, Some(Ok(true))),
        Err(e) => (Machine { error_eip: m.eip, ..m }, Some(Err(e))),
    }
}

/// How far the execution of a pipeline got.
#[derive(PartialEq, Eq, Debug, Copy, Clone)]
pub enum Progress {
    /// The cycle has ended: with `false` after the last slot, with `true`
    /// after a halt, or with a failure
    Ended(Result<bool, VMError>),
    /// A slot with the handler of `int` is reached and paid: the
    /// hypervisor is to serve the interrupt `num` for the machine as it is
    Interrupt { num: u8, slot: usize },
}

/// What the slots from `from` on do to the machine when they are executed
/// in turn, up to the end of the cycle or to the first interrupt. Before a
/// slot is executed its cost is taken off the gas; where the gas does not
/// suffice, none is left and the cycle ends with `OutOfGas`, the slot not
/// being executed.
pub open spec fn run_slots(m: Machine, slots: Seq<Pipeline>, from: int) -> (Machine, Progress)
    decreases slots.len() - from,
{
    if from < 0 || from >= slots.len() {
        (m, Progress::Ended(Ok(false)))
    } else if m.gas_remaining < slots[from].gas_cost {
        (Machine { gas_remaining: 0, ..m }, Progress::Ended(Err(VMError::OutOfGas)))
    } else if slots[from].function == OpcodeFn::Interrupt && interrupt_number(
        paid(m, slots[from]),
        slots[from],
    ) is Ok {
        (
            paid(m, slots[from]),
            Progress::Interrupt {
                num: interrupt_number(paid(m, slots[from]), slots[from]).unwrap() as u8,
                slot: from as usize,
            },
        )
    } else {
        match concluded(
            handler_effect(paid(m, slots[from]), slots[from]).0,
            slots[from],
            handler_effect(paid(m, slots[from]), slots[from]).1,
        ) {
            (after, None) => run_slots(after, slots, from + 1),
            (after, Some(r)) => (after, Progress::Ended(r)),
        }
    }
}

/// The machine after the cost of a slot was taken off its gas.
pub open spec fn paid(m: Machine, slot: Pipeline) -> Machine {
    Machine { gas_remaining: (m.gas_remaining - slot.gas_cost) as u64, ..m }
}

/// What one cycle does to the machine with the pipeline `slots`, up to its
/// end or to the first interrupt: the pipeline is filled, and its slots
/// are executed. Where filling fails, the machine stays as it is.
pub open spec fn cycle_effect(
    m: Machine,
    table: Seq<OpcodeProperties>,
    slots: Seq<Pipeline>,
) -> (Machine, Progress) {
    match filled(m, table, slots).1 {
        Err(e) => (m, Progress::Ended(Err(e))),
        Ok(()) => run_slots(m, filled(m, table, slots).0, 0),
    }
}

/// What up to `cycles` cycles do to the machine, each with the pipeline
/// that the one before it has left, up to the first interrupt: they follow
/// each other until one ends with a halt or a failure. Where none does,
/// the answer is `false`.
pub open spec fn execution(
    m: Machine,
    table: Seq<OpcodeProperties>,
    slots: Seq<Pipeline>,
    cycles: nat,
) -> (Machine, Progress)
    decreases cycles,
{
    if cycles == 0 {
        (m, Progress::Ended(Ok(false)))
    } else {
        match cycle_effect(m, table, slots) {
            (after, Progress::Ended(Ok(false))) => execution(
                after,
                table,
                filled(m, table, slots).0,
                (cycles - 1) as nat,
            ),
            outcome => outcome,
        }
    }
}

/// The pipeline with which execution starts: sixteen slots that do nothing.
pub open spec fn fresh_pipeline() -> Seq<Pipeline> {
    Seq::new(PIPELINE_SIZE as nat, |i: int| Pipeline { eip_size: 1, ..Pipeline::empty() })
}

/// The sum of the costs of the slots from `from` on.
pub open spec fn slots_cost(slots: Seq<Pipeline>, from: int) -> int
    decreases slots.len() - from,
{
    if from < 0 || from >= slots.len() {
        0
    } else {
        slots[from].gas_cost + slots_cost(slots, from + 1)
    }
}

/// The gas never grows while slots are executed, and the costs stay as
/// they are. Where all slots are executed and none of them is a repeated
/// string instruction, whose steps are charged one by one, the gas is
/// less by exactly the sum of the costs of the slots.
#[verifier::rlimit(30)]
pub proof fn lemma_run_slots_gas(m: Machine, slots: Seq<Pipeline>, from: int)
    requires
        0 <= from,
    ensures
        run_slots(m, slots, from).0.gas_remaining <= m.gas_remaining,
        run_slots(m, slots, from).0.costs == m.costs,
        run_slots(m, slots, from).1 == Progress::Ended(Ok(false)) && (forall|i: int|
            from <= i < slots.len() ==> (#[trigger] slots[i]).function != OpcodeFn::Repe
                && slots[i].function != OpcodeFn::Repne) ==> run_slots(
            m,
            slots,
            from,
        ).0.gas_remaining == m.gas_remaining - slots_cost(slots, from),
    decreases slots.len() - from,
{
    if from < slots.len() && m.gas_remaining >= slots[from].gas_cost {
        lemma_handler_gas(paid(m, slots[from]), slots[from]);
        let step = concluded(
            handler_effect(paid(m, slots[from]), slots[from]).0,
            slots[from],
            handler_effect(paid(m, slots[from]), slots[from]).1,
        );
        if step.1 is None {
            lemma_run_slots_gas(step.0, slots, from + 1);
        }
    }
}

/// The gas never grows during a cycle, and the costs stay as they are.
pub proof fn lemma_cycle_gas(m: Machine, table: Seq<OpcodeProperties>, slots: Seq<Pipeline>)
    ensures
        cycle_effect(m, table, slots).0.gas_remaining <= m.gas_remaining,
        cycle_effect(m, table, slots).0.costs == m.costs,
{
    lemma_run_slots_gas(m, filled(m, table, slots).0, 0);
}

/// The gas never grows during execution, and the costs stay as they are.
pub proof fn lemma_execution_gas(
    m: Machine,
    table: Seq<OpcodeProperties>,
    slots: Seq<Pipeline>,
    cycles: nat,
)
    ensures
        execution(m, table, slots, cycles).0.gas_remaining <= m.gas_remaining,
        execution(m, table, slots, cycles).0.costs == m.costs,
    decreases cycles,
{
    if cycles > 0 {
        lemma_cycle_gas(m, table, slots);
        if cycle_effect(m, table, slots).1 == Progress::Ended(Ok(false)) {
            lemma_execution_gas(
                cycle_effect(m, table, slots).0,
                table,
                filled(m, table, slots).0,
                (cycles - 1) as nat,
            );
        }
    }
}

/// Running out of gas is atomic: where the gas does not suffice for the
/// slot that is next, the cycle ends with `OutOfGas`, no gas is left, and
/// all else is as it was before the slot; the instruction pointer is at
/// the instruction of the slot, of which nothing was executed.
pub proof fn lemma_out_of_gas_is_atomic(m: Machine, slots: Seq<Pipeline>, from: int)
    requires
        0 <= from < slots.len(),
        m.gas_remaining < slots[from].gas_cost,
    ensures
        run_slots(m, slots, from) == (
            Machine { gas_remaining: 0, ..m },
            Progress::Ended(Err(VMError::OutOfGas)),
        ),
{
}

/// A failure notes its instruction: where the cycle ends with a failure
/// other than `OutOfGas`, the address of the failing instruction, at which
/// the instruction pointer stays, is noted as the address of the error.
pub proof fn lemma_failure_notes_the_instruction(m: Machine, slots: Seq<Pipeline>, from: int)
    requires
        0 <= from,
    ensures
        run_slots(m, slots, from).1 matches Progress::Ended(Err(e)) ==> e == VMError::OutOfGas
            || run_slots(m, slots, from).0.error_eip == run_slots(m, slots, from).0.eip,
    decreases slots.len() - from,
{
    if from < slots.len() && m.gas_remaining >= slots[from].gas_cost {
        let step = concluded(
            handler_effect(paid(m, slots[from]), slots[from]).0,
            slots[from],
            handler_effect(paid(m, slots[from]), slots[from]).1,
        );
        if step.1 is None {
            lemma_failure_notes_the_instruction(step.0, slots, from + 1);
        }
    }
}

/// `hlt` halts cleanly: where the gas suffices for a slot with `hlt`, the
/// cycle ends with `true`, the slot is paid, and all else is as it was;
/// the instruction pointer is at the `hlt`.
pub proof fn lemma_hlt_halts(m: Machine, slots: Seq<Pipeline>, from: int)
    requires
        0 <= from < slots.len(),
        m.gas_remaining >= slots[from].gas_cost,
        slots[from].function == OpcodeFn::Hlt,
    ensures
        run_slots(m, slots, from) == (paid(m, slots[from]), Progress::Ended(Ok(true))),
{
}

impl VM {
    /// Ends the execution of a slot whose handler has returned `r`. Returns
    /// how the cycle ends, unless it goes on.
    pub fn conclude(&mut self, slot: &Pipeline, r: Result<(), VMError>) -> (end: Option<
        Result<bool, VMError>,
    >)
        ensures
            (final(self)@, end) == concluded(old(self)@, *slot, r),
            end != Some(Err::<bool, VMError>(VMError::InternalVMStop)),
    {
        match r {
            Ok(()) => {
                self.eip = self.eip.wrapping_add(slot.eip_size as u32);
                None
            },
            Err(VMError::InternalVMStop) => Some(Ok(true)),
            Err(e) => {
                self.error_eip = self.eip;
                Some(Err(e))
            },
        }
    }

    /// Executes the slots of a pipeline from `from` on, up to the end of
    /// the cycle or to the first interrupt, which is left to the caller:
    /// the hypervisor is not called. The gas never grows.
    #[verifier::rlimit(30)]
    pub fn run_pipeline<H: Hypervisor>(
        &mut self,
        pipeline: &[Pipeline],
        from: usize,
        hv: &mut H,
    ) -> (p: Progress)
        requires
            slots_wf(pipeline@),
        ensures
            (final(self)@, p) == run_slots(old(self)@, pipeline@, from as int),
            *final(hv) == *old(hv),
            p != Progress::Ended(Err::<bool, VMError>(VMError::InternalVMStop)),
            p matches Progress::Interrupt { num, slot } ==> from <= slot < pipeline@.len(),
            final(self)@.gas_remaining <= old(self)@.gas_remaining,
    {
        proof {
            lemma_run_slots_gas(self@, pipeline@, from as int);
        }
        let mut n: usize = from;
        while n < pipeline.len()
            invariant
                slots_wf(pipeline@),
                run_slots(self@, pipeline@, n as int) == run_slots(
                    old(self)@,
                    pipeline@,
                    from as int,
                ),
                from <= n,
                *hv == *old(hv),
                run_slots(old(self)@, pipeline@, from as int).0.gas_remaining
                    <= old(self)@.gas_remaining,
            decreases pipeline@.len() - n,
        {
            let slot: Pipeline = pipeline[n];
            if self.gas_remaining < slot.gas_cost {
                self.gas_remaining = 0;
                return Progress::Ended(Err(VMError::OutOfGas));
            }
            self.gas_remaining = self.gas_remaining - slot.gas_cost;
            let r = match slot.function {
                OpcodeFn::Interrupt => match read_interrupt_number(self, &slot) {
                    Ok(num) => {
                        return Progress::Interrupt { num: num, slot: n };
                    },
                    Err(e) => Err(e),
                },
                _ => dispatch(self, &slot, hv),
            };
            match self.conclude(&slot, r) {
                Some(end) => {
                    return Progress::Ended(end);
                },
                None => {},
            }
            n = n + 1;
        }
        Progress::Ended(Ok(false))
    }

    /// Executes one cycle: fills the pipeline and executes its slots.
    /// Returns `true` after a halt and `false` when the slots are used up.
    /// Up to the first interrupt the outcome is what `cycle_effect` says,
    /// and the gas has not grown; from there on it is up to the
    /// hypervisor, but the halt of `InternalVMStop` never comes out as a
    /// failure.
    #[verifier::rlimit(30)]
    pub fn cycle<H: Hypervisor>(
        &mut self,
        opcodes: &[OpcodeProperties],
        pipeline: &mut [Pipeline],
        hv: &mut H,
    ) -> (r: Result<bool, VMError>)
        requires
            entries_wf(opcodes@),
        ensures
            final(pipeline)@ == filled(old(self)@, opcodes@, old(pipeline)@).0,
            final(pipeline)@.len() == old(pipeline)@.len(),
            r != Err::<bool, VMError>(VMError::InternalVMStop),
            cycle_effect(old(self)@, opcodes@, old(pipeline)@).1 matches Progress::Ended(end) ==> r
                == end && final(self)@ == cycle_effect(old(self)@, opcodes@, old(pipeline)@).0
                && *final(hv) == *old(hv) && final(self)@.gas_remaining
                <= old(self)@.gas_remaining,
    {
        proof {
            lemma_cycle_gas(self@, opcodes@, pipeline@);
        }
        fill_pipeline(self, opcodes, pipeline)?;
        let ghost goal = run_slots(self@, pipeline@, 0);
        let mut from: usize = 0;
        loop
            invariant
                slots_wf(pipeline@),
                pipeline@ == filled(old(self)@, opcodes@, old(pipeline)@).0,
                pipeline@.len() == old(pipeline)@.len(),
                from <= pipeline@.len(),
                goal == cycle_effect(old(self)@, opcodes@, old(pipeline)@),
                goal.0.gas_remaining <= old(self)@.gas_remaining,
                goal.1 is Ended ==> run_slots(self@, pipeline@, from as int) == goal && *hv
                    == *old(hv),
            decreases pipeline@.len() - from,
        {
            match self.run_pipeline(pipeline, from, hv) {
                Progress::Ended(end) => {
                    return end;
                },
                Progress::Interrupt { num, slot } => {
                    let r = hv.interrupt(self, num);
                    match self.conclude(&pipeline[slot], r) {
                        Some(end) => {
                            return end;
                        },
                        None => {},
                    }
                    from = slot + 1;
                },
            }
        }
    }

    /// Executes the machine with the opcode table `opcodes` until it
    /// halts, which gives `true`, or fails; running out of gas is a
    /// failure after which execution can be resumed. No more than `cycles`
    /// cycles are executed: `false` says that they were used up. Up to the
    /// first interrupt the outcome is what `execution` says, and the gas
    /// has not grown.
    #[verifier::rlimit(30)]
    pub fn execute_cycles<H: Hypervisor>(
        &mut self,
        opcodes: &[OpcodeProperties],
        hv: &mut H,
        cycles: u64,
    ) -> (r: Result<bool, VMError>)
        requires
            entries_wf(opcodes@),
        ensures
            r != Err::<bool, VMError>(VMError::InternalVMStop),
            execution(old(self)@, opcodes@, fresh_pipeline(), cycles as nat).1 matches Progress::Ended(
                end,
            ) ==> r == end && final(self)@ == execution(
                old(self)@,
                opcodes@,
                fresh_pipeline(),
                cycles as nat,
            ).0 && *final(hv) == *old(hv) && final(self)@.gas_remaining
                <= old(self)@.gas_remaining,
    {
        proof {
            lemma_execution_gas(self@, opcodes@, fresh_pipeline(), cycles as nat);
        }
        let mut pipeline: Vec<Pipeline> = Vec::new();
        let mut k: usize = 0;
        while k < PIPELINE_SIZE
            invariant
                k <= PIPELINE_SIZE,
                pipeline@.len() == k,
                forall|i: int|
                    0 <= i < k ==> pipeline@[i] == (Pipeline { eip_size: 1, ..Pipeline::empty() }),
            decreases PIPELINE_SIZE - k,
        {
            pipeline.push(Pipeline::default());
            k = k + 1;
        }
        assert(pipeline@ =~= fresh_pipeline());
        let ghost goal = execution(self@, opcodes@, fresh_pipeline(), cycles as nat);
        let mut left: u64 = cycles;
        while left > 0
            invariant
                pipeline@.len() == PIPELINE_SIZE,
                entries_wf(opcodes@),
                goal.1 is Ended ==> execution(self@, opcodes@, pipeline@, left as nat) == goal
                    && *hv == *old(hv),
                goal == execution(old(self)@, opcodes@, fresh_pipeline(), cycles as nat),
                goal.0.gas_remaining <= old(self)@.gas_remaining,
            decreases left,
        {
            if self.cycle(opcodes, pipeline.as_mut_slice(), hv)? {
                return Ok(true);
            }
            left = left - 1;
        }
        Ok(false)
    }

    /// Executes the machine with the opcode table of the supported subset
    /// until it halts, which gives `true`, or fails; running out of gas is
    /// a failure after which execution can be resumed. After as many cycles
    /// as a `u64` can count, `false` says that they were used up. Up to the
    /// first interrupt the outcome is what `execution` says, and the gas
    /// has not grown.
    pub fn execute<H: Hypervisor>(&mut self, hv: &mut H) -> (r: Result<bool, VMError>)
        ensures
            r != Err::<bool, VMError>(VMError::InternalVMStop),
            execution(old(self)@, subset_table(), fresh_pipeline(), u64::MAX as nat).1 matches Progress::Ended(
                end,
            ) ==> r == end && final(self)@ == execution(
                old(self)@,
                subset_table(),
                fresh_pipeline(),
                u64::MAX as nat,
            ).0 && *final(hv) == *old(hv) && final(self)@.gas_remaining
                <= old(self)@.gas_remaining,
    {
        let opcodes = opcode_table();
        self.execute_cycles(opcodes.as_slice(), hv, u64::MAX)
    }

    /// Copies `data` into memory at `address`, as the loader does: below
    /// `WRITEABLE_MEMORY` too.
    pub fn copy_into_memory(&mut self, address: u32, data: &[u8]) -> (r: Result<(), VMError>)
        ensures
            final(self)@ == (Machine {
                memory: spec_store(old(self)@.memory, address, data@).0,
                ..old(self)@
            }),
            r == spec_store(old(self)@.memory, address, data@).1,
    {
        match self.memory.get_memory(address) {
            Err(VMError::ReadBadMemory(a)) => {
                return Err(VMError::WroteBadMemory(a));
            },
            Err(e) => {
                return Err(e);
            },
            Ok(m) => {
                if m.len() < data.len() {
                    let last: u128 = (address as u128 + data.len() as u128 - 1) % 0x1_0000_0000;
                    return Err(VMError::WroteBadMemory(last as u32));
                }
            },
        }
        let ghost region = self@.memory[region_base(address)];
        let ghost offset = region_offset(address);
        let m = self.memory.get_mut_memory(address)?;
        let mut i: usize = 0;
        while i < data.len()
            invariant
                i <= data@.len(),
                data@.len() <= m@.len(),
                m@.len() == region.len() - offset,
                forall|j: int| 0 <= j < i ==> m@[j] == data@[j],
                forall|j: int| i <= j < m@.len() ==> m@[j] == region[offset + j],
            decreases data@.len() - i,
        {
            m[i] = data[i];
            i = i + 1;
        }
        assert(region.take(offset) + m@ =~= region.take(offset) + data@ + region.skip(
            offset + data@.len(),
        ));
        Ok(())
    }

    /// The `size` bytes of memory at `address`.
    pub fn copy_from_memory(&mut self, address: u32, size: u32) -> (r: Result<&[u8], VMError>)
        ensures
            final(self)@ == old(self)@,
            match r {
                Ok(s) => spec_sized_memory(old(self)@.memory, address, size as int, false) == Ok::<
                    Seq<u8>,
                    VMError,
                >(s@),
                Err(e) => spec_sized_memory(old(self)@.memory, address, size as int, false)
                    == Err::<Seq<u8>, VMError>(e),
            },
    {
        self.memory.get_sized_memory(address, size)
    }
}

} // verus!
