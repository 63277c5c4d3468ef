use vstd::prelude::*;
use crate::structs::{SizedValue, ValueSize, MAX_ARGS};
use crate::ops::undefined_effect;
use crate::pipeline::Pipeline;
use crate::vm::{GasCost, Hypervisor, VMError, VM};


verus! {

/// The handler of an instruction. The dispatcher calls the function of the
/// same name in `ops`.
#[derive(PartialEq, Eq, Copy, Clone, Debug)]
pub enum OpcodeFn {
    Nop,
    OpUndefined,
    Interrupt,
    Mov,
    Push,
    Pop,
    Xchg,
    Ret,
    CallRel,
    CallAbs,
    JmpRel,
    JmpAbs,
    JmpConditionalEcxIsZero,
    Jcc,
    Div8bit,
    DivNativeWord,
    Idiv8bit,
    IdivNativeWord,
    Mul8bit,
    MulNativeWord,
    Imul1Arg8bit,
    Imul1NativeWord,
    Imul2NativeWord,
    Imul3NativeWord,
    Shl8bit,
    ShlNativeWord,
    Shr8bit,
    ShrNativeWord,
    Add8bit,
    AddNativeWord,
    Hlt,
    Adc8bit,
    AdcNativeWord,
    Increment8bit,
    IncrementNativeWord,
    Sub8bit,
    SubNativeWord,
    Sbb8bit,
    SbbNativeWord,
    Decrement8bit,
    DecrementNativeWord,
    Cmp8bit,
    CmpNativeWord,
    Test8bit,
    TestNativeWord,
    And8bit,
    AndNativeWord,
    Or8bit,
    OrNativeWord,
    Xor8bit,
    XorNativeWord,
    Not8bit,
    NotNativeWord,
    Neg8bit,
    NegNativeWord,
    Setcc8bit,
    CmovccNative,
    Lea,
    Movzx8bit,
    Movzx16bit,
    Movsx8bit,
    Movsx16bit,
    Bswap,
    BitTest,
    BitTestSet,
    BitTestReset,
    BitTestComplement,
    BitScanForward,
    BitScanReverse,
    Repe,
    Repne,
    MovsNativeWord,
    Movsb,
    CmpsNativeWord,
    Cmpsb,
    ScanStringNativeWord,
    ScanStringByte,
    StoreStringNativeWord,
    StoreStringByte,
    LoadStringNativeWord,
    LoadStringByte,
    SetDirection,
    ClearDirection,
    CbwCwde,
    CdqCwd,
    Xadd8bit,
    XaddNativeWord,
    Cmpxchg8bit,
    CmpxchgNativeWord,
    Leave,
    Enter,
}

/// Where the decoder finds an argument of an instruction.
#[derive(PartialEq, Eq, Copy, Clone, Debug)]
pub enum ArgSource {
    /// There is no argument
    Unused,
    /// The argument that the Mod R/M byte describes: a register or one of
    /// the addressing forms
    ModRM,
    /// The register that the `reg` field of the Mod R/M byte names (`/r`)
    ModRMReg,
    /// A value in the instruction stream
    ImmediateValue,
    /// An address in the instruction stream (an offset)
    ImmediateAddress,
    /// The register that the low three bits of the opcode name (`+r`)
    RegisterSuffix,
    /// A value in the instruction stream that is the distance of a jump, so
    /// that the pipeline can follow the jump
    JumpRel,
    /// A value that the opcode fixes, as in `rol rm8, 1`
    Literal(SizedValue),
    /// A register that the opcode fixes, as in `mov eax, offs32`
    HardcodedRegister(u8),
}

/// The width of an argument as an opcode declares it: fixed, or that of the
/// native word, which is a double word unless an operand size prefix makes it a word.
#[derive(PartialEq, Eq, Copy, Clone, Debug)]
pub enum OpcodeValueSize {
    Fixed(ValueSize),
    NativeWord,
}

impl OpcodeValueSize {
    /// The width that is meant, given whether an operand size prefix is present.
    pub open spec fn fixed(self, size_override: bool) -> ValueSize {
        match self {
            OpcodeValueSize::Fixed(f) => f,
            OpcodeValueSize::NativeWord => if size_override {
                ValueSize::Word
            } else {
                ValueSize::Dword
            },
        }
    }

    /// The width that is meant, given whether an operand size prefix is present.
    pub fn to_fixed(&self, size_override: bool) -> (r: ValueSize)
        ensures
            r == self.fixed(size_override),
    {
        match self {
            OpcodeValueSize::Fixed(f) => *f,
            OpcodeValueSize::NativeWord => {
                if size_override {
                    ValueSize::Word
                } else {
                    ValueSize::Dword
                }
            },
        }
    }
}

/// What the pipeline does after it has decoded an instruction.
#[derive(PartialEq, Eq, Copy, Clone, Debug)]
pub enum PipelineBehavior {
    /// It goes on with the instruction that follows
    Sequential,
    /// The instruction jumps by a distance that it holds itself: the
    /// pipeline can tell where to
    RelativeJump,
    /// The instruction may change where execution goes on in a way that
    /// cannot be told beforehand: filling stops, and a surcharge is due
    Unpredictable,
    /// As `Unpredictable`, without the surcharge
    UnpredictableNoGas,
}

/// One opcode: its handler, and what the decoder needs to know of its arguments.
#[derive(Copy, Clone, Debug)]
pub struct Opcode {
    pub function: OpcodeFn,
    pub arg_size: [OpcodeValueSize; MAX_ARGS],
    pub arg_source: [ArgSource; MAX_ARGS],
    pub gas_cost: GasCost,
    pub pipeline_behavior: PipelineBehavior,
    pub defined: bool,
}

impl Opcode {
    /// Every register that the opcode fixes is one of the eight.
    pub open spec fn wf(self) -> bool {
        forall|n: int|
            0 <= n < 3 ==> (#[trigger] self.arg_source@[n] matches ArgSource::HardcodedRegister(r)
                ==> r < 8)
    }

    /// The opcode that stands for all that are not defined.
    pub open spec fn undefined() -> Opcode {
        Opcode {
            function: OpcodeFn::OpUndefined,
            arg_size: [
                OpcodeValueSize::Fixed(ValueSize::Zero),
                OpcodeValueSize::Fixed(ValueSize::Zero),
                OpcodeValueSize::Fixed(ValueSize::Zero),
            ],
            arg_source: [ArgSource::Unused, ArgSource::Unused, ArgSource::Unused],
            gas_cost: GasCost::Free,
            pipeline_behavior: PipelineBehavior::Unpredictable,
            defined: false,
        }
    }
}

impl Default for Opcode {
    /// An opcode that is not defined. It counts as unpredictable, so that
    /// the pipeline stops at it.
    fn default() -> (r: Opcode)
        ensures
            r == Opcode::undefined(),
            r.wf(),
    {
        Opcode {
            function: OpcodeFn::OpUndefined,
            arg_size: [
                OpcodeValueSize::Fixed(ValueSize::Zero),
                OpcodeValueSize::Fixed(ValueSize::Zero),
                OpcodeValueSize::Fixed(ValueSize::Zero),
            ],
            arg_source: [ArgSource::Unused, ArgSource::Unused, ArgSource::Unused],
            gas_cost: GasCost::Free,
            pipeline_behavior: PipelineBehavior::Unpredictable,
            defined: false,
        }
    }
}

/// All that one opcode byte can mean. Where the byte stands for a group,
/// the `reg` field of the Mod R/M byte picks one of the eight opcodes; where
/// it takes `reg` as an argument, all eight are the same; else only the
/// first counts.
#[derive(Copy, Clone, Debug)]
pub struct OpcodeProperties {
    /// Whether a Mod R/M byte follows the opcode byte
    pub has_modrm: bool,
    /// Whether anything was defined for this byte
    pub defined: bool,
    pub opcodes: [Opcode; 8],
}

impl OpcodeProperties {
    /// Every opcode of the eight is well-formed.
    pub open spec fn wf(self) -> bool {
        forall|i: int| 0 <= i < 8 ==> (#[trigger] self.opcodes@[i]).wf()
    }

    /// The properties of an opcode byte for which nothing is defined.
    pub open spec fn undefined() -> OpcodeProperties {
        OpcodeProperties {
            has_modrm: false,
            defined: false,
            opcodes: [
                Opcode::undefined(),
                Opcode::undefined(),
                Opcode::undefined(),
                Opcode::undefined(),
                Opcode::undefined(),
                Opcode::undefined(),
                Opcode::undefined(),
                Opcode::undefined(),
            ],
        }
    }
}

impl Default for OpcodeProperties {
    fn default() -> (r: OpcodeProperties)
        ensures
            r == OpcodeProperties::undefined(),
            r.wf(),
    {
        let o = Opcode::default();
        OpcodeProperties { has_modrm: false, defined: false, opcodes: [o, o, o, o, o, o, o, o] }
    }
}

/// The size of an opcode table: one entry for each opcode byte, and one
/// more for each that follows the escape byte 0x0F.
pub const OPCODE_TABLE_SIZE: usize = 0x200;

/// Every entry of a table is well-formed.
pub open spec fn entries_wf(table: Seq<OpcodeProperties>) -> bool {
    forall|i: int| 0 <= i < table.len() ==> (#[trigger] table[i]).wf()
}

/// A table has an entry for every opcode, and every entry is well-formed.
pub open spec fn table_wf(table: Seq<OpcodeProperties>) -> bool {
    &&& table.len() >= OPCODE_TABLE_SIZE
    &&& entries_wf(table)
}

/// The handler of `nop`, and of the empty slots of the pipeline: it does nothing.
pub fn nop<H: Hypervisor>(_vm: &mut VM, _pipeline: &Pipeline, _hv: &mut H) -> (r: Result<
    (),
    VMError,
>)
    ensures
        final(_vm)@ == old(_vm)@,
        r == Ok::<(), VMError>(()),
        *final(_hv) == *old(_hv),
{
    Ok(())
}

/// The handler of every opcode that is not defined: it fails with the byte
/// at the instruction pointer, the first of the instruction.
pub fn op_undefined<H: Hypervisor>(vm: &mut VM, _pipeline: &Pipeline, _hv: &mut H) -> (r: Result<
    (),
    VMError,
>)
    ensures
        (final(vm)@, r) == undefined_effect(old(vm)@),
        *final(_hv) == *old(_hv),
{
    Err(VMError::InvalidOpcode(vm.get_mem(vm.eip, ValueSize::Byte)?.u8_exact()?))
}

/// All that is said of an opcode while it is being defined: a helper that
/// gives sane defaults and saves typing.
pub struct OpcodeDefiner {
    /// The opcode byte, or the first of them where there are several
    pub opcode: u8,
    /// The number of opcode bytes in a row that are defined alike
    pub len: usize,
    /// Whether the opcode follows the escape byte 0x0F
    pub two_byte: bool,
    /// The value of the `reg` field of the Mod R/M byte that picks the
    /// opcode, where the opcode byte stands for a group
    pub group: Option<u8>,
    pub gas_level: Option<GasCost>,
    pub args: Vec<(ArgSource, OpcodeValueSize)>,
    pub function: Option<OpcodeFn>,
    pub jump: Option<PipelineBehavior>,
    pub has_modrm: bool,
    /// Whether the low three bits of the opcode byte name a register, so
    /// that eight opcode bytes are defined
    pub reg_suffix: bool,
}

/// A definition as a mathematical value: what the contracts speak of.
pub struct Definition {
    pub opcode: u8,
    pub len: usize,
    pub two_byte: bool,
    pub group: Option<u8>,
    pub gas_level: Option<GasCost>,
    pub args: Seq<(ArgSource, OpcodeValueSize)>,
    pub function: Option<OpcodeFn>,
    pub jump: Option<PipelineBehavior>,
    pub has_modrm: bool,
    pub reg_suffix: bool,
}

impl View for OpcodeDefiner {
    type V = Definition;

    open spec fn view(&self) -> Definition {
        Definition {
            opcode: self.opcode,
            len: self.len,
            two_byte: self.two_byte,
            group: self.group,
            gas_level: self.gas_level,
            args: self.args@,
            function: self.function,
            jump: self.jump,
            has_modrm: self.has_modrm,
            reg_suffix: self.reg_suffix,
        }
    }
}

impl Definition {
    /// The definition of `len` opcodes in a row, from `opcode` on, of which
    /// nothing else is said yet.
    pub open spec fn opcodes(opcode: u8, len: usize) -> Definition {
        Definition {
            opcode: opcode,
            len: len,
            two_byte: false,
            group: None,
            gas_level: None,
            args: Seq::empty(),
            function: None,
            jump: None,
            has_modrm: false,
            reg_suffix: false,
        }
    }

    /// The definition of the opcode `opcode`, of which nothing else is said yet.
    pub open spec fn opcode(opcode: u8) -> Definition {
        Definition::opcodes(opcode, 1)
    }

    /// The definition with the opcode after the escape byte 0x0F.
    pub open spec fn is_two_byte_op(self) -> Definition {
        Definition { two_byte: true, ..self }
    }

    /// The definition as one of a group.
    pub open spec fn is_group(self, group: u8) -> Definition {
        Definition { group: Some(group), has_modrm: true, ..self }
    }

    /// The definition with its handler.
    pub open spec fn calls(self, function: OpcodeFn) -> Definition {
        Definition { function: Some(function), ..self }
    }

    /// The definition with one more argument. An argument from the Mod R/M
    /// byte gives the opcode such a byte, and one from the low bits of the
    /// opcode byte makes the definition one of eight opcode bytes.
    pub open spec fn with_arg(self, source: ArgSource, size: OpcodeValueSize) -> Definition {
        Definition {
            args: self.args.push((source, size)),
            has_modrm: self.has_modrm || source == ArgSource::ModRMReg || source
                == ArgSource::ModRM,
            reg_suffix: self.reg_suffix || source == ArgSource::RegisterSuffix,
            ..self
        }
    }

    /// The definition of an opcode that jumps by a distance it holds itself.
    pub open spec fn is_jump(self) -> Definition {
        Definition { jump: Some(PipelineBehavior::RelativeJump), ..self }
    }

    /// The definition of an opcode that is unpredictable.
    pub open spec fn is_unpredictable(self) -> Definition {
        Definition { jump: Some(PipelineBehavior::Unpredictable), ..self }
    }

    /// The definition of an opcode that is unpredictable without a surcharge.
    pub open spec fn is_unpredictable_no_gas(self) -> Definition {
        Definition { jump: Some(PipelineBehavior::UnpredictableNoGas), ..self }
    }

    /// The definition with its gas tier.
    pub open spec fn with_gas(self, gas: GasCost) -> Definition {
        Definition { gas_level: Some(gas), ..self }
    }

    /// The definition with one more argument, as the method of the same
    /// name of `OpcodeDefiner` declares it.
    pub open spec fn with_rm8(self) -> Definition {
        self.with_arg(ArgSource::ModRM, OpcodeValueSize::Fixed(ValueSize::Byte))
    }

    /// The definition with one more argument, as the method of the same
    /// name of `OpcodeDefiner` declares it.
    pub open spec fn with_rm16(self) -> Definition {
        self.with_arg(ArgSource::ModRM, OpcodeValueSize::Fixed(ValueSize::Word))
    }

    /// The definition with one more argument, as the method of the same
    /// name of `OpcodeDefiner` declares it.
    pub open spec fn with_rm32(self) -> Definition {
        self.with_arg(ArgSource::ModRM, OpcodeValueSize::Fixed(ValueSize::Dword))
    }

    /// The definition with one more argument, as the method of the same
    /// name of `OpcodeDefiner` declares it.
    pub open spec fn with_rmw(self) -> Definition {
        self.with_arg(ArgSource::ModRM, OpcodeValueSize::NativeWord)
    }

    /// The definition with one more argument, as the method of the same
    /// name of `OpcodeDefiner` declares it.
    pub open spec fn with_rm_regw(self) -> Definition {
        self.with_arg(ArgSource::ModRMReg, OpcodeValueSize::NativeWord)
    }

    /// The definition with one more argument, as the method of the same
    /// name of `OpcodeDefiner` declares it.
    pub open spec fn with_rm_reg16(self) -> Definition {
        self.with_arg(ArgSource::ModRMReg, OpcodeValueSize::Fixed(ValueSize::Word))
    }

    /// The definition with one more argument, as the method of the same
    /// name of `OpcodeDefiner` declares it.
    pub open spec fn with_rm_reg32(self) -> Definition {
        self.with_arg(ArgSource::ModRMReg, OpcodeValueSize::Fixed(ValueSize::Dword))
    }

    /// The definition with one more argument, as the method of the same
    /// name of `OpcodeDefiner` declares it.
    pub open spec fn with_rm_reg8(self) -> Definition {
        self.with_arg(ArgSource::ModRMReg, OpcodeValueSize::Fixed(ValueSize::Byte))
    }

    /// The definition with one more argument, as the method of the same
    /// name of `OpcodeDefiner` declares it.
    pub open spec fn with_imm8(self) -> Definition {
        self.with_arg(ArgSource::ImmediateValue, OpcodeValueSize::Fixed(ValueSize::Byte))
    }

    /// The definition with one more argument, as the method of the same
    /// name of `OpcodeDefiner` declares it.
    pub open spec fn with_imm16(self) -> Definition {
        self.with_arg(ArgSource::ImmediateValue, OpcodeValueSize::Fixed(ValueSize::Word))
    }

    /// The definition with one more argument, as the method of the same
    /// name of `OpcodeDefiner` declares it.
    pub open spec fn with_immw(self) -> Definition {
        self.with_arg(ArgSource::ImmediateValue, OpcodeValueSize::NativeWord)
    }

    /// The definition with one more argument, as the method of the same
    /// name of `OpcodeDefiner` declares it.
    pub open spec fn with_offs8(self) -> Definition {
        self.with_arg(ArgSource::ImmediateAddress, OpcodeValueSize::Fixed(ValueSize::Byte))
    }

    /// The definition with one more argument, as the method of the same
    /// name of `OpcodeDefiner` declares it.
    pub open spec fn with_offsw(self) -> Definition {
        self.with_arg(ArgSource::ImmediateAddress, OpcodeValueSize::NativeWord)
    }

    /// The definition with one more argument, as the method of the same
    /// name of `OpcodeDefiner` declares it.
    pub open spec fn with_suffix_reg8(self) -> Definition {
        self.with_arg(ArgSource::RegisterSuffix, OpcodeValueSize::Fixed(ValueSize::Byte))
    }

    /// The definition with one more argument, as the method of the same
    /// name of `OpcodeDefiner` declares it.
    pub open spec fn with_suffix_regw(self) -> Definition {
        self.with_arg(ArgSource::RegisterSuffix, OpcodeValueSize::NativeWord)
    }

    /// The definition with one more argument, as the method of the same
    /// name of `OpcodeDefiner` declares it.
    pub open spec fn with_suffix_reg32(self) -> Definition {
        self.with_arg(ArgSource::RegisterSuffix, OpcodeValueSize::Fixed(ValueSize::Dword))
    }

    /// The source of argument `n`: as it was declared, and none where
    /// fewer arguments were declared.
    pub open spec fn source(self, n: int) -> ArgSource {
        if n < self.args.len() {
            self.args[n].0
        } else {
            ArgSource::Unused
        }
    }

    /// The width of argument `n`: as it was declared, and none where fewer
    /// arguments were declared.
    pub open spec fn width(self, n: int) -> OpcodeValueSize {
        if n < self.args.len() {
            self.args[n].1
        } else {
            OpcodeValueSize::Fixed(ValueSize::Zero)
        }
    }

    /// The opcode that is defined. The gas tier is `Low` and the pipeline
    /// goes on with the next instruction unless something else was said.
    pub open spec fn defined_opcode(self) -> Opcode {
        Opcode {
            function: self.function.unwrap(),
            arg_size: [self.width(0), self.width(1), self.width(2)],
            arg_source: [self.source(0), self.source(1), self.source(2)],
            gas_cost: match self.gas_level {
                Some(g) => g,
                None => GasCost::Low,
            },
            pipeline_behavior: match self.jump {
                Some(j) => j,
                None => PipelineBehavior::Sequential,
            },
            defined: true,
        }
    }

    /// The place in the table of the first opcode byte that is defined.
    pub open spec fn first_key(self) -> int {
        if self.two_byte {
            self.opcode + 0x100
        } else {
            self.opcode as int
        }
    }

    /// The number of opcode bytes that are defined.
    pub open spec fn key_count(self) -> int {
        if self.reg_suffix {
            8
        } else {
            self.len as int
        }
    }

    /// Whether the entry at `key` is one of those that are defined.
    pub open spec fn covers(self, key: int) -> bool {
        self.first_key() <= key < self.first_key() + self.key_count()
    }

    /// Whether opcode `j` of the eight of an entry is defined: with a
    /// group only the one of the group, without a Mod R/M byte only the
    /// first, else all.
    pub open spec fn covers_cell(self, j: int) -> bool {
        match self.group {
            Some(g) => self.has_modrm && j == g,
            None => if self.has_modrm {
                0 <= j < 8
            } else {
                j == 0
            },
        }
    }

    /// Whether the entry at `key` is left as it is: the entry of 0x90,
    /// once it is defined, so that `nop` stays among the `xchg` with EAX
    /// that surround it.
    pub open spec fn skips(self, table: Seq<OpcodeProperties>, key: int) -> bool {
        key == 0x90 && table[key].defined
    }

    /// The definition is complete and consistent: it names a handler, no
    /// more than three arguments, a group below 8 and registers below 8,
    /// and the opcode bytes it defines are all bytes of one table; with a
    /// register in the opcode byte it names one opcode byte only.
    pub open spec fn wf(self) -> bool {
        &&& self.len >= 1
        &&& self.reg_suffix ==> self.len == 1
        &&& self.function is Some
        &&& self.args.len() <= 3
        &&& self.group matches Some(g) ==> g < 8
        &&& self.opcode + self.key_count() <= 0x100
        &&& forall|n: int|
            0 <= n < self.args.len() ==> (#[trigger] self.args[n].0 matches ArgSource::HardcodedRegister(
                r,
            ) ==> r < 8)
    }

    /// The definition can go into the table: it is well-formed, the table
    /// has the entries, and nothing that the definition defines is defined
    /// in the table yet. An entry that is defined already can take a
    /// further opcode only if it has a Mod R/M byte.
    pub open spec fn applicable(self, table: Seq<OpcodeProperties>) -> bool {
        &&& self.wf()
        &&& self.first_key() + self.key_count() <= table.len()
        &&& forall|key: int| #![trigger table[key]]
            self.covers(key) && !self.skips(table, key) ==> {
                &&& table[key].defined ==> table[key].has_modrm
                &&& forall|j: int|
                    0 <= j < 8 && self.covers_cell(j) ==> !(#[trigger] table[key].opcodes@[j]).defined
            }
    }

    /// Opcode `j` of an entry after the definition went into it.
    pub open spec fn cell_after(self, entry: OpcodeProperties, j: int) -> Opcode {
        if self.covers_cell(j) {
            self.defined_opcode()
        } else {
            entry.opcodes@[j]
        }
    }

    /// An entry after the definition went into it.
    pub open spec fn entry_after(self, entry: OpcodeProperties) -> OpcodeProperties {
        OpcodeProperties {
            has_modrm: self.has_modrm,
            defined: true,
            opcodes: [
                self.cell_after(entry, 0),
                self.cell_after(entry, 1),
                self.cell_after(entry, 2),
                self.cell_after(entry, 3),
                self.cell_after(entry, 4),
                self.cell_after(entry, 5),
                self.cell_after(entry, 6),
                self.cell_after(entry, 7),
            ],
        }
    }

    /// The table after the definition went into it.
    pub open spec fn table_after(self, table: Seq<OpcodeProperties>) -> Seq<OpcodeProperties> {
        Seq::new(
            table.len(),
            |key: int|
                if self.covers(key) && !self.skips(table, key) {
                    self.entry_after(table[key])
                } else {
                    table[key]
                },
        )
    }

}

impl OpcodeDefiner {
    /// The opcode follows the escape byte 0x0F.
    pub fn is_two_byte_op(&mut self) -> (r: &mut OpcodeDefiner)
        ensures
            r@ == old(self)@.is_two_byte_op(),
            *final(self) == *final(r),
    {
        self.two_byte = true;
        self
    }

    /// The opcode is the one of its group that the value `group` of the
    /// `reg` field of the Mod R/M byte picks. To define `0xFF /0`, say
    /// `define_opcode(0xFF).is_group(0)`.
    pub fn is_group(&mut self, group: u8) -> (r: &mut OpcodeDefiner)
        ensures
            r@ == old(self)@.is_group(group),
            *final(self) == *final(r),
    {
        self.group = Some(group);
        self.has_modrm = true;
        self
    }

    /// Names the handler of the opcode.
    pub fn calls(&mut self, function: OpcodeFn) -> (r: &mut OpcodeDefiner)
        ensures
            r@ == old(self)@.calls(function),
            *final(self) == *final(r),
    {
        self.function = Some(function);
        self
    }

    /// Declares the next argument of the opcode. An argument from the Mod
    /// R/M byte gives the opcode such a byte, and one from the low bits of
    /// the opcode byte makes the definition one of eight opcode bytes.
    pub fn with_arg(&mut self, source: ArgSource, size: OpcodeValueSize) -> (r: &mut OpcodeDefiner)
        ensures
            r@ == old(self)@.with_arg(source, size),
            *final(self) == *final(r),
    {
        match source {
            ArgSource::ModRMReg | ArgSource::ModRM => {
                self.has_modrm = true;
            },
            ArgSource::RegisterSuffix => {
                self.reg_suffix = true;
            },
            _ => {},
        }
        self.args.push((source, size));
        self
    }

    /// The opcode jumps by a distance that it holds itself.
    pub fn is_jump(&mut self) -> (r: &mut OpcodeDefiner)
        ensures
            r@ == old(self)@.is_jump(),
            *final(self) == *final(r),
    {
        self.jump = Some(PipelineBehavior::RelativeJump);
        self
    }

    /// The opcode is unpredictable: the pipeline stops at it.
    pub fn is_unpredictable(&mut self) -> (r: &mut OpcodeDefiner)
        ensures
            r@ == old(self)@.is_unpredictable(),
            *final(self) == *final(r),
    {
        self.jump = Some(PipelineBehavior::Unpredictable);
        self
    }

    /// The opcode is unpredictable, but no surcharge is due for that.
    pub fn is_unpredictable_no_gas(&mut self) -> (r: &mut OpcodeDefiner)
        ensures
            r@ == old(self)@.is_unpredictable_no_gas(),
            *final(self) == *final(r),
    {
        self.jump = Some(PipelineBehavior::UnpredictableNoGas);
        self
    }

    /// Sets the gas tier of the opcode.
    pub fn with_gas(&mut self, gas: GasCost) -> (r: &mut OpcodeDefiner)
        ensures
            r@ == old(self)@.with_gas(gas),
            *final(self) == *final(r),
    {
        self.gas_level = Some(gas);
        self
    }

    /// The next argument is the one of the Mod R/M byte, a byte.
    pub fn with_rm8(&mut self) -> (r: &mut OpcodeDefiner)
        ensures
            r@ == old(self)@.with_rm8(),
            *final(self) == *final(r),
    {
        self.with_arg(ArgSource::ModRM, OpcodeValueSize::Fixed(ValueSize::Byte))
    }

    /// The next argument is the one of the Mod R/M byte, a word.
    pub fn with_rm16(&mut self) -> (r: &mut OpcodeDefiner)
        ensures
            r@ == old(self)@.with_rm16(),
            *final(self) == *final(r),
    {
        self.with_arg(ArgSource::ModRM, OpcodeValueSize::Fixed(ValueSize::Word))
    }

    /// The next argument is the one of the Mod R/M byte, a double word.
    pub fn with_rm32(&mut self) -> (r: &mut OpcodeDefiner)
        ensures
            r@ == old(self)@.with_rm32(),
            *final(self) == *final(r),
    {
        self.with_arg(ArgSource::ModRM, OpcodeValueSize::Fixed(ValueSize::Dword))
    }

    /// The next argument is the one of the Mod R/M byte, a native word.
    pub fn with_rmw(&mut self) -> (r: &mut OpcodeDefiner)
        ensures
            r@ == old(self)@.with_rmw(),
            *final(self) == *final(r),
    {
        self.with_arg(ArgSource::ModRM, OpcodeValueSize::NativeWord)
    }

    /// The next argument is the register of the `reg` field, a native word.
    pub fn with_rm_regw(&mut self) -> (r: &mut OpcodeDefiner)
        ensures
            r@ == old(self)@.with_rm_regw(),
            *final(self) == *final(r),
    {
        self.with_arg(ArgSource::ModRMReg, OpcodeValueSize::NativeWord)
    }

    /// The next argument is the register of the `reg` field, a word.
    pub fn with_rm_reg16(&mut self) -> (r: &mut OpcodeDefiner)
        ensures
            r@ == old(self)@.with_rm_reg16(),
            *final(self) == *final(r),
    {
        self.with_arg(ArgSource::ModRMReg, OpcodeValueSize::Fixed(ValueSize::Word))
    }

    /// The next argument is the register of the `reg` field, a double word.
    pub fn with_rm_reg32(&mut self) -> (r: &mut OpcodeDefiner)
        ensures
            r@ == old(self)@.with_rm_reg32(),
            *final(self) == *final(r),
    {
        self.with_arg(ArgSource::ModRMReg, OpcodeValueSize::Fixed(ValueSize::Dword))
    }

    /// The next argument is the register of the `reg` field, a byte.
    pub fn with_rm_reg8(&mut self) -> (r: &mut OpcodeDefiner)
        ensures
            r@ == old(self)@.with_rm_reg8(),
            *final(self) == *final(r),
    {
        self.with_arg(ArgSource::ModRMReg, OpcodeValueSize::Fixed(ValueSize::Byte))
    }

    /// The next argument is an immediate byte.
    pub fn with_imm8(&mut self) -> (r: &mut OpcodeDefiner)
        ensures
            r@ == old(self)@.with_imm8(),
            *final(self) == *final(r),
    {
        self.with_arg(ArgSource::ImmediateValue, OpcodeValueSize::Fixed(ValueSize::Byte))
    }

    /// The next argument is an immediate word.
    pub fn with_imm16(&mut self) -> (r: &mut OpcodeDefiner)
        ensures
            r@ == old(self)@.with_imm16(),
            *final(self) == *final(r),
    {
        self.with_arg(ArgSource::ImmediateValue, OpcodeValueSize::Fixed(ValueSize::Word))
    }

    /// The next argument is an immediate native word.
    pub fn with_immw(&mut self) -> (r: &mut OpcodeDefiner)
        ensures
            r@ == old(self)@.with_immw(),
            *final(self) == *final(r),
    {
        self.with_arg(ArgSource::ImmediateValue, OpcodeValueSize::NativeWord)
    }

    /// The next argument is a byte at an immediate address.
    pub fn with_offs8(&mut self) -> (r: &mut OpcodeDefiner)
        ensures
            r@ == old(self)@.with_offs8(),
            *final(self) == *final(r),
    {
        self.with_arg(ArgSource::ImmediateAddress, OpcodeValueSize::Fixed(ValueSize::Byte))
    }

    /// The next argument is a native word at an immediate address.
    pub fn with_offsw(&mut self) -> (r: &mut OpcodeDefiner)
        ensures
            r@ == old(self)@.with_offsw(),
            *final(self) == *final(r),
    {
        self.with_arg(ArgSource::ImmediateAddress, OpcodeValueSize::NativeWord)
    }

    /// The next argument is the byte register that the opcode byte names.
    pub fn with_suffix_reg8(&mut self) -> (r: &mut OpcodeDefiner)
        ensures
            r@ == old(self)@.with_suffix_reg8(),
            *final(self) == *final(r),
    {
        self.with_arg(ArgSource::RegisterSuffix, OpcodeValueSize::Fixed(ValueSize::Byte))
    }

    /// The next argument is the native word register that the opcode byte names.
    pub fn with_suffix_regw(&mut self) -> (r: &mut OpcodeDefiner)
        ensures
            r@ == old(self)@.with_suffix_regw(),
            *final(self) == *final(r),
    {
        self.with_arg(ArgSource::RegisterSuffix, OpcodeValueSize::NativeWord)
    }

    /// The next argument is the double word register that the opcode byte names.
    pub fn with_suffix_reg32(&mut self) -> (r: &mut OpcodeDefiner)
        ensures
            r@ == old(self)@.with_suffix_reg32(),
            *final(self) == *final(r),
    {
        self.with_arg(ArgSource::RegisterSuffix, OpcodeValueSize::Fixed(ValueSize::Dword))
    }

    /// The opcode that is defined.
    fn build(&self) -> (r: Opcode)
        requires
            self.function is Some,
            self.args@.len() <= 3,
        ensures
            r == self@.defined_opcode(),
    {
        let none: (ArgSource, OpcodeValueSize) = (
            ArgSource::Unused,
            OpcodeValueSize::Fixed(ValueSize::Zero),
        );
        let a0 = if self.args.len() > 0 {
            self.args[0]
        } else {
            none
        };
        let a1 = if self.args.len() > 1 {
            self.args[1]
        } else {
            none
        };
        let a2 = if self.args.len() > 2 {
            self.args[2]
        } else {
            none
        };
        Opcode {
            function: match self.function {
                Some(f) => f,
                None => OpcodeFn::OpUndefined,
            },
            arg_size: [a0.1, a1.1, a2.1],
            arg_source: [a0.0, a1.0, a2.0],
            gas_cost: match self.gas_level {
                Some(g) => g,
                None => GasCost::Low,
            },
            pipeline_behavior: match self.jump {
                Some(j) => j,
                None => PipelineBehavior::Sequential,
            },
            defined: true,
        }
    }

    /// Whether opcode `j` of the eight of an entry is defined.
    fn defines_cell(&self, j: u8) -> (r: bool)
        requires
            j < 8,
        ensures
            r == self@.covers_cell(j as int),
    {
        match self.group {
            Some(g) => self.has_modrm && j == g,
            None => self.has_modrm || j == 0,
        }
    }

    /// Puts the definition into the table. This can fill several entries,
    /// and in each one or all eight of the opcodes. Nothing that is defined
    /// is defined again: the requirement rejects that.
    #[verifier::rlimit(30)]
    pub fn into_table(&mut self, table: &mut [OpcodeProperties])
        requires
            old(self)@.applicable(old(table)@),
        ensures
            final(table)@ == old(self)@.table_after(old(table)@),
            *final(self) == *old(self),
            entries_wf(old(table)@)
                ==> entries_wf(final(table)@),
    {
        let built: Opcode = self.build();
        let limit: usize = if self.reg_suffix {
            8
        } else {
            self.len
        };
        let first: usize = if self.two_byte {
            self.opcode as usize + 0x100
        } else {
            self.opcode as usize
        };
        let mut n: usize = 0;
        while n < limit
            invariant
                *self == *old(self),
                self@.applicable(old(table)@),
                built == self@.defined_opcode(),
                limit == self@.key_count(),
                first == self@.first_key(),
                n <= limit,
                table@.len() == old(table)@.len(),
                forall|key: int| #![trigger table@[key]]
                    0 <= key < table@.len() ==> table@[key] == if first <= key < first + n
                        && !self@.skips(old(table)@, key) {
                        self@.entry_after(old(table)@[key])
                    } else {
                        old(table)@[key]
                    },
            decreases limit - n,
        {
            let op: usize = first + n;
            let entry: OpcodeProperties = table[op];
            if !(op == 0x90 && entry.defined) {
                table[op] = OpcodeProperties {
                    has_modrm: self.has_modrm,
                    defined: true,
                    opcodes: [
                        if self.defines_cell(0) {
                            built
                        } else {
                            entry.opcodes[0]
                        },
                        if self.defines_cell(1) {
                            built
                        } else {
                            entry.opcodes[1]
                        },
                        if self.defines_cell(2) {
                            built
                        } else {
                            entry.opcodes[2]
                        },
                        if self.defines_cell(3) {
                            built
                        } else {
                            entry.opcodes[3]
                        },
                        if self.defines_cell(4) {
                            built
                        } else {
                            entry.opcodes[4]
                        },
                        if self.defines_cell(5) {
                            built
                        } else {
                            entry.opcodes[5]
                        },
                        if self.defines_cell(6) {
                            built
                        } else {
                            entry.opcodes[6]
                        },
                        if self.defines_cell(7) {
                            built
                        } else {
                            entry.opcodes[7]
                        },
                    ],
                };
            }
            n = n + 1;
        }
        assert(table@ =~= old(self)@.table_after(old(table)@));
    }
}

/// Starts the definition of the opcode `opcode`.
pub fn define_opcode(opcode: u8) -> (d: OpcodeDefiner)
    ensures
        d@ == Definition::opcode(opcode),
{
    define_opcode_multi(opcode, 1)
}

/// Starts the definition of `len` opcodes in a row, from `opcode` on, that
/// are alike in all but the opcode byte.
pub fn define_opcode_multi(opcode: u8, len: usize) -> (d: OpcodeDefiner)
    ensures
        d@ == Definition::opcodes(opcode, len),
{
    OpcodeDefiner {
        opcode: opcode,
        len: len,
        two_byte: false,
        group: None,
        gas_level: None,
        args: Vec::new(),
        function: None,
        jump: None,
        has_modrm: false,
        reg_suffix: false,
    }
}

} // verus!
