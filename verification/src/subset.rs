use vstd::prelude::*;
use crate::opcodes::{
    define_opcode, define_opcode_multi, entries_wf, table_wf, ArgSource, Definition, OpcodeFn,
    OpcodeProperties, OpcodeValueSize, OPCODE_TABLE_SIZE,
};
use crate::structs::{SizedValue, ValueSize};
use crate::vm::GasCost;

verus! {

/// The table in which no opcode is defined.
pub open spec fn undefined_table() -> Seq<OpcodeProperties> {
    Seq::new(OPCODE_TABLE_SIZE as nat, |key: int| OpcodeProperties::undefined())
}

/// A table in which no opcode is defined.
pub fn empty_table() -> (table: Vec<OpcodeProperties>)
    ensures
        table@ == undefined_table(),
{
    let mut table: Vec<OpcodeProperties> = Vec::new();
    let mut n: usize = 0;
    while n < OPCODE_TABLE_SIZE
        invariant
            n <= OPCODE_TABLE_SIZE,
            table@.len() == n,
            forall|i: int| 0 <= i < n ==> #[trigger] table@[i] == OpcodeProperties::undefined(),
        decreases OPCODE_TABLE_SIZE - n,
    {
        table.push(OpcodeProperties::default());
        n = n + 1;
    }
    assert(table@ =~= undefined_table());
    table
}

/// The table `t` with the opcodes 0x00 to 0x05 of the supported subset defined in it.
pub open spec fn subset_00_to_05(t: Seq<OpcodeProperties>) -> Seq<OpcodeProperties> {
    // 0x00: add rm8, r8
    let t = Definition::opcode(0x00)
        .calls(OpcodeFn::Add8bit)
        .with_gas(GasCost::Low)
        .with_rm8()
        .with_rm_reg8()
        .table_after(t);
    // 0x01: add rmW, rW
    let t = Definition::opcode(0x01)
        .calls(OpcodeFn::AddNativeWord)
        .with_gas(GasCost::Low)
        .with_rmw()
        .with_rm_regw()
        .table_after(t);
    // 0x02: add r8, rm8
    let t = Definition::opcode(0x02)
        .calls(OpcodeFn::Add8bit)
        .with_gas(GasCost::Low)
        .with_rm_reg8()
        .with_rm8()
        .table_after(t);
    // 0x03: add rW, rmW
    let t = Definition::opcode(0x03)
        .calls(OpcodeFn::AddNativeWord)
        .with_gas(GasCost::Low)
        .with_rm_regw()
        .with_rmw()
        .table_after(t);
    // 0x04: add AL, imm8
    let t = Definition::opcode(0x04)
        .calls(OpcodeFn::Add8bit)
        .with_gas(GasCost::Low)
        .with_arg(ArgSource::HardcodedRegister(0), OpcodeValueSize::Fixed(ValueSize::Byte))
        .with_imm8()
        .table_after(t);
    // 0x05: add eAX, immW
    let t = Definition::opcode(0x05)
        .calls(OpcodeFn::AddNativeWord)
        .with_gas(GasCost::Low)
        .with_arg(ArgSource::HardcodedRegister(0), OpcodeValueSize::NativeWord)
        .with_immw()
        .table_after(t);
    t
}

/// Defines the opcodes 0x00 to 0x05.
#[verifier::rlimit(50)]
fn define_00_to_05(table: &mut [OpcodeProperties])
    requires
        old(table)@.len() == OPCODE_TABLE_SIZE,
        forall|key: int|
            0x0 <= key < 0x6 ==> #[trigger] old(table)@[key] == OpcodeProperties::undefined(),
    ensures
        final(table)@ == subset_00_to_05(old(table)@),
        final(table)@.len() == OPCODE_TABLE_SIZE,
        forall|key: int|
            0 <= key < OPCODE_TABLE_SIZE && !(0x0 <= key < 0x6) ==> #[trigger] final(table)@[key]
                == old(table)@[key],
        entries_wf(old(table)@) ==> entries_wf(final(table)@),
{
    // 0x00: add rm8, r8
    define_opcode(0x00)
        .calls(OpcodeFn::Add8bit)
        .with_gas(GasCost::Low)
        .with_rm8()
        .with_rm_reg8()
        .into_table(table);
    // 0x01: add rmW, rW
    define_opcode(0x01)
        .calls(OpcodeFn::AddNativeWord)
        .with_gas(GasCost::Low)
        .with_rmw()
        .with_rm_regw()
        .into_table(table);
    // 0x02: add r8, rm8
    define_opcode(0x02)
        .calls(OpcodeFn::Add8bit)
        .with_gas(GasCost::Low)
        .with_rm_reg8()
        .with_rm8()
        .into_table(table);
    // 0x03: add rW, rmW
    define_opcode(0x03)
        .calls(OpcodeFn::AddNativeWord)
        .with_gas(GasCost::Low)
        .with_rm_regw()
        .with_rmw()
        .into_table(table);
    // 0x04: add AL, imm8
    define_opcode(0x04)
        .calls(OpcodeFn::Add8bit)
        .with_gas(GasCost::Low)
        .with_arg(ArgSource::HardcodedRegister(0), OpcodeValueSize::Fixed(ValueSize::Byte))
        .with_imm8()
        .into_table(table);
    // 0x05: add eAX, immW
    define_opcode(0x05)
        .calls(OpcodeFn::AddNativeWord)
        .with_gas(GasCost::Low)
        .with_arg(ArgSource::HardcodedRegister(0), OpcodeValueSize::NativeWord)
        .with_immw()
        .into_table(table);
}

/// The table `t` with the opcodes 0x08 to 0x0D of the supported subset defined in it.
pub open spec fn subset_08_to_0d(t: Seq<OpcodeProperties>) -> Seq<OpcodeProperties> {
    // 0x08: or rm8, r8
    let t = Definition::opcode(0x08)
        .calls(OpcodeFn::Or8bit)
        .with_gas(GasCost::Low)
        .with_rm8()
        .with_rm_reg8()
        .table_after(t);
    // 0x09: or rmW, rW
    let t = Definition::opcode(0x09)
        .calls(OpcodeFn::OrNativeWord)
        .with_gas(GasCost::Low)
        .with_rmw()
        .with_rm_regw()
        .table_after(t);
    // 0x0A: or r8, rm8
    let t = Definition::opcode(0x0A)
        .calls(OpcodeFn::Or8bit)
        .with_gas(GasCost::Low)
        .with_rm_reg8()
        .with_rm8()
        .table_after(t);
    // 0x0B: or rW, rmW
    let t = Definition::opcode(0x0B)
        .calls(OpcodeFn::OrNativeWord)
        .with_gas(GasCost::Low)
        .with_rm_regw()
        .with_rmw()
        .table_after(t);
    // 0x0C: or AL, imm8
    let t = Definition::opcode(0x0C)
        .calls(OpcodeFn::Or8bit)
        .with_gas(GasCost::Low)
        .with_arg(ArgSource::HardcodedRegister(0), OpcodeValueSize::Fixed(ValueSize::Byte))
        .with_imm8()
        .table_after(t);
    // 0x0D: or eAX, immW
    let t = Definition::opcode(0x0D)
        .calls(OpcodeFn::OrNativeWord)
        .with_gas(GasCost::Low)
        .with_arg(ArgSource::HardcodedRegister(0), OpcodeValueSize::NativeWord)
        .with_immw()
        .table_after(t);
    t
}

/// Defines the opcodes 0x08 to 0x0D.
#[verifier::rlimit(50)]
fn define_08_to_0d(table: &mut [OpcodeProperties])
    requires
        old(table)@.len() == OPCODE_TABLE_SIZE,
        forall|key: int|
            0x8 <= key < 0xE ==> #[trigger] old(table)@[key] == OpcodeProperties::undefined(),
    ensures
        final(table)@ == subset_08_to_0d(old(table)@),
        final(table)@.len() == OPCODE_TABLE_SIZE,
        forall|key: int|
            0 <= key < OPCODE_TABLE_SIZE && !(0x8 <= key < 0xE) ==> #[trigger] final(table)@[key]
                == old(table)@[key],
        entries_wf(old(table)@) ==> entries_wf(final(table)@),
{
    // 0x08: or rm8, r8
    define_opcode(0x08)
        .calls(OpcodeFn::Or8bit)
        .with_gas(GasCost::Low)
        .with_rm8()
        .with_rm_reg8()
        .into_table(table);
    // 0x09: or rmW, rW
    define_opcode(0x09)
        .calls(OpcodeFn::OrNativeWord)
        .with_gas(GasCost::Low)
        .with_rmw()
        .with_rm_regw()
        .into_table(table);
    // 0x0A: or r8, rm8
    define_opcode(0x0A)
        .calls(OpcodeFn::Or8bit)
        .with_gas(GasCost::Low)
        .with_rm_reg8()
        .with_rm8()
        .into_table(table);
    // 0x0B: or rW, rmW
    define_opcode(0x0B)
        .calls(OpcodeFn::OrNativeWord)
        .with_gas(GasCost::Low)
        .with_rm_regw()
        .with_rmw()
        .into_table(table);
    // 0x0C: or AL, imm8
    define_opcode(0x0C)
        .calls(OpcodeFn::Or8bit)
        .with_gas(GasCost::Low)
        .with_arg(ArgSource::HardcodedRegister(0), OpcodeValueSize::Fixed(ValueSize::Byte))
        .with_imm8()
        .into_table(table);
    // 0x0D: or eAX, immW
    define_opcode(0x0D)
        .calls(OpcodeFn::OrNativeWord)
        .with_gas(GasCost::Low)
        .with_arg(ArgSource::HardcodedRegister(0), OpcodeValueSize::NativeWord)
        .with_immw()
        .into_table(table);
}

/// The table `t` with the opcodes 0x10 to 0x15 of the supported subset defined in it.
pub open spec fn subset_10_to_15(t: Seq<OpcodeProperties>) -> Seq<OpcodeProperties> {
    // 0x10: adc rm8, r8
    let t = Definition::opcode(0x10)
        .calls(OpcodeFn::Adc8bit)
        .with_gas(GasCost::Low)
        .with_rm8()
        .with_rm_reg8()
        .table_after(t);
    // 0x11: adc rmW, rW
    let t = Definition::opcode(0x11)
        .calls(OpcodeFn::AdcNativeWord)
        .with_gas(GasCost::Low)
        .with_rmw()
        .with_rm_regw()
        .table_after(t);
    // 0x12: adc r8, rm8
    let t = Definition::opcode(0x12)
        .calls(OpcodeFn::Adc8bit)
        .with_gas(GasCost::Low)
        .with_rm_reg8()
        .with_rm8()
        .table_after(t);
    // 0x13: adc rW, rmW
    let t = Definition::opcode(0x13)
        .calls(OpcodeFn::AdcNativeWord)
        .with_gas(GasCost::Low)
        .with_rm_regw()
        .with_rmw()
        .table_after(t);
    // 0x14: adc AL, imm8
    let t = Definition::opcode(0x14)
        .calls(OpcodeFn::Adc8bit)
        .with_gas(GasCost::Low)
        .with_arg(ArgSource::HardcodedRegister(0), OpcodeValueSize::Fixed(ValueSize::Byte))
        .with_imm8()
        .table_after(t);
    // 0x15: adc eAX, immW
    let t = Definition::opcode(0x15)
        .calls(OpcodeFn::AdcNativeWord)
        .with_gas(GasCost::Low)
        .with_arg(ArgSource::HardcodedRegister(0), OpcodeValueSize::NativeWord)
        .with_immw()
        .table_after(t);
    t
}

/// Defines the opcodes 0x10 to 0x15.
#[verifier::rlimit(50)]
fn define_10_to_15(table: &mut [OpcodeProperties])
    requires
        old(table)@.len() == OPCODE_TABLE_SIZE,
        forall|key: int|
            0x10 <= key < 0x16 ==> #[trigger] old(table)@[key] == OpcodeProperties::undefined(),
    ensures
        final(table)@ == subset_10_to_15(old(table)@),
        final(table)@.len() == OPCODE_TABLE_SIZE,
        forall|key: int|
            0 <= key < OPCODE_TABLE_SIZE && !(0x10 <= key < 0x16) ==> #[trigger] final(table)@[key]
                == old(table)@[key],
        entries_wf(old(table)@) ==> entries_wf(final(table)@),
{
    // 0x10: adc rm8, r8
    define_opcode(0x10)
        .calls(OpcodeFn::Adc8bit)
        .with_gas(GasCost::Low)
        .with_rm8()
        .with_rm_reg8()
        .into_table(table);
    // 0x11: adc rmW, rW
    define_opcode(0x11)
        .calls(OpcodeFn::AdcNativeWord)
        .with_gas(GasCost::Low)
        .with_rmw()
        .with_rm_regw()
        .into_table(table);
    // 0x12: adc r8, rm8
    define_opcode(0x12)
        .calls(OpcodeFn::Adc8bit)
        .with_gas(GasCost::Low)
        .with_rm_reg8()
        .with_rm8()
        .into_table(table);
    // 0x13: adc rW, rmW
    define_opcode(0x13)
        .calls(OpcodeFn::AdcNativeWord)
        .with_gas(GasCost::Low)
        .with_rm_regw()
        .with_rmw()
        .into_table(table);
    // 0x14: adc AL, imm8
    define_opcode(0x14)
        .calls(OpcodeFn::Adc8bit)
        .with_gas(GasCost::Low)
        .with_arg(ArgSource::HardcodedRegister(0), OpcodeValueSize::Fixed(ValueSize::Byte))
        .with_imm8()
        .into_table(table);
    // 0x15: adc eAX, immW
    define_opcode(0x15)
        .calls(OpcodeFn::AdcNativeWord)
        .with_gas(GasCost::Low)
        .with_arg(ArgSource::HardcodedRegister(0), OpcodeValueSize::NativeWord)
        .with_immw()
        .into_table(table);
}

/// The table `t` with the opcodes 0x18 to 0x1D of the supported subset defined in it.
pub open spec fn subset_18_to_1d(t: Seq<OpcodeProperties>) -> Seq<OpcodeProperties> {
    // 0x18: sbb rm8, r8
    let t = Definition::opcode(0x18)
        .calls(OpcodeFn::Sbb8bit)
        .with_gas(GasCost::Low)
        .with_rm8()
        .with_rm_reg8()
        .table_after(t);
    // 0x19: sbb rmW, rW
    let t = Definition::opcode(0x19)
        .calls(OpcodeFn::SbbNativeWord)
        .with_gas(GasCost::Low)
        .with_rmw()
        .with_rm_regw()
        .table_after(t);
    // 0x1A: sbb r8, rm8
    let t = Definition::opcode(0x1A)
        .calls(OpcodeFn::Sbb8bit)
        .with_gas(GasCost::Low)
        .with_rm_reg8()
        .with_rm8()
        .table_after(t);
    // 0x1B: sbb rW, rmW
    let t = Definition::opcode(0x1B)
        .calls(OpcodeFn::SbbNativeWord)
        .with_gas(GasCost::Low)
        .with_rm_regw()
        .with_rmw()
        .table_after(t);
    // 0x1C: sbb AL, imm8
    let t = Definition::opcode(0x1C)
        .calls(OpcodeFn::Sbb8bit)
        .with_gas(GasCost::Low)
        .with_arg(ArgSource::HardcodedRegister(0), OpcodeValueSize::Fixed(ValueSize::Byte))
        .with_imm8()
        .table_after(t);
    // 0x1D: sbb eAX, immW
    let t = Definition::opcode(0x1D)
        .calls(OpcodeFn::SbbNativeWord)
        .with_gas(GasCost::Low)
        .with_arg(ArgSource::HardcodedRegister(0), OpcodeValueSize::NativeWord)
        .with_immw()
        .table_after(t);
    t
}

/// Defines the opcodes 0x18 to 0x1D.
#[verifier::rlimit(50)]
fn define_18_to_1d(table: &mut [OpcodeProperties])
    requires
        old(table)@.len() == OPCODE_TABLE_SIZE,
        forall|key: int|
            0x18 <= key < 0x1E ==> #[trigger] old(table)@[key] == OpcodeProperties::undefined(),
    ensures
        final(table)@ == subset_18_to_1d(old(table)@),
        final(table)@.len() == OPCODE_TABLE_SIZE,
        forall|key: int|
            0 <= key < OPCODE_TABLE_SIZE && !(0x18 <= key < 0x1E) ==> #[trigger] final(table)@[key]
                == old(table)@[key],
        entries_wf(old(table)@) ==> entries_wf(final(table)@),
{
    // 0x18: sbb rm8, r8
    define_opcode(0x18)
        .calls(OpcodeFn::Sbb8bit)
        .with_gas(GasCost::Low)
        .with_rm8()
        .with_rm_reg8()
        .into_table(table);
    // 0x19: sbb rmW, rW
    define_opcode(0x19)
        .calls(OpcodeFn::SbbNativeWord)
        .with_gas(GasCost::Low)
        .with_rmw()
        .with_rm_regw()
        .into_table(table);
    // 0x1A: sbb r8, rm8
    define_opcode(0x1A)
        .calls(OpcodeFn::Sbb8bit)
        .with_gas(GasCost::Low)
        .with_rm_reg8()
        .with_rm8()
        .into_table(table);
    // 0x1B: sbb rW, rmW
    define_opcode(0x1B)
        .calls(OpcodeFn::SbbNativeWord)
        .with_gas(GasCost::Low)
        .with_rm_regw()
        .with_rmw()
        .into_table(table);
    // 0x1C: sbb AL, imm8
    define_opcode(0x1C)
        .calls(OpcodeFn::Sbb8bit)
        .with_gas(GasCost::Low)
        .with_arg(ArgSource::HardcodedRegister(0), OpcodeValueSize::Fixed(ValueSize::Byte))
        .with_imm8()
        .into_table(table);
    // 0x1D: sbb eAX, immW
    define_opcode(0x1D)
        .calls(OpcodeFn::SbbNativeWord)
        .with_gas(GasCost::Low)
        .with_arg(ArgSource::HardcodedRegister(0), OpcodeValueSize::NativeWord)
        .with_immw()
        .into_table(table);
}

/// The table `t` with the opcodes 0x20 to 0x25 of the supported subset defined in it.
pub open spec fn subset_20_to_25(t: Seq<OpcodeProperties>) -> Seq<OpcodeProperties> {
    // 0x20: and rm8, r8
    let t = Definition::opcode(0x20)
        .calls(OpcodeFn::And8bit)
        .with_gas(GasCost::Low)
        .with_rm8()
        .with_rm_reg8()
        .table_after(t);
    // 0x21: and rmW, rW
    let t = Definition::opcode(0x21)
        .calls(OpcodeFn::AndNativeWord)
        .with_gas(GasCost::Low)
        .with_rmw()
        .with_rm_regw()
        .table_after(t);
    // 0x22: and r8, rm8
    let t = Definition::opcode(0x22)
        .calls(OpcodeFn::And8bit)
        .with_gas(GasCost::Low)
        .with_rm_reg8()
        .with_rm8()
        .table_after(t);
    // 0x23: and rW, rmW
    let t = Definition::opcode(0x23)
        .calls(OpcodeFn::AndNativeWord)
        .with_gas(GasCost::Low)
        .with_rm_regw()
        .with_rmw()
        .table_after(t);
    // 0x24: and AL, imm8
    let t = Definition::opcode(0x24)
        .calls(OpcodeFn::And8bit)
        .with_gas(GasCost::Low)
        .with_arg(ArgSource::HardcodedRegister(0), OpcodeValueSize::Fixed(ValueSize::Byte))
        .with_imm8()
        .table_after(t);
    // 0x25: and eAX, immW
    let t = Definition::opcode(0x25)
        .calls(OpcodeFn::AndNativeWord)
        .with_gas(GasCost::Low)
        .with_arg(ArgSource::HardcodedRegister(0), OpcodeValueSize::NativeWord)
        .with_immw()
        .table_after(t);
    t
}

/// Defines the opcodes 0x20 to 0x25.
#[verifier::rlimit(50)]
fn define_20_to_25(table: &mut [OpcodeProperties])
    requires
        old(table)@.len() == OPCODE_TABLE_SIZE,
        forall|key: int|
            0x20 <= key < 0x26 ==> #[trigger] old(table)@[key] == OpcodeProperties::undefined(),
    ensures
        final(table)@ == subset_20_to_25(old(table)@),
        final(table)@.len() == OPCODE_TABLE_SIZE,
        forall|key: int|
            0 <= key < OPCODE_TABLE_SIZE && !(0x20 <= key < 0x26) ==> #[trigger] final(table)@[key]
                == old(table)@[key],
        entries_wf(old(table)@) ==> entries_wf(final(table)@),
{
    // 0x20: and rm8, r8
    define_opcode(0x20)
        .calls(OpcodeFn::And8bit)
        .with_gas(GasCost::Low)
        .with_rm8()
        .with_rm_reg8()
        .into_table(table);
    // 0x21: and rmW, rW
    define_opcode(0x21)
        .calls(OpcodeFn::AndNativeWord)
        .with_gas(GasCost::Low)
        .with_rmw()
        .with_rm_regw()
        .into_table(table);
    // 0x22: and r8, rm8
    define_opcode(0x22)
        .calls(OpcodeFn::And8bit)
        .with_gas(GasCost::Low)
        .with_rm_reg8()
        .with_rm8()
        .into_table(table);
    // 0x23: and rW, rmW
    define_opcode(0x23)
        .calls(OpcodeFn::AndNativeWord)
        .with_gas(GasCost::Low)
        .with_rm_regw()
        .with_rmw()
        .into_table(table);
    // 0x24: and AL, imm8
    define_opcode(0x24)
        .calls(OpcodeFn::And8bit)
        .with_gas(GasCost::Low)
        .with_arg(ArgSource::HardcodedRegister(0), OpcodeValueSize::Fixed(ValueSize::Byte))
        .with_imm8()
        .into_table(table);
    // 0x25: and eAX, immW
    define_opcode(0x25)
        .calls(OpcodeFn::AndNativeWord)
        .with_gas(GasCost::Low)
        .with_arg(ArgSource::HardcodedRegister(0), OpcodeValueSize::NativeWord)
        .with_immw()
        .into_table(table);
}

/// The table `t` with the opcodes 0x28 to 0x2D of the supported subset defined in it.
pub open spec fn subset_28_to_2d(t: Seq<OpcodeProperties>) -> Seq<OpcodeProperties> {
    // 0x28: sub rm8, r8
    let t = Definition::opcode(0x28)
        .calls(OpcodeFn::Sub8bit)
        .with_gas(GasCost::Low)
        .with_rm8()
        .with_rm_reg8()
        .table_after(t);
    // 0x29: sub rmW, rW
    let t = Definition::opcode(0x29)
        .calls(OpcodeFn::SubNativeWord)
        .with_gas(GasCost::Low)
        .with_rmw()
        .with_rm_regw()
        .table_after(t);
    // 0x2A: sub r8, rm8
    let t = Definition::opcode(0x2A)
        .calls(OpcodeFn::Sub8bit)
        .with_gas(GasCost::Low)
        .with_rm_reg8()
        .with_rm8()
        .table_after(t);
    // 0x2B: sub rW, rmW
    let t = Definition::opcode(0x2B)
        .calls(OpcodeFn::SubNativeWord)
        .with_gas(GasCost::Low)
        .with_rm_regw()
        .with_rmw()
        .table_after(t);
    // 0x2C: sub AL, imm8
    let t = Definition::opcode(0x2C)
        .calls(OpcodeFn::Sub8bit)
        .with_gas(GasCost::Low)
        .with_arg(ArgSource::HardcodedRegister(0), OpcodeValueSize::Fixed(ValueSize::Byte))
        .with_imm8()
        .table_after(t);
    // 0x2D: sub eAX, immW
    let t = Definition::opcode(0x2D)
        .calls(OpcodeFn::SubNativeWord)
        .with_gas(GasCost::Low)
        .with_arg(ArgSource::HardcodedRegister(0), OpcodeValueSize::NativeWord)
        .with_immw()
        .table_after(t);
    t
}

/// Defines the opcodes 0x28 to 0x2D.
#[verifier::rlimit(50)]
fn define_28_to_2d(table: &mut [OpcodeProperties])
    requires
        old(table)@.len() == OPCODE_TABLE_SIZE,
        forall|key: int|
            0x28 <= key < 0x2E ==> #[trigger] old(table)@[key] == OpcodeProperties::undefined(),
    ensures
        final(table)@ == subset_28_to_2d(old(table)@),
        final(table)@.len() == OPCODE_TABLE_SIZE,
        forall|key: int|
            0 <= key < OPCODE_TABLE_SIZE && !(0x28 <= key < 0x2E) ==> #[trigger] final(table)@[key]
                == old(table)@[key],
        entries_wf(old(table)@) ==> entries_wf(final(table)@),
{
    // 0x28: sub rm8, r8
    define_opcode(0x28)
        .calls(OpcodeFn::Sub8bit)
        .with_gas(GasCost::Low)
        .with_rm8()
        .with_rm_reg8()
        .into_table(table);
    // 0x29: sub rmW, rW
    define_opcode(0x29)
        .calls(OpcodeFn::SubNativeWord)
        .with_gas(GasCost::Low)
        .with_rmw()
        .with_rm_regw()
        .into_table(table);
    // 0x2A: sub r8, rm8
    define_opcode(0x2A)
        .calls(OpcodeFn::Sub8bit)
        .with_gas(GasCost::Low)
        .with_rm_reg8()
        .with_rm8()
        .into_table(table);
    // 0x2B: sub rW, rmW
    define_opcode(0x2B)
        .calls(OpcodeFn::SubNativeWord)
        .with_gas(GasCost::Low)
        .with_rm_regw()
        .with_rmw()
        .into_table(table);
    // 0x2C: sub AL, imm8
    define_opcode(0x2C)
        .calls(OpcodeFn::Sub8bit)
        .with_gas(GasCost::Low)
        .with_arg(ArgSource::HardcodedRegister(0), OpcodeValueSize::Fixed(ValueSize::Byte))
        .with_imm8()
        .into_table(table);
    // 0x2D: sub eAX, immW
    define_opcode(0x2D)
        .calls(OpcodeFn::SubNativeWord)
        .with_gas(GasCost::Low)
        .with_arg(ArgSource::HardcodedRegister(0), OpcodeValueSize::NativeWord)
        .with_immw()
        .into_table(table);
}

/// The table `t` with the opcodes 0x30 to 0x35 of the supported subset defined in it.
pub open spec fn subset_30_to_35(t: Seq<OpcodeProperties>) -> Seq<OpcodeProperties> {
    // 0x30: xor rm8, r8
    let t = Definition::opcode(0x30)
        .calls(OpcodeFn::Xor8bit)
        .with_gas(GasCost::Low)
        .with_rm8()
        .with_rm_reg8()
        .table_after(t);
    // 0x31: xor rmW, rW
    let t = Definition::opcode(0x31)
        .calls(OpcodeFn::XorNativeWord)
        .with_gas(GasCost::Low)
        .with_rmw()
        .with_rm_regw()
        .table_after(t);
    // 0x32: xor r8, rm8
    let t = Definition::opcode(0x32)
        .calls(OpcodeFn::Xor8bit)
        .with_gas(GasCost::Low)
        .with_rm_reg8()
        .with_rm8()
        .table_after(t);
    // 0x33: xor rW, rmW
    let t = Definition::opcode(0x33)
        .calls(OpcodeFn::XorNativeWord)
        .with_gas(GasCost::Low)
        .with_rm_regw()
        .with_rmw()
        .table_after(t);
    // 0x34: xor AL, imm8
    let t = Definition::opcode(0x34)
        .calls(OpcodeFn::Xor8bit)
        .with_gas(GasCost::Low)
        .with_arg(ArgSource::HardcodedRegister(0), OpcodeValueSize::Fixed(ValueSize::Byte))
        .with_imm8()
        .table_after(t);
    // 0x35: xor eAX, immW
    let t = Definition::opcode(0x35)
        .calls(OpcodeFn::XorNativeWord)
        .with_gas(GasCost::Low)
        .with_arg(ArgSource::HardcodedRegister(0), OpcodeValueSize::NativeWord)
        .with_immw()
        .table_after(t);
    t
}

/// Defines the opcodes 0x30 to 0x35.
#[verifier::rlimit(50)]
fn define_30_to_35(table: &mut [OpcodeProperties])
    requires
        old(table)@.len() == OPCODE_TABLE_SIZE,
        forall|key: int|
            0x30 <= key < 0x36 ==> #[trigger] old(table)@[key] == OpcodeProperties::undefined(),
    ensures
        final(table)@ == subset_30_to_35(old(table)@),
        final(table)@.len() == OPCODE_TABLE_SIZE,
        forall|key: int|
            0 <= key < OPCODE_TABLE_SIZE && !(0x30 <= key < 0x36) ==> #[trigger] final(table)@[key]
                == old(table)@[key],
        entries_wf(old(table)@) ==> entries_wf(final(table)@),
{
    // 0x30: xor rm8, r8
    define_opcode(0x30)
        .calls(OpcodeFn::Xor8bit)
        .with_gas(GasCost::Low)
        .with_rm8()
        .with_rm_reg8()
        .into_table(table);
    // 0x31: xor rmW, rW
    define_opcode(0x31)
        .calls(OpcodeFn::XorNativeWord)
        .with_gas(GasCost::Low)
        .with_rmw()
        .with_rm_regw()
        .into_table(table);
    // 0x32: xor r8, rm8
    define_opcode(0x32)
        .calls(OpcodeFn::Xor8bit)
        .with_gas(GasCost::Low)
        .with_rm_reg8()
        .with_rm8()
        .into_table(table);
    // 0x33: xor rW, rmW
    define_opcode(0x33)
        .calls(OpcodeFn::XorNativeWord)
        .with_gas(GasCost::Low)
        .with_rm_regw()
        .with_rmw()
        .into_table(table);
    // 0x34: xor AL, imm8
    define_opcode(0x34)
        .calls(OpcodeFn::Xor8bit)
        .with_gas(GasCost::Low)
        .with_arg(ArgSource::HardcodedRegister(0), OpcodeValueSize::Fixed(ValueSize::Byte))
        .with_imm8()
        .into_table(table);
    // 0x35: xor eAX, immW
    define_opcode(0x35)
        .calls(OpcodeFn::XorNativeWord)
        .with_gas(GasCost::Low)
        .with_arg(ArgSource::HardcodedRegister(0), OpcodeValueSize::NativeWord)
        .with_immw()
        .into_table(table);
}

/// The table `t` with the opcodes 0x38 to 0x3D of the supported subset defined in it.
pub open spec fn subset_38_to_3d(t: Seq<OpcodeProperties>) -> Seq<OpcodeProperties> {
    // 0x38: cmp rm8, r8
    let t = Definition::opcode(0x38)
        .calls(OpcodeFn::Cmp8bit)
        .with_gas(GasCost::Low)
        .with_rm8()
        .with_rm_reg8()
        .table_after(t);
    // 0x39: cmp rmW, rW
    let t = Definition::opcode(0x39)
        .calls(OpcodeFn::CmpNativeWord)
        .with_gas(GasCost::Low)
        .with_rmw()
        .with_rm_regw()
        .table_after(t);
    // 0x3A: cmp r8, rm8
    let t = Definition::opcode(0x3A)
        .calls(OpcodeFn::Cmp8bit)
        .with_gas(GasCost::Low)
        .with_rm_reg8()
        .with_rm8()
        .table_after(t);
    // 0x3B: cmp rW, rmW
    let t = Definition::opcode(0x3B)
        .calls(OpcodeFn::CmpNativeWord)
        .with_gas(GasCost::Low)
        .with_rm_regw()
        .with_rmw()
        .table_after(t);
    // 0x3C: cmp AL, imm8
    let t = Definition::opcode(0x3C)
        .calls(OpcodeFn::Cmp8bit)
        .with_gas(GasCost::Low)
        .with_arg(ArgSource::HardcodedRegister(0), OpcodeValueSize::Fixed(ValueSize::Byte))
        .with_imm8()
        .table_after(t);
    // 0x3D: cmp eAX, immW
    let t = Definition::opcode(0x3D)
        .calls(OpcodeFn::CmpNativeWord)
        .with_gas(GasCost::Low)
        .with_arg(ArgSource::HardcodedRegister(0), OpcodeValueSize::NativeWord)
        .with_immw()
        .table_after(t);
    t
}

/// Defines the opcodes 0x38 to 0x3D.
#[verifier::rlimit(50)]
fn define_38_to_3d(table: &mut [OpcodeProperties])
    requires
        old(table)@.len() == OPCODE_TABLE_SIZE,
        forall|key: int|
            0x38 <= key < 0x3E ==> #[trigger] old(table)@[key] == OpcodeProperties::undefined(),
    ensures
        final(table)@ == subset_38_to_3d(old(table)@),
        final(table)@.len() == OPCODE_TABLE_SIZE,
        forall|key: int|
            0 <= key < OPCODE_TABLE_SIZE && !(0x38 <= key < 0x3E) ==> #[trigger] final(table)@[key]
                == old(table)@[key],
        entries_wf(old(table)@) ==> entries_wf(final(table)@),
{
    // 0x38: cmp rm8, r8
    define_opcode(0x38)
        .calls(OpcodeFn::Cmp8bit)
        .with_gas(GasCost::Low)
        .with_rm8()
        .with_rm_reg8()
        .into_table(table);
    // 0x39: cmp rmW, rW
    define_opcode(0x39)
        .calls(OpcodeFn::CmpNativeWord)
        .with_gas(GasCost::Low)
        .with_rmw()
        .with_rm_regw()
        .into_table(table);
    // 0x3A: cmp r8, rm8
    define_opcode(0x3A)
        .calls(OpcodeFn::Cmp8bit)
        .with_gas(GasCost::Low)
        .with_rm_reg8()
        .with_rm8()
        .into_table(table);
    // 0x3B: cmp rW, rmW
    define_opcode(0x3B)
        .calls(OpcodeFn::CmpNativeWord)
        .with_gas(GasCost::Low)
        .with_rm_regw()
        .with_rmw()
        .into_table(table);
    // 0x3C: cmp AL, imm8
    define_opcode(0x3C)
        .calls(OpcodeFn::Cmp8bit)
        .with_gas(GasCost::Low)
        .with_arg(ArgSource::HardcodedRegister(0), OpcodeValueSize::Fixed(ValueSize::Byte))
        .with_imm8()
        .into_table(table);
    // 0x3D: cmp eAX, immW
    define_opcode(0x3D)
        .calls(OpcodeFn::CmpNativeWord)
        .with_gas(GasCost::Low)
        .with_arg(ArgSource::HardcodedRegister(0), OpcodeValueSize::NativeWord)
        .with_immw()
        .into_table(table);
}

/// The table `t` with the opcodes 0x40 to 0x69 of the supported subset defined in it.
pub open spec fn subset_40_to_69(t: Seq<OpcodeProperties>) -> Seq<OpcodeProperties> {
    // 0x40 + r: inc rW
    let t = Definition::opcode(0x40)
        .calls(OpcodeFn::IncrementNativeWord)
        .with_gas(GasCost::Low)
        .with_suffix_regw()
        .table_after(t);
    // 0x48 + r: dec rW
    let t = Definition::opcode(0x48)
        .calls(OpcodeFn::DecrementNativeWord)
        .with_gas(GasCost::Low)
        .with_suffix_regw()
        .table_after(t);
    // 0x50 + r: push rW
    let t = Definition::opcode(0x50)
        .calls(OpcodeFn::Push)
        .with_gas(GasCost::VeryLow)
        .with_suffix_regw()
        .table_after(t);
    // 0x58 + r: pop rW
    let t = Definition::opcode(0x58)
        .calls(OpcodeFn::Pop)
        .with_gas(GasCost::VeryLow)
        .with_suffix_regw()
        .table_after(t);
    // 0x68: push immW
    let t = Definition::opcode(0x68)
        .calls(OpcodeFn::Push)
        .with_gas(GasCost::VeryLow)
        .with_immw()
        .table_after(t);
    // 0x69: imul rW, rmW, immW
    let t = Definition::opcode(0x69)
        .calls(OpcodeFn::Imul3NativeWord)
        .with_gas(GasCost::Low)
        .with_rm_regw()
        .with_rmw()
        .with_immw()
        .table_after(t);
    t
}

/// Defines the opcodes 0x40 to 0x69.
#[verifier::rlimit(50)]
fn define_40_to_69(table: &mut [OpcodeProperties])
    requires
        old(table)@.len() == OPCODE_TABLE_SIZE,
        forall|key: int|
            0x40 <= key < 0x6A ==> #[trigger] old(table)@[key] == OpcodeProperties::undefined(),
    ensures
        final(table)@ == subset_40_to_69(old(table)@),
        final(table)@.len() == OPCODE_TABLE_SIZE,
        forall|key: int|
            0 <= key < OPCODE_TABLE_SIZE && !(0x40 <= key < 0x6A) ==> #[trigger] final(table)@[key]
                == old(table)@[key],
        entries_wf(old(table)@) ==> entries_wf(final(table)@),
{
    // 0x40 + r: inc rW
    define_opcode(0x40)
        .calls(OpcodeFn::IncrementNativeWord)
        .with_gas(GasCost::Low)
        .with_suffix_regw()
        .into_table(table);
    // 0x48 + r: dec rW
    define_opcode(0x48)
        .calls(OpcodeFn::DecrementNativeWord)
        .with_gas(GasCost::Low)
        .with_suffix_regw()
        .into_table(table);
    // 0x50 + r: push rW
    define_opcode(0x50)
        .calls(OpcodeFn::Push)
        .with_gas(GasCost::VeryLow)
        .with_suffix_regw()
        .into_table(table);
    // 0x58 + r: pop rW
    define_opcode(0x58)
        .calls(OpcodeFn::Pop)
        .with_gas(GasCost::VeryLow)
        .with_suffix_regw()
        .into_table(table);
    // 0x68: push immW
    define_opcode(0x68)
        .calls(OpcodeFn::Push)
        .with_gas(GasCost::VeryLow)
        .with_immw()
        .into_table(table);
    // 0x69: imul rW, rmW, immW
    define_opcode(0x69)
        .calls(OpcodeFn::Imul3NativeWord)
        .with_gas(GasCost::Low)
        .with_rm_regw()
        .with_rmw()
        .with_immw()
        .into_table(table);
}

/// The table `t` with the opcodes 0x6A to 0x80 of the supported subset defined in it.
pub open spec fn subset_6a_to_80(t: Seq<OpcodeProperties>) -> Seq<OpcodeProperties> {
    // 0x6A: push imm8
    let t = Definition::opcode(0x6A)
        .calls(OpcodeFn::Push)
        .with_gas(GasCost::VeryLow)
        .with_imm8()
        .table_after(t);
    // 0x6B: imul rW, rmW, imm8
    let t = Definition::opcode(0x6B)
        .calls(OpcodeFn::Imul3NativeWord)
        .with_gas(GasCost::Low)
        .with_rm_regw()
        .with_rmw()
        .with_imm8()
        .table_after(t);
    // 0x70 to 0x7F: jcc rel8
    let t = Definition::opcodes(0x70, 16)
        .calls(OpcodeFn::Jcc)
        .with_gas(GasCost::Low)
        .with_arg(ArgSource::JumpRel, OpcodeValueSize::Fixed(ValueSize::Byte))
        .is_unpredictable()
        .table_after(t);
    // 0x80 /3: sbb rm8, imm8
    let t = Definition::opcode(0x80)
        .is_group(3)
        .calls(OpcodeFn::Sbb8bit)
        .with_gas(GasCost::Low)
        .with_rm8()
        .with_imm8()
        .table_after(t);
    // 0x80 /2: adc rm8, imm8
    let t = Definition::opcode(0x80)
        .is_group(2)
        .calls(OpcodeFn::Adc8bit)
        .with_gas(GasCost::Low)
        .with_rm8()
        .with_imm8()
        .table_after(t);
    // 0x80 /0: add rm8, imm8
    let t = Definition::opcode(0x80)
        .is_group(0)
        .calls(OpcodeFn::Add8bit)
        .with_gas(GasCost::Low)
        .with_rm8()
        .with_imm8()
        .table_after(t);
    // 0x80 /5: sub rm8, imm8
    let t = Definition::opcode(0x80)
        .is_group(5)
        .calls(OpcodeFn::Sub8bit)
        .with_gas(GasCost::Low)
        .with_rm8()
        .with_imm8()
        .table_after(t);
    // 0x80 /7: cmp rm8, imm8
    let t = Definition::opcode(0x80)
        .is_group(7)
        .calls(OpcodeFn::Cmp8bit)
        .with_gas(GasCost::Low)
        .with_rm8()
        .with_imm8()
        .table_after(t);
    // 0x80 /4: and rm8, imm8
    let t = Definition::opcode(0x80)
        .is_group(4)
        .calls(OpcodeFn::And8bit)
        .with_gas(GasCost::Low)
        .with_rm8()
        .with_imm8()
        .table_after(t);
    // 0x80 /1: or rm8, imm8
    let t = Definition::opcode(0x80)
        .is_group(1)
        .calls(OpcodeFn::Or8bit)
        .with_gas(GasCost::Low)
        .with_rm8()
        .with_imm8()
        .table_after(t);
    // 0x80 /6: xor rm8, imm8
    let t = Definition::opcode(0x80)
        .is_group(6)
        .calls(OpcodeFn::Xor8bit)
        .with_gas(GasCost::Low)
        .with_rm8()
        .with_imm8()
        .table_after(t);
    t
}

/// Defines the opcodes 0x6A to 0x80.
#[verifier::rlimit(50)]
fn define_6a_to_80(table: &mut [OpcodeProperties])
    requires
        old(table)@.len() == OPCODE_TABLE_SIZE,
        forall|key: int|
            0x6A <= key < 0x81 ==> #[trigger] old(table)@[key] == OpcodeProperties::undefined(),
    ensures
        final(table)@ == subset_6a_to_80(old(table)@),
        final(table)@.len() == OPCODE_TABLE_SIZE,
        forall|key: int|
            0 <= key < OPCODE_TABLE_SIZE && !(0x6A <= key < 0x81) ==> #[trigger] final(table)@[key]
                == old(table)@[key],
        entries_wf(old(table)@) ==> entries_wf(final(table)@),
{
    // 0x6A: push imm8
    define_opcode(0x6A)
        .calls(OpcodeFn::Push)
        .with_gas(GasCost::VeryLow)
        .with_imm8()
        .into_table(table);
    // 0x6B: imul rW, rmW, imm8
    define_opcode(0x6B)
        .calls(OpcodeFn::Imul3NativeWord)
        .with_gas(GasCost::Low)
        .with_rm_regw()
        .with_rmw()
        .with_imm8()
        .into_table(table);
    // 0x70 to 0x7F: jcc rel8
    define_opcode_multi(0x70, 16)
        .calls(OpcodeFn::Jcc)
        .with_gas(GasCost::Low)
        .with_arg(ArgSource::JumpRel, OpcodeValueSize::Fixed(ValueSize::Byte))
        .is_unpredictable()
        .into_table(table);
    // 0x80 /3: sbb rm8, imm8
    define_opcode(0x80)
        .is_group(3)
        .calls(OpcodeFn::Sbb8bit)
        .with_gas(GasCost::Low)
        .with_rm8()
        .with_imm8()
        .into_table(table);
    // 0x80 /2: adc rm8, imm8
    define_opcode(0x80)
        .is_group(2)
        .calls(OpcodeFn::Adc8bit)
        .with_gas(GasCost::Low)
        .with_rm8()
        .with_imm8()
        .into_table(table);
    // 0x80 /0: add rm8, imm8
    define_opcode(0x80)
        .is_group(0)
        .calls(OpcodeFn::Add8bit)
        .with_gas(GasCost::Low)
        .with_rm8()
        .with_imm8()
        .into_table(table);
    // 0x80 /5: sub rm8, imm8
    define_opcode(0x80)
        .is_group(5)
        .calls(OpcodeFn::Sub8bit)
        .with_gas(GasCost::Low)
        .with_rm8()
        .with_imm8()
        .into_table(table);
    // 0x80 /7: cmp rm8, imm8
    define_opcode(0x80)
        .is_group(7)
        .calls(OpcodeFn::Cmp8bit)
        .with_gas(GasCost::Low)
        .with_rm8()
        .with_imm8()
        .into_table(table);
    // 0x80 /4: and rm8, imm8
    define_opcode(0x80)
        .is_group(4)
        .calls(OpcodeFn::And8bit)
        .with_gas(GasCost::Low)
        .with_rm8()
        .with_imm8()
        .into_table(table);
    // 0x80 /1: or rm8, imm8
    define_opcode(0x80)
        .is_group(1)
        .calls(OpcodeFn::Or8bit)
        .with_gas(GasCost::Low)
        .with_rm8()
        .with_imm8()
        .into_table(table);
    // 0x80 /6: xor rm8, imm8
    define_opcode(0x80)
        .is_group(6)
        .calls(OpcodeFn::Xor8bit)
        .with_gas(GasCost::Low)
        .with_rm8()
        .with_imm8()
        .into_table(table);
}

/// The table `t` with the opcodes 0x81 to 0x81 of the supported subset defined in it.
pub open spec fn subset_81_to_81(t: Seq<OpcodeProperties>) -> Seq<OpcodeProperties> {
    // 0x81 /3: sbb rmW, immW
    let t = Definition::opcode(0x81)
        .is_group(3)
        .calls(OpcodeFn::SbbNativeWord)
        .with_gas(GasCost::Low)
        .with_rmw()
        .with_immw()
        .table_after(t);
    // 0x81 /2: adc rmW, immW
    let t = Definition::opcode(0x81)
        .is_group(2)
        .calls(OpcodeFn::AdcNativeWord)
        .with_gas(GasCost::Low)
        .with_rmw()
        .with_immw()
        .table_after(t);
    // 0x81 /0: add rmW, immW
    let t = Definition::opcode(0x81)
        .is_group(0)
        .calls(OpcodeFn::AddNativeWord)
        .with_gas(GasCost::Low)
        .with_rmw()
        .with_immw()
        .table_after(t);
    // 0x81 /5: sub rmW, immW
    let t = Definition::opcode(0x81)
        .is_group(5)
        .calls(OpcodeFn::SubNativeWord)
        .with_gas(GasCost::Low)
        .with_rmw()
        .with_immw()
        .table_after(t);
    // 0x81 /7: cmp rmW, immW
    let t = Definition::opcode(0x81)
        .is_group(7)
        .calls(OpcodeFn::CmpNativeWord)
        .with_gas(GasCost::Low)
        .with_rmw()
        .with_immw()
        .table_after(t);
    // 0x81 /4: and rmW, immW
    let t = Definition::opcode(0x81)
        .is_group(4)
        .calls(OpcodeFn::AndNativeWord)
        .with_gas(GasCost::Low)
        .with_rmw()
        .with_immw()
        .table_after(t);
    // 0x81 /1: or rmW, immW
    let t = Definition::opcode(0x81)
        .is_group(1)
        .calls(OpcodeFn::OrNativeWord)
        .with_gas(GasCost::Low)
        .with_rmw()
        .with_immw()
        .table_after(t);
    // 0x81 /6: xor rmW, immW
    let t = Definition::opcode(0x81)
        .is_group(6)
        .calls(OpcodeFn::XorNativeWord)
        .with_gas(GasCost::Low)
        .with_rmw()
        .with_immw()
        .table_after(t);
    t
}

/// Defines the opcodes 0x81 to 0x81.
#[verifier::rlimit(50)]
fn define_81_to_81(table: &mut [OpcodeProperties])
    requires
        old(table)@.len() == OPCODE_TABLE_SIZE,
        forall|key: int|
            0x81 <= key < 0x82 ==> #[trigger] old(table)@[key] == OpcodeProperties::undefined(),
    ensures
        final(table)@ == subset_81_to_81(old(table)@),
        final(table)@.len() == OPCODE_TABLE_SIZE,
        forall|key: int|
            0 <= key < OPCODE_TABLE_SIZE && !(0x81 <= key < 0x82) ==> #[trigger] final(table)@[key]
                == old(table)@[key],
        entries_wf(old(table)@) ==> entries_wf(final(table)@),
{
    // 0x81 /3: sbb rmW, immW
    define_opcode(0x81)
        .is_group(3)
        .calls(OpcodeFn::SbbNativeWord)
        .with_gas(GasCost::Low)
        .with_rmw()
        .with_immw()
        .into_table(table);
    // 0x81 /2: adc rmW, immW
    define_opcode(0x81)
        .is_group(2)
        .calls(OpcodeFn::AdcNativeWord)
        .with_gas(GasCost::Low)
        .with_rmw()
        .with_immw()
        .into_table(table);
    // 0x81 /0: add rmW, immW
    define_opcode(0x81)
        .is_group(0)
        .calls(OpcodeFn::AddNativeWord)
        .with_gas(GasCost::Low)
        .with_rmw()
        .with_immw()
        .into_table(table);
    // 0x81 /5: sub rmW, immW
    define_opcode(0x81)
        .is_group(5)
        .calls(OpcodeFn::SubNativeWord)
        .with_gas(GasCost::Low)
        .with_rmw()
        .with_immw()
        .into_table(table);
    // 0x81 /7: cmp rmW, immW
    define_opcode(0x81)
        .is_group(7)
        .calls(OpcodeFn::CmpNativeWord)
        .with_gas(GasCost::Low)
        .with_rmw()
        .with_immw()
        .into_table(table);
    // 0x81 /4: and rmW, immW
    define_opcode(0x81)
        .is_group(4)
        .calls(OpcodeFn::AndNativeWord)
        .with_gas(GasCost::Low)
        .with_rmw()
        .with_immw()
        .into_table(table);
    // 0x81 /1: or rmW, immW
    define_opcode(0x81)
        .is_group(1)
        .calls(OpcodeFn::OrNativeWord)
        .with_gas(GasCost::Low)
        .with_rmw()
        .with_immw()
        .into_table(table);
    // 0x81 /6: xor rmW, immW
    define_opcode(0x81)
        .is_group(6)
        .calls(OpcodeFn::XorNativeWord)
        .with_gas(GasCost::Low)
        .with_rmw()
        .with_immw()
        .into_table(table);
}

/// The table `t` with the opcodes 0x83 to 0x83 of the supported subset defined in it.
pub open spec fn subset_83_to_83(t: Seq<OpcodeProperties>) -> Seq<OpcodeProperties> {
    // 0x83 /3: sbb rmW, imm8
    let t = Definition::opcode(0x83)
        .is_group(3)
        .calls(OpcodeFn::SbbNativeWord)
        .with_gas(GasCost::Low)
        .with_rmw()
        .with_imm8()
        .table_after(t);
    // 0x83 /2: adc rmW, imm8
    let t = Definition::opcode(0x83)
        .is_group(2)
        .calls(OpcodeFn::AdcNativeWord)
        .with_gas(GasCost::Low)
        .with_rmw()
        .with_imm8()
        .table_after(t);
    // 0x83 /0: add rmW, imm8
    let t = Definition::opcode(0x83)
        .is_group(0)
        .calls(OpcodeFn::AddNativeWord)
        .with_gas(GasCost::Low)
        .with_rmw()
        .with_imm8()
        .table_after(t);
    // 0x83 /5: sub rmW, imm8
    let t = Definition::opcode(0x83)
        .is_group(5)
        .calls(OpcodeFn::SubNativeWord)
        .with_gas(GasCost::Low)
        .with_rmw()
        .with_imm8()
        .table_after(t);
    // 0x83 /7: cmp rmW, imm8
    let t = Definition::opcode(0x83)
        .is_group(7)
        .calls(OpcodeFn::CmpNativeWord)
        .with_gas(GasCost::Low)
        .with_rmw()
        .with_imm8()
        .table_after(t);
    // 0x83 /4: and rmW, imm8
    let t = Definition::opcode(0x83)
        .is_group(4)
        .calls(OpcodeFn::AndNativeWord)
        .with_gas(GasCost::Low)
        .with_rmw()
        .with_imm8()
        .table_after(t);
    // 0x83 /1: or rmW, imm8
    let t = Definition::opcode(0x83)
        .is_group(1)
        .calls(OpcodeFn::OrNativeWord)
        .with_gas(GasCost::Low)
        .with_rmw()
        .with_imm8()
        .table_after(t);
    // 0x83 /6: xor rmW, imm8
    let t = Definition::opcode(0x83)
        .is_group(6)
        .calls(OpcodeFn::XorNativeWord)
        .with_gas(GasCost::Low)
        .with_rmw()
        .with_imm8()
        .table_after(t);
    t
}

/// Defines the opcodes 0x83 to 0x83.
#[verifier::rlimit(50)]
fn define_83_to_83(table: &mut [OpcodeProperties])
    requires
        old(table)@.len() == OPCODE_TABLE_SIZE,
        forall|key: int|
            0x83 <= key < 0x84 ==> #[trigger] old(table)@[key] == OpcodeProperties::undefined(),
    ensures
        final(table)@ == subset_83_to_83(old(table)@),
        final(table)@.len() == OPCODE_TABLE_SIZE,
        forall|key: int|
            0 <= key < OPCODE_TABLE_SIZE && !(0x83 <= key < 0x84) ==> #[trigger] final(table)@[key]
                == old(table)@[key],
        entries_wf(old(table)@) ==> entries_wf(final(table)@),
{
    // 0x83 /3: sbb rmW, imm8
    define_opcode(0x83)
        .is_group(3)
        .calls(OpcodeFn::SbbNativeWord)
        .with_gas(GasCost::Low)
        .with_rmw()
        .with_imm8()
        .into_table(table);
    // 0x83 /2: adc rmW, imm8
    define_opcode(0x83)
        .is_group(2)
        .calls(OpcodeFn::AdcNativeWord)
        .with_gas(GasCost::Low)
        .with_rmw()
        .with_imm8()
        .into_table(table);
    // 0x83 /0: add rmW, imm8
    define_opcode(0x83)
        .is_group(0)
        .calls(OpcodeFn::AddNativeWord)
        .with_gas(GasCost::Low)
        .with_rmw()
        .with_imm8()
        .into_table(table);
    // 0x83 /5: sub rmW, imm8
    define_opcode(0x83)
        .is_group(5)
        .calls(OpcodeFn::SubNativeWord)
        .with_gas(GasCost::Low)
        .with_rmw()
        .with_imm8()
        .into_table(table);
    // 0x83 /7: cmp rmW, imm8
    define_opcode(0x83)
        .is_group(7)
        .calls(OpcodeFn::CmpNativeWord)
        .with_gas(GasCost::Low)
        .with_rmw()
        .with_imm8()
        .into_table(table);
    // 0x83 /4: and rmW, imm8
    define_opcode(0x83)
        .is_group(4)
        .calls(OpcodeFn::AndNativeWord)
        .with_gas(GasCost::Low)
        .with_rmw()
        .with_imm8()
        .into_table(table);
    // 0x83 /1: or rmW, imm8
    define_opcode(0x83)
        .is_group(1)
        .calls(OpcodeFn::OrNativeWord)
        .with_gas(GasCost::Low)
        .with_rmw()
        .with_imm8()
        .into_table(table);
    // 0x83 /6: xor rmW, imm8
    define_opcode(0x83)
        .is_group(6)
        .calls(OpcodeFn::XorNativeWord)
        .with_gas(GasCost::Low)
        .with_rmw()
        .with_imm8()
        .into_table(table);
}

/// The table `t` with the opcodes 0x84 to 0x89 of the supported subset defined in it.
pub open spec fn subset_84_to_89(t: Seq<OpcodeProperties>) -> Seq<OpcodeProperties> {
    // 0x84: test rm8, r8
    let t = Definition::opcode(0x84)
        .calls(OpcodeFn::Test8bit)
        .with_gas(GasCost::Low)
        .with_rm8()
        .with_rm_reg8()
        .table_after(t);
    // 0x85: test rmW, rW
    let t = Definition::opcode(0x85)
        .calls(OpcodeFn::TestNativeWord)
        .with_gas(GasCost::Low)
        .with_rmw()
        .with_rm_regw()
        .table_after(t);
    // 0x86: xchg rm8, r8
    let t = Definition::opcode(0x86)
        .calls(OpcodeFn::Xchg)
        .with_gas(GasCost::Low)
        .with_rm8()
        .with_rm_reg8()
        .table_after(t);
    // 0x87: xchg rmW, rW
    let t = Definition::opcode(0x87)
        .calls(OpcodeFn::Xchg)
        .with_gas(GasCost::Low)
        .with_rmw()
        .with_rm_regw()
        .table_after(t);
    // 0x88: mov rm8, r8
    let t = Definition::opcode(0x88)
        .calls(OpcodeFn::Mov)
        .with_gas(GasCost::VeryLow)
        .with_rm8()
        .with_rm_reg8()
        .table_after(t);
    // 0x89: mov rmW, rW
    let t = Definition::opcode(0x89)
        .calls(OpcodeFn::Mov)
        .with_gas(GasCost::VeryLow)
        .with_rmw()
        .with_rm_regw()
        .table_after(t);
    t
}

/// Defines the opcodes 0x84 to 0x89.
#[verifier::rlimit(50)]
fn define_84_to_89(table: &mut [OpcodeProperties])
    requires
        old(table)@.len() == OPCODE_TABLE_SIZE,
        forall|key: int|
            0x84 <= key < 0x8A ==> #[trigger] old(table)@[key] == OpcodeProperties::undefined(),
    ensures
        final(table)@ == subset_84_to_89(old(table)@),
        final(table)@.len() == OPCODE_TABLE_SIZE,
        forall|key: int|
            0 <= key < OPCODE_TABLE_SIZE && !(0x84 <= key < 0x8A) ==> #[trigger] final(table)@[key]
                == old(table)@[key],
        entries_wf(old(table)@) ==> entries_wf(final(table)@),
{
    // 0x84: test rm8, r8
    define_opcode(0x84)
        .calls(OpcodeFn::Test8bit)
        .with_gas(GasCost::Low)
        .with_rm8()
        .with_rm_reg8()
        .into_table(table);
    // 0x85: test rmW, rW
    define_opcode(0x85)
        .calls(OpcodeFn::TestNativeWord)
        .with_gas(GasCost::Low)
        .with_rmw()
        .with_rm_regw()
        .into_table(table);
    // 0x86: xchg rm8, r8
    define_opcode(0x86)
        .calls(OpcodeFn::Xchg)
        .with_gas(GasCost::Low)
        .with_rm8()
        .with_rm_reg8()
        .into_table(table);
    // 0x87: xchg rmW, rW
    define_opcode(0x87)
        .calls(OpcodeFn::Xchg)
        .with_gas(GasCost::Low)
        .with_rmw()
        .with_rm_regw()
        .into_table(table);
    // 0x88: mov rm8, r8
    define_opcode(0x88)
        .calls(OpcodeFn::Mov)
        .with_gas(GasCost::VeryLow)
        .with_rm8()
        .with_rm_reg8()
        .into_table(table);
    // 0x89: mov rmW, rW
    define_opcode(0x89)
        .calls(OpcodeFn::Mov)
        .with_gas(GasCost::VeryLow)
        .with_rmw()
        .with_rm_regw()
        .into_table(table);
}

/// The table `t` with the opcodes 0x8A to 0x97 of the supported subset defined in it.
pub open spec fn subset_8a_to_97(t: Seq<OpcodeProperties>) -> Seq<OpcodeProperties> {
    // 0x8A: mov r8, rm8
    let t = Definition::opcode(0x8A)
        .calls(OpcodeFn::Mov)
        .with_gas(GasCost::VeryLow)
        .with_rm_reg8()
        .with_rm8()
        .table_after(t);
    // 0x8B: mov rW, rmW
    let t = Definition::opcode(0x8B)
        .calls(OpcodeFn::Mov)
        .with_gas(GasCost::VeryLow)
        .with_rm_regw()
        .with_rmw()
        .table_after(t);
    // 0x8D: lea rW, rmW
    let t = Definition::opcode(0x8D)
        .calls(OpcodeFn::Lea)
        .with_gas(GasCost::Low)
        .with_rm_regw()
        .with_rmw()
        .table_after(t);
    // 0x8F /0: pop rmW
    let t = Definition::opcode(0x8F)
        .calls(OpcodeFn::Pop)
        .with_gas(GasCost::VeryLow)
        .is_group(0)
        .with_rmw()
        .table_after(t);
    // 0x90: nop
    let t = Definition::opcode(0x90).calls(OpcodeFn::Nop).with_gas(GasCost::Free).table_after(t);
    // 0x90 + r: xchg eAX, rW
    let t = Definition::opcode(0x90)
        .calls(OpcodeFn::Xchg)
        .with_gas(GasCost::Low)
        .with_arg(ArgSource::HardcodedRegister(0), OpcodeValueSize::NativeWord)
        .with_suffix_regw()
        .table_after(t);
    t
}

/// Defines the opcodes 0x8A to 0x97.
#[verifier::rlimit(50)]
fn define_8a_to_97(table: &mut [OpcodeProperties])
    requires
        old(table)@.len() == OPCODE_TABLE_SIZE,
        forall|key: int|
            0x8A <= key < 0x98 ==> #[trigger] old(table)@[key] == OpcodeProperties::undefined(),
    ensures
        final(table)@ == subset_8a_to_97(old(table)@),
        final(table)@.len() == OPCODE_TABLE_SIZE,
        forall|key: int|
            0 <= key < OPCODE_TABLE_SIZE && !(0x8A <= key < 0x98) ==> #[trigger] final(table)@[key]
                == old(table)@[key],
        entries_wf(old(table)@) ==> entries_wf(final(table)@),
{
    // 0x8A: mov r8, rm8
    define_opcode(0x8A)
        .calls(OpcodeFn::Mov)
        .with_gas(GasCost::VeryLow)
        .with_rm_reg8()
        .with_rm8()
        .into_table(table);
    // 0x8B: mov rW, rmW
    define_opcode(0x8B)
        .calls(OpcodeFn::Mov)
        .with_gas(GasCost::VeryLow)
        .with_rm_regw()
        .with_rmw()
        .into_table(table);
    // 0x8D: lea rW, rmW
    define_opcode(0x8D)
        .calls(OpcodeFn::Lea)
        .with_gas(GasCost::Low)
        .with_rm_regw()
        .with_rmw()
        .into_table(table);
    // 0x8F /0: pop rmW
    define_opcode(0x8F)
        .calls(OpcodeFn::Pop)
        .with_gas(GasCost::VeryLow)
        .is_group(0)
        .with_rmw()
        .into_table(table);
    // 0x90: nop
    define_opcode(0x90).calls(OpcodeFn::Nop).with_gas(GasCost::Free).into_table(table);
    // 0x90 + r: xchg eAX, rW
    define_opcode(0x90)
        .calls(OpcodeFn::Xchg)
        .with_gas(GasCost::Low)
        .with_arg(ArgSource::HardcodedRegister(0), OpcodeValueSize::NativeWord)
        .with_suffix_regw()
        .into_table(table);
}

/// The table `t` with the opcodes 0x98 to 0xA3 of the supported subset defined in it.
pub open spec fn subset_98_to_a3(t: Seq<OpcodeProperties>) -> Seq<OpcodeProperties> {
    // 0x98: cbw/cwde
    let t = Definition::opcode(0x98).calls(OpcodeFn::CbwCwde).with_gas(GasCost::Low).table_after(t);
    // 0x99: cwd/cdq
    let t = Definition::opcode(0x99).calls(OpcodeFn::CdqCwd).with_gas(GasCost::Low).table_after(t);
    // 0xA0: mov AL, offs8
    let t = Definition::opcode(0xA0)
        .calls(OpcodeFn::Mov)
        .with_gas(GasCost::VeryLow)
        .with_arg(ArgSource::HardcodedRegister(0), OpcodeValueSize::Fixed(ValueSize::Byte))
        .with_offs8()
        .table_after(t);
    // 0xA1: mov eAX, offsW
    let t = Definition::opcode(0xA1)
        .calls(OpcodeFn::Mov)
        .with_gas(GasCost::VeryLow)
        .with_arg(ArgSource::HardcodedRegister(0), OpcodeValueSize::NativeWord)
        .with_offsw()
        .table_after(t);
    // 0xA2: mov offs8, AL
    let t = Definition::opcode(0xA2)
        .calls(OpcodeFn::Mov)
        .with_gas(GasCost::VeryLow)
        .with_offs8()
        .with_arg(ArgSource::HardcodedRegister(0), OpcodeValueSize::Fixed(ValueSize::Byte))
        .table_after(t);
    // 0xA3: mov offsW, eAX
    let t = Definition::opcode(0xA3)
        .calls(OpcodeFn::Mov)
        .with_gas(GasCost::VeryLow)
        .with_offsw()
        .with_arg(ArgSource::HardcodedRegister(0), OpcodeValueSize::NativeWord)
        .table_after(t);
    t
}

/// Defines the opcodes 0x98 to 0xA3.
#[verifier::rlimit(50)]
fn define_98_to_a3(table: &mut [OpcodeProperties])
    requires
        old(table)@.len() == OPCODE_TABLE_SIZE,
        forall|key: int|
            0x98 <= key < 0xA4 ==> #[trigger] old(table)@[key] == OpcodeProperties::undefined(),
    ensures
        final(table)@ == subset_98_to_a3(old(table)@),
        final(table)@.len() == OPCODE_TABLE_SIZE,
        forall|key: int|
            0 <= key < OPCODE_TABLE_SIZE && !(0x98 <= key < 0xA4) ==> #[trigger] final(table)@[key]
                == old(table)@[key],
        entries_wf(old(table)@) ==> entries_wf(final(table)@),
{
    // 0x98: cbw/cwde
    define_opcode(0x98).calls(OpcodeFn::CbwCwde).with_gas(GasCost::Low).into_table(table);
    // 0x99: cwd/cdq
    define_opcode(0x99).calls(OpcodeFn::CdqCwd).with_gas(GasCost::Low).into_table(table);
    // 0xA0: mov AL, offs8
    define_opcode(0xA0)
        .calls(OpcodeFn::Mov)
        .with_gas(GasCost::VeryLow)
        .with_arg(ArgSource::HardcodedRegister(0), OpcodeValueSize::Fixed(ValueSize::Byte))
        .with_offs8()
        .into_table(table);
    // 0xA1: mov eAX, offsW
    define_opcode(0xA1)
        .calls(OpcodeFn::Mov)
        .with_gas(GasCost::VeryLow)
        .with_arg(ArgSource::HardcodedRegister(0), OpcodeValueSize::NativeWord)
        .with_offsw()
        .into_table(table);
    // 0xA2: mov offs8, AL
    define_opcode(0xA2)
        .calls(OpcodeFn::Mov)
        .with_gas(GasCost::VeryLow)
        .with_offs8()
        .with_arg(ArgSource::HardcodedRegister(0), OpcodeValueSize::Fixed(ValueSize::Byte))
        .into_table(table);
    // 0xA3: mov offsW, eAX
    define_opcode(0xA3)
        .calls(OpcodeFn::Mov)
        .with_gas(GasCost::VeryLow)
        .with_offsw()
        .with_arg(ArgSource::HardcodedRegister(0), OpcodeValueSize::NativeWord)
        .into_table(table);
}

/// The table `t` with the opcodes 0xA4 to 0xA9 of the supported subset defined in it.
pub open spec fn subset_a4_to_a9(t: Seq<OpcodeProperties>) -> Seq<OpcodeProperties> {
    // 0xA4: movsb
    let t = Definition::opcode(0xA4).calls(OpcodeFn::Movsb).with_gas(GasCost::Low).table_after(t);
    // 0xA5: movs
    let t = Definition::opcode(0xA5)
        .calls(OpcodeFn::MovsNativeWord)
        .with_gas(GasCost::Low)
        .table_after(t);
    // 0xA6: cmpsb
    let t = Definition::opcode(0xA6).calls(OpcodeFn::Cmpsb).with_gas(GasCost::Low).table_after(t);
    // 0xA7: cmps
    let t = Definition::opcode(0xA7)
        .calls(OpcodeFn::CmpsNativeWord)
        .with_gas(GasCost::Low)
        .table_after(t);
    // 0xA8: test AL, imm8
    let t = Definition::opcode(0xA8)
        .calls(OpcodeFn::Test8bit)
        .with_gas(GasCost::Low)
        .with_arg(ArgSource::HardcodedRegister(0), OpcodeValueSize::Fixed(ValueSize::Byte))
        .with_imm8()
        .table_after(t);
    // 0xA9: test eAX, immW
    let t = Definition::opcode(0xA9)
        .calls(OpcodeFn::TestNativeWord)
        .with_gas(GasCost::Low)
        .with_arg(ArgSource::HardcodedRegister(0), OpcodeValueSize::NativeWord)
        .with_immw()
        .table_after(t);
    t
}

/// Defines the opcodes 0xA4 to 0xA9.
#[verifier::rlimit(50)]
fn define_a4_to_a9(table: &mut [OpcodeProperties])
    requires
        old(table)@.len() == OPCODE_TABLE_SIZE,
        forall|key: int|
            0xA4 <= key < 0xAA ==> #[trigger] old(table)@[key] == OpcodeProperties::undefined(),
    ensures
        final(table)@ == subset_a4_to_a9(old(table)@),
        final(table)@.len() == OPCODE_TABLE_SIZE,
        forall|key: int|
            0 <= key < OPCODE_TABLE_SIZE && !(0xA4 <= key < 0xAA) ==> #[trigger] final(table)@[key]
                == old(table)@[key],
        entries_wf(old(table)@) ==> entries_wf(final(table)@),
{
    // 0xA4: movsb
    define_opcode(0xA4).calls(OpcodeFn::Movsb).with_gas(GasCost::Low).into_table(table);
    // 0xA5: movs
    define_opcode(0xA5).calls(OpcodeFn::MovsNativeWord).with_gas(GasCost::Low).into_table(table);
    // 0xA6: cmpsb
    define_opcode(0xA6).calls(OpcodeFn::Cmpsb).with_gas(GasCost::Low).into_table(table);
    // 0xA7: cmps
    define_opcode(0xA7).calls(OpcodeFn::CmpsNativeWord).with_gas(GasCost::Low).into_table(table);
    // 0xA8: test AL, imm8
    define_opcode(0xA8)
        .calls(OpcodeFn::Test8bit)
        .with_gas(GasCost::Low)
        .with_arg(ArgSource::HardcodedRegister(0), OpcodeValueSize::Fixed(ValueSize::Byte))
        .with_imm8()
        .into_table(table);
    // 0xA9: test eAX, immW
    define_opcode(0xA9)
        .calls(OpcodeFn::TestNativeWord)
        .with_gas(GasCost::Low)
        .with_arg(ArgSource::HardcodedRegister(0), OpcodeValueSize::NativeWord)
        .with_immw()
        .into_table(table);
}

/// The table `t` with the opcodes 0xAA to 0xAF of the supported subset defined in it.
pub open spec fn subset_aa_to_af(t: Seq<OpcodeProperties>) -> Seq<OpcodeProperties> {
    // 0xAA: stosb
    let t = Definition::opcode(0xAA)
        .calls(OpcodeFn::StoreStringByte)
        .with_gas(GasCost::Low)
        .table_after(t);
    // 0xAB: stos
    let t = Definition::opcode(0xAB)
        .calls(OpcodeFn::StoreStringNativeWord)
        .with_gas(GasCost::Low)
        .table_after(t);
    // 0xAC: lodsb
    let t = Definition::opcode(0xAC)
        .calls(OpcodeFn::LoadStringByte)
        .with_gas(GasCost::Low)
        .table_after(t);
    // 0xAD: lods
    let t = Definition::opcode(0xAD)
        .calls(OpcodeFn::LoadStringNativeWord)
        .with_gas(GasCost::Low)
        .table_after(t);
    // 0xAE: scasb
    let t = Definition::opcode(0xAE)
        .calls(OpcodeFn::ScanStringByte)
        .with_gas(GasCost::Low)
        .table_after(t);
    // 0xAF: scas
    let t = Definition::opcode(0xAF)
        .calls(OpcodeFn::ScanStringNativeWord)
        .with_gas(GasCost::Low)
        .table_after(t);
    t
}

/// Defines the opcodes 0xAA to 0xAF.
#[verifier::rlimit(50)]
fn define_aa_to_af(table: &mut [OpcodeProperties])
    requires
        old(table)@.len() == OPCODE_TABLE_SIZE,
        forall|key: int|
            0xAA <= key < 0xB0 ==> #[trigger] old(table)@[key] == OpcodeProperties::undefined(),
    ensures
        final(table)@ == subset_aa_to_af(old(table)@),
        final(table)@.len() == OPCODE_TABLE_SIZE,
        forall|key: int|
            0 <= key < OPCODE_TABLE_SIZE && !(0xAA <= key < 0xB0) ==> #[trigger] final(table)@[key]
                == old(table)@[key],
        entries_wf(old(table)@) ==> entries_wf(final(table)@),
{
    // 0xAA: stosb
    define_opcode(0xAA).calls(OpcodeFn::StoreStringByte).with_gas(GasCost::Low).into_table(table);
    // 0xAB: stos
    define_opcode(0xAB)
        .calls(OpcodeFn::StoreStringNativeWord)
        .with_gas(GasCost::Low)
        .into_table(table);
    // 0xAC: lodsb
    define_opcode(0xAC).calls(OpcodeFn::LoadStringByte).with_gas(GasCost::Low).into_table(table);
    // 0xAD: lods
    define_opcode(0xAD)
        .calls(OpcodeFn::LoadStringNativeWord)
        .with_gas(GasCost::Low)
        .into_table(table);
    // 0xAE: scasb
    define_opcode(0xAE).calls(OpcodeFn::ScanStringByte).with_gas(GasCost::Low).into_table(table);
    // 0xAF: scas
    define_opcode(0xAF)
        .calls(OpcodeFn::ScanStringNativeWord)
        .with_gas(GasCost::Low)
        .into_table(table);
}

/// The table `t` with the opcodes 0xB0 to 0xC1 of the supported subset defined in it.
pub open spec fn subset_b0_to_c1(t: Seq<OpcodeProperties>) -> Seq<OpcodeProperties> {
    // 0xB0 + r: mov r8, imm8
    let t = Definition::opcode(0xB0)
        .calls(OpcodeFn::Mov)
        .with_gas(GasCost::VeryLow)
        .with_suffix_reg8()
        .with_imm8()
        .table_after(t);
    // 0xB8 + r: mov rW, immW
    let t = Definition::opcode(0xB8)
        .calls(OpcodeFn::Mov)
        .with_gas(GasCost::VeryLow)
        .with_suffix_regw()
        .with_immw()
        .table_after(t);
    // 0xC0 /4: shl rm8, imm8
    let t = Definition::opcode(0xC0)
        .is_group(4)
        .calls(OpcodeFn::Shl8bit)
        .with_gas(GasCost::Low)
        .with_rm8()
        .with_imm8()
        .table_after(t);
    // 0xC0 /5: shr rm8, imm8
    let t = Definition::opcode(0xC0)
        .is_group(5)
        .calls(OpcodeFn::Shr8bit)
        .with_gas(GasCost::Low)
        .with_rm8()
        .with_imm8()
        .table_after(t);
    // 0xC1 /4: shl rmW, imm8
    let t = Definition::opcode(0xC1)
        .is_group(4)
        .calls(OpcodeFn::ShlNativeWord)
        .with_gas(GasCost::Low)
        .with_rmw()
        .with_imm8()
        .table_after(t);
    // 0xC1 /5: shr rmW, imm8
    let t = Definition::opcode(0xC1)
        .is_group(5)
        .calls(OpcodeFn::ShrNativeWord)
        .with_gas(GasCost::Low)
        .with_rmw()
        .with_imm8()
        .table_after(t);
    t
}

/// Defines the opcodes 0xB0 to 0xC1.
#[verifier::rlimit(50)]
fn define_b0_to_c1(table: &mut [OpcodeProperties])
    requires
        old(table)@.len() == OPCODE_TABLE_SIZE,
        forall|key: int|
            0xB0 <= key < 0xC2 ==> #[trigger] old(table)@[key] == OpcodeProperties::undefined(),
    ensures
        final(table)@ == subset_b0_to_c1(old(table)@),
        final(table)@.len() == OPCODE_TABLE_SIZE,
        forall|key: int|
            0 <= key < OPCODE_TABLE_SIZE && !(0xB0 <= key < 0xC2) ==> #[trigger] final(table)@[key]
                == old(table)@[key],
        entries_wf(old(table)@) ==> entries_wf(final(table)@),
{
    // 0xB0 + r: mov r8, imm8
    define_opcode(0xB0)
        .calls(OpcodeFn::Mov)
        .with_gas(GasCost::VeryLow)
        .with_suffix_reg8()
        .with_imm8()
        .into_table(table);
    // 0xB8 + r: mov rW, immW
    define_opcode(0xB8)
        .calls(OpcodeFn::Mov)
        .with_gas(GasCost::VeryLow)
        .with_suffix_regw()
        .with_immw()
        .into_table(table);
    // 0xC0 /4: shl rm8, imm8
    define_opcode(0xC0)
        .is_group(4)
        .calls(OpcodeFn::Shl8bit)
        .with_gas(GasCost::Low)
        .with_rm8()
        .with_imm8()
        .into_table(table);
    // 0xC0 /5: shr rm8, imm8
    define_opcode(0xC0)
        .is_group(5)
        .calls(OpcodeFn::Shr8bit)
        .with_gas(GasCost::Low)
        .with_rm8()
        .with_imm8()
        .into_table(table);
    // 0xC1 /4: shl rmW, imm8
    define_opcode(0xC1)
        .is_group(4)
        .calls(OpcodeFn::ShlNativeWord)
        .with_gas(GasCost::Low)
        .with_rmw()
        .with_imm8()
        .into_table(table);
    // 0xC1 /5: shr rmW, imm8
    define_opcode(0xC1)
        .is_group(5)
        .calls(OpcodeFn::ShrNativeWord)
        .with_gas(GasCost::Low)
        .with_rmw()
        .with_imm8()
        .into_table(table);
}

/// The table `t` with the opcodes 0xC2 to 0xC9 of the supported subset defined in it.
pub open spec fn subset_c2_to_c9(t: Seq<OpcodeProperties>) -> Seq<OpcodeProperties> {
    // 0xC2: ret imm16
    let t = Definition::opcode(0xC2)
        .calls(OpcodeFn::Ret)
        .with_imm16()
        .is_unpredictable()
        .table_after(t);
    // 0xC3: ret
    let t = Definition::opcode(0xC3).calls(OpcodeFn::Ret).is_unpredictable().table_after(t);
    // 0xC6: mov rm8, imm8
    let t = Definition::opcode(0xC6)
        .calls(OpcodeFn::Mov)
        .with_gas(GasCost::VeryLow)
        .with_rm8()
        .with_imm8()
        .table_after(t);
    // 0xC7: mov rmW, immW
    let t = Definition::opcode(0xC7)
        .calls(OpcodeFn::Mov)
        .with_gas(GasCost::VeryLow)
        .with_rmw()
        .with_immw()
        .table_after(t);
    // 0xC8: enter imm16, imm8
    let t = Definition::opcode(0xC8)
        .calls(OpcodeFn::Enter)
        .with_gas(GasCost::Low)
        .with_imm16()
        .with_imm8()
        .table_after(t);
    // 0xC9: leave
    let t = Definition::opcode(0xC9).calls(OpcodeFn::Leave).with_gas(GasCost::Low).table_after(t);
    t
}

/// Defines the opcodes 0xC2 to 0xC9.
#[verifier::rlimit(50)]
fn define_c2_to_c9(table: &mut [OpcodeProperties])
    requires
        old(table)@.len() == OPCODE_TABLE_SIZE,
        forall|key: int|
            0xC2 <= key < 0xCA ==> #[trigger] old(table)@[key] == OpcodeProperties::undefined(),
    ensures
        final(table)@ == subset_c2_to_c9(old(table)@),
        final(table)@.len() == OPCODE_TABLE_SIZE,
        forall|key: int|
            0 <= key < OPCODE_TABLE_SIZE && !(0xC2 <= key < 0xCA) ==> #[trigger] final(table)@[key]
                == old(table)@[key],
        entries_wf(old(table)@) ==> entries_wf(final(table)@),
{
    // 0xC2: ret imm16
    define_opcode(0xC2).calls(OpcodeFn::Ret).with_imm16().is_unpredictable().into_table(table);
    // 0xC3: ret
    define_opcode(0xC3).calls(OpcodeFn::Ret).is_unpredictable().into_table(table);
    // 0xC6: mov rm8, imm8
    define_opcode(0xC6)
        .calls(OpcodeFn::Mov)
        .with_gas(GasCost::VeryLow)
        .with_rm8()
        .with_imm8()
        .into_table(table);
    // 0xC7: mov rmW, immW
    define_opcode(0xC7)
        .calls(OpcodeFn::Mov)
        .with_gas(GasCost::VeryLow)
        .with_rmw()
        .with_immw()
        .into_table(table);
    // 0xC8: enter imm16, imm8
    define_opcode(0xC8)
        .calls(OpcodeFn::Enter)
        .with_gas(GasCost::Low)
        .with_imm16()
        .with_imm8()
        .into_table(table);
    // 0xC9: leave
    define_opcode(0xC9).calls(OpcodeFn::Leave).with_gas(GasCost::Low).into_table(table);
}

/// The table `t` with the opcodes 0xCC to 0xD1 of the supported subset defined in it.
pub open spec fn subset_cc_to_d1(t: Seq<OpcodeProperties>) -> Seq<OpcodeProperties> {
    // 0xCC: int3
    let t = Definition::opcode(0xCC)
        .calls(OpcodeFn::Interrupt)
        .with_gas(GasCost::Moderate)
        .with_arg(ArgSource::Literal(SizedValue::Byte(3)), OpcodeValueSize::Fixed(ValueSize::Byte))
        .is_unpredictable()
        .table_after(t);
    // 0xCD: int imm8
    let t = Definition::opcode(0xCD)
        .calls(OpcodeFn::Interrupt)
        .with_gas(GasCost::Moderate)
        .with_imm8()
        .is_unpredictable()
        .table_after(t);
    // 0xD0 /4: shl rm8, 1
    let t = Definition::opcode(0xD0)
        .is_group(4)
        .calls(OpcodeFn::Shl8bit)
        .with_gas(GasCost::Low)
        .with_rm8()
        .with_arg(ArgSource::Literal(SizedValue::Byte(1)), OpcodeValueSize::Fixed(ValueSize::Byte))
        .table_after(t);
    // 0xD0 /5: shr rm8, 1
    let t = Definition::opcode(0xD0)
        .is_group(5)
        .calls(OpcodeFn::Shr8bit)
        .with_gas(GasCost::Low)
        .with_rm8()
        .with_arg(ArgSource::Literal(SizedValue::Byte(1)), OpcodeValueSize::Fixed(ValueSize::Byte))
        .table_after(t);
    // 0xD1 /4: shl rmW, 1
    let t = Definition::opcode(0xD1)
        .is_group(4)
        .calls(OpcodeFn::ShlNativeWord)
        .with_gas(GasCost::Low)
        .with_rmw()
        .with_arg(ArgSource::Literal(SizedValue::Byte(1)), OpcodeValueSize::Fixed(ValueSize::Byte))
        .table_after(t);
    // 0xD1 /5: shr rmW, 1
    let t = Definition::opcode(0xD1)
        .is_group(5)
        .calls(OpcodeFn::ShrNativeWord)
        .with_gas(GasCost::Low)
        .with_rmw()
        .with_arg(ArgSource::Literal(SizedValue::Byte(1)), OpcodeValueSize::Fixed(ValueSize::Byte))
        .table_after(t);
    t
}

/// Defines the opcodes 0xCC to 0xD1.
#[verifier::rlimit(50)]
fn define_cc_to_d1(table: &mut [OpcodeProperties])
    requires
        old(table)@.len() == OPCODE_TABLE_SIZE,
        forall|key: int|
            0xCC <= key < 0xD2 ==> #[trigger] old(table)@[key] == OpcodeProperties::undefined(),
    ensures
        final(table)@ == subset_cc_to_d1(old(table)@),
        final(table)@.len() == OPCODE_TABLE_SIZE,
        forall|key: int|
            0 <= key < OPCODE_TABLE_SIZE && !(0xCC <= key < 0xD2) ==> #[trigger] final(table)@[key]
                == old(table)@[key],
        entries_wf(old(table)@) ==> entries_wf(final(table)@),
{
    // 0xCC: int3
    define_opcode(0xCC)
        .calls(OpcodeFn::Interrupt)
        .with_gas(GasCost::Moderate)
        .with_arg(ArgSource::Literal(SizedValue::Byte(3)), OpcodeValueSize::Fixed(ValueSize::Byte))
        .is_unpredictable()
        .into_table(table);
    // 0xCD: int imm8
    define_opcode(0xCD)
        .calls(OpcodeFn::Interrupt)
        .with_gas(GasCost::Moderate)
        .with_imm8()
        .is_unpredictable()
        .into_table(table);
    // 0xD0 /4: shl rm8, 1
    define_opcode(0xD0)
        .is_group(4)
        .calls(OpcodeFn::Shl8bit)
        .with_gas(GasCost::Low)
        .with_rm8()
        .with_arg(ArgSource::Literal(SizedValue::Byte(1)), OpcodeValueSize::Fixed(ValueSize::Byte))
        .into_table(table);
    // 0xD0 /5: shr rm8, 1
    define_opcode(0xD0)
        .is_group(5)
        .calls(OpcodeFn::Shr8bit)
        .with_gas(GasCost::Low)
        .with_rm8()
        .with_arg(ArgSource::Literal(SizedValue::Byte(1)), OpcodeValueSize::Fixed(ValueSize::Byte))
        .into_table(table);
    // 0xD1 /4: shl rmW, 1
    define_opcode(0xD1)
        .is_group(4)
        .calls(OpcodeFn::ShlNativeWord)
        .with_gas(GasCost::Low)
        .with_rmw()
        .with_arg(ArgSource::Literal(SizedValue::Byte(1)), OpcodeValueSize::Fixed(ValueSize::Byte))
        .into_table(table);
    // 0xD1 /5: shr rmW, 1
    define_opcode(0xD1)
        .is_group(5)
        .calls(OpcodeFn::ShrNativeWord)
        .with_gas(GasCost::Low)
        .with_rmw()
        .with_arg(ArgSource::Literal(SizedValue::Byte(1)), OpcodeValueSize::Fixed(ValueSize::Byte))
        .into_table(table);
}

/// The table `t` with the opcodes 0xD2 to 0xE8 of the supported subset defined in it.
pub open spec fn subset_d2_to_e8(t: Seq<OpcodeProperties>) -> Seq<OpcodeProperties> {
    // 0xD2 /4: shl rm8, CL
    let t = Definition::opcode(0xD2)
        .is_group(4)
        .calls(OpcodeFn::Shl8bit)
        .with_gas(GasCost::Low)
        .with_rm8()
        .with_arg(ArgSource::HardcodedRegister(1), OpcodeValueSize::Fixed(ValueSize::Byte))
        .table_after(t);
    // 0xD2 /5: shr rm8, CL
    let t = Definition::opcode(0xD2)
        .is_group(5)
        .calls(OpcodeFn::Shr8bit)
        .with_gas(GasCost::Low)
        .with_rm8()
        .with_arg(ArgSource::HardcodedRegister(1), OpcodeValueSize::Fixed(ValueSize::Byte))
        .table_after(t);
    // 0xD3 /4: shl rmW, CL
    let t = Definition::opcode(0xD3)
        .is_group(4)
        .calls(OpcodeFn::ShlNativeWord)
        .with_gas(GasCost::Low)
        .with_rmw()
        .with_arg(ArgSource::HardcodedRegister(1), OpcodeValueSize::Fixed(ValueSize::Byte))
        .table_after(t);
    // 0xD3 /5: shr rmW, CL
    let t = Definition::opcode(0xD3)
        .is_group(5)
        .calls(OpcodeFn::ShrNativeWord)
        .with_gas(GasCost::Low)
        .with_rmw()
        .with_arg(ArgSource::HardcodedRegister(1), OpcodeValueSize::Fixed(ValueSize::Byte))
        .table_after(t);
    // 0xE3: jcxz rel8
    let t = Definition::opcode(0xE3)
        .calls(OpcodeFn::JmpConditionalEcxIsZero)
        .with_gas(GasCost::Low)
        .with_arg(ArgSource::JumpRel, OpcodeValueSize::Fixed(ValueSize::Byte))
        .is_unpredictable()
        .table_after(t);
    // 0xE8: call relW
    let t = Definition::opcode(0xE8)
        .calls(OpcodeFn::CallRel)
        .with_gas(GasCost::Low)
        .with_arg(ArgSource::JumpRel, OpcodeValueSize::NativeWord)
        .is_jump()
        .table_after(t);
    t
}

/// Defines the opcodes 0xD2 to 0xE8.
#[verifier::rlimit(50)]
fn define_d2_to_e8(table: &mut [OpcodeProperties])
    requires
        old(table)@.len() == OPCODE_TABLE_SIZE,
        forall|key: int|
            0xD2 <= key < 0xE9 ==> #[trigger] old(table)@[key] == OpcodeProperties::undefined(),
    ensures
        final(table)@ == subset_d2_to_e8(old(table)@),
        final(table)@.len() == OPCODE_TABLE_SIZE,
        forall|key: int|
            0 <= key < OPCODE_TABLE_SIZE && !(0xD2 <= key < 0xE9) ==> #[trigger] final(table)@[key]
                == old(table)@[key],
        entries_wf(old(table)@) ==> entries_wf(final(table)@),
{
    // 0xD2 /4: shl rm8, CL
    define_opcode(0xD2)
        .is_group(4)
        .calls(OpcodeFn::Shl8bit)
        .with_gas(GasCost::Low)
        .with_rm8()
        .with_arg(ArgSource::HardcodedRegister(1), OpcodeValueSize::Fixed(ValueSize::Byte))
        .into_table(table);
    // 0xD2 /5: shr rm8, CL
    define_opcode(0xD2)
        .is_group(5)
        .calls(OpcodeFn::Shr8bit)
        .with_gas(GasCost::Low)
        .with_rm8()
        .with_arg(ArgSource::HardcodedRegister(1), OpcodeValueSize::Fixed(ValueSize::Byte))
        .into_table(table);
    // 0xD3 /4: shl rmW, CL
    define_opcode(0xD3)
        .is_group(4)
        .calls(OpcodeFn::ShlNativeWord)
        .with_gas(GasCost::Low)
        .with_rmw()
        .with_arg(ArgSource::HardcodedRegister(1), OpcodeValueSize::Fixed(ValueSize::Byte))
        .into_table(table);
    // 0xD3 /5: shr rmW, CL
    define_opcode(0xD3)
        .is_group(5)
        .calls(OpcodeFn::ShrNativeWord)
        .with_gas(GasCost::Low)
        .with_rmw()
        .with_arg(ArgSource::HardcodedRegister(1), OpcodeValueSize::Fixed(ValueSize::Byte))
        .into_table(table);
    // 0xE3: jcxz rel8
    define_opcode(0xE3)
        .calls(OpcodeFn::JmpConditionalEcxIsZero)
        .with_gas(GasCost::Low)
        .with_arg(ArgSource::JumpRel, OpcodeValueSize::Fixed(ValueSize::Byte))
        .is_unpredictable()
        .into_table(table);
    // 0xE8: call relW
    define_opcode(0xE8)
        .calls(OpcodeFn::CallRel)
        .with_gas(GasCost::Low)
        .with_arg(ArgSource::JumpRel, OpcodeValueSize::NativeWord)
        .is_jump()
        .into_table(table);
}

/// The table `t` with the opcodes 0xE9 to 0xF6 of the supported subset defined in it.
pub open spec fn subset_e9_to_f6(t: Seq<OpcodeProperties>) -> Seq<OpcodeProperties> {
    // 0xE9: jmp relW
    let t = Definition::opcode(0xE9)
        .calls(OpcodeFn::JmpRel)
        .with_gas(GasCost::Low)
        .with_arg(ArgSource::JumpRel, OpcodeValueSize::NativeWord)
        .is_unpredictable()
        .table_after(t);
    // 0xEB: jmp rel8
    let t = Definition::opcode(0xEB)
        .calls(OpcodeFn::JmpRel)
        .with_gas(GasCost::Low)
        .with_arg(ArgSource::JumpRel, OpcodeValueSize::Fixed(ValueSize::Byte))
        .is_jump()
        .table_after(t);
    // 0xF4: hlt
    let t = Definition::opcode(0xF4)
        .calls(OpcodeFn::Hlt)
        .with_gas(GasCost::Free)
        .is_unpredictable_no_gas()
        .table_after(t);
    // 0xF6 /4: mul rm8
    let t = Definition::opcode(0xF6)
        .is_group(4)
        .calls(OpcodeFn::Mul8bit)
        .with_gas(GasCost::Low)
        .with_rm8()
        .table_after(t);
    // 0xF6 /5: imul rm8
    let t = Definition::opcode(0xF6)
        .is_group(5)
        .calls(OpcodeFn::Imul1Arg8bit)
        .with_gas(GasCost::Low)
        .with_rm8()
        .table_after(t);
    // 0xF6 /6: div rm8
    let t = Definition::opcode(0xF6)
        .is_group(6)
        .calls(OpcodeFn::Div8bit)
        .with_gas(GasCost::Low)
        .with_rm8()
        .table_after(t);
    // 0xF6 /7: idiv rm8
    let t = Definition::opcode(0xF6)
        .is_group(7)
        .calls(OpcodeFn::Idiv8bit)
        .with_gas(GasCost::Low)
        .with_rm8()
        .table_after(t);
    // 0xF6 /2: not rm8
    let t = Definition::opcode(0xF6)
        .is_group(2)
        .calls(OpcodeFn::Not8bit)
        .with_gas(GasCost::Low)
        .with_rm8()
        .table_after(t);
    // 0xF6 /3: neg rm8
    let t = Definition::opcode(0xF6)
        .is_group(3)
        .calls(OpcodeFn::Neg8bit)
        .with_gas(GasCost::Low)
        .with_rm8()
        .table_after(t);
    // 0xF6 /0: test rm8, imm8
    let t = Definition::opcode(0xF6)
        .is_group(0)
        .calls(OpcodeFn::Test8bit)
        .with_gas(GasCost::Low)
        .with_rm8()
        .with_imm8()
        .table_after(t);
    t
}

/// Defines the opcodes 0xE9 to 0xF6.
#[verifier::rlimit(50)]
fn define_e9_to_f6(table: &mut [OpcodeProperties])
    requires
        old(table)@.len() == OPCODE_TABLE_SIZE,
        forall|key: int|
            0xE9 <= key < 0xF7 ==> #[trigger] old(table)@[key] == OpcodeProperties::undefined(),
    ensures
        final(table)@ == subset_e9_to_f6(old(table)@),
        final(table)@.len() == OPCODE_TABLE_SIZE,
        forall|key: int|
            0 <= key < OPCODE_TABLE_SIZE && !(0xE9 <= key < 0xF7) ==> #[trigger] final(table)@[key]
                == old(table)@[key],
        entries_wf(old(table)@) ==> entries_wf(final(table)@),
{
    // 0xE9: jmp relW
    define_opcode(0xE9)
        .calls(OpcodeFn::JmpRel)
        .with_gas(GasCost::Low)
        .with_arg(ArgSource::JumpRel, OpcodeValueSize::NativeWord)
        .is_unpredictable()
        .into_table(table);
    // 0xEB: jmp rel8
    define_opcode(0xEB)
        .calls(OpcodeFn::JmpRel)
        .with_gas(GasCost::Low)
        .with_arg(ArgSource::JumpRel, OpcodeValueSize::Fixed(ValueSize::Byte))
        .is_jump()
        .into_table(table);
    // 0xF4: hlt
    define_opcode(0xF4)
        .calls(OpcodeFn::Hlt)
        .with_gas(GasCost::Free)
        .is_unpredictable_no_gas()
        .into_table(table);
    // 0xF6 /4: mul rm8
    define_opcode(0xF6)
        .is_group(4)
        .calls(OpcodeFn::Mul8bit)
        .with_gas(GasCost::Low)
        .with_rm8()
        .into_table(table);
    // 0xF6 /5: imul rm8
    define_opcode(0xF6)
        .is_group(5)
        .calls(OpcodeFn::Imul1Arg8bit)
        .with_gas(GasCost::Low)
        .with_rm8()
        .into_table(table);
    // 0xF6 /6: div rm8
    define_opcode(0xF6)
        .is_group(6)
        .calls(OpcodeFn::Div8bit)
        .with_gas(GasCost::Low)
        .with_rm8()
        .into_table(table);
    // 0xF6 /7: idiv rm8
    define_opcode(0xF6)
        .is_group(7)
        .calls(OpcodeFn::Idiv8bit)
        .with_gas(GasCost::Low)
        .with_rm8()
        .into_table(table);
    // 0xF6 /2: not rm8
    define_opcode(0xF6)
        .is_group(2)
        .calls(OpcodeFn::Not8bit)
        .with_gas(GasCost::Low)
        .with_rm8()
        .into_table(table);
    // 0xF6 /3: neg rm8
    define_opcode(0xF6)
        .is_group(3)
        .calls(OpcodeFn::Neg8bit)
        .with_gas(GasCost::Low)
        .with_rm8()
        .into_table(table);
    // 0xF6 /0: test rm8, imm8
    define_opcode(0xF6)
        .is_group(0)
        .calls(OpcodeFn::Test8bit)
        .with_gas(GasCost::Low)
        .with_rm8()
        .with_imm8()
        .into_table(table);
}

/// The table `t` with the opcodes 0xF7 to 0xF7 of the supported subset defined in it.
pub open spec fn subset_f7_to_f7(t: Seq<OpcodeProperties>) -> Seq<OpcodeProperties> {
    // 0xF7 /4: mul rmW
    let t = Definition::opcode(0xF7)
        .is_group(4)
        .calls(OpcodeFn::MulNativeWord)
        .with_gas(GasCost::Low)
        .with_rmw()
        .table_after(t);
    // 0xF7 /5: imul rmW
    let t = Definition::opcode(0xF7)
        .is_group(5)
        .calls(OpcodeFn::Imul1NativeWord)
        .with_gas(GasCost::Low)
        .with_rmw()
        .table_after(t);
    // 0xF7 /6: div rmW
    let t = Definition::opcode(0xF7)
        .is_group(6)
        .calls(OpcodeFn::DivNativeWord)
        .with_gas(GasCost::Low)
        .with_rmw()
        .table_after(t);
    // 0xF7 /7: idiv rmW
    let t = Definition::opcode(0xF7)
        .is_group(7)
        .calls(OpcodeFn::IdivNativeWord)
        .with_gas(GasCost::Low)
        .with_rmw()
        .table_after(t);
    // 0xF7 /2: not rmW
    let t = Definition::opcode(0xF7)
        .is_group(2)
        .calls(OpcodeFn::NotNativeWord)
        .with_gas(GasCost::Low)
        .with_rmw()
        .table_after(t);
    // 0xF7 /3: neg rmW
    let t = Definition::opcode(0xF7)
        .is_group(3)
        .calls(OpcodeFn::NegNativeWord)
        .with_gas(GasCost::Low)
        .with_rmw()
        .table_after(t);
    // 0xF7 /0: test rmW, immW
    let t = Definition::opcode(0xF7)
        .is_group(0)
        .calls(OpcodeFn::TestNativeWord)
        .with_gas(GasCost::Low)
        .with_rmw()
        .with_immw()
        .table_after(t);
    t
}

/// Defines the opcodes 0xF7 to 0xF7.
#[verifier::rlimit(50)]
fn define_f7_to_f7(table: &mut [OpcodeProperties])
    requires
        old(table)@.len() == OPCODE_TABLE_SIZE,
        forall|key: int|
            0xF7 <= key < 0xF8 ==> #[trigger] old(table)@[key] == OpcodeProperties::undefined(),
    ensures
        final(table)@ == subset_f7_to_f7(old(table)@),
        final(table)@.len() == OPCODE_TABLE_SIZE,
        forall|key: int|
            0 <= key < OPCODE_TABLE_SIZE && !(0xF7 <= key < 0xF8) ==> #[trigger] final(table)@[key]
                == old(table)@[key],
        entries_wf(old(table)@) ==> entries_wf(final(table)@),
{
    // 0xF7 /4: mul rmW
    define_opcode(0xF7)
        .is_group(4)
        .calls(OpcodeFn::MulNativeWord)
        .with_gas(GasCost::Low)
        .with_rmw()
        .into_table(table);
    // 0xF7 /5: imul rmW
    define_opcode(0xF7)
        .is_group(5)
        .calls(OpcodeFn::Imul1NativeWord)
        .with_gas(GasCost::Low)
        .with_rmw()
        .into_table(table);
    // 0xF7 /6: div rmW
    define_opcode(0xF7)
        .is_group(6)
        .calls(OpcodeFn::DivNativeWord)
        .with_gas(GasCost::Low)
        .with_rmw()
        .into_table(table);
    // 0xF7 /7: idiv rmW
    define_opcode(0xF7)
        .is_group(7)
        .calls(OpcodeFn::IdivNativeWord)
        .with_gas(GasCost::Low)
        .with_rmw()
        .into_table(table);
    // 0xF7 /2: not rmW
    define_opcode(0xF7)
        .is_group(2)
        .calls(OpcodeFn::NotNativeWord)
        .with_gas(GasCost::Low)
        .with_rmw()
        .into_table(table);
    // 0xF7 /3: neg rmW
    define_opcode(0xF7)
        .is_group(3)
        .calls(OpcodeFn::NegNativeWord)
        .with_gas(GasCost::Low)
        .with_rmw()
        .into_table(table);
    // 0xF7 /0: test rmW, immW
    define_opcode(0xF7)
        .is_group(0)
        .calls(OpcodeFn::TestNativeWord)
        .with_gas(GasCost::Low)
        .with_rmw()
        .with_immw()
        .into_table(table);
}

/// The table `t` with the opcodes 0xFC to 0xFF of the supported subset defined in it.
pub open spec fn subset_fc_to_ff(t: Seq<OpcodeProperties>) -> Seq<OpcodeProperties> {
    // 0xFC: cld
    let t = Definition::opcode(0xFC)
        .calls(OpcodeFn::ClearDirection)
        .with_gas(GasCost::VeryLow)
        .table_after(t);
    // 0xFD: std
    let t = Definition::opcode(0xFD)
        .calls(OpcodeFn::SetDirection)
        .with_gas(GasCost::VeryLow)
        .table_after(t);
    // 0xFE /1: dec rm8
    let t = Definition::opcode(0xFE)
        .is_group(1)
        .calls(OpcodeFn::Decrement8bit)
        .with_gas(GasCost::Low)
        .with_rm8()
        .table_after(t);
    // 0xFE /0: inc rm8
    let t = Definition::opcode(0xFE)
        .is_group(0)
        .calls(OpcodeFn::Increment8bit)
        .with_gas(GasCost::Low)
        .with_rm8()
        .table_after(t);
    // 0xFF /6: push rmW
    let t = Definition::opcode(0xFF)
        .calls(OpcodeFn::Push)
        .with_gas(GasCost::VeryLow)
        .is_group(6)
        .with_rmw()
        .table_after(t);
    // 0xFF /2: call rmW
    let t = Definition::opcode(0xFF)
        .is_group(2)
        .calls(OpcodeFn::CallAbs)
        .with_gas(GasCost::Low)
        .with_rmw()
        .is_unpredictable()
        .table_after(t);
    // 0xFF /4: jmp rmW
    let t = Definition::opcode(0xFF)
        .is_group(4)
        .calls(OpcodeFn::JmpAbs)
        .with_gas(GasCost::Moderate)
        .with_rmw()
        .is_unpredictable()
        .table_after(t);
    // 0xFF /1: dec rmW
    let t = Definition::opcode(0xFF)
        .is_group(1)
        .calls(OpcodeFn::DecrementNativeWord)
        .with_gas(GasCost::Low)
        .with_rmw()
        .table_after(t);
    // 0xFF /0: inc rmW
    let t = Definition::opcode(0xFF)
        .is_group(0)
        .calls(OpcodeFn::IncrementNativeWord)
        .with_gas(GasCost::Low)
        .with_rmw()
        .table_after(t);
    t
}

/// Defines the opcodes 0xFC to 0xFF.
#[verifier::rlimit(50)]
fn define_fc_to_ff(table: &mut [OpcodeProperties])
    requires
        old(table)@.len() == OPCODE_TABLE_SIZE,
        forall|key: int|
            0xFC <= key < 0x100 ==> #[trigger] old(table)@[key] == OpcodeProperties::undefined(),
    ensures
        final(table)@ == subset_fc_to_ff(old(table)@),
        final(table)@.len() == OPCODE_TABLE_SIZE,
        forall|key: int|
            0 <= key < OPCODE_TABLE_SIZE && !(0xFC <= key < 0x100) ==> #[trigger] final(table)@[key]
                == old(table)@[key],
        entries_wf(old(table)@) ==> entries_wf(final(table)@),
{
    // 0xFC: cld
    define_opcode(0xFC)
        .calls(OpcodeFn::ClearDirection)
        .with_gas(GasCost::VeryLow)
        .into_table(table);
    // 0xFD: std
    define_opcode(0xFD).calls(OpcodeFn::SetDirection).with_gas(GasCost::VeryLow).into_table(table);
    // 0xFE /1: dec rm8
    define_opcode(0xFE)
        .is_group(1)
        .calls(OpcodeFn::Decrement8bit)
        .with_gas(GasCost::Low)
        .with_rm8()
        .into_table(table);
    // 0xFE /0: inc rm8
    define_opcode(0xFE)
        .is_group(0)
        .calls(OpcodeFn::Increment8bit)
        .with_gas(GasCost::Low)
        .with_rm8()
        .into_table(table);
    // 0xFF /6: push rmW
    define_opcode(0xFF)
        .calls(OpcodeFn::Push)
        .with_gas(GasCost::VeryLow)
        .is_group(6)
        .with_rmw()
        .into_table(table);
    // 0xFF /2: call rmW
    define_opcode(0xFF)
        .is_group(2)
        .calls(OpcodeFn::CallAbs)
        .with_gas(GasCost::Low)
        .with_rmw()
        .is_unpredictable()
        .into_table(table);
    // 0xFF /4: jmp rmW
    define_opcode(0xFF)
        .is_group(4)
        .calls(OpcodeFn::JmpAbs)
        .with_gas(GasCost::Moderate)
        .with_rmw()
        .is_unpredictable()
        .into_table(table);
    // 0xFF /1: dec rmW
    define_opcode(0xFF)
        .is_group(1)
        .calls(OpcodeFn::DecrementNativeWord)
        .with_gas(GasCost::Low)
        .with_rmw()
        .into_table(table);
    // 0xFF /0: inc rmW
    define_opcode(0xFF)
        .is_group(0)
        .calls(OpcodeFn::IncrementNativeWord)
        .with_gas(GasCost::Low)
        .with_rmw()
        .into_table(table);
}

/// The table `t` with the opcodes 0x40 to 0xAF that follow the escape byte of the supported subset defined in it.
pub open spec fn subset_escaped_40_to_af(t: Seq<OpcodeProperties>) -> Seq<OpcodeProperties> {
    // 0x0F 0x40 to 0x4F: cmovcc rW, rmW
    let t = Definition::opcodes(0x40, 16)
        .is_two_byte_op()
        .calls(OpcodeFn::CmovccNative)
        .with_gas(GasCost::Low)
        .with_rm_regw()
        .with_rmw()
        .table_after(t);
    // 0x0F 0x80 to 0x8F: jcc relW
    let t = Definition::opcodes(0x80, 16)
        .is_two_byte_op()
        .calls(OpcodeFn::Jcc)
        .with_gas(GasCost::Low)
        .with_arg(ArgSource::JumpRel, OpcodeValueSize::NativeWord)
        .is_unpredictable()
        .table_after(t);
    // 0x0F 0x90 to 0x9F: setcc rm8
    let t = Definition::opcodes(0x90, 16)
        .is_two_byte_op()
        .calls(OpcodeFn::Setcc8bit)
        .with_gas(GasCost::Low)
        .with_rm8()
        .table_after(t);
    // 0x0F 0xA3: bt rmW, rW
    let t = Definition::opcode(0xA3)
        .is_two_byte_op()
        .calls(OpcodeFn::BitTest)
        .with_gas(GasCost::Low)
        .with_rmw()
        .with_rm_regw()
        .table_after(t);
    // 0x0F 0xAB: bts rmW, rW
    let t = Definition::opcode(0xAB)
        .is_two_byte_op()
        .calls(OpcodeFn::BitTestSet)
        .with_gas(GasCost::Low)
        .with_rmw()
        .with_rm_regw()
        .table_after(t);
    // 0x0F 0xAF: imul rW, rmW
    let t = Definition::opcode(0xAF)
        .is_two_byte_op()
        .calls(OpcodeFn::Imul2NativeWord)
        .with_gas(GasCost::Low)
        .with_rm_regw()
        .with_rmw()
        .table_after(t);
    t
}

/// Defines the opcodes 0x40 to 0xAF that follow the escape byte.
#[verifier::rlimit(50)]
fn define_escaped_40_to_af(table: &mut [OpcodeProperties])
    requires
        old(table)@.len() == OPCODE_TABLE_SIZE,
        forall|key: int|
            0x140 <= key < 0x1B0 ==> #[trigger] old(table)@[key] == OpcodeProperties::undefined(),
    ensures
        final(table)@ == subset_escaped_40_to_af(old(table)@),
        final(table)@.len() == OPCODE_TABLE_SIZE,
        forall|key: int|
            0 <= key < OPCODE_TABLE_SIZE && !(0x140 <= key < 0x1B0) ==> #[trigger] final(table)@[key]
                == old(table)@[key],
        entries_wf(old(table)@) ==> entries_wf(final(table)@),
{
    // 0x0F 0x40 to 0x4F: cmovcc rW, rmW
    define_opcode_multi(0x40, 16)
        .is_two_byte_op()
        .calls(OpcodeFn::CmovccNative)
        .with_gas(GasCost::Low)
        .with_rm_regw()
        .with_rmw()
        .into_table(table);
    // 0x0F 0x80 to 0x8F: jcc relW
    define_opcode_multi(0x80, 16)
        .is_two_byte_op()
        .calls(OpcodeFn::Jcc)
        .with_gas(GasCost::Low)
        .with_arg(ArgSource::JumpRel, OpcodeValueSize::NativeWord)
        .is_unpredictable()
        .into_table(table);
    // 0x0F 0x90 to 0x9F: setcc rm8
    define_opcode_multi(0x90, 16)
        .is_two_byte_op()
        .calls(OpcodeFn::Setcc8bit)
        .with_gas(GasCost::Low)
        .with_rm8()
        .into_table(table);
    // 0x0F 0xA3: bt rmW, rW
    define_opcode(0xA3)
        .is_two_byte_op()
        .calls(OpcodeFn::BitTest)
        .with_gas(GasCost::Low)
        .with_rmw()
        .with_rm_regw()
        .into_table(table);
    // 0x0F 0xAB: bts rmW, rW
    define_opcode(0xAB)
        .is_two_byte_op()
        .calls(OpcodeFn::BitTestSet)
        .with_gas(GasCost::Low)
        .with_rmw()
        .with_rm_regw()
        .into_table(table);
    // 0x0F 0xAF: imul rW, rmW
    define_opcode(0xAF)
        .is_two_byte_op()
        .calls(OpcodeFn::Imul2NativeWord)
        .with_gas(GasCost::Low)
        .with_rm_regw()
        .with_rmw()
        .into_table(table);
}

/// The table `t` with the opcodes 0xB0 to 0xBA that follow the escape byte of the supported subset defined in it.
pub open spec fn subset_escaped_b0_to_ba(t: Seq<OpcodeProperties>) -> Seq<OpcodeProperties> {
    // 0x0F 0xB0: cmpxchg rm8, r8
    let t = Definition::opcode(0xB0)
        .is_two_byte_op()
        .calls(OpcodeFn::Cmpxchg8bit)
        .with_gas(GasCost::Low)
        .with_rm8()
        .with_rm_reg8()
        .table_after(t);
    // 0x0F 0xB1: cmpxchg rmW, rW
    let t = Definition::opcode(0xB1)
        .is_two_byte_op()
        .calls(OpcodeFn::CmpxchgNativeWord)
        .with_gas(GasCost::Low)
        .with_rmw()
        .with_rm_regw()
        .table_after(t);
    // 0x0F 0xB3: btr rmW, rW
    let t = Definition::opcode(0xB3)
        .is_two_byte_op()
        .calls(OpcodeFn::BitTestReset)
        .with_gas(GasCost::Low)
        .with_rmw()
        .with_rm_regw()
        .table_after(t);
    // 0x0F 0xB6: movzx rW, rm8
    let t = Definition::opcode(0xB6)
        .is_two_byte_op()
        .calls(OpcodeFn::Movzx8bit)
        .with_gas(GasCost::Low)
        .with_rm_regw()
        .with_rm8()
        .table_after(t);
    // 0x0F 0xB7: movzx r32, rm16
    let t = Definition::opcode(0xB7)
        .is_two_byte_op()
        .calls(OpcodeFn::Movzx16bit)
        .with_gas(GasCost::Low)
        .with_rm_reg32()
        .with_rm16()
        .table_after(t);
    // 0x0F 0xBA /4: bt rmW, imm8
    let t = Definition::opcode(0xBA)
        .is_group(4)
        .is_two_byte_op()
        .calls(OpcodeFn::BitTest)
        .with_gas(GasCost::Low)
        .with_rmw()
        .with_imm8()
        .table_after(t);
    // 0x0F 0xBA /5: bts rmW, imm8
    let t = Definition::opcode(0xBA)
        .is_group(5)
        .is_two_byte_op()
        .calls(OpcodeFn::BitTestSet)
        .with_gas(GasCost::Low)
        .with_rmw()
        .with_imm8()
        .table_after(t);
    // 0x0F 0xBA /6: btr rmW, imm8
    let t = Definition::opcode(0xBA)
        .is_group(6)
        .is_two_byte_op()
        .calls(OpcodeFn::BitTestReset)
        .with_gas(GasCost::Low)
        .with_rmw()
        .with_imm8()
        .table_after(t);
    // 0x0F 0xBA /7: btc rmW, imm8
    let t = Definition::opcode(0xBA)
        .is_group(7)
        .is_two_byte_op()
        .calls(OpcodeFn::BitTestComplement)
        .with_gas(GasCost::Low)
        .with_rmw()
        .with_imm8()
        .table_after(t);
    t
}

/// Defines the opcodes 0xB0 to 0xBA that follow the escape byte.
#[verifier::rlimit(50)]
fn define_escaped_b0_to_ba(table: &mut [OpcodeProperties])
    requires
        old(table)@.len() == OPCODE_TABLE_SIZE,
        forall|key: int|
            0x1B0 <= key < 0x1BB ==> #[trigger] old(table)@[key] == OpcodeProperties::undefined(),
    ensures
        final(table)@ == subset_escaped_b0_to_ba(old(table)@),
        final(table)@.len() == OPCODE_TABLE_SIZE,
        forall|key: int|
            0 <= key < OPCODE_TABLE_SIZE && !(0x1B0 <= key < 0x1BB) ==> #[trigger] final(table)@[key]
                == old(table)@[key],
        entries_wf(old(table)@) ==> entries_wf(final(table)@),
{
    // 0x0F 0xB0: cmpxchg rm8, r8
    define_opcode(0xB0)
        .is_two_byte_op()
        .calls(OpcodeFn::Cmpxchg8bit)
        .with_gas(GasCost::Low)
        .with_rm8()
        .with_rm_reg8()
        .into_table(table);
    // 0x0F 0xB1: cmpxchg rmW, rW
    define_opcode(0xB1)
        .is_two_byte_op()
        .calls(OpcodeFn::CmpxchgNativeWord)
        .with_gas(GasCost::Low)
        .with_rmw()
        .with_rm_regw()
        .into_table(table);
    // 0x0F 0xB3: btr rmW, rW
    define_opcode(0xB3)
        .is_two_byte_op()
        .calls(OpcodeFn::BitTestReset)
        .with_gas(GasCost::Low)
        .with_rmw()
        .with_rm_regw()
        .into_table(table);
    // 0x0F 0xB6: movzx rW, rm8
    define_opcode(0xB6)
        .is_two_byte_op()
        .calls(OpcodeFn::Movzx8bit)
        .with_gas(GasCost::Low)
        .with_rm_regw()
        .with_rm8()
        .into_table(table);
    // 0x0F 0xB7: movzx r32, rm16
    define_opcode(0xB7)
        .is_two_byte_op()
        .calls(OpcodeFn::Movzx16bit)
        .with_gas(GasCost::Low)
        .with_rm_reg32()
        .with_rm16()
        .into_table(table);
    // 0x0F 0xBA /4: bt rmW, imm8
    define_opcode(0xBA)
        .is_group(4)
        .is_two_byte_op()
        .calls(OpcodeFn::BitTest)
        .with_gas(GasCost::Low)
        .with_rmw()
        .with_imm8()
        .into_table(table);
    // 0x0F 0xBA /5: bts rmW, imm8
    define_opcode(0xBA)
        .is_group(5)
        .is_two_byte_op()
        .calls(OpcodeFn::BitTestSet)
        .with_gas(GasCost::Low)
        .with_rmw()
        .with_imm8()
        .into_table(table);
    // 0x0F 0xBA /6: btr rmW, imm8
    define_opcode(0xBA)
        .is_group(6)
        .is_two_byte_op()
        .calls(OpcodeFn::BitTestReset)
        .with_gas(GasCost::Low)
        .with_rmw()
        .with_imm8()
        .into_table(table);
    // 0x0F 0xBA /7: btc rmW, imm8
    define_opcode(0xBA)
        .is_group(7)
        .is_two_byte_op()
        .calls(OpcodeFn::BitTestComplement)
        .with_gas(GasCost::Low)
        .with_rmw()
        .with_imm8()
        .into_table(table);
}

/// The table `t` with the opcodes 0xBB to 0xC0 that follow the escape byte of the supported subset defined in it.
pub open spec fn subset_escaped_bb_to_c0(t: Seq<OpcodeProperties>) -> Seq<OpcodeProperties> {
    // 0x0F 0xBB: btc rmW, rW
    let t = Definition::opcode(0xBB)
        .is_two_byte_op()
        .calls(OpcodeFn::BitTestComplement)
        .with_gas(GasCost::Low)
        .with_rmw()
        .with_rm_regw()
        .table_after(t);
    // 0x0F 0xBC: bsf rW, rmW
    let t = Definition::opcode(0xBC)
        .is_two_byte_op()
        .calls(OpcodeFn::BitScanForward)
        .with_gas(GasCost::Low)
        .with_rmw()
        .with_rm_regw()
        .table_after(t);
    // 0x0F 0xBD: bsr rW, rmW
    let t = Definition::opcode(0xBD)
        .is_two_byte_op()
        .calls(OpcodeFn::BitScanReverse)
        .with_gas(GasCost::Low)
        .with_rmw()
        .with_rm_regw()
        .table_after(t);
    // 0x0F 0xBE: movsx rW, rm8
    let t = Definition::opcode(0xBE)
        .is_two_byte_op()
        .calls(OpcodeFn::Movsx8bit)
        .with_gas(GasCost::Low)
        .with_rm_regw()
        .with_rm8()
        .table_after(t);
    // 0x0F 0xBF: movsx r32, rm16
    let t = Definition::opcode(0xBF)
        .is_two_byte_op()
        .calls(OpcodeFn::Movsx16bit)
        .with_gas(GasCost::Low)
        .with_rm_reg32()
        .with_rm16()
        .table_after(t);
    // 0x0F 0xC0: xadd rm8, r8
    let t = Definition::opcode(0xC0)
        .is_two_byte_op()
        .calls(OpcodeFn::Xadd8bit)
        .with_gas(GasCost::Low)
        .with_rm8()
        .with_rm_reg8()
        .table_after(t);
    t
}

/// Defines the opcodes 0xBB to 0xC0 that follow the escape byte.
#[verifier::rlimit(50)]
fn define_escaped_bb_to_c0(table: &mut [OpcodeProperties])
    requires
        old(table)@.len() == OPCODE_TABLE_SIZE,
        forall|key: int|
            0x1BB <= key < 0x1C1 ==> #[trigger] old(table)@[key] == OpcodeProperties::undefined(),
    ensures
        final(table)@ == subset_escaped_bb_to_c0(old(table)@),
        final(table)@.len() == OPCODE_TABLE_SIZE,
        forall|key: int|
            0 <= key < OPCODE_TABLE_SIZE && !(0x1BB <= key < 0x1C1) ==> #[trigger] final(table)@[key]
                == old(table)@[key],
        entries_wf(old(table)@) ==> entries_wf(final(table)@),
{
    // 0x0F 0xBB: btc rmW, rW
    define_opcode(0xBB)
        .is_two_byte_op()
        .calls(OpcodeFn::BitTestComplement)
        .with_gas(GasCost::Low)
        .with_rmw()
        .with_rm_regw()
        .into_table(table);
    // 0x0F 0xBC: bsf rW, rmW
    define_opcode(0xBC)
        .is_two_byte_op()
        .calls(OpcodeFn::BitScanForward)
        .with_gas(GasCost::Low)
        .with_rmw()
        .with_rm_regw()
        .into_table(table);
    // 0x0F 0xBD: bsr rW, rmW
    define_opcode(0xBD)
        .is_two_byte_op()
        .calls(OpcodeFn::BitScanReverse)
        .with_gas(GasCost::Low)
        .with_rmw()
        .with_rm_regw()
        .into_table(table);
    // 0x0F 0xBE: movsx rW, rm8
    define_opcode(0xBE)
        .is_two_byte_op()
        .calls(OpcodeFn::Movsx8bit)
        .with_gas(GasCost::Low)
        .with_rm_regw()
        .with_rm8()
        .into_table(table);
    // 0x0F 0xBF: movsx r32, rm16
    define_opcode(0xBF)
        .is_two_byte_op()
        .calls(OpcodeFn::Movsx16bit)
        .with_gas(GasCost::Low)
        .with_rm_reg32()
        .with_rm16()
        .into_table(table);
    // 0x0F 0xC0: xadd rm8, r8
    define_opcode(0xC0)
        .is_two_byte_op()
        .calls(OpcodeFn::Xadd8bit)
        .with_gas(GasCost::Low)
        .with_rm8()
        .with_rm_reg8()
        .into_table(table);
}

/// The table `t` with the opcodes 0xC1 to 0xCF that follow the escape byte of the supported subset defined in it.
pub open spec fn subset_escaped_c1_to_cf(t: Seq<OpcodeProperties>) -> Seq<OpcodeProperties> {
    // 0x0F 0xC1: xadd rmW, rW
    let t = Definition::opcode(0xC1)
        .is_two_byte_op()
        .calls(OpcodeFn::XaddNativeWord)
        .with_gas(GasCost::Low)
        .with_rmw()
        .with_rm_regw()
        .table_after(t);
    // 0x0F 0xC8 + r: bswap r32
    let t = Definition::opcode(0xC8)
        .is_two_byte_op()
        .calls(OpcodeFn::Bswap)
        .with_gas(GasCost::Low)
        .with_suffix_reg32()
        .table_after(t);
    t
}

/// Defines the opcodes 0xC1 to 0xCF that follow the escape byte.
#[verifier::rlimit(50)]
fn define_escaped_c1_to_cf(table: &mut [OpcodeProperties])
    requires
        old(table)@.len() == OPCODE_TABLE_SIZE,
        forall|key: int|
            0x1C1 <= key < 0x1D0 ==> #[trigger] old(table)@[key] == OpcodeProperties::undefined(),
    ensures
        final(table)@ == subset_escaped_c1_to_cf(old(table)@),
        final(table)@.len() == OPCODE_TABLE_SIZE,
        forall|key: int|
            0 <= key < OPCODE_TABLE_SIZE && !(0x1C1 <= key < 0x1D0) ==> #[trigger] final(table)@[key]
                == old(table)@[key],
        entries_wf(old(table)@) ==> entries_wf(final(table)@),
{
    // 0x0F 0xC1: xadd rmW, rW
    define_opcode(0xC1)
        .is_two_byte_op()
        .calls(OpcodeFn::XaddNativeWord)
        .with_gas(GasCost::Low)
        .with_rmw()
        .with_rm_regw()
        .into_table(table);
    // 0x0F 0xC8 + r: bswap r32
    define_opcode(0xC8)
        .is_two_byte_op()
        .calls(OpcodeFn::Bswap)
        .with_gas(GasCost::Low)
        .with_suffix_reg32()
        .into_table(table);
}

/// The opcode table of the supported subset: every definition of the
/// subset, put into the table in which nothing is defined. The comments
/// name the arguments in the order in which the opcodes declare them, but
/// for `bsf` and `bsr`, which declare their source first.
pub open spec fn subset_table() -> Seq<OpcodeProperties> {
    let t = undefined_table();
    let t = subset_00_to_05(t);
    let t = subset_08_to_0d(t);
    let t = subset_10_to_15(t);
    let t = subset_18_to_1d(t);
    let t = subset_20_to_25(t);
    let t = subset_28_to_2d(t);
    let t = subset_30_to_35(t);
    let t = subset_38_to_3d(t);
    let t = subset_40_to_69(t);
    let t = subset_6a_to_80(t);
    let t = subset_81_to_81(t);
    let t = subset_83_to_83(t);
    let t = subset_84_to_89(t);
    let t = subset_8a_to_97(t);
    let t = subset_98_to_a3(t);
    let t = subset_a4_to_a9(t);
    let t = subset_aa_to_af(t);
    let t = subset_b0_to_c1(t);
    let t = subset_c2_to_c9(t);
    let t = subset_cc_to_d1(t);
    let t = subset_d2_to_e8(t);
    let t = subset_e9_to_f6(t);
    let t = subset_f7_to_f7(t);
    let t = subset_fc_to_ff(t);
    let t = subset_escaped_40_to_af(t);
    let t = subset_escaped_b0_to_ba(t);
    let t = subset_escaped_bb_to_c0(t);
    let t = subset_escaped_c1_to_cf(t);
    t
}

/// Puts the opcodes of the supported subset into a table in which none is
/// defined yet.
fn define_subset(table: &mut [OpcodeProperties])
    requires
        old(table)@ == undefined_table(),
    ensures
        final(table)@ == subset_table(),
        table_wf(final(table)@),
        final(table)@.len() == OPCODE_TABLE_SIZE,
{
    assert(OpcodeProperties::undefined().wf());
    define_00_to_05(table);
    define_08_to_0d(table);
    define_10_to_15(table);
    define_18_to_1d(table);
    define_20_to_25(table);
    define_28_to_2d(table);
    define_30_to_35(table);
    define_38_to_3d(table);
    define_40_to_69(table);
    define_6a_to_80(table);
    define_81_to_81(table);
    define_83_to_83(table);
    define_84_to_89(table);
    define_8a_to_97(table);
    define_98_to_a3(table);
    define_a4_to_a9(table);
    define_aa_to_af(table);
    define_b0_to_c1(table);
    define_c2_to_c9(table);
    define_cc_to_d1(table);
    define_d2_to_e8(table);
    define_e9_to_f6(table);
    define_f7_to_f7(table);
    define_fc_to_ff(table);
    define_escaped_40_to_af(table);
    define_escaped_b0_to_ba(table);
    define_escaped_bb_to_c0(table);
    define_escaped_c1_to_cf(table);
}

/// The opcode table of the supported subset.
pub fn opcode_table() -> (table: Vec<OpcodeProperties>)
    ensures
        table@ == subset_table(),
        table_wf(table@),
        table@.len() == OPCODE_TABLE_SIZE,
{
    let mut table = empty_table();
    define_subset(table.as_mut_slice());
    table
}

} // verus!
