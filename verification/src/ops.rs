use vstd::prelude::*;
use crate::arith::{
    add_flags, add_result, add_with_flags, bit_of, bit_value, byte_swap, cc_matches, changed_bit,
    condition_holds, div_signed, div_signed_spec, div_unsigned, div_unsigned_spec, fits_signed,
    highest_set_bit, invert, logic_flags, logic_result, logic_with_flags, lowest_set_bit,
    mul_signed, mul_unsigned, neg_flags, neg_with_flags, not_result, scan_forward, scan_reverse,
    shl_flags, shl_result, shl_with_flags, shr_flags, shr_result, shr_with_flags,
    signed_product_bits, signed_product_fits, signed_value, sub_flags, sub_result, sub_with_flags,
    swap_bytes, test_and_change_bit, BitChange, Logic,
};
use crate::flags::X86Flags;
use crate::opcodes::{nop, op_undefined, OpcodeFn};
use crate::pipeline::Pipeline;
use crate::structs::{ArgLocation, SizedValue, ValueSize};
use crate::vm::{
    fails_by_fault, lemma_get_arg_faults, lemma_get_arg_lea_faults, lemma_get_mem_faults,
    lemma_set_arg_frame, lemma_set_arg_faults, lemma_set_mem_faults, lemma_set_mem_frame,
    native_size, wrap32, GasCost, Hypervisor, Machine, Reg32, VMError, VM,
};

verus! {

/// The value of width `size` that holds `v`.
pub fn sized(size: ValueSize, v: u32) -> (r: SizedValue)
    requires
        size.is_operand(),
        v < size.modulus(),
    ensures
        r == SizedValue::of(size, v as int),
        r.size() == size,
        r.value() == v,
{
    match size {
        ValueSize::Byte => SizedValue::Byte(v as u8),
        ValueSize::Word => SizedValue::Word(v as u16),
        _ => SizedValue::Dword(v),
    }
}

/// The width of the native word.
pub fn native(size_override: bool) -> (r: ValueSize)
    ensures
        r == native_size(size_override),
        r.is_operand(),
{
    if size_override {
        ValueSize::Word
    } else {
        ValueSize::Dword
    }
}

/// The number at a location whose value has exactly the width `size`.
pub open spec fn operand(m: Machine, arg: ArgLocation, size: ValueSize) -> Result<int, VMError> {
    match m.get_arg(arg) {
        Err(e) => Err(e),
        Ok(v) => if v.size() == size {
            Ok(v.value())
        } else {
            Err(VMError::WrongSizeExpectation)
        },
    }
}

/// The number at a location after its value was sign-extended to the width
/// `size`, which a value wider than that cannot be.
pub open spec fn extended_operand(m: Machine, arg: ArgLocation, size: ValueSize) -> Result<
    int,
    VMError,
> {
    match m.get_arg(arg) {
        Err(e) => Err(e),
        Ok(v) => match v.spec_convert_sx(size) {
            Err(e) => Err(e),
            Ok(w) => Ok(w.value()),
        },
    }
}

/// Reads the operand at a location, which must have the width `size`.
pub fn read_operand(vm: &VM, arg: ArgLocation, size: ValueSize) -> (r: Result<u32, VMError>)
    requires
        arg.wf(),
        size.is_operand(),
    ensures
        match r {
            Ok(v) => operand(vm@, arg, size) == Ok::<int, VMError>(v as int) && v < size.modulus(),
            Err(e) => operand(vm@, arg, size) == Err::<int, VMError>(e),
        },
{
    let v = vm.get_arg(arg)?;
    match v {
        SizedValue::Byte(x) => match size {
            ValueSize::Byte => Ok(x as u32),
            _ => Err(VMError::WrongSizeExpectation),
        },
        SizedValue::Word(x) => match size {
            ValueSize::Word => Ok(x as u32),
            _ => Err(VMError::WrongSizeExpectation),
        },
        SizedValue::Dword(x) => match size {
            ValueSize::Dword => Ok(x),
            _ => Err(VMError::WrongSizeExpectation),
        },
        _ => Err(VMError::WrongSizeExpectation),
    }
}

/// Reads the operand at a location and sign-extends it to the width `size`.
pub fn read_extended(vm: &VM, arg: ArgLocation, size: ValueSize) -> (r: Result<u32, VMError>)
    requires
        arg.wf(),
        size.is_operand(),
    ensures
        match r {
            Ok(v) => extended_operand(vm@, arg, size) == Ok::<int, VMError>(v as int) && v
                < size.modulus(),
            Err(e) => extended_operand(vm@, arg, size) == Err::<int, VMError>(e),
        },
{
    let v = vm.get_arg(arg)?;
    let w = v.convert_size_sx(size)?;
    Ok(w.u32_trunc())
}

/// The operations of two operands that compute a number and the flags.
#[derive(PartialEq, Eq, Copy, Clone, Debug)]
pub enum Arithmetic {
    Add,
    /// Addition of both operands and the carry flag
    AddWithCarry,
    Subtract,
    /// Subtraction of the second operand and the carry flag from the first
    SubtractWithBorrow,
    And,
    Or,
    Xor,
}

/// The number and the flags that an operation of two operands gives.
pub open spec fn arithmetic_result(
    op: Arithmetic,
    f: X86Flags,
    a: int,
    b: int,
    size: ValueSize,
) -> (int, X86Flags) {
    match op {
        Arithmetic::Add => (add_result(a, b, 0, size), add_flags(f, a, b, 0, size)),
        Arithmetic::AddWithCarry => (
            add_result(a, b, bit_value(f.carry), size),
            add_flags(f, a, b, bit_value(f.carry), size),
        ),
        Arithmetic::Subtract => (sub_result(a, b, 0, size), sub_flags(f, a, b, 0, size)),
        Arithmetic::SubtractWithBorrow => (
            sub_result(a, b, bit_value(f.carry), size),
            sub_flags(f, a, b, bit_value(f.carry), size),
        ),
        Arithmetic::And => (
            logic_result(Logic::And, a as u32, b as u32) as int,
            logic_flags(f, logic_result(Logic::And, a as u32, b as u32) as int, size),
        ),
        Arithmetic::Or => (
            logic_result(Logic::Or, a as u32, b as u32) as int,
            logic_flags(f, logic_result(Logic::Or, a as u32, b as u32) as int, size),
        ),
        Arithmetic::Xor => (
            logic_result(Logic::Xor, a as u32, b as u32) as int,
            logic_flags(f, logic_result(Logic::Xor, a as u32, b as u32) as int, size),
        ),
    }
}

/// Computes an operation of two operands.
pub fn compute(op: Arithmetic, f: X86Flags, a: u32, b: u32, size: ValueSize) -> (r: (u32, X86Flags))
    requires
        size.is_operand(),
        a < size.modulus(),
        b < size.modulus(),
    ensures
        (r.0 as int, r.1) == arithmetic_result(op, f, a as int, b as int, size),
        r.0 < size.modulus(),
{
    match op {
        Arithmetic::Add => add_with_flags(f, a, b, false, size),
        Arithmetic::AddWithCarry => add_with_flags(f, a, b, f.carry, size),
        Arithmetic::Subtract => sub_with_flags(f, a, b, false, size),
        Arithmetic::SubtractWithBorrow => sub_with_flags(f, a, b, f.carry, size),
        Arithmetic::And => logic_with_flags(f, Logic::And, a, b, size),
        Arithmetic::Or => logic_with_flags(f, Logic::Or, a, b, size),
        Arithmetic::Xor => logic_with_flags(f, Logic::Xor, a, b, size),
    }
}

/// What an instruction of two operands does at width `size`: the first
/// operand is read at that width, the second is sign-extended to it; the
/// flags are set; and the result goes to the first operand, unless the
/// instruction only compares or tests. The flags are set even where the
/// result cannot be stored.
pub open spec fn arithmetic_effect(
    m: Machine,
    p: Pipeline,
    op: Arithmetic,
    size: ValueSize,
    store: bool,
) -> (Machine, Result<(), VMError>) {
    match operand(m, p.args@[0].location, size) {
        Err(e) => (m, Err(e)),
        Ok(a) => match extended_operand(m, p.args@[1].location, size) {
            Err(e) => (m, Err(e)),
            Ok(b) => if store {
                (Machine { flags: arithmetic_result(op, m.flags, a, b, size).1, ..m }).set_arg(
                    p.args@[0].location,
                    SizedValue::of(size, arithmetic_result(op, m.flags, a, b, size).0),
                )
            } else {
                (Machine { flags: arithmetic_result(op, m.flags, a, b, size).1, ..m }, Ok(()))
            },
        },
    }
}

/// Executes an instruction of two operands at width `size`.
pub fn arithmetic(
    vm: &mut VM,
    pipeline: &Pipeline,
    op: Arithmetic,
    size: ValueSize,
    store: bool,
) -> (r:
    Result<(), VMError>)
    requires
        pipeline.wf(),
        size.is_operand(),
    ensures
        (final(vm)@, r) == arithmetic_effect(old(vm)@, *pipeline, op, size, store),
{
    let a = read_operand(vm, pipeline.args[0].location, size)?;
    let b = read_extended(vm, pipeline.args[1].location, size)?;
    let (result, flags) = compute(op, vm.flags, a, b, size);
    vm.flags = flags;
    if store {
        vm.set_arg(pipeline.args[0].location, sized(size, result))
    } else {
        Ok(())
    }
}

/// The operations of one operand.
#[derive(PartialEq, Eq, Copy, Clone, Debug)]
pub enum Unary {
    Increment,
    Decrement,
    Not,
    Negate,
}

/// The number and the flags that an operation of one operand gives.
/// Incrementing and decrementing leave the carry flag as it is, and
/// inverting leaves all flags.
pub open spec fn unary_result(op: Unary, f: X86Flags, a: int, size: ValueSize) -> (int, X86Flags) {
    match op {
        Unary::Increment => (
            add_result(a, 1, 0, size),
            X86Flags { carry: f.carry, ..add_flags(f, a, 1, 0, size) },
        ),
        Unary::Decrement => (
            sub_result(a, 1, 0, size),
            X86Flags { carry: f.carry, ..sub_flags(f, a, 1, 0, size) },
        ),
        Unary::Not => (not_result(a, size), f),
        Unary::Negate => (sub_result(0, a, 0, size), neg_flags(f, a, size)),
    }
}

/// What an instruction of one operand does at width `size`.
pub open spec fn unary_effect(m: Machine, p: Pipeline, op: Unary, size: ValueSize) -> (
    Machine,
    Result<(), VMError>,
) {
    match operand(m, p.args@[0].location, size) {
        Err(e) => (m, Err(e)),
        Ok(a) => (Machine { flags: unary_result(op, m.flags, a, size).1, ..m }).set_arg(
            p.args@[0].location,
            SizedValue::of(size, unary_result(op, m.flags, a, size).0),
        ),
    }
}

/// Executes an instruction of one operand at width `size`.
pub fn unary(vm: &mut VM, pipeline: &Pipeline, op: Unary, size: ValueSize) -> (r: Result<
    (),
    VMError,
>)
    requires
        pipeline.wf(),
        size.is_operand(),
    ensures
        (final(vm)@, r) == unary_effect(old(vm)@, *pipeline, op, size),
{
    let a = read_operand(vm, pipeline.args[0].location, size)?;
    let carry: bool = vm.flags.carry;
    let (result, flags) = match op {
        Unary::Increment => {
            let (x, mut f) = add_with_flags(vm.flags, a, 1, false, size);
            f.carry = carry;
            (x, f)
        },
        Unary::Decrement => {
            let (x, mut f) = sub_with_flags(vm.flags, a, 1, false, size);
            f.carry = carry;
            (x, f)
        },
        Unary::Not => (invert(a, size), vm.flags),
        Unary::Negate => neg_with_flags(vm.flags, a, size),
    };
    vm.flags = flags;
    vm.set_arg(pipeline.args[0].location, sized(size, result))
}

/// What a shift does at width `size`: the first operand is shifted by the
/// second, a byte of which the low five bits count.
pub open spec fn shift_effect(m: Machine, p: Pipeline, left: bool, size: ValueSize) -> (
    Machine,
    Result<(), VMError>,
) {
    match operand(m, p.args@[0].location, size) {
        Err(e) => (m, Err(e)),
        Ok(a) => match operand(m, p.args@[1].location, ValueSize::Byte) {
            Err(e) => (m, Err(e)),
            Ok(c) => if left {
                (Machine { flags: shl_flags(m.flags, a, (c % 32) as nat, size), ..m }).set_arg(
                    p.args@[0].location,
                    SizedValue::of(size, shl_result(a, (c % 32) as nat, size)),
                )
            } else {
                (Machine { flags: shr_flags(m.flags, a, (c % 32) as nat, size), ..m }).set_arg(
                    p.args@[0].location,
                    SizedValue::of(size, shr_result(a, (c % 32) as nat)),
                )
            },
        },
    }
}

/// Executes a shift at width `size`.
pub fn shift(vm: &mut VM, pipeline: &Pipeline, left: bool, size: ValueSize) -> (r: Result<
    (),
    VMError,
>)
    requires
        pipeline.wf(),
        size.is_operand(),
    ensures
        (final(vm)@, r) == shift_effect(old(vm)@, *pipeline, left, size),
{
    let a = read_operand(vm, pipeline.args[0].location, size)?;
    let c = read_operand(vm, pipeline.args[1].location, ValueSize::Byte)?;
    let (result, flags) = if left {
        shl_with_flags(vm.flags, a, c as u8, size)
    } else {
        shr_with_flags(vm.flags, a, c as u8, size)
    };
    vm.flags = flags;
    vm.set_arg(pipeline.args[0].location, sized(size, result))
}

/// The number in the accumulator of width `size`: AL, AX or EAX.
pub open spec fn accumulator(m: Machine, size: ValueSize) -> int {
    m.get_reg(0, size).value()
}

/// The number in the register that extends the accumulator: AH, DX or EDX.
pub open spec fn extension(m: Machine, size: ValueSize) -> int {
    match size {
        ValueSize::Byte => m.get_reg(4, size).value(),
        _ => m.get_reg(2, size).value(),
    }
}

/// The machine with `low` in the accumulator of width `size` and `high` in
/// the register that extends it.
pub open spec fn with_halves(m: Machine, low: int, high: int, size: ValueSize) -> Machine {
    match size {
        ValueSize::Byte => m.set_reg(0, SizedValue::of(size, low)).set_reg(
            4,
            SizedValue::of(size, high),
        ),
        _ => m.set_reg(0, SizedValue::of(size, low)).set_reg(2, SizedValue::of(size, high)),
    }
}

/// Reads the accumulator of width `size`.
pub fn read_accumulator(vm: &VM, size: ValueSize) -> (r: u32)
    requires
        size.is_operand(),
    ensures
        r == accumulator(vm@, size),
        r < size.modulus(),
{
    vm.get_reg(0, size).u32_trunc()
}

/// Reads the register that extends the accumulator of width `size`.
pub fn read_extension(vm: &VM, size: ValueSize) -> (r: u32)
    requires
        size.is_operand(),
    ensures
        r == extension(vm@, size),
        r < size.modulus(),
{
    match size {
        ValueSize::Byte => vm.get_reg(4, size).u32_trunc(),
        _ => vm.get_reg(2, size).u32_trunc(),
    }
}

/// Writes the accumulator of width `size` and the register that extends it.
pub fn write_halves(vm: &mut VM, low: u32, high: u32, size: ValueSize)
    requires
        size.is_operand(),
        low < size.modulus(),
        high < size.modulus(),
    ensures
        final(vm)@ == with_halves(old(vm)@, low as int, high as int, size),
{
    vm.set_reg(0, sized(size, low));
    match size {
        ValueSize::Byte => vm.set_reg(4, sized(size, high)),
        _ => vm.set_reg(2, sized(size, high)),
    }
}

/// What a multiplication by the accumulator does at width `size`: the
/// product of the accumulator and the operand, of twice the width, goes to
/// the accumulator and the register that extends it. Carry and overflow are
/// set where the upper half of the product is not 0.
pub open spec fn multiply_effect(m: Machine, p: Pipeline, size: ValueSize, signed: bool) -> (
    Machine,
    Result<(), VMError>,
) {
    match operand(m, p.args@[0].location, size) {
        Err(e) => (m, Err(e)),
        Ok(b) => {
            let bits = if signed {
                signed_product_bits(accumulator(m, size), b, size)
            } else {
                accumulator(m, size) * b
            };
            (
                with_halves(
                    Machine {
                        flags: X86Flags {
                            carry: bits / size.modulus() != 0,
                            overflow: bits / size.modulus() != 0,
                            ..m.flags
                        },
                        ..m
                    },
                    bits % size.modulus(),
                    bits / size.modulus(),
                    size,
                ),
                Ok(()),
            )
        },
    }
}

/// Executes a multiplication by the accumulator at width `size`.
pub fn multiply(vm: &mut VM, pipeline: &Pipeline, size: ValueSize, signed: bool) -> (r: Result<
    (),
    VMError,
>)
    requires
        pipeline.wf(),
        size.is_operand(),
    ensures
        (final(vm)@, r) == multiply_effect(old(vm)@, *pipeline, size, signed),
{
    let b = read_operand(vm, pipeline.args[0].location, size)?;
    let a = read_accumulator(vm, size);
    let (low, high) = if signed {
        mul_signed(a, b, size)
    } else {
        mul_unsigned(a, b, size)
    };
    vm.flags.carry = high != 0;
    vm.flags.overflow = high != 0;
    write_halves(vm, low, high, size);
    Ok(())
}

/// What a signed multiplication into a register does at width `size`: the
/// low half of the product of two operands, each sign-extended to the
/// width, goes to the first argument. The operands are the first two
/// arguments, or the last two where there are three. Carry and overflow are
/// set where the product is out of the signed range of the width.
pub open spec fn signed_multiply_effect(m: Machine, p: Pipeline, size: ValueSize, three: bool) -> (
    Machine,
    Result<(), VMError>,
) {
    match extended_operand(
        m,
        if three {
            p.args@[1].location
        } else {
            p.args@[0].location
        },
        size,
    ) {
        Err(e) => (m, Err(e)),
        Ok(a) => match extended_operand(
            m,
            if three {
                p.args@[2].location
            } else {
                p.args@[1].location
            },
            size,
        ) {
            Err(e) => (m, Err(e)),
            Ok(b) => (Machine {
                flags: X86Flags {
                    carry: !fits_signed(signed_value(a, size) * signed_value(b, size), size),
                    overflow: !fits_signed(signed_value(a, size) * signed_value(b, size), size),
                    ..m.flags
                },
                ..m
            }).set_arg(
                p.args@[0].location,
                SizedValue::of(size, signed_product_bits(a, b, size) % size.modulus()),
            ),
        },
    }
}

/// Executes a signed multiplication into a register at width `size`.
pub fn signed_multiply(vm: &mut VM, pipeline: &Pipeline, size: ValueSize, three: bool) -> (r:
    Result<(), VMError>)
    requires
        pipeline.wf(),
        size.is_operand(),
    ensures
        (final(vm)@, r) == signed_multiply_effect(old(vm)@, *pipeline, size, three),
{
    let first: ArgLocation = if three {
        pipeline.args[1].location
    } else {
        pipeline.args[0].location
    };
    let second: ArgLocation = if three {
        pipeline.args[2].location
    } else {
        pipeline.args[1].location
    };
    let a = read_extended(vm, first, size)?;
    let b = read_extended(vm, second, size)?;
    let (low, _high) = mul_signed(a, b, size);
    let fits: bool = signed_product_fits(a, b, size);
    vm.flags.carry = !fits;
    vm.flags.overflow = !fits;
    vm.set_arg(pipeline.args[0].location, sized(size, low))
}

/// What a division does at width `size`: the number of twice the width in
/// the accumulator and the register that extends it is divided by the
/// operand; the quotient goes to the accumulator and the remainder to the
/// register that extends it. The flags stay. A division by 0, and a
/// quotient that does not fit the width, fail and change nothing.
pub open spec fn divide_effect(m: Machine, p: Pipeline, size: ValueSize, signed: bool) -> (
    Machine,
    Result<(), VMError>,
) {
    match operand(m, p.args@[0].location, size) {
        Err(e) => (m, Err(e)),
        Ok(d) => match (if signed {
            div_signed_spec(extension(m, size), accumulator(m, size), d, size)
        } else {
            div_unsigned_spec(extension(m, size), accumulator(m, size), d, size)
        }) {
            None => (m, Err(VMError::DivideByZero)),
            Some((q, rem)) => (with_halves(m, q, rem, size), Ok(())),
        },
    }
}

/// Executes a division at width `size`.
pub fn divide(vm: &mut VM, pipeline: &Pipeline, size: ValueSize, signed: bool) -> (r: Result<
    (),
    VMError,
>)
    requires
        pipeline.wf(),
        size.is_operand(),
    ensures
        (final(vm)@, r) == divide_effect(old(vm)@, *pipeline, size, signed),
{
    let d = read_operand(vm, pipeline.args[0].location, size)?;
    let high = read_extension(vm, size);
    let low = read_accumulator(vm, size);
    let outcome = if signed {
        div_signed(high, low, d, size)
    } else {
        div_unsigned(high, low, d, size)
    };
    match outcome {
        None => Err(VMError::DivideByZero),
        Some((q, rem)) => {
            write_halves(vm, q, rem, size);
            Ok(())
        },
    }
}

/// What `mov` does: the value of the second argument goes to the first.
pub open spec fn mov_effect(m: Machine, p: Pipeline) -> (Machine, Result<(), VMError>) {
    match m.get_arg(p.args@[1].location) {
        Err(e) => (m, Err(e)),
        Ok(v) => m.set_arg(p.args@[0].location, v),
    }
}

/// What `push` does: the value of the argument is pushed onto the stack.
pub open spec fn push_effect(m: Machine, p: Pipeline) -> (Machine, Result<(), VMError>) {
    match m.get_arg(p.args@[0].location) {
        Err(e) => (m, Err(e)),
        Ok(v) => m.push(v, p.size_override),
    }
}

/// What `pop` does: a native word is popped off the stack and goes to the
/// argument, whose address is computed after the stack pointer has moved.
pub open spec fn pop_effect(m: Machine, p: Pipeline) -> (Machine, Result<(), VMError>) {
    match m.pop(native_size(p.size_override)).1 {
        Err(e) => (m.pop(native_size(p.size_override)).0, Err(e)),
        Ok(v) => m.pop(native_size(p.size_override)).0.set_arg(p.args@[0].location, v),
    }
}

/// What `xchg` does: the two arguments trade their values.
pub open spec fn xchg_effect(m: Machine, p: Pipeline) -> (Machine, Result<(), VMError>) {
    match m.get_arg(p.args@[0].location) {
        Err(e) => (m, Err(e)),
        Ok(first) => match m.get_arg(p.args@[1].location) {
            Err(e) => (m, Err(e)),
            Ok(second) => match m.set_arg(p.args@[0].location, second).1 {
                Err(e) => (m.set_arg(p.args@[0].location, second).0, Err(e)),
                Ok(()) => m.set_arg(p.args@[0].location, second).0.set_arg(
                    p.args@[1].location,
                    first,
                ),
            },
        },
    }
}

/// The machine after a jump to `target`, of which the low 16 bits count
/// under an operand size prefix. The instruction pointer is left short of
/// the target by the length of the jump, which the dispatcher adds once
/// the handler is done.
pub open spec fn jump_to(m: Machine, p: Pipeline, target: u32) -> Machine {
    Machine {
        eip: wrap32(
            (if p.size_override {
                target as int % 0x1_0000
            } else {
                target as int
            }) - p.eip_size,
        ),
        ..m
    }
}

/// Jumps to `target`.
pub fn jump(vm: &mut VM, pipeline: &Pipeline, target: u32)
    ensures
        final(vm)@ == jump_to(old(vm)@, *pipeline, target),
{
    let t: u32 = if pipeline.size_override {
        target % 0x1_0000
    } else {
        target
    };
    vm.eip = t.wrapping_sub(pipeline.eip_size as u32);
}

/// The address that lies `rel` after the end of the instruction of `size`
/// bytes at `eip`.
pub fn relative_target(eip: u32, size: u8, rel: u32) -> (r: u32)
    ensures
        r == wrap32(eip + size + rel),
{
    ((eip as u64 + size as u64 + rel as u64) % 0x1_0000_0000) as u32
}

/// The address of the instruction that follows the one of `size` bytes at `eip`.
pub fn following(eip: u32, size: u8) -> (r: u32)
    ensures
        r == wrap32(eip + size),
{
    ((eip as u64 + size as u64) % 0x1_0000_0000) as u32
}

/// The number at a location after its value was zero-extended to 32 bits.
pub open spec fn address_operand(m: Machine, arg: ArgLocation) -> Result<int, VMError> {
    match m.get_arg(arg) {
        Err(e) => Err(e),
        Ok(v) => v.spec_zx(ValueSize::Dword),
    }
}

/// Reads the operand at a location and zero-extends it to 32 bits.
pub fn read_address(vm: &VM, arg: ArgLocation) -> (r: Result<u32, VMError>)
    requires
        arg.wf(),
    ensures
        match r {
            Ok(v) => address_operand(vm@, arg) == Ok::<int, VMError>(v as int),
            Err(e) => address_operand(vm@, arg) == Err::<int, VMError>(e),
        },
{
    vm.get_arg(arg)?.u32_zx()
}

/// What a relative jump does: execution goes on at the address of the next
/// instruction plus the sign-extended argument.
pub open spec fn jmp_rel_effect(m: Machine, p: Pipeline) -> (Machine, Result<(), VMError>) {
    match extended_operand(m, p.args@[0].location, ValueSize::Dword) {
        Err(e) => (m, Err(e)),
        Ok(rel) => (jump_to(m, p, wrap32(m.eip + p.eip_size + rel)), Ok(())),
    }
}

/// What an absolute jump does: execution goes on at the value of the argument.
pub open spec fn jmp_abs_effect(m: Machine, p: Pipeline) -> (Machine, Result<(), VMError>) {
    match address_operand(m, p.args@[0].location) {
        Err(e) => (m, Err(e)),
        Ok(target) => (jump_to(m, p, target as u32), Ok(())),
    }
}

/// What a relative call does: the address of the next instruction is pushed
/// as a double word, then execution goes on at that address plus the
/// sign-extended argument.
pub open spec fn call_rel_effect(m: Machine, p: Pipeline) -> (Machine, Result<(), VMError>) {
    match extended_operand(m, p.args@[0].location, ValueSize::Dword) {
        Err(e) => (m, Err(e)),
        Ok(rel) => match m.push(SizedValue::Dword(wrap32(m.eip + p.eip_size)), p.size_override).1 {
            Err(e) => (
                m.push(SizedValue::Dword(wrap32(m.eip + p.eip_size)), p.size_override).0,
                Err(e),
            ),
            Ok(()) => (
                jump_to(
                    m.push(SizedValue::Dword(wrap32(m.eip + p.eip_size)), p.size_override).0,
                    p,
                    wrap32(m.eip + p.eip_size + rel),
                ),
                Ok(()),
            ),
        },
    }
}

/// What an absolute call does: the address of the next instruction is
/// pushed as a double word, then execution goes on at the value of the argument.
pub open spec fn call_abs_effect(m: Machine, p: Pipeline) -> (Machine, Result<(), VMError>) {
    match address_operand(m, p.args@[0].location) {
        Err(e) => (m, Err(e)),
        Ok(target) => match m.push(SizedValue::Dword(wrap32(m.eip + p.eip_size)), p.size_override).1 {
            Err(e) => (
                m.push(SizedValue::Dword(wrap32(m.eip + p.eip_size)), p.size_override).0,
                Err(e),
            ),
            Ok(()) => (
                jump_to(
                    m.push(SizedValue::Dword(wrap32(m.eip + p.eip_size)), p.size_override).0,
                    p,
                    target as u32,
                ),
                Ok(()),
            ),
        },
    }
}

/// What `ret` does: a native word is popped off the stack, execution goes
/// on at its value, and the stack pointer moves up by the argument, a word,
/// where there is one.
pub open spec fn ret_effect(m: Machine, p: Pipeline) -> (Machine, Result<(), VMError>) {
    match m.get_arg(p.args@[0].location) {
        Err(e) => (m, Err(e)),
        Ok(v) => match v.spec_zx(ValueSize::Word) {
            Err(e) => (m, Err(e)),
            Ok(release) => match m.pop(native_size(p.size_override)).1 {
                Err(e) => (m.pop(native_size(p.size_override)).0, Err(e)),
                Ok(target) => match target.spec_zx(ValueSize::Dword) {
                    Err(e) => (m.pop(native_size(p.size_override)).0, Err(e)),
                    Ok(t) => (
                        Machine {
                            regs: m.pop(native_size(p.size_override)).0.regs.update(
                                4,
                                wrap32(m.pop(native_size(p.size_override)).0.regs[4] + release),
                            ),
                            ..jump_to(m.pop(native_size(p.size_override)).0, p, t as u32)
                        },
                        Ok(()),
                    ),
                },
            },
        },
    }
}

/// What a jump on a condition does: a relative jump where `taken`, else nothing.
pub open spec fn branch_effect(m: Machine, p: Pipeline, taken: bool) -> (
    Machine,
    Result<(), VMError>,
) {
    if taken {
        jmp_rel_effect(m, p)
    } else {
        (m, Ok(()))
    }
}

/// The count register: CX under an operand size prefix, else ECX.
pub open spec fn counter(m: Machine, size_override: bool) -> int {
    if size_override {
        m.regs[1] as int % 0x1_0000
    } else {
        m.regs[1] as int
    }
}

/// What `setcc` does: the argument, a byte, becomes 1 where the flags meet
/// the condition of the opcode, else 0.
pub open spec fn setcc_effect(m: Machine, p: Pipeline) -> (Machine, Result<(), VMError>) {
    m.set_arg(
        p.args@[0].location,
        SizedValue::Byte(
            if condition_holds(p.opcode, m.flags) {
                1
            } else {
                0
            },
        ),
    )
}

/// What `cmovcc` does: a `mov` where the flags meet the condition of the
/// opcode, else nothing.
pub open spec fn cmovcc_effect(m: Machine, p: Pipeline) -> (Machine, Result<(), VMError>) {
    if condition_holds(p.opcode, m.flags) {
        mov_effect(m, p)
    } else {
        (m, Ok(()))
    }
}

/// What `lea` does: the address that the second argument refers to goes to
/// the first, its low 16 bits only under an operand size prefix. Memory is
/// not read.
pub open spec fn lea_effect(m: Machine, p: Pipeline) -> (Machine, Result<(), VMError>) {
    match m.get_arg_lea(p.args@[1].location) {
        Err(e) => (m, Err(e)),
        Ok(address) => m.set_arg(
            p.args@[0].location,
            if p.size_override {
                SizedValue::Word((address % 0x1_0000) as u16)
            } else {
                SizedValue::Dword(address)
            },
        ),
    }
}

/// What `movzx` and `movsx` do: the second argument, extended to the width
/// `size` with zeros or with its sign, goes to the first.
pub open spec fn extend_effect(m: Machine, p: Pipeline, size: ValueSize, signed: bool) -> (
    Machine,
    Result<(), VMError>,
) {
    match m.get_arg(p.args@[1].location) {
        Err(e) => (m, Err(e)),
        Ok(v) => match (if signed {
            v.spec_sx(size)
        } else {
            v.spec_zx(size)
        }) {
            Err(e) => (m, Err(e)),
            Ok(x) => m.set_arg(p.args@[0].location, SizedValue::of(size, x)),
        },
    }
}

/// Executes `movzx` or `movsx` to the width `size`, a word or a double word.
pub fn extend(vm: &mut VM, pipeline: &Pipeline, size: ValueSize, signed: bool) -> (r: Result<
    (),
    VMError,
>)
    requires
        pipeline.wf(),
        size == ValueSize::Word || size == ValueSize::Dword,
    ensures
        (final(vm)@, r) == extend_effect(old(vm)@, *pipeline, size, signed),
{
    let v = vm.get_arg(pipeline.args[1].location)?;
    let extended: SizedValue = match size {
        ValueSize::Word => if signed {
            SizedValue::Word(v.u16_sx()?)
        } else {
            SizedValue::Word(v.u16_zx()?)
        },
        _ => if signed {
            SizedValue::Dword(v.u32_sx()?)
        } else {
            SizedValue::Dword(v.u32_zx()?)
        },
    };
    vm.set_arg(pipeline.args[0].location, extended)
}

/// What `bswap` does: the four bytes of the argument change their order.
pub open spec fn bswap_effect(m: Machine, p: Pipeline) -> (Machine, Result<(), VMError>) {
    match operand(m, p.args@[0].location, ValueSize::Dword) {
        Err(e) => (m, Err(e)),
        Ok(a) => m.set_arg(p.args@[0].location, SizedValue::of(ValueSize::Dword, byte_swap(a))),
    }
}

/// The number of bits of the native word.
pub open spec fn native_bits(size_override: bool) -> int {
    if size_override {
        16
    } else {
        32
    }
}

/// What the bit test instructions do: the bit of the first argument, a
/// native word, whose place is the value of the second argument modulo the
/// width, goes to the carry flag and is then changed.
pub open spec fn bit_test_effect(m: Machine, p: Pipeline, change: BitChange) -> (
    Machine,
    Result<(), VMError>,
) {
    match operand(m, p.args@[0].location, native_size(p.size_override)) {
        Err(e) => (m, Err(e)),
        Ok(a) => match m.get_arg(p.args@[1].location) {
            Err(e) => (m, Err(e)),
            Ok(v) => if change == BitChange::Keep {
                (
                    Machine {
                        flags: X86Flags {
                            carry: bit_of(
                                a as u32,
                                (v.value() % native_bits(p.size_override)) as u8,
                            ),
                            ..m.flags
                        },
                        ..m
                    },
                    Ok(()),
                )
            } else {
                (Machine {
                    flags: X86Flags {
                        carry: bit_of(a as u32, (v.value() % native_bits(p.size_override)) as u8),
                        ..m.flags
                    },
                    ..m
                }).set_arg(
                    p.args@[0].location,
                    SizedValue::of(
                        native_size(p.size_override),
                        changed_bit(
                            a as u32,
                            (v.value() % native_bits(p.size_override)) as u8,
                            change,
                        ) as int,
                    ),
                )
            },
        },
    }
}

/// Executes a bit test instruction.
pub fn test_bit(vm: &mut VM, pipeline: &Pipeline, change: BitChange) -> (r: Result<(), VMError>)
    requires
        pipeline.wf(),
    ensures
        (final(vm)@, r) == bit_test_effect(old(vm)@, *pipeline, change),
{
    let size = native(pipeline.size_override);
    let a = read_operand(vm, pipeline.args[0].location, size)?;
    let v = vm.get_arg(pipeline.args[1].location)?;
    let bits: u64 = if pipeline.size_override {
        16
    } else {
        32
    };
    let n: u8 = (v.u64_trunc() % bits) as u8;
    let (bit, changed) = test_and_change_bit(a, n, change);
    vm.flags.carry = bit;
    match change {
        BitChange::Keep => Ok(()),
        _ => vm.set_arg(pipeline.args[0].location, sized(size, changed)),
    }
}

/// What the bit scan instructions do: where the first argument, a native
/// word, is 0, the zero flag is set and nothing else happens; else the zero
/// flag is cleared and the place of its lowest or highest set bit goes to
/// the second argument.
pub open spec fn bit_scan_effect(m: Machine, p: Pipeline, forward: bool) -> (
    Machine,
    Result<(), VMError>,
) {
    match operand(m, p.args@[0].location, native_size(p.size_override)) {
        Err(e) => (m, Err(e)),
        Ok(a) => if a == 0 {
            (Machine { flags: X86Flags { zero: true, ..m.flags }, ..m }, Ok(()))
        } else {
            (Machine { flags: X86Flags { zero: false, ..m.flags }, ..m }).set_arg(
                p.args@[1].location,
                SizedValue::of(
                    native_size(p.size_override),
                    if forward {
                        lowest_set_bit(a as nat) as int
                    } else {
                        highest_set_bit(a as nat) as int
                    },
                ),
            )
        },
    }
}

/// Executes a bit scan instruction.
pub fn scan_bits(vm: &mut VM, pipeline: &Pipeline, forward: bool) -> (r: Result<(), VMError>)
    requires
        pipeline.wf(),
    ensures
        (final(vm)@, r) == bit_scan_effect(old(vm)@, *pipeline, forward),
{
    let size = native(pipeline.size_override);
    let a = read_operand(vm, pipeline.args[0].location, size)?;
    if a == 0 {
        vm.flags.zero = true;
        return Ok(());
    }
    vm.flags.zero = false;
    let place: u8 = if forward {
        scan_forward(a)
    } else {
        scan_reverse(a)
    };
    vm.set_arg(pipeline.args[1].location, sized(size, place as u32))
}

/// The address that follows `address` in a string of values of width
/// `size`: the next one up, or the next one down where strings are
/// processed backwards.
pub open spec fn advanced(address: u32, size: ValueSize, backwards: bool) -> u32 {
    if backwards {
        wrap32(address - size.bytes())
    } else {
        wrap32(address + size.bytes())
    }
}

/// The address that follows `address` in a string.
pub fn advance(address: u32, size: ValueSize, backwards: bool) -> (r: u32)
    requires
        size.is_operand(),
    ensures
        r == advanced(address, size, backwards),
{
    let step: u32 = match size {
        ValueSize::Byte => 1,
        ValueSize::Word => 2,
        _ => 4,
    };
    if backwards {
        address.wrapping_sub(step)
    } else {
        address.wrapping_add(step)
    }
}

/// The machine with `v` in register `reg`.
pub open spec fn with_register(m: Machine, reg: int, v: u32) -> Machine {
    Machine { regs: m.regs.update(reg, v), ..m }
}

/// The number of width `size` that memory holds at `address`.
pub open spec fn memory_operand(m: Machine, address: u32, size: ValueSize) -> Result<int, VMError> {
    match m.get_mem(address, size) {
        Err(e) => Err(e),
        Ok(v) => Ok(v.value()),
    }
}

/// Reads the number of width `size` that memory holds at `address`.
pub fn read_memory(vm: &VM, address: u32, size: ValueSize) -> (r: Result<u32, VMError>)
    requires
        size.is_operand(),
    ensures
        match r {
            Ok(v) => memory_operand(vm@, address, size) == Ok::<int, VMError>(v as int) && v
                < size.modulus(),
            Err(e) => memory_operand(vm@, address, size) == Err::<int, VMError>(e),
        },
{
    reveal(Machine::get_mem);
    Ok(vm.get_mem(address, size)?.u32_trunc())
}

/// What `movs` does at width `size`: the value at the address in ESI goes
/// to the address in EDI, and both registers advance.
pub open spec fn movs_effect(m: Machine, size: ValueSize) -> (Machine, Result<(), VMError>) {
    match m.get_mem(m.regs[6], size) {
        Err(e) => (m, Err(e)),
        Ok(v) => match m.set_mem(m.regs[7], v).1 {
            Err(e) => (m.set_mem(m.regs[7], v).0, Err(e)),
            Ok(()) => (
                with_register(
                    with_register(
                        m.set_mem(m.regs[7], v).0,
                        7,
                        advanced(
                            m.set_mem(m.regs[7], v).0.regs[7],
                            size,
                            m.set_mem(m.regs[7], v).0.flags.direction,
                        ),
                    ),
                    6,
                    advanced(
                        m.set_mem(m.regs[7], v).0.regs[6],
                        size,
                        m.set_mem(m.regs[7], v).0.flags.direction,
                    ),
                ),
                Ok(()),
            ),
        },
    }
}

/// Executes `movs` at width `size`.
pub fn move_string(vm: &mut VM, size: ValueSize) -> (r: Result<(), VMError>)
    requires
        size.is_operand(),
    ensures
        (final(vm)@, r) == movs_effect(old(vm)@, size),
{
    let v = vm.get_mem(vm.regs[6], size)?;
    vm.set_mem(vm.regs[7], v)?;
    vm.regs[7] = advance(vm.regs[7], size, vm.flags.direction);
    vm.regs[6] = advance(vm.regs[6], size, vm.flags.direction);
    Ok(())
}

/// What `cmps` does at width `size`: the flags are set as by the
/// subtraction of the value at the address in EDI from the value at the
/// address in ESI, and both registers advance.
pub open spec fn compare_strings_effect(m: Machine, size: ValueSize) -> (
    Machine,
    Result<(), VMError>,
) {
    match memory_operand(m, m.regs[6], size) {
        Err(e) => (m, Err(e)),
        Ok(a) => match memory_operand(m, m.regs[7], size) {
            Err(e) => (m, Err(e)),
            Ok(b) => (
                with_register(
                    with_register(
                        Machine { flags: sub_flags(m.flags, a, b, 0, size), ..m },
                        7,
                        advanced(m.regs[7], size, m.flags.direction),
                    ),
                    6,
                    advanced(m.regs[6], size, m.flags.direction),
                ),
                Ok(()),
            ),
        },
    }
}

/// Executes `cmps` at width `size`.
pub fn compare_strings(vm: &mut VM, size: ValueSize) -> (r: Result<(), VMError>)
    requires
        size.is_operand(),
    ensures
        (final(vm)@, r) == compare_strings_effect(old(vm)@, size),
{
    let a = read_memory(vm, vm.regs[6], size)?;
    let b = read_memory(vm, vm.regs[7], size)?;
    let (_difference, flags) = sub_with_flags(vm.flags, a, b, false, size);
    let backwards: bool = vm.flags.direction;
    vm.flags = flags;
    vm.regs[7] = advance(vm.regs[7], size, backwards);
    vm.regs[6] = advance(vm.regs[6], size, backwards);
    Ok(())
}

/// What `scas` does at width `size`: the flags are set as by the
/// subtraction of the value at the address in EDI from the accumulator,
/// and EDI advances.
pub open spec fn scan_string_effect(m: Machine, size: ValueSize) -> (Machine, Result<(), VMError>) {
    match memory_operand(m, m.regs[7], size) {
        Err(e) => (m, Err(e)),
        Ok(b) => (
            with_register(
                Machine { flags: sub_flags(m.flags, accumulator(m, size), b, 0, size), ..m },
                7,
                advanced(m.regs[7], size, m.flags.direction),
            ),
            Ok(()),
        ),
    }
}

/// Executes `scas` at width `size`.
pub fn scan_string(vm: &mut VM, size: ValueSize) -> (r: Result<(), VMError>)
    requires
        size.is_operand(),
    ensures
        (final(vm)@, r) == scan_string_effect(old(vm)@, size),
{
    let b = read_memory(vm, vm.regs[7], size)?;
    let a = read_accumulator(vm, size);
    let (_difference, flags) = sub_with_flags(vm.flags, a, b, false, size);
    let backwards: bool = vm.flags.direction;
    vm.flags = flags;
    vm.regs[7] = advance(vm.regs[7], size, backwards);
    Ok(())
}

/// What `lods` does at width `size`: the value at the address in ESI goes
/// to the accumulator, and ESI advances.
pub open spec fn load_string_effect(m: Machine, size: ValueSize) -> (Machine, Result<(), VMError>) {
    match m.get_mem(m.regs[6], size) {
        Err(e) => (m, Err(e)),
        Ok(v) => (
            with_register(
                m.set_reg(0, v),
                6,
                advanced(m.set_reg(0, v).regs[6], size, m.flags.direction),
            ),
            Ok(()),
        ),
    }
}

/// Executes `lods` at width `size`.
pub fn load_string(vm: &mut VM, size: ValueSize) -> (r: Result<(), VMError>)
    requires
        size.is_operand(),
    ensures
        (final(vm)@, r) == load_string_effect(old(vm)@, size),
{
    let v = vm.get_mem(vm.regs[6], size)?;
    vm.set_reg(0, v);
    vm.regs[6] = advance(vm.regs[6], size, vm.flags.direction);
    Ok(())
}

/// What `stos` does at width `size`: the accumulator goes to the address
/// in EDI, and EDI advances.
pub open spec fn store_string_effect(
    m: Machine,
    size: ValueSize,
) -> (Machine, Result<(), VMError>) {
    match m.set_mem(m.regs[7], m.get_reg(0, size)).1 {
        Err(e) => (m.set_mem(m.regs[7], m.get_reg(0, size)).0, Err(e)),
        Ok(()) => (
            with_register(
                m.set_mem(m.regs[7], m.get_reg(0, size)).0,
                7,
                advanced(
                    m.set_mem(m.regs[7], m.get_reg(0, size)).0.regs[7],
                    size,
                    m.set_mem(m.regs[7], m.get_reg(0, size)).0.flags.direction,
                ),
            ),
            Ok(()),
        ),
    }
}

/// Executes `stos` at width `size`.
pub fn store_string(vm: &mut VM, size: ValueSize) -> (r: Result<(), VMError>)
    requires
        size.is_operand(),
    ensures
        (final(vm)@, r) == store_string_effect(old(vm)@, size),
{
    let v = vm.get_reg(0, size);
    vm.set_mem(vm.regs[7], v)?;
    vm.regs[7] = advance(vm.regs[7], size, vm.flags.direction);
    Ok(())
}

/// Whether the opcode is one of the string instructions that set no flags:
/// `movs`, `lods` and `stos`.
pub open spec fn repeats_plainly(opcode: u8) -> bool {
    opcode == 0xA4 || opcode == 0xA5 || opcode == 0xAC || opcode == 0xAD || opcode == 0xAA
        || opcode == 0xAB
}

/// Whether the opcode is one of the string instructions that compare:
/// `cmps` and `scas`.
pub open spec fn repeats_on_flag(opcode: u8) -> bool {
    opcode == 0xA6 || opcode == 0xA7 || opcode == 0xAE || opcode == 0xAF
}

/// Whether the opcode is one of the string instructions that set no flags.
pub fn rep_no_flag_opcodes(opcode: u8) -> (r: bool)
    ensures
        r == repeats_plainly(opcode),
{
    match opcode {
        0xA4 | 0xA5 | 0xAC | 0xAD | 0xAA | 0xAB => true,
        _ => false,
    }
}

/// Whether the opcode is one of the string instructions that compare.
pub fn rep_flag_opcodes(opcode: u8) -> (r: bool)
    ensures
        r == repeats_on_flag(opcode),
{
    match opcode {
        0xA6 | 0xA7 | 0xAE | 0xAF => true,
        _ => false,
    }
}

/// What one step of the string instruction of the slot does. The opcodes
/// with an even number work on bytes, the others on native words.
#[verifier::opaque]
pub open spec fn string_step_effect(m: Machine, p: Pipeline) -> (Machine, Result<(), VMError>) {
    let size = if p.opcode % 2 == 0 {
        ValueSize::Byte
    } else {
        native_size(p.size_override)
    };
    if p.opcode == 0xA4 || p.opcode == 0xA5 {
        movs_effect(m, size)
    } else if p.opcode == 0xA6 || p.opcode == 0xA7 {
        compare_strings_effect(m, size)
    } else if p.opcode == 0xAA || p.opcode == 0xAB {
        store_string_effect(m, size)
    } else if p.opcode == 0xAC || p.opcode == 0xAD {
        load_string_effect(m, size)
    } else if p.opcode == 0xAE || p.opcode == 0xAF {
        scan_string_effect(m, size)
    } else {
        (m, Err(VMError::InvalidOpcodeEncoding))
    }
}

/// Executes one step of the string instruction of the slot.
pub fn string_step(vm: &mut VM, pipeline: &Pipeline) -> (r: Result<(), VMError>)
    ensures
        (final(vm)@, r) == string_step_effect(old(vm)@, *pipeline),
{
    reveal(string_step_effect);
    let size: ValueSize = if pipeline.opcode % 2 == 0 {
        ValueSize::Byte
    } else {
        native(pipeline.size_override)
    };
    match pipeline.opcode {
        0xA4 | 0xA5 => move_string(vm, size),
        0xA6 | 0xA7 => compare_strings(vm, size),
        0xAA | 0xAB => store_string(vm, size),
        0xAC | 0xAD => load_string(vm, size),
        0xAE | 0xAF => scan_string(vm, size),
        _ => Err(VMError::InvalidOpcodeEncoding),
    }
}

/// The machine with `count` in the count register.
pub open spec fn with_counter(m: Machine, count: int, size_override: bool) -> Machine {
    if size_override {
        m.set_reg(1, SizedValue::Word(count as u16))
    } else {
        m.set_reg(1, SizedValue::Dword(count as u32))
    }
}

/// The value of a register as a native word.
pub fn read_regw(vm: &VM, reg: Reg32, size_override: bool) -> (r: u32)
    ensures
        r == if size_override {
            vm@.regs[reg.index() as int] as int % 0x1_0000
        } else {
            vm@.regs[reg.index() as int] as int
        },
{
    let i: usize = reg.number() as usize;
    if size_override {
        vm.regs[i] % 0x1_0000
    } else {
        vm.regs[i]
    }
}

/// Takes one off a register as a native word, which must not be 0, and
/// returns what is left of it.
pub fn decrement_regw(vm: &mut VM, reg: Reg32, size_override: bool) -> (r: u32)
    requires
        if size_override {
            old(vm)@.regs[reg.index() as int] % 0x1_0000 != 0
        } else {
            old(vm)@.regs[reg.index() as int] != 0
        },
    ensures
        final(vm)@ == if size_override {
            old(vm)@.set_reg(
                reg.index(),
                SizedValue::Word((old(vm)@.regs[reg.index() as int] % 0x1_0000 - 1) as u16),
            )
        } else {
            old(vm)@.set_reg(
                reg.index(),
                SizedValue::Dword((old(vm)@.regs[reg.index() as int] - 1) as u32),
            )
        },
        r == if size_override {
            old(vm)@.regs[reg.index() as int] % 0x1_0000 - 1
        } else {
            old(vm)@.regs[reg.index() as int] - 1
        },
{
    let i: u8 = reg.number();
    if size_override {
        let r: u16 = (vm.regs[i as usize] % 0x1_0000) as u16 - 1;
        vm.set_reg(i, SizedValue::Word(r));
        r as u32
    } else {
        let r: u32 = vm.regs[i as usize] - 1;
        vm.set_reg(i, SizedValue::Dword(r));
        r
    }
}

/// One step of a string instruction leaves the count register as it is.
pub proof fn lemma_string_step_keeps_count(m: Machine, p: Pipeline)
    requires
        m.regs.len() == 8,
    ensures
        string_step_effect(m, p).0.regs[1] == m.regs[1],
        string_step_effect(m, p).0.regs.len() == 8,
{
    broadcast use {lemma_set_mem_frame, lemma_set_arg_frame};

    reveal(string_step_effect);
}

/// What a repeated string instruction does while `count` steps are left.
/// Each step needs gas to be left, and takes the cost of the tier `Low`
/// off it when it is done, as far as there is any; then one is taken off
/// the count register. After a step that leaves the zero flag as
/// `stop_on_zero` says, if it says anything, the repetition ends.
pub open spec fn repetition(m: Machine, p: Pipeline, stop_on_zero: Option<bool>, count: nat) -> (
    Machine,
    Result<(), VMError>,
)
    decreases count,
{
    if count == 0 {
        (m, Ok(()))
    } else if m.gas_remaining == 0 {
        (m, Err(VMError::OutOfGas))
    } else {
        match string_step_effect(m, p).1 {
            Err(e) => (string_step_effect(m, p).0, Err(e)),
            Ok(()) => if stop_on_zero == Some(string_step_effect(m, p).0.flags.zero) {
                (after_step(string_step_effect(m, p).0, p.size_override, count), Ok(()))
            } else {
                repetition(
                    after_step(string_step_effect(m, p).0, p.size_override, count),
                    p,
                    stop_on_zero,
                    (count - 1) as nat,
                )
            },
        }
    }
}

/// The machine after a step of a repetition is done, when `count` steps
/// were left before it: the step is paid, and one is taken off the count.
pub open spec fn after_step(m: Machine, size_override: bool, count: nat) -> Machine {
    with_counter(
        Machine {
            gas_remaining: if m.gas_remaining >= m.costs[GasCost::Low.index()] {
                (m.gas_remaining - m.costs[GasCost::Low.index()]) as u64
            } else {
                0
            },
            ..m
        },
        count - 1,
        size_override,
    )
}

/// What a repeating prefix does. 0xF3 repeats the string instructions that
/// set no flags as often as the count register says, and those that
/// compare until they find a difference; 0xF2 repeats those that compare
/// until they find equality. Before any other instruction both are an
/// encoding error, and so is 0xF2 before a string instruction that sets no flags.
pub open spec fn repeat_effect(m: Machine, p: Pipeline, while_equal: bool) -> (
    Machine,
    Result<(), VMError>,
) {
    if repeats_on_flag(p.opcode) {
        repetition(m, p, Some(!while_equal), counter(m, p.size_override) as nat)
    } else if repeats_plainly(p.opcode) && while_equal {
        repetition(m, p, None, counter(m, p.size_override) as nat)
    } else {
        (m, Err(VMError::InvalidOpcodeEncoding))
    }
}

/// Repeats the string instruction of the slot.
#[verifier::rlimit(30)]
pub fn repeat(vm: &mut VM, pipeline: &Pipeline, stop_on_zero: Option<bool>) -> (r: Result<
    (),
    VMError,
>)
    ensures
        (final(vm)@, r) == repetition(
            old(vm)@,
            *pipeline,
            stop_on_zero,
            counter(old(vm)@, pipeline.size_override) as nat,
        ),
{
    let mut count: u32 = read_regw(vm, Reg32::ECX, pipeline.size_override);
    let ghost goal = repetition(
        vm@,
        *pipeline,
        stop_on_zero,
        counter(vm@, pipeline.size_override) as nat,
    );
    while count != 0
        invariant
            count == counter(vm@, pipeline.size_override),
            repetition(vm@, *pipeline, stop_on_zero, count as nat) == goal,
            goal == repetition(
                old(vm)@,
                *pipeline,
                stop_on_zero,
                counter(old(vm)@, pipeline.size_override) as nat,
            ),
        decreases count,
    {
        let ghost before = vm@;
        if vm.gas_remaining == 0 {
            return Err(VMError::OutOfGas);
        }
        string_step(vm, pipeline)?;
        let ghost stepped = vm@;
        assert(stepped == string_step_effect(before, *pipeline).0);
        let stop: bool = match stop_on_zero {
            Some(z) => z == vm.flags.zero,
            None => false,
        };
        proof {
            lemma_string_step_keeps_count(before, *pipeline);
        }
        vm.gas_remaining = vm.gas_remaining.saturating_sub(vm.charger.cost(GasCost::Low));
        count = decrement_regw(vm, Reg32::ECX, pipeline.size_override);
        assert(vm@ == after_step(stepped, pipeline.size_override, (count + 1) as nat));
        if stop {
            return Ok(());
        }
    }
    Ok(())
}

/// What `hlt` does: it stops the machine.
pub open spec fn hlt_effect(m: Machine) -> (Machine, Result<(), VMError>) {
    (m, Err(VMError::InternalVMStop))
}

/// What an opcode that is not defined does: it fails with the byte at the
/// instruction pointer.
pub open spec fn undefined_effect(m: Machine) -> (Machine, Result<(), VMError>) {
    match m.get_mem(m.eip, ValueSize::Byte) {
        Err(e) => (m, Err(e)),
        Ok(v) => match v {
            SizedValue::Byte(b) => (m, Err(VMError::InvalidOpcode(b))),
            _ => (m, Err(VMError::WrongSizeExpectation)),
        },
    }
}

/// What `std` and `cld` do: they set and clear the direction flag.
pub open spec fn direction_effect(m: Machine, backwards: bool) -> (Machine, Result<(), VMError>) {
    (Machine { flags: X86Flags { direction: backwards, ..m.flags }, ..m }, Ok(()))
}

/// What `cbw` and `cwde` do: the lower half of the accumulator of the
/// native word is extended with its sign to the whole of it.
pub open spec fn widen_effect(m: Machine, p: Pipeline) -> (Machine, Result<(), VMError>) {
    match m.get_reg(
        0,
        if p.size_override {
            ValueSize::Byte
        } else {
            ValueSize::Word
        },
    ).spec_sx(native_size(p.size_override)) {
        Err(e) => (m, Err(e)),
        Ok(x) => (m.set_reg(0, SizedValue::of(native_size(p.size_override), x)), Ok(())),
    }
}

/// What `cwd` and `cdq` do: the register that extends the accumulator of
/// the native word is filled with the sign of the accumulator.
pub open spec fn spread_sign_effect(m: Machine, p: Pipeline) -> (Machine, Result<(), VMError>) {
    (
        m.set_reg(
            2,
            SizedValue::of(
                native_size(p.size_override),
                if 2 * accumulator(m, native_size(p.size_override)) >= native_size(
                    p.size_override,
                ).modulus() {
                    native_size(p.size_override).modulus() - 1
                } else {
                    0
                },
            ),
        ),
        Ok(()),
    )
}

/// What `xadd` does at width `size`: the sum of both arguments goes to the
/// first, what the first held goes to the second, and the flags are those
/// of the addition.
pub open spec fn exchange_add_effect(m: Machine, p: Pipeline, size: ValueSize) -> (
    Machine,
    Result<(), VMError>,
) {
    match operand(m, p.args@[0].location, size) {
        Err(e) => (m, Err(e)),
        Ok(a) => match operand(m, p.args@[1].location, size) {
            Err(e) => (m, Err(e)),
            Ok(b) => match (Machine { flags: add_flags(m.flags, a, b, 0, size), ..m }).set_arg(
                p.args@[1].location,
                SizedValue::of(size, a),
            ).1 {
                Err(e) => (
                    (Machine { flags: add_flags(m.flags, a, b, 0, size), ..m }).set_arg(
                        p.args@[1].location,
                        SizedValue::of(size, a),
                    ).0,
                    Err(e),
                ),
                Ok(()) => (Machine { flags: add_flags(m.flags, a, b, 0, size), ..m }).set_arg(
                    p.args@[1].location,
                    SizedValue::of(size, a),
                ).0.set_arg(p.args@[0].location, SizedValue::of(size, add_result(a, b, 0, size))),
            },
        },
    }
}

/// Executes `xadd` at width `size`.
pub fn exchange_add(vm: &mut VM, pipeline: &Pipeline, size: ValueSize) -> (r: Result<(), VMError>)
    requires
        pipeline.wf(),
        size.is_operand(),
    ensures
        (final(vm)@, r) == exchange_add_effect(old(vm)@, *pipeline, size),
{
    let a = read_operand(vm, pipeline.args[0].location, size)?;
    let b = read_operand(vm, pipeline.args[1].location, size)?;
    let (sum, flags) = add_with_flags(vm.flags, a, b, false, size);
    vm.flags = flags;
    vm.set_arg(pipeline.args[1].location, sized(size, a))?;
    vm.set_arg(pipeline.args[0].location, sized(size, sum))
}

/// What `cmpxchg` does at width `size`: the flags are set as by the
/// subtraction of the first argument from the accumulator; where the two
/// are equal the second argument goes to the first, else the first goes to
/// the accumulator.
pub open spec fn compare_exchange_effect(m: Machine, p: Pipeline, size: ValueSize) -> (
    Machine,
    Result<(), VMError>,
) {
    match operand(m, p.args@[0].location, size) {
        Err(e) => (m, Err(e)),
        Ok(d) => match operand(m, p.args@[1].location, size) {
            Err(e) => (m, Err(e)),
            Ok(s) => if accumulator(m, size) == d {
                (Machine {
                    flags: sub_flags(m.flags, accumulator(m, size), d, 0, size),
                    ..m
                }).set_arg(p.args@[0].location, SizedValue::of(size, s))
            } else {
                (
                    (Machine {
                        flags: sub_flags(m.flags, accumulator(m, size), d, 0, size),
                        ..m
                    }).set_reg(0, SizedValue::of(size, d)),
                    Ok(()),
                )
            },
        },
    }
}

/// Executes `cmpxchg` at width `size`.
pub fn compare_exchange(vm: &mut VM, pipeline: &Pipeline, size: ValueSize) -> (r: Result<
    (),
    VMError,
>)
    requires
        pipeline.wf(),
        size.is_operand(),
    ensures
        (final(vm)@, r) == compare_exchange_effect(old(vm)@, *pipeline, size),
{
    let d = read_operand(vm, pipeline.args[0].location, size)?;
    let s = read_operand(vm, pipeline.args[1].location, size)?;
    let a = read_accumulator(vm, size);
    let (_difference, flags) = sub_with_flags(vm.flags, a, d, false, size);
    vm.flags = flags;
    if a == d {
        vm.set_arg(pipeline.args[0].location, sized(size, s))
    } else {
        vm.set_reg(0, sized(size, d));
        Ok(())
    }
}

/// What `leave` does: the stack pointer moves to just above the native
/// word that the frame pointer points to, and that word goes to the frame pointer.
pub open spec fn leave_effect(m: Machine, p: Pipeline) -> (Machine, Result<(), VMError>) {
    match m.get_mem(m.regs[5], native_size(p.size_override)) {
        Err(e) => (m, Err(e)),
        Ok(v) => (
            with_register(m, 4, wrap32(m.regs[5] + native_size(p.size_override).bytes())).set_reg(
                5,
                v,
            ),
            Ok(()),
        ),
    }
}

/// What `enter` does: the frame pointer is pushed as a native word and then
/// points to where it was pushed, and the stack pointer moves down from
/// there by the first argument, a word. The second argument, a byte of
/// which the low five bits count, is the nesting level, of which only 0 is
/// implemented.
pub open spec fn enter_effect(m: Machine, p: Pipeline) -> (Machine, Result<(), VMError>) {
    match operand(m, p.args@[0].location, ValueSize::Word) {
        Err(e) => (m, Err(e)),
        Ok(room) => match operand(m, p.args@[1].location, ValueSize::Byte) {
            Err(e) => (m, Err(e)),
            Ok(level) => if level % 32 != 0 {
                (m, Err(VMError::NotYetImplemented))
            } else {
                match m.push(m.get_reg(5, native_size(p.size_override)), p.size_override).1 {
                    Err(e) => (
                        m.push(m.get_reg(5, native_size(p.size_override)), p.size_override).0,
                        Err(e),
                    ),
                    Ok(()) => (
                        entered(
                            m.push(m.get_reg(5, native_size(p.size_override)), p.size_override).0,
                            p.size_override,
                            room,
                        ),
                        Ok(()),
                    ),
                }
            },
        },
    }
}

/// The machine after the frame pointer was pushed by `enter`: the frame
/// pointer takes the stack pointer as a native word, and the stack pointer
/// moves down by `room`.
pub open spec fn entered(m: Machine, size_override: bool, room: int) -> Machine {
    with_register(
        m.set_reg(
            5,
            SizedValue::of(
                native_size(size_override),
                m.regs[4] as int % native_size(size_override).modulus(),
            ),
        ),
        4,
        wrap32(m.regs[4] - room),
    )
}

/// The handler of `mov`.
pub fn mov<H: Hypervisor>(
    vm: &mut VM,
    pipeline: &Pipeline,
    _hv: &mut H,
) -> (r: Result<(), VMError>)
    requires
        pipeline.wf(),
    ensures
        (final(vm)@, r) == mov_effect(old(vm)@, *pipeline),
        *final(_hv) == *old(_hv),
{
    let v = vm.get_arg(pipeline.args[1].location)?;
    vm.set_arg(pipeline.args[0].location, v)
}

/// The handler of `push`.
pub fn push<H: Hypervisor>(
    vm: &mut VM,
    pipeline: &Pipeline,
    _hv: &mut H,
) -> (r: Result<(), VMError>)
    requires
        pipeline.wf(),
    ensures
        (final(vm)@, r) == push_effect(old(vm)@, *pipeline),
        *final(_hv) == *old(_hv),
{
    let v = vm.get_arg(pipeline.args[0].location)?;
    vm.push_stack(v, pipeline)
}

/// The handler of `pop`.
pub fn pop<H: Hypervisor>(
    vm: &mut VM,
    pipeline: &Pipeline,
    _hv: &mut H,
) -> (r: Result<(), VMError>)
    requires
        pipeline.wf(),
    ensures
        (final(vm)@, r) == pop_effect(old(vm)@, *pipeline),
        *final(_hv) == *old(_hv),
{
    if pipeline.size_override {
        let word = vm.pop16()?;
        vm.set_arg(pipeline.args[0].location, word)
    } else {
        let dword = vm.pop32()?;
        vm.set_arg(pipeline.args[0].location, dword)
    }
}

/// The handler of `xchg`.
pub fn xchg<H: Hypervisor>(
    vm: &mut VM,
    pipeline: &Pipeline,
    _hv: &mut H,
) -> (r: Result<(), VMError>)
    requires
        pipeline.wf(),
    ensures
        (final(vm)@, r) == xchg_effect(old(vm)@, *pipeline),
        *final(_hv) == *old(_hv),
{
    let first = vm.get_arg(pipeline.args[0].location)?;
    let second = vm.get_arg(pipeline.args[1].location)?;
    vm.set_arg(pipeline.args[0].location, second)?;
    vm.set_arg(pipeline.args[1].location, first)
}

/// The handler of `ret`.
pub fn ret<H: Hypervisor>(
    vm: &mut VM,
    pipeline: &Pipeline,
    _hv: &mut H,
) -> (r: Result<(), VMError>)
    requires
        pipeline.wf(),
    ensures
        (final(vm)@, r) == ret_effect(old(vm)@, *pipeline),
        *final(_hv) == *old(_hv),
{
    let release: u16 = vm.get_arg(pipeline.args[0].location)?.u16_zx()?;
    let target: u32 = if pipeline.size_override {
        vm.pop16()?.u32_zx()?
    } else {
        vm.pop32()?.u32_zx()?
    };
    jump(vm, pipeline, target);
    vm.regs[4] = vm.regs[4].wrapping_add(release as u32);
    Ok(())
}

/// The handler of `call` with a relative target.
pub fn call_rel<H: Hypervisor>(
    vm: &mut VM,
    pipeline: &Pipeline,
    _hv: &mut H,
) -> (r: Result<(), VMError>)
    requires
        pipeline.wf(),
    ensures
        (final(vm)@, r) == call_rel_effect(old(vm)@, *pipeline),
        *final(_hv) == *old(_hv),
{
    let rel = read_extended(vm, pipeline.args[0].location, ValueSize::Dword)?;
    let target: u32 = relative_target(vm.eip, pipeline.eip_size, rel);
    vm.push_stack(SizedValue::Dword(following(vm.eip, pipeline.eip_size)), pipeline)?;
    jump(vm, pipeline, target);
    Ok(())
}

/// The handler of `call` with an absolute target.
pub fn call_abs<H: Hypervisor>(
    vm: &mut VM,
    pipeline: &Pipeline,
    _hv: &mut H,
) -> (r: Result<(), VMError>)
    requires
        pipeline.wf(),
    ensures
        (final(vm)@, r) == call_abs_effect(old(vm)@, *pipeline),
        *final(_hv) == *old(_hv),
{
    let target = read_address(vm, pipeline.args[0].location)?;
    vm.push_stack(SizedValue::Dword(following(vm.eip, pipeline.eip_size)), pipeline)?;
    jump(vm, pipeline, target);
    Ok(())
}

/// The handler of `jmp` with a relative target.
pub fn jmp_rel<H: Hypervisor>(
    vm: &mut VM,
    pipeline: &Pipeline,
    _hv: &mut H,
) -> (r: Result<(), VMError>)
    requires
        pipeline.wf(),
    ensures
        (final(vm)@, r) == jmp_rel_effect(old(vm)@, *pipeline),
        *final(_hv) == *old(_hv),
{
    let rel = read_extended(vm, pipeline.args[0].location, ValueSize::Dword)?;
    jump(vm, pipeline, relative_target(vm.eip, pipeline.eip_size, rel));
    Ok(())
}

/// The handler of `jmp` with an absolute target.
pub fn jmp_abs<H: Hypervisor>(
    vm: &mut VM,
    pipeline: &Pipeline,
    _hv: &mut H,
) -> (r: Result<(), VMError>)
    requires
        pipeline.wf(),
    ensures
        (final(vm)@, r) == jmp_abs_effect(old(vm)@, *pipeline),
        *final(_hv) == *old(_hv),
{
    let target = read_address(vm, pipeline.args[0].location)?;
    jump(vm, pipeline, target);
    Ok(())
}

/// The handler of `jcxz` and `jecxz`: a relative jump where the count register is 0.
pub fn jmp_conditional_ecx_is_zero<H: Hypervisor>(
    vm: &mut VM,
    pipeline: &Pipeline,
    _hv: &mut H,
) -> (r: Result<(), VMError>)
    requires
        pipeline.wf(),
    ensures
        (final(vm)@, r) == branch_effect(
            old(vm)@,
            *pipeline,
            counter(old(vm)@, pipeline.size_override) == 0,
        ),
        *final(_hv) == *old(_hv),
{
    if read_regw(vm, Reg32::ECX, pipeline.size_override) == 0 {
        return jmp_rel(vm, pipeline, _hv);
    }
    Ok(())
}

/// The handler of the conditional jumps: a relative jump where the flags meet the
/// condition of the opcode.
pub fn jcc<H: Hypervisor>(
    vm: &mut VM,
    pipeline: &Pipeline,
    _hv: &mut H,
) -> (r: Result<(), VMError>)
    requires
        pipeline.wf(),
    ensures
        (final(vm)@, r) == branch_effect(
            old(vm)@,
            *pipeline,
            condition_holds(pipeline.opcode, old(vm)@.flags),
        ),
        *final(_hv) == *old(_hv),
{
    if cc_matches(pipeline.opcode, &vm.flags) {
        return jmp_rel(vm, pipeline, _hv);
    }
    Ok(())
}

/// The handler of `div` on bytes.
pub fn div_8bit<H: Hypervisor>(
    vm: &mut VM,
    pipeline: &Pipeline,
    _hv: &mut H,
) -> (r: Result<(), VMError>)
    requires
        pipeline.wf(),
    ensures
        (final(vm)@, r) == divide_effect(old(vm)@, *pipeline, ValueSize::Byte, false),
        *final(_hv) == *old(_hv),
{
    divide(vm, pipeline, ValueSize::Byte, false)
}

/// The handler of `div` on native words.
pub fn div_native_word<H: Hypervisor>(
    vm: &mut VM,
    pipeline: &Pipeline,
    _hv: &mut H,
) -> (r: Result<(), VMError>)
    requires
        pipeline.wf(),
    ensures
        (final(vm)@, r) == divide_effect(
            old(vm)@,
            *pipeline,
            native_size(pipeline.size_override),
            false,
        ),
        *final(_hv) == *old(_hv),
{
    if pipeline.size_override {
        div_16bit(vm, pipeline, _hv)
    } else {
        div_32bit(vm, pipeline, _hv)
    }
}

/// The handler of `div` on words.
pub fn div_16bit<H: Hypervisor>(
    vm: &mut VM,
    pipeline: &Pipeline,
    _hv: &mut H,
) -> (r: Result<(), VMError>)
    requires
        pipeline.wf(),
    ensures
        (final(vm)@, r) == divide_effect(old(vm)@, *pipeline, ValueSize::Word, false),
        *final(_hv) == *old(_hv),
{
    divide(vm, pipeline, ValueSize::Word, false)
}

/// The handler of `div` on double words.
pub fn div_32bit<H: Hypervisor>(
    vm: &mut VM,
    pipeline: &Pipeline,
    _hv: &mut H,
) -> (r: Result<(), VMError>)
    requires
        pipeline.wf(),
    ensures
        (final(vm)@, r) == divide_effect(old(vm)@, *pipeline, ValueSize::Dword, false),
        *final(_hv) == *old(_hv),
{
    divide(vm, pipeline, ValueSize::Dword, false)
}

/// The handler of `idiv` on bytes.
pub fn idiv_8bit<H: Hypervisor>(
    vm: &mut VM,
    pipeline: &Pipeline,
    _hv: &mut H,
) -> (r: Result<(), VMError>)
    requires
        pipeline.wf(),
    ensures
        (final(vm)@, r) == divide_effect(old(vm)@, *pipeline, ValueSize::Byte, true),
        *final(_hv) == *old(_hv),
{
    divide(vm, pipeline, ValueSize::Byte, true)
}

/// The handler of `idiv` on native words.
pub fn idiv_native_word<H: Hypervisor>(
    vm: &mut VM,
    pipeline: &Pipeline,
    _hv: &mut H,
) -> (r: Result<(), VMError>)
    requires
        pipeline.wf(),
    ensures
        (final(vm)@, r) == divide_effect(
            old(vm)@,
            *pipeline,
            native_size(pipeline.size_override),
            true,
        ),
        *final(_hv) == *old(_hv),
{
    if pipeline.size_override {
        idiv_16bit(vm, pipeline, _hv)
    } else {
        idiv_32bit(vm, pipeline, _hv)
    }
}

/// The handler of `idiv` on words.
pub fn idiv_16bit<H: Hypervisor>(
    vm: &mut VM,
    pipeline: &Pipeline,
    _hv: &mut H,
) -> (r: Result<(), VMError>)
    requires
        pipeline.wf(),
    ensures
        (final(vm)@, r) == divide_effect(old(vm)@, *pipeline, ValueSize::Word, true),
        *final(_hv) == *old(_hv),
{
    divide(vm, pipeline, ValueSize::Word, true)
}

/// The handler of `idiv` on double words.
pub fn idiv_32bit<H: Hypervisor>(
    vm: &mut VM,
    pipeline: &Pipeline,
    _hv: &mut H,
) -> (r: Result<(), VMError>)
    requires
        pipeline.wf(),
    ensures
        (final(vm)@, r) == divide_effect(old(vm)@, *pipeline, ValueSize::Dword, true),
        *final(_hv) == *old(_hv),
{
    divide(vm, pipeline, ValueSize::Dword, true)
}

/// The handler of `mul` on bytes.
pub fn mul_8bit<H: Hypervisor>(
    vm: &mut VM,
    pipeline: &Pipeline,
    _hv: &mut H,
) -> (r: Result<(), VMError>)
    requires
        pipeline.wf(),
    ensures
        (final(vm)@, r) == multiply_effect(old(vm)@, *pipeline, ValueSize::Byte, false),
        *final(_hv) == *old(_hv),
{
    multiply(vm, pipeline, ValueSize::Byte, false)
}

/// The handler of `mul` on native words.
pub fn mul_native_word<H: Hypervisor>(
    vm: &mut VM,
    pipeline: &Pipeline,
    _hv: &mut H,
) -> (r: Result<(), VMError>)
    requires
        pipeline.wf(),
    ensures
        (final(vm)@, r) == multiply_effect(
            old(vm)@,
            *pipeline,
            native_size(pipeline.size_override),
            false,
        ),
        *final(_hv) == *old(_hv),
{
    if pipeline.size_override {
        mul_16bit(vm, pipeline, _hv)
    } else {
        mul_32bit(vm, pipeline, _hv)
    }
}

/// The handler of `mul` on words.
pub fn mul_16bit<H: Hypervisor>(
    vm: &mut VM,
    pipeline: &Pipeline,
    _hv: &mut H,
) -> (r: Result<(), VMError>)
    requires
        pipeline.wf(),
    ensures
        (final(vm)@, r) == multiply_effect(old(vm)@, *pipeline, ValueSize::Word, false),
        *final(_hv) == *old(_hv),
{
    multiply(vm, pipeline, ValueSize::Word, false)
}

/// The handler of `mul` on double words.
pub fn mul_32bit<H: Hypervisor>(
    vm: &mut VM,
    pipeline: &Pipeline,
    _hv: &mut H,
) -> (r: Result<(), VMError>)
    requires
        pipeline.wf(),
    ensures
        (final(vm)@, r) == multiply_effect(old(vm)@, *pipeline, ValueSize::Dword, false),
        *final(_hv) == *old(_hv),
{
    multiply(vm, pipeline, ValueSize::Dword, false)
}

/// The handler of `imul` with one argument, on bytes.
pub fn imul1_8bit<H: Hypervisor>(
    vm: &mut VM,
    pipeline: &Pipeline,
    _hv: &mut H,
) -> (r: Result<(), VMError>)
    requires
        pipeline.wf(),
    ensures
        (final(vm)@, r) == multiply_effect(old(vm)@, *pipeline, ValueSize::Byte, true),
        *final(_hv) == *old(_hv),
{
    multiply(vm, pipeline, ValueSize::Byte, true)
}

/// The handler of `imul` with one argument, on native words.
pub fn imul1_native_word<H: Hypervisor>(
    vm: &mut VM,
    pipeline: &Pipeline,
    _hv: &mut H,
) -> (r: Result<(), VMError>)
    requires
        pipeline.wf(),
    ensures
        (final(vm)@, r) == multiply_effect(
            old(vm)@,
            *pipeline,
            native_size(pipeline.size_override),
            true,
        ),
        *final(_hv) == *old(_hv),
{
    if pipeline.size_override {
        imul1_16bit(vm, pipeline, _hv)
    } else {
        imul1_32bit(vm, pipeline, _hv)
    }
}

/// The handler of `imul` with one argument, on words.
pub fn imul1_16bit<H: Hypervisor>(
    vm: &mut VM,
    pipeline: &Pipeline,
    _hv: &mut H,
) -> (r: Result<(), VMError>)
    requires
        pipeline.wf(),
    ensures
        (final(vm)@, r) == multiply_effect(old(vm)@, *pipeline, ValueSize::Word, true),
        *final(_hv) == *old(_hv),
{
    multiply(vm, pipeline, ValueSize::Word, true)
}

/// The handler of `imul` with one argument, on double words.
pub fn imul1_32bit<H: Hypervisor>(
    vm: &mut VM,
    pipeline: &Pipeline,
    _hv: &mut H,
) -> (r: Result<(), VMError>)
    requires
        pipeline.wf(),
    ensures
        (final(vm)@, r) == multiply_effect(old(vm)@, *pipeline, ValueSize::Dword, true),
        *final(_hv) == *old(_hv),
{
    multiply(vm, pipeline, ValueSize::Dword, true)
}

/// The handler of `imul` with two arguments, on native words.
pub fn imul2_native_word<H: Hypervisor>(
    vm: &mut VM,
    pipeline: &Pipeline,
    _hv: &mut H,
) -> (r: Result<(), VMError>)
    requires
        pipeline.wf(),
    ensures
        (final(vm)@, r) == signed_multiply_effect(
            old(vm)@,
            *pipeline,
            native_size(pipeline.size_override),
            false,
        ),
        *final(_hv) == *old(_hv),
{
    if pipeline.size_override {
        imul2_16bit(vm, pipeline, _hv)
    } else {
        imul2_32bit(vm, pipeline, _hv)
    }
}

/// The handler of `imul` with two arguments, on words.
pub fn imul2_16bit<H: Hypervisor>(
    vm: &mut VM,
    pipeline: &Pipeline,
    _hv: &mut H,
) -> (r: Result<(), VMError>)
    requires
        pipeline.wf(),
    ensures
        (final(vm)@, r) == signed_multiply_effect(old(vm)@, *pipeline, ValueSize::Word, false),
        *final(_hv) == *old(_hv),
{
    signed_multiply(vm, pipeline, ValueSize::Word, false)
}

/// The handler of `imul` with two arguments, on double words.
pub fn imul2_32bit<H: Hypervisor>(
    vm: &mut VM,
    pipeline: &Pipeline,
    _hv: &mut H,
) -> (r: Result<(), VMError>)
    requires
        pipeline.wf(),
    ensures
        (final(vm)@, r) == signed_multiply_effect(old(vm)@, *pipeline, ValueSize::Dword, false),
        *final(_hv) == *old(_hv),
{
    signed_multiply(vm, pipeline, ValueSize::Dword, false)
}

/// The handler of `imul` with three arguments, on native words.
pub fn imul3_native_word<H: Hypervisor>(
    vm: &mut VM,
    pipeline: &Pipeline,
    _hv: &mut H,
) -> (r: Result<(), VMError>)
    requires
        pipeline.wf(),
    ensures
        (final(vm)@, r) == signed_multiply_effect(
            old(vm)@,
            *pipeline,
            native_size(pipeline.size_override),
            true,
        ),
        *final(_hv) == *old(_hv),
{
    if pipeline.size_override {
        imul3_16bit(vm, pipeline, _hv)
    } else {
        imul3_32bit(vm, pipeline, _hv)
    }
}

/// The handler of `imul` with three arguments, on words.
pub fn imul3_16bit<H: Hypervisor>(
    vm: &mut VM,
    pipeline: &Pipeline,
    _hv: &mut H,
) -> (r: Result<(), VMError>)
    requires
        pipeline.wf(),
    ensures
        (final(vm)@, r) == signed_multiply_effect(old(vm)@, *pipeline, ValueSize::Word, true),
        *final(_hv) == *old(_hv),
{
    signed_multiply(vm, pipeline, ValueSize::Word, true)
}

/// The handler of `imul` with three arguments, on double words.
pub fn imul3_32bit<H: Hypervisor>(
    vm: &mut VM,
    pipeline: &Pipeline,
    _hv: &mut H,
) -> (r: Result<(), VMError>)
    requires
        pipeline.wf(),
    ensures
        (final(vm)@, r) == signed_multiply_effect(old(vm)@, *pipeline, ValueSize::Dword, true),
        *final(_hv) == *old(_hv),
{
    signed_multiply(vm, pipeline, ValueSize::Dword, true)
}

/// The handler of `shl` on bytes.
pub fn shl_8bit<H: Hypervisor>(
    vm: &mut VM,
    pipeline: &Pipeline,
    _hv: &mut H,
) -> (r: Result<(), VMError>)
    requires
        pipeline.wf(),
    ensures
        (final(vm)@, r) == shift_effect(old(vm)@, *pipeline, true, ValueSize::Byte),
        *final(_hv) == *old(_hv),
{
    shift(vm, pipeline, true, ValueSize::Byte)
}

/// The handler of `shl` on native words.
pub fn shl_native_word<H: Hypervisor>(
    vm: &mut VM,
    pipeline: &Pipeline,
    _hv: &mut H,
) -> (r: Result<(), VMError>)
    requires
        pipeline.wf(),
    ensures
        (final(vm)@, r) == shift_effect(
            old(vm)@,
            *pipeline,
            true,
            native_size(pipeline.size_override),
        ),
        *final(_hv) == *old(_hv),
{
    if pipeline.size_override {
        shl_16bit(vm, pipeline, _hv)
    } else {
        shl_32bit(vm, pipeline, _hv)
    }
}

/// The handler of `shl` on words.
pub fn shl_16bit<H: Hypervisor>(
    vm: &mut VM,
    pipeline: &Pipeline,
    _hv: &mut H,
) -> (r: Result<(), VMError>)
    requires
        pipeline.wf(),
    ensures
        (final(vm)@, r) == shift_effect(old(vm)@, *pipeline, true, ValueSize::Word),
        *final(_hv) == *old(_hv),
{
    shift(vm, pipeline, true, ValueSize::Word)
}

/// The handler of `shl` on double words.
pub fn shl_32bit<H: Hypervisor>(
    vm: &mut VM,
    pipeline: &Pipeline,
    _hv: &mut H,
) -> (r: Result<(), VMError>)
    requires
        pipeline.wf(),
    ensures
        (final(vm)@, r) == shift_effect(old(vm)@, *pipeline, true, ValueSize::Dword),
        *final(_hv) == *old(_hv),
{
    shift(vm, pipeline, true, ValueSize::Dword)
}

/// The handler of `shr` on bytes.
pub fn shr_8bit<H: Hypervisor>(
    vm: &mut VM,
    pipeline: &Pipeline,
    _hv: &mut H,
) -> (r: Result<(), VMError>)
    requires
        pipeline.wf(),
    ensures
        (final(vm)@, r) == shift_effect(old(vm)@, *pipeline, false, ValueSize::Byte),
        *final(_hv) == *old(_hv),
{
    shift(vm, pipeline, false, ValueSize::Byte)
}

/// The handler of `shr` on native words.
pub fn shr_native_word<H: Hypervisor>(
    vm: &mut VM,
    pipeline: &Pipeline,
    _hv: &mut H,
) -> (r: Result<(), VMError>)
    requires
        pipeline.wf(),
    ensures
        (final(vm)@, r) == shift_effect(
            old(vm)@,
            *pipeline,
            false,
            native_size(pipeline.size_override),
        ),
        *final(_hv) == *old(_hv),
{
    if pipeline.size_override {
        shr_16bit(vm, pipeline, _hv)
    } else {
        shr_32bit(vm, pipeline, _hv)
    }
}

/// The handler of `shr` on words.
pub fn shr_16bit<H: Hypervisor>(
    vm: &mut VM,
    pipeline: &Pipeline,
    _hv: &mut H,
) -> (r: Result<(), VMError>)
    requires
        pipeline.wf(),
    ensures
        (final(vm)@, r) == shift_effect(old(vm)@, *pipeline, false, ValueSize::Word),
        *final(_hv) == *old(_hv),
{
    shift(vm, pipeline, false, ValueSize::Word)
}

/// The handler of `shr` on double words.
pub fn shr_32bit<H: Hypervisor>(
    vm: &mut VM,
    pipeline: &Pipeline,
    _hv: &mut H,
) -> (r: Result<(), VMError>)
    requires
        pipeline.wf(),
    ensures
        (final(vm)@, r) == shift_effect(old(vm)@, *pipeline, false, ValueSize::Dword),
        *final(_hv) == *old(_hv),
{
    shift(vm, pipeline, false, ValueSize::Dword)
}

/// The handler of `add` on bytes.
pub fn add_8bit<H: Hypervisor>(
    vm: &mut VM,
    pipeline: &Pipeline,
    _hv: &mut H,
) -> (r: Result<(), VMError>)
    requires
        pipeline.wf(),
    ensures
        (final(vm)@, r) == arithmetic_effect(
            old(vm)@,
            *pipeline,
            Arithmetic::Add,
            ValueSize::Byte,
            true,
        ),
        *final(_hv) == *old(_hv),
{
    arithmetic(vm, pipeline, Arithmetic::Add, ValueSize::Byte, true)
}

/// The handler of `add` on native words.
pub fn add_native_word<H: Hypervisor>(
    vm: &mut VM,
    pipeline: &Pipeline,
    _hv: &mut H,
) -> (r: Result<(), VMError>)
    requires
        pipeline.wf(),
    ensures
        (final(vm)@, r) == arithmetic_effect(
            old(vm)@,
            *pipeline,
            Arithmetic::Add,
            native_size(pipeline.size_override),
            true,
        ),
        *final(_hv) == *old(_hv),
{
    if pipeline.size_override {
        add_16bit(vm, pipeline, _hv)
    } else {
        add_32bit(vm, pipeline, _hv)
    }
}

/// The handler of `add` on words.
pub fn add_16bit<H: Hypervisor>(
    vm: &mut VM,
    pipeline: &Pipeline,
    _hv: &mut H,
) -> (r: Result<(), VMError>)
    requires
        pipeline.wf(),
    ensures
        (final(vm)@, r) == arithmetic_effect(
            old(vm)@,
            *pipeline,
            Arithmetic::Add,
            ValueSize::Word,
            true,
        ),
        *final(_hv) == *old(_hv),
{
    arithmetic(vm, pipeline, Arithmetic::Add, ValueSize::Word, true)
}

/// The handler of `add` on double words.
pub fn add_32bit<H: Hypervisor>(
    vm: &mut VM,
    pipeline: &Pipeline,
    _hv: &mut H,
) -> (r: Result<(), VMError>)
    requires
        pipeline.wf(),
    ensures
        (final(vm)@, r) == arithmetic_effect(
            old(vm)@,
            *pipeline,
            Arithmetic::Add,
            ValueSize::Dword,
            true,
        ),
        *final(_hv) == *old(_hv),
{
    arithmetic(vm, pipeline, Arithmetic::Add, ValueSize::Dword, true)
}

/// The handler of `hlt`.
pub fn hlt<H: Hypervisor>(
    vm: &mut VM,
    pipeline: &Pipeline,
    _hv: &mut H,
) -> (r: Result<(), VMError>)
    requires
        pipeline.wf(),
    ensures
        (final(vm)@, r) == hlt_effect(old(vm)@),
        *final(_hv) == *old(_hv),
{
    Err(VMError::InternalVMStop)
}

/// The handler of `adc` on bytes.
pub fn adc_8bit<H: Hypervisor>(
    vm: &mut VM,
    pipeline: &Pipeline,
    _hv: &mut H,
) -> (r: Result<(), VMError>)
    requires
        pipeline.wf(),
    ensures
        (final(vm)@, r) == arithmetic_effect(
            old(vm)@,
            *pipeline,
            Arithmetic::AddWithCarry,
            ValueSize::Byte,
            true,
        ),
        *final(_hv) == *old(_hv),
{
    arithmetic(vm, pipeline, Arithmetic::AddWithCarry, ValueSize::Byte, true)
}

/// The handler of `adc` on native words.
pub fn adc_native_word<H: Hypervisor>(
    vm: &mut VM,
    pipeline: &Pipeline,
    _hv: &mut H,
) -> (r: Result<(), VMError>)
    requires
        pipeline.wf(),
    ensures
        (final(vm)@, r) == arithmetic_effect(
            old(vm)@,
            *pipeline,
            Arithmetic::AddWithCarry,
            native_size(pipeline.size_override),
            true,
        ),
        *final(_hv) == *old(_hv),
{
    if pipeline.size_override {
        adc_16bit(vm, pipeline, _hv)
    } else {
        adc_32bit(vm, pipeline, _hv)
    }
}

/// The handler of `adc` on words.
pub fn adc_16bit<H: Hypervisor>(
    vm: &mut VM,
    pipeline: &Pipeline,
    _hv: &mut H,
) -> (r: Result<(), VMError>)
    requires
        pipeline.wf(),
    ensures
        (final(vm)@, r) == arithmetic_effect(
            old(vm)@,
            *pipeline,
            Arithmetic::AddWithCarry,
            ValueSize::Word,
            true,
        ),
        *final(_hv) == *old(_hv),
{
    arithmetic(vm, pipeline, Arithmetic::AddWithCarry, ValueSize::Word, true)
}

/// The handler of `adc` on double words.
pub fn adc_32bit<H: Hypervisor>(
    vm: &mut VM,
    pipeline: &Pipeline,
    _hv: &mut H,
) -> (r: Result<(), VMError>)
    requires
        pipeline.wf(),
    ensures
        (final(vm)@, r) == arithmetic_effect(
            old(vm)@,
            *pipeline,
            Arithmetic::AddWithCarry,
            ValueSize::Dword,
            true,
        ),
        *final(_hv) == *old(_hv),
{
    arithmetic(vm, pipeline, Arithmetic::AddWithCarry, ValueSize::Dword, true)
}

/// The handler of `inc` on bytes.
pub fn increment_8bit<H: Hypervisor>(
    vm: &mut VM,
    pipeline: &Pipeline,
    _hv: &mut H,
) -> (r: Result<(), VMError>)
    requires
        pipeline.wf(),
    ensures
        (final(vm)@, r) == unary_effect(old(vm)@, *pipeline, Unary::Increment, ValueSize::Byte),
        *final(_hv) == *old(_hv),
{
    unary(vm, pipeline, Unary::Increment, ValueSize::Byte)
}

/// The handler of `inc` on native words.
pub fn increment_native_word<H: Hypervisor>(
    vm: &mut VM,
    pipeline: &Pipeline,
    _hv: &mut H,
) -> (r: Result<(), VMError>)
    requires
        pipeline.wf(),
    ensures
        (final(vm)@, r) == unary_effect(
            old(vm)@,
            *pipeline,
            Unary::Increment,
            native_size(pipeline.size_override),
        ),
        *final(_hv) == *old(_hv),
{
    if pipeline.size_override {
        increment_16bit(vm, pipeline, _hv)
    } else {
        increment_32bit(vm, pipeline, _hv)
    }
}

/// The handler of `inc` on words.
pub fn increment_16bit<H: Hypervisor>(
    vm: &mut VM,
    pipeline: &Pipeline,
    _hv: &mut H,
) -> (r: Result<(), VMError>)
    requires
        pipeline.wf(),
    ensures
        (final(vm)@, r) == unary_effect(old(vm)@, *pipeline, Unary::Increment, ValueSize::Word),
        *final(_hv) == *old(_hv),
{
    unary(vm, pipeline, Unary::Increment, ValueSize::Word)
}

/// The handler of `inc` on double words.
pub fn increment_32bit<H: Hypervisor>(
    vm: &mut VM,
    pipeline: &Pipeline,
    _hv: &mut H,
) -> (r: Result<(), VMError>)
    requires
        pipeline.wf(),
    ensures
        (final(vm)@, r) == unary_effect(old(vm)@, *pipeline, Unary::Increment, ValueSize::Dword),
        *final(_hv) == *old(_hv),
{
    unary(vm, pipeline, Unary::Increment, ValueSize::Dword)
}

/// The handler of `sub` on bytes.
pub fn sub_8bit<H: Hypervisor>(
    vm: &mut VM,
    pipeline: &Pipeline,
    _hv: &mut H,
) -> (r: Result<(), VMError>)
    requires
        pipeline.wf(),
    ensures
        (final(vm)@, r) == arithmetic_effect(
            old(vm)@,
            *pipeline,
            Arithmetic::Subtract,
            ValueSize::Byte,
            true,
        ),
        *final(_hv) == *old(_hv),
{
    arithmetic(vm, pipeline, Arithmetic::Subtract, ValueSize::Byte, true)
}

/// The handler of `sub` on native words.
pub fn sub_native_word<H: Hypervisor>(
    vm: &mut VM,
    pipeline: &Pipeline,
    _hv: &mut H,
) -> (r: Result<(), VMError>)
    requires
        pipeline.wf(),
    ensures
        (final(vm)@, r) == arithmetic_effect(
            old(vm)@,
            *pipeline,
            Arithmetic::Subtract,
            native_size(pipeline.size_override),
            true,
        ),
        *final(_hv) == *old(_hv),
{
    if pipeline.size_override {
        sub_16bit(vm, pipeline, _hv)
    } else {
        sub_32bit(vm, pipeline, _hv)
    }
}

/// The handler of `sub` on words.
pub fn sub_16bit<H: Hypervisor>(
    vm: &mut VM,
    pipeline: &Pipeline,
    _hv: &mut H,
) -> (r: Result<(), VMError>)
    requires
        pipeline.wf(),
    ensures
        (final(vm)@, r) == arithmetic_effect(
            old(vm)@,
            *pipeline,
            Arithmetic::Subtract,
            ValueSize::Word,
            true,
        ),
        *final(_hv) == *old(_hv),
{
    arithmetic(vm, pipeline, Arithmetic::Subtract, ValueSize::Word, true)
}

/// The handler of `sub` on double words.
pub fn sub_32bit<H: Hypervisor>(
    vm: &mut VM,
    pipeline: &Pipeline,
    _hv: &mut H,
) -> (r: Result<(), VMError>)
    requires
        pipeline.wf(),
    ensures
        (final(vm)@, r) == arithmetic_effect(
            old(vm)@,
            *pipeline,
            Arithmetic::Subtract,
            ValueSize::Dword,
            true,
        ),
        *final(_hv) == *old(_hv),
{
    arithmetic(vm, pipeline, Arithmetic::Subtract, ValueSize::Dword, true)
}

/// The handler of `sbb` on bytes.
pub fn sbb_8bit<H: Hypervisor>(
    vm: &mut VM,
    pipeline: &Pipeline,
    _hv: &mut H,
) -> (r: Result<(), VMError>)
    requires
        pipeline.wf(),
    ensures
        (final(vm)@, r) == arithmetic_effect(
            old(vm)@,
            *pipeline,
            Arithmetic::SubtractWithBorrow,
            ValueSize::Byte,
            true,
        ),
        *final(_hv) == *old(_hv),
{
    arithmetic(vm, pipeline, Arithmetic::SubtractWithBorrow, ValueSize::Byte, true)
}

/// The handler of `sbb` on native words.
pub fn sbb_native_word<H: Hypervisor>(
    vm: &mut VM,
    pipeline: &Pipeline,
    _hv: &mut H,
) -> (r: Result<(), VMError>)
    requires
        pipeline.wf(),
    ensures
        (final(vm)@, r) == arithmetic_effect(
            old(vm)@,
            *pipeline,
            Arithmetic::SubtractWithBorrow,
            native_size(pipeline.size_override),
            true,
        ),
        *final(_hv) == *old(_hv),
{
    if pipeline.size_override {
        sbb_16bit(vm, pipeline, _hv)
    } else {
        sbb_32bit(vm, pipeline, _hv)
    }
}

/// The handler of `sbb` on words.
pub fn sbb_16bit<H: Hypervisor>(
    vm: &mut VM,
    pipeline: &Pipeline,
    _hv: &mut H,
) -> (r: Result<(), VMError>)
    requires
        pipeline.wf(),
    ensures
        (final(vm)@, r) == arithmetic_effect(
            old(vm)@,
            *pipeline,
            Arithmetic::SubtractWithBorrow,
            ValueSize::Word,
            true,
        ),
        *final(_hv) == *old(_hv),
{
    arithmetic(vm, pipeline, Arithmetic::SubtractWithBorrow, ValueSize::Word, true)
}

/// The handler of `sbb` on double words.
pub fn sbb_32bit<H: Hypervisor>(
    vm: &mut VM,
    pipeline: &Pipeline,
    _hv: &mut H,
) -> (r: Result<(), VMError>)
    requires
        pipeline.wf(),
    ensures
        (final(vm)@, r) == arithmetic_effect(
            old(vm)@,
            *pipeline,
            Arithmetic::SubtractWithBorrow,
            ValueSize::Dword,
            true,
        ),
        *final(_hv) == *old(_hv),
{
    arithmetic(vm, pipeline, Arithmetic::SubtractWithBorrow, ValueSize::Dword, true)
}

/// The handler of `dec` on bytes.
pub fn decrement_8bit<H: Hypervisor>(
    vm: &mut VM,
    pipeline: &Pipeline,
    _hv: &mut H,
) -> (r: Result<(), VMError>)
    requires
        pipeline.wf(),
    ensures
        (final(vm)@, r) == unary_effect(old(vm)@, *pipeline, Unary::Decrement, ValueSize::Byte),
        *final(_hv) == *old(_hv),
{
    unary(vm, pipeline, Unary::Decrement, ValueSize::Byte)
}

/// The handler of `dec` on native words.
pub fn decrement_native_word<H: Hypervisor>(
    vm: &mut VM,
    pipeline: &Pipeline,
    _hv: &mut H,
) -> (r: Result<(), VMError>)
    requires
        pipeline.wf(),
    ensures
        (final(vm)@, r) == unary_effect(
            old(vm)@,
            *pipeline,
            Unary::Decrement,
            native_size(pipeline.size_override),
        ),
        *final(_hv) == *old(_hv),
{
    if pipeline.size_override {
        decrement_16bit(vm, pipeline, _hv)
    } else {
        decrement_32bit(vm, pipeline, _hv)
    }
}

/// The handler of `dec` on words.
pub fn decrement_16bit<H: Hypervisor>(
    vm: &mut VM,
    pipeline: &Pipeline,
    _hv: &mut H,
) -> (r: Result<(), VMError>)
    requires
        pipeline.wf(),
    ensures
        (final(vm)@, r) == unary_effect(old(vm)@, *pipeline, Unary::Decrement, ValueSize::Word),
        *final(_hv) == *old(_hv),
{
    unary(vm, pipeline, Unary::Decrement, ValueSize::Word)
}

/// The handler of `dec` on double words.
pub fn decrement_32bit<H: Hypervisor>(
    vm: &mut VM,
    pipeline: &Pipeline,
    _hv: &mut H,
) -> (r: Result<(), VMError>)
    requires
        pipeline.wf(),
    ensures
        (final(vm)@, r) == unary_effect(old(vm)@, *pipeline, Unary::Decrement, ValueSize::Dword),
        *final(_hv) == *old(_hv),
{
    unary(vm, pipeline, Unary::Decrement, ValueSize::Dword)
}

/// The handler of `cmp` on bytes.
pub fn cmp_8bit<H: Hypervisor>(
    vm: &mut VM,
    pipeline: &Pipeline,
    _hv: &mut H,
) -> (r: Result<(), VMError>)
    requires
        pipeline.wf(),
    ensures
        (final(vm)@, r) == arithmetic_effect(
            old(vm)@,
            *pipeline,
            Arithmetic::Subtract,
            ValueSize::Byte,
            false,
        ),
        *final(_hv) == *old(_hv),
{
    arithmetic(vm, pipeline, Arithmetic::Subtract, ValueSize::Byte, false)
}

/// The handler of `cmp` on native words.
pub fn cmp_native_word<H: Hypervisor>(
    vm: &mut VM,
    pipeline: &Pipeline,
    _hv: &mut H,
) -> (r: Result<(), VMError>)
    requires
        pipeline.wf(),
    ensures
        (final(vm)@, r) == arithmetic_effect(
            old(vm)@,
            *pipeline,
            Arithmetic::Subtract,
            native_size(pipeline.size_override),
            false,
        ),
        *final(_hv) == *old(_hv),
{
    if pipeline.size_override {
        cmp_16bit(vm, pipeline, _hv)
    } else {
        cmp_32bit(vm, pipeline, _hv)
    }
}

/// The handler of `cmp` on words.
pub fn cmp_16bit<H: Hypervisor>(
    vm: &mut VM,
    pipeline: &Pipeline,
    _hv: &mut H,
) -> (r: Result<(), VMError>)
    requires
        pipeline.wf(),
    ensures
        (final(vm)@, r) == arithmetic_effect(
            old(vm)@,
            *pipeline,
            Arithmetic::Subtract,
            ValueSize::Word,
            false,
        ),
        *final(_hv) == *old(_hv),
{
    arithmetic(vm, pipeline, Arithmetic::Subtract, ValueSize::Word, false)
}

/// The handler of `cmp` on double words.
pub fn cmp_32bit<H: Hypervisor>(
    vm: &mut VM,
    pipeline: &Pipeline,
    _hv: &mut H,
) -> (r: Result<(), VMError>)
    requires
        pipeline.wf(),
    ensures
        (final(vm)@, r) == arithmetic_effect(
            old(vm)@,
            *pipeline,
            Arithmetic::Subtract,
            ValueSize::Dword,
            false,
        ),
        *final(_hv) == *old(_hv),
{
    arithmetic(vm, pipeline, Arithmetic::Subtract, ValueSize::Dword, false)
}

/// The handler of `test` on bytes.
pub fn test_8bit<H: Hypervisor>(
    vm: &mut VM,
    pipeline: &Pipeline,
    _hv: &mut H,
) -> (r: Result<(), VMError>)
    requires
        pipeline.wf(),
    ensures
        (final(vm)@, r) == arithmetic_effect(
            old(vm)@,
            *pipeline,
            Arithmetic::And,
            ValueSize::Byte,
            false,
        ),
        *final(_hv) == *old(_hv),
{
    arithmetic(vm, pipeline, Arithmetic::And, ValueSize::Byte, false)
}

/// The handler of `test` on native words.
pub fn test_native_word<H: Hypervisor>(
    vm: &mut VM,
    pipeline: &Pipeline,
    _hv: &mut H,
) -> (r: Result<(), VMError>)
    requires
        pipeline.wf(),
    ensures
        (final(vm)@, r) == arithmetic_effect(
            old(vm)@,
            *pipeline,
            Arithmetic::And,
            native_size(pipeline.size_override),
            false,
        ),
        *final(_hv) == *old(_hv),
{
    if pipeline.size_override {
        test_16bit(vm, pipeline, _hv)
    } else {
        test_32bit(vm, pipeline, _hv)
    }
}

/// The handler of `test` on words.
pub fn test_16bit<H: Hypervisor>(
    vm: &mut VM,
    pipeline: &Pipeline,
    _hv: &mut H,
) -> (r: Result<(), VMError>)
    requires
        pipeline.wf(),
    ensures
        (final(vm)@, r) == arithmetic_effect(
            old(vm)@,
            *pipeline,
            Arithmetic::And,
            ValueSize::Word,
            false,
        ),
        *final(_hv) == *old(_hv),
{
    arithmetic(vm, pipeline, Arithmetic::And, ValueSize::Word, false)
}

/// The handler of `test` on double words.
pub fn test_32bit<H: Hypervisor>(
    vm: &mut VM,
    pipeline: &Pipeline,
    _hv: &mut H,
) -> (r: Result<(), VMError>)
    requires
        pipeline.wf(),
    ensures
        (final(vm)@, r) == arithmetic_effect(
            old(vm)@,
            *pipeline,
            Arithmetic::And,
            ValueSize::Dword,
            false,
        ),
        *final(_hv) == *old(_hv),
{
    arithmetic(vm, pipeline, Arithmetic::And, ValueSize::Dword, false)
}

/// The handler of `and` on bytes.
pub fn and_8bit<H: Hypervisor>(
    vm: &mut VM,
    pipeline: &Pipeline,
    _hv: &mut H,
) -> (r: Result<(), VMError>)
    requires
        pipeline.wf(),
    ensures
        (final(vm)@, r) == arithmetic_effect(
            old(vm)@,
            *pipeline,
            Arithmetic::And,
            ValueSize::Byte,
            true,
        ),
        *final(_hv) == *old(_hv),
{
    arithmetic(vm, pipeline, Arithmetic::And, ValueSize::Byte, true)
}

/// The handler of `and` on native words.
pub fn and_native_word<H: Hypervisor>(
    vm: &mut VM,
    pipeline: &Pipeline,
    _hv: &mut H,
) -> (r: Result<(), VMError>)
    requires
        pipeline.wf(),
    ensures
        (final(vm)@, r) == arithmetic_effect(
            old(vm)@,
            *pipeline,
            Arithmetic::And,
            native_size(pipeline.size_override),
            true,
        ),
        *final(_hv) == *old(_hv),
{
    if pipeline.size_override {
        and_16bit(vm, pipeline, _hv)
    } else {
        and_32bit(vm, pipeline, _hv)
    }
}

/// The handler of `and` on words.
pub fn and_16bit<H: Hypervisor>(
    vm: &mut VM,
    pipeline: &Pipeline,
    _hv: &mut H,
) -> (r: Result<(), VMError>)
    requires
        pipeline.wf(),
    ensures
        (final(vm)@, r) == arithmetic_effect(
            old(vm)@,
            *pipeline,
            Arithmetic::And,
            ValueSize::Word,
            true,
        ),
        *final(_hv) == *old(_hv),
{
    arithmetic(vm, pipeline, Arithmetic::And, ValueSize::Word, true)
}

/// The handler of `and` on double words.
pub fn and_32bit<H: Hypervisor>(
    vm: &mut VM,
    pipeline: &Pipeline,
    _hv: &mut H,
) -> (r: Result<(), VMError>)
    requires
        pipeline.wf(),
    ensures
        (final(vm)@, r) == arithmetic_effect(
            old(vm)@,
            *pipeline,
            Arithmetic::And,
            ValueSize::Dword,
            true,
        ),
        *final(_hv) == *old(_hv),
{
    arithmetic(vm, pipeline, Arithmetic::And, ValueSize::Dword, true)
}

/// The handler of `or` on bytes.
pub fn or_8bit<H: Hypervisor>(
    vm: &mut VM,
    pipeline: &Pipeline,
    _hv: &mut H,
) -> (r: Result<(), VMError>)
    requires
        pipeline.wf(),
    ensures
        (final(vm)@, r) == arithmetic_effect(
            old(vm)@,
            *pipeline,
            Arithmetic::Or,
            ValueSize::Byte,
            true,
        ),
        *final(_hv) == *old(_hv),
{
    arithmetic(vm, pipeline, Arithmetic::Or, ValueSize::Byte, true)
}

/// The handler of `or` on native words.
pub fn or_native_word<H: Hypervisor>(
    vm: &mut VM,
    pipeline: &Pipeline,
    _hv: &mut H,
) -> (r: Result<(), VMError>)
    requires
        pipeline.wf(),
    ensures
        (final(vm)@, r) == arithmetic_effect(
            old(vm)@,
            *pipeline,
            Arithmetic::Or,
            native_size(pipeline.size_override),
            true,
        ),
        *final(_hv) == *old(_hv),
{
    if pipeline.size_override {
        or_16bit(vm, pipeline, _hv)
    } else {
        or_32bit(vm, pipeline, _hv)
    }
}

/// The handler of `or` on words.
pub fn or_16bit<H: Hypervisor>(
    vm: &mut VM,
    pipeline: &Pipeline,
    _hv: &mut H,
) -> (r: Result<(), VMError>)
    requires
        pipeline.wf(),
    ensures
        (final(vm)@, r) == arithmetic_effect(
            old(vm)@,
            *pipeline,
            Arithmetic::Or,
            ValueSize::Word,
            true,
        ),
        *final(_hv) == *old(_hv),
{
    arithmetic(vm, pipeline, Arithmetic::Or, ValueSize::Word, true)
}

/// The handler of `or` on double words.
pub fn or_32bit<H: Hypervisor>(
    vm: &mut VM,
    pipeline: &Pipeline,
    _hv: &mut H,
) -> (r: Result<(), VMError>)
    requires
        pipeline.wf(),
    ensures
        (final(vm)@, r) == arithmetic_effect(
            old(vm)@,
            *pipeline,
            Arithmetic::Or,
            ValueSize::Dword,
            true,
        ),
        *final(_hv) == *old(_hv),
{
    arithmetic(vm, pipeline, Arithmetic::Or, ValueSize::Dword, true)
}

/// The handler of `xor` on bytes.
pub fn xor_8bit<H: Hypervisor>(
    vm: &mut VM,
    pipeline: &Pipeline,
    _hv: &mut H,
) -> (r: Result<(), VMError>)
    requires
        pipeline.wf(),
    ensures
        (final(vm)@, r) == arithmetic_effect(
            old(vm)@,
            *pipeline,
            Arithmetic::Xor,
            ValueSize::Byte,
            true,
        ),
        *final(_hv) == *old(_hv),
{
    arithmetic(vm, pipeline, Arithmetic::Xor, ValueSize::Byte, true)
}

/// The handler of `xor` on native words.
pub fn xor_native_word<H: Hypervisor>(
    vm: &mut VM,
    pipeline: &Pipeline,
    _hv: &mut H,
) -> (r: Result<(), VMError>)
    requires
        pipeline.wf(),
    ensures
        (final(vm)@, r) == arithmetic_effect(
            old(vm)@,
            *pipeline,
            Arithmetic::Xor,
            native_size(pipeline.size_override),
            true,
        ),
        *final(_hv) == *old(_hv),
{
    if pipeline.size_override {
        xor_16bit(vm, pipeline, _hv)
    } else {
        xor_32bit(vm, pipeline, _hv)
    }
}

/// The handler of `xor` on words.
pub fn xor_16bit<H: Hypervisor>(
    vm: &mut VM,
    pipeline: &Pipeline,
    _hv: &mut H,
) -> (r: Result<(), VMError>)
    requires
        pipeline.wf(),
    ensures
        (final(vm)@, r) == arithmetic_effect(
            old(vm)@,
            *pipeline,
            Arithmetic::Xor,
            ValueSize::Word,
            true,
        ),
        *final(_hv) == *old(_hv),
{
    arithmetic(vm, pipeline, Arithmetic::Xor, ValueSize::Word, true)
}

/// The handler of `xor` on double words.
pub fn xor_32bit<H: Hypervisor>(
    vm: &mut VM,
    pipeline: &Pipeline,
    _hv: &mut H,
) -> (r: Result<(), VMError>)
    requires
        pipeline.wf(),
    ensures
        (final(vm)@, r) == arithmetic_effect(
            old(vm)@,
            *pipeline,
            Arithmetic::Xor,
            ValueSize::Dword,
            true,
        ),
        *final(_hv) == *old(_hv),
{
    arithmetic(vm, pipeline, Arithmetic::Xor, ValueSize::Dword, true)
}

/// The handler of `not` on bytes.
pub fn not_8bit<H: Hypervisor>(
    vm: &mut VM,
    pipeline: &Pipeline,
    _hv: &mut H,
) -> (r: Result<(), VMError>)
    requires
        pipeline.wf(),
    ensures
        (final(vm)@, r) == unary_effect(old(vm)@, *pipeline, Unary::Not, ValueSize::Byte),
        *final(_hv) == *old(_hv),
{
    unary(vm, pipeline, Unary::Not, ValueSize::Byte)
}

/// The handler of `not` on native words.
pub fn not_native_word<H: Hypervisor>(
    vm: &mut VM,
    pipeline: &Pipeline,
    _hv: &mut H,
) -> (r: Result<(), VMError>)
    requires
        pipeline.wf(),
    ensures
        (final(vm)@, r) == unary_effect(
            old(vm)@,
            *pipeline,
            Unary::Not,
            native_size(pipeline.size_override),
        ),
        *final(_hv) == *old(_hv),
{
    if pipeline.size_override {
        not_16bit(vm, pipeline, _hv)
    } else {
        not_32bit(vm, pipeline, _hv)
    }
}

/// The handler of `not` on words.
pub fn not_16bit<H: Hypervisor>(
    vm: &mut VM,
    pipeline: &Pipeline,
    _hv: &mut H,
) -> (r: Result<(), VMError>)
    requires
        pipeline.wf(),
    ensures
        (final(vm)@, r) == unary_effect(old(vm)@, *pipeline, Unary::Not, ValueSize::Word),
        *final(_hv) == *old(_hv),
{
    unary(vm, pipeline, Unary::Not, ValueSize::Word)
}

/// The handler of `not` on double words.
pub fn not_32bit<H: Hypervisor>(
    vm: &mut VM,
    pipeline: &Pipeline,
    _hv: &mut H,
) -> (r: Result<(), VMError>)
    requires
        pipeline.wf(),
    ensures
        (final(vm)@, r) == unary_effect(old(vm)@, *pipeline, Unary::Not, ValueSize::Dword),
        *final(_hv) == *old(_hv),
{
    unary(vm, pipeline, Unary::Not, ValueSize::Dword)
}

/// The handler of `neg` on bytes.
pub fn neg_8bit<H: Hypervisor>(
    vm: &mut VM,
    pipeline: &Pipeline,
    _hv: &mut H,
) -> (r: Result<(), VMError>)
    requires
        pipeline.wf(),
    ensures
        (final(vm)@, r) == unary_effect(old(vm)@, *pipeline, Unary::Negate, ValueSize::Byte),
        *final(_hv) == *old(_hv),
{
    unary(vm, pipeline, Unary::Negate, ValueSize::Byte)
}

/// The handler of `neg` on native words.
pub fn neg_native_word<H: Hypervisor>(
    vm: &mut VM,
    pipeline: &Pipeline,
    _hv: &mut H,
) -> (r: Result<(), VMError>)
    requires
        pipeline.wf(),
    ensures
        (final(vm)@, r) == unary_effect(
            old(vm)@,
            *pipeline,
            Unary::Negate,
            native_size(pipeline.size_override),
        ),
        *final(_hv) == *old(_hv),
{
    if pipeline.size_override {
        neg_16bit(vm, pipeline, _hv)
    } else {
        neg_32bit(vm, pipeline, _hv)
    }
}

/// The handler of `neg` on words.
pub fn neg_16bit<H: Hypervisor>(
    vm: &mut VM,
    pipeline: &Pipeline,
    _hv: &mut H,
) -> (r: Result<(), VMError>)
    requires
        pipeline.wf(),
    ensures
        (final(vm)@, r) == unary_effect(old(vm)@, *pipeline, Unary::Negate, ValueSize::Word),
        *final(_hv) == *old(_hv),
{
    unary(vm, pipeline, Unary::Negate, ValueSize::Word)
}

/// The handler of `neg` on double words.
pub fn neg_32bit<H: Hypervisor>(
    vm: &mut VM,
    pipeline: &Pipeline,
    _hv: &mut H,
) -> (r: Result<(), VMError>)
    requires
        pipeline.wf(),
    ensures
        (final(vm)@, r) == unary_effect(old(vm)@, *pipeline, Unary::Negate, ValueSize::Dword),
        *final(_hv) == *old(_hv),
{
    unary(vm, pipeline, Unary::Negate, ValueSize::Dword)
}

/// The handler of `setcc`.
pub fn setcc_8bit<H: Hypervisor>(
    vm: &mut VM,
    pipeline: &Pipeline,
    _hv: &mut H,
) -> (r: Result<(), VMError>)
    requires
        pipeline.wf(),
    ensures
        (final(vm)@, r) == setcc_effect(old(vm)@, *pipeline),
        *final(_hv) == *old(_hv),
{
    if cc_matches(pipeline.opcode, &vm.flags) {
        vm.set_arg(pipeline.args[0].location, SizedValue::Byte(1))
    } else {
        vm.set_arg(pipeline.args[0].location, SizedValue::Byte(0))
    }
}

/// The handler of `cmovcc`.
pub fn cmovcc_native<H: Hypervisor>(
    vm: &mut VM,
    pipeline: &Pipeline,
    _hv: &mut H,
) -> (r: Result<(), VMError>)
    requires
        pipeline.wf(),
    ensures
        (final(vm)@, r) == cmovcc_effect(old(vm)@, *pipeline),
        *final(_hv) == *old(_hv),
{
    if cc_matches(pipeline.opcode, &vm.flags) {
        return mov(vm, pipeline, _hv);
    }
    Ok(())
}

/// The handler of `lea`.
pub fn lea<H: Hypervisor>(
    vm: &mut VM,
    pipeline: &Pipeline,
    _hv: &mut H,
) -> (r: Result<(), VMError>)
    requires
        pipeline.wf(),
    ensures
        (final(vm)@, r) == lea_effect(old(vm)@, *pipeline),
        *final(_hv) == *old(_hv),
{
    let address = vm.get_arg_lea(pipeline.args[1].location)?;
    let value = if pipeline.size_override {
        SizedValue::Word((address % 0x1_0000) as u16)
    } else {
        SizedValue::Dword(address)
    };
    vm.set_arg(pipeline.args[0].location, value)
}

/// The handler of `movzx` from a byte to a native word.
pub fn movzx_8bit<H: Hypervisor>(
    vm: &mut VM,
    pipeline: &Pipeline,
    _hv: &mut H,
) -> (r: Result<(), VMError>)
    requires
        pipeline.wf(),
    ensures
        (final(vm)@, r) == extend_effect(
            old(vm)@,
            *pipeline,
            native_size(pipeline.size_override),
            false,
        ),
        *final(_hv) == *old(_hv),
{
    extend(vm, pipeline, native(pipeline.size_override), false)
}

/// The handler of `movzx` from a word to a double word.
pub fn movzx_16bit<H: Hypervisor>(
    vm: &mut VM,
    pipeline: &Pipeline,
    _hv: &mut H,
) -> (r: Result<(), VMError>)
    requires
        pipeline.wf(),
    ensures
        (final(vm)@, r) == extend_effect(old(vm)@, *pipeline, ValueSize::Dword, false),
        *final(_hv) == *old(_hv),
{
    extend(vm, pipeline, ValueSize::Dword, false)
}

/// The handler of `movsx` from a byte to a native word.
pub fn movsx_8bit<H: Hypervisor>(
    vm: &mut VM,
    pipeline: &Pipeline,
    _hv: &mut H,
) -> (r: Result<(), VMError>)
    requires
        pipeline.wf(),
    ensures
        (final(vm)@, r) == extend_effect(
            old(vm)@,
            *pipeline,
            native_size(pipeline.size_override),
            true,
        ),
        *final(_hv) == *old(_hv),
{
    extend(vm, pipeline, native(pipeline.size_override), true)
}

/// The handler of `movsx` from a word to a double word.
pub fn movsx_16bit<H: Hypervisor>(
    vm: &mut VM,
    pipeline: &Pipeline,
    _hv: &mut H,
) -> (r: Result<(), VMError>)
    requires
        pipeline.wf(),
    ensures
        (final(vm)@, r) == extend_effect(old(vm)@, *pipeline, ValueSize::Dword, true),
        *final(_hv) == *old(_hv),
{
    extend(vm, pipeline, ValueSize::Dword, true)
}

/// The handler of `bswap`.
pub fn bswap<H: Hypervisor>(
    vm: &mut VM,
    pipeline: &Pipeline,
    _hv: &mut H,
) -> (r: Result<(), VMError>)
    requires
        pipeline.wf(),
    ensures
        (final(vm)@, r) == bswap_effect(old(vm)@, *pipeline),
        *final(_hv) == *old(_hv),
{
    let a = read_operand(vm, pipeline.args[0].location, ValueSize::Dword)?;
    vm.set_arg(pipeline.args[0].location, SizedValue::Dword(swap_bytes(a)))
}

/// The handler of `bt`.
pub fn bit_test<H: Hypervisor>(
    vm: &mut VM,
    pipeline: &Pipeline,
    _hv: &mut H,
) -> (r: Result<(), VMError>)
    requires
        pipeline.wf(),
    ensures
        (final(vm)@, r) == bit_test_effect(old(vm)@, *pipeline, BitChange::Keep),
        *final(_hv) == *old(_hv),
{
    test_bit(vm, pipeline, BitChange::Keep)
}

/// The handler of `bts`.
pub fn bit_test_set<H: Hypervisor>(
    vm: &mut VM,
    pipeline: &Pipeline,
    _hv: &mut H,
) -> (r: Result<(), VMError>)
    requires
        pipeline.wf(),
    ensures
        (final(vm)@, r) == bit_test_effect(old(vm)@, *pipeline, BitChange::Raise),
        *final(_hv) == *old(_hv),
{
    test_bit(vm, pipeline, BitChange::Raise)
}

/// The handler of `btr`.
pub fn bit_test_reset<H: Hypervisor>(
    vm: &mut VM,
    pipeline: &Pipeline,
    _hv: &mut H,
) -> (r: Result<(), VMError>)
    requires
        pipeline.wf(),
    ensures
        (final(vm)@, r) == bit_test_effect(old(vm)@, *pipeline, BitChange::Clear),
        *final(_hv) == *old(_hv),
{
    test_bit(vm, pipeline, BitChange::Clear)
}

/// The handler of `btc`.
pub fn bit_test_complement<H: Hypervisor>(
    vm: &mut VM,
    pipeline: &Pipeline,
    _hv: &mut H,
) -> (r: Result<(), VMError>)
    requires
        pipeline.wf(),
    ensures
        (final(vm)@, r) == bit_test_effect(old(vm)@, *pipeline, BitChange::Complement),
        *final(_hv) == *old(_hv),
{
    test_bit(vm, pipeline, BitChange::Complement)
}

/// The handler of `bsf`.
pub fn bit_scan_forward<H: Hypervisor>(
    vm: &mut VM,
    pipeline: &Pipeline,
    _hv: &mut H,
) -> (r: Result<(), VMError>)
    requires
        pipeline.wf(),
    ensures
        (final(vm)@, r) == bit_scan_effect(old(vm)@, *pipeline, true),
        *final(_hv) == *old(_hv),
{
    scan_bits(vm, pipeline, true)
}

/// The handler of `bsr`.
pub fn bit_scan_reverse<H: Hypervisor>(
    vm: &mut VM,
    pipeline: &Pipeline,
    _hv: &mut H,
) -> (r: Result<(), VMError>)
    requires
        pipeline.wf(),
    ensures
        (final(vm)@, r) == bit_scan_effect(old(vm)@, *pipeline, false),
        *final(_hv) == *old(_hv),
{
    scan_bits(vm, pipeline, false)
}

/// The handler in a slot whose instruction has the prefix 0xF3.
pub fn repe<H: Hypervisor>(
    vm: &mut VM,
    pipeline: &Pipeline,
    _hv: &mut H,
) -> (r: Result<(), VMError>)
    requires
        pipeline.wf(),
    ensures
        (final(vm)@, r) == repeat_effect(old(vm)@, *pipeline, true),
        *final(_hv) == *old(_hv),
{
    if rep_flag_opcodes(pipeline.opcode) {
        repeat(vm, pipeline, Some(false))
    } else if rep_no_flag_opcodes(pipeline.opcode) {
        repeat(vm, pipeline, None)
    } else {
        Err(VMError::InvalidOpcodeEncoding)
    }
}

/// The handler in a slot whose instruction has the prefix 0xF2.
pub fn repne<H: Hypervisor>(
    vm: &mut VM,
    pipeline: &Pipeline,
    _hv: &mut H,
) -> (r: Result<(), VMError>)
    requires
        pipeline.wf(),
    ensures
        (final(vm)@, r) == repeat_effect(old(vm)@, *pipeline, false),
        *final(_hv) == *old(_hv),
{
    if rep_flag_opcodes(pipeline.opcode) {
        repeat(vm, pipeline, Some(true))
    } else {
        Err(VMError::InvalidOpcodeEncoding)
    }
}

/// The handler of `movs` on native words.
pub fn movs_native_word<H: Hypervisor>(
    vm: &mut VM,
    pipeline: &Pipeline,
    _hv: &mut H,
) -> (r: Result<(), VMError>)
    requires
        pipeline.wf(),
    ensures
        (final(vm)@, r) == movs_effect(old(vm)@, native_size(pipeline.size_override)),
        *final(_hv) == *old(_hv),
{
    move_string(vm, native(pipeline.size_override))
}

/// The handler of `movs` on bytes.
pub fn movsb<H: Hypervisor>(
    vm: &mut VM,
    pipeline: &Pipeline,
    _hv: &mut H,
) -> (r: Result<(), VMError>)
    requires
        pipeline.wf(),
    ensures
        (final(vm)@, r) == movs_effect(old(vm)@, ValueSize::Byte),
        *final(_hv) == *old(_hv),
{
    move_string(vm, ValueSize::Byte)
}

/// The handler of `cmps` on native words.
pub fn cmps_native_word<H: Hypervisor>(
    vm: &mut VM,
    pipeline: &Pipeline,
    _hv: &mut H,
) -> (r: Result<(), VMError>)
    requires
        pipeline.wf(),
    ensures
        (final(vm)@, r) == compare_strings_effect(old(vm)@, native_size(pipeline.size_override)),
        *final(_hv) == *old(_hv),
{
    compare_strings(vm, native(pipeline.size_override))
}

/// The handler of `cmps` on bytes.
pub fn cmpsb<H: Hypervisor>(
    vm: &mut VM,
    pipeline: &Pipeline,
    _hv: &mut H,
) -> (r: Result<(), VMError>)
    requires
        pipeline.wf(),
    ensures
        (final(vm)@, r) == compare_strings_effect(old(vm)@, ValueSize::Byte),
        *final(_hv) == *old(_hv),
{
    compare_strings(vm, ValueSize::Byte)
}

/// The handler of `scas` on native words.
pub fn scan_string_native_word<H: Hypervisor>(
    vm: &mut VM,
    pipeline: &Pipeline,
    _hv: &mut H,
) -> (r: Result<(), VMError>)
    requires
        pipeline.wf(),
    ensures
        (final(vm)@, r) == scan_string_effect(old(vm)@, native_size(pipeline.size_override)),
        *final(_hv) == *old(_hv),
{
    scan_string(vm, native(pipeline.size_override))
}

/// The handler of `scas` on bytes.
pub fn scan_string_byte<H: Hypervisor>(
    vm: &mut VM,
    pipeline: &Pipeline,
    _hv: &mut H,
) -> (r: Result<(), VMError>)
    requires
        pipeline.wf(),
    ensures
        (final(vm)@, r) == scan_string_effect(old(vm)@, ValueSize::Byte),
        *final(_hv) == *old(_hv),
{
    scan_string(vm, ValueSize::Byte)
}

/// The handler of `stos` on native words.
pub fn store_string_native_word<H: Hypervisor>(
    vm: &mut VM,
    pipeline: &Pipeline,
    _hv: &mut H,
) -> (r: Result<(), VMError>)
    requires
        pipeline.wf(),
    ensures
        (final(vm)@, r) == store_string_effect(old(vm)@, native_size(pipeline.size_override)),
        *final(_hv) == *old(_hv),
{
    store_string(vm, native(pipeline.size_override))
}

/// The handler of `stos` on bytes.
pub fn store_string_byte<H: Hypervisor>(
    vm: &mut VM,
    pipeline: &Pipeline,
    _hv: &mut H,
) -> (r: Result<(), VMError>)
    requires
        pipeline.wf(),
    ensures
        (final(vm)@, r) == store_string_effect(old(vm)@, ValueSize::Byte),
        *final(_hv) == *old(_hv),
{
    store_string(vm, ValueSize::Byte)
}

/// The handler of `lods` on native words.
pub fn load_string_native_word<H: Hypervisor>(
    vm: &mut VM,
    pipeline: &Pipeline,
    _hv: &mut H,
) -> (r: Result<(), VMError>)
    requires
        pipeline.wf(),
    ensures
        (final(vm)@, r) == load_string_effect(old(vm)@, native_size(pipeline.size_override)),
        *final(_hv) == *old(_hv),
{
    load_string(vm, native(pipeline.size_override))
}

/// The handler of `lods` on bytes.
pub fn load_string_byte<H: Hypervisor>(
    vm: &mut VM,
    pipeline: &Pipeline,
    _hv: &mut H,
) -> (r: Result<(), VMError>)
    requires
        pipeline.wf(),
    ensures
        (final(vm)@, r) == load_string_effect(old(vm)@, ValueSize::Byte),
        *final(_hv) == *old(_hv),
{
    load_string(vm, ValueSize::Byte)
}

/// The handler of `std`: strings are processed backwards from now on.
pub fn set_direction<H: Hypervisor>(
    vm: &mut VM,
    pipeline: &Pipeline,
    _hv: &mut H,
) -> (r: Result<(), VMError>)
    requires
        pipeline.wf(),
    ensures
        (final(vm)@, r) == direction_effect(old(vm)@, true),
        *final(_hv) == *old(_hv),
{
    vm.flags.direction = true;
    Ok(())
}

/// The handler of `cld`: strings are processed forwards from now on.
pub fn clear_direction<H: Hypervisor>(
    vm: &mut VM,
    pipeline: &Pipeline,
    _hv: &mut H,
) -> (r: Result<(), VMError>)
    requires
        pipeline.wf(),
    ensures
        (final(vm)@, r) == direction_effect(old(vm)@, false),
        *final(_hv) == *old(_hv),
{
    vm.flags.direction = false;
    Ok(())
}

/// The handler of `cbw` and `cwde`.
pub fn cbw_cwde<H: Hypervisor>(
    vm: &mut VM,
    pipeline: &Pipeline,
    _hv: &mut H,
) -> (r: Result<(), VMError>)
    requires
        pipeline.wf(),
    ensures
        (final(vm)@, r) == widen_effect(old(vm)@, *pipeline),
        *final(_hv) == *old(_hv),
{
    if pipeline.size_override {
        let x: u16 = vm.get_reg(0, ValueSize::Byte).u16_sx()?;
        vm.set_reg(0, SizedValue::Word(x));
    } else {
        let x: u32 = vm.get_reg(0, ValueSize::Word).u32_sx()?;
        vm.set_reg(0, SizedValue::Dword(x));
    }
    Ok(())
}

/// The handler of `cwd` and `cdq`.
pub fn cdq_cwd<H: Hypervisor>(
    vm: &mut VM,
    pipeline: &Pipeline,
    _hv: &mut H,
) -> (r: Result<(), VMError>)
    requires
        pipeline.wf(),
    ensures
        (final(vm)@, r) == spread_sign_effect(old(vm)@, *pipeline),
        *final(_hv) == *old(_hv),
{
    let size = native(pipeline.size_override);
    let a = read_accumulator(vm, size);
    if pipeline.size_override {
        if a >= 0x8000 {
            vm.set_reg(2, SizedValue::Word(0xFFFF));
        } else {
            vm.set_reg(2, SizedValue::Word(0));
        }
    } else {
        if a >= 0x8000_0000 {
            vm.set_reg(2, SizedValue::Dword(0xFFFF_FFFF));
        } else {
            vm.set_reg(2, SizedValue::Dword(0));
        }
    }
    Ok(())
}

/// The handler of `xadd` on bytes.
pub fn xadd_8bit<H: Hypervisor>(
    vm: &mut VM,
    pipeline: &Pipeline,
    _hv: &mut H,
) -> (r: Result<(), VMError>)
    requires
        pipeline.wf(),
    ensures
        (final(vm)@, r) == exchange_add_effect(old(vm)@, *pipeline, ValueSize::Byte),
        *final(_hv) == *old(_hv),
{
    exchange_add(vm, pipeline, ValueSize::Byte)
}

/// The handler of `xadd` on native words.
pub fn xadd_native_word<H: Hypervisor>(
    vm: &mut VM,
    pipeline: &Pipeline,
    _hv: &mut H,
) -> (r: Result<(), VMError>)
    requires
        pipeline.wf(),
    ensures
        (final(vm)@, r) == exchange_add_effect(
            old(vm)@,
            *pipeline,
            native_size(pipeline.size_override),
        ),
        *final(_hv) == *old(_hv),
{
    exchange_add(vm, pipeline, native(pipeline.size_override))
}

/// The handler of `cmpxchg` on bytes.
pub fn cmpxchg_8bit<H: Hypervisor>(
    vm: &mut VM,
    pipeline: &Pipeline,
    _hv: &mut H,
) -> (r: Result<(), VMError>)
    requires
        pipeline.wf(),
    ensures
        (final(vm)@, r) == compare_exchange_effect(old(vm)@, *pipeline, ValueSize::Byte),
        *final(_hv) == *old(_hv),
{
    compare_exchange(vm, pipeline, ValueSize::Byte)
}

/// The handler of `cmpxchg` on native words.
pub fn cmpxchg_native_word<H: Hypervisor>(
    vm: &mut VM,
    pipeline: &Pipeline,
    _hv: &mut H,
) -> (r: Result<(), VMError>)
    requires
        pipeline.wf(),
    ensures
        (final(vm)@, r) == compare_exchange_effect(
            old(vm)@,
            *pipeline,
            native_size(pipeline.size_override),
        ),
        *final(_hv) == *old(_hv),
{
    compare_exchange(vm, pipeline, native(pipeline.size_override))
}

/// The handler of `leave`.
pub fn leave<H: Hypervisor>(
    vm: &mut VM,
    pipeline: &Pipeline,
    _hv: &mut H,
) -> (r: Result<(), VMError>)
    requires
        pipeline.wf(),
    ensures
        (final(vm)@, r) == leave_effect(old(vm)@, *pipeline),
        *final(_hv) == *old(_hv),
{
    let size = native(pipeline.size_override);
    let v = vm.get_mem(vm.regs[5], size)?;
    vm.regs[4] = advance(vm.regs[5], size, false);
    vm.set_reg(5, v);
    Ok(())
}

/// The handler of `enter`.
pub fn enter<H: Hypervisor>(
    vm: &mut VM,
    pipeline: &Pipeline,
    _hv: &mut H,
) -> (r: Result<(), VMError>)
    requires
        pipeline.wf(),
    ensures
        (final(vm)@, r) == enter_effect(old(vm)@, *pipeline),
        *final(_hv) == *old(_hv),
{
    let room = read_operand(vm, pipeline.args[0].location, ValueSize::Word)?;
    let level = read_operand(vm, pipeline.args[1].location, ValueSize::Byte)?;
    if level % 32 != 0 {
        return Err(VMError::NotYetImplemented);
    }
    let size = native(pipeline.size_override);
    let frame_pointer = vm.get_reg(5, size);
    vm.push_stack(frame_pointer, pipeline)?;
    let frame: u32 = vm.regs[4];
    if pipeline.size_override {
        vm.set_reg(5, SizedValue::Word((frame % 0x1_0000) as u16));
    } else {
        vm.set_reg(5, SizedValue::Dword(frame));
    }
    vm.regs[4] = frame.wrapping_sub(room);
    Ok(())
}

/// The number of the interrupt that an `int` instruction raises: the value
/// of its argument, a byte.
pub open spec fn interrupt_number(m: Machine, p: Pipeline) -> Result<int, VMError> {
    operand(m, p.args@[0].location, ValueSize::Byte)
}

/// Reads the number of the interrupt that an `int` instruction raises.
pub fn read_interrupt_number(vm: &VM, pipeline: &Pipeline) -> (r: Result<u8, VMError>)
    requires
        pipeline.wf(),
    ensures
        match r {
            Ok(num) => interrupt_number(vm@, *pipeline) == Ok::<int, VMError>(num as int),
            Err(e) => interrupt_number(vm@, *pipeline) == Err::<int, VMError>(e),
        },
{
    match vm.get_arg(pipeline.args[0].location)? {
        SizedValue::Byte(num) => Ok(num),
        _ => Err(VMError::WrongSizeExpectation),
    }
}

/// The handler of `int`: it hands the machine, as it is, to the
/// hypervisor, with the number that `read_interrupt_number` gives, and
/// returns what the hypervisor returns. What the hypervisor does to the
/// machine is up to it. Where the number cannot be read, the hypervisor is
/// not called.
pub fn interrupt<H: Hypervisor>(
    vm: &mut VM,
    pipeline: &Pipeline,
    hv: &mut H,
) -> (r: Result<(), VMError>)
    requires
        pipeline.wf(),
    ensures
        interrupt_number(old(vm)@, *pipeline) matches Err(e) ==> r == Err::<(), VMError>(e)
            && final(vm)@ == old(vm)@ && *final(hv) == *old(hv),
{
    let num = read_interrupt_number(vm, pipeline)?;
    hv.interrupt(vm, num)
}

/// What the handler of a slot does to the machine, and what it returns.
/// Of the handler of `int` this says only how it fails where it cannot
/// read the number of the interrupt: what it does else is up to the hypervisor.
pub open spec fn handler_effect(m: Machine, p: Pipeline) -> (Machine, Result<(), VMError>) {
    match p.function {
        OpcodeFn::Nop => (m, Ok(())),
        OpcodeFn::OpUndefined => undefined_effect(m),
        OpcodeFn::Interrupt => match interrupt_number(m, p) {
            Err(e) => (m, Err(e)),
            Ok(_) => (m, Ok(())),
        },
        OpcodeFn::Mov => mov_effect(m, p),
        OpcodeFn::Push => push_effect(m, p),
        OpcodeFn::Pop => pop_effect(m, p),
        OpcodeFn::Xchg => xchg_effect(m, p),
        OpcodeFn::Ret => ret_effect(m, p),
        OpcodeFn::CallRel => call_rel_effect(m, p),
        OpcodeFn::CallAbs => call_abs_effect(m, p),
        OpcodeFn::JmpRel => jmp_rel_effect(m, p),
        OpcodeFn::JmpAbs => jmp_abs_effect(m, p),
        OpcodeFn::JmpConditionalEcxIsZero => branch_effect(m, p, counter(m, p.size_override) == 0),
        OpcodeFn::Jcc => branch_effect(m, p, condition_holds(p.opcode, m.flags)),
        OpcodeFn::Div8bit => divide_effect(m, p, ValueSize::Byte, false),
        OpcodeFn::DivNativeWord => divide_effect(m, p, native_size(p.size_override), false),
        OpcodeFn::Idiv8bit => divide_effect(m, p, ValueSize::Byte, true),
        OpcodeFn::IdivNativeWord => divide_effect(m, p, native_size(p.size_override), true),
        OpcodeFn::Mul8bit => multiply_effect(m, p, ValueSize::Byte, false),
        OpcodeFn::MulNativeWord => multiply_effect(m, p, native_size(p.size_override), false),
        OpcodeFn::Imul1Arg8bit => multiply_effect(m, p, ValueSize::Byte, true),
        OpcodeFn::Imul1NativeWord => multiply_effect(m, p, native_size(p.size_override), true),
        OpcodeFn::Imul2NativeWord => signed_multiply_effect(
            m,
            p,
            native_size(p.size_override),
            false,
        ),
        OpcodeFn::Imul3NativeWord => signed_multiply_effect(
            m,
            p,
            native_size(p.size_override),
            true,
        ),
        OpcodeFn::Shl8bit => shift_effect(m, p, true, ValueSize::Byte),
        OpcodeFn::ShlNativeWord => shift_effect(m, p, true, native_size(p.size_override)),
        OpcodeFn::Shr8bit => shift_effect(m, p, false, ValueSize::Byte),
        OpcodeFn::ShrNativeWord => shift_effect(m, p, false, native_size(p.size_override)),
        OpcodeFn::Add8bit => arithmetic_effect(m, p, Arithmetic::Add, ValueSize::Byte, true),
        OpcodeFn::AddNativeWord => arithmetic_effect(
            m,
            p,
            Arithmetic::Add,
            native_size(p.size_override),
            true,
        ),
        OpcodeFn::Hlt => hlt_effect(m),
        OpcodeFn::Adc8bit => arithmetic_effect(
            m,
            p,
            Arithmetic::AddWithCarry,
            ValueSize::Byte,
            true,
        ),
        OpcodeFn::AdcNativeWord => arithmetic_effect(
            m,
            p,
            Arithmetic::AddWithCarry,
            native_size(p.size_override),
            true,
        ),
        OpcodeFn::Increment8bit => unary_effect(m, p, Unary::Increment, ValueSize::Byte),
        OpcodeFn::IncrementNativeWord => unary_effect(
            m,
            p,
            Unary::Increment,
            native_size(p.size_override),
        ),
        OpcodeFn::Sub8bit => arithmetic_effect(m, p, Arithmetic::Subtract, ValueSize::Byte, true),
        OpcodeFn::SubNativeWord => arithmetic_effect(
            m,
            p,
            Arithmetic::Subtract,
            native_size(p.size_override),
            true,
        ),
        OpcodeFn::Sbb8bit => arithmetic_effect(
            m,
            p,
            Arithmetic::SubtractWithBorrow,
            ValueSize::Byte,
            true,
        ),
        OpcodeFn::SbbNativeWord => arithmetic_effect(
            m,
            p,
            Arithmetic::SubtractWithBorrow,
            native_size(p.size_override),
            true,
        ),
        OpcodeFn::Decrement8bit => unary_effect(m, p, Unary::Decrement, ValueSize::Byte),
        OpcodeFn::DecrementNativeWord => unary_effect(
            m,
            p,
            Unary::Decrement,
            native_size(p.size_override),
        ),
        OpcodeFn::Cmp8bit => arithmetic_effect(m, p, Arithmetic::Subtract, ValueSize::Byte, false),
        OpcodeFn::CmpNativeWord => arithmetic_effect(
            m,
            p,
            Arithmetic::Subtract,
            native_size(p.size_override),
            false,
        ),
        OpcodeFn::Test8bit => arithmetic_effect(m, p, Arithmetic::And, ValueSize::Byte, false),
        OpcodeFn::TestNativeWord => arithmetic_effect(
            m,
            p,
            Arithmetic::And,
            native_size(p.size_override),
            false,
        ),
        OpcodeFn::And8bit => arithmetic_effect(m, p, Arithmetic::And, ValueSize::Byte, true),
        OpcodeFn::AndNativeWord => arithmetic_effect(
            m,
            p,
            Arithmetic::And,
            native_size(p.size_override),
            true,
        ),
        OpcodeFn::Or8bit => arithmetic_effect(m, p, Arithmetic::Or, ValueSize::Byte, true),
        OpcodeFn::OrNativeWord => arithmetic_effect(
            m,
            p,
            Arithmetic::Or,
            native_size(p.size_override),
            true,
        ),
        OpcodeFn::Xor8bit => arithmetic_effect(m, p, Arithmetic::Xor, ValueSize::Byte, true),
        OpcodeFn::XorNativeWord => arithmetic_effect(
            m,
            p,
            Arithmetic::Xor,
            native_size(p.size_override),
            true,
        ),
        OpcodeFn::Not8bit => unary_effect(m, p, Unary::Not, ValueSize::Byte),
        OpcodeFn::NotNativeWord => unary_effect(m, p, Unary::Not, native_size(p.size_override)),
        OpcodeFn::Neg8bit => unary_effect(m, p, Unary::Negate, ValueSize::Byte),
        OpcodeFn::NegNativeWord => unary_effect(m, p, Unary::Negate, native_size(p.size_override)),
        OpcodeFn::Setcc8bit => setcc_effect(m, p),
        OpcodeFn::CmovccNative => cmovcc_effect(m, p),
        OpcodeFn::Lea => lea_effect(m, p),
        OpcodeFn::Movzx8bit => extend_effect(m, p, native_size(p.size_override), false),
        OpcodeFn::Movzx16bit => extend_effect(m, p, ValueSize::Dword, false),
        OpcodeFn::Movsx8bit => extend_effect(m, p, native_size(p.size_override), true),
        OpcodeFn::Movsx16bit => extend_effect(m, p, ValueSize::Dword, true),
        OpcodeFn::Bswap => bswap_effect(m, p),
        OpcodeFn::BitTest => bit_test_effect(m, p, BitChange::Keep),
        OpcodeFn::BitTestSet => bit_test_effect(m, p, BitChange::Raise),
        OpcodeFn::BitTestReset => bit_test_effect(m, p, BitChange::Clear),
        OpcodeFn::BitTestComplement => bit_test_effect(m, p, BitChange::Complement),
        OpcodeFn::BitScanForward => bit_scan_effect(m, p, true),
        OpcodeFn::BitScanReverse => bit_scan_effect(m, p, false),
        OpcodeFn::Repe => repeat_effect(m, p, true),
        OpcodeFn::Repne => repeat_effect(m, p, false),
        OpcodeFn::MovsNativeWord => movs_effect(m, native_size(p.size_override)),
        OpcodeFn::Movsb => movs_effect(m, ValueSize::Byte),
        OpcodeFn::CmpsNativeWord => compare_strings_effect(m, native_size(p.size_override)),
        OpcodeFn::Cmpsb => compare_strings_effect(m, ValueSize::Byte),
        OpcodeFn::ScanStringNativeWord => scan_string_effect(m, native_size(p.size_override)),
        OpcodeFn::ScanStringByte => scan_string_effect(m, ValueSize::Byte),
        OpcodeFn::StoreStringNativeWord => store_string_effect(m, native_size(p.size_override)),
        OpcodeFn::StoreStringByte => store_string_effect(m, ValueSize::Byte),
        OpcodeFn::LoadStringNativeWord => load_string_effect(m, native_size(p.size_override)),
        OpcodeFn::LoadStringByte => load_string_effect(m, ValueSize::Byte),
        OpcodeFn::SetDirection => direction_effect(m, true),
        OpcodeFn::ClearDirection => direction_effect(m, false),
        OpcodeFn::CbwCwde => widen_effect(m, p),
        OpcodeFn::CdqCwd => spread_sign_effect(m, p),
        OpcodeFn::Xadd8bit => exchange_add_effect(m, p, ValueSize::Byte),
        OpcodeFn::XaddNativeWord => exchange_add_effect(m, p, native_size(p.size_override)),
        OpcodeFn::Cmpxchg8bit => compare_exchange_effect(m, p, ValueSize::Byte),
        OpcodeFn::CmpxchgNativeWord => compare_exchange_effect(m, p, native_size(p.size_override)),
        OpcodeFn::Leave => leave_effect(m, p),
        OpcodeFn::Enter => enter_effect(m, p),
    }
}

/// Calls the handler of a slot.
pub fn dispatch<H: Hypervisor>(
    vm: &mut VM,
    pipeline: &Pipeline,
    hv: &mut H,
) -> (r: Result<(), VMError>)
    requires
        pipeline.wf(),
    ensures
        pipeline.function != OpcodeFn::Interrupt ==> (final(vm)@, r) == handler_effect(
            old(vm)@,
            *pipeline,
        ) && *final(hv) == *old(hv),
        pipeline.function == OpcodeFn::Interrupt && interrupt_number(old(vm)@, *pipeline) is Err
            ==> (final(vm)@, r) == handler_effect(old(vm)@, *pipeline) && *final(hv) == *old(hv),
{
    match pipeline.function {
        OpcodeFn::Nop => nop(vm, pipeline, hv),
        OpcodeFn::OpUndefined => op_undefined(vm, pipeline, hv),
        OpcodeFn::Interrupt => interrupt(vm, pipeline, hv),
        OpcodeFn::Mov => mov(vm, pipeline, hv),
        OpcodeFn::Push => push(vm, pipeline, hv),
        OpcodeFn::Pop => pop(vm, pipeline, hv),
        OpcodeFn::Xchg => xchg(vm, pipeline, hv),
        OpcodeFn::Ret => ret(vm, pipeline, hv),
        OpcodeFn::CallRel => call_rel(vm, pipeline, hv),
        OpcodeFn::CallAbs => call_abs(vm, pipeline, hv),
        OpcodeFn::JmpRel => jmp_rel(vm, pipeline, hv),
        OpcodeFn::JmpAbs => jmp_abs(vm, pipeline, hv),
        OpcodeFn::JmpConditionalEcxIsZero => jmp_conditional_ecx_is_zero(vm, pipeline, hv),
        OpcodeFn::Jcc => jcc(vm, pipeline, hv),
        OpcodeFn::Div8bit => div_8bit(vm, pipeline, hv),
        OpcodeFn::DivNativeWord => div_native_word(vm, pipeline, hv),
        OpcodeFn::Idiv8bit => idiv_8bit(vm, pipeline, hv),
        OpcodeFn::IdivNativeWord => idiv_native_word(vm, pipeline, hv),
        OpcodeFn::Mul8bit => mul_8bit(vm, pipeline, hv),
        OpcodeFn::MulNativeWord => mul_native_word(vm, pipeline, hv),
        OpcodeFn::Imul1Arg8bit => imul1_8bit(vm, pipeline, hv),
        OpcodeFn::Imul1NativeWord => imul1_native_word(vm, pipeline, hv),
        OpcodeFn::Imul2NativeWord => imul2_native_word(vm, pipeline, hv),
        OpcodeFn::Imul3NativeWord => imul3_native_word(vm, pipeline, hv),
        OpcodeFn::Shl8bit => shl_8bit(vm, pipeline, hv),
        OpcodeFn::ShlNativeWord => shl_native_word(vm, pipeline, hv),
        OpcodeFn::Shr8bit => shr_8bit(vm, pipeline, hv),
        OpcodeFn::ShrNativeWord => shr_native_word(vm, pipeline, hv),
        OpcodeFn::Add8bit => add_8bit(vm, pipeline, hv),
        OpcodeFn::AddNativeWord => add_native_word(vm, pipeline, hv),
        OpcodeFn::Hlt => hlt(vm, pipeline, hv),
        OpcodeFn::Adc8bit => adc_8bit(vm, pipeline, hv),
        OpcodeFn::AdcNativeWord => adc_native_word(vm, pipeline, hv),
        OpcodeFn::Increment8bit => increment_8bit(vm, pipeline, hv),
        OpcodeFn::IncrementNativeWord => increment_native_word(vm, pipeline, hv),
        OpcodeFn::Sub8bit => sub_8bit(vm, pipeline, hv),
        OpcodeFn::SubNativeWord => sub_native_word(vm, pipeline, hv),
        OpcodeFn::Sbb8bit => sbb_8bit(vm, pipeline, hv),
        OpcodeFn::SbbNativeWord => sbb_native_word(vm, pipeline, hv),
        OpcodeFn::Decrement8bit => decrement_8bit(vm, pipeline, hv),
        OpcodeFn::DecrementNativeWord => decrement_native_word(vm, pipeline, hv),
        OpcodeFn::Cmp8bit => cmp_8bit(vm, pipeline, hv),
        OpcodeFn::CmpNativeWord => cmp_native_word(vm, pipeline, hv),
        OpcodeFn::Test8bit => test_8bit(vm, pipeline, hv),
        OpcodeFn::TestNativeWord => test_native_word(vm, pipeline, hv),
        OpcodeFn::And8bit => and_8bit(vm, pipeline, hv),
        OpcodeFn::AndNativeWord => and_native_word(vm, pipeline, hv),
        OpcodeFn::Or8bit => or_8bit(vm, pipeline, hv),
        OpcodeFn::OrNativeWord => or_native_word(vm, pipeline, hv),
        OpcodeFn::Xor8bit => xor_8bit(vm, pipeline, hv),
        OpcodeFn::XorNativeWord => xor_native_word(vm, pipeline, hv),
        OpcodeFn::Not8bit => not_8bit(vm, pipeline, hv),
        OpcodeFn::NotNativeWord => not_native_word(vm, pipeline, hv),
        OpcodeFn::Neg8bit => neg_8bit(vm, pipeline, hv),
        OpcodeFn::NegNativeWord => neg_native_word(vm, pipeline, hv),
        OpcodeFn::Setcc8bit => setcc_8bit(vm, pipeline, hv),
        OpcodeFn::CmovccNative => cmovcc_native(vm, pipeline, hv),
        OpcodeFn::Lea => lea(vm, pipeline, hv),
        OpcodeFn::Movzx8bit => movzx_8bit(vm, pipeline, hv),
        OpcodeFn::Movzx16bit => movzx_16bit(vm, pipeline, hv),
        OpcodeFn::Movsx8bit => movsx_8bit(vm, pipeline, hv),
        OpcodeFn::Movsx16bit => movsx_16bit(vm, pipeline, hv),
        OpcodeFn::Bswap => bswap(vm, pipeline, hv),
        OpcodeFn::BitTest => bit_test(vm, pipeline, hv),
        OpcodeFn::BitTestSet => bit_test_set(vm, pipeline, hv),
        OpcodeFn::BitTestReset => bit_test_reset(vm, pipeline, hv),
        OpcodeFn::BitTestComplement => bit_test_complement(vm, pipeline, hv),
        OpcodeFn::BitScanForward => bit_scan_forward(vm, pipeline, hv),
        OpcodeFn::BitScanReverse => bit_scan_reverse(vm, pipeline, hv),
        OpcodeFn::Repe => repe(vm, pipeline, hv),
        OpcodeFn::Repne => repne(vm, pipeline, hv),
        OpcodeFn::MovsNativeWord => movs_native_word(vm, pipeline, hv),
        OpcodeFn::Movsb => movsb(vm, pipeline, hv),
        OpcodeFn::CmpsNativeWord => cmps_native_word(vm, pipeline, hv),
        OpcodeFn::Cmpsb => cmpsb(vm, pipeline, hv),
        OpcodeFn::ScanStringNativeWord => scan_string_native_word(vm, pipeline, hv),
        OpcodeFn::ScanStringByte => scan_string_byte(vm, pipeline, hv),
        OpcodeFn::StoreStringNativeWord => store_string_native_word(vm, pipeline, hv),
        OpcodeFn::StoreStringByte => store_string_byte(vm, pipeline, hv),
        OpcodeFn::LoadStringNativeWord => load_string_native_word(vm, pipeline, hv),
        OpcodeFn::LoadStringByte => load_string_byte(vm, pipeline, hv),
        OpcodeFn::SetDirection => set_direction(vm, pipeline, hv),
        OpcodeFn::ClearDirection => clear_direction(vm, pipeline, hv),
        OpcodeFn::CbwCwde => cbw_cwde(vm, pipeline, hv),
        OpcodeFn::CdqCwd => cdq_cwd(vm, pipeline, hv),
        OpcodeFn::Xadd8bit => xadd_8bit(vm, pipeline, hv),
        OpcodeFn::XaddNativeWord => xadd_native_word(vm, pipeline, hv),
        OpcodeFn::Cmpxchg8bit => cmpxchg_8bit(vm, pipeline, hv),
        OpcodeFn::CmpxchgNativeWord => cmpxchg_native_word(vm, pipeline, hv),
        OpcodeFn::Leave => leave(vm, pipeline, hv),
        OpcodeFn::Enter => enter(vm, pipeline, hv),
    }
}

/// The address that a location refers to does not depend on what memory holds.
pub proof fn lemma_address_ignores_memory(m: Machine, arg: ArgLocation, memory: Map<u32, Seq<u8>>)
    ensures
        (Machine { memory: memory, ..m }).get_arg_lea(arg) == m.get_arg_lea(arg),
{
    reveal(Machine::get_arg_lea);
    reveal(Machine::effective_address);
}

/// Storing a value in a register converts it to the width of the register
/// by zero extension and changes that register only.
pub proof fn lemma_set_register_arg(m: Machine, r: u8, s: ValueSize, v: SizedValue)
    ensures
        m.set_arg(ArgLocation::RegisterValue(r, s), v) == match v.spec_convert_zx(s) {
            Ok(w) => (m.set_reg(r, w), Ok::<(), VMError>(())),
            Err(e) => (m, Err::<(), VMError>(e)),
        },
{
    reveal(Machine::set_arg);
}

/// `lea` does not read memory: whatever memory holds, and whether the
/// address is in any region at all, `lea` into a register gives the same
/// result and the same registers. With an argument in memory and a
/// register of the native word it succeeds, and the register then holds the
/// address, or its low 16 bits under an operand size prefix.
pub proof fn lemma_lea_ignores_memory(m: Machine, p: Pipeline, memory: Map<u32, Seq<u8>>)
    requires
        p.args@[0].location is RegisterValue,
    ensures
        lea_effect(Machine { memory: memory, ..m }, p).1 == lea_effect(m, p).1,
        lea_effect(Machine { memory: memory, ..m }, p).0 == (Machine {
            memory: memory,
            ..lea_effect(m, p).0
        }),
        ({
            let source = p.args@[1].location;
            let target = p.args@[0].location;
            (source is Address || source is RegisterAddress || source is ModRMAddress
                || source is SIBAddress) && target->RegisterValue_1 == native_size(p.size_override)
                ==> lea_effect(m, p) == (
                m.set_reg(
                    target->RegisterValue_0,
                    if p.size_override {
                        SizedValue::Word((m.get_arg_lea(source).unwrap() % 0x1_0000) as u16)
                    } else {
                        SizedValue::Dword(m.get_arg_lea(source).unwrap())
                    },
                ),
                Ok::<(), VMError>(()),
            )
        }),
{
    let source = p.args@[1].location;
    let r = p.args@[0].location->RegisterValue_0;
    let s = p.args@[0].location->RegisterValue_1;
    let other = Machine { memory: memory, ..m };
    lemma_address_ignores_memory(m, source, memory);
    assert(source is Address || source is RegisterAddress || source is ModRMAddress
        || source is SIBAddress ==> m.get_arg_lea(source) is Ok) by {
        reveal(Machine::get_arg_lea);
    }
    if let Ok(address) = m.get_arg_lea(source) {
        let value = if p.size_override {
            SizedValue::Word((address % 0x1_0000) as u16)
        } else {
            SizedValue::Dword(address)
        };
        lemma_set_register_arg(m, r, s, value);
        lemma_set_register_arg(other, r, s, value);
    }
}

/// One step of a string instruction leaves the gas and the costs as they are;
/// where it fails, it is by a fault of the instruction.
pub proof fn lemma_string_step_keeps_gas(m: Machine, p: Pipeline)
    ensures
        string_step_effect(m, p).0.gas_remaining == m.gas_remaining,
        string_step_effect(m, p).0.costs == m.costs,
        fails_by_fault(string_step_effect(m, p).1),
{
    broadcast use {
        lemma_set_mem_frame,
        lemma_set_arg_frame,
        lemma_get_mem_faults,
        lemma_set_mem_faults,
        lemma_get_arg_faults,
        lemma_get_arg_lea_faults,
        lemma_set_arg_faults,
    };

    reveal(string_step_effect);
}

/// A repeated string instruction never adds to the gas, leaves the costs
/// as they are, and does not halt the machine.
pub proof fn lemma_repetition_gas(m: Machine, p: Pipeline, stop_on_zero: Option<bool>, count: nat)
    ensures
        repetition(m, p, stop_on_zero, count).0.gas_remaining <= m.gas_remaining,
        repetition(m, p, stop_on_zero, count).0.costs == m.costs,
        repetition(m, p, stop_on_zero, count).1 != Err::<(), VMError>(VMError::InternalVMStop),
    decreases count,
{
    if count != 0 && m.gas_remaining != 0 {
        lemma_string_step_keeps_gas(m, p);
        if string_step_effect(m, p).1 is Ok {
            let after = after_step(string_step_effect(m, p).0, p.size_override, count);
            if stop_on_zero != Some(string_step_effect(m, p).0.flags.zero) {
                lemma_repetition_gas(after, p, stop_on_zero, (count - 1) as nat);
            }
        }
    }
}

/// What `arithmetic_effect` describes leaves the gas and the costs as they are;
/// where it fails, it is by a fault of the instruction.
pub proof fn lemma_arithmetic_keeps_gas(
    m: Machine,
    p: Pipeline,
    op: Arithmetic,
    size: ValueSize,
    store: bool,
)
    ensures
        arithmetic_effect(m, p, op, size, store).0.gas_remaining == m.gas_remaining,
        arithmetic_effect(m, p, op, size, store).0.costs == m.costs,
        fails_by_fault(arithmetic_effect(m, p, op, size, store).1),
{
    broadcast use {
        lemma_set_mem_frame,
        lemma_set_arg_frame,
        lemma_get_mem_faults,
        lemma_set_mem_faults,
        lemma_get_arg_faults,
        lemma_get_arg_lea_faults,
        lemma_set_arg_faults,
    };

}

/// What `unary_effect` describes leaves the gas and the costs as they are;
/// where it fails, it is by a fault of the instruction.
pub proof fn lemma_unary_keeps_gas(m: Machine, p: Pipeline, op: Unary, size: ValueSize)
    ensures
        unary_effect(m, p, op, size).0.gas_remaining == m.gas_remaining,
        unary_effect(m, p, op, size).0.costs == m.costs,
        fails_by_fault(unary_effect(m, p, op, size).1),
{
    broadcast use {
        lemma_set_mem_frame,
        lemma_set_arg_frame,
        lemma_get_mem_faults,
        lemma_set_mem_faults,
        lemma_get_arg_faults,
        lemma_get_arg_lea_faults,
        lemma_set_arg_faults,
    };

}

/// What `shift_effect` describes leaves the gas and the costs as they are;
/// where it fails, it is by a fault of the instruction.
pub proof fn lemma_shift_keeps_gas(m: Machine, p: Pipeline, left: bool, size: ValueSize)
    ensures
        shift_effect(m, p, left, size).0.gas_remaining == m.gas_remaining,
        shift_effect(m, p, left, size).0.costs == m.costs,
        fails_by_fault(shift_effect(m, p, left, size).1),
{
    broadcast use {
        lemma_set_mem_frame,
        lemma_set_arg_frame,
        lemma_get_mem_faults,
        lemma_set_mem_faults,
        lemma_get_arg_faults,
        lemma_get_arg_lea_faults,
        lemma_set_arg_faults,
    };

}

/// What `multiply_effect` describes leaves the gas and the costs as they are;
/// where it fails, it is by a fault of the instruction.
pub proof fn lemma_multiply_keeps_gas(m: Machine, p: Pipeline, size: ValueSize, signed: bool)
    ensures
        multiply_effect(m, p, size, signed).0.gas_remaining == m.gas_remaining,
        multiply_effect(m, p, size, signed).0.costs == m.costs,
        fails_by_fault(multiply_effect(m, p, size, signed).1),
{
    broadcast use {
        lemma_set_mem_frame,
        lemma_set_arg_frame,
        lemma_get_mem_faults,
        lemma_set_mem_faults,
        lemma_get_arg_faults,
        lemma_get_arg_lea_faults,
        lemma_set_arg_faults,
    };

}

/// What `signed_multiply_effect` describes leaves the gas and the costs as they are;
/// where it fails, it is by a fault of the instruction.
pub proof fn lemma_signed_multiply_keeps_gas(m: Machine, p: Pipeline, size: ValueSize, three: bool)
    ensures
        signed_multiply_effect(m, p, size, three).0.gas_remaining == m.gas_remaining,
        signed_multiply_effect(m, p, size, three).0.costs == m.costs,
        fails_by_fault(signed_multiply_effect(m, p, size, three).1),
{
    broadcast use {
        lemma_set_mem_frame,
        lemma_set_arg_frame,
        lemma_get_mem_faults,
        lemma_set_mem_faults,
        lemma_get_arg_faults,
        lemma_get_arg_lea_faults,
        lemma_set_arg_faults,
    };

}

/// What `divide_effect` describes leaves the gas and the costs as they are;
/// where it fails, it is by a fault of the instruction.
pub proof fn lemma_divide_keeps_gas(m: Machine, p: Pipeline, size: ValueSize, signed: bool)
    ensures
        divide_effect(m, p, size, signed).0.gas_remaining == m.gas_remaining,
        divide_effect(m, p, size, signed).0.costs == m.costs,
        fails_by_fault(divide_effect(m, p, size, signed).1),
{
    broadcast use {
        lemma_set_mem_frame,
        lemma_set_arg_frame,
        lemma_get_mem_faults,
        lemma_set_mem_faults,
        lemma_get_arg_faults,
        lemma_get_arg_lea_faults,
        lemma_set_arg_faults,
    };

}

/// What `mov_effect` describes leaves the gas and the costs as they are;
/// where it fails, it is by a fault of the instruction.
pub proof fn lemma_mov_keeps_gas(m: Machine, p: Pipeline)
    ensures
        mov_effect(m, p).0.gas_remaining == m.gas_remaining,
        mov_effect(m, p).0.costs == m.costs,
        fails_by_fault(mov_effect(m, p).1),
{
    broadcast use {
        lemma_set_mem_frame,
        lemma_set_arg_frame,
        lemma_get_mem_faults,
        lemma_set_mem_faults,
        lemma_get_arg_faults,
        lemma_get_arg_lea_faults,
        lemma_set_arg_faults,
    };

}

/// What `push_effect` describes leaves the gas and the costs as they are;
/// where it fails, it is by a fault of the instruction.
pub proof fn lemma_push_keeps_gas(m: Machine, p: Pipeline)
    ensures
        push_effect(m, p).0.gas_remaining == m.gas_remaining,
        push_effect(m, p).0.costs == m.costs,
        fails_by_fault(push_effect(m, p).1),
{
    broadcast use {
        lemma_set_mem_frame,
        lemma_set_arg_frame,
        lemma_get_mem_faults,
        lemma_set_mem_faults,
        lemma_get_arg_faults,
        lemma_get_arg_lea_faults,
        lemma_set_arg_faults,
    };

}

/// What `pop_effect` describes leaves the gas and the costs as they are;
/// where it fails, it is by a fault of the instruction.
pub proof fn lemma_pop_keeps_gas(m: Machine, p: Pipeline)
    ensures
        pop_effect(m, p).0.gas_remaining == m.gas_remaining,
        pop_effect(m, p).0.costs == m.costs,
        fails_by_fault(pop_effect(m, p).1),
{
    broadcast use {
        lemma_set_mem_frame,
        lemma_set_arg_frame,
        lemma_get_mem_faults,
        lemma_set_mem_faults,
        lemma_get_arg_faults,
        lemma_get_arg_lea_faults,
        lemma_set_arg_faults,
    };

}

/// What `xchg_effect` describes leaves the gas and the costs as they are;
/// where it fails, it is by a fault of the instruction.
pub proof fn lemma_xchg_keeps_gas(m: Machine, p: Pipeline)
    ensures
        xchg_effect(m, p).0.gas_remaining == m.gas_remaining,
        xchg_effect(m, p).0.costs == m.costs,
        fails_by_fault(xchg_effect(m, p).1),
{
    broadcast use {
        lemma_set_mem_frame,
        lemma_set_arg_frame,
        lemma_get_mem_faults,
        lemma_set_mem_faults,
        lemma_get_arg_faults,
        lemma_get_arg_lea_faults,
        lemma_set_arg_faults,
    };

}

/// What `jmp_rel_effect` describes leaves the gas and the costs as they are;
/// where it fails, it is by a fault of the instruction.
pub proof fn lemma_jmp_rel_keeps_gas(m: Machine, p: Pipeline)
    ensures
        jmp_rel_effect(m, p).0.gas_remaining == m.gas_remaining,
        jmp_rel_effect(m, p).0.costs == m.costs,
        fails_by_fault(jmp_rel_effect(m, p).1),
{
    broadcast use {
        lemma_set_mem_frame,
        lemma_set_arg_frame,
        lemma_get_mem_faults,
        lemma_set_mem_faults,
        lemma_get_arg_faults,
        lemma_get_arg_lea_faults,
        lemma_set_arg_faults,
    };

}

/// What `jmp_abs_effect` describes leaves the gas and the costs as they are;
/// where it fails, it is by a fault of the instruction.
pub proof fn lemma_jmp_abs_keeps_gas(m: Machine, p: Pipeline)
    ensures
        jmp_abs_effect(m, p).0.gas_remaining == m.gas_remaining,
        jmp_abs_effect(m, p).0.costs == m.costs,
        fails_by_fault(jmp_abs_effect(m, p).1),
{
    broadcast use {
        lemma_set_mem_frame,
        lemma_set_arg_frame,
        lemma_get_mem_faults,
        lemma_set_mem_faults,
        lemma_get_arg_faults,
        lemma_get_arg_lea_faults,
        lemma_set_arg_faults,
    };

}

/// What `call_rel_effect` describes leaves the gas and the costs as they are;
/// where it fails, it is by a fault of the instruction.
pub proof fn lemma_call_rel_keeps_gas(m: Machine, p: Pipeline)
    ensures
        call_rel_effect(m, p).0.gas_remaining == m.gas_remaining,
        call_rel_effect(m, p).0.costs == m.costs,
        fails_by_fault(call_rel_effect(m, p).1),
{
    broadcast use {
        lemma_set_mem_frame,
        lemma_set_arg_frame,
        lemma_get_mem_faults,
        lemma_set_mem_faults,
        lemma_get_arg_faults,
        lemma_get_arg_lea_faults,
        lemma_set_arg_faults,
    };

}

/// What `call_abs_effect` describes leaves the gas and the costs as they are;
/// where it fails, it is by a fault of the instruction.
pub proof fn lemma_call_abs_keeps_gas(m: Machine, p: Pipeline)
    ensures
        call_abs_effect(m, p).0.gas_remaining == m.gas_remaining,
        call_abs_effect(m, p).0.costs == m.costs,
        fails_by_fault(call_abs_effect(m, p).1),
{
    broadcast use {
        lemma_set_mem_frame,
        lemma_set_arg_frame,
        lemma_get_mem_faults,
        lemma_set_mem_faults,
        lemma_get_arg_faults,
        lemma_get_arg_lea_faults,
        lemma_set_arg_faults,
    };

}

/// What `ret_effect` describes leaves the gas and the costs as they are;
/// where it fails, it is by a fault of the instruction.
pub proof fn lemma_ret_keeps_gas(m: Machine, p: Pipeline)
    ensures
        ret_effect(m, p).0.gas_remaining == m.gas_remaining,
        ret_effect(m, p).0.costs == m.costs,
        fails_by_fault(ret_effect(m, p).1),
{
    broadcast use {
        lemma_set_mem_frame,
        lemma_set_arg_frame,
        lemma_get_mem_faults,
        lemma_set_mem_faults,
        lemma_get_arg_faults,
        lemma_get_arg_lea_faults,
        lemma_set_arg_faults,
    };

}

/// What `branch_effect` describes leaves the gas and the costs as they are;
/// where it fails, it is by a fault of the instruction.
pub proof fn lemma_branch_keeps_gas(m: Machine, p: Pipeline, taken: bool)
    ensures
        branch_effect(m, p, taken).0.gas_remaining == m.gas_remaining,
        branch_effect(m, p, taken).0.costs == m.costs,
        fails_by_fault(branch_effect(m, p, taken).1),
{
    broadcast use {
        lemma_set_mem_frame,
        lemma_set_arg_frame,
        lemma_get_mem_faults,
        lemma_set_mem_faults,
        lemma_get_arg_faults,
        lemma_get_arg_lea_faults,
        lemma_set_arg_faults,
    };

}

/// What `setcc_effect` describes leaves the gas and the costs as they are;
/// where it fails, it is by a fault of the instruction.
pub proof fn lemma_setcc_keeps_gas(m: Machine, p: Pipeline)
    ensures
        setcc_effect(m, p).0.gas_remaining == m.gas_remaining,
        setcc_effect(m, p).0.costs == m.costs,
        fails_by_fault(setcc_effect(m, p).1),
{
    broadcast use {
        lemma_set_mem_frame,
        lemma_set_arg_frame,
        lemma_get_mem_faults,
        lemma_set_mem_faults,
        lemma_get_arg_faults,
        lemma_get_arg_lea_faults,
        lemma_set_arg_faults,
    };

}

/// What `cmovcc_effect` describes leaves the gas and the costs as they are;
/// where it fails, it is by a fault of the instruction.
pub proof fn lemma_cmovcc_keeps_gas(m: Machine, p: Pipeline)
    ensures
        cmovcc_effect(m, p).0.gas_remaining == m.gas_remaining,
        cmovcc_effect(m, p).0.costs == m.costs,
        fails_by_fault(cmovcc_effect(m, p).1),
{
    broadcast use {
        lemma_set_mem_frame,
        lemma_set_arg_frame,
        lemma_get_mem_faults,
        lemma_set_mem_faults,
        lemma_get_arg_faults,
        lemma_get_arg_lea_faults,
        lemma_set_arg_faults,
    };

}

/// What `lea_effect` describes leaves the gas and the costs as they are;
/// where it fails, it is by a fault of the instruction.
pub proof fn lemma_lea_keeps_gas(m: Machine, p: Pipeline)
    ensures
        lea_effect(m, p).0.gas_remaining == m.gas_remaining,
        lea_effect(m, p).0.costs == m.costs,
        fails_by_fault(lea_effect(m, p).1),
{
    broadcast use {
        lemma_set_mem_frame,
        lemma_set_arg_frame,
        lemma_get_mem_faults,
        lemma_set_mem_faults,
        lemma_get_arg_faults,
        lemma_get_arg_lea_faults,
        lemma_set_arg_faults,
    };

}

/// What `extend_effect` describes leaves the gas and the costs as they are;
/// where it fails, it is by a fault of the instruction.
pub proof fn lemma_extend_keeps_gas(m: Machine, p: Pipeline, size: ValueSize, signed: bool)
    ensures
        extend_effect(m, p, size, signed).0.gas_remaining == m.gas_remaining,
        extend_effect(m, p, size, signed).0.costs == m.costs,
        fails_by_fault(extend_effect(m, p, size, signed).1),
{
    broadcast use {
        lemma_set_mem_frame,
        lemma_set_arg_frame,
        lemma_get_mem_faults,
        lemma_set_mem_faults,
        lemma_get_arg_faults,
        lemma_get_arg_lea_faults,
        lemma_set_arg_faults,
    };

}

/// What `bswap_effect` describes leaves the gas and the costs as they are;
/// where it fails, it is by a fault of the instruction.
pub proof fn lemma_bswap_keeps_gas(m: Machine, p: Pipeline)
    ensures
        bswap_effect(m, p).0.gas_remaining == m.gas_remaining,
        bswap_effect(m, p).0.costs == m.costs,
        fails_by_fault(bswap_effect(m, p).1),
{
    broadcast use {
        lemma_set_mem_frame,
        lemma_set_arg_frame,
        lemma_get_mem_faults,
        lemma_set_mem_faults,
        lemma_get_arg_faults,
        lemma_get_arg_lea_faults,
        lemma_set_arg_faults,
    };

}

/// What `bit_test_effect` describes leaves the gas and the costs as they are;
/// where it fails, it is by a fault of the instruction.
pub proof fn lemma_bit_test_keeps_gas(m: Machine, p: Pipeline, change: BitChange)
    ensures
        bit_test_effect(m, p, change).0.gas_remaining == m.gas_remaining,
        bit_test_effect(m, p, change).0.costs == m.costs,
        fails_by_fault(bit_test_effect(m, p, change).1),
{
    broadcast use {
        lemma_set_mem_frame,
        lemma_set_arg_frame,
        lemma_get_mem_faults,
        lemma_set_mem_faults,
        lemma_get_arg_faults,
        lemma_get_arg_lea_faults,
        lemma_set_arg_faults,
    };

}

/// What `bit_scan_effect` describes leaves the gas and the costs as they are;
/// where it fails, it is by a fault of the instruction.
pub proof fn lemma_bit_scan_keeps_gas(m: Machine, p: Pipeline, forward: bool)
    ensures
        bit_scan_effect(m, p, forward).0.gas_remaining == m.gas_remaining,
        bit_scan_effect(m, p, forward).0.costs == m.costs,
        fails_by_fault(bit_scan_effect(m, p, forward).1),
{
    broadcast use {
        lemma_set_mem_frame,
        lemma_set_arg_frame,
        lemma_get_mem_faults,
        lemma_set_mem_faults,
        lemma_get_arg_faults,
        lemma_get_arg_lea_faults,
        lemma_set_arg_faults,
    };

}

/// What `movs_effect` describes leaves the gas and the costs as they are;
/// where it fails, it is by a fault of the instruction.
pub proof fn lemma_movs_keeps_gas(m: Machine, size: ValueSize)
    ensures
        movs_effect(m, size).0.gas_remaining == m.gas_remaining,
        movs_effect(m, size).0.costs == m.costs,
        fails_by_fault(movs_effect(m, size).1),
{
    broadcast use {
        lemma_set_mem_frame,
        lemma_set_arg_frame,
        lemma_get_mem_faults,
        lemma_set_mem_faults,
        lemma_get_arg_faults,
        lemma_get_arg_lea_faults,
        lemma_set_arg_faults,
    };

}

/// What `compare_strings_effect` describes leaves the gas and the costs as they are;
/// where it fails, it is by a fault of the instruction.
pub proof fn lemma_compare_strings_keeps_gas(m: Machine, size: ValueSize)
    ensures
        compare_strings_effect(m, size).0.gas_remaining == m.gas_remaining,
        compare_strings_effect(m, size).0.costs == m.costs,
        fails_by_fault(compare_strings_effect(m, size).1),
{
    broadcast use {
        lemma_set_mem_frame,
        lemma_set_arg_frame,
        lemma_get_mem_faults,
        lemma_set_mem_faults,
        lemma_get_arg_faults,
        lemma_get_arg_lea_faults,
        lemma_set_arg_faults,
    };

}

/// What `scan_string_effect` describes leaves the gas and the costs as they are;
/// where it fails, it is by a fault of the instruction.
pub proof fn lemma_scan_string_keeps_gas(m: Machine, size: ValueSize)
    ensures
        scan_string_effect(m, size).0.gas_remaining == m.gas_remaining,
        scan_string_effect(m, size).0.costs == m.costs,
        fails_by_fault(scan_string_effect(m, size).1),
{
    broadcast use {
        lemma_set_mem_frame,
        lemma_set_arg_frame,
        lemma_get_mem_faults,
        lemma_set_mem_faults,
        lemma_get_arg_faults,
        lemma_get_arg_lea_faults,
        lemma_set_arg_faults,
    };

}

/// What `load_string_effect` describes leaves the gas and the costs as they are;
/// where it fails, it is by a fault of the instruction.
pub proof fn lemma_load_string_keeps_gas(m: Machine, size: ValueSize)
    ensures
        load_string_effect(m, size).0.gas_remaining == m.gas_remaining,
        load_string_effect(m, size).0.costs == m.costs,
        fails_by_fault(load_string_effect(m, size).1),
{
    broadcast use {
        lemma_set_mem_frame,
        lemma_set_arg_frame,
        lemma_get_mem_faults,
        lemma_set_mem_faults,
        lemma_get_arg_faults,
        lemma_get_arg_lea_faults,
        lemma_set_arg_faults,
    };

}

/// What `store_string_effect` describes leaves the gas and the costs as they are;
/// where it fails, it is by a fault of the instruction.
pub proof fn lemma_store_string_keeps_gas(m: Machine, size: ValueSize)
    ensures
        store_string_effect(m, size).0.gas_remaining == m.gas_remaining,
        store_string_effect(m, size).0.costs == m.costs,
        fails_by_fault(store_string_effect(m, size).1),
{
    broadcast use {
        lemma_set_mem_frame,
        lemma_set_arg_frame,
        lemma_get_mem_faults,
        lemma_set_mem_faults,
        lemma_get_arg_faults,
        lemma_get_arg_lea_faults,
        lemma_set_arg_faults,
    };

}

/// What `hlt_effect` describes leaves the gas and the costs as they are.
pub proof fn lemma_hlt_keeps_gas(m: Machine)
    ensures
        hlt_effect(m).0.gas_remaining == m.gas_remaining,
        hlt_effect(m).0.costs == m.costs,
{
    broadcast use {lemma_set_mem_frame, lemma_set_arg_frame};

}

/// What `undefined_effect` describes leaves the gas and the costs as they are;
/// where it fails, it is by a fault of the instruction.
pub proof fn lemma_undefined_keeps_gas(m: Machine)
    ensures
        undefined_effect(m).0.gas_remaining == m.gas_remaining,
        undefined_effect(m).0.costs == m.costs,
        fails_by_fault(undefined_effect(m).1),
{
    broadcast use {
        lemma_set_mem_frame,
        lemma_set_arg_frame,
        lemma_get_mem_faults,
        lemma_set_mem_faults,
        lemma_get_arg_faults,
        lemma_get_arg_lea_faults,
        lemma_set_arg_faults,
    };

}

/// What `direction_effect` describes leaves the gas and the costs as they are;
/// where it fails, it is by a fault of the instruction.
pub proof fn lemma_direction_keeps_gas(m: Machine, backwards: bool)
    ensures
        direction_effect(m, backwards).0.gas_remaining == m.gas_remaining,
        direction_effect(m, backwards).0.costs == m.costs,
        fails_by_fault(direction_effect(m, backwards).1),
{
    broadcast use {
        lemma_set_mem_frame,
        lemma_set_arg_frame,
        lemma_get_mem_faults,
        lemma_set_mem_faults,
        lemma_get_arg_faults,
        lemma_get_arg_lea_faults,
        lemma_set_arg_faults,
    };

}

/// What `widen_effect` describes leaves the gas and the costs as they are;
/// where it fails, it is by a fault of the instruction.
pub proof fn lemma_widen_keeps_gas(m: Machine, p: Pipeline)
    ensures
        widen_effect(m, p).0.gas_remaining == m.gas_remaining,
        widen_effect(m, p).0.costs == m.costs,
        fails_by_fault(widen_effect(m, p).1),
{
    broadcast use {
        lemma_set_mem_frame,
        lemma_set_arg_frame,
        lemma_get_mem_faults,
        lemma_set_mem_faults,
        lemma_get_arg_faults,
        lemma_get_arg_lea_faults,
        lemma_set_arg_faults,
    };

}

/// What `spread_sign_effect` describes leaves the gas and the costs as they are;
/// where it fails, it is by a fault of the instruction.
pub proof fn lemma_spread_sign_keeps_gas(m: Machine, p: Pipeline)
    ensures
        spread_sign_effect(m, p).0.gas_remaining == m.gas_remaining,
        spread_sign_effect(m, p).0.costs == m.costs,
        fails_by_fault(spread_sign_effect(m, p).1),
{
    broadcast use {
        lemma_set_mem_frame,
        lemma_set_arg_frame,
        lemma_get_mem_faults,
        lemma_set_mem_faults,
        lemma_get_arg_faults,
        lemma_get_arg_lea_faults,
        lemma_set_arg_faults,
    };

}

/// What `exchange_add_effect` describes leaves the gas and the costs as they are;
/// where it fails, it is by a fault of the instruction.
pub proof fn lemma_exchange_add_keeps_gas(m: Machine, p: Pipeline, size: ValueSize)
    ensures
        exchange_add_effect(m, p, size).0.gas_remaining == m.gas_remaining,
        exchange_add_effect(m, p, size).0.costs == m.costs,
        fails_by_fault(exchange_add_effect(m, p, size).1),
{
    broadcast use {
        lemma_set_mem_frame,
        lemma_set_arg_frame,
        lemma_get_mem_faults,
        lemma_set_mem_faults,
        lemma_get_arg_faults,
        lemma_get_arg_lea_faults,
        lemma_set_arg_faults,
    };

}

/// What `compare_exchange_effect` describes leaves the gas and the costs as they are;
/// where it fails, it is by a fault of the instruction.
pub proof fn lemma_compare_exchange_keeps_gas(m: Machine, p: Pipeline, size: ValueSize)
    ensures
        compare_exchange_effect(m, p, size).0.gas_remaining == m.gas_remaining,
        compare_exchange_effect(m, p, size).0.costs == m.costs,
        fails_by_fault(compare_exchange_effect(m, p, size).1),
{
    broadcast use {
        lemma_set_mem_frame,
        lemma_set_arg_frame,
        lemma_get_mem_faults,
        lemma_set_mem_faults,
        lemma_get_arg_faults,
        lemma_get_arg_lea_faults,
        lemma_set_arg_faults,
    };

}

/// What `leave_effect` describes leaves the gas and the costs as they are;
/// where it fails, it is by a fault of the instruction.
pub proof fn lemma_leave_keeps_gas(m: Machine, p: Pipeline)
    ensures
        leave_effect(m, p).0.gas_remaining == m.gas_remaining,
        leave_effect(m, p).0.costs == m.costs,
        fails_by_fault(leave_effect(m, p).1),
{
    broadcast use {
        lemma_set_mem_frame,
        lemma_set_arg_frame,
        lemma_get_mem_faults,
        lemma_set_mem_faults,
        lemma_get_arg_faults,
        lemma_get_arg_lea_faults,
        lemma_set_arg_faults,
    };

}

/// What `enter_effect` describes leaves the gas and the costs as they are;
/// where it fails, it is by a fault of the instruction.
pub proof fn lemma_enter_keeps_gas(m: Machine, p: Pipeline)
    ensures
        enter_effect(m, p).0.gas_remaining == m.gas_remaining,
        enter_effect(m, p).0.costs == m.costs,
        fails_by_fault(enter_effect(m, p).1),
{
    broadcast use {
        lemma_set_mem_frame,
        lemma_set_arg_frame,
        lemma_get_mem_faults,
        lemma_set_mem_faults,
        lemma_get_arg_faults,
        lemma_get_arg_lea_faults,
        lemma_set_arg_faults,
    };

}

/// No instruction refunds gas: whatever a handler does, the gas is no more
/// after it than before it; and less only after a repeated string
/// instruction, whose steps are charged one by one. The costs stay as they
/// are. Only a repeated string instruction runs out of gas by itself, and
/// `hlt` is the one instruction that halts the machine. Of the handler of
/// `int` this holds as far as `handler_effect` speaks of it.
#[verifier::rlimit(30)]
pub proof fn lemma_handler_gas(m: Machine, p: Pipeline)
    ensures
        handler_effect(m, p).0.gas_remaining <= m.gas_remaining,
        handler_effect(m, p).0.costs == m.costs,
        p.function != OpcodeFn::Repe && p.function != OpcodeFn::Repne ==> handler_effect(
            m,
            p,
        ).0.gas_remaining == m.gas_remaining,
        handler_effect(m, p).1 == Err::<(), VMError>(VMError::OutOfGas) ==> p.function
            == OpcodeFn::Repe || p.function == OpcodeFn::Repne,
        handler_effect(m, p).1 == Err::<(), VMError>(VMError::InternalVMStop) <==> p.function
            == OpcodeFn::Hlt,
{
    match p.function {
        OpcodeFn::Nop => {},
        OpcodeFn::OpUndefined => lemma_undefined_keeps_gas(m),
        OpcodeFn::Interrupt => {
            broadcast use lemma_get_arg_faults;

        },
        OpcodeFn::Mov => lemma_mov_keeps_gas(m, p),
        OpcodeFn::Push => lemma_push_keeps_gas(m, p),
        OpcodeFn::Pop => lemma_pop_keeps_gas(m, p),
        OpcodeFn::Xchg => lemma_xchg_keeps_gas(m, p),
        OpcodeFn::Ret => lemma_ret_keeps_gas(m, p),
        OpcodeFn::CallRel => lemma_call_rel_keeps_gas(m, p),
        OpcodeFn::CallAbs => lemma_call_abs_keeps_gas(m, p),
        OpcodeFn::JmpRel => lemma_jmp_rel_keeps_gas(m, p),
        OpcodeFn::JmpAbs => lemma_jmp_abs_keeps_gas(m, p),
        OpcodeFn::JmpConditionalEcxIsZero => lemma_branch_keeps_gas(
            m,
            p,
            counter(m, p.size_override) == 0,
        ),
        OpcodeFn::Jcc => lemma_branch_keeps_gas(m, p, condition_holds(p.opcode, m.flags)),
        OpcodeFn::Div8bit => lemma_divide_keeps_gas(m, p, ValueSize::Byte, false),
        OpcodeFn::DivNativeWord => lemma_divide_keeps_gas(
            m,
            p,
            native_size(p.size_override),
            false,
        ),
        OpcodeFn::Idiv8bit => lemma_divide_keeps_gas(m, p, ValueSize::Byte, true),
        OpcodeFn::IdivNativeWord => lemma_divide_keeps_gas(
            m,
            p,
            native_size(p.size_override),
            true,
        ),
        OpcodeFn::Mul8bit => lemma_multiply_keeps_gas(m, p, ValueSize::Byte, false),
        OpcodeFn::MulNativeWord => lemma_multiply_keeps_gas(
            m,
            p,
            native_size(p.size_override),
            false,
        ),
        OpcodeFn::Imul1Arg8bit => lemma_multiply_keeps_gas(m, p, ValueSize::Byte, true),
        OpcodeFn::Imul1NativeWord => lemma_multiply_keeps_gas(
            m,
            p,
            native_size(p.size_override),
            true,
        ),
        OpcodeFn::Imul2NativeWord => lemma_signed_multiply_keeps_gas(
            m,
            p,
            native_size(p.size_override),
            false,
        ),
        OpcodeFn::Imul3NativeWord => lemma_signed_multiply_keeps_gas(
            m,
            p,
            native_size(p.size_override),
            true,
        ),
        OpcodeFn::Shl8bit => lemma_shift_keeps_gas(m, p, true, ValueSize::Byte),
        OpcodeFn::ShlNativeWord => lemma_shift_keeps_gas(m, p, true, native_size(p.size_override)),
        OpcodeFn::Shr8bit => lemma_shift_keeps_gas(m, p, false, ValueSize::Byte),
        OpcodeFn::ShrNativeWord => lemma_shift_keeps_gas(m, p, false, native_size(p.size_override)),
        OpcodeFn::Add8bit => lemma_arithmetic_keeps_gas(
            m,
            p,
            Arithmetic::Add,
            ValueSize::Byte,
            true,
        ),
        OpcodeFn::AddNativeWord => lemma_arithmetic_keeps_gas(
            m,
            p,
            Arithmetic::Add,
            native_size(p.size_override),
            true,
        ),
        OpcodeFn::Hlt => lemma_hlt_keeps_gas(m),
        OpcodeFn::Adc8bit => lemma_arithmetic_keeps_gas(
            m,
            p,
            Arithmetic::AddWithCarry,
            ValueSize::Byte,
            true,
        ),
        OpcodeFn::AdcNativeWord => lemma_arithmetic_keeps_gas(
            m,
            p,
            Arithmetic::AddWithCarry,
            native_size(p.size_override),
            true,
        ),
        OpcodeFn::Increment8bit => lemma_unary_keeps_gas(m, p, Unary::Increment, ValueSize::Byte),
        OpcodeFn::IncrementNativeWord => lemma_unary_keeps_gas(
            m,
            p,
            Unary::Increment,
            native_size(p.size_override),
        ),
        OpcodeFn::Sub8bit => lemma_arithmetic_keeps_gas(
            m,
            p,
            Arithmetic::Subtract,
            ValueSize::Byte,
            true,
        ),
        OpcodeFn::SubNativeWord => lemma_arithmetic_keeps_gas(
            m,
            p,
            Arithmetic::Subtract,
            native_size(p.size_override),
            true,
        ),
        OpcodeFn::Sbb8bit => lemma_arithmetic_keeps_gas(
            m,
            p,
            Arithmetic::SubtractWithBorrow,
            ValueSize::Byte,
            true,
        ),
        OpcodeFn::SbbNativeWord => lemma_arithmetic_keeps_gas(
            m,
            p,
            Arithmetic::SubtractWithBorrow,
            native_size(p.size_override),
            true,
        ),
        OpcodeFn::Decrement8bit => lemma_unary_keeps_gas(m, p, Unary::Decrement, ValueSize::Byte),
        OpcodeFn::DecrementNativeWord => lemma_unary_keeps_gas(
            m,
            p,
            Unary::Decrement,
            native_size(p.size_override),
        ),
        OpcodeFn::Cmp8bit => lemma_arithmetic_keeps_gas(
            m,
            p,
            Arithmetic::Subtract,
            ValueSize::Byte,
            false,
        ),
        OpcodeFn::CmpNativeWord => lemma_arithmetic_keeps_gas(
            m,
            p,
            Arithmetic::Subtract,
            native_size(p.size_override),
            false,
        ),
        OpcodeFn::Test8bit => lemma_arithmetic_keeps_gas(
            m,
            p,
            Arithmetic::And,
            ValueSize::Byte,
            false,
        ),
        OpcodeFn::TestNativeWord => lemma_arithmetic_keeps_gas(
            m,
            p,
            Arithmetic::And,
            native_size(p.size_override),
            false,
        ),
        OpcodeFn::And8bit => lemma_arithmetic_keeps_gas(
            m,
            p,
            Arithmetic::And,
            ValueSize::Byte,
            true,
        ),
        OpcodeFn::AndNativeWord => lemma_arithmetic_keeps_gas(
            m,
            p,
            Arithmetic::And,
            native_size(p.size_override),
            true,
        ),
        OpcodeFn::Or8bit => lemma_arithmetic_keeps_gas(m, p, Arithmetic::Or, ValueSize::Byte, true),
        OpcodeFn::OrNativeWord => lemma_arithmetic_keeps_gas(
            m,
            p,
            Arithmetic::Or,
            native_size(p.size_override),
            true,
        ),
        OpcodeFn::Xor8bit => lemma_arithmetic_keeps_gas(
            m,
            p,
            Arithmetic::Xor,
            ValueSize::Byte,
            true,
        ),
        OpcodeFn::XorNativeWord => lemma_arithmetic_keeps_gas(
            m,
            p,
            Arithmetic::Xor,
            native_size(p.size_override),
            true,
        ),
        OpcodeFn::Not8bit => lemma_unary_keeps_gas(m, p, Unary::Not, ValueSize::Byte),
        OpcodeFn::NotNativeWord => lemma_unary_keeps_gas(
            m,
            p,
            Unary::Not,
            native_size(p.size_override),
        ),
        OpcodeFn::Neg8bit => lemma_unary_keeps_gas(m, p, Unary::Negate, ValueSize::Byte),
        OpcodeFn::NegNativeWord => lemma_unary_keeps_gas(
            m,
            p,
            Unary::Negate,
            native_size(p.size_override),
        ),
        OpcodeFn::Setcc8bit => lemma_setcc_keeps_gas(m, p),
        OpcodeFn::CmovccNative => lemma_cmovcc_keeps_gas(m, p),
        OpcodeFn::Lea => lemma_lea_keeps_gas(m, p),
        OpcodeFn::Movzx8bit => lemma_extend_keeps_gas(m, p, native_size(p.size_override), false),
        OpcodeFn::Movzx16bit => lemma_extend_keeps_gas(m, p, ValueSize::Dword, false),
        OpcodeFn::Movsx8bit => lemma_extend_keeps_gas(m, p, native_size(p.size_override), true),
        OpcodeFn::Movsx16bit => lemma_extend_keeps_gas(m, p, ValueSize::Dword, true),
        OpcodeFn::Bswap => lemma_bswap_keeps_gas(m, p),
        OpcodeFn::BitTest => lemma_bit_test_keeps_gas(m, p, BitChange::Keep),
        OpcodeFn::BitTestSet => lemma_bit_test_keeps_gas(m, p, BitChange::Raise),
        OpcodeFn::BitTestReset => lemma_bit_test_keeps_gas(m, p, BitChange::Clear),
        OpcodeFn::BitTestComplement => lemma_bit_test_keeps_gas(m, p, BitChange::Complement),
        OpcodeFn::BitScanForward => lemma_bit_scan_keeps_gas(m, p, true),
        OpcodeFn::BitScanReverse => lemma_bit_scan_keeps_gas(m, p, false),
        OpcodeFn::Repe => {
            lemma_repetition_gas(m, p, Some(false), counter(m, p.size_override) as nat);
            lemma_repetition_gas(m, p, Some(true), counter(m, p.size_override) as nat);
            lemma_repetition_gas(m, p, None, counter(m, p.size_override) as nat);
        },
        OpcodeFn::Repne => {
            lemma_repetition_gas(m, p, Some(false), counter(m, p.size_override) as nat);
            lemma_repetition_gas(m, p, Some(true), counter(m, p.size_override) as nat);
            lemma_repetition_gas(m, p, None, counter(m, p.size_override) as nat);
        },
        OpcodeFn::MovsNativeWord => lemma_movs_keeps_gas(m, native_size(p.size_override)),
        OpcodeFn::Movsb => lemma_movs_keeps_gas(m, ValueSize::Byte),
        OpcodeFn::CmpsNativeWord => lemma_compare_strings_keeps_gas(
            m,
            native_size(p.size_override),
        ),
        OpcodeFn::Cmpsb => lemma_compare_strings_keeps_gas(m, ValueSize::Byte),
        OpcodeFn::ScanStringNativeWord => lemma_scan_string_keeps_gas(
            m,
            native_size(p.size_override),
        ),
        OpcodeFn::ScanStringByte => lemma_scan_string_keeps_gas(m, ValueSize::Byte),
        OpcodeFn::StoreStringNativeWord => lemma_store_string_keeps_gas(
            m,
            native_size(p.size_override),
        ),
        OpcodeFn::StoreStringByte => lemma_store_string_keeps_gas(m, ValueSize::Byte),
        OpcodeFn::LoadStringNativeWord => lemma_load_string_keeps_gas(
            m,
            native_size(p.size_override),
        ),
        OpcodeFn::LoadStringByte => lemma_load_string_keeps_gas(m, ValueSize::Byte),
        OpcodeFn::SetDirection => lemma_direction_keeps_gas(m, true),
        OpcodeFn::ClearDirection => lemma_direction_keeps_gas(m, false),
        OpcodeFn::CbwCwde => lemma_widen_keeps_gas(m, p),
        OpcodeFn::CdqCwd => lemma_spread_sign_keeps_gas(m, p),
        OpcodeFn::Xadd8bit => lemma_exchange_add_keeps_gas(m, p, ValueSize::Byte),
        OpcodeFn::XaddNativeWord => lemma_exchange_add_keeps_gas(
            m,
            p,
            native_size(p.size_override),
        ),
        OpcodeFn::Cmpxchg8bit => lemma_compare_exchange_keeps_gas(m, p, ValueSize::Byte),
        OpcodeFn::CmpxchgNativeWord => lemma_compare_exchange_keeps_gas(
            m,
            p,
            native_size(p.size_override),
        ),
        OpcodeFn::Leave => lemma_leave_keeps_gas(m, p),
        OpcodeFn::Enter => lemma_enter_keeps_gas(m, p),
    }
}

} // verus!
