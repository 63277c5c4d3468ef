use vstd::prelude::*;
use vstd::arithmetic::power2::{
    lemma2_to64, lemma2_to64_rest, lemma_pow2_pos, lemma_pow2_strictly_increases, lemma_pow2_unfold,
    pow2,
};
use vstd::bits::lemma_u64_shl_is_mul;
use crate::flags::{even_parity, X86Flags};
use crate::structs::ValueSize;

verus! {

/// The number that the bits of `v` stand for when they are read as a two's
/// complement number of width `size`.
pub open spec fn signed_value(v: int, size: ValueSize) -> int {
    if 2 * v >= size.modulus() {
        v - size.modulus()
    } else {
        v
    }
}

/// Whether `v` is in the range of the two's complement numbers of width `size`.
pub open spec fn fits_signed(v: int, size: ValueSize) -> bool {
    -size.modulus() <= 2 * v < size.modulus()
}

/// The top bit of a value of width `size`.
pub open spec fn top_bit(v: int, size: ValueSize) -> bool {
    2 * v >= size.modulus()
}

/// 1 where the flag is set, else 0.
pub open spec fn bit_value(b: bool) -> int {
    if b {
        1
    } else {
        0
    }
}

/// The flags after an operation gave `r` at width `size`: zero, sign and
/// parity are those of `r`, the others stay.
pub open spec fn result_flags(f: X86Flags, r: int, size: ValueSize) -> X86Flags {
    X86Flags { zero: r == 0, sign: top_bit(r, size), parity: even_parity(r), ..f }
}

/// The sum of `a`, `b` and the carry `c` at width `size`.
pub open spec fn add_result(a: int, b: int, c: int, size: ValueSize) -> int {
    (a + b + c) % size.modulus()
}

/// The flags after `a + b + c` at width `size`: carry where the unsigned
/// sum is too large for the width, overflow where the signed sum is out of
/// range, adjust where the low four bits carry.
pub open spec fn add_flags(f: X86Flags, a: int, b: int, c: int, size: ValueSize) -> X86Flags {
    X86Flags {
        carry: a + b + c >= size.modulus(),
        overflow: !fits_signed(signed_value(a, size) + signed_value(b, size) + c, size),
        adjust: a % 16 + b % 16 + c > 15,
        ..result_flags(f, add_result(a, b, c, size), size)
    }
}

/// The difference of `a` and `b` less the borrow `c`, at width `size`.
pub open spec fn sub_result(a: int, b: int, c: int, size: ValueSize) -> int {
    (a - b - c) % size.modulus()
}

/// The flags after `a - b - c` at width `size`: carry where the unsigned
/// difference borrows, overflow where the signed difference is out of
/// range, adjust where the low four bits borrow.
pub open spec fn sub_flags(f: X86Flags, a: int, b: int, c: int, size: ValueSize) -> X86Flags {
    X86Flags {
        carry: a - b - c < 0,
        overflow: !fits_signed(signed_value(a, size) - signed_value(b, size) - c, size),
        adjust: a % 16 - b % 16 - c < 0,
        ..result_flags(f, sub_result(a, b, c, size), size)
    }
}

/// The flags after a bitwise operation gave `r`: carry, overflow and
/// adjust are clear.
pub open spec fn logic_flags(f: X86Flags, r: int, size: ValueSize) -> X86Flags {
    X86Flags { carry: false, overflow: false, adjust: false, ..result_flags(f, r, size) }
}

/// The flags after `a` was negated at width `size`: carry unless `a` is 0,
/// overflow where `a` is the least signed number, whose negation does not exist.
pub open spec fn neg_flags(f: X86Flags, a: int, size: ValueSize) -> X86Flags {
    X86Flags {
        carry: a != 0,
        overflow: 2 * a == size.modulus(),
        ..result_flags(f, sub_result(0, a, 0, size), size)
    }
}

/// A number less than one modulus away from the range of a width wraps by
/// one modulus at most.
pub proof fn lemma_wrap_once(x: int, size: ValueSize)
    requires
        -size.modulus() <= x < 2 * size.modulus(),
    ensures
        x % size.modulus() == if x < 0 {
            x + size.modulus()
        } else if x < size.modulus() {
            x
        } else {
            x - size.modulus()
        },
{
    match size {
        ValueSize::Zero => {
            assert(x % 1 == 0);
        },
        ValueSize::Byte => {
            assert(x % 0x100 == if x < 0 {
                x + 0x100
            } else if x < 0x100 {
                x
            } else {
                x - 0x100
            });
        },
        ValueSize::Word => {
            assert(x % 0x1_0000 == if x < 0 {
                x + 0x1_0000
            } else if x < 0x1_0000 {
                x
            } else {
                x - 0x1_0000
            });
        },
        ValueSize::Dword => {
            assert(x % 0x1_0000_0000 == if x < 0 {
                x + 0x1_0000_0000
            } else if x < 0x1_0000_0000 {
                x
            } else {
                x - 0x1_0000_0000
            });
        },
        ValueSize::Qword => {
            assert(x % 0x1_0000_0000_0000_0000 == if x < 0 {
                x + 0x1_0000_0000_0000_0000
            } else if x < 0x1_0000_0000_0000_0000 {
                x
            } else {
                x - 0x1_0000_0000_0000_0000
            });
        },
    }
}

/// The top bit of a value of a width, written as a division.
pub proof fn lemma_top_bit(r: int, size: ValueSize)
    requires
        size.is_operand(),
        0 <= r < size.modulus(),
    ensures
        top_bit(r, size) == (r / (size.modulus() / 2) % 2 == 1),
{
    match size {
        ValueSize::Byte => {
            assert(top_bit(r, size) == (r / 0x80 % 2 == 1));
        },
        ValueSize::Word => {
            assert(top_bit(r, size) == (r / 0x8000 % 2 == 1));
        },
        _ => {
            assert(top_bit(r, size) == (r / 0x8000_0000 % 2 == 1));
        },
    }
}

/// The flags of an addition are what the architecture defines. After `a +
/// b` at a width of 8, 16 or 32 bits the carry flag says that the sum is
/// greater than the greatest unsigned number of the width; the overflow
/// flag that the sum of the operands as signed numbers is out of the
/// signed range of the width; the zero flag that the sum is 0 modulo two
/// to the width; the sign flag is the top bit of the result; and the
/// parity flag is the parity of its low byte.
pub proof fn lemma_add_flags(f: X86Flags, a: int, b: int, size: ValueSize)
    requires
        size.is_operand(),
        0 <= a < size.modulus(),
        0 <= b < size.modulus(),
    ensures
        0 <= add_result(a, b, 0, size) < size.modulus(),
        add_flags(f, a, b, 0, size).carry == (a + b > size.modulus() - 1),
        add_flags(f, a, b, 0, size).overflow == (signed_value(a, size) + signed_value(b, size)
            > size.modulus() / 2 - 1 || signed_value(a, size) + signed_value(b, size) < -(
        size.modulus() / 2)),
        add_flags(f, a, b, 0, size).zero == ((a + b) % size.modulus() == 0),
        add_flags(f, a, b, 0, size).sign == (add_result(a, b, 0, size) / (size.modulus() / 2) % 2
            == 1),
        add_flags(f, a, b, 0, size).parity == even_parity(add_result(a, b, 0, size)),
        add_flags(f, a, b, 0, size).trap == f.trap,
        add_flags(f, a, b, 0, size).interrupt == f.interrupt,
        add_flags(f, a, b, 0, size).direction == f.direction,
{
    lemma_wrap_once(a + b, size);
    lemma_top_bit(add_result(a, b, 0, size), size);
}

/// The flags of a subtraction, and of a comparison, are what the
/// architecture defines. After `a - b` at a width of 8, 16 or 32 bits the
/// carry flag says that the subtraction borrows, `a` being less than `b`;
/// the overflow flag that the difference of the operands as signed numbers
/// is out of the signed range of the width; the zero flag that the
/// operands are equal; the sign flag is the top bit of the result; and
/// the parity flag is the parity of its low byte.
pub proof fn lemma_sub_flags(f: X86Flags, a: int, b: int, size: ValueSize)
    requires
        size.is_operand(),
        0 <= a < size.modulus(),
        0 <= b < size.modulus(),
    ensures
        0 <= sub_result(a, b, 0, size) < size.modulus(),
        sub_flags(f, a, b, 0, size).carry == (a < b),
        sub_flags(f, a, b, 0, size).overflow == (signed_value(a, size) - signed_value(b, size)
            > size.modulus() / 2 - 1 || signed_value(a, size) - signed_value(b, size) < -(
        size.modulus() / 2)),
        sub_flags(f, a, b, 0, size).zero == (a == b),
        sub_flags(f, a, b, 0, size).sign == (sub_result(a, b, 0, size) / (size.modulus() / 2) % 2
            == 1),
        sub_flags(f, a, b, 0, size).parity == even_parity(sub_result(a, b, 0, size)),
        sub_flags(f, a, b, 0, size).trap == f.trap,
        sub_flags(f, a, b, 0, size).interrupt == f.interrupt,
        sub_flags(f, a, b, 0, size).direction == f.direction,
{
    lemma_wrap_once(a - b, size);
    lemma_top_bit(sub_result(a, b, 0, size), size);
}

/// The flags of `and`, `or`, `xor` and `test` are what the architecture
/// defines: carry and overflow are clear, the zero flag says that the
/// result is 0, the sign flag is the top bit of the result, and the
/// parity flag is the parity of its low byte.
pub proof fn lemma_logic_flags(f: X86Flags, op: Logic, a: u32, b: u32, size: ValueSize)
    requires
        size.is_operand(),
        a < size.modulus(),
        b < size.modulus(),
    ensures
        logic_result(op, a, b) < size.modulus(),
        !logic_flags(f, logic_result(op, a, b) as int, size).carry,
        !logic_flags(f, logic_result(op, a, b) as int, size).overflow,
        logic_flags(f, logic_result(op, a, b) as int, size).zero == (logic_result(op, a, b) == 0),
        logic_flags(f, logic_result(op, a, b) as int, size).sign == (logic_result(op, a, b) as int
            / (size.modulus() / 2) % 2 == 1),
        logic_flags(f, logic_result(op, a, b) as int, size).parity == even_parity(
            logic_result(op, a, b) as int,
        ),
        logic_flags(f, logic_result(op, a, b) as int, size).direction == f.direction,
{
    lemma_logic_in_range(op, a, b, size);
    lemma_top_bit(logic_result(op, a, b) as int, size);
}

/// The number of values of an operand width.
pub fn modulus_of(size: ValueSize) -> (r: u64)
    requires
        size.is_operand(),
    ensures
        r == size.modulus(),
{
    match size {
        ValueSize::Byte => 0x100,
        ValueSize::Word => 0x1_0000,
        _ => 0x1_0000_0000,
    }
}

/// The two's complement reading of `v` at width `size`.
pub fn to_signed(v: u32, size: ValueSize) -> (r: i64)
    requires
        size.is_operand(),
        v < size.modulus(),
    ensures
        r == signed_value(v as int, size),
        fits_signed(r as int, size),
{
    let m: u64 = modulus_of(size);
    if 2 * (v as u64) >= m {
        v as i64 - m as i64
    } else {
        v as i64
    }
}

/// Whether `v` is in the signed range of width `size`.
pub fn in_signed_range(v: i64, size: ValueSize) -> (r: bool)
    requires
        size.is_operand(),
        -0x2_0000_0000 <= v <= 0x2_0000_0000,
    ensures
        r == fits_signed(v as int, size),
{
    let m: i64 = modulus_of(size) as i64;
    -m <= 2 * v && 2 * v < m
}

/// Zero, sign and parity of the result `r`.
pub fn with_result_flags(f: X86Flags, r: u32, size: ValueSize) -> (g: X86Flags)
    requires
        size.is_operand(),
        r < size.modulus(),
    ensures
        g == result_flags(f, r as int, size),
{
    let mut g = f;
    g.calculate_zero(r);
    g.calculate_parity(r);
    g.sign = 2 * (r as u64) >= modulus_of(size);
    g
}

/// Adds `b` and the carry to `a` at width `size`.
#[verifier::rlimit(30)]
pub fn add_with_flags(f: X86Flags, a: u32, b: u32, carry_in: bool, size: ValueSize) -> (r: (
    u32,
    X86Flags,
))
    requires
        size.is_operand(),
        a < size.modulus(),
        b < size.modulus(),
    ensures
        r.0 == add_result(a as int, b as int, bit_value(carry_in), size),
        r.1 == add_flags(f, a as int, b as int, bit_value(carry_in), size),
        r.0 < size.modulus(),
{
    let m: u64 = modulus_of(size);
    let c: u64 = if carry_in {
        1
    } else {
        0
    };
    let sum: u64 = a as u64 + b as u64 + c;
    let result: u32 = (sum % m) as u32;
    proof {
        lemma_wrap_once(a + b + c, size);
    }
    let signed_sum: i64 = to_signed(a, size) + to_signed(b, size) + c as i64;
    let mut g = with_result_flags(f, result, size);
    g.carry = sum >= m;
    g.overflow = !in_signed_range(signed_sum, size);
    g.adjust = a % 16 + b % 16 + c as u32 > 15;
    (result, g)
}

/// Subtracts `b` and the borrow from `a` at width `size`.
#[verifier::rlimit(30)]
pub fn sub_with_flags(f: X86Flags, a: u32, b: u32, borrow_in: bool, size: ValueSize) -> (r: (
    u32,
    X86Flags,
))
    requires
        size.is_operand(),
        a < size.modulus(),
        b < size.modulus(),
    ensures
        r.0 == sub_result(a as int, b as int, bit_value(borrow_in), size),
        r.1 == sub_flags(f, a as int, b as int, bit_value(borrow_in), size),
        r.0 < size.modulus(),
{
    let m: u64 = modulus_of(size);
    let c: u64 = if borrow_in {
        1
    } else {
        0
    };
    let borrows: bool = (a as u64) < b as u64 + c;
    let result: u32 = if borrows {
        (a as u64 + m - b as u64 - c) as u32
    } else {
        (a as u64 - b as u64 - c) as u32
    };
    proof {
        lemma_wrap_once(a - b - c, size);
    }
    let signed_difference: i64 = to_signed(a, size) - to_signed(b, size) - c as i64;
    let mut g = with_result_flags(f, result, size);
    g.carry = borrows;
    g.overflow = !in_signed_range(signed_difference, size);
    g.adjust = a % 16 < b % 16 + c as u32;
    (result, g)
}

/// Negates `a` at width `size`.
pub fn neg_with_flags(f: X86Flags, a: u32, size: ValueSize) -> (r: (u32, X86Flags))
    requires
        size.is_operand(),
        a < size.modulus(),
    ensures
        r.0 == sub_result(0, a as int, 0, size),
        r.1 == neg_flags(f, a as int, size),
        r.0 < size.modulus(),
{
    let m: u64 = modulus_of(size);
    let result: u32 = if a == 0 {
        0
    } else {
        (m - a as u64) as u32
    };
    proof {
        lemma_wrap_once(0 - a, size);
    }
    let mut g = with_result_flags(f, result, size);
    g.carry = a != 0;
    g.overflow = 2 * (a as u64) == m;
    (result, g)
}

/// The bitwise operations of two operands.
#[derive(PartialEq, Eq, Copy, Clone, Debug)]
pub enum Logic {
    And,
    Or,
    Xor,
}

/// The result of a bitwise operation.
pub open spec fn logic_result(op: Logic, a: u32, b: u32) -> u32 {
    match op {
        Logic::And => a & b,
        Logic::Or => a | b,
        Logic::Xor => a ^ b,
    }
}

/// A bitwise operation on values of a width stays within the width.
pub proof fn lemma_logic_in_range(op: Logic, a: u32, b: u32, size: ValueSize)
    requires
        size.is_operand(),
        a < size.modulus(),
        b < size.modulus(),
    ensures
        logic_result(op, a, b) < size.modulus(),
{
    assert(a < 0x100 && b < 0x100 ==> (a & b) < 0x100 && (a | b) < 0x100 && (a ^ b) < 0x100)
        by (bit_vector);
    assert(a < 0x1_0000 && b < 0x1_0000 ==> (a & b) < 0x1_0000 && (a | b) < 0x1_0000 && (a ^ b)
        < 0x1_0000) by (bit_vector);
}

/// Combines `a` and `b` bit by bit.
pub fn logic_with_flags(f: X86Flags, op: Logic, a: u32, b: u32, size: ValueSize) -> (r: (
    u32,
    X86Flags,
))
    requires
        size.is_operand(),
        a < size.modulus(),
        b < size.modulus(),
    ensures
        r.0 == logic_result(op, a, b),
        r.1 == logic_flags(f, logic_result(op, a, b) as int, size),
        r.0 < size.modulus(),
{
    let result: u32 = match op {
        Logic::And => a & b,
        Logic::Or => a | b,
        Logic::Xor => a ^ b,
    };
    proof {
        lemma_logic_in_range(op, a, b, size);
    }
    let mut g = with_result_flags(f, result, size);
    g.carry = false;
    g.overflow = false;
    g.adjust = false;
    (result, g)
}

/// The value with every bit of the width inverted.
pub open spec fn not_result(a: int, size: ValueSize) -> int {
    size.modulus() - 1 - a
}

/// Inverts every bit of `a` at width `size`.
pub fn invert(a: u32, size: ValueSize) -> (r: u32)
    requires
        size.is_operand(),
        a < size.modulus(),
    ensures
        r == not_result(a as int, size),
        r < size.modulus(),
{
    (modulus_of(size) - 1 - a as u64) as u32
}

/// The number of values of twice the width: what a product or a dividend can hold.
pub open spec fn wide_modulus(size: ValueSize) -> int {
    match size {
        ValueSize::Byte => 0x1_0000,
        ValueSize::Word => 0x1_0000_0000,
        ValueSize::Dword => 0x1_0000_0000_0000_0000,
        _ => 1,
    }
}

/// The number that `v` stands for when it is read as a two's complement
/// number of twice the width `size`.
pub open spec fn signed_wide(v: int, size: ValueSize) -> int {
    if 2 * v >= wide_modulus(size) {
        v - wide_modulus(size)
    } else {
        v
    }
}

/// The bits of the signed product of `a` and `b`, at twice their width.
pub open spec fn signed_product_bits(a: int, b: int, size: ValueSize) -> int {
    (signed_value(a, size) * signed_value(b, size)) % wide_modulus(size)
}

/// The product of two numbers below `m` is below `m * m`.
proof fn lemma_product_bound(a: int, b: int, m: int)
    requires
        0 <= a < m,
        0 <= b < m,
    ensures
        0 <= a * b <= (m - 1) * (m - 1),
        a * b < m * m,
{
    assert(0 <= a * b <= (m - 1) * (m - 1)) by (nonlinear_arith)
        requires
            0 <= a < m,
            0 <= b < m,
    ;
    assert((m - 1) * (m - 1) < m * m) by (nonlinear_arith)
        requires
            m > 0,
    ;
}

/// Multiplies two unsigned numbers of width `size`: the low half of the
/// product, then its high half.
pub fn mul_unsigned(a: u32, b: u32, size: ValueSize) -> (r: (u32, u32))
    requires
        size.is_operand(),
        a < size.modulus(),
        b < size.modulus(),
    ensures
        r.0 == a * b % size.modulus(),
        r.1 == a * b / size.modulus(),
        r.0 < size.modulus(),
        r.1 < size.modulus(),
{
    let m: u64 = modulus_of(size);
    proof {
        lemma_product_bound(a as int, b as int, m as int);
        assert(m * m <= 0x1_0000_0000 * 0x1_0000_0000) by (nonlinear_arith)
            requires
                0 <= m <= 0x1_0000_0000,
        ;
    }
    let product: u64 = a as u64 * b as u64;
    assert(product / m < m) by (nonlinear_arith)
        requires
            product < m * m,
            m > 0,
    ;
    ((product % m) as u32, (product / m) as u32)
}

/// The magnitude of a signed number of width `size`.
fn magnitude(v: u32, size: ValueSize) -> (r: u64)
    requires
        size.is_operand(),
        v < size.modulus(),
    ensures
        r == if signed_value(v as int, size) < 0 {
            -signed_value(v as int, size)
        } else {
            signed_value(v as int, size)
        },
        2 * r <= size.modulus(),
{
    let m: u64 = modulus_of(size);
    if 2 * (v as u64) >= m {
        m - v as u64
    } else {
        v as u64
    }
}

/// Whether a number of width `size` is negative when read as two's complement.
fn is_negative(v: u32, size: ValueSize) -> (r: bool)
    requires
        size.is_operand(),
        v < size.modulus(),
    ensures
        r == (signed_value(v as int, size) < 0),
{
    2 * (v as u64) >= modulus_of(size)
}

/// Multiplies two signed numbers of width `size`: the low half of the
/// product's bits, then the high half.
#[verifier::rlimit(30)]
pub fn mul_signed(a: u32, b: u32, size: ValueSize) -> (r: (u32, u32))
    requires
        size.is_operand(),
        a < size.modulus(),
        b < size.modulus(),
    ensures
        r.0 == signed_product_bits(a as int, b as int, size) % size.modulus(),
        r.1 == signed_product_bits(a as int, b as int, size) / size.modulus(),
        r.0 < size.modulus(),
        r.1 < size.modulus(),
{
    let m: u64 = modulus_of(size);
    let x: u64 = magnitude(a, size);
    let y: u64 = magnitude(b, size);
    let negative: bool = is_negative(a, size) != is_negative(b, size);
    let ghost sa = signed_value(a as int, size);
    let ghost sb = signed_value(b as int, size);
    assert(0 <= x * y <= 0x8000_0000 * 0x8000_0000) by (nonlinear_arith)
        requires
            0 <= x <= 0x8000_0000,
            0 <= y <= 0x8000_0000,
    ;
    assert(4 * (x * y) <= m * m) by (nonlinear_arith)
        requires
            0 <= 2 * x <= m,
            0 <= 2 * y <= m,
    ;
    let p: u64 = x * y;
    assert(sa * sb == if negative {
        -(x * y)
    } else {
        x * y
    }) by (nonlinear_arith)
        requires
            x == (if sa < 0 {
                -sa
            } else {
                sa
            }),
            y == (if sb < 0 {
                -sb
            } else {
                sb
            }),
            negative == ((sa < 0) != (sb < 0)),
    ;
    let bits: u64 = if negative && p != 0 {
        match size {
            ValueSize::Byte => 0x1_0000 - p,
            ValueSize::Word => 0x1_0000_0000 - p,
            _ => u64::MAX - p + 1,
        }
    } else {
        p
    };
    assert(bits == (sa * sb) % wide_modulus(size)) by {
        match size {
            ValueSize::Byte => {
                assert(m * m == 0x1_0000) by (nonlinear_arith)
                    requires
                        m == 0x100,
                ;
            },
            ValueSize::Word => {
                assert(m * m == 0x1_0000_0000) by (nonlinear_arith)
                    requires
                        m == 0x1_0000,
                ;
            },
            _ => {
                assert(m * m == 0x1_0000_0000_0000_0000) by (nonlinear_arith)
                    requires
                        m == 0x1_0000_0000,
                ;
            },
        }
    }
    assert(bits / m < m) by (nonlinear_arith)
        requires
            bits < m * m,
            m > 0,
    ;
    ((bits % m) as u32, (bits / m) as u32)
}

/// Whether the signed product of `a` and `b` is in the signed range of their width.
pub fn signed_product_fits(a: u32, b: u32, size: ValueSize) -> (r: bool)
    requires
        size.is_operand(),
        a < size.modulus(),
        b < size.modulus(),
    ensures
        r == fits_signed(signed_value(a as int, size) * signed_value(b as int, size), size),
{
    let m: u64 = modulus_of(size);
    let x: u64 = magnitude(a, size);
    let y: u64 = magnitude(b, size);
    let negative: bool = is_negative(a, size) != is_negative(b, size);
    let ghost sa = signed_value(a as int, size);
    let ghost sb = signed_value(b as int, size);
    assert(0 <= x * y <= 0x8000_0000 * 0x8000_0000) by (nonlinear_arith)
        requires
            0 <= x <= 0x8000_0000,
            0 <= y <= 0x8000_0000,
    ;
    let p: u64 = x * y;
    assert(sa * sb == if negative {
        -(x * y)
    } else {
        x * y
    }) by (nonlinear_arith)
        requires
            x == (if sa < 0 {
                -sa
            } else {
                sa
            }),
            y == (if sb < 0 {
                -sb
            } else {
                sb
            }),
            negative == ((sa < 0) != (sb < 0)),
    ;
    if negative {
        2 * p <= m
    } else {
        2 * p < m
    }
}

/// The quotient of `a` by `b`, rounded towards zero.
pub open spec fn trunc_div(a: int, b: int) -> int {
    if a >= 0 {
        if b > 0 {
            a / b
        } else {
            -(a / (-b))
        }
    } else {
        if b > 0 {
            -((-a) / b)
        } else {
            (-a) / (-b)
        }
    }
}

/// The remainder that `trunc_div` leaves: it has the sign of `a`.
pub open spec fn trunc_rem(a: int, b: int) -> int {
    if a >= 0 {
        if b > 0 {
            a % b
        } else {
            a % (-b)
        }
    } else {
        if b > 0 {
            -((-a) % b)
        } else {
            -((-a) % (-b))
        }
    }
}

/// What an unsigned division of the double-width number `high * modulus +
/// low` by `d` gives: quotient and remainder, unless `d` is 0 or the
/// quotient does not fit the width.
pub open spec fn div_unsigned_spec(high: int, low: int, d: int, size: ValueSize) -> Option<
    (int, int),
> {
    if d == 0 || (high * size.modulus() + low) / d >= size.modulus() {
        None
    } else {
        Some(((high * size.modulus() + low) / d, (high * size.modulus() + low) % d))
    }
}

/// What a signed division of the double-width number `high * modulus +
/// low` by `d` gives: the bits of quotient and remainder, unless `d` is 0
/// or the quotient is out of the signed range of the width.
pub open spec fn div_signed_spec(high: int, low: int, d: int, size: ValueSize) -> Option<
    (int, int),
> {
    if d == 0 || !fits_signed(
        trunc_div(signed_wide(high * size.modulus() + low, size), signed_value(d, size)),
        size,
    ) {
        None
    } else {
        Some(
            (
                trunc_div(signed_wide(high * size.modulus() + low, size), signed_value(d, size))
                    % size.modulus(),
                trunc_rem(signed_wide(high * size.modulus() + low, size), signed_value(d, size))
                    % size.modulus(),
            ),
        )
    }
}

/// The double-width number with the halves `high` and `low`.
fn join_halves(high: u32, low: u32, size: ValueSize) -> (r: u64)
    requires
        size.is_operand(),
        high < size.modulus(),
        low < size.modulus(),
    ensures
        r == high * size.modulus() + low,
        r < wide_modulus(size),
{
    match size {
        ValueSize::Byte => high as u64 * 0x100 + low as u64,
        ValueSize::Word => high as u64 * 0x1_0000 + low as u64,
        _ => high as u64 * 0x1_0000_0000 + low as u64,
    }
}

/// Divides the unsigned double-width number `high * modulus + low` by `d`.
pub fn div_unsigned(high: u32, low: u32, d: u32, size: ValueSize) -> (r: Option<(u32, u32)>)
    requires
        size.is_operand(),
        high < size.modulus(),
        low < size.modulus(),
        d < size.modulus(),
    ensures
        match r {
            Some((q, rem)) => div_unsigned_spec(high as int, low as int, d as int, size) == Some(
                (q as int, rem as int),
            ),
            None => div_unsigned_spec(high as int, low as int, d as int, size) is None,
        },
        r matches Some((q, rem)) ==> q < size.modulus() && rem < size.modulus(),
{
    if d == 0 {
        return None;
    }
    let m: u64 = modulus_of(size);
    let dividend: u64 = join_halves(high, low, size);
    let q: u64 = dividend / (d as u64);
    let rem: u64 = dividend % (d as u64);
    if q >= m {
        return None;
    }
    Some((q as u32, rem as u32))
}

/// The magnitude of a signed double-width number.
fn wide_magnitude(v: u64, size: ValueSize) -> (r: u64)
    requires
        size.is_operand(),
        v < wide_modulus(size),
    ensures
        r == if signed_wide(v as int, size) < 0 {
            -signed_wide(v as int, size)
        } else {
            signed_wide(v as int, size)
        },
        2 * r <= wide_modulus(size),
{
    match size {
        ValueSize::Byte => if v >= 0x8000 {
            0x1_0000 - v
        } else {
            v
        },
        ValueSize::Word => if v >= 0x8000_0000 {
            0x1_0000_0000 - v
        } else {
            v
        },
        _ => if v >= 0x8000_0000_0000_0000 {
            u64::MAX - v + 1
        } else {
            v
        },
    }
}

/// Whether a double-width number is negative when read as two's complement.
fn wide_is_negative(v: u64, size: ValueSize) -> (r: bool)
    requires
        size.is_operand(),
        v < wide_modulus(size),
    ensures
        r == (signed_wide(v as int, size) < 0),
{
    match size {
        ValueSize::Byte => v >= 0x8000,
        ValueSize::Word => v >= 0x8000_0000,
        _ => v >= 0x8000_0000_0000_0000,
    }
}

/// The bits at width `size` of the number with magnitude `x`, negated where `negative`.
fn signed_bits(x: u64, negative: bool, size: ValueSize) -> (r: u32)
    requires
        size.is_operand(),
        x < size.modulus(),
    ensures
        r == (if negative {
            -(x as int)
        } else {
            x as int
        }) % size.modulus(),
{
    let m: u64 = modulus_of(size);
    proof {
        lemma_wrap_once(
            if negative {
                -(x as int)
            } else {
                x as int
            },
            size,
        );
    }
    if negative && x != 0 {
        (m - x) as u32
    } else {
        x as u32
    }
}

/// Divides the signed double-width number `high * modulus + low` by the signed `d`.
#[verifier::rlimit(30)]
pub fn div_signed(high: u32, low: u32, d: u32, size: ValueSize) -> (r: Option<(u32, u32)>)
    requires
        size.is_operand(),
        high < size.modulus(),
        low < size.modulus(),
        d < size.modulus(),
    ensures
        match r {
            Some((q, rem)) => div_signed_spec(high as int, low as int, d as int, size) == Some(
                (q as int, rem as int),
            ),
            None => div_signed_spec(high as int, low as int, d as int, size) is None,
        },
        r matches Some((q, rem)) ==> q < size.modulus() && rem < size.modulus(),
{
    if d == 0 {
        return None;
    }
    let m: u64 = modulus_of(size);
    let dividend: u64 = join_halves(high, low, size);
    let x: u64 = wide_magnitude(dividend, size);
    let y: u64 = magnitude(d, size);
    let dividend_negative: bool = wide_is_negative(dividend, size);
    let negative: bool = dividend_negative != is_negative(d, size);
    let q: u64 = x / y;
    let rem: u64 = x % y;
    let fits: bool = if negative {
        2 * (q as u128) <= m as u128
    } else {
        2 * (q as u128) < m as u128
    };
    if !fits {
        return None;
    }
    Some((signed_bits(q, negative, size), signed_bits(rem, dividend_negative, size)))
}

/// Two to the power of `n`.
pub fn pow2_u64(n: u32) -> (r: u64)
    requires
        n < 64,
    ensures
        r == pow2(n as nat),
        r >= 1,
{
    proof {
        lemma2_to64();
        lemma2_to64_rest();
        lemma_pow2_pos(n as nat);
        if n < 63 {
            lemma_pow2_strictly_increases(n as nat, 63);
        }
        assert(1 * pow2(n as nat) == pow2(n as nat));
        lemma_u64_shl_is_mul(1, n as u64);
    }
    1u64 << n
}

/// A shift to the left by `c` at width `size`.
pub open spec fn shl_result(a: int, c: nat, size: ValueSize) -> int {
    a * pow2(c) % size.modulus()
}

/// The flags after a shift to the left by `c`: untouched where `c` is 0;
/// else carry is the last bit shifted out, and overflow, after a shift by
/// one only, says whether the sign changed.
pub open spec fn shl_flags(f: X86Flags, a: int, c: nat, size: ValueSize) -> X86Flags {
    if c == 0 {
        f
    } else {
        X86Flags {
            carry: a * pow2(c) / size.modulus() % 2 == 1,
            overflow: if c == 1 {
                top_bit(a, size) != top_bit(shl_result(a, c, size), size)
            } else {
                f.overflow
            },
            ..result_flags(f, shl_result(a, c, size), size)
        }
    }
}

/// A shift to the right by `c`.
pub open spec fn shr_result(a: int, c: nat) -> int {
    a / (pow2(c) as int)
}

/// The flags after a shift to the right by `c`: untouched where `c` is 0;
/// else carry is the last bit shifted out, and overflow, after a shift by
/// one only, is the top bit that the operand had.
pub open spec fn shr_flags(f: X86Flags, a: int, c: nat, size: ValueSize) -> X86Flags {
    if c == 0 {
        f
    } else {
        X86Flags {
            carry: a / (pow2((c - 1) as nat) as int) % 2 == 1,
            overflow: if c == 1 {
                top_bit(a, size)
            } else {
                f.overflow
            },
            ..result_flags(f, shr_result(a, c), size)
        }
    }
}

/// Shifts `a` to the left by `count`, of which the low five bits count.
pub fn shl_with_flags(f: X86Flags, a: u32, count: u8, size: ValueSize) -> (r: (u32, X86Flags))
    requires
        size.is_operand(),
        a < size.modulus(),
    ensures
        r.0 == shl_result(a as int, (count % 32) as nat, size),
        r.1 == shl_flags(f, a as int, (count % 32) as nat, size),
        r.0 < size.modulus(),
{
    let c: u32 = (count % 32) as u32;
    let m: u64 = modulus_of(size);
    let p: u64 = pow2_u64(c);
    proof {
        lemma2_to64();
        if c < 31 {
            lemma_pow2_strictly_increases(c as nat, 31);
        }
        assert(0 <= a * p <= 0xFFFF_FFFF * 0x8000_0000) by (nonlinear_arith)
            requires
                0 <= a <= 0xFFFF_FFFF,
                0 <= p <= 0x8000_0000,
        ;
        assert(c == 0 ==> a * p == a) by (nonlinear_arith)
            requires
                c == 0 ==> p == 1,
        ;
    }
    let wide: u64 = a as u64 * p;
    let result: u32 = (wide % m) as u32;
    if c == 0 {
        return (result, f);
    }
    let mut g = with_result_flags(f, result, size);
    g.carry = wide / m % 2 == 1;
    if c == 1 {
        g.overflow = (2 * (a as u64) >= m) != (2 * (result as u64) >= m);
    }
    (result, g)
}

/// Shifts `a` to the right by `count`, of which the low five bits count.
pub fn shr_with_flags(f: X86Flags, a: u32, count: u8, size: ValueSize) -> (r: (u32, X86Flags))
    requires
        size.is_operand(),
        a < size.modulus(),
    ensures
        r.0 == shr_result(a as int, (count % 32) as nat),
        r.1 == shr_flags(f, a as int, (count % 32) as nat, size),
        r.0 < size.modulus(),
{
    let c: u32 = (count % 32) as u32;
    let m: u64 = modulus_of(size);
    let p: u64 = pow2_u64(c);
    let result: u32 = (a as u64 / p) as u32;
    assert(a as int / (p as int) <= a) by (nonlinear_arith)
        requires
            a >= 0,
            p >= 1,
    ;
    if c == 0 {
        return (result, f);
    }
    let before: u64 = pow2_u64(c - 1);
    let mut g = with_result_flags(f, result, size);
    g.carry = a as u64 / before % 2 == 1;
    if c == 1 {
        g.overflow = 2 * (a as u64) >= m;
    }
    (result, g)
}

/// Whether bit `n` of `a` is set.
pub open spec fn bit_of(a: u32, n: u8) -> bool {
    (a >> n) & 1 == 1
}

/// What the bit test instructions do to the bit they have tested.
#[derive(PartialEq, Eq, Copy, Clone, Debug)]
pub enum BitChange {
    /// The bit stays as it is
    Keep,
    /// The bit is set
    Raise,
    /// The bit is cleared
    Clear,
    /// The bit is inverted
    Complement,
}

/// `a` after its bit `n` was changed.
pub open spec fn changed_bit(a: u32, n: u8, change: BitChange) -> u32 {
    match change {
        BitChange::Keep => a,
        BitChange::Raise => a | (1u32 << n),
        BitChange::Clear => a & !(1u32 << n),
        BitChange::Complement => a ^ (1u32 << n),
    }
}

/// Changing bit `n` changes that bit as asked and no other, and stays
/// within a width that has the bit.
pub proof fn lemma_changed_bit(a: u32, n: u8, change: BitChange, j: u8)
    requires
        n < 32,
        j < 32,
    ensures
        bit_of(changed_bit(a, n, change), j) == if j == n {
            match change {
                BitChange::Keep => bit_of(a, n),
                BitChange::Raise => true,
                BitChange::Clear => false,
                BitChange::Complement => !bit_of(a, n),
            }
        } else {
            bit_of(a, j)
        },
        a < 0x1_0000 && n < 16 ==> changed_bit(a, n, change) < 0x1_0000,
{
    assert((((a | (1u32 << n)) >> j) & 1 == 1) == (if j == n {
        true
    } else {
        (a >> j) & 1 == 1
    }) && (((a & !(1u32 << n)) >> j) & 1 == 1) == (if j == n {
        false
    } else {
        (a >> j) & 1 == 1
    }) && (((a ^ (1u32 << n)) >> j) & 1 == 1) == (if j == n {
        (a >> j) & 1 != 1
    } else {
        (a >> j) & 1 == 1
    })) by (bit_vector)
        requires
            n < 32,
            j < 32,
    ;
    assert(a < 0x1_0000 && n < 16 ==> (a | (1u32 << n)) < 0x1_0000 && (a & !(1u32 << n))
        < 0x1_0000 && (a ^ (1u32 << n)) < 0x1_0000) by (bit_vector);
}

/// Tests bit `n` of `a` and changes it: whether the bit was set, and the new value.
pub fn test_and_change_bit(a: u32, n: u8, change: BitChange) -> (r: (bool, u32))
    requires
        n < 32,
    ensures
        r.0 == bit_of(a, n),
        r.1 == changed_bit(a, n, change),
        a < 0x1_0000 && n < 16 ==> r.1 < 0x1_0000,
{
    proof {
        lemma_changed_bit(a, n, change, n);
    }
    let bit: bool = (a >> n) & 1 == 1;
    let changed: u32 = match change {
        BitChange::Keep => a,
        BitChange::Raise => a | (1u32 << n),
        BitChange::Clear => a & !(1u32 << n),
        BitChange::Complement => a ^ (1u32 << n),
    };
    (bit, changed)
}

/// The place of the lowest bit that is set in `v`; 0 where none is.
pub open spec fn lowest_set_bit(v: nat) -> nat
    decreases v,
{
    if v == 0 || v % 2 == 1 {
        0
    } else {
        1 + lowest_set_bit(v / 2)
    }
}

/// The place of the highest bit that is set in `v`; 0 where none is.
pub open spec fn highest_set_bit(v: nat) -> nat
    decreases v,
{
    if v < 2 {
        0
    } else {
        1 + highest_set_bit(v / 2)
    }
}

/// Finds the lowest bit that is set.
pub fn scan_forward(v: u32) -> (r: u8)
    ensures
        r == lowest_set_bit(v as nat),
        r < 32,
{
    let mut rest: u32 = v;
    let mut n: u8 = 0;
    proof {
        lemma2_to64();
    }
    while rest != 0 && rest % 2 == 0
        invariant
            lowest_set_bit(v as nat) == n + lowest_set_bit(rest as nat),
            rest != 0 ==> rest * pow2(n as nat) <= v,
            rest == 0 ==> v == 0 && n == 0,
            n < 32,
        decreases rest,
    {
        proof {
            lemma2_to64();
            lemma_pow2_unfold((n + 1) as nat);
            assert((rest / 2) * (2 * pow2(n as nat)) == rest * pow2(n as nat)) by (nonlinear_arith)
                requires
                    rest % 2 == 0,
            ;
            if n >= 31 {
                lemma_pow2_strictly_increases(31, (n + 1) as nat);
                assert((rest / 2) * pow2((n + 1) as nat) >= pow2((n + 1) as nat))
                    by (nonlinear_arith)
                    requires
                        rest / 2 >= 1,
                ;
            }
        }
        rest = rest / 2;
        n = n + 1;
    }
    n
}

/// Finds the highest bit that is set.
pub fn scan_reverse(v: u32) -> (r: u8)
    ensures
        r == highest_set_bit(v as nat),
        r < 32,
{
    let mut rest: u32 = v;
    let mut n: u8 = 0;
    proof {
        lemma2_to64();
    }
    while rest >= 2
        invariant
            highest_set_bit(v as nat) == n + highest_set_bit(rest as nat),
            rest * pow2(n as nat) <= v,
            n < 32,
        decreases rest,
    {
        proof {
            lemma2_to64();
            lemma_pow2_unfold((n + 1) as nat);
            assert((rest / 2) * (2 * pow2(n as nat)) <= rest * pow2(n as nat)) by (nonlinear_arith)
                requires
                    rest >= 0,
            ;
            if n >= 31 {
                lemma_pow2_strictly_increases(31, (n + 1) as nat);
                assert((rest / 2) * pow2((n + 1) as nat) >= pow2((n + 1) as nat))
                    by (nonlinear_arith)
                    requires
                        rest / 2 >= 1,
                ;
            }
        }
        rest = rest / 2;
        n = n + 1;
    }
    n
}

/// The four bytes of `a` in the opposite order.
pub open spec fn byte_swap(a: int) -> int {
    a % 0x100 * 0x100_0000 + a / 0x100 % 0x100 * 0x1_0000 + a / 0x1_0000 % 0x100 * 0x100 + a
        / 0x100_0000
}

/// Reverses the order of the four bytes of `a`.
pub fn swap_bytes(a: u32) -> (r: u32)
    ensures
        r == byte_swap(a as int),
{
    a % 0x100 * 0x100_0000 + a / 0x100 % 0x100 * 0x1_0000 + a / 0x1_0000 % 0x100 * 0x100 + a
        / 0x100_0000
}

/// Whether the flags meet the condition that the low four bits of an
/// opcode name: overflow, carry (below), zero (equal), below or equal,
/// sign, parity, less, less or equal, each followed by its negation.
pub open spec fn condition_holds(opcode: u8, flags: X86Flags) -> bool {
    let cc = opcode % 16;
    if cc == 0x0 {
        flags.overflow
    } else if cc == 0x1 {
        !flags.overflow
    } else if cc == 0x2 {
        flags.carry
    } else if cc == 0x3 {
        !flags.carry
    } else if cc == 0x4 {
        flags.zero
    } else if cc == 0x5 {
        !flags.zero
    } else if cc == 0x6 {
        flags.carry || flags.zero
    } else if cc == 0x7 {
        !flags.carry && !flags.zero
    } else if cc == 0x8 {
        flags.sign
    } else if cc == 0x9 {
        !flags.sign
    } else if cc == 0xA {
        flags.parity
    } else if cc == 0xB {
        !flags.parity
    } else if cc == 0xC {
        flags.sign != flags.overflow
    } else if cc == 0xD {
        flags.sign == flags.overflow
    } else if cc == 0xE {
        flags.sign != flags.overflow || flags.zero
    } else {
        flags.sign == flags.overflow && !flags.zero
    }
}

/// Whether the flags meet the condition that the opcode names.
pub fn cc_matches(opcode: u8, flags: &X86Flags) -> (r: bool)
    ensures
        r == condition_holds(opcode, *flags),
{
    let cc: u8 = opcode % 16;
    match cc {
        0x0 => flags.overflow,
        0x1 => !flags.overflow,
        0x2 => flags.carry,
        0x3 => !flags.carry,
        0x4 => flags.zero,
        0x5 => !flags.zero,
        0x6 => flags.carry || flags.zero,
        0x7 => !flags.carry && !flags.zero,
        0x8 => flags.sign,
        0x9 => !flags.sign,
        0xA => flags.parity,
        0xB => !flags.parity,
        0xC => flags.sign != flags.overflow,
        0xD => flags.sign == flags.overflow,
        0xE => flags.sign != flags.overflow || flags.zero,
        _ => flags.sign == flags.overflow && !flags.zero,
    }
}

} // verus!
