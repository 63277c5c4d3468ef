use qx86::arith::cc_matches;
use qx86::bitmanip::BitManipulation;
use qx86::decoding::{decode_args, decode_args_with_modrm, ModRM, ParsedModRM, SIB};
use qx86::flags::X86Flags;
use qx86::memory::{MemorySystem, WRITEABLE_MEMORY};
use qx86::opcodes::{
    define_opcode, define_opcode_multi, ArgSource, Opcode, OpcodeFn, OpcodeProperties,
    OpcodeValueSize, PipelineBehavior, OPCODE_TABLE_SIZE,
};
use qx86::ops::{decrement_regw, jmp_abs, jmp_conditional_ecx_is_zero, lea, mov, read_regw};
use qx86::pipeline::{clear_pipeline, decode_instruction, fill_pipeline, Pipeline, PrefixesActivated, Repeat};
use qx86::structs::{ArgLocation, OpArgument, SizedValue, ValueSize};
use qx86::subset::opcode_table;
use qx86::vm::{
    GasCharger, GasCost, Hypervisor, Progress, Reg16, Reg32, Reg8, VMError, GASCOST_COUNT, VM,
};

struct NoHypervisor;

impl Hypervisor for NoHypervisor {
    fn interrupt(&mut self, _vm: &mut VM, _num: u8) -> Result<(), VMError> {
        Err(VMError::SyscallError)
    }
}

fn slot(function: OpcodeFn, args: [ArgLocation; 3]) -> Pipeline {
    let mut p = Pipeline::default();
    p.function = function;
    p.args = [
        OpArgument { location: args[0], is_memory: false },
        OpArgument { location: args[1], is_memory: false },
        OpArgument { location: args[2], is_memory: false },
    ];
    p
}

#[test]
fn register_views_alias_each_other() {
    let mut vm = VM::default();
    vm.set_reg32(Reg32::EBX, 0x11223344);
    assert_eq!(vm.reg32(Reg32::EBX), 0x11223344);
    assert_eq!(vm.reg16(Reg16::BX), 0x3344);
    assert_eq!(vm.reg8(Reg8::BL), 0x44);
    assert_eq!(vm.reg8(Reg8::BH), 0x33);
    vm.set_reg8(Reg8::BH, 0x99);
    assert_eq!(vm.reg32(Reg32::EBX), 0x11229944);
    assert_eq!(vm.reg8(Reg8::BL), 0x44);
    vm.set_reg16(Reg16::BX, 0xABCD);
    assert_eq!(vm.reg32(Reg32::EBX), 0x1122ABCD);
    vm.set_reg16(Reg16::SI, 0x0102);
    assert_eq!(vm.regs, [0, 0, 0, 0x1122ABCD, 0, 0, 0x0102, 0]);
    assert_eq!(vm.get_reg(3, ValueSize::Zero), SizedValue::Empty);
    assert_eq!(vm.get_reg(3, ValueSize::Qword), SizedValue::Empty);
    vm.set_reg(3, SizedValue::Empty);
    vm.set_reg(3, SizedValue::Qword(1));
    assert_eq!(vm.reg32(Reg32::EBX), 0x1122ABCD);
}

#[test]
fn memory_keeps_values_with_the_low_byte_first() {
    let mut m = MemorySystem::default();
    m.add_memory(0x80000000, 0x1000).unwrap();
    assert_eq!(m.set_u32(0x80000010, 0xA1B2C3D4), Ok(0xA1B2C3D4));
    assert_eq!(m.get_u32(0x80000010), Ok(0xA1B2C3D4));
    assert_eq!(m.get_u8(0x80000010), Ok(0xD4));
    assert_eq!(m.get_u8(0x80000011), Ok(0xC3));
    assert_eq!(m.get_u8(0x80000012), Ok(0xB2));
    assert_eq!(m.get_u8(0x80000013), Ok(0xA1));
    assert_eq!(m.set_u16(0x80000020, 0xBEEF), Ok(0xBEEF));
    assert_eq!(m.get_u16(0x80000020), Ok(0xBEEF));
    assert_eq!(m.get_u8(0x80000020), Ok(0xEF));
    assert_eq!(m.get_u8(0x80000021), Ok(0xBE));
    assert_eq!(m.set_u8(0x80000030, 0x7F), Ok(0x7F));
    assert_eq!(m.get_u8(0x80000030), Ok(0x7F));
    assert_eq!(m.set_u64(0x80000040, 0x0102030405060708), Ok(0x0102030405060708));
    assert_eq!(m.get_u64(0x80000040), Ok(0x0102030405060708));
    assert_eq!(m.get_u32(0x80000040), Ok(0x05060708));
    assert_eq!(m.get_u32(0x80000044), Ok(0x01020304));
    assert_eq!(m.get_u16(0x8000003F), Ok(0x0800));
}

#[test]
fn a_new_region_holds_zeros_after_its_first_byte() {
    let mut m = MemorySystem::default();
    {
        let bytes = m.add_memory(0x20000, 0x10).unwrap();
        assert_eq!(bytes.len(), 0x10);
        assert_eq!(bytes[0], 10);
        assert!(bytes[1..].iter().all(|b| *b == 0));
    }
    assert_eq!(m.get_u8(0x20000), Ok(10));
    assert_eq!(m.get_u32(0x2000C), Ok(0));
    assert!(m.add_memory(0x30000, 0).unwrap().is_empty());
    assert!(m.section_exists(0x3FFFF));
    assert_eq!(m.get_u8(0x30000), Err(VMError::ReadBadMemory(0x30000)));
    assert_eq!(m.add_memory(0x40000, 0x10000).unwrap().len(), 0x10000);
    assert_eq!(m.get_u8(0x4FFFF), Ok(0));
}

#[test]
fn the_loader_writes_where_the_guest_cannot() {
    assert_eq!(WRITEABLE_MEMORY, 0x80000000);
    let mut vm = VM::default();
    vm.memory.add_memory(0x7FFF0000, 0x10000).unwrap();
    vm.memory.add_memory(0x80000000, 0x10000).unwrap();
    assert_eq!(vm.copy_into_memory(0x7FFFFFF0, &[4, 3, 2, 1]), Ok(()));
    assert_eq!(vm.copy_into_memory(0x7FFF0000, &[1, 2, 3]), Ok(()));
    vm.memory.get_mut_sized_memory(0x7FFFFFFC, 2).unwrap()[1] = 9;
    vm.memory.get_mut_memory(0x7FFFFFFF).unwrap()[0] = 8;
    assert_eq!(vm.memory.get_u32(0x7FFFFFFC), Ok(0x08000900));
    assert_eq!(vm.memory.set_u8(0x7FFFFFF0, 5), Err(VMError::WroteReadOnlyMemory(0x7FFFFFF0)));
    assert_eq!(vm.memory.set_u16(0x7FFFFFF0, 5), Err(VMError::WroteReadOnlyMemory(0x7FFFFFF0)));
    assert_eq!(vm.memory.set_u32(0x7FFFFFF0, 5), Err(VMError::WroteReadOnlyMemory(0x7FFFFFF0)));
    assert_eq!(vm.memory.set_u64(0x7FFFFFF0, 5), Err(VMError::WroteReadOnlyMemory(0x7FFFFFF0)));
    assert_eq!(vm.memory.set_u32(0x7FFFFFFE, 5), Err(VMError::WroteReadOnlyMemory(0x7FFFFFFE)));
    assert_eq!(vm.memory.set_u8(0x00020000, 5), Err(VMError::WroteReadOnlyMemory(0x00020000)));
    assert_eq!(
        vm.set_mem(0x7FFFFFF0, SizedValue::Dword(5)),
        Err(VMError::WroteReadOnlyMemory(0x7FFFFFF0))
    );
    assert_eq!(
        vm.set_arg(ArgLocation::Address(0x7FFFFFFF, ValueSize::Byte), SizedValue::Byte(5)),
        Err(VMError::WroteReadOnlyMemory(0x7FFFFFFF))
    );
    assert_eq!(vm.memory.get_u32(0x7FFFFFF0), Ok(0x01020304));
    assert_eq!(vm.set_mem(0x80000000, SizedValue::Dword(5)), Ok(()));
    assert_eq!(vm.memory.get_u32(0x80000000), Ok(5));
    assert_eq!(vm.set_mem(0x7FFFFFFE, SizedValue::Dword(5)), Err(VMError::WroteReadOnlyMemory(0x7FFFFFFE)));
}

#[test]
fn memory_errors_name_the_address() {
    let mut m = MemorySystem::default();
    m.add_memory(0xFFFF0000, 0x10000).unwrap();
    m.add_memory(0x10000, 0x100).unwrap();
    m.add_memory(0x80010000, 0x100).unwrap();
    assert_eq!(m.get_u32(0xFFFFFFFE), Err(VMError::ReadBadMemory(1)));
    assert_eq!(m.set_u32(0xFFFFFFFE, 1), Err(VMError::WroteBadMemory(1)));
    assert_eq!(m.get_u32(0xFFFFFFFC), Ok(0));
    assert_eq!(m.get_u16(0x100FF), Err(VMError::ReadBadMemory(0x10100)));
    assert_eq!(m.get_u16(0x10100), Err(VMError::ReadBadMemory(0x10100)));
    assert_eq!(m.set_u16(0x800100FF, 1), Err(VMError::WroteBadMemory(0x80010100)));
    assert_eq!(m.set_u8(0x80010100, 1), Err(VMError::WroteBadMemory(0x80010100)));
    assert_eq!(m.get_u64(0x100F9), Err(VMError::ReadBadMemory(0x10100)));
    assert_eq!(m.set_u64(0x800100F9, 1), Err(VMError::WroteBadMemory(0x80010100)));
    assert_eq!(m.set_u64(0x800100F8, 1), Ok(1));
    assert_eq!(m.get_u8(0x20000), Err(VMError::ReadUnloadedMemory(0x20000)));
    assert_eq!(m.set_u8(0x80020001, 1), Err(VMError::ReadUnloadedMemory(0x80020001)));
    assert_eq!(m.set_u16(0x100FF, 1), Err(VMError::WroteReadOnlyMemory(0x100FF)));
    assert_eq!(m.get_sized_memory(0x10000, 0x101).unwrap_err(), VMError::ReadBadMemory(0x10100));
    assert_eq!(m.get_sized_memory(0x10000, 0).unwrap().len(), 0);
    assert_eq!(m.get_mut_sized_memory(0x100F0, 0x11).unwrap_err(), VMError::WroteBadMemory(0x10100));
    assert_eq!(m.get_mut_sized_memory(0x100F0, 0x10).unwrap().len(), 0x10);
    assert_eq!(m.get_mut_memory(0x10100).unwrap_err(), VMError::WroteBadMemory(0x10100));
    assert_eq!(m.get_mut_memory(0x20100).unwrap_err(), VMError::ReadUnloadedMemory(0x20100));
    assert_eq!(m.get_memory(0x100F0).unwrap().len(), 0x10);
    assert_eq!(m.add_memory(0x10001, 1).unwrap_err(), VMError::UnalignedMemoryAddition);
    assert_eq!(m.add_memory(0x10000, 1).unwrap_err(), VMError::ConflictingMemoryAddition);
    assert_eq!(m.get_u8(0x10000), Ok(10));
}

#[test]
fn sized_values_convert() {
    assert_eq!(SizedValue::Byte(0x80).u32_sx(), Ok(0xFFFFFF80));
    assert_eq!(SizedValue::Byte(0x7F).u32_sx(), Ok(0x7F));
    assert_eq!(SizedValue::Word(0x8000).u32_sx(), Ok(0xFFFF8000));
    assert_eq!(SizedValue::Dword(0x80000000).u32_sx(), Ok(0x80000000));
    assert_eq!(SizedValue::Empty.u32_sx(), Ok(0));
    assert_eq!(SizedValue::Qword(1).u32_sx(), Err(VMError::TooBigSizeExpectation));
    assert_eq!(SizedValue::Byte(0xFF).u16_sx(), Ok(0xFFFF));
    assert_eq!(SizedValue::Word(0xFF).u16_sx(), Ok(0xFF));
    assert_eq!(SizedValue::Dword(1).u16_sx(), Err(VMError::TooBigSizeExpectation));
    assert_eq!(SizedValue::Byte(0x80).u8_zx(), Ok(0x80));
    assert_eq!(SizedValue::Empty.u8_zx(), Ok(0));
    assert_eq!(SizedValue::Word(1).u8_zx(), Err(VMError::TooBigSizeExpectation));
    assert_eq!(SizedValue::Dword(0x80000000).u64_zx(), Ok(0x80000000));
    assert_eq!(SizedValue::Byte(0x80).u64_sx(), Ok(0xFFFF_FFFF_FFFF_FF80));
    assert_eq!(SizedValue::Qword(u64::MAX).u64_sx(), Ok(u64::MAX));
    assert_eq!(SizedValue::Byte(0x80).u32_zx(), Ok(0x80));
    assert_eq!(SizedValue::Word(0x8000).u32_zx(), Ok(0x8000));
    assert_eq!(SizedValue::Qword(1).u32_zx(), Err(VMError::TooBigSizeExpectation));
    assert_eq!(SizedValue::Byte(0x80).u16_zx(), Ok(0x80));
    assert_eq!(SizedValue::Empty.u16_zx(), Ok(0));
    assert_eq!(SizedValue::Dword(1).u16_zx(), Err(VMError::TooBigSizeExpectation));
    assert_eq!(SizedValue::Qword(1).u16_zx(), Err(VMError::TooBigSizeExpectation));
    assert_eq!(SizedValue::Qword(7).u64_exact(), Ok(7));
    assert_eq!(SizedValue::Dword(7).u64_exact(), Err(VMError::WrongSizeExpectation));
    assert_eq!(SizedValue::Dword(7).u32_exact(), Ok(7));
    assert_eq!(SizedValue::Word(7).u32_exact(), Err(VMError::WrongSizeExpectation));
    assert_eq!(SizedValue::Word(7).u16_exact(), Ok(7));
    assert_eq!(SizedValue::Byte(7).u16_exact(), Err(VMError::WrongSizeExpectation));
    assert_eq!(SizedValue::Byte(7).u8_exact(), Ok(7));
    assert_eq!(SizedValue::Empty.u8_exact(), Err(VMError::WrongSizeExpectation));
    let q = SizedValue::Qword(0x1122334455667788);
    assert_eq!(q.u64_trunc(), 0x1122334455667788);
    assert_eq!(q.u32_trunc(), 0x55667788);
    assert_eq!(q.u16_trunc(), 0x7788);
    assert_eq!(q.u8_trunc(), 0x88);
    assert_eq!(SizedValue::Empty.u32_trunc(), 0);
    assert_eq!(SizedValue::Byte(0x88).u64_trunc(), 0x88);
    assert_eq!(SizedValue::Dword(0x12345678).u8_trunc(), 0x78);
    assert_eq!(SizedValue::Word(0x1234).u8_trunc(), 0x34);
}

#[test]
fn sized_values_convert_to_a_width() {
    let b = SizedValue::Byte(0x90);
    assert_eq!(b.convert_size_zx(ValueSize::Dword), Ok(SizedValue::Dword(0x90)));
    assert_eq!(b.convert_size_zx(ValueSize::Word), Ok(SizedValue::Word(0x90)));
    assert_eq!(b.convert_size_zx(ValueSize::Byte), Ok(b));
    assert_eq!(b.convert_size_zx(ValueSize::Zero), Err(VMError::WrongSizeExpectation));
    assert_eq!(b.convert_size_zx(ValueSize::Qword), Ok(SizedValue::Qword(0x90)));
    assert_eq!(b.convert_size_sx(ValueSize::Dword), Ok(SizedValue::Dword(0xFFFFFF90)));
    assert_eq!(b.convert_size_sx(ValueSize::Word), Ok(SizedValue::Word(0xFF90)));
    assert_eq!(b.convert_size_sx(ValueSize::Byte), Ok(b));
    assert_eq!(b.convert_size_sx(ValueSize::Zero), Err(VMError::WrongSizeExpectation));
    assert_eq!(b.convert_size_sx(ValueSize::Qword), Ok(SizedValue::Qword(0xFFFF_FFFF_FFFF_FF90)));
    let d = SizedValue::Dword(0x11223344);
    assert_eq!(d.convert_size_zx(ValueSize::Word), Err(VMError::TooBigSizeExpectation));
    assert_eq!(d.convert_size_sx(ValueSize::Word), Err(VMError::TooBigSizeExpectation));
    assert_eq!(d.convert_size_zx(ValueSize::Byte), Err(VMError::TooBigSizeExpectation));
    assert_eq!(d.convert_size_sx(ValueSize::Byte), Err(VMError::TooBigSizeExpectation));
    assert_eq!(d.convert_size_zx(ValueSize::Dword), Ok(d));
    assert_eq!(d.convert_size_sx(ValueSize::Qword), Ok(SizedValue::Qword(0x11223344)));
    assert_eq!(
        SizedValue::Dword(0x80000000).convert_size_sx(ValueSize::Qword),
        Ok(SizedValue::Qword(0xFFFF_FFFF_8000_0000))
    );
    assert_eq!(
        SizedValue::Word(0x8000).convert_size_sx(ValueSize::Qword),
        Ok(SizedValue::Qword(0xFFFF_FFFF_FFFF_8000))
    );
    assert_eq!(SizedValue::Qword(5).convert_size_zx(ValueSize::Qword), Ok(SizedValue::Qword(5)));
    assert_eq!(SizedValue::Qword(5).convert_size_sx(ValueSize::Dword), Err(VMError::TooBigSizeExpectation));
    assert_eq!(SizedValue::Qword(5).convert_size_zx(ValueSize::Zero), Err(VMError::WrongSizeExpectation));
    assert_eq!(SizedValue::Empty.convert_size_zx(ValueSize::Byte), Ok(SizedValue::Byte(0)));
    assert_eq!(SizedValue::Empty.convert_size_sx(ValueSize::Qword), Ok(SizedValue::Qword(0)));
    assert_eq!(SizedValue::Empty.convert_size_zx(ValueSize::Word), Ok(SizedValue::Word(0)));
    assert_eq!(d.convert_size_trunc(ValueSize::Qword), SizedValue::Qword(0x11223344));
    assert_eq!(d.convert_size_trunc(ValueSize::Dword), d);
    assert_eq!(d.convert_size_trunc(ValueSize::Word), SizedValue::Word(0x3344));
    assert_eq!(d.convert_size_trunc(ValueSize::Byte), SizedValue::Byte(0x44));
    assert_eq!(d.convert_size_trunc(ValueSize::Zero), SizedValue::Empty);
    assert_eq!(SizedValue::Empty.convert_size_trunc(ValueSize::Word), SizedValue::Word(0));
}

#[test]
fn flags_pack_into_the_flag_word() {
    assert_eq!(X86Flags::default().serialize_flag_storage(), 0x002);
    let mut f = X86Flags::default();
    f.carry = true;
    f.zero = true;
    assert_eq!(f.serialize_flag_storage(), 0x043);
    let all = X86Flags {
        carry: true,
        parity: true,
        adjust: true,
        zero: true,
        sign: true,
        trap: true,
        interrupt: true,
        direction: true,
        overflow: true,
    };
    assert_eq!(all.serialize_flag_storage(), 0xFD7);
    let mut g = X86Flags::default();
    g.deserialize_flag_storage(0xFFFFFFFF);
    assert_eq!(g, all);
    g.deserialize_flag_storage(0xFFFFF028);
    assert_eq!(g, X86Flags::default());
    g.deserialize_flag_storage(0x800);
    assert_eq!(g, X86Flags { overflow: true, ..X86Flags::default() });
    g.deserialize_flag_storage(0x400);
    assert_eq!(g, X86Flags { direction: true, ..X86Flags::default() });
    g.deserialize_flag_storage(0x284);
    assert_eq!(g, X86Flags { parity: true, sign: true, interrupt: true, ..X86Flags::default() });
    let mut h = X86Flags::default();
    h.deserialize_flag_storage(g.serialize_flag_storage());
    assert_eq!(h, g);
}

#[test]
fn flags_are_computed_from_results() {
    let mut f = X86Flags::default();
    f.calculate_parity(0);
    assert!(f.parity);
    f.calculate_parity(1);
    assert!(!f.parity);
    f.calculate_parity(0x03);
    assert!(f.parity);
    f.calculate_parity(0xFF);
    assert!(f.parity);
    f.calculate_parity(0x7F);
    assert!(!f.parity);
    f.calculate_parity(0xFFFFFF00);
    assert!(f.parity);
    f.calculate_parity(0x100);
    assert!(f.parity);
    f.calculate_sign8(0x80);
    assert!(f.sign);
    f.calculate_sign8(0x7F);
    assert!(!f.sign);
    f.calculate_sign16(0x8000);
    assert!(f.sign);
    f.calculate_sign16(0x7FFF);
    assert!(!f.sign);
    f.calculate_sign32(0x80000000);
    assert!(f.sign);
    f.calculate_sign32(0x7FFFFFFF);
    assert!(!f.sign);
    f.calculate_zero(0);
    assert!(f.zero);
    f.calculate_zero(0x100);
    assert!(!f.zero);
}

#[test]
fn conditions_follow_the_low_four_bits_of_the_opcode() {
    let none = X86Flags::default();
    let truths = [
        false, true, false, true, false, true, false, true, false, true, false, true, false, true,
        false, true,
    ];
    for cc in 0..16u8 {
        assert_eq!(cc_matches(0x70 + cc, &none), truths[cc as usize]);
        assert_eq!(cc_matches(0x90 + cc, &none), truths[cc as usize]);
    }
    let below = X86Flags { carry: true, sign: true, ..X86Flags::default() };
    let expected = [
        false, true, true, false, false, true, true, false, true, false, false, true, true, false,
        true, false,
    ];
    for cc in 0..16u8 {
        assert_eq!(cc_matches(cc, &below), expected[cc as usize]);
    }
    let equal = X86Flags { zero: true, parity: true, overflow: true, ..X86Flags::default() };
    let expected = [
        true, false, false, true, true, false, true, false, false, true, true, false, true, false,
        true, false,
    ];
    for cc in 0..16u8 {
        assert_eq!(cc_matches(cc, &equal), expected[cc as usize]);
    }
}

#[test]
fn bits_of_wider_integers() {
    let mut a = 0u64;
    a.set_bit(63, true);
    a.set_bit(0, true);
    assert_eq!(a, 0x8000000000000001);
    assert!(a.get_bit(63) && a.get_bit(0) && !a.get_bit(32));
    assert!(a.get_bit_big_endian(0) && a.get_bit_big_endian(63) && !a.get_bit_big_endian(1));
    a.set_bit(63, false);
    assert_eq!(a, 1);
    let mut b = 0xFFFFu16;
    b.set_bit(15, false);
    b.set_bit(4, false);
    b.set_bit(4, false);
    assert_eq!(b, 0x7FEF);
    assert!(!b.get_bit_big_endian(0) && b.get_bit_big_endian(1));
    let mut c = 0u32;
    c.set_bit(31, true);
    c.set_bit(31, true);
    assert_eq!(c, 0x80000000);
    assert!(c.get_bit(31) && c.get_bit_big_endian(0) && !c.get_bit_big_endian(31));
}

#[test]
fn mod_rm_bytes_are_taken_apart() {
    assert_eq!(ModRM::parse(0xDD), ModRM { rm: 5, reg: 3, mode: 3 });
    assert_eq!(ModRM::parse(0x47), ModRM { rm: 7, reg: 0, mode: 1 });
    assert_eq!(SIB::parse(0x8D), SIB { base: 5, index: 1, scale: 2 });
    let sib = SIB::parse(0);
    let far = ModRM::parse(0x80).decode(&sib, 0xFFFFFFF0, ValueSize::Word);
    assert_eq!(
        far.location,
        ArgLocation::ModRMAddress { offset: Some(0xFFFFFFF0), reg: Some(0), size: ValueSize::Word }
    );
    assert!(far.is_memory);
    let register = ModRM::parse(0xC1).decode(&sib, 7, ValueSize::Byte);
    assert_eq!(register.location, ArgLocation::RegisterValue(1, ValueSize::Byte));
    assert!(!register.is_memory);
    let scaled = ModRM::parse(0x04).decode(&SIB::parse(0xE5), 0x10, ValueSize::Dword);
    assert_eq!(
        scaled.location,
        ArgLocation::SIBAddress {
            offset: 0x10,
            base: None,
            scale: 8,
            index: None,
            size: ValueSize::Dword
        }
    );
    let framed = ModRM::parse(0x84).decode(&SIB::parse(0x05), 0x10, ValueSize::Dword);
    assert_eq!(
        framed.location,
        ArgLocation::SIBAddress {
            offset: 0x10,
            base: Some(5),
            scale: 1,
            index: Some(0),
            size: ValueSize::Dword
        }
    );
}

#[test]
fn mod_rm_bytes_are_parsed_with_what_follows() {
    let p = ParsedModRM::from_bytes(&[0x8B, 0x84, 0x8D, 0x44, 0x33, 0x22, 0x11, 0, 0]).unwrap();
    assert_eq!(p.modrm, ModRM { rm: 4, reg: 0, mode: 2 });
    assert_eq!(p.sib, Some(SIB { base: 5, index: 1, scale: 2 }));
    assert_eq!(p.disp, Some(0x11223344));
    assert_eq!(p.size, 6);
    let p = ParsedModRM::from_bytes(&[0x8B, 0x45, 0xFC, 0, 0]).unwrap();
    assert_eq!(p.disp, Some(0xFFFFFFFC));
    assert_eq!(p.size, 2);
    assert_eq!(p.sib, None);
    let p = ParsedModRM::from_bytes(&[0x8B, 0xC3, 0, 0, 0]).unwrap();
    assert_eq!((p.disp, p.size, p.sib), (None, 1, None));
    assert_eq!(ParsedModRM::from_bytes(&[0x8B, 0xC3]).unwrap().size, 1);
    assert_eq!(ParsedModRM::from_bytes(&[0x8B]), Err(VMError::DecodingOverrun));
    assert_eq!(ParsedModRM::from_bytes(&[0x8B, 0x04]), Err(VMError::DecodingOverrun));
    assert_eq!(ParsedModRM::from_bytes(&[0x8B, 0x45]), Err(VMError::DecodingOverrun));
    assert_eq!(ParsedModRM::from_bytes(&[0x8B, 0x45, 0x7F]).unwrap().disp, Some(0x7F));
    assert_eq!(ParsedModRM::from_bytes(&[0x8B, 0x05, 1, 2, 3]), Err(VMError::DecodingOverrun));
    assert_eq!(ParsedModRM::from_bytes(&[0x8B, 0x04, 0x25, 1, 2, 3]), Err(VMError::DecodingOverrun));
    assert_eq!(ParsedModRM::from_bytes(&[0x8B, 0x04, 0x25, 1, 2, 3, 4]).unwrap().size, 6);
}

fn sixteen(start: &[u8]) -> [u8; 16] {
    let mut text = [0u8; 16];
    text[..start.len()].copy_from_slice(start);
    text
}

fn declared(source: ArgSource, size: OpcodeValueSize) -> Opcode {
    let mut opcode = Opcode::default();
    opcode.arg_source[1] = source;
    opcode.arg_size[1] = size;
    opcode
}

#[test]
fn arguments_are_decoded_as_the_opcode_declares_them() {
    let bytes = [0xB9, 0x11, 0x22, 0x33, 0x44, 0x55, 0x66];
    let mut args = [OpArgument::default(); 3];
    let word = OpcodeValueSize::NativeWord;
    let byte = OpcodeValueSize::Fixed(ValueSize::Byte);
    assert_eq!(decode_args(&declared(ArgSource::ImmediateValue, word), &bytes, &mut args, false), Ok(5));
    assert_eq!(args[0].location, ArgLocation::Nowhere);
    assert_eq!(args[1].location, ArgLocation::Immediate(SizedValue::Dword(0x44332211)));
    assert_eq!(args[2].location, ArgLocation::Nowhere);
    assert_eq!(decode_args(&declared(ArgSource::ImmediateValue, word), &bytes, &mut args, true), Ok(3));
    assert_eq!(args[1].location, ArgLocation::Immediate(SizedValue::Word(0x2211)));
    assert_eq!(decode_args(&declared(ArgSource::JumpRel, byte), &bytes, &mut args, true), Ok(2));
    assert_eq!(args[1].location, ArgLocation::Immediate(SizedValue::Byte(0x11)));
    assert!(!args[1].is_memory);
    assert_eq!(decode_args(&declared(ArgSource::ImmediateAddress, word), &bytes, &mut args, true), Ok(5));
    assert_eq!(args[1].location, ArgLocation::Address(0x44332211, ValueSize::Word));
    assert!(args[1].is_memory);
    assert_eq!(decode_args(&declared(ArgSource::RegisterSuffix, word), &bytes, &mut args, false), Ok(1));
    assert_eq!(args[1].location, ArgLocation::RegisterValue(1, ValueSize::Dword));
    let literal = ArgSource::Literal(SizedValue::Byte(1));
    assert_eq!(decode_args(&declared(literal, byte), &bytes, &mut args, false), Ok(1));
    assert_eq!(args[1].location, ArgLocation::Immediate(SizedValue::Byte(1)));
    assert_eq!(decode_args(&declared(ArgSource::HardcodedRegister(2), word), &bytes, &mut args, true), Ok(1));
    assert_eq!(args[1].location, ArgLocation::RegisterValue(2, ValueSize::Word));
    assert!(!args[1].is_memory);
    assert_eq!(decode_args(&declared(ArgSource::ModRMReg, byte), &bytes, &mut args, false), Ok(1));
    assert_eq!(args[1].location, ArgLocation::RegisterValue(0, ValueSize::Byte));
    let none = OpcodeValueSize::Fixed(ValueSize::Zero);
    assert_eq!(decode_args(&declared(ArgSource::ImmediateValue, none), &bytes, &mut args, false), Ok(1));
    assert_eq!(args[1].location, ArgLocation::Immediate(SizedValue::Empty));
}

#[test]
fn decoding_needs_its_bytes() {
    let mut args = [OpArgument { location: ArgLocation::RegisterValue(1, ValueSize::Byte), is_memory: true }; 3];
    let word = OpcodeValueSize::NativeWord;
    let opcode = declared(ArgSource::ImmediateValue, word);
    assert_eq!(decode_args(&opcode, &[0xB9, 1, 2, 3], &mut args, false), Err(VMError::DecodingOverrun));
    assert_eq!(decode_args(&opcode, &[], &mut args, false), Err(VMError::DecodingOverrun));
    assert_eq!(args[1].location, ArgLocation::RegisterValue(1, ValueSize::Byte));
    assert_eq!(decode_args(&opcode, &[0xB9, 1, 2, 3, 4], &mut args, false), Ok(5));
    assert_eq!(args[1].location, ArgLocation::Immediate(SizedValue::Dword(0x04030201)));
    assert_eq!(decode_args(&Opcode::default(), &[0xB9], &mut args, false), Ok(1));
    let mut three = Opcode::default();
    three.arg_source = [ArgSource::ImmediateValue, ArgSource::ImmediateAddress, ArgSource::ImmediateValue];
    three.arg_size = [word, word, word];
    assert_eq!(decode_args(&three, &[0; 12], &mut args, false), Err(VMError::DecodingOverrun));
    assert_eq!(decode_args(&three, &[0; 13], &mut args, false), Ok(13));
    assert_eq!(decode_args(&three, &[0; 8], &mut args, true), Err(VMError::DecodingOverrun));
    assert_eq!(decode_args(&three, &[0; 9], &mut args, true), Ok(9));
    let modrm = ParsedModRM { size: 9, ..ParsedModRM::default() };
    assert_eq!(
        decode_args_with_modrm(&Opcode::default(), &[0; 9], &mut args, false, false, Some(modrm)),
        Err(VMError::DecodingOverrun)
    );
    assert_eq!(
        decode_args_with_modrm(&Opcode::default(), &[0; 10], &mut args, false, false, Some(modrm)),
        Ok(10)
    );
}

#[test]
fn prefixes_are_taken_in_any_order() {
    let mut p = PrefixesActivated::default();
    assert_eq!(p.get_prefixes(&[0xF3, 0x66, 0xF2, 0x0F, 0x66], 0), Ok(4));
    assert_eq!(p, PrefixesActivated { size_override: true, two_bytes: true, repeat: Repeat::WhileNotEqual });
    let mut p = PrefixesActivated::default();
    assert_eq!(p.get_prefixes(&[0x90, 0x66], 5), Ok(5));
    assert_eq!(p, PrefixesActivated::default());
    assert_eq!(p.get_prefixes(&[0x66, 0x66], 0), Err(VMError::DecodingOverrun));
    assert_eq!(p.get_prefixes(&[], 0), Err(VMError::DecodingOverrun));
    assert_eq!(PrefixesActivated::default().get_prefixes(&[0x90], 255), Err(VMError::DecodingOverrun));
}

#[test]
fn an_instruction_is_decoded_with_its_cost() {
    let table = opcode_table();
    let mut vm = VM::default();
    vm.charger = GasCharger::test_schedule();
    let text = [0x66, 0x81, 0x84, 0x8D, 0x44, 0x33, 0x22, 0x11, 0x34, 0x12, 0, 0, 0, 0, 0, 0];
    let (slot, behavior) = decode_instruction(&vm, &table, &text, 0x10000).unwrap();
    assert_eq!(slot.function, OpcodeFn::AddNativeWord);
    assert_eq!(behavior, PipelineBehavior::Sequential);
    assert_eq!(slot.eip_size, 10);
    assert!(slot.size_override);
    assert_eq!(slot.opcode, 0x81);
    assert_eq!(slot.gas_cost, 4 + 1 + 1);
    assert_eq!(
        slot.args[0].location,
        ArgLocation::SIBAddress {
            offset: 0x11223344,
            base: Some(5),
            scale: 4,
            index: Some(1),
            size: ValueSize::Word
        }
    );
    assert_eq!(slot.args[1].location, ArgLocation::Immediate(SizedValue::Word(0x1234)));
    let (slot, _) = decode_instruction(&vm, &table, &sixteen(&[0x05, 1, 2, 3, 4]), 0x10000).unwrap();
    assert_eq!(slot.function, OpcodeFn::AddNativeWord);
    assert_eq!(slot.args[0], OpArgument { location: ArgLocation::RegisterValue(0, ValueSize::Dword), is_memory: false });
    assert_eq!(slot.args[1].location, ArgLocation::Immediate(SizedValue::Dword(0x04030201)));
    assert_eq!((slot.eip_size, slot.gas_cost), (5, 4));
    let (slot, behavior) = decode_instruction(&vm, &table, &sixteen(&[0x0F, 0x84, 1]), 0x80000000).unwrap();
    assert_eq!(slot.function, OpcodeFn::Jcc);
    assert_eq!(behavior, PipelineBehavior::Unpredictable);
    assert_eq!(slot.eip_size, 6);
    assert_eq!(slot.gas_cost, 4 + 10 + 15);
    let (slot, behavior) = decode_instruction(&vm, &table, &sixteen(&[0xF3, 0xA5]), 0).unwrap();
    assert_eq!((slot.function, slot.opcode, slot.eip_size), (OpcodeFn::Repe, 0xA5, 2));
    assert_eq!(behavior, PipelineBehavior::Sequential);
    let (slot, _) = decode_instruction(&vm, &table, &sixteen(&[0x0F, 0x0B]), 0).unwrap();
    assert_eq!((slot.function, slot.eip_size), (OpcodeFn::OpUndefined, 2));
    assert_eq!(decode_instruction(&vm, &table, &[0x90; 15], 0).unwrap_err(), VMError::DecodingOverrun);
    assert_eq!(decode_instruction(&vm, &table, &[], 0).unwrap_err(), VMError::DecodingOverrun);
    let (slot, _) = decode_instruction(&vm, &table, &[0x90; 16], 0).unwrap();
    assert_eq!((slot.function, slot.eip_size), (OpcodeFn::Nop, 1));
    let mut late = [0x66u8; 16];
    late[14] = 0x05;
    assert_eq!(decode_instruction(&vm, &table, &late, 0).unwrap_err(), VMError::DecodingOverrun);
    late[14] = 0x66;
    late[13] = 0x05;
    let (slot, _) = decode_instruction(&vm, &table, &late, 0).unwrap();
    assert_eq!(slot.eip_size, 16);
    assert!(slot.size_override);
    assert_eq!(slot.args[1].location, ArgLocation::Immediate(SizedValue::Word(0x6666)));
    let (slot, _) = decode_instruction(&vm, &[], &sixteen(&[0x90]), 0).unwrap();
    assert_eq!(slot.function, OpcodeFn::OpUndefined);
    vm.charger.costs = [u64::MAX; GASCOST_COUNT];
    let (slot, _) = decode_instruction(&vm, &table, &text, 0x10000).unwrap();
    assert_eq!(slot.gas_cost, u64::MAX);
}

#[test]
fn the_pipeline_stops_where_it_cannot_tell_what_follows() {
    let table = opcode_table();
    let mut vm = VM::default();
    vm.charger = GasCharger::test_schedule();
    vm.gas_remaining = 100;
    vm.memory.add_memory(0x10000, 0x100).unwrap();
    vm.copy_into_memory(0x10000, &[0x90, 0xEB, 0x00, 0x90, 0xF4]).unwrap();
    vm.eip = 0x10000;
    let mut pipeline = vec![Pipeline::default(); 4];
    assert_eq!(fill_pipeline(&vm, &table, &mut pipeline), Ok(()));
    assert_eq!(pipeline[0].function, OpcodeFn::Nop);
    assert_eq!(pipeline[0].eip_size, 1);
    assert_eq!(pipeline[1].function, OpcodeFn::JmpRel);
    assert_eq!(pipeline[1].eip_size, 2);
    assert_eq!((pipeline[2].function, pipeline[2].eip_size, pipeline[2].gas_cost), (OpcodeFn::Nop, 0, 0));
    assert_eq!((pipeline[3].function, pipeline[3].eip_size, pipeline[3].gas_cost), (OpcodeFn::Nop, 0, 0));
    vm.eip = 0x10003;
    assert_eq!(fill_pipeline(&vm, &table, &mut pipeline), Ok(()));
    assert_eq!(pipeline[0].function, OpcodeFn::Nop);
    assert_eq!(pipeline[1].function, OpcodeFn::Hlt);
    assert_eq!(pipeline[2].eip_size, 0);
    vm.eip = 0x100F1;
    assert_eq!(fill_pipeline(&vm, &table, &mut pipeline), Err(VMError::ReadBadMemory(0x10100)));
    vm.eip = 0x200F1;
    assert_eq!(fill_pipeline(&vm, &table, &mut pipeline), Err(VMError::ReadUnloadedMemory(0x200F1)));
    clear_pipeline(&mut pipeline);
    assert!(pipeline.iter().all(|p| p.function == OpcodeFn::Nop && p.eip_size == 1 && p.gas_cost == 0));
}

#[test]
fn the_pipeline_stops_when_the_gas_is_used_up() {
    let table = opcode_table();
    let mut vm = VM::default();
    vm.charger = GasCharger::test_schedule();
    vm.memory.add_memory(0x10000, 0x100).unwrap();
    vm.copy_into_memory(0x10000, &[0xB0, 1, 0xB0, 2, 0xB0, 3, 0xF4]).unwrap();
    vm.eip = 0x10000;
    vm.gas_remaining = 2;
    let mut pipeline = vec![Pipeline::default(); 4];
    assert_eq!(fill_pipeline(&vm, &table, &mut pipeline), Ok(()));
    assert_eq!(pipeline[0].function, OpcodeFn::Mov);
    assert_eq!(pipeline[1].function, OpcodeFn::Mov);
    assert_eq!((pipeline[2].function, pipeline[2].eip_size), (OpcodeFn::Nop, 0));
    vm.gas_remaining = 0;
    assert_eq!(fill_pipeline(&vm, &table, &mut pipeline), Ok(()));
    assert_eq!(pipeline[0].function, OpcodeFn::Mov);
    assert_eq!((pipeline[1].function, pipeline[1].eip_size), (OpcodeFn::Nop, 0));
}

#[test]
fn a_cycle_executes_the_slots_of_the_pipeline() {
    let table = opcode_table();
    let mut vm = VM::default();
    vm.charger = GasCharger::test_schedule();
    vm.memory.add_memory(0x10000, 0x100).unwrap();
    vm.copy_into_memory(0x10000, &[0xB0, 1, 0xB4, 2, 0xB1, 3, 0xF4]).unwrap();
    vm.eip = 0x10000;
    vm.gas_remaining = 100;
    let mut pipeline = vec![Pipeline::default(); 2];
    let mut hv = NoHypervisor;
    assert_eq!(vm.cycle(&table, &mut pipeline, &mut hv), Ok(false));
    assert_eq!((vm.eip, vm.regs[0], vm.regs[1], vm.gas_remaining), (0x10004, 0x0201, 0, 98));
    assert_eq!(vm.cycle(&table, &mut pipeline, &mut hv), Ok(true));
    assert_eq!((vm.eip, vm.regs[0], vm.regs[1], vm.gas_remaining), (0x10006, 0x0201, 3, 97));
    vm.eip = 0x10000;
    assert_eq!(vm.execute_cycles(&table, &mut hv, 0), Ok(false));
    assert_eq!(vm.eip, 0x10000);
    vm.copy_into_memory(0x10000, &[0xEB, 0xFE]).unwrap();
    vm.charger = GasCharger::default();
    assert_eq!(vm.execute_cycles(&table, &mut hv, 1000), Ok(false));
    assert_eq!((vm.eip, vm.gas_remaining), (0x10000, 97));
    vm.copy_into_memory(0x10000, &[0xCD, 0x21]).unwrap();
    assert_eq!(vm.execute(&mut hv), Err(VMError::SyscallError));
    assert_eq!(vm.error_eip, 0x10000);
}

#[test]
fn handlers_work_on_the_slot_they_are_given() {
    let mut vm = VM::default();
    let mut hv = NoHypervisor;
    vm.eip = 0x10010;
    vm.regs[1] = 0x00010000;
    let mut p = slot(
        OpcodeFn::JmpConditionalEcxIsZero,
        [ArgLocation::Immediate(SizedValue::Byte(0xFE)), ArgLocation::Nowhere, ArgLocation::Nowhere],
    );
    p.eip_size = 3;
    p.size_override = true;
    assert_eq!(jmp_conditional_ecx_is_zero(&mut vm, &p, &mut hv), Ok(()));
    assert_eq!(vm.eip, 0x0011u32.wrapping_sub(3));
    vm.eip = 0x10010;
    p.size_override = false;
    assert_eq!(jmp_conditional_ecx_is_zero(&mut vm, &p, &mut hv), Ok(()));
    assert_eq!(vm.eip, 0x10010);
    let mut p = slot(
        OpcodeFn::JmpAbs,
        [ArgLocation::RegisterValue(1, ValueSize::Dword), ArgLocation::Nowhere, ArgLocation::Nowhere],
    );
    p.eip_size = 2;
    vm.regs[1] = 0x12345678;
    assert_eq!(jmp_abs(&mut vm, &p, &mut hv), Ok(()));
    assert_eq!(vm.eip, 0x12345676);
    p.size_override = true;
    p.args[0].location = ArgLocation::RegisterValue(1, ValueSize::Word);
    assert_eq!(jmp_abs(&mut vm, &p, &mut hv), Ok(()));
    assert_eq!(vm.eip, 0x5676);
    let p = slot(
        OpcodeFn::Mov,
        [ArgLocation::Immediate(SizedValue::Byte(1)), ArgLocation::RegisterValue(0, ValueSize::Byte), ArgLocation::Nowhere],
    );
    assert_eq!(mov(&mut vm, &p, &mut hv), Err(VMError::WroteUnwriteableArgument));
    let p = slot(
        OpcodeFn::Lea,
        [ArgLocation::RegisterValue(0, ValueSize::Dword), ArgLocation::RegisterValue(1, ValueSize::Dword), ArgLocation::Nowhere],
    );
    assert_eq!(lea(&mut vm, &p, &mut hv), Err(VMError::InvalidOpcodeEncoding));
    let p = slot(
        OpcodeFn::Lea,
        [
            ArgLocation::RegisterValue(0, ValueSize::Dword),
            ArgLocation::SIBAddress { offset: 0xFFFFFFFF, base: Some(1), scale: 2, index: Some(1), size: ValueSize::Byte },
            ArgLocation::Nowhere,
        ],
    );
    assert_eq!(lea(&mut vm, &p, &mut hv), Ok(()));
    assert_eq!(vm.regs[0], 0x12345678u32.wrapping_mul(3).wrapping_sub(1));
}

#[test]
fn arguments_are_found_where_they_are_located() {
    let mut vm = VM::default();
    vm.memory.add_memory(0x80000000, 0x100).unwrap();
    vm.regs[3] = 0x80000010;
    vm.regs[6] = 8;
    let near = ArgLocation::ModRMAddress { offset: Some(0xFFFFFFF0), reg: Some(3), size: ValueSize::Dword };
    let scaled = ArgLocation::SIBAddress { offset: 4, base: Some(3), scale: 8, index: Some(6), size: ValueSize::Word };
    assert_eq!(vm.calculate_modrm_address(&near), 0x80000000);
    assert_eq!(vm.calculate_modrm_address(&scaled), 0x80000054);
    assert_eq!(vm.get_arg_lea(near), Ok(0x80000000));
    assert_eq!(vm.get_arg_lea(ArgLocation::Address(5, ValueSize::Byte)), Ok(5));
    assert_eq!(vm.get_arg_lea(ArgLocation::RegisterAddress(6, ValueSize::Byte)), Ok(8));
    assert_eq!(vm.get_arg_lea(ArgLocation::Nowhere), Err(VMError::InvalidOpcodeEncoding));
    assert_eq!(vm.get_arg_lea(ArgLocation::Immediate(SizedValue::Byte(1))), Err(VMError::InvalidOpcodeEncoding));
    assert_eq!(vm.set_arg(near, SizedValue::Qword(0x1122334455667788)), Ok(()));
    assert_eq!(vm.get_arg(near), Ok(SizedValue::Dword(0x55667788)));
    assert_eq!(vm.set_arg(scaled, SizedValue::Byte(0x99)), Ok(()));
    assert_eq!(vm.get_arg(scaled), Ok(SizedValue::Word(0x0099)));
    assert_eq!(vm.get_arg(ArgLocation::Nowhere), Ok(SizedValue::Empty));
    assert_eq!(vm.set_arg(ArgLocation::Nowhere, SizedValue::Byte(1)), Ok(()));
    assert_eq!(
        vm.set_arg(ArgLocation::Immediate(SizedValue::Byte(1)), SizedValue::Byte(1)),
        Err(VMError::WroteUnwriteableArgument)
    );
    assert_eq!(
        vm.set_arg(ArgLocation::RegisterValue(0, ValueSize::Word), SizedValue::Dword(1)),
        Err(VMError::TooBigSizeExpectation)
    );
    assert_eq!(
        vm.set_arg(ArgLocation::RegisterValue(0, ValueSize::Byte), SizedValue::Word(1)),
        Err(VMError::TooBigSizeExpectation)
    );
    assert_eq!(
        vm.set_arg(ArgLocation::RegisterValue(0, ValueSize::Zero), SizedValue::Word(1)),
        Err(VMError::WrongSizeExpectation)
    );
    assert_eq!(vm.regs[0], 0);
    assert_eq!(vm.set_arg(ArgLocation::RegisterValue(4, ValueSize::Byte), SizedValue::Byte(0x12)), Ok(()));
    assert_eq!(vm.set_arg(ArgLocation::RegisterValue(4, ValueSize::Word), SizedValue::Byte(0x34)), Ok(()));
    assert_eq!((vm.regs[0], vm.regs[4]), (0x1200, 0x0034));
}

#[test]
fn the_stack_grows_downwards() {
    let mut vm = VM::default();
    vm.memory.add_memory(0x80000000, 0x100).unwrap();
    vm.regs[4] = 0x80000010;
    let mut p = Pipeline::default();
    assert_eq!(vm.push_stack(SizedValue::Byte(0x80), &p), Ok(()));
    assert_eq!(vm.regs[4], 0x8000000C);
    assert_eq!(vm.memory.get_u32(0x8000000C), Ok(0x80));
    p.size_override = true;
    assert_eq!(vm.push_stack(SizedValue::Dword(1), &p), Err(VMError::TooBigSizeExpectation));
    assert_eq!(vm.push_stack(SizedValue::Word(0x1234), &p), Ok(()));
    assert_eq!(vm.regs[4], 0x8000000A);
    assert_eq!(vm.pop16(), Ok(SizedValue::Word(0x1234)));
    assert_eq!(vm.pop32(), Ok(SizedValue::Dword(0x80)));
    assert_eq!(vm.regs[4], 0x80000010);
    vm.regs[4] = 0x80000001;
    assert_eq!(vm.push_stack(SizedValue::Word(1), &p), Err(VMError::WroteReadOnlyMemory(0x7FFFFFFF)));
    assert_eq!(vm.regs[4], 0x80000001);
    vm.regs[4] = 0x800000FE;
    assert_eq!(vm.pop32(), Err(VMError::ReadBadMemory(0x80000101)));
    assert_eq!(vm.regs[4], 0x800000FE);
    assert_eq!(vm.pop16(), Ok(SizedValue::Word(0)));
    assert_eq!(vm.regs[4], 0x80000100);
}

#[test]
fn gas_tiers_and_schedules() {
    let charger = GasCharger::test_schedule();
    assert_eq!(charger.costs, [0, 1, 4, 10, 20, 10, 1, 15, 1]);
    assert_eq!(charger.cost(GasCost::Free), 0);
    assert_eq!(charger.cost(GasCost::VeryLow), 1);
    assert_eq!(charger.cost(GasCost::Low), 4);
    assert_eq!(charger.cost(GasCost::Moderate), 10);
    assert_eq!(charger.cost(GasCost::High), 20);
    assert_eq!(charger.cost(GasCost::ConditionalBranch), 10);
    assert_eq!(charger.cost(GasCost::MemoryAccess), 1);
    assert_eq!(charger.cost(GasCost::WriteableMemoryExec), 15);
    assert_eq!(charger.cost(GasCost::ModRMSurcharge), 1);
    assert_eq!(GasCharger::default().costs, [0; GASCOST_COUNT]);
    assert_eq!(GasCost::default(), GasCost::Low);
    assert_eq!(GasCost::ModRMSurcharge.ordinal(), 8);
    assert_eq!((Reg32::EDI.number(), Reg16::SP.number(), Reg8::BH.number()), (7, 4, 7));
}

#[test]
fn definitions_fill_the_table() {
    let mut table = vec![OpcodeProperties::default(); OPCODE_TABLE_SIZE];
    define_opcode_multi(0x70, 16)
        .calls(OpcodeFn::Jcc)
        .is_two_byte_op()
        .with_arg(ArgSource::JumpRel, OpcodeValueSize::NativeWord)
        .is_unpredictable()
        .into_table(&mut table);
    define_opcode(0x50).calls(OpcodeFn::Push).with_suffix_regw().with_gas(GasCost::High).into_table(&mut table);
    define_opcode(0xFE).is_group(1).calls(OpcodeFn::Decrement8bit).with_rm8().into_table(&mut table);
    define_opcode(0xFE).is_group(0).calls(OpcodeFn::Increment8bit).with_rm8().into_table(&mut table);
    define_opcode(0x8B).calls(OpcodeFn::Mov).with_rm_regw().with_rmw().is_jump().into_table(&mut table);
    define_opcode(0xF4).calls(OpcodeFn::Hlt).is_unpredictable_no_gas().into_table(&mut table);
    for key in 0x170..0x180 {
        let entry = &table[key];
        assert!(entry.defined && !entry.has_modrm);
        assert!(entry.opcodes[0].defined && !entry.opcodes[1].defined);
        assert_eq!(entry.opcodes[0].function, OpcodeFn::Jcc);
        assert_eq!(entry.opcodes[0].pipeline_behavior, PipelineBehavior::Unpredictable);
        assert_eq!(entry.opcodes[0].gas_cost, GasCost::Low);
        assert_eq!(entry.opcodes[0].arg_source, [ArgSource::JumpRel, ArgSource::Unused, ArgSource::Unused]);
    }
    assert!(!table[0x70].defined && !table[0x16F].defined && !table[0x180].defined);
    for key in 0x50..0x58 {
        assert_eq!(table[key].opcodes[0].function, OpcodeFn::Push);
        assert_eq!(table[key].opcodes[0].gas_cost, GasCost::High);
        assert_eq!(table[key].opcodes[0].pipeline_behavior, PipelineBehavior::Sequential);
    }
    assert!(!table[0x58].defined);
    let group = &table[0xFE];
    assert!(group.defined && group.has_modrm);
    assert_eq!(group.opcodes[0].function, OpcodeFn::Increment8bit);
    assert_eq!(group.opcodes[1].function, OpcodeFn::Decrement8bit);
    assert!(!group.opcodes[2].defined);
    assert_eq!(group.opcodes[2].function, OpcodeFn::OpUndefined);
    let whole = &table[0x8B];
    assert!(whole.has_modrm);
    assert!(whole.opcodes.iter().all(|o| o.function == OpcodeFn::Mov && o.defined));
    assert_eq!(whole.opcodes[7].pipeline_behavior, PipelineBehavior::RelativeJump);
    assert_eq!(whole.opcodes[7].arg_size, [OpcodeValueSize::NativeWord, OpcodeValueSize::NativeWord, OpcodeValueSize::Fixed(ValueSize::Zero)]);
    assert_eq!(table[0xF4].opcodes[0].pipeline_behavior, PipelineBehavior::UnpredictableNoGas);
    assert_eq!(OpcodeValueSize::NativeWord.to_fixed(true), ValueSize::Word);
    assert_eq!(OpcodeValueSize::NativeWord.to_fixed(false), ValueSize::Dword);
    assert_eq!(OpcodeValueSize::Fixed(ValueSize::Byte).to_fixed(true), ValueSize::Byte);
}

#[test]
fn the_table_of_the_subset() {
    let table = opcode_table();
    assert_eq!(table.len(), OPCODE_TABLE_SIZE);
    assert_eq!(table.iter().filter(|e| e.defined).count(), 252);
    assert_eq!(table[0x90].opcodes[0].function, OpcodeFn::Nop);
    assert_eq!(table[0x90].opcodes[0].gas_cost, GasCost::Free);
    assert_eq!(table[0x91].opcodes[0].function, OpcodeFn::Xchg);
    assert_eq!(table[0xF4].opcodes[0].function, OpcodeFn::Hlt);
    assert_eq!(table[0xF4].opcodes[0].pipeline_behavior, PipelineBehavior::UnpredictableNoGas);
    assert_eq!(table[0xCC].opcodes[0].arg_source[0], ArgSource::Literal(SizedValue::Byte(3)));
    assert_eq!(table[0xCD].opcodes[0].function, OpcodeFn::Interrupt);
    assert_eq!(table[0xAF].opcodes[0].function, OpcodeFn::ScanStringNativeWord);
    assert_eq!(table[0x1AF].opcodes[3].function, OpcodeFn::Imul2NativeWord);
    assert_eq!(table[0xE8].opcodes[0].pipeline_behavior, PipelineBehavior::RelativeJump);
    assert_eq!(table[0xE9].opcodes[0].pipeline_behavior, PipelineBehavior::Unpredictable);
    let group: Vec<OpcodeFn> = table[0xFF].opcodes.iter().map(|o| o.function).collect();
    assert_eq!(
        group,
        vec![
            OpcodeFn::IncrementNativeWord,
            OpcodeFn::DecrementNativeWord,
            OpcodeFn::CallAbs,
            OpcodeFn::OpUndefined,
            OpcodeFn::JmpAbs,
            OpcodeFn::OpUndefined,
            OpcodeFn::Push,
            OpcodeFn::OpUndefined,
        ]
    );
    let group: Vec<OpcodeFn> = table[0x80].opcodes.iter().map(|o| o.function).collect();
    assert_eq!(
        group,
        vec![
            OpcodeFn::Add8bit,
            OpcodeFn::Or8bit,
            OpcodeFn::Adc8bit,
            OpcodeFn::Sbb8bit,
            OpcodeFn::And8bit,
            OpcodeFn::Sub8bit,
            OpcodeFn::Xor8bit,
            OpcodeFn::Cmp8bit,
        ]
    );
    assert!(!table[0x0F].defined && !table[0x66].defined && !table[0xF3].defined && !table[0x10B].defined);
    assert_eq!(table[0x1C8].opcodes[0].function, OpcodeFn::Bswap);
    assert_eq!(table[0x1CF].opcodes[0].function, OpcodeFn::Bswap);
    assert_eq!(table[0xC8].opcodes[0].function, OpcodeFn::Enter);
    assert_eq!(table[0xA1].opcodes[0].arg_source[0], ArgSource::HardcodedRegister(0));
}

#[test]
fn an_instruction_is_no_longer_than_255_bytes() {
    let table = opcode_table();
    let vm = VM::default();
    let mut text = vec![0x66u8; 246];
    text.extend_from_slice(&[0xC7, 0x84, 0x8D, 1, 2, 3, 4, 5, 6, 0, 0, 0, 0]);
    let (slot, _) = decode_instruction(&vm, &table, &text, 0).unwrap();
    assert_eq!(slot.eip_size, 255);
    assert_eq!(slot.function, OpcodeFn::Mov);
    text.insert(0, 0x66);
    assert_eq!(decode_instruction(&vm, &table, &text, 0).unwrap_err(), VMError::DecodingOverrun);
}

#[test]
fn the_count_register_as_a_native_word() {
    let mut vm = VM::default();
    vm.regs[1] = 0x00050001;
    assert_eq!(read_regw(&vm, Reg32::ECX, true), 1);
    assert_eq!(read_regw(&vm, Reg32::ECX, false), 0x00050001);
    assert_eq!(decrement_regw(&mut vm, Reg32::ECX, true), 0);
    assert_eq!(vm.regs[1], 0x00050000);
    assert_eq!(decrement_regw(&mut vm, Reg32::ECX, false), 0x0004FFFF);
    assert_eq!(vm.regs[1], 0x0004FFFF);
    assert_eq!(decrement_regw(&mut vm, Reg32::ECX, true), 0xFFFE);
    assert_eq!(vm.regs[1], 0x0004FFFE);
}

#[test]
fn a_pipeline_runs_up_to_an_interrupt() {
    let table = opcode_table();
    let mut vm = VM::default();
    vm.charger = GasCharger::test_schedule();
    vm.memory.add_memory(0x10000, 0x100).unwrap();
    vm.copy_into_memory(0x10000, &[0xB0, 7, 0xCD, 0x21, 0xB0, 8, 0xF4]).unwrap();
    vm.eip = 0x10000;
    vm.gas_remaining = 100;
    let mut pipeline = vec![Pipeline::default(); 4];
    let mut hv = NoHypervisor;
    assert_eq!(fill_pipeline(&vm, &table, &mut pipeline), Ok(()));
    assert_eq!(pipeline[1].function, OpcodeFn::Interrupt);
    assert_eq!(pipeline[2].eip_size, 0);
    assert_eq!(vm.run_pipeline(&pipeline, 0, &mut hv), Progress::Interrupt { num: 0x21, slot: 1 });
    assert_eq!((vm.eip, vm.regs[0], vm.gas_remaining), (0x10002, 7, 100 - 1 - 20));
    assert_eq!(vm.conclude(&pipeline[1], Ok(())), None);
    assert_eq!(vm.eip, 0x10004);
    assert_eq!(vm.run_pipeline(&pipeline, 2, &mut hv), Progress::Ended(Ok(false)));
    assert_eq!((vm.eip, vm.gas_remaining), (0x10004, 79));
    assert_eq!(vm.conclude(&pipeline[1], Err(VMError::InternalVMStop)), Some(Ok(true)));
    assert_eq!(vm.conclude(&pipeline[1], Err(VMError::SyscallError)), Some(Err(VMError::SyscallError)));
    assert_eq!(vm.error_eip, 0x10004);
    pipeline[1].args[0].location = ArgLocation::Immediate(SizedValue::Word(0x21));
    vm.eip = 0x10002;
    assert_eq!(
        vm.run_pipeline(&pipeline, 1, &mut hv),
        Progress::Ended(Err(VMError::WrongSizeExpectation))
    );
    assert_eq!(vm.error_eip, 0x10002);
    vm.gas_remaining = 19;
    assert_eq!(vm.run_pipeline(&pipeline, 1, &mut hv), Progress::Ended(Err(VMError::OutOfGas)));
    assert_eq!(vm.gas_remaining, 0);
}
