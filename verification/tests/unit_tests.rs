use qx86::bitmanip::BitManipulation;
use qx86::decoding::{decode_args, decode_args_with_modrm, ParsedModRM};
use qx86::memory::MemorySystem;
use qx86::opcodes::{
    define_opcode, ArgSource, Opcode, OpcodeFn, OpcodeProperties, OpcodeValueSize,
    OPCODE_TABLE_SIZE,
};
use qx86::pipeline::{fill_pipeline, Pipeline};
use qx86::structs::{ArgLocation, OpArgument, SizedValue, ValueSize, MAX_ARGS};
use qx86::vm::{GasCost, Reg16, Reg32, Reg8, VMError, VM};

#[test]
fn test_bits() {
    let tmp = 0b0000_1000u8;
    assert!(!tmp.get_bit(0));
    assert!(tmp.get_bit(3));
    assert!(tmp.get_bit_big_endian(4));
    let mut tmp2 = tmp;
    tmp2.set_bit(2, true);
    tmp2.set_bit(3, false);
    tmp2.set_bit(0, true);
    assert!(tmp2 == 0b0000_0101);
    assert!(tmp2.get_bit(0));
    assert!(tmp2.get_bit_big_endian(7));
}

#[test]
fn it_works() {
    assert_eq!(2 + 2, 4);
}

fn decode_arg(source: ArgSource, size: OpcodeValueSize, bytecode: &[u8]) -> (OpArgument, usize) {
    let mut args:[OpArgument; MAX_ARGS] = Default::default();
    let mut opcode:Opcode = Default::default();
    opcode.arg_source[0] = source;
    opcode.arg_size[0] = size;
    
    let res = match decode_args(&opcode, bytecode, &mut args, false) {
        Err(_) => {
            assert!(false, "decode resulted in error");
            0
        },
        Ok(s) => s
    };
    (args[0], res) 
}

fn decode_arg_modrm(source: ArgSource, size: OpcodeValueSize, bytecode: &[u8]) -> (OpArgument, usize) {
    let mut args:[OpArgument; MAX_ARGS] = Default::default();
    let mut opcode:Opcode = Default::default();
    opcode.arg_source[0] = source;
    opcode.arg_size[0] = size;

    let modrm = ParsedModRM::from_bytes(bytecode).unwrap();
    
    let res = match decode_args_with_modrm(&opcode, bytecode, &mut args, false, false, Some(modrm)) {
        Err(_) => {
            assert!(false, "decode resulted in error");
            0
        },
        Ok(s) => s
    };
    (args[0], res) 
}
#[test]
fn decode_immediate_address() {
    let mut bytes = vec![
        0xFA,
        0x11,
        0x22,
        0x33,
        0x44
    ];
    bytes.resize(bytes.len() + 16, 0);
    let (arg, size) = decode_arg(ArgSource::ImmediateAddress, OpcodeValueSize::Fixed(ValueSize::Byte), &bytes);

    assert!(arg.location == ArgLocation::Address(0x44332211, ValueSize::Byte));
    assert!(size == 5);
}
#[test]
fn decode_immediate_value() {
    let mut bytes = vec![
        0xFA,
        0x11,
        0x22,
        0x33,
        0x44,
        0x88
    ];
    bytes.resize(bytes.len() + 16, 0);
    {
        let (arg, size) = decode_arg(ArgSource::ImmediateValue, OpcodeValueSize::Fixed(ValueSize::Byte), &bytes);
        assert!(arg.location == ArgLocation::Immediate(SizedValue::Byte(0x11)));
        assert!(size == 2);
    }
    {
        let (arg, size) = decode_arg(ArgSource::ImmediateValue, OpcodeValueSize::Fixed(ValueSize::Word), &bytes);
        assert!(arg.location == ArgLocation::Immediate(SizedValue::Word(0x2211)));
        assert!(size == 3);
    }
    {
        let (arg, size) = decode_arg(ArgSource::ImmediateValue, OpcodeValueSize::Fixed(ValueSize::Dword), &bytes);
        assert!(arg.location == ArgLocation::Immediate(SizedValue::Dword(0x44332211)));
        assert!(size == 5);
    }
}
#[test]
fn decode_register_suffix_value() {
    let mut bytes = vec![
        0xF3
    ];
    bytes.resize(bytes.len() + 16, 0);
    let (arg, size) = decode_arg(ArgSource::RegisterSuffix, OpcodeValueSize::Fixed(ValueSize::Dword), &bytes);
    assert!(size == 1);
    assert!(arg.location == ArgLocation::RegisterValue(3, ValueSize::Dword));
}

#[test]
fn decode_modrm() {
    {
        let mut bytes = vec![
            0xFA,
            0x0B
        ];
        bytes.resize(bytes.len() + 16, 0);
        let (arg, size) = decode_arg_modrm(ArgSource::ModRM, OpcodeValueSize::Fixed(ValueSize::Word), &bytes);
        assert_eq!(size, 2);
        assert_eq!(arg.location, ArgLocation::RegisterAddress(Reg32::EBX as u8, ValueSize::Word));
        let (arg, size) = decode_arg_modrm(ArgSource::ModRMReg, OpcodeValueSize::Fixed(ValueSize::Word), &bytes);
        assert_eq!(size, 2);
        assert_eq!(arg.location, ArgLocation::RegisterValue(Reg16::CX as u8, ValueSize::Word));
    }
    {
        let mut bytes = vec![
            0xFA,
            0x25,
            0x11, 0x22, 0x33, 0x44
        ];
        bytes.resize(bytes.len() + 16, 0);
        let (arg, size) = decode_arg_modrm(ArgSource::ModRM, OpcodeValueSize::Fixed(ValueSize::Byte), &bytes);
        assert_eq!(size, 6);
        assert_eq!(arg.location, ArgLocation::Address(0x44332211, ValueSize::Byte));
        let (arg, size) = decode_arg_modrm(ArgSource::ModRMReg, OpcodeValueSize::Fixed(ValueSize::Byte), &bytes);
        assert_eq!(size, 6);
        assert_eq!(arg.location, ArgLocation::RegisterValue(Reg8::AH as u8, ValueSize::Byte));
    }
    {
        let mut bytes = vec![
            0xFA,
            0x47,
            0x12
        ];
        bytes.resize(bytes.len() + 16, 0);
        let (arg, size) = decode_arg_modrm(ArgSource::ModRM, OpcodeValueSize::Fixed(ValueSize::Dword), &bytes);
        assert_eq!(size, 3);
        assert_eq!(arg.location, ArgLocation::ModRMAddress{
            offset: Some(0x12),
            reg: Some(Reg32::EDI as u8),
            size: ValueSize::Dword
        });
        let (arg, size) = decode_arg_modrm(ArgSource::ModRMReg, OpcodeValueSize::NativeWord, &bytes);
        assert_eq!(size, 3);
        assert_eq!(arg.location, ArgLocation::RegisterValue(Reg32::EAX as u8, ValueSize::Dword));
    }
    {
        let mut bytes = vec![
            0xFA,
            0xDD,
        ];
        bytes.resize(bytes.len() + 16, 0);
        let (arg, size) = decode_arg_modrm(ArgSource::ModRM, OpcodeValueSize::Fixed(ValueSize::Word), &bytes);
        assert_eq!(size, 2);
        assert_eq!(arg.location, ArgLocation::RegisterValue(Reg16::BP as u8, ValueSize::Word));
        let (arg, size) = decode_arg_modrm(ArgSource::ModRMReg, OpcodeValueSize::Fixed(ValueSize::Word), &bytes);
        assert_eq!(size, 2);
        assert_eq!(arg.location, ArgLocation::RegisterValue(Reg16::BX as u8, ValueSize::Word));
    }
}
#[test]
fn decode_sib() {
    {
        let mut bytes = vec![
            0xFA,
            0x0C,
            0xAF,
        ];
        bytes.resize(bytes.len() + 16, 0);
        let (arg, size) = decode_arg_modrm(ArgSource::ModRM, OpcodeValueSize::Fixed(ValueSize::Dword), &bytes);
        assert_eq!(size, 3);
        assert_eq!(arg.location, ArgLocation::SIBAddress{
            offset: 0,
            base: Some(Reg32::EDI as u8),
            scale: 4,
            index: Some(Reg32::EBP as u8),
            size: ValueSize::Dword
        });
        let (arg, size) = decode_arg_modrm(ArgSource::ModRMReg, OpcodeValueSize::Fixed(ValueSize::Dword), &bytes);
        assert_eq!(size, 3);
        assert_eq!(arg.location, ArgLocation::RegisterValue(Reg32::ECX as u8, ValueSize::Dword));
    }
    {
        let mut bytes = vec![
            0xFA,
            0x0C,
            0x61,
        ];
        bytes.resize(bytes.len() + 16, 0);
        let (arg, size) = decode_arg_modrm(ArgSource::ModRM, OpcodeValueSize::Fixed(ValueSize::Dword), &bytes);
        assert_eq!(size, 3);
        assert_eq!(arg.location, ArgLocation::SIBAddress{
            offset: 0,
            base: Some(Reg32::ECX as u8),
            scale: 2,
            index: Option::None,
            size: ValueSize::Dword
        });
        let (arg, size) = decode_arg_modrm(ArgSource::ModRMReg, OpcodeValueSize::Fixed(ValueSize::Dword), &bytes);
        assert_eq!(size, 3);
        assert_eq!(arg.location, ArgLocation::RegisterValue(Reg32::ECX as u8, ValueSize::Dword));
    }
    {
        let mut bytes = vec![
            0xFA,
            0x0C,
            0xCD,
            0x11, 0x22, 0x33, 0x44
        ];
        bytes.resize(bytes.len() + 16, 0);
        let (arg, size) = decode_arg_modrm(ArgSource::ModRM, OpcodeValueSize::Fixed(ValueSize::Dword), &bytes);
        assert_eq!(size, 7);
        assert_eq!(arg.location, ArgLocation::SIBAddress{
            offset: 0x44332211,
            base: Option::None,
            scale: 8, 
            index: Some(Reg32::ECX as u8),
            size: ValueSize::Dword
        });
        let (arg, size) = decode_arg_modrm(ArgSource::ModRMReg, OpcodeValueSize::Fixed(ValueSize::Dword), &bytes);
        assert_eq!(size, 7);
        assert_eq!(arg.location, ArgLocation::RegisterValue(Reg32::ECX as u8, ValueSize::Dword));
    }
    {
        let mut bytes = vec![
            0xFA,
            0x44,
            0x8D,
            0x11
        ];
        bytes.resize(bytes.len() + 16, 0);
        let (arg, size) = decode_arg_modrm(ArgSource::ModRM, OpcodeValueSize::Fixed(ValueSize::Dword), &bytes);
        assert_eq!(size, 4);
        assert_eq!(arg.location, ArgLocation::SIBAddress{
            offset: 0x11,
            base: Some(Reg32::EBP as u8),
            scale: 4, 
            index: Some(Reg32::ECX as u8),
            size: ValueSize::Dword
        });
        let (arg, size) = decode_arg_modrm(ArgSource::ModRMReg, OpcodeValueSize::Fixed(ValueSize::Dword), &bytes);
        assert_eq!(size, 4);
        assert_eq!(arg.location, ArgLocation::RegisterValue(Reg32::EAX as u8, ValueSize::Dword));
    }
    {
        let mut bytes = vec![
            0xFA,
            0x44,
            0x8D,
            0xEF
        ];
        bytes.resize(bytes.len() + 16, 0);
        let (arg, size) = decode_arg_modrm(ArgSource::ModRM, OpcodeValueSize::Fixed(ValueSize::Dword), &bytes);
        assert_eq!(size, 4);
        assert_eq!(arg.location, ArgLocation::SIBAddress{
            offset: (-0x11i32) as u32,
            base: Some(Reg32::EBP as u8),
            scale: 4, 
            index: Some(Reg32::ECX as u8),
            size: ValueSize::Dword
        });
        let (arg, size) = decode_arg_modrm(ArgSource::ModRMReg, OpcodeValueSize::Fixed(ValueSize::Dword), &bytes);
        assert_eq!(size, 4);
        assert_eq!(arg.location, ArgLocation::RegisterValue(Reg32::EAX as u8, ValueSize::Dword));
    }
}



const TEST_OP: OpcodeFn = OpcodeFn::Mov;
const TEST2_OP: OpcodeFn = OpcodeFn::Push;
const TEST3_OP: OpcodeFn = OpcodeFn::Jcc;
const TEST4_OP: OpcodeFn = OpcodeFn::Pop;

fn test_opcodes() -> [OpcodeProperties; OPCODE_TABLE_SIZE] {
    let mut table = [OpcodeProperties::default(); OPCODE_TABLE_SIZE];

    define_opcode(0x01)
        .with_gas(GasCost::Low)
        .calls(TEST_OP)
        .into_table(&mut table);
    define_opcode(0x02)
        .with_arg(ArgSource::ImmediateValue, OpcodeValueSize::Fixed(ValueSize::Byte))
        .with_gas(GasCost::VeryLow)
        .calls(OpcodeFn::Nop)
        .into_table(&mut table);
    define_opcode(0x03)
        .with_arg(ArgSource::JumpRel, OpcodeValueSize::Fixed(ValueSize::Dword))
        .is_unpredictable()
        .with_gas(GasCost::High)
        .calls(TEST3_OP)
        .into_table(&mut table);
    define_opcode(0x10)
        .with_arg(ArgSource::RegisterSuffix, OpcodeValueSize::Fixed(ValueSize::Dword))
        .with_arg(ArgSource::ImmediateAddress, OpcodeValueSize::Fixed(ValueSize::Dword))
        .with_gas(GasCost::Moderate)
        .calls(TEST2_OP)
        .into_table(&mut table);
    define_opcode(0xFF)
        .is_group(3)
        .with_rmw()
        .calls(TEST4_OP)
        .into_table(&mut table);

    table
}

#[test]
fn test_simple_pipeline() {
    let opcodes = test_opcodes();
    let mut vm = VM::default();
    vm.gas_remaining = 1;
    let vm_mem = vm.memory.add_memory(0x10000, 0x100).unwrap();
    vm.eip = 0x10000;
    let bytes = vec![
        0x01,
        0x02, 0x15,
        0x12, 0x11, 0x22, 0x33, 0x44,
    ];
    (&mut vm_mem[0..bytes.len()]).copy_from_slice(&bytes);
    let mut pipeline = vec![];
    pipeline.resize(2, Pipeline::default());
    fill_pipeline(&vm, &opcodes, &mut pipeline).unwrap();
    

    assert!(pipeline[0].function == TEST_OP);
    assert!(pipeline[0].args[0].location == ArgLocation::Nowhere);
    assert!(pipeline[0].eip_size == 1);

    assert!(pipeline[1].function == OpcodeFn::Nop);
    assert!(pipeline[1].args[0].location == ArgLocation::Immediate(SizedValue::Byte(0x15)));
    assert!(pipeline[1].args[1].location == ArgLocation::Nowhere);
    assert!(pipeline[1].eip_size == 2);

    vm.eip += pipeline[0].eip_size as u32 + pipeline[1].eip_size as u32;
    fill_pipeline(&vm, &opcodes, &mut pipeline).unwrap();

    assert_eq!(pipeline[0].function, TEST2_OP);
    assert!(pipeline[0].args[0].location == ArgLocation::RegisterValue(2, ValueSize::Dword));
    assert!(pipeline[0].args[1].location == ArgLocation::Address(0x44332211, ValueSize::Dword));
    assert!(pipeline[0].eip_size == 5); 
}

#[test]
fn test_cond_jump_pipeline() {
    let opcodes = test_opcodes();
    let mut vm = VM::default();
    vm.gas_remaining = 1;
    let vm_mem = vm.memory.add_memory(0x10000, 0x100).unwrap();
    vm.eip = 0x10000;
    let bytes = vec![
        0x01,
        0x03, 0x11, 0x22, 0x33, 0x44,
        0x12, 0x11, 0x22, 0x33, 0x44,
    ];
    (&mut vm_mem[0..bytes.len()]).copy_from_slice(&bytes);
    let mut pipeline = vec![];
    pipeline.resize(3, Pipeline::default());
    fill_pipeline(&vm, &opcodes, &mut pipeline).unwrap();

    assert!(pipeline[0].function == TEST_OP);
    assert!(pipeline[0].args[0].location == ArgLocation::Nowhere);
    assert!(pipeline[0].eip_size == 1);

    assert!(pipeline[1].function == TEST3_OP);
    assert!(pipeline[1].args[0].location == ArgLocation::Immediate(SizedValue::Dword(0x44332211)));
    assert!(pipeline[1].args[1].location == ArgLocation::Nowhere);
    assert!(pipeline[1].eip_size == 5); 

    assert!(pipeline[2].function == OpcodeFn::Nop);
    assert!(pipeline[2].args[0].location == ArgLocation::Nowhere);
    assert!(pipeline[2].args[1].location == ArgLocation::Nowhere);
    assert!(pipeline[2].eip_size == 0);  

}
#[test]
fn test_group_opcodes() {
    let opcodes = test_opcodes();
    let mut vm = VM::default();
    vm.gas_remaining = 1;
    let vm_mem = vm.memory.add_memory(0x10000, 0x100).unwrap();
    vm.eip = 0x10000;
    let bytes = vec![
        0xFF, 0x1A,
    ];
    (&mut vm_mem[0..bytes.len()]).copy_from_slice(&bytes);
    let mut pipeline = vec![];
    pipeline.resize(3, Pipeline::default());
    fill_pipeline(&vm, &opcodes, &mut pipeline).unwrap();

    assert_eq!(pipeline[0].function, TEST4_OP);
    assert_eq!(pipeline[0].args[0].location, ArgLocation::RegisterAddress(Reg32::EDX as u8, ValueSize::Dword));
    assert_eq!(pipeline[0].eip_size, 2);
}

#[test]
fn test_memory() {
    let mut m = MemorySystem::default();
    let bytes = m.add_memory(0x10000, 0x100).unwrap();
    bytes[0x10] = 0x12;
    assert!(m.get_memory(0x10010).unwrap()[0] == 0x12);
    let mb = m.get_mut_memory(0x10020).unwrap();
    mb[0] = 0x34;
    assert!(m.get_memory(0x10020).unwrap()[0] == 0x34);
    assert!(m.section_exists(0x10000));
    assert!(!m.section_exists(0x20000));
}
#[test]
fn test_memory_ints() {
    let mut m = MemorySystem::default();
    let area = 0x100000;
    let bytes = m.add_memory(area, 0x100).unwrap();
    bytes[0x10] = 0x11; 
    bytes[0x11] = 0x22;
    bytes[0x12] = 0x33;
    bytes[0x13] = 0x44;
    assert!(m.get_u8(area + 0x10).unwrap() == 0x11);
    assert!(m.get_u8(area + 0x11).unwrap() == 0x22);
    assert!(m.get_u16(area + 0x10).unwrap() == 0x2211);
    assert!(m.get_u32(area + 0x10).unwrap() == 0x44332211);
    m.get_mut_sized_memory(area + 0x20, 4).unwrap().copy_from_slice(&0xAABBCCDDu32.to_le_bytes());
    m.get_mut_sized_memory(area + 0x30, 2).unwrap().copy_from_slice(&0x1234u16.to_le_bytes());
    let bytes = m.get_memory(area).unwrap();
    assert!(bytes[0x20] == 0xDD);
    assert!(bytes[0x21] == 0xCC);
    assert!(bytes[0x22] == 0xBB);
    assert!(bytes[0x23] == 0xAA);
}
#[test]
fn test_memory_failures() {
    let mut m = MemorySystem::default();
    let _bytes = m.add_memory(0x10000, 0x100).unwrap();
    assert!(m.add_memory(0x10000, 0x100) == Err(VMError::ConflictingMemoryAddition));
    assert!(m.add_memory(0x100FF, 0x100) == Err(VMError::UnalignedMemoryAddition));
    assert!(m.get_memory(0x10200) == Err(VMError::ReadBadMemory(0x10200)));
    assert!(m.get_mut_memory(0x10100) == Err(VMError::WroteBadMemory(0x10100)));
}

#[test]
fn test_register_access() {
    let mut vm = VM::default();
    vm.regs[2] = 0x11223344;
    vm.regs[4] = 0xFFEEDDBB;
    assert!(vm.get_reg(2, ValueSize::Dword) == SizedValue::Dword(0x11223344));
    assert!(vm.get_reg(4, ValueSize::Dword) == SizedValue::Dword(0xFFEEDDBB));
    assert!(vm.get_reg(2, ValueSize::Word) == SizedValue::Word(0x3344));
    assert!(vm.get_reg(4, ValueSize::Word) == SizedValue::Word(0xDDBB));
    assert!(vm.get_reg(2, ValueSize::Byte) == SizedValue::Byte(0x44));
    assert!(vm.get_reg(6, ValueSize::Byte) == SizedValue::Byte(0x33));
}
#[test]
fn test_register_writes() {
    let mut vm = VM::default();
    vm.regs[2] = 0x11223344;
    vm.regs[4] = 0xFFEEDDBB;
    vm.set_reg(2, SizedValue::Dword(0xAABBCCDD));
    assert!(vm.get_reg(2, ValueSize::Dword) == SizedValue::Dword(0xAABBCCDD));
    vm.set_reg(4, SizedValue::Word(0x1122));
    assert!(vm.regs[4] == 0xFFEE1122);
    vm.set_reg(2, SizedValue::Byte(0x55));
    assert!(vm.regs[2] == 0xAABBCC55);
    vm.set_reg(6, SizedValue::Byte(0x66));
    assert_eq!(vm.regs[2], 0xAABB6655);
}

#[test]
fn test_get_arg() {
    let mut vm = VM::default();
    let area = 0x77660000;
    vm.memory.add_memory(area, 0x100).unwrap();
    vm.copy_into_memory(area + 10, &0x11223344u32.to_le_bytes()).unwrap();
    vm.regs[0] = area + 12;
    
    let arg = ArgLocation::Immediate(SizedValue::Word(0x9911));
    assert!(vm.get_arg(arg).unwrap() == SizedValue::Word(0x9911));
    let arg = ArgLocation::Address(area + 10, ValueSize::Dword);
    assert!(vm.get_arg(arg).unwrap() == SizedValue::Dword(0x11223344));
    let arg = ArgLocation::RegisterAddress(0, ValueSize::Word);
    assert!(vm.get_arg(arg).unwrap() == SizedValue::Word(0x1122));
    let arg = ArgLocation::RegisterValue(0, ValueSize::Dword);
    assert!(vm.get_arg(arg).unwrap() == SizedValue::Dword(area + 12));
}

#[test]
fn test_set_arg() {
    let mut vm = VM::default();
    let area = 0x87660000;
    vm.memory.add_memory(area, 0x100).unwrap();
    vm.memory.set_u32(area + 10, 0x11223344).unwrap();
    vm.regs[0] = area + 12;
    

    let arg = ArgLocation::Immediate(SizedValue::Word(0x9911));
    assert!(vm.set_arg(arg, SizedValue::Byte(0x11)).is_err());

    let arg = ArgLocation::Address(area + 10, ValueSize::Dword);
    vm.set_arg(arg, SizedValue::Dword(0xAABBCCDD)).unwrap();
    assert!(vm.memory.get_u32(area + 10).unwrap() == 0xAABBCCDD);

    let arg = ArgLocation::RegisterAddress(0, ValueSize::Word);
    vm.set_arg(arg, SizedValue::Word(0x1122)).unwrap();
    assert!(vm.memory.get_u32(area + 10).unwrap() == 0x1122CCDD);

    assert!(vm.set_arg(arg, SizedValue::Dword(0xABCDEF01)).is_err());

    assert!(vm.memory.get_u32(area + 10).unwrap() == 0x1122CCDD);

    vm.set_arg(arg, SizedValue::Byte(0x11)).unwrap();
    assert!(vm.memory.get_u32(area + 10).unwrap() == 0x0011CCDD);

    let arg = ArgLocation::RegisterValue(1, ValueSize::Dword);
    vm.set_arg(arg, SizedValue::Dword(0x99887766)).unwrap();
    assert!(vm.regs[1] == 0x99887766);
}
#[test]
fn test_set_arg_readonly() {
    let mut vm = VM::default();
    let area = 0x07660000;
    vm.memory.add_memory(area, 0x100).unwrap();
    vm.copy_into_memory(area + 10, &0x11223344u32.to_le_bytes()).unwrap();
    vm.regs[0] = area + 12;
    
    let arg = ArgLocation::Address(area + 10, ValueSize::Dword);

    assert!(vm.set_arg(arg, SizedValue::Dword(0xAABBCCDD)).is_err());

    assert!(vm.memory.get_u32(area + 10).unwrap() == 0x11223344);
}
#[test]
fn test_modrm_address_calculation() {
    let mut vm = VM::default();
    let a = ArgLocation::ModRMAddress{
        offset: None,
        reg: Some(Reg32::EBX as u8),
        size: ValueSize::Byte
    };
    vm.regs[Reg32::EBX as usize] = 0x88112233;
    assert_eq!(vm.calculate_modrm_address(&a), 0x88112233);
    let a = ArgLocation::ModRMAddress{
        offset: Some(0x11223344),
        reg: Some(Reg32::EBX as u8),
        size: ValueSize::Byte
    };
    assert_eq!(vm.calculate_modrm_address(&a), 0x99335577);
    let a = ArgLocation::ModRMAddress{
        offset: Some(0x11223344),
        reg: None,
        size: ValueSize::Byte
    };
    assert_eq!(vm.calculate_modrm_address(&a), 0x11223344);
}
#[test]
fn test_sib_address_calculation() {
    let mut vm = VM::default();
    let a = ArgLocation::SIBAddress{
        offset: 1,
        base: Some(Reg32::EBX as u8),
        scale: 2,
        index: Some(Reg32::EDI as u8),
        size: ValueSize::Byte
    };
    vm.regs[Reg32::EBX as usize] = 0x11223344;
    vm.regs[Reg32::EDI as usize] = 0xFFEEDDCC;

    assert_eq!(vm.calculate_modrm_address(&a), 0x10FFEEDD);

}
