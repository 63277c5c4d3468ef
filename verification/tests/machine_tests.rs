use qx86::flags::X86Flags;
use qx86::structs::{SizedValue, ValueSize};
use qx86::vm::{GasCharger, Hypervisor, Reg16, Reg32, Reg8, VMError, VM};

const CODE: u32 = 0x10000;
const DATA: u32 = 0x80000000;
const GAS: u64 = 10_000_000;

/// A hypervisor that notes what it is asked and answers as it is told.
struct Recorder {
    seen: Vec<(u8, u32)>,
    answer: Result<(), VMError>,
}

impl Hypervisor for Recorder {
    fn interrupt(&mut self, vm: &mut VM, num: u8) -> Result<(), VMError> {
        self.seen.push((num, vm.eip));
        self.answer
    }
}

fn recorder() -> Recorder {
    Recorder { seen: Vec::new(), answer: Ok(()) }
}

fn machine(code: &[u8]) -> VM {
    let mut vm = VM::default();
    vm.eip = CODE;
    vm.charger = GasCharger::test_schedule();
    vm.gas_remaining = GAS;
    vm.memory.add_memory(CODE, 0x10000).unwrap();
    vm.memory.add_memory(DATA, 0x10000).unwrap();
    vm.copy_into_memory(CODE, code).unwrap();
    vm
}

fn run(code: &[u8]) -> (VM, Result<bool, VMError>) {
    let mut vm = machine(code);
    let mut hv = recorder();
    let r = vm.execute(&mut hv);
    (vm, r)
}

fn halted(code: &[u8]) -> VM {
    let (vm, r) = run(code);
    assert_eq!(r, Ok(true));
    vm
}

fn flags(set: &[&str]) -> X86Flags {
    let mut f = X86Flags::default();
    for name in set {
        match *name {
            "carry" => f.carry = true,
            "parity" => f.parity = true,
            "adjust" => f.adjust = true,
            "zero" => f.zero = true,
            "sign" => f.sign = true,
            "direction" => f.direction = true,
            "overflow" => f.overflow = true,
            _ => panic!("no such flag"),
        }
    }
    f
}

#[test]
fn nop_sled_costs_nothing() {
    let mut code = vec![0x90u8; 100];
    code.push(0xF4);
    let vm = halted(&code);
    assert_eq!(vm.eip, CODE + 100);
    assert_eq!(vm.gas_remaining, GAS);
}

#[test]
fn halt_leaves_the_instruction_pointer_at_the_halt() {
    let (vm, r) = run(&[
            // mov eax, 7
            // hlt
            0xB8, 0x07, 0x00, 0x00, 0x00, 0xF4,
        ]);
    assert_eq!(r, Ok(true));
    assert_eq!(vm.eip, CODE + 5);
    assert_eq!(vm.reg32(Reg32::EAX), 7);
}

#[test]
fn mov_cascade() {
    let vm = halted(&[
            // mov al, 0x11
            // mov ecx, 0x80000000
            // mov dword [ecx], 0x11223344
            // mov edi, 0x10
            // mov dword [edi * 2 + ecx], 0x88776655
            // mov byte [edi * 4 + ecx], 0xFF
            // mov esp, [0x80000000]
            // mov ah, [0x80000020]
            // mov ebp, [edi * 2 + ecx]
            // hlt
            0xB0, 0x11, 0xB9, 0x00, 0x00, 0x00, 0x80, 0xC7, 0x01, 0x44, 0x33, 0x22,
            0x11, 0xBF, 0x10, 0x00, 0x00, 0x00, 0xC7, 0x04, 0x79, 0x55, 0x66, 0x77,
            0x88, 0xC6, 0x04, 0xB9, 0xFF, 0x8B, 0x25, 0x00, 0x00, 0x00, 0x80, 0x8A,
            0x25, 0x20, 0x00, 0x00, 0x80, 0x8B, 0x2C, 0x79, 0xF4,
        ]);
    assert_eq!(vm.reg32(Reg32::EAX), 0x00005511);
    assert_eq!(vm.reg32(Reg32::ECX), 0x80000000);
    assert_eq!(vm.reg32(Reg32::ESP), 0x11223344);
    assert_eq!(vm.reg32(Reg32::EBP), 0x88776655);
    assert_eq!(vm.memory.get_sized_memory(0x80000000, 4).unwrap().to_vec(), vec![0x44, 0x33, 0x22, 0x11]);
    assert_eq!(vm.memory.get_sized_memory(0x80000020, 4).unwrap().to_vec(), vec![0x55, 0x66, 0x77, 0x88]);
    assert_eq!(vm.memory.get_u8(0x80000040).unwrap(), 0xFF);
}

#[test]
fn push_pop_round_trip() {
    let vm = halted(&[
            // mov esp, 0x80000100
            // push 0x12345678
            // pop eax
            // hlt
            0xBC, 0x00, 0x01, 0x00, 0x80, 0x68, 0x78, 0x56, 0x34, 0x12, 0x58, 0xF4,
        ]);
    assert_eq!(vm.reg32(Reg32::EAX), 0x12345678);
    assert_eq!(vm.reg32(Reg32::ESP), 0x80000100);
}

#[test]
fn signed_add_overflows() {
    let vm = halted(&[
            // mov eax, 0x7FFFFFFF
            // mov ebx, 0x7FFFFFFF
            // add eax, ebx
            // hlt
            0xB8, 0xFF, 0xFF, 0xFF, 0x7F, 0xBB, 0xFF, 0xFF, 0xFF, 0x7F, 0x01, 0xD8,
            0xF4,
        ]);
    assert_eq!(vm.reg32(Reg32::EAX), 0xFFFFFFFE);
    assert!(vm.flags.overflow && vm.flags.sign && vm.flags.adjust);
    assert!(!vm.flags.carry);
}

#[test]
fn division_by_zero_keeps_the_registers() {
    let (vm, r) = run(&[
            // mov ax, 10
            // mov bx, 0
            // div bx
            // hlt
            0x66, 0xB8, 0x0A, 0x00, 0x66, 0xBB, 0x00, 0x00, 0x66, 0xF7, 0xF3, 0xF4,
        ]);
    assert_eq!(r, Err(VMError::DivideByZero));
    assert_eq!(vm.error_eip, CODE + 8);
    assert_eq!(vm.eip, CODE + 8);
    assert_eq!(vm.reg32(Reg32::EAX), 10);
}

#[test]
fn interrupts_reach_the_hypervisor_in_order() {
    let mut vm = machine(&[
            // mov eax, 0x11223344
            // mov esi, 0x55667788
            // int 0xAA
            // int 0xBB
            // int3
            // hlt
            0xB8, 0x44, 0x33, 0x22, 0x11, 0xBE, 0x88, 0x77, 0x66, 0x55, 0xCD, 0xAA,
            0xCD, 0xBB, 0xCC, 0xF4,
        ]);
    let mut hv = recorder();
    assert_eq!(vm.execute(&mut hv), Ok(true));
    assert_eq!(hv.seen, vec![(0xAA, CODE + 10), (0xBB, CODE + 12), (3, CODE + 14)]);
    assert_eq!(vm.eip, CODE + 15);
    assert_eq!(vm.reg32(Reg32::EAX), 0x11223344);
    assert_eq!(vm.reg32(Reg32::ESI), 0x55667788);
    assert_eq!(vm.flags, X86Flags::default());
    assert_eq!(vm.gas_remaining, GAS - 2 - 3 * 20);
}

#[test]
fn a_failure_of_the_hypervisor_ends_execution() {
    let mut vm = machine(&[
            // nop
            // int 0x10
            // hlt
            0x90, 0xCD, 0x10, 0xF4,
        ]);
    let mut hv = recorder();
    hv.answer = Err(VMError::SyscallError);
    assert_eq!(vm.execute(&mut hv), Err(VMError::SyscallError));
    assert_eq!(hv.seen, vec![(0x10, CODE + 1)]);
    assert_eq!(vm.error_eip, CODE + 1);
    assert_eq!(vm.eip, CODE + 1);
}

#[test]
fn the_hypervisor_can_halt_the_machine() {
    let mut vm = machine(&[
            // int 0x10
            // mov eax, 1
            // hlt
            0xCD, 0x10, 0xB8, 0x01, 0x00, 0x00, 0x00, 0xF4,
        ]);
    let mut hv = recorder();
    hv.answer = Err(VMError::InternalVMStop);
    assert_eq!(vm.execute(&mut hv), Ok(true));
    assert_eq!(vm.eip, CODE);
    assert_eq!(vm.reg32(Reg32::EAX), 0);
}

#[test]
fn running_out_of_gas_is_atomic_and_can_be_resumed() {
    let mut vm = machine(&[
            // mov eax, 1
            // mov ebx, 2
            // hlt
            0xB8, 0x01, 0x00, 0x00, 0x00, 0xBB, 0x02, 0x00, 0x00, 0x00, 0xF4,
        ]);
    vm.gas_remaining = 1;
    let mut hv = recorder();
    assert_eq!(vm.execute(&mut hv), Err(VMError::OutOfGas));
    assert_eq!(vm.eip, CODE + 5);
    assert_eq!(vm.reg32(Reg32::EAX), 1);
    assert_eq!(vm.reg32(Reg32::EBX), 0);
    assert_eq!(vm.gas_remaining, 0);
    vm.gas_remaining = 10;
    assert_eq!(vm.execute(&mut hv), Ok(true));
    assert_eq!(vm.reg32(Reg32::EBX), 2);
    assert_eq!(vm.gas_remaining, 9);
    assert_eq!(vm.eip, CODE + 10);
}

#[test]
fn gas_is_charged_by_tier_and_surcharge() {
    let vm = halted(&[
            // mov eax, 0x80000000
            // mov dword [eax], 5
            // add dword [eax], 2
            // inc ebx
            // cmp eax, eax
            // jne short _a
            // _a:
            // jmp short _b
            // _b:
            // hlt
            0xB8, 0x00, 0x00, 0x00, 0x80, 0xC7, 0x00, 0x05, 0x00, 0x00, 0x00, 0x83,
            0x00, 0x02, 0x43, 0x39, 0xC0, 0x75, 0x00, 0xEB, 0x00, 0xF4,
        ]);
    assert_eq!(vm.memory.get_u32(DATA).unwrap(), 7);
    assert_eq!(vm.gas_remaining, GAS - (1 + 3 + 6 + 4 + 5 + 14 + 4));
}

#[test]
fn code_in_writeable_memory_pays_the_surcharge() {
    let mut vm = machine(&[]);
    vm.copy_into_memory(DATA, &[0x90, 0x90, 0xF4]).unwrap();
    vm.eip = DATA;
    let mut hv = recorder();
    assert_eq!(vm.execute(&mut hv), Ok(true));
    assert_eq!(vm.eip, DATA + 2);
    assert_eq!(vm.gas_remaining, GAS - 3 * 15);
}

#[test]
fn lea_needs_no_memory() {
    let vm = halted(&[
            // mov ebx, 0x10
            // lea eax, [ebx * 4 + 0x12345678]
            // lea ecx, [ebx + 0x7FFFFFF0]
            // hlt
            0xBB, 0x10, 0x00, 0x00, 0x00, 0x8D, 0x04, 0x9D, 0x78, 0x56, 0x34, 0x12,
            0x8D, 0x8B, 0xF0, 0xFF, 0xFF, 0x7F, 0xF4,
        ]);
    assert_eq!(vm.reg32(Reg32::EAX), 0x123456B8);
    assert_eq!(vm.reg32(Reg32::ECX), 0x80000000);
}

#[test]
fn flags_of_byte_addition() {
    let vm = halted(&[
            // mov al, 0xFF
            // add al, 1
            // hlt
            0xB0, 0xFF, 0x04, 0x01, 0xF4,
        ]);
    assert_eq!(vm.reg8(Reg8::AL), 0);
    assert_eq!(vm.flags, flags(&["carry", "zero", "adjust", "parity"]));
}

#[test]
fn flags_of_byte_subtraction() {
    let vm = halted(&[
            // mov al, 0x80
            // sub al, 1
            // hlt
            0xB0, 0x80, 0x2C, 0x01, 0xF4,
        ]);
    assert_eq!(vm.reg8(Reg8::AL), 0x7F);
    assert_eq!(vm.flags, flags(&["overflow", "adjust"]));
}

#[test]
fn logic_clears_carry_overflow_and_adjust() {
    let vm = halted(&[
            // mov al, 0xFF
            // add al, 1
            // mov bl, 0xF0
            // and bl, 0x0F
            // hlt
            0xB0, 0xFF, 0x04, 0x01, 0xB3, 0xF0, 0x80, 0xE3, 0x0F, 0xF4,
        ]);
    assert_eq!(vm.reg8(Reg8::BL), 0);
    assert_eq!(vm.flags, flags(&["zero", "parity"]));
}

#[test]
fn test_sets_flags_and_stores_nothing() {
    let vm = halted(&[
            // mov al, 0xF0
            // test al, 0x0F
            // mov ecx, 0x80000001
            // test ecx, ecx
            // hlt
            0xB0, 0xF0, 0xA8, 0x0F, 0xB9, 0x01, 0x00, 0x00, 0x80, 0x85, 0xC9, 0xF4,
        ]);
    assert_eq!(vm.reg8(Reg8::AL), 0xF0);
    assert_eq!(vm.reg32(Reg32::ECX), 0x80000001);
    assert_eq!(vm.flags, flags(&["sign"]));
}

#[test]
fn subtraction_with_borrow() {
    let vm = halted(&[
            // mov al, 0
            // sub al, 1
            // mov bl, 5
            // sbb bl, 2
            // hlt
            0xB0, 0x00, 0x2C, 0x01, 0xB3, 0x05, 0x80, 0xDB, 0x02, 0xF4,
        ]);
    assert_eq!(vm.reg8(Reg8::AL), 0xFF);
    assert_eq!(vm.reg8(Reg8::BL), 2);
    assert_eq!(vm.flags, flags(&[]));
}

#[test]
fn addition_with_carry_of_words() {
    let vm = halted(&[
            // mov ax, 0xFFFF
            // add ax, 1
            // mov bx, 0x00FF
            // adc bx, 0
            // hlt
            0x66, 0xB8, 0xFF, 0xFF, 0x66, 0x83, 0xC0, 0x01, 0x66, 0xBB, 0xFF, 0x00,
            0x66, 0x83, 0xD3, 0x00, 0xF4,
        ]);
    assert_eq!(vm.reg16(Reg16::AX), 0);
    assert_eq!(vm.reg16(Reg16::BX), 0x0100);
    assert_eq!(vm.flags, flags(&["adjust", "parity"]));
}

#[test]
fn increment_keeps_the_carry() {
    let vm = halted(&[
            // mov al, 0xFF
            // add al, 1
            // inc bl
            // hlt
            0xB0, 0xFF, 0x04, 0x01, 0xFE, 0xC3, 0xF4,
        ]);
    assert_eq!(vm.reg8(Reg8::BL), 1);
    assert_eq!(vm.flags, flags(&["carry"]));
}

#[test]
fn decrement_below_zero() {
    let vm = halted(&[
            // mov al, 0
            // dec al
            // hlt
            0xB0, 0x00, 0xFE, 0xC8, 0xF4,
        ]);
    assert_eq!(vm.reg8(Reg8::AL), 0xFF);
    assert_eq!(vm.flags, flags(&["sign", "parity", "adjust"]));
}

#[test]
fn negation_sets_sign_zero_and_parity() {
    let vm = halted(&[
            // mov al, 0xFA
            // neg al
            // hlt
            0xB0, 0xFA, 0xF6, 0xD8, 0xF4,
        ]);
    assert_eq!(vm.reg8(Reg8::AL), 6);
    assert_eq!(vm.flags, flags(&["carry", "parity"]));
    let vm = halted(&[
            // neg al
            // hlt
            0xF6, 0xD8, 0xF4,
        ]);
    assert_eq!(vm.reg8(Reg8::AL), 0);
    assert_eq!(vm.flags, flags(&["zero", "parity"]));
    let vm = halted(&[
            // mov al, 0x80
            // neg al
            // hlt
            0xB0, 0x80, 0xF6, 0xD8, 0xF4,
        ]);
    assert_eq!(vm.reg8(Reg8::AL), 0x80);
    assert_eq!(vm.flags, flags(&["carry", "overflow", "sign"]));
}

#[test]
fn not_leaves_the_flags() {
    let vm = halted(&[
            // mov al, 0xFF
            // add al, 1
            // mov ebx, 0x0F0F0F0F
            // not ebx
            // hlt
            0xB0, 0xFF, 0x04, 0x01, 0xBB, 0x0F, 0x0F, 0x0F, 0x0F, 0xF7, 0xD3, 0xF4,
        ]);
    assert_eq!(vm.reg32(Reg32::EBX), 0xF0F0F0F0);
    assert_eq!(vm.flags, flags(&["carry", "zero", "adjust", "parity"]));
}

#[test]
fn signed_division_rounds_towards_zero() {
    let vm = halted(&[
            // mov ax, -7
            // mov bl, 2
            // idiv bl
            // hlt
            0x66, 0xB8, 0xF9, 0xFF, 0xB3, 0x02, 0xF6, 0xFB, 0xF4,
        ]);
    assert_eq!(vm.reg8(Reg8::AL), 0xFD);
    assert_eq!(vm.reg8(Reg8::AH), 0xFF);
    let vm = halted(&[
            // mov edx, -1
            // mov eax, -100
            // mov ebx, 7
            // idiv ebx
            // hlt
            0xBA, 0xFF, 0xFF, 0xFF, 0xFF, 0xB8, 0x9C, 0xFF, 0xFF, 0xFF, 0xBB, 0x07,
            0x00, 0x00, 0x00, 0xF7, 0xFB, 0xF4,
        ]);
    assert_eq!(vm.reg32(Reg32::EAX), 0xFFFFFFF2);
    assert_eq!(vm.reg32(Reg32::EDX), 0xFFFFFFFE);
    let vm = halted(&[
            // mov dx, 0
            // mov ax, 100
            // mov cx, -7
            // idiv cx
            // hlt
            0x66, 0xBA, 0x00, 0x00, 0x66, 0xB8, 0x64, 0x00, 0x66, 0xB9, 0xF9, 0xFF,
            0x66, 0xF7, 0xF9, 0xF4,
        ]);
    assert_eq!(vm.reg16(Reg16::AX), 0xFFF2);
    assert_eq!(vm.reg16(Reg16::DX), 2);
}

#[test]
fn signed_division_checks_the_signed_range() {
    let (vm, r) = run(&[
            // mov ax, 128
            // mov bl, 1
            // idiv bl
            // hlt
            0x66, 0xB8, 0x80, 0x00, 0xB3, 0x01, 0xF6, 0xFB, 0xF4,
        ]);
    assert_eq!(r, Err(VMError::DivideByZero));
    assert_eq!(vm.reg16(Reg16::AX), 128);
    let vm = halted(&[
            // mov ax, 0xFF80
            // mov bl, 1
            // idiv bl
            // hlt
            0x66, 0xB8, 0x80, 0xFF, 0xB3, 0x01, 0xF6, 0xFB, 0xF4,
        ]);
    assert_eq!(vm.reg8(Reg8::AL), 0x80);
    assert_eq!(vm.reg8(Reg8::AH), 0);
    let (_, r) = run(&[
            // mov ax, 0xFF7F
            // mov bl, 1
            // idiv bl
            // hlt
            0x66, 0xB8, 0x7F, 0xFF, 0xB3, 0x01, 0xF6, 0xFB, 0xF4,
        ]);
    assert_eq!(r, Err(VMError::DivideByZero));
}

#[test]
fn unsigned_division_checks_the_quotient() {
    let (vm, r) = run(&[
            // mov ax, 0x1000
            // mov bl, 1
            // div bl
            // hlt
            0x66, 0xB8, 0x00, 0x10, 0xB3, 0x01, 0xF6, 0xF3, 0xF4,
        ]);
    assert_eq!(r, Err(VMError::DivideByZero));
    assert_eq!(vm.error_eip, CODE + 6);
    let vm = halted(&[
            // mov edx, 1
            // mov eax, 5
            // mov ebx, 0x10
            // div ebx
            // hlt
            0xBA, 0x01, 0x00, 0x00, 0x00, 0xB8, 0x05, 0x00, 0x00, 0x00, 0xBB, 0x10,
            0x00, 0x00, 0x00, 0xF7, 0xF3, 0xF4,
        ]);
    assert_eq!(vm.reg32(Reg32::EAX), 0x10000000);
    assert_eq!(vm.reg32(Reg32::EDX), 5);
}

#[test]
fn signed_multiplication_into_a_register() {
    let vm = halted(&[
            // mov eax, -2
            // mov ecx, 3
            // imul eax, ecx
            // hlt
            0xB8, 0xFE, 0xFF, 0xFF, 0xFF, 0xB9, 0x03, 0x00, 0x00, 0x00, 0x0F, 0xAF,
            0xC1, 0xF4,
        ]);
    assert_eq!(vm.reg32(Reg32::EAX), 0xFFFFFFFA);
    assert_eq!(vm.flags, flags(&[]));
    let vm = halted(&[
            // mov eax, 5
            // imul ebx, eax, -2
            // hlt
            0xB8, 0x05, 0x00, 0x00, 0x00, 0x6B, 0xD8, 0xFE, 0xF4,
        ]);
    assert_eq!(vm.reg32(Reg32::EBX), 0xFFFFFFF6);
    assert_eq!(vm.flags, flags(&[]));
    let vm = halted(&[
            // mov ax, 0x4000
            // mov cx, 2
            // imul ax, cx
            // hlt
            0x66, 0xB8, 0x00, 0x40, 0x66, 0xB9, 0x02, 0x00, 0x66, 0x0F, 0xAF, 0xC1,
            0xF4,
        ]);
    assert_eq!(vm.reg16(Reg16::AX), 0x8000);
    assert_eq!(vm.flags, flags(&["carry", "overflow"]));
}

#[test]
fn signed_multiplication_by_the_accumulator() {
    let vm = halted(&[
            // mov al, 0xFF
            // mov bl, 1
            // imul bl
            // hlt
            0xB0, 0xFF, 0xB3, 0x01, 0xF6, 0xEB, 0xF4,
        ]);
    assert_eq!(vm.reg16(Reg16::AX), 0xFFFF);
    assert_eq!(vm.flags, flags(&["carry", "overflow"]));
}

#[test]
fn shift_counts_are_taken_modulo_32() {
    let vm = halted(&[
            // mov eax, 1
            // shl eax, 33
            // hlt
            0xB8, 0x01, 0x00, 0x00, 0x00, 0xC1, 0xE0, 0x21, 0xF4,
        ]);
    assert_eq!(vm.reg32(Reg32::EAX), 2);
    assert_eq!(vm.flags, flags(&[]));
    let vm = halted(&[
            // mov al, 0xFF
            // shl al, 9
            // hlt
            0xB0, 0xFF, 0xC0, 0xE0, 0x09, 0xF4,
        ]);
    assert_eq!(vm.reg8(Reg8::AL), 0);
    assert_eq!(vm.flags, flags(&["zero", "parity"]));
    let vm = halted(&[
            // mov al, 0xFF
            // shl al, 8
            // hlt
            0xB0, 0xFF, 0xC0, 0xE0, 0x08, 0xF4,
        ]);
    assert_eq!(vm.reg8(Reg8::AL), 0);
    assert_eq!(vm.flags, flags(&["carry", "zero", "parity"]));
}

#[test]
fn a_shift_by_nothing_leaves_the_flags() {
    let vm = halted(&[
            // mov al, 0xFF
            // add al, 1
            // mov ebx, 0x80000001
            // shl ebx, 0
            // shr ebx, 32
            // hlt
            0xB0, 0xFF, 0x04, 0x01, 0xBB, 0x01, 0x00, 0x00, 0x80, 0xC1, 0xE3, 0x00,
            0xC1, 0xEB, 0x20, 0xF4,
        ]);
    assert_eq!(vm.reg32(Reg32::EBX), 0x80000001);
    assert_eq!(vm.flags, flags(&["carry", "zero", "adjust", "parity"]));
}

#[test]
fn shift_right_by_a_register() {
    let vm = halted(&[
            // mov eax, 0x18
            // mov cl, 4
            // shr eax, cl
            // hlt
            0xB8, 0x18, 0x00, 0x00, 0x00, 0xB1, 0x04, 0xD3, 0xE8, 0xF4,
        ]);
    assert_eq!(vm.reg32(Reg32::EAX), 1);
    assert_eq!(vm.flags, flags(&["carry"]));
}

#[test]
fn bit_tests() {
    let vm = halted(&[
            // mov eax, 8
            // bt eax, 3
            // hlt
            0xB8, 0x08, 0x00, 0x00, 0x00, 0x0F, 0xBA, 0xE0, 0x03, 0xF4,
        ]);
    assert_eq!(vm.reg32(Reg32::EAX), 8);
    assert_eq!(vm.flags, flags(&["carry"]));
    let vm = halted(&[
            // mov eax, 0
            // bts eax, 35
            // hlt
            0xB8, 0x00, 0x00, 0x00, 0x00, 0x0F, 0xBA, 0xE8, 0x23, 0xF4,
        ]);
    assert_eq!(vm.reg32(Reg32::EAX), 8);
    assert_eq!(vm.flags, flags(&[]));
    let vm = halted(&[
            // mov eax, 0xFF
            // mov ecx, 40
            // btr eax, ecx
            // hlt
            0xB8, 0xFF, 0x00, 0x00, 0x00, 0xB9, 0x28, 0x00, 0x00, 0x00, 0x0F, 0xB3,
            0xC8, 0xF4,
        ]);
    assert_eq!(vm.reg32(Reg32::EAX), 0xFF);
    assert_eq!(vm.flags, flags(&[]));
    let vm = halted(&[
            // mov eax, 0xFF
            // mov ecx, 36
            // btr eax, ecx
            // btc eax, 31
            // hlt
            0xB8, 0xFF, 0x00, 0x00, 0x00, 0xB9, 0x24, 0x00, 0x00, 0x00, 0x0F, 0xB3,
            0xC8, 0x0F, 0xBA, 0xF8, 0x1F, 0xF4,
        ]);
    assert_eq!(vm.reg32(Reg32::EAX), 0x800000EF);
    assert_eq!(vm.flags, flags(&[]));
    let vm = halted(&[
            // mov ax, 0x8000
            // bt ax, 31
            // hlt
            0x66, 0xB8, 0x00, 0x80, 0x66, 0x0F, 0xBA, 0xE0, 0x1F, 0xF4,
        ]);
    assert_eq!(vm.flags, flags(&["carry"]));
}

#[test]
fn bit_scans() {
    let vm = halted(&[
            // mov ebx, 0x50
            // bsf eax, ebx
            // bsr ecx, ebx
            // hlt
            0xBB, 0x50, 0x00, 0x00, 0x00, 0x0F, 0xBC, 0xC3, 0x0F, 0xBD, 0xCB, 0xF4,
        ]);
    assert_eq!(vm.reg32(Reg32::EAX), 4);
    assert_eq!(vm.reg32(Reg32::ECX), 6);
    assert_eq!(vm.flags, flags(&[]));
    let vm = halted(&[
            // mov eax, 0x77
            // mov ebx, 0
            // bsf eax, ebx
            // hlt
            0xB8, 0x77, 0x00, 0x00, 0x00, 0xBB, 0x00, 0x00, 0x00, 0x00, 0x0F, 0xBC,
            0xC3, 0xF4,
        ]);
    assert_eq!(vm.reg32(Reg32::EAX), 0x77);
    assert_eq!(vm.flags, flags(&["zero"]));
    let vm = halted(&[
            // mov ebx, 0x80000000
            // bsr eax, ebx
            // bsf ecx, ebx
            // hlt
            0xBB, 0x00, 0x00, 0x00, 0x80, 0x0F, 0xBD, 0xC3, 0x0F, 0xBC, 0xCB, 0xF4,
        ]);
    assert_eq!(vm.reg32(Reg32::EAX), 31);
    assert_eq!(vm.reg32(Reg32::ECX), 31);
}

#[test]
fn byte_swap() {
    let vm = halted(&[
            // mov eax, 0x11223344
            // bswap eax
            // mov edi, 0x000000FF
            // bswap edi
            // hlt
            0xB8, 0x44, 0x33, 0x22, 0x11, 0x0F, 0xC8, 0xBF, 0xFF, 0x00, 0x00, 0x00,
            0x0F, 0xCF, 0xF4,
        ]);
    assert_eq!(vm.reg32(Reg32::EAX), 0x44332211);
    assert_eq!(vm.reg32(Reg32::EDI), 0xFF000000);
}

#[test]
fn sign_extending_moves() {
    let vm = halted(&[
            // mov bl, 0x80
            // movsx eax, bl
            // mov dx, 0x8000
            // movsx esi, dx
            // mov ecx, 0x11112222
            // movsx cx, bl
            // mov bl, 0x7F
            // movsx edi, bl
            // hlt
            0xB3, 0x80, 0x0F, 0xBE, 0xC3, 0x66, 0xBA, 0x00, 0x80, 0x0F, 0xBF, 0xF2,
            0xB9, 0x22, 0x22, 0x11, 0x11, 0x66, 0x0F, 0xBE, 0xCB, 0xB3, 0x7F, 0x0F,
            0xBE, 0xFB, 0xF4,
        ]);
    assert_eq!(vm.reg32(Reg32::EAX), 0xFFFFFF80);
    assert_eq!(vm.reg32(Reg32::ESI), 0xFFFF8000);
    assert_eq!(vm.reg32(Reg32::ECX), 0x1111FF80);
    assert_eq!(vm.reg32(Reg32::EDI), 0x7F);
}

#[test]
fn accumulator_sign_extensions() {
    let vm = halted(&[
            // mov eax, 0x12345680
            // cbw
            // hlt
            0xB8, 0x80, 0x56, 0x34, 0x12, 0x66, 0x98, 0xF4,
        ]);
    assert_eq!(vm.reg32(Reg32::EAX), 0x1234FF80);
    let vm = halted(&[
            // mov eax, 0x12348000
            // cwde
            // cdq
            // hlt
            0xB8, 0x00, 0x80, 0x34, 0x12, 0x98, 0x99, 0xF4,
        ]);
    assert_eq!(vm.reg32(Reg32::EAX), 0xFFFF8000);
    assert_eq!(vm.reg32(Reg32::EDX), 0xFFFFFFFF);
    let vm = halted(&[
            // mov edx, 0x11112222
            // mov eax, 0x80007FFF
            // cwd
            // hlt
            0xBA, 0x22, 0x22, 0x11, 0x11, 0xB8, 0xFF, 0x7F, 0x00, 0x80, 0x66, 0x99,
            0xF4,
        ]);
    assert_eq!(vm.reg32(Reg32::EDX), 0x11110000);
    let vm = halted(&[
            // mov edx, 0x11112222
            // mov eax, 0x7FFFFFFF
            // cdq
            // hlt
            0xBA, 0x22, 0x22, 0x11, 0x11, 0xB8, 0xFF, 0xFF, 0xFF, 0x7F, 0x99, 0xF4,
        ]);
    assert_eq!(vm.reg32(Reg32::EDX), 0);
}

#[test]
fn exchange_and_add() {
    let vm = halted(&[
            // mov eax, 5
            // mov ebx, 7
            // xadd eax, ebx
            // hlt
            0xB8, 0x05, 0x00, 0x00, 0x00, 0xBB, 0x07, 0x00, 0x00, 0x00, 0x0F, 0xC1,
            0xD8, 0xF4,
        ]);
    assert_eq!(vm.reg32(Reg32::EAX), 12);
    assert_eq!(vm.reg32(Reg32::EBX), 5);
    assert_eq!(vm.flags, flags(&["parity"]));
    let vm = halted(&[
            // mov al, 0xFF
            // mov bl, 1
            // xadd al, bl
            // hlt
            0xB0, 0xFF, 0xB3, 0x01, 0x0F, 0xC0, 0xD8, 0xF4,
        ]);
    assert_eq!(vm.reg8(Reg8::AL), 0);
    assert_eq!(vm.reg8(Reg8::BL), 0xFF);
    assert_eq!(vm.flags, flags(&["carry", "zero", "adjust", "parity"]));
}

#[test]
fn compare_and_exchange() {
    let vm = halted(&[
            // mov eax, 5
            // mov ebx, 5
            // mov ecx, 9
            // cmpxchg ebx, ecx
            // hlt
            0xB8, 0x05, 0x00, 0x00, 0x00, 0xBB, 0x05, 0x00, 0x00, 0x00, 0xB9, 0x09,
            0x00, 0x00, 0x00, 0x0F, 0xB1, 0xCB, 0xF4,
        ]);
    assert_eq!(vm.reg32(Reg32::EAX), 5);
    assert_eq!(vm.reg32(Reg32::EBX), 9);
    assert_eq!(vm.flags, flags(&["zero", "parity"]));
    let vm = halted(&[
            // mov eax, 1
            // mov ebx, 5
            // mov ecx, 9
            // cmpxchg ebx, ecx
            // hlt
            0xB8, 0x01, 0x00, 0x00, 0x00, 0xBB, 0x05, 0x00, 0x00, 0x00, 0xB9, 0x09,
            0x00, 0x00, 0x00, 0x0F, 0xB1, 0xCB, 0xF4,
        ]);
    assert_eq!(vm.reg32(Reg32::EAX), 5);
    assert_eq!(vm.reg32(Reg32::EBX), 5);
    assert_eq!(vm.flags, flags(&["carry", "sign", "adjust", "parity"]));
}

#[test]
fn scanning_a_string() {
    let vm = halted(&[
            // mov edi, 0x80000000
            // mov dword [edi], 0x04030201
            // mov al, 3
            // mov ecx, 10
            // repne scasb
            // hlt
            0xBF, 0x00, 0x00, 0x00, 0x80, 0xC7, 0x07, 0x01, 0x02, 0x03, 0x04, 0xB0,
            0x03, 0xB9, 0x0A, 0x00, 0x00, 0x00, 0xF2, 0xAE, 0xF4,
        ]);
    assert_eq!(vm.reg32(Reg32::EDI), 0x80000003);
    assert_eq!(vm.reg32(Reg32::ECX), 7);
    assert_eq!(vm.flags, flags(&["zero", "parity"]));
    let vm = halted(&[
            // mov edi, 0x80000000
            // mov dword [edi], 0x00070007
            // mov dword [edi + 4], 0x00080007
            // mov ax, 7
            // mov ecx, 10
            // repe scasw
            // hlt
            0xBF, 0x00, 0x00, 0x00, 0x80, 0xC7, 0x07, 0x07, 0x00, 0x07, 0x00, 0xC7,
            0x47, 0x04, 0x07, 0x00, 0x08, 0x00, 0x66, 0xB8, 0x07, 0x00, 0xB9, 0x0A,
            0x00, 0x00, 0x00, 0x66, 0xF3, 0xAF, 0xF4,
        ]);
    assert_eq!(vm.reg32(Reg32::EDI), 0x80000008);
    assert_eq!(vm.reg32(Reg32::ECX), 6);
    assert!(!vm.flags.zero);
}

#[test]
fn a_repetition_counts_in_cx_under_an_operand_size_prefix() {
    let mut vm = machine(&[0x66, 0xF3, 0xAB, 0xF4]);
    vm.regs[0] = 0xAABBCCDD;
    vm.regs[1] = 0x00050002;
    vm.regs[7] = DATA;
    let mut hv = recorder();
    assert_eq!(vm.execute(&mut hv), Ok(true));
    assert_eq!(vm.reg32(Reg32::ECX), 0x00050000);
    assert_eq!(vm.reg32(Reg32::EDI), DATA + 4);
    assert_eq!(vm.memory.get_u32(DATA).unwrap(), 0xCCDDCCDD);
    assert_eq!(vm.memory.get_u32(DATA + 4).unwrap(), 0);
}

#[test]
fn a_repetition_stops_cleanly_when_the_gas_runs_out() {
    let mut vm = machine(&[0xF3, 0xAA, 0xF4]);
    vm.regs[0] = 0x55;
    vm.regs[1] = 100;
    vm.regs[7] = DATA + 0x10;
    vm.gas_remaining = 4 + 3 * 4;
    let mut hv = recorder();
    assert_eq!(vm.execute(&mut hv), Err(VMError::OutOfGas));
    assert_eq!(vm.eip, CODE);
    assert_eq!(vm.error_eip, CODE);
    assert_eq!(vm.reg32(Reg32::ECX), 97);
    assert_eq!(vm.reg32(Reg32::EDI), DATA + 0x13);
    assert_eq!(vm.gas_remaining, 0);
    assert_eq!(vm.memory.get_u32(DATA + 0x10).unwrap(), 0x00555555);
    vm.gas_remaining = GAS;
    assert_eq!(vm.execute(&mut hv), Ok(true));
    assert_eq!(vm.reg32(Reg32::ECX), 0);
    assert_eq!(vm.reg32(Reg32::EDI), DATA + 0x10 + 100);
    assert_eq!(vm.gas_remaining, GAS - 4 - 97 * 4);
}

#[test]
fn repeating_what_is_no_string_instruction_is_an_encoding_error() {
    let (vm, r) = run(&[0x90, 0xF3, 0x90, 0xF4]);
    assert_eq!(r, Err(VMError::InvalidOpcodeEncoding));
    assert_eq!(vm.error_eip, CODE + 1);
    let mut vm = machine(&[0xF2, 0xA4, 0xF4]);
    vm.regs[1] = 1;
    vm.regs[6] = DATA;
    vm.regs[7] = DATA + 8;
    let mut hv = recorder();
    assert_eq!(vm.execute(&mut hv), Err(VMError::InvalidOpcodeEncoding));
    let (_, r) = run(&[0xF3, 0x0F, 0xAF, 0xC1, 0xF4]);
    assert_eq!(r, Err(VMError::InvalidOpcodeEncoding));
}

#[test]
fn pop_computes_its_address_after_moving_the_stack_pointer() {
    let vm = halted(&[
            // mov esp, 0x80000100
            // push 0x11223344
            // pop dword [esp]
            // hlt
            0xBC, 0x00, 0x01, 0x00, 0x80, 0x68, 0x44, 0x33, 0x22, 0x11, 0x8F, 0x04,
            0x24, 0xF4,
        ]);
    assert_eq!(vm.reg32(Reg32::ESP), 0x80000100);
    assert_eq!(vm.memory.get_u32(0x80000100).unwrap(), 0x11223344);
    let vm = halted(&[
            // mov esp, 0x80000100
            // push 0x80000200
            // pop esp
            // hlt
            0xBC, 0x00, 0x01, 0x00, 0x80, 0x68, 0x00, 0x02, 0x00, 0x80, 0x5C, 0xF4,
        ]);
    assert_eq!(vm.reg32(Reg32::ESP), 0x80000200);
}

#[test]
fn a_push_that_fails_leaves_the_stack_pointer() {
    let (vm, r) = run(&[
            // mov esp, 0x00010100
            // push 5
            // hlt
            0xBC, 0x00, 0x01, 0x01, 0x00, 0x6A, 0x05, 0xF4,
        ]);
    assert_eq!(r, Err(VMError::WroteReadOnlyMemory(0x000100FC)));
    assert_eq!(vm.reg32(Reg32::ESP), 0x00010100);
    assert_eq!(vm.error_eip, CODE + 5);
    let (vm, r) = run(&[
            // mov esp, 0x80010000
            // pop eax
            // hlt
            0xBC, 0x00, 0x00, 0x01, 0x80, 0x58, 0xF4,
        ]);
    assert_eq!(r, Err(VMError::ReadUnloadedMemory(0x80010000)));
    assert_eq!(vm.reg32(Reg32::ESP), 0x80010000);
}

#[test]
fn pushes_of_words() {
    let vm = halted(&[
            // mov esp, 0x80000100
            // mov eax, 0x11223344
            // push ax
            // pop bx
            // push ax
            // hlt
            0xBC, 0x00, 0x01, 0x00, 0x80, 0xB8, 0x44, 0x33, 0x22, 0x11, 0x66, 0x50,
            0x66, 0x5B, 0x66, 0x50, 0xF4,
        ]);
    assert_eq!(vm.reg32(Reg32::ESP), 0x800000FE);
    assert_eq!(vm.reg32(Reg32::EBX), 0x3344);
    assert_eq!(vm.memory.get_u16(0x800000FE).unwrap(), 0x3344);
}

#[test]
fn writes_to_read_only_memory_fail() {
    let (vm, r) = run(&[
            // mov eax, 0x00010100
            // mov dword [eax], 5
            // hlt
            0xB8, 0x00, 0x01, 0x01, 0x00, 0xC7, 0x00, 0x05, 0x00, 0x00, 0x00, 0xF4,
        ]);
    assert_eq!(r, Err(VMError::WroteReadOnlyMemory(0x00010100)));
    assert_eq!(vm.error_eip, CODE + 5);
    assert_eq!(vm.memory.get_u32(0x00010100).unwrap(), 0);
}

#[test]
fn accesses_outside_of_memory_fail() {
    let (_, r) = run(&[
            // mov eax, [0x80010000]
            // hlt
            0xA1, 0x00, 0x00, 0x01, 0x80, 0xF4,
        ]);
    assert_eq!(r, Err(VMError::ReadUnloadedMemory(0x80010000)));
    let (_, r) = run(&[
            // mov eax, [0x8000FFFE]
            // hlt
            0xA1, 0xFE, 0xFF, 0x00, 0x80, 0xF4,
        ]);
    assert_eq!(r, Err(VMError::ReadBadMemory(0x80010001)));
    let (_, r) = run(&[
            // mov ebx, 0x8000FFFF
            // mov word [ebx], 5
            // hlt
            0xBB, 0xFF, 0xFF, 0x00, 0x80, 0x66, 0xC7, 0x03, 0x05, 0x00, 0xF4,
        ]);
    assert_eq!(r, Err(VMError::WroteBadMemory(0x80010000)));
    let (_, r) = run(&[
            // mov ebx, 0x90000000
            // mov byte [ebx], 5
            // hlt
            0xBB, 0x00, 0x00, 0x00, 0x90, 0xC6, 0x03, 0x05, 0xF4,
        ]);
    assert_eq!(r, Err(VMError::ReadUnloadedMemory(0x90000000)));
}

#[test]
fn too_many_prefixes_overrun_the_decoder() {
    let (vm, r) = run(&[0x66; 32]);
    assert_eq!(r, Err(VMError::DecodingOverrun));
    assert_eq!(vm.eip, CODE);
}

#[test]
fn an_instruction_is_decoded_from_the_sixteen_bytes_at_its_address() {
    let mut code = vec![0x66u8; 12];
    code.extend_from_slice(&[0xB8, 0x34, 0x12, 0xF4]);
    let vm = halted(&code);
    assert_eq!(vm.reg32(Reg32::EAX), 0x1234);
    assert_eq!(vm.eip, CODE + 15);
    let mut code = vec![0x66u8; 14];
    code.extend_from_slice(&[0xB8, 0x34, 0x12, 0xF4]);
    let (vm, r) = run(&code);
    assert_eq!(r, Err(VMError::DecodingOverrun));
    assert_eq!(vm.eip, CODE);
}

#[test]
fn unsupported_prefixes_are_invalid_opcodes() {
    let (vm, r) = run(&[0x90, 0x67, 0x90, 0xF4]);
    assert_eq!(r, Err(VMError::InvalidOpcode(0x67)));
    assert_eq!(vm.error_eip, CODE + 1);
    let (_, r) = run(&[0xF0, 0x90, 0xF4]);
    assert_eq!(r, Err(VMError::InvalidOpcode(0xF0)));
}

#[test]
fn code_must_be_followed_by_sixteen_bytes() {
    let mut vm = machine(&[]);
    vm.copy_into_memory(CODE + 0xFFF1, &[0xF4]).unwrap();
    vm.eip = CODE + 0xFFF1;
    let mut hv = recorder();
    assert_eq!(vm.execute(&mut hv), Err(VMError::ReadBadMemory(0x20000)));
    vm.copy_into_memory(CODE + 0xFFF0, &[0xF4]).unwrap();
    vm.eip = CODE + 0xFFF0;
    assert_eq!(vm.execute(&mut hv), Ok(true));
}

#[test]
fn enter_makes_a_frame_and_leave_removes_it() {
    let vm = halted(&[
            // mov ebp, 0x80000200
            // mov esp, 0x80000100
            // enter 16, 0
            // hlt
            0xBD, 0x00, 0x02, 0x00, 0x80, 0xBC, 0x00, 0x01, 0x00, 0x80, 0xC8, 0x10,
            0x00, 0x00, 0xF4,
        ]);
    assert_eq!(vm.reg32(Reg32::EBP), 0x800000FC);
    assert_eq!(vm.reg32(Reg32::ESP), 0x800000EC);
    assert_eq!(vm.memory.get_u32(0x800000FC).unwrap(), 0x80000200);
    let (vm, r) = run(&[
            // mov ebp, 0x80000200
            // mov esp, 0x80000100
            // enter 16, 1
            // hlt
            0xBD, 0x00, 0x02, 0x00, 0x80, 0xBC, 0x00, 0x01, 0x00, 0x80, 0xC8, 0x10,
            0x00, 0x01, 0xF4,
        ]);
    assert_eq!(r, Err(VMError::NotYetImplemented));
    assert_eq!(vm.reg32(Reg32::ESP), 0x80000100);
}

#[test]
fn conditional_sets() {
    let vm = halted(&[
            // mov al, 1
            // cmp al, 2
            // setb bl
            // setl cl
            // setg dl
            // seta bh
            // setle ch
            // setns dh
            // hlt
            0xB0, 0x01, 0x3C, 0x02, 0x0F, 0x92, 0xC3, 0x0F, 0x9C, 0xC1, 0x0F, 0x9F,
            0xC2, 0x0F, 0x97, 0xC7, 0x0F, 0x9E, 0xC5, 0x0F, 0x99, 0xC6, 0xF4,
        ]);
    assert_eq!(vm.reg32(Reg32::EBX), 0x0001);
    assert_eq!(vm.reg32(Reg32::ECX), 0x0101);
    assert_eq!(vm.reg32(Reg32::EDX), 0x0000);
}

#[test]
fn the_count_register_decides_jecxz() {
    let vm = halted(&[
            // mov ecx, 0x10000
            // jecxz _a
            // mov eax, 1
            // hlt
            // _a:
            // mov eax, 2
            // hlt
            0xB9, 0x00, 0x00, 0x01, 0x00, 0xE3, 0x06, 0xB8, 0x01, 0x00, 0x00, 0x00,
            0xF4, 0xB8, 0x02, 0x00, 0x00, 0x00, 0xF4,
        ]);
    assert_eq!(vm.reg32(Reg32::EAX), 1);
    let vm = halted(&[
            // mov ecx, 0
            // jecxz _a
            // mov eax, 1
            // hlt
            // _a:
            // mov eax, 2
            // hlt
            0xB9, 0x00, 0x00, 0x00, 0x00, 0xE3, 0x06, 0xB8, 0x01, 0x00, 0x00, 0x00,
            0xF4, 0xB8, 0x02, 0x00, 0x00, 0x00, 0xF4,
        ]);
    assert_eq!(vm.reg32(Reg32::EAX), 2);
}

#[test]
fn values_of_the_machine_in_memory() {
    let mut vm = machine(&[]);
    vm.set_mem(DATA + 8, SizedValue::Qword(0x1122334455667788)).unwrap();
    assert_eq!(vm.get_mem(DATA + 8, ValueSize::Qword), Ok(SizedValue::Qword(0x1122334455667788)));
    assert_eq!(vm.get_mem(DATA + 8, ValueSize::Dword), Ok(SizedValue::Dword(0x55667788)));
    assert_eq!(vm.get_mem(DATA + 14, ValueSize::Word), Ok(SizedValue::Word(0x1122)));
    assert_eq!(vm.get_mem(DATA + 15, ValueSize::Byte), Ok(SizedValue::Byte(0x11)));
    assert_eq!(vm.get_mem(DATA + 15, ValueSize::Zero), Ok(SizedValue::Empty));
    assert_eq!(vm.set_mem(DATA + 15, SizedValue::Empty), Ok(()));
    assert_eq!(vm.set_mem(CODE, SizedValue::Empty), Err(VMError::WroteReadOnlyMemory(CODE)));
    assert_eq!(vm.set_mem(CODE + 1, SizedValue::Byte(1)), Err(VMError::WroteReadOnlyMemory(CODE + 1)));
    assert_eq!(vm.get_mem(CODE + 1, ValueSize::Byte), Ok(SizedValue::Byte(0)));
    assert_eq!(vm.copy_from_memory(DATA + 8, 3).unwrap().to_vec(), vec![0x88, 0x77, 0x66]);
    assert_eq!(vm.copy_into_memory(DATA + 0xFFFF, &[1, 2]), Err(VMError::WroteBadMemory(DATA + 0x10000)));
    assert_eq!(vm.get_mem(DATA + 0xFFFF, ValueSize::Byte), Ok(SizedValue::Byte(0)));
}
