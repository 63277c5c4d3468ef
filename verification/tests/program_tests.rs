use qx86::vm::{GasCharger, Hypervisor, Reg32, VMError, VM};

const CODE_MEM: u32 = 0x10000;
const DATA_MEM: u32 = 0x80000000;
const INITIAL_GAS: u64 = 10000000;

#[derive(Default)]
struct TestHypervisor {
    pushed_values: Vec<u32>,
    ints_triggered: Vec<u8>,
}

impl Hypervisor for TestHypervisor {
    fn interrupt(&mut self, vm: &mut VM, num: u8) -> Result<(), VMError> {
        self.ints_triggered.push(num);
        if num == 0xAA {
            self.pushed_values.push(vm.reg32(Reg32::EBX));
        }
        if num == 0xAB {
            vm.set_reg32(Reg32::EBX, self.pushed_values.pop().unwrap());
        }
        Ok(())
    }
}

fn create_vm() -> VM {
    let mut vm = VM::default();
    vm.eip = CODE_MEM;
    vm.charger = GasCharger::test_schedule();
    vm.gas_remaining = INITIAL_GAS;
    vm.memory.add_memory(CODE_MEM, 0x10000).unwrap();
    vm.memory.add_memory(DATA_MEM, 0x10000).unwrap();
    vm
}

fn create_vm_with_code(code: &[u8]) -> VM {
    let mut vm = create_vm();
    vm.copy_into_memory(CODE_MEM, code).unwrap();
    vm
}

fn reset_vm(vm: &mut VM) {
    vm.eip = CODE_MEM;
    vm.gas_remaining = INITIAL_GAS;
}

fn execute_vm_with_code_and_hypervisor<H: Hypervisor>(code: &[u8], hv: &mut H) -> VM {
    let mut vm = create_vm_with_code(code);
    execute_vm_with_diagnostics_and_hypervisor(&mut vm, hv);
    vm
}

fn execute_vm_with_diagnostics_and_hypervisor<H: Hypervisor>(vm: &mut VM, hv: &mut H) {
    let r = vm.execute(hv);
    vm_diagnostics(vm);
    r.unwrap();
}

fn vm_diagnostics(vm: &VM) {
    println!("EAX: 0x{:08X?}", vm.reg32(Reg32::EAX));
    println!("ECX: 0x{:08X?}", vm.reg32(Reg32::ECX));
    println!("EDX: 0x{:08X?}", vm.reg32(Reg32::EDX));
    println!("EBX: 0x{:08X?}", vm.reg32(Reg32::EBX));
    println!("ESP: 0x{:08X?}", vm.reg32(Reg32::ESP));
    println!("EBP: 0x{:08X?}", vm.reg32(Reg32::EBP));
    println!("ESI: 0x{:08X?}", vm.reg32(Reg32::ESI));
    println!("EDI: 0x{:08X?}", vm.reg32(Reg32::EDI));
    println!();
    println!("Gas remaining: {}", vm.gas_remaining);
    println!("EIP: 0x{:X?}", vm.eip);
}

#[test]
fn fibonacci() {
    let mut hv = TestHypervisor::default();
    hv.pushed_values.push(10);
    hv.pushed_values.push(1);
    hv.pushed_values.push(0);
    hv.pushed_values.push(2);

    let mut vm = execute_vm_with_code_and_hypervisor(
        &[
            // int 0xAB
            // mov EAX, EBX
            // fib:
            // cmp eax, 0
            // je fib0
            // cmp eax, 1
            // je fib1
            // mov ECX, EAX
            // dec ECX
            // mov EAX, 1
            // mov EBX, 0
            // compute:
            // mov EDX, EAX
            // add EAX, EBX
            // mov EBX, EDX
            // dec ECX
            // jnz compute
            // jmp end_fib
            // fib0:
            // mov eax, 0
            // jmp end_fib
            // fib1:
            // mov eax, 1
            // end_fib:
            // nop
            // hlt
            0xCD, 0xAB, 0x89, 0xD8, 0x83, 0xF8, 0x00, 0x74, 0x1D, 0x83, 0xF8, 0x01,
            0x74, 0x1F, 0x89, 0xC1, 0x49, 0xB8, 0x01, 0x00, 0x00, 0x00, 0xBB, 0x00,
            0x00, 0x00, 0x00, 0x89, 0xC2, 0x01, 0xD8, 0x89, 0xD3, 0x49, 0x75, 0xF7,
            0xEB, 0x0C, 0xB8, 0x00, 0x00, 0x00, 0x00, 0xEB, 0x05, 0xB8, 0x01, 0x00,
            0x00, 0x00, 0x90, 0xF4,
        ], &mut hv,
    );
    assert_eq!(vm.reg32(Reg32::EAX), 1);
    reset_vm(&mut vm);
    execute_vm_with_diagnostics_and_hypervisor(&mut vm, &mut hv);
    assert_eq!(vm.reg32(Reg32::EAX), 0);
    reset_vm(&mut vm);
    execute_vm_with_diagnostics_and_hypervisor(&mut vm, &mut hv);
    assert_eq!(vm.reg32(Reg32::EAX), 1);
    reset_vm(&mut vm);
    execute_vm_with_diagnostics_and_hypervisor(&mut vm, &mut hv);
    assert_eq!(vm.reg32(Reg32::EAX), 55);
}

#[test]
fn fibonacci_16bit() {
    let mut hv = TestHypervisor::default();
    hv.pushed_values.push(10);
    hv.pushed_values.push(1);
    hv.pushed_values.push(0);
    hv.pushed_values.push(2);

    let mut vm = execute_vm_with_code_and_hypervisor(
        &[
            // int 0xAB
            // mov EAX, EBX
            // fib:
            // cmp ax, 0
            // je fib0
            // cmp ax, 1
            // je fib1
            // mov CX, AX
            // dec CX
            // mov AX, 1
            // mov BX, 0
            // compute:
            // mov DX, AX
            // add AX, BX
            // mov BX, DX
            // dec CX
            // jnz compute
            // jmp end_fib
            // fib0:
            // mov ax, 0
            // jmp end_fib
            // fib1:
            // mov ax, 1
            // end_fib:
            // nop
            // hlt
            0xCD, 0xAB, 0x89, 0xD8, 0x66, 0x83, 0xF8, 0x00, 0x74, 0x22, 0x66, 0x83,
            0xF8, 0x01, 0x74, 0x22, 0x66, 0x89, 0xC1, 0x66, 0x49, 0x66, 0xB8, 0x01,
            0x00, 0x66, 0xBB, 0x00, 0x00, 0x66, 0x89, 0xC2, 0x66, 0x01, 0xD8, 0x66,
            0x89, 0xD3, 0x66, 0x49, 0x75, 0xF3, 0xEB, 0x0A, 0x66, 0xB8, 0x00, 0x00,
            0xEB, 0x04, 0x66, 0xB8, 0x01, 0x00, 0x90, 0xF4,
        ], &mut hv,
    );
    assert_eq!(vm.reg32(Reg32::EAX), 1);
    reset_vm(&mut vm);
    execute_vm_with_diagnostics_and_hypervisor(&mut vm, &mut hv);
    assert_eq!(vm.reg32(Reg32::EAX), 0);
    reset_vm(&mut vm);
    execute_vm_with_diagnostics_and_hypervisor(&mut vm, &mut hv);
    assert_eq!(vm.reg32(Reg32::EAX), 1);
    reset_vm(&mut vm);
    execute_vm_with_diagnostics_and_hypervisor(&mut vm, &mut hv);
    assert_eq!(vm.reg32(Reg32::EAX), 55);
}
