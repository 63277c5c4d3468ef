use qx86::vm::{GasCharger, GasCost, Hypervisor, Reg32, VMError, VM};

const CODE_MEM: u32 = 0x10000;
const DATA_MEM: u32 = 0x80000000;
const INITIAL_GAS: u64 = 10000000;

#[derive(Default)]
struct TestHypervisor {
    pushed_values: Vec<u32>,
    ints_triggered: Vec<u8>,
}

impl Hypervisor for TestHypervisor {
    fn interrupt(&mut self, vm: &mut VM, num: u8) -> Result<(), VMError> {
        self.ints_triggered.push(num);
        if num == 0xAA {
            self.pushed_values.push(vm.reg32(Reg32::EBX));
        }
        if num == 0xAB {
            vm.set_reg32(Reg32::EBX, self.pushed_values.pop().unwrap());
        }
        Ok(())
    }
}

fn create_vm() -> VM {
    let mut vm = VM::default();
    vm.eip = CODE_MEM;
    vm.charger = GasCharger::test_schedule();
    vm.gas_remaining = INITIAL_GAS;
    vm.memory.add_memory(CODE_MEM, 0x10000).unwrap();
    vm.memory.add_memory(DATA_MEM, 0x10000).unwrap();
    vm
}

fn create_vm_with_code(code: &[u8]) -> VM {
    let mut vm = create_vm();
    vm.copy_into_memory(CODE_MEM, code).unwrap();
    vm
}

fn execute_vm_with_code(code: &[u8]) -> VM {
    let mut vm = create_vm_with_code(code);
    execute_vm_with_diagnostics(&mut vm);
    vm
}

fn execute_vm_with_diagnostics(vm: &mut VM) {
    let mut hv = TestHypervisor::default();
    let r = vm.execute(&mut hv);
    vm_diagnostics(vm);
    r.unwrap();
}

fn vm_diagnostics(vm: &VM) {
    println!("EAX: 0x{:08X?}", vm.reg32(Reg32::EAX));
    println!("ECX: 0x{:08X?}", vm.reg32(Reg32::ECX));
    println!("EDX: 0x{:08X?}", vm.reg32(Reg32::EDX));
    println!("EBX: 0x{:08X?}", vm.reg32(Reg32::EBX));
    println!("ESP: 0x{:08X?}", vm.reg32(Reg32::ESP));
    println!("EBP: 0x{:08X?}", vm.reg32(Reg32::EBP));
    println!("ESI: 0x{:08X?}", vm.reg32(Reg32::ESI));
    println!("EDI: 0x{:08X?}", vm.reg32(Reg32::EDI));
    println!();
    println!("Gas remaining: {}", vm.gas_remaining);
    println!("EIP: 0x{:X?}", vm.eip);
}

fn cost_from_list(charger: &GasCharger, costs: &[GasCost]) -> u64 {
    let mut cost = 0;
    for c in costs {
        cost += charger.cost(*c);
    }
    cost
}

#[test]
fn test_hlt_gas() {
    let vm = execute_vm_with_code(
        &[
            // hlt
            0xF4,
        ],
    );

    assert_eq!(vm.gas_remaining, INITIAL_GAS);
}

#[test]
fn test_simple_gas() {

    let vm = execute_vm_with_code(
        &[
            // mov eax, 0x80000000
            // mov ecx, [eax]
            // nop
            // hlt
            0xB8, 0x00, 0x00, 0x00, 0x80, 0x8B, 0x08, 0x90, 0xF4,
        ],
    );
    assert_eq!(vm.gas_remaining, INITIAL_GAS - cost_from_list(&vm.charger, &[GasCost::VeryLow, GasCost::VeryLow, GasCost::MemoryAccess, GasCost::ModRMSurcharge]));
}

#[test]
fn test_perfect_gas_amount() {
    let mut vm = create_vm_with_code(
        &[
            // mov eax, 0x80000000
            // mov ecx, [eax]
            // nop
            // hlt
            0xB8, 0x00, 0x00, 0x00, 0x80, 0x8B, 0x08, 0x90, 0xF4,
        ],
    );
    vm.gas_remaining = cost_from_list(&vm.charger, &[GasCost::VeryLow, GasCost::VeryLow, GasCost::MemoryAccess, GasCost::ModRMSurcharge]);
    let mut hv = TestHypervisor::default();
    vm.execute(&mut hv).unwrap();
}

#[test]
fn test_out_of_gas() {
    let mut vm = create_vm_with_code(
        &[
            // mov eax, 0x80000000
            // mov ecx, [eax]
            // nop
            // hlt
            0xB8, 0x00, 0x00, 0x00, 0x80, 0x8B, 0x08, 0x90, 0xF4,
        ],
    );
    vm.gas_remaining = cost_from_list(&vm.charger, &[GasCost::VeryLow, GasCost::VeryLow, GasCost::MemoryAccess, GasCost::ModRMSurcharge]) - 1;
    let mut hv = TestHypervisor::default();
    let r = vm.execute(&mut hv);
    assert_eq!(r.err().unwrap(), VMError::OutOfGas);

    assert_eq!(vm.eip, CODE_MEM + 5); 
}
