use emucore::gd_emu::common::bus::AddressBus;
use emucore::gd_emu::common::m6502::{CpuVariant, M6502Cpu, Operation};

struct MockBus {
    ram: Vec<u8>,
}

impl MockBus {
    fn new() -> Self {
        Self { ram: vec![0; 65536] }
    }
}

impl AddressBus for MockBus {
    /// Every address is plain memory.
    fn holds_memory(&self, _addr: u16) -> bool {
        true
    }
    fn memory_byte(&self, addr: u16) -> u8 {
        self.ram[addr as usize]
    }
    fn read_byte(&mut self, addr: u16) -> u8 {
        self.ram[addr as usize]
    }
    fn write_byte(&mut self, addr: u16, val: u8) {
        self.ram[addr as usize] = val;
    }
    fn is_nmi_line_asserted(&mut self) -> bool {
        false
    }
    fn is_nmi_enabled(&mut self) -> bool {
        false
    }
    fn is_irq_line_asserted(&mut self) -> bool {
        false
    }
    fn begin_cpu_cycle(&mut self) {}
    fn step_cycles(&mut self, _cycles: u64) {}
}

fn cycles(cpu: &mut M6502Cpu, bus: &mut MockBus, n: u32) {
    for _ in 0..n {
        let _ = cpu.step_one_cycle(bus);
    }
}

#[test]
fn test_jsr_and_rts_execution_and_stack_handling() {
    let mut cpu = M6502Cpu::new(CpuVariant::Ricoh2A03);
    let mut bus = MockBus::new();

    cpu.pc = 0xC000;
    cpu.sp = 0xFF;
    bus.ram[0xC000] = 0x20;
    bus.ram[0xC001] = 0x00;
    bus.ram[0xC002] = 0xC5;
    bus.ram[0xC500] = 0x60;

    cycles(&mut cpu, &mut bus, 6);

    assert_eq!(cpu.pc, 0xC500, "PC should be at the target address 0xC500");
    assert_eq!(cpu.sp, 0xFD, "SP should have decremented twice (0xFF -> 0xFD)");
    assert_eq!(bus.ram[0x100 + 0xFF], 0xC0, "Stack should contain PC High byte (0xC0)");
    assert_eq!(bus.ram[0x100 + 0xFE], 0x02, "Stack should contain PC Low byte (0x02)");

    cycles(&mut cpu, &mut bus, 6);

    assert_eq!(cpu.pc, 0xC003, "PC should have cleanly returned to 0xC003");
    assert_eq!(cpu.sp, 0xFF, "SP should have wound back up to 0xFF");
}

#[test]
fn test_branch_zero_page_and_page_boundary() {
    let mut cpu = M6502Cpu::new(CpuVariant::Ricoh2A03);
    let mut bus = MockBus::new();

    cpu.pc = 0xC000;
    cpu.status.zero = true;
    bus.ram[0xC000] = 0xD0;
    bus.ram[0xC001] = 0x04;

    cycles(&mut cpu, &mut bus, 2);
    assert_eq!(cpu.pc, 0xC002, "Branch not taken should just advance past the instruction (2 cycles)");
    assert_eq!(cpu.cycles_remaining, 0, "the untaken branch should end on an instruction boundary");

    cpu.pc = 0xC000;
    cpu.status.zero = false;
    cycles(&mut cpu, &mut bus, 3);
    assert_eq!(cpu.pc, 0xC006, "Branch taken should advance PC by offset (0xC002 + 4 = 0xC006)");
    assert_eq!(cpu.cycles_remaining, 0, "the taken branch should end on an instruction boundary");

    cpu.reset(&mut bus);
    cpu.pc = 0xC0FD;
    cpu.status.zero = false;
    bus.ram[0xC0FD] = 0xD0;
    bus.ram[0xC0FE] = 0x04;

    cycles(&mut cpu, &mut bus, 4);
    assert_eq!(cpu.pc, 0xC103, "Branch crossing page boundary should land at 0xC104");
}

#[test]
fn test_adc_flags_and_overflow() {
    let mut cpu = M6502Cpu::new(CpuVariant::Ricoh2A03);
    let mut bus = MockBus::new();

    cpu.pc = 0xC000;
    cpu.a = 0x01;
    cpu.status.carry = false;
    bus.ram[0xC000] = 0x69;
    bus.ram[0xC001] = 0x02;
    cycles(&mut cpu, &mut bus, 2);
    assert_eq!(cpu.a, 0x03, "0x01 + 0x02 should equal 0x03");
    assert!(!cpu.status.carry, "Carry should be clear");
    assert!(!cpu.status.overflow, "Overflow should be clear");
    assert!(!cpu.status.zero, "Zero should be clear");

    cpu.pc = 0xC000;
    cpu.a = 0xFF;
    cpu.status.carry = false;
    bus.ram[0xC000] = 0x69;
    bus.ram[0xC001] = 0x01;
    cycles(&mut cpu, &mut bus, 2);
    assert_eq!(cpu.a, 0x00, "0xFF + 0x01 should roll over to 0x00");
    assert!(cpu.status.carry, "Carry flag must be set (unsigned overflow)");
    assert!(cpu.status.zero, "Zero flag must be set");
    assert!(!cpu.status.overflow, "Signed overflow should NOT be set here");

    cpu.pc = 0xC000;
    cpu.a = 0x7F;
    cpu.status.carry = false;
    cpu.status.overflow = false;
    bus.ram[0xC000] = 0x69;
    bus.ram[0xC001] = 0x01;
    cycles(&mut cpu, &mut bus, 2);
    assert_eq!(cpu.a, 0x80, "0x7F + 0x01 = 0x80");
    assert!(cpu.status.overflow, "Overflow flag MUST be set (Positive + Positive yielded a negative result)");
    assert!(!cpu.status.carry, "Unsigned carry should be clear");
}

#[test]
fn test_indirect_indexed_page_cross() {
    let mut cpu = M6502Cpu::new(CpuVariant::Ricoh2A03);
    let mut bus = MockBus::new();

    cpu.pc = 0xC000;
    bus.ram[0xC000] = 0xB1;
    bus.ram[0xC001] = 0x20;
    bus.ram[0x0020] = 0xE0;
    bus.ram[0x0021] = 0x70;

    cpu.y = 0x05;
    bus.ram[0x70E5] = 0x42;
    cycles(&mut cpu, &mut bus, 5);
    assert_eq!(cpu.a, 0x42, "Accumulator should load the value 0x42");
    assert_eq!(cpu.pc, 0xC002, "PC should advance 2 bytes");

    cpu.pc = 0xC000;
    cpu.y = 0x30;
    bus.ram[0x7110] = 0x99;
    cycles(&mut cpu, &mut bus, 6);
    assert_eq!(cpu.a, 0x99, "Accumulator should load the value 0x99 across the page boundary");
}

#[test]
fn test_stack_push_pull_and_status_flags() {
    let mut cpu = M6502Cpu::new(CpuVariant::Ricoh2A03);
    let mut bus = MockBus::new();

    cpu.pc = 0xC000;
    cpu.sp = 0xFF;
    cpu.a = 0x55;
    bus.ram[0xC000] = 0x48;
    bus.ram[0xC001] = 0x68;

    cycles(&mut cpu, &mut bus, 3);
    assert_eq!(cpu.sp, 0xFE, "SP should decrement to 0xFE after push");
    assert_eq!(bus.ram[0x01FF], 0x55, "Memory at 0x01FF should hold the pushed value 0x55");

    cpu.a = 0x00;
    cycles(&mut cpu, &mut bus, 4);
    assert_eq!(cpu.a, 0x55, "Accumulator should have recovered 0x55 from the stack");
    assert_eq!(cpu.sp, 0xFF, "SP should wind back up to 0xFF after pull");
    assert!(!cpu.status.zero, "Zero flag should be clear because 0x55 is non-zero");

    cpu.pc = 0xC000;
    cpu.sp = 0xFF;
    bus.ram[0x01FF] = 0x00;
    bus.ram[0xC000] = 0x28;
    cycles(&mut cpu, &mut bus, 4);
    let raw_status = cpu.status.to_u8(false);
    assert_eq!(raw_status & 0x10, 0x00, "Bit 4 (B flag) must be 0 after PLP execution");
}

#[test]
fn test_bit_and_asl_status_flags() {
    let mut cpu = M6502Cpu::new(CpuVariant::Ricoh2A03);
    let mut bus = MockBus::new();

    cpu.pc = 0xC000;
    cpu.a = 0x01;
    bus.ram[0xC000] = 0x24;
    bus.ram[0xC001] = 0x10;
    bus.ram[0x0010] = 0xC0;
    cycles(&mut cpu, &mut bus, 3);
    assert!(cpu.status.zero, "Zero flag MUST be set because (0x01 AND 0xC0) == 0");
    assert!(cpu.status.negative, "Negative flag MUST match bit 7 of memory (1)");
    assert!(cpu.status.overflow, "Overflow flag MUST match bit 6 of memory (1)");

    cpu.pc = 0xC000;
    cpu.a = 0x80;
    cpu.status.carry = false;
    bus.ram[0xC000] = 0x0A;
    cycles(&mut cpu, &mut bus, 2);
    assert_eq!(cpu.a, 0x00, "0x80 shifted left by 1 should equal 0x00");
    assert!(cpu.status.carry, "Carry flag MUST be set because bit 7 was 1");
    assert!(cpu.status.zero, "Zero flag MUST be set because accumulator rolled over to 0x00");
}

#[test]
fn test_rol_and_ror_circular_shifts() {
    let mut cpu = M6502Cpu::new(CpuVariant::Ricoh2A03);
    let mut bus = MockBus::new();

    cpu.pc = 0xC000;
    cpu.a = 0x81;
    cpu.status.carry = true;
    bus.ram[0xC000] = 0x2A;
    cycles(&mut cpu, &mut bus, 2);
    assert_eq!(cpu.a, 0x03, "0x81 rotated left with Carry=1 should equal 0x03");
    assert!(cpu.status.carry, "Carry flag should be set to the old Bit 7 (1)");
    assert!(!cpu.status.zero, "Zero flag should be clear");

    cpu.pc = 0xC000;
    cpu.a = 0x01;
    cpu.status.carry = false;
    bus.ram[0xC000] = 0x6A;
    cycles(&mut cpu, &mut bus, 2);
    assert_eq!(cpu.a, 0x00, "0x01 rotated right with Carry=0 should equal 0x00");
    assert!(cpu.status.carry, "Carry flag should be set to the old Bit 0 (1)");
    assert!(cpu.status.zero, "Zero flag should be set because accumulator is 0x00");
}

#[test]
fn test_hardware_nmi_interrupt_stack_and_vector() {
    let mut cpu = M6502Cpu::new(CpuVariant::Ricoh2A03);
    let mut bus = MockBus::new();

    cpu.pc = 0xC000;
    cpu.sp = 0xFF;
    cpu.status.zero = true;
    cpu.status.negative = false;
    cpu.status.interrupt_disable = false;
    bus.ram[0xC000] = 0xEA;
    bus.ram[0xFFFA] = 0x00;
    bus.ram[0xFFFB] = 0xD0;

    cycles(&mut cpu, &mut bus, 2);
    cpu.setup_hardware_interrupt(Operation::Nmi, &mut bus);
    cycles(&mut cpu, &mut bus, 7);

    assert_eq!(cpu.pc, 0xD000, "PC should have jumped to the NMI vector handler address (0xD000)");
    assert_eq!(cpu.sp, 0xFC, "SP should be at 0xFC after pushing PC high, PC low, and Status");
    assert_eq!(bus.ram[0x01FF], 0xC0, "Stack top (0x01FF) should hold return PC High byte (0xC0)");
    assert_eq!(bus.ram[0x01FE], 0x01, "Stack mid (0x01FE) should hold return PC Low byte (0xC001 right after NOP)");
    assert_eq!(bus.ram[0x01FD], 34, "Stack should hold the status from BEFORE the interrupt was handled");
    let final_live_status = cpu.status.to_u8(false);
    assert_eq!(final_live_status, 38, "Live CPU status register should now have the Interrupt Disable flag set to true");
}
