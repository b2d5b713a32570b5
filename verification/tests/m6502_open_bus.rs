use emucore::gd_emu::common::bus::AddressBus;
use emucore::gd_emu::common::m6502::{CpuVariant, M6502Cpu};

/// RAM at $0000-$1FFF (mirrored every 2 KiB); everything else floats and
/// reads back the last byte that was on the bus.
struct OpenBusMock {
    ram: Vec<u8>,
    open_bus: u8,
}

impl OpenBusMock {
    fn new() -> Self {
        Self { ram: vec![0; 65536], open_bus: 0 }
    }

    fn read_inner(&mut self, addr: u16) -> u8 {
        let value = match addr {
            0x0000..=0x1FFF => self.ram[(addr as usize) % 0x0800],
            0x4000..=0x401F => self.open_bus,
            _ => self.open_bus,
        };
        self.open_bus = value;
        value
    }
}

impl AddressBus for OpenBusMock {
    /// The first 2 KiB of RAM is plain memory; its mirrors are not (a write
    /// there lands in another cell than a read).
    fn holds_memory(&self, addr: u16) -> bool {
        addr < 0x0800
    }
    fn memory_byte(&self, addr: u16) -> u8 {
        self.ram[(addr as usize) % 0x0800]
    }
    fn read_byte(&mut self, addr: u16) -> u8 {
        self.read_inner(addr)
    }
    fn write_byte(&mut self, addr: u16, val: u8) {
        if addr < 0x2000 {
            self.ram[addr as usize] = val;
        }
        self.open_bus = val;
    }
    fn is_nmi_line_asserted(&mut self) -> bool {
        false
    }
    fn is_nmi_enabled(&mut self) -> bool {
        false
    }
    fn is_irq_line_asserted(&mut self) -> bool {
        false
    }
    fn begin_cpu_cycle(&mut self) {}
    fn step_cycles(&mut self, _cycles: u64) {}
}

fn run(cpu: &mut M6502Cpu, bus: &mut OpenBusMock, cycles: u32) {
    for _ in 0..cycles {
        let _ = cpu.step_one_cycle(bus);
    }
}

#[test]
fn write_only_read_returns_last_bus_value() {
    let mut cpu = M6502Cpu::new(CpuVariant::Ricoh2A03);
    let mut bus = OpenBusMock::new();

    cpu.pc = 0x0000;
    bus.ram[0x0000] = 0xAD;
    bus.ram[0x0001] = 0x00;
    bus.ram[0x0002] = 0x40;

    run(&mut cpu, &mut bus, 4);
    assert_eq!(cpu.a, 0x40, "LDA $4000 (write-only) should load open bus = operand high byte 0x40");
}

#[test]
fn each_access_refreshes_latch() {
    let mut cpu = M6502Cpu::new(CpuVariant::Ricoh2A03);
    let mut bus = OpenBusMock::new();

    cpu.pc = 0x0000;
    bus.ram[0x0000] = 0xAD;
    bus.ram[0x0001] = 0x00;
    bus.ram[0x0002] = 0x40;
    bus.ram[0x0003] = 0xAD;
    bus.ram[0x0004] = 0x12;
    bus.ram[0x0005] = 0x40;

    run(&mut cpu, &mut bus, 4);
    assert_eq!(cpu.a, 0x40, "first read returns operand high 0x40");

    run(&mut cpu, &mut bus, 4);
    assert_eq!(cpu.a, 0x40, "second read also returns its operand high 0x40");
}

#[test]
fn write_drives_bus_then_read_sees_it() {
    let mut cpu = M6502Cpu::new(CpuVariant::Ricoh2A03);
    let mut bus = OpenBusMock::new();

    cpu.pc = 0x0000;
    bus.ram[0x0000] = 0xA9;
    bus.ram[0x0001] = 0xAB;
    bus.ram[0x0002] = 0x85;
    bus.ram[0x0003] = 0x10;
    bus.ram[0x0004] = 0xAD;
    bus.ram[0x0005] = 0x00;
    bus.ram[0x0006] = 0x40;

    run(&mut cpu, &mut bus, 2);
    run(&mut cpu, &mut bus, 3);
    run(&mut cpu, &mut bus, 4);

    assert_eq!(cpu.a, 0x40, "read of write-only addr returns last-driven bus byte");
}
