use emucore::gd_emu::nes::nes_bus::{DmaStep, NesBusState, ReadOutcome, WriteTarget};

#[test]
fn ram_write_is_read_back_through_mirrors() {
    let mut bus = NesBusState::new();
    assert!(bus.write(0x0123, 0x5A) == WriteTarget::Ram(0x123));
    assert!(bus.begin_read(0x0923) == ReadOutcome::Value(0x5A));
    assert!(bus.begin_read(0x1923) == ReadOutcome::Value(0x5A));
    assert!(bus.begin_read(0x0124) == ReadOutcome::Value(0x00));
    assert_eq!(bus.open_bus, 0x00);
}

#[test]
fn devices_answer_their_ranges() {
    let mut bus = NesBusState::new();
    assert!(bus.begin_read(0x2002) == ReadOutcome::PpuRegister(2));
    assert!(bus.begin_read(0x4015) == ReadOutcome::ApuStatus);
    assert!(bus.begin_read(0x8000) == ReadOutcome::Cartridge);
    assert_eq!(bus.finish_read(0x77), 0x77);
    assert!(bus.begin_read(0x4000) == ReadOutcome::Value(0x77), "write-only registers read the open bus");
    assert!(bus.write(0x4017, 0x40) == WriteTarget::Apu);
    assert_eq!(bus.open_bus, 0x40);
}

#[test]
fn controller_through_the_bus() {
    let mut bus = NesBusState::new();
    bus.pad1_state = 0b0000_0101;
    bus.write(0x4016, 1);
    bus.write(0x4016, 0);
    let mut bits = Vec::new();
    for _ in 0..3 {
        match bus.begin_read(0x4016) {
            ReadOutcome::Value(v) => bits.push(v & 1),
            _ => panic!("the controller port answers on the bus"),
        }
    }
    assert_eq!(bits, vec![1, 0, 1]);
}

#[test]
fn sprite_dma_runs_its_cycles() {
    let mut bus = NesBusState::new();
    bus.total_cpu_cycles = 7;
    assert!(bus.write(0x4014, 0x02) == WriteTarget::OamDma);
    assert_eq!(bus.dma_base_address, 0x0200);
    assert_eq!(bus.dma_cycles_remaining, 514);
    assert!(!bus.bus_available);
    assert!(bus.dma_cycle() == DmaStep::Halt);
    assert!(bus.dma_cycle() == DmaStep::Halt);
    assert!(bus.dma_cycle() == DmaStep::Read(0));
    assert!(bus.dma_cycle() == DmaStep::Write);
    let mut reads = 1;
    loop {
        match bus.dma_cycle() {
            DmaStep::Read(_) => reads += 1,
            DmaStep::Write => {}
            DmaStep::Idle => break,
            DmaStep::Halt => panic!("no halt inside the copy window"),
        }
    }
    assert_eq!(reads, 256);
    assert!(bus.bus_available);
    assert_eq!(bus.dma_cycles_remaining, 0);
}
