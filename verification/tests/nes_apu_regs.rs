use emucore::gd_emu::nes::nes_apu::NesAPU;

#[test]
fn length_counter_loads_only_when_enabled() {
    let mut apu = NesAPU::new();
    apu.write_reg(0x4015, 0x01);
    apu.write_reg(0x4003, 0x08);
    assert_eq!(apu.p1.length_counter, 254);
    apu.write_reg(0x4007, 0x08);
    assert_eq!(apu.p2.length_counter, 0, "pulse 2 is disabled");
    apu.write_p2_length(0xF8);
    assert_eq!(apu.p2.length_counter, 0);
    apu.write_reg(0x4015, 0x03);
    apu.write_p2_length(0xF8);
    assert_eq!(apu.p2.length_counter, 30);
}

#[test]
fn disabling_a_channel_clears_its_length() {
    let mut apu = NesAPU::new();
    apu.write_reg(0x4015, 0x01);
    apu.write_reg(0x4003, 0x18);
    assert_eq!(apu.p1.length_counter, 2);
    apu.write_reg(0x4015, 0x00);
    assert_eq!(apu.p1.length_counter, 0);
}

#[test]
fn status_read_reports_lengths_and_clears_frame_irq() {
    let mut apu = NesAPU::new();
    apu.write_reg(0x4015, 0x01);
    apu.write_reg(0x4003, 0x08);
    apu.frame_irq_flag = true;
    assert!(apu.is_irq_asserted());
    assert_eq!(apu.read_4015(), 0x41);
    assert!(!apu.frame_irq_flag);
    assert_eq!(apu.read_4015(), 0x01);
}

#[test]
fn four_step_sequence_raises_frame_irq() {
    let mut apu = NesAPU::new();
    for _ in 0..29827 {
        apu.step_one_cycle();
    }
    assert!(!apu.frame_irq_flag);
    for _ in 0..3 {
        apu.step_one_cycle();
    }
    assert!(apu.frame_irq_flag);
    assert!(apu.is_irq_asserted());
    assert_eq!(apu.total_cycles(), 29830);
}

#[test]
fn inhibited_sequence_raises_no_irq() {
    let mut apu = NesAPU::new();
    apu.write_reg(0x4017, 0x40);
    for _ in 0..40000 {
        apu.step_one_cycle();
    }
    assert!(!apu.is_irq_asserted());
}

#[test]
fn state_round_trip() {
    let mut apu = NesAPU::new();
    apu.write_reg(0x4015, 0x0F);
    apu.write_reg(0x4000, 0xBF);
    apu.write_reg(0x4003, 0x08);
    apu.write_reg(0x400B, 0x10);
    for _ in 0..100 {
        apu.step_one_cycle();
    }
    let state = apu.get_state();
    let mut other = NesAPU::new();
    other.load_state(&state);
    assert_eq!(other.total_cycles(), apu.total_cycles());
    assert_eq!(other.frame_counter, apu.frame_counter);
    assert_eq!(other.p1.timer, apu.p1.timer);
    assert_eq!(other.p1.length_counter, apu.p1.length_counter);
    assert_eq!(other.tri.length_counter, apu.tri.length_counter);
}
