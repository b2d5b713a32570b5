use emucore::gd_emu::gameboy::gb_cpu::{GameBoyCpu, GbCpuConfig, GbVariant};

#[test]
fn dmg_boot_registers() {
    let c = GbCpuConfig::for_variant(GbVariant::Dmg);
    assert_eq!((c.initial_a, c.initial_f), (0x01, 0xB0));
    assert_eq!((c.initial_bc, c.initial_de, c.initial_hl, c.initial_sp), (0x0013, 0x00D8, 0x014D, 0xFFFE));
    assert!(!c.supports_double_speed);
}

#[test]
fn color_models_boot_registers() {
    let c = GbCpuConfig::for_variant(GbVariant::Cgb);
    assert_eq!((c.initial_a, c.initial_f, c.initial_bc), (0x11, 0x80, 0x0000));
    assert!(c.supports_double_speed);
    let a = GbCpuConfig::for_variant(GbVariant::Agb);
    assert_eq!(a.initial_bc, 0x0100);
    let m = GbCpuConfig::for_variant(GbVariant::Mgb);
    assert_eq!(m.initial_a, 0xFF);
}

#[test]
fn new_cpu_starts_from_config_and_pairs_split() {
    let mut cpu = GameBoyCpu::new(GbVariant::Dmg);
    assert_eq!(cpu.af(), 0x01B0);
    cpu.set_bc(0xABCD);
    assert_eq!(cpu.bc(), 0xABCD);
    cpu.set_hl(0x8001);
    assert_eq!(cpu.hl(), 0x8001);
    cpu.set_de(0x0102);
    assert_eq!(cpu.de(), 0x0102);
    cpu.set_af(0x12F0);
    assert_eq!(cpu.af(), 0x12F0);
}
