use emucore::mimesys::common::timed::Timed;
use emucore::mimesys::gameboy::gb_apu::GbAPU;

#[test]
fn power_on_status() {
    let apu = GbAPU::new();
    assert_eq!(apu.read_register(0xFF26), 0xF0);
    assert_eq!(apu.read_register(0xFF10), 0xFF);
}

#[test]
fn trigger_enables_channel_with_envelope_volume() {
    let mut apu = GbAPU::new();
    apu.write_register(0xFF12, 0xA3);
    apu.write_register(0xFF14, 0x80);
    assert!(apu.ch_enabled[0]);
    assert_eq!(apu.ch_volume[0], 0x0A);
    assert_eq!(apu.env_counter[0], 3);
    assert_eq!(apu.read_register(0xFF26), 0xF1);
}

#[test]
fn dac_off_disables_channel() {
    let mut apu = GbAPU::new();
    apu.write_register(0xFF17, 0xF0);
    apu.write_register(0xFF19, 0x80);
    assert!(apu.ch_enabled[1]);
    apu.write_register(0xFF17, 0x07);
    assert!(!apu.ch_enabled[1]);
    assert_eq!(apu.env_direction[1], -1);
}

#[test]
fn master_off_ignores_writes() {
    let mut apu = GbAPU::new();
    apu.write_register(0xFF26, 0x00);
    assert_eq!(apu.read_register(0xFF26), 0x70);
    apu.write_register(0xFF11, 0xC0);
    assert_eq!(apu.ch_duty[0], 0, "writes are ignored while the unit is off");
    apu.write_register(0xFF26, 0x80);
    apu.write_register(0xFF11, 0xC5);
    assert_eq!(apu.ch_duty[0], 3);
    assert_eq!(apu.ch_length_timer[0], 64 - 5);
}

#[test]
fn frequency_registers() {
    let mut apu = GbAPU::new();
    apu.write_register(0xFF13, 0x34);
    apu.write_register(0xFF14, 0x05);
    assert_eq!(apu.ch_frequency[0], 0x534);
    assert!(!apu.ch_enabled[0]);
}

#[test]
fn square_wave_steps_once_per_period() {
    let mut apu = GbAPU::new();
    apu.write_register(0xFF11, 0x80);
    apu.write_register(0xFF12, 0xF0);
    apu.write_register(0xFF13, 0x00);
    apu.write_register(0xFF14, 0x87);
    let period = (2048 - 0x700) * 4;
    apu.advance_cycles(period - 1);
    assert_eq!(apu.ch_duty_step[0], 0);
    assert_eq!(apu.ch_output[0], 0);
    apu.advance_cycles(1);
    assert_eq!(apu.ch_duty_step[0], 1);
    assert_eq!(apu.ch_output[0], 1);
    apu.advance_cycles(period * 2 + 5);
    assert_eq!(apu.ch_duty_step[0], 3);
    assert_eq!(apu.ch_output[0], -1);
    assert_eq!(apu.ch_timer[0], 5);
}

#[test]
fn run_until_uses_the_divider() {
    let mut apu = GbAPU::with_divider(4);
    apu.run_until(400);
    assert_eq!(apu.ticks, 100);
    assert_eq!(apu.sync_point(), 400);
    apu.run_until(100);
    assert_eq!(apu.ticks, 100);
}
