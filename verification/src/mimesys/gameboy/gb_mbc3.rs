use vstd::prelude::*;
use crate::mimesys::gameboy::gb_mbc::{Mbc, next_power_of_two, bank_count};

verus! {

/// MBC3: a 7-bit ROM bank register (0 as 1), a RAM bank / RTC register
/// select, and 8 KiB of RAM at $A000.
pub struct Mbc3 {
    pub prg_rom: Vec<u8>,
    pub cart_ram: Vec<u8>,
    pub rom_bank: u8,
    pub ram_bank: u8,
    pub ram_enabled: bool,
    pub bank_mask: usize,
    pub rtc_register: u8,
    pub rtc_seconds: u8,
    pub rtc_minutes: u8,
    pub rtc_hours: u8,
    pub rtc_days: u8,
    pub rtc_halt: bool,
    pub rtc_day_carry: bool,
    pub last_system_time: u64,
    pub rtc_latch_value: u8,
    pub rtc_selected: bool,
}

impl Mbc3 {
    pub open spec fn wf(&self) -> bool {
        &&& self.prg_rom.len() >= (self.bank_mask + 1) * 0x4000
        &&& self.cart_ram.len() >= 0x2000
    }

    pub open spec fn byte(&self, addr: u16) -> u8 {
        if addr <= 0x3FFF {
            self.prg_rom@[addr as int]
        } else if addr <= 0x7FFF {
            self.prg_rom@[((self.rom_bank as usize) & self.bank_mask) * 0x4000 + (addr - 0x4000)]
        } else if 0xA000 <= addr <= 0xBFFF {
            self.cart_ram@[addr - 0xA000]
        } else {
            0xFF
        }
    }

    pub fn new(prg_rom: Vec<u8>, cart_ram: Vec<u8>) -> (r: Self)
        ensures
            r.prg_rom@ == prg_rom@,
            r.cart_ram@ == cart_ram@,
            r.rom_bank == 1 && r.ram_bank == 0 && !r.ram_enabled && !r.rtc_selected,
            r.bank_mask + 1 >= bank_count(prg_rom.len() as int),
            vstd::arithmetic::power2::is_pow2(r.bank_mask + 1),
    {
        let n = prg_rom.len() / 16384;
        let total_banks: usize = if n >= 1 { n } else { 1 };
        let bank_mask: usize = next_power_of_two(total_banks) - 1;
        Self {
            prg_rom,
            cart_ram,
            rom_bank: 1,
            ram_bank: 0,
            ram_enabled: false,
            rtc_register: 0,
            rtc_seconds: 0,
            rtc_minutes: 0,
            rtc_hours: 0,
            rtc_days: 0,
            rtc_halt: false,
            rtc_day_carry: false,
            last_system_time: 0,
            rtc_latch_value: 0,
            rtc_selected: false,
            bank_mask,
        }
    }
}

impl Mbc for Mbc3 {
    /// This controller keeps no battery RAM for a save.
    open spec fn sram(&self) -> Option<Seq<u8>> {
        None
    }

    open spec fn sram_changed(&self) -> bool {
        false
    }

    fn get_sram(&self) -> (r: Option<&[u8]>) {
        None
    }

    fn load_sram(&mut self, data: &[u8]) {
    }

    fn is_sram_dirty(&self) -> (r: bool) {
        false
    }

    fn clear_sram_dirty(&mut self) {
    }

    open spec fn inv(&self) -> bool {
        self.wf()
    }

    fn read(&self, addr: u16) -> (r: u8)
        ensures
            r == self.byte(addr),
    {
        if addr <= 0x3FFF {
            return self.prg_rom[addr as usize];
        } else if addr <= 0x7FFF {
            let rb = self.rom_bank as usize;
            let mask = self.bank_mask;
            let bank = rb & mask;
            proof {
                crate::bits::lemma_usize_fields(rb, mask);
            }
            proof {
                crate::gd_emu::nes::mappers::mapper2::lemma_bank_offset(bank as int, (mask + 1) as int, 0x4000);
            }
            let bank_offset: usize = bank * 0x4000;
            return self.prg_rom[bank_offset + (addr as usize - 0x4000)];
        } else if addr >= 0xA000 && addr <= 0xBFFF {
            return self.cart_ram[(addr - 0xA000) as usize];
        }
        0xFF
    }

    /// $0000: RAM enable; $2000: ROM bank (7 bits, 0 as 1); $4000: RAM
    /// bank 0-3 or RTC register $08-$0C; $A000: RAM.
    fn write(&mut self, addr: u16, value: u8)
        ensures
            addr <= 0x1FFF ==> *final(self) == (Mbc3 { ram_enabled: value & 0x0F == 0x0A, ..*old(self) }),
            0x2000 <= addr <= 0x3FFF ==> *final(self) == (Mbc3 {
                rom_bank: if value & 0x7F == 0 { 1 } else { value & 0x7F },
                ..*old(self)
            }),
            0x4000 <= addr <= 0x5FFF ==> *final(self) == (if value <= 3 {
                Mbc3 { rtc_selected: false, ram_bank: value & 0x03, ..*old(self) }
            } else if 0x08 <= value <= 0x0C {
                Mbc3 { rtc_selected: true, rtc_register: value, ..*old(self) }
            } else {
                *old(self)
            }),
            0xA000 <= addr <= 0xBFFF ==> final(self).cart_ram@ == old(self).cart_ram@.update(addr - 0xA000, value)
                && *final(self) == (Mbc3 { cart_ram: final(self).cart_ram, ..*old(self) }),
            (0x6000 <= addr < 0xA000 || addr > 0xBFFF) ==> *final(self) == *old(self),
    {
        if addr <= 0x1FFF {
            self.ram_enabled = (value & 0x0F) == 0x0A;
        } else if addr <= 0x3FFF {
            self.rom_bank = value & 0x7F;
            if self.rom_bank == 0 {
                self.rom_bank = 1;
            }
        } else if addr <= 0x5FFF {
            if value <= 0x03 {
                self.rtc_selected = false;
                self.ram_bank = value & 0x03;
            } else if value >= 0x08 && value <= 0x0C {
                self.rtc_selected = true;
                self.rtc_register = value;
            }
        } else if addr >= 0xA000 && addr <= 0xBFFF {
            self.cart_ram.set((addr - 0xA000) as usize, value);
        }
    }
}

} // verus!
