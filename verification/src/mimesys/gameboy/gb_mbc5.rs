use vstd::prelude::*;
use crate::mimesys::gameboy::gb_mbc::{Mbc, next_power_of_two, bank_count};

verus! {

/// MBC5: a 9-bit ROM bank (low byte at $2000, bit 8 at $3000), a 4-bit RAM
/// bank, all reads folded onto the sizes of ROM and RAM.
pub struct Mbc5 {
    pub prg_rom: Vec<u8>,
    pub cart_ram: Vec<u8>,
    pub rom_bank_lo: u8,
    pub rom_bank_hi: u8,
    pub ram_bank: u8,
    pub ram_enabled: bool,
    pub bank_mask: u16,
}

impl Mbc5 {
    /// The bank at $4000-$7FFF.
    /// The controller after `value` is written to the low ROM bank register.
    pub open spec fn rom_bank_lo_written(self, value: u8) -> Self {
        Mbc5 { rom_bank_lo: value, ..self }
    }

    pub open spec fn rom_bank(&self) -> u16 {
        (((self.rom_bank_hi as u16) << 8u16) | self.rom_bank_lo as u16) & self.bank_mask
    }

    pub open spec fn byte(&self, addr: u16) -> u8 {
        if addr <= 0x7FFF {
            if self.prg_rom.len() == 0 {
                0xFF
            } else if addr <= 0x3FFF {
                self.prg_rom@[(addr as int) % (self.prg_rom.len() as int)]
            } else {
                self.prg_rom@[(self.rom_bank() * 0x4000 + (addr - 0x4000)) % (self.prg_rom.len() as int)]
            }
        } else if 0xA000 <= addr <= 0xBFFF && self.ram_enabled && self.cart_ram.len() > 0 {
            self.cart_ram@[(self.ram_bank * 0x2000 + (addr - 0xA000)) % (self.cart_ram.len() as int)]
        } else {
            0xFF
        }
    }

    pub fn new(prg_rom: Vec<u8>, cart_ram: Vec<u8>) -> (r: Self)
        ensures
            r.prg_rom@ == prg_rom@,
            r.cart_ram@ == cart_ram@,
            r.rom_bank_lo == 1 && r.rom_bank_hi == 0 && r.ram_bank == 0 && !r.ram_enabled,
    {
        let n = prg_rom.len() / 16384;
        let total_banks: usize = if n >= 1 { n } else { 1 };
        let bank_mask = (next_power_of_two(total_banks) - 1) as u16;
        Self { prg_rom, cart_ram, rom_bank_lo: 1, rom_bank_hi: 0, ram_bank: 0, ram_enabled: false, bank_mask }
    }

    fn _get_selected_rom_bank(&self) -> (r: u16)
        ensures
            r == self.rom_bank(),
    {
        let bank = ((self.rom_bank_hi as u16) << 8u16) | self.rom_bank_lo as u16;
        bank & self.bank_mask
    }
}

impl Mbc for Mbc5 {
    /// This controller keeps no battery RAM for a save.
    open spec fn sram(&self) -> Option<Seq<u8>> {
        None
    }

    open spec fn sram_changed(&self) -> bool {
        false
    }

    fn get_sram(&self) -> (r: Option<&[u8]>) {
        None
    }

    fn load_sram(&mut self, data: &[u8]) {
    }

    fn is_sram_dirty(&self) -> (r: bool) {
        false
    }

    fn clear_sram_dirty(&mut self) {
    }

    open spec fn inv(&self) -> bool {
        true
    }

    fn read(&self, addr: u16) -> (r: u8)
        ensures
            r == self.byte(addr),
    {
        if addr <= 0x3FFF {
            if self.prg_rom.len() == 0 {
                return 0xFF;
            }
            return self.prg_rom[(addr as usize) % self.prg_rom.len()];
        } else if addr <= 0x7FFF {
            if self.prg_rom.len() == 0 {
                return 0xFF;
            }
            let bank = self._get_selected_rom_bank();
            let offset: usize = (bank as usize * 0x4000) + (addr as usize - 0x4000);
            return self.prg_rom[offset % self.prg_rom.len()];
        } else if addr >= 0xA000 && addr <= 0xBFFF {
            if self.ram_enabled && self.cart_ram.len() > 0 {
                let ram_offset: usize = (self.ram_bank as usize * 0x2000) + (addr as usize - 0xA000);
                return self.cart_ram[ram_offset % self.cart_ram.len()];
            }
        }
        0xFF
    }

    /// $0000: RAM enable; $2000: ROM bank low byte; $3000: ROM bank bit 8;
    /// $4000: RAM bank; $A000: RAM in the selected bank.
    fn write(&mut self, addr: u16, value: u8)
        ensures
            addr <= 0x1FFF ==> *final(self) == (Mbc5 { ram_enabled: value & 0x0F == 0x0A, ..*old(self) }),
            0x2000 <= addr <= 0x2FFF ==> *final(self) == old(self).rom_bank_lo_written(value),
            0x3000 <= addr <= 0x3FFF ==> *final(self) == (Mbc5 { rom_bank_hi: value & 0x01, ..*old(self) }),
            0x4000 <= addr <= 0x5FFF ==> *final(self) == (Mbc5 { ram_bank: value & 0x0F, ..*old(self) }),
            0xA000 <= addr <= 0xBFFF && old(self).ram_enabled && old(self).cart_ram.len() > 0 ==> final(self).cart_ram@
                == old(self).cart_ram@.update((old(self).ram_bank * 0x2000 + (addr - 0xA000)) % (old(self).cart_ram.len() as int), value)
                && *final(self) == (Mbc5 { cart_ram: final(self).cart_ram, ..*old(self) }),
            (0x6000 <= addr < 0xA000 || addr > 0xBFFF || (0xA000 <= addr <= 0xBFFF && !(old(self).ram_enabled
                && old(self).cart_ram.len() > 0))) ==> *final(self) == *old(self),
    {
        if addr <= 0x1FFF {
            self.ram_enabled = (value & 0x0F) == 0x0A;
        } else if addr <= 0x2FFF {
            self.rom_bank_lo = value;
        } else if addr <= 0x3FFF {
            self.rom_bank_hi = value & 0x01;
        } else if addr <= 0x5FFF {
            self.ram_bank = value & 0x0F;
        } else if addr >= 0xA000 && addr <= 0xBFFF {
            if self.ram_enabled && self.cart_ram.len() > 0 {
                let ram_offset: usize = (self.ram_bank as usize * 0x2000) + (addr as usize - 0xA000);
                let len = self.cart_ram.len();
                self.cart_ram.set(ram_offset % len, value);
            }
        }
    }
}

/// MBC5 ROM bank switching: with the ninth bank bit clear, after `n` is
/// written to $2000-$2FFF a read at $4000 + `k` gives byte `k` of ROM bank
/// `n` masked to the ROM's banks (bank 0 included, unlike MBC1), wrapping
/// past the end of the image.
pub proof fn lemma_mbc5_rom_bank_select(m: Mbc5, n: u8, k: u16)
    requires
        m.rom_bank_hi == 0,
        k < 0x4000,
        m.prg_rom.len() > 0,
    ensures
        m.rom_bank_lo_written(n).byte((0x4000 + k) as u16)
            == m.prg_rom@[(((n as u16) & m.bank_mask) * 0x4000 + k) % (m.prg_rom.len() as int)],
{
    assert(((0u16 << 8u16) | (n as u16)) == n as u16) by (bit_vector);
}

} // verus!
