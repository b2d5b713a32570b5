use vstd::prelude::*;
use crate::mimesys::gameboy::gb_mbc::Mbc;

verus! {

/// MBC2: a 4-bit ROM bank register and 512 half-bytes of built-in RAM,
/// mirrored across $A000-$BFFF; address bit 8 tells the RAM-enable and
/// bank registers apart.
pub struct Mbc2 {
    pub prg_rom: Vec<u8>,
    pub cart_ram: Vec<u8>,
    pub rom_bank: u8,
    pub ram_enabled: bool,
    pub bank_mask: u8,
}

impl Mbc2 {
    pub open spec fn wf(&self) -> bool {
        &&& self.prg_rom.len() >= ((self.bank_mask & 0x0F) as int + 1) * 0x4000
        &&& self.rom_bank <= 0x0F
        &&& (self.cart_ram.len() == 0 || self.cart_ram.len() >= 512)
    }

    pub open spec fn byte(&self, addr: u16) -> u8 {
        if addr <= 0x3FFF {
            self.prg_rom@[addr as int]
        } else if addr <= 0x7FFF {
            self.prg_rom@[((self.rom_bank & self.bank_mask) as int) * 0x4000 + (addr - 0x4000)]
        } else if 0xA000 <= addr <= 0xBFFF && self.ram_enabled && self.cart_ram.len() > 0 {
            self.cart_ram@[(addr & 0x01FF) as int] & 0x0F
        } else {
            0xFF
        }
    }

    pub fn new(prg_rom: Vec<u8>, cart_ram: Vec<u8>) -> (r: Self)
        requires
            (prg_rom.len() / 16384) as u8 >= 1,
        ensures
            r.prg_rom@ == prg_rom@,
            r.cart_ram@ == cart_ram@,
            r.rom_bank == 1,
            !r.ram_enabled,
            r.bank_mask == ((prg_rom.len() / 16384) as u8 - 1) as u8,
    {
        let total_banks = prg_rom.len() / 16384;
        Self { prg_rom, cart_ram, rom_bank: 1, ram_enabled: false, bank_mask: total_banks as u8 - 1 }
    }
}

impl Mbc for Mbc2 {
    /// This controller keeps no battery RAM for a save.
    open spec fn sram(&self) -> Option<Seq<u8>> {
        None
    }

    open spec fn sram_changed(&self) -> bool {
        false
    }

    fn get_sram(&self) -> (r: Option<&[u8]>) {
        None
    }

    fn load_sram(&mut self, data: &[u8]) {
    }

    fn is_sram_dirty(&self) -> (r: bool) {
        false
    }

    fn clear_sram_dirty(&mut self) {
    }

    open spec fn inv(&self) -> bool {
        self.wf()
    }

    fn read(&self, addr: u16) -> (r: u8)
        ensures
            r == self.byte(addr),
    {
        if addr <= 0x3FFF {
            return self.prg_rom[addr as usize];
        } else if addr <= 0x7FFF {
            let rb = self.rom_bank;
            let m = self.bank_mask;
            let bank = rb & m;
            proof {
                crate::bits::lemma_byte_pair(rb, m);
            }
            let offset = (bank as usize * 0x4000) + (addr as usize - 0x4000);
            return self.prg_rom[offset];
        } else if addr >= 0xA000 && addr <= 0xBFFF {
            if self.ram_enabled && self.cart_ram.len() > 0 {
                proof {
                    crate::bits::lemma_word_fields(addr);
                    crate::bits::lemma_word_fields(addr);
                }
                return self.cart_ram[(addr & 0x01FF) as usize] & 0x0F;
            }
        }
        0xFF
    }

    /// Below $4000: with address bit 8 clear, RAM enable (low nibble $A);
    /// set, the ROM bank (4 bits, 0 as 1). $A000-$BFFF: RAM, mirrored every
    /// 512 bytes.
    fn write(&mut self, addr: u16, value: u8)
        ensures
            addr <= 0x3FFF && addr & 0x0100 == 0 ==> *final(self) == (Mbc2 { ram_enabled: value & 0x0F == 0x0A, ..*old(self) }),
            addr <= 0x3FFF && addr & 0x0100 != 0 ==> *final(self) == (Mbc2 {
                rom_bank: if value & 0x0F == 0 { 1 } else { value & 0x0F },
                ..*old(self)
            }),
            0xA000 <= addr <= 0xBFFF && old(self).ram_enabled && old(self).cart_ram.len() > 0
                ==> final(self).cart_ram@ == old(self).cart_ram@.update((addr & 0x01FF) as int, value)
                && *final(self) == (Mbc2 { cart_ram: final(self).cart_ram, ..*old(self) }),
            (0x4000 <= addr < 0xA000 || addr > 0xBFFF || (0xA000 <= addr <= 0xBFFF && !(old(self).ram_enabled
                && old(self).cart_ram.len() > 0))) ==> *final(self) == *old(self),
    {
        if addr <= 0x3FFF {
            if (addr & 0x0100) == 0 {
                self.ram_enabled = (value & 0x0F) == 0x0A;
            } else {
                self.rom_bank = value & 0x0F;
                proof {
                    crate::bits::lemma_byte_fields(value);
                }
                if self.rom_bank == 0 {
                    self.rom_bank = 1;
                }
            }
        } else if addr >= 0xA000 && addr <= 0xBFFF {
            if self.ram_enabled && self.cart_ram.len() > 0 {
                proof {
                    crate::bits::lemma_word_fields(addr);
                }
                self.cart_ram.set((addr & 0x01FF) as usize, value);
            }
        }
    }
}

} // verus!
