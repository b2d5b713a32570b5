use vstd::prelude::*;
use crate::mimesys::gameboy::gb_mbc::{Mbc, next_power_of_two, bank_count};

verus! {

/// MBC1: a 5-bit ROM bank register (0 reads as 1), a 2-bit register for
/// the upper ROM bits or the RAM bank, and a mode bit choosing which.
pub struct Mbc1 {
    pub prg_rom: Vec<u8>,
    pub cart_ram: Vec<u8>,
    pub bank_reg_1: u8,
    pub bank_reg_2: u8,
    pub mode: u8,
    pub bank_mask: usize,
    pub total_banks: usize,
    pub ram_enabled: bool,
}

impl Mbc1 {
    /// The ROM holds every bank the mask can select, and RAM, if any, a
    /// whole 8 KiB window.
    pub open spec fn wf(&self) -> bool {
        &&& self.prg_rom.len() >= (self.bank_mask + 1) * 0x4000
        &&& self.bank_reg_2 <= 3
        &&& self.bank_mask <= 0x10000
        &&& (self.cart_ram.len() == 0 || self.cart_ram.len() >= 0x2000)
    }

    /// The controller after `value` is written to the ROM bank register: its
    /// low five bits, a 0 taken as 1.
    pub open spec fn rom_bank_written(self, value: u8) -> Self {
        Mbc1 { bank_reg_1: if value & 0x1F == 0 { 1 } else { value & 0x1F }, ..self }
    }

    /// The bank at $4000-$7FFF.
    pub open spec fn rom_bank(&self) -> int {
        let low: int = if self.bank_reg_1 == 0 { 1 } else { self.bank_reg_1 as int };
        ((low as usize | ((self.bank_reg_2 as usize) << 5usize)) & self.bank_mask) as int
    }

    pub open spec fn byte(&self, addr: u16) -> u8 {
        if addr <= 0x3FFF {
            if self.mode == 1 {
                self.prg_rom@[((((self.bank_reg_2 << 5u8) as usize) & self.bank_mask) * 0x4000 + addr) as int]
            } else {
                self.prg_rom@[addr as int]
            }
        } else if addr <= 0x7FFF {
            self.prg_rom@[self.rom_bank() * 0x4000 + (addr - 0x4000)]
        } else if 0xA000 <= addr <= 0xBFFF && self.ram_enabled && self.cart_ram.len() > 0 {
            self.cart_ram@[addr - 0xA000]
        } else {
            0xFF
        }
    }

    pub fn new(prg_rom: Vec<u8>, cart_ram: Vec<u8>) -> (r: Self)
        ensures
            r.prg_rom@ == prg_rom@,
            r.cart_ram@ == cart_ram@,
            r.bank_reg_1 == 1 && r.bank_reg_2 == 0 && r.mode == 0 && !r.ram_enabled,
            r.total_banks == bank_count(prg_rom.len() as int),
            r.bank_mask + 1 >= r.total_banks,
            vstd::arithmetic::power2::is_pow2(r.bank_mask + 1),
    {
        let n = prg_rom.len() / 16384;
        let total_banks: usize = if n >= 1 { n } else { 1 };
        let bank_mask = next_power_of_two(total_banks) - 1;
        Self { prg_rom, cart_ram, bank_reg_1: 1, bank_reg_2: 0, mode: 0, bank_mask, total_banks, ram_enabled: false }
    }

    fn _get_selected_rom_bank(&self) -> (r: usize)
        requires
            self.wf(),
        ensures
            r == self.rom_bank(),
            r <= self.bank_mask,
    {
        let mut bank: usize = self.bank_reg_1 as usize;
        if bank == 0 {
            bank = 1;
        }
        let b2 = self.bank_reg_2 as usize;
        let mask = self.bank_mask;
        let sel = bank | (b2 << 5usize);
        proof {
            crate::bits::lemma_usize_fields(sel, mask);
        }
        sel & mask
    }
}

impl Mbc for Mbc1 {
    /// This controller keeps no battery RAM for a save.
    open spec fn sram(&self) -> Option<Seq<u8>> {
        None
    }

    open spec fn sram_changed(&self) -> bool {
        false
    }

    fn get_sram(&self) -> (r: Option<&[u8]>) {
        None
    }

    fn load_sram(&mut self, data: &[u8]) {
    }

    fn is_sram_dirty(&self) -> (r: bool) {
        false
    }

    fn clear_sram_dirty(&mut self) {
    }

    open spec fn inv(&self) -> bool {
        self.wf()
    }

    fn read(&self, addr: u16) -> (r: u8)
        ensures
            r == self.byte(addr),
    {
        if addr <= 0x3FFF {
            if self.mode == 1 {
                let mask = self.bank_mask;
                let b2 = self.bank_reg_2;
                let bank: usize = ((b2 << 5u8) as usize) & mask;
                proof {
                    crate::bits::lemma_usize_fields((b2 << 5u8) as usize, mask);
                }
                proof {
                    crate::gd_emu::nes::mappers::mapper2::lemma_bank_offset(bank as int, (mask + 1) as int, 0x4000);
                }
                return self.prg_rom[(bank * 0x4000) + addr as usize];
            }
            return self.prg_rom[addr as usize];
        } else if addr <= 0x7FFF {
            let bank = self._get_selected_rom_bank();
            proof {
                crate::gd_emu::nes::mappers::mapper2::lemma_bank_offset(bank as int, (self.bank_mask + 1) as int, 0x4000);
            }
            let offset = (bank * 0x4000) + (addr as usize - 0x4000);
            return self.prg_rom[offset];
        } else if addr >= 0xA000 && addr <= 0xBFFF {
            if self.ram_enabled && self.cart_ram.len() > 0 {
                return self.cart_ram[(addr - 0xA000) as usize];
            }
        }
        0xFF
    }

    /// $0000: RAM enable (low nibble $A); $2000: ROM bank (5 bits, 0 as 1);
    /// $4000: the 2-bit register; $6000: mode; $A000: RAM, in the bank the
    /// mode selects, folded onto the RAM's size.
    fn write(&mut self, addr: u16, value: u8)
        ensures
            addr <= 0x1FFF ==> *final(self) == (Mbc1 { ram_enabled: value & 0x0F == 0x0A, ..*old(self) }),
            0x2000 <= addr <= 0x3FFF ==> *final(self) == old(self).rom_bank_written(value),
            0x4000 <= addr <= 0x5FFF ==> *final(self) == (Mbc1 { bank_reg_2: value & 0x03, ..*old(self) }),
            0x6000 <= addr <= 0x7FFF ==> *final(self) == (Mbc1 { mode: value & 0x01, ..*old(self) }),
            0xA000 <= addr <= 0xBFFF && old(self).ram_enabled && old(self).cart_ram.len() > 0 ==> {
                let r_bank: int = if old(self).mode == 1 { old(self).bank_reg_2 as int } else { 0 };
                final(self).cart_ram@ == old(self).cart_ram@.update(
                    (r_bank * 0x2000 + (addr - 0xA000)) % (old(self).cart_ram.len() as int), value)
            },
            (0x8000 <= addr < 0xA000 || addr > 0xBFFF || (0xA000 <= addr <= 0xBFFF && !(old(self).ram_enabled
                && old(self).cart_ram.len() > 0))) ==> *final(self) == *old(self),
            final(self).prg_rom == old(self).prg_rom,
            final(self).cart_ram@.len() == old(self).cart_ram@.len(),
    {
        if addr <= 0x1FFF {
            self.ram_enabled = (value & 0x0F) == 0x0A;
        } else if addr <= 0x3FFF {
            self.bank_reg_1 = value & 0x1F;
            if self.bank_reg_1 == 0 {
                self.bank_reg_1 = 1;
            }
        } else if addr <= 0x5FFF {
            self.bank_reg_2 = value & 0x03;
            proof {
                crate::bits::lemma_byte_fields(value);
            }
        } else if addr <= 0x7FFF {
            self.mode = value & 0x01;
        } else if addr >= 0xA000 && addr <= 0xBFFF {
            if self.ram_enabled && self.cart_ram.len() > 0 {
                let r_bank = if self.mode == 1 { self.bank_reg_2 } else { 0 };
                let ram_offset = (r_bank as usize * 0x2000) + (addr as usize - 0xA000);
                let offset: usize = ram_offset % self.cart_ram.len();
                if ram_offset < self.cart_ram.len() {
                    proof {
                        vstd::arithmetic::div_mod::lemma_small_mod(ram_offset as nat, self.cart_ram.len() as nat);
                    }
                    self.cart_ram.set(ram_offset, value);
                } else {
                    self.cart_ram.set(offset, value);
                }
            }
        }
    }
}

/// ROM bank switching: with the upper bank register at 0, after `n` is
/// written to $2000-$3FFF a read at $4000 + `k` gives byte `k` of ROM bank
/// (`n` mod 32) masked to the ROM's banks, bank 0 being taken as 1.
pub proof fn lemma_mbc1_rom_bank_select(m: Mbc1, n: u8, k: u16)
    requires
        m.bank_reg_2 == 0,
        k < 0x4000,
    ensures
        ({
            let low: usize = if n % 32 == 0 { 1 } else { (n % 32) as usize };
            m.rom_bank_written(n).byte((0x4000 + k) as u16) == m.prg_rom@[(low & m.bank_mask) * 0x4000 + k]
        }),
{
    let low: usize = if n % 32 == 0 { 1 } else { (n % 32) as usize };
    assert(n & 0x1F == n % 32 && (low | (0usize << 5usize)) == low) by (bit_vector);
}

} // verus!
