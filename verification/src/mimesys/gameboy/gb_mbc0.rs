use vstd::prelude::*;
use crate::mimesys::gameboy::gb_mbc::Mbc;

verus! {

/// No controller: the ROM at $8000 (16 KiB images mirrored) and RAM at
/// $6000-$7FFF, without banking.
pub struct Mbc0 {
    pub prg_rom: Vec<u8>,
    pub prg_ram: Vec<u8>,
}

impl Mbc0 {
    pub open spec fn wf(&self) -> bool {
        &&& (self.prg_rom.len() == 16384 || self.prg_rom.len() >= 0x8000)
        &&& self.prg_ram.len() >= 0x2000
    }

    pub open spec fn byte(&self, addr: u16) -> u8 {
        if addr < 0x6000 {
            0
        } else if addr < 0x8000 {
            self.prg_ram@[addr - 0x6000]
        } else if self.prg_rom.len() == 16384 {
            self.prg_rom@[(addr - 0x8000) % 16384]
        } else {
            self.prg_rom@[addr - 0x8000]
        }
    }

    pub fn new(prg_rom: Vec<u8>, cart_ram: Vec<u8>) -> (r: Self)
        ensures
            r.prg_rom@ == prg_rom@,
            r.prg_ram@ == cart_ram@,
    {
        Self { prg_rom, prg_ram: cart_ram }
    }
}

impl Mbc for Mbc0 {
    /// This controller keeps no battery RAM for a save.
    open spec fn sram(&self) -> Option<Seq<u8>> {
        None
    }

    open spec fn sram_changed(&self) -> bool {
        false
    }

    fn get_sram(&self) -> (r: Option<&[u8]>) {
        None
    }

    fn load_sram(&mut self, data: &[u8]) {
    }

    fn is_sram_dirty(&self) -> (r: bool) {
        false
    }

    fn clear_sram_dirty(&mut self) {
    }

    open spec fn inv(&self) -> bool {
        self.wf()
    }

    fn read(&self, addr: u16) -> (r: u8)
        ensures
            r == self.byte(addr),
    {
        if addr < 0x8000 {
            if addr >= 0x6000 {
                return self.prg_ram[(addr - 0x6000) as usize];
            }
            return 0;
        }
        let mut rom_addr = addr - 0x8000;
        if self.prg_rom.len() == 16384 {
            rom_addr = rom_addr % 16384;
        }
        self.prg_rom[rom_addr as usize]
    }

    /// RAM at $6000-$7FFF takes writes; nothing else does.
    fn write(&mut self, addr: u16, value: u8)
        ensures
            final(self).prg_ram@ == (if 0x6000 <= addr < 0x8000 {
                old(self).prg_ram@.update(addr - 0x6000, value)
            } else {
                old(self).prg_ram@
            }),
            final(self).prg_rom == old(self).prg_rom,
    {
        if addr < 0x8000 {
            if addr >= 0x6000 {
                self.prg_ram.set((addr - 0x6000) as usize, value);
            }
        }
    }
}

} // verus!
