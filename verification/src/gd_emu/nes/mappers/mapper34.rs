use vstd::prelude::*;
use crate::gd_emu::nes::mappers::{Mapper, Mirroring, mirror_nametable, mirror_spec, cycles_after, advance_cycles};
use crate::gd_emu::nes::mappers::mapper2::lemma_bank_offset;

verus! {

/// Mapper 34 covers two boards. BNROM: one 32 KiB PRG bank register at
/// every address $8000-$FFFF, CHR-RAM, mirroring from the header.
/// NINA-001: PRG bank at $7FFD and two 4 KiB CHR banks at $7FFE/$7FFF
/// (over PRG-RAM, which takes the writes too), vertical mirroring.
pub struct Mapper34 {
    pub prg_banks: usize,
    pub prg_bank_count: usize,
    pub prg_bank: u8,
    pub chr_banks: usize,
    pub chr_rom_size: usize,
    pub is_nina001: bool,
    pub chr_bank_0: u8,
    pub chr_bank_1: u8,
    pub mirroring_mode: Mirroring,
    pub has_four_screen: bool,
    pub prg_rom: Vec<u8>,
    pub prg_ram: Vec<u8>,
    pub chr_rom: Vec<u8>,
    pub chr_ram: Vec<u8>,
    pub current_cycle: i64,
    pub sram_dirty: bool,
}

/// Which board a mapper-34 image is: the submapper decides, else CHR-ROM
/// over 8 KiB means NINA-001.
pub open spec fn is_nina001_board(submapper: u8, chr_rom_size: int) -> bool {
    match submapper {
        1 => true,
        2 => false,
        _ => chr_rom_size > 8192,
    }
}

impl Mapper34 {
    pub open spec fn wf(&self) -> bool {
        &&& self.prg_ram.len() == 8192
        &&& self.chr_rom_size == self.chr_rom.len()
        &&& if self.is_nina001 {
            self.prg_rom.len() > 0 && self.chr_rom.len() > 0
        } else {
            &&& self.prg_bank_count >= 1
            &&& self.prg_bank_count as u8 != 0
            &&& self.prg_rom.len() >= self.prg_bank_count * 0x8000
            &&& self.chr_ram.len() == 8192
        }
    }

    pub open spec fn cpu_byte(&self, addr: u16) -> u8 {
        if self.is_nina001 && 0x6000 <= addr < 0x8000 {
            self.prg_ram@[addr - 0x6000]
        } else if addr < 0x8000 {
            0
        } else if self.is_nina001 {
            self.prg_rom@[(self.prg_bank * 0x8000 + (addr & 0x7FFF)) % (self.prg_rom.len() as int)]
        } else {
            self.prg_rom@[((self.prg_bank as int) % (self.prg_bank_count as int)) * 0x8000 + (addr & 0x7FFF)]
        }
    }

    pub open spec fn chr_byte(&self, addr: int) -> u8 {
        if self.chr_rom_size > 0 {
            self.chr_rom@[addr % (self.chr_rom_size as int)]
        } else {
            self.chr_ram@[addr % (self.chr_ram.len() as int)]
        }
    }

    pub open spec fn ppu_byte(&self, p_addr: u16) -> u8 {
        let addr = p_addr & 0x3FFF;
        if addr >= 0x2000 {
            0
        } else if self.is_nina001 {
            let bank = if addr < 0x1000 { self.chr_bank_0 } else { self.chr_bank_1 };
            self.chr_rom@[(bank * 0x1000 + (addr & 0x0FFF)) % (self.chr_rom.len() as int)]
        } else {
            self.chr_byte(addr as int)
        }
    }

    pub fn new(
        prg_banks: usize,
        chr_banks: usize,
        prg_rom: Vec<u8>,
        chr_rom: Vec<u8>,
        initial_mirroring: Mirroring,
        four_screen_bit: bool,
        submapper: u8,
    ) -> (r: Self)
        ensures
            r.is_nina001 == is_nina001_board(submapper, chr_rom.len() as int),
            r.mirroring_mode == (if r.is_nina001 { Mirroring::Vertical } else { initial_mirroring }),
            r.chr_ram.len() == (if r.is_nina001 { 0int } else { 8192 }),
            r.prg_bank_count == prg_rom.len() / 0x8000,
            r.prg_banks == prg_banks,
            r.chr_banks == chr_banks,
            r.prg_bank == 0 && r.chr_bank_0 == 0 && r.chr_bank_1 == 0,
            r.chr_rom_size == chr_rom.len(),
            r.has_four_screen == four_screen_bit,
            r.prg_rom@ == prg_rom@,
            r.chr_rom@ == chr_rom@,
            r.prg_ram.len() == 8192,
            r.current_cycle == 0,
            !r.sram_dirty,
    {
        let prg_ram = vec![0u8; 8192];
        let chr_rom_size = chr_rom.len();
        let is_nina001 = match submapper {
            1 => true,
            2 => false,
            _ => chr_rom_size > 8192,
        };
        let chr_ram = if is_nina001 { Vec::new() } else { vec![0u8; 8192] };
        let prg_bank_count = prg_rom.len() / 0x8000;
        let mirroring_mode = if is_nina001 { Mirroring::Vertical } else { initial_mirroring };
        Self {
            prg_banks,
            prg_bank_count,
            prg_bank: 0,
            chr_banks,
            chr_rom_size,
            is_nina001,
            chr_bank_0: 0,
            chr_bank_1: 0,
            mirroring_mode,
            has_four_screen: four_screen_bit,
            prg_rom,
            prg_ram,
            chr_rom,
            chr_ram,
            current_cycle: 0,
            sram_dirty: false,
        }
    }

    fn _chr_read(&self, addr: usize) -> (r: u8)
        requires
            self.wf(),
            !self.is_nina001,
        ensures
            r == self.chr_byte(addr as int),
    {
        if self.chr_rom_size > 0 {
            self.chr_rom[addr % self.chr_rom_size]
        } else {
            self.chr_ram[addr % self.chr_ram.len()]
        }
    }
}

impl Mapper for Mapper34 {
    open spec fn sram(&self) -> Option<Seq<u8>> {
        None
    }

    open spec fn sram_changed(&self) -> bool {
        false
    }

    fn get_sram(&self) -> (r: Option<&[u8]>) {
        None
    }

    fn load_sram(&mut self, data: &[u8]) {
    }

    fn is_sram_dirty(&self) -> (r: bool) {
        false
    }

    fn clear_sram_dirty(&mut self) {
    }

    open spec fn inv(&self) -> bool {
        self.wf()
    }

    fn step_cycles(&mut self, cycles: u64)
        ensures
            *final(self) == (Mapper34 { current_cycle: cycles_after(old(self).current_cycle, cycles), ..*old(self) }),
    {
        self.current_cycle = advance_cycles(self.current_cycle, cycles);
    }

    fn cpu_read(&self, addr: u16) -> (r: u8)
        ensures
            r == self.cpu_byte(addr),
    {
        if self.is_nina001 && addr >= 0x6000 && addr < 0x8000 {
            return self.prg_ram[(addr - 0x6000) as usize];
        }
        if addr < 0x8000 {
            return 0;
        }
        proof {
            crate::bits::lemma_word_fields(addr);
        }
        if self.is_nina001 {
            let bank = self.prg_bank as usize;
            let offset = (addr & 0x7FFF) as usize;
            let idx = (bank * 0x8000) + offset;
            return self.prg_rom[idx % self.prg_rom.len()];
        }
        let bank = self.prg_bank as usize % self.prg_bank_count;
        let offset = (addr & 0x7FFF) as usize;
        proof {
            lemma_bank_offset(bank as int, self.prg_bank_count as int, 0x8000);
        }
        self.prg_rom[(bank * 0x8000) + offset]
    }

    /// NINA-001: PRG-RAM takes every write at $6000-$7FFF and the top three
    /// bytes are the bank registers. BNROM: any write at $8000-$FFFF selects
    /// the PRG bank, modulo the bank count.
    fn cpu_write(&mut self, addr: u16, value: u8)
        ensures
            old(self).is_nina001 && 0x6000 <= addr < 0x8000 ==> {
                &&& final(self).prg_ram@ == old(self).prg_ram@.update(addr - 0x6000, value)
                &&& final(self).sram_dirty
                &&& final(self).prg_bank == (if addr == 0x7FFD { value & 0x07 } else { old(self).prg_bank })
                &&& final(self).chr_bank_0 == (if addr == 0x7FFE { value & 0x0F } else { old(self).chr_bank_0 })
                &&& final(self).chr_bank_1 == (if addr == 0x7FFF { value & 0x0F } else { old(self).chr_bank_1 })
                &&& *final(self) == (Mapper34 {
                    prg_ram: final(self).prg_ram,
                    sram_dirty: true,
                    prg_bank: final(self).prg_bank,
                    chr_bank_0: final(self).chr_bank_0,
                    chr_bank_1: final(self).chr_bank_1,
                    ..*old(self)
                })
            },
            old(self).is_nina001 && !(0x6000 <= addr < 0x8000) ==> *final(self) == *old(self),
            !old(self).is_nina001 && addr >= 0x8000 ==> *final(self) == (Mapper34 {
                prg_bank: value % (old(self).prg_bank_count as u8),
                ..*old(self)
            }),
            !old(self).is_nina001 && addr < 0x8000 ==> *final(self) == *old(self),
    {
        if self.is_nina001 {
            if addr >= 0x6000 && addr < 0x8000 {
                self.prg_ram.set((addr - 0x6000) as usize, value);
                self.sram_dirty = true;
            }
            match addr {
                0x7FFD => self.prg_bank = value & 0x07,
                0x7FFE => self.chr_bank_0 = value & 0x0F,
                0x7FFF => self.chr_bank_1 = value & 0x0F,
                _ => {},
            }
            return;
        }
        if addr < 0x8000 {
            return;
        }
        if self.prg_bank_count > 0 {
            self.prg_bank = value % self.prg_bank_count as u8;
        }
    }

    open spec fn chr_read(&self, addr: u16, v: u8) -> bool {
        v == self.ppu_byte(addr)
    }

    fn ppu_read(&self, p_addr: u16) -> (r: u8)
        ensures
            self.chr_read(p_addr, r),
            r == self.ppu_byte(p_addr),
    {
        let addr = p_addr & 0x3FFF;
        if addr < 0x2000 {
            if self.is_nina001 {
                let bank = if addr < 0x1000 { self.chr_bank_0 } else { self.chr_bank_1 } as usize;
                let local = (addr & 0x0FFF) as usize;
                proof {
                    crate::bits::lemma_word_fields(addr);
                }
                let idx = (bank * 0x1000) + local;
                return self.chr_rom[idx % self.chr_rom.len()];
            }
            return self._chr_read(addr as usize);
        }
        0
    }

    /// Only BNROM's CHR-RAM takes writes.
    fn ppu_write(&mut self, p_addr: u16, value: u8)
        ensures
            final(self).chr_ram@ == (if (p_addr & 0x3FFF) < 0x2000 && !old(self).is_nina001 && old(self).chr_banks == 0 {
                old(self).chr_ram@.update((p_addr & 0x1FFF) as int, value)
            } else {
                old(self).chr_ram@
            }),
            *final(self) == (Mapper34 { chr_ram: final(self).chr_ram, ..*old(self) }),
    {
        let addr = p_addr & 0x3FFF;
        if addr < 0x2000 && !self.is_nina001 && self.chr_banks == 0 {
            proof {
                crate::bits::lemma_word_fields(addr);
                crate::bits::lemma_word_fields(p_addr);
            }
            self.chr_ram.set((addr & 0x1FFF) as usize, value);
        }
    }

    open spec fn vram_offset(&self, addr: u16) -> int {
        mirror_spec(self.mirroring_mode, self.has_four_screen, addr) as int
    }

    fn mirror_vram_address(&self, addr: u16) -> (r: usize)
        ensures
            r == self.vram_offset(addr),
    {
        mirror_nametable(self.mirroring_mode, self.has_four_screen, addr)
    }
}

} // verus!
