use vstd::prelude::*;
use crate::gd_emu::nes::mappers::{Mapper, Mirroring};

verus! {

/// NROM: 16 or 32 KiB of PRG-ROM at $8000 (16 KiB mirrored), 8 KiB of
/// PRG-RAM at $6000, no bank switching.
pub struct Mapper0 {
    pub prg_banks: u8,
    pub mirroring_mode: Mirroring,
    pub prg_rom: Vec<u8>,
    pub chr_rom: Vec<u8>,
    pub prg_ram: Vec<u8>,
    pub chr_ram: Vec<u8>,
}

/// The part of an NROM board's state that a save state keeps.
pub struct Mapper0StateVariables {
    pub prg_banks: u8,
    pub mirroring_mode: Mirroring,
    pub prg_ram: Vec<u8>,
    pub chr_ram: Vec<u8>,
}

/// NROM folds everything that is not horizontal or vertical onto 2 KiB.
pub open spec fn nrom_mirror(mode: Mirroring, addr: u16) -> int {
    let n = (addr & 0x0FFF) as int;
    match mode {
        Mirroring::Horizontal => if n < 0x800 { n % 0x400 } else { 0x400 + n % 0x400 },
        Mirroring::Vertical => n % 0x800,
        _ => n % 2048,
    }
}

impl Mapper0 {
    pub open spec fn wf(&self) -> bool {
        &&& self.prg_ram.len() == 8192
        &&& (self.prg_rom.len() == 16384 || self.prg_rom.len() >= 0x8000)
        &&& (self.chr_rom.len() > 0 || self.chr_ram.len() > 0)
    }

    /// The byte the CPU reads at `addr`.
    pub open spec fn cpu_byte(&self, addr: u16) -> u8 {
        if addr < 0x6000 {
            0
        } else if addr < 0x8000 {
            self.prg_ram@[addr - 0x6000]
        } else if self.prg_rom.len() == 16384 {
            self.prg_rom@[(addr - 0x8000) % 16384]
        } else {
            self.prg_rom@[addr - 0x8000]
        }
    }

    /// The byte the PPU reads at `addr`: CHR-ROM folded to its size, or
    /// CHR-RAM below $2000.
    pub open spec fn ppu_byte(&self, addr: u16) -> u8 {
        if self.chr_rom.len() > 0 {
            self.chr_rom@[((addr & 0x1FFF) as int) % (self.chr_rom.len() as int)]
        } else if addr < 0x2000 {
            self.chr_ram@[(addr as int) % (self.chr_ram.len() as int)]
        } else {
            0
        }
    }

    pub fn new(prg_banks: usize, chr_banks: usize, prg_rom: Vec<u8>, chr_rom: Vec<u8>, initial_mirroring: Mirroring) -> (r: Self)
        ensures
            r.prg_banks == prg_banks as u8,
            r.mirroring_mode == initial_mirroring,
            r.prg_rom@ == prg_rom@,
            r.chr_rom@ == chr_rom@,
            r.prg_ram@ == Seq::new(8192, |i: int| 0u8),
            r.chr_ram@ == (if chr_banks == 0 { Seq::new(8192, |i: int| 0u8) } else { Seq::empty() }),
            r.wf() <==> ((prg_rom.len() == 16384 || prg_rom.len() >= 0x8000) && (chr_rom.len() > 0 || chr_banks == 0)),
    {
        let chr_ram = if chr_banks == 0 { vec![0u8; 8192] } else { Vec::new() };
        let prg_ram = vec![0u8; 8192];
        assert(prg_ram@ == Seq::new(8192, |i: int| 0u8));
        assert(chr_banks == 0 ==> chr_ram@ == Seq::new(8192, |i: int| 0u8));
        Self {
            prg_banks: prg_banks as u8,
            mirroring_mode: initial_mirroring,
            prg_rom,
            chr_rom,
            prg_ram,
            chr_ram,
        }
    }

    /// The state a save keeps.
    pub fn state_variables(&self) -> (r: Mapper0StateVariables)
        ensures
            r.prg_banks == self.prg_banks,
            r.mirroring_mode == self.mirroring_mode,
            r.prg_ram@ == self.prg_ram@,
            r.chr_ram@ == self.chr_ram@,
    {
        Mapper0StateVariables {
            prg_banks: self.prg_banks,
            mirroring_mode: self.mirroring_mode,
            prg_ram: self.prg_ram.clone(),
            chr_ram: self.chr_ram.clone(),
        }
    }

    /// Restores a saved state.
    pub fn restore_state_variables(&mut self, v: Mapper0StateVariables)
        ensures
            final(self).prg_banks == v.prg_banks,
            final(self).mirroring_mode == v.mirroring_mode,
            final(self).prg_ram@ == v.prg_ram@,
            final(self).chr_ram@ == v.chr_ram@,
            final(self).prg_rom@ == old(self).prg_rom@,
            final(self).chr_rom@ == old(self).chr_rom@,
    {
        self.prg_banks = v.prg_banks;
        self.mirroring_mode = v.mirroring_mode;
        self.prg_ram = v.prg_ram;
        self.chr_ram = v.chr_ram;
    }
}

impl Mapper for Mapper0 {
    open spec fn sram(&self) -> Option<Seq<u8>> {
        None
    }

    open spec fn sram_changed(&self) -> bool {
        false
    }

    fn get_sram(&self) -> (r: Option<&[u8]>) {
        None
    }

    fn load_sram(&mut self, data: &[u8]) {
    }

    fn is_sram_dirty(&self) -> (r: bool) {
        false
    }

    fn clear_sram_dirty(&mut self) {
    }

    open spec fn inv(&self) -> bool {
        self.wf()
    }

    fn cpu_read(&self, addr: u16) -> (r: u8)
        ensures
            r == self.cpu_byte(addr),
    {
        if addr < 0x8000 {
            if addr >= 0x6000 {
                return self.prg_ram[(addr - 0x6000) as usize];
            }
            return 0;
        }
        let mut rom_addr = addr - 0x8000;
        if self.prg_rom.len() == 16384 {
            rom_addr = rom_addr % 16384;
        }
        self.prg_rom[rom_addr as usize]
    }

    /// PRG-RAM takes writes at $6000-$7FFF; PRG-ROM ignores them.
    fn cpu_write(&mut self, addr: u16, value: u8)
        ensures
            final(self).prg_ram@ == (if 0x6000 <= addr < 0x8000 {
                old(self).prg_ram@.update(addr - 0x6000, value)
            } else {
                old(self).prg_ram@
            }),
            final(self).prg_rom == old(self).prg_rom,
            final(self).chr_rom == old(self).chr_rom,
            final(self).chr_ram == old(self).chr_ram,
            final(self).mirroring_mode == old(self).mirroring_mode,
            final(self).prg_banks == old(self).prg_banks,
    {
        if addr < 0x8000 {
            if addr >= 0x6000 {
                self.prg_ram.set((addr - 0x6000) as usize, value);
            }
        }
    }

    open spec fn chr_read(&self, addr: u16, v: u8) -> bool {
        v == self.ppu_byte(addr)
    }

    fn ppu_read(&self, addr: u16) -> (r: u8)
        ensures
            self.chr_read(addr, r),
            r == self.ppu_byte(addr),
    {
        if self.chr_rom.len() > 0 {
            let masked_addr = (addr & 0x1FFF) as usize;
            return self.chr_rom[masked_addr % self.chr_rom.len()];
        } else {
            if addr < 0x2000 {
                return self.chr_ram[addr as usize % self.chr_ram.len()];
            }
        }
        0
    }

    /// CHR is read-only here.
    fn ppu_write(&mut self, addr: u16, value: u8)
        ensures
            *final(self) == *old(self),
    {
    }

    open spec fn vram_offset(&self, addr: u16) -> int {
        nrom_mirror(self.mirroring_mode, addr) as int
    }

    fn mirror_vram_address(&self, addr: u16) -> (r: usize)
        ensures
            r == self.vram_offset(addr),
    {
        proof {
            crate::bits::lemma_word_fields(addr);
        }
        let normalized = (addr & 0x0FFF) as usize;
        match self.mirroring_mode {
            Mirroring::Horizontal => {
                if normalized < 0x800 {
                    normalized % 0x400
                } else {
                    0x400 + (normalized % 0x400)
                }
            },
            Mirroring::Vertical => normalized % 0x800,
            _ => normalized % 2048,
        }
    }
}

} // verus!
