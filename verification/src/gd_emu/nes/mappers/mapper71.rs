use vstd::prelude::*;
use crate::gd_emu::nes::mappers::{Mapper, Mirroring, mirror_nametable, mirror_spec, cycles_after, advance_cycles};
use crate::gd_emu::nes::mappers::mapper2::lemma_bank_offset;

verus! {

/// Camerica: a switchable 16 KiB PRG bank at $8000 (register at
/// $C000-$FFFF), the last bank fixed at $C000, and single-screen mirroring
/// chosen at $9000-$9FFF.
pub struct Mapper71 {
    pub prg_banks: u8,
    pub prg_bank: u8,
    pub chr_banks: u8,
    pub mirroring_mode: Mirroring,
    pub has_four_screen: bool,
    pub has_bus_conflicts: bool,
    pub prg_rom: Vec<u8>,
    pub prg_ram: Vec<u8>,
    pub chr_rom: Vec<u8>,
    pub chr_ram: Vec<u8>,
    pub current_cycle: i64,
    pub sram_dirty: bool,
}

/// The part of a Camerica board's state that a save state keeps.
pub struct Mapper71StateVariables {
    pub prg_banks: u8,
    pub mirroring_mode: Mirroring,
    pub prg_ram: Vec<u8>,
    pub chr_ram: Vec<u8>,
}

impl Mapper71 {
    pub open spec fn wf(&self) -> bool {
        &&& self.prg_banks >= 1
        &&& self.prg_rom.len() >= self.prg_banks * 0x4000
        &&& self.prg_ram.len() == 8192
        &&& (if self.chr_banks == 0 { self.chr_ram.len() == 8192 } else { self.chr_rom.len() >= 0x2000 })
    }

    pub open spec fn rom_index(&self, addr: u16) -> int {
        if addr < 0xC000 {
            self.prg_bank * 0x4000 + (addr - 0x8000)
        } else {
            (self.prg_banks - 1) * 0x4000 + (addr - 0xC000)
        }
    }

    pub open spec fn cpu_byte(&self, addr: u16) -> u8 {
        if 0x6000 <= addr < 0x8000 {
            self.prg_ram@[addr - 0x6000]
        } else if 0x8000 <= addr < 0xC000 {
            self.prg_rom@[(self.prg_bank % self.prg_banks) * 0x4000 + (addr - 0x8000)]
        } else if addr >= 0xC000 {
            self.prg_rom@[(self.prg_banks - 1) * 0x4000 + (addr - 0xC000)]
        } else {
            0
        }
    }

    pub fn new(
        prg_banks: usize,
        chr_banks: usize,
        prg_rom: Vec<u8>,
        chr_rom: Vec<u8>,
        initial_mirroring: Mirroring,
        four_screen_bit: bool,
        submapper: u8,
    ) -> (r: Self)
        ensures
            r.prg_banks == prg_banks as u8,
            r.prg_bank == 0,
            r.chr_banks == chr_banks as u8,
            r.mirroring_mode == initial_mirroring,
            r.has_four_screen == four_screen_bit,
            r.has_bus_conflicts == (submapper == 0 || submapper == 2),
            r.prg_rom@ == prg_rom@,
            r.chr_rom@ == chr_rom@,
            r.prg_ram.len() == 8192,
            r.chr_ram.len() == (if chr_banks == 0 { 8192int } else { 0 }),
            r.current_cycle == 0,
            !r.sram_dirty,
    {
        let prg_ram = vec![0u8; 8192];
        let chr_ram = if chr_banks == 0 { vec![0u8; 8192] } else { Vec::new() };
        let has_bus_conflicts = submapper == 0 || submapper == 2;
        Self {
            prg_banks: prg_banks as u8,
            prg_bank: 0,
            chr_banks: chr_banks as u8,
            mirroring_mode: initial_mirroring,
            has_four_screen: four_screen_bit,
            has_bus_conflicts,
            prg_rom,
            prg_ram,
            chr_rom,
            chr_ram,
            current_cycle: 0,
            sram_dirty: false,
        }
    }

    /// The PRG-ROM offset behind CPU address `addr` for the bank in the
    /// register (not reduced modulo the bank count).
    fn get_rom_index(&self, addr: u16) -> (r: usize)
        requires
            self.prg_banks >= 1,
            addr >= 0x8000,
        ensures
            r == self.rom_index(addr),
    {
        let offset = (addr - 0x8000) as usize;
        if addr < 0xC000 {
            (self.prg_bank as usize * 0x4000) + offset
        } else {
            let local_offset = offset - 0x4000;
            ((self.prg_banks - 1) as usize * 0x4000) + local_offset
        }
    }

    pub fn state_variables(&self) -> (r: Mapper71StateVariables)
        ensures
            r.prg_banks == self.prg_banks,
            r.mirroring_mode == self.mirroring_mode,
            r.prg_ram@ == self.prg_ram@,
            r.chr_ram@ == self.chr_ram@,
    {
        Mapper71StateVariables {
            prg_banks: self.prg_banks,
            mirroring_mode: self.mirroring_mode,
            prg_ram: self.prg_ram.clone(),
            chr_ram: self.chr_ram.clone(),
        }
    }

    pub fn restore_state_variables(&mut self, v: Mapper71StateVariables)
        ensures
            *final(self) == (Mapper71 {
                prg_banks: v.prg_banks,
                mirroring_mode: v.mirroring_mode,
                prg_ram: v.prg_ram,
                chr_ram: v.chr_ram,
                ..*old(self)
            }),
    {
        self.prg_banks = v.prg_banks;
        self.mirroring_mode = v.mirroring_mode;
        self.prg_ram = v.prg_ram;
        self.chr_ram = v.chr_ram;
    }
}

impl Mapper for Mapper71 {
    open spec fn sram(&self) -> Option<Seq<u8>> {
        None
    }

    open spec fn sram_changed(&self) -> bool {
        false
    }

    fn get_sram(&self) -> (r: Option<&[u8]>) {
        None
    }

    fn load_sram(&mut self, data: &[u8]) {
    }

    fn is_sram_dirty(&self) -> (r: bool) {
        false
    }

    fn clear_sram_dirty(&mut self) {
    }

    open spec fn inv(&self) -> bool {
        self.wf()
    }

    fn step_cycles(&mut self, cycles: u64)
        ensures
            *final(self) == (Mapper71 { current_cycle: cycles_after(old(self).current_cycle, cycles), ..*old(self) }),
    {
        self.current_cycle = advance_cycles(self.current_cycle, cycles);
    }

    fn cpu_read(&self, addr: u16) -> (r: u8)
        ensures
            r == self.cpu_byte(addr),
    {
        if addr < 0x2000 {
            return 0;
        } else if addr >= 0x6000 && addr <= 0x7FFF {
            return self.prg_ram[(addr - 0x6000) as usize];
        } else if addr >= 0x8000 && addr <= 0xBFFF {
            let bank = (self.prg_bank % self.prg_banks) as usize;
            let offset = (addr - 0x8000) as usize;
            proof {
                lemma_bank_offset(bank as int, self.prg_banks as int, 0x4000);
            }
            return self.prg_rom[(bank * 0x4000) + offset];
        } else if addr >= 0xC000 {
            let bank = (self.prg_banks - 1) as usize;
            let offset = (addr - 0xC000) as usize;
            proof {
                lemma_bank_offset(bank as int, self.prg_banks as int, 0x4000);
            }
            return self.prg_rom[(bank * 0x4000) + offset];
        }
        0
    }

    /// $9000-$9FFF: bit 4 picks the single screen; $C000-$FFFF: PRG bank.
    fn cpu_write(&mut self, addr: u16, value: u8)
        ensures
            0x9000 <= addr <= 0x9FFF ==> *final(self) == (Mapper71 {
                mirroring_mode: if (value >> 4u8) & 1 == 0 { Mirroring::SingleLower } else { Mirroring::SingleUpper },
                ..*old(self)
            }),
            addr >= 0xC000 ==> *final(self) == (Mapper71 { prg_bank: value % old(self).prg_banks, ..*old(self) }),
            (addr < 0x9000 || 0x9FFF < addr < 0xC000) ==> *final(self) == *old(self),
    {
        if addr >= 0x9000 && addr <= 0x9FFF {
            let page = (value >> 4u8) & 1;
            self.mirroring_mode = if page == 0 { Mirroring::SingleLower } else { Mirroring::SingleUpper };
        } else if addr >= 0xC000 {
            self.prg_bank = value % self.prg_banks;
        }
    }

    open spec fn chr_read(&self, addr: u16, v: u8) -> bool {
        v == (if addr >= 0x2000 {
            0
        } else if self.chr_banks == 0 {
            self.chr_ram@[addr as int]
        } else {
            self.chr_rom@[addr as int]
        })
    }

    fn ppu_read(&self, addr: u16) -> (r: u8)
        ensures
            self.chr_read(addr, r),
            r == (if addr >= 0x2000 {
                0
            } else if self.chr_banks == 0 {
                self.chr_ram@[addr as int]
            } else {
                self.chr_rom@[addr as int]
            }),
    {
        if addr < 0x2000 {
            if self.chr_banks == 0 {
                return self.chr_ram[addr as usize];
            } else {
                return self.chr_rom[addr as usize];
            }
        }
        0
    }

    fn ppu_write(&mut self, p_addr: u16, value: u8)
        ensures
            final(self).chr_ram@ == (if (p_addr & 0x3FFF) < 0x2000 && old(self).chr_banks == 0 {
                old(self).chr_ram@.update((p_addr & 0x3FFF) as int, value)
            } else {
                old(self).chr_ram@
            }),
            *final(self) == (Mapper71 { chr_ram: final(self).chr_ram, ..*old(self) }),
    {
        let addr = p_addr & 0x3FFF;
        if addr < 0x2000 {
            if self.chr_banks == 0 {
                self.chr_ram.set(addr as usize, value);
            }
        }
    }

    open spec fn vram_offset(&self, addr: u16) -> int {
        mirror_spec(self.mirroring_mode, self.has_four_screen, addr) as int
    }

    fn mirror_vram_address(&self, addr: u16) -> (r: usize)
        ensures
            r == self.vram_offset(addr),
    {
        mirror_nametable(self.mirroring_mode, self.has_four_screen, addr)
    }
}

} // verus!
