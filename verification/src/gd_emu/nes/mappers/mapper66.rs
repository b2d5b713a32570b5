use vstd::prelude::*;
use crate::gd_emu::nes::mappers::{Mapper, Mirroring};
use crate::gd_emu::nes::mappers::mapper0::nrom_mirror;

verus! {

/// GNROM: one register at $8000-$FFFF picks a 32 KiB PRG bank (bits 4-5)
/// and an 8 KiB CHR bank (bits 0-1).
pub struct Mapper66 {
    pub prg_banks: u8,
    pub chr_banks: u8,
    pub mirroring_mode: Mirroring,
    pub prg_rom: Vec<u8>,
    pub chr_rom: Vec<u8>,
    pub prg_ram: Vec<u8>,
    pub chr_ram: Vec<u8>,
    pub prg_bank: u8,
    pub chr_bank: u8,
}

/// A bank count of zero counts as one.
pub open spec fn at_least_one(n: u8) -> int {
    if n == 0 { 1 } else { n as int }
}

/// The state of a GxROM board that a save keeps.
pub struct Mapper66StateVariables {
    pub prg_banks: u8,
    pub chr_banks: u8,
    pub mirroring_mode: Mirroring,
    pub prg_ram: Vec<u8>,
    pub chr_ram: Vec<u8>,
    pub prg_bank: u8,
    pub chr_bank: u8,
}

impl Mapper66 {
    /// The state a save keeps.
    pub fn state_variables(&self) -> (r: Mapper66StateVariables)
        ensures
            r.prg_banks == self.prg_banks && r.chr_banks == self.chr_banks,
            r.mirroring_mode == self.mirroring_mode,
            r.prg_ram@ == self.prg_ram@,
            r.chr_ram@ == self.chr_ram@,
            r.prg_bank == self.prg_bank && r.chr_bank == self.chr_bank,
    {
        Mapper66StateVariables {
            prg_banks: self.prg_banks,
            chr_banks: self.chr_banks,
            mirroring_mode: self.mirroring_mode,
            prg_ram: self.prg_ram.clone(),
            chr_ram: self.chr_ram.clone(),
            prg_bank: self.prg_bank,
            chr_bank: self.chr_bank,
        }
    }

    /// Restores a saved state.
    pub fn restore_state_variables(&mut self, v: Mapper66StateVariables)
        ensures
            *final(self) == (Mapper66 {
                prg_banks: v.prg_banks,
                chr_banks: v.chr_banks,
                mirroring_mode: v.mirroring_mode,
                prg_ram: final(self).prg_ram,
                chr_ram: final(self).chr_ram,
                prg_bank: v.prg_bank,
                chr_bank: v.chr_bank,
                ..*old(self)
            }),
            final(self).prg_ram@ == v.prg_ram@,
            final(self).chr_ram@ == v.chr_ram@,
    {
        self.prg_banks = v.prg_banks;
        self.chr_banks = v.chr_banks;
        self.mirroring_mode = v.mirroring_mode;
        self.prg_ram = v.prg_ram;
        self.chr_ram = v.chr_ram;
        self.chr_bank = v.chr_bank;
        self.prg_bank = v.prg_bank;
    }


    /// The board after `value` is written to its bank register: bits 4-5
    /// pick the PRG bank, bits 0-1 the CHR bank.
    pub open spec fn bank_register_written(self, value: u8) -> Self {
        Mapper66 { chr_bank: value & 0x03, prg_bank: (value >> 4u8) & 0x03, ..self }
    }

    pub open spec fn wf(&self) -> bool {
        &&& self.prg_ram.len() == 8192
        &&& (self.chr_banks == 0 ==> self.chr_ram.len() == 8192)
    }

    /// PRG bytes past the end of the image read as 0.
    pub open spec fn cpu_byte(&self, addr: u16) -> u8 {
        if addr < 0x6000 {
            0
        } else if addr < 0x8000 {
            self.prg_ram@[addr - 0x6000]
        } else {
            let mapped = ((self.prg_bank as int) % at_least_one(self.prg_banks)) * 0x8000 + (addr & 0x7FFF);
            if mapped < self.prg_rom.len() { self.prg_rom@[mapped] } else { 0 }
        }
    }

    pub open spec fn ppu_byte(&self, p_addr: u16) -> u8 {
        let addr = p_addr & 0x3FFF;
        if addr >= 0x2000 {
            0
        } else if self.chr_banks == 0 {
            self.chr_ram@[addr as int]
        } else {
            let mapped = ((self.chr_bank as int) % at_least_one(self.chr_banks)) * 0x2000 + addr;
            if mapped < self.chr_rom.len() { self.chr_rom@[mapped] } else { 0 }
        }
    }

    pub fn new(prg_banks: usize, chr_banks: usize, prg_rom: Vec<u8>, chr_rom: Vec<u8>, initial_mirroring: Mirroring) -> (r: Self)
        ensures
            r.prg_banks == (prg_rom.len() / 0x8000) as u8,
            r.chr_banks == chr_banks as u8,
            r.mirroring_mode == initial_mirroring,
            r.prg_rom@ == prg_rom@,
            r.chr_rom@ == chr_rom@,
            r.prg_ram.len() == 8192,
            r.chr_ram.len() == (if chr_banks == 0 { 8192int } else { 0 }),
            r.prg_bank == 0,
            r.chr_bank == 0,
            r.wf() <==> (chr_banks as u8 == 0 ==> chr_banks == 0),
    {
        let chr_ram = if chr_banks == 0 { vec![0u8; 8192] } else { Vec::new() };
        let prg_bank_count = (prg_rom.len() / 0x8000) as u8;
        let chr_bank_count = chr_banks as u8;
        Self {
            prg_banks: prg_bank_count,
            chr_banks: chr_bank_count,
            mirroring_mode: initial_mirroring,
            prg_rom,
            chr_rom,
            prg_ram: vec![0u8; 8192],
            chr_ram,
            prg_bank: 0,
            chr_bank: 0,
        }
    }
}

impl Mapper for Mapper66 {
    open spec fn sram(&self) -> Option<Seq<u8>> {
        None
    }

    open spec fn sram_changed(&self) -> bool {
        false
    }

    fn get_sram(&self) -> (r: Option<&[u8]>) {
        None
    }

    fn load_sram(&mut self, data: &[u8]) {
    }

    fn is_sram_dirty(&self) -> (r: bool) {
        false
    }

    fn clear_sram_dirty(&mut self) {
    }

    open spec fn inv(&self) -> bool {
        self.wf()
    }

    fn cpu_read(&self, addr: u16) -> (r: u8)
        ensures
            r == self.cpu_byte(addr),
    {
        if addr < 0x8000 {
            if addr >= 0x6000 {
                return self.prg_ram[(addr - 0x6000) as usize];
            }
            return 0;
        }
        let bank_count: usize = if self.prg_banks == 0 { 1 } else { self.prg_banks as usize };
        let bank = (self.prg_bank as usize) % bank_count;
        let offset = (addr & 0x7FFF) as usize;
        proof {
            crate::bits::lemma_word_fields(addr);
        }
        let mapped_addr = (bank * 0x8000) + offset;
        if mapped_addr < self.prg_rom.len() {
            self.prg_rom[mapped_addr]
        } else {
            0
        }
    }

    /// $8000-$FFFF: bank select; $6000-$7FFF: PRG-RAM.
    fn cpu_write(&mut self, addr: u16, value: u8)
        ensures
            addr >= 0x8000 ==> *final(self) == old(self).bank_register_written(value),
            0x6000 <= addr < 0x8000 ==> final(self).prg_ram@ == old(self).prg_ram@.update(addr - 0x6000, value)
                && *final(self) == (Mapper66 { prg_ram: final(self).prg_ram, ..*old(self) }),
            addr < 0x6000 ==> *final(self) == *old(self),
    {
        if addr >= 0x8000 {
            self.chr_bank = value & 0x03;
            self.prg_bank = (value >> 4u8) & 0x03;
        } else if addr >= 0x6000 {
            self.prg_ram.set((addr - 0x6000) as usize, value);
        }
    }

    open spec fn chr_read(&self, addr: u16, v: u8) -> bool {
        v == self.ppu_byte(addr)
    }

    fn ppu_read(&self, p_addr: u16) -> (r: u8)
        ensures
            self.chr_read(p_addr, r),
            r == self.ppu_byte(p_addr),
    {
        let addr = p_addr & 0x3FFF;
        if addr < 0x2000 {
            if self.chr_banks == 0 {
                return self.chr_ram[addr as usize];
            } else {
                let bank_count: usize = self.chr_banks as usize;
                let bank = (self.chr_bank as usize) % bank_count;
                let mapped = (bank * 0x2000) + addr as usize;
                if mapped < self.chr_rom.len() {
                    return self.chr_rom[mapped];
                }
            }
        }
        0
    }

    /// CHR-RAM takes writes; CHR-ROM is read-only.
    fn ppu_write(&mut self, addr: u16, value: u8)
        ensures
            final(self).chr_ram@ == (if (addr & 0x3FFF) < 0x2000 && old(self).chr_banks == 0 {
                old(self).chr_ram@.update((addr & 0x3FFF) as int, value)
            } else {
                old(self).chr_ram@
            }),
            *final(self) == (Mapper66 { chr_ram: final(self).chr_ram, ..*old(self) }),
    {
        let addr = addr & 0x3FFF;
        if addr < 0x2000 {
            if self.chr_banks == 0 {
                self.chr_ram.set(addr as usize, value);
            }
        }
    }

    open spec fn vram_offset(&self, addr: u16) -> int {
        nrom_mirror(self.mirroring_mode, addr) as int
    }

    fn mirror_vram_address(&self, addr: u16) -> (r: usize)
        ensures
            r == self.vram_offset(addr),
    {
        proof {
            crate::bits::lemma_word_fields(addr);
        }
        let normalized = (addr & 0x0FFF) as usize;
        match self.mirroring_mode {
            Mirroring::Horizontal => {
                if normalized < 0x800 {
                    normalized % 0x400
                } else {
                    0x400 + (normalized % 0x400)
                }
            },
            Mirroring::Vertical => normalized % 0x800,
            _ => normalized % 2048,
        }
    }
}

/// Bank switching: after `v` is written to the register, a CPU read at
/// $8000 + `k` gives byte `k` of 32 KiB PRG bank ((`v` / 16) mod 4), taken
/// modulo the bank count (a count of 0 counting as 1), or 0 past the end of
/// the image; a PPU read at `k` below $2000 gives byte `k` of 8 KiB CHR bank
/// (`v` mod 4) in the same way.
pub proof fn lemma_gnrom_bank_select(m: Mapper66, v: u8, k: u16)
    requires
        k < 0x8000,
    ensures
        ({
            let banks: int = if m.prg_banks == 0 { 1 } else { m.prg_banks as int };
            let idx = ((v as int / 16) % 4) % banks * 0x8000 + k;
            m.bank_register_written(v).cpu_byte((0x8000 + k) as u16) == (if idx < m.prg_rom.len() { m.prg_rom@[idx] } else { 0 })
        }),
        (k < 0x2000 && m.chr_banks != 0) ==> ({
            let idx = ((v as int % 4) % (m.chr_banks as int)) * 0x2000 + k;
            m.bank_register_written(v).ppu_byte(k) == (if idx < m.chr_rom.len() { m.chr_rom@[idx] } else { 0 })
        }),
{
    assert((v >> 4u8) & 0x03 == (v / 16) % 4 && v & 0x03 == v % 4 && (((0x8000 + k) as u16) & 0x7FFF) == k
        && ((0x8000 + k) as u16) >= 0x8000 && (k < 0x2000 ==> (k & 0x3FFF) == k)) by (bit_vector)
        requires k < 0x8000;
}

} // verus!
