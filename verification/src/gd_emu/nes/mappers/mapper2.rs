use vstd::prelude::*;
use crate::gd_emu::nes::mappers::{Mapper, Mirroring, mirror_nametable, mirror_spec, cycles_after, advance_cycles};

verus! {

/// UxROM: a switchable 16 KiB PRG bank at $8000 and the last bank fixed at
/// $C000; the bank register takes any write to $8000-$FFFF (ANDed with the
/// ROM byte there on boards with bus conflicts).
pub struct Mapper2 {
    pub prg_banks: usize,
    pub prg_bank: u8,
    pub chr_banks: usize,
    pub mirroring_mode: Mirroring,
    pub has_four_screen: bool,
    pub has_bus_conflicts: bool,
    pub prg_rom: Vec<u8>,
    pub prg_ram: Vec<u8>,
    pub chr_rom: Vec<u8>,
    pub chr_ram: Vec<u8>,
    pub current_cycle: i64,
    pub sram_dirty: bool,
}

impl Mapper2 {
    pub open spec fn wf(&self) -> bool {
        &&& self.prg_banks >= 1
        &&& self.prg_banks as u8 != 0
        &&& self.prg_rom.len() >= self.prg_banks * 0x4000
        &&& self.prg_bank < self.prg_banks
        &&& self.prg_ram.len() == 8192
        &&& (if self.chr_banks == 0 { self.chr_ram.len() == 8192 } else { self.chr_rom.len() >= 0x2000 })
    }

    /// The PRG-ROM offset behind CPU address `addr` (at or above $8000).
    /// The PRG bank register after `value` is written at `addr`: from
    /// $8000 on, the value (with bus conflicts, ANDed with the ROM byte under
    /// it) modulo the bank count.
    pub open spec fn bank_after_write(&self, addr: u16, value: u8) -> u8 {
        if addr < 0x8000 {
            self.prg_bank
        } else if self.has_bus_conflicts {
            ((value & self.prg_rom@[self.rom_index(addr)]) % (self.prg_banks as u8)) as u8
        } else {
            (value % (self.prg_banks as u8)) as u8
        }
    }

    pub open spec fn rom_index(&self, addr: u16) -> int {
        if addr < 0xC000 {
            self.prg_bank * 0x4000 + (addr - 0x8000)
        } else {
            (self.prg_banks - 1) * 0x4000 + (addr - 0xC000)
        }
    }

    pub open spec fn cpu_byte(&self, addr: u16) -> u8 {
        if 0x6000 <= addr < 0x8000 {
            self.prg_ram@[addr - 0x6000]
        } else if addr >= 0x8000 {
            self.prg_rom@[self.rom_index(addr)]
        } else {
            0
        }
    }

    pub fn new(
        prg_banks: usize,
        chr_banks: usize,
        prg_rom: Vec<u8>,
        chr_rom: Vec<u8>,
        initial_mirroring: Mirroring,
        four_screen_bit: bool,
        submapper: u8,
    ) -> (r: Self)
        ensures
            r.prg_banks == prg_banks,
            r.prg_bank == 0,
            r.chr_banks == chr_banks,
            r.mirroring_mode == initial_mirroring,
            r.has_four_screen == four_screen_bit,
            r.has_bus_conflicts == (submapper == 0 || submapper == 2),
            r.prg_rom@ == prg_rom@,
            r.chr_rom@ == chr_rom@,
            r.prg_ram.len() == 8192,
            r.chr_ram.len() == (if chr_banks == 0 { 8192int } else { 0 }),
            r.current_cycle == 0,
            !r.sram_dirty,
            r.wf() <==> (prg_banks >= 1 && prg_banks as u8 != 0 && prg_rom.len() >= prg_banks * 0x4000
                && (chr_banks == 0 || chr_rom.len() >= 0x2000)),
    {
        let prg_ram = vec![0u8; 8192];
        let chr_ram = if chr_banks == 0 { vec![0u8; 8192] } else { Vec::new() };
        let has_bus_conflicts = submapper == 0 || submapper == 2;
        Self {
            prg_banks,
            prg_bank: 0,
            chr_banks,
            mirroring_mode: initial_mirroring,
            has_four_screen: four_screen_bit,
            has_bus_conflicts,
            prg_rom,
            prg_ram,
            chr_rom,
            chr_ram,
            current_cycle: 0,
            sram_dirty: false,
        }
    }

    fn get_rom_index(&self, addr: u16) -> (r: usize)
        requires
            self.wf(),
            addr >= 0x8000,
        ensures
            r == self.rom_index(addr),
            r < self.prg_rom.len(),
    {
        let offset = (addr - 0x8000) as usize;
        proof {
            lemma_bank_offset(self.prg_bank as int, self.prg_banks as int, 0x4000);
            lemma_bank_offset(self.prg_banks - 1, self.prg_banks as int, 0x4000);
        }
        if addr < 0xC000 {
            (self.prg_bank as usize * 0x4000) + offset
        } else {
            let local_offset = offset - 0x4000;
            ((self.prg_banks - 1) * 0x4000) + local_offset
        }
    }
}

/// A bank below the bank count starts a whole bank inside the image.
pub proof fn lemma_bank_offset(bank: int, count: int, size: int)
    by (nonlinear_arith)
    requires
        0 <= bank < count,
        size > 0,
    ensures
        bank * size + size <= count * size,
        0 <= bank * size,
{
}

impl Mapper for Mapper2 {
    open spec fn sram(&self) -> Option<Seq<u8>> {
        None
    }

    open spec fn sram_changed(&self) -> bool {
        false
    }

    fn get_sram(&self) -> (r: Option<&[u8]>) {
        None
    }

    fn load_sram(&mut self, data: &[u8]) {
    }

    fn is_sram_dirty(&self) -> (r: bool) {
        false
    }

    fn clear_sram_dirty(&mut self) {
    }

    open spec fn inv(&self) -> bool {
        self.wf()
    }

    fn step_cycles(&mut self, cycles: u64)
        ensures
            *final(self) == (Mapper2 { current_cycle: cycles_after(old(self).current_cycle, cycles), ..*old(self) }),
    {
        self.current_cycle = advance_cycles(self.current_cycle, cycles);
    }

    fn cpu_read(&self, addr: u16) -> (r: u8)
        ensures
            r == self.cpu_byte(addr),
    {
        if addr < 0x2000 {
            return 0;
        } else if addr >= 0x6000 && addr <= 0x7FFF {
            return self.prg_ram[(addr - 0x6000) as usize];
        } else if addr >= 0x8000 {
            return self.prg_rom[self.get_rom_index(addr)];
        }
        0
    }

    /// Bank select: the value (ANDed with the ROM byte under a bus
    /// conflict) modulo the bank count.
    fn cpu_write(&mut self, addr: u16, value: u8)
        ensures
            final(self).prg_bank == old(self).bank_after_write(addr, value),
            *final(self) == (Mapper2 { prg_bank: final(self).prg_bank, ..*old(self) }),
    {
        if addr >= 0x8000 {
            let num_banks = self.prg_banks;
            if self.has_bus_conflicts {
                let rom_value = self.prg_rom[self.get_rom_index(addr)];
                let effective_value = value & rom_value;
                self.prg_bank = effective_value % num_banks as u8;
            } else {
                self.prg_bank = value % (num_banks as u8);
            }
        }
    }

    open spec fn chr_read(&self, addr: u16, v: u8) -> bool {
        v == (if addr >= 0x2000 {
            0
        } else if self.chr_banks == 0 {
            self.chr_ram@[addr as int]
        } else {
            self.chr_rom@[addr as int]
        })
    }

    fn ppu_read(&self, addr: u16) -> (r: u8)
        ensures
            self.chr_read(addr, r),
            r == (if addr >= 0x2000 {
                0
            } else if self.chr_banks == 0 {
                self.chr_ram@[addr as int]
            } else {
                self.chr_rom@[addr as int]
            }),
    {
        if addr < 0x2000 {
            if self.chr_banks == 0 {
                return self.chr_ram[addr as usize];
            } else {
                return self.chr_rom[addr as usize];
            }
        }
        0
    }

    /// CHR-RAM takes writes below $2000; CHR-ROM ignores them.
    fn ppu_write(&mut self, p_addr: u16, value: u8)
        ensures
            final(self).chr_ram@ == (if (p_addr & 0x3FFF) < 0x2000 && old(self).chr_banks == 0 {
                old(self).chr_ram@.update((p_addr & 0x3FFF) as int, value)
            } else {
                old(self).chr_ram@
            }),
            *final(self) == (Mapper2 { chr_ram: final(self).chr_ram, ..*old(self) }),
    {
        let addr = p_addr & 0x3FFF;
        if addr < 0x2000 {
            if self.chr_banks == 0 {
                self.chr_ram.set(addr as usize, value);
            }
        }
    }

    open spec fn vram_offset(&self, addr: u16) -> int {
        mirror_spec(self.mirroring_mode, self.has_four_screen, addr) as int
    }

    fn mirror_vram_address(&self, addr: u16) -> (r: usize)
        ensures
            r == self.vram_offset(addr),
    {
        mirror_nametable(self.mirroring_mode, self.has_four_screen, addr)
    }
}

/// UxROM bank switching (a board without bus conflicts and fewer than 256
/// banks): after `v` is written at $8000 or above, a read at $8000 + `k`
/// gives byte `k` of 16 KiB bank (`v` mod the bank count), and a read at
/// $C000 + `k` byte `k` of the last bank whatever was written.
pub proof fn lemma_uxrom_bank_select(m: Mapper2, a: u16, v: u8, k: u16)
    requires
        m.wf(),
        !m.has_bus_conflicts,
        m.prg_banks < 256,
        a >= 0x8000,
        k < 0x4000,
    ensures
        ({
            let m2 = Mapper2 { prg_bank: m.bank_after_write(a, v), ..m };
            &&& m2.cpu_byte((0x8000 + k) as u16) == m.prg_rom@[(v as int % m.prg_banks as int) * 0x4000 + k]
            &&& m2.cpu_byte((0xC000 + k) as u16) == m.prg_rom@[(m.prg_banks - 1) * 0x4000 + k]
        }),
{
}

} // verus!
