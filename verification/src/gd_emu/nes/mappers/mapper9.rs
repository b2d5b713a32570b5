use vstd::prelude::*;
use vstd::cell::invcell::InvCell;
use vstd::predicate::Predicate;
use crate::gd_emu::nes::mappers::{Mapper, Mirroring, mirror_nametable, mirror_spec, cycles_after, advance_cycles};
use crate::gd_emu::nes::mappers::mapper2::lemma_bank_offset;

verus! {

/// A CHR latch holds one of the two tile numbers that flip it.
pub struct LatchValue;

impl Predicate<u8> for LatchValue {
    open spec fn predicate(&self, v: u8) -> bool {
        v == 0xFD || v == 0xFE
    }
}

/// MMC2 (mapper 9) and MMC4 (mapper 10): each 4 KiB CHR half has two bank
/// registers, and a latch that the PPU flips by fetching tile $FD or $FE
/// picks between them. MMC2 switches 8 KiB of PRG at $8000, MMC4 16 KiB
/// (and has PRG-RAM).
pub struct Mapper9 {
    pub prg_banks: usize,
    pub prg_banks_16k: usize,
    pub prg_banks_8k: usize,
    pub chr_banks_4k: usize,
    pub prg_bank: u8,
    pub chr_rom_size: usize,
    pub chr_fd_0: u8,
    pub chr_fe_0: u8,
    pub chr_fd_1: u8,
    pub chr_fe_1: u8,
    pub latch_0: InvCell<u8, LatchValue>,
    pub latch_1: InvCell<u8, LatchValue>,
    pub mirroring_mode: Mirroring,
    pub has_four_screen: bool,
    pub prg_rom: Vec<u8>,
    pub chr_rom: Vec<u8>,
    pub prg_ram: Vec<u8>,
    pub chr_ram: Vec<u8>,
    pub current_cycle: i64,
    pub sram_dirty: bool,
    pub is_mmc4: bool,
}

/// The state of an MMC2/MMC4 board that a save keeps.
pub struct Mapper9StateVariables {
    pub prg_banks: u8,
    pub prg_banks_16k: usize,
    pub prg_banks_8k: usize,
    pub mirroring_mode: Mirroring,
    pub prg_ram: Vec<u8>,
    pub chr_ram: Vec<u8>,
    pub is_mmc4: bool,
}

impl Mapper9 {
    /// The state a save keeps (the bank count in eight bits).
    pub fn state_variables(&self) -> (r: Mapper9StateVariables)
        ensures
            r.prg_banks == self.prg_banks as u8,
            r.prg_banks_16k == self.prg_banks_16k && r.prg_banks_8k == self.prg_banks_8k,
            r.mirroring_mode == self.mirroring_mode,
            r.prg_ram@ == self.prg_ram@,
            r.chr_ram@ == self.chr_ram@,
            r.is_mmc4 == self.is_mmc4,
    {
        Mapper9StateVariables {
            prg_banks: self.prg_banks as u8,
            prg_banks_16k: self.prg_banks_16k,
            prg_banks_8k: self.prg_banks_8k,
            mirroring_mode: self.mirroring_mode,
            prg_ram: self.prg_ram.clone(),
            chr_ram: self.chr_ram.clone(),
            is_mmc4: self.is_mmc4,
        }
    }

    /// Restores a saved state.
    pub fn restore_state_variables(&mut self, v: Mapper9StateVariables)
        ensures
            final(self).prg_banks == v.prg_banks as usize,
            final(self).prg_banks_16k == v.prg_banks_16k && final(self).prg_banks_8k == v.prg_banks_8k,
            final(self).mirroring_mode == v.mirroring_mode,
            final(self).prg_ram@ == v.prg_ram@,
            final(self).chr_ram@ == v.chr_ram@,
            final(self).is_mmc4 == v.is_mmc4,
            final(self).prg_rom@ == old(self).prg_rom@ && final(self).chr_rom@ == old(self).chr_rom@,
    {
        self.prg_banks = v.prg_banks as usize;
        self.prg_banks_16k = v.prg_banks_16k;
        self.prg_banks_8k = v.prg_banks_8k;
        self.mirroring_mode = v.mirroring_mode;
        self.prg_ram = v.prg_ram;
        self.chr_ram = v.chr_ram;
        self.is_mmc4 = v.is_mmc4;
    }


    pub open spec fn wf(&self) -> bool {
        &&& self.prg_ram.len() == 8192
        &&& self.latch_0.predicate() == LatchValue
        &&& self.latch_1.predicate() == LatchValue
        &&& self.chr_banks_4k >= 1
        &&& self.chr_rom.len() >= self.chr_banks_4k * 0x1000
        &&& if self.is_mmc4 {
            self.prg_banks_16k >= 1 && self.prg_rom.len() >= self.prg_banks_16k * 0x4000
        } else {
            self.prg_banks_8k >= 3 && self.prg_rom.len() >= self.prg_banks_8k * 0x2000
        }
    }

    pub open spec fn cpu_byte(&self, addr: u16) -> u8 {
        if addr < 0x6000 {
            0
        } else if addr < 0x8000 {
            if self.is_mmc4 { self.prg_ram@[addr - 0x6000] } else { 0 }
        } else if self.is_mmc4 {
            if addr < 0xC000 {
                self.prg_rom@[((self.prg_bank as int) % (self.prg_banks_16k as int)) * 0x4000 + (addr - 0x8000)]
            } else {
                self.prg_rom@[(self.prg_banks_16k - 1) * 0x4000 + (addr - 0xC000)]
            }
        } else if addr < 0xA000 {
            self.prg_rom@[((self.prg_bank as int) % (self.prg_banks_8k as int)) * 0x2000 + (addr - 0x8000)]
        } else {
            self.prg_rom@[(self.prg_banks_8k - 3) * 0x2000 + (addr - 0xA000)]
        }
    }

    /// The CHR bank that the latch of `addr`'s 4 KiB half can pick: the
    /// half's $FD register or its $FE register.
    pub open spec fn latch_bank(&self, addr: u16, bank: u8) -> bool {
        if (addr & 0x1FFF) < 0x1000 {
            bank == self.chr_fd_0 || bank == self.chr_fe_0
        } else {
            bank == self.chr_fd_1 || bank == self.chr_fe_1
        }
    }

    /// The CHR-ROM byte at `addr` through 4 KiB bank `bank`.
    pub open spec fn chr_byte(&self, addr: u16, bank: u8) -> u8 {
        self.chr_rom@[((bank as int) % (self.chr_banks_4k as int)) * 0x1000 + ((addr & 0x0FFF) as int)]
    }

    /// CHR-RAM after `value` is written at `addr` through 4 KiB bank `bank`
    /// (unchanged where that lands past its end).
    pub open spec fn chr_ram_after(&self, addr: u16, bank: u8, value: u8) -> Seq<u8> {
        let ram_addr = (bank as int) * 0x1000 + ((addr & 0x0FFF) as int);
        if ram_addr < self.chr_ram.len() {
            self.chr_ram@.update(ram_addr, value)
        } else {
            self.chr_ram@
        }
    }

    pub fn new(
        prg_banks: usize,
        chr_banks: usize,
        prg_rom: Vec<u8>,
        chr_rom: Vec<u8>,
        initial_mirroring: Mirroring,
        four_screen_bit: bool,
        is_mmc4: bool,
    ) -> (r: Self)
        ensures
            r.prg_banks == prg_banks,
            r.prg_banks_8k == prg_rom.len() / 0x2000,
            r.prg_banks_16k == prg_rom.len() / 0x4000,
            r.chr_banks_4k == chr_rom.len() / 0x1000,
            r.chr_rom_size == chr_rom.len(),
            r.prg_bank == 0,
            r.chr_fd_0 == 0 && r.chr_fd_1 == 0 && r.chr_fe_0 == 0 && r.chr_fe_1 == 0,
            r.latch_0.predicate() == LatchValue && r.latch_1.predicate() == LatchValue,
            r.mirroring_mode == initial_mirroring,
            r.has_four_screen == four_screen_bit,
            r.is_mmc4 == is_mmc4,
            r.prg_rom@ == prg_rom@,
            r.chr_rom@ == chr_rom@,
            r.prg_ram.len() == 8192,
            r.chr_ram.len() == (if chr_banks == 0 { 8192int } else { 0 }),
            r.current_cycle == 0,
            !r.sram_dirty,
    {
        let prg_ram = vec![0u8; 8192];
        let chr_ram = if chr_banks == 0 { vec![0u8; 8192] } else { Vec::new() };
        let chr_rom_size = chr_rom.len();
        let prg_len = prg_rom.len();
        Self {
            prg_banks,
            prg_banks_8k: prg_len / 0x2000,
            prg_banks_16k: prg_len / 0x4000,
            prg_bank: 0,
            chr_banks_4k: chr_rom_size / 0x1000,
            chr_rom_size,
            mirroring_mode: initial_mirroring,
            has_four_screen: four_screen_bit,
            prg_rom,
            prg_ram,
            chr_rom,
            chr_ram,
            current_cycle: 0,
            sram_dirty: false,
            chr_fd_0: 0,
            chr_fd_1: 0,
            chr_fe_0: 0,
            chr_fe_1: 0,
            latch_0: InvCell::new(0xFD, Ghost(LatchValue)),
            latch_1: InvCell::new(0xFD, Ghost(LatchValue)),
            is_mmc4,
        }
    }

    /// Flips a latch when `addr` is one of the tile-$FD / tile-$FE fetch
    /// ranges of its half.
    pub fn update_latches(&self, addr: u16)
        requires
            self.wf(),
    {
        if addr >= 0x0FD8 && addr <= 0x0FDF {
            self.latch_0.set(0xFD);
        }
        if addr >= 0x0FE8 && addr <= 0x0FEF {
            self.latch_0.set(0xFE);
        }
        if addr >= 0x1FD8 && addr <= 0x1FDF {
            self.latch_1.set(0xFD);
        }
        if addr >= 0x1FE8 && addr <= 0x1FEF {
            self.latch_1.set(0xFE);
        }
    }
}

impl Mapper for Mapper9 {
    open spec fn sram(&self) -> Option<Seq<u8>> {
        None
    }

    open spec fn sram_changed(&self) -> bool {
        false
    }

    fn get_sram(&self) -> (r: Option<&[u8]>) {
        None
    }

    fn load_sram(&mut self, data: &[u8]) {
    }

    fn is_sram_dirty(&self) -> (r: bool) {
        false
    }

    fn clear_sram_dirty(&mut self) {
    }

    open spec fn inv(&self) -> bool {
        self.wf()
    }

    fn step_cycles(&mut self, cycles: u64)
        ensures
            final(self).current_cycle == cycles_after(old(self).current_cycle, cycles),
    {
        self.current_cycle = advance_cycles(self.current_cycle, cycles);
    }

    fn cpu_read(&self, addr: u16) -> (r: u8)
        ensures
            r == self.cpu_byte(addr),
    {
        if addr >= 0x6000 && addr <= 0x7FFF {
            if self.is_mmc4 {
                self.prg_ram[(addr - 0x6000) as usize]
            } else {
                0
            }
        } else if addr >= 0x8000 {
            if self.is_mmc4 {
                if addr < 0xC000 {
                    let bank = (self.prg_bank as usize) % self.prg_banks_16k;
                    let offset = (addr - 0x8000) as usize;
                    proof {
                        lemma_bank_offset(bank as int, self.prg_banks_16k as int, 0x4000);
                    }
                    self.prg_rom[(bank * 0x4000) + offset]
                } else {
                    proof {
                        lemma_bank_offset(self.prg_banks_16k - 1, self.prg_banks_16k as int, 0x4000);
                    }
                    let last_bank_start = (self.prg_banks_16k - 1) * 0x4000;
                    let offset = (addr - 0xC000) as usize;
                    self.prg_rom[last_bank_start + offset]
                }
            } else {
                if addr < 0xA000 {
                    let bank = (self.prg_bank as usize) % self.prg_banks_8k;
                    let offset = (addr - 0x8000) as usize;
                    proof {
                        lemma_bank_offset(bank as int, self.prg_banks_8k as int, 0x2000);
                    }
                    self.prg_rom[(bank * 0x2000) + offset]
                } else {
                    proof {
                        lemma_bank_offset(self.prg_banks_8k - 3, self.prg_banks_8k as int, 0x2000);
                        lemma_bank_offset(self.prg_banks_8k - 1, self.prg_banks_8k as int, 0x2000);
                    }
                    let last_three_start = (self.prg_banks_8k - 3) * 0x2000;
                    let offset = (addr - 0xA000) as usize;
                    self.prg_rom[last_three_start + offset]
                }
            }
        } else {
            0
        }
    }

    /// MMC4 PRG-RAM at $6000-$7FFF; PRG bank at $A000, the four CHR bank
    /// registers at $B000-$E000, mirroring at $F000.
    fn cpu_write(&mut self, addr: u16, value: u8)
        ensures
            old(self).is_mmc4 && 0x6000 <= addr < 0x8000 ==> final(self).prg_ram@ == old(self).prg_ram@.update(addr - 0x6000, value)
                && final(self).sram_dirty,
            0xA000 <= addr < 0xB000 ==> final(self).prg_bank == value & (if old(self).is_mmc4 { 0x1Fu8 } else { 0x0Fu8 }),
            0xB000 <= addr < 0xC000 ==> final(self).chr_fd_0 == value & 0x1F,
            0xC000 <= addr < 0xD000 ==> final(self).chr_fe_0 == value & 0x1F,
            0xD000 <= addr < 0xE000 ==> final(self).chr_fd_1 == value & 0x1F,
            0xE000 <= addr < 0xF000 ==> final(self).chr_fe_1 == value & 0x1F,
            0xF000 <= addr ==> final(self).mirroring_mode == (if value & 1 != 0 { Mirroring::Horizontal } else { Mirroring::Vertical }),
            final(self).prg_rom == old(self).prg_rom,
            final(self).chr_rom == old(self).chr_rom,
            final(self).is_mmc4 == old(self).is_mmc4,
    {
        if self.is_mmc4 && addr >= 0x6000 && addr <= 0x7FFF {
            self.sram_dirty = true;
            self.prg_ram.set((addr - 0x6000) as usize, value);
            return;
        }
        if addr >= 0xA000 && addr <= 0xAFFF {
            let mask: u8 = if !self.is_mmc4 { 0x0F } else { 0x1F };
            self.prg_bank = value & mask;
        } else if addr >= 0xB000 && addr <= 0xBFFF {
            self.chr_fd_0 = value & 0x1F;
        } else if addr >= 0xC000 && addr <= 0xCFFF {
            self.chr_fe_0 = value & 0x1F;
        } else if addr >= 0xD000 && addr <= 0xDFFF {
            self.chr_fd_1 = value & 0x1F;
        } else if addr >= 0xE000 && addr <= 0xEFFF {
            self.chr_fe_1 = value & 0x1F;
        } else if addr >= 0xF000 {
            self.mirroring_mode = if (value & 1) != 0 { Mirroring::Horizontal } else { Mirroring::Vertical };
        }
    }

    open spec fn chr_read(&self, addr: u16, v: u8) -> bool {
        exists|bank: u8| self.latch_bank(addr, bank) && v == self.chr_byte(addr, bank)
    }

    /// Reads through the bank its half's latch picks; fetching tile $FD or
    /// $FE then flips that latch for later reads.
    fn ppu_read(&self, p_addr: u16) -> (r: u8)
        ensures
            self.chr_read(p_addr, r),
            exists|bank: u8| self.latch_bank(p_addr, bank) && r == self.chr_byte(p_addr, bank),
    {
        let addr = p_addr & 0x1FFF;
        let bank: u8;
        proof {
            crate::bits::lemma_word_fields(p_addr);
            crate::bits::lemma_word_fields(addr);
        }
        if addr < 0x1000 {
            let use_fd = self.latch_0.get() == 0xFD;
            bank = if use_fd { self.chr_fd_0 } else { self.chr_fe_0 };
            if addr == 0x0FD8 {
                self.latch_0.set(0xFD);
            } else if addr == 0x0FE8 {
                self.latch_0.set(0xFE);
            }
        } else {
            let use_fd = self.latch_1.get() == 0xFD;
            bank = if use_fd { self.chr_fd_1 } else { self.chr_fe_1 };
            if addr >= 0x1FD8 && addr <= 0x1FDF {
                self.latch_1.set(0xFD);
            } else if addr >= 0x1FE8 && addr <= 0x1FEF {
                self.latch_1.set(0xFE);
            }
        }
        let bank_idx = (bank as usize) % self.chr_banks_4k;
        let offset = (addr & 0x0FFF) as usize;
        proof {
            lemma_bank_offset(bank_idx as int, self.chr_banks_4k as int, 0x1000);
            assert((addr & 0x0FFF) == (p_addr & 0x0FFF)) by (bit_vector)
                requires addr == p_addr & 0x1FFF;
        }
        let r = self.chr_rom[(bank_idx * 0x1000) + offset];
        assert(self.latch_bank(p_addr, bank) && r == self.chr_byte(p_addr, bank));
        r
    }

    /// CHR-RAM takes writes through the latched bank, when that lands
    /// inside it.
    fn ppu_write(&mut self, p_addr: u16, value: u8)
        ensures
            *final(self) == (Mapper9 { chr_ram: final(self).chr_ram, ..*old(self) }),
            (p_addr & 0x3FFF) >= 0x2000 || old(self).chr_banks_4k != 0 ==> final(self).chr_ram@ == old(self).chr_ram@,
            (p_addr & 0x3FFF) < 0x2000 && old(self).chr_banks_4k == 0 ==> exists|bank: u8|
                old(self).latch_bank(p_addr, bank) && final(self).chr_ram@ == old(self).chr_ram_after(p_addr, bank, value),
    {
        let addr = p_addr & 0x3FFF;
        if addr < 0x2000 && self.chr_banks_4k == 0 {
            let bank = if addr < 0x1000 {
                if self.latch_0.get() == 0xFD { self.chr_fd_0 } else { self.chr_fe_0 }
            } else {
                if self.latch_1.get() == 0xFD { self.chr_fd_1 } else { self.chr_fe_1 }
            };
            let ram_addr = (bank as usize * 0x1000) + (addr % 0x1000) as usize;
            proof {
                assert((addr % 0x1000) == (p_addr & 0x0FFF) && (addr & 0x1FFF) == (p_addr & 0x1FFF)) by (bit_vector)
                    requires addr == p_addr & 0x3FFF, addr < 0x2000;
                assert((addr < 0x1000) == ((p_addr & 0x1FFF) < 0x1000));
            }
            let ghost before = self.chr_ram@;
            if ram_addr < self.chr_ram.len() {
                self.chr_ram.set(ram_addr, value);
            }
            assert(old(self).latch_bank(p_addr, bank) && self.chr_ram@ == old(self).chr_ram_after(p_addr, bank, value));
        }
    }

    open spec fn vram_offset(&self, addr: u16) -> int {
        mirror_spec(self.mirroring_mode, self.has_four_screen, addr) as int
    }

    fn mirror_vram_address(&self, addr: u16) -> (r: usize)
        ensures
            r == self.vram_offset(addr),
    {
        mirror_nametable(self.mirroring_mode, self.has_four_screen, addr)
    }
}

} // verus!
