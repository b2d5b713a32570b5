use vstd::prelude::*;
use crate::gd_emu::nes::mappers::{Mapper, Mirroring, cycles_after, advance_cycles};

verus! {

/// RAMBO-1: MMC3-style bank select / bank data registers at $8000/$8001
/// (four 8 KiB PRG windows, eight 1 KiB CHR windows), mirroring at $A000,
/// and a scanline IRQ counter with latch ($C000), reload ($C001), disable
/// ($E000) and enable ($E001).
pub struct Mapper64 {
    pub prg_banks: usize,
    pub chr_banks: usize,
    pub bank_registers: [usize; 8],
    pub bank_select: u8,
    pub prg_mode: u8,
    pub chr_mode: u8,
    pub prg_offsets: [usize; 4],
    pub chr_offsets: [usize; 8],
    pub last_a12: u8,
    pub a12_low_counter: u32,
    pub irq_counter: u8,
    pub irq_latch: u8,
    pub irq_reload_flag: bool,
    pub irq_enabled: bool,
    pub irq_active: bool,
    pub last_clock_cycle: i64,
    pub mirroring_mode: Mirroring,
    pub has_four_screen: bool,
    pub prg_rom: Vec<u8>,
    pub prg_ram: Vec<u8>,
    pub chr_rom: Vec<u8>,
    pub chr_ram: Vec<u8>,
    pub current_cycle: i64,
    pub sram_dirty: bool,
}

/// The nametable offset: four-screen keeps all 4 KiB, vertical folds on
/// bit 11, anything else on bit 10 (horizontal).
pub open spec fn rambo_mirror(mode: Mirroring, four_screen: bool, addr: u16) -> usize {
    let v = (addr & 0x0FFF) as usize;
    if four_screen {
        v
    } else if mode == Mirroring::Vertical {
        v & 0x07FF
    } else {
        ((v >> 1usize) & 0x0400) | (v & 0x03FF)
    }
}

/// The state of a RAMBO-1 board that a save keeps.
pub struct Mapper64StateVariables {
    pub bank_registers: [usize; 8],
    pub bank_select: u8,
    pub prg_mode: u8,
    pub chr_mode: u8,
    pub last_a12: u8,
    pub a12_low_counter: u32,
    pub irq_counter: u8,
    pub irq_latch: u8,
    pub irq_reload_flag: bool,
    pub irq_enabled: bool,
    pub irq_active: bool,
    pub last_clock_cycle: i64,
    pub mirroring_mode: Mirroring,
    pub current_cycle: i64,
    pub prg_ram: Vec<u8>,
}

impl Mapper64 {
    /// The state a save keeps.
    pub fn state_variables(&self) -> (r: Mapper64StateVariables)
        ensures
            r.bank_registers == self.bank_registers && r.bank_select == self.bank_select,
            r.prg_mode == self.prg_mode && r.chr_mode == self.chr_mode,
            r.last_a12 == self.last_a12 && r.a12_low_counter == self.a12_low_counter,
            r.irq_counter == self.irq_counter && r.irq_latch == self.irq_latch,
            r.irq_reload_flag == self.irq_reload_flag && r.irq_enabled == self.irq_enabled,
            r.irq_active == self.irq_active && r.last_clock_cycle == self.last_clock_cycle,
            r.mirroring_mode == self.mirroring_mode && r.current_cycle == self.current_cycle,
            r.prg_ram@ == self.prg_ram@,
    {
        Mapper64StateVariables {
            bank_registers: self.bank_registers,
            bank_select: self.bank_select,
            prg_mode: self.prg_mode,
            chr_mode: self.chr_mode,
            last_a12: self.last_a12,
            a12_low_counter: self.a12_low_counter,
            irq_counter: self.irq_counter,
            irq_latch: self.irq_latch,
            irq_reload_flag: self.irq_reload_flag,
            irq_enabled: self.irq_enabled,
            irq_active: self.irq_active,
            last_clock_cycle: self.last_clock_cycle,
            mirroring_mode: self.mirroring_mode,
            current_cycle: self.current_cycle,
            prg_ram: self.prg_ram.clone(),
        }
    }

    /// Restores a saved state: the registers, the IRQ counter and the PRG
    /// RAM (when it has the board's size), then the bank windows from the
    /// registers.
    pub fn restore_state_variables(&mut self, v: Mapper64StateVariables)
        requires
            old(self).wf(),
            v.bank_select < 8,
            forall|i: int| 0 <= i < 8 ==> #[trigger] v.bank_registers[i] <= 255,
        ensures
            final(self).wf(),
            final(self).bank_registers == v.bank_registers && final(self).bank_select == v.bank_select,
            final(self).prg_mode == v.prg_mode && final(self).chr_mode == v.chr_mode,
            final(self).last_a12 == v.last_a12 && final(self).a12_low_counter == v.a12_low_counter,
            final(self).irq_counter == v.irq_counter && final(self).irq_latch == v.irq_latch,
            final(self).irq_reload_flag == v.irq_reload_flag && final(self).irq_enabled == v.irq_enabled,
            final(self).irq_active == v.irq_active && final(self).last_clock_cycle == v.last_clock_cycle,
            final(self).mirroring_mode == v.mirroring_mode && final(self).current_cycle == v.current_cycle,
            final(self).prg_ram@ == (if v.prg_ram@.len() == old(self).prg_ram@.len() { v.prg_ram@ } else { old(self).prg_ram@ }),
            final(self).prg_rom@ == old(self).prg_rom@ && final(self).chr_rom@ == old(self).chr_rom@,
    {
        self.bank_registers = v.bank_registers;
        self.bank_select = v.bank_select;
        self.prg_mode = v.prg_mode;
        self.chr_mode = v.chr_mode;
        self.last_a12 = v.last_a12;
        self.a12_low_counter = v.a12_low_counter;
        self.irq_counter = v.irq_counter;
        self.irq_latch = v.irq_latch;
        self.irq_reload_flag = v.irq_reload_flag;
        self.irq_enabled = v.irq_enabled;
        self.irq_active = v.irq_active;
        self.last_clock_cycle = v.last_clock_cycle;
        self.mirroring_mode = v.mirroring_mode;
        self.current_cycle = v.current_cycle;
        if v.prg_ram.len() == self.prg_ram.len() {
            self.prg_ram = v.prg_ram;
        }
        self.recalculate_banks();
    }

    pub open spec fn regs_ok(&self) -> bool {
        forall|i: int| 0 <= i < 8 ==> #[trigger] self.bank_registers[i] <= 255
    }

    pub open spec fn wf(&self) -> bool {
        &&& 2 <= self.prg_banks
        &&& self.prg_banks * 0x2000 <= usize::MAX
        &&& self.bank_select < 8
        &&& self.regs_ok()
        &&& self.prg_rom.len() > 0
        &&& self.prg_ram.len() == 8192
        &&& (self.chr_rom.len() > 0 || self.chr_ram.len() > 0)
        &&& self.offsets_ok()
        &&& self.offsets_bounded()
    }

    /// Where CHR address `p_addr` lands: the offset of its 1 KiB window plus
    /// the offset inside the window.
    pub open spec fn chr_offset(&self, p_addr: u16) -> int {
        let addr = p_addr & 0x3FFF;
        self.chr_offsets[(addr as int) / 0x0400] + ((addr & 0x03FF) as int)
    }

    /// The byte the PPU reads at `p_addr`: CHR-ROM, or CHR-RAM on a board
    /// without it, through the CHR windows; 0 above the pattern tables.
    pub open spec fn ppu_byte(&self, p_addr: u16) -> u8 {
        if (p_addr & 0x3FFF) >= 0x2000 {
            0
        } else if self.chr_rom.len() == 0 {
            self.chr_ram@[self.chr_offset(p_addr) % (self.chr_ram.len() as int)]
        } else {
            self.chr_rom@[self.chr_offset(p_addr) % (self.chr_rom.len() as int)]
        }
    }

    pub open spec fn offsets_bounded(&self) -> bool {
        &&& forall|i: int| 0 <= i < 8 ==> #[trigger] self.chr_offsets[i] <= 0x40400
        &&& forall|i: int| 0 <= i < 4 ==> #[trigger] self.prg_offsets[i] <= usize::MAX - 0x2000
    }

    /// The window offsets agree with the registers and the modes.
    pub open spec fn offsets_ok(&self) -> bool {
        let r = self.bank_registers;
        let last = (self.prg_banks - 1) * 0x2000;
        let second_last = (self.prg_banks - 2) * 0x2000;
        &&& self.prg_offsets[1] == r[7] * 0x2000
        &&& self.prg_offsets[3] == last
        &&& (self.prg_mode == 0 ==> self.prg_offsets[0] == r[6] * 0x2000 && self.prg_offsets[2] == second_last)
        &&& (self.prg_mode != 0 ==> self.prg_offsets[0] == second_last && self.prg_offsets[2] == r[6] * 0x2000)
        &&& {
            let (lo, hi) = if self.chr_mode == 0 { (0int, 4int) } else { (4int, 0int) };
            &&& self.chr_offsets[lo] == (r[0] & 0xFE) * 0x0400
            &&& self.chr_offsets[lo + 1] == (r[0] & 0xFE) * 0x0400 + 0x0400
            &&& self.chr_offsets[lo + 2] == (r[1] & 0xFE) * 0x0400
            &&& self.chr_offsets[lo + 3] == (r[1] & 0xFE) * 0x0400 + 0x0400
            &&& self.chr_offsets[hi] == r[2] * 0x0400
            &&& self.chr_offsets[hi + 1] == r[3] * 0x0400
            &&& self.chr_offsets[hi + 2] == r[4] * 0x0400
            &&& self.chr_offsets[hi + 3] == r[5] * 0x0400
        }
    }

    pub open spec fn cpu_byte(&self, addr: u16) -> u8 {
        if 0x6000 <= addr < 0x8000 {
            self.prg_ram@[addr - 0x6000]
        } else if addr >= 0x8000 {
            let rel = (addr - 0x8000) as u16;
            self.prg_rom@[(self.prg_offsets[(rel / 0x2000) as int] + (rel & 0x1FFF)) % (self.prg_rom.len() as int)]
        } else {
            0
        }
    }

    pub fn new(
        prg_banks: usize,
        chr_banks: usize,
        prg_rom: Vec<u8>,
        chr_rom: Vec<u8>,
        initial_mirroring: Mirroring,
        four_screen_bit: bool,
        submapper: u8,
    ) -> (r: Self)
        requires
            prg_rom.len() >= 16384,
        ensures
            r.prg_banks == prg_rom.len() / 8192,
            r.chr_banks == chr_banks,
            r.bank_registers@ == seq![0usize; 8],
            r.bank_select == 0 && r.prg_mode == 0 && r.chr_mode == 0,
            r.irq_latch == 0 && r.irq_counter == 0 && !r.irq_reload_flag && !r.irq_enabled && !r.irq_active,
            r.mirroring_mode == initial_mirroring,
            r.has_four_screen == four_screen_bit,
            r.prg_rom@ == prg_rom@,
            r.chr_rom@ == chr_rom@,
            r.prg_ram.len() == 8192,
            r.chr_ram.len() == (if chr_banks == 0 { 8192int } else { 0 }),
            r.offsets_ok(),
            r.offsets_bounded(),
            r.wf() <==> (chr_rom.len() > 0 || chr_banks == 0),
    {
        let prg_ram = vec![0u8; 8192];
        let chr_ram = if chr_banks == 0 { vec![0u8; 8192] } else { Vec::new() };
        let prg_banks_8kb = prg_rom.len() / 8192;
        assert(prg_banks_8kb * 0x2000 <= usize::MAX) by (nonlinear_arith)
            requires
                prg_banks_8kb == prg_rom.len() / 8192,
                prg_rom.len() <= usize::MAX;
        let mut mapper = Self {
            prg_banks: prg_banks_8kb,
            chr_banks,
            bank_registers: [0; 8],
            bank_select: 0,
            prg_mode: 0,
            chr_mode: 0,
            prg_offsets: [0; 4],
            chr_offsets: [0; 8],
            irq_latch: 0,
            a12_low_counter: 0,
            irq_counter: 0,
            irq_reload_flag: false,
            irq_enabled: false,
            irq_active: false,
            last_a12: 0,
            last_clock_cycle: 0,
            mirroring_mode: initial_mirroring,
            has_four_screen: four_screen_bit,
            prg_rom,
            prg_ram,
            chr_rom,
            chr_ram,
            current_cycle: 0,
            sram_dirty: false,
        };
        assert(mapper.bank_registers@ == seq![0usize; 8]);
        mapper.recalculate_banks();
        mapper
    }

    /// The IRQ registers at $C000-$FFFF: latch (even $C000), reload (odd
    /// $C000), disable and acknowledge (even $E000), enable (odd $E000).
    pub fn write_register(&mut self, address: u16, data: u8)
        ensures
            0xC000 <= address < 0xE000 && address % 2 == 0 ==> *final(self) == (Mapper64 { irq_latch: data, ..*old(self) }),
            0xC000 <= address < 0xE000 && address % 2 == 1 ==> *final(self) == (Mapper64 { irq_reload_flag: true, ..*old(self) }),
            0xE000 <= address && address % 2 == 0 ==> *final(self) == (Mapper64 { irq_enabled: false, irq_active: false, ..*old(self) }),
            0xE000 <= address && address % 2 == 1 ==> *final(self) == (Mapper64 { irq_enabled: true, ..*old(self) }),
            address < 0xC000 ==> *final(self) == *old(self),
    {
        if address >= 0xC000 && address <= 0xDFFF {
            if address % 2 == 0 {
                self.irq_latch = data;
            } else {
                self.irq_reload_flag = true;
            }
        } else if address >= 0xE000 {
            if address % 2 == 0 {
                self.irq_enabled = false;
                self.irq_active = false;
            } else {
                self.irq_enabled = true;
            }
        }
    }

    /// Recomputes the window offsets from the registers and the modes.
    #[verifier::spinoff_prover]
    fn recalculate_banks(&mut self)
        requires
            2 <= old(self).prg_banks,
            old(self).prg_banks * 0x2000 <= usize::MAX,
            old(self).regs_ok(),
        ensures
            final(self).offsets_ok(),
            final(self).offsets_bounded(),
            *final(self) == (Mapper64 {
                prg_offsets: final(self).prg_offsets,
                chr_offsets: final(self).chr_offsets,
                ..*old(self)
            }),
    {
        let last = self.prg_banks - 1;
        let second_last = self.prg_banks - 2;
        assert(last * 0x2000 <= usize::MAX - 0x2000 && second_last * 0x2000 <= usize::MAX - 0x2000) by (nonlinear_arith)
            requires
                last == self.prg_banks - 1,
                second_last == self.prg_banks - 2,
                self.prg_banks * 0x2000 <= usize::MAX,
                self.prg_banks >= 2;
        let r = self.bank_registers;
        assert(r[0] <= 255 && r[1] <= 255 && r[2] <= 255 && r[3] <= 255 && r[4] <= 255 && r[5] <= 255 && r[6] <= 255 && r[7] <= 255);
        let r0 = r[0];
        let r1 = r[1];
        proof {
            crate::bits::lemma_usize_fields(r0, 0xFE);
            crate::bits::lemma_usize_fields(r1, 0xFE);
        }
        if self.prg_mode == 0 {
            self.prg_offsets[0] = r[6] * 0x2000;
            self.prg_offsets[1] = r[7] * 0x2000;
            self.prg_offsets[2] = second_last * 0x2000;
            self.prg_offsets[3] = last * 0x2000;
        } else {
            self.prg_offsets[0] = second_last * 0x2000;
            self.prg_offsets[1] = r[7] * 0x2000;
            self.prg_offsets[2] = r[6] * 0x2000;
            self.prg_offsets[3] = last * 0x2000;
        }
        if self.chr_mode == 0 {
            self.chr_offsets[0] = (r[0] & 0xFE) * 0x0400;
            self.chr_offsets[1] = self.chr_offsets[0] + 0x0400;
            self.chr_offsets[2] = (r[1] & 0xFE) * 0x0400;
            self.chr_offsets[3] = self.chr_offsets[2] + 0x0400;
            self.chr_offsets[4] = r[2] * 0x0400;
            self.chr_offsets[5] = r[3] * 0x0400;
            self.chr_offsets[6] = r[4] * 0x0400;
            self.chr_offsets[7] = r[5] * 0x0400;
        } else {
            self.chr_offsets[4] = (r[0] & 0xFE) * 0x0400;
            self.chr_offsets[5] = self.chr_offsets[4] + 0x0400;
            self.chr_offsets[6] = (r[1] & 0xFE) * 0x0400;
            self.chr_offsets[7] = self.chr_offsets[6] + 0x0400;
            self.chr_offsets[0] = r[2] * 0x0400;
            self.chr_offsets[1] = r[3] * 0x0400;
            self.chr_offsets[2] = r[4] * 0x0400;
            self.chr_offsets[3] = r[5] * 0x0400;
        }
    }
}

impl Mapper for Mapper64 {
    open spec fn sram(&self) -> Option<Seq<u8>> {
        None
    }

    open spec fn sram_changed(&self) -> bool {
        false
    }

    fn get_sram(&self) -> (r: Option<&[u8]>) {
        None
    }

    fn load_sram(&mut self, data: &[u8]) {
    }

    fn is_sram_dirty(&self) -> (r: bool) {
        false
    }

    fn clear_sram_dirty(&mut self) {
    }

    open spec fn inv(&self) -> bool {
        self.wf()
    }

    fn step_cycles(&mut self, cycles: u64)
        ensures
            *final(self) == (Mapper64 { current_cycle: cycles_after(old(self).current_cycle, cycles), ..*old(self) }),
    {
        self.current_cycle = advance_cycles(self.current_cycle, cycles);
    }

    fn cpu_read(&self, addr: u16) -> (r: u8)
        ensures
            r == self.cpu_byte(addr),
    {
        if addr >= 0x6000 && addr <= 0x7FFF {
            return self.prg_ram[(addr - 0x6000) as usize];
        }
        if addr >= 0x8000 {
            let bank = ((addr - 0x8000) / 0x2000) as usize;
            proof {
                crate::bits::lemma_word_fields((addr - 0x8000) as u16);
                assert(self.prg_offsets[bank as int] <= usize::MAX - 0x2000);
            }
            let offset = self.prg_offsets[bank] + ((addr - 0x8000) & 0x1FFF) as usize;
            return self.prg_rom[offset % self.prg_rom.len()];
        }
        0
    }

    /// $6000-$7FFF: PRG-RAM; $8000/$8001: bank select and bank data;
    /// $A000: mirroring (unless four-screen); $C000-$FFFF: the IRQ registers.
    #[verifier::spinoff_prover]
    #[verifier::rlimit(50)]
    fn cpu_write(&mut self, addr: u16, value: u8)
        ensures
            0x6000 <= addr < 0x8000 ==> final(self).prg_ram@ == old(self).prg_ram@.update(addr - 0x6000, value)
                && *final(self) == (Mapper64 { prg_ram: final(self).prg_ram, sram_dirty: true, ..*old(self) }),
            0x8000 <= addr < 0xA000 && addr & 1 == 0 ==> {
                &&& final(self).bank_select == value & 0x07
                &&& final(self).prg_mode == (value >> 6u8) & 1
                &&& final(self).chr_mode == (value >> 7u8) & 1
                &&& final(self).bank_registers == old(self).bank_registers
            },
            0x8000 <= addr < 0xA000 && addr & 1 == 1 ==> {
                &&& final(self).bank_select == old(self).bank_select
                &&& final(self).bank_registers@ == old(self).bank_registers@.update(old(self).bank_select as int, value as usize)
            },
            0xA000 <= addr < 0xC000 ==> *final(self) == (if addr & 1 == 0 && !old(self).has_four_screen {
                Mapper64 { mirroring_mode: if value & 1 == 0 { Mirroring::Vertical } else { Mirroring::Horizontal }, ..*old(self) }
            } else {
                *old(self)
            }),
            0xC000 <= addr < 0xE000 && addr & 1 == 0 ==> *final(self) == (Mapper64 { irq_latch: value, ..*old(self) }),
            0xC000 <= addr < 0xE000 && addr & 1 == 1 ==> *final(self) == (Mapper64 { irq_reload_flag: true, ..*old(self) }),
            0xE000 <= addr && addr & 1 == 0 ==> *final(self) == (Mapper64 {
                irq_enabled: false,
                irq_active: false,
                a12_low_counter: 0,
                ..*old(self)
            }),
            0xE000 <= addr && addr & 1 == 1 ==> *final(self) == (Mapper64 { irq_enabled: true, ..*old(self) }),
            addr < 0x6000 ==> *final(self) == *old(self),
    {
        proof {
            crate::bits::lemma_byte_fields(value);
        }
        if addr >= 0x6000 && addr <= 0x7FFF {
            self.sram_dirty = true;
            self.prg_ram.set((addr - 0x6000) as usize, value);
        } else if addr >= 0x8000 && addr <= 0x9FFF {
            if (addr & 1) == 0 {
                self.bank_select = value & 0x07;
                self.prg_mode = (value >> 6u8) & 1;
                self.chr_mode = (value >> 7u8) & 1;
                self.recalculate_banks();
            } else {
                self.bank_registers[self.bank_select as usize] = value as usize;
                self.recalculate_banks();
            }
        } else if addr >= 0xA000 && addr <= 0xBFFF {
            if (addr & 1) == 0 {
                if !self.has_four_screen {
                    self.mirroring_mode = if value & 1 == 0 { Mirroring::Vertical } else { Mirroring::Horizontal };
                }
            }
        } else if addr >= 0xC000 && addr <= 0xDFFF {
            if (addr & 1) == 0 {
                self.irq_latch = value;
            } else {
                self.irq_reload_flag = true;
            }
        } else if addr >= 0xE000 {
            if (addr & 1) == 0 {
                self.irq_enabled = false;
                self.irq_active = false;
                self.a12_low_counter = 0;
            } else {
                self.irq_enabled = true;
            }
        }
    }

    fn total_cycles(&self) -> (r: u64)
        ensures
            r == self.current_cycle as u64,
    {
        self.current_cycle as u64
    }

    fn is_irq_asserted(&self) -> (r: bool)
        ensures
            r == self.irq_active,
    {
        self.irq_active
    }

    /// One scanline clock: reload from the latch when the counter is zero or
    /// a reload is pending, else count down; at zero with IRQs enabled the
    /// IRQ line goes active.
    fn notify_scanline(&mut self)
        ensures
            final(self).irq_counter == (if old(self).irq_counter == 0 || old(self).irq_reload_flag {
                old(self).irq_latch
            } else {
                (old(self).irq_counter - 1) as u8
            }),
            final(self).irq_active == (old(self).irq_active || (final(self).irq_counter == 0 && old(self).irq_enabled)),
            *final(self) == (Mapper64 {
                irq_counter: final(self).irq_counter,
                irq_reload_flag: old(self).irq_reload_flag && old(self).irq_counter != 0 && false,
                irq_active: final(self).irq_active,
                ..*old(self)
            }),
    {
        let current_counter = self.irq_counter;
        let is_reload = current_counter == 0 || self.irq_reload_flag;
        if is_reload {
            self.irq_counter = self.irq_latch;
            self.irq_reload_flag = false;
        } else {
            self.irq_counter = current_counter.saturating_sub(1);
        }
        if self.irq_counter == 0 && self.irq_enabled {
            self.irq_active = true;
        }
    }

    open spec fn chr_read(&self, addr: u16, v: u8) -> bool {
        v == self.ppu_byte(addr)
    }

    fn ppu_read(&self, p_addr: u16) -> (r: u8)
        ensures
            self.chr_read(p_addr, r),
            r == self.ppu_byte(p_addr),
    {
        let addr = p_addr & 0x3FFF;
        if addr < 0x2000 {
            let bank = (addr / 0x0400) as usize;
            proof {
                crate::bits::lemma_word_fields(addr);
                assert(self.chr_offsets[bank as int] <= 0x40400);
            }
            let offset = self.chr_offsets[bank] + (addr & 0x03FF) as usize;
            if self.chr_rom.len() == 0 {
                return self.chr_ram[offset % self.chr_ram.len()];
            } else {
                return self.chr_rom[offset % self.chr_rom.len()];
            }
        }
        0
    }

    /// CHR-RAM (on a board without CHR-ROM) takes writes through the CHR
    /// windows.
    fn ppu_write(&mut self, p_addr: u16, value: u8)
        ensures
            final(self).chr_ram@.len() == old(self).chr_ram@.len(),
            *final(self) == (Mapper64 { chr_ram: final(self).chr_ram, ..*old(self) }),
            final(self).chr_ram@ == (if (p_addr & 0x3FFF) < 0x2000 && old(self).chr_rom.len() == 0 {
                old(self).chr_ram@.update(old(self).chr_offset(p_addr) % (old(self).chr_ram.len() as int), value)
            } else {
                old(self).chr_ram@
            }),
    {
        let addr = p_addr & 0x3FFF;
        if addr < 0x2000 {
            if self.chr_rom.len() == 0 {
                let bank = (addr / 0x0400) as usize;
                proof {
                    crate::bits::lemma_word_fields(addr);
                    assert(self.chr_offsets[bank as int] <= 0x40400);
                }
                let offset = self.chr_offsets[bank] + (addr & 0x03FF) as usize;
                let len = self.chr_ram.len();
                self.chr_ram.set(offset % len, value);
            }
        }
    }

    open spec fn vram_offset(&self, addr: u16) -> int {
        rambo_mirror(self.mirroring_mode, self.has_four_screen, addr) as int
    }

    fn mirror_vram_address(&self, addr: u16) -> (r: usize)
        ensures
            r == self.vram_offset(addr),
    {
        let v = (addr.wrapping_sub(0x2000) as usize) & 0x0FFF;
        proof {
            crate::bits::lemma_word_fields(addr);
            crate::bits::lemma_usize_fields(v, 0);
        }
        if self.has_four_screen {
            return v;
        }
        if self.mirroring_mode == Mirroring::Vertical {
            return v & 0x07FF;
        } else {
            return ((v >> 1usize) & 0x0400) | (v & 0x03FF);
        }
    }
}

} // verus!
