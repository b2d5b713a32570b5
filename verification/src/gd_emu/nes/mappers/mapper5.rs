use vstd::prelude::*;
use vstd::cell::invcell::InvCell;
use vstd::predicate::Predicate;
use crate::gd_emu::nes::mappers::{Mapper, Mirroring, cycles_after, advance_cycles};

verus! {

/// Bit facts of the MMC5 registers, proved once.
proof fn lemma_mmc5_bits(latched: u8, upper: usize, pending: bool, in_frame: bool, sum: usize, tile_row: usize, tile_col: usize)
    by (bit_vector)
    ensures
        upper <= 3 ==> (latched & 0x3F) as usize | (upper << 6usize) <= 0xFF,
        ((if pending { 0x80u8 } else { 0u8 }) | (if in_frame { 0x40u8 } else { 0u8 })) & 0x40
            == (if in_frame { 0x40u8 } else { 0u8 }),
        ((if pending { 0x80u8 } else { 0u8 }) | (if in_frame { 0x40u8 } else { 0u8 })) & 0x3F == 0,
        sum & 0xFF == sum % 256,
        (tile_row < 32 && tile_col < 32) ==> (
            (((tile_row >> 1usize) & 1) << 2usize) | (((tile_col >> 1usize) & 1) << 1usize)
                == ((tile_row / 2) % 2) * 4 + ((tile_col / 2) % 2) * 2
            && (((tile_row >> 1usize) & 1) << 2usize) | (((tile_col >> 1usize) & 1) << 1usize) <= 6),
{
}


/// Any value may sit in the cell.
pub struct AnyValue;

impl<T> Predicate<T> for AnyValue {
    open spec fn predicate(&self, v: T) -> bool {
        true
    }
}

/// MMC5: four PRG banking modes over ROM and RAM, two CHR register sets
/// (sprites and background), extended RAM, per-nametable mapping with a
/// fill mode, a scanline IRQ, an 8x8 multiplier and a vertical split.
pub struct Mapper5 {
    pub prg_rom: Vec<u8>,
    pub prg_ram: Vec<u8>,
    pub chr_rom: Vec<u8>,
    pub chr_ram: Vec<u8>,
    pub ex_ram: [u8; 1024],
    pub prg_bank_count: usize,
    pub prg_mode: u8,
    pub chr_mode: u8,
    pub ram_protect_1: u8,
    pub ram_protect_2: u8,
    pub exram_mode: u8,
    pub nt_map: [u8; 4],
    pub fill_tile: u8,
    pub fill_attr: u8,
    pub prg_regs: [u8; 5],
    pub chr_regs_a: [u16; 8],
    pub chr_regs_b: [u16; 4],
    pub chr_upper_bits: u16,
    pub split_ctrl: u8,
    pub split_scroll: u8,
    pub split_chr_page: u8,
    pub latched_exram_byte: InvCell<u8, AnyValue>,
    pub irq_target: u8,
    pub irq_enabled: bool,
    pub irq_pending: InvCell<bool, AnyValue>,
    pub in_frame: bool,
    pub irq_counter: u16,
    pub mult_a: u8,
    pub mult_b: u8,
    pub has_four_screen: bool,
    pub current_cycle: i64,
    pub sram_dirty: bool,
}

/// The 8 KiB window (0 for $6000, 1-4 for $8000-$FFFF) of a CPU address.
pub open spec fn prg_slot(addr: u16) -> int {
    if addr < 0x8000 {
        0
    } else if addr < 0xA000 {
        1
    } else if addr < 0xC000 {
        2
    } else if addr < 0xE000 {
        3
    } else {
        4
    }
}

/// A two-bit value copied into all four fields of an attribute byte.
pub open spec fn attr_fill(p: u8) -> u8 {
    p | (p << 2u8) | (p << 4u8) | (p << 6u8)
}

/// The state of an MMC5 board that a save keeps.
pub struct Mapper5StateVariables {
    pub prg_mode: u8,
    pub chr_mode: u8,
    pub ram_protect_1: u8,
    pub ram_protect_2: u8,
    pub exram_mode: u8,
    pub nt_map: [u8; 4],
    pub fill_tile: u8,
    pub fill_attr: u8,
    pub prg_regs: [u8; 5],
    pub chr_regs_a: [u16; 8],
    pub chr_regs_b: [u16; 4],
    pub chr_upper_bits: u16,
    pub latched_exram_byte: u8,
    pub irq_target: u8,
    pub irq_enabled: bool,
    pub irq_pending: bool,
    pub in_frame: bool,
    pub irq_counter: u16,
    pub mult_a: u8,
    pub mult_b: u8,
    pub current_cycle: i64,
    pub prg_ram: Vec<u8>,
    pub ex_ram: [u8; 1024],
    pub split_ctrl: u8,
    pub split_scroll: u8,
    pub split_chr_page: u8,
}

impl Mapper5 {
    /// The state a save keeps.
    pub fn state_variables(&self) -> (r: Mapper5StateVariables)
        ensures
            r.prg_mode == self.prg_mode,
            r.chr_mode == self.chr_mode,
            r.ram_protect_1 == self.ram_protect_1,
            r.ram_protect_2 == self.ram_protect_2,
            r.exram_mode == self.exram_mode,
            r.nt_map == self.nt_map,
            r.fill_tile == self.fill_tile,
            r.fill_attr == self.fill_attr,
            r.prg_regs == self.prg_regs,
            r.chr_regs_a == self.chr_regs_a,
            r.chr_regs_b == self.chr_regs_b,
            r.chr_upper_bits == self.chr_upper_bits,
            r.irq_target == self.irq_target,
            r.irq_enabled == self.irq_enabled,
            r.in_frame == self.in_frame,
            r.irq_counter == self.irq_counter,
            r.mult_a == self.mult_a,
            r.mult_b == self.mult_b,
            r.current_cycle == self.current_cycle,
            r.ex_ram == self.ex_ram,
            r.split_ctrl == self.split_ctrl,
            r.split_scroll == self.split_scroll,
            r.split_chr_page == self.split_chr_page,
            r.prg_ram@ == self.prg_ram@,
    {
        Mapper5StateVariables {
            prg_mode: self.prg_mode,
            chr_mode: self.chr_mode,
            ram_protect_1: self.ram_protect_1,
            ram_protect_2: self.ram_protect_2,
            exram_mode: self.exram_mode,
            nt_map: self.nt_map,
            fill_tile: self.fill_tile,
            fill_attr: self.fill_attr,
            prg_regs: self.prg_regs,
            chr_regs_a: self.chr_regs_a,
            chr_regs_b: self.chr_regs_b,
            chr_upper_bits: self.chr_upper_bits,
            irq_target: self.irq_target,
            irq_enabled: self.irq_enabled,
            in_frame: self.in_frame,
            irq_counter: self.irq_counter,
            mult_a: self.mult_a,
            mult_b: self.mult_b,
            current_cycle: self.current_cycle,
            ex_ram: self.ex_ram,
            split_ctrl: self.split_ctrl,
            split_scroll: self.split_scroll,
            split_chr_page: self.split_chr_page,
            latched_exram_byte: self.latched_exram_byte.get(),
            irq_pending: self.irq_pending.get(),
            prg_ram: self.prg_ram.clone(),
        }
    }

    /// Restores a saved state (the PRG RAM only when it has the board's
    /// size).
    pub fn restore_state_variables(&mut self, v: Mapper5StateVariables)
        requires
            old(self).wf(),
            v.prg_mode <= 3,
            v.chr_upper_bits <= 3,
            forall|i: int| 0 <= i < 4 ==> #[trigger] v.nt_map[i] <= 3,
        ensures
            final(self).wf(),
            final(self).prg_mode == v.prg_mode,
            final(self).chr_mode == v.chr_mode,
            final(self).ram_protect_1 == v.ram_protect_1,
            final(self).ram_protect_2 == v.ram_protect_2,
            final(self).exram_mode == v.exram_mode,
            final(self).nt_map == v.nt_map,
            final(self).fill_tile == v.fill_tile,
            final(self).fill_attr == v.fill_attr,
            final(self).prg_regs == v.prg_regs,
            final(self).chr_regs_a == v.chr_regs_a,
            final(self).chr_regs_b == v.chr_regs_b,
            final(self).chr_upper_bits == v.chr_upper_bits,
            final(self).irq_target == v.irq_target,
            final(self).irq_enabled == v.irq_enabled,
            final(self).in_frame == v.in_frame,
            final(self).irq_counter == v.irq_counter,
            final(self).mult_a == v.mult_a,
            final(self).mult_b == v.mult_b,
            final(self).current_cycle == v.current_cycle,
            final(self).ex_ram == v.ex_ram,
            final(self).split_ctrl == v.split_ctrl,
            final(self).split_scroll == v.split_scroll,
            final(self).split_chr_page == v.split_chr_page,
            final(self).prg_ram@ == (if v.prg_ram@.len() == old(self).prg_ram@.len() { v.prg_ram@ } else { old(self).prg_ram@ }),
            final(self).prg_rom@ == old(self).prg_rom@ && final(self).chr_rom@ == old(self).chr_rom@,
            final(self).chr_ram@ == old(self).chr_ram@,
    {
        self.prg_mode = v.prg_mode;
        self.chr_mode = v.chr_mode;
        self.ram_protect_1 = v.ram_protect_1;
        self.ram_protect_2 = v.ram_protect_2;
        self.exram_mode = v.exram_mode;
        self.nt_map = v.nt_map;
        self.fill_tile = v.fill_tile;
        self.fill_attr = v.fill_attr;
        self.prg_regs = v.prg_regs;
        self.chr_regs_a = v.chr_regs_a;
        self.chr_regs_b = v.chr_regs_b;
        self.chr_upper_bits = v.chr_upper_bits;
        self.irq_target = v.irq_target;
        self.irq_enabled = v.irq_enabled;
        self.in_frame = v.in_frame;
        self.irq_counter = v.irq_counter;
        self.mult_a = v.mult_a;
        self.mult_b = v.mult_b;
        self.current_cycle = v.current_cycle;
        self.ex_ram = v.ex_ram;
        self.split_ctrl = v.split_ctrl;
        self.split_scroll = v.split_scroll;
        self.split_chr_page = v.split_chr_page;
        self.latched_exram_byte.set(v.latched_exram_byte);
        self.irq_pending.set(v.irq_pending);
        if v.prg_ram.len() == self.prg_ram.len() {
            self.prg_ram = v.prg_ram;
        }
    }

    pub open spec fn wf(&self) -> bool {
        &&& self.prg_ram.len() == 0x10000
        &&& (self.chr_rom.len() > 0 || self.chr_ram.len() == 8192)
        &&& self.prg_mode <= 3
        &&& self.chr_upper_bits <= 3
        &&& forall|i: int| 0 <= i < 4 ==> #[trigger] self.nt_map[i] <= 3
    }

    /// Where a CPU address at or above $6000 lands: (RAM?, 8 KiB bank,
    /// offset in the bank).
    pub open spec fn prg_target(&self, addr: u16) -> (bool, int, int) {
        let slot = prg_slot(addr);
        let reg = self.prg_regs[slot];
        let is_ram = if slot == 0 { true } else if slot == 4 { false } else { reg & 0x80 == 0 };
        let below = if slot > 0 { slot - 1 } else { 0 };
        let bank: int = if self.prg_mode == 0 {
            (self.prg_regs[4] & 0x7C) + below
        } else if self.prg_mode == 1 {
            if slot <= 2 { (self.prg_regs[2] & 0x7E) + below } else { (self.prg_regs[4] & 0x7E) + (slot - 3) }
        } else if self.prg_mode == 2 {
            if slot <= 2 { (self.prg_regs[2] & 0x7E) + below } else { (self.prg_regs[slot] & 0x7F) as int }
        } else {
            (reg & 0x7F) as int
        };
        (is_ram, bank, (addr & 0x1FFF) as int)
    }

    pub open spec fn prg_byte(&self, addr: u16) -> u8 {
        let (is_ram, bank, offset) = self.prg_target(addr);
        if is_ram {
            self.prg_ram@[(bank * 0x2000 + offset) % (self.prg_ram.len() as int)]
        } else if self.prg_rom.len() == 0 {
            0
        } else {
            self.prg_rom@[(bank * 0x2000 + offset) % (self.prg_rom.len() as int)]
        }
    }

    /// A CHR byte at pattern address `addr`, outside the extended-attribute
    /// fetch path.
    pub open spec fn chr_byte(&self, addr: int) -> u8 {
        if self.chr_rom.len() > 0 {
            self.chr_rom@[addr % (self.chr_rom.len() as int)]
        } else {
            self.chr_ram@[(addr as usize & 0x1FFF) as int]
        }
    }

    /// The bank a sprite-side CHR read at `addr` goes through.
    pub open spec fn sprite_chr_bank(&self, addr: u16) -> u16 {
        self.chr_regs_a[(addr / 0x0400) as int % 8] | (self.chr_upper_bits << 8u16)
    }

    pub fn new(
        prg_banks: usize,
        chr_banks: usize,
        prg_rom: Vec<u8>,
        chr_rom: Vec<u8>,
        initial_mirroring: Mirroring,
        four_screen_bit: bool,
    ) -> (r: Self)
        ensures
            r.wf(),
            r.prg_rom@ == prg_rom@,
            r.chr_rom@ == chr_rom@,
            r.chr_ram.len() == (if chr_rom.len() == 0 { 8192int } else { 0 }),
            forall|i: int| 0 <= i < r.chr_ram.len() ==> #[trigger] r.chr_ram@[i] == 0,
            r.prg_ram.len() == 0x10000,
            forall|i: int| 0 <= i < r.prg_ram.len() ==> #[trigger] r.prg_ram@[i] == 0,
            forall|i: int| 0 <= i < 1024 ==> #[trigger] r.ex_ram[i] == 0,
            r.prg_bank_count == prg_rom.len() / 0x2000,
            r.prg_mode == 3 && r.chr_mode == 3,
            r.nt_map@ == seq![0u8, 1, 0, 1],
            r.prg_regs@ == seq![0u8, 0xFF, 0xFF, 0xFF, 0xFF],
            forall|i: int| 0 <= i < 8 ==> #[trigger] r.chr_regs_a[i] == i,
            r.chr_regs_b@ == seq![0u16; 4],
            r.chr_upper_bits == 0,
            r.in_frame,
            r.irq_counter == 0 && !r.irq_enabled && r.irq_target == 0,
            r.mult_a == 0 && r.mult_b == 0,
            r.has_four_screen == four_screen_bit,
            r.current_cycle == 0,
            !r.sram_dirty,
    {
        let chr_ram = if chr_rom.len() == 0 { vec![0u8; 8192] } else { Vec::new() };
        let prg_bank_count = prg_rom.len() / 0x2000;
        let mut chr_regs_a = [0u16; 8];
        let mut i: usize = 0;
        while i < 8
            invariant
                i <= 8,
                forall|j: int| 0 <= j < i ==> #[trigger] chr_regs_a[j] == j,
            decreases 8 - i,
        {
            chr_regs_a[i] = i as u16;
            i = i + 1;
        }
        let r = Self {
            prg_rom,
            prg_ram: vec![0u8; 0x10000],
            chr_rom,
            chr_ram,
            ex_ram: [0; 1024],
            prg_bank_count,
            prg_mode: 3,
            chr_mode: 3,
            ram_protect_1: 0,
            ram_protect_2: 0,
            exram_mode: 0,
            nt_map: [0, 1, 0, 1],
            fill_tile: 0,
            fill_attr: 0,
            prg_regs: [0, 0xFF, 0xFF, 0xFF, 0xFF],
            chr_regs_a,
            chr_regs_b: [0; 4],
            chr_upper_bits: 0,
            latched_exram_byte: InvCell::new(0, Ghost(AnyValue)),
            split_ctrl: 0,
            split_scroll: 0,
            split_chr_page: 0,
            irq_target: 0,
            irq_enabled: false,
            irq_pending: InvCell::new(false, Ghost(AnyValue)),
            in_frame: true,
            irq_counter: 0,
            mult_a: 0,
            mult_b: 0,
            has_four_screen: four_screen_bit,
            current_cycle: 0,
            sram_dirty: false,
        };
        assert(r.nt_map@ == seq![0u8, 1, 0, 1]);
        assert(r.prg_regs@ == seq![0u8, 0xFF, 0xFF, 0xFF, 0xFF]);
        assert(r.chr_regs_b@ == seq![0u16; 4]);
        r
    }

    /// PRG-RAM above $8000 takes writes only with both protect registers
    /// unlocked (2 and 1).
    fn prg_ram_writable(&self) -> (r: bool)
        ensures
            r == (self.ram_protect_1 == 0b10 && self.ram_protect_2 == 0b01),
    {
        self.ram_protect_1 == 0b10 && self.ram_protect_2 == 0b01
    }

    #[verifier::spinoff_prover]
    fn resolve_prg(&self, addr: u16) -> (r: (bool, usize, usize))
        requires
            self.wf(),
            addr >= 0x6000,
        ensures
            (r.0, r.1 as int, r.2 as int) == self.prg_target(addr),
            r.1 <= 0x80,
            r.2 < 0x2000,
    {
        let offset = (addr & 0x1FFF) as usize;
        let slot: usize = if addr < 0x8000 {
            0
        } else if addr < 0xA000 {
            1
        } else if addr < 0xC000 {
            2
        } else if addr < 0xE000 {
            3
        } else {
            4
        };
        let reg_val = self.prg_regs[slot];
        let is_ram = if slot == 0 { true } else if slot == 4 { false } else { (reg_val & 0x80) == 0 };
        let below = if slot > 0 { slot - 1 } else { 0 };
        let r4 = self.prg_regs[4];
        let r2 = self.prg_regs[2];
        let rs = self.prg_regs[slot];
        proof {
            crate::bits::lemma_word_fields(addr);
            crate::bits::lemma_byte_fields(r4);
            crate::bits::lemma_byte_fields(r2);
            crate::bits::lemma_byte_fields(rs);
            crate::bits::lemma_byte_fields(reg_val);
        }
        let bank: usize = if self.prg_mode == 0 {
            (r4 & 0x7C) as usize + below
        } else if self.prg_mode == 1 {
            if slot <= 2 { (r2 & 0x7E) as usize + below } else { (r4 & 0x7E) as usize + (slot - 3) }
        } else if self.prg_mode == 2 {
            if slot <= 2 { (r2 & 0x7E) as usize + below } else { (rs & 0x7F) as usize }
        } else {
            (reg_val & 0x7F) as usize
        };
        (is_ram, bank, offset)
    }

    fn read_prg(&self, addr: u16) -> (r: u8)
        requires
            self.wf(),
            addr >= 0x6000,
        ensures
            r == self.prg_byte(addr),
    {
        let (is_ram, bank, offset) = self.resolve_prg(addr);
        if is_ram {
            let len = self.prg_ram.len();
            self.prg_ram[(bank * 0x2000 + offset) % len]
        } else {
            let len = self.prg_rom.len();
            if len == 0 {
                return 0;
            }
            self.prg_rom[(bank * 0x2000 + offset) % len]
        }
    }

    /// A pattern read through the sprite registers, or for the background
    /// through the background registers.
    fn read_chr(&self, addr: u16, is_bg_fetch: bool) -> (r: u8)
        requires
            self.wf(),
        ensures
            !is_bg_fetch ==> r == self.chr_byte(self.sprite_chr_bank(addr) * 0x0400 + (addr & 0x03FF)),
    {
        let local = (addr & 0x03FF) as usize;
        proof {
            crate::bits::lemma_word_fields(addr);
        }
        let bank: u16 = if is_bg_fetch {
            let slot = ((addr / 0x0400) as usize) % 4;
            self.chr_regs_b[slot] | (self.chr_upper_bits << 8u16)
        } else {
            let slot = ((addr / 0x0400) as usize) % 8;
            self.chr_regs_a[slot] | (self.chr_upper_bits << 8u16)
        };
        self.chr_fetch(addr, (bank as usize * 0x0400) + local, is_bg_fetch)
    }

    /// The byte at CHR address `addr`; with extended attributes on, a
    /// background fetch inside the frame goes through the 4 KiB bank that
    /// the latched extended-RAM byte names instead.
    fn chr_fetch(&self, raw_addr: u16, addr: usize, is_bg_fetch: bool) -> (r: u8)
        requires
            self.wf(),
        ensures
            !(self.exram_mode == 1 && self.in_frame && is_bg_fetch) ==> r == self.chr_byte(addr as int),
    {
        let mut final_addr = addr;
        if self.exram_mode == 1 && self.in_frame && is_bg_fetch {
            let latched = self.latched_exram_byte.get();
            let upper = self.chr_upper_bits as usize;
            proof {
                crate::bits::lemma_word_fields(raw_addr);
                lemma_mmc5_bits(latched, upper, false, false, 0, 0, 0);
            }
            let bank = (latched & 0x3F) as usize | (upper << 6usize);
            final_addr = (bank * 0x1000) + (raw_addr & 0x0FFF) as usize;
        }
        if self.chr_rom.len() > 0 {
            self.chr_rom[final_addr % self.chr_rom.len()]
        } else {
            proof {
                crate::bits::lemma_usize_fields(final_addr, 0);
            }
            self.chr_ram[final_addr & 0x1FFF]
        }
    }

    fn nametable_byte(&self, addr: u16, ppu_vram: &[u8; 4096], is_attribute_byte: bool) -> (r: u8)
        requires
            self.wf(),
            0x2000 <= addr < 0x4000,
        ensures
            !(self.exram_mode == 1 && is_attribute_byte) ==> r == ({
                let offset = (addr & 0x03FF) as int;
                let mode = self.nt_map[((addr - 0x2000) / 0x0400) % 4];
                if mode == 0 {
                    ppu_vram[offset]
                } else if mode == 1 {
                    ppu_vram[0x0400 + offset]
                } else if mode == 2 {
                    self.ex_ram[offset]
                } else if offset < 0x03C0 {
                    self.fill_tile
                } else {
                    self.fill_attr
                }
            }),
    {
        let nt_index = ((addr - 0x2000) / 0x0400) as usize % 4;
        let mode = self.nt_map[nt_index];
        let offset = (addr & 0x03FF) as usize;
        proof {
            crate::bits::lemma_word_fields(addr);
            crate::bits::lemma_usize_fields(offset, 0);
        }
        if self.exram_mode == 1 && is_attribute_byte {
            let latched = self.latched_exram_byte.get();
            let pal = (latched >> 6u8) & 0x03;
            return pal | (pal << 2u8) | (pal << 4u8) | (pal << 6u8);
        }
        if mode == 0 {
            ppu_vram[offset & 0x0FFF]
        } else if mode == 1 {
            ppu_vram[(0x0400 + offset) & 0x0FFF]
        } else if mode == 2 {
            self.ex_ram[offset & 0x03FF]
        } else if offset < 0x03C0 {
            self.fill_tile
        } else {
            self.fill_attr
        }
    }

    /// With extended attributes on, a tile fetch latches the extended-RAM
    /// byte of that tile for the attribute and pattern fetches after it.
    fn maybe_latch_exram(&self, addr: u16) {
        if self.exram_mode == 1 {
            let offset = (addr & 0x03FF) as usize;
            proof {
                crate::bits::lemma_word_fields(addr);
            }
            if offset < 0x03C0 {
                self.latched_exram_byte.set(self.ex_ram[offset]);
            }
        }
    }
}

impl Mapper for Mapper5 {
    open spec fn sram(&self) -> Option<Seq<u8>> {
        Some(self.prg_ram@)
    }

    open spec fn sram_changed(&self) -> bool {
        self.sram_dirty
    }

    open spec fn inv(&self) -> bool {
        self.wf()
    }

    fn step_cycles(&mut self, cycles: u64)
        ensures
            final(self).current_cycle == cycles_after(old(self).current_cycle, cycles),
    {
        self.current_cycle = advance_cycles(self.current_cycle, cycles);
    }

    fn get_sram(&self) -> (r: Option<&[u8]>)
        ensures
            r is Some && r.unwrap()@ == self.prg_ram@,
    {
        Some(self.prg_ram.as_slice())
    }

    fn load_sram(&mut self, data: &[u8])
        ensures
            final(self).prg_ram@ == (if data@.len() == old(self).prg_ram@.len() { data@ } else { old(self).prg_ram@ }),
            final(self).prg_rom == old(self).prg_rom,
            final(self).chr_rom == old(self).chr_rom,
    {
        if data.len() == self.prg_ram.len() {
            let n = data.len();
            let mut i: usize = 0;
            while i < n
                invariant
                    n == data@.len(),
                    self.prg_ram@.len() == n,
                    i <= n,
                    forall|j: int| 0 <= j < i ==> self.prg_ram@[j] == data@[j],
                    self.wf(),
                    self.prg_rom == old(self).prg_rom,
                    self.chr_rom == old(self).chr_rom,
                decreases n - i,
            {
                self.prg_ram.set(i, data[i]);
                i = i + 1;
            }
            assert(self.prg_ram@ == data@);
        }
    }

    fn is_sram_dirty(&self) -> (r: bool)
        ensures
            r == self.sram_dirty,
    {
        self.sram_dirty
    }

    fn clear_sram_dirty(&mut self)
        ensures
            final(self).sram_dirty == false,
            final(self).prg_ram == old(self).prg_ram,
    {
        self.sram_dirty = false;
    }

    fn is_irq_asserted(&self) -> bool {
        self.irq_pending.get()
    }

    /// $5204: IRQ status (bit 7 pending, bit 6 in frame), which acknowledges
    /// the IRQ; $5205/$5206: the product's low and high byte; $5C00-$5FFF:
    /// extended RAM; $6000-$FFFF: PRG.
    fn cpu_read(&self, addr: u16) -> (r: u8)
        ensures
            addr == 0x5204 ==> r & 0x40 == (if self.in_frame { 0x40u8 } else { 0 }) && r & 0x3F == 0,
            addr == 0x5205 ==> r == (self.mult_a * self.mult_b) % 256,
            addr == 0x5206 ==> r == (self.mult_a * self.mult_b) / 256,
            0x5C00 <= addr < 0x6000 ==> r == self.ex_ram[addr - 0x5C00],
            addr >= 0x6000 ==> r == self.prg_byte(addr),
            (addr < 0x5204 || (0x5206 < addr < 0x5C00)) ==> r == 0,
    {
        if addr == 0x5204 {
            let pending = self.irq_pending.get();
            let in_frame = self.in_frame;
            let res: u8 = (if pending { 0x80u8 } else { 0u8 }) | (if in_frame { 0x40u8 } else { 0u8 });
            self.irq_pending.set(false);
            proof {
                lemma_mmc5_bits(0, 0, pending, in_frame, 0, 0, 0);
            }
            res
        } else if addr == 0x5205 {
            proof {
                vstd::arithmetic::mul::lemma_mul_upper_bound(self.mult_a as int, 255, self.mult_b as int, 255);
            }
            let p = self.mult_a as u16 * self.mult_b as u16;
            proof {
                crate::bits::lemma_word_fields(p);
            }
            (p & 0xFF) as u8
        } else if addr == 0x5206 {
            proof {
                vstd::arithmetic::mul::lemma_mul_upper_bound(self.mult_a as int, 255, self.mult_b as int, 255);
            }
            let p = self.mult_a as u16 * self.mult_b as u16;
            proof {
                crate::bits::lemma_word_fields(p);
            }
            (p >> 8u16) as u8
        } else if addr >= 0x5C00 && addr <= 0x5FFF {
            self.ex_ram[(addr - 0x5C00) as usize]
        } else if addr >= 0x6000 {
            self.read_prg(addr)
        } else {
            0
        }
    }

    #[verifier::spinoff_prover]
    #[verifier::rlimit(60)]
    fn cpu_write(&mut self, addr: u16, value: u8)
        ensures
            addr == 0x5100 ==> final(self).prg_mode == value & 0x03,
            addr == 0x5101 ==> final(self).chr_mode == value & 0x03,
            addr == 0x5102 ==> final(self).ram_protect_1 == value & 0x03,
            addr == 0x5103 ==> final(self).ram_protect_2 == value & 0x03,
            addr == 0x5104 ==> final(self).exram_mode == value & 0x03,
            addr == 0x5105 ==> final(self).nt_map@ == seq![value & 0x03, (value >> 2u8) & 0x03, (value >> 4u8) & 0x03, (value >> 6u8) & 0x03],
            addr == 0x5106 ==> final(self).fill_tile == value,
            addr == 0x5107 ==> final(self).fill_attr == attr_fill(value & 0x03),
            0x5113 <= addr <= 0x5117 ==> final(self).prg_regs@ == old(self).prg_regs@.update(addr - 0x5113, value),
            0x5120 <= addr <= 0x5127 ==> final(self).chr_regs_a@ == old(self).chr_regs_a@.update(addr - 0x5120, value as u16),
            0x5128 <= addr <= 0x512B ==> final(self).chr_regs_b@ == old(self).chr_regs_b@.update(addr - 0x5128, value as u16),
            addr == 0x5130 ==> final(self).chr_upper_bits == (value & 0x03) as u16,
            addr == 0x5203 ==> final(self).irq_target == value,
            addr == 0x5204 ==> final(self).irq_enabled == (value & 0x80 != 0),
            addr == 0x5205 ==> final(self).mult_a == value,
            addr == 0x5206 ==> final(self).mult_b == value,
            0x5C00 <= addr < 0x6000 ==> final(self).ex_ram@ == old(self).ex_ram@.update(addr - 0x5C00, value),
            0x6000 <= addr < 0x8000 ==> final(self).sram_dirty && final(self).prg_ram@ == old(self).prg_ram@.update(
                (old(self).prg_target(addr).1 * 0x2000 + old(self).prg_target(addr).2) % 0x10000, value),
            addr >= 0x8000 ==> final(self).prg_ram@ == (if old(self).prg_target(addr).0 && old(self).ram_protect_1 == 2 && old(self).ram_protect_2 == 1 {
                old(self).prg_ram@.update((old(self).prg_target(addr).1 * 0x2000 + old(self).prg_target(addr).2) % 0x10000, value)
            } else {
                old(self).prg_ram@
            }),
            final(self).prg_rom == old(self).prg_rom,
            final(self).chr_rom == old(self).chr_rom,
    {
        proof {
            crate::bits::lemma_byte_fields(value);
        }
        if addr == 0x5100 {
            self.prg_mode = value & 0x03;
        } else if addr == 0x5101 {
            self.chr_mode = value & 0x03;
        } else if addr == 0x5102 {
            self.ram_protect_1 = value & 0x03;
        } else if addr == 0x5103 {
            self.ram_protect_2 = value & 0x03;
        } else if addr == 0x5104 {
            self.exram_mode = value & 0x03;
        } else if addr == 0x5105 {
            proof {
                crate::bits::lemma_byte_fields(value);
            }
            self.nt_map[0] = value & 0x03;
            self.nt_map[1] = (value >> 2u8) & 0x03;
            self.nt_map[2] = (value >> 4u8) & 0x03;
            self.nt_map[3] = (value >> 6u8) & 0x03;
            assert(self.nt_map@ == seq![value & 0x03, (value >> 2u8) & 0x03, (value >> 4u8) & 0x03, (value >> 6u8) & 0x03]);
        } else if addr == 0x5106 {
            self.fill_tile = value;
        } else if addr == 0x5107 {
            let p = value & 0x03;
            self.fill_attr = p | (p << 2u8) | (p << 4u8) | (p << 6u8);
        } else if addr >= 0x5113 && addr <= 0x5117 {
            self.prg_regs[(addr - 0x5113) as usize] = value;
        } else if addr >= 0x5120 && addr <= 0x5127 {
            self.chr_regs_a[(addr - 0x5120) as usize] = value as u16;
        } else if addr >= 0x5128 && addr <= 0x512B {
            self.chr_regs_b[(addr - 0x5128) as usize] = value as u16;
        } else if addr == 0x5130 {
            self.chr_upper_bits = (value & 0x03) as u16;
        } else if addr == 0x5203 {
            self.irq_target = value;
        } else if addr == 0x5204 {
            self.irq_enabled = (value & 0x80) != 0;
        } else if addr == 0x5205 {
            self.mult_a = value;
        } else if addr == 0x5206 {
            self.mult_b = value;
        } else if addr >= 0x5C00 && addr <= 0x5FFF {
            self.ex_ram[(addr - 0x5C00) as usize] = value;
        } else if addr >= 0x6000 {
            let (is_ram, bank, offset) = self.resolve_prg(addr);
            if addr < 0x8000 {
                let len = self.prg_ram.len();
                self.prg_ram.set((bank * 0x2000 + offset) % len, value);
                self.sram_dirty = true;
            } else if is_ram && self.prg_ram_writable() {
                let len = self.prg_ram.len();
                self.prg_ram.set((bank * 0x2000 + offset) % len, value);
                self.sram_dirty = true;
            }
        }
    }

    open spec fn chr_read(&self, addr: u16, v: u8) -> bool {
        v == (if addr < 0x2000 { self.chr_byte(self.sprite_chr_bank(addr) * 0x0400 + (addr & 0x03FF)) } else { 0 })
    }

    fn ppu_read(&self, addr: u16) -> (r: u8)
        ensures
            self.chr_read(addr, r),
            addr < 0x2000 ==> r == self.chr_byte(self.sprite_chr_bank(addr) * 0x0400 + (addr & 0x03FF)),
            addr >= 0x2000 ==> r == 0,
    {
        if addr < 0x2000 {
            self.read_chr(addr, false)
        } else {
            0
        }
    }

    fn ppu_read_ctx(&self, addr: u16, is_bg_fetch: bool) -> (r: u8)
        ensures
            !is_bg_fetch ==> self.chr_read(addr, r),
            addr < 0x2000 && !is_bg_fetch ==> r == self.chr_byte(self.sprite_chr_bank(addr) * 0x0400 + (addr & 0x03FF)),
            addr >= 0x2000 ==> r == 0,
    {
        if addr < 0x2000 {
            self.read_chr(addr, is_bg_fetch)
        } else {
            0
        }
    }

    fn ppu_write(&mut self, addr: u16, value: u8)
        ensures
            final(self).chr_ram@ == (if addr < 0x2000 && old(self).chr_rom.len() == 0 && old(self).chr_ram.len() > 0 {
                old(self).chr_ram@.update((addr as int) % (old(self).chr_ram.len() as int), value)
            } else {
                old(self).chr_ram@
            }),
            final(self).chr_ram@.len() == old(self).chr_ram@.len(),
            final(self).prg_ram == old(self).prg_ram,
    {
        if addr < 0x2000 && self.chr_rom.len() == 0 && self.chr_ram.len() > 0 {
            let len = self.chr_ram.len();
            self.chr_ram.set((addr as usize) % len, value);
        }
    }

    fn read_nametable_byte(&self, addr: u16, ppu_vram: &[u8; 4096], is_attribute_byte: bool) -> u8 {
        if !is_attribute_byte {
            self.maybe_latch_exram(addr);
        }
        self.nametable_byte(addr, ppu_vram, is_attribute_byte)
    }

    open spec fn vram_offset(&self, addr: u16) -> int {
        (if self.has_four_screen {
            (addr & 0x0FFF) as int
        } else if self.nt_map[((addr & 0x0FFF) / 0x0400) as int % 4] == 1 {
            0x0400 + (addr & 0x03FF) as int
        } else {
            (addr & 0x03FF) as int
        })
    }

    /// Four-screen keeps all 4 KiB; otherwise each nametable goes to the
    /// VRAM page its two mapping bits name (page 1 for 1, page 0 else).
    fn mirror_vram_address(&self, addr: u16) -> (r: usize)
        ensures
            r == self.vram_offset(addr),
    {
        let normalized = (addr & 0x0FFF) as usize;
        proof {
            crate::bits::lemma_word_fields(addr);
        }
        if self.has_four_screen {
            return normalized;
        }
        let nt_index = (normalized / 0x0400) % 4;
        if self.nt_map[nt_index] == 1 {
            0x0400 + (normalized % 0x0400)
        } else {
            normalized % 0x0400
        }
    }

    /// Counts scanlines inside the frame; reaching the target with the IRQ
    /// enabled raises it.
    fn clock_scanline(&mut self)
        ensures
            !old(self).in_frame ==> final(self).irq_counter == old(self).irq_counter,
            old(self).in_frame ==> final(self).irq_counter == (if old(self).irq_counter == 0xFFFF {
                0xFFFFu16
            } else {
                (old(self).irq_counter + 1) as u16
            }),
            final(self).in_frame == old(self).in_frame,
            final(self).prg_ram == old(self).prg_ram,
    {
        if !self.in_frame {
            return;
        }
        let next = self.irq_counter.saturating_add(1);
        self.irq_counter = next;
        if next == self.irq_target as u16 && self.irq_enabled {
            self.irq_pending.set(true);
        }
    }

    fn notify_frame_start(&mut self)
        ensures
            final(self).in_frame,
            final(self).irq_counter == 0,
            final(self).prg_ram == old(self).prg_ram,
    {
        self.in_frame = true;
        self.irq_counter = 0;
    }

    /// (right side?, tile count) when the split is enabled.
    fn split_config(&self) -> (r: Option<(bool, u8)>)
        ensures
            r == (if self.split_ctrl & 0x80 != 0 {
                Some((self.split_ctrl & 0x40 != 0, self.split_ctrl & 0x1F))
            } else {
                None
            }),
    {
        if (self.split_ctrl & 0x80) != 0 {
            Some(((self.split_ctrl & 0x40) != 0, self.split_ctrl & 0x1F))
        } else {
            None
        }
    }

    /// The pattern bytes and palette of pixel column `screen_x` of the split
    /// region on `scanline`, from the extended-RAM nametable.
    #[verifier::spinoff_prover]
    fn read_split_tile(&self, screen_x: usize, scanline: usize) -> (r: (u8, u8, u8))
        ensures
            ({
                let row = (scanline + self.split_scroll) % 256;
                let tile_row = row / 8;
                let tile_col = screen_x / 8;
                let attr = self.ex_ram[0x3C0 + (tile_row / 4) * 8 + tile_col / 4];
                let shift = ((tile_row / 2) % 2) * 4 + ((tile_col / 2) % 2) * 2;
                r.2 == (attr >> (shift as u8)) & 0x03
            }),
    {
        let sum = scanline + self.split_scroll as usize;
        let effective_row = sum & 0xFF;
        proof {
            lemma_mmc5_bits(0, 0, false, false, sum, 0, 0);
        }
        let tile_row = effective_row / 8;
        let fine_y = effective_row % 8;
        let tile_col = screen_x / 8;
        let tile_id = self.ex_ram[tile_row * 32 + tile_col];
        let attr_byte = self.ex_ram[0x3C0 + (tile_row / 4) * 8 + (tile_col / 4)];
        let shift = (((tile_row >> 1usize) & 1) << 2usize) | (((tile_col >> 1usize) & 1) << 1usize);
        proof {
            lemma_mmc5_bits(0, 0, false, false, 0, tile_row, tile_col);
        }
        let palette_idx = (attr_byte >> (shift as u8)) & 0x03;
        let pattern_addr = (self.split_chr_page as usize * 0x1000) + (tile_id as usize * 16) + fine_y;
        let bg_low = self.chr_fetch(pattern_addr as u16, pattern_addr, false);
        let bg_high = self.chr_fetch(pattern_addr as u16, pattern_addr + 8, false);
        (bg_low, bg_high, palette_idx)
    }
}

} // verus!
