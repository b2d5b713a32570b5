use vstd::prelude::*;
use crate::gd_emu::nes::mappers::{Mapper, Mirroring, cycles_after, advance_cycles};

verus! {

/// DxROM (Namco 108): eight bank registers, written through a select
/// register at $8000 and a data register at $8001, give four 8 KiB PRG
/// windows and eight 1 KiB CHR windows.
pub struct Mapper206 {
    pub prg_banks: usize,
    pub chr_banks: usize,
    pub bank_registers: [usize; 8],
    pub bank_select: u8,
    pub prg_mode: u8,
    pub chr_mode: u8,
    pub prg_offsets: [usize; 4],
    pub chr_offsets: [usize; 8],
    pub mirroring_mode: Mirroring,
    pub has_four_screen: bool,
    pub prg_rom: Vec<u8>,
    pub prg_ram: Vec<u8>,
    pub chr_rom: Vec<u8>,
    pub chr_ram: Vec<u8>,
    pub current_cycle: i64,
    pub sram_dirty: bool,
}

/// The nametable offset: four-screen keeps all 4 KiB, vertical folds on
/// bit 11, anything else on bit 10 (horizontal).
pub open spec fn dxrom_mirror(mode: Mirroring, four_screen: bool, addr: u16) -> usize {
    let v = (addr & 0x0FFF) as usize;
    if four_screen {
        v
    } else if mode == Mirroring::Vertical {
        v & 0x07FF
    } else {
        ((v >> 1usize) & 0x0400) | (v & 0x03FF)
    }
}

impl Mapper206 {
    pub open spec fn regs_ok(&self) -> bool {
        forall|i: int| 0 <= i < 8 ==> #[trigger] self.bank_registers[i] <= 255
    }

    pub open spec fn wf(&self) -> bool {
        &&& 2 <= self.prg_banks && self.prg_banks * 0x2000 <= usize::MAX
        &&& self.chr_banks * 8 <= usize::MAX
        &&& self.regs_ok()
        &&& self.prg_rom.len() > 0
        &&& self.prg_ram.len() == 8192
        &&& (self.chr_rom.len() > 0 || self.chr_ram.len() > 0)
        &&& self.offsets_ok()
        &&& self.offsets_bounded()
    }

    /// Where CHR address `p_addr` lands: the offset of its 1 KiB window plus
    /// the offset inside the window.
    pub open spec fn chr_offset(&self, p_addr: u16) -> int {
        let addr = p_addr & 0x3FFF;
        self.chr_offsets[(addr as int) / 0x0400] + ((addr & 0x03FF) as int)
    }

    /// The byte the PPU reads at `p_addr`: CHR-ROM, or CHR-RAM on a board
    /// without it, through the CHR windows; 0 above the pattern tables.
    pub open spec fn ppu_byte(&self, p_addr: u16) -> u8 {
        if (p_addr & 0x3FFF) >= 0x2000 {
            0
        } else if self.chr_rom.len() == 0 {
            self.chr_ram@[self.chr_offset(p_addr) % (self.chr_ram.len() as int)]
        } else {
            self.chr_rom@[self.chr_offset(p_addr) % (self.chr_rom.len() as int)]
        }
    }

    pub open spec fn offsets_bounded(&self) -> bool {
        &&& forall|i: int| 0 <= i < 8 ==> #[trigger] self.chr_offsets[i] <= 0x40400
        &&& forall|i: int| 0 <= i < 4 ==> #[trigger] self.prg_offsets[i] + 0x2000 <= usize::MAX
    }

    /// The window offsets agree with the registers and the modes.
    pub open spec fn offsets_ok(&self) -> bool {
        let r = self.bank_registers;
        let last = (self.prg_banks - 1) * 0x2000;
        let second_last = (self.prg_banks - 2) * 0x2000;
        &&& self.prg_offsets[1] == r[7] * 0x2000
        &&& self.prg_offsets[3] == last
        &&& (self.prg_mode == 0 ==> self.prg_offsets[0] == r[6] * 0x2000 && self.prg_offsets[2] == second_last)
        &&& (self.prg_mode != 0 ==> self.prg_offsets[0] == second_last && self.prg_offsets[2] == r[6] * 0x2000)
        &&& {
            let (lo, hi) = if self.chr_mode == 0 { (0int, 4int) } else { (4int, 0int) };
            &&& self.chr_offsets[lo] == (r[0] & 0xFE) * 0x0400
            &&& self.chr_offsets[lo + 1] == (r[0] & 0xFE) * 0x0400 + 0x0400
            &&& self.chr_offsets[lo + 2] == (r[1] & 0xFE) * 0x0400
            &&& self.chr_offsets[lo + 3] == (r[1] & 0xFE) * 0x0400 + 0x0400
            &&& self.chr_offsets[hi] == r[2] * 0x0400
            &&& self.chr_offsets[hi + 1] == r[3] * 0x0400
            &&& self.chr_offsets[hi + 2] == r[4] * 0x0400
            &&& self.chr_offsets[hi + 3] == r[5] * 0x0400
        }
    }

    pub open spec fn cpu_byte(&self, addr: u16) -> u8 {
        if 0x6000 <= addr < 0x8000 {
            self.prg_ram@[addr - 0x6000]
        } else if addr >= 0x8000 {
            let rel = (addr - 0x8000) as u16;
            self.prg_rom@[(self.prg_offsets[(rel / 0x2000) as int] + (rel & 0x1FFF)) % (self.prg_rom.len() as int)]
        } else {
            0
        }
    }

    pub fn new(
        prg_banks: usize,
        chr_banks: usize,
        prg_rom: Vec<u8>,
        chr_rom: Vec<u8>,
        initial_mirroring: Mirroring,
        four_screen_bit: bool,
    ) -> (r: Self)
        requires
            prg_banks >= 2,
            prg_banks * 0x2000 <= usize::MAX,
        ensures
            r.prg_banks == prg_banks,
            r.chr_banks == chr_banks,
            r.bank_registers@ == seq![0usize; 8],
            r.bank_select == 0 && r.prg_mode == 0 && r.chr_mode == 0,
            r.mirroring_mode == initial_mirroring,
            r.has_four_screen == four_screen_bit,
            r.prg_rom@ == prg_rom@,
            r.chr_rom@ == chr_rom@,
            r.prg_ram.len() == 8192,
            r.chr_ram.len() == (if chr_banks == 0 { 8192int } else { 0 }),
            r.offsets_ok(),
            r.offsets_bounded(),
            r.wf() <==> (chr_banks * 8 <= usize::MAX && prg_rom.len() > 0 && (chr_rom.len() > 0 || chr_banks == 0)),
    {
        let prg_ram = vec![0u8; 8192];
        let chr_ram = if chr_banks == 0 { vec![0u8; 8192] } else { Vec::new() };
        let mut mapper = Self {
            prg_banks,
            chr_banks,
            bank_registers: [0; 8],
            bank_select: 0,
            prg_mode: 0,
            chr_mode: 0,
            prg_offsets: [0; 4],
            chr_offsets: [0; 8],
            mirroring_mode: initial_mirroring,
            has_four_screen: four_screen_bit,
            prg_rom,
            prg_ram,
            chr_rom,
            chr_ram,
            current_cycle: 0,
            sram_dirty: false,
        };
        assert(mapper.bank_registers@ == seq![0usize; 8]);
        mapper.update_offsets();
        mapper
    }

    /// Recomputes the window offsets from the registers and the modes.
    #[verifier::spinoff_prover]
    fn update_offsets(&mut self)
        requires
            2 <= old(self).prg_banks && old(self).prg_banks * 0x2000 <= usize::MAX,
            old(self).regs_ok(),
        ensures
            final(self).offsets_ok(),
            final(self).offsets_bounded(),
            *final(self) == (Mapper206 {
                prg_offsets: final(self).prg_offsets,
                chr_offsets: final(self).chr_offsets,
                ..*old(self)
            }),
    {
        let last = self.prg_banks - 1;
        let second_last = self.prg_banks - 2;
        let r = self.bank_registers;
        assert(r[0] <= 255 && r[1] <= 255 && r[2] <= 255 && r[3] <= 255 && r[4] <= 255 && r[5] <= 255 && r[6] <= 255 && r[7] <= 255);
        let r0 = r[0];
        let r1 = r[1];
        proof {
            crate::bits::lemma_usize_fields(r0, 0xFE);
            crate::bits::lemma_usize_fields(r1, 0xFE);
        }
        if self.prg_mode == 0 {
            self.prg_offsets[0] = r[6] * 0x2000;
            self.prg_offsets[1] = r[7] * 0x2000;
            self.prg_offsets[2] = second_last * 0x2000;
            self.prg_offsets[3] = last * 0x2000;
        } else {
            self.prg_offsets[0] = second_last * 0x2000;
            self.prg_offsets[1] = r[7] * 0x2000;
            self.prg_offsets[2] = r[6] * 0x2000;
            self.prg_offsets[3] = last * 0x2000;
        }
        if self.chr_mode == 0 {
            self.chr_offsets[0] = (r[0] & 0xFE) * 0x0400;
            self.chr_offsets[1] = self.chr_offsets[0] + 0x0400;
            self.chr_offsets[2] = (r[1] & 0xFE) * 0x0400;
            self.chr_offsets[3] = self.chr_offsets[2] + 0x0400;
            self.chr_offsets[4] = r[2] * 0x0400;
            self.chr_offsets[5] = r[3] * 0x0400;
            self.chr_offsets[6] = r[4] * 0x0400;
            self.chr_offsets[7] = r[5] * 0x0400;
        } else {
            self.chr_offsets[4] = (r[0] & 0xFE) * 0x0400;
            self.chr_offsets[5] = self.chr_offsets[4] + 0x0400;
            self.chr_offsets[6] = (r[1] & 0xFE) * 0x0400;
            self.chr_offsets[7] = self.chr_offsets[6] + 0x0400;
            self.chr_offsets[0] = r[2] * 0x0400;
            self.chr_offsets[1] = r[3] * 0x0400;
            self.chr_offsets[2] = r[4] * 0x0400;
            self.chr_offsets[3] = r[5] * 0x0400;
        }
    }
}

impl Mapper for Mapper206 {
    open spec fn sram(&self) -> Option<Seq<u8>> {
        None
    }

    open spec fn sram_changed(&self) -> bool {
        false
    }

    fn get_sram(&self) -> (r: Option<&[u8]>) {
        None
    }

    fn load_sram(&mut self, data: &[u8]) {
    }

    fn is_sram_dirty(&self) -> (r: bool) {
        false
    }

    fn clear_sram_dirty(&mut self) {
    }

    open spec fn inv(&self) -> bool {
        self.wf()
    }

    fn step_cycles(&mut self, cycles: u64)
        ensures
            *final(self) == (Mapper206 { current_cycle: cycles_after(old(self).current_cycle, cycles), ..*old(self) }),
    {
        self.current_cycle = advance_cycles(self.current_cycle, cycles);
    }

    fn cpu_read(&self, addr: u16) -> (r: u8)
        ensures
            r == self.cpu_byte(addr),
    {
        if addr >= 0x6000 && addr <= 0x7FFF {
            return self.prg_ram[(addr - 0x6000) as usize];
        }
        if addr >= 0x8000 {
            let bank = ((addr - 0x8000) / 0x2000) as usize;
            proof {
                crate::bits::lemma_word_fields((addr - 0x8000) as u16);
                assert(self.prg_offsets[bank as int] + 0x2000 <= usize::MAX);
            }
            let offset = self.prg_offsets[bank] + ((addr - 0x8000) & 0x1FFF) as usize;
            return self.prg_rom[offset % self.prg_rom.len()];
        }
        0
    }

    /// $6000-$7FFF: PRG-RAM. Even addresses in $8000-$9FFF: bank select and
    /// modes; odd: the selected register (CHR registers masked to the CHR
    /// size, PRG registers to the PRG size).
    #[verifier::spinoff_prover]
    #[verifier::rlimit(50)]
    fn cpu_write(&mut self, addr: u16, value: u8)
        ensures
            0x6000 <= addr < 0x8000 ==> final(self).prg_ram@ == old(self).prg_ram@.update(addr - 0x6000, value)
                && *final(self) == (Mapper206 { prg_ram: final(self).prg_ram, sram_dirty: true, ..*old(self) }),
            0x8000 <= addr < 0xA000 && addr & 1 == 0 ==> {
                &&& final(self).bank_select == value & 0x07
                &&& final(self).prg_mode == (value >> 6u8) & 1
                &&& final(self).chr_mode == (value >> 7u8) & 1
                &&& final(self).bank_registers == old(self).bank_registers
            },
            0x8000 <= addr < 0xA000 && addr & 1 == 1 ==> {
                let reg = old(self).bank_select as int;
                &&& final(self).bank_select == old(self).bank_select
                &&& final(self).prg_mode == old(self).prg_mode
                &&& final(self).chr_mode == old(self).chr_mode
                &&& final(self).bank_registers@ == (if reg <= 5 {
                    old(self).bank_registers@.update(reg, (value as usize) & (if old(self).chr_banks == 0 { usize::MAX } else { (old(self).chr_banks * 8 - 1) as usize }))
                } else if reg <= 7 {
                    old(self).bank_registers@.update(reg, (value as usize) & ((old(self).prg_banks * 2 - 1) as usize))
                } else {
                    old(self).bank_registers@
                })
            },
            (addr < 0x6000 || addr >= 0xA000) ==> *final(self) == *old(self),
    {
        if addr >= 0x6000 && addr <= 0x7FFF {
            self.sram_dirty = true;
            self.prg_ram.set((addr - 0x6000) as usize, value);
        } else if addr >= 0x8000 && addr <= 0x9FFF {
            if (addr & 1) == 0 {
                self.bank_select = value & 0x07;
                self.prg_mode = (value >> 6u8) & 1;
                self.chr_mode = (value >> 7u8) & 1;
                self.update_offsets();
            } else {
                let reg = self.bank_select as usize;
                if reg <= 5 {
                    // a board without CHR-ROM masks nothing off
                    let mask = if self.chr_banks == 0 { usize::MAX } else { (self.chr_banks * 8) - 1 };
                    let v = value as usize & mask;
                    proof {
                        crate::bits::lemma_usize_fields(value as usize, mask);
                    }
                    self.bank_registers[reg] = v;
                } else if reg <= 7 {
                    let mask = (self.prg_banks * 2) - 1;
                    let v = value as usize & mask;
                    proof {
                        crate::bits::lemma_usize_fields(value as usize, mask);
                    }
                    self.bank_registers[reg] = v;
                }
                self.update_offsets();
            }
        }
    }

    open spec fn chr_read(&self, addr: u16, v: u8) -> bool {
        v == self.ppu_byte(addr)
    }

    fn ppu_read(&self, p_addr: u16) -> (r: u8)
        ensures
            self.chr_read(p_addr, r),
            r == self.ppu_byte(p_addr),
    {
        let addr = p_addr & 0x3FFF;
        if addr < 0x2000 {
            let bank = (addr / 0x0400) as usize;
            proof {
                crate::bits::lemma_word_fields(addr);
                assert(self.chr_offsets[bank as int] <= 0x40400);
            }
            let offset = self.chr_offsets[bank] + (addr & 0x03FF) as usize;
            if self.chr_rom.len() == 0 {
                return self.chr_ram[offset % self.chr_ram.len()];
            } else {
                return self.chr_rom[offset % self.chr_rom.len()];
            }
        }
        0
    }

    /// CHR-RAM (on a board without CHR-ROM) takes writes through the CHR
    /// windows.
    fn ppu_write(&mut self, p_addr: u16, value: u8)
        ensures
            final(self).chr_ram@.len() == old(self).chr_ram@.len(),
            *final(self) == (Mapper206 { chr_ram: final(self).chr_ram, ..*old(self) }),
            final(self).chr_ram@ == (if (p_addr & 0x3FFF) < 0x2000 && old(self).chr_rom.len() == 0 {
                old(self).chr_ram@.update(old(self).chr_offset(p_addr) % (old(self).chr_ram.len() as int), value)
            } else {
                old(self).chr_ram@
            }),
    {
        let addr = p_addr & 0x3FFF;
        if addr < 0x2000 {
            if self.chr_rom.len() == 0 {
                let bank = (addr / 0x0400) as usize;
                proof {
                    crate::bits::lemma_word_fields(addr);
                    assert(self.chr_offsets[bank as int] <= 0x40400);
                }
                let offset = self.chr_offsets[bank] + (addr & 0x03FF) as usize;
                let len = self.chr_ram.len();
                self.chr_ram.set(offset % len, value);
            }
        }
    }

    open spec fn vram_offset(&self, addr: u16) -> int {
        dxrom_mirror(self.mirroring_mode, self.has_four_screen, addr) as int
    }

    fn mirror_vram_address(&self, addr: u16) -> (r: usize)
        ensures
            r == self.vram_offset(addr),
    {
        let v = (addr.wrapping_sub(0x2000) as usize) & 0x0FFF;
        proof {
            crate::bits::lemma_word_fields(addr);
            crate::bits::lemma_usize_fields(v, 0);
        }
        if self.has_four_screen {
            return v;
        }
        if self.mirroring_mode == Mirroring::Vertical {
            return v & 0x07FF;
        } else {
            return ((v >> 1usize) & 0x0400) | (v & 0x03FF);
        }
    }
}

} // verus!
