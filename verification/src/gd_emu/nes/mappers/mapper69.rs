use vstd::prelude::*;
use crate::gd_emu::nes::mappers::Mapper;
use crate::gd_emu::nes::mappers::Mirroring;

verus! {

/// Sunsoft FME-7: a command register at $8000 selects which of sixteen
/// internal registers a write to $A000 sets (eight 1 KiB CHR banks, four
/// 8 KiB PRG banks, mirroring, and a CPU-cycle IRQ counter).
pub struct Mapper69 {
    pub prg_rom: Vec<u8>,
    pub chr_rom: Vec<u8>,
    pub prg_ram: [u8; 8192],
    pub command_reg: u8,
    pub chr_regs: [u8; 8],
    pub prg_regs: [u8; 4],
    pub mirroring_mode: u8,
    pub has_four_screen: bool,
    pub irq_enable: bool,
    pub irq_counter_enable: bool,
    pub irq_counter: u16,
    pub irq_pending: bool,
}

/// One CPU cycle of the IRQ counter: it counts down and wraps from 0 to
/// $FFFF.
pub open spec fn count_down(c: u16) -> u16 {
    if c == 0 { 0xFFFF } else { (c - 1) as u16 }
}

/// The counter after `n` cycles.
pub open spec fn counter_after(c: u16, n: nat) -> u16
    decreases n,
{
    if n == 0 { c } else { count_down(counter_after(c, (n - 1) as nat)) }
}

/// The byte of the 8 KiB PRG-ROM bank `bank` at offset `addr & 0x1FFF`,
/// the ROM folded onto its size.
pub open spec fn banked(rom: Seq<u8>, bank: u8, addr: u16) -> u8 {
    rom[(((bank & 0x3F) as int) * 0x2000 + (addr & 0x1FFF) as int) % rom.len() as int]
}

impl Mapper69 {
    pub open spec fn wf(&self) -> bool {
        &&& self.prg_rom.len() >= 0x2000
        &&& self.command_reg <= 0x0F
    }

    pub open spec fn cpu_byte(&self, addr: u16) -> u8 {
        let rom = self.prg_rom@;
        if addr < 0x6000 {
            0
        } else if addr < 0x8000 {
            let reg = self.prg_regs[0];
            if reg & 0x40 != 0 {
                if reg & 0x80 != 0 { self.prg_ram[(addr & 0x1FFF) as int] } else { 0 }
            } else {
                banked(rom, reg, addr)
            }
        } else if addr < 0xA000 {
            banked(rom, self.prg_regs[1], addr)
        } else if addr < 0xC000 {
            banked(rom, self.prg_regs[2], addr)
        } else if addr < 0xE000 {
            banked(rom, self.prg_regs[3], addr)
        } else {
            rom[rom.len() - 0x2000 + (addr & 0x1FFF) as int]
        }
    }

    pub open spec fn chr_byte(&self, addr: u16) -> u8 {
        if addr >= 0x2000 || self.chr_rom.len() == 0 {
            0
        } else {
            let bank = self.chr_regs[(addr / 0x0400) as int];
            self.chr_rom@[(bank * 0x0400 + (addr & 0x03FF)) % (self.chr_rom.len() as int)]
        }
    }

    pub fn new(
        prg_banks: usize,
        chr_banks: usize,
        prg_rom: Vec<u8>,
        chr_rom: Vec<u8>,
        initial_mirroring: Mirroring,
        four_screen_bit: bool,
        submapper: u8,
    ) -> (r: Self)
        ensures
            r.prg_rom@ == prg_rom@,
            r.chr_rom@ == chr_rom@,
            r.has_four_screen == four_screen_bit,
            r.command_reg == 0,
            r.chr_regs@ == seq![0u8, 1, 2, 3, 4, 5, 6, 7],
            r.prg_regs@ == seq![0u8, 0, 1, 2],
            r.mirroring_mode == 0,
            !r.irq_enable && !r.irq_counter_enable && r.irq_counter == 0 && !r.irq_pending,
            r.wf() <==> prg_rom.len() >= 0x2000,
    {
        let r = Self {
            prg_rom,
            chr_rom,
            prg_ram: [0; 8192],
            has_four_screen: four_screen_bit,
            command_reg: 0,
            chr_regs: [0, 1, 2, 3, 4, 5, 6, 7],
            prg_regs: [0, 0, 1, 2],
            mirroring_mode: 0,
            irq_enable: false,
            irq_counter_enable: false,
            irq_counter: 0,
            irq_pending: false,
        };
        assert(r.chr_regs@ == seq![0u8, 1, 2, 3, 4, 5, 6, 7]);
        assert(r.prg_regs@ == seq![0u8, 0, 1, 2]);
        r
    }

    fn read_chr(&self, addr: u16, is_bg_fetch: bool) -> (r: u8)
        ensures
            r == self.chr_byte(addr),
    {
        if addr < 0x2000 {
            let bank_idx = (addr / 0x0400) as usize;
            let bank = self.chr_regs[bank_idx] as usize;
            proof {
                crate::bits::lemma_word_fields(addr);
            }
            let chr_addr = (bank * 0x0400) + (addr & 0x03FF) as usize;
            if self.chr_rom.len() > 0 {
                self.chr_rom[chr_addr % self.chr_rom.len()]
            } else {
                0
            }
        } else {
            0
        }
    }

    fn read_banked(&self, bank: u8, addr: u16) -> (r: u8)
        requires
            self.wf(),
        ensures
            r == banked(self.prg_rom@, bank, addr),
    {
        proof {
            crate::bits::lemma_word_fields(addr);
            crate::bits::lemma_byte_fields(bank);
        }
        let b = (bank & 0x3F) as usize;
        let prg_addr = (b * 0x2000) + (addr & 0x1FFF) as usize;
        self.prg_rom[prg_addr % self.prg_rom.len()]
    }
}

impl Mapper for Mapper69 {
    open spec fn sram(&self) -> Option<Seq<u8>> {
        None
    }

    open spec fn sram_changed(&self) -> bool {
        false
    }

    fn get_sram(&self) -> (r: Option<&[u8]>) {
        None
    }

    fn load_sram(&mut self, data: &[u8]) {
    }

    fn is_sram_dirty(&self) -> (r: bool) {
        false
    }

    fn clear_sram_dirty(&mut self) {
    }

    open spec fn inv(&self) -> bool {
        self.wf()
    }

    fn cpu_read(&self, addr: u16) -> (r: u8)
        ensures
            r == self.cpu_byte(addr),
    {
        proof {
            crate::bits::lemma_word_fields(addr);
        }
        if addr >= 0x6000 && addr <= 0x7FFF {
            let reg_val = self.prg_regs[0];
            let is_ram = (reg_val & 0x40) != 0;
            let ram_enabled = (reg_val & 0x80) != 0;
            if is_ram {
                if ram_enabled {
                    self.prg_ram[(addr & 0x1FFF) as usize]
                } else {
                    0
                }
            } else {
                self.read_banked(reg_val, addr)
            }
        } else if addr >= 0x8000 && addr <= 0x9FFF {
            self.read_banked(self.prg_regs[1], addr)
        } else if addr >= 0xA000 && addr <= 0xBFFF {
            self.read_banked(self.prg_regs[2], addr)
        } else if addr >= 0xC000 && addr <= 0xDFFF {
            self.read_banked(self.prg_regs[3], addr)
        } else if addr >= 0xE000 {
            let last_bank_offset = self.prg_rom.len() - 0x2000;
            let prg_addr = last_bank_offset + (addr & 0x1FFF) as usize;
            self.prg_rom[prg_addr]
        } else {
            0
        }
    }

    /// $6000-$7FFF: PRG-RAM when selected and enabled; $8000-$9FFF: the
    /// command; $A000-$BFFF: the register the command selects.
    #[verifier::spinoff_prover]
    fn cpu_write(&mut self, addr: u16, value: u8)
        ensures
            0x6000 <= addr < 0x8000 ==> *final(self) == (if old(self).prg_regs[0] & 0xC0 == 0xC0 {
                Mapper69 { prg_ram: final(self).prg_ram, ..*old(self) }
            } else {
                *old(self)
            }),
            0x6000 <= addr < 0x8000 && old(self).prg_regs[0] & 0xC0 == 0xC0
                ==> final(self).prg_ram@ == old(self).prg_ram@.update((addr & 0x1FFF) as int, value),
            0x8000 <= addr < 0xA000 ==> *final(self) == (Mapper69 { command_reg: value & 0x0F, ..*old(self) }),
            0xA000 <= addr < 0xC000 ==> {
                let cmd = old(self).command_reg;
                &&& cmd <= 7 ==> *final(self) == (Mapper69 { chr_regs: final(self).chr_regs, ..*old(self) })
                    && final(self).chr_regs@ == old(self).chr_regs@.update(cmd as int, value)
                &&& 8 <= cmd <= 0x0B ==> *final(self) == (Mapper69 { prg_regs: final(self).prg_regs, ..*old(self) })
                    && final(self).prg_regs@ == old(self).prg_regs@.update(cmd - 8, value)
                &&& cmd == 0x0C ==> *final(self) == (Mapper69 { mirroring_mode: value & 0x03, ..*old(self) })
                &&& cmd == 0x0D ==> *final(self) == (Mapper69 {
                    irq_counter_enable: value & 0x01 != 0,
                    irq_enable: value & 0x80 != 0,
                    irq_pending: false,
                    ..*old(self)
                })
                &&& cmd == 0x0E ==> *final(self) == (Mapper69 {
                    irq_counter: (old(self).irq_counter & 0xFF00) | (value as u16),
                    ..*old(self)
                })
                &&& cmd == 0x0F ==> *final(self) == (Mapper69 {
                    irq_counter: (old(self).irq_counter & 0x00FF) | ((value as u16) << 8u16),
                    ..*old(self)
                })
            },
            (addr < 0x6000 || addr >= 0xC000) ==> *final(self) == *old(self),
    {
        proof {
            crate::bits::lemma_byte_fields(value);
            crate::bits::lemma_word_fields(addr);
        }
        if addr >= 0x6000 && addr <= 0x7FFF {
            let reg_val = self.prg_regs[0];
            if (reg_val & 0xC0) == 0xC0 {
                self.prg_ram[(addr & 0x1FFF) as usize] = value;
            }
        } else if addr >= 0x8000 && addr <= 0x9FFF {
            self.command_reg = value & 0x0F;
            proof {
                crate::bits::lemma_byte_fields(value);
            }
        } else if addr >= 0xA000 && addr <= 0xBFFF {
            let cmd = self.command_reg;
            if cmd <= 0x07 {
                self.chr_regs[cmd as usize] = value;
            } else if cmd <= 0x0B {
                self.prg_regs[(cmd - 0x08) as usize] = value;
            } else if cmd == 0x0C {
                self.mirroring_mode = value & 0x03;
            } else if cmd == 0x0D {
                self.irq_counter_enable = (value & 0x01) != 0;
                self.irq_enable = (value & 0x80) != 0;
                self.irq_pending = false;
            } else if cmd == 0x0E {
                let current = self.irq_counter;
                self.irq_counter = (current & 0xFF00) | (value as u16);
            } else if cmd == 0x0F {
                let current = self.irq_counter;
                self.irq_counter = (current & 0x00FF) | ((value as u16) << 8u16);
            }
        }
    }

    open spec fn chr_read(&self, addr: u16, v: u8) -> bool {
        v == self.chr_byte(addr)
    }

    fn ppu_read(&self, addr: u16) -> (r: u8)
        ensures
            self.chr_read(addr, r),
            r == self.chr_byte(addr),
    {
        if addr < 0x2000 {
            self.read_chr(addr, false)
        } else {
            0
        }
    }

    /// CHR is ROM; writes are ignored.
    fn ppu_write(&mut self, addr: u16, value: u8)
        ensures
            *final(self) == *old(self),
    {
    }

    fn ppu_read_ctx(&self, addr: u16, is_bg_fetch: bool) -> (r: u8)
        ensures
            !is_bg_fetch ==> self.chr_read(addr, r),
            r == self.chr_byte(addr),
    {
        if addr < 0x2000 {
            self.read_chr(addr, is_bg_fetch)
        } else {
            0
        }
    }

    /// Mirroring register: 0 vertical, 1 horizontal, 2 and 3 one screen
    /// (page A or B).
    fn read_nametable_byte(&self, addr: u16, ppu_vram: &[u8; 4096], is_attribute_byte: bool) -> (r: u8)
        ensures
            r == ppu_vram[({
                let page: int = if self.mirroring_mode == 0 {
                    ((addr - 0x2000) / 0x0400) % 2
                } else if self.mirroring_mode == 1 {
                    (addr - 0x2000) / 0x0800
                } else if self.mirroring_mode == 3 {
                    1
                } else {
                    0
                };
                page * 0x0400 + (addr & 0x03FF)
            })],
    {
        let offset = (addr & 0x03FF) as usize;
        proof {
            crate::bits::lemma_word_fields(addr);
        }
        let nt_index: usize = if self.mirroring_mode == 0 {
            ((addr - 0x2000) / 0x0400) as usize % 2
        } else if self.mirroring_mode == 1 {
            ((addr - 0x2000) / 0x0800) as usize
        } else if self.mirroring_mode == 3 {
            1
        } else {
            0
        };
        ppu_vram[(nt_index * 0x0400) + offset]
    }

    fn is_irq_asserted(&self) -> (r: bool)
        ensures
            r == self.irq_pending,
    {
        self.irq_pending
    }

    /// With the counter enabled, counts down once per CPU cycle; passing
    /// zero raises the IRQ when IRQs are enabled.
    fn step_cycles(&mut self, cycles: u64)
        ensures
            !old(self).irq_counter_enable ==> *final(self) == *old(self),
            old(self).irq_counter_enable ==> *final(self) == (Mapper69 {
                irq_counter: counter_after(old(self).irq_counter, cycles as nat),
                irq_pending: old(self).irq_pending || (old(self).irq_enable && cycles > old(self).irq_counter),
                ..*old(self)
            }),
    {
        if self.irq_counter_enable {
            let mut counter = self.irq_counter;
            let mut i: u64 = 0;
            while i < cycles
                invariant
                    i <= cycles,
                    counter == counter_after(old(self).irq_counter, i as nat),
                    i <= old(self).irq_counter ==> counter == old(self).irq_counter - i,
                    self.irq_pending == (old(self).irq_pending || (old(self).irq_enable && i > old(self).irq_counter)),
                    *self == (Mapper69 { irq_pending: self.irq_pending, ..*old(self) }),
                decreases cycles - i,
            {
                if counter == 0 {
                    if self.irq_enable {
                        self.irq_pending = true;
                    }
                    counter = 0xFFFF;
                } else {
                    counter = counter - 1;
                }
                i = i + 1;
            }
            self.irq_counter = counter;
        }
    }

    open spec fn vram_offset(&self, addr: u16) -> int {
        (addr & 0x0FFF) as int as int
    }

    /// The nametable offset ignores the mirroring register here; the
    /// nametable reads above apply it.
    fn mirror_vram_address(&self, addr: u16) -> (r: usize)
        ensures
            r == self.vram_offset(addr),
    {
        proof {
            crate::bits::lemma_word_fields(addr);
        }
        let normalized = (addr & 0x0FFF) as usize;
        normalized
    }
}

} // verus!
