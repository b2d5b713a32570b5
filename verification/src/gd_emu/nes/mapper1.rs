use vstd::prelude::*;
use crate::gd_emu::nes::mappers::{Mapper, Mirroring, mirror_nametable, mirror_spec, cycles_after, advance_cycles};

verus! {

/// MMC1: a 5-bit serial register, loaded one bit per write at $8000-$FFFF,
/// feeds the control, CHR and PRG registers; bit 7 of a write resets it.
/// Of two writes on consecutive CPU cycles the second is ignored.
pub struct Mapper1 {
    pub prg_banks: usize,
    pub chr_banks: usize,
    pub mirroring_mode: Mirroring,
    pub has_four_screen: bool,
    pub prg_rom: Vec<u8>,
    pub prg_ram: Vec<u8>,
    pub chr_rom: Vec<u8>,
    pub chr_ram: Vec<u8>,
    pub shift_reg: u8,
    pub write_count: u8,
    pub control: u8,
    pub chr_bank_0: u8,
    pub chr_bank_1: u8,
    pub prg_bank: u8,
    pub sram_dirty: bool,
    pub last_write_cycle: i64,
    pub current_cycle: i64,
}

/// The mirroring that control bits 0-1 select.
pub open spec fn mmc1_mirroring(control: u8) -> Mirroring {
    match control & 0x03 {
        0 => Mirroring::SingleLower,
        1 => Mirroring::SingleUpper,
        2 => Mirroring::Vertical,
        _ => Mirroring::Horizontal,
    }
}

/// The size of the SUROM boards' PRG-ROM (512 KiB), whose CHR registers
/// also pick a 256 KiB half.
pub open spec fn is_surom_size(len: int) -> bool {
    len == 524288
}

impl Mapper1 {
    pub open spec fn wf(&self) -> bool {
        &&& 1 <= self.prg_banks <= 0x10000
        &&& self.prg_rom.len() > 0
        &&& self.prg_ram.len() == 8192
        &&& (self.chr_ram.len() == 0 || self.chr_ram.len() == 8192)
        &&& (if self.chr_banks == 0 { self.chr_ram.len() > 0 } else { self.chr_rom.len() > 0 })
        &&& self.write_count < 5
    }

    /// PRG-RAM is off when bit 4 of the PRG register is set, except on SUROM.
    pub open spec fn ram_disabled(&self) -> bool {
        !is_surom_size(self.prg_rom.len() as int) && (self.prg_bank & 0x10) != 0
    }

    /// SUROM's 256 KiB half for `addr`, from bit 4 of a CHR register.
    pub open spec fn surom_half(&self, addr: u16) -> int {
        if !is_surom_size(self.prg_rom.len() as int) {
            0
        } else if (self.control >> 4u8) & 1 == 0 || addr < 0xC000 {
            ((self.chr_bank_0 & 0x10) >> 4u8) as int
        } else {
            ((self.chr_bank_1 & 0x10) >> 4u8) as int
        }
    }

    /// The 16 KiB PRG bank at CPU address `addr` (at or above $8000).
    pub open spec fn prg_bank_index(&self, addr: u16) -> int {
        let base = self.surom_half(addr) * 16;
        let mode = (self.control >> 2u8) & 0x03;
        if mode <= 1 {
            base + (self.prg_bank & 0xFE) + (if addr < 0xC000 { 0int } else { 1 })
        } else if mode == 2 {
            if addr < 0xC000 { base } else { base + (self.prg_bank & 0x0F) }
        } else if addr < 0xC000 {
            base + (self.prg_bank & 0x0F)
        } else if is_surom_size(self.prg_rom.len() as int) {
            base + 15
        } else {
            self.prg_banks - 1
        }
    }

    pub open spec fn cpu_byte(&self, addr: u16) -> u8 {
        if 0x6000 <= addr < 0x8000 {
            if self.ram_disabled() { 0 } else { self.prg_ram@[addr - 0x6000] }
        } else if addr >= 0x8000 {
            self.prg_rom@[(self.prg_bank_index(addr) * 16384 + (addr & 0x3FFF)) % (self.prg_rom.len() as int)]
        } else {
            0
        }
    }

    pub open spec fn ppu_byte(&self, addr: u16) -> u8 {
        if addr >= 0x2000 {
            0
        } else if self.chr_banks == 0 {
            self.chr_ram@[(addr as int) % (self.chr_ram.len() as int)]
        } else if (self.control >> 4u8) & 0x01 == 1 {
            if addr < 0x1000 {
                self.chr_rom@[(self.chr_bank_0 * 4096 + addr) % (self.chr_rom.len() as int)]
            } else {
                self.chr_rom@[(self.chr_bank_1 * 4096 + (addr - 0x1000)) % (self.chr_rom.len() as int)]
            }
        } else {
            self.chr_rom@[((self.chr_bank_0 & 0xFE) * 4096 + addr) % (self.chr_rom.len() as int)]
        }
    }

    /// Whether a write at $8000-$FFFF is ignored: the first write after
    /// power-on, and one on the cycle right after the previous accepted
    /// write.
    pub open spec fn write_suppressed(&self) -> bool {
        self.last_write_cycle < 0
            || vstd::wrapping::i64_specs::wrapping_sub(self.current_cycle, self.last_write_cycle) <= 1
    }

    /// The registers after an accepted serial write of `value` at `addr`.
    pub open spec fn after_serial_write(&self, addr: u16, value: u8) -> Mapper1 {
        let s = Mapper1 { last_write_cycle: self.current_cycle, ..*self };
        if value & 0x80 != 0 {
            let control = s.control | 0x0C;
            Mapper1 { shift_reg: 0x10, write_count: 0, control, mirroring_mode: mmc1_mirroring(control), ..s }
        } else {
            let shift = (s.shift_reg >> 1u8) | ((value & 0x01) << 4u8);
            if s.write_count + 1 < 5 {
                Mapper1 { shift_reg: shift, write_count: (s.write_count + 1) as u8, ..s }
            } else {
                let t = Mapper1 { shift_reg: 0x10, write_count: 0, ..s };
                match (addr >> 13u16) & 0x03 {
                    0 => Mapper1 { control: shift, mirroring_mode: mmc1_mirroring(shift), ..t },
                    1 => Mapper1 { chr_bank_0: shift, ..t },
                    2 => Mapper1 { chr_bank_1: shift, ..t },
                    _ => Mapper1 { prg_bank: shift, ..t },
                }
            }
        }
    }

    pub fn new(
        prg_banks: usize,
        chr_banks: usize,
        prg_rom: Vec<u8>,
        chr_rom: Vec<u8>,
        initial_mirroring: Mirroring,
        four_screen_bit: bool,
    ) -> (r: Self)
        ensures
            r.prg_banks == prg_banks,
            r.chr_banks == chr_banks,
            r.mirroring_mode == initial_mirroring,
            r.has_four_screen == four_screen_bit,
            r.prg_rom@ == prg_rom@,
            r.chr_rom@ == chr_rom@,
            r.prg_ram.len() == 8192,
            forall|i: int| 0 <= i < r.prg_ram.len() ==> #[trigger] r.prg_ram@[i] == 0,
            r.chr_ram.len() == (if chr_banks == 0 { 8192int } else { 0 }),
            forall|i: int| 0 <= i < r.chr_ram.len() ==> #[trigger] r.chr_ram@[i] == 0,
            r.shift_reg == 0x10,
            r.control == 0x0C,
            r.chr_bank_0 == 0 && r.chr_bank_1 == 0 && r.prg_bank == 0,
            r.write_count == 0,
            !r.sram_dirty,
            r.last_write_cycle == -1,
            r.current_cycle == 0,
            r.wf() <==> (1 <= prg_banks <= 0x10000 && prg_rom.len() > 0 && (chr_banks == 0 || chr_rom.len() > 0)),
    {
        let prg_ram = vec![0u8; 8192];
        let chr_ram = if chr_banks == 0 { vec![0u8; 8192] } else { Vec::new() };
        Self {
            prg_banks,
            chr_banks,
            mirroring_mode: initial_mirroring,
            has_four_screen: four_screen_bit,
            prg_rom,
            prg_ram,
            chr_rom,
            chr_ram,
            shift_reg: 0x10,
            control: 0x0C,
            chr_bank_0: 0,
            chr_bank_1: 0,
            prg_bank: 0,
            write_count: 0,
            sram_dirty: false,
            last_write_cycle: -1,
            current_cycle: 0,
        }
    }

    fn update_mirroring(&mut self)
        ensures
            *final(self) == (Mapper1 { mirroring_mode: mmc1_mirroring(old(self).control), ..*old(self) }),
    {
        match self.control & 0x03 {
            0 => self.mirroring_mode = Mirroring::SingleLower,
            1 => self.mirroring_mode = Mirroring::SingleUpper,
            2 => self.mirroring_mode = Mirroring::Vertical,
            _ => self.mirroring_mode = Mirroring::Horizontal,
        }
    }

    /// The part of a write at $8000-$FFFF after the timing check.
    #[verifier::spinoff_prover]
    fn serial_write(&mut self, addr: u16, value: u8)
        requires
            old(self).wf(),
        ensures
            *final(self) == old(self).after_serial_write(addr, value),
    {
        self.last_write_cycle = self.current_cycle;
        if (value & 0x80) != 0 {
            self.shift_reg = 0x10;
            self.write_count = 0;
            self.control = self.control | 0x0C;
            self.update_mirroring();
            return;
        }
        let bit = value & 0x01;
        self.shift_reg = (self.shift_reg >> 1u8) | (bit << 4u8);
        self.write_count = self.write_count + 1;
        if self.write_count == 5 {
            let target_reg = (addr >> 13u16) & 0x03;
            match target_reg {
                0 => {
                    self.control = self.shift_reg;
                    self.update_mirroring();
                },
                1 => {
                    self.chr_bank_0 = self.shift_reg;
                },
                2 => {
                    self.chr_bank_1 = self.shift_reg;
                },
                _ => {
                    self.prg_bank = self.shift_reg;
                },
            }
            self.shift_reg = 0x10;
            self.write_count = 0;
        }
    }
}

/// Five serial bits, least significant first.
pub open spec fn serial_value(v0: u8, v1: u8, v2: u8, v3: u8, v4: u8) -> u8 {
    (v0 & 1) | ((v1 & 1) << 1u8) | ((v2 & 1) << 2u8) | ((v3 & 1) << 3u8) | ((v4 & 1) << 4u8)
}

proof fn lemma_shift_five(x: u8, v0: u8, v1: u8, v2: u8, v3: u8, v4: u8)
    by (bit_vector)
    requires
        x <= 0x1F,
    ensures
        ({
            let x1 = (x >> 1u8) | ((v0 & 1) << 4u8);
            let x2 = (x1 >> 1u8) | ((v1 & 1) << 4u8);
            let x3 = (x2 >> 1u8) | ((v2 & 1) << 4u8);
            let x4 = (x3 >> 1u8) | ((v3 & 1) << 4u8);
            (x4 >> 1u8) | ((v4 & 1) << 4u8)
        }) == serial_value(v0, v1, v2, v3, v4),
        (x >> 1u8) | ((v0 & 1) << 4u8) <= 0x1F,
{
}

/// Five accepted serial writes without the reset bit, starting from an
/// empty shift register, load bit 0 of each value (first write lowest) into
/// the register that the fifth write's address selects, and empty the
/// shift register again.
pub proof fn lemma_five_writes_load(s: Mapper1, a0: u16, a1: u16, a2: u16, a3: u16, a4: u16, v0: u8, v1: u8, v2: u8, v3: u8, v4: u8)
    requires
        s.write_count == 0,
        s.shift_reg <= 0x1F,
        v0 & 0x80 == 0 && v1 & 0x80 == 0 && v2 & 0x80 == 0 && v3 & 0x80 == 0 && v4 & 0x80 == 0,
    ensures
        ({
            let t = s.after_serial_write(a0, v0).after_serial_write(a1, v1).after_serial_write(a2, v2)
                .after_serial_write(a3, v3).after_serial_write(a4, v4);
            let v = serial_value(v0, v1, v2, v3, v4);
            &&& t.write_count == 0
            &&& t.shift_reg == 0x10
            &&& ((a4 >> 13u16) & 3 == 0 ==> t.control == v && t.mirroring_mode == mmc1_mirroring(v))
            &&& ((a4 >> 13u16) & 3 == 1 ==> t.chr_bank_0 == v)
            &&& ((a4 >> 13u16) & 3 == 2 ==> t.chr_bank_1 == v)
            &&& ((a4 >> 13u16) & 3 == 3 ==> t.prg_bank == v)
        }),
{
    lemma_shift_five(s.shift_reg, v0, v1, v2, v3, v4);
    let x1 = (s.shift_reg >> 1u8) | ((v0 & 1) << 4u8);
    lemma_shift_five(x1, v1, v2, v3, v4, 0);
    let x2 = (x1 >> 1u8) | ((v1 & 1) << 4u8);
    lemma_shift_five(x2, v2, v3, v4, 0, 0);
    let x3 = (x2 >> 1u8) | ((v2 & 1) << 4u8);
    lemma_shift_five(x3, v3, v4, 0, 0, 0);
    crate::bits::lemma_word_fields(a4);
}

/// A write with bit 7 set empties the shift register and selects PRG mode 3
/// (16 KiB switched at $8000, last bank fixed at $C000).
pub proof fn lemma_reset_write(s: Mapper1, addr: u16, value: u8)
    requires
        value & 0x80 != 0,
    ensures
        s.after_serial_write(addr, value).write_count == 0,
        s.after_serial_write(addr, value).shift_reg == 0x10,
        (s.after_serial_write(addr, value).control >> 2u8) & 3 == 3,
{
    let c = s.control;
    crate::bits::lemma_byte_fields(c);
}

impl Mapper for Mapper1 {
    open spec fn sram(&self) -> Option<Seq<u8>> {
        Some(self.prg_ram@)
    }

    open spec fn sram_changed(&self) -> bool {
        self.sram_dirty
    }

    open spec fn inv(&self) -> bool {
        self.wf()
    }

    fn step_cycles(&mut self, cycles: u64)
        ensures
            *final(self) == (Mapper1 { current_cycle: cycles_after(old(self).current_cycle, cycles), ..*old(self) }),
    {
        self.current_cycle = advance_cycles(self.current_cycle, cycles);
    }

    fn total_cycles(&self) -> (r: u64)
        ensures
            r == self.current_cycle as u64,
    {
        self.current_cycle as u64
    }

    fn get_sram(&self) -> (r: Option<&[u8]>)
        ensures
            r is Some && r.unwrap()@ == self.prg_ram@,
    {
        Some(self.prg_ram.as_slice())
    }

    /// Takes a battery image only of exactly the PRG-RAM's size.
    fn load_sram(&mut self, data: &[u8])
        ensures
            final(self).prg_ram@ == (if data@.len() == old(self).prg_ram@.len() { data@ } else { old(self).prg_ram@ }),
            *final(self) == (Mapper1 { prg_ram: final(self).prg_ram, ..*old(self) }),
    {
        if data.len() == self.prg_ram.len() {
            let n = data.len();
            let mut i: usize = 0;
            while i < n
                invariant
                    n == data@.len(),
                    self.prg_ram@.len() == n,
                    i <= n,
                    forall|j: int| 0 <= j < i ==> self.prg_ram@[j] == data@[j],
                    *self == (Mapper1 { prg_ram: self.prg_ram, ..*old(self) }),
                decreases n - i,
            {
                self.prg_ram.set(i, data[i]);
                i = i + 1;
            }
            assert(self.prg_ram@ == data@);
        }
    }

    fn is_sram_dirty(&self) -> (r: bool)
        ensures
            r == self.sram_dirty,
    {
        self.sram_dirty
    }

    fn clear_sram_dirty(&mut self)
        ensures
            *final(self) == (Mapper1 { sram_dirty: false, ..*old(self) }),
    {
        self.sram_dirty = false;
    }

    #[verifier::spinoff_prover]
    fn cpu_read(&self, addr: u16) -> (r: u8)
        ensures
            r == self.cpu_byte(addr),
    {
        if addr >= 0x6000 && addr < 0x8000 {
            let ram_disabled = if self.prg_rom.len() == 524288 { false } else { (self.prg_bank & 0x10) != 0 };
            if ram_disabled {
                return 0x00;
            }
            if self.prg_ram.len() > 0 {
                return self.prg_ram[(addr - 0x6000) as usize];
            }
            return 0x00;
        }
        if addr >= 0x8000 {
            let prg_mode = (self.control >> 2u8) & 0x03;
            let mut surom_bank_ext: usize = 0;
            if self.prg_rom.len() == 524288 {
                let chr_mode = (self.control >> 4u8) & 1;
                if chr_mode == 0 {
                    surom_bank_ext = ((self.chr_bank_0 & 0x10) >> 4u8) as usize;
                } else {
                    if addr < 0xC000 {
                        surom_bank_ext = ((self.chr_bank_0 & 0x10) >> 4u8) as usize;
                    } else {
                        surom_bank_ext = ((self.chr_bank_1 & 0x10) >> 4u8) as usize;
                    }
                }
            }
            proof {
                crate::bits::lemma_byte_fields(self.chr_bank_0);
                crate::bits::lemma_byte_fields(self.chr_bank_1);
                crate::bits::lemma_byte_fields(self.control);
                crate::bits::lemma_byte_fields(self.prg_bank);
                crate::bits::lemma_word_fields(addr);
            }
            let prg_base_bank = surom_bank_ext * 16;
            let bank_idx: usize = if prg_mode <= 1 {
                let base = self.prg_bank as usize & 0xFE;
                if addr < 0xC000 { prg_base_bank + base } else { prg_base_bank + base + 1 }
            } else if prg_mode == 2 {
                if addr < 0xC000 { prg_base_bank } else { prg_base_bank + (self.prg_bank & 0x0F) as usize }
            } else {
                if addr < 0xC000 {
                    prg_base_bank + (self.prg_bank & 0x0F) as usize
                } else if self.prg_rom.len() == 524288 {
                    prg_base_bank + 15
                } else {
                    self.prg_banks - 1
                }
            };
            let offset = (bank_idx * 16384) + (addr & 0x3FFF) as usize;
            return self.prg_rom[offset % self.prg_rom.len()];
        }
        0
    }

    #[verifier::spinoff_prover]
    fn cpu_write(&mut self, addr: u16, value: u8)
        ensures
            0x6000 <= addr < 0x8000 ==> *final(self) == (if old(self).ram_disabled() {
                *old(self)
            } else {
                Mapper1 {
                    prg_ram: final(self).prg_ram,
                    sram_dirty: true,
                    ..*old(self)
                }
            }),
            0x6000 <= addr < 0x8000 && !old(self).ram_disabled()
                ==> final(self).prg_ram@ == old(self).prg_ram@.update(addr - 0x6000, value),
            addr < 0x6000 ==> *final(self) == *old(self),
            addr >= 0x8000 && old(self).write_suppressed() ==> *final(self) == (Mapper1 {
                last_write_cycle: if old(self).last_write_cycle < 0 { 0 } else { old(self).last_write_cycle },
                ..*old(self)
            }),
            addr >= 0x8000 && !old(self).write_suppressed() ==> *final(self) == old(self).after_serial_write(addr, value),
    {
        if addr >= 0x6000 && addr < 0x8000 {
            let ram_disabled = if self.prg_rom.len() == 524288 { false } else { (self.prg_bank & 0x10) != 0 };
            if !ram_disabled && self.prg_ram.len() > 0 {
                let index = (addr - 0x6000) as usize % self.prg_ram.len();
                self.prg_ram.set(index, value);
                self.sram_dirty = true;
            }
            return;
        }
        if addr < 0x8000 {
            return;
        }
        let mut suppressed: bool = false;
        if self.last_write_cycle < 0 || self.current_cycle.wrapping_sub(self.last_write_cycle) <= 1 {
            if self.last_write_cycle < 0 {
                self.last_write_cycle = 0;
            }
            suppressed = true;
        }
        if suppressed {
            return;
        }
        self.serial_write(addr, value);
    }

    #[verifier::spinoff_prover]
    open spec fn chr_read(&self, addr: u16, v: u8) -> bool {
        v == self.ppu_byte(addr)
    }

    fn ppu_read(&self, addr: u16) -> (r: u8)
        ensures
            self.chr_read(addr, r),
            r == self.ppu_byte(addr),
    {
        if addr < 0x2000 {
            if self.chr_banks == 0 {
                return self.chr_ram[addr as usize % self.chr_ram.len()];
            }
            let chr_mode = (self.control >> 4u8) & 0x01;
            if chr_mode == 1 {
                if addr < 0x1000 {
                    let bank = self.chr_bank_0 as usize;
                    let offset = (bank * 4096) + addr as usize;
                    return self.chr_rom[offset % self.chr_rom.len()];
                } else {
                    let bank = self.chr_bank_1 as usize;
                    let offset = (bank * 4096) + (addr - 0x1000) as usize;
                    return self.chr_rom[offset % self.chr_rom.len()];
                }
            } else {
                let bank = (self.chr_bank_0 & 0xFE) as usize;
                let offset = (bank * 4096) + addr as usize;
                return self.chr_rom[offset % self.chr_rom.len()];
            }
        }
        0
    }

    fn ppu_write(&mut self, addr: u16, value: u8)
        ensures
            final(self).chr_ram@ == (if addr < 0x2000 && old(self).chr_ram.len() > 0 {
                old(self).chr_ram@.update(addr as int, value)
            } else {
                old(self).chr_ram@
            }),
            *final(self) == (Mapper1 { chr_ram: final(self).chr_ram, ..*old(self) }),
    {
        if addr < 0x2000 && self.chr_ram.len() > 0 {
            self.chr_ram.set(addr as usize, value);
        }
    }

    open spec fn vram_offset(&self, addr: u16) -> int {
        mirror_spec(self.mirroring_mode, self.has_four_screen, addr) as int
    }

    fn mirror_vram_address(&self, addr: u16) -> (r: usize)
        ensures
            r == self.vram_offset(addr),
    {
        mirror_nametable(self.mirroring_mode, self.has_four_screen, addr)
    }
}

} // verus!
