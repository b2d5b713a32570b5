use vstd::prelude::*;
use crate::gd_emu::nes::mappers::{Mapper, Mirroring, mirror_nametable, mirror_spec, cycles_after, advance_cycles};
use crate::gd_emu::nes::mappers::mapper2::lemma_bank_offset;

verus! {

/// AxROM: one switchable 32 KiB PRG bank and single-screen mirroring, both
/// chosen by any write to $8000-$FFFF.
pub struct Mapper7 {
    pub prg_banks: usize,
    pub prg_bank_count: usize,
    pub prg_bank: u8,
    pub chr_banks: usize,
    pub chr_rom_size: usize,
    pub mirroring_mode: Mirroring,
    pub has_four_screen: bool,
    pub prg_rom: Vec<u8>,
    pub prg_ram: Vec<u8>,
    pub chr_rom: Vec<u8>,
    pub chr_ram: Vec<u8>,
    pub current_cycle: i64,
    pub sram_dirty: bool,
}

/// The state of an AxROM board that a save keeps.
pub struct Mapper7StateVariables {
    pub prg_banks: u8,
    pub mirroring_mode: Mirroring,
    pub prg_ram: Vec<u8>,
    pub chr_ram: Vec<u8>,
}

impl Mapper7 {
    /// The state a save keeps (the bank count in eight bits).
    pub fn state_variables(&self) -> (r: Mapper7StateVariables)
        ensures
            r.prg_banks == self.prg_banks as u8,
            r.mirroring_mode == self.mirroring_mode,
            r.prg_ram@ == self.prg_ram@,
            r.chr_ram@ == self.chr_ram@,
    {
        Mapper7StateVariables {
            prg_banks: self.prg_banks as u8,
            mirroring_mode: self.mirroring_mode,
            prg_ram: self.prg_ram.clone(),
            chr_ram: self.chr_ram.clone(),
        }
    }

    /// Restores a saved state.
    pub fn restore_state_variables(&mut self, v: Mapper7StateVariables)
        ensures
            *final(self) == (Mapper7 {
                prg_banks: v.prg_banks as usize,
                mirroring_mode: v.mirroring_mode,
                prg_ram: final(self).prg_ram,
                chr_ram: final(self).chr_ram,
                ..*old(self)
            }),
            final(self).prg_ram@ == v.prg_ram@,
            final(self).chr_ram@ == v.chr_ram@,
    {
        self.prg_banks = v.prg_banks as usize;
        self.mirroring_mode = v.mirroring_mode;
        self.prg_ram = v.prg_ram;
        self.chr_ram = v.chr_ram;
    }


    pub open spec fn wf(&self) -> bool {
        &&& self.prg_bank_count >= 1
        &&& self.prg_rom.len() >= self.prg_bank_count * 0x8000
        &&& self.chr_rom_size == self.chr_rom.len()
        &&& (self.chr_rom_size > 0 || self.chr_ram.len() > 0)
        &&& (self.chr_banks == 0 ==> self.chr_ram.len() == 8192)
    }

    /// CHR byte `addr`, folded to the size of whichever CHR memory is there.
    pub open spec fn chr_byte(&self, addr: int) -> u8 {
        if self.chr_rom_size > 0 {
            self.chr_rom@[addr % (self.chr_rom_size as int)]
        } else {
            self.chr_ram@[addr % (self.chr_ram.len() as int)]
        }
    }

    /// The board after `value` is written to its register: bits 0-2 pick
    /// the 32 KiB PRG bank, bit 4 the one-screen nametable.
    pub open spec fn register_written(self, value: u8) -> Self {
        Mapper7 {
            prg_bank: value & 0x07,
            mirroring_mode: if value & 0x10 == 0 { Mirroring::SingleLower } else { Mirroring::SingleUpper },
            ..self
        }
    }

    pub open spec fn cpu_byte(&self, addr: u16) -> u8 {
        if addr < 0x8000 {
            0
        } else {
            self.prg_rom@[((self.prg_bank as int) % (self.prg_bank_count as int)) * 0x8000 + (addr & 0x7FFF)]
        }
    }

    pub fn new(
        prg_banks: usize,
        chr_banks: usize,
        prg_rom: Vec<u8>,
        chr_rom: Vec<u8>,
        initial_mirroring: Mirroring,
        four_screen_bit: bool,
    ) -> (r: Self)
        ensures
            r.prg_banks == prg_banks,
            r.prg_bank_count == prg_rom.len() / 0x8000,
            r.prg_bank == 0,
            r.chr_banks == chr_banks,
            r.chr_rom_size == chr_rom.len(),
            r.mirroring_mode == initial_mirroring,
            r.has_four_screen == four_screen_bit,
            r.prg_rom@ == prg_rom@,
            r.chr_rom@ == chr_rom@,
            r.prg_ram.len() == 8192,
            r.chr_ram.len() == (if chr_banks == 0 { 8192int } else { 0 }),
            r.current_cycle == 0,
            !r.sram_dirty,
            r.wf() <==> (prg_rom.len() >= 0x8000 && (chr_rom.len() > 0 || chr_banks == 0)),
    {
        let prg_ram = vec![0u8; 8192];
        let chr_ram = if chr_banks == 0 { vec![0u8; 8192] } else { Vec::new() };
        let chr_rom_size = chr_rom.len();
        let prg_bank_count = prg_rom.len() / 0x8000;
        proof {
            vstd::arithmetic::div_mod::lemma_fundamental_div_mod(prg_rom.len() as int, 0x8000);
        }
        Self {
            prg_banks,
            prg_bank_count,
            prg_bank: 0,
            chr_banks,
            chr_rom_size,
            mirroring_mode: initial_mirroring,
            has_four_screen: four_screen_bit,
            prg_rom,
            prg_ram,
            chr_rom,
            chr_ram,
            current_cycle: 0,
            sram_dirty: false,
        }
    }

    fn _chr_read(&self, addr: usize) -> (r: u8)
        requires
            self.wf(),
        ensures
            r == self.chr_byte(addr as int),
    {
        if self.chr_rom_size > 0 {
            self.chr_rom[addr % self.chr_rom_size]
        } else {
            self.chr_ram[addr % self.chr_ram.len()]
        }
    }
}

impl Mapper for Mapper7 {
    open spec fn sram(&self) -> Option<Seq<u8>> {
        None
    }

    open spec fn sram_changed(&self) -> bool {
        false
    }

    fn get_sram(&self) -> (r: Option<&[u8]>) {
        None
    }

    fn load_sram(&mut self, data: &[u8]) {
    }

    fn is_sram_dirty(&self) -> (r: bool) {
        false
    }

    fn clear_sram_dirty(&mut self) {
    }

    open spec fn inv(&self) -> bool {
        self.wf()
    }

    fn step_cycles(&mut self, cycles: u64)
        ensures
            *final(self) == (Mapper7 { current_cycle: cycles_after(old(self).current_cycle, cycles), ..*old(self) }),
    {
        self.current_cycle = advance_cycles(self.current_cycle, cycles);
    }

    fn total_cycles(&self) -> (r: u64)
        ensures
            r == self.current_cycle as u64,
    {
        self.current_cycle as u64
    }

    fn cpu_read(&self, addr: u16) -> (r: u8)
        ensures
            r == self.cpu_byte(addr),
    {
        if addr < 0x8000 {
            return 0;
        }
        let bank = self.prg_bank as usize % self.prg_bank_count;
        let offset = (addr & 0x7FFF) as usize;
        proof {
            crate::bits::lemma_word_fields(addr);
            lemma_bank_offset(bank as int, self.prg_bank_count as int, 0x8000);
        }
        self.prg_rom[(bank * 0x8000) + offset]
    }

    /// Bits 0-2 select the PRG bank, bit 4 the single screen.
    fn cpu_write(&mut self, addr: u16, value: u8)
        ensures
            addr < 0x8000 ==> *final(self) == *old(self),
            addr >= 0x8000 ==> *final(self) == old(self).register_written(value),
    {
        if addr < 0x8000 {
            return;
        }
        self.prg_bank = value & 0x07;
        if (value & 0x10) == 0 {
            self.mirroring_mode = Mirroring::SingleLower;
        } else {
            self.mirroring_mode = Mirroring::SingleUpper;
        }
    }

    open spec fn chr_read(&self, addr: u16, v: u8) -> bool {
        v == (if (addr & 0x3FFF) < 0x2000 { self.chr_byte((addr & 0x3FFF) as int) } else { 0 })
    }

    fn ppu_read(&self, p_addr: u16) -> (r: u8)
        ensures
            self.chr_read(p_addr, r),
            r == (if (p_addr & 0x3FFF) < 0x2000 { self.chr_byte((p_addr & 0x3FFF) as int) } else { 0 }),
    {
        let addr = p_addr & 0x3FFF;
        if addr < 0x2000 {
            return self._chr_read(addr as usize);
        }
        0
    }

    fn ppu_write(&mut self, p_addr: u16, value: u8)
        ensures
            final(self).chr_ram@ == (if (p_addr & 0x3FFF) < 0x2000 && old(self).chr_banks == 0 {
                old(self).chr_ram@.update((p_addr & 0x1FFF) as int, value)
            } else {
                old(self).chr_ram@
            }),
            *final(self) == (Mapper7 { chr_ram: final(self).chr_ram, ..*old(self) }),
    {
        let addr = p_addr & 0x3FFF;
        if addr < 0x2000 && self.chr_banks == 0 {
            proof {
                crate::bits::lemma_word_fields(addr);
                crate::bits::lemma_word_fields(p_addr);
            }
            self.chr_ram.set((addr & 0x1FFF) as usize, value);
        }
    }

    open spec fn vram_offset(&self, addr: u16) -> int {
        mirror_spec(self.mirroring_mode, self.has_four_screen, addr) as int
    }

    fn mirror_vram_address(&self, addr: u16) -> (r: usize)
        ensures
            r == self.vram_offset(addr),
    {
        mirror_nametable(self.mirroring_mode, self.has_four_screen, addr)
    }
}

/// AxROM bank switching: after `v` is written to the register, a read at
/// $8000 + `k` gives byte `k` of 32 KiB bank (`v` mod 8) taken modulo the
/// bank count, and the nametables all map to the lower screen when bit 4 of
/// `v` is clear, to the upper one when it is set.
pub proof fn lemma_axrom_bank_select(m: Mapper7, v: u8, k: u16)
    requires
        k < 0x8000,
    ensures
        m.register_written(v).cpu_byte((0x8000 + k) as u16)
            == m.prg_rom@[((v as int % 8) % (m.prg_bank_count as int)) * 0x8000 + k],
        m.register_written(v).mirroring_mode == (if (v as int / 16) % 2 == 0 { Mirroring::SingleLower } else { Mirroring::SingleUpper }),
{
    crate::bits::lemma_byte_fields(v);
    assert(((0x8000 + k) as u16) & 0x7FFF == k && ((0x8000 + k) as u16) >= 0x8000
        && ((v & 0x10) == 0) == ((v / 16) % 2 == 0)) by (bit_vector)
        requires k < 0x8000;
}

} // verus!
