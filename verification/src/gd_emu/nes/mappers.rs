use vstd::prelude::*;
use crate::gd_emu::nes::mapper1::Mapper1;
use crate::gd_emu::nes::mappers::mapper0::Mapper0;
use crate::gd_emu::nes::mappers::mapper2::Mapper2;
use crate::gd_emu::nes::mappers::mapper5::Mapper5;
use crate::gd_emu::nes::mappers::mapper7::Mapper7;
use crate::gd_emu::nes::mappers::mapper9::Mapper9;
use crate::gd_emu::nes::mappers::mapper34::{Mapper34, is_nina001_board};
use crate::gd_emu::nes::mappers::mapper64::Mapper64;
use crate::gd_emu::nes::mappers::mapper66::Mapper66;
use crate::gd_emu::nes::mappers::mapper69::Mapper69;
use crate::gd_emu::nes::mappers::mapper206::Mapper206;

pub mod mapper0;
pub mod mapper2;
pub mod mapper5;
pub mod mapper7;
pub mod mapper9;
pub mod mapper34;
pub mod mapper64;
pub mod mapper66;
pub mod mapper69;
pub mod mapper71;
pub mod mapper206;

verus! {

/// The iNES mapper numbers with a board here (10, MMC4, shares MMC2's).
pub open spec fn supported_mapper(mapper_id: u16) -> bool {
    mapper_id == 0 || mapper_id == 1 || mapper_id == 2 || mapper_id == 5 || mapper_id == 7 || mapper_id == 9
        || mapper_id == 10 || mapper_id == 34 || mapper_id == 64 || mapper_id == 66 || mapper_id == 69
        || mapper_id == 206
}

/// The decimal digits of `n`, most significant first (as `Display` writes
/// an unsigned integer).
pub open spec fn decimal(n: nat) -> Seq<char>
    decreases n,
{
    let d = (('0' as u32) + (n % 10) as u32) as char;
    if n < 10 { seq![d] } else { decimal(n / 10).push(d) }
}

/// `std::format!`: the message for a mapper number without a board, the
/// number written in decimal.
#[verifier::external_body]
fn unsupported_mapper_message(mapper_id: u16) -> (r: String)
    ensures
        r@ == "Mapper "@ + decimal(mapper_id as nat) + " not implemented yet"@,
{
    format!("Mapper {} not implemented yet", mapper_id)
}

/// Image sizes (and bank counts from the header) with which the board for
/// `mapper_id` is well formed.
pub open spec fn board_ok(mapper_id: u16, submapper: u8, prg_banks: usize, chr_banks: usize, prg_len: int, chr_len: int) -> bool {
    if mapper_id == 0 {
        (prg_len == 16384 || prg_len >= 0x8000) && (chr_len > 0 || chr_banks == 0)
    } else if mapper_id == 1 {
        1 <= prg_banks <= 0x10000 && prg_len > 0 && (chr_banks == 0 || chr_len > 0)
    } else if mapper_id == 2 {
        prg_banks >= 1 && prg_banks as u8 != 0 && prg_len >= prg_banks * 0x4000 && (chr_banks == 0 || chr_len >= 0x2000)
    } else if mapper_id == 7 {
        prg_len >= 0x8000 && (chr_len > 0 || chr_banks == 0)
    } else if mapper_id == 9 {
        chr_len >= 0x1000 && prg_len >= 3 * 0x2000
    } else if mapper_id == 10 {
        chr_len >= 0x1000 && prg_len >= 0x4000
    } else if mapper_id == 34 {
        if is_nina001_board(submapper, chr_len) {
            prg_len > 0 && chr_len > 0
        } else {
            prg_len >= 0x8000 && (prg_len / 0x8000) as u8 != 0
        }
    } else if mapper_id == 64 {
        chr_len > 0 || chr_banks == 0
    } else if mapper_id == 66 {
        chr_banks as u8 == 0 ==> chr_banks == 0
    } else if mapper_id == 69 {
        prg_len >= 0x2000
    } else if mapper_id == 206 {
        chr_banks * 8 <= usize::MAX && prg_len > 0 && (chr_len > 0 || chr_banks == 0)
    } else {
        true
    }
}

/// Builds the board for an iNES mapper number, or says that there is none.
pub fn make_mapper(
    mapper_id: u16,
    submapper_id: u8,
    prg_banks: usize,
    chr_banks: usize,
    prg_rom: Vec<u8>,
    chr_rom: Vec<u8>,
    initial_mirroring: Mirroring,
    four_screen: bool,
) -> (r: Result<Box<dyn Mapper>, String>)
    requires
        mapper_id == 206 ==> 2 <= prg_banks && prg_banks * 0x2000 <= usize::MAX,
        mapper_id == 64 ==> prg_rom.len() >= 16384,
    ensures
        r is Ok <==> supported_mapper(mapper_id),
        r matches Err(e) ==> e@ == "Mapper "@ + decimal(mapper_id as nat) + " not implemented yet"@,
        r matches Ok(m) ==> (board_ok(mapper_id, submapper_id, prg_banks, chr_banks, prg_rom.len() as int, chr_rom.len() as int)
            ==> m.inv()),
{
    if mapper_id == 0 {
        Ok(Box::new(Mapper0::new(prg_banks, chr_banks, prg_rom, chr_rom, initial_mirroring)))
    } else if mapper_id == 1 {
        Ok(Box::new(Mapper1::new(prg_banks, chr_banks, prg_rom, chr_rom, initial_mirroring, four_screen)))
    } else if mapper_id == 2 {
        Ok(Box::new(Mapper2::new(prg_banks, chr_banks, prg_rom, chr_rom, initial_mirroring, four_screen, submapper_id)))
    } else if mapper_id == 5 {
        Ok(Box::new(Mapper5::new(prg_banks, chr_banks, prg_rom, chr_rom, initial_mirroring, four_screen)))
    } else if mapper_id == 7 {
        Ok(Box::new(Mapper7::new(prg_banks, chr_banks, prg_rom, chr_rom, initial_mirroring, four_screen)))
    } else if mapper_id == 9 || mapper_id == 10 {
        Ok(Box::new(Mapper9::new(prg_banks, chr_banks, prg_rom, chr_rom, initial_mirroring, four_screen, mapper_id == 10)))
    } else if mapper_id == 34 {
        Ok(Box::new(Mapper34::new(prg_banks, chr_banks, prg_rom, chr_rom, initial_mirroring, four_screen, submapper_id)))
    } else if mapper_id == 64 {
        Ok(Box::new(Mapper64::new(prg_banks, chr_banks, prg_rom, chr_rom, initial_mirroring, four_screen, submapper_id)))
    } else if mapper_id == 66 {
        Ok(Box::new(Mapper66::new(prg_banks, chr_banks, prg_rom, chr_rom, initial_mirroring)))
    } else if mapper_id == 69 {
        Ok(Box::new(Mapper69::new(prg_banks, chr_banks, prg_rom, chr_rom, initial_mirroring, four_screen, submapper_id)))
    } else if mapper_id == 206 {
        Ok(Box::new(Mapper206::new(prg_banks, chr_banks, prg_rom, chr_rom, initial_mirroring, four_screen)))
    } else {
        Err(unsupported_mapper_message(mapper_id))
    }
}

/// How the four logical nametables at $2000-$2FFF fold onto the 2 KiB of
/// console VRAM (or onto 4 KiB with cartridge VRAM).
#[derive(Clone, Copy, PartialEq, Eq, Structural)]
pub enum Mirroring {
    Horizontal,
    Vertical,
    /// Everything at $2000 (VRAM 0-1023).
    SingleLower,
    /// Everything at $2400 (VRAM 1024-2047).
    SingleUpper,
    FourScreen,
}

/// The VRAM offset of nametable address `addr` under `mode`; with
/// `four_screen` the cartridge supplies all 4 KiB and nothing folds.
pub open spec fn mirror_spec(mode: Mirroring, four_screen: bool, addr: u16) -> int {
    let n = (addr & 0x0FFF) as int;
    if four_screen {
        n
    } else {
        match mode {
            Mirroring::Horizontal => if n < 0x800 { n % 0x400 } else { 0x400 + n % 0x400 },
            Mirroring::Vertical => n % 0x800,
            Mirroring::SingleLower => n % 0x400,
            Mirroring::SingleUpper => 0x400 + n % 0x400,
            Mirroring::FourScreen => n,
        }
    }
}

/// The nametable mirroring shared by the boards that honour every mode and
/// the four-screen bit of the header.
pub fn mirror_nametable(mode: Mirroring, four_screen: bool, addr: u16) -> (r: usize)
    ensures
        r == mirror_spec(mode, four_screen, addr),
        r < 0x1000,
{
    proof {
        crate::bits::lemma_word_fields(addr);
    }
    let normalized = (addr & 0x0FFF) as usize;
    if four_screen {
        return normalized;
    }
    match mode {
        Mirroring::Horizontal => {
            if normalized < 0x800 {
                normalized % 0x400
            } else {
                0x400 + (normalized % 0x400)
            }
        },
        Mirroring::Vertical => normalized % 0x800,
        Mirroring::SingleLower => normalized % 0x400,
        Mirroring::SingleUpper => 0x400 + (normalized % 0x400),
        Mirroring::FourScreen => normalized,
    }
}

/// A board's cycle counter after `cycles` more CPU cycles (two's-complement
/// wrap-around at the end of the 64-bit range).
pub open spec fn cycles_after(c: i64, cycles: u64) -> i64 {
    vstd::wrapping::i64_specs::wrapping_add(c, cycles as i64)
}

pub fn advance_cycles(c: i64, cycles: u64) -> (r: i64)
    ensures
        r == cycles_after(c, cycles),
{
    c.wrapping_add(cycles as i64)
}

/// Every mirrored offset lies in the 4 KiB of nametable VRAM, and without
/// four-screen VRAM in the console's 2 KiB.
pub proof fn lemma_mirror_bounds(mode: Mirroring, four_screen: bool, addr: u16)
    ensures
        0 <= mirror_spec(mode, four_screen, addr) < 0x1000,
        !four_screen && mode != Mirroring::FourScreen ==> mirror_spec(mode, four_screen, addr) < 0x800,
{
    crate::bits::lemma_word_fields(addr);
}

/// Horizontal mirroring: $2000 and $2400 share a nametable, and so do
/// $2800 and $2C00.
pub proof fn lemma_horizontal_pairs(addr: u16)
    requires
        addr & 0x0400 == 0,
    ensures
        mirror_spec(Mirroring::Horizontal, false, addr) == mirror_spec(Mirroring::Horizontal, false, addr | 0x0400),
{
    crate::bits::lemma_word_fields(addr);
}

/// Vertical mirroring: $2000 and $2800 share a nametable, and so do $2400
/// and $2C00.
pub proof fn lemma_vertical_pairs(addr: u16)
    requires
        addr & 0x0800 == 0,
    ensures
        mirror_spec(Mirroring::Vertical, false, addr) == mirror_spec(Mirroring::Vertical, false, addr | 0x0800),
{
    crate::bits::lemma_word_fields(addr);
}

/// Single-screen mirroring sends all four nametables to one.
pub proof fn lemma_single_screen(a: u16, b: u16)
    ensures
        mirror_spec(Mirroring::SingleLower, false, a) / 0x400 == 0,
        mirror_spec(Mirroring::SingleUpper, false, b) / 0x400 == 1,
        mirror_spec(Mirroring::SingleLower, false, a) == (a & 0x03FF) as int,
{
    crate::bits::lemma_word_fields(a);
}

/// A board's battery RAM after loading `data`: taken when it has exactly
/// the RAM's size, ignored otherwise (and by a board without such RAM).
pub open spec fn sram_after_load(ram: Option<Seq<u8>>, data: Seq<u8>) -> Option<Seq<u8>> {
    match ram {
        Some(r) => Some(if data.len() == r.len() { data } else { r }),
        None => None,
    }
}

/// A cartridge board: what the CPU and PPU see at the addresses it decodes.
/// `inv` is the board's well-formedness (its memories are as large as its
/// bank arithmetic reaches); every operation keeps it.
pub trait Mapper {
    spec fn inv(&self) -> bool;

    fn cpu_read(&self, addr: u16) -> u8
        requires
            self.inv(),
    ;

    fn cpu_write(&mut self, addr: u16, value: u8)
        requires
            old(self).inv(),
        ensures
            final(self).inv(),
    ;

    /// Whether `v` is a byte that a pattern read at `addr` (other than a
    /// background fetch) can give in this state.
    spec fn chr_read(&self, addr: u16, v: u8) -> bool;

    fn ppu_read(&self, addr: u16) -> (r: u8)
        requires
            self.inv(),
        ensures
            self.chr_read(addr, r),
    ;

    fn ppu_read_ctx(&self, addr: u16, is_bg_fetch: bool) -> (r: u8)
        requires
            self.inv(),
        ensures
            !is_bg_fetch ==> self.chr_read(addr, r),
    {
        self.ppu_read(addr)
    }

    fn ppu_write(&mut self, addr: u16, value: u8)
        requires
            old(self).inv(),
        ensures
            final(self).inv(),
    ;

    /// The VRAM offset that nametable address `addr` is mirrored to.
    spec fn vram_offset(&self, addr: u16) -> int;

    /// The VRAM offset (below 4 KiB) that nametable address `addr` uses.
    fn mirror_vram_address(&self, addr: u16) -> (r: usize)
        requires
            self.inv(),
        ensures
            r < 0x1000,
            r == self.vram_offset(addr),
    ;

    /// The byte the PPU sees at nametable address `addr` ($2000-$3FFF).
    fn read_nametable_byte(&self, addr: u16, ppu_vram: &[u8; 4096], is_attribute_byte: bool) -> u8
        requires
            self.inv(),
            0x2000 <= addr < 0x4000,
    {
        ppu_vram[self.mirror_vram_address(addr)]
    }

    /// Writes `value` to the VRAM byte that `addr` is mirrored to.
    fn write_nametable_byte(&mut self, addr: u16, value: u8, vram: &mut [u8; 4096])
        requires
            old(self).inv(),
        ensures
            final(self).inv(),
            forall|a: u16| #[trigger] final(self).vram_offset(a) == old(self).vram_offset(a),
            final(vram)@ == old(vram)@.update(old(self).vram_offset(addr), value),
    {
        let mirrored = self.mirror_vram_address(addr);
        proof {
            crate::bits::lemma_usize_fields(mirrored, 0);
        }
        vram[mirrored & 0x0FFF] = value;
    }

    fn is_irq_asserted(&self) -> bool {
        false
    }

    fn step_cycles(&mut self, cycles: u64)
        requires
            old(self).inv(),
        ensures
            final(self).inv(),
    {
    }

    fn total_cycles(&self) -> u64 {
        0
    }

    /// The battery-backed RAM that a save keeps, if the board has any.
    spec fn sram(&self) -> Option<Seq<u8>>;

    /// Whether the battery-backed RAM changed since the last save.
    spec fn sram_changed(&self) -> bool;

    fn get_sram(&self) -> (r: Option<&[u8]>)
        ensures
            r is Some == self.sram() is Some,
            r matches Some(bytes) ==> bytes@ == self.sram().unwrap(),
    ;

    /// Takes a battery image of exactly the size of the board's RAM; any
    /// other image is ignored.
    fn load_sram(&mut self, data: &[u8])
        requires
            old(self).inv(),
        ensures
            final(self).inv(),
            final(self).sram() == sram_after_load(old(self).sram(), data@),
    ;

    fn is_sram_dirty(&self) -> (r: bool)
        ensures
            r == self.sram_changed(),
    ;

    fn clear_sram_dirty(&mut self)
        requires
            old(self).inv(),
        ensures
            final(self).inv(),
            final(self).sram() == old(self).sram(),
            !final(self).sram_changed(),
    ;

    fn update_a12(&mut self, addr: u16)
        requires
            old(self).inv(),
        ensures
            final(self).inv(),
    {
    }

    fn clock_scanline(&mut self)
        requires
            old(self).inv(),
        ensures
            final(self).inv(),
    {
    }

    fn notify_scanline(&mut self)
        requires
            old(self).inv(),
        ensures
            final(self).inv(),
    {
    }

    fn notify_frame_start(&mut self)
        requires
            old(self).inv(),
        ensures
            final(self).inv(),
    {
    }

    fn split_config(&self) -> Option<(bool, u8)> {
        None
    }

    /// The pattern bytes and palette of one column of a split-screen
    /// region: `screen_x` a pixel column of the 256-pixel line.
    fn read_split_tile(&self, screen_x: usize, scanline: usize) -> (u8, u8, u8)
        requires
            self.inv(),
            screen_x < 256,
            scanline + 255 <= usize::MAX,
    {
        (0, 0, 0)
    }
}

} // verus!
