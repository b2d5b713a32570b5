use vstd::prelude::*;
use crate::gd_emu::nes::cartridge::Cartridge;
use crate::gd_emu::nes::mappers::{make_mapper, supported_mapper, Mirroring};

verus! {

/// Size of one PRG-ROM page in an iNES image.
pub const PRG_ROM_PAGE_SIZE: usize = 16384;

/// Size of one CHR-ROM page in an iNES image.
pub const CHR_ROM_PAGE_SIZE: usize = 8192;

/// An iNES file: at least the 16-byte header, starting with "NES" and $1A.
pub open spec fn ines_magic(b: Seq<u8>) -> bool {
    b.len() >= 16 && b[0] == 0x4E && b[1] == 0x45 && b[2] == 0x53 && b[3] == 0x1A
}

pub open spec fn ines_prg_len(b: Seq<u8>) -> int {
    b[4] * 16384
}

pub open spec fn ines_chr_len(b: Seq<u8>) -> int {
    b[5] * 8192
}

/// The header marks the NES 2.0 format.
pub open spec fn ines_is_v2(b: Seq<u8>) -> bool {
    b[7] & 0x0C == 0x08
}

/// The board number: eight bits from flags 6 and 7, four more from byte 8
/// in the NES 2.0 format.
pub open spec fn ines_mapper_id(b: Seq<u8>) -> u16 {
    if ines_is_v2(b) {
        (((b[8] & 0x0F) as u16) << 8u16) | ((b[7] & 0xF0) as u16) | ((b[6] >> 4u8) as u16)
    } else {
        ((b[7] & 0xF0) | (b[6] >> 4u8)) as u16
    }
}

/// The file holds every ROM page its header announces.
pub open spec fn ines_complete(b: Seq<u8>) -> bool {
    ines_magic(b) ==> b.len() >= 16 + ines_prg_len(b) + ines_chr_len(b)
}

/// The bank sizes a board uses: 8 KiB PRG and 1 KiB CHR for MMC3-like
/// boards, 16 KiB and 8 KiB otherwise.
pub open spec fn ines_bank_sizes(mapper_id: u16) -> (int, int) {
    if mapper_id == 4 || mapper_id == 206 { (8192, 1024) } else { (16384, 8192) }
}

/// The parts of an iNES image that the cartridge is built from.
pub struct InesImage {
    pub prg_rom: Vec<u8>,
    pub chr_rom: Vec<u8>,
    pub mapper_id: u16,
    pub submapper: u8,
    pub is_v2: bool,
    pub mirroring: Mirroring,
    pub four_screen: bool,
    pub prg_banks: usize,
    pub chr_banks: usize,
}

/// Copies `bytes[start..end]`.
fn copy_range(bytes: &[u8], start: usize, end: usize) -> (r: Vec<u8>)
    requires
        start <= end <= bytes@.len(),
    ensures
        r@ == bytes@.subrange(start as int, end as int),
{
    let mut r: Vec<u8> = Vec::new();
    let mut i = start;
    while i < end
        invariant
            start <= i <= end <= bytes@.len(),
            r@ == bytes@.subrange(start as int, i as int),
        decreases end - i,
    {
        r.push(bytes[i]);
        i += 1;
    }
    r
}

/// Reads an iNES image: `None` unless it starts with the iNES magic; the
/// PRG and CHR pages follow the header in that order.
pub fn parse_ines(bytes: &[u8]) -> (r: Option<InesImage>)
    requires
        ines_complete(bytes@),
    ensures
        r is Some <==> ines_magic(bytes@),
        r matches Some(img) ==> {
            let b = bytes@;
            let prg_end = 16 + ines_prg_len(b);
            &&& img.prg_rom@ == b.subrange(16, prg_end)
            &&& img.chr_rom@ == (if b[5] > 0 { b.subrange(prg_end, prg_end + ines_chr_len(b)) } else { Seq::empty() })
            &&& img.mapper_id == ines_mapper_id(b)
            &&& img.submapper == (b[8] & 0xF0) >> 4u8
            &&& img.is_v2 == ines_is_v2(b)
            &&& img.mirroring == (if b[6] & 0x01 != 0 { Mirroring::Vertical } else { Mirroring::Horizontal })
            &&& img.four_screen == (b[6] & 0x08 != 0)
            &&& img.prg_banks == img.prg_rom@.len() as int / ines_bank_sizes(img.mapper_id).0
            &&& img.chr_banks == img.chr_rom@.len() as int / ines_bank_sizes(img.mapper_id).1
        },
{
    if bytes.len() < 16 || bytes[0] != 0x4E || bytes[1] != 0x45 || bytes[2] != 0x53 || bytes[3] != 0x1A {
        return None;
    }
    let prg_rom_size: usize = (bytes[4] as usize) * PRG_ROM_PAGE_SIZE;
    let chr_rom_size: usize = (bytes[5] as usize) * CHR_ROM_PAGE_SIZE;
    let mapper_byte = bytes[8];
    let mapper_low = bytes[6] >> 4u8;
    let mapper_mid = bytes[7] & 0xF0;
    let mapper_high = ((mapper_byte & 0x0F) as u16) << 8u16;
    let ines2 = (bytes[7] & 0x0C) == 0x08;
    let submapper = (mapper_byte & 0xF0) >> 4u8;
    let mapper_id: u16 = if ines2 {
        mapper_high | mapper_mid as u16 | mapper_low as u16
    } else {
        (mapper_mid | mapper_low) as u16
    };
    let prg_start: usize = 16;
    let prg_end = prg_start + prg_rom_size;
    let chr_end = prg_end + chr_rom_size;
    let prg_rom = copy_range(bytes, prg_start, prg_end);
    let chr_rom = if bytes[5] > 0 { copy_range(bytes, prg_end, chr_end) } else { Vec::new() };
    let mirroring = if (bytes[6] & 0x01) != 0 { Mirroring::Vertical } else { Mirroring::Horizontal };
    let prg_bank_size: usize = if mapper_id == 4 || mapper_id == 206 { 8192 } else { 16384 };
    let chr_bank_size: usize = if mapper_id == 4 || mapper_id == 206 { 1024 } else { 8192 };
    let prg_banks = prg_rom.len() / prg_bank_size;
    let chr_banks = chr_rom.len() / chr_bank_size;
    let four_screen = (bytes[6] & 0x08) != 0;
    Some(InesImage {
        prg_rom,
        chr_rom,
        mapper_id,
        submapper,
        is_v2: ines2,
        mirroring,
        four_screen,
        prg_banks,
        chr_banks,
    })
}

/// Builds the cartridge for an image: `None` for a board this library
/// does not emulate.
pub fn cartridge_from_image(img: InesImage, base_name: String) -> (r: Option<Cartridge>)
    requires
        img.mapper_id == 206 ==> 2 <= img.prg_banks && img.prg_banks * 0x2000 <= usize::MAX,
        img.mapper_id == 64 ==> img.prg_rom@.len() >= 16384,
    ensures
        r is Some <==> supported_mapper(img.mapper_id),
        r matches Some(c) ==> c.prg_rom@ == img.prg_rom@ && c.chr_rom@ == img.chr_rom@ && c.base_filename@ == base_name@,
{
    let prg = img.prg_rom.clone();
    let chr = img.chr_rom.clone();
    proof {
        assert(prg@.len() == img.prg_rom@.len());
    }
    match make_mapper(img.mapper_id, img.submapper, img.prg_banks, img.chr_banks, prg, chr, img.mirroring, img.four_screen) {
        Ok(mapper) => Some(Cartridge::new(img.prg_rom, img.chr_rom, mapper, base_name)),
        Err(_) => None,
    }
}

/// `v` where `set`, else 0.
pub open spec fn bit_if(set: bool, v: u8) -> u8 {
    if set { v } else { 0 }
}

/// The NES controller byte for a front-end input mask. The mask holds Up,
/// Down, Left, Right, B, A, Select, Start in bits 0-7; the controller
/// reports A, B, Select, Start, Up, Down, Left, Right in bits 0-7.
pub open spec fn pad_state_spec(mask: u16) -> u8 {
    bit_if(mask & 0x20 != 0, 0x01) | bit_if(mask & 0x10 != 0, 0x02) | bit_if(mask & 0x40 != 0, 0x04)
        | bit_if(mask & 0x80 != 0, 0x08) | bit_if(mask & 0x01 != 0, 0x10) | bit_if(mask & 0x02 != 0, 0x20)
        | bit_if(mask & 0x04 != 0, 0x40) | bit_if(mask & 0x08 != 0, 0x80)
}

/// Converts a front-end input mask to the NES controller byte.
pub fn nes_pad_state(input_mask: u16) -> (r: u8)
    ensures
        r == pad_state_spec(input_mask),
{
    (if (input_mask & 0x20) != 0 { 0x01u8 } else { 0 }) | (if (input_mask & 0x10) != 0 { 0x02u8 } else { 0 })
        | (if (input_mask & 0x40) != 0 { 0x04u8 } else { 0 }) | (if (input_mask & 0x80) != 0 { 0x08u8 } else { 0 })
        | (if (input_mask & 0x01) != 0 { 0x10u8 } else { 0 }) | (if (input_mask & 0x02) != 0 { 0x20u8 } else { 0 })
        | (if (input_mask & 0x04) != 0 { 0x40u8 } else { 0 }) | (if (input_mask & 0x08) != 0 { 0x80u8 } else { 0 })
}

} // verus!
