use vstd::prelude::*;
use crate::mimesys::gameboy::gb_cartridge::CartType;
use crate::mimesys::gameboy::gb_common::GbVariant;

verus! {

/// The cartridge RAM size that header byte $0149 announces.
pub open spec fn ram_size_spec(b: u8) -> u32 {
    if b == 0x01 {
        2048
    } else if b == 0x02 {
        8192
    } else if b == 0x03 {
        32768
    } else if b == 0x04 {
        131072
    } else if b == 0x05 {
        65536
    } else {
        0
    }
}

/// The cartridge RAM size for header byte $0149 (0 for unknown codes).
pub fn calculate_ram_size(header_byte: u8) -> (r: u32)
    ensures
        r == ram_size_spec(header_byte),
{
    match header_byte {
        0x00 => 0,
        0x01 => 2048,
        0x02 => 8192,
        0x03 => 32768,
        0x04 => 131072,
        0x05 => 65536,
        _ => 0,
    }
}

/// The controller and battery of cartridge-type byte $0147; unknown
/// codes are treated as a plain ROM.
pub open spec fn cart_type_spec(code: u8) -> (u8, bool) {
    if code == 0 {
        (0, false)
    } else if code == 1 || code == 2 || code == 7 || code == 8 {
        (1, false)
    } else if code == 3 {
        (1, true)
    } else if code == 5 {
        (2, false)
    } else if code == 6 {
        (2, true)
    } else if code == 9 {
        (0, true)
    } else if code == 0x0F || code == 0x11 || code == 0x12 {
        (3, false)
    } else if code == 0x10 || code == 0x13 {
        (3, true)
    } else if code == 0x1B {
        (5, true)
    } else {
        (0, false)
    }
}

/// Decodes cartridge-type byte $0147.
pub fn determine_mbc(cart_type_code: u8) -> (r: CartType)
    ensures
        (r.mbc_id, r.has_battery) == cart_type_spec(cart_type_code),
{
    match cart_type_code {
        0 => CartType { mbc_id: 0, has_battery: false },
        1 | 2 | 7 | 8 => CartType { mbc_id: 1, has_battery: false },
        3 => CartType { mbc_id: 1, has_battery: true },
        5 => CartType { mbc_id: 2, has_battery: false },
        6 => CartType { mbc_id: 2, has_battery: true },
        9 => CartType { mbc_id: 0, has_battery: true },
        0x0F | 0x11 | 0x12 => CartType { mbc_id: 3, has_battery: false },
        0x10 | 0x13 => CartType { mbc_id: 3, has_battery: true },
        0x1B => CartType { mbc_id: 5, has_battery: true },
        _ => CartType { mbc_id: 0, has_battery: false },
    }
}

/// The ROM size that header byte $0148 announces: 32 KiB << code.
pub open spec fn gb_rom_size(b: u8) -> int {
    (vstd::arithmetic::power2::pow2(b as nat) * 32768) as int
}

/// The image holds the header and all the ROM it announces.
pub open spec fn gb_rom_complete(b: Seq<u8>) -> bool {
    &&& b.len() >= 0x150
    &&& b[0x148] < 32
    &&& b.len() >= gb_rom_size(b[0x148])
}

/// What the loader takes from a cartridge header.
pub struct GbRomHeader {
    pub cart_type_code: u8,
    pub cart_type: CartType,
    pub prg_rom_size: usize,
    pub cart_ram_size: usize,
    pub variant: GbVariant,
}

/// Reads the cartridge header: the controller, the ROM and RAM sizes, and
/// the model the game asks for (a CGB flag of $80 or $C0 selects the CGB).
pub fn parse_gb_header(bytes: &[u8]) -> (r: GbRomHeader)
    requires
        gb_rom_complete(bytes@),
    ensures
        r.cart_type_code == bytes@[0x147],
        (r.cart_type.mbc_id, r.cart_type.has_battery) == cart_type_spec(bytes@[0x147]),
        r.prg_rom_size == gb_rom_size(bytes@[0x148]),
        r.cart_ram_size == ram_size_spec(bytes@[0x149]),
        r.variant == (if bytes@[0x143] == 0x80 || bytes@[0x143] == 0xC0 { GbVariant::Cgb } else { GbVariant::Dmg }),
{
    let cart_type_code = bytes[0x147];
    let shift = bytes[0x148];
    proof {
        vstd::arithmetic::power2::lemma_pow2_pos(shift as nat);
        vstd::arithmetic::power2::lemma2_to64();
    }
    let len = bytes.len();
    let mut size: usize = 32768;
    let mut k: u8 = 0;
    while k < shift
        invariant
            k <= shift < 32,
            size == vstd::arithmetic::power2::pow2(k as nat) * 32768,
            gb_rom_size(shift) <= bytes@.len(),
            len == bytes@.len(),
        decreases shift - k,
    {
        proof {
            vstd::arithmetic::power2::lemma_pow2_adds(k as nat, 1);
            vstd::arithmetic::power2::lemma2_to64();
            let p = vstd::arithmetic::power2::pow2(k as nat);
            let p1 = vstd::arithmetic::power2::pow2((k + 1) as nat);
            assert(p1 == p * 2);
            assert(size * 2 == p1 * 32768) by (nonlinear_arith)
                requires
                    size == p * 32768,
                    p1 == p * 2;
            if k + 1 < shift {
                vstd::arithmetic::power2::lemma_pow2_strictly_increases((k + 1) as nat, shift as nat);
                assert(p1 * 32768 < gb_rom_size(shift)) by (nonlinear_arith)
                    requires
                        p1 < vstd::arithmetic::power2::pow2(shift as nat),
                        gb_rom_size(shift) == vstd::arithmetic::power2::pow2(shift as nat) * 32768;
            }
            assert(size * 2 <= bytes@.len());
        }
        size = size * 2;
        k += 1;
    }
    let cart_ram_size = calculate_ram_size(bytes[0x149]) as usize;
    let cart_type = determine_mbc(cart_type_code);
    let color_gb = bytes[0x143];
    let variant = if color_gb == 0x80 || color_gb == 0xC0 { GbVariant::Cgb } else { GbVariant::Dmg };
    GbRomHeader { cart_type_code, cart_type, prg_rom_size: size, cart_ram_size, variant }
}

/// `v` where `set`, else 0.
pub open spec fn gb_bit_if(set: bool, v: u8) -> u8 {
    if set { v } else { 0 }
}

/// The joypad byte for a front-end input mask (Up, Down, Left, Right, B, A,
/// Select, Start in bits 0-7): A, B, Select, Start in bits 0-3 and Right,
/// Left, Up, Down in bits 4-7, a set bit for a pressed button.
pub open spec fn gb_pad_state_spec(mask: u8) -> u8 {
    gb_bit_if(mask & 0x20 != 0, 0x01) | gb_bit_if(mask & 0x10 != 0, 0x02) | gb_bit_if(mask & 0x40 != 0, 0x04)
        | gb_bit_if(mask & 0x80 != 0, 0x08) | gb_bit_if(mask & 0x08 != 0, 0x10) | gb_bit_if(mask & 0x04 != 0, 0x20)
        | gb_bit_if(mask & 0x01 != 0, 0x40) | gb_bit_if(mask & 0x02 != 0, 0x80)
}

/// Converts a front-end input mask to the joypad byte.
pub fn gb_pad_state(input_mask: u8) -> (r: u8)
    ensures
        r == gb_pad_state_spec(input_mask),
{
    (if (input_mask & 0x20) != 0 { 0x01u8 } else { 0 }) | (if (input_mask & 0x10) != 0 { 0x02u8 } else { 0 })
        | (if (input_mask & 0x40) != 0 { 0x04u8 } else { 0 }) | (if (input_mask & 0x80) != 0 { 0x08u8 } else { 0 })
        | (if (input_mask & 0x08) != 0 { 0x10u8 } else { 0 }) | (if (input_mask & 0x04) != 0 { 0x20u8 } else { 0 })
        | (if (input_mask & 0x01) != 0 { 0x40u8 } else { 0 }) | (if (input_mask & 0x02) != 0 { 0x80u8 } else { 0 })
}

} // verus!
