use vstd::prelude::*;
use crate::gd_emu::common::bus::{AddressBus, memory_kept, read_at, written_at};

verus! {

const STACK_BASE: u16 = 0x100;

/// Status register bits.
pub const STATUS_C: u8 = 0x01;
pub const STATUS_Z: u8 = 0x02;
pub const STATUS_I: u8 = 0x04;
pub const STATUS_D: u8 = 0x08;
pub const STATUS_B: u8 = 0x10;
pub const STATUS_U: u8 = 0x20;
pub const STATUS_V: u8 = 0x40;
pub const STATUS_N: u8 = 0x80;

/// The status register P as a set of flag bits.
#[derive(Clone, Copy, PartialEq, Eq, Structural)]
pub struct Status {
    pub bits: u8,
}

impl Status {
    pub fn empty() -> (r: Status)
        ensures
            r.bits == 0,
    {
        Status { bits: 0 }
    }

    pub fn bits(&self) -> (r: u8)
        ensures
            r == self.bits,
    {
        self.bits
    }

    /// Every bit of the byte names a flag, so nothing is dropped.
    pub fn from_bits_truncate(bits: u8) -> (r: Status)
        ensures
            r.bits == bits,
    {
        Status { bits }
    }

    pub fn contains(&self, mask: u8) -> (r: bool)
        ensures
            r == (self.bits & mask == mask),
    {
        self.bits & mask == mask
    }

    pub fn insert(&mut self, mask: u8)
        ensures
            final(self).bits == old(self).bits | mask,
    {
        self.bits = self.bits | mask;
    }

    pub fn remove(&mut self, mask: u8)
        ensures
            final(self).bits == old(self).bits & !mask,
    {
        self.bits = self.bits & !mask;
    }
}

/// `p` with the bits of `mask` set or cleared.
pub open spec fn set_flag(p: u8, mask: u8, on: bool) -> u8 {
    if on { p | mask } else { p & !mask }
}

/// Z and N from a result.
pub open spec fn with_nz(p: u8, v: u8) -> u8 {
    set_flag(set_flag(p, STATUS_Z, v == 0), STATUS_N, v & 0x80 != 0)
}

/// What a pulled status byte becomes: B clear, the unused bit set.
pub open spec fn pulled_status(raw: u8) -> u8 {
    (raw & !0x10u8) | 0x20
}

#[derive(Clone, Copy)]
pub struct CpuConfig {
    pub has_bcd: bool,
    pub has_jmp_bug: bool,
    pub is_c02: bool,
}

#[derive(Clone, Copy, PartialEq, Eq, Structural)]
pub enum CpuVariant {
    NMOS6502,
    Ricoh2A03,
    WDC65C02,
}

pub open spec fn config_of(variant: CpuVariant) -> CpuConfig {
    match variant {
        CpuVariant::NMOS6502 => CpuConfig { has_bcd: true, has_jmp_bug: true, is_c02: false },
        CpuVariant::Ricoh2A03 => CpuConfig { has_bcd: false, has_jmp_bug: true, is_c02: false },
        CpuVariant::WDC65C02 => CpuConfig { has_bcd: true, has_jmp_bug: false, is_c02: true },
    }
}

/// A 6502 that runs one whole instruction at a time and then waits out its
/// cycle count.
pub struct M6502Cpu {
    pub pc: u16,
    pub sp: u8,
    pub a: u8,
    pub x: u8,
    pub y: u8,
    pub p: Status,
    pub nmi_armed: bool,
    pub nmi_pending: bool,
    pub prev_nmi_line: bool,
    pub last_cycles: u8,
    pub last_opcode: u8,
    pub operand_address_crossed_page: bool,
    pub total_cycles: u64,
    pub is_running: bool,
    pub config: CpuConfig,
    pub cycles_remaining: u8,
    pub stall_cycles: u16,
}

#[derive(Clone, Copy, PartialEq, Eq, Structural)]
pub enum AddressingMode {
    Immediate,
    Indirect,
    Relative,
    Accumulator,
    Implied,
    ZeroPage,
    ZeroPageX,
    ZeroPageY,
    Absolute,
    AbsoluteX,
    AbsoluteY,
    IndirectX,
    IndirectY,
}

/// The operations of the opcode table (undocumented ones included).
#[derive(Clone, Copy, PartialEq, Eq, Structural)]
pub enum IOp {
    Adc, Sbc, And, Eor, Ora, Cmp, Cpx, Cpy, Lda, Ldx, Ldy, Bit,
    LdaImm, LdxImm, LdyImm,
    AslA, LsrA, RolA, RorA, AslM, LsrM, RolM, RorM, Inc, Dec, Slo, Rra, Rla,
    Branch { flag: u8, is_set: bool },
    Brk, Clc, Sec, Cli, Sei, Clv, Cld, Sed,
    Jmp, Jsr, Rts, Rti, Nop, NopRead, NopAbs, NopImplied,
    Tax, Txa, Tay, Tya, Txs, Tsx, Inx, Iny, Dex, Dey,
    Pha, Pla, Php, Plp,
    Sta, StaIndexed, Stx, Sty, Sax, Lax, Anc,
}

/// Why `step` stopped.
#[derive(Clone, Copy, PartialEq, Eq, Structural)]
pub enum CpuError {
    /// The fetched opcode has no implementation.
    UnimplementedOpcode(u8),
}

/// The opcode table: operation, addressing mode, base cycle count, and
/// whether a page crossing (for branches: the branch's own count) adds to
/// it.
pub open spec fn decode_i(opcode: u8) -> Option<(IOp, AddressingMode, u8, bool)> {
    match opcode {
        0x00 => Some((IOp::Brk, AddressingMode::Implied, 7u8, false)),
        0x01 => Some((IOp::Ora, AddressingMode::IndirectX, 6u8, false)),
        0x02|0x12|0x1A|0x22|0x32|0x3A|0x42|0x52|0x5A|0x62|0x72|0x7A|0x92|0xB2|0xD2|0xDA|0xF2|0xFA => Some((IOp::NopImplied, AddressingMode::Implied, 2u8, false)),
        0x03 => Some((IOp::Slo, AddressingMode::IndirectX, 8u8, false)),
        0x04|0x44|0x64 => Some((IOp::NopRead, AddressingMode::Immediate, 3u8, false)),
        0x05 => Some((IOp::Ora, AddressingMode::ZeroPage, 3u8, false)),
        0x06 => Some((IOp::AslM, AddressingMode::ZeroPage, 5u8, false)),
        0x07 => Some((IOp::Slo, AddressingMode::ZeroPage, 5u8, false)),
        0x08 => Some((IOp::Php, AddressingMode::Implied, 3u8, false)),
        0x09 => Some((IOp::Ora, AddressingMode::Immediate, 2u8, false)),
        0x0A => Some((IOp::AslA, AddressingMode::Accumulator, 2u8, false)),
        0x0B|0x2B => Some((IOp::Anc, AddressingMode::Immediate, 2u8, false)),
        0x0C => Some((IOp::NopAbs, AddressingMode::Absolute, 4u8, true)),
        0x0D => Some((IOp::Ora, AddressingMode::Absolute, 4u8, false)),
        0x0E => Some((IOp::AslM, AddressingMode::Absolute, 5u8, false)),
        0x0F => Some((IOp::Slo, AddressingMode::Absolute, 6u8, false)),
        0x10 => Some((IOp::Branch { flag: STATUS_N, is_set: false }, AddressingMode::Relative, 0u8, true)),
        0x11 => Some((IOp::Ora, AddressingMode::IndirectY, 5u8, true)),
        0x13 => Some((IOp::Slo, AddressingMode::IndirectY, 8u8, false)),
        0x14|0x34|0x54|0x74|0xD4|0xF4 => Some((IOp::NopRead, AddressingMode::Immediate, 4u8, false)),
        0x15 => Some((IOp::Ora, AddressingMode::ZeroPageX, 4u8, false)),
        0x16 => Some((IOp::AslM, AddressingMode::ZeroPageX, 5u8, false)),
        0x17 => Some((IOp::Slo, AddressingMode::ZeroPageX, 6u8, false)),
        0x18 => Some((IOp::Clc, AddressingMode::Implied, 2u8, false)),
        0x19 => Some((IOp::Ora, AddressingMode::AbsoluteY, 4u8, true)),
        0x1B => Some((IOp::Slo, AddressingMode::AbsoluteY, 7u8, false)),
        0x1C|0x3C|0x5C|0x7C|0xDC|0xFC => Some((IOp::NopAbs, AddressingMode::AbsoluteX, 4u8, true)),
        0x1D => Some((IOp::Ora, AddressingMode::AbsoluteX, 4u8, true)),
        0x1E => Some((IOp::AslM, AddressingMode::AbsoluteX, 5u8, false)),
        0x1F => Some((IOp::Slo, AddressingMode::AbsoluteX, 7u8, false)),
        0x20 => Some((IOp::Jsr, AddressingMode::Absolute, 6u8, false)),
        0x21 => Some((IOp::And, AddressingMode::IndirectX, 6u8, false)),
        0x24 => Some((IOp::Bit, AddressingMode::ZeroPage, 3u8, false)),
        0x25 => Some((IOp::And, AddressingMode::ZeroPage, 3u8, false)),
        0x26 => Some((IOp::RolM, AddressingMode::ZeroPage, 5u8, false)),
        0x28 => Some((IOp::Plp, AddressingMode::Implied, 4u8, false)),
        0x29 => Some((IOp::And, AddressingMode::Immediate, 2u8, false)),
        0x2A => Some((IOp::RolA, AddressingMode::Accumulator, 2u8, false)),
        0x2C => Some((IOp::Bit, AddressingMode::Absolute, 4u8, false)),
        0x2D => Some((IOp::And, AddressingMode::Absolute, 4u8, false)),
        0x2E => Some((IOp::RolM, AddressingMode::Absolute, 6u8, false)),
        0x30 => Some((IOp::Branch { flag: STATUS_N, is_set: true }, AddressingMode::Relative, 0u8, true)),
        0x31 => Some((IOp::And, AddressingMode::IndirectY, 5u8, true)),
        0x33 => Some((IOp::Rla, AddressingMode::IndirectY, 8u8, false)),
        0x35 => Some((IOp::And, AddressingMode::ZeroPageX, 4u8, false)),
        0x36 => Some((IOp::RolM, AddressingMode::ZeroPageX, 6u8, false)),
        0x38 => Some((IOp::Sec, AddressingMode::Implied, 2u8, false)),
        0x39 => Some((IOp::And, AddressingMode::AbsoluteY, 4u8, true)),
        0x3D => Some((IOp::And, AddressingMode::AbsoluteX, 4u8, true)),
        0x3E => Some((IOp::RolM, AddressingMode::AbsoluteX, 7u8, false)),
        0x40 => Some((IOp::Rti, AddressingMode::Implied, 6u8, false)),
        0x41 => Some((IOp::Eor, AddressingMode::IndirectX, 6u8, false)),
        0x45 => Some((IOp::Eor, AddressingMode::ZeroPage, 3u8, false)),
        0x46 => Some((IOp::LsrM, AddressingMode::ZeroPage, 5u8, false)),
        0x48 => Some((IOp::Pha, AddressingMode::Implied, 3u8, false)),
        0x49 => Some((IOp::Eor, AddressingMode::Immediate, 2u8, false)),
        0x4A => Some((IOp::LsrA, AddressingMode::Accumulator, 2u8, false)),
        0x4C => Some((IOp::Jmp, AddressingMode::Absolute, 3u8, false)),
        0x4D => Some((IOp::Eor, AddressingMode::Absolute, 4u8, false)),
        0x4E => Some((IOp::LsrM, AddressingMode::Absolute, 6u8, false)),
        0x50 => Some((IOp::Branch { flag: STATUS_V, is_set: false }, AddressingMode::Relative, 0u8, true)),
        0x51 => Some((IOp::Eor, AddressingMode::IndirectY, 5u8, true)),
        0x55 => Some((IOp::Eor, AddressingMode::ZeroPageX, 4u8, false)),
        0x56 => Some((IOp::LsrM, AddressingMode::ZeroPageX, 6u8, false)),
        0x58 => Some((IOp::Cli, AddressingMode::Implied, 2u8, false)),
        0x59 => Some((IOp::Eor, AddressingMode::AbsoluteY, 4u8, true)),
        0x5D => Some((IOp::Eor, AddressingMode::AbsoluteX, 4u8, true)),
        0x5E => Some((IOp::LsrM, AddressingMode::AbsoluteX, 7u8, false)),
        0x60 => Some((IOp::Rts, AddressingMode::Implied, 6u8, false)),
        0x61 => Some((IOp::Adc, AddressingMode::IndirectX, 6u8, true)),
        0x65 => Some((IOp::Adc, AddressingMode::ZeroPage, 3u8, true)),
        0x66 => Some((IOp::RorM, AddressingMode::ZeroPage, 5u8, false)),
        0x68 => Some((IOp::Pla, AddressingMode::Implied, 4u8, false)),
        0x69 => Some((IOp::Adc, AddressingMode::Immediate, 2u8, true)),
        0x6A => Some((IOp::RorA, AddressingMode::Accumulator, 2u8, false)),
        0x6C => Some((IOp::Jmp, AddressingMode::Indirect, 5u8, false)),
        0x6D => Some((IOp::Adc, AddressingMode::Absolute, 4u8, true)),
        0x6E => Some((IOp::RorM, AddressingMode::Absolute, 6u8, false)),
        0x70 => Some((IOp::Branch { flag: STATUS_V, is_set: true }, AddressingMode::Relative, 0u8, true)),
        0x71 => Some((IOp::Adc, AddressingMode::IndirectY, 5u8, true)),
        0x75 => Some((IOp::Adc, AddressingMode::ZeroPageX, 4u8, true)),
        0x76 => Some((IOp::RorM, AddressingMode::ZeroPageX, 6u8, false)),
        0x78 => Some((IOp::Sei, AddressingMode::Implied, 2u8, false)),
        0x79 => Some((IOp::Adc, AddressingMode::AbsoluteY, 4u8, true)),
        0x7B => Some((IOp::Rra, AddressingMode::AbsoluteY, 7u8, false)),
        0x7D => Some((IOp::Adc, AddressingMode::AbsoluteX, 4u8, true)),
        0x7E => Some((IOp::RorM, AddressingMode::AbsoluteX, 7u8, false)),
        0x7F => Some((IOp::Rra, AddressingMode::AbsoluteX, 7u8, false)),
        0x80|0x82|0x89|0xC2|0xE2 => Some((IOp::NopRead, AddressingMode::Immediate, 2u8, false)),
        0x81 => Some((IOp::Sta, AddressingMode::IndirectX, 6u8, false)),
        0x84 => Some((IOp::Sty, AddressingMode::ZeroPage, 3u8, false)),
        0x85 => Some((IOp::Sta, AddressingMode::ZeroPage, 3u8, false)),
        0x86 => Some((IOp::Stx, AddressingMode::ZeroPage, 3u8, false)),
        0x88 => Some((IOp::Dey, AddressingMode::Implied, 2u8, false)),
        0x8A => Some((IOp::Txa, AddressingMode::Implied, 2u8, false)),
        0x8C => Some((IOp::Sty, AddressingMode::Absolute, 4u8, false)),
        0x8D => Some((IOp::Sta, AddressingMode::Absolute, 4u8, false)),
        0x8E => Some((IOp::Stx, AddressingMode::Absolute, 4u8, false)),
        0x90 => Some((IOp::Branch { flag: STATUS_C, is_set: false }, AddressingMode::Relative, 0u8, true)),
        0x91 => Some((IOp::StaIndexed, AddressingMode::IndirectY, 6u8, false)),
        0x94 => Some((IOp::Sty, AddressingMode::ZeroPageX, 4u8, false)),
        0x95 => Some((IOp::Sta, AddressingMode::ZeroPageX, 4u8, false)),
        0x96 => Some((IOp::Stx, AddressingMode::ZeroPageY, 4u8, false)),
        0x97 => Some((IOp::Sax, AddressingMode::ZeroPageY, 4u8, false)),
        0x98 => Some((IOp::Tya, AddressingMode::Implied, 2u8, false)),
        0x99 => Some((IOp::StaIndexed, AddressingMode::AbsoluteY, 5u8, false)),
        0x9A => Some((IOp::Txs, AddressingMode::Implied, 2u8, false)),
        0x9D => Some((IOp::StaIndexed, AddressingMode::AbsoluteX, 5u8, false)),
        0xA0 => Some((IOp::LdyImm, AddressingMode::Immediate, 2u8, false)),
        0xA1 => Some((IOp::Lda, AddressingMode::IndirectX, 6u8, false)),
        0xA2 => Some((IOp::LdxImm, AddressingMode::Immediate, 2u8, false)),
        0xA4 => Some((IOp::Ldy, AddressingMode::ZeroPage, 3u8, false)),
        0xA5 => Some((IOp::Lda, AddressingMode::ZeroPage, 3u8, false)),
        0xA6 => Some((IOp::Ldx, AddressingMode::ZeroPage, 3u8, false)),
        0xA8 => Some((IOp::Tay, AddressingMode::Implied, 2u8, false)),
        0xA9 => Some((IOp::LdaImm, AddressingMode::Immediate, 2u8, false)),
        0xAA => Some((IOp::Tax, AddressingMode::Implied, 2u8, false)),
        0xAC => Some((IOp::Ldy, AddressingMode::Absolute, 4u8, false)),
        0xAD => Some((IOp::Lda, AddressingMode::Absolute, 4u8, false)),
        0xAE => Some((IOp::Ldx, AddressingMode::Absolute, 4u8, false)),
        0xB0 => Some((IOp::Branch { flag: STATUS_C, is_set: true }, AddressingMode::Relative, 0u8, true)),
        0xB1 => Some((IOp::Lda, AddressingMode::IndirectY, 5u8, true)),
        0xB4 => Some((IOp::Ldy, AddressingMode::ZeroPageX, 4u8, false)),
        0xB5 => Some((IOp::Lda, AddressingMode::ZeroPageX, 4u8, false)),
        0xB6 => Some((IOp::Ldx, AddressingMode::ZeroPageY, 4u8, false)),
        0xB7 => Some((IOp::Lax, AddressingMode::ZeroPageY, 4u8, false)),
        0xB8 => Some((IOp::Clv, AddressingMode::Implied, 2u8, false)),
        0xB9 => Some((IOp::Lda, AddressingMode::AbsoluteY, 4u8, true)),
        0xBA => Some((IOp::Tsx, AddressingMode::Implied, 2u8, false)),
        0xBC => Some((IOp::Ldy, AddressingMode::AbsoluteX, 4u8, true)),
        0xBD => Some((IOp::Lda, AddressingMode::AbsoluteX, 4u8, true)),
        0xBE => Some((IOp::Ldx, AddressingMode::AbsoluteY, 4u8, true)),
        0xC0 => Some((IOp::Cpy, AddressingMode::Immediate, 2u8, false)),
        0xC1 => Some((IOp::Cmp, AddressingMode::IndirectX, 6u8, false)),
        0xC4 => Some((IOp::Cpy, AddressingMode::ZeroPage, 3u8, false)),
        0xC5 => Some((IOp::Cmp, AddressingMode::ZeroPage, 3u8, false)),
        0xC6 => Some((IOp::Dec, AddressingMode::ZeroPage, 5u8, false)),
        0xC8 => Some((IOp::Iny, AddressingMode::Implied, 2u8, false)),
        0xC9 => Some((IOp::Cmp, AddressingMode::Immediate, 2u8, false)),
        0xCA => Some((IOp::Dex, AddressingMode::Implied, 2u8, false)),
        0xCC => Some((IOp::Cpy, AddressingMode::Absolute, 4u8, false)),
        0xCD => Some((IOp::Cmp, AddressingMode::Absolute, 4u8, false)),
        0xCE => Some((IOp::Dec, AddressingMode::Absolute, 6u8, false)),
        0xD0 => Some((IOp::Branch { flag: STATUS_Z, is_set: false }, AddressingMode::Relative, 0u8, true)),
        0xD1 => Some((IOp::Cmp, AddressingMode::IndirectY, 5u8, true)),
        0xD5 => Some((IOp::Cmp, AddressingMode::ZeroPageX, 4u8, false)),
        0xD6 => Some((IOp::Dec, AddressingMode::ZeroPageX, 6u8, false)),
        0xD8 => Some((IOp::Cld, AddressingMode::Implied, 2u8, false)),
        0xD9 => Some((IOp::Cmp, AddressingMode::AbsoluteY, 4u8, true)),
        0xDD => Some((IOp::Cmp, AddressingMode::AbsoluteX, 4u8, true)),
        0xDE => Some((IOp::Dec, AddressingMode::AbsoluteX, 7u8, false)),
        0xE0 => Some((IOp::Cpx, AddressingMode::Immediate, 2u8, false)),
        0xE1 => Some((IOp::Sbc, AddressingMode::IndirectX, 6u8, false)),
        0xE4 => Some((IOp::Cpx, AddressingMode::ZeroPage, 3u8, false)),
        0xE5 => Some((IOp::Sbc, AddressingMode::ZeroPage, 3u8, false)),
        0xE6 => Some((IOp::Inc, AddressingMode::ZeroPage, 5u8, false)),
        0xE8 => Some((IOp::Inx, AddressingMode::Implied, 2u8, false)),
        0xE9|0xEB => Some((IOp::Sbc, AddressingMode::Immediate, 2u8, false)),
        0xEA => Some((IOp::Nop, AddressingMode::Implied, 2u8, false)),
        0xEC => Some((IOp::Cpx, AddressingMode::Absolute, 4u8, false)),
        0xED => Some((IOp::Sbc, AddressingMode::Absolute, 4u8, false)),
        0xEE => Some((IOp::Inc, AddressingMode::Absolute, 6u8, false)),
        0xF0 => Some((IOp::Branch { flag: STATUS_Z, is_set: true }, AddressingMode::Relative, 0u8, true)),
        0xF1 => Some((IOp::Sbc, AddressingMode::IndirectY, 5u8, true)),
        0xF5 => Some((IOp::Sbc, AddressingMode::ZeroPageX, 4u8, false)),
        0xF6 => Some((IOp::Inc, AddressingMode::ZeroPageX, 6u8, false)),
        0xF8 => Some((IOp::Sed, AddressingMode::Implied, 2u8, false)),
        0xF9 => Some((IOp::Sbc, AddressingMode::AbsoluteY, 4u8, true)),
        0xFD => Some((IOp::Sbc, AddressingMode::AbsoluteX, 4u8, true)),
        0xFE => Some((IOp::Inc, AddressingMode::AbsoluteX, 7u8, false)),
        _ => None,
    }
}

/// The operations whose cycle count grows by what their handler reports.
pub open spec fn counts_extra(op: IOp) -> bool {
    ||| op is Adc ||| op is Sbc ||| op is And ||| op is Eor ||| op is Ora ||| op is Cmp
    ||| op is Lda ||| op is Ldx ||| op is Ldy ||| op is Branch ||| op is NopAbs
}

/// Opcode table lookup.
pub fn decode_instruction(opcode: u8) -> (r: Option<(IOp, AddressingMode, u8, bool)>)
    ensures
        r == decode_i(opcode),
        r matches Some((op, mode, base, adds)) ==> (2 <= base <= 8 && !(op is Branch)) || (base == 0 && adds && op is Branch),
        r matches Some((op, mode, base, adds)) ==> (adds ==> base <= 6 && counts_extra(op)),
{
    match opcode {
        0x00 => Some((IOp::Brk, AddressingMode::Implied, 7u8, false)),
        0x01 => Some((IOp::Ora, AddressingMode::IndirectX, 6u8, false)),
        0x02|0x12|0x1A|0x22|0x32|0x3A|0x42|0x52|0x5A|0x62|0x72|0x7A|0x92|0xB2|0xD2|0xDA|0xF2|0xFA => Some((IOp::NopImplied, AddressingMode::Implied, 2u8, false)),
        0x03 => Some((IOp::Slo, AddressingMode::IndirectX, 8u8, false)),
        0x04|0x44|0x64 => Some((IOp::NopRead, AddressingMode::Immediate, 3u8, false)),
        0x05 => Some((IOp::Ora, AddressingMode::ZeroPage, 3u8, false)),
        0x06 => Some((IOp::AslM, AddressingMode::ZeroPage, 5u8, false)),
        0x07 => Some((IOp::Slo, AddressingMode::ZeroPage, 5u8, false)),
        0x08 => Some((IOp::Php, AddressingMode::Implied, 3u8, false)),
        0x09 => Some((IOp::Ora, AddressingMode::Immediate, 2u8, false)),
        0x0A => Some((IOp::AslA, AddressingMode::Accumulator, 2u8, false)),
        0x0B|0x2B => Some((IOp::Anc, AddressingMode::Immediate, 2u8, false)),
        0x0C => Some((IOp::NopAbs, AddressingMode::Absolute, 4u8, true)),
        0x0D => Some((IOp::Ora, AddressingMode::Absolute, 4u8, false)),
        0x0E => Some((IOp::AslM, AddressingMode::Absolute, 5u8, false)),
        0x0F => Some((IOp::Slo, AddressingMode::Absolute, 6u8, false)),
        0x10 => Some((IOp::Branch { flag: STATUS_N, is_set: false }, AddressingMode::Relative, 0u8, true)),
        0x11 => Some((IOp::Ora, AddressingMode::IndirectY, 5u8, true)),
        0x13 => Some((IOp::Slo, AddressingMode::IndirectY, 8u8, false)),
        0x14|0x34|0x54|0x74|0xD4|0xF4 => Some((IOp::NopRead, AddressingMode::Immediate, 4u8, false)),
        0x15 => Some((IOp::Ora, AddressingMode::ZeroPageX, 4u8, false)),
        0x16 => Some((IOp::AslM, AddressingMode::ZeroPageX, 5u8, false)),
        0x17 => Some((IOp::Slo, AddressingMode::ZeroPageX, 6u8, false)),
        0x18 => Some((IOp::Clc, AddressingMode::Implied, 2u8, false)),
        0x19 => Some((IOp::Ora, AddressingMode::AbsoluteY, 4u8, true)),
        0x1B => Some((IOp::Slo, AddressingMode::AbsoluteY, 7u8, false)),
        0x1C|0x3C|0x5C|0x7C|0xDC|0xFC => Some((IOp::NopAbs, AddressingMode::AbsoluteX, 4u8, true)),
        0x1D => Some((IOp::Ora, AddressingMode::AbsoluteX, 4u8, true)),
        0x1E => Some((IOp::AslM, AddressingMode::AbsoluteX, 5u8, false)),
        0x1F => Some((IOp::Slo, AddressingMode::AbsoluteX, 7u8, false)),
        0x20 => Some((IOp::Jsr, AddressingMode::Absolute, 6u8, false)),
        0x21 => Some((IOp::And, AddressingMode::IndirectX, 6u8, false)),
        0x24 => Some((IOp::Bit, AddressingMode::ZeroPage, 3u8, false)),
        0x25 => Some((IOp::And, AddressingMode::ZeroPage, 3u8, false)),
        0x26 => Some((IOp::RolM, AddressingMode::ZeroPage, 5u8, false)),
        0x28 => Some((IOp::Plp, AddressingMode::Implied, 4u8, false)),
        0x29 => Some((IOp::And, AddressingMode::Immediate, 2u8, false)),
        0x2A => Some((IOp::RolA, AddressingMode::Accumulator, 2u8, false)),
        0x2C => Some((IOp::Bit, AddressingMode::Absolute, 4u8, false)),
        0x2D => Some((IOp::And, AddressingMode::Absolute, 4u8, false)),
        0x2E => Some((IOp::RolM, AddressingMode::Absolute, 6u8, false)),
        0x30 => Some((IOp::Branch { flag: STATUS_N, is_set: true }, AddressingMode::Relative, 0u8, true)),
        0x31 => Some((IOp::And, AddressingMode::IndirectY, 5u8, true)),
        0x33 => Some((IOp::Rla, AddressingMode::IndirectY, 8u8, false)),
        0x35 => Some((IOp::And, AddressingMode::ZeroPageX, 4u8, false)),
        0x36 => Some((IOp::RolM, AddressingMode::ZeroPageX, 6u8, false)),
        0x38 => Some((IOp::Sec, AddressingMode::Implied, 2u8, false)),
        0x39 => Some((IOp::And, AddressingMode::AbsoluteY, 4u8, true)),
        0x3D => Some((IOp::And, AddressingMode::AbsoluteX, 4u8, true)),
        0x3E => Some((IOp::RolM, AddressingMode::AbsoluteX, 7u8, false)),
        0x40 => Some((IOp::Rti, AddressingMode::Implied, 6u8, false)),
        0x41 => Some((IOp::Eor, AddressingMode::IndirectX, 6u8, false)),
        0x45 => Some((IOp::Eor, AddressingMode::ZeroPage, 3u8, false)),
        0x46 => Some((IOp::LsrM, AddressingMode::ZeroPage, 5u8, false)),
        0x48 => Some((IOp::Pha, AddressingMode::Implied, 3u8, false)),
        0x49 => Some((IOp::Eor, AddressingMode::Immediate, 2u8, false)),
        0x4A => Some((IOp::LsrA, AddressingMode::Accumulator, 2u8, false)),
        0x4C => Some((IOp::Jmp, AddressingMode::Absolute, 3u8, false)),
        0x4D => Some((IOp::Eor, AddressingMode::Absolute, 4u8, false)),
        0x4E => Some((IOp::LsrM, AddressingMode::Absolute, 6u8, false)),
        0x50 => Some((IOp::Branch { flag: STATUS_V, is_set: false }, AddressingMode::Relative, 0u8, true)),
        0x51 => Some((IOp::Eor, AddressingMode::IndirectY, 5u8, true)),
        0x55 => Some((IOp::Eor, AddressingMode::ZeroPageX, 4u8, false)),
        0x56 => Some((IOp::LsrM, AddressingMode::ZeroPageX, 6u8, false)),
        0x58 => Some((IOp::Cli, AddressingMode::Implied, 2u8, false)),
        0x59 => Some((IOp::Eor, AddressingMode::AbsoluteY, 4u8, true)),
        0x5D => Some((IOp::Eor, AddressingMode::AbsoluteX, 4u8, true)),
        0x5E => Some((IOp::LsrM, AddressingMode::AbsoluteX, 7u8, false)),
        0x60 => Some((IOp::Rts, AddressingMode::Implied, 6u8, false)),
        0x61 => Some((IOp::Adc, AddressingMode::IndirectX, 6u8, true)),
        0x65 => Some((IOp::Adc, AddressingMode::ZeroPage, 3u8, true)),
        0x66 => Some((IOp::RorM, AddressingMode::ZeroPage, 5u8, false)),
        0x68 => Some((IOp::Pla, AddressingMode::Implied, 4u8, false)),
        0x69 => Some((IOp::Adc, AddressingMode::Immediate, 2u8, true)),
        0x6A => Some((IOp::RorA, AddressingMode::Accumulator, 2u8, false)),
        0x6C => Some((IOp::Jmp, AddressingMode::Indirect, 5u8, false)),
        0x6D => Some((IOp::Adc, AddressingMode::Absolute, 4u8, true)),
        0x6E => Some((IOp::RorM, AddressingMode::Absolute, 6u8, false)),
        0x70 => Some((IOp::Branch { flag: STATUS_V, is_set: true }, AddressingMode::Relative, 0u8, true)),
        0x71 => Some((IOp::Adc, AddressingMode::IndirectY, 5u8, true)),
        0x75 => Some((IOp::Adc, AddressingMode::ZeroPageX, 4u8, true)),
        0x76 => Some((IOp::RorM, AddressingMode::ZeroPageX, 6u8, false)),
        0x78 => Some((IOp::Sei, AddressingMode::Implied, 2u8, false)),
        0x79 => Some((IOp::Adc, AddressingMode::AbsoluteY, 4u8, true)),
        0x7B => Some((IOp::Rra, AddressingMode::AbsoluteY, 7u8, false)),
        0x7D => Some((IOp::Adc, AddressingMode::AbsoluteX, 4u8, true)),
        0x7E => Some((IOp::RorM, AddressingMode::AbsoluteX, 7u8, false)),
        0x7F => Some((IOp::Rra, AddressingMode::AbsoluteX, 7u8, false)),
        0x80|0x82|0x89|0xC2|0xE2 => Some((IOp::NopRead, AddressingMode::Immediate, 2u8, false)),
        0x81 => Some((IOp::Sta, AddressingMode::IndirectX, 6u8, false)),
        0x84 => Some((IOp::Sty, AddressingMode::ZeroPage, 3u8, false)),
        0x85 => Some((IOp::Sta, AddressingMode::ZeroPage, 3u8, false)),
        0x86 => Some((IOp::Stx, AddressingMode::ZeroPage, 3u8, false)),
        0x88 => Some((IOp::Dey, AddressingMode::Implied, 2u8, false)),
        0x8A => Some((IOp::Txa, AddressingMode::Implied, 2u8, false)),
        0x8C => Some((IOp::Sty, AddressingMode::Absolute, 4u8, false)),
        0x8D => Some((IOp::Sta, AddressingMode::Absolute, 4u8, false)),
        0x8E => Some((IOp::Stx, AddressingMode::Absolute, 4u8, false)),
        0x90 => Some((IOp::Branch { flag: STATUS_C, is_set: false }, AddressingMode::Relative, 0u8, true)),
        0x91 => Some((IOp::StaIndexed, AddressingMode::IndirectY, 6u8, false)),
        0x94 => Some((IOp::Sty, AddressingMode::ZeroPageX, 4u8, false)),
        0x95 => Some((IOp::Sta, AddressingMode::ZeroPageX, 4u8, false)),
        0x96 => Some((IOp::Stx, AddressingMode::ZeroPageY, 4u8, false)),
        0x97 => Some((IOp::Sax, AddressingMode::ZeroPageY, 4u8, false)),
        0x98 => Some((IOp::Tya, AddressingMode::Implied, 2u8, false)),
        0x99 => Some((IOp::StaIndexed, AddressingMode::AbsoluteY, 5u8, false)),
        0x9A => Some((IOp::Txs, AddressingMode::Implied, 2u8, false)),
        0x9D => Some((IOp::StaIndexed, AddressingMode::AbsoluteX, 5u8, false)),
        0xA0 => Some((IOp::LdyImm, AddressingMode::Immediate, 2u8, false)),
        0xA1 => Some((IOp::Lda, AddressingMode::IndirectX, 6u8, false)),
        0xA2 => Some((IOp::LdxImm, AddressingMode::Immediate, 2u8, false)),
        0xA4 => Some((IOp::Ldy, AddressingMode::ZeroPage, 3u8, false)),
        0xA5 => Some((IOp::Lda, AddressingMode::ZeroPage, 3u8, false)),
        0xA6 => Some((IOp::Ldx, AddressingMode::ZeroPage, 3u8, false)),
        0xA8 => Some((IOp::Tay, AddressingMode::Implied, 2u8, false)),
        0xA9 => Some((IOp::LdaImm, AddressingMode::Immediate, 2u8, false)),
        0xAA => Some((IOp::Tax, AddressingMode::Implied, 2u8, false)),
        0xAC => Some((IOp::Ldy, AddressingMode::Absolute, 4u8, false)),
        0xAD => Some((IOp::Lda, AddressingMode::Absolute, 4u8, false)),
        0xAE => Some((IOp::Ldx, AddressingMode::Absolute, 4u8, false)),
        0xB0 => Some((IOp::Branch { flag: STATUS_C, is_set: true }, AddressingMode::Relative, 0u8, true)),
        0xB1 => Some((IOp::Lda, AddressingMode::IndirectY, 5u8, true)),
        0xB4 => Some((IOp::Ldy, AddressingMode::ZeroPageX, 4u8, false)),
        0xB5 => Some((IOp::Lda, AddressingMode::ZeroPageX, 4u8, false)),
        0xB6 => Some((IOp::Ldx, AddressingMode::ZeroPageY, 4u8, false)),
        0xB7 => Some((IOp::Lax, AddressingMode::ZeroPageY, 4u8, false)),
        0xB8 => Some((IOp::Clv, AddressingMode::Implied, 2u8, false)),
        0xB9 => Some((IOp::Lda, AddressingMode::AbsoluteY, 4u8, true)),
        0xBA => Some((IOp::Tsx, AddressingMode::Implied, 2u8, false)),
        0xBC => Some((IOp::Ldy, AddressingMode::AbsoluteX, 4u8, true)),
        0xBD => Some((IOp::Lda, AddressingMode::AbsoluteX, 4u8, true)),
        0xBE => Some((IOp::Ldx, AddressingMode::AbsoluteY, 4u8, true)),
        0xC0 => Some((IOp::Cpy, AddressingMode::Immediate, 2u8, false)),
        0xC1 => Some((IOp::Cmp, AddressingMode::IndirectX, 6u8, false)),
        0xC4 => Some((IOp::Cpy, AddressingMode::ZeroPage, 3u8, false)),
        0xC5 => Some((IOp::Cmp, AddressingMode::ZeroPage, 3u8, false)),
        0xC6 => Some((IOp::Dec, AddressingMode::ZeroPage, 5u8, false)),
        0xC8 => Some((IOp::Iny, AddressingMode::Implied, 2u8, false)),
        0xC9 => Some((IOp::Cmp, AddressingMode::Immediate, 2u8, false)),
        0xCA => Some((IOp::Dex, AddressingMode::Implied, 2u8, false)),
        0xCC => Some((IOp::Cpy, AddressingMode::Absolute, 4u8, false)),
        0xCD => Some((IOp::Cmp, AddressingMode::Absolute, 4u8, false)),
        0xCE => Some((IOp::Dec, AddressingMode::Absolute, 6u8, false)),
        0xD0 => Some((IOp::Branch { flag: STATUS_Z, is_set: false }, AddressingMode::Relative, 0u8, true)),
        0xD1 => Some((IOp::Cmp, AddressingMode::IndirectY, 5u8, true)),
        0xD5 => Some((IOp::Cmp, AddressingMode::ZeroPageX, 4u8, false)),
        0xD6 => Some((IOp::Dec, AddressingMode::ZeroPageX, 6u8, false)),
        0xD8 => Some((IOp::Cld, AddressingMode::Implied, 2u8, false)),
        0xD9 => Some((IOp::Cmp, AddressingMode::AbsoluteY, 4u8, true)),
        0xDD => Some((IOp::Cmp, AddressingMode::AbsoluteX, 4u8, true)),
        0xDE => Some((IOp::Dec, AddressingMode::AbsoluteX, 7u8, false)),
        0xE0 => Some((IOp::Cpx, AddressingMode::Immediate, 2u8, false)),
        0xE1 => Some((IOp::Sbc, AddressingMode::IndirectX, 6u8, false)),
        0xE4 => Some((IOp::Cpx, AddressingMode::ZeroPage, 3u8, false)),
        0xE5 => Some((IOp::Sbc, AddressingMode::ZeroPage, 3u8, false)),
        0xE6 => Some((IOp::Inc, AddressingMode::ZeroPage, 5u8, false)),
        0xE8 => Some((IOp::Inx, AddressingMode::Implied, 2u8, false)),
        0xE9|0xEB => Some((IOp::Sbc, AddressingMode::Immediate, 2u8, false)),
        0xEA => Some((IOp::Nop, AddressingMode::Implied, 2u8, false)),
        0xEC => Some((IOp::Cpx, AddressingMode::Absolute, 4u8, false)),
        0xED => Some((IOp::Sbc, AddressingMode::Absolute, 4u8, false)),
        0xEE => Some((IOp::Inc, AddressingMode::Absolute, 6u8, false)),
        0xF0 => Some((IOp::Branch { flag: STATUS_Z, is_set: true }, AddressingMode::Relative, 0u8, true)),
        0xF1 => Some((IOp::Sbc, AddressingMode::IndirectY, 5u8, true)),
        0xF5 => Some((IOp::Sbc, AddressingMode::ZeroPageX, 4u8, false)),
        0xF6 => Some((IOp::Inc, AddressingMode::ZeroPageX, 6u8, false)),
        0xF8 => Some((IOp::Sed, AddressingMode::Implied, 2u8, false)),
        0xF9 => Some((IOp::Sbc, AddressingMode::AbsoluteY, 4u8, true)),
        0xFD => Some((IOp::Sbc, AddressingMode::AbsoluteX, 4u8, true)),
        0xFE => Some((IOp::Inc, AddressingMode::AbsoluteX, 7u8, false)),
        _ => None,
    }
}

/// Operand bytes that follow the opcode.
pub open spec fn operand_len(mode: AddressingMode) -> u16 {
    match mode {
        AddressingMode::Immediate | AddressingMode::ZeroPage | AddressingMode::ZeroPageX
        | AddressingMode::ZeroPageY | AddressingMode::IndirectX | AddressingMode::IndirectY => 1,
        AddressingMode::Absolute | AddressingMode::AbsoluteX | AddressingMode::AbsoluteY
        | AddressingMode::Indirect => 2,
        _ => 0,
    }
}

/// Operand bytes of the indexed stores (which take no others).
pub open spec fn indexed_store_len(mode: AddressingMode) -> u16 {
    match mode {
        AddressingMode::AbsoluteX | AddressingMode::AbsoluteY => 2,
        AddressingMode::IndirectY => 1,
        _ => 0,
    }
}

/// The indexed modes whose effective address can land on the next page.
pub open spec fn may_cross(mode: AddressingMode) -> bool {
    mode == AddressingMode::AbsoluteX || mode == AddressingMode::AbsoluteY || mode == AddressingMode::IndirectY
}

/// The 16-bit BCD-or-binary add of the accumulator, the operand and the
/// carry: the new accumulator and status byte.
pub open spec fn adc_i(cfg: CpuConfig, a: u8, p: u8, v: u8) -> (u8, u8) {
    let cin: u8 = if p & STATUS_C == STATUS_C { 1 } else { 0 };
    let sum: u16 = (a as u16 + v as u16 + cin as u16) as u16;
    let raw = (sum & 0xFF) as u8;
    let overflow = (!(a ^ v) & (a ^ raw) & 0x80) != 0;
    if cfg.has_bcd && p & STATUS_D == STATUS_D {
        let lo0: u8 = ((a & 0x0F) + (v & 0x0F) + cin) as u8;
        let hi0: u8 = ((a >> 4u8) + (v >> 4u8)) as u8;
        let lo: u8 = if lo0 > 9 { (lo0 + 6) as u8 } else { lo0 };
        let hi1: u8 = if lo0 > 9 { (hi0 + 1) as u8 } else { hi0 };
        let carry = hi1 > 9;
        let hi: u8 = if carry { (hi1 + 6) as u8 } else { hi1 };
        let na = ((hi << 4u8) & 0xF0) | (lo & 0x0F);
        let p1 = set_flag(set_flag(p, STATUS_V, overflow), STATUS_C, carry);
        (na, with_nz(p1, if cfg.is_c02 { na } else { raw }))
    } else {
        let p1 = set_flag(set_flag(p, STATUS_C, sum > 0xFF), STATUS_V, overflow);
        (raw, with_nz(p1, raw))
    }
}

/// Bus `t` is bus `s` after reading a little-endian word, its low byte at
/// `lo_at` and its high byte at `hi_at`: where both hold memory, `w` is that
/// word and the memory is kept.
pub open spec fn word_read<B: AddressBus + ?Sized>(s: &B, t: &B, lo_at: u16, hi_at: u16, w: u16) -> bool {
    (s.holds_memory(lo_at) && s.holds_memory(hi_at)) ==> {
        &&& w == s.memory_byte(hi_at) * 256 + s.memory_byte(lo_at)
        &&& memory_kept(s, t)
    }
}

/// Bus `t` is bus `s` after word `w` was pushed with stack pointer `sp`:
/// where both stack bytes hold memory, the high byte is at $0100 + `sp`,
/// the low byte just below it, and the rest of the memory is kept.
pub open spec fn word_pushed<B: AddressBus + ?Sized>(s: &B, t: &B, sp: u8, w: u16) -> bool {
    let hi_at = (0x100 + sp) as u16;
    let lo_at = (0x100 + sp.wrapping_sub(1)) as u16;
    (s.holds_memory(hi_at) && s.holds_memory(lo_at)) ==> forall|a: u16|
        #![trigger s.holds_memory(a)]
        #![trigger t.holds_memory(a)]
        #![trigger t.memory_byte(a)]
        s.holds_memory(a) == t.holds_memory(a) && (s.holds_memory(a) ==> t.memory_byte(a) == (if a == hi_at {
            ((w >> 8u16) & 0xFF) as u8
        } else if a == lo_at {
            (w & 0xFF) as u8
        } else {
            s.memory_byte(a)
        }))
}

/// The bus side of JSR and RTS (`t` and `b1` from `s` and `b0`): JSR reads
/// its target word at PC and pushes the address of its last operand byte;
/// RTS pulls a word and continues after it.
pub open spec fn subroutine_bus<B: AddressBus + ?Sized>(op: IOp, s: M6502Cpu, t: M6502Cpu, b0: &B, b1: &B) -> bool {
    match op {
        IOp::Jsr => {
            let ret = s.pc.wrapping_add(1);
            let hi_at = (0x100 + s.sp) as u16;
            let lo_at = (0x100 + s.sp.wrapping_sub(1)) as u16;
            (b0.holds_memory(s.pc) && b0.holds_memory(s.pc.wrapping_add(1))) ==> {
                &&& t.pc == b0.memory_byte(s.pc.wrapping_add(1)) * 256 + b0.memory_byte(s.pc)
                &&& (b0.holds_memory(hi_at) && b0.holds_memory(lo_at)) ==> forall|a: u16|
                    #![trigger b0.holds_memory(a)]
                    #![trigger b1.holds_memory(a)]
                    #![trigger b1.memory_byte(a)]
                    b0.holds_memory(a) == b1.holds_memory(a) && (b0.holds_memory(a) ==> b1.memory_byte(a) == (if a == hi_at {
                        ((ret >> 8u16) & 0xFF) as u8
                    } else if a == lo_at {
                        (ret & 0xFF) as u8
                    } else {
                        b0.memory_byte(a)
                    }))
            }
        },
        IOp::Rts => {
            let lo_at = (0x100 + s.sp.wrapping_add(1)) as u16;
            let hi_at = (0x100 + s.sp.wrapping_add(1).wrapping_add(1)) as u16;
            (b0.holds_memory(lo_at) && b0.holds_memory(hi_at)) ==> {
                &&& t.pc == ((b0.memory_byte(hi_at) * 256 + b0.memory_byte(lo_at) + 1) % 0x10000) as u16
                &&& memory_kept(b0, b1)
            }
        },
        _ => true,
    }
}

impl M6502Cpu {
    pub open spec fn with_p(self, bits: u8) -> Self {
        M6502Cpu { p: Status { bits }, ..self }
    }

    /// The CPU with `last_cycles` replaced.
    pub open spec fn with_last_cycles(self, c: u8) -> Self {
        M6502Cpu { last_cycles: c, ..self }
    }

    /// The CPU after the operand bytes of `mode` were consumed; `crossed`
    /// is the page-crossing flag the indexed modes leave.
    pub open spec fn fetched(self, mode: AddressingMode, crossed: bool) -> Self {
        M6502Cpu {
            pc: self.pc.wrapping_add(operand_len(mode)),
            operand_address_crossed_page: if may_cross(mode) { crossed } else { false },
            ..self
        }
    }

    /// Compare: carry when the operand is at most the register, Z and N
    /// from the difference.
    pub open spec fn compared(self, reg: u8, v: u8) -> Self {
        self.with_p(with_nz(set_flag(self.p.bits, STATUS_C, v <= reg), reg.wrapping_sub(v)))
    }

    /// Load, logic, arithmetic, compare and BIT with operand `v`.
    pub open spec fn alu_effect(self, op: IOp, mode: AddressingMode, v: u8) -> Self {
        let p = self.p.bits;
        match op {
            IOp::Adc => {
                let (a, np) = adc_i(self.config, self.a, p, v);
                M6502Cpu { a, ..self.with_p(np) }
            },
            IOp::Sbc => {
                let (a, np) = adc_i(self.config, self.a, p, v ^ 0xFF);
                M6502Cpu { a, ..self.with_p(np) }
            },
            IOp::And => M6502Cpu { a: self.a & v, ..self.with_p(with_nz(p, self.a & v)) },
            IOp::Eor => M6502Cpu { a: self.a ^ v, ..self.with_p(with_nz(p, self.a ^ v)) },
            IOp::Ora => M6502Cpu { a: self.a | v, ..self.with_p(with_nz(p, self.a | v)) },
            IOp::Cmp => self.compared(self.a, v),
            IOp::Cpx => self.compared(self.x, v),
            IOp::Cpy => self.compared(self.y, v),
            IOp::Lda => M6502Cpu { a: v, ..self.with_p(with_nz(p, v)) },
            IOp::Ldx => M6502Cpu { x: v, ..self.with_p(with_nz(p, v)) },
            IOp::Ldy => M6502Cpu { y: v, ..self.with_p(with_nz(p, v)) },
            IOp::Bit => {
                let pz = set_flag(p, STATUS_Z, v & self.a == 0);
                if mode == AddressingMode::Immediate {
                    self.with_p(pz)
                } else {
                    self.with_p(set_flag(set_flag(pz, STATUS_N, v & 0x80 != 0), STATUS_V, v & 0x40 != 0))
                }
            },
            _ => self,
        }
    }

    /// A shift or rotate of `v` with the carry: (result, new status).
    pub open spec fn shifted(self, op: IOp, v: u8) -> (u8, u8) {
        let p = self.p.bits;
        let cin = p & STATUS_C == STATUS_C;
        let (r, cout) = match op {
            IOp::AslA | IOp::AslM | IOp::Slo => (v << 1u8, v & 0x80 != 0),
            IOp::LsrA | IOp::LsrM => (v >> 1u8, v & 0x01 != 0),
            IOp::RolA | IOp::RolM | IOp::Rla => ((v << 1u8) | (if cin { 1u8 } else { 0u8 }), v & 0x80 != 0),
            _ => ((v >> 1u8) | (if cin { 0x80u8 } else { 0u8 }), v & 0x01 != 0),
        };
        (r, with_nz(set_flag(p, STATUS_C, cout), r))
    }

    /// Read-modify-write instructions on operand `v`: the registers after
    /// them (the byte written back is not part of the CPU).
    pub open spec fn rmw_effect(self, op: IOp, v: u8) -> Self {
        match op {
            IOp::Inc => self.with_p(with_nz(self.p.bits, v.wrapping_add(1))),
            IOp::Dec => self.with_p(with_nz(self.p.bits, v.wrapping_sub(1))),
            IOp::Slo => {
                let (r, np) = self.shifted(op, v);
                M6502Cpu { a: self.a | r, ..self.with_p(with_nz(np, self.a | r)) }
            },
            IOp::Rla => {
                let (r, np) = self.shifted(op, v);
                M6502Cpu { a: self.a & r, ..self.with_p(with_nz(np, self.a & r)) }
            },
            IOp::Rra => {
                let (r, np) = self.shifted(IOp::RorM, v);
                self.with_p(np).alu_effect(IOp::Adc, AddressingMode::Implied, r)
            },
            _ => {
                let (r, np) = self.shifted(op, v);
                self.with_p(np)
            },
        }
    }

    /// The CPU after one operand byte at PC was read.
    pub open spec fn pc_advanced(self) -> Self {
        M6502Cpu { pc: self.pc.wrapping_add(1), ..self }
    }

    /// LAX: the operand into A and X.
    pub open spec fn lax_effect(self, v: u8) -> Self {
        M6502Cpu { a: v, x: v, ..self.with_p(with_nz(self.p.bits, v)) }
    }

    /// PLA with the pulled byte `v`.
    pub open spec fn pla_effect(self, v: u8) -> Self {
        M6502Cpu { a: v, sp: self.sp.wrapping_add(1), ..self.with_p(with_nz(self.p.bits, v)) }
    }

    /// PLP with the pulled byte `raw`.
    pub open spec fn plp_effect(self, raw: u8) -> Self {
        M6502Cpu { sp: self.sp.wrapping_add(1), ..self.with_p(pulled_status(raw)) }
    }

    /// The flag, transfer, register-increment and accumulator-shift
    /// instructions.
    pub open spec fn implied_effect(self, op: IOp) -> Self {
        let p = self.p.bits;
        match op {
            IOp::Clc => self.with_p(p & !STATUS_C),
            IOp::Sec => self.with_p(p | STATUS_C),
            IOp::Cli => self.with_p(p & !STATUS_I),
            IOp::Sei => self.with_p(p | STATUS_I),
            IOp::Clv => self.with_p(p & !STATUS_V),
            IOp::Cld => self.with_p(p & !STATUS_D),
            IOp::Sed => self.with_p(p | STATUS_D),
            IOp::Tax => M6502Cpu { x: self.a, ..self.with_p(with_nz(p, self.a)) },
            IOp::Txa => M6502Cpu { a: self.x, ..self.with_p(with_nz(p, self.x)) },
            IOp::Tay => M6502Cpu { y: self.a, ..self.with_p(with_nz(p, self.a)) },
            IOp::Tya => M6502Cpu { a: self.y, ..self.with_p(with_nz(p, self.y)) },
            IOp::Txs => M6502Cpu { sp: self.x, ..self },
            IOp::Tsx => M6502Cpu { x: self.sp, ..self.with_p(with_nz(p, self.sp)) },
            IOp::Inx => M6502Cpu { x: self.x.wrapping_add(1), ..self.with_p(with_nz(p, self.x.wrapping_add(1))) },
            IOp::Dex => M6502Cpu { x: self.x.wrapping_sub(1), ..self.with_p(with_nz(p, self.x.wrapping_sub(1))) },
            IOp::Iny => M6502Cpu { y: self.y.wrapping_add(1), ..self.with_p(with_nz(p, self.y.wrapping_add(1))) },
            IOp::Dey => M6502Cpu { y: self.y.wrapping_sub(1), ..self.with_p(with_nz(p, self.y.wrapping_sub(1))) },
            IOp::AslA | IOp::LsrA | IOp::RolA | IOp::RorA => {
                let (r, np) = self.shifted(op, self.a);
                M6502Cpu { a: r, ..self.with_p(np) }
            },
            _ => self,
        }
    }
}

/// The operations whose effect does not depend on the addressing mode.
pub open spec fn mode_free(op: IOp) -> bool {
    match op {
        IOp::Adc | IOp::Sbc | IOp::And | IOp::Eor | IOp::Ora | IOp::Cmp | IOp::Cpx | IOp::Cpy | IOp::Lda
        | IOp::Ldx | IOp::Ldy | IOp::Bit | IOp::LdaImm | IOp::LdxImm | IOp::LdyImm | IOp::AslM | IOp::LsrM
        | IOp::RolM | IOp::RorM | IOp::Inc | IOp::Dec | IOp::Rra | IOp::Rla | IOp::Slo | IOp::NopAbs
        | IOp::Sta | IOp::Stx | IOp::Sty | IOp::Sax | IOp::StaIndexed => false,
        _ => true,
    }
}

proof fn lemma_op_ok_mode_free(op: IOp, m1: AddressingMode, m2: AddressingMode, s: M6502Cpu, t: M6502Cpu, extra: u8)
    requires
        mode_free(op),
        op_ok(op, m1, s, t, extra),
    ensures
        op_ok(op, m2, s, t, extra),
{
    reveal(op_ok);
}

/// What every instruction keeps, and the bound on what its handler reports.
#[verifier::rlimit(40)]
proof fn lemma_op_ok_facts(op: IOp, mode: AddressingMode, s: M6502Cpu, t: M6502Cpu, extra: u8)
    requires
        op_ok(op, mode, s, t, extra),
    ensures
        t.last_cycles == s.last_cycles,
        t.cycles_remaining == s.cycles_remaining,
        counts_extra(op) && !(op is Branch) ==> extra <= 1,
        op is Branch ==> 2 <= extra <= 4,
{
    reveal(op_ok);
}

/// Setting Z and N twice keeps only the second result's.
proof fn lemma_nz_twice(p: u8, r: u8, x: u8)
    ensures
        with_nz(with_nz(p, r), x) == with_nz(p, x),
{
    assert(with_nz(with_nz(p, r), x) == with_nz(p, x)) by (bit_vector);
}

/// The 16-bit address `pc` moved by the signed displacement `off`.
pub open spec fn rel_target(pc: u16, off: u8) -> u16 {
    let d: int = if off < 0x80 { off as int } else { off as int - 256 };
    let s = pc + d;
    if s > 0xFFFF { (s - 0x10000) as u16 } else if s < 0 { (s + 0x10000) as u16 } else { s as u16 }
}

/// One instruction's effect on the CPU: `s` after the opcode fetch, `t`
/// when the instruction is done (before its cycle count is stored), `extra`
/// what the handler reported (page-crossing cycle, or a branch's cycles).
/// Bytes read from the bus (operands, pulled bytes, vectors) are free; the
/// rest is fixed.
#[verifier::opaque]
pub open spec fn op_ok(op: IOp, mode: AddressingMode, s: M6502Cpu, t: M6502Cpu, extra: u8) -> bool {
    let crossed = t.operand_address_crossed_page;
    let page_extra: u8 = if crossed { 1 } else { 0 };
    let f = s.fetched(mode, crossed);
    match op {
        IOp::Adc | IOp::Sbc | IOp::And | IOp::Eor | IOp::Ora | IOp::Cmp | IOp::Cpx | IOp::Cpy
        | IOp::Lda | IOp::Ldx | IOp::Ldy => {
            &&& extra == page_extra
            &&& exists|v: u8| t == #[trigger] f.alu_effect(op, mode, v)
        },
        IOp::Bit => exists|v: u8| t == #[trigger] f.alu_effect(op, mode, v),
        IOp::LdaImm => exists|v: u8| t == #[trigger] s.pc_advanced().alu_effect(IOp::Lda, mode, v),
        IOp::LdxImm => exists|v: u8| t == #[trigger] s.pc_advanced().alu_effect(IOp::Ldx, mode, v),
        IOp::LdyImm => exists|v: u8| t == #[trigger] s.pc_advanced().alu_effect(IOp::Ldy, mode, v),
        IOp::AslM | IOp::LsrM | IOp::RolM | IOp::RorM | IOp::Inc | IOp::Dec | IOp::Rra | IOp::Rla => {
            exists|v: u8| t == #[trigger] f.rmw_effect(op, v)
        },
        IOp::Slo => {
            &&& extra == page_extra
            &&& exists|v: u8| t == #[trigger] f.rmw_effect(op, v)
        },
        IOp::Anc => {
            let g = s.fetched(AddressingMode::Immediate, false);
            let a = g.a & (s.pc as u8);
            t == (M6502Cpu { a, ..g.with_p(set_flag(with_nz(g.p.bits, a), STATUS_C, a & 0x80 != 0)) })
        },
        IOp::Lax => exists|v: u8| t == #[trigger] s.fetched(AddressingMode::ZeroPageY, false).lax_effect(v),
        IOp::Sta | IOp::Stx | IOp::Sty | IOp::Sax => t == f,
        IOp::StaIndexed => t == (M6502Cpu { pc: s.pc.wrapping_add(indexed_store_len(mode)), ..s }),
        IOp::NopAbs => extra == page_extra && t == f,
        IOp::NopRead => t == (M6502Cpu { pc: s.pc.wrapping_add(1), ..s }),
        IOp::Nop | IOp::NopImplied => t == s,
        IOp::Branch { flag, is_set } => {
            let next = s.pc.wrapping_add(1);
            let taken = (s.p.bits & flag == flag) == is_set;
            &&& t == (M6502Cpu { pc: t.pc, ..s })
            &&& (!taken ==> t.pc == next && extra == 2)
            &&& (taken ==> (exists|off: u8| t.pc == #[trigger] rel_target(next, off))
                && extra == (if t.pc & 0xFF00 != next & 0xFF00 { 4u8 } else { 3u8 }))
        },
        IOp::Jmp => t == (M6502Cpu { pc: t.pc, ..s }),
        IOp::Jsr => t == (M6502Cpu { pc: t.pc, sp: s.sp.wrapping_sub(2), ..s }),
        IOp::Rts => t == (M6502Cpu { pc: t.pc, sp: s.sp.wrapping_add(2), ..s }),
        IOp::Rti => {
            &&& t == (M6502Cpu { pc: t.pc, p: t.p, sp: s.sp.wrapping_add(3), is_running: true, ..s })
            &&& exists|raw: u8| t.p.bits == #[trigger] pulled_status(raw)
        },
        IOp::Brk => t == (M6502Cpu { pc: t.pc, sp: s.sp.wrapping_sub(3), ..s.with_p(s.p.bits | STATUS_I) }),
        IOp::Pha | IOp::Php => t == (M6502Cpu { sp: s.sp.wrapping_sub(1), ..s }),
        IOp::Pla => exists|v: u8| t == #[trigger] s.pla_effect(v),
        IOp::Plp => exists|raw: u8| t == #[trigger] s.plp_effect(raw),
        _ => t == s.implied_effect(op),
    }
}

impl M6502Cpu {
    pub fn new(variant: CpuVariant) -> (r: Self)
        ensures
            r.config == config_of(variant),
            r.pc == 0 && r.sp == 0xFD && r.a == 0 && r.x == 0 && r.y == 0 && r.p.bits == 0,
            !r.nmi_armed && !r.nmi_pending && !r.prev_nmi_line && !r.is_running,
            r.last_cycles == 0 && r.last_opcode == 0 && r.total_cycles == 0 && r.cycles_remaining == 0,
            r.stall_cycles == 0 && !r.operand_address_crossed_page,
    {
        let config = match variant {
            CpuVariant::NMOS6502 => CpuConfig { has_bcd: true, has_jmp_bug: true, is_c02: false },
            CpuVariant::Ricoh2A03 => CpuConfig { has_bcd: false, has_jmp_bug: true, is_c02: false },
            CpuVariant::WDC65C02 => CpuConfig { has_bcd: true, has_jmp_bug: false, is_c02: true },
        };
        Self {
            pc: 0,
            sp: 0xfd,
            a: 0,
            x: 0,
            y: 0,
            p: Status::empty(),
            nmi_armed: false,
            nmi_pending: false,
            prev_nmi_line: false,
            last_cycles: 0,
            last_opcode: 0,
            total_cycles: 0,
            operand_address_crossed_page: false,
            is_running: false,
            config,
            cycles_remaining: 0,
            stall_cycles: 0,
        }
    }

    pub fn is_interrupt_disabled(&self) -> (r: bool)
        ensures
            r == (self.p.bits & STATUS_I == STATUS_I),
    {
        self.p.contains(STATUS_I)
    }

    /// Power-on: registers cleared, SP at $FD, I, U and B set, PC from the
    /// reset vector.
    pub fn power_on<B: AddressBus + ?Sized>(&mut self, bus: &mut B)
        ensures
            *final(self) == (M6502Cpu {
                is_running: true,
                a: 0,
                x: 0,
                y: 0,
                sp: 0xFD,
                nmi_armed: false,
                nmi_pending: false,
                prev_nmi_line: false,
                last_cycles: 0,
                last_opcode: 0,
                total_cycles: 0,
                operand_address_crossed_page: false,
                pc: final(self).pc,
                ..old(self).with_p(old(self).p.bits | STATUS_I | STATUS_U | STATUS_B)
            }),
            (old(bus).holds_memory(0xFFFC) && old(bus).holds_memory(0xFFFD))
                ==> final(self).pc == old(bus).memory_byte(0xFFFD) * 256 + old(bus).memory_byte(0xFFFC),
    {
        self.is_running = true;
        self.a = 0;
        self.x = 0;
        self.y = 0;
        self.sp = 0xFD;
        self.nmi_armed = false;
        self.nmi_pending = false;
        self.prev_nmi_line = false;
        self.last_cycles = 0;
        self.last_opcode = 0;
        self.total_cycles = 0;
        self.operand_address_crossed_page = false;
        self.p.insert(STATUS_I);
        self.p.insert(STATUS_U);
        self.p.insert(STATUS_B);
        let lo = bus.read_byte(0xFFFC) as u16;
        let hi = bus.read_byte(0xFFFD) as u16;
        proof {
            crate::bits::lemma_pair(hi as u8, lo as u8);
        }
        self.pc = (hi << 8u16) | lo;
    }

    /// Reset: SP down by three, registers cleared, I set, PC from the reset
    /// vector; the CPU is left stopped.
    pub fn reset<B: AddressBus + ?Sized>(&mut self, bus: &mut B)
        ensures
            *final(self) == (M6502Cpu {
                sp: old(self).sp.wrapping_sub(3),
                a: 0,
                x: 0,
                y: 0,
                nmi_armed: false,
                nmi_pending: false,
                prev_nmi_line: false,
                last_cycles: 0,
                last_opcode: 0,
                total_cycles: 0,
                operand_address_crossed_page: false,
                is_running: false,
                pc: final(self).pc,
                ..old(self).with_p(old(self).p.bits | STATUS_I)
            }),
            (old(bus).holds_memory(0xFFFC) && old(bus).holds_memory(0xFFFD))
                ==> final(self).pc == old(bus).memory_byte(0xFFFD) * 256 + old(bus).memory_byte(0xFFFC),
    {
        self.sp = self.sp.wrapping_sub(3);
        self.a = 0;
        self.x = 0;
        self.y = 0;
        self.p.insert(STATUS_I);
        self.nmi_armed = false;
        self.nmi_pending = false;
        self.prev_nmi_line = false;
        self.last_cycles = 0;
        self.last_opcode = 0;
        self.total_cycles = 0;
        self.operand_address_crossed_page = false;
        self.is_running = false;
        let lo = bus.read_byte(0xFFFC) as u16;
        let hi = bus.read_byte(0xFFFD) as u16;
        proof {
            crate::bits::lemma_pair(hi as u8, lo as u8);
        }
        self.pc = (hi << 8u16) | lo;
    }

    /// One CPU cycle: waits out the current instruction, else takes a
    /// pending NMI or IRQ, else fetches and runs the next instruction.
    /// Always one cycle (`Ok(1)`), except on an opcode without an
    /// implementation.
    pub fn step<B: AddressBus + ?Sized>(&mut self, bus: &mut B) -> (r: Result<u8, CpuError>)
        ensures
            r is Ok ==> r == Ok::<u8, CpuError>(1),
            old(self).cycles_remaining > 0 ==> r is Ok
                && *final(self) == (M6502Cpu { cycles_remaining: (old(self).cycles_remaining - 1) as u8, ..*old(self) }),
            r matches Err(CpuError::UnimplementedOpcode(op)) ==> decode_i(op) is None && final(self).last_opcode == op,
            final(self).config == old(self).config,
    {
        if self.cycles_remaining > 0 {
            self.cycles_remaining = self.cycles_remaining - 1;
            return Ok(1);
        }
        let current_nmi_line = bus.is_nmi_line_asserted();
        if !self.prev_nmi_line && current_nmi_line {
            self.nmi_pending = true;
        }
        self.prev_nmi_line = current_nmi_line;
        if self.nmi_pending {
            self.nmi_pending = false;
            let nmi_cycles = self.trigger_nmi(bus);
            self.cycles_remaining = nmi_cycles - 1;
            return Ok(1);
        }
        if bus.is_irq_line_asserted() && !self.p.contains(STATUS_I) {
            let irq_cycles = self.trigger_irq(bus);
            self.cycles_remaining = irq_cycles - 1;
            return Ok(1);
        }
        let opcode = bus.read_byte(self.pc);
        self.last_opcode = opcode;
        self.pc = self.pc.wrapping_add(1);
        self.last_cycles = 0;
        let ok = self.execute(opcode, bus);
        if !ok {
            return Err(CpuError::UnimplementedOpcode(opcode));
        }
        self.cycles_remaining = self.cycles_remaining + (self.last_cycles - 1);
        Ok(1)
    }

    /// Runs one instruction (its opcode already fetched) and stores its
    /// cycle count in `last_cycles`. Returns false, changing nothing, for
    /// an opcode without an implementation.
    pub fn execute<B: AddressBus + ?Sized>(&mut self, opcode: u8, bus: &mut B) -> (r: bool)
        ensures
            r == (decode_i(opcode) is Some),
            decode_i(opcode) is None ==> *final(self) == *old(self),
            decode_i(opcode) matches Some((op, mode, base, adds)) ==> exists|extra: u8| {
                &&& #[trigger] op_ok(op, mode, *old(self), final(self).with_last_cycles(old(self).last_cycles), extra)
                &&& final(self).last_cycles == (if adds { base + extra } else { base as int })
            },
            final(self).config == old(self).config,
            decode_i(opcode) is Some ==> 2 <= final(self).last_cycles <= 8,
            final(self).cycles_remaining == old(self).cycles_remaining,
            decode_i(opcode) matches Some((op, mode, base, adds)) ==> subroutine_bus(op, *old(self), *final(self), old(bus), final(bus)),
    {
        match decode_instruction(opcode) {
            None => false,
            Some((op, mode, base, adds)) => {
                let extra = self.perform(op, mode, bus);
                let ghost done = *self;
                proof {
                    lemma_op_ok_facts(op, mode, *old(self), done, extra);
                }
                self.last_cycles = if adds { base + extra } else { base };
                assert(self.with_last_cycles(old(self).last_cycles) == done);
                assert(op_ok(op, mode, *old(self), self.with_last_cycles(old(self).last_cycles), extra));
                true
            },
        }
    }

    /// Runs operation `op` in addressing mode `mode`.
    fn perform<B: AddressBus + ?Sized>(&mut self, op: IOp, mode: AddressingMode, bus: &mut B) -> (extra: u8)
        ensures
            op_ok(op, mode, *old(self), *final(self), extra),
            final(self).config == old(self).config,
            subroutine_bus(op, *old(self), *final(self), old(bus), final(bus)),
    {
        match op {
            IOp::Adc | IOp::Sbc | IOp::And | IOp::Eor | IOp::Ora | IOp::Cmp | IOp::Cpx | IOp::Cpy
            | IOp::Lda | IOp::Ldx | IOp::Ldy | IOp::Bit | IOp::LdaImm | IOp::LdxImm | IOp::LdyImm => self.perform_read(op, mode, bus),
            IOp::AslM | IOp::LsrM | IOp::RolM | IOp::RorM | IOp::Inc | IOp::Dec | IOp::Rra | IOp::Rla
            | IOp::Slo | IOp::Anc | IOp::Lax => self.perform_rmw(op, mode, bus),
            IOp::Sta | IOp::Stx | IOp::Sty | IOp::Sax | IOp::StaIndexed | IOp::NopAbs | IOp::NopRead
            | IOp::Nop | IOp::NopImplied => self.perform_store(op, mode, bus),
            IOp::Branch { .. } | IOp::Jmp | IOp::Jsr | IOp::Rts | IOp::Rti | IOp::Brk | IOp::Pha | IOp::Php
            | IOp::Pla | IOp::Plp => self.perform_control(op, mode, bus),
            _ => {
                let extra = self.perform_implied(op);
                proof {
                    lemma_op_ok_mode_free(op, AddressingMode::Implied, mode, *old(self), *self, extra);
                }
                extra
            },
        }
    }

    #[verifier::spinoff_prover]
    #[verifier::rlimit(60)]
    fn perform_read<B: AddressBus + ?Sized>(&mut self, op: IOp, mode: AddressingMode, bus: &mut B) -> (extra: u8)
        requires
            op is Adc || op is Sbc || op is And || op is Eor || op is Ora || op is Cmp || op is Cpx || op is Cpy
                || op is Lda || op is Ldx || op is Ldy || op is Bit || op is LdaImm || op is LdxImm || op is LdyImm,
        ensures
            op_ok(op, mode, *old(self), *final(self), extra),
            final(self).config == old(self).config,
    {
        reveal(op_ok);
        match op {
            IOp::Adc => {
                let e = self._op_adc(bus, mode);
                assert(op_ok(op, mode, *old(self), *self, e));
                e
            },
            IOp::Sbc => {
                let e = self._op_sbc(bus, mode);
                assert(op_ok(op, mode, *old(self), *self, e));
                e
            },
            IOp::And => {
                let e = self._op_and_a(bus, mode);
                assert(op_ok(op, mode, *old(self), *self, e));
                e
            },
            IOp::Eor => {
                let e = self.exclusive_or_with_a(bus, mode);
                assert(op_ok(op, mode, *old(self), *self, e));
                e
            },
            IOp::Ora => {
                let e = self.op_ora(bus, mode);
                assert(op_ok(op, mode, *old(self), *self, e));
                e
            },
            IOp::Cmp => {
                let e = self.compare_a(bus, mode);
                assert(op_ok(op, mode, *old(self), *self, e));
                e
            },
            IOp::Cpx => {
                let e = self.compare_x(bus, mode);
                assert(op_ok(op, mode, *old(self), *self, e));
                e
            },
            IOp::Cpy => {
                let e = self.compare_y(bus, mode);
                assert(op_ok(op, mode, *old(self), *self, e));
                e
            },
            IOp::Lda => {
                let e = self.load_register_a(bus, mode);
                assert(op_ok(op, mode, *old(self), *self, e));
                e
            },
            IOp::Ldx => {
                let e = self.load_register_x(bus, mode);
                assert(op_ok(op, mode, *old(self), *self, e));
                e
            },
            IOp::Ldy => {
                let e = self.load_register_y(bus, mode);
                assert(op_ok(op, mode, *old(self), *self, e));
                e
            },
            IOp::Bit => {
                self.bit_test_a(bus, mode);
                assert(op_ok(op, mode, *old(self), *self, 0));
                0
            },
            IOp::LdaImm => {
                let v = self._read_pc(bus);
                self.a = v;
                self.update_z_n_flags(v);
                assert(*self == old(self).pc_advanced().alu_effect(IOp::Lda, mode, v));
                0
            },
            IOp::LdxImm => {
                let v = self._read_pc(bus);
                self.x = v;
                self.update_z_n_flags(v);
                assert(*self == old(self).pc_advanced().alu_effect(IOp::Ldx, mode, v));
                0
            },
            _ => {
                let v = self._read_pc(bus);
                self.y = v;
                self.update_z_n_flags(v);
                assert(*self == old(self).pc_advanced().alu_effect(IOp::Ldy, mode, v));
                0
            },
        }
    }

    #[verifier::spinoff_prover]
    #[verifier::rlimit(60)]
    fn perform_rmw<B: AddressBus + ?Sized>(&mut self, op: IOp, mode: AddressingMode, bus: &mut B) -> (extra: u8)
        requires
            op is AslM || op is LsrM || op is RolM || op is RorM || op is Inc || op is Dec || op is Rra || op is Rla
                || op is Slo || op is Anc || op is Lax,
        ensures
            op_ok(op, mode, *old(self), *final(self), extra),
            final(self).config == old(self).config,
    {
        reveal(op_ok);
        match op {
            IOp::AslM => {
                self._op_asl_memory(bus, mode);
                assert(op_ok(op, mode, *old(self), *self, 0));
                0
            },
            IOp::LsrM => {
                self.logical_shift_right_memory(bus, mode);
                assert(op_ok(op, mode, *old(self), *self, 0));
                0
            },
            IOp::RolM => {
                self.rotate_left_memory(bus, mode);
                assert(op_ok(op, mode, *old(self), *self, 0));
                0
            },
            IOp::RorM => {
                self.rotate_right_memory(bus, mode);
                assert(op_ok(op, mode, *old(self), *self, 0));
                0
            },
            IOp::Inc => {
                self.increment_memory(bus, mode, 1);
                assert(op_ok(op, mode, *old(self), *self, 0));
                0
            },
            IOp::Dec => {
                self.increment_memory(bus, mode, -1);
                assert(op_ok(op, mode, *old(self), *self, 0));
                0
            },
            IOp::Rra => {
                self.rotate_right_memory_then_add_to_a(bus, mode);
                assert(op_ok(op, mode, *old(self), *self, 0));
                0
            },
            IOp::Slo => {
                let e = self.op_slo(bus, mode);
                assert(op_ok(op, mode, *old(self), *self, e));
                e
            },
            IOp::Rla => {
                let addr = self.get_operand_address(bus, mode);
                let val = bus.read_byte(addr);
                let ghost g = *self;
                let old_carry: u8 = if self.p.contains(STATUS_C) { 1 } else { 0 };
                if (val & 0x80) != 0 {
                    self.p.insert(STATUS_C);
                } else {
                    self.p.remove(STATUS_C);
                }
                let rotated = (val << 1u8) | old_carry;
                bus.write_byte(addr, rotated);
                self.a = self.a & rotated;
                self.update_z_n_flags(self.a);
                proof {
                    lemma_nz_twice(set_flag(g.p.bits, STATUS_C, val & 0x80 != 0), rotated, self.a);
                }
                assert(*self == g.rmw_effect(IOp::Rla, val));
                assert(*self == old(self).fetched(mode, self.operand_address_crossed_page).rmw_effect(IOp::Rla, val));
                0
            },
            IOp::Anc => {
                let pc = self.get_operand_address(bus, AddressingMode::Immediate);
                let val = pc as u8;
                let ghost g = *self;
                assert(g == old(self).fetched(AddressingMode::Immediate, false));
                self.a = self.a & val;
                self.update_z_n_flags(self.a);
                let carry = self.a & 0x80 != 0;
                if carry {
                    self.p.insert(STATUS_C);
                } else {
                    self.p.remove(STATUS_C);
                }
                assert(op_ok(op, mode, *old(self), *self, 0));
                0
            },
            _ => {
                let addr = self.get_operand_address(bus, AddressingMode::ZeroPageY);
                let value = bus.read_byte(addr);
                self.a = value;
                self.x = value;
                self.update_z_n_flags(value);
                assert(*self == old(self).fetched(AddressingMode::ZeroPageY, false).lax_effect(value));
                0
            },
        }
    }

    #[verifier::spinoff_prover]
    #[verifier::rlimit(60)]
    fn perform_store<B: AddressBus + ?Sized>(&mut self, op: IOp, mode: AddressingMode, bus: &mut B) -> (extra: u8)
        requires
            op is Sta || op is Stx || op is Sty || op is Sax || op is StaIndexed || op is NopAbs || op is NopRead
                || op is Nop || op is NopImplied,
        ensures
            op_ok(op, mode, *old(self), *final(self), extra),
            final(self).config == old(self).config,
    {
        reveal(op_ok);
        match op {
            IOp::Sta => {
                let addr = self.get_operand_address(bus, mode);
                bus.write_byte(addr, self.a);
                0
            },
            IOp::Stx => {
                let addr = self.get_operand_address(bus, mode);
                bus.write_byte(addr, self.x);
                0
            },
            IOp::Sty => {
                let addr = self.get_operand_address(bus, mode);
                bus.write_byte(addr, self.y);
                0
            },
            IOp::Sax => {
                let addr = self.get_operand_address(bus, mode);
                let result = self.a & self.x;
                bus.write_byte(addr, result);
                0
            },
            IOp::StaIndexed => {
                let a = self.a;
                self._op_indexed_store(bus, mode, a);
                0
            },
            IOp::NopAbs => {
                self.get_operand_address(bus, mode);
                if self.operand_address_crossed_page { 1 } else { 0 }
            },
            IOp::NopRead => {
                self._read_pc(bus);
                0
            },
            _ => 0,
        }
    }

    #[verifier::spinoff_prover]
    #[verifier::rlimit(60)]
    fn perform_control<B: AddressBus + ?Sized>(&mut self, op: IOp, mode: AddressingMode, bus: &mut B) -> (extra: u8)
        requires
            op is Branch || op is Jmp || op is Jsr || op is Rts || op is Rti || op is Brk || op is Pha || op is Php
                || op is Pla || op is Plp,
        ensures
            op_ok(op, mode, *old(self), *final(self), extra),
            final(self).config == old(self).config,
            subroutine_bus(op, *old(self), *final(self), old(bus), final(bus)),
    {
        reveal(op_ok);
        match op {
            IOp::Branch { flag, is_set } => {
                let cycles = self.branch_if_flag_matches(bus, flag, is_set);
                proof {
                    lemma_op_ok_mode_free(op, AddressingMode::Relative, mode, *old(self), *self, cycles);
                }
                cycles
            },
            IOp::Jmp => {
                self.jump(bus, mode);
                assert(op_ok(op, mode, *old(self), *self, 0));
                0
            },
            IOp::Jsr => {
                let addr = self._read_pc16(bus);
                let ret = self.pc.wrapping_sub(1);
                self._stack_push16(bus, ret);
                self.pc = addr;
                assert(op_ok(op, mode, *old(self), *self, 0));
                0
            },
            IOp::Rts => {
                self.pc = self._stack_pop16(bus).wrapping_add(1);
                assert(op_ok(op, mode, *old(self), *self, 0));
                0
            },
            IOp::Rti => {
                let raw_flags: u8 = self._stack_pop8(bus);
                let sanitized_flags = (raw_flags & !0x10u8) | 0x20;
                self.p = Status::from_bits_truncate(sanitized_flags);
                self.pc = self._stack_pop16(bus);
                self.is_running = true;
                assert(self.p.bits == pulled_status(raw_flags));
                assert(op_ok(op, mode, *old(self), *self, 0));
                0
            },
            IOp::Brk => {
                self.brk(bus);
                assert(op_ok(op, mode, *old(self), *self, 0));
                0
            },
            IOp::Pha => {
                let a = self.a;
                self._stack_push8(bus, a);
                assert(op_ok(op, mode, *old(self), *self, 0));
                0
            },
            IOp::Php => {
                let flags: u8 = self.p.bits() | 0x30;
                self._stack_push8(bus, flags);
                assert(op_ok(op, mode, *old(self), *self, 0));
                0
            },
            IOp::Pla => {
                let v = self._stack_pop8(bus);
                self.a = v;
                self.update_z_n_flags(v);
                assert(*self == old(self).pla_effect(v));
                assert(op_ok(op, mode, *old(self), *self, 0));
                0
            },
            _ => {
                let raw_flags: u8 = self._stack_pop8(bus);
                let sanitized_flags = (raw_flags & !0x10u8) | 0x20;
                self.p = Status::from_bits_truncate(sanitized_flags);
                assert(*self == old(self).plp_effect(raw_flags));
                assert(op_ok(op, mode, *old(self), *self, 0));
                0
            },
        }
    }

    #[verifier::spinoff_prover]
    #[verifier::rlimit(60)]
    fn perform_implied(&mut self, op: IOp) -> (extra: u8)
        requires
            !(op is Adc || op is Sbc || op is And || op is Eor || op is Ora || op is Cmp || op is Cpx || op is Cpy
                || op is Lda || op is Ldx || op is Ldy || op is Bit || op is LdaImm || op is LdxImm || op is LdyImm
                || op is AslM || op is LsrM || op is RolM || op is RorM || op is Inc || op is Dec || op is Rra
                || op is Rla || op is Slo || op is Anc || op is Lax || op is Sta || op is Stx || op is Sty || op is Sax
                || op is StaIndexed || op is NopAbs || op is NopRead || op is Nop || op is NopImplied || op is Branch
                || op is Jmp || op is Jsr || op is Rts || op is Rti || op is Brk || op is Pha || op is Php || op is Pla
                || op is Plp),
        ensures
            op_ok(op, AddressingMode::Implied, *old(self), *final(self), extra),
            final(self).config == old(self).config,
    {
        reveal(op_ok);
        match op {
            IOp::Clc => self.p.remove(STATUS_C),
            IOp::Sec => self.p.insert(STATUS_C),
            IOp::Cli => self.p.remove(STATUS_I),
            IOp::Sei => self.p.insert(STATUS_I),
            IOp::Clv => self.p.remove(STATUS_V),
            IOp::Cld => self.p.remove(STATUS_D),
            IOp::Sed => self.p.insert(STATUS_D),
            IOp::Tax => {
                self.x = self.a;
                self.update_z_n_flags(self.a);
            },
            IOp::Txa => {
                self.a = self.x;
                self.update_z_n_flags(self.x);
            },
            IOp::Tay => {
                self.y = self.a;
                self.update_z_n_flags(self.a);
            },
            IOp::Tya => {
                self.a = self.y;
                self.update_z_n_flags(self.y);
            },
            IOp::Txs => {
                self.sp = self.x;
            },
            IOp::Tsx => {
                self.x = self.sp;
                self.update_z_n_flags(self.sp);
            },
            IOp::Inx => self.increment_x(1),
            IOp::Dex => self.increment_x(-1),
            IOp::Iny => self.increment_y(1),
            IOp::Dey => self.increment_y(-1),
            IOp::AslA => self.arithmetic_shift_left_a(),
            IOp::LsrA => self.logical_shift_right_a(),
            IOp::RolA => self.rotate_left_a(),
            _ => self.rotate_right_a(),
        }
        0
    }

    /// Consumes the operand bytes of `mode` and returns the effective
    /// address; the indexed modes record whether it crossed a page.
    fn get_operand_address<B: AddressBus + ?Sized>(&mut self, bus: &mut B, mode: AddressingMode) -> (addr: u16)
        ensures
            *final(self) == old(self).fetched(mode, final(self).operand_address_crossed_page),
            mode == AddressingMode::Immediate ==> addr == old(self).pc,
    {
        self.operand_address_crossed_page = false;
        match mode {
            AddressingMode::Immediate => {
                let addr: u16 = self.pc;
                self.pc = self.pc.wrapping_add(1);
                addr
            },
            AddressingMode::ZeroPage => {
                let addr: u16 = bus.read_byte(self.pc) as u16;
                self.pc = self.pc.wrapping_add(1);
                addr
            },
            AddressingMode::ZeroPageX => {
                let addr: u16 = bus.read_byte(self.pc).wrapping_add(self.x) as u16;
                self.pc = self.pc.wrapping_add(1);
                addr
            },
            AddressingMode::ZeroPageY => {
                let addr: u16 = bus.read_byte(self.pc).wrapping_add(self.y) as u16;
                self.pc = self.pc.wrapping_add(1);
                addr
            },
            AddressingMode::Absolute => {
                let addr: u16 = bus.read_word(self.pc);
                self.pc = self.pc.wrapping_add(2);
                addr
            },
            AddressingMode::AbsoluteX => {
                let base: u16 = bus.read_word(self.pc);
                self.pc = self.pc.wrapping_add(2);
                let addr: u16 = base.wrapping_add(self.x as u16);
                self.operand_address_crossed_page = (base & 0xFF00) != (addr & 0xFF00);
                addr
            },
            AddressingMode::AbsoluteY => {
                let base: u16 = bus.read_word(self.pc);
                self.pc = self.pc.wrapping_add(2);
                let addr: u16 = base.wrapping_add(self.y as u16);
                self.operand_address_crossed_page = (base & 0xFF00) != (addr & 0xFF00);
                addr
            },
            AddressingMode::Indirect => {
                let ptr: u16 = bus.read_word(self.pc);
                self.pc = self.pc.wrapping_add(2);
                let lo = bus.read_byte(ptr) as u16;
                let hi = if (ptr & 0xFF) == 0xFF {
                    bus.read_byte(ptr & 0xFF00)
                } else {
                    bus.read_byte(ptr.wrapping_add(1))
                } as u16;
                (hi << 8u16) | lo
            },
            AddressingMode::IndirectX => {
                let base = bus.read_byte(self.pc);
                self.pc = self.pc.wrapping_add(1);
                let ptr = base.wrapping_add(self.x);
                let lo = bus.read_byte(ptr as u16) as u16;
                let hi = bus.read_byte(ptr.wrapping_add(1) as u16) as u16;
                (hi << 8u16) | lo
            },
            AddressingMode::IndirectY => {
                let ptr = bus.read_byte(self.pc) as u16;
                self.pc = self.pc.wrapping_add(1);
                let lo = bus.read_byte(ptr) as u16;
                let hi = bus.read_byte(ptr.wrapping_add(1)) as u16;
                let base = (hi << 8u16) | lo;
                let addr = base.wrapping_add(self.y as u16);
                self.operand_address_crossed_page = (base & 0xFF00) != (addr & 0xFF00);
                addr
            },
            _ => 0,
        }
    }

    /// Reads an operand and applies a load, logic, arithmetic or compare
    /// operation; returns the page-crossing cycle.
    fn read_op<B: AddressBus + ?Sized>(&mut self, bus: &mut B, op: IOp, mode: AddressingMode) -> (extra: u8)
        requires
            op is Adc || op is Sbc || op is And || op is Eor || op is Ora || op is Cmp || op is Cpx || op is Cpy
                || op is Lda || op is Ldx || op is Ldy,
        ensures
            extra == (if final(self).operand_address_crossed_page { 1u8 } else { 0u8 }),
            exists|v: u8| *final(self) == #[trigger] old(self).fetched(mode, final(self).operand_address_crossed_page).alu_effect(op, mode, v),
    {
        let addr: u16 = self.get_operand_address(bus, mode);
        let value: u8 = bus.read_byte(addr);
        let ghost g = *self;
        match op {
            IOp::Adc => self.add_with_carry_logic(value),
            IOp::Sbc => self.add_with_carry_logic(value ^ 0xFF),
            IOp::And => {
                self.a = self.a & value;
                self.update_z_n_flags(self.a);
            },
            IOp::Eor => {
                self.a = self.a ^ value;
                self.update_z_n_flags(self.a);
            },
            IOp::Ora => {
                self.a = self.a | value;
                self.update_z_n_flags(self.a);
            },
            IOp::Cmp => self.compare_value(self.a, value),
            IOp::Cpx => self.compare_value(self.x, value),
            IOp::Cpy => self.compare_value(self.y, value),
            IOp::Lda => {
                self.a = value;
                self.update_z_n_flags(value);
            },
            IOp::Ldx => {
                self.x = value;
                self.update_z_n_flags(value);
            },
            _ => {
                self.y = value;
                self.update_z_n_flags(value);
            },
        }
        assert(*self == g.alu_effect(op, mode, value));
        if self.operand_address_crossed_page { 1 } else { 0 }
    }

    fn compare_value(&mut self, reg: u8, value: u8)
        ensures
            *final(self) == old(self).compared(reg, value),
    {
        let result = reg.wrapping_sub(value);
        if value <= reg {
            self.p.insert(STATUS_C);
        } else {
            self.p.remove(STATUS_C);
        }
        self.update_z_n_flags(result);
    }

    fn _op_adc<B: AddressBus + ?Sized>(&mut self, bus: &mut B, mode: AddressingMode) -> (extra: u8)
        ensures
            extra == (if final(self).operand_address_crossed_page { 1u8 } else { 0u8 }),
            exists|v: u8| *final(self) == #[trigger] old(self).fetched(mode, final(self).operand_address_crossed_page).alu_effect(IOp::Adc, mode, v),
    {
        self.read_op(bus, IOp::Adc, mode)
    }

    /// SBC is ADC of the operand's complement.
    fn _op_sbc<B: AddressBus + ?Sized>(&mut self, bus: &mut B, mode: AddressingMode) -> (extra: u8)
        ensures
            extra == (if final(self).operand_address_crossed_page { 1u8 } else { 0u8 }),
            exists|v: u8| *final(self) == #[trigger] old(self).fetched(mode, final(self).operand_address_crossed_page).alu_effect(IOp::Sbc, mode, v),
    {
        self.read_op(bus, IOp::Sbc, mode)
    }

    fn _op_and_a<B: AddressBus + ?Sized>(&mut self, bus: &mut B, mode: AddressingMode) -> (extra: u8)
        ensures
            extra == (if final(self).operand_address_crossed_page { 1u8 } else { 0u8 }),
            exists|v: u8| *final(self) == #[trigger] old(self).fetched(mode, final(self).operand_address_crossed_page).alu_effect(IOp::And, mode, v),
    {
        self.read_op(bus, IOp::And, mode)
    }

    fn exclusive_or_with_a<B: AddressBus + ?Sized>(&mut self, bus: &mut B, mode: AddressingMode) -> (extra: u8)
        ensures
            extra == (if final(self).operand_address_crossed_page { 1u8 } else { 0u8 }),
            exists|v: u8| *final(self) == #[trigger] old(self).fetched(mode, final(self).operand_address_crossed_page).alu_effect(IOp::Eor, mode, v),
    {
        self.read_op(bus, IOp::Eor, mode)
    }

    fn op_ora<B: AddressBus + ?Sized>(&mut self, bus: &mut B, mode: AddressingMode) -> (extra: u8)
        ensures
            extra == (if final(self).operand_address_crossed_page { 1u8 } else { 0u8 }),
            exists|v: u8| *final(self) == #[trigger] old(self).fetched(mode, final(self).operand_address_crossed_page).alu_effect(IOp::Ora, mode, v),
    {
        self.read_op(bus, IOp::Ora, mode)
    }

    fn compare_a<B: AddressBus + ?Sized>(&mut self, bus: &mut B, mode: AddressingMode) -> (extra: u8)
        ensures
            extra == (if final(self).operand_address_crossed_page { 1u8 } else { 0u8 }),
            exists|v: u8| *final(self) == #[trigger] old(self).fetched(mode, final(self).operand_address_crossed_page).alu_effect(IOp::Cmp, mode, v),
    {
        self.read_op(bus, IOp::Cmp, mode)
    }

    fn compare_x<B: AddressBus + ?Sized>(&mut self, bus: &mut B, mode: AddressingMode) -> (extra: u8)
        ensures
            extra == (if final(self).operand_address_crossed_page { 1u8 } else { 0u8 }),
            exists|v: u8| *final(self) == #[trigger] old(self).fetched(mode, final(self).operand_address_crossed_page).alu_effect(IOp::Cpx, mode, v),
    {
        self.read_op(bus, IOp::Cpx, mode)
    }

    fn compare_y<B: AddressBus + ?Sized>(&mut self, bus: &mut B, mode: AddressingMode) -> (extra: u8)
        ensures
            extra == (if final(self).operand_address_crossed_page { 1u8 } else { 0u8 }),
            exists|v: u8| *final(self) == #[trigger] old(self).fetched(mode, final(self).operand_address_crossed_page).alu_effect(IOp::Cpy, mode, v),
    {
        self.read_op(bus, IOp::Cpy, mode)
    }

    fn load_register_a<B: AddressBus + ?Sized>(&mut self, bus: &mut B, mode: AddressingMode) -> (extra: u8)
        ensures
            extra == (if final(self).operand_address_crossed_page { 1u8 } else { 0u8 }),
            exists|v: u8| *final(self) == #[trigger] old(self).fetched(mode, final(self).operand_address_crossed_page).alu_effect(IOp::Lda, mode, v),
    {
        self.read_op(bus, IOp::Lda, mode)
    }

    fn load_register_x<B: AddressBus + ?Sized>(&mut self, bus: &mut B, mode: AddressingMode) -> (extra: u8)
        ensures
            extra == (if final(self).operand_address_crossed_page { 1u8 } else { 0u8 }),
            exists|v: u8| *final(self) == #[trigger] old(self).fetched(mode, final(self).operand_address_crossed_page).alu_effect(IOp::Ldx, mode, v),
    {
        self.read_op(bus, IOp::Ldx, mode)
    }

    fn load_register_y<B: AddressBus + ?Sized>(&mut self, bus: &mut B, mode: AddressingMode) -> (extra: u8)
        ensures
            extra == (if final(self).operand_address_crossed_page { 1u8 } else { 0u8 }),
            exists|v: u8| *final(self) == #[trigger] old(self).fetched(mode, final(self).operand_address_crossed_page).alu_effect(IOp::Ldy, mode, v),
    {
        self.read_op(bus, IOp::Ldy, mode)
    }

    /// BIT: Z from A AND the operand; N and V from its bits 7 and 6 (not
    /// for the immediate form).
    fn bit_test_a<B: AddressBus + ?Sized>(&mut self, bus: &mut B, mode: AddressingMode)
        ensures
            exists|v: u8| *final(self) == #[trigger] old(self).fetched(mode, final(self).operand_address_crossed_page).alu_effect(IOp::Bit, mode, v),
    {
        let addr = self.get_operand_address(bus, mode);
        let value = bus.read_byte(addr);
        let ghost g = *self;
        let result = value & self.a;
        if result == 0 {
            self.p.insert(STATUS_Z);
        } else {
            self.p.remove(STATUS_Z);
        }
        if mode != AddressingMode::Immediate {
            if (value & 0x80) != 0 {
                self.p.insert(STATUS_N);
            } else {
                self.p.remove(STATUS_N);
            }
            if (value & 0x40) != 0 {
                self.p.insert(STATUS_V);
            } else {
                self.p.remove(STATUS_V);
            }
        }
        assert(*self == g.alu_effect(IOp::Bit, mode, value));
        assert(*self == old(self).fetched(mode, self.operand_address_crossed_page).alu_effect(IOp::Bit, mode, value));
    }

    /// Binary or (on parts with BCD, in decimal mode) decimal add of the
    /// operand and the carry to A.
    fn add_with_carry_logic(&mut self, value: u8)
        ensures
            (final(self).a, final(self).p.bits) == adc_i(old(self).config, old(self).a, old(self).p.bits, value),
            *final(self) == (M6502Cpu { a: final(self).a, p: final(self).p, ..*old(self) }),
    {
        let carry_in: u8 = if self.p.contains(STATUS_C) { 1 } else { 0 };
        let a = self.a;
        proof {
            crate::bits::lemma_byte_fields(a);
            crate::bits::lemma_byte_fields(value);
        }
        if self.config.has_bcd && self.p.contains(STATUS_D) {
            let mut low_nibble = (a & 0x0F) + (value & 0x0F) + carry_in;
            let mut high_nibble = (a >> 4u8) + (value >> 4u8);
            if low_nibble > 9 {
                low_nibble = low_nibble + 6;
                high_nibble = high_nibble + 1;
            }
            let binary_sum = (a as u16) + (value as u16) + (carry_in as u16);
            let uncorrected_a = (binary_sum & 0xFF) as u8;
            if (!(a ^ value) & (a ^ uncorrected_a) & 0x80) != 0 {
                self.p.insert(STATUS_V);
            } else {
                self.p.remove(STATUS_V);
            }
            if high_nibble > 9 {
                high_nibble = high_nibble + 6;
                self.p.insert(STATUS_C);
            } else {
                self.p.remove(STATUS_C);
            }
            let result_a = ((high_nibble << 4u8) & 0xF0) | (low_nibble & 0x0F);
            self.a = result_a;
            if self.config.is_c02 {
                self.update_z_n_flags(result_a);
            } else {
                self.update_z_n_flags(uncorrected_a);
            }
        } else {
            let result: u16 = (a as u16) + (value as u16) + (carry_in as u16);
            if result > 0xFF {
                self.p.insert(STATUS_C);
            } else {
                self.p.remove(STATUS_C);
            }
            let new_a: u8 = (result & 0xFF) as u8;
            if (!(a ^ value) & (a ^ new_a) & 0x80) != 0 {
                self.p.insert(STATUS_V);
            } else {
                self.p.remove(STATUS_V);
            }
            self.a = new_a;
            self.update_z_n_flags(new_a);
        }
    }

    fn update_z_n_flags(&mut self, value: u8)
        ensures
            *final(self) == old(self).with_p(with_nz(old(self).p.bits, value)),
    {
        if value == 0 {
            self.p.insert(STATUS_Z);
        } else {
            self.p.remove(STATUS_Z);
        }
        if value & 0x80 != 0 {
            self.p.insert(STATUS_N);
        } else {
            self.p.remove(STATUS_N);
        }
    }

    fn arithmetic_shift_left_a(&mut self)
        ensures
            *final(self) == old(self).implied_effect(IOp::AslA),
    {
        let value: u8 = self.a;
        if value & 0x80 != 0 {
            self.p.insert(STATUS_C);
        } else {
            self.p.remove(STATUS_C);
        }
        let result: u8 = value << 1u8;
        self.a = result;
        self.update_z_n_flags(result);
    }

    fn logical_shift_right_a(&mut self)
        ensures
            *final(self) == old(self).implied_effect(IOp::LsrA),
    {
        let value = self.a;
        if (value & 0x01) != 0 {
            self.p.insert(STATUS_C);
        } else {
            self.p.remove(STATUS_C);
        }
        let shifted = value >> 1u8;
        self.a = shifted;
        self.update_z_n_flags(shifted);
    }

    fn rotate_left_a(&mut self)
        ensures
            *final(self) == old(self).implied_effect(IOp::RolA),
    {
        let old_value = self.a;
        let old_carry = self.p.contains(STATUS_C);
        if old_value & 0x80 != 0 {
            self.p.insert(STATUS_C);
        } else {
            self.p.remove(STATUS_C);
        }
        let result = (old_value << 1u8) | (if old_carry { 0x01u8 } else { 0u8 });
        self.a = result;
        self.update_z_n_flags(result);
    }

    fn rotate_right_a(&mut self)
        ensures
            *final(self) == old(self).implied_effect(IOp::RorA),
    {
        let old_value = self.a;
        let old_carry = self.p.contains(STATUS_C);
        if old_value & 0x01 != 0 {
            self.p.insert(STATUS_C);
        } else {
            self.p.remove(STATUS_C);
        }
        let result = (old_value >> 1u8) | (if old_carry { 0x80u8 } else { 0u8 });
        self.a = result;
        self.update_z_n_flags(result);
    }

    /// A shift or rotate of the byte at `addr` in memory; returns the byte
    /// written back.
    fn shift_at_address<B: AddressBus + ?Sized>(&mut self, bus: &mut B, op: IOp, addr: u16) -> (r: u8)
        requires
            op is AslM || op is LsrM || op is RolM || op is RorM,
        ensures
            exists|v: u8| *final(self) == #[trigger] old(self).rmw_effect(op, v) && r == old(self).shifted(op, v).0,
    {
        let value = bus.read_byte(addr);
        let old_carry = self.p.contains(STATUS_C);
        let ghost g = *self;
        let (result, carry) = match op {
            IOp::AslM => (value << 1u8, value & 0x80 != 0),
            IOp::LsrM => (value >> 1u8, value & 0x01 != 0),
            IOp::RolM => ((value << 1u8) | (if old_carry { 0x01u8 } else { 0u8 }), value & 0x80 != 0),
            _ => ((value >> 1u8) | (if old_carry { 0x80u8 } else { 0u8 }), value & 0x01 != 0),
        };
        if carry {
            self.p.insert(STATUS_C);
        } else {
            self.p.remove(STATUS_C);
        }
        bus.write_byte(addr, result);
        self.update_z_n_flags(result);
        assert(*self == g.rmw_effect(op, value));
        result
    }

    fn asl_at_address<B: AddressBus + ?Sized>(&mut self, bus: &mut B, addr: u16) -> (r: u8)
        ensures
            exists|v: u8| *final(self) == #[trigger] old(self).rmw_effect(IOp::AslM, v) && r == old(self).shifted(IOp::AslM, v).0,
    {
        self.shift_at_address(bus, IOp::AslM, addr)
    }

    fn _op_asl_memory<B: AddressBus + ?Sized>(&mut self, bus: &mut B, mode: AddressingMode)
        ensures
            exists|v: u8| *final(self) == #[trigger] old(self).fetched(mode, final(self).operand_address_crossed_page).rmw_effect(IOp::AslM, v),
    {
        let addr = self.get_operand_address(bus, mode);
        let ghost mid = *self;
        let r = self.asl_at_address(bus, addr);
        proof {
            let v = choose|v: u8| *self == mid.rmw_effect(IOp::AslM, v) && r == mid.shifted(IOp::AslM, v).0;
            assert(*self == old(self).fetched(mode, self.operand_address_crossed_page).rmw_effect(IOp::AslM, v));
        }
    }

    fn logical_shift_right_memory<B: AddressBus + ?Sized>(&mut self, bus: &mut B, mode: AddressingMode)
        ensures
            exists|v: u8| *final(self) == #[trigger] old(self).fetched(mode, final(self).operand_address_crossed_page).rmw_effect(IOp::LsrM, v),
    {
        let addr = self.get_operand_address(bus, mode);
        let ghost mid = *self;
        let r = self.shift_at_address(bus, IOp::LsrM, addr);
        proof {
            let v = choose|v: u8| *self == mid.rmw_effect(IOp::LsrM, v) && r == mid.shifted(IOp::LsrM, v).0;
            assert(*self == old(self).fetched(mode, self.operand_address_crossed_page).rmw_effect(IOp::LsrM, v));
        }
    }

    fn rotate_left_memory<B: AddressBus + ?Sized>(&mut self, bus: &mut B, mode: AddressingMode)
        ensures
            exists|v: u8| *final(self) == #[trigger] old(self).fetched(mode, final(self).operand_address_crossed_page).rmw_effect(IOp::RolM, v),
    {
        let addr = self.get_operand_address(bus, mode);
        let ghost mid = *self;
        let r = self.shift_at_address(bus, IOp::RolM, addr);
        proof {
            let v = choose|v: u8| *self == mid.rmw_effect(IOp::RolM, v) && r == mid.shifted(IOp::RolM, v).0;
            assert(*self == old(self).fetched(mode, self.operand_address_crossed_page).rmw_effect(IOp::RolM, v));
        }
    }

    fn rotate_right_memory<B: AddressBus + ?Sized>(&mut self, bus: &mut B, mode: AddressingMode)
        ensures
            exists|v: u8| *final(self) == #[trigger] old(self).fetched(mode, final(self).operand_address_crossed_page).rmw_effect(IOp::RorM, v),
    {
        let addr = self.get_operand_address(bus, mode);
        let ghost mid = *self;
        let r = self.shift_at_address(bus, IOp::RorM, addr);
        proof {
            let v = choose|v: u8| *self == mid.rmw_effect(IOp::RorM, v) && r == mid.shifted(IOp::RorM, v).0;
            assert(*self == old(self).fetched(mode, self.operand_address_crossed_page).rmw_effect(IOp::RorM, v));
        }
    }

    /// RRA: rotate the byte right in memory, then add it to A.
    fn rotate_right_memory_then_add_to_a<B: AddressBus + ?Sized>(&mut self, bus: &mut B, mode: AddressingMode)
        ensures
            exists|v: u8| *final(self) == #[trigger] old(self).fetched(mode, final(self).operand_address_crossed_page).rmw_effect(IOp::Rra, v),
    {
        let addr = self.get_operand_address(bus, mode);
        let ghost mid = *self;
        let result = self.shift_at_address(bus, IOp::RorM, addr);
        let ghost v = choose|v: u8| *self == mid.rmw_effect(IOp::RorM, v) && result == mid.shifted(IOp::RorM, v).0;
        self.add_with_carry_logic(result);
        assert(*self == old(self).fetched(mode, self.operand_address_crossed_page).rmw_effect(IOp::Rra, v));
    }

    /// SLO: shift the byte left in memory, then OR it into A.
    fn op_slo<B: AddressBus + ?Sized>(&mut self, bus: &mut B, mode: AddressingMode) -> (extra: u8)
        ensures
            extra == (if final(self).operand_address_crossed_page { 1u8 } else { 0u8 }),
            exists|v: u8| *final(self) == #[trigger] old(self).fetched(mode, final(self).operand_address_crossed_page).rmw_effect(IOp::Slo, v),
    {
        let addr = self.get_operand_address(bus, mode);
        let ghost mid = *self;
        let shifted_value = self.asl_at_address(bus, addr);
        let ghost v = choose|v: u8| *self == mid.rmw_effect(IOp::AslM, v) && shifted_value == mid.shifted(IOp::AslM, v).0;
        self.a = self.a | shifted_value;
        self.update_z_n_flags(self.a);
        proof {
            lemma_nz_twice(set_flag(mid.p.bits, STATUS_C, v & 0x80 != 0), shifted_value, self.a);
        }
        assert(*self == old(self).fetched(mode, self.operand_address_crossed_page).rmw_effect(IOp::Slo, v));
        if self.operand_address_crossed_page { 1 } else { 0 }
    }

    /// INC or DEC (`by` 1 or -1) of the byte in memory.
    fn increment_memory<B: AddressBus + ?Sized>(&mut self, bus: &mut B, mode: AddressingMode, by: i8)
        requires
            by == 1 || by == -1,
        ensures
            by == 1 ==> exists|v: u8| *final(self) == #[trigger] old(self).fetched(mode, final(self).operand_address_crossed_page).rmw_effect(IOp::Inc, v),
            by == -1 ==> exists|v: u8| *final(self) == #[trigger] old(self).fetched(mode, final(self).operand_address_crossed_page).rmw_effect(IOp::Dec, v),
    {
        let addr: u16 = self.get_operand_address(bus, mode);
        let value: u8 = bus.read_byte(addr);
        let ghost g = *self;
        proof {
            crate::bits::lemma_unit_step(by);
        }
        let result: u8 = value.wrapping_add(by as u8);
        bus.write_byte(addr, result);
        self.update_z_n_flags(result);
        if by == 1 {
            assert(*self == g.rmw_effect(IOp::Inc, value));
            assert(*self == old(self).fetched(mode, self.operand_address_crossed_page).rmw_effect(IOp::Inc, value));
        } else {
            assert(*self == g.rmw_effect(IOp::Dec, value));
            assert(*self == old(self).fetched(mode, self.operand_address_crossed_page).rmw_effect(IOp::Dec, value));
        }
    }

    fn increment_x(&mut self, by: i8)
        requires
            by == 1 || by == -1,
        ensures
            *final(self) == old(self).implied_effect(if by == 1 { IOp::Inx } else { IOp::Dex }),
    {
        proof {
            crate::bits::lemma_unit_step(by);
        }
        self.x = self.x.wrapping_add(by as u8);
        self.update_z_n_flags(self.x);
    }

    fn increment_y(&mut self, by: i8)
        requires
            by == 1 || by == -1,
        ensures
            *final(self) == old(self).implied_effect(if by == 1 { IOp::Iny } else { IOp::Dey }),
    {
        proof {
            crate::bits::lemma_unit_step(by);
        }
        self.y = self.y.wrapping_add(by as u8);
        self.update_z_n_flags(self.y);
    }

    /// JMP: absolute, or indirect (with the NMOS bug: a pointer at $xxFF
    /// takes its high byte from $xx00).
    fn jump<B: AddressBus + ?Sized>(&mut self, bus: &mut B, mode: AddressingMode)
        ensures
            *final(self) == (M6502Cpu { pc: final(self).pc, ..*old(self) }),
    {
        if mode == AddressingMode::Indirect {
            let ptr = bus.read_word(self.pc);
            if self.config.has_jmp_bug {
                let lo = bus.read_byte(ptr) as u16;
                let hi = if (ptr & 0xFF) == 0xFF {
                    bus.read_byte(ptr & 0xFF00)
                } else {
                    proof {
                        crate::bits::lemma_word_fields(ptr);
                    }
                    bus.read_byte(ptr + 1)
                } as u16;
                self.pc = (hi << 8u16) | lo;
            } else {
                let lo = bus.read_byte(ptr) as u16;
                let hi = bus.read_byte(ptr.wrapping_add(1)) as u16;
                self.pc = (hi << 8u16) | lo;
            }
        } else {
            let addr = bus.read_word(self.pc);
            self.pc = addr;
        }
    }

    /// A conditional branch on `flag` being set (`is_set`) or clear:
    /// 2 cycles, 3 when taken, 4 when the target is on another page.
    fn branch_if_flag_matches<B: AddressBus + ?Sized>(&mut self, bus: &mut B, flag: u8, is_set: bool) -> (cycles: u8)
        ensures
            op_ok(IOp::Branch { flag, is_set }, AddressingMode::Relative, *old(self), *final(self), cycles),
    {
        reveal(op_ok);
        let offset = bus.read_byte(self.pc);
        self.pc = self.pc.wrapping_add(1);
        let mut cycles_spent: u8 = 2;
        let flag_actually_set: bool = self.p.contains(flag);
        if flag_actually_set == is_set {
            cycles_spent = cycles_spent + 1;
            let base_pc = self.pc;
            let d: i16 = if offset < 0x80 { offset as i16 } else { offset as i16 - 256 };
            let target_pc = base_pc.wrapping_add_signed(d);
            assert(target_pc == rel_target(base_pc, offset));
            if (target_pc & 0xFF00) != (base_pc & 0xFF00) {
                cycles_spent = cycles_spent + 1;
            }
            self.pc = target_pc;
        }
        cycles_spent
    }

    fn _read_pc<B: AddressBus + ?Sized>(&mut self, bus: &mut B) -> (r: u8)
        ensures
            *final(self) == (M6502Cpu { pc: old(self).pc.wrapping_add(1), ..*old(self) }),
            read_at(old(bus), final(bus), old(self).pc, r),
    {
        let result: u8 = bus.read_byte(self.pc);
        self.pc = self.pc.wrapping_add(1);
        result
    }

    fn _read_pc16<B: AddressBus + ?Sized>(&mut self, bus: &mut B) -> (r: u16)
        ensures
            *final(self) == (M6502Cpu { pc: old(self).pc.wrapping_add(1).wrapping_add(1), ..*old(self) }),
            word_read(old(bus), final(bus), old(self).pc, old(self).pc.wrapping_add(1), r),
    {
        let lo = self._read_pc(bus) as u16;
        let hi = self._read_pc(bus) as u16;
        proof {
            crate::bits::lemma_pair(hi as u8, lo as u8);
        }
        (hi << 8u16) | lo
    }

    fn _stack_pop8<B: AddressBus + ?Sized>(&mut self, bus: &mut B) -> (r: u8)
        ensures
            *final(self) == (M6502Cpu { sp: old(self).sp.wrapping_add(1), ..*old(self) }),
            read_at(old(bus), final(bus), (0x100 + old(self).sp.wrapping_add(1)) as u16, r),
    {
        self.sp = self.sp.wrapping_add(1);
        let value: u8 = bus.read_byte(STACK_BASE + (self.sp as u16));
        value
    }

    fn _stack_pop16<B: AddressBus + ?Sized>(&mut self, bus: &mut B) -> (r: u16)
        ensures
            *final(self) == (M6502Cpu { sp: old(self).sp.wrapping_add(2), ..*old(self) }),
            word_read(old(bus), final(bus), (0x100 + old(self).sp.wrapping_add(1)) as u16,
                (0x100 + old(self).sp.wrapping_add(1).wrapping_add(1)) as u16, r),
    {
        let lo = self._stack_pop8(bus) as u16;
        let hi = self._stack_pop8(bus) as u16;
        proof {
            crate::bits::lemma_pair(hi as u8, lo as u8);
        }
        (hi << 8u16) | lo
    }

    fn _stack_push8<B: AddressBus + ?Sized>(&mut self, bus: &mut B, value: u8)
        ensures
            *final(self) == (M6502Cpu { sp: old(self).sp.wrapping_sub(1), ..*old(self) }),
            written_at(old(bus), final(bus), (0x100 + old(self).sp) as u16, value),
    {
        bus.write_byte(STACK_BASE + (self.sp as u16), value);
        self.sp = self.sp.wrapping_sub(1);
    }

    /// Pushes the high byte, then the low byte.
    fn _stack_push16<B: AddressBus + ?Sized>(&mut self, bus: &mut B, value: u16)
        ensures
            *final(self) == (M6502Cpu { sp: old(self).sp.wrapping_sub(2), ..*old(self) }),
            word_pushed(old(bus), final(bus), old(self).sp, value),
    {
        let hi: u8 = ((value >> 8u16) & 0xFF) as u8;
        let lo: u8 = (value & 0xFF) as u8;
        self._stack_push8(bus, hi);
        self._stack_push8(bus, lo);
    }

    /// A store through AbsoluteX, AbsoluteY or IndirectY that also makes
    /// the dummy read of the not-yet-carried address, as the hardware does.
    fn _op_indexed_store<B: AddressBus + ?Sized>(&mut self, bus: &mut B, mode: AddressingMode, val_to_write: u8)
        ensures
            *final(self) == (M6502Cpu { pc: old(self).pc.wrapping_add(indexed_store_len(mode)), ..*old(self) }),
    {
        match mode {
            AddressingMode::AbsoluteX | AddressingMode::AbsoluteY => {
                let base: u16 = bus.read_word(self.pc);
                self.pc = self.pc.wrapping_add(2);
                let index = if mode == AddressingMode::AbsoluteX { self.x } else { self.y };
                let addr: u16 = base.wrapping_add(index as u16);
                let dummy_addr = (base & 0xFF00) | (addr & 0x00FF);
                bus.read_byte(dummy_addr);
                bus.write_byte(addr, val_to_write);
            },
            AddressingMode::IndirectY => {
                let ptr = bus.read_byte(self.pc) as u16;
                self.pc = self.pc.wrapping_add(1);
                let lo = bus.read_byte(ptr) as u16;
                let hi = bus.read_byte(((ptr as u8).wrapping_add(1)) as u16) as u16;
                let base = (hi << 8u16) | lo;
                let addr = base.wrapping_add(self.y as u16);
                let dummy_addr = (base & 0xFF00) | (addr & 0x00FF);
                bus.read_byte(dummy_addr);
                bus.write_byte(addr, val_to_write);
            },
            _ => {},
        }
    }

    /// BRK: pushes PC+1 and the status with B and the unused bit set, sets
    /// I, and jumps through $FFFE.
    fn brk<B: AddressBus + ?Sized>(&mut self, bus: &mut B)
        ensures
            *final(self) == (M6502Cpu { pc: final(self).pc, sp: old(self).sp.wrapping_sub(3), ..old(self).with_p(old(self).p.bits | STATUS_I) }),
    {
        self.pc = self.pc.wrapping_add(1);
        let pc = self.pc;
        self._stack_push16(bus, pc);
        let flags: u8 = self.p.bits() | 0x30;
        self._stack_push8(bus, flags);
        self.p.insert(STATUS_I);
        let lo = bus.read_byte(0xFFFE) as u16;
        let hi = bus.read_byte(0xFFFF) as u16;
        proof {
            crate::bits::lemma_pair(hi as u8, lo as u8);
        }
        self.pc = (hi << 8u16) | lo;
    }

    /// NMI: pushes PC and the status (B clear, unused set), sets I, jumps
    /// through $FFFA; 7 cycles.
    fn trigger_nmi<B: AddressBus + ?Sized>(&mut self, bus: &mut B) -> (r: u8)
        ensures
            r == 7,
            *final(self) == (M6502Cpu { pc: final(self).pc, sp: old(self).sp.wrapping_sub(3), ..old(self).with_p(old(self).p.bits | STATUS_I) }),
    {
        let pc = self.pc;
        self._stack_push16(bus, pc);
        let flags: u8 = (self.p.bits() & !0x10u8) | 0x20;
        self._stack_push8(bus, flags);
        self.p.insert(STATUS_I);
        let lo = bus.read_byte(0xFFFA) as u16;
        let hi = bus.read_byte(0xFFFB) as u16;
        proof {
            crate::bits::lemma_pair(hi as u8, lo as u8);
        }
        self.pc = (hi << 8u16) | lo;
        7
    }

    /// IRQ: as NMI, through $FFFE; 7 cycles.
    pub fn trigger_irq<B: AddressBus + ?Sized>(&mut self, bus: &mut B) -> (r: u8)
        ensures
            r == 7,
            *final(self) == (M6502Cpu { pc: final(self).pc, sp: old(self).sp.wrapping_sub(3), ..old(self).with_p(old(self).p.bits | STATUS_I) }),
            ({
                &&& old(bus).holds_memory((0x100 + old(self).sp) as u16)
                &&& old(bus).holds_memory((0x100 + old(self).sp.wrapping_sub(1)) as u16)
                &&& old(bus).holds_memory((0x100 + old(self).sp.wrapping_sub(2)) as u16)
                &&& old(bus).holds_memory(0xFFFE) && old(bus).holds_memory(0xFFFF)
            }) ==> {
                &&& final(bus).memory_byte((0x100 + old(self).sp) as u16) == ((old(self).pc >> 8u16) & 0xFF) as u8
                &&& final(bus).memory_byte((0x100 + old(self).sp.wrapping_sub(1)) as u16) == (old(self).pc & 0xFF) as u8
                &&& final(bus).memory_byte((0x100 + old(self).sp.wrapping_sub(2)) as u16) == (old(self).p.bits & !0x10u8) | 0x20
                &&& final(self).pc == old(bus).memory_byte(0xFFFF) * 256 + old(bus).memory_byte(0xFFFE)
            },
    {
        let pc = self.pc;
        self._stack_push16(bus, pc);
        let flags: u8 = (self.p.bits() & !0x10u8) | 0x20;
        self._stack_push8(bus, flags);
        self.p.insert(STATUS_I);
        let lo = bus.read_byte(0xFFFE) as u16;
        let hi = bus.read_byte(0xFFFF) as u16;
        proof {
            crate::bits::lemma_pair(hi as u8, lo as u8);
        }
        self.pc = (hi << 8u16) | lo;
        7
    }
}

} // verus!
