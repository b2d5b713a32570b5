use vstd::prelude::*;
use crate::gd_emu::common::bus::{AddressBus, memory_kept, read_at, written_at, dummy_read_at, lemma_accesses_from_kept};

verus! {

pub const STACK_BASE: u16 = 0x100;

/// The 6502 processor status register, one field per flag. Bits 4 and 5 only
/// exist in the byte pushed to the stack.
#[derive(Clone, Copy, PartialEq, Eq, Structural)]
pub struct StatusFlags {
    pub negative: bool,
    pub overflow: bool,
    pub decimal: bool,
    pub interrupt_disable: bool,
    pub zero: bool,
    pub carry: bool,
}

/// The byte a status register is pushed as: N V 1 B D I Z C, where B is set
/// only when the push comes from an instruction (PHP, BRK).
pub open spec fn status_byte(s: StatusFlags, is_instruction: bool) -> u8 {
    (if s.negative { 0x80u8 } else { 0u8 })
        | (if s.overflow { 0x40u8 } else { 0u8 })
        | 0x20u8
        | (if is_instruction { 0x10u8 } else { 0u8 })
        | (if s.decimal { 0x08u8 } else { 0u8 })
        | (if s.interrupt_disable { 0x04u8 } else { 0u8 })
        | (if s.zero { 0x02u8 } else { 0u8 })
        | (if s.carry { 0x01u8 } else { 0u8 })
}

/// The flags a byte pulled from the stack unpacks to (bits 4 and 5 ignored).
pub open spec fn status_from_byte(byte: u8) -> StatusFlags {
    StatusFlags {
        negative: byte & 0x80 != 0,
        overflow: byte & 0x40 != 0,
        decimal: byte & 0x08 != 0,
        interrupt_disable: byte & 0x04 != 0,
        zero: byte & 0x02 != 0,
        carry: byte & 0x01 != 0,
    }
}

/// `s` with Z and N taken from `v`.
pub open spec fn nz(s: StatusFlags, v: u8) -> StatusFlags {
    StatusFlags { zero: v == 0, negative: v & 0x80 != 0, ..s }
}

pub open spec fn bit_of(b: bool) -> u8 {
    if b { 1u8 } else { 0u8 }
}

impl Default for StatusFlags {
    fn default() -> (r: Self)
        ensures
            r == (StatusFlags {
                negative: false,
                overflow: false,
                decimal: false,
                interrupt_disable: false,
                zero: false,
                carry: false,
            }),
    {
        StatusFlags {
            negative: false,
            overflow: false,
            decimal: false,
            interrupt_disable: false,
            zero: false,
            carry: false,
        }
    }
}

proof fn lemma_status_byte_bits(n: bool, v: bool, b: bool, d: bool, i: bool, z: bool, c: bool)
    by (bit_vector)
    ensures
        ({
            let byte = (if n { 0x80u8 } else { 0u8 }) | (if v { 0x40u8 } else { 0u8 }) | 0x20u8
                | (if b { 0x10u8 } else { 0u8 }) | (if d { 0x08u8 } else { 0u8 }) | (if i {
                0x04u8
            } else {
                0u8
            }) | (if z { 0x02u8 } else { 0u8 }) | (if c { 0x01u8 } else { 0u8 });
            &&& (byte & 0x80 != 0) == n
            &&& (byte & 0x40 != 0) == v
            &&& (byte & 0x20 != 0)
            &&& (byte & 0x10 != 0) == b
            &&& (byte & 0x08 != 0) == d
            &&& (byte & 0x04 != 0) == i
            &&& (byte & 0x02 != 0) == z
            &&& (byte & 0x01 != 0) == c
        }),
{
}

/// Packing the flags into a byte and unpacking it gives the same flags back,
/// whichever value the B bit was pushed with.
pub proof fn lemma_status_round_trip(s: StatusFlags, is_instruction: bool)
    ensures
        status_from_byte(status_byte(s, is_instruction)) == s,
        status_byte(s, is_instruction) & 0x20 != 0,
        (status_byte(s, is_instruction) & 0x10 != 0) == is_instruction,
{
    lemma_status_byte_bits(
        s.negative,
        s.overflow,
        is_instruction,
        s.decimal,
        s.interrupt_disable,
        s.zero,
        s.carry,
    );
}


impl StatusFlags {
    /// Packs the flags for a push to the stack.
    pub fn to_u8(&self, is_instruction: bool) -> (r: u8)
        ensures
            r == status_byte(*self, is_instruction),
    {
        (if self.negative { 0x80u8 } else { 0u8 }) | (if self.overflow { 0x40u8 } else { 0u8 })
            | 0x20u8 | (if is_instruction { 0x10u8 } else { 0u8 }) | (if self.decimal {
            0x08u8
        } else {
            0u8
        }) | (if self.interrupt_disable { 0x04u8 } else { 0u8 }) | (if self.zero {
            0x02u8
        } else {
            0u8
        }) | (if self.carry { 0x01u8 } else { 0u8 })
    }

    /// Unpacks a byte pulled from the stack via PLP or RTI.
    pub fn from_u8(&mut self, byte: u8)
        ensures
            *final(self) == status_from_byte(byte),
    {
        self.negative = (byte & 0x80) != 0;
        self.overflow = (byte & 0x40) != 0;
        self.decimal = (byte & 0x08) != 0;
        self.interrupt_disable = (byte & 0x04) != 0;
        self.zero = (byte & 0x02) != 0;
        self.carry = (byte & 0x01) != 0;
    }
}

#[derive(Clone, Copy, PartialEq, Eq, Structural)]
pub enum InterruptType {
    Brk,
    Irq,
    Nmi,
}

#[derive(Clone, Copy, PartialEq, Eq, Structural)]
pub enum Operation {
    Adc, And, Asl, Bcc, Bcs, Beq, Bit, Bmi, Bne, Bpl, Brk, Bvc, Bvs, Clc, Cld, Cli, Clv, Cmp,
    Cpx, Cpy, Dec, Dex, Dey, Eor, Inc, Inx, Iny, Irq, Jmp, Jsr, Lda, Ldx, Ldy, Lsr, Nmi, Nop,
    Ora, Pha, Php, Pla, Plp, Rol, Ror, Rti, Rts, Sbc, Sec, Sed, Sei, Sta, Stx, Sty, Tax, Tay,
    Tsx, Txa, Txs, Tya,
    // 65C02 only
    Pea, Pei, Phy, Stz, Trb, Tsb, JmpIndexedIndirect, JmpIndirect, JsrIndexedIndirect,
    // NMOS undocumented instructions
    Alr, Anc, Ane, Arr, Dcp, Isc, Las, Lax, Lxa, Rla, Rra, Sax, Sbx, Sha, Shx, Shy, Slo, Sre, Tas,
}

impl Operation {
    /// Read-modify-write instructions.
    pub open spec fn rmw(self) -> bool {
        ||| self is Lsr
        ||| self is Asl
        ||| self is Rol
        ||| self is Ror
        ||| self is Inc
        ||| self is Dec
        ||| self is Dcp
        ||| self is Isc
        ||| self is Slo
        ||| self is Rla
        ||| self is Rra
        ||| self is Sre
    }

    /// Instructions whose memory access is a store.
    pub open spec fn store(self) -> bool {
        ||| self is Sta
        ||| self is Stx
        ||| self is Sty
        ||| self is Sax
        ||| self is Sbx
        ||| self is Sha
        ||| self is Shx
        ||| self is Shy
        ||| self is Tas
    }

    pub fn is_rmw(&self) -> (r: bool)
        ensures
            r == self.rmw(),
    {
        matches!(self, Operation::Lsr | Operation::Asl | Operation::Rol | Operation::Ror | Operation::Inc | Operation::Dec | Operation::Dcp | Operation::Isc | Operation::Slo | Operation::Rla | Operation::Rra | Operation::Sre)
    }

    pub fn is_write(&self) -> (r: bool)
        ensures
            r == self.store(),
    {
        matches!(self, Operation::Sta | Operation::Stx | Operation::Sty | Operation::Sax | Operation::Sbx | Operation::Sha | Operation::Shx | Operation::Shy | Operation::Tas)
    }

    /// Operations the executor has no implementation for.
    pub open spec fn unsupported(self) -> bool {
        ||| self is Bcc
        ||| self is Bcs
        ||| self is Beq
        ||| self is Bmi
        ||| self is Bne
        ||| self is Bpl
        ||| self is Brk
        ||| self is Bvc
        ||| self is Bvs
        ||| self is Irq
        ||| self is Jsr
        ||| self is Nmi
        ||| self is Pha
        ||| self is Php
        ||| self is Pla
        ||| self is Plp
        ||| self is Rti
        ||| self is Rts
        ||| self is Pea
        ||| self is Pei
        ||| self is Phy
        ||| self is JmpIndirect
        ||| self is JsrIndexedIndirect
    }
}

#[derive(Clone, Copy)]
pub struct CpuConfig {
    pub has_bcd: bool,
    pub has_jmp_bug: bool,
    pub is_c02: bool,
}

#[derive(Clone, Copy, PartialEq, Eq, Structural)]
pub enum CpuVariant {
    NMOS6502,
    Ricoh2A03,
    WDC65C02,
}

pub open spec fn config_for(variant: CpuVariant) -> CpuConfig {
    match variant {
        CpuVariant::NMOS6502 => CpuConfig { has_bcd: true, has_jmp_bug: true, is_c02: false },
        CpuVariant::Ricoh2A03 => CpuConfig { has_bcd: false, has_jmp_bug: true, is_c02: false },
        CpuVariant::WDC65C02 => CpuConfig { has_bcd: true, has_jmp_bug: false, is_c02: true },
    }
}

#[derive(Clone, Copy, PartialEq, Eq, Structural)]
pub enum AddressingMode {
    Immediate,
    Indirect,
    Relative,
    Accumulator,
    Implied,
    ZeroPage,
    ZeroPageX,
    ZeroPageY,
    Absolute,
    AbsoluteX,
    AbsoluteY,
    IndirectX,
    IndirectY,
    Interrupt,
    Unique,
}

/// Why a cycle could not be executed.
#[derive(Clone, Copy, PartialEq, Eq, Structural)]
pub enum CpuError {
    /// The fetched byte decodes to no instruction for this CPU variant.
    UnknownOpcode(u8),
    /// The decoded operation has no executor.
    UnsupportedOperation,
}

/// The decode table: operation, addressing mode and base cycle count of each
/// opcode, for the given variant flags. `None` for the opcodes that jam the CPU.
pub open spec fn decode_table(opcode: u8, is_c02: bool, has_jmp_bug: bool) -> Option<(Operation, AddressingMode, u8)> {
    match opcode {
        0x00 => Some((Operation::Brk, AddressingMode::Interrupt, 7)),
        0x01 => Some((Operation::Ora, AddressingMode::IndirectX, 6)),
        0x05 => Some((Operation::Ora, AddressingMode::ZeroPage, 3)),
        0x06 => Some((Operation::Asl, AddressingMode::ZeroPage, 5)),
        0x08 => Some((Operation::Php, AddressingMode::Unique, 3)),
        0x09 => Some((Operation::Ora, AddressingMode::Immediate, 2)),
        0x0A => Some((Operation::Asl, AddressingMode::Accumulator, 2)),
        0x0D => Some((Operation::Ora, AddressingMode::Absolute, 4)),
        0x0E => Some((Operation::Asl, AddressingMode::Absolute, 6)),
        0x10 => Some((Operation::Bpl, AddressingMode::Relative, 2)),
        0x11 => Some((Operation::Ora, AddressingMode::IndirectY, 5)),
        0x15 => Some((Operation::Ora, AddressingMode::ZeroPageX, 4)),
        0x16 => Some((Operation::Asl, AddressingMode::ZeroPageX, 6)),
        0x18 => Some((Operation::Clc, AddressingMode::Implied, 2)),
        0x19 => Some((Operation::Ora, AddressingMode::AbsoluteY, 4)),
        0x1D => Some((Operation::Ora, AddressingMode::AbsoluteX, 4)),
        0x1E => Some((Operation::Asl, AddressingMode::AbsoluteX, 7)),
        0x20 => Some((Operation::Jsr, AddressingMode::Unique, 6)),
        0x21 => Some((Operation::And, AddressingMode::IndirectX, 6)),
        0x24 => Some((Operation::Bit, AddressingMode::ZeroPage, 3)),
        0x25 => Some((Operation::And, AddressingMode::ZeroPage, 3)),
        0x26 => Some((Operation::Rol, AddressingMode::ZeroPage, 5)),
        0x28 => Some((Operation::Plp, AddressingMode::Unique, 4)),
        0x29 => Some((Operation::And, AddressingMode::Immediate, 2)),
        0x2A => Some((Operation::Rol, AddressingMode::Accumulator, 2)),
        0x2C => Some((Operation::Bit, AddressingMode::Absolute, 4)),
        0x2D => Some((Operation::And, AddressingMode::Absolute, 4)),
        0x2E => Some((Operation::Rol, AddressingMode::Absolute, 6)),
        0x30 => Some((Operation::Bmi, AddressingMode::Relative, 2)),
        0x31 => Some((Operation::And, AddressingMode::IndirectY, 5)),
        0x35 => Some((Operation::And, AddressingMode::ZeroPageX, 4)),
        0x36 => Some((Operation::Rol, AddressingMode::ZeroPageX, 6)),
        0x38 => Some((Operation::Sec, AddressingMode::Implied, 2)),
        0x39 => Some((Operation::And, AddressingMode::AbsoluteY, 4)),
        0x3D => Some((Operation::And, AddressingMode::AbsoluteX, 4)),
        0x3E => Some((Operation::Rol, AddressingMode::AbsoluteX, 7)),
        0x40 => Some((Operation::Rti, AddressingMode::Unique, 6)),
        0x41 => Some((Operation::Eor, AddressingMode::IndirectX, 6)),
        0x45 => Some((Operation::Eor, AddressingMode::ZeroPage, 3)),
        0x46 => Some((Operation::Lsr, AddressingMode::ZeroPage, 5)),
        0x48 => Some((Operation::Pha, AddressingMode::Unique, 3)),
        0x49 => Some((Operation::Eor, AddressingMode::Immediate, 2)),
        0x4A => Some((Operation::Lsr, AddressingMode::Accumulator, 2)),
        0x4C => Some((Operation::Jmp, AddressingMode::Absolute, 3)),
        0x4D => Some((Operation::Eor, AddressingMode::Absolute, 4)),
        0x4E => Some((Operation::Lsr, AddressingMode::Absolute, 6)),
        0x50 => Some((Operation::Bvc, AddressingMode::Relative, 2)),
        0x51 => Some((Operation::Eor, AddressingMode::IndirectY, 5)),
        0x55 => Some((Operation::Eor, AddressingMode::ZeroPageX, 4)),
        0x56 => Some((Operation::Lsr, AddressingMode::ZeroPageX, 6)),
        0x58 => Some((Operation::Cli, AddressingMode::Implied, 2)),
        0x59 => Some((Operation::Eor, AddressingMode::AbsoluteY, 4)),
        0x5D => Some((Operation::Eor, AddressingMode::AbsoluteX, 4)),
        0x5E => Some((Operation::Lsr, AddressingMode::AbsoluteX, 7)),
        0x60 => Some((Operation::Rts, AddressingMode::Unique, 6)),
        0x61 => Some((Operation::Adc, AddressingMode::IndirectX, 6)),
        0x65 => Some((Operation::Adc, AddressingMode::ZeroPage, 3)),
        0x66 => Some((Operation::Ror, AddressingMode::ZeroPage, 5)),
        0x68 => Some((Operation::Pla, AddressingMode::Unique, 4)),
        0x69 => Some((Operation::Adc, AddressingMode::Immediate, 2)),
        0x6A => Some((Operation::Ror, AddressingMode::Accumulator, 2)),
        0x6C => {
            let cycles_remaining: u8 = if has_jmp_bug { 5 } else { 6 };
            Some((Operation::Jmp, AddressingMode::Indirect, cycles_remaining))
        },
        0x6D => Some((Operation::Adc, AddressingMode::Absolute, 4)),
        0x6E => Some((Operation::Ror, AddressingMode::Absolute, 6)),
        0x70 => Some((Operation::Bvs, AddressingMode::Relative, 2)),
        0x71 => Some((Operation::Adc, AddressingMode::IndirectY, 5)),
        0x75 => Some((Operation::Adc, AddressingMode::ZeroPageX, 4)),
        0x76 => Some((Operation::Ror, AddressingMode::ZeroPageX, 6)),
        0x78 => Some((Operation::Sei, AddressingMode::Implied, 2)),
        0x79 => Some((Operation::Adc, AddressingMode::AbsoluteY, 4)),
        0x7D => Some((Operation::Adc, AddressingMode::AbsoluteX, 4)),
        0x7E => Some((Operation::Ror, AddressingMode::AbsoluteX, 7)),
        0x81 => Some((Operation::Sta, AddressingMode::IndirectX, 6)),
        0x84 => Some((Operation::Sty, AddressingMode::ZeroPage, 3)),
        0x85 => Some((Operation::Sta, AddressingMode::ZeroPage, 3)),
        0x86 => Some((Operation::Stx, AddressingMode::ZeroPage, 3)),
        0x88 => Some((Operation::Dey, AddressingMode::Implied, 2)),
        0x8A => Some((Operation::Txa, AddressingMode::Implied, 2)),
        0x8C => Some((Operation::Sty, AddressingMode::Absolute, 4)),
        0x8D => Some((Operation::Sta, AddressingMode::Absolute, 4)),
        0x8E => Some((Operation::Stx, AddressingMode::Absolute, 4)),
        0x90 => Some((Operation::Bcc, AddressingMode::Relative, 2)),
        0x91 => Some((Operation::Sta, AddressingMode::IndirectY, 6)),
        0x94 => Some((Operation::Sty, AddressingMode::ZeroPageX, 4)),
        0x95 => Some((Operation::Sta, AddressingMode::ZeroPageX, 4)),
        0x96 => Some((Operation::Stx, AddressingMode::ZeroPageY, 4)),
        0x98 => Some((Operation::Tya, AddressingMode::Implied, 2)),
        0x99 => Some((Operation::Sta, AddressingMode::AbsoluteY, 5)),
        0x9A => Some((Operation::Txs, AddressingMode::Implied, 2)),
        0x9D => Some((Operation::Sta, AddressingMode::AbsoluteX, 5)),
        0xA0 => Some((Operation::Ldy, AddressingMode::Immediate, 2)),
        0xA1 => Some((Operation::Lda, AddressingMode::IndirectX, 6)),
        0xA2 => Some((Operation::Ldx, AddressingMode::Immediate, 2)),
        0xA4 => Some((Operation::Ldy, AddressingMode::ZeroPage, 3)),
        0xA5 => Some((Operation::Lda, AddressingMode::ZeroPage, 3)),
        0xA6 => Some((Operation::Ldx, AddressingMode::ZeroPage, 3)),
        0xA8 => Some((Operation::Tay, AddressingMode::Implied, 2)),
        0xA9 => Some((Operation::Lda, AddressingMode::Immediate, 2)),
        0xAA => Some((Operation::Tax, AddressingMode::Implied, 2)),
        0xAC => Some((Operation::Ldy, AddressingMode::Absolute, 4)),
        0xAD => Some((Operation::Lda, AddressingMode::Absolute, 4)),
        0xAE => Some((Operation::Ldx, AddressingMode::Absolute, 4)),
        0xB0 => Some((Operation::Bcs, AddressingMode::Relative, 2)),
        0xB1 => Some((Operation::Lda, AddressingMode::IndirectY, 5)),
        0xB4 => Some((Operation::Ldy, AddressingMode::ZeroPageX, 4)),
        0xB5 => Some((Operation::Lda, AddressingMode::ZeroPageX, 4)),
        0xB6 => Some((Operation::Ldx, AddressingMode::ZeroPageY, 4)),
        0xB8 => Some((Operation::Clv, AddressingMode::Implied, 2)),
        0xB9 => Some((Operation::Lda, AddressingMode::AbsoluteY, 4)),
        0xBA => Some((Operation::Tsx, AddressingMode::Implied, 2)),
        0xBC => Some((Operation::Ldy, AddressingMode::AbsoluteX, 4)),
        0xBD => Some((Operation::Lda, AddressingMode::AbsoluteX, 4)),
        0xBE => Some((Operation::Ldx, AddressingMode::AbsoluteY, 4)),
        0xC0 => Some((Operation::Cpy, AddressingMode::Immediate, 2)),
        0xC1 => Some((Operation::Cmp, AddressingMode::IndirectX, 6)),
        0xC4 => Some((Operation::Cpy, AddressingMode::ZeroPage, 3)),
        0xC5 => Some((Operation::Cmp, AddressingMode::ZeroPage, 3)),
        0xC6 => Some((Operation::Dec, AddressingMode::ZeroPage, 5)),
        0xC8 => Some((Operation::Iny, AddressingMode::Implied, 2)),
        0xC9 => Some((Operation::Cmp, AddressingMode::Immediate, 2)),
        0xCA => Some((Operation::Dex, AddressingMode::Implied, 2)),
        0xCC => Some((Operation::Cpy, AddressingMode::Absolute, 4)),
        0xCD => Some((Operation::Cmp, AddressingMode::Absolute, 4)),
        0xCE => Some((Operation::Dec, AddressingMode::Absolute, 6)),
        0xD0 => Some((Operation::Bne, AddressingMode::Relative, 2)),
        0xD1 => Some((Operation::Cmp, AddressingMode::IndirectY, 5)),
        0xD5 => Some((Operation::Cmp, AddressingMode::ZeroPageX, 4)),
        0xD6 => Some((Operation::Dec, AddressingMode::ZeroPageX, 6)),
        0xD8 => Some((Operation::Cld, AddressingMode::Implied, 2)),
        0xD9 => Some((Operation::Cmp, AddressingMode::AbsoluteY, 4)),
        0xDD => Some((Operation::Cmp, AddressingMode::AbsoluteX, 4)),
        0xDE => Some((Operation::Dec, AddressingMode::AbsoluteX, 7)),
        0xE0 => Some((Operation::Cpx, AddressingMode::Immediate, 2)),
        0xE1 => Some((Operation::Sbc, AddressingMode::IndirectX, 6)),
        0xE4 => Some((Operation::Cpx, AddressingMode::ZeroPage, 3)),
        0xE5 => Some((Operation::Sbc, AddressingMode::ZeroPage, 3)),
        0xE6 => Some((Operation::Inc, AddressingMode::ZeroPage, 5)),
        0xE8 => Some((Operation::Inx, AddressingMode::Implied, 2)),
        0xE9 | 0xEB => Some((Operation::Sbc, AddressingMode::Immediate, 2)),
        0xEA => Some((Operation::Nop, AddressingMode::Implied, 2)),
        0xEC => Some((Operation::Cpx, AddressingMode::Absolute, 4)),
        0xED => Some((Operation::Sbc, AddressingMode::Absolute, 4)),
        0xEE => Some((Operation::Inc, AddressingMode::Absolute, 6)),
        0xF0 => Some((Operation::Beq, AddressingMode::Relative, 2)),
        0xF1 => Some((Operation::Sbc, AddressingMode::IndirectY, 5)),
        0xF5 => Some((Operation::Sbc, AddressingMode::ZeroPageX, 4)),
        0xF6 => Some((Operation::Inc, AddressingMode::ZeroPageX, 6)),
        0xF9 => Some((Operation::Sbc, AddressingMode::AbsoluteY, 4)),
        0xF8 => Some((Operation::Sed, AddressingMode::Implied, 2)),
        0xFD => Some((Operation::Sbc, AddressingMode::AbsoluteX, 4)),
        0xFE => Some((Operation::Inc, AddressingMode::AbsoluteX, 7)),
        0x04 => {
            if is_c02 {
                Some((Operation::Tsb, AddressingMode::ZeroPage, 5))
            } else {
                Some((Operation::Nop, AddressingMode::ZeroPage, 3))
            }
        }
        0x0C => {
            if is_c02 {
                Some((Operation::Tsb, AddressingMode::Absolute, 5))
            } else {
                Some((Operation::Nop, AddressingMode::Absolute, 4))
            }
        }
        0x14 => {
            if is_c02 {
                Some((Operation::Trb, AddressingMode::ZeroPage, 5))
            } else {
                Some((Operation::Nop, AddressingMode::ZeroPageX, 4))
            }
        }
        0x1C => {
            if is_c02 {
                Some((Operation::Trb, AddressingMode::Absolute, 6))
            } else {
                Some((Operation::Nop, AddressingMode::AbsoluteX, 4))
            }
        }
        0x34 => {
            if is_c02 {
                Some((Operation::Bit, AddressingMode::ZeroPageX, 4))
            } else {
                Some((Operation::Nop, AddressingMode::ZeroPageX, 4))
            }
        }
        0x3A => {
            if is_c02 {
                Some((Operation::Dec, AddressingMode::Implied, 2))
            } else {
                Some((Operation::Nop, AddressingMode::Implied, 2))
            }
        }
        0x3C => {
            if is_c02 {
                Some((Operation::Bit, AddressingMode::AbsoluteX, 4))
            } else {
                Some((Operation::Nop, AddressingMode::AbsoluteX, 4))
            }
        }
        0x43 => {
            if is_c02 {
                Some((Operation::Nop, AddressingMode::Implied, 1))
            } else {
                Some((Operation::Sre, AddressingMode::IndirectX, 8))
            }
        }
        0x47 => {
            if is_c02 {
                Some((Operation::Nop, AddressingMode::Implied, 1))
            } else {
                Some((Operation::Sre, AddressingMode::ZeroPage, 5))
            }
        }
        0x4F => {
            if is_c02 {
                Some((Operation::Nop, AddressingMode::Implied, 1))
            } else {
                Some((Operation::Sre, AddressingMode::Absolute, 6))
            }
        }
        0x53 => {
            if is_c02 {
                Some((Operation::Nop, AddressingMode::Implied, 1))
            } else {
                Some((Operation::Sre, AddressingMode::IndirectY, 8))
            }
        }
        0x57 => {
            if is_c02 {
                Some((Operation::Nop, AddressingMode::Implied, 1))
            } else {
                Some((Operation::Sre, AddressingMode::ZeroPageX, 6))
            }
        }
        0x5A => {
            if is_c02 {
                Some((Operation::Phy, AddressingMode::Unique, 2))
            } else {
                Some((Operation::Nop, AddressingMode::Implied, 2))
            }
        }
        0x5B => {
            if is_c02 {
                Some((Operation::Nop, AddressingMode::Implied, 1))
            } else {
                Some((Operation::Sre, AddressingMode::AbsoluteY, 7))
            }
        }
        0x5F => {
            if is_c02 {
                Some((Operation::Nop, AddressingMode::Implied, 1))
            } else {
                Some((Operation::Sre, AddressingMode::AbsoluteX, 7))
            }
        }
        0x64 => {
            if is_c02 {
                Some((Operation::Stz, AddressingMode::ZeroPage, 3))
            } else {
                Some((Operation::Nop, AddressingMode::ZeroPage, 3))
            }
        }
        0x6B => {
            if is_c02 {
                Some((Operation::Nop, AddressingMode::Implied, 1))
            } else {
                Some((Operation::Arr, AddressingMode::Immediate, 2))
            }
        }
        0x74 => {
            if is_c02 {
                Some((Operation::Stz, AddressingMode::ZeroPageX, 4))
            } else {
                Some((Operation::Nop, AddressingMode::ZeroPageX, 4))
            }
        }
        0x7C => {
            if is_c02 {
                Some((Operation::JmpIndexedIndirect, AddressingMode::AbsoluteX, 6))
            } else {
                Some((Operation::Nop, AddressingMode::AbsoluteX, 4))
            }
        }
        0xBB => {
            if is_c02 {
                Some((Operation::Nop, AddressingMode::Implied, 1))
            } else {
                Some((Operation::Las, AddressingMode::AbsoluteY, 4))
            }
        }
        0xCB => {
            if is_c02 {
                Some((Operation::Nop, AddressingMode::Implied, 1))
            } else {
                Some((Operation::Sbx, AddressingMode::Immediate, 2))
            }
        }
        0xD4 => {
            if is_c02 {
                Some((Operation::Pei, AddressingMode::ZeroPage, 6))
            } else {
                Some((Operation::Nop, AddressingMode::ZeroPageX, 4))
            }
        }
        0xDC => {
            if is_c02 {
                Some((Operation::JmpIndirect, AddressingMode::Absolute, 6))
            } else {
                Some((Operation::Nop, AddressingMode::AbsoluteX, 4))
            }
        }
        0xE3 => {
            if is_c02 {
                Some((Operation::Nop, AddressingMode::Implied, 1))
            } else {
                Some((Operation::Isc, AddressingMode::IndirectX, 8))
            }
        }
        0xE7 => {
            if is_c02 {
                Some((Operation::Nop, AddressingMode::Implied, 1))
            } else {
                Some((Operation::Isc, AddressingMode::ZeroPage, 5))
            }
        }
        0xEF => {
            if is_c02 {
                Some((Operation::Nop, AddressingMode::Implied, 1))
            } else {
                Some((Operation::Isc, AddressingMode::Absolute, 6))
            }
        }
        0xF3 => {
            if is_c02 {
                Some((Operation::Nop, AddressingMode::Implied, 1))
            } else {
                Some((Operation::Isc, AddressingMode::IndirectY, 8))
            }
        }
        0xF4 => {
            if is_c02 {
                Some((Operation::Pea, AddressingMode::Immediate, 5))
            } else {
                Some((Operation::Nop, AddressingMode::ZeroPageX, 4))
            }
        }
        0xF7 => {
            if is_c02 {
                Some((Operation::Nop, AddressingMode::Implied, 1))
            } else {
                Some((Operation::Isc, AddressingMode::ZeroPageX, 6))
            }
        }
        0xFB => {
            if is_c02 {
                Some((Operation::Nop, AddressingMode::Implied, 1))
            } else {
                Some((Operation::Isc, AddressingMode::AbsoluteY, 7))
            }
        }
        0xFC => {
            if is_c02 {
                Some((Operation::JsrIndexedIndirect, AddressingMode::AbsoluteX, 6))
            } else {
                Some((Operation::Nop, AddressingMode::AbsoluteX, 4))
            }
        }
        0xFF => {
            if is_c02 {
                Some((Operation::Nop, AddressingMode::Implied, 1))
            } else {
                Some((Operation::Isc, AddressingMode::AbsoluteX, 7))
            }
        }
        0x03 => {
            if is_c02 {
                Some((Operation::Nop, AddressingMode::Implied, 1))
            } else {
                Some((Operation::Slo, AddressingMode::IndirectX, 8))
            }
        }
        0x0B | 0x2B => {
            if is_c02 {
                Some((Operation::Nop, AddressingMode::Implied, 1))
            } else {
                Some((Operation::Anc, AddressingMode::Immediate, 2))
            }
        }
        0x23 => {
            if is_c02 {
                Some((Operation::Nop, AddressingMode::Implied, 1))
            } else {
                Some((Operation::Rla, AddressingMode::IndirectX, 8))
            }
        }
        0x27 => {
            if is_c02 {
                Some((Operation::Nop, AddressingMode::Implied, 1))
            } else {
                Some((Operation::Rla, AddressingMode::ZeroPage, 5))
            }
        }
        0x2F => {
            if is_c02 {
                Some((Operation::Nop, AddressingMode::Implied, 1))
            } else {
                Some((Operation::Rla, AddressingMode::Absolute, 6))
            }
        }
        0x33 => {
            if is_c02 {
                Some((Operation::Nop, AddressingMode::Implied, 1))
            } else {
                Some((Operation::Rla, AddressingMode::IndirectY, 8))
            }
        }
        0x37 => {
            if is_c02 {
                Some((Operation::Nop, AddressingMode::Implied, 1))
            } else {
                Some((Operation::Rla, AddressingMode::ZeroPageX, 6))
            }
        }
        0x3B => {
            if is_c02 {
                Some((Operation::Nop, AddressingMode::Implied, 1))
            } else {
                Some((Operation::Rla, AddressingMode::AbsoluteY, 7))
            }
        }
        0x3F => {
            if is_c02 {
                Some((Operation::Nop, AddressingMode::Implied, 1))
            } else {
                Some((Operation::Rla, AddressingMode::AbsoluteX, 7))
            }
        }
        0x4B => {
            if is_c02 {
                Some((Operation::Nop, AddressingMode::Implied, 1))
            } else {
                Some((Operation::Alr, AddressingMode::Immediate, 2))
            }
        }
        0x63 => {
            if is_c02 {
                Some((Operation::Nop, AddressingMode::Implied, 1))
            } else {
                Some((Operation::Rra, AddressingMode::IndirectX, 8))
            }
        }
        0x67 => {
            if is_c02 {
                Some((Operation::Nop, AddressingMode::Implied, 1))
            } else {
                Some((Operation::Rra, AddressingMode::ZeroPage, 5))
            }
        }
        0x6F => {
            if is_c02 {
                Some((Operation::Nop, AddressingMode::Implied, 1))
            } else {
                Some((Operation::Rra, AddressingMode::Absolute, 6))
            }
        }
        0x73 => {
            if is_c02 {
                Some((Operation::Nop, AddressingMode::Implied, 1))
            } else {
                Some((Operation::Rra, AddressingMode::IndirectY, 8))
            }
        }
        0x77 => {
            if is_c02 {
                Some((Operation::Nop, AddressingMode::Implied, 1))
            } else {
                Some((Operation::Rra, AddressingMode::ZeroPageX, 6))
            }
        }
        0x7B => {
            if is_c02 {
                Some((Operation::Nop, AddressingMode::Implied, 1))
            } else {
                Some((Operation::Rra, AddressingMode::AbsoluteY, 7))
            }
        }
        0x7F => {
            if is_c02 {
                Some((Operation::Nop, AddressingMode::Implied, 1))
            } else {
                Some((Operation::Rra, AddressingMode::AbsoluteX, 7))
            }
        }
        0x83 => {
            if is_c02 {
                Some((Operation::Nop, AddressingMode::Implied, 1))
            } else {
                Some((Operation::Sax, AddressingMode::IndirectX, 6))
            }
        }
        0x87 => {
            if is_c02 {
                Some((Operation::Nop, AddressingMode::Implied, 1))
            } else {
                Some((Operation::Sax, AddressingMode::ZeroPage, 3))
            }
        }
        0x8B => {
            if is_c02 {
                Some((Operation::Nop, AddressingMode::Implied, 1))
            } else {
                Some((Operation::Ane, AddressingMode::Immediate, 2))
            }
        }
        0x8F => {
            if is_c02 {
                Some((Operation::Nop, AddressingMode::Implied, 1))
            } else {
                Some((Operation::Sax, AddressingMode::Absolute, 4))
            }
        }
        0x93 => {
            if is_c02 {
                Some((Operation::Nop, AddressingMode::Implied, 1))
            } else {
                Some((Operation::Sha, AddressingMode::IndirectY, 6))
            }
        }
        0x97 => {
            if is_c02 {
                Some((Operation::Nop, AddressingMode::Implied, 1))
            } else {
                Some((Operation::Sax, AddressingMode::ZeroPageY, 4))
            }
        }
        0x9B => {
            if is_c02 {
                Some((Operation::Nop, AddressingMode::Implied, 1))
            } else {
                Some((Operation::Tas, AddressingMode::AbsoluteY, 5))
            }
        }
        0x9C => {
            if is_c02 {
                Some((Operation::Nop, AddressingMode::Implied, 1))
            } else {
                Some((Operation::Shy, AddressingMode::AbsoluteX, 5))
            }
        }
        0x9E => {
            if is_c02 {
                Some((Operation::Nop, AddressingMode::Implied, 1))
            } else {
                Some((Operation::Shx, AddressingMode::AbsoluteY, 5))
            }
        }
        0x9F => {
            if is_c02 {
                Some((Operation::Nop, AddressingMode::Implied, 1))
            } else {
                Some((Operation::Sha, AddressingMode::AbsoluteY, 5))
            }
        }
        0xA3 => {
            if is_c02 {
                Some((Operation::Nop, AddressingMode::Implied, 1))
            } else {
                Some((Operation::Lax, AddressingMode::IndirectX, 6))
            }
        }
        0xA7 => {
            if is_c02 {
                Some((Operation::Nop, AddressingMode::Implied, 1))
            } else {
                Some((Operation::Lax, AddressingMode::ZeroPage, 3))
            }
        }
        0xAB => {
            if is_c02 {
                Some((Operation::Nop, AddressingMode::Implied, 1))
            } else {
                Some((Operation::Lxa, AddressingMode::Immediate, 2))
            }
        }
        0xAF => {
            if is_c02 {
                Some((Operation::Nop, AddressingMode::Implied, 1))
            } else {
                Some((Operation::Lax, AddressingMode::Absolute, 4))
            }
        }
        0xB3 => {
            if is_c02 {
                Some((Operation::Nop, AddressingMode::Implied, 1))
            } else {
                Some((Operation::Lax, AddressingMode::IndirectY, 5))
            }
        }
        0xB7 => {
            if is_c02 {
                Some((Operation::Nop, AddressingMode::Implied, 1))
            } else {
                Some((Operation::Lax, AddressingMode::ZeroPageY, 4))
            }
        }
        0xBF => {
            if is_c02 {
                Some((Operation::Nop, AddressingMode::Implied, 1))
            } else {
                Some((Operation::Lax, AddressingMode::AbsoluteY, 4))
            }
        }
        0xC3 => {
            if is_c02 {
                Some((Operation::Nop, AddressingMode::Implied, 1))
            } else {
                Some((Operation::Dcp, AddressingMode::IndirectX, 8))
            }
        }
        0xC7 => {
            if is_c02 {
                Some((Operation::Nop, AddressingMode::Implied, 1))
            } else {
                Some((Operation::Dcp, AddressingMode::ZeroPage, 5))
            }
        }
        0xCF => {
            if is_c02 {
                Some((Operation::Nop, AddressingMode::Implied, 1))
            } else {
                Some((Operation::Dcp, AddressingMode::Absolute, 6))
            }
        }
        0xD3 => {
            if is_c02 {
                Some((Operation::Nop, AddressingMode::Implied, 1))
            } else {
                Some((Operation::Dcp, AddressingMode::IndirectY, 8))
            }
        }
        0xD7 => {
            if is_c02 {
                Some((Operation::Nop, AddressingMode::Implied, 1))
            } else {
                Some((Operation::Dcp, AddressingMode::ZeroPageX, 6))
            }
        }
        0xDB => {
            if is_c02 {
                Some((Operation::Nop, AddressingMode::Implied, 1))
            } else {
                Some((Operation::Dcp, AddressingMode::AbsoluteY, 7))
            }
        }
        0xDF => {
            if is_c02 {
                Some((Operation::Nop, AddressingMode::Implied, 1))
            } else {
                Some((Operation::Dcp, AddressingMode::AbsoluteX, 7))
            }
        }
        0x1A | 0x7A | 0xDA | 0xFA => Some((Operation::Nop, AddressingMode::Implied, 2)),
        0x80 | 0x82 | 0x89 | 0xC2 | 0xE2 => Some((Operation::Nop, AddressingMode::Immediate, 2)),
        0x44 => Some((Operation::Nop, AddressingMode::ZeroPage, 3)),
        0x54 => Some((Operation::Nop, AddressingMode::ZeroPageX, 4)),
        0x5C => Some((Operation::Nop, AddressingMode::AbsoluteX, 4)),
        0x07 => Some((Operation::Slo, AddressingMode::ZeroPage, 5)),
        0x0F => Some((Operation::Slo, AddressingMode::Absolute, 6)),
        0x13 => Some((Operation::Slo, AddressingMode::IndirectY, 8)),
        0x17 => Some((Operation::Slo, AddressingMode::ZeroPageX, 6)),
        0x1B => Some((Operation::Slo, AddressingMode::AbsoluteY, 7)),
        0x1F => Some((Operation::Slo, AddressingMode::AbsoluteX, 7)),
        _ => None,
    }
}

proof fn lemma_after_jmp(cpu: M6502Cpu)
    ensures
        cpu.with_regs(cpu.after_op(Operation::Jmp, 0)) == (M6502Cpu { pc: cpu.effective_addr, ..cpu }),
{
    reveal(M6502Cpu::after_op);
}

/// Whether the branch `op` is taken under the flags `s`.
pub open spec fn branch_taken(op: Operation, s: StatusFlags) -> bool {
    match op {
        Operation::Bcc => !s.carry,
        Operation::Bcs => s.carry,
        Operation::Bne => !s.zero,
        Operation::Beq => s.zero,
        Operation::Bpl => !s.negative,
        Operation::Bmi => s.negative,
        Operation::Bvc => !s.overflow,
        Operation::Bvs => s.overflow,
        _ => false,
    }
}

/// Cycles an instruction may still add to its count from `step` on: a taken
/// branch adds up to two, an indexed access that crosses a page adds one.
pub open spec fn extra_cycles(mode: AddressingMode, step: u32) -> int {
    match mode {
        AddressingMode::Relative => if step <= 2 { 2 } else { 0 },
        AddressingMode::AbsoluteX | AddressingMode::AbsoluteY => if step <= 4 { 1 } else { 0 },
        AddressingMode::IndirectY => if step <= 5 { 1 } else { 0 },
        _ => 0,
    }
}

pub struct M6502Cpu {
    pub pc: u16,
    pub sp: u8,
    pub a: u8,
    pub x: u8,
    pub y: u8,
    pub status: StatusFlags,
    pub nmi_pending: bool,
    pub prev_nmi_line: bool,
    pub i_delay: bool,
    pub bus_available: bool,
    pub last_cycles: u8,
    pub last_opcode: u8,
    pub operand_address_crossed_page: bool,
    pub total_cycles: u64,
    pub is_running: bool,
    pub config: CpuConfig,
    pub stall_cycles: u16,
    pub temp_addr_low: u8,
    pub temp_addr_high: u8,
    pub temp_value: u8,
    pub effective_addr: u16,
    pub current_opcode: u8,
    pub current_op: Operation,
    pub current_mode: AddressingMode,
    pub cycles_remaining: u32,
    pub instruction_step: u32,
}

/// The part of the CPU that a save state records.
#[derive(Clone, Copy)]
pub struct CpuState {
    pub a: u8,
    pub x: u8,
    pub y: u8,
    pub pc: u16,
    pub sp: u8,
    pub status: StatusFlags,
    pub cycles_remaining: u32,
    pub instruction_step: u32,
    pub current_opcode: u8,
    pub nmi_pending: bool,
    pub prev_nmi_line: bool,
    pub total_cycles: u64,
}

/// The registers, flags and internal latches that an operation can change.
#[derive(Clone, Copy)]
pub struct Regs {
    pub a: u8,
    pub x: u8,
    pub y: u8,
    pub sp: u8,
    pub pc: u16,
    pub status: StatusFlags,
    pub i_delay: bool,
    pub temp_value: u8,
}

/// `r` after ADC of `v` into its accumulator.
pub open spec fn adc_regs(cfg: CpuConfig, r: Regs, v: u8) -> Regs {
    let (na, s) = adc(cfg, r.status, r.a, v);
    Regs { a: na, status: s, ..r }
}

/// ADC on an accumulator `a`, operand `v` and flags `s`, with decimal mode
/// honoured when the variant has BCD. Returns the new accumulator and flags.
#[verifier::opaque]
pub open spec fn adc(cfg: CpuConfig, s: StatusFlags, a: u8, v: u8) -> (u8, StatusFlags) {
    let c: int = if s.carry { 1 } else { 0 };
    if cfg.has_bcd && s.decimal {
        let ln0: int = (a & 0x0F) + (v & 0x0F) + c;
        let hn0: int = (a >> 4) + (v >> 4);
        let ln: int = if ln0 > 9 { ln0 + 6 } else { ln0 };
        let hn1: int = if ln0 > 9 { hn0 + 1 } else { hn0 };
        let unc: u8 = (((a + v + c) as u16) & 0xFF) as u8;
        let ov: bool = (!(a ^ v) & (a ^ unc) & 0x80) != 0;
        let hn: int = if hn1 > 9 { hn1 + 6 } else { hn1 };
        let result: u8 = (((hn as u8) << 4u8) & 0xF0) | ((ln as u8) & 0x0F);
        let s1 = StatusFlags { overflow: ov, carry: hn1 > 9, ..s };
        (result, nz(s1, if cfg.is_c02 { result } else { unc }))
    } else {
        let sum: int = a + v + c;
        let na: u8 = (sum as u16) as u8;
        let ov: bool = (!(a ^ v) & (a ^ na) & 0x80) != 0;
        (na, nz(StatusFlags { carry: sum > 0xFF, overflow: ov, ..s }, na))
    }
}

/// What an operation does depends on the registers, the configuration, the
/// addressing mode and the effective address only.
proof fn lemma_after_op_regs_only(s: M6502Cpu, t: M6502Cpu, op: Operation, value: u8)
    requires
        s.regs() == t.regs(),
        s.effective_addr == t.effective_addr,
        s.config == t.config,
        s.current_mode == t.current_mode,
    ensures
        s.after_op(op, value) == t.after_op(op, value),
{
    reveal(M6502Cpu::after_op);
    match op {
        Operation::Adc => {},
        Operation::And => {},
        Operation::Asl => {},
        Operation::Bcc => {},
        Operation::Bcs => {},
        Operation::Beq => {},
        Operation::Bit => {},
        Operation::Bmi => {},
        Operation::Bne => {},
        Operation::Bpl => {},
        Operation::Brk => {},
        Operation::Bvc => {},
        Operation::Bvs => {},
        Operation::Clc => {},
        Operation::Cld => {},
        Operation::Cli => {},
        Operation::Clv => {},
        Operation::Cmp => {},
        Operation::Cpx => {},
        Operation::Cpy => {},
        Operation::Dec => {},
        Operation::Dex => {},
        Operation::Dey => {},
        Operation::Eor => {},
        Operation::Inc => {},
        Operation::Inx => {},
        Operation::Iny => {},
        Operation::Irq => {},
        Operation::Jmp => {},
        Operation::Jsr => {},
        Operation::Lda => {},
        Operation::Ldx => {},
        Operation::Ldy => {},
        Operation::Lsr => {},
        Operation::Nmi => {},
        Operation::Nop => {},
        Operation::Ora => {},
        Operation::Pha => {},
        Operation::Php => {},
        Operation::Pla => {},
        Operation::Plp => {},
        Operation::Rol => {},
        Operation::Ror => {},
        Operation::Rti => {},
        Operation::Rts => {},
        Operation::Sbc => {},
        Operation::Sec => {},
        Operation::Sed => {},
        Operation::Sei => {},
        Operation::Sta => {},
        Operation::Stx => {},
        Operation::Sty => {},
        Operation::Tax => {},
        Operation::Tay => {},
        Operation::Tsx => {},
        Operation::Txa => {},
        Operation::Txs => {},
        Operation::Tya => {},
        Operation::Pea => {},
        Operation::Pei => {},
        Operation::Phy => {},
        Operation::Stz => {},
        Operation::Trb => {},
        Operation::Tsb => {},
        Operation::JmpIndexedIndirect => {},
        Operation::JmpIndirect => {},
        Operation::JsrIndexedIndirect => {},
        Operation::Alr => {},
        Operation::Anc => {},
        Operation::Ane => {},
        Operation::Arr => {},
        Operation::Dcp => {},
        Operation::Isc => {},
        Operation::Las => {},
        Operation::Lax => {},
        Operation::Lxa => {},
        Operation::Rla => {},
        Operation::Rra => {},
        Operation::Sax => {},
        Operation::Sbx => {},
        Operation::Sha => {},
        Operation::Shx => {},
        Operation::Shy => {},
        Operation::Slo => {},
        Operation::Sre => {},
        Operation::Tas => {},
    }
}

impl M6502Cpu {
    /// The registers, flags and latches an operation can change.
    pub open spec fn regs(self) -> Regs {
        Regs {
            a: self.a,
            x: self.x,
            y: self.y,
            sp: self.sp,
            pc: self.pc,
            status: self.status,
            i_delay: self.i_delay,
            temp_value: self.temp_value,
        }
    }

    pub open spec fn with_regs(self, r: Regs) -> Self {
        M6502Cpu {
            a: r.a,
            x: r.x,
            y: r.y,
            sp: r.sp,
            pc: r.pc,
            status: r.status,
            i_delay: r.i_delay,
            temp_value: r.temp_value,
            ..self
        }
    }

    pub open spec fn with_status(self, s: StatusFlags) -> Self {
        M6502Cpu { status: s, ..self }
    }

    pub open spec fn with_adc(self, v: u8) -> Self {
        self.with_regs(adc_regs(self.config, self.regs(), v))
    }

    /// The CPU-side effect of executing `op` on operand `value`: registers,
    /// flags and latches. Stores to the bus are not part of it.
    #[verifier::opaque]
    pub open spec fn after_op(self, op: Operation, value: u8) -> Regs {
        let g = self.regs();
        let s = self.status;
        let acc = self.current_mode == AddressingMode::Accumulator;
        match op {
            Operation::Adc => adc_regs(self.config, g, value),
            Operation::Alr => {
                let i = self.a & value;
                let na = i >> 1u8;
                Regs { a: na, status: StatusFlags { carry: i & 0x01 != 0, zero: na == 0, negative: false, ..s }, ..g }
            },
            Operation::Anc => {
                let na = self.a & value;
                Regs { a: na, status: StatusFlags { zero: na == 0, negative: na & 0x80 != 0, carry: na & 0x80 != 0, ..s }, ..g }
            },
            Operation::And => {
                let na = self.a & value;
                Regs { a: na, status: nz(s, na), ..g }
            },
            Operation::Ane => {
                let na = (self.a | 0xEE) & self.x & value;
                Regs { a: na, status: nz(s, na), ..g }
            },
            Operation::Arr => {
                let i = self.a & value;
                let r = (i >> 1u8) | (if s.carry { 0x80u8 } else { 0u8 });
                let b6 = (r >> 6u8) & 1;
                let b5 = (r >> 5u8) & 1;
                Regs {
                    a: r,
                    status: StatusFlags { zero: r == 0, negative: r & 0x80 != 0, carry: r & 0x40 != 0, overflow: (b6 ^ b5) == 1, ..s },
                    ..g
                }
            },
            Operation::Asl => {
                let r = value << 1u8;
                let s1 = nz(StatusFlags { carry: value & 0x80 != 0, ..s }, r);
                Regs { a: if acc { r } else { self.a }, status: s1, temp_value: r, ..g }
            },
            Operation::Bit => {
                let s1 = StatusFlags { zero: (self.a & value) == 0, ..s };
                let s2 = if self.current_mode != AddressingMode::Immediate {
                    StatusFlags { overflow: value & 0x40 != 0, negative: value & 0x80 != 0, ..s1 }
                } else {
                    s1
                };
                Regs { status: s2, ..g }
            },
            Operation::Clc => Regs { status: StatusFlags { carry: false, ..s }, ..g },
            Operation::Cld => Regs { status: StatusFlags { decimal: false, ..s }, ..g },
            Operation::Cli => Regs {
                i_delay: if s.interrupt_disable { true } else { self.i_delay },
                status: StatusFlags { interrupt_disable: false, ..s },
                ..g
            },
            Operation::Clv => Regs { status: StatusFlags { overflow: false, ..s }, ..g },
            Operation::Cmp => Regs { status: StatusFlags { carry: value <= self.a, ..nz(s, self.a.wrapping_sub(value)) }, ..g },
            Operation::Cpx => Regs { status: StatusFlags { carry: value <= self.x, ..nz(s, self.x.wrapping_sub(value)) }, ..g },
            Operation::Cpy => Regs { status: StatusFlags { carry: value <= self.y, ..nz(s, self.y.wrapping_sub(value)) }, ..g },
            Operation::Dcp => {
                let d = value.wrapping_sub(1);
                Regs { status: StatusFlags { carry: self.a >= d, ..nz(s, self.a.wrapping_sub(d)) }, ..g }
            },
            Operation::Dec => Regs { status: nz(s, value.wrapping_sub(1)), ..g },
            Operation::Dex => Regs { x: self.x.wrapping_sub(1), status: nz(s, self.x.wrapping_sub(1)), ..g },
            Operation::Dey => Regs { y: self.y.wrapping_sub(1), status: nz(s, self.y.wrapping_sub(1)), ..g },
            Operation::Eor => Regs { a: self.a ^ value, status: nz(s, self.a ^ value), ..g },
            Operation::Inc => Regs { status: nz(s, value.wrapping_add(1)), ..g },
            Operation::Inx => Regs { x: self.x.wrapping_add(1), status: nz(s, self.x.wrapping_add(1)), ..g },
            Operation::Iny => Regs { y: self.y.wrapping_add(1), status: nz(s, self.y.wrapping_add(1)), ..g },
            Operation::Isc => adc_regs(self.config, g, value.wrapping_add(1) ^ 0xFF),
            Operation::Las => {
                let r = value & self.sp;
                Regs { a: r, x: r, sp: r, status: nz(s, r), ..g }
            },
            Operation::Lda => Regs { a: value, status: nz(s, value), ..g },
            Operation::Ldx => Regs { x: value, status: nz(s, value), ..g },
            Operation::Ldy => Regs { y: value, status: nz(s, value), ..g },
            Operation::Lsr => {
                let r = value >> 1u8;
                let s1 = nz(StatusFlags { carry: value & 0x01 != 0, ..s }, r);
                Regs { a: if acc { r } else { self.a }, status: s1, temp_value: r, ..g }
            },
            Operation::Lxa => Regs { a: value, x: value, status: nz(s, value), ..g },
            Operation::Jmp => Regs { pc: self.effective_addr, ..g },
            Operation::Nop => g,
            Operation::Ora => Regs { a: self.a | value, status: nz(s, self.a | value), ..g },
            Operation::Rla => {
                let rot = (value << 1u8) | bit_of(s.carry);
                let na = self.a & rot;
                Regs { a: na, status: nz(StatusFlags { carry: value & 0x80 != 0, ..s }, na), ..g }
            },
            Operation::Rol => {
                let old = if acc { self.a } else { value };
                let r = if s.carry { (old << 1u8) | 0x01 } else { old << 1u8 };
                let s1 = nz(StatusFlags { carry: old & 0x80 != 0, ..s }, r);
                Regs { a: if acc { r } else { self.a }, status: s1, ..g }
            },
            Operation::Ror => {
                let old = if acc { self.a } else { value };
                let r = if s.carry { (old >> 1u8) | 0x80 } else { old >> 1u8 };
                let s1 = nz(StatusFlags { carry: old & 0x01 != 0, ..s }, r);
                Regs { a: if acc { r } else { self.a }, status: s1, ..g }
            },
            Operation::Rra => {
                let rot = (value >> 1u8) | (if s.carry { 0x80u8 } else { 0u8 });
                adc_regs(self.config, Regs { status: StatusFlags { carry: value & 0x01 != 0, ..s }, ..g }, rot)
            },
            Operation::Sax => g,
            Operation::Sbc => adc_regs(self.config, g, value ^ 0xFF),
            Operation::Sbx => {
                let base = self.a & self.x;
                let nx = base.wrapping_sub(value);
                Regs { x: nx, status: nz(StatusFlags { carry: base >= value, ..s }, nx), ..g }
            },
            Operation::Sec => Regs { status: StatusFlags { carry: true, ..s }, ..g },
            Operation::Sed => Regs { status: StatusFlags { decimal: true, ..s }, ..g },
            Operation::Sei => Regs {
                i_delay: if !s.interrupt_disable { true } else { self.i_delay },
                status: StatusFlags { interrupt_disable: true, ..s },
                ..g
            },
            Operation::Sha | Operation::Shx | Operation::Shy => g,
            Operation::Slo => {
                let na = self.a | (value << 1u8);
                Regs { a: na, status: nz(StatusFlags { carry: value & 0x80 != 0, ..s }, na), ..g }
            },
            Operation::Sre => {
                let na = self.a ^ (value >> 1u8);
                Regs { a: na, status: nz(StatusFlags { carry: value & 0x01 != 0, ..s }, na), ..g }
            },
            Operation::Sta | Operation::Stx | Operation::Sty | Operation::Stz => g,
            Operation::Tas => Regs { sp: self.a & self.x, ..g },
            Operation::Tax => Regs { x: self.a, status: nz(s, self.a), ..g },
            Operation::Tay => Regs { y: self.a, status: nz(s, self.a), ..g },
            Operation::Trb | Operation::Tsb => Regs { status: StatusFlags { zero: (self.a & value) == 0, ..s }, ..g },
            Operation::Tsx => Regs { x: self.sp, status: nz(s, self.sp), ..g },
            Operation::Txa => Regs { a: self.x, status: nz(s, self.x), ..g },
            Operation::Txs => Regs { sp: self.x, ..g },
            Operation::Tya => Regs { a: self.y, status: nz(s, self.y), ..g },
            _ => g,
        }
    }

    /// Cycle bookkeeping stays far from the limits of its counters.
    pub open spec fn wf(self) -> bool {
        self.cycles_remaining + self.instruction_step + extra_cycles(self.current_mode, self.instruction_step) <= 0xFFFF_FF00
    }

    pub fn new(variant: CpuVariant) -> (r: Self)
        ensures
            r.config == config_for(variant),
            r.pc == 0,
            r.sp == 0xFD,
            r.a == 0 && r.x == 0 && r.y == 0,
            r.status == (StatusFlags {
                negative: false,
                overflow: false,
                decimal: false,
                interrupt_disable: false,
                zero: false,
                carry: false,
            }),
            !r.nmi_pending && !r.prev_nmi_line && !r.i_delay,
            r.total_cycles == 0,
            !r.is_running,
            r.cycles_remaining == 0,
            r.instruction_step == 0,
            r.current_op == Operation::Nop,
            r.current_mode == AddressingMode::Implied,
            r.wf(),
    {
        let config = match variant {
            CpuVariant::NMOS6502 => CpuConfig { has_bcd: true, has_jmp_bug: true, is_c02: false },
            CpuVariant::Ricoh2A03 => CpuConfig { has_bcd: false, has_jmp_bug: true, is_c02: false },
            CpuVariant::WDC65C02 => CpuConfig { has_bcd: true, has_jmp_bug: false, is_c02: true },
        };
        Self {
            pc: 0,
            sp: 0xfd,
            a: 0,
            x: 0,
            y: 0,
            status: StatusFlags {
                negative: false,
                overflow: false,
                decimal: false,
                interrupt_disable: false,
                zero: false,
                carry: false,
            },
            nmi_pending: false,
            prev_nmi_line: false,
            i_delay: false,
            last_cycles: 0,
            last_opcode: 0,
            total_cycles: 0,
            operand_address_crossed_page: false,
            is_running: false,
            bus_available: true,
            config,
            stall_cycles: 0,
            temp_addr_low: 0,
            temp_addr_high: 0,
            temp_value: 0,
            effective_addr: 0,
            current_opcode: 0,
            current_op: Operation::Nop,
            current_mode: AddressingMode::Implied,
            instruction_step: 0,
            cycles_remaining: 0,
        }
    }

    pub open spec fn state_of(self) -> CpuState {
        CpuState {
            a: self.a,
            x: self.x,
            y: self.y,
            pc: self.pc,
            sp: self.sp,
            status: self.status,
            cycles_remaining: self.cycles_remaining,
            instruction_step: self.instruction_step,
            current_opcode: self.current_opcode,
            nmi_pending: self.nmi_pending,
            prev_nmi_line: self.prev_nmi_line,
            total_cycles: self.total_cycles,
        }
    }

    pub fn get_state(&self) -> (r: CpuState)
        ensures
            r == self.state_of(),
    {
        CpuState {
            a: self.a,
            x: self.x,
            y: self.y,
            pc: self.pc,
            sp: self.sp,
            status: self.status,
            cycles_remaining: self.cycles_remaining,
            instruction_step: self.instruction_step,
            current_opcode: self.current_opcode,
            nmi_pending: self.nmi_pending,
            prev_nmi_line: self.prev_nmi_line,
            total_cycles: self.total_cycles,
        }
    }

    pub fn total_cycles(&self) -> (r: u64)
        ensures
            r == self.total_cycles,
    {
        self.total_cycles
    }

    /// The CPU with the fields that a save state records taken from `st`.
    pub open spec fn with_state(self, st: CpuState) -> Self {
        M6502Cpu {
            a: st.a,
            x: st.x,
            y: st.y,
            pc: st.pc,
            sp: st.sp,
            status: st.status,
            cycles_remaining: st.cycles_remaining,
            instruction_step: st.instruction_step,
            current_opcode: st.current_opcode,
            nmi_pending: st.nmi_pending,
            prev_nmi_line: st.prev_nmi_line,
            total_cycles: st.total_cycles,
            ..self
        }
    }

    /// Loads a saved state back in; everything a state does not record is kept.
    pub fn set_state(&mut self, state: CpuState)
        ensures
            final(self).state_of() == state,
            *final(self) == old(self).with_state(state),
    {
        self.a = state.a;
        self.x = state.x;
        self.y = state.y;
        self.pc = state.pc;
        self.sp = state.sp;
        self.status = state.status;
        self.cycles_remaining = state.cycles_remaining;
        self.instruction_step = state.instruction_step;
        self.current_opcode = state.current_opcode;
        self.nmi_pending = state.nmi_pending;
        self.prev_nmi_line = state.prev_nmi_line;
        self.total_cycles = state.total_cycles;
    }

    pub fn is_interrupt_disabled(&self) -> (r: bool)
        ensures
            r == self.status.interrupt_disable,
    {
        self.status.interrupt_disable
    }

    /// Power-up: clears the registers, sets I, lets the bus run the seven
    /// start-up cycles and loads PC from the reset vector at 0xFFFC/0xFFFD.
    pub fn power_on<B: AddressBus + ?Sized>(&mut self, bus: &mut B)
        ensures
            final(self).is_running,
            final(self).a == 0 && final(self).x == 0 && final(self).y == 0,
            final(self).sp == 0xFD,
            final(self).status == (StatusFlags { interrupt_disable: true, ..old(self).status }),
            !final(self).nmi_pending && !final(self).i_delay && !final(self).prev_nmi_line,
            final(self).total_cycles == 7,
            final(self).config == old(self).config,
            final(self).cycles_remaining == old(self).cycles_remaining,
            final(self).instruction_step == old(self).instruction_step,
            final(self).current_mode == old(self).current_mode,
            (old(bus).holds_memory(0xFFFC) && old(bus).holds_memory(0xFFFD))
                ==> final(self).pc == old(bus).memory_byte(0xFFFD) * 256 + old(bus).memory_byte(0xFFFC),
    {
        self.is_running = true;
        self.a = 0;
        self.x = 0;
        self.y = 0;
        self.sp = 0xFD;
        self.status.interrupt_disable = true;
        self.nmi_pending = false;
        self.i_delay = false;
        self.prev_nmi_line = false;
        self.last_cycles = 0;
        self.last_opcode = 0;
        let mut i: u32 = 0;
        while i < 5
            invariant
                memory_kept(old(bus), bus),
            decreases 5 - i,
        {
            bus.step_cycles(1);
            i = i + 1;
        }
        self.operand_address_crossed_page = false;
        let lo = bus.read_byte(0xFFFC) as u16;
        bus.step_cycles(1);
        let hi = bus.read_byte(0xFFFD) as u16;
        bus.step_cycles(1);
        proof {
            crate::bits::lemma_pair(hi as u8, lo as u8);
        }
        self.pc = (hi << 8) | lo;
        self.total_cycles = 7;
    }

    /// Reset: SP drops by three, I is set, PC is loaded from the reset vector.
    pub fn reset<B: AddressBus + ?Sized>(&mut self, bus: &mut B)
        ensures
            final(self).sp == old(self).sp.wrapping_sub(3),
            final(self).status == (StatusFlags { interrupt_disable: true, ..old(self).status }),
            final(self).a == old(self).a && final(self).x == old(self).x && final(self).y == old(self).y,
            !final(self).nmi_pending && !final(self).i_delay && !final(self).prev_nmi_line,
            final(self).total_cycles == 0,
            !final(self).is_running,
            final(self).config == old(self).config,
            final(self).cycles_remaining == old(self).cycles_remaining,
            final(self).instruction_step == old(self).instruction_step,
            final(self).current_mode == old(self).current_mode,
            (old(bus).holds_memory(0xFFFC) && old(bus).holds_memory(0xFFFD))
                ==> final(self).pc == old(bus).memory_byte(0xFFFD) * 256 + old(bus).memory_byte(0xFFFC),
    {
        self.sp = self.sp.wrapping_sub(3);
        self.status.interrupt_disable = true;
        self.nmi_pending = false;
        self.i_delay = false;
        self.prev_nmi_line = false;
        self.last_cycles = 0;
        self.last_opcode = 0;
        self.total_cycles = 0;
        self.operand_address_crossed_page = false;
        self.is_running = false;
        let lo = bus.read_byte(0xFFFC) as u16;
        let hi = bus.read_byte(0xFFFD) as u16;
        proof {
            crate::bits::lemma_pair(hi as u8, lo as u8);
        }
        self.pc = (hi << 8) | lo;
    }

    /// Runs one CPU cycle. On an instruction boundary it first services a
    /// latched NMI or an unmasked IRQ, else fetches and decodes the next
    /// opcode; otherwise it runs the next micro-step of the current
    /// instruction.
    #[verifier::spinoff_prover]
    #[verifier::rlimit(100)]
    pub fn step_one_cycle<B: AddressBus + ?Sized>(&mut self, bus: &mut B) -> (r: Result<(), CpuError>)
        requires
            old(self).wf(),
            old(self).total_cycles < u64::MAX,
        ensures
            final(self).config == old(self).config,
            r is Ok ==> final(self).wf(),
            r is Ok ==> final(self).total_cycles == old(self).total_cycles + 1,
            (old(self).cycles_remaining > 0 && r is Ok) ==> final(self).instruction_step == old(self).instruction_step + 1
                && final(self).current_op == old(self).current_op
                && final(self).current_mode == old(self).current_mode,
            (old(self).cycles_remaining > 0 && r is Err) ==> old(self).current_op.unsupported(),
            (old(self).cycles_remaining == 0 && r is Ok) ==> final(self).instruction_step == 2
                && final(self).cycles_remaining + final(self).instruction_step + extra_cycles(final(self).current_mode, 2) <= 10
                && ({
                    ||| (final(self).current_mode == AddressingMode::Interrupt
                        && (final(self).current_op == Operation::Nmi || final(self).current_op == Operation::Irq)
                        && final(self).cycles_remaining == 6
                        && final(self).pc == old(self).pc)
                    ||| (decode_table(final(self).current_opcode, old(self).config.is_c02, old(self).config.has_jmp_bug)
                            == Some((final(self).current_op, final(self).current_mode, (final(self).cycles_remaining + 1) as u8))
                        && final(self).pc == old(self).pc.wrapping_add(1))
                }),
            (old(self).cycles_remaining == 0 && r is Err) ==> r == Err::<(), CpuError>(CpuError::UnknownOpcode(final(self).current_opcode))
                && decode_table(final(self).current_opcode, old(self).config.is_c02, old(self).config.has_jmp_bug) is None,
            (old(self).cycles_remaining > 0 && r is Ok && old(self).current_mode == AddressingMode::Implied
                && old(self).current_op != Operation::Lax && old(self).current_op != Operation::JmpIndexedIndirect)
                ==> final(self).regs() == old(self).after_op(old(self).current_op, 0),
            (old(self).cycles_remaining > 0 && r is Ok && old(self).current_mode == AddressingMode::Accumulator
                && old(self).current_op != Operation::Lax && old(self).current_op != Operation::JmpIndexedIndirect)
                ==> final(self).regs() == old(self).after_op(old(self).current_op, old(self).a),
            (old(self).cycles_remaining > 0 && r is Ok && old(self).current_mode == AddressingMode::Immediate
                && old(self).current_op != Operation::Lax && old(self).current_op != Operation::JmpIndexedIndirect)
                ==> exists|v: u8| final(self).regs() == #[trigger] old(self).past_operand().after_op(old(self).current_op, v),
            (old(self).cycles_remaining > 0 && r is Ok && old(self).data_cycle() && old(self).plain_op()
                && !old(self).current_op.rmw() && old(self).current_op.store())
                ==> final(self).regs() == old(self).after_op(old(self).current_op, 0),
            (old(self).cycles_remaining > 0 && r is Ok && old(self).data_cycle() && old(self).plain_op()
                && !old(self).current_op.rmw() && !old(self).current_op.store())
                ==> exists|v: u8| final(self).regs() == #[trigger] old(self).after_op(old(self).current_op, v),
            (old(self).cycles_remaining > 0 && r is Ok && old(self).rmw_cycle() && old(self).plain_op()
                && old(self).current_op.rmw())
                ==> final(self).regs() == old(self).after_op(old(self).current_op, old(self).temp_value),
            (old(self).cycles_remaining > 0 && r is Ok) ==> exists|s1: Self, s2: Self|
                #[trigger] s1.micro_cycle_effect(s2, true)
                && s1 == (M6502Cpu { nmi_pending: s1.nmi_pending, prev_nmi_line: s1.prev_nmi_line, ..*old(self) })
                && s1.nmi_pending == (old(self).nmi_pending || (!old(self).prev_nmi_line && s1.prev_nmi_line))
                && s1.micro_cycle_bus(s2, old(bus), final(bus), true)
                && *final(self) == (M6502Cpu {
                    instruction_step: (s2.instruction_step + 1) as u32,
                    cycles_remaining: (s2.cycles_remaining - 1) as u32,
                    total_cycles: (s2.total_cycles + 1) as u64,
                    ..s2
                }),
            (old(self).cycles_remaining == 0 && (r is Err || final(self).pc == old(self).pc.wrapping_add(1)))
                ==> read_at(old(bus), final(bus), old(self).pc, final(self).current_opcode),
            (old(self).cycles_remaining == 0 && r is Ok && final(self).pc == old(self).pc)
                ==> dummy_read_at(old(bus), final(bus), old(self).pc),
    {
        let current_nmi_line = bus.is_nmi_line_asserted();
        if !self.prev_nmi_line && current_nmi_line {
            self.nmi_pending = true;
        }
        self.prev_nmi_line = current_nmi_line;

        if self.cycles_remaining == 0 {
            self.instruction_step = 1;
            if !self.check_interrupts(bus) {
                self.i_delay = false;
                self.current_opcode = bus.read_byte(self.pc);
                let decoded = self.decode_opcode(self.current_opcode);
                match decoded {
                    None => {
                        return Err(CpuError::UnknownOpcode(self.current_opcode));
                    },
                    Some((op, mode, cycles)) => {
                        self.pc = self.pc.wrapping_add(1);
                        self.current_mode = mode;
                        self.current_op = op;
                        self.cycles_remaining = cycles as u32;
                        self.instruction_step = 2;
                    },
                }
            }
        } else {
            proof {
                lemma_after_op_regs_only(*old(self), *self, self.current_op, 0);
                lemma_after_op_regs_only(*old(self), *self, self.current_op, self.a);
                lemma_after_op_regs_only(*old(self), *self, self.current_op, self.temp_value);
            }
            let ghost s1 = *self;
            let res = self.execute_micro_cycle(bus);
            proof {
                if res is Ok && s1.current_mode == AddressingMode::Immediate && s1.current_op != Operation::Lax
                    && s1.current_op != Operation::JmpIndexedIndirect {
                    let v = choose|v: u8| *self == #[trigger] s1.operand_applied(v);
                    lemma_after_op_regs_only(old(self).past_operand(), s1.past_operand(), s1.current_op, v);
                    assert(self.regs() == old(self).past_operand().after_op(old(self).current_op, v));
                }
                if res is Ok && s1.data_cycle() && s1.plain_op() && !s1.current_op.rmw() && !s1.current_op.store() {
                    let v = choose|v: u8| *self == s1.with_regs(#[trigger] s1.after_op(s1.current_op, v));
                    lemma_after_op_regs_only(*old(self), s1, s1.current_op, v);
                    assert(self.regs() == old(self).after_op(old(self).current_op, v));
                }
            }
            if res.is_err() {
                return res;
            }
            let ghost s2 = *self;
            self.instruction_step = self.instruction_step + 1;
            self.cycles_remaining = self.cycles_remaining - 1;
            self.total_cycles = self.total_cycles + 1;
            assert(s1.micro_cycle_effect(s2, true));
            assert(s1.micro_cycle_bus(s2, old(bus), bus, true));
            return Ok(());
        }
        self.cycles_remaining = self.cycles_remaining - 1;
        self.total_cycles = self.total_cycles + 1;
        Ok(())
    }

    /// Looks an opcode up in the decode table of this CPU's variant.
    pub fn decode_opcode(&self, opcode: u8) -> (r: Option<(Operation, AddressingMode, u8)>)
        ensures
            r == decode_table(opcode, self.config.is_c02, self.config.has_jmp_bug),
            r matches Some((op, mode, c)) ==> 1 <= c <= 8 && (c as int) + 2 + extra_cycles(mode, 2) <= 11,
    {
        match opcode {
            0x00 => Some((Operation::Brk, AddressingMode::Interrupt, 7)),
            0x01 => Some((Operation::Ora, AddressingMode::IndirectX, 6)),
            0x05 => Some((Operation::Ora, AddressingMode::ZeroPage, 3)),
            0x06 => Some((Operation::Asl, AddressingMode::ZeroPage, 5)),
            0x08 => Some((Operation::Php, AddressingMode::Unique, 3)),
            0x09 => Some((Operation::Ora, AddressingMode::Immediate, 2)),
            0x0A => Some((Operation::Asl, AddressingMode::Accumulator, 2)),
            0x0D => Some((Operation::Ora, AddressingMode::Absolute, 4)),
            0x0E => Some((Operation::Asl, AddressingMode::Absolute, 6)),
            0x10 => Some((Operation::Bpl, AddressingMode::Relative, 2)),
            0x11 => Some((Operation::Ora, AddressingMode::IndirectY, 5)),
            0x15 => Some((Operation::Ora, AddressingMode::ZeroPageX, 4)),
            0x16 => Some((Operation::Asl, AddressingMode::ZeroPageX, 6)),
            0x18 => Some((Operation::Clc, AddressingMode::Implied, 2)),
            0x19 => Some((Operation::Ora, AddressingMode::AbsoluteY, 4)),
            0x1D => Some((Operation::Ora, AddressingMode::AbsoluteX, 4)),
            0x1E => Some((Operation::Asl, AddressingMode::AbsoluteX, 7)),
            0x20 => Some((Operation::Jsr, AddressingMode::Unique, 6)),
            0x21 => Some((Operation::And, AddressingMode::IndirectX, 6)),
            0x24 => Some((Operation::Bit, AddressingMode::ZeroPage, 3)),
            0x25 => Some((Operation::And, AddressingMode::ZeroPage, 3)),
            0x26 => Some((Operation::Rol, AddressingMode::ZeroPage, 5)),
            0x28 => Some((Operation::Plp, AddressingMode::Unique, 4)),
            0x29 => Some((Operation::And, AddressingMode::Immediate, 2)),
            0x2A => Some((Operation::Rol, AddressingMode::Accumulator, 2)),
            0x2C => Some((Operation::Bit, AddressingMode::Absolute, 4)),
            0x2D => Some((Operation::And, AddressingMode::Absolute, 4)),
            0x2E => Some((Operation::Rol, AddressingMode::Absolute, 6)),
            0x30 => Some((Operation::Bmi, AddressingMode::Relative, 2)),
            0x31 => Some((Operation::And, AddressingMode::IndirectY, 5)),
            0x35 => Some((Operation::And, AddressingMode::ZeroPageX, 4)),
            0x36 => Some((Operation::Rol, AddressingMode::ZeroPageX, 6)),
            0x38 => Some((Operation::Sec, AddressingMode::Implied, 2)),
            0x39 => Some((Operation::And, AddressingMode::AbsoluteY, 4)),
            0x3D => Some((Operation::And, AddressingMode::AbsoluteX, 4)),
            0x3E => Some((Operation::Rol, AddressingMode::AbsoluteX, 7)),
            0x40 => Some((Operation::Rti, AddressingMode::Unique, 6)),
            0x41 => Some((Operation::Eor, AddressingMode::IndirectX, 6)),
            0x45 => Some((Operation::Eor, AddressingMode::ZeroPage, 3)),
            0x46 => Some((Operation::Lsr, AddressingMode::ZeroPage, 5)),
            0x48 => Some((Operation::Pha, AddressingMode::Unique, 3)),
            0x49 => Some((Operation::Eor, AddressingMode::Immediate, 2)),
            0x4A => Some((Operation::Lsr, AddressingMode::Accumulator, 2)),
            0x4C => Some((Operation::Jmp, AddressingMode::Absolute, 3)),
            0x4D => Some((Operation::Eor, AddressingMode::Absolute, 4)),
            0x4E => Some((Operation::Lsr, AddressingMode::Absolute, 6)),
            0x50 => Some((Operation::Bvc, AddressingMode::Relative, 2)),
            0x51 => Some((Operation::Eor, AddressingMode::IndirectY, 5)),
            0x55 => Some((Operation::Eor, AddressingMode::ZeroPageX, 4)),
            0x56 => Some((Operation::Lsr, AddressingMode::ZeroPageX, 6)),
            0x58 => Some((Operation::Cli, AddressingMode::Implied, 2)),
            0x59 => Some((Operation::Eor, AddressingMode::AbsoluteY, 4)),
            0x5D => Some((Operation::Eor, AddressingMode::AbsoluteX, 4)),
            0x5E => Some((Operation::Lsr, AddressingMode::AbsoluteX, 7)),
            0x60 => Some((Operation::Rts, AddressingMode::Unique, 6)),
            0x61 => Some((Operation::Adc, AddressingMode::IndirectX, 6)),
            0x65 => Some((Operation::Adc, AddressingMode::ZeroPage, 3)),
            0x66 => Some((Operation::Ror, AddressingMode::ZeroPage, 5)),
            0x68 => Some((Operation::Pla, AddressingMode::Unique, 4)),
            0x69 => Some((Operation::Adc, AddressingMode::Immediate, 2)),
            0x6A => Some((Operation::Ror, AddressingMode::Accumulator, 2)),
            0x6C => {
                let cycles_remaining: u8 = if self.config.has_jmp_bug { 5 } else { 6 };
                Some((Operation::Jmp, AddressingMode::Indirect, cycles_remaining))
            },
            0x6D => Some((Operation::Adc, AddressingMode::Absolute, 4)),
            0x6E => Some((Operation::Ror, AddressingMode::Absolute, 6)),
            0x70 => Some((Operation::Bvs, AddressingMode::Relative, 2)),
            0x71 => Some((Operation::Adc, AddressingMode::IndirectY, 5)),
            0x75 => Some((Operation::Adc, AddressingMode::ZeroPageX, 4)),
            0x76 => Some((Operation::Ror, AddressingMode::ZeroPageX, 6)),
            0x78 => Some((Operation::Sei, AddressingMode::Implied, 2)),
            0x79 => Some((Operation::Adc, AddressingMode::AbsoluteY, 4)),
            0x7D => Some((Operation::Adc, AddressingMode::AbsoluteX, 4)),
            0x7E => Some((Operation::Ror, AddressingMode::AbsoluteX, 7)),
            0x81 => Some((Operation::Sta, AddressingMode::IndirectX, 6)),
            0x84 => Some((Operation::Sty, AddressingMode::ZeroPage, 3)),
            0x85 => Some((Operation::Sta, AddressingMode::ZeroPage, 3)),
            0x86 => Some((Operation::Stx, AddressingMode::ZeroPage, 3)),
            0x88 => Some((Operation::Dey, AddressingMode::Implied, 2)),
            0x8A => Some((Operation::Txa, AddressingMode::Implied, 2)),
            0x8C => Some((Operation::Sty, AddressingMode::Absolute, 4)),
            0x8D => Some((Operation::Sta, AddressingMode::Absolute, 4)),
            0x8E => Some((Operation::Stx, AddressingMode::Absolute, 4)),
            0x90 => Some((Operation::Bcc, AddressingMode::Relative, 2)),
            0x91 => Some((Operation::Sta, AddressingMode::IndirectY, 6)),
            0x94 => Some((Operation::Sty, AddressingMode::ZeroPageX, 4)),
            0x95 => Some((Operation::Sta, AddressingMode::ZeroPageX, 4)),
            0x96 => Some((Operation::Stx, AddressingMode::ZeroPageY, 4)),
            0x98 => Some((Operation::Tya, AddressingMode::Implied, 2)),
            0x99 => Some((Operation::Sta, AddressingMode::AbsoluteY, 5)),
            0x9A => Some((Operation::Txs, AddressingMode::Implied, 2)),
            0x9D => Some((Operation::Sta, AddressingMode::AbsoluteX, 5)),
            0xA0 => Some((Operation::Ldy, AddressingMode::Immediate, 2)),
            0xA1 => Some((Operation::Lda, AddressingMode::IndirectX, 6)),
            0xA2 => Some((Operation::Ldx, AddressingMode::Immediate, 2)),
            0xA4 => Some((Operation::Ldy, AddressingMode::ZeroPage, 3)),
            0xA5 => Some((Operation::Lda, AddressingMode::ZeroPage, 3)),
            0xA6 => Some((Operation::Ldx, AddressingMode::ZeroPage, 3)),
            0xA8 => Some((Operation::Tay, AddressingMode::Implied, 2)),
            0xA9 => Some((Operation::Lda, AddressingMode::Immediate, 2)),
            0xAA => Some((Operation::Tax, AddressingMode::Implied, 2)),
            0xAC => Some((Operation::Ldy, AddressingMode::Absolute, 4)),
            0xAD => Some((Operation::Lda, AddressingMode::Absolute, 4)),
            0xAE => Some((Operation::Ldx, AddressingMode::Absolute, 4)),
            0xB0 => Some((Operation::Bcs, AddressingMode::Relative, 2)),
            0xB1 => Some((Operation::Lda, AddressingMode::IndirectY, 5)),
            0xB4 => Some((Operation::Ldy, AddressingMode::ZeroPageX, 4)),
            0xB5 => Some((Operation::Lda, AddressingMode::ZeroPageX, 4)),
            0xB6 => Some((Operation::Ldx, AddressingMode::ZeroPageY, 4)),
            0xB8 => Some((Operation::Clv, AddressingMode::Implied, 2)),
            0xB9 => Some((Operation::Lda, AddressingMode::AbsoluteY, 4)),
            0xBA => Some((Operation::Tsx, AddressingMode::Implied, 2)),
            0xBC => Some((Operation::Ldy, AddressingMode::AbsoluteX, 4)),
            0xBD => Some((Operation::Lda, AddressingMode::AbsoluteX, 4)),
            0xBE => Some((Operation::Ldx, AddressingMode::AbsoluteY, 4)),
            0xC0 => Some((Operation::Cpy, AddressingMode::Immediate, 2)),
            0xC1 => Some((Operation::Cmp, AddressingMode::IndirectX, 6)),
            0xC4 => Some((Operation::Cpy, AddressingMode::ZeroPage, 3)),
            0xC5 => Some((Operation::Cmp, AddressingMode::ZeroPage, 3)),
            0xC6 => Some((Operation::Dec, AddressingMode::ZeroPage, 5)),
            0xC8 => Some((Operation::Iny, AddressingMode::Implied, 2)),
            0xC9 => Some((Operation::Cmp, AddressingMode::Immediate, 2)),
            0xCA => Some((Operation::Dex, AddressingMode::Implied, 2)),
            0xCC => Some((Operation::Cpy, AddressingMode::Absolute, 4)),
            0xCD => Some((Operation::Cmp, AddressingMode::Absolute, 4)),
            0xCE => Some((Operation::Dec, AddressingMode::Absolute, 6)),
            0xD0 => Some((Operation::Bne, AddressingMode::Relative, 2)),
            0xD1 => Some((Operation::Cmp, AddressingMode::IndirectY, 5)),
            0xD5 => Some((Operation::Cmp, AddressingMode::ZeroPageX, 4)),
            0xD6 => Some((Operation::Dec, AddressingMode::ZeroPageX, 6)),
            0xD8 => Some((Operation::Cld, AddressingMode::Implied, 2)),
            0xD9 => Some((Operation::Cmp, AddressingMode::AbsoluteY, 4)),
            0xDD => Some((Operation::Cmp, AddressingMode::AbsoluteX, 4)),
            0xDE => Some((Operation::Dec, AddressingMode::AbsoluteX, 7)),
            0xE0 => Some((Operation::Cpx, AddressingMode::Immediate, 2)),
            0xE1 => Some((Operation::Sbc, AddressingMode::IndirectX, 6)),
            0xE4 => Some((Operation::Cpx, AddressingMode::ZeroPage, 3)),
            0xE5 => Some((Operation::Sbc, AddressingMode::ZeroPage, 3)),
            0xE6 => Some((Operation::Inc, AddressingMode::ZeroPage, 5)),
            0xE8 => Some((Operation::Inx, AddressingMode::Implied, 2)),
            0xE9 | 0xEB => Some((Operation::Sbc, AddressingMode::Immediate, 2)),
            0xEA => Some((Operation::Nop, AddressingMode::Implied, 2)),
            0xEC => Some((Operation::Cpx, AddressingMode::Absolute, 4)),
            0xED => Some((Operation::Sbc, AddressingMode::Absolute, 4)),
            0xEE => Some((Operation::Inc, AddressingMode::Absolute, 6)),
            0xF0 => Some((Operation::Beq, AddressingMode::Relative, 2)),
            0xF1 => Some((Operation::Sbc, AddressingMode::IndirectY, 5)),
            0xF5 => Some((Operation::Sbc, AddressingMode::ZeroPageX, 4)),
            0xF6 => Some((Operation::Inc, AddressingMode::ZeroPageX, 6)),
            0xF9 => Some((Operation::Sbc, AddressingMode::AbsoluteY, 4)),
            0xF8 => Some((Operation::Sed, AddressingMode::Implied, 2)),
            0xFD => Some((Operation::Sbc, AddressingMode::AbsoluteX, 4)),
            0xFE => Some((Operation::Inc, AddressingMode::AbsoluteX, 7)),
            0x04 => {
                if self.config.is_c02 {
                    Some((Operation::Tsb, AddressingMode::ZeroPage, 5))
                } else {
                    Some((Operation::Nop, AddressingMode::ZeroPage, 3))
                }
            }
            0x0C => {
                if self.config.is_c02 {
                    Some((Operation::Tsb, AddressingMode::Absolute, 5))
                } else {
                    Some((Operation::Nop, AddressingMode::Absolute, 4))
                }
            }
            0x14 => {
                if self.config.is_c02 {
                    Some((Operation::Trb, AddressingMode::ZeroPage, 5))
                } else {
                    Some((Operation::Nop, AddressingMode::ZeroPageX, 4))
                }
            }
            0x1C => {
                if self.config.is_c02 {
                    Some((Operation::Trb, AddressingMode::Absolute, 6))
                } else {
                    Some((Operation::Nop, AddressingMode::AbsoluteX, 4))
                }
            }
            0x34 => {
                if self.config.is_c02 {
                    Some((Operation::Bit, AddressingMode::ZeroPageX, 4))
                } else {
                    Some((Operation::Nop, AddressingMode::ZeroPageX, 4))
                }
            }
            0x3A => {
                if self.config.is_c02 {
                    Some((Operation::Dec, AddressingMode::Implied, 2))
                } else {
                    Some((Operation::Nop, AddressingMode::Implied, 2))
                }
            }
            0x3C => {
                if self.config.is_c02 {
                    Some((Operation::Bit, AddressingMode::AbsoluteX, 4))
                } else {
                    Some((Operation::Nop, AddressingMode::AbsoluteX, 4))
                }
            }
            0x43 => {
                if self.config.is_c02 {
                    Some((Operation::Nop, AddressingMode::Implied, 1))
                } else {
                    Some((Operation::Sre, AddressingMode::IndirectX, 8))
                }
            }
            0x47 => {
                if self.config.is_c02 {
                    Some((Operation::Nop, AddressingMode::Implied, 1))
                } else {
                    Some((Operation::Sre, AddressingMode::ZeroPage, 5))
                }
            }
            0x4F => {
                if self.config.is_c02 {
                    Some((Operation::Nop, AddressingMode::Implied, 1))
                } else {
                    Some((Operation::Sre, AddressingMode::Absolute, 6))
                }
            }
            0x53 => {
                if self.config.is_c02 {
                    Some((Operation::Nop, AddressingMode::Implied, 1))
                } else {
                    Some((Operation::Sre, AddressingMode::IndirectY, 8))
                }
            }
            0x57 => {
                if self.config.is_c02 {
                    Some((Operation::Nop, AddressingMode::Implied, 1))
                } else {
                    Some((Operation::Sre, AddressingMode::ZeroPageX, 6))
                }
            }
            0x5A => {
                if self.config.is_c02 {
                    Some((Operation::Phy, AddressingMode::Unique, 2))
                } else {
                    Some((Operation::Nop, AddressingMode::Implied, 2))
                }
            }
            0x5B => {
                if self.config.is_c02 {
                    Some((Operation::Nop, AddressingMode::Implied, 1))
                } else {
                    Some((Operation::Sre, AddressingMode::AbsoluteY, 7))
                }
            }
            0x5F => {
                if self.config.is_c02 {
                    Some((Operation::Nop, AddressingMode::Implied, 1))
                } else {
                    Some((Operation::Sre, AddressingMode::AbsoluteX, 7))
                }
            }
            0x64 => {
                if self.config.is_c02 {
                    Some((Operation::Stz, AddressingMode::ZeroPage, 3))
                } else {
                    Some((Operation::Nop, AddressingMode::ZeroPage, 3))
                }
            }
            0x6B => {
                if self.config.is_c02 {
                    Some((Operation::Nop, AddressingMode::Implied, 1))
                } else {
                    Some((Operation::Arr, AddressingMode::Immediate, 2))
                }
            }
            0x74 => {
                if self.config.is_c02 {
                    Some((Operation::Stz, AddressingMode::ZeroPageX, 4))
                } else {
                    Some((Operation::Nop, AddressingMode::ZeroPageX, 4))
                }
            }
            0x7C => {
                if self.config.is_c02 {
                    Some((Operation::JmpIndexedIndirect, AddressingMode::AbsoluteX, 6))
                } else {
                    Some((Operation::Nop, AddressingMode::AbsoluteX, 4))
                }
            }
            0xBB => {
                if self.config.is_c02 {
                    Some((Operation::Nop, AddressingMode::Implied, 1))
                } else {
                    Some((Operation::Las, AddressingMode::AbsoluteY, 4))
                }
            }
            0xCB => {
                if self.config.is_c02 {
                    Some((Operation::Nop, AddressingMode::Implied, 1))
                } else {
                    Some((Operation::Sbx, AddressingMode::Immediate, 2))
                }
            }
            0xD4 => {
                if self.config.is_c02 {
                    Some((Operation::Pei, AddressingMode::ZeroPage, 6))
                } else {
                    Some((Operation::Nop, AddressingMode::ZeroPageX, 4))
                }
            }
            0xDC => {
                if self.config.is_c02 {
                    Some((Operation::JmpIndirect, AddressingMode::Absolute, 6))
                } else {
                    Some((Operation::Nop, AddressingMode::AbsoluteX, 4))
                }
            }
            0xE3 => {
                if self.config.is_c02 {
                    Some((Operation::Nop, AddressingMode::Implied, 1))
                } else {
                    Some((Operation::Isc, AddressingMode::IndirectX, 8))
                }
            }
            0xE7 => {
                if self.config.is_c02 {
                    Some((Operation::Nop, AddressingMode::Implied, 1))
                } else {
                    Some((Operation::Isc, AddressingMode::ZeroPage, 5))
                }
            }
            0xEF => {
                if self.config.is_c02 {
                    Some((Operation::Nop, AddressingMode::Implied, 1))
                } else {
                    Some((Operation::Isc, AddressingMode::Absolute, 6))
                }
            }
            0xF3 => {
                if self.config.is_c02 {
                    Some((Operation::Nop, AddressingMode::Implied, 1))
                } else {
                    Some((Operation::Isc, AddressingMode::IndirectY, 8))
                }
            }
            0xF4 => {
                if self.config.is_c02 {
                    Some((Operation::Pea, AddressingMode::Immediate, 5))
                } else {
                    Some((Operation::Nop, AddressingMode::ZeroPageX, 4))
                }
            }
            0xF7 => {
                if self.config.is_c02 {
                    Some((Operation::Nop, AddressingMode::Implied, 1))
                } else {
                    Some((Operation::Isc, AddressingMode::ZeroPageX, 6))
                }
            }
            0xFB => {
                if self.config.is_c02 {
                    Some((Operation::Nop, AddressingMode::Implied, 1))
                } else {
                    Some((Operation::Isc, AddressingMode::AbsoluteY, 7))
                }
            }
            0xFC => {
                if self.config.is_c02 {
                    Some((Operation::JsrIndexedIndirect, AddressingMode::AbsoluteX, 6))
                } else {
                    Some((Operation::Nop, AddressingMode::AbsoluteX, 4))
                }
            }
            0xFF => {
                if self.config.is_c02 {
                    Some((Operation::Nop, AddressingMode::Implied, 1))
                } else {
                    Some((Operation::Isc, AddressingMode::AbsoluteX, 7))
                }
            }
            0x03 => {
                if self.config.is_c02 {
                    Some((Operation::Nop, AddressingMode::Implied, 1))
                } else {
                    Some((Operation::Slo, AddressingMode::IndirectX, 8))
                }
            }
            0x0B | 0x2B => {
                if self.config.is_c02 {
                    Some((Operation::Nop, AddressingMode::Implied, 1))
                } else {
                    Some((Operation::Anc, AddressingMode::Immediate, 2))
                }
            }
            0x23 => {
                if self.config.is_c02 {
                    Some((Operation::Nop, AddressingMode::Implied, 1))
                } else {
                    Some((Operation::Rla, AddressingMode::IndirectX, 8))
                }
            }
            0x27 => {
                if self.config.is_c02 {
                    Some((Operation::Nop, AddressingMode::Implied, 1))
                } else {
                    Some((Operation::Rla, AddressingMode::ZeroPage, 5))
                }
            }
            0x2F => {
                if self.config.is_c02 {
                    Some((Operation::Nop, AddressingMode::Implied, 1))
                } else {
                    Some((Operation::Rla, AddressingMode::Absolute, 6))
                }
            }
            0x33 => {
                if self.config.is_c02 {
                    Some((Operation::Nop, AddressingMode::Implied, 1))
                } else {
                    Some((Operation::Rla, AddressingMode::IndirectY, 8))
                }
            }
            0x37 => {
                if self.config.is_c02 {
                    Some((Operation::Nop, AddressingMode::Implied, 1))
                } else {
                    Some((Operation::Rla, AddressingMode::ZeroPageX, 6))
                }
            }
            0x3B => {
                if self.config.is_c02 {
                    Some((Operation::Nop, AddressingMode::Implied, 1))
                } else {
                    Some((Operation::Rla, AddressingMode::AbsoluteY, 7))
                }
            }
            0x3F => {
                if self.config.is_c02 {
                    Some((Operation::Nop, AddressingMode::Implied, 1))
                } else {
                    Some((Operation::Rla, AddressingMode::AbsoluteX, 7))
                }
            }
            0x4B => {
                if self.config.is_c02 {
                    Some((Operation::Nop, AddressingMode::Implied, 1))
                } else {
                    Some((Operation::Alr, AddressingMode::Immediate, 2))
                }
            }
            0x63 => {
                if self.config.is_c02 {
                    Some((Operation::Nop, AddressingMode::Implied, 1))
                } else {
                    Some((Operation::Rra, AddressingMode::IndirectX, 8))
                }
            }
            0x67 => {
                if self.config.is_c02 {
                    Some((Operation::Nop, AddressingMode::Implied, 1))
                } else {
                    Some((Operation::Rra, AddressingMode::ZeroPage, 5))
                }
            }
            0x6F => {
                if self.config.is_c02 {
                    Some((Operation::Nop, AddressingMode::Implied, 1))
                } else {
                    Some((Operation::Rra, AddressingMode::Absolute, 6))
                }
            }
            0x73 => {
                if self.config.is_c02 {
                    Some((Operation::Nop, AddressingMode::Implied, 1))
                } else {
                    Some((Operation::Rra, AddressingMode::IndirectY, 8))
                }
            }
            0x77 => {
                if self.config.is_c02 {
                    Some((Operation::Nop, AddressingMode::Implied, 1))
                } else {
                    Some((Operation::Rra, AddressingMode::ZeroPageX, 6))
                }
            }
            0x7B => {
                if self.config.is_c02 {
                    Some((Operation::Nop, AddressingMode::Implied, 1))
                } else {
                    Some((Operation::Rra, AddressingMode::AbsoluteY, 7))
                }
            }
            0x7F => {
                if self.config.is_c02 {
                    Some((Operation::Nop, AddressingMode::Implied, 1))
                } else {
                    Some((Operation::Rra, AddressingMode::AbsoluteX, 7))
                }
            }
            0x83 => {
                if self.config.is_c02 {
                    Some((Operation::Nop, AddressingMode::Implied, 1))
                } else {
                    Some((Operation::Sax, AddressingMode::IndirectX, 6))
                }
            }
            0x87 => {
                if self.config.is_c02 {
                    Some((Operation::Nop, AddressingMode::Implied, 1))
                } else {
                    Some((Operation::Sax, AddressingMode::ZeroPage, 3))
                }
            }
            0x8B => {
                if self.config.is_c02 {
                    Some((Operation::Nop, AddressingMode::Implied, 1))
                } else {
                    Some((Operation::Ane, AddressingMode::Immediate, 2))
                }
            }
            0x8F => {
                if self.config.is_c02 {
                    Some((Operation::Nop, AddressingMode::Implied, 1))
                } else {
                    Some((Operation::Sax, AddressingMode::Absolute, 4))
                }
            }
            0x93 => {
                if self.config.is_c02 {
                    Some((Operation::Nop, AddressingMode::Implied, 1))
                } else {
                    Some((Operation::Sha, AddressingMode::IndirectY, 6))
                }
            }
            0x97 => {
                if self.config.is_c02 {
                    Some((Operation::Nop, AddressingMode::Implied, 1))
                } else {
                    Some((Operation::Sax, AddressingMode::ZeroPageY, 4))
                }
            }
            0x9B => {
                if self.config.is_c02 {
                    Some((Operation::Nop, AddressingMode::Implied, 1))
                } else {
                    Some((Operation::Tas, AddressingMode::AbsoluteY, 5))
                }
            }
            0x9C => {
                if self.config.is_c02 {
                    Some((Operation::Nop, AddressingMode::Implied, 1))
                } else {
                    Some((Operation::Shy, AddressingMode::AbsoluteX, 5))
                }
            }
            0x9E => {
                if self.config.is_c02 {
                    Some((Operation::Nop, AddressingMode::Implied, 1))
                } else {
                    Some((Operation::Shx, AddressingMode::AbsoluteY, 5))
                }
            }
            0x9F => {
                if self.config.is_c02 {
                    Some((Operation::Nop, AddressingMode::Implied, 1))
                } else {
                    Some((Operation::Sha, AddressingMode::AbsoluteY, 5))
                }
            }
            0xA3 => {
                if self.config.is_c02 {
                    Some((Operation::Nop, AddressingMode::Implied, 1))
                } else {
                    Some((Operation::Lax, AddressingMode::IndirectX, 6))
                }
            }
            0xA7 => {
                if self.config.is_c02 {
                    Some((Operation::Nop, AddressingMode::Implied, 1))
                } else {
                    Some((Operation::Lax, AddressingMode::ZeroPage, 3))
                }
            }
            0xAB => {
                if self.config.is_c02 {
                    Some((Operation::Nop, AddressingMode::Implied, 1))
                } else {
                    Some((Operation::Lxa, AddressingMode::Immediate, 2))
                }
            }
            0xAF => {
                if self.config.is_c02 {
                    Some((Operation::Nop, AddressingMode::Implied, 1))
                } else {
                    Some((Operation::Lax, AddressingMode::Absolute, 4))
                }
            }
            0xB3 => {
                if self.config.is_c02 {
                    Some((Operation::Nop, AddressingMode::Implied, 1))
                } else {
                    Some((Operation::Lax, AddressingMode::IndirectY, 5))
                }
            }
            0xB7 => {
                if self.config.is_c02 {
                    Some((Operation::Nop, AddressingMode::Implied, 1))
                } else {
                    Some((Operation::Lax, AddressingMode::ZeroPageY, 4))
                }
            }
            0xBF => {
                if self.config.is_c02 {
                    Some((Operation::Nop, AddressingMode::Implied, 1))
                } else {
                    Some((Operation::Lax, AddressingMode::AbsoluteY, 4))
                }
            }
            0xC3 => {
                if self.config.is_c02 {
                    Some((Operation::Nop, AddressingMode::Implied, 1))
                } else {
                    Some((Operation::Dcp, AddressingMode::IndirectX, 8))
                }
            }
            0xC7 => {
                if self.config.is_c02 {
                    Some((Operation::Nop, AddressingMode::Implied, 1))
                } else {
                    Some((Operation::Dcp, AddressingMode::ZeroPage, 5))
                }
            }
            0xCF => {
                if self.config.is_c02 {
                    Some((Operation::Nop, AddressingMode::Implied, 1))
                } else {
                    Some((Operation::Dcp, AddressingMode::Absolute, 6))
                }
            }
            0xD3 => {
                if self.config.is_c02 {
                    Some((Operation::Nop, AddressingMode::Implied, 1))
                } else {
                    Some((Operation::Dcp, AddressingMode::IndirectY, 8))
                }
            }
            0xD7 => {
                if self.config.is_c02 {
                    Some((Operation::Nop, AddressingMode::Implied, 1))
                } else {
                    Some((Operation::Dcp, AddressingMode::ZeroPageX, 6))
                }
            }
            0xDB => {
                if self.config.is_c02 {
                    Some((Operation::Nop, AddressingMode::Implied, 1))
                } else {
                    Some((Operation::Dcp, AddressingMode::AbsoluteY, 7))
                }
            }
            0xDF => {
                if self.config.is_c02 {
                    Some((Operation::Nop, AddressingMode::Implied, 1))
                } else {
                    Some((Operation::Dcp, AddressingMode::AbsoluteX, 7))
                }
            }
            0x1A | 0x7A | 0xDA | 0xFA => Some((Operation::Nop, AddressingMode::Implied, 2)),
            0x80 | 0x82 | 0x89 | 0xC2 | 0xE2 => Some((Operation::Nop, AddressingMode::Immediate, 2)),
            0x44 => Some((Operation::Nop, AddressingMode::ZeroPage, 3)),
            0x54 => Some((Operation::Nop, AddressingMode::ZeroPageX, 4)),
            0x5C => Some((Operation::Nop, AddressingMode::AbsoluteX, 4)),
            0x07 => Some((Operation::Slo, AddressingMode::ZeroPage, 5)),
            0x0F => Some((Operation::Slo, AddressingMode::Absolute, 6)),
            0x13 => Some((Operation::Slo, AddressingMode::IndirectY, 8)),
            0x17 => Some((Operation::Slo, AddressingMode::ZeroPageX, 6)),
            0x1B => Some((Operation::Slo, AddressingMode::AbsoluteY, 7)),
            0x1F => Some((Operation::Slo, AddressingMode::AbsoluteX, 7)),
            _ => None,
        }
    }

    /// On an instruction boundary: a latched NMI wins, then an IRQ unless
    /// masked. A pending change of I (CLI, SEI, PLP) takes effect one
    /// instruction late.
    fn check_interrupts<B: AddressBus + ?Sized>(&mut self, bus: &mut B) -> (r: bool)
        ensures
            final(self).config == old(self).config,
            final(self).pc == old(self).pc,
            final(self).total_cycles == old(self).total_cycles,
            final(self).prev_nmi_line == old(self).prev_nmi_line,
            old(self).nmi_pending ==> r && final(self).current_op == Operation::Nmi && !final(self).nmi_pending,
            r ==> final(self).current_mode == AddressingMode::Interrupt && final(self).cycles_remaining == 7
                && final(self).instruction_step == 2
                && (final(self).current_op == Operation::Nmi || final(self).current_op == Operation::Irq),
            (r && !old(self).nmi_pending) ==> final(self).current_op == Operation::Irq
                && (if old(self).i_delay { old(self).status.interrupt_disable } else { !old(self).status.interrupt_disable }),
            !r ==> *final(self) == *old(self),
            !r ==> memory_kept(old(bus), final(bus)),
            r ==> dummy_read_at(old(bus), final(bus), old(self).pc),
    {
        if self.nmi_pending {
            self.nmi_pending = false;
            self.setup_hardware_interrupt(Operation::Nmi, bus);
            return true;
        }

        let interrupts_disabled = if self.i_delay {
            if self.status.interrupt_disable { false } else { true }
        } else {
            self.status.interrupt_disable
        };

        if bus.is_irq_line_asserted() && !interrupts_disabled {
            self.setup_hardware_interrupt(Operation::Irq, bus);
            return true;
        }
        false
    }

    /// Starts the seven-cycle interrupt sequence for `op` (NMI or IRQ); the
    /// first cycle is a discarded read at PC.
    pub fn setup_hardware_interrupt<B: AddressBus + ?Sized>(&mut self, op: Operation, bus: &mut B)
        ensures
            dummy_read_at(old(bus), final(bus), old(self).pc),
            *final(self) == (M6502Cpu {
                current_op: op,
                current_mode: AddressingMode::Interrupt,
                cycles_remaining: 7,
                instruction_step: 2,
                i_delay: false,
                ..*old(self)
            }),
    {
        self.current_op = op;
        self.current_mode = AddressingMode::Interrupt;
        self.cycles_remaining = 7;
        self.instruction_step = 2;
        let _dummy = bus.read_byte(self.pc);
        self.i_delay = false;
    }

    /// The CPU once an immediate operand is fetched: the program counter
    /// past it.
    pub open spec fn past_operand(self) -> Self {
        M6502Cpu { pc: self.pc.wrapping_add(1), ..self }
    }

    /// The current operation applied to immediate operand `v`.
    pub open spec fn operand_applied(self, v: u8) -> Self {
        self.past_operand().with_regs(self.past_operand().after_op(self.current_op, v))
    }

    /// The operation is one that the general rules below describe: not LAX
    /// or JMP (abs,X), whose effects are stated on their own.
    pub open spec fn plain_op(self) -> bool {
        self.current_op != Operation::Lax && self.current_op != Operation::JmpIndexedIndirect
    }

    /// After the data cycle of a read or store (`t` from `self`): a load
    /// or ALU operation has been applied to some byte read from the bus, a
    /// store's operation has run (its byte goes out on the bus).
    pub open spec fn data_read_done(self, t: Self) -> bool {
        self.plain_op() && !self.current_op.rmw() ==> if self.current_op.store() {
            t == self.with_regs(self.after_op(self.current_op, 0))
        } else {
            exists|v: u8| t == self.with_regs(#[trigger] self.after_op(self.current_op, v))
        }
    }

    /// After the last cycle of a read-modify-write (`t` from `self`): the
    /// operation has been applied to the byte read earlier.
    pub open spec fn rmw_done(self, t: Self) -> bool {
        self.plain_op() && self.current_op.rmw() ==> t == self.with_regs(self.after_op(self.current_op, self.temp_value))
    }

    /// The cycle that reads (or stores) the operand, for the zero-page,
    /// indexed zero-page, absolute and (zp,X) modes.
    pub open spec fn data_cycle(self) -> bool {
        ||| (self.current_mode == AddressingMode::ZeroPage && self.instruction_step == 3)
        ||| (self.current_mode == AddressingMode::Absolute && self.instruction_step == 4)
        ||| ((self.current_mode == AddressingMode::ZeroPageX || self.current_mode == AddressingMode::ZeroPageY)
            && self.instruction_step == 4)
        ||| (self.current_mode == AddressingMode::IndirectX && self.instruction_step == 6)
    }

    /// The last cycle of a read-modify-write, for the zero-page, indexed
    /// zero-page, absolute and (zp,X) modes.
    pub open spec fn rmw_cycle(self) -> bool {
        ||| ((self.current_mode == AddressingMode::ZeroPage || self.current_mode == AddressingMode::Absolute)
            && self.instruction_step == 5)
        ||| ((self.current_mode == AddressingMode::ZeroPageX || self.current_mode == AddressingMode::ZeroPageY)
            && self.instruction_step == 6)
        ||| (self.current_mode == AddressingMode::IndirectX && self.instruction_step == 8)
    }

    /// The index register of an abs,X or abs,Y access.
    pub open spec fn index_reg(self) -> u8 {
        if self.current_mode == AddressingMode::AbsoluteX { self.x } else { self.y }
    }

    /// Whether adding the index to the low address byte carries into the
    /// high byte.
    pub open spec fn index_crosses_page(self) -> bool {
        self.temp_addr_low as int + self.index_reg() as int > 0xFF
    }

    /// The CPU once the index carry, if any, reaches the high address byte.
    pub open spec fn index_carried(self) -> Self {
        if self.index_crosses_page() {
            M6502Cpu { effective_addr: self.effective_addr.wrapping_add(0x0100), ..self }
        } else {
            self
        }
    }

    /// What a branch micro-step does (`t` from `self`).
    pub open spec fn branch_effect(self, t: Self) -> bool {
        &&& self.instruction_step != 2 ==> t.cycles_remaining == self.cycles_remaining
        &&& (self.instruction_step == 2 && !branch_taken(self.current_op, self.status))
            ==> t.cycles_remaining == self.cycles_remaining
            && t.pc == self.pc.wrapping_add(1)
        &&& (self.instruction_step == 2 && branch_taken(self.current_op, self.status))
            ==> t.pc == self.pc.wrapping_add(1)
            && t.cycles_remaining == self.cycles_remaining
                + (if (t.pc >> 8u16) != (t.effective_addr >> 8u16) { 2int } else { 1int })
        &&& (self.instruction_step == 3 || self.instruction_step == 4)
            ==> t.pc == self.effective_addr
    }

    /// What a stack-instruction micro-step does (`t` from `self`).
    pub open spec fn stack_effect(self, t: Self) -> bool {
        &&& t.cycles_remaining == self.cycles_remaining
        &&& (self.current_op == Operation::Jsr && (self.instruction_step == 4 || self.instruction_step == 5))
            ==> t.sp == self.sp.wrapping_sub(1)
        &&& ((self.current_op == Operation::Pha || self.current_op == Operation::Php
            || self.current_op == Operation::Phy) && self.instruction_step == 3)
            ==> t.sp == self.sp.wrapping_sub(1)
        &&& (self.current_op == Operation::Pla && self.instruction_step == 3)
            ==> t.sp == self.sp.wrapping_add(1)
        &&& (self.current_op == Operation::Pla && self.instruction_step == 4)
            ==> t.status == nz(self.status, t.a) && t.sp == self.sp
        &&& (self.current_op == Operation::Rts && self.instruction_step == 6)
            ==> t.pc == (((self.temp_addr_high as u16) << 8u16) | (self.temp_addr_low as u16)).wrapping_add(1)
    }

    /// What an interrupt-sequence micro-step does (`t` from `self`).
    pub open spec fn interrupt_effect(self, t: Self) -> bool {
        &&& t.cycles_remaining == self.cycles_remaining
        &&& (self.instruction_step == 3 || self.instruction_step == 4 || self.instruction_step == 5)
            ==> t.sp == self.sp.wrapping_sub(1)
        &&& self.instruction_step == 7 ==> t.status == (StatusFlags { interrupt_disable: true, ..self.status })
        &&& (self.instruction_step == 2 && self.current_op == Operation::Brk) ==> t.pc == self.pc.wrapping_add(1)
        &&& (self.instruction_step == 2 && self.current_op != Operation::Brk) ==> t.pc == self.pc
    }

    /// What an abs,X / abs,Y micro-step does (`t` from `self`, `ok` when no
    /// error came).
    pub open spec fn absolute_indexed_effect(self, t: Self, ok: bool) -> bool {
        &&& self.instruction_step == 2 ==> ok && t == (M6502Cpu {
            temp_addr_low: t.temp_addr_low,
            pc: self.pc.wrapping_add(1),
            ..self
            })
        &&& self.instruction_step == 3 ==> ok && t == (M6502Cpu {
            temp_addr_high: t.temp_addr_high,
            pc: self.pc.wrapping_add(1),
            effective_addr: (t.temp_addr_high * 256 + self.temp_addr_low.wrapping_add(self.index_reg())) as u16,
            ..self
            })
        &&& self.instruction_step == 4 ==> self.first_indexed_access(t, ok)
        &&& (self.instruction_step == 5 && self.current_op.rmw()) ==> ok && t == (M6502Cpu {
            temp_value: t.temp_value,
            ..self
            })
        &&& (ok && self.instruction_step == 5) ==> self.data_read_done(t)
        &&& (self.instruction_step == 6 || self.instruction_step < 2 || self.instruction_step > 7)
            ==> ok && t == self
        &&& (ok && self.instruction_step == 7) ==> self.rmw_done(t)
    }

    /// What a (zp),Y micro-step does (`t` from `self`, `ok` when no error
    /// came).
    pub open spec fn indirect_indexed_effect(self, t: Self, ok: bool) -> bool {
        &&& self.instruction_step == 2 ==> ok && t == (M6502Cpu {
            temp_addr_low: t.temp_addr_low,
            pc: self.pc.wrapping_add(1),
            ..self
            })
        &&& self.instruction_step == 3 ==> ok && t == (M6502Cpu {
            temp_value: t.temp_value,
            ..self
            })
        &&& self.instruction_step == 4 ==> ok && t == (M6502Cpu {
            temp_addr_high: t.temp_addr_high,
            effective_addr: ((t.temp_addr_high * 256 + self.temp_value + self.y) % 0x10000) as u16,
            ..self
            })
        &&& self.instruction_step == 5 ==> self.pointer_target_access(t, ok)
        &&& (ok && self.instruction_step == 6) ==> self.data_read_done(t)
        &&& (self.instruction_step == 6 && self.current_op.rmw()) ==> ok && t == (M6502Cpu {
            temp_value: t.temp_value,
            ..self
            })
        &&& (self.instruction_step == 7 || self.instruction_step < 2 || self.instruction_step > 8
            || (self.instruction_step == 8 && !self.current_op.rmw())) ==> ok && t == self
        &&& (ok && self.instruction_step == 8) ==> self.rmw_done(t)
    }

    /// What a JMP (ind) micro-step does (`t` from `self`, `ok` when no error
    /// came).
    pub open spec fn indirect_jump_effect(self, t: Self, ok: bool) -> bool {
        &&& self.instruction_step == 2 ==> ok && t == (M6502Cpu {
            temp_addr_low: t.temp_addr_low,
            pc: self.pc.wrapping_add(1),
            ..self
            })
        &&& self.instruction_step == 3 ==> ok && t == (M6502Cpu {
            temp_addr_high: t.temp_addr_high,
            pc: self.pc.wrapping_add(1),
            effective_addr: (t.temp_addr_high * 256 + self.temp_addr_low) as u16,
            ..self
            })
        &&& self.instruction_step == 4 ==> ok && t == (M6502Cpu {
            temp_value: t.temp_value,
            ..self
            })
        &&& self.instruction_step == 5 ==> self.jump_target_fetched(t, ok)
        &&& (ok && self.instruction_step == 6 && self.plain_op())
            ==> t == self.with_regs(self.after_op(self.current_op, 0))
        &&& (self.instruction_step < 2 || self.instruction_step > 6) ==> ok && t == self
    }

    /// What one micro-step (cycle 2 onwards) of the current instruction does
    /// (`t` from `self`, `ok` when no error came), by addressing mode.
    #[verifier::opaque]
    pub open spec fn micro_cycle_effect(self, t: Self, ok: bool) -> bool {
        let plain = self.current_op != Operation::Lax && self.current_op != Operation::JmpIndexedIndirect;
        let m = self.current_mode;
        &&& self.same_instruction(t)
        &&& !ok ==> self.current_op.unsupported()
        &&& ok ==> self.cycles_after_step(t)
        &&& (ok && m == AddressingMode::Implied && plain) ==> t == self.with_regs(self.after_op(self.current_op, 0))
        &&& (ok && m == AddressingMode::Accumulator && plain) ==> t == self.with_regs(self.after_op(self.current_op, self.a))
        &&& (ok && m == AddressingMode::Immediate && plain) ==> exists|v: u8| t == #[trigger] self.operand_applied(v)
        &&& (ok && self.data_cycle()) ==> self.data_read_done(t)
        &&& (ok && self.rmw_cycle()) ==> self.rmw_done(t)
        &&& m == AddressingMode::Relative ==> ok && self.branch_effect(t)
        &&& m == AddressingMode::Unique ==> ok && self.stack_effect(t)
        &&& m == AddressingMode::Interrupt ==> ok && self.interrupt_effect(t)
        &&& (m == AddressingMode::AbsoluteX || m == AddressingMode::AbsoluteY) ==> self.absolute_indexed_effect(t, ok)
        &&& m == AddressingMode::IndirectY ==> self.indirect_indexed_effect(t, ok)
        &&& m == AddressingMode::Indirect ==> self.indirect_jump_effect(t, ok)
    }

    /// The bus after the data cycle of the current operation at
    /// `effective_addr` (`t` and `b1` from `self` and `b0`, `ok` when no error
    /// came): a store writes its byte; a read-modify-write reads the byte it
    /// keeps; any other operation reads the byte it is applied to.
    pub open spec fn data_access_bus<B: AddressBus + ?Sized>(self, t: Self, b0: &B, b1: &B, ok: bool) -> bool {
        if self.current_op.store() {
            ok ==> self.op_bus_effect(self.current_op, 0, b0, b1)
        } else if self.current_op.rmw() {
            read_at(b0, b1, self.effective_addr, t.temp_value)
        } else if self.plain_op() && self.bus_write_of(self.current_op, 0) is None {
            ok ==> exists|v: u8| read_at(b0, b1, self.effective_addr, v)
                && t == self.with_regs(#[trigger] self.after_op(self.current_op, v))
        } else {
            true
        }
    }

    /// The bus after the last cycle of a read-modify-write: the result went
    /// to `effective_addr`.
    pub open spec fn rmw_write_bus<B: AddressBus + ?Sized>(self, b0: &B, b1: &B, ok: bool) -> bool {
        (self.current_op.rmw() && ok) ==> self.op_bus_effect(self.current_op, self.temp_value, b0, b1)
    }

    /// The bus access of a zero-page micro-step.
    pub open spec fn zero_page_bus<B: AddressBus + ?Sized>(self, t: Self, b0: &B, b1: &B, ok: bool) -> bool {
        if self.instruction_step == 2 {
            read_at(b0, b1, self.pc, t.temp_addr_low) && t.effective_addr == t.temp_addr_low as u16
        } else if self.instruction_step == 3 {
            self.data_access_bus(t, b0, b1, ok)
        } else if self.instruction_step == 4 {
            written_at(b0, b1, self.effective_addr, self.temp_value)
        } else if self.instruction_step == 5 {
            self.rmw_write_bus(b0, b1, ok)
        } else {
            memory_kept(b0, b1)
        }
    }

    /// The bus access of an absolute-mode micro-step.
    pub open spec fn absolute_bus<B: AddressBus + ?Sized>(self, t: Self, b0: &B, b1: &B, ok: bool) -> bool {
        if self.instruction_step == 2 {
            read_at(b0, b1, self.pc, t.temp_addr_low)
        } else if self.instruction_step == 3 {
            read_at(b0, b1, self.pc, t.temp_addr_high)
                && t.effective_addr == (t.temp_addr_high * 256 + self.temp_addr_low) as u16
        } else if self.instruction_step == 4 {
            self.data_access_bus(t, b0, b1, ok)
        } else if self.instruction_step == 5 {
            self.rmw_write_bus(b0, b1, ok)
        } else {
            memory_kept(b0, b1)
        }
    }

    /// The bus access of a branch micro-step: the offset fetch (a taken
    /// branch targets the address after it plus the signed offset), then
    /// dummy reads.
    pub open spec fn branch_bus<B: AddressBus + ?Sized>(self, t: Self, b0: &B, b1: &B) -> bool {
        if self.instruction_step == 2 {
            exists|v: u8| #[trigger] read_at(b0, b1, self.pc, v)
                && (branch_taken(self.current_op, self.status)
                    ==> t.effective_addr == t.pc.wrapping_add(v as i8 as i16 as u16))
        } else if self.instruction_step == 3 {
            dummy_read_at(b0, b1, self.pc)
        } else if self.instruction_step == 4 {
            dummy_read_at(b0, b1, self.effective_addr)
        } else {
            memory_kept(b0, b1)
        }
    }

    /// The bus access of a stack-instruction micro-step, and what it loads.
    pub open spec fn stack_bus<B: AddressBus + ?Sized>(self, t: Self, b0: &B, b1: &B) -> bool {
        let sa = (0x100 + self.sp) as u16;
        let next = (0x100 + self.sp.wrapping_add(1)) as u16;
        let op = self.current_op;
        let pushes_or_pulls = op == Operation::Pha || op == Operation::Php || op == Operation::Phy
            || op == Operation::Pla || op == Operation::Plp || op == Operation::Rti || op == Operation::Rts;
        match (op, self.instruction_step) {
            (Operation::Jsr, 2) => read_at(b0, b1, self.pc, t.temp_addr_low) && t.effective_addr == self.pc.wrapping_add(1),
            (Operation::Jsr, 3) => dummy_read_at(b0, b1, sa),
            (Operation::Jsr, 4) => written_at(b0, b1, sa, (self.effective_addr >> 8u16) as u8),
            (Operation::Jsr, 5) => written_at(b0, b1, sa, (self.effective_addr & 0xFF) as u8),
            (Operation::Jsr, 6) => read_at(b0, b1, self.pc, t.temp_addr_high)
                && t.pc == (t.temp_addr_high * 256 + self.temp_addr_low) as u16,
            (Operation::Pha, 3) => written_at(b0, b1, sa, self.a),
            (Operation::Php, 3) => written_at(b0, b1, sa, status_byte(self.status, true)),
            (Operation::Phy, 3) => written_at(b0, b1, sa, self.y),
            (Operation::Pla, 3) | (Operation::Rti, 3) | (Operation::Rts, 3) => dummy_read_at(b0, b1, sa),
            (Operation::Pla, 4) => read_at(b0, b1, sa, t.a),
            (Operation::Plp, 3) => dummy_read_at(b0, b1, next),
            (Operation::Plp, 4) | (Operation::Rti, 4) => exists|v: u8| #[trigger] read_at(b0, b1, sa, v)
                && t.status == status_from_byte(v),
            (Operation::Rti, 5) => read_at(b0, b1, sa, t.temp_addr_low),
            (Operation::Rti, 6) => read_at(b0, b1, sa, t.temp_addr_high)
                && t.pc == (t.temp_addr_high * 256 + self.temp_addr_low) as u16,
            (Operation::Rts, 4) => read_at(b0, b1, next, t.temp_addr_low),
            (Operation::Rts, 5) => read_at(b0, b1, next, t.temp_addr_high),
            (Operation::Rts, 6) => dummy_read_at(b0, b1, self.pc),
            (_, 2) => if pushes_or_pulls { dummy_read_at(b0, b1, self.pc) } else { memory_kept(b0, b1) },
            _ => memory_kept(b0, b1),
        }
    }

    /// The bus access of an interrupt-sequence micro-step: PC and the status
    /// byte pushed, then PC loaded from the vector.
    pub open spec fn interrupt_bus<B: AddressBus + ?Sized>(self, t: Self, b0: &B, b1: &B) -> bool {
        let sa = (0x100 + self.sp) as u16;
        let vector: u16 = if self.current_op == Operation::Nmi { 0xFFFA } else { 0xFFFE };
        if self.instruction_step == 2 {
            dummy_read_at(b0, b1, self.pc)
        } else if self.instruction_step == 3 {
            written_at(b0, b1, sa, (self.pc >> 8u16) as u8)
        } else if self.instruction_step == 4 {
            written_at(b0, b1, sa, (self.pc & 0x00FF) as u8)
        } else if self.instruction_step == 5 {
            written_at(b0, b1, sa, status_byte(self.status, self.current_op == Operation::Brk))
        } else if self.instruction_step == 6 {
            read_at(b0, b1, vector, t.temp_addr_low)
        } else if self.instruction_step == 7 {
            read_at(b0, b1, (vector + 1) as u16, (t.pc / 256) as u8) && t.pc % 256 == self.temp_addr_low
        } else {
            memory_kept(b0, b1)
        }
    }

    /// The bus access of a (zp),Y micro-step.
    pub open spec fn indirect_indexed_bus<B: AddressBus + ?Sized>(self, t: Self, b0: &B, b1: &B, ok: bool) -> bool {
        let uncorrected = (self.temp_addr_high * 256 + self.effective_addr % 256) as u16;
        let step = self.instruction_step;
        if step == 2 {
            read_at(b0, b1, self.pc, t.temp_addr_low)
        } else if step == 3 {
            read_at(b0, b1, self.temp_addr_low as u16, t.temp_value)
        } else if step == 4 {
            read_at(b0, b1, self.temp_addr_low.wrapping_add(1) as u16, t.temp_addr_high)
        } else if step == 5 {
            if self.current_op.store() || self.current_op.rmw() || self.effective_addr / 256 != self.temp_addr_high {
                dummy_read_at(b0, b1, uncorrected)
            } else {
                self.data_access_bus(t, b0, b1, ok)
            }
        } else if step == 6 {
            self.data_access_bus(t, b0, b1, ok)
        } else if step == 7 {
            self.current_op.rmw() ==> written_at(b0, b1, self.effective_addr, self.temp_value)
        } else if step == 8 {
            self.rmw_write_bus(b0, b1, ok)
        } else {
            memory_kept(b0, b1)
        }
    }

    /// The bus access of a zp,X / zp,Y micro-step.
    pub open spec fn zero_page_indexed_bus<B: AddressBus + ?Sized>(self, t: Self, b0: &B, b1: &B, ok: bool) -> bool {
        let step = self.instruction_step;
        if step == 2 {
            read_at(b0, b1, self.pc, t.temp_addr_low)
        } else if step == 4 {
            self.data_access_bus(t, b0, b1, ok)
        } else if step == 5 {
            self.current_op.rmw() ==> written_at(b0, b1, self.effective_addr, self.temp_value)
        } else if step == 6 {
            self.rmw_write_bus(b0, b1, ok)
        } else {
            memory_kept(b0, b1)
        }
    }

    /// The bus access of a (zp,X) micro-step.
    pub open spec fn indexed_indirect_bus<B: AddressBus + ?Sized>(self, t: Self, b0: &B, b1: &B, ok: bool) -> bool {
        let step = self.instruction_step;
        if step == 2 {
            read_at(b0, b1, self.pc, t.temp_addr_low)
        } else if step == 3 {
            dummy_read_at(b0, b1, self.temp_addr_low as u16)
        } else if step == 4 {
            read_at(b0, b1, self.effective_addr, t.temp_value)
        } else if step == 5 {
            read_at(b0, b1, (self.effective_addr as u8).wrapping_add(1) as u16, t.temp_addr_high)
        } else if step == 6 {
            self.data_access_bus(t, b0, b1, ok)
        } else if step == 7 {
            self.current_op.rmw() ==> written_at(b0, b1, self.effective_addr, self.temp_value)
        } else if step == 8 {
            self.rmw_write_bus(b0, b1, ok)
        } else {
            memory_kept(b0, b1)
        }
    }

    /// The bus access of an abs,X / abs,Y micro-step: the first access goes
    /// to the address without the carry (a read there that needs no carry is
    /// the operand).
    pub open spec fn absolute_indexed_bus<B: AddressBus + ?Sized>(self, t: Self, b0: &B, b1: &B, ok: bool) -> bool {
        let step = self.instruction_step;
        if step == 2 {
            read_at(b0, b1, self.pc, t.temp_addr_low)
        } else if step == 3 {
            read_at(b0, b1, self.pc, t.temp_addr_high)
        } else if step == 4 {
            if self.current_op.store() || self.current_op.rmw() || self.index_crosses_page() {
                dummy_read_at(b0, b1, self.effective_addr)
            } else if self.plain_op() && self.bus_write_of(self.current_op, 0) is None {
                ok ==> exists|v: u8| read_at(b0, b1, self.effective_addr, v) && t == (M6502Cpu {
                    cycles_remaining: 1,
                    ..self.with_regs(#[trigger] self.after_op(self.current_op, v))
                })
            } else {
                true
            }
        } else if step == 5 {
            self.data_access_bus(t, b0, b1, ok)
        } else if step == 6 {
            written_at(b0, b1, self.effective_addr, self.temp_value)
        } else if step == 7 {
            self.rmw_write_bus(b0, b1, ok)
        } else {
            memory_kept(b0, b1)
        }
    }

    /// The bus access of a JMP (ind) micro-step: the pointer, the target's
    /// low byte, then its high byte (without the carry into the pointer's
    /// page on the NMOS parts).
    pub open spec fn indirect_jump_bus<B: AddressBus + ?Sized>(self, t: Self, b0: &B, b1: &B) -> bool {
        let step = self.instruction_step;
        let high_ptr = if self.config.has_jmp_bug && (self.effective_addr & 0x00FF) == 0x00FF {
            self.effective_addr & 0xFF00
        } else {
            self.effective_addr.wrapping_add(1)
        };
        if step == 2 {
            read_at(b0, b1, self.pc, t.temp_addr_low)
        } else if step == 3 {
            read_at(b0, b1, self.pc, t.temp_addr_high)
        } else if step == 4 {
            read_at(b0, b1, self.effective_addr, t.temp_value)
        } else if step == 5 {
            (!self.config.has_jmp_bug || (self.plain_op() && self.bus_write_of(self.current_op, 0) is None))
                ==> read_at(b0, b1, high_ptr, (t.effective_addr / 256) as u8)
        } else if step == 6 {
            (self.plain_op() && self.bus_write_of(self.current_op, 0) is None) ==> dummy_read_at(b0, b1, self.effective_addr)
        } else {
            memory_kept(b0, b1)
        }
    }

    /// The bus access of one micro-step (cycle 2 onwards) of the current
    /// instruction (`t` and `b1` from `self` and `b0`, `ok` when no error
    /// came).
    #[verifier::opaque]
    pub open spec fn micro_cycle_bus<B: AddressBus + ?Sized>(self, t: Self, b0: &B, b1: &B, ok: bool) -> bool {
        let m = self.current_mode;
        let plain = self.current_op != Operation::Lax && self.current_op != Operation::JmpIndexedIndirect;
        &&& (m == AddressingMode::Implied && ok) ==> self.op_bus_effect(self.current_op, 0, b0, b1)
        &&& (m == AddressingMode::Accumulator && ok) ==> self.op_bus_effect(self.current_op, self.a, b0, b1)
        &&& (m == AddressingMode::Immediate && ok && plain && self.bus_write_of(self.current_op, 0) is None)
            ==> exists|v: u8| read_at(b0, b1, self.pc, v)
            && t == #[trigger] self.operand_applied(v)
        &&& m == AddressingMode::ZeroPage ==> self.zero_page_bus(t, b0, b1, ok)
        &&& m == AddressingMode::Absolute ==> self.absolute_bus(t, b0, b1, ok)
        &&& m == AddressingMode::Relative ==> self.branch_bus(t, b0, b1)
        &&& m == AddressingMode::Unique ==> self.stack_bus(t, b0, b1)
        &&& m == AddressingMode::Interrupt ==> self.interrupt_bus(t, b0, b1)
        &&& m == AddressingMode::IndirectY ==> self.indirect_indexed_bus(t, b0, b1, ok)
        &&& (m == AddressingMode::ZeroPageX || m == AddressingMode::ZeroPageY) ==> self.zero_page_indexed_bus(t, b0, b1, ok)
        &&& m == AddressingMode::IndirectX ==> self.indexed_indirect_bus(t, b0, b1, ok)
        &&& (m == AddressingMode::AbsoluteX || m == AddressingMode::AbsoluteY) ==> self.absolute_indexed_bus(t, b0, b1, ok)
        &&& m == AddressingMode::Indirect ==> self.indirect_jump_bus(t, b0, b1)
    }

    /// `other` is still inside the same instruction as `self`, at the same step.
    pub open spec fn same_instruction(self, other: Self) -> bool {
        &&& other.config == self.config
        &&& other.current_op == self.current_op
        &&& other.current_mode == self.current_mode
        &&& other.instruction_step == self.instruction_step
        &&& other.total_cycles == self.total_cycles
    }

    /// The cycle count after a micro-step: never below one, and grown only by
    /// what the current step may add.
    pub open spec fn cycles_after_step(self, other: Self) -> bool {
        &&& 1 <= other.cycles_remaining
        &&& other.cycles_remaining <= self.cycles_remaining + extra_cycles(self.current_mode, self.instruction_step)
            - extra_cycles(self.current_mode, (self.instruction_step + 1) as u32)
    }

    /// One micro-step (cycle 2 onwards) of the current instruction, chosen by
    /// its addressing mode and step number.
    #[verifier::spinoff_prover]
    #[verifier::rlimit(100)]
    fn execute_micro_cycle<B: AddressBus + ?Sized>(&mut self, bus: &mut B) -> (r: Result<(), CpuError>)
        requires
            old(self).instruction_step < 0xFFFF_FF00,
            1 <= old(self).cycles_remaining <= 0xFFFF_FF00,
        ensures
            old(self).same_instruction(*final(self)),
            r is Err ==> old(self).current_op.unsupported(),
            r is Ok ==> old(self).cycles_after_step(*final(self)),
            (r is Ok && old(self).current_mode == AddressingMode::Implied && old(self).current_op != Operation::Lax
                && old(self).current_op != Operation::JmpIndexedIndirect)
                ==> *final(self) == old(self).with_regs(old(self).after_op(old(self).current_op, 0)),
            (r is Ok && old(self).current_mode == AddressingMode::Accumulator && old(self).current_op != Operation::Lax
                && old(self).current_op != Operation::JmpIndexedIndirect)
                ==> *final(self) == old(self).with_regs(old(self).after_op(old(self).current_op, old(self).a)),
            (r is Ok && old(self).current_mode == AddressingMode::Immediate && old(self).current_op != Operation::Lax
                && old(self).current_op != Operation::JmpIndexedIndirect)
                ==> exists|v: u8| *final(self) == #[trigger] old(self).operand_applied(v),
            (r is Ok && old(self).data_cycle()) ==> old(self).data_read_done(*final(self)),
            (r is Ok && old(self).rmw_cycle()) ==> old(self).rmw_done(*final(self)),
            old(self).micro_cycle_effect(*final(self), r is Ok),
            old(self).micro_cycle_bus(*final(self), old(bus), final(bus), r is Ok),
            forall|b: &B| memory_kept(b, old(bus))
                ==> #[trigger] old(self).micro_cycle_bus(*final(self), b, final(bus), r is Ok),
    {
        proof {
            reveal(M6502Cpu::micro_cycle_effect);
            reveal(M6502Cpu::micro_cycle_bus);
        }
        let op = self.current_op;
        let r = match self.current_mode {
            AddressingMode::Implied => self.execute_operation(op, 0, bus),
            AddressingMode::Accumulator => {
                let a = self.a;
                self.execute_operation(op, a, bus)
            },
            AddressingMode::Immediate => {
                let value = bus.read_byte(self.pc);
                self.pc = self.pc.wrapping_add(1);
                let r = self.execute_operation(op, value, bus);
                assert(r is Ok ==> *self == old(self).operand_applied(value) || op == Operation::Lax
                    || op == Operation::JmpIndexedIndirect);
                assert((r is Ok && op != Operation::Lax && op != Operation::JmpIndexedIndirect
                    && old(self).bus_write_of(op, 0) is None) ==> read_at(old(bus), bus, old(self).pc, value)
                    && *self == old(self).operand_applied(value));
                r
            },
            AddressingMode::ZeroPage => self.zero_page_step(bus),
            AddressingMode::ZeroPageX | AddressingMode::ZeroPageY => self.zero_page_indexed_step(bus),
            AddressingMode::Relative => {
                self.branch_step(bus);
                Ok(())
            },
            AddressingMode::Absolute => self.absolute_step(bus),
            AddressingMode::AbsoluteX | AddressingMode::AbsoluteY => self.absolute_indexed_step(bus),
            AddressingMode::Indirect => self.indirect_jump_step(bus),
            AddressingMode::IndirectX => self.indexed_indirect_step(bus),
            AddressingMode::IndirectY => self.indirect_indexed_step(bus),
            AddressingMode::Unique => {
                self.execute_stack_step(bus);
                Ok(())
            },
            AddressingMode::Interrupt => {
                self.execute_interrupt_step(bus);
                Ok(())
            },
        };
        proof {
            assert(old(self).micro_cycle_bus(*self, old(bus), bus, r is Ok));
            assert forall|b: &B| memory_kept(b, old(bus))
                implies #[trigger] old(self).micro_cycle_bus(*self, b, bus, r is Ok) by {
                lemma_micro_bus_from(*old(self), *self, b, old(bus), bus, r is Ok);
            }
        }
        r
    }

    /// zp: fetch the address, then read (or store), then for read-modify-write
    /// a write-back of the old value and the final write.
    fn zero_page_step<B: AddressBus + ?Sized>(&mut self, bus: &mut B) -> (r: Result<(), CpuError>)
        requires
            old(self).instruction_step < 0xFFFF_FF00,
            old(self).current_mode == AddressingMode::ZeroPage,
            1 <= old(self).cycles_remaining,
        ensures
            old(self).same_instruction(*final(self)),
            r is Err ==> old(self).current_op.unsupported(),
            r is Ok ==> final(self).cycles_remaining == old(self).cycles_remaining,
            old(self).instruction_step == 2 ==> final(self).pc == old(self).pc.wrapping_add(1)
                && final(self).effective_addr < 0x100,
            (r is Ok && old(self).instruction_step == 3) ==> old(self).data_read_done(*final(self)),
            (r is Ok && old(self).instruction_step == 5) ==> old(self).rmw_done(*final(self)),
            old(self).zero_page_bus(*final(self), old(bus), final(bus), r is Ok),
    {
        let op = self.current_op;
        let step = self.instruction_step;
        if step == 2 {
            self.temp_addr_low = bus.read_byte(self.pc);
            self.pc = self.pc.wrapping_add(1);
            self.effective_addr = self.temp_addr_low as u16;
        } else if step == 3 {
            if op.is_write() {
                return self.execute_operation(op, 0, bus);
            } else {
                let value = bus.read_byte(self.effective_addr);
                if op.is_rmw() {
                    self.temp_value = value;
                } else {
                    return self.execute_operation(op, value, bus);
                }
            }
        } else if step == 4 {
            bus.write_byte(self.effective_addr, self.temp_value);
        } else if step == 5 {
            let v = self.temp_value;
            return self.execute_operation(op, v, bus);
        }
        Ok(())
    }

    /// zp,X and zp,Y: the index is added in a cycle of its own and the sum
    /// wraps within page zero.
    fn zero_page_indexed_step<B: AddressBus + ?Sized>(&mut self, bus: &mut B) -> (r: Result<(), CpuError>)
        requires
            old(self).instruction_step < 0xFFFF_FF00,
            old(self).current_mode == AddressingMode::ZeroPageX || old(self).current_mode == AddressingMode::ZeroPageY,
            1 <= old(self).cycles_remaining,
        ensures
            old(self).same_instruction(*final(self)),
            r is Err ==> old(self).current_op.unsupported(),
            r is Ok ==> final(self).cycles_remaining == old(self).cycles_remaining,
            (old(self).instruction_step == 3 && old(self).current_mode == AddressingMode::ZeroPageX)
                ==> final(self).effective_addr == old(self).temp_addr_low.wrapping_add(old(self).x) as u16,
            (old(self).instruction_step == 3 && old(self).current_mode == AddressingMode::ZeroPageY)
                ==> final(self).effective_addr == old(self).temp_addr_low.wrapping_add(old(self).y) as u16,
            (r is Ok && old(self).instruction_step == 4) ==> old(self).data_read_done(*final(self)),
            (r is Ok && old(self).instruction_step == 6) ==> old(self).rmw_done(*final(self)),
            old(self).zero_page_indexed_bus(*final(self), old(bus), final(bus), r is Ok),
    {
        let op = self.current_op;
        let step = self.instruction_step;
        if step == 2 {
            self.temp_addr_low = bus.read_byte(self.pc);
            self.pc = self.pc.wrapping_add(1);
        } else if step == 3 {
            if self.current_mode == AddressingMode::ZeroPageX {
                self.effective_addr = self.temp_addr_low.wrapping_add(self.x) as u16;
            } else {
                self.effective_addr = self.temp_addr_low.wrapping_add(self.y) as u16;
            }
        } else if step == 4 {
            if op.is_write() {
                return self.execute_operation(op, 0, bus);
            } else {
                let value = bus.read_byte(self.effective_addr);
                if op.is_rmw() {
                    self.temp_value = value;
                } else {
                    return self.execute_operation(op, value, bus);
                }
            }
        } else if step == 5 {
            if op.is_rmw() {
                bus.write_byte(self.effective_addr, self.temp_value);
            }
        } else if step == 6 {
            if op.is_rmw() {
                let v = self.temp_value;
                return self.execute_operation(op, v, bus);
            }
        }
        Ok(())
    }

    /// Branches: the offset fetch decides; a taken branch costs one more
    /// cycle, two when the target lies in another page.
    fn branch_step<B: AddressBus + ?Sized>(&mut self, bus: &mut B)
        requires
            old(self).instruction_step < 0xFFFF_FF00,
            old(self).current_mode == AddressingMode::Relative,
            1 <= old(self).cycles_remaining <= 0xFFFF_FF00,
        ensures
            old(self).same_instruction(*final(self)),
            old(self).cycles_after_step(*final(self)),
            old(self).instruction_step != 2 ==> final(self).cycles_remaining == old(self).cycles_remaining,
            (old(self).instruction_step == 2 && !branch_taken(old(self).current_op, old(self).status))
                ==> final(self).cycles_remaining == old(self).cycles_remaining
                && final(self).pc == old(self).pc.wrapping_add(1),
            (old(self).instruction_step == 2 && branch_taken(old(self).current_op, old(self).status))
                ==> final(self).pc == old(self).pc.wrapping_add(1)
                && final(self).cycles_remaining == old(self).cycles_remaining
                    + (if (final(self).pc >> 8u16) != (final(self).effective_addr >> 8u16) { 2int } else { 1int }),
            (old(self).instruction_step == 3 || old(self).instruction_step == 4)
                ==> final(self).pc == old(self).effective_addr,
            old(self).branch_bus(*final(self), old(bus), final(bus)),
    {
        let condition_met = match self.current_op {
            Operation::Bcc => !self.status.carry,
            Operation::Bcs => self.status.carry,
            Operation::Bne => !self.status.zero,
            Operation::Beq => self.status.zero,
            Operation::Bpl => !self.status.negative,
            Operation::Bmi => self.status.negative,
            Operation::Bvc => !self.status.overflow,
            Operation::Bvs => self.status.overflow,
            _ => false,
        };
        let step = self.instruction_step;
        if step == 2 {
            let raw = bus.read_byte(self.pc);
            let offset = raw as i8;
            self.pc = self.pc.wrapping_add(1);
            if condition_met {
                let base_pc = self.pc;
                self.effective_addr = base_pc.wrapping_add(offset as i16 as u16);
                let page_crossed = (base_pc >> 8) != (self.effective_addr >> 8);
                if page_crossed {
                    self.cycles_remaining = self.cycles_remaining + 2;
                } else {
                    self.cycles_remaining = self.cycles_remaining + 1;
                }
            }
            assert(read_at(old(bus), bus, old(self).pc, raw)
                && (branch_taken(old(self).current_op, old(self).status)
                    ==> self.effective_addr == self.pc.wrapping_add(raw as i8 as i16 as u16)));
        } else if step == 3 {
            let _dummy = bus.read_byte(self.pc);
            self.pc = self.effective_addr;
        } else if step == 4 {
            let _dummy = bus.read_byte(self.effective_addr);
            self.pc = self.effective_addr;
        }
    }

    /// abs: two operand bytes, then the access; JMP finishes as soon as its
    /// address is complete.
    fn absolute_step<B: AddressBus + ?Sized>(&mut self, bus: &mut B) -> (r: Result<(), CpuError>)
        requires
            old(self).instruction_step < 0xFFFF_FF00,
            old(self).current_mode == AddressingMode::Absolute,
            1 <= old(self).cycles_remaining,
        ensures
            old(self).same_instruction(*final(self)),
            r is Err ==> old(self).current_op.unsupported(),
            r is Ok ==> final(self).cycles_remaining == old(self).cycles_remaining,
            (old(self).instruction_step == 3 && old(self).current_op == Operation::Jmp)
                ==> final(self).pc == final(self).effective_addr,
            (r is Ok && old(self).instruction_step == 4) ==> old(self).data_read_done(*final(self)),
            (r is Ok && old(self).instruction_step == 5) ==> old(self).rmw_done(*final(self)),
            old(self).absolute_bus(*final(self), old(bus), final(bus), r is Ok),
    {
        let op = self.current_op;
        let step = self.instruction_step;
        if step == 2 {
            self.temp_addr_low = bus.read_byte(self.pc);
            self.pc = self.pc.wrapping_add(1);
        } else if step == 3 {
            self.temp_addr_high = bus.read_byte(self.pc);
            self.pc = self.pc.wrapping_add(1);
            proof {
                crate::bits::lemma_pair(self.temp_addr_high, self.temp_addr_low);
            }
            self.effective_addr = ((self.temp_addr_high as u16) << 8) | (self.temp_addr_low as u16);
            if op == Operation::Jmp {
                proof {
                    lemma_after_jmp(*self);
                }
                return self.execute_operation(op, 0, bus);
            }
        } else if step == 4 {
            if op.is_write() {
                return self.execute_operation(op, 0, bus);
            } else {
                let value = bus.read_byte(self.effective_addr);
                if op.is_rmw() {
                    self.temp_value = value;
                    bus.write_byte(self.effective_addr, self.temp_value);
                    assert(read_at(old(bus), bus, self.effective_addr, self.temp_value));
                } else {
                    return self.execute_operation(op, value, bus);
                }
            }
        } else if step == 5 {
            if op.is_rmw() {
                let v = self.temp_value;
                return self.execute_operation(op, v, bus);
            }
        }
        Ok(())
    }

    /// abs,X and abs,Y: the first read goes to the address without the carry
    /// into the high byte; a read that did not cross a page finishes there.
    fn absolute_indexed_step<B: AddressBus + ?Sized>(&mut self, bus: &mut B) -> (r: Result<(), CpuError>)
        requires
            old(self).instruction_step < 0xFFFF_FF00,
            old(self).current_mode == AddressingMode::AbsoluteX || old(self).current_mode == AddressingMode::AbsoluteY,
            1 <= old(self).cycles_remaining <= 0xFFFF_FF00,
        ensures
            old(self).same_instruction(*final(self)),
            r is Err ==> old(self).current_op.unsupported(),
            r is Ok ==> old(self).cycles_after_step(*final(self)),
            old(self).instruction_step != 4 ==> final(self).cycles_remaining == old(self).cycles_remaining,
            old(self).instruction_step == 2 ==> r is Ok && *final(self) == (M6502Cpu {
                temp_addr_low: final(self).temp_addr_low,
                pc: old(self).pc.wrapping_add(1),
                ..*old(self)
            }),
            old(self).instruction_step == 3 ==> r is Ok && *final(self) == (M6502Cpu {
                temp_addr_high: final(self).temp_addr_high,
                pc: old(self).pc.wrapping_add(1),
                effective_addr: (final(self).temp_addr_high * 256 + old(self).temp_addr_low.wrapping_add(old(self).index_reg())) as u16,
                ..*old(self)
            }),
            old(self).instruction_step == 4 ==> old(self).first_indexed_access(*final(self), r is Ok),
            (old(self).instruction_step == 5 && old(self).current_op.rmw()) ==> r is Ok && *final(self) == (M6502Cpu {
                temp_value: final(self).temp_value,
                ..*old(self)
            }),
            (r is Ok && old(self).instruction_step == 5) ==> old(self).data_read_done(*final(self)),
            (old(self).instruction_step == 6 || old(self).instruction_step < 2 || old(self).instruction_step > 7)
                ==> r is Ok && *final(self) == *old(self),
            (r is Ok && old(self).instruction_step == 7) ==> old(self).rmw_done(*final(self)),
            old(self).absolute_indexed_bus(*final(self), old(bus), final(bus), r is Ok),
    {
        let step = self.instruction_step;
        if step == 2 || step == 3 {
            self.absolute_indexed_address(bus);
            Ok(())
        } else if step == 4 {
            self.absolute_indexed_first_access(bus)
        } else {
            self.absolute_indexed_finish(bus)
        }
    }

    /// abs,X and abs,Y, cycles 2 and 3: the two address bytes, the index
    /// added to the low one without carry.
    fn absolute_indexed_address<B: AddressBus + ?Sized>(&mut self, bus: &mut B)
        requires
            old(self).instruction_step == 2 || old(self).instruction_step == 3,
        ensures
            old(self).instruction_step == 2 ==> *final(self) == (M6502Cpu {
                temp_addr_low: final(self).temp_addr_low,
                pc: old(self).pc.wrapping_add(1),
                ..*old(self)
            }),
            old(self).instruction_step == 3 ==> *final(self) == (M6502Cpu {
                temp_addr_high: final(self).temp_addr_high,
                pc: old(self).pc.wrapping_add(1),
                effective_addr: (final(self).temp_addr_high * 256 + old(self).temp_addr_low.wrapping_add(old(self).index_reg())) as u16,
                ..*old(self)
            }),
            old(self).absolute_indexed_bus(*final(self), old(bus), final(bus), true),
    {
        if self.instruction_step == 2 {
            self.temp_addr_low = bus.read_byte(self.pc);
            self.pc = self.pc.wrapping_add(1);
        } else {
            let index = if self.current_mode == AddressingMode::AbsoluteX { self.x } else { self.y };
            self.temp_addr_high = bus.read_byte(self.pc);
            self.pc = self.pc.wrapping_add(1);
            let sum_low = self.temp_addr_low.wrapping_add(index);
            proof {
                crate::bits::lemma_pair(self.temp_addr_high, sum_low);
            }
            self.effective_addr = ((self.temp_addr_high as u16) << 8) | (sum_low as u16);
        }
    }

    /// The CPU after the first data cycle of abs,X / abs,Y (`t` from `self`,
    /// `ok` when no error came): the carry, if any, reaches the high address
    /// byte; a read that crossed a page pays a cycle more, one that did not
    /// has its operation applied to some byte read and ends.
    pub open spec fn first_indexed_access(self, t: Self, ok: bool) -> bool {
        if self.current_op.store() || self.current_op.rmw() {
            ok && t == self.index_carried()
        } else if self.index_crosses_page() {
            ok && t == (M6502Cpu { cycles_remaining: (self.cycles_remaining + 1) as u32, ..self.index_carried() })
        } else {
            ok && self.plain_op() ==> exists|v: u8| t == (M6502Cpu {
                cycles_remaining: 1,
                ..self.with_regs(#[trigger] self.after_op(self.current_op, v))
            })
        }
    }

    /// abs,X and abs,Y, cycle 4: the read at the address without the carry.
    fn absolute_indexed_first_access<B: AddressBus + ?Sized>(&mut self, bus: &mut B) -> (r: Result<(), CpuError>)
        requires
            old(self).instruction_step == 4,
            old(self).current_mode == AddressingMode::AbsoluteX || old(self).current_mode == AddressingMode::AbsoluteY,
            1 <= old(self).cycles_remaining <= 0xFFFF_FF00,
        ensures
            old(self).same_instruction(*final(self)),
            r is Err ==> old(self).current_op.unsupported(),
            r is Ok ==> old(self).cycles_after_step(*final(self)),
            old(self).first_indexed_access(*final(self), r is Ok),
            old(self).absolute_indexed_bus(*final(self), old(bus), final(bus), r is Ok),
    {
        let op = self.current_op;
        let index = if self.current_mode == AddressingMode::AbsoluteX { self.x } else { self.y };
        let page_crossed = (self.temp_addr_low as u16 + index as u16) > 0xFF;
        let value_read = bus.read_byte(self.effective_addr);
        if page_crossed {
            self.effective_addr = self.effective_addr.wrapping_add(0x0100);
        }
        if !(op.is_write() || op.is_rmw()) {
            if !page_crossed {
                let res = self.execute_operation(op, value_read, bus);
                if res.is_err() {
                    return res;
                }
                self.cycles_remaining = 1;
                assert(old(self).plain_op() ==> *self == (M6502Cpu {
                    cycles_remaining: 1,
                    ..old(self).with_regs(old(self).after_op(op, value_read))
                }));
                assert((old(self).plain_op() && old(self).bus_write_of(op, 0) is None)
                    ==> read_at(old(bus), bus, old(self).effective_addr, value_read));
            } else {
                self.cycles_remaining = self.cycles_remaining + 1;
            }
        }
        Ok(())
    }

    /// abs,X and abs,Y, cycles 5 to 7: the access at the carried address,
    /// and for read-modify-write the write-back and the operation.
    fn absolute_indexed_finish<B: AddressBus + ?Sized>(&mut self, bus: &mut B) -> (r: Result<(), CpuError>)
        requires
            old(self).instruction_step != 2 && old(self).instruction_step != 3 && old(self).instruction_step != 4,
        ensures
            old(self).same_instruction(*final(self)),
            final(self).cycles_remaining == old(self).cycles_remaining,
            r is Err ==> old(self).current_op.unsupported(),
            (old(self).instruction_step == 5 && old(self).current_op.rmw()) ==> r is Ok && *final(self) == (M6502Cpu {
                temp_value: final(self).temp_value,
                ..*old(self)
            }),
            (r is Ok && old(self).instruction_step == 5) ==> old(self).data_read_done(*final(self)),
            (old(self).instruction_step == 6 || old(self).instruction_step < 2 || old(self).instruction_step > 7)
                ==> r is Ok && *final(self) == *old(self),
            (r is Ok && old(self).instruction_step == 7) ==> old(self).rmw_done(*final(self)),
            old(self).absolute_indexed_bus(*final(self), old(bus), final(bus), r is Ok),
    {
        let op = self.current_op;
        let step = self.instruction_step;
        if step == 5 {
            if op.is_rmw() {
                self.temp_value = bus.read_byte(self.effective_addr);
            } else if op.is_write() {
                return self.execute_operation(op, 0, bus);
            } else {
                let value = bus.read_byte(self.effective_addr);
                return self.execute_operation(op, value, bus);
            }
        } else if step == 6 {
            bus.write_byte(self.effective_addr, self.temp_value);
        } else if step == 7 {
            let v = self.temp_value;
            return self.execute_operation(op, v, bus);
        }
        Ok(())
    }

    /// JMP (ind): the NMOS parts fetch the high byte of the target without
    /// carrying into the pointer's page and finish a cycle early.
    fn indirect_jump_step<B: AddressBus + ?Sized>(&mut self, bus: &mut B) -> (r: Result<(), CpuError>)
        requires
            old(self).instruction_step < 0xFFFF_FF00,
            old(self).current_mode == AddressingMode::Indirect,
            1 <= old(self).cycles_remaining,
        ensures
            old(self).same_instruction(*final(self)),
            r is Err ==> old(self).current_op.unsupported(),
            r is Ok ==> final(self).cycles_remaining == old(self).cycles_remaining,
            old(self).instruction_step == 2 ==> r is Ok && *final(self) == (M6502Cpu {
                temp_addr_low: final(self).temp_addr_low,
                pc: old(self).pc.wrapping_add(1),
                ..*old(self)
            }),
            old(self).instruction_step == 3 ==> r is Ok && *final(self) == (M6502Cpu {
                temp_addr_high: final(self).temp_addr_high,
                pc: old(self).pc.wrapping_add(1),
                effective_addr: (final(self).temp_addr_high * 256 + old(self).temp_addr_low) as u16,
                ..*old(self)
            }),
            old(self).instruction_step == 4 ==> r is Ok && *final(self) == (M6502Cpu {
                temp_value: final(self).temp_value,
                ..*old(self)
            }),
            old(self).instruction_step == 5 ==> old(self).jump_target_fetched(*final(self), r is Ok),
            (r is Ok && old(self).instruction_step == 6 && old(self).plain_op())
                ==> *final(self) == old(self).with_regs(old(self).after_op(old(self).current_op, 0)),
            (old(self).instruction_step < 2 || old(self).instruction_step > 6) ==> r is Ok && *final(self) == *old(self),
            old(self).indirect_jump_bus(*final(self), old(bus), final(bus)),
    {
        let step = self.instruction_step;
        if step == 2 || step == 3 || step == 4 {
            self.indirect_jump_pointer(bus);
            Ok(())
        } else {
            self.indirect_jump_target(bus)
        }
    }

    /// JMP (ind), cycles 2 to 4: the pointer's two bytes, then the target's
    /// low byte.
    fn indirect_jump_pointer<B: AddressBus + ?Sized>(&mut self, bus: &mut B)
        requires
            2 <= old(self).instruction_step <= 4,
        ensures
            old(self).instruction_step == 2 ==> *final(self) == (M6502Cpu {
                temp_addr_low: final(self).temp_addr_low,
                pc: old(self).pc.wrapping_add(1),
                ..*old(self)
            }),
            old(self).instruction_step == 3 ==> *final(self) == (M6502Cpu {
                temp_addr_high: final(self).temp_addr_high,
                pc: old(self).pc.wrapping_add(1),
                effective_addr: (final(self).temp_addr_high * 256 + old(self).temp_addr_low) as u16,
                ..*old(self)
            }),
            old(self).instruction_step == 4 ==> *final(self) == (M6502Cpu {
                temp_value: final(self).temp_value,
                ..*old(self)
            }),
            old(self).indirect_jump_bus(*final(self), old(bus), final(bus)),
    {
        let step = self.instruction_step;
        if step == 2 {
            self.temp_addr_low = bus.read_byte(self.pc);
            self.pc = self.pc.wrapping_add(1);
        } else if step == 3 {
            self.temp_addr_high = bus.read_byte(self.pc);
            self.pc = self.pc.wrapping_add(1);
            proof {
                crate::bits::lemma_pair(self.temp_addr_high, self.temp_addr_low);
            }
            self.effective_addr = ((self.temp_addr_high as u16) << 8) | (self.temp_addr_low as u16);
        } else {
            self.temp_value = bus.read_byte(self.effective_addr);
        }
    }

    /// JMP (ind), cycle 5 and on: the target's high byte (without the carry
    /// into the pointer's page on the NMOS parts, which jump at once), then
    /// the jump.
    fn indirect_jump_target<B: AddressBus + ?Sized>(&mut self, bus: &mut B) -> (r: Result<(), CpuError>)
        requires
            old(self).instruction_step < 2 || old(self).instruction_step > 4,
        ensures
            old(self).same_instruction(*final(self)),
            r is Err ==> old(self).current_op.unsupported(),
            final(self).cycles_remaining == old(self).cycles_remaining,
            old(self).instruction_step == 5 ==> old(self).jump_target_fetched(*final(self), r is Ok),
            (r is Ok && old(self).instruction_step == 6 && old(self).plain_op())
                ==> *final(self) == old(self).with_regs(old(self).after_op(old(self).current_op, 0)),
            (old(self).instruction_step < 2 || old(self).instruction_step > 6) ==> r is Ok && *final(self) == *old(self),
            old(self).indirect_jump_bus(*final(self), old(bus), final(bus)),
    {
        let op = self.current_op;
        let step = self.instruction_step;
        if step == 5 {
            let high_byte_ptr = if self.config.has_jmp_bug && (self.effective_addr & 0x00FF) == 0x00FF {
                self.effective_addr & 0xFF00
            } else {
                self.effective_addr.wrapping_add(1)
            };
            let target_high = bus.read_byte(high_byte_ptr);
            let target_low = self.temp_value;
            proof {
                crate::bits::lemma_pair(target_high, target_low);
                crate::bits::lemma_word_fields(((target_high as u16) << 8) | (target_low as u16));
            }
            self.effective_addr = ((target_high as u16) << 8) | (target_low as u16);
            assert((self.effective_addr / 256) as u8 == target_high);
            assert(read_at(old(bus), bus, high_byte_ptr, target_high));
            if self.config.has_jmp_bug {
                let r = self.execute_operation(op, 0, bus);
                assert((old(self).plain_op() && old(self).bus_write_of(op, 0) is None)
                    ==> read_at(old(bus), bus, high_byte_ptr, target_high));
                return r;
            }
        } else if step == 6 {
            let _dummy = bus.read_byte(self.effective_addr);
            let r = self.execute_operation(op, 0, bus);
            assert((old(self).plain_op() && old(self).bus_write_of(op, 0) is None)
                ==> dummy_read_at(old(bus), bus, old(self).effective_addr));
            return r;
        }
        Ok(())
    }


    /// The CPU after JMP (ind) fetches the target's high byte (`t` from
    /// `self`, `ok` when no error came): the target, whose low byte was
    /// fetched before, stands in `effective_addr`; the NMOS parts jump to it
    /// at once.
    pub open spec fn jump_target_fetched(self, t: Self, ok: bool) -> bool {
        let mid = M6502Cpu { effective_addr: t.effective_addr, ..self };
        &&& t.effective_addr % 256 == self.temp_value
        &&& if self.config.has_jmp_bug {
            ok && self.plain_op() ==> t == mid.with_regs(mid.after_op(self.current_op, 0))
        } else {
            ok && t == mid
        }
    }

    /// (zp,X): the pointer is indexed and read within page zero.
    fn indexed_indirect_step<B: AddressBus + ?Sized>(&mut self, bus: &mut B) -> (r: Result<(), CpuError>)
        requires
            old(self).instruction_step < 0xFFFF_FF00,
            old(self).current_mode == AddressingMode::IndirectX,
            1 <= old(self).cycles_remaining,
        ensures
            old(self).same_instruction(*final(self)),
            r is Err ==> old(self).current_op.unsupported(),
            r is Ok ==> final(self).cycles_remaining == old(self).cycles_remaining,
            old(self).instruction_step == 3 ==> final(self).effective_addr == old(self).temp_addr_low.wrapping_add(old(self).x) as u16,
            (r is Ok && old(self).instruction_step == 6) ==> old(self).data_read_done(*final(self)),
            (r is Ok && old(self).instruction_step == 8) ==> old(self).rmw_done(*final(self)),
            old(self).indexed_indirect_bus(*final(self), old(bus), final(bus), r is Ok),
    {
        let op = self.current_op;
        let step = self.instruction_step;
        if step == 2 {
            self.temp_addr_low = bus.read_byte(self.pc);
            self.pc = self.pc.wrapping_add(1);
        } else if step == 3 {
            let _dummy = bus.read_byte(self.temp_addr_low as u16);
            self.effective_addr = self.temp_addr_low.wrapping_add(self.x) as u16;
        } else if step == 4 {
            self.temp_value = bus.read_byte(self.effective_addr);
        } else if step == 5 {
            let ptr_high = (self.effective_addr as u8).wrapping_add(1) as u16;
            self.temp_addr_high = bus.read_byte(ptr_high);
            self.effective_addr = ((self.temp_addr_high as u16) << 8) | (self.temp_value as u16);
        } else if step == 6 {
            if op.is_rmw() {
                self.temp_value = bus.read_byte(self.effective_addr);
            } else if op.is_write() {
                return self.execute_operation(op, 0, bus);
            } else {
                let value = bus.read_byte(self.effective_addr);
                return self.execute_operation(op, value, bus);
            }
        } else if step == 7 {
            if op.is_rmw() {
                bus.write_byte(self.effective_addr, self.temp_value);
            }
        } else if step == 8 {
            if op.is_rmw() {
                let v = self.temp_value;
                return self.execute_operation(op, v, bus);
            }
        }
        Ok(())
    }

    /// (zp),Y: the pointer comes from page zero, Y is added to it; a read
    /// that crosses a page pays one more cycle.
    fn indirect_indexed_step<B: AddressBus + ?Sized>(&mut self, bus: &mut B) -> (r: Result<(), CpuError>)
        requires
            old(self).instruction_step < 0xFFFF_FF00,
            old(self).current_mode == AddressingMode::IndirectY,
            1 <= old(self).cycles_remaining <= 0xFFFF_FF00,
        ensures
            old(self).same_instruction(*final(self)),
            r is Err ==> old(self).current_op.unsupported(),
            r is Ok ==> old(self).cycles_after_step(*final(self)),
            old(self).instruction_step != 5 ==> final(self).cycles_remaining == old(self).cycles_remaining,
            old(self).instruction_step == 2 ==> r is Ok && *final(self) == (M6502Cpu {
                temp_addr_low: final(self).temp_addr_low,
                pc: old(self).pc.wrapping_add(1),
                ..*old(self)
            }),
            old(self).instruction_step == 3 ==> r is Ok && *final(self) == (M6502Cpu {
                temp_value: final(self).temp_value,
                ..*old(self)
            }),
            old(self).instruction_step == 4 ==> r is Ok && *final(self) == (M6502Cpu {
                temp_addr_high: final(self).temp_addr_high,
                effective_addr: ((final(self).temp_addr_high * 256 + old(self).temp_value + old(self).y) % 0x10000) as u16,
                ..*old(self)
            }),
            old(self).instruction_step == 5 ==> old(self).pointer_target_access(*final(self), r is Ok),
            (r is Ok && old(self).instruction_step == 6) ==> old(self).data_read_done(*final(self)),
            (old(self).instruction_step == 6 && old(self).current_op.rmw()) ==> r is Ok && *final(self) == (M6502Cpu {
                temp_value: final(self).temp_value,
                ..*old(self)
            }),
            (old(self).instruction_step == 7 || old(self).instruction_step < 2 || old(self).instruction_step > 8
                || (old(self).instruction_step == 8 && !old(self).current_op.rmw())) ==> r is Ok && *final(self) == *old(self),
            (r is Ok && old(self).instruction_step == 8) ==> old(self).rmw_done(*final(self)),
            old(self).indirect_indexed_bus(*final(self), old(bus), final(bus), r is Ok),
    {
        let step = self.instruction_step;
        if step == 2 || step == 3 || step == 4 {
            self.indirect_indexed_pointer(bus);
            Ok(())
        } else if step == 5 {
            self.indirect_indexed_first_access(bus)
        } else {
            self.indirect_indexed_finish(bus)
        }
    }

    /// (zp),Y, cycles 2 to 4: the zero-page pointer, its low target byte,
    /// then its high target byte with Y added to the target.
    fn indirect_indexed_pointer<B: AddressBus + ?Sized>(&mut self, bus: &mut B)
        requires
            2 <= old(self).instruction_step <= 4,
        ensures
            old(self).instruction_step == 2 ==> *final(self) == (M6502Cpu {
                temp_addr_low: final(self).temp_addr_low,
                pc: old(self).pc.wrapping_add(1),
                ..*old(self)
            }),
            old(self).instruction_step == 3 ==> *final(self) == (M6502Cpu {
                temp_value: final(self).temp_value,
                ..*old(self)
            }),
            old(self).instruction_step == 4 ==> *final(self) == (M6502Cpu {
                temp_addr_high: final(self).temp_addr_high,
                effective_addr: ((final(self).temp_addr_high * 256 + old(self).temp_value + old(self).y) % 0x10000) as u16,
                ..*old(self)
            }),
            old(self).indirect_indexed_bus(*final(self), old(bus), final(bus), true),
    {
        let step = self.instruction_step;
        if step == 2 {
            self.temp_addr_low = bus.read_byte(self.pc);
            self.pc = self.pc.wrapping_add(1);
        } else if step == 3 {
            self.temp_value = bus.read_byte(self.temp_addr_low as u16);
        } else {
            let ptr_high = self.temp_addr_low.wrapping_add(1) as u16;
            self.temp_addr_high = bus.read_byte(ptr_high);
            proof {
                crate::bits::lemma_pair(self.temp_addr_high, self.temp_value);
            }
            let base_target = ((self.temp_addr_high as u16) << 8) | (self.temp_value as u16);
            self.effective_addr = base_target.wrapping_add(self.y as u16);
        }
    }

    /// The CPU after the first data cycle of (zp),Y (`t` from `self`, `ok`
    /// when no error came): a read whose target stayed in the pointer's page
    /// has its operation applied to some byte read; one that crossed pays a
    /// cycle more; stores and read-modify-writes only read.
    pub open spec fn pointer_target_access(self, t: Self, ok: bool) -> bool {
        if self.current_op.store() || self.current_op.rmw() {
            ok && t == self
        } else if self.effective_addr / 256 == self.temp_addr_high {
            ok && self.plain_op() ==> exists|v: u8| t == self.with_regs(#[trigger] self.after_op(self.current_op, v))
        } else {
            ok && t == (M6502Cpu { cycles_remaining: (self.cycles_remaining + 1) as u32, ..self })
        }
    }

    /// (zp),Y, cycle 5: the read at the target without the carry.
    fn indirect_indexed_first_access<B: AddressBus + ?Sized>(&mut self, bus: &mut B) -> (r: Result<(), CpuError>)
        requires
            old(self).instruction_step == 5,
            old(self).current_mode == AddressingMode::IndirectY,
            1 <= old(self).cycles_remaining <= 0xFFFF_FF00,
        ensures
            old(self).same_instruction(*final(self)),
            r is Err ==> old(self).current_op.unsupported(),
            r is Ok ==> old(self).cycles_after_step(*final(self)),
            old(self).pointer_target_access(*final(self), r is Ok),
            old(self).indirect_indexed_bus(*final(self), old(bus), final(bus), r is Ok),
    {
        let op = self.current_op;
        let expected_high = self.temp_addr_high as u16;
        proof {
            crate::bits::lemma_word_fields(self.effective_addr);
            crate::bits::lemma_pair(self.temp_addr_high, (self.effective_addr % 256) as u8);
        }
        let uncorrected_addr = (expected_high << 8) | (self.effective_addr & 0x00FF);
        assert(uncorrected_addr == (self.temp_addr_high * 256 + self.effective_addr % 256) as u16);
        if op.is_rmw() || op.is_write() {
            let _garbage = bus.read_byte(uncorrected_addr);
        } else {
            let actual_high = self.effective_addr >> 8;
            proof {
                crate::bits::lemma_word_fields(self.effective_addr);
            }
            if expected_high == actual_high {
                let value = bus.read_byte(self.effective_addr);
                return self.execute_operation(op, value, bus);
            } else {
                let _garbage = bus.read_byte(uncorrected_addr);
                self.cycles_remaining = self.cycles_remaining + 1;
            }
        }
        Ok(())
    }

    /// (zp),Y, cycles 6 to 8: the access at the carried target, and for
    /// read-modify-write the write-back and the operation.
    fn indirect_indexed_finish<B: AddressBus + ?Sized>(&mut self, bus: &mut B) -> (r: Result<(), CpuError>)
        requires
            old(self).instruction_step != 2 && old(self).instruction_step != 3 && old(self).instruction_step != 4
                && old(self).instruction_step != 5,
        ensures
            old(self).same_instruction(*final(self)),
            final(self).cycles_remaining == old(self).cycles_remaining,
            r is Err ==> old(self).current_op.unsupported(),
            (r is Ok && old(self).instruction_step == 6) ==> old(self).data_read_done(*final(self)),
            (old(self).instruction_step == 6 && old(self).current_op.rmw()) ==> r is Ok && *final(self) == (M6502Cpu {
                temp_value: final(self).temp_value,
                ..*old(self)
            }),
            (old(self).instruction_step == 7 || old(self).instruction_step < 2 || old(self).instruction_step > 8
                || (old(self).instruction_step == 8 && !old(self).current_op.rmw())) ==> r is Ok && *final(self) == *old(self),
            (r is Ok && old(self).instruction_step == 8) ==> old(self).rmw_done(*final(self)),
            old(self).indirect_indexed_bus(*final(self), old(bus), final(bus), r is Ok),
    {
        let op = self.current_op;
        let step = self.instruction_step;
        if step == 6 {
            if op.is_rmw() {
                self.temp_value = bus.read_byte(self.effective_addr);
            } else if op.is_write() {
                return self.execute_operation(op, 0, bus);
            } else {
                let value = bus.read_byte(self.effective_addr);
                return self.execute_operation(op, value, bus);
            }
        } else if step == 7 {
            if op.is_rmw() {
                bus.write_byte(self.effective_addr, self.temp_value);
            }
        } else if step == 8 {
            if op.is_rmw() {
                let v = self.temp_value;
                return self.execute_operation(op, v, bus);
            }
        }
        Ok(())
    }

    /// Stack and subroutine instructions (JSR, RTS, RTI, PHA, PHP, PHY, PLA,
    /// PLP), one bus access per step.
    #[verifier::spinoff_prover]
    #[verifier::rlimit(100)]
    fn execute_stack_step<B: AddressBus + ?Sized>(&mut self, bus: &mut B)
        ensures
            final(self).config == old(self).config,
            final(self).current_op == old(self).current_op,
            final(self).current_mode == old(self).current_mode,
            final(self).instruction_step == old(self).instruction_step,
            final(self).total_cycles == old(self).total_cycles,
            final(self).cycles_remaining == old(self).cycles_remaining,
            (old(self).current_op == Operation::Jsr && (old(self).instruction_step == 4 || old(self).instruction_step == 5))
                ==> final(self).sp == old(self).sp.wrapping_sub(1),
            ((old(self).current_op == Operation::Pha || old(self).current_op == Operation::Php
                || old(self).current_op == Operation::Phy) && old(self).instruction_step == 3)
                ==> final(self).sp == old(self).sp.wrapping_sub(1),
            (old(self).current_op == Operation::Pla && old(self).instruction_step == 3)
                ==> final(self).sp == old(self).sp.wrapping_add(1),
            (old(self).current_op == Operation::Pla && old(self).instruction_step == 4)
                ==> final(self).status == nz(old(self).status, final(self).a) && final(self).sp == old(self).sp,
            (old(self).current_op == Operation::Rts && old(self).instruction_step == 6)
                ==> final(self).pc == (((old(self).temp_addr_high as u16) << 8u16) | (old(self).temp_addr_low as u16)).wrapping_add(1),
            old(self).stack_bus(*final(self), old(bus), final(bus)),
    {
        let sp_addr = STACK_BASE + self.sp as u16;
        match (self.current_op, self.instruction_step) {
            (Operation::Jsr, 2) => {
                self.temp_addr_low = bus.read_byte(self.pc);
                self.pc = self.pc.wrapping_add(1);
                self.effective_addr = self.pc;
            },
            (Operation::Jsr, 3) => {
                let _dummy = bus.read_byte(sp_addr);
            },
            (Operation::Jsr, 4) => {
                bus.write_byte(sp_addr, (self.effective_addr >> 8) as u8);
                self.sp = self.sp.wrapping_sub(1);
            },
            (Operation::Jsr, 5) => {
                bus.write_byte(sp_addr, (self.effective_addr & 0xFF) as u8);
                self.sp = self.sp.wrapping_sub(1);
            },
            (Operation::Jsr, 6) => {
                self.temp_addr_high = bus.read_byte(self.pc);
                proof {
                    crate::bits::lemma_pair(self.temp_addr_high, self.temp_addr_low);
                }
                self.pc = ((self.temp_addr_high as u16) << 8) | self.temp_addr_low as u16;
            },
            (Operation::Pha, 2) => {
                let _dummy = bus.read_byte(self.pc);
            },
            (Operation::Pha, 3) => {
                bus.write_byte(sp_addr, self.a);
                self.sp = self.sp.wrapping_sub(1);
            },
            (Operation::Php, 2) => {
                let _dummy = bus.read_byte(self.pc);
            },
            (Operation::Php, 3) => {
                let flags = self.status.to_u8(true);
                bus.write_byte(sp_addr, flags);
                self.sp = self.sp.wrapping_sub(1);
            },
            (Operation::Phy, 2) => {
                let _dummy = bus.read_byte(self.pc);
            },
            (Operation::Phy, 3) => {
                bus.write_byte(sp_addr, self.y);
                self.sp = self.sp.wrapping_sub(1);
            },
            (Operation::Pla, 2) => {
                let _dummy = bus.read_byte(self.pc);
            },
            (Operation::Pla, 3) => {
                let _dummy = bus.read_byte(sp_addr);
                self.sp = self.sp.wrapping_add(1);
            },
            (Operation::Pla, 4) => {
                self.a = bus.read_byte(sp_addr);
                self.update_nz_flags(self.a);
            },
            (Operation::Plp, 2) => {
                let _dummy = bus.read_byte(self.pc);
            },
            (Operation::Plp, 3) => {
                self.sp = self.sp.wrapping_add(1);
                let _dummy = bus.read_byte(STACK_BASE + self.sp as u16);
            },
            (Operation::Plp, 4) => {
                let val = bus.read_byte(sp_addr);
                let old_interrupt_disable = self.status.interrupt_disable;
                self.status.from_u8(val);
                assert(read_at(old(bus), bus, sp_addr, val) && self.status == status_from_byte(val));
                if old_interrupt_disable != self.status.interrupt_disable {
                    self.i_delay = true;
                }
            },
            (Operation::Rti, 2) => {
                let _dummy = bus.read_byte(self.pc);
            },
            (Operation::Rti, 3) => {
                let _dummy = bus.read_byte(sp_addr);
                self.sp = self.sp.wrapping_add(1);
            },
            (Operation::Rti, 4) => {
                let v = bus.read_byte(sp_addr);
                self.status.from_u8(v);
                assert(read_at(old(bus), bus, sp_addr, v) && self.status == status_from_byte(v));
                self.sp = self.sp.wrapping_add(1);
                self.i_delay = false;
            },
            (Operation::Rti, 5) => {
                self.temp_addr_low = bus.read_byte(sp_addr);
                self.sp = self.sp.wrapping_add(1);
            },
            (Operation::Rti, 6) => {
                self.temp_addr_high = bus.read_byte(sp_addr);
                proof {
                    crate::bits::lemma_pair(self.temp_addr_high, self.temp_addr_low);
                }
                self.pc = ((self.temp_addr_high as u16) << 8) | (self.temp_addr_low as u16);
            },
            (Operation::Rts, 2) => {
                let _dummy = bus.read_byte(self.pc);
            },
            (Operation::Rts, 3) => {
                let _dummy = bus.read_byte(sp_addr);
            },
            (Operation::Rts, 4) => {
                self.sp = self.sp.wrapping_add(1);
                self.temp_addr_low = bus.read_byte(STACK_BASE + self.sp as u16);
            },
            (Operation::Rts, 5) => {
                self.sp = self.sp.wrapping_add(1);
                self.temp_addr_high = bus.read_byte(STACK_BASE + self.sp as u16);
            },
            (Operation::Rts, 6) => {
                let _dummy = bus.read_byte(self.pc);
                self.pc = ((self.temp_addr_high as u16) << 8) | (self.temp_addr_low as u16);
                self.pc = self.pc.wrapping_add(1);
            },
            _ => {},
        }
    }

    /// The seven-cycle interrupt sequence shared by BRK, IRQ and NMI: push PC
    /// and the status byte, set I, load PC from the vector.
    fn execute_interrupt_step<B: AddressBus + ?Sized>(&mut self, bus: &mut B)
        ensures
            final(self).config == old(self).config,
            final(self).current_op == old(self).current_op,
            final(self).current_mode == old(self).current_mode,
            final(self).instruction_step == old(self).instruction_step,
            final(self).total_cycles == old(self).total_cycles,
            final(self).cycles_remaining == old(self).cycles_remaining,
            (old(self).instruction_step == 3 || old(self).instruction_step == 4 || old(self).instruction_step == 5)
                ==> final(self).sp == old(self).sp.wrapping_sub(1),
            old(self).instruction_step == 7 ==> final(self).status == (StatusFlags { interrupt_disable: true, ..old(self).status }),
            (old(self).instruction_step == 2 && old(self).current_op == Operation::Brk) ==> final(self).pc == old(self).pc.wrapping_add(1),
            (old(self).instruction_step == 2 && old(self).current_op != Operation::Brk) ==> final(self).pc == old(self).pc,
            old(self).interrupt_bus(*final(self), old(bus), final(bus)),
    {
        let vector_base_addr: u16 = match self.current_op {
            Operation::Nmi => 0xFFFA,
            _ => 0xFFFE,
        };
        let step = self.instruction_step;
        let sp_addr = STACK_BASE + self.sp as u16;
        if step == 2 {
            let _dummy = bus.read_byte(self.pc);
            if self.current_op == Operation::Brk {
                // BRK is a two-byte instruction; hardware interrupts do not move PC
                self.pc = self.pc.wrapping_add(1);
            }
            assert(old(self).interrupt_bus(*self, old(bus), bus));
        } else if step == 3 {
            let pc_high = (self.pc >> 8) as u8;
            bus.write_byte(sp_addr, pc_high);
            self.sp = self.sp.wrapping_sub(1);
            assert(sp_addr == (0x100 + old(self).sp) as u16);
            assert(pc_high == (old(self).pc >> 8u16) as u8);
            assert(written_at(old(bus), bus, sp_addr, pc_high));
            assert(old(self).interrupt_bus(*self, old(bus), bus));
        } else if step == 4 {
            let pc_low = (self.pc & 0x00FF) as u8;
            bus.write_byte(sp_addr, pc_low);
            self.sp = self.sp.wrapping_sub(1);
            assert(sp_addr == (0x100 + old(self).sp) as u16);
            assert(written_at(old(bus), bus, sp_addr, pc_low));
            assert(old(self).interrupt_bus(*self, old(bus), bus));
        } else if step == 5 {
            let is_instruction = self.current_op == Operation::Brk;
            let status_byte = self.status.to_u8(is_instruction);
            bus.write_byte(sp_addr, status_byte);
            self.sp = self.sp.wrapping_sub(1);
            assert(old(self).interrupt_bus(*self, old(bus), bus));
        } else if step == 6 {
            self.temp_addr_low = bus.read_byte(vector_base_addr);
            assert(old(self).interrupt_bus(*self, old(bus), bus));
        } else if step == 7 {
            self.status.interrupt_disable = true;
            let high_byte = bus.read_byte(vector_base_addr + 1);
            proof {
                crate::bits::lemma_pair(high_byte, self.temp_addr_low);
            }
            self.pc = ((high_byte as u16) << 8) | (self.temp_addr_low as u16);
            assert(read_at(old(bus), bus, (vector_base_addr + 1) as u16, high_byte));
            assert(old(self).interrupt_bus(*self, old(bus), bus));
        }
    }

    /// Executes `op` on the operand `value` (already fetched by the addressing
    /// mode); read-modify-write results and stores go to `effective_addr`.
    fn execute_operation<B: AddressBus + ?Sized>(&mut self, op: Operation, value: u8, bus: &mut B) -> (r: Result<(), CpuError>)
        ensures
            old(self).same_instruction(*final(self)),
            final(self).cycles_remaining == old(self).cycles_remaining,
            r is Err <==> op.unsupported(),
            r is Err ==> *final(self) == *old(self),
            (r is Ok && op != Operation::Lax && op != Operation::JmpIndexedIndirect)
                ==> *final(self) == old(self).with_regs(old(self).after_op(op, value)),
            op == Operation::Lax ==> *final(self) == (M6502Cpu {
                a: final(self).a,
                x: final(self).a,
                status: nz(old(self).status, final(self).a),
                ..*old(self)
            }),
            op == Operation::JmpIndexedIndirect ==> *final(self) == (M6502Cpu { pc: final(self).pc, ..*old(self) }),
            r is Ok ==> old(self).op_bus_effect(op, value, old(bus), final(bus)),
            r is Err ==> memory_kept(old(bus), final(bus)),
            op == Operation::Lax ==> read_at(old(bus), final(bus), old(self).effective_addr, final(self).a),
            (op == Operation::JmpIndexedIndirect && old(bus).holds_memory(old(self).effective_addr)
                && old(bus).holds_memory(old(self).effective_addr.wrapping_add(1))) ==> {
                &&& final(self).pc == old(bus).memory_byte(old(self).effective_addr.wrapping_add(1)) * 256
                    + old(bus).memory_byte(old(self).effective_addr)
                &&& memory_kept(old(bus), final(bus))
            },
    {
        match op {
            Operation::Adc | Operation::Sbc | Operation::Cmp | Operation::Cpx | Operation::Cpy | Operation::Sbx => {
                self.arithmetic_op(op, value);
            },
            Operation::And | Operation::Ora | Operation::Eor | Operation::Bit | Operation::Alr | Operation::Anc | Operation::Ane | Operation::Arr => {
                self.logic_op(op, value);
            },
            Operation::Clc | Operation::Cld | Operation::Cli | Operation::Clv | Operation::Sec | Operation::Sed | Operation::Sei => {
                self.flag_op(op, value);
            },
            Operation::Lda | Operation::Ldx | Operation::Ldy | Operation::Lxa | Operation::Las | Operation::Jmp | Operation::Nop => {
                self.load_op(op, value);
            },
            Operation::Tax | Operation::Tay | Operation::Tsx | Operation::Txa | Operation::Txs | Operation::Tya | Operation::Dex | Operation::Dey | Operation::Inx | Operation::Iny => {
                self.transfer_op(op, value);
            },
            Operation::Asl | Operation::Lsr => {
                self.shift_op(op, value, bus);
            },
            Operation::Rol | Operation::Ror => {
                self.rotate_op(op, value, bus);
            },
            Operation::Slo | Operation::Sre | Operation::Rla | Operation::Rra => {
                self.shift_combined_op(op, value, bus);
            },
            Operation::Inc | Operation::Dec | Operation::Dcp | Operation::Isc => {
                self.step_memory_op(op, value, bus);
            },
            Operation::Sta | Operation::Stx | Operation::Sty | Operation::Stz | Operation::Sax | Operation::Sha | Operation::Shx | Operation::Shy | Operation::Tas => {
                self.store_op(op, value, bus);
            },
            Operation::Lax | Operation::JmpIndexedIndirect | Operation::Trb | Operation::Tsb => {
                self.memory_test_op(op, value, bus);
            },
            _ => {
                return Err(CpuError::UnsupportedOperation);
            },
        }
        Ok(())
    }

    /// ADC, SBC and the comparisons.
    #[verifier::spinoff_prover]
    #[verifier::rlimit(100)]
    fn arithmetic_op(&mut self, op: Operation, value: u8)
        requires
            op is Adc || op is Sbc || op is Cmp || op is Cpx || op is Cpy || op is Sbx,
        ensures
            *final(self) == old(self).with_regs(old(self).after_op(op, value)),
    {
        reveal(M6502Cpu::after_op);
        match op {
            Operation::Adc => self.add_with_carry_logic(value),
            Operation::Sbc => {
                self.add_with_carry_logic(value ^ 0xFF);
            },
            Operation::Cmp => {
                let result = self.a.wrapping_sub(value);
                self.status.zero = result == 0;
                self.status.negative = (result & 0x80) != 0;
                self.status.carry = value <= self.a;
            },
            Operation::Cpx => {
                let result = self.x.wrapping_sub(value);
                self.status.zero = result == 0;
                self.status.negative = (result & 0x80) != 0;
                self.status.carry = value <= self.x;
            },
            Operation::Cpy => {
                let result = self.y.wrapping_sub(value);
                self.status.zero = result == 0;
                self.status.negative = (result & 0x80) != 0;
                self.status.carry = value <= self.y;
            },
            Operation::Sbx => {
                let base = self.a & self.x;
                self.status.carry = base >= value;
                self.x = base.wrapping_sub(value);
                self.status.zero = self.x == 0;
                self.status.negative = (self.x & 0x80) != 0;
            },
            _ => {},
        }
    }

    /// The bitwise operations on the accumulator.
    #[verifier::spinoff_prover]
    #[verifier::rlimit(100)]
    fn logic_op(&mut self, op: Operation, value: u8)
        requires
            op is And || op is Ora || op is Eor || op is Bit || op is Alr || op is Anc || op is Ane || op is Arr,
        ensures
            *final(self) == old(self).with_regs(old(self).after_op(op, value)),
    {
        reveal(M6502Cpu::after_op);
        match op {
            Operation::And => {
                self.a = self.a & value;
                self.status.zero = self.a == 0;
                self.status.negative = (self.a & 0x80) != 0;
            },
            Operation::Ora => {
                self.a = self.a | value;
                self.status.zero = self.a == 0;
                self.status.negative = (self.a & 0x80) != 0;
            },
            Operation::Eor => {
                self.a = self.a ^ value;
                self.status.zero = self.a == 0;
                self.status.negative = (self.a & 0x80) != 0;
            },
            Operation::Bit => {
                let result = self.a & value;
                self.status.zero = result == 0;
                if self.current_mode != AddressingMode::Immediate {
                    self.status.overflow = value & 0x40 != 0;
                    self.status.negative = value & 0x80 != 0;
                }
            },
            Operation::Alr => {
                let intermediate = self.a & value;
                self.status.carry = (intermediate & 0x01) != 0;
                self.a = intermediate >> 1u8;
                self.status.zero = self.a == 0;
                self.status.negative = false;
            },
            Operation::Anc => {
                self.a = self.a & value;
                self.status.zero = self.a == 0;
                self.status.negative = (self.a & 0x80) != 0;
                self.status.carry = self.status.negative;
            },
            Operation::Ane => {
                // 0xEE stands in for the chip's unstable constant
                let magic_constant: u8 = 0xEE;
                self.a = (self.a | magic_constant) & self.x & value;
                self.status.zero = self.a == 0;
                self.status.negative = (self.a & 0x80) != 0;
            },
            Operation::Arr => {
                let intermediate = self.a & value;
                let old_carry: u8 = if self.status.carry { 0x80 } else { 0 };
                let result = (intermediate >> 1u8) | old_carry;
                self.a = result;
                self.status.zero = self.a == 0;
                self.status.negative = (self.a & 0x80) != 0;
                self.status.carry = (result & 0x40) != 0;
                let bit6 = (result >> 6u8) & 1;
                let bit5 = (result >> 5u8) & 1;
                self.status.overflow = (bit6 ^ bit5) == 1;
            },
            _ => {},
        }
    }

    /// The instructions that set or clear a single flag.
    #[verifier::spinoff_prover]
    #[verifier::rlimit(100)]
    fn flag_op(&mut self, op: Operation, value: u8)
        requires
            op is Clc || op is Cld || op is Cli || op is Clv || op is Sec || op is Sed || op is Sei,
        ensures
            *final(self) == old(self).with_regs(old(self).after_op(op, value)),
    {
        reveal(M6502Cpu::after_op);
        match op {
            Operation::Clc => { self.status.carry = false; },
            Operation::Cld => { self.status.decimal = false; },
            Operation::Cli => {
                if self.status.interrupt_disable {
                    self.i_delay = true;
                }
                self.status.interrupt_disable = false;
            },
            Operation::Clv => { self.status.overflow = false; },
            Operation::Sec => { self.status.carry = true; },
            Operation::Sed => { self.status.decimal = true; },
            Operation::Sei => {
                if !self.status.interrupt_disable {
                    self.i_delay = true;
                }
                self.status.interrupt_disable = true;
            },
            _ => {},
        }
    }

    /// Loads, and the jumps and no-op that only move PC.
    #[verifier::spinoff_prover]
    #[verifier::rlimit(100)]
    fn load_op(&mut self, op: Operation, value: u8)
        requires
            op is Lda || op is Ldx || op is Ldy || op is Lxa || op is Las || op is Jmp || op is Nop,
        ensures
            *final(self) == old(self).with_regs(old(self).after_op(op, value)),
    {
        reveal(M6502Cpu::after_op);
        match op {
            Operation::Lda => {
                self.a = value;
                self.status.zero = self.a == 0;
                self.status.negative = (self.a & 0x80) != 0;
            },
            Operation::Ldx => {
                self.x = value;
                self.status.zero = self.x == 0;
                self.status.negative = (self.x & 0x80) != 0;
            },
            Operation::Ldy => {
                self.y = value;
                self.status.zero = self.y == 0;
                self.status.negative = (self.y & 0x80) != 0;
            },
            Operation::Lxa => {
                self.a = value;
                self.x = value;
                self.status.zero = self.a == 0;
                self.status.negative = (self.a & 0x80) != 0;
            },
            Operation::Las => {
                let result = value & self.sp;
                self.a = result;
                self.x = result;
                self.sp = result;
                self.status.zero = result == 0;
                self.status.negative = (result & 0x80) != 0;
            },
            Operation::Jmp => {
                self.pc = self.effective_addr;
            },
            Operation::Nop => {},
            _ => {},
        }
    }

    /// Register transfers and index increments.
    #[verifier::spinoff_prover]
    #[verifier::rlimit(100)]
    fn transfer_op(&mut self, op: Operation, value: u8)
        requires
            op is Tax || op is Tay || op is Tsx || op is Txa || op is Txs || op is Tya || op is Dex || op is Dey || op is Inx || op is Iny,
        ensures
            *final(self) == old(self).with_regs(old(self).after_op(op, value)),
    {
        reveal(M6502Cpu::after_op);
        match op {
            Operation::Tax => {
                self.x = self.a;
                self.status.zero = self.x == 0;
                self.status.negative = (self.x & 0x80) != 0;
            },
            Operation::Tay => {
                self.y = self.a;
                self.status.zero = self.y == 0;
                self.status.negative = (self.y & 0x80) != 0;
            },
            Operation::Tsx => {
                self.x = self.sp;
                self.status.zero = self.x == 0;
                self.status.negative = (self.x & 0x80) != 0;
            },
            Operation::Txa => {
                self.a = self.x;
                self.status.zero = self.a == 0;
                self.status.negative = (self.a & 0x80) != 0;
            },
            Operation::Txs => { self.sp = self.x; },
            Operation::Tya => {
                self.a = self.y;
                self.status.zero = self.a == 0;
                self.status.negative = (self.a & 0x80) != 0;
            },
            Operation::Dex => {
                self.x = self.x.wrapping_sub(1);
                self.status.zero = self.x == 0;
                self.status.negative = (self.x & 0x80) != 0;
            },
            Operation::Dey => {
                self.y = self.y.wrapping_sub(1);
                self.status.zero = self.y == 0;
                self.status.negative = (self.y & 0x80) != 0;
            },
            Operation::Inx => {
                self.x = self.x.wrapping_add(1);
                self.status.zero = self.x == 0;
                self.status.negative = (self.x & 0x80) != 0;
            },
            Operation::Iny => {
                self.y = self.y.wrapping_add(1);
                self.status.zero = self.y == 0;
                self.status.negative = (self.y & 0x80) != 0;
            },
            _ => {},
        }
    }

    /// Logical and arithmetic shifts of the accumulator or memory.
    #[verifier::spinoff_prover]
    #[verifier::rlimit(100)]
    fn shift_op<B: AddressBus + ?Sized>(&mut self, op: Operation, value: u8, bus: &mut B)
        requires
            op is Asl || op is Lsr,
        ensures
            *final(self) == old(self).with_regs(old(self).after_op(op, value)),
            old(self).op_bus_effect(op, value, old(bus), final(bus)),
    {
        reveal(M6502Cpu::after_op);
        match op {
            Operation::Asl => {
                self.status.carry = (value & 0x80) != 0;
                let result = value << 1u8;
                self.status.zero = result == 0;
                self.status.negative = (result & 0x80) != 0;
                if self.current_mode == AddressingMode::Accumulator {
                    self.a = result;
                } else {
                    bus.write_byte(self.effective_addr, result);
                }
                self.temp_value = result;
            },
            Operation::Lsr => {
                self.status.carry = (value & 0x01) != 0;
                let result = value >> 1u8;
                self.status.zero = result == 0;
                self.status.negative = (result & 0x80) != 0;
                if self.current_mode == AddressingMode::Accumulator {
                    self.a = result;
                } else {
                    bus.write_byte(self.effective_addr, result);
                }
                self.temp_value = result;
            },
            _ => {},
        }
    }

    /// Rotates through carry of the accumulator or memory.
    #[verifier::spinoff_prover]
    #[verifier::rlimit(100)]
    fn rotate_op<B: AddressBus + ?Sized>(&mut self, op: Operation, value: u8, bus: &mut B)
        requires
            op is Rol || op is Ror,
        ensures
            *final(self) == old(self).with_regs(old(self).after_op(op, value)),
            old(self).op_bus_effect(op, value, old(bus), final(bus)),
    {
        reveal(M6502Cpu::after_op);
        match op {
            Operation::Rol => {
                let old_value = if self.current_mode == AddressingMode::Accumulator { self.a } else { value };
                let next_carry = (old_value & 0x80) != 0;
                let mut result = old_value << 1u8;
                if self.status.carry {
                    result = result | 0x01;
                }
                self.status.carry = next_carry;
                if self.current_mode == AddressingMode::Accumulator {
                    self.a = result;
                } else {
                    bus.write_byte(self.effective_addr, result);
                }
                self.status.zero = result == 0;
                self.status.negative = (result & 0x80) != 0;
            },
            Operation::Ror => {
                let old_value = if self.current_mode == AddressingMode::Accumulator { self.a } else { value };
                let next_carry = (old_value & 0x01) != 0;
                let mut result = old_value >> 1u8;
                if self.status.carry {
                    result = result | 0x80;
                }
                self.status.carry = next_carry;
                if self.current_mode == AddressingMode::Accumulator {
                    self.a = result;
                } else {
                    bus.write_byte(self.effective_addr, result);
                }
                self.status.zero = result == 0;
                self.status.negative = (result & 0x80) != 0;
            },
            _ => {},
        }
    }

    /// Memory shifts and rotates combined with ORA, EOR, AND or ADC.
    #[verifier::spinoff_prover]
    #[verifier::rlimit(100)]
    fn shift_combined_op<B: AddressBus + ?Sized>(&mut self, op: Operation, value: u8, bus: &mut B)
        requires
            op is Slo || op is Sre || op is Rla || op is Rra,
        ensures
            *final(self) == old(self).with_regs(old(self).after_op(op, value)),
            old(self).op_bus_effect(op, value, old(bus), final(bus)),
    {
        reveal(M6502Cpu::after_op);
        match op {
            Operation::Slo => {
                self.status.carry = (value & 0x80) != 0;
                let shifted_value = value << 1u8;
                bus.write_byte(self.effective_addr, shifted_value);
                self.a = self.a | shifted_value;
                self.status.zero = self.a == 0;
                self.status.negative = (self.a & 0x80) != 0;
            },
            Operation::Sre => {
                self.status.carry = (value & 0x01) != 0;
                let shifted_value = value >> 1u8;
                bus.write_byte(self.effective_addr, shifted_value);
                self.a = self.a ^ shifted_value;
                self.status.zero = self.a == 0;
                self.status.negative = (self.a & 0x80) != 0;
            },
            Operation::Rla => {
                let old_carry: u8 = if self.status.carry { 1 } else { 0 };
                self.status.carry = (value & 0x80) != 0;
                let rotated_value = (value << 1u8) | old_carry;
                bus.write_byte(self.effective_addr, rotated_value);
                self.a = self.a & rotated_value;
                self.status.zero = self.a == 0;
                self.status.negative = (self.a & 0x80) != 0;
            },
            Operation::Rra => {
                let old_carry: u8 = if self.status.carry { 0x80 } else { 0 };
                self.status.carry = (value & 0x01) != 0;
                let rotated_value = (value >> 1u8) | old_carry;
                bus.write_byte(self.effective_addr, rotated_value);
                self.add_with_carry_logic(rotated_value);
            },
            _ => {},
        }
    }

    /// Memory increments and decrements, alone or combined with CMP/SBC.
    #[verifier::spinoff_prover]
    #[verifier::rlimit(100)]
    fn step_memory_op<B: AddressBus + ?Sized>(&mut self, op: Operation, value: u8, bus: &mut B)
        requires
            op is Inc || op is Dec || op is Dcp || op is Isc,
        ensures
            *final(self) == old(self).with_regs(old(self).after_op(op, value)),
            old(self).op_bus_effect(op, value, old(bus), final(bus)),
    {
        reveal(M6502Cpu::after_op);
        match op {
            Operation::Inc => {
                let result = value.wrapping_add(1);
                self.status.zero = result == 0;
                self.status.negative = (result & 0x80) != 0;
                bus.write_byte(self.effective_addr, result);
            },
            Operation::Dec => {
                let result = value.wrapping_sub(1);
                self.status.zero = result == 0;
                self.status.negative = (result & 0x80) != 0;
                bus.write_byte(self.effective_addr, result);
            },
            Operation::Dcp => {
                let decremented_value = value.wrapping_sub(1);
                bus.write_byte(self.effective_addr, decremented_value);
                self.status.carry = self.a >= decremented_value;
                let comparison_result = self.a.wrapping_sub(decremented_value);
                self.status.zero = comparison_result == 0;
                self.status.negative = (comparison_result & 0x80) != 0;
            },
            Operation::Isc => {
                let incremented_value = value.wrapping_add(1);
                bus.write_byte(self.effective_addr, incremented_value);
                self.add_with_carry_logic(incremented_value ^ 0xFF);
            },
            _ => {},
        }
    }

    /// The stores.
    #[verifier::spinoff_prover]
    #[verifier::rlimit(100)]
    fn store_op<B: AddressBus + ?Sized>(&mut self, op: Operation, value: u8, bus: &mut B)
        requires
            op is Sta || op is Stx || op is Sty || op is Stz || op is Sax || op is Sha || op is Shx || op is Shy || op is Tas,
        ensures
            *final(self) == old(self).with_regs(old(self).after_op(op, value)),
            old(self).op_bus_effect(op, value, old(bus), final(bus)),
    {
        reveal(M6502Cpu::after_op);
        match op {
            Operation::Sta => { bus.write_byte(self.effective_addr, self.a); },
            Operation::Stx => { bus.write_byte(self.effective_addr, self.x); },
            Operation::Sty => { bus.write_byte(self.effective_addr, self.y); },
            Operation::Stz => { bus.write_byte(self.effective_addr, 0x00); },
            Operation::Sax => {
                let result = self.a & self.x;
                bus.write_byte(self.effective_addr, result);
            },
            Operation::Sha => {
                proof { crate::bits::lemma_word_fields(self.effective_addr); }
                let high_plus_one = ((self.effective_addr >> 8u8) + 1) as u8;
                let val_to_write = self.a & self.x & high_plus_one;
                bus.write_byte(self.effective_addr, val_to_write);
            },
            Operation::Shx => {
                let high_plus_one = self.temp_addr_high.wrapping_add(1);
                let val_to_write = self.x & high_plus_one;
                // on a real page cross the written value replaces the address high byte
                let page_crossed = (self.temp_addr_low as u16 + self.y as u16) > 0xFF;
                if page_crossed {
                    let final_addr = ((val_to_write as u16) << 8u8) | (self.effective_addr & 0x00FF);
                    bus.write_byte(final_addr, val_to_write);
                } else {
                    bus.write_byte(self.effective_addr, val_to_write);
                }
            },
            Operation::Shy => {
                let high_plus_one = self.temp_addr_high.wrapping_add(1);
                let val_to_write = self.y & high_plus_one;
                let page_crossed = (self.temp_addr_low as u16 + self.x as u16) > 0xFF;
                if page_crossed {
                    let final_addr = ((val_to_write as u16) << 8u8) | (self.effective_addr & 0x00FF);
                    bus.write_byte(final_addr, val_to_write);
                } else {
                    bus.write_byte(self.effective_addr, val_to_write);
                }
            },
            Operation::Tas => {
                proof { crate::bits::lemma_word_fields(self.effective_addr); }
                let intermediate = self.a & self.x;
                self.sp = intermediate;
                let high_plus_one = ((self.effective_addr >> 8u8) + 1) as u8;
                let val_to_write = intermediate & high_plus_one;
                bus.write_byte(self.effective_addr, val_to_write);
            },
            _ => {},
        }
    }

    /// LAX, the indexed indirect jump and the test-and-set/reset pair.
    #[verifier::spinoff_prover]
    #[verifier::rlimit(100)]
    fn memory_test_op<B: AddressBus + ?Sized>(&mut self, op: Operation, value: u8, bus: &mut B)
        requires
            op is Lax || op is JmpIndexedIndirect || op is Trb || op is Tsb,
        ensures
            (op != Operation::Lax && op != Operation::JmpIndexedIndirect) ==> *final(self) == old(self).with_regs(old(self).after_op(op, value)),
            op == Operation::Lax ==> *final(self) == (M6502Cpu {
                a: final(self).a,
                x: final(self).a,
                status: nz(old(self).status, final(self).a),
                ..*old(self)
            }),
            op == Operation::JmpIndexedIndirect ==> *final(self) == (M6502Cpu { pc: final(self).pc, ..*old(self) }),
            old(self).op_bus_effect(op, value, old(bus), final(bus)),
            op == Operation::Lax ==> read_at(old(bus), final(bus), old(self).effective_addr, final(self).a),
            (op == Operation::JmpIndexedIndirect && old(bus).holds_memory(old(self).effective_addr)
                && old(bus).holds_memory(old(self).effective_addr.wrapping_add(1))) ==> {
                &&& final(self).pc == old(bus).memory_byte(old(self).effective_addr.wrapping_add(1)) * 256
                    + old(bus).memory_byte(old(self).effective_addr)
                &&& memory_kept(old(bus), final(bus))
            },
    {
        reveal(M6502Cpu::after_op);
        match op {
            Operation::Lax => {
                self.a = bus.read_byte(self.effective_addr);
                self.x = self.a;
                self.status.zero = self.a == 0;
                self.status.negative = (self.a & 0x80) != 0;
            },
            Operation::JmpIndexedIndirect => {
                let low_byte = bus.read_byte(self.effective_addr);
                assert(old(bus).holds_memory(self.effective_addr) ==> (
                    bus.holds_memory(self.effective_addr.wrapping_add(1)) == old(bus).holds_memory(self.effective_addr.wrapping_add(1))
                    && (bus.holds_memory(self.effective_addr.wrapping_add(1))
                        ==> bus.memory_byte(self.effective_addr.wrapping_add(1)) == old(bus).memory_byte(self.effective_addr.wrapping_add(1)))));
                let high_byte = bus.read_byte(self.effective_addr.wrapping_add(1));
                proof {
                    crate::bits::lemma_pair(high_byte, low_byte);
                }
                self.pc = ((high_byte as u16) << 8u8) | (low_byte as u16);
            },
            Operation::Trb => {
                let test_result = self.a & value;
                self.status.zero = test_result == 0;
                let reset_result = self.a & !value;
                bus.write_byte(self.effective_addr, reset_result);
            },
            Operation::Tsb => {
                let test_result = self.a & value;
                self.status.zero = test_result == 0;
                let set_result = value | self.a;
                bus.write_byte(self.effective_addr, set_result);
            },
            _ => {},
        }
    }

    /// The byte that operation `op` on operand `value` writes to the bus, and
    /// where (`None` for an operation that writes nothing): stores write
    /// their register value, read-modify-write operations their result at
    /// `effective_addr` (a shift or rotate of the accumulator writes nothing).
    pub open spec fn bus_write_of(self, op: Operation, value: u8) -> Option<(u16, u8)> {
        let ea = self.effective_addr;
        let carry_in: u8 = if self.status.carry { 1 } else { 0 };
        let memory_mode = self.current_mode != AddressingMode::Accumulator;
        match op {
            Operation::Sta => Some((ea, self.a)),
            Operation::Stx => Some((ea, self.x)),
            Operation::Sty => Some((ea, self.y)),
            Operation::Stz => Some((ea, 0u8)),
            Operation::Sax => Some((ea, self.a & self.x)),
            Operation::Sha => Some((ea, self.a & self.x & (((ea >> 8u8) + 1) as u8))),
            Operation::Tas => Some((ea, (self.a & self.x) & (((ea >> 8u8) + 1) as u8))),
            Operation::Shx => {
                let v = self.x & self.temp_addr_high.wrapping_add(1);
                if (self.temp_addr_low as u16 + self.y as u16) > 0xFF {
                    Some((((v as u16) << 8u8) | (ea & 0x00FF), v))
                } else {
                    Some((ea, v))
                }
            },
            Operation::Shy => {
                let v = self.y & self.temp_addr_high.wrapping_add(1);
                if (self.temp_addr_low as u16 + self.x as u16) > 0xFF {
                    Some((((v as u16) << 8u8) | (ea & 0x00FF), v))
                } else {
                    Some((ea, v))
                }
            },
            Operation::Asl => if memory_mode { Some((ea, value << 1u8)) } else { None },
            Operation::Lsr => if memory_mode { Some((ea, value >> 1u8)) } else { None },
            Operation::Rol => if memory_mode {
                Some((ea, if self.status.carry { (value << 1u8) | 0x01 } else { value << 1u8 }))
            } else {
                None
            },
            Operation::Ror => if memory_mode {
                Some((ea, if self.status.carry { (value >> 1u8) | 0x80 } else { value >> 1u8 }))
            } else {
                None
            },
            Operation::Slo => Some((ea, value << 1u8)),
            Operation::Sre => Some((ea, value >> 1u8)),
            Operation::Rla => Some((ea, (value << 1u8) | carry_in)),
            Operation::Rra => Some((ea, (value >> 1u8) | (if self.status.carry { 0x80u8 } else { 0u8 }))),
            Operation::Inc | Operation::Isc => Some((ea, value.wrapping_add(1))),
            Operation::Dec | Operation::Dcp => Some((ea, value.wrapping_sub(1))),
            Operation::Trb => Some((ea, self.a & !value)),
            Operation::Tsb => Some((ea, value | self.a)),
            _ => None,
        }
    }

    /// The bus after operation `op` ran on operand `value` (`b0` before,
    /// `b1` after): its write, if any, went to memory; an operation that
    /// neither writes nor reads keeps the memory.
    pub open spec fn op_bus_effect<B: AddressBus + ?Sized>(self, op: Operation, value: u8, b0: &B, b1: &B) -> bool {
        match self.bus_write_of(op, value) {
            Some((addr, v)) => written_at(b0, b1, addr, v),
            None => op != Operation::Lax && op != Operation::JmpIndexedIndirect ==> memory_kept(b0, b1),
        }
    }

    /// ADC/SBC core: binary addition with carry in and out and signed
    /// overflow, or packed-BCD addition when the variant has BCD and D is set.
    #[verifier::spinoff_prover]
    #[verifier::rlimit(100)]
    fn add_with_carry_logic(&mut self, value: u8)
        ensures
            *final(self) == old(self).with_adc(value),
    {
        reveal(adc);
        let a = self.a;
        let carry_in: u8 = if self.status.carry { 1 } else { 0 };
        proof {
            crate::bits::lemma_byte_fields(a);
            crate::bits::lemma_byte_fields(value);
        }
        if self.config.has_bcd && self.status.decimal {
            let mut low_nibble: u8 = (a & 0x0F) + (value & 0x0F) + carry_in;
            let mut high_nibble: u8 = (a >> 4) + (value >> 4);
            let ln0 = low_nibble;
            if low_nibble > 9 {
                low_nibble = low_nibble + 6;
                high_nibble = high_nibble + 1;
            }
            let binary_sum: u16 = (a as u16) + (value as u16) + (carry_in as u16);
            let uncorrected_a = (binary_sum & 0xFF) as u8;
            let overflow = (!(a ^ value) & (a ^ uncorrected_a) & 0x80) != 0;
            let hn1 = high_nibble;
            let carry = high_nibble > 9;
            if carry {
                high_nibble = high_nibble + 6;
            }
            let result_a = ((high_nibble << 4) & 0xF0) | (low_nibble & 0x0F);
            let flag_src = if self.config.is_c02 { result_a } else { uncorrected_a };
            assert(adc(self.config, self.status, a, value) == (result_a, StatusFlags {
                overflow: overflow,
                carry: carry,
                zero: flag_src == 0,
                negative: flag_src & 0x80 != 0,
                ..self.status
            }));
            self.status.overflow = overflow;
            self.status.carry = carry;
            self.a = result_a;
            self.status.zero = flag_src == 0;
            self.status.negative = (flag_src & 0x80) != 0;
        } else {
            let result: u16 = (a as u16) + (value as u16) + (carry_in as u16);
            let carry = result > 0xFF;
            let new_a: u8 = result as u8;
            let overflow = (!(a ^ value) & (a ^ new_a) & 0x80) != 0;
            assert(adc(self.config, self.status, a, value) == (new_a, StatusFlags {
                overflow: overflow,
                carry: carry,
                zero: new_a == 0,
                negative: new_a & 0x80 != 0,
                ..self.status
            }));
            self.status.carry = carry;
            self.status.overflow = overflow;
            self.a = new_a;
            self.status.zero = new_a == 0;
            self.status.negative = (new_a & 0x80) != 0;
        }
    }

    fn update_nz_flags(&mut self, value: u8)
        ensures
            *final(self) == old(self).with_status(nz(old(self).status, value)),
    {
        self.status.zero = value == 0;
        self.status.negative = (value & 0x80) != 0;
    }
}

/// Loading the state that a CPU reports back into it changes nothing.
pub proof fn lemma_state_round_trip(cpu: M6502Cpu)
    ensures
        cpu.with_state(cpu.state_of()) == cpu,
{
}

/// A micro-step's bus access, stated from a bus whose memory equals the
/// one it started on, holds from that bus too.
proof fn lemma_micro_bus_from<B: AddressBus + ?Sized>(s: M6502Cpu, t: M6502Cpu, b0: &B, b1: &B, b2: &B, ok: bool)
    requires
        memory_kept(b0, b1),
        s.micro_cycle_bus(t, b1, b2, ok),
    ensures
        s.micro_cycle_bus(t, b0, b2, ok),
{
    reveal(M6502Cpu::micro_cycle_bus);
    lemma_accesses_from_kept(b0, b1, b2);
    assert(read_at(b1, b2, s.pc, t.temp_addr_low) ==> read_at(b0, b2, s.pc, t.temp_addr_low));
}

/// A byte difference: its bit 7 is set exactly when the difference taken
/// modulo 256 is 128 or more, and it is zero exactly when the two are equal.
proof fn lemma_byte_difference(r: u8, v: u8)
    ensures
        (r.wrapping_sub(v) & 0x80 != 0) == ((r as int - v as int) % 256 >= 128),
        (r.wrapping_sub(v) == 0) == (r == v),
{
    lemma_add_bits(0, 0, r.wrapping_sub(v));
}

/// CMP, CPX and CPY compare a register with the operand as unsigned bytes:
/// carry is set when the operand is not above the register, zero when the
/// two are equal, negative from bit 7 of their difference; no register and
/// no other flag changes.
pub proof fn lemma_compare_flags(cpu: M6502Cpu, v: u8)
    ensures
        ({
            let r = cpu.after_op(Operation::Cmp, v);
            &&& r.status.carry == (v <= cpu.a)
            &&& r.status.zero == (cpu.a == v)
            &&& r.status.negative == ((cpu.a as int - v as int) % 256 >= 128)
            &&& r.a == cpu.a && r.x == cpu.x && r.y == cpu.y && r.sp == cpu.sp && r.pc == cpu.pc
            &&& r.status.overflow == cpu.status.overflow && r.status.decimal == cpu.status.decimal
            &&& r.status.interrupt_disable == cpu.status.interrupt_disable
        }),
        ({
            let r = cpu.after_op(Operation::Cpx, v);
            &&& r.status.carry == (v <= cpu.x)
            &&& r.status.zero == (cpu.x == v)
            &&& r.status.negative == ((cpu.x as int - v as int) % 256 >= 128)
            &&& r.a == cpu.a && r.x == cpu.x && r.y == cpu.y && r.sp == cpu.sp && r.pc == cpu.pc
            &&& r.status.overflow == cpu.status.overflow
        }),
        ({
            let r = cpu.after_op(Operation::Cpy, v);
            &&& r.status.carry == (v <= cpu.y)
            &&& r.status.zero == (cpu.y == v)
            &&& r.status.negative == ((cpu.y as int - v as int) % 256 >= 128)
            &&& r.a == cpu.a && r.x == cpu.x && r.y == cpu.y && r.sp == cpu.sp && r.pc == cpu.pc
            &&& r.status.overflow == cpu.status.overflow
        }),
{
    reveal(M6502Cpu::after_op);
    lemma_byte_difference(cpu.a, v);
    lemma_byte_difference(cpu.x, v);
    lemma_byte_difference(cpu.y, v);
}

/// A byte read as a two's-complement number.
pub open spec fn signed_byte(b: u8) -> int {
    if b >= 128 { b - 256 } else { b as int }
}

/// Byte facts behind the binary add: bit 7 is the sign, and the overflow
/// expression holds exactly when both inputs share a sign the result lacks.
proof fn lemma_add_bits(a: u8, v: u8, r: u8)
    by (bit_vector)
    ensures
        ((!(a ^ v) & (a ^ r) & 0x80) != 0) == ((a >= 128) == (v >= 128) && (r >= 128) != (a >= 128)),
        (r & 0x80 != 0) == (r >= 128),
        v ^ 0xFF == 255 - v,
{
}

/// Binary ADC (no BCD, or D clear): A becomes A + v + C modulo 256; carry
/// is set exactly when the true sum exceeds 255, overflow exactly when the
/// signed sum leaves -128..127, zero and negative from the new A; no other
/// register changes.
#[verifier::spinoff_prover]
#[verifier::rlimit(100)]
pub proof fn lemma_adc_binary(cpu: M6502Cpu, v: u8)
    requires
        !(cpu.config.has_bcd && cpu.status.decimal),
    ensures
        ({
            let c: int = if cpu.status.carry { 1 } else { 0 };
            let r = cpu.after_op(Operation::Adc, v);
            let sum = signed_byte(cpu.a) + signed_byte(v) + c;
            &&& r.a == (cpu.a + v + c) % 256
            &&& r.status.carry == (cpu.a + v + c > 255)
            &&& r.status.overflow == !(-128 <= sum <= 127)
            &&& r.status.zero == (r.a == 0) && r.status.negative == (r.a >= 128)
            &&& r.x == cpu.x && r.y == cpu.y && r.sp == cpu.sp && r.pc == cpu.pc
            &&& r.status.decimal == cpu.status.decimal && r.status.interrupt_disable == cpu.status.interrupt_disable
        }),
{
    reveal(M6502Cpu::after_op);
    reveal(adc);
    let c: int = if cpu.status.carry { 1 } else { 0 };
    let sum1: int = cpu.a + v + c;
    crate::bits::lemma_u16_low_byte(sum1 as u16);
    let na1: u8 = (sum1 as u16) as u8;
    lemma_add_bits(cpu.a, v, na1);
}

/// Binary SBC (no BCD, or D clear): A becomes A - v - (1 - C) modulo 256;
/// carry is set exactly when no borrow is needed, overflow exactly when the
/// signed difference leaves -128..127, zero and negative from the new A; no
/// other register changes.
#[verifier::spinoff_prover]
#[verifier::rlimit(100)]
pub proof fn lemma_sbc_binary(cpu: M6502Cpu, v: u8)
    requires
        !(cpu.config.has_bcd && cpu.status.decimal),
    ensures
        ({
            let c: int = if cpu.status.carry { 1 } else { 0 };
            let r = cpu.after_op(Operation::Sbc, v);
            let diff = signed_byte(cpu.a) - signed_byte(v) - (1 - c);
            &&& r.a == (cpu.a - v - (1 - c)) % 256
            &&& r.status.carry == (cpu.a - v - (1 - c) >= 0)
            &&& r.status.overflow == !(-128 <= diff <= 127)
            &&& r.status.zero == (r.a == 0) && r.status.negative == (r.a >= 128)
            &&& r.x == cpu.x && r.y == cpu.y && r.sp == cpu.sp && r.pc == cpu.pc
        }),
{
    reveal(M6502Cpu::after_op);
    reveal(adc);
    let c: int = if cpu.status.carry { 1 } else { 0 };
    let w: u8 = v ^ 0xFF;
    let sum2: int = cpu.a + w + c;
    crate::bits::lemma_u16_low_byte(sum2 as u16);
    let na2: u8 = (sum2 as u16) as u8;
    lemma_add_bits(cpu.a, w, na2);
    lemma_add_bits(cpu.a, v, na2);
    assert(w == 255 - v);
}

/// Loads, increments and decrements: LDA/LDX/LDY copy the operand into the
/// register, INX/INY/DEX/DEY step the register by one modulo 256, INC/DEC
/// and those set zero and negative from the new value.
pub proof fn lemma_loads_and_steps(cpu: M6502Cpu, v: u8)
    ensures
        cpu.after_op(Operation::Lda, v).a == v && cpu.after_op(Operation::Ldx, v).x == v
            && cpu.after_op(Operation::Ldy, v).y == v,
        cpu.after_op(Operation::Lda, v).status.zero == (v == 0) && cpu.after_op(Operation::Lda, v).status.negative == (v >= 128),
        cpu.after_op(Operation::Lda, v).x == cpu.x && cpu.after_op(Operation::Lda, v).y == cpu.y,
        cpu.after_op(Operation::Inx, v).x == (cpu.x + 1) % 256 && cpu.after_op(Operation::Iny, v).y == (cpu.y + 1) % 256,
        cpu.after_op(Operation::Dex, v).x == (cpu.x - 1) % 256 && cpu.after_op(Operation::Dey, v).y == (cpu.y - 1) % 256,
        cpu.after_op(Operation::Inx, v).status.zero == (cpu.x == 255),
        cpu.after_op(Operation::Dex, v).status.zero == (cpu.x == 1),
        cpu.after_op(Operation::Inc, v).status.zero == (v == 255) && cpu.after_op(Operation::Dec, v).status.zero == (v == 1),
        cpu.after_op(Operation::Inc, v).status.negative == ((v + 1) % 256 >= 128),
        cpu.after_op(Operation::Dec, v).status.negative == ((v - 1) % 256 >= 128),
{
    reveal(M6502Cpu::after_op);
    lemma_add_bits(0, 0, v);
    lemma_add_bits(0, 0, v.wrapping_add(1));
    lemma_add_bits(0, 0, v.wrapping_sub(1));
}

/// Accumulator shifts and rotates (the operand being A): ASL doubles A
/// modulo 256, LSR halves it, ROL doubles it and adds the old carry, ROR
/// halves it and adds 128 for the old carry; the new carry is the bit
/// shifted out.
pub proof fn lemma_accumulator_shifts(cpu: M6502Cpu)
    requires
        cpu.current_mode == AddressingMode::Accumulator,
    ensures
        ({
            let a = cpu.a;
            let c: int = if cpu.status.carry { 1 } else { 0 };
            &&& cpu.after_op(Operation::Asl, a).status.carry == (a >= 128)
            &&& cpu.after_op(Operation::Asl, a).a == (a * 2) % 256
            &&& cpu.after_op(Operation::Lsr, a).a == a / 2 && cpu.after_op(Operation::Lsr, a).status.carry == (a % 2 == 1)
            &&& cpu.after_op(Operation::Rol, a).a == (a * 2 + c) % 256 && cpu.after_op(Operation::Rol, a).status.carry == (a >= 128)
            &&& cpu.after_op(Operation::Ror, a).a == a / 2 + 128 * c && cpu.after_op(Operation::Ror, a).status.carry == (a % 2 == 1)
        }),
{
    reveal(M6502Cpu::after_op);
    let a = cpu.a;
    assert((a << 1u8) == (a * 2) % 256 && (a >> 1u8) == a / 2 && ((a & 0x80) != 0) == (a >= 128)
        && ((a & 0x01) != 0) == (a % 2 == 1) && ((a << 1u8) | 0x01) == (a * 2 + 1) % 256
        && ((a >> 1u8) | 0x80) == a / 2 + 128) by (bit_vector);
}

/// The flag instructions set or clear exactly their flag.
pub proof fn lemma_flag_instructions(cpu: M6502Cpu, v: u8)
    ensures
        cpu.after_op(Operation::Sec, v).status == (StatusFlags { carry: true, ..cpu.status }),
        cpu.after_op(Operation::Clc, v).status == (StatusFlags { carry: false, ..cpu.status }),
        cpu.after_op(Operation::Sei, v).status == (StatusFlags { interrupt_disable: true, ..cpu.status }),
        cpu.after_op(Operation::Cli, v).status == (StatusFlags { interrupt_disable: false, ..cpu.status }),
        cpu.after_op(Operation::Sed, v).status == (StatusFlags { decimal: true, ..cpu.status }),
        cpu.after_op(Operation::Cld, v).status == (StatusFlags { decimal: false, ..cpu.status }),
        cpu.after_op(Operation::Clv, v).status == (StatusFlags { overflow: false, ..cpu.status }),
{
    reveal(M6502Cpu::after_op);
}

} // verus!
