use vstd::prelude::*;
use crate::mimesys::gameboy::gb_bus::{Bus, gb_read_at, gb_written_at, gb_memory_kept};
use crate::mimesys::gameboy::gb_common::{GbVariant, GbCpuConfig, config_for};

verus! {

pub const FLAG_Z: u8 = 0x80;
pub const FLAG_N: u8 = 0x40;
pub const FLAG_H: u8 = 0x20;
pub const FLAG_C: u8 = 0x10;

#[derive(Clone, Copy, PartialEq, Eq, Structural)]
pub enum Reg { B, C, D, E, H, L, MemHL, A }

#[derive(Clone, Copy, PartialEq, Eq, Structural)]
pub enum Reg16 { BC, DE, HL, SP }

#[derive(Clone, Copy, PartialEq, Eq, Structural)]
pub enum Reg16Stk { BC, DE, HL, AF }

#[derive(Clone, Copy, PartialEq, Eq, Structural)]
pub enum Reg16Mem { BC, DE, HLI, HLD }

#[derive(Clone, Copy, PartialEq, Eq, Structural)]
pub enum Condition { NZ, Z, NC, C }

#[derive(Clone, Copy, PartialEq, Eq, Structural)]
pub enum AluOp { Add, Adc, Sub, Sbc, And, Xor, Or, Cp }

#[derive(Clone, Copy, PartialEq, Eq, Structural)]
pub enum CbOp { Rlc, Rrc, Rl, Rr, Sla, Sra, Swap, Srl, Bit, Res, SetBit }

pub open spec fn condition_of(i: u8) -> Condition {
    match i & 3 {
        0 => Condition::NZ,
        1 => Condition::Z,
        2 => Condition::NC,
        _ => Condition::C,
    }
}

pub open spec fn reg_of(i: u8) -> Reg {
    match i & 7 {
        0 => Reg::B, 1 => Reg::C, 2 => Reg::D, 3 => Reg::E,
        4 => Reg::H, 5 => Reg::L, 6 => Reg::MemHL, _ => Reg::A,
    }
}

pub open spec fn reg16_of(i: u8) -> Reg16 {
    match i & 3 {
        0 => Reg16::BC, 1 => Reg16::DE, 2 => Reg16::HL, _ => Reg16::SP,
    }
}

pub open spec fn reg16stk_of(i: u8) -> Reg16Stk {
    match i & 3 {
        0 => Reg16Stk::BC, 1 => Reg16Stk::DE, 2 => Reg16Stk::HL, _ => Reg16Stk::AF,
    }
}

pub open spec fn aluop_of(i: u8) -> AluOp {
    match i & 7 {
        0 => AluOp::Add, 1 => AluOp::Adc, 2 => AluOp::Sub,
        3 => AluOp::Sbc, 4 => AluOp::And, 5 => AluOp::Xor,
        6 => AluOp::Or, _ => AluOp::Cp,
    }
}

impl Condition {
    pub fn from_index(i: u8) -> (r: Condition)
        ensures
            r == condition_of(i),
    {
        match i & 3 {
            0 => Condition::NZ,
            1 => Condition::Z,
            2 => Condition::NC,
            _ => Condition::C,
        }
    }
}

impl Reg {
    pub fn from_index(i: u8) -> (r: Reg)
        ensures
            r == reg_of(i),
    {
        match i & 7 {
            0 => Reg::B, 1 => Reg::C, 2 => Reg::D, 3 => Reg::E,
            4 => Reg::H, 5 => Reg::L, 6 => Reg::MemHL, _ => Reg::A,
        }
    }
}

impl Reg16 {
    pub fn from_index(i: u8) -> (r: Reg16)
        ensures
            r == reg16_of(i),
    {
        match i & 3 {
            0 => Reg16::BC, 1 => Reg16::DE, 2 => Reg16::HL, _ => Reg16::SP,
        }
    }
}

impl Reg16Stk {
    pub fn from_index(i: u8) -> (r: Reg16Stk)
        ensures
            r == reg16stk_of(i),
    {
        match i & 3 {
            0 => Reg16Stk::BC,
            1 => Reg16Stk::DE,
            2 => Reg16Stk::HL,
            _ => Reg16Stk::AF,
        }
    }
}

impl AluOp {
    pub fn from_index(i: u8) -> (r: AluOp)
        ensures
            r == aluop_of(i),
    {
        match i & 7 {
            0 => AluOp::Add, 1 => AluOp::Adc, 2 => AluOp::Sub,
            3 => AluOp::Sbc, 4 => AluOp::And, 5 => AluOp::Xor,
            6 => AluOp::Or, _ => AluOp::Cp,
        }
    }
}

#[derive(Clone, Copy, PartialEq, Eq, Structural)]
pub struct CbInstruction {
    pub op: CbOp,
    pub bit: u8,
    pub target: Reg,
}

#[derive(Clone, Copy, PartialEq, Eq, Structural)]
pub enum Instruction {
    Nop,
    DI,
    EI,
    AddHlReg16 { src: Reg16 },
    AddSpReg   { src: Reg },
    AddSpE8,
    AluReg     { op: AluOp, src: Reg },
    AluImm     { op: AluOp },
    BitAnd     { src: Reg },
    BitOr      { src: Reg },
    BitXor     { src: Reg },
    BitAndImm,
    BitOrImm,
    BitXorImm,
    Call       { cond: Option<Condition> },
    CbPrefix,
    Cb(CbInstruction),
    Ccf,
    Cpl,
    Daa,
    DecReg16   { dst: Reg16 },
    DecReg     { dst: Reg },
    Halt,
    IncReg16   { dst: Reg16 },
    IncReg     { dst: Reg },
    Interrupt,
    Jp         { cond: Option<Condition> },
    JpHl,
    Jr         { cond: Option<Condition> },
    LdRegReg   { dst: Reg, src: Reg },
    LdRegImm   { dst: Reg },
    LdReg16Imm { dst: Reg16 },
    LdAcc,
    LdhAcc,
    LdFromAcc,
    LdhFromAcc,
    LdHlSpE8,
    LdFromSp,
    LdSpHl,
    LdAIndC,
    LdhCIndA,
    LdRegMem   { dst: Reg },
    LdR16MemA  { dst: Reg16Mem },
    LdAR16Mem  { src: Reg16Mem },
    Push       { dst: Reg16Stk },
    Pop        { dst: Reg16Stk },
    Ret        { cond: Option<Condition> },
    Rlca,
    Rla,
    Reti,
    Rra,
    Rrca,
    Rst        { addr: u16 },
    Scf,
    Stop,
    Unknown(u8),
}

impl Instruction {
    /// Instructions that the decoder never produces from an opcode byte.
    pub open spec fn never_decoded(self) -> bool {
        ||| self is AddSpReg
        ||| self is BitAnd
        ||| self is BitOr
        ||| self is BitXor
        ||| self is BitAndImm
        ||| self is BitOrImm
        ||| self is BitXorImm
        ||| self is Interrupt
        ||| self is LdRegMem
        ||| self is Cb
        ||| self is Unknown
    }
}

impl Default for Instruction {
    fn default() -> (r: Self)
        ensures
            r == Instruction::Nop,
    {
        Instruction::Nop
    }
}

/// The main opcode table (the 0xCB page is decoded by `decode_cb_spec`).
pub open spec fn decode_spec(op: u8) -> Instruction {
    match op {

            0x00 => Instruction::Nop,
            0x01|0x11|0x21|0x31 => {
                let dst = reg16_of((op >> 4u8) & 3);
                Instruction::LdReg16Imm { dst }
            },
            0x02 => {
                let dst = Reg16Mem::BC;
                Instruction::LdR16MemA { dst }
            }
            0x03|0x13|0x23|0x33 => {
                let dst = reg16_of((op >> 4u8) & 3);
                Instruction::IncReg16 { dst }
            },
            0x04|0x0C|0x14|0x1C|0x24|0x2C|0x34|0x3C => {
                let dst = reg_of((op >> 3u8) & 7);
                Instruction::IncReg { dst }
            },
            0x05|0x0D|0x15|0x1D|0x25|0x2D|0x35|0x3D => {
                let dst = reg_of((op >> 3u8) & 7);
                Instruction::DecReg { dst }
            },
            0x06|0x0E|0x16|0x1E|0x26|0x2E|0x36|0x3E => {
                let dst = reg_of((op >> 3u8) & 7);
                Instruction::LdRegImm { dst }
            },
            0x07 => Instruction::Rlca,
            0x08 => Instruction::LdFromSp,
            0x09 => Instruction::AddHlReg16 { src: Reg16::BC },
            0x0A => {
                let src = Reg16Mem::BC;
                Instruction::LdAR16Mem { src }
            },
            0x0B|0x1B|0x2B|0x3B => {
                let dst = reg16_of((op >> 4u8) & 3);
                Instruction::DecReg16 { dst }
            },
            0x0F => Instruction::Rrca,
            0x10 => Instruction::Stop,
            0x12 => {
                let dst = Reg16Mem::DE;
                Instruction::LdR16MemA { dst }
            }
            0x17 => Instruction::Rla,
            0x18 => Instruction::Jr { cond: None },
            0x19 => Instruction::AddHlReg16 { src: Reg16::DE },
            0x1A => {
                let src = Reg16Mem::DE;
                Instruction::LdAR16Mem { src }
            },
            0x1F => Instruction::Rra,
            0x20|0x28|0x30|0x38 => Instruction::Jr {
                cond: Some(condition_of((op >> 3u8) & 3)),
            },
            0x22 => {
                let dst = Reg16Mem::HLI;
                Instruction::LdR16MemA { dst }
            }
            0x27 => Instruction::Daa,
            0x29 => Instruction::AddHlReg16 { src: Reg16::HL },
            0x2A => {
                let src = Reg16Mem::HLI;
                Instruction::LdAR16Mem { src }
            },
            0x2F => Instruction::Cpl,
            0x32 => {
                let dst = Reg16Mem::HLD;
                Instruction::LdR16MemA { dst }
            }
            0x37 => Instruction::Scf,
            0x39 => Instruction::AddHlReg16 { src: Reg16::SP },
            0x3A => {
                let src = Reg16Mem::HLD;
                Instruction::LdAR16Mem { src }
            },
            0x3F => Instruction::Ccf,
            0x76 => Instruction::Halt,   
            op7 if 0x40 <= op7 && op7 <= 0x7F => {
                let dst = reg_of((op >> 3u8) & 7);
                let src = reg_of(op & 7);
                Instruction::LdRegReg { dst, src }
            },
            opb if 0x80 <= opb && opb <= 0xBF => {
                let alu = aluop_of((op >> 3u8) & 7);
                let src = reg_of(op & 7);
                Instruction::AluReg { op: alu, src }
            },
            0xC0|0xC8|0xD0|0xD8 => {
                let cond = Some(condition_of((op >> 3u8) & 3));
                Instruction::Ret { cond }
            },
            0xC1|0xD1|0xE1|0xF1 => {
                let dst = reg16stk_of((op >> 4u8) & 3);
                Instruction::Pop { dst }
            },
            0xC2|0xCA|0xD2|0xDA => {
                let cond = Some(condition_of((op >> 3u8) & 3));
                Instruction::Jp { cond }
            },
            0xC3 => Instruction::Jp { cond: None },
            0xC4|0xD4|0xCC|0xDC => {
                let cond = Some(condition_of((op >> 3u8) & 3));
                Instruction::Call { cond }
            },
            0xC5|0xD5|0xE5|0xF5 => {
                let dst = reg16stk_of((op >> 4u8) & 3);
                Instruction::Push { dst }
            },
            0xC6 => Instruction::AluImm { op: AluOp::Add },
            0xC7 => Instruction::Rst { addr: 0x0000 },
            0xC9 => Instruction::Ret { cond: None },
            0xCB => Instruction::CbPrefix,
            0xCD => Instruction::Call { cond: None },
            0xCE => Instruction::AluImm { op: AluOp::Adc },
            0xCF => Instruction::Rst { addr: 0x0008 },
            0xD6 => Instruction::AluImm { op: AluOp::Sub },
            0xD7 => Instruction::Rst { addr: 0x0010 },
            0xD9 => Instruction::Reti,
            0xDE => Instruction::AluImm { op: AluOp::Sbc },
            0xDF => Instruction::Rst { addr: 0x0018 },
            0xE0 => Instruction::LdhFromAcc,
            0xE2 => Instruction::LdhCIndA,
            0xE6 => Instruction::AluImm { op: AluOp::And },
            0xE7 => Instruction::Rst { addr: 0x0020 },
            0xE8 => Instruction::AddSpE8,
            0xE9 => Instruction::JpHl,
            0xEA => Instruction::LdFromAcc,
            0xEE => Instruction::AluImm { op: AluOp::Xor },
            0xEF => Instruction::Rst { addr: 0x0028 },
            0xF0 => Instruction::LdhAcc,
            0xF2 => Instruction::LdAIndC,
            0xF3 => Instruction::DI,
            0xF6 => Instruction::AluImm { op: AluOp::Or  },
            0xF7 => Instruction::Rst { addr: 0x0030 },
            0xF8 => Instruction::LdHlSpE8,
            0xF9 => Instruction::LdSpHl,
            0xFA => Instruction::LdAcc,
            0xFB => Instruction::EI,
            0xFE => Instruction::AluImm { op: AluOp::Cp  },
            0xFF => Instruction::Rst { addr: 0x0038 },

        _ => Instruction::Unknown(op),
    }
}

/// The 0xCB page: bits 0-2 select the target, bits 3-5 the bit or the shift
/// kind, bits 6-7 the group.
pub open spec fn decode_cb_spec(opcode: u8) -> CbInstruction {
    let y = (opcode >> 3u8) & 7;
    let op = match opcode >> 6u8 {
        0 => match y {
            0 => CbOp::Rlc, 1 => CbOp::Rrc, 2 => CbOp::Rl, 3 => CbOp::Rr,
            4 => CbOp::Sla, 5 => CbOp::Sra, 6 => CbOp::Swap, _ => CbOp::Srl,
        },
        1 => CbOp::Bit,
        2 => CbOp::Res,
        _ => CbOp::SetBit,
    };
    CbInstruction { op, bit: y, target: reg_of(opcode & 7) }
}

/// The flag byte Z N H C (low nibble zero).
pub open spec fn flag_byte(z: bool, n: bool, h: bool, c: bool) -> u8 {
    (if z { 0x80u8 } else { 0u8 }) | (if n { 0x40u8 } else { 0u8 }) | (if h { 0x20u8 } else { 0u8 })
        | (if c { 0x10u8 } else { 0u8 })
}

pub proof fn lemma_flag_byte(z: bool, n: bool, h: bool, c: bool)
    by (bit_vector)
    ensures
        flag_byte(z, n, h, c) & 0xF0 == flag_byte(z, n, h, c),
        (flag_byte(z, n, h, c) & 0x80 != 0) == z,
        (flag_byte(z, n, h, c) & 0x40 != 0) == n,
        (flag_byte(z, n, h, c) & 0x20 != 0) == h,
        (flag_byte(z, n, h, c) & 0x10 != 0) == c,
{
}

/// The accumulator and flag byte after an 8-bit ALU operation on `a` and `v`
/// with flag byte `f` (CP leaves the accumulator alone).
pub open spec fn alu_spec(op: AluOp, a: u8, f: u8, v: u8) -> (u8, u8) {
    let cin: u8 = if f & 0x10 != 0 { 1 } else { 0 };
    match op {
        AluOp::Add => {
            let res = a.wrapping_add(v);
            (res, flag_byte(res == 0, false, (a & 0x0F) + (v & 0x0F) > 0x0F, a + v > 0xFF))
        },
        AluOp::Adc => {
            let full: int = a + v + cin;
            let res = (full as u16) as u8;
            (res, flag_byte(res == 0, false, (a & 0x0F) + (v & 0x0F) + cin > 0x0F, full > 0xFF))
        },
        AluOp::Sub => {
            let res = a.wrapping_sub(v);
            (res, flag_byte(res == 0, true, (a & 0x0F) < (v & 0x0F), a < v))
        },
        AluOp::Cp => {
            let res = a.wrapping_sub(v);
            (a, flag_byte(res == 0, true, (a & 0x0F) < (v & 0x0F), a < v))
        },
        AluOp::Sbc => {
            let res = a.wrapping_sub(v).wrapping_sub(cin);
            (res, flag_byte(res == 0, true, (a & 0x0F) < (v & 0x0F) + cin, a < v + cin))
        },
        AluOp::And => (a & v, flag_byte((a & v) == 0, false, true, false)),
        AluOp::Xor => (a ^ v, flag_byte((a ^ v) == 0, false, false, false)),
        AluOp::Or => (a | v, flag_byte((a | v) == 0, false, false, false)),
    }
}

/// Result and flags of a rotate, shift or swap: Z from the result, carry
/// from the bit shifted out.
pub open spec fn shifted(result: u8, carry: bool) -> (Option<u8>, u8) {
    (Some(result), flag_byte(result == 0, false, false, carry))
}

/// A 0xCB operation on `v` with flag byte `f`: the value to write back
/// (`None` for BIT) and the new flag byte.
pub open spec fn cb_spec(cb: CbInstruction, f: u8, v: u8) -> (Option<u8>, u8) {
    let old_c: u8 = if f & 0x10 != 0 { 1 } else { 0 };
    match cb.op {
        CbOp::Rlc => shifted((v << 1u8) | (v >> 7u8), v & 0x80 != 0),
        CbOp::Rrc => shifted((v >> 1u8) | (v << 7u8), v & 0x01 != 0),
        CbOp::Rl => shifted((v << 1u8) | old_c, v & 0x80 != 0),
        CbOp::Rr => shifted((v >> 1u8) | (old_c << 7u8), v & 0x01 != 0),
        CbOp::Sla => shifted(v << 1u8, v & 0x80 != 0),
        CbOp::Sra => shifted((v >> 1u8) | (v & 0x80), v & 0x01 != 0),
        CbOp::Swap => shifted((v << 4u8) | (v >> 4u8), false),
        CbOp::Srl => shifted(v >> 1u8, v & 0x01 != 0),
        CbOp::Bit => (None, flag_byte((v & (1u8 << cb.bit)) == 0, false, true, f & 0x10 != 0)),
        CbOp::Res => (Some(v & !(1u8 << cb.bit)), f),
        CbOp::SetBit => (Some(v | (1u8 << cb.bit)), f),
    }
}

pub open spec fn pair(hi: u8, lo: u8) -> u16 {
    ((hi as u16) << 8u16) | (lo as u16)
}

pub struct GameBoyCpu {
    pub a: u8, pub f: u8,
    pub b: u8, pub c: u8,
    pub d: u8, pub e: u8,
    pub h: u8, pub l: u8,
    pub sp: u16,
    pub pc: u16,
    pub current_opcode: u8,
    pub instruction_step: u8,
    pub current_lsb: u8,
    pub current_msb: u8,
    pub current_value: u8,
    pub cb_prefixed: bool,
    pub halted: bool,
    pub stopped: bool,
    pub halt_bug: bool,
    pub ime: bool,
    pub ime_pending: bool,
    pub config: GbCpuConfig,
    pub current: Instruction,
    pub double_speed: bool,
    pub variant: GbVariant,
}

/// Why an M-cycle could not run.
#[derive(Clone, Copy, PartialEq, Eq, Structural)]
pub enum GbCpuError {
    /// The fetched opcode is not an SM83 instruction.
    UnimplementedOpcode(u8),
}


/// DAA: the decimal adjustment of `a` after an addition or subtraction, as
/// recorded in the flag byte `f`.
pub open spec fn daa_spec(a: u8, f: u8) -> (u8, u8) {
    let n = f & 0x40 != 0;
    let adj_lo: u8 = if f & 0x20 != 0 || (!n && (a & 0x0F) > 0x09) { 0x06 } else { 0 };
    let hi = f & 0x10 != 0 || (!n && a > 0x99);
    let adjust: u8 = if hi { adj_lo | 0x60 } else { adj_lo };
    let na = if n { a.wrapping_sub(adjust) } else { a.wrapping_add(adjust) };
    (na, flag_byte(na == 0, n, false, hi))
}

/// Whether the fetch cycle alone completes the instruction.
pub open spec fn completes_at_fetch(i: Instruction) -> bool {
    match i {
        Instruction::CbPrefix | Instruction::Cpl | Instruction::Nop | Instruction::EI | Instruction::DI
        | Instruction::Halt | Instruction::Ccf | Instruction::Daa | Instruction::JpHl | Instruction::Rlca
        | Instruction::Rla | Instruction::Rra | Instruction::Rrca | Instruction::Scf => true,
        Instruction::AluReg { src, .. } => src != Reg::MemHL,
        Instruction::IncReg { dst } => dst != Reg::MemHL,
        Instruction::DecReg { dst } => dst != Reg::MemHL,
        Instruction::LdRegReg { dst, src } => dst != Reg::MemHL && src != Reg::MemHL,
        _ => false,
    }
}

/// Instructions the fetch cycle has no handler for.
pub open spec fn fetch_unhandled(i: Instruction) -> bool {
    ||| i is AddSpReg
    ||| i is BitAnd
    ||| i is BitOr
    ||| i is BitXor
    ||| i is BitAndImm
    ||| i is BitOrImm
    ||| i is BitXorImm
    ||| i is Interrupt
    ||| i is LdRegMem
    ||| i is Unknown
}

pub fn pack_flags(z: bool, n: bool, h: bool, c: bool) -> (r: u8)
    ensures
        r == flag_byte(z, n, h, c),
{
    (if z { 0x80u8 } else { 0u8 }) | (if n { 0x40u8 } else { 0u8 }) | (if h { 0x20u8 } else { 0u8 })
        | (if c { 0x10u8 } else { 0u8 })
}

impl GameBoyCpu {
    pub open spec fn reg_value(self, r: Reg) -> u8 {
        match r {
            Reg::B => self.b,
            Reg::C => self.c,
            Reg::D => self.d,
            Reg::E => self.e,
            Reg::H => self.h,
            Reg::L => self.l,
            Reg::A => self.a,
            Reg::MemHL => 0,
        }
    }

    pub open spec fn with_reg(self, r: Reg, v: u8) -> Self {
        match r {
            Reg::B => GameBoyCpu { b: v, ..self },
            Reg::C => GameBoyCpu { c: v, ..self },
            Reg::D => GameBoyCpu { d: v, ..self },
            Reg::E => GameBoyCpu { e: v, ..self },
            Reg::H => GameBoyCpu { h: v, ..self },
            Reg::L => GameBoyCpu { l: v, ..self },
            Reg::A => GameBoyCpu { a: v, ..self },
            Reg::MemHL => self,
        }
    }

    pub open spec fn bc_value(self) -> u16 {
        pair(self.b, self.c)
    }

    pub open spec fn de_value(self) -> u16 {
        pair(self.d, self.e)
    }

    pub open spec fn hl_value(self) -> u16 {
        pair(self.h, self.l)
    }

    pub open spec fn af_value(self) -> u16 {
        pair(self.a, self.f)
    }

    pub open spec fn reg16_value(self, rr: Reg16) -> u16 {
        match rr {
            Reg16::BC => self.bc_value(),
            Reg16::DE => self.de_value(),
            Reg16::HL => self.hl_value(),
            Reg16::SP => self.sp,
        }
    }

    pub open spec fn with_reg16(self, rr: Reg16, v: u16) -> Self {
        match rr {
            Reg16::BC => GameBoyCpu { b: (v >> 8u16) as u8, c: v as u8, ..self },
            Reg16::DE => GameBoyCpu { d: (v >> 8u16) as u8, e: v as u8, ..self },
            Reg16::HL => GameBoyCpu { h: (v >> 8u16) as u8, l: v as u8, ..self },
            Reg16::SP => GameBoyCpu { sp: v, ..self },
        }
    }

    pub open spec fn reg16stk_value(self, rr: Reg16Stk) -> u16 {
        match rr {
            Reg16Stk::BC => self.bc_value(),
            Reg16Stk::DE => self.de_value(),
            Reg16Stk::HL => self.hl_value(),
            Reg16Stk::AF => self.af_value(),
        }
    }

    pub open spec fn with_reg16stk(self, rr: Reg16Stk, v: u16) -> Self {
        match rr {
            Reg16Stk::BC => GameBoyCpu { b: (v >> 8u16) as u8, c: v as u8, ..self },
            Reg16Stk::DE => GameBoyCpu { d: (v >> 8u16) as u8, e: v as u8, ..self },
            Reg16Stk::HL => GameBoyCpu { h: (v >> 8u16) as u8, l: v as u8, ..self },
            Reg16Stk::AF => GameBoyCpu { a: (v >> 8u16) as u8, f: (v as u8) & 0xF0, ..self },
        }
    }

    pub open spec fn condition_holds(self, cond: Condition) -> bool {
        match cond {
            Condition::NZ => (self.f & 0x80) == 0,
            Condition::Z => (self.f & 0x80) != 0,
            Condition::NC => (self.f & 0x10) == 0,
            Condition::C => (self.f & 0x10) != 0,
        }
    }

    /// The CPU once a pending interrupt has ended HALT (unchanged if it was
    /// not halted).
    pub open spec fn woken(self) -> Self {
        GameBoyCpu { halted: false, ..self }
    }

    /// The CPU once opcode `op` has been fetched: a pending EI takes effect,
    /// and PC moves past the opcode unless the HALT bug holds it back.
    pub open spec fn opcode_fetched(self, op: u8) -> Self {
        GameBoyCpu {
            ime: self.ime || self.ime_pending,
            ime_pending: false,
            pc: if self.halt_bug { self.pc } else { self.pc.wrapping_add(1) },
            halt_bug: false,
            current_opcode: op,
            ..self
        }
    }

    /// The CPU after the opcode-fetch M-cycle (`t` from `self`, `ok` when no
    /// error came), with `t.current_opcode` the byte fetched: a CB-prefixed
    /// opcode is decoded from the CB table, the prefix itself only arms it,
    /// an unknown opcode fails, HALT halts (or arms the HALT bug), and every
    /// other instruction runs its fetch-cycle effect and goes on at step 1
    /// unless it completes there.
    pub open spec fn fetch_effect(self, t: Self, ok: bool) -> bool {
        let f = self.opcode_fetched(t.current_opcode);
        let cur = decode_spec(t.current_opcode);
        if self.cb_prefixed {
            ok && t.pc == f.pc && t.current == Instruction::Cb(decode_cb_spec(t.current_opcode)) && !t.cb_prefixed
        } else if t.current_opcode == 0xCB {
            ok && t == (GameBoyCpu { current: Instruction::CbPrefix, cb_prefixed: true, ..f })
        } else if cur is Unknown {
            !ok && t.current == cur
        } else if cur is Halt {
            ok && t.current == cur && t.instruction_step == 0 && (t.halted || t.halt_bug)
                && (GameBoyCpu { halted: f.halted, halt_bug: f.halt_bug, ..t }) == (GameBoyCpu { current: cur, ..f })
        } else {
            ok && t == (GameBoyCpu {
                instruction_step: if completes_at_fetch(cur) { 0 } else { 1 },
                ..(GameBoyCpu { current: cur, ..f }).fetch_result()
            })
        }
    }

    /// The effect of the fetch cycle of an instruction that needs no bus
    /// access beyond the opcode fetch (HALT aside, which asks the bus).
    #[verifier::opaque]
    pub open spec fn fetch_result(self) -> Self {
        let zf = self.f & 0x80 != 0;
        let cf = self.f & 0x10 != 0;
        match self.current {
            Instruction::CbPrefix => GameBoyCpu { cb_prefixed: true, ..self },
            Instruction::Cpl => GameBoyCpu { a: !self.a, f: self.f | 0x40 | 0x20, ..self },
            Instruction::EI => GameBoyCpu { ime_pending: true, ..self },
            Instruction::DI => GameBoyCpu { ime: false, ime_pending: false, ..self },
            Instruction::AluReg { op, src } => if src == Reg::MemHL {
                self
            } else {
                let (na, nf) = alu_spec(op, self.a, self.f, self.reg_value(src));
                GameBoyCpu { a: na, f: nf, ..self }
            },
            Instruction::Ccf => GameBoyCpu { f: flag_byte(zf, false, false, !cf), ..self },
            Instruction::Daa => {
                let (na, nf) = daa_spec(self.a, self.f);
                GameBoyCpu { a: na, f: nf, ..self }
            },
            Instruction::IncReg { dst } => if dst == Reg::MemHL {
                self
            } else {
                let v = self.reg_value(dst);
                let res = v.wrapping_add(1);
                GameBoyCpu { f: flag_byte(res == 0, false, v & 0x0F == 0x0F, cf), ..self.with_reg(dst, res) }
            },
            Instruction::DecReg { dst } => if dst == Reg::MemHL {
                self
            } else {
                let v = self.reg_value(dst);
                let res = v.wrapping_sub(1);
                GameBoyCpu { f: flag_byte(res == 0, true, v & 0x0F == 0, cf), ..self.with_reg(dst, res) }
            },
            Instruction::JpHl => GameBoyCpu { pc: self.hl_value(), ..self },
            Instruction::LdRegReg { dst, src } => if dst == Reg::MemHL || src == Reg::MemHL {
                self
            } else {
                self.with_reg(dst, self.reg_value(src))
            },
            Instruction::Rlca => GameBoyCpu {
                a: (self.a << 1u8) | (self.a >> 7u8),
                f: flag_byte(false, false, false, self.a & 0x80 != 0),
                ..self
            },
            Instruction::Rla => GameBoyCpu {
                a: (self.a << 1u8) | (if cf { 1u8 } else { 0u8 }),
                f: flag_byte(false, false, false, self.a & 0x80 != 0),
                ..self
            },
            Instruction::Rra => GameBoyCpu {
                a: (self.a >> 1u8) | (if cf { 0x80u8 } else { 0u8 }),
                f: flag_byte(false, false, false, self.a & 0x01 != 0),
                ..self
            },
            Instruction::Rrca => GameBoyCpu {
                a: (self.a >> 1u8) | (self.a << 7u8),
                f: flag_byte(false, false, false, self.a & 0x01 != 0),
                ..self
            },
            Instruction::Scf => GameBoyCpu { f: flag_byte(zf, false, false, true), ..self },
            _ => self,
        }
    }

    /// Step bookkeeping: no instruction runs past its fifth M-cycle, and a
    /// 0xCB instruction names a bit below 8.
    pub open spec fn wf(self) -> bool {
        &&& self.instruction_step <= 5
        &&& (self.current matches Instruction::Cb(cb) ==> cb.bit < 8)
    }

    pub fn new(variant: GbVariant) -> (r: Self)
        ensures
            r.config == config_for(variant),
            r.variant == variant,
            r.a == config_for(variant).initial_a,
            r.f == config_for(variant).initial_f,
            r.bc_value() == config_for(variant).initial_bc,
            r.de_value() == config_for(variant).initial_de,
            r.hl_value() == config_for(variant).initial_hl,
            r.pc == config_for(variant).initial_pc,
            r.sp == config_for(variant).initial_sp,
            r.double_speed == config_for(variant).supports_double_speed,
            !r.ime && !r.ime_pending && !r.halted && !r.halt_bug && !r.stopped && !r.cb_prefixed,
            r.instruction_step == 0,
            r.current == Instruction::Nop,
            r.wf(),
    {
        let config = GbCpuConfig::for_variant(variant);
        proof {
            crate::bits::lemma_split(config.initial_bc);
            crate::bits::lemma_split(config.initial_de);
            crate::bits::lemma_split(config.initial_hl);
        }
        Self {
            a: config.initial_a,
            b: (config.initial_bc >> 8) as u8,
            c: config.initial_bc as u8,
            d: (config.initial_de >> 8) as u8,
            e: config.initial_de as u8,
            f: config.initial_f,
            h: (config.initial_hl >> 8) as u8,
            l: config.initial_hl as u8,
            pc: config.initial_pc,
            sp: config.initial_sp,
            ime: false,
            ime_pending: false,
            instruction_step: 0,
            current: Instruction::Nop,
            current_msb: 0,
            current_lsb: 0,
            current_opcode: 0,
            current_value: 0,
            halted: false,
            halt_bug: false,
            stopped: false,
            double_speed: config.supports_double_speed,
            cb_prefixed: false,
            config,
            variant,
        }
    }

    pub fn bc(&self) -> (r: u16)
        ensures
            r == self.bc_value(),
    {
        ((self.b as u16) << 8) | self.c as u16
    }

    pub fn set_bc(&mut self, v: u16)
        ensures
            *final(self) == old(self).with_reg16(Reg16::BC, v),
    {
        self.b = (v >> 8) as u8;
        self.c = v as u8;
    }

    pub fn de(&self) -> (r: u16)
        ensures
            r == self.de_value(),
    {
        ((self.d as u16) << 8) | self.e as u16
    }

    pub fn set_de(&mut self, v: u16)
        ensures
            *final(self) == old(self).with_reg16(Reg16::DE, v),
    {
        self.d = (v >> 8) as u8;
        self.e = v as u8;
    }

    pub fn hl(&self) -> (r: u16)
        ensures
            r == self.hl_value(),
    {
        ((self.h as u16) << 8) | self.l as u16
    }

    pub fn set_hl(&mut self, v: u16)
        ensures
            *final(self) == old(self).with_reg16(Reg16::HL, v),
    {
        self.h = (v >> 8) as u8;
        self.l = v as u8;
    }

    pub fn af(&self) -> (r: u16)
        ensures
            r == self.af_value(),
    {
        ((self.a as u16) << 8) | self.f as u16
    }

    /// Loads AF; the low nibble of F does not exist and reads as zero.
    pub fn set_af(&mut self, v: u16)
        ensures
            *final(self) == old(self).with_reg16stk(Reg16Stk::AF, v),
    {
        self.a = (v >> 8) as u8;
        self.f = (v as u8) & 0xF0;
    }

    pub fn check_condition(&self, cond: Condition) -> (r: bool)
        ensures
            r == self.condition_holds(cond),
    {
        match cond {
            Condition::NZ => (self.f & FLAG_Z) == 0,
            Condition::Z => (self.f & FLAG_Z) != 0,
            Condition::NC => (self.f & FLAG_C) == 0,
            Condition::C => (self.f & FLAG_C) != 0,
        }
    }

    /// Reads the byte at PC and advances PC, except right after the HALT bug
    /// fired: then PC stays and the byte is read twice.
    fn fetch_byte<B: Bus + ?Sized>(&mut self, bus: &mut B) -> (r: u8)
        ensures
            *final(self) == (GameBoyCpu {
                pc: if old(self).halt_bug { old(self).pc } else { old(self).pc.wrapping_add(1) },
                halt_bug: false,
                ..*old(self)
            }),
            gb_read_at(old(bus), final(bus), old(self).pc, r),
    {
        let val = bus.read(self.pc);
        if self.halt_bug {
            self.halt_bug = false;
        } else {
            self.pc = self.pc.wrapping_add(1);
        }
        val
    }

    fn pop<B: Bus + ?Sized>(&mut self, bus: &mut B) -> (r: u8)
        ensures
            *final(self) == (GameBoyCpu { sp: old(self).sp.wrapping_add(1), ..*old(self) }),
            gb_read_at(old(bus), final(bus), old(self).sp, r),
    {
        let val = bus.read(self.sp);
        self.sp = self.sp.wrapping_add(1);
        val
    }

    fn push<B: Bus + ?Sized>(&mut self, bus: &mut B, val: u8)
        ensures
            *final(self) == (GameBoyCpu { sp: old(self).sp.wrapping_sub(1), ..*old(self) }),
            gb_written_at(old(bus), final(bus), old(self).sp.wrapping_sub(1), val),
    {
        self.sp = self.sp.wrapping_sub(1);
        bus.write(self.sp, val);
    }

    /// Runs one M-cycle; exactly one bus access (or idle cycle) happens per
    /// call once an instruction is under way.
    pub fn step_one_m_cycle<B: Bus + ?Sized>(&mut self, bus: &mut B) -> (r: Result<(), GbCpuError>)
        requires
            old(self).wf(),
        ensures
            final(self).wf(),
            final(self).config == old(self).config,
            final(self).variant == old(self).variant,
            r is Err ==> final(self).current is Unknown
                && r == Err::<(), GbCpuError>(GbCpuError::UnimplementedOpcode(final(self).current_opcode)),
            (!old(self).halted && old(self).instruction_step > 0 && r is Ok) ==> final(self).current == old(self).current,
            (!old(self).halted && old(self).instruction_step == 0 && old(self).cb_prefixed && r is Ok)
                ==> final(self).current == Instruction::Cb(decode_cb_spec(final(self).current_opcode))
                && !final(self).cb_prefixed,
            (!old(self).halted && old(self).instruction_step == 0 && !old(self).cb_prefixed && !old(self).ime && r is Ok)
                ==> final(self).current == decode_spec(final(self).current_opcode),
            (old(self).halted && old(bus).pending_irqs() == 0) ==> r is Ok && *final(self) == *old(self),
            ({
                let s0 = old(self).woken();
                &&& !old(self).halted || old(bus).pending_irqs() != 0
                &&& s0.instruction_step > 0
            }) ==> r is Ok && micro_ok(
                old(self).woken(),
                GameBoyCpu { instruction_step: old(self).instruction_step, ..*final(self) },
                final(self).instruction_step == 0,
            ) && (final(self).instruction_step == 0 || final(self).instruction_step == old(self).instruction_step + 1),
            (old(self).instruction_step == 0 && !old(self).cb_prefixed && old(self).ime && old(bus).pending_irqs() != 0)
                ==> r is Ok && *final(self) == (GameBoyCpu {
                    ime: false,
                    current: Instruction::Interrupt,
                    instruction_step: 1,
                    ..old(self).woken()
                }),
            ({
                &&& !old(self).halted || old(bus).pending_irqs() != 0
                &&& old(self).instruction_step == 0
                &&& !(old(self).ime && !old(self).cb_prefixed && old(bus).pending_irqs() != 0)
            }) ==> old(self).woken().fetch_effect(*final(self), r is Ok),
            ({
                &&& !old(self).halted || old(bus).pending_irqs() != 0
                &&& old(self).instruction_step == 0
                &&& !(old(self).ime && !old(self).cb_prefixed && old(bus).pending_irqs() != 0)
            }) ==> gb_read_at(old(bus), final(bus), old(self).pc, final(self).current_opcode),
    {
        if self.halted {
            if bus.irq_pending() != 0 {
                self.halted = false;
            } else {
                bus.idle_cycle();
                return Ok(());
            }
        }
        if self.instruction_step == 0 {
            self.begin_instruction(bus)
        } else {
            self.continue_instruction(bus);
            Ok(())
        }
    }

    /// An M-cycle inside an instruction: its next micro-step, and the step
    /// counter back to 0 once it completes.
    fn continue_instruction<B: Bus + ?Sized>(&mut self, bus: &mut B)
        requires
            old(self).wf(),
            old(self).instruction_step > 0,
        ensures
            final(self).wf(),
            final(self).config == old(self).config,
            final(self).variant == old(self).variant,
            final(self).current == old(self).current,
            micro_ok(
                *old(self),
                GameBoyCpu { instruction_step: old(self).instruction_step, ..*final(self) },
                final(self).instruction_step == 0,
            ),
            final(self).instruction_step == 0 || final(self).instruction_step == old(self).instruction_step + 1,
    {
        if self.execute_micro_step(bus) {
            self.instruction_step = 0;
        } else {
            self.instruction_step = self.instruction_step + 1;
        }
    }

    /// The first M-cycle of an instruction: interrupt dispatch when one is
    /// due, else the opcode fetch and its decode.
    fn begin_instruction<B: Bus + ?Sized>(&mut self, bus: &mut B) -> (r: Result<(), GbCpuError>)
        requires
            old(self).wf(),
            old(self).instruction_step == 0,
            !old(self).halted,
        ensures
            final(self).wf(),
            final(self).config == old(self).config,
            final(self).variant == old(self).variant,
            r is Err ==> final(self).current is Unknown
                && r == Err::<(), GbCpuError>(GbCpuError::UnimplementedOpcode(final(self).current_opcode)),
            (old(self).cb_prefixed && r is Ok)
                ==> final(self).current == Instruction::Cb(decode_cb_spec(final(self).current_opcode))
                && !final(self).cb_prefixed,
            (!old(self).cb_prefixed && !old(self).ime && r is Ok)
                ==> final(self).current == decode_spec(final(self).current_opcode),
            (!old(self).cb_prefixed && old(self).ime && old(bus).pending_irqs() != 0)
                ==> r is Ok && *final(self) == (GameBoyCpu {
                    ime: false,
                    current: Instruction::Interrupt,
                    instruction_step: 1,
                    ..*old(self)
                }),
            !(old(self).ime && !old(self).cb_prefixed && old(bus).pending_irqs() != 0)
                ==> old(self).fetch_effect(*final(self), r is Ok),
            !(old(self).ime && !old(self).cb_prefixed && old(bus).pending_irqs() != 0)
                ==> gb_read_at(old(bus), final(bus), old(self).pc, final(self).current_opcode),
    {
        if !self.cb_prefixed && self.check_interrupts(bus) {
            return Ok(());
        }
        self.fetch_instruction(bus)
    }

    /// The opcode fetch and decode of the first M-cycle.
    #[verifier::spinoff_prover]
    fn fetch_instruction<B: Bus + ?Sized>(&mut self, bus: &mut B) -> (r: Result<(), GbCpuError>)
        requires
            old(self).wf(),
            old(self).instruction_step == 0,
            !old(self).halted,
        ensures
            final(self).wf(),
            final(self).config == old(self).config,
            final(self).variant == old(self).variant,
            r is Err ==> final(self).current is Unknown
                && r == Err::<(), GbCpuError>(GbCpuError::UnimplementedOpcode(final(self).current_opcode)),
            (old(self).cb_prefixed && r is Ok)
                ==> final(self).current == Instruction::Cb(decode_cb_spec(final(self).current_opcode))
                && !final(self).cb_prefixed,
            (!old(self).cb_prefixed && r is Ok) ==> final(self).current == decode_spec(final(self).current_opcode),
            old(self).fetch_effect(*final(self), r is Ok),
            gb_read_at(old(bus), final(bus), old(self).pc, final(self).current_opcode),
    {
        if self.ime_pending {
            self.ime = true;
            self.ime_pending = false;
        }
        let opcode = self.fetch_byte(bus);
        self.current_opcode = opcode;
        if self.cb_prefixed {
            let cb = self.decode_cb(opcode);
            self.current = Instruction::Cb(cb);
            self.cb_prefixed = false;
            if cb.target == Reg::MemHL {
                self.instruction_step = 1;
            } else {
                let v = self.read_reg(cb.target);
                let res = self.cb_execute(cb, v);
                if let Some(r) = res {
                    self.write_reg(cb.target, r);
                }
                self.instruction_step = 0;
            }
            return Ok(());
        }
        if opcode == 0xCB {
            assert(decode_spec(0xCB) == Instruction::CbPrefix);
            self.current = Instruction::CbPrefix;
            self.cb_prefixed = true;
            return Ok(());
        }
        self.current = self.decode_main(opcode);
        if let Instruction::Unknown(op) = self.current {
            return Err(GbCpuError::UnimplementedOpcode(op));
        }
        if self.execute_fetch_cycle(bus) {
            self.instruction_step = 0;
        } else {
            self.instruction_step = 1;
        }
        Ok(())
    }


    /// The cycle in which the opcode was fetched: instructions that need no
    /// further bus access complete here. Returns whether the instruction is
    /// complete.
    fn execute_fetch_cycle<B: Bus + ?Sized>(&mut self, bus: &mut B) -> (r: bool)
        requires
            !fetch_unhandled(old(self).current),
        ensures
            r == completes_at_fetch(old(self).current),
            !(old(self).current is Halt) ==> *final(self) == old(self).fetch_result(),
            old(self).current is Halt ==> final(self).halted || final(self).halt_bug,
            old(self).current is Halt ==> (GameBoyCpu { halted: old(self).halted, halt_bug: old(self).halt_bug, ..*final(self) }) == *old(self),
            final(self).config == old(self).config,
            final(self).variant == old(self).variant,
            final(self).current == old(self).current,
            final(self).instruction_step == old(self).instruction_step,
            final(self).current_opcode == old(self).current_opcode,
            gb_memory_kept(old(bus), final(bus)),
    {
        if let Instruction::Halt = self.current {
            let pending = bus.irq_pending() != 0;
            if !self.ime && pending {
                self.halt_bug = true;
            } else {
                self.halted = true;
            }
            return true;
        }
        proof {
            lemma_fetch_frame(*self);
        }
        match self.current {
            Instruction::CbPrefix | Instruction::Cpl | Instruction::EI | Instruction::DI | Instruction::Ccf
            | Instruction::Daa | Instruction::JpHl | Instruction::Scf | Instruction::Nop => self.fetch_misc(),
            Instruction::AluReg { .. } | Instruction::IncReg { .. } | Instruction::DecReg { .. }
            | Instruction::LdRegReg { .. } => self.fetch_register(),
            Instruction::Rlca | Instruction::Rla | Instruction::Rra | Instruction::Rrca => self.fetch_rotate(),
            _ => {
                proof {
                    reveal(GameBoyCpu::fetch_result);
                }
                false
            },
        }
    }

    #[verifier::spinoff_prover]
    fn fetch_misc(&mut self) -> (r: bool)
        requires
            old(self).current is CbPrefix || old(self).current is Cpl || old(self).current is EI
                || old(self).current is DI || old(self).current is Ccf || old(self).current is Daa
                || old(self).current is JpHl || old(self).current is Scf || old(self).current is Nop,
        ensures
            r == completes_at_fetch(old(self).current),
            *final(self) == old(self).fetch_result(),
    {
        reveal(GameBoyCpu::fetch_result);
        let zf = (self.f & FLAG_Z) != 0;
        let cf = (self.f & FLAG_C) != 0;
        match self.current {
            Instruction::CbPrefix => {
                self.cb_prefixed = true;
            },
            Instruction::Cpl => {
                self.a = !self.a;
                self.f = self.f | FLAG_N | FLAG_H;
            },
            Instruction::EI => {
                self.ime_pending = true;
            },
            Instruction::DI => {
                self.ime = false;
                self.ime_pending = false;
            },
            Instruction::Ccf => {
                self.f = pack_flags(zf, false, false, !cf);
            },
            Instruction::Daa => {
                let a = self.a;
                let n = (self.f & FLAG_N) != 0;
                let adj_lo: u8 = if (self.f & FLAG_H != 0) || (!n && (a & 0x0F) > 0x09) { 0x06 } else { 0 };
                let carry = (self.f & FLAG_C != 0) || (!n && a > 0x99);
                let adjust: u8 = if carry { adj_lo | 0x60 } else { adj_lo };
                let na = if n { a.wrapping_sub(adjust) } else { a.wrapping_add(adjust) };
                self.a = na;
                self.f = pack_flags(na == 0, n, false, carry);
            },
            Instruction::JpHl => {
                self.pc = self.hl();
            },
            Instruction::Scf => {
                self.f = pack_flags(zf, false, false, true);
            },
            _ => {},
        }
        true
    }

    #[verifier::spinoff_prover]
    fn fetch_register(&mut self) -> (r: bool)
        requires
            old(self).current is AluReg || old(self).current is IncReg || old(self).current is DecReg
                || old(self).current is LdRegReg,
        ensures
            r == completes_at_fetch(old(self).current),
            *final(self) == old(self).fetch_result(),
    {
        reveal(GameBoyCpu::fetch_result);
        let cf = (self.f & FLAG_C) != 0;
        match self.current {
            Instruction::AluReg { op, src } => {
                if src == Reg::MemHL {
                    false
                } else {
                    let v = self.read_reg(src);
                    self.alu(op, v);
                    true
                }
            },
            Instruction::IncReg { dst } => {
                if dst == Reg::MemHL {
                    false
                } else {
                    let reg = self.read_reg(dst);
                    let res = reg.wrapping_add(1);
                    self.write_reg(dst, res);
                    self.f = pack_flags(res == 0, false, reg & 0x0F == 0x0F, cf);
                    true
                }
            },
            Instruction::DecReg { dst } => {
                if dst == Reg::MemHL {
                    false
                } else {
                    let reg = self.read_reg(dst);
                    let res = reg.wrapping_sub(1);
                    self.write_reg(dst, res);
                    self.f = pack_flags(res == 0, true, (reg & 0x0F) == 0, cf);
                    true
                }
            },
            Instruction::LdRegReg { dst, src } => {
                if dst == Reg::MemHL || src == Reg::MemHL {
                    false
                } else {
                    let v = self.read_reg(src);
                    self.write_reg(dst, v);
                    true
                }
            },
            _ => false,
        }
    }

    #[verifier::spinoff_prover]
    fn fetch_rotate(&mut self) -> (r: bool)
        requires
            old(self).current is Rlca || old(self).current is Rla || old(self).current is Rra
                || old(self).current is Rrca,
        ensures
            r == completes_at_fetch(old(self).current),
            *final(self) == old(self).fetch_result(),
    {
        reveal(GameBoyCpu::fetch_result);
        let cf = (self.f & FLAG_C) != 0;
        match self.current {
            Instruction::Rlca => {
                let carry = (self.a & 0x80) != 0;
                self.a = (self.a << 1u8) | (self.a >> 7u8);
                self.f = pack_flags(false, false, false, carry);
            },
            Instruction::Rla => {
                let old_carry: u8 = if cf { 1 } else { 0 };
                let new_carry = (self.a & 0x80) != 0;
                self.a = (self.a << 1u8) | old_carry;
                self.f = pack_flags(false, false, false, new_carry);
            },
            Instruction::Rra => {
                let old_carry: u8 = if cf { 0x80 } else { 0 };
                let new_carry = (self.a & 0x01) != 0;
                self.a = (self.a >> 1u8) | old_carry;
                self.f = pack_flags(false, false, false, new_carry);
            },
            _ => {
                let carry = (self.a & 0x01) != 0;
                self.a = (self.a >> 1u8) | (self.a << 7u8);
                self.f = pack_flags(false, false, false, carry);
            },
        }
        true
    }

    fn decode_main(&self, op: u8) -> (r: Instruction)
        ensures
            r == decode_spec(op),
            !fetch_unhandled(r) || r is Unknown,
            !(r is Cb),
    {
        match op {

            0x00 => Instruction::Nop,
            0x01|0x11|0x21|0x31 => {
                let dst = Reg16::from_index((op >> 4u8) & 3);
                Instruction::LdReg16Imm { dst }
            },
            0x02 => {
                let dst = Reg16Mem::BC;
                Instruction::LdR16MemA { dst }
            }
            0x03|0x13|0x23|0x33 => {
                let dst = Reg16::from_index((op >> 4u8) & 3);
                Instruction::IncReg16 { dst }
            },
            0x04|0x0C|0x14|0x1C|0x24|0x2C|0x34|0x3C => {
                let dst = Reg::from_index((op >> 3u8) & 7);
                Instruction::IncReg { dst }
            },
            0x05|0x0D|0x15|0x1D|0x25|0x2D|0x35|0x3D => {
                let dst = Reg::from_index((op >> 3u8) & 7);
                Instruction::DecReg { dst }
            },
            0x06|0x0E|0x16|0x1E|0x26|0x2E|0x36|0x3E => {
                let dst = Reg::from_index((op >> 3u8) & 7);
                Instruction::LdRegImm { dst }
            },
            0x07 => Instruction::Rlca,
            0x08 => Instruction::LdFromSp,
            0x09 => Instruction::AddHlReg16 { src: Reg16::BC },
            0x0A => {
                let src = Reg16Mem::BC;
                Instruction::LdAR16Mem { src }
            },
            0x0B|0x1B|0x2B|0x3B => {
                let dst = Reg16::from_index((op >> 4u8) & 3);
                Instruction::DecReg16 { dst }
            },
            0x0F => Instruction::Rrca,
            0x10 => Instruction::Stop,
            0x12 => {
                let dst = Reg16Mem::DE;
                Instruction::LdR16MemA { dst }
            }
            0x17 => Instruction::Rla,
            0x18 => Instruction::Jr { cond: None },
            0x19 => Instruction::AddHlReg16 { src: Reg16::DE },
            0x1A => {
                let src = Reg16Mem::DE;
                Instruction::LdAR16Mem { src }
            },
            0x1F => Instruction::Rra,
            0x20|0x28|0x30|0x38 => Instruction::Jr {
                cond: Some(Condition::from_index((op >> 3u8) & 3)),
            },
            0x22 => {
                let dst = Reg16Mem::HLI;
                Instruction::LdR16MemA { dst }
            }
            0x27 => Instruction::Daa,
            0x29 => Instruction::AddHlReg16 { src: Reg16::HL },
            0x2A => {
                let src = Reg16Mem::HLI;
                Instruction::LdAR16Mem { src }
            },
            0x2F => Instruction::Cpl,
            0x32 => {
                let dst = Reg16Mem::HLD;
                Instruction::LdR16MemA { dst }
            }
            0x37 => Instruction::Scf,
            0x39 => Instruction::AddHlReg16 { src: Reg16::SP },
            0x3A => {
                let src = Reg16Mem::HLD;
                Instruction::LdAR16Mem { src }
            },
            0x3F => Instruction::Ccf,
            0x76 => Instruction::Halt,   
            op7 if 0x40 <= op7 && op7 <= 0x7F => {
                let dst = Reg::from_index((op >> 3u8) & 7);
                let src = Reg::from_index(op & 7);
                Instruction::LdRegReg { dst, src }
            },
            opb if 0x80 <= opb && opb <= 0xBF => {
                let alu = AluOp::from_index((op >> 3u8) & 7);
                let src = Reg::from_index(op & 7);
                Instruction::AluReg { op: alu, src }
            },
            0xC0|0xC8|0xD0|0xD8 => {
                let cond = Some(Condition::from_index((op >> 3u8) & 3));
                Instruction::Ret { cond }
            },
            0xC1|0xD1|0xE1|0xF1 => {
                let dst = Reg16Stk::from_index((op >> 4u8) & 3);
                Instruction::Pop { dst }
            },
            0xC2|0xCA|0xD2|0xDA => {
                let cond = Some(Condition::from_index((op >> 3u8) & 3));
                Instruction::Jp { cond }
            },
            0xC3 => Instruction::Jp { cond: None },
            0xC4|0xD4|0xCC|0xDC => {
                let cond = Some(Condition::from_index((op >> 3u8) & 3));
                Instruction::Call { cond }
            },
            0xC5|0xD5|0xE5|0xF5 => {
                let dst = Reg16Stk::from_index((op >> 4u8) & 3);
                Instruction::Push { dst }
            },
            0xC6 => Instruction::AluImm { op: AluOp::Add },
            0xC7 => Instruction::Rst { addr: 0x0000 },
            0xC9 => Instruction::Ret { cond: None },
            0xCB => Instruction::CbPrefix,
            0xCD => Instruction::Call { cond: None },
            0xCE => Instruction::AluImm { op: AluOp::Adc },
            0xCF => Instruction::Rst { addr: 0x0008 },
            0xD6 => Instruction::AluImm { op: AluOp::Sub },
            0xD7 => Instruction::Rst { addr: 0x0010 },
            0xD9 => Instruction::Reti,
            0xDE => Instruction::AluImm { op: AluOp::Sbc },
            0xDF => Instruction::Rst { addr: 0x0018 },
            0xE0 => Instruction::LdhFromAcc,
            0xE2 => Instruction::LdhCIndA,
            0xE6 => Instruction::AluImm { op: AluOp::And },
            0xE7 => Instruction::Rst { addr: 0x0020 },
            0xE8 => Instruction::AddSpE8,
            0xE9 => Instruction::JpHl,
            0xEA => Instruction::LdFromAcc,
            0xEE => Instruction::AluImm { op: AluOp::Xor },
            0xEF => Instruction::Rst { addr: 0x0028 },
            0xF0 => Instruction::LdhAcc,
            0xF2 => Instruction::LdAIndC,
            0xF3 => Instruction::DI,
            0xF6 => Instruction::AluImm { op: AluOp::Or  },
            0xF7 => Instruction::Rst { addr: 0x0030 },
            0xF8 => Instruction::LdHlSpE8,
            0xF9 => Instruction::LdSpHl,
            0xFA => Instruction::LdAcc,
            0xFB => Instruction::EI,
            0xFE => Instruction::AluImm { op: AluOp::Cp  },
            0xFF => Instruction::Rst { addr: 0x0038 },
            _ => Instruction::Unknown(op),
        }
    }

    fn decode_cb(&mut self, opcode: u8) -> (r: CbInstruction)
        ensures
            r == decode_cb_spec(opcode),
            r.bit < 8,
            *final(self) == *old(self),
    {
        proof {
            crate::bits::lemma_byte_fields(opcode);
        }
        let target = Reg::from_index(opcode & 7);
        let y = (opcode >> 3u8) & 7;
        let op = match opcode >> 6u8 {
            0 => match y {
                0 => CbOp::Rlc, 1 => CbOp::Rrc, 2 => CbOp::Rl, 3 => CbOp::Rr,
                4 => CbOp::Sla, 5 => CbOp::Sra, 6 => CbOp::Swap, _ => CbOp::Srl,
            },
            1 => CbOp::Bit,
            2 => CbOp::Res,
            _ => CbOp::SetBit,
        };
        CbInstruction { op, bit: y, target }
    }

    /// Runs a 0xCB operation on `v`: returns the value to write back, or
    /// `None` for BIT, which only sets flags.
    fn cb_execute(&mut self, cb: CbInstruction, v: u8) -> (r: Option<u8>)
        requires
            cb.bit < 8,
        ensures
            (r, final(self).f) == cb_spec(cb, old(self).f, v),
            *final(self) == (GameBoyCpu { f: final(self).f, ..*old(self) }),
    {
        let old_c: u8 = if (self.f & FLAG_C) != 0 { 1 } else { 0 };
        let (result, carry) = match cb.op {
            CbOp::Rlc => ((v << 1u8) | (v >> 7u8), v & 0x80 != 0),
            CbOp::Rrc => ((v >> 1u8) | (v << 7u8), v & 0x01 != 0),
            CbOp::Rl => ((v << 1u8) | old_c, v & 0x80 != 0),
            CbOp::Rr => ((v >> 1u8) | (old_c << 7u8), v & 0x01 != 0),
            CbOp::Sla => (v << 1u8, v & 0x80 != 0),
            CbOp::Sra => ((v >> 1u8) | (v & 0x80), v & 0x01 != 0),
            CbOp::Swap => ((v << 4u8) | (v >> 4u8), false),
            CbOp::Srl => (v >> 1u8, v & 0x01 != 0),
            CbOp::Bit => {
                // Z = tested bit is zero, N = 0, H = 1, C kept; nothing written back
                let is_zero = (v & (1u8 << cb.bit)) == 0;
                self.f = pack_flags(is_zero, false, true, (self.f & FLAG_C) != 0);
                return None;
            },
            CbOp::Res => {
                return Some(v & !(1u8 << cb.bit));
            },
            CbOp::SetBit => {
                return Some(v | (1u8 << cb.bit));
            },
        };
        self.f = pack_flags(result == 0, false, false, carry);
        Some(result)
    }

    /// On an instruction boundary with IME set and an interrupt pending:
    /// clears IME and starts the interrupt dispatch sequence.
    fn check_interrupts<B: Bus + ?Sized>(&mut self, bus: &mut B) -> (r: bool)
        ensures
            r == (old(self).ime && old(bus).pending_irqs() != 0),
            !r ==> *final(self) == *old(self),
            r ==> *final(self) == (GameBoyCpu {
                ime: false,
                current: Instruction::Interrupt,
                instruction_step: 1,
                ..*old(self)
            }),
            !r ==> gb_memory_kept(old(bus), final(bus)),
    {
        if !self.ime {
            return false;
        }
        let pending = bus.irq_pending();
        if pending == 0 {
            return false;
        }
        self.ime = false;
        bus.idle_cycle();
        self.current = Instruction::Interrupt;
        self.instruction_step = 1;
        true
    }

    fn read_reg(&self, r: Reg) -> (v: u8)
        requires
            r != Reg::MemHL,
        ensures
            v == self.reg_value(r),
    {
        match r {
            Reg::B => self.b,
            Reg::C => self.c,
            Reg::D => self.d,
            Reg::E => self.e,
            Reg::H => self.h,
            Reg::L => self.l,
            Reg::A => self.a,
            Reg::MemHL => 0,
        }
    }

    fn write_reg(&mut self, r: Reg, v: u8)
        requires
            r != Reg::MemHL,
        ensures
            *final(self) == old(self).with_reg(r, v),
    {
        match r {
            Reg::B => { self.b = v; },
            Reg::C => { self.c = v; },
            Reg::D => { self.d = v; },
            Reg::E => { self.e = v; },
            Reg::H => { self.h = v; },
            Reg::L => { self.l = v; },
            Reg::A => { self.a = v; },
            Reg::MemHL => {},
        }
    }

    fn read_reg16(&self, rr: Reg16) -> (r: u16)
        ensures
            r == self.reg16_value(rr),
    {
        match rr {
            Reg16::BC => self.bc(),
            Reg16::DE => self.de(),
            Reg16::HL => self.hl(),
            Reg16::SP => self.sp,
        }
    }

    fn write_reg16(&mut self, r: Reg16, v: u16)
        ensures
            *final(self) == old(self).with_reg16(r, v),
    {
        match r {
            Reg16::BC => { self.set_bc(v); },
            Reg16::DE => { self.set_de(v); },
            Reg16::HL => { self.set_hl(v); },
            Reg16::SP => { self.sp = v; },
        }
    }

    fn read_reg16_stk(&self, rr: Reg16Stk) -> (r: u16)
        ensures
            r == self.reg16stk_value(rr),
    {
        match rr {
            Reg16Stk::BC => self.bc(),
            Reg16Stk::DE => self.de(),
            Reg16Stk::HL => self.hl(),
            Reg16Stk::AF => self.af(),
        }
    }

    /// POP AF drops the low nibble of F (`set_af` masks it).
    fn write_reg16_stk(&mut self, rr: Reg16Stk, v: u16)
        ensures
            *final(self) == old(self).with_reg16stk(rr, v),
    {
        match rr {
            Reg16Stk::BC => self.set_bc(v),
            Reg16Stk::DE => self.set_de(v),
            Reg16Stk::HL => self.set_hl(v),
            Reg16Stk::AF => self.set_af(v),
        }
    }

    fn get_reg16_addr(&mut self, rr: Reg16Mem) -> (r: u16)
        ensures
            r == match rr {
                Reg16Mem::BC => old(self).bc_value(),
                Reg16Mem::DE => old(self).de_value(),
                _ => old(self).hl_value(),
            },
            *final(self) == *old(self),
    {
        match rr {
            Reg16Mem::BC => self.bc(),
            Reg16Mem::DE => self.de(),
            _ => self.hl(),
        }
    }

    /// The 8-bit ALU: result to A (except CP), flags to F.
    fn alu(&mut self, op: AluOp, v: u8)
        ensures
            (final(self).a, final(self).f) == alu_spec(op, old(self).a, old(self).f, v),
            *final(self) == (GameBoyCpu { a: final(self).a, f: final(self).f, ..*old(self) }),
    {
        let a = self.a;
        proof {
            crate::bits::lemma_byte_fields(a);
            crate::bits::lemma_byte_fields(v);
        }
        let carry_in: u8 = if (self.f & FLAG_C) != 0 { 1 } else { 0 };
        let (res, n, h, c) = match op {
            AluOp::Add => {
                let res = a.wrapping_add(v);
                (res, false, (a & 0x0F) + (v & 0x0F) > 0x0F, (a as u16) + (v as u16) > 0xFF)
            },
            AluOp::Adc => {
                let full: u16 = (a as u16) + (v as u16) + carry_in as u16;
                let res = full as u8;
                (res, false, ((a & 0x0F) + (v & 0x0F) + carry_in) > 0x0F, full > 0xFF)
            },
            AluOp::Sub | AluOp::Cp => {
                let res = a.wrapping_sub(v);
                (res, true, (a & 0x0F) < (v & 0x0F), a < v)
            },
            AluOp::Sbc => {
                let res = a.wrapping_sub(v).wrapping_sub(carry_in);
                (res, true, (a & 0x0F) < (v & 0x0F) + carry_in, (a as u16) < (v as u16) + (carry_in as u16))
            },
            AluOp::And => (a & v, false, true, false),
            AluOp::Xor => (a ^ v, false, false, false),
            AluOp::Or => (a | v, false, false, false),
        };
        let f = pack_flags(res == 0, n, h, c);
        proof {
            lemma_flag_byte(res == 0, n, h, c);
        }
        self.f = f & 0xF0;
        if op != AluOp::Cp {
            self.a = res;
        }
    }


    /// One M-cycle after the fetch cycle of the current instruction, at step
    /// `instruction_step` (1 for the first cycle after the fetch). Returns
    /// whether the instruction is complete.
    fn execute_micro_step<B: Bus + ?Sized>(&mut self, bus: &mut B) -> (r: bool)
        requires
            old(self).instruction_step >= 1,
            old(self).wf(),
        ensures
            micro_ok(*old(self), *final(self), r),
            micro_frame(*old(self), *final(self)),
            !r ==> old(self).instruction_step <= 4,
    {
        match self.current {
            Instruction::AddHlReg16 { .. } | Instruction::AddSpE8 | Instruction::LdHlSpE8
            | Instruction::IncReg16 { .. } | Instruction::DecReg16 { .. } | Instruction::LdSpHl => {
                self.micro_arith16(bus)
            },
            Instruction::Call { .. } | Instruction::Jp { .. } | Instruction::Jr { .. }
            | Instruction::Ret { .. } | Instruction::Reti | Instruction::Rst { .. } => {
                self.micro_jump(bus)
            },
            Instruction::LdAcc | Instruction::LdhAcc | Instruction::LdFromAcc | Instruction::LdhFromAcc
            | Instruction::LdFromSp | Instruction::LdAR16Mem { .. } | Instruction::LdR16MemA { .. }
            | Instruction::LdhCIndA | Instruction::LdAIndC => {
                self.micro_load(bus)
            },
            Instruction::Cb(_) | Instruction::IncReg { .. } | Instruction::DecReg { .. }
            | Instruction::AluReg { .. } | Instruction::AluImm { .. } | Instruction::LdRegReg { .. }
            | Instruction::LdRegImm { .. } | Instruction::LdReg16Imm { .. } => {
                self.micro_operand(bus)
            },
            _ => self.micro_stack(bus),
        }
    }

    /// 16-bit arithmetic and the SP/HL transfers.
    #[verifier::spinoff_prover]
    #[verifier::rlimit(50)]
    fn micro_arith16<B: Bus + ?Sized>(&mut self, bus: &mut B) -> (r: bool)
        requires
            old(self).instruction_step >= 1,
            old(self).current is AddHlReg16 || old(self).current is AddSpE8 || old(self).current is LdHlSpE8
                || old(self).current is IncReg16 || old(self).current is DecReg16 || old(self).current is LdSpHl,
        ensures
            micro_ok(*old(self), *final(self), r),
            micro_frame(*old(self), *final(self)),
            !r ==> old(self).instruction_step <= 4,
    {
        reveal(micro_ok);
        match self.current {
            Instruction::AddHlReg16 { src } => {
                let reg = self.read_reg16(src);
                bus.idle_cycle();
                let hl = self.hl();
                proof {
                    crate::bits::lemma_word_fields(hl);
                    crate::bits::lemma_word_fields(reg);
                }
                let result = hl.wrapping_add(reg);
                let h: bool = (hl & 0x0FFF) as u32 + (reg & 0x0FFF) as u32 > 0x0FFF;
                let c: bool = (hl as u32) + (reg as u32) > 0xFFFF;
                self.f = pack_flags((self.f & FLAG_Z) != 0, false, h, c);
                self.set_hl(result);
                true
            },
            Instruction::AddSpE8 => {
                if self.instruction_step == 1 {
                    self.current_lsb = self.fetch_byte(bus);
                    false
                } else if self.instruction_step == 2 {
                    bus.idle_cycle();
                    false
                } else {
                    bus.idle_cycle();
                    let (res, h, c) = offset_sp(self.sp, self.current_lsb);
                    self.f = pack_flags(false, false, h, c);
                    self.sp = res;
                    true
                }
            },
            Instruction::LdHlSpE8 => {
                if self.instruction_step == 1 {
                    self.current_lsb = self.fetch_byte(bus);
                    false
                } else {
                    bus.idle_cycle();
                    let (res, h, c) = offset_sp(self.sp, self.current_lsb);
                    self.f = pack_flags(false, false, h, c);
                    self.set_hl(res);
                    true
                }
            },
            Instruction::IncReg16 { dst } => {
                let val = self.read_reg16(dst);
                self.write_reg16(dst, val.wrapping_add(1));
                bus.idle_cycle();
                true
            },
            Instruction::DecReg16 { dst } => {
                let val = self.read_reg16(dst);
                self.write_reg16(dst, val.wrapping_sub(1));
                bus.idle_cycle();
                true
            },
            _ => {
                bus.idle_cycle();
                self.sp = self.hl();
                true
            },
        }
    }

    /// Jumps, calls, returns and restarts.
    #[verifier::spinoff_prover]
    #[verifier::rlimit(80)]
    fn micro_jump<B: Bus + ?Sized>(&mut self, bus: &mut B) -> (r: bool)
        requires
            old(self).instruction_step >= 1,
            old(self).current is Call || old(self).current is Jp || old(self).current is Jr
                || old(self).current is Ret || old(self).current is Reti || old(self).current is Rst,
        ensures
            micro_ok(*old(self), *final(self), r),
            micro_frame(*old(self), *final(self)),
            !r ==> old(self).instruction_step <= 4,
    {
        reveal(micro_ok);
        let step = self.instruction_step;
        match self.current {
            Instruction::Call { cond } => {
                if step == 1 {
                    self.current_lsb = self.fetch_byte(bus);
                    false
                } else if step == 2 {
                    self.current_msb = self.fetch_byte(bus);
                    match cond {
                        Some(cc) => !self.check_condition(cc),
                        None => false,
                    }
                } else if step == 3 {
                    bus.idle_cycle();
                    false
                } else if step == 4 {
                    self.push(bus, (self.pc >> 8) as u8);
                    false
                } else {
                    self.push(bus, (self.pc & 0xFF) as u8);
                    self.pc = ((self.current_msb as u16) << 8) | (self.current_lsb as u16);
                    true
                }
            },
            Instruction::Jp { cond } => {
                if step == 1 {
                    self.current_lsb = self.fetch_byte(bus);
                    false
                } else if step == 2 {
                    self.current_msb = self.fetch_byte(bus);
                    match cond {
                        Some(cc) => !self.check_condition(cc),
                        None => false,
                    }
                } else {
                    bus.idle_cycle();
                    self.pc = ((self.current_msb as u16) << 8) | (self.current_lsb as u16);
                    true
                }
            },
            Instruction::Jr { cond } => {
                if step == 1 {
                    self.current_lsb = self.fetch_byte(bus);
                    match cond {
                        Some(cc) => !self.check_condition(cc),
                        None => false,
                    }
                } else {
                    bus.idle_cycle();
                    self.pc = self.pc.wrapping_add_signed(signed_offset(self.current_lsb));
                    true
                }
            },
            Instruction::Ret { cond: None } | Instruction::Reti => {
                if step == 1 {
                    self.current_lsb = self.pop(bus);
                    false
                } else if step == 2 {
                    self.current_msb = self.pop(bus);
                    false
                } else {
                    bus.idle_cycle();
                    self.pc = ((self.current_msb as u16) << 8) | (self.current_lsb as u16);
                    if self.current == Instruction::Reti {
                        self.ime = true;
                    }
                    true
                }
            },
            Instruction::Ret { cond: Some(cc) } => {
                if step == 1 {
                    bus.idle_cycle();
                    !self.check_condition(cc)
                } else if step == 2 {
                    self.current_lsb = self.pop(bus);
                    false
                } else if step == 3 {
                    self.current_msb = self.pop(bus);
                    false
                } else {
                    bus.idle_cycle();
                    self.pc = ((self.current_msb as u16) << 8) | (self.current_lsb as u16);
                    true
                }
            },
            Instruction::Rst { addr } => {
                if step == 1 {
                    bus.idle_cycle();
                    false
                } else if step == 2 {
                    self.push(bus, (self.pc >> 8) as u8);
                    false
                } else {
                    self.push(bus, (self.pc & 0xFF) as u8);
                    self.pc = addr;
                    true
                }
            },
            _ => true,
        }
    }

    /// Loads and stores between A, SP and memory.
    #[verifier::spinoff_prover]
    #[verifier::rlimit(80)]
    fn micro_load<B: Bus + ?Sized>(&mut self, bus: &mut B) -> (r: bool)
        requires
            old(self).instruction_step >= 1,
            old(self).current is LdAcc || old(self).current is LdhAcc || old(self).current is LdFromAcc
                || old(self).current is LdhFromAcc || old(self).current is LdFromSp
                || old(self).current is LdAR16Mem || old(self).current is LdR16MemA
                || old(self).current is LdhCIndA || old(self).current is LdAIndC,
        ensures
            micro_ok(*old(self), *final(self), r),
            micro_frame(*old(self), *final(self)),
            !r ==> old(self).instruction_step <= 4,
    {
        reveal(micro_ok);
        let step = self.instruction_step;
        match self.current {
            Instruction::LdAcc | Instruction::LdhAcc => {
                if step == 1 {
                    self.current_lsb = self.fetch_byte(bus);
                    false
                } else if step == 2 && self.current == Instruction::LdhAcc {
                    let addr: u16 = 0xFF00 | (self.current_lsb as u16);
                    self.a = bus.read(addr);
                    true
                } else if step == 2 {
                    self.current_msb = self.fetch_byte(bus);
                    false
                } else {
                    let addr: u16 = ((self.current_msb as u16) << 8) | (self.current_lsb as u16);
                    self.a = bus.read(addr);
                    true
                }
            },
            Instruction::LdFromAcc | Instruction::LdhFromAcc => {
                if step == 1 {
                    self.current_lsb = self.fetch_byte(bus);
                    false
                } else if step == 2 && self.current == Instruction::LdhFromAcc {
                    bus.write(0xFF00 | (self.current_lsb as u16), self.a);
                    true
                } else if step == 2 {
                    self.current_msb = self.fetch_byte(bus);
                    false
                } else {
                    bus.write(((self.current_msb as u16) << 8) | (self.current_lsb as u16), self.a);
                    true
                }
            },
            Instruction::LdFromSp => {
                if step == 1 {
                    self.current_lsb = self.fetch_byte(bus);
                    false
                } else if step == 2 {
                    self.current_msb = self.fetch_byte(bus);
                    false
                } else if step == 3 {
                    let addr: u16 = ((self.current_msb as u16) << 8) | (self.current_lsb as u16);
                    bus.write(addr, (self.sp & 0xFF) as u8);
                    false
                } else {
                    let addr: u16 = (((self.current_msb as u16) << 8) | (self.current_lsb as u16)).wrapping_add(1);
                    bus.write(addr, (self.sp >> 8) as u8);
                    true
                }
            },
            Instruction::LdAR16Mem { src } => {
                let addr: u16 = self.get_reg16_addr(src);
                self.a = bus.read(addr);
                self.step_hl(src);
                true
            },
            Instruction::LdR16MemA { dst } => {
                let addr: u16 = self.get_reg16_addr(dst);
                bus.write(addr, self.a);
                self.step_hl(dst);
                true
            },
            Instruction::LdhCIndA => {
                bus.write(0xFF00 | self.c as u16, self.a);
                true
            },
            _ => {
                let addr: u16 = 0xFF00 | self.c as u16;
                self.a = bus.read(addr);
                true
            },
        }
    }

    /// The post-increment / post-decrement of HL by the (HL+) and (HL-)
    /// addressing forms.
    fn step_hl(&mut self, rr: Reg16Mem)
        ensures
            *final(self) == hl_stepped(*old(self), rr),
    {
        if rr == Reg16Mem::HLI {
            let hl: u16 = self.hl();
            self.set_hl(hl.wrapping_add(1));
        } else if rr == Reg16Mem::HLD {
            let hl: u16 = self.hl();
            self.set_hl(hl.wrapping_sub(1));
        }
    }

    /// Instructions whose operand is an immediate or the byte at (HL).
    #[verifier::spinoff_prover]
    #[verifier::rlimit(80)]
    fn micro_operand<B: Bus + ?Sized>(&mut self, bus: &mut B) -> (r: bool)
        requires
            old(self).instruction_step >= 1,
            old(self).current is Cb || old(self).current is IncReg || old(self).current is DecReg
                || old(self).current is AluReg || old(self).current is AluImm
                || old(self).current is LdRegReg || old(self).current is LdRegImm
                || old(self).current is LdReg16Imm,
            old(self).current matches Instruction::Cb(cb) ==> cb.bit < 8,
        ensures
            micro_ok(*old(self), *final(self), r),
            micro_frame(*old(self), *final(self)),
            !r ==> old(self).instruction_step <= 4,
    {
        reveal(micro_ok);
        let step = self.instruction_step;
        match self.current {
            Instruction::Cb(cb) => {
                if step == 1 {
                    let addr = self.hl();
                    let v = bus.read(addr);
                    let res = self.cb_execute(cb, v);
                    assert(cb_spec(cb, old(self).f, v) == (res, self.f));
                    match res {
                        Some(x) => {
                            self.current_value = x;
                            false
                        },
                        None => true,
                    }
                } else {
                    bus.write(self.hl(), self.current_value);
                    true
                }
            },
            Instruction::IncReg { dst } => {
                if dst == Reg::MemHL {
                    if step == 1 {
                        self.current_value = bus.read(self.hl());
                        false
                    } else {
                        let cv = self.current_value;
                        let res = cv.wrapping_add(1);
                        self.f = pack_flags(res == 0, false, cv & 0x0F == 0x0F, (self.f & FLAG_C) != 0);
                        bus.write(self.hl(), res);
                        true
                    }
                } else {
                    bus.idle_cycle();
                    true
                }
            },
            Instruction::DecReg { dst } => {
                if dst == Reg::MemHL {
                    if step == 1 {
                        self.current_value = bus.read(self.hl());
                        false
                    } else {
                        let cv = self.current_value;
                        let res = cv.wrapping_sub(1);
                        self.f = pack_flags(res == 0, true, cv & 0x0F == 0, (self.f & FLAG_C) != 0);
                        bus.write(self.hl(), res);
                        true
                    }
                } else {
                    bus.idle_cycle();
                    true
                }
            },
            Instruction::AluReg { op, .. } => {
                let v = bus.read(self.hl());
                self.alu(op, v);
                true
            },
            Instruction::AluImm { op } => {
                let v = self.fetch_byte(bus);
                self.alu(op, v);
                true
            },
            Instruction::LdRegReg { dst, src } => {
                if src == Reg::MemHL {
                    let v = bus.read(self.hl());
                    if dst != Reg::MemHL {
                        self.write_reg(dst, v);
                    }
                    assert(*self == old(self).with_reg(dst, v));
                } else {
                    let v = self.read_reg(src);
                    bus.write(self.hl(), v);
                }
                true
            },
            Instruction::LdRegImm { dst } => {
                if dst == Reg::MemHL {
                    if step == 1 {
                        self.current_lsb = self.fetch_byte(bus);
                        false
                    } else {
                        bus.write(self.hl(), self.current_lsb);
                        true
                    }
                } else {
                    let v = self.fetch_byte(bus);
                    self.write_reg(dst, v);
                    assert(*self == fetched(*old(self)).with_reg(dst, v));
                    true
                }
            },
            Instruction::LdReg16Imm { dst } => {
                if step == 1 {
                    self.current_lsb = self.fetch_byte(bus);
                    false
                } else {
                    self.current_msb = self.fetch_byte(bus);
                    let v = ((self.current_msb as u16) << 8) | (self.current_lsb as u16);
                    self.write_reg16(dst, v);
                    true
                }
            },
            _ => true,
        }
    }

    /// PUSH, POP, the interrupt dispatch, STOP, and the instructions that
    /// only spend an idle cycle here.
    #[verifier::spinoff_prover]
    #[verifier::rlimit(80)]
    fn micro_stack<B: Bus + ?Sized>(&mut self, bus: &mut B) -> (r: bool)
        requires
            old(self).instruction_step >= 1,
            !micro_grouped(old(self).current),
        ensures
            micro_ok(*old(self), *final(self), r),
            micro_frame(*old(self), *final(self)),
            !r ==> old(self).instruction_step <= 4,
    {
        reveal(micro_ok);
        let step = self.instruction_step;
        match self.current {
            Instruction::Pop { dst } => {
                if step == 1 {
                    self.current_lsb = self.pop(bus);
                    false
                } else {
                    self.current_msb = self.pop(bus);
                    self.write_reg16_stk(dst, ((self.current_msb as u16) << 8) | self.current_lsb as u16);
                    true
                }
            },
            Instruction::Push { dst } => {
                if step == 1 {
                    bus.idle_cycle();
                    false
                } else if step == 2 {
                    let v = self.read_reg16_stk(dst);
                    self.push(bus, (v >> 8) as u8);
                    false
                } else {
                    let v = self.read_reg16_stk(dst);
                    self.push(bus, (v & 0xFF) as u8);
                    true
                }
            },
            Instruction::Interrupt => {
                if step == 1 {
                    bus.idle_cycle();
                    false
                } else if step == 2 {
                    self.push(bus, (self.pc >> 8) as u8);
                    false
                } else if step == 3 {
                    self.push(bus, (self.pc & 0xFF) as u8);
                    false
                } else {
                    bus.idle_cycle();
                    let pending = bus.irq_pending();
                    let vector: u16 = if (pending & 0x01) != 0 {
                        bus.ack_irq(0);
                        0x0040
                    } else if (pending & 0x02) != 0 {
                        bus.ack_irq(1);
                        0x0048
                    } else if (pending & 0x04) != 0 {
                        bus.ack_irq(2);
                        0x0050
                    } else if (pending & 0x08) != 0 {
                        bus.ack_irq(3);
                        0x0058
                    } else if (pending & 0x10) != 0 {
                        bus.ack_irq(4);
                        0x0060
                    } else {
                        // the request went away while the return address was pushed
                        0x0000
                    };
                    self.pc = vector;
                    true
                }
            },
            Instruction::Stop => {
                bus.reset_div();
                let speed_armed = bus.read(0xFF4D) & 0x01 != 0;
                if speed_armed && self.variant == GbVariant::Cgb {
                    bus.perform_speed_switch();
                } else {
                    self.stopped = true;
                }
                self.pc = self.pc.wrapping_add(1);
                true
            },
            _ => {
                bus.idle_cycle();
                true
            },
        }
    }
}

/// The fetch cycle keeps the bookkeeping fields.
proof fn lemma_fetch_frame(s: GameBoyCpu)
    ensures
        s.fetch_result().config == s.config,
        s.fetch_result().variant == s.variant,
        s.fetch_result().current == s.current,
        s.fetch_result().instruction_step == s.instruction_step,
        s.fetch_result().current_opcode == s.current_opcode,
{
    reveal(GameBoyCpu::fetch_result);
}

/// The two's-complement value of an 8-bit displacement.
pub open spec fn signed_byte(e: u8) -> i16 {
    if e < 0x80 { e as i16 } else { (e as int - 256) as i16 }
}

/// `x` moved by the signed displacement `e`, modulo 2^16.
pub open spec fn add_offset(x: u16, e: u8) -> u16 {
    let s: int = x + signed_byte(e);
    if s > 0xFFFF { (s - 0x10000) as u16 } else if s < 0 { (s + 0x10000) as u16 } else { s as u16 }
}

/// The half-carry and carry of SP + e8, taken from the low byte.
pub open spec fn offset_half_carry(sp: u16, e: u8) -> bool {
    (sp & 0x0F) + (e & 0x0F) > 0x0F
}

pub open spec fn offset_carry(sp: u16, e: u8) -> bool {
    (sp & 0xFF) + e > 0xFF
}

fn signed_offset(e: u8) -> (r: i16)
    ensures
        r == signed_byte(e),
{
    if e < 0x80 { e as i16 } else { e as i16 - 256 }
}

/// SP + e8 with the flags ADD SP,e8 and LD HL,SP+e8 set.
fn offset_sp(sp: u16, e: u8) -> (r: (u16, bool, bool))
    ensures
        r == (add_offset(sp, e), offset_half_carry(sp, e), offset_carry(sp, e)),
{
    proof {
        crate::bits::lemma_word_fields(sp);
        crate::bits::lemma_byte_fields(e);
    }
    let raw = e as u16;
    proof {
        crate::bits::lemma_byte_pair(e, 0);
    }
    let res = sp.wrapping_add_signed(signed_offset(e));
    let h = (sp & 0x0F) + (raw & 0x0F) > 0x0F;
    let c = (sp & 0xFF) + raw > 0xFF;
    (res, h, c)
}

pub open spec fn hl_stepped(s: GameBoyCpu, rr: Reg16Mem) -> GameBoyCpu {
    match rr {
        Reg16Mem::HLI => s.with_reg16(Reg16::HL, s.hl_value().wrapping_add(1)),
        Reg16Mem::HLD => s.with_reg16(Reg16::HL, s.hl_value().wrapping_sub(1)),
        _ => s,
    }
}

/// The CPU after the opcode or operand byte at PC was read.
pub open spec fn fetched(s: GameBoyCpu) -> GameBoyCpu {
    GameBoyCpu { pc: if s.halt_bug { s.pc } else { s.pc.wrapping_add(1) }, halt_bug: false, ..s }
}

pub open spec fn pushed(s: GameBoyCpu) -> GameBoyCpu {
    GameBoyCpu { sp: s.sp.wrapping_sub(1), ..s }
}

pub open spec fn popped(s: GameBoyCpu) -> GameBoyCpu {
    GameBoyCpu { sp: s.sp.wrapping_add(1), ..s }
}

/// What no M-cycle after the fetch changes.
pub open spec fn micro_frame(s: GameBoyCpu, t: GameBoyCpu) -> bool {
    &&& t.current == s.current
    &&& t.instruction_step == s.instruction_step
    &&& t.config == s.config
    &&& t.variant == s.variant
    &&& t.cb_prefixed == s.cb_prefixed
    &&& t.halted == s.halted
}

/// The instruction kinds the four specialised handlers take.
pub open spec fn micro_grouped(i: Instruction) -> bool {
    ||| i is AddHlReg16 ||| i is AddSpE8 ||| i is LdHlSpE8 ||| i is IncReg16 ||| i is DecReg16
    ||| i is LdSpHl ||| i is Call ||| i is Jp ||| i is Jr ||| i is Ret ||| i is Reti ||| i is Rst
    ||| i is LdAcc ||| i is LdhAcc ||| i is LdFromAcc ||| i is LdhFromAcc ||| i is LdFromSp
    ||| i is LdAR16Mem ||| i is LdR16MemA ||| i is LdhCIndA ||| i is LdAIndC
    ||| i is Cb ||| i is IncReg ||| i is DecReg ||| i is AluReg ||| i is AluImm ||| i is LdRegReg
    ||| i is LdRegImm ||| i is LdReg16Imm
}

/// Whether a conditional branch is not taken.
pub open spec fn branch_skipped(s: GameBoyCpu, cond: Option<Condition>) -> bool {
    match cond {
        Some(cc) => !s.condition_holds(cc),
        None => false,
    }
}

/// One M-cycle after the fetch: `s` before, `t` after, `done` whether the
/// instruction completed. Fields that take a byte from the bus (the operand
/// latches, A on a load, the register a load writes) are left free; every
/// other field is fixed.
#[verifier::opaque]
pub open spec fn micro_ok(s: GameBoyCpu, t: GameBoyCpu, done: bool) -> bool {
    let step = s.instruction_step;
    let word = pair(s.current_msb, s.current_lsb);
    let lsb_fetched = GameBoyCpu { current_lsb: t.current_lsb, ..fetched(s) };
    let msb_fetched = GameBoyCpu { current_msb: t.current_msb, ..fetched(s) };
    match s.current {
        Instruction::AddHlReg16 { src } => {
            let reg = s.reg16_value(src);
            let hl = s.hl_value();
            let h = (hl & 0x0FFF) + (reg & 0x0FFF) > 0x0FFF;
            let c = hl + reg > 0xFFFF;
            done && t == GameBoyCpu {
                f: flag_byte(s.f & 0x80 != 0, false, h, c),
                ..s.with_reg16(Reg16::HL, hl.wrapping_add(reg))
            }
        },
        Instruction::AddSpE8 => if step == 1 {
            !done && t == lsb_fetched
        } else if step == 2 {
            !done && t == s
        } else {
            let f = flag_byte(false, false, offset_half_carry(s.sp, s.current_lsb), offset_carry(s.sp, s.current_lsb));
            done && t == GameBoyCpu { sp: add_offset(s.sp, s.current_lsb), f, ..s }
        },
        Instruction::LdHlSpE8 => if step == 1 {
            !done && t == lsb_fetched
        } else {
            let f = flag_byte(false, false, offset_half_carry(s.sp, s.current_lsb), offset_carry(s.sp, s.current_lsb));
            done && t == GameBoyCpu { f, ..s.with_reg16(Reg16::HL, add_offset(s.sp, s.current_lsb)) }
        },
        Instruction::IncReg16 { dst } => done && t == s.with_reg16(dst, s.reg16_value(dst).wrapping_add(1)),
        Instruction::DecReg16 { dst } => done && t == s.with_reg16(dst, s.reg16_value(dst).wrapping_sub(1)),
        Instruction::LdSpHl => done && t == GameBoyCpu { sp: s.hl_value(), ..s },
        Instruction::Call { cond } => if step == 1 {
            !done && t == lsb_fetched
        } else if step == 2 {
            t == msb_fetched && (done == branch_skipped(s, cond))
        } else if step == 3 {
            !done && t == s
        } else if step == 4 {
            !done && t == pushed(s)
        } else {
            done && t == GameBoyCpu { pc: word, ..pushed(s) }
        },
        Instruction::Jp { cond } => if step == 1 {
            !done && t == lsb_fetched
        } else if step == 2 {
            t == msb_fetched && (done == branch_skipped(s, cond))
        } else {
            done && t == GameBoyCpu { pc: word, ..s }
        },
        Instruction::Jr { cond } => if step == 1 {
            t == lsb_fetched && (done == branch_skipped(s, cond))
        } else {
            done && t == GameBoyCpu { pc: add_offset(s.pc, s.current_lsb), ..s }
        },
        Instruction::Ret { cond: None } | Instruction::Reti => if step == 1 {
            !done && t == GameBoyCpu { current_lsb: t.current_lsb, ..popped(s) }
        } else if step == 2 {
            !done && t == GameBoyCpu { current_msb: t.current_msb, ..popped(s) }
        } else {
            done && t == GameBoyCpu { pc: word, ime: s.ime || s.current is Reti, ..s }
        },
        Instruction::Ret { cond: Some(cc) } => if step == 1 {
            t == s && done == !s.condition_holds(cc)
        } else if step == 2 {
            !done && t == GameBoyCpu { current_lsb: t.current_lsb, ..popped(s) }
        } else if step == 3 {
            !done && t == GameBoyCpu { current_msb: t.current_msb, ..popped(s) }
        } else {
            done && t == GameBoyCpu { pc: word, ..s }
        },
        Instruction::Rst { addr } => if step == 1 {
            !done && t == s
        } else if step == 2 {
            !done && t == pushed(s)
        } else {
            done && t == GameBoyCpu { pc: addr, ..pushed(s) }
        },
        Instruction::LdAcc | Instruction::LdhAcc => if step == 1 {
            !done && t == lsb_fetched
        } else if step == 2 && s.current is LdhAcc {
            done && t == GameBoyCpu { a: t.a, ..s }
        } else if step == 2 {
            !done && t == msb_fetched
        } else {
            done && t == GameBoyCpu { a: t.a, ..s }
        },
        Instruction::LdFromAcc | Instruction::LdhFromAcc => if step == 1 {
            !done && t == lsb_fetched
        } else if step == 2 && s.current is LdhFromAcc {
            done && t == s
        } else if step == 2 {
            !done && t == msb_fetched
        } else {
            done && t == s
        },
        Instruction::LdFromSp => if step == 1 {
            !done && t == lsb_fetched
        } else if step == 2 {
            !done && t == msb_fetched
        } else {
            t == s && (done == (step != 3))
        },
        Instruction::LdAR16Mem { src } => done && t == GameBoyCpu { a: t.a, ..hl_stepped(s, src) },
        Instruction::LdR16MemA { dst } => done && t == hl_stepped(s, dst),
        Instruction::LdhCIndA => done && t == s,
        Instruction::LdAIndC => done && t == GameBoyCpu { a: t.a, ..s },
        Instruction::Cb(cb) => if step == 1 {
            &&& t == GameBoyCpu { f: t.f, current_value: t.current_value, ..s }
            &&& exists|v: u8| #[trigger] cb_spec(cb, s.f, v) == (
                if done { None::<u8> } else { Some(t.current_value) },
                t.f,
            )
        } else {
            done && t == s
        },
        Instruction::IncReg { dst } => if dst != Reg::MemHL {
            done && t == s
        } else if step == 1 {
            !done && t == GameBoyCpu { current_value: t.current_value, ..s }
        } else {
            let cv = s.current_value;
            done && t == GameBoyCpu {
                f: flag_byte(cv.wrapping_add(1) == 0, false, cv & 0x0F == 0x0F, s.f & 0x10 != 0),
                ..s
            }
        },
        Instruction::DecReg { dst } => if dst != Reg::MemHL {
            done && t == s
        } else if step == 1 {
            !done && t == GameBoyCpu { current_value: t.current_value, ..s }
        } else {
            let cv = s.current_value;
            done && t == GameBoyCpu {
                f: flag_byte(cv.wrapping_sub(1) == 0, true, cv & 0x0F == 0, s.f & 0x10 != 0),
                ..s
            }
        },
        Instruction::AluReg { op, .. } => {
            &&& done
            &&& t == GameBoyCpu { a: t.a, f: t.f, ..s }
            &&& exists|v: u8| #[trigger] alu_spec(op, s.a, s.f, v) == (t.a, t.f)
        },
        Instruction::AluImm { op } => {
            &&& done
            &&& t == GameBoyCpu { a: t.a, f: t.f, ..fetched(s) }
            &&& exists|v: u8| #[trigger] alu_spec(op, s.a, s.f, v) == (t.a, t.f)
        },
        Instruction::LdRegReg { dst, src } => if src == Reg::MemHL {
            done && exists|v: u8| t == #[trigger] s.with_reg(dst, v)
        } else {
            done && t == s
        },
        Instruction::LdRegImm { dst } => if dst != Reg::MemHL {
            done && exists|v: u8| t == #[trigger] fetched(s).with_reg(dst, v)
        } else if step == 1 {
            !done && t == lsb_fetched
        } else {
            done && t == s
        },
        Instruction::LdReg16Imm { dst } => if step == 1 {
            !done && t == lsb_fetched
        } else {
            done && t == msb_fetched.with_reg16(dst, pair(t.current_msb, s.current_lsb))
        },
        Instruction::Pop { dst } => if step == 1 {
            !done && t == GameBoyCpu { current_lsb: t.current_lsb, ..popped(s) }
        } else {
            let u = GameBoyCpu { current_msb: t.current_msb, ..popped(s) };
            done && t == u.with_reg16stk(dst, pair(t.current_msb, s.current_lsb))
        },
        Instruction::Push { .. } => if step == 1 {
            !done && t == s
        } else {
            t == pushed(s) && (done == (step != 2))
        },
        Instruction::Interrupt => if step == 1 {
            !done && t == s
        } else if step == 2 || step == 3 {
            !done && t == pushed(s)
        } else {
            &&& done
            &&& t == GameBoyCpu { pc: t.pc, ..s }
            &&& (t.pc == 0 || t.pc == 0x40 || t.pc == 0x48 || t.pc == 0x50 || t.pc == 0x58 || t.pc == 0x60)
        },
        Instruction::Stop => {
            &&& done
            &&& t == GameBoyCpu { pc: s.pc.wrapping_add(1), stopped: t.stopped, ..s }
            &&& (t.stopped || t.stopped == s.stopped)
            &&& s.variant != GbVariant::Cgb ==> t.stopped
        },
        _ => done && t == s,
    }
}

/// The 8-bit ALU's arithmetic: ADD, ADC, SUB, SBC and CP take A and the
/// operand modulo 256 (ADC and SBC with the carry flag as a further operand),
/// CP leaves A alone; Z is set exactly for a zero result, N exactly for the
/// subtractions, and C exactly when the true sum exceeds 255 or the true
/// difference is negative.
pub proof fn lemma_alu_arithmetic(a: u8, f: u8, v: u8)
    ensures
        ({
            let c: int = if f & 0x10 != 0 { 1 } else { 0 };
            let add = alu_spec(AluOp::Add, a, f, v);
            let adc = alu_spec(AluOp::Adc, a, f, v);
            let sub = alu_spec(AluOp::Sub, a, f, v);
            let sbc = alu_spec(AluOp::Sbc, a, f, v);
            let cp = alu_spec(AluOp::Cp, a, f, v);
            &&& add.0 == (a + v) % 256 && (add.1 & 0x10 != 0) == (a + v > 255)
            &&& (add.1 & 0x80 != 0) == ((a + v) % 256 == 0) && (add.1 & 0x40) == 0
            &&& adc.0 == (a + v + c) % 256 && (adc.1 & 0x10 != 0) == (a + v + c > 255)
            &&& (adc.1 & 0x80 != 0) == ((a + v + c) % 256 == 0) && (adc.1 & 0x40) == 0
            &&& sub.0 == (a - v) % 256 && (sub.1 & 0x10 != 0) == (a - v < 0)
            &&& (sub.1 & 0x80 != 0) == (a == v) && (sub.1 & 0x40) != 0
            &&& sbc.0 == (a - v - c) % 256 && (sbc.1 & 0x10 != 0) == (a - v - c < 0)
            &&& (sbc.1 & 0x80 != 0) == ((a - v - c) % 256 == 0) && (sbc.1 & 0x40) != 0
            &&& cp.0 == a && (cp.1 & 0x10 != 0) == (a < v) && (cp.1 & 0x80 != 0) == (a == v) && (cp.1 & 0x40) != 0
        }),
{
    let cin: u8 = if f & 0x10 != 0 { 1 } else { 0 };
    let r_add = a.wrapping_add(v);
    let full: int = a + v + cin;
    let r_adc = (full as u16) as u8;
    let r_sub = a.wrapping_sub(v);
    let r_sbc = a.wrapping_sub(v).wrapping_sub(cin);
    lemma_flag_byte(r_add == 0, false, (a & 0x0F) + (v & 0x0F) > 0x0F, a + v > 0xFF);
    lemma_flag_byte(r_adc == 0, false, (a & 0x0F) + (v & 0x0F) + cin > 0x0F, full > 0xFF);
    lemma_flag_byte(r_sub == 0, true, (a & 0x0F) < (v & 0x0F), a < v);
    lemma_flag_byte(r_sbc == 0, true, (a & 0x0F) < (v & 0x0F) + cin, a < v + cin);
    let c: int = if f & 0x10 != 0 { 1 } else { 0 };
    crate::bits::lemma_u16_low_byte(full as u16);
    assert(r_add == (a + v) % 256);
    assert(r_adc == (a + v + c) % 256);
    assert(r_sub == (a - v) % 256);
    assert(r_sbc == (a - v - c) % 256);
}

/// Left shifts and rotates of a byte as arithmetic.
proof fn lemma_left_shifts(v: u8)
    by (bit_vector)
    ensures
        ((v << 1u8) | (v >> 7u8)) == (v * 2) % 256 + v / 128,
        (v << 1u8) == (v * 2) % 256,
{
}

/// Right shifts and rotates of a byte as arithmetic.
proof fn lemma_right_shifts(v: u8)
    by (bit_vector)
    ensures
        ((v >> 1u8) | (v << 7u8)) == v / 2 + (v % 2) * 128,
        ((v >> 1u8) | (v & 0x80)) == v / 2 + (v / 128) * 128,
{
}

/// Swapping the nibbles of a byte as arithmetic.
proof fn lemma_nibble_swap(v: u8)
    by (bit_vector)
    ensures
        ((v << 4u8) | (v >> 4u8)) == (v % 16) * 16 + v / 16,
{
}

/// A left rotate through carry `c` as arithmetic.
proof fn lemma_rotate_left_carry(v: u8, c: u8)
    by (bit_vector)
    requires
        c <= 1,
    ensures
        ((v << 1u8) | c) == (v * 2) % 256 + c,
{
}

/// A right rotate through carry `c` as arithmetic, and the two end bits.
proof fn lemma_rotate_right_carry(v: u8, c: u8)
    by (bit_vector)
    requires
        c <= 1,
    ensures
        ((v >> 1u8) | (c << 7u8)) == v / 2 + c * 128,
        (v >> 1u8) == v / 2,
        ((v & 0x80) != 0) == (v >= 128),
        ((v & 0x01) != 0) == (v % 2 == 1),
{
}

/// The 0xCB shifts and rotates as arithmetic on the operand `v` with the
/// carry `c` of flag byte `f`: RLC, RRC, RL, RR, SLA, SRA, SWAP and SRL give
/// the values below, the carry flag takes the bit shifted out (SWAP clears
/// it), and the zero flag is set exactly for a zero result.
pub proof fn lemma_cb_shifts(cb: CbInstruction, f: u8, v: u8)
    ensures
        ({
            let c: int = if f & 0x10 != 0 { 1 } else { 0 };
            let (res, nf) = cb_spec(cb, f, v);
            let w = v as int;
            let expected: int = match cb.op {
                CbOp::Rlc => (w * 2) % 256 + w / 128,
                CbOp::Rrc => w / 2 + (w % 2) * 128,
                CbOp::Rl => (w * 2) % 256 + c,
                CbOp::Rr => w / 2 + c * 128,
                CbOp::Sla => (w * 2) % 256,
                CbOp::Sra => w / 2 + (if w >= 128 { 128int } else { 0 }),
                CbOp::Swap => (w % 16) * 16 + w / 16,
                CbOp::Srl => w / 2,
                _ => 0,
            };
            let carry_out: bool = match cb.op {
                CbOp::Rlc | CbOp::Rl | CbOp::Sla => v >= 128,
                CbOp::Swap => false,
                _ => v % 2 == 1,
            };
            (cb.op is Rlc || cb.op is Rrc || cb.op is Rl || cb.op is Rr || cb.op is Sla || cb.op is Sra
                || cb.op is Swap || cb.op is Srl) ==> {
                &&& res matches Some(r) && r == expected
                &&& (nf & 0x10 != 0) == carry_out
                &&& (nf & 0x80 != 0) == (expected == 0)
                &&& (nf & 0x40) == 0 && (nf & 0x20) == 0
            }
        }),
{
    let old_c: u8 = if f & 0x10 != 0 { 1 } else { 0 };
    lemma_left_shifts(v);
    lemma_right_shifts(v);
    lemma_nibble_swap(v);
    lemma_rotate_left_carry(v, old_c);
    lemma_rotate_right_carry(v, old_c);
    match cb.op {
        CbOp::Rlc => lemma_flag_byte(((v << 1u8) | (v >> 7u8)) == 0, false, false, v & 0x80 != 0),
        CbOp::Rrc => lemma_flag_byte(((v >> 1u8) | (v << 7u8)) == 0, false, false, v & 0x01 != 0),
        CbOp::Rl => lemma_flag_byte(((v << 1u8) | old_c) == 0, false, false, v & 0x80 != 0),
        CbOp::Rr => lemma_flag_byte(((v >> 1u8) | (old_c << 7u8)) == 0, false, false, v & 0x01 != 0),
        CbOp::Sla => lemma_flag_byte((v << 1u8) == 0, false, false, v & 0x80 != 0),
        CbOp::Sra => lemma_flag_byte(((v >> 1u8) | (v & 0x80)) == 0, false, false, v & 0x01 != 0),
        CbOp::Swap => lemma_flag_byte(((v << 4u8) | (v >> 4u8)) == 0, false, false, false),
        CbOp::Srl => lemma_flag_byte((v >> 1u8) == 0, false, false, v & 0x01 != 0),
        _ => {},
    }
}

} // verus!
