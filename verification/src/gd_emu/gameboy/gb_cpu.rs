use vstd::prelude::*;
use crate::gd_emu::common::bus::AddressBus;
use crate::mimesys::gameboy::gb_cpu::{cb_spec, decode_cb_spec, pack_flags, pair, CbInstruction, CbOp, Reg};

verus! {

#[derive(Clone, Copy, PartialEq, Eq, Structural)]
pub enum GbVariant {
    Dmg,
    Mgb,
    Cgb,
    Sgb,
    Sgb2,
    Agb,
}

/// What a model starts with: the registers the boot ROM leaves behind, and
/// whether it has the double-speed mode.
#[derive(Clone, Copy)]
pub struct GbCpuConfig {
    pub variant: GbVariant,
    pub initial_a: u8,
    pub initial_f: u8,
    pub initial_bc: u16,
    pub initial_de: u16,
    pub initial_hl: u16,
    pub initial_sp: u16,
    pub supports_double_speed: bool,
}

/// The post-boot register values of each model.
pub open spec fn config_spec(variant: GbVariant) -> GbCpuConfig {
    match variant {
        GbVariant::Dmg | GbVariant::Sgb | GbVariant::Sgb2 => GbCpuConfig {
            variant,
            initial_a: 0x01,
            initial_f: 0xB0,
            initial_bc: 0x0013,
            initial_de: 0x00D8,
            initial_hl: 0x014D,
            initial_sp: 0xFFFE,
            supports_double_speed: false,
        },
        GbVariant::Mgb => GbCpuConfig {
            variant,
            initial_a: 0xFF,
            initial_f: 0xB0,
            initial_bc: 0x0013,
            initial_de: 0x00D8,
            initial_hl: 0x014D,
            initial_sp: 0xFFFE,
            supports_double_speed: false,
        },
        GbVariant::Cgb => GbCpuConfig {
            variant,
            initial_a: 0x11,
            initial_f: 0x80,
            initial_bc: 0x0000,
            initial_de: 0xFF56,
            initial_hl: 0x000D,
            initial_sp: 0xFFFE,
            supports_double_speed: true,
        },
        GbVariant::Agb => GbCpuConfig {
            variant,
            initial_a: 0x11,
            initial_f: 0x80,
            initial_bc: 0x0100,
            initial_de: 0xFF56,
            initial_hl: 0x000D,
            initial_sp: 0xFFFE,
            supports_double_speed: true,
        },
    }
}

impl GbCpuConfig {
    pub fn for_variant(variant: GbVariant) -> (r: Self)
        ensures
            r == config_spec(variant),
    {
        match variant {
            GbVariant::Dmg => GbCpuConfig {
                variant,
                initial_a: 0x01,
                initial_f: 0xB0,
                initial_bc: 0x0013,
                initial_de: 0x00D8,
                initial_hl: 0x014D,
                initial_sp: 0xFFFE,
                supports_double_speed: false,
            },
            GbVariant::Mgb => GbCpuConfig {
                variant,
                initial_a: 0xFF,
                initial_f: 0xB0,
                initial_bc: 0x0013,
                initial_de: 0x00D8,
                initial_hl: 0x014D,
                initial_sp: 0xFFFE,
                supports_double_speed: false,
            },
            GbVariant::Cgb => GbCpuConfig {
                variant,
                initial_a: 0x11,
                initial_f: 0x80,
                initial_bc: 0x0000,
                initial_de: 0xFF56,
                initial_hl: 0x000D,
                initial_sp: 0xFFFE,
                supports_double_speed: true,
            },
            GbVariant::Agb => GbCpuConfig {
                variant,
                initial_a: 0x11,
                initial_f: 0x80,
                initial_bc: 0x0100,
                initial_de: 0xFF56,
                initial_hl: 0x000D,
                initial_sp: 0xFFFE,
                supports_double_speed: true,
            },
            GbVariant::Sgb | GbVariant::Sgb2 => GbCpuConfig {
                variant,
                initial_a: 0x01,
                initial_f: 0xB0,
                initial_bc: 0x0013,
                initial_de: 0x00D8,
                initial_hl: 0x014D,
                initial_sp: 0xFFFE,
                supports_double_speed: false,
            },
        }
    }
}

/// The rotate or shift that bits 3-5 of a 0xCB opcode in its first
/// quarter select.
pub open spec fn shift_op(kind: u8) -> CbOp {
    match kind {
        0 => CbOp::Rlc,
        1 => CbOp::Rrc,
        2 => CbOp::Rl,
        3 => CbOp::Rr,
        4 => CbOp::Sla,
        5 => CbOp::Sra,
        6 => CbOp::Swap,
        _ => CbOp::Srl,
    }
}

/// How many M-cycles an opcode takes, for the opcodes this core has timing
/// for; for 0xCB it depends on the byte after it, `sub`.
pub open spec fn m_cycles_spec(opcode: u8, sub: u8) -> Option<u8> {
    if opcode == 0xCB {
        Some(if sub & 0x07 == 6 { 4u8 } else { 2u8 })
    } else if opcode == 0x7F || (0x40 <= opcode && opcode <= 0x45) {
        Some(1u8)
    } else if opcode == 0x06 || opcode == 0x0E || opcode == 0x16 || opcode == 0x1E || opcode == 0x26
        || opcode == 0x2E || opcode == 0x77 {
        Some(2u8)
    } else if opcode == 0x01 || opcode == 0x11 || opcode == 0x21 || opcode == 0x31 {
        Some(3u8)
    } else if opcode == 0xEA || opcode == 0xC5 || opcode == 0xD5 || opcode == 0xE5 || opcode == 0xF5 {
        Some(4u8)
    } else {
        None
    }
}

pub struct GameBoyCpu {
    pub a: u8,
    pub f: u8,
    pub b: u8,
    pub c: u8,
    pub d: u8,
    pub e: u8,
    pub h: u8,
    pub l: u8,
    pub sp: u16,
    pub pc: u16,
    pub current_opcode: u8,
    pub instruction_step: u8,
    pub cycles_remaining: u8,
    pub temp_16: u16,
    pub temp_8: u8,
    pub temp_hl_val: u8,
    pub config: GbCpuConfig,
}

impl GameBoyCpu {
    /// The register an r-field index names (0 for 6, the (HL) operand).
    pub open spec fn r8(self, idx: u8) -> u8 {
        if idx == 0 {
            self.b
        } else if idx == 1 {
            self.c
        } else if idx == 2 {
            self.d
        } else if idx == 3 {
            self.e
        } else if idx == 4 {
            self.h
        } else if idx == 5 {
            self.l
        } else if idx == 7 {
            self.a
        } else {
            0
        }
    }

    /// The CPU with register `idx` (not 6) set to `v`.
    pub open spec fn with_r8(self, idx: u8, v: u8) -> Self {
        if idx == 0 {
            GameBoyCpu { b: v, ..self }
        } else if idx == 1 {
            GameBoyCpu { c: v, ..self }
        } else if idx == 2 {
            GameBoyCpu { d: v, ..self }
        } else if idx == 3 {
            GameBoyCpu { e: v, ..self }
        } else if idx == 4 {
            GameBoyCpu { h: v, ..self }
        } else if idx == 5 {
            GameBoyCpu { l: v, ..self }
        } else {
            GameBoyCpu { a: v, ..self }
        }
    }

    /// A CPU with the post-boot registers of `variant`.
    pub fn new(variant: GbVariant) -> (r: Self)
        ensures
            r.config == config_spec(variant),
            r.a == r.config.initial_a && r.f == r.config.initial_f,
            pair(r.b, r.c) == r.config.initial_bc,
            pair(r.d, r.e) == r.config.initial_de,
            pair(r.h, r.l) == r.config.initial_hl,
            r.sp == r.config.initial_sp,
            r.pc == 0 && r.cycles_remaining == 0 && r.instruction_step == 0,
    {
        let config = GbCpuConfig::for_variant(variant);
        proof {
            crate::bits::lemma_split(config.initial_bc);
            crate::bits::lemma_split(config.initial_de);
            crate::bits::lemma_split(config.initial_hl);
        }
        GameBoyCpu {
            a: config.initial_a,
            b: (config.initial_bc >> 8u16) as u8,
            c: config.initial_bc as u8,
            d: (config.initial_de >> 8u16) as u8,
            e: config.initial_de as u8,
            f: config.initial_f,
            h: (config.initial_hl >> 8u16) as u8,
            l: config.initial_hl as u8,
            sp: config.initial_sp,
            pc: 0,
            current_opcode: 0,
            instruction_step: 0,
            cycles_remaining: 0,
            temp_16: 0,
            temp_8: 0,
            temp_hl_val: 0,
            config,
        }
    }

    pub fn bc(&self) -> (r: u16)
        ensures
            r == pair(self.b, self.c),
    {
        ((self.b as u16) << 8u16) | self.c as u16
    }

    pub fn set_bc(&mut self, v: u16)
        ensures
            *final(self) == (GameBoyCpu { b: (v >> 8u16) as u8, c: v as u8, ..*old(self) }),
            pair(final(self).b, final(self).c) == v,
    {
        proof {
            crate::bits::lemma_split(v);
        }
        self.b = (v >> 8u16) as u8;
        self.c = v as u8;
    }

    pub fn de(&self) -> (r: u16)
        ensures
            r == pair(self.d, self.e),
    {
        ((self.d as u16) << 8u16) | self.e as u16
    }

    pub fn set_de(&mut self, v: u16)
        ensures
            *final(self) == (GameBoyCpu { d: (v >> 8u16) as u8, e: v as u8, ..*old(self) }),
            pair(final(self).d, final(self).e) == v,
    {
        proof {
            crate::bits::lemma_split(v);
        }
        self.d = (v >> 8u16) as u8;
        self.e = v as u8;
    }

    pub fn hl(&self) -> (r: u16)
        ensures
            r == pair(self.h, self.l),
    {
        ((self.h as u16) << 8u16) | self.l as u16
    }

    pub fn set_hl(&mut self, v: u16)
        ensures
            *final(self) == (GameBoyCpu { h: (v >> 8u16) as u8, l: v as u8, ..*old(self) }),
            pair(final(self).h, final(self).l) == v,
    {
        proof {
            crate::bits::lemma_split(v);
        }
        self.h = (v >> 8u16) as u8;
        self.l = v as u8;
    }

    pub fn af(&self) -> (r: u16)
        ensures
            r == pair(self.a, self.f),
    {
        ((self.a as u16) << 8u16) | self.f as u16
    }

    pub fn set_af(&mut self, v: u16)
        ensures
            *final(self) == (GameBoyCpu { a: (v >> 8u16) as u8, f: v as u8, ..*old(self) }),
            pair(final(self).a, final(self).f) == v,
    {
        proof {
            crate::bits::lemma_split(v);
        }
        self.a = (v >> 8u16) as u8;
        self.f = v as u8;
    }

    fn get_r8_value(&self, reg_idx: u8) -> (r: u8)
        ensures
            r == self.r8(reg_idx),
    {
        match reg_idx {
            0 => self.b,
            1 => self.c,
            2 => self.d,
            3 => self.e,
            4 => self.h,
            5 => self.l,
            7 => self.a,
            _ => 0,
        }
    }

    /// The M-cycle count of `opcode` (`sub` is the byte after a 0xCB).
    fn get_instruction_m_cycles(&self, opcode: u8, sub: u8) -> (r: u8)
        requires
            m_cycles_spec(opcode, sub) is Some,
        ensures
            Some(r) == m_cycles_spec(opcode, sub),
    {
        match opcode {
            0xCB => {
                if (sub & 0x07) == 6 {
                    4
                } else {
                    2
                }
            },
            0x7F | 0x40..=0x45 => 1,
            0x06 | 0x0E | 0x16 | 0x1E | 0x26 | 0x2E => 2,
            0x77 => 2,
            0x01 | 0x11 | 0x21 | 0x31 => 3,
            _ => 4,
        }
    }

    /// A rotate, shift or swap (`kind` is bits 3-5 of the 0xCB opcode) of
    /// `value`: returns the result and sets the flags from it.
    fn execute_shift_rotate(&mut self, kind: u8, value: u8) -> (r: u8)
        requires
            kind < 8,
        ensures
            (Some(r), final(self).f) == cb_spec(CbInstruction { op: shift_op(kind), bit: kind, target: Reg::B }, old(self).f, value),
            *final(self) == (GameBoyCpu { f: final(self).f, ..*old(self) }),
    {
        let old_c: u8 = if self.f & 0x10 != 0 { 1 } else { 0 };
        let (res, carry) = match kind {
            0 => ((value << 1u8) | (value >> 7u8), value & 0x80 != 0),
            1 => ((value >> 1u8) | (value << 7u8), value & 0x01 != 0),
            2 => ((value << 1u8) | old_c, value & 0x80 != 0),
            3 => ((value >> 1u8) | (old_c << 7u8), value & 0x01 != 0),
            4 => (value << 1u8, value & 0x80 != 0),
            5 => ((value >> 1u8) | (value & 0x80), value & 0x01 != 0),
            6 => ((value << 4u8) | (value >> 4u8), false),
            _ => (value >> 1u8, value & 0x01 != 0),
        };
        self.f = pack_flags(res == 0, false, false, carry);
        res
    }

    /// A 0xCB operation on `value`: sets the flags and returns the byte to
    /// write back (for BIT, `value` itself).
    fn calculate_cb_value(&mut self, sub_opcode: u8, value: u8) -> (r: u8)
        ensures
            ({
                let (res, nf) = cb_spec(decode_cb_spec(sub_opcode), old(self).f, value);
                &&& final(self).f == nf
                &&& r == (match res { Some(v) => v, None => value })
            }),
            *final(self) == (GameBoyCpu { f: final(self).f, ..*old(self) }),
    {
        proof {
            crate::bits::lemma_byte_fields(sub_opcode);
        }
        let category = (sub_opcode >> 6u8) & 0x03;
        let bit_idx = (sub_opcode >> 3u8) & 0x07;
        if category == 0 {
            self.execute_shift_rotate(bit_idx, value)
        } else if category == 1 {
            let bit_set = (value & (1u8 << bit_idx)) != 0;
            let old_carry = self.f & 0x10 != 0;
            self.f = pack_flags(!bit_set, false, true, old_carry);
            value
        } else if category == 2 {
            value & !(1u8 << bit_idx)
        } else {
            value | (1u8 << bit_idx)
        }
    }

    /// A 0xCB operation on a register (`sub_opcode & 7` is not 6): the
    /// register gets the result (not for BIT) and F the new flags.
    fn execute_cb_register_operation(&mut self, sub_opcode: u8)
        requires
            sub_opcode & 0x07 != 6,
        ensures
            ({
                let idx = sub_opcode & 0x07;
                let (res, nf) = cb_spec(decode_cb_spec(sub_opcode), old(self).f, old(self).r8(idx));
                let g = GameBoyCpu { f: nf, ..*old(self) };
                *final(self) == (match res { Some(v) => g.with_r8(idx, v), None => g })
            }),
    {
        let reg_idx = sub_opcode & 0x07;
        proof {
            crate::bits::lemma_byte_fields(sub_opcode);
        }
        let value = self.get_r8_value(reg_idx);
        let is_bit = (sub_opcode >> 6u8) & 0x03 == 1;
        let updated = self.calculate_cb_value(sub_opcode, value);
        if is_bit {
            return;
        }
        match reg_idx {
            0 => self.b = updated,
            1 => self.c = updated,
            2 => self.d = updated,
            3 => self.e = updated,
            4 => self.h = updated,
            5 => self.l = updated,
            _ => self.a = updated,
        }
    }

    /// The work of the current instruction's M-cycle `instruction_step`
    /// after the fetch: the 0xCB pipeline (operand fetch, then for (HL) a
    /// read and a write-back) and LD (HL),A. Other opcodes do nothing here.
    fn execute_micro_step<B: AddressBus + ?Sized>(&mut self, bus: &mut B)
        ensures
            old(self).current_opcode == 0xCB && old(self).instruction_step == 0 ==> final(self).pc
                == old(self).pc.wrapping_add(1),
            old(self).current_opcode == 0xCB && old(self).instruction_step == 2 ==> ({
                let (res, nf) = cb_spec(decode_cb_spec(old(self).temp_8), old(self).f, old(self).temp_hl_val);
                *final(self) == (GameBoyCpu { f: nf, ..*old(self) })
            }),
            old(self).current_opcode == 0xCB && old(self).instruction_step == 1 ==> *final(self)
                == (GameBoyCpu { temp_hl_val: final(self).temp_hl_val, ..*old(self) }),
            old(self).current_opcode != 0xCB ==> *final(self) == *old(self),
            old(self).current_opcode == 0xCB && old(self).instruction_step > 2 ==> *final(self) == *old(self),
    {
        if self.current_opcode == 0xCB {
            if self.instruction_step == 0 {
                let sub_opcode = bus.read_byte(self.pc);
                self.pc = self.pc.wrapping_add(1);
                if sub_opcode & 0x07 != 6 {
                    self.execute_cb_register_operation(sub_opcode);
                    proof {
                        crate::bits::lemma_byte_fields(sub_opcode);
                    }
                } else {
                    self.temp_8 = sub_opcode;
                }
            } else if self.instruction_step == 1 {
                let addr = self.hl();
                self.temp_hl_val = bus.read_byte(addr);
            } else if self.instruction_step == 2 {
                let t8 = self.temp_8;
                let tv = self.temp_hl_val;
                let updated_val = self.calculate_cb_value(t8, tv);
                let addr = self.hl();
                bus.write_byte(addr, updated_val);
            }
        } else if self.current_opcode == 0x77 {
            if self.instruction_step == 0 {
                let addr = self.hl();
                bus.write_byte(addr, self.a);
            }
        }
    }
}

} // verus!
