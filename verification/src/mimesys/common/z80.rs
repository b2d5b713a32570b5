use vstd::prelude::*;
use crate::mimesys::gameboy::gb_bus::Bus;

verus! {

pub struct CpuConfig {
    pub has_bcd: bool,
    pub has_jmp_bug: bool,
    pub is_c02: bool,
}

#[derive(Clone, Copy, Debug, PartialEq, Eq, Structural)]
pub enum CpuVariant {
    ZilogZ80,
    ZilogZ180,
}

/// The Z80 register file, with the shadow set that EX AF,AF' and EXX swap in.
pub struct Z80Registers {
    pub a: u8,
    pub f: u8,
    pub b: u8,
    pub c: u8,
    pub d: u8,
    pub e: u8,
    pub h: u8,
    pub l: u8,
    pub a_: u8,
    pub f_: u8,
    pub b_: u8,
    pub c_: u8,
    pub d_: u8,
    pub e_: u8,
    pub h_: u8,
    pub l_: u8,
    pub ix: u16,
    pub iy: u16,
    pub sp: u16,
    pub pc: u16,
    /// Interrupt vector.
    pub i: u8,
    /// Memory refresh.
    pub r: u8,
}

/// A register pair: `hi` in the upper byte.
pub open spec fn pair(hi: u8, lo: u8) -> u16 {
    (hi as int * 256 + lo as int) as u16
}

/// The register that `idx & 7` names in the r-field of an opcode (6 is
/// (HL), a memory operand, and is not a register).
pub open spec fn reg_index(idx: u8) -> int {
    (idx % 8) as int
}

impl Z80Registers {
    /// The register named by index `k` (0..=7, not 6).
    pub open spec fn reg(self, k: int) -> u8 {
        if k == 0 {
            self.b
        } else if k == 1 {
            self.c
        } else if k == 2 {
            self.d
        } else if k == 3 {
            self.e
        } else if k == 4 {
            self.h
        } else if k == 5 {
            self.l
        } else {
            self.a
        }
    }

    /// The file with register `k` (0..=7, not 6) set to `v`.
    pub open spec fn with_reg(self, k: int, v: u8) -> Self {
        if k == 0 {
            Z80Registers { b: v, ..self }
        } else if k == 1 {
            Z80Registers { c: v, ..self }
        } else if k == 2 {
            Z80Registers { d: v, ..self }
        } else if k == 3 {
            Z80Registers { e: v, ..self }
        } else if k == 4 {
            Z80Registers { h: v, ..self }
        } else if k == 5 {
            Z80Registers { l: v, ..self }
        } else {
            Z80Registers { a: v, ..self }
        }
    }

    pub fn bc(&self) -> (r: u16)
        ensures
            r == pair(self.b, self.c),
    {
        proof {
            crate::bits::lemma_pair(self.b, self.c);
        }
        ((self.b as u16) << 8u16) | self.c as u16
    }

    pub fn set_bc(&mut self, v: u16)
        ensures
            *final(self) == (Z80Registers { b: (v / 256) as u8, c: (v % 256) as u8, ..*old(self) }),
            pair(final(self).b, final(self).c) == v,
    {
        proof {
            crate::bits::lemma_word_fields(v);
            crate::bits::lemma_split(v);
            crate::bits::lemma_pair((v >> 8u16) as u8, v as u8);
        }
        self.b = (v >> 8u16) as u8;
        self.c = v as u8;
    }

    pub fn de(&self) -> (r: u16)
        ensures
            r == pair(self.d, self.e),
    {
        proof {
            crate::bits::lemma_pair(self.d, self.e);
        }
        ((self.d as u16) << 8u16) | self.e as u16
    }

    pub fn set_de(&mut self, v: u16)
        ensures
            *final(self) == (Z80Registers { d: (v / 256) as u8, e: (v % 256) as u8, ..*old(self) }),
            pair(final(self).d, final(self).e) == v,
    {
        proof {
            crate::bits::lemma_word_fields(v);
            crate::bits::lemma_split(v);
            crate::bits::lemma_pair((v >> 8u16) as u8, v as u8);
        }
        self.d = (v >> 8u16) as u8;
        self.e = v as u8;
    }

    pub fn hl(&self) -> (r: u16)
        ensures
            r == pair(self.h, self.l),
    {
        proof {
            crate::bits::lemma_pair(self.h, self.l);
        }
        ((self.h as u16) << 8u16) | self.l as u16
    }

    pub fn set_hl(&mut self, v: u16)
        ensures
            *final(self) == (Z80Registers { h: (v / 256) as u8, l: (v % 256) as u8, ..*old(self) }),
            pair(final(self).h, final(self).l) == v,
    {
        proof {
            crate::bits::lemma_word_fields(v);
            crate::bits::lemma_split(v);
            crate::bits::lemma_pair((v >> 8u16) as u8, v as u8);
        }
        self.h = (v >> 8u16) as u8;
        self.l = v as u8;
    }

    pub fn af(&self) -> (r: u16)
        ensures
            r == pair(self.a, self.f),
    {
        proof {
            crate::bits::lemma_pair(self.a, self.f);
        }
        ((self.a as u16) << 8u16) | self.f as u16
    }

    pub fn set_af(&mut self, v: u16)
        ensures
            *final(self) == (Z80Registers { a: (v / 256) as u8, f: (v % 256) as u8, ..*old(self) }),
            pair(final(self).a, final(self).f) == v,
    {
        proof {
            crate::bits::lemma_word_fields(v);
            crate::bits::lemma_split(v);
            crate::bits::lemma_pair((v >> 8u16) as u8, v as u8);
        }
        self.a = (v >> 8u16) as u8;
        self.f = v as u8;
    }

    /// Reads the 8-bit operand that index `idx & 7` names: a register, or
    /// for 6 the byte at (HL) from the bus.
    pub fn read_r<B: Bus + ?Sized>(&self, idx: u8, bus: &mut B) -> (r: u8)
        ensures
            reg_index(idx) != 6 ==> r == self.reg(reg_index(idx)),
    {
        proof {
            crate::bits::lemma_byte_fields(idx);
        }
        let k = idx & 0x07;
        if k == 0 {
            self.b
        } else if k == 1 {
            self.c
        } else if k == 2 {
            self.d
        } else if k == 3 {
            self.e
        } else if k == 4 {
            self.h
        } else if k == 5 {
            self.l
        } else if k == 6 {
            bus.read(self.hl())
        } else {
            self.a
        }
    }

    /// Writes `value` to what index `idx & 7` names: a register, or for 6
    /// the byte at (HL) on the bus (the registers then stay as they were).
    pub fn write_r<B: Bus + ?Sized>(&mut self, idx: u8, value: u8, bus: &mut B)
        ensures
            reg_index(idx) != 6 ==> *final(self) == old(self).with_reg(reg_index(idx), value),
            reg_index(idx) == 6 ==> *final(self) == *old(self),
    {
        proof {
            crate::bits::lemma_byte_fields(idx);
        }
        let k = idx & 0x07;
        if k == 0 {
            self.b = value;
        } else if k == 1 {
            self.c = value;
        } else if k == 2 {
            self.d = value;
        } else if k == 3 {
            self.e = value;
        } else if k == 4 {
            self.h = value;
        } else if k == 5 {
            self.l = value;
        } else if k == 6 {
            let addr = self.hl();
            bus.write(addr, value);
        } else {
            self.a = value;
        }
    }
}

/// A Z80 core: the register file and the interrupt and timing state around it.
pub struct Z80Cpu {
    pub pc: u16,
    pub sp: usize,
    pub regs: Z80Registers,
    pub nmi_pending: bool,
    pub prev_nmi_line: bool,
    pub last_cycles: u8,
    /// The most recent opcode, for debugging.
    pub last_opcode: u8,
    pub operand_address_crossed_page: bool,
    pub total_cycles: u64,
    pub is_running: bool,
    pub config: CpuConfig,
}

/// The opcodes whose M-cycle counts are known: register copies, 8- and
/// 16-bit immediate loads, LD (HL),A, LD (a16),A and the pushes.
pub open spec fn z80_cycles_spec(opcode: u8) -> Option<u8> {
    if opcode == 0x7F || (0x40 <= opcode <= 0x45) {
        Some(1)
    } else if opcode == 0x06 || opcode == 0x0E || opcode == 0x16 || opcode == 0x1E || opcode == 0x26 || opcode == 0x2E
        || opcode == 0x77 {
        Some(2)
    } else if opcode == 0x01 || opcode == 0x11 || opcode == 0x21 || opcode == 0x31 {
        Some(3)
    } else if opcode == 0xEA || opcode == 0xC5 || opcode == 0xD5 || opcode == 0xE5 || opcode == 0xF5 {
        Some(4)
    } else {
        None
    }
}

impl Z80Cpu {
    /// The M-cycles an opcode takes, for the opcodes with a known count.
    fn get_instruction_m_cycles(&self, opcode: u8) -> (r: u8)
        requires
            z80_cycles_spec(opcode) is Some,
        ensures
            Some(r) == z80_cycles_spec(opcode),
    {
        match opcode {
            0x7F | 0x40..=0x45 => 1,
            0x06 | 0x0E | 0x16 | 0x1E | 0x26 | 0x2E => 2,
            0x77 => 2,
            0x01 | 0x11 | 0x21 | 0x31 => 3,
            0xEA => 4,
            _ => 4,
        }
    }

    /// A core at address 0 with every register and flag clear.
    pub fn new() -> (r: Self)
        ensures
            r.pc == 0 && r.sp == 0 && r.total_cycles == 0 && r.last_cycles == 0 && r.last_opcode == 0,
            !r.is_running && !r.nmi_pending && !r.prev_nmi_line && !r.operand_address_crossed_page,
            r.regs.a == 0 && r.regs.f == 0 && r.regs.b == 0 && r.regs.c == 0,
            r.regs.d == 0 && r.regs.e == 0 && r.regs.h == 0 && r.regs.l == 0,
            r.regs.ix == 0 && r.regs.iy == 0 && r.regs.sp == 0 && r.regs.pc == 0,
    {
        Z80Cpu {
            pc: 0,
            sp: 0,
            regs: Z80Registers {
                a: 0,
                f: 0,
                b: 0,
                c: 0,
                d: 0,
                e: 0,
                h: 0,
                l: 0,
                a_: 0,
                f_: 0,
                b_: 0,
                c_: 0,
                d_: 0,
                e_: 0,
                h_: 0,
                l_: 0,
                ix: 0,
                iy: 0,
                sp: 0,
                pc: 0,
                i: 0,
                r: 0,
            },
            nmi_pending: false,
            prev_nmi_line: false,
            last_cycles: 0,
            last_opcode: 0,
            operand_address_crossed_page: false,
            total_cycles: 0,
            is_running: false,
            config: CpuConfig { has_bcd: false, has_jmp_bug: false, is_c02: false },
        }
    }
}

/// Writing a pair and reading it back gives the value written.
pub proof fn lemma_pair_round_trip(v: u16)
    ensures
        pair((v / 256) as u8, (v % 256) as u8) == v,
{
}

} // verus!
