use vstd::prelude::*;

verus! {

/// The P1 ($FF00) joypad register: bits 4 and 5 select the direction keys
/// and the buttons (active low); bits 0-3 read the selected keys, 0 for
/// pressed.
pub struct Joypad {
    pub p1_select: u8,
    pub a: bool,
    pub b: bool,
    pub select: bool,
    pub start: bool,
    pub right: bool,
    pub left: bool,
    pub up: bool,
    pub down: bool,
    pub last_p1_nibble: u8,
    pub pending_low_transition: bool,
}

pub open spec fn bit_if(pressed: bool, bit: u8) -> u8 {
    if pressed { bit } else { 0 }
}

impl Joypad {
    /// The pressed keys of the selected groups, as bits 0-3.
    pub open spec fn pressed_bits(&self) -> u8 {
        let dir: u8 = if self.p1_select & 0x10 == 0 {
            bit_if(self.right, 0x01) | bit_if(self.left, 0x02) | bit_if(self.up, 0x04) | bit_if(self.down, 0x08)
        } else {
            0
        };
        let btn: u8 = if self.p1_select & 0x20 == 0 {
            bit_if(self.a, 0x01) | bit_if(self.b, 0x02) | bit_if(self.select, 0x04) | bit_if(self.start, 0x08)
        } else {
            0
        };
        dir | btn
    }

    /// The low nibble of P1: 1 for every line no selected pressed key pulls
    /// low.
    pub open spec fn nibble(&self) -> u8 {
        0x0F & !self.pressed_bits()
    }

    /// The joypad after re-reading the lines: a 1-to-0 transition on any
    /// line requests the joypad interrupt and latches the STOP wake-up.
    pub open spec fn transition(&self) -> u8 {
        (self.last_p1_nibble & !self.nibble()) & 0x0F
    }

    pub fn new() -> (r: Self)
        ensures
            r.p1_select == 0x30,
            !r.a && !r.b && !r.select && !r.start && !r.right && !r.left && !r.up && !r.down,
            r.last_p1_nibble == 0x0F,
            !r.pending_low_transition,
    {
        Self {
            p1_select: 0x30,
            a: false,
            b: false,
            select: false,
            start: false,
            right: false,
            left: false,
            up: false,
            down: false,
            last_p1_nibble: 0x0F,
            pending_low_transition: false,
        }
    }

    /// The lower 4 bits of $FF00 for the current keys and selection.
    pub fn read_p1_nibble(&self) -> (r: u8)
        ensures
            r == self.nibble(),
    {
        let dir: u8 = if (self.p1_select & 0x10) == 0 {
            (if self.right { 0x01u8 } else { 0 }) | (if self.left { 0x02u8 } else { 0 })
                | (if self.up { 0x04u8 } else { 0 }) | (if self.down { 0x08u8 } else { 0 })
        } else {
            0
        };
        let btn: u8 = if (self.p1_select & 0x20) == 0 {
            (if self.a { 0x01u8 } else { 0 }) | (if self.b { 0x02u8 } else { 0 })
                | (if self.select { 0x04u8 } else { 0 }) | (if self.start { 0x08u8 } else { 0 })
        } else {
            0
        };
        0x0F & !(dir | btn)
    }

    /// Re-reads the lines; a newly pulled-low line sets IF bit 4 and the
    /// STOP wake-up latch.
    pub fn update_state(&mut self, if_reg: &mut u8)
        ensures
            *final(if_reg) == (if old(self).transition() != 0 { *old(if_reg) | 0x10 } else { *old(if_reg) }),
            *final(self) == (Joypad {
                last_p1_nibble: old(self).nibble(),
                pending_low_transition: old(self).pending_low_transition || old(self).transition() != 0,
                ..*old(self)
            }),
    {
        let current_nibble = self.read_p1_nibble();
        let transition = (self.last_p1_nibble & !current_nibble) & 0x0F;
        if transition != 0 {
            *if_reg = *if_reg | 0x10;
            self.pending_low_transition = true;
        }
        self.last_p1_nibble = current_nibble;
    }

    /// A CPU write to P1: only the selection bits 4-5 take it.
    pub fn write_p1(&mut self, val: u8, if_reg: &mut u8)
        ensures
            final(self).p1_select == val & 0x30,
            ({
                let s = Joypad { p1_select: val & 0x30, ..*old(self) };
                &&& *final(if_reg) == (if s.transition() != 0 { *old(if_reg) | 0x10 } else { *old(if_reg) })
                &&& *final(self) == (Joypad {
                    last_p1_nibble: s.nibble(),
                    pending_low_transition: s.pending_low_transition || s.transition() != 0,
                    ..s
                })
            }),
    {
        self.p1_select = val & 0x30;
        self.update_state(if_reg);
    }

    /// The whole of $FF00: bits 6-7 read 1.
    pub fn read_p1(&self) -> (r: u8)
        ensures
            r == 0xC0 | self.p1_select | self.nibble(),
    {
        0xC0 | self.p1_select | self.read_p1_nibble()
    }

    /// Takes all eight keys from a mask (bit 0 up, 1 down, 2 left, 3 right,
    /// 4 B, 5 A, 6 select, 7 start) and re-reads the lines.
    pub fn set_button_state(&mut self, input_mask: u8, if_reg: &mut u8)
        ensures
            ({
                let s = Joypad {
                    a: input_mask & 0x20 != 0,
                    b: input_mask & 0x10 != 0,
                    select: input_mask & 0x40 != 0,
                    start: input_mask & 0x80 != 0,
                    right: input_mask & 0x08 != 0,
                    left: input_mask & 0x04 != 0,
                    up: input_mask & 0x01 != 0,
                    down: input_mask & 0x02 != 0,
                    ..*old(self)
                };
                &&& *final(if_reg) == (if s.transition() != 0 { *old(if_reg) | 0x10 } else { *old(if_reg) })
                &&& *final(self) == (Joypad {
                    last_p1_nibble: s.nibble(),
                    pending_low_transition: s.pending_low_transition || s.transition() != 0,
                    ..s
                })
            }),
    {
        self.a = (input_mask & 0x20) != 0;
        self.b = (input_mask & 0x10) != 0;
        self.select = (input_mask & 0x40) != 0;
        self.start = (input_mask & 0x80) != 0;
        self.right = (input_mask & 0x08) != 0;
        self.left = (input_mask & 0x04) != 0;
        self.up = (input_mask & 0x01) != 0;
        self.down = (input_mask & 0x02) != 0;
        self.update_state(if_reg);
    }
}

/// Pressing the A button while the buttons are selected pulls bit 0 low;
/// with that line high before, the joypad interrupt is requested.
pub proof fn lemma_press_pulls_line_low(j: Joypad)
    requires
        j.p1_select & 0x20 == 0,
        j.a,
        j.last_p1_nibble & 0x01 != 0,
    ensures
        j.nibble() & 0x01 == 0,
        j.transition() != 0,
{
    let d = if j.p1_select & 0x10 == 0 {
        bit_if(j.right, 0x01) | bit_if(j.left, 0x02) | bit_if(j.up, 0x04) | bit_if(j.down, 0x08)
    } else {
        0u8
    };
    let x = bit_if(j.b, 0x02);
    let y = bit_if(j.select, 0x04);
    let z = bit_if(j.start, 0x08);
    let b = 0x01u8 | x | y | z;
    let l = j.last_p1_nibble;
    lemma_joypad_bits(x, 0, y, z);
    lemma_joypad_bits(d, b, l, 0);
    assert(j.pressed_bits() == d | b);
    assert(j.nibble() == 0x0F & !(d | b));
}

/// Bit facts of the P1 register, proved once.
proof fn lemma_joypad_bits(d: u8, b: u8, l: u8, s: u8)
    by (bit_vector)
    ensures
        (b & 0x01 == 1 && l & 0x01 != 0) ==> ((0x0F & !(d | b)) & 0x01 == 0 && ((l & !(0x0F & !(d | b))) & 0x0F) != 0),
        0x0F & !(0u8 | 0u8) == 0x0Fu8,
        (((0x01u8 | d) | l) | s) & 0x01 == 1,
{
}

/// With neither group selected every line reads high.
pub proof fn lemma_nothing_selected(j: Joypad)
    requires
        j.p1_select & 0x30 == 0x30,
    ensures
        j.nibble() == 0x0F,
{
    let s = j.p1_select;
    crate::bits::lemma_byte_fields(s);
    lemma_joypad_bits(0, 0, 0, s);
}

} // verus!
