use vstd::prelude::*;
use crate::mimesys::common::timed::Timed;

verus! {

/// DIV/TIMA/TMA/TAC: a 16-bit counter advanced every T-cycle (DIV is its
/// upper byte); TIMA counts the falling edges of the counter bit that TAC
/// selects, and on overflow reloads from TMA one cycle later and requests
/// the timer interrupt.
pub struct GbTimer {
    pub last_master: u64,
    pub div: u64,
    pub ticks: u64,
    pub counter: u16,
    pub tima: u8,
    pub tma: u8,
    pub tac: u8,
    pub prev_and_bit: bool,
    pub reload_pending: bool,
    pub pending_irqs: u8,
}

/// The counter bit TAC's clock select watches.
pub open spec fn selected_bit_of(tac: u8) -> u16 {
    match tac & 0b11 {
        0 => 0x0200,
        1 => 0x0008,
        2 => 0x0020,
        _ => 0x0080,
    }
}

impl GbTimer {
    pub open spec fn wf(&self) -> bool {
        self.div > 0
    }

    /// The timer one T-cycle later.
    pub open spec fn ticked(self) -> GbTimer {
        let s = if self.reload_pending {
            GbTimer { tima: self.tma, pending_irqs: self.pending_irqs | 0x04, reload_pending: false, ..self }
        } else {
            self
        };
        let counter = s.counter.wrapping_add(1);
        let and_bit = s.tac & 0b100 != 0 && (counter & selected_bit_of(s.tac)) != 0;
        let falling = s.prev_and_bit && !and_bit;
        let tima = if falling { s.tima.wrapping_add(1) } else { s.tima };
        let reload = if falling && s.tima == 0xFF { true } else { s.reload_pending };
        GbTimer { counter, tima, reload_pending: reload, prev_and_bit: and_bit, ..s }
    }

    /// The timer `n` T-cycles later.
    pub open spec fn ticked_n(self, n: nat) -> GbTimer
        decreases n,
    {
        if n == 0 { self } else { self.ticked_n((n - 1) as nat).ticked() }
    }

    /// What the CPU reads at `addr`.
    pub open spec fn read_spec(self, addr: u16) -> u8 {
        if addr == 0xFF04 {
            (self.counter >> 8u16) as u8
        } else if addr == 0xFF05 {
            self.tima
        } else if addr == 0xFF06 {
            self.tma
        } else if addr == 0xFF07 {
            self.tac | 0xF8
        } else {
            0xFF
        }
    }

    /// The timer after the CPU writes `value` at `addr`.
    pub open spec fn write_spec(self, addr: u16, value: u8) -> GbTimer {
        if addr == 0xFF04 {
            GbTimer { counter: 0, ..self }
        } else if addr == 0xFF05 {
            GbTimer { tima: value, ..self }
        } else if addr == 0xFF06 {
            GbTimer { tma: value, ..self }
        } else if addr == 0xFF07 {
            GbTimer { tac: value & 0b111, ..self }
        } else {
            self
        }
    }

    pub fn new() -> (r: Self)
        ensures
            r.wf(),
            r.last_master == 0 && r.div == 1 && r.ticks == 0 && r.counter == 0,
            r.tima == 0 && r.tma == 0 && r.tac == 0,
            !r.prev_and_bit && !r.reload_pending && r.pending_irqs == 0,
    {
        Self {
            last_master: 0,
            div: 1,
            ticks: 0,
            counter: 0,
            tima: 0,
            tma: 0,
            tac: 0,
            prev_and_bit: false,
            reload_pending: false,
            pending_irqs: 0,
        }
    }

    fn selected_bit(&self) -> (r: u16)
        ensures
            r == selected_bit_of(self.tac),
    {
        proof {
            crate::bits::lemma_word_fields(0);
        }
        match self.tac & 0b11 {
            0b00 => 1u16 << 9u16,
            0b01 => 1u16 << 3u16,
            0b10 => 1u16 << 5u16,
            _ => 1u16 << 7u16,
        }
    }

    fn timer_enabled(&self) -> (r: bool)
        ensures
            r == (self.tac & 0b100 != 0),
    {
        self.tac & 0b100 != 0
    }

    fn tick_one_t_cycle(&mut self)
        ensures
            *final(self) == old(self).ticked(),
    {
        if self.reload_pending {
            self.tima = self.tma;
            self.pending_irqs = self.pending_irqs | 0x04;
            self.reload_pending = false;
        }
        self.counter = self.counter.wrapping_add(1);
        let and_bit = self.timer_enabled() && (self.counter & self.selected_bit()) != 0;
        if self.prev_and_bit && !and_bit {
            let overflowed = self.tima == 0xFF;
            self.tima = self.tima.wrapping_add(1);
            if overflowed {
                self.reload_pending = true;
            }
        }
        self.prev_and_bit = and_bit;
    }

    pub fn read(&self, addr: u16) -> (r: u8)
        ensures
            r == self.read_spec(addr),
    {
        if addr == 0xFF04 {
            (self.counter >> 8u16) as u8
        } else if addr == 0xFF05 {
            self.tima
        } else if addr == 0xFF06 {
            self.tma
        } else if addr == 0xFF07 {
            self.tac | 0xF8
        } else {
            0xFF
        }
    }

    pub fn write(&mut self, addr: u16, value: u8)
        ensures
            *final(self) == old(self).write_spec(addr, value),
    {
        if addr == 0xFF04 {
            self.counter = 0;
        } else if addr == 0xFF05 {
            self.tima = value;
        } else if addr == 0xFF06 {
            self.tma = value;
        } else if addr == 0xFF07 {
            self.tac = value & 0b111;
        }
    }

    /// Hands out the requested interrupts (IF bits) and clears them.
    pub fn take_irqs(&mut self) -> (r: u8)
        ensures
            r == old(self).pending_irqs,
            *final(self) == (GbTimer { pending_irqs: 0, ..*old(self) }),
    {
        let r = self.pending_irqs;
        self.pending_irqs = 0;
        r
    }
}

impl Timed for GbTimer {
    /// Runs the T-cycles up to `target_master / div`.
    fn run_until(&mut self, target_master: u64)
        ensures
            old(self).wf() ==> ({
                let target = target_master / old(self).div;
                let n: nat = if old(self).ticks < target { (target - old(self).ticks) as nat } else { 0 };
                &&& final(self).ticks == (if old(self).ticks < target { target } else { old(self).ticks })
                &&& final(self).last_master == target_master
                &&& (GbTimer { ticks: old(self).ticks, last_master: old(self).last_master, ..*final(self) })
                    == old(self).ticked_n(n)
            }),
    {
        if self.div == 0 {
            self.last_master = target_master;
            return;
        }
        let target_tick = target_master / self.div;
        let ghost start = *self;
        while self.ticks < target_tick
            invariant
                start.ticks <= self.ticks,
                start.ticks < target_tick ==> self.ticks <= target_tick,
                start.ticks >= target_tick ==> self.ticks == start.ticks,
                self.div == start.div,
                self.last_master == start.last_master,
                (GbTimer { ticks: start.ticks, ..*self }) == start.ticked_n((self.ticks - start.ticks) as nat),
            decreases target_tick - self.ticks,
        {
            let ghost before = *self;
            self.tick_one_t_cycle();
            self.ticks = self.ticks + 1;
            assert((GbTimer { ticks: start.ticks, ..*self }) == (GbTimer { ticks: start.ticks, ..before }).ticked());
        }
        let ghost pre = *self;
        self.last_master = target_master;
        assert((GbTimer { ticks: start.ticks, last_master: start.last_master, ..*self }) == (GbTimer { ticks: start.ticks, ..pre }));
    }

    fn sync_point(&self) -> (r: u64)
        ensures
            r == self.last_master,
    {
        self.last_master
    }
}

/// Writing DIV resets the whole counter: DIV then reads 0.
pub proof fn lemma_div_write_resets(t: GbTimer, value: u8)
    ensures
        t.write_spec(0xFF04, value).read_spec(0xFF04) == 0,
{
    crate::bits::lemma_word_fields(0);
}

/// TIMA and TMA read back what was written; TAC reads back its low three
/// bits with the unused bits high.
pub proof fn lemma_register_round_trip(t: GbTimer, value: u8)
    ensures
        t.write_spec(0xFF05, value).read_spec(0xFF05) == value,
        t.write_spec(0xFF06, value).read_spec(0xFF06) == value,
        t.write_spec(0xFF07, value).read_spec(0xFF07) == (value & 0x07) | 0xF8,
{
}

/// A TIMA overflow reloads TIMA from TMA on the next cycle and requests the
/// timer interrupt (IF bit 2).
pub proof fn lemma_overflow_reloads(t: GbTimer)
    requires
        t.reload_pending,
    ensures
        t.ticked().pending_irqs & 0x04 != 0,
        t.ticked().tima == t.tma || t.ticked().tima == t.tma.wrapping_add(1),
{
    let p = t.pending_irqs;
    crate::bits::lemma_byte_fields(p);
}

} // verus!
