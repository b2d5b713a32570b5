use vstd::prelude::*;
use crate::mimesys::common::timed::Timed;

verus! {

/// The duty pattern of duty setting `d`: bit `k` is the output of step `k`.
pub open spec fn duty_pattern(d: u8) -> u8 {
    if d == 0 {
        0b00000001
    } else if d == 1 {
        0b10000001
    } else if d == 2 {
        0b10000111
    } else {
        0b01111110
    }
}

fn duty_pattern_exec(d: u8) -> (r: u8)
    requires
        d < 4,
    ensures
        r == duty_pattern(d),
{
    let t: [u8; 4] = [0b00000001, 0b10000001, 0b10000111, 0b01111110];
    t[d as usize]
}

/// A square channel's timer period for frequency register `freq`, in CPU
/// cycles.
pub open spec fn channel_period(freq: u16) -> int {
    (2048 - freq) * 4
}

/// A square channel (timer, duty step, output) after `cycles` cycles:
/// each full period moves the duty step on by one (mod 8) and sets the
/// output to +1 or -1 from the duty bit of the new step.
pub open spec fn pulse_advanced(timer: u64, step: u8, out: i8, duty: u8, freq: u16, cycles: u64) -> (u64, u8, i8) {
    let p = channel_period(freq);
    let total = timer + cycles;
    let n = total / p;
    let s = ((step + n) % 8) as u8;
    let o: i8 = if n > 0 {
        if (duty_pattern(duty) >> s) & 1u8 != 0 { 1i8 } else { -1i8 }
    } else {
        out
    };
    ((total % p) as u64, s, o)
}

/// The Game Boy sound unit's registers and square-channel state. The
/// samples are produced from this state by the host's mixer.
pub struct GbAPU {
    pub ch_enabled: [bool; 4],
    pub ch_frequency: [u16; 4],
    /// Cycles into the current period of each channel's timer.
    pub ch_timer: [u64; 4],
    pub ch_duty: [u8; 2],
    pub ch_duty_step: [u8; 2],
    pub ch_volume: [u8; 4],
    /// The waveform level: +1, -1, or 0 before the first step.
    pub ch_output: [i8; 4],
    pub ch_length_timer: [u8; 4],
    pub ch_length_enabled: [bool; 4],
    pub env_initial_vol: [u8; 4],
    pub env_direction: [i8; 4],
    pub env_period: [u8; 4],
    pub env_counter: [u8; 4],
    pub sweep_period: u8,
    pub sweep_direction: u8,
    pub sweep_shift: u8,
    pub sweep_timer: u8,
    pub sweep_shadow_freq: u8,
    pub master_sound_enable: bool,
    pub master_vol_l: u8,
    pub master_vol_r: u8,
    pub panning: u8,
    pub last_master: u64,
    pub ticks: u64,
    pub div: u64,
}

/// The channel that a length, envelope or trigger register belongs to.
pub open spec fn reg_channel(addr: u16) -> int {
    if addr == 0xFF16 || addr == 0xFF17 || addr == 0xFF18 || addr == 0xFF19 {
        1
    } else if addr == 0xFF20 || addr == 0xFF21 || addr == 0xFF23 {
        3
    } else {
        0
    }
}

impl GbAPU {
    pub open spec fn wf(self) -> bool {
        &&& self.div > 0
        &&& forall|i: int| 0 <= i < 4 ==> #[trigger] self.ch_frequency@[i] <= 0x7FF
        &&& forall|i: int| 0 <= i < 2 ==> #[trigger] self.ch_duty@[i] < 4 && self.ch_duty_step@[i] < 8
    }

    /// The sound unit after a CPU write of `value` to register `addr` (the
    /// writes other than to NR52 are ignored while the unit is off).
    pub open spec fn reg_written(self, t: Self, addr: u16, value: u8) -> bool {
        let ch = reg_channel(addr);
        if !self.master_sound_enable && addr != 0xFF26 {
            t == self
        } else if addr == 0xFF26 {
            let on = value & 0x80 != 0;
            &&& t == (GbAPU { master_sound_enable: on, ch_enabled: t.ch_enabled, ..self })
            &&& t.ch_enabled@ == (if on { self.ch_enabled@ } else { seq![false, false, false, false] })
        } else if addr == 0xFF11 || addr == 0xFF16 || addr == 0xFF20 {
            &&& t == (GbAPU { ch_duty: t.ch_duty, ch_length_timer: t.ch_length_timer, ..self })
            &&& t.ch_duty@ == (if ch < 2 { self.ch_duty@.update(ch, (value >> 6u8) & 3) } else { self.ch_duty@ })
            &&& t.ch_length_timer@ == self.ch_length_timer@.update(ch, (64 - (value & 0x3F)) as u8)
        } else if addr == 0xFF12 || addr == 0xFF17 || addr == 0xFF21 {
            &&& t == (GbAPU {
                env_initial_vol: t.env_initial_vol,
                env_direction: t.env_direction,
                env_period: t.env_period,
                ch_enabled: t.ch_enabled,
                ..self
            })
            &&& t.env_initial_vol@ == self.env_initial_vol@.update(ch, (value >> 4u8) & 0x0F)
            &&& t.env_direction@ == self.env_direction@.update(ch, if value & 0x08 != 0 { 1i8 } else { -1i8 })
            &&& t.env_period@ == self.env_period@.update(ch, value & 0x07)
            &&& t.ch_enabled@ == (if value >> 3u8 == 0 { self.ch_enabled@.update(ch, false) } else { self.ch_enabled@ })
        } else if addr == 0xFF13 || addr == 0xFF18 {
            &&& t == (GbAPU { ch_frequency: t.ch_frequency, ..self })
            &&& t.ch_frequency@ == self.ch_frequency@.update(ch, (self.ch_frequency@[ch] & 0x700) | (value as u16))
        } else if addr == 0xFF14 || addr == 0xFF19 || addr == 0xFF23 {
            let freq = (self.ch_frequency@[ch] & 0xFF) | (((value & 7) as u16) << 8u16);
            let trig = value & 0x80 != 0;
            &&& t == (GbAPU {
                ch_length_enabled: t.ch_length_enabled,
                ch_frequency: t.ch_frequency,
                ch_enabled: t.ch_enabled,
                ch_volume: t.ch_volume,
                env_counter: t.env_counter,
                ..self
            })
            &&& t.ch_length_enabled@ == self.ch_length_enabled@.update(ch, value & 0x40 != 0)
            &&& t.ch_frequency@ == self.ch_frequency@.update(ch, freq)
            &&& t.ch_enabled@ == (if trig { self.ch_enabled@.update(ch, true) } else { self.ch_enabled@ })
            &&& t.ch_volume@ == (if trig { self.ch_volume@.update(ch, self.env_initial_vol@[ch]) } else { self.ch_volume@ })
            &&& t.env_counter@ == (if trig { self.env_counter@.update(ch, self.env_period@[ch]) } else { self.env_counter@ })
        } else {
            t == self
        }
    }

    /// The value a CPU read of register `addr` returns: NR52 reports the
    /// master switch and the four channel flags; the rest read as $FF.
    pub open spec fn register_value(self, addr: u16) -> u8 {
        if addr == 0xFF26 {
            0x70 | (if self.master_sound_enable { 0x80u8 } else { 0 }) | (if self.ch_enabled@[0] { 0x01u8 } else { 0 })
                | (if self.ch_enabled@[1] { 0x02u8 } else { 0 }) | (if self.ch_enabled@[2] { 0x04u8 } else { 0 })
                | (if self.ch_enabled@[3] { 0x08u8 } else { 0 })
        } else {
            0xFF
        }
    }

    /// Square channel `ch` of `t` is that of `self` after `cycles` cycles
    /// (when it runs), or unchanged.
    pub open spec fn pulse_ok(self, t: Self, ch: int, cycles: u64) -> bool {
        if self.master_sound_enable && self.ch_enabled@[ch] {
            (t.ch_timer@[ch], t.ch_duty_step@[ch], t.ch_output@[ch]) == pulse_advanced(
                self.ch_timer@[ch],
                self.ch_duty_step@[ch],
                self.ch_output@[ch],
                self.ch_duty@[ch],
                self.ch_frequency@[ch],
                cycles,
            )
        } else {
            t.ch_timer@[ch] == self.ch_timer@[ch] && t.ch_duty_step@[ch] == self.ch_duty_step@[ch]
                && t.ch_output@[ch] == self.ch_output@[ch]
        }
    }

    /// The sound unit after `cycles` CPU cycles.
    pub open spec fn advanced(self, t: Self, cycles: u64) -> bool {
        &&& t == (GbAPU { ch_timer: t.ch_timer, ch_duty_step: t.ch_duty_step, ch_output: t.ch_output, ..self })
        &&& self.pulse_ok(t, 0, cycles)
        &&& self.pulse_ok(t, 1, cycles)
        &&& t.ch_timer@[2] == self.ch_timer@[2] && t.ch_timer@[3] == self.ch_timer@[3]
        &&& t.ch_output@[2] == self.ch_output@[2] && t.ch_output@[3] == self.ch_output@[3]
    }

    pub fn new() -> (r: Self)
        ensures
            r.wf(),
            r.div == 1,
            r.master_sound_enable,
            r.ch_enabled@ == seq![false, false, false, false],
            r.ticks == 0 && r.last_master == 0,
    {
        Self::with_divider(1)
    }

    /// A sound unit that takes one CPU cycle every `div` master cycles.
    pub fn with_divider(div: u64) -> (r: Self)
        requires
            div > 0,
        ensures
            r.wf(),
            r.div == div,
            r.master_sound_enable,
            r.ch_enabled@ == seq![false, false, false, false],
            r.ch_frequency@ == seq![0u16, 0, 0, 0],
            r.ch_output@ == seq![0i8, 0, 0, 0],
            r.master_vol_l == 7 && r.master_vol_r == 7 && r.panning == 0xFF && r.sweep_direction == 1,
            r.ticks == 0 && r.last_master == 0,
    {
        let r = Self {
            master_sound_enable: true,
            ch_enabled: [false; 4],
            ch_frequency: [0; 4],
            ch_timer: [0; 4],
            ch_duty: [0, 0],
            ch_duty_step: [0, 0],
            ch_volume: [0; 4],
            ch_output: [0; 4],
            ch_length_timer: [0; 4],
            ch_length_enabled: [false; 4],
            env_initial_vol: [0; 4],
            env_direction: [0; 4],
            env_period: [0; 4],
            env_counter: [0; 4],
            master_vol_l: 7,
            master_vol_r: 7,
            panning: 0xFF,
            sweep_period: 0,
            sweep_direction: 1,
            sweep_shift: 0,
            sweep_timer: 0,
            sweep_shadow_freq: 0,
            last_master: 0,
            ticks: 0,
            div,
        };
        assert(r.ch_enabled@ =~= seq![false, false, false, false]);
        assert(r.ch_frequency@ =~= seq![0u16, 0, 0, 0]);
        assert(r.ch_output@ =~= seq![0i8, 0, 0, 0]);
        r
    }

    pub fn is_well_formed(&self) -> (r: bool)
        ensures
            r == self.wf(),
    {
        let r = self.div > 0 && self.ch_frequency[0] <= 0x7FF && self.ch_frequency[1] <= 0x7FF
            && self.ch_frequency[2] <= 0x7FF && self.ch_frequency[3] <= 0x7FF && self.ch_duty[0] < 4
            && self.ch_duty[1] < 4 && self.ch_duty_step[0] < 8 && self.ch_duty_step[1] < 8;
        proof {
            if r {
                assert forall|i: int| 0 <= i < 4 implies #[trigger] self.ch_frequency@[i] <= 0x7FF by {
                    if i == 0 {} else if i == 1 {} else if i == 2 {} else {}
                }
                assert forall|i: int| 0 <= i < 2 implies #[trigger] self.ch_duty@[i] < 4 && self.ch_duty_step@[i] < 8 by {
                    if i == 0 {} else {}
                }
            }
        }
        r
    }

    fn trigger_channel(&mut self, ch: usize)
        requires
            ch < 4,
        ensures
            final(self).ch_enabled@ == old(self).ch_enabled@.update(ch as int, true),
            final(self).ch_volume@ == old(self).ch_volume@.update(ch as int, old(self).env_initial_vol@[ch as int]),
            final(self).env_counter@ == old(self).env_counter@.update(ch as int, old(self).env_period@[ch as int]),
            *final(self) == (GbAPU {
                ch_enabled: final(self).ch_enabled,
                ch_volume: final(self).ch_volume,
                env_counter: final(self).env_counter,
                ..*old(self)
            }),
    {
        self.ch_enabled[ch] = true;
        self.ch_volume[ch] = self.env_initial_vol[ch];
        self.env_counter[ch] = self.env_period[ch];
    }

    /// A CPU write to a sound register.
    pub fn write_register(&mut self, addr: u16, value: u8)
        requires
            old(self).wf(),
        ensures
            old(self).reg_written(*final(self), addr, value),
            final(self).wf(),
    {
        proof {
            crate::bits::lemma_byte_fields(value);
        }
        if !self.master_sound_enable && addr != 0xFF26 {
            return;
        }
        if addr == 0xFF26 {
            self.master_sound_enable = (value & 0x80) != 0;
            if !self.master_sound_enable {
                self.ch_enabled = [false, false, false, false];
                assert(self.ch_enabled@ =~= seq![false, false, false, false]);
            }
        } else if addr == 0xFF11 || addr == 0xFF16 || addr == 0xFF20 {
            let mut ch: usize = 0;
            if addr == 0xFF16 {
                ch = 1;
            }
            if addr == 0xFF20 {
                ch = 3;
            }
            if ch < 2 {
                self.ch_duty[ch] = (value >> 6u8) & 3;
            }
            self.ch_length_timer[ch] = 64 - (value & 0x3F);
        } else if addr == 0xFF12 || addr == 0xFF17 || addr == 0xFF21 {
            let mut ch: usize = 0;
            if addr == 0xFF17 {
                ch = 1;
            }
            if addr == 0xFF21 {
                ch = 3;
            }
            self.env_initial_vol[ch] = (value >> 4u8) & 0x0F;
            self.env_direction[ch] = if (value & 0x08) != 0 { 1 } else { -1 };
            self.env_period[ch] = value & 0x07;
            if (value >> 3u8) == 0 {
                self.ch_enabled[ch] = false;
            }
        } else if addr == 0xFF13 || addr == 0xFF18 {
            let ch: usize = if addr == 0xFF13 { 0 } else { 1 };
            proof {
                lemma_freq_bits(self.ch_frequency@[ch as int], value);
            }
            self.ch_frequency[ch] = (self.ch_frequency[ch] & 0x700) | value as u16;
        } else if addr == 0xFF14 || addr == 0xFF19 || addr == 0xFF23 {
            let mut ch: usize = 0;
            if addr == 0xFF19 {
                ch = 1;
            }
            if addr == 0xFF23 {
                ch = 3;
            }
            proof {
                lemma_freq_bits(self.ch_frequency@[ch as int], value);
            }
            self.ch_length_enabled[ch] = (value & 0x40) != 0;
            self.ch_frequency[ch] = (self.ch_frequency[ch] & 0xFF) | (((value & 7) as u16) << 8u16);
            if value & 0x80 != 0 {
                self.trigger_channel(ch);
            }
        }
    }

    /// A CPU read of a sound register.
    pub fn read_register(&self, addr: u16) -> (r: u8)
        ensures
            r == self.register_value(addr),
    {
        if addr == 0xFF26 {
            0x70 | (if self.master_sound_enable { 0x80u8 } else { 0 }) | (if self.ch_enabled[0] { 0x01u8 } else { 0 })
                | (if self.ch_enabled[1] { 0x02u8 } else { 0 }) | (if self.ch_enabled[2] { 0x04u8 } else { 0 })
                | (if self.ch_enabled[3] { 0x08u8 } else { 0 })
        } else {
            0xFF
        }
    }

    /// Runs square channel `ch` for `cycles` cycles.
    fn advance_pulse(&mut self, ch: usize, cycles: u64)
        requires
            ch < 2,
            old(self).wf(),
        ensures
            final(self).wf(),
            ({
                let (t, s, o) = pulse_advanced(
                    old(self).ch_timer@[ch as int],
                    old(self).ch_duty_step@[ch as int],
                    old(self).ch_output@[ch as int],
                    old(self).ch_duty@[ch as int],
                    old(self).ch_frequency@[ch as int],
                    cycles,
                );
                &&& final(self).ch_timer@ == old(self).ch_timer@.update(ch as int, t)
                &&& final(self).ch_duty_step@ == old(self).ch_duty_step@.update(ch as int, s)
                &&& final(self).ch_output@ == old(self).ch_output@.update(ch as int, o)
            }),
            *final(self) == (GbAPU {
                ch_timer: final(self).ch_timer,
                ch_duty_step: final(self).ch_duty_step,
                ch_output: final(self).ch_output,
                ..*old(self)
            }),
    {
        let ghost s0 = *self;
        let freq = self.ch_frequency[ch];
        let period: u128 = ((2048 - freq) as u128) * 4;
        let duty = self.ch_duty[ch];
        let total: u128 = self.ch_timer[ch] as u128 + cycles as u128;
        let mut t: u128 = total;
        let mut step: u8 = self.ch_duty_step[ch];
        let mut out: i8 = self.ch_output[ch];
        let ghost mut n: int = 0;
        while t >= period
            invariant
                period == channel_period(freq),
                period >= 4,
                duty < 4,
                step < 8,
                0 <= n,
                t + n * period == total,
                step == (s0.ch_duty_step@[ch as int] + n) % 8,
                out == (if n > 0 {
                    if (duty_pattern(duty) >> step) & 1u8 != 0 { 1i8 } else { -1i8 }
                } else {
                    s0.ch_output@[ch as int]
                }),
            decreases t,
        {
            t = t - period;
            proof {
                crate::bits::lemma_byte_fields((step + 1) as u8);
                assert(t + (n + 1) * period == total) by (nonlinear_arith)
                    requires
                        t + period + n * period == total;
                n = n + 1;
            }
            step = (step + 1) & 7;
            let pattern = duty_pattern_exec(duty);
            proof {
                crate::bits::lemma_byte_fields(pattern >> step);
            }
            out = if (pattern >> step) & 1 != 0 { 1 } else { -1 };
        }
        proof {
            vstd::arithmetic::div_mod::lemma_fundamental_div_mod_converse(total as int, period as int, n, t as int);
        }
        self.ch_timer[ch] = t as u64;
        self.ch_duty_step[ch] = step;
        self.ch_output[ch] = out;
        assert forall|i: int| 0 <= i < 2 implies #[trigger] self.ch_duty@[i] < 4 && self.ch_duty_step@[i] < 8 by {
            assert(s0.ch_duty@[i] < 4 && s0.ch_duty_step@[i] < 8);
        }
        assert(self.ch_frequency@ == s0.ch_frequency@);
    }

    /// Runs the square channels for `cycles` CPU cycles.
    pub fn advance_cycles(&mut self, cycles: u64)
        requires
            old(self).wf(),
        ensures
            final(self).wf(),
            old(self).advanced(*final(self), cycles),
    {
        let ghost s0 = *self;
        if self.master_sound_enable {
            if self.ch_enabled[0] {
                self.advance_pulse(0, cycles);
            }
            let ghost s1 = *self;
            if self.ch_enabled[1] {
                self.advance_pulse(1, cycles);
            }
            assert(s0.pulse_ok(*self, 0, cycles));
        }
    }
}

/// The frequency register stays within eleven bits.
proof fn lemma_freq_bits(f: u16, v: u8)
    by (bit_vector)
    requires
        f <= 0x7FF,
    ensures
        (f & 0x700) | (v as u16) <= 0x7FF,
        (f & 0xFF) | (((v & 7) as u16) << 8u16) <= 0x7FF,
{
}

/// Running a square channel for `a` cycles and then `b` more is running it
/// for `a + b` cycles.
pub proof fn lemma_pulse_advance_adds(timer: u64, step: u8, out: i8, duty: u8, freq: u16, a: u64, b: u64)
    requires
        freq <= 0x7FF,
        a + b <= u64::MAX,
    ensures
        ({
            let (t1, s1, o1) = pulse_advanced(timer, step, out, duty, freq, a);
            pulse_advanced(t1, s1, o1, duty, freq, b) == pulse_advanced(timer, step, out, duty, freq, (a + b) as u64)
        }),
{
    let p = channel_period(freq);
    let total1 = timer + a;
    let n1 = total1 / p;
    let t1 = total1 % p;
    vstd::arithmetic::div_mod::lemma_fundamental_div_mod(total1, p);
    vstd::arithmetic::div_mod::lemma_mod_bound(total1, p);
    vstd::arithmetic::div_mod::lemma_div_pos_is_pos(total1, p);
    let total2 = t1 + b;
    let n2 = total2 / p;
    let t2 = total2 % p;
    vstd::arithmetic::div_mod::lemma_fundamental_div_mod(total2, p);
    vstd::arithmetic::div_mod::lemma_mod_bound(total2, p);
    vstd::arithmetic::div_mod::lemma_div_pos_is_pos(total2, p);
    assert(timer + a + b == (n1 + n2) * p + t2) by (nonlinear_arith)
        requires
            total1 == p * n1 + t1,
            total2 == p * n2 + t2,
            total2 == t1 + b,
            total1 == timer + a,
    ;
    vstd::arithmetic::div_mod::lemma_fundamental_div_mod_converse(timer + a + b, p, n1 + n2, t2);
    vstd::arithmetic::div_mod::lemma_add_mod_noop_right(n2, step + n1, 8);
    let (tt1, ss1, oo1) = pulse_advanced(timer, step, out, duty, freq, a);
    assert(tt1 == t1 && ss1 == (step + n1) % 8);
    assert((ss1 + n2) % 8 == (step + n1 + n2) % 8);
}

impl GbAPU {
    /// Running the sound unit for `a` cycles and then `b` more is running
    /// it for `a + b` cycles.
    pub proof fn lemma_advance_adds(s: GbAPU, t: GbAPU, u: GbAPU, a: u64, b: u64)
        requires
            s.wf(),
            s.advanced(t, a),
            t.advanced(u, b),
            a + b <= u64::MAX,
        ensures
            s.advanced(u, (a + b) as u64),
    {
        lemma_pulse_advance_adds(
            s.ch_timer@[0], s.ch_duty_step@[0], s.ch_output@[0], s.ch_duty@[0], s.ch_frequency@[0], a, b);
        lemma_pulse_advance_adds(
            s.ch_timer@[1], s.ch_duty_step@[1], s.ch_output@[1], s.ch_duty@[1], s.ch_frequency@[1], a, b);
        assert(s.ch_frequency@[0] <= 0x7FF && s.ch_frequency@[1] <= 0x7FF);
    }
}

impl Timed for GbAPU {
    /// Runs the channels up to `target_master / div`.
    fn run_until(&mut self, target_master: u64)
        ensures
            old(self).wf() ==> ({
                let target = target_master / old(self).div;
                &&& final(self).wf()
                &&& final(self).last_master == target_master
                &&& final(self).ticks == (if target > old(self).ticks { target as int } else { old(self).ticks as int })
                &&& (if target > old(self).ticks {
                    old(self).advanced(
                        GbAPU { ticks: old(self).ticks, last_master: old(self).last_master, ..*final(self) },
                        (target - old(self).ticks) as u64,
                    )
                } else {
                    *final(self) == (GbAPU { last_master: target_master, ..*old(self) })
                })
            }),
    {
        if !self.is_well_formed() {
            return;
        }
        let target_tick = target_master / self.div;
        if target_tick > self.ticks {
            let elapsed_cycles = target_tick - self.ticks;
            self.advance_cycles(elapsed_cycles);
            self.ticks = target_tick;
        }
        self.last_master = target_master;
    }

    fn sync_point(&self) -> (r: u64)
        ensures
            r == self.last_master,
    {
        self.last_master
    }
}

} // verus!
