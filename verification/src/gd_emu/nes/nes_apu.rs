use vstd::prelude::*;

verus! {

/// Length-counter loads, indexed by bits 3-7 of the length register.
pub open spec fn length_spec(i: int) -> u8 {
    seq![10u8, 254, 20, 2, 40, 4, 80, 6, 160, 8, 60, 10, 14, 12, 26, 14,
        12, 16, 24, 18, 48, 20, 96, 22, 192, 24, 72, 26, 16, 28, 32, 30][i]
}

/// The pulse duty waveforms (12.5%, 25%, 50%, 25% inverted), eight steps each.
pub open spec fn duty_spec(duty: int, step: int) -> u8 {
    seq![0u8, 1, 0, 0, 0, 0, 0, 0,
        0, 1, 1, 0, 0, 0, 0, 0,
        0, 1, 1, 1, 1, 0, 0, 0,
        1, 0, 0, 1, 1, 1, 1, 1][duty * 8 + step]
}

/// The triangle's 32-step waveform.
pub open spec fn tri_spec(step: int) -> u8 {
    seq![15u8, 14, 13, 12, 11, 10, 9, 8, 7, 6, 5, 4, 3, 2, 1, 0,
        0, 1, 2, 3, 4, 5, 6, 7, 8, 9, 10, 11, 12, 13, 14, 15][step]
}

/// Noise timer periods, indexed by the low nibble of $400E.
pub open spec fn noise_period_spec(i: int) -> u16 {
    seq![4u16, 8, 16, 32, 64, 96, 128, 160, 202, 254, 380, 508, 762, 1016, 2032, 4064][i]
}

/// NTSC DMC rates: CPU cycles between output-level changes.
pub open spec fn dmc_rate_spec(i: int) -> u16 {
    seq![428u16, 380, 340, 320, 286, 254, 226, 214, 190, 160, 142, 128, 106, 84, 72, 54][i]
}

fn length_lookup(i: u8) -> (r: u8)
    requires
        i < 32,
    ensures
        r == length_spec(i as int),
{
    let t: [u8; 32] = [10, 254, 20, 2, 40, 4, 80, 6, 160, 8, 60, 10, 14, 12, 26, 14,
        12, 16, 24, 18, 48, 20, 96, 22, 192, 24, 72, 26, 16, 28, 32, 30];
    assert(t@ =~= seq![10u8, 254, 20, 2, 40, 4, 80, 6, 160, 8, 60, 10, 14, 12, 26, 14,
        12, 16, 24, 18, 48, 20, 96, 22, 192, 24, 72, 26, 16, 28, 32, 30]);
    t[i as usize]
}

fn duty_lookup(duty: u8, step: u8) -> (r: u8)
    requires
        duty < 4,
        step < 8,
    ensures
        r == duty_spec(duty as int, step as int),
{
    let t: [u8; 32] = [0, 1, 0, 0, 0, 0, 0, 0,
        0, 1, 1, 0, 0, 0, 0, 0,
        0, 1, 1, 1, 1, 0, 0, 0,
        1, 0, 0, 1, 1, 1, 1, 1];
    assert(t@ =~= seq![0u8, 1, 0, 0, 0, 0, 0, 0,
        0, 1, 1, 0, 0, 0, 0, 0,
        0, 1, 1, 1, 1, 0, 0, 0,
        1, 0, 0, 1, 1, 1, 1, 1]);
    t[duty as usize * 8 + step as usize]
}

fn tri_lookup(step: u8) -> (r: u8)
    requires
        step < 32,
    ensures
        r == tri_spec(step as int),
{
    let t: [u8; 32] = [15, 14, 13, 12, 11, 10, 9, 8, 7, 6, 5, 4, 3, 2, 1, 0,
        0, 1, 2, 3, 4, 5, 6, 7, 8, 9, 10, 11, 12, 13, 14, 15];
    assert(t@ =~= seq![15u8, 14, 13, 12, 11, 10, 9, 8, 7, 6, 5, 4, 3, 2, 1, 0,
        0, 1, 2, 3, 4, 5, 6, 7, 8, 9, 10, 11, 12, 13, 14, 15]);
    t[step as usize]
}

fn noise_period_lookup(i: u8) -> (r: u16)
    requires
        i < 16,
    ensures
        r == noise_period_spec(i as int),
{
    let t: [u16; 16] = [4, 8, 16, 32, 64, 96, 128, 160, 202, 254, 380, 508, 762, 1016, 2032, 4064];
    assert(t@ =~= seq![4u16, 8, 16, 32, 64, 96, 128, 160, 202, 254, 380, 508, 762, 1016, 2032, 4064]);
    t[i as usize]
}

fn dmc_rate_lookup(i: u8) -> (r: u16)
    requires
        i < 16,
    ensures
        r == dmc_rate_spec(i as int),
        r >= 54,
{
    let t: [u16; 16] = [428, 380, 340, 320, 286, 254, 226, 214, 190, 160, 142, 128, 106, 84, 72, 54];
    assert(t@ =~= seq![428u16, 380, 340, 320, 286, 254, 226, 214, 190, 160, 142, 128, 106, 84, 72, 54]);
    t[i as usize]
}

/// The digital levels of the five channels at one cycle, for the mixer.
#[derive(Clone, Copy, PartialEq, Eq, Structural)]
pub struct ChannelLevels {
    pub pulse1: u8,
    pub pulse2: u8,
    pub triangle: u8,
    pub noise: u8,
    pub dmc: u8,
}

/// A pulse channel: timer, duty sequencer, length counter, envelope and
/// sweep unit.
#[derive(Clone, Copy)]
pub struct PulseChannel {
    pub timer_reload: u16,
    pub timer: u16,
    pub sequence_step: u8,
    pub length_counter: u8,
    pub duty_index: u8,
    pub volume: u8,
    pub enabled: bool,
    pub halt: bool,
    pub constant_volume: bool,
    pub sweep_enabled: bool,
    pub sweep_period: u8,
    pub sweep_negate: bool,
    pub sweep_shift: u8,
    pub sweep_reload: bool,
    pub sweep_divider: u8,
    pub env_volume: u8,
    pub env_divider: u8,
    pub env_start: bool,
}

/// The triangle channel: timer, 32-step sequencer, length and linear counters.
#[derive(Clone, Copy)]
pub struct TriangleChannel {
    pub enabled: bool,
    pub reload_flag: bool,
    pub timer_reload: u16,
    pub timer: u16,
    pub sequence_step: u8,
    pub length_counter: u8,
    pub linear_counter: u8,
    pub linear_reload: u8,
    pub control_flag: bool,
}

/// The noise channel: timer, 15-bit shift register, length counter, envelope.
#[derive(Clone, Copy)]
pub struct NoiseChannel {
    pub halt: bool,
    pub constant_volume: bool,
    pub volume: u8,
    pub mode: bool,
    pub timer_reload: u16,
    pub timer: u16,
    pub shift_register: u16,
    pub enabled: bool,
    pub length_counter: u8,
    pub env_volume: u8,
    pub env_divider: u8,
    pub env_start: bool,
}

/// The delta-modulation channel: output unit and memory reader.
#[derive(Clone, Copy)]
pub struct DmcChannel {
    pub irq_enabled: bool,
    pub loop_flag: bool,
    pub rate_index: u8,
    pub timer: u16,
    /// The 7-bit DAC level.
    pub output_level: u8,
    /// The raw $4012 value.
    pub sample_addr_reg: u8,
    /// The raw $4013 value.
    pub sample_length_reg: u8,
    pub current_addr: u16,
    pub bytes_remaining: u16,
    /// The fetched byte waiting for the output unit.
    pub sample_buffer: Option<u8>,
    pub shift_register: u8,
    pub bits_remaining: u8,
    pub silence_flag: bool,
    pub enabled: bool,
    pub interrupt_flag: bool,
    /// Set while a sample byte needs fetching; the bus services it.
    pub dma_request: bool,
}

/// The 2A03 sound unit: two pulse channels, triangle, noise and DMC, and
/// the frame sequencer that clocks their envelopes, sweeps and length
/// counters. Mixing the channels into audio samples is left to the caller:
/// `step_one_cycle` hands out the channel levels.
#[derive(Clone, Copy)]
pub struct NesAPU {
    pub frame_counter: u32,
    pub mode_5_step: bool,
    pub irq_inhibit: bool,
    pub frame_irq_flag: bool,
    pub frame_counter_reset_delay: u8,
    pub frame_counter_clock_immediately: bool,
    pub p1: PulseChannel,
    pub p2: PulseChannel,
    pub tri: TriangleChannel,
    pub noise: NoiseChannel,
    pub dmc: DmcChannel,
    pub total_apu_cycles: u64,
    pub even_cycle: bool,
}

/// One envelope clock: (volume, divider, start flag) after it. A started
/// envelope reloads to 15; otherwise the divider counts down from the
/// volume register and each expiry decays the volume, looping to 15 when
/// the loop (halt) flag is set.
pub open spec fn envelope_clocked(start: bool, volume: u8, divider: u8, reload: u8, looping: bool) -> (u8, u8, bool) {
    if start {
        (15, reload, false)
    } else if divider == 0 {
        (if volume > 0 { (volume - 1) as u8 } else if looping { 15 } else { volume }, reload, false)
    } else {
        (volume, (divider - 1) as u8, false)
    }
}

fn envelope_next(start: bool, volume: u8, divider: u8, reload: u8, looping: bool) -> (r: (u8, u8, bool))
    ensures
        r == envelope_clocked(start, volume, divider, reload, looping),
{
    if start {
        (15, reload, false)
    } else if divider == 0 {
        let v = if volume > 0 {
            volume - 1
        } else if looping {
            15
        } else {
            volume
        };
        (v, reload, false)
    } else {
        (volume, divider - 1, false)
    }
}

/// The timer-period register bits stay within eleven bits.
proof fn lemma_period_bits(p: u16, data: u8, s: u8)
    by (bit_vector)
    ensures
        p <= 0x7FF ==> (p & 0x0700) | (data as u16) <= 0x7FF,
        p <= 0x7FF ==> (p & 0x00FF) | (((data & 0x07) as u16) << 8u16) <= 0x7FF,
        (p & 0x0700) | (data as u16) <= 0x7FF || p > 0x7FF,
        p >> s <= p,
{
}

impl PulseChannel {
    pub open spec fn wf(self) -> bool {
        &&& self.timer_reload <= 0x7FF
        &&& self.sweep_shift <= 7
        &&& self.sequence_step < 8
        &&& self.duty_index < 4
    }

    /// The sweep target period and whether the channel is muted (period
    /// below 8 or target past $7FF); `ones` subtracts one more when negating.
    pub open spec fn sweep_target(self, ones: bool) -> (u16, bool) {
        let period = self.timer_reload;
        let delta = period >> self.sweep_shift;
        let target: u16 = if self.sweep_negate {
            if ones { period.saturating_sub(delta).saturating_sub(1) } else { period.saturating_sub(delta) }
        } else {
            (period + delta) as u16
        };
        (target, period < 8 || target > 0x7FF)
    }

    /// The timer; on expiry the duty sequencer advances.
    pub open spec fn timer_ticked(self) -> Self {
        if self.timer == 0 {
            PulseChannel { timer: self.timer_reload, sequence_step: ((self.sequence_step + 1) as u8) & 7, ..self }
        } else {
            PulseChannel { timer: (self.timer - 1) as u16, ..self }
        }
    }

    pub open spec fn envelope_ticked(self) -> Self {
        let (v, d, s) = envelope_clocked(self.env_start, self.env_volume, self.env_divider, self.volume, self.halt);
        PulseChannel { env_volume: v, env_divider: d, env_start: s, ..self }
    }

    /// A clock of the length counter (held by the halt flag) and the sweep.
    pub open spec fn half_frame(self, ones: bool) -> Self {
        let s1 = PulseChannel {
            length_counter: if self.length_counter > 0 && !self.halt { (self.length_counter - 1) as u8 } else { self.length_counter },
            ..self
        };
        let (target, muted) = s1.sweep_target(ones);
        let fire = s1.sweep_divider == 0 || s1.sweep_reload;
        PulseChannel {
            timer_reload: if s1.sweep_divider == 0 && s1.sweep_enabled && !muted && s1.sweep_shift > 0 { target } else { s1.timer_reload },
            sweep_divider: if fire { s1.sweep_period } else { (s1.sweep_divider - 1) as u8 },
            sweep_reload: if fire { false } else { s1.sweep_reload },
            ..s1
        }
    }

    /// The channel's level: the volume (constant when the halt flag is set,
    /// else the envelope) on a high duty step, while it runs unmuted.
    pub open spec fn level(self, ones: bool) -> u8 {
        if self.length_counter > 0 && !self.sweep_target(ones).1 && duty_spec(self.duty_index as int, self.sequence_step as int) > 0 {
            if self.halt { self.volume } else { self.env_volume }
        } else {
            0
        }
    }

    /// The channel's length counter loaded from bits 3-7 of `data`, when
    /// the channel is enabled.
    pub open spec fn length_written(self, data: u8) -> Self {
        PulseChannel {
            length_counter: if self.enabled { length_spec(((data >> 3u8) & 0x1F) as int) } else { self.length_counter },
            ..self
        }
    }

    /// A write of the channel's register `reg` (0-3): control, sweep, timer
    /// low and timer high. Only pulse 1 (`sets_cv`) records the
    /// constant-volume bit.
    pub open spec fn reg_written(self, reg: u16, data: u8, sets_cv: bool) -> Self {
        if reg == 0 {
            PulseChannel {
                duty_index: (data >> 6u8) & 0x03,
                halt: data & 0x20 > 0,
                constant_volume: if sets_cv { data & 0x10 != 0 } else { self.constant_volume },
                volume: data & 0x0F,
                env_start: true,
                ..self
            }
        } else if reg == 1 {
            self.sweep_written(data)
        } else if reg == 2 {
            PulseChannel { timer_reload: (self.timer_reload & 0x0700) | (data as u16), ..self }
        } else {
            self.timer_high_written(data)
        }
    }

    /// A write of the high timer bits and the length index ($4003/$4007).
    pub open spec fn timer_high_written(self, data: u8) -> Self {
        PulseChannel {
            timer_reload: (self.timer_reload & 0x00FF) | (((data & 0x07) as u16) << 8u16),
            sequence_step: 0,
            length_counter: self.length_written(data).length_counter,
            sweep_reload: true,
            env_start: true,
            ..self
        }
    }

    /// A write of the sweep register ($4001/$4005).
    pub open spec fn sweep_written(self, data: u8) -> Self {
        PulseChannel {
            sweep_enabled: data & 0x80 > 0,
            sweep_period: (data >> 4u8) & 0x07,
            sweep_negate: data & 0x08 > 0,
            sweep_shift: data & 0x07,
            sweep_reload: true,
            ..self
        }
    }
}

impl TriangleChannel {
    pub open spec fn timer_ticked(self) -> Self {
        if self.timer == 0 {
            TriangleChannel {
                timer: self.timer_reload,
                sequence_step: if self.length_counter > 0 && self.linear_counter > 0 {
                    ((self.sequence_step + 1) as u8) & 31
                } else {
                    self.sequence_step
                },
                ..self
            }
        } else {
            TriangleChannel { timer: (self.timer - 1) as u16, ..self }
        }
    }

    pub open spec fn linear_ticked(self) -> Self {
        TriangleChannel {
            linear_counter: if self.reload_flag {
                self.linear_reload
            } else if self.linear_counter > 0 {
                (self.linear_counter - 1) as u8
            } else {
                self.linear_counter
            },
            reload_flag: if self.control_flag { self.reload_flag } else { false },
            ..self
        }
    }

    pub open spec fn length_ticked(self) -> Self {
        TriangleChannel {
            length_counter: if self.length_counter > 0 && !self.control_flag { (self.length_counter - 1) as u8 } else { self.length_counter },
            ..self
        }
    }

    pub open spec fn level(self) -> u8 {
        if self.length_counter > 0 && self.linear_counter > 0 { tri_spec(self.sequence_step as int) } else { 0 }
    }
}

impl NoiseChannel {
    /// A write of noise register `addr` ($400C-$400F).
    pub open spec fn reg_written(self, addr: u16, data: u8) -> Self {
        if addr == 0x400C {
            NoiseChannel { halt: data & 0x20 > 0, constant_volume: data & 0x10 > 0, volume: data & 0x0F, env_start: true, ..self }
        } else if addr == 0x400E {
            NoiseChannel { mode: data & 0x80 > 0, timer_reload: noise_period_spec((data & 0x0F) as int), ..self }
        } else if addr == 0x400F {
            NoiseChannel {
                length_counter: if self.enabled { length_spec(((data >> 3u8) & 0x1F) as int) } else { self.length_counter },
                env_start: true,
                ..self
            }
        } else {
            self
        }
    }

    /// The timer; on expiry the shift register steps with feedback from
    /// bit 6 in short mode and bit 1 otherwise.
    pub open spec fn timer_ticked(self) -> Self {
        if self.timer == 0 {
            let sr = self.shift_register;
            let tap: u16 = if self.mode { 6 } else { 1 };
            let feedback = (sr & 1) ^ ((sr >> tap) & 1);
            NoiseChannel { timer: self.timer_reload, shift_register: (sr >> 1u16) | (feedback << 14u16), ..self }
        } else {
            NoiseChannel { timer: (self.timer - 1) as u16, ..self }
        }
    }

    pub open spec fn envelope_ticked(self) -> Self {
        let (v, d, s) = envelope_clocked(self.env_start, self.env_volume, self.env_divider, self.volume, self.halt);
        NoiseChannel { env_volume: v, env_divider: d, env_start: s, ..self }
    }

    pub open spec fn length_ticked(self) -> Self {
        NoiseChannel {
            length_counter: if self.length_counter > 0 && !self.halt { (self.length_counter - 1) as u8 } else { self.length_counter },
            ..self
        }
    }

    pub open spec fn level(self) -> u8 {
        if self.length_counter > 0 && self.shift_register & 1 == 0 {
            if self.constant_volume { self.volume } else { self.env_volume }
        } else {
            0
        }
    }
}

impl DmcChannel {
    pub open spec fn wf(self) -> bool {
        self.rate_index < 16 && self.output_level <= 127
    }

    /// A write of DMC register `addr` ($4010-$4013).
    pub open spec fn reg_written(self, addr: u16, data: u8) -> Self {
        if addr == 0x4010 {
            DmcChannel {
                irq_enabled: data & 0x80 > 0,
                loop_flag: data & 0x40 > 0,
                rate_index: data & 0x0F,
                timer: (dmc_rate_spec((data & 0x0F) as int) - 1) as u16,
                interrupt_flag: if data & 0x80 > 0 { self.interrupt_flag } else { false },
                ..self
            }
        } else if addr == 0x4011 {
            DmcChannel { output_level: data & 0x7F, ..self }
        } else if addr == 0x4012 {
            DmcChannel { sample_addr_reg: data, ..self }
        } else if addr == 0x4013 {
            DmcChannel { sample_length_reg: data, ..self }
        } else {
            self
        }
    }

    /// The memory reader asks for a byte when its buffer is empty and bytes
    /// remain.
    pub open spec fn reader_ticked(self) -> Self {
        if self.sample_buffer is Some || self.bytes_remaining == 0 || self.dma_request {
            self
        } else {
            DmcChannel { dma_request: true, ..self }
        }
    }

    /// The output unit: on timer expiry the level moves by 2 per bit
    /// (unless silenced), and after eight bits the buffered byte is loaded.
    pub open spec fn output_ticked(self) -> Self {
        if self.timer != 0 {
            DmcChannel { timer: (self.timer - 1) as u16, ..self }
        } else {
            let level = if self.silence_flag {
                self.output_level
            } else if self.shift_register & 1 == 1 {
                if self.output_level <= 125 { (self.output_level + 2) as u8 } else { self.output_level }
            } else if self.output_level >= 2 {
                (self.output_level - 2) as u8
            } else {
                self.output_level
            };
            let bits = if self.bits_remaining > 0 { (self.bits_remaining - 1) as u8 } else { 0 };
            let s1 = DmcChannel {
                timer: (dmc_rate_spec(self.rate_index as int) - 1) as u16,
                output_level: level,
                shift_register: self.shift_register >> 1u8,
                bits_remaining: bits,
                ..self
            };
            if bits == 0 {
                match self.sample_buffer {
                    Some(b) => DmcChannel { bits_remaining: 8, silence_flag: false, shift_register: b, sample_buffer: None, ..s1 },
                    None => DmcChannel { bits_remaining: 8, silence_flag: true, ..s1 },
                }
            } else {
                s1
            }
        }
    }

    /// The first byte of the sample and its length, from $4012 and $4013.
    pub open spec fn restarted(self) -> Self {
        DmcChannel {
            current_addr: (0xC000 + self.sample_addr_reg as int * 64) as u16,
            bytes_remaining: (self.sample_length_reg as int * 16 + 1) as u16,
            ..self
        }
    }

    /// What the channel does with the byte its reader fetched.
    pub open spec fn dma_completed(self, byte: u8) -> Self {
        let s1 = DmcChannel { dma_request: false, ..self };
        if self.bytes_remaining == 0 {
            s1
        } else {
            let left = (self.bytes_remaining - 1) as u16;
            let s2 = DmcChannel {
                sample_buffer: Some(byte),
                current_addr: if self.current_addr == 0xFFFF { 0x8000 } else { (self.current_addr + 1) as u16 },
                bytes_remaining: left,
                ..s1
            };
            if left == 0 {
                if self.loop_flag {
                    s2.restarted()
                } else {
                    DmcChannel { silence_flag: true, interrupt_flag: self.interrupt_flag || self.irq_enabled, ..s2 }
                }
            } else {
                s2
            }
        }
    }
}

/// The state of the sound unit that a save records.
#[derive(Clone, Copy)]
pub struct ApuState {
    pub frame_counter: u32,
    pub mode_5_step: bool,
    pub irq_inhibit: bool,
    pub frame_irq_flag: bool,
    pub frame_counter_reset_delay: u8,
    pub frame_counter_clock_immediately: bool,
    pub p1_timer_reload: u16,
    pub p1_timer: u16,
    pub p1_sequence_step: u8,
    pub p1_length_counter: u8,
    pub p1_duty_index: u8,
    pub p1_volume: u8,
    pub pulse1_enabled: bool,
    pub p1_halt: bool,
    pub p1_constant_volume: bool,
    pub p1_sweep_enabled: bool,
    pub p1_sweep_period: u8,
    pub p1_sweep_negate: bool,
    pub p1_sweep_shift: u8,
    pub p1_sweep_reload: bool,
    pub p1_sweep_divider: u8,
    pub p2_timer_reload: u16,
    pub p2_timer: u16,
    pub p2_sequence_step: u8,
    pub p2_length_counter: u8,
    pub p2_duty_index: u8,
    pub p2_volume: u8,
    pub pulse2_enabled: bool,
    pub p2_halt: bool,
    pub p2_sweep_enabled: bool,
    pub p2_sweep_period: u8,
    pub p2_sweep_negate: bool,
    pub p2_sweep_shift: u8,
    pub p2_sweep_reload: bool,
    pub p2_sweep_divider: u8,
    pub tri_enabled: bool,
    pub tri_reload_flag: bool,
    pub tri_timer_reload: u16,
    pub tri_timer: u16,
    pub tri_sequence_step: u8,
    pub tri_length_counter: u8,
    pub tri_linear_counter: u8,
    pub tri_linear_reload: u8,
    pub tri_control_flag: bool,
    pub n_halt: bool,
    pub n_constant_volume: bool,
    pub n_volume: u8,
    pub n_mode: bool,
    pub n_timer_reload: u16,
    pub n_timer: u16,
    pub n_shift_register: u16,
    pub noise_enabled: bool,
    pub noise_length_counter: u8,
    pub dmc_irq_enabled: bool,
    pub dmc_loop: bool,
    pub dmc_rate_index: u8,
    pub dmc_timer: u16,
    pub dmc_output_level: u8,
    pub dmc_sample_addr_reg: u8,
    pub dmc_sample_length_reg: u8,
    pub dmc_current_addr: u16,
    pub dmc_bytes_remaining: u16,
    pub dmc_sample_buffer: Option<u8>,
    pub dmc_shift_register: u8,
    pub dmc_bits_remaining: u8,
    pub dmc_silence_flag: bool,
    pub dmc_enabled: bool,
    pub dmc_interrupt_flag: bool,
    pub dmc_dma_request: bool,
    pub p1_env_volume: u8,
    pub p1_env_divider: u8,
    pub p1_env_start: bool,
    pub p2_env_volume: u8,
    pub p2_env_divider: u8,
    pub p2_env_start: bool,
    pub n_env_volume: u8,
    pub n_env_divider: u8,
    pub n_env_start: bool,
    pub total_apu_cycles: u64,
    pub even_cycle: bool,
}

impl NesAPU {
    /// The unit at power-up.
    pub open spec fn power_up() -> NesAPU {
        NesAPU {
            frame_counter: 0,
            mode_5_step: false,
            irq_inhibit: false,
            frame_irq_flag: false,
            frame_counter_reset_delay: 0,
            frame_counter_clock_immediately: false,
            p1: PulseChannel {
                timer_reload: 0,
                timer: 0,
                sequence_step: 0,
                length_counter: 0,
                duty_index: 0,
                volume: 0,
                enabled: false,
                halt: false,
                constant_volume: false,
                sweep_enabled: false,
                sweep_period: 0,
                sweep_negate: false,
                sweep_shift: 0,
                sweep_reload: false,
                sweep_divider: 0,
                env_volume: 0,
                env_divider: 0,
                env_start: false,
            },
            p2: PulseChannel {
                timer_reload: 0,
                timer: 0,
                sequence_step: 0,
                length_counter: 0,
                duty_index: 0,
                volume: 0,
                enabled: false,
                halt: false,
                sweep_enabled: false,
                sweep_period: 0,
                sweep_negate: false,
                sweep_shift: 0,
                sweep_reload: false,
                sweep_divider: 0,
                env_volume: 0,
                env_divider: 0,
                env_start: false,
                constant_volume: false,
            },
            tri: TriangleChannel {
                enabled: false,
                reload_flag: false,
                timer_reload: 0,
                timer: 0,
                sequence_step: 0,
                length_counter: 0,
                linear_counter: 0,
                linear_reload: 0,
                control_flag: false,
            },
            noise: NoiseChannel {
                halt: false,
                constant_volume: false,
                volume: 0,
                mode: false,
                timer_reload: 0,
                timer: 0,
                shift_register: 1,
                enabled: false,
                length_counter: 0,
                env_volume: 0,
                env_divider: 0,
                env_start: false,
            },
            dmc: DmcChannel {
                irq_enabled: false,
                loop_flag: false,
                rate_index: 0,
                timer: 427,
                output_level: 0,
                sample_addr_reg: 0,
                sample_length_reg: 0,
                current_addr: 0xC000,
                bytes_remaining: 0,
                sample_buffer: None,
                shift_register: 0,
                bits_remaining: 0,
                silence_flag: true,
                enabled: false,
                interrupt_flag: false,
                dma_request: false,
            },
            total_apu_cycles: 0,
            even_cycle: true,
        }
    }

    /// The state a save records.
    pub open spec fn state_of(self) -> ApuState {
        ApuState {
            frame_counter: self.frame_counter,
            mode_5_step: self.mode_5_step,
            irq_inhibit: self.irq_inhibit,
            frame_irq_flag: self.frame_irq_flag,
            frame_counter_reset_delay: self.frame_counter_reset_delay,
            frame_counter_clock_immediately: self.frame_counter_clock_immediately,
            p1_timer_reload: self.p1.timer_reload,
            p1_timer: self.p1.timer,
            p1_sequence_step: self.p1.sequence_step,
            p1_length_counter: self.p1.length_counter,
            p1_duty_index: self.p1.duty_index,
            p1_volume: self.p1.volume,
            pulse1_enabled: self.p1.enabled,
            p1_halt: self.p1.halt,
            p1_constant_volume: self.p1.constant_volume,
            p1_sweep_enabled: self.p1.sweep_enabled,
            p1_sweep_period: self.p1.sweep_period,
            p1_sweep_negate: self.p1.sweep_negate,
            p1_sweep_shift: self.p1.sweep_shift,
            p1_sweep_reload: self.p1.sweep_reload,
            p1_sweep_divider: self.p1.sweep_divider,
            p2_timer_reload: self.p2.timer_reload,
            p2_timer: self.p2.timer,
            p2_sequence_step: self.p2.sequence_step,
            p2_length_counter: self.p2.length_counter,
            p2_duty_index: self.p2.duty_index,
            p2_volume: self.p2.volume,
            pulse2_enabled: self.p2.enabled,
            p2_halt: self.p2.halt,
            p2_sweep_enabled: self.p2.sweep_enabled,
            p2_sweep_period: self.p2.sweep_period,
            p2_sweep_negate: self.p2.sweep_negate,
            p2_sweep_shift: self.p2.sweep_shift,
            p2_sweep_reload: self.p2.sweep_reload,
            p2_sweep_divider: self.p2.sweep_divider,
            tri_enabled: self.tri.enabled,
            tri_reload_flag: self.tri.reload_flag,
            tri_timer_reload: self.tri.timer_reload,
            tri_timer: self.tri.timer,
            tri_sequence_step: self.tri.sequence_step,
            tri_length_counter: self.tri.length_counter,
            tri_linear_counter: self.tri.linear_counter,
            tri_linear_reload: self.tri.linear_reload,
            tri_control_flag: self.tri.control_flag,
            n_halt: self.noise.halt,
            n_constant_volume: self.noise.constant_volume,
            n_volume: self.noise.volume,
            n_mode: self.noise.mode,
            n_timer_reload: self.noise.timer_reload,
            n_timer: self.noise.timer,
            n_shift_register: self.noise.shift_register,
            noise_enabled: self.noise.enabled,
            noise_length_counter: self.noise.length_counter,
            dmc_irq_enabled: self.dmc.irq_enabled,
            dmc_loop: self.dmc.loop_flag,
            dmc_rate_index: self.dmc.rate_index,
            dmc_timer: self.dmc.timer,
            dmc_output_level: self.dmc.output_level,
            dmc_sample_addr_reg: self.dmc.sample_addr_reg,
            dmc_sample_length_reg: self.dmc.sample_length_reg,
            dmc_current_addr: self.dmc.current_addr,
            dmc_bytes_remaining: self.dmc.bytes_remaining,
            dmc_sample_buffer: self.dmc.sample_buffer,
            dmc_shift_register: self.dmc.shift_register,
            dmc_bits_remaining: self.dmc.bits_remaining,
            dmc_silence_flag: self.dmc.silence_flag,
            dmc_enabled: self.dmc.enabled,
            dmc_interrupt_flag: self.dmc.interrupt_flag,
            dmc_dma_request: self.dmc.dma_request,
            p1_env_volume: self.p1.env_volume,
            p1_env_divider: self.p1.env_divider,
            p1_env_start: self.p1.env_start,
            p2_env_volume: self.p2.env_volume,
            p2_env_divider: self.p2.env_divider,
            p2_env_start: self.p2.env_start,
            n_env_volume: self.noise.env_volume,
            n_env_divider: self.noise.env_divider,
            n_env_start: self.noise.env_start,
            total_apu_cycles: self.total_apu_cycles,
            even_cycle: self.even_cycle,
        }
    }

    /// The unit restored from `st` (pulse 2 has no constant-volume bit in a state).
    pub open spec fn with_state(self, st: ApuState) -> NesAPU {
        NesAPU {
            frame_counter: st.frame_counter,
            mode_5_step: st.mode_5_step,
            irq_inhibit: st.irq_inhibit,
            frame_irq_flag: st.frame_irq_flag,
            frame_counter_reset_delay: st.frame_counter_reset_delay,
            frame_counter_clock_immediately: st.frame_counter_clock_immediately,
            p1: PulseChannel {
                timer_reload: st.p1_timer_reload,
                timer: st.p1_timer,
                sequence_step: st.p1_sequence_step,
                length_counter: st.p1_length_counter,
                duty_index: st.p1_duty_index,
                volume: st.p1_volume,
                enabled: st.pulse1_enabled,
                halt: st.p1_halt,
                constant_volume: st.p1_constant_volume,
                sweep_enabled: st.p1_sweep_enabled,
                sweep_period: st.p1_sweep_period,
                sweep_negate: st.p1_sweep_negate,
                sweep_shift: st.p1_sweep_shift,
                sweep_reload: st.p1_sweep_reload,
                sweep_divider: st.p1_sweep_divider,
                env_volume: st.p1_env_volume,
                env_divider: st.p1_env_divider,
                env_start: st.p1_env_start,
            },
            p2: PulseChannel {
                timer_reload: st.p2_timer_reload,
                timer: st.p2_timer,
                sequence_step: st.p2_sequence_step,
                length_counter: st.p2_length_counter,
                duty_index: st.p2_duty_index,
                volume: st.p2_volume,
                enabled: st.pulse2_enabled,
                halt: st.p2_halt,
                sweep_enabled: st.p2_sweep_enabled,
                sweep_period: st.p2_sweep_period,
                sweep_negate: st.p2_sweep_negate,
                sweep_shift: st.p2_sweep_shift,
                sweep_reload: st.p2_sweep_reload,
                sweep_divider: st.p2_sweep_divider,
                env_volume: st.p2_env_volume,
                env_divider: st.p2_env_divider,
                env_start: st.p2_env_start,
                constant_volume: self.p2.constant_volume,
            },
            tri: TriangleChannel {
                enabled: st.tri_enabled,
                reload_flag: st.tri_reload_flag,
                timer_reload: st.tri_timer_reload,
                timer: st.tri_timer,
                sequence_step: st.tri_sequence_step,
                length_counter: st.tri_length_counter,
                linear_counter: st.tri_linear_counter,
                linear_reload: st.tri_linear_reload,
                control_flag: st.tri_control_flag,
            },
            noise: NoiseChannel {
                halt: st.n_halt,
                constant_volume: st.n_constant_volume,
                volume: st.n_volume,
                mode: st.n_mode,
                timer_reload: st.n_timer_reload,
                timer: st.n_timer,
                shift_register: st.n_shift_register,
                enabled: st.noise_enabled,
                length_counter: st.noise_length_counter,
                env_volume: st.n_env_volume,
                env_divider: st.n_env_divider,
                env_start: st.n_env_start,
            },
            dmc: DmcChannel {
                irq_enabled: st.dmc_irq_enabled,
                loop_flag: st.dmc_loop,
                rate_index: st.dmc_rate_index,
                timer: st.dmc_timer,
                output_level: st.dmc_output_level,
                sample_addr_reg: st.dmc_sample_addr_reg,
                sample_length_reg: st.dmc_sample_length_reg,
                current_addr: st.dmc_current_addr,
                bytes_remaining: st.dmc_bytes_remaining,
                sample_buffer: st.dmc_sample_buffer,
                shift_register: st.dmc_shift_register,
                bits_remaining: st.dmc_bits_remaining,
                silence_flag: st.dmc_silence_flag,
                enabled: st.dmc_enabled,
                interrupt_flag: st.dmc_interrupt_flag,
                dma_request: st.dmc_dma_request,
            },
            total_apu_cycles: st.total_apu_cycles,
            even_cycle: st.even_cycle,
        }
    }

    pub open spec fn wf(self) -> bool {
        &&& self.frame_counter < 37281
        &&& self.p1.wf()
        &&& self.p2.wf()
        &&& self.tri.sequence_step < 32
        &&& self.dmc.wf()
    }

    /// A triangle register write ($4008-$400B).
    pub open spec fn tri_reg_written(self, addr: u16, data: u8) -> Self {
        let t = self.tri;
        if addr == 0x4008 {
            NesAPU { tri: TriangleChannel { control_flag: data & 0x80 > 0, linear_reload: data & 0x7F, ..t }, ..self }
        } else if addr == 0x400A {
            NesAPU { tri: TriangleChannel { timer_reload: (t.timer_reload & 0x0700) | (data as u16), ..t }, ..self }
        } else if addr == 0x400B {
            NesAPU {
                tri: TriangleChannel {
                    timer_reload: (t.timer_reload & 0x00FF) | (((data & 0x07) as u16) << 8u16),
                    length_counter: if t.enabled { length_spec(((data >> 3u8) & 0x1F) as int) } else { t.length_counter },
                    reload_flag: true,
                    ..t
                },
                ..self
            }
        } else {
            self
        }
    }

    /// The status write ($4015): channel enables, silenced length counters,
    /// and the DMC sample started (when none is playing) or stopped.
    pub open spec fn status_written(self, data: u8) -> Self {
        let p1 = data & 0x01 != 0;
        let p2 = data & 0x02 != 0;
        let tri = data & 0x04 != 0;
        let noise = data & 0x08 != 0;
        let on = data & 0x10 != 0;
        let d0 = DmcChannel { interrupt_flag: false, enabled: on, ..self.dmc };
        let d = if !on {
            DmcChannel { bytes_remaining: 0, dma_request: false, ..d0 }
        } else if d0.bytes_remaining == 0 {
            DmcChannel { silence_flag: false, ..d0.restarted() }
        } else {
            d0
        };
        NesAPU {
            p1: PulseChannel { enabled: p1, length_counter: if p1 { self.p1.length_counter } else { 0 }, ..self.p1 },
            p2: PulseChannel { enabled: p2, length_counter: if p2 { self.p2.length_counter } else { 0 }, ..self.p2 },
            tri: TriangleChannel { enabled: tri, length_counter: if tri { self.tri.length_counter } else { 0 }, ..self.tri },
            noise: NoiseChannel { enabled: noise, length_counter: if noise { self.noise.length_counter } else { 0 }, ..self.noise },
            dmc: d,
            ..self
        }
    }

    /// The unit after a CPU write of `data` to sound register `addr`.
    pub open spec fn reg_written(self, addr: u16, data: u8) -> Self {
        if 0x4000 <= addr <= 0x4003 {
            NesAPU { p1: self.p1.reg_written((addr - 0x4000) as u16, data, true), ..self }
        } else if 0x4004 <= addr <= 0x4007 {
            NesAPU { p2: self.p2.reg_written((addr - 0x4004) as u16, data, false), ..self }
        } else if 0x4008 <= addr <= 0x400B {
            self.tri_reg_written(addr, data)
        } else if 0x400C <= addr <= 0x400F {
            NesAPU { noise: self.noise.reg_written(addr, data), ..self }
        } else if 0x4010 <= addr <= 0x4013 {
            NesAPU { dmc: self.dmc.reg_written(addr, data), ..self }
        } else if addr == 0x4015 {
            self.status_written(data)
        } else if addr == 0x4017 {
            let inhibit = data & 0x40 != 0;
            NesAPU {
                mode_5_step: data & 0x80 != 0,
                irq_inhibit: inhibit,
                frame_irq_flag: if inhibit { false } else { self.frame_irq_flag },
                frame_counter_reset_delay: if self.total_apu_cycles % 2 == 0 { 3 } else { 4 },
                frame_counter_clock_immediately: data & 0x80 != 0,
                ..self
            }
        } else {
            self
        }
    }

    /// The byte a $4015 read returns: length counters running, DMC bytes
    /// left, frame and DMC interrupts.
    pub open spec fn status_byte(self) -> u8 {
        (if self.p1.length_counter > 0 { 0x01u8 } else { 0 }) | (if self.p2.length_counter > 0 { 0x02u8 } else { 0 })
            | (if self.tri.length_counter > 0 { 0x04u8 } else { 0 }) | (if self.noise.length_counter > 0 { 0x08u8 } else { 0 })
            | (if self.dmc.bytes_remaining > 0 { 0x10u8 } else { 0 }) | (if self.frame_irq_flag { 0x40u8 } else { 0 })
            | (if self.dmc.interrupt_flag { 0x80u8 } else { 0 })
    }

    /// A quarter-frame clock: envelopes and the triangle's linear counter.
    pub open spec fn envelopes_clocked(self) -> Self {
        NesAPU {
            tri: self.tri.linear_ticked(),
            p1: self.p1.envelope_ticked(),
            p2: self.p2.envelope_ticked(),
            noise: self.noise.envelope_ticked(),
            ..self
        }
    }

    /// A half-frame clock: length counters and sweeps (pulse 1 negates with
    /// one's complement).
    pub open spec fn sweeps_clocked(self) -> Self {
        NesAPU {
            p1: self.p1.half_frame(true),
            p2: self.p2.half_frame(false),
            tri: self.tri.length_ticked(),
            noise: self.noise.length_ticked(),
            ..self
        }
    }

    /// The frame-counter reset that a $4017 write schedules: counts down,
    /// and on reaching zero restarts the sequence (clocking everything at
    /// once in 5-step mode). The flag says whether it fired this cycle.
    pub open spec fn reset_delay_ticked(self) -> (bool, Self) {
        if self.frame_counter_reset_delay == 0 {
            (false, self)
        } else {
            let d = (self.frame_counter_reset_delay - 1) as u8;
            let s1 = NesAPU { frame_counter_reset_delay: d, ..self };
            if d == 0 {
                let s2 = NesAPU { frame_counter: 0, ..s1 };
                if s2.frame_counter_clock_immediately {
                    (true, (NesAPU { frame_counter_clock_immediately: false, ..s2 }).envelopes_clocked().sweeps_clocked())
                } else {
                    (true, s2)
                }
            } else {
                (false, s1)
            }
        }
    }

    /// The channel timers and the DMC for one CPU cycle (the pulse timers
    /// run on every other cycle).
    pub open spec fn timers_ticked(self) -> Self {
        NesAPU {
            p1: if self.even_cycle { self.p1.timer_ticked() } else { self.p1 },
            p2: if self.even_cycle { self.p2.timer_ticked() } else { self.p2 },
            tri: self.tri.timer_ticked(),
            noise: self.noise.timer_ticked(),
            dmc: self.dmc.reader_ticked().output_ticked(),
            ..self
        }
    }

    /// The channel levels the mixer reads.
    pub open spec fn levels(self) -> ChannelLevels {
        ChannelLevels {
            pulse1: self.p1.level(true),
            pulse2: self.p2.level(false),
            triangle: self.tri.level(),
            noise: self.noise.level(),
            dmc: self.dmc.output_level,
        }
    }

    /// The frame sequencer: which of the quarter- and half-frame clocks
    /// fire this cycle, and the frame interrupt at the end of the 4-step
    /// sequence.
    pub open spec fn frame_sequenced(self) -> (bool, bool, Self) {
        let fc = (self.frame_counter + 1) as u32;
        if !self.mode_5_step {
            if fc == 7457 || fc == 22371 {
                (true, false, NesAPU { frame_counter: fc, ..self })
            } else if fc == 14913 {
                (true, true, NesAPU { frame_counter: fc, ..self })
            } else if fc == 29828 || fc == 29829 {
                (true, true, NesAPU { frame_counter: fc, frame_irq_flag: self.frame_irq_flag || !self.irq_inhibit, ..self })
            } else if fc >= 29830 {
                (false, false, NesAPU { frame_counter: 0, frame_irq_flag: self.frame_irq_flag || !self.irq_inhibit, ..self })
            } else {
                (false, false, NesAPU { frame_counter: fc, ..self })
            }
        } else {
            if fc == 7457 || fc == 22371 {
                (true, false, NesAPU { frame_counter: fc, ..self })
            } else if fc == 14913 {
                (true, true, NesAPU { frame_counter: fc, ..self })
            } else if fc >= 37281 {
                (true, true, NesAPU { frame_counter: 0, ..self })
            } else {
                (false, false, NesAPU { frame_counter: fc, ..self })
            }
        }
    }

    /// One CPU cycle of the unit: the channel levels for the mixer, and the
    /// unit after it.
    pub open spec fn stepped(self) -> (ChannelLevels, Self) {
        let s0 = NesAPU { total_apu_cycles: (self.total_apu_cycles + 1) as u64, even_cycle: !self.even_cycle, ..self };
        let (just_reset, s1) = s0.reset_delay_ticked();
        let s2 = s1.timers_ticked();
        let lv = s2.levels();
        let (env, len, s3) = if just_reset { (false, false, s2) } else { s2.frame_sequenced() };
        let s4 = if len { s3.sweeps_clocked() } else { s3 };
        let s5 = if env { s4.envelopes_clocked() } else { s4 };
        (lv, s5)
    }
}

impl PulseChannel {
    fn set_enabled(&mut self, on: bool)
        ensures
            *final(self) == (PulseChannel { enabled: on, length_counter: if on { old(self).length_counter } else { 0 }, ..*old(self) }),
    {
        self.enabled = on;
        if !on {
            self.length_counter = 0;
        }
    }

    /// Loads the length counter from bits 3-7 of `data` (when enabled).
    fn write_length(&mut self, data: u8)
        ensures
            *final(self) == old(self).length_written(data),
    {
        proof {
            crate::bits::lemma_byte_fields(data);
        }
        if self.enabled {
            self.length_counter = length_lookup((data >> 3u8) & 0x1F);
        }
    }

    /// A write of the channel's register `reg` (0-3).
    fn write_register(&mut self, reg: u16, data: u8, sets_cv: bool)
        requires
            old(self).wf(),
            reg <= 3,
        ensures
            *final(self) == old(self).reg_written(reg, data, sets_cv),
            final(self).wf(),
    {
        proof {
            crate::bits::lemma_byte_fields(data);
            lemma_period_bits(self.timer_reload, data, 0);
        }
        if reg == 0 {
            self.duty_index = (data >> 6u8) & 0x03;
            self.halt = (data & 0x20) > 0;
            if sets_cv {
                self.constant_volume = (data & 0x10) != 0;
            }
            self.volume = data & 0x0F;
            self.env_start = true;
        } else if reg == 1 {
            self.sweep_enabled = (data & 0x80) > 0;
            self.sweep_period = (data >> 4u8) & 0x07;
            self.sweep_negate = (data & 0x08) > 0;
            self.sweep_shift = data & 0x07;
            self.sweep_reload = true;
        } else if reg == 2 {
            self.timer_reload = (self.timer_reload & 0x0700) | (data as u16);
        } else {
            self.timer_reload = (self.timer_reload & 0x00FF) | (((data & 0x07) as u16) << 8u16);
            self.sequence_step = 0;
            self.write_length(data);
            self.sweep_reload = true;
            self.env_start = true;
        }
    }

    fn sweep_target_exec(&self, ones: bool) -> (r: (u16, bool))
        requires
            self.wf(),
        ensures
            r == self.sweep_target(ones),
    {
        let current_period = self.timer_reload;
        let delta = current_period >> self.sweep_shift;
        proof {
            lemma_period_bits(current_period, 0, self.sweep_shift);
        }
        let target_period = if self.sweep_negate {
            if ones {
                current_period.saturating_sub(delta).saturating_sub(1)
            } else {
                current_period.saturating_sub(delta)
            }
        } else {
            current_period + delta
        };
        (target_period, current_period < 8 || target_period > 0x7FF)
    }

    fn tick_timer(&mut self)
        requires
            old(self).wf(),
        ensures
            *final(self) == old(self).timer_ticked(),
            final(self).wf(),
    {
        if self.timer == 0 {
            self.timer = self.timer_reload;
            let next = self.sequence_step + 1;
            proof {
                crate::bits::lemma_byte_fields(next);
            }
            self.sequence_step = next & 7;
        } else {
            self.timer = self.timer - 1;
        }
    }

    fn clock_envelope(&mut self)
        ensures
            *final(self) == old(self).envelope_ticked(),
    {
        let (v, d, s) = envelope_next(self.env_start, self.env_volume, self.env_divider, self.volume, self.halt);
        self.env_volume = v;
        self.env_divider = d;
        self.env_start = s;
    }

    fn clock_half_frame(&mut self, ones: bool)
        requires
            old(self).wf(),
        ensures
            *final(self) == old(self).half_frame(ones),
            final(self).wf(),
    {
        if self.length_counter > 0 && !self.halt {
            self.length_counter = self.length_counter - 1;
        }
        let (target, muted) = self.sweep_target_exec(ones);
        if self.sweep_divider == 0 && self.sweep_enabled && !muted && self.sweep_shift > 0 {
            self.timer_reload = target;
        }
        if self.sweep_divider == 0 || self.sweep_reload {
            self.sweep_divider = self.sweep_period;
            self.sweep_reload = false;
        } else {
            self.sweep_divider = self.sweep_divider - 1;
        }
    }

    fn level_exec(&self, ones: bool) -> (r: u8)
        requires
            self.wf(),
        ensures
            r == self.level(ones),
    {
        let (_, muted) = self.sweep_target_exec(ones);
        if self.length_counter > 0 && !muted {
            let bit = duty_lookup(self.duty_index, self.sequence_step);
            let vol = if self.halt { self.volume } else { self.env_volume };
            if bit > 0 { vol } else { 0 }
        } else {
            0
        }
    }
}

impl TriangleChannel {
    fn set_enabled(&mut self, on: bool)
        ensures
            *final(self) == (TriangleChannel { enabled: on, length_counter: if on { old(self).length_counter } else { 0 }, ..*old(self) }),
    {
        self.enabled = on;
        if !on {
            self.length_counter = 0;
        }
    }

    fn tick_timer(&mut self)
        requires
            old(self).sequence_step < 32,
        ensures
            *final(self) == old(self).timer_ticked(),
            final(self).sequence_step < 32,
    {
        if self.timer == 0 {
            self.timer = self.timer_reload;
            if self.length_counter > 0 && self.linear_counter > 0 {
                let next = self.sequence_step + 1;
                proof {
                    crate::bits::lemma_byte_fields(next);
                }
                self.sequence_step = next & 31;
            }
        } else {
            self.timer = self.timer - 1;
        }
    }

    fn clock_linear(&mut self)
        ensures
            *final(self) == old(self).linear_ticked(),
    {
        if self.reload_flag {
            self.linear_counter = self.linear_reload;
        } else if self.linear_counter > 0 {
            self.linear_counter = self.linear_counter - 1;
        }
        if !self.control_flag {
            self.reload_flag = false;
        }
    }

    fn clock_length(&mut self)
        ensures
            *final(self) == old(self).length_ticked(),
    {
        if self.length_counter > 0 && !self.control_flag {
            self.length_counter = self.length_counter - 1;
        }
    }
}

impl NoiseChannel {
    /// A write of noise register `addr` ($400C-$400F).
    fn write_register(&mut self, addr: u16, data: u8)
        ensures
            *final(self) == old(self).reg_written(addr, data),
    {
        proof {
            crate::bits::lemma_byte_fields(data);
        }
        if addr == 0x400C {
            self.halt = (data & 0x20) > 0;
            self.constant_volume = (data & 0x10) > 0;
            self.volume = data & 0x0F;
            self.env_start = true;
        } else if addr == 0x400E {
            self.mode = (data & 0x80) > 0;
            self.timer_reload = noise_period_lookup(data & 0x0F);
        } else if addr == 0x400F {
            if self.enabled {
                self.length_counter = length_lookup((data >> 3u8) & 0x1F);
            }
            self.env_start = true;
        }
    }

    fn set_enabled(&mut self, on: bool)
        ensures
            *final(self) == (NoiseChannel { enabled: on, length_counter: if on { old(self).length_counter } else { 0 }, ..*old(self) }),
    {
        self.enabled = on;
        if !on {
            self.length_counter = 0;
        }
    }

    fn tick_timer(&mut self)
        ensures
            *final(self) == old(self).timer_ticked(),
    {
        if self.timer == 0 {
            self.timer = self.timer_reload;
            let shift_bit: u16 = if self.mode { 6 } else { 1 };
            let feedback = (self.shift_register & 1) ^ ((self.shift_register >> shift_bit) & 1);
            self.shift_register = (self.shift_register >> 1u16) | (feedback << 14u16);
        } else {
            self.timer = self.timer - 1;
        }
    }

    fn clock_envelope(&mut self)
        ensures
            *final(self) == old(self).envelope_ticked(),
    {
        let (v, d, s) = envelope_next(self.env_start, self.env_volume, self.env_divider, self.volume, self.halt);
        self.env_volume = v;
        self.env_divider = d;
        self.env_start = s;
    }

    fn clock_length(&mut self)
        ensures
            *final(self) == old(self).length_ticked(),
    {
        if self.length_counter > 0 && !self.halt {
            self.length_counter = self.length_counter - 1;
        }
    }
}

impl DmcChannel {
    /// A write of DMC register `addr` ($4010-$4013).
    fn write_register(&mut self, addr: u16, data: u8)
        requires
            old(self).wf(),
        ensures
            *final(self) == old(self).reg_written(addr, data),
            final(self).wf(),
    {
        proof {
            crate::bits::lemma_byte_fields(data);
        }
        if addr == 0x4010 {
            self.irq_enabled = (data & 0x80) > 0;
            self.loop_flag = (data & 0x40) > 0;
            self.rate_index = data & 0x0F;
            self.timer = dmc_rate_lookup(self.rate_index) - 1;
            if !self.irq_enabled {
                self.interrupt_flag = false;
            }
        } else if addr == 0x4011 {
            self.output_level = data & 0x7F;
        } else if addr == 0x4012 {
            self.sample_addr_reg = data;
        } else if addr == 0x4013 {
            self.sample_length_reg = data;
        }
    }

    /// The DMC part of a $4015 write.
    fn write_enable(&mut self, on: bool)
        ensures
            ({
                let d0 = DmcChannel { interrupt_flag: false, enabled: on, ..*old(self) };
                *final(self) == (if !on {
                    DmcChannel { bytes_remaining: 0, dma_request: false, ..d0 }
                } else if d0.bytes_remaining == 0 {
                    DmcChannel { silence_flag: false, ..d0.restarted() }
                } else {
                    d0
                })
            }),
    {
        self.interrupt_flag = false;
        self.enabled = on;
        if !on {
            self.bytes_remaining = 0;
            self.dma_request = false;
        } else if self.bytes_remaining == 0 {
            self.restart();
            self.silence_flag = false;
        }
    }

    fn tick_reader(&mut self)
        ensures
            *final(self) == old(self).reader_ticked(),
    {
        if self.sample_buffer.is_some() || self.bytes_remaining == 0 {
            return;
        }
        if self.dma_request {
            return;
        }
        self.dma_request = true;
    }

    fn tick_output(&mut self)
        requires
            old(self).wf(),
        ensures
            *final(self) == old(self).output_ticked(),
            final(self).wf(),
    {
        if self.timer != 0 {
            self.timer = self.timer - 1;
            return;
        }
        self.timer = dmc_rate_lookup(self.rate_index) - 1;
        if !self.silence_flag {
            if (self.shift_register & 1) == 1 {
                if self.output_level <= 125 {
                    self.output_level = self.output_level + 2;
                }
            } else if self.output_level >= 2 {
                self.output_level = self.output_level - 2;
            }
        }
        self.shift_register = self.shift_register >> 1u8;
        if self.bits_remaining > 0 {
            self.bits_remaining = self.bits_remaining - 1;
        }
        if self.bits_remaining == 0 {
            self.bits_remaining = 8;
            if let Some(byte) = self.sample_buffer.take() {
                self.silence_flag = false;
                self.shift_register = byte;
            } else {
                self.silence_flag = true;
            }
        }
    }

    fn restart(&mut self)
        ensures
            *final(self) == old(self).restarted(),
    {
        self.current_addr = 0xC000 + (self.sample_addr_reg as u16 * 64);
        self.bytes_remaining = (self.sample_length_reg as u16 * 16) + 1;
    }
}

impl NesAPU {
    pub fn new() -> (r: Self)
        ensures
            r == Self::power_up(),
            r.wf(),
    {
        NesAPU {
            frame_counter: 0,
            mode_5_step: false,
            irq_inhibit: false,
            frame_irq_flag: false,
            frame_counter_reset_delay: 0,
            frame_counter_clock_immediately: false,
            p1: PulseChannel {
                timer_reload: 0,
                timer: 0,
                sequence_step: 0,
                length_counter: 0,
                duty_index: 0,
                volume: 0,
                enabled: false,
                halt: false,
                constant_volume: false,
                sweep_enabled: false,
                sweep_period: 0,
                sweep_negate: false,
                sweep_shift: 0,
                sweep_reload: false,
                sweep_divider: 0,
                env_volume: 0,
                env_divider: 0,
                env_start: false,
            },
            p2: PulseChannel {
                timer_reload: 0,
                timer: 0,
                sequence_step: 0,
                length_counter: 0,
                duty_index: 0,
                volume: 0,
                enabled: false,
                halt: false,
                sweep_enabled: false,
                sweep_period: 0,
                sweep_negate: false,
                sweep_shift: 0,
                sweep_reload: false,
                sweep_divider: 0,
                env_volume: 0,
                env_divider: 0,
                env_start: false,
                constant_volume: false,
            },
            tri: TriangleChannel {
                enabled: false,
                reload_flag: false,
                timer_reload: 0,
                timer: 0,
                sequence_step: 0,
                length_counter: 0,
                linear_counter: 0,
                linear_reload: 0,
                control_flag: false,
            },
            noise: NoiseChannel {
                halt: false,
                constant_volume: false,
                volume: 0,
                mode: false,
                timer_reload: 0,
                timer: 0,
                shift_register: 1,
                enabled: false,
                length_counter: 0,
                env_volume: 0,
                env_divider: 0,
                env_start: false,
            },
            dmc: DmcChannel {
                irq_enabled: false,
                loop_flag: false,
                rate_index: 0,
                timer: 427,
                output_level: 0,
                sample_addr_reg: 0,
                sample_length_reg: 0,
                current_addr: 0xC000,
                bytes_remaining: 0,
                sample_buffer: None,
                shift_register: 0,
                bits_remaining: 0,
                silence_flag: true,
                enabled: false,
                interrupt_flag: false,
                dma_request: false,
            },
            total_apu_cycles: 0,
            even_cycle: true,
        }
    }

    /// The state to save.
    pub fn get_state(&self) -> (r: ApuState)
        ensures
            r == self.state_of(),
    {
        ApuState {
            frame_counter: self.frame_counter,
            mode_5_step: self.mode_5_step,
            irq_inhibit: self.irq_inhibit,
            frame_irq_flag: self.frame_irq_flag,
            frame_counter_reset_delay: self.frame_counter_reset_delay,
            frame_counter_clock_immediately: self.frame_counter_clock_immediately,
            p1_timer_reload: self.p1.timer_reload,
            p1_timer: self.p1.timer,
            p1_sequence_step: self.p1.sequence_step,
            p1_length_counter: self.p1.length_counter,
            p1_duty_index: self.p1.duty_index,
            p1_volume: self.p1.volume,
            pulse1_enabled: self.p1.enabled,
            p1_halt: self.p1.halt,
            p1_constant_volume: self.p1.constant_volume,
            p1_sweep_enabled: self.p1.sweep_enabled,
            p1_sweep_period: self.p1.sweep_period,
            p1_sweep_negate: self.p1.sweep_negate,
            p1_sweep_shift: self.p1.sweep_shift,
            p1_sweep_reload: self.p1.sweep_reload,
            p1_sweep_divider: self.p1.sweep_divider,
            p2_timer_reload: self.p2.timer_reload,
            p2_timer: self.p2.timer,
            p2_sequence_step: self.p2.sequence_step,
            p2_length_counter: self.p2.length_counter,
            p2_duty_index: self.p2.duty_index,
            p2_volume: self.p2.volume,
            pulse2_enabled: self.p2.enabled,
            p2_halt: self.p2.halt,
            p2_sweep_enabled: self.p2.sweep_enabled,
            p2_sweep_period: self.p2.sweep_period,
            p2_sweep_negate: self.p2.sweep_negate,
            p2_sweep_shift: self.p2.sweep_shift,
            p2_sweep_reload: self.p2.sweep_reload,
            p2_sweep_divider: self.p2.sweep_divider,
            tri_enabled: self.tri.enabled,
            tri_reload_flag: self.tri.reload_flag,
            tri_timer_reload: self.tri.timer_reload,
            tri_timer: self.tri.timer,
            tri_sequence_step: self.tri.sequence_step,
            tri_length_counter: self.tri.length_counter,
            tri_linear_counter: self.tri.linear_counter,
            tri_linear_reload: self.tri.linear_reload,
            tri_control_flag: self.tri.control_flag,
            n_halt: self.noise.halt,
            n_constant_volume: self.noise.constant_volume,
            n_volume: self.noise.volume,
            n_mode: self.noise.mode,
            n_timer_reload: self.noise.timer_reload,
            n_timer: self.noise.timer,
            n_shift_register: self.noise.shift_register,
            noise_enabled: self.noise.enabled,
            noise_length_counter: self.noise.length_counter,
            dmc_irq_enabled: self.dmc.irq_enabled,
            dmc_loop: self.dmc.loop_flag,
            dmc_rate_index: self.dmc.rate_index,
            dmc_timer: self.dmc.timer,
            dmc_output_level: self.dmc.output_level,
            dmc_sample_addr_reg: self.dmc.sample_addr_reg,
            dmc_sample_length_reg: self.dmc.sample_length_reg,
            dmc_current_addr: self.dmc.current_addr,
            dmc_bytes_remaining: self.dmc.bytes_remaining,
            dmc_sample_buffer: self.dmc.sample_buffer,
            dmc_shift_register: self.dmc.shift_register,
            dmc_bits_remaining: self.dmc.bits_remaining,
            dmc_silence_flag: self.dmc.silence_flag,
            dmc_enabled: self.dmc.enabled,
            dmc_interrupt_flag: self.dmc.interrupt_flag,
            dmc_dma_request: self.dmc.dma_request,
            p1_env_volume: self.p1.env_volume,
            p1_env_divider: self.p1.env_divider,
            p1_env_start: self.p1.env_start,
            p2_env_volume: self.p2.env_volume,
            p2_env_divider: self.p2.env_divider,
            p2_env_start: self.p2.env_start,
            n_env_volume: self.noise.env_volume,
            n_env_divider: self.noise.env_divider,
            n_env_start: self.noise.env_start,
            total_apu_cycles: self.total_apu_cycles,
            even_cycle: self.even_cycle,
        }
    }

    /// Restores a saved state.
    pub fn load_state(&mut self, state: &ApuState)
        ensures
            *final(self) == old(self).with_state(*state),
    {
        let cv = self.p2.constant_volume;
        *self = NesAPU {
            frame_counter: state.frame_counter,
            mode_5_step: state.mode_5_step,
            irq_inhibit: state.irq_inhibit,
            frame_irq_flag: state.frame_irq_flag,
            frame_counter_reset_delay: state.frame_counter_reset_delay,
            frame_counter_clock_immediately: state.frame_counter_clock_immediately,
            p1: PulseChannel {
                timer_reload: state.p1_timer_reload,
                timer: state.p1_timer,
                sequence_step: state.p1_sequence_step,
                length_counter: state.p1_length_counter,
                duty_index: state.p1_duty_index,
                volume: state.p1_volume,
                enabled: state.pulse1_enabled,
                halt: state.p1_halt,
                constant_volume: state.p1_constant_volume,
                sweep_enabled: state.p1_sweep_enabled,
                sweep_period: state.p1_sweep_period,
                sweep_negate: state.p1_sweep_negate,
                sweep_shift: state.p1_sweep_shift,
                sweep_reload: state.p1_sweep_reload,
                sweep_divider: state.p1_sweep_divider,
                env_volume: state.p1_env_volume,
                env_divider: state.p1_env_divider,
                env_start: state.p1_env_start,
            },
            p2: PulseChannel {
                timer_reload: state.p2_timer_reload,
                timer: state.p2_timer,
                sequence_step: state.p2_sequence_step,
                length_counter: state.p2_length_counter,
                duty_index: state.p2_duty_index,
                volume: state.p2_volume,
                enabled: state.pulse2_enabled,
                halt: state.p2_halt,
                sweep_enabled: state.p2_sweep_enabled,
                sweep_period: state.p2_sweep_period,
                sweep_negate: state.p2_sweep_negate,
                sweep_shift: state.p2_sweep_shift,
                sweep_reload: state.p2_sweep_reload,
                sweep_divider: state.p2_sweep_divider,
                env_volume: state.p2_env_volume,
                env_divider: state.p2_env_divider,
                env_start: state.p2_env_start,
                constant_volume: cv,
            },
            tri: TriangleChannel {
                enabled: state.tri_enabled,
                reload_flag: state.tri_reload_flag,
                timer_reload: state.tri_timer_reload,
                timer: state.tri_timer,
                sequence_step: state.tri_sequence_step,
                length_counter: state.tri_length_counter,
                linear_counter: state.tri_linear_counter,
                linear_reload: state.tri_linear_reload,
                control_flag: state.tri_control_flag,
            },
            noise: NoiseChannel {
                halt: state.n_halt,
                constant_volume: state.n_constant_volume,
                volume: state.n_volume,
                mode: state.n_mode,
                timer_reload: state.n_timer_reload,
                timer: state.n_timer,
                shift_register: state.n_shift_register,
                enabled: state.noise_enabled,
                length_counter: state.noise_length_counter,
                env_volume: state.n_env_volume,
                env_divider: state.n_env_divider,
                env_start: state.n_env_start,
            },
            dmc: DmcChannel {
                irq_enabled: state.dmc_irq_enabled,
                loop_flag: state.dmc_loop,
                rate_index: state.dmc_rate_index,
                timer: state.dmc_timer,
                output_level: state.dmc_output_level,
                sample_addr_reg: state.dmc_sample_addr_reg,
                sample_length_reg: state.dmc_sample_length_reg,
                current_addr: state.dmc_current_addr,
                bytes_remaining: state.dmc_bytes_remaining,
                sample_buffer: state.dmc_sample_buffer,
                shift_register: state.dmc_shift_register,
                bits_remaining: state.dmc_bits_remaining,
                silence_flag: state.dmc_silence_flag,
                enabled: state.dmc_enabled,
                interrupt_flag: state.dmc_interrupt_flag,
                dma_request: state.dmc_dma_request,
            },
            total_apu_cycles: state.total_apu_cycles,
            even_cycle: state.even_cycle,
        };
    }

    /// Whether the ranges `wf` names hold (a restored state may break them).
    pub fn is_well_formed(&self) -> (r: bool)
        ensures
            r == self.wf(),
    {
        self.frame_counter < 37281 && self.p1.timer_reload <= 0x7FF && self.p1.sweep_shift <= 7
            && self.p1.sequence_step < 8 && self.p1.duty_index < 4 && self.p2.timer_reload <= 0x7FF
            && self.p2.sweep_shift <= 7 && self.p2.sequence_step < 8 && self.p2.duty_index < 4
            && self.tri.sequence_step < 32 && self.dmc.rate_index < 16 && self.dmc.output_level <= 127
    }

    pub fn total_cycles(&self) -> (r: u64)
        ensures
            r == self.total_apu_cycles,
    {
        self.total_apu_cycles
    }

    /// The sweep target of pulse 1 (`is_pulse_1`) or pulse 2, and whether
    /// that channel is muted.
    fn calculate_sweep_target(&self, is_pulse_1: bool) -> (r: (u16, bool))
        requires
            self.wf(),
        ensures
            r == (if is_pulse_1 { self.p1.sweep_target(true) } else { self.p2.sweep_target(false) }),
    {
        if is_pulse_1 {
            self.p1.sweep_target_exec(true)
        } else {
            self.p2.sweep_target_exec(false)
        }
    }

    /// A CPU write of `data` to sound register `addr`.
    pub fn write_reg(&mut self, addr: u16, data: u8)
        requires
            old(self).wf(),
        ensures
            *final(self) == old(self).reg_written(addr, data),
            final(self).wf(),
    {
        if 0x4000 <= addr && addr <= 0x4003 {
            self.p1.write_register(addr - 0x4000, data, true);
        } else if 0x4004 <= addr && addr <= 0x4007 {
            self.p2.write_register(addr - 0x4004, data, false);
        } else if 0x4008 <= addr && addr <= 0x400B {
            self.write_triangle_reg(addr, data);
        } else if 0x400C <= addr && addr <= 0x400F {
            self.noise.write_register(addr, data);
        } else if 0x4010 <= addr && addr <= 0x4013 {
            self.dmc.write_register(addr, data);
        } else if addr == 0x4015 {
            self.write_status(data);
        } else if addr == 0x4017 {
            self.mode_5_step = (data & 0x80) != 0;
            self.irq_inhibit = (data & 0x40) != 0;
            if self.irq_inhibit {
                self.frame_irq_flag = false;
            }
            let delay: u8 = if self.total_apu_cycles % 2 == 0 { 3 } else { 4 };
            self.frame_counter_reset_delay = delay;
            if self.mode_5_step {
                self.frame_counter_clock_immediately = true;
            } else {
                self.frame_counter_clock_immediately = false;
            }
        }
    }

    /// The $4015 write.
    fn write_status(&mut self, data: u8)
        ensures
            *final(self) == old(self).status_written(data),
    {
        self.p1.set_enabled((data & 0x01) != 0);
        self.p2.set_enabled((data & 0x02) != 0);
        self.tri.set_enabled((data & 0x04) != 0);
        self.noise.set_enabled((data & 0x08) != 0);
        self.dmc.write_enable((data & 0x10) != 0);
    }

    fn write_triangle_reg(&mut self, addr: u16, data: u8)
        ensures
            *final(self) == old(self).tri_reg_written(addr, data),
    {
        proof {
            crate::bits::lemma_byte_fields(data);
        }
        match addr {
            0x4008 => {
                self.tri.control_flag = (data & 0x80) > 0;
                self.tri.linear_reload = data & 0x7F;
            },
            0x400A => {
                self.tri.timer_reload = (self.tri.timer_reload & 0x0700) | (data as u16);
            },
            0x400B => {
                self.tri.timer_reload = (self.tri.timer_reload & 0x00FF) | (((data & 0x07) as u16) << 8u16);
                if self.tri.enabled {
                    self.tri.length_counter = length_lookup((data >> 3u8) & 0x1F);
                }
                self.tri.reload_flag = true;
            },
            _ => {},
        }
    }

    /// A CPU read of $4015: the status byte; the read clears the frame
    /// interrupt.
    pub fn read_4015(&mut self) -> (r: u8)
        ensures
            r == old(self).status_byte(),
            *final(self) == (NesAPU { frame_irq_flag: false, ..*old(self) }),
    {
        let status: u8 = (if self.p1.length_counter > 0 { 0x01u8 } else { 0 }) | (if self.p2.length_counter > 0 {
            0x02u8
        } else {
            0
        }) | (if self.tri.length_counter > 0 { 0x04u8 } else { 0 }) | (if self.noise.length_counter > 0 {
            0x08u8
        } else {
            0
        }) | (if self.dmc.bytes_remaining > 0 { 0x10u8 } else { 0 }) | (if self.frame_irq_flag { 0x40u8 } else { 0 })
            | (if self.dmc.interrupt_flag { 0x80u8 } else { 0 });
        self.frame_irq_flag = false;
        status
    }

    /// Whether the unit holds the CPU's IRQ line low.
    pub fn is_irq_asserted(&self) -> (r: bool)
        ensures
            r == ((self.frame_irq_flag && !self.irq_inhibit) || self.dmc.interrupt_flag),
    {
        (self.frame_irq_flag && !self.irq_inhibit) || self.dmc.interrupt_flag
    }

    /// Loads pulse 1's length counter from bits 3-7 of `data` (when enabled).
    pub fn write_p1_length(&mut self, data: u8)
        ensures
            *final(self) == (NesAPU { p1: old(self).p1.length_written(data), ..*old(self) }),
    {
        self.p1.write_length(data);
    }

    /// Loads pulse 2's length counter from bits 3-7 of `data` (when enabled).
    pub fn write_p2_length(&mut self, data: u8)
        ensures
            *final(self) == (NesAPU { p2: old(self).p2.length_written(data), ..*old(self) }),
    {
        self.p2.write_length(data);
    }

    /// One CPU cycle of the unit; returns the channel levels for the mixer.
    #[verifier::rlimit(100)]
    #[verifier::spinoff_prover]
    pub fn step_one_cycle(&mut self) -> (r: ChannelLevels)
        requires
            old(self).wf(),
            old(self).total_apu_cycles < u64::MAX,
        ensures
            (r, *final(self)) == old(self).stepped(),
            final(self).wf(),
    {
        self.total_apu_cycles = self.total_apu_cycles + 1;
        self.even_cycle = !self.even_cycle;
        let just_reset = self.tick_frame_counter_reset_delay();
        let ghost s1 = *self;
        self.tick_pulse_timers();
        self.tick_triangle_timer();
        self.tick_noise_timer();
        self.tick_dmc_memory_reader();
        self.tick_dmc_output_unit();
        assert(*self == s1.timers_ticked());
        let levels = self.mix_digital_outputs();
        let (env_clock, len_clock) = if just_reset {
            (false, false)
        } else {
            self.tick_frame_sequencer()
        };
        if len_clock {
            self.clock_sweeps_and_lengths();
        }
        if env_clock {
            self.clock_envelopes_and_linear();
        }
        levels
    }

    fn tick_frame_counter_reset_delay(&mut self) -> (r: bool)
        requires
            old(self).wf(),
        ensures
            (r, *final(self)) == old(self).reset_delay_ticked(),
            final(self).wf(),
    {
        if self.frame_counter_reset_delay == 0 {
            return false;
        }
        self.frame_counter_reset_delay = self.frame_counter_reset_delay - 1;
        if self.frame_counter_reset_delay == 0 {
            self.frame_counter = 0;
            if self.frame_counter_clock_immediately {
                self.frame_counter_clock_immediately = false;
                self.clock_envelopes_and_linear();
                self.clock_sweeps_and_lengths();
            }
            return true;
        }
        false
    }

    /// The pulse timers, which run on every other CPU cycle.
    fn tick_pulse_timers(&mut self)
        requires
            old(self).wf(),
        ensures
            *final(self) == (NesAPU {
                p1: if old(self).even_cycle { old(self).p1.timer_ticked() } else { old(self).p1 },
                p2: if old(self).even_cycle { old(self).p2.timer_ticked() } else { old(self).p2 },
                ..*old(self)
            }),
            final(self).wf(),
    {
        if !self.even_cycle {
            return;
        }
        self.p1.tick_timer();
        self.p2.tick_timer();
    }

    fn tick_triangle_timer(&mut self)
        requires
            old(self).wf(),
        ensures
            *final(self) == (NesAPU { tri: old(self).tri.timer_ticked(), ..*old(self) }),
            final(self).wf(),
    {
        self.tri.tick_timer();
    }

    fn tick_noise_timer(&mut self)
        ensures
            *final(self) == (NesAPU { noise: old(self).noise.timer_ticked(), ..*old(self) }),
    {
        self.noise.tick_timer();
    }

    fn tick_dmc_memory_reader(&mut self)
        ensures
            *final(self) == (NesAPU { dmc: old(self).dmc.reader_ticked(), ..*old(self) }),
    {
        self.dmc.tick_reader();
    }

    /// Where the DMC's next sample byte comes from.
    pub fn dmc_dma_address(&self) -> (r: u16)
        ensures
            r == self.dmc.current_addr,
    {
        self.dmc.current_addr
    }

    /// Hands the DMC the byte its memory reader asked for.
    pub fn dmc_dma_complete(&mut self, byte: u8)
        ensures
            *final(self) == (NesAPU { dmc: old(self).dmc.dma_completed(byte), ..*old(self) }),
    {
        self.dmc.dma_request = false;
        if self.dmc.bytes_remaining == 0 {
            return;
        }
        self.dmc.sample_buffer = Some(byte);
        self.dmc.current_addr = if self.dmc.current_addr == 0xFFFF { 0x8000 } else { self.dmc.current_addr + 1 };
        self.dmc.bytes_remaining = self.dmc.bytes_remaining - 1;
        if self.dmc.bytes_remaining == 0 {
            if self.dmc.loop_flag {
                self.dmc.restart();
            } else {
                self.dmc.silence_flag = true;
                if self.dmc.irq_enabled {
                    self.dmc.interrupt_flag = true;
                }
            }
        }
    }

    fn tick_dmc_output_unit(&mut self)
        requires
            old(self).wf(),
        ensures
            *final(self) == (NesAPU { dmc: old(self).dmc.output_ticked(), ..*old(self) }),
            final(self).wf(),
    {
        self.dmc.tick_output();
    }

    fn clock_envelopes_and_linear(&mut self)
        ensures
            *final(self) == old(self).envelopes_clocked(),
    {
        self.tri.clock_linear();
        self.p1.clock_envelope();
        self.p2.clock_envelope();
        self.noise.clock_envelope();
    }

    fn clock_sweeps_and_lengths(&mut self)
        requires
            old(self).wf(),
        ensures
            *final(self) == old(self).sweeps_clocked(),
            final(self).wf(),
    {
        self.p1.clock_half_frame(true);
        self.p2.clock_half_frame(false);
        self.tri.clock_length();
        self.noise.clock_length();
    }

    /// The digital level of each channel right now; the mixer turns them
    /// into a sample.
    fn mix_digital_outputs(&self) -> (r: ChannelLevels)
        requires
            self.wf(),
        ensures
            r == self.levels(),
    {
        let p1 = self.p1.level_exec(true);
        let p2 = self.p2.level_exec(false);
        let tri = if self.tri.length_counter > 0 && self.tri.linear_counter > 0 {
            tri_lookup(self.tri.sequence_step)
        } else {
            0
        };
        let noise = if self.noise.length_counter > 0 && (self.noise.shift_register & 1) == 0 {
            if self.noise.constant_volume { self.noise.volume } else { self.noise.env_volume }
        } else {
            0
        };
        ChannelLevels { pulse1: p1, pulse2: p2, triangle: tri, noise, dmc: self.dmc.output_level }
    }

    fn tick_frame_sequencer(&mut self) -> (r: (bool, bool))
        requires
            old(self).wf(),
        ensures
            (r.0, r.1, *final(self)) == old(self).frame_sequenced(),
            final(self).wf(),
    {
        self.frame_counter = self.frame_counter + 1;
        let mut env_clock = false;
        let mut len_clock = false;
        if !self.mode_5_step {
            if self.frame_counter == 7457 || self.frame_counter == 22371 {
                env_clock = true;
            } else if self.frame_counter == 14913 {
                env_clock = true;
                len_clock = true;
            } else if self.frame_counter == 29828 || self.frame_counter == 29829 {
                env_clock = true;
                len_clock = true;
                if !self.irq_inhibit {
                    self.frame_irq_flag = true;
                }
            } else if self.frame_counter >= 29830 {
                if !self.irq_inhibit {
                    self.frame_irq_flag = true;
                }
                self.frame_counter = 0;
            }
        } else {
            if self.frame_counter == 7457 || self.frame_counter == 22371 {
                env_clock = true;
            } else if self.frame_counter == 14913 {
                env_clock = true;
                len_clock = true;
            } else if self.frame_counter >= 37281 {
                env_clock = true;
                len_clock = true;
                self.frame_counter = 0;
            }
        }
        (env_clock, len_clock)
    }
}

/// The eight bits of an or of single-bit flags.
proof fn lemma_flag_bits(b0: bool, b1: bool, b2: bool, b3: bool, b4: bool, b6: bool, b7: bool)
    by (bit_vector)
    ensures
        ({
            let x: u8 = (if b0 { 0x01u8 } else { 0u8 }) | (if b1 { 0x02u8 } else { 0u8 }) | (if b2 { 0x04u8 } else { 0u8 })
                | (if b3 { 0x08u8 } else { 0u8 }) | (if b4 { 0x10u8 } else { 0u8 }) | (if b6 { 0x40u8 } else { 0u8 })
                | (if b7 { 0x80u8 } else { 0u8 });
            &&& (x & 0x01 != 0) == b0 && (x & 0x02 != 0) == b1 && (x & 0x04 != 0) == b2 && (x & 0x08 != 0) == b3
            &&& (x & 0x10 != 0) == b4 && (x & 0x20) == 0 && (x & 0x40 != 0) == b6 && (x & 0x80 != 0) == b7
        }),
{
}

/// The $4015 status byte: bits 0-3 are set exactly when the two pulse
/// channels', the triangle's and the noise channel's length counters are
/// running, bit 4 while DMC bytes remain, bit 6 for the frame interrupt,
/// bit 7 for the DMC interrupt; bit 5 is clear.
pub proof fn lemma_status_byte_bits(apu: NesAPU)
    ensures
        (apu.status_byte() & 0x01 != 0) == (apu.p1.length_counter > 0),
        (apu.status_byte() & 0x02 != 0) == (apu.p2.length_counter > 0),
        (apu.status_byte() & 0x04 != 0) == (apu.tri.length_counter > 0),
        (apu.status_byte() & 0x08 != 0) == (apu.noise.length_counter > 0),
        (apu.status_byte() & 0x10 != 0) == (apu.dmc.bytes_remaining > 0),
        (apu.status_byte() & 0x20) == 0,
        (apu.status_byte() & 0x40 != 0) == apu.frame_irq_flag,
        (apu.status_byte() & 0x80 != 0) == apu.dmc.interrupt_flag,
{
    lemma_flag_bits(apu.p1.length_counter > 0, apu.p2.length_counter > 0, apu.tri.length_counter > 0,
        apu.noise.length_counter > 0, apu.dmc.bytes_remaining > 0, apu.frame_irq_flag, apu.dmc.interrupt_flag);
}

} // verus!
