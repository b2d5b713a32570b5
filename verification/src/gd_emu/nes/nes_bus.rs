use vstd::prelude::*;

verus! {

/// The PPU dot of a CPU cycle at which the interrupt lines are sampled.
pub const INT_SAMPLE_DOT: u32 = 2;

/// What a CPU read at an address reaches.
#[derive(Clone, Copy, PartialEq, Eq, Structural)]
pub enum ReadTarget {
    /// The 2 KiB of console RAM (mirrored up to $1FFF), at this index.
    Ram(usize),
    /// A PPU register (mirrored every 8 bytes up to $3FFF).
    PpuRegister(u16),
    /// The sound unit's status ($4015).
    ApuStatus,
    /// Controller 1's serial port ($4016).
    Controller1,
    /// The cartridge ($4020-$FFFF).
    Cartridge,
    /// Nothing drives the bus; the last value stays on it.
    OpenBus,
}

/// What a CPU write at an address reaches.
#[derive(Clone, Copy, PartialEq, Eq, Structural)]
pub enum WriteTarget {
    Ram(usize),
    PpuRegister(u16),
    /// $4014: starts a sprite DMA from page `value`.
    OamDma,
    /// $4016: the controller strobe.
    Controller,
    /// The other registers of $4000-$401F: the sound unit.
    Apu,
    Cartridge,
}

pub open spec fn read_target_spec(addr: u16) -> ReadTarget {
    if addr <= 0x1FFF {
        ReadTarget::Ram((addr % 0x0800) as usize)
    } else if addr <= 0x3FFF {
        ReadTarget::PpuRegister(addr % 8)
    } else if addr == 0x4015 {
        ReadTarget::ApuStatus
    } else if addr == 0x4016 {
        ReadTarget::Controller1
    } else if addr >= 0x4020 {
        ReadTarget::Cartridge
    } else {
        ReadTarget::OpenBus
    }
}

pub open spec fn write_target_spec(addr: u16) -> WriteTarget {
    if addr <= 0x1FFF {
        WriteTarget::Ram((addr % 0x0800) as usize)
    } else if addr <= 0x3FFF {
        WriteTarget::PpuRegister(addr % 8)
    } else if addr == 0x4014 {
        WriteTarget::OamDma
    } else if addr == 0x4016 {
        WriteTarget::Controller
    } else if addr <= 0x401F {
        WriteTarget::Apu
    } else {
        WriteTarget::Cartridge
    }
}

/// Decodes a CPU read address.
pub fn read_target(addr: u16) -> (r: ReadTarget)
    ensures
        r == read_target_spec(addr),
        r matches ReadTarget::Ram(i) ==> i < 0x0800,
{
    if addr <= 0x1FFF {
        ReadTarget::Ram((addr % 0x0800) as usize)
    } else if addr <= 0x3FFF {
        ReadTarget::PpuRegister(addr % 8)
    } else if addr == 0x4015 {
        ReadTarget::ApuStatus
    } else if addr == 0x4016 {
        ReadTarget::Controller1
    } else if addr >= 0x4020 {
        ReadTarget::Cartridge
    } else {
        ReadTarget::OpenBus
    }
}

/// Decodes a CPU write address.
pub fn write_target(addr: u16) -> (r: WriteTarget)
    ensures
        r == write_target_spec(addr),
        r matches WriteTarget::Ram(i) ==> i < 0x0800,
{
    if addr <= 0x1FFF {
        WriteTarget::Ram((addr % 0x0800) as usize)
    } else if addr <= 0x3FFF {
        WriteTarget::PpuRegister(addr % 8)
    } else if addr == 0x4014 {
        WriteTarget::OamDma
    } else if addr == 0x4016 {
        WriteTarget::Controller
    } else if addr <= 0x401F {
        WriteTarget::Apu
    } else {
        WriteTarget::Cartridge
    }
}

/// A read of $4015: the sound unit's status with bit 5 left floating.
pub fn apu_status_read(status: u8, open_bus: u8) -> (r: u8)
    ensures
        r == status | (open_bus & 0x20),
{
    status | (open_bus & 0x20)
}

/// The controller's shift register after a read while the strobe is low:
/// one bit out, a 1 in at the top.
pub open spec fn pad_shifted(shift: u8) -> u8 {
    (shift >> 1u8) | 0x80
}

/// A read of $4016: bit 0 from the shift register, bits 5-7 from the open
/// bus; with the strobe low the register shifts. Returns the value read and
/// the new shift register.
pub fn pad_read(shift: u8, strobe: bool, open_bus: u8) -> (r: (u8, u8))
    ensures
        r.0 == (shift & 0x01) | (open_bus & 0xE0),
        r.1 == (if strobe { shift } else { pad_shifted(shift) }),
{
    let value = (shift & 0x01) | (open_bus & 0xE0);
    let next = if !strobe { (shift >> 1u8) | 0x80 } else { shift };
    (value, next)
}

/// A write to $4016: bit 0 is the strobe; raising it latches the buttons.
/// Returns the strobe and the new shift register.
pub fn pad_write(value: u8, pad_state: u8, shift: u8) -> (r: (bool, u8))
    ensures
        r.0 == (value & 0x01 == 0x01),
        r.1 == (if value & 0x01 == 0x01 { pad_state } else { shift }),
{
    let strobe = (value & 0x01) == 0x01;
    let next = if strobe { pad_state } else { shift };
    (strobe, next)
}

/// The shift register after `k` reads with the strobe low.
pub open spec fn pad_after(s: u8, k: nat) -> u8
    decreases k,
{
    if k == 0 { s } else { pad_shifted(pad_after(s, (k - 1) as nat)) }
}

proof fn lemma_pad_step(s: u8, k: u8)
    by (bit_vector)
    requires
        k < 8,
    ensures
        (((s >> k) | !(0xFFu8 >> k)) >> 1u8) | 0x80 == (s >> (k + 1) as u8) | !(0xFFu8 >> (k + 1) as u8),
        (s >> 8u8) | !(0xFFu8 >> 8u8) == 0xFF,
        ((s >> k) | !(0xFFu8 >> k)) & 0x01 == (s >> k) & 0x01,
        ((0xFFu8 >> 1u8) | 0x80) == 0xFF,
        0xFFu8 & 0x01 == 1,
{
}

proof fn lemma_pad_shape(s: u8, k: nat)
    requires
        k <= 8,
    ensures
        pad_after(s, k) == (s >> (k as u8)) | !(0xFFu8 >> (k as u8)),
    decreases k,
{
    if k == 0 {
        assert((s >> 0u8) | !(0xFFu8 >> 0u8) == s) by (bit_vector);
    } else {
        lemma_pad_shape(s, (k - 1) as nat);
        lemma_pad_step(s, (k - 1) as u8);
    }
}

/// After the strobe latches the buttons `s`, the next eight reads return the
/// buttons A, B, Select, Start, Up, Down, Left, Right (bit `k` of `s` on
/// read `k`); every read after that returns 1.
pub proof fn lemma_controller_reads(s: u8, k: nat)
    ensures
        pad_after(s, k) & 0x01 == (if k < 8 { (s >> (k as u8)) & 0x01 } else { 1u8 }),
    decreases k,
{
    if k <= 8 {
        lemma_pad_shape(s, k);
        if k < 8 {
            lemma_pad_step(s, k as u8);
        } else {
            lemma_pad_step(s, 0);
        }
    } else {
        lemma_controller_full(s, k);
        lemma_pad_step(s, 0);
    }
}

proof fn lemma_controller_full(s: u8, k: nat)
    requires
        k >= 8,
    ensures
        pad_after(s, k) == 0xFF,
    decreases k,
{
    if k == 8 {
        lemma_pad_shape(s, 8);
        lemma_pad_step(s, 0);
    } else {
        lemma_controller_full(s, (k - 1) as nat);
        lemma_pad_step(s, 0);
    }
}

/// The page and the length of a sprite DMA started by writing `value` to
/// $4014 on CPU cycle `total_cpu_cycles`: 513 cycles, one more on an odd
/// cycle.
pub fn dma_start(value: u8, total_cpu_cycles: u64) -> (r: (u16, u16))
    ensures
        r.0 == value as u16 * 256,
        r.1 == 513 + total_cpu_cycles % 2,
{
    proof {
        crate::bits::lemma_byte_fields(value);
    }
    let base = (value as u16) << 8u16;
    assert(base == value as u16 * 256) by (bit_vector)
        requires
            base == (value as u16) << 8u16;
    let cycles = 513 + (total_cpu_cycles % 2);
    (base, cycles as u16)
}

/// One cycle of a sprite DMA with `remaining` cycles left.
#[derive(Clone, Copy, PartialEq, Eq, Structural)]
pub enum DmaStep {
    /// No DMA is running.
    Idle,
    /// An alignment or halt cycle.
    Halt,
    /// Read the byte at the page base plus this offset.
    Read(u16),
    /// Write the byte last read to OAMDATA.
    Write,
}

pub open spec fn dma_step_spec(remaining: u16) -> DmaStep {
    if remaining == 0 {
        DmaStep::Idle
    } else if remaining > 512 {
        DmaStep::Halt
    } else if (512 - remaining) % 2 == 0 {
        DmaStep::Read(((512 - remaining) / 2) as u16)
    } else {
        DmaStep::Write
    }
}

/// What the DMA does on a cycle with `remaining` cycles left.
pub fn dma_step(remaining: u16) -> (r: DmaStep)
    ensures
        r == dma_step_spec(remaining),
        r matches DmaStep::Read(off) ==> off <= 255,
{
    if remaining == 0 {
        return DmaStep::Idle;
    }
    if remaining > 512 {
        return DmaStep::Halt;
    }
    let dma_step = 512 - remaining;
    let sprite_offset = dma_step / 2;
    if dma_step % 2 == 0 {
        DmaStep::Read(sprite_offset)
    } else {
        DmaStep::Write
    }
}

/// The copy window of a DMA reads each of the 256 bytes of the page once,
/// in order, each read followed by its write.
pub proof fn lemma_dma_covers_page(off: u16)
    requires
        off <= 255,
    ensures
        dma_step_spec((512 - 2 * off) as u16) == DmaStep::Read(off),
        dma_step_spec((511 - 2 * off) as u16) == DmaStep::Write,
{
}


/// The CPU bus's own state: console RAM, the controller port, the sprite
/// DMA unit, the cycle count and the last value on the data bus.
pub struct NesBusState {
    pub ram: [u8; 2048],
    pub pad1_state: u8,
    pub pad1_shift_reg: u8,
    pub pad_strobe: bool,
    pub dma_cycles_remaining: u16,
    pub dma_base_address: u16,
    pub dma_temp_buffer: u8,
    pub bus_available: bool,
    pub total_cpu_cycles: u64,
    pub open_bus: u8,
}

/// Who answers a CPU read.
#[derive(Clone, Copy, PartialEq, Eq, Structural)]
pub enum ReadOutcome {
    /// The bus answered itself (RAM, the controller port, open bus).
    Value(u8),
    /// A PPU register answers.
    PpuRegister(u16),
    /// The sound unit's status answers (bit 5 floats).
    ApuStatus,
    /// The cartridge answers.
    Cartridge,
}

/// A read at `addr` as far as the bus answers it itself: the outcome and
/// the bus afterwards.
pub open spec fn read_effect(s: NesBusState, addr: u16) -> (ReadOutcome, NesBusState) {
    match read_target_spec(addr) {
        ReadTarget::Ram(i) => (ReadOutcome::Value(s.ram@[i as int]), NesBusState { open_bus: s.ram@[i as int], ..s }),
        ReadTarget::Controller1 => {
            let v = (s.pad1_shift_reg & 0x01) | (s.open_bus & 0xE0);
            let next = if s.pad_strobe { s.pad1_shift_reg } else { pad_shifted(s.pad1_shift_reg) };
            (ReadOutcome::Value(v), NesBusState { pad1_shift_reg: next, open_bus: v, ..s })
        },
        ReadTarget::OpenBus => (ReadOutcome::Value(s.open_bus), s),
        ReadTarget::PpuRegister(reg) => (ReadOutcome::PpuRegister(reg), s),
        ReadTarget::ApuStatus => (ReadOutcome::ApuStatus, s),
        ReadTarget::Cartridge => (ReadOutcome::Cartridge, s),
    }
}

/// `t` is the bus after a CPU write of `value` at `addr` (what devices do
/// with it is theirs): RAM takes the byte, $4014 starts a sprite DMA,
/// $4016 drives the strobe, and the value stays on the data bus.
pub open spec fn write_effect(s: NesBusState, t: NesBusState, addr: u16, value: u8) -> bool {
    &&& t.open_bus == value
    &&& match write_target_spec(addr) {
        WriteTarget::Ram(i) => t.ram@ == s.ram@.update(i as int, value)
            && t == (NesBusState { ram: t.ram, open_bus: value, ..s }),
        WriteTarget::OamDma => t == (NesBusState {
            dma_base_address: (value as u16 * 256) as u16,
            dma_cycles_remaining: (513 + s.total_cpu_cycles % 2) as u16,
            bus_available: false,
            open_bus: value,
            ..s
        }),
        WriteTarget::Controller => {
            let strobe = value & 0x01 == 0x01;
            t == (NesBusState {
                pad_strobe: strobe,
                pad1_shift_reg: if strobe { s.pad1_state } else { s.pad1_shift_reg },
                open_bus: value,
                ..s
            })
        },
        _ => t == (NesBusState { open_bus: value, ..s }),
    }
}

/// `t` is the bus after one CPU cycle of a sprite DMA that does `step`.
pub open spec fn dma_effect(s: NesBusState, t: NesBusState, step: DmaStep) -> bool {
    if step == DmaStep::Idle {
        t == s
    } else if step == DmaStep::Halt {
        t == (NesBusState { dma_cycles_remaining: (s.dma_cycles_remaining - 1) as u16, ..s })
    } else {
        let left = (s.dma_cycles_remaining - 1) as u16;
        t == (NesBusState {
            dma_cycles_remaining: left,
            bus_available: if left == 0 { true } else { s.bus_available },
            ..s
        })
    }
}

impl NesBusState {
    /// A powered-up bus: RAM cleared, no DMA, the bus free.
    pub fn new() -> (r: Self)
        ensures
            forall|i: int| 0 <= i < 2048 ==> r.ram@[i] == 0,
            r.pad1_state == 0 && r.pad1_shift_reg == 0 && !r.pad_strobe,
            r.dma_cycles_remaining == 0 && r.dma_base_address == 0 && r.dma_temp_buffer == 0,
            r.bus_available && r.total_cpu_cycles == 0 && r.open_bus == 0,
    {
        NesBusState {
            ram: [0; 2048],
            pad1_state: 0,
            pad1_shift_reg: 0,
            pad_strobe: false,
            dma_cycles_remaining: 0,
            dma_base_address: 0,
            dma_temp_buffer: 0,
            bus_available: true,
            total_cpu_cycles: 0,
            open_bus: 0,
        }
    }

    /// Starts a CPU read: RAM, the controller port and open bus answer
    /// here; for a device the outcome says which must answer.
    pub fn begin_read(&mut self, addr: u16) -> (r: ReadOutcome)
        ensures
            (r, *final(self)) == read_effect(*old(self), addr),
    {
        match read_target(addr) {
            ReadTarget::Ram(i) => {
                let v = self.ram[i];
                self.open_bus = v;
                ReadOutcome::Value(v)
            },
            ReadTarget::Controller1 => {
                let (v, next) = pad_read(self.pad1_shift_reg, self.pad_strobe, self.open_bus);
                self.pad1_shift_reg = next;
                self.open_bus = v;
                ReadOutcome::Value(v)
            },
            ReadTarget::OpenBus => ReadOutcome::Value(self.open_bus),
            ReadTarget::PpuRegister(reg) => ReadOutcome::PpuRegister(reg),
            ReadTarget::ApuStatus => ReadOutcome::ApuStatus,
            ReadTarget::Cartridge => ReadOutcome::Cartridge,
        }
    }

    /// Finishes a read that a device answered with `value`; for the sound
    /// unit's status pass `apu_status_read` of it.
    pub fn finish_read(&mut self, value: u8) -> (r: u8)
        ensures
            r == value,
            *final(self) == (NesBusState { open_bus: value, ..*old(self) }),
    {
        self.open_bus = value;
        value
    }

    /// A CPU write as far as the bus takes it itself; returns who else
    /// receives it.
    pub fn write(&mut self, addr: u16, value: u8) -> (r: WriteTarget)
        ensures
            r == write_target_spec(addr),
            write_effect(*old(self), *final(self), addr, value),
    {
        let target = write_target(addr);
        match target {
            WriteTarget::Ram(i) => {
                self.ram[i] = value;
            },
            WriteTarget::OamDma => {
                let (base, cycles) = dma_start(value, self.total_cpu_cycles);
                self.dma_base_address = base;
                self.dma_cycles_remaining = cycles;
                self.bus_available = false;
            },
            WriteTarget::Controller => {
                let (strobe, next) = pad_write(value, self.pad1_state, self.pad1_shift_reg);
                self.pad_strobe = strobe;
                self.pad1_shift_reg = next;
            },
            _ => {},
        }
        self.open_bus = value;
        target
    }

    /// One CPU cycle of the sprite DMA: what it does, with the cycle count
    /// taken down and the bus released after the last one.
    pub fn dma_cycle(&mut self) -> (r: DmaStep)
        ensures
            r == dma_step_spec(old(self).dma_cycles_remaining),
            dma_effect(*old(self), *final(self), r),
    {
        let step = dma_step(self.dma_cycles_remaining);
        match step {
            DmaStep::Idle => {},
            DmaStep::Halt => {
                self.dma_cycles_remaining = self.dma_cycles_remaining - 1;
            },
            _ => {
                self.dma_cycles_remaining = self.dma_cycles_remaining - 1;
                if self.dma_cycles_remaining == 0 {
                    self.bus_available = true;
                }
            },
        }
        step
    }
}

/// A RAM write is read back at the same address or at any of its mirrors.
pub proof fn lemma_ram_write_read(s: NesBusState, t: NesBusState, waddr: u16, raddr: u16, value: u8)
    requires
        waddr <= 0x1FFF,
        raddr <= 0x1FFF,
        waddr % 0x0800 == raddr % 0x0800,
        write_effect(s, t, waddr, value),
    ensures
        read_effect(t, raddr).0 == ReadOutcome::Value(value),
{
}

/// A RAM write leaves the other RAM bytes as they were.
pub proof fn lemma_ram_write_others(s: NesBusState, t: NesBusState, waddr: u16, raddr: u16, value: u8)
    requires
        waddr <= 0x1FFF,
        raddr <= 0x1FFF,
        waddr % 0x0800 != raddr % 0x0800,
        write_effect(s, t, waddr, value),
    ensures
        read_effect(t, raddr).0 == read_effect(s, raddr).0,
{
}

} // verus!
