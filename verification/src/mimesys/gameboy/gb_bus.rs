use vstd::prelude::*;

verus! {

/// Bus `t` keeps the memory of bus `s`: the same addresses hold memory, with
/// the same bytes.
pub open spec fn gb_memory_kept<B: Bus + ?Sized>(s: &B, t: &B) -> bool {
    forall|a: u16|
        #![trigger s.holds_memory(a)]
        #![trigger t.holds_memory(a)]
        #![trigger t.memory_byte(a)]
        s.holds_memory(a) == t.holds_memory(a) && (s.holds_memory(a) ==> s.memory_byte(a) == t.memory_byte(a))
}

/// Bus `t` is bus `s` after a read of `addr` that gave `v`: where `addr`
/// holds memory, `v` is its byte and the memory is kept.
pub open spec fn gb_read_at<B: Bus + ?Sized>(s: &B, t: &B, addr: u16, v: u8) -> bool {
    s.holds_memory(addr) ==> v == s.memory_byte(addr) && gb_memory_kept(s, t)
}

/// Bus `t` is bus `s` after `v` was written at `addr`: where `addr` holds
/// memory, it now holds `v` and the rest of the memory is kept.
pub open spec fn gb_written_at<B: Bus + ?Sized>(s: &B, t: &B, addr: u16, v: u8) -> bool {
    s.holds_memory(addr) ==> forall|a: u16|
        #![trigger s.holds_memory(a)]
        #![trigger t.holds_memory(a)]
        #![trigger t.memory_byte(a)]
        s.holds_memory(a) == t.holds_memory(a)
            && (s.holds_memory(a) ==> t.memory_byte(a) == (if a == addr { v } else { s.memory_byte(a) }))
}

/// The Game Boy CPU's view of the system bus. Every `read`, `write` and
/// `idle_cycle` is one M-cycle of bus time; what they return is up to the
/// implementor. The addresses at which a bus behaves as plain memory
/// (`holds_memory`) are the ones the contracts speak of: a read there gives
/// the byte last written there and changes no memory, and a write there
/// changes that byte alone.
pub trait Bus {
    /// Whether `addr` behaves as plain memory on this bus.
    spec fn holds_memory(&self, addr: u16) -> bool;

    /// The byte that memory address `addr` holds.
    spec fn memory_byte(&self, addr: u16) -> u8;

    fn read(&mut self, addr: u16) -> (r: u8)
        ensures
            old(self).holds_memory(addr) ==> r == old(self).memory_byte(addr),
            old(self).holds_memory(addr) ==> forall|a: u16|
                #![trigger old(self).holds_memory(a)]
                #![trigger final(self).holds_memory(a)]
                #![trigger final(self).memory_byte(a)]
                old(self).holds_memory(a) == final(self).holds_memory(a)
                    && (old(self).holds_memory(a) ==> old(self).memory_byte(a) == final(self).memory_byte(a)),
    ;

    fn write(&mut self, addr: u16, value: u8)
        ensures
            old(self).holds_memory(addr) ==> forall|a: u16|
                #![trigger old(self).holds_memory(a)]
                #![trigger final(self).holds_memory(a)]
                #![trigger final(self).memory_byte(a)]
                old(self).holds_memory(a) == final(self).holds_memory(a)
                    && (old(self).holds_memory(a) ==> final(self).memory_byte(a)
                        == (if a == addr { value } else { old(self).memory_byte(a) })),
    ;

    /// A read without the side effects or the time of a bus cycle.
    fn peek(&mut self, addr: u16) -> u8;

    /// The requested and enabled interrupts (IE & IF & 0x1F) in this state.
    spec fn pending_irqs(&self) -> u8;

    /// IE & IF & 0x1F: the requested and enabled interrupts.
    fn irq_pending(&self) -> (r: u8)
        ensures
            r == self.pending_irqs(),
    ;

    fn reset_div(&mut self) {
    }

    /// Clears bit `which` of IF.
    fn ack_irq(&mut self, which: u8);

    fn idle_cycle(&mut self);

    fn perform_speed_switch(&mut self);

    fn is_speed_switch_prepared(&self) -> bool {
        false
    }

    fn joypad_low_transition(&mut self) -> bool {
        false
    }

    fn get_dma_stall_cycles(&self) -> u64 {
        0
    }

    fn set_dma_stall_cycles(&mut self, value: u64) {
    }
}


/// The work-RAM offset of an address in $C000-$FDFF: the first 4 KiB is
/// bank 0, the second the bank SVBK selects (0 meaning 1).
pub open spec fn wram_offset_spec(addr: u16, svbk: u8) -> int {
    let offset = (addr & 0x1FFF) as int;
    if offset < 0x1000 {
        offset
    } else {
        let raw = (svbk & 0x07) as int;
        let bank = if raw == 0 { 1 } else { raw };
        bank * 0x1000 + offset % 0x1000
    }
}

pub fn get_wram_offset(addr: u16, svbk: u8) -> (r: usize)
    ensures
        r == wram_offset_spec(addr, svbk),
        r < 0x8000,
{
    proof {
        crate::bits::lemma_word_fields(addr);
        crate::bits::lemma_byte_fields(svbk);
        assert((addr & 0x1FFF) & 0x0FFF == (addr & 0x1FFF) % 0x1000) by (bit_vector);
    }
    let offset = (addr & 0x1FFF) as usize;
    if offset < 0x1000 {
        offset
    } else {
        let raw_bank = (svbk & 0x07) as usize;
        let bank = if raw_bank == 0 { 1 } else { raw_bank };
        (bank * 0x1000) + (offset & 0x0FFF)
    }
}

/// The length of an M-cycle in master cycles: 4, or 2 in double speed.
pub fn cycle_len(double_speed: bool) -> (r: u64)
    ensures
        r == (if double_speed { 2u64 } else { 4u64 }),
{
    if double_speed { 2 } else { 4 }
}

/// Where in an M-cycle the bus access happens: half-way.
pub fn access_offset(double_speed: bool) -> (r: u64)
    ensures
        r == (if double_speed { 1u64 } else { 2u64 }),
{
    cycle_len(double_speed) / 2
}

/// A read of KEY1: the speed bit and the prepare bit, the rest set.
pub fn read_key1(key1: u8) -> (r: u8)
    ensures
        r == key1 | 0x7E,
{
    key1 | 0x7E
}

/// A write to KEY1 changes only the prepare bit.
pub fn write_key1(key1: u8, value: u8) -> (r: u8)
    ensures
        r == (key1 & 0x80) | (value & 0x01),
{
    (key1 & 0x80) | (value & 0x01)
}

/// A speed switch: the speed bit flips and the prepare bit clears. Returns
/// the new KEY1 and whether double speed is now on.
pub fn speed_switched(key1: u8) -> (r: (u8, bool))
    ensures
        r.0 == (key1 ^ 0x80) & !0x01u8,
        r.1 == (r.0 & 0x80 != 0),
{
    let k = (key1 ^ 0x80) & !0x01u8;
    (k, (k & 0x80) != 0)
}

/// Each speed switch toggles double speed and leaves the prepare bit clear.
pub proof fn lemma_speed_switch_toggles(key1: u8)
    ensures
        (((key1 ^ 0x80) & !0x01u8) & 0x80 != 0) == (key1 & 0x80 == 0),
        ((key1 ^ 0x80) & !0x01u8) & 0x01 == 0,
{
    assert((((key1 ^ 0x80) & !0x01u8) & 0x80 != 0) == (key1 & 0x80 == 0)) by (bit_vector);
    assert(((key1 ^ 0x80) & !0x01u8) & 0x01 == 0) by (bit_vector);
}

/// The VRAM destination after one byte of an HDMA/GDMA copy: the next
/// address, wrapping inside $8000-$9FFF.
pub open spec fn next_hdma_dst_spec(dst: u16) -> u16 {
    0x8000 | ((((dst & 0x1FFF) + 1) as u16) & 0x1FFF)
}

pub fn next_hdma_dst(dst: u16) -> (r: u16)
    ensures
        r == next_hdma_dst_spec(dst),
        0x8000 <= r <= 0x9FFF,
{
    proof {
        crate::bits::lemma_word_fields(dst);
        lemma_vram_range(dst);
    }
    let new_dst_offset = ((dst & 0x1FFF) + 1) & 0x1FFF;
    0x8000 | new_dst_offset
}

proof fn lemma_vram_range(dst: u16)
    ensures
        0x8000 <= 0x8000 | ((((dst & 0x1FFF) + 1) as u16) & 0x1FFF) <= 0x9FFF,
{
    assert((dst & 0x1FFF) < 0x2000) by (bit_vector);
    let x: u16 = (((dst & 0x1FFF) + 1) as u16) & 0x1FFF;
    assert(0x8000 <= 0x8000 | x <= 0x9FFF) by (bit_vector)
        requires
            x == (((dst & 0x1FFF) + 1) as u16) & 0x1FFF;
}

/// HDMA1-4 writes: the source's high byte, its low byte (16-byte aligned),
/// the destination's high byte (inside VRAM) and its low byte.
pub fn hdma_register_written(src: u16, dst: u16, addr: u16, value: u8) -> (r: (u16, u16))
    ensures
        r == (if addr == 0xFF51 {
            ((src & 0x00FF) | ((value as u16) << 8u16), dst)
        } else if addr == 0xFF52 {
            ((src & 0xFF00) | ((value & 0xF0) as u16), dst)
        } else if addr == 0xFF53 {
            (src, 0x8000 | (((value & 0x1F) as u16) << 8u16) | (dst & 0x00F0))
        } else if addr == 0xFF54 {
            (src, 0x8000 | (dst & 0x1F00) | ((value & 0xF0) as u16))
        } else {
            (src, dst)
        }),
{
    if addr == 0xFF51 {
        ((src & 0x00FF) | ((value as u16) << 8u16), dst)
    } else if addr == 0xFF52 {
        ((src & 0xFF00) | ((value & 0xF0) as u16), dst)
    } else if addr == 0xFF53 {
        let high = ((value & 0x1F) as u16) << 8u16;
        (src, 0x8000 | high | (dst & 0x00F0))
    } else if addr == 0xFF54 {
        let low = (value & 0xF0) as u16;
        (src, 0x8000 | (dst & 0x1F00) | low)
    } else {
        (src, dst)
    }
}

/// A read of HDMA5: $FF when no HDMA runs, else the blocks left minus one.
pub fn hdma_status(active: bool, len: u16) -> (r: u8)
    ensures
        r == (if !active { 0xFFu8 } else { ((if len > 0 { len - 1 } else { 0 }) as u8) & 0x7F }),
{
    if !active {
        0xFF
    } else {
        (len.saturating_sub(1) as u8) & 0x7F
    }
}

/// What a write to HDMA5 asks for.
#[derive(Clone, Copy, PartialEq, Eq, Structural)]
pub enum HdmaCommand {
    /// Stop the running HDMA.
    Stop,
    /// Copy this many 16-byte blocks, one per HBlank.
    StartHdma(u16),
    /// Copy this many 16-byte blocks at once.
    RunGdma(u16),
}

pub fn hdma_control(active: bool, value: u8) -> (r: HdmaCommand)
    ensures
        r == (if active && value & 0x80 == 0 {
            HdmaCommand::Stop
        } else if value & 0x80 != 0 {
            HdmaCommand::StartHdma(((value & 0x7F) + 1) as u16)
        } else {
            HdmaCommand::RunGdma(((value & 0x7F) + 1) as u16)
        }),
        r matches HdmaCommand::StartHdma(b) ==> 1 <= b <= 128,
        r matches HdmaCommand::RunGdma(b) ==> 1 <= b <= 128,
{
    proof {
        crate::bits::lemma_byte_fields(value);
    }
    if active && (value & 0x80) == 0 {
        HdmaCommand::Stop
    } else {
        let blocks = ((value & 0x7F) as u16) + 1;
        if (value & 0x80) != 0 {
            HdmaCommand::StartHdma(blocks)
        } else {
            HdmaCommand::RunGdma(blocks)
        }
    }
}

/// Whether the mapped boot ROM answers a read at `addr`: the first 256
/// bytes, and on the CGB also $0200-$08FF, as far as the image reaches.
pub fn boot_rom_covers(is_cgb: bool, addr: u16, boot_len: usize) -> (r: bool)
    ensures
        r == ((addr <= 0x00FF || (is_cgb && 0x0200 <= addr <= 0x08FF)) && (addr as int) < boot_len),
{
    if is_cgb {
        (addr <= 0x00FF || (0x0200 <= addr && addr <= 0x08FF)) && (addr as usize) < boot_len
    } else {
        addr <= 0x00FF && (addr as usize) < boot_len
    }
}

/// The VRAM offset of an address in $8000-$9FFF: bank 1 only on the CGB
/// with VBK bit 0 set.
pub fn vram_offset(addr: u16, is_cgb: bool, vbk: u8) -> (r: usize)
    ensures
        r == (addr & 0x1FFF) as int + (if is_cgb && vbk & 0x01 != 0 { 0x2000int } else { 0 }),
        r < 0x4000,
{
    proof {
        crate::bits::lemma_word_fields(addr);
        crate::bits::lemma_byte_fields(vbk);
    }
    let bank: usize = if is_cgb { (vbk & 0x01) as usize } else { 0 };
    (addr & 0x1FFF) as usize + (bank * 0x2000)
}

/// A write to SC ($FF02): starting a transfer (bit 7) with no link
/// partner finishes it at once, shifting in $FF and raising the serial
/// interrupt. Returns (SC, SB, raise the interrupt).
pub fn serial_control_written(value: u8, data: u8) -> (r: (u8, u8, bool))
    ensures
        r == (if value & 0x80 != 0 { (value & !0x80u8, 0xFFu8, true) } else { (value, data, false) }),
{
    if (value & 0x80) != 0 {
        (value & !0x80u8, 0xFF, true)
    } else {
        (value, data, false)
    }
}

/// The interrupts both requested and enabled.
pub fn irq_pending_of(ie: u8, iflags: u8) -> (r: u8)
    ensures
        r == ie & iflags & 0x1F,
{
    ie & iflags & 0x1F
}

/// IF with interrupt `which` acknowledged.
pub fn ack_irq_of(iflags: u8, which: u8) -> (r: u8)
    requires
        which < 8,
    ensures
        r == iflags & !(1u8 << which),
{
    iflags & !(1u8 << which)
}


/// The largest work-RAM offset SVBK value `svbk` can select, plus one.
pub open spec fn wram_reach(svbk: u8) -> int {
    let raw = (svbk & 0x07) as int;
    let bank = if raw == 0 { 1 } else { raw };
    (bank + 1) * 0x1000
}

/// The Game Boy bus's own state: work RAM and high RAM, the interrupt
/// registers, the serial port, the CGB speed and VRAM-DMA registers, the
/// boot ROM mapping and the master clock.
pub struct GbBusState {
    pub is_cgb: bool,
    pub ram: Vec<u8>,
    pub hram: [u8; 0x80],
    pub ie: u8,
    pub iflags: u8,
    pub serial_data_buffer: u8,
    pub serial_control: u8,
    pub master: u64,
    pub last_master: u64,
    pub double_speed: bool,
    pub open_bus: u8,
    pub svbk: u8,
    pub key0: u8,
    pub key1: u8,
    pub hdma_src: u16,
    pub hdma_dst: u16,
    pub hdma_active: bool,
    pub hdma_len: u16,
    pub boot_rom: Vec<u8>,
    pub boot_rom_mapped: bool,
    pub dma_stall_m_cycles: u64,
}

/// Who answers a CPU read on the Game Boy bus.
#[derive(Clone, Copy, PartialEq, Eq, Structural)]
pub enum GbReadOutcome {
    /// The bus answered itself.
    Value(u8),
    Cartridge,
    /// Video RAM ($8000-$9FFF), in the bank the PPU's VBK selects.
    Vram,
    /// Object attribute memory, at this index.
    Oam(usize),
    Joypad,
    Timer,
    Apu,
    Ppu,
}

/// Who else takes a CPU write on the Game Boy bus.
#[derive(Clone, Copy, PartialEq, Eq, Structural)]
pub enum GbWriteOutcome {
    /// The bus took it alone.
    Done,
    Cartridge,
    Vram,
    Oam(usize),
    /// P1; the joypad may raise its interrupt in IF.
    Joypad,
    Timer,
    Apu,
    Ppu,
    /// $FF46: the OAM DMA starts from this page.
    OamDma,
    /// $FF55: copy this many 16-byte blocks to VRAM now.
    Gdma(u16),
}

pub open spec fn is_ppu_register(addr: u16) -> bool {
    (0xFF40 <= addr <= 0xFF4B) || addr == 0xFF4F || (0xFF68 <= addr <= 0xFF6B)
}

impl GbBusState {
    pub open spec fn wf(self) -> bool {
        self.ram@.len() >= wram_reach(self.svbk)
    }

    /// A read at `addr` as far as the bus answers it itself.
    pub open spec fn read_outcome(self, addr: u16) -> GbReadOutcome {
        if self.boot_rom_mapped && (addr <= 0x00FF || (self.is_cgb && 0x0200 <= addr <= 0x08FF))
            && (addr as int) < self.boot_rom@.len() {
            GbReadOutcome::Value(self.boot_rom@[addr as int])
        } else if addr <= 0x7FFF || (0xA000 <= addr <= 0xBFFF) {
            GbReadOutcome::Cartridge
        } else if addr <= 0x9FFF {
            GbReadOutcome::Vram
        } else if addr <= 0xFDFF {
            GbReadOutcome::Value(self.ram@[wram_offset_spec(addr, self.svbk)])
        } else if addr <= 0xFE9F {
            GbReadOutcome::Oam((addr & 0xFF) as usize)
        } else if addr <= 0xFEFF {
            GbReadOutcome::Value(0xFF)
        } else if addr <= 0xFF7F {
            self.io_outcome(addr)
        } else if addr <= 0xFFFE {
            GbReadOutcome::Value(self.hram@[(addr & 0x7F) as int])
        } else {
            GbReadOutcome::Value(self.ie)
        }
    }

    /// A read of an I/O register ($FF00-$FF7F).
    pub open spec fn io_outcome(self, addr: u16) -> GbReadOutcome {
        if addr == 0xFF00 {
            GbReadOutcome::Joypad
        } else if addr == 0xFF01 {
            GbReadOutcome::Value(self.serial_data_buffer)
        } else if addr == 0xFF02 {
            GbReadOutcome::Value(self.serial_control | 0x7E)
        } else if 0xFF04 <= addr <= 0xFF07 {
            GbReadOutcome::Timer
        } else if addr == 0xFF0F {
            GbReadOutcome::Value(self.iflags | 0xE0)
        } else if 0xFF10 <= addr <= 0xFF3F {
            GbReadOutcome::Apu
        } else if is_ppu_register(addr) {
            GbReadOutcome::Ppu
        } else if addr == 0xFF4C {
            GbReadOutcome::Value(self.key0)
        } else if addr == 0xFF4D {
            GbReadOutcome::Value(self.key1 | 0x7E)
        } else if addr == 0xFF50 {
            GbReadOutcome::Value(if self.boot_rom_mapped { 0x00 } else { 0x01 })
        } else if addr == 0xFF55 {
            GbReadOutcome::Value(if !self.hdma_active { 0xFFu8 } else { ((if self.hdma_len > 0 { self.hdma_len - 1 } else { 0 }) as u8) & 0x7F })
        } else if addr == 0xFF70 {
            GbReadOutcome::Value(self.svbk | 0xF8)
        } else {
            GbReadOutcome::Value(self.open_bus)
        }
    }

    /// Whether a write keeps the selected work-RAM bank inside the RAM.
    pub open spec fn write_ok(self, addr: u16, value: u8) -> bool {
        addr == 0xFF70 ==> self.ram@.len() >= wram_reach(value & 0x07)
    }

    /// `t` is the bus after a CPU write of `value` at `addr`, with
    /// `outcome` saying who else takes it.
    pub open spec fn write_effect(self, t: Self, addr: u16, value: u8, outcome: GbWriteOutcome) -> bool {
        if addr <= 0x7FFF || (0xA000 <= addr <= 0xBFFF) {
            outcome == GbWriteOutcome::Cartridge && t == self
        } else if addr <= 0x9FFF {
            outcome == GbWriteOutcome::Vram && t == self
        } else if addr <= 0xFDFF {
            &&& outcome == GbWriteOutcome::Done
            &&& t.ram@ == self.ram@.update(wram_offset_spec(addr, self.svbk), value)
            &&& t == (GbBusState { ram: t.ram, ..self })
        } else if addr <= 0xFE9F {
            outcome == GbWriteOutcome::Oam((addr & 0xFF) as usize) && t == self
        } else if addr <= 0xFEFF {
            outcome == GbWriteOutcome::Done && t == self
        } else if addr <= 0xFF7F {
            self.io_written(t, addr, value, outcome)
        } else if addr <= 0xFFFE {
            &&& outcome == GbWriteOutcome::Done
            &&& t.hram@ == self.hram@.update((addr & 0x7F) as int, value)
            &&& t == (GbBusState { hram: t.hram, ..self })
        } else {
            outcome == GbWriteOutcome::Done && t == (GbBusState { ie: value, ..self })
        }
    }

    /// A write of an I/O register ($FF00-$FF7F).
    pub open spec fn io_written(self, t: Self, addr: u16, value: u8, outcome: GbWriteOutcome) -> bool {
        if addr == 0xFF00 {
            outcome == GbWriteOutcome::Joypad && t == self
        } else if addr == 0xFF01 {
            outcome == GbWriteOutcome::Done && t == (GbBusState { serial_data_buffer: value, ..self })
        } else if addr == 0xFF02 {
            outcome == GbWriteOutcome::Done && t == (if value & 0x80 != 0 {
                GbBusState { serial_control: value & !0x80u8, serial_data_buffer: 0xFF, iflags: self.iflags | 0x08, ..self }
            } else {
                GbBusState { serial_control: value, ..self }
            })
        } else if 0xFF04 <= addr <= 0xFF07 {
            outcome == GbWriteOutcome::Timer && t == self
        } else if addr == 0xFF0F {
            outcome == GbWriteOutcome::Done && t == (GbBusState { iflags: value & 0x1F, ..self })
        } else if 0xFF10 <= addr <= 0xFF3F {
            outcome == GbWriteOutcome::Apu && t == self
        } else if addr == 0xFF46 {
            outcome == GbWriteOutcome::OamDma && t == self
        } else if is_ppu_register(addr) {
            outcome == GbWriteOutcome::Ppu && t == self
        } else if addr == 0xFF4C {
            outcome == GbWriteOutcome::Done && t == (if self.boot_rom_mapped { GbBusState { key0: value, ..self } } else { self })
        } else if addr == 0xFF4D {
            outcome == GbWriteOutcome::Done && t == (GbBusState { key1: (self.key1 & 0x80) | (value & 0x01), ..self })
        } else if addr == 0xFF50 {
            outcome == GbWriteOutcome::Done && t == (if value != 0 { GbBusState { boot_rom_mapped: false, ..self } } else { self })
        } else if 0xFF51 <= addr <= 0xFF54 {
            outcome == GbWriteOutcome::Done && (t.hdma_src, t.hdma_dst) == (if addr == 0xFF51 {
                ((self.hdma_src & 0x00FF) | ((value as u16) << 8u16), self.hdma_dst)
            } else if addr == 0xFF52 {
                ((self.hdma_src & 0xFF00) | ((value & 0xF0) as u16), self.hdma_dst)
            } else if addr == 0xFF53 {
                (self.hdma_src, 0x8000 | (((value & 0x1F) as u16) << 8u16) | (self.hdma_dst & 0x00F0))
            } else {
                (self.hdma_src, 0x8000 | (self.hdma_dst & 0x1F00) | ((value & 0xF0) as u16))
            }) && t == (GbBusState { hdma_src: t.hdma_src, hdma_dst: t.hdma_dst, ..self })
        } else if addr == 0xFF55 {
            let blocks = ((value & 0x7F) + 1) as u16;
            if self.hdma_active && value & 0x80 == 0 {
                outcome == GbWriteOutcome::Done && t == (GbBusState { hdma_active: false, ..self })
            } else if value & 0x80 != 0 {
                outcome == GbWriteOutcome::Done && t == (GbBusState { hdma_len: blocks, hdma_active: true, ..self })
            } else {
                outcome == GbWriteOutcome::Gdma(blocks) && t == self
            }
        } else if addr == 0xFF70 {
            outcome == GbWriteOutcome::Done && t == (GbBusState { svbk: value & 0x07, ..self })
        } else {
            outcome == GbWriteOutcome::Done && t == self
        }
    }

    pub fn new(is_cgb: bool, boot_rom: Vec<u8>, boot_rom_mapped: bool) -> (r: Self)
        ensures
            r.wf(),
            r.is_cgb == is_cgb,
            r.ram@.len() == (if is_cgb { 32768int } else { 8192 }),
            r.svbk == 1 && r.ie == 0 && r.iflags == 0 && r.serial_data_buffer == 0xFF && r.serial_control == 0,
            r.master == 0 && !r.double_speed && r.open_bus == 0 && !r.hdma_active,
            r.boot_rom@ == boot_rom@ && r.boot_rom_mapped == boot_rom_mapped,
    {
        let ram_size: usize = if is_cgb { 32768 } else { 8192 };
        proof {
            crate::bits::lemma_byte_fields(1u8);
        }
        let r = GbBusState {
            is_cgb,
            ram: vec![0u8; ram_size],
            hram: [0; 0x80],
            ie: 0,
            iflags: 0,
            serial_data_buffer: 0xFF,
            serial_control: 0,
            master: 0,
            last_master: 0,
            double_speed: false,
            open_bus: 0,
            svbk: 0x01,
            key0: 0,
            key1: 0,
            hdma_src: 0,
            hdma_dst: 0,
            hdma_active: false,
            hdma_len: 0,
            boot_rom,
            boot_rom_mapped,
            dma_stall_m_cycles: 0,
        };
        assert(1u8 & 0x07 == 1) by (bit_vector);
        r
    }

    /// Whether the selected work-RAM bank lies inside the RAM.
    pub fn is_well_formed(&self) -> (r: bool)
        ensures
            r == self.wf(),
    {
        proof {
            crate::bits::lemma_byte_fields(self.svbk);
        }
        let raw = (self.svbk & 0x07) as usize;
        let bank: usize = if raw == 0 { 1 } else { raw };
        self.ram.len() >= (bank + 1) * 0x1000
    }

    /// Whether a write of `value` at `addr` keeps the selected bank inside
    /// the RAM.
    pub fn write_allowed(&self, addr: u16, value: u8) -> (r: bool)
        ensures
            r == self.write_ok(addr, value),
    {
        if addr != 0xFF70 {
            return true;
        }
        proof {
            crate::bits::lemma_byte_fields(value);
            assert((value & 0x07) & 0x07 == value & 0x07) by (bit_vector);
        }
        let raw = (value & 0x07) as usize;
        let bank: usize = if raw == 0 { 1 } else { raw };
        self.ram.len() >= (bank + 1) * 0x1000
    }

    /// Starts a CPU read at `addr`.
    pub fn read(&self, addr: u16) -> (r: GbReadOutcome)
        requires
            self.wf(),
        ensures
            r == self.read_outcome(addr),
    {
        if self.boot_rom_mapped && boot_rom_covers(self.is_cgb, addr, self.boot_rom.len()) {
            return GbReadOutcome::Value(self.boot_rom[addr as usize]);
        }
        if addr <= 0x7FFF || (0xA000 <= addr && addr <= 0xBFFF) {
            GbReadOutcome::Cartridge
        } else if addr <= 0x9FFF {
            GbReadOutcome::Vram
        } else if addr <= 0xFDFF {
            let off = get_wram_offset(addr, self.svbk);
            proof {
                lemma_wram_in_reach(addr, self.svbk);
            }
            GbReadOutcome::Value(self.ram[off])
        } else if addr <= 0xFE9F {
            GbReadOutcome::Oam((addr & 0xFF) as usize)
        } else if addr <= 0xFEFF {
            GbReadOutcome::Value(0xFF)
        } else if addr <= 0xFF7F {
            self.read_io(addr)
        } else if addr <= 0xFFFE {
            proof {
                crate::bits::lemma_word_fields(addr);
                assert(addr & 0x7F <= 0x7F) by (bit_vector);
            }
            GbReadOutcome::Value(self.hram[(addr & 0x7F) as usize])
        } else {
            GbReadOutcome::Value(self.ie)
        }
    }

    fn read_io(&self, addr: u16) -> (r: GbReadOutcome)
        ensures
            r == self.io_outcome(addr),
    {
        if addr == 0xFF00 {
            GbReadOutcome::Joypad
        } else if addr == 0xFF01 {
            GbReadOutcome::Value(self.serial_data_buffer)
        } else if addr == 0xFF02 {
            GbReadOutcome::Value(self.serial_control | 0x7E)
        } else if 0xFF04 <= addr && addr <= 0xFF07 {
            GbReadOutcome::Timer
        } else if addr == 0xFF0F {
            GbReadOutcome::Value(self.iflags | 0xE0)
        } else if 0xFF10 <= addr && addr <= 0xFF3F {
            GbReadOutcome::Apu
        } else if (0xFF40 <= addr && addr <= 0xFF4B) || addr == 0xFF4F || (0xFF68 <= addr && addr <= 0xFF6B) {
            GbReadOutcome::Ppu
        } else if addr == 0xFF4C {
            GbReadOutcome::Value(self.key0)
        } else if addr == 0xFF4D {
            GbReadOutcome::Value(read_key1(self.key1))
        } else if addr == 0xFF50 {
            GbReadOutcome::Value(if self.boot_rom_mapped { 0x00 } else { 0x01 })
        } else if addr == 0xFF55 {
            GbReadOutcome::Value(hdma_status(self.hdma_active, self.hdma_len))
        } else if addr == 0xFF70 {
            GbReadOutcome::Value(self.svbk | 0xF8)
        } else {
            GbReadOutcome::Value(self.open_bus)
        }
    }

    /// A CPU write at `addr`: what the bus keeps itself, and who else takes
    /// it.
    pub fn write(&mut self, addr: u16, value: u8) -> (r: GbWriteOutcome)
        requires
            old(self).wf(),
            old(self).write_ok(addr, value),
        ensures
            final(self).wf(),
            old(self).write_effect(*final(self), addr, value, r),
    {
        if addr <= 0x7FFF || (0xA000 <= addr && addr <= 0xBFFF) {
            GbWriteOutcome::Cartridge
        } else if addr <= 0x9FFF {
            GbWriteOutcome::Vram
        } else if addr <= 0xFDFF {
            let off = get_wram_offset(addr, self.svbk);
            proof {
                lemma_wram_in_reach(addr, self.svbk);
            }
            self.ram.set(off, value);
            GbWriteOutcome::Done
        } else if addr <= 0xFE9F {
            GbWriteOutcome::Oam((addr & 0xFF) as usize)
        } else if addr <= 0xFEFF {
            GbWriteOutcome::Done
        } else if addr <= 0xFF7F {
            self.write_io(addr, value)
        } else if addr <= 0xFFFE {
            proof {
                assert(addr & 0x7F <= 0x7F) by (bit_vector);
            }
            self.hram[(addr & 0x7F) as usize] = value;
            GbWriteOutcome::Done
        } else {
            self.ie = value;
            GbWriteOutcome::Done
        }
    }

    fn write_io(&mut self, addr: u16, value: u8) -> (r: GbWriteOutcome)
        requires
            old(self).wf(),
            old(self).write_ok(addr, value),
        ensures
            final(self).wf(),
            old(self).io_written(*final(self), addr, value, r),
    {
        if addr == 0xFF00 {
            GbWriteOutcome::Joypad
        } else if addr == 0xFF01 {
            self.serial_data_buffer = value;
            GbWriteOutcome::Done
        } else if addr == 0xFF02 {
            let (control, data, irq) = serial_control_written(value, self.serial_data_buffer);
            self.serial_control = control;
            self.serial_data_buffer = data;
            if irq {
                self.iflags = self.iflags | 0x08;
            }
            GbWriteOutcome::Done
        } else if 0xFF04 <= addr && addr <= 0xFF07 {
            GbWriteOutcome::Timer
        } else if addr == 0xFF0F {
            self.iflags = value & 0x1F;
            GbWriteOutcome::Done
        } else if 0xFF10 <= addr && addr <= 0xFF3F {
            GbWriteOutcome::Apu
        } else if addr == 0xFF46 {
            GbWriteOutcome::OamDma
        } else if (0xFF40 <= addr && addr <= 0xFF4B) || addr == 0xFF4F || (0xFF68 <= addr && addr <= 0xFF6B) {
            GbWriteOutcome::Ppu
        } else if addr == 0xFF4C {
            if self.boot_rom_mapped {
                self.key0 = value;
            }
            GbWriteOutcome::Done
        } else if addr == 0xFF4D {
            self.key1 = write_key1(self.key1, value);
            GbWriteOutcome::Done
        } else if addr == 0xFF50 {
            if value != 0 {
                self.boot_rom_mapped = false;
            }
            GbWriteOutcome::Done
        } else if 0xFF51 <= addr && addr <= 0xFF54 {
            let (src, dst) = hdma_register_written(self.hdma_src, self.hdma_dst, addr, value);
            self.hdma_src = src;
            self.hdma_dst = dst;
            GbWriteOutcome::Done
        } else if addr == 0xFF55 {
            match hdma_control(self.hdma_active, value) {
                HdmaCommand::Stop => {
                    self.hdma_active = false;
                    GbWriteOutcome::Done
                },
                HdmaCommand::StartHdma(blocks) => {
                    self.hdma_len = blocks;
                    self.hdma_active = true;
                    GbWriteOutcome::Done
                },
                HdmaCommand::RunGdma(blocks) => GbWriteOutcome::Gdma(blocks),
            }
        } else if addr == 0xFF70 {
            self.svbk = value & 0x07;
            proof {
                assert((value & 0x07) & 0x07 == value & 0x07) by (bit_vector);
            }
            GbWriteOutcome::Done
        } else {
            GbWriteOutcome::Done
        }
    }

    /// After one byte of a VRAM DMA: the source on, the destination on
    /// inside VRAM.
    pub fn advance_hdma(&mut self)
        ensures
            *final(self) == (GbBusState {
                hdma_src: old(self).hdma_src.wrapping_add(1),
                hdma_dst: next_hdma_dst_spec(old(self).hdma_dst),
                ..*old(self)
            }),
    {
        self.hdma_src = self.hdma_src.wrapping_add(1);
        self.hdma_dst = next_hdma_dst(self.hdma_dst);
    }

    /// After a general-purpose VRAM DMA of `blocks` blocks: no DMA runs, and
    /// the CPU stalls 32 M-cycles a block.
    pub fn finish_gdma(&mut self, blocks: u16)
        ensures
            *final(self) == (GbBusState {
                hdma_active: false,
                hdma_len: 0,
                dma_stall_m_cycles: (blocks as u64 * 32) as u64,
                ..*old(self)
            }),
    {
        self.hdma_active = false;
        self.hdma_len = 0;
        self.dma_stall_m_cycles = (blocks as u64) * 32;
    }

    /// After one HBlank block of a VRAM DMA: one block fewer (the DMA ends
    /// with the last) and eight more stalled M-cycles.
    pub fn finish_hdma_block(&mut self)
        requires
            old(self).dma_stall_m_cycles <= u64::MAX - 8,
        ensures
            final(self).hdma_len == (if old(self).hdma_len > 0 { old(self).hdma_len - 1 } else { 0 }),
            final(self).hdma_active == (old(self).hdma_active && final(self).hdma_len != 0),
            final(self).dma_stall_m_cycles == old(self).dma_stall_m_cycles + 8,
            *final(self) == (GbBusState {
                hdma_len: final(self).hdma_len,
                hdma_active: final(self).hdma_active,
                dma_stall_m_cycles: final(self).dma_stall_m_cycles,
                ..*old(self)
            }),
    {
        self.hdma_len = self.hdma_len.saturating_sub(1);
        if self.hdma_len == 0 {
            self.hdma_active = false;
        }
        self.dma_stall_m_cycles = self.dma_stall_m_cycles + 8;
    }

    /// A CGB speed switch.
    pub fn perform_speed_switch(&mut self)
        ensures
            final(self).key1 == (old(self).key1 ^ 0x80) & !0x01u8,
            final(self).double_speed == (final(self).key1 & 0x80 != 0),
            *final(self) == (GbBusState { key1: final(self).key1, double_speed: final(self).double_speed, ..*old(self) }),
    {
        let (k, d) = speed_switched(self.key1);
        self.key1 = k;
        self.double_speed = d;
    }
}

/// Every work-RAM offset the current bank selects lies below its reach.
proof fn lemma_wram_in_reach(addr: u16, svbk: u8)
    ensures
        wram_offset_spec(addr, svbk) < wram_reach(svbk),
{
    crate::bits::lemma_word_fields(addr);
    crate::bits::lemma_byte_fields(svbk);
    assert((addr & 0x1FFF) < 0x2000) by (bit_vector);
}

/// A work-RAM write is read back at the same address and at its echo
/// ($E000-$FDFF mirrors $C000-$DDFF), with the same bank selected.
pub proof fn lemma_wram_write_read(s: GbBusState, t: GbBusState, waddr: u16, raddr: u16, value: u8, o: GbWriteOutcome)
    requires
        s.wf(),
        0xC000 <= waddr <= 0xFDFF,
        0xC000 <= raddr <= 0xFDFF,
        waddr & 0x1FFF == raddr & 0x1FFF,
        !s.boot_rom_mapped,
        s.write_effect(t, waddr, value, o),
    ensures
        t.read_outcome(raddr) == GbReadOutcome::Value(value),
{
    lemma_wram_in_reach(waddr, s.svbk);
}

} // verus!
