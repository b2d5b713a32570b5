use vstd::prelude::*;
use crate::mimesys::common::timed::Timed;
use crate::mimesys::gameboy::gb_bus::Bus;

verus! {

/// The five interrupt sources, in IF/IE bit order.
#[derive(Clone, Copy, PartialEq, Eq, Structural)]
pub enum Irq {
    VBlank,
    LcdStat,
    Timer,
    Serial,
    Joypad,
}

impl Irq {
    /// The IF/IE bit number of the source.
    pub open spec fn bit_index(self) -> u8 {
        match self {
            Irq::VBlank => 0,
            Irq::LcdStat => 1,
            Irq::Timer => 2,
            Irq::Serial => 3,
            Irq::Joypad => 4,
        }
    }

    pub fn index(self) -> (r: u8)
        ensures
            r == self.bit_index(),
    {
        match self {
            Irq::VBlank => 0,
            Irq::LcdStat => 1,
            Irq::Timer => 2,
            Irq::Serial => 3,
            Irq::Joypad => 4,
        }
    }
}

/// A flat 64 KiB memory with interrupt registers, for driving the CPU in
/// tests. Reads and writes go straight to `ram`, except the serial port
/// registers 0xFF01/0xFF02.
pub struct MockBus {
    pub ram: [u8; 65536],
    pub ie: u8,
    pub iflags: u8,
    serial_data_buffer: u8,
    serial_control: u8,
    master: u64,
    last_master: u64,
}

impl MockBus {
    /// The byte at `addr` of the flat memory.
    pub closed spec fn byte_at(self, addr: int) -> u8 {
        self.ram[addr]
    }

    pub closed spec fn ie_value(self) -> u8 {
        self.ie
    }

    pub closed spec fn if_value(self) -> u8 {
        self.iflags
    }

    /// The byte last written to the serial data register (0xFF01).
    pub closed spec fn serial_data(self) -> u8 {
        self.serial_data_buffer
    }

    /// The byte last written to the serial control register (0xFF02).
    pub closed spec fn serial_control_byte(self) -> u8 {
        self.serial_control
    }

    /// The master cycle that the idle cycles have brought the bus to.
    pub closed spec fn master_cycle(self) -> u64 {
        self.master
    }

    pub fn new() -> (r: Self)
        ensures
            forall|i: int| 0 <= i < 65536 ==> #[trigger] r.byte_at(i) == 0,
            r.ie_value() == 0,
            r.if_value() == 0,
            r.master_cycle() == 0,
    {
        Self {
            ram: [0; 65536],
            master: 0,
            last_master: 0,
            ie: 0,
            iflags: 0,
            serial_data_buffer: 0,
            serial_control: 0,
        }
    }

    /// Sets the IF bit of `irq`.
    pub fn request_irq(&mut self, irq: Irq)
        ensures
            final(self).if_value() == old(self).if_value() | (1u8 << irq.bit_index()),
            final(self).ie_value() == old(self).ie_value(),
            forall|i: int| #[trigger] final(self).byte_at(i) == old(self).byte_at(i),
    {
        let bit = irq.index();
        self.iflags = self.iflags | (1u8 << bit);
    }

    /// Master cycles per M-cycle.
    pub fn cycle_len(&self) -> (r: u64)
        ensures
            r == 2,
    {
        2
    }
}

impl Timed for MockBus {
    fn run_until(&mut self, target_master: u64) {
        self.last_master = target_master;
    }

    fn sync_point(&self) -> u64 {
        self.last_master
    }
}

impl Bus for MockBus {
    closed spec fn holds_memory(&self, addr: u16) -> bool {
        addr != 0xFF01 && addr != 0xFF02
    }

    closed spec fn memory_byte(&self, addr: u16) -> u8 {
        self.ram[addr as int]
    }

    closed spec fn pending_irqs(&self) -> u8 {
        self.ie & self.iflags & 0x1F
    }

    fn irq_pending(&self) -> u8 {
        self.ie & self.iflags & 0x1F
    }

    fn ack_irq(&mut self, which: u8) {
    }

    fn read(&mut self, addr: u16) -> u8 {
        self.ram[addr as usize]
    }

    fn peek(&mut self, addr: u16) -> u8 {
        self.ram[addr as usize]
    }

    fn write(&mut self, addr: u16, value: u8)
        ensures
            forall|i: int| 0 <= i < 65536 ==> #[trigger] final(self).byte_at(i) == (if i == addr as int && addr != 0xFF01 && addr != 0xFF02 {
                value
            } else {
                old(self).byte_at(i)
            }),
            final(self).serial_data() == (if addr == 0xFF01 { value } else { old(self).serial_data() }),
            final(self).serial_control_byte() == (if addr == 0xFF02 { value } else { old(self).serial_control_byte() }),
            final(self).ie_value() == old(self).ie_value(),
            final(self).if_value() == old(self).if_value(),
            final(self).master_cycle() == old(self).master_cycle(),
    {
        if addr == 0xFF01 {
            self.serial_data_buffer = value;
        } else if addr == 0xFF02 {
            // bit 7 requests a transfer; there is no link partner here
            self.serial_control = value;
        } else {
            self.ram[addr as usize] = value;
            assert(forall|i: int| 0 <= i < 65536 && i != addr as int ==> #[trigger] self.ram[i] == old(self).ram[i]);
        }
    }

    fn idle_cycle(&mut self) {
        self.master = self.master.wrapping_add(self.cycle_len());
        self.run_until(self.master);
    }

    fn reset_div(&mut self) {
    }

    fn perform_speed_switch(&mut self) {
    }
}

} // verus!
