use vstd::prelude::*;

verus! {

/// Bus `t` keeps the memory of bus `s`: the same addresses hold memory, with
/// the same bytes.
pub open spec fn memory_kept<B: AddressBus + ?Sized>(s: &B, t: &B) -> bool {
    forall|a: u16|
        #![trigger s.holds_memory(a)]
        #![trigger t.holds_memory(a)]
        #![trigger t.memory_byte(a)]
        s.holds_memory(a) == t.holds_memory(a) && (s.holds_memory(a) ==> s.memory_byte(a) == t.memory_byte(a))
}

/// Bus `t` is bus `s` after a read of `addr` that gave `v`: where `addr`
/// holds memory, `v` is its byte and the memory is kept.
pub open spec fn read_at<B: AddressBus + ?Sized>(s: &B, t: &B, addr: u16, v: u8) -> bool {
    s.holds_memory(addr) ==> v == s.memory_byte(addr) && memory_kept(s, t)
}

/// Bus `t` is bus `s` after a read of `addr` whose byte was dropped: where
/// `addr` holds memory, the memory is kept.
pub open spec fn dummy_read_at<B: AddressBus + ?Sized>(s: &B, t: &B, addr: u16) -> bool {
    s.holds_memory(addr) ==> memory_kept(s, t)
}

/// Bus `t` is bus `s` after `v` was written at `addr`: where `addr` holds
/// memory, it now holds `v` and the rest of the memory is kept.
pub open spec fn written_at<B: AddressBus + ?Sized>(s: &B, t: &B, addr: u16, v: u8) -> bool {
    s.holds_memory(addr) ==> forall|a: u16|
        #![trigger s.holds_memory(a)]
        #![trigger t.holds_memory(a)]
        #![trigger t.memory_byte(a)]
        s.holds_memory(a) == t.holds_memory(a)
            && (s.holds_memory(a) ==> t.memory_byte(a) == (if a == addr { v } else { s.memory_byte(a) }))
}

/// The CPU side of a memory bus. Implementors decide what a read returns and
/// what a write does (RAM, memory-mapped registers, open bus). The addresses
/// at which a bus behaves as plain memory (`holds_memory`) are the ones the
/// contracts speak of: a read there gives the byte last written there and
/// changes no memory, and a write there changes that byte alone. A bus with
/// no such address promises nothing.
pub trait AddressBus {
    /// Whether `addr` behaves as plain memory on this bus.
    spec fn holds_memory(&self, addr: u16) -> bool;

    /// The byte that memory address `addr` holds.
    spec fn memory_byte(&self, addr: u16) -> u8;

    fn read_byte(&mut self, addr: u16) -> (r: u8)
        ensures
            old(self).holds_memory(addr) ==> r == old(self).memory_byte(addr),
            old(self).holds_memory(addr) ==> forall|a: u16|
                #![trigger old(self).holds_memory(a)]
                #![trigger final(self).holds_memory(a)]
                #![trigger final(self).memory_byte(a)]
                old(self).holds_memory(a) == final(self).holds_memory(a)
                    && (old(self).holds_memory(a) ==> old(self).memory_byte(a) == final(self).memory_byte(a)),
    ;

    fn write_byte(&mut self, addr: u16, value: u8)
        ensures
            old(self).holds_memory(addr) ==> forall|a: u16|
                #![trigger old(self).holds_memory(a)]
                #![trigger final(self).holds_memory(a)]
                #![trigger final(self).memory_byte(a)]
                old(self).holds_memory(a) == final(self).holds_memory(a)
                    && (old(self).holds_memory(a) ==> final(self).memory_byte(a)
                        == (if a == addr { value } else { old(self).memory_byte(a) })),
    ;

    fn total_cycles(&self) -> u64 {
        0
    }

    /// Little-endian word read: the low byte at `addr`, the high byte at the
    /// address after it (wrapping past 0xFFFF).
    fn read_word(&mut self, addr: u16) -> (r: u16)
        ensures
            (old(self).holds_memory(addr) && old(self).holds_memory(addr.wrapping_add(1))) ==> {
                &&& r == old(self).memory_byte(addr.wrapping_add(1)) * 256 + old(self).memory_byte(addr)
                &&& forall|a: u16|
                    #![trigger old(self).holds_memory(a)]
                    #![trigger final(self).holds_memory(a)]
                    #![trigger final(self).memory_byte(a)]
                    old(self).holds_memory(a) == final(self).holds_memory(a)
                        && (old(self).holds_memory(a) ==> old(self).memory_byte(a) == final(self).memory_byte(a))
            },
    {
        let lo = self.read_byte(addr) as u16;
        let hi = self.read_byte(addr.wrapping_add(1)) as u16;
        proof {
            crate::bits::lemma_pair(hi as u8, lo as u8);
        }
        (hi << 8) | lo
    }

    /// Samples the NMI line; the memory is kept.
    fn is_nmi_line_asserted(&mut self) -> (r: bool)
        ensures
            forall|a: u16|
                #![trigger old(self).holds_memory(a)]
                #![trigger final(self).holds_memory(a)]
                #![trigger final(self).memory_byte(a)]
                old(self).holds_memory(a) == final(self).holds_memory(a)
                    && (old(self).holds_memory(a) ==> old(self).memory_byte(a) == final(self).memory_byte(a)),
    ;

    /// Samples the IRQ line; the memory is kept.
    fn is_irq_line_asserted(&mut self) -> (r: bool)
        ensures
            forall|a: u16|
                #![trigger old(self).holds_memory(a)]
                #![trigger final(self).holds_memory(a)]
                #![trigger final(self).memory_byte(a)]
                old(self).holds_memory(a) == final(self).holds_memory(a)
                    && (old(self).holds_memory(a) ==> old(self).memory_byte(a) == final(self).memory_byte(a)),
    ;

    fn is_nmi_enabled(&mut self) -> bool;

    /// Lets the rest of the system run `cycles` CPU cycles; the memory is
    /// kept.
    fn step_cycles(&mut self, cycles: u64)
        ensures
            forall|a: u16|
                #![trigger old(self).holds_memory(a)]
                #![trigger final(self).holds_memory(a)]
                #![trigger final(self).memory_byte(a)]
                old(self).holds_memory(a) == final(self).holds_memory(a)
                    && (old(self).holds_memory(a) ==> old(self).memory_byte(a) == final(self).memory_byte(a)),
    ;

    fn begin_cpu_cycle(&mut self);
}

/// Each kind of access, stated from bus `b1`, holds from a bus `b0` with the
/// same memory.
pub proof fn lemma_accesses_from_kept<B: AddressBus + ?Sized>(b0: &B, b1: &B, b2: &B)
    requires
        memory_kept(b0, b1),
    ensures
        memory_kept(b1, b2) ==> memory_kept(b0, b2),
        forall|a: u16, v: u8| #[trigger] read_at(b1, b2, a, v) ==> read_at(b0, b2, a, v),
        forall|a: u16, v: u8| #[trigger] written_at(b1, b2, a, v) ==> written_at(b0, b2, a, v),
        forall|a: u16| #[trigger] dummy_read_at(b1, b2, a) ==> dummy_read_at(b0, b2, a),
{
}

} // verus!
