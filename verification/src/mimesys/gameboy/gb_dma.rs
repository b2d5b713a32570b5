use vstd::prelude::*;

verus! {

/// OAM DMA: after a one-M-cycle setup delay, copies 160 bytes from
/// `source_base` to OAM, one per M-cycle.
pub struct DmaState {
    pub active: bool,
    pub source_base: u16,
    pub current_offset: u8,
    pub delay_m_cycles: u8,
    pub next_tick_master: u64,
}

impl Default for DmaState {
    fn default() -> (r: Self)
        ensures
            !r.active && r.source_base == 0 && r.current_offset == 0 && r.delay_m_cycles == 0
                && r.next_tick_master == 0,
    {
        DmaState { active: false, source_base: 0, current_offset: 0, delay_m_cycles: 0, next_tick_master: 0 }
    }
}

impl DmaState {
    /// The source is a page ($XX00), the transfer has not passed its 160th
    /// byte, and it has not begun while the setup delay runs.
    pub open spec fn wf(&self) -> bool {
        &&& self.source_base & 0xFF == 0
        &&& self.current_offset <= 160
        &&& (self.active ==> self.current_offset < 160)
        &&& (self.delay_m_cycles > 0 ==> self.current_offset == 0)
    }

    pub fn new() -> (r: Self)
        ensures
            r.wf(),
            !r.active && r.source_base == 0 && r.current_offset == 0 && r.delay_m_cycles == 0
                && r.next_tick_master == 0,
    {
        let r = Self::default();
        proof {
            crate::bits::lemma_word_fields(0);
        }
        r
    }

    /// A write of `value` to $FF46: the transfer from page `value` starts
    /// after one M-cycle.
    pub fn start(&mut self, value: u8, current_master: u64)
        requires
            current_master + 4 <= u64::MAX,
        ensures
            final(self).wf(),
            *final(self) == (DmaState {
                source_base: (value as u16) << 8u16,
                current_offset: 0,
                delay_m_cycles: 1,
                active: false,
                next_tick_master: (current_master + 4) as u64,
            }),
    {
        self.source_base = (value as u16) << 8u16;
        proof {
            crate::bits::lemma_byte_fields(value);
        }
        self.current_offset = 0;
        self.delay_m_cycles = 1;
        self.active = false;
        self.next_tick_master = current_master + 4;
    }

    /// One M-cycle of DMA: the (source address, OAM offset) of the byte to
    /// copy now, if any.
    pub fn tick_m_cycle(&mut self) -> (r: Option<(u16, usize)>)
        requires
            old(self).wf(),
        ensures
            final(self).wf(),
            old(self).delay_m_cycles > 0 ==> r is None && *final(self) == (DmaState {
                delay_m_cycles: (old(self).delay_m_cycles - 1) as u8,
                active: if old(self).delay_m_cycles == 1 { true } else { old(self).active },
                ..*old(self)
            }),
            old(self).delay_m_cycles == 0 && !old(self).active ==> r is None && *final(self) == *old(self),
            old(self).delay_m_cycles == 0 && old(self).active ==> {
                &&& r == Some(((old(self).source_base + old(self).current_offset) as u16, old(self).current_offset as usize))
                &&& *final(self) == (DmaState {
                    current_offset: (old(self).current_offset + 1) as u8,
                    active: old(self).current_offset + 1 < 160,
                    ..*old(self)
                })
            },
    {
        if self.delay_m_cycles > 0 {
            self.delay_m_cycles = self.delay_m_cycles - 1;
            if self.delay_m_cycles == 0 {
                self.active = true;
            }
            return None;
        }
        if !self.active {
            return None;
        }
        let base = self.source_base;
        proof {
            crate::bits::lemma_word_fields(base);
        }
        let src_addr = self.source_base + (self.current_offset as u16);
        let oam_offset = self.current_offset as usize;
        self.current_offset = self.current_offset + 1;
        if self.current_offset >= 160 {
            self.active = false;
        }
        Some((src_addr, oam_offset))
    }
}

} // verus!
