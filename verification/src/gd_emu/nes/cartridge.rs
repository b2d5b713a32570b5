use vstd::prelude::*;
use crate::gd_emu::nes::mappers::Mapper;

verus! {

/// A loaded cartridge: its ROM images and the board that maps them.
pub struct Cartridge {
    pub prg_rom: Vec<u8>,
    pub chr_rom: Vec<u8>,
    pub mapper: Box<dyn Mapper>,
    pub mapper_id: u16,
    pub base_filename: String,
    pub has_battery: bool,
}

impl Cartridge {
    pub fn new(prg_rom: Vec<u8>, chr_rom: Vec<u8>, mapper: Box<dyn Mapper>, base_name: String) -> (r: Cartridge)
        ensures
            r.prg_rom@ == prg_rom@,
            r.chr_rom@ == chr_rom@,
            r.mapper_id == 0,
            r.base_filename@ == base_name@,
            !r.has_battery,
    {
        Self {
            prg_rom,
            chr_rom,
            mapper,
            mapper_id: 0,
            base_filename: base_name,
            has_battery: false,
        }
    }

    pub fn mapper_number(&self) -> (r: u16)
        ensures
            r == self.mapper_id,
    {
        self.mapper_id
    }

    /// The board. (Verus takes no contract on a function that returns
    /// `&dyn Mapper`; `get_sram`, `load_sram` and the dirty flag below state
    /// what the board's battery RAM does.)
    pub fn mapper(&self) -> &dyn Mapper {
        &*self.mapper
    }

    /// The saveable RAM of the board, if it has any.
    pub fn get_sram(&self) -> (r: Option<&[u8]>)
        ensures
            r is Some == self.mapper.sram() is Some,
            r matches Some(bytes) ==> bytes@ == self.mapper.sram().unwrap(),
    {
        self.mapper.get_sram()
    }

    /// Hands a battery image to the board, which takes it where it has
    /// exactly the size of its RAM; nothing else of the cartridge changes.
    pub fn load_sram(&mut self, data: &[u8])
        requires
            old(self).mapper.inv(),
        ensures
            final(self).mapper.inv(),
            final(self).mapper.sram() == crate::gd_emu::nes::mappers::sram_after_load(old(self).mapper.sram(), data@),
            final(self).prg_rom == old(self).prg_rom,
            final(self).chr_rom == old(self).chr_rom,
            final(self).mapper_id == old(self).mapper_id,
            final(self).base_filename == old(self).base_filename,
            final(self).has_battery == old(self).has_battery,
    {
        self.mapper.load_sram(data);
    }

    pub fn is_sram_dirty(&self) -> (r: bool)
        ensures
            r == self.mapper.sram_changed(),
    {
        self.mapper.is_sram_dirty()
    }

    pub fn clear_sram_dirty(&mut self)
        requires
            old(self).mapper.inv(),
        ensures
            final(self).mapper.inv(),
            final(self).mapper.sram() == old(self).mapper.sram(),
            !final(self).mapper.sram_changed(),
    {
        self.mapper.clear_sram_dirty();
    }
}

} // verus!
