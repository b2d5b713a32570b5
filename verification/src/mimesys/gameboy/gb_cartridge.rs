use vstd::prelude::*;
use crate::mimesys::gameboy::gb_mbc::Mbc;

verus! {

/// A loaded Game Boy cartridge: its ROM, its controller and what its header
/// says.
pub struct GbCartridge {
    pub prg_rom: Vec<u8>,
    pub mbc: Box<dyn Mbc>,
    pub mbc_id: u8,
    pub cart_type_code: u8,
    pub supports_gbc: bool,
    pub backwards_compatible: bool,
    pub base_filename: String,
    pub has_battery: bool,
}

/// A cartridge-type byte decoded: the controller and whether RAM is
/// battery-backed.
pub struct CartType {
    pub mbc_id: u8,
    pub has_battery: bool,
}

impl GbCartridge {
    pub fn new(prg_rom: Vec<u8>, chr_rom: Vec<u8>, mbc: Box<dyn Mbc>, base_name: String) -> (r: GbCartridge)
        ensures
            r.prg_rom@ == prg_rom@,
            r.mbc_id == 0 && r.cart_type_code == 0,
            !r.supports_gbc && !r.backwards_compatible && !r.has_battery,
            r.base_filename@ == base_name@,
    {
        Self {
            prg_rom,
            mbc,
            mbc_id: 0,
            cart_type_code: 0,
            base_filename: base_name,
            backwards_compatible: false,
            supports_gbc: false,
            has_battery: false,
        }
    }

    /// The controller. (Verus takes no contract on a function that returns
    /// `&dyn Mbc`; `get_sram`, `load_sram` and the dirty flag below state what
    /// the controller's battery RAM does.)
    pub fn mapper(&self) -> &dyn Mbc {
        &*self.mbc
    }

    /// The controller's battery RAM, if it has any.
    pub fn get_sram(&self) -> (r: Option<&[u8]>)
        ensures
            r is Some == self.mbc.sram() is Some,
            r matches Some(bytes) ==> bytes@ == self.mbc.sram().unwrap(),
    {
        self.mbc.get_sram()
    }

    /// Hands a battery image to the controller.
    pub fn load_sram(&mut self, data: &[u8])
        requires
            old(self).mbc.inv(),
        ensures
            final(self).mbc.inv(),
            final(self).mbc.sram() == crate::gd_emu::nes::mappers::sram_after_load(old(self).mbc.sram(), data@),
    {
        self.mbc.load_sram(data);
    }

    pub fn is_sram_dirty(&self) -> (r: bool)
        ensures
            r == self.mbc.sram_changed(),
    {
        self.mbc.is_sram_dirty()
    }

    pub fn clear_sram_dirty(&mut self)
        requires
            old(self).mbc.inv(),
        ensures
            final(self).mbc.inv(),
            final(self).mbc.sram() == old(self).mbc.sram(),
            !final(self).mbc.sram_changed(),
    {
        self.mbc.clear_sram_dirty();
    }
}

} // verus!
