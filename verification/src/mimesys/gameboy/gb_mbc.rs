use vstd::prelude::*;
use crate::mimesys::gameboy::gb_mbc0::Mbc0;
use crate::mimesys::gameboy::gb_mbc1::Mbc1;
use crate::mimesys::gameboy::gb_mbc2::Mbc2;
use crate::mimesys::gameboy::gb_mbc3::Mbc3;
use crate::mimesys::gameboy::gb_mbc5::Mbc5;

verus! {

/// A Game Boy cartridge controller: what the CPU reads and writes in the
/// ROM ($0000-$7FFF) and external RAM ($A000-$BFFF) areas. `inv` is the
/// controller's well-formedness, which every operation keeps.
pub trait Mbc {
    spec fn inv(&self) -> bool;

    fn read(&self, addr: u16) -> u8
        requires
            self.inv(),
    ;

    fn write(&mut self, addr: u16, val: u8)
        requires
            old(self).inv(),
        ensures
            final(self).inv(),
    ;

    /// The battery-backed RAM that a save keeps, if the controller has any.
    spec fn sram(&self) -> Option<Seq<u8>>;

    /// Whether the battery-backed RAM changed since the last save.
    spec fn sram_changed(&self) -> bool;

    fn get_sram(&self) -> (r: Option<&[u8]>)
        ensures
            r is Some == self.sram() is Some,
            r matches Some(bytes) ==> bytes@ == self.sram().unwrap(),
    ;

    /// Takes a battery image of exactly the size of the controller's RAM;
    /// any other image is ignored.
    fn load_sram(&mut self, data: &[u8])
        requires
            old(self).inv(),
        ensures
            final(self).inv(),
            final(self).sram() == crate::gd_emu::nes::mappers::sram_after_load(old(self).sram(), data@),
    ;

    fn is_sram_dirty(&self) -> (r: bool)
        ensures
            r == self.sram_changed(),
    ;

    fn clear_sram_dirty(&mut self)
        requires
            old(self).inv(),
        ensures
            final(self).inv(),
            final(self).sram() == old(self).sram(),
            !final(self).sram_changed(),
    ;
}

/// `usize::next_power_of_two`: the smallest power of two at or above `n`.
#[verifier::external_body]
pub(crate) fn next_power_of_two(n: usize) -> (r: usize)
    requires
        n <= usize::MAX / 2 + 1,
    ensures
        r >= n,
        r >= 1,
        vstd::arithmetic::power2::is_pow2(r as int),
        n >= 1 ==> r < 2 * n,
        n == 0 ==> r == 1,
{
    n.next_power_of_two()
}

/// The number of 16 KiB ROM banks, at least one.
pub open spec fn bank_count(rom_len: int) -> int {
    if rom_len / 16384 >= 1 { rom_len / 16384 } else { 1 }
}

/// The controller numbers with an implementation here.
pub open spec fn supported_mbc(mbc_id: u8) -> bool {
    mbc_id == 0 || mbc_id == 1 || mbc_id == 2 || mbc_id == 3 || mbc_id == 5
}

/// `std::format!`: the message for a controller number without an
/// implementation, the number written in decimal.
#[verifier::external_body]
fn unsupported_mbc_message(mbc_id: u8) -> (r: String)
    ensures
        r@ == "Mapper "@ + crate::gd_emu::nes::mappers::decimal(mbc_id as nat) + " not implemented yet"@,
{
    format!("Mapper {} not implemented yet", mbc_id)
}

/// Builds the controller for a cartridge-type MBC number.
pub fn make_mbc(mbc_id: u8, prg_rom: Vec<u8>, chr_ram: Vec<u8>) -> (r: Result<Box<dyn Mbc>, String>)
    requires
        mbc_id == 2 ==> (prg_rom.len() / 16384) as u8 >= 1,
    ensures
        r is Ok <==> supported_mbc(mbc_id),
        r matches Err(e) ==> e@ == "Mapper "@ + crate::gd_emu::nes::mappers::decimal(mbc_id as nat) + " not implemented yet"@,
{
    if mbc_id == 0 {
        Ok(Box::new(Mbc0::new(prg_rom, chr_ram)))
    } else if mbc_id == 1 {
        Ok(Box::new(Mbc1::new(prg_rom, chr_ram)))
    } else if mbc_id == 2 {
        Ok(Box::new(Mbc2::new(prg_rom, chr_ram)))
    } else if mbc_id == 3 {
        Ok(Box::new(Mbc3::new(prg_rom, chr_ram)))
    } else if mbc_id == 5 {
        Ok(Box::new(Mbc5::new(prg_rom, chr_ram)))
    } else {
        Err(unsupported_mbc_message(mbc_id))
    }
}

} // verus!
