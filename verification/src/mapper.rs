use vstd::prelude::*;
use crate::cartridge::{Cartridge, Mirror};

verus! {

/// The offset a mapper reports when it served the access from its own memory,
/// so that no cartridge ROM or RAM byte is involved.
pub const HANDLED_INTERNALLY: u32 = 0xFFFF_FFFF;

/// Bank counts that every mapper is configured with.
#[derive(Clone, Copy)]
pub struct Mapper {
    /// Number of 16 KiB program banks.
    pub prg_banks: u16,
    /// Number of 8 KiB character banks; zero means character RAM.
    pub chr_banks: u16,
}

impl Mapper {
    /// The configuration with these bank counts.
    pub fn new(prg_banks: u16, chr_banks: u16) -> (m: Self)
        ensures
            m == (Mapper { prg_banks, chr_banks }),
    {
        Mapper { prg_banks, chr_banks }
    }
}

/// Address mapping between the CPU and PPU address spaces and the cartridge's
/// memories, together with the interrupt line some cartridges drive.
///
/// Each mapping is described by a `spec` function; the executable methods report
/// exactly what those functions say.
pub trait RW: Sized {
    /// Where a CPU read of `addr` lands: `None` if the cartridge does not decode the
    /// address, else a byte offset into program memory or `HANDLED_INTERNALLY`.
    spec fn cpu_read_maps(&self, addr: u16) -> Option<u32>;

    /// The byte the mapper itself supplies for a CPU read it handles internally.
    spec fn cpu_read_byte(&self, addr: u16) -> u8;

    /// Where a CPU write of `addr` lands, decided on the state before the write.
    spec fn cpu_write_maps(&self, addr: u16) -> Option<u32>;

    /// The mapper after the CPU wrote `data` to `addr`.
    spec fn after_cpu_write(&self, addr: u16, data: u8) -> Self;

    /// Where a PPU read of `addr` lands in character memory.
    spec fn ppu_read_maps(&self, addr: u16) -> Option<u32>;

    /// Where a PPU write of `addr` lands on a cartridge with `chr_banks` character banks.
    spec fn ppu_write_maps(&self, chr_banks: u16, addr: u16) -> Option<u32>;

    /// The mapper after a reset.
    spec fn after_reset(&self) -> Self;

    /// Whether the interrupt line is raised.
    spec fn irq_raised(&self) -> bool;

    /// The mapper after its interrupt line was acknowledged.
    spec fn after_irq_clear(&self) -> Self;

    /// The mapper after the PPU signalled the end of a rendered scanline.
    spec fn after_scanline(&self) -> Self;

    /// The nametable arrangement the mapper asks for.
    spec fn mirroring(&self) -> Mirror;

    fn cpu_map_read(&self, addr: u16, mapped_addr: &mut u32, data: &mut u8) -> (hit: bool)
        ensures
            hit == self.cpu_read_maps(addr).is_some(),
            *final(mapped_addr) == match self.cpu_read_maps(addr) {
                Some(m) => m,
                None => *old(mapped_addr),
            },
            *final(data) == if self.cpu_read_maps(addr) == Some(HANDLED_INTERNALLY) {
                self.cpu_read_byte(addr)
            } else {
                *old(data)
            },
    ;

    fn cpu_map_write(&mut self, addr: u16, mapped_addr: &mut u32, data: &u8) -> (hit: bool)
        ensures
            hit == old(self).cpu_write_maps(addr).is_some(),
            *final(mapped_addr) == match old(self).cpu_write_maps(addr) {
                Some(m) => m,
                None => *old(mapped_addr),
            },
            *final(self) == old(self).after_cpu_write(addr, *data),
    ;

    fn ppu_map_read(&self, addr: u16, mapped_addr: &mut u32) -> (hit: bool)
        ensures
            hit == self.ppu_read_maps(addr).is_some(),
            *final(mapped_addr) == match self.ppu_read_maps(addr) {
                Some(m) => m,
                None => *old(mapped_addr),
            },
    ;

    fn ppu_map_write(&self, cart: &Cartridge, addr: u16, mapped_addr: &mut u32) -> (hit: bool)
        ensures
            hit == self.ppu_write_maps(cart.chr_banks, addr).is_some(),
            *final(mapped_addr) == match self.ppu_write_maps(cart.chr_banks, addr) {
                Some(m) => m,
                None => *old(mapped_addr),
            },
    ;

    fn reset(&mut self)
        ensures
            *final(self) == old(self).after_reset(),
    ;

    fn irq_state(&self) -> (raised: bool)
        ensures
            raised == self.irq_raised(),
    ;

    fn irq_clear(&mut self)
        ensures
            *final(self) == old(self).after_irq_clear(),
    ;

    fn scanline(&mut self)
        ensures
            *final(self) == old(self).after_scanline(),
    ;

    fn mirror(&self) -> (m: Mirror)
        ensures
            m == self.mirroring(),
    ;
}

} // verus!
