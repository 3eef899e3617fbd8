use vstd::prelude::*;
use crate::cartridge::{Cartridge, Mirror};
use crate::mapper::{Mapper, RW};

verus! {

/// The plainest cartridge board: one or two fixed program banks, one fixed
/// character bank, no interrupts.
#[derive(Clone, Copy)]
pub struct Mapper000 {
    pub mapper: Mapper,
}

impl Mapper000 {
    /// The mapper of a cartridge with these bank counts.
    pub fn new(prg_banks: u16, chr_banks: u16) -> (m: Self)
        ensures
            m == (Mapper000 { mapper: Mapper { prg_banks, chr_banks } }),
    {
        let mut mapper = Mapper000 { mapper: Mapper::new(prg_banks, chr_banks) };
        mapper.reset();
        mapper
    }

    /// The program-memory offset of a CPU address at or above 0x8000: a single bank
    /// is mirrored into both halves of the window.
    pub open spec fn prg_offset(&self, addr: u16) -> u32 {
        (addr & (if self.mapper.prg_banks > 1 {
            0x7FFFu16
        } else {
            0x3FFFu16
        })) as u32
    }
}

impl RW for Mapper000 {
    open spec fn cpu_read_maps(&self, addr: u16) -> Option<u32> {
        if addr >= 0x8000 {
            Some(self.prg_offset(addr))
        } else {
            None
        }
    }

    open spec fn cpu_read_byte(&self, addr: u16) -> u8 {
        0
    }

    open spec fn cpu_write_maps(&self, addr: u16) -> Option<u32> {
        self.cpu_read_maps(addr)
    }

    open spec fn after_cpu_write(&self, addr: u16, data: u8) -> Self {
        *self
    }

    open spec fn ppu_read_maps(&self, addr: u16) -> Option<u32> {
        if addr <= 0x1FFF {
            Some(addr as u32)
        } else {
            None
        }
    }

    open spec fn ppu_write_maps(&self, chr_banks: u16, addr: u16) -> Option<u32> {
        if addr <= 0x1FFF && chr_banks == 0 {
            Some(addr as u32)
        } else {
            None
        }
    }

    open spec fn after_reset(&self) -> Self {
        *self
    }

    open spec fn irq_raised(&self) -> bool {
        false
    }

    open spec fn after_irq_clear(&self) -> Self {
        *self
    }

    open spec fn after_scanline(&self) -> Self {
        *self
    }

    open spec fn mirroring(&self) -> Mirror {
        Mirror::Hardware
    }

    fn cpu_map_read(&self, addr: u16, mapped_addr: &mut u32, _data: &mut u8) -> (hit: bool) {
        if addr >= 0x8000 {
            *mapped_addr = (addr & (if self.mapper.prg_banks > 1 {
                0x7FFF
            } else {
                0x3FFF
            })) as u32;
            true
        } else {
            false
        }
    }

    fn cpu_map_write(&mut self, addr: u16, mapped_addr: &mut u32, _data: &u8) -> (hit: bool) {
        if addr >= 0x8000 {
            *mapped_addr = (addr & (if self.mapper.prg_banks > 1 {
                0x7FFF
            } else {
                0x3FFF
            })) as u32;
            true
        } else {
            false
        }
    }

    fn ppu_map_read(&self, addr: u16, mapped_addr: &mut u32) -> (hit: bool) {
        if addr <= 0x1FFF {
            *mapped_addr = addr as u32;
            true
        } else {
            false
        }
    }

    fn ppu_map_write(&self, cart: &Cartridge, addr: u16, mapped_addr: &mut u32) -> (hit: bool) {
        if addr <= 0x1FFF {
            if cart.chr_banks == 0 {
                *mapped_addr = addr as u32;
                return true;
            }
        }
        false
    }

    fn reset(&mut self) {
    }

    fn irq_state(&self) -> (raised: bool) {
        false
    }

    fn irq_clear(&mut self) {
    }

    fn scanline(&mut self) {
    }

    fn mirror(&self) -> (m: Mirror) {
        Mirror::Hardware
    }
}

} // verus!
