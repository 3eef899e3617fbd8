use vstd::prelude::*;
use vstd::slice::{slice_subrange, slice_to_vec};
use crate::mapper::{RW, HANDLED_INTERNALLY};
use crate::mapper_000::Mapper000;
use crate::mapper_004::Mapper004;

verus! {

/// How the two physical nametables appear in the four logical slots.
#[derive(Clone, Copy, PartialEq, Eq, Structural, Debug)]
pub enum Mirror {
    /// The mapper leaves the choice to the solder pads recorded in the header.
    Hardware,
    Vertical,
    Horizontal,
    OneScreenLo,
    OneScreenHi,
}

/// Why a ROM image was turned down.
#[derive(Clone, Copy, PartialEq, Eq, Structural, Debug)]
pub enum LoadError {
    /// The image ends before its header, or before the memories its header announces.
    InvalidImage,
    /// The image asks for a mapper, given here by its number, that is not built in.
    UnsupportedMapper(u8),
}

/// The mapper a cartridge carries.
#[derive(Clone, Copy)]
pub enum MapperKind {
    Nrom(Mapper000),
    Mmc3(Mapper004),
}

impl RW for MapperKind {
    open spec fn cpu_read_maps(&self, addr: u16) -> Option<u32> {
        match self {
            MapperKind::Nrom(m) => m.cpu_read_maps(addr),
            MapperKind::Mmc3(m) => m.cpu_read_maps(addr),
        }
    }

    open spec fn cpu_read_byte(&self, addr: u16) -> u8 {
        match self {
            MapperKind::Nrom(m) => m.cpu_read_byte(addr),
            MapperKind::Mmc3(m) => m.cpu_read_byte(addr),
        }
    }

    open spec fn cpu_write_maps(&self, addr: u16) -> Option<u32> {
        match self {
            MapperKind::Nrom(m) => m.cpu_write_maps(addr),
            MapperKind::Mmc3(m) => m.cpu_write_maps(addr),
        }
    }

    open spec fn after_cpu_write(&self, addr: u16, data: u8) -> Self {
        match self {
            MapperKind::Nrom(m) => MapperKind::Nrom(m.after_cpu_write(addr, data)),
            MapperKind::Mmc3(m) => MapperKind::Mmc3(m.after_cpu_write(addr, data)),
        }
    }

    open spec fn ppu_read_maps(&self, addr: u16) -> Option<u32> {
        match self {
            MapperKind::Nrom(m) => m.ppu_read_maps(addr),
            MapperKind::Mmc3(m) => m.ppu_read_maps(addr),
        }
    }

    open spec fn ppu_write_maps(&self, chr_banks: u16, addr: u16) -> Option<u32> {
        match self {
            MapperKind::Nrom(m) => m.ppu_write_maps(chr_banks, addr),
            MapperKind::Mmc3(m) => m.ppu_write_maps(chr_banks, addr),
        }
    }

    open spec fn after_reset(&self) -> Self {
        match self {
            MapperKind::Nrom(m) => MapperKind::Nrom(m.after_reset()),
            MapperKind::Mmc3(m) => MapperKind::Mmc3(m.after_reset()),
        }
    }

    open spec fn irq_raised(&self) -> bool {
        match self {
            MapperKind::Nrom(m) => m.irq_raised(),
            MapperKind::Mmc3(m) => m.irq_raised(),
        }
    }

    open spec fn after_irq_clear(&self) -> Self {
        match self {
            MapperKind::Nrom(m) => MapperKind::Nrom(m.after_irq_clear()),
            MapperKind::Mmc3(m) => MapperKind::Mmc3(m.after_irq_clear()),
        }
    }

    open spec fn after_scanline(&self) -> Self {
        match self {
            MapperKind::Nrom(m) => MapperKind::Nrom(m.after_scanline()),
            MapperKind::Mmc3(m) => MapperKind::Mmc3(m.after_scanline()),
        }
    }

    open spec fn mirroring(&self) -> Mirror {
        match self {
            MapperKind::Nrom(m) => m.mirroring(),
            MapperKind::Mmc3(m) => m.mirroring(),
        }
    }

    fn cpu_map_read(&self, addr: u16, mapped_addr: &mut u32, data: &mut u8) -> (hit: bool) {
        match self {
            MapperKind::Nrom(m) => m.cpu_map_read(addr, mapped_addr, data),
            MapperKind::Mmc3(m) => m.cpu_map_read(addr, mapped_addr, data),
        }
    }

    fn cpu_map_write(&mut self, addr: u16, mapped_addr: &mut u32, data: &u8) -> (hit: bool) {
        match self {
            MapperKind::Nrom(m) => m.cpu_map_write(addr, mapped_addr, data),
            MapperKind::Mmc3(m) => m.cpu_map_write(addr, mapped_addr, data),
        }
    }

    fn ppu_map_read(&self, addr: u16, mapped_addr: &mut u32) -> (hit: bool) {
        match self {
            MapperKind::Nrom(m) => m.ppu_map_read(addr, mapped_addr),
            MapperKind::Mmc3(m) => m.ppu_map_read(addr, mapped_addr),
        }
    }

    fn ppu_map_write(&self, cart: &Cartridge, addr: u16, mapped_addr: &mut u32) -> (hit: bool) {
        match self {
            MapperKind::Nrom(m) => m.ppu_map_write(cart, addr, mapped_addr),
            MapperKind::Mmc3(m) => m.ppu_map_write(cart, addr, mapped_addr),
        }
    }

    fn reset(&mut self) {
        match self {
            MapperKind::Nrom(m) => m.reset(),
            MapperKind::Mmc3(m) => m.reset(),
        }
    }

    fn irq_state(&self) -> (raised: bool) {
        match self {
            MapperKind::Nrom(m) => m.irq_state(),
            MapperKind::Mmc3(m) => m.irq_state(),
        }
    }

    fn irq_clear(&mut self) {
        match self {
            MapperKind::Nrom(m) => m.irq_clear(),
            MapperKind::Mmc3(m) => m.irq_clear(),
        }
    }

    fn scanline(&mut self) {
        match self {
            MapperKind::Nrom(m) => m.scanline(),
            MapperKind::Mmc3(m) => m.scanline(),
        }
    }

    fn mirror(&self) -> (m: Mirror) {
        match self {
            MapperKind::Nrom(m) => m.mirror(),
            MapperKind::Mmc3(m) => m.mirror(),
        }
    }
}

/// A game cartridge: program memory, character memory and the mapper between them
/// and the console.
pub struct Cartridge {
    pub prg_memory: Vec<u8>,
    pub chr_memory: Vec<u8>,
    pub prg_banks: u16,
    pub chr_banks: u16,
    pub image_valid: bool,
    pub hw_mirror: Mirror,
    pub mapper: MapperKind,
}

/// What a cartridge holds, as mathematical values.
pub struct CartridgeView {
    pub prg: Seq<u8>,
    pub chr: Seq<u8>,
    pub prg_banks: u16,
    pub chr_banks: u16,
    pub image_valid: bool,
    pub hw_mirror: Mirror,
    pub mapper: MapperKind,
}

/// The byte of `memory` at `offset`, or zero where the offset lies past its end.
pub open spec fn byte_at(memory: Seq<u8>, offset: u32) -> u8 {
    if offset < memory.len() {
        memory[offset as int]
    } else {
        0
    }
}

/// `memory` with `data` stored at `offset`; a store past its end is dropped.
pub open spec fn stored_at(memory: Seq<u8>, offset: u32, data: u8) -> Seq<u8> {
    if offset < memory.len() {
        memory.update(offset as int, data)
    } else {
        memory
    }
}

impl CartridgeView {
    /// The byte a CPU read of `addr` yields, or `None` where the cartridge does not
    /// claim the address.
    pub open spec fn cpu_read(self, addr: u16) -> Option<u8> {
        match self.mapper.cpu_read_maps(addr) {
            None => None,
            Some(m) => Some(
                if m == HANDLED_INTERNALLY {
                    self.mapper.cpu_read_byte(addr)
                } else {
                    byte_at(self.prg, m)
                },
            ),
        }
    }

    /// Whether the cartridge claims a CPU write of `addr`.
    pub open spec fn claims_cpu_write(self, addr: u16) -> bool {
        self.mapper.cpu_write_maps(addr).is_some()
    }

    /// The cartridge after the CPU wrote `data` to `addr`.
    pub open spec fn after_cpu_write(self, addr: u16, data: u8) -> Self {
        CartridgeView {
            mapper: self.mapper.after_cpu_write(addr, data),
            prg: match self.mapper.cpu_write_maps(addr) {
                Some(m) if m != HANDLED_INTERNALLY => stored_at(self.prg, m, data),
                _ => self.prg,
            },
            ..self
        }
    }

    /// The byte a PPU read of `addr` yields, or `None` where the cartridge does not
    /// claim the address.
    pub open spec fn ppu_read(self, addr: u16) -> Option<u8> {
        match self.mapper.ppu_read_maps(addr) {
            None => None,
            Some(m) => Some(byte_at(self.chr, m)),
        }
    }

    /// Whether the cartridge claims a PPU write of `addr`.
    pub open spec fn claims_ppu_write(self, addr: u16) -> bool {
        self.mapper.ppu_write_maps(self.chr_banks, addr).is_some()
    }

    /// The cartridge after the PPU wrote `data` to `addr`.
    pub open spec fn after_ppu_write(self, addr: u16, data: u8) -> Self {
        CartridgeView {
            chr: match self.mapper.ppu_write_maps(self.chr_banks, addr) {
                Some(m) => stored_at(self.chr, m, data),
                None => self.chr,
            },
            ..self
        }
    }

    /// The nametable arrangement in force: the mapper's, or the header's where the
    /// mapper leaves it to the hardware.
    pub open spec fn mirror(self) -> Mirror {
        if self.mapper.mirroring() == Mirror::Hardware {
            self.hw_mirror
        } else {
            self.mapper.mirroring()
        }
    }

    /// The cartridge after a reset: only its mapper is reset.
    pub open spec fn after_reset(self) -> Self {
        CartridgeView { mapper: self.mapper.after_reset(), ..self }
    }

    /// The cartridge with its mapper's interrupt acknowledged.
    pub open spec fn after_irq_clear(self) -> Self {
        CartridgeView { mapper: self.mapper.after_irq_clear(), ..self }
    }

    /// The cartridge after the PPU finished a rendered scanline.
    pub open spec fn after_scanline(self) -> Self {
        CartridgeView { mapper: self.mapper.after_scanline(), ..self }
    }
}

/// Whether the header is in the extended format that widens the bank counts.
pub open spec fn is_extended(image: Seq<u8>) -> bool {
    (image[7] & 0x0C) == 0x08
}

/// The number of 16 KiB program banks that the header announces.
pub open spec fn header_prg_banks(image: Seq<u8>) -> u16 {
    if is_extended(image) {
        (((image[8] & 0x07) as u16) << 8) | (image[4] as u16)
    } else {
        image[4] as u16
    }
}

/// The number of 8 KiB character banks that the header announces.
pub open spec fn header_chr_banks(image: Seq<u8>) -> u16 {
    if is_extended(image) {
        ((((image[8] & 0x38) >> 3) as u16) << 8) | (image[5] as u16)
    } else {
        image[5] as u16
    }
}

/// The mapper number: high nibble from byte 7, low nibble from the top of byte 6.
pub open spec fn header_mapper_id(image: Seq<u8>) -> u8 {
    (image[7] & 0xF0) | (image[6] >> 4)
}

/// The nametable arrangement soldered on the board.
pub open spec fn header_mirror(image: Seq<u8>) -> Mirror {
    if (image[6] & 0x01) > 0 {
        Mirror::Vertical
    } else {
        Mirror::Horizontal
    }
}

/// Where program memory starts: after the header and, if present, a 512-byte trainer.
pub open spec fn prg_start(image: Seq<u8>) -> int {
    if (image[6] & 0x04) > 0 {
        528
    } else {
        16
    }
}

/// Where character memory starts, which is where program memory ends.
pub open spec fn chr_start(image: Seq<u8>) -> int {
    prg_start(image) + header_prg_banks(image) * 16384
}

/// Where the image's last memory ends.
pub open spec fn image_end(image: Seq<u8>) -> int {
    chr_start(image) + header_chr_banks(image) * 8192
}

/// The mapper a cartridge with this mapper number starts with, if it is built in.
pub open spec fn initial_mapper(id: u8, prg_banks: u16, chr_banks: u16) -> Option<MapperKind> {
    if id == 0 {
        Some(MapperKind::Nrom(Mapper000 { mapper: crate::mapper::Mapper { prg_banks, chr_banks } }))
    } else if id == 4 {
        Some(
            MapperKind::Mmc3(
                Mapper004::initial(prg_banks, chr_banks, vstd::array::spec_array_fill_for_copy_type(0u8)),
            ),
        )
    } else {
        None
    }
}

/// What loading `image` yields: the cartridge it describes, or the reason it is
/// turned down. A cartridge without character banks gets 8 KiB of zeroed character RAM.
pub open spec fn parse(image: Seq<u8>) -> Result<CartridgeView, LoadError> {
    if image.len() < 16 || image.len() < image_end(image) {
        Err(LoadError::InvalidImage)
    } else {
        let prg_banks = header_prg_banks(image);
        let chr_banks = header_chr_banks(image);
        match initial_mapper(header_mapper_id(image), prg_banks, chr_banks) {
            None => Err(LoadError::UnsupportedMapper(header_mapper_id(image))),
            Some(mapper) => Ok(
                CartridgeView {
                    prg: image.subrange(prg_start(image), chr_start(image)),
                    chr: if chr_banks == 0 {
                        Seq::new(8192, |i: int| 0u8)
                    } else {
                        image.subrange(chr_start(image), image_end(image))
                    },
                    prg_banks,
                    chr_banks,
                    image_valid: true,
                    hw_mirror: header_mirror(image),
                    mapper,
                },
            ),
        }
    }
}

impl View for Cartridge {
    type V = CartridgeView;

    open spec fn view(&self) -> CartridgeView {
        CartridgeView {
            prg: self.prg_memory@,
            chr: self.chr_memory@,
            prg_banks: self.prg_banks,
            chr_banks: self.chr_banks,
            image_valid: self.image_valid,
            hw_mirror: self.hw_mirror,
            mapper: self.mapper,
        }
    }
}

impl Cartridge {
    /// Builds the cartridge that the bytes of a ROM image describe.
    pub fn new(image: &[u8]) -> (loaded: Result<Cartridge, LoadError>)
        ensures
            match loaded {
                Ok(cart) => parse(image@) == Ok::<CartridgeView, LoadError>(cart@),
                Err(e) => parse(image@) == Err::<CartridgeView, LoadError>(e),
            },
    {
        if image.len() < 16 {
            return Err(LoadError::InvalidImage);
        }
        let flags6: u8 = image[6];
        let flags7: u8 = image[7];
        let flags8: u8 = image[8];
        let start: usize = if (flags6 & 0x04) > 0 { 16 + 512 } else { 16 };
        let mapper_id: u8 = (flags7 & 0xF0) | (flags6 >> 4);
        let hw_mirror = if (flags6 & 0x01) > 0 { Mirror::Vertical } else { Mirror::Horizontal };
        let extended = (flags7 & 0x0C) == 0x08;
        let prg_banks: u16 = if extended {
            (((flags8 & 0x07) as u16) << 8) | (image[4] as u16)
        } else {
            image[4] as u16
        };
        let chr_banks: u16 = if extended {
            ((((flags8 & 0x38) >> 3) as u16) << 8) | (image[5] as u16)
        } else {
            image[5] as u16
        };
        let prg_end: usize = start + (prg_banks as usize) * 16384;
        let chr_end: usize = prg_end + (chr_banks as usize) * 8192;
        if image.len() < chr_end {
            return Err(LoadError::InvalidImage);
        }
        let mapper = if mapper_id == 0 {
            MapperKind::Nrom(Mapper000::new(prg_banks, chr_banks))
        } else if mapper_id == 4 {
            MapperKind::Mmc3(Mapper004::new(prg_banks, chr_banks))
        } else {
            return Err(LoadError::UnsupportedMapper(mapper_id));
        };
        let prg_memory = slice_to_vec(slice_subrange(image, start, prg_end));
        let chr_memory = if chr_banks == 0 {
            vec![0u8; 8192]
        } else {
            slice_to_vec(slice_subrange(image, prg_end, chr_end))
        };
        proof {
            match mapper {
                MapperKind::Mmc3(m) => {
                    assert(m.ram_static =~= vstd::array::spec_array_fill_for_copy_type(0u8));
                },
                _ => {},
            }
            assert(chr_banks == 0 ==> chr_memory@ =~= Seq::new(8192, |i: int| 0u8));
        }
        Ok(
            Cartridge {
                prg_memory,
                chr_memory,
                prg_banks,
                chr_banks,
                image_valid: true,
                hw_mirror,
                mapper,
            },
        )
    }

    /// Offers a CPU write to the cartridge and tells whether it claimed it.
    pub fn cpu_write(&mut self, addr: u16, data: u8) -> (claimed: bool)
        ensures
            claimed == old(self)@.claims_cpu_write(addr),
            final(self)@ == old(self)@.after_cpu_write(addr, data),
    {
        let mut mapped_addr: u32 = 0;
        if self.mapper.cpu_map_write(addr, &mut mapped_addr, &data) {
            if mapped_addr != HANDLED_INTERNALLY && (mapped_addr as usize) < self.prg_memory.len() {
                self.prg_memory[mapped_addr as usize] = data;
            }
            true
        } else {
            false
        }
    }

    /// Offers a CPU read to the cartridge and tells whether it claimed it; if so,
    /// `data` holds the byte.
    pub fn cpu_read(&self, addr: u16, data: &mut u8) -> (claimed: bool)
        ensures
            claimed == self@.cpu_read(addr).is_some(),
            *final(data) == match self@.cpu_read(addr) {
                Some(byte) => byte,
                None => *old(data),
            },
    {
        let mut mapped_addr: u32 = 0;
        if self.mapper.cpu_map_read(addr, &mut mapped_addr, data) {
            if mapped_addr != HANDLED_INTERNALLY {
                if (mapped_addr as usize) < self.prg_memory.len() {
                    *data = self.prg_memory[mapped_addr as usize];
                } else {
                    *data = 0;
                }
            }
            true
        } else {
            false
        }
    }

    /// Offers a PPU write to the cartridge and tells whether it claimed it.
    pub fn ppu_write(&mut self, addr: u16, data: u8) -> (claimed: bool)
        ensures
            claimed == old(self)@.claims_ppu_write(addr),
            final(self)@ == old(self)@.after_ppu_write(addr, data),
    {
        let mut mapped_addr: u32 = 0;
        if self.mapper.ppu_map_write(self, addr, &mut mapped_addr) {
            if (mapped_addr as usize) < self.chr_memory.len() {
                self.chr_memory[mapped_addr as usize] = data;
            }
            true
        } else {
            false
        }
    }

    /// Offers a PPU read to the cartridge and tells whether it claimed it; if so,
    /// `data` holds the byte.
    pub fn ppu_read(&self, addr: u16, data: &mut u8) -> (claimed: bool)
        ensures
            claimed == self@.ppu_read(addr).is_some(),
            *final(data) == match self@.ppu_read(addr) {
                Some(byte) => byte,
                None => *old(data),
            },
    {
        let mut mapped_addr: u32 = 0;
        if self.mapper.ppu_map_read(addr, &mut mapped_addr) {
            if (mapped_addr as usize) < self.chr_memory.len() {
                *data = self.chr_memory[mapped_addr as usize];
            } else {
                *data = 0;
            }
            true
        } else {
            false
        }
    }

    /// Resets the mapper.
    pub fn reset(&mut self)
        ensures
            final(self)@ == old(self)@.after_reset(),
    {
        self.mapper.reset();
    }

    /// The nametable arrangement in force.
    pub fn mirror(&self) -> (m: Mirror)
        ensures
            m == self@.mirror(),
    {
        let mirror: Mirror = self.mapper.mirror();
        if mirror == Mirror::Hardware {
            self.hw_mirror
        } else {
            mirror
        }
    }

    /// The mapper this cartridge carries.
    pub fn get_mapper(&self) -> (mapper: &MapperKind)
        ensures
            *mapper == self@.mapper,
    {
        &self.mapper
    }

    /// Whether the mapper's interrupt line is raised.
    pub fn irq_state(&self) -> (raised: bool)
        ensures
            raised == self@.mapper.irq_raised(),
    {
        self.mapper.irq_state()
    }

    /// Acknowledges the mapper's interrupt.
    pub fn irq_clear(&mut self)
        ensures
            final(self)@ == old(self)@.after_irq_clear(),
    {
        self.mapper.irq_clear();
    }

    /// Tells the mapper that the PPU finished a rendered scanline.
    pub fn scanline(&mut self)
        ensures
            final(self)@ == old(self)@.after_scanline(),
    {
        self.mapper.scanline();
    }
}

} // verus!
