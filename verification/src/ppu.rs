use vstd::prelude::*;
use vstd::array::spec_array_update;
use crate::bits::{lemma_byte_mask_bounds, lemma_mask_bounds};
use crate::cartridge::{Cartridge, CartridgeView, Mirror};
use crate::image::{Color, Image, ImageView};
use crate::palette::system_palette;
use crate::registers::{LoopyRegister, Mask, PpuControl, Status};

verus! {

/// One sprite as object attribute memory holds it.
#[derive(Clone, Copy, PartialEq, Eq, Structural, Debug)]
pub struct ObjectAttributeEntry {
    pub y: u8,
    pub id: u8,
    pub attribute: u8,
    pub x: u8,
}

impl ObjectAttributeEntry {
    /// The sprite with these four bytes.
    pub fn new(y: u8, id: u8, attribute: u8, x: u8) -> (entry: Self)
        ensures
            entry == (ObjectAttributeEntry { y, id, attribute, x }),
    {
        ObjectAttributeEntry { y, id, attribute, x }
    }

    /// The byte of the entry that object attribute memory shows at offset `field`.
    pub open spec fn byte(self, field: int) -> u8 {
        if field == 0 {
            self.y
        } else if field == 1 {
            self.id
        } else if field == 2 {
            self.attribute
        } else {
            self.x
        }
    }

    /// The entry with the byte at offset `field` replaced.
    pub open spec fn with_byte(self, field: int, data: u8) -> Self {
        if field == 0 {
            ObjectAttributeEntry { y: data, ..self }
        } else if field == 1 {
            ObjectAttributeEntry { id: data, ..self }
        } else if field == 2 {
            ObjectAttributeEntry { attribute: data, ..self }
        } else {
            ObjectAttributeEntry { x: data, ..self }
        }
    }
}

/// The byte at `addr` of object attribute memory, seen as 256 bytes.
pub open spec fn oam_byte(oam: [ObjectAttributeEntry; 64], addr: u8) -> u8 {
    oam[addr as int / 4].byte(addr as int % 4)
}

/// Object attribute memory with the byte at `addr` replaced.
pub open spec fn oam_with_byte(oam: [ObjectAttributeEntry; 64], addr: u8, data: u8) -> [ObjectAttributeEntry; 64] {
    spec_array_update(oam, addr as int / 4, oam[addr as int / 4].with_byte(addr as int % 4, data))
}

/// Reads object attribute memory as bytes.
pub fn read_oam(oam: &[ObjectAttributeEntry; 64], addr: u8) -> (data: u8)
    ensures
        data == oam_byte(*oam, addr),
{
    let entry = oam[(addr / 4) as usize];
    match addr % 4 {
        0 => entry.y,
        1 => entry.id,
        2 => entry.attribute,
        _ => entry.x,
    }
}

/// Writes object attribute memory as bytes.
pub fn write_oam(oam: &mut [ObjectAttributeEntry; 64], addr: u8, data: u8)
    ensures
        *final(oam) == oam_with_byte(*old(oam), addr, data),
{
    let at: usize = (addr / 4) as usize;
    let mut entry = oam[at];
    match addr % 4 {
        0 => {
            entry.y = data;
        },
        1 => {
            entry.id = data;
        },
        2 => {
            entry.attribute = data;
        },
        _ => {
            entry.x = data;
        },
    }
    oam[at] = entry;
    assert(*oam =~= oam_with_byte(*old(oam), addr, data));
}

/// Which physical nametable backs a nametable address, if the arrangement says.
pub open spec fn nametable_of(mirror: Mirror, addr: u16) -> Option<int> {
    let slot = (addr & 0x0FFF) as int / 0x0400;
    match mirror {
        Mirror::Vertical => Some(slot % 2),
        Mirror::Horizontal => Some(slot / 2),
        Mirror::OneScreenLo => Some(0),
        Mirror::OneScreenHi => Some(1),
        Mirror::Hardware => None,
    }
}

/// The palette entry behind a palette address: 32 entries, of which the sprite
/// backdrop entries are the background's.
pub open spec fn palette_index(addr: u16) -> u16 {
    let at = addr & 0x001F;
    if at == 0x0010 || at == 0x0014 || at == 0x0018 || at == 0x001C {
        at & 0x000F
    } else {
        at
    }
}

fn palette_slot(addr: u16) -> (slot: usize)
    ensures
        slot == palette_index(addr),
        slot < 32,
{
    let at: u16 = addr & 0x001F;
    proof {
        lemma_mask_bounds(addr);
        lemma_mask_bounds(at);
    }
    if at == 0x0010 || at == 0x0014 || at == 0x0018 || at == 0x001C {
        (at & 0x000F) as usize
    } else {
        at as usize
    }
}

/// The video address after an access through the data register.
pub open spec fn advanced(v: LoopyRegister, control: PpuControl) -> LoopyRegister {
    LoopyRegister(v.0.wrapping_add(if control.increment_mode() { 32 } else { 1 }) & 0x7FFF)
}

/// The picture processing unit.
pub struct Ppu {
    pub tbl_name: [[u8; 1024]; 2],
    pub tbl_palette: [u8; 32],
    pub tbl_pattern: [[u8; 4096]; 2],
    pub pallete_screen: [Color; 64],
    pub sprite_screen: Image,
    pub sprite_name_table: [Image; 2],
    pub sprite_pattern_table: [Image; 2],
    pub frame_complete: bool,
    pub scanline: i16,
    pub cycle: i16,
    pub status: Status,
    pub mask: Mask,
    pub control: PpuControl,
    pub address_latch: u8,
    pub data_buffer: u8,
    pub nmi: bool,
    pub vram_addr: LoopyRegister,
    pub tram_addr: LoopyRegister,
    pub fine_x: u8,
    pub bg_next_tile_id: u8,
    pub bg_next_tile_attrib: u8,
    pub bg_next_tile_lsb: u8,
    pub bg_next_tile_msb: u8,
    pub bg_shifter_pattern_lo: u16,
    pub bg_shifter_pattern_hi: u16,
    pub bg_shifter_attrib_lo: u16,
    pub bg_shifter_attrib_hi: u16,
    pub oam: [ObjectAttributeEntry; 64],
    pub oam_addr: u8,
    pub sprite_scanline: [ObjectAttributeEntry; 8],
    pub sprite_count: u8,
    pub sprite_shifter_pattern_lo: [u8; 8],
    pub sprite_shifter_pattern_hi: [u8; 8],
    pub sprite_zero_hit_possible: bool,
    pub sprite_zero_being_rendered: bool,
    pub scanline_trigger: bool,
    pub odd_frame: bool,
}

/// The state of the picture processing unit as mathematical values.
pub struct PpuView {
    pub tbl_name: [[u8; 1024]; 2],
    pub tbl_palette: [u8; 32],
    pub tbl_pattern: [[u8; 4096]; 2],
    pub pallete_screen: [Color; 64],
    pub sprite_screen: ImageView,
    pub sprite_name_table: Seq<ImageView>,
    pub sprite_pattern_table: Seq<ImageView>,
    pub frame_complete: bool,
    pub scanline: i16,
    pub cycle: i16,
    pub status: Status,
    pub mask: Mask,
    pub control: PpuControl,
    pub address_latch: u8,
    pub data_buffer: u8,
    pub nmi: bool,
    pub vram_addr: LoopyRegister,
    pub tram_addr: LoopyRegister,
    pub fine_x: u8,
    pub bg_next_tile_id: u8,
    pub bg_next_tile_attrib: u8,
    pub bg_next_tile_lsb: u8,
    pub bg_next_tile_msb: u8,
    pub bg_shifter_pattern_lo: u16,
    pub bg_shifter_pattern_hi: u16,
    pub bg_shifter_attrib_lo: u16,
    pub bg_shifter_attrib_hi: u16,
    pub oam: [ObjectAttributeEntry; 64],
    pub oam_addr: u8,
    pub sprite_scanline: [ObjectAttributeEntry; 8],
    pub sprite_count: u8,
    pub sprite_shifter_pattern_lo: [u8; 8],
    pub sprite_shifter_pattern_hi: [u8; 8],
    pub sprite_zero_hit_possible: bool,
    pub sprite_zero_being_rendered: bool,
    pub scanline_trigger: bool,
    pub odd_frame: bool,
}

impl View for Ppu {
    type V = PpuView;

    open spec fn view(&self) -> PpuView {
        PpuView {
            tbl_name: self.tbl_name,
            tbl_palette: self.tbl_palette,
            tbl_pattern: self.tbl_pattern,
            pallete_screen: self.pallete_screen,
            sprite_screen: self.sprite_screen@,
            sprite_name_table: seq![self.sprite_name_table[0]@, self.sprite_name_table[1]@],
            sprite_pattern_table: seq![
                self.sprite_pattern_table[0]@,
                self.sprite_pattern_table[1]@,
            ],
            frame_complete: self.frame_complete,
            scanline: self.scanline,
            cycle: self.cycle,
            status: self.status,
            mask: self.mask,
            control: self.control,
            address_latch: self.address_latch,
            data_buffer: self.data_buffer,
            nmi: self.nmi,
            vram_addr: self.vram_addr,
            tram_addr: self.tram_addr,
            fine_x: self.fine_x,
            bg_next_tile_id: self.bg_next_tile_id,
            bg_next_tile_attrib: self.bg_next_tile_attrib,
            bg_next_tile_lsb: self.bg_next_tile_lsb,
            bg_next_tile_msb: self.bg_next_tile_msb,
            bg_shifter_pattern_lo: self.bg_shifter_pattern_lo,
            bg_shifter_pattern_hi: self.bg_shifter_pattern_hi,
            bg_shifter_attrib_lo: self.bg_shifter_attrib_lo,
            bg_shifter_attrib_hi: self.bg_shifter_attrib_hi,
            oam: self.oam,
            oam_addr: self.oam_addr,
            sprite_scanline: self.sprite_scanline,
            sprite_count: self.sprite_count,
            sprite_shifter_pattern_lo: self.sprite_shifter_pattern_lo,
            sprite_shifter_pattern_hi: self.sprite_shifter_pattern_hi,
            sprite_zero_hit_possible: self.sprite_zero_hit_possible,
            sprite_zero_being_rendered: self.sprite_zero_being_rendered,
            scanline_trigger: self.scanline_trigger,
            odd_frame: self.odd_frame,
        }
    }
}

impl PpuView {
    /// The byte at `addr` on the PPU's own bus: the cartridge answers first, then
    /// pattern memory, the nametables under the cartridge's mirroring, and the palette.
    pub open spec fn ppu_read(self, cart: CartridgeView, addr: u16) -> u8 {
        let a = addr & 0x3FFF;
        match cart.ppu_read(a) {
            Some(byte) => byte,
            None => if a <= 0x1FFF {
                self.tbl_pattern[(a as int) / 0x1000][(a & 0x0FFF) as int]
            } else if a <= 0x3EFF {
                match nametable_of(cart.mirror(), a) {
                    Some(table) => self.tbl_name[table][(a & 0x03FF) as int],
                    None => 0,
                }
            } else {
                self.tbl_palette[palette_index(a) as int] & (if self.mask.grayscale() {
                    0x30
                } else {
                    0x3F
                })
            },
        }
    }

    /// The PPU after a write of `data` to `addr` on its own bus. A write that the
    /// cartridge claims leaves the PPU's memories alone.
    pub open spec fn after_ppu_write(self, cart: CartridgeView, addr: u16, data: u8) -> Self {
        let a = addr & 0x3FFF;
        if cart.claims_ppu_write(a) {
            self
        } else if a <= 0x1FFF {
            PpuView {
                tbl_pattern: spec_array_update(
                    self.tbl_pattern,
                    (a as int) / 0x1000,
                    spec_array_update(self.tbl_pattern[(a as int) / 0x1000], (a & 0x0FFF) as int, data),
                ),
                ..self
            }
        } else if a <= 0x3EFF {
            match nametable_of(cart.mirror(), a) {
                Some(table) => PpuView {
                    tbl_name: spec_array_update(
                        self.tbl_name,
                        table,
                        spec_array_update(self.tbl_name[table], (a & 0x03FF) as int, data),
                    ),
                    ..self
                },
                None => self,
            }
        } else {
            PpuView {
                tbl_palette: spec_array_update(self.tbl_palette, palette_index(a) as int, data),
                ..self
            }
        }
    }

    /// The byte the CPU reads from register `addr` (0 to 7).
    pub open spec fn cpu_read(self, cart: CartridgeView, addr: u16, read_only: bool) -> u8 {
        if read_only {
            if addr == 0 {
                self.control.0
            } else if addr == 1 {
                self.mask.0
            } else if addr == 2 {
                self.status.0
            } else {
                0
            }
        } else if addr == 2 {
            (self.status.0 & 0xE0) | (self.data_buffer & 0x1F)
        } else if addr == 4 {
            oam_byte(self.oam, self.oam_addr)
        } else if addr == 7 {
            if self.vram_addr.0 >= 0x3F00 {
                self.ppu_read(cart, self.vram_addr.0)
            } else {
                self.data_buffer
            }
        } else {
            0
        }
    }

    /// The PPU after the CPU read register `addr`: reading the status clears the
    /// vertical blank flag and the address latch, reading the data register refills the
    /// buffer and advances the video address.
    pub open spec fn after_cpu_read(self, cart: CartridgeView, addr: u16, read_only: bool) -> Self {
        if read_only {
            self
        } else if addr == 2 {
            PpuView { status: self.status.with_bits(0x80, false), address_latch: 0, ..self }
        } else if addr == 7 {
            PpuView {
                data_buffer: self.ppu_read(cart, self.vram_addr.0),
                vram_addr: advanced(self.vram_addr, self.control),
                ..self
            }
        } else {
            self
        }
    }

    /// The PPU after the CPU wrote `data` to register `addr` (0 to 7).
    pub open spec fn after_cpu_write(self, cart: CartridgeView, addr: u16, data: u8) -> Self {
        if addr == 0 {
            PpuView {
                control: PpuControl(data),
                tram_addr: self.tram_addr.with_nametable_x(PpuControl(data).nametable_x()).with_nametable_y(
                    PpuControl(data).nametable_y(),
                ),
                ..self
            }
        } else if addr == 1 {
            PpuView { mask: Mask(data), ..self }
        } else if addr == 3 {
            PpuView { oam_addr: data, ..self }
        } else if addr == 4 {
            PpuView { oam: oam_with_byte(self.oam, self.oam_addr, data), ..self }
        } else if addr == 5 {
            if self.address_latch == 0 {
                PpuView {
                    fine_x: data & 0x07,
                    tram_addr: self.tram_addr.with_coarse_x((data >> 3) as u16),
                    address_latch: 1,
                    ..self
                }
            } else {
                PpuView {
                    tram_addr: self.tram_addr.with_fine_y((data & 0x07) as u16).with_coarse_y(
                        (data >> 3) as u16,
                    ),
                    address_latch: 0,
                    ..self
                }
            }
        } else if addr == 6 {
            if self.address_latch == 0 {
                PpuView {
                    tram_addr: LoopyRegister(
                        (((data & 0x3F) as u16) << 8) | (self.tram_addr.0 & 0x00FF),
                    ),
                    address_latch: 1,
                    ..self
                }
            } else {
                PpuView {
                    tram_addr: LoopyRegister((self.tram_addr.0 & 0xFF00) | (data as u16)),
                    vram_addr: LoopyRegister((self.tram_addr.0 & 0xFF00) | (data as u16)),
                    address_latch: 0,
                    ..self
                }
            }
        } else if addr == 7 {
            PpuView {
                vram_addr: advanced(self.vram_addr, self.control),
                ..self.after_ppu_write(cart, self.vram_addr.0, data)
            }
        } else {
            self
        }
    }

    /// The cartridge after the CPU wrote `data` to register `addr`: only the data register
    /// reaches it.
    pub open spec fn cart_after_cpu_write(self, cart: CartridgeView, addr: u16, data: u8) -> CartridgeView {
        if addr == 7 {
            cart.after_ppu_write(self.vram_addr.0 & 0x3FFF, data)
        } else {
            cart
        }
    }

    /// The colour shown for `pixel` of `pallete`, looked up in palette memory.
    pub open spec fn colour(self, cart: CartridgeView, pallete: u8, pixel: u8) -> Color {
        self.pallete_screen[(self.ppu_read(
            cart,
            0x3F00u16.wrapping_add((pallete << 2) as u16).wrapping_add(pixel as u16),
        ) & 0x3F) as int]
    }

    /// The PPU after a reset: registers, latches and the dot position are cleared;
    /// memories, sprites and pictures stay.
    pub open spec fn after_reset(self) -> Self {
        PpuView {
            fine_x: 0,
            address_latch: 0,
            data_buffer: 0,
            scanline: 0,
            cycle: 0,
            bg_next_tile_id: 0,
            bg_next_tile_attrib: 0,
            bg_next_tile_lsb: 0,
            bg_next_tile_msb: 0,
            bg_shifter_pattern_lo: 0,
            bg_shifter_pattern_hi: 0,
            bg_shifter_attrib_lo: 0,
            bg_shifter_attrib_hi: 0,
            status: Status(0),
            mask: Mask(0),
            control: PpuControl(0),
            vram_addr: LoopyRegister(0),
            tram_addr: LoopyRegister(0),
            scanline_trigger: false,
            odd_frame: false,
            ..self
        }
    }
}

impl Ppu {
    /// Writes `data` to `addr` on the PPU's own bus.
    pub fn ppu_write(&mut self, cart: &mut Cartridge, addr: u16, data: u8)
        ensures
            final(self)@ == old(self)@.after_ppu_write(old(cart)@, addr, data),
            final(cart)@ == old(cart)@.after_ppu_write(addr & 0x3FFF, data),
    {
        let a: u16 = addr & 0x3FFF;
        proof {
            lemma_mask_bounds(a);
        }
        if cart.ppu_write(a, data) {
        } else if a <= 0x1FFF {
            self.tbl_pattern[(a / 0x1000) as usize][(a & 0x0FFF) as usize] = data;
            assert(self.tbl_pattern =~= spec_array_update(
                old(self).tbl_pattern,
                (a as int) / 0x1000,
                spec_array_update(old(self).tbl_pattern[(a as int) / 0x1000], (a & 0x0FFF) as int, data),
            ));
        } else if a <= 0x3EFF {
            let slot: u16 = (a & 0x0FFF) / 0x0400;
            let table: usize = match cart.mirror() {
                Mirror::Vertical => (slot % 2) as usize,
                Mirror::Horizontal => (slot / 2) as usize,
                Mirror::OneScreenLo => 0,
                Mirror::OneScreenHi => 1,
                Mirror::Hardware => {
                    return ;
                },
            };
            self.tbl_name[table][(a & 0x03FF) as usize] = data;
            assert(self.tbl_name =~= spec_array_update(
                old(self).tbl_name,
                table as int,
                spec_array_update(old(self).tbl_name[table as int], (a & 0x03FF) as int, data),
            ));
        } else {
            let at = palette_slot(a);
            self.tbl_palette[at] = data;
            assert(self.tbl_palette =~= spec_array_update(
                old(self).tbl_palette,
                palette_index(a) as int,
                data,
            ));
        }
    }

    /// Reads the byte at `addr` on the PPU's own bus.
    pub fn ppu_read(&self, cart: &Cartridge, addr: u16) -> (data: u8)
        ensures
            data == self@.ppu_read(cart@, addr),
    {
        let mut data: u8 = 0x00;
        let a: u16 = addr & 0x3FFF;
        proof {
            lemma_mask_bounds(a);
        }
        if cart.ppu_read(a, &mut data) {
        } else if a <= 0x1FFF {
            data = self.tbl_pattern[(a / 0x1000) as usize][(a & 0x0FFF) as usize];
        } else if a <= 0x3EFF {
            let slot: u16 = (a & 0x0FFF) / 0x0400;
            match cart.mirror() {
                Mirror::Vertical => {
                    data = self.tbl_name[(slot % 2) as usize][(a & 0x03FF) as usize];
                },
                Mirror::Horizontal => {
                    data = self.tbl_name[(slot / 2) as usize][(a & 0x03FF) as usize];
                },
                Mirror::OneScreenLo => {
                    data = self.tbl_name[0][(a & 0x03FF) as usize];
                },
                Mirror::OneScreenHi => {
                    data = self.tbl_name[1][(a & 0x03FF) as usize];
                },
                Mirror::Hardware => {},
            }
        } else {
            data = self.tbl_palette[palette_slot(a)] & (if self.mask.grayscale() { 0x30 } else { 0x3F });
        }
        data
    }

    /// Steps the video address after an access through the data register.
    fn advance_vram_addr(&mut self)
        ensures
            final(self)@ == (PpuView {
                vram_addr: advanced(old(self).vram_addr, old(self).control),
                ..old(self)@
            }),
    {
        self.vram_addr.0 = self.vram_addr.0.wrapping_add(
            if self.control.increment_mode() { 32 } else { 1 },
        ) & 0x7FFF;
    }

    /// Writes `data` to register `addr` (0 to 7) on behalf of the processor.
    pub fn cpu_write(&mut self, cart: &mut Cartridge, addr: u16, data: u8)
        ensures
            final(self)@ == old(self)@.after_cpu_write(old(cart)@, addr, data),
            final(cart)@ == old(self)@.cart_after_cpu_write(old(cart)@, addr, data),
            old(self)@.wf() ==> final(self)@.wf(),
    {
        proof {
            if self@.wf() {
                self@.lemma_register_access_keeps_wf(cart@, addr, data, false);
            }
        }
        match addr {
            0x0000 => {
                self.control.0 = data;
                self.tram_addr.set_nametable_x(self.control.nametable_x());
                self.tram_addr.set_nametable_y(self.control.nametable_y());
            },
            0x0001 => {
                self.mask.0 = data;
            },
            0x0003 => {
                self.oam_addr = data;
            },
            0x0004 => {
                write_oam(&mut self.oam, self.oam_addr, data);
            },
            0x0005 => {
                if self.address_latch == 0 {
                    self.fine_x = data & 0x07;
                    self.tram_addr.set_coarse_x((data >> 3) as u16);
                    self.address_latch = 1;
                } else {
                    self.tram_addr.set_fine_y((data & 0x07) as u16);
                    self.tram_addr.set_coarse_y((data >> 3) as u16);
                    self.address_latch = 0;
                }
            },
            0x0006 => {
                if self.address_latch == 0 {
                    self.tram_addr.0 = (((data & 0x3F) as u16) << 8) | (self.tram_addr.0 & 0x00FF);
                    self.address_latch = 1;
                } else {
                    self.tram_addr.0 = (self.tram_addr.0 & 0xFF00) | (data as u16);
                    self.vram_addr = self.tram_addr;
                    self.address_latch = 0;
                }
            },
            0x0007 => {
                self.ppu_write(cart, self.vram_addr.0, data);
                self.advance_vram_addr();
            },
            _ => {},
        }
    }

    /// Reads register `addr` (0 to 7) on behalf of the processor. A read-only read
    /// shows the control, mask and status registers and changes nothing.
    pub fn cpu_read(&mut self, cart: &Cartridge, addr: u16, read_only: bool) -> (data: u8)
        ensures
            data == old(self)@.cpu_read(cart@, addr, read_only),
            final(self)@ == old(self)@.after_cpu_read(cart@, addr, read_only),
            old(self)@.wf() ==> final(self)@.wf(),
    {
        proof {
            if self@.wf() {
                self@.lemma_register_access_keeps_wf(cart@, addr, 0, read_only);
            }
        }
        let mut data: u8 = 0x00;
        if read_only {
            match addr {
                0x0000 => {
                    data = self.control.0;
                },
                0x0001 => {
                    data = self.mask.0;
                },
                0x0002 => {
                    data = self.status.0;
                },
                _ => {},
            }
        } else {
            match addr {
                0x0002 => {
                    data = (self.status.0 & 0xE0) | (self.data_buffer & 0x1F);
                    self.status.set_vertical_blank(false);
                    self.address_latch = 0;
                },
                0x0004 => {
                    data = read_oam(&self.oam, self.oam_addr);
                },
                0x0007 => {
                    data = self.data_buffer;
                    self.data_buffer = self.ppu_read(cart, self.vram_addr.0);
                    if self.vram_addr.0 >= 0x3F00 {
                        data = self.data_buffer;
                    }
                    self.advance_vram_addr();
                },
                _ => {},
            }
        }
        data
    }

    /// Resets the registers, the latches and the dot position.
    pub fn reset(&mut self)
        ensures
            final(self)@ == old(self)@.after_reset(),
            old(self)@.wf() ==> final(self)@.wf(),
    {
        self.fine_x = 0x00;
        self.address_latch = 0x00;
        self.data_buffer = 0x00;
        self.scanline = 0;
        self.cycle = 0;
        self.bg_next_tile_id = 0x00;
        self.bg_next_tile_attrib = 0x00;
        self.bg_next_tile_lsb = 0x00;
        self.bg_next_tile_msb = 0x00;
        self.bg_shifter_pattern_lo = 0x0000;
        self.bg_shifter_pattern_hi = 0x0000;
        self.bg_shifter_attrib_lo = 0x0000;
        self.bg_shifter_attrib_hi = 0x0000;
        self.status.0 = 0x00;
        self.mask.0 = 0x00;
        self.control.0 = 0x00;
        self.vram_addr.0 = 0x0000;
        self.tram_addr.0 = 0x0000;
        self.scanline_trigger = false;
        self.odd_frame = false;
    }

    /// The colour shown for `pixel` of `pallete`.
    pub fn get_colour_from_pallet_ram(&self, cart: &Cartridge, pallete: u8, pixel: u8) -> (colour: Color)
        ensures
            colour == self@.colour(cart@, pallete, pixel),
    {
        let entry: u8 = self.ppu_read(
            cart,
            0x3F00u16.wrapping_add((pallete << 2) as u16).wrapping_add(pixel as u16),
        );
        proof {
            lemma_byte_mask_bounds(entry);
        }
        self.pallete_screen[(entry & 0x3F) as usize]
    }
}

/// The byte with its bits in reverse order.
pub open spec fn flipped(b: u8) -> u8 {
    let b1 = ((b & 0xF0) >> 4) | ((b & 0x0F) << 4);
    let b2 = ((b1 & 0xCC) >> 2) | ((b1 & 0x33) << 2);
    ((b2 & 0xAA) >> 1) | ((b2 & 0x55) << 1)
}

/// Reverses the order of the bits of a byte.
pub fn flip_byte(b: u8) -> (r: u8)
    ensures
        r == flipped(b),
{
    let b1: u8 = ((b & 0xF0) >> 4) | ((b & 0x0F) << 4);
    let b2: u8 = ((b1 & 0xCC) >> 2) | ((b1 & 0x33) << 2);
    ((b2 & 0xAA) >> 1) | ((b2 & 0x55) << 1)
}

/// Each bit of a flipped byte is the bit at the mirrored position of the byte.
pub proof fn lemma_flipped_mirrors(b: u8)
    by (bit_vector)
    ensures
        ({
            let b1 = ((b & 0xF0) >> 4) | ((b & 0x0F) << 4);
            let b2 = ((b1 & 0xCC) >> 2) | ((b1 & 0x33) << 2);
            let r = ((b2 & 0xAA) >> 1) | ((b2 & 0x55) << 1);
            &&& (r & 0x01 != 0) == (b & 0x80 != 0)
            &&& (r & 0x02 != 0) == (b & 0x40 != 0)
            &&& (r & 0x04 != 0) == (b & 0x20 != 0)
            &&& (r & 0x08 != 0) == (b & 0x10 != 0)
            &&& (r & 0x10 != 0) == (b & 0x08 != 0)
            &&& (r & 0x20 != 0) == (b & 0x04 != 0)
            &&& (r & 0x40 != 0) == (b & 0x02 != 0)
            &&& (r & 0x80 != 0) == (b & 0x01 != 0)
        }),
{
}

impl PpuView {
    /// Whether every memory and register holds what it holds at power-on: zeros,
    /// the system palette, and blank pictures.
    pub open spec fn is_power_on(self) -> bool {
        &&& forall|t: int, i: int| 0 <= t < 2 && 0 <= i < 1024 ==> self.tbl_name[t][i] == 0
        &&& forall|t: int, i: int| 0 <= t < 2 && 0 <= i < 4096 ==> self.tbl_pattern[t][i] == 0
        &&& forall|i: int| 0 <= i < 32 ==> self.tbl_palette[i] == 0
        &&& forall|code: u8|
            code < 64 ==> self.pallete_screen[code as int] == #[trigger] crate::palette::system_color(
                code,
            )
        &&& self.sprite_screen == ImageView::filled(256, 240, crate::image::white())
        &&& self.sprite_name_table == seq![
            ImageView::filled(256, 240, crate::image::white()),
            ImageView::filled(256, 240, crate::image::white()),
        ]
        &&& self.sprite_pattern_table == seq![
            ImageView::filled(128, 128, crate::image::white()),
            ImageView::filled(128, 128, crate::image::white()),
        ]
        &&& forall|i: int| 0 <= i < 64 ==> self.oam[i] == (ObjectAttributeEntry { y: 0, id: 0, attribute: 0, x: 0 })
        &&& forall|i: int|
            0 <= i < 8 ==> self.sprite_scanline[i] == (ObjectAttributeEntry { y: 0, id: 0, attribute: 0, x: 0 })
                && self.sprite_shifter_pattern_lo[i] == 0 && self.sprite_shifter_pattern_hi[i] == 0
        &&& !self.frame_complete && !self.nmi && !self.sprite_zero_hit_possible
        &&& !self.sprite_zero_being_rendered && !self.scanline_trigger && !self.odd_frame
        &&& self.scanline == 0 && self.cycle == 0
        &&& self.status.0 == 0 && self.mask.0 == 0 && self.control.0 == 0
        &&& self.address_latch == 0 && self.data_buffer == 0
        &&& self.vram_addr.0 == 0 && self.tram_addr.0 == 0 && self.fine_x == 0
        &&& self.bg_next_tile_id == 0 && self.bg_next_tile_attrib == 0
        &&& self.bg_next_tile_lsb == 0 && self.bg_next_tile_msb == 0
        &&& self.bg_shifter_pattern_lo == 0 && self.bg_shifter_pattern_hi == 0
        &&& self.bg_shifter_attrib_lo == 0 && self.bg_shifter_attrib_hi == 0
        &&& self.oam_addr == 0 && self.sprite_count == 0
    }

    /// The dot position is on the screen grid, no more sprites are selected than a
    /// scanline shows, and the scroll registers fit in fifteen bits.
    pub open spec fn wf(self) -> bool {
        &&& -1 <= self.scanline <= 260
        &&& 0 <= self.cycle <= 340
        &&& self.sprite_count <= 8
        &&& self.vram_addr.0 <= 0x7FFF
        &&& self.tram_addr.0 <= 0x7FFF
    }

    /// The PPU with the video address one tile further right, if it is rendering.
    pub open spec fn after_increment_scroll_x(self) -> Self {
        if self.mask.rendering() {
            PpuView { vram_addr: self.vram_addr.scrolled_x(), ..self }
        } else {
            self
        }
    }

    /// The PPU with the video address one pixel row further down, if it is rendering.
    pub open spec fn after_increment_scroll_y(self) -> Self {
        if self.mask.rendering() {
            PpuView { vram_addr: self.vram_addr.scrolled_y(), ..self }
        } else {
            self
        }
    }

    /// The PPU with the horizontal position of the temporary address copied to the
    /// video address, if it is rendering.
    pub open spec fn after_transfer_address_x(self) -> Self {
        if self.mask.rendering() {
            PpuView { vram_addr: self.vram_addr.with_x_of(self.tram_addr), ..self }
        } else {
            self
        }
    }

    /// The PPU with the vertical position of the temporary address copied to the
    /// video address, if it is rendering.
    pub open spec fn after_transfer_address_y(self) -> Self {
        if self.mask.rendering() {
            PpuView { vram_addr: self.vram_addr.with_y_of(self.tram_addr), ..self }
        } else {
            self
        }
    }

    /// The background shifters with the next tile in their low bytes; each attribute
    /// bit fills a whole byte.
    pub open spec fn after_load_background_shifters(self) -> Self {
        PpuView {
            bg_shifter_pattern_lo: (self.bg_shifter_pattern_lo & 0xFF00) | (self.bg_next_tile_lsb as u16),
            bg_shifter_pattern_hi: (self.bg_shifter_pattern_hi & 0xFF00) | (self.bg_next_tile_msb as u16),
            bg_shifter_attrib_lo: (self.bg_shifter_attrib_lo & 0xFF00) | (if (self.bg_next_tile_attrib
                & 0b01) > 0 {
                0xFFu16
            } else {
                0x00u16
            }),
            bg_shifter_attrib_hi: (self.bg_shifter_attrib_hi & 0xFF00) | (if (self.bg_next_tile_attrib
                & 0b10) > 0 {
                0xFFu16
            } else {
                0x00u16
            }),
            ..self
        }
    }

    /// How many of the selected sprites are live: never more than eight.
    pub open spec fn sprite_limit(self) -> int {
        if self.sprite_count < 8 {
            self.sprite_count as int
        } else {
            8
        }
    }

    /// Selected sprite `i` one dot later: a live sprite still left of the dot moves
    /// one closer.
    pub open spec fn stepped_sprite(self, i: int) -> ObjectAttributeEntry {
        let sprite = self.sprite_scanline[i];
        if i < self.sprite_limit() && sprite.x > 0 {
            ObjectAttributeEntry { x: (sprite.x - 1) as u8, ..sprite }
        } else {
            sprite
        }
    }

    /// A pattern shifter of selected sprite `i` one dot later: a live sprite that the
    /// dot has reached shifts out one pixel.
    pub open spec fn stepped_shifter(self, shifter: [u8; 8], i: int) -> u8 {
        if i < self.sprite_limit() && self.sprite_scanline[i].x == 0 {
            shifter[i] << 1
        } else {
            shifter[i]
        }
    }

    /// The selected sprites and their shifters one dot later.
    pub open spec fn after_sprite_step(self) -> Self {
        PpuView {
            sprite_scanline: [
                self.stepped_sprite(0),
                self.stepped_sprite(1),
                self.stepped_sprite(2),
                self.stepped_sprite(3),
                self.stepped_sprite(4),
                self.stepped_sprite(5),
                self.stepped_sprite(6),
                self.stepped_sprite(7),
            ],
            sprite_shifter_pattern_lo: [
                self.stepped_shifter(self.sprite_shifter_pattern_lo, 0),
                self.stepped_shifter(self.sprite_shifter_pattern_lo, 1),
                self.stepped_shifter(self.sprite_shifter_pattern_lo, 2),
                self.stepped_shifter(self.sprite_shifter_pattern_lo, 3),
                self.stepped_shifter(self.sprite_shifter_pattern_lo, 4),
                self.stepped_shifter(self.sprite_shifter_pattern_lo, 5),
                self.stepped_shifter(self.sprite_shifter_pattern_lo, 6),
                self.stepped_shifter(self.sprite_shifter_pattern_lo, 7),
            ],
            sprite_shifter_pattern_hi: [
                self.stepped_shifter(self.sprite_shifter_pattern_hi, 0),
                self.stepped_shifter(self.sprite_shifter_pattern_hi, 1),
                self.stepped_shifter(self.sprite_shifter_pattern_hi, 2),
                self.stepped_shifter(self.sprite_shifter_pattern_hi, 3),
                self.stepped_shifter(self.sprite_shifter_pattern_hi, 4),
                self.stepped_shifter(self.sprite_shifter_pattern_hi, 5),
                self.stepped_shifter(self.sprite_shifter_pattern_hi, 6),
                self.stepped_shifter(self.sprite_shifter_pattern_hi, 7),
            ],
            ..self
        }
    }

    /// The shifters one dot later: the background's shift while the background is
    /// rendered, the sprites' step while sprites are rendered on the visible dots.
    pub open spec fn after_update_shifters(self) -> Self {
        let p = if self.mask.render_background() {
            PpuView {
                bg_shifter_pattern_lo: self.bg_shifter_pattern_lo << 1,
                bg_shifter_pattern_hi: self.bg_shifter_pattern_hi << 1,
                bg_shifter_attrib_lo: self.bg_shifter_attrib_lo << 1,
                bg_shifter_attrib_hi: self.bg_shifter_attrib_hi << 1,
                ..self
            }
        } else {
            self
        };
        if self.mask.render_sprites() && 1 <= self.cycle < 258 {
            p.after_sprite_step()
        } else {
            p
        }
    }

    /// Where the id of the tile under the video address is stored.
    pub open spec fn tile_id_addr(self) -> u16 {
        0x2000 | (self.vram_addr.0 & 0x0FFF)
    }

    /// Where the attribute byte of the tile under the video address is stored.
    pub open spec fn attrib_addr(self) -> u16 {
        0x23C0 | ((if self.vram_addr.nametable_y() { 1u16 } else { 0u16 }) << 11) | ((if self.vram_addr.nametable_x() {
            1u16
        } else {
            0u16
        }) << 10) | ((self.vram_addr.coarse_y() >> 2) << 3) | (self.vram_addr.coarse_x() >> 2)
    }

    /// The two palette bits of the tile under the video address, picked from its
    /// attribute byte by bit 1 of the coarse coordinates.
    pub open spec fn tile_attrib(self, cart: CartridgeView) -> u8 {
        let whole = self.ppu_read(cart, self.attrib_addr());
        let half = if self.vram_addr.coarse_y() & 0x02 > 0 { whole >> 4 } else { whole };
        let quarter = if self.vram_addr.coarse_x() & 0x02 > 0 { half >> 2 } else { half };
        quarter & 0x03
    }

    /// Where the low pattern byte of the next tile's current row is stored.
    pub open spec fn pattern_addr(self) -> u16 {
        ((if self.control.pattern_background() { 1u16 } else { 0u16 }) << 12).wrapping_add(
            (self.bg_next_tile_id as u16) << 4,
        ).wrapping_add(self.vram_addr.fine_y())
    }

    /// Whether the background pipeline runs on this dot.
    pub open spec fn fetching(self) -> bool {
        (2 <= self.cycle < 258) || (321 <= self.cycle < 338)
    }

    /// The background pipeline's work on one dot: shift, then one of the eight steps
    /// that assemble the next tile.
    pub open spec fn after_background_fetch(self, cart: CartridgeView) -> Self {
        if !self.fetching() {
            self
        } else {
            let p = self.after_update_shifters();
            let phase = (self.cycle - 1) % 8;
            if phase == 0 {
                let q = p.after_load_background_shifters();
                PpuView { bg_next_tile_id: q.ppu_read(cart, q.tile_id_addr()), ..q }
            } else if phase == 2 {
                PpuView { bg_next_tile_attrib: p.tile_attrib(cart), ..p }
            } else if phase == 4 {
                PpuView { bg_next_tile_lsb: p.ppu_read(cart, p.pattern_addr()), ..p }
            } else if phase == 6 {
                PpuView { bg_next_tile_msb: p.ppu_read(cart, p.pattern_addr().wrapping_add(8)), ..p }
            } else if phase == 7 {
                p.after_increment_scroll_x()
            } else {
                p
            }
        }
    }
}

impl Ppu {
    /// A PPU at power-on.
    pub fn new() -> (ppu: Self)
        ensures
            ppu@.is_power_on(),
            ppu@.wf(),
    {
        let white = Color::from_rgba(255, 255, 255, 255);
        Ppu {
            tbl_name: [[0; 1024]; 2],
            tbl_palette: [0; 32],
            tbl_pattern: [[0; 4096]; 2],
            pallete_screen: system_palette(),
            sprite_screen: Image::gen_image_color(256, 240, white),
            sprite_name_table: [
                Image::gen_image_color(256, 240, white),
                Image::gen_image_color(256, 240, white),
            ],
            sprite_pattern_table: [
                Image::gen_image_color(128, 128, white),
                Image::gen_image_color(128, 128, white),
            ],
            frame_complete: false,
            scanline: 0,
            cycle: 0,
            status: Status(0),
            mask: Mask(0),
            control: PpuControl(0),
            address_latch: 0x00,
            data_buffer: 0x00,
            nmi: false,
            vram_addr: LoopyRegister(0),
            tram_addr: LoopyRegister(0),
            fine_x: 0x00,
            bg_next_tile_id: 0x00,
            bg_next_tile_attrib: 0x00,
            bg_next_tile_lsb: 0x00,
            bg_next_tile_msb: 0x00,
            bg_shifter_pattern_lo: 0x0000,
            bg_shifter_pattern_hi: 0x0000,
            bg_shifter_attrib_lo: 0x0000,
            bg_shifter_attrib_hi: 0x0000,
            oam: [ObjectAttributeEntry::new(0, 0, 0, 0); 64],
            oam_addr: 0x00,
            sprite_scanline: [ObjectAttributeEntry::new(0, 0, 0, 0); 8],
            sprite_count: 0x00,
            sprite_shifter_pattern_lo: [0; 8],
            sprite_shifter_pattern_hi: [0; 8],
            sprite_zero_hit_possible: false,
            sprite_zero_being_rendered: false,
            scanline_trigger: false,
            odd_frame: false,
        }
    }

    /// Whether the dot is on the grid, no more than eight sprites are selected and
    /// the scroll registers fit in fifteen bits.
    pub fn is_well_formed(&self) -> (wf: bool)
        ensures
            wf == self@.wf(),
    {
        -1 <= self.scanline && self.scanline <= 260 && 0 <= self.cycle && self.cycle <= 340 && self.sprite_count
            <= 8 && self.vram_addr.0 <= 0x7FFF && self.tram_addr.0 <= 0x7FFF
    }

    fn increment_scroll_x(&mut self)
        ensures
            final(self)@ == old(self)@.after_increment_scroll_x(),
    {
        if self.mask.rendering() {
            self.vram_addr.scroll_x();
        }
    }

    fn increment_scroll_y(&mut self)
        ensures
            final(self)@ == old(self)@.after_increment_scroll_y(),
    {
        if self.mask.rendering() {
            self.vram_addr.scroll_y();
        }
    }

    fn transfer_address_x(&mut self)
        ensures
            final(self)@ == old(self)@.after_transfer_address_x(),
    {
        if self.mask.rendering() {
            self.vram_addr.copy_x(self.tram_addr);
        }
    }

    fn transfer_address_y(&mut self)
        ensures
            final(self)@ == old(self)@.after_transfer_address_y(),
    {
        if self.mask.rendering() {
            self.vram_addr.copy_y(self.tram_addr);
        }
    }

    fn load_background_shifters(&mut self)
        ensures
            final(self)@ == old(self)@.after_load_background_shifters(),
    {
        self.bg_shifter_pattern_lo = (self.bg_shifter_pattern_lo & 0xFF00) | (self.bg_next_tile_lsb as u16);
        self.bg_shifter_pattern_hi = (self.bg_shifter_pattern_hi & 0xFF00) | (self.bg_next_tile_msb as u16);
        self.bg_shifter_attrib_lo = (self.bg_shifter_attrib_lo & 0xFF00) | (if (self.bg_next_tile_attrib
            & 0b01) > 0 {
            0xFF
        } else {
            0x00
        });
        self.bg_shifter_attrib_hi = (self.bg_shifter_attrib_hi & 0xFF00) | (if (self.bg_next_tile_attrib
            & 0b10) > 0 {
            0xFF
        } else {
            0x00
        });
    }

    /// The number of live selected sprites.
    fn live_sprites(&self) -> (limit: usize)
        ensures
            limit == self@.sprite_limit(),
            limit <= 8,
    {
        if self.sprite_count < 8 {
            self.sprite_count as usize
        } else {
            8
        }
    }

    fn step_sprites(&mut self)
        ensures
            final(self)@ == old(self)@.after_sprite_step(),
    {
        let limit = self.live_sprites();
        let mut sprites = self.sprite_scanline;
        let mut lo = self.sprite_shifter_pattern_lo;
        let mut hi = self.sprite_shifter_pattern_hi;
        let mut i: usize = 0;
        while i < limit
            invariant
                i <= limit <= 8,
                limit == self@.sprite_limit(),
                forall|j: int| 0 <= j < i ==> sprites[j] == self@.stepped_sprite(j),
                forall|j: int| 0 <= j < i ==> lo[j] == self@.stepped_shifter(self.sprite_shifter_pattern_lo, j),
                forall|j: int| 0 <= j < i ==> hi[j] == self@.stepped_shifter(self.sprite_shifter_pattern_hi, j),
                forall|j: int| i <= j < 8 ==> sprites[j] == self.sprite_scanline[j],
                forall|j: int| i <= j < 8 ==> lo[j] == self.sprite_shifter_pattern_lo[j],
                forall|j: int| i <= j < 8 ==> hi[j] == self.sprite_shifter_pattern_hi[j],
            decreases limit - i,
        {
            if sprites[i].x > 0 {
                let mut sprite = sprites[i];
                sprite.x = sprite.x - 1;
                sprites[i] = sprite;
            } else {
                lo[i] = lo[i] << 1;
                hi[i] = hi[i] << 1;
            }
            i += 1;
        }
        assert(sprites =~= old(self)@.after_sprite_step().sprite_scanline);
        assert(lo =~= old(self)@.after_sprite_step().sprite_shifter_pattern_lo);
        assert(hi =~= old(self)@.after_sprite_step().sprite_shifter_pattern_hi);
        self.sprite_scanline = sprites;
        self.sprite_shifter_pattern_lo = lo;
        self.sprite_shifter_pattern_hi = hi;
    }

    fn update_shifters(&mut self)
        ensures
            final(self)@ == old(self)@.after_update_shifters(),
    {
        if self.mask.render_background() {
            self.bg_shifter_pattern_lo = self.bg_shifter_pattern_lo << 1;
            self.bg_shifter_pattern_hi = self.bg_shifter_pattern_hi << 1;
            self.bg_shifter_attrib_lo = self.bg_shifter_attrib_lo << 1;
            self.bg_shifter_attrib_hi = self.bg_shifter_attrib_hi << 1;
        }
        if self.mask.render_sprites() && self.cycle >= 1 && self.cycle < 258 {
            self.step_sprites();
        }
    }

    fn fetch_tile_id(&mut self, cart: &Cartridge)
        ensures
            final(self)@ == (PpuView {
                bg_next_tile_id: old(self)@.ppu_read(cart@, old(self)@.tile_id_addr()),
                ..old(self)@
            }),
    {
        self.bg_next_tile_id = self.ppu_read(cart, 0x2000 | (self.vram_addr.0 & 0x0FFF));
    }

    fn background_fetch(&mut self, cart: &Cartridge)
        ensures
            final(self)@ == old(self)@.after_background_fetch(cart@),
    {
        if (self.cycle >= 2 && self.cycle < 258) || (self.cycle >= 321 && self.cycle < 338) {
            self.update_shifters();
            let pattern_table: u16 = if self.control.pattern_background() { 1 } else { 0 };
            match (self.cycle - 1) % 8 {
                0 => {
                    self.load_background_shifters();
                    self.fetch_tile_id(cart);
                },
                2 => {
                    let table_y: u16 = if self.vram_addr.nametable_y() { 1 } else { 0 };
                    let table_x: u16 = if self.vram_addr.nametable_x() { 1 } else { 0 };
                    let whole: u8 = self.ppu_read(
                        cart,
                        0x23C0 | (table_y << 11) | (table_x << 10) | ((self.vram_addr.coarse_y() >> 2) << 3) | (
                        self.vram_addr.coarse_x() >> 2),
                    );
                    let half: u8 = if self.vram_addr.coarse_y() & 0x02 > 0 { whole >> 4 } else { whole };
                    let quarter: u8 = if self.vram_addr.coarse_x() & 0x02 > 0 { half >> 2 } else { half };
                    self.bg_next_tile_attrib = quarter & 0x03;
                },
                4 => {
                    self.bg_next_tile_lsb = self.ppu_read(
                        cart,
                        (pattern_table << 12).wrapping_add((self.bg_next_tile_id as u16) << 4).wrapping_add(
                            self.vram_addr.fine_y(),
                        ),
                    );
                },
                6 => {
                    self.bg_next_tile_msb = self.ppu_read(
                        cart,
                        (pattern_table << 12).wrapping_add((self.bg_next_tile_id as u16) << 4).wrapping_add(
                            self.vram_addr.fine_y(),
                        ).wrapping_add(8),
                    );
                },
                7 => {
                    self.increment_scroll_x();
                },
                _ => {},
            }
        }
    }
}

impl PpuView {
    /// The dot of a short odd frame that is skipped: the first of scanline 0.
    pub open spec fn skips_dot(self) -> bool {
        self.scanline == 0 && self.cycle == 0 && self.odd_frame && self.mask.rendering()
    }

    /// The PPU moved over the skipped dot, if it is on it.
    pub open spec fn after_skip(self) -> Self {
        if self.skips_dot() {
            PpuView { cycle: 1, ..self }
        } else {
            self
        }
    }

    /// At the second dot of the pre-render line the status flags and the sprite
    /// shifters are cleared.
    pub open spec fn after_prerender_clear(self) -> Self {
        if self.scanline == -1 && self.cycle == 1 {
            PpuView {
                status: self.status.with_bits(0x80, false).with_bits(0x20, false).with_bits(0x40, false),
                sprite_shifter_pattern_lo: [0, 0, 0, 0, 0, 0, 0, 0],
                sprite_shifter_pattern_hi: [0, 0, 0, 0, 0, 0, 0, 0],
                ..self
            }
        } else {
            self
        }
    }

    /// The height of every sprite, in pixels.
    pub open spec fn sprite_height(self) -> int {
        if self.control.sprite_size() {
            16
        } else {
            8
        }
    }

    /// Whether sprite `entry` of object attribute memory covers the current scanline.
    pub open spec fn in_range(self, entry: int) -> bool {
        0 <= self.scanline - self.oam[entry].y < self.sprite_height()
    }

    /// How many of the first `n` sprites cover the current scanline.
    pub open spec fn count_in_range(self, n: int) -> int
        decreases n,
    {
        if n <= 0 {
            0
        } else {
            self.count_in_range(n - 1) + if self.in_range(n - 1) { 1int } else { 0int }
        }
    }

    /// What an unused slot of the selected sprites holds.
    pub open spec fn filler() -> ObjectAttributeEntry {
        ObjectAttributeEntry { y: 0xFF, id: 0xFF, attribute: 0xFF, x: 0xFF }
    }

    /// Counting from sprite `entry` on, the sprite number `k` of those that cover
    /// the current scanline; the filler if there are not that many.
    pub open spec fn nth_in_range(self, k: int, entry: int) -> ObjectAttributeEntry
        decreases 64 - entry,
    {
        if entry >= 64 {
            Self::filler()
        } else if self.in_range(entry) {
            if k <= 0 {
                self.oam[entry]
            } else {
                self.nth_in_range(k - 1, entry + 1)
            }
        } else {
            self.nth_in_range(k, entry + 1)
        }
    }

    /// The selection of sprites for the next scanline: the first eight that cover it,
    /// in the order of object attribute memory. The overflow flag tells whether there
    /// was a ninth.
    pub open spec fn after_sprite_evaluation(self) -> Self {
        PpuView {
            sprite_scanline: [
                self.nth_in_range(0, 0),
                self.nth_in_range(1, 0),
                self.nth_in_range(2, 0),
                self.nth_in_range(3, 0),
                self.nth_in_range(4, 0),
                self.nth_in_range(5, 0),
                self.nth_in_range(6, 0),
                self.nth_in_range(7, 0),
            ],
            sprite_count: if self.count_in_range(64) < 8 {
                self.count_in_range(64) as u8
            } else {
                8
            },
            sprite_shifter_pattern_lo: [0, 0, 0, 0, 0, 0, 0, 0],
            sprite_shifter_pattern_hi: [0, 0, 0, 0, 0, 0, 0, 0],
            sprite_zero_hit_possible: self.in_range(0),
            status: self.status.with_bits(0x20, self.count_in_range(64) > 8),
            ..self
        }
    }

    /// Where the low pattern byte of the row of `sprite` on the current scanline is
    /// stored. A vertically flipped sprite shows its rows bottom up; a tall sprite
    /// takes its table from bit 0 of its id and its two tiles from the rest.
    pub open spec fn sprite_row_addr(self, sprite: ObjectAttributeEntry) -> u16 {
        let row = (self.scanline as u16).wrapping_sub(sprite.y as u16);
        let flip = sprite.attribute & 0x80 != 0;
        if !self.control.sprite_size() {
            ((if self.control.pattern_sprite() { 1u16 } else { 0u16 }) << 12) | ((sprite.id as u16) << 4) | (if flip {
                7u16.wrapping_sub(row)
            } else {
                row
            })
        } else {
            let top = self.scanline.wrapping_sub(sprite.y as i16) < 8;
            let tile = if top != flip {
                (sprite.id as u16) & 0xFE
            } else {
                ((sprite.id as u16) & 0xFE).wrapping_add(1)
            };
            (((sprite.id as u16) & 0x01) << 12) | (tile << 4) | (if flip {
                7u16.wrapping_sub(row & 0x07)
            } else {
                row & 0x07
            })
        }
    }

    /// A pattern shifter of selected sprite `i` after the fetch: for a live sprite the
    /// pattern byte `plane` bytes after its row address, mirrored if the sprite is
    /// flipped horizontally.
    #[verifier::opaque]
    pub open spec fn fetched_shifter(self, cart: CartridgeView, shifter: [u8; 8], plane: u16, i: int) -> u8 {
        if i < self.sprite_limit() {
            let sprite = self.sprite_scanline[i];
            let bits = self.ppu_read(cart, self.sprite_row_addr(sprite).wrapping_add(plane));
            if (sprite.attribute & 0x40) > 0 {
                flipped(bits)
            } else {
                bits
            }
        } else {
            shifter[i]
        }
    }

    /// The PPU with the pattern rows of the live sprites in their shifters.
    pub open spec fn after_sprite_fetch(self, cart: CartridgeView) -> Self {
        PpuView {
            sprite_shifter_pattern_lo: [
                self.fetched_shifter(cart, self.sprite_shifter_pattern_lo, 0, 0),
                self.fetched_shifter(cart, self.sprite_shifter_pattern_lo, 0, 1),
                self.fetched_shifter(cart, self.sprite_shifter_pattern_lo, 0, 2),
                self.fetched_shifter(cart, self.sprite_shifter_pattern_lo, 0, 3),
                self.fetched_shifter(cart, self.sprite_shifter_pattern_lo, 0, 4),
                self.fetched_shifter(cart, self.sprite_shifter_pattern_lo, 0, 5),
                self.fetched_shifter(cart, self.sprite_shifter_pattern_lo, 0, 6),
                self.fetched_shifter(cart, self.sprite_shifter_pattern_lo, 0, 7),
            ],
            sprite_shifter_pattern_hi: [
                self.fetched_shifter(cart, self.sprite_shifter_pattern_hi, 8, 0),
                self.fetched_shifter(cart, self.sprite_shifter_pattern_hi, 8, 1),
                self.fetched_shifter(cart, self.sprite_shifter_pattern_hi, 8, 2),
                self.fetched_shifter(cart, self.sprite_shifter_pattern_hi, 8, 3),
                self.fetched_shifter(cart, self.sprite_shifter_pattern_hi, 8, 4),
                self.fetched_shifter(cart, self.sprite_shifter_pattern_hi, 8, 5),
                self.fetched_shifter(cart, self.sprite_shifter_pattern_hi, 8, 6),
                self.fetched_shifter(cart, self.sprite_shifter_pattern_hi, 8, 7),
            ],
            ..self
        }
    }

    /// Whether the dot lies on the pre-render line or a visible one.
    pub open spec fn on_rendered_line(self) -> bool {
        -1 <= self.scanline < 240
    }

    /// Everything a dot of a rendered line does before the pixel is composed.
    #[verifier::opaque]
    pub open spec fn after_render_step(self, cart: CartridgeView) -> Self {
        let p1 = self.after_skip().after_prerender_clear();
        let p2 = p1.after_background_fetch(cart);
        let p3 = if p2.cycle == 256 {
            p2.after_increment_scroll_y()
        } else {
            p2
        };
        let p4 = if p3.cycle == 257 {
            p3.after_load_background_shifters().after_transfer_address_x()
        } else {
            p3
        };
        let p5 = if p4.cycle == 338 || p4.cycle == 340 {
            PpuView { bg_next_tile_id: p4.ppu_read(cart, p4.tile_id_addr()), ..p4 }
        } else {
            p4
        };
        let p6 = if p5.scanline == -1 && 280 <= p5.cycle < 305 {
            p5.after_transfer_address_y()
        } else {
            p5
        };
        let p7 = if p6.cycle == 257 && p6.scanline >= 0 {
            p6.after_sprite_evaluation()
        } else {
            p6
        };
        if p7.cycle == 340 {
            p7.after_sprite_fetch(cart)
        } else {
            p7
        }
    }

    /// At the second dot of scanline 241 vertical blank begins, and the interrupt is
    /// raised if the control register enables it.
    pub open spec fn after_vblank_step(self) -> Self {
        if self.scanline == 241 && self.cycle == 1 {
            PpuView {
                status: self.status.with_bits(0x80, true),
                nmi: self.nmi || self.control.enable_nmi(),
                ..self
            }
        } else {
            self
        }
    }

    /// Whether the background shows at this dot.
    pub open spec fn bg_visible(self) -> bool {
        self.mask.render_background() && (self.mask.render_background_left() || self.cycle >= 9)
    }

    /// Whether sprites show at this dot.
    pub open spec fn fg_visible(self) -> bool {
        self.mask.render_sprites() && (self.mask.render_sprites_left() || self.cycle >= 9)
    }

    /// The bit of the background shifters that the fine x scroll selects.
    pub open spec fn bit_mux(self) -> u16 {
        0x8000u16 >> (self.fine_x & 0x0F)
    }

    /// The background's two-bit pixel at this dot; zero is transparent.
    pub open spec fn bg_pixel(self) -> u8 {
        if self.bg_visible() {
            ((if (self.bg_shifter_pattern_hi & self.bit_mux()) > 0 { 1u8 } else { 0u8 }) << 1) | (if (
            self.bg_shifter_pattern_lo & self.bit_mux()) > 0 {
                1u8
            } else {
                0u8
            })
        } else {
            0
        }
    }

    /// The background's two-bit palette at this dot.
    pub open spec fn bg_palette(self) -> u8 {
        if self.bg_visible() {
            ((if (self.bg_shifter_attrib_hi & self.bit_mux()) > 0 { 1u8 } else { 0u8 }) << 1) | (if (
            self.bg_shifter_attrib_lo & self.bit_mux()) > 0 {
                1u8
            } else {
                0u8
            })
        } else {
            0
        }
    }

    /// The two-bit pixel that selected sprite `i` has under the dot.
    pub open spec fn sprite_pixel(self, i: int) -> u8 {
        ((if (self.sprite_shifter_pattern_hi[i] & 0x80) > 0 { 1u8 } else { 0u8 }) << 1) | (if (
        self.sprite_shifter_pattern_lo[i] & 0x80) > 0 {
            1u8
        } else {
            0u8
        })
    }

    /// Whether selected sprite `i` has reached the dot and is not transparent there.
    pub open spec fn opaque_sprite(self, i: int) -> bool {
        self.sprite_scanline[i].x == 0 && self.sprite_pixel(i) != 0
    }

    /// The first live sprite from `from` on that is opaque at the dot, or the number
    /// of live sprites if there is none.
    pub open spec fn first_opaque(self, from: int) -> int
        decreases self.sprite_limit() - from,
    {
        if from >= self.sprite_limit() {
            self.sprite_limit()
        } else if self.opaque_sprite(from) {
            from
        } else {
            self.first_opaque(from + 1)
        }
    }

    /// The sprite that shows at this dot, if any.
    pub open spec fn front_sprite(self) -> Option<int> {
        if self.fg_visible() && self.first_opaque(0) < self.sprite_limit() {
            Some(self.first_opaque(0))
        } else {
            None
        }
    }

    /// The two-bit pixel of the sprite that shows at this dot; zero if none does.
    pub open spec fn fg_pixel(self) -> u8 {
        match self.front_sprite() {
            Some(i) => self.sprite_pixel(i),
            None => 0,
        }
    }

    /// The palette of the sprite that shows at this dot: one of the four sprite
    /// palettes, which follow the four of the background.
    pub open spec fn fg_palette(self) -> u8 {
        match self.front_sprite() {
            Some(i) => (self.sprite_scanline[i].attribute & 0x03).wrapping_add(0x04),
            None => 0,
        }
    }

    /// Whether the sprite that shows goes in front of the background.
    pub open spec fn fg_priority(self) -> bool {
        match self.front_sprite() {
            Some(i) => (self.sprite_scanline[i].attribute & 0x20) == 0,
            None => false,
        }
    }

    /// Whether the sprite wins the dot: alone, or over the background by priority.
    pub open spec fn shows_sprite(self) -> bool {
        self.fg_pixel() > 0 && (self.bg_pixel() == 0 || self.fg_priority())
    }

    /// The pixel that the dot shows.
    pub open spec fn shown_pixel(self) -> u8 {
        if self.shows_sprite() {
            self.fg_pixel()
        } else {
            self.bg_pixel()
        }
    }

    /// The palette of the pixel that the dot shows.
    pub open spec fn shown_palette(self) -> u8 {
        if self.shows_sprite() {
            self.fg_palette()
        } else if self.bg_pixel() > 0 {
            self.bg_palette()
        } else {
            0
        }
    }

    /// Whether the dot is one on which sprite zero can hit: with either left column
    /// shown dots 1 to 257, else dots 9 to 257.
    pub open spec fn hit_window(self) -> bool {
        if !(self.mask.render_background_left() || self.mask.render_sprites_left()) {
            9 <= self.cycle < 258
        } else {
            1 <= self.cycle < 258
        }
    }

    /// Whether sprite zero hits at this dot: it is the sprite that shows, both layers
    /// are opaque and enabled, and the dot lies in the window.
    pub open spec fn sprite_zero_hits(self) -> bool {
        &&& self.bg_pixel() > 0
        &&& self.front_sprite() == Some(0int)
        &&& self.sprite_zero_hit_possible
        &&& self.mask.render_background()
        &&& self.mask.render_sprites()
        &&& self.hit_window()
    }

    /// The PPU after the dot's pixel was composed: it remembers whether sprite zero
    /// showed, and records a sprite zero hit.
    #[verifier::opaque]
    pub open spec fn after_compose(self) -> Self {
        PpuView {
            sprite_zero_being_rendered: if self.fg_visible() {
                self.front_sprite() == Some(0int)
            } else {
                self.sprite_zero_being_rendered
            },
            status: if self.sprite_zero_hits() {
                self.status.with_bits(0x40, true)
            } else {
                self.status
            },
            ..self
        }
    }

    /// Whether the dot lies on the picture.
    pub open spec fn plotting(self) -> bool {
        1 <= self.cycle <= self.sprite_screen.width && 0 <= self.scanline < self.sprite_screen.height
    }

    /// The PPU after the dot's colour was written to the picture.
    pub open spec fn after_plot(self, cart: CartridgeView, palette: u8, pixel: u8) -> Self {
        if self.plotting() {
            PpuView {
                sprite_screen: self.sprite_screen.with_pixel(
                    (self.cycle - 1) as u32,
                    self.scanline as u32,
                    self.colour(cart, palette, pixel),
                ),
                ..self
            }
        } else {
            self
        }
    }

    /// Whether the mapper's scanline counter is clocked at the end of this dot.
    pub open spec fn ticks_mapper(self) -> bool {
        self.mask.rendering() && self.cycle.wrapping_add(1) == 260 && self.scanline < 240
    }

    /// The PPU moved on to the next dot: after dot 340 the next scanline begins, after
    /// scanline 260 the frame is complete and the next one begins on the pre-render line.
    pub open spec fn after_advance(self) -> Self {
        if self.cycle.wrapping_add(1) >= 341 {
            if self.scanline.wrapping_add(1) >= 261 {
                PpuView { cycle: 0, scanline: -1i16, frame_complete: true, odd_frame: !self.odd_frame, ..self }
            } else {
                PpuView { cycle: 0, scanline: self.scanline.wrapping_add(1), ..self }
            }
        } else {
            PpuView { cycle: self.cycle.wrapping_add(1), ..self }
        }
    }

    /// The PPU with the dot's fetches, sprite work and flags done, and the pixel about
    /// to be composed.
    pub open spec fn before_compose(self, cart: CartridgeView) -> Self {
        (if self.on_rendered_line() {
            self.after_render_step(cart)
        } else {
            self
        }).after_vblank_step()
    }

    /// The PPU after one dot.
    #[verifier::opaque]
    pub open spec fn after_clock(self, cart: CartridgeView) -> Self {
        let p = self.before_compose(cart);
        p.after_compose().after_plot(cart, p.shown_palette(), p.shown_pixel()).after_advance()
    }

    /// The cartridge after one dot of the PPU: its mapper is clocked at the end of
    /// dot 259 of each rendered line while rendering is enabled.
    #[verifier::opaque]
    pub open spec fn cart_after_clock(self, cart: CartridgeView) -> CartridgeView {
        if self.before_compose(cart).ticks_mapper() {
            cart.after_scanline()
        } else {
            cart
        }
    }
}

impl Ppu {
    fn prerender_clear(&mut self)
        ensures
            final(self)@ == old(self)@.after_prerender_clear(),
    {
        if self.scanline == -1 && self.cycle == 1 {
            self.status.set_vertical_blank(false);
            self.status.set_sprite_overflow(false);
            self.status.set_sprite_zero_hit(false);
            self.sprite_shifter_pattern_lo = [0, 0, 0, 0, 0, 0, 0, 0];
            self.sprite_shifter_pattern_hi = [0, 0, 0, 0, 0, 0, 0, 0];
        }
    }

    fn evaluate_sprites(&mut self)
        ensures
            final(self)@ == old(self)@.after_sprite_evaluation(),
    {
        let filler = ObjectAttributeEntry::new(0xFF, 0xFF, 0xFF, 0xFF);
        let mut line = [filler; 8];
        let mut count: u8 = 0;
        let height: i32 = if self.control.sprite_size() { 16 } else { 8 };
        let mut entry: usize = 0;
        while entry < 64
            invariant
                entry <= 64,
                count == self@.count_in_range(entry as int),
                count <= entry,
                height == self@.sprite_height(),
                filler == PpuView::filler(),
                forall|k: int|
                    0 <= k < 8 ==> #[trigger] self@.nth_in_range(k, 0) == if k < count {
                        line[k]
                    } else {
                        self@.nth_in_range(k - count, entry as int)
                    },
                forall|k: int| count <= k < 8 ==> line[k] == filler,
            decreases 64 - entry,
        {
            let diff: i32 = self.scanline as i32 - self.oam[entry].y as i32;
            let ghost before = line;
            if diff >= 0 && diff < height {
                if count < 8 {
                    line[count as usize] = self.oam[entry];
                }
                count += 1;
            }
            assert forall|k: int| 0 <= k < 8 implies #[trigger] self@.nth_in_range(k, 0) == if k < count {
                line[k]
            } else {
                self@.nth_in_range(k - count, entry as int + 1)
            } by {
                let c = self@.count_in_range(entry as int);
                assert(self@.nth_in_range(k, 0) == if k < c {
                    before[k]
                } else {
                    self@.nth_in_range(k - c, entry as int)
                });
            }
            entry += 1;
        }
        assert(line =~= old(self)@.after_sprite_evaluation().sprite_scanline);
        self.sprite_scanline = line;
        self.sprite_count = if count < 8 { count } else { 8 };
        self.sprite_shifter_pattern_lo = [0, 0, 0, 0, 0, 0, 0, 0];
        self.sprite_shifter_pattern_hi = [0, 0, 0, 0, 0, 0, 0, 0];
        let first: i32 = self.scanline as i32 - self.oam[0].y as i32;
        self.sprite_zero_hit_possible = first >= 0 && first < height;
        self.status.set_sprite_overflow(count > 8);
    }

    fn sprite_row_addr(&self, sprite: ObjectAttributeEntry) -> (addr: u16)
        ensures
            addr == self@.sprite_row_addr(sprite),
    {
        let row: u16 = (self.scanline as u16).wrapping_sub(sprite.y as u16);
        let flip: bool = sprite.attribute & 0x80 != 0;
        if !self.control.sprite_size() {
            let table: u16 = if self.control.pattern_sprite() { 1 } else { 0 };
            (table << 12) | ((sprite.id as u16) << 4) | (if flip { 7u16.wrapping_sub(row) } else { row })
        } else {
            let top: bool = self.scanline.wrapping_sub(sprite.y as i16) < 8;
            let tile: u16 = if top != flip {
                (sprite.id as u16) & 0xFE
            } else {
                ((sprite.id as u16) & 0xFE).wrapping_add(1)
            };
            (((sprite.id as u16) & 0x01) << 12) | (tile << 4) | (if flip {
                7u16.wrapping_sub(row & 0x07)
            } else {
                row & 0x07
            })
        }
    }

    /// Reads one plane of the pattern row of live sprite `i`.
    fn fetch_sprite_plane(&self, cart: &Cartridge, i: usize, plane: u16) -> (bits: u8)
        requires
            i < self@.sprite_limit(),
        ensures
            bits == self@.fetched_shifter(cart@, self.sprite_shifter_pattern_lo, plane, i as int),
            bits == self@.fetched_shifter(cart@, self.sprite_shifter_pattern_hi, plane, i as int),
    {
        reveal(PpuView::fetched_shifter);
        let sprite = self.sprite_scanline[i];
        let addr: u16 = self.sprite_row_addr(sprite).wrapping_add(plane);
        let bits: u8 = self.ppu_read(cart, addr);
        if (sprite.attribute & 0x40) > 0 {
            flip_byte(bits)
        } else {
            bits
        }
    }

    fn fetch_sprites(&mut self, cart: &Cartridge)
        ensures
            final(self)@ == old(self)@.after_sprite_fetch(cart@),
    {
        let limit = self.live_sprites();
        let mut lo = self.sprite_shifter_pattern_lo;
        let mut hi = self.sprite_shifter_pattern_hi;
        let mut i: usize = 0;
        while i < limit
            invariant
                i <= limit <= 8,
                limit == self@.sprite_limit(),
                forall|j: int|
                    0 <= j < i ==> lo[j] == self@.fetched_shifter(cart@, self.sprite_shifter_pattern_lo, 0, j),
                forall|j: int|
                    0 <= j < i ==> hi[j] == self@.fetched_shifter(cart@, self.sprite_shifter_pattern_hi, 8, j),
                forall|j: int| i <= j < 8 ==> lo[j] == self.sprite_shifter_pattern_lo[j],
                forall|j: int| i <= j < 8 ==> hi[j] == self.sprite_shifter_pattern_hi[j],
            decreases limit - i,
        {
            lo[i] = self.fetch_sprite_plane(cart, i, 0);
            hi[i] = self.fetch_sprite_plane(cart, i, 8);
            i += 1;
        }
        assert forall|j: int| limit <= j < 8 implies lo[j] == self@.fetched_shifter(
            cart@,
            self.sprite_shifter_pattern_lo,
            0,
            j,
        ) && hi[j] == self@.fetched_shifter(cart@, self.sprite_shifter_pattern_hi, 8, j) by {
            reveal(PpuView::fetched_shifter);
        }
        assert(lo =~= old(self)@.after_sprite_fetch(cart@).sprite_shifter_pattern_lo);
        assert(hi =~= old(self)@.after_sprite_fetch(cart@).sprite_shifter_pattern_hi);
        self.sprite_shifter_pattern_lo = lo;
        self.sprite_shifter_pattern_hi = hi;
    }

    fn render_step(&mut self, cart: &Cartridge)
        ensures
            final(self)@ == old(self)@.after_render_step(cart@),
    {
        reveal(PpuView::after_render_step);
        if self.scanline == 0 && self.cycle == 0 && self.odd_frame && self.mask.rendering() {
            self.cycle = 1;
        }
        self.prerender_clear();
        self.background_fetch(cart);
        if self.cycle == 256 {
            self.increment_scroll_y();
        }
        if self.cycle == 257 {
            self.load_background_shifters();
            self.transfer_address_x();
        }
        if self.cycle == 338 || self.cycle == 340 {
            self.fetch_tile_id(cart);
        }
        if self.scanline == -1 && self.cycle >= 280 && self.cycle < 305 {
            self.transfer_address_y();
        }
        if self.cycle == 257 && self.scanline >= 0 {
            self.evaluate_sprites();
        }
        if self.cycle == 340 {
            self.fetch_sprites(cart);
        }
    }

    fn vblank_step(&mut self)
        ensures
            final(self)@ == old(self)@.after_vblank_step(),
    {
        if self.scanline == 241 && self.cycle == 1 {
            self.status.set_vertical_blank(true);
            if self.control.enable_nmi() {
                self.nmi = true;
            }
        }
    }

    /// The mask that picks the bit of the background shifters to show.
    fn fine_x_mux(&self) -> (mux: u16)
        ensures
            mux == self@.bit_mux(),
    {
        proof {
            lemma_byte_mask_bounds(self.fine_x);
        }
        0x8000u16 >> (self.fine_x & 0x0F)
    }

    fn sprite_pixel(&self, i: usize) -> (pixel: u8)
        requires
            i < 8,
        ensures
            pixel == self@.sprite_pixel(i as int),
    {
        let hi: u8 = if (self.sprite_shifter_pattern_hi[i] & 0x80) > 0 { 1 } else { 0 };
        let lo: u8 = if (self.sprite_shifter_pattern_lo[i] & 0x80) > 0 { 1 } else { 0 };
        (hi << 1) | lo
    }

    /// Finds the sprite that shows at this dot.
    fn find_front_sprite(&self) -> (found: Option<usize>)
        ensures
            match found {
                Some(i) => self@.front_sprite() == Some(i as int) && i < 8 && self@.opaque_sprite(i as int),
                None => self@.front_sprite().is_none(),
            },
    {
        if !(self.mask.render_sprites() && (self.mask.render_sprites_left() || self.cycle >= 9)) {
            return None;
        }
        let limit = self.live_sprites();
        let mut i: usize = 0;
        while i < limit
            invariant
                i <= limit <= 8,
                limit == self@.sprite_limit(),
                self@.fg_visible(),
                self@.first_opaque(0) == self@.first_opaque(i as int),
            decreases limit - i,
        {
            assert(self@.first_opaque(i as int) == if self@.opaque_sprite(i as int) {
                i as int
            } else {
                self@.first_opaque(i as int + 1)
            });
            if self.sprite_scanline[i].x == 0 && self.sprite_pixel(i) != 0 {
                return Some(i);
            }
            i += 1;
        }
        assert(self@.first_opaque(limit as int) == limit);
        None
    }

    /// Composes the dot's pixel from the two layers and records a sprite zero hit.
    /// Returns the pixel and its palette.
    fn compose(&mut self) -> (shown: (u8, u8))
        ensures
            shown.0 == old(self)@.shown_pixel(),
            shown.1 == old(self)@.shown_palette(),
            final(self)@ == old(self)@.after_compose(),
    {
        reveal(PpuView::after_compose);
        let mut bg_pixel: u8 = 0x00;
        let mut bg_palette: u8 = 0x00;
        if self.mask.render_background() && (self.mask.render_background_left() || self.cycle >= 9) {
            let bit_mux: u16 = self.fine_x_mux();
            let p0_pixel: u8 = if (self.bg_shifter_pattern_lo & bit_mux) > 0 { 1 } else { 0 };
            let p1_pixel: u8 = if (self.bg_shifter_pattern_hi & bit_mux) > 0 { 1 } else { 0 };
            bg_pixel = (p1_pixel << 1) | p0_pixel;
            let bg_pal0: u8 = if (self.bg_shifter_attrib_lo & bit_mux) > 0 { 1 } else { 0 };
            let bg_pal1: u8 = if (self.bg_shifter_attrib_hi & bit_mux) > 0 { 1 } else { 0 };
            bg_palette = (bg_pal1 << 1) | bg_pal0;
        }
        let mut fg_pixel: u8 = 0x00;
        let mut fg_palette: u8 = 0x00;
        let mut fg_priority: bool = false;
        let front = self.find_front_sprite();
        if self.mask.render_sprites() && (self.mask.render_sprites_left() || self.cycle >= 9) {
            self.sprite_zero_being_rendered = false;
        }
        match front {
            Some(i) => {
                fg_pixel = self.sprite_pixel(i);
                fg_palette = (self.sprite_scanline[i].attribute & 0x03).wrapping_add(0x04);
                fg_priority = (self.sprite_scanline[i].attribute & 0x20) == 0;
                if i == 0 {
                    self.sprite_zero_being_rendered = true;
                }
            },
            None => {},
        }
        let mut pixel: u8 = 0x00;
        let mut palette: u8 = 0x00;
        if bg_pixel == 0 && fg_pixel == 0 {
        } else if bg_pixel == 0 && fg_pixel > 0 {
            pixel = fg_pixel;
            palette = fg_palette;
        } else if bg_pixel > 0 && fg_pixel == 0 {
            pixel = bg_pixel;
            palette = bg_palette;
        } else {
            if fg_priority {
                pixel = fg_pixel;
                palette = fg_palette;
            } else {
                pixel = bg_pixel;
                palette = bg_palette;
            }
            if self.sprite_zero_being_rendered && self.sprite_zero_hit_possible {
                if self.mask.render_background() && self.mask.render_sprites() {
                    if !(self.mask.render_background_left() || self.mask.render_sprites_left()) {
                        if self.cycle >= 9 && self.cycle < 258 {
                            self.status.set_sprite_zero_hit(true);
                        }
                    } else {
                        if self.cycle >= 1 && self.cycle < 258 {
                            self.status.set_sprite_zero_hit(true);
                        }
                    }
                }
            }
        }
        (pixel, palette)
    }

    fn plot(&mut self, cart: &Cartridge, palette: u8, pixel: u8)
        ensures
            final(self)@ == old(self)@.after_plot(cart@, palette, pixel),
    {
        if self.cycle >= 1 && self.cycle as i32 <= self.sprite_screen.width() as i32 && self.scanline >= 0
            && (self.scanline as i32) < self.sprite_screen.height() as i32 {
            let colour = self.get_colour_from_pallet_ram(cart, palette, pixel);
            self.sprite_screen.set_pixel((self.cycle - 1) as u32, self.scanline as u32, colour);
        }
    }

    fn advance(&mut self, cart: &mut Cartridge)
        ensures
            final(self)@ == old(self)@.after_advance(),
            final(cart)@ == if old(self)@.ticks_mapper() {
                old(cart)@.after_scanline()
            } else {
                old(cart)@
            },
    {
        self.cycle = self.cycle.wrapping_add(1);
        if self.mask.rendering() {
            if self.cycle == 260 && self.scanline < 240 {
                cart.scanline();
            }
        }
        if self.cycle >= 341 {
            self.cycle = 0;
            self.scanline = self.scanline.wrapping_add(1);
            if self.scanline >= 261 {
                self.scanline = -1;
                self.frame_complete = true;
                self.odd_frame = !self.odd_frame;
            }
        }
    }

    /// Advances the PPU by one dot.
    pub fn clock(&mut self, cart: &mut Cartridge)
        ensures
            final(self)@ == old(self)@.after_clock(old(cart)@),
            final(cart)@ == old(self)@.cart_after_clock(old(cart)@),
            old(self)@.wf() ==> final(self)@.wf(),
    {
        proof {
            if self@.wf() {
                self@.lemma_clock_keeps_wf(cart@);
            }
        }
        reveal(PpuView::after_clock);
        reveal(PpuView::cart_after_clock);
        reveal(PpuView::after_compose);
        if self.scanline >= -1 && self.scanline < 240 {
            self.render_step(cart);
        }
        self.vblank_step();
        let (pixel, palette) = self.compose();
        self.plot(cart, palette, pixel);
        self.advance(cart);
    }
}

impl PpuView {
    /// The two-bit pixel at column `x` of row `y` in the picture of pattern table
    /// `table`: sixteen rows of sixteen tiles, each tile eight rows of two bit planes.
    pub open spec fn pattern_pixel(self, cart: CartridgeView, table: u8, x: int, y: int) -> u8 {
        let row_addr = (table * 0x1000 + (y / 8) * 256 + (x / 8) * 16 + y % 8) as u16;
        let lsb = self.ppu_read(cart, row_addr);
        let msb = self.ppu_read(cart, (row_addr + 8) as u16);
        let bit = (7 - x % 8) as u8;
        (((msb >> bit) & 0x01) << 1) | ((lsb >> bit) & 0x01)
    }

    /// The picture of pattern table `table` in the colours of `pallete`.
    pub open spec fn pattern_picture(self, cart: CartridgeView, table: u8, pallete: u8) -> ImageView {
        ImageView {
            width: 128,
            height: 128,
            pixels: Seq::new(
                16384,
                |at: int| self.colour(cart, pallete, self.pattern_pixel(cart, table, at % 128, at / 128)),
            ),
        }
    }
}

/// The pictures a host can show of the PPU's state.
pub trait Debug {
    /// The picture that the PPU renders.
    fn get_screen(&self) -> &Image;

    /// The picture of nametable `i`, which is 0 or 1.
    fn get_name_table(&self, i: u8) -> &Image
        requires
            i < 2,
    ;

    /// Draws pattern table `i`, which is 0 or 1, in the colours of a palette, and
    /// gives the picture.
    fn get_pattern_table(&mut self, i: u8, pallete: &u8, cart: &Cartridge) -> &Image
        requires
            i < 2,
    ;
}

impl Ppu {
    /// Draws the picture of a pattern table.
    fn draw_pattern_table(&self, table: u8, pallete: u8, cart: &Cartridge) -> (picture: Image)
        requires
            table < 2,
        ensures
            picture@ == self@.pattern_picture(cart@, table, pallete),
    {
        let mut picture = Image::gen_image_color(128, 128, Color::from_rgba(255, 255, 255, 255));
        let mut y: u16 = 0;
        while y < 128
            invariant
                y <= 128,
                table < 2,
                picture@.width == 128,
                picture@.height == 128,
                picture@.pixels.len() == 16384,
                forall|at: int|
                    0 <= at < y * 128 ==> picture@.pixels[at] == self@.colour(
                        cart@,
                        pallete,
                        self@.pattern_pixel(cart@, table, at % 128, at / 128),
                    ),
            decreases 128 - y,
        {
            let mut tile: u16 = 0;
            while tile < 16
                invariant
                    y < 128,
                    tile <= 16,
                    table < 2,
                    picture@.width == 128,
                    picture@.height == 128,
                    picture@.pixels.len() == 16384,
                    forall|at: int|
                        0 <= at < y * 128 + tile * 8 ==> picture@.pixels[at] == self@.colour(
                            cart@,
                            pallete,
                            self@.pattern_pixel(cart@, table, at % 128, at / 128),
                        ),
                decreases 16 - tile,
            {
                let row_addr: u16 = (table as u16) * 0x1000 + (y / 8) * 256 + tile * 16 + y % 8;
                let lsb: u8 = self.ppu_read(cart, row_addr);
                let msb: u8 = self.ppu_read(cart, row_addr + 8);
                let mut column: u16 = 0;
                while column < 8
                    invariant
                        y < 128,
                        tile < 16,
                        column <= 8,
                        table < 2,
                        row_addr == table * 0x1000 + (y / 8) * 256 + tile * 16 + y % 8,
                        lsb == self@.ppu_read(cart@, row_addr),
                        msb == self@.ppu_read(cart@, (row_addr + 8) as u16),
                        picture@.width == 128,
                        picture@.height == 128,
                        picture@.pixels.len() == 16384,
                        forall|at: int|
                            0 <= at < y * 128 + tile * 8 + column ==> picture@.pixels[at] == self@.colour(
                                cart@,
                                pallete,
                                self@.pattern_pixel(cart@, table, at % 128, at / 128),
                            ),
                    decreases 8 - column,
                {
                    let bit: u8 = (7 - column) as u8;
                    let pixel: u8 = (((msb >> bit) & 0x01) << 1) | ((lsb >> bit) & 0x01);
                    let colour = self.get_colour_from_pallet_ram(cart, pallete, pixel);
                    let x: u16 = tile * 8 + column;
                    proof {
                        let at = y * 128 + x;
                        assert(at % 128 == x && at / 128 == y);
                        assert(x / 8 == tile && x % 8 == column);
                        assert(pixel == self@.pattern_pixel(cart@, table, x as int, y as int));
                    }
                    picture.set_pixel(x as u32, y as u32, colour);
                    column += 1;
                }
                tile += 1;
            }
            y += 1;
        }
        assert(picture@.pixels =~= self@.pattern_picture(cart@, table, pallete).pixels);
        picture
    }
}

impl Debug for Ppu {
    fn get_screen(&self) -> (picture: &Image)
        ensures
            picture@ == self@.sprite_screen,
    {
        &self.sprite_screen
    }

    fn get_name_table(&self, i: u8) -> (picture: &Image)
        ensures
            picture@ == self@.sprite_name_table[i as int],
    {
        &self.sprite_name_table[i as usize]
    }

    fn get_pattern_table(&mut self, i: u8, pallete: &u8, cart: &Cartridge) -> (picture: &Image)
        ensures
            picture@ == old(self)@.pattern_picture(cart@, i, *pallete),
            final(self)@ == (PpuView {
                sprite_pattern_table: old(self)@.sprite_pattern_table.update(
                    i as int,
                    old(self)@.pattern_picture(cart@, i, *pallete),
                ),
                ..old(self)@
            }),
    {
        let picture = self.draw_pattern_table(i, *pallete, cart);
        self.sprite_pattern_table[i as usize] = picture;
        assert(self@.sprite_pattern_table =~= old(self)@.sprite_pattern_table.update(
            i as int,
            old(self)@.pattern_picture(cart@, i, *pallete),
        ));
        &self.sprite_pattern_table[i as usize]
    }
}

} // verus!
