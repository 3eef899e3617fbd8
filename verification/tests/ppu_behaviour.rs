use nes_emulator::cartridge::Cartridge;
use nes_emulator::image::{Color, Image};
use nes_emulator::ppu::{flip_byte, read_oam, write_oam, ObjectAttributeEntry, Ppu};
use nes_emulator::registers::{LoopyRegister, Mask, PpuControl, Status};

/// A cartridge without a mapper chip; `vertical` picks its mirroring, `chr_banks` zero
/// gives it character RAM.
fn plain_cart(vertical: bool, chr_banks: u8) -> Cartridge {
    let mut bytes = vec![0x4E, 0x45, 0x53, 0x1A, 1, chr_banks, if vertical { 1 } else { 0 }, 0];
    bytes.resize(16 + 16384 + chr_banks as usize * 8192, 0);
    match Cartridge::new(&bytes) {
        Ok(cart) => cart,
        Err(e) => panic!("image refused: {:?}", e),
    }
}

fn set_address(ppu: &mut Ppu, cart: &mut Cartridge, addr: u16) {
    ppu.cpu_write(cart, 6, (addr >> 8) as u8);
    ppu.cpu_write(cart, 6, (addr & 0xFF) as u8);
}

#[test]
fn data_port_reads_are_one_behind() {
    let mut cart = plain_cart(true, 1);
    let mut ppu = Ppu::new();
    set_address(&mut ppu, &mut cart, 0x2100);
    for value in [0x11u8, 0x22, 0x33] {
        ppu.cpu_write(&mut cart, 7, value);
    }
    assert_eq!(ppu.vram_addr.0, 0x2103);
    set_address(&mut ppu, &mut cart, 0x2100);
    assert_eq!(ppu.vram_addr.0, 0x2100);
    ppu.data_buffer = 0xEE;
    assert_eq!(ppu.cpu_read(&cart, 7, false), 0xEE);
    assert_eq!(ppu.cpu_read(&cart, 7, false), 0x11);
    assert_eq!(ppu.cpu_read(&cart, 7, false), 0x22);
    assert_eq!(ppu.cpu_read(&cart, 7, false), 0x33);
}

#[test]
fn palette_reads_are_not_delayed() {
    let mut cart = plain_cart(true, 1);
    let mut ppu = Ppu::new();
    set_address(&mut ppu, &mut cart, 0x3F01);
    ppu.cpu_write(&mut cart, 7, 0x2A);
    set_address(&mut ppu, &mut cart, 0x3F01);
    assert_eq!(ppu.cpu_read(&cart, 7, false), 0x2A);
}

#[test]
fn address_port_drops_the_top_two_bits() {
    let mut cart = plain_cart(true, 1);
    let mut ppu = Ppu::new();
    set_address(&mut ppu, &mut cart, 0xE345);
    assert_eq!(ppu.vram_addr.0, 0x2345);
    assert_eq!(ppu.tram_addr.0, 0x2345);
    assert_eq!(ppu.address_latch, 0);
}

#[test]
fn data_port_steps_by_thirty_two_in_column_mode() {
    let mut cart = plain_cart(true, 1);
    let mut ppu = Ppu::new();
    ppu.cpu_write(&mut cart, 0, 0x04);
    set_address(&mut ppu, &mut cart, 0x2000);
    ppu.cpu_write(&mut cart, 7, 0x01);
    assert_eq!(ppu.vram_addr.0, 0x2020);
    ppu.cpu_read(&cart, 7, false);
    assert_eq!(ppu.vram_addr.0, 0x2040);
}

#[test]
fn video_address_stays_within_fifteen_bits() {
    let mut cart = plain_cart(true, 1);
    let mut ppu = Ppu::new();
    ppu.vram_addr = LoopyRegister(0x7FFF);
    ppu.cpu_read(&cart, 7, false);
    assert_eq!(ppu.vram_addr.0, 0x0000);
    ppu.vram_addr = LoopyRegister(0x7FF0);
    ppu.cpu_write(&mut cart, 0, 0x04);
    ppu.cpu_write(&mut cart, 7, 0x00);
    assert_eq!(ppu.vram_addr.0, 0x0010);
}

#[test]
fn sprite_data_port_round_trip() {
    let mut cart = plain_cart(true, 1);
    let mut ppu = Ppu::new();
    for k in [0u8, 1, 2, 3, 0x7E, 0xFF] {
        ppu.cpu_write(&mut cart, 3, k);
        ppu.cpu_write(&mut cart, 4, k ^ 0x5A);
        assert_eq!(ppu.cpu_read(&cart, 4, false), k ^ 0x5A);
    }
    assert_eq!(ppu.oam[0].y, 0x5A);
    assert_eq!(ppu.oam[0].id, 0x5B);
    assert_eq!(ppu.oam[0].attribute, 0x58);
    assert_eq!(ppu.oam[0].x, 0x59);
    assert_eq!(ppu.oam[31].attribute, 0x7E ^ 0x5A);
    assert_eq!(ppu.oam[63].x, 0xFF ^ 0x5A);
}

#[test]
fn sprite_memory_is_addressed_by_byte() {
    let mut oam = [ObjectAttributeEntry::new(1, 2, 3, 4); 64];
    assert_eq!(read_oam(&oam, 0), 1);
    assert_eq!(read_oam(&oam, 5), 2);
    assert_eq!(read_oam(&oam, 254), 3);
    assert_eq!(read_oam(&oam, 255), 4);
    write_oam(&mut oam, 9, 0xAA);
    assert_eq!(oam[2], ObjectAttributeEntry::new(1, 0xAA, 3, 4));
    assert_eq!(oam[1], ObjectAttributeEntry::new(1, 2, 3, 4));
}

#[test]
fn scroll_port_takes_x_then_y() {
    let mut cart = plain_cart(true, 1);
    let mut ppu = Ppu::new();
    ppu.cpu_write(&mut cart, 5, 0b1010_1101);
    assert_eq!(ppu.fine_x, 0b101);
    assert_eq!(ppu.tram_addr.coarse_x(), 0b10101);
    assert_eq!(ppu.address_latch, 1);
    ppu.cpu_write(&mut cart, 5, 0b0111_0011);
    assert_eq!(ppu.tram_addr.fine_y(), 0b011);
    assert_eq!(ppu.tram_addr.coarse_y(), 0b01110);
    assert_eq!(ppu.address_latch, 0);
    assert_eq!(ppu.tram_addr.0, (0b011 << 12) | (0b01110 << 5) | 0b10101);
}

#[test]
fn control_port_copies_the_nametable_bits() {
    let mut cart = plain_cart(true, 1);
    let mut ppu = Ppu::new();
    ppu.cpu_write(&mut cart, 0, 0x83);
    assert_eq!(ppu.control, PpuControl(0x83));
    assert!(ppu.control.enable_nmi());
    assert!(ppu.tram_addr.nametable_x() && ppu.tram_addr.nametable_y());
    assert_eq!(ppu.tram_addr.0, 0x0C00);
    ppu.cpu_write(&mut cart, 0, 0x01);
    assert_eq!(ppu.tram_addr.0, 0x0400);
}

#[test]
fn read_only_access_changes_nothing() {
    let cart = plain_cart(true, 1);
    let mut ppu = Ppu::new();
    ppu.status = Status(0xE0);
    ppu.control = PpuControl(0x12);
    ppu.mask = Mask(0x34);
    ppu.address_latch = 1;
    assert_eq!(ppu.cpu_read(&cart, 0, true), 0x12);
    assert_eq!(ppu.cpu_read(&cart, 1, true), 0x34);
    assert_eq!(ppu.cpu_read(&cart, 2, true), 0xE0);
    assert_eq!(ppu.cpu_read(&cart, 7, true), 0x00);
    assert_eq!(ppu.status, Status(0xE0));
    assert_eq!(ppu.address_latch, 1);
    assert_eq!(ppu.vram_addr.0, 0);
}

#[test]
fn vertical_mirroring_pairs_left_and_right() {
    let mut cart = plain_cart(true, 1);
    let mut ppu = Ppu::new();
    ppu.ppu_write(&mut cart, 0x2005, 0xA1);
    ppu.ppu_write(&mut cart, 0x2405, 0xB2);
    assert_eq!(ppu.ppu_read(&cart, 0x2805), 0xA1);
    assert_eq!(ppu.ppu_read(&cart, 0x2C05), 0xB2);
    assert_eq!(ppu.tbl_name[0][5], 0xA1);
    assert_eq!(ppu.tbl_name[1][5], 0xB2);
    assert_eq!(ppu.ppu_read(&cart, 0x6005), 0xA1);
}

#[test]
fn horizontal_mirroring_pairs_top_and_bottom() {
    let mut cart = plain_cart(false, 1);
    let mut ppu = Ppu::new();
    ppu.ppu_write(&mut cart, 0x2005, 0xA1);
    ppu.ppu_write(&mut cart, 0x2805, 0xB2);
    assert_eq!(ppu.ppu_read(&cart, 0x2405), 0xA1);
    assert_eq!(ppu.ppu_read(&cart, 0x2C05), 0xB2);
    assert_eq!(ppu.tbl_name[0][5], 0xA1);
    assert_eq!(ppu.tbl_name[1][5], 0xB2);
}

#[test]
fn sprite_backdrops_alias_the_background_ones() {
    let mut cart = plain_cart(true, 1);
    let mut ppu = Ppu::new();
    ppu.ppu_write(&mut cart, 0x3F10, 0x21);
    assert_eq!(ppu.ppu_read(&cart, 0x3F00), 0x21);
    ppu.ppu_write(&mut cart, 0x3F04, 0x15);
    assert_eq!(ppu.ppu_read(&cart, 0x3F14), 0x15);
    ppu.ppu_write(&mut cart, 0x3F1C, 0x09);
    assert_eq!(ppu.tbl_palette[0x0C], 0x09);
    ppu.ppu_write(&mut cart, 0x3F11, 0x3F);
    assert_eq!(ppu.tbl_palette[0x11], 0x3F);
    assert_eq!(ppu.ppu_read(&cart, 0x3F31), 0x3F);
    ppu.mask = Mask(0x01);
    assert_eq!(ppu.ppu_read(&cart, 0x3F11), 0x30);
}

#[test]
fn pattern_memory_is_the_cartridges_when_it_has_one() {
    let mut with_rom = plain_cart(true, 1);
    let mut ppu = Ppu::new();
    ppu.ppu_write(&mut with_rom, 0x0123, 0x77);
    assert_eq!(ppu.ppu_read(&with_rom, 0x0123), 0x00);
    assert_eq!(ppu.tbl_pattern[0][0x123], 0x77);
    let mut with_ram = plain_cart(true, 0);
    ppu.ppu_write(&mut with_ram, 0x1123, 0x77);
    assert_eq!(ppu.ppu_read(&with_ram, 0x1123), 0x77);
    assert_eq!(ppu.tbl_pattern[1][0x123], 0x00);
}

#[test]
fn colour_lookup_goes_through_palette_memory() {
    let mut cart = plain_cart(true, 1);
    let mut ppu = Ppu::new();
    ppu.ppu_write(&mut cart, 0x3F00 + 4 * 5 + 2, 0x16);
    assert_eq!(ppu.get_colour_from_pallet_ram(&cart, 5, 2), Color::from_rgba(152, 34, 32, 255));
    assert_eq!(ppu.get_colour_from_pallet_ram(&cart, 0, 0), Color::from_rgba(84, 84, 84, 255));
    ppu.ppu_write(&mut cart, 0x3F00, 0x30);
    assert_eq!(ppu.get_colour_from_pallet_ram(&cart, 0, 0), Color::from_rgba(236, 238, 236, 255));
}

#[test]
fn vertical_blank_begins_on_line_241_and_ends_on_the_pre_render_line() {
    let mut cart = plain_cart(true, 1);
    let mut ppu = Ppu::new();
    ppu.cpu_write(&mut cart, 0, 0x80);
    while !(ppu.scanline == 241 && ppu.cycle == 1) {
        ppu.clock(&mut cart);
        assert!(!ppu.status.vertical_blank());
        assert!(!ppu.nmi);
    }
    ppu.clock(&mut cart);
    assert!(ppu.status.vertical_blank());
    assert!(ppu.nmi);
    ppu.status.set_sprite_zero_hit(true);
    ppu.status.set_sprite_overflow(true);
    while !(ppu.scanline == -1 && ppu.cycle == 1) {
        assert!(ppu.status.vertical_blank());
        ppu.clock(&mut cart);
    }
    ppu.clock(&mut cart);
    assert_eq!(ppu.status, Status(0x00));
}

#[test]
fn no_interrupt_is_raised_unless_enabled() {
    let mut cart = plain_cart(true, 1);
    let mut ppu = Ppu::new();
    while !ppu.frame_complete {
        ppu.clock(&mut cart);
    }
    assert!(!ppu.nmi);
}

fn ticks_to_frame_end(ppu: &mut Ppu, cart: &mut Cartridge) -> u32 {
    let mut ticks = 0;
    ppu.frame_complete = false;
    while !ppu.frame_complete {
        ppu.clock(cart);
        ticks += 1;
        assert!(ppu.cycle >= 0 && ppu.cycle <= 340);
        assert!(ppu.scanline >= -1 && ppu.scanline <= 260);
        assert!(ppu.vram_addr.0 <= 0x7FFF);
        assert!(ppu.sprite_count <= 8);
    }
    ticks
}

#[test]
fn a_frame_takes_89342_ticks_without_rendering() {
    let mut cart = plain_cart(true, 1);
    let mut ppu = Ppu::new();
    assert_eq!(ticks_to_frame_end(&mut ppu, &mut cart), 89342 - 341);
    assert_eq!((ppu.scanline, ppu.cycle), (-1, 0));
    assert!(ppu.odd_frame);
    assert_eq!(ticks_to_frame_end(&mut ppu, &mut cart), 89342);
    assert!(!ppu.odd_frame);
    assert_eq!(ticks_to_frame_end(&mut ppu, &mut cart), 89342);
}

#[test]
fn an_odd_frame_is_one_tick_shorter_with_rendering() {
    let mut cart = plain_cart(true, 1);
    let mut ppu = Ppu::new();
    ppu.cpu_write(&mut cart, 1, 0x08);
    ticks_to_frame_end(&mut ppu, &mut cart);
    assert!(ppu.odd_frame);
    assert_eq!(ticks_to_frame_end(&mut ppu, &mut cart), 89341);
    assert!(!ppu.odd_frame);
    assert_eq!(ticks_to_frame_end(&mut ppu, &mut cart), 89342);
    assert_eq!(ticks_to_frame_end(&mut ppu, &mut cart), 89341);
}

#[test]
fn reset_clears_registers_and_keeps_memory() {
    let mut cart = plain_cart(true, 1);
    let mut ppu = Ppu::new();
    ppu.ppu_write(&mut cart, 0x2000, 0x42);
    ppu.cpu_write(&mut cart, 0, 0xFF);
    ppu.cpu_write(&mut cart, 1, 0xFF);
    ppu.cpu_write(&mut cart, 5, 0xFF);
    for _ in 0..1000 {
        ppu.clock(&mut cart);
    }
    ppu.oam[3].x = 9;
    ppu.reset();
    assert_eq!((ppu.scanline, ppu.cycle), (0, 0));
    assert_eq!((ppu.status.0, ppu.mask.0, ppu.control.0), (0, 0, 0));
    assert_eq!((ppu.vram_addr.0, ppu.tram_addr.0, ppu.fine_x, ppu.address_latch), (0, 0, 0, 0));
    assert!(!ppu.odd_frame);
    assert_eq!(ppu.tbl_name[0][0], 0x42);
    assert_eq!(ppu.oam[3].x, 9);
}

fn sprites_on_line(count: usize) -> Ppu {
    let mut ppu = Ppu::new();
    for entry in 0..64 {
        ppu.oam[entry] = ObjectAttributeEntry::new(if entry % 2 == 1 && entry / 2 < count { 50 } else { 0xF0 }, entry as u8, 0, entry as u8);
    }
    ppu
}

fn run_to(ppu: &mut Ppu, cart: &mut Cartridge, scanline: i16, cycle: i16) {
    while !(ppu.scanline == scanline && ppu.cycle == cycle) {
        ppu.clock(cart);
    }
}

#[test]
fn the_first_eight_sprites_on_a_line_are_selected() {
    let mut cart = plain_cart(true, 0);
    let mut ppu = sprites_on_line(8);
    ppu.cpu_write(&mut cart, 1, 0x18);
    run_to(&mut ppu, &mut cart, 52, 258);
    assert_eq!(ppu.sprite_count, 8);
    assert!(!ppu.status.sprite_overflow());
    for slot in 0..8 {
        assert_eq!(ppu.sprite_scanline[slot].id, (2 * slot + 1) as u8);
    }
    assert!(!ppu.sprite_zero_hit_possible);
}

#[test]
fn a_ninth_sprite_on_a_line_sets_overflow() {
    let mut cart = plain_cart(true, 0);
    let mut ppu = sprites_on_line(9);
    ppu.cpu_write(&mut cart, 1, 0x18);
    run_to(&mut ppu, &mut cart, 50, 258);
    assert_eq!(ppu.sprite_count, 8);
    assert!(ppu.status.sprite_overflow());
    assert_eq!(ppu.sprite_scanline[7].id, 15);
}

#[test]
fn unused_sprite_slots_hold_the_filler() {
    let mut cart = plain_cart(true, 0);
    let mut ppu = sprites_on_line(2);
    ppu.oam[0] = ObjectAttributeEntry::new(44, 7, 1, 2);
    ppu.cpu_write(&mut cart, 0, 0x20);
    ppu.cpu_write(&mut cart, 1, 0x18);
    run_to(&mut ppu, &mut cart, 58, 258);
    assert_eq!(ppu.sprite_count, 3);
    assert!(ppu.sprite_zero_hit_possible);
    assert_eq!(ppu.sprite_scanline[0], ObjectAttributeEntry::new(44, 7, 1, 2));
    assert_eq!(ppu.sprite_scanline[2].id, 3);
    assert_eq!(ppu.sprite_scanline[3], ObjectAttributeEntry::new(0xFF, 0xFF, 0xFF, 0xFF));
    run_to(&mut ppu, &mut cart, 60, 258);
    assert_eq!(ppu.sprite_count, 2);
    assert!(ppu.sprite_zero_hit_possible == false);
}

#[test]
fn sprite_patterns_are_fetched_flipped_when_asked() {
    let mut cart = plain_cart(true, 0);
    let mut ppu = Ppu::new();
    for row in 0..8u16 {
        ppu.ppu_write(&mut cart, 0x0020 + row, 0x01 << row);
        ppu.ppu_write(&mut cart, 0x0028 + row, 0xF0 | row as u8);
    }
    for entry in 0..64 {
        ppu.oam[entry].y = 0xF0;
    }
    ppu.oam[0] = ObjectAttributeEntry::new(30, 2, 0x00, 200);
    ppu.oam[1] = ObjectAttributeEntry::new(30, 2, 0x40, 200);
    ppu.oam[2] = ObjectAttributeEntry::new(30, 2, 0x80, 200);
    ppu.cpu_write(&mut cart, 1, 0x18);
    run_to(&mut ppu, &mut cart, 33, 0);
    assert_eq!(ppu.sprite_count, 3);
    assert_eq!(ppu.sprite_shifter_pattern_lo[0], 0x04);
    assert_eq!(ppu.sprite_shifter_pattern_hi[0], 0xF2);
    assert_eq!(ppu.sprite_shifter_pattern_lo[1], 0x20);
    assert_eq!(ppu.sprite_shifter_pattern_hi[1], 0x4F);
    assert_eq!(ppu.sprite_shifter_pattern_lo[2], 0x20);
    assert_eq!(ppu.sprite_shifter_pattern_hi[2], 0xF5);
}

#[test]
fn flip_byte_reverses_the_bits() {
    assert_eq!(flip_byte(0x01), 0x80);
    assert_eq!(flip_byte(0xF0), 0x0F);
    assert_eq!(flip_byte(0b1011_0010), 0b0100_1101);
    for b in 0..=255u8 {
        assert_eq!(flip_byte(flip_byte(b)), b);
        assert_eq!(flip_byte(b), b.reverse_bits());
    }
}

#[test]
fn background_pixels_reach_the_picture() {
    let mut cart = plain_cart(true, 0);
    let mut ppu = Ppu::new();
    for row in 0..8u16 {
        ppu.ppu_write(&mut cart, 0x0010 + row, 0xF0);
        ppu.ppu_write(&mut cart, 0x0018 + row, 0x3C);
    }
    for cell in 0..960u16 {
        ppu.ppu_write(&mut cart, 0x2000 + cell, 0x01);
    }
    for cell in 0..64u16 {
        ppu.ppu_write(&mut cart, 0x23C0 + cell, 0b10_01_11_00);
    }
    ppu.ppu_write(&mut cart, 0x3F00, 0x0F);
    ppu.ppu_write(&mut cart, 0x3F01, 0x01);
    ppu.ppu_write(&mut cart, 0x3F02, 0x02);
    ppu.ppu_write(&mut cart, 0x3F03, 0x03);
    ppu.ppu_write(&mut cart, 0x3F09, 0x11);
    ppu.ppu_write(&mut cart, 0x3F0F, 0x13);
    ppu.cpu_write(&mut cart, 1, 0x0A);
    while !ppu.frame_complete {
        ppu.clock(&mut cart);
    }
    ppu.frame_complete = false;
    while !ppu.frame_complete {
        ppu.clock(&mut cart);
    }
    let screen = nes_emulator::ppu::Debug::get_screen(&ppu);
    assert_eq!((screen.width(), screen.height()), (256, 240));
    assert_eq!(screen.get_pixel(0, 0), Color::from_rgba(0, 30, 116, 255));
    assert_eq!(screen.get_pixel(2, 0), Color::from_rgba(48, 0, 136, 255));
    assert_eq!(screen.get_pixel(4, 5), Color::from_rgba(8, 16, 144, 255));
    assert_eq!(screen.get_pixel(7, 5), Color::from_rgba(0, 0, 0, 255));
    assert_eq!(screen.get_pixel(16 + 2, 0), Color::from_rgba(92, 30, 228, 255));
    assert_eq!(screen.get_pixel(16 + 1, 16), Color::from_rgba(8, 76, 196, 255));
}

#[test]
fn pattern_table_picture_shows_every_tile() {
    let mut cart = plain_cart(true, 0);
    let mut ppu = Ppu::new();
    ppu.ppu_write(&mut cart, 0x1000 + 16 * 17 + 3, 0x80);
    ppu.ppu_write(&mut cart, 0x1000 + 16 * 17 + 3 + 8, 0x81);
    ppu.ppu_write(&mut cart, 0x3F00, 0x0F);
    ppu.ppu_write(&mut cart, 0x3F09, 0x01);
    ppu.ppu_write(&mut cart, 0x3F0A, 0x02);
    ppu.ppu_write(&mut cart, 0x3F0B, 0x03);
    let picture = nes_emulator::ppu::Debug::get_pattern_table(&mut ppu, 1, &2, &cart);
    assert_eq!((picture.width(), picture.height()), (128, 128));
    assert_eq!(picture.get_pixel(8, 11), Color::from_rgba(48, 0, 136, 255));
    assert_eq!(picture.get_pixel(15, 11), Color::from_rgba(8, 16, 144, 255));
    assert_eq!(picture.get_pixel(9, 11), Color::from_rgba(84, 84, 84, 255));
    assert_eq!(picture.get_pixel(8, 10), Color::from_rgba(84, 84, 84, 255));
    let other = nes_emulator::ppu::Debug::get_pattern_table(&mut ppu, 0, &2, &cart);
    assert_eq!(other.get_pixel(8, 11), Color::from_rgba(84, 84, 84, 255));
    assert_eq!(nes_emulator::ppu::Debug::get_name_table(&ppu, 1).width(), 256);
}

#[test]
fn scroll_register_fields() {
    let mut v = LoopyRegister(0);
    v.set_coarse_x(0x3F);
    assert_eq!(v.0, 0x001F);
    v.set_coarse_y(0x15);
    v.set_fine_y(0x0D);
    v.set_nametable_y(true);
    assert_eq!(v.0, 0x5800 | (0x15 << 5) | 0x1F);
    assert_eq!((v.coarse_x(), v.coarse_y(), v.fine_y()), (31, 21, 5));
    assert!(!v.nametable_x() && v.nametable_y());
    v.scroll_x();
    assert_eq!(v.coarse_x(), 0);
    assert!(v.nametable_x());
    v.scroll_x();
    assert_eq!(v.coarse_x(), 1);
    assert!(v.nametable_x());
}

#[test]
fn vertical_scroll_wraps_at_rows_29_and_31() {
    let mut v = LoopyRegister(0);
    v.set_fine_y(6);
    v.set_coarse_y(29);
    v.scroll_y();
    assert_eq!((v.fine_y(), v.coarse_y(), v.nametable_y()), (7, 29, false));
    v.scroll_y();
    assert_eq!((v.fine_y(), v.coarse_y(), v.nametable_y()), (0, 0, true));
    v.set_fine_y(7);
    v.set_coarse_y(31);
    v.scroll_y();
    assert_eq!((v.fine_y(), v.coarse_y(), v.nametable_y()), (0, 0, true));
    v.set_fine_y(7);
    v.set_coarse_y(5);
    v.scroll_y();
    assert_eq!((v.fine_y(), v.coarse_y(), v.nametable_y()), (0, 6, true));
    let mut t = LoopyRegister(0x7BEF);
    t.copy_x(LoopyRegister(0x0415));
    assert_eq!(t.0, 0x7FF5);
    t.copy_y(LoopyRegister(0x0000));
    assert_eq!(t.0, 0x0415);
}

#[test]
fn scroll_registers_move_only_while_rendering() {
    let mut cart = plain_cart(true, 1);
    let mut ppu = Ppu::new();
    ppu.tram_addr = LoopyRegister(0x1234);
    for _ in 0..(341 * 3) {
        ppu.clock(&mut cart);
    }
    assert_eq!(ppu.vram_addr.0, 0);
    ppu.cpu_write(&mut cart, 1, 0x08);
    run_to(&mut ppu, &mut cart, 10, 258);
    assert_eq!(ppu.vram_addr.coarse_x(), ppu.tram_addr.coarse_x());
    assert_eq!(ppu.vram_addr.nametable_x(), ppu.tram_addr.nametable_x());
    run_to(&mut ppu, &mut cart, -1, 305);
    assert_eq!(ppu.vram_addr.0, 0x1234);
}

#[test]
fn images_hold_what_is_set() {
    let mut image = Image::gen_image_color(4, 3, Color::from_rgba(1, 2, 3, 4));
    assert_eq!((image.width(), image.height()), (4, 3));
    assert_eq!(image.get_pixel(3, 2), Color::from_rgba(1, 2, 3, 4));
    image.set_pixel(3, 1, Color::from_rgba(9, 8, 7, 6));
    assert_eq!(image.get_pixel(3, 1), Color::from_rgba(9, 8, 7, 6));
    assert_eq!(image.get_pixel(3, 2), Color::from_rgba(1, 2, 3, 4));
    assert_eq!(image.get_pixel(0, 2), Color::from_rgba(1, 2, 3, 4));
    assert_eq!(image.get_pixel(2, 1), Color::from_rgba(1, 2, 3, 4));
}

#[test]
fn status_flags_are_the_top_three_bits() {
    let mut status = Status(0);
    status.set_vertical_blank(true);
    status.set_sprite_overflow(true);
    assert_eq!(status.0, 0xA0);
    status.set_sprite_zero_hit(true);
    status.set_vertical_blank(false);
    assert_eq!(status.0, 0x60);
    assert!(status.sprite_zero_hit() && status.sprite_overflow() && !status.vertical_blank());
    let mask = Mask(0b0001_0110);
    assert!(!mask.grayscale() && mask.render_background_left() && mask.render_sprites_left());
    assert!(!mask.render_background() && mask.render_sprites() && mask.rendering());
    let control = PpuControl(0b1010_1001);
    assert!(control.nametable_x() && !control.nametable_y() && !control.increment_mode());
    assert!(control.pattern_sprite() && !control.pattern_background() && control.sprite_size());
    assert!(control.enable_nmi());
}
