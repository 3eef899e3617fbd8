use nes_emulator::cartridge::{Cartridge, LoadError, MapperKind, Mirror};
use nes_emulator::mapper::{Mapper, HANDLED_INTERNALLY, RW};
use nes_emulator::mapper_000::Mapper000;
use nes_emulator::mapper_004::Mapper004;

/// An image whose program byte at each offset is the offset's bank number of 8 KiB
/// plus one, and whose character byte is its bank number of 1 KiB plus 0x80.
fn banked_image(mapper: u8, prg_banks: u8, chr_banks: u8, flags6_low: u8) -> Vec<u8> {
    let mut bytes = vec![0x4E, 0x45, 0x53, 0x1A, prg_banks, chr_banks];
    bytes.push(((mapper & 0x0F) << 4) | flags6_low);
    bytes.push(mapper & 0xF0);
    bytes.resize(16, 0);
    for offset in 0..prg_banks as usize * 16384 {
        bytes.push((offset / 8192) as u8 + 1);
    }
    for offset in 0..chr_banks as usize * 8192 {
        bytes.push((offset / 1024) as u8 + 0x80);
    }
    bytes
}

fn must_load(bytes: &[u8]) -> Cartridge {
    match Cartridge::new(bytes) {
        Ok(cart) => cart,
        Err(e) => panic!("image refused: {:?}", e),
    }
}

fn cpu_byte(cart: &Cartridge, addr: u16) -> Option<u8> {
    let mut data = 0xEE;
    if cart.cpu_read(addr, &mut data) {
        Some(data)
    } else {
        assert_eq!(data, 0xEE);
        None
    }
}

fn ppu_byte(cart: &Cartridge, addr: u16) -> Option<u8> {
    let mut data = 0xEE;
    if cart.ppu_read(addr, &mut data) {
        Some(data)
    } else {
        assert_eq!(data, 0xEE);
        None
    }
}

#[test]
fn header_fields_are_decoded() {
    let cart = must_load(&banked_image(4, 4, 2, 0b0001));
    assert_eq!((cart.prg_banks, cart.chr_banks), (4, 2));
    assert_eq!(cart.hw_mirror, Mirror::Vertical);
    assert!(matches!(cart.get_mapper(), MapperKind::Mmc3(_)));
    let cart = must_load(&banked_image(0, 1, 1, 0b0000));
    assert_eq!(cart.hw_mirror, Mirror::Horizontal);
    assert!(matches!(cart.get_mapper(), MapperKind::Nrom(_)));
    assert_eq!(cart.mirror(), Mirror::Horizontal);
}

#[test]
fn mapper_number_joins_two_nibbles() {
    let image = banked_image(0x42, 1, 1, 0);
    assert_eq!(image[6] & 0xF0, 0x20);
    assert_eq!(image[7] & 0xF0, 0x40);
    assert!(matches!(Cartridge::new(&image), Err(LoadError::UnsupportedMapper(0x42))));
    assert!(matches!(Cartridge::new(&banked_image(0x04, 1, 1, 0)), Ok(_)));
    assert!(matches!(Cartridge::new(&banked_image(0x40, 1, 1, 0)), Err(LoadError::UnsupportedMapper(0x40))));
}

#[test]
fn trainer_is_skipped() {
    let mut image = banked_image(0, 1, 1, 0b0100);
    let body = image.split_off(16);
    image.extend(std::iter::repeat(0xAA).take(512));
    image.extend(body);
    let cart = must_load(&image);
    assert_eq!(cpu_byte(&cart, 0x8000), Some(1));
    assert_eq!(cpu_byte(&cart, 0xBFFF), Some(2));
    assert_eq!(ppu_byte(&cart, 0x0000), Some(0x80));
    image.truncate(image.len() - 512);
    assert!(matches!(Cartridge::new(&image), Err(LoadError::InvalidImage)));
}

#[test]
fn extended_header_widens_the_bank_counts() {
    let mut image = banked_image(0, 2, 1, 0);
    image[7] |= 0x08;
    image[8] = 0x00;
    let cart = must_load(&image);
    assert_eq!((cart.prg_banks, cart.chr_banks), (2, 1));
    image[8] = 0x01;
    assert!(matches!(Cartridge::new(&image), Err(LoadError::InvalidImage)));
    image.resize(16 + 258 * 16384 + 8192, 0);
    let cart = must_load(&image);
    assert_eq!((cart.prg_banks, cart.chr_banks), (258, 1));
    image[8] = 0x08;
    let cart = must_load(&image);
    assert_eq!((cart.prg_banks, cart.chr_banks), (2, 257));
    image[8] = 0x3F;
    assert!(matches!(Cartridge::new(&image), Err(LoadError::InvalidImage)));
    image[7] = 0x04;
    let cart = must_load(&image);
    assert_eq!((cart.prg_banks, cart.chr_banks), (2, 1));
}

#[test]
fn images_shorter_than_announced_are_invalid() {
    let image = banked_image(0, 1, 1, 0);
    for length in [0, 15, 16, 16 + 16383, 16 + 16384, image.len() - 1] {
        assert!(matches!(Cartridge::new(&image[..length]), Err(LoadError::InvalidImage)), "length {}", length);
    }
    assert!(Cartridge::new(&image).is_ok());
    let mut longer = image.clone();
    longer.push(0);
    assert!(Cartridge::new(&longer).is_ok());
}

#[test]
fn a_cartridge_without_character_banks_gets_ram() {
    let mut cart = must_load(&banked_image(0, 1, 0, 0));
    assert_eq!(cart.chr_banks, 0);
    assert_eq!(ppu_byte(&cart, 0x1FFF), Some(0));
    assert!(cart.ppu_write(0x1FFF, 0x5A));
    assert_eq!(ppu_byte(&cart, 0x1FFF), Some(0x5A));
    assert!(!cart.ppu_write(0x2000, 0x5A));
    assert_eq!(ppu_byte(&cart, 0x2000), None);
}

#[test]
fn character_rom_is_not_written() {
    let mut cart = must_load(&banked_image(0, 1, 1, 0));
    assert!(!cart.ppu_write(0x0005, 0x5A));
    assert_eq!(ppu_byte(&cart, 0x0005), Some(0x80));
    assert_eq!(ppu_byte(&cart, 0x1C05), Some(0x87));
}

#[test]
fn nrom_with_two_banks_maps_them_in_order() {
    let mut cart = must_load(&banked_image(0, 2, 1, 0));
    assert_eq!(cpu_byte(&cart, 0x7FFF), None);
    assert_eq!(cpu_byte(&cart, 0x8000), Some(1));
    assert_eq!(cpu_byte(&cart, 0xA000), Some(2));
    assert_eq!(cpu_byte(&cart, 0xC000), Some(3));
    assert_eq!(cpu_byte(&cart, 0xFFFF), Some(4));
    assert!(cart.cpu_write(0xC000, 0x99));
    assert_eq!(cpu_byte(&cart, 0xC000), Some(0x99));
    assert!(!cart.cpu_write(0x4020, 0x99));
    assert!(!cart.irq_state());
    cart.scanline();
    cart.irq_clear();
    cart.reset();
    assert_eq!(cpu_byte(&cart, 0xC000), Some(0x99));
}

#[test]
fn nrom_mapping_by_itself() {
    let one = Mapper000::new(1, 1);
    let two = Mapper000::new(2, 0);
    let mut mapped = 7;
    let mut data = 9;
    assert!(one.cpu_map_read(0xC123, &mut mapped, &mut data));
    assert_eq!((mapped, data), (0x0123, 9));
    assert!(two.cpu_map_read(0xC123, &mut mapped, &mut data));
    assert_eq!(mapped, 0x4123);
    mapped = 7;
    assert!(!two.cpu_map_read(0x7FFF, &mut mapped, &mut data));
    assert_eq!(mapped, 7);
    assert!(one.ppu_map_read(0x1ABC, &mut mapped));
    assert_eq!(mapped, 0x1ABC);
    assert!(!one.ppu_map_read(0x2000, &mut mapped));
    assert_eq!(one.mirror(), Mirror::Hardware);
    assert_eq!(Mapper::new(3, 4).prg_banks, 3);
    assert_eq!(Mapper::new(3, 4).chr_banks, 4);
}

#[test]
fn mmc3_starts_with_the_first_two_and_last_two_banks() {
    let cart = must_load(&banked_image(4, 4, 1, 0));
    assert_eq!(cpu_byte(&cart, 0x8000), Some(1));
    assert_eq!(cpu_byte(&cart, 0xA000), Some(2));
    assert_eq!(cpu_byte(&cart, 0xC000), Some(7));
    assert_eq!(cpu_byte(&cart, 0xE000), Some(8));
    assert_eq!(cpu_byte(&cart, 0x5FFF), None);
    assert_eq!(cart.mirror(), Mirror::Horizontal);
}

#[test]
fn mmc3_bank_mode_swaps_the_first_and_third_window() {
    let mut cart = must_load(&banked_image(4, 4, 1, 0));
    cart.cpu_write(0x8000, 0x06);
    cart.cpu_write(0x8001, 0x03);
    cart.cpu_write(0x8000, 0x07);
    cart.cpu_write(0x8001, 0x05);
    assert_eq!(cpu_byte(&cart, 0x8000), Some(4));
    assert_eq!(cpu_byte(&cart, 0xA000), Some(6));
    assert_eq!(cpu_byte(&cart, 0xC000), Some(7));
    assert_eq!(cpu_byte(&cart, 0xE000), Some(8));
    cart.cpu_write(0x8000, 0x46);
    assert_eq!(cpu_byte(&cart, 0x8000), Some(7));
    assert_eq!(cpu_byte(&cart, 0xC000), Some(4));
    assert_eq!(cpu_byte(&cart, 0xA000), Some(6));
    cart.cpu_write(0x8001, 0x0A);
    assert_eq!(cpu_byte(&cart, 0xC000), Some(3));
}

#[test]
fn mmc3_character_windows_follow_the_registers() {
    let mut cart = must_load(&banked_image(4, 2, 2, 0));
    for (register, bank) in [(0u8, 5u8), (1, 8), (2, 1), (3, 2), (4, 3), (5, 15)] {
        cart.cpu_write(0x8000, register);
        cart.cpu_write(0x8001, bank);
    }
    let windows: Vec<Option<u8>> = (0..8).map(|w| ppu_byte(&cart, w * 0x400 + 0x3FF)).collect();
    let banks = |list: [u8; 8]| list.iter().map(|b| Some(0x80 + b)).collect::<Vec<_>>();
    assert_eq!(windows, banks([4, 5, 8, 9, 1, 2, 3, 15]));
    cart.cpu_write(0x8000, 0x80);
    let windows: Vec<Option<u8>> = (0..8).map(|w| ppu_byte(&cart, w * 0x400)).collect();
    assert_eq!(windows, banks([1, 2, 3, 15, 4, 5, 8, 9]));
    assert_eq!(ppu_byte(&cart, 0x2000), None);
    assert!(!cart.ppu_write(0x0000, 1));
}

#[test]
fn mmc3_work_ram_answers_between_6000_and_7fff() {
    let mut cart = must_load(&banked_image(4, 2, 1, 0));
    assert_eq!(cpu_byte(&cart, 0x6000), Some(0));
    assert!(cart.cpu_write(0x6000, 0x12));
    assert!(cart.cpu_write(0x7FFF, 0x34));
    assert_eq!(cpu_byte(&cart, 0x6000), Some(0x12));
    assert_eq!(cpu_byte(&cart, 0x7FFF), Some(0x34));
    assert_eq!(cpu_byte(&cart, 0x8000), Some(1));
    cart.reset();
    assert_eq!(cpu_byte(&cart, 0x6000), Some(0x12));
    let mut mapper = Mapper004::new(2, 1);
    let mut mapped = 0;
    assert!(mapper.cpu_map_write(0x6ABC, &mut mapped, &0x77));
    assert_eq!(mapped, HANDLED_INTERNALLY);
    assert_eq!(mapper.ram_static[0x0ABC], 0x77);
    let mut data = 0;
    assert!(mapper.cpu_map_read(0x6ABC, &mut mapped, &mut data));
    assert_eq!((mapped, data), (HANDLED_INTERNALLY, 0x77));
}

#[test]
fn mmc3_mirroring_register() {
    let mut cart = must_load(&banked_image(4, 2, 1, 1));
    assert_eq!(cart.hw_mirror, Mirror::Vertical);
    assert_eq!(cart.mirror(), Mirror::Horizontal);
    cart.cpu_write(0xA000, 0x00);
    assert_eq!(cart.mirror(), Mirror::Vertical);
    cart.cpu_write(0xA001, 0x01);
    assert_eq!(cart.mirror(), Mirror::Vertical);
    cart.cpu_write(0xBFFE, 0x01);
    assert_eq!(cart.mirror(), Mirror::Horizontal);
}

#[test]
fn mmc3_counts_scanlines_down_to_an_interrupt() {
    let mut cart = must_load(&banked_image(4, 2, 1, 0));
    cart.cpu_write(0xC000, 3);
    cart.cpu_write(0xC001, 0);
    cart.cpu_write(0xE001, 0);
    let mut raised_after = Vec::new();
    for line in 1..=9 {
        cart.scanline();
        if cart.irq_state() {
            raised_after.push(line);
            cart.irq_clear();
        }
    }
    assert_eq!(raised_after, vec![4, 8]);
    cart.cpu_write(0xE000, 0);
    for _ in 0..8 {
        cart.scanline();
    }
    assert!(!cart.irq_state());
}

#[test]
fn mmc3_disabling_interrupts_acknowledges_a_pending_one() {
    let mut mapper = Mapper004::new(2, 1);
    let mut mapped = 0;
    mapper.cpu_map_write(0xE001, &mut mapped, &0);
    mapper.scanline();
    assert!(mapper.irq_state());
    assert!(!mapper.cpu_map_write(0xE000, &mut mapped, &0));
    assert!(!mapper.irq_state());
    assert!(!mapper.irq_enable);
    assert_eq!(mapped, 0);
}

#[test]
fn reads_past_the_end_of_memory_give_zero() {
    let mut cart = must_load(&banked_image(4, 1, 1, 0));
    cart.cpu_write(0x8000, 0x06);
    cart.cpu_write(0x8001, 0xFF);
    cart.cpu_write(0x8000, 0x02);
    cart.cpu_write(0x8001, 0x40);
    assert_eq!(cpu_byte(&cart, 0xE000), Some(2));
    assert_eq!(cpu_byte(&cart, 0x8000), Some(2));
    assert_eq!(ppu_byte(&cart, 0x1000), Some(0));
    let mut empty = must_load(&banked_image(4, 0, 1, 0));
    assert_eq!(cpu_byte(&empty, 0x8000), Some(0));
    assert_eq!(cpu_byte(&empty, 0xE000), Some(0));
    assert!(!empty.cpu_write(0x8001, 0x01));
    assert_eq!(cpu_byte(&empty, 0xFFFF), Some(0));
}
