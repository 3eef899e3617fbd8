use nes_emulator::bus::Bus;
use nes_emulator::cartridge::{Cartridge, LoadError, Mirror};
use nes_emulator::cpu::Cpu;
use nes_emulator::ppu::Ppu;

/// Builds a ROM image: header, program banks, character banks.
fn image(mapper: u8, prg_banks: u8, chr_banks: u8, flags6_low: u8, prg: &[(usize, u8)]) -> Vec<u8> {
    let mut bytes = vec![0x4E, 0x45, 0x53, 0x1A, prg_banks, chr_banks];
    bytes.push(((mapper & 0x0F) << 4) | flags6_low);
    bytes.push(mapper & 0xF0);
    bytes.resize(16, 0);
    let prg_len = prg_banks as usize * 16384;
    let start = bytes.len();
    bytes.resize(start + prg_len + chr_banks as usize * 8192, 0);
    for (offset, value) in prg {
        bytes[start + offset] = *value;
    }
    bytes
}

fn load(bytes: &[u8]) -> Cartridge {
    match Cartridge::new(bytes) {
        Ok(cart) => cart,
        Err(e) => panic!("image refused: {:?}", e),
    }
}

#[test]
fn multiply_program_leaves_its_results_in_ram() {
    let program: [u8; 28] = [
        0xA2, 0x0A, 0x8E, 0x00, 0x00, 0xA2, 0x03, 0x8E, 0x01, 0x00, 0xAC, 0x00, 0x00, 0xA9, 0x00, 0x18, 0x6D,
        0x01, 0x00, 0x88, 0xD0, 0xFA, 0x8D, 0x02, 0x00, 0xEA, 0xEA, 0xEA,
    ];
    let mut prg: Vec<(usize, u8)> = program.iter().enumerate().map(|(i, b)| (i, *b)).collect();
    prg.push((0x3FFC, 0x00));
    prg.push((0x3FFD, 0x80));
    let mut cart = load(&image(0, 1, 1, 0, &prg));
    let mut bus = Bus::new();
    let mut cpu = Cpu::new();
    let mut ppu = Ppu::new();
    bus.reset(&mut cpu, &mut ppu, &mut cart);
    assert_eq!(cpu.pc, 0x8000);
    let mut ticks = 0;
    while !(cpu.pc == 0x801C && cpu.complete()) {
        bus.clock(&mut cpu, &mut ppu, &mut cart);
        ticks += 1;
        assert!(ticks < 10_000, "the program did not finish");
    }
    assert_eq!(bus.cpu_ram[0x0000], 10);
    assert_eq!(bus.cpu_ram[0x0001], 3);
    assert_eq!(bus.cpu_ram[0x0002], 30);
    assert_eq!(cpu.a, 30);
    assert_eq!(cpu.status & 0x20, 0x20);
}

#[test]
fn status_read_clears_vertical_blank_and_the_latch() {
    let cart = load(&image(0, 1, 1, 0, &[]));
    let mut ppu = Ppu::new();
    ppu.status.0 = 0x80;
    ppu.address_latch = 1;
    ppu.data_buffer = 0x15;
    let first = ppu.cpu_read(&cart, 0x0002, false);
    assert_eq!(first & 0x80, 0x80);
    assert_eq!(first, 0x80 | 0x15);
    assert_eq!(ppu.address_latch, 0);
    let second = ppu.cpu_read(&cart, 0x0002, false);
    assert_eq!(second & 0x80, 0x00);
}

#[test]
fn single_bank_nrom_mirrors_its_program_memory() {
    let cart = load(&image(0, 1, 1, 0, &[(0x0000, 0x5A), (0x1234, 0xC3)]));
    let mut low: u8 = 0;
    let mut high: u8 = 0;
    assert!(cart.cpu_read(0x8000, &mut low));
    assert!(cart.cpu_read(0xC000, &mut high));
    assert_eq!(low, 0x5A);
    assert_eq!(low, high);
    assert!(cart.cpu_read(0x9234, &mut low));
    assert!(cart.cpu_read(0xD234, &mut high));
    assert_eq!((low, high), (0xC3, 0xC3));
}

#[test]
fn mmc3_register_six_selects_the_first_window() {
    let mut cart = load(&image(4, 2, 1, 0, &[(0x0000, 0x11), (0x2000, 0x22), (0x4000, 0x33), (0x6000, 0x44)]));
    let mut data: u8 = 0;
    assert!(!cart.cpu_write(0x8000, 0x06));
    assert!(!cart.cpu_write(0x8001, 0x00));
    assert!(cart.cpu_read(0x8000, &mut data));
    assert_eq!(data, 0x11);
    assert!(!cart.cpu_write(0x8000, 0x06));
    assert!(!cart.cpu_write(0x8001, 0x01));
    assert!(cart.cpu_read(0x8000, &mut data));
    assert_eq!(data, 0x22);
    assert!(cart.cpu_read(0xC000, &mut data));
    assert_eq!(data, 0x33);
    assert!(cart.cpu_read(0xE000, &mut data));
    assert_eq!(data, 0x44);
}

#[test]
fn sprite_zero_hit_is_set_on_its_scanline() {
    let mut cart = load(&image(0, 1, 0, 0, &[]));
    let mut ppu = Ppu::new();
    for row in 0..8u16 {
        ppu.ppu_write(&mut cart, 0x0010 + row, 0xFF);
    }
    for cell in 0..960u16 {
        ppu.ppu_write(&mut cart, 0x2000 + cell, 0x01);
    }
    ppu.oam[0].y = 19;
    ppu.oam[0].id = 1;
    ppu.oam[0].attribute = 0;
    ppu.oam[0].x = 10;
    for entry in 1..64 {
        ppu.oam[entry].y = 0xF0;
    }
    ppu.cpu_write(&mut cart, 0x0001, 0x1E);
    while !ppu.frame_complete {
        ppu.clock(&mut cart);
    }
    ppu.frame_complete = false;
    while ppu.scanline != 20 {
        ppu.clock(&mut cart);
    }
    assert!(!ppu.status.sprite_zero_hit());
    let mut hit_at = None;
    while ppu.scanline == 20 {
        let cycle = ppu.cycle;
        ppu.clock(&mut cart);
        if hit_at.is_none() && ppu.status.sprite_zero_hit() {
            hit_at = Some(cycle);
        }
    }
    assert_eq!(hit_at, Some(11));
    assert!(ppu.status.sprite_zero_hit());
}

#[test]
fn short_and_unknown_images_are_refused() {
    assert!(matches!(Cartridge::new(&[0x4E, 0x45, 0x53]), Err(LoadError::InvalidImage)));
    let mut bytes = image(0, 1, 1, 0, &[]);
    bytes.pop();
    assert!(matches!(Cartridge::new(&bytes), Err(LoadError::InvalidImage)));
    let bytes = image(1, 1, 1, 0, &[]);
    assert!(matches!(Cartridge::new(&bytes), Err(LoadError::UnsupportedMapper(1))));
    let cart = load(&image(0, 2, 1, 1, &[]));
    assert_eq!(cart.mirror(), Mirror::Vertical);
    assert_eq!(cart.prg_banks, 2);
    assert!(cart.image_valid);
}
