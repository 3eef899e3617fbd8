use nes_emulator::bus::Bus;
use nes_emulator::cartridge::Cartridge;
use nes_emulator::cpu::Cpu;
use nes_emulator::ppu::Ppu;

struct Parts {
    cpu: Cpu,
    bus: Bus,
    ppu: Ppu,
    cart: Cartridge,
}

/// A console whose program is an endless loop at 0x8000, with the interrupt handler
/// at 0x9000 and the non-maskable one at 0xA000, both endless loops too.
fn looping_console(mapper: u8) -> Parts {
    let mut bytes = vec![0x4E, 0x45, 0x53, 0x1A, 2, 1, (mapper & 0x0F) << 4, mapper & 0xF0];
    bytes.resize(16 + 2 * 16384 + 8192, 0xEA);
    bytes[16..19].copy_from_slice(&[0x4C, 0x00, 0x80]);
    bytes[16 + 0x1000..16 + 0x1003].copy_from_slice(&[0x4C, 0x00, 0x90]);
    bytes[16 + 0x2000..16 + 0x2003].copy_from_slice(&[0x4C, 0x00, 0xA0]);
    bytes[16 + 0x7FFA..16 + 0x8000].copy_from_slice(&[0x00, 0xA0, 0x00, 0x80, 0x00, 0x90]);
    let cart = match Cartridge::new(&bytes) {
        Ok(cart) => cart,
        Err(e) => panic!("image refused: {:?}", e),
    };
    let mut parts = Parts { cpu: Cpu::new(), bus: Bus::new(), ppu: Ppu::new(), cart };
    parts.bus.reset(&mut parts.cpu, &mut parts.ppu, &mut parts.cart);
    parts
}

fn tick(parts: &mut Parts) {
    parts.bus.clock(&mut parts.cpu, &mut parts.ppu, &mut parts.cart);
}

#[test]
fn ram_is_mirrored_every_two_kilobytes() {
    let mut parts = looping_console(0);
    parts.bus.cpu_write(&mut parts.ppu, &mut parts.cart, 0x0005, 0x11);
    for addr in [0x0005u16, 0x0805, 0x1005, 0x1805] {
        assert_eq!(parts.bus.cpu_read(&mut parts.ppu, &parts.cart, addr, false), 0x11);
    }
    parts.bus.cpu_write(&mut parts.ppu, &mut parts.cart, 0x1FFF, 0x22);
    assert_eq!(parts.bus.cpu_ram[0x07FF], 0x22);
    assert_eq!(parts.bus.cpu_read(&mut parts.ppu, &parts.cart, 0x5000, false), 0x00);
}

#[test]
fn ppu_registers_are_mirrored_every_eight_bytes() {
    let mut parts = looping_console(0);
    parts.bus.cpu_write(&mut parts.ppu, &mut parts.cart, 0x2001, 0x1E);
    assert_eq!(parts.ppu.mask.0, 0x1E);
    parts.bus.cpu_write(&mut parts.ppu, &mut parts.cart, 0x3FF9, 0x08);
    assert_eq!(parts.ppu.mask.0, 0x08);
    parts.ppu.status.0 = 0xE0;
    assert_eq!(parts.bus.cpu_read(&mut parts.ppu, &parts.cart, 0x200A, true), 0xE0);
    assert_eq!(parts.bus.cpu_read(&mut parts.ppu, &parts.cart, 0x3FFA, false), 0xE0);
    assert_eq!(parts.ppu.status.0, 0x60);
}

#[test]
fn the_cartridge_is_asked_first() {
    let mut parts = looping_console(0);
    assert_eq!(parts.bus.cpu_read(&mut parts.ppu, &parts.cart, 0x8000, false), 0x4C);
    parts.bus.cpu_write(&mut parts.ppu, &mut parts.cart, 0x8000, 0x77);
    assert_eq!(parts.bus.cpu_read(&mut parts.ppu, &parts.cart, 0x8000, false), 0x77);
    assert_eq!(parts.bus.cpu_ram[0], 0x00);
}

#[test]
fn controller_is_latched_on_write_and_shifted_on_read() {
    let mut parts = looping_console(0);
    parts.bus.controller[0] = 0b1010_0001;
    parts.bus.controller[1] = 0b0100_0000;
    assert_eq!(parts.bus.cpu_read(&mut parts.ppu, &parts.cart, 0x4016, false), 0);
    parts.bus.cpu_write(&mut parts.ppu, &mut parts.cart, 0x4016, 0x01);
    parts.bus.cpu_write(&mut parts.ppu, &mut parts.cart, 0x4017, 0x01);
    parts.bus.controller[0] = 0;
    let first: Vec<u8> = (0..9).map(|_| parts.bus.cpu_read(&mut parts.ppu, &parts.cart, 0x4016, false)).collect();
    assert_eq!(first, vec![1, 0, 1, 0, 0, 0, 0, 1, 0]);
    let second: Vec<u8> = (0..3).map(|_| parts.bus.cpu_read(&mut parts.ppu, &parts.cart, 0x4017, false)).collect();
    assert_eq!(second, vec![0, 1, 0]);
}

#[test]
fn the_processor_runs_every_third_tick() {
    let mut parts = looping_console(0);
    let before = parts.cpu.clock_count;
    for _ in 0..30 {
        tick(&mut parts);
    }
    assert_eq!(parts.cpu.clock_count - before, 10);
    assert_eq!(parts.bus.system_clock_counter, 30);
    assert_eq!((parts.ppu.scanline, parts.ppu.cycle), (0, 30));
}

#[test]
fn reset_restarts_the_whole_console() {
    let mut parts = looping_console(4);
    for _ in 0..1000 {
        tick(&mut parts);
    }
    parts.bus.cpu_write(&mut parts.ppu, &mut parts.cart, 0x4014, 0x02);
    parts.bus.cpu_write(&mut parts.ppu, &mut parts.cart, 0x8000, 0x46);
    parts.bus.cpu_write(&mut parts.ppu, &mut parts.cart, 0x0010, 0x99);
    parts.bus.reset(&mut parts.cpu, &mut parts.ppu, &mut parts.cart);
    assert_eq!(parts.bus.system_clock_counter, 0);
    assert!(!parts.bus.dma_transfer);
    assert!(parts.bus.dma_dummy);
    assert_eq!(parts.cpu.pc, 0x8000);
    assert_eq!((parts.ppu.scanline, parts.ppu.cycle), (0, 0));
    assert_eq!(parts.bus.cpu_ram[0x0010], 0x99);
    assert_eq!(parts.bus.cpu_read(&mut parts.ppu, &parts.cart, 0x8000, false), 0x4C);
}

/// Starts a transfer of page 2 before the processor's next cycle falls on a tick of
/// the given parity, and returns how many processor cycles it took.
fn dma_cycles(odd_start: bool) -> (u32, Parts) {
    let mut parts = looping_console(0);
    for i in 0..256usize {
        parts.bus.cpu_ram[0x0200 + i] = (i as u8) ^ 0xA5;
    }
    while parts.bus.system_clock_counter % 3 != 0 || (parts.bus.system_clock_counter % 2 == 1) != odd_start {
        tick(&mut parts);
    }
    parts.bus.cpu_write(&mut parts.ppu, &mut parts.cart, 0x4014, 0x02);
    assert!(parts.bus.dma_transfer);
    assert_eq!(parts.ppu.oam[0].y, 0);
    let held = parts.cpu.clock_count;
    let mut cycles = 0;
    while parts.bus.dma_transfer {
        let phase = parts.bus.system_clock_counter % 3 == 0;
        tick(&mut parts);
        if phase {
            cycles += 1;
        }
    }
    assert_eq!(parts.cpu.clock_count, held);
    (cycles, parts)
}

#[test]
fn sprite_dma_takes_513_cycles_from_an_odd_tick() {
    let (cycles, parts) = dma_cycles(true);
    assert_eq!(cycles, 513);
    for i in 0..64usize {
        let base = (4 * i) as u8;
        assert_eq!(parts.ppu.oam[i].y, base ^ 0xA5);
        assert_eq!(parts.ppu.oam[i].id, (base + 1) ^ 0xA5);
        assert_eq!(parts.ppu.oam[i].attribute, (base + 2) ^ 0xA5);
        assert_eq!(parts.ppu.oam[i].x, (base + 3) ^ 0xA5);
    }
    assert!(parts.bus.dma_dummy);
}

#[test]
fn sprite_dma_takes_514_cycles_from_an_even_tick() {
    let (cycles, parts) = dma_cycles(false);
    assert_eq!(cycles, 514);
    assert_eq!(parts.ppu.oam[63].x, 0xFF ^ 0xA5);
}

#[test]
fn vertical_blank_interrupt_reaches_the_processor() {
    let mut parts = looping_console(0);
    parts.bus.cpu_write(&mut parts.ppu, &mut parts.cart, 0x2000, 0x80);
    while !(parts.ppu.scanline == 241 && parts.ppu.cycle == 1) {
        tick(&mut parts);
        assert!(parts.cpu.pc < 0xA000);
    }
    tick(&mut parts);
    assert!(!parts.ppu.nmi);
    assert_eq!(parts.cpu.pc, 0xA000);
    assert_eq!(parts.cpu.stkp, 0xFA);
}

#[test]
fn mapper_interrupt_reaches_the_processor() {
    let mut parts = looping_console(4);
    parts.bus.cpu_write(&mut parts.ppu, &mut parts.cart, 0xC000, 5);
    parts.bus.cpu_write(&mut parts.ppu, &mut parts.cart, 0xC001, 0);
    parts.bus.cpu_write(&mut parts.ppu, &mut parts.cart, 0xE001, 0);
    parts.bus.cpu_write(&mut parts.ppu, &mut parts.cart, 0x2001, 0x08);
    parts.cpu.status &= !0x04;
    let mut entered_at = None;
    for _ in 0..(341 * 10) {
        tick(&mut parts);
        if entered_at.is_none() && parts.cpu.pc >= 0x9000 && parts.cpu.pc < 0xA000 {
            entered_at = Some((parts.ppu.scanline, parts.ppu.cycle));
        }
    }
    assert_eq!(entered_at, Some((5, 260)));
    assert!(!parts.cart.irq_state());
}

#[test]
fn mapper_is_not_clocked_without_rendering() {
    let mut parts = looping_console(4);
    parts.bus.cpu_write(&mut parts.ppu, &mut parts.cart, 0xC000, 1);
    parts.bus.cpu_write(&mut parts.ppu, &mut parts.cart, 0xE001, 0);
    parts.cpu.status &= !0x04;
    for _ in 0..(341 * 10) {
        tick(&mut parts);
    }
    assert!(parts.cpu.pc < 0x9000);
}
