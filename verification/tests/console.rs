use nes_emulator::cartridge::LoadError;
use nes_emulator::emulator::Emulator;

/// A console whose program is `program` at 0x8000, with the interrupt handlers at
/// 0x9000 and 0xA000, after a reset.
fn started(program: &[u8]) -> Emulator {
    let mut bytes = vec![0x4E, 0x45, 0x53, 0x1A, 2, 1, 0, 0];
    bytes.resize(16 + 2 * 16384 + 8192, 0xEA);
    bytes[16..16 + program.len()].copy_from_slice(program);
    bytes[16 + 0x7FFA..16 + 0x8000].copy_from_slice(&[0x00, 0xA0, 0x00, 0x80, 0x00, 0x90]);
    let mut console = match Emulator::new(&bytes) {
        Ok(console) => console,
        Err(e) => panic!("image refused: {:?}", e),
    };
    assert!(console.is_settled());
    console.reset();
    console
}

#[test]
fn a_console_is_built_from_an_image_or_not_at_all() {
    assert!(matches!(Emulator::new(&[]), Err(LoadError::InvalidImage)));
    let mut bytes = vec![0x4E, 0x45, 0x53, 0x1A, 1, 1, 0x30, 0];
    bytes.resize(16 + 16384 + 8192, 0);
    assert!(matches!(Emulator::new(&bytes), Err(LoadError::UnsupportedMapper(3))));
    bytes[6] = 0;
    let console = match Emulator::new(&bytes) {
        Ok(console) => console,
        Err(e) => panic!("image refused: {:?}", e),
    };
    assert_eq!(console.cpu.pc, 0);
    assert_eq!(console.bus.system_clock_counter, 0);
    assert!(!console.bus.dma_dummy);
    assert_eq!((console.ppu.scanline, console.ppu.cycle), (0, 0));
}

#[test]
fn stepping_an_instruction_runs_it_to_its_end() {
    let mut console = started(&[0xA9, 0x05, 0x8D, 0x00, 0x02, 0xEA]);
    assert_eq!(console.cpu.cycles, 8);
    assert_eq!(console.step_instruction(), (0, 22));
    assert_eq!(console.cpu.pc, 0x8000);
    assert_eq!(console.step_instruction(), (3, 3));
    assert_eq!((console.cpu.pc, console.cpu.a), (0x8002, 0x05));
    assert_eq!(console.step_instruction(), (3, 9));
    assert_eq!(console.bus.cpu_ram[0x0200], 0x05);
    assert_eq!(console.step_instruction(), (3, 3));
    assert_eq!(console.cpu.pc, 0x8006);
    assert_eq!(console.bus.system_clock_counter, 46);
    assert!(console.is_settled());
}

#[test]
fn an_instruction_begins_on_the_processors_next_cycle() {
    let mut console = started(&[0xEA, 0xEA]);
    assert_eq!(console.begin_instruction(), 0);
    assert_eq!(console.finish_instruction(), 22);
    assert_eq!(console.finish_instruction(), 0);
    console.clock();
    assert_eq!(console.begin_instruction(), 2);
    assert_eq!(console.cpu.pc, 0x8001);
    assert_eq!(console.cpu.cycles, 1);
    assert_eq!(console.begin_instruction(), 0);
    assert_eq!(console.finish_instruction(), 3);
    assert_eq!(console.cpu.cycles, 0);
}

#[test]
fn stepping_an_instruction_waits_for_a_transfer_it_starts() {
    let mut console = started(&[0xA9, 0x02, 0x8D, 0x14, 0x40, 0xEA]);
    console.step_instruction();
    console.step_instruction();
    for i in 0..256usize {
        console.bus.cpu_ram[0x0200 + i] = i as u8;
    }
    let (begun, ran) = console.step_instruction();
    assert!(!console.bus.dma_transfer);
    assert_eq!(console.ppu.oam[63].x, 0xFF);
    assert_eq!(console.cpu.pc, 0x8005);
    assert_eq!(begun, 3);
    assert!(ran == 3 * (3 + 513) || ran == 3 * (3 + 514), "took {}", ran);
    assert_eq!(console.step_instruction(), (3, 3));
}

#[test]
fn a_transfer_under_way_delays_the_next_instruction() {
    let mut console = started(&[0xEA, 0xEA]);
    console.step_instruction();
    console.bus.cpu_write(&mut console.ppu, &mut console.cart, 0x4014, 0x03);
    let begun = console.begin_instruction();
    assert!(begun == 3 * 513 + 3 || begun == 3 * 514 + 3, "took {}", begun);
    assert_eq!(console.cpu.pc, 0x8001);
    assert_eq!(console.finish_instruction(), 3);
}

#[test]
fn stepping_an_instruction_takes_an_interrupt_that_falls_into_it() {
    let mut console = started(&[0xA9, 0x80, 0x8D, 0x00, 0x20, 0x4C, 0x05, 0x80]);
    console.step_instruction();
    console.step_instruction();
    console.step_instruction();
    assert!(console.ppu.control.enable_nmi());
    let mut steps = 0;
    while console.cpu.pc < 0xA000 {
        let (begun, ran) = console.step_instruction();
        steps += 1;
        assert!(steps < 100_000);
        if console.cpu.pc >= 0xA000 {
            assert!(begun + ran > 9 && begun + ran <= 9 + 27, "took {} and {}", begun, ran);
        } else {
            assert_eq!((begun, ran), (3, 6));
        }
    }
    assert_eq!(console.cpu.pc, 0xA000);
    assert_eq!(console.cpu.cycles, 0);
    assert_eq!(console.ppu.scanline, 241);
    assert_eq!(console.cpu.stkp, 0xFA);
}

#[test]
fn stepping_a_frame_stops_at_its_end() {
    let mut console = started(&[0x4C, 0x00, 0x80]);
    assert_eq!(console.step_frame(), 89342 - 341);
    assert!(console.ppu.frame_complete);
    assert_eq!(console.step_frame(), 0);
    console.ppu.frame_complete = false;
    assert_eq!(console.step_frame(), 89342);
    assert_eq!((console.ppu.scanline, console.ppu.cycle), (-1, 0));
    console.ppu.frame_complete = false;
    console.bus.cpu_write(&mut console.ppu, &mut console.cart, 0x2001, 0x18);
    assert_eq!(console.step_frame(), 89342);
    console.ppu.frame_complete = false;
    assert_eq!(console.step_frame(), 89341);
    assert!(console.is_settled());
}

#[test]
fn a_tick_is_a_dot_and_a_third_of_a_cycle() {
    let mut console = started(&[0x4C, 0x00, 0x80]);
    let cycles = console.cpu.clock_count;
    for _ in 0..341 {
        console.clock();
    }
    assert_eq!((console.ppu.scanline, console.ppu.cycle), (1, 0));
    assert_eq!(console.cpu.clock_count - cycles, 114);
    console.reset();
    assert_eq!((console.ppu.scanline, console.ppu.cycle), (0, 0));
    assert_eq!(console.bus.system_clock_counter, 0);
    assert_eq!(console.cpu.pc, 0x8000);
}
