use nes_emulator::bus::Bus;
use nes_emulator::cartridge::Cartridge;
use nes_emulator::cpu::Cpu;
use nes_emulator::ppu::Ppu;

struct Console {
    cpu: Cpu,
    bus: Bus,
    ppu: Ppu,
    cart: Cartridge,
}

/// A console with `program` at 0x8000 on a 32 KiB cartridge whose reset vector points
/// there, whose interrupt vector points at 0x9000 and whose non-maskable one at 0xA000.
fn console_with(program: &[u8]) -> Console {
    let mut bytes = vec![0x4E, 0x45, 0x53, 0x1A, 2, 1, 0, 0];
    bytes.resize(16 + 2 * 16384 + 8192, 0);
    bytes[16..16 + program.len()].copy_from_slice(program);
    bytes[16 + 0x7FFA] = 0x00;
    bytes[16 + 0x7FFB] = 0xA0;
    bytes[16 + 0x7FFC] = 0x00;
    bytes[16 + 0x7FFD] = 0x80;
    bytes[16 + 0x7FFE] = 0x00;
    bytes[16 + 0x7FFF] = 0x90;
    let cart = match Cartridge::new(&bytes) {
        Ok(cart) => cart,
        Err(e) => panic!("image refused: {:?}", e),
    };
    let mut console = Console { cpu: Cpu::new(), bus: Bus::new(), ppu: Ppu::new(), cart };
    console.cpu.reset(&mut console.bus, &mut console.ppu, &mut console.cart);
    while !console.cpu.complete() {
        console.cpu.clock(&mut console.bus, &mut console.ppu, &mut console.cart);
    }
    console
}

/// Runs one instruction and returns the cycles it took.
fn step(console: &mut Console) -> u32 {
    let mut cycles = 0;
    loop {
        console.cpu.clock(&mut console.bus, &mut console.ppu, &mut console.cart);
        cycles += 1;
        if console.cpu.complete() {
            return cycles;
        }
    }
}

fn run(console: &mut Console, instructions: usize) {
    for _ in 0..instructions {
        step(console);
    }
}

#[test]
fn reset_loads_the_vector_and_clears_the_registers() {
    let mut console = console_with(&[0xA9, 0x7F, 0xAA, 0xA8, 0x9A, 0x38]);
    run(&mut console, 5);
    assert_eq!((console.cpu.a, console.cpu.x, console.cpu.y, console.cpu.stkp), (0x7F, 0x7F, 0x7F, 0x7F));
    console.cpu.reset(&mut console.bus, &mut console.ppu, &mut console.cart);
    assert_eq!(console.cpu.pc, 0x8000);
    assert_eq!(console.cpu.stkp, 0xFD);
    assert_eq!(console.cpu.status, 0x20);
    assert_eq!((console.cpu.a, console.cpu.x, console.cpu.y), (0, 0, 0));
    assert_eq!(console.cpu.cycles, 8);
}

#[test]
fn adc_sets_overflow_when_two_positives_give_a_negative() {
    let mut console = console_with(&[0x18, 0xA9, 0x50, 0x69, 0x50]);
    run(&mut console, 3);
    assert_eq!(console.cpu.a, 0xA0);
    assert_eq!(console.cpu.status & 0xC3, 0xC0);
}

#[test]
fn adc_carries_out_of_the_top_bit() {
    let mut console = console_with(&[0x38, 0xA9, 0xFF, 0x69, 0x00]);
    run(&mut console, 3);
    assert_eq!(console.cpu.a, 0x00);
    assert_eq!(console.cpu.status & 0xC3, 0x03);
}

#[test]
fn sbc_borrows_and_sets_carry_when_no_borrow_is_needed() {
    let mut console = console_with(&[0x38, 0xA9, 0x50, 0xE9, 0x10, 0x38, 0xA9, 0x10, 0xE9, 0x20, 0x38, 0xA9, 0x50, 0xE9, 0xB0]);
    run(&mut console, 3);
    assert_eq!(console.cpu.a, 0x40);
    assert_eq!(console.cpu.status & 0xC3, 0x01);
    run(&mut console, 3);
    assert_eq!(console.cpu.a, 0xF0);
    assert_eq!(console.cpu.status & 0xC3, 0x80);
    run(&mut console, 3);
    assert_eq!(console.cpu.a, 0xA0);
    assert_eq!(console.cpu.status & 0xC3, 0xC0);
}

#[test]
fn loads_and_transfers_set_zero_and_negative() {
    let mut console = console_with(&[0xA9, 0x00, 0xA2, 0x80, 0xA0, 0x01, 0x8A, 0xA8]);
    step(&mut console);
    assert_eq!(console.cpu.status & 0x82, 0x02);
    step(&mut console);
    assert_eq!(console.cpu.status & 0x82, 0x80);
    step(&mut console);
    assert_eq!(console.cpu.status & 0x82, 0x00);
    run(&mut console, 2);
    assert_eq!((console.cpu.a, console.cpu.y), (0x80, 0x80));
    assert_eq!(console.cpu.status & 0x82, 0x80);
}

#[test]
fn compare_sets_carry_when_the_register_is_not_smaller() {
    let mut console = console_with(&[0xA9, 0x40, 0xC9, 0x40, 0xC9, 0x41, 0xC9, 0x3F, 0xA2, 0x10, 0xE0, 0x08, 0xA0, 0x10, 0xC0, 0x20]);
    run(&mut console, 2);
    assert_eq!(console.cpu.status & 0x83, 0x03);
    step(&mut console);
    assert_eq!(console.cpu.status & 0x83, 0x80);
    step(&mut console);
    assert_eq!(console.cpu.status & 0x83, 0x01);
    run(&mut console, 2);
    assert_eq!(console.cpu.status & 0x83, 0x01);
    run(&mut console, 2);
    assert_eq!(console.cpu.status & 0x83, 0x80);
}

#[test]
fn shifts_and_rotates_send_the_lost_bit_to_carry() {
    let mut console = console_with(&[0x18, 0xA9, 0x81, 0x0A, 0x2A, 0x4A, 0x6A, 0xA9, 0x01, 0x18, 0x6A, 0x6A]);
    run(&mut console, 3);
    assert_eq!(console.cpu.a, 0x02);
    assert_eq!(console.cpu.status & 0x83, 0x01);
    step(&mut console);
    assert_eq!(console.cpu.a, 0x05);
    assert_eq!(console.cpu.status & 0x83, 0x00);
    step(&mut console);
    assert_eq!(console.cpu.a, 0x02);
    assert_eq!(console.cpu.status & 0x83, 0x01);
    step(&mut console);
    assert_eq!(console.cpu.a, 0x81);
    assert_eq!(console.cpu.status & 0x83, 0x80);
    run(&mut console, 3);
    assert_eq!(console.cpu.a, 0x00);
    assert_eq!(console.cpu.status & 0x83, 0x03);
    step(&mut console);
    assert_eq!(console.cpu.a, 0x80);
    assert_eq!(console.cpu.status & 0x83, 0x80);
}

#[test]
fn shifts_on_memory_write_the_result_back() {
    let mut console = console_with(&[0xA9, 0x41, 0x85, 0x10, 0x06, 0x10, 0xE6, 0x10, 0xC6, 0x10, 0x46, 0x10]);
    run(&mut console, 3);
    assert_eq!(console.bus.cpu_ram[0x10], 0x82);
    assert_eq!(console.cpu.a, 0x41);
    step(&mut console);
    assert_eq!(console.bus.cpu_ram[0x10], 0x83);
    step(&mut console);
    assert_eq!(console.bus.cpu_ram[0x10], 0x82);
    step(&mut console);
    assert_eq!(console.bus.cpu_ram[0x10], 0x41);
    assert_eq!(console.cpu.status & 0x83, 0x00);
}

#[test]
fn bit_copies_the_top_bits_of_the_operand() {
    let mut console = console_with(&[0xA9, 0xC0, 0x85, 0x20, 0xA9, 0x01, 0x24, 0x20]);
    run(&mut console, 4);
    assert_eq!(console.cpu.status & 0xC2, 0xC2);
    assert_eq!(console.cpu.a, 0x01);
}

#[test]
fn page_cross_adds_exactly_one_cycle() {
    let mut console = console_with(&[0xA2, 0x01, 0xBD, 0xFF, 0x80, 0xBD, 0x00, 0x80, 0xA0, 0xFF, 0xB9, 0x01, 0x80, 0xB9, 0x00, 0x80]);
    step(&mut console);
    assert_eq!(step(&mut console), 5);
    assert_eq!(step(&mut console), 4);
    step(&mut console);
    assert_eq!(step(&mut console), 5);
    assert_eq!(step(&mut console), 4);
}

#[test]
fn indirect_indexed_page_cross_adds_one_cycle() {
    let mut console = console_with(&[0xA9, 0xFF, 0x85, 0x40, 0xA9, 0x02, 0x85, 0x41, 0xA0, 0x01, 0xB1, 0x40, 0xA0, 0x00, 0xB1, 0x40]);
    console.bus.cpu_ram[0x0300] = 0x77;
    console.bus.cpu_ram[0x02FF] = 0x66;
    run(&mut console, 5);
    assert_eq!(step(&mut console), 6);
    assert_eq!(console.cpu.a, 0x77);
    step(&mut console);
    assert_eq!(step(&mut console), 5);
    assert_eq!(console.cpu.a, 0x66);
}

#[test]
fn stores_never_take_the_extra_cycle() {
    let mut console = console_with(&[0xA2, 0x01, 0x9D, 0xFF, 0x02]);
    step(&mut console);
    assert_eq!(step(&mut console), 5);
}

#[test]
fn branches_cost_one_more_when_taken_and_two_across_a_page() {
    let mut program = vec![0xA9, 0x00, 0xD0, 0x10, 0xF0, 0x10];
    program.resize(0x16, 0xEA);
    program.extend_from_slice(&[0x4C, 0xF0, 0x80]);
    program.resize(0xF0, 0xEA);
    program.extend_from_slice(&[0xF0, 0x20]);
    let mut console = console_with(&program);
    step(&mut console);
    assert_eq!(step(&mut console), 2);
    assert_eq!(console.cpu.pc, 0x8004);
    assert_eq!(step(&mut console), 3);
    assert_eq!(console.cpu.pc, 0x8016);
    step(&mut console);
    assert_eq!(console.cpu.pc, 0x80F0);
    assert_eq!(step(&mut console), 4);
    assert_eq!(console.cpu.pc, 0x8112);
}

#[test]
fn backward_branch_sign_extends_its_offset() {
    let mut console = console_with(&[0xEA, 0xEA, 0xA9, 0x01, 0xD0, 0xFA]);
    run(&mut console, 4);
    assert_eq!(console.cpu.pc, 0x8000);
    assert_eq!(console.cpu.addr_rel, 0xFFFA);
}

#[test]
fn indirect_jump_wraps_within_the_page() {
    let mut console = console_with(&[0x6C, 0xFF, 0x02]);
    console.bus.cpu_ram[0x02FF] = 0x34;
    console.bus.cpu_ram[0x0200] = 0x12;
    console.bus.cpu_ram[0x0300] = 0x56;
    assert_eq!(step(&mut console), 5);
    assert_eq!(console.cpu.pc, 0x1234);
}

#[test]
fn indirect_jump_reads_the_next_byte_otherwise() {
    let mut console = console_with(&[0x6C, 0x10, 0x02]);
    console.bus.cpu_ram[0x0210] = 0x34;
    console.bus.cpu_ram[0x0211] = 0x56;
    step(&mut console);
    assert_eq!(console.cpu.pc, 0x5634);
}

#[test]
fn zero_page_indexing_wraps_in_page_zero() {
    let mut console = console_with(&[0xA2, 0x10, 0xB5, 0xF8, 0xA1, 0xEF]);
    console.bus.cpu_ram[0x0008] = 0x99;
    console.bus.cpu_ram[0x0108] = 0x11;
    console.bus.cpu_ram[0x00FF] = 0x08;
    console.bus.cpu_ram[0x0000] = 0x01;
    run(&mut console, 2);
    assert_eq!(console.cpu.a, 0x99);
    step(&mut console);
    assert_eq!(console.cpu.addr_abs, 0x0108);
    assert_eq!(console.cpu.a, 0x11);
}

#[test]
fn stack_lives_in_page_one_and_wraps() {
    let mut console = console_with(&[0xA2, 0x00, 0x9A, 0xA9, 0xAB, 0x48, 0xA9, 0x00, 0x68]);
    run(&mut console, 4);
    assert_eq!(console.bus.cpu_ram[0x0100], 0xAB);
    assert_eq!(console.cpu.stkp, 0xFF);
    run(&mut console, 2);
    assert_eq!(console.cpu.a, 0xAB);
    assert_eq!(console.cpu.stkp, 0x00);
    assert_eq!(console.cpu.status & 0x82, 0x80);
}

#[test]
fn subroutine_call_and_return() {
    let mut console = console_with(&[0x20, 0x10, 0x80, 0xA9, 0x01]);
    step(&mut console);
    assert_eq!(console.cpu.pc, 0x8010);
    assert_eq!(console.cpu.stkp, 0xFB);
    assert_eq!(console.bus.cpu_ram[0x01FD], 0x80);
    assert_eq!(console.bus.cpu_ram[0x01FC], 0x02);
    console.cpu.pc = 0x8020;
    console.bus.cpu_ram[0x0000] = 0;
    let mut console2 = console_with(&[0x20, 0x05, 0x80, 0xA9, 0x01, 0x60]);
    run(&mut console2, 2);
    assert_eq!(console2.cpu.pc, 0x8003);
    assert_eq!(console2.cpu.stkp, 0xFD);
    step(&mut console2);
    assert_eq!(console2.cpu.a, 0x01);
}

#[test]
fn break_pushes_the_status_with_break_set() {
    let mut program = vec![0x00, 0xFF, 0xA9, 0x05];
    program.resize(0x1000, 0xEA);
    program.push(0x40);
    let mut console = console_with(&program);
    assert_eq!(step(&mut console), 7);
    assert_eq!(console.cpu.pc, 0x9000);
    assert_eq!(console.bus.cpu_ram[0x01FD], 0x80);
    assert_eq!(console.bus.cpu_ram[0x01FC], 0x02);
    assert_eq!(console.bus.cpu_ram[0x01FB], 0x30);
    assert_eq!(console.cpu.status, 0x24);
    assert_eq!(step(&mut console), 6);
    assert_eq!(console.cpu.pc, 0x8002);
    assert_eq!(console.cpu.status, 0x20);
    assert_eq!(console.cpu.stkp, 0xFD);
}

#[test]
fn interrupt_request_is_ignored_while_disabled() {
    let mut console = console_with(&[0x78, 0x58]);
    step(&mut console);
    console.cpu.irq(&mut console.bus, &mut console.ppu, &mut console.cart);
    assert_eq!(console.cpu.pc, 0x8001);
    assert_eq!(console.cpu.stkp, 0xFD);
    step(&mut console);
    console.cpu.irq(&mut console.bus, &mut console.ppu, &mut console.cart);
    assert_eq!(console.cpu.pc, 0x9000);
    assert_eq!(console.cpu.cycles, 7);
    assert_eq!(console.cpu.stkp, 0xFA);
    assert_eq!(console.bus.cpu_ram[0x01FD], 0x80);
    assert_eq!(console.bus.cpu_ram[0x01FC], 0x02);
    assert_eq!(console.bus.cpu_ram[0x01FB], 0x20);
    assert_eq!(console.cpu.status & 0x34, 0x24);
}

#[test]
fn non_maskable_interrupt_uses_its_own_vector() {
    let mut console = console_with(&[0x78]);
    step(&mut console);
    console.cpu.nmi(&mut console.bus, &mut console.ppu, &mut console.cart);
    assert_eq!(console.cpu.pc, 0xA000);
    assert_eq!(console.cpu.cycles, 8);
    assert_eq!(console.cpu.stkp, 0xFA);
}

#[test]
fn unused_flag_is_set_after_every_instruction() {
    let mut console = console_with(&[0xA9, 0x00, 0x48, 0x28, 0x08, 0xEA, 0x18]);
    for _ in 0..6 {
        step(&mut console);
        assert_eq!(console.cpu.status & 0x20, 0x20);
    }
    assert_eq!(console.bus.cpu_ram[0x01FD], 0x30);
}

#[test]
fn flag_instructions_set_and_clear_their_flag() {
    let mut console = console_with(&[0x38, 0xF8, 0x78, 0x18, 0xD8, 0x58, 0xA9, 0x7F, 0x69, 0x01, 0xB8]);
    run(&mut console, 3);
    assert_eq!(console.cpu.status & 0x0D, 0x0D);
    run(&mut console, 3);
    assert_eq!(console.cpu.status & 0x0D, 0x00);
    run(&mut console, 2);
    assert_eq!(console.cpu.status & 0x40, 0x40);
    step(&mut console);
    assert_eq!(console.cpu.status & 0x40, 0x00);
}

#[test]
fn undocumented_opcodes_do_nothing_in_their_base_cycles() {
    let mut console = console_with(&[0x02, 0x1C, 0x03, 0x04, 0xEA]);
    let before = (console.cpu.a, console.cpu.x, console.cpu.y, console.cpu.stkp);
    assert_eq!(step(&mut console), 2);
    assert_eq!(step(&mut console), 4);
    assert_eq!(step(&mut console), 8);
    assert_eq!(step(&mut console), 3);
    assert_eq!(step(&mut console), 2);
    assert_eq!(console.cpu.pc, 0x8005);
    assert_eq!(before, (console.cpu.a, console.cpu.x, console.cpu.y, console.cpu.stkp));
}

#[test]
fn cycle_counter_counts_every_cycle() {
    let mut console = console_with(&[0xEA, 0xEA]);
    let before = console.cpu.clock_count;
    run(&mut console, 2);
    assert_eq!(console.cpu.clock_count - before, 4);
}
