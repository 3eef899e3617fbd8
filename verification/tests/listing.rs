use nes_emulator::bus::Bus;
use nes_emulator::cartridge::Cartridge;
use nes_emulator::cpu::Cpu;
use nes_emulator::opcodes::{lookup, AddrMode, Operation};
use nes_emulator::ppu::Ppu;

fn listed(program: &[u8], start: u16, stop: u16) -> Vec<(u16, String)> {
    let mut bytes = vec![0x4E, 0x45, 0x53, 0x1A, 2, 1, 0, 0];
    bytes.resize(16 + 2 * 16384 + 8192, 0);
    bytes[16..16 + program.len()].copy_from_slice(program);
    let cart = match Cartridge::new(&bytes) {
        Ok(cart) => cart,
        Err(e) => panic!("image refused: {:?}", e),
    };
    let mut bus = Bus::new();
    let mut ppu = Ppu::new();
    let cpu = Cpu::new();
    cpu.disassemble(start, stop, &mut bus, &mut ppu, &cart).into_iter().collect()
}

#[test]
fn every_addressing_mode_has_its_own_notation() {
    let program = [
        0xEA, 0xA9, 0x0A, 0xA5, 0x10, 0xB5, 0x20, 0xB6, 0x30, 0xA1, 0x40, 0xB1, 0x50, 0xAD, 0x34, 0x12, 0xBD, 0x78,
        0x56, 0xB9, 0xBC, 0x9A, 0x6C, 0xFF, 0x02, 0xD0, 0xFA, 0xF0, 0x05, 0x02,
    ];
    let lines = listed(&program, 0x8000, 0x801D);
    let expected = [
        (0x8000, "$8000: NOP  {IMP}"),
        (0x8001, "$8001: LDA #$0A {IMM}"),
        (0x8003, "$8003: LDA $10 {ZP0}"),
        (0x8005, "$8005: LDA $20, X {ZPX}"),
        (0x8007, "$8007: LDX $30, Y {ZPY}"),
        (0x8009, "$8009: LDA ($40, X) {IZX}"),
        (0x800B, "$800B: LDA ($50), Y {IZY}"),
        (0x800D, "$800D: LDA $1234 {ABS}"),
        (0x8010, "$8010: LDA $5678, X {ABX}"),
        (0x8013, "$8013: LDA $9ABC, Y {ABY}"),
        (0x8016, "$8016: JMP ($02FF) {IND}"),
        (0x8019, "$8019: BNE $FA [$8015] {REL}"),
        (0x801B, "$801B: BEQ $05 [$8022] {REL}"),
        (0x801D, "$801D: ???  {IMP}"),
    ];
    assert_eq!(lines.len(), expected.len());
    for (line, (addr, text)) in lines.iter().zip(expected.iter()) {
        assert_eq!(line.0, *addr);
        assert_eq!(line.1, *text);
    }
}

#[test]
fn a_listing_stops_after_the_instruction_that_reaches_the_end() {
    let lines = listed(&[0xAD, 0x34, 0x12, 0xEA], 0x8000, 0x8001);
    assert_eq!(lines, vec![(0x8000, String::from("$8000: LDA $1234 {ABS}"))]);
    assert!(listed(&[0xEA], 0x8001, 0x8000).is_empty());
}

#[test]
fn a_listing_can_run_to_the_end_of_memory() {
    let lines = listed(&[], 0xFFFE, 0xFFFF);
    assert_eq!(lines, vec![(0xFFFE, String::from("$FFFE: BRK  {IMP}")), (0xFFFF, String::from("$FFFF: BRK  {IMP}"))]);
}

#[test]
fn branch_targets_below_zero_are_shown_in_full() {
    let mut bus = Bus::new();
    let mut ppu = Ppu::new();
    let cart = match Cartridge::new(&{
        let mut bytes = vec![0x4E, 0x45, 0x53, 0x1A, 1, 1, 0, 0];
        bytes.resize(16 + 16384 + 8192, 0);
        bytes
    }) {
        Ok(cart) => cart,
        Err(e) => panic!("image refused: {:?}", e),
    };
    bus.cpu_ram[0] = 0x10;
    bus.cpu_ram[1] = 0x80;
    bus.cpu_ram[2] = 0x90;
    bus.cpu_ram[3] = 0x7F;
    let lines: Vec<(u16, String)> = Cpu::new().disassemble(0, 3, &mut bus, &mut ppu, &cart).into_iter().collect();
    assert_eq!(lines[0], (0, String::from("$0000: BPL $80 [$FFFFFF82] {REL}")));
    assert_eq!(lines[1], (2, String::from("$0002: BCC $7F [$0083] {REL}")));
}

#[test]
fn decode_table_rows() {
    let row = |opcode: u8| {
        let i = lookup(opcode);
        (i.name, i.operate, i.addrmode, i.cycles)
    };
    assert_eq!(row(0x00), ("BRK", Operation::Brk, AddrMode::Imp, 7));
    assert_eq!(row(0xA9), ("LDA", Operation::Lda, AddrMode::Imm, 2));
    assert_eq!(row(0x6C), ("JMP", Operation::Jmp, AddrMode::Ind, 5));
    assert_eq!(row(0x91), ("STA", Operation::Sta, AddrMode::Izy, 6));
    assert_eq!(row(0xB6), ("LDX", Operation::Ldx, AddrMode::Zpy, 4));
    assert_eq!(row(0xFE), ("INC", Operation::Inc, AddrMode::Abx, 7));
    assert_eq!(row(0xC9), ("CMP", Operation::Cmp, AddrMode::Imm, 2));
    assert_eq!(row(0xEA), ("NOP", Operation::Nop, AddrMode::Imp, 2));
    assert_eq!(row(0x1C), ("???", Operation::Nop, AddrMode::Imp, 4));
    assert_eq!(row(0xEB), ("???", Operation::Sbc, AddrMode::Imp, 2));
    assert_eq!(row(0xFF), ("???", Operation::Xxx, AddrMode::Imp, 7));
    assert_eq!(row(0x02), ("???", Operation::Xxx, AddrMode::Imp, 2));
}

#[test]
fn decode_table_has_every_slot() {
    let mut documented = 0;
    for opcode in 0..=255u8 {
        let i = lookup(opcode);
        assert!(i.cycles >= 2 && i.cycles <= 8);
        assert_eq!(i.name.len(), 3);
        if i.name != "???" {
            documented += 1;
            assert!(i.operate != Operation::Xxx);
        } else {
            assert_eq!(i.addrmode, AddrMode::Imp);
        }
    }
    assert_eq!(documented, 153);
}
