use vstd::prelude::*;

verus! {

/// What an instruction does once its operand has been located.
#[derive(Clone, Copy, PartialEq, Eq, Structural, Debug)]
pub enum Operation {
    Adc,
    And,
    Asl,
    Bcc,
    Bcs,
    Beq,
    Bit,
    Bmi,
    Bne,
    Bpl,
    Brk,
    Bvc,
    Bvs,
    Clc,
    Cld,
    Cli,
    Clv,
    Cmp,
    Cpx,
    Cpy,
    Dec,
    Dex,
    Dey,
    Eor,
    Inc,
    Inx,
    Iny,
    Jmp,
    Jsr,
    Lda,
    Ldx,
    Ldy,
    Lsr,
    Nop,
    Ora,
    Pha,
    Php,
    Pla,
    Plp,
    Rol,
    Ror,
    Rti,
    Rts,
    Sbc,
    Sec,
    Sed,
    Sei,
    Sta,
    Stx,
    Sty,
    Tax,
    Tay,
    Tsx,
    Txa,
    Txs,
    Tya,
    /// Any opcode the processor does not document and that is not a NOP variant.
    Xxx,
}

/// How an instruction locates its operand.
#[derive(Clone, Copy, PartialEq, Eq, Structural, Debug)]
pub enum AddrMode {
    /// The operand is the accumulator (or there is none).
    Imp,
    /// The operand is the byte after the opcode.
    Imm,
    /// One address byte, in page zero.
    Zp0,
    /// One address byte plus X, wrapped in page zero.
    Zpx,
    /// One address byte plus Y, wrapped in page zero.
    Zpy,
    /// A signed offset from the next instruction.
    Rel,
    /// A full sixteen-bit address.
    Abs,
    /// A full address plus X.
    Abx,
    /// A full address plus Y.
    Aby,
    /// The address is read through a sixteen-bit pointer.
    Ind,
    /// The address is read from page zero at the byte plus X.
    Izx,
    /// The address is read from page zero at the byte, then Y is added.
    Izy,
}

/// One slot of the decode table.
#[derive(Clone, Copy, Debug)]
pub struct Instruction {
    pub name: &'static str,
    pub operate: Operation,
    pub addrmode: AddrMode,
    pub cycles: u8,
}

/// The three letters a disassembly shows for a documented operation.
pub open spec fn mnemonic(op: Operation) -> Seq<char> {
    match op {
        Operation::Adc => "ADC"@,
        Operation::And => "AND"@,
        Operation::Asl => "ASL"@,
        Operation::Bcc => "BCC"@,
        Operation::Bcs => "BCS"@,
        Operation::Beq => "BEQ"@,
        Operation::Bit => "BIT"@,
        Operation::Bmi => "BMI"@,
        Operation::Bne => "BNE"@,
        Operation::Bpl => "BPL"@,
        Operation::Brk => "BRK"@,
        Operation::Bvc => "BVC"@,
        Operation::Bvs => "BVS"@,
        Operation::Clc => "CLC"@,
        Operation::Cld => "CLD"@,
        Operation::Cli => "CLI"@,
        Operation::Clv => "CLV"@,
        Operation::Cmp => "CMP"@,
        Operation::Cpx => "CPX"@,
        Operation::Cpy => "CPY"@,
        Operation::Dec => "DEC"@,
        Operation::Dex => "DEX"@,
        Operation::Dey => "DEY"@,
        Operation::Eor => "EOR"@,
        Operation::Inc => "INC"@,
        Operation::Inx => "INX"@,
        Operation::Iny => "INY"@,
        Operation::Jmp => "JMP"@,
        Operation::Jsr => "JSR"@,
        Operation::Lda => "LDA"@,
        Operation::Ldx => "LDX"@,
        Operation::Ldy => "LDY"@,
        Operation::Lsr => "LSR"@,
        Operation::Nop => "NOP"@,
        Operation::Ora => "ORA"@,
        Operation::Pha => "PHA"@,
        Operation::Php => "PHP"@,
        Operation::Pla => "PLA"@,
        Operation::Plp => "PLP"@,
        Operation::Rol => "ROL"@,
        Operation::Ror => "ROR"@,
        Operation::Rti => "RTI"@,
        Operation::Rts => "RTS"@,
        Operation::Sbc => "SBC"@,
        Operation::Sec => "SEC"@,
        Operation::Sed => "SED"@,
        Operation::Sei => "SEI"@,
        Operation::Sta => "STA"@,
        Operation::Stx => "STX"@,
        Operation::Sty => "STY"@,
        Operation::Tax => "TAX"@,
        Operation::Tay => "TAY"@,
        Operation::Tsx => "TSX"@,
        Operation::Txa => "TXA"@,
        Operation::Txs => "TXS"@,
        Operation::Tya => "TYA"@,
        Operation::Xxx => "???"@,
    }
}

/// The opcodes of each operation, as the instruction set lists them.
pub open spec fn operation_of(opcode: u8) -> Operation {
    match opcode {
        0x61 | 0x65 | 0x69 | 0x6D | 0x71 | 0x75 | 0x79 | 0x7D => Operation::Adc,
        0x21 | 0x25 | 0x29 | 0x2D | 0x31 | 0x35 | 0x39 | 0x3D => Operation::And,
        0x06 | 0x0A | 0x0E | 0x16 | 0x1E => Operation::Asl,
        0x90 => Operation::Bcc,
        0xB0 => Operation::Bcs,
        0xF0 => Operation::Beq,
        0x24 | 0x2C => Operation::Bit,
        0x30 => Operation::Bmi,
        0xD0 => Operation::Bne,
        0x10 => Operation::Bpl,
        0x00 => Operation::Brk,
        0x50 => Operation::Bvc,
        0x70 => Operation::Bvs,
        0x18 => Operation::Clc,
        0xD8 => Operation::Cld,
        0x58 => Operation::Cli,
        0xB8 => Operation::Clv,
        0xC1 | 0xC5 | 0xC9 | 0xCD | 0xD1 | 0xD5 | 0xD9 | 0xDD => Operation::Cmp,
        0xE0 | 0xE4 | 0xEC => Operation::Cpx,
        0xC0 | 0xC4 | 0xCC => Operation::Cpy,
        0xC6 | 0xCE | 0xD6 | 0xDE => Operation::Dec,
        0xCA => Operation::Dex,
        0x88 => Operation::Dey,
        0x41 | 0x45 | 0x49 | 0x4D | 0x51 | 0x55 | 0x59 | 0x5D => Operation::Eor,
        0xE6 | 0xEE | 0xF6 | 0xFE => Operation::Inc,
        0xE8 => Operation::Inx,
        0xC8 => Operation::Iny,
        0x4C | 0x6C => Operation::Jmp,
        0x20 => Operation::Jsr,
        0xA1 | 0xA5 | 0xA9 | 0xAD | 0xB1 | 0xB5 | 0xB9 | 0xBD => Operation::Lda,
        0xA2 | 0xA6 | 0xAE | 0xB6 | 0xBE => Operation::Ldx,
        0xA0 | 0xA4 | 0xAC | 0xB4 | 0xBC => Operation::Ldy,
        0x46 | 0x4A | 0x4E | 0x56 | 0x5E => Operation::Lsr,
        0x04 | 0x0C | 0x14 | 0x1A | 0x1C | 0x34 | 0x3A | 0x3C | 0x44 | 0x54 | 0x5A | 0x5C
        | 0x64 | 0x74 | 0x7A | 0x7C | 0x80 | 0x82 | 0x89 | 0x9C | 0xC2 | 0xD4 | 0xDA | 0xDC
        | 0xE2 | 0xEA | 0xF4 | 0xFA | 0xFC => Operation::Nop,
        0x01 | 0x05 | 0x09 | 0x0D | 0x11 | 0x15 | 0x19 | 0x1D => Operation::Ora,
        0x48 => Operation::Pha,
        0x08 => Operation::Php,
        0x68 => Operation::Pla,
        0x28 => Operation::Plp,
        0x26 | 0x2A | 0x2E | 0x36 | 0x3E => Operation::Rol,
        0x66 | 0x6A | 0x6E | 0x76 | 0x7E => Operation::Ror,
        0x40 => Operation::Rti,
        0x60 => Operation::Rts,
        0xE1 | 0xE5 | 0xE9 | 0xEB | 0xED | 0xF1 | 0xF5 | 0xF9 | 0xFD => Operation::Sbc,
        0x38 => Operation::Sec,
        0xF8 => Operation::Sed,
        0x78 => Operation::Sei,
        0x81 | 0x85 | 0x8D | 0x91 | 0x95 | 0x99 | 0x9D => Operation::Sta,
        0x86 | 0x8E | 0x96 => Operation::Stx,
        0x84 | 0x8C | 0x94 => Operation::Sty,
        0xAA => Operation::Tax,
        0xA8 => Operation::Tay,
        0xBA => Operation::Tsx,
        0x8A => Operation::Txa,
        0x9A => Operation::Txs,
        0x98 => Operation::Tya,
        _ => Operation::Xxx,
    }
}

/// The opcodes of each addressing mode; every other opcode is implied.
pub open spec fn addrmode_of(opcode: u8) -> AddrMode {
    match opcode {
        0x09 | 0x29 | 0x49 | 0x69 | 0xA0 | 0xA2 | 0xA9 | 0xC0 | 0xC9 | 0xE0 | 0xE9 => AddrMode::Imm,
        0x05 | 0x06 | 0x24 | 0x25 | 0x26 | 0x45 | 0x46 | 0x65 | 0x66 | 0x84 | 0x85 | 0x86
        | 0xA4 | 0xA5 | 0xA6 | 0xC4 | 0xC5 | 0xC6 | 0xE4 | 0xE5 | 0xE6 => AddrMode::Zp0,
        0x15 | 0x16 | 0x35 | 0x36 | 0x55 | 0x56 | 0x75 | 0x76 | 0x94 | 0x95 | 0xB4 | 0xB5
        | 0xD5 | 0xD6 | 0xF5 | 0xF6 => AddrMode::Zpx,
        0x96 | 0xB6 => AddrMode::Zpy,
        0x10 | 0x30 | 0x50 | 0x70 | 0x90 | 0xB0 | 0xD0 | 0xF0 => AddrMode::Rel,
        0x0D | 0x0E | 0x20 | 0x2C | 0x2D | 0x2E | 0x4C | 0x4D | 0x4E | 0x6D | 0x6E | 0x8C
        | 0x8D | 0x8E | 0xAC | 0xAD | 0xAE | 0xCC | 0xCD | 0xCE | 0xEC | 0xED | 0xEE => AddrMode::Abs,
        0x1D | 0x1E | 0x3D | 0x3E | 0x5D | 0x5E | 0x7D | 0x7E | 0x9D | 0xBC | 0xBD | 0xDD
        | 0xDE | 0xFD | 0xFE => AddrMode::Abx,
        0x19 | 0x39 | 0x59 | 0x79 | 0x99 | 0xB9 | 0xBE | 0xD9 | 0xF9 => AddrMode::Aby,
        0x6C => AddrMode::Ind,
        0x01 | 0x21 | 0x41 | 0x61 | 0x81 | 0xA1 | 0xC1 | 0xE1 => AddrMode::Izx,
        0x11 | 0x31 | 0x51 | 0x71 | 0x91 | 0xB1 | 0xD1 | 0xF1 => AddrMode::Izy,
        _ => AddrMode::Imp,
    }
}

/// The base cycle count of each opcode; every opcode not listed takes two.
pub open spec fn cycles_of(opcode: u8) -> u8 {
    match opcode {
        0x04 | 0x05 | 0x08 | 0x24 | 0x25 | 0x44 | 0x45 | 0x48 | 0x4C | 0x64 | 0x65 | 0x84
        | 0x85 | 0x86 | 0x87 | 0xA4 | 0xA5 | 0xA6 | 0xA7 | 0xC4 | 0xC5 | 0xE4 | 0xE5 => 3,
        0x0C | 0x0D | 0x14 | 0x15 | 0x19 | 0x1C | 0x1D | 0x28 | 0x2C | 0x2D | 0x34 | 0x35
        | 0x39 | 0x3C | 0x3D | 0x4D | 0x54 | 0x55 | 0x59 | 0x5C | 0x5D | 0x68 | 0x6D | 0x74
        | 0x75 | 0x79 | 0x7C | 0x7D | 0x8C | 0x8D | 0x8E | 0x8F | 0x94 | 0x95 | 0x96 | 0x97
        | 0xAC | 0xAD | 0xAE | 0xAF | 0xB4 | 0xB5 | 0xB6 | 0xB7 | 0xB9 | 0xBB | 0xBC | 0xBD
        | 0xBE | 0xBF | 0xCC | 0xCD | 0xD4 | 0xD5 | 0xD9 | 0xDC | 0xDD | 0xEC | 0xED | 0xF4
        | 0xF5 | 0xF9 | 0xFC | 0xFD => 4,
        0x06 | 0x07 | 0x11 | 0x26 | 0x27 | 0x31 | 0x46 | 0x47 | 0x51 | 0x66 | 0x67 | 0x6C
        | 0x71 | 0x99 | 0x9B | 0x9C | 0x9D | 0x9E | 0x9F | 0xB1 | 0xB3 | 0xC6 | 0xC7 | 0xD1
        | 0xE6 | 0xE7 | 0xF1 => 5,
        0x01 | 0x0E | 0x0F | 0x16 | 0x17 | 0x20 | 0x21 | 0x2E | 0x2F | 0x36 | 0x37 | 0x40
        | 0x41 | 0x4E | 0x4F | 0x56 | 0x57 | 0x60 | 0x61 | 0x6E | 0x6F | 0x76 | 0x77 | 0x81
        | 0x83 | 0x91 | 0x93 | 0xA1 | 0xA3 | 0xC1 | 0xCE | 0xCF | 0xD6 | 0xD7 | 0xE1 | 0xEE
        | 0xEF | 0xF6 | 0xF7 => 6,
        0x00 | 0x1B | 0x1E | 0x1F | 0x3B | 0x3E | 0x3F | 0x5B | 0x5E | 0x5F | 0x7B | 0x7E
        | 0x7F | 0xDB | 0xDE | 0xDF | 0xFB | 0xFE | 0xFF => 7,
        0x03 | 0x13 | 0x23 | 0x33 | 0x43 | 0x53 | 0x63 | 0x73 | 0xC3 | 0xD3 | 0xE3 | 0xF3 => 8,
        _ => 2,
    }
}

/// The opcodes that the processor documents.
pub open spec fn documented(opcode: u8) -> bool {
    match opcode {
        0x00 | 0x01 | 0x05 | 0x06 | 0x08 | 0x09 | 0x0A | 0x0D | 0x0E | 0x10 | 0x11 | 0x15
        | 0x16 | 0x18 | 0x19 | 0x1D | 0x1E | 0x20 | 0x21 | 0x24 | 0x25 | 0x26 | 0x28 | 0x29
        | 0x2A | 0x2C | 0x2D | 0x2E | 0x30 | 0x31 | 0x35 | 0x36 | 0x38 | 0x39 | 0x3D | 0x3E
        | 0x40 | 0x41 | 0x45 | 0x46 | 0x48 | 0x49 | 0x4A | 0x4C | 0x4D | 0x4E | 0x50 | 0x51
        | 0x55 | 0x56 | 0x58 | 0x59 | 0x5D | 0x5E | 0x60 | 0x61 | 0x65 | 0x66 | 0x68 | 0x69
        | 0x6A | 0x6C | 0x6D | 0x6E | 0x70 | 0x71 | 0x75 | 0x76 | 0x78 | 0x79 | 0x7D | 0x7E
        | 0x81 | 0x84 | 0x85 | 0x86 | 0x88 | 0x8A | 0x8C | 0x8D | 0x8E | 0x90 | 0x91 | 0x94
        | 0x95 | 0x96 | 0x98 | 0x99 | 0x9A | 0x9D | 0xA0 | 0xA1 | 0xA2 | 0xA4 | 0xA5 | 0xA6
        | 0xA8 | 0xA9 | 0xAA | 0xAC | 0xAD | 0xAE | 0xB0 | 0xB1 | 0xB4 | 0xB5 | 0xB6 | 0xB8
        | 0xB9 | 0xBA | 0xBC | 0xBD | 0xBE | 0xC0 | 0xC1 | 0xC4 | 0xC5 | 0xC6 | 0xC8 | 0xC9
        | 0xCA | 0xCC | 0xCD | 0xCE | 0xD0 | 0xD1 | 0xD5 | 0xD6 | 0xD8 | 0xD9 | 0xDA | 0xDD
        | 0xDE | 0xE0 | 0xE1 | 0xE4 | 0xE5 | 0xE6 | 0xE8 | 0xE9 | 0xEA | 0xEC | 0xED | 0xEE
        | 0xF0 | 0xF1 | 0xF5 | 0xF6 | 0xF8 | 0xF9 | 0xFA | 0xFD | 0xFE => true,
        _ => false,
    }
}

/// The name shown for an opcode: its mnemonic if documented, else three question marks.
pub open spec fn name_of(opcode: u8) -> Seq<char> {
    if documented(opcode) {
        mnemonic(operation_of(opcode))
    } else {
        "???"@
    }
}

impl Instruction {
    /// A slot with these four entries.
    pub fn new(name: &'static str, operate: Operation, addrmode: AddrMode, cycles: u8) -> (i: Self)
        ensures
            i.name == name,
            i.operate == operate,
            i.addrmode == addrmode,
            i.cycles == cycles,
    {
        Instruction { name, operate, addrmode, cycles }
    }

    /// Whether this slot is the table's entry for `opcode`.
    pub open spec fn decodes(self, opcode: u8) -> bool {
        &&& self.name@ == name_of(opcode)
        &&& self.operate == operation_of(opcode)
        &&& self.addrmode == addrmode_of(opcode)
        &&& self.cycles == cycles_of(opcode)
    }
}

/// Opcodes 0x00 to 0x3F.
fn lookup_00(opcode: u8) -> (i: Instruction)
    requires
        0x00 <= opcode <= 0x3F,
    ensures
        i.decodes(opcode),
        2 <= i.cycles <= 8,
{
    match opcode {
        0x00 => Instruction::new("BRK", Operation::Brk, AddrMode::Imp, 7),
        0x01 => Instruction::new("ORA", Operation::Ora, AddrMode::Izx, 6),
        0x02 => Instruction::new("???", Operation::Xxx, AddrMode::Imp, 2),
        0x03 => Instruction::new("???", Operation::Xxx, AddrMode::Imp, 8),
        0x04 => Instruction::new("???", Operation::Nop, AddrMode::Imp, 3),
        0x05 => Instruction::new("ORA", Operation::Ora, AddrMode::Zp0, 3),
        0x06 => Instruction::new("ASL", Operation::Asl, AddrMode::Zp0, 5),
        0x07 => Instruction::new("???", Operation::Xxx, AddrMode::Imp, 5),
        0x08 => Instruction::new("PHP", Operation::Php, AddrMode::Imp, 3),
        0x09 => Instruction::new("ORA", Operation::Ora, AddrMode::Imm, 2),
        0x0A => Instruction::new("ASL", Operation::Asl, AddrMode::Imp, 2),
        0x0B => Instruction::new("???", Operation::Xxx, AddrMode::Imp, 2),
        0x0C => Instruction::new("???", Operation::Nop, AddrMode::Imp, 4),
        0x0D => Instruction::new("ORA", Operation::Ora, AddrMode::Abs, 4),
        0x0E => Instruction::new("ASL", Operation::Asl, AddrMode::Abs, 6),
        0x0F => Instruction::new("???", Operation::Xxx, AddrMode::Imp, 6),
        0x10 => Instruction::new("BPL", Operation::Bpl, AddrMode::Rel, 2),
        0x11 => Instruction::new("ORA", Operation::Ora, AddrMode::Izy, 5),
        0x12 => Instruction::new("???", Operation::Xxx, AddrMode::Imp, 2),
        0x13 => Instruction::new("???", Operation::Xxx, AddrMode::Imp, 8),
        0x14 => Instruction::new("???", Operation::Nop, AddrMode::Imp, 4),
        0x15 => Instruction::new("ORA", Operation::Ora, AddrMode::Zpx, 4),
        0x16 => Instruction::new("ASL", Operation::Asl, AddrMode::Zpx, 6),
        0x17 => Instruction::new("???", Operation::Xxx, AddrMode::Imp, 6),
        0x18 => Instruction::new("CLC", Operation::Clc, AddrMode::Imp, 2),
        0x19 => Instruction::new("ORA", Operation::Ora, AddrMode::Aby, 4),
        0x1A => Instruction::new("???", Operation::Nop, AddrMode::Imp, 2),
        0x1B => Instruction::new("???", Operation::Xxx, AddrMode::Imp, 7),
        0x1C => Instruction::new("???", Operation::Nop, AddrMode::Imp, 4),
        0x1D => Instruction::new("ORA", Operation::Ora, AddrMode::Abx, 4),
        0x1E => Instruction::new("ASL", Operation::Asl, AddrMode::Abx, 7),
        0x1F => Instruction::new("???", Operation::Xxx, AddrMode::Imp, 7),
        0x20 => Instruction::new("JSR", Operation::Jsr, AddrMode::Abs, 6),
        0x21 => Instruction::new("AND", Operation::And, AddrMode::Izx, 6),
        0x22 => Instruction::new("???", Operation::Xxx, AddrMode::Imp, 2),
        0x23 => Instruction::new("???", Operation::Xxx, AddrMode::Imp, 8),
        0x24 => Instruction::new("BIT", Operation::Bit, AddrMode::Zp0, 3),
        0x25 => Instruction::new("AND", Operation::And, AddrMode::Zp0, 3),
        0x26 => Instruction::new("ROL", Operation::Rol, AddrMode::Zp0, 5),
        0x27 => Instruction::new("???", Operation::Xxx, AddrMode::Imp, 5),
        0x28 => Instruction::new("PLP", Operation::Plp, AddrMode::Imp, 4),
        0x29 => Instruction::new("AND", Operation::And, AddrMode::Imm, 2),
        0x2A => Instruction::new("ROL", Operation::Rol, AddrMode::Imp, 2),
        0x2B => Instruction::new("???", Operation::Xxx, AddrMode::Imp, 2),
        0x2C => Instruction::new("BIT", Operation::Bit, AddrMode::Abs, 4),
        0x2D => Instruction::new("AND", Operation::And, AddrMode::Abs, 4),
        0x2E => Instruction::new("ROL", Operation::Rol, AddrMode::Abs, 6),
        0x2F => Instruction::new("???", Operation::Xxx, AddrMode::Imp, 6),
        0x30 => Instruction::new("BMI", Operation::Bmi, AddrMode::Rel, 2),
        0x31 => Instruction::new("AND", Operation::And, AddrMode::Izy, 5),
        0x32 => Instruction::new("???", Operation::Xxx, AddrMode::Imp, 2),
        0x33 => Instruction::new("???", Operation::Xxx, AddrMode::Imp, 8),
        0x34 => Instruction::new("???", Operation::Nop, AddrMode::Imp, 4),
        0x35 => Instruction::new("AND", Operation::And, AddrMode::Zpx, 4),
        0x36 => Instruction::new("ROL", Operation::Rol, AddrMode::Zpx, 6),
        0x37 => Instruction::new("???", Operation::Xxx, AddrMode::Imp, 6),
        0x38 => Instruction::new("SEC", Operation::Sec, AddrMode::Imp, 2),
        0x39 => Instruction::new("AND", Operation::And, AddrMode::Aby, 4),
        0x3A => Instruction::new("???", Operation::Nop, AddrMode::Imp, 2),
        0x3B => Instruction::new("???", Operation::Xxx, AddrMode::Imp, 7),
        0x3C => Instruction::new("???", Operation::Nop, AddrMode::Imp, 4),
        0x3D => Instruction::new("AND", Operation::And, AddrMode::Abx, 4),
        0x3E => Instruction::new("ROL", Operation::Rol, AddrMode::Abx, 7),
        0x3F => Instruction::new("???", Operation::Xxx, AddrMode::Imp, 7),
        _ => Instruction::new("???", Operation::Xxx, AddrMode::Imp, 2),
    }
}

/// Opcodes 0x40 to 0x7F.
fn lookup_40(opcode: u8) -> (i: Instruction)
    requires
        0x40 <= opcode <= 0x7F,
    ensures
        i.decodes(opcode),
        2 <= i.cycles <= 8,
{
    match opcode {
        0x40 => Instruction::new("RTI", Operation::Rti, AddrMode::Imp, 6),
        0x41 => Instruction::new("EOR", Operation::Eor, AddrMode::Izx, 6),
        0x42 => Instruction::new("???", Operation::Xxx, AddrMode::Imp, 2),
        0x43 => Instruction::new("???", Operation::Xxx, AddrMode::Imp, 8),
        0x44 => Instruction::new("???", Operation::Nop, AddrMode::Imp, 3),
        0x45 => Instruction::new("EOR", Operation::Eor, AddrMode::Zp0, 3),
        0x46 => Instruction::new("LSR", Operation::Lsr, AddrMode::Zp0, 5),
        0x47 => Instruction::new("???", Operation::Xxx, AddrMode::Imp, 5),
        0x48 => Instruction::new("PHA", Operation::Pha, AddrMode::Imp, 3),
        0x49 => Instruction::new("EOR", Operation::Eor, AddrMode::Imm, 2),
        0x4A => Instruction::new("LSR", Operation::Lsr, AddrMode::Imp, 2),
        0x4B => Instruction::new("???", Operation::Xxx, AddrMode::Imp, 2),
        0x4C => Instruction::new("JMP", Operation::Jmp, AddrMode::Abs, 3),
        0x4D => Instruction::new("EOR", Operation::Eor, AddrMode::Abs, 4),
        0x4E => Instruction::new("LSR", Operation::Lsr, AddrMode::Abs, 6),
        0x4F => Instruction::new("???", Operation::Xxx, AddrMode::Imp, 6),
        0x50 => Instruction::new("BVC", Operation::Bvc, AddrMode::Rel, 2),
        0x51 => Instruction::new("EOR", Operation::Eor, AddrMode::Izy, 5),
        0x52 => Instruction::new("???", Operation::Xxx, AddrMode::Imp, 2),
        0x53 => Instruction::new("???", Operation::Xxx, AddrMode::Imp, 8),
        0x54 => Instruction::new("???", Operation::Nop, AddrMode::Imp, 4),
        0x55 => Instruction::new("EOR", Operation::Eor, AddrMode::Zpx, 4),
        0x56 => Instruction::new("LSR", Operation::Lsr, AddrMode::Zpx, 6),
        0x57 => Instruction::new("???", Operation::Xxx, AddrMode::Imp, 6),
        0x58 => Instruction::new("CLI", Operation::Cli, AddrMode::Imp, 2),
        0x59 => Instruction::new("EOR", Operation::Eor, AddrMode::Aby, 4),
        0x5A => Instruction::new("???", Operation::Nop, AddrMode::Imp, 2),
        0x5B => Instruction::new("???", Operation::Xxx, AddrMode::Imp, 7),
        0x5C => Instruction::new("???", Operation::Nop, AddrMode::Imp, 4),
        0x5D => Instruction::new("EOR", Operation::Eor, AddrMode::Abx, 4),
        0x5E => Instruction::new("LSR", Operation::Lsr, AddrMode::Abx, 7),
        0x5F => Instruction::new("???", Operation::Xxx, AddrMode::Imp, 7),
        0x60 => Instruction::new("RTS", Operation::Rts, AddrMode::Imp, 6),
        0x61 => Instruction::new("ADC", Operation::Adc, AddrMode::Izx, 6),
        0x62 => Instruction::new("???", Operation::Xxx, AddrMode::Imp, 2),
        0x63 => Instruction::new("???", Operation::Xxx, AddrMode::Imp, 8),
        0x64 => Instruction::new("???", Operation::Nop, AddrMode::Imp, 3),
        0x65 => Instruction::new("ADC", Operation::Adc, AddrMode::Zp0, 3),
        0x66 => Instruction::new("ROR", Operation::Ror, AddrMode::Zp0, 5),
        0x67 => Instruction::new("???", Operation::Xxx, AddrMode::Imp, 5),
        0x68 => Instruction::new("PLA", Operation::Pla, AddrMode::Imp, 4),
        0x69 => Instruction::new("ADC", Operation::Adc, AddrMode::Imm, 2),
        0x6A => Instruction::new("ROR", Operation::Ror, AddrMode::Imp, 2),
        0x6B => Instruction::new("???", Operation::Xxx, AddrMode::Imp, 2),
        0x6C => Instruction::new("JMP", Operation::Jmp, AddrMode::Ind, 5),
        0x6D => Instruction::new("ADC", Operation::Adc, AddrMode::Abs, 4),
        0x6E => Instruction::new("ROR", Operation::Ror, AddrMode::Abs, 6),
        0x6F => Instruction::new("???", Operation::Xxx, AddrMode::Imp, 6),
        0x70 => Instruction::new("BVS", Operation::Bvs, AddrMode::Rel, 2),
        0x71 => Instruction::new("ADC", Operation::Adc, AddrMode::Izy, 5),
        0x72 => Instruction::new("???", Operation::Xxx, AddrMode::Imp, 2),
        0x73 => Instruction::new("???", Operation::Xxx, AddrMode::Imp, 8),
        0x74 => Instruction::new("???", Operation::Nop, AddrMode::Imp, 4),
        0x75 => Instruction::new("ADC", Operation::Adc, AddrMode::Zpx, 4),
        0x76 => Instruction::new("ROR", Operation::Ror, AddrMode::Zpx, 6),
        0x77 => Instruction::new("???", Operation::Xxx, AddrMode::Imp, 6),
        0x78 => Instruction::new("SEI", Operation::Sei, AddrMode::Imp, 2),
        0x79 => Instruction::new("ADC", Operation::Adc, AddrMode::Aby, 4),
        0x7A => Instruction::new("???", Operation::Nop, AddrMode::Imp, 2),
        0x7B => Instruction::new("???", Operation::Xxx, AddrMode::Imp, 7),
        0x7C => Instruction::new("???", Operation::Nop, AddrMode::Imp, 4),
        0x7D => Instruction::new("ADC", Operation::Adc, AddrMode::Abx, 4),
        0x7E => Instruction::new("ROR", Operation::Ror, AddrMode::Abx, 7),
        0x7F => Instruction::new("???", Operation::Xxx, AddrMode::Imp, 7),
        _ => Instruction::new("???", Operation::Xxx, AddrMode::Imp, 2),
    }
}

/// Opcodes 0x80 to 0xBF.
fn lookup_80(opcode: u8) -> (i: Instruction)
    requires
        0x80 <= opcode <= 0xBF,
    ensures
        i.decodes(opcode),
        2 <= i.cycles <= 8,
{
    match opcode {
        0x80 => Instruction::new("???", Operation::Nop, AddrMode::Imp, 2),
        0x81 => Instruction::new("STA", Operation::Sta, AddrMode::Izx, 6),
        0x82 => Instruction::new("???", Operation::Nop, AddrMode::Imp, 2),
        0x83 => Instruction::new("???", Operation::Xxx, AddrMode::Imp, 6),
        0x84 => Instruction::new("STY", Operation::Sty, AddrMode::Zp0, 3),
        0x85 => Instruction::new("STA", Operation::Sta, AddrMode::Zp0, 3),
        0x86 => Instruction::new("STX", Operation::Stx, AddrMode::Zp0, 3),
        0x87 => Instruction::new("???", Operation::Xxx, AddrMode::Imp, 3),
        0x88 => Instruction::new("DEY", Operation::Dey, AddrMode::Imp, 2),
        0x89 => Instruction::new("???", Operation::Nop, AddrMode::Imp, 2),
        0x8A => Instruction::new("TXA", Operation::Txa, AddrMode::Imp, 2),
        0x8B => Instruction::new("???", Operation::Xxx, AddrMode::Imp, 2),
        0x8C => Instruction::new("STY", Operation::Sty, AddrMode::Abs, 4),
        0x8D => Instruction::new("STA", Operation::Sta, AddrMode::Abs, 4),
        0x8E => Instruction::new("STX", Operation::Stx, AddrMode::Abs, 4),
        0x8F => Instruction::new("???", Operation::Xxx, AddrMode::Imp, 4),
        0x90 => Instruction::new("BCC", Operation::Bcc, AddrMode::Rel, 2),
        0x91 => Instruction::new("STA", Operation::Sta, AddrMode::Izy, 6),
        0x92 => Instruction::new("???", Operation::Xxx, AddrMode::Imp, 2),
        0x93 => Instruction::new("???", Operation::Xxx, AddrMode::Imp, 6),
        0x94 => Instruction::new("STY", Operation::Sty, AddrMode::Zpx, 4),
        0x95 => Instruction::new("STA", Operation::Sta, AddrMode::Zpx, 4),
        0x96 => Instruction::new("STX", Operation::Stx, AddrMode::Zpy, 4),
        0x97 => Instruction::new("???", Operation::Xxx, AddrMode::Imp, 4),
        0x98 => Instruction::new("TYA", Operation::Tya, AddrMode::Imp, 2),
        0x99 => Instruction::new("STA", Operation::Sta, AddrMode::Aby, 5),
        0x9A => Instruction::new("TXS", Operation::Txs, AddrMode::Imp, 2),
        0x9B => Instruction::new("???", Operation::Xxx, AddrMode::Imp, 5),
        0x9C => Instruction::new("???", Operation::Nop, AddrMode::Imp, 5),
        0x9D => Instruction::new("STA", Operation::Sta, AddrMode::Abx, 5),
        0x9E => Instruction::new("???", Operation::Xxx, AddrMode::Imp, 5),
        0x9F => Instruction::new("???", Operation::Xxx, AddrMode::Imp, 5),
        0xA0 => Instruction::new("LDY", Operation::Ldy, AddrMode::Imm, 2),
        0xA1 => Instruction::new("LDA", Operation::Lda, AddrMode::Izx, 6),
        0xA2 => Instruction::new("LDX", Operation::Ldx, AddrMode::Imm, 2),
        0xA3 => Instruction::new("???", Operation::Xxx, AddrMode::Imp, 6),
        0xA4 => Instruction::new("LDY", Operation::Ldy, AddrMode::Zp0, 3),
        0xA5 => Instruction::new("LDA", Operation::Lda, AddrMode::Zp0, 3),
        0xA6 => Instruction::new("LDX", Operation::Ldx, AddrMode::Zp0, 3),
        0xA7 => Instruction::new("???", Operation::Xxx, AddrMode::Imp, 3),
        0xA8 => Instruction::new("TAY", Operation::Tay, AddrMode::Imp, 2),
        0xA9 => Instruction::new("LDA", Operation::Lda, AddrMode::Imm, 2),
        0xAA => Instruction::new("TAX", Operation::Tax, AddrMode::Imp, 2),
        0xAB => Instruction::new("???", Operation::Xxx, AddrMode::Imp, 2),
        0xAC => Instruction::new("LDY", Operation::Ldy, AddrMode::Abs, 4),
        0xAD => Instruction::new("LDA", Operation::Lda, AddrMode::Abs, 4),
        0xAE => Instruction::new("LDX", Operation::Ldx, AddrMode::Abs, 4),
        0xAF => Instruction::new("???", Operation::Xxx, AddrMode::Imp, 4),
        0xB0 => Instruction::new("BCS", Operation::Bcs, AddrMode::Rel, 2),
        0xB1 => Instruction::new("LDA", Operation::Lda, AddrMode::Izy, 5),
        0xB2 => Instruction::new("???", Operation::Xxx, AddrMode::Imp, 2),
        0xB3 => Instruction::new("???", Operation::Xxx, AddrMode::Imp, 5),
        0xB4 => Instruction::new("LDY", Operation::Ldy, AddrMode::Zpx, 4),
        0xB5 => Instruction::new("LDA", Operation::Lda, AddrMode::Zpx, 4),
        0xB6 => Instruction::new("LDX", Operation::Ldx, AddrMode::Zpy, 4),
        0xB7 => Instruction::new("???", Operation::Xxx, AddrMode::Imp, 4),
        0xB8 => Instruction::new("CLV", Operation::Clv, AddrMode::Imp, 2),
        0xB9 => Instruction::new("LDA", Operation::Lda, AddrMode::Aby, 4),
        0xBA => Instruction::new("TSX", Operation::Tsx, AddrMode::Imp, 2),
        0xBB => Instruction::new("???", Operation::Xxx, AddrMode::Imp, 4),
        0xBC => Instruction::new("LDY", Operation::Ldy, AddrMode::Abx, 4),
        0xBD => Instruction::new("LDA", Operation::Lda, AddrMode::Abx, 4),
        0xBE => Instruction::new("LDX", Operation::Ldx, AddrMode::Aby, 4),
        0xBF => Instruction::new("???", Operation::Xxx, AddrMode::Imp, 4),
        _ => Instruction::new("???", Operation::Xxx, AddrMode::Imp, 2),
    }
}

/// Opcodes 0xC0 to 0xFF.
fn lookup_c0(opcode: u8) -> (i: Instruction)
    requires
        0xC0 <= opcode <= 0xFF,
    ensures
        i.decodes(opcode),
        2 <= i.cycles <= 8,
{
    match opcode {
        0xC0 => Instruction::new("CPY", Operation::Cpy, AddrMode::Imm, 2),
        0xC1 => Instruction::new("CMP", Operation::Cmp, AddrMode::Izx, 6),
        0xC2 => Instruction::new("???", Operation::Nop, AddrMode::Imp, 2),
        0xC3 => Instruction::new("???", Operation::Xxx, AddrMode::Imp, 8),
        0xC4 => Instruction::new("CPY", Operation::Cpy, AddrMode::Zp0, 3),
        0xC5 => Instruction::new("CMP", Operation::Cmp, AddrMode::Zp0, 3),
        0xC6 => Instruction::new("DEC", Operation::Dec, AddrMode::Zp0, 5),
        0xC7 => Instruction::new("???", Operation::Xxx, AddrMode::Imp, 5),
        0xC8 => Instruction::new("INY", Operation::Iny, AddrMode::Imp, 2),
        0xC9 => Instruction::new("CMP", Operation::Cmp, AddrMode::Imm, 2),
        0xCA => Instruction::new("DEX", Operation::Dex, AddrMode::Imp, 2),
        0xCB => Instruction::new("???", Operation::Xxx, AddrMode::Imp, 2),
        0xCC => Instruction::new("CPY", Operation::Cpy, AddrMode::Abs, 4),
        0xCD => Instruction::new("CMP", Operation::Cmp, AddrMode::Abs, 4),
        0xCE => Instruction::new("DEC", Operation::Dec, AddrMode::Abs, 6),
        0xCF => Instruction::new("???", Operation::Xxx, AddrMode::Imp, 6),
        0xD0 => Instruction::new("BNE", Operation::Bne, AddrMode::Rel, 2),
        0xD1 => Instruction::new("CMP", Operation::Cmp, AddrMode::Izy, 5),
        0xD2 => Instruction::new("???", Operation::Xxx, AddrMode::Imp, 2),
        0xD3 => Instruction::new("???", Operation::Xxx, AddrMode::Imp, 8),
        0xD4 => Instruction::new("???", Operation::Nop, AddrMode::Imp, 4),
        0xD5 => Instruction::new("CMP", Operation::Cmp, AddrMode::Zpx, 4),
        0xD6 => Instruction::new("DEC", Operation::Dec, AddrMode::Zpx, 6),
        0xD7 => Instruction::new("???", Operation::Xxx, AddrMode::Imp, 6),
        0xD8 => Instruction::new("CLD", Operation::Cld, AddrMode::Imp, 2),
        0xD9 => Instruction::new("CMP", Operation::Cmp, AddrMode::Aby, 4),
        0xDA => Instruction::new("NOP", Operation::Nop, AddrMode::Imp, 2),
        0xDB => Instruction::new("???", Operation::Xxx, AddrMode::Imp, 7),
        0xDC => Instruction::new("???", Operation::Nop, AddrMode::Imp, 4),
        0xDD => Instruction::new("CMP", Operation::Cmp, AddrMode::Abx, 4),
        0xDE => Instruction::new("DEC", Operation::Dec, AddrMode::Abx, 7),
        0xDF => Instruction::new("???", Operation::Xxx, AddrMode::Imp, 7),
        0xE0 => Instruction::new("CPX", Operation::Cpx, AddrMode::Imm, 2),
        0xE1 => Instruction::new("SBC", Operation::Sbc, AddrMode::Izx, 6),
        0xE2 => Instruction::new("???", Operation::Nop, AddrMode::Imp, 2),
        0xE3 => Instruction::new("???", Operation::Xxx, AddrMode::Imp, 8),
        0xE4 => Instruction::new("CPX", Operation::Cpx, AddrMode::Zp0, 3),
        0xE5 => Instruction::new("SBC", Operation::Sbc, AddrMode::Zp0, 3),
        0xE6 => Instruction::new("INC", Operation::Inc, AddrMode::Zp0, 5),
        0xE7 => Instruction::new("???", Operation::Xxx, AddrMode::Imp, 5),
        0xE8 => Instruction::new("INX", Operation::Inx, AddrMode::Imp, 2),
        0xE9 => Instruction::new("SBC", Operation::Sbc, AddrMode::Imm, 2),
        0xEA => Instruction::new("NOP", Operation::Nop, AddrMode::Imp, 2),
        0xEB => Instruction::new("???", Operation::Sbc, AddrMode::Imp, 2),
        0xEC => Instruction::new("CPX", Operation::Cpx, AddrMode::Abs, 4),
        0xED => Instruction::new("SBC", Operation::Sbc, AddrMode::Abs, 4),
        0xEE => Instruction::new("INC", Operation::Inc, AddrMode::Abs, 6),
        0xEF => Instruction::new("???", Operation::Xxx, AddrMode::Imp, 6),
        0xF0 => Instruction::new("BEQ", Operation::Beq, AddrMode::Rel, 2),
        0xF1 => Instruction::new("SBC", Operation::Sbc, AddrMode::Izy, 5),
        0xF2 => Instruction::new("???", Operation::Xxx, AddrMode::Imp, 2),
        0xF3 => Instruction::new("???", Operation::Xxx, AddrMode::Imp, 8),
        0xF4 => Instruction::new("???", Operation::Nop, AddrMode::Imp, 4),
        0xF5 => Instruction::new("SBC", Operation::Sbc, AddrMode::Zpx, 4),
        0xF6 => Instruction::new("INC", Operation::Inc, AddrMode::Zpx, 6),
        0xF7 => Instruction::new("???", Operation::Xxx, AddrMode::Imp, 6),
        0xF8 => Instruction::new("SED", Operation::Sed, AddrMode::Imp, 2),
        0xF9 => Instruction::new("SBC", Operation::Sbc, AddrMode::Aby, 4),
        0xFA => Instruction::new("NOP", Operation::Nop, AddrMode::Imp, 2),
        0xFB => Instruction::new("???", Operation::Xxx, AddrMode::Imp, 7),
        0xFC => Instruction::new("???", Operation::Nop, AddrMode::Imp, 4),
        0xFD => Instruction::new("SBC", Operation::Sbc, AddrMode::Abx, 4),
        0xFE => Instruction::new("INC", Operation::Inc, AddrMode::Abx, 7),
        0xFF => Instruction::new("???", Operation::Xxx, AddrMode::Imp, 7),
        _ => Instruction::new("???", Operation::Xxx, AddrMode::Imp, 2),
    }
}

/// The decode table, one row per opcode byte.
pub fn lookup(opcode: u8) -> (i: Instruction)
    ensures
        i.decodes(opcode),
        2 <= i.cycles <= 8,
{
    if opcode < 0x40 {
        lookup_00(opcode)
    } else if opcode < 0x80 {
        lookup_40(opcode)
    } else if opcode < 0xC0 {
        lookup_80(opcode)
    } else {
        lookup_c0(opcode)
    }
}

} // verus!
