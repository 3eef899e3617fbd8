use vstd::prelude::*;
use crate::bus::{board, Board, Bus};
use crate::cartridge::Cartridge;
use crate::opcodes::{addrmode_of, cycles_of, lookup, operation_of, AddrMode, Operation};
use crate::ppu::Ppu;

verus! {

/// Carry.
pub const FLAG_C: u8 = 0x01;

/// Zero.
pub const FLAG_Z: u8 = 0x02;

/// Interrupt disable.
pub const FLAG_I: u8 = 0x04;

/// Decimal mode; kept but never consulted.
pub const FLAG_D: u8 = 0x08;

/// Break.
pub const FLAG_B: u8 = 0x10;

/// Unused; reads as one.
pub const FLAG_U: u8 = 0x20;

/// Overflow.
pub const FLAG_V: u8 = 0x40;

/// Negative.
pub const FLAG_N: u8 = 0x80;

/// The processor: its registers and the latches of the instruction in flight.
#[derive(Clone, Copy, PartialEq, Eq, Structural, Debug)]
pub struct Cpu {
    pub a: u8,
    pub x: u8,
    pub y: u8,
    pub stkp: u8,
    pub pc: u16,
    pub status: u8,
    /// The operand of the instruction in flight.
    pub fetched: u8,
    /// The effective address of the instruction in flight.
    pub addr_abs: u16,
    /// The sign-extended offset of a branch.
    pub addr_rel: u16,
    pub opcode: u8,
    /// Cycles that the instruction in flight still takes.
    pub cycles: u8,
    /// Cycles since power-on.
    pub clock_count: u64,
}

/// The processor together with everything it can reach, as mathematical values.
pub struct Machine {
    pub cpu: Cpu,
    pub board: Board,
}

/// The machine that these four parts make up.
pub open spec fn machine(cpu: Cpu, bus: Bus, ppu: Ppu, cart: Cartridge) -> Machine {
    Machine { cpu, board: board(bus, ppu, cart) }
}

/// The status byte with `flag` set if `on`, cleared if not.
pub open spec fn with_flag(status: u8, flag: u8, on: bool) -> u8 {
    if on {
        status | flag
    } else {
        status & !flag
    }
}

/// Whether `flag` is set in the status byte.
pub open spec fn flag_set(status: u8, flag: u8) -> bool {
    (status & flag) > 0
}

/// The status byte with zero and negative set from `value`.
pub open spec fn with_zn(status: u8, value: u8) -> u8 {
    with_flag(with_flag(status, FLAG_Z, value == 0x00), FLAG_N, (value & 0x80) == 0x80)
}

/// The sixteen-bit word with these two bytes.
pub open spec fn word(lo: u8, hi: u8) -> u16 {
    ((hi as u16) << 8) | (lo as u16)
}

/// A branch offset as a sixteen-bit two's complement number.
pub open spec fn sign_extended(offset: u8) -> u16 {
    if (offset & 0x80) > 0 {
        (offset as u16) | 0xFF00
    } else {
        offset as u16
    }
}

/// The address in page one that the stack pointer points at.
pub open spec fn stack_addr(stkp: u8) -> u16 {
    0x0100u16.wrapping_add(stkp as u16)
}

/// The high byte of a word.
pub open spec fn high_byte(w: u16) -> u8 {
    ((w >> 8) & 0x00FF) as u8
}

/// The low byte of a word.
pub open spec fn low_byte(w: u16) -> u8 {
    (w & 0x00FF) as u8
}

/// Add with carry: the sum in sixteen bits gives carry above 0xFF, the result in the
/// low byte, and overflow where both inputs differ in sign from the result.
pub open spec fn added(a: u8, v: u8, status: u8) -> (u8, u8) {
    let temp: u16 = (a as u16).wrapping_add(v as u16).wrapping_add(
        if flag_set(status, FLAG_C) {
            1u16
        } else {
            0u16
        },
    );
    let s1 = with_flag(status, FLAG_C, temp > 255);
    let s2 = with_flag(s1, FLAG_Z, (temp & 0x00FF) == 0);
    let s3 = with_flag(s2, FLAG_N, (temp & 0x0080) == 0x0080);
    let s4 = with_flag(s3, FLAG_V, (!((a as u16) ^ (v as u16)) & ((a as u16) ^ temp) & 0x0080) == 0x0080);
    (low_byte(temp), s4)
}

/// Subtract with borrow: the operand goes through the adder inverted.
pub open spec fn subtracted(a: u8, v: u8, status: u8) -> (u8, u8) {
    added(a, v ^ 0xFF, status)
}

/// The status after comparing a register with an operand: carry where the register
/// is at least the operand, zero and negative from their difference.
pub open spec fn compared(register: u8, v: u8, status: u8) -> u8 {
    with_zn(with_flag(status, FLAG_C, register >= v), register.wrapping_sub(v))
}

/// The status after a bit test: zero from the accumulator masked with the operand,
/// negative and overflow from the operand's top two bits.
pub open spec fn bit_tested(a: u8, v: u8, status: u8) -> u8 {
    with_flag(
        with_flag(with_flag(status, FLAG_Z, (a & v) == 0x00), FLAG_N, (v & 0x80) == 0x80),
        FLAG_V,
        (v & 0x40) == 0x40,
    )
}

/// Shift left: bit 7 goes to carry.
pub open spec fn shifted_left(v: u8, status: u8) -> (u8, u8) {
    (v << 1, with_zn(with_flag(status, FLAG_C, (v & 0x80) == 0x80), v << 1))
}

/// Shift right: bit 0 goes to carry.
pub open spec fn shifted_right(v: u8, status: u8) -> (u8, u8) {
    (v >> 1, with_zn(with_flag(status, FLAG_C, (v & 0x01) == 0x01), v >> 1))
}

/// Rotate left through carry.
pub open spec fn rotated_left(v: u8, status: u8) -> (u8, u8) {
    let r: u8 = (v << 1) | (if flag_set(status, FLAG_C) { 1u8 } else { 0u8 });
    (r, with_zn(with_flag(status, FLAG_C, (v & 0x80) == 0x80), r))
}

/// Rotate right through carry.
pub open spec fn rotated_right(v: u8, status: u8) -> (u8, u8) {
    let r: u8 = (if flag_set(status, FLAG_C) { 0x80u8 } else { 0u8 }) | (v >> 1);
    (r, with_zn(with_flag(status, FLAG_C, (v & 0x01) == 0x01), r))
}

/// Whether the branch `op` is taken under `status`.
pub open spec fn branch_taken(op: Operation, status: u8) -> bool {
    match op {
        Operation::Bcc => !flag_set(status, FLAG_C),
        Operation::Bcs => flag_set(status, FLAG_C),
        Operation::Bne => !flag_set(status, FLAG_Z),
        Operation::Beq => flag_set(status, FLAG_Z),
        Operation::Bpl => !flag_set(status, FLAG_N),
        Operation::Bmi => flag_set(status, FLAG_N),
        Operation::Bvc => !flag_set(status, FLAG_V),
        Operation::Bvs => flag_set(status, FLAG_V),
        _ => false,
    }
}

impl Cpu {
    /// The processor after a taken branch: one more cycle, and another if the target
    /// lies on another page than the next instruction.
    pub open spec fn branched(self) -> Cpu {
        let target = self.pc.wrapping_add(self.addr_rel);
        Cpu {
            cycles: if (target & 0xFF00) != (self.pc & 0xFF00) {
                self.cycles.wrapping_add(1).wrapping_add(1)
            } else {
                self.cycles.wrapping_add(1)
            },
            addr_abs: target,
            pc: target,
            ..self
        }
    }

    /// The processor after an operation that needs the operand `v` and changes
    /// registers only.
    pub open spec fn with_operand(self, op: Operation, v: u8) -> Cpu {
        match op {
            Operation::Adc => Cpu { a: added(self.a, v, self.status).0, status: added(self.a, v, self.status).1, ..self },
            Operation::Sbc => Cpu {
                a: subtracted(self.a, v, self.status).0,
                status: subtracted(self.a, v, self.status).1,
                ..self
            },
            Operation::And => Cpu { a: self.a & v, status: with_zn(self.status, self.a & v), ..self },
            Operation::Eor => Cpu { a: self.a ^ v, status: with_zn(self.status, self.a ^ v), ..self },
            Operation::Ora => Cpu { a: self.a | v, status: with_zn(self.status, self.a | v), ..self },
            Operation::Lda => Cpu { a: v, status: with_zn(self.status, v), ..self },
            Operation::Ldx => Cpu { x: v, status: with_zn(self.status, v), ..self },
            Operation::Ldy => Cpu { y: v, status: with_zn(self.status, v), ..self },
            Operation::Cmp => Cpu { status: compared(self.a, v, self.status), ..self },
            Operation::Cpx => Cpu { status: compared(self.x, v, self.status), ..self },
            Operation::Cpy => Cpu { status: compared(self.y, v, self.status), ..self },
            Operation::Bit => Cpu { status: bit_tested(self.a, v, self.status), ..self },
            _ => self,
        }
    }

    /// The processor after an operation that touches registers only.
    pub open spec fn with_implied(self, op: Operation) -> Cpu {
        match op {
            Operation::Clc => Cpu { status: with_flag(self.status, FLAG_C, false), ..self },
            Operation::Cld => Cpu { status: with_flag(self.status, FLAG_D, false), ..self },
            Operation::Cli => Cpu { status: with_flag(self.status, FLAG_I, false), ..self },
            Operation::Clv => Cpu { status: with_flag(self.status, FLAG_V, false), ..self },
            Operation::Sec => Cpu { status: with_flag(self.status, FLAG_C, true), ..self },
            Operation::Sed => Cpu { status: with_flag(self.status, FLAG_D, true), ..self },
            Operation::Sei => Cpu { status: with_flag(self.status, FLAG_I, true), ..self },
            Operation::Dex => Cpu {
                x: self.x.wrapping_sub(1),
                status: with_zn(self.status, self.x.wrapping_sub(1)),
                ..self
            },
            Operation::Dey => Cpu {
                y: self.y.wrapping_sub(1),
                status: with_zn(self.status, self.y.wrapping_sub(1)),
                ..self
            },
            Operation::Inx => Cpu {
                x: self.x.wrapping_add(1),
                status: with_zn(self.status, self.x.wrapping_add(1)),
                ..self
            },
            Operation::Iny => Cpu {
                y: self.y.wrapping_add(1),
                status: with_zn(self.status, self.y.wrapping_add(1)),
                ..self
            },
            Operation::Tax => Cpu { x: self.a, status: with_zn(self.status, self.a), ..self },
            Operation::Tay => Cpu { y: self.a, status: with_zn(self.status, self.a), ..self },
            Operation::Tsx => Cpu { x: self.stkp, status: with_zn(self.status, self.stkp), ..self },
            Operation::Txa => Cpu { a: self.x, status: with_zn(self.status, self.x), ..self },
            Operation::Tya => Cpu { a: self.y, status: with_zn(self.status, self.y), ..self },
            Operation::Txs => Cpu { stkp: self.x, ..self },
            Operation::Jmp => Cpu { pc: self.addr_abs, ..self },
            Operation::Bcc | Operation::Bcs | Operation::Bne | Operation::Beq | Operation::Bpl | Operation::Bmi
            | Operation::Bvc | Operation::Bvs => if branch_taken(op, self.status) {
                self.branched()
            } else {
                self
            },
            _ => self,
        }
    }
}

/// What a read-modify-write operation makes of the operand `v`: the new value and
/// the new status.
pub open spec fn modified(op: Operation, v: u8, status: u8) -> (u8, u8) {
    match op {
        Operation::Asl => shifted_left(v, status),
        Operation::Lsr => shifted_right(v, status),
        Operation::Rol => rotated_left(v, status),
        Operation::Ror => rotated_right(v, status),
        Operation::Inc => (v.wrapping_add(1), with_zn(status, v.wrapping_add(1))),
        Operation::Dec => (v.wrapping_sub(1), with_zn(status, v.wrapping_sub(1))),
        _ => (v, status),
    }
}

/// Whether a no-operation opcode is one of those that take a cycle more when its
/// address crosses a page.
pub open spec fn nop_may_add_cycle(opcode: u8) -> bool {
    opcode == 0x1C || opcode == 0x3C || opcode == 0x5C || opcode == 0x7C || opcode == 0xDC || opcode == 0xFC
}

impl Machine {
    /// A read of `addr` through the bus: the byte, and the machine afterwards.
    pub open spec fn read(self, addr: u16) -> (u8, Machine) {
        (self.board.read(addr, false), Machine { board: self.board.after_read(addr, false), ..self })
    }

    /// The machine after a write of `data` to `addr` through the bus.
    pub open spec fn write(self, addr: u16, data: u8) -> Machine {
        Machine { board: self.board.after_write(addr, data), ..self }
    }

    /// The machine with its processor replaced.
    pub open spec fn with_cpu(self, cpu: Cpu) -> Machine {
        Machine { cpu, ..self }
    }

    /// Reads the byte at the program counter and steps past it.
    pub open spec fn next_byte(self) -> (u8, Machine) {
        let (v, m) = self.read(self.cpu.pc);
        (v, m.with_cpu(Cpu { pc: m.cpu.pc.wrapping_add(1), ..m.cpu }))
    }

    /// Pushes a byte: it is written at the stack pointer, which then moves down.
    pub open spec fn push(self, data: u8) -> Machine {
        let m = self.write(stack_addr(self.cpu.stkp), data);
        m.with_cpu(Cpu { stkp: m.cpu.stkp.wrapping_sub(1), ..m.cpu })
    }

    /// Pulls a byte: the stack pointer moves up, then the byte it points at is read.
    pub open spec fn pull(self) -> (u8, Machine) {
        self.with_cpu(Cpu { stkp: self.cpu.stkp.wrapping_add(1), ..self.cpu }).read(
            stack_addr(self.cpu.stkp.wrapping_add(1)),
        )
    }

    /// Reads the word at `addr`, low byte first.
    pub open spec fn read_word(self, addr: u16) -> (u16, Machine) {
        let (lo, m1) = self.read(addr);
        let (hi, m2) = m1.read(addr.wrapping_add(1));
        (word(lo, hi), m2)
    }

    /// Locates the operand under `mode`. Beside the machine afterwards this gives 1
    /// where the indexed address lies on another page than its base, else 0.
    pub open spec fn addressing(self, mode: AddrMode) -> (u8, Machine) {
        match mode {
            AddrMode::Imp => (0, self.with_cpu(Cpu { fetched: self.cpu.a, ..self.cpu })),
            AddrMode::Imm => (
                0,
                self.with_cpu(Cpu { addr_abs: self.cpu.pc, pc: self.cpu.pc.wrapping_add(1), ..self.cpu }),
            ),
            AddrMode::Zp0 => {
                let (v, m) = self.next_byte();
                (0, m.with_cpu(Cpu { addr_abs: v as u16, ..m.cpu }))
            },
            AddrMode::Zpx => {
                let (v, m) = self.next_byte();
                (0, m.with_cpu(Cpu { addr_abs: v.wrapping_add(m.cpu.x) as u16, ..m.cpu }))
            },
            AddrMode::Zpy => {
                let (v, m) = self.next_byte();
                (0, m.with_cpu(Cpu { addr_abs: v.wrapping_add(m.cpu.y) as u16, ..m.cpu }))
            },
            AddrMode::Rel => {
                let (v, m) = self.next_byte();
                (0, m.with_cpu(Cpu { addr_rel: sign_extended(v), ..m.cpu }))
            },
            AddrMode::Abs => {
                let (lo, m1) = self.next_byte();
                let (hi, m2) = m1.next_byte();
                (0, m2.with_cpu(Cpu { addr_abs: word(lo, hi), ..m2.cpu }))
            },
            AddrMode::Abx => {
                let (lo, m1) = self.next_byte();
                let (hi, m2) = m1.next_byte();
                let addr = word(lo, hi).wrapping_add(m2.cpu.x as u16);
                (
                    if (addr & 0xFF00) != ((hi as u16) << 8) { 1 } else { 0 },
                    m2.with_cpu(Cpu { addr_abs: addr, ..m2.cpu }),
                )
            },
            AddrMode::Aby => {
                let (lo, m1) = self.next_byte();
                let (hi, m2) = m1.next_byte();
                let addr = word(lo, hi).wrapping_add(m2.cpu.y as u16);
                (
                    if (addr & 0xFF00) != ((hi as u16) << 8) { 1 } else { 0 },
                    m2.with_cpu(Cpu { addr_abs: addr, ..m2.cpu }),
                )
            },
            AddrMode::Ind => {
                let (ptr_lo, m1) = self.next_byte();
                let (ptr_hi, m2) = m1.next_byte();
                let ptr = word(ptr_lo, ptr_hi);
                let (hi, m3) = m2.read(if ptr_lo == 0xFF { ptr & 0xFF00 } else { ptr.wrapping_add(1) });
                let (lo, m4) = m3.read(ptr);
                (0, m4.with_cpu(Cpu { addr_abs: word(lo, hi), ..m4.cpu }))
            },
            AddrMode::Izx => {
                let (t, m1) = self.next_byte();
                let (lo, m2) = m1.read((t as u16).wrapping_add(m1.cpu.x as u16) & 0x00FF);
                let (hi, m3) = m2.read((t as u16).wrapping_add(m2.cpu.x as u16).wrapping_add(1) & 0x00FF);
                (0, m3.with_cpu(Cpu { addr_abs: word(lo, hi), ..m3.cpu }))
            },
            AddrMode::Izy => {
                let (t, m1) = self.next_byte();
                let (lo, m2) = m1.read((t as u16) & 0x00FF);
                let (hi, m3) = m2.read((t as u16).wrapping_add(1) & 0x00FF);
                let addr = word(lo, hi).wrapping_add(m3.cpu.y as u16);
                (
                    if (addr & 0xFF00) != ((hi as u16) << 8) { 1 } else { 0 },
                    m3.with_cpu(Cpu { addr_abs: addr, ..m3.cpu }),
                )
            },
        }
    }

    /// Fetches the operand: the accumulator's copy under the implied mode, else the
    /// byte at the effective address.
    pub open spec fn fetch(self, mode: AddrMode) -> (u8, Machine) {
        if mode == AddrMode::Imp {
            (self.cpu.fetched, self)
        } else {
            let (v, m) = self.read(self.cpu.addr_abs);
            (v, m.with_cpu(Cpu { fetched: v, ..m.cpu }))
        }
    }

    /// The entry into an interrupt handler: the program counter and the status, with
    /// break clear and unused set, go to the stack; then interrupts are disabled and
    /// the program counter is loaded from `vector`.
    pub open spec fn interrupted(self, vector: u16, cycles: u8) -> Machine {
        let m1 = self.push(high_byte(self.cpu.pc)).push(low_byte(self.cpu.pc));
        let pushed = with_flag(with_flag(m1.cpu.status, FLAG_B, false), FLAG_U, true);
        let m2 = m1.with_cpu(Cpu { status: pushed, ..m1.cpu }).push(pushed);
        let (pc, m3) = m2.with_cpu(Cpu { status: with_flag(pushed, FLAG_I, true), ..m2.cpu }).read_word(vector);
        m3.with_cpu(Cpu { addr_abs: vector, pc, cycles, ..m3.cpu })
    }

    /// The software interrupt: the byte after the opcode is skipped, the program
    /// counter and the status go to the stack as for an interrupt but with break set,
    /// and the program counter is loaded from the vector at 0xFFFE.
    pub open spec fn broken(self) -> Machine {
        let pc = self.cpu.pc.wrapping_add(1);
        let m1 = self.with_cpu(Cpu { pc, ..self.cpu }).push(high_byte(pc)).push(low_byte(pc));
        let pushed = with_flag(with_flag(m1.cpu.status, FLAG_B, true), FLAG_U, true);
        let m2 = m1.with_cpu(Cpu { status: pushed, ..m1.cpu }).push(pushed);
        let (target, m3) = m2.with_cpu(
            Cpu { status: with_flag(with_flag(pushed, FLAG_B, false), FLAG_I, true), ..m2.cpu },
        ).read_word(0xFFFE);
        m3.with_cpu(Cpu { pc: target, ..m3.cpu })
    }

    /// The operations that use the stack.
    pub open spec fn stacked(self, op: Operation) -> Machine {
        match op {
            Operation::Pha => self.push(self.cpu.a),
            Operation::Php => {
                let m = self.push(self.cpu.status | FLAG_B | FLAG_U);
                m.with_cpu(
                    Cpu { status: with_flag(with_flag(m.cpu.status, FLAG_B, false), FLAG_U, false), ..m.cpu },
                )
            },
            Operation::Pla => {
                let (v, m) = self.pull();
                m.with_cpu(Cpu { a: v, status: with_zn(m.cpu.status, v), ..m.cpu })
            },
            Operation::Plp => {
                let (v, m) = self.pull();
                m.with_cpu(Cpu { status: with_flag(v, FLAG_U, true), ..m.cpu })
            },
            Operation::Jsr => {
                let pc = self.cpu.pc.wrapping_sub(1);
                let m = self.with_cpu(Cpu { pc, ..self.cpu }).push(high_byte(pc)).push(low_byte(pc));
                m.with_cpu(Cpu { pc: m.cpu.addr_abs, ..m.cpu })
            },
            Operation::Rts => {
                let (lo, m1) = self.pull();
                let (hi, m2) = m1.pull();
                m2.with_cpu(Cpu { pc: word(lo, hi).wrapping_add(1), ..m2.cpu })
            },
            Operation::Rti => {
                let (status, m1) = self.pull();
                let (lo, m2) = m1.pull();
                let (hi, m3) = m2.pull();
                m3.with_cpu(Cpu { status: status & !FLAG_B & !FLAG_U, pc: word(lo, hi), ..m3.cpu })
            },
            Operation::Brk => self.broken(),
            _ => self,
        }
    }

    /// An operation that reads its operand and changes registers only.
    pub open spec fn operated_on_operand(self, op: Operation, mode: AddrMode) -> Machine {
        let (v, m) = self.fetch(mode);
        m.with_cpu(m.cpu.with_operand(op, v))
    }

    /// An operation that reads its operand, changes it and stores it where it came
    /// from: the accumulator for a shift or rotate under the implied mode, else memory.
    pub open spec fn modified_in_place(self, op: Operation, mode: AddrMode) -> Machine {
        let (v, m) = self.fetch(mode);
        let (r, status) = modified(op, v, m.cpu.status);
        if mode == AddrMode::Imp && op != Operation::Inc && op != Operation::Dec {
            m.with_cpu(Cpu { a: r, status, ..m.cpu })
        } else {
            m.with_cpu(Cpu { status, ..m.cpu }).write(m.cpu.addr_abs, r)
        }
    }

    /// Carries out `op` on the operand that `mode` located. Beside the machine
    /// afterwards this gives 1 where the operation takes a cycle more on a crossed
    /// page, else 0.
    pub open spec fn operate(self, op: Operation, mode: AddrMode) -> (u8, Machine) {
        match op {
            Operation::Adc | Operation::Sbc | Operation::And | Operation::Eor | Operation::Ora | Operation::Lda
            | Operation::Ldx | Operation::Ldy | Operation::Cmp | Operation::Cpx | Operation::Cpy | Operation::Bit => (
                if op == Operation::Cpx || op == Operation::Cpy || op == Operation::Bit { 0 } else { 1 },
                self.operated_on_operand(op, mode),
            ),
            Operation::Asl | Operation::Lsr | Operation::Rol | Operation::Ror | Operation::Inc | Operation::Dec => (
                0,
                self.modified_in_place(op, mode),
            ),
            Operation::Sta => (0, self.write(self.cpu.addr_abs, self.cpu.a)),
            Operation::Stx => (0, self.write(self.cpu.addr_abs, self.cpu.x)),
            Operation::Sty => (0, self.write(self.cpu.addr_abs, self.cpu.y)),
            Operation::Pha | Operation::Php | Operation::Pla | Operation::Plp | Operation::Jsr | Operation::Rts
            | Operation::Rti | Operation::Brk => (0, self.stacked(op)),
            Operation::Nop => (if nop_may_add_cycle(self.cpu.opcode) { 1 } else { 0 }, self),
            Operation::Xxx => (0, self),
            _ => (0, self.with_cpu(self.cpu.with_implied(op))),
        }
    }

    /// One whole instruction: the opcode is read at the program counter and decoded,
    /// its operand located and its operation carried out. It takes its base cycles,
    /// and one more where both the addressing and the operation allow it. The unused
    /// flag is set before and after.
    pub open spec fn after_instruction(self) -> Machine {
        let (opcode, m1) = self.read(self.cpu.pc);
        let m2 = m1.with_cpu(
            Cpu {
                opcode,
                status: with_flag(m1.cpu.status, FLAG_U, true),
                pc: m1.cpu.pc.wrapping_add(1),
                cycles: cycles_of(opcode),
                ..m1.cpu
            },
        );
        let (crossed, m3) = m2.addressing(addrmode_of(opcode));
        let (may_add, m4) = m3.operate(operation_of(opcode), addrmode_of(opcode));
        m4.with_cpu(
            Cpu {
                cycles: m4.cpu.cycles.wrapping_add(crossed & may_add),
                status: with_flag(m4.cpu.status, FLAG_U, true),
                ..m4.cpu
            },
        )
    }

    /// One processor cycle: a new instruction is carried out if none is in flight;
    /// then a cycle of the instruction in flight is counted off.
    pub open spec fn after_clock(self) -> Machine {
        let m = if self.cpu.cycles == 0 {
            self.after_instruction()
        } else {
            self
        };
        m.with_cpu(
            Cpu { clock_count: m.cpu.clock_count.wrapping_add(1), cycles: m.cpu.cycles.wrapping_sub(1), ..m.cpu },
        )
    }

    /// The machine after a reset of the processor: the program counter comes from the
    /// vector at 0xFFFC, registers are cleared, the stack pointer is 0xFD and only
    /// the unused flag is set. The reset takes eight cycles.
    pub open spec fn after_reset(self) -> Machine {
        let (pc, m) = self.read_word(0xFFFC);
        m.with_cpu(
            Cpu {
                pc,
                a: 0,
                x: 0,
                y: 0,
                stkp: 0xFD,
                status: FLAG_U,
                addr_abs: 0,
                addr_rel: 0,
                fetched: 0,
                cycles: 8,
                ..m.cpu
            },
        )
    }

    /// The machine after an interrupt request: ignored while interrupts are disabled.
    pub open spec fn after_irq(self) -> Machine {
        if !flag_set(self.cpu.status, FLAG_I) {
            self.interrupted(0xFFFE, 7)
        } else {
            self
        }
    }

    /// The machine after a non-maskable interrupt.
    pub open spec fn after_nmi(self) -> Machine {
        self.interrupted(0xFFFA, 8)
    }
}

fn flagged(status: u8, flag: u8, on: bool) -> (r: u8)
    ensures
        r == with_flag(status, flag, on),
{
    if on {
        status | flag
    } else {
        status & !flag
    }
}

fn zero_negative(status: u8, value: u8) -> (r: u8)
    ensures
        r == with_zn(status, value),
{
    flagged(flagged(status, FLAG_Z, value == 0x00), FLAG_N, (value & 0x80) == 0x80)
}

fn add_with_carry(a: u8, v: u8, status: u8) -> (r: (u8, u8))
    ensures
        r == added(a, v, status),
{
    let carry: u16 = if (status & FLAG_C) > 0 { 1 } else { 0 };
    let temp: u16 = (a as u16).wrapping_add(v as u16).wrapping_add(carry);
    let s1 = flagged(status, FLAG_C, temp > 255);
    let s2 = flagged(s1, FLAG_Z, (temp & 0x00FF) == 0);
    let s3 = flagged(s2, FLAG_N, (temp & 0x0080) == 0x0080);
    let s4 = flagged(s3, FLAG_V, (!((a as u16) ^ (v as u16)) & ((a as u16) ^ temp) & 0x0080) == 0x0080);
    ((temp & 0x00FF) as u8, s4)
}

fn compare_with(register: u8, v: u8, status: u8) -> (r: u8)
    ensures
        r == compared(register, v, status),
{
    zero_negative(flagged(status, FLAG_C, register >= v), register.wrapping_sub(v))
}

fn modify(op: Operation, v: u8, status: u8) -> (r: (u8, u8))
    ensures
        r == modified(op, v, status),
{
    let carry_in: bool = (status & FLAG_C) > 0;
    match op {
        Operation::Asl => (v << 1, zero_negative(flagged(status, FLAG_C, (v & 0x80) == 0x80), v << 1)),
        Operation::Lsr => (v >> 1, zero_negative(flagged(status, FLAG_C, (v & 0x01) == 0x01), v >> 1)),
        Operation::Rol => {
            let r: u8 = (v << 1) | (if carry_in { 1 } else { 0 });
            (r, zero_negative(flagged(status, FLAG_C, (v & 0x80) == 0x80), r))
        },
        Operation::Ror => {
            let r: u8 = (if carry_in { 0x80 } else { 0 }) | (v >> 1);
            (r, zero_negative(flagged(status, FLAG_C, (v & 0x01) == 0x01), r))
        },
        Operation::Inc => (v.wrapping_add(1), zero_negative(status, v.wrapping_add(1))),
        Operation::Dec => (v.wrapping_sub(1), zero_negative(status, v.wrapping_sub(1))),
        _ => (v, status),
    }
}

fn takes_branch(op: Operation, status: u8) -> (taken: bool)
    ensures
        taken == branch_taken(op, status),
{
    match op {
        Operation::Bcc => !((status & FLAG_C) > 0),
        Operation::Bcs => (status & FLAG_C) > 0,
        Operation::Bne => !((status & FLAG_Z) > 0),
        Operation::Beq => (status & FLAG_Z) > 0,
        Operation::Bpl => !((status & FLAG_N) > 0),
        Operation::Bmi => (status & FLAG_N) > 0,
        Operation::Bvc => !((status & FLAG_V) > 0),
        Operation::Bvs => (status & FLAG_V) > 0,
        _ => false,
    }
}

impl Cpu {
    /// The processor at power-on: every register and latch zero.
    pub open spec fn power_on() -> Cpu {
        Cpu {
            a: 0,
            x: 0,
            y: 0,
            stkp: 0,
            pc: 0,
            status: 0,
            fetched: 0,
            addr_abs: 0,
            addr_rel: 0,
            opcode: 0,
            cycles: 0,
            clock_count: 0,
        }
    }

    /// A processor at power-on.
    pub fn new() -> (cpu: Self)
        ensures
            cpu == Cpu::power_on(),
    {
        Cpu {
            a: 0x00,
            x: 0x00,
            y: 0x00,
            stkp: 0x00,
            pc: 0x0000,
            status: 0x00,
            fetched: 0x00,
            addr_abs: 0x0000,
            addr_rel: 0x0000,
            opcode: 0x00,
            cycles: 0,
            clock_count: 0,
        }
    }

    fn write(&mut self, bus: &mut Bus, ppu: &mut Ppu, cart: &mut Cartridge, addr: u16, data: u8)
        ensures
            machine(*final(self), *final(bus), *final(ppu), *final(cart)) == machine(*old(self), *old(bus), *old(ppu), *old(cart)).write(addr, data),
    {
        bus.cpu_write(ppu, cart, addr, data);
    }

    fn read(&mut self, bus: &mut Bus, ppu: &mut Ppu, cart: &mut Cartridge, addr: u16) -> (data: u8)
        ensures
            (data, machine(*final(self), *final(bus), *final(ppu), *final(cart))) == machine(*old(self), *old(bus), *old(ppu), *old(cart)).read(addr),
    {
        bus.cpu_read(ppu, cart, addr, false)
    }

    fn get_flag(&self, flag: u8) -> (bit: u8)
        ensures
            bit == if flag_set(self.status, flag) { 1u8 } else { 0u8 },
    {
        if (self.status & flag) > 0 {
            1
        } else {
            0
        }
    }

    fn set_flag(&mut self, flag: u8, v: bool)
        ensures
            *final(self) == (Cpu { status: with_flag(old(self).status, flag, v), ..*old(self) }),
    {
        self.status = flagged(self.status, flag, v);
    }

    fn next_byte(&mut self, bus: &mut Bus, ppu: &mut Ppu, cart: &mut Cartridge) -> (data: u8)
        ensures
            (data, machine(*final(self), *final(bus), *final(ppu), *final(cart))) == machine(*old(self), *old(bus), *old(ppu), *old(cart)).next_byte(),
    {
        let data = self.read(bus, ppu, cart, self.pc);
        self.pc = self.pc.wrapping_add(1);
        data
    }

    fn push(&mut self, bus: &mut Bus, ppu: &mut Ppu, cart: &mut Cartridge, data: u8)
        ensures
            machine(*final(self), *final(bus), *final(ppu), *final(cart)) == machine(*old(self), *old(bus), *old(ppu), *old(cart)).push(data),
    {
        self.write(bus, ppu, cart, 0x0100u16.wrapping_add(self.stkp as u16), data);
        self.stkp = self.stkp.wrapping_sub(1);
    }

    fn pull(&mut self, bus: &mut Bus, ppu: &mut Ppu, cart: &mut Cartridge) -> (data: u8)
        ensures
            (data, machine(*final(self), *final(bus), *final(ppu), *final(cart))) == machine(*old(self), *old(bus), *old(ppu), *old(cart)).pull(),
    {
        self.stkp = self.stkp.wrapping_add(1);
        self.read(bus, ppu, cart, 0x0100u16.wrapping_add(self.stkp as u16))
    }

    fn read_word(&mut self, bus: &mut Bus, ppu: &mut Ppu, cart: &mut Cartridge, addr: u16) -> (w: u16)
        ensures
            (w, machine(*final(self), *final(bus), *final(ppu), *final(cart))) == machine(*old(self), *old(bus), *old(ppu), *old(cart)).read_word(addr),
    {
        let lo: u16 = self.read(bus, ppu, cart, addr) as u16;
        let hi: u16 = self.read(bus, ppu, cart, addr.wrapping_add(1)) as u16;
        (hi << 8) | lo
    }

    /// Reads a two-byte operand at the program counter, low byte first.
    fn next_word(&mut self, bus: &mut Bus, ppu: &mut Ppu, cart: &mut Cartridge) -> (bytes: (u8, u8))
        ensures
            ({
                let (lo, m1) = machine(*old(self), *old(bus), *old(ppu), *old(cart)).next_byte();
                let (hi, m2) = m1.next_byte();
                bytes == (lo, hi) && machine(*final(self), *final(bus), *final(ppu), *final(cart)) == m2
            }),
    {
        let lo = self.next_byte(bus, ppu, cart);
        let hi = self.next_byte(bus, ppu, cart);
        (lo, hi)
    }

    /// Locates the operand of an indexed absolute or indirect indexed instruction:
    /// the base address plus the index, and whether a page was crossed.
    fn indexed(&mut self, lo: u8, hi: u8, index: u8) -> (crossed: u8)
        ensures
            final(self).addr_abs == word(lo, hi).wrapping_add(index as u16),
            *final(self) == (Cpu { addr_abs: final(self).addr_abs, ..*old(self) }),
            crossed == if (final(self).addr_abs & 0xFF00) != ((hi as u16) << 8) { 1u8 } else { 0u8 },
    {
        self.addr_abs = (((hi as u16) << 8) | (lo as u16)).wrapping_add(index as u16);
        if (self.addr_abs & 0xFF00) != ((hi as u16) << 8) {
            1
        } else {
            0
        }
    }

    fn addressing(&mut self, mode: AddrMode, bus: &mut Bus, ppu: &mut Ppu, cart: &mut Cartridge) -> (crossed: u8)
        ensures
            (crossed, machine(*final(self), *final(bus), *final(ppu), *final(cart))) == machine(*old(self), *old(bus), *old(ppu), *old(cart)).addressing(mode),
    {
        match mode {
            AddrMode::Imp => {
                self.fetched = self.a;
                0
            },
            AddrMode::Imm => {
                self.addr_abs = self.pc;
                self.pc = self.pc.wrapping_add(1);
                0
            },
            AddrMode::Zp0 => {
                self.addr_abs = self.next_byte(bus, ppu, cart) as u16;
                0
            },
            AddrMode::Zpx => {
                self.addr_abs = self.next_byte(bus, ppu, cart).wrapping_add(self.x) as u16;
                0
            },
            AddrMode::Zpy => {
                self.addr_abs = self.next_byte(bus, ppu, cart).wrapping_add(self.y) as u16;
                0
            },
            AddrMode::Rel => {
                let offset = self.next_byte(bus, ppu, cart);
                self.addr_rel = if (offset & 0x80) > 0 { (offset as u16) | 0xFF00 } else { offset as u16 };
                0
            },
            AddrMode::Abs => {
                let (lo, hi) = self.next_word(bus, ppu, cart);
                self.addr_abs = ((hi as u16) << 8) | (lo as u16);
                0
            },
            AddrMode::Abx => {
                let (lo, hi) = self.next_word(bus, ppu, cart);
                self.indexed(lo, hi, self.x)
            },
            AddrMode::Aby => {
                let (lo, hi) = self.next_word(bus, ppu, cart);
                self.indexed(lo, hi, self.y)
            },
            AddrMode::Ind => {
                let (ptr_lo, ptr_hi) = self.next_word(bus, ppu, cart);
                let ptr: u16 = ((ptr_hi as u16) << 8) | (ptr_lo as u16);
                let hi = self.read(bus, ppu, cart, if ptr_lo == 0xFF { ptr & 0xFF00 } else { ptr.wrapping_add(1) });
                let lo = self.read(bus, ppu, cart, ptr);
                self.addr_abs = ((hi as u16) << 8) | (lo as u16);
                0
            },
            AddrMode::Izx => {
                let t = self.next_byte(bus, ppu, cart);
                let lo = self.read(bus, ppu, cart, (t as u16).wrapping_add(self.x as u16) & 0x00FF);
                let hi = self.read(bus, ppu, cart, (t as u16).wrapping_add(self.x as u16).wrapping_add(1) & 0x00FF);
                self.addr_abs = ((hi as u16) << 8) | (lo as u16);
                0
            },
            AddrMode::Izy => {
                let t = self.next_byte(bus, ppu, cart);
                let lo = self.read(bus, ppu, cart, (t as u16) & 0x00FF);
                let hi = self.read(bus, ppu, cart, (t as u16).wrapping_add(1) & 0x00FF);
                self.indexed(lo, hi, self.y)
            },
        }
    }

    fn fetch(&mut self, mode: AddrMode, bus: &mut Bus, ppu: &mut Ppu, cart: &mut Cartridge) -> (data: u8)
        ensures
            (data, machine(*final(self), *final(bus), *final(ppu), *final(cart))) == machine(*old(self), *old(bus), *old(ppu), *old(cart)).fetch(mode),
    {
        match mode {
            AddrMode::Imp => {},
            _ => {
                self.fetched = self.read(bus, ppu, cart, self.addr_abs);
            },
        }
        self.fetched
    }

    fn apply_operand(&mut self, op: Operation, v: u8)
        ensures
            *final(self) == old(self).with_operand(op, v),
    {
        match op {
            Operation::Adc => {
                let (a, status) = add_with_carry(self.a, v, self.status);
                self.a = a;
                self.status = status;
            },
            Operation::Sbc => {
                let (a, status) = add_with_carry(self.a, v ^ 0xFF, self.status);
                self.a = a;
                self.status = status;
            },
            Operation::And => {
                self.a = self.a & v;
                self.status = zero_negative(self.status, self.a);
            },
            Operation::Eor => {
                self.a = self.a ^ v;
                self.status = zero_negative(self.status, self.a);
            },
            Operation::Ora => {
                self.a = self.a | v;
                self.status = zero_negative(self.status, self.a);
            },
            Operation::Lda => {
                self.a = v;
                self.status = zero_negative(self.status, self.a);
            },
            Operation::Ldx => {
                self.x = v;
                self.status = zero_negative(self.status, self.x);
            },
            Operation::Ldy => {
                self.y = v;
                self.status = zero_negative(self.status, self.y);
            },
            Operation::Cmp => {
                self.status = compare_with(self.a, v, self.status);
            },
            Operation::Cpx => {
                self.status = compare_with(self.x, v, self.status);
            },
            Operation::Cpy => {
                self.status = compare_with(self.y, v, self.status);
            },
            Operation::Bit => {
                self.set_flag(FLAG_Z, (self.a & v) == 0x00);
                self.set_flag(FLAG_N, (v & 0x80) == 0x80);
                self.set_flag(FLAG_V, (v & 0x40) == 0x40);
            },
            _ => {},
        }
    }

    fn branch(&mut self)
        ensures
            *final(self) == old(self).branched(),
    {
        self.cycles = self.cycles.wrapping_add(1);
        self.addr_abs = self.pc.wrapping_add(self.addr_rel);
        if (self.addr_abs & 0xFF00) != (self.pc & 0xFF00) {
            self.cycles = self.cycles.wrapping_add(1);
        }
        self.pc = self.addr_abs;
    }

    fn apply_implied(&mut self, op: Operation)
        ensures
            *final(self) == old(self).with_implied(op),
    {
        match op {
            Operation::Clc => self.set_flag(FLAG_C, false),
            Operation::Cld => self.set_flag(FLAG_D, false),
            Operation::Cli => self.set_flag(FLAG_I, false),
            Operation::Clv => self.set_flag(FLAG_V, false),
            Operation::Sec => self.set_flag(FLAG_C, true),
            Operation::Sed => self.set_flag(FLAG_D, true),
            Operation::Sei => self.set_flag(FLAG_I, true),
            Operation::Dex => {
                self.x = self.x.wrapping_sub(1);
                self.status = zero_negative(self.status, self.x);
            },
            Operation::Dey => {
                self.y = self.y.wrapping_sub(1);
                self.status = zero_negative(self.status, self.y);
            },
            Operation::Inx => {
                self.x = self.x.wrapping_add(1);
                self.status = zero_negative(self.status, self.x);
            },
            Operation::Iny => {
                self.y = self.y.wrapping_add(1);
                self.status = zero_negative(self.status, self.y);
            },
            Operation::Tax => {
                self.x = self.a;
                self.status = zero_negative(self.status, self.x);
            },
            Operation::Tay => {
                self.y = self.a;
                self.status = zero_negative(self.status, self.y);
            },
            Operation::Tsx => {
                self.x = self.stkp;
                self.status = zero_negative(self.status, self.x);
            },
            Operation::Txa => {
                self.a = self.x;
                self.status = zero_negative(self.status, self.a);
            },
            Operation::Tya => {
                self.a = self.y;
                self.status = zero_negative(self.status, self.a);
            },
            Operation::Txs => {
                self.stkp = self.x;
            },
            Operation::Jmp => {
                self.pc = self.addr_abs;
            },
            Operation::Bcc | Operation::Bcs | Operation::Bne | Operation::Beq | Operation::Bpl | Operation::Bmi
            | Operation::Bvc | Operation::Bvs => {
                if takes_branch(op, self.status) {
                    self.branch();
                }
            },
            _ => {},
        }
    }

    /// Pushes the program counter, high byte first.
    fn push_pc(&mut self, bus: &mut Bus, ppu: &mut Ppu, cart: &mut Cartridge)
        ensures
            machine(*final(self), *final(bus), *final(ppu), *final(cart)) == machine(*old(self), *old(bus), *old(ppu), *old(cart)).push(high_byte(old(self).pc)).push(low_byte(old(self).pc)),
    {
        self.push(bus, ppu, cart, ((self.pc >> 8) & 0x00FF) as u8);
        self.push(bus, ppu, cart, (self.pc & 0x00FF) as u8);
    }

    /// Pulls the program counter, low byte first.
    fn pull_pc(&mut self, bus: &mut Bus, ppu: &mut Ppu, cart: &mut Cartridge)
        ensures
            ({
                let (lo, m1) = machine(*old(self), *old(bus), *old(ppu), *old(cart)).pull();
                let (hi, m2) = m1.pull();
                machine(*final(self), *final(bus), *final(ppu), *final(cart)) == m2.with_cpu(Cpu { pc: word(lo, hi), ..m2.cpu })
            }),
    {
        let lo = self.pull(bus, ppu, cart);
        let hi = self.pull(bus, ppu, cart);
        self.pc = ((hi as u16) << 8) | (lo as u16);
    }

    fn brk(&mut self, bus: &mut Bus, ppu: &mut Ppu, cart: &mut Cartridge)
        ensures
            machine(*final(self), *final(bus), *final(ppu), *final(cart)) == machine(*old(self), *old(bus), *old(ppu), *old(cart)).broken(),
    {
        self.pc = self.pc.wrapping_add(1);
        self.push_pc(bus, ppu, cart);
        self.set_flag(FLAG_B, true);
        self.set_flag(FLAG_U, true);
        self.push(bus, ppu, cart, self.status);
        self.set_flag(FLAG_B, false);
        self.set_flag(FLAG_I, true);
        self.pc = self.read_word(bus, ppu, cart, 0xFFFE);
    }

    fn stack_operation(&mut self, op: Operation, bus: &mut Bus, ppu: &mut Ppu, cart: &mut Cartridge)
        ensures
            machine(*final(self), *final(bus), *final(ppu), *final(cart)) == machine(*old(self), *old(bus), *old(ppu), *old(cart)).stacked(op),
    {
        match op {
            Operation::Pha => {
                self.push(bus, ppu, cart, self.a);
            },
            Operation::Php => {
                self.push(bus, ppu, cart, self.status | FLAG_B | FLAG_U);
                self.set_flag(FLAG_B, false);
                self.set_flag(FLAG_U, false);
            },
            Operation::Pla => {
                self.a = self.pull(bus, ppu, cart);
                self.status = zero_negative(self.status, self.a);
            },
            Operation::Plp => {
                self.status = self.pull(bus, ppu, cart);
                self.set_flag(FLAG_U, true);
            },
            Operation::Jsr => {
                self.pc = self.pc.wrapping_sub(1);
                self.push_pc(bus, ppu, cart);
                self.pc = self.addr_abs;
            },
            Operation::Rts => {
                self.pull_pc(bus, ppu, cart);
                self.pc = self.pc.wrapping_add(1);
            },
            Operation::Rti => {
                let status = self.pull(bus, ppu, cart);
                self.status = status & !FLAG_B & !FLAG_U;
                self.pull_pc(bus, ppu, cart);
            },
            Operation::Brk => {
                self.brk(bus, ppu, cart);
            },
            _ => {},
        }
    }

    fn operate_on_operand(
        &mut self,
        op: Operation,
        mode: AddrMode,
        bus: &mut Bus,
        ppu: &mut Ppu,
        cart: &mut Cartridge,
    )
        ensures
            machine(*final(self), *final(bus), *final(ppu), *final(cart)) == machine(*old(self), *old(bus), *old(ppu), *old(cart)).operated_on_operand(op, mode),
    {
        let v = self.fetch(mode, bus, ppu, cart);
        self.apply_operand(op, v);
    }

    fn modify_in_place(&mut self, op: Operation, mode: AddrMode, bus: &mut Bus, ppu: &mut Ppu, cart: &mut Cartridge)
        ensures
            machine(*final(self), *final(bus), *final(ppu), *final(cart)) == machine(*old(self), *old(bus), *old(ppu), *old(cart)).modified_in_place(op, mode),
    {
        let v = self.fetch(mode, bus, ppu, cart);
        let (r, status) = modify(op, v, self.status);
        self.status = status;
        let to_accumulator = match (mode, op) {
            (_, Operation::Inc) => false,
            (_, Operation::Dec) => false,
            (AddrMode::Imp, _) => true,
            _ => false,
        };
        if to_accumulator {
            self.a = r;
        } else {
            self.write(bus, ppu, cart, self.addr_abs, r);
        }
    }

    fn operate(
        &mut self,
        op: Operation,
        mode: AddrMode,
        bus: &mut Bus,
        ppu: &mut Ppu,
        cart: &mut Cartridge,
    ) -> (may_add: u8)
        ensures
            (may_add, machine(*final(self), *final(bus), *final(ppu), *final(cart))) == machine(*old(self), *old(bus), *old(ppu), *old(cart)).operate(op, mode),
    {
        match op {
            Operation::Adc | Operation::Sbc | Operation::And | Operation::Eor | Operation::Ora | Operation::Lda
            | Operation::Ldx | Operation::Ldy | Operation::Cmp | Operation::Cpx | Operation::Cpy | Operation::Bit => {
                self.operate_on_operand(op, mode, bus, ppu, cart);
                match op {
                    Operation::Cpx | Operation::Cpy | Operation::Bit => 0,
                    _ => 1,
                }
            },
            Operation::Asl | Operation::Lsr | Operation::Rol | Operation::Ror | Operation::Inc | Operation::Dec => {
                self.modify_in_place(op, mode, bus, ppu, cart);
                0
            },
            Operation::Sta => {
                self.write(bus, ppu, cart, self.addr_abs, self.a);
                0
            },
            Operation::Stx => {
                self.write(bus, ppu, cart, self.addr_abs, self.x);
                0
            },
            Operation::Sty => {
                self.write(bus, ppu, cart, self.addr_abs, self.y);
                0
            },
            Operation::Pha | Operation::Php | Operation::Pla | Operation::Plp | Operation::Jsr | Operation::Rts
            | Operation::Rti | Operation::Brk => {
                self.stack_operation(op, bus, ppu, cart);
                0
            },
            Operation::Nop => {
                match self.opcode {
                    0x1C | 0x3C | 0x5C | 0x7C | 0xDC | 0xFC => 1,
                    _ => 0,
                }
            },
            Operation::Xxx => 0,
            _ => {
                self.apply_implied(op);
                0
            },
        }
    }

    /// Advances the processor by one cycle.
    pub fn clock(&mut self, bus: &mut Bus, ppu: &mut Ppu, cart: &mut Cartridge)
        ensures
            machine(*final(self), *final(bus), *final(ppu), *final(cart)) == machine(*old(self), *old(bus), *old(ppu), *old(cart)).after_clock(),
    {
        if self.cycles == 0 {
            self.opcode = self.read(bus, ppu, cart, self.pc);
            self.set_flag(FLAG_U, true);
            self.pc = self.pc.wrapping_add(1);
            let instruction = lookup(self.opcode);
            self.cycles = instruction.cycles;
            let crossed = self.addressing(instruction.addrmode, bus, ppu, cart);
            let may_add = self.operate(instruction.operate, instruction.addrmode, bus, ppu, cart);
            self.cycles = self.cycles.wrapping_add(crossed & may_add);
            self.set_flag(FLAG_U, true);
        }
        self.clock_count = self.clock_count.wrapping_add(1);
        self.cycles = self.cycles.wrapping_sub(1);
    }

    /// Resets the processor.
    pub fn reset(&mut self, bus: &mut Bus, ppu: &mut Ppu, cart: &mut Cartridge)
        ensures
            machine(*final(self), *final(bus), *final(ppu), *final(cart)) == machine(*old(self), *old(bus), *old(ppu), *old(cart)).after_reset(),
    {
        self.pc = self.read_word(bus, ppu, cart, 0xFFFC);
        self.a = 0;
        self.x = 0;
        self.y = 0;
        self.stkp = 0xFD;
        self.status = FLAG_U;
        self.addr_abs = 0x0000;
        self.addr_rel = 0x0000;
        self.fetched = 0x00;
        self.cycles = 8;
    }

    fn interrupt(&mut self, bus: &mut Bus, ppu: &mut Ppu, cart: &mut Cartridge, vector: u16, cycles: u8)
        ensures
            machine(*final(self), *final(bus), *final(ppu), *final(cart)) == machine(*old(self), *old(bus), *old(ppu), *old(cart)).interrupted(vector, cycles),
    {
        self.push_pc(bus, ppu, cart);
        self.set_flag(FLAG_B, false);
        self.set_flag(FLAG_U, true);
        self.push(bus, ppu, cart, self.status);
        self.set_flag(FLAG_I, true);
        self.addr_abs = vector;
        self.pc = self.read_word(bus, ppu, cart, vector);
        self.cycles = cycles;
    }

    /// Requests an interrupt; the request is ignored while interrupts are disabled.
    pub fn irq(&mut self, bus: &mut Bus, ppu: &mut Ppu, cart: &mut Cartridge)
        ensures
            machine(*final(self), *final(bus), *final(ppu), *final(cart)) == machine(*old(self), *old(bus), *old(ppu), *old(cart)).after_irq(),
    {
        if self.get_flag(FLAG_I) == 0 {
            self.interrupt(bus, ppu, cart, 0xFFFE, 7);
        }
    }

    /// Raises the non-maskable interrupt.
    pub fn nmi(&mut self, bus: &mut Bus, ppu: &mut Ppu, cart: &mut Cartridge)
        ensures
            machine(*final(self), *final(bus), *final(ppu), *final(cart)) == machine(*old(self), *old(bus), *old(ppu), *old(cart)).after_nmi(),
    {
        self.interrupt(bus, ppu, cart, 0xFFFA, 8);
    }

    /// Whether no instruction is in flight.
    pub fn complete(&self) -> (done: bool)
        ensures
            done == (self.cycles == 0),
    {
        self.cycles == 0
    }
}

} // verus!
