use vstd::prelude::*;
use crate::bus::{Board, Bus};
use crate::cartridge::CartridgeView;
use crate::cpu::{branch_taken, word, Cpu, Machine};
use crate::opcodes::{addrmode_of, cycles_of, operation_of, AddrMode, Operation};
use crate::ppu::PpuView;

verus! {

/// The number of dots on the grid: 341 on each of 262 scanlines, 89342 in all.
pub open spec fn dots_per_frame() -> int {
    89342
}

impl PpuView {
    /// The position of the dot, counted from the start of the pre-render line.
    pub open spec fn dot(self) -> int {
        (self.scanline + 1) * 341 + self.cycle
    }

    /// Whether this is a short frame: an odd one with rendering enabled.
    pub open spec fn short_frame(self) -> bool {
        self.odd_frame && self.mask.rendering()
    }

    /// How many ticks it takes from the start of the pre-render line to the end of
    /// the frame: one for each dot, less the dot that a short frame skips.
    pub open spec fn frame_length(self) -> int {
        if self.short_frame() {
            dots_per_frame() - 1
        } else {
            dots_per_frame()
        }
    }

    /// The PPU after `n` dots.
    pub open spec fn after_dots(self, cart: CartridgeView, n: nat) -> PpuView
        decreases n,
    {
        if n == 0 {
            self
        } else {
            self.after_dots(cart, (n - 1) as nat).after_clock(self.cart_after_dots(cart, (n - 1) as nat))
        }
    }

    /// The cartridge after `n` dots of the PPU.
    pub open spec fn cart_after_dots(self, cart: CartridgeView, n: nat) -> CartridgeView
        decreases n,
    {
        if n == 0 {
            cart
        } else {
            self.after_dots(cart, (n - 1) as nat).cart_after_clock(self.cart_after_dots(cart, (n - 1) as nat))
        }
    }

    /// One tick moves the dot one position on, two over the skipped dot of a short
    /// frame, and back to the start after the last position. The frame is complete,
    /// and the next frame's parity the other one, exactly when the dot goes back to
    /// the start. The tick changes neither the mask nor, before that, the parity.
    pub proof fn lemma_clock_advances_dot(self, cart: CartridgeView)
        requires
            self.wf(),
        ensures
            self.after_clock(cart).wf(),
            self.after_clock(cart).mask == self.mask,
            self.after_clock(cart).dot() == (self.dot() + if self.skips_dot() { 2int } else { 1int })
                % dots_per_frame(),
            self.after_clock(cart).frame_complete == (self.frame_complete || self.dot() == dots_per_frame()
                - 1),
            self.after_clock(cart).odd_frame == (self.odd_frame != (self.dot() == dots_per_frame() - 1)),
    {
        self.lemma_clock_moves_dot(cart);
    }

    /// Where the dot is `n` ticks into a frame that began at the start of the
    /// pre-render line.
    pub open spec fn dot_at(self, n: int) -> int {
        if self.short_frame() && n > 341 {
            n + 1
        } else {
            n
        }
    }

    /// From the start of the pre-render line a frame takes its length in ticks, and
    /// not one fewer: until then the frame is not complete and the dot is where the
    /// ticks put it.
    pub proof fn lemma_frame_in_progress(self, cart: CartridgeView, n: nat)
        requires
            self.wf(),
            self.dot() == 0,
            !self.frame_complete,
            n < self.frame_length(),
        ensures
            self.after_dots(cart, n).wf(),
            !self.after_dots(cart, n).frame_complete,
            self.after_dots(cart, n).dot() == self.dot_at(n as int),
            self.after_dots(cart, n).odd_frame == self.odd_frame,
            self.after_dots(cart, n).mask == self.mask,
        decreases n,
    {
        if n > 0 {
            self.lemma_frame_in_progress(cart, (n - 1) as nat);
            let before = self.after_dots(cart, (n - 1) as nat);
            before.lemma_clock_advances_dot(self.cart_after_dots(cart, (n - 1) as nat));
            assert(before.skips_dot() <==> (self.short_frame() && n - 1 == 341)) by {
                assert(before.dot() == 341 <==> (before.scanline == 0 && before.cycle == 0));
            }
        }
    }

    /// A frame is complete exactly once per 89342 ticks, or per 89341 on an odd frame
    /// with rendering enabled: that many ticks after the start of the pre-render line
    /// the frame is complete for the first time, the dot is back at the start, and the
    /// parity has changed.
    pub proof fn lemma_frame_completes(self, cart: CartridgeView)
        requires
            self.wf(),
            self.dot() == 0,
            !self.frame_complete,
        ensures
            self.after_dots(cart, self.frame_length() as nat).frame_complete,
            self.after_dots(cart, self.frame_length() as nat).dot() == 0,
            self.after_dots(cart, self.frame_length() as nat).odd_frame == !self.odd_frame,
            self.after_dots(cart, self.frame_length() as nat).mask == self.mask,
            forall|n: nat| n < self.frame_length() ==> !(#[trigger] self.after_dots(cart, n)).frame_complete,
    {
        let last = (self.frame_length() - 1) as nat;
        self.lemma_frame_in_progress(cart, last);
        let before = self.after_dots(cart, last);
        before.lemma_clock_advances_dot(self.cart_after_dots(cart, last));
        assert(!before.skips_dot()) by {
            assert(before.dot() == 341 <==> (before.scanline == 0 && before.cycle == 0));
        }
        assert forall|n: nat| n < self.frame_length() implies !(#[trigger] self.after_dots(
            cart,
            n,
        )).frame_complete by {
            self.lemma_frame_in_progress(cart, n);
        }
    }
}

/// Whether `op` is one of the eight branches.
pub open spec fn is_branch(op: Operation) -> bool {
    match op {
        Operation::Bcc | Operation::Bcs | Operation::Bne | Operation::Beq | Operation::Bpl | Operation::Bmi
        | Operation::Bvc | Operation::Bvs => true,
        _ => false,
    }
}

/// Whether two addresses lie on different pages of 256 bytes.
pub open spec fn pages_differ(a: u16, b: u16) -> bool {
    (a & 0xFF00) != (b & 0xFF00)
}

/// The page of a word is its high byte.
proof fn lemma_word_page(lo: u8, hi: u8)
    by (bit_vector)
    ensures
        ((((hi as u16) << 8) | (lo as u16)) & 0xFF00) == ((hi as u16) << 8),
        ((hi as u16) << 8) & 0xFF00 == ((hi as u16) << 8),
{
}

impl Machine {
    /// The machine with the opcode at the program counter read and decoded, about to
    /// locate the operand.
    pub open spec fn with_opcode_read(self) -> Machine {
        let (opcode, m) = self.read(self.cpu.pc);
        m.with_cpu(
            Cpu {
                opcode,
                status: crate::cpu::with_flag(m.cpu.status, crate::cpu::FLAG_U, true),
                pc: m.cpu.pc.wrapping_add(1),
                cycles: cycles_of(opcode),
                ..m.cpu
            },
        )
    }

    /// Locating an operand costs no cycle by itself, and reports a crossed page
    /// exactly where an indexed address lies on another page than its base.
    pub proof fn lemma_addressing_reports_page_cross(self, mode: AddrMode)
        ensures
            self.addressing(mode).1.cpu.cycles == self.cpu.cycles,
            self.addressing(mode).0 == 0 || self.addressing(mode).0 == 1,
            mode == AddrMode::Abx || mode == AddrMode::Aby ==> ({
                let (lo, m1) = self.next_byte();
                let (hi, m2) = m1.next_byte();
                self.addressing(mode).0 == if pages_differ(self.addressing(mode).1.cpu.addr_abs, word(lo, hi)) {
                    1u8
                } else {
                    0u8
                }
            }),
            mode == AddrMode::Izy ==> ({
                let (t, m1) = self.next_byte();
                let (lo, m2) = m1.read((t as u16) & 0x00FF);
                let (hi, m3) = m2.read((t as u16).wrapping_add(1) & 0x00FF);
                self.addressing(mode).0 == if pages_differ(self.addressing(mode).1.cpu.addr_abs, word(lo, hi)) {
                    1u8
                } else {
                    0u8
                }
            }),
            mode != AddrMode::Abx && mode != AddrMode::Aby && mode != AddrMode::Izy ==> self.addressing(mode).0
                == 0,
    {
        let (lo, m1) = self.next_byte();
        let (hi, m2) = m1.next_byte();
        lemma_word_page(lo, hi);
        let (zlo, z2) = m1.read((lo as u16) & 0x00FF);
        let (zhi, z3) = z2.read((lo as u16).wrapping_add(1) & 0x00FF);
        lemma_word_page(zlo, zhi);
    }

    /// An indirect jump through a pointer whose low byte is 0xFF takes the high byte
    /// of its target from the start of the pointer's own page, not from the next page.
    pub proof fn lemma_indirect_wraps_in_page(self)
        requires
            self.next_byte().0 == 0xFF,
        ensures
            ({
                let (ptr_lo, m1) = self.next_byte();
                let (ptr_hi, m2) = m1.next_byte();
                let (hi, m3) = m2.read(word(0x00, ptr_hi));
                let (lo, m4) = m3.read(word(0xFF, ptr_hi));
                self.addressing(AddrMode::Ind).1.cpu.addr_abs == word(lo, hi)
            }),
    {
        let (ptr_lo, m1) = self.next_byte();
        let (ptr_hi, m2) = m1.next_byte();
        assert(word(0xFF, ptr_hi) & 0xFF00 == word(0x00, ptr_hi)) by {
            lemma_indirect_page(ptr_hi);
        }
    }

    /// Only a taken branch changes the cycles that an instruction has left: it adds
    /// one, and one more if its target lies on another page than the next instruction.
    pub proof fn lemma_operate_cycles(self, op: Operation, mode: AddrMode)
        ensures
            self.operate(op, mode).1.cpu.cycles == if is_branch(op) && branch_taken(op, self.cpu.status) {
                if pages_differ(self.cpu.pc.wrapping_add(self.cpu.addr_rel), self.cpu.pc) {
                    self.cpu.cycles.wrapping_add(1).wrapping_add(1)
                } else {
                    self.cpu.cycles.wrapping_add(1)
                }
            } else {
                self.cpu.cycles
            },
            self.operate(op, mode).0 == 0 || self.operate(op, mode).0 == 1,
            is_branch(op) ==> self.operate(op, mode).0 == 0,
    {
        self.lemma_stack_keeps_cycles(op);
    }

    proof fn lemma_stack_keeps_cycles(self, op: Operation)
        ensures
            self.stacked(op).cpu.cycles == self.cpu.cycles,
    {
    }

    /// What an instruction costs: its base cycles; one more where the operand's
    /// address crossed a page and the operation is one that then takes longer; and for
    /// a branch one more if it is taken, two if it is taken to another page.
    pub proof fn lemma_instruction_cycles(self)
        ensures
            ({
                let m = self.with_opcode_read();
                let op = operation_of(m.cpu.opcode);
                let mode = addrmode_of(m.cpu.opcode);
                let (crossed, located) = m.addressing(mode);
                let (may_add, done) = located.operate(op, mode);
                let base = cycles_of(m.cpu.opcode);
                &&& !is_branch(op) ==> self.after_instruction().cpu.cycles == base + if crossed == 1 && may_add
                    == 1 {
                    1int
                } else {
                    0int
                }
                &&& is_branch(op) ==> self.after_instruction().cpu.cycles == base + if !branch_taken(
                    op,
                    located.cpu.status,
                ) {
                    0int
                } else if pages_differ(located.cpu.pc.wrapping_add(located.cpu.addr_rel), located.cpu.pc) {
                    2int
                } else {
                    1int
                }
            }),
    {
        let m = self.with_opcode_read();
        let op = operation_of(m.cpu.opcode);
        let mode = addrmode_of(m.cpu.opcode);
        m.lemma_addressing_reports_page_cross(mode);
        let (crossed, located) = m.addressing(mode);
        located.lemma_operate_cycles(op, mode);
        let (may_add, done) = located.operate(op, mode);
        lemma_penalty(crossed, may_add);
        assert(2 <= cycles_of(m.cpu.opcode) <= 8);
    }
}

/// An indirect pointer with low byte 0xFF has its page start at the word with low
/// byte zero.
proof fn lemma_indirect_page(hi: u8)
    by (bit_vector)
    ensures
        ((((hi as u16) << 8) | 0xFFu16) & 0xFF00) == (((hi as u16) << 8) | 0x00u16),
{
}

/// The extra cycle is charged where both the addressing and the operation ask for it.
proof fn lemma_penalty(crossed: u8, may_add: u8)
    by (bit_vector)
    requires
        crossed == 0 || crossed == 1,
        may_add == 0 || may_add == 1,
    ensures
        crossed & may_add == (if crossed == 1 && may_add == 1 { 1u8 } else { 0u8 }),
{
}

impl Board {
    /// The board after `n` processor cycles spent in the DMA engine: each takes one
    /// step of the engine, and three master ticks go by.
    pub open spec fn after_dma_cycles(self, n: nat) -> Board
        decreases n,
    {
        if n == 0 {
            self
        } else {
            let b = self.after_dma_cycles((n - 1) as nat).after_dma_step();
            Board {
                bus: Bus { system_clock_counter: b.bus.system_clock_counter.wrapping_add(3), ..b.bus },
                ..b
            }
        }
    }

    /// How many processor cycles a transfer takes that is triggered before a cycle on
    /// this master tick: 256 reads, 256 writes and the wait for an odd tick, which is
    /// one cycle on an odd tick and two on an even one.
    pub open spec fn dma_length(self) -> int {
        if self.bus.system_clock_counter % 2 == 1 {
            513
        } else {
            514
        }
    }

    /// Where the engine stands `n` cycles into a transfer.
    pub open spec fn dma_in_progress(self, start: Board, n: int) -> bool {
        let wait = start.dma_length() - 512;
        &&& self.bus.system_clock_counter == start.bus.system_clock_counter + 3 * n
        &&& self.bus.dma_transfer
        &&& self.bus.dma_dummy == (n < wait)
        &&& self.bus.dma_page == start.bus.dma_page
        &&& n < wait ==> self.bus.dma_addr == 0
        &&& n >= wait ==> self.bus.dma_addr == (n - wait) / 2
    }

    /// A step of the engine leaves the master tick count and the page alone, and a
    /// read leaves the whole engine alone.
    proof fn lemma_dma_read_frames(self, addr: u16)
        ensures
            self.after_read(addr, false).bus.system_clock_counter == self.bus.system_clock_counter,
            self.after_read(addr, false).bus.dma_transfer == self.bus.dma_transfer,
            self.after_read(addr, false).bus.dma_dummy == self.bus.dma_dummy,
            self.after_read(addr, false).bus.dma_page == self.bus.dma_page,
            self.after_read(addr, false).bus.dma_addr == self.bus.dma_addr,
    {
        reveal(Board::after_read);
    }

    proof fn lemma_dma_progress(self, n: nat)
        requires
            self.bus.dma_transfer,
            self.bus.dma_dummy,
            self.bus.dma_addr == 0,
            self.bus.system_clock_counter + 3 * 514 <= u64::MAX,
            n < self.dma_length(),
        ensures
            self.after_dma_cycles(n).dma_in_progress(self, n as int),
        decreases n,
    {
        if n > 0 {
            self.lemma_dma_progress((n - 1) as nat);
            let before = self.after_dma_cycles((n - 1) as nat);
            let source = ((before.bus.dma_page as u16) << 8) | (before.bus.dma_addr as u16);
            before.lemma_dma_read_frames(source);
        }
    }

    /// A sprite DMA transfer keeps the processor halted for 513 cycles if it begins on
    /// an odd master tick and for 514 if it begins on an even one: after that many
    /// cycles the transfer is over and the engine idle again, and not before.
    pub proof fn lemma_dma_duration(self)
        requires
            self.bus.dma_transfer,
            self.bus.dma_dummy,
            self.bus.dma_addr == 0,
            self.bus.system_clock_counter + 3 * 514 <= u64::MAX,
        ensures
            !self.after_dma_cycles(self.dma_length() as nat).bus.dma_transfer,
            self.after_dma_cycles(self.dma_length() as nat).bus.dma_dummy,
            self.after_dma_cycles(self.dma_length() as nat).bus.dma_addr == 0,
            forall|n: nat| n < self.dma_length() ==> (#[trigger] self.after_dma_cycles(n)).bus.dma_transfer,
    {
        let last = (self.dma_length() - 1) as nat;
        self.lemma_dma_progress(last);
        assert forall|n: nat| n < self.dma_length() implies (#[trigger] self.after_dma_cycles(
            n,
        )).bus.dma_transfer by {
            self.lemma_dma_progress(n);
        }
    }
}

impl Machine {
    /// On a master tick of the whole console the PPU's dot moves as it does for the
    /// PPU alone, whatever the processor, the DMA engine and the interrupts do: one
    /// position on, two over the skipped dot of a short frame, and back to the start
    /// after the last position, where the frame is complete and the parity changes.
    pub proof fn lemma_tick_advances_dot(self)
        requires
            self.wf(),
        ensures
            self.after_tick().wf(),
            self.after_tick().board.ppu.dot() == (self.board.ppu.dot() + if self.board.ppu.skips_dot() {
                2int
            } else {
                1int
            }) % dots_per_frame(),
            self.after_tick().board.ppu.frame_complete == (self.board.ppu.frame_complete || self.board.ppu.dot()
                == dots_per_frame() - 1),
            self.after_tick().board.ppu.odd_frame == (self.board.ppu.odd_frame != (self.board.ppu.dot()
                == dots_per_frame() - 1)),
    {
        reveal(Machine::after_tick);
        self.board.ppu.lemma_clock_advances_dot(self.board.cart);
        self.after_ppu_clock().lemma_rest_of_tick_keeps_dot();
    }
}

} // verus!
