use vstd::prelude::*;
use crate::bus::{Board, Bus};
use crate::cartridge::CartridgeView;
use crate::cpu::{high_byte, low_byte, stack_addr, with_flag, Cpu, Machine, FLAG_B, FLAG_I, FLAG_U};
use crate::mapper::RW;
use crate::ppu::PpuView;

verus! {

/// The stack lies in page one.
proof fn lemma_stack_in_page_one(stkp: u8)
    ensures
        0x0100 <= stack_addr(stkp) <= 0x01FF,
{
}

impl PpuView {
    /// How many ticks it takes until the PPU is on a dot at which it can raise an
    /// interrupt line: dot 259 of a rendered line, where it clocks the mapper, or dot
    /// 1 of scanline 241, where vertical blank begins. Nothing if it is on one.
    #[verifier::opaque]
    pub open spec fn ticks_to_event(self) -> int {
        let c = self.cycle as int;
        let l = self.scanline as int;
        let along = if l <= 239 {
            if c <= 259 {
                259 - c
            } else if l < 239 {
                600 - c
            } else {
                683 - c
            }
        } else if l == 240 {
            342 - c
        } else if l == 241 && c <= 1 {
            1 - c
        } else {
            (260 - l) * 341 + 600 - c
        };
        if self.odd_frame && self.mask.rendering() && ((l == -1 && c > 259) || (l == 0 && c == 0)) {
            along - 1
        } else {
            along
        }
    }

    /// A tick away from such a dot brings the PPU one tick closer to the next one and
    /// raises no interrupt line; a tick on such a dot leaves the next one far away.
    pub proof fn lemma_ticks_to_event(self, cart: CartridgeView)
        requires
            self.wf(),
        ensures
            self.ticks_to_event() >= 0,
            self.ticks_to_event() > 0 ==> {
                &&& self.after_clock(cart).ticks_to_event() == self.ticks_to_event() - 1
                &&& self.after_clock(cart).nmi == self.nmi
                &&& self.cart_after_clock(cart) == cart
            },
            self.ticks_to_event() == 0 ==> self.after_clock(cart).ticks_to_event() >= 27,
    {
        reveal(PpuView::ticks_to_event);
        self.lemma_clock_moves_dot(cart);
    }
}

impl Board {
    /// Whether `after` has the DMA engine and the tick count as this board has them.
    pub open spec fn same_engine(self, after: Board) -> bool {
        &&& after.bus.system_clock_counter == self.bus.system_clock_counter
        &&& after.bus.dma_transfer == self.bus.dma_transfer
        &&& after.bus.dma_dummy == self.bus.dma_dummy
        &&& after.bus.dma_addr == self.bus.dma_addr
    }

    /// An access to the stack or to an interrupt vector reaches neither the PPU nor
    /// the DMA engine nor the mapper's interrupt line.
    pub proof fn lemma_plain_access(self, addr: u16, data: u8)
        requires
            addr < 0x2000 || addr >= 0x8000,
        ensures
            self.after_read(addr, false).ppu == self.ppu,
            self.after_read(addr, false).cart == self.cart,
            self.same_engine(self.after_read(addr, false)),
            addr < 0x2000 ==> {
                &&& self.after_write(addr, data).ppu == self.ppu
                &&& self.after_write(addr, data).cart == self.cart
                &&& self.same_engine(self.after_write(addr, data))
            },
    {
        reveal(Board::after_read);
        reveal(Board::after_write);
        if addr < 0x2000 {
            assert(self.cart.mapper.cpu_write_maps(addr).is_none());
            assert(self.cart.mapper.after_cpu_write(addr, data) == self.cart.mapper);
            assert(self.cart.after_cpu_write(addr, data) == self.cart);
        } else {
            assert(self.cart.mapper.cpu_read_maps(addr).is_some());
        }
    }

    /// A read leaves the PPU's interrupt line, mask and control register alone, and
    /// the cartridge too.
    pub proof fn lemma_read_keeps_lines(self, addr: u16, read_only: bool)
        ensures
            self.after_read(addr, read_only).ppu.nmi == self.ppu.nmi,
            self.after_read(addr, read_only).ppu.mask == self.ppu.mask,
            self.after_read(addr, read_only).cart == self.cart,
            self.after_read(addr, read_only).bus.system_clock_counter == self.bus.system_clock_counter,
            self.after_read(addr, read_only).bus.dma_transfer == self.bus.dma_transfer,
            self.after_read(addr, read_only).bus.dma_dummy == self.bus.dma_dummy,
            self.after_read(addr, read_only).bus.dma_addr == self.bus.dma_addr,
    {
        reveal(Board::after_read);
    }

    /// How many ticks it is until the processor's next cycle; nothing on a tick that
    /// is one.
    pub open spec fn ticks_to_slot(self) -> int {
        (3 - self.bus.system_clock_counter % 3) % 3
    }

    /// Whether the processor's next cycle falls on an even master tick.
    pub open spec fn next_slot_even(self) -> bool {
        (self.bus.system_clock_counter + self.ticks_to_slot()) % 2 == 0
    }

    /// A bound on the ticks that a DMA transfer still takes; nothing if none is under
    /// way.
    #[verifier::opaque]
    pub open spec fn dma_ticks_left(self) -> int {
        if self.bus.dma_transfer {
            3 * (2 * (256 - self.bus.dma_addr) + if self.bus.dma_dummy {
                if self.next_slot_even() {
                    3int
                } else {
                    2int
                }
            } else {
                if self.next_slot_even() {
                    1int
                } else {
                    0int
                }
            }) + self.ticks_to_slot() + 1
        } else {
            0
        }
    }
}

impl Machine {
    /// A bound on the ticks until the instruction in flight is complete, if nothing
    /// comes in its way.
    pub open spec fn countdown(self) -> int {
        3 * self.cpu.cycles + self.board.ticks_to_slot()
    }

    /// A bound on the ticks until no instruction is in flight. While a DMA transfer
    /// is under way it is the time the transfer takes and the longest time an
    /// instruction takes after it; else it is the time the instruction in flight
    /// still takes, and the time of an interrupt entry if the PPU can raise an
    /// interrupt before that.
    pub open spec fn ticks_to_complete_bound(self) -> int {
        if self.board.bus.dma_transfer {
            self.board.dma_ticks_left() + 800
        } else {
            self.countdown() + if self.board.ppu.ticks_to_event() < self.countdown() {
                27int
            } else {
                0int
            }
        }
    }

    /// Whether no instruction begins on the next tick: one is in flight, or the tick
    /// is not the processor's, or the DMA engine takes it.
    pub open spec fn idle(self) -> bool {
        self.cpu.cycles > 0 || self.board.bus.dma_transfer || self.board.ticks_to_slot() != 0
    }

    /// A bound on the ticks until an instruction is in flight: nothing if one is,
    /// else the time until the processor's next cycle that no DMA transfer takes.
    pub open spec fn ticks_to_begin_bound(self) -> int {
        if self.cpu.cycles > 0 {
            0
        } else if self.board.bus.dma_transfer {
            4 + self.board.dma_ticks_left()
        } else {
            1 + self.board.ticks_to_slot()
        }
    }

    /// Whether the machine is between instructions in the way it is at the end of
    /// every tick: well-formed, with no interrupt line raised.
    pub open spec fn settled(self) -> bool {
        &&& self.wf()
        &&& !self.board.ppu.nmi
        &&& !self.board.cart.mapper.irq_raised()
    }

    /// Whether the tick count has room for the ticks until no instruction is in
    /// flight.
    pub open spec fn has_room(self) -> bool {
        self.board.bus.system_clock_counter + self.ticks_to_complete_bound() <= u64::MAX
    }

    /// The entry into an interrupt handler reaches neither the PPU nor the cartridge
    /// nor the DMA engine.
    pub proof fn lemma_interrupt_entry_is_plain(self, vector: u16, cycles: u8)
        requires
            0x8000 <= vector < 0xFFFF,
        ensures
            self.interrupted(vector, cycles).board.ppu == self.board.ppu,
            self.interrupted(vector, cycles).board.cart == self.board.cart,
            self.board.same_engine(self.interrupted(vector, cycles).board),
            self.interrupted(vector, cycles).cpu.cycles == cycles,
    {
        lemma_stack_in_page_one(self.cpu.stkp);
        self.board.lemma_plain_access(stack_addr(self.cpu.stkp), high_byte(self.cpu.pc));
        let ma = self.push(high_byte(self.cpu.pc));
        lemma_stack_in_page_one(ma.cpu.stkp);
        ma.board.lemma_plain_access(stack_addr(ma.cpu.stkp), low_byte(self.cpu.pc));
        let m1 = ma.push(low_byte(self.cpu.pc));
        let pushed = with_flag(with_flag(m1.cpu.status, FLAG_B, false), FLAG_U, true);
        let mb = m1.with_cpu(Cpu { status: pushed, ..m1.cpu });
        lemma_stack_in_page_one(mb.cpu.stkp);
        mb.board.lemma_plain_access(stack_addr(mb.cpu.stkp), pushed);
        let m2 = mb.push(pushed);
        let mc = m2.with_cpu(Cpu { status: with_flag(pushed, FLAG_I, true), ..m2.cpu });
        mc.board.lemma_plain_access(vector, 0);
        mc.read(vector).1.board.lemma_plain_access(vector.wrapping_add(1), 0);
    }

    /// The two interrupt polls leave no line raised. They reach neither the PPU nor
    /// the cartridge nor the DMA engine otherwise, and change the cycles that the
    /// instruction in flight has left only where an interrupt is taken.
    pub proof fn lemma_polls(self)
        ensures
            ({
                let n = self.after_nmi_poll().after_irq_poll();
                &&& n.board.ppu == (PpuView { nmi: false, ..self.board.ppu })
                &&& !n.board.cart.mapper.irq_raised()
                &&& self.board.same_engine(n.board)
                &&& n.cpu.cycles == self.cpu.cycles || n.cpu.cycles == 7 || n.cpu.cycles == 8
                &&& !self.board.ppu.nmi && !self.board.cart.mapper.irq_raised() ==> n.cpu.cycles == self.cpu.cycles
            }),
    {
        reveal(Machine::after_nmi_poll);
        reveal(Machine::after_irq_poll);
        let mn = self.with_board(Board { ppu: PpuView { nmi: false, ..self.board.ppu }, ..self.board });
        mn.lemma_interrupt_entry_is_plain(0xFFFA, 8);
        let m3 = self.after_nmi_poll();
        let mi = m3.with_board(Board { cart: m3.board.cart.after_irq_clear(), ..m3.board });
        mi.lemma_interrupt_entry_is_plain(0xFFFE, 7);
        assert(!m3.board.ppu.nmi);
        assert(m3.board.ppu == (PpuView { nmi: false, ..self.board.ppu }));
    }

    /// The processor's phase of a tick on which no instruction begins: the processor
    /// counts a cycle off if it is its turn and no transfer is under way; else the
    /// DMA engine takes a step if it is its turn. Nothing else changes but what the
    /// engine reads and writes.
    pub proof fn lemma_idle_cpu_phase(self)
        requires
            self.idle(),
        ensures
            ({
                let n = self.after_cpu_phase();
                let slot = self.board.ticks_to_slot() == 0;
                &&& n.board.ppu.nmi == self.board.ppu.nmi
                &&& n.board.ppu.mask == self.board.ppu.mask
                &&& n.board.cart == self.board.cart
                &&& n.board.bus.system_clock_counter == self.board.bus.system_clock_counter
                &&& n.cpu.cycles == if slot && !self.board.bus.dma_transfer {
                    (self.cpu.cycles - 1) as u8
                } else {
                    self.cpu.cycles
                }
                &&& n.board.bus.dma_transfer ==> self.board.bus.dma_transfer
                &&& !slot || !self.board.bus.dma_transfer ==> self.board.same_engine(n.board)
                &&& slot && self.board.bus.dma_transfer ==> n.board.dma_ticks_after() < self.board.dma_ticks_left()
            }),
    {
        reveal(Machine::after_cpu_phase);
        reveal(Board::dma_ticks_left);
        let source = ((self.board.bus.dma_page as u16) << 8) | (self.board.bus.dma_addr as u16);
        self.board.lemma_read_keeps_lines(source, false);
    }

    /// What a tick on which no instruction begins does to the interrupt lines, the
    /// tick count and the cycles that the instruction in flight has left.
    pub proof fn lemma_idle_tick_lines(self)
        requires
            self.settled(),
            self.idle(),
            self.board.bus.system_clock_counter < u64::MAX,
        ensures
            ({
                let n = self.after_tick();
                let slot = self.board.ticks_to_slot() == 0;
                let counted = if slot && !self.board.bus.dma_transfer {
                    (self.cpu.cycles - 1) as u8
                } else {
                    self.cpu.cycles
                };
                let wait = self.board.ppu.ticks_to_event();
                &&& n.settled()
                &&& n.board.bus.system_clock_counter == self.board.bus.system_clock_counter + 1
                &&& n.board.bus.dma_transfer ==> self.board.bus.dma_transfer
                &&& wait >= 0
                &&& wait > 0 ==> n.board.ppu.ticks_to_event() == wait - 1 && n.cpu.cycles == counted
                &&& wait == 0 ==> n.board.ppu.ticks_to_event() >= 27 && (n.cpu.cycles == counted || n.cpu.cycles == 7
                    || n.cpu.cycles == 8)
            }),
    {
        reveal(Machine::after_tick);
        let ppu = self.board.ppu;
        ppu.lemma_clock_moves_dot(self.board.cart);
        ppu.lemma_ticks_to_event(self.board.cart);
        let m1 = self.after_ppu_clock();
        m1.lemma_rest_of_tick_keeps_dot();
        m1.lemma_idle_cpu_phase();
        let m2 = m1.after_cpu_phase();
        m2.lemma_polls();
        let m4 = m2.after_nmi_poll().after_irq_poll();
        assert(m4.board.ppu.ticks_to_event() == m1.board.ppu.ticks_to_event()) by {
            reveal(PpuView::ticks_to_event);
        }
    }

    /// A tick on which no instruction begins brings a DMA transfer closer to its end.
    pub proof fn lemma_idle_tick_engine(self)
        requires
            self.board.bus.dma_transfer,
            self.board.bus.system_clock_counter < u64::MAX,
        ensures
            0 <= self.after_tick().board.dma_ticks_left() < self.board.dma_ticks_left(),
    {
        reveal(Machine::after_tick);
        let m1 = self.after_ppu_clock();
        m1.lemma_idle_cpu_phase();
        let m2 = m1.after_cpu_phase();
        m2.lemma_polls();
        let n = self.after_tick();
        reveal(Board::dma_ticks_left);
        if self.board.ticks_to_slot() != 0 {
            assert(n.board.dma_ticks_left() == self.board.dma_ticks_left() - 1);
        } else {
            assert(n.board.dma_ticks_left() == m2.board.dma_ticks_after());
        }
    }

    /// A tick on which no instruction begins brings the machine closer to having none
    /// in flight, and leaves it settled.
    pub proof fn lemma_idle_tick(self)
        requires
            self.settled(),
            self.has_room(),
            self.cpu.cycles > 0,
        ensures
            self.after_tick().settled(),
            self.after_tick().has_room(),
            0 <= self.after_tick().ticks_to_complete_bound() < self.ticks_to_complete_bound(),
    {
        self.lemma_bound_is_positive();
        self.lemma_idle_tick_lines();
        if self.board.bus.dma_transfer {
            self.lemma_idle_tick_engine();
        }
        self.after_tick().lemma_bound_is_positive();
    }

    /// A tick on which the processor is free and it is its turn begins an instruction.
    pub proof fn lemma_busy_tick(self)
        requires
            !self.idle(),
        ensures
            self.after_tick().cpu.cycles > 0,
    {
        reveal(Machine::after_tick);
        reveal(Machine::after_cpu_phase);
        let m1 = self.after_ppu_clock();
        m1.lemma_instruction_cycles();
        m1.after_cpu_phase().lemma_polls();
    }

    /// A tick while no instruction is in flight begins one or brings the machine
    /// closer to beginning one.
    pub proof fn lemma_waiting_tick(self)
        requires
            self.settled(),
            self.cpu.cycles == 0,
            self.board.bus.system_clock_counter < u64::MAX,
        ensures
            0 <= self.after_tick().ticks_to_begin_bound() < self.ticks_to_begin_bound(),
    {
        reveal(Board::dma_ticks_left);
        if self.idle() {
            self.lemma_idle_tick_lines();
            if self.board.bus.dma_transfer {
                self.lemma_idle_tick_engine();
            } else {
                reveal(Machine::after_tick);
                let m1 = self.after_ppu_clock();
                m1.lemma_idle_cpu_phase();
                m1.after_cpu_phase().lemma_polls();
            }
        } else {
            self.lemma_busy_tick();
        }
    }

    /// Every tick leaves the machine settled, which is well-formed with no interrupt
    /// line raised, and its tick count one higher. A reset of the console leaves a
    /// settled machine settled.
    pub proof fn lemma_tick_settles(self)
        requires
            self.wf(),
        ensures
            self.after_tick().settled(),
            self.board.bus.system_clock_counter < u64::MAX ==> self.after_tick().board.bus.system_clock_counter
                == self.board.bus.system_clock_counter + 1,
            self.settled() ==> self.after_system_reset().settled(),
    {
        let r = self.with_board(Board { cart: self.board.cart.after_reset(), ..self.board });
        r.board.lemma_plain_access(0xFFFC, 0);
        r.read(0xFFFC).1.board.lemma_plain_access(0xFFFD, 0);
        reveal(Machine::after_tick);
        self.lemma_tick_keeps_wf();
        let m1 = self.after_ppu_clock();
        self.board.ppu.lemma_clock_keeps_wf(self.board.cart);
        m1.lemma_rest_of_tick_keeps_dot();
        m1.after_cpu_phase().lemma_polls();
    }

    /// The bound is never negative, at most 794 without a DMA transfer, and at least
    /// three while an instruction is in flight.
    pub proof fn lemma_bound_is_positive(self)
        ensures
            0 <= self.ticks_to_complete_bound(),
            !self.board.bus.dma_transfer ==> self.ticks_to_complete_bound() <= 794,
            self.board.bus.dma_transfer ==> 800 <= self.ticks_to_complete_bound() <= 800 + 3 * 515 + 3,
            self.cpu.cycles > 0 ==> 3 <= self.ticks_to_complete_bound(),
            0 <= self.ticks_to_begin_bound() <= 1600,
    {
        reveal(Board::dma_ticks_left);
    }
}

impl Board {
    /// The bound on the ticks that a transfer still takes, as it is once the tick
    /// under way has been counted.
    pub open spec fn dma_ticks_after(self) -> int {
        (Board {
            bus: Bus { system_clock_counter: (self.bus.system_clock_counter + 1) as u64, ..self.bus },
            ..self
        }).dma_ticks_left()
    }
}

} // verus!
