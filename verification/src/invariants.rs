use vstd::prelude::*;
use crate::bus::Board;
use crate::cartridge::CartridgeView;
use crate::cpu::{
    flag_set, high_byte, low_byte, modified, stack_addr, with_flag, word, Cpu, Machine, FLAG_B, FLAG_I, FLAG_U,
};
use crate::opcodes::{addrmode_of, cycles_of, operation_of, AddrMode, Operation};
use crate::ppu::PpuView;
use crate::registers::PpuControl;

verus! {

/// A scroll register that passed through the address register or the data register still
/// fits in fifteen bits.
proof fn lemma_register_values_fit(t: u16, data: u8, v: u16)
    by (bit_vector)
    ensures
        ((((data & 0x3F) as u16) << 8) | (t & 0x00FF)) <= 0x7FFF,
        t <= 0x7FFF ==> ((t & 0xFF00) | (data as u16)) <= 0x7FFF,
        v & 0x7FFF <= 0x7FFF,
{
}

/// Setting the unused flag sets it.
proof fn lemma_unused_flag(status: u8)
    by (bit_vector)
    ensures
        ((status | 0x20) & 0x20) > 0,
{
}

impl PpuView {
    /// Of the first `n` sprites, between none and `n` cover the scanline.
    pub proof fn lemma_count_in_range_bounds(self, n: int)
        requires
            0 <= n,
        ensures
            0 <= self.count_in_range(n) <= n,
        decreases n,
    {
        if n > 0 {
            self.lemma_count_in_range_bounds(n - 1);
        }
    }

    /// Whatever the background pipeline does on a dot, the dot position, the sprite
    /// selection and the width of the scroll registers stay as they should be.
    pub proof fn lemma_background_fetch_keeps_wf(self, cart: CartridgeView)
        requires
            self.wf(),
        ensures
            self.after_background_fetch(cart).wf(),
            self.after_background_fetch(cart).cycle == self.cycle,
            self.after_background_fetch(cart).scanline == self.scanline,
    {
        let p = self.after_update_shifters();
        assert(p.wf() && p.vram_addr == self.vram_addr);
        p.vram_addr.lemma_stays_in_fifteen_bits(p.tram_addr, 0, false);
    }

    /// The work of a dot on a rendered line keeps the PPU well-formed and moves the
    /// dot only over the skipped one.
    #[verifier::rlimit(80)]
    pub proof fn lemma_render_step_keeps_wf(self, cart: CartridgeView)
        requires
            self.wf(),
        ensures
            self.after_render_step(cart).wf(),
            self.after_render_step(cart).cycle == self.after_skip().cycle,
            self.after_render_step(cart).scanline == self.scanline,
            self.after_render_step(cart).frame_complete == self.frame_complete,
            self.after_render_step(cart).odd_frame == self.odd_frame,
            self.after_render_step(cart).mask == self.mask,
            self.after_render_step(cart).nmi == self.nmi,
            self.after_render_step(cart).control == self.control,
    {
        reveal(PpuView::after_render_step);
        let p1 = self.after_skip().after_prerender_clear();
        p1.lemma_background_fetch_keeps_wf(cart);
        let p2 = p1.after_background_fetch(cart);
        assert(p2.mask == self.mask && p2.nmi == self.nmi && p2.control == self.control) by {
            let q = p1.after_update_shifters();
            assert(q.mask == p1.mask && q.nmi == p1.nmi && q.control == p1.control);
        }
        p2.vram_addr.lemma_stays_in_fifteen_bits(p2.tram_addr, 0, false);
        let p3 = if p2.cycle == 256 {
            p2.after_increment_scroll_y()
        } else {
            p2
        };
        p3.vram_addr.lemma_stays_in_fifteen_bits(p3.tram_addr, 0, false);
        let p4 = if p3.cycle == 257 {
            p3.after_load_background_shifters().after_transfer_address_x()
        } else {
            p3
        };
        let p5 = if p4.cycle == 338 || p4.cycle == 340 {
            PpuView { bg_next_tile_id: p4.ppu_read(cart, p4.tile_id_addr()), ..p4 }
        } else {
            p4
        };
        p5.vram_addr.lemma_stays_in_fifteen_bits(p5.tram_addr, 0, false);
        let p6 = if p5.scanline == -1 && 280 <= p5.cycle < 305 {
            p5.after_transfer_address_y()
        } else {
            p5
        };
        let p7 = if p6.cycle == 257 && p6.scanline >= 0 {
            p6.after_sprite_evaluation()
        } else {
            p6
        };
        p6.lemma_count_in_range_bounds(64);
        assert(p3.wf());
        assert(p4.wf());
        assert(p6.wf());
        assert(p7.wf());
    }

    /// One dot keeps the PPU well-formed: the dot stays on the grid of 341 by 262,
    /// at most eight sprites are selected, and the scroll registers keep to fifteen
    /// bits.
    pub proof fn lemma_clock_keeps_wf(self, cart: CartridgeView)
        requires
            self.wf(),
        ensures
            self.after_clock(cart).wf(),
    {
        self.lemma_clock_moves_dot(cart);
    }

    /// What one tick does to the dot position, the frame flags and the mask, in
    /// terms of the steps of a tick.
    pub proof fn lemma_clock_moves_dot(self, cart: CartridgeView)
        requires
            self.wf(),
        ensures
            self.after_clock(cart).wf(),
            self.after_clock(cart).mask == self.mask,
            self.after_clock(cart).cycle == self.after_skip_on_rendered_line().after_advance().cycle,
            self.after_clock(cart).scanline == self.after_skip_on_rendered_line().after_advance().scanline,
            self.after_clock(cart).frame_complete == self.after_skip_on_rendered_line().after_advance().frame_complete,
            self.after_clock(cart).odd_frame == self.after_skip_on_rendered_line().after_advance().odd_frame,
            self.after_clock(cart).nmi == (self.nmi || (self.scanline == 241 && self.cycle == 1
                && self.control.enable_nmi())),
            self.cart_after_clock(cart) == if self.mask.rendering() && self.cycle == 259 && self.scanline < 240 {
                cart.after_scanline()
            } else {
                cart
            },
    {
        reveal(PpuView::after_clock);
        reveal(PpuView::cart_after_clock);
        reveal(PpuView::after_compose);
        if self.on_rendered_line() {
            self.lemma_render_step_keeps_wf(cart);
        }
    }

    /// The PPU with the skipped dot of a short frame passed over, if it is on it.
    pub open spec fn after_skip_on_rendered_line(self) -> Self {
        if self.on_rendered_line() {
            self.after_skip()
        } else {
            self
        }
    }

    /// Whether `after` is well-formed and has its dot, its frame flag and its frame
    /// parity where this PPU has them.
    pub open spec fn same_dot(self, after: PpuView) -> bool {
        &&& after.wf()
        &&& after.scanline == self.scanline
        &&& after.cycle == self.cycle
        &&& after.frame_complete == self.frame_complete
        &&& after.odd_frame == self.odd_frame
    }

    /// No access to the registers breaks the PPU's well-formedness or moves its dot,
    /// and a reset leaves it well-formed.
    pub proof fn lemma_register_access_keeps_wf(self, cart: CartridgeView, addr: u16, data: u8, read_only: bool)
        requires
            self.wf(),
        ensures
            self.same_dot(self.after_cpu_read(cart, addr, read_only)),
            self.same_dot(self.after_cpu_write(cart, addr, data)),
            self.after_reset().wf(),
    {
        lemma_register_values_fit(self.tram_addr.0, data, self.vram_addr.0.wrapping_add(1));
        lemma_register_values_fit(self.tram_addr.0, data, self.vram_addr.0.wrapping_add(32));
        self.tram_addr.lemma_stays_in_fifteen_bits(self.tram_addr, (data >> 3) as u16, PpuControl(data).nametable_x());
        self.tram_addr.lemma_stays_in_fifteen_bits(self.tram_addr, (data & 0x07) as u16, PpuControl(data).nametable_y());
        self.tram_addr.with_nametable_x(PpuControl(data).nametable_x()).lemma_stays_in_fifteen_bits(
            self.tram_addr,
            0,
            PpuControl(data).nametable_y(),
        );
        self.tram_addr.with_fine_y((data & 0x07) as u16).lemma_stays_in_fifteen_bits(
            self.tram_addr,
            (data >> 3) as u16,
            false,
        );
    }
}

impl Board {
    /// No access of the processor breaks the PPU's well-formedness or moves its dot,
    /// nor does a step of the DMA engine.
    pub proof fn lemma_access_keeps_dot(self, addr: u16, data: u8, read_only: bool)
        requires
            self.ppu.wf(),
        ensures
            self.ppu.same_dot(self.after_read(addr, read_only).ppu),
            self.ppu.same_dot(self.after_write(addr, data).ppu),
            self.ppu.same_dot(self.after_dma_step().ppu),
            self.after_read(addr, read_only).bus.system_clock_counter == self.bus.system_clock_counter,
            self.after_write(addr, data).bus.system_clock_counter == self.bus.system_clock_counter,
            self.after_dma_step().bus.system_clock_counter == self.bus.system_clock_counter,
    {
        reveal(Board::after_read);
        reveal(Board::after_write);
        self.ppu.lemma_register_access_keeps_wf(self.cart, addr & 0x0007, data, read_only);
        self.ppu.lemma_register_access_keeps_wf(
            self.cart.after_cpu_write(addr, data),
            addr & 0x0007,
            data,
            read_only,
        );
        let source = ((self.bus.dma_page as u16) << 8) | (self.bus.dma_addr as u16);
        self.ppu.lemma_register_access_keeps_wf(self.cart, source & 0x0007, data, false);
    }
}

impl Machine {
    /// Whether the machine's PPU is well-formed: its dot on the grid, at most eight
    /// sprites selected, its scroll registers within fifteen bits.
    pub open spec fn wf(self) -> bool {
        self.board.ppu.wf()
    }

    /// Whether `after` is well-formed, its PPU's dot is where this machine's is, and
    /// its tick count is this machine's.
    pub open spec fn keeps_dot(self, after: Machine) -> bool {
        &&& self.board.ppu.same_dot(after.board.ppu)
        &&& after.board.bus.system_clock_counter == self.board.bus.system_clock_counter
    }

    /// No read or write of the processor moves the PPU's dot or breaks its
    /// well-formedness.
    pub proof fn lemma_read_write_keep_dot(self, addr: u16, data: u8)
        requires
            self.wf(),
        ensures
            self.keeps_dot(self.read(addr).1),
            self.keeps_dot(self.write(addr, data)),
            self.keeps_dot(self.next_byte().1),
            self.keeps_dot(self.push(data)),
            self.keeps_dot(self.pull().1),
            self.keeps_dot(self.read_word(addr).1),
    {
        self.board.lemma_access_keeps_dot(addr, data, false);
        self.board.lemma_access_keeps_dot(self.cpu.pc, data, false);
        self.board.lemma_access_keeps_dot(stack_addr(self.cpu.stkp), data, false);
        self.board.lemma_access_keeps_dot(stack_addr(self.cpu.stkp.wrapping_add(1)), data, false);
        self.read(addr).1.board.lemma_access_keeps_dot(addr.wrapping_add(1), data, false);
    }

    /// Locating and fetching an operand keeps the PPU's dot and well-formedness.
    pub proof fn lemma_addressing_keeps_dot(self, mode: AddrMode)
        requires
            self.wf(),
        ensures
            self.keeps_dot(self.addressing(mode).1),
            self.keeps_dot(self.fetch(mode).1),
    {
        self.lemma_read_write_keep_dot(self.cpu.addr_abs, 0);
        let (b1, m1) = self.next_byte();
        m1.lemma_read_write_keep_dot(0, 0);
        let (b2, m2) = m1.next_byte();
        match mode {
            AddrMode::Ind => {
                let ptr = word(b1, b2);
                let first = if b1 == 0xFF { ptr & 0xFF00 } else { ptr.wrapping_add(1) };
                m2.lemma_read_write_keep_dot(first, 0);
                m2.read(first).1.lemma_read_write_keep_dot(ptr, 0);
            },
            AddrMode::Izx => {
                let lo_at = (b1 as u16).wrapping_add(m1.cpu.x as u16) & 0x00FF;
                m1.lemma_read_write_keep_dot(lo_at, 0);
                let m = m1.read(lo_at).1;
                m.lemma_read_write_keep_dot((b1 as u16).wrapping_add(m.cpu.x as u16).wrapping_add(1) & 0x00FF, 0);
            },
            AddrMode::Izy => {
                let lo_at = (b1 as u16) & 0x00FF;
                m1.lemma_read_write_keep_dot(lo_at, 0);
                m1.read(lo_at).1.lemma_read_write_keep_dot((b1 as u16).wrapping_add(1) & 0x00FF, 0);
            },
            _ => {},
        }
    }

    /// An interrupt entry, a software interrupt and a reset of the processor keep the
    /// PPU's dot and well-formedness.
    pub proof fn lemma_interrupt_keeps_dot(self, vector: u16, cycles: u8)
        requires
            self.wf(),
        ensures
            self.keeps_dot(self.interrupted(vector, cycles)),
            self.keeps_dot(self.broken()),
            self.keeps_dot(self.after_irq()),
            self.keeps_dot(self.after_nmi()),
            self.keeps_dot(self.after_reset()),
    {
        self.lemma_entry_keeps_dot(vector, cycles);
        self.lemma_entry_keeps_dot(0xFFFE, 7);
        self.lemma_entry_keeps_dot(0xFFFA, 8);
        self.lemma_read_write_keep_dot(0xFFFC, 0);
        let pc = self.cpu.pc.wrapping_add(1);
        let m0 = self.with_cpu(Cpu { pc, ..self.cpu });
        m0.lemma_read_write_keep_dot(0, high_byte(pc));
        let ma = m0.push(high_byte(pc));
        ma.lemma_read_write_keep_dot(0, low_byte(pc));
        let m1 = ma.push(low_byte(pc));
        let pushed = with_flag(with_flag(m1.cpu.status, FLAG_B, true), FLAG_U, true);
        let mb = m1.with_cpu(Cpu { status: pushed, ..m1.cpu });
        mb.lemma_read_write_keep_dot(0, pushed);
        let m2 = mb.push(pushed);
        m2.with_cpu(
            Cpu { status: with_flag(with_flag(pushed, FLAG_B, false), FLAG_I, true), ..m2.cpu },
        ).lemma_read_write_keep_dot(0xFFFE, 0);
    }

    proof fn lemma_entry_keeps_dot(self, vector: u16, cycles: u8)
        requires
            self.wf(),
        ensures
            self.keeps_dot(self.interrupted(vector, cycles)),
    {
        self.lemma_read_write_keep_dot(0, high_byte(self.cpu.pc));
        let ma = self.push(high_byte(self.cpu.pc));
        ma.lemma_read_write_keep_dot(0, low_byte(self.cpu.pc));
        let m1 = ma.push(low_byte(self.cpu.pc));
        let pushed = with_flag(with_flag(m1.cpu.status, FLAG_B, false), FLAG_U, true);
        let mb = m1.with_cpu(Cpu { status: pushed, ..m1.cpu });
        mb.lemma_read_write_keep_dot(0, pushed);
        let m2 = mb.push(pushed);
        m2.with_cpu(Cpu { status: with_flag(pushed, FLAG_I, true), ..m2.cpu }).lemma_read_write_keep_dot(vector, 0);
    }

    /// The operations that use the stack keep the PPU's dot and well-formedness.
    pub proof fn lemma_stacked_keeps_dot(self, op: Operation)
        requires
            self.wf(),
        ensures
            self.keeps_dot(self.stacked(op)),
    {
        self.lemma_interrupt_keeps_dot(0, 0);
        self.lemma_read_write_keep_dot(0, self.cpu.a);
        self.lemma_read_write_keep_dot(0, self.cpu.status | FLAG_B | FLAG_U);
        let (v1, m1) = self.pull();
        m1.lemma_read_write_keep_dot(0, 0);
        let (v2, m2) = m1.pull();
        m2.lemma_read_write_keep_dot(0, 0);
        let pc = self.cpu.pc.wrapping_sub(1);
        let mj = self.with_cpu(Cpu { pc, ..self.cpu });
        mj.lemma_read_write_keep_dot(0, high_byte(pc));
        mj.push(high_byte(pc)).lemma_read_write_keep_dot(0, low_byte(pc));
    }

    /// Every operation keeps the PPU's dot and well-formedness.
    #[verifier::rlimit(80)]
    pub proof fn lemma_operate_keeps_dot(self, op: Operation, mode: AddrMode)
        requires
            self.wf(),
        ensures
            self.keeps_dot(self.operate(op, mode).1),
    {
        self.lemma_addressing_keeps_dot(mode);
        self.lemma_stacked_keeps_dot(op);
        self.lemma_read_write_keep_dot(self.cpu.addr_abs, self.cpu.a);
        self.lemma_read_write_keep_dot(self.cpu.addr_abs, self.cpu.x);
        self.lemma_read_write_keep_dot(self.cpu.addr_abs, self.cpu.y);
        let (v, m) = self.fetch(mode);
        let (r, status) = modified(op, v, m.cpu.status);
        m.with_cpu(Cpu { status, ..m.cpu }).lemma_read_write_keep_dot(m.cpu.addr_abs, r);
    }

    /// A cycle of the processor keeps the machine well-formed and does not move the
    /// PPU's dot.
    pub proof fn lemma_clock_keeps_dot(self)
        requires
            self.wf(),
        ensures
            self.keeps_dot(self.after_instruction()),
            self.keeps_dot(self.after_clock()),
    {
        self.lemma_read_write_keep_dot(self.cpu.pc, 0);
        let (opcode, m1) = self.read(self.cpu.pc);
        let m2 = m1.with_cpu(
            Cpu {
                opcode,
                status: with_flag(m1.cpu.status, FLAG_U, true),
                pc: m1.cpu.pc.wrapping_add(1),
                cycles: cycles_of(opcode),
                ..m1.cpu
            },
        );
        m2.lemma_addressing_keeps_dot(addrmode_of(opcode));
        let (crossed, m3) = m2.addressing(addrmode_of(opcode));
        m3.lemma_operate_keeps_dot(operation_of(opcode), addrmode_of(opcode));
    }

    /// The unused flag is set after every instruction.
    pub proof fn lemma_unused_flag_set_after_instruction(self)
        ensures
            flag_set(self.after_instruction().cpu.status, FLAG_U),
            self.cpu.cycles == 0 ==> flag_set(self.after_clock().cpu.status, FLAG_U),
    {
        let (opcode, m1) = self.read(self.cpu.pc);
        let m2 = m1.with_cpu(
            Cpu {
                opcode,
                status: with_flag(m1.cpu.status, FLAG_U, true),
                pc: m1.cpu.pc.wrapping_add(1),
                cycles: cycles_of(opcode),
                ..m1.cpu
            },
        );
        let (crossed, m3) = m2.addressing(addrmode_of(opcode));
        let (may_add, m4) = m3.operate(operation_of(opcode), addrmode_of(opcode));
        lemma_unused_flag(m4.cpu.status);
    }

    /// What follows the PPU's dot in a master tick, which is the processor's phase
    /// and the two interrupt polls, keeps the machine well-formed and does not move
    /// the PPU's dot.
    #[verifier::rlimit(80)]
    pub proof fn lemma_rest_of_tick_keeps_dot(self)
        requires
            self.wf(),
        ensures
            self.keeps_dot(self.after_cpu_phase().after_nmi_poll().after_irq_poll()),
    {
        reveal(Machine::after_cpu_phase);
        reveal(Machine::after_nmi_poll);
        reveal(Machine::after_irq_poll);
        self.lemma_clock_keeps_dot();
        self.board.lemma_access_keeps_dot(0, 0, false);
        let m2 = self.after_cpu_phase();
        let m2n = m2.with_board(Board { ppu: PpuView { nmi: false, ..m2.board.ppu }, ..m2.board });
        m2n.lemma_interrupt_keeps_dot(0, 0);
        let m3 = m2.after_nmi_poll();
        let m3i = m3.with_board(Board { cart: m3.board.cart.after_irq_clear(), ..m3.board });
        m3i.lemma_interrupt_keeps_dot(0, 0);
    }

    /// A master tick keeps the machine well-formed, and so does a reset of the
    /// console: on every tick the PPU's dot is on the grid of 341 by 262 and its
    /// video address within fifteen bits.
    pub proof fn lemma_tick_keeps_wf(self)
        requires
            self.wf(),
        ensures
            self.after_tick().wf(),
            self.after_system_reset().wf(),
    {
        reveal(Machine::after_tick);
        self.board.ppu.lemma_clock_keeps_wf(self.board.cart);
        self.after_ppu_clock().lemma_rest_of_tick_keeps_dot();
        let r = self.with_board(Board { cart: self.board.cart.after_reset(), ..self.board });
        r.lemma_interrupt_keeps_dot(0, 0);
        r.after_reset().board.ppu.lemma_register_access_keeps_wf(r.after_reset().board.cart, 0, 0, false);
    }
}

} // verus!
