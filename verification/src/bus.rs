use vstd::prelude::*;
use vstd::array::spec_array_update;
use crate::bits::lemma_mask_bounds;
use crate::cartridge::{Cartridge, CartridgeView};
use crate::cpu::{machine, Cpu, Machine};
use crate::mapper::RW;
use crate::ppu::{oam_with_byte, write_oam, Ppu, PpuView};

verus! {

/// The system bus: the console's own RAM, the two controllers and the sprite DMA
/// engine. The CPU reaches the PPU and the cartridge through it.
pub struct Bus {
    /// 2 KiB of RAM, mirrored through 0x0000 to 0x1FFF.
    pub cpu_ram: [u8; 2048],
    /// What the host last saw on each controller, most significant bit first:
    /// A, B, Select, Start, Up, Down, Left, Right.
    pub controller: [u8; 2],
    /// Master ticks since reset.
    pub system_clock_counter: u64,
    /// The shift register behind each controller.
    pub controller_state: [u8; 2],
    pub dma_page: u8,
    pub dma_addr: u8,
    pub dma_data: u8,
    pub dma_transfer: bool,
    pub dma_dummy: bool,
}

/// Everything the CPU can reach through the bus, as mathematical values.
pub struct Board {
    pub bus: Bus,
    pub ppu: PpuView,
    pub cart: CartridgeView,
}

/// The board that these three parts make up.
pub open spec fn board(bus: Bus, ppu: Ppu, cart: Cartridge) -> Board {
    Board { bus, ppu: ppu@, cart: cart@ }
}

impl Board {
    /// The byte a CPU read of `addr` yields. The cartridge is asked first; then come
    /// RAM, the PPU's registers and the controllers. Anything else reads zero.
    #[verifier::opaque]
    pub open spec fn read(self, addr: u16, read_only: bool) -> u8 {
        match self.cart.cpu_read(addr) {
            Some(byte) => byte,
            None => if addr <= 0x1FFF {
                self.bus.cpu_ram[(addr & 0x07FF) as int]
            } else if addr <= 0x3FFF {
                self.ppu.cpu_read(self.cart, addr & 0x0007, read_only)
            } else if 0x4016 <= addr <= 0x4017 {
                if (self.bus.controller_state[(addr & 0x0001) as int] & 0x80) > 0 {
                    1
                } else {
                    0
                }
            } else {
                0
            },
        }
    }

    /// The board after a CPU read of `addr`: a PPU register may react to being read,
    /// and a controller shifts to its next button.
    #[verifier::opaque]
    pub open spec fn after_read(self, addr: u16, read_only: bool) -> Board {
        if self.cart.cpu_read(addr).is_some() || addr <= 0x1FFF {
            self
        } else if addr <= 0x3FFF {
            Board { ppu: self.ppu.after_cpu_read(self.cart, addr & 0x0007, read_only), ..self }
        } else if 0x4016 <= addr <= 0x4017 {
            Board {
                bus: Bus {
                    controller_state: spec_array_update(
                        self.bus.controller_state,
                        (addr & 0x0001) as int,
                        self.bus.controller_state[(addr & 0x0001) as int] << 1,
                    ),
                    ..self.bus
                },
                ..self
            }
        } else {
            self
        }
    }

    /// The board after a CPU write of `data` to `addr`. The cartridge sees every
    /// write; one it does not claim goes to RAM, a PPU register, the DMA trigger or
    /// the controller strobe.
    #[verifier::opaque]
    pub open spec fn after_write(self, addr: u16, data: u8) -> Board {
        let cart = self.cart.after_cpu_write(addr, data);
        if self.cart.claims_cpu_write(addr) {
            Board { cart, ..self }
        } else if addr <= 0x1FFF {
            Board {
                bus: Bus {
                    cpu_ram: spec_array_update(self.bus.cpu_ram, (addr & 0x07FF) as int, data),
                    ..self.bus
                },
                cart,
                ..self
            }
        } else if addr <= 0x3FFF {
            Board {
                ppu: self.ppu.after_cpu_write(cart, addr & 0x0007, data),
                cart: self.ppu.cart_after_cpu_write(cart, addr & 0x0007, data),
                ..self
            }
        } else if addr == 0x4014 {
            Board {
                bus: Bus { dma_page: data, dma_addr: 0, dma_transfer: true, ..self.bus },
                cart,
                ..self
            }
        } else if 0x4016 <= addr <= 0x4017 {
            Board {
                bus: Bus {
                    controller_state: spec_array_update(
                        self.bus.controller_state,
                        (addr & 0x0001) as int,
                        self.bus.controller[(addr & 0x0001) as int],
                    ),
                    ..self.bus
                },
                cart,
                ..self
            }
        } else {
            Board { cart, ..self }
        }
    }

    /// One step of the sprite DMA engine. It idles until an odd master tick; from
    /// then on it reads a byte of the source page on even ticks and stores it in
    /// object attribute memory on odd ticks. The transfer ends when the address wraps
    /// after 256 bytes.
    pub open spec fn after_dma_step(self) -> Board {
        let bus = self.bus;
        if bus.dma_dummy {
            if bus.system_clock_counter % 2 == 1 {
                Board { bus: Bus { dma_dummy: false, ..bus }, ..self }
            } else {
                self
            }
        } else if bus.system_clock_counter % 2 == 0 {
            let source = ((bus.dma_page as u16) << 8) | (bus.dma_addr as u16);
            let after = self.after_read(source, false);
            Board { bus: Bus { dma_data: self.read(source, false), ..after.bus }, ..after }
        } else {
            let addr = bus.dma_addr.wrapping_add(1);
            Board {
                bus: Bus {
                    dma_addr: addr,
                    dma_transfer: if addr == 0 { false } else { bus.dma_transfer },
                    dma_dummy: if addr == 0 { true } else { bus.dma_dummy },
                    ..bus
                },
                ppu: PpuView { oam: oam_with_byte(self.ppu.oam, bus.dma_addr, bus.dma_data), ..self.ppu },
                ..self
            }
        }
    }
}

impl Bus {
    /// Whether the bus is as it is at power-on: memory and registers zero, no
    /// transfer under way.
    pub open spec fn is_power_on(self) -> bool {
        &&& forall|i: int| 0 <= i < 2048 ==> self.cpu_ram[i] == 0
        &&& forall|i: int| 0 <= i < 2 ==> self.controller[i] == 0 && self.controller_state[i] == 0
        &&& self.system_clock_counter == 0
        &&& self.dma_page == 0 && self.dma_addr == 0 && self.dma_data == 0
        &&& !self.dma_transfer && !self.dma_dummy
    }

    /// A bus at power-on.
    pub fn new() -> (bus: Bus)
        ensures
            bus.is_power_on(),
    {
        Bus {
            cpu_ram: [0; 2048],
            controller: [0; 2],
            system_clock_counter: 0,
            controller_state: [0; 2],
            dma_page: 0x00,
            dma_addr: 0x00,
            dma_data: 0x00,
            dma_transfer: false,
            dma_dummy: false,
        }
    }

    /// Writes `data` to `addr` in the processor's address space.
    pub fn cpu_write(&mut self, ppu: &mut Ppu, cart: &mut Cartridge, addr: u16, data: u8)
        ensures
            board(*final(self), *final(ppu), *final(cart)) == board(*old(self), *old(ppu), *old(cart)).after_write(
                addr,
                data,
            ),
    {
        proof {
            reveal(Board::after_write);
            lemma_mask_bounds(addr);
        }
        if cart.cpu_write(addr, data) {
        } else if addr <= 0x1FFF {
            self.cpu_ram[(addr & 0x07FF) as usize] = data;
        } else if addr >= 0x2000 && addr <= 0x3FFF {
            ppu.cpu_write(cart, addr & 0x0007, data);
        } else if addr == 0x4014 {
            self.dma_page = data;
            self.dma_addr = 0x00;
            self.dma_transfer = true;
        } else if addr >= 0x4016 && addr <= 0x4017 {
            self.controller_state[(addr & 0x0001) as usize] = self.controller[(addr & 0x0001) as usize];
        }
    }

    /// Reads the byte at `addr` in the processor's address space. A read-only read
    /// leaves the PPU as it is.
    pub fn cpu_read(&mut self, ppu: &mut Ppu, cart: &Cartridge, addr: u16, read_only: bool) -> (data: u8)
        ensures
            data == board(*old(self), *old(ppu), *cart).read(addr, read_only),
            board(*final(self), *final(ppu), *cart) == board(*old(self), *old(ppu), *cart).after_read(
                addr,
                read_only,
            ),
    {
        proof {
            reveal(Board::read);
            reveal(Board::after_read);
            lemma_mask_bounds(addr);
        }
        let mut data: u8 = 0x00;
        if cart.cpu_read(addr, &mut data) {
        } else if addr <= 0x1FFF {
            return self.cpu_ram[(addr & 0x07FF) as usize];
        } else if addr >= 0x2000 && addr <= 0x3FFF {
            data = ppu.cpu_read(cart, addr & 0x0007, read_only);
        } else if addr >= 0x4016 && addr <= 0x4017 {
            let pad: usize = (addr & 0x0001) as usize;
            data = if (self.controller_state[pad] & 0x80) > 0 { 1 } else { 0 };
            self.controller_state[pad] = self.controller_state[pad] << 1;
        }
        data
    }
}

impl Machine {
    /// The machine with its board replaced.
    pub open spec fn with_board(self, board: Board) -> Machine {
        Machine { board, ..self }
    }

    /// One step of the sprite DMA engine, which runs in place of the processor.
    pub open spec fn after_dma_step(self) -> Machine {
        self.with_board(self.board.after_dma_step())
    }

    /// The machine after one dot of the PPU.
    pub open spec fn after_ppu_clock(self) -> Machine {
        self.with_board(
            Board {
                ppu: self.board.ppu.after_clock(self.board.cart),
                cart: self.board.ppu.cart_after_clock(self.board.cart),
                ..self.board
            },
        )
    }

    /// On every third master tick the processor runs for a cycle, or the DMA engine
    /// in its place while a transfer is under way.
    #[verifier::opaque]
    pub open spec fn after_cpu_phase(self) -> Machine {
        if self.board.bus.system_clock_counter % 3 == 0 {
            if self.board.bus.dma_transfer {
                self.after_dma_step()
            } else {
                self.after_clock()
            }
        } else {
            self
        }
    }

    /// The PPU's interrupt line is polled: if raised it is lowered and the processor
    /// enters the non-maskable interrupt.
    #[verifier::opaque]
    pub open spec fn after_nmi_poll(self) -> Machine {
        if self.board.ppu.nmi {
            self.with_board(Board { ppu: PpuView { nmi: false, ..self.board.ppu }, ..self.board }).after_nmi()
        } else {
            self
        }
    }

    /// The mapper's interrupt line is polled: if raised it is acknowledged and the
    /// processor is sent an interrupt request.
    #[verifier::opaque]
    pub open spec fn after_irq_poll(self) -> Machine {
        if self.board.cart.mapper.irq_raised() {
            self.with_board(Board { cart: self.board.cart.after_irq_clear(), ..self.board }).after_irq()
        } else {
            self
        }
    }

    /// One master tick: a dot of the PPU, the processor's phase, the two interrupt
    /// polls, and the tick is counted.
    #[verifier::opaque]
    pub open spec fn after_tick(self) -> Machine {
        let m = self.after_ppu_clock().after_cpu_phase().after_nmi_poll().after_irq_poll();
        m.with_board(
            Board {
                bus: Bus { system_clock_counter: m.board.bus.system_clock_counter.wrapping_add(1), ..m.board.bus },
                ..m.board
            },
        )
    }

    /// The machine after a reset of the whole console: the mapper, the processor and
    /// the PPU are reset in this order, then the tick count and the DMA engine.
    pub open spec fn after_system_reset(self) -> Machine {
        let m = self.with_board(Board { cart: self.board.cart.after_reset(), ..self.board }).after_reset();
        m.with_board(
            Board {
                bus: Bus {
                    system_clock_counter: 0,
                    dma_page: 0,
                    dma_addr: 0,
                    dma_data: 0,
                    dma_dummy: true,
                    dma_transfer: false,
                    ..m.board.bus
                },
                ppu: m.board.ppu.after_reset(),
                ..m.board
            },
        )
    }
}

impl Bus {
    /// Resets the console: the mapper, the processor, the PPU, the tick count and the
    /// DMA engine.
    pub fn reset(&mut self, cpu: &mut Cpu, ppu: &mut Ppu, cart: &mut Cartridge)
        ensures
            machine(*final(cpu), *final(self), *final(ppu), *final(cart)) == machine(
                *old(cpu),
                *old(self),
                *old(ppu),
                *old(cart),
            ).after_system_reset(),
            machine(*old(cpu), *old(self), *old(ppu), *old(cart)).wf() ==> machine(
                *final(cpu),
                *final(self),
                *final(ppu),
                *final(cart),
            ).wf(),
    {
        proof {
            let m = machine(*cpu, *self, *ppu, *cart);
            if m.wf() {
                m.lemma_tick_keeps_wf();
            }
        }
        cart.reset();
        cpu.reset(self, ppu, cart);
        ppu.reset();
        self.system_clock_counter = 0;
        self.dma_page = 0x00;
        self.dma_addr = 0x00;
        self.dma_data = 0x00;
        self.dma_dummy = true;
        self.dma_transfer = false;
    }

    fn dma_step(&mut self, ppu: &mut Ppu, cart: &Cartridge)
        ensures
            board(*final(self), *final(ppu), *cart) == board(*old(self), *old(ppu), *cart).after_dma_step(),
    {
        if self.dma_dummy {
            if self.system_clock_counter % 2 == 1 {
                self.dma_dummy = false;
            }
        } else if self.system_clock_counter % 2 == 0 {
            self.dma_data = self.cpu_read(ppu, cart, ((self.dma_page as u16) << 8) | (self.dma_addr as u16), false);
        } else {
            write_oam(&mut ppu.oam, self.dma_addr, self.dma_data);
            self.dma_addr = self.dma_addr.wrapping_add(1);
            if self.dma_addr == 0x00 {
                self.dma_transfer = false;
                self.dma_dummy = true;
            }
        }
    }

    /// Advances the console by one master tick.
    pub fn clock(&mut self, cpu: &mut Cpu, ppu: &mut Ppu, cart: &mut Cartridge)
        ensures
            machine(*final(cpu), *final(self), *final(ppu), *final(cart)) == machine(
                *old(cpu),
                *old(self),
                *old(ppu),
                *old(cart),
            ).after_tick(),
            machine(*old(cpu), *old(self), *old(ppu), *old(cart)).wf() ==> machine(
                *final(cpu),
                *final(self),
                *final(ppu),
                *final(cart),
            ).wf(),
    {
        proof {
            let m = machine(*cpu, *self, *ppu, *cart);
            if m.wf() {
                m.lemma_tick_keeps_wf();
            }
        }
        self.tick(cpu, ppu, cart);
    }

    fn tick(&mut self, cpu: &mut Cpu, ppu: &mut Ppu, cart: &mut Cartridge)
        ensures
            machine(*final(cpu), *final(self), *final(ppu), *final(cart)) == machine(
                *old(cpu),
                *old(self),
                *old(ppu),
                *old(cart),
            ).after_tick(),
    {
        reveal(Machine::after_tick);
        reveal(Machine::after_cpu_phase);
        reveal(Machine::after_nmi_poll);
        reveal(Machine::after_irq_poll);
        ppu.clock(cart);
        if self.system_clock_counter % 3 == 0 {
            if self.dma_transfer {
                self.dma_step(ppu, cart);
            } else {
                cpu.clock(self, ppu, cart);
            }
        }
        if ppu.nmi {
            ppu.nmi = false;
            cpu.nmi(self, ppu, cart);
        }
        if cart.irq_state() {
            cart.irq_clear();
            cpu.irq(self, ppu, cart);
        }
        self.system_clock_counter = self.system_clock_counter.wrapping_add(1);
    }
}

} // verus!
