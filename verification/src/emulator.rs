use vstd::prelude::*;
use crate::bus::Bus;
use crate::cartridge::{parse, Cartridge, CartridgeView, LoadError};
use crate::cpu::{machine, Cpu, Machine};
use crate::mapper::RW;
use crate::ppu::Ppu;
use crate::timing::dots_per_frame;

verus! {

/// The whole console: processor, bus, PPU and the cartridge in its slot.
pub struct Emulator {
    pub cpu: Cpu,
    pub bus: Bus,
    pub ppu: Ppu,
    pub cart: Cartridge,
}

impl Machine {
    /// The machine after `n` master ticks.
    pub open spec fn after_ticks(self, n: nat) -> Machine
        decreases n,
    {
        if n == 0 {
            self
        } else {
            self.after_ticks((n - 1) as nat).after_tick()
        }
    }

    /// How far the PPU is from the end of its frame, in dots; nothing once the frame
    /// is complete.
    pub open spec fn dots_left(self) -> int {
        if self.board.ppu.frame_complete {
            0
        } else {
            dots_per_frame() - self.board.ppu.dot()
        }
    }
}

impl View for Emulator {
    type V = Machine;

    open spec fn view(&self) -> Machine {
        machine(self.cpu, self.bus, self.ppu, self.cart)
    }
}

impl Emulator {
    /// Builds a console around the cartridge that a ROM image describes. The console
    /// is as it is at power-on; a reset starts the program.
    pub fn new(image: &[u8]) -> (built: Result<Emulator, LoadError>)
        ensures
            match built {
                Ok(console) => {
                    &&& parse(image@) == Ok::<CartridgeView, LoadError>(console@.board.cart)
                    &&& console.cpu == Cpu::power_on()
                    &&& console.bus.is_power_on()
                    &&& console@.board.ppu.is_power_on()
                    &&& console@.settled()
                },
                Err(e) => parse(image@) == Err::<CartridgeView, LoadError>(e),
            },
    {
        match Cartridge::new(image) {
            Ok(cart) => Ok(Emulator { cpu: Cpu::new(), bus: Bus::new(), ppu: Ppu::new(), cart }),
            Err(e) => Err(e),
        }
    }

    /// Advances the console by one master tick.
    pub fn clock(&mut self)
        ensures
            final(self)@ == old(self)@.after_tick(),
            old(self)@.wf() ==> final(self)@.settled(),
    {
        proof {
            if self@.wf() {
                self@.lemma_tick_settles();
            }
        }
        self.bus.clock(&mut self.cpu, &mut self.ppu, &mut self.cart);
    }

    /// Resets the mapper, the processor and the PPU; memories stay as they are.
    pub fn reset(&mut self)
        ensures
            final(self)@ == old(self)@.after_system_reset(),
            old(self)@.wf() ==> final(self)@.wf(),
            old(self)@.settled() ==> final(self)@.settled(),
    {
        proof {
            if self@.settled() {
                self@.lemma_tick_settles();
            }
        }
        self.bus.reset(&mut self.cpu, &mut self.ppu, &mut self.cart);
    }

    /// Whether the console is settled: its state well-formed and no interrupt line
    /// raised, as it is after power-on and after each of its operations.
    pub fn is_settled(&self) -> (settled: bool)
        ensures
            settled == self@.settled(),
    {
        self.ppu.is_well_formed() && !self.ppu.nmi && !self.cart.irq_state()
    }

    /// Ticks until the frame is complete and gives the number of ticks it took, which
    /// is none if the frame is complete already. The host shows the picture and
    /// clears `ppu.frame_complete` before it asks for the next frame.
    pub fn step_frame(&mut self) -> (ticks: u32)
        requires
            old(self)@.wf(),
        ensures
            final(self)@ == old(self)@.after_ticks(ticks as nat),
            final(self)@.board.ppu.frame_complete,
            final(self)@.wf(),
            ticks > 0 ==> final(self)@.settled(),
            forall|n: nat| n < ticks ==> !(#[trigger] old(self)@.after_ticks(n)).board.ppu.frame_complete,
            ticks <= dots_per_frame(),
    {
        let mut ticks: u32 = 0;
        while !self.ppu.frame_complete
            invariant
                self@.wf(),
                ticks > 0 ==> self@.settled(),
                self@ == old(self)@.after_ticks(ticks as nat),
                forall|n: nat| n < ticks ==> !(#[trigger] old(self)@.after_ticks(n)).board.ppu.frame_complete,
                ticks + self@.dots_left() <= dots_per_frame(),
            decreases self@.dots_left(),
        {
            proof {
                self@.lemma_tick_advances_dot();
            }
            self.clock();
            ticks = ticks + 1;
        }
        ticks
    }

    /// Ticks until an instruction is in flight, which takes no tick if one is, and
    /// gives the number of ticks it took. A DMA transfer that holds the processor up
    /// is waited for. What comes into flight is the next instruction of the program,
    /// or the entry into an interrupt handler if an interrupt comes first.
    pub fn begin_instruction(&mut self) -> (ticks: u32)
        requires
            old(self)@.settled(),
            old(self)@.board.bus.system_clock_counter < 0xFFFF_FFFF_FFFF_0000u64,
        ensures
            final(self)@ == old(self)@.after_ticks(ticks as nat),
            final(self)@.cpu.cycles != 0,
            final(self)@.settled(),
            forall|n: nat| n < ticks ==> (#[trigger] old(self)@.after_ticks(n)).cpu.cycles == 0,
            ticks <= 1600,
            final(self)@.board.bus.system_clock_counter == old(self)@.board.bus.system_clock_counter + ticks,
    {
        let mut ticks: u32 = 0;
        proof {
            self@.lemma_bound_is_positive();
        }
        while self.cpu.complete()
            invariant
                self@.settled(),
                self@ == old(self)@.after_ticks(ticks as nat),
                forall|n: nat| n < ticks ==> (#[trigger] old(self)@.after_ticks(n)).cpu.cycles == 0,
                ticks + self@.ticks_to_begin_bound() <= 1600,
                self@.board.bus.system_clock_counter == old(self)@.board.bus.system_clock_counter + ticks,
                old(self)@.board.bus.system_clock_counter < 0xFFFF_FFFF_FFFF_0000u64,
            decreases self@.ticks_to_begin_bound(),
        {
            proof {
                self@.lemma_bound_is_positive();
                self@.lemma_waiting_tick();
                self@.lemma_tick_settles();
            }
            self.clock();
            ticks = ticks + 1;
        }
        ticks
    }

    /// Ticks until no instruction is in flight, which takes no tick if none is, and
    /// gives the number of ticks it took. An interrupt entry that falls into the
    /// instruction is carried out with it.
    pub fn finish_instruction(&mut self) -> (ticks: u32)
        requires
            old(self)@.settled(),
            old(self)@.board.bus.system_clock_counter < 0xFFFF_FFFF_FFFF_1000u64,
        ensures
            final(self)@ == old(self)@.after_ticks(ticks as nat),
            final(self)@.cpu.cycles == 0,
            final(self)@.settled(),
            forall|n: nat| n < ticks ==> (#[trigger] old(self)@.after_ticks(n)).cpu.cycles != 0,
            ticks <= 2400,
    {
        let mut ticks: u32 = 0;
        proof {
            self@.lemma_bound_is_positive();
        }
        while !self.cpu.complete()
            invariant
                self@.settled(),
                self@.has_room(),
                self@ == old(self)@.after_ticks(ticks as nat),
                forall|n: nat| n < ticks ==> (#[trigger] old(self)@.after_ticks(n)).cpu.cycles != 0,
                ticks + self@.ticks_to_complete_bound() <= 2400,
            decreases self@.ticks_to_complete_bound(),
        {
            proof {
                self@.lemma_idle_tick();
            }
            self.clock();
            ticks = ticks + 1;
        }
        proof {
            self@.lemma_bound_is_positive();
        }
        ticks
    }

    /// Carries out one instruction: ticks until an instruction is in flight and on
    /// until none is. Gives the ticks it took to begin and the ticks it took from
    /// then on.
    pub fn step_instruction(&mut self) -> (ticks: (u32, u32))
        requires
            old(self)@.settled(),
            old(self)@.board.bus.system_clock_counter < 0xFFFF_FFFF_FFFF_0000u64,
        ensures
            final(self)@ == old(self)@.after_ticks((ticks.0 + ticks.1) as nat),
            final(self)@.cpu.cycles == 0,
            final(self)@.settled(),
            forall|n: nat| n < ticks.0 ==> (#[trigger] old(self)@.after_ticks(n)).cpu.cycles == 0,
            forall|n: nat|
                ticks.0 <= n < ticks.0 + ticks.1 ==> (#[trigger] old(self)@.after_ticks(n)).cpu.cycles != 0,
            ticks.1 > 0,
    {
        let begun = self.begin_instruction();
        let ghost middle = self@;
        let ran = self.finish_instruction();
        proof {
            assert forall|n: nat| begun <= n < begun + ran implies (#[trigger] old(self)@.after_ticks(n)).cpu.cycles
                != 0 by {
                old(self)@.lemma_ticks_add(begun as nat, (n - begun) as nat);
                assert(middle.after_ticks((n - begun) as nat).cpu.cycles != 0);
            }
            old(self)@.lemma_ticks_add(begun as nat, ran as nat);
            assert(middle.after_ticks(0) == middle);
        }
        (begun, ran)
    }
}

impl Machine {
    /// Ticks add up.
    pub proof fn lemma_ticks_add(self, a: nat, b: nat)
        ensures
            self.after_ticks(a).after_ticks(b) == self.after_ticks(a + b),
        decreases b,
    {
        if b > 0 {
            self.lemma_ticks_add(a, (b - 1) as nat);
        }
    }
}

} // verus!
