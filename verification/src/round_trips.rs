use vstd::prelude::*;
use crate::cartridge::CartridgeView;
use crate::cpu::{word, Machine, FLAG_U};
use crate::ppu::{advanced, PpuView};

verus! {

/// The two halves of an address written through the address register make up the address.
proof fn lemma_address_halves(t: u16, hi: u8, lo: u8)
    by (bit_vector)
    ensures
        ((((((hi & 0x3F) as u16) << 8) | (t & 0x00FF)) & 0xFF00) | (lo as u16)) == ((((hi & 0x3F) as u16) << 8) | (
        lo as u16)),
{
}

impl PpuView {
    /// A byte written through the sprite data register is the byte read back through it.
    pub proof fn lemma_oam_data_round_trip(self, cart: CartridgeView, data: u8)
        ensures
            self.after_cpu_write(cart, 4, data).cpu_read(cart, 4, false) == data,
            self.after_cpu_write(cart, 4, data).oam_addr == self.oam_addr,
    {
    }

    /// Two writes to the address register, high byte first, set the video address to the
    /// address written, of which the top two bits are dropped.
    pub proof fn lemma_address_register_sets_video_address(self, cart: CartridgeView, hi: u8, lo: u8)
        requires
            self.address_latch == 0,
        ensures
            self.after_cpu_write(cart, 6, hi).after_cpu_write(cart, 6, lo).vram_addr.0 == word(lo, hi & 0x3F),
            self.after_cpu_write(cart, 6, hi).after_cpu_write(cart, 6, lo).address_latch == 0,
            self.after_cpu_write(cart, 6, hi).after_cpu_write(cart, 6, lo).data_buffer == self.data_buffer,
            self.cart_after_cpu_write(cart, 6, hi) == cart,
    {
        lemma_address_halves(self.tram_addr.0, hi, lo);
    }

    /// Reads through the data register lag by one: a read below the palette gives what
    /// the buffer held, and leaves in the buffer the byte at the video address, which
    /// the next read gives. The video address moves on by the increment.
    pub proof fn lemma_data_register_reads_lag(self, cart: CartridgeView)
        ensures
            self.vram_addr.0 < 0x3F00 ==> self.cpu_read(cart, 7, false) == self.data_buffer,
            self.vram_addr.0 >= 0x3F00 ==> self.cpu_read(cart, 7, false) == self.ppu_read(cart, self.vram_addr.0),
            self.after_cpu_read(cart, 7, false).vram_addr == advanced(self.vram_addr, self.control),
            self.after_cpu_read(cart, 7, false).vram_addr.0 < 0x3F00 ==> self.after_cpu_read(
                cart,
                7,
                false,
            ).cpu_read(cart, 7, false) == self.ppu_read(cart, self.vram_addr.0),
            forall|addr: u16|
                self.after_cpu_read(cart, 7, false).ppu_read(cart, addr) == #[trigger] self.ppu_read(cart, addr),
    {
    }
}

impl Machine {
    /// A reset of the processor leaves the program counter at the word stored at
    /// 0xFFFC, the stack pointer at 0xFD and, of the flags, only the unused one set.
    pub proof fn lemma_reset_registers(self)
        ensures
            self.after_reset().cpu.pc == word(
                self.board.read(0xFFFC, false),
                self.board.after_read(0xFFFC, false).read(0xFFFD, false),
            ),
            self.after_reset().cpu.stkp == 0xFD,
            self.after_reset().cpu.status == FLAG_U,
            self.after_reset().cpu.a == 0 && self.after_reset().cpu.x == 0 && self.after_reset().cpu.y == 0,
            self.after_reset().cpu.cycles == 8,
    {
    }
}

} // verus!
