use vstd::prelude::*;
use vstd::array::spec_array_update;
use crate::cartridge::{Cartridge, Mirror};
use crate::mapper::{Mapper, RW, HANDLED_INTERNALLY};

verus! {

/// A banked cartridge board: four 8 KiB program windows, eight 1 KiB character
/// windows, 32 KiB of work RAM and an interrupt counter clocked once per scanline.
#[derive(Clone, Copy)]
pub struct Mapper004 {
    pub mapper: Mapper,
    /// Which bank register the next data write goes to.
    pub target_register: u8,
    pub prg_bank_mode: bool,
    pub chr_inversion: bool,
    pub mirror_mode: Mirror,
    /// The bank registers R0 to R7.
    pub register: [u32; 8],
    /// Byte offset into character memory of each 1 KiB window.
    pub chr_bank: [u32; 8],
    /// Byte offset into program memory of each 8 KiB window.
    pub prg_bank: [u32; 4],
    pub irq_active: bool,
    pub irq_enable: bool,
    pub irq_update: bool,
    pub irq_counter: u16,
    pub irq_reload: u16,
    /// Work RAM at 0x6000 to 0x7FFF.
    pub ram_static: [u8; 32768],
}

/// Byte offset of the 1 KiB character bank `bank`.
pub open spec fn chr_base(bank: u32) -> u32 {
    bank.wrapping_mul(0x0400)
}

/// Byte offset of the 8 KiB program bank `bank`.
pub open spec fn prg_base(bank: u32) -> u32 {
    bank.wrapping_mul(0x2000)
}

/// The offset `within` bytes into the window that starts at `base`. A sum that does
/// not fit below `HANDLED_INTERNALLY` is held just under it: such an offset lies past
/// the end of any cartridge memory either way.
pub open spec fn window_offset(base: u32, within: u16) -> u32 {
    if base + within < HANDLED_INTERNALLY {
        (base + within) as u32
    } else {
        (HANDLED_INTERNALLY - 1) as u32
    }
}

fn offset_in_window(base: u32, within: u16) -> (offset: u32)
    ensures
        offset == window_offset(base, within),
{
    let sum: u64 = base as u64 + within as u64;
    if sum < HANDLED_INTERNALLY as u64 {
        sum as u32
    } else {
        HANDLED_INTERNALLY - 1
    }
}

/// The eight character windows that the bank registers select.
pub open spec fn chr_windows(r: [u32; 8], inversion: bool) -> [u32; 8] {
    if inversion {
        [
            chr_base(r[2]),
            chr_base(r[3]),
            chr_base(r[4]),
            chr_base(r[5]),
            chr_base(r[0] & 0xFE),
            chr_base(r[0] | 1),
            chr_base(r[1] & 0xFE),
            chr_base(r[1] | 1),
        ]
    } else {
        [
            chr_base(r[0] & 0xFE),
            chr_base(r[0] | 1),
            chr_base(r[1] & 0xFE),
            chr_base(r[1] | 1),
            chr_base(r[2]),
            chr_base(r[3]),
            chr_base(r[4]),
            chr_base(r[5]),
        ]
    }
}

/// The number of 8 KiB program banks on a cartridge with `prg_banks` 16 KiB banks.
pub open spec fn prg_count(prg_banks: u16) -> u32 {
    (prg_banks * 2) as u32
}

/// The four program windows that the bank registers select: R6 and the
/// second-to-last bank trade places with the bank mode, R7 and the last bank are fixed.
pub open spec fn prg_windows(r: [u32; 8], bank_mode: bool, prg_banks: u16) -> [u32; 4] {
    let last = prg_count(prg_banks).wrapping_sub(1);
    let penultimate = prg_base(prg_count(prg_banks).wrapping_sub(2));
    let switchable = prg_base(r[6] & last);
    [
        if bank_mode { penultimate } else { switchable },
        prg_base(r[7] & last),
        if bank_mode { switchable } else { penultimate },
        prg_base(last),
    ]
}

impl Mapper004 {
    /// The mapper as it is after power-on or reset on a cartridge with these bank counts,
    /// with `ram` in its work RAM.
    pub open spec fn initial(prg_banks: u16, chr_banks: u16, ram: [u8; 32768]) -> Self {
        Mapper004 {
            mapper: Mapper { prg_banks, chr_banks },
            target_register: 0,
            prg_bank_mode: false,
            chr_inversion: false,
            mirror_mode: Mirror::Horizontal,
            register: [0xFFFF, 0xFFFF, 0xFFFF, 0xFFFF, 0xFFFF, 0xFFFF, 0xFFFF, 0xFFFF],
            chr_bank: [0, 0, 0, 0, 0, 0, 0, 0],
            prg_bank: [
                0,
                0x2000,
                prg_base(prg_count(prg_banks).wrapping_sub(2)),
                prg_base(prg_count(prg_banks).wrapping_sub(1)),
            ],
            irq_active: false,
            irq_enable: false,
            irq_update: false,
            irq_counter: 0,
            irq_reload: 0,
            ram_static: ram,
        }
    }

    /// The mapper of a cartridge with these bank counts, at power-on, its work RAM
    /// zeroed.
    pub fn new(prg_banks: u16, chr_banks: u16) -> (m: Self)
        ensures
            m == Self::initial(prg_banks, chr_banks, m.ram_static),
            forall|i: int| 0 <= i < 32768 ==> m.ram_static[i] == 0,
    {
        let mut mapper = Mapper004 {
            mapper: Mapper::new(prg_banks, chr_banks),
            target_register: 0x00,
            prg_bank_mode: false,
            chr_inversion: false,
            mirror_mode: Mirror::Horizontal,
            register: [0; 8],
            chr_bank: [0; 8],
            prg_bank: [0; 4],
            irq_active: false,
            irq_enable: false,
            irq_update: false,
            irq_counter: 0x0000,
            irq_reload: 0x0000,
            ram_static: [0; 32768],
        };
        mapper.reset();
        mapper
    }

    /// The mapper after a write to the bank-select register: the low three bits pick the
    /// register, bit 6 the program bank mode, bit 7 the character inversion.
    pub open spec fn with_bank_select(self, data: u8) -> Self {
        Mapper004 {
            target_register: data & 0x07,
            prg_bank_mode: (data & 0x40) == 0x40,
            chr_inversion: (data & 0x80) == 0x80,
            ..self
        }
    }

    /// The mapper after a write to the bank-data register.
    pub open spec fn with_bank_data(self, data: u8) -> Self {
        Mapper004 {
            register: spec_array_update(
                self.register,
                (self.target_register & 0x07) as int,
                data as u32,
            ),
            ..self
        }
    }

    /// The mapper with its windows derived anew from the bank registers.
    pub open spec fn rebanked(self) -> Self {
        Mapper004 {
            chr_bank: chr_windows(self.register, self.chr_inversion),
            prg_bank: prg_windows(self.register, self.prg_bank_mode, self.mapper.prg_banks),
            ..self
        }
    }

    /// Which of the four program windows a CPU address at or above 0x8000 falls in.
    pub open spec fn prg_window_of(addr: u16) -> int {
        if addr <= 0x9FFF {
            0
        } else if addr <= 0xBFFF {
            1
        } else if addr <= 0xDFFF {
            2
        } else {
            3
        }
    }

    fn rebank(&mut self)
        ensures
            *final(self) == old(self).rebanked(),
    {
        let r = self.register;
        if self.chr_inversion {
            self.chr_bank = [
                r[2].wrapping_mul(0x0400),
                r[3].wrapping_mul(0x0400),
                r[4].wrapping_mul(0x0400),
                r[5].wrapping_mul(0x0400),
                (r[0] & 0xFE).wrapping_mul(0x0400),
                (r[0] | 1).wrapping_mul(0x0400),
                (r[1] & 0xFE).wrapping_mul(0x0400),
                (r[1] | 1).wrapping_mul(0x0400),
            ];
        } else {
            self.chr_bank = [
                (r[0] & 0xFE).wrapping_mul(0x0400),
                (r[0] | 1).wrapping_mul(0x0400),
                (r[1] & 0xFE).wrapping_mul(0x0400),
                (r[1] | 1).wrapping_mul(0x0400),
                r[2].wrapping_mul(0x0400),
                r[3].wrapping_mul(0x0400),
                r[4].wrapping_mul(0x0400),
                r[5].wrapping_mul(0x0400),
            ];
        }
        let count: u32 = (self.mapper.prg_banks as u32) * 2;
        let last: u32 = count.wrapping_sub(1);
        let penultimate: u32 = count.wrapping_sub(2).wrapping_mul(0x2000);
        let switchable: u32 = (r[6] & last).wrapping_mul(0x2000);
        self.prg_bank = [
            if self.prg_bank_mode { penultimate } else { switchable },
            (r[7] & last).wrapping_mul(0x2000),
            if self.prg_bank_mode { switchable } else { penultimate },
            last.wrapping_mul(0x2000),
        ];
    }
}

impl RW for Mapper004 {
    open spec fn cpu_read_maps(&self, addr: u16) -> Option<u32> {
        if 0x6000 <= addr <= 0x7FFF {
            Some(HANDLED_INTERNALLY)
        } else if addr >= 0x8000 {
            Some(window_offset(self.prg_bank[Self::prg_window_of(addr)], addr & 0x1FFF))
        } else {
            None
        }
    }

    open spec fn cpu_read_byte(&self, addr: u16) -> u8 {
        self.ram_static[(addr & 0x1FFF) as int]
    }

    open spec fn cpu_write_maps(&self, addr: u16) -> Option<u32> {
        if 0x6000 <= addr <= 0x7FFF {
            Some(HANDLED_INTERNALLY)
        } else {
            None
        }
    }

    open spec fn after_cpu_write(&self, addr: u16, data: u8) -> Self {
        let even = (addr & 0x0001) == 0x0000;
        if 0x6000 <= addr <= 0x7FFF {
            Mapper004 {
                ram_static: spec_array_update(self.ram_static, (addr & 0x1FFF) as int, data),
                ..*self
            }
        } else if 0x8000 <= addr <= 0x9FFF {
            if even {
                self.with_bank_select(data).rebanked()
            } else {
                self.with_bank_data(data).rebanked()
            }
        } else if 0xA000 <= addr <= 0xBFFF {
            if even {
                Mapper004 {
                    mirror_mode: if (data & 0x01) == 0x01 {
                        Mirror::Horizontal
                    } else {
                        Mirror::Vertical
                    },
                    ..*self
                }
            } else {
                *self
            }
        } else if 0xC000 <= addr <= 0xDFFF {
            if even {
                Mapper004 { irq_reload: data as u16, ..*self }
            } else {
                Mapper004 { irq_counter: 0, ..*self }
            }
        } else if addr >= 0xE000 {
            if even {
                Mapper004 { irq_enable: false, irq_active: false, ..*self }
            } else {
                Mapper004 { irq_enable: true, ..*self }
            }
        } else {
            *self
        }
    }

    open spec fn ppu_read_maps(&self, addr: u16) -> Option<u32> {
        if addr <= 0x1FFF {
            Some(window_offset(self.chr_bank[(addr / 0x0400) as int], addr & 0x03FF))
        } else {
            None
        }
    }

    open spec fn ppu_write_maps(&self, chr_banks: u16, addr: u16) -> Option<u32> {
        None
    }

    open spec fn after_reset(&self) -> Self {
        Self::initial(self.mapper.prg_banks, self.mapper.chr_banks, self.ram_static)
    }

    open spec fn irq_raised(&self) -> bool {
        self.irq_active
    }

    open spec fn after_irq_clear(&self) -> Self {
        Mapper004 { irq_active: false, ..*self }
    }

    open spec fn after_scanline(&self) -> Self {
        let counter = if self.irq_counter == 0 {
            self.irq_reload
        } else {
            (self.irq_counter - 1) as u16
        };
        Mapper004 {
            irq_counter: counter,
            irq_active: self.irq_active || (counter == 0 && self.irq_enable),
            ..*self
        }
    }

    open spec fn mirroring(&self) -> Mirror {
        self.mirror_mode
    }

    fn cpu_map_read(&self, addr: u16, mapped_addr: &mut u32, data: &mut u8) -> (hit: bool) {
        proof {
            crate::bits::lemma_mask_bounds(addr);
        }
        if addr >= 0x6000 && addr <= 0x7FFF {
            *mapped_addr = HANDLED_INTERNALLY;
            *data = self.ram_static[(addr & 0x1FFF) as usize];
            return true;
        }
        if addr >= 0x8000 && addr <= 0x9FFF {
            *mapped_addr = offset_in_window(self.prg_bank[0], addr & 0x1FFF);
            return true;
        }
        if addr >= 0xA000 && addr <= 0xBFFF {
            *mapped_addr = offset_in_window(self.prg_bank[1], addr & 0x1FFF);
            return true;
        }
        if addr >= 0xC000 && addr <= 0xDFFF {
            *mapped_addr = offset_in_window(self.prg_bank[2], addr & 0x1FFF);
            return true;
        }
        if addr >= 0xE000 {
            *mapped_addr = offset_in_window(self.prg_bank[3], addr & 0x1FFF);
            return true;
        }
        false
    }

    fn cpu_map_write(&mut self, addr: u16, mapped_addr: &mut u32, data: &u8) -> (hit: bool) {
        proof {
            crate::bits::lemma_mask_bounds(addr);
            crate::bits::lemma_byte_mask_bounds(self.target_register);
        }
        if addr >= 0x6000 && addr <= 0x7FFF {
            *mapped_addr = HANDLED_INTERNALLY;
            self.ram_static[(addr & 0x1FFF) as usize] = *data;
            return true;
        }
        if addr >= 0x8000 && addr <= 0x9FFF {
            if (addr & 0x0001) == 0x0000 {
                self.target_register = *data & 0x07;
                self.prg_bank_mode = (*data & 0x40) == 0x40;
                self.chr_inversion = (*data & 0x80) == 0x80;
            } else {
                self.register[(self.target_register & 0x07) as usize] = *data as u32;
            }
            self.rebank();
            return false;
        }
        if addr >= 0xA000 && addr <= 0xBFFF {
            if (addr & 0x0001) == 0x0000 {
                if (*data & 0x01) == 0x01 {
                    self.mirror_mode = Mirror::Horizontal;
                } else {
                    self.mirror_mode = Mirror::Vertical;
                }
            }
            return false;
        }
        if addr >= 0xC000 && addr <= 0xDFFF {
            if (addr & 0x0001) == 0x0000 {
                self.irq_reload = *data as u16;
            } else {
                self.irq_counter = 0x0000;
            }
            return false;
        }
        if addr >= 0xE000 {
            if (addr & 0x0001) == 0x0000 {
                self.irq_enable = false;
                self.irq_active = false;
            } else {
                self.irq_enable = true;
            }
            return false;
        }
        false
    }

    fn ppu_map_read(&self, addr: u16, mapped_addr: &mut u32) -> (hit: bool) {
        if addr <= 0x1FFF {
            let window: usize = (addr / 0x0400) as usize;
            *mapped_addr = offset_in_window(self.chr_bank[window], addr & 0x03FF);
            return true;
        }
        false
    }

    fn ppu_map_write(&self, _cart: &Cartridge, _addr: u16, _mapped_addr: &mut u32) -> (hit: bool) {
        false
    }

    fn reset(&mut self) {
        self.target_register = 0;
        self.prg_bank_mode = false;
        self.chr_inversion = false;
        self.mirror_mode = Mirror::Horizontal;
        self.irq_active = false;
        self.irq_enable = false;
        self.irq_update = false;
        self.irq_counter = 0x0000;
        self.irq_reload = 0x0000;
        self.chr_bank = [0, 0, 0, 0, 0, 0, 0, 0];
        self.register = [0xFFFF, 0xFFFF, 0xFFFF, 0xFFFF, 0xFFFF, 0xFFFF, 0xFFFF, 0xFFFF];
        let count: u32 = (self.mapper.prg_banks as u32) * 2;
        self.prg_bank = [
            0,
            0x2000,
            count.wrapping_sub(2).wrapping_mul(0x2000),
            count.wrapping_sub(1).wrapping_mul(0x2000),
        ];
    }

    fn irq_state(&self) -> (raised: bool) {
        self.irq_active
    }

    fn irq_clear(&mut self) {
        self.irq_active = false;
    }

    fn scanline(&mut self) {
        if self.irq_counter == 0 {
            self.irq_counter = self.irq_reload;
        } else {
            self.irq_counter -= 1;
        }
        if self.irq_counter == 0 && self.irq_enable {
            self.irq_active = true;
        }
    }

    fn mirror(&self) -> (m: Mirror) {
        self.mirror_mode
    }
}

} // verus!
