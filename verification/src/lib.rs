//! The core of an emulator for an 8-bit console: a 6502 processor, a picture
//! processing unit, the bus between them and cartridges with two kinds of mapper.
//!
//! Every part keeps its state in plain fields and describes each of its operations by
//! a `spec` function on that state; the executable operation is proved to do exactly
//! what the function says. The processor's model is [`cpu::Machine`], the bus's is
//! [`bus::Board`], the PPU's is [`ppu::PpuView`] and the cartridge's is
//! [`cartridge::CartridgeView`]. [`emulator::Emulator`] puts the parts together.

pub mod arithmetic;
pub mod bits;
pub mod bus;
pub mod cartridge;
pub mod cpu;
pub mod disassembler;
pub mod emulator;
pub mod image;
pub mod invariants;
pub mod mapper;
pub mod mapper_000;
pub mod mapper_004;
pub mod opcodes;
pub mod palette;
pub mod ppu;
pub mod registers;
pub mod round_trips;
pub mod stepping;
pub mod timing;
