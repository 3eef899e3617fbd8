use vstd::prelude::*;
use crate::image::Color;

verus! {

/// The colour the video hardware emits for each of its 64 colour codes.
pub open spec fn system_color(code: u8) -> Color {
    match code {
        0x00 => Color { r: 84, g: 84, b: 84, a: 255 },
        0x01 => Color { r: 0, g: 30, b: 116, a: 255 },
        0x02 => Color { r: 8, g: 16, b: 144, a: 255 },
        0x03 => Color { r: 48, g: 0, b: 136, a: 255 },
        0x04 => Color { r: 68, g: 0, b: 100, a: 255 },
        0x05 => Color { r: 92, g: 0, b: 48, a: 255 },
        0x06 => Color { r: 84, g: 4, b: 0, a: 255 },
        0x07 => Color { r: 60, g: 24, b: 0, a: 255 },
        0x08 => Color { r: 32, g: 42, b: 0, a: 255 },
        0x09 => Color { r: 8, g: 58, b: 0, a: 255 },
        0x0A => Color { r: 0, g: 64, b: 0, a: 255 },
        0x0B => Color { r: 0, g: 60, b: 0, a: 255 },
        0x0C => Color { r: 0, g: 50, b: 60, a: 255 },
        0x0D => Color { r: 0, g: 0, b: 0, a: 255 },
        0x0E => Color { r: 0, g: 0, b: 0, a: 255 },
        0x0F => Color { r: 0, g: 0, b: 0, a: 255 },
        0x10 => Color { r: 152, g: 150, b: 152, a: 255 },
        0x11 => Color { r: 8, g: 76, b: 196, a: 255 },
        0x12 => Color { r: 48, g: 50, b: 236, a: 255 },
        0x13 => Color { r: 92, g: 30, b: 228, a: 255 },
        0x14 => Color { r: 136, g: 20, b: 176, a: 255 },
        0x15 => Color { r: 160, g: 20, b: 100, a: 255 },
        0x16 => Color { r: 152, g: 34, b: 32, a: 255 },
        0x17 => Color { r: 120, g: 60, b: 0, a: 255 },
        0x18 => Color { r: 84, g: 90, b: 0, a: 255 },
        0x19 => Color { r: 40, g: 114, b: 0, a: 255 },
        0x1A => Color { r: 8, g: 124, b: 0, a: 255 },
        0x1B => Color { r: 0, g: 118, b: 40, a: 255 },
        0x1C => Color { r: 0, g: 102, b: 120, a: 255 },
        0x1D => Color { r: 0, g: 0, b: 0, a: 255 },
        0x1E => Color { r: 0, g: 0, b: 0, a: 255 },
        0x1F => Color { r: 0, g: 0, b: 0, a: 255 },
        0x20 => Color { r: 236, g: 238, b: 236, a: 255 },
        0x21 => Color { r: 76, g: 154, b: 236, a: 255 },
        0x22 => Color { r: 120, g: 124, b: 236, a: 255 },
        0x23 => Color { r: 176, g: 98, b: 236, a: 255 },
        0x24 => Color { r: 228, g: 84, b: 236, a: 255 },
        0x25 => Color { r: 236, g: 88, b: 180, a: 255 },
        0x26 => Color { r: 236, g: 106, b: 100, a: 255 },
        0x27 => Color { r: 212, g: 136, b: 32, a: 255 },
        0x28 => Color { r: 160, g: 170, b: 0, a: 255 },
        0x29 => Color { r: 116, g: 196, b: 0, a: 255 },
        0x2A => Color { r: 76, g: 208, b: 32, a: 255 },
        0x2B => Color { r: 56, g: 204, b: 108, a: 255 },
        0x2C => Color { r: 56, g: 180, b: 204, a: 255 },
        0x2D => Color { r: 60, g: 60, b: 60, a: 255 },
        0x2E => Color { r: 0, g: 0, b: 0, a: 255 },
        0x2F => Color { r: 0, g: 0, b: 0, a: 255 },
        0x30 => Color { r: 236, g: 238, b: 236, a: 255 },
        0x31 => Color { r: 168, g: 204, b: 236, a: 255 },
        0x32 => Color { r: 188, g: 188, b: 236, a: 255 },
        0x33 => Color { r: 212, g: 178, b: 236, a: 255 },
        0x34 => Color { r: 236, g: 174, b: 236, a: 255 },
        0x35 => Color { r: 236, g: 174, b: 212, a: 255 },
        0x36 => Color { r: 236, g: 180, b: 176, a: 255 },
        0x37 => Color { r: 228, g: 196, b: 144, a: 255 },
        0x38 => Color { r: 204, g: 210, b: 120, a: 255 },
        0x39 => Color { r: 180, g: 222, b: 120, a: 255 },
        0x3A => Color { r: 168, g: 226, b: 144, a: 255 },
        0x3B => Color { r: 152, g: 226, b: 180, a: 255 },
        0x3C => Color { r: 160, g: 214, b: 228, a: 255 },
        0x3D => Color { r: 160, g: 162, b: 160, a: 255 },
        0x3E => Color { r: 0, g: 0, b: 0, a: 255 },
        _ => Color { r: 0, g: 0, b: 0, a: 255 },
    }
}

/// The table of all 64 system colours, in the order of their codes.
pub fn system_palette() -> (table: [Color; 64])
    ensures
        forall|code: u8| code < 64 ==> table[code as int] == #[trigger] system_color(code),
{
    [
        Color::from_rgba(84, 84, 84, 255),
        Color::from_rgba(0, 30, 116, 255),
        Color::from_rgba(8, 16, 144, 255),
        Color::from_rgba(48, 0, 136, 255),
        Color::from_rgba(68, 0, 100, 255),
        Color::from_rgba(92, 0, 48, 255),
        Color::from_rgba(84, 4, 0, 255),
        Color::from_rgba(60, 24, 0, 255),
        Color::from_rgba(32, 42, 0, 255),
        Color::from_rgba(8, 58, 0, 255),
        Color::from_rgba(0, 64, 0, 255),
        Color::from_rgba(0, 60, 0, 255),
        Color::from_rgba(0, 50, 60, 255),
        Color::from_rgba(0, 0, 0, 255),
        Color::from_rgba(0, 0, 0, 255),
        Color::from_rgba(0, 0, 0, 255),
        Color::from_rgba(152, 150, 152, 255),
        Color::from_rgba(8, 76, 196, 255),
        Color::from_rgba(48, 50, 236, 255),
        Color::from_rgba(92, 30, 228, 255),
        Color::from_rgba(136, 20, 176, 255),
        Color::from_rgba(160, 20, 100, 255),
        Color::from_rgba(152, 34, 32, 255),
        Color::from_rgba(120, 60, 0, 255),
        Color::from_rgba(84, 90, 0, 255),
        Color::from_rgba(40, 114, 0, 255),
        Color::from_rgba(8, 124, 0, 255),
        Color::from_rgba(0, 118, 40, 255),
        Color::from_rgba(0, 102, 120, 255),
        Color::from_rgba(0, 0, 0, 255),
        Color::from_rgba(0, 0, 0, 255),
        Color::from_rgba(0, 0, 0, 255),
        Color::from_rgba(236, 238, 236, 255),
        Color::from_rgba(76, 154, 236, 255),
        Color::from_rgba(120, 124, 236, 255),
        Color::from_rgba(176, 98, 236, 255),
        Color::from_rgba(228, 84, 236, 255),
        Color::from_rgba(236, 88, 180, 255),
        Color::from_rgba(236, 106, 100, 255),
        Color::from_rgba(212, 136, 32, 255),
        Color::from_rgba(160, 170, 0, 255),
        Color::from_rgba(116, 196, 0, 255),
        Color::from_rgba(76, 208, 32, 255),
        Color::from_rgba(56, 204, 108, 255),
        Color::from_rgba(56, 180, 204, 255),
        Color::from_rgba(60, 60, 60, 255),
        Color::from_rgba(0, 0, 0, 255),
        Color::from_rgba(0, 0, 0, 255),
        Color::from_rgba(236, 238, 236, 255),
        Color::from_rgba(168, 204, 236, 255),
        Color::from_rgba(188, 188, 236, 255),
        Color::from_rgba(212, 178, 236, 255),
        Color::from_rgba(236, 174, 236, 255),
        Color::from_rgba(236, 174, 212, 255),
        Color::from_rgba(236, 180, 176, 255),
        Color::from_rgba(228, 196, 144, 255),
        Color::from_rgba(204, 210, 120, 255),
        Color::from_rgba(180, 222, 120, 255),
        Color::from_rgba(168, 226, 144, 255),
        Color::from_rgba(152, 226, 180, 255),
        Color::from_rgba(160, 214, 228, 255),
        Color::from_rgba(160, 162, 160, 255),
        Color::from_rgba(0, 0, 0, 255),
        Color::from_rgba(0, 0, 0, 255),
    ]
}

} // verus!
