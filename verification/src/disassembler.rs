use vstd::prelude::*;
use vstd::string::StrSliceExecFns;
use std::collections::BTreeMap;
use crate::bus::{board, Board, Bus};
use crate::cartridge::Cartridge;
use crate::cpu::Cpu;
use crate::opcodes::{addrmode_of, lookup, name_of, AddrMode};
use crate::ppu::Ppu;

verus! {

/// The upper-case hexadecimal digit for a value below sixteen.
pub open spec fn hex_digit(value: u32) -> char {
    if value < 10 {
        ('0' as u8 + value) as char
    } else {
        ('A' as u8 + (value - 10)) as char
    }
}

/// `value` in upper-case hexadecimal, padded with zeros to at least `width` digits.
pub open spec fn hex(value: u32, width: nat) -> Seq<char>
    decreases value, width,
{
    if value < 16 && width <= 1 {
        seq![hex_digit(value)]
    } else {
        hex(value / 16, if width > 0 { (width - 1) as nat } else { 0 }).push(hex_digit(value % 16))
    }
}

/// How many operand bytes follow the opcode under `mode`.
pub open spec fn operand_length(mode: AddrMode) -> int {
    match mode {
        AddrMode::Imp => 0,
        AddrMode::Abs | AddrMode::Abx | AddrMode::Aby | AddrMode::Ind => 2,
        _ => 1,
    }
}

/// The address a branch at the given place leads to: `next` is the address after its
/// operand, `offset` the operand, taken as signed.
pub open spec fn branch_target(next: u32, offset: u8) -> u32 {
    next.wrapping_add(if offset >= 0x80 { (0xFFFF_FF00u32 + offset) as u32 } else { offset as u32 })
}

/// How the operand of an instruction is shown. `lo` and `hi` are its bytes as far as
/// the mode has any, `next` is the address after them.
pub open spec fn operand_text(mode: AddrMode, lo: u8, hi: u8, next: u32) -> Seq<char> {
    let word = ((hi as u32) << 8) | (lo as u32);
    match mode {
        AddrMode::Imp => " {IMP}"@,
        AddrMode::Imm => "#$"@ + hex(lo as u32, 2) + " {IMM}"@,
        AddrMode::Zp0 => "$"@ + hex(lo as u32, 2) + " {ZP0}"@,
        AddrMode::Zpx => "$"@ + hex(lo as u32, 2) + ", X {ZPX}"@,
        AddrMode::Zpy => "$"@ + hex(lo as u32, 2) + ", Y {ZPY}"@,
        AddrMode::Izx => "($"@ + hex(lo as u32, 2) + ", X) {IZX}"@,
        AddrMode::Izy => "($"@ + hex(lo as u32, 2) + "), Y {IZY}"@,
        AddrMode::Abs => "$"@ + hex(word, 4) + " {ABS}"@,
        AddrMode::Abx => "$"@ + hex(word, 4) + ", X {ABX}"@,
        AddrMode::Aby => "$"@ + hex(word, 4) + ", Y {ABY}"@,
        AddrMode::Ind => "($"@ + hex(word, 4) + ") {IND}"@,
        AddrMode::Rel => "$"@ + hex(lo as u32, 2) + " [$"@ + hex(branch_target(next, lo), 4) + "] {REL}"@,
    }
}

/// One line of a listing: the address, the name of the opcode and its operand.
pub open spec fn line_text(addr: u32, opcode: u8, lo: u8, hi: u8, next: u32) -> Seq<char> {
    "$"@ + hex(addr, 4) + ": "@ + name_of(opcode) + " "@ + operand_text(addrmode_of(opcode), lo, hi, next)
}

/// One instruction as a listing reads it from memory.
pub struct Decoded {
    pub opcode: u8,
    pub lo: u8,
    pub hi: u8,
    /// The address after the instruction.
    pub next: u32,
    /// The board after the reads.
    pub board: Board,
}

impl Board {
    /// Reads the instruction at `addr` without disturbing the PPU: the opcode, then
    /// as many operand bytes as its mode has. Addresses wrap at sixteen bits.
    pub open spec fn decoded(self, addr: u32) -> Decoded {
        let opcode = self.read(addr as u16, true);
        let b1 = self.after_read(addr as u16, true);
        let length = operand_length(addrmode_of(opcode));
        let lo_at = (addr + 1) as u16;
        let hi_at = (addr + 2) as u16;
        if length == 0 {
            Decoded { opcode, lo: 0, hi: 0, next: (addr + 1) as u32, board: b1 }
        } else if length == 1 {
            Decoded {
                opcode,
                lo: b1.read(lo_at, true),
                hi: 0,
                next: (addr + 2) as u32,
                board: b1.after_read(lo_at, true),
            }
        } else {
            Decoded {
                opcode,
                lo: b1.read(lo_at, true),
                hi: b1.after_read(lo_at, true).read(hi_at, true),
                next: (addr + 3) as u32,
                board: b1.after_read(lo_at, true).after_read(hi_at, true),
            }
        }
    }

    /// The listing of the instructions from `addr` up to `stop`, added to `lines`:
    /// each line under the address of its opcode.
    pub open spec fn listing(self, addr: u32, stop: u16, lines: Map<u16, Seq<char>>) -> Map<u16, Seq<char>>
        decreases 0x1_0003 - addr,
    {
        if addr > stop {
            lines
        } else {
            let d = self.decoded(addr);
            d.board.listing(
                d.next,
                stop,
                lines.insert(addr as u16, line_text(addr, d.opcode, d.lo, d.hi, d.next)),
            )
        }
    }

    /// The board after the reads that the listing from `addr` up to `stop` makes.
    pub open spec fn after_listing(self, addr: u32, stop: u16) -> Board
        decreases 0x1_0003 - addr,
    {
        if addr > stop {
            self
        } else {
            self.decoded(addr).board.after_listing(self.decoded(addr).next, stop)
        }
    }
}

/// Builds a string from its characters with `String::from_iter`: the string holds
/// exactly the characters of the vector, in order.
#[verifier::external_body]
fn string_from_chars(chars: &Vec<char>) -> (s: String)
    ensures
        s@ == chars@,
{
    String::from_iter(chars.iter())
}

fn push_str(out: &mut Vec<char>, text: &str)
    ensures
        final(out)@ == old(out)@ + text@,
{
    let count = text.unicode_len();
    let mut i: usize = 0;
    while i < count
        invariant
            i <= count,
            count == text@.len(),
            out@ == old(out)@ + text@.subrange(0, i as int),
        decreases count - i,
    {
        out.push(text.get_char(i));
        i += 1;
    }
    assert(text@.subrange(0, count as int) == text@);
}

/// Appends `value` in hexadecimal, at least `width` digits wide.
fn push_hex(out: &mut Vec<char>, value: u32, width: u8)
    ensures
        final(out)@ == old(out)@ + hex(value, width as nat),
    decreases value, width,
{
    if !(value < 16 && width <= 1) {
        push_hex(out, value / 16, if width == 0 { 0 } else { width - 1 });
    }
    let digit: u8 = (value % 16) as u8;
    let c: char = if digit < 10 { (48 + digit) as char } else { (65 + (digit - 10)) as char };
    out.push(c);
    assert(c == hex_digit(value % 16));
    assert(final(out)@ =~= old(out)@ + hex(value, width as nat));
}

fn push_operand(out: &mut Vec<char>, mode: AddrMode, lo: u8, hi: u8, next: u32)
    ensures
        final(out)@ == old(out)@ + operand_text(mode, lo, hi, next),
{
    let word: u32 = ((hi as u32) << 8) | (lo as u32);
    let ghost before = out@;
    match mode {
        AddrMode::Imp => {
            push_str(out, " {IMP}");
        },
        AddrMode::Imm => {
            push_str(out, "#$");
            push_hex(out, lo as u32, 2);
            push_str(out, " {IMM}");
        },
        AddrMode::Zp0 => {
            push_str(out, "$");
            push_hex(out, lo as u32, 2);
            push_str(out, " {ZP0}");
        },
        AddrMode::Zpx => {
            push_str(out, "$");
            push_hex(out, lo as u32, 2);
            push_str(out, ", X {ZPX}");
        },
        AddrMode::Zpy => {
            push_str(out, "$");
            push_hex(out, lo as u32, 2);
            push_str(out, ", Y {ZPY}");
        },
        AddrMode::Izx => {
            push_str(out, "($");
            push_hex(out, lo as u32, 2);
            push_str(out, ", X) {IZX}");
        },
        AddrMode::Izy => {
            push_str(out, "($");
            push_hex(out, lo as u32, 2);
            push_str(out, "), Y {IZY}");
        },
        AddrMode::Abs => {
            push_str(out, "$");
            push_hex(out, word, 4);
            push_str(out, " {ABS}");
        },
        AddrMode::Abx => {
            push_str(out, "$");
            push_hex(out, word, 4);
            push_str(out, ", X {ABX}");
        },
        AddrMode::Aby => {
            push_str(out, "$");
            push_hex(out, word, 4);
            push_str(out, ", Y {ABY}");
        },
        AddrMode::Ind => {
            push_str(out, "($");
            push_hex(out, word, 4);
            push_str(out, ") {IND}");
        },
        AddrMode::Rel => {
            let target: u32 = next.wrapping_add(if lo >= 0x80 { 0xFFFF_FF00u32 + lo as u32 } else { lo as u32 });
            push_str(out, "$");
            push_hex(out, lo as u32, 2);
            push_str(out, " [$");
            push_hex(out, target, 4);
            push_str(out, "] {REL}");
        },
    }
    assert(out@ =~= before + operand_text(mode, lo, hi, next));
}

/// Whether addresses are ordered the way an ordered map needs its keys to be.
pub open spec fn addresses_ordered() -> bool {
    vstd::laws_cmp::obeys_cmp::<u16>()
}

proof fn lemma_addresses_ordered()
    ensures
        addresses_ordered(),
{
    broadcast use vstd::laws_cmp::group_laws_cmp;
}

impl Cpu {
    /// Lists the instructions found from `n_start` up to `n_stop`, each under the
    /// address of its opcode. Memory is read the way a debugger reads it.
    pub fn disassemble(
        &self,
        n_start: u16,
        n_stop: u16,
        bus: &mut Bus,
        ppu: &mut Ppu,
        cart: &Cartridge,
    ) -> (map: BTreeMap<u16, String>)
        ensures
            map@.dom() == board(*old(bus), *old(ppu), *cart).listing(n_start as u32, n_stop, Map::empty()).dom(),
            forall|addr: u16| #[trigger]
                map@.contains_key(addr) ==> map@[addr]@ == board(*old(bus), *old(ppu), *cart).listing(
                    n_start as u32,
                    n_stop,
                    Map::empty(),
                )[addr],
            board(*final(bus), *final(ppu), *cart) == board(*old(bus), *old(ppu), *cart).after_listing(
                n_start as u32,
                n_stop,
            ),
    {
        let mut addr: u32 = n_start as u32;
        let mut map: BTreeMap<u16, String> = BTreeMap::new();
        let ghost mut lines: Map<u16, Seq<char>> = Map::empty();
        let ghost start = board(*old(bus), *old(ppu), *cart);
        proof {
            lemma_addresses_ordered();
        }
        while addr <= n_stop as u32
            invariant
                addr <= 0x1_0002,
                addresses_ordered(),
                map@.dom() == lines.dom(),
                forall|a: u16| #[trigger] map@.contains_key(a) ==> map@[a]@ == lines[a],
                start.listing(n_start as u32, n_stop, Map::empty()) == board(*bus, *ppu, *cart).listing(
                    addr,
                    n_stop,
                    lines,
                ),
                start.after_listing(n_start as u32, n_stop) == board(*bus, *ppu, *cart).after_listing(addr, n_stop),
            decreases 0x1_0003 - addr,
        {
            let line_addr: u16 = addr as u16;
            let ghost here = board(*bus, *ppu, *cart);
            let mut text: Vec<char> = Vec::new();
            push_str(&mut text, "$");
            push_hex(&mut text, addr, 4);
            push_str(&mut text, ": ");
            let opcode: u8 = bus.cpu_read(ppu, cart, line_addr, true);
            let instruction = lookup(opcode);
            push_str(&mut text, instruction.name);
            push_str(&mut text, " ");
            let mut lo: u8 = 0;
            let mut hi: u8 = 0;
            let first: u32 = addr;
            addr = addr + 1;
            match instruction.addrmode {
                AddrMode::Imp => {},
                AddrMode::Abs | AddrMode::Abx | AddrMode::Aby | AddrMode::Ind => {
                    lo = bus.cpu_read(ppu, cart, #[verifier::truncate] (addr as u16), true);
                    addr = addr + 1;
                    hi = bus.cpu_read(ppu, cart, #[verifier::truncate] (addr as u16), true);
                    addr = addr + 1;
                },
                _ => {
                    lo = bus.cpu_read(ppu, cart, #[verifier::truncate] (addr as u16), true);
                    addr = addr + 1;
                },
            }
            push_operand(&mut text, instruction.addrmode, lo, hi, addr);
            proof {
                let d = here.decoded(first);
                assert(d.opcode == opcode && d.lo == lo && d.hi == hi && d.next == addr);
                assert(d.board == board(*bus, *ppu, *cart));
                assert(text@ =~= line_text(first, opcode, lo, hi, addr));
                lines = lines.insert(line_addr, text@);
            }
            map.insert(line_addr, string_from_chars(&text));
        }
        map
    }
}

} // verus!
