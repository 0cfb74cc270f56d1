//! Ricoh 2A03 CPU: a 6502 without decimal mode, with its official opcodes.
//!
//! Status register P: bit 0 C (carry), 1 Z (zero), 2 I (interrupt disable), 3 D (decimal,
//! kept but unused), 4 B (break, only in pushed copies), 5 U (always 1 when pushed),
//! 6 V (overflow), 7 N (negative).

use vstd::prelude::*;
use crate::bits::{bit_set, clear_bit, set_bit, test_bit, with_bit_cleared, with_bit_set};
use crate::nes::bus::{
    bus_read_rel, bus_write_rel, lemma_plain_read, lemma_ram_write, plain_addr, plain_read, NesBus,
};
use crate::nes::cartridge::Mapper;
use crate::save_state::{dec16, dec32, le16, le32, read_u16, read_u32, read_u8, write_u16, write_u32, write_u8};

verus! {

pub const FLAG_C: u8 = 0;
pub const FLAG_Z: u8 = 1;
pub const FLAG_I: u8 = 2;
pub const FLAG_D: u8 = 3;
pub const FLAG_B: u8 = 4;
pub const FLAG_U: u8 = 5;
pub const FLAG_V: u8 = 6;
pub const FLAG_N: u8 = 7;

/// Addressing modes.
#[derive(Clone, Copy, PartialEq, Eq, Structural, Debug)]
pub enum Mode {
    /// Implied
    Imp,
    /// Accumulator
    Acc,
    /// Immediate
    Imm,
    /// Zero page
    Zp0,
    /// Zero page + X
    ZpX,
    /// Zero page + Y
    ZpY,
    /// Absolute
    Abs,
    /// Absolute + X (page-crossing penalty)
    AbX,
    /// Absolute + Y (page-crossing penalty)
    AbY,
    /// Indirect (JMP only)
    Ind,
    /// Indexed indirect: (zp + X)
    IdX,
    /// Indirect indexed: (zp) + Y
    IdY,
    /// Relative (branches)
    Rel,
}

pub struct NesCpu {
    pub a: u8,
    pub x: u8,
    pub y: u8,
    pub p: u8,
    pub sp: u8,
    pub pc: u16,
    /// Cycles charged by reset and interrupt entry.
    pub cycles: u32,
}

// ---------------------------------------------------------------------------
// Specifications
// ---------------------------------------------------------------------------

/// `x + k`, wrapping at 16 bits.
pub open spec fn add16(x: u16, k: int) -> u16 {
    ((x + k) % 0x1_0000) as u16
}

/// P with flag `bit` set to `val`.
pub open spec fn with_flag(p: u8, bit: u8, val: bool) -> u8 {
    if val { set_bit(p, bit) } else { clear_bit(p, bit) }
}

/// P with Z and N set from `v`.
pub open spec fn nz_spec(p: u8, v: u8) -> u8 {
    with_flag(with_flag(p, FLAG_Z, v == 0), FLAG_N, v >= 128)
}

/// The stack page address of stack pointer `sp`.
pub open spec fn stack_addr(sp: u8) -> u16 {
    (0x100 + sp) as u16
}

/// The 16-bit value at `addr` read through the bus (low byte first), for plain addresses.
pub open spec fn plain_word(b: &NesBus, addr: u16) -> u16 {
    (plain_read(b, add16(addr, 1)) * 256 + plain_read(b, addr)) as u16
}

/// ADC: A + v + C, with carry and signed overflow.
pub open spec fn adc_spec(c: NesCpu, v: u8) -> NesCpu {
    let a = c.a;
    let cin: int = if bit_set(c.p, FLAG_C) { 1 } else { 0 };
    let sum = a + v + cin;
    let r = (sum % 256) as u8;
    let overflow = a / 128 == v / 128 && a / 128 != r / 128;
    NesCpu { a: r, p: nz_spec(with_flag(with_flag(c.p, FLAG_C, sum > 255), FLAG_V, overflow), r), ..c }
}

/// CMP / CPX / CPY of register value `reg` with `v`.
pub open spec fn compare_spec(p: u8, reg: u8, v: u8) -> u8 {
    with_flag(with_flag(with_flag(p, FLAG_C, reg >= v), FLAG_Z, reg == v), FLAG_N, (reg + 256 - v) % 256 >= 128)
}

/// ALU operation `kind` of the 01 opcode group (ORA, AND, EOR, ADC, -, LDA, CMP, SBC) with `v`.
pub open spec fn alu_spec(c: NesCpu, kind: u8, v: u8) -> NesCpu {
    if kind == 0 {
        NesCpu { a: c.a | v, p: nz_spec(c.p, c.a | v), ..c }
    } else if kind == 1 {
        NesCpu { a: c.a & v, p: nz_spec(c.p, c.a & v), ..c }
    } else if kind == 2 {
        NesCpu { a: c.a ^ v, p: nz_spec(c.p, c.a ^ v), ..c }
    } else if kind == 3 {
        adc_spec(c, v)
    } else if kind == 5 {
        NesCpu { a: v, p: nz_spec(c.p, v), ..c }
    } else if kind == 6 {
        NesCpu { p: compare_spec(c.p, c.a, v), ..c }
    } else {
        adc_spec(c, (255 - v) as u8)
    }
}

/// Bytes of operand after the opcode.
pub open spec fn mode_len(m: Mode) -> int {
    match m {
        Mode::Imp | Mode::Acc => 0,
        Mode::Abs | Mode::AbX | Mode::AbY | Mode::Ind => 2,
        _ => 1,
    }
}

/// Whether resolving mode `m` reads only plain memory.
pub open spec fn mode_plain(m: Mode, c: NesCpu, b: &NesBus) -> bool {
    match m {
        Mode::Imp | Mode::Acc | Mode::Imm => true,
        Mode::Abs | Mode::AbX | Mode::AbY => plain_addr(c.pc) && plain_addr(add16(c.pc, 1)),
        Mode::Ind => ind_plain(c, b),
        _ => plain_addr(c.pc),
    }
}

/// Whether the JMP (ind) operand and the pointer it names are plain.
#[verifier::opaque]
pub open spec fn ind_plain(c: NesCpu, b: &NesBus) -> bool {
    let ptr = plain_word(b, c.pc);
    let hi_ptr = if ptr % 256 == 0xFF { (ptr - 0xFF) as u16 } else { add16(ptr, 1) };
    plain_addr(c.pc) && plain_addr(add16(c.pc, 1)) && plain_addr(ptr) && plain_addr(hi_ptr)
}

/// Zero page (+ X / + Y) and relative operands.
#[verifier::opaque]
pub open spec fn resolve_zp_spec(m: Mode, c: NesCpu, b: &NesBus) -> (u16, bool) {
    let n = plain_read(b, c.pc);
    if m == Mode::Zp0 {
        (n as u16, false)
    } else if m == Mode::ZpX {
        (((n + c.x) % 256) as u16, false)
    } else if m == Mode::ZpY {
        (((n + c.y) % 256) as u16, false)
    } else {
        let pc1 = add16(c.pc, 1);
        let addr = add16(pc1, n + (if n >= 128 { 0xFF00int } else { 0 }));
        (addr, pc1 / 256 != addr / 256)
    }
}

/// Absolute (+ X / + Y) operands.
#[verifier::opaque]
pub open spec fn resolve_abs_spec(m: Mode, c: NesCpu, b: &NesBus) -> (u16, bool) {
    let w = plain_word(b, c.pc);
    if m == Mode::Abs {
        (w, false)
    } else {
        let addr = add16(w, if m == Mode::AbX { c.x as int } else { c.y as int });
        (addr, w / 256 != addr / 256)
    }
}

/// The JMP (ind) target.
#[verifier::opaque]
pub open spec fn resolve_ind_spec(c: NesCpu, b: &NesBus) -> (u16, bool) {
    let w = plain_word(b, c.pc);
    let hi_ptr = if w % 256 == 0xFF { (w - 0xFF) as u16 } else { add16(w, 1) };
    ((plain_read(b, hi_ptr) * 256 + plain_read(b, w)) as u16, false)
}

/// (zp + X) and (zp) + Y operands.
#[verifier::opaque]
pub open spec fn resolve_idx_spec(m: Mode, c: NesCpu, b: &NesBus) -> (u16, bool) {
    let n = plain_read(b, c.pc);
    let ptr: int = if m == Mode::IdX { (n + c.x) % 256 } else { n as int };
    let base = (plain_read(b, ((ptr + 1) % 256) as u16) * 256 + plain_read(b, ptr as u16)) as u16;
    if m == Mode::IdX {
        (base, false)
    } else {
        let addr = add16(base, c.y as int);
        (addr, base / 256 != addr / 256)
    }
}

/// The effective address of mode `m` and whether indexing crossed a page, read through
/// plain memory.
pub open spec fn resolve_spec(m: Mode, c: NesCpu, b: &NesBus) -> (u16, bool) {
    match m {
        Mode::Imp | Mode::Acc => (0, false),
        Mode::Imm => (c.pc, false),
        Mode::Zp0 | Mode::ZpX | Mode::ZpY | Mode::Rel => resolve_zp_spec(m, c, b),
        Mode::Abs | Mode::AbX | Mode::AbY => resolve_abs_spec(m, c, b),
        Mode::Ind => resolve_ind_spec(c, b),
        Mode::IdX | Mode::IdY => resolve_idx_spec(m, c, b),
    }
}

/// Two CPU reads, of `a0` then `a1`, from bus `b0` to bus `b2`, giving the word `w` (the
/// second byte high).
pub open spec fn word_read_rel(b0: &NesBus, b2: &NesBus, a0: u16, a1: u16, w: u16) -> bool {
    exists|m: NesBus, lo: u8, hi: u8|
        #![trigger bus_read_rel(b0, &m, a0, lo), bus_read_rel(&m, b2, a1, hi)]
        bus_read_rel(b0, &m, a0, lo) && bus_read_rel(&m, b2, a1, hi) && w == hi * 256 + lo
}

/// The address (and page crossing) a zero-page or relative mode gives from its operand
/// byte `n`, for the CPU `c` as the instruction starts its operand.
pub open spec fn zp_result(m: Mode, c: NesCpu, n: u8) -> (u16, bool) {
    if m == Mode::Zp0 {
        (n as u16, false)
    } else if m == Mode::ZpX {
        (((n + c.x) % 256) as u16, false)
    } else if m == Mode::ZpY {
        (((n + c.y) % 256) as u16, false)
    } else {
        let pc1 = add16(c.pc, 1);
        let delta: int = if n >= 128 { n + 0xFF00 } else { n as int };
        let addr = ((pc1 + delta) % 0x1_0000) as u16;
        (addr, pc1 / 256 != addr / 256)
    }
}

/// The address (and page crossing) an absolute mode gives from its operand word `base`.
pub open spec fn abs_result(m: Mode, c: NesCpu, base: u16) -> (u16, bool) {
    if m == Mode::Abs {
        (base, false)
    } else {
        let idx = if m == Mode::AbX { c.x } else { c.y };
        let addr = ((base + idx) % 0x1_0000) as u16;
        (addr, base / 256 != addr / 256)
    }
}

/// Where an indirect JMP reads its high byte: the next byte, but within the pointer's page.
pub open spec fn ind_hi_ptr(ptr: u16) -> u16 {
    if ptr % 256 == 0xFF {
        (ptr - 0xFF) as u16
    } else {
        (ptr + 1) as u16
    }
}

/// The zero-page pointer an indexed-indirect mode reads from operand byte `n`.
pub open spec fn idx_ptr(m: Mode, c: NesCpu, n: u8) -> u16 {
    if m == Mode::IdX {
        ((n + c.x) % 256) as u16
    } else {
        n as u16
    }
}

/// The address (and page crossing) an indexed-indirect mode gives from the word `base` read
/// through its pointer.
pub open spec fn idx_result(m: Mode, c: NesCpu, base: u16) -> (u16, bool) {
    if m == Mode::IdX {
        (base, false)
    } else {
        let addr = ((base + c.y) % 0x1_0000) as u16;
        (addr, base / 256 != addr / 256)
    }
}

/// The reads an operand mode makes from bus `b0` to bus `b1`, and the address (and page
/// crossing) `r` it forms from the bytes they give, for any address read.
pub open spec fn resolve_rel(m: Mode, c: NesCpu, b0: &NesBus, b1: &NesBus, r: (u16, bool)) -> bool {
    if m == Mode::Imp || m == Mode::Acc {
        r == (0u16, false) && *b1 == *b0
    } else if m == Mode::Imm {
        r == (c.pc, false) && *b1 == *b0
    } else if m == Mode::Zp0 || m == Mode::ZpX || m == Mode::ZpY || m == Mode::Rel {
        exists|n: u8| #[trigger] bus_read_rel(b0, b1, c.pc, n) && r == zp_result(m, c, n)
    } else if m == Mode::Abs || m == Mode::AbX || m == Mode::AbY {
        exists|w: u16| #[trigger] word_read_rel(b0, b1, c.pc, add16(c.pc, 1), w) && r == abs_result(m, c, w)
    } else if m == Mode::Ind {
        exists|w: u16, m1: NesBus, m2: NesBus, lo: u8, hi: u8|
            #![trigger word_read_rel(b0, &m1, c.pc, add16(c.pc, 1), w), bus_read_rel(&m1, &m2, w, lo), bus_read_rel(&m2, b1, ind_hi_ptr(w), hi)]
            word_read_rel(b0, &m1, c.pc, add16(c.pc, 1), w) && bus_read_rel(&m1, &m2, w, lo) && bus_read_rel(
                &m2,
                b1,
                ind_hi_ptr(w),
                hi,
            ) && r == ((hi * 256 + lo) as u16, false)
    } else {
        exists|n: u8, m1: NesBus, m2: NesBus, lo: u8, hi: u8|
            #![trigger bus_read_rel(b0, &m1, c.pc, n), bus_read_rel(&m1, &m2, idx_ptr(m, c, n), lo), bus_read_rel(&m2, b1, ((idx_ptr(m, c, n) + 1) % 256) as u16, hi)]
            bus_read_rel(b0, &m1, c.pc, n) && bus_read_rel(&m1, &m2, idx_ptr(m, c, n), lo) && bus_read_rel(
                &m2,
                b1,
                ((idx_ptr(m, c, n) + 1) % 256) as u16,
                hi,
            ) && r == idx_result(m, c, (hi * 256 + lo) as u16)
    }
}

/// The bus changes only as the plain part of a CPU access allows, and stays well formed.
pub open spec fn bus_kept(a: &NesBus, b: &NesBus) -> bool {
    b.wf() && b.cartridge.kind() == a.cartridge.kind()
}

impl NesCpu {
    pub fn new() -> (c: Self)
        ensures
            c == (NesCpu { a: 0, x: 0, y: 0, p: 0x24, sp: 0xFD, pc: 0, cycles: 0 }),
    {
        NesCpu { a: 0, x: 0, y: 0, p: 0x24, sp: 0xFD, pc: 0, cycles: 0 }
    }

    /// Sets flag `bit` of P.
    fn set_flag(&mut self, bit: u8, val: bool)
        requires
            bit < 8,
        ensures
            *final(self) == (NesCpu { p: with_flag(old(self).p, bit, val), ..*old(self) }),
    {
        if val {
            self.p = with_bit_set(self.p, bit);
        } else {
            self.p = with_bit_cleared(self.p, bit);
        }
    }

    /// Flag `bit` of P.
    fn get_flag(&self, bit: u8) -> (b: bool)
        requires
            bit < 8,
        ensures
            b == bit_set(self.p, bit),
    {
        test_bit(self.p, bit)
    }

    /// Sets Z and N from `v`.
    fn set_nz(&mut self, v: u8)
        ensures
            *final(self) == (NesCpu { p: nz_spec(old(self).p, v), ..*old(self) }),
    {
        self.set_flag(FLAG_Z, v == 0);
        self.set_flag(FLAG_N, v >= 128);
    }

    /// Reads the byte at PC and advances PC.
    fn fetch(&mut self, bus: &mut NesBus) -> (v: u8)
        requires
            old(bus).wf(),
        ensures
            bus_kept(old(bus), final(bus)),
            bus_read_rel(old(bus), final(bus), old(self).pc, v),
            plain_addr(old(self).pc) ==> v == plain_read(old(bus), old(self).pc) && *final(bus) == *old(bus),
            *final(self) == (NesCpu { pc: add16(old(self).pc, 1), ..*old(self) }),
    {
        let v = bus.read(self.pc);
        proof {
            if plain_addr(self.pc) {
                lemma_plain_read(old(bus), bus, self.pc, v);
            }
        }
        self.pc = self.pc.wrapping_add(1);
        v
    }

    /// Reads the 16-bit value at PC (low byte first) and advances PC by 2.
    fn fetch_word(&mut self, bus: &mut NesBus) -> (w: u16)
        requires
            old(bus).wf(),
        ensures
            bus_kept(old(bus), final(bus)),
            *final(self) == (NesCpu { pc: add16(old(self).pc, 2), ..*old(self) }),
            plain_addr(old(self).pc) && plain_addr(add16(old(self).pc, 1)) ==> w == plain_word(
                old(bus),
                old(self).pc,
            ) && *final(bus) == *old(bus),
            word_read_rel(old(bus), final(bus), old(self).pc, add16(old(self).pc, 1), w),
    {
        let ghost b0 = *bus;
        let lo = self.fetch(bus);
        let ghost b1 = *bus;
        let hi = self.fetch(bus);
        let w = (hi as u16) * 256 + lo as u16;
        assert(bus_read_rel(&b0, &b1, old(self).pc, lo) && bus_read_rel(&b1, bus, add16(old(self).pc, 1), hi));
        w
    }

    /// Pushes a byte at $0100 + SP and decrements SP.
    fn push(&mut self, bus: &mut NesBus, val: u8)
        requires
            old(bus).wf(),
        ensures
            bus_kept(old(bus), final(bus)),
            bus_write_rel(old(bus), final(bus), stack_addr(old(self).sp), val),
            *final(self) == (NesCpu { sp: ((old(self).sp + 255) % 256) as u8, ..*old(self) }),
    {
        bus.write(0x100 + self.sp as u16, val);
        self.sp = self.sp.wrapping_sub(1);
    }

    /// Pushes a byte; the RAM byte at $0100 + SP is all that changes.
    fn push_ram(&mut self, bus: &mut NesBus, val: u8)
        requires
            old(bus).wf(),
        ensures
            bus_kept(old(bus), final(bus)),
            final(bus).ram@ == old(bus).ram@.update(stack_addr(old(self).sp) as int, val),
            final(bus).ppu == old(bus).ppu && final(bus).apu == old(bus).apu,
            final(bus).cartridge == old(bus).cartridge,
            crate::nes::bus::joypads(final(bus)) == crate::nes::bus::joypads(old(bus)),
            final(bus).dma_pending == old(bus).dma_pending && final(bus).dma_page == old(bus).dma_page,
            *final(self) == (NesCpu { sp: ((old(self).sp + 255) % 256) as u8, ..*old(self) }),
    {
        let ghost b0 = *bus;
        self.push(bus, val);
        proof {
            lemma_ram_write(&b0, bus, stack_addr(old(self).sp), val);
        }
    }

    /// Increments SP and reads the byte at $0100 + SP.
    fn pull(&mut self, bus: &mut NesBus) -> (v: u8)
        requires
            old(bus).wf(),
        ensures
            bus_kept(old(bus), final(bus)),
            *final(bus) == *old(bus),
            v == old(bus).ram@[stack_addr(((old(self).sp + 1) % 256) as u8) as int],
            *final(self) == (NesCpu { sp: ((old(self).sp + 1) % 256) as u8, ..*old(self) }),
    {
        self.sp = self.sp.wrapping_add(1);
        let v = bus.read(0x100 + self.sp as u16);
        proof {
            lemma_plain_read(old(bus), bus, (0x100 + self.sp) as u16, v);
        }
        v
    }

    /// Pushes a 16-bit value, high byte first.
    fn push_word(&mut self, bus: &mut NesBus, val: u16)
        requires
            old(bus).wf(),
        ensures
            bus_kept(old(bus), final(bus)),
            final(bus).ram@ == old(bus).ram@.update(stack_addr(old(self).sp) as int, (val / 256) as u8).update(
                stack_addr(((old(self).sp + 255) % 256) as u8) as int,
                (val % 256) as u8,
            ),
            ram_only(old(bus), final(bus)),
            *final(self) == (NesCpu { sp: ((old(self).sp + 254) % 256) as u8, ..*old(self) }),
    {
        self.push_ram(bus, (val / 256) as u8);
        self.push_ram(bus, (val % 256) as u8);
    }

    /// Pulls a 16-bit value, low byte first.
    fn pull_word(&mut self, bus: &mut NesBus) -> (w: u16)
        requires
            old(bus).wf(),
        ensures
            bus_kept(old(bus), final(bus)),
            *final(bus) == *old(bus),
            w == old(bus).ram@[stack_addr(((old(self).sp + 2) % 256) as u8) as int] * 256 + old(
                bus,
            ).ram@[stack_addr(((old(self).sp + 1) % 256) as u8) as int],
            *final(self) == (NesCpu { sp: ((old(self).sp + 2) % 256) as u8, ..*old(self) }),
    {
        let lo = self.pull(bus);
        let hi = self.pull(bus);
        (hi as u16) * 256 + lo as u16
    }

    /// Resolves the operand address of mode `m`; returns it and whether a page was crossed.
    fn resolve_addr(&mut self, m: Mode, bus: &mut NesBus) -> (r: (u16, bool))
        requires
            old(bus).wf(),
        ensures
            bus_kept(old(bus), final(bus)),
            *final(self) == (NesCpu { pc: add16(old(self).pc, mode_len(m)), ..*old(self) }),
            mode_plain(m, *old(self), old(bus)) ==> r == resolve_spec(m, *old(self), old(bus)) && *final(bus)
                == *old(bus),
            resolve_rel(m, *old(self), old(bus), final(bus), r),
    {
        match m {
            Mode::Imp | Mode::Acc => (0, false),
            Mode::Imm => {
                let addr = self.pc;
                self.pc = self.pc.wrapping_add(1);
                (addr, false)
            },
            Mode::Zp0 | Mode::ZpX | Mode::ZpY | Mode::Rel => self.resolve_zero_page(m, bus),
            Mode::Abs | Mode::AbX | Mode::AbY => self.resolve_absolute(m, bus),
            Mode::Ind => self.resolve_indirect(bus),
            Mode::IdX | Mode::IdY => self.resolve_indexed_indirect(m, bus),
        }
    }

    /// Zero page, zero page + X / Y, relative.
    #[verifier::spinoff_prover]
    #[verifier::rlimit(100)]
    fn resolve_zero_page(&mut self, m: Mode, bus: &mut NesBus) -> (r: (u16, bool))
        requires
            old(bus).wf(),
            m == Mode::Zp0 || m == Mode::ZpX || m == Mode::ZpY || m == Mode::Rel,
        ensures
            bus_kept(old(bus), final(bus)),
            *final(self) == (NesCpu { pc: add16(old(self).pc, 1), ..*old(self) }),
            plain_addr(old(self).pc) ==> r == resolve_zp_spec(m, *old(self), old(bus)) && *final(bus)
                == *old(bus),
            resolve_rel(m, *old(self), old(bus), final(bus), r),
    {
        reveal(resolve_zp_spec);
        let n = self.fetch(bus);
        if m == Mode::Zp0 {
            (n as u16, false)
        } else if m == Mode::ZpX {
            (n.wrapping_add(self.x) as u16, false)
        } else if m == Mode::ZpY {
            (n.wrapping_add(self.y) as u16, false)
        } else {
            let delta: u16 = if n >= 128 {
                n as u16 + 0xFF00
            } else {
                n as u16
            };
            let addr = self.pc.wrapping_add(delta);
            (addr, self.pc / 256 != addr / 256)
        }
    }

    /// Absolute, absolute + X / Y.
    #[verifier::spinoff_prover]
    #[verifier::rlimit(100)]
    fn resolve_absolute(&mut self, m: Mode, bus: &mut NesBus) -> (r: (u16, bool))
        requires
            old(bus).wf(),
            m == Mode::Abs || m == Mode::AbX || m == Mode::AbY,
        ensures
            bus_kept(old(bus), final(bus)),
            *final(self) == (NesCpu { pc: add16(old(self).pc, 2), ..*old(self) }),
            plain_addr(old(self).pc) && plain_addr(add16(old(self).pc, 1)) ==> r == resolve_abs_spec(
                m,
                *old(self),
                old(bus),
            ) && *final(bus) == *old(bus),
            resolve_rel(m, *old(self), old(bus), final(bus), r),
    {
        reveal(resolve_abs_spec);
        let base = self.fetch_word(bus);
        if m == Mode::Abs {
            (base, false)
        } else {
            let idx = if m == Mode::AbX {
                self.x
            } else {
                self.y
            };
            let addr = base.wrapping_add(idx as u16);
            (addr, base / 256 != addr / 256)
        }
    }

    /// Indirect (JMP), with the 6502 bug: a pointer at $xxFF takes its high byte from $xx00.
    #[verifier::spinoff_prover]
    #[verifier::rlimit(100)]
    fn resolve_indirect(&mut self, bus: &mut NesBus) -> (r: (u16, bool))
        requires
            old(bus).wf(),
        ensures
            bus_kept(old(bus), final(bus)),
            *final(self) == (NesCpu { pc: add16(old(self).pc, 2), ..*old(self) }),
            ind_plain(*old(self), old(bus)) ==> r == resolve_ind_spec(*old(self), old(bus)) && *final(bus)
                == *old(bus),
            resolve_rel(Mode::Ind, *old(self), old(bus), final(bus), r),
    {
        reveal(resolve_ind_spec);
        reveal(ind_plain);
        let ghost b0 = *bus;
        let ptr = self.fetch_word(bus);
        let ghost b1 = *bus;
        let lo = bus.read(ptr) as u16;
        let ghost b2 = *bus;
        let hi_ptr = if ptr % 256 == 0xFF {
            ptr - 0xFF
        } else {
            ptr + 1
        };
        let hi = bus.read(hi_ptr) as u16;
        proof {
            if ind_plain(*old(self), &b0) {
                lemma_plain_read(&b1, &b2, ptr, lo as u8);
                lemma_plain_read(&b2, bus, hi_ptr, hi as u8);
            }
        }
        assert(bus_read_rel(&b1, &b2, ptr, lo as u8) && bus_read_rel(&b2, bus, ind_hi_ptr(ptr), hi as u8));
        (hi * 256 + lo, false)
    }

    /// Indexed indirect (zp + X) and indirect indexed (zp) + Y; the pointer wraps in page zero.
    #[verifier::spinoff_prover]
    #[verifier::rlimit(100)]
    fn resolve_indexed_indirect(&mut self, m: Mode, bus: &mut NesBus) -> (r: (u16, bool))
        requires
            old(bus).wf(),
            m == Mode::IdX || m == Mode::IdY,
        ensures
            bus_kept(old(bus), final(bus)),
            *final(self) == (NesCpu { pc: add16(old(self).pc, 1), ..*old(self) }),
            plain_addr(old(self).pc) ==> r == resolve_idx_spec(m, *old(self), old(bus)) && *final(bus)
                == *old(bus),
            resolve_rel(m, *old(self), old(bus), final(bus), r),
    {
        reveal(resolve_idx_spec);
        let ghost b0 = *bus;
        let n = self.fetch(bus);
        let ptr: u16 = if m == Mode::IdX {
            n.wrapping_add(self.x) as u16
        } else {
            n as u16
        };
        let ghost b1 = *bus;
        let lo = bus.read(ptr) as u16;
        let ghost b2 = *bus;
        let hi = bus.read((ptr + 1) % 256) as u16;
        proof {
            lemma_plain_read(&b1, &b2, ptr, lo as u8);
            lemma_plain_read(&b2, bus, ((ptr + 1) % 256) as u16, hi as u8);
        }
        let base = hi * 256 + lo;
        assert(bus_read_rel(&b0, &b1, old(self).pc, n) && bus_read_rel(&b1, &b2, idx_ptr(m, *old(self), n), lo as u8)
            && bus_read_rel(&b2, bus, ((idx_ptr(m, *old(self), n) + 1) % 256) as u16, hi as u8));
        if m == Mode::IdX {
            (base, false)
        } else {
            let addr = base.wrapping_add(self.y as u16);
            (addr, base / 256 != addr / 256)
        }
    }
}

// ---------------------------------------------------------------------------
// Instruction groups
// ---------------------------------------------------------------------------

/// The 01 group: ORA, AND, EOR, ADC, STA, LDA, CMP, SBC (op % 4 == 1, no STA immediate).
pub open spec fn is_group01(op: u8) -> bool {
    op % 4 == 1 && op != 0x89
}

/// LDX, LDY, CPX, CPY, BIT, STX, STY.
pub open spec fn is_xy_op(op: u8) -> bool {
    op == 0xA2 || op == 0xA6 || op == 0xAE || op == 0xB6 || op == 0xBE || op == 0xA0 || op == 0xA4
        || op == 0xAC || op == 0xB4 || op == 0xBC || op == 0xE0 || op == 0xE4 || op == 0xEC || op == 0xC0
        || op == 0xC4 || op == 0xCC || op == 0x24 || op == 0x2C || op == 0x86 || op == 0x8E || op == 0x96
        || op == 0x84 || op == 0x8C || op == 0x94
}

/// Read-modify-write on memory: ASL, ROL, LSR, ROR, DEC, INC.
pub open spec fn is_rmw(op: u8) -> bool {
    op == 0x06 || op == 0x0E || op == 0x16 || op == 0x1E || op == 0x26 || op == 0x2E || op == 0x36
        || op == 0x3E || op == 0x46 || op == 0x4E || op == 0x56 || op == 0x5E || op == 0x66 || op == 0x6E
        || op == 0x76 || op == 0x7E || op == 0xC6 || op == 0xCE || op == 0xD6 || op == 0xDE || op == 0xE6
        || op == 0xEE || op == 0xF6 || op == 0xFE
}

/// Conditional branches.
pub open spec fn is_branch(op: u8) -> bool {
    op == 0x10 || op == 0x30 || op == 0x50 || op == 0x70 || op == 0x90 || op == 0xB0 || op == 0xD0
        || op == 0xF0
}

/// BRK, PHP, PLP, PHA, PLA, JSR, RTI, RTS, JMP.
pub open spec fn is_stack_jump(op: u8) -> bool {
    op == 0x00 || op == 0x08 || op == 0x28 || op == 0x48 || op == 0x68 || op == 0x20 || op == 0x40
        || op == 0x60 || op == 0x4C || op == 0x6C
}

/// Addressing mode of a 01-group opcode.
pub open spec fn mode01(op: u8) -> Mode {
    let b = (op / 4) % 8;
    if b == 0 {
        Mode::IdX
    } else if b == 1 {
        Mode::Zp0
    } else if b == 2 {
        Mode::Imm
    } else if b == 3 {
        Mode::Abs
    } else if b == 4 {
        Mode::IdY
    } else if b == 5 {
        Mode::ZpX
    } else if b == 6 {
        Mode::AbY
    } else {
        Mode::AbX
    }
}

/// Base cycles of a 01-group opcode (loads: plus 1 when indexing crosses a page).
pub open spec fn cycles01(op: u8) -> u32 {
    let b = (op / 4) % 8;
    if op / 32 == 4 {
        if b == 0 || b == 4 { 6 } else if b == 1 { 3 } else if b == 3 || b == 5 { 4 } else { 5 }
    } else {
        if b == 0 { 6 } else if b == 1 { 3 } else if b == 2 { 2 } else if b == 4 { 5 } else { 4 }
    }
}

/// Whether the bus differs from `a` at most in RAM.
pub open spec fn ram_only(a: &NesBus, b: &NesBus) -> bool {
    &&& b.ppu == a.ppu && b.apu == a.apu && b.cartridge == a.cartridge
    &&& crate::nes::bus::joypads(b) == crate::nes::bus::joypads(a)
    &&& b.dma_pending == a.dma_pending && b.dma_page == a.dma_page
}

/// The 01 group, when its operands are plain: loads and ALU operations read the effective
/// address; STA writes A there.
#[verifier::opaque]
pub open spec fn group01_rel(op: u8, c0: NesCpu, b0: &NesBus, c1: NesCpu, b1: &NesBus, cycles: u32) -> bool {
    let m = mode01(op);
    let ca = NesCpu { pc: add16(c0.pc, mode_len(m)), ..c0 };
    let (addr, crossed) = resolve_spec(m, c0, b0);
    mode_plain(m, c0, b0) ==> if op / 32 == 4 {
        c1 == ca && bus_write_rel(b0, b1, addr, c0.a) && cycles == cycles01(op)
    } else if plain_addr(addr) {
        *b1 == *b0 && c1 == alu_spec(ca, op / 32, plain_read(b0, addr)) && cycles == cycles01(op) + (if crossed {
            1u32
        } else {
            0u32
        })
    } else {
        exists|v: u8|
            #[trigger] bus_read_rel(b0, b1, addr, v) && c1 == alu_spec(ca, op / 32, v) && cycles == cycles01(op)
                + (if crossed { 1u32 } else { 0u32 })
    }
}

impl NesCpu {
    /// The mode of a 01-group opcode.
    fn mode_of01(op: u8) -> (m: Mode)
        ensures
            m == mode01(op),
    {
        let b = (op / 4) % 8;
        if b == 0 {
            Mode::IdX
        } else if b == 1 {
            Mode::Zp0
        } else if b == 2 {
            Mode::Imm
        } else if b == 3 {
            Mode::Abs
        } else if b == 4 {
            Mode::IdY
        } else if b == 5 {
            Mode::ZpX
        } else if b == 6 {
            Mode::AbY
        } else {
            Mode::AbX
        }
    }

    /// ADC: A + v + C.
    fn adc(&mut self, v: u8)
        ensures
            *final(self) == adc_spec(*old(self), v),
    {
        let a = self.a;
        let cin: u16 = if self.get_flag(FLAG_C) {
            1
        } else {
            0
        };
        let sum = a as u16 + v as u16 + cin;
        let r = (sum % 256) as u8;
        self.set_flag(FLAG_C, sum > 255);
        self.set_flag(FLAG_V, a / 128 == v / 128 && a / 128 != r / 128);
        self.a = r;
        self.set_nz(r);
    }

    /// SBC: ADC of the complement.
    fn sbc(&mut self, v: u8)
        ensures
            *final(self) == adc_spec(*old(self), (255 - v) as u8),
    {
        self.adc(255 - v);
    }

    /// CMP / CPX / CPY: the flags of `reg - v`.
    fn compare(&mut self, reg: u8, v: u8)
        ensures
            *final(self) == (NesCpu { p: compare_spec(old(self).p, reg, v), ..*old(self) }),
    {
        let result = reg.wrapping_sub(v);
        self.set_flag(FLAG_C, reg >= v);
        self.set_flag(FLAG_Z, reg == v);
        self.set_flag(FLAG_N, result >= 128);
    }

    /// ALU operation `kind` of the 01 group with `v`.
    fn alu(&mut self, kind: u8, v: u8)
        ensures
            *final(self) == alu_spec(*old(self), kind, v),
    {
        if kind == 0 {
            self.a = self.a | v;
            let r = self.a;
            self.set_nz(r);
        } else if kind == 1 {
            self.a = self.a & v;
            let r = self.a;
            self.set_nz(r);
        } else if kind == 2 {
            self.a = self.a ^ v;
            let r = self.a;
            self.set_nz(r);
        } else if kind == 3 {
            self.adc(v);
        } else if kind == 5 {
            self.a = v;
            self.set_nz(v);
        } else if kind == 6 {
            let a = self.a;
            self.compare(a, v);
        } else {
            self.sbc(v);
        }
    }

    /// The 01 group: ORA, AND, EOR, ADC, STA, LDA, CMP, SBC.
    #[verifier::spinoff_prover]
    #[verifier::rlimit(80)]
    fn exec_group01(&mut self, op: u8, bus: &mut NesBus) -> (cycles: u32)
        requires
            old(bus).wf(),
            is_group01(op),
        ensures
            bus_kept(old(bus), final(bus)),
            group01_rel(op, *old(self), old(bus), *final(self), final(bus), cycles),
            cycles01(op) <= cycles <= cycles01(op) + 1,
    {
        reveal(group01_rel);
        let ghost c0 = *self;
        let ghost b0 = *bus;
        let m = Self::mode_of01(op);
        let (addr, crossed) = self.resolve_addr(m, bus);
        let b = (op / 4) % 8;
        if op / 32 == 4 {
            let a = self.a;
            bus.write(addr, a);
            if b == 0 || b == 4 {
                6
            } else if b == 1 {
                3
            } else if b == 3 || b == 5 {
                4
            } else {
                5
            }
        } else {
            let ghost b1 = *bus;
            let v = bus.read(addr);
            proof {
                if mode_plain(m, c0, &b0) && plain_addr(addr) {
                    lemma_plain_read(&b1, bus, addr, v);
                }
            }
            self.alu(op / 32, v);
            proof {
                if mode_plain(m, c0, &b0) && !plain_addr(addr) {
                    assert(bus_read_rel(&b0, bus, addr, v));
                }
            }
            let base: u32 = if b == 0 {
                6
            } else if b == 1 {
                3
            } else if b == 2 {
                2
            } else if b == 4 {
                5
            } else {
                4
            };
            if crossed {
                base + 1
            } else {
                base
            }
        }
    }
}

/// Addressing mode of an LDX / LDY / CPX / CPY / BIT / STX / STY opcode.
pub open spec fn xy_mode(op: u8) -> Mode {
    if op == 0xA2 || op == 0xA0 || op == 0xE0 || op == 0xC0 {
        Mode::Imm
    } else if op == 0xA6 || op == 0xA4 || op == 0xE4 || op == 0xC4 || op == 0x24 || op == 0x86 || op == 0x84 {
        Mode::Zp0
    } else if op == 0xB6 || op == 0x96 {
        Mode::ZpY
    } else if op == 0xB4 || op == 0x94 {
        Mode::ZpX
    } else if op == 0xBE {
        Mode::AbY
    } else if op == 0xBC {
        Mode::AbX
    } else {
        Mode::Abs
    }
}

/// Base cycles of an LDX / LDY / CPX / CPY / BIT / STX / STY opcode.
pub open spec fn xy_cycles(op: u8) -> u32 {
    match xy_mode(op) {
        Mode::Imm => 2,
        Mode::Zp0 => 3,
        _ => 4,
    }
}

/// STX / STY.
pub open spec fn is_xy_store(op: u8) -> bool {
    op == 0x86 || op == 0x8E || op == 0x96 || op == 0x84 || op == 0x8C || op == 0x94
}

/// The effect of a loaded value on the CPU for LDX, LDY, CPX, CPY and BIT.
pub open spec fn xy_read_spec(op: u8, c: NesCpu, v: u8) -> NesCpu {
    if op == 0xA2 || op == 0xA6 || op == 0xAE || op == 0xB6 || op == 0xBE {
        NesCpu { x: v, p: nz_spec(c.p, v), ..c }
    } else if op == 0xA0 || op == 0xA4 || op == 0xAC || op == 0xB4 || op == 0xBC {
        NesCpu { y: v, p: nz_spec(c.p, v), ..c }
    } else if op == 0xE0 || op == 0xE4 || op == 0xEC {
        NesCpu { p: compare_spec(c.p, c.x, v), ..c }
    } else if op == 0xC0 || op == 0xC4 || op == 0xCC {
        NesCpu { p: compare_spec(c.p, c.y, v), ..c }
    } else {
        NesCpu {
            p: with_flag(with_flag(with_flag(c.p, FLAG_Z, c.a & v == 0), FLAG_V, (v / 64) % 2 == 1), FLAG_N, v >= 128),
            ..c
        }
    }
}

/// LDX, LDY, CPX, CPY, BIT, STX, STY, when their operands are plain.
#[verifier::opaque]
pub open spec fn xy_rel(op: u8, c0: NesCpu, b0: &NesBus, c1: NesCpu, b1: &NesBus, cycles: u32) -> bool {
    let m = xy_mode(op);
    let ca = NesCpu { pc: add16(c0.pc, mode_len(m)), ..c0 };
    let (addr, crossed) = resolve_spec(m, c0, b0);
    mode_plain(m, c0, b0) ==> if is_xy_store(op) {
        c1 == ca && bus_write_rel(b0, b1, addr, if op == 0x86 || op == 0x8E || op == 0x96 { c0.x } else { c0.y })
            && cycles == xy_cycles(op)
    } else if plain_addr(addr) {
        *b1 == *b0 && c1 == xy_read_spec(op, ca, plain_read(b0, addr)) && cycles == xy_cycles(op) + (if crossed {
            1u32
        } else {
            0u32
        })
    } else {
        exists|v: u8|
            #[trigger] bus_read_rel(b0, b1, addr, v) && c1 == xy_read_spec(op, ca, v) && cycles == xy_cycles(op)
                + (if crossed { 1u32 } else { 0u32 })
    }
}

/// Mode of a read-modify-write opcode.
pub open spec fn rmw_mode(op: u8) -> Mode {
    let k = (op / 8) % 4;
    if k == 0 {
        Mode::Zp0
    } else if k == 1 {
        Mode::Abs
    } else if k == 2 {
        Mode::ZpX
    } else {
        Mode::AbX
    }
}

/// A shift or rotate (`kind`: ASL, ROL, LSR, ROR) of `v` with carry in `cin`: the result
/// and the carry out.
pub open spec fn shift_spec(kind: u8, v: u8, cin: bool) -> (u8, bool) {
    let ci: int = if cin { 1 } else { 0 };
    if kind == 0 {
        (((v % 128) * 2) as u8, v >= 128)
    } else if kind == 1 {
        (((v % 128) * 2 + ci) as u8, v >= 128)
    } else if kind == 2 {
        ((v / 2) as u8, v % 2 == 1)
    } else {
        ((v / 2 + ci * 128) as u8, v % 2 == 1)
    }
}

/// A read-modify-write operation on `v`: the value written and the new P.
pub open spec fn rmw_spec(op: u8, p: u8, v: u8) -> (u8, u8) {
    let kind = op / 32;
    if kind == 6 {
        let r = ((v + 255) % 256) as u8;
        (r, nz_spec(p, r))
    } else if kind == 7 {
        let r = ((v + 1) % 256) as u8;
        (r, nz_spec(p, r))
    } else {
        let (r, c) = shift_spec(kind, v, bit_set(p, FLAG_C));
        (r, nz_spec(with_flag(p, FLAG_C, c), r))
    }
}

/// Read-modify-write on memory, when its operands are plain: the result is written back.
#[verifier::opaque]
pub open spec fn rmw_rel(op: u8, c0: NesCpu, b0: &NesBus, c1: NesCpu, b1: &NesBus) -> bool {
    let m = rmw_mode(op);
    let (addr, _) = resolve_spec(m, c0, b0);
    mode_plain(m, c0, b0) && plain_addr(addr) ==> {
        let (r, p) = rmw_spec(op, c0.p, plain_read(b0, addr));
        &&& c1 == NesCpu { pc: add16(c0.pc, mode_len(m)), p, ..c0 }
        &&& bus_write_rel(b0, b1, addr, r)
    }
}

/// Cycles of a read-modify-write opcode.
pub open spec fn rmw_cycles(op: u8) -> u32 {
    let k = (op / 8) % 4;
    if k == 0 { 5 } else if k == 3 { 7 } else { 6 }
}

impl NesCpu {
    fn xy_mode_of(op: u8) -> (m: Mode)
        ensures
            m == xy_mode(op),
    {
        if op == 0xA2 || op == 0xA0 || op == 0xE0 || op == 0xC0 {
            Mode::Imm
        } else if op == 0xA6 || op == 0xA4 || op == 0xE4 || op == 0xC4 || op == 0x24 || op == 0x86 || op
            == 0x84 {
            Mode::Zp0
        } else if op == 0xB6 || op == 0x96 {
            Mode::ZpY
        } else if op == 0xB4 || op == 0x94 {
            Mode::ZpX
        } else if op == 0xBE {
            Mode::AbY
        } else if op == 0xBC {
            Mode::AbX
        } else {
            Mode::Abs
        }
    }

    /// LDX, LDY, CPX, CPY, BIT, STX, STY.
    #[verifier::spinoff_prover]
    #[verifier::rlimit(80)]
    fn exec_xy(&mut self, op: u8, bus: &mut NesBus) -> (cycles: u32)
        requires
            old(bus).wf(),
            is_xy_op(op),
        ensures
            bus_kept(old(bus), final(bus)),
            xy_rel(op, *old(self), old(bus), *final(self), final(bus), cycles),
            xy_cycles(op) <= cycles <= xy_cycles(op) + 1,
    {
        reveal(xy_rel);
        let ghost c0 = *self;
        let ghost b0 = *bus;
        let m = Self::xy_mode_of(op);
        let (addr, crossed) = self.resolve_addr(m, bus);
        let base: u32 = match m {
            Mode::Imm => 2,
            Mode::Zp0 => 3,
            _ => 4,
        };
        if op == 0x86 || op == 0x8E || op == 0x96 {
            let x = self.x;
            bus.write(addr, x);
            return base;
        }
        if op == 0x84 || op == 0x8C || op == 0x94 {
            let y = self.y;
            bus.write(addr, y);
            return base;
        }
        let ghost b1 = *bus;
        let v = bus.read(addr);
        proof {
            if mode_plain(m, c0, &b0) && plain_addr(addr) {
                lemma_plain_read(&b1, bus, addr, v);
            }
        }
        if op == 0xA2 || op == 0xA6 || op == 0xAE || op == 0xB6 || op == 0xBE {
            self.x = v;
            self.set_nz(v);
        } else if op == 0xA0 || op == 0xA4 || op == 0xAC || op == 0xB4 || op == 0xBC {
            self.y = v;
            self.set_nz(v);
        } else if op == 0xE0 || op == 0xE4 || op == 0xEC {
            let x = self.x;
            self.compare(x, v);
        } else if op == 0xC0 || op == 0xC4 || op == 0xCC {
            let y = self.y;
            self.compare(y, v);
        } else {
            self.set_flag(FLAG_Z, self.a & v == 0);
            self.set_flag(FLAG_V, (v / 64) % 2 == 1);
            self.set_flag(FLAG_N, v >= 128);
        }
        proof {
            if mode_plain(m, c0, &b0) && !plain_addr(addr) {
                assert(bus_read_rel(&b0, bus, addr, v));
            }
        }
        if crossed {
            base + 1
        } else {
            base
        }
    }

    fn rmw_mode_of(op: u8) -> (m: Mode)
        ensures
            m == rmw_mode(op),
    {
        let k = (op / 8) % 4;
        if k == 0 {
            Mode::Zp0
        } else if k == 1 {
            Mode::Abs
        } else if k == 2 {
            Mode::ZpX
        } else {
            Mode::AbX
        }
    }

    /// The value a read-modify-write opcode writes back, setting the flags.
    fn rmw_value(&mut self, op: u8, v: u8) -> (r: u8)
        ensures
            (r, final(self).p) == rmw_spec(op, old(self).p, v),
            *final(self) == (NesCpu { p: final(self).p, ..*old(self) }),
    {
        let kind = op / 32;
        if kind == 6 {
            let r = v.wrapping_sub(1);
            self.set_nz(r);
            r
        } else if kind == 7 {
            let r = v.wrapping_add(1);
            self.set_nz(r);
            r
        } else {
            let cin: u8 = if self.get_flag(FLAG_C) {
                1
            } else {
                0
            };
            let r = if kind == 0 {
                (v % 128) * 2
            } else if kind == 1 {
                (v % 128) * 2 + cin
            } else if kind == 2 {
                v / 2
            } else {
                v / 2 + cin * 128
            };
            let c = if kind <= 1 {
                v >= 128
            } else {
                v % 2 == 1
            };
            self.set_flag(FLAG_C, c);
            self.set_nz(r);
            r
        }
    }

    /// ASL, ROL, LSR, ROR, DEC, INC on memory.
    #[verifier::spinoff_prover]
    #[verifier::rlimit(80)]
    fn exec_rmw(&mut self, op: u8, bus: &mut NesBus) -> (cycles: u32)
        requires
            old(bus).wf(),
            is_rmw(op),
        ensures
            bus_kept(old(bus), final(bus)),
            rmw_rel(op, *old(self), old(bus), *final(self), final(bus)),
            cycles == rmw_cycles(op),
    {
        reveal(rmw_rel);
        let ghost c0 = *self;
        let ghost b0 = *bus;
        let m = Self::rmw_mode_of(op);
        let (addr, _) = self.resolve_addr(m, bus);
        let ghost b1 = *bus;
        let v = bus.read(addr);
        proof {
            if mode_plain(m, c0, &b0) && plain_addr(addr) {
                lemma_plain_read(&b1, bus, addr, v);
            }
        }
        let r = self.rmw_value(op, v);
        bus.write(addr, r);
        let k = (op / 8) % 4;
        if k == 0 {
            5
        } else if k == 3 {
            7
        } else {
            6
        }
    }
}

/// The effect of an implied or accumulator opcode (and of the unused ones, which do nothing).
pub open spec fn implied_spec(op: u8, c: NesCpu) -> NesCpu {
    if op == 0x0A || op == 0x2A || op == 0x4A || op == 0x6A {
        let (r, cout) = shift_spec(op / 32, c.a, bit_set(c.p, FLAG_C));
        NesCpu { a: r, p: nz_spec(with_flag(c.p, FLAG_C, cout), r), ..c }
    } else if op == 0x8A {
        NesCpu { a: c.x, p: nz_spec(c.p, c.x), ..c }
    } else if op == 0x98 {
        NesCpu { a: c.y, p: nz_spec(c.p, c.y), ..c }
    } else if op == 0x9A {
        NesCpu { sp: c.x, ..c }
    } else if op == 0xA8 {
        NesCpu { y: c.a, p: nz_spec(c.p, c.a), ..c }
    } else if op == 0xAA {
        NesCpu { x: c.a, p: nz_spec(c.p, c.a), ..c }
    } else if op == 0xBA {
        NesCpu { x: c.sp, p: nz_spec(c.p, c.sp), ..c }
    } else if op == 0xE8 || op == 0xC8 || op == 0xCA || op == 0x88 {
        let r: u8 = if op == 0xE8 {
            ((c.x + 1) % 256) as u8
        } else if op == 0xC8 {
            ((c.y + 1) % 256) as u8
        } else if op == 0xCA {
            ((c.x + 255) % 256) as u8
        } else {
            ((c.y + 255) % 256) as u8
        };
        if op == 0xE8 || op == 0xCA {
            NesCpu { x: r, p: nz_spec(c.p, r), ..c }
        } else {
            NesCpu { y: r, p: nz_spec(c.p, r), ..c }
        }
    } else if op == 0x18 || op == 0x38 {
        NesCpu { p: with_flag(c.p, FLAG_C, op == 0x38), ..c }
    } else if op == 0x58 || op == 0x78 {
        NesCpu { p: with_flag(c.p, FLAG_I, op == 0x78), ..c }
    } else if op == 0xB8 {
        NesCpu { p: with_flag(c.p, FLAG_V, false), ..c }
    } else if op == 0xD8 || op == 0xF8 {
        NesCpu { p: with_flag(c.p, FLAG_D, op == 0xF8), ..c }
    } else {
        c
    }
}

/// Whether branch opcode `op` is taken with flags `p`: N, V, C, Z by op / 64, set or clear by bit 5.
pub open spec fn branch_taken(op: u8, p: u8) -> bool {
    let flag: u8 = if op / 64 == 0 { FLAG_N } else if op / 64 == 1 { FLAG_V } else if op / 64 == 2 { FLAG_C } else { FLAG_Z };
    bit_set(p, flag) == ((op / 32) % 2 == 1)
}

/// A conditional branch, when its operand is plain: 2 cycles, 3 when taken, 4 when the
/// target is on another page.
#[verifier::opaque]
pub open spec fn branch_rel(op: u8, c0: NesCpu, b0: &NesBus, c1: NesCpu, b1: &NesBus, cycles: u32) -> bool {
    let (addr, crossed) = resolve_spec(Mode::Rel, c0, b0);
    plain_addr(c0.pc) ==> *b1 == *b0 && if branch_taken(op, c0.p) {
        c1 == NesCpu { pc: addr, ..c0 } && cycles == 3 + (if crossed { 1u32 } else { 0u32 })
    } else {
        c1 == NesCpu { pc: add16(c0.pc, 1), ..c0 } && cycles == 2
    }
}

/// P as pushed by BRK and PHP: B and U set.
pub open spec fn pushed_p(p: u8) -> u8 {
    set_bit(set_bit(p, FLAG_B), FLAG_U)
}

/// P as pulled by PLP and RTI: U set, B clear.
pub open spec fn pulled_p(v: u8) -> u8 {
    clear_bit(set_bit(v, FLAG_U), FLAG_B)
}

/// The byte `k` places above the stack pointer.
pub open spec fn stack_byte(b: &NesBus, sp: u8, k: int) -> u8 {
    b.ram@[stack_addr(((sp + k) % 256) as u8) as int]
}

/// BRK: PC + 1 and P (with B and U) pushed, I set, PC from the vector at $FFFE.
#[verifier::opaque]
pub open spec fn brk_rel(c0: NesCpu, b0: &NesBus, c1: NesCpu, b1: &NesBus) -> bool {
    let sp = c0.sp;
    let ret = add16(c0.pc, 1);
    &&& ram_only(b0, b1)
    &&& b1.ram@ == b0.ram@.update(stack_addr(sp) as int, (ret / 256) as u8).update(
        stack_addr(((sp + 255) % 256) as u8) as int,
        (ret % 256) as u8,
    ).update(stack_addr(((sp + 254) % 256) as u8) as int, pushed_p(c0.p))
    &&& c1 == NesCpu { pc: plain_word(b0, 0xFFFE), sp: ((sp + 253) % 256) as u8, p: set_bit(c0.p, FLAG_I), ..c0 }
}

/// PHP / PHA: P (with B and U) or A pushed.
#[verifier::opaque]
pub open spec fn push_op_rel(op: u8, c0: NesCpu, b0: &NesBus, c1: NesCpu, b1: &NesBus) -> bool {
    &&& ram_only(b0, b1)
    &&& b1.ram@ == b0.ram@.update(stack_addr(c0.sp) as int, if op == 0x08 { pushed_p(c0.p) } else { c0.a })
    &&& c1 == NesCpu { sp: ((c0.sp + 255) % 256) as u8, ..c0 }
}

/// PLP / PLA: P (U set, B clear) or A (with N and Z) pulled.
#[verifier::opaque]
pub open spec fn pull_op_rel(op: u8, c0: NesCpu, b0: &NesBus, c1: NesCpu, b1: &NesBus) -> bool {
    let v = stack_byte(b0, c0.sp, 1);
    &&& *b1 == *b0
    &&& c1 == if op == 0x28 {
        NesCpu { sp: ((c0.sp + 1) % 256) as u8, p: pulled_p(v), ..c0 }
    } else {
        NesCpu { sp: ((c0.sp + 1) % 256) as u8, a: v, p: nz_spec(c0.p, v), ..c0 }
    }
}

/// JSR, with a plain operand: the address of its last byte pushed, PC at the operand.
#[verifier::opaque]
pub open spec fn jsr_rel(c0: NesCpu, b0: &NesBus, c1: NesCpu, b1: &NesBus) -> bool {
    let sp = c0.sp;
    let ret = add16(c0.pc, 1);
    plain_addr(c0.pc) && plain_addr(add16(c0.pc, 1)) ==> {
        &&& ram_only(b0, b1)
        &&& b1.ram@ == b0.ram@.update(stack_addr(sp) as int, (ret / 256) as u8).update(
            stack_addr(((sp + 255) % 256) as u8) as int,
            (ret % 256) as u8,
        )
        &&& c1 == NesCpu { pc: plain_word(b0, c0.pc), sp: ((sp + 254) % 256) as u8, ..c0 }
    }
}

/// RTI / RTS: P and PC (RTI) or PC + 1 (RTS) pulled.
#[verifier::opaque]
pub open spec fn return_rel(op: u8, c0: NesCpu, b0: &NesBus, c1: NesCpu, b1: &NesBus) -> bool {
    let sp = c0.sp;
    &&& *b1 == *b0
    &&& c1 == if op == 0x40 {
        NesCpu {
            p: pulled_p(stack_byte(b0, sp, 1)),
            pc: (stack_byte(b0, sp, 3) * 256 + stack_byte(b0, sp, 2)) as u16,
            sp: ((sp + 3) % 256) as u8,
            ..c0
        }
    } else {
        NesCpu {
            pc: add16((stack_byte(b0, sp, 2) * 256 + stack_byte(b0, sp, 1)) as u16, 1),
            sp: ((sp + 2) % 256) as u8,
            ..c0
        }
    }
}

/// JMP abs / JMP (ind), with plain operands.
#[verifier::opaque]
pub open spec fn jmp_rel(op: u8, c0: NesCpu, b0: &NesBus, c1: NesCpu, b1: &NesBus) -> bool {
    let m = if op == 0x4C { Mode::Abs } else { Mode::Ind };
    mode_plain(m, c0, b0) ==> *b1 == *b0 && c1 == NesCpu { pc: resolve_spec(m, c0, b0).0, ..c0 }
}

/// Cycles of the stack and jump opcodes.
pub open spec fn stack_jump_cycles(op: u8) -> u32 {
    if op == 0x00 {
        7
    } else if op == 0x08 || op == 0x48 || op == 0x4C {
        3
    } else if op == 0x28 || op == 0x68 {
        4
    } else if op == 0x6C {
        5
    } else {
        6
    }
}

/// Stack and jump opcodes.
pub open spec fn stack_jump_rel(op: u8, c0: NesCpu, b0: &NesBus, c1: NesCpu, b1: &NesBus, cycles: u32) -> bool {
    &&& cycles == stack_jump_cycles(op)
    &&& if op == 0x00 {
        brk_rel(c0, b0, c1, b1)
    } else if op == 0x08 || op == 0x48 {
        push_op_rel(op, c0, b0, c1, b1)
    } else if op == 0x28 || op == 0x68 {
        pull_op_rel(op, c0, b0, c1, b1)
    } else if op == 0x20 {
        jsr_rel(c0, b0, c1, b1)
    } else if op == 0x40 || op == 0x60 {
        return_rel(op, c0, b0, c1, b1)
    } else {
        jmp_rel(op, c0, b0, c1, b1)
    }
}

impl NesCpu {
    /// Implied and accumulator opcodes; the unused opcodes do nothing. 2 cycles.
    #[verifier::spinoff_prover]
    #[verifier::rlimit(80)]
    fn exec_implied(&mut self, op: u8)
        ensures
            *final(self) == implied_spec(op, *old(self)),
    {
        if op == 0x0A || op == 0x2A || op == 0x4A || op == 0x6A {
            let kind = op / 32;
            let v = self.a;
            let cin: u8 = if self.get_flag(FLAG_C) {
                1
            } else {
                0
            };
            let r = if kind == 0 {
                (v % 128) * 2
            } else if kind == 1 {
                (v % 128) * 2 + cin
            } else if kind == 2 {
                v / 2
            } else {
                v / 2 + cin * 128
            };
            self.set_flag(FLAG_C, if kind <= 1 {
                v >= 128
            } else {
                v % 2 == 1
            });
            self.a = r;
            self.set_nz(r);
        } else if op == 0x8A {
            self.a = self.x;
            let v = self.a;
            self.set_nz(v);
        } else if op == 0x98 {
            self.a = self.y;
            let v = self.a;
            self.set_nz(v);
        } else if op == 0x9A {
            self.sp = self.x;
        } else if op == 0xA8 {
            self.y = self.a;
            let v = self.y;
            self.set_nz(v);
        } else if op == 0xAA {
            self.x = self.a;
            let v = self.x;
            self.set_nz(v);
        } else if op == 0xBA {
            self.x = self.sp;
            let v = self.x;
            self.set_nz(v);
        } else if op == 0xE8 {
            self.x = self.x.wrapping_add(1);
            let v = self.x;
            self.set_nz(v);
        } else if op == 0xC8 {
            self.y = self.y.wrapping_add(1);
            let v = self.y;
            self.set_nz(v);
        } else if op == 0xCA {
            self.x = self.x.wrapping_sub(1);
            let v = self.x;
            self.set_nz(v);
        } else if op == 0x88 {
            self.y = self.y.wrapping_sub(1);
            let v = self.y;
            self.set_nz(v);
        } else if op == 0x18 || op == 0x38 {
            self.set_flag(FLAG_C, op == 0x38);
        } else if op == 0x58 || op == 0x78 {
            self.set_flag(FLAG_I, op == 0x78);
        } else if op == 0xB8 {
            self.set_flag(FLAG_V, false);
        } else if op == 0xD8 || op == 0xF8 {
            self.set_flag(FLAG_D, op == 0xF8);
        }
    }

    /// A branch: taken moves PC to the target.
    fn branch(&mut self, condition: bool, addr: u16, page_crossed: bool) -> (cycles: u32)
        ensures
            condition ==> *final(self) == (NesCpu { pc: addr, ..*old(self) }) && cycles == 3 + (if page_crossed {
                1u32
            } else {
                0u32
            }),
            !condition ==> *final(self) == *old(self) && cycles == 2,
    {
        if condition {
            self.pc = addr;
            if page_crossed {
                4
            } else {
                3
            }
        } else {
            2
        }
    }

    /// BPL, BMI, BVC, BVS, BCC, BCS, BNE, BEQ.
    fn exec_branch(&mut self, op: u8, bus: &mut NesBus) -> (cycles: u32)
        requires
            old(bus).wf(),
            is_branch(op),
        ensures
            bus_kept(old(bus), final(bus)),
            branch_rel(op, *old(self), old(bus), *final(self), final(bus), cycles),
            2 <= cycles <= 4,
    {
        reveal(branch_rel);
        let (addr, crossed) = self.resolve_addr(Mode::Rel, bus);
        let flag: u8 = if op / 64 == 0 {
            FLAG_N
        } else if op / 64 == 1 {
            FLAG_V
        } else if op / 64 == 2 {
            FLAG_C
        } else {
            FLAG_Z
        };
        let taken = self.get_flag(flag) == ((op / 32) % 2 == 1);
        self.branch(taken, addr, crossed)
    }
}

impl NesCpu {
    /// BRK, PHP, PLP, PHA, PLA, JSR, RTI, RTS, JMP abs, JMP (ind).
    fn exec_stack_jump(&mut self, op: u8, bus: &mut NesBus) -> (cycles: u32)
        requires
            old(bus).wf(),
            is_stack_jump(op),
        ensures
            bus_kept(old(bus), final(bus)),
            stack_jump_rel(op, *old(self), old(bus), *final(self), final(bus), cycles),
    {
        if op == 0x00 {
            self.exec_brk(bus)
        } else if op == 0x08 || op == 0x48 {
            proof {
                reveal(push_op_rel);
            }
            let v = if op == 0x08 {
                with_bit_set(with_bit_set(self.p, FLAG_B), FLAG_U)
            } else {
                self.a
            };
            self.push_ram(bus, v);
            3
        } else if op == 0x28 || op == 0x68 {
            proof {
                reveal(pull_op_rel);
            }
            let v = self.pull(bus);
            if op == 0x28 {
                self.p = with_bit_cleared(with_bit_set(v, FLAG_U), FLAG_B);
            } else {
                self.a = v;
                self.set_nz(v);
            }
            4
        } else if op == 0x20 {
            self.exec_jsr(bus)
        } else if op == 0x40 || op == 0x60 {
            proof {
                reveal(return_rel);
            }
            if op == 0x40 {
                let v = self.pull(bus);
                self.p = with_bit_cleared(with_bit_set(v, FLAG_U), FLAG_B);
                self.pc = self.pull_word(bus);
            } else {
                self.pc = self.pull_word(bus).wrapping_add(1);
            }
            6
        } else {
            proof {
                reveal(jmp_rel);
            }
            let m = if op == 0x4C {
                Mode::Abs
            } else {
                Mode::Ind
            };
            let (a, _) = self.resolve_addr(m, bus);
            self.pc = a;
            if op == 0x4C {
                3
            } else {
                5
            }
        }
    }

    /// BRK: push PC + 1 and P (with B), set I, jump through $FFFE.
    fn exec_brk(&mut self, bus: &mut NesBus) -> (cycles: u32)
        requires
            old(bus).wf(),
        ensures
            bus_kept(old(bus), final(bus)),
            brk_rel(*old(self), old(bus), *final(self), final(bus)),
            cycles == 7,
    {
        reveal(brk_rel);
        self.pc = self.pc.wrapping_add(1);
        let pc = self.pc;
        self.push_word(bus, pc);
        let p = with_bit_set(with_bit_set(self.p, FLAG_B), FLAG_U);
        self.push_ram(bus, p);
        self.set_flag(FLAG_I, true);
        let ghost b1 = *bus;
        let lo = bus.read(0xFFFE);
        let ghost b2 = *bus;
        let hi = bus.read(0xFFFF);
        proof {
            lemma_plain_read(&b1, &b2, 0xFFFE, lo);
            lemma_plain_read(&b2, bus, 0xFFFF, hi);
        }
        self.pc = (hi as u16) * 256 + lo as u16;
        7
    }

    /// JSR: push the address of the operand's last byte, jump to the operand.
    fn exec_jsr(&mut self, bus: &mut NesBus) -> (cycles: u32)
        requires
            old(bus).wf(),
        ensures
            bus_kept(old(bus), final(bus)),
            jsr_rel(*old(self), old(bus), *final(self), final(bus)),
            cycles == 6,
    {
        reveal(jsr_rel);
        let addr = self.fetch_word(bus);
        let ret = self.pc.wrapping_sub(1);
        self.push_word(bus, ret);
        self.pc = addr;
        6
    }

    /// Executes opcode `op`, already fetched; returns the cycles taken.
    fn execute(&mut self, op: u8, bus: &mut NesBus) -> (cycles: u32)
        requires
            old(bus).wf(),
        ensures
            bus_kept(old(bus), final(bus)),
            is_group01(op) ==> group01_rel(op, *old(self), old(bus), *final(self), final(bus), cycles),
            is_xy_op(op) ==> xy_rel(op, *old(self), old(bus), *final(self), final(bus), cycles),
            is_rmw(op) ==> rmw_rel(op, *old(self), old(bus), *final(self), final(bus)) && cycles == rmw_cycles(op),
            is_branch(op) ==> branch_rel(op, *old(self), old(bus), *final(self), final(bus), cycles),
            is_stack_jump(op) ==> stack_jump_rel(op, *old(self), old(bus), *final(self), final(bus), cycles),
            !(is_group01(op) || is_xy_op(op) || is_rmw(op) || is_branch(op) || is_stack_jump(op)) ==> {
                &&& *final(self) == implied_spec(op, *old(self))
                &&& *final(bus) == *old(bus)
                &&& cycles == 2
            },
            2 <= cycles <= 7,
    {
        if op % 4 == 1 && op != 0x89 {
            self.exec_group01(op, bus)
        } else if is_xy(op) {
            self.exec_xy(op, bus)
        } else if is_rmw_op(op) {
            self.exec_rmw(op, bus)
        } else if op == 0x10 || op == 0x30 || op == 0x50 || op == 0x70 || op == 0x90 || op == 0xB0 || op
            == 0xD0 || op == 0xF0 {
            self.exec_branch(op, bus)
        } else if op == 0x00 || op == 0x08 || op == 0x28 || op == 0x48 || op == 0x68 || op == 0x20 || op
            == 0x40 || op == 0x60 || op == 0x4C || op == 0x6C {
            self.exec_stack_jump(op, bus)
        } else {
            self.exec_implied(op);
            2
        }
    }

    /// Executes one instruction and returns the cycles it took.
    pub fn step(&mut self, bus: &mut NesBus) -> (cycles: u32)
        requires
            old(bus).wf(),
        ensures
            bus_kept(old(bus), final(bus)),
            2 <= cycles <= 7,
            plain_addr(old(self).pc) ==> {
                let op = plain_read(old(bus), old(self).pc);
                let c1 = NesCpu { pc: add16(old(self).pc, 1), ..*old(self) };
                &&& is_group01(op) ==> group01_rel(op, c1, old(bus), *final(self), final(bus), cycles)
                &&& is_xy_op(op) ==> xy_rel(op, c1, old(bus), *final(self), final(bus), cycles)
                &&& is_rmw(op) ==> rmw_rel(op, c1, old(bus), *final(self), final(bus)) && cycles == rmw_cycles(op)
                &&& is_branch(op) ==> branch_rel(op, c1, old(bus), *final(self), final(bus), cycles)
                &&& is_stack_jump(op) ==> stack_jump_rel(op, c1, old(bus), *final(self), final(bus), cycles)
                &&& !(is_group01(op) || is_xy_op(op) || is_rmw(op) || is_branch(op) || is_stack_jump(op)) ==> {
                    &&& *final(self) == implied_spec(op, c1)
                    &&& *final(bus) == *old(bus)
                    &&& cycles == 2
                }
            },
    {
        let opcode = self.fetch(bus);
        self.execute(opcode, bus)
    }

    /// Reset: PC from the vector at $FFFC, registers cleared, SP = $FD, I set.
    pub fn reset(&mut self, bus: &mut NesBus)
        requires
            old(bus).wf(),
        ensures
            bus_kept(old(bus), final(bus)),
            *final(bus) == *old(bus),
            *final(self) == (NesCpu { pc: plain_word(old(bus), 0xFFFC), a: 0, x: 0, y: 0, sp: 0xFD, p: 0x24, cycles: 8 }),
    {
        let ghost b0 = *bus;
        let lo = bus.read(0xFFFC);
        let ghost b1 = *bus;
        let hi = bus.read(0xFFFD);
        proof {
            lemma_plain_read(&b0, &b1, 0xFFFC, lo);
            lemma_plain_read(&b1, bus, 0xFFFD, hi);
        }
        self.pc = (hi as u16) * 256 + lo as u16;
        self.a = 0;
        self.x = 0;
        self.y = 0;
        self.sp = 0xFD;
        self.p = 0x24;
        self.cycles = 8;
    }

    /// Enters an interrupt handler: pushes PC and P (B clear, U set), sets I, jumps through
    /// `vector`.
    #[verifier::spinoff_prover]
    #[verifier::rlimit(60)]
    fn interrupt(&mut self, bus: &mut NesBus, vector: u16, extra: u32)
        requires
            old(bus).wf(),
            vector >= 0x4020,
            vector < 0xFFFF,
        ensures
            bus_kept(old(bus), final(bus)),
            ram_only(old(bus), final(bus)),
            final(bus).ram@ == old(bus).ram@.update(stack_addr(old(self).sp) as int, (old(self).pc / 256) as u8).update(
                stack_addr(((old(self).sp + 255) % 256) as u8) as int,
                (old(self).pc % 256) as u8,
            ).update(
                stack_addr(((old(self).sp + 254) % 256) as u8) as int,
                clear_bit(set_bit(old(self).p, FLAG_U), FLAG_B),
            ),
            *final(self) == (NesCpu {
                pc: plain_word(old(bus), vector),
                sp: ((old(self).sp + 253) % 256) as u8,
                p: set_bit(old(self).p, FLAG_I),
                cycles: ((old(self).cycles + extra) % 0x1_0000_0000) as u32,
                ..*old(self)
            }),
    {
        let pc = self.pc;
        self.push_word(bus, pc);
        let p = with_bit_cleared(with_bit_set(self.p, FLAG_U), FLAG_B);
        self.push_ram(bus, p);
        self.set_flag(FLAG_I, true);
        let ghost b1 = *bus;
        let lo = bus.read(vector);
        let ghost b2 = *bus;
        let hi = bus.read(vector + 1);
        proof {
            lemma_plain_read(&b1, &b2, vector, lo);
            lemma_plain_read(&b2, bus, (vector + 1) as u16, hi);
        }
        self.pc = (hi as u16) * 256 + lo as u16;
        self.cycles = self.cycles.wrapping_add(extra);
    }

    /// Non-maskable interrupt: vector $FFFA.
    pub fn nmi(&mut self, bus: &mut NesBus)
        requires
            old(bus).wf(),
        ensures
            bus_kept(old(bus), final(bus)),
            ram_only(old(bus), final(bus)),
            *final(self) == (NesCpu {
                pc: plain_word(old(bus), 0xFFFA),
                sp: ((old(self).sp + 253) % 256) as u8,
                p: set_bit(old(self).p, FLAG_I),
                cycles: ((old(self).cycles + 8) % 0x1_0000_0000) as u32,
                ..*old(self)
            }),
            final(bus).ram@ == old(bus).ram@.update(stack_addr(old(self).sp) as int, (old(self).pc / 256) as u8).update(
                stack_addr(((old(self).sp + 255) % 256) as u8) as int,
                (old(self).pc % 256) as u8,
            ).update(
                stack_addr(((old(self).sp + 254) % 256) as u8) as int,
                clear_bit(set_bit(old(self).p, FLAG_U), FLAG_B),
            ),
    {
        self.interrupt(bus, 0xFFFA, 8);
    }

    /// Maskable interrupt: ignored while I is set; otherwise vector $FFFE.
    pub fn irq(&mut self, bus: &mut NesBus)
        requires
            old(bus).wf(),
        ensures
            bus_kept(old(bus), final(bus)),
            bit_set(old(self).p, FLAG_I) ==> *final(self) == *old(self) && *final(bus) == *old(bus),
            !bit_set(old(self).p, FLAG_I) ==> {
                &&& ram_only(old(bus), final(bus))
                &&& *final(self) == (NesCpu {
                    pc: plain_word(old(bus), 0xFFFE),
                    sp: ((old(self).sp + 253) % 256) as u8,
                    p: set_bit(old(self).p, FLAG_I),
                    cycles: ((old(self).cycles + 7) % 0x1_0000_0000) as u32,
                    ..*old(self)
                })
                &&& final(bus).ram@ == old(bus).ram@.update(stack_addr(old(self).sp) as int, (old(self).pc / 256) as u8).update(
                    stack_addr(((old(self).sp + 255) % 256) as u8) as int,
                    (old(self).pc % 256) as u8,
                ).update(
                    stack_addr(((old(self).sp + 254) % 256) as u8) as int,
                    clear_bit(set_bit(old(self).p, FLAG_U), FLAG_B),
                )
            },
    {
        if self.get_flag(FLAG_I) {
            return;
        }
        self.interrupt(bus, 0xFFFE, 7);
    }
}

/// Whether `op` is LDX, LDY, CPX, CPY, BIT, STX or STY.
fn is_xy(op: u8) -> (b: bool)
    ensures
        b == is_xy_op(op),
{
    op == 0xA2 || op == 0xA6 || op == 0xAE || op == 0xB6 || op == 0xBE || op == 0xA0 || op == 0xA4 || op
        == 0xAC || op == 0xB4 || op == 0xBC || op == 0xE0 || op == 0xE4 || op == 0xEC || op == 0xC0 || op
        == 0xC4 || op == 0xCC || op == 0x24 || op == 0x2C || op == 0x86 || op == 0x8E || op == 0x96 || op
        == 0x84 || op == 0x8C || op == 0x94
}

/// Whether `op` is a read-modify-write on memory.
fn is_rmw_op(op: u8) -> (b: bool)
    ensures
        b == is_rmw(op),
{
    op == 0x06 || op == 0x0E || op == 0x16 || op == 0x1E || op == 0x26 || op == 0x2E || op == 0x36 || op
        == 0x3E || op == 0x46 || op == 0x4E || op == 0x56 || op == 0x5E || op == 0x66 || op == 0x6E || op
        == 0x76 || op == 0x7E || op == 0xC6 || op == 0xCE || op == 0xD6 || op == 0xDE || op == 0xE6 || op
        == 0xEE || op == 0xF6 || op == 0xFE
}

/// The serialized CPU: A, X, Y, P, SP, PC, cycle count (11 bytes).
pub open spec fn nes_cpu_bytes(c: NesCpu) -> Seq<u8> {
    seq![c.a, c.x, c.y, c.p, c.sp] + le16(c.pc) + le32(c.cycles)
}

/// The CPU stored at `o`.
pub open spec fn nes_cpu_from_bytes(d: Seq<u8>, o: int) -> NesCpu {
    NesCpu { a: d[o], x: d[o + 1], y: d[o + 2], p: d[o + 3], sp: d[o + 4], pc: dec16(d, o + 5), cycles: dec32(d, o + 7) }
}

impl NesCpu {
    /// Appends the CPU state.
    pub fn save(&self, buf: &mut Vec<u8>)
        ensures
            final(buf)@ == old(buf)@ + nes_cpu_bytes(*self),
    {
        write_u8(buf, self.a);
        write_u8(buf, self.x);
        write_u8(buf, self.y);
        write_u8(buf, self.p);
        write_u8(buf, self.sp);
        write_u16(buf, self.pc);
        write_u32(buf, self.cycles);
        assert(buf@ =~= old(buf)@ + nes_cpu_bytes(*self));
    }

    /// Restores the state written by `save`.
    pub fn load(&mut self, data: &[u8], off: &mut usize)
        requires
            *old(off) + 11 <= data@.len(),
        ensures
            *final(self) == nes_cpu_from_bytes(data@, *old(off) as int),
            *final(off) == *old(off) + 11,
    {
        self.a = read_u8(data, off);
        self.x = read_u8(data, off);
        self.y = read_u8(data, off);
        self.p = read_u8(data, off);
        self.sp = read_u8(data, off);
        self.pc = read_u16(data, off);
        self.cycles = read_u32(data, off);
    }
}

/// A CPU read back from the bytes that `nes_cpu_bytes` wrote is the CPU itself.
pub proof fn lemma_nes_cpu_roundtrip(c: NesCpu, d: Seq<u8>, o: int)
    requires
        0 <= o,
        o + 11 <= d.len(),
        d.subrange(o, o + 11) == nes_cpu_bytes(c),
    ensures
        nes_cpu_from_bytes(d, o) == c,
{
    let t = nes_cpu_bytes(c);
    let pc = crate::save_state::le16(c.pc);
    let cy = crate::save_state::le32(c.cycles);
    assert(cy.len() == 4);
    assert(t.subrange(5, 7) =~= pc);
    assert(t.subrange(7, 11) =~= cy);
    let w = d.subrange(o, o + 11);
    assert(w[0] == d[o] && w[1] == d[o + 1] && w[2] == d[o + 2] && w[3] == d[o + 3] && w[4] == d[o + 4]);
    crate::save_state::lemma_subrange_within(d, o, 11, 5, 7);
    crate::save_state::lemma_subrange_within(d, o, 11, 7, 11);
    crate::save_state::lemma_le16_roundtrip(c.pc, d, o + 5);
    crate::save_state::lemma_le32_roundtrip(c.cycles, d, o + 7);
}


/// A flag of P after `with_flag`: the named flag holds the new value, the others are kept.
proof fn lemma_with_flag(p: u8, bit: u8, val: bool, j: u8)
    requires
        bit < 8,
        j < 8,
    ensures
        bit_set(with_flag(p, bit, val), j) == if j == bit { val } else { bit_set(p, j) },
{
    if j == bit {
        if val {
            crate::bits::lemma_set_then_test(p, bit);
        } else {
            crate::bits::lemma_clear_then_test(p, bit);
        }
    } else {
        crate::bits::lemma_other_bits_kept(p, bit, j);
    }
}

/// The flags of P after `nz_spec`: Z and N from the value, the others kept.
proof fn lemma_nz_flags(p: u8, v: u8, j: u8)
    requires
        j < 8,
    ensures
        bit_set(nz_spec(p, v), j) == if j == FLAG_Z {
            v == 0
        } else if j == FLAG_N {
            v >= 128
        } else {
            bit_set(p, j)
        },
{
    let p1 = with_flag(p, FLAG_Z, v == 0);
    lemma_with_flag(p, FLAG_Z, v == 0, j);
    lemma_with_flag(p1, FLAG_N, v >= 128, j);
}

/// N and Z after a result `res` that `nz_spec` records, with every other flag kept.
proof fn lemma_nz_law(p: u8, res: u8)
    ensures
        bit_set(nz_spec(p, res), FLAG_Z) == (res == 0),
        bit_set(nz_spec(p, res), FLAG_N) == (res >= 128),
        forall|j: u8| j < 8 && j != FLAG_Z && j != FLAG_N ==> #[trigger] bit_set(nz_spec(p, res), j) == bit_set(p, j),
{
    lemma_nz_flags(p, res, FLAG_Z);
    lemma_nz_flags(p, res, FLAG_N);
    assert forall|j: u8| j < 8 && j != FLAG_Z && j != FLAG_N implies #[trigger] bit_set(nz_spec(p, res), j) == bit_set(
        p,
        j,
    ) by {
        lemma_nz_flags(p, res, j);
    }
}

/// The logical operations and the load of the 6502's 01 group, for every CPU state and
/// operand `v`: ORA, AND and EOR combine A with `v` bit by bit (or, and, exclusive or) and
/// LDA loads `v`; N and Z follow the new A, and every other flag and register is kept.
pub proof fn lemma_alu_logic(c: NesCpu, v: u8)
    ensures
        alu_spec(c, 0, v).a == c.a | v,
        alu_spec(c, 1, v).a == c.a & v,
        alu_spec(c, 2, v).a == c.a ^ v,
        alu_spec(c, 5, v).a == v,
        forall|kind: u8|
            (kind == 0 || kind == 1 || kind == 2 || kind == 5) ==> {
                let r = #[trigger] alu_spec(c, kind, v);
                &&& r.x == c.x && r.y == c.y && r.sp == c.sp && r.pc == c.pc && r.cycles == c.cycles
                &&& bit_set(r.p, FLAG_Z) == (r.a == 0)
                &&& bit_set(r.p, FLAG_N) == (r.a >= 128)
                &&& forall|j: u8| j < 8 && j != FLAG_Z && j != FLAG_N ==> #[trigger] bit_set(r.p, j) == bit_set(c.p, j)
            },
{
    lemma_nz_law(c.p, c.a | v);
    lemma_nz_law(c.p, c.a & v);
    lemma_nz_law(c.p, c.a ^ v);
    lemma_nz_law(c.p, v);
}

/// ADC, for every CPU state and operand `v`: A becomes A + v + C modulo 256; C is set when
/// that sum passes 255, V when A and `v` have one sign and the result the other; N and Z
/// follow the new A; the other flags and registers are kept.
pub proof fn lemma_alu_adc(c: NesCpu, v: u8)
    ensures
        ({
            let cin: int = if bit_set(c.p, FLAG_C) { 1 } else { 0 };
            let r = alu_spec(c, 3, v);
            &&& r.a == (c.a + v + cin) % 256
            &&& bit_set(r.p, FLAG_C) == (c.a + v + cin > 255)
            &&& bit_set(r.p, FLAG_V) == ((c.a < 128) == (v < 128) && (r.a < 128) != (c.a < 128))
            &&& bit_set(r.p, FLAG_Z) == (r.a == 0)
            &&& bit_set(r.p, FLAG_N) == (r.a >= 128)
            &&& r.x == c.x && r.y == c.y && r.sp == c.sp && r.pc == c.pc && r.cycles == c.cycles
            &&& forall|j: u8|
                j < 8 && j != FLAG_Z && j != FLAG_N && j != FLAG_C && j != FLAG_V ==> #[trigger] bit_set(r.p, j)
                    == bit_set(c.p, j)
        }),
{
    lemma_adc_flags(c, v);
}

/// SBC, for every CPU state and operand `v`: A becomes A - v - (1 - C) modulo 256; C is set
/// when no borrow is needed (A >= v + 1 - C), V when A and `v` differ in sign and the
/// result's sign differs from A's; N and Z follow the new A; the other flags and registers
/// are kept.
pub proof fn lemma_alu_sbc(c: NesCpu, v: u8)
    ensures
        ({
            let cin: int = if bit_set(c.p, FLAG_C) { 1 } else { 0 };
            let r = alu_spec(c, 7, v);
            &&& r.a == (c.a - v - (1 - cin) + 256) % 256
            &&& bit_set(r.p, FLAG_C) == (c.a >= v + (1 - cin))
            &&& bit_set(r.p, FLAG_V) == ((c.a < 128) != (v < 128) && (r.a < 128) != (c.a < 128))
            &&& bit_set(r.p, FLAG_Z) == (r.a == 0)
            &&& bit_set(r.p, FLAG_N) == (r.a >= 128)
            &&& r.x == c.x && r.y == c.y && r.sp == c.sp && r.pc == c.pc && r.cycles == c.cycles
            &&& forall|j: u8|
                j < 8 && j != FLAG_Z && j != FLAG_N && j != FLAG_C && j != FLAG_V ==> #[trigger] bit_set(r.p, j)
                    == bit_set(c.p, j)
        }),
{
    let w = (255 - v) as u8;
    lemma_adc_flags(c, w);
    assert(alu_spec(c, 7, v) == adc_spec(c, w));
}

/// The flags `adc_spec` sets.
proof fn lemma_adc_flags(c: NesCpu, w: u8)
    ensures
        ({
            let cin: int = if bit_set(c.p, FLAG_C) { 1 } else { 0 };
            let r = adc_spec(c, w);
            &&& r.a == (c.a + w + cin) % 256
            &&& bit_set(r.p, FLAG_C) == (c.a + w + cin > 255)
            &&& bit_set(r.p, FLAG_V) == (c.a / 128 == w / 128 && c.a / 128 != r.a / 128)
            &&& bit_set(r.p, FLAG_Z) == (r.a == 0)
            &&& bit_set(r.p, FLAG_N) == (r.a >= 128)
            &&& r.x == c.x && r.y == c.y && r.sp == c.sp && r.pc == c.pc && r.cycles == c.cycles
            &&& forall|j: u8|
                j < 8 && j != FLAG_Z && j != FLAG_N && j != FLAG_C && j != FLAG_V ==> #[trigger] bit_set(r.p, j)
                    == bit_set(c.p, j)
        }),
{
    let cin: int = if bit_set(c.p, FLAG_C) { 1 } else { 0 };
    let sum = c.a + w + cin;
    let res = (sum % 256) as u8;
    let overflow = c.a / 128 == w / 128 && c.a / 128 != res / 128;
    let p1 = with_flag(c.p, FLAG_C, sum > 255);
    let p2 = with_flag(p1, FLAG_V, overflow);
    lemma_nz_law(p2, res);
    lemma_with_flag(c.p, FLAG_C, sum > 255, FLAG_C);
    lemma_with_flag(p1, FLAG_V, overflow, FLAG_C);
    lemma_with_flag(p1, FLAG_V, overflow, FLAG_V);
    assert forall|j: u8|
        j < 8 && j != FLAG_Z && j != FLAG_N && j != FLAG_C && j != FLAG_V implies #[trigger] bit_set(
        nz_spec(p2, res),
        j,
    ) == bit_set(c.p, j) by {
        lemma_with_flag(c.p, FLAG_C, sum > 255, j);
        lemma_with_flag(p1, FLAG_V, overflow, j);
    }
}

/// CMP, for every CPU state and operand `v`: A and every register are kept; C is set when
/// A >= v, Z when they are equal, N from bit 7 of A - v; the other flags are kept.
pub proof fn lemma_alu_cmp(c: NesCpu, v: u8)
    ensures
        ({
            let r = alu_spec(c, 6, v);
            &&& r.a == c.a && r.x == c.x && r.y == c.y && r.sp == c.sp && r.pc == c.pc && r.cycles == c.cycles
            &&& bit_set(r.p, FLAG_C) == (c.a >= v)
            &&& bit_set(r.p, FLAG_Z) == (c.a == v)
            &&& bit_set(r.p, FLAG_N) == ((c.a - v + 256) % 256 >= 128)
            &&& forall|j: u8|
                j < 8 && j != FLAG_Z && j != FLAG_N && j != FLAG_C ==> #[trigger] bit_set(r.p, j) == bit_set(c.p, j)
        }),
{
    let p1 = with_flag(c.p, FLAG_C, c.a >= v);
    let p2 = with_flag(p1, FLAG_Z, c.a == v);
    let n = (c.a + 256 - v) % 256 >= 128;
    lemma_with_flag(c.p, FLAG_C, c.a >= v, FLAG_C);
    lemma_with_flag(p1, FLAG_Z, c.a == v, FLAG_C);
    lemma_with_flag(p2, FLAG_N, n, FLAG_C);
    lemma_with_flag(p1, FLAG_Z, c.a == v, FLAG_Z);
    lemma_with_flag(p2, FLAG_N, n, FLAG_Z);
    lemma_with_flag(p2, FLAG_N, n, FLAG_N);
    assert forall|j: u8| j < 8 && j != FLAG_Z && j != FLAG_N && j != FLAG_C implies #[trigger] bit_set(
        with_flag(p2, FLAG_N, n),
        j,
    ) == bit_set(c.p, j) by {
        lemma_with_flag(c.p, FLAG_C, c.a >= v, j);
        lemma_with_flag(p1, FLAG_Z, c.a == v, j);
        lemma_with_flag(p2, FLAG_N, n, j);
    }
}

/// The read-modify-write operations, for every operand `v` and flags `p` (`op / 32` picks
/// the operation): ASL shifts left (C from bit 7), ROL shifts left taking C into bit 0, LSR
/// shifts right (C from bit 0), ROR shifts right taking C into bit 7, DEC and INC step by
/// one modulo 256 and keep C. N and Z follow the result; every other flag is kept.
#[verifier::spinoff_prover]
#[verifier::rlimit(40)]
pub proof fn lemma_rmw_semantics(op: u8, p: u8, v: u8)
    requires
        op / 32 != 4 && op / 32 != 5,
    ensures
        ({
            let r = rmw_spec(op, p, v).0;
            let p1 = rmw_spec(op, p, v).1;
            let kind = op / 32;
            let cin: int = if bit_set(p, FLAG_C) { 1 } else { 0 };
            &&& kind == 0 ==> r == (2 * v) % 256 && bit_set(p1, FLAG_C) == (v >= 128)
            &&& kind == 1 ==> r == (2 * v) % 256 + cin && bit_set(p1, FLAG_C) == (v >= 128)
            &&& kind == 2 ==> r == v / 2 && bit_set(p1, FLAG_C) == (v % 2 == 1)
            &&& kind == 3 ==> r == v / 2 + 128 * cin && bit_set(p1, FLAG_C) == (v % 2 == 1)
            &&& kind == 6 ==> r == (v + 255) % 256 && bit_set(p1, FLAG_C) == bit_set(p, FLAG_C)
            &&& kind == 7 ==> r == (v + 1) % 256 && bit_set(p1, FLAG_C) == bit_set(p, FLAG_C)
            &&& bit_set(p1, FLAG_Z) == (r == 0)
            &&& bit_set(p1, FLAG_N) == (r >= 128)
            &&& forall|j: u8|
                j < 8 && j != FLAG_C && j != FLAG_Z && j != FLAG_N ==> #[trigger] bit_set(p1, j) == bit_set(p, j)
        }),
{
    let kind = op / 32;
    let r = rmw_spec(op, p, v).0;
    assert(v % 128 == (if v >= 128 { v - 128 } else { v as int }));
    assert((2 * v) % 256 == (if v >= 128 { 2 * v - 256 } else { 2 * v }));
    if kind == 6 || kind == 7 {
        lemma_nz_law(p, r);
        lemma_nz_flags(p, r, FLAG_C);
    } else {
        let c = shift_spec(kind, v, bit_set(p, FLAG_C)).1;
        let pc = with_flag(p, FLAG_C, c);
        lemma_nz_law(pc, r);
        lemma_nz_flags(pc, r, FLAG_C);
        lemma_with_flag(p, FLAG_C, c, FLAG_C);
        assert forall|j: u8| j < 8 && j != FLAG_C && j != FLAG_Z && j != FLAG_N implies #[trigger] bit_set(
            nz_spec(pc, r),
            j,
        ) == bit_set(p, j) by {
            lemma_with_flag(p, FLAG_C, c, j);
        }
    }
}

/// The conditional branches, for every P: BPL and BMI test N, BVC and BVS test V, BCC and
/// BCS test C, BNE and BEQ test Z, each taken when the flag is clear or set respectively.
pub proof fn lemma_branch_conditions(p: u8)
    ensures
        branch_taken(0x10, p) == !bit_set(p, FLAG_N),
        branch_taken(0x30, p) == bit_set(p, FLAG_N),
        branch_taken(0x50, p) == !bit_set(p, FLAG_V),
        branch_taken(0x70, p) == bit_set(p, FLAG_V),
        branch_taken(0x90, p) == !bit_set(p, FLAG_C),
        branch_taken(0xB0, p) == bit_set(p, FLAG_C),
        branch_taken(0xD0, p) == !bit_set(p, FLAG_Z),
        branch_taken(0xF0, p) == bit_set(p, FLAG_Z),
{
}

/// The 6502 addressing arithmetic, for every CPU state, operand byte `n`, operand word
/// `base` and pointer `ptr`: zero-page indexing wraps within page 0; a branch offset is a
/// signed byte added to the address after the operand; absolute and indirect-indexed
/// indexing add the index modulo 0x10000 and cross a page exactly when the low byte
/// overflows; the indexed-indirect pointer wraps within page 0; an indirect JMP reads its
/// high byte from the next address within the pointer's page.
#[verifier::spinoff_prover]
#[verifier::rlimit(40)]
pub proof fn lemma_addressing(c: NesCpu, n: u8, base: u16, ptr: u16)
    ensures
        zp_result(Mode::Zp0, c, n) == (n as u16, false),
        zp_result(Mode::ZpX, c, n).0 == (n + c.x) % 256 && !zp_result(Mode::ZpX, c, n).1,
        zp_result(Mode::ZpY, c, n).0 == (n + c.y) % 256 && !zp_result(Mode::ZpY, c, n).1,
        ({
            let pc1 = (c.pc + 1) % 0x1_0000;
            let target = (pc1 + n - (if n >= 128 { 256int } else { 0 }) + 0x1_0000) % 0x1_0000;
            zp_result(Mode::Rel, c, n) == (target as u16, pc1 / 256 != target / 256)
        }),
        abs_result(Mode::Abs, c, base) == (base, false),
        abs_result(Mode::AbX, c, base) == (((base + c.x) % 0x1_0000) as u16, base % 256 + c.x >= 256),
        abs_result(Mode::AbY, c, base) == (((base + c.y) % 0x1_0000) as u16, base % 256 + c.y >= 256),
        idx_ptr(Mode::IdX, c, n) == (n + c.x) % 256,
        idx_ptr(Mode::IdY, c, n) == n,
        idx_result(Mode::IdX, c, base) == (base, false),
        idx_result(Mode::IdY, c, base) == (((base + c.y) % 0x1_0000) as u16, base % 256 + c.y >= 256),
        ind_hi_ptr(ptr) == (ptr / 256) * 256 + (ptr % 256 + 1) % 256,
{
    lemma_page_cross(base, c.x);
    lemma_page_cross(base, c.y);
    let pc1 = add16(c.pc, 1);
    assert(pc1 == (c.pc + 1) % 0x1_0000);
    let delta: int = if n >= 128 { n + 0xFF00 } else { n as int };
    assert((pc1 + delta) % 0x1_0000 == (pc1 + n - (if n >= 128 { 256int } else { 0 }) + 0x1_0000) % 0x1_0000) by {
        if n >= 128 {
            assert(pc1 + delta == (pc1 + n - 256 + 0x1_0000));
        } else {
            assert((pc1 + n + 0x1_0000) % 0x1_0000 == (pc1 + n) % 0x1_0000) by (nonlinear_arith)
                requires
                    pc1 + n >= 0,
            ;
        }
    }
    assert(ptr % 256 == 0xFF ==> (ptr - 0xFF) as u16 == (ptr / 256) * 256 + (ptr % 256 + 1) % 256);
    assert(ptr % 256 != 0xFF ==> (ptr + 1) as u16 == (ptr / 256) * 256 + (ptr % 256 + 1) % 256);
}

/// Indexing crosses a page exactly when the low byte overflows.
proof fn lemma_page_cross(base: u16, i: u8)
    ensures
        (((base + i) % 0x1_0000) as u16) / 256 != base / 256 <==> base % 256 + i >= 256,
{
    let a = ((base + i) % 0x1_0000) as u16;
    assert(a == (base as u32 + i as u32) % 0x1_0000);
    assert(((base as u32 + i as u32) % 0x1_0000) / 256 != (base / 256) as u32 <==> (base % 256) as u32 + i as u32 >= 256)
        by (bit_vector);
}

/// The status byte on the stack, for every P and pulled byte `v`: PHP and BRK push P with
/// B and U set and every other flag as it is; PLP and RTI take the pulled byte with B clear
/// and U set and every other flag as pulled.
pub proof fn lemma_stacked_status(p: u8, v: u8)
    ensures
        bit_set(pushed_p(p), FLAG_B) && bit_set(pushed_p(p), FLAG_U),
        !bit_set(pulled_p(v), FLAG_B) && bit_set(pulled_p(v), FLAG_U),
        forall|j: u8|
            j < 8 && j != FLAG_B && j != FLAG_U ==> #[trigger] bit_set(pushed_p(p), j) == bit_set(p, j) && bit_set(
                pulled_p(v),
                j,
            ) == bit_set(v, j),
{
    lemma_with_flag(p, FLAG_B, true, FLAG_U);
    lemma_with_flag(set_bit(p, FLAG_B), FLAG_U, true, FLAG_U);
    lemma_with_flag(p, FLAG_B, true, FLAG_B);
    lemma_with_flag(set_bit(p, FLAG_B), FLAG_U, true, FLAG_B);
    lemma_with_flag(v, FLAG_U, true, FLAG_U);
    lemma_with_flag(set_bit(v, FLAG_U), FLAG_B, false, FLAG_U);
    lemma_with_flag(set_bit(v, FLAG_U), FLAG_B, false, FLAG_B);
    assert forall|j: u8| j < 8 && j != FLAG_B && j != FLAG_U implies #[trigger] bit_set(pushed_p(p), j) == bit_set(p, j)
        && bit_set(pulled_p(v), j) == bit_set(v, j) by {
        lemma_with_flag(p, FLAG_B, true, j);
        lemma_with_flag(set_bit(p, FLAG_B), FLAG_U, true, j);
        lemma_with_flag(v, FLAG_U, true, j);
        lemma_with_flag(set_bit(v, FLAG_U), FLAG_B, false, j);
    }
}

} // verus!
