//! Sharp LR35902 CPU.
//!
//! Registers: A, F (flags), B, C, D, E, H, L, SP, PC.
//! Flags in F: bit 7 Z (zero), bit 6 N (subtract), bit 5 H (half carry),
//! bit 4 C (carry); bits 3-0 read as 0 through AF.

use vstd::prelude::*;
use crate::save_state::{
    bool_byte, dec16, le16, lemma_le16_roundtrip, read_bool, read_u16, read_u8, write_bool,
    write_u16, write_u8,
};

verus! {

// ---------------------------------------------------------------------------
// Flags
// ---------------------------------------------------------------------------
pub const FLAG_Z: u8 = 128;
pub const FLAG_N: u8 = 64;
pub const FLAG_H: u8 = 32;
pub const FLAG_C: u8 = 16;

/// The F register value with exactly the given flags set.
pub open spec fn flag_byte(z: bool, n: bool, h: bool, c: bool) -> u8 {
    ((if z { 128int } else { 0 }) + (if n { 64int } else { 0 }) + (if h { 32int } else { 0 }) + (
    if c { 16int } else { 0 })) as u8
}

/// Bit 7 of F.
pub open spec fn z_of(f: u8) -> bool {
    f / 128 == 1
}

/// Bit 6 of F.
pub open spec fn n_of(f: u8) -> bool {
    (f / 64) % 2 == 1
}

/// Bit 5 of F.
pub open spec fn h_of(f: u8) -> bool {
    (f / 32) % 2 == 1
}

/// Bit 4 of F.
pub open spec fn c_of(f: u8) -> bool {
    (f / 16) % 2 == 1
}

/// A 16-bit register pair from its high and low halves.
pub open spec fn pair(hi: u8, lo: u8) -> u16 {
    (hi * 256 + lo) as u16
}

/// The set F register always reads back the flags it was set from.
pub proof fn lemma_flag_byte(z: bool, n: bool, h: bool, c: bool)
    ensures
        z_of(flag_byte(z, n, h, c)) == z,
        n_of(flag_byte(z, n, h, c)) == n,
        h_of(flag_byte(z, n, h, c)) == h,
        c_of(flag_byte(z, n, h, c)) == c,
        flag_byte(z, n, h, c) % 16 == 0,
{
}

// ---------------------------------------------------------------------------
// Register file
// ---------------------------------------------------------------------------
#[derive(Clone, Copy)]
pub struct Registers {
    pub a: u8,
    pub f: u8,
    pub b: u8,
    pub c: u8,
    pub d: u8,
    pub e: u8,
    pub h: u8,
    pub l: u8,
    pub sp: u16,
    pub pc: u16,
}

impl Registers {
    /// AF with the low nibble of F masked off.
    pub fn af(&self) -> (v: u16)
        ensures
            v == pair(self.a, (self.f - self.f % 16) as u8),
    {
        (self.a as u16) * 256 + (self.f - self.f % 16) as u16
    }

    pub fn bc(&self) -> (v: u16)
        ensures
            v == pair(self.b, self.c),
    {
        (self.b as u16) * 256 + self.c as u16
    }

    pub fn de(&self) -> (v: u16)
        ensures
            v == pair(self.d, self.e),
    {
        (self.d as u16) * 256 + self.e as u16
    }

    pub fn hl(&self) -> (v: u16)
        ensures
            v == pair(self.h, self.l),
    {
        (self.h as u16) * 256 + self.l as u16
    }

    /// Sets AF; the low nibble of F stays 0.
    pub fn set_af(&mut self, v: u16)
        ensures
            *final(self) == (Registers {
                a: (v / 256) as u8,
                f: ((v % 256) - (v % 16)) as u8,
                ..*old(self)
            }),
    {
        self.a = (v / 256) as u8;
        self.f = ((v % 256) - (v % 16)) as u8;
    }

    pub fn set_bc(&mut self, v: u16)
        ensures
            *final(self) == (Registers { b: (v / 256) as u8, c: (v % 256) as u8, ..*old(self) }),
    {
        self.b = (v / 256) as u8;
        self.c = (v % 256) as u8;
    }

    pub fn set_de(&mut self, v: u16)
        ensures
            *final(self) == (Registers { d: (v / 256) as u8, e: (v % 256) as u8, ..*old(self) }),
    {
        self.d = (v / 256) as u8;
        self.e = (v % 256) as u8;
    }

    pub fn set_hl(&mut self, v: u16)
        ensures
            *final(self) == (Registers { h: (v / 256) as u8, l: (v % 256) as u8, ..*old(self) }),
    {
        self.h = (v / 256) as u8;
        self.l = (v % 256) as u8;
    }

    pub fn flag_z(&self) -> (b: bool)
        ensures
            b == z_of(self.f),
    {
        (self.f / FLAG_Z) % 2 == 1
    }

    pub fn flag_n(&self) -> (b: bool)
        ensures
            b == n_of(self.f),
    {
        (self.f / FLAG_N) % 2 == 1
    }

    pub fn flag_h(&self) -> (b: bool)
        ensures
            b == h_of(self.f),
    {
        (self.f / FLAG_H) % 2 == 1
    }

    pub fn flag_c(&self) -> (b: bool)
        ensures
            b == c_of(self.f),
    {
        (self.f / FLAG_C) % 2 == 1
    }

    /// Replaces F by exactly the given flags.
    pub fn set_flags(&mut self, z: bool, n: bool, h: bool, c: bool)
        ensures
            *final(self) == (Registers { f: flag_byte(z, n, h, c), ..*old(self) }),
    {
        self.f = 0;
        if z {
            self.f = self.f + FLAG_Z;
        }
        if n {
            self.f = self.f + FLAG_N;
        }
        if h {
            self.f = self.f + FLAG_H;
        }
        if c {
            self.f = self.f + FLAG_C;
        }
    }
}

/// Setting a register pair and reading it back gives the value written
/// (AF keeps only the upper nibble of F).
pub proof fn lemma_pair_roundtrip(v: u16)
    ensures
        pair((v / 256) as u8, (v % 256) as u8) == v,
        pair((v / 256) as u8, (((v % 256) - (v % 16)) as u8 - ((v % 256) - (v % 16)) as u8 % 16) as u8)
            == v - v % 16,
{
}

// ---------------------------------------------------------------------------
// ALU specifications
// ---------------------------------------------------------------------------

/// DAA: the BCD adjustment of A after an addition (`n` clear) or subtraction (`n` set).
/// Returns the adjusted A and the new carry flag.
pub open spec fn daa_spec(a: u8, n: bool, h: bool, c: bool) -> (u8, bool) {
    if !n {
        let a1: int = if c || a > 0x99 { (a + 0x60) % 256 } else { a as int };
        let a2: int = if h || a1 % 16 > 9 { (a1 + 0x06) % 256 } else { a1 };
        (a2 as u8, c || a > 0x99)
    } else {
        let a1: int = if c { (a + 256 - 0x60) % 256 } else { a as int };
        let a2: int = if h { (a1 + 256 - 0x06) % 256 } else { a1 };
        (a2 as u8, c)
    }
}

/// A byte as two BCD digits, when it is one.
pub open spec fn is_bcd(v: u8) -> bool {
    v % 16 <= 9 && v / 16 <= 9
}

/// The number a BCD byte stands for.
pub open spec fn bcd_value(v: u8) -> int {
    (v / 16) * 10 + v % 16
}

/// Computes `daa_spec`.
fn daa_adjust(a: u8, n: bool, h: bool, c: bool) -> (res: (u8, bool))
    ensures
        res == daa_spec(a, n, h, c),
{
    let mut a = a;
    let mut new_c = false;
    if !n {
        if c || a > 0x99 {
            a = a.wrapping_add(0x60);
            new_c = true;
        }
        if h || a % 16 > 0x09 {
            a = a.wrapping_add(0x06);
        }
    } else {
        if c {
            a = a.wrapping_sub(0x60);
            new_c = true;
        }
        if h {
            a = a.wrapping_sub(0x06);
        }
    }
    (a, new_c)
}

// ---------------------------------------------------------------------------
// CPU
// ---------------------------------------------------------------------------
pub struct Cpu {
    pub regs: Registers,
    /// Interrupt master enable.
    pub ime: bool,
    /// EI schedules IME for the next instruction.
    pub ime_pending: bool,
    pub halted: bool,
    pub stopped: bool,
}

/// The serialized form of a CPU: A F B C D E H L, SP, PC, IME, HALT, STOP, pending IME.
pub open spec fn cpu_bytes(c: Cpu) -> Seq<u8> {
    seq![c.regs.a, c.regs.f, c.regs.b, c.regs.c, c.regs.d, c.regs.e, c.regs.h, c.regs.l] + le16(
        c.regs.sp,
    ) + le16(c.regs.pc) + seq![
        bool_byte(c.ime),
        bool_byte(c.halted),
        bool_byte(c.stopped),
        bool_byte(c.ime_pending),
    ]
}

/// The CPU described by 16 bytes at `o`: the inverse of `cpu_bytes`
/// (a non-zero flag byte reads as true).
pub open spec fn cpu_from_bytes(s: Seq<u8>, o: int) -> Cpu {
    Cpu {
        regs: Registers {
            a: s[o],
            f: s[o + 1] & 0xF0,
            b: s[o + 2],
            c: s[o + 3],
            d: s[o + 4],
            e: s[o + 5],
            h: s[o + 6],
            l: s[o + 7],
            sp: dec16(s, o + 8),
            pc: dec16(s, o + 10),
        },
        ime: s[o + 12] != 0,
        halted: s[o + 13] != 0,
        stopped: s[o + 14] != 0,
        ime_pending: s[o + 15] != 0,
    }
}

impl Cpu {
    /// The state the DMG boot ROM leaves behind.
    pub fn new() -> (cpu: Self)
        ensures
            cpu.regs == (Registers {
                a: 0x01,
                f: 0xB0,
                b: 0x00,
                c: 0x13,
                d: 0x00,
                e: 0xD8,
                h: 0x01,
                l: 0x4D,
                sp: 0xFFFE,
                pc: 0x0100,
            }),
            !cpu.ime,
            !cpu.ime_pending,
            !cpu.halted,
            !cpu.stopped,
    {
        let regs = Registers {
            a: 0x01,
            f: 0xB0,
            b: 0x00,
            c: 0x13,
            d: 0x00,
            e: 0xD8,
            h: 0x01,
            l: 0x4D,
            sp: 0xFFFE,
            pc: 0x0100,
        };
        Cpu { regs, ime: false, ime_pending: false, halted: false, stopped: false }
    }

    // -----------------------------------------------------------------------
    // ALU helpers
    // -----------------------------------------------------------------------

    /// INC r8: Z, N cleared, H on a carry out of bit 3; C unchanged.
    pub fn inc8(&mut self, v: u8) -> (r: u8)
        ensures
            r == (v + 1) % 256,
            final(self).regs == (Registers {
                f: flag_byte(r == 0, false, v % 16 == 15, c_of(old(self).regs.f)),
                ..old(self).regs
            }),
            final(self).ime == old(self).ime,
            final(self).ime_pending == old(self).ime_pending,
            final(self).halted == old(self).halted,
            final(self).stopped == old(self).stopped,
    {
        let r = v.wrapping_add(1);
        let z = r == 0;
        let h = v % 16 == 15;
        let c = self.regs.flag_c();
        self.regs.set_flags(z, false, h, c);
        r
    }

    /// DEC r8: Z, N set, H on a borrow from bit 4; C unchanged.
    pub fn dec8(&mut self, v: u8) -> (r: u8)
        ensures
            r == (v + 255) % 256,
            final(self).regs == (Registers {
                f: flag_byte(r == 0, true, v % 16 == 0, c_of(old(self).regs.f)),
                ..old(self).regs
            }),
            final(self).ime == old(self).ime,
            final(self).ime_pending == old(self).ime_pending,
            final(self).halted == old(self).halted,
            final(self).stopped == old(self).stopped,
    {
        let r = v.wrapping_sub(1);
        let z = r == 0;
        let h = v % 16 == 0;
        let c = self.regs.flag_c();
        self.regs.set_flags(z, true, h, c);
        r
    }

    /// ADD / ADC: A += v (+ carry when `with_carry` and C is set).
    pub fn add_a(&mut self, v: u8, with_carry: bool)
        ensures
            ({
                let a = old(self).regs.a;
                let cin: int = if with_carry && c_of(old(self).regs.f) { 1 } else { 0 };
                let r = ((a + v + cin) % 256) as u8;
                final(self).regs == (Registers {
                    a: r,
                    f: flag_byte(r == 0, false, a % 16 + v % 16 + cin > 15, a + v + cin > 255),
                    ..old(self).regs
                })
            }),
            final(self).ime == old(self).ime,
            final(self).ime_pending == old(self).ime_pending,
            final(self).halted == old(self).halted,
            final(self).stopped == old(self).stopped,
    {
        let carry: u8 = if with_carry && self.regs.flag_c() { 1 } else { 0 };
        let a = self.regs.a;
        let result = a.wrapping_add(v).wrapping_add(carry);
        let z = result == 0;
        let h = (a % 16) + (v % 16) + carry > 15;
        let c = (a as u16) + (v as u16) + (carry as u16) > 255;
        self.regs.set_flags(z, false, h, c);
        self.regs.a = result;
    }

    /// SUB / SBC: A -= v (+ carry when `with_carry` and C is set).
    pub fn sub_a(&mut self, v: u8, with_carry: bool)
        ensures
            ({
                let a = old(self).regs.a;
                let cin: int = if with_carry && c_of(old(self).regs.f) { 1 } else { 0 };
                let r = ((a + 512 - v - cin) % 256) as u8;
                final(self).regs == (Registers {
                    a: r,
                    f: flag_byte(r == 0, true, a % 16 < v % 16 + cin, a < v + cin),
                    ..old(self).regs
                })
            }),
            final(self).ime == old(self).ime,
            final(self).ime_pending == old(self).ime_pending,
            final(self).halted == old(self).halted,
            final(self).stopped == old(self).stopped,
    {
        let carry: u8 = if with_carry && self.regs.flag_c() { 1 } else { 0 };
        let a = self.regs.a;
        let result = a.wrapping_sub(v).wrapping_sub(carry);
        let z = result == 0;
        let h = (a % 16) < (v % 16) + carry;
        let c = (a as u16) < (v as u16) + (carry as u16);
        self.regs.set_flags(z, true, h, c);
        self.regs.a = result;
    }

    /// AND: A &= v; Z, H set, N and C cleared.
    pub fn and_a(&mut self, v: u8)
        ensures
            ({
                let r = old(self).regs.a & v;
                final(self).regs == (Registers {
                    a: r,
                    f: flag_byte(r == 0, false, true, false),
                    ..old(self).regs
                })
            }),
            final(self).ime == old(self).ime,
            final(self).ime_pending == old(self).ime_pending,
            final(self).halted == old(self).halted,
            final(self).stopped == old(self).stopped,
    {
        self.regs.a = self.regs.a & v;
        let z = self.regs.a == 0;
        self.regs.set_flags(z, false, true, false);
    }

    /// OR: A |= v; only Z may be set.
    pub fn or_a(&mut self, v: u8)
        ensures
            ({
                let r = old(self).regs.a | v;
                final(self).regs == (Registers {
                    a: r,
                    f: flag_byte(r == 0, false, false, false),
                    ..old(self).regs
                })
            }),
            final(self).ime == old(self).ime,
            final(self).ime_pending == old(self).ime_pending,
            final(self).halted == old(self).halted,
            final(self).stopped == old(self).stopped,
    {
        self.regs.a = self.regs.a | v;
        let z = self.regs.a == 0;
        self.regs.set_flags(z, false, false, false);
    }

    /// XOR: A ^= v; only Z may be set.
    pub fn xor_a(&mut self, v: u8)
        ensures
            ({
                let r = old(self).regs.a ^ v;
                final(self).regs == (Registers {
                    a: r,
                    f: flag_byte(r == 0, false, false, false),
                    ..old(self).regs
                })
            }),
            final(self).ime == old(self).ime,
            final(self).ime_pending == old(self).ime_pending,
            final(self).halted == old(self).halted,
            final(self).stopped == old(self).stopped,
    {
        self.regs.a = self.regs.a ^ v;
        let z = self.regs.a == 0;
        self.regs.set_flags(z, false, false, false);
    }

    /// CP: the flags of A - v; A unchanged.
    pub fn cp_a(&mut self, v: u8)
        ensures
            ({
                let a = old(self).regs.a;
                final(self).regs == (Registers {
                    f: flag_byte(a == v, true, a % 16 < v % 16, a < v),
                    ..old(self).regs
                })
            }),
            final(self).ime == old(self).ime,
            final(self).ime_pending == old(self).ime_pending,
            final(self).halted == old(self).halted,
            final(self).stopped == old(self).stopped,
    {
        let a = self.regs.a;
        let result = a.wrapping_sub(v);
        let z = result == 0;
        let h = (a % 16) < (v % 16);
        let c = a < v;
        self.regs.set_flags(z, true, h, c);
    }

    /// ADD HL, r16: H on a carry out of bit 11, C on a carry out of bit 15; Z unchanged.
    pub fn add_hl(&mut self, v: u16)
        ensures
            ({
                let hl = pair(old(self).regs.h, old(self).regs.l);
                let r = (hl + v) % 0x1_0000;
                final(self).regs == (Registers {
                    h: (r / 256) as u8,
                    l: (r % 256) as u8,
                    f: flag_byte(
                        z_of(old(self).regs.f),
                        false,
                        hl % 0x1000 + v % 0x1000 > 0x0FFF,
                        hl + v > 0xFFFF,
                    ),
                    ..old(self).regs
                })
            }),
            final(self).ime == old(self).ime,
            final(self).ime_pending == old(self).ime_pending,
            final(self).halted == old(self).halted,
            final(self).stopped == old(self).stopped,
    {
        let hl = self.regs.hl();
        let result = hl.wrapping_add(v);
        let h = (hl % 0x1000) + (v % 0x1000) > 0x0FFF;
        let c = (hl as u32) + (v as u32) > 0xFFFF;
        let z = self.regs.flag_z();
        self.regs.set_flags(z, false, h, c);
        self.regs.set_hl(result);
    }

    /// DAA: decimal adjust A after a BCD addition or subtraction.
    pub fn daa(&mut self)
        ensures
            ({
                let f = old(self).regs.f;
                let (r, c) = daa_spec(old(self).regs.a, n_of(f), h_of(f), c_of(f));
                final(self).regs == (Registers {
                    a: r,
                    f: flag_byte(r == 0, n_of(f), false, c),
                    ..old(self).regs
                })
            }),
            final(self).ime == old(self).ime,
            final(self).ime_pending == old(self).ime_pending,
            final(self).halted == old(self).halted,
            final(self).stopped == old(self).stopped,
    {
        let n = self.regs.flag_n();
        let h = self.regs.flag_h();
        let c = self.regs.flag_c();
        let (a, new_c) = daa_adjust(self.regs.a, n, h, c);
        self.regs.a = a;
        let z = a == 0;
        self.regs.set_flags(z, n, false, new_c);
    }

    // --- Rotate / shift of A (Z always cleared) ---

    /// RLCA: rotate A left; C takes the old bit 7.
    pub fn rlca(&mut self)
        ensures
            ({
                let a = old(self).regs.a;
                final(self).regs == (Registers {
                    a: ((a % 128) * 2 + a / 128) as u8,
                    f: flag_byte(false, false, false, a / 128 == 1),
                    ..old(self).regs
                })
            }),
            final(self).ime == old(self).ime,
            final(self).ime_pending == old(self).ime_pending,
            final(self).halted == old(self).halted,
            final(self).stopped == old(self).stopped,
    {
        let c = self.regs.a / 128;
        self.regs.a = (self.regs.a % 128) * 2 + c;
        self.regs.set_flags(false, false, false, c != 0);
    }

    /// RRCA: rotate A right; C takes the old bit 0.
    pub fn rrca(&mut self)
        ensures
            ({
                let a = old(self).regs.a;
                final(self).regs == (Registers {
                    a: (a / 2 + (a % 2) * 128) as u8,
                    f: flag_byte(false, false, false, a % 2 == 1),
                    ..old(self).regs
                })
            }),
            final(self).ime == old(self).ime,
            final(self).ime_pending == old(self).ime_pending,
            final(self).halted == old(self).halted,
            final(self).stopped == old(self).stopped,
    {
        let c = self.regs.a % 2;
        self.regs.a = self.regs.a / 2 + c * 128;
        self.regs.set_flags(false, false, false, c != 0);
    }

    /// RLA: rotate A left through the carry.
    pub fn rla(&mut self)
        ensures
            ({
                let a = old(self).regs.a;
                let cin: int = if c_of(old(self).regs.f) { 1 } else { 0 };
                final(self).regs == (Registers {
                    a: ((a % 128) * 2 + cin) as u8,
                    f: flag_byte(false, false, false, a / 128 == 1),
                    ..old(self).regs
                })
            }),
            final(self).ime == old(self).ime,
            final(self).ime_pending == old(self).ime_pending,
            final(self).halted == old(self).halted,
            final(self).stopped == old(self).stopped,
    {
        let old_c: u8 = if self.regs.flag_c() { 1 } else { 0 };
        let new_c = self.regs.a / 128;
        self.regs.a = (self.regs.a % 128) * 2 + old_c;
        self.regs.set_flags(false, false, false, new_c != 0);
    }

    /// RRA: rotate A right through the carry.
    pub fn rra(&mut self)
        ensures
            ({
                let a = old(self).regs.a;
                let cin: int = if c_of(old(self).regs.f) { 128 } else { 0 };
                final(self).regs == (Registers {
                    a: (a / 2 + cin) as u8,
                    f: flag_byte(false, false, false, a % 2 == 1),
                    ..old(self).regs
                })
            }),
            final(self).ime == old(self).ime,
            final(self).ime_pending == old(self).ime_pending,
            final(self).halted == old(self).halted,
            final(self).stopped == old(self).stopped,
    {
        let old_c: u8 = if self.regs.flag_c() { 128 } else { 0 };
        let new_c = self.regs.a % 2;
        self.regs.a = self.regs.a / 2 + old_c;
        self.regs.set_flags(false, false, false, new_c != 0);
    }

    // --- CB-prefix rotate / shift: result returned, flags updated ---

    /// RLC: rotate left; C takes the old bit 7.
    pub fn op_rlc(&mut self, v: u8) -> (r: u8)
        ensures
            r == (v % 128) * 2 + v / 128,
            final(self).regs == (Registers {
                f: flag_byte(r == 0, false, false, v / 128 == 1),
                ..old(self).regs
            }),
            final(self).ime == old(self).ime,
            final(self).ime_pending == old(self).ime_pending,
            final(self).halted == old(self).halted,
            final(self).stopped == old(self).stopped,
    {
        let c = v / 128;
        let r = (v % 128) * 2 + c;
        self.regs.set_flags(r == 0, false, false, c != 0);
        r
    }

    /// RRC: rotate right; C takes the old bit 0.
    pub fn op_rrc(&mut self, v: u8) -> (r: u8)
        ensures
            r == v / 2 + (v % 2) * 128,
            final(self).regs == (Registers {
                f: flag_byte(r == 0, false, false, v % 2 == 1),
                ..old(self).regs
            }),
            final(self).ime == old(self).ime,
            final(self).ime_pending == old(self).ime_pending,
            final(self).halted == old(self).halted,
            final(self).stopped == old(self).stopped,
    {
        let c = v % 2;
        let r = v / 2 + c * 128;
        self.regs.set_flags(r == 0, false, false, c != 0);
        r
    }

    /// RL: rotate left through the carry.
    pub fn op_rl(&mut self, v: u8) -> (r: u8)
        ensures
            r == (v % 128) * 2 + (if c_of(old(self).regs.f) { 1int } else { 0 }),
            final(self).regs == (Registers {
                f: flag_byte(r == 0, false, false, v / 128 == 1),
                ..old(self).regs
            }),
            final(self).ime == old(self).ime,
            final(self).ime_pending == old(self).ime_pending,
            final(self).halted == old(self).halted,
            final(self).stopped == old(self).stopped,
    {
        let old_c: u8 = if self.regs.flag_c() { 1 } else { 0 };
        let new_c = v / 128;
        let r = (v % 128) * 2 + old_c;
        self.regs.set_flags(r == 0, false, false, new_c != 0);
        r
    }

    /// RR: rotate right through the carry.
    pub fn op_rr(&mut self, v: u8) -> (r: u8)
        ensures
            r == v / 2 + (if c_of(old(self).regs.f) { 128int } else { 0 }),
            final(self).regs == (Registers {
                f: flag_byte(r == 0, false, false, v % 2 == 1),
                ..old(self).regs
            }),
            final(self).ime == old(self).ime,
            final(self).ime_pending == old(self).ime_pending,
            final(self).halted == old(self).halted,
            final(self).stopped == old(self).stopped,
    {
        let old_c: u8 = if self.regs.flag_c() { 128 } else { 0 };
        let new_c = v % 2;
        let r = v / 2 + old_c;
        self.regs.set_flags(r == 0, false, false, new_c != 0);
        r
    }

    /// SLA: shift left; C takes the old bit 7.
    pub fn op_sla(&mut self, v: u8) -> (r: u8)
        ensures
            r == (v % 128) * 2,
            final(self).regs == (Registers {
                f: flag_byte(r == 0, false, false, v / 128 == 1),
                ..old(self).regs
            }),
            final(self).ime == old(self).ime,
            final(self).ime_pending == old(self).ime_pending,
            final(self).halted == old(self).halted,
            final(self).stopped == old(self).stopped,
    {
        let c = v / 128;
        let r = (v % 128) * 2;
        self.regs.set_flags(r == 0, false, false, c != 0);
        r
    }

    /// SRA: arithmetic shift right (bit 7 kept); C takes the old bit 0.
    pub fn op_sra(&mut self, v: u8) -> (r: u8)
        ensures
            r == v / 2 + (v / 128) * 128,
            final(self).regs == (Registers {
                f: flag_byte(r == 0, false, false, v % 2 == 1),
                ..old(self).regs
            }),
            final(self).ime == old(self).ime,
            final(self).ime_pending == old(self).ime_pending,
            final(self).halted == old(self).halted,
            final(self).stopped == old(self).stopped,
    {
        let c = v % 2;
        let r = v / 2 + (v / 128) * 128;
        self.regs.set_flags(r == 0, false, false, c != 0);
        r
    }

    /// SWAP: exchange the two nibbles.
    pub fn op_swap(&mut self, v: u8) -> (r: u8)
        ensures
            r == (v % 16) * 16 + v / 16,
            final(self).regs == (Registers { f: flag_byte(r == 0, false, false, false), ..old(self).regs }),
            final(self).ime == old(self).ime,
            final(self).ime_pending == old(self).ime_pending,
            final(self).halted == old(self).halted,
            final(self).stopped == old(self).stopped,
    {
        let r = (v % 16) * 16 + v / 16;
        self.regs.set_flags(r == 0, false, false, false);
        r
    }

    /// SRL: logical shift right; C takes the old bit 0.
    pub fn op_srl(&mut self, v: u8) -> (r: u8)
        ensures
            r == v / 2,
            final(self).regs == (Registers {
                f: flag_byte(r == 0, false, false, v % 2 == 1),
                ..old(self).regs
            }),
            final(self).ime == old(self).ime,
            final(self).ime_pending == old(self).ime_pending,
            final(self).halted == old(self).halted,
            final(self).stopped == old(self).stopped,
    {
        let c = v % 2;
        let r = v / 2;
        self.regs.set_flags(r == 0, false, false, c != 0);
        r
    }

    // -----------------------------------------------------------------------
    // Save / Load state
    // -----------------------------------------------------------------------

    /// Appends the 16-byte CPU state.
    pub fn save(&self, buf: &mut Vec<u8>)
        ensures
            final(buf)@ == old(buf)@ + cpu_bytes(*self),
    {
        write_u8(buf, self.regs.a);
        write_u8(buf, self.regs.f);
        write_u8(buf, self.regs.b);
        write_u8(buf, self.regs.c);
        write_u8(buf, self.regs.d);
        write_u8(buf, self.regs.e);
        write_u8(buf, self.regs.h);
        write_u8(buf, self.regs.l);
        write_u16(buf, self.regs.sp);
        write_u16(buf, self.regs.pc);
        write_bool(buf, self.ime);
        write_bool(buf, self.halted);
        write_bool(buf, self.stopped);
        write_bool(buf, self.ime_pending);
        assert(buf@ =~= old(buf)@ + cpu_bytes(*self));
    }

    /// Restores the CPU state written by `save`; the low four bits of F, always 0, are
    /// cleared.
    pub fn load(&mut self, data: &[u8], off: &mut usize)
        requires
            *old(off) + 16 <= data@.len(),
        ensures
            *final(self) == cpu_from_bytes(data@, *old(off) as int),
            *final(off) == *old(off) + 16,
    {
        self.regs.a = read_u8(data, off);
        self.regs.f = read_u8(data, off) & 0xF0;
        self.regs.b = read_u8(data, off);
        self.regs.c = read_u8(data, off);
        self.regs.d = read_u8(data, off);
        self.regs.e = read_u8(data, off);
        self.regs.h = read_u8(data, off);
        self.regs.l = read_u8(data, off);
        self.regs.sp = read_u16(data, off);
        self.regs.pc = read_u16(data, off);
        self.ime = read_bool(data, off);
        self.halted = read_bool(data, off);
        self.stopped = read_bool(data, off);
        self.ime_pending = read_bool(data, off);
    }
}

/// Loading the bytes that `save` wrote gives back the same CPU state, when the low four
/// bits of F are clear, as they always are.
pub proof fn lemma_cpu_roundtrip(c: Cpu, data: Seq<u8>, o: int)
    requires
        c.regs.f % 16 == 0,
        0 <= o,
        o + 16 <= data.len(),
        data.subrange(o, o + 16) == cpu_bytes(c),
    ensures
        cpu_from_bytes(data, o) == c,
{
    let b = cpu_bytes(c);
    let d = data.subrange(o, o + 16);
    assert forall|k: int| 0 <= k < 16 implies data[o + k] == #[trigger] b[k] by {
        assert(d[k] == data[o + k]);
    }
    assert(b[0] == c.regs.a && b[1] == c.regs.f && b[2] == c.regs.b && b[3] == c.regs.c);
    assert(b[4] == c.regs.d && b[5] == c.regs.e && b[6] == c.regs.h && b[7] == c.regs.l);
    assert(b[8] == le16(c.regs.sp)[0] && b[9] == le16(c.regs.sp)[1]);
    assert(b[10] == le16(c.regs.pc)[0] && b[11] == le16(c.regs.pc)[1]);
    assert(b[12] == bool_byte(c.ime) && b[13] == bool_byte(c.halted));
    assert(b[14] == bool_byte(c.stopped) && b[15] == bool_byte(c.ime_pending));
    assert(data.subrange(o + 8, o + 10) =~= le16(c.regs.sp));
    assert(data.subrange(o + 10, o + 12) =~= le16(c.regs.pc));
    lemma_le16_roundtrip(c.regs.sp, data, o + 8);
    lemma_le16_roundtrip(c.regs.pc, data, o + 10);
    let f = c.regs.f;
    assert(f & 0xF0 == f) by (bit_vector)
        requires
            f % 16 == 0,
    ;
}

} // verus!
