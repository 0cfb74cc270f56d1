//! Fetch, decode and execution of LR35902 instructions, and interrupt dispatch.
//!
//! Operand fields: an 8-bit operand index 0-7 names B, C, D, E, H, L, (HL), A;
//! a register-pair index 0-3 names BC, DE, HL, SP (AF for PUSH / POP);
//! a condition index 0-3 names NZ, Z, NC, C.

use vstd::prelude::*;
use crate::bits::{bit_set, clear_bit, set_bit, test_bit, with_bit_cleared, with_bit_set};
use crate::gb::cpu::{bcd_value, c_of, daa_spec, flag_byte, h_of, is_bcd, n_of, pair, z_of, Cpu, Registers};
use crate::gb::mmu::{bus_frame, mem_read_spec, mem_write_rel, wrote_word, Mmu};

verus! {

// ---------------------------------------------------------------------------
// Operand specifications
// ---------------------------------------------------------------------------

/// `pc + k`, wrapping at 16 bits.
pub open spec fn adv(pc: u16, k: int) -> u16 {
    ((pc + k) % 0x1_0000) as u16
}

/// `sp - k`, wrapping at 16 bits.
pub open spec fn back(sp: u16, k: int) -> u16 {
    ((sp + 0x1_0000 - k) % 0x1_0000) as u16
}

pub open spec fn hl_of(r: Registers) -> u16 {
    pair(r.h, r.l)
}

/// The 8-bit register named by operand index `idx` (not 6, which is memory).
pub open spec fn r8_spec(r: Registers, idx: u8) -> u8 {
    if idx == 0 {
        r.b
    } else if idx == 1 {
        r.c
    } else if idx == 2 {
        r.d
    } else if idx == 3 {
        r.e
    } else if idx == 4 {
        r.h
    } else if idx == 5 {
        r.l
    } else {
        r.a
    }
}

/// The registers with the 8-bit register named by `idx` set to `v` (6 changes nothing).
pub open spec fn set_r8_spec(r: Registers, idx: u8, v: u8) -> Registers {
    if idx == 0 {
        Registers { b: v, ..r }
    } else if idx == 1 {
        Registers { c: v, ..r }
    } else if idx == 2 {
        Registers { d: v, ..r }
    } else if idx == 3 {
        Registers { e: v, ..r }
    } else if idx == 4 {
        Registers { h: v, ..r }
    } else if idx == 5 {
        Registers { l: v, ..r }
    } else if idx == 7 {
        Registers { a: v, ..r }
    } else {
        r
    }
}

/// The value of 8-bit operand `idx`: a register, or the byte at HL for 6.
pub open spec fn operand_spec(r: Registers, idx: u8, m: &Mmu) -> u8 {
    if idx == 6 {
        mem_read_spec(m, hl_of(r))
    } else {
        r8_spec(r, idx)
    }
}

/// Storing `v` into operand `idx` turns registers `r` and bus `m` into `r1` and `m1`.
pub open spec fn store_rel(r: Registers, r1: Registers, m: &Mmu, m1: &Mmu, idx: u8, v: u8) -> bool {
    if idx == 6 {
        r1 == r && mem_write_rel(m, m1, hl_of(r), v)
    } else {
        r1 == set_r8_spec(r, idx, v) && *m1 == *m
    }
}

/// The register pair named by `k` (BC, DE, HL, SP).
pub open spec fn rr_spec(r: Registers, k: u8) -> u16 {
    if k == 0 {
        pair(r.b, r.c)
    } else if k == 1 {
        pair(r.d, r.e)
    } else if k == 2 {
        pair(r.h, r.l)
    } else {
        r.sp
    }
}

/// The registers with pair `k` (BC, DE, HL, SP) set to `v`.
pub open spec fn set_rr_spec(r: Registers, k: u8, v: u16) -> Registers {
    if k == 0 {
        Registers { b: (v / 256) as u8, c: (v % 256) as u8, ..r }
    } else if k == 1 {
        Registers { d: (v / 256) as u8, e: (v % 256) as u8, ..r }
    } else if k == 2 {
        Registers { h: (v / 256) as u8, l: (v % 256) as u8, ..r }
    } else {
        Registers { sp: v, ..r }
    }
}

/// The registers with PUSH / POP pair `k` (BC, DE, HL, AF) set to `v`; F keeps its high nibble.
pub open spec fn set_rr2_spec(r: Registers, k: u8, v: u16) -> Registers {
    if k == 3 {
        Registers { a: (v / 256) as u8, f: ((v % 256) - (v % 16)) as u8, ..r }
    } else {
        set_rr_spec(r, k, v)
    }
}

/// The PUSH / POP pair `k` (BC, DE, HL, AF); F reads with its low nibble clear.
pub open spec fn rr2_spec(r: Registers, k: u8) -> u16 {
    if k == 3 {
        pair(r.a, (r.f - r.f % 16) as u8)
    } else {
        rr_spec(r, k)
    }
}

/// Condition `cc` (NZ, Z, NC, C) on flags `f`.
pub open spec fn cond_spec(f: u8, cc: u8) -> bool {
    if cc == 0 {
        !z_of(f)
    } else if cc == 1 {
        z_of(f)
    } else if cc == 2 {
        !c_of(f)
    } else {
        c_of(f)
    }
}

/// ALU operation `kind` (ADD, ADC, SUB, SBC, AND, XOR, OR, CP) of A with `v`.
pub open spec fn alu_spec(r: Registers, kind: u8, v: u8) -> Registers {
    let a = r.a;
    if kind <= 1 {
        let cin: int = if kind == 1 && c_of(r.f) { 1 } else { 0 };
        let res = ((a + v + cin) % 256) as u8;
        Registers { a: res, f: flag_byte(res == 0, false, a % 16 + v % 16 + cin > 15, a + v + cin > 255), ..r }
    } else if kind <= 3 {
        let cin: int = if kind == 3 && c_of(r.f) { 1 } else { 0 };
        let res = ((a + 512 - v - cin) % 256) as u8;
        Registers { a: res, f: flag_byte(res == 0, true, a % 16 < v % 16 + cin, a < v + cin), ..r }
    } else if kind == 4 {
        Registers { a: a & v, f: flag_byte(a & v == 0, false, true, false), ..r }
    } else if kind == 5 {
        Registers { a: a ^ v, f: flag_byte(a ^ v == 0, false, false, false), ..r }
    } else if kind == 6 {
        Registers { a: a | v, f: flag_byte(a | v == 0, false, false, false), ..r }
    } else {
        Registers { f: flag_byte(a == v, true, a % 16 < v % 16, a < v), ..r }
    }
}

/// Shift / rotate `kind` (RLC, RRC, RL, RR, SLA, SRA, SWAP, SRL) of `v` with carry in
/// `cin`: the result and the carry out.
pub open spec fn shift_spec(kind: u8, v: u8, cin: bool) -> (u8, bool) {
    let ci: int = if cin { 1 } else { 0 };
    if kind == 0 {
        (((v % 128) * 2 + v / 128) as u8, v / 128 == 1)
    } else if kind == 1 {
        ((v / 2 + (v % 2) * 128) as u8, v % 2 == 1)
    } else if kind == 2 {
        (((v % 128) * 2 + ci) as u8, v / 128 == 1)
    } else if kind == 3 {
        ((v / 2 + ci * 128) as u8, v % 2 == 1)
    } else if kind == 4 {
        (((v % 128) * 2) as u8, v / 128 == 1)
    } else if kind == 5 {
        ((v / 2 + (v / 128) * 128) as u8, v % 2 == 1)
    } else if kind == 6 {
        (((v % 16) * 16 + v / 16) as u8, false)
    } else {
        ((v / 2) as u8, v % 2 == 1)
    }
}

/// The target of a relative jump whose offset byte `e` was read with the PC then at `pc`.
pub open spec fn jr_target(pc: u16, e: u8) -> u16 {
    adv(pc, 1 + e + (if e >= 128 { 0xFF00int } else { 0 }))
}

/// SP plus the signed byte `e`, and the H and C flags of that addition (ADD SP,e / LD HL,SP+e).
pub open spec fn sp_offset_spec(sp: u16, e: u8) -> (u16, bool, bool) {
    (adv(sp, e + (if e >= 128 { 0xFF00int } else { 0 })), sp % 16 + e % 16 > 15, sp % 256 + e > 255)
}

/// The interrupt, HALT and STOP state of a CPU is unchanged.
pub open spec fn same_control(a: &Cpu, b: &Cpu) -> bool {
    a.ime == b.ime && a.ime_pending == b.ime_pending && a.halted == b.halted && a.stopped == b.stopped
}

/// Bus `b` is `a` after pushing `val` with the stack pointer at `sp`, through `mid`.
pub open spec fn push_steps(a: &Mmu, mid: Mmu, b: &Mmu, sp: u16, val: u16) -> bool {
    &&& mid.wf()
    &&& mem_write_rel(a, &mid, back(sp, 1), (val / 256) as u8)
    &&& mem_write_rel(&mid, b, back(sp, 2), (val % 256) as u8)
}

/// Bus `b` is `a` after pushing `val` (high byte at SP-1, low byte at SP-2).
pub open spec fn pushed(a: &Mmu, b: &Mmu, sp: u16, val: u16) -> bool {
    exists|mid: Mmu| #[trigger] push_steps(a, mid, b, sp, val)
}

/// The 16-bit value at `addr` (low byte first).
pub open spec fn word_at(m: &Mmu, addr: u16) -> u16 {
    pair(mem_read_spec(m, adv(addr, 1)), mem_read_spec(m, addr))
}

/// The CPU with new registers and the same interrupt and halt state.
pub open spec fn with_regs(c: &Cpu, r: Registers) -> Cpu {
    Cpu { regs: r, ime: c.ime, ime_pending: c.ime_pending, halted: c.halted, stopped: c.stopped }
}

/// INC r (0x04, 0x0C, ..., 0x3C).
pub open spec fn is_inc8(op: u8) -> bool {
    op == 0x04 || op == 0x0C || op == 0x14 || op == 0x1C || op == 0x24 || op == 0x2C || op == 0x34 || op == 0x3C
}

/// DEC r (0x05, 0x0D, ..., 0x3D).
pub open spec fn is_dec8(op: u8) -> bool {
    op == 0x05 || op == 0x0D || op == 0x15 || op == 0x1D || op == 0x25 || op == 0x2D || op == 0x35 || op == 0x3D
}

/// LD r, d8 (0x06, 0x0E, ..., 0x3E).
pub open spec fn is_ld8(op: u8) -> bool {
    op == 0x06 || op == 0x0E || op == 0x16 || op == 0x1E || op == 0x26 || op == 0x2E || op == 0x36 || op == 0x3E
}

/// LD rr, d16.
pub open spec fn is_ld16(op: u8) -> bool {
    op == 0x01 || op == 0x11 || op == 0x21 || op == 0x31
}

/// INC rr.
pub open spec fn is_inc16(op: u8) -> bool {
    op == 0x03 || op == 0x13 || op == 0x23 || op == 0x33
}

/// DEC rr.
pub open spec fn is_dec16(op: u8) -> bool {
    op == 0x0B || op == 0x1B || op == 0x2B || op == 0x3B
}

/// ADD HL, rr.
pub open spec fn is_add_hl(op: u8) -> bool {
    op == 0x09 || op == 0x19 || op == 0x29 || op == 0x39
}

/// POP rr.
pub open spec fn is_pop(op: u8) -> bool {
    op == 0xC1 || op == 0xD1 || op == 0xE1 || op == 0xF1
}

/// PUSH rr.
pub open spec fn is_push(op: u8) -> bool {
    op == 0xC5 || op == 0xD5 || op == 0xE5 || op == 0xF5
}

/// ALU A, d8.
pub open spec fn is_alu_imm(op: u8) -> bool {
    op == 0xC6 || op == 0xCE || op == 0xD6 || op == 0xDE || op == 0xE6 || op == 0xEE || op == 0xF6 || op == 0xFE
}

/// RST n.
pub open spec fn is_rst(op: u8) -> bool {
    op == 0xC7 || op == 0xCF || op == 0xD7 || op == 0xDF || op == 0xE7 || op == 0xEF || op == 0xF7 || op == 0xFF
}

// ---------------------------------------------------------------------------
// Instruction specifications
// ---------------------------------------------------------------------------

/// 0x40-0x7F except 0x76: LD r, r'.
pub open spec fn ld_block_rel(op: u8, c0: &Cpu, m0: &Mmu, c1: &Cpu, m1: &Mmu) -> bool {
    &&& same_control(c0, c1)
    &&& store_rel(c0.regs, c1.regs, m0, m1, (op / 8) % 8, operand_spec(c0.regs, op % 8, m0))
}

/// 0x80-0xBF: ALU A, r.
pub open spec fn alu_block_rel(op: u8, c0: &Cpu, m0: &Mmu, c1: &Cpu, m1: &Mmu) -> bool {
    &&& same_control(c0, c1)
    &&& c1.regs == alu_spec(c0.regs, (op / 8) % 8, operand_spec(c0.regs, op % 8, m0))
    &&& *m1 == *m0
}

/// A CB-prefixed instruction `op`: shifts, BIT, RES and SET.
pub open spec fn cb_rel(op: u8, c0: &Cpu, m0: &Mmu, c1: &Cpu, m1: &Mmu) -> bool {
    let idx = op % 8;
    let b = (op / 8) % 8;
    let r = c0.regs;
    let v = operand_spec(r, idx, m0);
    &&& same_control(c0, c1)
    &&& if op < 0x40 {
        let (res, c) = shift_spec(b, v, c_of(r.f));
        store_rel(Registers { f: flag_byte(res == 0, false, false, c), ..r }, c1.regs, m0, m1, idx, res)
    } else if op < 0x80 {
        c1.regs == (Registers { f: flag_byte(!bit_set(v, b), false, true, c_of(r.f)), ..r }) && *m1
            == *m0
    } else if op < 0xC0 {
        store_rel(r, c1.regs, m0, m1, idx, clear_bit(v, b))
    } else {
        store_rel(r, c1.regs, m0, m1, idx, set_bit(v, b))
    }
}

/// INC r / DEC r (`op` in `is_inc8` or `is_dec8`).
#[verifier::opaque]
pub open spec fn inc_dec8_rel(op: u8, c0: &Cpu, m0: &Mmu, c1: &Cpu, m1: &Mmu) -> bool {
    let r = c0.regs;
    let y = (op / 8) % 8;
    let v = operand_spec(r, y, m0);
    &&& same_control(c0, c1)
    &&& if op % 8 == 4 {
        let res = ((v + 1) % 256) as u8;
        store_rel(Registers { f: flag_byte(res == 0, false, v % 16 == 15, c_of(r.f)), ..r }, c1.regs, m0, m1, y, res)
    } else {
        let res = ((v + 255) % 256) as u8;
        store_rel(Registers { f: flag_byte(res == 0, true, v % 16 == 0, c_of(r.f)), ..r }, c1.regs, m0, m1, y, res)
    }
}

/// LD r, d8 (`is_ld8`).
#[verifier::opaque]
pub open spec fn ld8_rel(op: u8, c0: &Cpu, m0: &Mmu, c1: &Cpu, m1: &Mmu) -> bool {
    let r = c0.regs;
    &&& same_control(c0, c1)
    &&& store_rel(Registers { pc: adv(r.pc, 1), ..r }, c1.regs, m0, m1, (op / 8) % 8, mem_read_spec(m0, r.pc))
}

/// LD rr, d16.
#[verifier::opaque]
pub open spec fn ld16_rel(op: u8, c0: &Cpu, m0: &Mmu, c1: &Cpu, m1: &Mmu) -> bool {
    let r = c0.regs;
    &&& same_control(c0, c1)
    &&& *m1 == *m0
    &&& c1.regs == set_rr_spec(Registers { pc: adv(r.pc, 2), ..r }, op / 16, word_at(m0, r.pc))
}

/// INC rr; DEC rr.
#[verifier::opaque]
pub open spec fn inc_dec16_rel(op: u8, c0: &Cpu, m0: &Mmu, c1: &Cpu, m1: &Mmu) -> bool {
    let r = c0.regs;
    let k = op / 16;
    &&& same_control(c0, c1)
    &&& *m1 == *m0
    &&& c1.regs == set_rr_spec(r, k, if is_inc16(op) { adv(rr_spec(r, k), 1) } else { back(rr_spec(r, k), 1) })
}

/// ADD HL, rr: H on a carry out of bit 11, C on a carry out of bit 15; Z unchanged.
#[verifier::opaque]
pub open spec fn add_hl_rel(op: u8, c0: &Cpu, m0: &Mmu, c1: &Cpu, m1: &Mmu) -> bool {
    let r = c0.regs;
    let hl = hl_of(r);
    let v = rr_spec(r, op / 16);
    let res = adv(hl, v as int);
    &&& same_control(c0, c1)
    &&& *m1 == *m0
    &&& c1.regs == (Registers {
        h: (res / 256) as u8,
        l: (res % 256) as u8,
        f: flag_byte(z_of(r.f), false, hl % 0x1000 + v % 0x1000 > 0x0FFF, hl + v > 0xFFFF),
        ..r
    })
}

/// LD (BC), A; LD (DE), A; LD (HL+), A; LD (HL-), A.
#[verifier::opaque]
pub open spec fn store_a_rel(op: u8, c0: &Cpu, m0: &Mmu, c1: &Cpu, m1: &Mmu) -> bool {
    let r = c0.regs;
    let hl = hl_of(r);
    &&& same_control(c0, c1)
    &&& if op == 0x02 || op == 0x12 {
        c1.regs == r && mem_write_rel(m0, m1, rr_spec(r, op / 16), r.a)
    } else {
        c1.regs == set_rr_spec(r, 2, if op == 0x22 { adv(hl, 1) } else { back(hl, 1) })
            && mem_write_rel(m0, m1, hl, r.a)
    }
}

/// LD A, (BC); LD A, (DE); LD A, (HL+); LD A, (HL-).
#[verifier::opaque]
pub open spec fn load_a_rel(op: u8, c0: &Cpu, m0: &Mmu, c1: &Cpu, m1: &Mmu) -> bool {
    let r = c0.regs;
    let hl = hl_of(r);
    &&& same_control(c0, c1)
    &&& *m1 == *m0
    &&& if op == 0x0A || op == 0x1A {
        c1.regs == (Registers { a: mem_read_spec(m0, rr_spec(r, op / 16)), ..r })
    } else {
        c1.regs == set_rr_spec(
            Registers { a: mem_read_spec(m0, hl), ..r },
            2,
            if op == 0x2A { adv(hl, 1) } else { back(hl, 1) },
        )
    }
}

/// LD (a16), SP.
#[verifier::opaque]
pub open spec fn store_sp_rel(c0: &Cpu, m0: &Mmu, c1: &Cpu, m1: &Mmu) -> bool {
    let r = c0.regs;
    &&& same_control(c0, c1)
    &&& c1.regs == (Registers { pc: adv(r.pc, 2), ..r })
    &&& wrote_word(m0, m1, word_at(m0, r.pc), r.sp)
}

/// RLCA, RRCA, RLA, RRA: Z, N and H cleared.
#[verifier::opaque]
pub open spec fn rot_a_rel(op: u8, c0: &Cpu, m0: &Mmu, c1: &Cpu, m1: &Mmu) -> bool {
    let r = c0.regs;
    let kind: u8 = if op == 0x07 { 0 } else if op == 0x0F { 1 } else if op == 0x17 { 2 } else { 3 };
    let (res, c) = shift_spec(kind, r.a, c_of(r.f));
    &&& same_control(c0, c1)
    &&& *m1 == *m0
    &&& c1.regs == (Registers { a: res, f: flag_byte(false, false, false, c), ..r })
}

/// JR e and JR cc, e.
#[verifier::opaque]
pub open spec fn jr_rel(op: u8, c0: &Cpu, m0: &Mmu, c1: &Cpu, m1: &Mmu) -> bool {
    let r = c0.regs;
    let taken = op == 0x18 || cond_spec(r.f, ((op / 8) % 8 - 4) as u8);
    &&& same_control(c0, c1)
    &&& *m1 == *m0
    &&& c1.regs == (Registers {
        pc: if taken { jr_target(r.pc, mem_read_spec(m0, r.pc)) } else { adv(r.pc, 1) },
        ..r
    })
}

/// DAA, CPL, SCF, CCF.
#[verifier::opaque]
pub open spec fn flag_ops_rel(op: u8, c0: &Cpu, m0: &Mmu, c1: &Cpu, m1: &Mmu) -> bool {
    let r = c0.regs;
    let f = r.f;
    &&& same_control(c0, c1)
    &&& *m1 == *m0
    &&& if op == 0x27 {
        let (res, c) = daa_spec(r.a, n_of(f), h_of(f), c_of(f));
        c1.regs == (Registers { a: res, f: flag_byte(res == 0, n_of(f), false, c), ..r })
    } else if op == 0x2F {
        c1.regs == (Registers { a: (255 - r.a) as u8, f: f | 0x60, ..r })
    } else if op == 0x37 {
        c1.regs == (Registers { f: (f & 0x80) | 0x10, ..r })
    } else {
        c1.regs == (Registers { f: (f & 0x80) | (if c_of(f) { 0u8 } else { 0x10u8 }), ..r })
    }
}

/// 0x00-0x3F: loads, 8- and 16-bit increments, rotates of A, relative jumps and flag operations.
/// The PC of `c0` already points past the opcode.
pub open spec fn low_block_rel(op: u8, c0: &Cpu, m0: &Mmu, c1: &Cpu, m1: &Mmu) -> bool {
    if is_inc8(op) || is_dec8(op) {
        inc_dec8_rel(op, c0, m0, c1, m1)
    } else if is_ld8(op) {
        ld8_rel(op, c0, m0, c1, m1)
    } else if is_ld16(op) {
        ld16_rel(op, c0, m0, c1, m1)
    } else if is_inc16(op) || is_dec16(op) {
        inc_dec16_rel(op, c0, m0, c1, m1)
    } else if is_add_hl(op) {
        add_hl_rel(op, c0, m0, c1, m1)
    } else if op == 0x02 || op == 0x12 || op == 0x22 || op == 0x32 {
        store_a_rel(op, c0, m0, c1, m1)
    } else if op == 0x0A || op == 0x1A || op == 0x2A || op == 0x3A {
        load_a_rel(op, c0, m0, c1, m1)
    } else if op == 0x08 {
        store_sp_rel(c0, m0, c1, m1)
    } else if op == 0x07 || op == 0x0F || op == 0x17 || op == 0x1F {
        rot_a_rel(op, c0, m0, c1, m1)
    } else if op == 0x18 || op == 0x20 || op == 0x28 || op == 0x30 || op == 0x38 {
        jr_rel(op, c0, m0, c1, m1)
    } else if op == 0x27 || op == 0x2F || op == 0x37 || op == 0x3F {
        flag_ops_rel(op, c0, m0, c1, m1)
    } else if op == 0x10 {
        *m1 == *m0 && *c1 == Cpu { stopped: true, ..*c0 }
    } else {
        // NOP and the unused opcodes of this block do nothing.
        *c1 == *c0 && *m1 == *m0
    }
}

/// RET cc, RET and RETI.
#[verifier::opaque]
pub open spec fn ret_rel(op: u8, c0: &Cpu, m0: &Mmu, c1: &Cpu, m1: &Mmu) -> bool {
    let r = c0.regs;
    let taken = op == 0xC9 || op == 0xD9 || cond_spec(r.f, (op / 8) % 8);
    let r1 = if taken { Registers { pc: word_at(m0, r.sp), sp: adv(r.sp, 2), ..r } } else { r };
    &&& *m1 == *m0
    &&& *c1 == if op == 0xD9 { Cpu { ime: true, ..with_regs(c0, r1) } } else { with_regs(c0, r1) }
}

/// POP rr.
#[verifier::opaque]
pub open spec fn pop_rel(op: u8, c0: &Cpu, m0: &Mmu, c1: &Cpu, m1: &Mmu) -> bool {
    let r = c0.regs;
    &&& same_control(c0, c1)
    &&& *m1 == *m0
    &&& c1.regs == set_rr2_spec(Registers { sp: adv(r.sp, 2), ..r }, (op / 16) % 4, word_at(m0, r.sp))
}

/// PUSH rr.
#[verifier::opaque]
pub open spec fn push_rel(op: u8, c0: &Cpu, m0: &Mmu, c1: &Cpu, m1: &Mmu) -> bool {
    let r = c0.regs;
    &&& same_control(c0, c1)
    &&& c1.regs == (Registers { sp: back(r.sp, 2), ..r })
    &&& pushed(m0, m1, r.sp, rr2_spec(r, (op / 16) % 4))
}

/// JP cc, a16; JP a16; JP HL.
#[verifier::opaque]
pub open spec fn jp_rel(op: u8, c0: &Cpu, m0: &Mmu, c1: &Cpu, m1: &Mmu) -> bool {
    let r = c0.regs;
    &&& same_control(c0, c1)
    &&& *m1 == *m0
    &&& c1.regs == (Registers {
        pc: if op == 0xE9 {
            hl_of(r)
        } else if op == 0xC3 || cond_spec(r.f, (op / 8) % 8) {
            word_at(m0, r.pc)
        } else {
            adv(r.pc, 2)
        },
        ..r
    })
}

/// CALL cc, a16; CALL a16: push the address after the operand, jump to the operand.
#[verifier::opaque]
pub open spec fn call_rel(op: u8, c0: &Cpu, m0: &Mmu, c1: &Cpu, m1: &Mmu) -> bool {
    let r = c0.regs;
    &&& same_control(c0, c1)
    &&& if op == 0xCD || cond_spec(r.f, (op / 8) % 8) {
        c1.regs == (Registers { pc: word_at(m0, r.pc), sp: back(r.sp, 2), ..r }) && pushed(m0, m1, r.sp, adv(r.pc, 2))
    } else {
        c1.regs == (Registers { pc: adv(r.pc, 2), ..r }) && *m1 == *m0
    }
}

/// RST n: push PC, jump to n * 8.
#[verifier::opaque]
pub open spec fn rst_rel(op: u8, c0: &Cpu, m0: &Mmu, c1: &Cpu, m1: &Mmu) -> bool {
    let r = c0.regs;
    &&& same_control(c0, c1)
    &&& c1.regs == (Registers { pc: (((op / 8) % 8) * 8) as u16, sp: back(r.sp, 2), ..r })
    &&& pushed(m0, m1, r.sp, r.pc)
}

/// ALU A, d8.
#[verifier::opaque]
pub open spec fn alu_imm_rel(op: u8, c0: &Cpu, m0: &Mmu, c1: &Cpu, m1: &Mmu) -> bool {
    let r = c0.regs;
    &&& same_control(c0, c1)
    &&& *m1 == *m0
    &&& c1.regs == alu_spec(Registers { pc: adv(r.pc, 1), ..r }, (op / 8) % 8, mem_read_spec(m0, r.pc))
}

/// Loads and stores of A through the I/O page (0xFF00 + C, 0xFF00 + d8) or an absolute address.
#[verifier::opaque]
pub open spec fn io_page_rel(op: u8, c0: &Cpu, m0: &Mmu, c1: &Cpu, m1: &Mmu) -> bool {
    let r = c0.regs;
    let n1 = mem_read_spec(m0, r.pc);
    let w = word_at(m0, r.pc);
    &&& same_control(c0, c1)
    &&& if op == 0xE2 {
        c1.regs == r && mem_write_rel(m0, m1, (0xFF00 + r.c) as u16, r.a)
    } else if op == 0xF2 {
        *m1 == *m0 && c1.regs == (Registers { a: mem_read_spec(m0, (0xFF00 + r.c) as u16), ..r })
    } else if op == 0xE0 {
        c1.regs == (Registers { pc: adv(r.pc, 1), ..r }) && mem_write_rel(m0, m1, (0xFF00 + n1) as u16, r.a)
    } else if op == 0xF0 {
        *m1 == *m0 && c1.regs == (Registers { pc: adv(r.pc, 1), a: mem_read_spec(m0, (0xFF00 + n1) as u16), ..r })
    } else if op == 0xEA {
        c1.regs == (Registers { pc: adv(r.pc, 2), ..r }) && mem_write_rel(m0, m1, w, r.a)
    } else {
        *m1 == *m0 && c1.regs == (Registers { pc: adv(r.pc, 2), a: mem_read_spec(m0, w), ..r })
    }
}

/// ADD SP, e; LD HL, SP+e; LD SP, HL.
#[verifier::opaque]
pub open spec fn sp_rel(op: u8, c0: &Cpu, m0: &Mmu, c1: &Cpu, m1: &Mmu) -> bool {
    let r = c0.regs;
    let (res, h, c) = sp_offset_spec(r.sp, mem_read_spec(m0, r.pc));
    let r1 = Registers { pc: adv(r.pc, 1), f: flag_byte(false, false, h, c), ..r };
    &&& same_control(c0, c1)
    &&& *m1 == *m0
    &&& c1.regs == if op == 0xE8 {
        Registers { sp: res, ..r1 }
    } else if op == 0xF8 {
        set_rr_spec(r1, 2, res)
    } else {
        Registers { sp: hl_of(r), ..r }
    }
}

/// 0xC0-0xFF except 0xCB: jumps, calls, returns, stack, I/O-page loads, immediate ALU,
/// SP arithmetic and DI / EI. The PC of `c0` already points past the opcode.
pub open spec fn high_block_rel(op: u8, c0: &Cpu, m0: &Mmu, c1: &Cpu, m1: &Mmu) -> bool {
    if op == 0xC0 || op == 0xC8 || op == 0xD0 || op == 0xD8 || op == 0xC9 || op == 0xD9 {
        ret_rel(op, c0, m0, c1, m1)
    } else if is_pop(op) {
        pop_rel(op, c0, m0, c1, m1)
    } else if is_push(op) {
        push_rel(op, c0, m0, c1, m1)
    } else if op == 0xC2 || op == 0xCA || op == 0xD2 || op == 0xDA || op == 0xC3 || op == 0xE9 {
        jp_rel(op, c0, m0, c1, m1)
    } else if op == 0xC4 || op == 0xCC || op == 0xD4 || op == 0xDC || op == 0xCD {
        call_rel(op, c0, m0, c1, m1)
    } else if is_rst(op) {
        rst_rel(op, c0, m0, c1, m1)
    } else if is_alu_imm(op) {
        alu_imm_rel(op, c0, m0, c1, m1)
    } else if op == 0xE0 || op == 0xF0 || op == 0xE2 || op == 0xF2 || op == 0xEA || op == 0xFA {
        io_page_rel(op, c0, m0, c1, m1)
    } else if op == 0xE8 || op == 0xF8 || op == 0xF9 {
        sp_rel(op, c0, m0, c1, m1)
    } else if op == 0xF3 {
        *m1 == *m0 && *c1 == Cpu { ime: false, ime_pending: false, ..*c0 }
    } else if op == 0xFB {
        *m1 == *m0 && *c1 == Cpu { ime_pending: true, ..*c0 }
    } else {
        // The unused opcodes do nothing.
        *c1 == *c0 && *m1 == *m0
    }
}

/// The effect of executing opcode `op` (already fetched) from CPU `c0` and bus `m0`.
pub open spec fn exec_rel(op: u8, c0: &Cpu, m0: &Mmu, c1: &Cpu, m1: &Mmu) -> bool {
    if op == 0x76 {
        *m1 == *m0 && *c1 == Cpu { halted: true, ..*c0 }
    } else if 0x40 <= op < 0x80 {
        ld_block_rel(op, c0, m0, c1, m1)
    } else if 0x80 <= op < 0xC0 {
        alu_block_rel(op, c0, m0, c1, m1)
    } else if op < 0x40 {
        low_block_rel(op, c0, m0, c1, m1)
    } else if op == 0xCB {
        cb_rel(
            mem_read_spec(m0, c0.regs.pc),
            &with_regs(c0, Registers { pc: adv(c0.regs.pc, 1), ..c0.regs }),
            m0,
            c1,
            m1,
        )
    } else {
        high_block_rel(op, c0, m0, c1, m1)
    }
}

/// Cycles taken by opcode `op`; `cb` is the byte after it (the CB-prefixed opcode) and
/// `f` the flags before it.
pub open spec fn cycles_spec(op: u8, cb: u8, f: u8) -> u32 {
    let y = (op / 8) % 8;
    let z = op % 8;
    if op == 0x76 {
        4
    } else if 0x40 <= op < 0x80 {
        if z == 6 || y == 6 { 8 } else { 4 }
    } else if 0x80 <= op < 0xC0 {
        if z == 6 { 8 } else { 4 }
    } else if is_inc8(op) || is_dec8(op) {
        if op == 0x34 || op == 0x35 { 12 } else { 4 }
    } else if is_ld8(op) {
        if op == 0x36 { 12 } else { 8 }
    } else if is_ld16(op) {
        12
    } else if is_inc16(op) || is_dec16(op) || is_add_hl(op) || op == 0x02 || op == 0x12 || op == 0x22
        || op == 0x32 || op == 0x0A || op == 0x1A || op == 0x2A || op == 0x3A {
        8
    } else if op == 0x08 {
        20
    } else if op == 0x18 {
        12
    } else if op == 0x20 || op == 0x28 || op == 0x30 || op == 0x38 {
        if cond_spec(f, (y - 4) as u8) { 12 } else { 8 }
    } else if op < 0x40 {
        4
    } else if op == 0xCB {
        if cb % 8 == 6 { 16 } else { 8 }
    } else if op == 0xC0 || op == 0xC8 || op == 0xD0 || op == 0xD8 {
        if cond_spec(f, y) { 20 } else { 8 }
    } else if is_pop(op) {
        12
    } else if op == 0xC2 || op == 0xCA || op == 0xD2 || op == 0xDA {
        if cond_spec(f, y) { 16 } else { 12 }
    } else if op == 0xC4 || op == 0xCC || op == 0xD4 || op == 0xDC {
        if cond_spec(f, y) { 24 } else { 12 }
    } else if op == 0xC3 || is_push(op) || is_rst(op) || op == 0xC9 || op == 0xD9 || op == 0xEA || op == 0xFA
        || op == 0xE8 {
        16
    } else if is_alu_imm(op) || op == 0xE2 || op == 0xF2 || op == 0xF9 {
        8
    } else if op == 0xE0 || op == 0xF0 || op == 0xF8 {
        12
    } else if op == 0xCD {
        24
    } else {
        4
    }
}

// ---------------------------------------------------------------------------
// Execution
// ---------------------------------------------------------------------------

impl Cpu {
    /// Reads 8-bit operand `idx`.
    fn get_r8(&self, idx: u8, mmu: &Mmu) -> (v: u8)
        requires
            idx < 8,
            mmu.wf(),
        ensures
            v == operand_spec(self.regs, idx, mmu),
    {
        if idx == 0 {
            self.regs.b
        } else if idx == 1 {
            self.regs.c
        } else if idx == 2 {
            self.regs.d
        } else if idx == 3 {
            self.regs.e
        } else if idx == 4 {
            self.regs.h
        } else if idx == 5 {
            self.regs.l
        } else if idx == 6 {
            mmu.read_byte(self.regs.hl())
        } else {
            self.regs.a
        }
    }

    /// Stores `v` into 8-bit operand `idx`.
    fn set_r8(&mut self, idx: u8, v: u8, mmu: &mut Mmu)
        requires
            idx < 8,
            old(mmu).wf(),
        ensures
            final(mmu).wf(),
            bus_frame(old(mmu), final(mmu)),
            store_rel(old(self).regs, final(self).regs, old(mmu), final(mmu), idx, v),
            same_control(old(self), final(self)),
    {
        if idx == 0 {
            self.regs.b = v;
        } else if idx == 1 {
            self.regs.c = v;
        } else if idx == 2 {
            self.regs.d = v;
        } else if idx == 3 {
            self.regs.e = v;
        } else if idx == 4 {
            self.regs.h = v;
        } else if idx == 5 {
            self.regs.l = v;
        } else if idx == 6 {
            let hl = self.regs.hl();
            mmu.write_byte(hl, v);
        } else {
            self.regs.a = v;
        }
    }

    /// Reads register pair `k` (BC, DE, HL, SP).
    fn get_rr(&self, k: u8) -> (v: u16)
        ensures
            v == rr_spec(self.regs, k),
    {
        if k == 0 {
            self.regs.bc()
        } else if k == 1 {
            self.regs.de()
        } else if k == 2 {
            self.regs.hl()
        } else {
            self.regs.sp
        }
    }

    /// Sets register pair `k` (BC, DE, HL, SP).
    fn set_rr(&mut self, k: u8, v: u16)
        ensures
            final(self).regs == set_rr_spec(old(self).regs, k, v),
            same_control(old(self), final(self)),
    {
        if k == 0 {
            self.regs.set_bc(v);
        } else if k == 1 {
            self.regs.set_de(v);
        } else if k == 2 {
            self.regs.set_hl(v);
        } else {
            self.regs.sp = v;
        }
    }

    /// ALU operation `kind` (ADD, ADC, SUB, SBC, AND, XOR, OR, CP) of A with `v`.
    fn alu(&mut self, kind: u8, v: u8)
        requires
            kind < 8,
        ensures
            final(self).regs == alu_spec(old(self).regs, kind, v),
            same_control(old(self), final(self)),
    {
        if kind == 0 {
            self.add_a(v, false);
        } else if kind == 1 {
            self.add_a(v, true);
        } else if kind == 2 {
            self.sub_a(v, false);
        } else if kind == 3 {
            self.sub_a(v, true);
        } else if kind == 4 {
            self.and_a(v);
        } else if kind == 5 {
            self.xor_a(v);
        } else if kind == 6 {
            self.or_a(v);
        } else {
            self.cp_a(v);
        }
    }

    /// Reads the byte at PC and advances PC.
    fn fetch_byte(&mut self, mmu: &Mmu) -> (b: u8)
        requires
            mmu.wf(),
        ensures
            b == mem_read_spec(mmu, old(self).regs.pc),
            final(self).regs == (Registers { pc: adv(old(self).regs.pc, 1), ..old(self).regs }),
            same_control(old(self), final(self)),
    {
        let b = mmu.read_byte(self.regs.pc);
        self.regs.pc = self.regs.pc.wrapping_add(1);
        b
    }

    /// Reads the 16-bit value at PC (low byte first) and advances PC by 2.
    fn fetch_word(&mut self, mmu: &Mmu) -> (w: u16)
        requires
            mmu.wf(),
        ensures
            w == word_at(mmu, old(self).regs.pc),
            final(self).regs == (Registers { pc: adv(old(self).regs.pc, 2), ..old(self).regs }),
            same_control(old(self), final(self)),
    {
        let lo = self.fetch_byte(mmu);
        let hi = self.fetch_byte(mmu);
        (hi as u16) * 256 + lo as u16
    }

    /// Pushes `val`: the high byte at SP-1, the low byte at SP-2.
    fn push_word(&mut self, mmu: &mut Mmu, val: u16)
        requires
            old(mmu).wf(),
        ensures
            final(mmu).wf(),
            bus_frame(old(mmu), final(mmu)),
            pushed(old(mmu), final(mmu), old(self).regs.sp, val),
            final(self).regs == (Registers { sp: back(old(self).regs.sp, 2), ..old(self).regs }),
            same_control(old(self), final(self)),
    {
        self.regs.sp = self.regs.sp.wrapping_sub(1);
        mmu.write_byte(self.regs.sp, (val / 256) as u8);
        let ghost mid = *mmu;
        self.regs.sp = self.regs.sp.wrapping_sub(1);
        mmu.write_byte(self.regs.sp, (val % 256) as u8);
        assert(push_steps(old(mmu), mid, mmu, old(self).regs.sp, val));
    }

    /// Pops a 16-bit value from SP (low byte first).
    fn pop_word(&mut self, mmu: &Mmu) -> (w: u16)
        requires
            mmu.wf(),
        ensures
            w == word_at(mmu, old(self).regs.sp),
            final(self).regs == (Registers { sp: adv(old(self).regs.sp, 2), ..old(self).regs }),
            same_control(old(self), final(self)),
    {
        let lo = mmu.read_byte(self.regs.sp);
        self.regs.sp = self.regs.sp.wrapping_add(1);
        let hi = mmu.read_byte(self.regs.sp);
        self.regs.sp = self.regs.sp.wrapping_add(1);
        (hi as u16) * 256 + lo as u16
    }
}

impl Cpu {
    /// LD r, r' (0x40-0x7F except HALT).
    fn exec_ld(&mut self, op: u8, mmu: &mut Mmu) -> (cycles: u32)
        requires
            0x40 <= op < 0x80,
            op != 0x76,
            old(mmu).wf(),
        ensures
            final(mmu).wf(),
            bus_frame(old(mmu), final(mmu)),
            ld_block_rel(op, old(self), old(mmu), final(self), final(mmu)),
            cycles == cycles_spec(op, 0, old(self).regs.f),
    {
        let src = op % 8;
        let dst = (op / 8) % 8;
        let v = self.get_r8(src, mmu);
        self.set_r8(dst, v, mmu);
        if src == 6 || dst == 6 {
            8
        } else {
            4
        }
    }

    /// ALU A, r (0x80-0xBF).
    fn exec_alu(&mut self, op: u8, mmu: &Mmu) -> (cycles: u32)
        requires
            0x80 <= op < 0xC0,
            mmu.wf(),
        ensures
            alu_block_rel(op, old(self), mmu, final(self), mmu),
            cycles == cycles_spec(op, 0, old(self).regs.f),
    {
        let src = op % 8;
        let v = self.get_r8(src, mmu);
        self.alu((op / 8) % 8, v);
        if src == 6 {
            8
        } else {
            4
        }
    }

    /// A CB-prefixed instruction.
    fn execute_cb(&mut self, op: u8, mmu: &mut Mmu) -> (cycles: u32)
        requires
            old(mmu).wf(),
        ensures
            final(mmu).wf(),
            bus_frame(old(mmu), final(mmu)),
            cb_rel(op, old(self), old(mmu), final(self), final(mmu)),
            cycles == (if op % 8 == 6 { 16u32 } else { 8u32 }),
    {
        let reg_idx = op % 8;
        let bit_num = (op / 8) % 8;
        let val = self.get_r8(reg_idx, mmu);
        if op < 0x40 {
            let result = if bit_num == 0 {
                self.op_rlc(val)
            } else if bit_num == 1 {
                self.op_rrc(val)
            } else if bit_num == 2 {
                self.op_rl(val)
            } else if bit_num == 3 {
                self.op_rr(val)
            } else if bit_num == 4 {
                self.op_sla(val)
            } else if bit_num == 5 {
                self.op_sra(val)
            } else if bit_num == 6 {
                self.op_swap(val)
            } else {
                self.op_srl(val)
            };
            self.set_r8(reg_idx, result, mmu);
        } else if op < 0x80 {
            let z = !test_bit(val, bit_num);
            let c = self.regs.flag_c();
            self.regs.set_flags(z, false, true, c);
        } else if op < 0xC0 {
            let result = with_bit_cleared(val, bit_num);
            self.set_r8(reg_idx, result, mmu);
        } else {
            let result = with_bit_set(val, bit_num);
            self.set_r8(reg_idx, result, mmu);
        }
        if reg_idx == 6 {
            16
        } else {
            8
        }
    }
}

/// The 16-bit two's-complement extension of an offset byte.
pub open spec fn rel_spec(e: u8) -> u16 {
    if e >= 128 {
        (e + 0xFF00) as u16
    } else {
        e as u16
    }
}

impl Cpu {
    /// Condition `cc` (NZ, Z, NC, C).
    fn cond(&self, cc: u8) -> (b: bool)
        ensures
            b == cond_spec(self.regs.f, cc),
    {
        if cc == 0 {
            !self.regs.flag_z()
        } else if cc == 1 {
            self.regs.flag_z()
        } else if cc == 2 {
            !self.regs.flag_c()
        } else {
            self.regs.flag_c()
        }
    }

    /// Jumps relative to PC by the signed offset `e`.
    fn jump_relative(&mut self, e: u8)
        ensures
            final(self).regs == (Registers {
                pc: adv(old(self).regs.pc, e + (if e >= 128 { 0xFF00int } else { 0 })),
                ..old(self).regs
            }),
            same_control(old(self), final(self)),
    {
        let off: u16 = if e >= 128 {
            e as u16 + 0xFF00
        } else {
            e as u16
        };
        self.regs.pc = self.regs.pc.wrapping_add(off);
    }

    /// 0x00-0x3F.
    fn exec_low(&mut self, op: u8, mmu: &mut Mmu) -> (cycles: u32)
        requires
            op < 0x40,
            old(mmu).wf(),
        ensures
            final(mmu).wf(),
            bus_frame(old(mmu), final(mmu)),
            low_block_rel(op, old(self), old(mmu), final(self), final(mmu)),
            cycles == cycles_spec(op, 0, old(self).regs.f),
    {
        match op {
            0x04 | 0x0C | 0x14 | 0x1C | 0x24 | 0x2C | 0x34 | 0x3C | 0x05 | 0x0D | 0x15 | 0x1D | 0x25
            | 0x2D | 0x35 | 0x3D | 0x06 | 0x0E | 0x16 | 0x1E | 0x26 | 0x2E | 0x36 | 0x3E => self.exec_low_r8(
                op,
                mmu,
            ),
            0x01 | 0x11 | 0x21 | 0x31 | 0x03 | 0x13 | 0x23 | 0x33 | 0x0B | 0x1B | 0x2B | 0x3B | 0x09
            | 0x19 | 0x29 | 0x39 => self.exec_low_rr(op, mmu),
            0x02 | 0x12 | 0x22 | 0x32 | 0x0A | 0x1A | 0x2A | 0x3A | 0x08 => self.exec_low_mem(op, mmu),
            _ => self.exec_low_misc(op, mmu),
        }
    }

    /// INC r, DEC r, LD r, d8.
    fn exec_low_r8(&mut self, op: u8, mmu: &mut Mmu) -> (cycles: u32)
        requires
            is_inc8(op) || is_dec8(op) || is_ld8(op),
            old(mmu).wf(),
        ensures
            final(mmu).wf(),
            bus_frame(old(mmu), final(mmu)),
            low_block_rel(op, old(self), old(mmu), final(self), final(mmu)),
            cycles == cycles_spec(op, 0, old(self).regs.f),
    {
        reveal(inc_dec8_rel);
        reveal(ld8_rel);
        let y = (op / 8) % 8;
        if op % 8 == 4 {
            let v = self.get_r8(y, mmu);
            let r = self.inc8(v);
            self.set_r8(y, r, mmu);
            if y == 6 {
                12
            } else {
                4
            }
        } else if op % 8 == 5 {
            let v = self.get_r8(y, mmu);
            let r = self.dec8(v);
            self.set_r8(y, r, mmu);
            if y == 6 {
                12
            } else {
                4
            }
        } else {
            let v = self.fetch_byte(mmu);
            self.set_r8(y, v, mmu);
            if y == 6 {
                12
            } else {
                8
            }
        }
    }

    /// LD rr, d16; INC rr; DEC rr; ADD HL, rr.
    /// LD rr, d16; INC rr; DEC rr; ADD HL, rr.
    fn exec_low_rr(&mut self, op: u8, mmu: &mut Mmu) -> (cycles: u32)
        requires
            is_ld16(op) || is_inc16(op) || is_dec16(op) || is_add_hl(op),
            old(mmu).wf(),
        ensures
            final(mmu).wf(),
            bus_frame(old(mmu), final(mmu)),
            low_block_rel(op, old(self), old(mmu), final(self), final(mmu)),
            cycles == cycles_spec(op, 0, old(self).regs.f),
    {
        let k = op / 16;
        if op == 0x01 || op == 0x11 || op == 0x21 || op == 0x31 {
            reveal(ld16_rel);
            let w = self.fetch_word(mmu);
            self.set_rr(k, w);
            12
        } else if op == 0x09 || op == 0x19 || op == 0x29 || op == 0x39 {
            reveal(add_hl_rel);
            let v = self.get_rr(k);
            self.add_hl(v);
            8
        } else {
            self.exec_inc_dec16(op);
            8
        }
    }

    /// INC rr; DEC rr.
    #[verifier::spinoff_prover]
    #[verifier::rlimit(60)]
    fn exec_inc_dec16(&mut self, op: u8)
        requires
            is_inc16(op) || is_dec16(op),
        ensures
            forall|m: &Mmu| inc_dec16_rel(op, old(self), m, final(self), m),
    {
        reveal(inc_dec16_rel);
        let k = op / 16;
        let v = if op % 16 == 3 {
            self.get_rr(k).wrapping_add(1)
        } else {
            self.get_rr(k).wrapping_sub(1)
        };
        self.set_rr(k, v);
    }

    /// LD (rr), A; LD A, (rr); LD (a16), SP.
    fn exec_low_mem(&mut self, op: u8, mmu: &mut Mmu) -> (cycles: u32)
        requires
            op == 0x02 || op == 0x12 || op == 0x22 || op == 0x32 || op == 0x0A || op == 0x1A || op == 0x2A
                || op == 0x3A || op == 0x08,
            old(mmu).wf(),
        ensures
            final(mmu).wf(),
            bus_frame(old(mmu), final(mmu)),
            low_block_rel(op, old(self), old(mmu), final(self), final(mmu)),
            cycles == cycles_spec(op, 0, old(self).regs.f),
    {
        if op == 0x02 || op == 0x12 || op == 0x22 || op == 0x32 {
            self.exec_store_a(op, mmu)
        } else if op == 0x08 {
            reveal(store_sp_rel);
            let addr = self.fetch_word(mmu);
            mmu.write_word(addr, self.regs.sp);
            20
        } else {
            self.exec_load_a(op, mmu)
        }
    }

    /// LD (BC), A; LD (DE), A; LD (HL+), A; LD (HL-), A.
    #[verifier::spinoff_prover]
    #[verifier::rlimit(60)]
    fn exec_store_a(&mut self, op: u8, mmu: &mut Mmu) -> (cycles: u32)
        requires
            op == 0x02 || op == 0x12 || op == 0x22 || op == 0x32,
            old(mmu).wf(),
        ensures
            final(mmu).wf(),
            bus_frame(old(mmu), final(mmu)),
            low_block_rel(op, old(self), old(mmu), final(self), final(mmu)),
            cycles == cycles_spec(op, 0, old(self).regs.f),
    {
        reveal(store_a_rel);
        if op == 0x02 || op == 0x12 {
            let addr = self.get_rr(op / 16);
            mmu.write_byte(addr, self.regs.a);
        } else {
            let hl = self.regs.hl();
            mmu.write_byte(hl, self.regs.a);
            let next = if op == 0x22 {
                hl.wrapping_add(1)
            } else {
                hl.wrapping_sub(1)
            };
            self.regs.set_hl(next);
        }
        8
    }

    /// LD A, (BC); LD A, (DE); LD A, (HL+); LD A, (HL-).
    fn exec_load_a(&mut self, op: u8, mmu: &Mmu) -> (cycles: u32)
        requires
            op == 0x0A || op == 0x1A || op == 0x2A || op == 0x3A,
            mmu.wf(),
        ensures
            low_block_rel(op, old(self), mmu, final(self), mmu),
            cycles == cycles_spec(op, 0, old(self).regs.f),
    {
        reveal(load_a_rel);
        if op == 0x0A || op == 0x1A {
            let addr = self.get_rr(op / 16);
            self.regs.a = mmu.read_byte(addr);
        } else {
            let hl = self.regs.hl();
            self.regs.a = mmu.read_byte(hl);
            let next = if op == 0x2A {
                hl.wrapping_add(1)
            } else {
                hl.wrapping_sub(1)
            };
            self.regs.set_hl(next);
        }
        8
    }

    #[verifier::spinoff_prover]
    #[verifier::rlimit(60)]
    fn exec_low_misc(&mut self, op: u8, mmu: &mut Mmu) -> (cycles: u32)
        requires
            op < 0x40,
            !(is_inc8(op) || is_dec8(op) || is_ld8(op)),
            !(is_ld16(op) || is_inc16(op) || is_dec16(op) || is_add_hl(op)),
            !(op == 0x02 || op == 0x12 || op == 0x22 || op == 0x32 || op == 0x0A || op == 0x1A || op == 0x2A
                || op == 0x3A || op == 0x08),
            old(mmu).wf(),
        ensures
            final(mmu).wf(),
            bus_frame(old(mmu), final(mmu)),
            low_block_rel(op, old(self), old(mmu), final(self), final(mmu)),
            cycles == cycles_spec(op, 0, old(self).regs.f),
    {
        reveal(rot_a_rel);
        reveal(jr_rel);
        reveal(flag_ops_rel);
        let y = (op / 8) % 8;
        if op == 0x07 {
            self.rlca();
            4
        } else if op == 0x0F {
            self.rrca();
            4
        } else if op == 0x17 {
            self.rla();
            4
        } else if op == 0x1F {
            self.rra();
            4
        } else if op == 0x10 {
            self.stopped = true;
            4
        } else if op == 0x18 {
            let e = self.fetch_byte(mmu);
            self.jump_relative(e);
            12
        } else if op == 0x20 || op == 0x28 || op == 0x30 || op == 0x38 {
            let e = self.fetch_byte(mmu);
            if self.cond(y - 4) {
                self.jump_relative(e);
                12
            } else {
                8
            }
        } else if op == 0x27 {
            self.daa();
            4
        } else if op == 0x2F {
            self.regs.a = 255 - self.regs.a;
            self.regs.f = self.regs.f | 0x60;
            4
        } else if op == 0x37 {
            self.regs.f = (self.regs.f & 0x80) | 0x10;
            4
        } else if op == 0x3F {
            let c = self.regs.flag_c();
            self.regs.f = (self.regs.f & 0x80) | (if c {
                0u8
            } else {
                0x10u8
            });
            4
        } else {
            4
        }
    }
}

impl Cpu {
    /// 0xC0-0xFF except 0xCB.
    fn exec_high(&mut self, op: u8, mmu: &mut Mmu) -> (cycles: u32)
        requires
            op >= 0xC0,
            op != 0xCB,
            old(mmu).wf(),
        ensures
            final(mmu).wf(),
            bus_frame(old(mmu), final(mmu)),
            high_block_rel(op, old(self), old(mmu), final(self), final(mmu)),
            cycles == cycles_spec(op, 0, old(self).regs.f),
    {
        match op {
            0xC0 | 0xC8 | 0xD0 | 0xD8 | 0xC9 | 0xD9 => self.exec_ret(op, mmu),
            0xC1 | 0xD1 | 0xE1 | 0xF1 => {
                reveal(pop_rel);
                let v = self.pop_word(mmu);
                let k = (op / 16) % 4;
                if k == 3 {
                    self.regs.set_af(v);
                } else {
                    self.set_rr(k, v);
                }
                12
            },
            0xC5 | 0xD5 | 0xE5 | 0xF5 => {
                reveal(push_rel);
                let k = (op / 16) % 4;
                let v = if k == 3 {
                    self.regs.af()
                } else {
                    self.get_rr(k)
                };
                self.push_word(mmu, v);
                16
            },
            0xC2 | 0xCA | 0xD2 | 0xDA | 0xC3 | 0xE9 => self.exec_jp(op, mmu),
            0xC4 | 0xCC | 0xD4 | 0xDC | 0xCD => self.exec_call(op, mmu),
            0xC7 | 0xCF | 0xD7 | 0xDF | 0xE7 | 0xEF | 0xF7 | 0xFF => {
                reveal(rst_rel);
                let pc = self.regs.pc;
                self.push_word(mmu, pc);
                self.regs.pc = ((op / 8) % 8) as u16 * 8;
                16
            },
            0xC6 | 0xCE | 0xD6 | 0xDE | 0xE6 | 0xEE | 0xF6 | 0xFE => {
                reveal(alu_imm_rel);
                let v = self.fetch_byte(mmu);
                self.alu((op / 8) % 8, v);
                8
            },
            0xE0 | 0xF0 | 0xE2 | 0xF2 | 0xEA | 0xFA => self.exec_io_page(op, mmu),
            0xE8 | 0xF8 | 0xF9 => self.exec_sp(op, mmu),
            0xF3 => {
                self.ime = false;
                self.ime_pending = false;
                4
            },
            0xFB => {
                self.ime_pending = true;
                4
            },
            _ => 4,
        }
    }

    /// RET cc, RET, RETI.
    fn exec_ret(&mut self, op: u8, mmu: &Mmu) -> (cycles: u32)
        requires
            op == 0xC0 || op == 0xC8 || op == 0xD0 || op == 0xD8 || op == 0xC9 || op == 0xD9,
            mmu.wf(),
        ensures
            ret_rel(op, old(self), mmu, final(self), mmu),
            cycles == cycles_spec(op, 0, old(self).regs.f),
    {
        reveal(ret_rel);
        if op == 0xC9 {
            self.regs.pc = self.pop_word(mmu);
            16
        } else if op == 0xD9 {
            self.regs.pc = self.pop_word(mmu);
            self.ime = true;
            16
        } else if self.cond((op / 8) % 8) {
            self.regs.pc = self.pop_word(mmu);
            20
        } else {
            8
        }
    }

    /// JP cc, a16; JP a16; JP HL.
    fn exec_jp(&mut self, op: u8, mmu: &Mmu) -> (cycles: u32)
        requires
            op == 0xC2 || op == 0xCA || op == 0xD2 || op == 0xDA || op == 0xC3 || op == 0xE9,
            mmu.wf(),
        ensures
            jp_rel(op, old(self), mmu, final(self), mmu),
            cycles == cycles_spec(op, 0, old(self).regs.f),
    {
        reveal(jp_rel);
        if op == 0xE9 {
            self.regs.pc = self.regs.hl();
            4
        } else if op == 0xC3 {
            self.regs.pc = self.fetch_word(mmu);
            16
        } else {
            let a = self.fetch_word(mmu);
            if self.cond((op / 8) % 8) {
                self.regs.pc = a;
                16
            } else {
                12
            }
        }
    }

    /// CALL cc, a16; CALL a16.
    fn exec_call(&mut self, op: u8, mmu: &mut Mmu) -> (cycles: u32)
        requires
            op == 0xC4 || op == 0xCC || op == 0xD4 || op == 0xDC || op == 0xCD,
            old(mmu).wf(),
        ensures
            final(mmu).wf(),
            bus_frame(old(mmu), final(mmu)),
            call_rel(op, old(self), old(mmu), final(self), final(mmu)),
            cycles == cycles_spec(op, 0, old(self).regs.f),
    {
        reveal(call_rel);
        let a = self.fetch_word(mmu);
        if op == 0xCD || self.cond((op / 8) % 8) {
            let pc = self.regs.pc;
            self.push_word(mmu, pc);
            self.regs.pc = a;
            24
        } else {
            12
        }
    }

    /// LDH (C), A; LDH A, (C); LDH (a8), A; LDH A, (a8); LD (a16), A; LD A, (a16).
    fn exec_io_page(&mut self, op: u8, mmu: &mut Mmu) -> (cycles: u32)
        requires
            op == 0xE0 || op == 0xF0 || op == 0xE2 || op == 0xF2 || op == 0xEA || op == 0xFA,
            old(mmu).wf(),
        ensures
            final(mmu).wf(),
            bus_frame(old(mmu), final(mmu)),
            io_page_rel(op, old(self), old(mmu), final(self), final(mmu)),
            cycles == cycles_spec(op, 0, old(self).regs.f),
    {
        reveal(io_page_rel);
        if op == 0xE2 {
            let addr = 0xFF00 + self.regs.c as u16;
            mmu.write_byte(addr, self.regs.a);
            8
        } else if op == 0xF2 {
            let addr = 0xFF00 + self.regs.c as u16;
            self.regs.a = mmu.read_byte(addr);
            8
        } else if op == 0xE0 {
            let offset = self.fetch_byte(mmu) as u16;
            mmu.write_byte(0xFF00 + offset, self.regs.a);
            12
        } else if op == 0xF0 {
            let offset = self.fetch_byte(mmu) as u16;
            self.regs.a = mmu.read_byte(0xFF00 + offset);
            12
        } else if op == 0xEA {
            let addr = self.fetch_word(mmu);
            mmu.write_byte(addr, self.regs.a);
            16
        } else {
            let addr = self.fetch_word(mmu);
            self.regs.a = mmu.read_byte(addr);
            16
        }
    }

    /// ADD SP, e; LD HL, SP+e; LD SP, HL.
    fn exec_sp(&mut self, op: u8, mmu: &Mmu) -> (cycles: u32)
        requires
            op == 0xE8 || op == 0xF8 || op == 0xF9,
            mmu.wf(),
        ensures
            sp_rel(op, old(self), mmu, final(self), mmu),
            cycles == cycles_spec(op, 0, old(self).regs.f),
    {
        reveal(sp_rel);
        if op == 0xF9 {
            self.regs.sp = self.regs.hl();
            return 8;
        }
        let e = self.fetch_byte(mmu);
        let sp = self.regs.sp;
        let off: u16 = if e >= 128 {
            e as u16 + 0xFF00
        } else {
            e as u16
        };
        let result = sp.wrapping_add(off);
        let h = sp % 16 + (e % 16) as u16 > 15;
        let c = sp % 256 + e as u16 > 255;
        self.regs.set_flags(false, false, h, c);
        if op == 0xE8 {
            self.regs.sp = result;
            16
        } else {
            self.regs.set_hl(result);
            12
        }
    }

    /// Executes opcode `op`, already fetched; returns the cycles taken.
    fn execute(&mut self, op: u8, mmu: &mut Mmu) -> (cycles: u32)
        requires
            old(mmu).wf(),
        ensures
            final(mmu).wf(),
            bus_frame(old(mmu), final(mmu)),
            exec_rel(op, old(self), old(mmu), final(self), final(mmu)),
            cycles == cycles_spec(op, mem_read_spec(old(mmu), old(self).regs.pc), old(self).regs.f),
    {
        if op == 0x76 {
            self.halted = true;
            4
        } else if op >= 0x40 && op < 0x80 {
            self.exec_ld(op, mmu)
        } else if op >= 0x80 && op < 0xC0 {
            self.exec_alu(op, mmu)
        } else if op < 0x40 {
            self.exec_low(op, mmu)
        } else if op == 0xCB {
            let op2 = self.fetch_byte(mmu);
            self.execute_cb(op2, mmu)
        } else {
            self.exec_high(op, mmu)
        }
    }
}

/// Interrupts both requested (IF) and enabled (IE), among the five sources.
pub open spec fn pending_spec(m: &Mmu) -> u8 {
    (m.interrupt_flag & m.interrupt_enable) % 32
}

/// The highest-priority (lowest) set bit of a non-zero pending mask.
pub open spec fn lowest_bit(p: u8) -> u8 {
    if bit_set(p, 0) {
        0
    } else if bit_set(p, 1) {
        1
    } else if bit_set(p, 2) {
        2
    } else if bit_set(p, 3) {
        3
    } else {
        4
    }
}

/// Dispatch of interrupt `b`: its IF bit cleared, PC pushed, PC at its vector 0x40 + 8 * b.
pub open spec fn dispatch_rel(b: u8, c0: &Cpu, m0: &Mmu, c1: &Cpu, m1: &Mmu) -> bool {
    let r = c0.regs;
    &&& *c1 == Cpu {
        regs: Registers { pc: (0x40 + 8 * b) as u16, sp: back(r.sp, 2), ..r },
        ime: false,
        halted: false,
        ..*c0
    }
    &&& pushed(&Mmu { interrupt_flag: clear_bit(m0.interrupt_flag, b), ..*m0 }, m1, r.sp, r.pc)
}

/// The CPU a step starts from: IME set if EI was pending, PC past the opcode.
pub open spec fn step_start(c: &Cpu) -> Cpu {
    Cpu {
        regs: Registers { pc: adv(c.regs.pc, 1), ..c.regs },
        ime: c.ime || c.ime_pending,
        ime_pending: false,
        ..*c
    }
}

impl Cpu {
    /// Serves the highest-priority pending interrupt; returns the cycles taken (0 if none).
    ///
    /// A pending interrupt wakes a halted CPU even when IME is clear.
    pub fn handle_interrupts(&mut self, mmu: &mut Mmu) -> (cycles: u32)
        requires
            old(mmu).wf(),
        ensures
            final(mmu).wf(),
            bus_frame(old(mmu), final(mmu)),
            pending_spec(old(mmu)) == 0 ==> cycles == 0 && *final(self) == *old(self) && *final(mmu)
                == *old(mmu),
            pending_spec(old(mmu)) != 0 && !old(self).ime ==> cycles == 0 && *final(self) == (Cpu {
                halted: false,
                ..*old(self)
            }) && *final(mmu) == *old(mmu),
            pending_spec(old(mmu)) != 0 && old(self).ime ==> cycles == 20 && dispatch_rel(
                lowest_bit(pending_spec(old(mmu))),
                old(self),
                old(mmu),
                final(self),
                final(mmu),
            ),
    {
        let pending = (mmu.interrupt_flag & mmu.interrupt_enable) % 32;
        if pending == 0 {
            return 0;
        }
        if self.halted {
            self.halted = false;
        }
        if !self.ime {
            return 0;
        }
        self.ime = false;
        let bit: u8 = if test_bit(pending, 0) {
            0
        } else if test_bit(pending, 1) {
            1
        } else if test_bit(pending, 2) {
            2
        } else if test_bit(pending, 3) {
            3
        } else {
            4
        };
        mmu.interrupt_flag = with_bit_cleared(mmu.interrupt_flag, bit);
        let pc = self.regs.pc;
        self.push_word(mmu, pc);
        self.regs.pc = 0x40 + 8 * bit as u16;
        20
    }

    /// Executes one instruction (or idles 4 cycles while halted); returns the cycles taken.
    ///
    /// A pending EI takes effect first.
    pub fn step(&mut self, mmu: &mut Mmu) -> (cycles: u32)
        requires
            old(mmu).wf(),
        ensures
            final(mmu).wf(),
            bus_frame(old(mmu), final(mmu)),
            old(self).halted ==> cycles == 4 && *final(mmu) == *old(mmu) && *final(self) == (Cpu {
                ime: old(self).ime || old(self).ime_pending,
                ime_pending: false,
                ..*old(self)
            }),
            !old(self).halted ==> {
                let op = mem_read_spec(old(mmu), old(self).regs.pc);
                &&& exec_rel(op, &step_start(old(self)), old(mmu), final(self), final(mmu))
                &&& cycles == cycles_spec(
                    op,
                    mem_read_spec(old(mmu), adv(old(self).regs.pc, 1)),
                    old(self).regs.f,
                )
            },
    {
        if self.ime_pending {
            self.ime = true;
            self.ime_pending = false;
        }
        if self.halted {
            return 4;
        }
        let opcode = self.fetch_byte(mmu);
        self.execute(opcode, mmu)
    }
}

/// A bit of the pending mask is set exactly when the interrupt is both requested and enabled.
proof fn lemma_pending_bits(f: u8, e: u8)
    ensures
        ((f & e) % 32) % 2 == 1 <==> f % 2 == 1 && e % 2 == 1,
        ((f & e) % 32) / 2 % 2 == 1 <==> f / 2 % 2 == 1 && e / 2 % 2 == 1,
        ((f & e) % 32) / 4 % 2 == 1 <==> f / 4 % 2 == 1 && e / 4 % 2 == 1,
        ((f & e) % 32) / 8 % 2 == 1 <==> f / 8 % 2 == 1 && e / 8 % 2 == 1,
        ((f & e) % 32) / 16 % 2 == 1 <==> f / 16 % 2 == 1 && e / 16 % 2 == 1,
        (f & e) % 32 != 0 ==> ((f & e) % 32) % 2 == 1 || ((f & e) % 32) / 2 % 2 == 1 || ((f & e) % 32) / 4
            % 2 == 1 || ((f & e) % 32) / 8 % 2 == 1 || ((f & e) % 32) / 16 % 2 == 1,
{
    assert(((f & e) % 32) % 2 == 1 <==> f % 2 == 1 && e % 2 == 1) by (bit_vector);
    assert(((f & e) % 32) / 2 % 2 == 1 <==> f / 2 % 2 == 1 && e / 2 % 2 == 1) by (bit_vector);
    assert(((f & e) % 32) / 4 % 2 == 1 <==> f / 4 % 2 == 1 && e / 4 % 2 == 1) by (bit_vector);
    assert(((f & e) % 32) / 8 % 2 == 1 <==> f / 8 % 2 == 1 && e / 8 % 2 == 1) by (bit_vector);
    assert(((f & e) % 32) / 16 % 2 == 1 <==> f / 16 % 2 == 1 && e / 16 % 2 == 1) by (bit_vector);
}

/// The interrupt `handle_interrupts` serves is one that is both requested (IF) and enabled
/// (IE), and no higher-priority (lower-numbered) interrupt is both.
pub proof fn lemma_served_interrupt(flag: u8, enable: u8)
    requires
        (flag & enable) % 32 != 0,
    ensures
        lowest_bit((flag & enable) % 32) < 5,
        bit_set(flag, lowest_bit((flag & enable) % 32)),
        bit_set(enable, lowest_bit((flag & enable) % 32)),
        forall|j: u8| j < lowest_bit((flag & enable) % 32) ==> !(bit_set(flag, j) && bit_set(enable, j)),
{
    lemma_pending_bits(flag, enable);
    let p = (flag & enable) % 32;
    assert(crate::bits::pow2_8(0) == 1 && crate::bits::pow2_8(1) == 2 && crate::bits::pow2_8(2) == 4
        && crate::bits::pow2_8(3) == 8 && crate::bits::pow2_8(4) == 16);
    assert(bit_set(p, 0) <==> p % 2 == 1);
    assert(bit_set(flag, 0) <==> flag % 2 == 1);
    assert(bit_set(enable, 0) <==> enable % 2 == 1);
    assert(bit_set(p, 1) <==> p / 2 % 2 == 1);
    assert(bit_set(flag, 1) <==> flag / 2 % 2 == 1);
    assert(bit_set(enable, 1) <==> enable / 2 % 2 == 1);
    assert(bit_set(p, 2) <==> p / 4 % 2 == 1);
    assert(bit_set(flag, 2) <==> flag / 4 % 2 == 1);
    assert(bit_set(enable, 2) <==> enable / 4 % 2 == 1);
    assert(bit_set(p, 3) <==> p / 8 % 2 == 1);
    assert(bit_set(flag, 3) <==> flag / 8 % 2 == 1);
    assert(bit_set(enable, 3) <==> enable / 8 % 2 == 1);
    assert(bit_set(flag, 4) <==> flag / 16 % 2 == 1);
    assert(bit_set(enable, 4) <==> enable / 16 % 2 == 1);
}

/// The digit arithmetic of ADD followed by DAA on two BCD bytes.
proof fn lemma_bcd_add_digits(a: u8, v: u8, s: u8, a1: u8, a2: u8)
    by (bit_vector)
    requires
        a % 16 <= 9 && a / 16 <= 9 && v % 16 <= 9 && v / 16 <= 9,
        s == ((a as u16 + v as u16) % 256) as u8,
        a1 == if a as u16 + v as u16 > 255 || s > 0x99 { ((s as u16 + 0x60) % 256) as u8 } else { s },
        a2 == if a % 16 + v % 16 > 15 || a1 % 16 > 9 { ((a1 as u16 + 6) % 256) as u8 } else { a1 },
    ensures
        a2 % 16 <= 9 && a2 / 16 <= 9,
        (a2 / 16) as u16 * 10 + (a2 % 16) as u16 + (if a as u16 + v as u16 > 255 || s > 0x99 { 100u16 } else { 0u16 })
            == (a / 16) as u16 * 10 + (a % 16) as u16 + (v / 16) as u16 * 10 + (v % 16) as u16,
{
}

/// ADD followed by DAA is decimal addition: on two BCD bytes the result is the BCD byte of
/// their sum's last two digits, and the carry is set exactly when the sum reaches 100.
pub proof fn lemma_add_then_daa_is_decimal(r: Registers, v: u8)
    requires
        is_bcd(r.a),
        is_bcd(v),
    ensures
        ({
            let s = alu_spec(r, 0, v);
            let (res, c) = daa_spec(s.a, n_of(s.f), h_of(s.f), c_of(s.f));
            &&& is_bcd(res)
            &&& bcd_value(res) + (if c { 100int } else { 0 }) == bcd_value(r.a) + bcd_value(v)
        }),
{
    let a = r.a;
    let s = alu_spec(r, 0, v);
    let h = a % 16 + v % 16 > 15;
    let c0 = a + v > 255;
    assert(s.f == flag_byte(s.a == 0, false, h, c0));
    assert(!n_of(s.f) && h_of(s.f) == h && c_of(s.f) == c0);
    let sa = s.a;
    let a1: u8 = if c0 || sa > 0x99 { ((sa + 0x60) % 256) as u8 } else { sa };
    let a2: u8 = if h || a1 % 16 > 9 { ((a1 + 6) % 256) as u8 } else { a1 };
    lemma_bcd_add_digits(a, v, sa, a1, a2);
    assert(daa_spec(sa, false, h, c0) == (a2, c0 || sa > 0x99));
}

/// The digit arithmetic of SUB followed by DAA on two BCD bytes.
proof fn lemma_bcd_sub_digits(a: u8, v: u8, s: u8, a1: u8, a2: u8)
    by (bit_vector)
    requires
        a % 16 <= 9 && a / 16 <= 9 && v % 16 <= 9 && v / 16 <= 9,
        s == ((a as u16 + 256 - v as u16) % 256) as u8,
        a1 == if a < v { ((s as u16 + 256 - 0x60) % 256) as u8 } else { s },
        a2 == if a % 16 < v % 16 { ((a1 as u16 + 256 - 6) % 256) as u8 } else { a1 },
    ensures
        a2 % 16 <= 9 && a2 / 16 <= 9,
        (a2 / 16) as u16 * 10 + (a2 % 16) as u16 + (v / 16) as u16 * 10 + (v % 16) as u16 == (a / 16) as u16 * 10
            + (a % 16) as u16 + (if a < v { 100u16 } else { 0u16 }),
{
}

/// SUB followed by DAA is decimal subtraction: on two BCD bytes the result is the BCD byte
/// of their difference modulo 100, and the carry (borrow) is set exactly when the
/// subtrahend is the larger.
pub proof fn lemma_sub_then_daa_is_decimal(r: Registers, v: u8)
    requires
        is_bcd(r.a),
        is_bcd(v),
    ensures
        ({
            let s = alu_spec(r, 2, v);
            let (res, c) = daa_spec(s.a, n_of(s.f), h_of(s.f), c_of(s.f));
            &&& is_bcd(res)
            &&& c == (bcd_value(r.a) < bcd_value(v))
            &&& bcd_value(res) - (if c { 100int } else { 0 }) == bcd_value(r.a) - bcd_value(v)
        }),
{
    let a = r.a;
    let s = alu_spec(r, 2, v);
    let h = a % 16 < v % 16;
    let c0 = a < v;
    assert(s.f == flag_byte(s.a == 0, true, h, c0));
    assert(n_of(s.f) && h_of(s.f) == h && c_of(s.f) == c0);
    let sa = s.a;
    assert(sa == ((a as u16 + 256 - v as u16) % 256) as u8);
    let a1: u8 = if c0 { ((sa + 256 - 0x60) % 256) as u8 } else { sa };
    let a2: u8 = if h { ((a1 + 256 - 6) % 256) as u8 } else { a1 };
    lemma_bcd_sub_digits(a, v, sa, a1, a2);
    assert(daa_spec(sa, true, h, c0) == (a2, c0));
    assert((a < v) == (bcd_value(a) < bcd_value(v)));
}

/// The flags a flag register holds, as a tuple (Z, N, H, C).
pub open spec fn flags_of(f: u8) -> (bool, bool, bool, bool) {
    (z_of(f), n_of(f), h_of(f), c_of(f))
}

/// The 8-bit ALU of the Game Boy CPU, for every register file and operand `v` (C is the
/// carry in for ADC and SBC): ADD and ADC add, with H from the low nibbles and C when the
/// sum passes 255; SUB and SBC subtract, setting N, with H and C on a borrow from the low
/// nibble and from the byte; AND, XOR and OR combine bit by bit (AND sets H); CP compares
/// as SUB does and keeps A. Z follows the result; only A and F change.
pub proof fn lemma_gb_alu(r: Registers, v: u8)
    ensures
        ({
            let a = r.a;
            let cin: int = if c_of(r.f) { 1 } else { 0 };
            let add = alu_spec(r, 0, v);
            let adc = alu_spec(r, 1, v);
            let sub = alu_spec(r, 2, v);
            let sbc = alu_spec(r, 3, v);
            let and = alu_spec(r, 4, v);
            let xor = alu_spec(r, 5, v);
            let or = alu_spec(r, 6, v);
            let cp = alu_spec(r, 7, v);
            &&& add.a == (a + v) % 256
            &&& flags_of(add.f) == (add.a == 0, false, a % 16 + v % 16 > 15, a + v > 255)
            &&& adc.a == (a + v + cin) % 256
            &&& flags_of(adc.f) == (adc.a == 0, false, a % 16 + v % 16 + cin > 15, a + v + cin > 255)
            &&& sub.a == (a - v + 256) % 256
            &&& flags_of(sub.f) == (sub.a == 0, true, a % 16 < v % 16, a < v)
            &&& sbc.a == (a - v - cin + 512) % 256
            &&& flags_of(sbc.f) == (sbc.a == 0, true, a % 16 < v % 16 + cin, a < v + cin)
            &&& and.a == a & v && flags_of(and.f) == (a & v == 0, false, true, false)
            &&& xor.a == a ^ v && flags_of(xor.f) == (a ^ v == 0, false, false, false)
            &&& or.a == a | v && flags_of(or.f) == (a | v == 0, false, false, false)
            &&& cp.a == a && flags_of(cp.f) == (a == v, true, a % 16 < v % 16, a < v)
            &&& forall|k: u8| k < 8 ==> (Registers { a: r.a, f: r.f, ..#[trigger] alu_spec(r, k, v) }) == r
        }),
{
    let a = r.a;
    let cin: int = if c_of(r.f) { 1 } else { 0 };
    crate::gb::cpu::lemma_flag_byte(((a + v) % 256) as u8 == 0, false, a % 16 + v % 16 > 15, a + v > 255);
    crate::gb::cpu::lemma_flag_byte(
        ((a + v + cin) % 256) as u8 == 0,
        false,
        a % 16 + v % 16 + cin > 15,
        a + v + cin > 255,
    );
    crate::gb::cpu::lemma_flag_byte(((a + 512 - v) % 256) as u8 == 0, true, a % 16 < v % 16, a < v);
    crate::gb::cpu::lemma_flag_byte(
        ((a + 512 - v - cin) % 256) as u8 == 0,
        true,
        a % 16 < v % 16 + cin,
        a < v + cin,
    );
    crate::gb::cpu::lemma_flag_byte(a & v == 0, false, true, false);
    crate::gb::cpu::lemma_flag_byte(a ^ v == 0, false, false, false);
    crate::gb::cpu::lemma_flag_byte(a | v == 0, false, false, false);
    crate::gb::cpu::lemma_flag_byte(a == v, true, a % 16 < v % 16, a < v);
}

/// The CB-prefix shifts and rotates, for every byte `v` and carry in `cin`: RLC, RL and SLA
/// shift left (bit 0 from bit 7, from the carry, or 0) and RRC, RR, SRA and SRL shift
/// right (bit 7 from bit 0, from the carry, kept, or 0), the bit shifted out becoming the
/// carry; SWAP exchanges the nibbles and clears the carry.
pub proof fn lemma_gb_shifts(v: u8, cin: bool)
    ensures
        ({
            let ci: int = if cin { 1 } else { 0 };
            let hi: int = if v >= 128 { 1 } else { 0 };
            let lo: int = (v % 2) as int;
            &&& shift_spec(0, v, cin) == (((2 * v) % 256 + hi) as u8, v >= 128)
            &&& shift_spec(1, v, cin) == ((v / 2 + 128 * lo) as u8, lo == 1)
            &&& shift_spec(2, v, cin) == (((2 * v) % 256 + ci) as u8, v >= 128)
            &&& shift_spec(3, v, cin) == ((v / 2 + 128 * ci) as u8, lo == 1)
            &&& shift_spec(4, v, cin) == (((2 * v) % 256) as u8, v >= 128)
            &&& shift_spec(5, v, cin) == ((v / 2 + 128 * hi) as u8, lo == 1)
            &&& shift_spec(6, v, cin) == ((16 * (v % 16) + v / 16) as u8, false)
            &&& shift_spec(7, v, cin) == ((v / 2) as u8, lo == 1)
        }),
{
    assert(v % 128 == (if v >= 128 { v - 128 } else { v as int }));
    assert((2 * v) % 256 == (if v >= 128 { 2 * v - 256 } else { 2 * v }));
    assert(v / 128 == (if v >= 128 { 1int } else { 0 }));
}

/// Relative jumps and SP offsets, for every PC, SP, offset byte `e` and flags `f`: the
/// offset is a signed byte; JR lands at the address after its operand plus the offset;
/// SP + e sets H and C from the carries out of bit 3 and bit 7 of the unsigned low-byte
/// addition; the jump conditions NZ, Z, NC, C test Z clear, Z set, C clear, C set.
pub proof fn lemma_jumps_and_offsets(pc: u16, sp: u16, e: u8, f: u8)
    ensures
        ({
            let se: int = if e >= 128 { e - 256 } else { e as int };
            &&& jr_target(pc, e) == (pc + 1 + se + 0x1_0000) % 0x1_0000
            &&& sp_offset_spec(sp, e).0 == (sp + se + 0x1_0000) % 0x1_0000
            &&& sp_offset_spec(sp, e).1 == (sp % 16 + e % 16 >= 16)
            &&& sp_offset_spec(sp, e).2 == (sp % 256 + e >= 256)
        }),
        cond_spec(f, 0) == !z_of(f) && cond_spec(f, 1) == z_of(f),
        cond_spec(f, 2) == !c_of(f) && cond_spec(f, 3) == c_of(f),
{
    let se: int = if e >= 128 { e - 256 } else { e as int };
    assert((pc + (1 + e + (if e >= 128 { 0xFF00int } else { 0 }))) % 0x1_0000 == (pc + 1 + se + 0x1_0000) % 0x1_0000);
    assert((sp + (e + (if e >= 128 { 0xFF00int } else { 0 }))) % 0x1_0000 == (sp + se + 0x1_0000) % 0x1_0000);
}

} // verus!
