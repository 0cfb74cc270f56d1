//! NES picture processing unit.
//!
//! 256 x 240 pixels; the PPU runs 3 cycles per CPU cycle, 341 cycles per
//! scanline and 262 scanlines per frame.

use vstd::prelude::*;
use crate::bits::pow2;
use crate::nes::cartridge::{cart_notify_scanline, cart_write_chr, Cartridge, Mapper, Mirroring};
use crate::save_state::{
    bool_byte, dec16, dec32, dec64, le16, le32, le64, read_bool, read_slice, read_u16, read_u32,
    read_u64, read_u8, write_bool, write_slice, write_u16, write_u32, write_u64, write_u8,
};

verus! {

pub const SCREEN_W: usize = 256;
pub const SCREEN_H: usize = 240;
/// Bytes in the RGBA frame buffer.
pub const FRAME_BYTES: usize = 245760;

/// The NTSC palette: 64 colours, 3 bytes (R, G, B) each.
pub open spec fn nes_palette_table() -> Seq<u8> {
    seq![
        84, 84, 84, 0, 30, 116, 8, 16, 144, 48, 0, 136,
        68, 0, 100, 92, 0, 48, 84, 4, 0, 60, 24, 0,
        32, 42, 0, 8, 58, 0, 0, 64, 0, 0, 60, 0,
        0, 50, 60, 0, 0, 0, 0, 0, 0, 0, 0, 0,
        152, 150, 152, 8, 76, 196, 48, 50, 236, 92, 30, 228,
        136, 20, 176, 160, 20, 100, 152, 34, 32, 120, 60, 0,
        84, 90, 0, 40, 114, 0, 8, 124, 0, 0, 118, 40,
        0, 102, 120, 0, 0, 0, 0, 0, 0, 0, 0, 0,
        236, 238, 236, 76, 154, 236, 120, 124, 236, 176, 98, 236,
        228, 84, 236, 236, 88, 180, 236, 106, 100, 212, 136, 32,
        160, 170, 0, 116, 196, 0, 76, 208, 32, 56, 204, 108,
        56, 180, 204, 60, 60, 60, 0, 0, 0, 0, 0, 0,
        236, 238, 236, 168, 204, 236, 188, 188, 236, 212, 178, 236,
        236, 174, 236, 236, 174, 212, 236, 180, 176, 228, 196, 144,
        204, 210, 120, 180, 222, 120, 168, 226, 144, 152, 226, 180,
        160, 214, 228, 160, 162, 160, 0, 0, 0, 0, 0, 0
    ]
}

/// Channel `ch` (0 = R, 1 = G, 2 = B) of palette colour `idx`.
fn palette_rgb(idx: usize, ch: usize) -> (v: u8)
    requires
        idx < 64,
        ch < 3,
    ensures
        v == nes_palette_table()[idx * 3 + ch],
{
    let table: [u8; 192] = [
        84, 84, 84, 0, 30, 116, 8, 16, 144, 48, 0, 136,
        68, 0, 100, 92, 0, 48, 84, 4, 0, 60, 24, 0,
        32, 42, 0, 8, 58, 0, 0, 64, 0, 0, 60, 0,
        0, 50, 60, 0, 0, 0, 0, 0, 0, 0, 0, 0,
        152, 150, 152, 8, 76, 196, 48, 50, 236, 92, 30, 228,
        136, 20, 176, 160, 20, 100, 152, 34, 32, 120, 60, 0,
        84, 90, 0, 40, 114, 0, 8, 124, 0, 0, 118, 40,
        0, 102, 120, 0, 0, 0, 0, 0, 0, 0, 0, 0,
        236, 238, 236, 76, 154, 236, 120, 124, 236, 176, 98, 236,
        228, 84, 236, 236, 88, 180, 236, 106, 100, 212, 136, 32,
        160, 170, 0, 116, 196, 0, 76, 208, 32, 56, 204, 108,
        56, 180, 204, 60, 60, 60, 0, 0, 0, 0, 0, 0,
        236, 238, 236, 168, 204, 236, 188, 188, 236, 212, 178, 236,
        236, 174, 236, 236, 174, 212, 236, 180, 176, 228, 196, 144,
        204, 210, 120, 180, 222, 120, 168, 226, 144, 152, 226, 180,
        160, 214, 228, 160, 162, 160, 0, 0, 0, 0, 0, 0,
    ];
    assert(table@ =~= nes_palette_table());
    table[idx * 3 + ch]
}

/// Bit `b` (0..16) of a 16-bit value.
pub open spec fn bit16(x: u16, b: nat) -> u16 {
    ((x as nat / pow2(b)) % 2) as u16
}

/// V after a coarse X increment: past column 31 the column wraps and the horizontal
/// nametable switches.
pub open spec fn v_inc_x(v: u16) -> u16 {
    if v % 32 == 31 {
        ((v - 31) as u16) ^ 0x0400
    } else {
        (v + 1) as u16
    }
}

/// V after a Y increment: fine Y, then coarse Y; row 29 wraps and switches the vertical
/// nametable, row 31 wraps without switching.
pub open spec fn v_inc_y(v: u16) -> u16 {
    if v / 4096 != 7 {
        (v + 0x1000) as u16
    } else {
        let v0 = (v % 4096) as u16;
        let y = (v0 / 32) % 32;
        if y == 29 {
            ((v0 - 29 * 32) as u16) ^ 0x0800
        } else if y == 31 {
            (v0 - 31 * 32) as u16
        } else {
            (v0 + 32) as u16
        }
    }
}

/// A scroll address from its fields: fine Y (3 bits), vertical and horizontal nametable
/// select, coarse Y and coarse X (5 bits each).
pub open spec fn loopy(fine_y: int, nt_y: int, nt_x: int, coarse_y: int, coarse_x: int) -> int {
    fine_y * 4096 + nt_y * 2048 + nt_x * 1024 + coarse_y * 32 + coarse_x
}

/// The scroll address updates, for every V and T below 0x8000, field by field. A coarse X
/// increment steps the column, wrapping after 31 into the other horizontal nametable. A Y
/// increment steps fine Y; from fine Y 7 it restarts at 0 and steps the row, row 29
/// wrapping to 0 in the other vertical nametable and row 31 wrapping to 0 in the same
/// one. The horizontal copy takes coarse X and the horizontal nametable from T; the
/// vertical copy takes fine Y, coarse Y and the vertical nametable from T.
pub proof fn lemma_scroll_updates(v: u16, t: u16)
    requires
        v < 0x8000,
        t < 0x8000,
    ensures
        ({
            let fy = v / 4096;
            let ny = (v / 2048) % 2;
            let nx = (v / 1024) % 2;
            let cy = (v / 32) % 32;
            let cx = v % 32;
            &&& v == loopy(fy as int, ny as int, nx as int, cy as int, cx as int)
            &&& v_inc_x(v) == if cx == 31 {
                loopy(fy as int, ny as int, 1 - nx, cy as int, 0)
            } else {
                loopy(fy as int, ny as int, nx as int, cy as int, cx + 1)
            }
            &&& v_inc_y(v) == if fy < 7 {
                loopy(fy + 1, ny as int, nx as int, cy as int, cx as int)
            } else if cy == 29 {
                loopy(0, 1 - ny, nx as int, 0, cx as int)
            } else if cy == 31 {
                loopy(0, ny as int, nx as int, 0, cx as int)
            } else {
                loopy(0, ny as int, nx as int, cy + 1, cx as int)
            }
            &&& (v & 0xFBE0) | (t & 0x041F) == loopy(fy as int, ny as int, ((t / 1024) % 2) as int, cy as int, (t % 32) as int)
            &&& (v & 0x841F) | (t & 0x7BE0) == loopy((t / 4096) as int, ((t / 2048) % 2) as int, nx as int, ((t / 32) % 32) as int, cx as int)
            &&& forall|sl: int| #![trigger tick_v(v, t, sl, 257)]
                tick_v(v, t, sl, 257) == loopy(fy as int, ny as int, ((t / 1024) % 2) as int, cy as int, (t % 32) as int)
            &&& forall|c: int| #![trigger tick_v(v, t, 261, c)]
                280 <= c <= 304 ==> tick_v(v, t, 261, c) == loopy((t / 4096) as int, ((t / 2048) % 2) as int, nx as int, ((t / 32) % 32) as int, cx as int)
        }),
{
    assert(v == (v / 4096) * 4096 + ((v / 2048) % 2) * 2048 + ((v / 1024) % 2) * 1024 + ((v / 32) % 32) * 32 + v % 32)
        by (bit_vector)
        requires
            v < 0x8000,
    ;
    assert(v % 32 == 31 ==> ((v - 31) as u16) ^ 0x0400 == (v / 4096) * 4096 + ((v / 2048) % 2) * 2048 + (1 - (v / 1024)
        % 2) * 1024 + ((v / 32) % 32) * 32) by (bit_vector)
        requires
            v < 0x8000,
    ;
    let v0 = (v % 4096) as u16;
    assert(v / 4096 == 7 && (v0 / 32) % 32 == 29 ==> ((v0 - 29 * 32) as u16) ^ 0x0800 == (1 - (v / 2048) % 2) * 2048 + ((
    v / 1024) % 2) * 1024 + v % 32) by (bit_vector)
        requires
            v < 0x8000,
            v0 == (v % 4096) as u16,
    ;
    assert(v0 == ((v / 2048) % 2) * 2048 + ((v / 1024) % 2) * 1024 + ((v / 32) % 32) * 32 + v % 32 && (v0 / 32) % 32
        == (v / 32) % 32) by (bit_vector)
        requires
            v < 0x8000,
            v0 == (v % 4096) as u16,
    ;
    assert((v & 0xFBE0) | (t & 0x041F) == (v / 4096) * 4096 + ((v / 2048) % 2) * 2048 + ((t / 1024) % 2) * 1024 + ((v
        / 32) % 32) * 32 + t % 32) by (bit_vector)
        requires
            v < 0x8000,
            t < 0x8000,
    ;
    assert((v & 0x841F) | (t & 0x7BE0) == (t / 4096) * 4096 + ((t / 2048) % 2) * 2048 + ((v / 1024) % 2) * 1024 + ((t
        / 32) % 32) * 32 + v % 32) by (bit_vector)
        requires
            v < 0x8000,
            t < 0x8000,
    ;
}

/// V after one PPU cycle at (`scanline`, `cycle`) while rendering is enabled, on the
/// visible and pre-render lines: coarse X steps every 8 fetch cycles, Y at cycle 256,
/// horizontal bits come from T at 257, vertical bits at 280-304 of the pre-render line.
pub open spec fn tick_v(v: u16, t: u16, scanline: int, cycle: int) -> u16 {
    let prerender = scanline == 261;
    let fetch = (1 <= cycle <= 256) || (321 <= cycle <= 336);
    let v1 = if fetch && cycle % 8 == 0 { v_inc_x(v) } else { v };
    let v2 = if cycle == 256 { v_inc_y(v1) } else { v1 };
    let v3 = if cycle == 257 { (v2 & 0xFBE0) | (t & 0x041F) } else { v2 };
    if prerender && 280 <= cycle <= 304 { (v3 & 0x841F) | (t & 0x7BE0) } else { v3 }
}

/// The frame buffer after drawing the pixel at (cycle - 1, scanline).
pub open spec fn nes_pixel_drawn(p: &NesPpu) -> Seq<u8> {
    let x = p.cycle - 1;
    let base = (p.scanline * 256 + x) * 4;
    let c = nes_pixel_color(p, x);
    p.frame_buffer@.update(base, nes_palette_table()[c * 3]).update(base + 1, nes_palette_table()[c * 3 + 1]).update(
        base + 2,
        nes_palette_table()[c * 3 + 2],
    ).update(base + 3, 0xFF)
}

/// What a CPU read of PPU register `addr % 8` does, from `a` with cartridge `ca` to `b`
/// with cartridge `cb`, giving `val`. PPUSTATUS (2) gives its top three bits over the low
/// bits of the read buffer, clears VBlank and the write toggle; OAMDATA (4) gives the byte
/// at OAMADDR; PPUDATA (7) gives the read buffer (a palette byte at once for $3F00 on),
/// refills the buffer from V and steps V; the others give 0. The cartridge is unchanged.
pub open spec fn ppu_reg_read_rel(a: &NesPpu, ca: Cartridge, b: &NesPpu, cb: Cartridge, addr: u16, val: u8) -> bool {
    &&& cb == ca
    &&& (addr % 8 == 2 ==> {
        &&& val == (a.status & 0xE0) | (a.data_buffer & 0x1F)
        &&& *b == (NesPpu { status: a.status & 0x7F, w: false, ..*a })
    })
    &&& (addr % 8 == 4 ==> val == a.oam@[a.oam_addr as int] && *b == *a)
    &&& (addr % 8 == 7 ==> {
        let vaddr = a.v % 0x4000;
        let v1 = ((a.v + a.addr_increment()) % 0x8000) as u16;
        if vaddr >= 0x3F00 {
            &&& val == a.palette_at(vaddr as u16)
            &&& *b == (NesPpu {
                v: v1,
                data_buffer: a.vram_at((vaddr - 0x1000) as u16, ca),
                ..*a
            })
        } else {
            &&& val == a.data_buffer
            &&& *b == (NesPpu {
                v: v1,
                data_buffer: a.vram_at(vaddr as u16, ca),
                ..*a
            })
        }
    })
    &&& (!(addr % 8 == 2 || addr % 8 == 4 || addr % 8 == 7) ==> val == 0 && *b == *a)
}

/// What a CPU write of `val` to PPU register `addr % 8` does, from `a` with cartridge `ca`
/// to `b` with cartridge `cb`: PPUCTRL, PPUMASK, OAMADDR, OAMDATA, the two-write PPUSCROLL
/// and PPUADDR, and PPUDATA writing through V (pattern writes reach the cartridge) and
/// stepping it; PPUSTATUS ignores writes.
pub open spec fn ppu_reg_write_rel(a: &NesPpu, ca: Cartridge, b: &NesPpu, cb: Cartridge, addr: u16, val: u8) -> bool {
    &&& (addr % 8 != 7 ==> cb == ca)
    &&& (addr % 8 == 0 ==> *b == (NesPpu {
        ctrl: val,
        t: (a.t & 0xF3FF) | (((val as u16 % 4) * 1024) as u16),
        nmi_requested: a.nmi_requested || (a.ctrl < 0x80 && val >= 0x80 && a.status
            >= 0x80),
        ..*a
    }))
    &&& (addr % 8 == 1 ==> *b == (NesPpu { mask: val, ..*a }))
    &&& (addr % 8 == 2 ==> *b == *a)
    &&& (addr % 8 == 3 ==> *b == (NesPpu { oam_addr: val, ..*a }))
    &&& (addr % 8 == 4 ==> {
        &&& b.oam@ == a.oam@.update(a.oam_addr as int, val)
        &&& *b == (NesPpu {
            oam: b.oam,
            oam_addr: ((a.oam_addr + 1) % 256) as u8,
            ..*a
        })
    })
    &&& (addr % 8 == 5 ==> *b == if !a.w {
        NesPpu {
            w: true,
            t: (a.t & 0xFFE0) | ((val as u16 / 8) as u16),
            fine_x: val % 8,
            ..*a
        }
    } else {
        NesPpu {
            w: false,
            t: (((a.t & 0x8FFF) | (((val as u16 % 8) * 4096) as u16)) & 0xFC1F) | (((val as u16
                / 8) * 32) as u16),
            ..*a
        }
    })
    &&& (addr % 8 == 6 ==> *b == if !a.w {
        NesPpu { w: true, t: (a.t & 0x80FF) | (((val as u16 % 64) * 256) as u16), ..*a }
    } else {
        NesPpu {
            w: false,
            t: (a.t & 0xFF00) | (val as u16),
            v: (a.t & 0xFF00) | (val as u16),
            ..*a
        }
    })
    &&& (addr % 8 == 7 ==> {
        let vaddr = (a.v % 0x4000) as u16;
        let v1 = ((a.v + a.addr_increment()) % 0x8000) as u16;
        &&& vaddr < 0x2000 ==> *b == (NesPpu { v: v1, ..*a }) && cart_write_chr(
            ca,
            cb,
            vaddr,
            val,
        )
        &&& 0x2000 <= vaddr < 0x3F00 ==> cb == ca && b.nametable_ram@
            == a.nametable_ram@.update(mirror_spec(vaddr, ca.mirroring_spec()), val)
            && *b == (NesPpu { v: v1, nametable_ram: b.nametable_ram, ..*a })
        &&& vaddr >= 0x3F00 ==> cb == ca && b.palette_ram@
            == a.palette_ram@.update(palette_index_spec(vaddr), val % 64)
            && *b == (NesPpu { v: v1, palette_ram: b.palette_ram, ..*a })
    })
}

/// A background shift register after one shift: every bit moves up one place.
pub open spec fn shifted(x: u16) -> u16 {
    ((x % 0x8000) * 2) as u16
}

/// A background shift register with its low byte replaced by `low`.
pub open spec fn reloaded(x: u16, low: int) -> u16 {
    (x - x % 256 + low) as u16
}

/// Whether a PPU cycle from `p` is a background fetch cycle: while rendering, on cycles
/// 1-256 and 321-336 of the visible and pre-render lines.
pub open spec fn nes_fetch_cycle(p: &NesPpu) -> bool {
    &&& p.rendering()
    &&& (0 <= p.scanline < 240 || p.scanline == 261)
    &&& ((1 <= p.cycle <= 256) || (321 <= p.cycle <= 336))
}

/// The palette bits of the tile at V: its 4x4-tile block's attribute byte, shifted by the
/// tile's quadrant.
pub open spec fn nes_attr_bits(p: &NesPpu, cart: Cartridge) -> u8 {
    let v = p.v;
    let addr = (0x23C0 + ((v / 1024) % 4) * 1024 + ((v / 128) % 8) * 8 + (v / 4) % 8) as u16;
    let div: int = if (v / 64) % 2 == 1 {
        if (v / 2) % 2 == 1 { 64 } else { 16 }
    } else {
        if (v / 2) % 2 == 1 { 4 } else { 1 }
    };
    ((p.vram_at(addr, cart) as int / div) % 4) as u8
}

/// The attribute bits of the tile at V, for every V: with coarse X and Y the tile's column
/// and row, they are read from the attribute table of V's nametable at 0x23C0 + 8 * (row /
/// 4) + column / 4, and are the 2-bit field of the tile's quadrant within its 4x4 block
/// (right half: next field; bottom half: two fields on).
pub proof fn lemma_attr_bits(p: &NesPpu, cart: Cartridge)
    ensures
        ({
            let cx = p.v % 32;
            let cy = (p.v / 32) % 32;
            let addr = 0x23C0 + 1024 * ((p.v / 1024) % 4) + 8 * (cy / 4) + cx / 4;
            let q = 2 * ((cy / 2) % 2) + (cx / 2) % 2;
            let byte = p.vram_at(addr as u16, cart) as int;
            nes_attr_bits(p, cart) == (if q == 0 {
                byte % 4
            } else if q == 1 {
                (byte / 4) % 4
            } else if q == 2 {
                (byte / 16) % 4
            } else {
                (byte / 64) % 4
            })
        }),
{
    let v = p.v as int;
    assert((v / 32) % 32 / 4 == (v / 128) % 8) by (nonlinear_arith)
        requires
            0 <= v,
    ;
    assert((v % 32) / 4 == (v / 4) % 8) by (nonlinear_arith)
        requires
            0 <= v,
    ;
    assert(((v / 32) % 32 / 2) % 2 == (v / 64) % 2) by (nonlinear_arith)
        requires
            0 <= v,
    ;
    assert(((v % 32) / 2) % 2 == (v / 2) % 2) by (nonlinear_arith)
        requires
            0 <= v,
    ;
}

/// The pattern table address of the low plane of the fetched tile's row at fine Y.
pub open spec fn nes_bg_pattern_addr(p: &NesPpu) -> int {
    let table: int = if (p.ctrl / 16) % 2 == 1 { 0x1000 } else { 0 };
    table + p.nt_byte * 16 + p.v / 4096
}

/// The background shifters and fetch latches of `b` after one PPU cycle from `a` with
/// cartridge `ca`. On a fetch cycle the four shifters move one bit up, and the cycle's
/// place in its group of 8 fetches the nametable byte (1st), the attribute bits (3rd),
/// the low (5th) and high (7th) pattern bytes, or loads the fetched tile into the
/// shifters' low bytes (8th). Otherwise all eight are kept.
pub open spec fn nes_bg_fetched(a: &NesPpu, ca: Cartridge, b: &NesPpu) -> bool {
    if nes_fetch_cycle(a) {
        let phase = (a.cycle - 1) % 8;
        let attr_lo: int = if a.at_byte % 2 == 1 { 0xFF } else { 0 };
        let attr_hi: int = if (a.at_byte / 2) % 2 == 1 { 0xFF } else { 0 };
        &&& b.bg_pattern_lo == if phase == 7 {
            reloaded(shifted(a.bg_pattern_lo), a.bg_lo as int)
        } else {
            shifted(a.bg_pattern_lo)
        }
        &&& b.bg_pattern_hi == if phase == 7 {
            reloaded(shifted(a.bg_pattern_hi), a.bg_hi as int)
        } else {
            shifted(a.bg_pattern_hi)
        }
        &&& b.bg_attrib_lo == if phase == 7 {
            reloaded(shifted(a.bg_attrib_lo), attr_lo)
        } else {
            shifted(a.bg_attrib_lo)
        }
        &&& b.bg_attrib_hi == if phase == 7 {
            reloaded(shifted(a.bg_attrib_hi), attr_hi)
        } else {
            shifted(a.bg_attrib_hi)
        }
        &&& b.nt_byte == if phase == 0 {
            a.vram_at((0x2000 + a.v % 0x1000) as u16, ca)
        } else {
            a.nt_byte
        }
        &&& b.at_byte == if phase == 2 { nes_attr_bits(a, ca) } else { a.at_byte }
        &&& b.bg_lo == if phase == 4 { a.vram_at(nes_bg_pattern_addr(a) as u16, ca) } else { a.bg_lo }
        &&& b.bg_hi == if phase == 6 {
            a.vram_at((nes_bg_pattern_addr(a) + 8) as u16, ca)
        } else {
            a.bg_hi
        }
    } else {
        &&& b.bg_pattern_lo == a.bg_pattern_lo && b.bg_pattern_hi == a.bg_pattern_hi
        &&& b.bg_attrib_lo == a.bg_attrib_lo && b.bg_attrib_hi == a.bg_attrib_hi
        &&& b.nt_byte == a.nt_byte && b.at_byte == a.at_byte && b.bg_lo == a.bg_lo && b.bg_hi == a.bg_hi
    }
}

/// The sprite slots and the sprite-0 flags are the same in `a` and `b`.
pub open spec fn nes_sprite_slots_kept(a: &NesPpu, b: &NesPpu) -> bool {
    &&& b.sprite_patterns_lo@ == a.sprite_patterns_lo@ && b.sprite_patterns_hi@ == a.sprite_patterns_hi@
    &&& b.sprite_x@ == a.sprite_x@ && b.sprite_attrs@ == a.sprite_attrs@
    &&& b.sprite0_hit_possible == a.sprite0_hit_possible && b.sprite0_being_rendered == a.sprite0_being_rendered
}

/// Sprite evaluation for `a`'s scanline, as `b` holds it: the sprite count (at most 8 of
/// the OAM sprites that cover the line; a ninth sets the overflow flag, PPUSTATUS bit 5),
/// whether sprite 0 is among them, and slot `k` holding the row of the `k`-th such sprite
/// in OAM order; the slots beyond the count are kept.
pub open spec fn nes_sprites_evaluated(a: &NesPpu, b: &NesPpu, cart: Cartridge) -> bool {
    let oam = a.oam@;
    let sl = a.scanline as int;
    let h = sprite_height(a.ctrl);
    let n = sprites_on_line_before(oam, sl, h, 64);
    &&& b.sprite_count == if n > 8 { 8 } else { n }
    &&& b.status == if n > 8 { a.status | 0x20 } else { a.status }
    &&& b.sprite0_hit_possible == sprite_on_line(oam, sl, h, 0)
    &&& !b.sprite0_being_rendered
    &&& forall|j: int|
        0 <= j < 64 && #[trigger] sprite_on_line(oam, sl, h, j) && sprites_on_line_before(oam, sl, h, j) < 8
            ==> sprite_slot_holds(a, b, cart, j, sprites_on_line_before(oam, sl, h, j) as int)
    &&& forall|k: int| b.sprite_count <= k < 8 ==> #[trigger] sprite_slot_same(a, b, k)
}

/// The sprites of `b` after one PPU cycle from `a` with cartridge `ca`: at dot 257 while
/// rendering, a visible line evaluates its sprites and any other line drops the sprite
/// count to 0; otherwise the sprites are kept.
pub open spec fn nes_sprite_phase(a: &NesPpu, ca: Cartridge, b: &NesPpu) -> bool {
    if a.rendering() && a.cycle == 257 && 0 <= a.scanline < 240 {
        nes_sprites_evaluated(a, b, ca)
    } else if a.rendering() && a.cycle == 257 {
        b.sprite_count == 0 && nes_sprite_slots_kept(a, b)
    } else {
        b.sprite_count == a.sprite_count && nes_sprite_slots_kept(a, b)
    }
}

/// Sprite evaluation carries over to PPUs that agree on what it reads and writes.
proof fn lemma_sprites_evaluated_moved(a: &NesPpu, b: &NesPpu, a2: &NesPpu, b2: &NesPpu, cart: Cartridge)
    requires
        nes_sprites_evaluated(a, b, cart),
        a2.oam@ == a.oam@ && a2.ctrl == a.ctrl && a2.scanline == a.scanline && a2.status == a.status,
        a2.nametable_ram@ == a.nametable_ram@ && a2.palette_ram@ == a.palette_ram@ && a2.mask == a.mask,
        nes_sprite_slots_kept(a, a2),
        nes_sprite_slots_kept(b, b2),
        b2.sprite_count == b.sprite_count && b2.status == b.status,
    ensures
        nes_sprites_evaluated(a2, b2, cart),
{
    reveal(sprite_slot_holds);
    let oam = a.oam@;
    let sl = a.scanline as int;
    let h = sprite_height(a.ctrl);
    assert forall|j: int|
        0 <= j < 64 && #[trigger] sprite_on_line(oam, sl, h, j) && sprites_on_line_before(oam, sl, h, j) < 8
            implies sprite_slot_holds(a2, b2, cart, j, sprites_on_line_before(oam, sl, h, j) as int) by {
        let addr = sprite_row_addr(oam, a.ctrl, sl, j);
        lemma_vram_at_same(a, a2, addr as u16, cart);
        lemma_vram_at_same(a, a2, (addr + 8) as u16, cart);
    }
    assert forall|k: int| b2.sprite_count <= k < 8 implies #[trigger] sprite_slot_same(a2, b2, k) by {
        assert(sprite_slot_same(a, b, k));
    }
}

/// What one PPU cycle does, from `a` with cartridge `ca` to `b` with cartridge `cb`,
/// beyond the position: VBlank is set at (241, 1) and cleared at (261, 1), and kept
/// otherwise; T is kept and V follows the scroll updates while rendering; a visible dot
/// draws its pixel while rendering; the background shifters and fetch latches and the
/// sprite slots are filled as rendering goes; the cartridge is told of each new visible
/// scanline (0-239) and is otherwise unchanged.
pub open spec fn nes_tick_rel(a: &NesPpu, ca: Cartridge, b: &NesPpu, cb: Cartridge) -> bool {
    let sl = if a.cycle + 1 > 340 {
        if a.scanline + 1 > 261 {
            0
        } else {
            a.scanline + 1
        }
    } else {
        -1
    };
    &&& a.scanline == 241 && a.cycle == 1 ==> b.status >= 0x80
    &&& a.scanline == 261 && a.cycle == 1 ==> b.status < 0x20
    &&& !(a.scanline == 241 && a.cycle == 1) && !(a.scanline == 261 && a.cycle == 1) ==> (b.status >= 0x80
        <==> a.status >= 0x80)
    &&& b.t == a.t
    &&& b.v == if a.rendering() && (0 <= a.scanline < 240 || a.scanline == 261) {
        tick_v(a.v, a.t, a.scanline as int, a.cycle as int)
    } else {
        a.v
    }
    &&& b.frame_buffer@ == if a.rendering() && 0 <= a.scanline < 240 && 1 <= a.cycle <= 256 {
        nes_pixel_drawn(a)
    } else {
        a.frame_buffer@
    }
    &&& nes_bg_fetched(a, ca, b)
    &&& nes_sprite_phase(a, ca, b)
    &&& if 0 <= sl < 240 {
        cart_notify_scanline(ca, cb)
    } else {
        cb == ca
    }
}

/// The colour number sprite slot `i` gives screen column `x` (0 outside the sprite's
/// eight columns); the slot's pattern bytes are already mirrored as the sprite needs.
pub open spec fn nes_slot_pixel(p: &NesPpu, i: int, x: int) -> int {
    let sx = p.sprite_x@[i] as int;
    if sx <= x < sx + 8 {
        let m = pow2((7 - (x - sx)) as nat) as int;
        ((p.sprite_patterns_hi@[i] as int / m) % 2) * 2 + (p.sprite_patterns_lo@[i] as int / m) % 2
    } else {
        0
    }
}

/// The first sprite slot from `i` on with an opaque pixel at column `x`, or -1.
pub open spec fn nes_front_sprite(p: &NesPpu, x: int, i: int) -> int
    decreases p.sprite_count - i,
{
    if i >= p.sprite_count {
        -1
    } else if nes_slot_pixel(p, i, x) != 0 {
        i
    } else {
        nes_front_sprite(p, x, i + 1)
    }
}

/// The background colour number and palette at column `x`: from the shifters at fine X,
/// when PPUMASK shows the background there (bit 3; bit 1 for the leftmost 8 columns).
pub open spec fn nes_bg_pixel(p: &NesPpu, x: int) -> (int, int) {
    if (p.mask / 8) % 2 == 1 && (x >= 8 || (p.mask / 2) % 2 == 1) {
        let b = (15 - p.fine_x) as nat;
        (
            bit16(p.bg_pattern_hi, b) * 2 + bit16(p.bg_pattern_lo, b),
            bit16(p.bg_attrib_hi, b) * 2 + bit16(p.bg_attrib_lo, b),
        )
    } else {
        (0, 0)
    }
}

/// The sprite colour number, palette (4-7), behind-background flag and sprite-0 flag at
/// column `x`: those of the first slot with an opaque pixel there, when PPUMASK shows
/// sprites there (bit 4; bit 2 for the leftmost 8 columns).
pub open spec fn nes_sprite_pixel(p: &NesPpu, x: int) -> (int, int, bool, bool) {
    let i = nes_front_sprite(p, x, 0);
    if (p.mask / 16) % 2 == 1 && (x >= 8 || (p.mask / 4) % 2 == 1) && i >= 0 {
        (
            nes_slot_pixel(p, i, x),
            p.sprite_attrs@[i] % 4 + 4,
            (p.sprite_attrs@[i] / 32) % 2 == 1,
            i == 0 && p.sprite0_hit_possible,
        )
    } else {
        (0, 0, false, false)
    }
}

/// Whether column `x` raises the sprite-0 hit: sprite 0 and the background both opaque
/// there, and `x` is not 255.
pub open spec fn nes_sprite0_hit(p: &NesPpu, x: int) -> bool {
    &&& nes_sprite_pixel(p, x).3
    &&& nes_bg_pixel(p, x).0 != 0
    &&& nes_sprite_pixel(p, x).0 != 0
    &&& x != 255
}

/// The palette address of the pixel at column `x`: the sprite over the background unless
/// both are opaque and the sprite is behind it; the backdrop ($3F00) when neither is.
pub open spec fn nes_pixel_palette_addr(p: &NesPpu, x: int) -> u16 {
    let (bg, bgp) = nes_bg_pixel(p, x);
    let (sp, spp, behind, zero) = nes_sprite_pixel(p, x);
    let (px, pal) = if bg == 0 && sp == 0 {
        (0int, 0int)
    } else if bg == 0 {
        (sp, spp)
    } else if sp == 0 {
        (bg, bgp)
    } else if behind {
        (bg, bgp)
    } else {
        (sp, spp)
    };
    if px == 0 {
        0x3F00
    } else {
        (0x3F00 + pal * 4 + px) as u16
    }
}

/// The front sprite search gives -1 or a slot from `i` on, below the sprite count, whose
/// pixel is opaque.
proof fn lemma_front_sprite_range(p: &NesPpu, x: int, i: int)
    ensures
        nes_front_sprite(p, x, i) == -1 || (i <= nes_front_sprite(p, x, i) < p.sprite_count
            && nes_slot_pixel(p, nes_front_sprite(p, x, i), x) != 0),
    decreases p.sprite_count - i,
{
    if i < p.sprite_count && nes_slot_pixel(p, i, x) == 0 {
        lemma_front_sprite_range(p, x, i + 1);
    }
}

/// Colour numbers are 0-3 and background palettes 0-3.
proof fn lemma_pixel_bounds(p: &NesPpu, x: int)
    ensures
        0 <= nes_bg_pixel(p, x).0 <= 3,
        0 <= nes_bg_pixel(p, x).1 <= 3,
        forall|i: int| 0 <= #[trigger] nes_slot_pixel(p, i, x) <= 3,
{
    let b = (15 - p.fine_x) as nat;
    assert(bit16(p.bg_pattern_hi, b) <= 1 && bit16(p.bg_pattern_lo, b) <= 1);
    assert(bit16(p.bg_attrib_hi, b) <= 1 && bit16(p.bg_attrib_lo, b) <= 1);
    assert forall|i: int| 0 <= #[trigger] nes_slot_pixel(p, i, x) <= 3 by {
        let sx = p.sprite_x@[i] as int;
        if sx <= x < sx + 8 {
            let m = pow2((7 - (x - sx)) as nat) as int;
            assert(0 <= (p.sprite_patterns_hi@[i] as int / m) % 2 <= 1);
            assert(0 <= (p.sprite_patterns_lo@[i] as int / m) % 2 <= 1);
        }
    }
}

/// Sprite and background priority, for every PPU state and column `x`. With `bg`/`bgp`
/// the background colour number and palette there and `sp`/`spp` those of the front
/// sprite: where both are transparent the backdrop ($3F00) shows; a background pixel shows
/// when no sprite pixel covers it or the sprite has its behind-background bit (attribute
/// bit 5) set; otherwise an opaque sprite pixel shows. A shown pixel's palette address is
/// $3F00 + 4 * palette + colour number, the sprite palettes being 4-7 (attribute bits 1-0).
pub proof fn lemma_pixel_priority(p: &NesPpu, x: int)
    ensures
        ({
            let bg = nes_bg_pixel(p, x).0;
            let bgp = nes_bg_pixel(p, x).1;
            let sp = nes_sprite_pixel(p, x).0;
            let i = nes_front_sprite(p, x, 0);
            let addr = nes_pixel_palette_addr(p, x) as int;
            &&& sp != 0 ==> 0 <= i < p.sprite_count && nes_sprite_pixel(p, x).1 == p.sprite_attrs@[i] % 4 + 4
                && nes_sprite_pixel(p, x).2 == ((p.sprite_attrs@[i] / 32) % 2 == 1)
            &&& bg == 0 && sp == 0 ==> addr == 0x3F00
            &&& bg != 0 && (sp == 0 || (p.sprite_attrs@[i] / 32) % 2 == 1) ==> addr == 0x3F00 + bgp * 4 + bg
            &&& sp != 0 && (bg == 0 || (p.sprite_attrs@[i] / 32) % 2 == 0) ==> addr == 0x3F00 + (
            p.sprite_attrs@[i] % 4 + 4) * 4 + sp
        }),
{
    let i = nes_front_sprite(p, x, 0);
    lemma_front_sprite_range(p, x, 0);
    let bg = nes_bg_pixel(p, x).0;
    let bgp = nes_bg_pixel(p, x).1;
    let sp = nes_sprite_pixel(p, x).0;
    lemma_pixel_bounds(p, x);
}

/// The palette colour (0-63) of the pixel at column `x`.
pub open spec fn nes_pixel_color(p: &NesPpu, x: int) -> int {
    (p.palette_at(nes_pixel_palette_addr(p, x)) % 64) as int
}

fn u16_bit(x: u16, b: u16) -> (r: u16)
    requires
        b < 16,
    ensures
        r == bit16(x, b as nat),
        r < 2,
{
    proof {
        reveal_with_fuel(pow2, 17);
    }
    let p: u32 = if b == 0 { 1 } else if b == 1 { 2 } else if b == 2 { 4 } else if b == 3 { 8 }
        else if b == 4 { 16 } else if b == 5 { 32 } else if b == 6 { 64 } else if b == 7 { 128 }
        else if b == 8 { 256 } else if b == 9 { 512 } else if b == 10 { 1024 } else if b == 11 { 2048 }
        else if b == 12 { 4096 } else if b == 13 { 8192 } else if b == 14 { 16384 } else { 32768 };
    assert(p == pow2(b as nat));
    ((x as u32 / p) % 2) as u16
}

/// The byte `v` with its bit order reversed.
pub open spec fn reverse_spec(v: u8) -> u8 {
    ((v % 2) * 128 + ((v / 2) % 2) * 64 + ((v / 4) % 2) * 32 + ((v / 8) % 2) * 16 + ((v / 16) % 2) * 8
        + ((v / 32) % 2) * 4 + ((v / 64) % 2) * 2 + v / 128) as u8
}

/// Reversing a byte's bit order moves bit `i` to bit 7 - `i` (horizontal sprite flip).
pub proof fn lemma_reverse_bits(v: u8, i: u8)
    requires
        i < 8,
    ensures
        crate::bits::bit_value(reverse_spec(v), i) == crate::bits::bit_value(v, (7 - i) as u8),
{
    assert(crate::bits::bit_value(reverse_spec(v), i) == crate::bits::bit_value(v, (7 - i) as u8)) by (bit_vector)
        requires
            i < 8,
    ;
}

/// The pattern row a sprite shows on a scanline it covers, for every OAM and PPUCTRL: with
/// `d` the line's distance from the sprite's top and vertical flip (attribute bit 7)
/// counting rows from the bottom, an 8x8 sprite's row is at 16 * tile + row in the pattern
/// table PPUCTRL bit 3 selects; an 8x16 sprite takes its table from bit 0 of the tile
/// number and its top half from the even tile, rows 8-15 coming from the next tile.
pub proof fn lemma_sprite_row_address(oam: Seq<u8>, ctrl: u8, scanline: int, j: int)
    requires
        sprite_on_line(oam, scanline, sprite_height(ctrl), j),
    ensures
        ({
            let d = scanline - oam[4 * j];
            let tile = oam[4 * j + 1] as int;
            let flip = oam[4 * j + 2] >= 128;
            let addr = sprite_row_addr(oam, ctrl, scanline, j);
            &&& (ctrl / 32) % 2 == 0 ==> addr == (if (ctrl / 8) % 2 == 1 { 0x1000int } else { 0 }) + 16 * tile + (if flip {
                7 - d
            } else {
                d
            })
            &&& (ctrl / 32) % 2 == 1 ==> {
                let row = if flip { 15 - d } else { d };
                addr == (tile % 2) * 0x1000 + 16 * (tile - tile % 2) + row + (if row >= 8 { 8int } else { 0 })
            }
        }),
{
}

/// Sprite height in rows: 16 when PPUCTRL bit 5 is set, else 8.
pub open spec fn sprite_height(ctrl: u8) -> int {
    if (ctrl / 32) % 2 == 1 {
        16
    } else {
        8
    }
}

/// Whether OAM sprite `j` covers `scanline`, sprites being `height` rows tall.
pub open spec fn sprite_on_line(oam: Seq<u8>, scanline: int, height: int, j: int) -> bool {
    0 <= scanline - oam[4 * j] < height
}

/// How many of the OAM sprites before `j` cover `scanline`.
#[verifier::opaque]
pub open spec fn sprites_on_line_before(oam: Seq<u8>, scanline: int, height: int, j: int) -> nat
    decreases j,
{
    if j <= 0 {
        0
    } else {
        sprites_on_line_before(oam, scanline, height, j - 1) + if sprite_on_line(oam, scanline, height, j - 1) {
            1nat
        } else {
            0nat
        }
    }
}

/// The pattern table address of the low-plane row of OAM sprite `j` that `scanline` shows,
/// flipped vertically by attribute bit 7; 8x16 sprites take their table from bit 0 of the
/// tile index, 8x8 sprites from PPUCTRL bit 3.
pub open spec fn sprite_row_addr(oam: Seq<u8>, ctrl: u8, scanline: int, j: int) -> int {
    let height = sprite_height(ctrl);
    let diff = scanline - oam[4 * j];
    let tile_idx = oam[4 * j + 1];
    let row = if oam[4 * j + 2] >= 0x80 {
        height - 1 - diff
    } else {
        diff
    };
    if height == 16 {
        let table: int = if tile_idx % 2 == 1 {
            0x1000
        } else {
            0
        };
        let tile = tile_idx - tile_idx % 2;
        if row >= 8 {
            table + (tile + 1) * 16 + row - 8
        } else {
            table + tile * 16 + row
        }
    } else {
        let table: int = if (ctrl / 8) % 2 == 1 {
            0x1000
        } else {
            0
        };
        table + tile_idx * 16 + row
    }
}

/// A sprite pattern byte read at `addr`, mirrored horizontally when attribute bit 6 is set.
pub open spec fn sprite_row_byte(p: &NesPpu, cart: Cartridge, addr: int, attrs: u8) -> u8 {
    let b = p.vram_at(addr as u16, cart);
    if (attrs / 64) % 2 == 1 {
        reverse_spec(b)
    } else {
        b
    }
}

/// Sprite slot `k` of `b` holds the row of OAM sprite `j` of `a` on `a`'s scanline: both
/// pattern bytes, X and attributes.
#[verifier::opaque]
pub open spec fn sprite_slot_holds(a: &NesPpu, b: &NesPpu, cart: Cartridge, j: int, k: int) -> bool {
    let oam = a.oam@;
    let addr = sprite_row_addr(oam, a.ctrl, a.scanline as int, j);
    let attrs = oam[4 * j + 2];
    &&& b.sprite_patterns_lo@[k] == sprite_row_byte(a, cart, addr, attrs)
    &&& b.sprite_patterns_hi@[k] == sprite_row_byte(a, cart, addr + 8, attrs)
    &&& b.sprite_x@[k] == oam[4 * j + 3]
    &&& b.sprite_attrs@[k] == attrs
}

/// Sprite slot `k` is the same in `a` and `b`.
pub open spec fn sprite_slot_same(a: &NesPpu, b: &NesPpu, k: int) -> bool {
    &&& b.sprite_patterns_lo@[k] == a.sprite_patterns_lo@[k]
    &&& b.sprite_patterns_hi@[k] == a.sprite_patterns_hi@[k]
    &&& b.sprite_x@[k] == a.sprite_x@[k]
    &&& b.sprite_attrs@[k] == a.sprite_attrs@[k]
}

/// `b` equals `a` but for the sprite slots, the sprite count and flags, and PPUSTATUS.
pub open spec fn nes_ppu_same_but_sprites(a: &NesPpu, b: &NesPpu) -> bool {
    &&& b.ctrl == a.ctrl && b.mask == a.mask && b.oam_addr == a.oam_addr
    &&& b.v == a.v && b.t == a.t && b.fine_x == a.fine_x && b.w == a.w
    &&& b.nametable_ram == a.nametable_ram && b.palette_ram == a.palette_ram && b.oam == a.oam
    &&& b.data_buffer == a.data_buffer && b.cycle == a.cycle && b.scanline == a.scanline && b.frame == a.frame
    &&& b.bg_pattern_lo == a.bg_pattern_lo && b.bg_pattern_hi == a.bg_pattern_hi
    &&& b.bg_attrib_lo == a.bg_attrib_lo && b.bg_attrib_hi == a.bg_attrib_hi
    &&& b.nt_byte == a.nt_byte && b.at_byte == a.at_byte && b.bg_lo == a.bg_lo && b.bg_hi == a.bg_hi
    &&& b.frame_buffer == a.frame_buffer && b.frame_ready == a.frame_ready && b.nmi_requested == a.nmi_requested
}

/// A slot that holds a sprite's row still does in a PPU whose slot `k` is the same.
proof fn lemma_slot_holds_kept(a: &NesPpu, b: &NesPpu, c: &NesPpu, cart: Cartridge, j: int, k: int)
    requires
        sprite_slot_holds(a, b, cart, j, k),
        sprite_slot_same(b, c, k),
    ensures
        sprite_slot_holds(a, c, cart, j, k),
{
    reveal(sprite_slot_holds);
}

/// A VRAM read gives the same byte in two PPUs with the same nametables, palettes and mask.
proof fn lemma_vram_at_same(a: &NesPpu, b: &NesPpu, addr: u16, cart: Cartridge)
    requires
        a.nametable_ram@ == b.nametable_ram@,
        a.palette_ram@ == b.palette_ram@,
        a.mask == b.mask,
    ensures
        a.vram_at(addr, cart) == b.vram_at(addr, cart),
{
}

/// Slot `k` of `cur` holds the row of OAM sprite `j` of `a` when it holds the bytes read at
/// the row's address (mirrored by attribute bit 6), the sprite's X and its attributes.
proof fn lemma_new_slot(a: &NesPpu, cur: &NesPpu, cart: Cartridge, j: int, k: int, addr: u16, lo_raw: u8, hi_raw: u8)
    requires
        addr == sprite_row_addr(a.oam@, a.ctrl, a.scanline as int, j),
        addr + 8 < 0x1_0000,
        lo_raw == a.vram_at(addr, cart),
        hi_raw == a.vram_at((addr + 8) as u16, cart),
        cur.sprite_attrs@[k] == a.oam@[4 * j + 2],
        cur.sprite_x@[k] == a.oam@[4 * j + 3],
        cur.sprite_patterns_lo@[k] == if (cur.sprite_attrs@[k] / 64) % 2 == 1 {
            reverse_spec(lo_raw)
        } else {
            lo_raw
        },
        cur.sprite_patterns_hi@[k] == if (cur.sprite_attrs@[k] / 64) % 2 == 1 {
            reverse_spec(hi_raw)
        } else {
            hi_raw
        },
    ensures
        sprite_slot_holds(a, cur, cart, j, k),
{
    reveal(sprite_slot_holds);
}

/// Sprite evaluation's slot facts after sprite `i`, the `sc`-th on the line, went to slot
/// `sc` of `top`, giving `cur`.
proof fn lemma_slots_after_push(
    a: &NesPpu,
    top: &NesPpu,
    cur: &NesPpu,
    cart: Cartridge,
    oam: Seq<u8>,
    sl: int,
    h: int,
    i: int,
)
    requires
        0 <= i < 64,
        sprite_on_line(oam, sl, h, i),
        top.sprite_count == sprites_on_line_before(oam, sl, h, i),
        top.sprite_count < 8,
        cur.sprite_count == top.sprite_count + 1,
        forall|j: int|
            0 <= j < i && #[trigger] sprite_on_line(oam, sl, h, j) && sprites_on_line_before(oam, sl, h, j) < 8
                ==> sprite_slot_holds(a, top, cart, j, sprites_on_line_before(oam, sl, h, j) as int),
        forall|k: int| top.sprite_count <= k < 8 ==> #[trigger] sprite_slot_same(a, top, k),
        sprite_slot_holds(a, cur, cart, i, top.sprite_count as int),
        forall|k: int| 0 <= k < 8 && k != top.sprite_count ==> #[trigger] sprite_slot_same(top, cur, k),
    ensures
        forall|j: int|
            0 <= j < i + 1 && #[trigger] sprite_on_line(oam, sl, h, j) && sprites_on_line_before(oam, sl, h, j) < 8
                ==> sprite_slot_holds(a, cur, cart, j, sprites_on_line_before(oam, sl, h, j) as int),
        forall|k: int| cur.sprite_count <= k < 8 ==> #[trigger] sprite_slot_same(a, cur, k),
{
    assert forall|j: int|
        0 <= j < i + 1 && #[trigger] sprite_on_line(oam, sl, h, j) && sprites_on_line_before(oam, sl, h, j) < 8
            implies sprite_slot_holds(a, cur, cart, j, sprites_on_line_before(oam, sl, h, j) as int) by {
        if j < i {
            let k = sprites_on_line_before(oam, sl, h, j) as int;
            lemma_sprite_rank(oam, sl, h, j, i);
            assert(sprite_slot_same(top, cur, k));
            lemma_slot_holds_kept(a, top, cur, cart, j, k);
        }
    }
    assert forall|k: int| cur.sprite_count <= k < 8 implies #[trigger] sprite_slot_same(a, cur, k) by {
        assert(sprite_slot_same(a, top, k));
        assert(sprite_slot_same(top, cur, k));
    }
}

/// Sprite evaluation's slot facts when the `i`-th sprite is a ninth one on the line: the
/// sprites in the slots all come before `i`, and `cur` keeps `top`'s slots.
proof fn lemma_slots_at_overflow(
    a: &NesPpu,
    top: &NesPpu,
    cur: &NesPpu,
    cart: Cartridge,
    oam: Seq<u8>,
    sl: int,
    h: int,
    i: int,
)
    requires
        0 <= i < 64,
        sprite_on_line(oam, sl, h, i),
        sprites_on_line_before(oam, sl, h, i) == 8,
        forall|j: int|
            0 <= j < i && #[trigger] sprite_on_line(oam, sl, h, j) && sprites_on_line_before(oam, sl, h, j) < 8
                ==> sprite_slot_holds(a, top, cart, j, sprites_on_line_before(oam, sl, h, j) as int),
        forall|k: int| 0 <= k < 8 ==> #[trigger] sprite_slot_same(top, cur, k),
    ensures
        sprites_on_line_before(oam, sl, h, 64) > 8,
        forall|j: int|
            0 <= j < 64 && #[trigger] sprite_on_line(oam, sl, h, j) && sprites_on_line_before(oam, sl, h, j) < 8
                ==> j < i && sprite_slot_holds(a, cur, cart, j, sprites_on_line_before(oam, sl, h, j) as int),
{
    lemma_sprites_before_step(oam, sl, h, i);
    lemma_sprites_before_mono(oam, sl, h, i + 1, 64);
    assert forall|j: int|
        0 <= j < 64 && #[trigger] sprite_on_line(oam, sl, h, j) && sprites_on_line_before(oam, sl, h, j) < 8
            implies j < i && sprite_slot_holds(a, cur, cart, j, sprites_on_line_before(oam, sl, h, j) as int) by {
        if j >= i {
            lemma_sprites_before_mono(oam, sl, h, i, j);
        }
        let k = sprites_on_line_before(oam, sl, h, j) as int;
        assert(sprite_slot_same(top, cur, k));
        lemma_slot_holds_kept(a, top, cur, cart, j, k);
    }
}

/// One more sprite counted when sprite `i` covers the line.
proof fn lemma_sprites_before_step(oam: Seq<u8>, scanline: int, height: int, i: int)
    requires
        0 <= i,
    ensures
        sprites_on_line_before(oam, scanline, height, i + 1) == sprites_on_line_before(oam, scanline, height, i) + if sprite_on_line(
            oam,
            scanline,
            height,
            i,
        ) {
            1int
        } else {
            0int
        },
{
    reveal(sprites_on_line_before);
}

/// The count of sprites on a line before `j` grows with `j`.
proof fn lemma_sprites_before_mono(oam: Seq<u8>, scanline: int, height: int, i: int, j: int)
    requires
        0 <= i <= j,
    ensures
        sprites_on_line_before(oam, scanline, height, i) <= sprites_on_line_before(oam, scanline, height, j),
    decreases j - i,
{
    if i < j {
        lemma_sprites_before_mono(oam, scanline, height, i, j - 1);
        lemma_sprites_before_step(oam, scanline, height, j - 1);
    }
}

/// A sprite on the line comes before every later sprite on it in the count.
proof fn lemma_sprite_rank(oam: Seq<u8>, scanline: int, height: int, j: int, i: int)
    requires
        0 <= j < i,
        sprite_on_line(oam, scanline, height, j),
    ensures
        sprites_on_line_before(oam, scanline, height, j) + 1 <= sprites_on_line_before(oam, scanline, height, i),
{
    lemma_sprites_before_step(oam, scanline, height, j);
    lemma_sprites_before_mono(oam, scanline, height, j + 1, i);
}

fn reverse_byte(v: u8) -> (r: u8)
    ensures
        r == reverse_spec(v),
{
    (v % 2) * 128 + ((v / 2) % 2) * 64 + ((v / 4) % 2) * 32 + ((v / 8) % 2) * 16 + ((v / 16) % 2) * 8
        + ((v / 32) % 2) * 4 + ((v / 64) % 2) * 2 + v / 128
}

// ---------------------------------------------------------------------------
// Address helpers
// ---------------------------------------------------------------------------

/// Palette RAM index for an address at or above $3F00; $3F10/$3F14/$3F18/$3F1C mirror $3F00/4/8/C.
pub open spec fn palette_index_spec(addr: u16) -> int {
    let idx = (addr - 0x3F00) % 32;
    if idx >= 16 && idx % 4 == 0 {
        idx - 16
    } else {
        idx
    }
}

/// Palette RAM addressing, for every palette entry `i` (0-31): $3F00 + i and every 32-byte
/// repeat of it up to $3FFF reach the same byte; the sprite palettes' entry 0 ($3F10, $3F14,
/// $3F18, $3F1C) is the matching background entry, and every other entry has its own byte.
pub proof fn lemma_palette_addressing(i: u16, k: u16)
    requires
        i < 32,
        k < 8,
    ensures
        palette_index_spec((0x3F00 + 32 * k + i) as u16) == palette_index_spec((0x3F00 + i) as u16),
        palette_index_spec((0x3F00 + i) as u16) == if i >= 16 && i % 4 == 0 { i - 16 } else { i as int },
        forall|j: u16|
            j < 32 && j != i && !(i % 4 == 0 && j % 4 == 0 && (i + 16 == j || j + 16 == i)) ==> #[trigger] palette_index_spec(
                (0x3F00 + j) as u16,
            ) != palette_index_spec((0x3F00 + i) as u16),
{
    assert((32 * k + i) % 32 == i as int) by (nonlinear_arith)
        requires
            i < 32,
    ;
}

/// Nametable RAM index (0..2048) for a nametable address.
pub open spec fn mirror_spec(addr: u16, mirroring: Mirroring) -> int {
    let a = (addr - 0x2000) % 4096;
    let table = a / 1024;
    let offset = a % 1024;
    let mapped: int = match mirroring {
        Mirroring::Horizontal => if table < 2 { 0 } else { 1 },
        Mirroring::Vertical => table % 2,
        Mirroring::SingleScreenLow => 0,
        Mirroring::SingleScreenHigh => 1,
        Mirroring::FourScreen => table % 2,
    };
    mapped * 1024 + offset
}

/// Nametable mirroring, for every address `addr` of the first nametable ($2000-$23FF) at
/// offset `o`: horizontal mirroring backs $2000/$2400 with the first 1 KiB of nametable RAM
/// and $2800/$2C00 with the second; vertical mirroring backs $2000/$2800 with the first and
/// $2400/$2C00 with the second; one-screen mirroring backs all four with the low or the
/// high 1 KiB. $3000-$3EFF repeats $2000-$2EFF.
pub proof fn lemma_nametable_mirroring(addr: u16, x: u16)
    requires
        0x2000 <= addr < 0x2400,
        0x2000 <= x < 0x2F00,
    ensures
        ({
            let o = addr - 0x2000;
            let n1 = (addr + 0x400) as u16;
            let n2 = (addr + 0x800) as u16;
            let n3 = (addr + 0xC00) as u16;
            &&& mirror_spec(addr, Mirroring::Horizontal) == o && mirror_spec(n1, Mirroring::Horizontal) == o
            &&& mirror_spec(n2, Mirroring::Horizontal) == 1024 + o && mirror_spec(n3, Mirroring::Horizontal) == 1024 + o
            &&& mirror_spec(addr, Mirroring::Vertical) == o && mirror_spec(n2, Mirroring::Vertical) == o
            &&& mirror_spec(n1, Mirroring::Vertical) == 1024 + o && mirror_spec(n3, Mirroring::Vertical) == 1024 + o
            &&& mirror_spec(addr, Mirroring::SingleScreenLow) == o && mirror_spec(n1, Mirroring::SingleScreenLow) == o
            &&& mirror_spec(n2, Mirroring::SingleScreenLow) == o && mirror_spec(n3, Mirroring::SingleScreenLow) == o
            &&& mirror_spec(addr, Mirroring::SingleScreenHigh) == 1024 + o && mirror_spec(n1, Mirroring::SingleScreenHigh)
                == 1024 + o
            &&& mirror_spec(n2, Mirroring::SingleScreenHigh) == 1024 + o && mirror_spec(n3, Mirroring::SingleScreenHigh)
                == 1024 + o
        }),
        forall|m: Mirroring| #[trigger] mirror_spec((x + 0x1000) as u16, m) == mirror_spec(x, m),
{
}

// ---------------------------------------------------------------------------
// PPU state
// ---------------------------------------------------------------------------
pub struct NesPpu {
    /// $2000 PPUCTRL
    pub ctrl: u8,
    /// $2001 PPUMASK
    pub mask: u8,
    /// $2002 PPUSTATUS
    pub status: u8,
    /// $2003 OAMADDR
    pub oam_addr: u8,
    /// Current VRAM address (15 bits).
    pub v: u16,
    /// Temporary VRAM address (15 bits).
    pub t: u16,
    pub fine_x: u8,
    /// First/second write toggle.
    pub w: bool,
    pub nametable_ram: Vec<u8>,
    pub palette_ram: Vec<u8>,
    pub oam: Vec<u8>,
    /// PPUDATA read buffer.
    pub data_buffer: u8,
    pub cycle: u16,
    pub scanline: i16,
    pub frame: u64,
    pub bg_pattern_lo: u16,
    pub bg_pattern_hi: u16,
    pub bg_attrib_lo: u16,
    pub bg_attrib_hi: u16,
    pub nt_byte: u8,
    pub at_byte: u8,
    pub bg_lo: u8,
    pub bg_hi: u8,
    pub sprite_count: u32,
    pub sprite_patterns_lo: Vec<u8>,
    pub sprite_patterns_hi: Vec<u8>,
    pub sprite_x: Vec<u8>,
    pub sprite_attrs: Vec<u8>,
    pub sprite0_hit_possible: bool,
    pub sprite0_being_rendered: bool,
    /// RGBA, 256 * 240 * 4 bytes.
    pub frame_buffer: Vec<u8>,
    pub frame_ready: bool,
    pub nmi_requested: bool,
}


/// A PPU position: scanline, dot and frame number.
pub type PpuPos = (int, int, int);

/// The position after one dot: 341 dots per line, 262 lines per frame (the pre-render line is
/// 261), and dot 0 of line 0 skipped on odd frames while rendering.
pub open spec fn ppu_next_pos(p: PpuPos, rendering: bool) -> PpuPos {
    let c1 = p.1 + 1;
    let wrap = c1 > 340;
    let sl1 = if wrap { p.0 + 1 } else { p.0 };
    let new_frame = wrap && sl1 > 261;
    let sl2 = if new_frame { 0 } else { sl1 };
    let fr = if new_frame { (p.2 + 1) % 0x1_0000_0000_0000_0000 } else { p.2 };
    let cyc = if wrap { 0 } else { c1 };
    let skip = rendering && fr % 2 == 1 && sl2 == 0 && cyc == 0;
    (sl2, if skip { 1 } else { cyc }, fr)
}

/// Whether the dot at `p` is the last of a frame.
pub open spec fn ppu_ends_frame(p: PpuPos) -> bool {
    p.1 + 1 > 340 && p.0 + 1 > 261
}

/// The position after `n` dots.
pub open spec fn ppu_pos_after(p: PpuPos, rendering: bool, n: nat) -> PpuPos
    decreases n,
{
    if n == 0 {
        p
    } else {
        ppu_pos_after(ppu_next_pos(p, rendering), rendering, (n - 1) as nat)
    }
}

/// Whether one of the `n` dots from `p` is line 241, dot 1, where VBlank starts.
pub open spec fn ppu_passes_vblank(p: PpuPos, rendering: bool, n: nat) -> bool
    decreases n,
{
    if n == 0 {
        false
    } else {
        (p.0 == 241 && p.1 == 1) || ppu_passes_vblank(ppu_next_pos(p, rendering), rendering, (n - 1) as nat)
    }
}

/// Whether one of the `n` dots from `p` ends a frame.
pub open spec fn ppu_passes_frame_end(p: PpuPos, rendering: bool, n: nat) -> bool
    decreases n,
{
    if n == 0 {
        false
    } else {
        ppu_ends_frame(p) || ppu_passes_frame_end(ppu_next_pos(p, rendering), rendering, (n - 1) as nat)
    }
}

/// One more dot at the end of a run of `n`.
proof fn lemma_one_more_dot(p: PpuPos, rendering: bool, n: nat)
    ensures
        ppu_pos_after(p, rendering, n + 1) == ppu_next_pos(ppu_pos_after(p, rendering, n), rendering),
        ppu_passes_vblank(p, rendering, n + 1) == (ppu_passes_vblank(p, rendering, n) || {
            let q = ppu_pos_after(p, rendering, n);
            q.0 == 241 && q.1 == 1
        }),
        ppu_passes_frame_end(p, rendering, n + 1) == (ppu_passes_frame_end(p, rendering, n) || ppu_ends_frame(
            ppu_pos_after(p, rendering, n),
        )),
    decreases n,
{
    let q = ppu_next_pos(p, rendering);
    assert(ppu_pos_after(p, rendering, n + 1) == ppu_pos_after(q, rendering, n));
    assert(ppu_passes_vblank(p, rendering, n + 1) == ((p.0 == 241 && p.1 == 1) || ppu_passes_vblank(
        q,
        rendering,
        n,
    )));
    assert(ppu_passes_frame_end(p, rendering, n + 1) == (ppu_ends_frame(p) || ppu_passes_frame_end(
        q,
        rendering,
        n,
    )));
    if n > 0 {
        let m = (n - 1) as nat;
        lemma_one_more_dot(q, rendering, m);
        assert(m + 1 == n);
        assert(ppu_pos_after(p, rendering, n) == ppu_pos_after(q, rendering, m));
        assert(ppu_passes_vblank(p, rendering, n) == ((p.0 == 241 && p.1 == 1) || ppu_passes_vblank(
            q,
            rendering,
            m,
        )));
        assert(ppu_passes_frame_end(p, rendering, n) == (ppu_ends_frame(p) || ppu_passes_frame_end(
            q,
            rendering,
            m,
        )));
    } else {
        assert(ppu_pos_after(q, rendering, 0) == q);
        assert(ppu_pos_after(p, rendering, 0) == p);
    }
}

/// One dot with rendering off: the dot index within the frame (341 per line) steps by one,
/// and after the last dot (line 261, dot 340) the next frame starts at index 0.
proof fn lemma_next_pos_off(q: PpuPos)
    requires
        0 <= q.0 <= 261,
        0 <= q.1 <= 340,
    ensures
        ({
            let r = ppu_next_pos(q, false);
            &&& 0 <= r.0 <= 261 && 0 <= r.1 <= 340
            &&& q.0 * 341 + q.1 < 89341 ==> r.0 * 341 + r.1 == q.0 * 341 + q.1 + 1 && r.2 == q.2
            &&& q.0 * 341 + q.1 == 89341 ==> r.0 * 341 + r.1 == 0 && r.2 == (q.2 + 1) % 0x1_0000_0000_0000_0000
            &&& ppu_ends_frame(q) == (q.0 * 341 + q.1 == 89341)
        }),
{
}

/// `x` divided by `d` gives quotient `q` and remainder `r`.
proof fn lemma_div_mod_is(x: int, d: int, q: int, r: int)
    requires
        d > 0,
        0 <= r < d,
        x == q * d + r,
    ensures
        x % d == r,
        x / d == q,
{
    vstd::arithmetic::div_mod::lemma_fundamental_div_mod_converse(x, d, q, r);
}

/// With rendering off the PPU runs frames of 89342 dots (262 lines of 341 dots). After `n`
/// dots from position `p`, at dot index `i = 341 * line + dot` of its frame, the PPU stands
/// at index `(i + n) % 89342` of frame `p.2 + (i + n) / 89342` (the frame counter wraps at
/// 2^64); the run ends a frame exactly when `i + n` reaches 89342, and it passes the start
/// of VBlank (line 241, dot 1: index 82182) exactly when that dot lies fewer than `n` dots
/// ahead.
pub proof fn lemma_ppu_timing_rendering_off(p: PpuPos, n: nat)
    requires
        0 <= p.0 <= 261,
        0 <= p.1 <= 340,
        0 <= p.2 < 0x1_0000_0000_0000_0000,
    ensures
        ({
            let i = p.0 * 341 + p.1;
            let q = ppu_pos_after(p, false, n);
            &&& 0 <= q.0 <= 261 && 0 <= q.1 <= 340
            &&& q.0 * 341 + q.1 == (i + n) % 89342
            &&& q.2 == (p.2 + (i + n) / 89342) % 0x1_0000_0000_0000_0000
            &&& ppu_passes_frame_end(p, false, n) == (i + n >= 89342)
            &&& ppu_passes_vblank(p, false, n) == ((82182 - i) % 89342 < n)
        }),
    decreases n,
{
    let i = p.0 * 341 + p.1;
    let d: int = if i <= 82182 { 82182 - i } else { 82182 - i + 89342 };
    lemma_div_mod_is(82182 - i, 89342, if i <= 82182 { 0 } else { -1 }, d);
    if n == 0 {
        lemma_div_mod_is(i, 89342, 0, i);
    } else {
        let m = (n - 1) as nat;
        lemma_ppu_timing_rendering_off(p, m);
        lemma_one_more_dot(p, false, m);
        let q = ppu_pos_after(p, false, m);
        lemma_next_pos_off(q);
        let t = i + m;
        let k = t / 89342;
        let r = t % 89342;
        vstd::arithmetic::div_mod::lemma_fundamental_div_mod(t, 89342);
        vstd::arithmetic::div_mod::lemma_mod_pos_bound(t, 89342);
        if r < 89341 {
            lemma_div_mod_is(t + 1, 89342, k, r + 1);
        } else {
            lemma_div_mod_is(t + 1, 89342, k + 1, 0);
            vstd::arithmetic::div_mod::lemma_add_mod_noop(p.2 + k, 1, 0x1_0000_0000_0000_0000);
            vstd::arithmetic::div_mod::lemma_small_mod(1, 0x1_0000_0000_0000_0000);
        }
        if t < 89342 {
            lemma_div_mod_is(t, 89342, 0, t);
        }
        if d >= m {
            if t < 89342 {
                lemma_div_mod_is(t, 89342, 0, t);
            } else {
                lemma_div_mod_is(t, 89342, 1, t - 89342);
            }
        }
    }
}

impl NesPpu {
    /// The current position.
    pub open spec fn pos(&self) -> PpuPos {
        (self.scanline as int, self.cycle as int, self.frame as int)
    }

    /// Whether rendering (background or sprites) is enabled in PPUMASK.
    pub open spec fn rendering(&self) -> bool {
        (self.mask / 8) % 4 != 0
    }
}

impl NesPpu {
    /// Memory sizes and the ranges the counters stay in.
    pub open spec fn wf(&self) -> bool {
        &&& self.nametable_ram@.len() == 2048
        &&& self.palette_ram@.len() == 32
        &&& self.oam@.len() == 256
        &&& self.frame_buffer@.len() == FRAME_BYTES
        &&& self.sprite_patterns_lo@.len() == 8
        &&& self.sprite_patterns_hi@.len() == 8
        &&& self.sprite_x@.len() == 8
        &&& self.sprite_attrs@.len() == 8
        &&& self.sprite_count <= 8
        &&& self.cycle <= 340
        &&& 0 <= self.scanline <= 261
        &&& self.v < 0x8000
        &&& self.t < 0x8000
        &&& self.fine_x < 8
    }

    /// The byte a VRAM read at `addr` gives.
    pub open spec fn vram_at(&self, addr: u16, cart: Cartridge) -> u8 {
        let a = (addr % 0x4000) as u16;
        if a < 0x2000 {
            cart.chr_at(a)
        } else if a < 0x3F00 {
            self.nametable_ram@[mirror_spec(a, cart.mirroring_spec())]
        } else {
            self.palette_at(a)
        }
    }

    /// A palette read: greyscale (PPUMASK bit 0) keeps only bits 4-5.
    pub open spec fn palette_at(&self, addr: u16) -> u8 {
        let val = self.palette_ram@[palette_index_spec(addr)];
        if self.mask % 2 == 1 {
            val & 0x30
        } else {
            val
        }
    }

    /// The amount PPUDATA accesses step the VRAM address by (PPUCTRL bit 2).
    pub open spec fn addr_increment(&self) -> u16 {
        if (self.ctrl / 4) % 2 == 1 {
            32
        } else {
            1
        }
    }

    pub fn new() -> (p: Self)
        ensures
            p.wf(),
            p.scanline == 261,
            p.cycle == 0,
            p.frame == 0,
            p.ctrl == 0 && p.mask == 0 && p.status == 0 && p.oam_addr == 0,
            p.v == 0 && p.t == 0 && p.fine_x == 0 && !p.w,
            p.oam@ == Seq::new(256, |i| 0xFFu8),
            p.nametable_ram@ == Seq::new(2048, |i| 0u8),
            p.palette_ram@ == Seq::new(32, |i| 0u8),
            p.frame_buffer@ == Seq::new(FRAME_BYTES as nat, |i| 0u8),
            !p.frame_ready && !p.nmi_requested,
            p.data_buffer == 0,
            p.bg_pattern_lo == 0 && p.bg_pattern_hi == 0 && p.bg_attrib_lo == 0 && p.bg_attrib_hi == 0,
            p.nt_byte == 0 && p.at_byte == 0 && p.bg_lo == 0 && p.bg_hi == 0,
            p.sprite_count == 0 && !p.sprite0_hit_possible && !p.sprite0_being_rendered,
            p.sprite_patterns_lo@ == Seq::new(8, |i| 0u8) && p.sprite_patterns_hi@ == Seq::new(8, |i| 0u8),
            p.sprite_x@ == Seq::new(8, |i| 0u8) && p.sprite_attrs@ == Seq::new(8, |i| 0u8),
    {
        let p = NesPpu {
            ctrl: 0,
            mask: 0,
            status: 0,
            oam_addr: 0,
            v: 0,
            t: 0,
            fine_x: 0,
            w: false,
            nametable_ram: vec![0u8; 2048],
            palette_ram: vec![0u8; 32],
            oam: vec![0xFFu8; 256],
            data_buffer: 0,
            cycle: 0,
            scanline: 261,
            frame: 0,
            bg_pattern_lo: 0,
            bg_pattern_hi: 0,
            bg_attrib_lo: 0,
            bg_attrib_hi: 0,
            nt_byte: 0,
            at_byte: 0,
            bg_lo: 0,
            bg_hi: 0,
            sprite_count: 0,
            sprite_patterns_lo: vec![0u8; 8],
            sprite_patterns_hi: vec![0u8; 8],
            sprite_x: vec![0u8; 8],
            sprite_attrs: vec![0u8; 8],
            sprite0_hit_possible: false,
            sprite0_being_rendered: false,
            frame_buffer: vec![0u8; FRAME_BYTES],
            frame_ready: false,
            nmi_requested: false,
        };
        assert(p.oam@ =~= Seq::new(256, |i| 0xFFu8));
        assert(p.nametable_ram@ =~= Seq::new(2048, |i| 0u8));
        assert(p.palette_ram@ =~= Seq::new(32, |i| 0u8));
        assert(p.frame_buffer@ =~= Seq::new(FRAME_BYTES as nat, |i| 0u8));
        assert(p.sprite_patterns_lo@ =~= Seq::new(8, |i| 0u8));
        assert(p.sprite_patterns_hi@ =~= Seq::new(8, |i| 0u8));
        assert(p.sprite_x@ =~= Seq::new(8, |i| 0u8));
        assert(p.sprite_attrs@ =~= Seq::new(8, |i| 0u8));
        p
    }

    // -----------------------------------------------------------------------
    // Register access (CPU side)
    // -----------------------------------------------------------------------

    /// A CPU read of register `addr & 7`: PPUSTATUS (clears VBlank and the write
    /// toggle), OAMDATA or PPUDATA (buffered below $3F00); others read 0.
    pub fn read_register(&mut self, addr: u16, cartridge: &mut Cartridge) -> (val: u8)
        requires
            old(self).wf(),
            old(cartridge).wf(),
        ensures
            final(self).wf(),
            ppu_reg_read_rel(&*old(self), *old(cartridge), &*final(self), *final(cartridge), addr, val),
    {
        let reg = addr % 8;
        if reg == 2 {
            let val = (self.status & 0xE0) | (self.data_buffer & 0x1F);
            self.status = self.status & 0x7F;
            self.w = false;
            val
        } else if reg == 4 {
            self.oam[self.oam_addr as usize]
        } else if reg == 7 {
            let vaddr = self.v % 0x4000;
            let val = if vaddr >= 0x3F00 {
                self.data_buffer = self.read_vram(vaddr - 0x1000, cartridge);
                self.read_palette(vaddr)
            } else {
                let old_buf = self.data_buffer;
                self.data_buffer = self.read_vram(vaddr, cartridge);
                old_buf
            };
            let inc: u16 = if (self.ctrl / 4) % 2 == 1 { 32 } else { 1 };
            self.v = (self.v + inc) % 0x8000;
            val
        } else {
            0
        }
    }

    /// A CPU write of register `addr & 7`.
    pub fn write_register(&mut self, addr: u16, val: u8, cartridge: &mut Cartridge)
        requires
            old(self).wf(),
            old(cartridge).wf(),
        ensures
            final(self).wf(),
            final(cartridge).wf(),
            final(cartridge).kind() == old(cartridge).kind(),
            ppu_reg_write_rel(&*old(self), *old(cartridge), &*final(self), *final(cartridge), addr, val),
    {
        let reg = addr % 8;
        if reg == 0 {
            let old_nmi = self.ctrl >= 0x80;
            self.ctrl = val;
            self.t = (self.t & 0xF3FF) | (((val as u16 % 4) * 1024) as u16);
            if !old_nmi && self.ctrl >= 0x80 && self.status >= 0x80 {
                self.nmi_requested = true;
            }
            proof { lemma_t_bound_ctrl(old(self).t, val); }
        } else if reg == 1 {
            self.mask = val;
        } else if reg == 3 {
            self.oam_addr = val;
        } else if reg == 4 {
            self.oam.set(self.oam_addr as usize, val);
            self.oam_addr = self.oam_addr.wrapping_add(1);
        } else if reg == 5 {
            if !self.w {
                self.t = (self.t & 0xFFE0) | ((val as u16 / 8) as u16);
                self.fine_x = val % 8;
            } else {
                self.t = (((self.t & 0x8FFF) | (((val as u16 % 8) * 4096) as u16)) & 0xFC1F) | (((val as u16 / 8) * 32) as u16);
            }
            proof { lemma_t_bound_scroll(old(self).t, val); }
            self.w = !self.w;
        } else if reg == 6 {
            if !self.w {
                self.t = (self.t & 0x80FF) | (((val as u16 % 64) * 256) as u16);
            } else {
                self.t = (self.t & 0xFF00) | val as u16;
                self.v = self.t;
            }
            proof { lemma_t_bound_addr(old(self).t, val); }
            self.w = !self.w;
        } else if reg == 7 {
            let vaddr = self.v % 0x4000;
            if vaddr >= 0x3F00 {
                self.write_palette(vaddr, val);
            } else {
                self.write_vram(vaddr, val, cartridge);
            }
            let inc: u16 = if (self.ctrl / 4) % 2 == 1 { 32 } else { 1 };
            self.v = (self.v + inc) % 0x8000;
        }
    }

    /// OAM DMA: 256 bytes written to OAM starting at OAMADDR, wrapping around.
    pub fn write_oam_dma(&mut self, data: &Vec<u8>)
        requires
            old(self).wf(),
            data@.len() == 256,
        ensures
            final(self).wf(),
            forall|i: int| 0 <= i < 256 ==> #[trigger] final(self).oam@[(old(self).oam_addr + i) % 256] == data@[i],
            final(self).oam_addr == old(self).oam_addr,
            *final(self) == (NesPpu { oam: final(self).oam, ..*old(self) }),
    {
        let mut i: usize = 0;
        while i < 256
            invariant
                self.wf(),
                i <= 256,
                self.oam_addr == old(self).oam_addr,
                *self == (NesPpu { oam: self.oam, ..*old(self) }),
                data@.len() == 256,
                forall|j: int| 0 <= j < i ==> #[trigger] self.oam@[(self.oam_addr + j) % 256] == data@[j],
            decreases 256 - i,
        {
            let idx = (self.oam_addr as usize + i) % 256;
            self.oam.set(idx, data[i]);
            proof {
                assert forall|j: int| 0 <= j < i + 1 implies #[trigger] self.oam@[(self.oam_addr + j) % 256] == data@[j] by {
                    if j < i {
                        assert((self.oam_addr + j) % 256 != idx as int);
                    }
                }
            }
            i = i + 1;
        }
    }

    // -----------------------------------------------------------------------
    // VRAM access
    // -----------------------------------------------------------------------

    /// A PPU-side read: pattern tables from the cartridge, nametables through
    /// mirroring, palette RAM above $3F00.
    pub fn read_vram(&self, addr: u16, cartridge: &Cartridge) -> (v: u8)
        requires
            self.wf(),
            cartridge.wf(),
        ensures
            v == self.vram_at(addr, *cartridge),
    {
        let addr = addr % 0x4000;
        if addr < 0x2000 {
            cartridge.read_chr(addr)
        } else if addr < 0x3F00 {
            let mirrored = self.mirror_nametable(addr, cartridge.mirroring());
            self.nametable_ram[mirrored]
        } else {
            self.read_palette(addr)
        }
    }

    fn write_vram(&mut self, addr: u16, val: u8, cartridge: &mut Cartridge)
        requires
            old(self).wf(),
            old(cartridge).wf(),
        ensures
            final(self).wf(),
            final(cartridge).wf(),
            final(cartridge).kind() == old(cartridge).kind(),
            ({
                let a = (addr % 0x4000) as u16;
                &&& a < 0x2000 ==> *final(self) == *old(self) && cart_write_chr(*old(cartridge), *final(cartridge), a, val)
                &&& 0x2000 <= a < 0x3F00 ==> *final(cartridge) == *old(cartridge) && final(self).nametable_ram@
                    == old(self).nametable_ram@.update(mirror_spec(a, old(cartridge).mirroring_spec()), val)
                    && *final(self) == (NesPpu { nametable_ram: final(self).nametable_ram, ..*old(self) })
                &&& a >= 0x3F00 ==> *final(cartridge) == *old(cartridge) && final(self).palette_ram@
                    == old(self).palette_ram@.update(palette_index_spec(a), val % 64)
                    && *final(self) == (NesPpu { palette_ram: final(self).palette_ram, ..*old(self) })
            }),
            final(self).v == old(self).v,
            final(self).ctrl == old(self).ctrl,
    {
        let addr = addr % 0x4000;
        if addr < 0x2000 {
            cartridge.write_chr(addr, val);
        } else if addr < 0x3F00 {
            let mirror = cartridge.mirroring();
            let mirrored = self.mirror_nametable(addr, mirror);
            self.nametable_ram.set(mirrored, val);
        } else {
            self.write_palette(addr, val);
        }
    }

    fn mirror_nametable(&self, addr: u16, mirroring: Mirroring) -> (i: usize)
        requires
            addr >= 0x2000,
        ensures
            i == mirror_spec(addr, mirroring),
            i < 2048,
    {
        let a = (addr - 0x2000) % 4096;
        let table = a / 1024;
        let offset = a % 1024;
        let mapped_table: usize = match mirroring {
            Mirroring::Horizontal => if table < 2 { 0 } else { 1 },
            Mirroring::Vertical => (table % 2) as usize,
            Mirroring::SingleScreenLow => 0,
            Mirroring::SingleScreenHigh => 1,
            Mirroring::FourScreen => (table % 2) as usize,
        };
        mapped_table * 1024 + offset as usize
    }

    fn read_palette(&self, addr: u16) -> (v: u8)
        requires
            self.wf(),
            addr >= 0x3F00,
        ensures
            v == self.palette_at(addr),
    {
        let idx = Self::palette_index(addr);
        let val = self.palette_ram[idx];
        if self.mask % 2 == 1 {
            val & 0x30
        } else {
            val
        }
    }

    fn write_palette(&mut self, addr: u16, val: u8)
        requires
            old(self).wf(),
            addr >= 0x3F00,
        ensures
            final(self).wf(),
            *final(self) == (NesPpu {
                palette_ram: final(self).palette_ram,
                ..*old(self)
            }),
            final(self).palette_ram@ == old(self).palette_ram@.update(palette_index_spec(addr), val % 64),
    {
        let idx = Self::palette_index(addr);
        self.palette_ram.set(idx, val % 64);
    }

    fn palette_index(addr: u16) -> (i: usize)
        requires
            addr >= 0x3F00,
        ensures
            i == palette_index_spec(addr),
            i < 32,
    {
        let mut idx = ((addr - 0x3F00) % 32) as usize;
        if idx >= 16 && idx % 4 == 0 {
            idx = idx - 16;
        }
        idx
    }

    // -----------------------------------------------------------------------
    // Stepping
    // -----------------------------------------------------------------------

    /// Runs 3 PPU cycles per CPU cycle. Returns (frame completed, NMI raised) for this call.
    pub fn step(&mut self, cpu_cycles: u32, cartridge: &mut Cartridge) -> (r: (bool, bool))
        requires
            old(self).wf(),
            old(cartridge).wf(),
            cpu_cycles * 3 <= u32::MAX,
        ensures
            final(self).wf(),
            final(cartridge).wf(),
            final(cartridge).kind() == old(cartridge).kind(),
            r == (final(self).frame_ready, final(self).nmi_requested),
            final(self).pos() == ppu_pos_after(old(self).pos(), old(self).rendering(), (3 * cpu_cycles) as nat),
            r.0 == ppu_passes_frame_end(old(self).pos(), old(self).rendering(), (3 * cpu_cycles) as nat),
            r.1 == (old(self).ctrl >= 0x80 && ppu_passes_vblank(
                old(self).pos(),
                old(self).rendering(),
                (3 * cpu_cycles) as nat,
            )),
            final(self).ctrl == old(self).ctrl && final(self).mask == old(self).mask,
            exists|tr: Seq<(NesPpu, Cartridge)>|
                #![trigger tr.len()]
                tr.len() == 3 * cpu_cycles + 1 && tr[0] == (
                NesPpu { frame_ready: false, nmi_requested: false, ..*old(self) },
                *old(cartridge),
            ) && tr.last() == (*final(self), *final(cartridge)) && forall|i: int|
                0 <= i < 3 * cpu_cycles ==> #[trigger] nes_tick_rel(&tr[i].0, tr[i].1, &tr[i + 1].0, tr[i + 1].1),
    {
        self.frame_ready = false;
        self.nmi_requested = false;
        let n = cpu_cycles * 3;
        let ghost mut tr: Seq<(NesPpu, Cartridge)> = seq![(*self, *cartridge)];
        let ghost tr0 = (*self, *cartridge);
        let ghost p0 = old(self).pos();
        let ghost rendering = old(self).rendering();
        let mut i: u32 = 0;
        while i < n
            invariant
                self.wf(),
                cartridge.wf(),
                cartridge.kind() == old(cartridge).kind(),
                i <= n,
                n == cpu_cycles * 3,
                self.ctrl == old(self).ctrl && self.mask == old(self).mask,
                rendering == self.rendering(),
                self.pos() == ppu_pos_after(p0, rendering, i as nat),
                self.frame_ready == ppu_passes_frame_end(p0, rendering, i as nat),
                self.nmi_requested == (self.ctrl >= 0x80 && ppu_passes_vblank(p0, rendering, i as nat)),
                tr.len() == i + 1,
                tr[0] == tr0,
                tr.last() == (*self, *cartridge),
                forall|j: int| 0 <= j < i ==> #[trigger] nes_tick_rel(&tr[j].0, tr[j].1, &tr[j + 1].0, tr[j + 1].1),
            decreases n - i,
        {
            proof {
                lemma_one_more_dot(p0, rendering, i as nat);
            }
            let ghost a = (*self, *cartridge);
            self.tick(cartridge);
            proof {
                let tr2 = tr.push((*self, *cartridge));
                assert forall|j: int| 0 <= j < i + 1 implies #[trigger] nes_tick_rel(
                    &tr2[j].0,
                    tr2[j].1,
                    &tr2[j + 1].0,
                    tr2[j + 1].1,
                ) by {
                    if j < i {
                        assert(tr2[j] == tr[j] && tr2[j + 1] == tr[j + 1]);
                    } else {
                        assert(tr2[j] == a && tr2[j + 1] == (*self, *cartridge));
                    }
                }
                tr = tr2;
            }
            i = i + 1;
        }
        assert(tr.len() == 3 * cpu_cycles + 1);
        (self.frame_ready, self.nmi_requested)
    }

    /// One PPU cycle.
    #[verifier::spinoff_prover]
    #[verifier::rlimit(40)]
    fn tick(&mut self, cartridge: &mut Cartridge)
        requires
            old(self).wf(),
            old(cartridge).wf(),
        ensures
            final(self).wf(),
            final(cartridge).wf(),
            final(cartridge).kind() == old(cartridge).kind(),
            ({
                let rendering = (old(self).mask / 8) % 4 != 0;
                let c1 = old(self).cycle + 1;
                let wrap = c1 > 340;
                let sl1: int = if wrap { old(self).scanline + 1 } else { old(self).scanline as int };
                let new_frame = wrap && sl1 > 261;
                let sl2: int = if new_frame { 0 } else { sl1 };
                let fr: int = if new_frame { (old(self).frame + 1) % 0x1_0000_0000_0000_0000 } else { old(self).frame as int };
                let cyc: int = if wrap { 0 } else { c1 };
                let skip = rendering && fr % 2 == 1 && sl2 == 0 && cyc == 0;
                &&& final(self).scanline == sl2
                &&& final(self).frame == fr
                &&& final(self).cycle == (if skip { 1 } else { cyc })
                &&& final(self).frame_ready == (old(self).frame_ready || new_frame)
                &&& final(self).nmi_requested == (old(self).nmi_requested || (old(self).scanline == 241
                    && old(self).cycle == 1 && old(self).ctrl >= 0x80))
            }),
            old(self).scanline == 241 && old(self).cycle == 1 ==> final(self).status >= 0x80,
            old(self).scanline == 261 && old(self).cycle == 1 ==> final(self).status < 0x20,
            final(self).mask == old(self).mask && final(self).ctrl == old(self).ctrl,
            nes_tick_rel(&*old(self), *old(cartridge), &*final(self), *final(cartridge)),
    {
        let rendering_enabled = (self.mask / 8) % 4 != 0;
        let is_visible = self.scanline >= 0 && self.scanline < 240;
        let is_prerender = self.scanline == 261;
        let is_render_line = is_visible || is_prerender;
        let is_fetch_cycle = (self.cycle >= 1 && self.cycle <= 256) || (self.cycle >= 321 && self.cycle <= 336);

        if self.scanline == 241 && self.cycle == 1 {
            self.status = self.status | 0x80;
            proof { lemma_or_0x80(old(self).status); }
            if self.ctrl >= 0x80 {
                self.nmi_requested = true;
            }
        }
        if is_prerender && self.cycle == 1 {
            let s0 = self.status;
            self.status = self.status & 0x1F;
            proof { lemma_and_0x1f(s0); }
        }
        let ghost status1 = self.status;

        if rendering_enabled {
            if is_visible && self.cycle >= 1 && self.cycle <= 256 {
                self.render_pixel();
            }

            let ghost mid = *self;
            if is_render_line && is_fetch_cycle {
                self.fetch_step(cartridge);
            }
            proof {
                assert(nes_bg_fetched(&*old(self), *old(cartridge), &*self)) by {
                    if nes_fetch_cycle(&*old(self)) {
                        assert(nes_fetch_cycle(&mid));
                        assert(nes_bg_fetched(&mid, *old(cartridge), &*self));
                        assert(nes_attr_bits(&mid, *old(cartridge)) == nes_attr_bits(&*old(self), *old(cartridge)));
                    }
                }
            }

            if is_render_line {
                if is_fetch_cycle && self.cycle % 8 == 0 {
                    self.increment_x();
                }
                if self.cycle == 256 {
                    self.increment_y();
                }
                if self.cycle == 257 {
                    self.copy_x();
                }
                if is_prerender && self.cycle >= 280 && self.cycle <= 304 {
                    self.copy_y();
                }
            }

            let ghost pre_s = *self;
            if self.cycle == 257 {
                self.sprite_step(cartridge);
                proof {
                    if is_visible {
                        lemma_sprites_evaluated_moved(&pre_s, &*self, &*old(self), &*self, *cartridge);
                    }
                }
            }
        }
        assert(nes_bg_fetched(&*old(self), *old(cartridge), &*self));
        assert(nes_sprite_phase(&*old(self), *old(cartridge), &*self));
        let ghost r_end = *self;

        self.cycle = self.cycle + 1;
        if self.cycle > 340 {
            self.cycle = 0;
            self.scanline = self.scanline + 1;
            if self.scanline > 261 {
                self.scanline = 0;
                self.frame = self.frame.wrapping_add(1);
                self.frame_ready = true;
            }
            if self.scanline >= 0 && self.scanline < 240 {
                cartridge.notify_scanline();
            }
        }

        if rendering_enabled && self.frame % 2 == 1 && self.scanline == 0 && self.cycle == 0 {
            self.cycle = 1;
        }
        proof {
            assert(nes_sprite_slots_kept(&r_end, &*self));
            assert(nes_bg_fetched(&*old(self), *old(cartridge), &*self));
            if rendering_enabled && old(self).cycle == 257 && 0 <= old(self).scanline < 240 {
                lemma_sprites_evaluated_moved(&*old(self), &r_end, &*old(self), &*self, *old(cartridge));
            }
            assert(nes_sprite_phase(&*old(self), *old(cartridge), &*self));
        }
    }

    // -----------------------------------------------------------------------
    // Background fetches
    // -----------------------------------------------------------------------

    /// The background part of a fetch cycle: the shifters move one bit up, and the cycle's
    /// place in its group of 8 fetches a byte or reloads the shifters.
    #[verifier::spinoff_prover]
    #[verifier::rlimit(30)]
    fn fetch_step(&mut self, cartridge: &Cartridge)
        requires
            old(self).wf(),
            cartridge.wf(),
            nes_fetch_cycle(&*old(self)),
        ensures
            final(self).wf(),
            nes_bg_fetched(&*old(self), *cartridge, &*final(self)),
            *final(self) == (NesPpu {
                bg_pattern_lo: final(self).bg_pattern_lo,
                bg_pattern_hi: final(self).bg_pattern_hi,
                bg_attrib_lo: final(self).bg_attrib_lo,
                bg_attrib_hi: final(self).bg_attrib_hi,
                nt_byte: final(self).nt_byte,
                at_byte: final(self).at_byte,
                bg_lo: final(self).bg_lo,
                bg_hi: final(self).bg_hi,
                ..*old(self)
            }),
    {
        self.bg_pattern_lo = (self.bg_pattern_lo % 0x8000) * 2;
        self.bg_pattern_hi = (self.bg_pattern_hi % 0x8000) * 2;
        self.bg_attrib_lo = (self.bg_attrib_lo % 0x8000) * 2;
        self.bg_attrib_hi = (self.bg_attrib_hi % 0x8000) * 2;

        let phase = (self.cycle - 1) % 8;
        if phase == 0 {
            self.fetch_nt(cartridge);
        } else if phase == 2 {
            self.fetch_at(cartridge);
        } else if phase == 4 {
            self.fetch_bg_lo(cartridge);
        } else if phase == 6 {
            self.fetch_bg_hi(cartridge);
        } else if phase == 7 {
            self.load_shifters();
        }
    }

    /// Nametable byte for the tile at V.
    fn fetch_nt(&mut self, cartridge: &Cartridge)
        requires
            old(self).wf(),
            cartridge.wf(),
        ensures
            *final(self) == (NesPpu {
                nt_byte: old(self).vram_at((0x2000 + old(self).v % 0x1000) as u16, *cartridge),
                ..*old(self)
            }),
    {
        let addr = 0x2000 + self.v % 0x1000;
        self.nt_byte = self.read_vram(addr, cartridge);
    }

    /// Attribute bits (palette) for the tile at V: the attribute byte of its
    /// 4x4-tile block, shifted by its quadrant.
    fn fetch_at(&mut self, cartridge: &Cartridge)
        requires
            old(self).wf(),
            cartridge.wf(),
        ensures
            *final(self) == (NesPpu { at_byte: nes_attr_bits(&*old(self), *cartridge), ..*old(self) }),
    {
        let v = self.v;
        let addr = 0x23C0 + ((v / 1024) % 4) * 1024 + ((v / 128) % 8) * 8 + (v / 4) % 8;
        let at = self.read_vram(addr, cartridge);
        let div: u8 = if (v / 64) % 2 == 1 {
            if (v / 2) % 2 == 1 { 64 } else { 16 }
        } else {
            if (v / 2) % 2 == 1 { 4 } else { 1 }
        };
        self.at_byte = (at / div) % 4;
    }

    /// Low pattern plane byte for the fetched tile and fine Y.
    fn fetch_bg_lo(&mut self, cartridge: &Cartridge)
        requires
            old(self).wf(),
            cartridge.wf(),
        ensures
            ({
                let table: int = if (old(self).ctrl / 16) % 2 == 1 { 0x1000 } else { 0 };
                let addr = (table + old(self).nt_byte * 16 + old(self).v / 4096) as u16;
                *final(self) == (NesPpu { bg_lo: old(self).vram_at(addr, *cartridge), ..*old(self) })
            }),
    {
        let fine_y = self.v / 4096;
        let table: u16 = if (self.ctrl / 16) % 2 == 1 { 0x1000 } else { 0x0000 };
        let addr = table + self.nt_byte as u16 * 16 + fine_y;
        self.bg_lo = self.read_vram(addr, cartridge);
    }

    /// High pattern plane byte (8 bytes after the low plane).
    fn fetch_bg_hi(&mut self, cartridge: &Cartridge)
        requires
            old(self).wf(),
            cartridge.wf(),
        ensures
            ({
                let table: int = if (old(self).ctrl / 16) % 2 == 1 { 0x1000 } else { 0 };
                let addr = (table + old(self).nt_byte * 16 + old(self).v / 4096 + 8) as u16;
                *final(self) == (NesPpu { bg_hi: old(self).vram_at(addr, *cartridge), ..*old(self) })
            }),
    {
        let fine_y = self.v / 4096;
        let table: u16 = if (self.ctrl / 16) % 2 == 1 { 0x1000 } else { 0x0000 };
        let addr = table + self.nt_byte as u16 * 16 + fine_y + 8;
        self.bg_hi = self.read_vram(addr, cartridge);
    }

    /// Loads the fetched tile into the low byte of the shift registers.
    fn load_shifters(&mut self)
        ensures
            *final(self) == (NesPpu {
                bg_pattern_lo: (old(self).bg_pattern_lo - old(self).bg_pattern_lo % 256 + old(self).bg_lo) as u16,
                bg_pattern_hi: (old(self).bg_pattern_hi - old(self).bg_pattern_hi % 256 + old(self).bg_hi) as u16,
                bg_attrib_lo: (old(self).bg_attrib_lo - old(self).bg_attrib_lo % 256 + (if old(self).at_byte % 2 == 1 { 0xFFint } else { 0 })) as u16,
                bg_attrib_hi: (old(self).bg_attrib_hi - old(self).bg_attrib_hi % 256 + (if (old(self).at_byte / 2) % 2 == 1 { 0xFFint } else { 0 })) as u16,
                ..*old(self)
            }),
    {
        self.bg_pattern_lo = self.bg_pattern_lo - self.bg_pattern_lo % 256 + self.bg_lo as u16;
        self.bg_pattern_hi = self.bg_pattern_hi - self.bg_pattern_hi % 256 + self.bg_hi as u16;
        self.bg_attrib_lo = self.bg_attrib_lo - self.bg_attrib_lo % 256 + (if self.at_byte % 2 == 1 { 0xFF } else { 0 });
        self.bg_attrib_hi = self.bg_attrib_hi - self.bg_attrib_hi % 256 + (if (self.at_byte / 2) % 2 == 1 { 0xFF } else { 0 });
    }

    // -----------------------------------------------------------------------
    // Scroll address updates (V layout: yyy NN YYYYY XXXXX)
    // -----------------------------------------------------------------------

    /// Next tile column; past column 31 wraps and switches the horizontal nametable.
    fn increment_x(&mut self)
        requires
            old(self).wf(),
        ensures
            final(self).wf(),
            *final(self) == (NesPpu {
                v: if old(self).v % 32 == 31 {
                    (((old(self).v - 31) as u16) ^ 0x0400)
                } else {
                    (old(self).v + 1) as u16
                },
                ..*old(self)
            }),
    {
        if self.v % 32 == 31 {
            self.v = (self.v - 31) ^ 0x0400;
            proof { lemma_xor_0400_bound((old(self).v - 31) as u16); }
        } else {
            self.v = self.v + 1;
        }
    }

    /// Next pixel row: fine Y, then coarse Y; row 29 wraps and switches the vertical
    /// nametable, row 31 wraps without switching.
    fn increment_y(&mut self)
        requires
            old(self).wf(),
        ensures
            final(self).wf(),
            *final(self) == (NesPpu { v: final(self).v, ..*old(self) }),
            old(self).v / 4096 != 7 ==> final(self).v == old(self).v + 0x1000,
            old(self).v / 4096 == 7 ==> {
                let v0 = (old(self).v % 4096) as u16;
                let y = (v0 / 32) % 32;
                final(self).v == if y == 29 {
                    (((v0 - 29 * 32) as u16) ^ 0x0800)
                } else if y == 31 {
                    (v0 - 31 * 32) as u16
                } else {
                    (v0 + 32) as u16
                }
            },
    {
        if self.v / 4096 != 7 {
            self.v = self.v + 0x1000;
        } else {
            let v0 = self.v % 4096;
            let y = (v0 / 32) % 32;
            if y == 29 {
                self.v = (v0 - 29 * 32) ^ 0x0800;
                proof { lemma_xor_0800_bound((v0 - 29 * 32) as u16); }
            } else if y == 31 {
                self.v = v0 - 31 * 32;
            } else {
                self.v = v0 + 32;
            }
        }
    }

    /// Copies the horizontal scroll bits of T into V.
    fn copy_x(&mut self)
        requires
            old(self).wf(),
        ensures
            final(self).wf(),
            *final(self) == (NesPpu { v: (old(self).v & 0xFBE0) | (old(self).t & 0x041F), ..*old(self) }),
    {
        self.v = (self.v & 0xFBE0) | (self.t & 0x041F);
        proof { lemma_copy_bound(old(self).v, old(self).t, 0xFBE0, 0x041F); }
    }

    /// Copies the vertical scroll bits of T into V.
    fn copy_y(&mut self)
        requires
            old(self).wf(),
        ensures
            final(self).wf(),
            *final(self) == (NesPpu { v: (old(self).v & 0x841F) | (old(self).t & 0x7BE0), ..*old(self) }),
    {
        self.v = (self.v & 0x841F) | (self.t & 0x7BE0);
        proof { lemma_copy_bound(old(self).v, old(self).t, 0x841F, 0x7BE0); }
    }

    // -----------------------------------------------------------------------
    // Sprites
    // -----------------------------------------------------------------------

    /// The sprite part of dot 257 while rendering: a visible line evaluates its sprites,
    /// any other line drops the sprite count to 0.
    fn sprite_step(&mut self, cartridge: &Cartridge)
        requires
            old(self).wf(),
            cartridge.wf(),
        ensures
            final(self).wf(),
            0 <= old(self).scanline < 240 ==> nes_sprites_evaluated(&*old(self), &*final(self), *cartridge),
            !(0 <= old(self).scanline < 240) ==> final(self).sprite_count == 0 && nes_sprite_slots_kept(
                &*old(self),
                &*final(self),
            ) && final(self).status == old(self).status,
            nes_ppu_same_but_sprites(&*old(self), &*final(self)),
            final(self).status >= 0x80 <==> old(self).status >= 0x80,
    {
        if self.scanline >= 0 && self.scanline < 240 {
            self.evaluate_sprites(cartridge);
        } else {
            self.sprite_count = 0;
        }
    }

    /// Finds up to 8 sprites on the current scanline and fetches their pattern rows;
    /// a ninth sets the overflow flag.
    #[verifier::spinoff_prover]
    #[verifier::rlimit(100)]
    fn evaluate_sprites(&mut self, cartridge: &Cartridge)
        requires
            old(self).wf(),
            cartridge.wf(),
            0 <= old(self).scanline < 240,
        ensures
            final(self).wf(),
            nes_ppu_same_but_sprites(&*old(self), &*final(self)),
            ({
                let oam = old(self).oam@;
                let sl = old(self).scanline as int;
                let h = sprite_height(old(self).ctrl);
                let n = sprites_on_line_before(oam, sl, h, 64);
                &&& final(self).sprite_count == if n > 8 {
                    8
                } else {
                    n
                }
                &&& final(self).status == if n > 8 {
                    old(self).status | 0x20
                } else {
                    old(self).status
                }
                &&& final(self).sprite0_hit_possible == sprite_on_line(oam, sl, h, 0)
                &&& !final(self).sprite0_being_rendered
                &&& forall|j: int|
                    0 <= j < 64 && #[trigger] sprite_on_line(oam, sl, h, j) && sprites_on_line_before(oam, sl, h, j)
                        < 8 ==> sprite_slot_holds(&*old(self), &*final(self), *cartridge, j, sprites_on_line_before(
                        oam,
                        sl,
                        h,
                        j,
                    ) as int)
                &&& forall|k: int|
                    final(self).sprite_count <= k < 8 ==> #[trigger] sprite_slot_same(&*old(self), &*final(self), k)
            }),
            final(self).status >= 0x80 <==> old(self).status >= 0x80,
    {
        let sprite_size: u16 = if (self.ctrl / 32) % 2 == 1 { 16 } else { 8 };
        self.sprite_count = 0;
        self.sprite0_hit_possible = false;
        self.sprite0_being_rendered = false;
        let ghost oam = old(self).oam@;
        let ghost sl = old(self).scanline as int;
        let ghost h = sprite_height(old(self).ctrl);

        let next_scanline = self.scanline as u16;
        assert(sprites_on_line_before(oam, sl, h, 0) == 0) by {
            reveal(sprites_on_line_before);
        }
        let mut i: usize = 0;
        while i < 64
            invariant_except_break
                self.sprite_count == sprites_on_line_before(oam, sl, h, i as int),
                self.status == old(self).status,
            invariant
                self.wf(),
                cartridge.wf(),
                i <= 64,
                sprite_size == h,
                oam == old(self).oam@,
                sl == old(self).scanline as int,
                0 <= sl < 240,
                next_scanline == sl,
                h == sprite_height(old(self).ctrl),
                nes_ppu_same_but_sprites(&*old(self), &*self),
                self.sprite0_hit_possible == (i > 0 && sprite_on_line(oam, sl, h, 0)),
                !self.sprite0_being_rendered,
                forall|j: int|
                    0 <= j < i && #[trigger] sprite_on_line(oam, sl, h, j) && sprites_on_line_before(oam, sl, h, j)
                        < 8 ==> sprite_slot_holds(&*old(self), &*self, *cartridge, j, sprites_on_line_before(
                        oam,
                        sl,
                        h,
                        j,
                    ) as int),
                forall|k: int| self.sprite_count <= k < 8 ==> #[trigger] sprite_slot_same(&*old(self), &*self, k),
                self.status >= 0x80 <==> old(self).status >= 0x80,
            ensures
                ({
                    let n = sprites_on_line_before(oam, sl, h, 64);
                    &&& self.sprite_count == if n > 8 {
                        8
                    } else {
                        n
                    }
                    &&& self.status == if n > 8 {
                        old(self).status | 0x20
                    } else {
                        old(self).status
                    }
                    &&& self.sprite0_hit_possible == sprite_on_line(oam, sl, h, 0)
                    &&& forall|j: int|
                        0 <= j < 64 && #[trigger] sprite_on_line(oam, sl, h, j) && sprites_on_line_before(oam, sl, h, j)
                            < 8 ==> sprite_slot_holds(&*old(self), &*self, *cartridge, j, sprites_on_line_before(
                            oam,
                            sl,
                            h,
                            j,
                        ) as int)
                }),
            decreases 64 - i,
        {
            let ghost top = *self;
            proof {
                lemma_sprites_before_step(oam, sl, h, i as int);
            }
            let y = self.oam[i * 4] as u16;
            let diff = next_scanline.wrapping_sub(y);
            assert(diff < sprite_size <==> sprite_on_line(oam, sl, h, i as int));
            if diff < sprite_size {
                if self.sprite_count < 8 {
                    if i == 0 {
                        self.sprite0_hit_possible = true;
                    }
                    let tile_idx = self.oam[i * 4 + 1];
                    let attrs = self.oam[i * 4 + 2];
                    let x = self.oam[i * 4 + 3];
                    let flip_v = attrs >= 0x80;
                    let mut row: u16 = if flip_v { sprite_size - 1 - diff } else { diff };

                    let (table, tile): (u16, u16) = if sprite_size == 16 {
                        let t: u16 = if tile_idx % 2 == 1 { 0x1000 } else { 0x0000 };
                        let ti = (tile_idx - tile_idx % 2) as u16;
                        if row >= 8 {
                            row = row - 8;
                            (t, ti + 1)
                        } else {
                            (t, ti)
                        }
                    } else {
                        let t: u16 = if (self.ctrl / 8) % 2 == 1 { 0x1000 } else { 0x0000 };
                        (t, tile_idx as u16)
                    };

                    let addr_lo = table + tile * 16 + row;
                    let addr_hi = addr_lo + 8;
                    assert(addr_lo == sprite_row_addr(oam, old(self).ctrl, sl, i as int));
                    let mut lo = self.read_vram(addr_lo, cartridge);
                    let mut hi = self.read_vram(addr_hi, cartridge);
                    let ghost lo_raw = lo;
                    let ghost hi_raw = hi;
                    if (attrs / 64) % 2 == 1 {
                        lo = reverse_byte(lo);
                        hi = reverse_byte(hi);
                    }
                    let ghost prev = *self;
                    let sc = self.sprite_count as usize;
                    self.sprite_patterns_lo.set(sc, lo);
                    self.sprite_patterns_hi.set(sc, hi);
                    self.sprite_x.set(sc, x);
                    self.sprite_attrs.set(sc, attrs);
                    self.sprite_count = self.sprite_count + 1;
                    proof {
                        lemma_vram_at_same(&*old(self), &prev, addr_lo, *cartridge);
                        lemma_vram_at_same(&*old(self), &prev, addr_hi, *cartridge);
                        lemma_new_slot(&*old(self), &*self, *cartridge, i as int, sc as int, addr_lo, lo_raw, hi_raw);
                        assert forall|k: int| 0 <= k < 8 && k != sc implies #[trigger] sprite_slot_same(&top, &*self, k) by {}
                        lemma_slots_after_push(&*old(self), &top, &*self, *cartridge, oam, sl, h, i as int);
                    }
                } else {
                    let s0 = self.status;
                    self.status = self.status | 0x20;
                    proof {
                        lemma_or_0x20_keeps_vblank(s0, self.status);
                        assert forall|k: int| 0 <= k < 8 implies #[trigger] sprite_slot_same(&top, &*self, k) by {}
                        lemma_slots_at_overflow(&*old(self), &top, &*self, *cartridge, oam, sl, h, i as int);
                        assert(i > 0) by {
                            if i == 0 {
                                reveal(sprites_on_line_before);
                            }
                        }
                    }
                    break;
                }
            }
            i = i + 1;
        }
    }

    // -----------------------------------------------------------------------
    // Pixel output
    // -----------------------------------------------------------------------

    /// Draws the pixel at (cycle - 1, scanline): background and sprite colour
    /// numbers, sprite priority and sprite 0 hit, looked up through palette RAM.
    #[verifier::spinoff_prover]
    #[verifier::rlimit(100)]
    fn render_pixel(&mut self)
        requires
            old(self).wf(),
            1 <= old(self).cycle <= 256,
            0 <= old(self).scanline < 240,
        ensures
            final(self).wf(),
            ({
                let x = old(self).cycle - 1;
                &&& final(self).frame_buffer@ == nes_pixel_drawn(&*old(self))
                &&& final(self).status == if nes_sprite0_hit(&*old(self), x) {
                    old(self).status | 0x40
                } else {
                    old(self).status
                }
            }),
            *final(self) == (NesPpu {
                frame_buffer: final(self).frame_buffer,
                status: final(self).status,
                ..*old(self)
            }),
            final(self).status >= 0x80 <==> old(self).status >= 0x80,
    {
        let x = (self.cycle - 1) as usize;
        let y = self.scanline as usize;
        let ghost p = *self;

        let show_bg = (self.mask / 8) % 2 == 1;
        let show_sprites = (self.mask / 16) % 2 == 1;
        let show_bg_left = (self.mask / 2) % 2 == 1;
        let show_spr_left = (self.mask / 4) % 2 == 1;

        let bg_pixel_active = show_bg && (x >= 8 || show_bg_left);
        let spr_pixel_active = show_sprites && (x >= 8 || show_spr_left);

        let (bg_pixel, bg_palette): (u8, u8) = if bg_pixel_active {
            let bit = 15 - self.fine_x as u16;
            let lo = u16_bit(self.bg_pattern_lo, bit);
            let hi = u16_bit(self.bg_pattern_hi, bit);
            let pal_lo = u16_bit(self.bg_attrib_lo, bit);
            let pal_hi = u16_bit(self.bg_attrib_hi, bit);
            ((hi * 2 + lo) as u8, (pal_hi * 2 + pal_lo) as u8)
        } else {
            (0, 0)
        };
        assert(nes_bg_pixel(&p, x as int) == (bg_pixel as int, bg_palette as int));

        let mut spr_pixel: u8 = 0;
        let mut spr_palette: u8 = 0;
        let mut spr_behind_bg = false;
        let mut spr_zero = false;
        if spr_pixel_active {
            let mut i: usize = 0;
            while i < self.sprite_count as usize
                invariant_except_break
                    spr_pixel == 0 && spr_palette == 0 && !spr_behind_bg && !spr_zero,
                    nes_front_sprite(&p, x as int, 0) == nes_front_sprite(&p, x as int, i as int),
                invariant
                    self.wf(),
                    *self == p,
                    i <= self.sprite_count,
                    spr_pixel < 4,
                    spr_palette < 8,
                    x < 256,
                ensures
                    ({
                        let f = nes_front_sprite(&p, x as int, 0);
                        if f >= 0 {
                            &&& spr_pixel == nes_slot_pixel(&p, f, x as int)
                            &&& spr_palette == p.sprite_attrs@[f] % 4 + 4
                            &&& spr_behind_bg == ((p.sprite_attrs@[f] / 32) % 2 == 1)
                            &&& spr_zero == (f == 0 && p.sprite0_hit_possible)
                        } else {
                            spr_pixel == 0 && spr_palette == 0 && !spr_behind_bg && !spr_zero
                        }
                    }),
                decreases self.sprite_count - i,
            {
                let sx = self.sprite_x[i] as usize;
                if x >= sx && x < sx + 8 {
                    let col = (x - sx) as u8;
                    let bit = 7 - col;
                    let m: u8 = if bit == 0 { 1 } else if bit == 1 { 2 } else if bit == 2 { 4 } else if bit == 3 { 8 }
                        else if bit == 4 { 16 } else if bit == 5 { 32 } else if bit == 6 { 64 } else { 128 };
                    proof {
                        reveal_with_fuel(pow2, 9);
                        assert(m as int == pow2((7 - (x - sx)) as nat));
                    }
                    let lo = (self.sprite_patterns_lo[i] / m) % 2;
                    let hi = (self.sprite_patterns_hi[i] / m) % 2;
                    let pixel = hi * 2 + lo;
                    assert(pixel as int == nes_slot_pixel(&p, i as int, x as int));
                    if pixel != 0 {
                        spr_pixel = pixel;
                        spr_palette = self.sprite_attrs[i] % 4 + 4;
                        spr_behind_bg = (self.sprite_attrs[i] / 32) % 2 == 1;
                        spr_zero = i == 0 && self.sprite0_hit_possible;
                        break;
                    }
                } else {
                    assert(nes_slot_pixel(&p, i as int, x as int) == 0);
                }
                i = i + 1;
            }
        }
        assert(nes_sprite_pixel(&p, x as int) == (spr_pixel as int, spr_palette as int, spr_behind_bg, spr_zero));

        if spr_zero && bg_pixel != 0 && spr_pixel != 0 && x != 255 {
            let s0 = self.status;
            self.status = self.status | 0x40;
            proof { lemma_or_0x40_keeps_vblank(s0, self.status); }
        }

        let (final_pixel, final_palette): (u8, u8) = if bg_pixel == 0 && spr_pixel == 0 {
            (0, 0)
        } else if bg_pixel == 0 {
            (spr_pixel, spr_palette)
        } else if spr_pixel == 0 {
            (bg_pixel, bg_palette)
        } else if spr_behind_bg {
            (bg_pixel, bg_palette)
        } else {
            (spr_pixel, spr_palette)
        };

        let palette_addr: u16 = if final_pixel == 0 {
            0x3F00
        } else {
            0x3F00 + (final_palette as u16) * 4 + final_pixel as u16
        };
        assert(palette_addr == nes_pixel_palette_addr(&p, x as int));
        let color_idx = (self.read_palette(palette_addr) % 64) as usize;

        let base = (y * SCREEN_W + x) * 4;
        assert(base + 3 < FRAME_BYTES) by (nonlinear_arith)
            requires base == (y * 256 + x) * 4, y < 240, x < 256;
        let r = palette_rgb(color_idx, 0);
        let g = palette_rgb(color_idx, 1);
        let b = palette_rgb(color_idx, 2);
        self.frame_buffer.set(base, r);
        self.frame_buffer.set(base + 1, g);
        self.frame_buffer.set(base + 2, b);
        self.frame_buffer.set(base + 3, 0xFF);
    }
}

// ---------------------------------------------------------------------------
// Bit facts used by the scroll updates
// ---------------------------------------------------------------------------

proof fn lemma_xor_0400_bound(v: u16)
    requires
        v < 0x8000,
    ensures
        v ^ 0x0400 < 0x8000,
{
    assert(v < 0x8000 ==> v ^ 0x0400 < 0x8000) by (bit_vector);
}

proof fn lemma_xor_0800_bound(v: u16)
    requires
        v < 0x8000,
    ensures
        v ^ 0x0800 < 0x8000,
{
    assert(v < 0x8000 ==> v ^ 0x0800 < 0x8000) by (bit_vector);
}

proof fn lemma_copy_bound(v: u16, t: u16, mv: u16, mt: u16)
    requires
        v < 0x8000,
        t < 0x8000,
    ensures
        (v & mv) | (t & mt) < 0x8000,
{
    assert(v < 0x8000 && t < 0x8000 ==> (v & mv) | (t & mt) < 0x8000) by (bit_vector);
}

proof fn lemma_t_bound_ctrl(t: u16, val: u8)
    requires
        t < 0x8000,
    ensures
        (t & 0xF3FF) | (((val as u16 % 4) * 1024) as u16) < 0x8000,
{
    let x = ((val as u16 % 4) * 1024) as u16;
    assert(x < 0x8000);
    assert(t < 0x8000 && x < 0x8000 ==> (t & 0xF3FF) | x < 0x8000) by (bit_vector);
}

proof fn lemma_t_bound_scroll(t: u16, val: u8)
    requires
        t < 0x8000,
    ensures
        (t & 0xFFE0) | ((val as u16 / 8) as u16) < 0x8000,
        (((t & 0x8FFF) | (((val as u16 % 8) * 4096) as u16)) & 0xFC1F) | (((val as u16 / 8) * 32) as u16) < 0x8000,
{
    let a = (val as u16 / 8) as u16;
    let b = ((val as u16 % 8) * 4096) as u16;
    let c = ((val as u16 / 8) * 32) as u16;
    assert(a < 0x8000 && b < 0x8000 && c < 0x8000);
    assert(t < 0x8000 && a < 0x8000 ==> (t & 0xFFE0) | a < 0x8000) by (bit_vector);
    assert(t < 0x8000 && b < 0x8000 && c < 0x8000 ==> (((t & 0x8FFF) | b) & 0xFC1F) | c < 0x8000)
        by (bit_vector);
}

proof fn lemma_t_bound_addr(t: u16, val: u8)
    requires
        t < 0x8000,
    ensures
        (t & 0x80FF) | (((val as u16 % 64) * 256) as u16) < 0x8000,
        (t & 0xFF00) | (val as u16) < 0x8000,
{
    let a = ((val as u16 % 64) * 256) as u16;
    let b = val as u16;
    assert(a < 0x8000 && b < 0x100);
    assert(t < 0x8000 && a < 0x8000 ==> (t & 0x80FF) | a < 0x8000) by (bit_vector);
    assert(t < 0x8000 && b < 0x100 ==> (t & 0xFF00) | b < 0x8000) by (bit_vector);
}

proof fn lemma_or_0x80(s: u8)
    ensures
        s | 0x80 >= 0x80,
{
    assert(s | 0x80 >= 0x80) by (bit_vector);
}

proof fn lemma_and_0x1f(s: u8)
    ensures
        s & 0x1F < 0x20,
{
    assert(s & 0x1F < 0x20) by (bit_vector);
}

proof fn lemma_or_0x20_keeps_vblank(s: u8, r: u8)
    requires
        r == s | 0x20,
    ensures
        r >= 0x80 <==> s >= 0x80,
{
    assert(r == s | 0x20 ==> (r >= 0x80 <==> s >= 0x80)) by (bit_vector);
}

proof fn lemma_or_0x40_keeps_vblank(s: u8, r: u8)
    requires
        r == s | 0x40,
    ensures
        r >= 0x80 <==> s >= 0x80,
{
    assert(r == s | 0x40 ==> (r >= 0x80 <==> s >= 0x80)) by (bit_vector);
}

/// The PPU that `load` restores from the bytes at `o`.
pub open spec fn nes_ppu_loaded(p: &NesPpu, d: Seq<u8>, o: int) -> bool {
            &&& p.ctrl == d[o] && p.mask == d[o + 1]
            &&& p.status == d[o + 2] && p.oam_addr == d[o + 3]
            &&& p.v == dec16(d, o + 4) && p.t == dec16(d, o + 6)
            &&& p.fine_x == d[o + 8] && p.w == (d[o + 9] != 0)
            &&& p.nametable_ram@ == d.subrange(o + 10, o + 2058)
            &&& p.palette_ram@ == d.subrange(o + 2058, o + 2090)
            &&& p.oam@ == d.subrange(o + 2090, o + 2346)
            &&& p.data_buffer == d[o + 2346]
            &&& p.cycle == dec16(d, o + 2347)
            &&& p.scanline == dec16(d, o + 2349) as i16
            &&& p.frame == dec64(d, o + 2351)
            &&& p.bg_pattern_lo == dec16(d, o + 2359)
            &&& p.bg_pattern_hi == dec16(d, o + 2361)
            &&& p.bg_attrib_lo == dec16(d, o + 2363)
            &&& p.bg_attrib_hi == dec16(d, o + 2365)
            &&& p.nt_byte == d[o + 2367] && p.at_byte == d[o + 2368]
            &&& p.bg_lo == d[o + 2369] && p.bg_hi == d[o + 2370]
            &&& p.sprite_count == dec32(d, o + 2371)
            &&& p.sprite_patterns_lo@ == d.subrange(o + 2375, o + 2383)
            &&& p.sprite_patterns_hi@ == d.subrange(o + 2383, o + 2391)
            &&& p.sprite_x@ == d.subrange(o + 2391, o + 2399)
            &&& p.sprite_attrs@ == d.subrange(o + 2399, o + 2407)
            &&& p.sprite0_hit_possible == (d[o + 2407] != 0)
            &&& p.sprite0_being_rendered == (d[o + 2408] != 0)
            &&& p.frame_ready == (d[o + 2409] != 0)
            &&& p.nmi_requested == (d[o + 2410] != 0)
            &&& p.frame_buffer@ == d.subrange(o + 2411, o + 2411 + FRAME_BYTES)
}

/// Serialized registers, scroll state and memories.
pub open spec fn nes_ppu_bytes_mem(p: NesPpu) -> Seq<u8> {
    seq![p.ctrl, p.mask, p.status, p.oam_addr] + le16(p.v) + le16(p.t) + seq![p.fine_x, bool_byte(p.w)]
        + p.nametable_ram@ + p.palette_ram@ + p.oam@
}

/// Serialized timing and background pipeline.
pub open spec fn nes_ppu_bytes_timing(p: NesPpu) -> Seq<u8> {
    seq![p.data_buffer] + le16(p.cycle) + le16(p.scanline as u16) + le64(p.frame) + le16(p.bg_pattern_lo)
        + le16(p.bg_pattern_hi) + le16(p.bg_attrib_lo) + le16(p.bg_attrib_hi) + seq![
        p.nt_byte,
        p.at_byte,
        p.bg_lo,
        p.bg_hi,
    ]
}

/// Serialized sprite line buffer and flags.
pub open spec fn nes_ppu_bytes_sprites(p: NesPpu) -> Seq<u8> {
    le32(p.sprite_count) + p.sprite_patterns_lo@ + p.sprite_patterns_hi@ + p.sprite_x@ + p.sprite_attrs@
        + seq![
        bool_byte(p.sprite0_hit_possible),
        bool_byte(p.sprite0_being_rendered),
        bool_byte(p.frame_ready),
        bool_byte(p.nmi_requested),
    ]
}

/// The serialized PPU: registers and memories, timing and shifters, sprite
/// line buffer and flags, then the frame buffer.
pub open spec fn nes_ppu_bytes(p: NesPpu) -> Seq<u8> {
    nes_ppu_bytes_mem(p) + nes_ppu_bytes_timing(p) + nes_ppu_bytes_sprites(p) + p.frame_buffer@
}

/// Length of a serialized PPU.
pub open spec fn nes_ppu_bytes_len() -> int {
    2411 + FRAME_BYTES
}

impl NesPpu {
    pub fn save(&self, buf: &mut Vec<u8>)
        ensures
            final(buf)@ == old(buf)@ + nes_ppu_bytes(*self),
    {
        self.save_mem(buf);
        self.save_timing(buf);
        self.save_sprites(buf);
        write_slice(buf, self.frame_buffer.as_slice());
        assert(buf@ =~= old(buf)@ + nes_ppu_bytes(*self));
    }

    fn save_mem(&self, buf: &mut Vec<u8>)
        ensures
            final(buf)@ == old(buf)@ + nes_ppu_bytes_mem(*self),
    {
        write_u8(buf, self.ctrl);
        write_u8(buf, self.mask);
        write_u8(buf, self.status);
        write_u8(buf, self.oam_addr);
        write_u16(buf, self.v);
        write_u16(buf, self.t);
        write_u8(buf, self.fine_x);
        write_bool(buf, self.w);
        write_slice(buf, self.nametable_ram.as_slice());
        write_slice(buf, self.palette_ram.as_slice());
        write_slice(buf, self.oam.as_slice());
        assert(buf@ =~= old(buf)@ + nes_ppu_bytes_mem(*self));
    }

    fn save_timing(&self, buf: &mut Vec<u8>)
        ensures
            final(buf)@ == old(buf)@ + nes_ppu_bytes_timing(*self),
    {
        write_u8(buf, self.data_buffer);
        write_u16(buf, self.cycle);
        write_u16(buf, self.scanline as u16);
        write_u64(buf, self.frame);
        write_u16(buf, self.bg_pattern_lo);
        write_u16(buf, self.bg_pattern_hi);
        write_u16(buf, self.bg_attrib_lo);
        write_u16(buf, self.bg_attrib_hi);
        write_u8(buf, self.nt_byte);
        write_u8(buf, self.at_byte);
        write_u8(buf, self.bg_lo);
        write_u8(buf, self.bg_hi);
        assert(buf@ =~= old(buf)@ + nes_ppu_bytes_timing(*self));
    }

    fn save_sprites(&self, buf: &mut Vec<u8>)
        ensures
            final(buf)@ == old(buf)@ + nes_ppu_bytes_sprites(*self),
    {
        write_u32(buf, self.sprite_count);
        write_slice(buf, self.sprite_patterns_lo.as_slice());
        write_slice(buf, self.sprite_patterns_hi.as_slice());
        write_slice(buf, self.sprite_x.as_slice());
        write_slice(buf, self.sprite_attrs.as_slice());
        write_bool(buf, self.sprite0_hit_possible);
        write_bool(buf, self.sprite0_being_rendered);
        write_bool(buf, self.frame_ready);
        write_bool(buf, self.nmi_requested);
        assert(buf@ =~= old(buf)@ + nes_ppu_bytes_sprites(*self));
    }

    pub fn load(&mut self, data: &[u8], off: &mut usize)
        requires
            *old(off) + nes_ppu_bytes_len() <= data@.len(),
        ensures
            *final(off) == *old(off) + nes_ppu_bytes_len(),
            nes_ppu_loaded(&*final(self), data@, *old(off) as int),
    {
        self.ctrl = read_u8(data, off);
        self.mask = read_u8(data, off);
        self.status = read_u8(data, off);
        self.oam_addr = read_u8(data, off);
        self.v = read_u16(data, off);
        self.t = read_u16(data, off);
        self.fine_x = read_u8(data, off);
        self.w = read_bool(data, off);
        self.nametable_ram = vstd::slice::slice_to_vec(read_slice(data, off, 2048));
        self.palette_ram = vstd::slice::slice_to_vec(read_slice(data, off, 32));
        self.oam = vstd::slice::slice_to_vec(read_slice(data, off, 256));
        self.data_buffer = read_u8(data, off);
        self.cycle = read_u16(data, off);
        self.scanline = read_u16(data, off) as i16;
        self.frame = read_u64(data, off);
        self.bg_pattern_lo = read_u16(data, off);
        self.bg_pattern_hi = read_u16(data, off);
        self.bg_attrib_lo = read_u16(data, off);
        self.bg_attrib_hi = read_u16(data, off);
        self.nt_byte = read_u8(data, off);
        self.at_byte = read_u8(data, off);
        self.bg_lo = read_u8(data, off);
        self.bg_hi = read_u8(data, off);
        self.sprite_count = read_u32(data, off);
        self.sprite_patterns_lo = vstd::slice::slice_to_vec(read_slice(data, off, 8));
        self.sprite_patterns_hi = vstd::slice::slice_to_vec(read_slice(data, off, 8));
        self.sprite_x = vstd::slice::slice_to_vec(read_slice(data, off, 8));
        self.sprite_attrs = vstd::slice::slice_to_vec(read_slice(data, off, 8));
        self.sprite0_hit_possible = read_bool(data, off);
        self.sprite0_being_rendered = read_bool(data, off);
        self.frame_ready = read_bool(data, off);
        self.nmi_requested = read_bool(data, off);
        self.frame_buffer = vstd::slice::slice_to_vec(read_slice(data, off, FRAME_BYTES));
    }
}

impl NesPpu {
    /// Whether the state satisfies `wf` (checked after restoring a saved state).
    pub fn is_valid(&self) -> (b: bool)
        ensures
            b == self.wf(),
    {
        self.nametable_ram.len() == 2048 && self.palette_ram.len() == 32 && self.oam.len() == 256
            && self.frame_buffer.len() == FRAME_BYTES && self.sprite_patterns_lo.len() == 8
            && self.sprite_patterns_hi.len() == 8 && self.sprite_x.len() == 8 && self.sprite_attrs.len() == 8
            && self.sprite_count <= 8 && self.cycle <= 340 && 0 <= self.scanline && self.scanline <= 261
            && self.v < 0x8000 && self.t < 0x8000 && self.fine_x < 8
    }
}

// ---------------------------------------------------------------------------
// Reading back a saved PPU
// ---------------------------------------------------------------------------

/// Two PPUs in the same state: every register, memory, counter, shifter and the frame.
pub open spec fn same_nes_ppu(a: &NesPpu, b: &NesPpu) -> bool {
    &&& a.ctrl == b.ctrl && a.mask == b.mask && a.status == b.status && a.oam_addr == b.oam_addr
    &&& a.v == b.v && a.t == b.t && a.fine_x == b.fine_x && a.w == b.w
    &&& a.nametable_ram@ == b.nametable_ram@ && a.palette_ram@ == b.palette_ram@ && a.oam@ == b.oam@
    &&& a.data_buffer == b.data_buffer && a.cycle == b.cycle && a.scanline == b.scanline && a.frame == b.frame
    &&& a.bg_pattern_lo == b.bg_pattern_lo && a.bg_pattern_hi == b.bg_pattern_hi
    &&& a.bg_attrib_lo == b.bg_attrib_lo && a.bg_attrib_hi == b.bg_attrib_hi
    &&& a.nt_byte == b.nt_byte && a.at_byte == b.at_byte && a.bg_lo == b.bg_lo && a.bg_hi == b.bg_hi
    &&& a.sprite_count == b.sprite_count
    &&& a.sprite_patterns_lo@ == b.sprite_patterns_lo@ && a.sprite_patterns_hi@ == b.sprite_patterns_hi@
    &&& a.sprite_x@ == b.sprite_x@ && a.sprite_attrs@ == b.sprite_attrs@
    &&& a.sprite0_hit_possible == b.sprite0_hit_possible && a.sprite0_being_rendered == b.sprite0_being_rendered
    &&& a.frame_ready == b.frame_ready && a.nmi_requested == b.nmi_requested
    &&& a.frame_buffer@ == b.frame_buffer@
}

/// Whether the saved PPU at `o` satisfies `wf` once loaded.
pub open spec fn nes_ppu_bytes_valid(d: Seq<u8>, o: int) -> bool {
    &&& dec16(d, o + 4) < 0x8000 && dec16(d, o + 6) < 0x8000 && d[o + 8] < 8
    &&& dec16(d, o + 2347) <= 340
    &&& 0 <= dec16(d, o + 2349) as i16 <= 261
    &&& dec32(d, o + 2371) <= 8
}

/// A loaded PPU satisfies `wf` exactly when its bytes are valid.
pub proof fn lemma_nes_ppu_loaded_wf(p: &NesPpu, d: Seq<u8>, o: int)
    requires
        0 <= o,
        o + nes_ppu_bytes_len() <= d.len(),
        nes_ppu_loaded(p, d, o),
    ensures
        p.wf() == nes_ppu_bytes_valid(d, o),
{
}

/// The scanline survives its 16-bit encoding.
proof fn lemma_scanline_bits(s: i16)
    ensures
        (s as u16) as i16 == s,
{
    assert((s as u16) as i16 == s) by (bit_vector);
}

/// The registers and memories read back from `nes_ppu_bytes_mem`.
proof fn lemma_nes_ppu_mem_roundtrip(a: NesPpu, d: Seq<u8>, o: int)
    requires
        nes_ppu_layout(&a),
        0 <= o,
        o + 2346 <= d.len(),
        d.subrange(o, o + 2346) == nes_ppu_bytes_mem(a),
    ensures
        d[o] == a.ctrl && d[o + 1] == a.mask && d[o + 2] == a.status && d[o + 3] == a.oam_addr,
        dec16(d, o + 4) == a.v && dec16(d, o + 6) == a.t && d[o + 8] == a.fine_x && (d[o + 9] != 0) == a.w,
        d.subrange(o + 10, o + 2058) == a.nametable_ram@,
        d.subrange(o + 2058, o + 2090) == a.palette_ram@,
        d.subrange(o + 2090, o + 2346) == a.oam@,
{
    let t = nes_ppu_bytes_mem(a);
    let v = le16(a.v);
    let tt = le16(a.t);
    let head = seq![a.ctrl, a.mask, a.status, a.oam_addr, v[0], v[1], tt[0], tt[1], a.fine_x, bool_byte(a.w)];
    assert(t =~= head + a.nametable_ram@ + a.palette_ram@ + a.oam@);
    assert(t.subrange(0, 10) =~= head);
    assert(t.subrange(10, 2058) =~= a.nametable_ram@);
    assert(t.subrange(2058, 2090) =~= a.palette_ram@);
    assert(t.subrange(2090, 2346) =~= a.oam@);
    crate::save_state::lemma_subrange_within(d, o, 2346, 0, 10);
    crate::save_state::lemma_subrange_within(d, o, 2346, 10, 2058);
    crate::save_state::lemma_subrange_within(d, o, 2346, 2058, 2090);
    crate::save_state::lemma_subrange_within(d, o, 2346, 2090, 2346);
    let h = d.subrange(o, o + 10);
    assert(h[0] == d[o] && h[1] == d[o + 1] && h[2] == d[o + 2] && h[3] == d[o + 3] && h[8] == d[o + 8]
        && h[9] == d[o + 9]);
    assert(head.subrange(4, 6) =~= v);
    assert(head.subrange(6, 8) =~= tt);
    crate::save_state::lemma_subrange_within(d, o, 10, 4, 6);
    crate::save_state::lemma_subrange_within(d, o, 10, 6, 8);
    crate::save_state::lemma_le16_roundtrip(a.v, d, o + 4);
    crate::save_state::lemma_le16_roundtrip(a.t, d, o + 6);
}

/// The timing and background pipeline read back from `nes_ppu_bytes_timing`.
proof fn lemma_nes_ppu_timing_roundtrip(a: NesPpu, d: Seq<u8>, o: int)
    requires
        0 <= o,
        o + 25 <= d.len(),
        d.subrange(o, o + 25) == nes_ppu_bytes_timing(a),
    ensures
        d[o] == a.data_buffer && dec16(d, o + 1) == a.cycle && dec16(d, o + 3) as i16 == a.scanline,
        dec64(d, o + 5) == a.frame,
        dec16(d, o + 13) == a.bg_pattern_lo && dec16(d, o + 15) == a.bg_pattern_hi,
        dec16(d, o + 17) == a.bg_attrib_lo && dec16(d, o + 19) == a.bg_attrib_hi,
        d[o + 21] == a.nt_byte && d[o + 22] == a.at_byte && d[o + 23] == a.bg_lo && d[o + 24] == a.bg_hi,
{
    let t = nes_ppu_bytes_timing(a);
    let f = le64(a.frame);
    assert(f.len() == 8);
    assert(t.subrange(1, 3) =~= le16(a.cycle));
    assert(t.subrange(3, 5) =~= le16(a.scanline as u16));
    assert(t.subrange(5, 13) =~= f);
    assert(t.subrange(13, 15) =~= le16(a.bg_pattern_lo));
    assert(t.subrange(15, 17) =~= le16(a.bg_pattern_hi));
    assert(t.subrange(17, 19) =~= le16(a.bg_attrib_lo));
    assert(t.subrange(19, 21) =~= le16(a.bg_attrib_hi));
    crate::save_state::lemma_subrange_within(d, o, 25, 1, 3);
    crate::save_state::lemma_subrange_within(d, o, 25, 3, 5);
    crate::save_state::lemma_subrange_within(d, o, 25, 5, 13);
    crate::save_state::lemma_subrange_within(d, o, 25, 13, 15);
    crate::save_state::lemma_subrange_within(d, o, 25, 15, 17);
    crate::save_state::lemma_subrange_within(d, o, 25, 17, 19);
    crate::save_state::lemma_subrange_within(d, o, 25, 19, 21);
    crate::save_state::lemma_le16_roundtrip(a.cycle, d, o + 1);
    crate::save_state::lemma_le16_roundtrip(a.scanline as u16, d, o + 3);
    crate::save_state::lemma_le64_roundtrip(a.frame, d, o + 5);
    crate::save_state::lemma_le16_roundtrip(a.bg_pattern_lo, d, o + 13);
    crate::save_state::lemma_le16_roundtrip(a.bg_pattern_hi, d, o + 15);
    crate::save_state::lemma_le16_roundtrip(a.bg_attrib_lo, d, o + 17);
    crate::save_state::lemma_le16_roundtrip(a.bg_attrib_hi, d, o + 19);
    lemma_scanline_bits(a.scanline);
    let w = d.subrange(o, o + 25);
    assert(w[0] == d[o] && w[21] == d[o + 21] && w[22] == d[o + 22] && w[23] == d[o + 23] && w[24] == d[o + 24]);
}

/// The sprite line buffer and flags read back from `nes_ppu_bytes_sprites`.
proof fn lemma_nes_ppu_sprites_roundtrip(a: NesPpu, d: Seq<u8>, o: int)
    requires
        nes_ppu_layout(&a),
        0 <= o,
        o + 40 <= d.len(),
        d.subrange(o, o + 40) == nes_ppu_bytes_sprites(a),
    ensures
        dec32(d, o) == a.sprite_count,
        d.subrange(o + 4, o + 12) == a.sprite_patterns_lo@,
        d.subrange(o + 12, o + 20) == a.sprite_patterns_hi@,
        d.subrange(o + 20, o + 28) == a.sprite_x@,
        d.subrange(o + 28, o + 36) == a.sprite_attrs@,
        (d[o + 36] != 0) == a.sprite0_hit_possible && (d[o + 37] != 0) == a.sprite0_being_rendered,
        (d[o + 38] != 0) == a.frame_ready && (d[o + 39] != 0) == a.nmi_requested,
{
    let t = nes_ppu_bytes_sprites(a);
    let c = le32(a.sprite_count);
    assert(c.len() == 4);
    assert(t.subrange(0, 4) =~= c);
    assert(t.subrange(4, 12) =~= a.sprite_patterns_lo@);
    assert(t.subrange(12, 20) =~= a.sprite_patterns_hi@);
    assert(t.subrange(20, 28) =~= a.sprite_x@);
    assert(t.subrange(28, 36) =~= a.sprite_attrs@);
    crate::save_state::lemma_subrange_within(d, o, 40, 0, 4);
    crate::save_state::lemma_subrange_within(d, o, 40, 4, 12);
    crate::save_state::lemma_subrange_within(d, o, 40, 12, 20);
    crate::save_state::lemma_subrange_within(d, o, 40, 20, 28);
    crate::save_state::lemma_subrange_within(d, o, 40, 28, 36);
    crate::save_state::lemma_le32_roundtrip(a.sprite_count, d, o);
    let w = d.subrange(o, o + 40);
    assert(w[36] == d[o + 36] && w[37] == d[o + 37] && w[38] == d[o + 38] && w[39] == d[o + 39]);
    assert(t[36] == bool_byte(a.sprite0_hit_possible) && t[37] == bool_byte(a.sprite0_being_rendered));
    assert(t[38] == bool_byte(a.frame_ready) && t[39] == bool_byte(a.nmi_requested));
}

/// The memory sizes the save layout relies on: nametables, palettes, OAM, the sprite slots
/// and the frame buffer.
pub open spec fn nes_ppu_layout(p: &NesPpu) -> bool {
    &&& p.nametable_ram@.len() == 2048
    &&& p.palette_ram@.len() == 32
    &&& p.oam@.len() == 256
    &&& p.sprite_patterns_lo@.len() == 8 && p.sprite_patterns_hi@.len() == 8
    &&& p.sprite_x@.len() == 8 && p.sprite_attrs@.len() == 8
    &&& p.frame_buffer@.len() == FRAME_BYTES
}

/// Save/load round trip of the PPU on its own, at any offset: a PPU `b` that `load` filled
/// from the bytes `save` wrote for `a` holds every field of `a` (the scanline survives its
/// 16-bit encoding, whatever its value); the bytes are valid when `a` is well formed.
pub proof fn lemma_nes_ppu_roundtrip(a: NesPpu, b: &NesPpu, d: Seq<u8>, o: int)
    requires
        nes_ppu_layout(&a),
        0 <= o,
        o + nes_ppu_bytes_len() <= d.len(),
        d.subrange(o, o + nes_ppu_bytes_len()) == nes_ppu_bytes(a),
        nes_ppu_loaded(b, d, o),
    ensures
        same_nes_ppu(b, &a),
        a.wf() ==> nes_ppu_bytes_valid(d, o),
{
    let n = nes_ppu_bytes_len();
    let t = nes_ppu_bytes(a);
    assert(nes_ppu_bytes_mem(a).len() == 2346);
    assert(nes_ppu_bytes_timing(a).len() == 25);
    assert(nes_ppu_bytes_sprites(a).len() == 40);
    assert(t.subrange(0, 2346) =~= nes_ppu_bytes_mem(a));
    assert(t.subrange(2346, 2371) =~= nes_ppu_bytes_timing(a));
    assert(t.subrange(2371, 2411) =~= nes_ppu_bytes_sprites(a));
    assert(t.subrange(2411, n) =~= a.frame_buffer@);
    crate::save_state::lemma_subrange_within(d, o, n, 0, 2346);
    crate::save_state::lemma_subrange_within(d, o, n, 2346, 2371);
    crate::save_state::lemma_subrange_within(d, o, n, 2371, 2411);
    crate::save_state::lemma_subrange_within(d, o, n, 2411, n);
    lemma_nes_ppu_mem_roundtrip(a, d, o);
    lemma_nes_ppu_timing_roundtrip(a, d, o + 2346);
    lemma_nes_ppu_sprites_roundtrip(a, d, o + 2371);
}

} // verus!
