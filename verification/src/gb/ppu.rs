//! Game Boy (DMG) pixel processing unit.
//!
//! Per scanline (456 cycles): OAM scan (mode 2) 80 cycles, drawing (mode 3)
//! 172 cycles, HBlank (mode 0) 204 cycles. Lines 144-153 are VBlank (mode 1).

use vstd::prelude::*;
use crate::bits::{bit_set, bit_value, clear_bit, pow2_8, set_bit, bit_mask, test_bit, with_bit_cleared, with_bit_set};
use crate::save_state::{
    bool_byte, dec32, le32, read_bool, read_slice, read_u32, read_u8, write_bool, write_slice,
    write_u32, write_u8,
};

verus! {

pub const SCREEN_W: usize = 160;
pub const SCREEN_H: usize = 144;
/// Bytes in the RGBA frame buffer.
pub const FRAME_BYTES: usize = 92160;
pub const VRAM_SIZE: usize = 0x2000;
pub const OAM_SIZE: usize = 0xA0;

#[derive(Clone, Copy, PartialEq, Eq, Structural, Debug)]
pub enum PpuMode {
    HBlank,
    VBlank,
    OamScan,
    Drawing,
}

/// The two STAT bits that report a mode.
pub open spec fn mode_bits(m: PpuMode) -> u8 {
    match m {
        PpuMode::HBlank => 0,
        PpuMode::VBlank => 1,
        PpuMode::OamScan => 2,
        PpuMode::Drawing => 3,
    }
}

/// The mode that two STAT bits report.
pub open spec fn mode_from_bits(b: u8) -> PpuMode {
    if b == 0 {
        PpuMode::HBlank
    } else if b == 1 {
        PpuMode::VBlank
    } else if b == 2 {
        PpuMode::OamScan
    } else {
        PpuMode::Drawing
    }
}

pub fn mode_to_u8(m: PpuMode) -> (b: u8)
    ensures
        b == mode_bits(m),
{
    match m {
        PpuMode::HBlank => 0,
        PpuMode::VBlank => 1,
        PpuMode::OamScan => 2,
        PpuMode::Drawing => 3,
    }
}

pub fn mode_from_u8(b: u8) -> (m: PpuMode)
    ensures
        m == mode_from_bits(b),
{
    if b == 0 {
        PpuMode::HBlank
    } else if b == 1 {
        PpuMode::VBlank
    } else if b == 2 {
        PpuMode::OamScan
    } else {
        PpuMode::Drawing
    }
}

/// RGBA of the four shades of the green palette, lightest first.
pub open spec fn shade_rgba(shade: u8) -> Seq<u8> {
    if shade == 0 {
        seq![0x9Bu8, 0xBCu8, 0x0Fu8, 0xFFu8]
    } else if shade == 1 {
        seq![0x8Bu8, 0xACu8, 0x0Fu8, 0xFFu8]
    } else if shade == 2 {
        seq![0x30u8, 0x62u8, 0x30u8, 0xFFu8]
    } else {
        seq![0x0Fu8, 0x38u8, 0x0Fu8, 0xFFu8]
    }
}

fn shade_color(shade: u8, channel: usize) -> (v: u8)
    requires
        channel < 4,
    ensures
        v == shade_rgba(shade)[channel as int],
{
    let rgba: [u8; 4] = if shade == 0 {
        [0x9B, 0xBC, 0x0F, 0xFF]
    } else if shade == 1 {
        [0x8B, 0xAC, 0x0F, 0xFF]
    } else if shade == 2 {
        [0x30, 0x62, 0x30, 0xFF]
    } else {
        [0x0F, 0x38, 0x0F, 0xFF]
    };
    rgba[channel]
}

// ---------------------------------------------------------------------------
// LCDC bits
// ---------------------------------------------------------------------------
pub fn lcdc_display_enable(lcdc: u8) -> (b: bool)
    ensures
        b == bit_set(lcdc, 7),
{
    test_bit(lcdc, 7)
}

pub fn lcdc_window_tile_map(lcdc: u8) -> (m: u16)
    ensures
        m == (if bit_set(lcdc, 6) { 0x9C00u16 } else { 0x9800u16 }),
{
    if test_bit(lcdc, 6) {
        0x9C00
    } else {
        0x9800
    }
}

pub fn lcdc_window_enable(lcdc: u8) -> (b: bool)
    ensures
        b == bit_set(lcdc, 5),
{
    test_bit(lcdc, 5)
}

pub fn lcdc_tile_data(lcdc: u8) -> (m: u16)
    ensures
        m == (if bit_set(lcdc, 4) { 0x8000u16 } else { 0x8800u16 }),
{
    if test_bit(lcdc, 4) {
        0x8000
    } else {
        0x8800
    }
}

pub fn lcdc_bg_tile_map(lcdc: u8) -> (m: u16)
    ensures
        m == (if bit_set(lcdc, 3) { 0x9C00u16 } else { 0x9800u16 }),
{
    if test_bit(lcdc, 3) {
        0x9C00
    } else {
        0x9800
    }
}

pub fn lcdc_obj_size(lcdc: u8) -> (h: u8)
    ensures
        h == (if bit_set(lcdc, 2) { 16u8 } else { 8u8 }),
{
    if test_bit(lcdc, 2) {
        16
    } else {
        8
    }
}

pub fn lcdc_obj_enable(lcdc: u8) -> (b: bool)
    ensures
        b == bit_set(lcdc, 1),
{
    test_bit(lcdc, 1)
}

pub fn lcdc_bg_enable(lcdc: u8) -> (b: bool)
    ensures
        b == bit_set(lcdc, 0),
{
    test_bit(lcdc, 0)
}

// ---------------------------------------------------------------------------
// Tiles and palettes
// ---------------------------------------------------------------------------

/// VRAM offset (from 0x8000) of row `ty` of tile `id` in the tile data area at `base`.
/// At 0x8000 tiles are numbered 0..255; otherwise tile ids are signed around 0x9000.
pub open spec fn tile_row_offset(base: u16, id: u8, ty: u8) -> int {
    if base == 0x8000 {
        id * 16 + ty * 2
    } else {
        0x1000 + (if id < 128 { id as int } else { id - 256 }) * 16 + ty * 2
    }
}

/// The 2-bit colour number of pixel (`tx`, `ty`) of a tile: bit 7 - tx of the
/// high plane byte, then of the low plane byte.
pub open spec fn tile_pixel_spec(vram: Seq<u8>, base: u16, id: u8, tx: u8, ty: u8) -> u8 {
    let o = tile_row_offset(base, id, ty);
    let b = (7 - tx % 8) as u8;
    (bit_value(vram[o + 1], b) * 2 + bit_value(vram[o], b)) as u8
}

/// Tile data addressing, for every tile id, row and column: pixel (`tx`, `ty`) of a tile
/// takes bit 7 - `tx` of the two bytes of its row, the byte at the row's address giving
/// bit 0 of the colour number and the next byte bit 1. With the 0x8000 data area the row
/// is at 0x8000 + 16 * id + 2 * ty; with the 0x8800 area ids 0-127 have their data at
/// 0x9000 + 16 * id and ids 128-255 at 0x8800 + 16 * (id - 128). VRAM index `i` holds
/// address 0x8000 + i.
pub proof fn lemma_tile_data_address(vram: Seq<u8>, id: u8, tx: u8, ty: u8)
    requires
        tx < 8,
        ty < 8,
    ensures
        ({
            let row8000: int = 0x8000 + id * 16 + ty * 2;
            let row8800: int = if id < 128 { 0x9000 + id * 16 + ty * 2 } else { 0x8800 + (id - 128) * 16 + ty * 2 };
            let b = (7 - tx) as u8;
            &&& tile_pixel_spec(vram, 0x8000, id, tx, ty) == bit_value(vram[row8000 - 0x8000 + 1], b) * 2
                + bit_value(vram[row8000 - 0x8000], b)
            &&& tile_pixel_spec(vram, 0x8800, id, tx, ty) == bit_value(vram[row8800 - 0x8000 + 1], b) * 2
                + bit_value(vram[row8800 - 0x8000], b)
            &&& 0x8000 <= row8000 && row8000 + 1 < 0x9000
            &&& 0x8800 <= row8800 && row8800 + 1 < 0x9800
        }),
{
    let b = (7 - tx) as u8;
    let o = tile_row_offset(0x8800, id, ty);
    assert(bit_value(vram[o], b) <= 1 && bit_value(vram[o + 1], b) <= 1);
    let o2 = tile_row_offset(0x8000, id, ty);
    assert(bit_value(vram[o2], b) <= 1 && bit_value(vram[o2 + 1], b) <= 1);
}

/// The shade a palette register maps a colour number (0..3) to.
pub open spec fn palette_shade(palette: u8, id: u8) -> u8 {
    let p: int = if id == 0 { 1 } else if id == 1 { 4 } else if id == 2 { 16 } else { 64 };
    (((palette as int) / p) % 4) as u8
}

/// A palette register maps colour number `i` (0-3) to the shade held in its bits 2i+1
/// and 2i.
pub proof fn lemma_palette_shade_bits(palette: u8, i: u8)
    requires
        i < 4,
    ensures
        palette_shade(palette, i) == bit_value(palette, (2 * i + 1) as u8) * 2 + bit_value(palette, (2 * i) as u8),
{
    assert(palette_shade(palette, i) == bit_value(palette, (2 * i + 1) as u8) * 2 + bit_value(palette, (2 * i) as u8))
        by (bit_vector)
        requires
            i < 4,
    ;
}

/// The background colour number at screen column `x` of line `ly`.
pub open spec fn bg_pixel_spec(p: PpuView, ly: int, x: int) -> u8 {
    let py = (ly + p.scy) % 256;
    let px = (x + p.scx) % 256;
    let map: int = if bit_set(p.lcdc, 3) { 0x1C00 } else { 0x1800 };
    let base: u16 = if bit_set(p.lcdc, 4) { 0x8000 } else { 0x8800 };
    let tile_id = p.vram[map + (py / 8) * 32 + px / 8];
    tile_pixel_spec(p.vram, base, tile_id, (px % 8) as u8, (py % 8) as u8)
}

/// The background pixel at column `x` of line `ly`, for every PPU state: the point
/// (x + SCX, ly + SCY) wrapped to 256 lies in the tile whose id the map at 0x9800 (0x9C00
/// with LCDC bit 3) holds; LCDC bit 4 picks the data area, 0x8000 with unsigned ids, or
/// 0x9000 for ids 0-127 and 0x8800 for ids 128-255; the colour number takes bit
/// 7 - (px mod 8) of the two bytes of row (py mod 8). VRAM index `i` holds 0x8000 + i.
pub proof fn lemma_bg_pixel_address(p: PpuView, ly: int, x: int)
    ensures
        ({
            let py = (ly + p.scy) % 256;
            let px = (x + p.scx) % 256;
            let map: int = if bit_set(p.lcdc, 3) { 0x9C00 } else { 0x9800 };
            let id = p.vram[map - 0x8000 + (py / 8) * 32 + px / 8];
            let ty = py % 8;
            let row: int = if bit_set(p.lcdc, 4) {
                0x8000 + id * 16 + ty * 2
            } else if id < 128 {
                0x9000 + id * 16 + ty * 2
            } else {
                0x8800 + (id - 128) * 16 + ty * 2
            };
            let b = (7 - px % 8) as u8;
            bg_pixel_spec(p, ly, x) == bit_value(p.vram[row - 0x8000 + 1], b) * 2 + bit_value(p.vram[row - 0x8000], b)
        }),
{
    let py = (ly + p.scy) % 256;
    let px = (x + p.scx) % 256;
    let map: int = if bit_set(p.lcdc, 3) { 0x1C00 } else { 0x1800 };
    let id = p.vram[map + (py / 8) * 32 + px / 8];
    lemma_tile_data_address(p.vram, id, (px % 8) as u8, (py % 8) as u8);
}

/// The window colour number at screen column `x` (needs `x + 7 >= wx`).
pub open spec fn window_pixel_spec(p: PpuView, x: int) -> u8 {
    let win_x = x - (p.wx - 7);
    let win_y = p.window_line_counter as int;
    let map: int = if bit_set(p.lcdc, 6) { 0x1C00 } else { 0x1800 };
    let base: u16 = if bit_set(p.lcdc, 4) { 0x8000 } else { 0x8800 };
    let tile_id = p.vram[map + (win_y / 8) * 32 + win_x / 8];
    tile_pixel_spec(p.vram, base, tile_id, (win_x % 8) as u8, (win_y % 8) as u8)
}

/// Whether the window is drawn on line `ly`.
pub open spec fn window_on_line(p: PpuView, ly: int) -> bool {
    bit_set(p.lcdc, 5) && p.wx - 7 < 160 && p.wy <= ly
}

/// The background-or-window colour number of column `x` on line `ly`.
pub open spec fn line_pixel_spec(p: PpuView, ly: int, x: int) -> u8 {
    if window_on_line(p, ly) && x >= p.wx - 7 {
        window_pixel_spec(p, x)
    } else if bit_set(p.lcdc, 0) {
        bg_pixel_spec(p, ly, x)
    } else {
        0
    }
}

// ---------------------------------------------------------------------------
// PPU state
// ---------------------------------------------------------------------------

/// The mathematical model of the PPU.
pub struct PpuView {
    pub vram: Seq<u8>,
    pub oam: Seq<u8>,
    pub lcdc: u8,
    pub stat: u8,
    pub scy: u8,
    pub scx: u8,
    pub ly: u8,
    pub lyc: u8,
    pub bgp: u8,
    pub obp0: u8,
    pub obp1: u8,
    pub wy: u8,
    pub wx: u8,
    pub mode: PpuMode,
    pub cycle_counter: u32,
    pub frame_buffer: Seq<u8>,
    pub frame_ready: bool,
    pub vblank_irq: bool,
    pub stat_irq: bool,
    pub window_line_counter: u8,
}

pub struct Ppu {
    /// 0x8000 – 0x9FFF
    pub vram: Vec<u8>,
    /// 0xFE00 – 0xFE9F
    pub oam: Vec<u8>,
    /// 0xFF40
    pub lcdc: u8,
    /// 0xFF41
    pub stat: u8,
    /// 0xFF42
    pub scy: u8,
    /// 0xFF43
    pub scx: u8,
    /// 0xFF44
    pub ly: u8,
    /// 0xFF45
    pub lyc: u8,
    /// 0xFF47
    pub bgp: u8,
    /// 0xFF48
    pub obp0: u8,
    /// 0xFF49
    pub obp1: u8,
    /// 0xFF4A
    pub wy: u8,
    /// 0xFF4B
    pub wx: u8,
    pub mode: PpuMode,
    pub cycle_counter: u32,
    /// RGBA, 160 * 144 * 4 bytes.
    pub frame_buffer: Vec<u8>,
    pub frame_ready: bool,
    /// Interrupt requests, cleared by the memory unit after it reads them.
    pub vblank_irq: bool,
    pub stat_irq: bool,
    pub window_line_counter: u8,
}

impl View for Ppu {
    type V = PpuView;

    open spec fn view(&self) -> PpuView {
        PpuView {
            vram: self.vram@,
            oam: self.oam@,
            lcdc: self.lcdc,
            stat: self.stat,
            scy: self.scy,
            scx: self.scx,
            ly: self.ly,
            lyc: self.lyc,
            bgp: self.bgp,
            obp0: self.obp0,
            obp1: self.obp1,
            wy: self.wy,
            wx: self.wx,
            mode: self.mode,
            cycle_counter: self.cycle_counter,
            frame_buffer: self.frame_buffer@,
            frame_ready: self.frame_ready,
            vblank_irq: self.vblank_irq,
            stat_irq: self.stat_irq,
            window_line_counter: self.window_line_counter,
        }
    }
}

/// Memory sizes, and the line counter in the range of its mode:
/// lines 0-143 outside VBlank, 144-153 during VBlank.
pub open spec fn ppu_wf(p: PpuView) -> bool {
    &&& p.vram.len() == VRAM_SIZE
    &&& p.oam.len() == OAM_SIZE
    &&& p.frame_buffer.len() == FRAME_BYTES
    &&& if p.mode == PpuMode::VBlank {
        144 <= p.ly <= 153
    } else {
        p.ly < 144
    }
}

/// The mode change the PPU makes once its cycle counter has reached the length of the
/// current mode: OAM scan to drawing; drawing to H-blank, drawing line LY; H-blank to the
/// next line's OAM scan, or to V-blank (raising its interrupt and completing the frame)
/// after line 143; V-blank to the next line, wrapping to line 0's OAM scan after line 153.
pub open spec fn ppu_transition(p: PpuView) -> PpuView {
    let c = p.cycle_counter;
    match p.mode {
        PpuMode::OamScan => set_mode_spec(PpuView { cycle_counter: (c - 80) as u32, ..p }, PpuMode::Drawing),
        PpuMode::Drawing => {
            let q = PpuView { cycle_counter: (c - 172) as u32, ..p };
            set_mode_spec(
                PpuView {
                    frame_buffer: scanline_drawn(q),
                    window_line_counter: window_counter_after(q, q.ly as int),
                    ..q
                },
                PpuMode::HBlank,
            )
        },
        PpuMode::HBlank => {
            let p1 = check_lyc_spec(PpuView { cycle_counter: (c - 204) as u32, ly: (p.ly + 1) as u8, ..p });
            if p1.ly == 144 {
                PpuView {
                    vblank_irq: true,
                    frame_ready: true,
                    window_line_counter: 0,
                    ..set_mode_spec(p1, PpuMode::VBlank)
                }
            } else {
                set_mode_spec(p1, PpuMode::OamScan)
            }
        },
        PpuMode::VBlank => {
            let p1 = check_lyc_spec(PpuView { cycle_counter: (c - 456) as u32, ly: (p.ly + 1) as u8, ..p });
            if p1.ly > 153 {
                PpuView {
                    window_line_counter: 0,
                    ..set_mode_spec(check_lyc_spec(PpuView { ly: 0, ..p1 }), PpuMode::OamScan)
                }
            } else {
                p1
            }
        },
    }
}

/// The PPU after making every mode change its cycle counter covers.
pub open spec fn ppu_advance(p: PpuView) -> PpuView
    decreases p.cycle_counter,
{
    if p.cycle_counter >= mode_threshold(p.mode) {
        ppu_advance(ppu_transition(p))
    } else {
        p
    }
}

/// A PPU step of `cycles` cycles from `a` to `b` while the display is on: the frame flag
/// cleared, the cycles added, and every mode change they cover made.
pub open spec fn ppu_step_spec(a: PpuView, b: PpuView, cycles: u32) -> bool {
    b == ppu_advance(PpuView { frame_ready: false, cycle_counter: (a.cycle_counter + cycles) as u32, ..a })
}

/// A mode change keeps the PPU well formed.
proof fn lemma_transition_wf(p: PpuView)
    requires
        ppu_wf(p),
        p.cycle_counter >= mode_threshold(p.mode),
    ensures
        ppu_wf(ppu_transition(p)),
        ppu_transition(p).cycle_counter == p.cycle_counter - mode_threshold(p.mode),
{
    reveal(scanline_drawn);
}

/// After all its mode changes the PPU is well formed and inside its mode.
proof fn lemma_advance_wf(p: PpuView)
    requires
        ppu_wf(p),
    ensures
        ppu_wf(ppu_advance(p)),
        ppu_advance(p).cycle_counter < mode_threshold(ppu_advance(p).mode),
    decreases p.cycle_counter,
{
    if p.cycle_counter >= mode_threshold(p.mode) {
        lemma_transition_wf(p);
        lemma_advance_wf(ppu_transition(p));
    }
}

/// The number of cycles a mode lasts on one line.
pub open spec fn mode_threshold(m: PpuMode) -> u32 {
    match m {
        PpuMode::OamScan => 80,
        PpuMode::Drawing => 172,
        PpuMode::HBlank => 204,
        PpuMode::VBlank => 456,
    }
}

/// Entering a mode: STAT reports it, and its STAT interrupt source (bits 3-5) raises a request.
pub open spec fn set_mode_spec(p: PpuView, m: PpuMode) -> PpuView {
    let stat = (p.stat - p.stat % 4 + mode_bits(m)) as u8;
    let irq = match m {
        PpuMode::HBlank => bit_set(stat, 3),
        PpuMode::VBlank => bit_set(stat, 4),
        PpuMode::OamScan => bit_set(stat, 5),
        PpuMode::Drawing => false,
    };
    PpuView { mode: m, stat, stat_irq: p.stat_irq || irq, ..p }
}

/// The LY = LYC comparison: STAT bit 2 reports it, and bit 6 enables its interrupt.
pub open spec fn check_lyc_spec(p: PpuView) -> PpuView {
    if p.ly == p.lyc {
        let stat = set_bit(p.stat, 2);
        PpuView { stat, stat_irq: p.stat_irq || bit_set(stat, 6), ..p }
    } else {
        PpuView { stat: clear_bit(p.stat, 2), ..p }
    }
}

/// The window line counter after drawing line `ly`.
pub open spec fn window_counter_after(p: PpuView, ly: int) -> u8 {
    if ly < 144 && window_on_line(p, ly) && p.wx - 7 < 160 {
        ((p.window_line_counter + 1) % 256) as u8
    } else {
        p.window_line_counter
    }
}

/// The shade of column `x` of line LY as `render_scanline` draws it: the sprites over the
/// background and window colour numbers when LCDC bit 1 is set, else those colour numbers
/// through BGP.
pub open spec fn scanline_shade(p: PpuView, x: int) -> u8 {
    let ly = p.ly as int;
    if bit_set(p.lcdc, 1) {
        gb_line_shade(
            PpuView { window_line_counter: window_counter_after(p, ly), ..p },
            Seq::new(160, |xx: int| line_pixel_spec(p, ly, xx)),
            ly,
            x,
        )
    } else {
        palette_shade(p.bgp, line_pixel_spec(p, ly, x))
    }
}

/// The frame buffer after drawing line LY of `p`: the line's 160 RGBA pixels, the rest
/// unchanged (all of it when LY is not a visible line).
#[verifier::opaque]
pub open spec fn scanline_drawn(p: PpuView) -> Seq<u8> {
    let ly = p.ly as int;
    Seq::new(
        p.frame_buffer.len(),
        |i: int|
            if ly < 144 && ly * 640 <= i < ly * 640 + 640 {
                shade_rgba(scanline_shade(p, (i - ly * 640) / 4))[(i - ly * 640) % 4]
            } else {
                p.frame_buffer[i]
            },
    )
}

/// Whether a frame buffer differs from another only within line `ly`.
pub open spec fn only_line_changed(before: Seq<u8>, after: Seq<u8>, ly: int) -> bool {
    &&& after.len() == before.len()
    &&& forall|i: int|
        0 <= i < before.len() && !(ly * 640 <= i < ly * 640 + 640) ==> #[trigger] after[i]
            == before[i]
}

/// Sprite height in rows: 16 when LCDC bit 2 is set, else 8.
pub open spec fn gb_sprite_height(lcdc: u8) -> int {
    if bit_set(lcdc, 2) {
        16
    } else {
        8
    }
}

/// Whether OAM sprite `j` covers line `ly`, sprites being `height` rows tall (OAM Y is the
/// screen row plus 16).
pub open spec fn gb_sprite_on_line(oam: Seq<u8>, ly: int, height: int, j: int) -> bool {
    oam[4 * j] - 16 <= ly < oam[4 * j] - 16 + height
}

/// The OAM indices of the sprites line `ly` shows, chosen in OAM order among the first `i`,
/// at most 10.
pub open spec fn gb_line_sprites(oam: Seq<u8>, ly: int, height: int, i: int) -> Seq<int>
    decreases i,
{
    if i <= 0 {
        Seq::empty()
    } else {
        let s = gb_line_sprites(oam, ly, height, i - 1);
        if s.len() < 10 && gb_sprite_on_line(oam, ly, height, i - 1) {
            s.push(i - 1)
        } else {
            s
        }
    }
}

/// The colour number (0: transparent) OAM sprite `j` gives screen column `x` of line `ly`:
/// attribute bit 6 flips it vertically, bit 5 horizontally; an 8x16 sprite takes its upper
/// tile with bit 0 of the index clear and its lower one with it set.
pub open spec fn gb_sprite_pixel(p: PpuView, ly: int, height: int, j: int, x: int) -> u8 {
    let col = x - (p.oam[4 * j + 1] - 8);
    let attr = p.oam[4 * j + 3];
    let tile = p.oam[4 * j + 2];
    let row0 = ly - (p.oam[4 * j] - 16);
    let row = if bit_set(attr, 6) {
        height - 1 - row0
    } else {
        row0
    };
    let tile_id = if height == 16 {
        if row < 8 {
            clear_bit(tile, 0)
        } else {
            set_bit(tile, 0)
        }
    } else {
        tile
    };
    let tx = if bit_set(attr, 5) {
        7 - col
    } else {
        col
    };
    if 0 <= col < 8 {
        tile_pixel_spec(p.vram, 0x8000, tile_id, tx as u8, (row % 8) as u8)
    } else {
        0
    }
}

/// Whether OAM sprite `j` draws at column `x`: an opaque pixel, unless attribute bit 7 puts
/// it behind a non-zero background colour number in `bg`.
pub open spec fn gb_sprite_draws(p: PpuView, bg: Seq<u8>, ly: int, height: int, j: int, x: int) -> bool {
    gb_sprite_pixel(p, ly, height, j, x) != 0 && !(bit_set(p.oam[4 * j + 3], 7) && bg[x] != 0)
}

/// The position in `sel` of the last sprite of `sel[s..]` that draws at `x`, or -1.
pub open spec fn gb_top_sprite(p: PpuView, bg: Seq<u8>, ly: int, height: int, sel: Seq<int>, s: int, x: int) -> int
    decreases sel.len() - s,
{
    if s >= sel.len() {
        -1
    } else {
        let r = gb_top_sprite(p, bg, ly, height, sel, s + 1, x);
        if r >= 0 || !gb_sprite_draws(p, bg, ly, height, sel[s], x) {
            r
        } else {
            s
        }
    }
}

/// The shade of column `x` when the sprites `sel[s..]` are drawn over the background colour
/// numbers `bg`: the top drawing sprite's colour through OBP1 (attribute bit 4) or OBP0,
/// else the background colour through BGP.
pub open spec fn gb_shade_from(p: PpuView, bg: Seq<u8>, ly: int, height: int, sel: Seq<int>, s: int, x: int) -> u8 {
    let t = gb_top_sprite(p, bg, ly, height, sel, s, x);
    if t >= 0 {
        let j = sel[t];
        palette_shade(
            if bit_set(p.oam[4 * j + 3], 4) {
                p.obp1
            } else {
                p.obp0
            },
            gb_sprite_pixel(p, ly, height, j, x),
        )
    } else {
        palette_shade(p.bgp, bg[x])
    }
}

/// Which sprite shows at a column, for every PPU state, background colour numbers `bg`
/// and selection `sel`: the search over `sel[s..]` finds none exactly when none of those
/// sprites draws at `x` (so the background shows), and otherwise finds one that draws
/// there with no later sprite of the selection drawing there (later sprites are drawn
/// over earlier ones).
pub proof fn lemma_top_sprite(p: PpuView, bg: Seq<u8>, ly: int, height: int, sel: Seq<int>, s: int, x: int)
    requires
        0 <= s <= sel.len(),
    ensures
        ({
            let t = gb_top_sprite(p, bg, ly, height, sel, s, x);
            &&& (t == -1) == (forall|k: int|
                s <= k < sel.len() ==> !#[trigger] gb_sprite_draws(p, bg, ly, height, sel[k], x))
            &&& t != -1 ==> s <= t < sel.len() && gb_sprite_draws(p, bg, ly, height, sel[t], x) && forall|k: int|
                t < k < sel.len() ==> !#[trigger] gb_sprite_draws(p, bg, ly, height, sel[k], x)
        }),
    decreases sel.len() - s,
{
    if s < sel.len() {
        lemma_top_sprite(p, bg, ly, height, sel, s + 1, x);
        let r = gb_top_sprite(p, bg, ly, height, sel, s + 1, x);
        if r == -1 && !gb_sprite_draws(p, bg, ly, height, sel[s], x) {
            assert forall|k: int| s <= k < sel.len() implies !#[trigger] gb_sprite_draws(p, bg, ly, height, sel[k], x) by {
                if k > s {
                    assert(s + 1 <= k < sel.len());
                }
            }
        }
    }
}

/// The shade of column `x` of line `ly` with the line's sprites over the background colour
/// numbers `bg`.
pub open spec fn gb_line_shade(p: PpuView, bg: Seq<u8>, ly: int, x: int) -> u8 {
    let h = gb_sprite_height(p.lcdc);
    gb_shade_from(p, bg, ly, h, gb_line_sprites(p.oam, ly, h, 40), 0, x)
}

/// At most 10 sprites are chosen, each an OAM index below `i`, in increasing order.
proof fn lemma_line_sprites_shape(oam: Seq<u8>, ly: int, height: int, i: int)
    ensures
        gb_line_sprites(oam, ly, height, i).len() <= 10,
        forall|t: int|
            0 <= t < gb_line_sprites(oam, ly, height, i).len() ==> 0 <= #[trigger] gb_line_sprites(
                oam,
                ly,
                height,
                i,
            )[t] < i,
    decreases i,
{
    if i > 0 {
        lemma_line_sprites_shape(oam, ly, height, i - 1);
    }
}

/// Once 10 sprites are chosen, the choice stays.
proof fn lemma_line_sprites_full(oam: Seq<u8>, ly: int, height: int, i: int, k: int)
    requires
        0 <= i <= k,
        gb_line_sprites(oam, ly, height, i).len() >= 10,
    ensures
        gb_line_sprites(oam, ly, height, k) == gb_line_sprites(oam, ly, height, i),
    decreases k - i,
{
    if i < k {
        lemma_line_sprites_full(oam, ly, height, i, k - 1);
    }
}

/// The serialized registers and timing state (20 bytes) that precede the memories.
pub open spec fn ppu_header_bytes(p: PpuView) -> Seq<u8> {
    seq![p.lcdc, p.stat, p.scy, p.scx, p.ly, p.lyc, p.bgp, p.obp0, p.obp1, p.wy, p.wx, mode_bits(p.mode)]
        + le32(p.cycle_counter) + seq![
        bool_byte(p.vblank_irq),
        bool_byte(p.stat_irq),
        bool_byte(p.frame_ready),
        p.window_line_counter,
    ]
}

/// The whole serialized PPU.
pub open spec fn ppu_bytes(p: PpuView) -> Seq<u8> {
    ppu_header_bytes(p) + p.vram + p.oam + p.frame_buffer
}

/// Length of a serialized PPU.
pub open spec fn ppu_bytes_len() -> int {
    20 + VRAM_SIZE + OAM_SIZE + FRAME_BYTES
}

/// The PPU that `load` reads from bytes at `o`.
pub open spec fn ppu_from_bytes(s: Seq<u8>, o: int) -> PpuView {
    PpuView {
        lcdc: s[o],
        stat: s[o + 1],
        scy: s[o + 2],
        scx: s[o + 3],
        ly: s[o + 4],
        lyc: s[o + 5],
        bgp: s[o + 6],
        obp0: s[o + 7],
        obp1: s[o + 8],
        wy: s[o + 9],
        wx: s[o + 10],
        mode: mode_from_bits(s[o + 11]),
        cycle_counter: dec32(s, o + 12),
        vblank_irq: s[o + 16] != 0,
        stat_irq: s[o + 17] != 0,
        frame_ready: s[o + 18] != 0,
        window_line_counter: s[o + 19],
        vram: s.subrange(o + 20, o + 20 + VRAM_SIZE),
        oam: s.subrange(o + 20 + VRAM_SIZE, o + 20 + VRAM_SIZE + OAM_SIZE),
        frame_buffer: s.subrange(
            o + 20 + VRAM_SIZE + OAM_SIZE,
            o + 20 + VRAM_SIZE + OAM_SIZE + FRAME_BYTES,
        ),
    }
}

impl Ppu {
    pub fn new() -> (p: Self)
        ensures
            p@ == (PpuView {
                vram: Seq::new(VRAM_SIZE as nat, |i| 0u8),
                oam: Seq::new(OAM_SIZE as nat, |i| 0u8),
                lcdc: 0x91,
                stat: 0,
                scy: 0,
                scx: 0,
                ly: 0,
                lyc: 0,
                bgp: 0xFC,
                obp0: 0xFF,
                obp1: 0xFF,
                wy: 0,
                wx: 0,
                mode: PpuMode::OamScan,
                cycle_counter: 0,
                frame_buffer: Seq::new(FRAME_BYTES as nat, |i| 0xFFu8),
                frame_ready: false,
                vblank_irq: false,
                stat_irq: false,
                window_line_counter: 0,
            }),
            ppu_wf(p@),
    {
        let p = Ppu {
            vram: vec![0u8; VRAM_SIZE],
            oam: vec![0u8; OAM_SIZE],
            lcdc: 0x91,
            stat: 0x00,
            scy: 0,
            scx: 0,
            ly: 0,
            lyc: 0,
            bgp: 0xFC,
            obp0: 0xFF,
            obp1: 0xFF,
            wy: 0,
            wx: 0,
            mode: PpuMode::OamScan,
            cycle_counter: 0,
            frame_buffer: vec![0xFFu8; FRAME_BYTES],
            frame_ready: false,
            vblank_irq: false,
            stat_irq: false,
            window_line_counter: 0,
        };
        assert(p.vram@ =~= Seq::new(VRAM_SIZE as nat, |i| 0u8));
        assert(p.oam@ =~= Seq::new(OAM_SIZE as nat, |i| 0u8));
        assert(p.frame_buffer@ =~= Seq::new(FRAME_BYTES as nat, |i| 0xFFu8));
        p
    }

    /// VRAM read; VRAM is locked (reads 0xFF) while drawing.
    pub fn read_vram(&self, addr: u16) -> (v: u8)
        requires
            ppu_wf(self@),
            0x8000 <= addr < 0xA000,
        ensures
            v == (if self.mode == PpuMode::Drawing { 0xFFu8 } else { self.vram@[addr - 0x8000] }),
    {
        if self.mode == PpuMode::Drawing {
            return 0xFF;
        }
        self.vram[(addr - 0x8000) as usize]
    }

    /// VRAM write; ignored while drawing.
    pub fn write_vram(&mut self, addr: u16, val: u8)
        requires
            ppu_wf(old(self)@),
            0x8000 <= addr < 0xA000,
        ensures
            final(self)@ == (if old(self).mode == PpuMode::Drawing {
                old(self)@
            } else {
                PpuView { vram: old(self)@.vram.update(addr - 0x8000, val), ..old(self)@ }
            }),
    {
        if self.mode == PpuMode::Drawing {
            return;
        }
        self.vram[(addr - 0x8000) as usize] = val;
    }

    /// OAM read; OAM is locked (reads 0xFF) during OAM scan and drawing.
    pub fn read_oam(&self, addr: u16) -> (v: u8)
        requires
            ppu_wf(self@),
            0xFE00 <= addr < 0xFEA0,
        ensures
            v == (if self.mode == PpuMode::OamScan || self.mode == PpuMode::Drawing {
                0xFFu8
            } else {
                self.oam@[addr - 0xFE00]
            }),
    {
        if self.mode == PpuMode::OamScan || self.mode == PpuMode::Drawing {
            return 0xFF;
        }
        self.oam[(addr - 0xFE00) as usize]
    }

    /// OAM write; ignored during OAM scan and drawing.
    pub fn write_oam(&mut self, addr: u16, val: u8)
        requires
            ppu_wf(old(self)@),
            0xFE00 <= addr < 0xFEA0,
        ensures
            final(self)@ == (if old(self).mode == PpuMode::OamScan || old(self).mode
                == PpuMode::Drawing {
                old(self)@
            } else {
                PpuView { oam: old(self)@.oam.update(addr - 0xFE00, val), ..old(self)@ }
            }),
    {
        if self.mode == PpuMode::OamScan || self.mode == PpuMode::Drawing {
            return;
        }
        self.oam[(addr - 0xFE00) as usize] = val;
    }

    /// OAM write used by DMA, which ignores the lock.
    pub fn dma_write_oam(&mut self, index: u8, val: u8)
        requires
            ppu_wf(old(self)@),
            (index as int) < OAM_SIZE,
        ensures
            final(self)@ == (PpuView { oam: old(self)@.oam.update(index as int, val), ..old(self)@ }),
    {
        self.oam[index as usize] = val;
    }

    /// Advances the PPU by `cycles` CPU cycles; returns whether a frame was completed.
    pub fn step(&mut self, cycles: u32) -> (frame_done: bool)
        requires
            ppu_wf(old(self)@),
            bit_set(old(self).lcdc, 7) ==> old(self).cycle_counter + cycles <= u32::MAX,
        ensures
            ppu_wf(final(self)@),
            old(self).cycle_counter < mode_threshold(old(self).mode) ==> final(self).cycle_counter
                < mode_threshold(final(self).mode),
            bit_set(old(self).lcdc, 7) ==> frame_done == final(self).frame_ready,
            bit_set(old(self).lcdc, 7) ==> final(self).cycle_counter < mode_threshold(final(self).mode),
            !bit_set(old(self).lcdc, 7) ==> !frame_done && final(self)@ == old(self)@,
            bit_set(old(self).lcdc, 7) ==> ppu_step_spec(old(self)@, final(self)@, cycles),
    {
        if !lcdc_display_enable(self.lcdc) {
            return false;
        }
        self.frame_ready = false;
        self.cycle_counter = self.cycle_counter + cycles;
        let ghost start = self@;
        while self.cycle_counter >= self.mode_length()
            invariant
                ppu_wf(self@),
                ppu_advance(self@) == ppu_advance(start),
            decreases self.cycle_counter,
        {
            proof {
                lemma_transition_wf(self@);
            }
            self.change_mode();
        }
        proof {
            lemma_advance_wf(self@);
        }
        self.frame_ready
    }

    /// The number of cycles the current mode lasts on one line.
    pub fn mode_length(&self) -> (t: u32)
        ensures
            t == mode_threshold(self.mode),
    {
        match self.mode {
            PpuMode::OamScan => 80,
            PpuMode::Drawing => 172,
            PpuMode::HBlank => 204,
            PpuMode::VBlank => 456,
        }
    }

    /// Makes the mode change due now that the cycle counter has reached the mode's length.
    fn change_mode(&mut self)
        requires
            ppu_wf(old(self)@),
            old(self).cycle_counter >= mode_threshold(old(self).mode),
        ensures
            final(self)@ == ppu_transition(old(self)@),
    {
        match self.mode {
            PpuMode::OamScan => {
                self.cycle_counter = self.cycle_counter - 80;
                self.set_mode(PpuMode::Drawing);
            },
            PpuMode::Drawing => {
                self.cycle_counter = self.cycle_counter - 172;
                self.render_scanline();
                self.set_mode(PpuMode::HBlank);
            },
            PpuMode::HBlank => {
                self.cycle_counter = self.cycle_counter - 204;
                self.ly = self.ly + 1;
                self.check_lyc();
                if self.ly == 144 {
                    self.set_mode(PpuMode::VBlank);
                    self.vblank_irq = true;
                    self.frame_ready = true;
                    self.window_line_counter = 0;
                } else {
                    self.set_mode(PpuMode::OamScan);
                }
            },
            PpuMode::VBlank => {
                self.cycle_counter = self.cycle_counter - 456;
                self.ly = self.ly + 1;
                self.check_lyc();
                if self.ly > 153 {
                    self.ly = 0;
                    self.check_lyc();
                    self.set_mode(PpuMode::OamScan);
                    self.window_line_counter = 0;
                }
            },
        }
    }

    fn set_mode(&mut self, mode: PpuMode)
        ensures
            final(self)@ == set_mode_spec(old(self)@, mode),
    {
        self.mode = mode;
        self.stat = self.stat - self.stat % 4 + mode_to_u8(mode);
        let irq = match mode {
            PpuMode::HBlank => test_bit(self.stat, 3),
            PpuMode::VBlank => test_bit(self.stat, 4),
            PpuMode::OamScan => test_bit(self.stat, 5),
            PpuMode::Drawing => false,
        };
        if irq {
            self.stat_irq = true;
        }
    }

    fn check_lyc(&mut self)
        ensures
            final(self)@ == check_lyc_spec(old(self)@),
    {
        if self.ly == self.lyc {
            self.stat = with_bit_set(self.stat, 2);
            if test_bit(self.stat, 6) {
                self.stat_irq = true;
            }
        } else {
            self.stat = with_bit_cleared(self.stat, 2);
        }
    }

    // -----------------------------------------------------------------------
    // Scanline rendering
    // -----------------------------------------------------------------------

    /// Draws line LY (when it is a visible line) into the frame buffer.
    fn render_scanline(&mut self)
        requires
            ppu_wf(old(self)@),
        ensures
            ppu_wf(final(self)@),
            only_line_changed(old(self).frame_buffer@, final(self).frame_buffer@, old(self).ly as int),
            final(self)@ == (PpuView {
                frame_buffer: final(self).frame_buffer@,
                window_line_counter: window_counter_after(old(self)@, old(self).ly as int),
                ..old(self)@
            }),
            final(self).frame_buffer@ == scanline_drawn(old(self)@),
    {
        let ly = self.ly as usize;
        if ly >= SCREEN_H {
            assert(self.frame_buffer@ =~= scanline_drawn(old(self)@)) by {
                reveal(scanline_drawn);
            }
            return;
        }
        let ghost p = self@;
        let mut ids: Vec<u8> = vec![0u8; SCREEN_W];

        if lcdc_bg_enable(self.lcdc) {
            self.render_bg_line(ly, &mut ids);
        }
        assert forall|x: int| 0 <= x < 160 implies ids@[x] == (if bit_set(p.lcdc, 0) {
            bg_pixel_spec(p, ly as int, x)
        } else {
            0
        }) by {}

        if lcdc_window_enable(self.lcdc) && (self.wx as i16 - 7) < SCREEN_W as i16 && self.wy <= self.ly {
            self.render_window_line(ly, &mut ids);
        }
        assert(self@ == PpuView {
            window_line_counter: window_counter_after(p, ly as int),
            ..p
        });
        assert forall|x: int| 0 <= x < 160 implies ids@[x] == line_pixel_spec(p, ly as int, x) by {}

        if lcdc_obj_enable(self.lcdc) {
            assert(ids@ =~= Seq::new(160, |xx: int| line_pixel_spec(p, ly as int, xx)));
            self.render_sprites_line(ly, &ids);
        } else {
            let mut x: usize = 0;
            while x < SCREEN_W
                invariant
                    ly < 144,
                    x <= 160,
                    ids@.len() == 160,
                    ppu_wf(self@),
                    self@ == (PpuView { frame_buffer: self.frame_buffer@, ..self@ }),
                    self.bgp == p.bgp,
                    self.ly == p.ly,
                    self.ly == ly,
                    self.window_line_counter == window_counter_after(p, ly as int),
                    self.lcdc == p.lcdc,
                    self.vram@ == p.vram,
                    self.oam@ == p.oam,
                    self.scx == p.scx && self.scy == p.scy && self.wx == p.wx && self.wy == p.wy,
                    self.stat == p.stat && self.lyc == p.lyc && self.obp0 == p.obp0 && self.obp1 == p.obp1,
                    self.mode == p.mode && self.cycle_counter == p.cycle_counter,
                    self.frame_ready == p.frame_ready && self.vblank_irq == p.vblank_irq && self.stat_irq == p.stat_irq,
                    forall|xx: int| 0 <= xx < 160 ==> ids@[xx] == line_pixel_spec(p, ly as int, xx),
                    only_line_changed(p.frame_buffer, self.frame_buffer@, ly as int),
                    forall|xx: int, k: int|
                        0 <= xx < x && 0 <= k < 4 ==> #[trigger] self.frame_buffer@[ly * 640 + xx * 4 + k]
                            == shade_rgba(palette_shade(p.bgp, line_pixel_spec(p, ly as int, xx)))[k],
                decreases 160 - x,
            {
                let color = self.apply_palette(ids[x], self.bgp);
                let base = (ly * SCREEN_W + x) * 4;
                let ghost before = self.frame_buffer@;
                let ghost s0 = self@;
                let mut k: usize = 0;
                while k < 4
                    invariant
                        ly < 144,
                        x < 160,
                        k <= 4,
                        base == ly * 640 + x * 4,
                        ppu_wf(self@),
                        self.frame_buffer@.len() == FRAME_BYTES,
                        forall|i: int| 0 <= i < FRAME_BYTES && !(base <= i < base + k) ==> #[trigger] self.frame_buffer@[i] == before[i],
                        forall|j: int| 0 <= j < k ==> #[trigger] self.frame_buffer@[base + j] == shade_rgba(color)[j],
                        self@ == (PpuView { frame_buffer: self.frame_buffer@, ..s0 }),
                    decreases 4 - k,
                {
                    assert(base + k < FRAME_BYTES) by (nonlinear_arith)
                        requires base == ly * 640 + x * 4, ly < 144, x < 160, k < 4;
                    let v = shade_color(color, k);
                    self.frame_buffer.set(base + k, v);
                    k = k + 1;
                }
                proof {
                    assert forall|xx: int, kk: int|
                        0 <= xx < x + 1 && 0 <= kk < 4 implies #[trigger] self.frame_buffer@[ly * 640 + xx * 4 + kk]
                            == shade_rgba(palette_shade(p.bgp, line_pixel_spec(p, ly as int, xx)))[kk] by {
                        if xx < x {
                            assert(ly * 640 + xx * 4 + kk < base) by (nonlinear_arith)
                                requires base == ly * 640 + x * 4, xx < x, kk < 4;
                        } else {
                            assert(ly * 640 + xx * 4 + kk == base + kk);
                        }
                    }
                    assert forall|i: int|
                        0 <= i < FRAME_BYTES && !(ly * 640 <= i < ly * 640 + 640) implies #[trigger] self.frame_buffer@[i]
                            == p.frame_buffer[i] by {
                        assert(!(base <= i < base + 4)) by (nonlinear_arith)
                            requires base == ly * 640 + x * 4, x < 160, !(ly * 640 <= i < ly * 640 + 640);
                    }
                }
                x = x + 1;
            }
        }
        proof {
            reveal(scanline_drawn);
            let d = scanline_drawn(p);
            assert forall|i: int| 0 <= i < FRAME_BYTES implies #[trigger] self.frame_buffer@[i] == d[i] by {
                if ly * 640 <= i < ly * 640 + 640 {
                    let x = (i - ly * 640) / 4;
                    let k = (i - ly * 640) % 4;
                    assert(i == ly * 640 + x * 4 + k);
                    assert(0 <= x < 160 && 0 <= k < 4);
                    assert(self.frame_buffer@[ly * 640 + x * 4 + k] == shade_rgba(scanline_shade(p, x))[k]);
                }
            }
            assert(self.frame_buffer@ =~= d);
        }
    }

    /// The colour number of pixel (`tx`, `ty`) of tile `tile_id`.
    fn tile_pixel(&self, tile_data_base: u16, tile_id: u8, tx: u8, ty: u8) -> (v: u8)
        requires
            ppu_wf(self@),
            tile_data_base == 0x8000 || tile_data_base == 0x8800,
            ty < 8,
        ensures
            v == tile_pixel_spec(self.vram@, tile_data_base, tile_id, tx, ty),
            v < 4,
    {
        let tile_addr: u16 = if tile_data_base == 0x8000 {
            tile_data_base + tile_id as u16 * 16
        } else if tile_id < 128 {
            0x9000 + tile_id as u16 * 16
        } else {
            0x9000 - (256 - tile_id as u16) * 16
        };
        let row_addr = tile_addr + ty as u16 * 2;
        let lo = self.vram[(row_addr - 0x8000) as usize];
        let hi = self.vram[(row_addr - 0x8000 + 1) as usize];
        let bit = 7 - tx % 8;
        let m = bit_mask(bit);
        ((hi / m) % 2) * 2 + (lo / m) % 2
    }

    fn render_bg_line(&self, ly: usize, ids: &mut Vec<u8>)
        requires
            ppu_wf(self@),
            ly < 144,
            ly == self.ly,
            old(ids)@.len() == 160,
        ensures
            final(ids)@.len() == 160,
            forall|x: int| 0 <= x < 160 ==> #[trigger] final(ids)@[x] == bg_pixel_spec(self@, ly as int, x),
    {
        let tile_data = lcdc_tile_data(self.lcdc);
        let tile_map = lcdc_bg_tile_map(self.lcdc);
        let py = ((ly as u8) as u16 + self.scy as u16) % 256;
        let tile_row = py / 8;

        let mut x: usize = 0;
        while x < SCREEN_W
            invariant
                ppu_wf(self@),
                x <= 160,
                ids@.len() == 160,
                ly < 144,
                py == (ly + self.scy) % 256,
                tile_row == py / 8,
                tile_data == (if bit_set(self.lcdc, 4) { 0x8000u16 } else { 0x8800u16 }),
                tile_map == (if bit_set(self.lcdc, 3) { 0x9C00u16 } else { 0x9800u16 }),
                forall|xx: int| 0 <= xx < x ==> #[trigger] ids@[xx] == bg_pixel_spec(self@, ly as int, xx),
            decreases 160 - x,
        {
            let px = (x as u16 + self.scx as u16) % 256;
            let tile_col = px / 8;
            let map_addr = tile_map + tile_row * 32 + tile_col;
            let tile_id = self.vram[(map_addr - 0x8000) as usize];
            let pixel = self.tile_pixel(tile_data, tile_id, (px % 8) as u8, (py % 8) as u8);
            ids.set(x, pixel);
            x = x + 1;
        }
    }

    fn render_window_line(&mut self, ly: usize, ids: &mut Vec<u8>)
        requires
            ppu_wf(old(self)@),
            ly < 144,
            ly == old(self).ly,
            old(ids)@.len() == 160,
            window_on_line(old(self)@, ly as int),
        ensures
            final(self)@ == (PpuView {
                window_line_counter: window_counter_after(old(self)@, ly as int),
                ..old(self)@
            }),
            final(ids)@.len() == 160,
            forall|x: int|
                0 <= x < 160 ==> #[trigger] final(ids)@[x] == if x >= old(self).wx - 7 {
                    window_pixel_spec(old(self)@, x)
                } else {
                    old(ids)@[x]
                },
    {
        let tile_data = lcdc_tile_data(self.lcdc);
        let tile_map = lcdc_window_tile_map(self.lcdc);
        let wx_offset: i16 = self.wx as i16 - 7;
        let wy = self.wy as usize;
        if ly < wy {
            return;
        }
        let win_y = self.window_line_counter as u16;
        let tile_row = win_y / 8;

        let mut rendered = false;
        let mut x: usize = 0;
        while x < SCREEN_W
            invariant
                ppu_wf(self@),
                self@ == old(self)@,
                x <= 160,
                ids@.len() == 160,
                wx_offset == self.wx - 7,
                wx_offset < 160,
                win_y == self.window_line_counter,
                tile_row == win_y / 8,
                tile_data == (if bit_set(self.lcdc, 4) { 0x8000u16 } else { 0x8800u16 }),
                tile_map == (if bit_set(self.lcdc, 6) { 0x9C00u16 } else { 0x9800u16 }),
                rendered == (x > 0 && wx_offset < x),
                forall|xx: int|
                    0 <= xx < x ==> #[trigger] ids@[xx] == if xx >= wx_offset {
                        window_pixel_spec(self@, xx)
                    } else {
                        old(ids)@[xx]
                    },
                forall|xx: int| x <= xx < 160 ==> #[trigger] ids@[xx] == old(ids)@[xx],
            decreases 160 - x,
        {
            let win_x: i16 = x as i16 - wx_offset;
            if win_x >= 0 {
                let tile_col = win_x as u16 / 8;
                let map_addr = tile_map + tile_row * 32 + tile_col;
                let tile_id = self.vram[(map_addr - 0x8000) as usize];
                let pixel = self.tile_pixel(tile_data, tile_id, (win_x % 8) as u8, (win_y % 8) as u8);
                ids.set(x, pixel);
                rendered = true;
            }
            x = x + 1;
        }
        if rendered {
            self.window_line_counter = self.window_line_counter.wrapping_add(1);
        }
    }

    /// Composes the background line with up to 10 sprites and writes it to the frame buffer.
    /// Later sprites in OAM order are drawn first, so earlier ones never cover them.
    fn render_sprites_line(&mut self, ly: usize, bg_ids: &Vec<u8>)
        requires
            ppu_wf(old(self)@),
            ly < 144,
            ly == old(self).ly,
            bg_ids@.len() == 160,
        ensures
            ppu_wf(final(self)@),
            only_line_changed(old(self).frame_buffer@, final(self).frame_buffer@, ly as int),
            final(self)@ == (PpuView { frame_buffer: final(self).frame_buffer@, ..old(self)@ }),
            forall|x: int, k: int|
                0 <= x < 160 && 0 <= k < 4 ==> #[trigger] final(self).frame_buffer@[ly * 640 + x * 4 + k]
                    == shade_rgba(gb_line_shade(old(self)@, bg_ids@, ly as int, x))[k],
    {
        let ghost p = self@;
        let ghost bg = bg_ids@;
        let sprite_height: i16 = lcdc_obj_size(self.lcdc) as i16;
        let ghost h = gb_sprite_height(p.lcdc);
        let mut sx_list: Vec<i16> = Vec::new();
        let mut sy_list: Vec<i16> = Vec::new();
        let mut tile_list: Vec<u8> = Vec::new();
        let mut attr_list: Vec<u8> = Vec::new();

        let mut i: usize = 0;
        while i < 40 && sx_list.len() < 10
            invariant
                ppu_wf(self@),
                self@ == p,
                i <= 40,
                sx_list@.len() == sy_list@.len(),
                sx_list@.len() == tile_list@.len(),
                sx_list@.len() == attr_list@.len(),
                sx_list@.len() <= i,
                sx_list@.len() <= 10,
                sprite_height == h,
                h == gb_sprite_height(p.lcdc),
                ly < 144,
                sx_list@.len() == gb_line_sprites(p.oam, ly as int, h, i as int).len(),
                forall|t: int|
                    0 <= t < sx_list@.len() ==> {
                        let j = #[trigger] gb_line_sprites(p.oam, ly as int, h, i as int)[t];
                        &&& sx_list@[t] == p.oam[4 * j + 1] - 8
                        &&& sy_list@[t] == p.oam[4 * j] - 16
                        &&& tile_list@[t] == p.oam[4 * j + 2]
                        &&& attr_list@[t] == p.oam[4 * j + 3]
                    },
                forall|j: int| 0 <= j < sy_list@.len() ==> -16 <= #[trigger] sy_list@[j] <= ly && ly < sy_list@[j] + sprite_height,
                forall|j: int| 0 <= j < sx_list@.len() ==> -8 <= #[trigger] sx_list@[j] <= 247,
            decreases 40 - i,
        {
            proof {
                lemma_line_sprites_shape(p.oam, ly as int, h, i as int);
            }
            let base = i * 4;
            let sy = self.oam[base] as i16 - 16;
            let sx = self.oam[base + 1] as i16 - 8;
            let tile = self.oam[base + 2];
            let attr = self.oam[base + 3];
            if ly as i16 >= sy && (ly as i16) < sy + sprite_height {
                sx_list.push(sx);
                sy_list.push(sy);
                tile_list.push(tile);
                attr_list.push(attr);
            }
            i = i + 1;
        }
        let ghost sel = gb_line_sprites(p.oam, ly as int, h, 40);
        proof {
            lemma_line_sprites_shape(p.oam, ly as int, h, i as int);
            if i < 40 {
                lemma_line_sprites_full(p.oam, ly as int, h, i as int, 40);
            }
            lemma_line_sprites_shape(p.oam, ly as int, h, 40);
        }

        // Background colours first.
        let mut line_buf: Vec<u8> = Vec::new();
        let mut line_is_obj: Vec<bool> = Vec::new();
        let mut x: usize = 0;
        while x < SCREEN_W
            invariant
                self@ == p,
                x <= 160,
                line_buf@.len() == x,
                line_is_obj@.len() == x,
                bg_ids@.len() == 160,
                bg == bg_ids@,
                forall|xx: int| 0 <= xx < x ==> #[trigger] line_buf@[xx] == palette_shade(p.bgp, bg[xx]),
                forall|xx: int| 0 <= xx < x ==> !#[trigger] line_is_obj@[xx],
            decreases 160 - x,
        {
            let color = self.apply_palette(bg_ids[x], self.bgp);
            line_buf.push(color);
            line_is_obj.push(false);
            x = x + 1;
        }

        // Sprites, last selected first.
        let n = sx_list.len();
        let mut s: usize = n;
        while s > 0
            invariant
                ppu_wf(self@),
                self@ == p,
                s <= n,
                n == sx_list@.len() && n == sy_list@.len() && n == tile_list@.len() && n == attr_list@.len(),
                n == sel.len(),
                line_buf@.len() == 160,
                line_is_obj@.len() == 160,
                bg_ids@.len() == 160,
                bg == bg_ids@,
                sprite_height == h,
                h == gb_sprite_height(p.lcdc),
                sel == gb_line_sprites(p.oam, ly as int, h, 40),
                h == 8 || h == 16,
                ly < 144,
                forall|t: int| 0 <= t < sel.len() ==> 0 <= #[trigger] sel[t] < 40,
                forall|t: int|
                    0 <= t < n ==> {
                        let j = #[trigger] sel[t];
                        &&& sx_list@[t] == p.oam[4 * j + 1] - 8
                        &&& sy_list@[t] == p.oam[4 * j] - 16
                        &&& tile_list@[t] == p.oam[4 * j + 2]
                        &&& attr_list@[t] == p.oam[4 * j + 3]
                    },
                forall|j: int| 0 <= j < sy_list@.len() ==> -16 <= #[trigger] sy_list@[j] <= ly && ly < sy_list@[j] + sprite_height,
                forall|j: int| 0 <= j < sx_list@.len() ==> -8 <= #[trigger] sx_list@[j] <= 247,
                forall|xx: int| #![trigger line_is_obj@[xx]] #![trigger line_buf@[xx]]
                    0 <= xx < 160 ==> (line_is_obj@[xx] <==> gb_top_sprite(p, bg, ly as int, h, sel, s as int, xx) >= 0)
                        && line_buf@[xx] == gb_shade_from(p, bg, ly as int, h, sel, s as int, xx),
            decreases s,
        {
            s = s - 1;
            let sx = sx_list[s];
            let sy = sy_list[s];
            let tile = tile_list[s];
            let attr = attr_list[s];
            let ghost j = sel[s as int];
            let flip_y = test_bit(attr, 6);
            let flip_x = test_bit(attr, 5);
            let palette = if test_bit(attr, 4) { self.obp1 } else { self.obp0 };
            let bg_over_obj = test_bit(attr, 7);

            let mut row_in_sprite: i16 = ly as i16 - sy;
            if flip_y {
                row_in_sprite = sprite_height - 1 - row_in_sprite;
            }
            let tile_id = if sprite_height == 16 {
                if row_in_sprite < 8 { with_bit_cleared(tile, 0) } else { with_bit_set(tile, 0) }
            } else {
                tile
            };
            let row_in_tile = (row_in_sprite % 8) as u8;
            proof {
                let row0 = ly - (p.oam[4 * j] - 16);
                assert(0 <= row0 < h);
                let row = if bit_set(attr, 6) { h - 1 - row0 } else { row0 };
                assert(row_in_sprite == row);
                assert(0 <= row < h);
                assert(row_in_tile == row % 8);
                assert(tile_id == (if h == 16 {
                    if row < 8 { clear_bit(tile, 0) } else { set_bit(tile, 0) }
                } else {
                    tile
                }));
                assert forall|c: int| 0 <= c < 8 implies #[trigger] gb_sprite_pixel(p, ly as int, h, j, sx + c)
                    == tile_pixel_spec(p.vram, 0x8000, tile_id, (if flip_x { 7 - c } else { c }) as u8, row_in_tile) by {}
            }

            let mut col: i16 = 0;
            while col < 8
                invariant
                    ppu_wf(self@),
                    self@ == p,
                    0 <= col <= 8,
                    -8 <= sx <= 247,
                    row_in_tile < 8,
                    line_buf@.len() == 160,
                    line_is_obj@.len() == 160,
                    bg_ids@.len() == 160,
                    bg == bg_ids@,
                    s < n,
                    n == sel.len(),
                    j == sel[s as int],
                    0 <= j < 40,
                    h == 8 || h == 16,
                    sx == p.oam[4 * j + 1] - 8,
                    bg_over_obj == bit_set(p.oam[4 * j + 3], 7),
                    palette == (if bit_set(p.oam[4 * j + 3], 4) { p.obp1 } else { p.obp0 }),
                    flip_x == bit_set(p.oam[4 * j + 3], 5),
                    forall|c: int|
                        0 <= c < 8 ==> #[trigger] gb_sprite_pixel(p, ly as int, h, j, sx + c) == tile_pixel_spec(
                            p.vram,
                            0x8000,
                            tile_id,
                            (if flip_x { 7 - c } else { c }) as u8,
                            row_in_tile,
                        ),
                    forall|xx: int| #![trigger line_is_obj@[xx]] #![trigger line_buf@[xx]]
                        0 <= xx < 160 && sx <= xx < sx + col ==> (line_is_obj@[xx] <==> gb_top_sprite(
                            p,
                            bg,
                            ly as int,
                            h,
                            sel,
                            s as int,
                            xx,
                        ) >= 0) && line_buf@[xx] == gb_shade_from(p, bg, ly as int, h, sel, s as int, xx),
                    forall|xx: int| #![trigger line_is_obj@[xx]] #![trigger line_buf@[xx]]
                        0 <= xx < 160 && !(sx <= xx < sx + col) ==> (line_is_obj@[xx] <==> gb_top_sprite(
                            p,
                            bg,
                            ly as int,
                            h,
                            sel,
                            s + 1,
                            xx,
                        ) >= 0) && line_buf@[xx] == gb_shade_from(p, bg, ly as int, h, sel, s + 1, xx),
                decreases 8 - col,
            {
                let ghost buf0 = line_buf@;
                let ghost obj0 = line_is_obj@;
                let screen_x = sx + col;
                if screen_x >= 0 && screen_x < SCREEN_W as i16 {
                    let tx: u8 = if flip_x { (7 - col) as u8 } else { col as u8 };
                    let pixel = self.tile_pixel(0x8000, tile_id, tx, row_in_tile);
                    let sx_usize = screen_x as usize;
                    proof {
                        assert(gb_sprite_pixel(p, ly as int, h, j, sx + col) == pixel);
                    }
                    if pixel != 0 && !line_is_obj[sx_usize] && !(bg_over_obj && bg_ids[sx_usize] != 0) {
                        let color = self.apply_palette(pixel, palette);
                        line_buf.set(sx_usize, color);
                        line_is_obj.set(sx_usize, true);
                    }
                    proof {
                        let xx = screen_x as int;
                        let r = gb_top_sprite(p, bg, ly as int, h, sel, s + 1, xx);
                        assert(gb_top_sprite(p, bg, ly as int, h, sel, s as int, xx) == if r >= 0 || !gb_sprite_draws(
                            p,
                            bg,
                            ly as int,
                            h,
                            j,
                            xx,
                        ) {
                            r
                        } else {
                            s as int
                        });
                        assert((line_is_obj@[xx] <==> gb_top_sprite(p, bg, ly as int, h, sel, s as int, xx) >= 0)
                            && line_buf@[xx] == gb_shade_from(p, bg, ly as int, h, sel, s as int, xx));
                    }
                }
                col = col + 1;
                proof {
                    assert forall|xx: int| #![trigger line_is_obj@[xx]] #![trigger line_buf@[xx]]
                        0 <= xx < 160 && sx <= xx < sx + col implies (line_is_obj@[xx] <==> gb_top_sprite(
                        p,
                        bg,
                        ly as int,
                        h,
                        sel,
                        s as int,
                        xx,
                    ) >= 0) && line_buf@[xx] == gb_shade_from(p, bg, ly as int, h, sel, s as int, xx) by {
                        if xx != sx + col - 1 {
                            assert(line_is_obj@[xx] == obj0[xx] && line_buf@[xx] == buf0[xx]);
                        }
                    }
                    assert forall|xx: int| #![trigger line_is_obj@[xx]] #![trigger line_buf@[xx]]
                        0 <= xx < 160 && !(sx <= xx < sx + col) implies (line_is_obj@[xx] <==> gb_top_sprite(
                        p,
                        bg,
                        ly as int,
                        h,
                        sel,
                        s + 1,
                        xx,
                    ) >= 0) && line_buf@[xx] == gb_shade_from(p, bg, ly as int, h, sel, s + 1, xx) by {
                        assert(line_is_obj@[xx] == obj0[xx] && line_buf@[xx] == buf0[xx]);
                    }
                }
            }
            proof {
                assert forall|xx: int| #![trigger line_is_obj@[xx]] #![trigger line_buf@[xx]] 0 <= xx < 160 implies (line_is_obj@[xx] <==> gb_top_sprite(
                    p,
                    bg,
                    ly as int,
                    h,
                    sel,
                    s as int,
                    xx,
                ) >= 0) && line_buf@[xx] == gb_shade_from(p, bg, ly as int, h, sel, s as int, xx) by {
                    if !(sx <= xx < sx + 8) {
                        assert(gb_sprite_pixel(p, ly as int, h, j, xx) == 0);
                        assert(gb_top_sprite(p, bg, ly as int, h, sel, s as int, xx) == gb_top_sprite(
                            p,
                            bg,
                            ly as int,
                            h,
                            sel,
                            s + 1,
                            xx,
                        ));
                    }
                }
            }
        }

        // Write the line.
        assert forall|xx: int| 0 <= xx < 160 implies #[trigger] line_buf@[xx] == gb_line_shade(p, bg, ly as int, xx) by {
            assert(line_buf@[xx] == gb_shade_from(p, bg, ly as int, h, sel, 0, xx));
        }
        let ghost before = self.frame_buffer@;
        let mut x: usize = 0;
        while x < SCREEN_W
            invariant
                ppu_wf(self@),
                x <= 160,
                ly < 144,
                line_buf@.len() == 160,
                self@ == (PpuView { frame_buffer: self.frame_buffer@, ..old(self)@ }),
                only_line_changed(before, self.frame_buffer@, ly as int),
                before == old(self).frame_buffer@,
                p == old(self)@,
                bg == bg_ids@,
                forall|xx: int| 0 <= xx < 160 ==> #[trigger] line_buf@[xx] == gb_line_shade(p, bg, ly as int, xx),
                forall|xx: int, k: int|
                    0 <= xx < x && 0 <= k < 4 ==> #[trigger] self.frame_buffer@[ly * 640 + xx * 4 + k] == shade_rgba(
                        line_buf@[xx],
                    )[k],
            decreases 160 - x,
        {
            let base = (ly * SCREEN_W + x) * 4;
            let shade = line_buf[x];
            let ghost fb0 = self.frame_buffer@;
            let mut k: usize = 0;
            while k < 4
                invariant
                    ly < 144,
                    x < 160,
                    k <= 4,
                    base == ly * 640 + x * 4,
                    ppu_wf(self@),
                    self@ == (PpuView { frame_buffer: self.frame_buffer@, ..old(self)@ }),
                    forall|i: int| 0 <= i < FRAME_BYTES && !(base <= i < base + k) ==> #[trigger] self.frame_buffer@[i] == fb0[i],
                    forall|kk: int| 0 <= kk < k ==> #[trigger] self.frame_buffer@[base + kk] == shade_rgba(shade)[kk],
                decreases 4 - k,
            {
                assert(base + k < FRAME_BYTES) by (nonlinear_arith)
                    requires base == ly * 640 + x * 4, ly < 144, x < 160, k < 4;
                let v = shade_color(shade, k);
                self.frame_buffer.set(base + k, v);
                k = k + 1;
            }
            proof {
                assert forall|i: int|
                    0 <= i < FRAME_BYTES && !(ly * 640 <= i < ly * 640 + 640) implies #[trigger] self.frame_buffer@[i]
                        == before[i] by {
                    assert(!(base <= i < base + 4)) by (nonlinear_arith)
                        requires base == ly * 640 + x * 4, x < 160, !(ly * 640 <= i < ly * 640 + 640);
                }
                assert forall|xx: int, kk: int|
                    0 <= xx < x + 1 && 0 <= kk < 4 implies #[trigger] self.frame_buffer@[ly * 640 + xx * 4 + kk]
                        == shade_rgba(line_buf@[xx])[kk] by {
                    if xx < x {
                        assert(self.frame_buffer@[ly * 640 + xx * 4 + kk] == fb0[ly * 640 + xx * 4 + kk]);
                    } else {
                        assert(self.frame_buffer@[base + kk] == shade_rgba(shade)[kk]);
                    }
                }
            }
            x = x + 1;
        }
    }

    /// Maps a 2-bit colour number through a palette register to a shade.
    fn apply_palette(&self, pixel_id: u8, palette: u8) -> (shade: u8)
        ensures
            shade == palette_shade(palette, pixel_id),
            shade < 4,
    {
        let p: u8 = if pixel_id == 0 {
            1
        } else if pixel_id == 1 {
            4
        } else if pixel_id == 2 {
            16
        } else {
            64
        };
        (palette / p) % 4
    }

    // -----------------------------------------------------------------------
    // Save / Load state
    // -----------------------------------------------------------------------

    /// Appends the registers, timing state, VRAM, OAM and frame buffer.
    pub fn save(&self, buf: &mut Vec<u8>)
        ensures
            final(buf)@ == old(buf)@ + ppu_bytes(self@),
    {
        write_u8(buf, self.lcdc);
        write_u8(buf, self.stat);
        write_u8(buf, self.scy);
        write_u8(buf, self.scx);
        write_u8(buf, self.ly);
        write_u8(buf, self.lyc);
        write_u8(buf, self.bgp);
        write_u8(buf, self.obp0);
        write_u8(buf, self.obp1);
        write_u8(buf, self.wy);
        write_u8(buf, self.wx);
        write_u8(buf, mode_to_u8(self.mode));
        write_u32(buf, self.cycle_counter);
        write_bool(buf, self.vblank_irq);
        write_bool(buf, self.stat_irq);
        write_bool(buf, self.frame_ready);
        write_u8(buf, self.window_line_counter);
        assert(buf@ =~= old(buf)@ + ppu_header_bytes(self@));
        write_slice(buf, self.vram.as_slice());
        write_slice(buf, self.oam.as_slice());
        write_slice(buf, self.frame_buffer.as_slice());
        assert(buf@ =~= old(buf)@ + ppu_bytes(self@));
    }

    /// Restores the state written by `save`.
    pub fn load(&mut self, data: &[u8], off: &mut usize)
        requires
            *old(off) + ppu_bytes_len() <= data@.len(),
        ensures
            final(self)@ == ppu_from_bytes(data@, *old(off) as int),
            *final(off) == *old(off) + ppu_bytes_len(),
    {
        self.lcdc = read_u8(data, off);
        self.stat = read_u8(data, off);
        self.scy = read_u8(data, off);
        self.scx = read_u8(data, off);
        self.ly = read_u8(data, off);
        self.lyc = read_u8(data, off);
        self.bgp = read_u8(data, off);
        self.obp0 = read_u8(data, off);
        self.obp1 = read_u8(data, off);
        self.wy = read_u8(data, off);
        self.wx = read_u8(data, off);
        self.mode = mode_from_u8(read_u8(data, off));
        self.cycle_counter = read_u32(data, off);
        self.vblank_irq = read_bool(data, off);
        self.stat_irq = read_bool(data, off);
        self.frame_ready = read_bool(data, off);
        self.window_line_counter = read_u8(data, off);
        self.vram = vstd::slice::slice_to_vec(read_slice(data, off, VRAM_SIZE));
        self.oam = vstd::slice::slice_to_vec(read_slice(data, off, OAM_SIZE));
        self.frame_buffer = vstd::slice::slice_to_vec(read_slice(data, off, FRAME_BYTES));
    }
}

impl Ppu {
    /// Whether the state satisfies `ppu_wf` (checked after restoring a saved state).
    pub fn is_valid(&self) -> (b: bool)
        ensures
            b == ppu_wf(self@),
    {
        let sizes = self.vram.len() == VRAM_SIZE && self.oam.len() == OAM_SIZE
            && self.frame_buffer.len() == FRAME_BYTES;
        let lines = if self.mode == PpuMode::VBlank {
            144 <= self.ly && self.ly <= 153
        } else {
            self.ly < 144
        };
        sizes && lines
    }
}

/// A PPU read back from the bytes that `ppu_bytes` wrote is the PPU itself.
pub proof fn lemma_ppu_roundtrip(p: PpuView, d: Seq<u8>, o: int)
    requires
        ppu_wf(p),
        0 <= o,
        o + ppu_bytes_len() <= d.len(),
        d.subrange(o, o + ppu_bytes_len()) == ppu_bytes(p),
    ensures
        ppu_from_bytes(d, o) == p,
{
    let n = ppu_bytes_len();
    let t = ppu_bytes(p);
    let h = ppu_header_bytes(p);
    let cc = le32(p.cycle_counter);
    assert(cc.len() == 4);
    assert(h =~= seq![p.lcdc, p.stat, p.scy, p.scx, p.ly, p.lyc, p.bgp, p.obp0, p.obp1, p.wy, p.wx,
        mode_bits(p.mode), cc[0], cc[1], cc[2], cc[3], bool_byte(p.vblank_irq), bool_byte(p.stat_irq),
        bool_byte(p.frame_ready), p.window_line_counter]);
    let v0 = 20int;
    let o0 = v0 + VRAM_SIZE;
    let f0 = o0 + OAM_SIZE;
    assert(t.subrange(0, 20) =~= h);
    assert(t.subrange(v0, o0) =~= p.vram);
    assert(t.subrange(o0, f0) =~= p.oam);
    assert(t.subrange(f0, n) =~= p.frame_buffer);
    crate::save_state::lemma_subrange_within(d, o, n, 0, 20);
    crate::save_state::lemma_subrange_within(d, o, n, v0, o0);
    crate::save_state::lemma_subrange_within(d, o, n, o0, f0);
    crate::save_state::lemma_subrange_within(d, o, n, f0, n);
    let dh = d.subrange(o, o + 20);
    assert forall|i: int| 0 <= i < 20 implies d[o + i] == h[i] by {
        assert(dh[i] == d[o + i]);
    }
    assert(d[o] == h[0] && d[o + 4] == h[4] && d[o + 11] == h[11] && d[o + 16] == h[16] && d[o + 17] == h[17]
        && d[o + 18] == h[18] && d[o + 19] == h[19]);
    assert(h.subrange(12, 16) =~= cc);
    crate::save_state::lemma_subrange_within(d, o, 20, 12, 16);
    crate::save_state::lemma_le32_roundtrip(p.cycle_counter, d, o + 12);
    assert(mode_from_bits(mode_bits(p.mode)) == p.mode);
}

} // verus!
