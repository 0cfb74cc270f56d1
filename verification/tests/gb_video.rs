use rustboy_core::gb::ppu::{
    lcdc_bg_tile_map, lcdc_display_enable, lcdc_obj_size, lcdc_tile_data, lcdc_window_tile_map, mode_from_u8,
    mode_to_u8, Ppu, PpuMode, FRAME_BYTES,
};

const LIGHTEST: [u8; 4] = [0x9B, 0xBC, 0x0F, 0xFF];
const DARKEST: [u8; 4] = [0x0F, 0x38, 0x0F, 0xFF];

#[test]
fn lcdc_bits_decode() {
    assert!(lcdc_display_enable(0x80));
    assert!(!lcdc_display_enable(0x7F));
    assert_eq!(lcdc_tile_data(0x10), 0x8000);
    assert_eq!(lcdc_tile_data(0x00), 0x8800);
    assert_eq!(lcdc_bg_tile_map(0x08), 0x9C00);
    assert_eq!(lcdc_bg_tile_map(0x00), 0x9800);
    assert_eq!(lcdc_window_tile_map(0x40), 0x9C00);
    assert_eq!(lcdc_obj_size(0x04), 16);
    assert_eq!(lcdc_obj_size(0x00), 8);
}

#[test]
fn mode_numbers() {
    assert_eq!(mode_to_u8(PpuMode::HBlank), 0);
    assert_eq!(mode_to_u8(PpuMode::VBlank), 1);
    assert_eq!(mode_to_u8(PpuMode::OamScan), 2);
    assert_eq!(mode_to_u8(PpuMode::Drawing), 3);
    assert!(mode_from_u8(3) == PpuMode::Drawing);
    assert!(mode_from_u8(0) == PpuMode::HBlank);
}

#[test]
fn new_ppu_registers() {
    let p = Ppu::new();
    assert_eq!(p.lcdc, 0x91);
    assert_eq!(p.bgp, 0xFC);
    assert_eq!(p.obp0, 0xFF);
    assert!(p.mode == PpuMode::OamScan);
    assert_eq!(p.frame_buffer.len(), FRAME_BYTES);
    assert!(p.frame_buffer.iter().all(|&b| b == 0xFF));
}

#[test]
fn one_scanline_walks_through_the_modes() {
    let mut p = Ppu::new();
    assert!(!p.step(79));
    assert!(p.mode == PpuMode::OamScan);
    p.step(1);
    assert!(p.mode == PpuMode::Drawing);
    assert_eq!(p.stat & 0x03, 3);
    p.step(172);
    assert!(p.mode == PpuMode::HBlank);
    assert_eq!(p.frame_buffer[0..4], LIGHTEST);
    p.step(204);
    assert!(p.mode == PpuMode::OamScan);
    assert_eq!(p.ly, 1);
    assert_eq!(p.cycle_counter, 0);
}

#[test]
fn vram_is_hidden_while_drawing() {
    let mut p = Ppu::new();
    p.write_vram(0x8000, 0x12);
    assert_eq!(p.read_vram(0x8000), 0x12);
    p.step(80);
    assert_eq!(p.read_vram(0x8000), 0xFF);
}

#[test]
fn background_tile_uses_the_palette() {
    let mut p = Ppu::new();
    // Tile 0, row 0: all pixels colour 3, which BGP 0xFC maps to the darkest shade.
    p.write_vram(0x8000, 0xFF);
    p.write_vram(0x8001, 0xFF);
    p.step(80);
    p.step(172);
    for x in 0..8 {
        assert_eq!(p.frame_buffer[x * 4..x * 4 + 4], DARKEST);
    }
}

#[test]
fn a_frame_is_70224_cycles_with_one_vblank() {
    let mut p = Ppu::new();
    let mut frames = 0;
    let mut cycles = 0u32;
    while frames == 0 {
        if p.step(4) {
            frames += 1;
        }
        cycles += 4;
    }
    assert_eq!(cycles, 144 * 456);
    assert!(p.mode == PpuMode::VBlank);
    assert_eq!(p.ly, 144);
    assert!(p.vblank_irq);
    for _ in 0..(10 * 456 / 4) {
        assert!(!p.step(4));
    }
    assert_eq!(p.ly, 0);
    assert!(p.mode == PpuMode::OamScan);
}

#[test]
fn display_off_freezes_the_ppu() {
    let mut p = Ppu::new();
    p.lcdc = 0x11;
    assert!(!p.step(1000));
    assert_eq!(p.cycle_counter, 0);
    assert!(p.mode == PpuMode::OamScan);
}

#[test]
fn lyc_match_raises_stat_interrupt() {
    let mut p = Ppu::new();
    p.lyc = 1;
    p.stat = 0x40;
    p.step(80);
    p.step(172);
    assert!(!p.stat_irq);
    p.step(204);
    assert_eq!(p.ly, 1);
    assert_eq!(p.stat & 0x04, 0x04);
    assert!(p.stat_irq);
}

#[test]
fn oam_access() {
    let mut p = Ppu::new();
    // OAM is hidden during the OAM scan and drawing.
    p.write_oam(0xFE10, 0x41);
    assert_eq!(p.read_oam(0xFE10), 0xFF);
    assert_eq!(p.oam[0x10], 0);
    p.step(80);
    p.step(172);
    p.write_oam(0xFE10, 0x42);
    assert_eq!(p.read_oam(0xFE10), 0x42);
    p.dma_write_oam(0x11, 0x43);
    assert_eq!(p.read_oam(0xFE11), 0x43);
}

#[test]
fn ppu_state_roundtrips_through_bytes() {
    let mut a = Ppu::new();
    a.write_vram(0x8123, 0x77);
    a.scx = 5;
    a.step(100);
    let mut buf = Vec::new();
    a.save(&mut buf);
    let mut b = Ppu::new();
    let mut off = 0usize;
    b.load(&buf, &mut off);
    assert_eq!(off, buf.len());
    assert!(b.mode == PpuMode::Drawing);
    assert_eq!(b.cycle_counter, 20);
    assert_eq!(b.scx, 5);
    assert_eq!(b.vram[0x123], 0x77);
    assert!(b.is_valid());
}

#[test]
fn one_call_covers_a_whole_scanline() {
    let mut p = Ppu::new();
    assert!(!p.step(456));
    assert_eq!(p.ly, 1);
    assert!(p.mode == PpuMode::OamScan);
    assert_eq!(p.cycle_counter, 0);
    assert_eq!(p.frame_buffer[0..4], LIGHTEST);
}

#[test]
fn one_call_covers_a_whole_frame() {
    let mut p = Ppu::new();
    assert!(p.step(144 * 456));
    assert_eq!(p.ly, 144);
    assert!(p.mode == PpuMode::VBlank);
}
