use rustboy_core::nes::apu::NesApu;
use rustboy_core::nes::cartridge::{parse_ines, Cartridge};
use rustboy_core::nes::ppu::NesPpu;

fn cart(flags6: u8) -> Cartridge {
    let mut rom = vec![0x4E, 0x45, 0x53, 0x1A, 1, 0, flags6, 0, 0, 0, 0, 0, 0, 0, 0, 0];
    rom.extend(vec![0u8; 16384]);
    parse_ines(&rom)
}

fn set_addr(p: &mut NesPpu, c: &mut Cartridge, addr: u16) {
    p.write_register(6, (addr >> 8) as u8, c);
    p.write_register(6, addr as u8, c);
}

#[test]
fn ppu_power_on_state() {
    let p = NesPpu::new();
    assert_eq!(p.scanline, 261);
    assert_eq!(p.cycle, 0);
    assert_eq!(p.frame_buffer.len(), 256 * 240 * 4);
    assert!(p.is_valid());
}

#[test]
fn ppuaddr_and_ppudata_write_the_nametables() {
    let mut p = NesPpu::new();
    let mut c = cart(0); // horizontal mirroring
    set_addr(&mut p, &mut c, 0x2345);
    assert_eq!(p.v, 0x2345);
    p.write_register(7, 0xAB, &mut c);
    assert_eq!(p.v, 0x2346);
    assert_eq!(p.nametable_ram[0x345], 0xAB);
    // Horizontal mirroring: $2745 is the same table.
    set_addr(&mut p, &mut c, 0x2745);
    assert_eq!(p.read_register(7, &mut c), 0); // buffered
    assert_eq!(p.read_register(7, &mut c), 0xAB);
}

#[test]
fn vertical_mirroring_pairs_the_other_tables() {
    let mut p = NesPpu::new();
    let mut c = cart(1);
    set_addr(&mut p, &mut c, 0x2401);
    p.write_register(7, 0x11, &mut c);
    assert_eq!(p.nametable_ram[0x401], 0x11);
    set_addr(&mut p, &mut c, 0x2C01);
    p.read_register(7, &mut c);
    assert_eq!(p.read_register(7, &mut c), 0x11);
}

#[test]
fn increment_of_32_in_ppudata() {
    let mut p = NesPpu::new();
    let mut c = cart(0);
    p.write_register(0, 0x04, &mut c);
    set_addr(&mut p, &mut c, 0x2000);
    p.write_register(7, 1, &mut c);
    assert_eq!(p.v, 0x2020);
}

#[test]
fn palette_writes_mask_and_mirror() {
    let mut p = NesPpu::new();
    let mut c = cart(0);
    set_addr(&mut p, &mut c, 0x3F10);
    p.write_register(7, 0xFF, &mut c);
    assert_eq!(p.palette_ram[0], 0x3F);
    set_addr(&mut p, &mut c, 0x3F00);
    assert_eq!(p.read_register(7, &mut c), 0x3F); // palette reads are not buffered
    // Greyscale masks the colour.
    p.write_register(1, 0x01, &mut c);
    set_addr(&mut p, &mut c, 0x3F00);
    assert_eq!(p.read_register(7, &mut c), 0x30);
}

#[test]
fn oam_address_and_data() {
    let mut p = NesPpu::new();
    let mut c = cart(0);
    p.write_register(3, 5, &mut c);
    p.write_register(4, 0x77, &mut c);
    assert_eq!(p.oam[5], 0x77);
    assert_eq!(p.oam_addr, 6);
    p.write_register(3, 5, &mut c);
    assert_eq!(p.read_register(4, &mut c), 0x77);
}

#[test]
fn scroll_writes_fill_the_temporary_address() {
    let mut p = NesPpu::new();
    let mut c = cart(0);
    p.write_register(5, 0x7D, &mut c); // coarse X 15, fine X 5
    assert_eq!(p.fine_x, 5);
    assert_eq!(p.t & 0x1F, 15);
    p.write_register(5, 0x5E, &mut c); // coarse Y 11, fine Y 6
    assert_eq!((p.t >> 12) & 7, 6);
    assert_eq!((p.t >> 5) & 0x1F, 11);
    assert!(!p.w);
}

#[test]
fn vblank_sets_status_and_requests_nmi() {
    let mut p = NesPpu::new();
    let mut c = cart(0);
    p.write_register(0, 0x80, &mut c);
    let mut n = 0u32;
    loop {
        n += 1;
        let (_, nmi) = p.step(1, &mut c);
        if nmi {
            break;
        }
    }
    // From the pre-render line to line 241, dot 1: 242 lines of 341 dots, one more dot, and
    // three dots per CPU cycle.
    assert_eq!(n, (242 * 341 + 1 + 2) / 3);
    assert_eq!(p.read_register(2, &mut c) & 0x80, 0x80);
    assert_eq!(p.read_register(2, &mut c) & 0x80, 0);
}

#[test]
fn enabling_nmi_during_vblank_requests_one() {
    let mut p = NesPpu::new();
    let mut c = cart(0);
    p.status = 0x80;
    p.write_register(0, 0x80, &mut c);
    assert!(p.nmi_requested);
}

#[test]
fn status_read_resets_the_write_toggle() {
    let mut p = NesPpu::new();
    let mut c = cart(0);
    p.write_register(6, 0x21, &mut c);
    assert!(p.w);
    p.read_register(2, &mut c);
    assert!(!p.w);
}

#[test]
fn apu_status_reports_length_counters() {
    let mut a = NesApu::new();
    assert_eq!(a.read_status(), 0);
    a.write_register(0x4015, 0x0F);
    a.write_register(0x4003, 0x08); // length index 1: 254
    assert_eq!(a.pulse1.length, 254);
    a.write_register(0x400F, 0x00); // length index 0: 10
    assert_eq!(a.noise.length, 10);
    assert_eq!(a.read_status(), 0x09);
    a.write_register(0x4015, 0x00);
    assert_eq!(a.read_status(), 0);
}

#[test]
fn length_is_ignored_while_a_channel_is_disabled() {
    let mut a = NesApu::new();
    a.write_register(0x4003, 0x08);
    assert_eq!(a.pulse1.length, 0);
}

#[test]
fn four_step_sequence_clocks_lengths_and_raises_the_frame_irq() {
    let mut a = NesApu::new();
    a.write_register(0x4015, 0x01);
    a.write_register(0x4003, 0x08);
    a.step(29830);
    assert_eq!(a.pulse1.length, 252);
    assert_eq!(a.read_status() & 0x40, 0x40);
    assert_eq!(a.frame_step, 0);
    assert_eq!(a.frame_cycles, 0);
}

#[test]
fn frame_irq_can_be_inhibited() {
    let mut a = NesApu::new();
    a.write_register(0x4017, 0x40);
    a.step(29830);
    assert_eq!(a.read_status() & 0x40, 0);
}

#[test]
fn five_step_mode_clocks_immediately() {
    let mut a = NesApu::new();
    a.write_register(0x4015, 0x01);
    a.write_register(0x4003, 0x08);
    a.write_register(0x4017, 0x80);
    assert_eq!(a.pulse1.length, 253);
    assert_eq!(a.frame_counter_mode, 1);
}

#[test]
fn samples_carry_five_levels_at_44100_hz() {
    let mut a = NesApu::new();
    a.step(1790);
    let s = a.get_samples();
    assert_eq!(s.len(), 5 * (1790 * 44100 / 1_789_773));
    assert!(a.get_samples().is_empty());
    // A whole second gives exactly 44100 samples.
    let mut b = NesApu::new();
    b.step(1_789_773);
    assert_eq!(b.get_samples().len(), 5 * 44100);
}

#[test]
fn dmc_output_level() {
    let mut a = NesApu::new();
    a.write_register(0x4011, 0xFF);
    assert_eq!(a.dmc.output, 0x7F);
    assert_eq!(a.mix_sample()[4], 0);
    a.write_register(0x4015, 0x10);
    let levels = a.mix_sample();
    assert_eq!(levels.len(), 5);
    assert_eq!(levels[4], 0x7F);
}

#[test]
fn noise_period_from_the_table() {
    let mut a = NesApu::new();
    a.write_register(0x400E, 0x8F);
    assert!(a.noise.mode);
    assert_eq!(a.noise.timer_period, 4068);
}

#[test]
fn nes_apu_state_roundtrips_through_bytes() {
    let mut a = NesApu::new();
    a.write_register(0x4015, 0x01);
    a.write_register(0x4003, 0x08);
    a.step(1000);
    let mut buf = Vec::new();
    a.save(&mut buf);
    assert_eq!(buf.len(), 100);
    let mut b = NesApu::new();
    let mut off = 0usize;
    b.load(&buf, &mut off);
    assert_eq!(off, 100);
    assert_eq!(b.pulse1.length, 254);
    assert_eq!(b.frame_cycles, a.frame_cycles);
    assert_eq!(b.sample_acc, a.sample_acc);
    assert!(b.is_valid());
}

#[test]
fn ppudata_reads_arrive_one_read_late() {
    let mut p = NesPpu::new();
    let mut c = cart(0);
    set_addr(&mut p, &mut c, 0x2000);
    p.write_register(7, 0x55, &mut c);
    set_addr(&mut p, &mut c, 0x2000);
    assert_eq!(p.read_register(7, &mut c), 0x00);
    assert_eq!(p.read_register(7, &mut c), 0x55);
}

#[test]
fn palette_write_through_ppuaddr_keeps_six_bits() {
    let mut p = NesPpu::new();
    let mut c = cart(0);
    set_addr(&mut p, &mut c, 0x3F10);
    p.write_register(7, 0xFF, &mut c);
    assert_eq!(p.read_vram(0x3F10, &c), 0x3F);
    assert_eq!(p.read_vram(0x3F00, &c), 0x3F);
}

#[test]
fn length_loads_of_triangle_and_noise() {
    let mut a = NesApu::new();
    a.write_register(0x4015, 0x0C);
    a.write_register(0x400B, 0x08); // length index 1: 254
    a.write_register(0x400F, 0x18); // length index 3: 2
    assert_eq!(a.triangle.length, 254);
    assert_eq!(a.noise.length, 2);
    assert!(a.triangle.linear_reload_flag);
    assert_eq!(a.read_status() & 0x0C, 0x0C);
}

#[test]
fn disabling_the_dmc_silences_it() {
    let mut a = NesApu::new();
    a.write_register(0x4011, 0x45);
    assert_eq!(a.dmc.output, 0x45);
    a.write_register(0x4015, 0x00);
    assert_eq!(a.dmc.output, 0);
}

#[test]
fn five_step_mode_clocks_at_once() {
    let mut a = NesApu::new();
    a.write_register(0x4015, 0x01);
    a.write_register(0x4003, 0x08); // length 254
    a.write_register(0x4017, 0x80);
    assert_eq!(a.pulse1.length, 253);
    assert_eq!(a.frame_step, 0);
}

#[test]
fn samples_hold_the_pulse_level() {
    let mut a = NesApu::new();
    a.write_register(0x4015, 0x01);
    a.write_register(0x4000, 0xBF); // 50% duty, halt, constant volume 15
    a.write_register(0x4002, 0x10);
    a.write_register(0x4003, 0x08); // timer period 16, length 254
    a.step(41); // the first sample falls due on the 41st cycle
    let s = a.get_samples();
    assert_eq!(s, vec![15, 0, 0, 0, 0]);
    assert_eq!(a.cpu_cycles, 41);
    assert_eq!(a.pulse1.duty_pos, 2);
    assert_eq!(a.pulse1.timer, 14);
}

#[test]
fn fetch_cycles_shift_and_reload_the_background_registers() {
    let mut c = cart(0);
    let mut p = NesPpu::new();
    p.write_register(1, 0x08, &mut c); // show the background
    p.scanline = 0;
    p.cycle = 6;
    p.bg_lo = 0xAB;
    p.bg_pattern_lo = 0x0101;
    p.step(1, &mut c); // dots 6, 7 and 8: three shifts, then the tile is loaded
    assert_eq!(p.cycle, 9);
    assert_eq!(p.bg_pattern_lo, 0x08AB);
    assert_eq!(p.bg_pattern_hi, 0x0000);
}

#[test]
fn dot_257_evaluates_the_sprites_of_the_line() {
    let mut c = cart(0);
    let mut p = NesPpu::new();
    p.write_register(1, 0x18, &mut c);
    p.oam[0] = 0; // Y
    p.oam[1] = 0; // tile
    p.oam[2] = 0x01; // attributes
    p.oam[3] = 0x30; // X
    p.scanline = 0;
    p.cycle = 256;
    p.step(1, &mut c);
    assert_eq!(p.sprite_count, 1);
    assert!(p.sprite0_hit_possible);
    assert_eq!(p.sprite_x[0], 0x30);
    assert_eq!(p.sprite_attrs[0], 0x01);
    assert_eq!(p.status & 0x20, 0);
}

#[test]
fn with_rendering_off_a_frame_is_89342_dots() {
    let mut c = cart(0);
    let mut p = NesPpu::new();
    p.write_register(0, 0x80, &mut c); // NMI on VBlank
    let r = p.step(29781, &mut c); // 89343 dots from line 261, dot 0
    assert_eq!((p.scanline, p.cycle, p.frame), (261, 1, 1));
    assert_eq!(r, (true, true));
}

#[test]
fn ppu_save_and_load_keep_any_scanline() {
    let mut a = NesPpu::new();
    a.scanline = -1;
    a.cycle = 77;
    a.data_buffer = 0x42;
    let mut buf = vec![9u8, 9, 9];
    a.save(&mut buf);
    let mut b = NesPpu::new();
    let mut off = 3usize;
    b.load(&buf, &mut off);
    assert_eq!(off, buf.len());
    assert_eq!(b.scanline, -1);
    assert_eq!(b.cycle, 77);
    assert_eq!(b.data_buffer, 0x42);
}
