use rustboy_core::gb::GbEmulator;

/// A cartridge that loops forever: `JR -2` at the entry point.
fn looping_rom() -> Vec<u8> {
    let mut rom = vec![0u8; 0x8000];
    rom[0x100] = 0x18;
    rom[0x101] = 0xFE;
    rom
}

#[test]
fn new_emulator_starts_at_the_entry_point() {
    let e = GbEmulator::new(&looping_rom());
    assert_eq!(e.cpu.regs.pc, 0x0100);
    assert_eq!(e.cpu.regs.sp, 0xFFFE);
    assert_eq!(e.cycles_this_frame, 0);
    assert_eq!(e.frame_buffer().len(), 160 * 144 * 4);
}

#[test]
fn one_frame_runs_a_frame_of_cycles() {
    let mut e = GbEmulator::new(&looping_rom());
    e.step_frame();
    // Each JR takes 12 cycles and 12 divides 70224: the frame ends exactly on time.
    assert_eq!(e.cycles_this_frame, 0);
    assert_eq!(e.cpu.regs.pc, 0x0100);
    // A whole frame of scanlines: the PPU is back at line 0.
    assert_eq!(e.mmu.ppu.ly, 0);
    // The background was drawn: every pixel is the lightest shade.
    assert_eq!(e.frame_buffer()[0..4], [0x9B, 0xBC, 0x0F, 0xFF]);
    let n = e.get_audio_samples().len();
    assert_eq!(n % 4, 0);
    // 70224 cycles at 44100 samples per 4194304 cycles.
    assert_eq!(n / 4, 738);
}

#[test]
fn joypad_buttons_reach_the_bus() {
    let mut e = GbEmulator::new(&looping_rom());
    e.set_joypad(7, true); // Start
    e.mmu.write_byte(0xFF00, 0x10);
    assert_eq!(e.mmu.read_byte(0xFF00) & 0x0F, 0x07);
    e.set_joypad(7, false);
    assert_eq!(e.mmu.read_byte(0xFF00) & 0x0F, 0x0F);
}

#[test]
fn save_then_load_restores_the_state() {
    let mut a = GbEmulator::new(&looping_rom());
    a.step_frame();
    a.mmu.write_byte(0xC000, 0x5A);
    let saved = a.save_state();
    assert_eq!(&saved[0..5], b"GBSS\x01");
    let mut b = GbEmulator::new(&looping_rom());
    assert!(b.load_state(&saved));
    assert_eq!(b.cpu.regs.pc, a.cpu.regs.pc);
    assert_eq!(b.cycles_this_frame, a.cycles_this_frame);
    assert_eq!(b.mmu.read_byte(0xC000), 0x5A);
    assert_eq!(b.frame_buffer(), a.frame_buffer());
    assert_eq!(b.save_state(), saved);
    // Both run on identically.
    a.step_frame();
    b.step_frame();
    assert_eq!(a.save_state(), b.save_state());
}

#[test]
fn load_rejects_a_wrong_header() {
    let a = GbEmulator::new(&looping_rom());
    let mut saved = a.save_state();
    saved[0] = b'X';
    let mut b = GbEmulator::new(&looping_rom());
    b.mmu.write_byte(0xC000, 0x11);
    assert!(!b.load_state(&saved));
    assert_eq!(b.mmu.read_byte(0xC000), 0x11);
    assert!(!b.load_state(&[]));
    assert!(!b.load_state(b"GBSS\x01"));
}

#[test]
fn load_rejects_a_truncated_state() {
    let a = GbEmulator::new(&looping_rom());
    let saved = a.save_state();
    let mut b = GbEmulator::new(&looping_rom());
    assert!(!b.load_state(&saved[..saved.len() - 1]));
    assert_eq!(b.cpu.regs.pc, 0x0100);
}

#[test]
fn load_rejects_an_impossible_state() {
    let a = GbEmulator::new(&looping_rom());
    let mut saved = a.save_state();
    // The timer accumulator sits 24 bytes into the registers after the external RAM.
    let regs = 5 + 16 + 0x2000 + 0x7F + 4 + 8 * 1024;
    saved[regs + 24 + 1] = 0xFF;
    let mut b = GbEmulator::new(&looping_rom());
    assert!(!b.load_state(&saved));
}
