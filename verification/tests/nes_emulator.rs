use rustboy_core::nes::NesEmulator;

/// An NROM image that enables the VBlank NMI and loops; the NMI handler counts frames in $10.
fn counting_rom(mapper_flags6: u8) -> Vec<u8> {
    let mut rom = vec![0x4E, 0x45, 0x53, 0x1A, 2, 1, mapper_flags6, 0, 0, 0, 0, 0, 0, 0, 0, 0];
    let mut prg = vec![0xEAu8; 32768];
    // $8000: LDA #$80 ; STA $2000 ; JMP $8005
    prg[..8].copy_from_slice(&[0xA9, 0x80, 0x8D, 0x00, 0x20, 0x4C, 0x05, 0x80]);
    // $9000: INC $10 ; RTI
    prg[0x1000..0x1003].copy_from_slice(&[0xE6, 0x10, 0x40]);
    // Vectors in the last bank: NMI $9000, RESET $8000, IRQ $8005.
    prg[0x7FFA..0x8000].copy_from_slice(&[0x00, 0x90, 0x00, 0x80, 0x05, 0x80]);
    rom.extend(prg);
    rom.extend(vec![0u8; 8192]);
    rom
}

#[test]
fn nes_new_emulator_starts_at_the_reset_vector() {
    let e = NesEmulator::new(&counting_rom(0));
    assert_eq!(e.cpu.pc, 0x8000);
    assert_eq!(e.cpu.sp, 0xFD);
    assert!(!e.pending_nmi && !e.pending_irq);
    assert_eq!(e.frame_buffer().len(), 256 * 240 * 4);
}

#[test]
fn frames_raise_the_nmi() {
    let mut e = NesEmulator::new(&counting_rom(0));
    e.step_frame();
    e.step_frame();
    e.step_frame();
    assert!(e.bus.ram[0x10] >= 2);
    let n = e.get_audio_samples().len();
    assert_eq!(n % 5, 0);
    assert!(n / 5 >= 3 * 733);
}

#[test]
fn nes_joypad_reaches_the_bus() {
    let mut e = NesEmulator::new(&counting_rom(0));
    e.set_joypad(1, true);
    e.bus.write(0x4016, 1);
    e.bus.write(0x4016, 0);
    assert_eq!(e.bus.read(0x4016), 0);
    assert_eq!(e.bus.read(0x4016), 1);
}

#[test]
fn nes_save_then_load_restores_the_state() {
    let mut a = NesEmulator::new(&counting_rom(0));
    a.step_frame();
    a.step_frame();
    let saved = a.save_state();
    assert_eq!(&saved[0..5], b"NESS\x01");
    let mut b = NesEmulator::new(&counting_rom(0));
    assert!(b.load_state(&saved));
    assert_eq!(b.cpu.pc, a.cpu.pc);
    assert_eq!(b.bus.ram, a.bus.ram);
    assert_eq!(b.frame_buffer(), a.frame_buffer());
    assert_eq!(b.save_state(), saved);
    a.step_frame();
    b.step_frame();
    assert_eq!(a.save_state(), b.save_state());
}

#[test]
fn save_then_load_keeps_mapper_state() {
    let mut a = NesEmulator::new(&counting_rom(0x10)); // MMC1
    a.bus.write(0xE000, 1);
    a.bus.write(0xE000, 0);
    let saved = a.save_state();
    let mut b = NesEmulator::new(&counting_rom(0x10));
    assert!(b.load_state(&saved));
    assert_eq!(b.save_state(), saved);
}

#[test]
fn nes_load_rejects_bad_states() {
    let a = NesEmulator::new(&counting_rom(0));
    let saved = a.save_state();
    let mut b = NesEmulator::new(&counting_rom(0));
    b.bus.ram[0] = 0x42;
    let mut wrong = saved.clone();
    wrong[3] = b'X';
    assert!(!b.load_state(&wrong));
    assert!(!b.load_state(&saved[..100]));
    assert!(!b.load_state(&[]));
    // A state saved by another cartridge kind does not fit.
    let mut mmc1 = NesEmulator::new(&counting_rom(0x10));
    assert!(!mmc1.load_state(&saved));
    // An impossible PPU position.
    let mut bad = saved.clone();
    let ppu_cycle = 18 + 2048 + 7 + 2347;
    bad[ppu_cycle + 1] = 0x10;
    assert!(!b.load_state(&bad));
    assert_eq!(b.bus.ram[0], 0x42);
}
