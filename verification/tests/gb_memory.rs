use rustboy_core::gb::mmu::{MbcType, Mmu};
use rustboy_core::gb::timer::Timer;

fn plain_rom() -> Vec<u8> {
    let mut rom = vec![0u8; 0x8000];
    rom[0x0000] = 0x11;
    rom[0x4000] = 0x22;
    rom
}

/// A 128 KiB MBC1 cartridge whose every 16 KiB bank starts with its own number.
fn mbc1_rom() -> Vec<u8> {
    let mut rom = vec![0u8; 0x20000];
    for bank in 0..8 {
        rom[bank * 0x4000] = bank as u8;
    }
    rom[0x0147] = 0x01;
    rom[0x0149] = 0x03;
    rom
}

#[test]
fn header_selects_controller_and_ram_size() {
    let m = Mmu::new(plain_rom());
    assert!(m.mbc_type == MbcType::RomOnly);
    assert_eq!(m.ext_ram.len(), 8 * 1024);
    let m = Mmu::new(mbc1_rom());
    assert!(m.mbc_type == MbcType::Mbc1);
    assert_eq!(m.ext_ram.len(), 32 * 1024);
    let mut rom = plain_rom();
    rom[0x0147] = 0x13;
    rom[0x0149] = 0x01;
    let m = Mmu::new(rom);
    assert!(m.mbc_type == MbcType::Mbc1);
    assert_eq!(m.ext_ram.len(), 2 * 1024);
}

#[test]
fn initial_registers() {
    let m = Mmu::new(plain_rom());
    assert_eq!(m.interrupt_flag, 0xE1);
    assert_eq!(m.interrupt_enable, 0);
    assert_eq!(m.rom_bank, 1);
    assert_eq!(m.read_byte(0xFF0F), 0xE1);
}

#[test]
fn rom_reads_and_rom_only_ignores_bank_writes() {
    let mut m = Mmu::new(plain_rom());
    assert_eq!(m.read_byte(0x0000), 0x11);
    assert_eq!(m.read_byte(0x4000), 0x22);
    m.write_byte(0x2000, 0x05);
    assert_eq!(m.rom_bank, 1);
    assert_eq!(m.read_byte(0x4000), 0x22);
}

#[test]
fn short_rom_reads_open_bus() {
    let m = Mmu::new(vec![0x42u8; 0x100]);
    assert_eq!(m.read_byte(0x0050), 0x42);
    assert_eq!(m.read_byte(0x0200), 0xFF);
    assert_eq!(m.read_byte(0x4000), 0xFF);
}

#[test]
fn mbc1_switches_rom_banks_and_never_selects_bank_zero() {
    let mut m = Mmu::new(mbc1_rom());
    assert_eq!(m.read_byte(0x4000), 1);
    m.write_byte(0x2000, 0x05);
    assert_eq!(m.read_byte(0x4000), 5);
    m.write_byte(0x2000, 0x00);
    assert_eq!(m.rom_bank, 1);
    assert_eq!(m.read_byte(0x4000), 1);
    m.write_byte(0x4000, 0x01);
    assert_eq!(m.rom_bank, 0x21);
    assert_eq!(m.read_byte(0x4000), 0xFF);
}

#[test]
fn mbc1_external_ram_needs_enabling() {
    let mut m = Mmu::new(mbc1_rom());
    m.write_byte(0xA000, 0x55);
    assert_eq!(m.read_byte(0xA000), 0xFF);
    m.write_byte(0x0000, 0x0A);
    assert!(m.ram_enabled);
    m.write_byte(0xA000, 0x55);
    assert_eq!(m.read_byte(0xA000), 0x55);
    // RAM banking mode selects bank 2.
    m.write_byte(0x6000, 0x01);
    m.write_byte(0x4000, 0x02);
    assert_eq!(m.ram_bank, 2);
    assert_eq!(m.read_byte(0xA000), 0x00);
    m.write_byte(0xA000, 0x66);
    assert_eq!(m.ext_ram[2 * 0x2000], 0x66);
    m.write_byte(0x0000, 0x00);
    assert_eq!(m.read_byte(0xA000), 0xFF);
}

#[test]
fn echo_ram_mirrors_work_ram() {
    let mut m = Mmu::new(plain_rom());
    m.write_byte(0xC010, 0xAB);
    assert_eq!(m.read_byte(0xE010), 0xAB);
    m.write_byte(0xE020, 0xCD);
    assert_eq!(m.read_byte(0xC020), 0xCD);
}

#[test]
fn high_ram_interrupt_enable_and_unusable_area() {
    let mut m = Mmu::new(plain_rom());
    m.write_byte(0xFF80, 0x12);
    m.write_byte(0xFFFE, 0x34);
    assert_eq!(m.read_byte(0xFF80), 0x12);
    assert_eq!(m.read_byte(0xFFFE), 0x34);
    m.write_byte(0xFFFF, 0x1F);
    assert_eq!(m.interrupt_enable, 0x1F);
    assert_eq!(m.read_byte(0xFFFF), 0x1F);
    m.write_byte(0xFEA0, 0x77);
    assert_eq!(m.read_byte(0xFEA0), 0xFF);
    assert_eq!(m.read_byte(0xFF03), 0xFF);
    assert_eq!(m.read_byte(0xFF7F), 0xFF);
}

#[test]
fn write_word_is_little_endian() {
    let mut m = Mmu::new(plain_rom());
    m.write_word(0xC100, 0xBEEF);
    assert_eq!(m.read_byte(0xC100), 0xEF);
    assert_eq!(m.read_byte(0xC101), 0xBE);
}

#[test]
fn joypad_reads_the_selected_group() {
    let mut m = Mmu::new(plain_rom());
    assert_eq!(m.read_byte(0xFF00), 0xFF);
    m.set_joypad(4, true); // A
    m.set_joypad(2, true); // Up
    assert_eq!(m.interrupt_flag & 0x10, 0x10);
    m.write_byte(0xFF00, 0x10); // action buttons
    assert_eq!(m.read_byte(0xFF00), 0xD0 | 0x0E);
    m.write_byte(0xFF00, 0x20); // direction buttons
    assert_eq!(m.read_byte(0xFF00), 0xE0 | 0x0B);
    m.set_joypad(4, false);
    m.write_byte(0xFF00, 0x10);
    assert_eq!(m.read_byte(0xFF00), 0xDF);
}

#[test]
fn interrupt_flag_reads_with_upper_bits_set() {
    let mut m = Mmu::new(plain_rom());
    m.write_byte(0xFF0F, 0x05);
    assert_eq!(m.interrupt_flag, 0x05);
    assert_eq!(m.read_byte(0xFF0F), 0xE5);
}

#[test]
fn ppu_registers_through_the_bus() {
    let mut m = Mmu::new(plain_rom());
    m.write_byte(0xFF42, 0x10);
    m.write_byte(0xFF43, 0x20);
    m.write_byte(0xFF47, 0xE4);
    assert_eq!(m.read_byte(0xFF42), 0x10);
    assert_eq!(m.read_byte(0xFF43), 0x20);
    assert_eq!(m.read_byte(0xFF47), 0xE4);
    // LY is read-only.
    m.write_byte(0xFF44, 0x33);
    assert_eq!(m.read_byte(0xFF44), 0);
    // STAT keeps its low three bits and bit 7 reads as 1.
    m.write_byte(0xFF41, 0xFF);
    assert_eq!(m.read_byte(0xFF41) & 0x80, 0x80);
    assert_eq!(m.ppu.stat & 0x78, 0x78);
    m.write_byte(0x8000, 0x3C);
    assert_eq!(m.read_byte(0x8000), 0x3C);
}

#[test]
fn oam_dma_copies_160_bytes() {
    let mut m = Mmu::new(plain_rom());
    for i in 0..0xA0u16 {
        m.write_byte(0xC000 + i, i as u8 ^ 0x5A);
    }
    m.write_byte(0xFF46, 0xC0);
    assert_eq!(m.read_byte(0xFF46), 0xC0);
    for i in 0..0xA0u16 {
        assert_eq!(m.ppu.oam[i as usize], i as u8 ^ 0x5A);
    }
}

#[test]
fn timer_registers_and_overflow_interrupt() {
    let mut m = Mmu::new(plain_rom());
    m.write_byte(0xFF06, 0xAB); // TMA
    m.write_byte(0xFF05, 0xFF); // TIMA
    m.write_byte(0xFF07, 0xFD); // enabled, 16 cycles; only 3 bits kept
    assert_eq!(m.read_byte(0xFF07), 0x05);
    m.interrupt_flag = 0;
    m.step_timer(16);
    assert_eq!(m.read_byte(0xFF05), 0xAB);
    assert_eq!(m.interrupt_flag & 0x04, 0x04);
}

#[test]
fn div_counts_and_resets() {
    let mut m = Mmu::new(plain_rom());
    m.step_timer(0x300);
    assert_eq!(m.read_byte(0xFF04), 0x03);
    m.write_byte(0xFF04, 0x99);
    assert_eq!(m.read_byte(0xFF04), 0x00);
}

#[test]
fn timer_periods() {
    let mut t = Timer::new();
    t.tac = 0x04; // 1024 cycles
    assert!(!t.step(1023));
    assert_eq!(t.tima, 0);
    t.step(1);
    assert_eq!(t.tima, 1);
    t.tac = 0x06; // 64 cycles
    t.step(64 * 3);
    assert_eq!(t.tima, 4);
    t.tac = 0x07; // 256 cycles
    t.step(256);
    assert_eq!(t.tima, 5);
    assert_eq!(t.read_div(), ((1024 + 192 + 256) >> 8) as u8);
}

#[test]
fn stopped_timer_only_counts_div() {
    let mut t = Timer::new();
    assert!(!t.step(5000));
    assert_eq!(t.tima, 0);
    assert_eq!(t.internal_counter, 5000);
    t.write_div();
    assert_eq!(t.internal_counter, 0);
}

#[test]
fn bus_state_roundtrips_through_bytes() {
    let mut a = Mmu::new(mbc1_rom());
    a.write_byte(0xC000, 0x12);
    a.write_byte(0xFF80, 0x34);
    a.write_byte(0x0000, 0x0A);
    a.write_byte(0xA001, 0x56);
    a.write_byte(0x2000, 0x03);
    let mut buf = Vec::new();
    a.save(&mut buf);
    let mut b = Mmu::new(mbc1_rom());
    let mut off = 0usize;
    b.load(&buf, &mut off);
    assert_eq!(off, buf.len());
    assert_eq!(b.read_byte(0xC000), 0x12);
    assert_eq!(b.read_byte(0xFF80), 0x34);
    assert_eq!(b.read_byte(0xA001), 0x56);
    assert_eq!(b.read_byte(0x4000), 3);
    assert!(b.is_valid());
}

#[test]
fn two_timer_steps_count_like_one() {
    let mut a = Timer::new();
    a.tac = 0x05; // 16 cycles
    a.tima = 0xFE;
    a.tma = 0x10;
    let mut b = Timer::new();
    b.tac = 0x05;
    b.tima = 0xFE;
    b.tma = 0x10;
    let i1 = a.step(23);
    let i2 = a.step(30);
    let i = b.step(53);
    assert_eq!(a.tima, b.tima);
    assert_eq!(a.tima, 0x11);
    assert_eq!(i1 || i2, i);
    assert!(i);
}

#[test]
fn stopped_timer_takes_any_cycle_count() {
    let mut t = Timer::new();
    assert!(!t.step(u32::MAX));
    assert_eq!(t.tima, 0);
}

#[test]
fn sound_register_writes_reach_the_apu() {
    let mut m = Mmu::new(plain_rom());
    m.write_byte(0xFF24, 0x12);
    assert_eq!(m.apu.nr50, 0x12);
    m.write_byte(0xFF30, 0xAB);
    assert_eq!(m.apu.ch3.wave_ram[0], 0xAB);
    m.write_byte(0xFF11, 0x85);
    assert_eq!(m.apu.ch1.length_counter, 64 - 5);
    assert_eq!(m.read_byte(0xFF24), 0x12);
}
