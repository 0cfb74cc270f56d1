use rustboy_core::nes::cartridge::{has_ines_header, ines_image_complete, parse_ines, Cartridge, Mapper, Mapper1, Mirroring};

/// An iNES image whose every 16 KiB PRG bank starts with its bank number and every 8 KiB CHR
/// bank starts with 0x40 plus its number.
fn ines(prg_banks: u8, chr_banks: u8, flags6: u8, flags7: u8) -> Vec<u8> {
    let mut rom = vec![0x4E, 0x45, 0x53, 0x1A, prg_banks, chr_banks, flags6, flags7, 0, 0, 0, 0, 0, 0, 0, 0];
    if flags6 & 0x04 != 0 {
        rom.extend(std::iter::repeat(0xEE).take(512));
    }
    for b in 0..prg_banks {
        let mut bank = vec![0u8; 16384];
        bank[0] = b;
        bank[1] = 0xAA;
        rom.extend(bank);
    }
    for b in 0..chr_banks {
        let mut bank = vec![0u8; 8192];
        bank[0] = 0x40 + b;
        rom.extend(bank);
    }
    rom
}

#[test]
fn mapper_number_comes_from_both_flag_bytes() {
    assert!(matches!(parse_ines(&ines(1, 1, 0x00, 0x00)), Cartridge::Nrom(_)));
    assert!(matches!(parse_ines(&ines(2, 1, 0x10, 0x00)), Cartridge::Mmc1(_)));
    assert!(matches!(parse_ines(&ines(2, 1, 0x20, 0x00)), Cartridge::Uxrom(_)));
    assert!(matches!(parse_ines(&ines(1, 2, 0x30, 0x00)), Cartridge::Cnrom(_)));
    assert!(matches!(parse_ines(&ines(2, 1, 0x40, 0x00)), Cartridge::Mmc3(_)));
    // Mapper 0x14 (low nibble 4 with a high nibble) is not supported: NROM is used.
    assert!(matches!(parse_ines(&ines(1, 1, 0x40, 0x10)), Cartridge::Nrom(_)));
    assert!(matches!(parse_ines(&ines(1, 1, 0x70, 0x00)), Cartridge::Nrom(_)));
}

#[test]
fn mirroring_flags() {
    assert!(parse_ines(&ines(1, 1, 0x00, 0)).mirroring() == Mirroring::Horizontal);
    assert!(parse_ines(&ines(1, 1, 0x01, 0)).mirroring() == Mirroring::Vertical);
    assert!(parse_ines(&ines(1, 1, 0x09, 0)).mirroring() == Mirroring::FourScreen);
}

#[test]
fn trainer_is_skipped() {
    let c = parse_ines(&ines(1, 1, 0x04, 0));
    assert_eq!(c.read_prg(0x8000), 0);
    assert_eq!(c.read_prg(0x8001), 0xAA);
    assert_eq!(c.read_chr(0x0000), 0x40);
}

#[test]
fn chr_ram_when_no_chr_banks() {
    let mut c = parse_ines(&ines(1, 0, 0, 0));
    match &c {
        Cartridge::Nrom(m) => {
            assert!(m.chr_is_ram);
            assert_eq!(m.chr.len(), 8192);
        },
        _ => panic!("expected NROM"),
    }
    c.write_chr(0x0123, 0x99);
    assert_eq!(c.read_chr(0x0123), 0x99);
    // CHR ROM ignores writes.
    let mut r = parse_ines(&ines(1, 1, 0, 0));
    r.write_chr(0x0000, 0x99);
    assert_eq!(r.read_chr(0x0000), 0x40);
}

#[test]
fn nrom_mirrors_a_single_prg_bank() {
    let c = parse_ines(&ines(1, 1, 0, 0));
    assert_eq!(c.read_prg(0x8001), 0xAA);
    assert_eq!(c.read_prg(0xC001), 0xAA);
    assert_eq!(c.read_prg(0x6000), 0);
}

#[test]
fn uxrom_switches_the_low_bank_and_fixes_the_last() {
    let mut c = parse_ines(&ines(4, 0, 0x20, 0));
    assert_eq!(c.read_prg(0x8000), 0);
    assert_eq!(c.read_prg(0xC000), 3);
    c.write_prg(0x8000, 2);
    assert_eq!(c.read_prg(0x8000), 2);
    assert_eq!(c.read_prg(0xC000), 3);
    c.write_prg(0x8000, 5);
    assert_eq!(c.read_prg(0x8000), 1);
}

#[test]
fn cnrom_switches_chr_banks() {
    let mut c = parse_ines(&ines(1, 4, 0x30, 0));
    assert_eq!(c.read_chr(0x0000), 0x40);
    c.write_prg(0x8000, 2);
    assert_eq!(c.read_chr(0x0000), 0x42);
    c.write_prg(0x8000, 7);
    assert_eq!(c.read_chr(0x0000), 0x43);
}

/// Writes a 5-bit MMC1 register value serially, low bit first.
fn mmc1_write(c: &mut Cartridge, addr: u16, value: u8) {
    for i in 0..5 {
        c.write_prg(addr, (value >> i) & 1);
    }
}

#[test]
fn mmc1_serial_port_selects_prg_banks() {
    let mut c = parse_ines(&ines(8, 1, 0x10, 0));
    // Power-on mode 3: switchable $8000, last bank fixed at $C000.
    assert_eq!(c.read_prg(0x8000), 0);
    assert_eq!(c.read_prg(0xC000), 7);
    mmc1_write(&mut c, 0xE000, 5);
    assert_eq!(c.read_prg(0x8000), 5);
    // Mode 2: first bank fixed at $8000, switchable $C000.
    mmc1_write(&mut c, 0x8000, 0x08);
    assert_eq!(c.read_prg(0x8000), 0);
    assert_eq!(c.read_prg(0xC000), 5);
    // 32 KiB mode ignores the low bit of the bank.
    mmc1_write(&mut c, 0x8000, 0x00);
    assert_eq!(c.read_prg(0x8000), 4);
    assert_eq!(c.read_prg(0xC000), 5);
}

#[test]
fn mmc1_reset_bit_clears_the_shift_register() {
    let mut c = parse_ines(&ines(8, 1, 0x10, 0));
    c.write_prg(0xE000, 1);
    c.write_prg(0xE000, 1);
    c.write_prg(0x8000, 0x80);
    match &c {
        Cartridge::Mmc1(m) => {
            assert_eq!(m.shift_count, 0);
            assert_eq!(m.control & 0x0C, 0x0C);
        },
        _ => panic!("expected MMC1"),
    }
}

#[test]
fn mmc1_mirroring_from_control() {
    let mut c = parse_ines(&ines(2, 1, 0x10, 0));
    mmc1_write(&mut c, 0x8000, 0x0E);
    assert!(c.mirroring() == Mirroring::Vertical);
    mmc1_write(&mut c, 0x8000, 0x0F);
    assert!(c.mirroring() == Mirroring::Horizontal);
    mmc1_write(&mut c, 0x8000, 0x0C);
    assert!(c.mirroring() == Mirroring::SingleScreenLow);
}

#[test]
fn mmc3_banks_ram_and_scanline_irq() {
    let mut c = parse_ines(&ines(4, 1, 0x40, 0));
    // Eight 8 KiB banks: in PRG mode 0, $C000 holds the second to last one.
    assert_eq!(c.read_prg(0xC000), 3);
    c.write_prg(0x8000, 6);
    c.write_prg(0x8001, 2); // R6 = 8 KiB bank 2 = first half of 16 KiB bank 1
    assert_eq!(c.read_prg(0x8000), 1);
    // PRG RAM, once enabled.
    c.write_prg(0xA001, 0x80);
    c.write_prg(0x6000, 0x77);
    assert_eq!(c.read_prg(0x6000), 0x77);
    // Write protection.
    c.write_prg(0xA001, 0xC0);
    c.write_prg(0x6000, 0x11);
    assert_eq!(c.read_prg(0x6000), 0x77);
    // Mirroring register.
    c.write_prg(0xA000, 0);
    assert!(c.mirroring() == Mirroring::Vertical);
    // IRQ after `latch` scanlines.
    c.write_prg(0xC000, 2);
    c.write_prg(0xC001, 0);
    c.write_prg(0xE001, 0);
    c.notify_scanline();
    assert!(!c.irq_pending());
    c.notify_scanline();
    c.notify_scanline();
    assert!(c.irq_pending());
    assert!(!c.irq_pending());
}

#[test]
fn ines_detection_and_completeness() {
    let rom = ines(1, 1, 0x04, 0);
    assert!(has_ines_header(&rom));
    assert!(ines_image_complete(&rom));
    assert!(!ines_image_complete(&rom[..rom.len() - 1]));
    assert!(!has_ines_header(&[0x4E, 0x45, 0x53]));
    assert!(!has_ines_header(&[0u8; 0x150]));
    assert!(!ines_image_complete(b"NES\x1A"));
}

#[test]
fn image_without_prg_still_serves_chr_ram() {
    // No PRG banks, no CHR banks (8 KiB CHR RAM), mapper 0, vertical mirroring.
    let rom = vec![0x4E, 0x45, 0x53, 0x1A, 0, 0, 0x01, 0, 0, 0, 0, 0, 0, 0, 0, 0];
    let mut c = parse_ines(&rom);
    assert!(c.mirroring() == Mirroring::Vertical);
    c.write_chr(0x0123, 0x99);
    assert_eq!(c.read_chr(0x0123), 0x99);
    let mut b: Vec<u8> = Vec::new();
    c.save_mapper(&mut b);
    assert_eq!(b[0], 0);
}

#[test]
fn mmc1_power_on_prg_layout_whatever_the_chr_size() {
    let mut prg = vec![0u8; 2 * 16384];
    prg[5] = 0x11;
    prg[16384 + 7] = 0x22;
    // A 4 KiB CHR ROM: PRG reads do not depend on the CHR size.
    let m = Mapper1::new(prg, vec![0u8; 4096], false, Mirroring::Vertical);
    assert_eq!(m.read_prg(0x8005), 0x11);
    assert_eq!(m.read_prg(0xC007), 0x22);
    assert_eq!(m.read_prg(0x6000), 0);
    assert_eq!(m.mirroring(), Mirroring::SingleScreenLow);
    let e = Mapper1::new(vec![0x33u8; 16384], Vec::new(), false, Mirroring::Horizontal);
    assert_eq!(e.read_prg(0xFFFF), 0x33);
}
