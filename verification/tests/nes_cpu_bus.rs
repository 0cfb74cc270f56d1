use rustboy_core::nes::bus::NesBus;
use rustboy_core::nes::cartridge::parse_ines;
use rustboy_core::nes::cpu::NesCpu;

/// An NROM image with the NMI vector at $9000, reset at $8000 and IRQ/BRK at $A000.
fn nrom() -> Vec<u8> {
    let mut rom = vec![0x4E, 0x45, 0x53, 0x1A, 1, 1, 0, 0, 0, 0, 0, 0, 0, 0, 0, 0];
    let mut prg = vec![0xEAu8; 16384];
    prg[0x3FFA] = 0x00;
    prg[0x3FFB] = 0x90;
    prg[0x3FFC] = 0x00;
    prg[0x3FFD] = 0x80;
    prg[0x3FFE] = 0x00;
    prg[0x3FFF] = 0xA0;
    rom.extend(prg);
    rom.extend(vec![0u8; 8192]);
    rom
}

fn bus() -> NesBus {
    NesBus::new(parse_ines(&nrom()))
}

/// A CPU with `program` in RAM at $0200, ready to run it.
fn run_from_ram(program: &[u8]) -> (NesCpu, NesBus) {
    let mut b = bus();
    for (i, &byte) in program.iter().enumerate() {
        b.write(0x0200 + i as u16, byte);
    }
    let mut c = NesCpu::new();
    c.reset(&mut b);
    c.pc = 0x0200;
    (c, b)
}

const C: u8 = 0x01;
const Z: u8 = 0x02;
const I: u8 = 0x04;
const V: u8 = 0x40;
const N: u8 = 0x80;

#[test]
fn reset_loads_the_vector() {
    let mut b = bus();
    let mut c = NesCpu::new();
    c.reset(&mut b);
    assert_eq!(c.pc, 0x8000);
    assert_eq!(c.sp, 0xFD);
    assert_eq!(c.p, 0x24);
    assert_eq!((c.a, c.x, c.y), (0, 0, 0));
    assert_eq!(c.cycles, 8);
}

#[test]
fn ram_is_mirrored_every_2k() {
    let mut b = bus();
    b.write(0x0001, 0x42);
    assert_eq!(b.read(0x0801), 0x42);
    assert_eq!(b.read(0x1801), 0x42);
    b.write(0x1FFF, 0x24);
    assert_eq!(b.read(0x07FF), 0x24);
}

#[test]
fn cartridge_space_and_open_bus() {
    let mut b = bus();
    assert_eq!(b.read(0x8000), 0xEA);
    assert_eq!(b.read(0xFFFC), 0x00);
    assert_eq!(b.read(0xFFFD), 0x80);
    assert_eq!(b.read(0x4018), 0);
}

#[test]
fn joypad_reads_buttons_serially() {
    let mut b = bus();
    b.set_joypad(0, true); // A
    b.set_joypad(3, true); // Start
    b.set_joypad(7, true); // Right
    b.write(0x4016, 1);
    assert_eq!(b.read(0x4016), 1); // strobe high: A, repeatedly
    assert_eq!(b.read(0x4016), 1);
    b.write(0x4016, 0);
    let bits: Vec<u8> = (0..10).map(|_| b.read(0x4016)).collect();
    assert_eq!(bits, vec![1, 0, 0, 1, 0, 0, 0, 1, 1, 1]);
    b.set_joypad(0, false);
    b.write(0x4016, 1);
    b.write(0x4016, 0);
    assert_eq!(b.read(0x4016), 0);
    // The second pad has no buttons pressed.
    assert_eq!(b.read(0x4017), 0);
}

#[test]
fn oam_dma_is_requested_then_copies_a_page() {
    let mut b = bus();
    for i in 0..256u16 {
        b.write(0x0300 + i, i as u8);
    }
    b.write(0x4014, 0x03);
    assert!(b.dma_pending);
    assert_eq!(b.dma_page, 3);
    b.do_oam_dma();
    assert!(!b.dma_pending);
    assert_eq!(b.ppu.oam[0], 0);
    assert_eq!(b.ppu.oam[255], 255);
}

#[test]
fn load_immediate_sets_sign_and_zero() {
    // LDA #$80 ; LDX #$00 ; LDY #$7F
    let (mut c, mut b) = run_from_ram(&[0xA9, 0x80, 0xA2, 0x00, 0xA0, 0x7F]);
    assert_eq!(c.step(&mut b), 2);
    assert_eq!(c.a, 0x80);
    assert_eq!(c.p & (N | Z), N);
    c.step(&mut b);
    assert_eq!(c.p & (N | Z), Z);
    c.step(&mut b);
    assert_eq!(c.y, 0x7F);
    assert_eq!(c.p & (N | Z), 0);
}

#[test]
fn adc_sets_overflow_and_carry() {
    // CLC ; LDA #$50 ; ADC #$50 ; ADC #$70
    let (mut c, mut b) = run_from_ram(&[0x18, 0xA9, 0x50, 0x69, 0x50, 0x69, 0x70]);
    c.step(&mut b);
    c.step(&mut b);
    c.step(&mut b);
    assert_eq!(c.a, 0xA0);
    assert_eq!(c.p & (C | V | N), V | N);
    c.step(&mut b);
    assert_eq!(c.a, 0x10);
    assert_eq!(c.p & (C | V | N), C);
}

#[test]
fn sbc_borrows_through_the_carry() {
    // SEC ; LDA #$50 ; SBC #$F0 ; SEC ; LDA #$50 ; SBC #$B0
    let (mut c, mut b) = run_from_ram(&[0x38, 0xA9, 0x50, 0xE9, 0xF0, 0x38, 0xA9, 0x50, 0xE9, 0xB0]);
    for _ in 0..3 {
        c.step(&mut b);
    }
    assert_eq!(c.a, 0x60);
    assert_eq!(c.p & (C | V), 0);
    for _ in 0..3 {
        c.step(&mut b);
    }
    assert_eq!(c.a, 0xA0);
    assert_eq!(c.p & (C | V | N), V | N);
}

#[test]
fn compare_sets_carry_zero_and_sign() {
    // LDA #$40 ; CMP #$40 ; CMP #$41 ; CMP #$10
    let (mut c, mut b) = run_from_ram(&[0xA9, 0x40, 0xC9, 0x40, 0xC9, 0x41, 0xC9, 0x10]);
    c.step(&mut b);
    c.step(&mut b);
    assert_eq!(c.p & (C | Z | N), C | Z);
    c.step(&mut b);
    assert_eq!(c.p & (C | Z | N), N);
    c.step(&mut b);
    assert_eq!(c.p & (C | Z | N), C);
}

#[test]
fn store_and_load_zero_page_and_absolute() {
    // LDA #$99 ; STA $10 ; STA $0400 ; LDX $10 ; LDY $0400
    let (mut c, mut b) = run_from_ram(&[0xA9, 0x99, 0x85, 0x10, 0x8D, 0x00, 0x04, 0xA6, 0x10, 0xAC, 0x00, 0x04]);
    c.step(&mut b);
    assert_eq!(c.step(&mut b), 3);
    assert_eq!(c.step(&mut b), 4);
    assert_eq!(b.read(0x0010), 0x99);
    assert_eq!(b.read(0x0400), 0x99);
    assert_eq!(c.step(&mut b), 3);
    assert_eq!(c.x, 0x99);
    assert_eq!(c.step(&mut b), 4);
    assert_eq!(c.y, 0x99);
}

#[test]
fn indexed_read_across_a_page_costs_a_cycle() {
    // LDX #$FF ; LDA $0201,X ; LDA $0200,X
    let (mut c, mut b) = run_from_ram(&[0xA2, 0xFF, 0xBD, 0x01, 0x02, 0xBD, 0x00, 0x02]);
    b.write(0x0300, 0x77);
    c.step(&mut b);
    assert_eq!(c.step(&mut b), 5);
    assert_eq!(c.a, 0x77);
    assert_eq!(c.step(&mut b), 4);
}

#[test]
fn read_modify_write_on_memory() {
    // INC $10 ; DEC $11 ; ASL $12 ; LSR A
    let (mut c, mut b) = run_from_ram(&[0xE6, 0x10, 0xC6, 0x11, 0x06, 0x12, 0x4A]);
    b.write(0x0010, 0xFF);
    b.write(0x0011, 0x01);
    b.write(0x0012, 0xC0);
    assert_eq!(c.step(&mut b), 5);
    assert_eq!(b.read(0x0010), 0x00);
    assert_eq!(c.p & Z, Z);
    c.step(&mut b);
    assert_eq!(b.read(0x0011), 0x00);
    c.step(&mut b);
    assert_eq!(b.read(0x0012), 0x80);
    assert_eq!(c.p & (C | N), C | N);
    c.a = 0x01;
    assert_eq!(c.step(&mut b), 2);
    assert_eq!(c.a, 0);
    assert_eq!(c.p & (C | Z), C | Z);
}

#[test]
fn branches_cost_extra_when_taken_and_across_pages() {
    // LDA #$00 ; BNE +2 (not taken) ; BEQ +2 (taken)
    let (mut c, mut b) = run_from_ram(&[0xA9, 0x00, 0xD0, 0x02, 0xF0, 0x02]);
    c.step(&mut b);
    assert_eq!(c.step(&mut b), 2);
    assert_eq!(c.pc, 0x0204);
    assert_eq!(c.step(&mut b), 3);
    assert_eq!(c.pc, 0x0208);
    // A taken branch from $02FD to the next page.
    b.write(0x02FD, 0xF0);
    b.write(0x02FE, 0x10);
    c.pc = 0x02FD;
    assert_eq!(c.step(&mut b), 4);
    assert_eq!(c.pc, 0x030F);
}

#[test]
fn subroutine_call_and_return() {
    // JSR $0300 ... at $0300: RTS
    let (mut c, mut b) = run_from_ram(&[0x20, 0x00, 0x03]);
    b.write(0x0300, 0x60);
    assert_eq!(c.step(&mut b), 6);
    assert_eq!(c.pc, 0x0300);
    assert_eq!(c.sp, 0xFB);
    assert_eq!(b.read(0x01FD), 0x02);
    assert_eq!(b.read(0x01FC), 0x02);
    assert_eq!(c.step(&mut b), 6);
    assert_eq!(c.pc, 0x0203);
    assert_eq!(c.sp, 0xFD);
}

#[test]
fn push_and_pull_the_accumulator_and_status() {
    // LDA #$00 ; PHA ; LDA #$55 ; PLA ; PHP ; PLP
    let (mut c, mut b) = run_from_ram(&[0xA9, 0x00, 0x48, 0xA9, 0x55, 0x68, 0x08, 0x28]);
    c.step(&mut b);
    assert_eq!(c.step(&mut b), 3);
    c.step(&mut b);
    assert_eq!(c.step(&mut b), 4);
    assert_eq!(c.a, 0);
    assert_eq!(c.p & Z, Z);
    c.step(&mut b);
    assert_eq!(b.read(0x01FD), c.p | 0x30);
    let before = c.p;
    c.step(&mut b);
    assert_eq!(c.p, before);
}

#[test]
fn jump_indirect_wraps_within_the_page() {
    // JMP ($02FF) reads its high byte from $0200.
    let (mut c, mut b) = run_from_ram(&[0x6C, 0xFF, 0x02]);
    b.write(0x02FF, 0x34);
    b.write(0x0300, 0x99);
    assert_eq!(c.step(&mut b), 5);
    assert_eq!(c.pc, 0x6C34);
}

#[test]
fn brk_pushes_state_and_takes_the_irq_vector() {
    let (mut c, mut b) = run_from_ram(&[0x00, 0xFF]);
    c.p = 0x20;
    assert_eq!(c.step(&mut b), 7);
    assert_eq!(c.pc, 0xA000);
    assert_eq!(c.p & I, I);
    assert_eq!(b.read(0x01FD), 0x02);
    assert_eq!(b.read(0x01FC), 0x02);
    assert_eq!(b.read(0x01FB), 0x30);
}

#[test]
fn nmi_and_masked_irq() {
    let (mut c, mut b) = run_from_ram(&[0xEA]);
    c.p = 0x24;
    c.irq(&mut b);
    assert_eq!(c.pc, 0x0200);
    c.nmi(&mut b);
    assert_eq!(c.pc, 0x9000);
    assert_eq!(c.cycles, 16);
    assert_eq!(b.read(0x01FB), 0x24);
    c.p = 0x20;
    c.pc = 0x1234;
    c.irq(&mut b);
    assert_eq!(c.pc, 0xA000);
    assert_eq!(c.cycles, 23);
}

#[test]
fn undefined_opcode_takes_two_cycles() {
    let (mut c, mut b) = run_from_ram(&[0x02]);
    assert_eq!(c.step(&mut b), 2);
    assert_eq!(c.pc, 0x0201);
}

#[test]
fn transfers_and_increments() {
    // LDA #$FF ; TAX ; INX ; TXA ; DEY ; TYA
    let (mut c, mut b) = run_from_ram(&[0xA9, 0xFF, 0xAA, 0xE8, 0x8A, 0x88, 0x98]);
    c.step(&mut b);
    c.step(&mut b);
    assert_eq!(c.x, 0xFF);
    c.step(&mut b);
    assert_eq!(c.x, 0);
    assert_eq!(c.p & Z, Z);
    c.step(&mut b);
    assert_eq!(c.a, 0);
    c.step(&mut b);
    assert_eq!(c.y, 0xFF);
    c.step(&mut b);
    assert_eq!(c.a, 0xFF);
    assert_eq!(c.p & N, N);
}

#[test]
fn nes_cpu_state_roundtrips_through_bytes() {
    let mut b = bus();
    let mut a = NesCpu::new();
    a.reset(&mut b);
    a.a = 0x12;
    a.x = 0x34;
    let mut buf = Vec::new();
    a.save(&mut buf);
    assert_eq!(buf.len(), 11);
    let mut c = NesCpu::new();
    let mut off = 0usize;
    c.load(&buf, &mut off);
    assert_eq!(off, 11);
    assert_eq!((c.a, c.x, c.pc, c.cycles), (0x12, 0x34, 0x8000, 8));
}

#[test]
fn bus_writes_reach_the_apu_ppu_and_mapper() {
    let mut b = bus();
    b.write(0x4015, 0x01);
    b.write(0x4003, 0x08);
    assert_eq!(b.apu.pulse1.length, 254);
    b.write(0x2000, 0x80);
    assert_eq!(b.ppu.ctrl, 0x80);
    b.write(0x2006, 0x21);
    b.write(0x2006, 0x00);
    b.write(0x2007, 0x5A);
    assert_eq!(b.ppu.v, 0x2101);
    b.write(0x2006, 0x21);
    b.write(0x2006, 0x00);
    assert_eq!(b.read(0x2007), 0x00); // the read buffer's old byte
    assert_eq!(b.read(0x2007), 0x5A);
}

#[test]
fn reading_ppustatus_through_the_bus_clears_vblank() {
    let mut b = bus();
    b.ppu.status = 0xE0;
    b.ppu.data_buffer = 0x1F;
    assert_eq!(b.read(0x2002), 0xFF);
    assert_eq!(b.ppu.status, 0x60);
    assert_eq!(b.read(0x3FFA), 0x7F); // mirrored every 8 bytes
}
