use rustboy_core::gb::cpu::{Cpu, Registers};
use rustboy_core::gb::mmu::Mmu;

/// A 32 KiB cartridge with `program` at the entry point 0x0100.
fn rom_with(program: &[u8]) -> Vec<u8> {
    let mut rom = vec![0u8; 0x8000];
    rom[0x100..0x100 + program.len()].copy_from_slice(program);
    rom
}

fn machine(program: &[u8]) -> (Cpu, Mmu) {
    (Cpu::new(), Mmu::new(rom_with(program)))
}

#[test]
fn cpu_starts_in_post_boot_state() {
    let cpu = Cpu::new();
    assert_eq!(cpu.regs.af(), 0x01B0);
    assert_eq!(cpu.regs.bc(), 0x0013);
    assert_eq!(cpu.regs.de(), 0x00D8);
    assert_eq!(cpu.regs.hl(), 0x014D);
    assert_eq!(cpu.regs.sp, 0xFFFE);
    assert_eq!(cpu.regs.pc, 0x0100);
    assert!(!cpu.ime && !cpu.halted && !cpu.stopped && !cpu.ime_pending);
}

#[test]
fn register_pairs_and_flag_nibble() {
    let mut r = Cpu::new().regs;
    r.set_af(0x12FF);
    assert_eq!(r.a, 0x12);
    assert_eq!(r.f, 0xF0);
    r.set_bc(0xBEEF);
    assert_eq!((r.b, r.c), (0xBE, 0xEF));
    r.set_de(0x1234);
    assert_eq!(r.de(), 0x1234);
    r.set_hl(0xC000);
    assert_eq!(r.hl(), 0xC000);
    r.set_flags(true, false, true, false);
    assert_eq!(r.f, 0xA0);
    assert!(r.flag_z() && !r.flag_n() && r.flag_h() && !r.flag_c());
}

#[test]
fn registers_are_copyable_values() {
    let r: Registers = Cpu::new().regs;
    let s = r;
    assert_eq!(r.pc, s.pc);
}

#[test]
fn inc_and_dec_set_zero_and_half_carry() {
    let mut cpu = Cpu::new();
    cpu.regs.f = 0x10;
    assert_eq!(cpu.inc8(0xFF), 0x00);
    assert_eq!(cpu.regs.f, 0xB0);
    assert_eq!(cpu.inc8(0x0F), 0x10);
    assert_eq!(cpu.regs.f, 0x30);
    assert_eq!(cpu.dec8(0x01), 0x00);
    assert_eq!(cpu.regs.f, 0xD0);
    assert_eq!(cpu.dec8(0x10), 0x0F);
    assert_eq!(cpu.regs.f, 0x70);
}

#[test]
fn add_and_sub_set_carries() {
    let mut cpu = Cpu::new();
    cpu.regs.a = 0x3A;
    cpu.add_a(0xC6, false);
    assert_eq!(cpu.regs.a, 0x00);
    assert_eq!(cpu.regs.f, 0xB0);
    cpu.regs.a = 0x0F;
    cpu.regs.f = 0x10;
    cpu.add_a(0x00, true);
    assert_eq!(cpu.regs.a, 0x10);
    assert_eq!(cpu.regs.f, 0x20);
    cpu.regs.a = 0x3E;
    cpu.sub_a(0x3E, false);
    assert_eq!(cpu.regs.a, 0);
    assert_eq!(cpu.regs.f, 0xC0);
    cpu.regs.a = 0x10;
    cpu.sub_a(0x20, false);
    assert_eq!(cpu.regs.a, 0xF0);
    assert_eq!(cpu.regs.f, 0x50);
    cpu.regs.a = 0x3C;
    cpu.cp_a(0x40);
    assert_eq!(cpu.regs.a, 0x3C);
    assert_eq!(cpu.regs.f, 0x50);
}

#[test]
fn logic_operations() {
    let mut cpu = Cpu::new();
    cpu.regs.a = 0x5A;
    cpu.and_a(0x3F);
    assert_eq!(cpu.regs.a, 0x1A);
    assert_eq!(cpu.regs.f, 0x20);
    cpu.or_a(0x00);
    assert_eq!(cpu.regs.f, 0x00);
    cpu.xor_a(0x1A);
    assert_eq!(cpu.regs.a, 0);
    assert_eq!(cpu.regs.f, 0x80);
}

#[test]
fn add_hl_keeps_zero_flag() {
    let mut cpu = Cpu::new();
    cpu.regs.set_hl(0x8A23);
    cpu.regs.f = 0x80;
    cpu.add_hl(0x8A23);
    assert_eq!(cpu.regs.hl(), 0x1446);
    assert_eq!(cpu.regs.f, 0xB0);
}

#[test]
fn daa_corrects_bcd_addition() {
    let mut cpu = Cpu::new();
    cpu.regs.a = 0x45;
    cpu.add_a(0x38, false);
    assert_eq!(cpu.regs.a, 0x7D);
    cpu.daa();
    assert_eq!(cpu.regs.a, 0x83);
    assert!(!cpu.regs.flag_c());
    cpu.regs.a = 0x99;
    cpu.add_a(0x01, false);
    cpu.daa();
    assert_eq!(cpu.regs.a, 0x00);
    assert!(cpu.regs.flag_z() && cpu.regs.flag_c());
}

#[test]
fn rotates_and_shifts() {
    let mut cpu = Cpu::new();
    cpu.regs.a = 0x85;
    cpu.regs.f = 0;
    cpu.rlca();
    assert_eq!(cpu.regs.a, 0x0B);
    assert_eq!(cpu.regs.f, 0x10);
    cpu.rra();
    assert_eq!(cpu.regs.a, 0x85);
    assert_eq!(cpu.regs.f, 0x10);
    assert_eq!(cpu.op_swap(0xF1), 0x1F);
    assert_eq!(cpu.op_sla(0x80), 0x00);
    assert_eq!(cpu.regs.f, 0x90);
    assert_eq!(cpu.op_sra(0x81), 0xC0);
    assert_eq!(cpu.regs.f, 0x10);
    assert_eq!(cpu.op_srl(0x01), 0x00);
    assert_eq!(cpu.regs.f, 0x90);
    cpu.regs.f = 0x10;
    assert_eq!(cpu.op_rl(0x80), 0x01);
    assert_eq!(cpu.regs.f, 0x10);
    assert_eq!(cpu.op_rr(0x01), 0x80);
    assert_eq!(cpu.op_rlc(0x80), 0x01);
    assert_eq!(cpu.op_rrc(0x01), 0x80);
}

#[test]
fn load_immediate_and_add_program() {
    // LD A,0x12 ; LD B,0x34 ; ADD A,B
    let (mut cpu, mut mmu) = machine(&[0x3E, 0x12, 0x06, 0x34, 0x80]);
    assert_eq!(cpu.step(&mut mmu), 8);
    assert_eq!(cpu.step(&mut mmu), 8);
    assert_eq!(cpu.step(&mut mmu), 4);
    assert_eq!(cpu.regs.a, 0x46);
    assert_eq!(cpu.regs.pc, 0x105);
}

#[test]
fn store_and_load_through_memory() {
    // LD A,0x99 ; LD (0xC123),A ; XOR A ; LD A,(0xC123)
    let (mut cpu, mut mmu) = machine(&[0x3E, 0x99, 0xEA, 0x23, 0xC1, 0xAF, 0xFA, 0x23, 0xC1]);
    cpu.step(&mut mmu);
    assert_eq!(cpu.step(&mut mmu), 16);
    assert_eq!(mmu.read_byte(0xC123), 0x99);
    cpu.step(&mut mmu);
    assert_eq!(cpu.regs.a, 0);
    assert_eq!(cpu.step(&mut mmu), 16);
    assert_eq!(cpu.regs.a, 0x99);
}

#[test]
fn call_and_return() {
    // CALL 0x0110 ; ... at 0x0110: RET
    let mut program = vec![0u8; 0x20];
    program[0] = 0xCD;
    program[1] = 0x10;
    program[2] = 0x01;
    program[0x10] = 0xC9;
    let (mut cpu, mut mmu) = machine(&program);
    assert_eq!(cpu.step(&mut mmu), 24);
    assert_eq!(cpu.regs.pc, 0x0110);
    assert_eq!(cpu.regs.sp, 0xFFFC);
    assert_eq!(mmu.read_byte(0xFFFC), 0x03);
    assert_eq!(mmu.read_byte(0xFFFD), 0x01);
    assert_eq!(cpu.step(&mut mmu), 16);
    assert_eq!(cpu.regs.pc, 0x0103);
    assert_eq!(cpu.regs.sp, 0xFFFE);
}

#[test]
fn push_then_pop_moves_a_pair() {
    // LD BC,0xBEEF ; PUSH BC ; POP DE
    let (mut cpu, mut mmu) = machine(&[0x01, 0xEF, 0xBE, 0xC5, 0xD1]);
    assert_eq!(cpu.step(&mut mmu), 12);
    assert_eq!(cpu.step(&mut mmu), 16);
    assert_eq!(cpu.step(&mut mmu), 12);
    assert_eq!(cpu.regs.de(), 0xBEEF);
    assert_eq!(cpu.regs.sp, 0xFFFE);
}

#[test]
fn relative_jump_taken_and_not_taken() {
    // XOR A (Z set) ; JR NZ,+2 (not taken) ; JR Z,-4 (taken)
    let (mut cpu, mut mmu) = machine(&[0xAF, 0x20, 0x02, 0x28, 0xFC]);
    cpu.step(&mut mmu);
    assert_eq!(cpu.step(&mut mmu), 8);
    assert_eq!(cpu.regs.pc, 0x0103);
    assert_eq!(cpu.step(&mut mmu), 12);
    assert_eq!(cpu.regs.pc, 0x0101);
}

#[test]
fn cb_prefixed_bit_and_swap() {
    // LD A,0xF0 ; SWAP A ; BIT 0,A
    let (mut cpu, mut mmu) = machine(&[0x3E, 0xF0, 0xCB, 0x37, 0xCB, 0x47]);
    cpu.step(&mut mmu);
    assert_eq!(cpu.step(&mut mmu), 8);
    assert_eq!(cpu.regs.a, 0x0F);
    assert_eq!(cpu.step(&mut mmu), 8);
    assert!(!cpu.regs.flag_z());
    assert!(cpu.regs.flag_h());
}

#[test]
fn undefined_opcode_is_a_nop() {
    let (mut cpu, mut mmu) = machine(&[0xD3]);
    assert_eq!(cpu.step(&mut mmu), 4);
    assert_eq!(cpu.regs.pc, 0x0101);
}

#[test]
fn halt_idles_until_an_interrupt_is_pending() {
    let (mut cpu, mut mmu) = machine(&[0x76, 0x00]);
    cpu.step(&mut mmu);
    assert!(cpu.halted);
    assert_eq!(cpu.step(&mut mmu), 4);
    assert_eq!(cpu.regs.pc, 0x0101);
    // IME is clear: the interrupt wakes the CPU but is not served.
    mmu.interrupt_enable = 0x01;
    mmu.interrupt_flag = 0x01;
    assert_eq!(cpu.handle_interrupts(&mut mmu), 0);
    assert!(!cpu.halted);
}

#[test]
fn interrupt_dispatch_serves_the_lowest_pending_bit() {
    let (mut cpu, mut mmu) = machine(&[0x00]);
    cpu.ime = true;
    mmu.interrupt_enable = 0x1F;
    mmu.interrupt_flag = 0x06;
    assert_eq!(cpu.handle_interrupts(&mut mmu), 20);
    assert_eq!(cpu.regs.pc, 0x0048);
    assert!(!cpu.ime);
    assert_eq!(mmu.interrupt_flag & 0x1F, 0x04);
    assert_eq!(cpu.regs.sp, 0xFFFC);
    assert_eq!(mmu.read_byte(0xFFFC), 0x00);
    assert_eq!(mmu.read_byte(0xFFFD), 0x01);
}

#[test]
fn no_pending_interrupt_takes_no_cycles() {
    let (mut cpu, mut mmu) = machine(&[0x00]);
    cpu.ime = true;
    mmu.interrupt_enable = 0x01;
    mmu.interrupt_flag = 0x02;
    assert_eq!(cpu.handle_interrupts(&mut mmu), 0);
    assert_eq!(cpu.regs.pc, 0x0100);
}

#[test]
fn ei_takes_effect_after_the_next_instruction() {
    let (mut cpu, mut mmu) = machine(&[0xFB, 0x00, 0xF3]);
    cpu.step(&mut mmu);
    assert!(!cpu.ime && cpu.ime_pending);
    cpu.step(&mut mmu);
    assert!(cpu.ime);
    cpu.step(&mut mmu);
    assert!(!cpu.ime);
}

#[test]
fn cpu_state_roundtrips_through_bytes() {
    let mut cpu = Cpu::new();
    cpu.regs.set_bc(0x1234);
    cpu.regs.pc = 0xABCD;
    cpu.halted = true;
    let mut buf = Vec::new();
    cpu.save(&mut buf);
    assert_eq!(buf.len(), 16);
    let mut other = Cpu::new();
    let mut off = 0usize;
    other.load(&buf, &mut off);
    assert_eq!(off, 16);
    assert_eq!(other.regs.bc(), 0x1234);
    assert_eq!(other.regs.pc, 0xABCD);
    assert!(other.halted);
}

#[test]
fn loading_clears_the_low_bits_of_f() {
    let mut cpu = Cpu::new();
    let data: Vec<u8> = vec![0x12, 0xBF, 1, 2, 3, 4, 5, 6, 0x34, 0x12, 0x78, 0x56, 1, 0, 0, 1];
    let mut off = 0usize;
    cpu.load(&data, &mut off);
    assert_eq!(off, 16);
    assert_eq!(cpu.regs.a, 0x12);
    assert_eq!(cpu.regs.f, 0xB0);
    assert_eq!(cpu.regs.sp, 0x1234);
    assert_eq!(cpu.regs.pc, 0x5678);
    assert!(cpu.ime && !cpu.halted && !cpu.stopped && cpu.ime_pending);
}

#[test]
fn add_then_daa_adds_in_decimal() {
    let mut cpu = Cpu::new();
    cpu.regs.a = 0x58;
    cpu.add_a(0x67, false);
    cpu.daa();
    assert_eq!(cpu.regs.a, 0x25);
    assert!(cpu.regs.flag_c());
}
