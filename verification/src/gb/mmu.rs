//! Memory bus of the Game Boy DMG.
//!
//! Memory map:
//!   0x0000-0x7FFF  ROM (cartridge, banked for MBC1)
//!   0x8000-0x9FFF  VRAM (PPU)
//!   0xA000-0xBFFF  external RAM
//!   0xC000-0xDFFF  work RAM
//!   0xE000-0xFDFF  echo RAM (mirrors work RAM)
//!   0xFE00-0xFE9F  OAM (PPU)
//!   0xFEA0-0xFEFF  unused
//!   0xFF00-0xFF7F  I/O registers
//!   0xFF80-0xFFFE  high RAM
//!   0xFFFF         interrupt enable register

use vstd::prelude::*;
use crate::bits::{bit_set, byte_or, clear_bit, get_byte_or, set_bit, with_bit_cleared, with_bit_set};
use crate::gb::apu::{apu_bytes, apu_bytes_len, apu_reg_spec, repeat_sample, sample_levels, Apu, CPU_CLOCK, SAMPLE_RATE};
use crate::gb::ppu::{
    mode_threshold, ppu_bytes, ppu_bytes_len, ppu_from_bytes, ppu_step_spec, ppu_wf, Ppu, PpuMode, PpuView, OAM_SIZE,
};
use crate::gb::timer::{tac_running, tima_after, tima_overflowed, tac_period, timer_bytes, Timer};
use crate::save_state::{
    bool_byte, dec32, fits_len_prefixed, le32, len_prefixed, read_bool, read_bytes, read_slice,
    read_u32, read_u8, write_bool, write_bytes, write_slice, write_u32, write_u8,
};

verus! {

pub const WORK_RAM_SIZE: usize = 0x2000;

pub const HIGH_RAM_SIZE: usize = 0x7F;

/// Interrupt request bits in IF / IE.
pub const INT_VBLANK: u8 = 0;

pub const INT_STAT: u8 = 1;

pub const INT_TIMER: u8 = 2;

pub const INT_JOYPAD: u8 = 4;

#[derive(Clone, Copy, PartialEq, Eq, Structural, Debug)]
pub enum MbcType {
    RomOnly,
    Mbc1,
}

/// The memory controller named by the cartridge type byte (header 0x0147).
pub open spec fn mbc_type_of(header: u8) -> MbcType {
    if header == 0 {
        MbcType::RomOnly
    } else {
        MbcType::Mbc1
    }
}

/// External RAM size named by the RAM size byte (header 0x0149).
pub open spec fn ext_ram_size_of(header: u8) -> nat {
    if header == 1 {
        2 * 1024
    } else if header == 3 {
        32 * 1024
    } else {
        8 * 1024
    }
}

/// The memory-bank-controller registers: type, ROM bank, RAM bank, RAM enable, banking mode.
pub type MbcState = (MbcType, u8, u8, bool, bool);

/// The effect of a write to the ROM area (0x0000-0x7FFF) on the MBC registers.
pub open spec fn mbc_write_spec(s: MbcState, addr: u16, val: u8) -> MbcState {
    let (ty, rom_bank, ram_bank, ram_enabled, mode) = s;
    if ty == MbcType::RomOnly {
        s
    } else if addr < 0x2000 {
        (ty, rom_bank, ram_bank, val % 16 == 0x0A, mode)
    } else if addr < 0x4000 {
        let low: int = if val % 32 == 0 { 1 } else { (val % 32) as int };
        (ty, ((rom_bank / 32) % 4 * 32 + low) as u8, ram_bank, ram_enabled, mode)
    } else if addr < 0x6000 {
        if mode {
            (ty, rom_bank, val % 4, ram_enabled, mode)
        } else {
            (ty, (rom_bank % 32 + (val % 4) * 32) as u8, ram_bank, ram_enabled, mode)
        }
    } else {
        (ty, rom_bank, ram_bank, ram_enabled, val % 2 == 1)
    }
}

/// The value the joypad register P1 reads: the selected button group, 0 bits pressed.
pub open spec fn joypad_spec(select: u8, action: u8, direction: u8) -> u8 {
    let sel = (select / 16) % 4;
    if sel / 2 == 0 {
        (0xC0 + sel * 16 + action % 16) as u8
    } else if sel % 2 == 0 {
        (0xC0 + sel * 16 + direction % 16) as u8
    } else {
        0xFF
    }
}

/// The bus after button `button` (Right=0, Left=1, Up=2, Down=3, A=4, B=5, Select=6,
/// Start=7) is pressed or released: its line goes low (0) when pressed, and a press requests
/// the joypad interrupt.
pub open spec fn joypad_pressed(m: &Mmu, button: u8, pressed: bool) -> Mmu {
    let direction = if button < 4 {
        if pressed { clear_bit(m.joypad_direction, button) } else { set_bit(m.joypad_direction, button) }
    } else {
        m.joypad_direction
    };
    let action = if button >= 4 {
        let b = (button - 4) as u8;
        if pressed { clear_bit(m.joypad_action, b) } else { set_bit(m.joypad_action, b) }
    } else {
        m.joypad_action
    };
    Mmu {
        joypad_direction: direction,
        joypad_action: action,
        interrupt_flag: if pressed { set_bit(m.interrupt_flag, INT_JOYPAD) } else { m.interrupt_flag },
        ..*m
    }
}

pub struct Mmu {
    pub rom: Vec<u8>,
    pub ext_ram: Vec<u8>,
    pub work_ram: Vec<u8>,
    pub high_ram: Vec<u8>,
    pub ppu: Ppu,
    pub apu: Apu,
    pub timer: Timer,
    /// 0xFF0F
    pub interrupt_flag: u8,
    /// 0xFFFF
    pub interrupt_enable: u8,
    /// P1 bits 5-4: 0 selects the action (bit 5) or direction (bit 4) buttons.
    pub joypad_select: u8,
    /// A, B, Select, Start in bits 0-3; 0 = pressed.
    pub joypad_action: u8,
    /// Right, Left, Up, Down in bits 0-3; 0 = pressed.
    pub joypad_direction: u8,
    pub mbc_type: MbcType,
    pub rom_bank: u8,
    pub ram_bank: u8,
    pub ram_enabled: bool,
    /// false = ROM banking mode, true = RAM banking mode.
    pub mbc1_mode: bool,
    pub dma_active: bool,
    pub dma_source: u8,
    pub dma_index: u8,
    pub dma_cycles: u32,
    pub serial_data: u8,
    pub serial_control: u8,
}

/// The MBC registers of a memory bus.
pub open spec fn mbc_state(m: &Mmu) -> MbcState {
    (m.mbc_type, m.rom_bank, m.ram_bank, m.ram_enabled, m.mbc1_mode)
}

/// Interrupt, joypad, DMA and serial registers of a memory bus.
pub open spec fn io_regs(m: &Mmu) -> (u8, u8, u8, u8, u8, bool, u8, u8, u32, u8, u8) {
    (
        m.interrupt_flag,
        m.interrupt_enable,
        m.joypad_select,
        m.joypad_action,
        m.joypad_direction,
        m.dma_active,
        m.dma_source,
        m.dma_index,
        m.dma_cycles,
        m.serial_data,
        m.serial_control,
    )
}

/// Index into external RAM of an address in 0xA000-0xBFFF.
pub open spec fn ext_ram_index(m: &Mmu, addr: u16) -> int {
    (if m.mbc1_mode { m.ram_bank as int } else { 0 }) * 0x2000 + (addr - 0xA000)
}

/// The value the CPU reads from an I/O register (0xFF00-0xFF7F).
pub open spec fn io_read_spec(m: &Mmu, addr: u16) -> u8 {
    if addr == 0xFF00 {
        joypad_spec(m.joypad_select, m.joypad_action, m.joypad_direction)
    } else if addr == 0xFF01 {
        m.serial_data
    } else if addr == 0xFF02 {
        m.serial_control
    } else if addr == 0xFF04 {
        (m.timer.internal_counter / 256) as u8
    } else if addr == 0xFF05 {
        m.timer.tima
    } else if addr == 0xFF06 {
        m.timer.tma
    } else if addr == 0xFF07 {
        m.timer.tac
    } else if addr == 0xFF0F {
        (m.interrupt_flag % 32 + 0xE0) as u8
    } else if 0xFF10 <= addr <= 0xFF3F {
        apu_reg_spec(&m.apu, addr)
    } else if addr == 0xFF40 {
        m.ppu.lcdc
    } else if addr == 0xFF41 {
        (m.ppu.stat % 128 + 128) as u8
    } else if addr == 0xFF42 {
        m.ppu.scy
    } else if addr == 0xFF43 {
        m.ppu.scx
    } else if addr == 0xFF44 {
        m.ppu.ly
    } else if addr == 0xFF45 {
        m.ppu.lyc
    } else if addr == 0xFF46 {
        m.dma_source
    } else if addr == 0xFF47 {
        m.ppu.bgp
    } else if addr == 0xFF48 {
        m.ppu.obp0
    } else if addr == 0xFF49 {
        m.ppu.obp1
    } else if addr == 0xFF4A {
        m.ppu.wy
    } else if addr == 0xFF4B {
        m.ppu.wx
    } else {
        0xFF
    }
}

/// The value the CPU reads at any address.
#[verifier::opaque]
pub open spec fn mem_read_spec(m: &Mmu, addr: u16) -> u8 {
    if addr < 0x4000 {
        byte_or(m.rom@, addr as int, 0xFF)
    } else if addr < 0x8000 {
        byte_or(m.rom@, m.rom_bank * 0x4000 + (addr - 0x4000), 0xFF)
    } else if addr < 0xA000 {
        if m.ppu.mode == PpuMode::Drawing {
            0xFF
        } else {
            m.ppu.vram@[addr - 0x8000]
        }
    } else if addr < 0xC000 {
        if m.ram_enabled && m.ext_ram@.len() > 0 {
            byte_or(m.ext_ram@, ext_ram_index(m, addr), 0xFF)
        } else {
            0xFF
        }
    } else if addr < 0xE000 {
        m.work_ram@[addr - 0xC000]
    } else if addr < 0xFE00 {
        m.work_ram@[addr - 0xE000]
    } else if addr < 0xFEA0 {
        if m.ppu.mode == PpuMode::OamScan || m.ppu.mode == PpuMode::Drawing {
            0xFF
        } else {
            m.ppu.oam@[addr - 0xFE00]
        }
    } else if addr < 0xFF00 {
        0xFF
    } else if addr < 0xFF80 {
        io_read_spec(m, addr)
    } else if addr < 0xFFFF {
        m.high_ram@[addr - 0xFF80]
    } else {
        m.interrupt_enable
    }
}

/// OAM after a DMA transfer from page `page`, read through the bus `m`.
pub open spec fn dma_oam(m: &Mmu, page: u8) -> Seq<u8> {
    Seq::new(OAM_SIZE as nat, |i: int| mem_read_spec(m, (page * 256 + i) as u16))
}

/// The effect of a write to an I/O register (0xFF00-0xFF7F).
#[verifier::opaque]
pub open spec fn io_write_rel(a: &Mmu, b: &Mmu, addr: u16, val: u8) -> bool {
    let r = io_regs(a);
    &&& b.rom@ == a.rom@ && b.ext_ram@ == a.ext_ram@ && b.work_ram@ == a.work_ram@
    &&& b.high_ram@ == a.high_ram@
    &&& mbc_state(b) == mbc_state(a)
    &&& (0xFF10 <= addr <= 0xFF3F) || b.apu == a.apu
    &&& (addr == 0xFF04 || addr == 0xFF05 || addr == 0xFF06 || addr == 0xFF07) || b.timer == a.timer
    &&& if addr == 0xFF00 {
        io_regs(b) == (r.0, r.1, ((val / 16) % 4 * 16) as u8, r.3, r.4, r.5, r.6, r.7, r.8, r.9, r.10)
            && b.ppu@ == a.ppu@
    } else if addr == 0xFF01 {
        io_regs(b) == (r.0, r.1, r.2, r.3, r.4, r.5, r.6, r.7, r.8, val, r.10) && b.ppu@ == a.ppu@
    } else if addr == 0xFF02 {
        io_regs(b) == (r.0, r.1, r.2, r.3, r.4, r.5, r.6, r.7, r.8, r.9, val) && b.ppu@ == a.ppu@
    } else if addr == 0xFF04 {
        io_regs(b) == r && b.ppu@ == a.ppu@ && b.timer == (Timer {
            internal_counter: 0,
            tima_cycles: 0,
            ..a.timer
        })
    } else if addr == 0xFF05 {
        io_regs(b) == r && b.ppu@ == a.ppu@ && b.timer == (Timer { tima: val, ..a.timer })
    } else if addr == 0xFF06 {
        io_regs(b) == r && b.ppu@ == a.ppu@ && b.timer == (Timer { tma: val, ..a.timer })
    } else if addr == 0xFF07 {
        io_regs(b) == r && b.ppu@ == a.ppu@ && b.timer == (Timer { tac: val % 8, ..a.timer })
    } else if addr == 0xFF0F {
        io_regs(b) == (val, r.1, r.2, r.3, r.4, r.5, r.6, r.7, r.8, r.9, r.10) && b.ppu@ == a.ppu@
    } else if 0xFF10 <= addr <= 0xFF3F {
        io_regs(b) == r && b.ppu@ == a.ppu@ && b.apu.wf() && crate::gb::apu::apu_write_rel(&a.apu, &b.apu, addr, val)
    } else if addr == 0xFF40 {
        io_regs(b) == r && b.ppu@ == (PpuView { lcdc: val, ..a.ppu@ })
    } else if addr == 0xFF41 {
        io_regs(b) == r && b.ppu@ == (PpuView {
            stat: (a.ppu.stat % 8 + (val / 8) % 16 * 8) as u8,
            ..a.ppu@
        })
    } else if addr == 0xFF42 {
        io_regs(b) == r && b.ppu@ == (PpuView { scy: val, ..a.ppu@ })
    } else if addr == 0xFF43 {
        io_regs(b) == r && b.ppu@ == (PpuView { scx: val, ..a.ppu@ })
    } else if addr == 0xFF45 {
        io_regs(b) == r && b.ppu@ == (PpuView { lyc: val, ..a.ppu@ })
    } else if addr == 0xFF46 {
        let a1 = Mmu { dma_source: val, dma_active: true, dma_index: 0, dma_cycles: 0, ..*a };
        io_regs(b) == io_regs(&a1) && b.ppu@ == (PpuView { oam: dma_oam(&a1, val), ..a.ppu@ })
    } else if addr == 0xFF47 {
        io_regs(b) == r && b.ppu@ == (PpuView { bgp: val, ..a.ppu@ })
    } else if addr == 0xFF48 {
        io_regs(b) == r && b.ppu@ == (PpuView { obp0: val, ..a.ppu@ })
    } else if addr == 0xFF49 {
        io_regs(b) == r && b.ppu@ == (PpuView { obp1: val, ..a.ppu@ })
    } else if addr == 0xFF4A {
        io_regs(b) == r && b.ppu@ == (PpuView { wy: val, ..a.ppu@ })
    } else if addr == 0xFF4B {
        io_regs(b) == r && b.ppu@ == (PpuView { wx: val, ..a.ppu@ })
    } else {
        io_regs(b) == r && b.ppu@ == a.ppu@
    }
}

/// The effect of a CPU write of `val` at `addr`: `b` is the bus after the write to `a`.
#[verifier::opaque]
pub open spec fn mem_write_rel(a: &Mmu, b: &Mmu, addr: u16, val: u8) -> bool {
    if 0xFF00 <= addr < 0xFF80 {
        io_write_rel(a, b, addr, val)
    } else {
        &&& b.rom@ == a.rom@
        &&& b.apu == a.apu
        &&& b.timer == a.timer
        &&& mbc_state(b) == if addr < 0x8000 {
            mbc_write_spec(mbc_state(a), addr, val)
        } else {
            mbc_state(a)
        }
        &&& io_regs(b) == if addr == 0xFFFF {
            let r = io_regs(a);
            (r.0, val, r.2, r.3, r.4, r.5, r.6, r.7, r.8, r.9, r.10)
        } else {
            io_regs(a)
        }
        &&& b.ppu@ == if 0x8000 <= addr < 0xA000 && a.ppu.mode != PpuMode::Drawing {
            PpuView { vram: a.ppu@.vram.update(addr - 0x8000, val), ..a.ppu@ }
        } else if 0xFE00 <= addr < 0xFEA0 && a.ppu.mode != PpuMode::OamScan && a.ppu.mode
            != PpuMode::Drawing {
            PpuView { oam: a.ppu@.oam.update(addr - 0xFE00, val), ..a.ppu@ }
        } else {
            a.ppu@
        }
        &&& b.ext_ram@ == if 0xA000 <= addr < 0xC000 && a.ram_enabled && 0 <= ext_ram_index(a, addr)
            < a.ext_ram@.len() {
            a.ext_ram@.update(ext_ram_index(a, addr), val)
        } else {
            a.ext_ram@
        }
        &&& b.work_ram@ == if 0xC000 <= addr < 0xE000 {
            a.work_ram@.update(addr - 0xC000, val)
        } else if 0xE000 <= addr < 0xFE00 {
            a.work_ram@.update(addr - 0xE000, val)
        } else {
            a.work_ram@
        }
        &&& b.high_ram@ == if 0xFF80 <= addr < 0xFFFF {
            a.high_ram@.update(addr - 0xFF80, val)
        } else {
            a.high_ram@
        }
    }
}

/// IF after merging the PPU's VBlank (bit 0) and STAT (bit 1) requests.
pub open spec fn irq_merge(flag: u8, vblank: bool, stat: bool) -> u8 {
    let f1 = if vblank { set_bit(flag, INT_VBLANK) } else { flag };
    if stat { set_bit(f1, INT_STAT) } else { f1 }
}

/// A PPU step from `a` through `p` to `b`, whose interrupt requests move from the PPU into IF.
pub open spec fn ppu_tick_rel(a: PpuView, flag_a: u8, p: PpuView, b: PpuView, flag_b: u8, cycles: u32) -> bool {
    &&& (if bit_set(a.lcdc, 7) {
        ppu_step_spec(a, p, cycles)
    } else {
        p == a
    })
    &&& b == (PpuView { vblank_irq: false, stat_irq: false, ..p })
    &&& flag_b == irq_merge(flag_a, p.vblank_irq, p.stat_irq)
}

/// Bus `b` is `a` after writing `val` at `addr` and then at `addr + 1`, through `mid`.
pub open spec fn word_steps(a: &Mmu, mid: Mmu, b: &Mmu, addr: u16, val: u16) -> bool {
    &&& mid.wf()
    &&& mem_write_rel(a, &mid, addr, (val % 256) as u8)
    &&& mem_write_rel(&mid, b, ((addr + 1) % 0x1_0000) as u16, (val / 256) as u8)
}

/// Bus `b` is `a` after writing the 16-bit `val` at `addr`, low byte first.
pub open spec fn wrote_word(a: &Mmu, b: &Mmu, addr: u16, val: u16) -> bool {
    exists|mid: Mmu| #[trigger] word_steps(a, mid, b, addr, val)
}

/// What CPU accesses never change: the ROM, the external RAM size, the PPU's mode and
/// cycle position.
pub open spec fn bus_frame(a: &Mmu, b: &Mmu) -> bool {
    &&& b.rom@ == a.rom@
    &&& b.ext_ram@.len() == a.ext_ram@.len()
    &&& b.ppu.mode == a.ppu.mode
    &&& b.ppu.cycle_counter == a.ppu.cycle_counter
}

/// The serialized bus state (ROM excluded).
pub open spec fn mmu_bytes(m: &Mmu) -> Seq<u8> {
    m.work_ram@ + m.high_ram@ + len_prefixed(m.ext_ram@) + mmu_reg_bytes(m) + timer_bytes(
        m.timer.internal_counter,
        m.timer.tima,
        m.timer.tma,
        m.timer.tac,
        m.timer.tima_cycles,
    ) + ppu_bytes(m.ppu@) + apu_bytes(&m.apu)
}

/// The serialized interrupt, joypad, MBC, DMA and serial registers (19 bytes).
pub open spec fn mmu_reg_bytes(m: &Mmu) -> Seq<u8> {
    seq![
        m.interrupt_flag,
        m.interrupt_enable,
        m.joypad_select,
        m.joypad_action,
        m.joypad_direction,
        if m.mbc_type == MbcType::Mbc1 { 1u8 } else { 0u8 },
        m.rom_bank,
        m.ram_bank,
        bool_byte(m.ram_enabled),
        bool_byte(m.mbc1_mode),
        bool_byte(m.dma_active),
        m.dma_source,
        m.dma_index,
    ] + le32(m.dma_cycles) + seq![m.serial_data, m.serial_control]
}

/// Length of the serialized bus after the external RAM.
pub open spec fn mmu_tail_len() -> int {
    19 + 9 + ppu_bytes_len() + apu_bytes_len()
}

/// What `step_timer` does to the bus: the divider and TIMA count, an overflow requests the
/// timer interrupt, and the rest of the bus that it leaves alone.
pub open spec fn timer_step_rel(a: &Mmu, b: &Mmu, cycles: u32) -> bool {
    &&& (({
                let t = a.timer;
                let k = ((t.tima_cycles + cycles) / tac_period(t.tac) as int) as nat;
                let irq = tac_running(t.tac) && tima_overflowed(t.tima, t.tma, k);
                b.interrupt_flag == if irq {
                    set_bit(a.interrupt_flag, INT_TIMER)
                } else {
                    a.interrupt_flag
                }
            }))
    &&& (b.timer.internal_counter == (a.timer.internal_counter + cycles)
                % 0x1_0000)
    &&& (tac_running(a.timer.tac) ==> b.timer.tima == tima_after(
                a.timer.tima,
                a.timer.tma,
                ((a.timer.tima_cycles + cycles) / tac_period(a.timer.tac) as int) as nat,
            ))
    &&& (!tac_running(a.timer.tac) ==> b.timer.tima == a.timer.tima)
    &&& (b.ppu == a.ppu)
    &&& (b.apu == a.apu)
    &&& (b.rom@ == a.rom@)
    &&& (b.ext_ram@ == a.ext_ram@)
    &&& (b.work_ram@ == a.work_ram@)
    &&& (b.high_ram@ == a.high_ram@)
    &&& (b.interrupt_enable == a.interrupt_enable)
    &&& (mbc_state(b) == mbc_state(a))
}

/// What `step_ppu` does to the bus: one PPU step with its interrupt requests, and the rest of
/// the bus that it leaves alone.
pub open spec fn ppu_step_rel(a: &Mmu, b: &Mmu, cycles: u32) -> bool {
    &&& (exists|p: PpuView|
                #[trigger] ppu_tick_rel(
                    a.ppu@,
                    a.interrupt_flag,
                    p,
                    b.ppu@,
                    b.interrupt_flag,
                    cycles,
                ))
    &&& (!b.ppu.vblank_irq && !b.ppu.stat_irq)
    &&& (b.apu == a.apu)
    &&& (b.timer == a.timer)
    &&& (b.rom@ == a.rom@)
    &&& (b.ext_ram@ == a.ext_ram@)
    &&& (b.work_ram@ == a.work_ram@)
    &&& (b.high_ram@ == a.high_ram@)
    &&& (b.interrupt_enable == a.interrupt_enable)
    &&& (mbc_state(b) == mbc_state(a))
}

/// What `step_apu` does to the bus: the samples it records, and the rest of the bus that it
/// leaves alone.
pub open spec fn apu_step_rel(a: &Mmu, b: &Mmu, cycles: u32) -> bool {
    &&& (b.ppu == a.ppu)
    &&& (b.timer == a.timer)
    &&& (b.rom@ == a.rom@)
    &&& (b.ext_ram@ == a.ext_ram@)
    &&& (b.work_ram@ == a.work_ram@)
    &&& (b.high_ram@ == a.high_ram@)
    &&& (io_regs(b) == io_regs(a))
    &&& (mbc_state(b) == mbc_state(a))
    &&& (b.apu == Apu {
        buffer: b.apu.buffer,
        frame_seq_cycles: ((a.apu.frame_seq_cycles + cycles) % crate::gb::apu::FRAME_SEQ_PERIOD as int) as u32,
        cycle_acc: ((a.apu.cycle_acc + cycles * SAMPLE_RATE) % CPU_CLOCK as int) as u32,
        ..crate::gb::apu::apu_stepped(a.apu, cycles as int)
    })
    &&& (b.apu.buffer@ == a.apu.buffer@ + repeat_sample(
                sample_levels(&b.apu),
                ((a.apu.cycle_acc + cycles * SAMPLE_RATE) / CPU_CLOCK as int) as nat,
            ))
}

impl Mmu {
    pub open spec fn wf(&self) -> bool {
        &&& self.work_ram@.len() == WORK_RAM_SIZE
        &&& self.high_ram@.len() == HIGH_RAM_SIZE
        &&& ppu_wf(self.ppu@)
        &&& self.apu.wf()
        &&& self.timer.wf()
    }

    /// A bus for the cartridge `rom`; the controller and RAM size come from its header.
    pub fn new(rom: Vec<u8>) -> (m: Self)
        ensures
            m.wf(),
            m.rom == rom,
            m.ppu.mode == PpuMode::OamScan && m.ppu.cycle_counter == 0,
            m.mbc_type == mbc_type_of(byte_or(rom@, 0x0147, 0)),
            m.ext_ram@ == Seq::new(ext_ram_size_of(byte_or(rom@, 0x0149, 0)), |i: int| 0u8),
            m.work_ram@ == Seq::new(WORK_RAM_SIZE as nat, |i: int| 0u8),
            m.high_ram@ == Seq::new(HIGH_RAM_SIZE as nat, |i: int| 0u8),
            m.interrupt_flag == 0xE1 && m.interrupt_enable == 0,
            m.joypad_select == 0xFF && m.joypad_action == 0x0F && m.joypad_direction == 0x0F,
            m.rom_bank == 1 && m.ram_bank == 0 && !m.ram_enabled && !m.mbc1_mode,
            !m.dma_active && m.dma_source == 0 && m.dma_index == 0 && m.dma_cycles == 0,
            m.serial_data == 0 && m.serial_control == 0,
    {
        let ty_byte = get_byte_or(&rom, 0x0147, 0);
        let mbc_type = if ty_byte == 0 {
            MbcType::RomOnly
        } else {
            MbcType::Mbc1
        };
        let size_byte = get_byte_or(&rom, 0x0149, 0);
        let ram_size: usize = if size_byte == 1 {
            2 * 1024
        } else if size_byte == 3 {
            32 * 1024
        } else {
            8 * 1024
        };
        let ext_ram = vec![0u8; ram_size];
        let work_ram = vec![0u8; WORK_RAM_SIZE];
        let high_ram = vec![0u8; HIGH_RAM_SIZE];
        assert(ext_ram@ =~= Seq::new(ext_ram_size_of(size_byte), |i: int| 0u8));
        assert(work_ram@ =~= Seq::new(WORK_RAM_SIZE as nat, |i: int| 0u8));
        assert(high_ram@ =~= Seq::new(HIGH_RAM_SIZE as nat, |i: int| 0u8));
        Mmu {
            rom,
            ext_ram,
            work_ram,
            high_ram,
            ppu: Ppu::new(),
            apu: Apu::new(),
            timer: Timer::new(),
            interrupt_flag: 0xE1,
            interrupt_enable: 0x00,
            joypad_select: 0xFF,
            joypad_action: 0x0F,
            joypad_direction: 0x0F,
            mbc_type,
            rom_bank: 1,
            ram_bank: 0,
            ram_enabled: false,
            mbc1_mode: false,
            dma_active: false,
            dma_source: 0,
            dma_index: 0,
            dma_cycles: 0,
            serial_data: 0,
            serial_control: 0,
        }
    }

    /// Presses or releases a button (Right=0, Left=1, Up=2, Down=3, A=4, B=5,
    /// Select=6, Start=7); a press requests the joypad interrupt. Codes 8-11 name
    /// bits 4-7 of the action group, which P1 does not show.
    pub fn set_joypad(&mut self, button: u8, pressed: bool)
        requires
            button < 12,
        ensures
            *final(self) == joypad_pressed(&*old(self), button, pressed),
    {
        if button < 4 {
            if pressed {
                self.joypad_direction = with_bit_cleared(self.joypad_direction, button);
            } else {
                self.joypad_direction = with_bit_set(self.joypad_direction, button);
            }
        } else {
            let bit = button - 4;
            if pressed {
                self.joypad_action = with_bit_cleared(self.joypad_action, bit);
            } else {
                self.joypad_action = with_bit_set(self.joypad_action, bit);
            }
        }
        if pressed {
            self.interrupt_flag = with_bit_set(self.interrupt_flag, INT_JOYPAD);
        }
    }

    /// Reads the byte the CPU sees at `addr`.
    pub fn read_byte(&self, addr: u16) -> (v: u8)
        requires
            self.wf(),
        ensures
            v == mem_read_spec(self, addr),
    {
        reveal(mem_read_spec);
        if addr < 0x4000 {
            get_byte_or(&self.rom, addr as u64, 0xFF)
        } else if addr < 0x8000 {
            let physical: u64 = (self.rom_bank as u64) * 0x4000 + (addr - 0x4000) as u64;
            get_byte_or(&self.rom, physical, 0xFF)
        } else if addr < 0xA000 {
            self.ppu.read_vram(addr)
        } else if addr < 0xC000 {
            if self.ram_enabled && self.ext_ram.len() > 0 {
                let bank: u64 = if self.mbc1_mode {
                    self.ram_bank as u64
                } else {
                    0
                };
                let offset: u64 = bank * 0x2000 + (addr - 0xA000) as u64;
                get_byte_or(&self.ext_ram, offset, 0xFF)
            } else {
                0xFF
            }
        } else if addr < 0xE000 {
            self.work_ram[(addr - 0xC000) as usize]
        } else if addr < 0xFE00 {
            self.work_ram[(addr - 0xE000) as usize]
        } else if addr < 0xFEA0 {
            self.ppu.read_oam(addr)
        } else if addr < 0xFF00 {
            0xFF
        } else if addr < 0xFF80 {
            self.read_io(addr)
        } else if addr < 0xFFFF {
            self.high_ram[(addr - 0xFF80) as usize]
        } else {
            self.interrupt_enable
        }
    }

    /// Reads an I/O register.
    fn read_io(&self, addr: u16) -> (v: u8)
        requires
            self.wf(),
        ensures
            v == io_read_spec(self, addr),
    {
        if addr == 0xFF00 {
            let sel = (self.joypad_select / 16) % 4;
            if sel / 2 == 0 {
                0xC0 + sel * 16 + self.joypad_action % 16
            } else if sel % 2 == 0 {
                0xC0 + sel * 16 + self.joypad_direction % 16
            } else {
                0xFF
            }
        } else if addr == 0xFF01 {
            self.serial_data
        } else if addr == 0xFF02 {
            self.serial_control
        } else if addr == 0xFF04 {
            self.timer.read_div()
        } else if addr == 0xFF05 {
            self.timer.tima
        } else if addr == 0xFF06 {
            self.timer.tma
        } else if addr == 0xFF07 {
            self.timer.tac
        } else if addr == 0xFF0F {
            self.interrupt_flag % 32 + 0xE0
        } else if 0xFF10 <= addr && addr <= 0xFF3F {
            self.apu.read_byte(addr)
        } else if addr == 0xFF40 {
            self.ppu.lcdc
        } else if addr == 0xFF41 {
            self.ppu.stat % 128 + 128
        } else if addr == 0xFF42 {
            self.ppu.scy
        } else if addr == 0xFF43 {
            self.ppu.scx
        } else if addr == 0xFF44 {
            self.ppu.ly
        } else if addr == 0xFF45 {
            self.ppu.lyc
        } else if addr == 0xFF46 {
            self.dma_source
        } else if addr == 0xFF47 {
            self.ppu.bgp
        } else if addr == 0xFF48 {
            self.ppu.obp0
        } else if addr == 0xFF49 {
            self.ppu.obp1
        } else if addr == 0xFF4A {
            self.ppu.wy
        } else if addr == 0xFF4B {
            self.ppu.wx
        } else {
            0xFF
        }
    }
}

impl Mmu {
    /// The effect of a write to the MBC registers (the ROM area).
    fn write_mbc(&mut self, addr: u16, val: u8)
        requires
            addr < 0x8000,
        ensures
            mbc_state(final(self)) == mbc_write_spec(mbc_state(old(self)), addr, val),
            final(self).rom@ == old(self).rom@,
            final(self).ext_ram@ == old(self).ext_ram@,
            final(self).work_ram@ == old(self).work_ram@,
            final(self).high_ram@ == old(self).high_ram@,
            final(self).ppu == old(self).ppu,
            final(self).apu == old(self).apu,
            final(self).timer == old(self).timer,
            io_regs(final(self)) == io_regs(old(self)),
    {
        if self.mbc_type != MbcType::Mbc1 {
            return;
        }
        if addr < 0x2000 {
            self.ram_enabled = val % 16 == 0x0A;
        } else if addr < 0x4000 {
            let mut bank = val % 32;
            if bank == 0 {
                bank = 1;
            }
            self.rom_bank = (self.rom_bank / 32) % 4 * 32 + bank;
        } else if addr < 0x6000 {
            if self.mbc1_mode {
                self.ram_bank = val % 4;
            } else {
                self.rom_bank = self.rom_bank % 32 + (val % 4) * 32;
            }
        } else {
            self.mbc1_mode = val % 2 == 1;
        }
    }

    /// Writes `val` at `addr` as the CPU does.
    pub fn write_byte(&mut self, addr: u16, val: u8)
        requires
            old(self).wf(),
        ensures
            final(self).wf(),
            mem_write_rel(old(self), final(self), addr, val),
            bus_frame(old(self), final(self)),
    {
        proof {
            reveal(mem_write_rel);
            reveal(io_write_rel);
        }
        if addr < 0x8000 {
            self.write_mbc(addr, val);
        } else if addr < 0xA000 {
            self.ppu.write_vram(addr, val);
        } else if addr < 0xC000 {
            if self.ram_enabled && self.ext_ram.len() > 0 {
                let bank: u64 = if self.mbc1_mode {
                    self.ram_bank as u64
                } else {
                    0
                };
                let offset: u64 = bank * 0x2000 + (addr - 0xA000) as u64;
                if offset < self.ext_ram.len() as u64 {
                    self.ext_ram.set(offset as usize, val);
                }
            }
        } else if addr < 0xE000 {
            self.work_ram.set((addr - 0xC000) as usize, val);
        } else if addr < 0xFE00 {
            self.work_ram.set((addr - 0xE000) as usize, val);
        } else if addr < 0xFEA0 {
            self.ppu.write_oam(addr, val);
        } else if addr < 0xFF00 {
        } else if addr < 0xFF80 {
            self.write_io(addr, val);
        } else if addr < 0xFFFF {
            self.high_ram.set((addr - 0xFF80) as usize, val);
        } else {
            self.interrupt_enable = val;
        }
    }

    /// Writes a 16-bit value, low byte first.
    pub fn write_word(&mut self, addr: u16, val: u16)
        requires
            old(self).wf(),
        ensures
            final(self).wf(),
            wrote_word(old(self), final(self), addr, val),
            bus_frame(old(self), final(self)),
    {
        self.write_byte(addr, (val % 256) as u8);
        let ghost mid = *self;
        self.write_byte(addr.wrapping_add(1), (val / 256) as u8);
        assert(word_steps(old(self), mid, self, addr, val));
    }

    /// Writes an I/O register.
    #[verifier::spinoff_prover]
    #[verifier::rlimit(40)]
    fn write_io(&mut self, addr: u16, val: u8)
        requires
            old(self).wf(),
            0xFF00 <= addr < 0xFF80,
        ensures
            final(self).wf(),
            io_write_rel(old(self), final(self), addr, val),
            bus_frame(old(self), final(self)),
    {
        proof {
            reveal(io_write_rel);
        }
        if addr == 0xFF00 {
            self.joypad_select = (val / 16) % 4 * 16;
        } else if addr == 0xFF01 {
            self.serial_data = val;
        } else if addr == 0xFF02 {
            self.serial_control = val;
        } else if addr == 0xFF04 {
            self.timer.write_div();
        } else if addr == 0xFF05 {
            self.timer.tima = val;
        } else if addr == 0xFF06 {
            self.timer.tma = val;
        } else if addr == 0xFF07 {
            self.timer.tac = val % 8;
        } else if addr == 0xFF0F {
            self.interrupt_flag = val;
        } else if 0xFF10 <= addr && addr <= 0xFF3F {
            self.apu.write_byte(addr, val);
        } else if addr == 0xFF40 {
            self.ppu.lcdc = val;
        } else if addr == 0xFF41 {
            self.ppu.stat = self.ppu.stat % 8 + (val / 8) % 16 * 8;
        } else if addr == 0xFF42 {
            self.ppu.scy = val;
        } else if addr == 0xFF43 {
            self.ppu.scx = val;
        } else if addr == 0xFF45 {
            self.ppu.lyc = val;
        } else if addr == 0xFF46 {
            self.dma_source = val;
            self.dma_active = true;
            self.dma_index = 0;
            self.dma_cycles = 0;
            self.run_dma(val);
        } else if addr == 0xFF47 {
            self.ppu.bgp = val;
        } else if addr == 0xFF48 {
            self.ppu.obp0 = val;
        } else if addr == 0xFF49 {
            self.ppu.obp1 = val;
        } else if addr == 0xFF4A {
            self.ppu.wy = val;
        } else if addr == 0xFF4B {
            self.ppu.wx = val;
        }
    }

    /// Copies 0xA0 bytes from page `page` into OAM.
    fn run_dma(&mut self, page: u8)
        requires
            old(self).wf(),
        ensures
            final(self).wf(),
            final(self).ppu@ == (PpuView { oam: dma_oam(old(self), page), ..old(self).ppu@ }),
            final(self).rom@ == old(self).rom@,
            final(self).ext_ram@ == old(self).ext_ram@,
            final(self).work_ram@ == old(self).work_ram@,
            final(self).high_ram@ == old(self).high_ram@,
            final(self).apu == old(self).apu,
            final(self).timer == old(self).timer,
            io_regs(final(self)) == io_regs(old(self)),
            mbc_state(final(self)) == mbc_state(old(self)),
    {
        let ghost m0 = *self;
        reveal(mem_read_spec);
        let base: u16 = (page as u16) * 256;
        let mut i: u8 = 0;
        while i < 0xA0
            invariant
                0 <= i <= 0xA0,
                base == page * 256,
                self.wf(),
                self.rom@ == m0.rom@,
                self.ext_ram@ == m0.ext_ram@,
                self.work_ram@ == m0.work_ram@,
                self.high_ram@ == m0.high_ram@,
                self.apu == m0.apu,
                self.timer == m0.timer,
                io_regs(self) == io_regs(&m0),
                mbc_state(self) == mbc_state(&m0),
                self.ppu@ == (PpuView { oam: self.ppu@.oam, ..m0.ppu@ }),
                forall|j: int| 0 <= j < i ==> #[trigger] self.ppu@.oam[j] == dma_oam(&m0, page)[j],
                forall|j: int| i <= j < OAM_SIZE ==> #[trigger] self.ppu@.oam[j] == m0.ppu@.oam[j],
            decreases 0xA0 - i,
        {
            let addr: u16 = base + i as u16;
            proof {
                reveal(mem_read_spec);
                if 0xFE00 <= addr < 0xFEA0 {
                    assert(addr - 0xFE00 == i);
                }
            }
            let byte = self.read_byte(addr);
            assert(byte == mem_read_spec(&m0, addr));
            self.ppu.dma_write_oam(i, byte);
            i = i + 1;
        }
        assert(self.ppu@.oam =~= dma_oam(&m0, page));
    }

    /// Advances the timer; an overflow of TIMA requests the timer interrupt.
    pub fn step_timer(&mut self, cycles: u32)
        requires
            old(self).wf(),
            tac_running(old(self).timer.tac) ==> old(self).timer.tima_cycles + cycles <= u32::MAX,
        ensures
            final(self).wf(),
            timer_step_rel(&*old(self), &*final(self), cycles),
    {
        if self.timer.step(cycles) {
            self.interrupt_flag = with_bit_set(self.interrupt_flag, INT_TIMER);
        }
    }

    /// Advances the PPU; its VBlank and STAT requests move into IF.
    pub fn step_ppu(&mut self, cycles: u32)
        requires
            old(self).wf(),
            bit_set(old(self).ppu.lcdc, 7) ==> old(self).ppu.cycle_counter + cycles <= u32::MAX,
        ensures
            final(self).wf(),
            old(self).ppu.cycle_counter < mode_threshold(old(self).ppu.mode) ==> final(self).ppu.cycle_counter < mode_threshold(
                final(self).ppu.mode,
            ),
            ppu_step_rel(&*old(self), &*final(self), cycles),
    {
        self.ppu.step(cycles);
        let ghost p = self.ppu@;
        if self.ppu.vblank_irq {
            self.interrupt_flag = with_bit_set(self.interrupt_flag, INT_VBLANK);
            self.ppu.vblank_irq = false;
        }
        if self.ppu.stat_irq {
            self.interrupt_flag = with_bit_set(self.interrupt_flag, INT_STAT);
            self.ppu.stat_irq = false;
        }
        assert(self.ppu@ == PpuView { vblank_irq: false, stat_irq: false, ..p });
        assert(ppu_tick_rel(
            old(self).ppu@,
            old(self).interrupt_flag,
            p,
            self.ppu@,
            self.interrupt_flag,
            cycles,
        ));
    }

    /// Advances the APU.
    pub fn step_apu(&mut self, cycles: u32)
        requires
            old(self).wf(),
            old(self).apu.frame_seq_cycles + cycles <= u32::MAX,
        ensures
            final(self).wf(),
            apu_step_rel(&*old(self), &*final(self), cycles),
    {
        self.apu.step(cycles);
    }
}

/// Whether `data` holds a whole serialized bus at `o`.
pub open spec fn mmu_fits(data: Seq<u8>, o: int) -> bool {
    &&& 0 <= o
    &&& fits_len_prefixed(data, o + 0x207F)
    &&& o + 0x207F + 4 + dec32(data, o + 0x207F) + mmu_tail_len() <= data.len()
}

/// Where the fixed-size registers start, after the variable-size external RAM.
pub open spec fn mmu_regs_start(data: Seq<u8>, o: int) -> int {
    o + 0x207F + 4 + dec32(data, o + 0x207F)
}

/// The bus that `load` restores from the bytes at `o` (the ROM is kept).
pub open spec fn mmu_loaded(m: &Mmu, d: Seq<u8>, o: int) -> bool {
    let r = mmu_regs_start(d, o);
    &&& m.work_ram@ == d.subrange(o, o + 0x2000)
    &&& m.high_ram@ == d.subrange(o + 0x2000, o + 0x207F)
    &&& m.ext_ram@ == d.subrange(o + 0x207F + 4, r)
    &&& io_regs(m) == (d[r], d[r + 1], d[r + 2], d[r + 3], d[r + 4], d[r + 10] != 0, d[r + 11], d[r
        + 12], dec32(d, r + 13), d[r + 17], d[r + 18])
    &&& mbc_state(m) == (if d[r + 5] == 1 {
        MbcType::Mbc1
    } else {
        MbcType::RomOnly
    }, d[r + 6], d[r + 7], d[r + 8] != 0, d[r + 9] != 0)
    &&& m.timer.internal_counter == crate::save_state::dec16(d, r + 19)
    &&& m.timer.tima == d[r + 21] && m.timer.tma == d[r + 22] && m.timer.tac == d[r + 23]
    &&& m.timer.tima_cycles == dec32(d, r + 24)
    &&& m.ppu@ == ppu_from_bytes(d, r + 28)
    &&& crate::gb::apu::apu_loaded(&m.apu, d, r + 28 + ppu_bytes_len())
}

impl Mmu {
    /// Appends the bus state: RAM, registers, then timer, PPU and APU (not the ROM).
    #[verifier::spinoff_prover]
    #[verifier::rlimit(90)]
    pub fn save(&self, buf: &mut Vec<u8>)
        requires
            self.ext_ram@.len() <= u32::MAX,
        ensures
            final(buf)@ == old(buf)@ + mmu_bytes(self),
    {
        write_slice(buf, self.work_ram.as_slice());
        write_slice(buf, self.high_ram.as_slice());
        write_bytes(buf, self.ext_ram.as_slice());
        self.save_regs(buf);
        self.timer.save(buf);
        self.ppu.save(buf);
        self.apu.save(buf);
        assert(buf@ =~= old(buf)@ + mmu_bytes(self));
    }

    fn save_regs(&self, buf: &mut Vec<u8>)
        ensures
            final(buf)@ == old(buf)@ + mmu_reg_bytes(self),
    {
        write_u8(buf, self.interrupt_flag);
        write_u8(buf, self.interrupt_enable);
        write_u8(buf, self.joypad_select);
        write_u8(buf, self.joypad_action);
        write_u8(buf, self.joypad_direction);
        write_u8(
            buf,
            match self.mbc_type {
                MbcType::RomOnly => 0,
                MbcType::Mbc1 => 1,
            },
        );
        write_u8(buf, self.rom_bank);
        write_u8(buf, self.ram_bank);
        write_bool(buf, self.ram_enabled);
        write_bool(buf, self.mbc1_mode);
        write_bool(buf, self.dma_active);
        write_u8(buf, self.dma_source);
        write_u8(buf, self.dma_index);
        write_u32(buf, self.dma_cycles);
        write_u8(buf, self.serial_data);
        write_u8(buf, self.serial_control);
        assert(buf@ =~= old(buf)@ + mmu_reg_bytes(self));
    }

    /// Restores the state written by `save`; the ROM is kept.
    pub fn load(&mut self, data: &[u8], off: &mut usize)
        requires
            mmu_fits(data@, *old(off) as int),
        ensures
            mmu_loaded(&*final(self), data@, *old(off) as int),
            final(self).rom == old(self).rom,
            *final(off) == mmu_regs_start(data@, *old(off) as int) + mmu_tail_len(),
    {
        let ws = read_slice(data, off, WORK_RAM_SIZE);
        self.work_ram = vstd::slice::slice_to_vec(ws);
        let hs = read_slice(data, off, HIGH_RAM_SIZE);
        self.high_ram = vstd::slice::slice_to_vec(hs);
        self.ext_ram = read_bytes(data, off);
        self.interrupt_flag = read_u8(data, off);
        self.interrupt_enable = read_u8(data, off);
        self.joypad_select = read_u8(data, off);
        self.joypad_action = read_u8(data, off);
        self.joypad_direction = read_u8(data, off);
        self.mbc_type = if read_u8(data, off) == 1 {
            MbcType::Mbc1
        } else {
            MbcType::RomOnly
        };
        self.rom_bank = read_u8(data, off);
        self.ram_bank = read_u8(data, off);
        self.ram_enabled = read_bool(data, off);
        self.mbc1_mode = read_bool(data, off);
        self.dma_active = read_bool(data, off);
        self.dma_source = read_u8(data, off);
        self.dma_index = read_u8(data, off);
        self.dma_cycles = read_u32(data, off);
        self.serial_data = read_u8(data, off);
        self.serial_control = read_u8(data, off);
        self.timer.load(data, off);
        self.ppu.load(data, off);
        self.apu.load(data, off);
    }

    /// Whether the state satisfies `wf` (checked after restoring a saved state).
    pub fn is_valid(&self) -> (b: bool)
        ensures
            b == self.wf(),
    {
        self.work_ram.len() == WORK_RAM_SIZE && self.high_ram.len() == HIGH_RAM_SIZE
            && self.ppu.is_valid() && self.apu.is_valid() && self.timer.tima_cycles < 1024
    }
}

// ---------------------------------------------------------------------------
// Laws of the memory map
// ---------------------------------------------------------------------------

/// Echo RAM (0xE000-0xFDFF) reads the work RAM byte 0x2000 below it.
pub proof fn lemma_echo_ram(m: &Mmu, addr: u16)
    requires
        0xE000 <= addr < 0xFE00,
    ensures
        mem_read_spec(m, addr) == mem_read_spec(m, (addr - 0x2000) as u16),
{
    reveal(mem_read_spec);
}

/// A byte written to work RAM, echo RAM or high RAM reads back as written, at its address
/// and (for work and echo RAM) at its mirror.
pub proof fn lemma_ram_write_read(a: &Mmu, b: &Mmu, addr: u16, val: u8)
    requires
        a.wf(),
        mem_write_rel(a, b, addr, val),
        0xC000 <= addr < 0xFE00 || 0xFF80 <= addr < 0xFFFF,
    ensures
        mem_read_spec(b, addr) == val,
        0xC000 <= addr < 0xE000 && addr < 0xDE00 ==> mem_read_spec(b, (addr + 0x2000) as u16) == val,
        0xE000 <= addr < 0xFE00 ==> mem_read_spec(b, (addr - 0x2000) as u16) == val,
{
    reveal(mem_read_spec);
    reveal(mem_write_rel);
}

/// A write to work or high RAM changes no other readable byte of RAM.
pub proof fn lemma_ram_write_other(a: &Mmu, b: &Mmu, addr: u16, val: u8, other: u16)
    requires
        a.wf(),
        mem_write_rel(a, b, addr, val),
        0xC000 <= addr < 0xE000,
        0xC000 <= other < 0xE000,
        other != addr,
    ensures
        mem_read_spec(b, other) == mem_read_spec(a, other),
{
    reveal(mem_read_spec);
    reveal(mem_write_rel);
}

/// The interrupt enable register reads back what was written.
pub proof fn lemma_ie_write_read(a: &Mmu, b: &Mmu, val: u8)
    requires
        mem_write_rel(a, b, 0xFFFF, val),
    ensures
        mem_read_spec(b, 0xFFFF) == val,
{
    reveal(mem_read_spec);
    reveal(mem_write_rel);
}

/// With MBC1, the ROM bank register never selects bank 0 in its low five bits after a
/// write to 0x2000-0x3FFF: bank 0 is mapped to bank 1.
pub proof fn lemma_mbc1_bank_nonzero(s: MbcState, addr: u16, val: u8)
    requires
        s.0 == MbcType::Mbc1,
        0x2000 <= addr < 0x4000,
    ensures
        mbc_write_spec(s, addr, val).1 % 32 != 0,
        mbc_write_spec(s, addr, val).1 % 32 == (if val % 32 == 0 { 1 } else { val % 32 }),
{
}

/// A pressed button reads as 0 in P1 when its group is selected; a released one as 1.
pub proof fn lemma_joypad_read(select: u8, action: u8, direction: u8, bit: u8)
    requires
        bit < 4,
    ensures
        (select / 16) % 4 / 2 == 0 ==> (bit_set(joypad_spec(select, action, direction), bit) <==> bit_set(action, bit)),
        (select / 16) % 4 == 2 ==> (bit_set(joypad_spec(select, action, direction), bit) <==> bit_set(direction, bit)),
        (select / 16) % 4 == 3 ==> joypad_spec(select, action, direction) == 0xFF,
{
    let sel = (select / 16) % 4;
    let p = crate::bits::pow2_8(bit) as int;
    let ai = action as int;
    let di = direction as int;
    assert(p == 1 || p == 2 || p == 4 || p == 8);
    if sel / 2 == 0 {
        let base = 0xC0 + sel * 16;
        assert(base % 16 == 0);
        assert((base + ai % 16) / p % 2 == (ai % 16) / p % 2) by (nonlinear_arith)
            requires
                base % 16 == 0,
                p == 1 || p == 2 || p == 4 || p == 8,
                base >= 0,
                0 <= ai < 256,
                0 <= di < 256,
        ;
        assert((ai % 16) / p % 2 == ai / p % 2) by (nonlinear_arith)
            requires
                p == 1 || p == 2 || p == 4 || p == 8,
                0 <= ai,
        ;
    } else if sel % 2 == 0 {
        let base = 0xC0 + sel * 16;
        assert((base + di % 16) / p % 2 == (di % 16) / p % 2) by (nonlinear_arith)
            requires
                base % 16 == 0,
                p == 1 || p == 2 || p == 4 || p == 8,
                base >= 0,
                0 <= ai < 256,
                0 <= di < 256,
        ;
        assert((di % 16) / p % 2 == di / p % 2) by (nonlinear_arith)
            requires
                p == 1 || p == 2 || p == 4 || p == 8,
                0 <= di,
        ;
    }
}

// ---------------------------------------------------------------------------
// Reading back a saved bus
// ---------------------------------------------------------------------------

/// Two buses in the same saved state: RAM, registers, timer, PPU and APU (the ROM and the
/// recorded audio samples are not part of it).
pub open spec fn same_saved_mmu(a: &Mmu, b: &Mmu) -> bool {
    &&& a.work_ram@ == b.work_ram@ && a.high_ram@ == b.high_ram@ && a.ext_ram@ == b.ext_ram@
    &&& io_regs(a) == io_regs(b)
    &&& mbc_state(a) == mbc_state(b)
    &&& a.timer == b.timer
    &&& a.ppu@ == b.ppu@
    &&& crate::gb::apu::same_saved_apu(&a.apu, &b.apu)
}

/// Whether the saved bus at `o` describes a bus that satisfies `wf` once loaded.
pub open spec fn mmu_bytes_valid(d: Seq<u8>, o: int) -> bool {
    let r = mmu_regs_start(d, o);
    &&& dec32(d, r + 24) < 1024
    &&& ppu_wf(ppu_from_bytes(d, r + 28))
    &&& crate::gb::apu::apu_bytes_valid(d, r + 28 + ppu_bytes_len())
}

/// A loaded bus satisfies `wf` exactly when its bytes are valid.
pub proof fn lemma_mmu_loaded_wf(m: &Mmu, d: Seq<u8>, o: int)
    requires
        mmu_fits(d, o),
        mmu_loaded(m, d, o),
    ensures
        m.wf() == mmu_bytes_valid(d, o),
{
    let r = mmu_regs_start(d, o);
    crate::gb::apu::lemma_apu_loaded_wf(&m.apu, d, r + 28 + ppu_bytes_len());
}

/// The registers read back from the bytes that `mmu_reg_bytes` wrote are the registers.
proof fn lemma_mmu_regs_roundtrip(a: &Mmu, d: Seq<u8>, q: int)
    requires
        0 <= q,
        q + 19 <= d.len(),
        d.subrange(q, q + 19) == mmu_reg_bytes(a),
    ensures
        io_regs(a) == (d[q], d[q + 1], d[q + 2], d[q + 3], d[q + 4], d[q + 10] != 0, d[q + 11], d[q + 12],
            dec32(d, q + 13), d[q + 17], d[q + 18]),
        mbc_state(a) == (if d[q + 5] == 1 {
            MbcType::Mbc1
        } else {
            MbcType::RomOnly
        }, d[q + 6], d[q + 7], d[q + 8] != 0, d[q + 9] != 0),
{
    let rb = mmu_reg_bytes(a);
    let dc = le32(a.dma_cycles);
    assert(dc.len() == 4);
    let rs = d.subrange(q, q + 19);
    assert(rb =~= seq![a.interrupt_flag, a.interrupt_enable, a.joypad_select, a.joypad_action,
        a.joypad_direction, if a.mbc_type == MbcType::Mbc1 { 1u8 } else { 0u8 }, a.rom_bank, a.ram_bank,
        bool_byte(a.ram_enabled), bool_byte(a.mbc1_mode), bool_byte(a.dma_active), a.dma_source, a.dma_index,
        dc[0], dc[1], dc[2], dc[3], a.serial_data, a.serial_control]);
    assert forall|i: int| 0 <= i < 19 implies d[q + i] == rb[i] by {
        assert(rs[i] == d[q + i]);
    }
    assert(d[q] == rb[0] && d[q + 1] == rb[1] && d[q + 2] == rb[2] && d[q + 3] == rb[3]);
    assert(d[q + 4] == rb[4] && d[q + 5] == rb[5] && d[q + 6] == rb[6] && d[q + 7] == rb[7]);
    assert(d[q + 8] == rb[8] && d[q + 9] == rb[9] && d[q + 10] == rb[10]);
    assert(d[q + 11] == rb[11] && d[q + 12] == rb[12] && d[q + 17] == rb[17] && d[q + 18] == rb[18]);
    assert(rb.subrange(13, 17) =~= dc);
    crate::save_state::lemma_subrange_within(d, q, 19, 13, 17);
    crate::save_state::lemma_le32_roundtrip(a.dma_cycles, d, q + 13);
}

/// A bus read back from the bytes of `mmu_bytes(a)` is in `a`'s saved state, and the bytes
/// are valid.
#[verifier::spinoff_prover]
#[verifier::rlimit(40)]
pub proof fn lemma_mmu_roundtrip(a: &Mmu, b: &Mmu, d: Seq<u8>, o: int)
    requires
        a.wf(),
        a.ext_ram@.len() <= u32::MAX,
        0 <= o,
        o + mmu_bytes(a).len() <= d.len(),
        d.subrange(o, o + mmu_bytes(a).len()) == mmu_bytes(a),
        mmu_loaded(b, d, o),
    ensures
        mmu_fits(d, o),
        mmu_regs_start(d, o) == o + 0x207F + 4 + a.ext_ram@.len(),
        mmu_bytes(a).len() == 0x207F + 4 + a.ext_ram@.len() + mmu_tail_len(),
        mmu_bytes_valid(d, o),
        same_saved_mmu(b, a),
{
    let e = a.ext_ram@.len() as int;
    let r = 0x207F + 4 + e;
    let pp = r + 28;
    let ap = pp + ppu_bytes_len();
    lemma_mmu_layout(a, d, o);
    let lp = len_prefixed(a.ext_ram@);
    let el = le32(e as u32);
    assert(lp.subrange(0, 4) =~= el);
    assert(lp.subrange(4, 4 + e) =~= a.ext_ram@);
    crate::save_state::lemma_subrange_within(d, o + 0x207F, 4 + e, 0, 4);
    crate::save_state::lemma_subrange_within(d, o + 0x207F, 4 + e, 4, 4 + e);
    crate::save_state::lemma_le32_roundtrip(e as u32, d, o + 0x207F);
    assert(mmu_regs_start(d, o) == o + r);
    lemma_mmu_regs_roundtrip(a, d, o + r);
    crate::gb::timer::lemma_timer_roundtrip(a.timer, d, o + r + 19);
    crate::gb::ppu::lemma_ppu_roundtrip(a.ppu@, d, o + pp);
    crate::gb::apu::lemma_apu_roundtrip(&a.apu, &b.apu, d, o + ap);
}

/// Where each part of the saved bus lies.
proof fn lemma_mmu_layout(a: &Mmu, d: Seq<u8>, o: int)
    requires
        a.wf(),
        a.ext_ram@.len() <= u32::MAX,
        0 <= o,
        o + mmu_bytes(a).len() <= d.len(),
        d.subrange(o, o + mmu_bytes(a).len()) == mmu_bytes(a),
    ensures
        ({
            let e = a.ext_ram@.len() as int;
            let r = 0x207F + 4 + e;
            let pp = r + 28;
            let ap = pp + ppu_bytes_len();
            &&& mmu_bytes(a).len() == ap + apu_bytes_len()
            &&& d.subrange(o, o + 0x2000) == a.work_ram@
            &&& d.subrange(o + 0x2000, o + 0x207F) == a.high_ram@
            &&& d.subrange(o + 0x207F, o + r) == len_prefixed(a.ext_ram@)
            &&& d.subrange(o + r, o + r + 19) == mmu_reg_bytes(a)
            &&& d.subrange(o + r + 19, o + pp) == timer_bytes(a.timer.internal_counter, a.timer.tima,
                a.timer.tma, a.timer.tac, a.timer.tima_cycles)
            &&& d.subrange(o + pp, o + ap) == ppu_bytes(a.ppu@)
            &&& d.subrange(o + ap, o + ap + apu_bytes_len()) == apu_bytes(&a.apu)
        }),
{
    let t = mmu_bytes(a);
    let n = t.len() as int;
    let e = a.ext_ram@.len() as int;
    let lp = len_prefixed(a.ext_ram@);
    let rb = mmu_reg_bytes(a);
    let tb = timer_bytes(a.timer.internal_counter, a.timer.tima, a.timer.tma, a.timer.tac, a.timer.tima_cycles);
    let pb = ppu_bytes(a.ppu@);
    let ab = apu_bytes(&a.apu);
    assert(le32(a.dma_cycles).len() == 4);
    assert(lp.len() == 4 + e);
    assert(rb.len() == 19);
    assert(tb.len() == 9);
    assert(pb.len() == ppu_bytes_len());
    assert(ab.len() == apu_bytes_len());
    let r = 0x207F + 4 + e;
    let pp = r + 28;
    let ap = pp + ppu_bytes_len();
    assert(n == ap + apu_bytes_len());
    assert(t.subrange(0, 0x2000) =~= a.work_ram@);
    assert(t.subrange(0x2000, 0x207F) =~= a.high_ram@);
    assert(t.subrange(0x207F, r) =~= lp);
    assert(t.subrange(r, r + 19) =~= rb);
    assert(t.subrange(r + 19, pp) =~= tb);
    assert(t.subrange(pp, ap) =~= pb);
    assert(t.subrange(ap, n) =~= ab);
    crate::save_state::lemma_subrange_within(d, o, n, 0, 0x2000);
    crate::save_state::lemma_subrange_within(d, o, n, 0x2000, 0x207F);
    crate::save_state::lemma_subrange_within(d, o, n, 0x207F, r);
    crate::save_state::lemma_subrange_within(d, o, n, r, r + 19);
    crate::save_state::lemma_subrange_within(d, o, n, r + 19, pp);
    crate::save_state::lemma_subrange_within(d, o, n, pp, ap);
    crate::save_state::lemma_subrange_within(d, o, n, ap, n);
}

} // verus!
