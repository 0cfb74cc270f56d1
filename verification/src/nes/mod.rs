//! NES backend.

pub mod apu;
pub mod bus;
pub mod cartridge;
pub mod cpu;
pub mod ppu;

use vstd::prelude::*;
use crate::nes::apu::NesApu;
use crate::bits::{bit_set, clear_bit, set_bit};
use crate::nes::bus::{
    joypads, plain_addr, plain_read, nes_bus_bytes, nes_bus_cart_offset, nes_bus_loaded, plain_word_at, same_saved_bus, NesBus, RAM_SIZE,
};
use crate::nes::cartridge::{cart_load_ok, ines_complete, parse_ines, same_rom, Cartridge, Mapper};
use crate::nes::cpu::{
    add16, branch_rel, bus_kept, group01_rel, implied_spec, is_branch, is_group01, is_rmw, is_stack_jump, is_xy_op,
    nes_cpu_bytes, nes_cpu_from_bytes, plain_word, ram_only, rmw_cycles, rmw_rel, stack_addr, stack_jump_rel, xy_rel,
    NesCpu, FLAG_B, FLAG_I, FLAG_U,
};
use crate::nes::ppu::{nes_ppu_bytes_len, NesPpu};
use crate::save_state::{bool_byte, read_bool, write_bool, write_u8};

verus! {

/// CPU cycles per NTSC frame: 1789773 Hz / 60.0988 fps.
pub const CYCLES_PER_FRAME: u32 = 29_780;

/// CPU cycles an OAM DMA takes.
pub const DMA_CYCLES: u32 = 513;

/// Save-state header: "NESS" and a version byte.
pub open spec fn nes_state_header() -> Seq<u8> {
    seq![0x4Eu8, 0x45u8, 0x53u8, 0x53u8, 0x01u8]
}

/// The serialized emulator: header, pending interrupt flags, CPU, bus.
pub open spec fn nes_state_bytes(e: &NesEmulator) -> Seq<u8> {
    nes_state_header() + seq![bool_byte(e.pending_nmi), bool_byte(e.pending_irq)] + nes_cpu_bytes(e.cpu)
        + nes_bus_bytes(&e.bus)
}

/// Offset of the bus state in a save state.
pub const BUS_OFFSET: usize = 18;

/// Whether `load_state` accepts `data` for an emulator with cartridge `c`: the header, the
/// fixed-size part, a cartridge state of `c`'s kind that fits and can be loaded, and valid
/// PPU and APU states.
pub open spec fn nes_state_accepted(c: Cartridge, data: Seq<u8>) -> bool {
    let co = BUS_OFFSET + nes_bus_cart_offset();
    &&& data.len() >= 5
    &&& data.subrange(0, 5) == nes_state_header()
    &&& data.len() >= co
    &&& c.state_fits(data, co)
    &&& cart_load_ok(c, data, co)
    &&& crate::nes::ppu::nes_ppu_bytes_valid(data, BUS_OFFSET + 2055)
    &&& crate::nes::apu::nes_apu_bytes_valid(data, BUS_OFFSET + 2055 + nes_ppu_bytes_len())
}

/// The emulator `e` holds the state that `data` describes, loaded over `prev` (whose
/// cartridge keeps its ROM).
pub open spec fn nes_loaded(e: &NesEmulator, prev: &NesEmulator, data: Seq<u8>) -> bool {
    &&& e.pending_nmi == (data[5] != 0)
    &&& e.pending_irq == (data[6] != 0)
    &&& e.cpu == nes_cpu_from_bytes(data, 7)
    &&& nes_bus_loaded(&e.bus, prev.bus.cartridge, data, BUS_OFFSET as int)
}

/// What `NesBus::do_oam_dma` does, from bus `b0` to bus `b1`.
pub open spec fn nes_dma_rel(b0: &NesBus, b1: &NesBus) -> bool {
    &&& b1.wf()
    &&& b1.cartridge.kind() == b0.cartridge.kind()
    &&& !b1.dma_pending
    &&& b0.dma_page < 0x20 || b0.dma_page >= 0x41 ==> b1.ppu.oam_addr == b0.ppu.oam_addr
    &&& b0.dma_page < 0x20 ==> forall|i: int|
        0 <= i < 256 ==> #[trigger] b1.ppu.oam@[(b0.ppu.oam_addr + i) % 256] == b0.ram@[(b0.dma_page * 256 + i)
            % 0x800]
    &&& b0.dma_page >= 0x41 ==> forall|i: int|
        0 <= i < 256 ==> #[trigger] b1.ppu.oam@[(b0.ppu.oam_addr + i) % 256] == b0.cartridge.prg_at(
            (b0.dma_page * 256 + i) as u16,
        )
    &&& exists|tr: Seq<NesBus>, vs: Seq<u8>| crate::nes::bus::nes_dma_trace(b0, tr, vs, b1)
}

/// What `NesBus::step_ppu` does for `cpu_cycles` CPU cycles, from bus `b0` to bus `b1`; the
/// NMI it raises is `b1.ppu.nmi_requested`.
pub open spec fn nes_ppu_step_rel(b0: &NesBus, b1: &NesBus, cpu_cycles: u32) -> bool {
    let n = (3 * cpu_cycles) as nat;
    &&& b1.wf()
    &&& b1.cartridge.kind() == b0.cartridge.kind()
    &&& b1.ppu.pos() == crate::nes::ppu::ppu_pos_after(b0.ppu.pos(), b0.ppu.rendering(), n)
    &&& b1.ppu.frame_ready == crate::nes::ppu::ppu_passes_frame_end(b0.ppu.pos(), b0.ppu.rendering(), n)
    &&& b1.ppu.nmi_requested == (b0.ppu.ctrl >= 0x80 && crate::nes::ppu::ppu_passes_vblank(
        b0.ppu.pos(),
        b0.ppu.rendering(),
        n,
    ))
    &&& b1.ram == b0.ram && b1.apu == b0.apu
    &&& joypads(b1) == joypads(b0)
    &&& b1.dma_pending == b0.dma_pending && b1.dma_page == b0.dma_page
}

/// What `NesBus::step_apu` does for `cpu_cycles` CPU cycles, from bus `b0` to bus `b1`.
pub open spec fn nes_apu_step_rel(b0: &NesBus, b1: &NesBus, cpu_cycles: u32) -> bool {
    &&& b1.wf()
    &&& b1.ram == b0.ram && b1.ppu == b0.ppu
    &&& b1.cartridge == b0.cartridge
    &&& joypads(b1) == joypads(b0)
    &&& b1.dma_pending == b0.dma_pending && b1.dma_page == b0.dma_page
    &&& b1.apu.buffer@.len() == b0.apu.buffer@.len() + 5 * ((b0.apu.sample_acc + crate::nes::apu::SAMPLE_RATE
        * cpu_cycles) / crate::nes::apu::CPU_CLOCK as int)
    &&& b1.apu == (NesApu { buffer: b1.apu.buffer, ..crate::nes::apu::apu_run(b0.apu, cpu_cycles as nat) })
    &&& b1.apu.buffer@ == b0.apu.buffer@ + crate::nes::apu::apu_run_samples(b0.apu, cpu_cycles as nat)
}

/// The stack bytes an interrupt entry pushes: PC high, PC low, then P with B clear and U set.
pub open spec fn nes_interrupt_ram(c0: NesCpu, ram: Seq<u8>) -> Seq<u8> {
    ram.update(stack_addr(c0.sp) as int, (c0.pc / 256) as u8).update(
        stack_addr(((c0.sp + 255) % 256) as u8) as int,
        (c0.pc % 256) as u8,
    ).update(stack_addr(((c0.sp + 254) % 256) as u8) as int, clear_bit(set_bit(c0.p, FLAG_U), FLAG_B))
}

/// An interrupt entry through `vector` taking `extra` cycles, from `c0` and `b0` to `c1` and
/// `b1`.
pub open spec fn nes_interrupt_rel(c0: NesCpu, b0: &NesBus, c1: NesCpu, b1: &NesBus, vector: u16, extra: int) -> bool {
    &&& bus_kept(b0, b1)
    &&& ram_only(b0, b1)
    &&& c1 == (NesCpu {
        pc: plain_word(b0, vector),
        sp: ((c0.sp + 253) % 256) as u8,
        p: set_bit(c0.p, FLAG_I),
        cycles: ((c0.cycles + extra) % 0x1_0000_0000) as u32,
        ..c0
    })
    &&& b1.ram@ == nes_interrupt_ram(c0, b0.ram@)
}

/// What `NesCpu::irq` does: nothing while I is set, otherwise an entry through $FFFE.
pub open spec fn nes_irq_rel(c0: NesCpu, b0: &NesBus, c1: NesCpu, b1: &NesBus) -> bool {
    if bit_set(c0.p, FLAG_I) {
        c1 == c0 && *b1 == *b0
    } else {
        nes_interrupt_rel(c0, b0, c1, b1, 0xFFFE, 7)
    }
}

/// What `NesCpu::step` does: one instruction in `cycles` cycles, from `c0` and `b0` to `c1`
/// and `b1`.
pub open spec fn nes_cpu_step_rel(c0: NesCpu, b0: &NesBus, c1: NesCpu, b1: &NesBus, cycles: u32) -> bool {
    &&& bus_kept(b0, b1)
    &&& 2 <= cycles <= 7
    &&& plain_addr(c0.pc) ==> {
        let op = plain_read(b0, c0.pc);
        let s = NesCpu { pc: add16(c0.pc, 1), ..c0 };
        &&& is_group01(op) ==> group01_rel(op, s, b0, c1, b1, cycles)
        &&& is_xy_op(op) ==> xy_rel(op, s, b0, c1, b1, cycles)
        &&& is_rmw(op) ==> rmw_rel(op, s, b0, c1, b1) && cycles == rmw_cycles(op)
        &&& is_branch(op) ==> branch_rel(op, s, b0, c1, b1, cycles)
        &&& is_stack_jump(op) ==> stack_jump_rel(op, s, b0, c1, b1, cycles)
        &&& !(is_group01(op) || is_xy_op(op) || is_rmw(op) || is_branch(op) || is_stack_jump(op)) ==> {
            &&& c1 == implied_spec(op, s)
            &&& *b1 == *b0
            &&& cycles == 2
        }
    }
}

/// The CPU cycles one pass of the frame loop from `a` counts when its instruction took
/// `cycles`: the instruction's, and an OAM DMA's when one was pending.
pub open spec fn nes_pass_cycles(a: NesEmulator, cycles: u32) -> int {
    if a.bus.dma_pending {
        DMA_CYCLES + cycles
    } else {
        cycles as int
    }
}

/// The OAM DMA part of a pass from `a`: when a DMA is pending, the DMA (to `m0`), the PPU
/// steps its cycles take (to `m1`) and the APU steps (to `m2`), an NMI the PPU raises then
/// pending; otherwise `m2` is `a`.
#[verifier::opaque]
pub open spec fn nes_dma_phase(a: NesEmulator, m0: NesEmulator, m1: NesEmulator, m2: NesEmulator) -> bool {
    if a.bus.dma_pending {
        &&& nes_dma_rel(&a.bus, &m0.bus)
        &&& m0.cpu == a.cpu && m0.pending_nmi == a.pending_nmi && m0.pending_irq == a.pending_irq
        &&& nes_ppu_step_rel(&m0.bus, &m1.bus, DMA_CYCLES)
        &&& m1.cpu == m0.cpu && m1.pending_nmi == m0.pending_nmi && m1.pending_irq == m0.pending_irq
        &&& nes_apu_step_rel(&m1.bus, &m2.bus, DMA_CYCLES)
        &&& m2.cpu == m1.cpu && m2.pending_irq == m1.pending_irq
        &&& m2.pending_nmi == (m1.pending_nmi || m1.bus.ppu.nmi_requested)
    } else {
        m2 == a
    }
}

/// The NMI part of a pass: a pending NMI is taken (through $FFFA, 8 cycles) and cleared.
#[verifier::opaque]
pub open spec fn nes_nmi_phase(a: NesEmulator, b: NesEmulator) -> bool {
    if a.pending_nmi {
        &&& nes_interrupt_rel(a.cpu, &a.bus, b.cpu, &b.bus, 0xFFFA, 8)
        &&& !b.pending_nmi && b.pending_irq == a.pending_irq
    } else {
        b == a
    }
}

/// The IRQ part of a pass: a pending IRQ is offered to the CPU and cleared.
#[verifier::opaque]
pub open spec fn nes_irq_phase(a: NesEmulator, b: NesEmulator) -> bool {
    if a.pending_irq {
        &&& nes_irq_rel(a.cpu, &a.bus, b.cpu, &b.bus)
        &&& !b.pending_irq && b.pending_nmi == a.pending_nmi
    } else {
        b == a
    }
}

/// The instruction part of a pass from `a`: one instruction of `cycles` cycles (to `m5`),
/// the PPU steps they take (to `m6`) and the APU steps (to `b`), an NMI the PPU raises then
/// pending.
#[verifier::opaque]
pub open spec fn nes_step_phase(a: NesEmulator, m5: NesEmulator, m6: NesEmulator, b: NesEmulator, cycles: u32) -> bool {
    &&& nes_cpu_step_rel(a.cpu, &a.bus, m5.cpu, &m5.bus, cycles)
    &&& m5.pending_nmi == a.pending_nmi && m5.pending_irq == a.pending_irq
    &&& nes_ppu_step_rel(&m5.bus, &m6.bus, cycles)
    &&& m6.cpu == m5.cpu && m6.pending_nmi == m5.pending_nmi && m6.pending_irq == m5.pending_irq
    &&& nes_apu_step_rel(&m6.bus, &b.bus, cycles)
    &&& b.cpu == m6.cpu && b.pending_irq == m6.pending_irq
    &&& b.pending_nmi == (m6.pending_nmi || m6.bus.ppu.nmi_requested)
}

/// One pass of the frame loop from `a` to `b` whose instruction took `cycles`, through the
/// emulators `m`: the OAM DMA part (`m[0..3]`), the NMI part (to `m[3]`), the IRQ part (to
/// `m[4]`) and the instruction part (through `m[5]` and `m[6]` to `b`).
pub open spec fn nes_pass(a: NesEmulator, m: Seq<NesEmulator>, b: NesEmulator, cycles: u32) -> bool {
    &&& m.len() == 7
    &&& nes_dma_phase(a, m[0], m[1], m[2])
    &&& nes_nmi_phase(m[2], m[3])
    &&& nes_irq_phase(m[3], m[4])
    &&& nes_step_phase(m[4], m[5], m[6], b, cycles)
}

/// A run of the frame loop from `e`: `t` holds the emulator before each pass and at the end,
/// `ms` each pass's intermediate emulators, `cs` each pass's instruction cycles and `totals`
/// the CPU cycles counted before each pass and at the end; every pass starts below a frame's
/// worth and the run ends at the first total that reaches it.
pub open spec fn nes_frame_run(
    e: NesEmulator,
    t: Seq<NesEmulator>,
    ms: Seq<Seq<NesEmulator>>,
    cs: Seq<u32>,
    totals: Seq<int>,
) -> bool {
    &&& t.len() == ms.len() + 1 && cs.len() == ms.len() && totals.len() == t.len()
    &&& t[0] == e && totals[0] == 0
    &&& forall|i: int|
        0 <= i < ms.len() ==> #[trigger] nes_pass(t[i], ms[i], t[i + 1], cs[i]) && totals[i] < CYCLES_PER_FRAME
            && totals[i + 1] == totals[i] + nes_pass_cycles(t[i], cs[i])
    &&& totals.last() >= CYCLES_PER_FRAME
}

/// A run of passes extended by one more pass from its last emulator.
proof fn lemma_nes_run_extend(
    t: Seq<NesEmulator>,
    ms: Seq<Seq<NesEmulator>>,
    cs: Seq<u32>,
    totals: Seq<int>,
    m: Seq<NesEmulator>,
    b: NesEmulator,
    c: u32,
)
    requires
        t.len() == ms.len() + 1 && cs.len() == ms.len() && totals.len() == t.len(),
        forall|i: int|
            0 <= i < ms.len() ==> #[trigger] nes_pass(t[i], ms[i], t[i + 1], cs[i]) && totals[i] < CYCLES_PER_FRAME
                && totals[i + 1] == totals[i] + nes_pass_cycles(t[i], cs[i]),
        nes_pass(t.last(), m, b, c),
        totals.last() < CYCLES_PER_FRAME,
    ensures
        ({
            let t2 = t.push(b);
            let ms2 = ms.push(m);
            let cs2 = cs.push(c);
            let totals2 = totals.push(totals.last() + nes_pass_cycles(t.last(), c));
            &&& t2.len() == ms2.len() + 1 && cs2.len() == ms2.len() && totals2.len() == t2.len()
            &&& t2[0] == t[0] && totals2[0] == totals[0]
            &&& forall|i: int|
                0 <= i < ms2.len() ==> #[trigger] nes_pass(t2[i], ms2[i], t2[i + 1], cs2[i]) && totals2[i]
                    < CYCLES_PER_FRAME && totals2[i + 1] == totals2[i] + nes_pass_cycles(t2[i], cs2[i])
        }),
{
    let t2 = t.push(b);
    let ms2 = ms.push(m);
    let cs2 = cs.push(c);
    let totals2 = totals.push(totals.last() + nes_pass_cycles(t.last(), c));
    assert forall|i: int| 0 <= i < ms2.len() implies #[trigger] nes_pass(t2[i], ms2[i], t2[i + 1], cs2[i])
        && totals2[i] < CYCLES_PER_FRAME && totals2[i + 1] == totals2[i] + nes_pass_cycles(t2[i], cs2[i]) by {
        if i < ms.len() {
            assert(t2[i] == t[i] && t2[i + 1] == t[i + 1] && ms2[i] == ms[i] && cs2[i] == cs[i]);
            assert(totals2[i] == totals[i] && totals2[i + 1] == totals[i + 1]);
            assert(nes_pass(t[i], ms[i], t[i + 1], cs[i]));
        } else {
            assert(t2[i] == t.last() && ms2[i] == m && t2[i + 1] == b && cs2[i] == c);
            assert(totals2[i] == totals.last());
        }
    }
}

/// High-level NES emulator.
pub struct NesEmulator {
    pub cpu: NesCpu,
    pub bus: NesBus,
    pub pending_nmi: bool,
    pub pending_irq: bool,
}

impl NesEmulator {
    pub open spec fn wf(&self) -> bool {
        self.bus.wf()
    }

    /// An emulator for an iNES image, reset: PC from the reset vector.
    pub fn new(rom: &[u8]) -> (e: Self)
        requires
            ines_complete(rom@),
            rom@[4] >= 1,
        ensures
            e.wf(),
            e.bus.cartridge.prg_rom() == crate::nes::cartridge::ines_prg(rom@),
            e.cpu.pc == plain_word_at(&e.bus, 0xFFFC),
            e.cpu.sp == 0xFD && e.cpu.p == 0x24 && e.cpu.a == 0 && e.cpu.x == 0 && e.cpu.y == 0,
            !e.pending_nmi && !e.pending_irq,
    {
        let mapper = parse_ines(rom);
        let mut bus = NesBus::new(mapper);
        let mut cpu = NesCpu::new();
        cpu.reset(&mut bus);
        NesEmulator { cpu, bus, pending_nmi: false, pending_irq: false }
    }

    /// Runs one frame: OAM DMA when pending, NMI and IRQ entry, then one instruction at a
    /// time, stepping the PPU and APU along, until a frame's worth of CPU cycles has run.
    #[verifier::spinoff_prover]
    #[verifier::rlimit(100)]
    pub fn step_frame(&mut self)
        requires
            old(self).wf(),
        ensures
            final(self).wf(),
            final(self).bus.cartridge.kind() == old(self).bus.cartridge.kind(),
            exists|t: Seq<NesEmulator>, ms: Seq<Seq<NesEmulator>>, cs: Seq<u32>, totals: Seq<int>|
                nes_frame_run(*old(self), t, ms, cs, totals) && *final(self) == t.last(),
    {
        let mut total_cycles: u32 = 0;
        let ghost mut t: Seq<NesEmulator> = seq![*self];
        let ghost mut ms: Seq<Seq<NesEmulator>> = Seq::empty();
        let ghost mut cs: Seq<u32> = Seq::empty();
        let ghost mut totals: Seq<int> = seq![0int];
        while total_cycles < CYCLES_PER_FRAME
            invariant
                self.wf(),
                self.bus.cartridge.kind() == old(self).bus.cartridge.kind(),
                total_cycles <= CYCLES_PER_FRAME + DMA_CYCLES + 7,
                t.len() == ms.len() + 1 && cs.len() == ms.len() && totals.len() == t.len(),
                t[0] == *old(self) && totals[0] == 0,
                forall|i: int|
                    0 <= i < ms.len() ==> #[trigger] nes_pass(t[i], ms[i], t[i + 1], cs[i]) && totals[i]
                        < CYCLES_PER_FRAME && totals[i + 1] == totals[i] + nes_pass_cycles(t[i], cs[i]),
                t.last() == *self,
                totals.last() == total_cycles,
            decreases CYCLES_PER_FRAME + DMA_CYCLES + 7 - total_cycles,
        {
            let ghost a = *self;
            let ghost mut m0 = *self;
            let ghost mut m1 = *self;
            if self.bus.dma_pending {
                self.bus.do_oam_dma();
                proof {
                    m0 = *self;
                }
                total_cycles = total_cycles + DMA_CYCLES;
                let (_, nmi) = self.bus.step_ppu(DMA_CYCLES);
                proof {
                    m1 = *self;
                }
                self.bus.step_apu(DMA_CYCLES);
                if nmi {
                    self.pending_nmi = true;
                }
            }
            let ghost m2 = *self;
            assert(nes_dma_phase(a, m0, m1, m2)) by {
                reveal(nes_dma_phase);
            }
            if self.pending_nmi {
                self.pending_nmi = false;
                self.cpu.nmi(&mut self.bus);
            }
            let ghost m3 = *self;
            assert(nes_nmi_phase(m2, m3)) by {
                reveal(nes_nmi_phase);
            }
            if self.pending_irq {
                self.pending_irq = false;
                self.cpu.irq(&mut self.bus);
            }
            let ghost m4 = *self;
            assert(nes_irq_phase(m3, m4)) by {
                reveal(nes_irq_phase);
            }
            let cycles = self.cpu.step(&mut self.bus);
            let ghost m5 = *self;
            total_cycles = total_cycles + cycles;
            let (_, nmi) = self.bus.step_ppu(cycles);
            let ghost m6 = *self;
            self.bus.step_apu(cycles);
            if nmi {
                self.pending_nmi = true;
            }
            proof {
                assert(nes_step_phase(m4, m5, m6, *self, cycles)) by {
                    reveal(nes_step_phase);
                }
                let m = seq![m0, m1, m2, m3, m4, m5, m6];
                assert(m[0] == m0 && m[1] == m1 && m[2] == m2 && m[3] == m3);
                assert(m[4] == m4 && m[5] == m5 && m[6] == m6);
                assert(nes_pass(a, m, *self, cycles));
                lemma_nes_run_extend(t, ms, cs, totals, m, *self, cycles);
                t = t.push(*self);
                ms = ms.push(m);
                cs = cs.push(cycles);
                totals = totals.push(totals.last() + nes_pass_cycles(a, cycles));
            }
        }
        proof {
            assert(nes_frame_run(*old(self), t, ms, cs, totals));
        }
    }

    /// The RGBA frame buffer (256 x 240 x 4 bytes).
    pub fn frame_buffer(&self) -> (fb: &[u8])
        ensures
            fb@ == self.bus.ppu.frame_buffer@,
    {
        self.bus.ppu.frame_buffer.as_slice()
    }

    /// Presses or releases a button (A=0, B=1, Select=2, Start=3, Up=4, Down=5, Left=6, Right=7).
    pub fn set_joypad(&mut self, button: u8, pressed: bool)
        requires
            old(self).wf(),
        ensures
            final(self).wf(),
            final(self).cpu == old(self).cpu,
            button < 8 ==> final(self).bus.joypad1_state == if pressed {
                crate::bits::set_bit(old(self).bus.joypad1_state, button)
            } else {
                crate::bits::clear_bit(old(self).bus.joypad1_state, button)
            },
            button >= 8 ==> final(self).bus == old(self).bus,
    {
        self.bus.set_joypad(button, pressed);
    }

    /// Removes and returns the recorded audio: five channel levels per sample (pulse 1,
    /// pulse 2, triangle, noise: 0-15; DMC: 0-127).
    pub fn get_audio_samples(&mut self) -> (samples: Vec<u8>)
        requires
            old(self).wf(),
        ensures
            final(self).wf(),
            samples@ == old(self).bus.apu.buffer@,
            final(self).bus.apu.buffer@ == Seq::<u8>::empty(),
    {
        self.bus.apu.get_samples()
    }

    /// Serializes the whole emulator state (the ROM excluded).
    pub fn save_state(&self) -> (buf: Vec<u8>)
        requires
            self.wf(),
        ensures
            buf@ == nes_state_bytes(self),
    {
        let mut buf: Vec<u8> = Vec::new();
        write_u8(&mut buf, 0x4E);
        write_u8(&mut buf, 0x45);
        write_u8(&mut buf, 0x53);
        write_u8(&mut buf, 0x53);
        write_u8(&mut buf, 0x01);
        write_bool(&mut buf, self.pending_nmi);
        write_bool(&mut buf, self.pending_irq);
        self.cpu.save(&mut buf);
        self.bus.save(&mut buf);
        assert(buf@ =~= nes_state_bytes(self));
        buf
    }

    /// Restores a state written by `save_state` (the ROM is kept). Returns false, leaving
    /// the emulator unchanged, when the header is wrong, the data is too short, or the
    /// bytes do not describe a valid state.
    pub fn load_state(&mut self, data: &[u8]) -> (ok: bool)
        requires
            old(self).wf(),
        ensures
            final(self).wf(),
            ok == nes_state_accepted(old(self).bus.cartridge, data@),
            !ok ==> *final(self) == *old(self),
            ok ==> nes_loaded(&*final(self), &*old(self), data@),
    {
        let n = data.len();
        if n < 5 || data[0] != 0x4E || data[1] != 0x45 || data[2] != 0x53 || data[3] != 0x53 || data[4]
            != 0x01 {
            assert(!(data@.subrange(0, 5) == nes_state_header()) || n < 5) by {
                if n >= 5 && data@.subrange(0, 5) == nes_state_header() {
                    assert(data@[0] == data@.subrange(0, 5)[0]);
                    assert(data@[1] == data@.subrange(0, 5)[1]);
                    assert(data@[2] == data@.subrange(0, 5)[2]);
                    assert(data@[3] == data@.subrange(0, 5)[3]);
                    assert(data@[4] == data@.subrange(0, 5)[4]);
                }
            }
            return false;
        }
        assert(data@.subrange(0, 5) =~= nes_state_header());
        let cart_off: usize = BUS_OFFSET + RAM_SIZE + 7 + 2411 + crate::nes::ppu::FRAME_BYTES + 100;
        proof {
            assert(cart_off == BUS_OFFSET + nes_bus_cart_offset());
        }
        if n < cart_off {
            return false;
        }
        if !self.bus.cartridge.state_fits_at(data, cart_off) {
            return false;
        }
        if !self.bus.cartridge.load_ok_at(data, cart_off) {
            return false;
        }
        let mut off: usize = BUS_OFFSET + RAM_SIZE + 7;
        let mut ppu = NesPpu::new();
        ppu.load(data, &mut off);
        let mut apu = NesApu::new();
        apu.load(data, &mut off);
        proof {
            crate::nes::ppu::lemma_nes_ppu_loaded_wf(&ppu, data@, BUS_OFFSET + 2055);
            crate::nes::apu::lemma_nes_apu_loaded_wf(&apu, data@, BUS_OFFSET + 2055 + nes_ppu_bytes_len());
        }
        if !ppu.is_valid() || !apu.is_valid() {
            return false;
        }
        let mut off: usize = 5;
        self.pending_nmi = read_bool(data, &mut off);
        self.pending_irq = read_bool(data, &mut off);
        self.cpu.load(data, &mut off);
        self.bus.load(data, &mut off);
        assert(self.bus.ppu.wf());
        true
    }
}

/// Loading what `save_state` wrote, into an emulator running the same cartridge ROM, is
/// accepted and gives back the saved emulator: the same interrupt flags, the same CPU and the
/// bus in the same saved state (the recorded audio samples are not part of a save).
#[verifier::spinoff_prover]
#[verifier::rlimit(40)]
pub proof fn lemma_save_load_roundtrip(e: &NesEmulator, g: &NesEmulator, f: &NesEmulator)
    requires
        e.wf(),
        same_rom(g.bus.cartridge, e.bus.cartridge),
        nes_loaded(f, g, nes_state_bytes(e)),
    ensures
        nes_state_accepted(g.bus.cartridge, nes_state_bytes(e)),
        f.pending_nmi == e.pending_nmi && f.pending_irq == e.pending_irq,
        f.cpu == e.cpu,
        same_saved_bus(&f.bus, &e.bus),
{
    let d = nes_state_bytes(e);
    lemma_nes_state_layout(e);
    crate::nes::cpu::lemma_nes_cpu_roundtrip(e.cpu, d, 7);
    crate::nes::bus::lemma_nes_bus_roundtrip(&e.bus, g.bus.cartridge, &f.bus, d, 18);
}

/// Where each part of a saved emulator lies.
proof fn lemma_nes_state_layout(e: &NesEmulator)
    ensures
        ({
            let d = nes_state_bytes(e);
            let m = nes_bus_bytes(&e.bus).len() as int;
            &&& d.len() == 18 + m
            &&& d.subrange(0, 5) == nes_state_header()
            &&& d[5] == bool_byte(e.pending_nmi) && d[6] == bool_byte(e.pending_irq)
            &&& d.subrange(7, 18) == nes_cpu_bytes(e.cpu)
            &&& d.subrange(18, 18 + m) == nes_bus_bytes(&e.bus)
        }),
{
    let d = nes_state_bytes(e);
    let h = nes_state_header();
    let cb = nes_cpu_bytes(e.cpu);
    let bb = nes_bus_bytes(&e.bus);
    let m = bb.len() as int;
    assert(cb.len() == 11);
    assert(d.len() == 18 + m);
    assert(d.subrange(0, 5) =~= h);
    assert(d.subrange(7, 18) =~= cb);
    assert(d.subrange(18, 18 + m) =~= bb);
}

} // verus!
