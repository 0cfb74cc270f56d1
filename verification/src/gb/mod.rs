//! Game Boy (DMG) backend.

pub mod timer;
pub mod cpu;
pub mod cpu_exec;
pub mod ppu;
pub mod apu;
pub mod mmu;

use vstd::prelude::*;
use crate::gb::cpu::{cpu_bytes, cpu_from_bytes, Cpu, Registers};
use crate::gb::cpu_exec::{adv, cycles_spec, dispatch_rel, exec_rel, lowest_bit, pending_spec, step_start};
use crate::gb::mmu::{
    apu_step_rel, mem_read_spec, ppu_step_rel, timer_step_rel, mmu_bytes, mmu_bytes_valid, mmu_fits, mmu_loaded, mmu_regs_start, mmu_tail_len, same_saved_mmu, Mmu,
};
use crate::gb::ppu::{mode_threshold, ppu_from_bytes, Ppu};
use crate::save_state::{dec32, le32, read_u32, write_u32, write_u8};

verus! {

/// CPU cycles per frame: 4.194304 MHz / 59.7 fps.
pub const CYCLES_PER_FRAME: u32 = 70_224;

/// The most cycles one instruction or interrupt dispatch takes.
pub const MAX_STEP_CYCLES: u32 = 24;

/// Save-state header: "GBSS" and a version byte.
pub open spec fn gb_state_header() -> Seq<u8> {
    seq![0x47u8, 0x42u8, 0x53u8, 0x53u8, 0x01u8]
}

/// The serialized emulator: header, CPU, bus, cycle count within the frame.
pub open spec fn gb_state_bytes(e: &GbEmulator) -> Seq<u8> {
    gb_state_header() + cpu_bytes(e.cpu) + mmu_bytes(&e.mmu) + le32(e.cycles_this_frame)
}

/// An instruction or dispatch takes between 4 and 24 cycles.
pub proof fn lemma_cycles_bounded(op: u8, cb: u8, f: u8)
    ensures
        4 <= cycles_spec(op, cb, f) <= MAX_STEP_CYCLES,
{
}

/// One instruction, or a halted CPU idling, from `c0` and `m0` to `c1` and `m1` in `cycles`
/// cycles (what `Cpu::step` does).
pub open spec fn gb_step_rel(c0: Cpu, m0: Mmu, c1: Cpu, m1: Mmu, cycles: u32) -> bool {
    if c0.halted {
        &&& cycles == 4
        &&& m1 == m0
        &&& c1 == (Cpu { ime: c0.ime || c0.ime_pending, ime_pending: false, ..c0 })
    } else {
        let op = mem_read_spec(&m0, c0.regs.pc);
        &&& exec_rel(op, &step_start(&c0), &m0, &c1, &m1)
        &&& cycles == cycles_spec(op, mem_read_spec(&m0, adv(c0.regs.pc, 1)), c0.regs.f)
    }
}

/// The CPU part of one pass of the frame loop: the pending interrupt is served when IME is
/// set; otherwise (a pending interrupt having woken a halted CPU) one instruction runs.
pub open spec fn gb_cpu_pass(c0: Cpu, m0: Mmu, c1: Cpu, m1: Mmu, cycles: u32) -> bool {
    let pending = pending_spec(&m0) != 0;
    if pending && c0.ime {
        cycles == 20 && dispatch_rel(lowest_bit(pending_spec(&m0)), &c0, &m0, &c1, &m1)
    } else {
        gb_step_rel(if pending { Cpu { halted: false, ..c0 } } else { c0 }, m0, c1, m1, cycles)
    }
}

/// The rest of a pass: the timer, then the PPU, then the APU run for `cycles` cycles, and the
/// frame's cycle count grows by them.
pub open spec fn gb_tick_rel(a: GbEmulator, b: GbEmulator, cycles: u32) -> bool {
    &&& b.cpu == a.cpu
    &&& b.cycles_this_frame == a.cycles_this_frame + cycles
    &&& exists|m1: Mmu, m2: Mmu|
        #![trigger timer_step_rel(&a.mmu, &m1, cycles), ppu_step_rel(&m1, &m2, cycles)]
        timer_step_rel(&a.mmu, &m1, cycles) && ppu_step_rel(&m1, &m2, cycles) && apu_step_rel(
            &m2,
            &b.mmu,
            cycles,
        )
}

/// One pass of the frame loop from `a` to `b`, through `mid`, the emulator after its CPU part.
#[verifier::opaque]
pub open spec fn gb_pass(a: GbEmulator, mid: GbEmulator, b: GbEmulator) -> bool {
    &&& mid.cycles_this_frame == a.cycles_this_frame
    &&& 0 < b.cycles_this_frame - a.cycles_this_frame
    &&& gb_cpu_pass(a.cpu, a.mmu, mid.cpu, mid.mmu, (b.cycles_this_frame - a.cycles_this_frame) as u32)
    &&& gb_tick_rel(mid, b, (b.cycles_this_frame - a.cycles_this_frame) as u32)
}

/// A run of the frame loop from `e`: `t` holds the emulator before each pass and at the end,
/// `mids` the emulator after each pass's CPU part; every pass starts below the frame's target
/// and the run ends at the first count that reaches it.
pub open spec fn gb_frame_run(e: GbEmulator, t: Seq<GbEmulator>, mids: Seq<GbEmulator>) -> bool {
    let target = e.cycles_this_frame + CYCLES_PER_FRAME;
    &&& t.len() == mids.len() + 1
    &&& t[0] == e
    &&& forall|i: int|
        0 <= i < mids.len() ==> #[trigger] gb_pass(t[i], mids[i], t[i + 1]) && t[i].cycles_this_frame < target
    &&& t.last().cycles_this_frame >= target
}

/// A run of passes extended by one more pass from its last emulator.
proof fn lemma_frame_run_extend(t: Seq<GbEmulator>, mids: Seq<GbEmulator>, mid: GbEmulator, b: GbEmulator, target: int)
    requires
        t.len() == mids.len() + 1,
        forall|i: int|
            0 <= i < mids.len() ==> #[trigger] gb_pass(t[i], mids[i], t[i + 1]) && t[i].cycles_this_frame < target,
        gb_pass(t.last(), mid, b),
        t.last().cycles_this_frame < target,
    ensures
        ({
            let t2 = t.push(b);
            let m2 = mids.push(mid);
            &&& t2.len() == m2.len() + 1
            &&& t2[0] == t[0]
            &&& t2.last() == b
            &&& forall|i: int|
                0 <= i < m2.len() ==> #[trigger] gb_pass(t2[i], m2[i], t2[i + 1]) && t2[i].cycles_this_frame < target
        }),
{
    let t2 = t.push(b);
    let m2 = mids.push(mid);
    assert forall|i: int| 0 <= i < m2.len() implies #[trigger] gb_pass(t2[i], m2[i], t2[i + 1])
        && t2[i].cycles_this_frame < target by {
        if i < mids.len() {
            assert(t2[i] == t[i] && t2[i + 1] == t[i + 1] && m2[i] == mids[i]);
            assert(gb_pass(t[i], mids[i], t[i + 1]));
        } else {
            assert(t2[i] == t.last() && m2[i] == mid && t2[i + 1] == b);
        }
    }
}

/// High-level Game Boy emulator wrapping CPU and bus.
pub struct GbEmulator {
    pub cpu: Cpu,
    pub mmu: Mmu,
    pub cycles_this_frame: u32,
}

impl GbEmulator {
    /// The bus is well formed, the PPU is inside its current mode, and the state can be saved.
    pub open spec fn wf(&self) -> bool {
        &&& self.mmu.wf()
        &&& self.mmu.ppu.cycle_counter < mode_threshold(self.mmu.ppu.mode)
        &&& self.mmu.ext_ram@.len() <= u32::MAX
    }

    /// An emulator for the cartridge `rom`, in the state the boot ROM leaves.
    pub fn new(rom: &[u8]) -> (e: Self)
        ensures
            e.wf(),
            e.mmu.rom@ == rom@,
            e.cpu.regs == (Registers {
                a: 0x01,
                f: 0xB0,
                b: 0x00,
                c: 0x13,
                d: 0x00,
                e: 0xD8,
                h: 0x01,
                l: 0x4D,
                sp: 0xFFFE,
                pc: 0x0100,
            }),
            !e.cpu.ime && !e.cpu.ime_pending && !e.cpu.halted && !e.cpu.stopped,
            e.mmu.mbc_type == crate::gb::mmu::mbc_type_of(crate::bits::byte_or(rom@, 0x0147, 0)),
            e.cycles_this_frame == 0,
    {
        let mmu = Mmu::new(vstd::slice::slice_to_vec(rom));
        let cpu = Cpu::new();
        GbEmulator { cpu, mmu, cycles_this_frame: 0 }
    }

    /// Advances the timer, PPU and APU by `cycles`.
    fn tick(&mut self, cycles: u32)
        requires
            old(self).wf(),
            0 < cycles <= MAX_STEP_CYCLES,
            old(self).cycles_this_frame + cycles <= u32::MAX,
        ensures
            final(self).wf(),
            final(self).mmu.ext_ram@.len() == old(self).mmu.ext_ram@.len(),
            final(self).mmu.rom@ == old(self).mmu.rom@,
            final(self).cycles_this_frame == old(self).cycles_this_frame + cycles,
            final(self).cpu == old(self).cpu,
            gb_tick_rel(*old(self), *final(self), cycles),
    {
        self.cycles_this_frame = self.cycles_this_frame + cycles;
        self.mmu.step_timer(cycles);
        let ghost m1 = self.mmu;
        self.mmu.step_ppu(cycles);
        let ghost m2 = self.mmu;
        self.mmu.step_apu(cycles);
        proof {
            assert(timer_step_rel(&old(self).mmu, &m1, cycles) && ppu_step_rel(&m1, &m2, cycles));
        }
    }

    /// Runs one frame: serves interrupts and executes instructions until a frame's worth
    /// of cycles has elapsed past the current count, then takes the frame's cycles off
    /// the count (the overshoot stays on it).
    #[verifier::spinoff_prover]
    #[verifier::rlimit(100)]
    pub fn step_frame(&mut self)
        requires
            old(self).wf(),
            old(self).cycles_this_frame <= u32::MAX - CYCLES_PER_FRAME - MAX_STEP_CYCLES,
        ensures
            final(self).wf(),
            final(self).mmu.rom@ == old(self).mmu.rom@,
            old(self).cycles_this_frame <= final(self).cycles_this_frame < old(self).cycles_this_frame
                + MAX_STEP_CYCLES,
            exists|t: Seq<GbEmulator>, mids: Seq<GbEmulator>|
                #[trigger] gb_frame_run(*old(self), t, mids) && *final(self) == (GbEmulator {
                    cycles_this_frame: (t.last().cycles_this_frame - CYCLES_PER_FRAME) as u32,
                    ..t.last()
                }),
    {
        let target = self.cycles_this_frame + CYCLES_PER_FRAME;
        let ghost mut t: Seq<GbEmulator> = seq![*self];
        let ghost mut mids: Seq<GbEmulator> = Seq::empty();
        while self.cycles_this_frame < target
            invariant
                target == old(self).cycles_this_frame + CYCLES_PER_FRAME,
                target <= u32::MAX - MAX_STEP_CYCLES,
                self.wf(),
                old(self).cycles_this_frame <= self.cycles_this_frame < target + MAX_STEP_CYCLES,
                self.mmu.rom@ == old(self).mmu.rom@,
                t.len() == mids.len() + 1,
                t[0] == *old(self),
                t.last() == *self,
                forall|i: int|
                    0 <= i < mids.len() ==> #[trigger] gb_pass(t[i], mids[i], t[i + 1]) && t[i].cycles_this_frame
                        < target,
            decreases target + MAX_STEP_CYCLES - self.cycles_this_frame,
        {
            let ghost s0 = *self;
            let irq_cycles = self.cpu.handle_interrupts(&mut self.mmu);
            let ghost mid = *self;
            if irq_cycles > 0 {
                self.tick(irq_cycles);
            } else {
                let ghost pc = self.cpu.regs.pc;
                let ghost f = self.cpu.regs.f;
                let ghost m = self.mmu;
                let cycles = self.cpu.step(&mut self.mmu);
                proof {
                    lemma_cycles_bounded(
                        crate::gb::mmu::mem_read_spec(&m, pc),
                        crate::gb::mmu::mem_read_spec(&m, crate::gb::cpu_exec::adv(pc, 1)),
                        f,
                    );
                    mid = *self;
                }
                self.tick(cycles);
            }
            proof {
                assert(gb_pass(s0, mid, *self)) by {
                    reveal(gb_pass);
                }
                lemma_frame_run_extend(t, mids, mid, *self, target as int);
                t = t.push(*self);
                mids = mids.push(mid);
            }
        }
        let ghost last = *self;
        self.cycles_this_frame = self.cycles_this_frame - CYCLES_PER_FRAME;
        proof {
            assert(gb_frame_run(*old(self), t, mids));
        }
    }

    /// The RGBA frame buffer (160 x 144 x 4 bytes).
    pub fn frame_buffer(&self) -> (fb: &[u8])
        ensures
            fb@ == self.mmu.ppu.frame_buffer@,
    {
        self.mmu.ppu.frame_buffer.as_slice()
    }

    /// Presses or releases a button (Right=0, Left=1, Up=2, Down=3, A=4, B=5, Select=6, Start=7).
    pub fn set_joypad(&mut self, button: u8, pressed: bool)
        requires
            old(self).wf(),
            button < 12,
        ensures
            final(self).wf(),
            final(self).cpu == old(self).cpu,
            final(self).cycles_this_frame == old(self).cycles_this_frame,
            final(self).mmu == crate::gb::mmu::joypad_pressed(&old(self).mmu, button, pressed),
    {
        self.mmu.set_joypad(button, pressed);
    }

    /// Removes and returns the recorded audio: four channel levels (0-15) per sample.
    pub fn get_audio_samples(&mut self) -> (samples: Vec<u8>)
        requires
            old(self).wf(),
        ensures
            final(self).wf(),
            samples@ == old(self).mmu.apu.buffer@,
            final(self).mmu.apu.buffer@ == Seq::<u8>::empty(),
    {
        self.mmu.apu.get_samples()
    }

    /// Serializes the whole emulator state (the ROM excluded).
    pub fn save_state(&self) -> (buf: Vec<u8>)
        requires
            self.wf(),
        ensures
            buf@ == gb_state_bytes(self),
    {
        let mut buf: Vec<u8> = Vec::new();
        write_u8(&mut buf, 0x47);
        write_u8(&mut buf, 0x42);
        write_u8(&mut buf, 0x53);
        write_u8(&mut buf, 0x53);
        write_u8(&mut buf, 0x01);
        self.cpu.save(&mut buf);
        self.mmu.save(&mut buf);
        write_u32(&mut buf, self.cycles_this_frame);
        assert(buf@ =~= gb_state_bytes(self));
        buf
    }
}

/// Length of the serialized bus after its external RAM.
pub const MMU_TAIL_LEN: usize = 100654;

/// Offset of the external RAM length in a save state: header, CPU, work RAM, high RAM.
pub const EXT_RAM_LEN_OFFSET: usize = 5 + 16 + 0x2000 + 0x7F;

/// Whether `data` is long enough for a save state with the external RAM length it records.
pub open spec fn gb_state_fits(data: Seq<u8>) -> bool {
    &&& data.len() >= EXT_RAM_LEN_OFFSET + 4
    &&& EXT_RAM_LEN_OFFSET + 4 + dec32(data, EXT_RAM_LEN_OFFSET as int) + MMU_TAIL_LEN + 4 <= data.len()
}

/// Where the cycle count is in a save state.
pub open spec fn gb_cycles_offset(data: Seq<u8>) -> int {
    EXT_RAM_LEN_OFFSET + 4 + dec32(data, EXT_RAM_LEN_OFFSET as int) + MMU_TAIL_LEN
}

/// Whether the saved bus describes a well-formed bus whose PPU is inside its current mode.
pub open spec fn gb_state_valid(data: Seq<u8>) -> bool {
    let p = ppu_from_bytes(data, mmu_regs_start(data, 21) + 28);
    &&& mmu_bytes_valid(data, 21)
    &&& p.cycle_counter < mode_threshold(p.mode)
}

/// Whether `load_state` accepts `data`: the header, a length that fits, and a valid state.
pub open spec fn gb_state_accepted(data: Seq<u8>) -> bool {
    &&& data.len() >= 5
    &&& data.subrange(0, 5) == gb_state_header()
    &&& gb_state_fits(data)
    &&& gb_state_valid(data)
}

/// The emulator `e` holds the state that `data` describes (apart from the ROM).
pub open spec fn gb_loaded(e: &GbEmulator, data: Seq<u8>) -> bool {
    &&& e.cpu == cpu_from_bytes(data, 5)
    &&& mmu_loaded(&e.mmu, data, 21)
    &&& e.cycles_this_frame == dec32(data, gb_cycles_offset(data))
}

impl GbEmulator {
    /// Restores a state written by `save_state` (the ROM is kept). Returns false, leaving
    /// the emulator unchanged, when the header or the length is wrong or the bytes do not
    /// describe a valid state.
    pub fn load_state(&mut self, data: &[u8]) -> (ok: bool)
        requires
            old(self).wf(),
        ensures
            final(self).wf(),
            ok == gb_state_accepted(data@),
            !ok ==> *final(self) == *old(self),
            ok ==> gb_loaded(&*final(self), data@) && final(self).mmu.rom@ == old(self).mmu.rom@,
    {
        proof {
            assert(mmu_tail_len() == MMU_TAIL_LEN);
        }
        let n = data.len();
        if n < 5 || data[0] != 0x47 || data[1] != 0x42 || data[2] != 0x53 || data[3] != 0x53 || data[4]
            != 0x01 {
            assert(!(data@.subrange(0, 5) == gb_state_header()) || n < 5) by {
                if n >= 5 && data@.subrange(0, 5) == gb_state_header() {
                    assert(data@[0] == data@.subrange(0, 5)[0]);
                    assert(data@[1] == data@.subrange(0, 5)[1]);
                    assert(data@[2] == data@.subrange(0, 5)[2]);
                    assert(data@[3] == data@.subrange(0, 5)[3]);
                    assert(data@[4] == data@.subrange(0, 5)[4]);
                }
            }
            return false;
        }
        assert(data@.subrange(0, 5) =~= gb_state_header());
        if n < EXT_RAM_LEN_OFFSET + 4 {
            return false;
        }
        let mut off: usize = EXT_RAM_LEN_OFFSET;
        let ext_len = read_u32(data, &mut off) as u64;
        if (n as u64) < EXT_RAM_LEN_OFFSET as u64 + 4 + ext_len + MMU_TAIL_LEN as u64 + 4 {
            return false;
        }
        let mut off: usize = 5;
        let mut cpu = Cpu::new();
        cpu.load(data, &mut off);
        let mut rom: Vec<u8> = Vec::new();
        std::mem::swap(&mut rom, &mut self.mmu.rom);
        let mut mmu = Mmu::new(rom);
        mmu.load(data, &mut off);
        let cycles = read_u32(data, &mut off);
        proof {
            crate::gb::mmu::lemma_mmu_loaded_wf(&mmu, data@, 21);
        }
        let ok = mmu.is_valid() && mmu.ppu.cycle_counter < mmu.ppu.mode_length()
            && mmu.ext_ram.len() as u64 <= 0xFFFF_FFFF;
        if ok {
            self.cpu = cpu;
            self.mmu = mmu;
            self.cycles_this_frame = cycles;
            true
        } else {
            self.mmu.rom = mmu.rom;
            false
        }
    }
}


/// Loading what `save_state` wrote is accepted and gives back the saved emulator: the same
/// CPU, the bus in the same saved state (the ROM and the recorded audio samples are not part
/// of a save) and the same cycle count, when the low four bits of F are clear, as they
/// always are.
#[verifier::spinoff_prover]
#[verifier::rlimit(100)]
pub proof fn lemma_save_load_roundtrip(e: &GbEmulator, f: &GbEmulator)
    requires
        e.wf(),
        e.cpu.regs.f % 16 == 0,
        gb_loaded(f, gb_state_bytes(e)),
    ensures
        gb_state_accepted(gb_state_bytes(e)),
        f.cpu == e.cpu,
        same_saved_mmu(&f.mmu, &e.mmu),
        f.cycles_this_frame == e.cycles_this_frame,
{
    let d = gb_state_bytes(e);
    let h = gb_state_header();
    let cb = cpu_bytes(e.cpu);
    let mb = mmu_bytes(&e.mmu);
    let cy = le32(e.cycles_this_frame);
    let m = mb.len() as int;
    assert(cb.len() == 16);
    assert(cy.len() == 4);
    assert(d.len() == 21 + m + 4);
    assert(d.subrange(0, 5) =~= h);
    assert(d.subrange(5, 21) =~= cb);
    assert(d.subrange(21, 21 + m) =~= mb);
    assert(d.subrange(21 + m, 25 + m) =~= cy);
    crate::gb::cpu::lemma_cpu_roundtrip(e.cpu, d, 5);
    crate::gb::mmu::lemma_mmu_roundtrip(&e.mmu, &f.mmu, d, 21);
    crate::save_state::lemma_le32_roundtrip(e.cycles_this_frame, d, 21 + m);
    assert(mmu_tail_len() == MMU_TAIL_LEN);
    assert(dec32(d, EXT_RAM_LEN_OFFSET as int) == e.mmu.ext_ram@.len());
    assert(gb_cycles_offset(d) == 21 + m);
}

} // verus!
