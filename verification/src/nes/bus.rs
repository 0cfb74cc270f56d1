//! NES CPU memory bus.
//!
//! CPU address space:
//!   0x0000-0x07FF  internal RAM (mirrored to 0x1FFF)
//!   0x2000-0x3FFF  PPU registers (8 registers, mirrored)
//!   0x4000-0x4013, 0x4015  APU registers
//!   0x4014         OAM DMA
//!   0x4016         joypad 1
//!   0x4017         joypad 2 / APU frame counter
//!   0x4020-0xFFFF  cartridge (PRG ROM / RAM)

use vstd::prelude::*;
use crate::bits::{bit_set, clear_bit, set_bit, with_bit_cleared, with_bit_set};
use crate::nes::apu::{apu_status_spec, apu_write_spec, nes_apu_bytes, nes_apu_bytes_len, nes_apu_loaded, NesApu};
use crate::nes::cartridge::{cart_write_prg, Cartridge, Mapper};
use crate::nes::ppu::{nes_ppu_bytes, nes_ppu_bytes_len, ppu_reg_read_rel, ppu_reg_write_rel, NesPpu};
use crate::save_state::{bool_byte, read_bool, read_slice, read_u8, write_bool, write_slice, write_u8};

verus! {

pub const RAM_SIZE: usize = 2048;

pub struct NesBus {
    pub ram: Vec<u8>,
    pub ppu: NesPpu,
    pub apu: NesApu,
    pub cartridge: Cartridge,
    /// Current button states, one bit per button (A=0 ... Right=7), 1 = pressed.
    pub joypad1_state: u8,
    /// Shift register the CPU reads serially.
    pub joypad1_shift: u8,
    pub joypad1_strobe: bool,
    pub joypad2_state: u8,
    pub joypad2_shift: u8,
    pub dma_pending: bool,
    pub dma_page: u8,
}

/// The joypad registers of a bus.
pub open spec fn joypads(b: &NesBus) -> (u8, u8, bool, u8, u8) {
    (b.joypad1_state, b.joypad1_shift, b.joypad1_strobe, b.joypad2_state, b.joypad2_shift)
}

/// Addresses whose reads have no side effect: RAM and the cartridge.
pub open spec fn plain_addr(addr: u16) -> bool {
    addr < 0x2000 || addr >= 0x4020
}

/// The byte a CPU read of a plain address gives.
pub open spec fn plain_read(b: &NesBus, addr: u16) -> u8 {
    if addr < 0x2000 {
        b.ram@[(addr % 0x800) as int]
    } else {
        b.cartridge.prg_at(addr)
    }
}

/// The 16-bit value at a plain address (low byte first).
pub open spec fn plain_word_at(b: &NesBus, addr: u16) -> u16 {
    (plain_read(b, ((addr + 1) % 0x1_0000) as u16) * 256 + plain_read(b, addr)) as u16
}

/// A shift register after one serial read: shifted right, 1 shifted in (bus pull-up).
pub open spec fn shift_out(s: u8) -> u8 {
    (s / 2 + 0x80) as u8
}

/// The effect of a CPU read at `addr` returning `v`, from bus `a` to bus `b`.
#[verifier::opaque]
pub open spec fn bus_read_rel(a: &NesBus, b: &NesBus, addr: u16, v: u8) -> bool {
    let j = joypads(a);
    if plain_addr(addr) {
        v == plain_read(a, addr) && *b == *a
    } else if addr < 0x4000 {
        &&& b.ram == a.ram && b.apu == a.apu && b.cartridge == a.cartridge
        &&& joypads(b) == j && b.dma_pending == a.dma_pending && b.dma_page == a.dma_page
        &&& b.ppu.wf()
        &&& ppu_reg_read_rel(&a.ppu, a.cartridge, &b.ppu, b.cartridge, addr, v)
    } else if addr == 0x4015 {
        v == apu_status_spec(&a.apu) && *b == *a
    } else if addr == 0x4016 {
        if a.joypad1_strobe {
            v == a.joypad1_state % 2 && *b == *a
        } else {
            v == a.joypad1_shift % 2 && *b == NesBus { joypad1_shift: shift_out(a.joypad1_shift), ..*a }
        }
    } else if addr == 0x4017 {
        v == a.joypad2_shift % 2 && *b == NesBus { joypad2_shift: shift_out(a.joypad2_shift), ..*a }
    } else {
        v == 0 && *b == *a
    }
}

/// An OAM DMA from bus `a` to bus `b` as a run of 256 CPU reads of page `a.dma_page`, in
/// order: `tr` holds the bus before each read and after the last, `vs` the values read.
/// The values go to OAM from the OAM address the last bus holds, and the pending flag
/// clears.
pub open spec fn nes_dma_trace(a: &NesBus, tr: Seq<NesBus>, vs: Seq<u8>, b: &NesBus) -> bool {
    &&& tr.len() == 257 && vs.len() == 256
    &&& tr[0] == *a
    &&& forall|i: int|
        0 <= i < 256 ==> #[trigger] bus_read_rel(&tr[i], &tr[i + 1], (a.dma_page * 256 + i) as u16, vs[i])
    &&& forall|i: int| 0 <= i < 256 ==> #[trigger] b.ppu.oam@[(tr[256].ppu.oam_addr + i) % 256] == vs[i]
    &&& *b == (NesBus { ppu: NesPpu { oam: b.ppu.oam, ..tr[256].ppu }, dma_pending: false, ..tr[256] })
}

/// The effect of a CPU write of `val` at `addr`, from bus `a` to bus `b`.
#[verifier::opaque]
pub open spec fn bus_write_rel(a: &NesBus, b: &NesBus, addr: u16, val: u8) -> bool {
    if addr < 0x2000 {
        &&& b.ram@ == a.ram@.update((addr % 0x800) as int, val)
        &&& b.ppu == a.ppu && b.apu == a.apu && b.cartridge == a.cartridge
        &&& joypads(b) == joypads(a) && b.dma_pending == a.dma_pending && b.dma_page == a.dma_page
    } else if addr < 0x4000 {
        &&& b.ram == a.ram && b.apu == a.apu
        &&& joypads(b) == joypads(a) && b.dma_pending == a.dma_pending && b.dma_page == a.dma_page
        &&& ppu_reg_write_rel(&a.ppu, a.cartridge, &b.ppu, b.cartridge, addr, val)
    } else if addr <= 0x4013 || addr == 0x4015 || addr == 0x4017 {
        &&& b.ram == a.ram && b.ppu == a.ppu && b.cartridge == a.cartridge
        &&& joypads(b) == joypads(a) && b.dma_pending == a.dma_pending && b.dma_page == a.dma_page
        &&& b.apu == apu_write_spec(a.apu, addr, val)
    } else if addr == 0x4014 {
        *b == NesBus { dma_pending: true, dma_page: val, ..*a }
    } else if addr == 0x4016 {
        let strobe = val % 2 == 1;
        *b == if strobe {
            NesBus {
                joypad1_strobe: true,
                joypad1_shift: a.joypad1_state,
                joypad2_shift: a.joypad2_state,
                ..*a
            }
        } else {
            NesBus { joypad1_strobe: false, ..*a }
        }
    } else if addr < 0x4020 {
        *b == *a
    } else {
        &&& b.ram == a.ram && b.ppu == a.ppu && b.apu == a.apu
        &&& joypads(b) == joypads(a) && b.dma_pending == a.dma_pending && b.dma_page == a.dma_page
        &&& cart_write_prg(a.cartridge, b.cartridge, addr, val)
    }
}

/// A read of RAM or the cartridge gives the byte there and changes nothing.
pub proof fn lemma_plain_read(a: &NesBus, b: &NesBus, addr: u16, v: u8)
    requires
        bus_read_rel(a, b, addr, v),
        plain_addr(addr),
    ensures
        v == plain_read(a, addr),
        *b == *a,
{
    reveal(bus_read_rel);
}

/// A write to RAM changes exactly that RAM byte (mirrors included).
pub proof fn lemma_ram_write(a: &NesBus, b: &NesBus, addr: u16, val: u8)
    requires
        bus_write_rel(a, b, addr, val),
        addr < 0x2000,
    ensures
        b.ram@ == a.ram@.update((addr % 0x800) as int, val),
        b.ppu == a.ppu && b.apu == a.apu && b.cartridge == a.cartridge,
        joypads(b) == joypads(a) && b.dma_pending == a.dma_pending && b.dma_page == a.dma_page,
{
    reveal(bus_write_rel);
}

impl NesBus {
    pub open spec fn wf(&self) -> bool {
        &&& self.ram@.len() == RAM_SIZE
        &&& self.ppu.wf()
        &&& self.apu.wf()
        &&& self.cartridge.wf()
    }

    pub fn new(cartridge: Cartridge) -> (b: Self)
        requires
            cartridge.wf(),
        ensures
            b.wf(),
            b.cartridge == cartridge,
            b.ram@ == Seq::new(RAM_SIZE as nat, |i: int| 0u8),
            joypads(&b) == (0u8, 0u8, false, 0u8, 0u8),
            !b.dma_pending && b.dma_page == 0,
    {
        let ram = vec![0u8; RAM_SIZE];
        assert(ram@ =~= Seq::new(RAM_SIZE as nat, |i: int| 0u8));
        NesBus {
            ram,
            ppu: NesPpu::new(),
            apu: NesApu::new(),
            cartridge,
            joypad1_state: 0,
            joypad1_shift: 0,
            joypad1_strobe: false,
            joypad2_state: 0,
            joypad2_shift: 0,
            dma_pending: false,
            dma_page: 0,
        }
    }

    /// A CPU read.
    pub fn read(&mut self, addr: u16) -> (v: u8)
        requires
            old(self).wf(),
        ensures
            final(self).wf(),
            final(self).cartridge.kind() == old(self).cartridge.kind(),
            bus_read_rel(old(self), final(self), addr, v),
    {
        reveal(bus_read_rel);
        if addr < 0x2000 {
            self.ram[(addr % 0x800) as usize]
        } else if addr < 0x4000 {
            self.ppu.read_register(addr % 8, &mut self.cartridge)
        } else if addr == 0x4015 {
            self.apu.read_status()
        } else if addr == 0x4016 {
            if self.joypad1_strobe {
                self.joypad1_state % 2
            } else {
                let val = self.joypad1_shift % 2;
                self.joypad1_shift = self.joypad1_shift / 2 + 0x80;
                val
            }
        } else if addr == 0x4017 {
            let val = self.joypad2_shift % 2;
            self.joypad2_shift = self.joypad2_shift / 2 + 0x80;
            val
        } else if addr >= 0x4020 {
            self.cartridge.read_prg(addr)
        } else {
            0
        }
    }

    /// A CPU write.
    pub fn write(&mut self, addr: u16, val: u8)
        requires
            old(self).wf(),
        ensures
            final(self).wf(),
            final(self).cartridge.kind() == old(self).cartridge.kind(),
            bus_write_rel(old(self), final(self), addr, val),
    {
        reveal(bus_write_rel);
        if addr < 0x2000 {
            self.ram.set((addr % 0x800) as usize, val);
        } else if addr < 0x4000 {
            self.ppu.write_register(addr % 8, val, &mut self.cartridge);
        } else if addr <= 0x4013 || addr == 0x4015 || addr == 0x4017 {
            self.apu.write_register(addr, val);
        } else if addr == 0x4014 {
            self.dma_pending = true;
            self.dma_page = val;
        } else if addr == 0x4016 {
            self.joypad1_strobe = val % 2 == 1;
            if self.joypad1_strobe {
                self.joypad1_shift = self.joypad1_state;
                self.joypad2_shift = self.joypad2_state;
            }
        } else if addr >= 0x4020 {
            self.cartridge.write_prg(addr, val);
        }
    }

    /// OAM DMA: copies the 256 bytes of CPU page `dma_page` into PPU OAM.
    pub fn do_oam_dma(&mut self)
        requires
            old(self).wf(),
        ensures
            final(self).wf(),
            final(self).cartridge.kind() == old(self).cartridge.kind(),
            !final(self).dma_pending,
            old(self).dma_page < 0x20 || old(self).dma_page >= 0x41 ==> final(self).ppu.oam_addr
                == old(self).ppu.oam_addr,
            old(self).dma_page < 0x20 ==> forall|i: int|
                0 <= i < 256 ==> #[trigger] final(self).ppu.oam@[(old(self).ppu.oam_addr + i) % 256]
                    == old(self).ram@[(old(self).dma_page * 256 + i) % 0x800],
            old(self).dma_page >= 0x41 ==> forall|i: int|
                0 <= i < 256 ==> #[trigger] final(self).ppu.oam@[(old(self).ppu.oam_addr + i) % 256]
                    == old(self).cartridge.prg_at((old(self).dma_page * 256 + i) as u16),
            exists|tr: Seq<NesBus>, vs: Seq<u8>| nes_dma_trace(old(self), tr, vs, final(self)),
    {
        let page = self.dma_page;
        let ghost b0 = *self;
        let ghost mut tr: Seq<NesBus> = seq![*self];
        let mut buf: Vec<u8> = Vec::new();
        let mut i: u16 = 0;
        while i < 256
            invariant
                i <= 256,
                tr.len() == i + 1,
                tr[0] == b0,
                tr.last() == *self,
                forall|j: int|
                    0 <= j < i ==> #[trigger] bus_read_rel(&tr[j], &tr[j + 1], (page * 256 + j) as u16, buf@[j]),
                self.wf(),
                self.cartridge.kind() == b0.cartridge.kind(),
                page == b0.dma_page,
                self.dma_page == page,
                buf@.len() == i,
                page < 0x20 || page >= 0x41 ==> *self == b0,
                page < 0x20 ==> forall|j: int| 0 <= j < i ==> #[trigger] buf@[j] == b0.ram@[(page * 256 + j) % 0x800],
                page >= 0x41 ==> forall|j: int| 0 <= j < i ==> #[trigger] buf@[j] == b0.cartridge.prg_at((page * 256 + j) as u16),
            decreases 256 - i,
        {
            let addr: u16 = (page as u16) * 256 + i;
            let ghost before = *self;
            let v = self.read(addr);
            proof {
                let tr2 = tr.push(*self);
                assert forall|j: int| 0 <= j < i + 1 implies #[trigger] bus_read_rel(
                    &tr2[j],
                    &tr2[j + 1],
                    (page * 256 + j) as u16,
                    buf@.push(v)[j],
                ) by {
                    if j < i {
                        assert(tr2[j] == tr[j] && tr2[j + 1] == tr[j + 1]);
                    } else {
                        assert(tr2[j] == before && tr2[j + 1] == *self);
                    }
                }
                tr = tr2;
                reveal(bus_read_rel);
            }
            buf.push(v);
            i = i + 1;
        }
        self.ppu.write_oam_dma(&buf);
        self.dma_pending = false;
        assert(nes_dma_trace(&b0, tr, buf@, &*self));
    }

    /// Runs the PPU for `cpu_cycles` CPU cycles; returns (frame completed, NMI raised).
    pub fn step_ppu(&mut self, cpu_cycles: u32) -> (r: (bool, bool))
        requires
            old(self).wf(),
            cpu_cycles * 3 <= u32::MAX,
        ensures
            final(self).wf(),
            final(self).cartridge.kind() == old(self).cartridge.kind(),
            r == (final(self).ppu.frame_ready, final(self).ppu.nmi_requested),
            final(self).ppu.pos() == crate::nes::ppu::ppu_pos_after(
                old(self).ppu.pos(),
                old(self).ppu.rendering(),
                (3 * cpu_cycles) as nat,
            ),
            r.0 == crate::nes::ppu::ppu_passes_frame_end(
                old(self).ppu.pos(),
                old(self).ppu.rendering(),
                (3 * cpu_cycles) as nat,
            ),
            r.1 == (old(self).ppu.ctrl >= 0x80 && crate::nes::ppu::ppu_passes_vblank(
                old(self).ppu.pos(),
                old(self).ppu.rendering(),
                (3 * cpu_cycles) as nat,
            )),
            final(self).ram == old(self).ram && final(self).apu == old(self).apu,
            joypads(final(self)) == joypads(old(self)),
            final(self).dma_pending == old(self).dma_pending && final(self).dma_page == old(self).dma_page,
    {
        self.ppu.step(cpu_cycles, &mut self.cartridge)
    }

    /// Runs the APU for `cpu_cycles` CPU cycles.
    pub fn step_apu(&mut self, cpu_cycles: u32)
        requires
            old(self).wf(),
        ensures
            final(self).wf(),
            final(self).ram == old(self).ram && final(self).ppu == old(self).ppu,
            final(self).cartridge == old(self).cartridge,
            joypads(final(self)) == joypads(old(self)),
            final(self).dma_pending == old(self).dma_pending && final(self).dma_page == old(self).dma_page,
            final(self).apu.buffer@.len() == old(self).apu.buffer@.len() + 5 * ((old(self).apu.sample_acc
                + crate::nes::apu::SAMPLE_RATE * cpu_cycles) / crate::nes::apu::CPU_CLOCK as int),
            final(self).apu == (NesApu {
                buffer: final(self).apu.buffer,
                ..crate::nes::apu::apu_run(old(self).apu, cpu_cycles as nat)
            }),
            final(self).apu.buffer@ == old(self).apu.buffer@ + crate::nes::apu::apu_run_samples(
                old(self).apu,
                cpu_cycles as nat,
            ),
    {
        self.apu.step(cpu_cycles);
    }

    /// Presses or releases a button on joypad 1 (A=0, B=1, Select=2, Start=3, Up=4,
    /// Down=5, Left=6, Right=7); other codes are ignored.
    pub fn set_joypad(&mut self, button: u8, pressed: bool)
        ensures
            button < 8 ==> *final(self) == (NesBus {
                joypad1_state: if pressed {
                    set_bit(old(self).joypad1_state, button)
                } else {
                    clear_bit(old(self).joypad1_state, button)
                },
                ..*old(self)
            }),
            button >= 8 ==> *final(self) == *old(self),
    {
        if button < 8 {
            if pressed {
                self.joypad1_state = with_bit_set(self.joypad1_state, button);
            } else {
                self.joypad1_state = with_bit_cleared(self.joypad1_state, button);
            }
        }
    }
}

/// The serialized bus registers and RAM before the PPU, APU and cartridge states.
pub open spec fn nes_bus_head_bytes(b: &NesBus) -> Seq<u8> {
    b.ram@ + seq![
        b.joypad1_state,
        b.joypad1_shift,
        bool_byte(b.joypad1_strobe),
        b.joypad2_state,
        b.joypad2_shift,
        bool_byte(b.dma_pending),
        b.dma_page,
    ]
}

/// The serialized bus: RAM, joypads, DMA, then PPU, APU and cartridge states.
pub open spec fn nes_bus_bytes(b: &NesBus) -> Seq<u8> {
    nes_bus_head_bytes(b) + nes_ppu_bytes(b.ppu) + nes_apu_bytes(&b.apu) + b.cartridge.state_bytes()
}

/// Offset of the cartridge state in a serialized bus.
pub open spec fn nes_bus_cart_offset() -> int {
    RAM_SIZE + 7 + nes_ppu_bytes_len() + nes_apu_bytes_len()
}

/// The bus `b` that `load` restores from the bytes at `o` over a bus with cartridge `prev`.
pub open spec fn nes_bus_loaded(b: &NesBus, prev: Cartridge, d: Seq<u8>, o: int) -> bool {
    &&& b.ram@ == d.subrange(o, o + RAM_SIZE)
    &&& joypads(b) == (d[o + 2048], d[o + 2049], d[o + 2050] != 0, d[o + 2051], d[o + 2052])
    &&& b.dma_pending == (d[o + 2053] != 0) && b.dma_page == d[o + 2054]
    &&& crate::nes::ppu::nes_ppu_loaded(&b.ppu, d, o + 2055)
    &&& nes_apu_loaded(&b.apu, d, o + 2055 + nes_ppu_bytes_len())
    &&& crate::nes::cartridge::cart_loaded(b.cartridge, prev, d, o + nes_bus_cart_offset())
}

impl NesBus {
    /// Appends the bus state (the ROM excluded).
    pub fn save(&self, buf: &mut Vec<u8>)
        requires
            self.wf(),
        ensures
            final(buf)@ == old(buf)@ + nes_bus_bytes(self),
    {
        write_slice(buf, self.ram.as_slice());
        write_u8(buf, self.joypad1_state);
        write_u8(buf, self.joypad1_shift);
        write_bool(buf, self.joypad1_strobe);
        write_u8(buf, self.joypad2_state);
        write_u8(buf, self.joypad2_shift);
        write_bool(buf, self.dma_pending);
        write_u8(buf, self.dma_page);
        assert(buf@ =~= old(buf)@ + nes_bus_head_bytes(self));
        self.ppu.save(buf);
        self.apu.save(buf);
        self.cartridge.save_mapper(buf);
        assert(buf@ =~= old(buf)@ + nes_bus_bytes(self));
    }

    /// Restores the state written by `save`; the cartridge keeps its ROM.
    pub fn load(&mut self, data: &[u8], off: &mut usize)
        requires
            *old(off) + nes_bus_cart_offset() <= data@.len(),
            old(self).cartridge.state_fits(data@, *old(off) + nes_bus_cart_offset()),
        ensures
            nes_bus_loaded(&*final(self), old(self).cartridge, data@, *old(off) as int),
            final(self).cartridge.kind() == old(self).cartridge.kind(),
            old(self).cartridge.wf() && crate::nes::cartridge::cart_load_ok(
                old(self).cartridge,
                data@,
                *old(off) + nes_bus_cart_offset(),
            ) ==> final(self).cartridge.wf(),
            *old(off) + nes_bus_cart_offset() < *final(off) <= data@.len(),
    {
        let ram = read_slice(data, off, RAM_SIZE);
        self.ram = vstd::slice::slice_to_vec(ram);
        self.joypad1_state = read_u8(data, off);
        self.joypad1_shift = read_u8(data, off);
        self.joypad1_strobe = read_bool(data, off);
        self.joypad2_state = read_u8(data, off);
        self.joypad2_shift = read_u8(data, off);
        self.dma_pending = read_bool(data, off);
        self.dma_page = read_u8(data, off);
        self.ppu.load(data, off);
        self.apu.load(data, off);
        self.cartridge.load_mapper(data, off);
    }

    /// Whether the state satisfies `wf` (checked after restoring a saved state).
    pub fn is_valid(&self) -> (b: bool)
        ensures
            b == self.wf(),
    {
        self.ram.len() == RAM_SIZE && self.ppu.is_valid() && self.apu.is_valid() && self.cartridge.is_valid()
    }
}

// ---------------------------------------------------------------------------
// Laws of the bus
// ---------------------------------------------------------------------------

/// A byte written to internal RAM reads back at its address and at every mirror of it.
pub proof fn lemma_ram_mirror(a: &NesBus, b: &NesBus, addr: u16, val: u8, other: u16)
    requires
        a.wf(),
        bus_write_rel(a, b, addr, val),
        addr < 0x2000,
        other < 0x2000,
    ensures
        other % 0x800 == addr % 0x800 ==> plain_read(b, other) == val,
        other % 0x800 != addr % 0x800 ==> plain_read(b, other) == plain_read(a, other),
{
    reveal(bus_write_rel);
}

/// The joypad shift register after `k` serial reads.
pub open spec fn shifted(s: u8, k: nat) -> u8
    decreases k,
{
    if k == 0 {
        s
    } else {
        shift_out(shifted(s, (k - 1) as nat))
    }
}

proof fn lemma_pow2_values()
    ensures
        crate::bits::pow2(0) == 1 && crate::bits::pow2(1) == 2 && crate::bits::pow2(2) == 4 && crate::bits::pow2(3) == 8
            && crate::bits::pow2(4) == 16 && crate::bits::pow2(5) == 32 && crate::bits::pow2(6) == 64 && crate::bits::pow2(7) == 128
            && crate::bits::pow2(8) == 256,
{
    reveal_with_fuel(crate::bits::pow2, 9);
}

proof fn lemma_shifted_value(s: u8, k: nat)
    requires
        k <= 8,
    ensures
        shifted(s, k) == (s as int) / (crate::bits::pow2(k) as int) + 256 - 256int / (crate::bits::pow2(k) as int),
    decreases k,
{
    lemma_pow2_values();
    if k > 0 {
        lemma_shifted_value(s, (k - 1) as nat);
        let p = crate::bits::pow2((k - 1) as nat) as int;
        assert(crate::bits::pow2(k) == 2 * p);
        assert(p == 1 || p == 2 || p == 4 || p == 8 || p == 16 || p == 32 || p == 64 || p == 128);
        let si = s as int;
        let prev = shifted(s, (k - 1) as nat);
        assert(shifted(s, k) == shift_out(prev));
        assert(prev / 2 + 0x80 < 256);
        assert(shift_out(prev) == prev / 2 + 0x80);
        assert((si / p + 256 - 256int / p) / 2 + 128 == si / (2 * p) + 256 - 256int / (2 * p)) by (nonlinear_arith)
            requires
                p == 1 || p == 2 || p == 4 || p == 8 || p == 16 || p == 32 || p == 64 || p == 128,
                0 <= si < 256,
        ;
        assert(shifted(s, k) == si / (2 * p) + 256 - 256int / (2 * p));
    } else {
        assert(shifted(s, k) == s);
    }
}

/// After a strobe loads the shift register with the button states, serial read `k`
/// (counting from 0) returns button `k`'s state for the eight buttons (A, B, Select, Start,
/// Up, Down, Left, Right), and 1 afterwards.
pub proof fn lemma_joypad_serial(s: u8, k: nat)
    ensures
        k < 8 ==> shifted(s, k) % 2 == crate::bits::bit_value(s, k as u8),
        k == 8 ==> shifted(s, k) % 2 == 1,
{
    if k <= 8 {
        lemma_shifted_value(s, k);
        lemma_pow2_values();
        let si = s as int;
        if k < 8 {
            let p = crate::bits::pow2(k) as int;
            assert(p == crate::bits::pow2_8(k as u8)) by {
                if k == 0 {} else if k == 1 {} else if k == 2 {} else if k == 3 {} else if k == 4 {} else if k == 5 {} else if k == 6 {} else {}
            }
            assert(p == 1 || p == 2 || p == 4 || p == 8 || p == 16 || p == 32 || p == 64 || p == 128);
            assert((si / p + 256 - 256int / p) % 2 == (si / p) % 2) by (nonlinear_arith)
                requires
                    p == 1 || p == 2 || p == 4 || p == 8 || p == 16 || p == 32 || p == 64 || p == 128,
                    si >= 0,
            ;
        }
    }
}

// ---------------------------------------------------------------------------
// Reading back a saved bus
// ---------------------------------------------------------------------------

/// Two buses in the same saved state: RAM, joypads, DMA, PPU, APU and cartridge (the recorded
/// audio samples are not part of it).
pub open spec fn same_saved_bus(a: &NesBus, b: &NesBus) -> bool {
    &&& a.ram@ == b.ram@
    &&& joypads(a) == joypads(b)
    &&& a.dma_pending == b.dma_pending && a.dma_page == b.dma_page
    &&& crate::nes::ppu::same_nes_ppu(&a.ppu, &b.ppu)
    &&& crate::nes::apu::same_saved_nes_apu(&a.apu, &b.apu)
    &&& crate::nes::cartridge::same_cart(a.cartridge, b.cartridge)
}

/// Where each part of a saved bus lies.
#[verifier::spinoff_prover]
#[verifier::rlimit(60)]
proof fn lemma_nes_bus_layout(a: &NesBus, d: Seq<u8>, o: int)
    requires
        a.wf(),
        0 <= o,
        o + nes_bus_bytes(a).len() <= d.len(),
        d.subrange(o, o + nes_bus_bytes(a).len()) == nes_bus_bytes(a),
    ensures
        nes_bus_bytes(a).len() == nes_bus_cart_offset() + a.cartridge.state_bytes().len(),
        d.subrange(o, o + 2055) == nes_bus_head_bytes(a),
        d.subrange(o + 2055, o + 2055 + nes_ppu_bytes_len()) == nes_ppu_bytes(a.ppu),
        d.subrange(o + 2055 + nes_ppu_bytes_len(), o + nes_bus_cart_offset()) == nes_apu_bytes(&a.apu),
        d.subrange(o + nes_bus_cart_offset(), o + nes_bus_bytes(a).len()) == a.cartridge.state_bytes(),
{
    let t = nes_bus_bytes(a);
    let n = t.len() as int;
    let h = nes_bus_head_bytes(a);
    let pb = nes_ppu_bytes(a.ppu);
    let ab = nes_apu_bytes(&a.apu);
    let cb = a.cartridge.state_bytes();
    let pl = nes_ppu_bytes_len();
    let co = nes_bus_cart_offset();
    assert(h.len() == 2055);
    assert(pb.len() == pl);
    assert(ab.len() == 100);
    assert(n == co + cb.len());
    assert(t.subrange(0, 2055) =~= h);
    assert(t.subrange(2055, 2055 + pl) =~= pb);
    assert(t.subrange(2055 + pl, co) =~= ab);
    assert(t.subrange(co, n) =~= cb);
    crate::save_state::lemma_subrange_within(d, o, n, 0, 2055);
    crate::save_state::lemma_subrange_within(d, o, n, 2055, 2055 + pl);
    crate::save_state::lemma_subrange_within(d, o, n, 2055 + pl, co);
    crate::save_state::lemma_subrange_within(d, o, n, co, n);
}

/// A bus read back from the bytes of `nes_bus_bytes(a)`, over a cartridge with `a`'s ROM, is in
/// `a`'s saved state, and the bytes are valid and accepted by that cartridge.
#[verifier::spinoff_prover]
#[verifier::rlimit(40)]
pub proof fn lemma_nes_bus_roundtrip(a: &NesBus, g: Cartridge, b: &NesBus, d: Seq<u8>, o: int)
    requires
        a.wf(),
        crate::nes::cartridge::same_rom(g, a.cartridge),
        0 <= o,
        o + nes_bus_bytes(a).len() <= d.len(),
        d.subrange(o, o + nes_bus_bytes(a).len()) == nes_bus_bytes(a),
        nes_bus_loaded(b, g, d, o),
    ensures
        same_saved_bus(b, a),
        crate::nes::ppu::nes_ppu_bytes_valid(d, o + 2055),
        crate::nes::apu::nes_apu_bytes_valid(d, o + 2055 + nes_ppu_bytes_len()),
        g.state_fits(d, o + nes_bus_cart_offset()),
        crate::nes::cartridge::cart_load_ok(g, d, o + nes_bus_cart_offset()),
        nes_bus_bytes(a).len() == nes_bus_cart_offset() + a.cartridge.state_bytes().len(),
{
    let pl = nes_ppu_bytes_len();
    let co = nes_bus_cart_offset();
    lemma_nes_bus_layout(a, d, o);
    let h = nes_bus_head_bytes(a);
    assert(h.subrange(0, 2048) =~= a.ram@);
    crate::save_state::lemma_subrange_within(d, o, 2055, 0, 2048);
    let w = d.subrange(o, o + 2055);
    assert(w[2048] == d[o + 2048] && w[2049] == d[o + 2049] && w[2050] == d[o + 2050]);
    assert(w[2051] == d[o + 2051] && w[2052] == d[o + 2052] && w[2053] == d[o + 2053] && w[2054] == d[o + 2054]);
    assert(h[2048] == a.joypad1_state && h[2049] == a.joypad1_shift && h[2050] == bool_byte(a.joypad1_strobe));
    assert(h[2051] == a.joypad2_state && h[2052] == a.joypad2_shift && h[2053] == bool_byte(a.dma_pending));
    assert(h[2054] == a.dma_page);
    crate::nes::ppu::lemma_nes_ppu_roundtrip(a.ppu, &b.ppu, d, o + 2055);
    crate::nes::apu::lemma_nes_apu_roundtrip(&a.apu, &b.apu, d, o + 2055 + pl);
    crate::nes::cartridge::lemma_cart_roundtrip(a.cartridge, g, b.cartridge, d, o + co);
}

} // verus!
