//! Game Boy timer registers.
//!
//! DIV  0xFF04 – upper byte of an internal 16-bit counter
//! TIMA 0xFF05 – timer counter
//! TMA  0xFF06 – timer modulo (reload value)
//! TAC  0xFF07 – timer control: bit 2 runs the timer, bits 1-0 select the clock
//!   00 = CPU clock / 1024, 01 = / 16, 10 = / 64, 11 = / 256

use vstd::prelude::*;
use crate::save_state::{
    dec16, dec32, le16, le32, lemma_le16_roundtrip, lemma_le32_roundtrip, read_u16, read_u32, read_u8,
    write_u16, write_u32, write_u8,
};

verus! {

/// Number of CPU cycles per TIMA increment for a TAC value.
pub open spec fn tac_period(tac: u8) -> u32 {
    let sel = tac % 4;
    if sel == 0 {
        1024
    } else if sel == 1 {
        16
    } else if sel == 2 {
        64
    } else {
        256
    }
}

/// TIMA's rate, for every TAC: clock select 0-3 count at 4096, 262144, 65536 and 16384 Hz
/// of the 4194304 Hz CPU clock.
pub proof fn lemma_tac_rates(tac: u8)
    ensures
        tac_period(tac) * (if tac % 4 == 0 {
            4096int
        } else if tac % 4 == 1 {
            262144
        } else if tac % 4 == 2 {
            65536
        } else {
            16384
        }) == 4194304,
{
}

/// Whether TAC has its run bit (bit 2) set.
pub open spec fn tac_running(tac: u8) -> bool {
    (tac / 4) % 2 == 1
}

/// TIMA after `k` increments, each increment past 0xFF reloading TMA.
pub open spec fn tima_after(tima: u8, tma: u8, k: nat) -> u8
    decreases k,
{
    if k == 0 {
        tima
    } else {
        let t = tima_after(tima, tma, (k - 1) as nat);
        if t == 255 {
            tma
        } else {
            (t + 1) as u8
        }
    }
}

/// Whether any of the first `k` increments overflowed TIMA.
pub open spec fn tima_overflowed(tima: u8, tma: u8, k: nat) -> bool
    decreases k,
{
    if k == 0 {
        false
    } else {
        tima_overflowed(tima, tma, (k - 1) as nat) || tima_after(tima, tma, (k - 1) as nat) == 255
    }
}

/// The serialized form of a timer.
pub open spec fn timer_bytes(counter: u16, tima: u8, tma: u8, tac: u8, tima_cycles: u32) -> Seq<u8> {
    le16(counter) + seq![tima, tma, tac] + le32(tima_cycles)
}

pub struct Timer {
    /// Internal 16-bit counter; DIV is its upper byte.
    pub internal_counter: u16,
    /// TIMA – timer counter (0xFF05)
    pub tima: u8,
    /// TMA – timer modulo (0xFF06)
    pub tma: u8,
    /// TAC – timer control (0xFF07)
    pub tac: u8,
    /// CPU cycles accumulated toward the next TIMA increment.
    pub tima_cycles: u32,
}

impl Timer {
    /// The accumulated cycles never reach a full period of the slowest clock.
    pub open spec fn wf(&self) -> bool {
        self.tima_cycles < 1024
    }

    pub fn new() -> (t: Self)
        ensures
            t.internal_counter == 0,
            t.tima == 0,
            t.tma == 0,
            t.tac == 0,
            t.tima_cycles == 0,
            t.wf(),
    {
        Timer { internal_counter: 0, tima: 0, tma: 0, tac: 0, tima_cycles: 0 }
    }

    /// Reads DIV: the upper byte of the internal counter.
    pub fn read_div(&self) -> (v: u8)
        ensures
            v == self.internal_counter / 256,
    {
        (self.internal_counter / 256) as u8
    }

    /// Writing any value to DIV resets the internal counter and the TIMA accumulator.
    pub fn write_div(&mut self)
        ensures
            final(self).internal_counter == 0,
            final(self).tima_cycles == 0,
            final(self).tima == old(self).tima,
            final(self).tma == old(self).tma,
            final(self).tac == old(self).tac,
            final(self).wf(),
    {
        self.internal_counter = 0;
        self.tima_cycles = 0;
    }

    /// The clock period in CPU cycles selected by TAC.
    fn clock_period(&self) -> (p: u32)
        ensures
            p == tac_period(self.tac),
    {
        let sel = self.tac % 4;
        if sel == 0 {
            1024
        } else if sel == 1 {
            16
        } else if sel == 2 {
            64
        } else {
            256
        }
    }

    /// Advances the timer by `cycles` CPU cycles.
    ///
    /// Returns whether TIMA overflowed, which requests the timer interrupt.
    pub fn step(&mut self, cycles: u32) -> (interrupt: bool)
        requires
            old(self).wf(),
            tac_running(old(self).tac) ==> old(self).tima_cycles + cycles <= u32::MAX,
        ensures
            final(self).wf(),
            final(self).internal_counter == (old(self).internal_counter + cycles) % 0x1_0000,
            final(self).tma == old(self).tma,
            final(self).tac == old(self).tac,
            !tac_running(old(self).tac) ==> {
                &&& !interrupt
                &&& final(self).tima == old(self).tima
                &&& final(self).tima_cycles == old(self).tima_cycles
            },
            tac_running(old(self).tac) ==> {
                let total: int = old(self).tima_cycles + cycles;
                let p = tac_period(old(self).tac) as int;
                let k = (total / p) as nat;
                &&& final(self).tima_cycles == total % p
                &&& final(self).tima == tima_after(old(self).tima, old(self).tma, k)
                &&& interrupt == tima_overflowed(old(self).tima, old(self).tma, k)
            },
    {
        self.internal_counter = self.internal_counter.wrapping_add((cycles % 0x1_0000) as u16);

        let running = (self.tac / 4) % 2 == 1;
        if !running {
            return false;
        }

        let period = self.clock_period();
        let ghost tima0 = self.tima;
        let ghost tma0 = self.tma;
        let ghost tac0 = self.tac;
        let ghost counter1 = self.internal_counter;
        let ghost total: int = self.tima_cycles + cycles;
        self.tima_cycles = self.tima_cycles + cycles;

        let mut interrupt = false;
        let mut k: u32 = 0;
        while self.tima_cycles >= period
            invariant
                period == tac_period(self.tac),
                period > 0,
                self.tma == tma0,
                self.tac == tac0,
                self.internal_counter == counter1,
                self.tima_cycles + k * period == total,
                self.tima == tima_after(tima0, tma0, k as nat),
                interrupt == tima_overflowed(tima0, tma0, k as nat),
                total <= u32::MAX,
            decreases self.tima_cycles,
        {
            self.tima_cycles = self.tima_cycles - period;
            if self.tima == 255 {
                self.tima = self.tma;
                interrupt = true;
            } else {
                self.tima = self.tima + 1;
            }
            assert(k * period + period == (k + 1) * period) by (nonlinear_arith);
            assert((k + 1) * period <= total);
            assert(k + 1 <= u32::MAX) by (nonlinear_arith)
                requires
                    (k + 1) * period <= total,
                    total <= u32::MAX,
                    period > 0,
            ;
            k = k + 1;
        }
        proof {
            assert(total / (period as int) == k as int && total % (period as int) == self.tima_cycles as int)
                by (nonlinear_arith)
                requires
                    self.tima_cycles + k * period == total,
                    self.tima_cycles < period,
                    period > 0,
            ;
        }
        interrupt
    }

    /// Appends the timer state: the counter, TIMA, TMA, TAC and the accumulator.
    pub fn save(&self, buf: &mut Vec<u8>)
        ensures
            final(buf)@ == old(buf)@ + timer_bytes(
                self.internal_counter,
                self.tima,
                self.tma,
                self.tac,
                self.tima_cycles,
            ),
    {
        write_u16(buf, self.internal_counter);
        write_u8(buf, self.tima);
        write_u8(buf, self.tma);
        write_u8(buf, self.tac);
        write_u32(buf, self.tima_cycles);
        assert(buf@ =~= old(buf)@ + timer_bytes(
            self.internal_counter,
            self.tima,
            self.tma,
            self.tac,
            self.tima_cycles,
        ));
    }

    /// Restores the timer state written by `save`.
    pub fn load(&mut self, data: &[u8], off: &mut usize)
        requires
            *old(off) + 9 <= data@.len(),
        ensures
            ({
                let o = *old(off) as int;
                &&& final(self).internal_counter == dec16(data@, o)
                &&& final(self).tima == data@[o + 2]
                &&& final(self).tma == data@[o + 3]
                &&& final(self).tac == data@[o + 4]
                &&& final(self).tima_cycles == dec32(data@, o + 5)
            }),
            *final(off) == *old(off) + 9,
    {
        self.internal_counter = read_u16(data, off);
        self.tima = read_u8(data, off);
        self.tma = read_u8(data, off);
        self.tac = read_u8(data, off);
        self.tima_cycles = read_u32(data, off);
    }
}

/// Loading what `save` wrote restores every field of the timer.
pub proof fn lemma_timer_roundtrip(t: Timer, data: Seq<u8>, o: int)
    requires
        0 <= o,
        o + 9 <= data.len(),
        data.subrange(o, o + 9) == timer_bytes(
            t.internal_counter,
            t.tima,
            t.tma,
            t.tac,
            t.tima_cycles,
        ),
    ensures
        dec16(data, o) == t.internal_counter,
        data[o + 2] == t.tima,
        data[o + 3] == t.tma,
        data[o + 4] == t.tac,
        dec32(data, o + 5) == t.tima_cycles,
{
    let b = timer_bytes(t.internal_counter, t.tima, t.tma, t.tac, t.tima_cycles);
    assert(data.subrange(o, o + 2) =~= b.subrange(0, 2));
    assert(b.subrange(0, 2) =~= le16(t.internal_counter));
    lemma_le16_roundtrip(t.internal_counter, data, o);
    assert(data[o + 2] == b[2]);
    assert(data[o + 3] == b[3]);
    assert(data[o + 4] == b[4]);
    assert(data.subrange(o + 5, o + 9) =~= b.subrange(5, 9));
    assert(b.subrange(5, 9) =~= le32(t.tima_cycles));
    lemma_le32_roundtrip(t.tima_cycles, data, o + 5);
}

/// `k1` increments of TIMA and then `k2` more are `k1 + k2` increments.
proof fn lemma_tima_after_add(tima: u8, tma: u8, k1: nat, k2: nat)
    ensures
        tima_after(tima_after(tima, tma, k1), tma, k2) == tima_after(tima, tma, k1 + k2),
        tima_overflowed(tima, tma, k1 + k2) == (tima_overflowed(tima, tma, k1) || tima_overflowed(
            tima_after(tima, tma, k1),
            tma,
            k2,
        )),
    decreases k2,
{
    if k2 > 0 {
        lemma_tima_after_add(tima, tma, k1, (k2 - 1) as nat);
        assert((k1 + k2 - 1) as nat == k1 + (k2 - 1) as nat);
    }
}

/// Stepping a running timer by `c1` and then by `c2` cycles counts as one step of `c1 + c2`
/// cycles: TIMA takes one increment per whole period of the cycles plus the carried-over
/// remainder, the remainder left is the same, and an overflow is requested when either step
/// requests one.
pub proof fn lemma_timer_steps_compose(tima: u8, tma: u8, tac: u8, acc: u32, c1: u32, c2: u32)
    requires
        tac_running(tac),
    ensures
        ({
            let p = tac_period(tac) as int;
            let k1 = ((acc + c1) / p) as nat;
            let acc1 = (acc + c1) % p;
            let k2 = ((acc1 + c2) / p) as nat;
            let k = ((acc + c1 + c2) / p) as nat;
            &&& tima_after(tima_after(tima, tma, k1), tma, k2) == tima_after(tima, tma, k)
            &&& (acc1 + c2) % p == (acc + c1 + c2) % p
            &&& (tima_overflowed(tima, tma, k1) || tima_overflowed(tima_after(tima, tma, k1), tma, k2))
                == tima_overflowed(tima, tma, k)
        }),
{
    let p = tac_period(tac) as int;
    let t1 = acc + c1;
    let q1 = t1 / p;
    let r1 = t1 % p;
    let q2 = (r1 + c2) / p;
    let r2 = (r1 + c2) % p;
    assert(p > 0);
    vstd::arithmetic::div_mod::lemma_fundamental_div_mod(t1, p);
    vstd::arithmetic::div_mod::lemma_fundamental_div_mod(r1 + c2, p);
    assert(t1 + c2 == (q1 + q2) * p + r2) by (nonlinear_arith)
        requires
            t1 == p * q1 + r1,
            r1 + c2 == p * q2 + r2,
    ;
    assert(0 <= r2 < p);
    vstd::arithmetic::div_mod::lemma_fundamental_div_mod_converse_div(t1 + c2, p, q1 + q2, r2);
    vstd::arithmetic::div_mod::lemma_fundamental_div_mod_converse_mod(t1 + c2, p, q1 + q2, r2);
    assert(q1 >= 0 && q2 >= 0);
    lemma_tima_after_add(tima, tma, q1 as nat, q2 as nat);
    assert((q1 + q2) as nat == q1 as nat + q2 as nat);
}

} // verus!
