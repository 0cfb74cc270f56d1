//! Game Boy (DMG) audio processing unit.
//!
//! Channel 1: square wave with frequency sweep; channel 2: square wave;
//! channel 3: wave RAM playback; channel 4: noise (LFSR).
//!
//! Every output sample is recorded as the four channel levels (0..15 each);
//! the mixed sample value is their sum divided by 60.

use vstd::prelude::*;
use crate::bits::{pow2, shl_u32};
use crate::save_state::{
    bool_byte, dec16, dec32, le16, le32, read_bool, read_slice, read_u16, read_u32, read_u8,
    write_bool, write_slice, write_u16, write_u32, write_u8,
};

verus! {

/// Output sample rate (Hz).
pub const SAMPLE_RATE: u32 = 44100;
/// CPU clock (Hz).
pub const CPU_CLOCK: u32 = 4_194_304;
/// CPU cycles per frame-sequencer step (512 Hz).
pub const FRAME_SEQ_PERIOD: u32 = 8192;

/// Output of 8-step duty pattern `duty` (12.5 %, 25 %, 50 %, 75 %) at step `pos`.
pub open spec fn duty_high(duty: u8, pos: u8) -> bool {
    if duty == 0 {
        pos == 7
    } else if duty == 1 {
        pos == 0 || pos == 7
    } else if duty == 2 {
        pos == 0 || pos >= 5
    } else {
        1 <= pos <= 6
    }
}

fn duty_bit(duty: u8, pos: u8) -> (b: bool)
    ensures
        b == duty_high(duty, pos),
{
    if duty == 0 {
        pos == 7
    } else if duty == 1 {
        pos == 0 || pos == 7
    } else if duty == 2 {
        pos == 0 || pos >= 5
    } else {
        1 <= pos && pos <= 6
    }
}

// ---------------------------------------------------------------------------
// Channel 1 – square wave with sweep
// ---------------------------------------------------------------------------
#[derive(Clone, Copy)]
pub struct Channel1 {
    pub sweep_period: u8,
    pub sweep_negate: bool,
    pub sweep_shift: u8,
    pub duty: u8,
    pub length_load: u8,
    pub env_initial: u8,
    pub env_add: bool,
    pub env_period: u8,
    pub frequency: u16,
    pub length_enable: bool,
    pub enabled: bool,
    pub duty_pos: u8,
    pub freq_timer: u16,
    pub length_counter: u8,
    pub env_volume: u8,
    pub env_timer: u8,
    pub sweep_timer: u8,
    pub sweep_freq: u16,
}

/// Register ranges the channel logic relies on.
pub open spec fn ch1_wf(c: Channel1) -> bool {
    c.frequency < 2048 && c.sweep_freq < 2048 && c.duty < 4 && c.duty_pos < 8 && c.sweep_shift < 8
        && c.env_volume < 16 && c.length_counter <= 64 && c.sweep_period < 8 && c.env_initial < 16
        && c.env_period < 8 && c.length_load < 64
}

/// The frequency the sweep unit computes next from `freq`.
pub open spec fn sweep_target(freq: u16, shift: u8, negate: bool) -> int {
    let delta = freq as int / pow2(shift as nat) as int;
    if negate {
        (freq - delta + 0x1_0000) % 0x1_0000
    } else {
        freq + delta
    }
}

/// One sweep clock of channel 1: the sweep timer counts down; on expiry it reloads (8 for a
/// zero period) and, with a non-zero period, the next frequency is computed (an increase past
/// 2047 disables the channel), applied when it fits in 11 bits and the shift is non-zero, and
/// checked once more.
pub open spec fn sweep_clock_spec(c: Channel1) -> Channel1 {
    let t0 = if c.sweep_timer > 0 { (c.sweep_timer - 1) as u8 } else { c.sweep_timer };
    if t0 != 0 {
        Channel1 { sweep_timer: t0, ..c }
    } else {
        let c1 = Channel1 { sweep_timer: if c.sweep_period == 0 { 8 } else { c.sweep_period }, ..c };
        if c.sweep_period == 0 {
            c1
        } else {
            let f = sweep_target(c.sweep_freq, c.sweep_shift, c.sweep_negate);
            let c2 = Channel1 { enabled: c1.enabled && !(!c.sweep_negate && f > 2047), ..c1 };
            if f <= 2047 && c.sweep_shift != 0 {
                let f2 = sweep_target(f as u16, c.sweep_shift, c.sweep_negate);
                Channel1 {
                    sweep_freq: f as u16,
                    frequency: f as u16,
                    enabled: c2.enabled && !(!c.sweep_negate && f2 > 2047),
                    ..c2
                }
            } else {
                c2
            }
        }
    }
}

impl Channel1 {
    pub fn new() -> (c: Self)
        ensures
            c == (Channel1 {
                sweep_period: 0,
                sweep_negate: false,
                sweep_shift: 0,
                duty: 2,
                length_load: 0,
                env_initial: 15,
                env_add: false,
                env_period: 3,
                frequency: 0,
                length_enable: false,
                enabled: false,
                duty_pos: 0,
                freq_timer: 0,
                length_counter: 0,
                env_volume: 15,
                env_timer: 3,
                sweep_timer: 0,
                sweep_freq: 0,
            }),
            ch1_wf(c),
    {
        Channel1 {
            sweep_period: 0,
            sweep_negate: false,
            sweep_shift: 0,
            duty: 2,
            length_load: 0,
            env_initial: 15,
            env_add: false,
            env_period: 3,
            frequency: 0,
            length_enable: false,
            enabled: false,
            duty_pos: 0,
            freq_timer: 0,
            length_counter: 0,
            env_volume: 15,
            env_timer: 3,
            sweep_timer: 0,
            sweep_freq: 0,
        }
    }

    /// Restarts the channel: length refilled when empty, timer, envelope and sweep reloaded.
    pub fn trigger(&mut self)
        requires
            ch1_wf(*old(self)),
        ensures
            ch1_wf(*final(self)),
            *final(self) == ch1_trigger_spec(*old(self)),
    {
        self.enabled = true;
        if self.length_counter == 0 {
            self.length_counter = 64;
        }
        self.freq_timer = (2048 - self.frequency) * 4;
        self.env_volume = self.env_initial;
        self.env_timer = self.env_period;
        self.sweep_freq = self.frequency;
        self.sweep_timer = if self.sweep_period == 0 { 8 } else { self.sweep_period };
        if self.sweep_period != 0 || self.sweep_shift != 0 {
            self.calc_sweep();
        }
    }

    /// The next sweep frequency; an increase past 2047 disables the channel.
    pub fn calc_sweep(&mut self) -> (f: u16)
        requires
            old(self).sweep_freq < 2048,
            old(self).sweep_shift < 8,
        ensures
            f == sweep_target(old(self).sweep_freq, old(self).sweep_shift, old(self).sweep_negate),
            *final(self) == (Channel1 {
                enabled: old(self).enabled && !(!old(self).sweep_negate && f > 2047),
                ..*old(self)
            }),
    {
        let d = shl_divisor(self.sweep_shift);
        let delta = self.sweep_freq / d;
        if self.sweep_negate {
            self.sweep_freq.wrapping_sub(delta)
        } else {
            let new_freq = self.sweep_freq + delta;
            if new_freq > 2047 {
                self.enabled = false;
            }
            new_freq
        }
    }

    /// The output level: the envelope volume while the duty pattern is high.
    pub fn level(&self) -> (l: u8)
        ensures
            l == (if self.enabled && duty_high(self.duty, self.duty_pos) { self.env_volume } else { 0 }),
    {
        if !self.enabled {
            return 0;
        }
        if duty_bit(self.duty, self.duty_pos) {
            self.env_volume
        } else {
            0
        }
    }
}

/// 2 raised to `shift` (< 16), as a divisor.
fn shl_divisor(shift: u8) -> (d: u16)
    requires
        shift < 16,
    ensures
        d == pow2(shift as nat),
        d >= 1,
{
    proof {
        crate::bits::lemma_pow2_le(shift as nat, 15);
        reveal_with_fuel(pow2, 16);
    }
    shl_u32(1, shift as u32) as u16
}

// ---------------------------------------------------------------------------
// Channel 2 – square wave
// ---------------------------------------------------------------------------
#[derive(Clone, Copy)]
pub struct Channel2 {
    pub duty: u8,
    pub length_load: u8,
    pub env_initial: u8,
    pub env_add: bool,
    pub env_period: u8,
    pub frequency: u16,
    pub length_enable: bool,
    pub enabled: bool,
    pub duty_pos: u8,
    pub freq_timer: u16,
    pub length_counter: u8,
    pub env_volume: u8,
    pub env_timer: u8,
}

pub open spec fn ch2_wf(c: Channel2) -> bool {
    c.frequency < 2048 && c.duty < 4 && c.duty_pos < 8 && c.env_volume < 16 && c.length_counter <= 64
        && c.env_initial < 16 && c.env_period < 8 && c.length_load < 64
}

impl Channel2 {
    pub fn new() -> (c: Self)
        ensures
            c == (Channel2 {
                duty: 2,
                length_load: 0,
                env_initial: 0,
                env_add: false,
                env_period: 0,
                frequency: 0,
                length_enable: false,
                enabled: false,
                duty_pos: 0,
                freq_timer: 0,
                length_counter: 0,
                env_volume: 0,
                env_timer: 0,
            }),
            ch2_wf(c),
    {
        Channel2 {
            duty: 2,
            length_load: 0,
            env_initial: 0,
            env_add: false,
            env_period: 0,
            frequency: 0,
            length_enable: false,
            enabled: false,
            duty_pos: 0,
            freq_timer: 0,
            length_counter: 0,
            env_volume: 0,
            env_timer: 0,
        }
    }

    pub fn trigger(&mut self)
        requires
            ch2_wf(*old(self)),
        ensures
            ch2_wf(*final(self)),
            *final(self) == ch2_trigger_spec(*old(self)),
    {
        self.enabled = true;
        if self.length_counter == 0 {
            self.length_counter = 64;
        }
        self.freq_timer = (2048 - self.frequency) * 4;
        self.env_volume = self.env_initial;
        self.env_timer = self.env_period;
    }

    pub fn level(&self) -> (l: u8)
        ensures
            l == (if self.enabled && duty_high(self.duty, self.duty_pos) { self.env_volume } else { 0 }),
    {
        if !self.enabled {
            return 0;
        }
        if duty_bit(self.duty, self.duty_pos) {
            self.env_volume
        } else {
            0
        }
    }
}

// ---------------------------------------------------------------------------
// Channel 3 – wave RAM
// ---------------------------------------------------------------------------
pub struct Channel3 {
    pub dac_power: bool,
    pub length_load: u8,
    pub volume_code: u8,
    pub frequency: u16,
    pub length_enable: bool,
    pub wave_ram: Vec<u8>,
    pub enabled: bool,
    pub position: u8,
    pub freq_timer: u16,
    pub length_counter: u16,
}

pub open spec fn ch3_wf(c: Channel3) -> bool {
    c.frequency < 2048 && c.wave_ram@.len() == 16 && c.position < 32 && c.length_counter <= 256
        && c.volume_code < 4
}

/// The 4-bit sample at `position` (high nibble first), shifted by the volume code.
pub open spec fn wave_level(wave: Seq<u8>, position: u8, volume_code: u8) -> u8 {
    let byte = wave[(position / 2) as int];
    let nibble = if position % 2 == 0 { byte / 16 } else { byte % 16 };
    let code = volume_code % 4;
    if code == 0 {
        0
    } else if code == 1 {
        nibble
    } else if code == 2 {
        nibble / 2
    } else {
        nibble / 4
    }
}

impl Channel3 {
    pub fn new() -> (c: Self)
        ensures
            ch3_wf(c),
            c.wave_ram@ == Seq::new(16, |i| 0u8),
            !c.dac_power && !c.length_enable && !c.enabled,
            c.length_load == 0 && c.volume_code == 0 && c.frequency == 0,
            c.position == 0 && c.freq_timer == 0 && c.length_counter == 0,
    {
        let c = Channel3 {
            dac_power: false,
            length_load: 0,
            volume_code: 0,
            frequency: 0,
            length_enable: false,
            wave_ram: vec![0u8; 16],
            enabled: false,
            position: 0,
            freq_timer: 0,
            length_counter: 0,
        };
        assert(c.wave_ram@ =~= Seq::new(16, |i| 0u8));
        c
    }

    pub fn trigger(&mut self)
        requires
            ch3_wf(*old(self)),
        ensures
            ch3_wf(*final(self)),
            *final(self) == ch3_trigger_spec(*old(self)),
    {
        self.enabled = true;
        if self.length_counter == 0 {
            self.length_counter = 256;
        }
        self.freq_timer = (2048 - self.frequency) * 2;
        self.position = 0;
    }

    pub fn level(&self) -> (l: u8)
        requires
            ch3_wf(*self),
        ensures
            l == (if self.enabled && self.dac_power {
                wave_level(self.wave_ram@, self.position, self.volume_code)
            } else {
                0
            }),
            l < 16,
    {
        if !self.enabled || !self.dac_power {
            return 0;
        }
        let byte = self.wave_ram[(self.position / 2) as usize];
        let nibble = if self.position % 2 == 0 { byte / 16 } else { byte % 16 };
        let code = self.volume_code % 4;
        if code == 0 {
            0
        } else if code == 1 {
            nibble
        } else if code == 2 {
            nibble / 2
        } else {
            nibble / 4
        }
    }
}

// ---------------------------------------------------------------------------
// Channel 4 – noise
// ---------------------------------------------------------------------------
#[derive(Clone, Copy)]
pub struct Channel4 {
    pub length_load: u8,
    pub env_initial: u8,
    pub env_add: bool,
    pub env_period: u8,
    pub clock_shift: u8,
    /// true: 7-bit LFSR, false: 15-bit.
    pub lfsr_width: bool,
    pub clock_divider: u8,
    pub length_enable: bool,
    pub enabled: bool,
    pub lfsr: u16,
    pub freq_timer: u32,
    pub length_counter: u8,
    pub env_volume: u8,
    pub env_timer: u8,
}

pub open spec fn ch4_wf(c: Channel4) -> bool {
    c.clock_shift < 16 && c.clock_divider < 8 && c.env_volume < 16 && c.length_counter <= 64
        && c.freq_timer <= 112 * 0x8000 && c.env_initial < 16 && c.env_period < 8 && c.length_load < 64
}

/// The noise timer period: the divisor (8, or 16 times the divider code) shifted by the clock shift.
pub open spec fn noise_period(divider: u8, shift: u8) -> int {
    (if divider == 0 { 8int } else { divider * 16 }) * pow2(shift as nat)
}

/// The LFSR after one clock: bit 0 XOR bit 1 shifts in at bit 14 (and at bit 6 in 7-bit mode).
pub open spec fn lfsr_next(lfsr: u16, width7: bool) -> u16 {
    let bit = (lfsr ^ (lfsr >> 1)) & 1;
    let l = (lfsr >> 1) | (bit << 14);
    if width7 {
        (l & !0x40u16) | (bit << 6)
    } else {
        l
    }
}

/// One noise LFSR clock, for every 15-bit register: the register moves right one place and
/// the exclusive-or of its two low bits becomes bit 14, and in 7-bit mode bit 6 as well.
pub proof fn lemma_lfsr_next(lfsr: u16)
    requires
        lfsr < 0x8000,
    ensures
        ({
            let b: int = (lfsr % 2 + (lfsr / 2) % 2) % 2;
            &&& lfsr_next(lfsr, false) == lfsr / 2 + 0x4000 * b
            &&& lfsr_next(lfsr, true) == lfsr / 2 + 0x4000 * b - 64 * ((lfsr / 128) % 2) + 64 * b
            &&& lfsr_next(lfsr, false) < 0x8000 && lfsr_next(lfsr, true) < 0x8000
        }),
{
    let bit = (lfsr ^ (lfsr >> 1)) & 1;
    let l = (lfsr >> 1) | (bit << 14);
    assert(l == lfsr / 2 + 0x4000 * ((lfsr % 2 + (lfsr / 2) % 2) % 2) && l < 0x8000 && (l & !0x40u16) | (bit << 6) == lfsr
        / 2 + 0x4000 * ((lfsr % 2 + (lfsr / 2) % 2) % 2) - 64 * ((lfsr / 128) % 2) + 64 * ((lfsr % 2 + (lfsr / 2) % 2) % 2)
        && (l & !0x40u16) | (bit << 6) < 0x8000) by (bit_vector)
        requires
            lfsr < 0x8000,
            bit == (lfsr ^ (lfsr >> 1)) & 1,
            l == (lfsr >> 1) | (bit << 14),
    ;
}

// ---------------------------------------------------------------------------
// Channel timers
// ---------------------------------------------------------------------------

/// How many times a channel timer at `t`, reloaded to `period` each time it runs out, runs
/// out during `r` cycles. A timer at 0 runs out at once (when any cycle is run).
pub open spec fn timer_runs_out(t: int, period: int, r: int) -> int {
    if r <= 0 {
        0
    } else {
        let (t1, e) = if t == 0 { (period, 1int) } else { (t, 0int) };
        if r < t1 { e } else { e + 1 + (r - t1) / period }
    }
}

/// The value of that timer after the `r` cycles.
pub open spec fn timer_after(t: int, period: int, r: int) -> int {
    if r <= 0 {
        t
    } else {
        let t1 = if t == 0 { period } else { t };
        if r < t1 { t1 - r } else { period - (r - t1) % period }
    }
}

/// The noise LFSR after `n` clocks.
pub open spec fn lfsr_after(lfsr: u16, width7: bool, n: nat) -> u16
    decreases n,
{
    if n == 0 {
        lfsr
    } else {
        lfsr_next(lfsr_after(lfsr, width7, (n - 1) as nat), width7)
    }
}

/// Division by `p` of a count that is one period larger.
proof fn lemma_div_mod_one_period(x: int, p: int)
    requires
        0 <= x,
        0 < p,
    ensures
        x < p ==> x / p == 0 && x % p == x,
        x >= p ==> (x - p) / p == x / p - 1 && (x - p) % p == x % p,
{
    if x < p {
        vstd::arithmetic::div_mod::lemma_fundamental_div_mod_converse(x, p, 0, x);
    } else {
        let q = x / p;
        let r = x % p;
        vstd::arithmetic::div_mod::lemma_fundamental_div_mod(x, p);
        vstd::arithmetic::div_mod::lemma_mod_pos_bound(x, p);
        assert(x - p == (q - 1) * p + r) by (nonlinear_arith)
            requires
                x == p * q + r,
        ;
        vstd::arithmetic::div_mod::lemma_fundamental_div_mod_converse(x - p, p, q - 1, r);
    }
}

/// One pass of the timer loop keeps the run's outcome: the expiries seen plus those still
/// to come, and the final timer.
proof fn lemma_timer_step(t: int, p: int, rem: int)
    requires
        0 < p,
        0 < rem,
        0 <= t,
    ensures
        ({
            let step = if rem < t { rem } else { t };
            let t1 = t - step;
            let r1 = rem - step;
            let t2 = if t1 == 0 { p } else { t1 };
            let d: int = if t1 == 0 { 1 } else { 0 };
            &&& d + timer_runs_out(t2, p, r1) == timer_runs_out(t, p, rem)
            &&& timer_after(t2, p, r1) == timer_after(t, p, rem)
        }),
{
    if t > 0 && rem >= t {
        lemma_div_mod_one_period(rem - t, p);
        if rem - t > 0 {
            lemma_div_mod_one_period(rem - t - p + p, p);
        }
    }
    if t == 0 {
        lemma_div_mod_one_period(rem - p + p, p);
    }
}

fn noise_timer_period(divider: u8, shift: u8) -> (p: u32)
    requires
        divider < 8,
        shift < 16,
    ensures
        p == noise_period(divider, shift),
        p <= 112 * 0x8000,
        p >= 8,
{
    let d: u32 = if divider == 0 { 8 } else { divider as u32 * 16 };
    proof {
        crate::bits::lemma_pow2_le(shift as nat, 15);
        reveal_with_fuel(pow2, 16);
        assert(d * pow2(shift as nat) <= 112 * 0x8000) by (nonlinear_arith)
            requires d <= 112, pow2(shift as nat) <= 0x8000;
        assert(d * pow2(shift as nat) >= 8) by (nonlinear_arith)
            requires d >= 8, pow2(shift as nat) >= 1;
    }
    shl_u32(d, shift as u32)
}

impl Channel4 {
    pub fn new() -> (c: Self)
        ensures
            c == (Channel4 {
                length_load: 0,
                env_initial: 0,
                env_add: false,
                env_period: 0,
                clock_shift: 0,
                lfsr_width: false,
                clock_divider: 0,
                length_enable: false,
                enabled: false,
                lfsr: 0x7FFF,
                freq_timer: 0,
                length_counter: 0,
                env_volume: 0,
                env_timer: 0,
            }),
            ch4_wf(c),
    {
        Channel4 {
            length_load: 0,
            env_initial: 0,
            env_add: false,
            env_period: 0,
            clock_shift: 0,
            lfsr_width: false,
            clock_divider: 0,
            length_enable: false,
            enabled: false,
            lfsr: 0x7FFF,
            freq_timer: 0,
            length_counter: 0,
            env_volume: 0,
            env_timer: 0,
        }
    }

    pub fn trigger(&mut self)
        requires
            ch4_wf(*old(self)),
        ensures
            ch4_wf(*final(self)),
            *final(self) == ch4_trigger_spec(*old(self)),
    {
        self.enabled = true;
        if self.length_counter == 0 {
            self.length_counter = 64;
        }
        self.freq_timer = noise_timer_period(self.clock_divider, self.clock_shift);
        self.env_volume = self.env_initial;
        self.env_timer = self.env_period;
        self.lfsr = 0x7FFF;
    }

    /// The envelope volume while LFSR bit 0 is clear.
    pub fn level(&self) -> (l: u8)
        ensures
            l == (if self.enabled && self.lfsr % 2 == 0 { self.env_volume } else { 0 }),
    {
        if !self.enabled {
            return 0;
        }
        if self.lfsr % 2 == 0 {
            self.env_volume
        } else {
            0
        }
    }
}

impl Channel1 {
    /// A write of one of this channel's registers (`addr` 0xFF10-0xFF14).
    pub fn write_reg(&mut self, addr: u16, val: u8)
        requires
            ch1_wf(*old(self)),
            0xFF10 <= addr <= 0xFF14,
        ensures
            ch1_wf(*final(self)),
            *final(self) == ch1_write(*old(self), addr, val),
    {
        if addr == 0xFF10 {
            self.sweep_period = (val / 16) % 8;
            self.sweep_negate = (val / 8) % 2 == 1;
            self.sweep_shift = val % 8;
        } else if addr == 0xFF11 {
            self.duty = val / 64;
            self.length_load = val % 64;
            self.length_counter = 64 - val % 64;
        } else if addr == 0xFF12 {
            self.env_initial = val / 16;
            self.env_add = (val / 8) % 2 == 1;
            self.env_period = val % 8;
        } else if addr == 0xFF13 {
            self.frequency = self.frequency / 256 * 256 + val as u16;
        } else if addr == 0xFF14 {
            self.frequency = self.frequency % 256 + ((val % 8) as u16) * 256;
            self.length_enable = (val / 64) % 2 == 1;
            if val >= 0x80 {
                self.trigger();
            }
        }
    }
}

impl Channel2 {
    /// A write of one of this channel's registers (`addr` 0xFF16-0xFF19).
    pub fn write_reg(&mut self, addr: u16, val: u8)
        requires
            ch2_wf(*old(self)),
            0xFF16 <= addr <= 0xFF19,
        ensures
            ch2_wf(*final(self)),
            *final(self) == ch2_write(*old(self), addr, val),
    {
        if addr == 0xFF16 {
            self.duty = val / 64;
            self.length_load = val % 64;
            self.length_counter = 64 - val % 64;
        } else if addr == 0xFF17 {
            self.env_initial = val / 16;
            self.env_add = (val / 8) % 2 == 1;
            self.env_period = val % 8;
        } else if addr == 0xFF18 {
            self.frequency = self.frequency / 256 * 256 + val as u16;
        } else if addr == 0xFF19 {
            self.frequency = self.frequency % 256 + ((val % 8) as u16) * 256;
            self.length_enable = (val / 64) % 2 == 1;
            if val >= 0x80 {
                self.trigger();
            }
        }
    }
}

impl Channel3 {
    /// A write of one of this channel's registers (`addr` 0xFF1A-0xFF1E).
    pub fn write_reg(&mut self, addr: u16, val: u8)
        requires
            ch3_wf(*old(self)),
            0xFF1A <= addr <= 0xFF1E,
        ensures
            ch3_wf(*final(self)),
            *final(self) == ch3_write(*old(self), addr, val),
    {
        if addr == 0xFF1A {
            self.dac_power = val >= 0x80;
        } else if addr == 0xFF1B {
            self.length_load = val;
            self.length_counter = 256 - val as u16;
        } else if addr == 0xFF1C {
            self.volume_code = (val / 32) % 4;
        } else if addr == 0xFF1D {
            self.frequency = self.frequency / 256 * 256 + val as u16;
        } else if addr == 0xFF1E {
            self.frequency = self.frequency % 256 + ((val % 8) as u16) * 256;
            self.length_enable = (val / 64) % 2 == 1;
            if val >= 0x80 {
                self.trigger();
            }
        }
    }
}

impl Channel4 {
    /// A write of one of this channel's registers (`addr` 0xFF20-0xFF23).
    pub fn write_reg(&mut self, addr: u16, val: u8)
        requires
            ch4_wf(*old(self)),
            0xFF20 <= addr <= 0xFF23,
        ensures
            ch4_wf(*final(self)),
            *final(self) == ch4_write(*old(self), addr, val),
    {
        if addr == 0xFF20 {
            self.length_load = val % 64;
            self.length_counter = 64 - val % 64;
        } else if addr == 0xFF21 {
            self.env_initial = val / 16;
            self.env_add = (val / 8) % 2 == 1;
            self.env_period = val % 8;
        } else if addr == 0xFF22 {
            self.clock_shift = val / 16;
            self.lfsr_width = (val / 8) % 2 == 1;
            self.clock_divider = val % 8;
        } else if addr == 0xFF23 {
            self.length_enable = (val / 64) % 2 == 1;
            if val >= 0x80 {
                self.trigger();
            }
        }
    }
}

/// Channel 1 after its frequency timer runs for `cycles` cycles: each time the timer runs
/// out it reloads with (2048 - frequency) * 4 and the duty step advances.
pub open spec fn ch1_ticked(c: Channel1, cycles: int) -> Channel1 {
    let period = (2048 - c.frequency) * 4;
    Channel1 {
        duty_pos: ((c.duty_pos + timer_runs_out(c.freq_timer as int, period, cycles)) % 8) as u8,
        freq_timer: timer_after(c.freq_timer as int, period, cycles) as u16,
        ..c
    }
}

/// Channel 2 after its frequency timer runs for `cycles` cycles.
pub open spec fn ch2_ticked(c: Channel2, cycles: int) -> Channel2 {
    let period = (2048 - c.frequency) * 4;
    Channel2 {
        duty_pos: ((c.duty_pos + timer_runs_out(c.freq_timer as int, period, cycles)) % 8) as u8,
        freq_timer: timer_after(c.freq_timer as int, period, cycles) as u16,
        ..c
    }
}

/// Channel 3 after its wave timer runs for `cycles` cycles while enabled: each time it runs
/// out it reloads with (2048 - frequency) * 2 and the wave position advances.
pub open spec fn ch3_ticked(c: Channel3, cycles: int) -> Channel3 {
    let period = (2048 - c.frequency) * 2;
    if c.enabled {
        Channel3 {
            position: ((c.position + timer_runs_out(c.freq_timer as int, period, cycles)) % 32) as u8,
            freq_timer: timer_after(c.freq_timer as int, period, cycles) as u16,
            ..c
        }
    } else {
        c
    }
}

/// Channel 4 after its noise timer runs for `cycles` cycles while enabled: each time it
/// runs out it reloads with the divider and shift's period and the LFSR is clocked once.
pub open spec fn ch4_ticked(c: Channel4, cycles: int) -> Channel4 {
    let period = noise_period(c.clock_divider, c.clock_shift);
    if c.enabled {
        Channel4 {
            lfsr: lfsr_after(c.lfsr, c.lfsr_width, timer_runs_out(c.freq_timer as int, period, cycles) as nat),
            freq_timer: timer_after(c.freq_timer as int, period, cycles) as u32,
            ..c
        }
    } else {
        c
    }
}

/// The APU after a length clock: each enabled length counter counts down, silencing its
/// channel on reaching zero.
pub open spec fn length_clock_spec(a: Apu) -> Apu {
    let l1 = length_spec(a.ch1.length_enable, a.ch1.length_counter as u16, a.ch1.enabled);
    let l2 = length_spec(a.ch2.length_enable, a.ch2.length_counter as u16, a.ch2.enabled);
    let l3 = length_spec(a.ch3.length_enable, a.ch3.length_counter, a.ch3.enabled);
    let l4 = length_spec(a.ch4.length_enable, a.ch4.length_counter as u16, a.ch4.enabled);
    Apu {
        ch1: Channel1 { length_counter: l1.0 as u8, enabled: l1.1, ..a.ch1 },
        ch2: Channel2 { length_counter: l2.0 as u8, enabled: l2.1, ..a.ch2 },
        ch3: Channel3 { length_counter: l3.0, enabled: l3.1, ..a.ch3 },
        ch4: Channel4 { length_counter: l4.0 as u8, enabled: l4.1, ..a.ch4 },
        ..a
    }
}

/// The APU after an envelope clock of channels 1, 2 and 4.
pub open spec fn apu_envelope_clock(a: Apu) -> Apu {
    let c1 = a.ch1;
    let c2 = a.ch2;
    let c4 = a.ch4;
    let e1 = envelope_spec(c1.env_period, c1.env_timer, c1.env_add, c1.env_volume);
    let e2 = envelope_spec(c2.env_period, c2.env_timer, c2.env_add, c2.env_volume);
    let e4 = envelope_spec(c4.env_period, c4.env_timer, c4.env_add, c4.env_volume);
    Apu {
        ch1: Channel1 { env_volume: e1.0, env_timer: e1.1, ..c1 },
        ch2: Channel2 { env_volume: e2.0, env_timer: e2.1, ..c2 },
        ch4: Channel4 { env_volume: e4.0, env_timer: e4.1, ..c4 },
        ..a
    }
}

/// The APU after one frame-sequencer step (512 Hz): lengths on even steps, the sweep on
/// steps 2 and 6, envelopes on step 7.
pub open spec fn frame_seq_tick_spec(a: Apu) -> Apu {
    let step = a.frame_seq_step;
    let a1 = if step % 2 == 0 { length_clock_spec(a) } else { a };
    let a2 = if step == 2 || step == 6 { Apu { ch1: sweep_clock_spec(a1.ch1), ..a1 } } else { a1 };
    let a3 = if step == 7 { apu_envelope_clock(a2) } else { a2 };
    Apu { frame_seq_step: ((step + 1) % 8) as u8, ..a3 }
}

/// The APU after `n` frame-sequencer steps.
pub open spec fn frame_seq_run(a: Apu, n: nat) -> Apu
    decreases n,
{
    if n == 0 {
        a
    } else {
        frame_seq_tick_spec(frame_seq_run(a, (n - 1) as nat))
    }
}

/// Frame-sequencer steps leave the registers NR50-NR52, the sample buffer and both
/// accumulators alone.
proof fn lemma_frame_seq_run_keeps(a: Apu, n: nat)
    ensures
        ({
            let b = frame_seq_run(a, n);
            &&& b.buffer == a.buffer && b.cycle_acc == a.cycle_acc && b.frame_seq_cycles == a.frame_seq_cycles
            &&& b.nr50 == a.nr50 && b.nr51 == a.nr51 && b.nr52 == a.nr52
        }),
    decreases n,
{
    if n > 0 {
        lemma_frame_seq_run_keeps(a, (n - 1) as nat);
    }
}

/// The APU state `step` reaches over `cycles` cycles, the sample clock, the frame-sequencer
/// accumulator and the sample buffer apart: while powered (NR52 bit 7) the frame sequencer
/// steps once per 8192 cycles and then the four channel timers run.
pub open spec fn apu_stepped(a: Apu, cycles: int) -> Apu {
    if a.nr52 >= 0x80 {
        let b = frame_seq_run(a, ((a.frame_seq_cycles + cycles) / FRAME_SEQ_PERIOD as int) as nat);
        Apu {
            ch1: ch1_ticked(b.ch1, cycles),
            ch2: ch2_ticked(b.ch2, cycles),
            ch3: ch3_ticked(b.ch3, cycles),
            ch4: ch4_ticked(b.ch4, cycles),
            ..b
        }
    } else {
        a
    }
}

/// Channel 2 as power-on leaves it.
pub open spec fn ch2_new_spec() -> Channel2 {
    Channel2 {
        duty: 2,
        length_load: 0,
        env_initial: 0,
        env_add: false,
        env_period: 0,
        frequency: 0,
        length_enable: false,
        enabled: false,
        duty_pos: 0,
        freq_timer: 0,
        length_counter: 0,
        env_volume: 0,
        env_timer: 0,
    }
}

/// Channel 4 as power-on leaves it.
pub open spec fn ch4_new_spec() -> Channel4 {
    Channel4 {
        length_load: 0,
        env_initial: 0,
        env_add: false,
        env_period: 0,
        clock_shift: 0,
        lfsr_width: false,
        clock_divider: 0,
        length_enable: false,
        enabled: false,
        lfsr: 0x7FFF,
        freq_timer: 0,
        length_counter: 0,
        env_volume: 0,
        env_timer: 0,
    }
}

/// Channel 1 restarted by a trigger: enabled unless the sweep's first target overflows,
/// length refilled when empty, timer, envelope and sweep reloaded.
pub open spec fn ch1_trigger_spec(o: Channel1) -> Channel1 {
    let overflow = (o.sweep_period != 0 || o.sweep_shift != 0) && !o.sweep_negate && sweep_target(
        o.frequency,
        o.sweep_shift,
        false,
    ) > 2047;
    Channel1 {
        enabled: !overflow,
        length_counter: if o.length_counter == 0 { 64 } else { o.length_counter },
        freq_timer: ((2048 - o.frequency) * 4) as u16,
        env_volume: o.env_initial,
        env_timer: o.env_period,
        sweep_freq: o.frequency,
        sweep_timer: if o.sweep_period == 0 { 8 } else { o.sweep_period },
        ..o
    }
}

/// Channel 2 restarted by a trigger.
pub open spec fn ch2_trigger_spec(o: Channel2) -> Channel2 {
    Channel2 {
        enabled: true,
        length_counter: if o.length_counter == 0 { 64 } else { o.length_counter },
        freq_timer: ((2048 - o.frequency) * 4) as u16,
        env_volume: o.env_initial,
        env_timer: o.env_period,
        ..o
    }
}

/// Channel 3 restarted by a trigger.
pub open spec fn ch3_trigger_spec(o: Channel3) -> Channel3 {
    Channel3 {
        enabled: true,
        length_counter: if o.length_counter == 0 { 256 } else { o.length_counter },
        freq_timer: ((2048 - o.frequency) * 2) as u16,
        position: 0,
        ..o
    }
}

/// Channel 4 restarted by a trigger.
pub open spec fn ch4_trigger_spec(o: Channel4) -> Channel4 {
    Channel4 {
        enabled: true,
        length_counter: if o.length_counter == 0 { 64 } else { o.length_counter },
        freq_timer: noise_period(o.clock_divider, o.clock_shift) as u32,
        env_volume: o.env_initial,
        env_timer: o.env_period,
        lfsr: 0x7FFF,
        ..o
    }
}

/// Channel 1 after a write of NR10-NR14 (`addr` 0xFF10-0xFF14); NR14 bit 7 triggers it.
pub open spec fn ch1_write(c: Channel1, addr: u16, val: u8) -> Channel1 {
    if addr == 0xFF10 {
        Channel1 { sweep_period: (val / 16) % 8, sweep_negate: (val / 8) % 2 == 1, sweep_shift: val % 8, ..c }
    } else if addr == 0xFF11 {
        Channel1 { duty: val / 64, length_load: val % 64, length_counter: (64 - val % 64) as u8, ..c }
    } else if addr == 0xFF12 {
        Channel1 { env_initial: val / 16, env_add: (val / 8) % 2 == 1, env_period: val % 8, ..c }
    } else if addr == 0xFF13 {
        Channel1 { frequency: (c.frequency / 256 * 256 + val) as u16, ..c }
    } else {
        let c1 = Channel1 {
            frequency: (c.frequency % 256 + (val % 8) * 256) as u16,
            length_enable: (val / 64) % 2 == 1,
            ..c
        };
        if val >= 0x80 { ch1_trigger_spec(c1) } else { c1 }
    }
}

/// Channel 2 after a write of NR21-NR24 (`addr` 0xFF16-0xFF19); NR24 bit 7 triggers it.
pub open spec fn ch2_write(c: Channel2, addr: u16, val: u8) -> Channel2 {
    if addr == 0xFF16 {
        Channel2 { duty: val / 64, length_load: val % 64, length_counter: (64 - val % 64) as u8, ..c }
    } else if addr == 0xFF17 {
        Channel2 { env_initial: val / 16, env_add: (val / 8) % 2 == 1, env_period: val % 8, ..c }
    } else if addr == 0xFF18 {
        Channel2 { frequency: (c.frequency / 256 * 256 + val) as u16, ..c }
    } else {
        let c1 = Channel2 {
            frequency: (c.frequency % 256 + (val % 8) * 256) as u16,
            length_enable: (val / 64) % 2 == 1,
            ..c
        };
        if val >= 0x80 { ch2_trigger_spec(c1) } else { c1 }
    }
}

/// Channel 3 after a write of NR30-NR34 (`addr` 0xFF1A-0xFF1E); NR34 bit 7 triggers it.
pub open spec fn ch3_write(c: Channel3, addr: u16, val: u8) -> Channel3 {
    if addr == 0xFF1A {
        Channel3 { dac_power: val >= 0x80, ..c }
    } else if addr == 0xFF1B {
        Channel3 { length_load: val, length_counter: (256 - val) as u16, ..c }
    } else if addr == 0xFF1C {
        Channel3 { volume_code: (val / 32) % 4, ..c }
    } else if addr == 0xFF1D {
        Channel3 { frequency: (c.frequency / 256 * 256 + val) as u16, ..c }
    } else {
        let c1 = Channel3 {
            frequency: (c.frequency % 256 + (val % 8) * 256) as u16,
            length_enable: (val / 64) % 2 == 1,
            ..c
        };
        if val >= 0x80 { ch3_trigger_spec(c1) } else { c1 }
    }
}

/// Channel 4 after a write of NR41-NR44 (`addr` 0xFF20-0xFF23); NR44 bit 7 triggers it.
pub open spec fn ch4_write(c: Channel4, addr: u16, val: u8) -> Channel4 {
    if addr == 0xFF20 {
        Channel4 { length_load: val % 64, length_counter: (64 - val % 64) as u8, ..c }
    } else if addr == 0xFF21 {
        Channel4 { env_initial: val / 16, env_add: (val / 8) % 2 == 1, env_period: val % 8, ..c }
    } else if addr == 0xFF22 {
        Channel4 { clock_shift: val / 16, lfsr_width: (val / 8) % 2 == 1, clock_divider: val % 8, ..c }
    } else {
        let c1 = Channel4 { length_enable: (val / 64) % 2 == 1, ..c };
        if val >= 0x80 { ch4_trigger_spec(c1) } else { c1 }
    }
}

// ---------------------------------------------------------------------------
// APU
// ---------------------------------------------------------------------------
pub struct Apu {
    pub ch1: Channel1,
    pub ch2: Channel2,
    pub ch3: Channel3,
    pub ch4: Channel4,
    pub nr50: u8,
    pub nr51: u8,
    pub nr52: u8,
    /// Elapsed cycles times the sample rate, toward the next output sample (one every
    /// `CPU_CLOCK`).
    pub cycle_acc: u32,
    /// Output samples, four channel levels each.
    pub buffer: Vec<u8>,
    pub frame_seq_cycles: u32,
    pub frame_seq_step: u8,
}

impl Apu {
    pub open spec fn wf(&self) -> bool {
        &&& ch1_wf(self.ch1)
        &&& ch2_wf(self.ch2)
        &&& ch3_wf(self.ch3)
        &&& ch4_wf(self.ch4)
        &&& self.cycle_acc < CPU_CLOCK
        &&& self.frame_seq_cycles < FRAME_SEQ_PERIOD
        &&& self.frame_seq_step < 8
        &&& self.buffer@.len() % 4 == 0
    }

    /// Whether NR52 bit 7 (master power) is set.
    pub open spec fn powered(&self) -> bool {
        self.nr52 >= 0x80
    }

    pub fn new() -> (a: Self)
        ensures
            a.wf(),
            a.ch1 == Channel1::new_spec(),
            a.nr50 == 0x77 && a.nr51 == 0xF3 && a.nr52 == 0xF1,
            a.cycle_acc == 0 && a.frame_seq_cycles == 0 && a.frame_seq_step == 0,
            a.buffer@ == Seq::<u8>::empty(),
    {
        Apu {
            ch1: Channel1::new(),
            ch2: Channel2::new(),
            ch3: Channel3::new(),
            ch4: Channel4::new(),
            nr50: 0x77,
            nr51: 0xF3,
            nr52: 0xF1,
            cycle_acc: 0,
            buffer: Vec::new(),
            frame_seq_cycles: 0,
            frame_seq_step: 0,
        }
    }
}

impl Channel1 {
    /// The power-on channel 1.
    pub open spec fn new_spec() -> Channel1 {
        Channel1 {
            sweep_period: 0,
            sweep_negate: false,
            sweep_shift: 0,
            duty: 2,
            length_load: 0,
            env_initial: 15,
            env_add: false,
            env_period: 3,
            frequency: 0,
            length_enable: false,
            enabled: false,
            duty_pos: 0,
            freq_timer: 0,
            length_counter: 0,
            env_volume: 15,
            env_timer: 3,
            sweep_timer: 0,
            sweep_freq: 0,
        }
    }
}

/// The register value the CPU reads at `addr` (0xFF10-0xFF3F); unmapped bits read as 1.
pub open spec fn apu_reg_spec(a: &Apu, addr: u16) -> u8 {
    let c1 = a.ch1;
    let c2 = a.ch2;
    let c4 = a.ch4;
    if addr == 0xFF10 {
        0x80 | (c1.sweep_period << 4) | (if c1.sweep_negate { 0x08u8 } else { 0 }) | c1.sweep_shift
    } else if addr == 0xFF11 {
        (c1.duty << 6) | (c1.length_load & 0x3F)
    } else if addr == 0xFF12 {
        (c1.env_initial << 4) | (if c1.env_add { 0x08u8 } else { 0 }) | c1.env_period
    } else if addr == 0xFF14 {
        0x80 | (if c1.length_enable { 0x40u8 } else { 0 }) | 0x3F
    } else if addr == 0xFF16 {
        (c2.duty << 6) | (c2.length_load & 0x3F)
    } else if addr == 0xFF17 {
        (c2.env_initial << 4) | (if c2.env_add { 0x08u8 } else { 0 }) | c2.env_period
    } else if addr == 0xFF19 {
        0x80 | (if c2.length_enable { 0x40u8 } else { 0 }) | 0x3F
    } else if addr == 0xFF1A {
        if a.ch3.dac_power { 0xFF } else { 0x7F }
    } else if addr == 0xFF1B {
        a.ch3.length_load
    } else if addr == 0xFF1C {
        0x9F | (a.ch3.volume_code << 5)
    } else if addr == 0xFF1E {
        0x80 | (if a.ch3.length_enable { 0x40u8 } else { 0 }) | 0x3F
    } else if addr == 0xFF21 {
        (c4.env_initial << 4) | (if c4.env_add { 0x08u8 } else { 0 }) | c4.env_period
    } else if addr == 0xFF22 {
        (c4.clock_shift << 4) | (if c4.lfsr_width { 0x08u8 } else { 0 }) | c4.clock_divider
    } else if addr == 0xFF23 {
        0x80 | (if c4.length_enable { 0x40u8 } else { 0 })
    } else if addr == 0xFF24 {
        a.nr50
    } else if addr == 0xFF25 {
        a.nr51
    } else if addr == 0xFF26 {
        (if a.nr52 >= 0x80 { 0x80u8 } else { 0 }) | (if c1.enabled { 0x01u8 } else { 0 }) | (if c2.enabled {
            0x02u8
        } else {
            0
        }) | (if a.ch3.enabled { 0x04u8 } else { 0 }) | (if c4.enabled { 0x08u8 } else { 0 }) | 0x70
    } else if 0xFF30 <= addr <= 0xFF3F {
        a.ch3.wave_ram@[addr - 0xFF30]
    } else {
        0xFF
    }
}

/// The four channel levels of the current output sample (all 0 when powered off).
pub open spec fn sample_levels(a: &Apu) -> Seq<u8> {
    if a.nr52 >= 0x80 {
        seq![
            if a.ch1.enabled && duty_high(a.ch1.duty, a.ch1.duty_pos) { a.ch1.env_volume } else { 0 },
            if a.ch2.enabled && duty_high(a.ch2.duty, a.ch2.duty_pos) { a.ch2.env_volume } else { 0 },
            if a.ch3.enabled && a.ch3.dac_power { wave_level(a.ch3.wave_ram@, a.ch3.position, a.ch3.volume_code) } else { 0 },
            if a.ch4.enabled && a.ch4.lfsr % 2 == 0 { a.ch4.env_volume } else { 0 },
        ]
    } else {
        seq![0u8, 0u8, 0u8, 0u8]
    }
}

/// `k` copies of a sample.
pub open spec fn repeat_sample(s: Seq<u8>, k: nat) -> Seq<u8>
    decreases k,
{
    if k == 0 {
        Seq::empty()
    } else {
        repeat_sample(s, (k - 1) as nat) + s
    }
}

/// One frame-sequencer step: length counters on even steps, sweep on steps 2 and 6,
/// envelopes on step 7.
pub open spec fn length_step(step: u8) -> bool {
    step % 2 == 0
}

/// What a CPU write of `val` to sound register `addr` does, from APU `a` to APU `b`: the
/// channel registers (NR10-NR44, with the triggers they start), NR50, NR51, the power bit of
/// NR52 (power-off resets all four channels) and the wave RAM; other addresses are ignored.
/// The sample buffer and clocks are untouched.
pub open spec fn apu_write_rel(a: &Apu, b: &Apu, addr: u16, val: u8) -> bool {
    &&& (b.buffer@ == a.buffer@)
    &&& (b.cycle_acc == a.cycle_acc)
    &&& (b.frame_seq_cycles == a.frame_seq_cycles)
    &&& (b.frame_seq_step == a.frame_seq_step)
    &&& (0xFF10 <= addr <= 0xFF14 ==> *b == (Apu { ch1: ch1_write(a.ch1, addr, val), ..*a }))
    &&& (0xFF16 <= addr <= 0xFF19 ==> *b == (Apu { ch2: ch2_write(a.ch2, addr, val), ..*a }))
    &&& (0xFF1A <= addr <= 0xFF1E ==> *b == (Apu { ch3: ch3_write(a.ch3, addr, val), ..*a }))
    &&& (0xFF20 <= addr <= 0xFF23 ==> *b == (Apu { ch4: ch4_write(a.ch4, addr, val), ..*a }))
    &&& (addr == 0xFF24 ==> *b == (Apu { nr50: val, ..*a }))
    &&& (addr == 0xFF25 ==> *b == (Apu { nr51: val, ..*a }))
    &&& (addr == 0xFF26 && val >= 0x80 ==> *b == (Apu { nr52: 0x80, ..*a }))
    &&& (addr == 0xFF26 && val < 0x80 ==> {
        &&& *b == (Apu {
            nr52: 0,
            ch1: Channel1::new_spec(),
            ch2: b.ch2,
            ch3: b.ch3,
            ch4: b.ch4,
            ..*a
        })
        &&& b.ch2 == ch2_new_spec() && b.ch4 == ch4_new_spec()
        &&& b.ch3.wave_ram@ == Seq::new(16, |i| 0u8)
        &&& !b.ch3.dac_power && !b.ch3.length_enable && !b.ch3.enabled
        &&& b.ch3.length_load == 0 && b.ch3.volume_code == 0 && b.ch3.frequency == 0
        &&& b.ch3.position == 0 && b.ch3.freq_timer == 0 && b.ch3.length_counter == 0
    })
    &&& (0xFF30 <= addr <= 0xFF3F ==> b.ch3.wave_ram@ == a.ch3.wave_ram@.update(addr - 0xFF30, val)
        && *b == (Apu {
        ch3: Channel3 { wave_ram: b.ch3.wave_ram, ..a.ch3 },
        ..*a
    }))
    &&& (!(0xFF10 <= addr <= 0xFF14 || 0xFF16 <= addr <= 0xFF1E || 0xFF20 <= addr <= 0xFF26 || 0xFF30 <= addr
        <= 0xFF3F) ==> *b == *a)
}

impl Apu {
    /// Reads an APU register (0xFF10-0xFF3F).
    pub fn read_byte(&self, addr: u16) -> (v: u8)
        requires
            self.wf(),
        ensures
            v == apu_reg_spec(self, addr),
    {
        let c1 = &self.ch1;
        let c2 = &self.ch2;
        let c4 = &self.ch4;
        if addr == 0xFF10 {
            0x80 | (c1.sweep_period << 4) | (if c1.sweep_negate { 0x08u8 } else { 0 }) | c1.sweep_shift
        } else if addr == 0xFF11 {
            (c1.duty << 6) | (c1.length_load & 0x3F)
        } else if addr == 0xFF12 {
            (c1.env_initial << 4) | (if c1.env_add { 0x08u8 } else { 0 }) | c1.env_period
        } else if addr == 0xFF14 {
            0x80 | (if c1.length_enable { 0x40u8 } else { 0 }) | 0x3F
        } else if addr == 0xFF16 {
            (c2.duty << 6) | (c2.length_load & 0x3F)
        } else if addr == 0xFF17 {
            (c2.env_initial << 4) | (if c2.env_add { 0x08u8 } else { 0 }) | c2.env_period
        } else if addr == 0xFF19 {
            0x80 | (if c2.length_enable { 0x40u8 } else { 0 }) | 0x3F
        } else if addr == 0xFF1A {
            if self.ch3.dac_power { 0xFF } else { 0x7F }
        } else if addr == 0xFF1B {
            self.ch3.length_load
        } else if addr == 0xFF1C {
            0x9F | (self.ch3.volume_code << 5)
        } else if addr == 0xFF1E {
            0x80 | (if self.ch3.length_enable { 0x40u8 } else { 0 }) | 0x3F
        } else if addr == 0xFF21 {
            (c4.env_initial << 4) | (if c4.env_add { 0x08u8 } else { 0 }) | c4.env_period
        } else if addr == 0xFF22 {
            (c4.clock_shift << 4) | (if c4.lfsr_width { 0x08u8 } else { 0 }) | c4.clock_divider
        } else if addr == 0xFF23 {
            0x80 | (if c4.length_enable { 0x40u8 } else { 0 })
        } else if addr == 0xFF24 {
            self.nr50
        } else if addr == 0xFF25 {
            self.nr51
        } else if addr == 0xFF26 {
            (if self.nr52 >= 0x80 { 0x80u8 } else { 0 }) | (if c1.enabled { 0x01u8 } else { 0 }) | (if c2.enabled {
                0x02u8
            } else {
                0
            }) | (if self.ch3.enabled { 0x04u8 } else { 0 }) | (if c4.enabled { 0x08u8 } else { 0 }) | 0x70
        } else if 0xFF30 <= addr && addr <= 0xFF3F {
            self.ch3.wave_ram[(addr - 0xFF30) as usize]
        } else {
            0xFF
        }
    }

    /// Writes an APU register (0xFF10-0xFF3F).
    pub fn write_byte(&mut self, addr: u16, val: u8)
        requires
            old(self).wf(),
        ensures
            final(self).wf(),
            apu_write_rel(&*old(self), &*final(self), addr, val),
    {
        if 0xFF10 <= addr && addr <= 0xFF14 {
            self.ch1.write_reg(addr, val);
        } else if 0xFF16 <= addr && addr <= 0xFF19 {
            self.ch2.write_reg(addr, val);
        } else if 0xFF1A <= addr && addr <= 0xFF1E {
            self.ch3.write_reg(addr, val);
        } else if 0xFF20 <= addr && addr <= 0xFF23 {
            self.ch4.write_reg(addr, val);
        } else if addr == 0xFF24 {
            self.nr50 = val;
        } else if addr == 0xFF25 {
            self.nr51 = val;
        } else if addr == 0xFF26 {
            self.nr52 = val / 128 * 128;
            if self.nr52 == 0 {
                self.ch1 = Channel1::new();
                self.ch2 = Channel2::new();
                self.ch3 = Channel3::new();
                self.ch4 = Channel4::new();
            }
        } else if 0xFF30 <= addr && addr <= 0xFF3F {
            self.ch3.wave_ram.set((addr - 0xFF30) as usize, val);
        }
    }

    /// Advances the APU by `cycles` CPU cycles and appends the output samples due.
    #[verifier::spinoff_prover]
    #[verifier::rlimit(50)]
    pub fn step(&mut self, cycles: u32)
        requires
            old(self).wf(),
            old(self).frame_seq_cycles + cycles <= u32::MAX,
        ensures
            final(self).wf(),
            *final(self) == (Apu {
                buffer: final(self).buffer,
                frame_seq_cycles: ((old(self).frame_seq_cycles + cycles) % FRAME_SEQ_PERIOD as int) as u32,
                cycle_acc: ((old(self).cycle_acc + cycles * SAMPLE_RATE) % CPU_CLOCK as int) as u32,
                ..apu_stepped(*old(self), cycles as int)
            }),
            final(self).buffer@ == old(self).buffer@ + repeat_sample(
                sample_levels(&*final(self)),
                ((old(self).cycle_acc + cycles * SAMPLE_RATE) / CPU_CLOCK as int) as nat,
            ),
    {
        let apu_on = self.nr52 >= 0x80;
        self.frame_seq_cycles = self.frame_seq_cycles + cycles;
        let ghost fs_total: int = self.frame_seq_cycles as int;
        let mut n: u32 = 0;
        while self.frame_seq_cycles >= FRAME_SEQ_PERIOD
            invariant
                self.wf_except_frame_seq(),
                self.frame_seq_cycles + n * FRAME_SEQ_PERIOD == fs_total,
                fs_total <= u32::MAX,
                fs_total == old(self).frame_seq_cycles + cycles,
                apu_on == (old(self).nr52 >= 0x80),
                apu_on ==> *self == (Apu { frame_seq_cycles: self.frame_seq_cycles, ..frame_seq_run(*old(self), n as nat) }),
                !apu_on ==> *self == (Apu { frame_seq_cycles: self.frame_seq_cycles, ..*old(self) }),
            decreases self.frame_seq_cycles,
        {
            self.frame_seq_cycles = self.frame_seq_cycles - FRAME_SEQ_PERIOD;
            if apu_on {
                self.tick_frame_sequencer();
            }
            assert(n * FRAME_SEQ_PERIOD + FRAME_SEQ_PERIOD == (n + 1) * FRAME_SEQ_PERIOD) by (nonlinear_arith);
            assert(n + 1 <= u32::MAX) by (nonlinear_arith)
                requires (n + 1) * FRAME_SEQ_PERIOD <= fs_total, fs_total <= u32::MAX;
            n = n + 1;
        }
        proof {
            assert(fs_total % FRAME_SEQ_PERIOD as int == self.frame_seq_cycles && fs_total / FRAME_SEQ_PERIOD as int == n)
                by (nonlinear_arith)
                requires
                    self.frame_seq_cycles + n * FRAME_SEQ_PERIOD == fs_total,
                    self.frame_seq_cycles < FRAME_SEQ_PERIOD,
            ;
        }

        proof {
            lemma_frame_seq_run_keeps(*old(self), n as nat);
        }
        if apu_on {
            self.tick_ch1(cycles);
            self.tick_ch2(cycles);
            self.tick_ch3(cycles);
            self.tick_ch4(cycles);
        }
        let ghost stepped = *self;
        assert(stepped == (Apu {
            frame_seq_cycles: ((old(self).frame_seq_cycles + cycles) % FRAME_SEQ_PERIOD as int) as u32,
            ..apu_stepped(*old(self), cycles as int)
        }));

        assert(cycles * SAMPLE_RATE <= 0xFFFF_FFFF * 44100) by (nonlinear_arith)
            requires
                cycles <= 0xFFFF_FFFF,
        ;
        let mut acc: u64 = self.cycle_acc as u64 + cycles as u64 * SAMPLE_RATE as u64;
        let ghost acc_total: int = acc as int;
        let ghost buf0 = self.buffer@;
        let mut k: u64 = 0;
        while acc >= CPU_CLOCK as u64
            invariant
                self.wf(),
                acc + k * CPU_CLOCK == acc_total,
                acc_total < CPU_CLOCK + 0x1_0000_0000 * 44100,
                self.buffer@ == buf0 + repeat_sample(sample_levels(&*self), k as nat),
                *self == (Apu { buffer: self.buffer, ..stepped }),
                stepped == (Apu {
                    frame_seq_cycles: ((old(self).frame_seq_cycles + cycles) % FRAME_SEQ_PERIOD as int) as u32,
                    ..apu_stepped(*old(self), cycles as int)
                }),
                acc_total == old(self).cycle_acc + cycles * SAMPLE_RATE,
            decreases acc,
        {
            acc = acc - CPU_CLOCK as u64;
            self.push_sample();
            assert(k * CPU_CLOCK + CPU_CLOCK == (k + 1) * CPU_CLOCK) by (nonlinear_arith);
            assert(k + 1 <= u32::MAX) by (nonlinear_arith)
                requires (k + 1) * CPU_CLOCK <= acc_total, acc_total < CPU_CLOCK + 0x1_0000_0000 * 44100;
            k = k + 1;
        }
        proof {
            assert(acc_total / CPU_CLOCK as int == k && acc_total % CPU_CLOCK as int == acc) by (nonlinear_arith)
                requires
                    acc + k * CPU_CLOCK == acc_total,
                    acc < CPU_CLOCK,
            ;
        }
        let ghost pre = *self;
        self.cycle_acc = acc as u32;
        assert(sample_levels(&*self) == sample_levels(&pre));
    }

    /// Appends the current channel levels as one sample.
    fn push_sample(&mut self)
        requires
            old(self).wf_except_acc(),
        ensures
            *final(self) == (Apu { buffer: final(self).buffer, ..*old(self) }),
            final(self).buffer@ == old(self).buffer@ + sample_levels(&*old(self)),
            final(self).wf_except_acc(),
    {
        let apu_on = self.nr52 >= 0x80;
        let (s1, s2, s3, s4) = if apu_on {
            (self.ch1.level(), self.ch2.level(), self.ch3.level(), self.ch4.level())
        } else {
            (0u8, 0u8, 0u8, 0u8)
        };
        let ghost before = self.buffer@;
        self.buffer.push(s1);
        self.buffer.push(s2);
        self.buffer.push(s3);
        self.buffer.push(s4);
        assert(self.buffer@ =~= before + sample_levels(&*old(self)));
    }

    /// `wf` apart from the frame-sequencer accumulator bound.
    pub open spec fn wf_except_frame_seq(&self) -> bool {
        &&& ch1_wf(self.ch1)
        &&& ch2_wf(self.ch2)
        &&& ch3_wf(self.ch3)
        &&& ch4_wf(self.ch4)
        &&& self.cycle_acc < CPU_CLOCK
        &&& self.frame_seq_step < 8
        &&& self.buffer@.len() % 4 == 0
    }

    /// `wf` apart from the sample accumulator bound.
    pub open spec fn wf_except_acc(&self) -> bool {
        &&& ch1_wf(self.ch1)
        &&& ch2_wf(self.ch2)
        &&& ch3_wf(self.ch3)
        &&& ch4_wf(self.ch4)
        &&& self.frame_seq_cycles < FRAME_SEQ_PERIOD
        &&& self.frame_seq_step < 8
        &&& self.buffer@.len() % 4 == 0
    }

    /// One 512 Hz frame-sequencer step.
    fn tick_frame_sequencer(&mut self)
        requires
            old(self).wf_except_frame_seq(),
        ensures
            final(self).wf_except_frame_seq(),
            *final(self) == frame_seq_tick_spec(*old(self)),
    {
        let step = self.frame_seq_step;
        if step % 2 == 0 {
            self.clock_length();
        }
        if step == 2 || step == 6 {
            self.clock_sweep();
        }
        if step == 7 {
            self.clock_envelope();
        }
        self.frame_seq_step = (self.frame_seq_step + 1) % 8;
    }

    /// Length counters count down when enabled; reaching zero silences the channel.
    #[verifier::spinoff_prover]
    #[verifier::rlimit(60)]
    fn clock_length(&mut self)
        requires
            old(self).wf_except_frame_seq(),
        ensures
            final(self).wf_except_frame_seq(),
            *final(self) == length_clock_spec(*old(self)),
    {
        let (c1, e1) = length_tick(self.ch1.length_enable, self.ch1.length_counter as u16, self.ch1.enabled);
        self.ch1.length_counter = c1 as u8;
        self.ch1.enabled = e1;
        let (c2, e2) = length_tick(self.ch2.length_enable, self.ch2.length_counter as u16, self.ch2.enabled);
        self.ch2.length_counter = c2 as u8;
        self.ch2.enabled = e2;
        let (c3, e3) = length_tick(self.ch3.length_enable, self.ch3.length_counter, self.ch3.enabled);
        self.ch3.length_counter = c3;
        self.ch3.enabled = e3;
        let (c4, e4) = length_tick(self.ch4.length_enable, self.ch4.length_counter as u16, self.ch4.enabled);
        self.ch4.length_counter = c4 as u8;
        self.ch4.enabled = e4;
    }

    /// Channel 1 sweep: on expiry of the sweep timer, apply the new frequency when it
    /// fits in 11 bits and the shift is non-zero.
    fn clock_sweep(&mut self)
        requires
            old(self).wf_except_frame_seq(),
        ensures
            final(self).wf_except_frame_seq(),
            *final(self) == (Apu { ch1: sweep_clock_spec(old(self).ch1), ..*old(self) }),
    {
        if self.ch1.sweep_timer > 0 {
            self.ch1.sweep_timer = self.ch1.sweep_timer - 1;
        }
        if self.ch1.sweep_timer == 0 {
            self.ch1.sweep_timer = if self.ch1.sweep_period == 0 { 8 } else { self.ch1.sweep_period };
            if self.ch1.sweep_period != 0 {
                let new_freq = self.ch1.calc_sweep();
                if new_freq <= 2047 && self.ch1.sweep_shift != 0 {
                    self.ch1.sweep_freq = new_freq;
                    self.ch1.frequency = new_freq;
                    self.ch1.calc_sweep();
                }
            }
        }
    }

    /// Volume envelopes of channels 1, 2 and 4.
    fn clock_envelope(&mut self)
        requires
            old(self).wf_except_frame_seq(),
        ensures
            final(self).wf_except_frame_seq(),
            *final(self) == apu_envelope_clock(*old(self)),
    {
        let (v1, t1) = envelope_tick(self.ch1.env_period, self.ch1.env_timer, self.ch1.env_add, self.ch1.env_volume);
        self.ch1.env_volume = v1;
        self.ch1.env_timer = t1;
        let (v2, t2) = envelope_tick(self.ch2.env_period, self.ch2.env_timer, self.ch2.env_add, self.ch2.env_volume);
        self.ch2.env_volume = v2;
        self.ch2.env_timer = t2;
        let (v4, t4) = envelope_tick(self.ch4.env_period, self.ch4.env_timer, self.ch4.env_add, self.ch4.env_volume);
        self.ch4.env_volume = v4;
        self.ch4.env_timer = t4;
    }

    /// Runs the frequency timer for `cycles` cycles: each time it runs out it reloads with
    /// (2048 - frequency) * 4 and the duty step advances.
    fn tick_ch1(&mut self, cycles: u32)
        requires
            old(self).wf(),
        ensures
            final(self).wf(),
            *final(self) == (Apu { ch1: final(self).ch1, ..*old(self) }),
            final(self).ch1 == ch1_ticked(old(self).ch1, cycles as int),
    {
        let ghost c0 = old(self).ch1;
        let ghost period: int = (2048 - c0.frequency) * 4;
        let ghost mut done: int = 0;
        let mut rem = cycles;
        while rem > 0
            invariant
                self.wf(),
                *self == (Apu { ch1: self.ch1, ..*old(self) }),
                self.ch1 == (Channel1 { duty_pos: self.ch1.duty_pos, freq_timer: self.ch1.freq_timer, ..c0 }),
                c0 == old(self).ch1,
                period == (2048 - c0.frequency) * 4,
                0 <= done,
                self.ch1.duty_pos == (c0.duty_pos + done) % 8,
                done + timer_runs_out(self.ch1.freq_timer as int, period, rem as int) == timer_runs_out(
                    c0.freq_timer as int,
                    period,
                    cycles as int,
                ),
                timer_after(self.ch1.freq_timer as int, period, rem as int) == timer_after(
                    c0.freq_timer as int,
                    period,
                    cycles as int,
                ),
            decreases rem, (if self.ch1.freq_timer == 0 { 1int } else { 0int }),
        {
            proof {
                lemma_timer_step(self.ch1.freq_timer as int, period, rem as int);
            }
            let timer = self.ch1.freq_timer as u32;
            let step = if rem < timer { rem } else { timer };
            self.ch1.freq_timer = self.ch1.freq_timer - step as u16;
            rem = rem - step;
            if self.ch1.freq_timer == 0 {
                self.ch1.freq_timer = (2048 - self.ch1.frequency) * 4;
                self.ch1.duty_pos = (self.ch1.duty_pos + 1) % 8;
                proof {
                    done = done + 1;
                }
            }
        }
    }

    /// Runs the frequency timer for `cycles` cycles: each time it runs out it reloads with
    /// (2048 - frequency) * 4 and the duty step advances.
    fn tick_ch2(&mut self, cycles: u32)
        requires
            old(self).wf(),
        ensures
            final(self).wf(),
            *final(self) == (Apu { ch2: final(self).ch2, ..*old(self) }),
            final(self).ch2 == ch2_ticked(old(self).ch2, cycles as int),
    {
        let ghost c0 = old(self).ch2;
        let ghost period: int = (2048 - c0.frequency) * 4;
        let ghost mut done: int = 0;
        let mut rem = cycles;
        while rem > 0
            invariant
                self.wf(),
                *self == (Apu { ch2: self.ch2, ..*old(self) }),
                self.ch2 == (Channel2 { duty_pos: self.ch2.duty_pos, freq_timer: self.ch2.freq_timer, ..c0 }),
                c0 == old(self).ch2,
                period == (2048 - c0.frequency) * 4,
                0 <= done,
                self.ch2.duty_pos == (c0.duty_pos + done) % 8,
                done + timer_runs_out(self.ch2.freq_timer as int, period, rem as int) == timer_runs_out(
                    c0.freq_timer as int,
                    period,
                    cycles as int,
                ),
                timer_after(self.ch2.freq_timer as int, period, rem as int) == timer_after(
                    c0.freq_timer as int,
                    period,
                    cycles as int,
                ),
            decreases rem, (if self.ch2.freq_timer == 0 { 1int } else { 0int }),
        {
            proof {
                lemma_timer_step(self.ch2.freq_timer as int, period, rem as int);
            }
            let timer = self.ch2.freq_timer as u32;
            let step = if rem < timer { rem } else { timer };
            self.ch2.freq_timer = self.ch2.freq_timer - step as u16;
            rem = rem - step;
            if self.ch2.freq_timer == 0 {
                self.ch2.freq_timer = (2048 - self.ch2.frequency) * 4;
                self.ch2.duty_pos = (self.ch2.duty_pos + 1) % 8;
                proof {
                    done = done + 1;
                }
            }
        }
    }

    /// Runs the wave timer of an enabled channel 3 for `cycles` cycles: each time it runs out
    /// it reloads with (2048 - frequency) * 2 and the wave position advances.
    fn tick_ch3(&mut self, cycles: u32)
        requires
            old(self).wf(),
        ensures
            final(self).wf(),
            *final(self) == (Apu { ch3: final(self).ch3, ..*old(self) }),
            final(self).ch3 == ch3_ticked(old(self).ch3, cycles as int),
    {
        if !self.ch3.enabled {
            return;
        }
        let ghost c0 = old(self).ch3;
        let ghost period: int = (2048 - c0.frequency) * 2;
        let ghost mut done: int = 0;
        let mut rem = cycles;
        while rem > 0
            invariant
                self.wf(),
                *self == (Apu { ch3: self.ch3, ..*old(self) }),
                self.ch3 == (Channel3 { position: self.ch3.position, freq_timer: self.ch3.freq_timer, ..c0 }),
                c0 == old(self).ch3,
                period == (2048 - c0.frequency) * 2,
                0 <= done,
                self.ch3.position == (c0.position + done) % 32,
                done + timer_runs_out(self.ch3.freq_timer as int, period, rem as int) == timer_runs_out(
                    c0.freq_timer as int,
                    period,
                    cycles as int,
                ),
                timer_after(self.ch3.freq_timer as int, period, rem as int) == timer_after(
                    c0.freq_timer as int,
                    period,
                    cycles as int,
                ),
            decreases rem, (if self.ch3.freq_timer == 0 { 1int } else { 0int }),
        {
            proof {
                lemma_timer_step(self.ch3.freq_timer as int, period, rem as int);
            }
            let timer = self.ch3.freq_timer as u32;
            let step = if rem < timer { rem } else { timer };
            self.ch3.freq_timer = self.ch3.freq_timer - step as u16;
            rem = rem - step;
            if self.ch3.freq_timer == 0 {
                self.ch3.freq_timer = (2048 - self.ch3.frequency) * 2;
                self.ch3.position = (self.ch3.position + 1) % 32;
                proof {
                    done = done + 1;
                }
            }
        }
    }

    /// Runs the noise timer of an enabled channel 4 for `cycles` cycles: each time it runs out
    /// it reloads with the divider and shift's period and the LFSR is clocked once.
    fn tick_ch4(&mut self, cycles: u32)
        requires
            old(self).wf(),
        ensures
            final(self).wf(),
            *final(self) == (Apu { ch4: final(self).ch4, ..*old(self) }),
            final(self).ch4 == ch4_ticked(old(self).ch4, cycles as int),
    {
        if !self.ch4.enabled {
            return;
        }
        let ghost c0 = old(self).ch4;
        let ghost period: int = noise_period(c0.clock_divider, c0.clock_shift);
        let ghost mut done: int = 0;
        let mut rem = cycles;
        proof {
            assert(period >= 8) by {
                crate::bits::lemma_pow2_le(0, c0.clock_shift as nat);
                assert(pow2(0) == 1) by {
                    reveal_with_fuel(pow2, 1);
                }
                let d: int = if c0.clock_divider == 0 { 8int } else { c0.clock_divider * 16 };
                let q = pow2(c0.clock_shift as nat) as int;
                assert(d * q >= 8) by (nonlinear_arith)
                    requires
                        d >= 8,
                        q >= 1,
                ;
            }
        }
        while rem > 0
            invariant
                self.wf(),
                *self == (Apu { ch4: self.ch4, ..*old(self) }),
                self.ch4 == (Channel4 { lfsr: self.ch4.lfsr, freq_timer: self.ch4.freq_timer, ..c0 }),
                c0 == old(self).ch4,
                period == noise_period(c0.clock_divider, c0.clock_shift),
                period >= 8,
                0 <= done,
                self.ch4.lfsr == lfsr_after(c0.lfsr, c0.lfsr_width, done as nat),
                done + timer_runs_out(self.ch4.freq_timer as int, period, rem as int) == timer_runs_out(
                    c0.freq_timer as int,
                    period,
                    cycles as int,
                ),
                timer_after(self.ch4.freq_timer as int, period, rem as int) == timer_after(
                    c0.freq_timer as int,
                    period,
                    cycles as int,
                ),
            decreases rem, (if self.ch4.freq_timer == 0 { 1int } else { 0int }),
        {
            proof {
                lemma_timer_step(self.ch4.freq_timer as int, period, rem as int);
            }
            let timer = self.ch4.freq_timer;
            let step = if rem < timer { rem } else { timer };
            self.ch4.freq_timer = self.ch4.freq_timer - step;
            rem = rem - step;
            if self.ch4.freq_timer == 0 {
                self.ch4.freq_timer = noise_timer_period(self.ch4.clock_divider, self.ch4.clock_shift);
                let l = self.ch4.lfsr;
                let bit = (l ^ (l >> 1)) & 1;
                let mut next = (l >> 1) | (bit << 14);
                if self.ch4.lfsr_width {
                    next = (next & !0x40u16) | (bit << 6);
                }
                self.ch4.lfsr = next;
                proof {
                    assert(next == lfsr_next(l, c0.lfsr_width));
                    done = done + 1;
                }
            }
        }
    }

    /// Removes and returns the recorded samples (four levels each).
    pub fn get_samples(&mut self) -> (samples: Vec<u8>)
        requires
            old(self).wf(),
        ensures
            final(self).wf(),
            samples@ == old(self).buffer@,
            final(self).buffer@ == Seq::<u8>::empty(),
            *final(self) == (Apu { buffer: final(self).buffer, ..*old(self) }),
    {
        let mut out: Vec<u8> = Vec::new();
        std::mem::swap(&mut out, &mut self.buffer);
        out
    }
}

/// One length-counter clock: an enabled, non-zero counter counts down, and the channel
/// turns off when it reaches zero.
pub open spec fn length_spec(enable: bool, counter: u16, enabled: bool) -> (u16, bool) {
    if enable && counter > 0 {
        ((counter - 1) as u16, enabled && counter != 1)
    } else {
        (counter, enabled)
    }
}

fn length_tick(enable: bool, counter: u16, enabled: bool) -> (r: (u16, bool))
    ensures
        r == length_spec(enable, counter, enabled),
        r.0 <= counter,
{
    if enable && counter > 0 {
        let c = counter - 1;
        (c, if c == 0 { false } else { enabled })
    } else {
        (counter, enabled)
    }
}

/// One envelope clock: with a non-zero period, the timer counts down and on expiry
/// reloads and moves the volume one step up or down within 0..15.
pub open spec fn envelope_spec(period: u8, timer: u8, add: bool, volume: u8) -> (u8, u8) {
    if period == 0 {
        (volume, timer)
    } else {
        let t = if timer > 0 { (timer - 1) as u8 } else { timer };
        if t == 0 {
            let v = if add && volume < 15 {
                (volume + 1) as u8
            } else if !add && volume > 0 {
                (volume - 1) as u8
            } else {
                volume
            };
            (v, period)
        } else {
            (volume, t)
        }
    }
}

fn envelope_tick(period: u8, timer: u8, add: bool, volume: u8) -> (r: (u8, u8))
    requires
        volume < 16,
    ensures
        r == envelope_spec(period, timer, add, volume),
        r.0 < 16,
{
    if period == 0 {
        return (volume, timer);
    }
    let mut t = timer;
    let mut v = volume;
    if t > 0 {
        t = t - 1;
    }
    if t == 0 {
        t = period;
        if add && v < 15 {
            v = v + 1;
        } else if !add && v > 0 {
            v = v - 1;
        }
    }
    (v, t)
}

// ---------------------------------------------------------------------------
// Save / Load state (the sample buffer is not saved)
// ---------------------------------------------------------------------------

pub open spec fn ch1_bytes(c: Channel1) -> Seq<u8> {
    seq![c.sweep_period, bool_byte(c.sweep_negate), c.sweep_shift, c.duty, c.length_load, c.env_initial,
        bool_byte(c.env_add), c.env_period] + le16(c.frequency) + seq![bool_byte(c.length_enable),
        bool_byte(c.enabled), c.duty_pos] + le16(c.freq_timer) + seq![c.length_counter, c.env_volume,
        c.env_timer, c.sweep_timer] + le16(c.sweep_freq)
}

pub open spec fn ch1_from_bytes(d: Seq<u8>, o: int) -> Channel1 {
    Channel1 {
        sweep_period: d[o],
        sweep_negate: d[o + 1] != 0,
        sweep_shift: d[o + 2],
        duty: d[o + 3],
        length_load: d[o + 4],
        env_initial: d[o + 5],
        env_add: d[o + 6] != 0,
        env_period: d[o + 7],
        frequency: dec16(d, o + 8),
        length_enable: d[o + 10] != 0,
        enabled: d[o + 11] != 0,
        duty_pos: d[o + 12],
        freq_timer: dec16(d, o + 13),
        length_counter: d[o + 15],
        env_volume: d[o + 16],
        env_timer: d[o + 17],
        sweep_timer: d[o + 18],
        sweep_freq: dec16(d, o + 19),
    }
}

pub open spec fn ch2_bytes(c: Channel2) -> Seq<u8> {
    seq![c.duty, c.length_load, c.env_initial, bool_byte(c.env_add), c.env_period] + le16(c.frequency)
        + seq![bool_byte(c.length_enable), bool_byte(c.enabled), c.duty_pos] + le16(c.freq_timer) + seq![
        c.length_counter,
        c.env_volume,
        c.env_timer,
    ]
}

pub open spec fn ch2_from_bytes(d: Seq<u8>, o: int) -> Channel2 {
    Channel2 {
        duty: d[o],
        length_load: d[o + 1],
        env_initial: d[o + 2],
        env_add: d[o + 3] != 0,
        env_period: d[o + 4],
        frequency: dec16(d, o + 5),
        length_enable: d[o + 7] != 0,
        enabled: d[o + 8] != 0,
        duty_pos: d[o + 9],
        freq_timer: dec16(d, o + 10),
        length_counter: d[o + 12],
        env_volume: d[o + 13],
        env_timer: d[o + 14],
    }
}

pub open spec fn ch3_bytes(c: &Channel3) -> Seq<u8> {
    seq![bool_byte(c.dac_power), c.length_load, c.volume_code] + le16(c.frequency) + seq![bool_byte(c.length_enable)]
        + c.wave_ram@ + seq![bool_byte(c.enabled), c.position] + le16(c.freq_timer) + le16(c.length_counter)
}

pub open spec fn ch4_bytes(c: Channel4) -> Seq<u8> {
    seq![c.length_load, c.env_initial, bool_byte(c.env_add), c.env_period, c.clock_shift, bool_byte(c.lfsr_width),
        c.clock_divider, bool_byte(c.length_enable), bool_byte(c.enabled)] + le16(c.lfsr) + le32(c.freq_timer)
        + seq![c.length_counter, c.env_volume, c.env_timer]
}

pub open spec fn ch4_from_bytes(d: Seq<u8>, o: int) -> Channel4 {
    Channel4 {
        length_load: d[o],
        env_initial: d[o + 1],
        env_add: d[o + 2] != 0,
        env_period: d[o + 3],
        clock_shift: d[o + 4],
        lfsr_width: d[o + 5] != 0,
        clock_divider: d[o + 6],
        length_enable: d[o + 7] != 0,
        enabled: d[o + 8] != 0,
        lfsr: dec16(d, o + 9),
        freq_timer: dec32(d, o + 11),
        length_counter: d[o + 15],
        env_volume: d[o + 16],
        env_timer: d[o + 17],
    }
}

/// The serialized APU: the four channels, NR50-52, the frame sequencer and the sample accumulator.
pub open spec fn apu_bytes(a: &Apu) -> Seq<u8> {
    ch1_bytes(a.ch1) + ch2_bytes(a.ch2) + ch3_bytes(&a.ch3) + ch4_bytes(a.ch4) + seq![a.nr50, a.nr51, a.nr52]
        + le32(a.frame_seq_cycles) + seq![a.frame_seq_step] + le32(a.cycle_acc)
}

/// Length of a serialized APU.
pub open spec fn apu_bytes_len() -> int {
    94
}

fn save_ch1(buf: &mut Vec<u8>, c: &Channel1)
    ensures
        final(buf)@ == old(buf)@ + ch1_bytes(*c),
{
    write_u8(buf, c.sweep_period);
    write_bool(buf, c.sweep_negate);
    write_u8(buf, c.sweep_shift);
    write_u8(buf, c.duty);
    write_u8(buf, c.length_load);
    write_u8(buf, c.env_initial);
    write_bool(buf, c.env_add);
    write_u8(buf, c.env_period);
    write_u16(buf, c.frequency);
    write_bool(buf, c.length_enable);
    write_bool(buf, c.enabled);
    write_u8(buf, c.duty_pos);
    write_u16(buf, c.freq_timer);
    write_u8(buf, c.length_counter);
    write_u8(buf, c.env_volume);
    write_u8(buf, c.env_timer);
    write_u8(buf, c.sweep_timer);
    write_u16(buf, c.sweep_freq);
    assert(buf@ =~= old(buf)@ + ch1_bytes(*c));
}

fn load_ch1(data: &[u8], off: &mut usize) -> (c: Channel1)
    requires
        *old(off) + 21 <= data@.len(),
    ensures
        c == ch1_from_bytes(data@, *old(off) as int),
        *final(off) == *old(off) + 21,
{
    let sweep_period = read_u8(data, off);
    let sweep_negate = read_bool(data, off);
    let sweep_shift = read_u8(data, off);
    let duty = read_u8(data, off);
    let length_load = read_u8(data, off);
    let env_initial = read_u8(data, off);
    let env_add = read_bool(data, off);
    let env_period = read_u8(data, off);
    let frequency = read_u16(data, off);
    let length_enable = read_bool(data, off);
    let enabled = read_bool(data, off);
    let duty_pos = read_u8(data, off);
    let freq_timer = read_u16(data, off);
    let length_counter = read_u8(data, off);
    let env_volume = read_u8(data, off);
    let env_timer = read_u8(data, off);
    let sweep_timer = read_u8(data, off);
    let sweep_freq = read_u16(data, off);
    Channel1 {
        sweep_period,
        sweep_negate,
        sweep_shift,
        duty,
        length_load,
        env_initial,
        env_add,
        env_period,
        frequency,
        length_enable,
        enabled,
        duty_pos,
        freq_timer,
        length_counter,
        env_volume,
        env_timer,
        sweep_timer,
        sweep_freq,
    }
}

fn save_ch2(buf: &mut Vec<u8>, c: &Channel2)
    ensures
        final(buf)@ == old(buf)@ + ch2_bytes(*c),
{
    write_u8(buf, c.duty);
    write_u8(buf, c.length_load);
    write_u8(buf, c.env_initial);
    write_bool(buf, c.env_add);
    write_u8(buf, c.env_period);
    write_u16(buf, c.frequency);
    write_bool(buf, c.length_enable);
    write_bool(buf, c.enabled);
    write_u8(buf, c.duty_pos);
    write_u16(buf, c.freq_timer);
    write_u8(buf, c.length_counter);
    write_u8(buf, c.env_volume);
    write_u8(buf, c.env_timer);
    assert(buf@ =~= old(buf)@ + ch2_bytes(*c));
}

fn load_ch2(data: &[u8], off: &mut usize) -> (c: Channel2)
    requires
        *old(off) + 15 <= data@.len(),
    ensures
        c == ch2_from_bytes(data@, *old(off) as int),
        *final(off) == *old(off) + 15,
{
    let duty = read_u8(data, off);
    let length_load = read_u8(data, off);
    let env_initial = read_u8(data, off);
    let env_add = read_bool(data, off);
    let env_period = read_u8(data, off);
    let frequency = read_u16(data, off);
    let length_enable = read_bool(data, off);
    let enabled = read_bool(data, off);
    let duty_pos = read_u8(data, off);
    let freq_timer = read_u16(data, off);
    let length_counter = read_u8(data, off);
    let env_volume = read_u8(data, off);
    let env_timer = read_u8(data, off);
    Channel2 {
        duty,
        length_load,
        env_initial,
        env_add,
        env_period,
        frequency,
        length_enable,
        enabled,
        duty_pos,
        freq_timer,
        length_counter,
        env_volume,
        env_timer,
    }
}

fn save_ch3(buf: &mut Vec<u8>, c: &Channel3)
    ensures
        final(buf)@ == old(buf)@ + ch3_bytes(c),
{
    write_bool(buf, c.dac_power);
    write_u8(buf, c.length_load);
    write_u8(buf, c.volume_code);
    write_u16(buf, c.frequency);
    write_bool(buf, c.length_enable);
    write_slice(buf, c.wave_ram.as_slice());
    write_bool(buf, c.enabled);
    write_u8(buf, c.position);
    write_u16(buf, c.freq_timer);
    write_u16(buf, c.length_counter);
    assert(buf@ =~= old(buf)@ + ch3_bytes(c));
}

/// Channel 3 as `load_ch3` reads it from the 28 bytes at `o`.
pub open spec fn ch3_loaded(c: &Channel3, d: Seq<u8>, o: int) -> bool {
    &&& c.dac_power == (d[o] != 0)
    &&& c.length_load == d[o + 1]
    &&& c.volume_code == d[o + 2]
    &&& c.frequency == dec16(d, o + 3)
    &&& c.length_enable == (d[o + 5] != 0)
    &&& c.wave_ram@ == d.subrange(o + 6, o + 22)
    &&& c.enabled == (d[o + 22] != 0)
    &&& c.position == d[o + 23]
    &&& c.freq_timer == dec16(d, o + 24)
    &&& c.length_counter == dec16(d, o + 26)
}

fn load_ch3(c: &mut Channel3, data: &[u8], off: &mut usize)
    requires
        *old(off) + 28 <= data@.len(),
    ensures
        ch3_loaded(&*final(c), data@, *old(off) as int),
        *final(off) == *old(off) + 28,
{
    c.dac_power = read_bool(data, off);
    c.length_load = read_u8(data, off);
    c.volume_code = read_u8(data, off);
    c.frequency = read_u16(data, off);
    c.length_enable = read_bool(data, off);
    c.wave_ram = vstd::slice::slice_to_vec(read_slice(data, off, 16));
    c.enabled = read_bool(data, off);
    c.position = read_u8(data, off);
    c.freq_timer = read_u16(data, off);
    c.length_counter = read_u16(data, off);
}

fn save_ch4(buf: &mut Vec<u8>, c: &Channel4)
    ensures
        final(buf)@ == old(buf)@ + ch4_bytes(*c),
{
    write_u8(buf, c.length_load);
    write_u8(buf, c.env_initial);
    write_bool(buf, c.env_add);
    write_u8(buf, c.env_period);
    write_u8(buf, c.clock_shift);
    write_bool(buf, c.lfsr_width);
    write_u8(buf, c.clock_divider);
    write_bool(buf, c.length_enable);
    write_bool(buf, c.enabled);
    write_u16(buf, c.lfsr);
    write_u32(buf, c.freq_timer);
    write_u8(buf, c.length_counter);
    write_u8(buf, c.env_volume);
    write_u8(buf, c.env_timer);
    assert(buf@ =~= old(buf)@ + ch4_bytes(*c));
}

fn load_ch4(data: &[u8], off: &mut usize) -> (c: Channel4)
    requires
        *old(off) + 18 <= data@.len(),
    ensures
        c == ch4_from_bytes(data@, *old(off) as int),
        *final(off) == *old(off) + 18,
{
    let length_load = read_u8(data, off);
    let env_initial = read_u8(data, off);
    let env_add = read_bool(data, off);
    let env_period = read_u8(data, off);
    let clock_shift = read_u8(data, off);
    let lfsr_width = read_bool(data, off);
    let clock_divider = read_u8(data, off);
    let length_enable = read_bool(data, off);
    let enabled = read_bool(data, off);
    let lfsr = read_u16(data, off);
    let freq_timer = read_u32(data, off);
    let length_counter = read_u8(data, off);
    let env_volume = read_u8(data, off);
    let env_timer = read_u8(data, off);
    Channel4 {
        length_load,
        env_initial,
        env_add,
        env_period,
        clock_shift,
        lfsr_width,
        clock_divider,
        length_enable,
        enabled,
        lfsr,
        freq_timer,
        length_counter,
        env_volume,
        env_timer,
    }
}

impl Apu {
    /// Appends the APU state (not the recorded samples).
    pub fn save(&self, buf: &mut Vec<u8>)
        ensures
            final(buf)@ == old(buf)@ + apu_bytes(self),
    {
        save_ch1(buf, &self.ch1);
        save_ch2(buf, &self.ch2);
        save_ch3(buf, &self.ch3);
        save_ch4(buf, &self.ch4);
        write_u8(buf, self.nr50);
        write_u8(buf, self.nr51);
        write_u8(buf, self.nr52);
        write_u32(buf, self.frame_seq_cycles);
        write_u8(buf, self.frame_seq_step);
        write_u32(buf, self.cycle_acc);
        assert(buf@ =~= old(buf)@ + apu_bytes(self));
    }

    /// Restores the state written by `save` and clears the recorded samples.
    pub fn load(&mut self, data: &[u8], off: &mut usize)
        requires
            *old(off) + apu_bytes_len() <= data@.len(),
        ensures
            apu_loaded(&*final(self), data@, *old(off) as int),
            *final(off) == *old(off) + apu_bytes_len(),
    {
        self.ch1 = load_ch1(data, off);
        self.ch2 = load_ch2(data, off);
        load_ch3(&mut self.ch3, data, off);
        self.ch4 = load_ch4(data, off);
        self.nr50 = read_u8(data, off);
        self.nr51 = read_u8(data, off);
        self.nr52 = read_u8(data, off);
        self.frame_seq_cycles = read_u32(data, off);
        self.frame_seq_step = read_u8(data, off);
        self.cycle_acc = read_u32(data, off);
        self.buffer.clear();
    }
}

/// The APU that `load` restores from the bytes at `o` (recorded samples cleared).
pub open spec fn apu_loaded(a: &Apu, d: Seq<u8>, o: int) -> bool {
    &&& a.ch1 == ch1_from_bytes(d, o)
    &&& a.ch2 == ch2_from_bytes(d, o + 21)
    &&& ch3_loaded(&a.ch3, d, o + 36)
    &&& a.ch4 == ch4_from_bytes(d, o + 64)
    &&& a.nr50 == d[o + 82] && a.nr51 == d[o + 83] && a.nr52 == d[o + 84]
    &&& a.frame_seq_cycles == dec32(d, o + 85)
    &&& a.frame_seq_step == d[o + 89]
    &&& a.cycle_acc == dec32(d, o + 90)
    &&& a.buffer@ == Seq::<u8>::empty()
}

impl Apu {
    /// Whether the state satisfies `wf` (checked after restoring a saved state).
    pub fn is_valid(&self) -> (b: bool)
        ensures
            b == self.wf(),
    {
        let c1 = &self.ch1;
        let c2 = &self.ch2;
        let c3 = &self.ch3;
        let c4 = &self.ch4;
        let ok1 = c1.frequency < 2048 && c1.sweep_freq < 2048 && c1.duty < 4 && c1.duty_pos < 8
            && c1.sweep_shift < 8 && c1.env_volume < 16 && c1.length_counter <= 64
            && c1.sweep_period < 8 && c1.env_initial < 16 && c1.env_period < 8 && c1.length_load < 64;
        let ok2 = c2.frequency < 2048 && c2.duty < 4 && c2.duty_pos < 8 && c2.env_volume < 16
            && c2.length_counter <= 64 && c2.env_initial < 16 && c2.env_period < 8 && c2.length_load < 64;
        let ok3 = c3.frequency < 2048 && c3.wave_ram.len() == 16 && c3.position < 32
            && c3.length_counter <= 256 && c3.volume_code < 4;
        let ok4 = c4.clock_shift < 16 && c4.clock_divider < 8 && c4.env_volume < 16
            && c4.length_counter <= 64 && c4.freq_timer <= 112 * 0x8000 && c4.env_initial < 16
            && c4.env_period < 8 && c4.length_load < 64;
        ok1 && ok2 && ok3 && ok4
            && self.cycle_acc < CPU_CLOCK && self.frame_seq_cycles < FRAME_SEQ_PERIOD
            && self.frame_seq_step < 8 && self.buffer.len() % 4 == 0
    }
}


// ---------------------------------------------------------------------------
// Reading back what was saved
// ---------------------------------------------------------------------------

/// Channel 1 read back from the bytes that `ch1_bytes` wrote is the channel itself.
pub proof fn lemma_ch1_roundtrip(c: Channel1, d: Seq<u8>, o: int)
    requires
        0 <= o,
        o + 21 <= d.len(),
        d.subrange(o, o + 21) == ch1_bytes(c),
    ensures
        ch1_from_bytes(d, o) == c,
{
    let t = ch1_bytes(c);
    let f = le16(c.frequency);
    let ft = le16(c.freq_timer);
    let sf = le16(c.sweep_freq);
    assert(t =~= seq![c.sweep_period, bool_byte(c.sweep_negate), c.sweep_shift, c.duty, c.length_load,
        c.env_initial, bool_byte(c.env_add), c.env_period, f[0], f[1], bool_byte(c.length_enable),
        bool_byte(c.enabled), c.duty_pos, ft[0], ft[1], c.length_counter, c.env_volume, c.env_timer,
        c.sweep_timer, sf[0], sf[1]]);
    assert forall|i: int| 0 <= i < 21 implies d[o + i] == t[i] by {
        assert(d.subrange(o, o + 21)[i] == d[o + i]);
    }
    assert(d.subrange(o + 8, o + 10) =~= le16(c.frequency));
    assert(d.subrange(o + 13, o + 15) =~= le16(c.freq_timer));
    assert(d.subrange(o + 19, o + 21) =~= le16(c.sweep_freq));
    crate::save_state::lemma_le16_roundtrip(c.frequency, d, o + 8);
    crate::save_state::lemma_le16_roundtrip(c.freq_timer, d, o + 13);
    crate::save_state::lemma_le16_roundtrip(c.sweep_freq, d, o + 19);
}

/// Channel 2 read back from the bytes that `ch2_bytes` wrote is the channel itself.
pub proof fn lemma_ch2_roundtrip(c: Channel2, d: Seq<u8>, o: int)
    requires
        0 <= o,
        o + 15 <= d.len(),
        d.subrange(o, o + 15) == ch2_bytes(c),
    ensures
        ch2_from_bytes(d, o) == c,
{
    let t = ch2_bytes(c);
    let f = le16(c.frequency);
    let ft = le16(c.freq_timer);
    assert(t =~= seq![c.duty, c.length_load, c.env_initial, bool_byte(c.env_add), c.env_period, f[0], f[1],
        bool_byte(c.length_enable), bool_byte(c.enabled), c.duty_pos, ft[0], ft[1], c.length_counter,
        c.env_volume, c.env_timer]);
    assert forall|i: int| 0 <= i < 15 implies d[o + i] == t[i] by {
        assert(d.subrange(o, o + 15)[i] == d[o + i]);
    }
    assert(d.subrange(o + 5, o + 7) =~= f);
    assert(d.subrange(o + 10, o + 12) =~= ft);
    crate::save_state::lemma_le16_roundtrip(c.frequency, d, o + 5);
    crate::save_state::lemma_le16_roundtrip(c.freq_timer, d, o + 10);
}

/// Channel 3 read back from the bytes that `ch3_bytes` wrote has the channel's fields.
pub proof fn lemma_ch3_roundtrip(c: &Channel3, b: &Channel3, d: Seq<u8>, o: int)
    requires
        0 <= o,
        o + 28 <= d.len(),
        c.wave_ram@.len() == 16,
        d.subrange(o, o + 28) == ch3_bytes(c),
        ch3_loaded(b, d, o),
    ensures
        same_ch3(b, c),
{
    let t = ch3_bytes(c);
    let f = le16(c.frequency);
    let ft = le16(c.freq_timer);
    let lc = le16(c.length_counter);
    let w = c.wave_ram@;
    assert(t =~= seq![bool_byte(c.dac_power), c.length_load, c.volume_code, f[0], f[1],
        bool_byte(c.length_enable)] + w + seq![bool_byte(c.enabled), c.position, ft[0], ft[1], lc[0], lc[1]]);
    assert forall|i: int| 0 <= i < 28 implies d[o + i] == t[i] by {
        assert(d.subrange(o, o + 28)[i] == d[o + i]);
    }
    assert(d[o] == t[0] && d[o + 1] == t[1] && d[o + 2] == t[2] && d[o + 5] == t[5] && d[o + 22] == t[22]
        && d[o + 23] == t[23]);
    assert(t.subrange(3, 5) =~= f);
    assert(t.subrange(6, 22) =~= w);
    assert(t.subrange(24, 26) =~= ft);
    assert(t.subrange(26, 28) =~= lc);
    crate::save_state::lemma_subrange_within(d, o, 28, 3, 5);
    crate::save_state::lemma_subrange_within(d, o, 28, 6, 22);
    crate::save_state::lemma_subrange_within(d, o, 28, 24, 26);
    crate::save_state::lemma_subrange_within(d, o, 28, 26, 28);
    crate::save_state::lemma_le16_roundtrip(c.frequency, d, o + 3);
    crate::save_state::lemma_le16_roundtrip(c.freq_timer, d, o + 24);
    crate::save_state::lemma_le16_roundtrip(c.length_counter, d, o + 26);
}

/// Channel 4 read back from the bytes that `ch4_bytes` wrote is the channel itself.
pub proof fn lemma_ch4_roundtrip(c: Channel4, d: Seq<u8>, o: int)
    requires
        0 <= o,
        o + 18 <= d.len(),
        d.subrange(o, o + 18) == ch4_bytes(c),
    ensures
        ch4_from_bytes(d, o) == c,
{
    let t = ch4_bytes(c);
    let l = le16(c.lfsr);
    let ft = le32(c.freq_timer);
    assert(ft.len() == 4);
    assert(t =~= seq![c.length_load, c.env_initial, bool_byte(c.env_add), c.env_period, c.clock_shift,
        bool_byte(c.lfsr_width), c.clock_divider, bool_byte(c.length_enable), bool_byte(c.enabled), l[0], l[1],
        ft[0], ft[1], ft[2], ft[3], c.length_counter, c.env_volume, c.env_timer]);
    assert forall|i: int| 0 <= i < 18 implies d[o + i] == t[i] by {
        assert(d.subrange(o, o + 18)[i] == d[o + i]);
    }
    assert(d.subrange(o + 9, o + 11) =~= l);
    assert(d.subrange(o + 11, o + 15) =~= ft);
    crate::save_state::lemma_le16_roundtrip(c.lfsr, d, o + 9);
    crate::save_state::lemma_le32_roundtrip(c.freq_timer, d, o + 11);
}

/// Two wave channels with the same registers, wave RAM and counters.
pub open spec fn same_ch3(a: &Channel3, b: &Channel3) -> bool {
    &&& a.dac_power == b.dac_power && a.length_load == b.length_load && a.volume_code == b.volume_code
    &&& a.frequency == b.frequency && a.length_enable == b.length_enable && a.wave_ram@ == b.wave_ram@
    &&& a.enabled == b.enabled && a.position == b.position && a.freq_timer == b.freq_timer
    &&& a.length_counter == b.length_counter
}

/// Two APUs in the same saved state: channels, NR50-52, frame sequencer and sample accumulator
/// (the recorded samples are not part of it).
pub open spec fn same_saved_apu(a: &Apu, b: &Apu) -> bool {
    &&& a.ch1 == b.ch1 && a.ch2 == b.ch2 && same_ch3(&a.ch3, &b.ch3) && a.ch4 == b.ch4
    &&& a.nr50 == b.nr50 && a.nr51 == b.nr51 && a.nr52 == b.nr52
    &&& a.frame_seq_cycles == b.frame_seq_cycles && a.frame_seq_step == b.frame_seq_step
    &&& a.cycle_acc == b.cycle_acc
}

/// Whether the 94 bytes at `o` describe an APU that satisfies `wf` once loaded.
pub open spec fn apu_bytes_valid(d: Seq<u8>, o: int) -> bool {
    &&& ch1_wf(ch1_from_bytes(d, o))
    &&& ch2_wf(ch2_from_bytes(d, o + 21))
    &&& dec16(d, o + 39) < 2048 && d[o + 59] < 32 && dec16(d, o + 62) <= 256 && d[o + 38] < 4
    &&& ch4_wf(ch4_from_bytes(d, o + 64))
    &&& dec32(d, o + 85) < FRAME_SEQ_PERIOD
    &&& d[o + 89] < 8
    &&& dec32(d, o + 90) < CPU_CLOCK
}

/// A loaded APU satisfies `wf` exactly when its bytes are valid.
pub proof fn lemma_apu_loaded_wf(a: &Apu, d: Seq<u8>, o: int)
    requires
        0 <= o,
        o + 94 <= d.len(),
        apu_loaded(a, d, o),
    ensures
        a.wf() == apu_bytes_valid(d, o),
{
}

/// An APU read back from the bytes of `apu_bytes(a)` is in `a`'s saved state, and the bytes
/// are valid.
pub proof fn lemma_apu_roundtrip(a: &Apu, b: &Apu, d: Seq<u8>, o: int)
    requires
        a.wf(),
        0 <= o,
        o + 94 <= d.len(),
        d.subrange(o, o + 94) == apu_bytes(a),
        apu_loaded(b, d, o),
    ensures
        same_saved_apu(b, a),
        apu_bytes_valid(d, o),
{
    let t = apu_bytes(a);
    let c1 = ch1_bytes(a.ch1);
    let c2 = ch2_bytes(a.ch2);
    let c3 = ch3_bytes(&a.ch3);
    let c4 = ch4_bytes(a.ch4);
    let fs = le32(a.frame_seq_cycles);
    let ca = le32(a.cycle_acc);
    assert(c1.len() == 21 && c2.len() == 15 && c3.len() == 28 && c4.len() == 18);
    assert(fs.len() == 4 && ca.len() == 4);
    assert(t.subrange(0, 21) =~= c1);
    assert(t.subrange(21, 36) =~= c2);
    assert(t.subrange(36, 64) =~= c3);
    assert(t.subrange(64, 82) =~= c4);
    assert(t.subrange(85, 89) =~= fs);
    assert(t.subrange(90, 94) =~= ca);
    crate::save_state::lemma_subrange_within(d, o, 94, 0, 21);
    crate::save_state::lemma_subrange_within(d, o, 94, 21, 36);
    crate::save_state::lemma_subrange_within(d, o, 94, 36, 64);
    crate::save_state::lemma_subrange_within(d, o, 94, 64, 82);
    crate::save_state::lemma_subrange_within(d, o, 94, 85, 89);
    crate::save_state::lemma_subrange_within(d, o, 94, 90, 94);
    lemma_ch1_roundtrip(a.ch1, d, o);
    lemma_ch2_roundtrip(a.ch2, d, o + 21);
    lemma_ch3_roundtrip(&a.ch3, &b.ch3, d, o + 36);
    lemma_ch4_roundtrip(a.ch4, d, o + 64);
    crate::save_state::lemma_le32_roundtrip(a.frame_seq_cycles, d, o + 85);
    crate::save_state::lemma_le32_roundtrip(a.cycle_acc, d, o + 90);
    assert(d[o + 82] == t[82] && d[o + 83] == t[83] && d[o + 84] == t[84] && d[o + 89] == t[89]) by {
        assert(d.subrange(o, o + 94)[82] == d[o + 82]);
        assert(d.subrange(o, o + 94)[83] == d[o + 83]);
        assert(d.subrange(o, o + 94)[84] == d[o + 84]);
        assert(d.subrange(o, o + 94)[89] == d[o + 89]);
    }
    assert(t[82] == a.nr50 && t[83] == a.nr51 && t[84] == a.nr52 && t[89] == a.frame_seq_step);
}

} // verus!
