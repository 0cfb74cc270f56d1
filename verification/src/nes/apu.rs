//! NES APU (Ricoh 2A03 audio): two pulse channels, triangle, noise and a DMC stub,
//! with a 4-step / 5-step frame sequencer.
//!
//! Output samples are taken at 44100 Hz of the 1789773 Hz CPU clock, counted exactly:
//! each CPU cycle adds 44100 to an accumulator and a sample is due whenever it reaches
//! 1789773. A sample is recorded as the five channel levels (pulse 1, pulse 2, triangle,
//! noise: 0-15; DMC: 0-127) from which the mixer forms the output value.

use vstd::prelude::*;
use crate::save_state::{
    bool_byte, dec16, dec32, dec64, le16, le32, le64, read_bool, read_u16, read_u32, read_u64, read_u8,
    write_bool, write_u16, write_u32, write_u64, write_u8,
};

verus! {

pub const SAMPLE_RATE: u32 = 44100;

pub const CPU_CLOCK: u32 = 1_789_773;

/// Levels recorded per output sample.
pub const LEVELS_PER_SAMPLE: usize = 5;

/// Length counter load values, indexed by the 5-bit code of a length write.
pub open spec fn length_table(i: u8) -> u8 {
    if i == 0 {
        10
    } else if i == 1 {
        254
    } else if i == 2 {
        20
    } else if i == 3 {
        2
    } else if i == 4 {
        40
    } else if i == 5 {
        4
    } else if i == 6 {
        80
    } else if i == 7 {
        6
    } else if i == 8 {
        160
    } else if i == 9 {
        8
    } else if i == 10 {
        60
    } else if i == 11 {
        10
    } else if i == 12 {
        14
    } else if i == 13 {
        12
    } else if i == 14 {
        26
    } else if i == 15 {
        14
    } else if i == 16 {
        12
    } else if i == 17 {
        16
    } else if i == 18 {
        24
    } else if i == 19 {
        18
    } else if i == 20 {
        48
    } else if i == 21 {
        20
    } else if i == 22 {
        96
    } else if i == 23 {
        22
    } else if i == 24 {
        192
    } else if i == 25 {
        24
    } else if i == 26 {
        72
    } else if i == 27 {
        26
    } else if i == 28 {
        16
    } else if i == 29 {
        28
    } else if i == 30 {
        32
    } else {
        30
    }
}

/// Noise timer periods (NTSC), indexed by the 4-bit period code.
pub open spec fn noise_period_table(i: u8) -> u16 {
    if i == 0 {
        4
    } else if i == 1 {
        8
    } else if i == 2 {
        16
    } else if i == 3 {
        32
    } else if i == 4 {
        64
    } else if i == 5 {
        96
    } else if i == 6 {
        128
    } else if i == 7 {
        160
    } else if i == 8 {
        202
    } else if i == 9 {
        254
    } else if i == 10 {
        380
    } else if i == 11 {
        508
    } else if i == 12 {
        762
    } else if i == 13 {
        1016
    } else if i == 14 {
        2034
    } else {
        4068
    }
}

/// Pulse waveforms: 12.5%, 25%, 50% and 75% (negated 25%) duty.
pub open spec fn duty_table(duty: u8, pos: u8) -> u8 {
    if duty == 0 {
        if pos == 1 { 1 } else { 0 }
    } else if duty == 1 {
        if pos == 1 || pos == 2 { 1 } else { 0 }
    } else if duty == 2 {
        if 1 <= pos <= 4 { 1 } else { 0 }
    } else {
        if pos == 1 || pos == 2 { 0 } else { 1 }
    }
}

/// The triangle waveform: 15 down to 0, then 0 up to 15.
pub open spec fn triangle_table(pos: u8) -> u8 {
    if pos < 16 {
        (15 - pos) as u8
    } else {
        (pos - 16) as u8
    }
}

fn length_lookup(i: u8) -> (v: u8)
    requires
        i < 32,
    ensures
        v == length_table(i),
{
    if i == 0 {
        10
    } else if i == 1 {
        254
    } else if i == 2 {
        20
    } else if i == 3 {
        2
    } else if i == 4 {
        40
    } else if i == 5 {
        4
    } else if i == 6 {
        80
    } else if i == 7 {
        6
    } else if i == 8 {
        160
    } else if i == 9 {
        8
    } else if i == 10 {
        60
    } else if i == 11 {
        10
    } else if i == 12 {
        14
    } else if i == 13 {
        12
    } else if i == 14 {
        26
    } else if i == 15 {
        14
    } else if i == 16 {
        12
    } else if i == 17 {
        16
    } else if i == 18 {
        24
    } else if i == 19 {
        18
    } else if i == 20 {
        48
    } else if i == 21 {
        20
    } else if i == 22 {
        96
    } else if i == 23 {
        22
    } else if i == 24 {
        192
    } else if i == 25 {
        24
    } else if i == 26 {
        72
    } else if i == 27 {
        26
    } else if i == 28 {
        16
    } else if i == 29 {
        28
    } else if i == 30 {
        32
    } else {
        30
    }
}

fn noise_period_lookup(i: u8) -> (v: u16)
    requires
        i < 16,
    ensures
        v == noise_period_table(i),
{
    if i == 0 {
        4
    } else if i == 1 {
        8
    } else if i == 2 {
        16
    } else if i == 3 {
        32
    } else if i == 4 {
        64
    } else if i == 5 {
        96
    } else if i == 6 {
        128
    } else if i == 7 {
        160
    } else if i == 8 {
        202
    } else if i == 9 {
        254
    } else if i == 10 {
        380
    } else if i == 11 {
        508
    } else if i == 12 {
        762
    } else if i == 13 {
        1016
    } else if i == 14 {
        2034
    } else {
        4068
    }
}

fn duty_lookup(duty: u8, pos: u8) -> (v: u8)
    ensures
        v == duty_table(duty, pos),
{
    if duty == 0 {
        if pos == 1 { 1 } else { 0 }
    } else if duty == 1 {
        if pos == 1 || pos == 2 { 1 } else { 0 }
    } else if duty == 2 {
        if 1 <= pos && pos <= 4 { 1 } else { 0 }
    } else {
        if pos == 1 || pos == 2 { 0 } else { 1 }
    }
}

// ---------------------------------------------------------------------------
// Envelope
// ---------------------------------------------------------------------------
pub struct Envelope {
    pub start: bool,
    pub loop_flag: bool,
    pub constant: bool,
    pub period: u8,
    pub divider: u8,
    pub decay: u8,
}

/// One envelope clock: a start reloads decay 15; otherwise the divider counts down and on
/// reaching 0 reloads and steps the decay down (looping to 15 when the loop flag is set).
pub open spec fn envelope_clock_spec(e: Envelope) -> Envelope {
    if e.start {
        Envelope { start: false, decay: 15, divider: e.period, ..e }
    } else if e.divider == 0 {
        Envelope {
            divider: e.period,
            decay: if e.decay > 0 { (e.decay - 1) as u8 } else if e.loop_flag { 15 } else { e.decay },
            ..e
        }
    } else {
        Envelope { divider: (e.divider - 1) as u8, ..e }
    }
}

impl Envelope {
    pub open spec fn wf(&self) -> bool {
        self.period < 16 && self.decay < 16
    }

    pub fn new() -> (e: Self)
        ensures
            e == (Envelope { start: false, loop_flag: false, constant: false, period: 0, divider: 0, decay: 0 }),
    {
        Envelope { start: false, loop_flag: false, constant: false, period: 0, divider: 0, decay: 0 }
    }

    /// The output volume: the constant volume, or the decay level.
    pub fn volume(&self) -> (v: u8)
        ensures
            v == (if self.constant { self.period } else { self.decay }),
    {
        if self.constant {
            self.period
        } else {
            self.decay
        }
    }

    pub fn clock(&mut self)
        requires
            old(self).wf(),
        ensures
            *final(self) == envelope_clock_spec(*old(self)),
            final(self).wf(),
    {
        if self.start {
            self.start = false;
            self.decay = 15;
            self.divider = self.period;
        } else if self.divider == 0 {
            self.divider = self.period;
            if self.decay > 0 {
                self.decay = self.decay - 1;
            } else if self.loop_flag {
                self.decay = 15;
            }
        } else {
            self.divider = self.divider - 1;
        }
    }
}

// ---------------------------------------------------------------------------
// Sweep unit
// ---------------------------------------------------------------------------
pub struct Sweep {
    pub enabled: bool,
    pub period: u8,
    pub negate: bool,
    pub shift: u8,
    pub reload: bool,
    pub divider: u8,
    pub mute: bool,
}

/// The period the sweep unit moves toward; pulse 1 negates by one's complement.
pub open spec fn sweep_target_spec(s: Sweep, period: u16, channel_one: bool) -> u16 {
    let delta = period >> s.shift;
    if s.negate {
        if channel_one {
            ((period + 0x2_0000 - delta - 1) % 0x1_0000) as u16
        } else {
            ((period + 0x1_0000 - delta) % 0x1_0000) as u16
        }
    } else {
        (period + delta) as u16
    }
}

/// The sweep target, for every sweep state and period up to 0x7FF: without negation the
/// period grows by its shifted copy; negated, pulse 2 subtracts the shifted copy and pulse
/// 1 subtracts one more (one's complement), wrapping to 0xFFFF only when that takes it
/// below 0.
pub proof fn lemma_sweep_target(s: Sweep, period: u16)
    requires
        period <= 0x7FF,
    ensures
        ({
            let delta = (period >> s.shift) as int;
            &&& delta <= period
            &&& !s.negate ==> sweep_target_spec(s, period, true) == period + delta && sweep_target_spec(s, period, false)
                == period + delta
            &&& s.negate ==> sweep_target_spec(s, period, false) == period - delta
            &&& s.negate && delta < period ==> sweep_target_spec(s, period, true) == period - delta - 1
            &&& s.negate && delta == period ==> sweep_target_spec(s, period, true) == 0xFFFF
        }),
{
    let sh = s.shift;
    assert((period >> sh) <= period) by (bit_vector);
}

/// One sweep clock on channel period `period`: the new sweep state and the new period.
pub open spec fn sweep_clock_spec(s: Sweep, period: u16, channel_one: bool) -> (Sweep, u16) {
    let target = sweep_target_spec(s, period, channel_one);
    let mute = period < 8 || target > 0x7FF;
    let new_period = if s.divider == 0 && s.enabled && s.shift != 0 && !mute { target } else { period };
    let s1 = if s.divider == 0 || s.reload {
        Sweep { mute, divider: s.period, reload: false, ..s }
    } else {
        Sweep { mute, divider: (s.divider - 1) as u8, ..s }
    };
    (s1, new_period)
}

impl Sweep {
    pub open spec fn wf(&self) -> bool {
        self.shift < 8 && self.period < 8
    }

    pub fn new() -> (s: Self)
        ensures
            s == (Sweep { enabled: false, period: 0, negate: false, shift: 0, reload: false, divider: 0, mute: false }),
    {
        Sweep { enabled: false, period: 0, negate: false, shift: 0, reload: false, divider: 0, mute: false }
    }

    pub fn compute_target(&self, period: u16, channel_one: bool) -> (t: u16)
        requires
            self.wf(),
            period <= 0x7FF,
        ensures
            t == sweep_target_spec(*self, period, channel_one),
    {
        let shift = self.shift;
        let delta = period >> shift;
        assert(delta <= period) by (bit_vector)
            requires
                delta == period >> shift,
        ;
        if self.negate {
            if channel_one {
                period.wrapping_sub(delta).wrapping_sub(1)
            } else {
                period.wrapping_sub(delta)
            }
        } else {
            period + delta
        }
    }

    /// Clocks the sweep unit for a channel whose period is `period`; returns the new period.
    pub fn clock(&mut self, period: u16, channel_one: bool) -> (p: u16)
        requires
            old(self).wf(),
            period <= 0x7FF,
        ensures
            (*final(self), p) == sweep_clock_spec(*old(self), period, channel_one),
            final(self).wf(),
            p <= 0x7FF,
    {
        let target = self.compute_target(period, channel_one);
        self.mute = period < 8 || target > 0x7FF;
        let mut new_period = period;
        if self.divider == 0 && self.enabled && self.shift != 0 && !self.mute {
            new_period = target;
        }
        if self.divider == 0 || self.reload {
            self.divider = self.period;
            self.reload = false;
        } else {
            self.divider = self.divider - 1;
        }
        new_period
    }
}

// ---------------------------------------------------------------------------
// Pulse channel
// ---------------------------------------------------------------------------
pub struct PulseChannel {
    pub enabled: bool,
    pub duty: u8,
    pub duty_pos: u8,
    pub timer_period: u16,
    pub timer: u16,
    pub length: u8,
    pub length_halt: bool,
    pub envelope: Envelope,
    pub sweep: Sweep,
    pub channel_one: bool,
}

/// The output level (0-15) of a pulse channel.
pub open spec fn pulse_level(c: PulseChannel) -> u8 {
    if !c.enabled || c.length == 0 || c.sweep.mute || c.timer_period < 8 || duty_table(c.duty, c.duty_pos)
        == 0 {
        0
    } else if c.envelope.constant {
        c.envelope.period
    } else {
        c.envelope.decay
    }
}

/// A pulse channel after one timer clock: the timer counts down, and at 0 it reloads and
/// the waveform position advances.
pub open spec fn pulse_timer_spec(c: PulseChannel) -> PulseChannel {
    if c.timer == 0 {
        PulseChannel { timer: c.timer_period, duty_pos: ((c.duty_pos + 1) % 8) as u8, ..c }
    } else {
        PulseChannel { timer: (c.timer - 1) as u16, ..c }
    }
}

impl PulseChannel {
    pub open spec fn wf(&self) -> bool {
        &&& self.duty < 4
        &&& self.duty_pos < 8
        &&& self.timer_period <= 0x7FF
        &&& self.envelope.wf()
        &&& self.sweep.wf()
    }

    pub fn new(channel_one: bool) -> (c: Self)
        ensures
            c.wf(),
            c == (PulseChannel {
                enabled: false,
                duty: 0,
                duty_pos: 0,
                timer_period: 0,
                timer: 0,
                length: 0,
                length_halt: false,
                envelope: c.envelope,
                sweep: c.sweep,
                channel_one,
            }),
            c.envelope == (Envelope { start: false, loop_flag: false, constant: false, period: 0, divider: 0, decay: 0 }),
            c.sweep == (Sweep { enabled: false, period: 0, negate: false, shift: 0, reload: false, divider: 0, mute: false }),
    {
        PulseChannel {
            enabled: false,
            duty: 0,
            duty_pos: 0,
            timer_period: 0,
            timer: 0,
            length: 0,
            length_halt: false,
            envelope: Envelope::new(),
            sweep: Sweep::new(),
            channel_one,
        }
    }

    /// The timer counts down; at 0 it reloads and the waveform advances.
    pub fn clock_timer(&mut self)
        requires
            old(self).wf(),
        ensures
            final(self).wf(),
            *final(self) == pulse_timer_spec(*old(self)),
    {
        if self.timer == 0 {
            self.timer = self.timer_period;
            self.duty_pos = (self.duty_pos + 1) % 8;
        } else {
            self.timer = self.timer - 1;
        }
    }

    /// The length counter counts down to 0 unless halted.
    pub fn clock_length(&mut self)
        ensures
            *final(self) == (PulseChannel {
                length: if !old(self).length_halt && old(self).length > 0 {
                    (old(self).length - 1) as u8
                } else {
                    old(self).length
                },
                ..*old(self)
            }),
    {
        if !self.length_halt && self.length > 0 {
            self.length = self.length - 1;
        }
    }

    /// The output level (0-15).
    pub fn sample(&self) -> (l: u8)
        ensures
            l == pulse_level(*self),
    {
        if !self.enabled || self.length == 0 || self.sweep.mute || self.timer_period < 8 {
            return 0;
        }
        if duty_lookup(self.duty, self.duty_pos) == 0 {
            return 0;
        }
        self.envelope.volume()
    }

    /// $4000 / $4004: duty, length halt (also the envelope loop), constant volume, period.
    pub fn write_reg0(&mut self, val: u8)
        requires
            old(self).wf(),
        ensures
            final(self).wf(),
            *final(self) == pulse_reg0_spec(*old(self), val),
    {
        self.duty = val / 64;
        self.length_halt = (val / 32) % 2 == 1;
        self.envelope.loop_flag = (val / 32) % 2 == 1;
        self.envelope.constant = (val / 16) % 2 == 1;
        self.envelope.period = val % 16;
    }

    /// $4001 / $4005: sweep enable, period, negate, shift; schedules a sweep reload.
    pub fn write_reg1(&mut self, val: u8)
        requires
            old(self).wf(),
        ensures
            final(self).wf(),
            *final(self) == pulse_reg1_spec(*old(self), val),
    {
        self.sweep.enabled = val >= 0x80;
        self.sweep.period = (val / 16) % 8;
        self.sweep.negate = (val / 8) % 2 == 1;
        self.sweep.shift = val % 8;
        self.sweep.reload = true;
    }

    /// $4002 / $4006: timer period low byte.
    pub fn write_reg2(&mut self, val: u8)
        requires
            old(self).wf(),
        ensures
            final(self).wf(),
            *final(self) == pulse_reg2_spec(*old(self), val),
    {
        self.timer_period = self.timer_period / 256 * 256 + val as u16;
    }

    /// $4003 / $4007: timer period high bits and length load (when enabled); restarts the
    /// waveform and the envelope.
    pub fn write_reg3(&mut self, val: u8)
        requires
            old(self).wf(),
        ensures
            final(self).wf(),
            *final(self) == pulse_reg3_spec(*old(self), val),
    {
        self.timer_period = self.timer_period % 256 + ((val % 8) as u16) * 256;
        if self.enabled {
            self.length = length_lookup(val / 8);
        }
        self.duty_pos = 0;
        self.envelope.start = true;
    }
}

// ---------------------------------------------------------------------------
// Triangle channel
// ---------------------------------------------------------------------------
pub struct TriangleChannel {
    pub enabled: bool,
    pub timer_period: u16,
    pub timer: u16,
    pub seq_pos: u8,
    pub length: u8,
    pub length_halt: bool,
    pub linear_counter: u8,
    pub linear_reload: u8,
    pub linear_reload_flag: bool,
    pub control_flag: bool,
}

/// The output level (0-15) of the triangle channel.
pub open spec fn triangle_level(c: TriangleChannel) -> u8 {
    if !c.enabled || c.length == 0 || c.linear_counter == 0 {
        0
    } else {
        triangle_table(c.seq_pos)
    }
}

/// The triangle channel after one timer clock: at 0 the timer reloads and the sequence
/// advances while both counters are non-zero.
pub open spec fn triangle_timer_spec(c: TriangleChannel) -> TriangleChannel {
    if c.timer == 0 {
        TriangleChannel {
            timer: c.timer_period,
            seq_pos: if c.length > 0 && c.linear_counter > 0 {
                ((c.seq_pos + 1) % 32) as u8
            } else {
                c.seq_pos
            },
            ..c
        }
    } else {
        TriangleChannel { timer: (c.timer - 1) as u16, ..c }
    }
}

impl TriangleChannel {
    pub open spec fn wf(&self) -> bool {
        self.seq_pos < 32
    }

    pub fn new() -> (c: Self)
        ensures
            c.wf(),
            c == (TriangleChannel {
                enabled: false,
                timer_period: 0,
                timer: 0,
                seq_pos: 0,
                length: 0,
                length_halt: false,
                linear_counter: 0,
                linear_reload: 0,
                linear_reload_flag: false,
                control_flag: false,
            }),
    {
        TriangleChannel {
            enabled: false,
            timer_period: 0,
            timer: 0,
            seq_pos: 0,
            length: 0,
            length_halt: false,
            linear_counter: 0,
            linear_reload: 0,
            linear_reload_flag: false,
            control_flag: false,
        }
    }

    /// The timer counts down; at 0 it reloads and the sequence advances while both
    /// counters are non-zero.
    pub fn clock_timer(&mut self)
        requires
            old(self).wf(),
        ensures
            final(self).wf(),
            *final(self) == triangle_timer_spec(*old(self)),
    {
        if self.timer == 0 {
            self.timer = self.timer_period;
            if self.length > 0 && self.linear_counter > 0 {
                self.seq_pos = (self.seq_pos + 1) % 32;
            }
        } else {
            self.timer = self.timer - 1;
        }
    }

    pub fn clock_length(&mut self)
        ensures
            *final(self) == (TriangleChannel {
                length: if !old(self).length_halt && old(self).length > 0 {
                    (old(self).length - 1) as u8
                } else {
                    old(self).length
                },
                ..*old(self)
            }),
    {
        if !self.length_halt && self.length > 0 {
            self.length = self.length - 1;
        }
    }

    /// The linear counter reloads when flagged, else counts down; the flag clears unless
    /// the control flag is set.
    pub fn clock_linear(&mut self)
        ensures
            *final(self) == (TriangleChannel {
                linear_counter: if old(self).linear_reload_flag {
                    old(self).linear_reload
                } else if old(self).linear_counter > 0 {
                    (old(self).linear_counter - 1) as u8
                } else {
                    0
                },
                linear_reload_flag: old(self).linear_reload_flag && old(self).control_flag,
                ..*old(self)
            }),
    {
        if self.linear_reload_flag {
            self.linear_counter = self.linear_reload;
        } else if self.linear_counter > 0 {
            self.linear_counter = self.linear_counter - 1;
        }
        if !self.control_flag {
            self.linear_reload_flag = false;
        }
    }

    /// The output level (0-15).
    pub fn sample(&self) -> (l: u8)
        requires
            self.wf(),
        ensures
            l == triangle_level(*self),
    {
        if !self.enabled || self.length == 0 || self.linear_counter == 0 {
            return 0;
        }
        if self.seq_pos < 16 {
            15 - self.seq_pos
        } else {
            self.seq_pos - 16
        }
    }
}

// ---------------------------------------------------------------------------
// Noise channel
// ---------------------------------------------------------------------------
pub struct NoiseChannel {
    pub enabled: bool,
    /// Short mode: feedback from bit 6 instead of bit 1.
    pub mode: bool,
    pub timer_period: u16,
    pub timer: u16,
    pub length: u8,
    pub length_halt: bool,
    pub envelope: Envelope,
    pub lfsr: u16,
}

/// One shift of the noise LFSR: feedback of bit 0 and bit 6 (short mode) or bit 1 into bit 14.
pub open spec fn lfsr_step(lfsr: u16, short_mode: bool) -> u16 {
    let fb_bit: u16 = if short_mode { 6 } else { 1 };
    let feedback = (lfsr & 1) ^ ((lfsr >> fb_bit) & 1);
    (lfsr >> 1u16) | (feedback << 14u16)
}

/// One noise LFSR shift, for every 15-bit register: the register moves right one place
/// and bit 14 becomes bit 0 exclusive-or bit 6 (short mode) or bit 1.
pub proof fn lemma_lfsr_step(lfsr: u16, short_mode: bool)
    requires
        lfsr < 0x8000,
    ensures
        lfsr_step(lfsr, short_mode) == lfsr / 2 + 0x4000 * ((lfsr % 2 + (lfsr / (if short_mode { 64u16 } else { 2u16 }))
            % 2) % 2),
        lfsr_step(lfsr, short_mode) < 0x8000,
{
    if short_mode {
        assert((lfsr >> 1u16) | ((((lfsr & 1) ^ ((lfsr >> 6u16) & 1))) << 14u16) == lfsr / 2 + 0x4000 * ((lfsr % 2 + (
        lfsr / 64) % 2) % 2) && lfsr / 2 + 0x4000 * ((lfsr % 2 + (lfsr / 64) % 2) % 2) < 0x8000) by (bit_vector)
            requires
                lfsr < 0x8000,
        ;
    } else {
        assert((lfsr >> 1u16) | ((((lfsr & 1) ^ ((lfsr >> 1u16) & 1))) << 14u16) == lfsr / 2 + 0x4000 * ((lfsr % 2 + (
        lfsr / 2) % 2) % 2) && lfsr / 2 + 0x4000 * ((lfsr % 2 + (lfsr / 2) % 2) % 2) < 0x8000) by (bit_vector)
            requires
                lfsr < 0x8000,
        ;
    }
}

/// The output level (0-15) of the noise channel.
pub open spec fn noise_level(c: NoiseChannel) -> u8 {
    if !c.enabled || c.length == 0 || c.lfsr & 1 != 0 {
        0
    } else if c.envelope.constant {
        c.envelope.period
    } else {
        c.envelope.decay
    }
}

/// The noise channel after one timer clock: at 0 the timer reloads and the LFSR shifts.
pub open spec fn noise_timer_spec(c: NoiseChannel) -> NoiseChannel {
    if c.timer == 0 {
        NoiseChannel { timer: c.timer_period, lfsr: lfsr_step(c.lfsr, c.mode), ..c }
    } else {
        NoiseChannel { timer: (c.timer - 1) as u16, ..c }
    }
}

impl NoiseChannel {
    pub open spec fn wf(&self) -> bool {
        self.envelope.wf()
    }

    pub fn new() -> (c: Self)
        ensures
            c.wf(),
            c == (NoiseChannel {
                enabled: false,
                mode: false,
                timer_period: noise_period_table(0),
                timer: 0,
                length: 0,
                length_halt: false,
                envelope: c.envelope,
                lfsr: 1,
            }),
            c.envelope == (Envelope { start: false, loop_flag: false, constant: false, period: 0, divider: 0, decay: 0 }),
    {
        NoiseChannel {
            enabled: false,
            mode: false,
            timer_period: noise_period_lookup(0),
            timer: 0,
            length: 0,
            length_halt: false,
            envelope: Envelope::new(),
            lfsr: 1,
        }
    }

    /// The timer counts down; at 0 it reloads and the LFSR shifts.
    pub fn clock_timer(&mut self)
        ensures
            *final(self) == noise_timer_spec(*old(self)),
    {
        if self.timer == 0 {
            self.timer = self.timer_period;
            let fb_bit: u16 = if self.mode {
                6
            } else {
                1
            };
            let feedback = (self.lfsr & 1) ^ ((self.lfsr >> fb_bit) & 1);
            self.lfsr = (self.lfsr >> 1u16) | (feedback << 14u16);
        } else {
            self.timer = self.timer - 1;
        }
    }

    pub fn clock_length(&mut self)
        ensures
            *final(self) == (NoiseChannel {
                length: if !old(self).length_halt && old(self).length > 0 {
                    (old(self).length - 1) as u8
                } else {
                    old(self).length
                },
                ..*old(self)
            }),
    {
        if !self.length_halt && self.length > 0 {
            self.length = self.length - 1;
        }
    }

    /// The output level (0-15).
    pub fn sample(&self) -> (l: u8)
        ensures
            l == noise_level(*self),
    {
        if !self.enabled || self.length == 0 || self.lfsr & 1 != 0 {
            return 0;
        }
        self.envelope.volume()
    }
}

// ---------------------------------------------------------------------------
// DMC channel (no sample playback; its output level is set directly)
// ---------------------------------------------------------------------------
pub struct DmcChannel {
    pub enabled: bool,
    pub output: u8,
    pub irq_enabled: bool,
    pub loop_flag: bool,
    pub rate_index: u8,
}

impl DmcChannel {
    pub fn new() -> (c: Self)
        ensures
            c == (DmcChannel { enabled: false, output: 0, irq_enabled: false, loop_flag: false, rate_index: 0 }),
    {
        DmcChannel { enabled: false, output: 0, irq_enabled: false, loop_flag: false, rate_index: 0 }
    }

    /// The output level (0-127 when written through $4011).
    pub fn sample(&self) -> (l: u8)
        ensures
            l == (if self.enabled { self.output } else { 0 }),
    {
        if !self.enabled {
            return 0;
        }
        self.output
    }
}

// ---------------------------------------------------------------------------
// APU
// ---------------------------------------------------------------------------
pub struct NesApu {
    pub pulse1: PulseChannel,
    pub pulse2: PulseChannel,
    pub triangle: TriangleChannel,
    pub noise: NoiseChannel,
    pub dmc: DmcChannel,
    /// 0 = 4-step sequence, any other value = 5-step.
    pub frame_counter_mode: u8,
    pub frame_irq_inhibit: bool,
    pub frame_irq: bool,
    pub frame_cycles: u32,
    pub frame_step: u32,
    /// Sample clock: 44100 per CPU cycle, one sample per 1789773.
    pub sample_acc: u32,
    /// Recorded samples, five levels each.
    pub buffer: Vec<u8>,
    pub cpu_cycles: u32,
}

/// A length counter after a half-frame clock: one down unless halted or already 0.
pub open spec fn length_clocked(length: u8, halt: bool) -> u8 {
    if !halt && length > 0 {
        (length - 1) as u8
    } else {
        length
    }
}

/// The APU after a quarter-frame clock: the three envelopes, and the triangle's linear
/// counter (reloaded while its reload flag is set, else counted down to 0; the flag stays
/// only with the control flag).
#[verifier::opaque]
pub open spec fn quarter_frame_spec(a: NesApu) -> NesApu {
    NesApu {
        pulse1: PulseChannel { envelope: envelope_clock_spec(a.pulse1.envelope), ..a.pulse1 },
        pulse2: PulseChannel { envelope: envelope_clock_spec(a.pulse2.envelope), ..a.pulse2 },
        noise: NoiseChannel { envelope: envelope_clock_spec(a.noise.envelope), ..a.noise },
        triangle: TriangleChannel {
            linear_counter: if a.triangle.linear_reload_flag {
                a.triangle.linear_reload
            } else if a.triangle.linear_counter > 0 {
                (a.triangle.linear_counter - 1) as u8
            } else {
                0
            },
            linear_reload_flag: a.triangle.linear_reload_flag && a.triangle.control_flag,
            ..a.triangle
        },
        ..a
    }
}

/// The APU after a half-frame clock: the four length counters and the two pulse sweeps.
#[verifier::opaque]
pub open spec fn half_frame_spec(a: NesApu) -> NesApu {
    let (s1, p1) = sweep_clock_spec(a.pulse1.sweep, a.pulse1.timer_period, true);
    let (s2, p2) = sweep_clock_spec(a.pulse2.sweep, a.pulse2.timer_period, false);
    NesApu {
        pulse1: PulseChannel {
            length: length_clocked(a.pulse1.length, a.pulse1.length_halt),
            sweep: s1,
            timer_period: p1,
            ..a.pulse1
        },
        pulse2: PulseChannel {
            length: length_clocked(a.pulse2.length, a.pulse2.length_halt),
            sweep: s2,
            timer_period: p2,
            ..a.pulse2
        },
        triangle: TriangleChannel { length: length_clocked(a.triangle.length, a.triangle.length_halt), ..a.triangle },
        noise: NoiseChannel { length: length_clocked(a.noise.length, a.noise.length_halt), ..a.noise },
        ..a
    }
}

/// A pulse channel after a write of $4000/$4004: duty, length halt and envelope setup.
pub open spec fn pulse_reg0_spec(c: PulseChannel, val: u8) -> PulseChannel {
    PulseChannel {
        duty: val / 64,
        length_halt: (val / 32) % 2 == 1,
        envelope: Envelope {
            loop_flag: (val / 32) % 2 == 1,
            constant: (val / 16) % 2 == 1,
            period: val % 16,
            ..c.envelope
        },
        ..c
    }
}

/// A pulse channel after a write of $4001/$4005: the sweep unit, marked for reload.
pub open spec fn pulse_reg1_spec(c: PulseChannel, val: u8) -> PulseChannel {
    PulseChannel {
        sweep: Sweep {
            enabled: val >= 0x80,
            period: (val / 16) % 8,
            negate: (val / 8) % 2 == 1,
            shift: val % 8,
            reload: true,
            ..c.sweep
        },
        ..c
    }
}

/// A pulse channel after a write of $4002/$4006: the timer period's low byte.
pub open spec fn pulse_reg2_spec(c: PulseChannel, val: u8) -> PulseChannel {
    PulseChannel { timer_period: (c.timer_period / 256 * 256 + val) as u16, ..c }
}

/// A pulse channel after a write of $4003/$4007: the timer period's high bits, the length
/// load (when enabled), and a restart of the waveform and the envelope.
pub open spec fn pulse_reg3_spec(c: PulseChannel, val: u8) -> PulseChannel {
    PulseChannel {
        timer_period: (c.timer_period % 256 + (val % 8) * 256) as u16,
        length: if c.enabled { length_table(val / 8) } else { c.length },
        duty_pos: 0,
        envelope: Envelope { start: true, ..c.envelope },
        ..c
    }
}

/// The APU after a CPU write of `val` to a pulse register ($4000-$4007).
pub open spec fn apu_pulse_write(a: NesApu, addr: u16, val: u8) -> NesApu {
    let p1 = a.pulse1;
    let p2 = a.pulse2;
    if addr == 0x4000 {
        NesApu { pulse1: pulse_reg0_spec(p1, val), ..a }
    } else if addr == 0x4001 {
        NesApu { pulse1: pulse_reg1_spec(p1, val), ..a }
    } else if addr == 0x4002 {
        NesApu { pulse1: pulse_reg2_spec(p1, val), ..a }
    } else if addr == 0x4003 {
        NesApu { pulse1: pulse_reg3_spec(p1, val), ..a }
    } else if addr == 0x4004 {
        NesApu { pulse2: pulse_reg0_spec(p2, val), ..a }
    } else if addr == 0x4005 {
        NesApu { pulse2: pulse_reg1_spec(p2, val), ..a }
    } else if addr == 0x4006 {
        NesApu { pulse2: pulse_reg2_spec(p2, val), ..a }
    } else if addr == 0x4007 {
        NesApu { pulse2: pulse_reg3_spec(p2, val), ..a }
    } else {
        a
    }
}

/// The APU after a CPU write of `val` to a triangle, noise or DMC register ($4008-$4011).
pub open spec fn apu_wave_write(a: NesApu, addr: u16, val: u8) -> NesApu {
    let tr = a.triangle;
    let no = a.noise;
    let dm = a.dmc;
    if addr == 0x4008 {
        NesApu {
            triangle: TriangleChannel {
                control_flag: val >= 0x80,
                length_halt: val >= 0x80,
                linear_reload: val % 128,
                ..tr
            },
            ..a
        }
    } else if addr == 0x400A {
        NesApu { triangle: TriangleChannel { timer_period: (tr.timer_period / 256 * 256 + val) as u16, ..tr }, ..a }
    } else if addr == 0x400B {
        NesApu {
            triangle: TriangleChannel {
                timer_period: (tr.timer_period % 256 + (val % 8) * 256) as u16,
                length: if tr.enabled { length_table(val / 8) } else { tr.length },
                linear_reload_flag: true,
                ..tr
            },
            ..a
        }
    } else if addr == 0x400C {
        NesApu {
            noise: NoiseChannel {
                length_halt: (val / 32) % 2 == 1,
                envelope: Envelope {
                    loop_flag: (val / 32) % 2 == 1,
                    constant: (val / 16) % 2 == 1,
                    period: val % 16,
                    ..no.envelope
                },
                ..no
            },
            ..a
        }
    } else if addr == 0x400E {
        NesApu { noise: NoiseChannel { mode: val >= 0x80, timer_period: noise_period_table(val % 16), ..no }, ..a }
    } else if addr == 0x400F {
        NesApu {
            noise: NoiseChannel {
                length: if no.enabled { length_table(val / 8) } else { no.length },
                envelope: Envelope { start: true, ..no.envelope },
                ..no
            },
            ..a
        }
    } else if addr == 0x4010 {
        NesApu {
            dmc: DmcChannel { irq_enabled: val >= 0x80, loop_flag: (val / 64) % 2 == 1, rate_index: val % 16, ..dm },
            ..a
        }
    } else if addr == 0x4011 {
        NesApu { dmc: DmcChannel { output: val % 128, ..dm }, ..a }
    } else {
        a
    }
}

/// The APU after a CPU write of `val` to the status ($4015) or frame counter ($4017)
/// register.
pub open spec fn apu_control_write(a: NesApu, addr: u16, val: u8) -> NesApu {
    let p1 = a.pulse1;
    let p2 = a.pulse2;
    let tr = a.triangle;
    let no = a.noise;
    let dm = a.dmc;
    if addr == 0x4015 {
        NesApu {
            pulse1: PulseChannel { enabled: val % 2 == 1, length: if val % 2 == 1 { p1.length } else { 0 }, ..p1 },
            pulse2: PulseChannel {
                enabled: (val / 2) % 2 == 1,
                length: if (val / 2) % 2 == 1 { p2.length } else { 0 },
                ..p2
            },
            triangle: TriangleChannel {
                enabled: (val / 4) % 2 == 1,
                length: if (val / 4) % 2 == 1 { tr.length } else { 0 },
                ..tr
            },
            noise: NoiseChannel {
                enabled: (val / 8) % 2 == 1,
                length: if (val / 8) % 2 == 1 { no.length } else { 0 },
                ..no
            },
            dmc: DmcChannel {
                enabled: (val / 16) % 2 == 1,
                output: if (val / 16) % 2 == 1 { dm.output } else { 0 },
                ..dm
            },
            ..a
        }
    } else if addr == 0x4017 {
        let b = NesApu {
            frame_counter_mode: val / 128,
            frame_irq_inhibit: (val / 64) % 2 == 1,
            frame_irq: a.frame_irq && (val / 64) % 2 == 0,
            frame_cycles: 0,
            frame_step: 0,
            ..a
        };
        if val / 128 == 1 {
            half_frame_spec(quarter_frame_spec(b))
        } else {
            b
        }
    } else {
        a
    }
}

/// The APU after a CPU write of `val` to register `addr` ($4000-$4017); addresses without a
/// register change nothing.
pub open spec fn apu_write_spec(a: NesApu, addr: u16, val: u8) -> NesApu {
    if addr <= 0x4007 {
        apu_pulse_write(a, addr, val)
    } else if addr <= 0x4011 {
        apu_wave_write(a, addr, val)
    } else {
        apu_control_write(a, addr, val)
    }
}

/// The CPU cycle count at which frame-sequencer step `step` happens.
pub open spec fn frame_step_cycle(mode: u8, step: u32) -> u32 {
    if step == 0 {
        7457
    } else if step == 1 {
        14913
    } else if step == 2 {
        22371
    } else if step == 3 {
        29829
    } else if step == 4 {
        if mode == 0 { 29830 } else { 37281 }
    } else {
        37282
    }
}

/// The last step of a frame-sequencer sequence.
pub open spec fn last_frame_step(mode: u8) -> u32 {
    if mode == 0 { 4 } else { 5 }
}

/// The frame sequencer once its cycle count has been advanced: when the count reaches the
/// current step's cycle, the step is taken. Steps 0 and 2 clock a quarter frame, step 1 and
/// the 5-step sequence's step 4 a quarter and a half frame; the 4-step sequence's step 4
/// clocks both, raises the frame IRQ unless inhibited and restarts the sequence, and the
/// 5-step sequence restarts after its step 5.
pub open spec fn frame_seq_spec(a: NesApu) -> NesApu {
    let mode = a.frame_counter_mode;
    let step = a.frame_step;
    if a.frame_cycles < frame_step_cycle(mode, step) {
        a
    } else {
        let a1 = NesApu { frame_step: (step + 1) as u32, ..a };
        if step == 0 || step == 2 {
            quarter_frame_spec(a1)
        } else if step == 1 || (step == 4 && mode != 0) {
            half_frame_spec(quarter_frame_spec(a1))
        } else if step == 4 {
            let b = half_frame_spec(quarter_frame_spec(a1));
            NesApu { frame_irq: b.frame_irq || !b.frame_irq_inhibit, frame_cycles: 0, frame_step: 0, ..b }
        } else if step == 5 {
            NesApu { frame_cycles: 0, frame_step: 0, ..a1 }
        } else {
            a1
        }
    }
}

/// The APU's counters and channel timers after one CPU cycle, before the frame sequencer
/// acts: the triangle timer is clocked on every cycle, the pulse and noise timers on even
/// cycles.
pub open spec fn timers_ticked(a: NesApu) -> NesApu {
    let cycles = ((a.cpu_cycles + 1) % 0x1_0000_0000) as u32;
    let even = cycles % 2 == 0;
    NesApu {
        cpu_cycles: cycles,
        triangle: triangle_timer_spec(a.triangle),
        pulse1: if even { pulse_timer_spec(a.pulse1) } else { a.pulse1 },
        pulse2: if even { pulse_timer_spec(a.pulse2) } else { a.pulse2 },
        noise: if even { noise_timer_spec(a.noise) } else { a.noise },
        frame_cycles: (a.frame_cycles + 1) as u32,
        ..a
    }
}

/// The APU after one CPU cycle, its sample buffer aside: channel timers, frame sequencer and
/// sample clock.
pub open spec fn apu_cycle_spec(a: NesApu) -> NesApu {
    NesApu {
        sample_acc: ((a.sample_acc + SAMPLE_RATE) % (CPU_CLOCK as int)) as u32,
        ..frame_seq_spec(timers_ticked(a))
    }
}

/// The levels recorded during one CPU cycle from `a`: when the sample clock reaches
/// 1789773, one sample of the channels as they stand after the cycle.
pub open spec fn apu_cycle_samples(a: NesApu) -> Seq<u8> {
    if a.sample_acc + SAMPLE_RATE >= CPU_CLOCK {
        apu_levels(&apu_cycle_spec(a))
    } else {
        Seq::empty()
    }
}

/// The APU after `n` CPU cycles from `a`, its sample buffer aside.
pub open spec fn apu_run(a: NesApu, n: nat) -> NesApu
    decreases n,
{
    if n == 0 {
        a
    } else {
        apu_cycle_spec(apu_run(a, (n - 1) as nat))
    }
}

/// The levels recorded during `n` CPU cycles from `a`, in order.
pub open spec fn apu_run_samples(a: NesApu, n: nat) -> Seq<u8>
    decreases n,
{
    if n == 0 {
        Seq::empty()
    } else {
        apu_run_samples(a, (n - 1) as nat) + apu_cycle_samples(apu_run(a, (n - 1) as nat))
    }
}

/// Quarter- and half-frame clocks do not read the sample buffer.
proof fn lemma_frame_clocks_ignore_buffer(a: NesApu, b: NesApu)
    requires
        a == (NesApu { buffer: a.buffer, ..b }),
    ensures
        quarter_frame_spec(a) == (NesApu { buffer: a.buffer, ..quarter_frame_spec(b) }),
        half_frame_spec(a) == (NesApu { buffer: a.buffer, ..half_frame_spec(b) }),
{
    reveal(quarter_frame_spec);
    reveal(half_frame_spec);
}

/// The frame sequencer does not read the sample buffer.
proof fn lemma_frame_seq_ignores_buffer(a: NesApu, b: NesApu)
    requires
        a == (NesApu { buffer: a.buffer, ..b }),
    ensures
        frame_seq_spec(a) == (NesApu { buffer: a.buffer, ..frame_seq_spec(b) }),
{
    let a1 = NesApu { frame_step: (a.frame_step + 1) as u32, ..a };
    let b1 = NesApu { frame_step: (b.frame_step + 1) as u32, ..b };
    lemma_frame_clocks_ignore_buffer(a1, b1);
    lemma_frame_clocks_ignore_buffer(quarter_frame_spec(a1), quarter_frame_spec(b1));
}

/// A CPU cycle does not read the sample buffer.
proof fn lemma_cycle_ignores_buffer(a: NesApu, b: NesApu)
    requires
        a == (NesApu { buffer: a.buffer, ..b }),
    ensures
        apu_cycle_spec(a) == (NesApu { buffer: a.buffer, ..apu_cycle_spec(b) }),
        apu_cycle_samples(a) == apu_cycle_samples(b),
{
    let ta = timers_ticked(a);
    let tb = timers_ticked(b);
    assert(ta == (NesApu { buffer: a.buffer, ..tb }));
    lemma_frame_seq_ignores_buffer(ta, tb);
}

/// The five levels of the current output sample.
pub open spec fn apu_levels(a: &NesApu) -> Seq<u8> {
    seq![
        pulse_level(a.pulse1),
        pulse_level(a.pulse2),
        triangle_level(a.triangle),
        noise_level(a.noise),
        if a.dmc.enabled { a.dmc.output } else { 0 },
    ]
}

/// The status register ($4015): length counters active (bits 0-3) and the frame IRQ (bit 6).
pub open spec fn apu_status_spec(a: &NesApu) -> u8 {
    ((if a.pulse1.length > 0 { 1int } else { 0 }) + (if a.pulse2.length > 0 { 2int } else { 0 }) + (
    if a.triangle.length > 0 { 4int } else { 0 }) + (if a.noise.length > 0 { 8int } else { 0 }) + (
    if a.frame_irq { 0x40int } else { 0 })) as u8
}

/// The channels' register ranges hold.
pub open spec fn channels_wf(a: &NesApu) -> bool {
    &&& a.pulse1.wf()
    &&& a.pulse2.wf()
    &&& a.triangle.wf()
    &&& a.noise.wf()
    &&& a.pulse1.channel_one && !a.pulse2.channel_one
}

/// Appends `levels` to `buffer`.
fn append_levels(buffer: &mut Vec<u8>, levels: &Vec<u8>)
    ensures
        final(buffer)@ == old(buffer)@ + levels@,
{
    let ghost before = buffer@;
    let mut i: usize = 0;
    while i < levels.len()
        invariant
            0 <= i <= levels@.len(),
            buffer@ == before + levels@.subrange(0, i as int),
        decreases levels@.len() - i,
    {
        buffer.push(levels[i]);
        i = i + 1;
        assert(buffer@ =~= before + levels@.subrange(0, i as int));
    }
    assert(levels@.subrange(0, levels@.len() as int) =~= levels@);
}

impl NesApu {
    pub open spec fn wf(&self) -> bool {
        &&& channels_wf(self)
        &&& self.frame_step <= last_frame_step(self.frame_counter_mode)
        &&& self.frame_cycles <= frame_step_cycle(self.frame_counter_mode, self.frame_step)
        &&& self.sample_acc < CPU_CLOCK
        &&& self.buffer@.len() % 5 == 0
    }

    pub fn new() -> (a: Self)
        ensures
            a.wf(),
            a.frame_counter_mode == 0 && !a.frame_irq_inhibit && !a.frame_irq,
            a.frame_cycles == 0 && a.frame_step == 0 && a.sample_acc == 0 && a.cpu_cycles == 0,
            a.buffer@ == Seq::<u8>::empty(),
            !a.pulse1.enabled && !a.pulse2.enabled && !a.triangle.enabled && !a.noise.enabled && !a.dmc.enabled,
    {
        NesApu {
            pulse1: PulseChannel::new(true),
            pulse2: PulseChannel::new(false),
            triangle: TriangleChannel::new(),
            noise: NoiseChannel::new(),
            dmc: DmcChannel::new(),
            frame_counter_mode: 0,
            frame_irq_inhibit: false,
            frame_irq: false,
            frame_cycles: 0,
            frame_step: 0,
            sample_acc: 0,
            buffer: Vec::new(),
            cpu_cycles: 0,
        }
    }

    /// A CPU write of an APU register ($4000-$4013, $4015, $4017).
    pub fn write_register(&mut self, addr: u16, val: u8)
        requires
            old(self).wf(),
        ensures
            final(self).wf(),
            *final(self) == apu_write_spec(*old(self), addr, val),
    {
        if addr <= 0x4007 {
            self.write_pulse_register(addr, val);
        } else if addr <= 0x4011 {
            self.write_wave_register(addr, val);
        } else {
            self.write_control_register(addr, val);
        }
    }

    /// A write of a pulse register ($4000-$4007).
    fn write_pulse_register(&mut self, addr: u16, val: u8)
        requires
            old(self).wf(),
            addr <= 0x4007,
        ensures
            final(self).wf(),
            *final(self) == apu_pulse_write(*old(self), addr, val),
    {
        if addr == 0x4000 {
            self.pulse1.write_reg0(val);
        } else if addr == 0x4001 {
            self.pulse1.write_reg1(val);
        } else if addr == 0x4002 {
            self.pulse1.write_reg2(val);
        } else if addr == 0x4003 {
            self.pulse1.write_reg3(val);
        } else if addr == 0x4004 {
            self.pulse2.write_reg0(val);
        } else if addr == 0x4005 {
            self.pulse2.write_reg1(val);
        } else if addr == 0x4006 {
            self.pulse2.write_reg2(val);
        } else if addr == 0x4007 {
            self.pulse2.write_reg3(val);
        }
    }

    /// A write of a triangle, noise or DMC register ($4008-$4011).
    #[verifier::spinoff_prover]
    #[verifier::rlimit(100)]
    fn write_wave_register(&mut self, addr: u16, val: u8)
        requires
            old(self).wf(),
            0x4007 < addr <= 0x4011,
        ensures
            final(self).wf(),
            *final(self) == apu_wave_write(*old(self), addr, val),
    {
        if addr == 0x4008 {
            self.triangle.control_flag = val >= 0x80;
            self.triangle.length_halt = val >= 0x80;
            self.triangle.linear_reload = val % 128;
        } else if addr == 0x400A {
            self.triangle.timer_period = self.triangle.timer_period / 256 * 256 + val as u16;
        } else if addr == 0x400B {
            self.triangle.timer_period = self.triangle.timer_period % 256 + ((val % 8) as u16) * 256;
            self.triangle.length = if self.triangle.enabled { length_lookup(val / 8) } else { self.triangle.length };
            self.triangle.linear_reload_flag = true;
        } else if addr == 0x400C {
            self.noise.length_halt = (val / 32) % 2 == 1;
            self.noise.envelope.loop_flag = (val / 32) % 2 == 1;
            self.noise.envelope.constant = (val / 16) % 2 == 1;
            self.noise.envelope.period = val % 16;
        } else if addr == 0x400E {
            self.noise.mode = val >= 0x80;
            self.noise.timer_period = noise_period_lookup(val % 16);
        } else if addr == 0x400F {
            self.noise.length = if self.noise.enabled { length_lookup(val / 8) } else { self.noise.length };
            self.noise.envelope.start = true;
        } else if addr == 0x4010 {
            self.dmc.irq_enabled = val >= 0x80;
            self.dmc.loop_flag = (val / 64) % 2 == 1;
            self.dmc.rate_index = val % 16;
        } else if addr == 0x4011 {
            self.dmc.output = val % 128;
        }
    }

    /// A write of the status ($4015) or frame counter ($4017) register; other addresses are
    /// ignored.
    fn write_control_register(&mut self, addr: u16, val: u8)
        requires
            old(self).wf(),
            addr > 0x4011,
        ensures
            final(self).wf(),
            *final(self) == apu_control_write(*old(self), addr, val),
    {
        if addr == 0x4015 {
            self.write_status(val);
        } else if addr == 0x4017 {
            self.write_frame_counter(val);
        }
    }

    /// $4015: channel enables; a disabled channel's length counter (the DMC's output) is
    /// cleared.
    #[verifier::spinoff_prover]
    #[verifier::rlimit(30)]
    fn write_status(&mut self, val: u8)
        requires
            old(self).wf(),
        ensures
            final(self).wf(),
            *final(self) == apu_control_write(*old(self), 0x4015, val),
    {
        let e1 = val % 2 == 1;
        let e2 = (val / 2) % 2 == 1;
        let e3 = (val / 4) % 2 == 1;
        let e4 = (val / 8) % 2 == 1;
        let e5 = (val / 16) % 2 == 1;
        self.pulse1.enabled = e1;
        self.pulse1.length = if e1 { self.pulse1.length } else { 0 };
        self.pulse2.enabled = e2;
        self.pulse2.length = if e2 { self.pulse2.length } else { 0 };
        self.triangle.enabled = e3;
        self.triangle.length = if e3 { self.triangle.length } else { 0 };
        self.noise.enabled = e4;
        self.noise.length = if e4 { self.noise.length } else { 0 };
        self.dmc.enabled = e5;
        self.dmc.output = if e5 { self.dmc.output } else { 0 };
    }

    /// $4017: sequencer mode and IRQ inhibit; the sequencer restarts, and mode 1 clocks a
    /// quarter and a half frame at once.
    fn write_frame_counter(&mut self, val: u8)
        requires
            old(self).wf(),
        ensures
            final(self).wf(),
            *final(self) == apu_control_write(*old(self), 0x4017, val),
    {
        self.frame_counter_mode = val / 128;
        self.frame_irq_inhibit = (val / 64) % 2 == 1;
        if self.frame_irq_inhibit {
            self.frame_irq = false;
        }
        self.frame_cycles = 0;
        self.frame_step = 0;
        if self.frame_counter_mode == 1 {
            self.clock_quarter_frame();
            self.clock_half_frame();
        }
    }

    /// The status register ($4015).
    pub fn read_status(&self) -> (v: u8)
        ensures
            v == apu_status_spec(self),
    {
        let mut v: u8 = 0;
        if self.pulse1.length > 0 {
            v = v + 0x01;
        }
        if self.pulse2.length > 0 {
            v = v + 0x02;
        }
        if self.triangle.length > 0 {
            v = v + 0x04;
        }
        if self.noise.length > 0 {
            v = v + 0x08;
        }
        if self.frame_irq {
            v = v + 0x40;
        }
        v
    }

    /// Envelopes and the triangle's linear counter.
    fn clock_quarter_frame(&mut self)
        requires
            channels_wf(old(self)),
        ensures
            channels_wf(final(self)),
            *final(self) == quarter_frame_spec(*old(self)),
            final(self).buffer == old(self).buffer && final(self).sample_acc == old(self).sample_acc,
            final(self).cpu_cycles == old(self).cpu_cycles && final(self).frame_cycles == old(self).frame_cycles,
            final(self).frame_step == old(self).frame_step && final(self).frame_counter_mode == old(self).frame_counter_mode,
            final(self).frame_irq == old(self).frame_irq && final(self).frame_irq_inhibit == old(self).frame_irq_inhibit,
            final(self).dmc == old(self).dmc,
    {
        proof {
            reveal(quarter_frame_spec);
        }
        self.pulse1.envelope.clock();
        self.pulse2.envelope.clock();
        self.noise.envelope.clock();
        self.triangle.clock_linear();
    }

    /// Length counters and the pulse sweeps.
    fn clock_half_frame(&mut self)
        requires
            channels_wf(old(self)),
        ensures
            channels_wf(final(self)),
            *final(self) == half_frame_spec(*old(self)),
            final(self).buffer == old(self).buffer && final(self).sample_acc == old(self).sample_acc,
            final(self).cpu_cycles == old(self).cpu_cycles && final(self).frame_cycles == old(self).frame_cycles,
            final(self).frame_step == old(self).frame_step && final(self).frame_counter_mode == old(self).frame_counter_mode,
            final(self).frame_irq == old(self).frame_irq && final(self).frame_irq_inhibit == old(self).frame_irq_inhibit,
            final(self).dmc == old(self).dmc,
    {
        proof {
            reveal(half_frame_spec);
        }
        self.pulse1.clock_length();
        self.pulse2.clock_length();
        self.triangle.clock_length();
        self.noise.clock_length();
        let p1 = self.pulse1.timer_period;
        self.pulse1.timer_period = self.pulse1.sweep.clock(p1, true);
        let p2 = self.pulse2.timer_period;
        self.pulse2.timer_period = self.pulse2.sweep.clock(p2, false);
    }

    /// Advances the frame sequencer by the cycle just counted.
    fn tick_frame_sequencer(&mut self)
        requires
            old(self).frame_step <= last_frame_step(old(self).frame_counter_mode),
            old(self).frame_cycles <= frame_step_cycle(old(self).frame_counter_mode, old(self).frame_step) + 1,
            channels_wf(old(self)),
            old(self).sample_acc < CPU_CLOCK,
            old(self).buffer@.len() % 5 == 0,
        ensures
            final(self).wf(),
            *final(self) == frame_seq_spec(*old(self)),
            final(self).buffer == old(self).buffer,
            final(self).sample_acc == old(self).sample_acc,
            final(self).cpu_cycles == old(self).cpu_cycles,
    {
        let mode = self.frame_counter_mode;
        let step = self.frame_step;
        let target: u32 = if step == 0 {
            7457
        } else if step == 1 {
            14913
        } else if step == 2 {
            22371
        } else if step == 3 {
            29829
        } else if step == 4 {
            if mode == 0 {
                29830
            } else {
                37281
            }
        } else {
            37282
        };
        if self.frame_cycles < target {
            return;
        }
        self.frame_step = step + 1;
        if mode == 0 {
            if step == 0 || step == 2 {
                self.clock_quarter_frame();
            } else if step == 1 {
                self.clock_quarter_frame();
                self.clock_half_frame();
            } else if step == 4 {
                self.clock_quarter_frame();
                self.clock_half_frame();
                if !self.frame_irq_inhibit {
                    self.frame_irq = true;
                }
                self.frame_cycles = 0;
                self.frame_step = 0;
            }
        } else {
            if step == 0 || step == 2 {
                self.clock_quarter_frame();
            } else if step == 1 || step == 4 {
                self.clock_quarter_frame();
                self.clock_half_frame();
            } else if step == 5 {
                self.frame_cycles = 0;
                self.frame_step = 0;
            }
        }
    }

    /// The five levels of the current output sample.
    pub fn mix_sample(&self) -> (levels: Vec<u8>)
        requires
            self.wf(),
        ensures
            levels@ == apu_levels(self),
    {
        let mut levels: Vec<u8> = Vec::new();
        levels.push(self.pulse1.sample());
        levels.push(self.pulse2.sample());
        levels.push(self.triangle.sample());
        levels.push(self.noise.sample());
        levels.push(self.dmc.sample());
        assert(levels@ =~= apu_levels(self));
        levels
    }

    /// One CPU cycle: channel timers, the frame sequencer and the sample clock.
    #[verifier::spinoff_prover]
    #[verifier::rlimit(50)]
    fn step_one_cpu_cycle(&mut self)
        requires
            old(self).wf(),
        ensures
            final(self).wf(),
            final(self).cpu_cycles == (old(self).cpu_cycles + 1) % 0x1_0000_0000,
            final(self).sample_acc == (old(self).sample_acc + SAMPLE_RATE) % CPU_CLOCK as int,
            old(self).sample_acc + SAMPLE_RATE < CPU_CLOCK ==> final(self).buffer@ == old(self).buffer@,
            old(self).sample_acc + SAMPLE_RATE >= CPU_CLOCK ==> final(self).buffer@ == old(self).buffer@
                + apu_levels(&*final(self)),
            *final(self) == (NesApu { buffer: final(self).buffer, ..apu_cycle_spec(*old(self)) }),
            final(self).buffer@ == old(self).buffer@ + apu_cycle_samples(*old(self)),
    {
        self.cpu_cycles = self.cpu_cycles.wrapping_add(1);
        self.triangle.clock_timer();
        if self.cpu_cycles % 2 == 0 {
            self.pulse1.clock_timer();
            self.pulse2.clock_timer();
            self.noise.clock_timer();
        }
        self.frame_cycles = self.frame_cycles + 1;
        self.tick_frame_sequencer();
        self.sample_acc = self.sample_acc + SAMPLE_RATE;
        if self.sample_acc >= CPU_CLOCK {
            self.sample_acc = self.sample_acc - CPU_CLOCK;
            let levels = self.mix_sample();
            append_levels(&mut self.buffer, &levels);
        }
    }

    /// Advances the APU by `cycles` CPU cycles; a sample is recorded each time the sample
    /// clock passes 1789773.
    #[verifier::spinoff_prover]
    #[verifier::rlimit(50)]
    pub fn step(&mut self, cycles: u32)
        requires
            old(self).wf(),
        ensures
            final(self).wf(),
            *final(self) == (NesApu { buffer: final(self).buffer, ..apu_run(*old(self), cycles as nat) }),
            final(self).buffer@ == old(self).buffer@ + apu_run_samples(*old(self), cycles as nat),
            final(self).sample_acc == (old(self).sample_acc + SAMPLE_RATE * cycles) % CPU_CLOCK as int,
            final(self).buffer@.len() == old(self).buffer@.len() + 5 * ((old(self).sample_acc
                + SAMPLE_RATE * cycles) / CPU_CLOCK as int),
            final(self).buffer@.subrange(0, old(self).buffer@.len() as int) == old(self).buffer@,
            final(self).cpu_cycles == (old(self).cpu_cycles + cycles) % 0x1_0000_0000,
    {
        let ghost b0 = self.buffer@;
        let ghost acc0 = self.sample_acc as int;
        let mut i: u32 = 0;
        while i < cycles
            invariant
                self.wf(),
                i <= cycles,
                self.sample_acc == (acc0 + SAMPLE_RATE * i) % CPU_CLOCK as int,
                self.buffer@.len() == b0.len() + 5 * ((acc0 + SAMPLE_RATE * i) / CPU_CLOCK as int),
                self.buffer@.subrange(0, b0.len() as int) == b0,
                self.cpu_cycles == (old(self).cpu_cycles + i) % 0x1_0000_0000,
                acc0 == old(self).sample_acc,
                b0 == old(self).buffer@,
                acc0 < CPU_CLOCK,
                *self == (NesApu { buffer: self.buffer, ..apu_run(*old(self), i as nat) }),
                self.buffer@ == b0 + apu_run_samples(*old(self), i as nat),
            decreases cycles - i,
        {
            let ghost before = self.buffer@;
            let ghost acc_before = self.sample_acc as int;
            let ghost prev = *self;
            self.step_one_cpu_cycle();
            proof {
                lemma_cycle_ignores_buffer(prev, apu_run(*old(self), i as nat));
                assert(self.buffer@ == b0 + apu_run_samples(*old(self), (i + 1) as nat)) by {
                    assert(b0 + apu_run_samples(*old(self), (i + 1) as nat) =~= b0 + apu_run_samples(
                        *old(self),
                        i as nat,
                    ) + apu_cycle_samples(apu_run(*old(self), i as nat)));
                }
                let t = acc0 + SAMPLE_RATE * i;
                assert(t == (t / CPU_CLOCK as int) * CPU_CLOCK + acc_before) by (nonlinear_arith)
                    requires
                        acc_before == t % CPU_CLOCK as int,
                ;
                assert(acc0 + SAMPLE_RATE * (i + 1) == t + SAMPLE_RATE);
                if acc_before + SAMPLE_RATE >= CPU_CLOCK {
                    assert((t + SAMPLE_RATE) / CPU_CLOCK as int == t / CPU_CLOCK as int + 1
                        && (t + SAMPLE_RATE) % CPU_CLOCK as int == acc_before + SAMPLE_RATE - CPU_CLOCK)
                        by (nonlinear_arith)
                        requires
                            t == (t / CPU_CLOCK as int) * CPU_CLOCK + acc_before,
                            0 <= acc_before < CPU_CLOCK,
                            acc_before + SAMPLE_RATE >= CPU_CLOCK,
                    ;
                    assert(self.buffer@.subrange(0, b0.len() as int) =~= before.subrange(0, b0.len() as int));
                } else {
                    assert((t + SAMPLE_RATE) / CPU_CLOCK as int == t / CPU_CLOCK as int
                        && (t + SAMPLE_RATE) % CPU_CLOCK as int == acc_before + SAMPLE_RATE)
                        by (nonlinear_arith)
                        requires
                            t == (t / CPU_CLOCK as int) * CPU_CLOCK + acc_before,
                            0 <= acc_before,
                            acc_before + SAMPLE_RATE < CPU_CLOCK,
                    ;
                }
            }
            i = i + 1;
        }
    }

    /// Removes and returns the recorded samples (five levels each).
    pub fn get_samples(&mut self) -> (samples: Vec<u8>)
        requires
            old(self).wf(),
        ensures
            final(self).wf(),
            samples@ == old(self).buffer@,
            final(self).buffer@ == Seq::<u8>::empty(),
            *final(self) == (NesApu { buffer: final(self).buffer, ..*old(self) }),
    {
        let mut out: Vec<u8> = Vec::new();
        std::mem::swap(&mut out, &mut self.buffer);
        out
    }
}

// ---------------------------------------------------------------------------
// Save / load
// ---------------------------------------------------------------------------

/// Serialized envelope (6 bytes).
pub open spec fn envelope_bytes(e: Envelope) -> Seq<u8> {
    seq![bool_byte(e.start), bool_byte(e.loop_flag), bool_byte(e.constant), e.period, e.divider, e.decay]
}

/// Serialized pulse channel (22 bytes; which pulse it is is not stored).
pub open spec fn pulse_bytes(c: PulseChannel) -> Seq<u8> {
    seq![bool_byte(c.enabled), c.duty, c.duty_pos] + le16(c.timer_period) + le16(c.timer) + seq![
        c.length,
        bool_byte(c.length_halt),
    ] + envelope_bytes(c.envelope) + seq![
        bool_byte(c.sweep.enabled),
        c.sweep.period,
        bool_byte(c.sweep.negate),
        c.sweep.shift,
        bool_byte(c.sweep.reload),
        c.sweep.divider,
        bool_byte(c.sweep.mute),
    ]
}

/// Serialized triangle channel (12 bytes).
pub open spec fn triangle_bytes(c: TriangleChannel) -> Seq<u8> {
    seq![bool_byte(c.enabled)] + le16(c.timer_period) + le16(c.timer) + seq![
        c.seq_pos,
        c.length,
        bool_byte(c.length_halt),
        c.linear_counter,
        c.linear_reload,
        bool_byte(c.linear_reload_flag),
        bool_byte(c.control_flag),
    ]
}

/// Serialized noise channel (16 bytes).
pub open spec fn noise_bytes(c: NoiseChannel) -> Seq<u8> {
    seq![bool_byte(c.enabled), bool_byte(c.mode)] + le16(c.timer_period) + le16(c.timer) + seq![
        c.length,
        bool_byte(c.length_halt),
    ] + le16(c.lfsr) + envelope_bytes(c.envelope)
}

/// Serialized DMC channel (5 bytes).
pub open spec fn dmc_bytes(c: DmcChannel) -> Seq<u8> {
    seq![bool_byte(c.enabled), c.output, bool_byte(c.irq_enabled), bool_byte(c.loop_flag), c.rate_index]
}

/// Serialized frame sequencer and sample clock (23 bytes).
pub open spec fn apu_clock_bytes(a: &NesApu) -> Seq<u8> {
    seq![a.frame_counter_mode, bool_byte(a.frame_irq_inhibit), bool_byte(a.frame_irq)] + le32(
        a.frame_cycles,
    ) + le32(a.frame_step) + le64(a.sample_acc as u64) + le32(a.cpu_cycles)
}

/// The serialized APU (100 bytes; the recorded samples are not saved).
pub open spec fn nes_apu_bytes(a: &NesApu) -> Seq<u8> {
    pulse_bytes(a.pulse1) + pulse_bytes(a.pulse2) + triangle_bytes(a.triangle) + noise_bytes(a.noise)
        + dmc_bytes(a.dmc) + apu_clock_bytes(a)
}

pub open spec fn nes_apu_bytes_len() -> int {
    100
}

/// The envelope stored at `o`.
pub open spec fn envelope_from_bytes(d: Seq<u8>, o: int) -> Envelope {
    Envelope {
        start: d[o] != 0,
        loop_flag: d[o + 1] != 0,
        constant: d[o + 2] != 0,
        period: d[o + 3],
        divider: d[o + 4],
        decay: d[o + 5],
    }
}

/// The pulse channel stored at `o`.
pub open spec fn pulse_from_bytes(d: Seq<u8>, o: int, channel_one: bool) -> PulseChannel {
    PulseChannel {
        enabled: d[o] != 0,
        duty: d[o + 1],
        duty_pos: d[o + 2],
        timer_period: dec16(d, o + 3),
        timer: dec16(d, o + 5),
        length: d[o + 7],
        length_halt: d[o + 8] != 0,
        envelope: envelope_from_bytes(d, o + 9),
        sweep: Sweep {
            enabled: d[o + 15] != 0,
            period: d[o + 16],
            negate: d[o + 17] != 0,
            shift: d[o + 18],
            reload: d[o + 19] != 0,
            divider: d[o + 20],
            mute: d[o + 21] != 0,
        },
        channel_one,
    }
}

/// The triangle channel stored at `o`.
pub open spec fn triangle_from_bytes(d: Seq<u8>, o: int) -> TriangleChannel {
    TriangleChannel {
        enabled: d[o] != 0,
        timer_period: dec16(d, o + 1),
        timer: dec16(d, o + 3),
        seq_pos: d[o + 5],
        length: d[o + 6],
        length_halt: d[o + 7] != 0,
        linear_counter: d[o + 8],
        linear_reload: d[o + 9],
        linear_reload_flag: d[o + 10] != 0,
        control_flag: d[o + 11] != 0,
    }
}

/// The noise channel stored at `o`.
pub open spec fn noise_from_bytes(d: Seq<u8>, o: int) -> NoiseChannel {
    NoiseChannel {
        enabled: d[o] != 0,
        mode: d[o + 1] != 0,
        timer_period: dec16(d, o + 2),
        timer: dec16(d, o + 4),
        length: d[o + 6],
        length_halt: d[o + 7] != 0,
        lfsr: dec16(d, o + 8),
        envelope: envelope_from_bytes(d, o + 10),
    }
}

/// The DMC channel stored at `o`.
pub open spec fn dmc_from_bytes(d: Seq<u8>, o: int) -> DmcChannel {
    DmcChannel {
        enabled: d[o] != 0,
        output: d[o + 1],
        irq_enabled: d[o + 2] != 0,
        loop_flag: d[o + 3] != 0,
        rate_index: d[o + 4],
    }
}

/// The APU that `load` restores from the bytes at `o` (no recorded samples).
pub open spec fn nes_apu_loaded(a: &NesApu, d: Seq<u8>, o: int) -> bool {
    &&& a.pulse1 == pulse_from_bytes(d, o, true)
    &&& a.pulse2 == pulse_from_bytes(d, o + 22, false)
    &&& a.triangle == triangle_from_bytes(d, o + 44)
    &&& a.noise == noise_from_bytes(d, o + 56)
    &&& a.dmc == dmc_from_bytes(d, o + 72)
    &&& a.frame_counter_mode == d[o + 77]
    &&& a.frame_irq_inhibit == (d[o + 78] != 0)
    &&& a.frame_irq == (d[o + 79] != 0)
    &&& a.frame_cycles == dec32(d, o + 80)
    &&& a.frame_step == dec32(d, o + 84)
    &&& a.sample_acc == dec64(d, o + 88) as u32
    &&& a.cpu_cycles == dec32(d, o + 96)
    &&& a.buffer@ == Seq::<u8>::empty()
}

fn save_envelope(buf: &mut Vec<u8>, e: &Envelope)
    ensures
        final(buf)@ == old(buf)@ + envelope_bytes(*e),
{
    write_bool(buf, e.start);
    write_bool(buf, e.loop_flag);
    write_bool(buf, e.constant);
    write_u8(buf, e.period);
    write_u8(buf, e.divider);
    write_u8(buf, e.decay);
    assert(buf@ =~= old(buf)@ + envelope_bytes(*e));
}

fn load_envelope(data: &[u8], off: &mut usize) -> (e: Envelope)
    requires
        *old(off) + 6 <= data@.len(),
    ensures
        e == envelope_from_bytes(data@, *old(off) as int),
        *final(off) == *old(off) + 6,
{
    let start = read_bool(data, off);
    let loop_flag = read_bool(data, off);
    let constant = read_bool(data, off);
    let period = read_u8(data, off);
    let divider = read_u8(data, off);
    let decay = read_u8(data, off);
    Envelope { start, loop_flag, constant, period, divider, decay }
}

#[verifier::spinoff_prover]
#[verifier::rlimit(60)]
fn save_pulse(buf: &mut Vec<u8>, c: &PulseChannel)
    ensures
        final(buf)@ == old(buf)@ + pulse_bytes(*c),
{
    write_bool(buf, c.enabled);
    write_u8(buf, c.duty);
    write_u8(buf, c.duty_pos);
    write_u16(buf, c.timer_period);
    write_u16(buf, c.timer);
    write_u8(buf, c.length);
    write_bool(buf, c.length_halt);
    save_envelope(buf, &c.envelope);
    write_bool(buf, c.sweep.enabled);
    write_u8(buf, c.sweep.period);
    write_bool(buf, c.sweep.negate);
    write_u8(buf, c.sweep.shift);
    write_bool(buf, c.sweep.reload);
    write_u8(buf, c.sweep.divider);
    write_bool(buf, c.sweep.mute);
    assert(buf@ =~= old(buf)@ + pulse_bytes(*c));
}

fn load_pulse(data: &[u8], off: &mut usize, channel_one: bool) -> (c: PulseChannel)
    requires
        *old(off) + 22 <= data@.len(),
    ensures
        c == pulse_from_bytes(data@, *old(off) as int, channel_one),
        *final(off) == *old(off) + 22,
{
    let enabled = read_bool(data, off);
    let duty = read_u8(data, off);
    let duty_pos = read_u8(data, off);
    let timer_period = read_u16(data, off);
    let timer = read_u16(data, off);
    let length = read_u8(data, off);
    let length_halt = read_bool(data, off);
    let envelope = load_envelope(data, off);
    let s_enabled = read_bool(data, off);
    let s_period = read_u8(data, off);
    let s_negate = read_bool(data, off);
    let s_shift = read_u8(data, off);
    let s_reload = read_bool(data, off);
    let s_divider = read_u8(data, off);
    let s_mute = read_bool(data, off);
    PulseChannel {
        enabled,
        duty,
        duty_pos,
        timer_period,
        timer,
        length,
        length_halt,
        envelope,
        sweep: Sweep {
            enabled: s_enabled,
            period: s_period,
            negate: s_negate,
            shift: s_shift,
            reload: s_reload,
            divider: s_divider,
            mute: s_mute,
        },
        channel_one,
    }
}

fn save_triangle(buf: &mut Vec<u8>, c: &TriangleChannel)
    ensures
        final(buf)@ == old(buf)@ + triangle_bytes(*c),
{
    write_bool(buf, c.enabled);
    write_u16(buf, c.timer_period);
    write_u16(buf, c.timer);
    write_u8(buf, c.seq_pos);
    write_u8(buf, c.length);
    write_bool(buf, c.length_halt);
    write_u8(buf, c.linear_counter);
    write_u8(buf, c.linear_reload);
    write_bool(buf, c.linear_reload_flag);
    write_bool(buf, c.control_flag);
    assert(buf@ =~= old(buf)@ + triangle_bytes(*c));
}

fn load_triangle(data: &[u8], off: &mut usize) -> (c: TriangleChannel)
    requires
        *old(off) + 12 <= data@.len(),
    ensures
        c == triangle_from_bytes(data@, *old(off) as int),
        *final(off) == *old(off) + 12,
{
    let enabled = read_bool(data, off);
    let timer_period = read_u16(data, off);
    let timer = read_u16(data, off);
    let seq_pos = read_u8(data, off);
    let length = read_u8(data, off);
    let length_halt = read_bool(data, off);
    let linear_counter = read_u8(data, off);
    let linear_reload = read_u8(data, off);
    let linear_reload_flag = read_bool(data, off);
    let control_flag = read_bool(data, off);
    TriangleChannel {
        enabled,
        timer_period,
        timer,
        seq_pos,
        length,
        length_halt,
        linear_counter,
        linear_reload,
        linear_reload_flag,
        control_flag,
    }
}

fn save_noise(buf: &mut Vec<u8>, c: &NoiseChannel)
    ensures
        final(buf)@ == old(buf)@ + noise_bytes(*c),
{
    write_bool(buf, c.enabled);
    write_bool(buf, c.mode);
    write_u16(buf, c.timer_period);
    write_u16(buf, c.timer);
    write_u8(buf, c.length);
    write_bool(buf, c.length_halt);
    write_u16(buf, c.lfsr);
    save_envelope(buf, &c.envelope);
    assert(buf@ =~= old(buf)@ + noise_bytes(*c));
}

fn load_noise(data: &[u8], off: &mut usize) -> (c: NoiseChannel)
    requires
        *old(off) + 16 <= data@.len(),
    ensures
        c == noise_from_bytes(data@, *old(off) as int),
        *final(off) == *old(off) + 16,
{
    let enabled = read_bool(data, off);
    let mode = read_bool(data, off);
    let timer_period = read_u16(data, off);
    let timer = read_u16(data, off);
    let length = read_u8(data, off);
    let length_halt = read_bool(data, off);
    let lfsr = read_u16(data, off);
    let envelope = load_envelope(data, off);
    NoiseChannel { enabled, mode, timer_period, timer, length, length_halt, envelope, lfsr }
}

fn save_dmc(buf: &mut Vec<u8>, c: &DmcChannel)
    ensures
        final(buf)@ == old(buf)@ + dmc_bytes(*c),
{
    write_bool(buf, c.enabled);
    write_u8(buf, c.output);
    write_bool(buf, c.irq_enabled);
    write_bool(buf, c.loop_flag);
    write_u8(buf, c.rate_index);
    assert(buf@ =~= old(buf)@ + dmc_bytes(*c));
}

impl NesApu {
    fn save_clocks(&self, buf: &mut Vec<u8>)
        ensures
            final(buf)@ == old(buf)@ + apu_clock_bytes(self),
    {
        write_u8(buf, self.frame_counter_mode);
        write_bool(buf, self.frame_irq_inhibit);
        write_bool(buf, self.frame_irq);
        write_u32(buf, self.frame_cycles);
        write_u32(buf, self.frame_step);
        write_u64(buf, self.sample_acc as u64);
        write_u32(buf, self.cpu_cycles);
        assert(buf@ =~= old(buf)@ + apu_clock_bytes(self));
    }

    /// Appends the APU state (not the recorded samples).
    pub fn save(&self, buf: &mut Vec<u8>)
        ensures
            final(buf)@ == old(buf)@ + nes_apu_bytes(self),
    {
        save_pulse(buf, &self.pulse1);
        save_pulse(buf, &self.pulse2);
        save_triangle(buf, &self.triangle);
        save_noise(buf, &self.noise);
        save_dmc(buf, &self.dmc);
        self.save_clocks(buf);
        assert(buf@ =~= old(buf)@ + nes_apu_bytes(self));
    }

    /// Restores the state written by `save` and clears the recorded samples.
    pub fn load(&mut self, data: &[u8], off: &mut usize)
        requires
            *old(off) + nes_apu_bytes_len() <= data@.len(),
        ensures
            nes_apu_loaded(&*final(self), data@, *old(off) as int),
            *final(off) == *old(off) + nes_apu_bytes_len(),
    {
        self.pulse1 = load_pulse(data, off, true);
        self.pulse2 = load_pulse(data, off, false);
        self.triangle = load_triangle(data, off);
        self.noise = load_noise(data, off);
        self.dmc.enabled = read_bool(data, off);
        self.dmc.output = read_u8(data, off);
        self.dmc.irq_enabled = read_bool(data, off);
        self.dmc.loop_flag = read_bool(data, off);
        self.dmc.rate_index = read_u8(data, off);
        self.frame_counter_mode = read_u8(data, off);
        self.frame_irq_inhibit = read_bool(data, off);
        self.frame_irq = read_bool(data, off);
        self.frame_cycles = read_u32(data, off);
        self.frame_step = read_u32(data, off);
        self.sample_acc = read_u64(data, off) as u32;
        self.cpu_cycles = read_u32(data, off);
        self.buffer.clear();
    }

    /// Whether the state satisfies `wf` (checked after restoring a saved state).
    pub fn is_valid(&self) -> (b: bool)
        ensures
            b == self.wf(),
    {
        let p1 = &self.pulse1;
        let p2 = &self.pulse2;
        let ok1 = p1.duty < 4 && p1.duty_pos < 8 && p1.timer_period <= 0x7FF && p1.envelope.period < 16
            && p1.envelope.decay < 16 && p1.sweep.shift < 8 && p1.sweep.period < 8 && p1.channel_one;
        let ok2 = p2.duty < 4 && p2.duty_pos < 8 && p2.timer_period <= 0x7FF && p2.envelope.period < 16
            && p2.envelope.decay < 16 && p2.sweep.shift < 8 && p2.sweep.period < 8 && !p2.channel_one;
        let ok3 = self.triangle.seq_pos < 32 && self.noise.envelope.period < 16
            && self.noise.envelope.decay < 16;
        let mode = self.frame_counter_mode;
        let last: u32 = if mode == 0 {
            4
        } else {
            5
        };
        if !(ok1 && ok2 && ok3 && self.frame_step <= last && self.sample_acc < CPU_CLOCK
            && self.buffer.len() % 5 == 0) {
            return false;
        }
        let step = self.frame_step;
        let limit: u32 = if step == 0 {
            7457
        } else if step == 1 {
            14913
        } else if step == 2 {
            22371
        } else if step == 3 {
            29829
        } else if step == 4 {
            if mode == 0 {
                29830
            } else {
                37281
            }
        } else {
            37282
        };
        self.frame_cycles <= limit
    }
}

// ---------------------------------------------------------------------------
// Reading back a saved APU
// ---------------------------------------------------------------------------

/// Two APUs in the same saved state: channels, frame sequencer and clocks (the recorded
/// samples are not part of it).
pub open spec fn same_saved_nes_apu(a: &NesApu, b: &NesApu) -> bool {
    &&& a.pulse1 == b.pulse1 && a.pulse2 == b.pulse2 && a.triangle == b.triangle && a.noise == b.noise
    &&& a.dmc == b.dmc
    &&& a.frame_counter_mode == b.frame_counter_mode && a.frame_irq_inhibit == b.frame_irq_inhibit
    &&& a.frame_irq == b.frame_irq && a.frame_cycles == b.frame_cycles && a.frame_step == b.frame_step
    &&& a.sample_acc == b.sample_acc && a.cpu_cycles == b.cpu_cycles
}

/// Whether the saved APU at `o` satisfies `wf` once loaded.
pub open spec fn nes_apu_bytes_valid(d: Seq<u8>, o: int) -> bool {
    let mode = d[o + 77];
    let step = dec32(d, o + 84);
    &&& pulse_from_bytes(d, o, true).wf()
    &&& pulse_from_bytes(d, o + 22, false).wf()
    &&& triangle_from_bytes(d, o + 44).wf()
    &&& noise_from_bytes(d, o + 56).wf()
    &&& step <= last_frame_step(mode)
    &&& dec32(d, o + 80) <= frame_step_cycle(mode, step)
    &&& (dec64(d, o + 88) as u32) < CPU_CLOCK
}

/// A loaded APU satisfies `wf` exactly when its bytes are valid.
pub proof fn lemma_nes_apu_loaded_wf(a: &NesApu, d: Seq<u8>, o: int)
    requires
        nes_apu_loaded(a, d, o),
    ensures
        a.wf() == nes_apu_bytes_valid(d, o),
{
}

/// An envelope read back from `envelope_bytes` is the envelope itself.
proof fn lemma_envelope_roundtrip(e: Envelope, d: Seq<u8>, o: int)
    requires
        0 <= o,
        o + 6 <= d.len(),
        d.subrange(o, o + 6) == envelope_bytes(e),
    ensures
        envelope_from_bytes(d, o) == e,
{
    let w = d.subrange(o, o + 6);
    assert(w[0] == d[o] && w[1] == d[o + 1] && w[2] == d[o + 2] && w[3] == d[o + 3] && w[4] == d[o + 4]
        && w[5] == d[o + 5]);
}

/// A pulse channel read back from `pulse_bytes` is the channel itself.
proof fn lemma_pulse_roundtrip(c: PulseChannel, d: Seq<u8>, o: int)
    requires
        0 <= o,
        o + 22 <= d.len(),
        d.subrange(o, o + 22) == pulse_bytes(c),
    ensures
        pulse_from_bytes(d, o, c.channel_one) == c,
{
    let t = pulse_bytes(c);
    let tp = le16(c.timer_period);
    let tm = le16(c.timer);
    let sw = c.sweep;
    assert(t =~= seq![bool_byte(c.enabled), c.duty, c.duty_pos, tp[0], tp[1], tm[0], tm[1], c.length,
        bool_byte(c.length_halt)] + envelope_bytes(c.envelope) + seq![bool_byte(sw.enabled), sw.period,
        bool_byte(sw.negate), sw.shift, bool_byte(sw.reload), sw.divider, bool_byte(sw.mute)]);
    assert(t.subrange(3, 5) =~= tp);
    assert(t.subrange(5, 7) =~= tm);
    assert(t.subrange(9, 15) =~= envelope_bytes(c.envelope));
    crate::save_state::lemma_subrange_within(d, o, 22, 3, 5);
    crate::save_state::lemma_subrange_within(d, o, 22, 5, 7);
    crate::save_state::lemma_subrange_within(d, o, 22, 9, 15);
    crate::save_state::lemma_le16_roundtrip(c.timer_period, d, o + 3);
    crate::save_state::lemma_le16_roundtrip(c.timer, d, o + 5);
    lemma_envelope_roundtrip(c.envelope, d, o + 9);
    let w = d.subrange(o, o + 22);
    assert(w[0] == d[o] && w[1] == d[o + 1] && w[2] == d[o + 2] && w[7] == d[o + 7] && w[8] == d[o + 8]);
    assert(w[15] == d[o + 15] && w[16] == d[o + 16] && w[17] == d[o + 17] && w[18] == d[o + 18]);
    assert(w[19] == d[o + 19] && w[20] == d[o + 20] && w[21] == d[o + 21]);
}

/// A triangle channel read back from `triangle_bytes` is the channel itself.
proof fn lemma_triangle_roundtrip(c: TriangleChannel, d: Seq<u8>, o: int)
    requires
        0 <= o,
        o + 12 <= d.len(),
        d.subrange(o, o + 12) == triangle_bytes(c),
    ensures
        triangle_from_bytes(d, o) == c,
{
    let t = triangle_bytes(c);
    let tp = le16(c.timer_period);
    let tm = le16(c.timer);
    assert(t =~= seq![bool_byte(c.enabled), tp[0], tp[1], tm[0], tm[1], c.seq_pos, c.length,
        bool_byte(c.length_halt), c.linear_counter, c.linear_reload, bool_byte(c.linear_reload_flag),
        bool_byte(c.control_flag)]);
    assert(t.subrange(1, 3) =~= tp);
    assert(t.subrange(3, 5) =~= tm);
    crate::save_state::lemma_subrange_within(d, o, 12, 1, 3);
    crate::save_state::lemma_subrange_within(d, o, 12, 3, 5);
    crate::save_state::lemma_le16_roundtrip(c.timer_period, d, o + 1);
    crate::save_state::lemma_le16_roundtrip(c.timer, d, o + 3);
    let w = d.subrange(o, o + 12);
    assert(w[0] == d[o] && w[5] == d[o + 5] && w[6] == d[o + 6] && w[7] == d[o + 7] && w[8] == d[o + 8]);
    assert(w[9] == d[o + 9] && w[10] == d[o + 10] && w[11] == d[o + 11]);
}

/// A noise channel read back from `noise_bytes` is the channel itself.
proof fn lemma_noise_roundtrip(c: NoiseChannel, d: Seq<u8>, o: int)
    requires
        0 <= o,
        o + 16 <= d.len(),
        d.subrange(o, o + 16) == noise_bytes(c),
    ensures
        noise_from_bytes(d, o) == c,
{
    let t = noise_bytes(c);
    let tp = le16(c.timer_period);
    let tm = le16(c.timer);
    let lf = le16(c.lfsr);
    assert(t =~= seq![bool_byte(c.enabled), bool_byte(c.mode), tp[0], tp[1], tm[0], tm[1], c.length,
        bool_byte(c.length_halt), lf[0], lf[1]] + envelope_bytes(c.envelope));
    assert(t.subrange(2, 4) =~= tp);
    assert(t.subrange(4, 6) =~= tm);
    assert(t.subrange(8, 10) =~= lf);
    assert(t.subrange(10, 16) =~= envelope_bytes(c.envelope));
    crate::save_state::lemma_subrange_within(d, o, 16, 2, 4);
    crate::save_state::lemma_subrange_within(d, o, 16, 4, 6);
    crate::save_state::lemma_subrange_within(d, o, 16, 8, 10);
    crate::save_state::lemma_subrange_within(d, o, 16, 10, 16);
    crate::save_state::lemma_le16_roundtrip(c.timer_period, d, o + 2);
    crate::save_state::lemma_le16_roundtrip(c.timer, d, o + 4);
    crate::save_state::lemma_le16_roundtrip(c.lfsr, d, o + 8);
    lemma_envelope_roundtrip(c.envelope, d, o + 10);
    let w = d.subrange(o, o + 16);
    assert(w[0] == d[o] && w[1] == d[o + 1] && w[6] == d[o + 6] && w[7] == d[o + 7]);
}

/// The frame sequencer and clocks read back from `apu_clock_bytes`.
proof fn lemma_apu_clocks_roundtrip(a: &NesApu, d: Seq<u8>, o: int)
    requires
        0 <= o,
        o + 23 <= d.len(),
        d.subrange(o, o + 23) == apu_clock_bytes(a),
    ensures
        d[o] == a.frame_counter_mode && (d[o + 1] != 0) == a.frame_irq_inhibit && (d[o + 2] != 0) == a.frame_irq,
        dec32(d, o + 3) == a.frame_cycles && dec32(d, o + 7) == a.frame_step,
        dec64(d, o + 11) as u32 == a.sample_acc && dec32(d, o + 19) == a.cpu_cycles,
{
    let t = apu_clock_bytes(a);
    let fc = le32(a.frame_cycles);
    let fs = le32(a.frame_step);
    let sa = le64(a.sample_acc as u64);
    let cc = le32(a.cpu_cycles);
    assert(fc.len() == 4 && fs.len() == 4 && sa.len() == 8 && cc.len() == 4);
    assert(t.subrange(3, 7) =~= fc);
    assert(t.subrange(7, 11) =~= fs);
    assert(t.subrange(11, 19) =~= sa);
    assert(t.subrange(19, 23) =~= cc);
    crate::save_state::lemma_subrange_within(d, o, 23, 3, 7);
    crate::save_state::lemma_subrange_within(d, o, 23, 7, 11);
    crate::save_state::lemma_subrange_within(d, o, 23, 11, 19);
    crate::save_state::lemma_subrange_within(d, o, 23, 19, 23);
    crate::save_state::lemma_le32_roundtrip(a.frame_cycles, d, o + 3);
    crate::save_state::lemma_le32_roundtrip(a.frame_step, d, o + 7);
    crate::save_state::lemma_le64_roundtrip(a.sample_acc as u64, d, o + 11);
    crate::save_state::lemma_le32_roundtrip(a.cpu_cycles, d, o + 19);
    let w = d.subrange(o, o + 23);
    assert(w[0] == d[o] && w[1] == d[o + 1] && w[2] == d[o + 2]);
}

/// Where each part of a saved APU lies.
proof fn lemma_nes_apu_layout(a: &NesApu, d: Seq<u8>, o: int)
    requires
        0 <= o,
        o + 100 <= d.len(),
        d.subrange(o, o + 100) == nes_apu_bytes(a),
    ensures
        d.subrange(o, o + 22) == pulse_bytes(a.pulse1),
        d.subrange(o + 22, o + 44) == pulse_bytes(a.pulse2),
        d.subrange(o + 44, o + 56) == triangle_bytes(a.triangle),
        d.subrange(o + 56, o + 72) == noise_bytes(a.noise),
        d.subrange(o + 72, o + 77) == dmc_bytes(a.dmc),
        d.subrange(o + 77, o + 100) == apu_clock_bytes(a),
{
    let t = nes_apu_bytes(a);
    assert(pulse_bytes(a.pulse1).len() == 22 && pulse_bytes(a.pulse2).len() == 22);
    assert(triangle_bytes(a.triangle).len() == 12 && noise_bytes(a.noise).len() == 16);
    assert(dmc_bytes(a.dmc).len() == 5 && apu_clock_bytes(a).len() == 23);
    assert(t.subrange(0, 22) =~= pulse_bytes(a.pulse1));
    assert(t.subrange(22, 44) =~= pulse_bytes(a.pulse2));
    assert(t.subrange(44, 56) =~= triangle_bytes(a.triangle));
    assert(t.subrange(56, 72) =~= noise_bytes(a.noise));
    assert(t.subrange(72, 77) =~= dmc_bytes(a.dmc));
    assert(t.subrange(77, 100) =~= apu_clock_bytes(a));
    crate::save_state::lemma_subrange_within(d, o, 100, 0, 22);
    crate::save_state::lemma_subrange_within(d, o, 100, 22, 44);
    crate::save_state::lemma_subrange_within(d, o, 100, 44, 56);
    crate::save_state::lemma_subrange_within(d, o, 100, 56, 72);
    crate::save_state::lemma_subrange_within(d, o, 100, 72, 77);
    crate::save_state::lemma_subrange_within(d, o, 100, 77, 100);
}

/// An APU read back from the bytes that `nes_apu_bytes` wrote is in the same saved state, and
/// the bytes are valid.
pub proof fn lemma_nes_apu_roundtrip(a: &NesApu, b: &NesApu, d: Seq<u8>, o: int)
    requires
        a.wf(),
        0 <= o,
        o + 100 <= d.len(),
        d.subrange(o, o + 100) == nes_apu_bytes(a),
        nes_apu_loaded(b, d, o),
    ensures
        same_saved_nes_apu(b, a),
        nes_apu_bytes_valid(d, o),
{
    lemma_nes_apu_layout(a, d, o);
    lemma_pulse_roundtrip(a.pulse1, d, o);
    lemma_pulse_roundtrip(a.pulse2, d, o + 22);
    lemma_triangle_roundtrip(a.triangle, d, o + 44);
    lemma_noise_roundtrip(a.noise, d, o + 56);
    lemma_apu_clocks_roundtrip(a, d, o + 77);
    let w = d.subrange(o + 72, o + 77);
    assert(w[0] == d[o + 72] && w[1] == d[o + 73] && w[2] == d[o + 74] && w[3] == d[o + 75] && w[4] == d[o + 76]);
}

} // verus!
