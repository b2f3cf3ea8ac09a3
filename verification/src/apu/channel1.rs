use vstd::prelude::*;

verus! {

/// The 11-bit frequency from the low (NRx3) and high (NRx4 bits 0-2) registers.
pub open spec fn spec_frequency(low: u8, high: u8) -> usize {
    ((high % 8) as int * 256 + low as int) as usize
}

pub fn calculate_frequency(low: u8, high: u8) -> (r: usize)
    ensures
        r == spec_frequency(low, high),
        r <= 2047,
{
    proof {
        assert(((high & 7) as usize) << 8 | (low as usize) == (high % 8) as usize * 256 + low as usize) by (bit_vector);
    }
    (((high & 7) as usize) << 8) | (low as usize)
}

/// The 8-step duty pattern selected by bits 6-7 of NRx1 (12.5%, 25%, 50%, 75%).
pub open spec fn spec_wave_duty(nrx1: u8) -> u8 {
    let duty = nrx1 / 64;
    if duty == 0 { 0b00000001 } else if duty == 1 { 0b00000011 } else if duty == 2 { 0b00001111 } else { 0b11111100 }
}

pub fn get_wave_duty(nrx1: u8) -> (r: u8)
    ensures
        r == spec_wave_duty(nrx1),
{
    proof { assert((nrx1 & 0b11000000) >> 6 == nrx1 / 64) by { crate::bits::lemma_byte_bits(); crate::bits::lemma_word_bits(); } }
    let duty = (nrx1 & 0b11000000) >> 6;
    match duty {
        0 => 0b00000001,
        1 => 0b00000011,
        2 => 0b00001111,
        _ => 0b11111100,
    }
}

/// Square channel 1: duty cycle, volume envelope and frequency sweep.
/// NR10 -PPP NSSS sweep period, negate, shift; NR11 DDLL LLLL duty, length;
/// NR12 VVVV APPP volume, envelope direction, period; NR13 frequency low;
/// NR14 TL-- -FFF trigger, length enable, frequency high.
#[derive(Debug, Clone, Copy, PartialEq, Eq, Structural)]
pub struct Channel1 {
    pub frequency_timer: usize,
    pub wave_position: u8,
    pub length_timer: u8,
    pub disabled: bool,
    pub period_timer: u8,
    pub current_volume: u8,
    pub sweep_timer: u8,
    pub shadow_frequency: usize,
    pub sweep_enabled: bool,
}

impl Channel1 {
    /// The wave position stays in the 8-step pattern and the sweep stays in 11 bits.
    pub open spec fn wf(&self) -> bool {
        self.wave_position < 8 && self.shadow_frequency <= 2047 && self.current_volume <= 15
    }

    pub open spec fn spec_new() -> Channel1 {
        Channel1 {
            frequency_timer: 8192,
            wave_position: 0,
            length_timer: 0,
            disabled: false,
            period_timer: 0,
            current_volume: 0,
            sweep_timer: 0,
            shadow_frequency: 0,
            sweep_enabled: false,
        }
    }

    pub fn new() -> (r: Channel1)
        ensures
            r == Channel1::spec_new(),
            r.wf(),
    {
        Channel1 {
            frequency_timer: 2048 * 4,
            wave_position: 0,
            length_timer: 0,
            disabled: false,
            period_timer: 0,
            current_volume: 0,
            sweep_timer: 0,
            shadow_frequency: 0,
            sweep_enabled: false,
        }
    }

    /// The sweep target from the shadow frequency: shadow -/+ (shadow >> shift);
    /// a target above 2047 turns the sweep off.
    pub open spec fn spec_sweep_target(&self, is_decrementing: bool, shift: u8) -> usize {
        let step = self.shadow_frequency >> shift;
        (if is_decrementing { self.shadow_frequency - step } else { self.shadow_frequency + step }) as usize
    }

    pub fn calculate_sweep_frequency(&mut self, is_decrementing: bool, sweep_shift: u8) -> (r: usize)
        requires
            old(self).wf(),
            sweep_shift < 8,
        ensures
            r == old(self).spec_sweep_target(is_decrementing, sweep_shift),
            r <= 4094,
            *final(self) == (Channel1 { sweep_enabled: if r > 2047 { false } else { old(self).sweep_enabled }, ..*old(self) }),
    {
        let s = self.shadow_frequency;
        proof {
            assert(s >> sweep_shift <= s) by (bit_vector)
        }
        let mut new_frequency = self.shadow_frequency >> sweep_shift;
        new_frequency = if is_decrementing {
            self.shadow_frequency - new_frequency
        } else {
            self.shadow_frequency + new_frequency
        };
        if new_frequency > 2047 {
            self.sweep_enabled = false;
        }
        new_frequency
    }

    pub open spec fn spec_trigger(self, nr10: u8, nr12: u8, nr13: u8, nr14: u8) -> Channel1 {
        let sweep_period = (nr10 & 0b01110000) >> 4;
        let sweep_direction = nr10 & 0b00001000;
        let sweep_shift = nr10 & 0b00000111;
        let c = Channel1 {
            current_volume: (nr12 & 0b11110000) >> 4,
            period_timer: nr12 & 0b00000111,
            length_timer: if self.length_timer == 0 { 64 } else { self.length_timer },
            disabled: false,
            shadow_frequency: spec_frequency(nr13, nr14),
            sweep_timer: if sweep_period == 0 { 8 } else { sweep_period },
            sweep_enabled: sweep_period != 0 || sweep_shift != 0,
            ..self
        };
        if sweep_shift != 0 && c.spec_sweep_target(sweep_direction != 0, sweep_shift) > 2047 {
            Channel1 { sweep_enabled: false, ..c }
        } else {
            c
        }
    }

    /// Restarts the channel: volume and envelope period from NR12, full length if it had
    /// run out, and the sweep reloaded from NR10 (timer = sweep period, 8 when it is 0) with
    /// the shadow frequency from NR13/NR14.
    pub fn trigger(&mut self, nr10: u8, nr12: u8, nr13: u8, nr14: u8)
        requires
            old(self).wf(),
        ensures
            *final(self) == old(self).spec_trigger(nr10, nr12, nr13, nr14),
            final(self).wf(),
    {
        proof { assert((nr12 & 0b11110000) >> 4 <= 15) by { crate::bits::lemma_byte_bits(); crate::bits::lemma_word_bits(); } assert(nr10 & 0b111 < 8) by { crate::bits::lemma_byte_bits(); crate::bits::lemma_word_bits(); } }
        self.current_volume = (nr12 & 0b11110000) >> 4;
        self.period_timer = nr12 & 0b00000111;
        if self.length_timer == 0 {
            self.length_timer = 64;
        }
        self.disabled = false;
        let sweep_period = (nr10 & 0b01110000) >> 4;
        let sweep_direction = nr10 & 0b00001000;
        let sweep_shift = nr10 & 0b00000111;
        self.shadow_frequency = calculate_frequency(nr13, nr14);
        self.sweep_timer = if sweep_period == 0 { 8 } else { sweep_period };
        self.sweep_enabled = sweep_period != 0 || sweep_shift != 0;
        if sweep_shift != 0 {
            let new_frequency = self.calculate_sweep_frequency(sweep_direction != 0, sweep_shift);
            if new_frequency > 2047 {
                self.sweep_enabled = false;
            }
        }
    }

    pub open spec fn spec_tick(self, nr10: u8, nr12: u8, nr13: u8, nr14: u8) -> Channel1 {
        let c = if nr14 & 0b10000000 != 0 { self.spec_trigger(nr10, nr12, nr13, nr14) } else { self };
        let t = c.frequency_timer.wrapping_sub(1);
        if t == 0 {
            Channel1 {
                frequency_timer: ((2048 - spec_frequency(nr13, nr14)) * 4) as usize,
                wave_position: ((c.wave_position + 1) % 8) as u8,
                ..c
            }
        } else {
            Channel1 { frequency_timer: t, ..c }
        }
    }

    /// One T-cycle: a set trigger bit restarts the channel; the frequency timer counts down
    /// (wrapping) and on reaching 0 reloads from the frequency and steps the duty position.
    pub fn tick(&mut self, nr10: u8, nr12: u8, nr13: u8, nr14: u8)
        requires
            old(self).wf(),
        ensures
            *final(self) == old(self).spec_tick(nr10, nr12, nr13, nr14),
            final(self).wf(),
    {
        let is_triggered = nr14 & 0b10000000 != 0;
        if is_triggered {
            self.trigger(nr10, nr12, nr13, nr14);
        }
        self.frequency_timer = self.frequency_timer.wrapping_sub(1);
        if self.frequency_timer == 0 {
            self.frequency_timer = (2048 - calculate_frequency(nr13, nr14)) * 4;
            self.wave_position = (self.wave_position + 1) % 8;
        }
    }

    pub open spec fn spec_update_envelope(self, nr12: u8) -> Channel1 {
        let period = nr12 & 0b00000111;
        let is_upwards = nr12 & 0b00001000 != 0;
        if period == 0 {
            self
        } else {
            let pt = if self.period_timer > 0 { (self.period_timer - 1) as u8 } else { self.period_timer };
            if pt == 0 {
                let vol = if (self.current_volume < 0xF && is_upwards) || (self.current_volume > 0 && !is_upwards) {
                    if is_upwards { (self.current_volume + 1) as u8 } else { (self.current_volume - 1) as u8 }
                } else {
                    self.current_volume
                };
                Channel1 { period_timer: period, current_volume: vol, ..self }
            } else {
                Channel1 { period_timer: pt, ..self }
            }
        }
    }

    /// Envelope clock: when the period from NR12 is nonzero, the envelope timer counts down
    /// and on reaching 0 reloads and steps the volume.
    pub fn update_envelope(&mut self, nr12: u8)
        requires
            old(self).wf(),
        ensures
            *final(self) == old(self).spec_update_envelope(nr12),
            final(self).wf(),
    {
        let period = nr12 & 0b00000111;
        let is_upwards = nr12 & 0b00001000 != 0;
        if period != 0 {
            if self.period_timer > 0 {
                self.period_timer -= 1;
            }
            if self.period_timer == 0 {
                self.period_timer = period;
                if (self.current_volume < 0xF && is_upwards) || (self.current_volume > 0x0 && !is_upwards) {
                    if is_upwards {
                        self.current_volume += 1;
                    } else {
                        self.current_volume -= 1;
                    }
                }
            }
        }
    }

    pub fn get_length(nr11: u8) -> (r: u8)
        ensures
            r == nr11 % 64,
    {
        proof { assert(nr11 & 0b00111111 == nr11 % 64) by { crate::bits::lemma_byte_bits(); crate::bits::lemma_word_bits(); } }
        nr11 & 0b00111111
    }

    /// The length clock: the timer is reloaded as 64 minus the length in NR11; while the
    /// length is enabled (NR14 bit 6) it then counts down once, and reaching 0 silences the
    /// channel.
    pub open spec fn spec_update_length(self, nr11: u8, nr14: u8) -> Channel1 {
        let t = (64 - nr11 % 64) as u8;
        if nr14 & 0b01000000 != 0 {
            let t1 = (t - 1) as u8;
            Channel1 { length_timer: t1, disabled: if t1 == 0 { true } else { self.disabled }, ..self }
        } else {
            Channel1 { length_timer: t, ..self }
        }
    }

    pub fn update_length(&mut self, nr11: u8, nr14: u8)
        ensures
            *final(self) == old(self).spec_update_length(nr11, nr14),
    {
        self.length_timer = 64 - Self::get_length(nr11);
        if nr14 & 0b01000000 != 0 {
            self.length_timer -= 1;
            if self.length_timer == 0 {
                self.disabled = true;
            }
        }
    }

    pub open spec fn spec_update_sweep(self, nr10: u8) -> Channel1 {
        let sweep_period = (nr10 & 0b01110000) >> 4;
        let dec = nr10 & 0b00001000 != 0;
        let shift = nr10 & 0b00000111;
        let st = if self.sweep_timer > 0 { (self.sweep_timer - 1) as u8 } else { self.sweep_timer };
        if st != 0 {
            Channel1 { sweep_timer: st, ..self }
        } else {
            let c = Channel1 { sweep_timer: if sweep_period == 0 { 8 } else { sweep_period }, ..self };
            if sweep_period > 0 && c.sweep_enabled {
                let nf = c.spec_sweep_target(dec, shift);
                let c1 = if nf > 2047 { Channel1 { sweep_enabled: false, ..c } } else { c };
                if nf <= 2047 && shift > 0 {
                    let c2 = Channel1 { shadow_frequency: nf, frequency_timer: nf, ..c1 };
                    if c2.spec_sweep_target(dec, shift) > 2047 { Channel1 { sweep_enabled: false, ..c2 } } else { c2 }
                } else {
                    c1
                }
            } else {
                c
            }
        }
    }

    /// Sweep clock: the sweep timer counts down; on reaching 0 it reloads from the sweep period
    /// (NR10 bits 4-6, 8 when 0) and, with a nonzero period and shift, moves the shadow
    /// frequency (and the frequency timer) to the sweep target: shadow + (shadow >> shift), or
    /// shadow - (shadow >> shift) when the negate bit (NR10 bit 3) is set.
    pub fn update_sweep(&mut self, nr10: u8)
        requires
            old(self).wf(),
        ensures
            *final(self) == old(self).spec_update_sweep(nr10),
            final(self).wf(),
    {
        let sweep_period = (nr10 & 0b01110000) >> 4;
        let sweep_direction = nr10 & 0b00001000;
        let sweep_shift = nr10 & 0b00000111;
        proof { assert(nr10 & 0b111 < 8) by { crate::bits::lemma_byte_bits(); crate::bits::lemma_word_bits(); } }
        if self.sweep_timer > 0 {
            self.sweep_timer -= 1;
        }
        if self.sweep_timer != 0 {
            return;
        }
        self.sweep_timer = if sweep_period == 0 { 8 } else { sweep_period };
        if sweep_period > 0 && self.sweep_enabled {
            let new_frequency = self.calculate_sweep_frequency(sweep_direction != 0, sweep_shift);
            if new_frequency <= 2047 && sweep_shift > 0 {
                self.shadow_frequency = new_frequency;
                self.frequency_timer = new_frequency;
                let double_check_frequency = self.calculate_sweep_frequency(sweep_direction != 0, sweep_shift);
                if double_check_frequency > 2047 {
                    self.sweep_enabled = false;
                }
            }
        }
    }

    /// The DAC input (0-15): the volume while the duty pattern is high at the current step.
    pub open spec fn spec_dac_input(&self, nr11: u8) -> u8 {
        if (spec_wave_duty(nr11) >> self.wave_position) & 1 == 1 { self.current_volume } else { 0 }
    }

    pub fn dac_input(&self, nr11: u8) -> (r: u8)
        requires
            self.wf(),
        ensures
            r == self.spec_dac_input(nr11),
    {
        let wave_duty = get_wave_duty(nr11);
        let pos = self.wave_position;
        let duty_cycle_bit = (wave_duty >> pos) & 1;
        proof { assert((wave_duty >> pos) & 1 <= 1) by { crate::bits::lemma_byte_bits(); crate::bits::lemma_word_bits(); } }
        if duty_cycle_bit == 1 { self.current_volume } else { 0 }
    }
}

} // verus!
