use vstd::prelude::*;
use crate::apu::channel1::{calculate_frequency, get_wave_duty, spec_frequency, spec_wave_duty};

verus! {

/// Square channel 2: duty cycle and volume envelope.
/// NR21 DDLL LLLL duty, length; NR22 VVVV APPP volume, envelope; NR23 frequency low;
/// NR24 TL-- -FFF trigger, length enable, frequency high.
#[derive(Debug, Clone, Copy, PartialEq, Eq, Structural)]
pub struct Channel2 {
    pub frequency_timer: usize,
    pub wave_position: u8,
    pub length_timer: u8,
    pub disabled: bool,
    pub period_timer: u8,
    pub current_volume: u8,
}

impl Channel2 {
    pub open spec fn wf(&self) -> bool {
        self.wave_position < 8 && self.current_volume <= 15
    }

    pub open spec fn spec_new() -> Channel2 {
        Channel2 {
                frequency_timer: 8192,
                wave_position: 0,
                length_timer: 0,
                disabled: false,
                period_timer: 0,
                current_volume: 0,
            }
    }

    pub fn new() -> (r: Channel2)
        ensures
            r == Channel2::spec_new(),
            r.wf(),
    {
        Channel2 {
            frequency_timer: 2048 * 4,
            wave_position: 0,
            length_timer: 0,
            disabled: false,
            period_timer: 0,
            current_volume: 0,
        }
    }

    pub open spec fn spec_trigger(self, nr22: u8) -> Channel2 {
        Channel2 {
            current_volume: (nr22 & 0b11110000) >> 4,
            period_timer: nr22 & 0b00000111,
            length_timer: if self.length_timer == 0 { 64 } else { self.length_timer },
            disabled: false,
            ..self
        }
    }

    /// Restarts the channel: volume and envelope period from NR22, full length if it had run out.
    pub fn trigger(&mut self, nr22: u8)
        ensures
            *final(self) == old(self).spec_trigger(nr22),
            final(self).current_volume <= 15,
    {
        proof { assert((nr22 & 0b11110000) >> 4 <= 15) by { crate::bits::lemma_byte_bits(); crate::bits::lemma_word_bits(); } }
        self.current_volume = (nr22 & 0b11110000) >> 4;
        self.period_timer = nr22 & 0b00000111;
        if self.length_timer == 0 {
            self.length_timer = 64;
        }
        self.disabled = false;
    }

    pub open spec fn spec_tick(self, nr22: u8, nr23: u8, nr24: u8) -> Channel2 {
        let c = if nr24 & 0b10000000 != 0 { self.spec_trigger(nr22) } else { self };
        let t = c.frequency_timer.wrapping_sub(1);
        if t == 0 {
            Channel2 {
                frequency_timer: ((2048 - spec_frequency(nr23, nr24)) * 4) as usize,
                wave_position: ((c.wave_position + 1) % 8) as u8,
                ..c
            }
        } else {
            Channel2 { frequency_timer: t, ..c }
        }
    }

    /// One T-cycle: a set trigger bit restarts the channel; the frequency timer counts down
    /// (wrapping) and on reaching 0 reloads from the frequency and steps the duty position.
    pub fn tick(&mut self, nr22: u8, nr23: u8, nr24: u8)
        requires
            old(self).wf(),
        ensures
            *final(self) == old(self).spec_tick(nr22, nr23, nr24),
            final(self).wf(),
    {
        let is_triggered = nr24 & 0b10000000 != 0;
        if is_triggered {
            self.trigger(nr22);
        }
        self.frequency_timer = self.frequency_timer.wrapping_sub(1);
        if self.frequency_timer == 0 {
            self.frequency_timer = (2048 - calculate_frequency(nr23, nr24)) * 4;
            self.wave_position = (self.wave_position + 1) % 8;
        }
    }

    pub open spec fn spec_update_envelope(self, nr22: u8) -> Channel2 {
        let period = nr22 & 0b00000111;
        let is_upwards = nr22 & 0b00001000 != 0;
        if period == 0 {
            self
        } else {
            let pt = if self.period_timer > 0 { (self.period_timer - 1) as u8 } else { self.period_timer };
            if pt == 0 {
                let vol = if (self.current_volume < 0xF && is_upwards) || (self.current_volume > 0 && !is_upwards) {
                    if is_upwards { (self.current_volume + 1) as u8 } else { (self.current_volume - 1) as u8 }
                } else {
                    self.current_volume
                };
                Channel2 { period_timer: period, current_volume: vol, ..self }
            } else {
                Channel2 { period_timer: pt, ..self }
            }
        }
    }

    /// Envelope clock, as for channel 1 with NR22.
    pub fn update_envelope(&mut self, nr22: u8)
        requires
            old(self).wf(),
        ensures
            *final(self) == old(self).spec_update_envelope(nr22),
            final(self).wf(),
    {
        let period = nr22 & 0b00000111;
        let is_upwards = nr22 & 0b00001000 != 0;
        if period != 0 {
            if self.period_timer > 0 {
                self.period_timer -= 1;
            }
            if self.period_timer == 0 {
                self.period_timer = period;
                if (self.current_volume < 0xF && is_upwards) || (self.current_volume > 0x0 && !is_upwards) {
                    if is_upwards {
                        self.current_volume += 1;
                    } else {
                        self.current_volume -= 1;
                    }
                }
            }
        }
    }

    pub fn get_length(nr21: u8) -> (r: u8)
        ensures
            r == nr21 % 64,
    {
        proof { assert(nr21 & 0b00111111 == nr21 % 64) by { crate::bits::lemma_byte_bits(); crate::bits::lemma_word_bits(); } }
        nr21 & 0b00111111
    }

    /// The length clock: the timer is reloaded from the length in NR21; while the
    /// length is enabled (NR24 bit 6) it then counts down once, and reaching 0 silences
    /// the channel.
    pub open spec fn spec_update_length(self, nr21: u8, nr24: u8) -> Channel2 {
        let t = (64 - nr21 % 64) as u8;
        if nr24 & 0b01000000 != 0 {
            let t1 = (t - 1) as u8;
            Channel2 { length_timer: t1, disabled: if t1 == 0 { true } else { self.disabled }, ..self }
        } else {
            Channel2 { length_timer: t, ..self }
        }
    }

    pub fn update_length(&mut self, nr21: u8, nr24: u8)
        ensures
            *final(self) == old(self).spec_update_length(nr21, nr24),
    {
        self.length_timer = 64 - Self::get_length(nr21);
        if nr24 & 0b01000000 != 0 {
            self.length_timer -= 1;
            if self.length_timer == 0 {
                self.disabled = true;
            }
        }
    }

    /// Channel 2 has no sweep.
    pub fn update_sweep(&mut self)
        ensures
            *final(self) == *old(self),
    {
    }

    /// The DAC input (0-15): 0 when disabled, else the volume while the duty pattern is high.
    pub open spec fn spec_dac_input(&self, nr21: u8) -> u8 {
        if self.disabled {
            0
        } else if (spec_wave_duty(nr21) >> self.wave_position) & 1 == 1 {
            self.current_volume
        } else {
            0
        }
    }

    pub fn dac_input(&self, nr21: u8) -> (r: u8)
        requires
            self.wf(),
        ensures
            r == self.spec_dac_input(nr21),
    {
        if self.disabled {
            return 0;
        }
        let wave_duty = get_wave_duty(nr21);
        let pos = self.wave_position;
        let duty_cycle_bit = (wave_duty >> pos) & 1;
        if duty_cycle_bit == 1 { self.current_volume } else { 0 }
    }
}

} // verus!
