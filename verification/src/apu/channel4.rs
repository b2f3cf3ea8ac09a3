use vstd::prelude::*;

verus! {

/// Noise channel 4: a 15-bit (or 7-bit) linear-feedback shift register.
/// NR41 --LL LLLL length; NR42 VVVV APPP volume, envelope; NR43 SSSS WDDD clock shift,
/// width mode, divisor code; NR44 TL-- ---- trigger, length enable.
#[derive(Debug, Clone, Copy, PartialEq, Eq, Structural)]
pub struct Channel4 {
    pub length_timer: u8,
    pub disabled: bool,
    pub period_timer: u8,
    pub current_volume: u8,
    pub lfsr: u16,
}

/// The divisor for the code in bits 0-2 of NR43.
pub open spec fn spec_divisor(nr43: u8) -> u32 {
    let code = nr43 % 8;
    if code == 0 { 8 } else { (code * 16) as u32 }
}

/// The LFSR after one step: the XOR of bits 0 and 1 shifts in at bit 14, and also at bit 6
/// in 7-bit mode (NR43 bit 3).
pub open spec fn spec_lfsr_step(lfsr: u16, nr43: u8) -> u16 {
    let bit = (lfsr ^ (lfsr >> 1)) & 1;
    let l = (lfsr >> 1) | (bit << 14);
    if nr43 & 0b00001000 != 0 { (l & 0xFFBF) | (bit << 6) } else { l }
}

/// A step keeps the LFSR within 15 bits.
proof fn lemma_lfsr_step_bound(lfsr: u16, nr43: u8)
    by (bit_vector)
    requires
        lfsr < 0x8000,
    ensures
        spec_lfsr_step(lfsr, nr43) < 0x8000,
{
}

impl Channel4 {
    /// The volume is 4-bit and the LFSR 15-bit.
    pub open spec fn wf(&self) -> bool {
        self.current_volume <= 15 && self.lfsr < 0x8000
    }

    pub open spec fn spec_new() -> Channel4 {
        Channel4 { length_timer: 0, disabled: false, period_timer: 0, current_volume: 0, lfsr: 0x7FFF }
    }

    pub fn new() -> (r: Channel4)
        ensures
            r == Channel4::spec_new(),
            r.wf(),
    {
        Channel4 { length_timer: 0, disabled: false, period_timer: 0, current_volume: 0, lfsr: 0x7FFF }
    }

    pub open spec fn spec_trigger(self, nr42: u8) -> Channel4 {
        Channel4 {
            current_volume: (nr42 & 0b11110000) >> 4,
            period_timer: nr42 & 0b00000111,
            length_timer: if self.length_timer == 0 { 64 } else { self.length_timer },
            disabled: false,
            ..self
        }
    }

    /// Restarts the channel: volume and period from NR42, full length if it had run out.
    pub fn trigger(&mut self, nr42: u8)
        requires
            old(self).wf(),
        ensures
            *final(self) == old(self).spec_trigger(nr42),
            final(self).wf(),
    {
        proof { assert((nr42 & 0b11110000) >> 4 <= 15) by { crate::bits::lemma_byte_bits(); crate::bits::lemma_word_bits(); } }
        self.current_volume = (nr42 & 0b11110000) >> 4;
        self.period_timer = nr42 & 0b00000111;
        if self.length_timer == 0 {
            self.length_timer = 64;
        }
        self.disabled = false;
    }

    /// The LFSR clock period: the divisor shifted left by the clock shift, cut to 8 bits.
    pub open spec fn spec_period(nr43: u8) -> u8 {
        (spec_divisor(nr43) << (nr43 >> 4)) as u8
    }

    pub fn calculate_period(nr43: u8) -> (r: u8)
        ensures
            r == Channel4::spec_period(nr43),
    {
        let shift = nr43 >> 4;
        let divisor_code = nr43 & 0b00000111;
        proof { assert(nr43 & 0b111 == nr43 % 8) by { crate::bits::lemma_byte_bits(); crate::bits::lemma_word_bits(); } }
        let divisor: u32 = match divisor_code {
            0 => 8,
            1 => 16,
            2 => 32,
            3 => 48,
            4 => 64,
            5 => 80,
            6 => 96,
            _ => 112,
        };
        proof { assert(nr43 >> 4u8 <= 15) by { crate::bits::lemma_byte_bits(); crate::bits::lemma_word_bits(); } }
        (divisor << shift) as u8
    }

    pub open spec fn spec_tick(self, nr42: u8, nr43: u8, nr44: u8) -> Channel4 {
        let c = if nr44 & 0b10000000 != 0 { self.spec_trigger(nr42) } else { self };
        let p = c.period_timer.wrapping_sub(1);
        if p == 0 {
            Channel4 { period_timer: Channel4::spec_period(nr43), lfsr: spec_lfsr_step(c.lfsr, nr43), ..c }
        } else {
            Channel4 { period_timer: p, ..c }
        }
    }

    /// One T-cycle: a set trigger bit restarts the channel; the period timer counts down
    /// (wrapping) and on reaching 0 reloads and steps the LFSR.
    pub fn tick(&mut self, nr42: u8, nr43: u8, nr44: u8)
        requires
            old(self).wf(),
        ensures
            *final(self) == old(self).spec_tick(nr42, nr43, nr44),
            final(self).wf(),
    {
        let is_triggered = nr44 & 0b10000000 != 0;
        if is_triggered {
            self.trigger(nr42);
        }
        self.period_timer = self.period_timer.wrapping_sub(1);
        if self.period_timer == 0 {
            proof { lemma_lfsr_step_bound(self.lfsr, nr43); }
            self.period_timer = Self::calculate_period(nr43);
            let lfsr_bit = (self.lfsr ^ (self.lfsr >> 1)) & 1;
            self.lfsr = (self.lfsr >> 1) | (lfsr_bit << 14);
            if nr43 & 0b00001000 != 0 {
                self.lfsr = (self.lfsr & 0xFFBF) | (lfsr_bit << 6);
            }
        }
    }

    pub open spec fn spec_update_envelope(self, nr42: u8) -> Channel4 {
        let period = nr42 & 0b00000111;
        let is_upwards = nr42 & 0b00001000 != 0;
        if period == 0 {
            self
        } else {
            let pt = if self.period_timer > 0 { (self.period_timer - 1) as u8 } else { self.period_timer };
            if pt == 0 {
                let vol = if (self.current_volume < 0xF && is_upwards) || (self.current_volume > 0 && !is_upwards) {
                    if is_upwards { (self.current_volume + 1) as u8 } else { (self.current_volume - 1) as u8 }
                } else {
                    self.current_volume
                };
                Channel4 { period_timer: period, current_volume: vol, ..self }
            } else {
                Channel4 { period_timer: pt, ..self }
            }
        }
    }

    /// Envelope clock, as for channel 1 with NR42.
    pub fn update_envelope(&mut self, nr42: u8)
        requires
            old(self).wf(),
        ensures
            *final(self) == old(self).spec_update_envelope(nr42),
            final(self).wf(),
    {
        let period = nr42 & 0b00000111;
        let is_upwards = nr42 & 0b00001000 != 0;
        if period != 0 {
            if self.period_timer > 0 {
                self.period_timer -= 1;
            }
            if self.period_timer == 0 {
                self.period_timer = period;
                if (self.current_volume < 0xF && is_upwards) || (self.current_volume > 0x0 && !is_upwards) {
                    if is_upwards {
                        self.current_volume += 1;
                    } else {
                        self.current_volume -= 1;
                    }
                }
            }
        }
    }

    pub fn get_length(nr41: u8) -> (r: u8)
        ensures
            r == nr41 % 64,
    {
        proof { assert(nr41 & 0b00111111 == nr41 % 64) by { crate::bits::lemma_byte_bits(); crate::bits::lemma_word_bits(); } }
        nr41 & 0b00111111
    }

    /// The length clock: the timer is reloaded from the length in NR41; while the
    /// length is enabled (NR44 bit 6) it then counts down once, and reaching 0 silences
    /// the channel.
    pub open spec fn spec_update_length(self, nr41: u8, nr44: u8) -> Channel4 {
        let t = (64 - nr41 % 64) as u8;
        if nr44 & 0b01000000 != 0 {
            let t1 = (t - 1) as u8;
            Channel4 { length_timer: t1, disabled: if t1 == 0 { true } else { self.disabled }, ..self }
        } else {
            Channel4 { length_timer: t, ..self }
        }
    }

    pub fn update_length(&mut self, nr41: u8, nr44: u8)
        ensures
            *final(self) == old(self).spec_update_length(nr41, nr44),
    {
        self.length_timer = 64 - Self::get_length(nr41);
        if nr44 & 0b01000000 != 0 {
            self.length_timer -= 1;
            if self.length_timer == 0 {
                self.disabled = true;
            }
        }
    }

    /// Channel 4 has no sweep.
    pub fn update_sweep(&mut self)
        ensures
            *final(self) == *old(self),
    {
    }

    /// The DAC input: 0 when disabled, else the volume while LFSR bit 0 is clear.
    pub open spec fn spec_dac_input(&self) -> u8 {
        if self.disabled { 0 } else if self.lfsr % 2 == 0 { self.current_volume } else { 0 }
    }

    pub fn dac_input(&self) -> (r: u8)
        ensures
            r == self.spec_dac_input(),
    {
        if self.disabled {
            return 0;
        }
        let l = self.lfsr;
        proof { assert(((!l & 1u16) == 1u16) == (l % 2 == 0)) by (bit_vector); }
        if (!self.lfsr & 1) == 1 { self.current_volume } else { 0 }
    }
}

} // verus!
