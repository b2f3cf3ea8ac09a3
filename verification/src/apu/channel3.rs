use vstd::prelude::*;
use crate::apu::channel1::{calculate_frequency, spec_frequency};

verus! {

/// Wave channel 3: plays 4-bit samples from wave RAM.
/// NR30 DAC power; NR31 length; NR32 -VV- ---- volume code; NR33 frequency low;
/// NR34 TL-- -FFF trigger, length enable, frequency high.
#[derive(Debug, Clone, Copy, PartialEq, Eq, Structural)]
pub struct Channel3 {
    pub frequency_timer: usize,
    pub wave_position: u8,
    pub length_timer: u16,
    pub disabled: bool,
    pub period_timer: u8,
    pub current_volume: u8,
}

/// The volume shift for the output-level code in bits 5-6 of NR32 (0: mute, by a shift
/// of 4; 1: 100%; 2: 50%; 3: 25%).
pub open spec fn spec_volume_shift(nr32: u8) -> u8 {
    let code = (nr32 / 32) % 4;
    if code == 0 { 4 } else if code == 1 { 0 } else if code == 2 { 1 } else { 2 }
}

impl Channel3 {
    pub open spec fn wf(&self) -> bool {
        self.wave_position < 8
    }

    pub open spec fn spec_new() -> Channel3 {
        Channel3 {
                frequency_timer: 8192,
                wave_position: 0,
                length_timer: 0,
                disabled: false,
                period_timer: 0,
                current_volume: 0,
            }
    }

    pub fn new() -> (r: Channel3)
        ensures
            r == Channel3::spec_new(),
            r.wf(),
    {
        Channel3 {
            frequency_timer: 2048 * 4,
            wave_position: 0,
            length_timer: 0,
            disabled: false,
            period_timer: 0,
            current_volume: 0,
        }
    }

    pub open spec fn spec_trigger(self, nr32: u8) -> Channel3 {
        Channel3 {
            current_volume: (nr32 & 0b11110000) >> 4,
            period_timer: nr32 & 0b00000111,
            length_timer: if self.length_timer == 0 { 64 } else { self.length_timer },
            disabled: false,
            ..self
        }
    }

    /// Restarts the channel (volume and period fields from NR32, full length if it had run out).
    pub fn trigger(&mut self, nr32: u8)
        ensures
            *final(self) == old(self).spec_trigger(nr32),
    {
        self.current_volume = (nr32 & 0b11110000) >> 4;
        self.period_timer = nr32 & 0b00000111;
        if self.length_timer == 0 {
            self.length_timer = 64;
        }
        self.disabled = false;
    }

    pub open spec fn spec_tick(self, nr32: u8, nr33: u8, nr34: u8) -> Channel3 {
        let c = if nr34 & 0b10000000 != 0 { self.spec_trigger(nr32) } else { self };
        let t = c.frequency_timer.wrapping_sub(1);
        if t == 0 {
            Channel3 {
                frequency_timer: ((2048 - spec_frequency(nr33, nr34)) * 4) as usize,
                wave_position: ((c.wave_position + 1) % 8) as u8,
                ..c
            }
        } else {
            Channel3 { frequency_timer: t, ..c }
        }
    }

    /// One T-cycle, as for the square channels.
    pub fn tick(&mut self, nr32: u8, nr33: u8, nr34: u8)
        requires
            old(self).wf(),
        ensures
            *final(self) == old(self).spec_tick(nr32, nr33, nr34),
            final(self).wf(),
    {
        let is_triggered = nr34 & 0b10000000 != 0;
        if is_triggered {
            self.trigger(nr32);
        }
        self.frequency_timer = self.frequency_timer.wrapping_sub(1);
        if self.frequency_timer == 0 {
            self.frequency_timer = (2048 - calculate_frequency(nr33, nr34)) * 4;
            self.wave_position = (self.wave_position + 1) % 8;
        }
    }

    /// The 4-bit sample at the current position: each wave RAM byte holds two samples, the
    /// upper nibble for the even position and the lower nibble for the odd one.
    pub open spec fn spec_sample(&self, wave_ram: [u8; 16]) -> u8 {
        let byte = wave_ram@[(self.wave_position / 2) as int];
        if self.wave_position % 2 == 0 { byte / 16 } else { byte % 16 }
    }

    pub fn get_sample(&self, wave_ram: &[u8; 16]) -> (r: u8)
        requires
            self.wf(),
        ensures
            r == self.spec_sample(*wave_ram),
    {
        let index = self.wave_position as usize / 2;
        let byte = wave_ram[index];
        proof {
            assert((byte & 0xF0) >> 4 == byte / 16) by (bit_vector);
            assert(byte & 0xF == byte % 16) by { crate::bits::lemma_byte_bits(); crate::bits::lemma_word_bits(); }
        }
        if self.wave_position % 2 == 0 {
            (byte & 0xF0) >> 4
        } else {
            byte & 0xF
        }
    }

    /// The length clock: the timer is reloaded from the length in NR31; while the
    /// length is enabled (NR34 bit 6) it then counts down once, and reaching 0 silences
    /// the channel.
    pub open spec fn spec_update_length(self, nr31: u8, nr34: u8) -> Channel3 {
        let t = (256 - nr31) as u16;
        if nr34 & 0b01000000 != 0 {
            let t1 = (t - 1) as u16;
            Channel3 { length_timer: t1, disabled: if t1 == 0 { true } else { self.disabled }, ..self }
        } else {
            Channel3 { length_timer: t, ..self }
        }
    }

    pub fn update_length(&mut self, nr31: u8, nr34: u8)
        ensures
            *final(self) == old(self).spec_update_length(nr31, nr34),
    {
        self.length_timer = 256 - Self::get_length(nr31) as u16;
        if nr34 & 0b01000000 != 0 {
            self.length_timer -= 1;
            if self.length_timer == 0 {
                self.disabled = true;
            }
        }
    }

    pub fn get_length(nr31: u8) -> (r: u8)
        ensures
            r == nr31,
    {
        proof { assert(nr31 & 0b11111111 == nr31) by { crate::bits::lemma_byte_bits(); crate::bits::lemma_word_bits(); } }
        nr31 & 0b11111111
    }

    pub fn get_volume_shift(nr32: u8) -> (r: u8)
        ensures
            r == spec_volume_shift(nr32),
    {
        proof { assert((nr32 & 0b01100000) >> 5 == (nr32 / 32) % 4) by { crate::bits::lemma_byte_bits(); crate::bits::lemma_word_bits(); } }
        let volume_bits = (nr32 & 0b01100000) >> 5;
        match volume_bits {
            0 => 4,
            1 => 0,
            2 => 1,
            _ => 2,
        }
    }

    /// The DAC input: 0 when disabled, else the sample shifted by the volume code in
    /// bits 5-6 of NR32.
    pub open spec fn spec_dac_input(&self, nr32: u8, wave_ram: [u8; 16]) -> u8 {
        if self.disabled { 0 } else { self.spec_sample(wave_ram) >> spec_volume_shift(nr32) }
    }

    pub fn dac_input(&self, nr32: u8, wave_ram: &[u8; 16]) -> (r: u8)
        requires
            self.wf(),
        ensures
            r == self.spec_dac_input(nr32, *wave_ram),
    {
        if self.disabled {
            return 0;
        }
        let raw_sample = self.get_sample(wave_ram);
        let volume_shift = Self::get_volume_shift(nr32);
        raw_sample >> volume_shift
    }
}

} // verus!
