use vstd::prelude::*;

pub mod channel1;
pub mod channel2;
pub mod channel3;
pub mod channel4;

use channel1::Channel1;
use channel2::Channel2;
use channel3::{Channel3, spec_volume_shift};
use channel4::Channel4;

verus! {

pub const SAMPLE_RATE: usize = 48_000;

pub const CPU_FREQ: usize = 4_194_304;

/// T-cycles between two output samples.
pub const CYCLES_PER_SAMPLE: usize = CPU_FREQ / SAMPLE_RATE;

/// The number of values `get_samples` hands out at a time.
pub const SAMPLE_BUFFER_SIZE: usize = 1600;

/// T-cycles between two frame-sequencer steps (512 Hz).
pub const FRAME_SEQUENCER_PERIOD: usize = 8192;

/// The sound registers NR10-NR52 and the wave RAM.
#[derive(Clone, Copy, Debug)]
pub struct APURegisters {
    pub nr10: u8,
    pub nr11: u8,
    pub nr12: u8,
    pub nr13: u8,
    pub nr14: u8,
    pub nr20: u8,
    pub nr21: u8,
    pub nr22: u8,
    pub nr23: u8,
    pub nr24: u8,
    pub nr30: u8,
    pub nr31: u8,
    pub nr32: u8,
    pub nr33: u8,
    pub nr34: u8,
    pub nr40: u8,
    pub nr41: u8,
    pub nr42: u8,
    pub nr43: u8,
    pub nr44: u8,
    pub nr50: u8,
    pub nr51: u8,
    pub nr52: u8,
    pub wave_ram: [u8; 16],
}

/// The audio unit: four channels, the frame sequencer that clocks their length, sweep and
/// envelope units, and the mixer.
///
/// Output samples are kept as integers: a value `v` stands for the amplitude `v / 60`
/// (full scale 1.0). Each channel contributes its DAC output `2 * input - 15` (in fifteenths;
/// 0 while the channel is off), the panned contributions are added, divided by 4 and
/// multiplied by the NR50 volume (0-7) of their side. Samples come in left/right pairs.
#[derive(Clone, Debug)]
pub struct APU {
    pub channel1: Channel1,
    pub channel2: Channel2,
    pub channel3: Channel3,
    pub channel4: Channel4,
    pub frame_sequencer_timer: usize,
    pub frame_sequencer_step: u8,
    pub cycle_sample_counter: usize,
    pub samples: Vec<i16>,
    pub enabled: bool,
    /// The last level mixed for each channel, in fifteenths of full scale.
    pub current_ch1_output: i16,
    pub current_ch2_output: i16,
    pub current_ch3_output: i16,
    pub current_ch4_output: i16,
    pub ch1_enabled: bool,
    pub ch2_enabled: bool,
    pub ch3_enabled: bool,
    pub ch4_enabled: bool,
    pub rgs: APURegisters,
}

/// A channel's DAC output in fifteenths of full scale: `2 * input - 15`, or 0 when off.
pub open spec fn spec_level(on: bool, dac: u8) -> int {
    if on { 2 * dac - 15 } else { 0 }
}

/// The all-zero register file.
pub open spec fn spec_zero_registers(r: APURegisters) -> bool {
    &&& r.nr10 == 0 && r.nr11 == 0 && r.nr12 == 0 && r.nr13 == 0 && r.nr14 == 0
    &&& r.nr20 == 0 && r.nr21 == 0 && r.nr22 == 0 && r.nr23 == 0 && r.nr24 == 0
    &&& r.nr30 == 0 && r.nr31 == 0 && r.nr32 == 0 && r.nr33 == 0 && r.nr34 == 0
    &&& r.nr40 == 0 && r.nr41 == 0 && r.nr42 == 0 && r.nr43 == 0 && r.nr44 == 0
    &&& r.nr50 == 0 && r.nr51 == 0 && r.nr52 == 0
    &&& forall|i: int| 0 <= i < 16 ==> r.wave_ram@[i] == 0
}

/// One side of the mix: the levels of the channels whose bit (0-3) is set in `pan`, added,
/// times `volume`.
pub open spec fn spec_side(l1: int, l2: int, l3: int, l4: int, pan: u8, volume: u8) -> int {
    ((if pan & 1 != 0 { l1 } else { 0 }) + (if pan & 2 != 0 { l2 } else { 0 })
        + (if pan & 4 != 0 { l3 } else { 0 }) + (if pan & 8 != 0 { l4 } else { 0 })) * volume
}

fn mix_side(l1: i16, l2: i16, l3: i16, l4: i16, pan: u8, volume: u8) -> (r: i16)
    requires
        -15 <= l1 <= 15 && -15 <= l2 <= 15 && -15 <= l3 <= 15 && -15 <= l4 <= 15,
        volume <= 7,
    ensures
        r == spec_side(l1 as int, l2 as int, l3 as int, l4 as int, pan, volume),
{
    let mut sum: i16 = 0;
    if pan & 1 != 0 {
        sum += l1;
    }
    if pan & 2 != 0 {
        sum += l2;
    }
    if pan & 4 != 0 {
        sum += l3;
    }
    if pan & 8 != 0 {
        sum += l4;
    }
    let v = volume as i16;
    proof {
        assert(-60 <= sum <= 60 && 0 <= v <= 7 ==> -420 <= sum * v <= 420) by (nonlinear_arith);
    }
    sum * v
}

impl APURegisters {
    /// The register a read of `address` (0xFF10-0xFF26) gives; 0xFF elsewhere.
    pub open spec fn spec_read(&self, address: u16) -> u8 {
        if address == 0xFF10 { self.nr10 }
        else if address == 0xFF11 { self.nr11 }
        else if address == 0xFF12 { self.nr12 }
        else if address == 0xFF13 { self.nr13 }
        else if address == 0xFF14 { self.nr14 }
        else if address == 0xFF16 { self.nr21 }
        else if address == 0xFF17 { self.nr22 }
        else if address == 0xFF18 { self.nr23 }
        else if address == 0xFF19 { self.nr24 }
        else if address == 0xFF1A { self.nr30 }
        else if address == 0xFF1B { self.nr31 }
        else if address == 0xFF1C { self.nr32 }
        else if address == 0xFF1D { self.nr33 }
        else if address == 0xFF1E { self.nr34 }
        else if address == 0xFF20 { self.nr41 }
        else if address == 0xFF21 { self.nr42 }
        else if address == 0xFF22 { self.nr43 }
        else if address == 0xFF23 { self.nr44 }
        else if address == 0xFF24 { self.nr50 }
        else if address == 0xFF25 { self.nr51 }
        else if address == 0xFF26 { self.nr52 }
        else { 0xFF }
    }

    /// The registers after a write of `value` to `address`; other addresses change nothing.
    pub open spec fn spec_write(self, address: u16, value: u8) -> APURegisters {
        if address == 0xFF10 { APURegisters { nr10: value, ..self } }
        else if address == 0xFF11 { APURegisters { nr11: value, ..self } }
        else if address == 0xFF12 { APURegisters { nr12: value, ..self } }
        else if address == 0xFF13 { APURegisters { nr13: value, ..self } }
        else if address == 0xFF14 { APURegisters { nr14: value, ..self } }
        else if address == 0xFF16 { APURegisters { nr21: value, ..self } }
        else if address == 0xFF17 { APURegisters { nr22: value, ..self } }
        else if address == 0xFF18 { APURegisters { nr23: value, ..self } }
        else if address == 0xFF19 { APURegisters { nr24: value, ..self } }
        else if address == 0xFF1A { APURegisters { nr30: value, ..self } }
        else if address == 0xFF1B { APURegisters { nr31: value, ..self } }
        else if address == 0xFF1C { APURegisters { nr32: value, ..self } }
        else if address == 0xFF1D { APURegisters { nr33: value, ..self } }
        else if address == 0xFF1E { APURegisters { nr34: value, ..self } }
        else if address == 0xFF20 { APURegisters { nr41: value, ..self } }
        else if address == 0xFF21 { APURegisters { nr42: value, ..self } }
        else if address == 0xFF22 { APURegisters { nr43: value, ..self } }
        else if address == 0xFF23 { APURegisters { nr44: value, ..self } }
        else if address == 0xFF24 { APURegisters { nr50: value, ..self } }
        else if address == 0xFF25 { APURegisters { nr51: value, ..self } }
        else if address == 0xFF26 { APURegisters { nr52: value, ..self } }
        else { self }
    }
}

/// The addresses `APU::read_register` and `APU::write_register` serve.
pub open spec fn is_sound_register(address: u16) -> bool {
    (0xFF10 <= address <= 0xFF14) || (0xFF16 <= address <= 0xFF1E) || (0xFF20 <= address <= 0xFF26)
}


impl APU {
    /// The channels can be stepped and the counters stay within their periods.
    pub open spec fn wf(&self) -> bool {
        &&& self.channel1.wf()
        &&& self.channel2.wf()
        &&& self.channel3.wf()
        &&& self.channel4.wf()
        &&& self.frame_sequencer_step < 8
        &&& self.frame_sequencer_timer < FRAME_SEQUENCER_PERIOD
        &&& self.cycle_sample_counter <= CYCLES_PER_SAMPLE
    }

    pub fn new() -> (r: APU)
        ensures
            r.wf(),
            r.channel1 == Channel1::spec_new(),
            r.channel2 == Channel2::spec_new(),
            r.channel3 == Channel3::spec_new(),
            r.channel4 == Channel4::spec_new(),
            r.frame_sequencer_timer == 0,
            r.frame_sequencer_step == 0,
            r.cycle_sample_counter == 0,
            r.samples@ == Seq::<i16>::empty(),
            r.enabled && r.ch1_enabled && r.ch2_enabled && r.ch3_enabled && r.ch4_enabled,
            r.current_ch1_output == 0 && r.current_ch2_output == 0,
            r.current_ch3_output == 0 && r.current_ch4_output == 0,
            spec_zero_registers(r.rgs),
    {
        APU {
            channel1: Channel1::new(),
            channel2: Channel2::new(),
            channel3: Channel3::new(),
            channel4: Channel4::new(),
            frame_sequencer_timer: 0,
            frame_sequencer_step: 0,
            cycle_sample_counter: 0,
            samples: Vec::new(),
            enabled: true,
            ch1_enabled: true,
            ch2_enabled: true,
            ch3_enabled: true,
            ch4_enabled: true,
            current_ch1_output: 0,
            current_ch2_output: 0,
            current_ch3_output: 0,
            current_ch4_output: 0,
            rgs: APURegisters {
                nr10: 0,
                nr11: 0,
                nr12: 0,
                nr13: 0,
                nr14: 0,
                nr20: 0,
                nr21: 0,
                nr22: 0,
                nr23: 0,
                nr24: 0,
                nr30: 0,
                nr31: 0,
                nr32: 0,
                nr33: 0,
                nr34: 0,
                nr40: 0,
                nr41: 0,
                nr42: 0,
                nr43: 0,
                nr44: 0,
                nr50: 0,
                nr51: 0,
                nr52: 0,
                wave_ram: [0; 16],
            },
        }
    }

    pub fn read_register(&self, address: u16) -> (r: u8)
        ensures
            r == self.rgs.spec_read(address),
    {
        match address {
            0xFF10 => self.rgs.nr10,
            0xFF11 => self.rgs.nr11,
            0xFF12 => self.rgs.nr12,
            0xFF13 => self.rgs.nr13,
            0xFF14 => self.rgs.nr14,
            0xFF16 => self.rgs.nr21,
            0xFF17 => self.rgs.nr22,
            0xFF18 => self.rgs.nr23,
            0xFF19 => self.rgs.nr24,
            0xFF1A => self.rgs.nr30,
            0xFF1B => self.rgs.nr31,
            0xFF1C => self.rgs.nr32,
            0xFF1D => self.rgs.nr33,
            0xFF1E => self.rgs.nr34,
            0xFF20 => self.rgs.nr41,
            0xFF21 => self.rgs.nr42,
            0xFF22 => self.rgs.nr43,
            0xFF23 => self.rgs.nr44,
            0xFF24 => self.rgs.nr50,
            0xFF25 => self.rgs.nr51,
            0xFF26 => self.rgs.nr52,
            _ => 0xFF,
        }
    }

    pub fn write_register(&mut self, address: u16, value: u8)
        ensures
            *final(self) == (APU { rgs: old(self).rgs.spec_write(address, value), ..*old(self) }),
    {
        match address {
            0xFF10 => self.rgs.nr10 = value,
            0xFF11 => self.rgs.nr11 = value,
            0xFF12 => self.rgs.nr12 = value,
            0xFF13 => self.rgs.nr13 = value,
            0xFF14 => self.rgs.nr14 = value,
            0xFF16 => self.rgs.nr21 = value,
            0xFF17 => self.rgs.nr22 = value,
            0xFF18 => self.rgs.nr23 = value,
            0xFF19 => self.rgs.nr24 = value,
            0xFF1A => self.rgs.nr30 = value,
            0xFF1B => self.rgs.nr31 = value,
            0xFF1C => self.rgs.nr32 = value,
            0xFF1D => self.rgs.nr33 = value,
            0xFF1E => self.rgs.nr34 = value,
            0xFF20 => self.rgs.nr41 = value,
            0xFF21 => self.rgs.nr42 = value,
            0xFF22 => self.rgs.nr43 = value,
            0xFF23 => self.rgs.nr44 = value,
            0xFF24 => self.rgs.nr50 = value,
            0xFF25 => self.rgs.nr51 = value,
            0xFF26 => self.rgs.nr52 = value,
            _ => {},
        }
    }

    pub fn read_wave_ram(&self, index: u16) -> (r: u8)
        requires
            index < 16,
        ensures
            r == self.rgs.wave_ram@[index as int],
    {
        self.rgs.wave_ram[index as usize]
    }

    pub fn write_wave_ram(&mut self, index: u16, value: u8)
        requires
            index < 16,
        ensures
            *final(self) == (APU {
                rgs: APURegisters {
                    wave_ram: vstd::array::spec_array_update(old(self).rgs.wave_ram, index as int, value),
                    ..old(self).rgs
                },
                ..*old(self)
            }),
    {
        self.rgs.wave_ram[index as usize] = value;
    }

    pub fn get_wave_ram(&self) -> (r: [u8; 16])
        ensures
            r == self.rgs.wave_ram,
    {
        self.rgs.wave_ram
    }

    pub fn toggle_audio(&mut self)
        ensures
            *final(self) == (APU { enabled: !old(self).enabled, ..*old(self) }),
    {
        self.enabled = !self.enabled;
    }

    /// Switches one channel (1-4) of the mix on or off; other numbers change nothing.
    pub fn toggle_channel(&mut self, channel: u8)
        ensures
            *final(self) == (if channel == 1 {
                APU { ch1_enabled: !old(self).ch1_enabled, ..*old(self) }
            } else if channel == 2 {
                APU { ch2_enabled: !old(self).ch2_enabled, ..*old(self) }
            } else if channel == 3 {
                APU { ch3_enabled: !old(self).ch3_enabled, ..*old(self) }
            } else if channel == 4 {
                APU { ch4_enabled: !old(self).ch4_enabled, ..*old(self) }
            } else {
                *old(self)
            }),
    {
        match channel {
            1 => self.ch1_enabled = !self.ch1_enabled,
            2 => self.ch2_enabled = !self.ch2_enabled,
            3 => self.ch3_enabled = !self.ch3_enabled,
            4 => self.ch4_enabled = !self.ch4_enabled,
            _ => {},
        }
    }

    pub open spec fn spec_update_lengths(self) -> APU {
        APU {
            channel1: self.channel1.spec_update_length(self.rgs.nr11, self.rgs.nr14),
            channel2: self.channel2.spec_update_length(self.rgs.nr21, self.rgs.nr24),
            channel3: self.channel3.spec_update_length(self.rgs.nr31, self.rgs.nr34),
            channel4: self.channel4.spec_update_length(self.rgs.nr41, self.rgs.nr44),
            ..self
        }
    }

    pub open spec fn spec_update_sweeps(self) -> APU {
        APU { channel1: self.channel1.spec_update_sweep(self.rgs.nr10), ..self }
    }

    pub open spec fn spec_update_envelopes(self) -> APU {
        APU {
            channel1: self.channel1.spec_update_envelope(self.rgs.nr12),
            channel2: self.channel2.spec_update_envelope(self.rgs.nr22),
            channel4: self.channel4.spec_update_envelope(self.rgs.nr42),
            ..self
        }
    }

    /// The frame sequencer's eight steps: length clocks on even steps, sweep clocks on
    /// steps 2 and 6, envelope clocks on step 7; then the step advances modulo 8.
    pub open spec fn spec_step_frame_sequencer(self) -> APU {
        let s = self.frame_sequencer_step;
        let a = if s == 0 || s == 4 {
            self.spec_update_lengths()
        } else if s == 2 || s == 6 {
            self.spec_update_lengths().spec_update_sweeps()
        } else if s == 7 {
            self.spec_update_envelopes()
        } else {
            self
        };
        APU { frame_sequencer_step: ((s + 1) % 8) as u8, ..a }
    }

    fn update_lengths(&mut self)
        ensures
            *final(self) == old(self).spec_update_lengths(),
    {
        self.channel1.update_length(self.rgs.nr11, self.rgs.nr14);
        self.channel2.update_length(self.rgs.nr21, self.rgs.nr24);
        self.channel3.update_length(self.rgs.nr31, self.rgs.nr34);
        self.channel4.update_length(self.rgs.nr41, self.rgs.nr44);
    }

    fn update_sweeps(&mut self)
        requires
            old(self).channel1.wf(),
        ensures
            *final(self) == old(self).spec_update_sweeps(),
            final(self).channel1.wf(),
    {
        self.channel1.update_sweep(self.rgs.nr10);
    }

    fn update_envelopes(&mut self)
        requires
            old(self).wf(),
        ensures
            *final(self) == old(self).spec_update_envelopes(),
            final(self).wf(),
    {
        self.channel1.update_envelope(self.rgs.nr12);
        self.channel2.update_envelope(self.rgs.nr22);
        self.channel4.update_envelope(self.rgs.nr42);
    }

    pub fn step_frame_sequencer(&mut self)
        requires
            old(self).wf(),
        ensures
            *final(self) == old(self).spec_step_frame_sequencer(),
            final(self).wf(),
    {
        match self.frame_sequencer_step {
            0 => {
                self.update_lengths();
            },
            2 => {
                self.update_lengths();
                self.update_sweeps();
            },
            4 => {
                self.update_lengths();
            },
            6 => {
                self.update_lengths();
                self.update_sweeps();
            },
            7 => {
                self.update_envelopes();
            },
            _ => {},
        }
        self.frame_sequencer_step = (self.frame_sequencer_step + 1) % 8;
    }

    pub open spec fn spec_tick_channels(self) -> APU {
        APU {
            channel1: self.channel1.spec_tick(self.rgs.nr10, self.rgs.nr12, self.rgs.nr13, self.rgs.nr14),
            channel2: self.channel2.spec_tick(self.rgs.nr22, self.rgs.nr23, self.rgs.nr24),
            channel3: self.channel3.spec_tick(self.rgs.nr32, self.rgs.nr33, self.rgs.nr34),
            channel4: self.channel4.spec_tick(self.rgs.nr42, self.rgs.nr43, self.rgs.nr44),
            ..self
        }
    }

    pub open spec fn spec_ch1_level(&self) -> int {
        spec_level(self.ch1_enabled, self.channel1.spec_dac_input(self.rgs.nr11))
    }

    pub open spec fn spec_ch2_level(&self) -> int {
        spec_level(self.ch2_enabled && !self.channel2.disabled, self.channel2.spec_dac_input(self.rgs.nr21))
    }

    pub open spec fn spec_ch3_level(&self) -> int {
        spec_level(
            self.ch3_enabled && !self.channel3.disabled,
            self.channel3.spec_dac_input(self.rgs.nr32, self.rgs.wave_ram),
        )
    }

    pub open spec fn spec_ch4_level(&self) -> int {
        spec_level(self.ch4_enabled && !self.channel4.disabled, self.channel4.spec_dac_input())
    }

    /// The left output: channels panned left by NR51 bits 4-7, times the NR50 left volume.
    pub open spec fn spec_left(&self) -> int {
        spec_side(
            self.spec_ch1_level(),
            self.spec_ch2_level(),
            self.spec_ch3_level(),
            self.spec_ch4_level(),
            self.rgs.nr51 >> 4,
            (self.rgs.nr50 & 0x70) >> 4,
        )
    }

    /// The right output: channels panned right by NR51 bits 0-3, times the NR50 right volume.
    pub open spec fn spec_right(&self) -> int {
        spec_side(
            self.spec_ch1_level(),
            self.spec_ch2_level(),
            self.spec_ch3_level(),
            self.spec_ch4_level(),
            self.rgs.nr51 & 0x0F,
            self.rgs.nr50 & 0x07,
        )
    }

    /// The pair a sample point adds: silence while NR52 bit 7 (master power) is clear.
    pub open spec fn spec_sample_pair(&self) -> Seq<i16> {
        if self.rgs.nr52 & 0x80 == 0 {
            seq![0i16, 0i16]
        } else {
            seq![self.spec_left() as i16, self.spec_right() as i16]
        }
    }

    /// The channel levels recorded at a sample point (only while powered).
    pub open spec fn spec_record_levels(self) -> APU {
        if self.rgs.nr52 & 0x80 == 0 {
            self
        } else {
            APU {
                current_ch1_output: self.spec_ch1_level() as i16,
                current_ch2_output: self.spec_ch2_level() as i16,
                current_ch3_output: self.spec_ch3_level() as i16,
                current_ch4_output: self.spec_ch4_level() as i16,
                ..self
            }
        }
    }

    fn level(on: bool, dac: u8) -> (r: i16)
        ensures
            r == spec_level(on, dac),
    {
        if on { 2 * (dac as i16) - 15 } else { 0 }
    }

    fn generate_sample(&mut self)
        requires
            old(self).wf(),
        ensures
            final(self).samples@ == old(self).samples@ + old(self).spec_sample_pair(),
            *final(self) == (APU { samples: final(self).samples, ..old(self).spec_record_levels() }),
    {
        if self.rgs.nr52 & 0x80 == 0 {
            self.samples.push(0);
            self.samples.push(0);
            return;
        }
        let (l1, l2, l3, l4) = self.levels();
        let nr51 = self.rgs.nr51;
        let nr50 = self.rgs.nr50;
        proof {
            assert((nr50 & 0x70) >> 4 <= 7) by { crate::bits::lemma_byte_bits(); crate::bits::lemma_word_bits(); }
            assert(nr50 & 0x07 <= 7) by { crate::bits::lemma_byte_bits(); crate::bits::lemma_word_bits(); }
        }
        let left = mix_side(l1, l2, l3, l4, nr51 >> 4, (nr50 & 0x70) >> 4);
        let right = mix_side(l1, l2, l3, l4, nr51 & 0x0F, nr50 & 0x07);
        self.samples.push(left);
        self.samples.push(right);
        self.current_ch1_output = l1;
        self.current_ch2_output = l2;
        self.current_ch3_output = l3;
        self.current_ch4_output = l4;
    }

    /// The four channel levels the mixer takes.
    fn levels(&self) -> (r: (i16, i16, i16, i16))
        requires
            self.wf(),
        ensures
            r.0 == self.spec_ch1_level(),
            r.1 == self.spec_ch2_level(),
            r.2 == self.spec_ch3_level(),
            r.3 == self.spec_ch4_level(),
            -15 <= r.0 <= 15 && -15 <= r.1 <= 15 && -15 <= r.2 <= 15 && -15 <= r.3 <= 15,
    {
        let l1 = Self::level(self.ch1_enabled, self.channel1.dac_input(self.rgs.nr11));
        let l2 = Self::level(self.ch2_enabled && !self.channel2.disabled, self.channel2.dac_input(self.rgs.nr21));
        let l3 = Self::level(
            self.ch3_enabled && !self.channel3.disabled,
            self.channel3.dac_input(self.rgs.nr32, &self.rgs.wave_ram),
        );
        let l4 = Self::level(self.ch4_enabled && !self.channel4.disabled, self.channel4.dac_input());
        proof {
            let w = self.rgs.wave_ram@[(self.channel3.wave_position / 2) as int];
            let sh = spec_volume_shift(self.rgs.nr32);
            assert((w % 16) >> sh <= 15 && (w / 16) >> sh <= 15) by (bit_vector)
        }
        (l1, l2, l3, l4)
    }

    /// The state after one T-cycle's frame-sequencer and channel work.
    pub open spec fn spec_advance(self) -> APU {
        let t = self.frame_sequencer_timer + 1;
        let a = if t >= FRAME_SEQUENCER_PERIOD {
            APU { frame_sequencer_timer: 0, ..self }.spec_step_frame_sequencer()
        } else {
            APU { frame_sequencer_timer: t as usize, ..self }
        };
        a.spec_tick_channels()
    }

    fn tick_channels(&mut self)
        requires
            old(self).wf(),
        ensures
            *final(self) == old(self).spec_tick_channels(),
            final(self).wf(),
    {
        self.channel1.tick(self.rgs.nr10, self.rgs.nr12, self.rgs.nr13, self.rgs.nr14);
        self.channel2.tick(self.rgs.nr22, self.rgs.nr23, self.rgs.nr24);
        self.channel3.tick(self.rgs.nr32, self.rgs.nr33, self.rgs.nr34);
        self.channel4.tick(self.rgs.nr42, self.rgs.nr43, self.rgs.nr44);
    }

    fn advance(&mut self)
        requires
            old(self).wf(),
        ensures
            *final(self) == old(self).spec_advance(),
            final(self).wf(),
    {
        self.frame_sequencer_timer += 1;
        if self.frame_sequencer_timer >= FRAME_SEQUENCER_PERIOD {
            self.frame_sequencer_timer = 0;
            self.step_frame_sequencer();
        }
        self.tick_channels();
    }

    /// Everything but the sample buffer after one T-cycle.
    pub open spec fn spec_tick_fields(self) -> APU {
        if !self.enabled {
            self
        } else {
            let a = self.spec_advance();
            let g = if a.cycle_sample_counter >= CYCLES_PER_SAMPLE {
                APU { cycle_sample_counter: 0, ..a.spec_record_levels() }
            } else {
                a
            };
            APU { cycle_sample_counter: (g.cycle_sample_counter + 1) as usize, ..g }
        }
    }

    /// The samples one T-cycle appends: a pair every CYCLES_PER_SAMPLE cycles.
    pub open spec fn spec_tick_samples(self) -> Seq<i16> {
        if !self.enabled {
            Seq::empty()
        } else {
            let a = self.spec_advance();
            if a.cycle_sample_counter >= CYCLES_PER_SAMPLE { a.spec_sample_pair() } else { Seq::empty() }
        }
    }

    /// One T-cycle of the audio unit (nothing while it is switched off).
    pub fn tick(&mut self)
        requires
            old(self).wf(),
        ensures
            final(self).samples@ == old(self).samples@ + old(self).spec_tick_samples(),
            *final(self) == (APU { samples: final(self).samples, ..old(self).spec_tick_fields() }),
            final(self).wf(),
    {
        if !self.enabled {
            return;
        }
        self.advance();
        if self.cycle_sample_counter >= CYCLES_PER_SAMPLE {
            self.cycle_sample_counter = 0;
            self.generate_sample();
        }
        self.cycle_sample_counter += 1;
    }

    /// Hands out the first SAMPLE_BUFFER_SIZE buffered values, padded with silence, and
    /// empties the buffer (values beyond the first SAMPLE_BUFFER_SIZE are dropped).
    pub fn get_samples(&mut self) -> (r: Vec<i16>)
        ensures
            r@.len() == SAMPLE_BUFFER_SIZE,
            forall|i: int|
                0 <= i < SAMPLE_BUFFER_SIZE ==> r@[i] == (if i < old(self).samples@.len() {
                    old(self).samples@[i]
                } else {
                    0i16
                }),
            final(self).samples@ == Seq::<i16>::empty(),
            *final(self) == (APU { samples: final(self).samples, ..*old(self) }),
    {
        let mut out: Vec<i16> = Vec::with_capacity(SAMPLE_BUFFER_SIZE);
        let n = self.samples.len();
        let mut i: usize = 0;
        while i < SAMPLE_BUFFER_SIZE
            invariant
                i <= SAMPLE_BUFFER_SIZE,
                n == self.samples@.len(),
                self.samples@ == old(self).samples@,
                out@.len() == i,
                forall|j: int| 0 <= j < i ==> out@[j] == (if j < n { self.samples@[j] } else { 0i16 }),
            decreases SAMPLE_BUFFER_SIZE - i,
        {
            if i < n {
                out.push(self.samples[i]);
            } else {
                out.push(0);
            }
            i += 1;
        }
        self.samples.clear();
        out
    }
}


/// A read of a sound register gives the value last written to it, and a write leaves the
/// other registers as they were.
pub proof fn lemma_sound_register_read_after_write(r: APURegisters, address: u16, value: u8, other: u16)
    requires
        is_sound_register(address),
    ensures
        r.spec_write(address, value).spec_read(address) == value,
        other != address ==> r.spec_write(address, value).spec_read(other) == r.spec_read(other),
{
}

} // verus!
