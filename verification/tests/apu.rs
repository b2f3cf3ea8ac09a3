use sabiboy::apu::channel1::Channel1;
use sabiboy::apu::channel2::Channel2;
use sabiboy::apu::channel3::Channel3;
use sabiboy::apu::channel4::Channel4;
use sabiboy::apu::{APU, CYCLES_PER_SAMPLE, SAMPLE_BUFFER_SIZE};

#[test]
fn cycles_per_sample_is_cpu_clock_over_sample_rate() {
    assert_eq!(CYCLES_PER_SAMPLE, 87);
}

#[test]
fn powered_apu_mixes_channel_one_into_both_sides() {
    let mut apu = APU::new();
    apu.write_register(0xFF26, 0x80);
    apu.write_register(0xFF25, 0x11);
    apu.write_register(0xFF24, 0x77);
    for _ in 0..87 {
        apu.tick();
    }
    assert!(apu.samples.is_empty());
    apu.tick();
    assert_eq!(apu.samples, vec![-105, -105]);
    assert_eq!(apu.current_ch1_output, -15);
}

#[test]
fn unpowered_apu_outputs_silence() {
    let mut apu = APU::new();
    apu.write_register(0xFF25, 0xFF);
    apu.write_register(0xFF24, 0x77);
    for _ in 0..88 {
        apu.tick();
    }
    assert_eq!(apu.samples, vec![0, 0]);
}

#[test]
fn panning_and_volume_select_sides() {
    let mut apu = APU::new();
    apu.write_register(0xFF26, 0x80);
    apu.write_register(0xFF25, 0x01); // channel 1 right only
    apu.write_register(0xFF24, 0x03); // right volume 3
    for _ in 0..88 {
        apu.tick();
    }
    assert_eq!(apu.samples, vec![0, -45]);
}

#[test]
fn muted_channel_contributes_nothing() {
    let mut apu = APU::new();
    apu.write_register(0xFF26, 0x80);
    apu.write_register(0xFF25, 0x11);
    apu.write_register(0xFF24, 0x77);
    apu.toggle_channel(1);
    assert!(!apu.ch1_enabled);
    for _ in 0..88 {
        apu.tick();
    }
    assert_eq!(apu.samples, vec![0, 0]);
}

#[test]
fn switched_off_apu_does_not_tick() {
    let mut apu = APU::new();
    apu.toggle_audio();
    assert!(!apu.enabled);
    for _ in 0..200 {
        apu.tick();
    }
    assert!(apu.samples.is_empty());
    assert_eq!(apu.frame_sequencer_timer, 0);
}

#[test]
fn get_samples_pads_and_drains() {
    let mut apu = APU::new();
    apu.write_register(0xFF26, 0x80);
    apu.write_register(0xFF25, 0x11);
    apu.write_register(0xFF24, 0x77);
    for _ in 0..88 {
        apu.tick();
    }
    let out = apu.get_samples();
    assert_eq!(out.len(), SAMPLE_BUFFER_SIZE);
    assert_eq!(out[0], -105);
    assert_eq!(out[1], -105);
    assert_eq!(out[2], 0);
    assert!(apu.samples.is_empty());
}

#[test]
fn sound_registers_read_back_and_unknown_read_ff() {
    let mut apu = APU::new();
    apu.write_register(0xFF12, 0xF3);
    assert_eq!(apu.read_register(0xFF12), 0xF3);
    assert_eq!(apu.read_register(0xFF15), 0xFF);
    apu.write_register(0xFF15, 0x12);
    assert_eq!(apu.read_register(0xFF15), 0xFF);
}

#[test]
fn wave_ram_reads_back() {
    let mut apu = APU::new();
    apu.write_wave_ram(3, 0xAB);
    assert_eq!(apu.read_wave_ram(3), 0xAB);
    assert_eq!(apu.get_wave_ram()[3], 0xAB);
    assert_eq!(apu.get_wave_ram()[4], 0);
}

#[test]
fn frame_sequencer_advances_modulo_eight() {
    let mut apu = APU::new();
    for _ in 0..8 {
        apu.step_frame_sequencer();
    }
    assert_eq!(apu.frame_sequencer_step, 0);
    apu.step_frame_sequencer();
    assert_eq!(apu.frame_sequencer_step, 1);
}

#[test]
fn upward_envelope_raises_the_volume_up_to_fifteen() {
    let mut ch4 = Channel4::new();
    ch4.period_timer = 1;
    ch4.current_volume = 5;
    ch4.update_envelope(0b0000_1011);
    assert_eq!((ch4.period_timer, ch4.current_volume), (3, 6));
    ch4.period_timer = 1;
    ch4.current_volume = 15;
    ch4.update_envelope(0b0000_1011);
    assert_eq!(ch4.current_volume, 15);
    ch4.period_timer = 1;
    ch4.update_envelope(0b0000_0011);
    assert_eq!(ch4.current_volume, 14);

    let mut ch1 = Channel1::new();
    ch1.period_timer = 1;
    ch1.current_volume = 7;
    ch1.update_envelope(0b0000_1001);
    assert_eq!(ch1.current_volume, 8);

    let mut ch2 = Channel2::new();
    ch2.period_timer = 1;
    ch2.current_volume = 7;
    ch2.update_envelope(0b0000_1001);
    assert_eq!(ch2.current_volume, 8);
}

#[test]
fn length_clock_with_length_enabled_counts_down_and_disables() {
    let mut ch4 = Channel4::new();
    ch4.update_length(0x3F, 0x40);
    assert_eq!(ch4.length_timer, 0);
    assert!(ch4.disabled);

    let mut ch4 = Channel4::new();
    ch4.update_length(0x3F, 0x00);
    assert_eq!(ch4.length_timer, 1);
    assert!(!ch4.disabled);

    let mut ch1 = Channel1::new();
    ch1.update_length(0x30, 0x40);
    assert_eq!(ch1.length_timer, 15);
    assert!(!ch1.disabled);

    let mut ch2 = Channel2::new();
    ch2.update_length(0x3F, 0x40);
    assert!(ch2.disabled);

    let mut ch3 = Channel3::new();
    ch3.update_length(0xFF, 0x40);
    assert_eq!(ch3.length_timer, 0);
    assert!(ch3.disabled);
}

#[test]
fn wave_byte_holds_two_samples_upper_nibble_first() {
    let mut wave = [0u8; 16];
    wave[0] = 0xAB;
    let mut ch3 = Channel3::new();
    assert_eq!(ch3.get_sample(&wave), 0x0A);
    ch3.wave_position = 1;
    assert_eq!(ch3.get_sample(&wave), 0x0B);
}

#[test]
fn sweep_period_is_shifted_and_negate_bit_subtracts() {
    let mut ch1 = Channel1::new();
    ch1.trigger(0b0001_0001, 0xF0, 100, 0);
    assert_eq!(ch1.sweep_timer, 1);
    assert_eq!(ch1.shadow_frequency, 100);
    ch1.update_sweep(0b0001_0001);
    assert_eq!(ch1.shadow_frequency, 150);

    let mut ch1 = Channel1::new();
    ch1.trigger(0b0001_1001, 0xF0, 100, 0);
    ch1.update_sweep(0b0001_1001);
    assert_eq!(ch1.shadow_frequency, 50);

    let mut ch1 = Channel1::new();
    ch1.trigger(0b0000_0001, 0xF0, 100, 0);
    assert_eq!(ch1.sweep_timer, 8);
}

#[test]
fn wave_volume_code_comes_from_nr32() {
    let mut wave = [0u8; 16];
    wave[0] = 0xF0;
    let ch3 = Channel3::new();
    assert_eq!(Channel3::get_volume_shift(0b0010_0000), 0);
    assert_eq!(ch3.dac_input(0b0010_0000, &wave), 15);
    assert_eq!(ch3.dac_input(0b0100_0000, &wave), 7);
    assert_eq!(ch3.dac_input(0b0110_0000, &wave), 3);
    assert_eq!(ch3.dac_input(0b0000_0000, &wave), 0);
}
