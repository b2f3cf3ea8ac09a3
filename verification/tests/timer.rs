use sabiboy::joypad::Joypad;
use sabiboy::timer::Timer;

#[test]
fn div_counts_every_256_cycles() {
    let mut t = Timer::new();
    for _ in 0..255 {
        assert_eq!(t.tick(), 0);
    }
    assert_eq!(t.read_timer_register(0xFF04), 0);
    t.tick();
    assert_eq!(t.read_timer_register(0xFF04), 1);
}

#[test]
fn tima_counts_at_the_selected_rate() {
    let mut t = Timer::new();
    t.write_timer_register(0xFF07, 0x05);
    for _ in 0..15 {
        t.tick();
    }
    assert_eq!(t.read_timer_register(0xFF05), 0);
    t.tick();
    assert_eq!(t.read_timer_register(0xFF05), 1);
}

#[test]
fn tima_stays_when_disabled() {
    let mut t = Timer::new();
    t.write_timer_register(0xFF07, 0x01);
    for _ in 0..100 {
        t.tick();
    }
    assert_eq!(t.read_timer_register(0xFF05), 0);
}

#[test]
fn tima_overflow_reloads_and_requests_interrupt() {
    let mut t = Timer::new();
    t.write_timer_register(0xFF07, 0x05);
    t.write_timer_register(0xFF06, 0xAB);
    t.write_timer_register(0xFF05, 0xFF);
    let mut raised = 0u8;
    for _ in 0..16 {
        raised |= t.tick();
    }
    assert_eq!(raised, 0b100);
    assert_eq!(t.read_timer_register(0xFF05), 0xAB);
}

#[test]
fn timer_registers_read_back() {
    let mut t = Timer::new();
    t.write_timer_register(0xFF06, 0x12);
    t.write_timer_register(0xFF07, 0x03);
    assert_eq!(t.read_timer_register(0xFF06), 0x12);
    assert_eq!(t.read_timer_register(0xFF07), 0x03);
    assert_eq!(t.read_timer_register(0xFF08), 0xFF);
}

#[test]
fn timer_save_then_load_restores_counters() {
    let mut t = Timer::new();
    for _ in 0..300 {
        t.tick();
    }
    let st = t.save_state();
    let mut u = t;
    for _ in 0..7 {
        u.tick();
    }
    u.load_state(st);
    assert_eq!(u.div_counter, t.div_counter);
    assert_eq!(u.tima_counter, t.tima_counter);
}

#[test]
fn joypad_reads_selected_keys() {
    let mut j = Joypad::new();
    assert_eq!(j.read(), 0xCF);
    // A pressed (bit 4) and Right pressed (bit 0)
    j.update_keys(0xEE);
    j.write(0x10); // select action keys (bit 5 clear)
    assert_eq!(j.read(), 0xCE);
    j.write(0x20); // select direction keys (bit 4 clear)
    assert_eq!(j.read(), 0xCE);
    j.write(0x30);
    assert_eq!(j.read(), 0xCF);
}

#[test]
fn joypad_write_keeps_only_select_bits() {
    let mut j = Joypad::new();
    j.write(0x00);
    assert_eq!(j.register, 0xCF);
}
