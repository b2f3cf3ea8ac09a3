use sabiboy::comparison::{ComparedRegister, FlagName};
use sabiboy::conformance::{
    parse_log_line, CPUState, CPUTest, CaseFailure, CycleState, HarnessError, SingleStepState, StateMismatch,
    TestHarness, LOG_RECORD_LEN,
};
use sabiboy::gameboy::Gameboy;

const BOOT_LINE: &str = "A: 01 F: B0 B: 00 C: 13 D: 00 E: D8 H: 01 L: 4D SP: FFFE PC: 00:0100 (00 C3 50 01)";

fn boot_machine() -> Gameboy {
    let mut rom = vec![0u8; 0x8000];
    rom[0x0100] = 0x00;
    rom[0x0101] = 0xC3;
    rom[0x0102] = 0x50;
    rom[0x0103] = 0x01;
    rom[0x0150] = 0x18;
    rom[0x0151] = 0xFE;
    let mut gb = Gameboy::new([0; 4]);
    gb.load_rom(&rom);
    gb
}

fn boot_state() -> CPUState {
    CPUState {
        a: 0x01,
        b: 0x00,
        c: 0x13,
        d: 0x00,
        e: 0xD8,
        h: 0x01,
        l: 0x4D,
        f: 0xB0,
        sp: 0xFFFE,
        pc: 0x0100,
        mem: [0x00, 0xC3, 0x50, 0x01],
    }
}

#[test]
fn record_has_the_documented_length() {
    assert_eq!(BOOT_LINE.len(), LOG_RECORD_LEN);
}

#[test]
fn parses_a_log_line() {
    assert_eq!(parse_log_line(BOOT_LINE.as_bytes()), Some(boot_state()));
}

#[test]
fn parses_a_record_after_other_text() {
    let line = format!("step 12: {} trailing", BOOT_LINE);
    assert_eq!(parse_log_line(line.as_bytes()), Some(boot_state()));
}

#[test]
fn rejects_lines_without_a_record() {
    assert_eq!(parse_log_line(b""), None);
    assert_eq!(parse_log_line(b"A: 01 F: B0"), None);
    let lower = BOOT_LINE.replace("D8", "d8");
    assert_eq!(parse_log_line(lower.as_bytes()), None);
    let bad = BOOT_LINE.replace("SP:", "SQ:");
    assert_eq!(parse_log_line(bad.as_bytes()), None);
}

#[test]
fn harness_collects_the_records_of_a_log() {
    let log = format!("{}\nnoise\n{}\n", BOOT_LINE, BOOT_LINE.replace("PC: 00:0100", "PC: 00:0101"));
    let h = TestHarness::new(log.as_bytes());
    assert_eq!(h.total_states(), 2);
    assert_eq!(h.current_state, 0);
    assert_eq!(h.expected_states[0], boot_state());
    assert_eq!(h.expected_states[1].pc, 0x0101);
}

#[test]
fn harness_steps_until_the_log_ends() {
    let gb = boot_machine();
    let mut h = TestHarness::new(BOOT_LINE.as_bytes());
    assert_eq!(h.get_current_state(&gb), boot_state());
    assert_eq!(h.step(&gb), Ok(()));
    assert_eq!(h.current_state, 1);
    assert_eq!(h.step(&gb), Err(HarnessError::Completed));
}

#[test]
fn harness_reports_a_mismatch_and_stays() {
    let mut gb = boot_machine();
    let mut h = TestHarness::new(BOOT_LINE.as_bytes());
    gb.tick();
    assert_eq!(h.step(&gb), Err(HarnessError::Mismatch));
    assert_eq!(h.current_state, 0);
}

fn step_state(pc: u16, a: u8, ram: Vec<[u16; 2]>) -> SingleStepState {
    SingleStepState { pc, sp: 0xD000, a, b: 1, c: 2, d: 3, e: 4, f: 0x80, h: 0xC1, l: 0x00, ime: 0, ei: 0, ram }
}

#[test]
fn single_step_initial_state_is_installed() {
    let mut gb = Gameboy::new([0; 4]);
    let init = step_state(0xC000, 0x10, vec![[0xC000, 0x3C], [0xC100, 0x1FF]]);
    assert!(gb.init_cpu_state(&init).is_ok());
    assert_eq!(gb.cpu.pc, 0xC000);
    assert_eq!(gb.cpu.f.bits(), 0x80);
    assert_eq!(gb.bus.wram[0], 0x3C);
    assert_eq!(gb.bus.wram[0x100], 0xFF);
    assert_eq!(gb.validate_final_state(&init), Ok(()));
}

#[test]
fn single_step_runs_and_validates() {
    let mut gb = Gameboy::new([0; 4]);
    let init = step_state(0xC000, 0x10, vec![[0xC000, 0x3C]]);
    gb.init_cpu_state(&init).unwrap();
    gb.tick(); // INC A
    let mut expected = step_state(0xC001, 0x11, vec![[0xC000, 0x3C]]);
    expected.f = 0x00;
    assert_eq!(gb.validate_final_state(&expected), Ok(()));
}

#[test]
fn validation_reports_the_first_difference() {
    let mut gb = Gameboy::new([0; 4]);
    let init = step_state(0xC000, 0x10, vec![[0xC000, 0x3C], [0xC001, 0x00]]);
    gb.init_cpu_state(&init).unwrap();
    let wrong_pc = step_state(0xC002, 0x99, vec![]);
    assert_eq!(gb.validate_final_state(&wrong_pc), Err(StateMismatch::Pc { expected: 0xC002, actual: 0xC000 }));
    let wrong_a = step_state(0xC000, 0x99, vec![]);
    assert_eq!(gb.validate_final_state(&wrong_a), Err(StateMismatch::A { expected: 0x99, actual: 0x10 }));
    let mut wrong_ime = step_state(0xC000, 0x10, vec![]);
    wrong_ime.ime = 1;
    assert_eq!(gb.validate_final_state(&wrong_ime), Err(StateMismatch::Ime { expected: 1, actual: 0 }));
    let wrong_ram = step_state(0xC000, 0x10, vec![[0xC000, 0x3C], [0xC001, 0x07]]);
    assert_eq!(
        gb.validate_final_state(&wrong_ram),
        Err(StateMismatch::Ram { address: 0xC001, expected: 0x07, actual: 0x00 })
    );
}

fn cycle() -> CycleState {
    CycleState { address: Some(0xC000), data: Some(0x3C), bus_state: "r-m".to_string() }
}

#[test]
fn comparison_lists_registers_memory_and_flags() {
    let mut gb = Gameboy::new([0; 4]);
    let initial = step_state(0xC000, 0x10, vec![[0xC010, 0x05], [0xC000, 0x3C]]);
    gb.init_cpu_state(&initial).unwrap();
    let mut expected = step_state(0xC001, 0x11, vec![[0xC000, 0x3C], [0xC020, 0x09]]);
    expected.f = 0x20;
    let cmp = gb.state_comparison(&expected, &initial);
    assert_eq!(cmp.registers.len(), 11);
    assert_eq!(cmp.registers[0].register, ComparedRegister::Pc);
    assert_eq!(cmp.registers[0].expected, 0xC001);
    assert_eq!(cmp.registers[0].actual, 0xC000);
    assert!(!cmp.registers[0].matches);
    assert_eq!(cmp.registers[1].register, ComparedRegister::Sp);
    assert!(cmp.registers[1].matches);
    assert_eq!(cmp.registers[10].register, ComparedRegister::Ime);
    // 0xC000 agrees everywhere; 0xC010 holds its initial value but no expected one (0);
    // 0xC020 is expected to be 9 but holds 0
    assert_eq!(cmp.memory.len(), 2);
    assert_eq!(cmp.memory[0].address, 0xC010);
    assert_eq!((cmp.memory[0].initial, cmp.memory[0].expected, cmp.memory[0].actual), (0x05, 0x00, 0x05));
    assert!(!cmp.memory[0].matches);
    assert_eq!(cmp.memory[1].address, 0xC020);
    assert_eq!((cmp.memory[1].initial, cmp.memory[1].expected, cmp.memory[1].actual), (0x00, 0x09, 0x00));
    // F: expected 0x20, actual 0x80
    assert_eq!(cmp.flags.len(), 4);
    assert_eq!(cmp.flags[0].flag, FlagName::Zero);
    assert!(cmp.flags[0].actual && !cmp.flags[0].expected && !cmp.flags[0].matches);
    assert_eq!(cmp.flags[2].flag, FlagName::HalfCarry);
    assert!(cmp.flags[2].expected && !cmp.flags[2].actual);
    assert!(cmp.flags[3].matches);
}

#[test]
fn comparison_of_a_matching_state_has_no_differences() {
    let mut gb = Gameboy::new([0; 4]);
    let initial = step_state(0xC000, 0x10, vec![[0xC000, 0x3C]]);
    gb.init_cpu_state(&initial).unwrap();
    let cmp = gb.state_comparison(&initial, &initial);
    assert!(cmp.registers.iter().all(|r| r.matches));
    assert!(cmp.memory.is_empty());
    assert!(cmp.flags.is_empty());
}

#[test]
fn test_case_passes_and_counts_cycles() {
    let mut gb = Gameboy::new([0; 4]);
    let mut final_state = step_state(0xC001, 0x11, vec![[0xC000, 0x3C]]);
    final_state.f = 0x00;
    let test = CPUTest {
        name: "3c 0000".to_string(),
        initial: step_state(0xC000, 0x10, vec![[0xC000, 0x3C]]),
        final_state,
        cycles: vec![cycle()],
    };
    let mut total = 8u64;
    assert_eq!(gb.run_test_case(&test, &mut total), Ok(()));
    assert_eq!(total, 12);
}

#[test]
fn test_case_reports_the_mismatch() {
    let mut gb = Gameboy::new([0; 4]);
    let test = CPUTest {
        name: "3c 0001".to_string(),
        initial: step_state(0xC000, 0x10, vec![[0xC000, 0x3C]]),
        final_state: step_state(0xC001, 0x12, vec![[0xC000, 0x3C]]),
        cycles: vec![cycle()],
    };
    let mut total = 0u64;
    assert_eq!(
        gb.run_test_case(&test, &mut total),
        Err(CaseFailure::Mismatch(StateMismatch::A { expected: 0x12, actual: 0x11 }))
    );
}

#[test]
fn test_case_with_an_undefined_opcode_fails_before_running() {
    let mut gb = Gameboy::new([0; 4]);
    let test = CPUTest {
        name: "fc".to_string(),
        initial: step_state(0xC000, 0x10, vec![[0xC000, 0xFC]]),
        final_state: step_state(0xC001, 0x10, vec![]),
        cycles: vec![cycle()],
    };
    let mut total = 0u64;
    assert_eq!(gb.run_test_case(&test, &mut total), Err(CaseFailure::Undefined));
    assert_eq!(total, 0);
    assert_eq!(gb.cpu.pc, 0xC000);
}

#[test]
fn validation_names_each_register() {
    let mut gb = Gameboy::new([0; 4]);
    let init = step_state(0xC000, 0x10, vec![]);
    gb.init_cpu_state(&init).unwrap();
    let mut x = step_state(0xC000, 0x10, vec![]);
    x.sp = 0xD002;
    assert_eq!(gb.validate_final_state(&x), Err(StateMismatch::Sp { expected: 0xD002, actual: 0xD000 }));
    let mut x = step_state(0xC000, 0x10, vec![]);
    x.b = 9;
    assert_eq!(gb.validate_final_state(&x), Err(StateMismatch::B { expected: 9, actual: 1 }));
    let mut x = step_state(0xC000, 0x10, vec![]);
    x.c = 9;
    assert_eq!(gb.validate_final_state(&x), Err(StateMismatch::C { expected: 9, actual: 2 }));
    let mut x = step_state(0xC000, 0x10, vec![]);
    x.d = 9;
    assert_eq!(gb.validate_final_state(&x), Err(StateMismatch::D { expected: 9, actual: 3 }));
    let mut x = step_state(0xC000, 0x10, vec![]);
    x.e = 9;
    assert_eq!(gb.validate_final_state(&x), Err(StateMismatch::E { expected: 9, actual: 4 }));
    let mut x = step_state(0xC000, 0x10, vec![]);
    x.f = 0x10;
    assert_eq!(gb.validate_final_state(&x), Err(StateMismatch::F { expected: 0x10, actual: 0x80 }));
    let mut x = step_state(0xC000, 0x10, vec![]);
    x.h = 9;
    assert_eq!(gb.validate_final_state(&x), Err(StateMismatch::H { expected: 9, actual: 0xC1 }));
    let mut x = step_state(0xC000, 0x10, vec![]);
    x.l = 9;
    assert_eq!(gb.validate_final_state(&x), Err(StateMismatch::L { expected: 9, actual: 0 }));
}
