use sabiboy::bus::MemoryInterface;
use sabiboy::cpu::block1::ShiftOp;
use sabiboy::cpu::instruction::{decode, decode_cb, Instruction};
use sabiboy::cpu::registers::{Register16, Register8};
use sabiboy::cpu::CPU;
use sabiboy::flags::{Condition, Flags};
use sabiboy::memory::Memory;

fn load_program(mem: &mut Memory, at: u16, bytes: &[u8]) {
    for (i, b) in bytes.iter().enumerate() {
        mem.write_byte(at + i as u16, *b);
    }
}

fn run(cpu: &mut CPU, mem: &mut Memory, steps: usize) {
    for _ in 0..steps {
        cpu.tick(mem);
    }
}

#[test]
fn ld_and_add_set_a_and_flags() {
    let mut mem = Memory::new();
    let mut cpu = CPU::new();
    load_program(&mut mem, 0x0100, &[0x3E, 0x12, 0x06, 0x34, 0x80]);
    cpu.tick(&mut mem);
    assert_eq!(cpu.a, 0x12);
    assert_eq!(cpu.pc, 0x0102);
    assert_eq!(cpu.cycles, 8);
    run(&mut cpu, &mut mem, 2);
    assert_eq!(cpu.a, 0x46);
    assert_eq!(cpu.b, 0x34);
    assert_eq!(cpu.cycles, 4);
    assert_eq!(cpu.f, Flags { z: false, n: false, h: false, c: false });
}

#[test]
fn add_sets_half_carry_carry_and_zero() {
    let mut mem = Memory::new();
    let mut cpu = CPU::new();
    // LD A,0xF8 ; ADD A,0x08
    load_program(&mut mem, 0x0100, &[0x3E, 0xF8, 0xC6, 0x08]);
    run(&mut cpu, &mut mem, 2);
    assert_eq!(cpu.a, 0x00);
    assert_eq!(cpu.f, Flags { z: true, n: false, h: true, c: true });
}

#[test]
fn sub_and_compare_set_subtract_flag() {
    let mut mem = Memory::new();
    let mut cpu = CPU::new();
    // LD A,0x10 ; SUB 0x01 ; CP 0x0F
    load_program(&mut mem, 0x0100, &[0x3E, 0x10, 0xD6, 0x01, 0xFE, 0x0F]);
    run(&mut cpu, &mut mem, 2);
    assert_eq!(cpu.a, 0x0F);
    assert_eq!(cpu.f, Flags { z: false, n: true, h: true, c: false });
    cpu.tick(&mut mem);
    assert_eq!(cpu.a, 0x0F);
    assert!(cpu.f.z);
    assert!(cpu.f.n);
}

#[test]
fn daa_adjusts_bcd_addition() {
    let mut mem = Memory::new();
    let mut cpu = CPU::new();
    // LD A,0x15 ; ADD A,0x27 ; DAA
    load_program(&mut mem, 0x0100, &[0x3E, 0x15, 0xC6, 0x27, 0x27]);
    run(&mut cpu, &mut mem, 2);
    assert_eq!(cpu.a, 0x3C);
    cpu.tick(&mut mem);
    assert_eq!(cpu.a, 0x42);
    assert!(!cpu.f.c);
    assert!(!cpu.f.z);
}

#[test]
fn cb_swap_exchanges_nibbles() {
    let mut mem = Memory::new();
    let mut cpu = CPU::new();
    // LD A,0xF1 ; SWAP A
    load_program(&mut mem, 0x0100, &[0x3E, 0xF1, 0xCB, 0x37]);
    run(&mut cpu, &mut mem, 2);
    assert_eq!(cpu.a, 0x1F);
    assert_eq!(cpu.pc, 0x0104);
    assert_eq!(cpu.f, Flags { z: false, n: false, h: false, c: false });
}

#[test]
fn cb_bit_res_set_on_register() {
    let mut mem = Memory::new();
    let mut cpu = CPU::new();
    // LD B,0x80 ; BIT 7,B ; RES 7,B ; SET 0,B
    load_program(&mut mem, 0x0100, &[0x06, 0x80, 0xCB, 0x78, 0xCB, 0xB8, 0xCB, 0xC0]);
    run(&mut cpu, &mut mem, 2);
    assert!(!cpu.f.z);
    assert!(cpu.f.h);
    cpu.tick(&mut mem);
    assert_eq!(cpu.b, 0x00);
    cpu.tick(&mut mem);
    assert_eq!(cpu.b, 0x01);
}

#[test]
fn push_then_pop_restores_word() {
    let mut mem = Memory::new();
    let mut cpu = CPU::new();
    // LD BC,0x1234 ; PUSH BC ; POP DE
    load_program(&mut mem, 0x0100, &[0x01, 0x34, 0x12, 0xC5, 0xD1]);
    run(&mut cpu, &mut mem, 2);
    assert_eq!(cpu.sp, 0xFFFC);
    assert_eq!(mem.read_byte(0xFFFD), 0x12);
    assert_eq!(mem.read_byte(0xFFFC), 0x34);
    cpu.tick(&mut mem);
    assert_eq!(cpu.d, 0x12);
    assert_eq!(cpu.e, 0x34);
    assert_eq!(cpu.sp, 0xFFFE);
}

#[test]
fn call_then_ret_returns_after_the_call() {
    let mut mem = Memory::new();
    let mut cpu = CPU::new();
    load_program(&mut mem, 0x0100, &[0xCD, 0x00, 0x02]);
    load_program(&mut mem, 0x0200, &[0xC9]);
    cpu.tick(&mut mem);
    assert_eq!(cpu.pc, 0x0200);
    assert_eq!(cpu.sp, 0xFFFC);
    assert_eq!(mem.read_word(0xFFFC), 0x0103);
    assert_eq!(cpu.cycles, 24);
    cpu.tick(&mut mem);
    assert_eq!(cpu.pc, 0x0103);
    assert_eq!(cpu.sp, 0xFFFE);
    assert_eq!(cpu.cycles, 16);
}

#[test]
fn conditional_jump_depends_on_flags() {
    let mut mem = Memory::new();
    let mut cpu = CPU::new();
    // XOR A (Z set) ; JR NZ,+5 (not taken) ; JR Z,+2 (taken)
    load_program(&mut mem, 0x0100, &[0xAF, 0x20, 0x05, 0x28, 0x02]);
    cpu.tick(&mut mem);
    assert!(cpu.f.z);
    cpu.tick(&mut mem);
    assert_eq!(cpu.pc, 0x0103);
    assert_eq!(cpu.cycles, 8);
    cpu.tick(&mut mem);
    assert_eq!(cpu.pc, 0x0107);
    assert_eq!(cpu.cycles, 12);
}

#[test]
fn enabled_interrupt_is_serviced_after_the_instruction() {
    let mut mem = Memory::new();
    let mut cpu = CPU::new();
    mem.write_byte(0xFFFF, 0x01);
    mem.write_byte(0xFF0F, 0x01);
    cpu.ime = true;
    cpu.tick(&mut mem);
    assert_eq!(cpu.pc, 0x0040);
    assert!(!cpu.ime);
    assert_eq!(mem.read_byte(0xFF0F), 0x00);
    assert_eq!(mem.read_word(cpu.sp), 0x0101);
    assert_eq!(cpu.cycles, 24);
}

#[test]
fn ei_takes_effect_after_the_next_instruction() {
    let mut mem = Memory::new();
    let mut cpu = CPU::new();
    // EI ; NOP
    load_program(&mut mem, 0x0100, &[0xFB, 0x00]);
    cpu.tick(&mut mem);
    assert!(!cpu.ime);
    cpu.tick(&mut mem);
    assert!(cpu.ime);
}

#[test]
fn registers_read_back_what_was_written() {
    let mut mem = Memory::new();
    let mut cpu = CPU::new();
    cpu.set_r16(&Register16::HL, 0xC123);
    assert_eq!(cpu.h, 0xC1);
    assert_eq!(cpu.l, 0x23);
    assert_eq!(cpu.get_r16(&Register16::HL), 0xC123);
    cpu.set_r8(&Register8::HLIndirect, 0x5A, &mut mem);
    assert_eq!(mem.read_byte(0xC123), 0x5A);
    assert_eq!(cpu.get_r8(&Register8::HLIndirect, &mem), 0x5A);
}

#[test]
fn clock_cycles_follow_the_opcode_table() {
    let mut cpu = CPU::new();
    assert_eq!(cpu.clock_cycles(0x00, false), 4);
    assert_eq!(cpu.clock_cycles(0xC3, false), 16);
    assert_eq!(cpu.clock_cycles(0x08, false), 20);
    assert_eq!(cpu.clock_cycles(0x46, true), 8);
    assert_eq!(cpu.clock_cycles(0x06, true), 12);
    assert_eq!(cpu.clock_cycles(0x37, true), 4);
    cpu.f.z = false;
    assert_eq!(cpu.clock_cycles(0x20, false), 12);
    assert_eq!(cpu.clock_cycles(0xC0, false), 20);
    cpu.f.z = true;
    assert_eq!(cpu.clock_cycles(0x20, false), 8);
    assert_eq!(cpu.clock_cycles(0xC4, false), 12);
}

#[test]
fn jr_c_depends_on_carry_and_ld_c_b_does_not() {
    let mut cpu = CPU::new();
    cpu.f.c = false;
    assert_eq!(cpu.clock_cycles(0x38, false), 8);
    assert_eq!(cpu.clock_cycles(0x48, false), 4);
    cpu.f.c = true;
    assert_eq!(cpu.clock_cycles(0x38, false), 12);
    assert_eq!(cpu.clock_cycles(0x48, false), 4);
}

#[test]
fn should_jump_reads_the_flags() {
    let mut cpu = CPU::new();
    cpu.f = Flags::from_bits_truncate(0x90);
    assert!(cpu.should_jump(Condition::Z));
    assert!(!cpu.should_jump(Condition::NZ));
    assert!(cpu.should_jump(Condition::C));
    assert!(!cpu.should_jump(Condition::NC));
}

#[test]
fn flags_round_trip_through_the_byte() {
    let f = Flags::from_bits_truncate(0xB5);
    assert_eq!(f.bits(), 0xB0);
    assert_eq!(Flags::from_bits_truncate(f.bits()), f);
    assert_eq!(Flags::empty().bits(), 0);
}

#[test]
fn decode_names_the_instruction() {
    assert!(matches!(decode(0x00), Instruction::Nop));
    assert!(matches!(decode(0xC9), Instruction::Ret));
    assert!(matches!(decode(0x76), Instruction::Halt));
    assert!(matches!(decode(0xC3), Instruction::JpImm16));
    assert!(matches!(decode_cb(0x37), Instruction::Shift(ShiftOp::Swap, Register8::A)));
    assert!(matches!(decode_cb(0x7C), Instruction::TestBit(7, Register8::H)));
    assert!(matches!(decode(0xD3), Instruction::Invalid));
}

#[test]
fn save_then_load_restores_the_processor() {
    let mut cpu = CPU::new();
    cpu.a = 0x42;
    cpu.sp = 0xC000;
    cpu.f = Flags::from_bits_truncate(0xA0);
    let saved = cpu.save_state();
    let mut other = CPU::new();
    other.load_state(saved);
    assert_eq!(other.save_state(), saved);
    assert_eq!(other.a, 0x42);
    assert_eq!(other.sp, 0xC000);
}

#[test]
fn add_then_daa_carries_past_ninety_nine() {
    let mut mem = Memory::new();
    let mut cpu = CPU::new();
    // LD A,0x55 ; LD B,0x55 ; ADD A,B ; DAA
    load_program(&mut mem, 0x0100, &[0x3E, 0x55, 0x06, 0x55, 0x80, 0x27]);
    run(&mut cpu, &mut mem, 4);
    assert_eq!(cpu.a, 0x10);
    assert!(cpu.f.c);
    assert!(!cpu.f.z);
}

#[test]
fn di_right_after_ei_keeps_interrupts_off() {
    let mut mem = Memory::new();
    let mut cpu = CPU::new();
    // EI ; DI
    load_program(&mut mem, 0x0100, &[0xFB, 0xF3]);
    cpu.tick(&mut mem);
    assert!(!cpu.ime);
    assert!(cpu.ime_scheduled);
    cpu.tick(&mut mem);
    assert!(!cpu.ime);
}
