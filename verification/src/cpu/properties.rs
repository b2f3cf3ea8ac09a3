use vstd::prelude::*;
use crate::bus::MemoryInterface;
use crate::cpu::CPU;
use crate::cpu::instruction::{AluOp, Instruction};
use crate::cpu::registers::{Register16Stk, Register8};

verus! {

/// A byte holding two decimal digits (packed BCD).
pub open spec fn is_bcd(x: u8) -> bool {
    x / 16 <= 9 && x % 16 <= 9
}

/// The number 0-99 a packed BCD byte stands for.
pub open spec fn bcd_value(x: u8) -> int {
    (x / 16) * 10 + x % 16
}

proof fn lemma_bcd_add_adjust(a: u8, v: u8)
    by (bit_vector)
    requires
        a / 16 <= 9,
        a % 16 <= 9,
        v / 16 <= 9,
        v % 16 <= 9,
    ensures
        ({
            let r = (a + v) % 256;
            let carry = a + v > 255 || r > 0x99;
            let r1 = if carry { (r + 0x60) % 256 } else { r };
            let r2 = if (a % 16) + (v % 16) > 15 || r1 % 16 > 9 { (r1 + 6) % 256 } else { r1 };
            let s = (a / 16) * 10 + a % 16 + (v / 16) * 10 + v % 16;
            &&& r2 / 16 <= 9
            &&& r2 % 16 <= 9
            &&& (r2 / 16) * 10 + r2 % 16 == s % 100
            &&& carry == (s >= 100)
        }),
{
}

/// ADD followed by DAA adds in decimal: for two packed BCD bytes, A ends up as the packed
/// BCD of their sum modulo 100, and the carry flag says whether the sum reached 100.
#[verifier::spinoff_prover]
pub proof fn lemma_add_then_daa_is_bcd_sum<M: MemoryInterface>(cpu: CPU, mem: M, r: Register8)
    requires
        is_bcd(cpu.a),
        is_bcd(cpu.spec_r8(r, mem)),
    ensures
        ({
            let (c1, m1) = cpu.spec_run(mem, Instruction::AluR8(AluOp::Add, r));
            let (c2, m2) = c1.spec_run(m1, Instruction::Daa);
            let s = bcd_value(cpu.a) + bcd_value(cpu.spec_r8(r, mem));
            &&& is_bcd(c2.a)
            &&& bcd_value(c2.a) == s % 100
            &&& c2.f.c == (s >= 100)
            &&& !c2.f.n
            &&& !c2.f.h
            &&& c2.f.z == (s % 100 == 0)
        }),
{
    let a = cpu.a;
    let v = cpu.spec_r8(r, mem);
    let c1 = cpu.spec_add_a(v, false);
    assert(cpu.spec_run(mem, Instruction::AluR8(AluOp::Add, r)) == (c1, mem));
    assert(c1.spec_run(mem, Instruction::Daa) == (c1.sem_daa(), mem));
    assert(c1.a == ((a + v) % 256) as u8);
    assert(c1.f.h == ((a % 16) + (v % 16) > 15));
    assert(c1.f.c == (a + v > 255));
    assert(!c1.f.n);
    lemma_bcd_add_adjust(a, v);
}

proof fn lemma_bcd_sub_adjust(a: u8, v: u8, cin: u8)
    by (bit_vector)
    requires
        a / 16 <= 9,
        a % 16 <= 9,
        v / 16 <= 9,
        v % 16 <= 9,
        cin <= 1,
    ensures
        ({
            let r = (a - v - cin + 512) % 256;
            let borrow = a < v + cin;
            let r1 = if borrow { (r - 0x60 + 512) % 256 } else { r };
            let r2 = if a % 16 < v % 16 + cin { (r1 - 0x06 + 512) % 256 } else { r1 };
            let d = (a / 16) * 10 + a % 16 - ((v / 16) * 10 + v % 16) - cin;
            &&& r2 / 16 <= 9
            &&& r2 % 16 <= 9
            &&& (r2 / 16) * 10 + r2 % 16 == (d + 100) % 100
            &&& borrow == (d < 0)
        }),
{
}

/// SUB (or SBC) followed by DAA subtracts in decimal: for two packed BCD bytes, A ends up
/// as the packed BCD of their difference (less the carry for SBC) modulo 100, and the carry
/// flag says whether the difference went below 0.
#[verifier::spinoff_prover]
pub proof fn lemma_sub_then_daa_is_bcd_difference<M: MemoryInterface>(
    cpu: CPU,
    mem: M,
    r: Register8,
    with_carry: bool,
)
    requires
        is_bcd(cpu.a),
        is_bcd(cpu.spec_r8(r, mem)),
    ensures
        ({
            let op = if with_carry { AluOp::Sbc } else { AluOp::Sub };
            let (c1, m1) = cpu.spec_run(mem, Instruction::AluR8(op, r));
            let (c2, m2) = c1.spec_run(m1, Instruction::Daa);
            let cin: int = if with_carry && cpu.f.c { 1 } else { 0 };
            let d = bcd_value(cpu.a) - bcd_value(cpu.spec_r8(r, mem)) - cin;
            &&& is_bcd(c2.a)
            &&& bcd_value(c2.a) == (d + 100) % 100
            &&& c2.f.c == (d < 0)
            &&& c2.f.n
            &&& !c2.f.h
            &&& c2.f.z == ((d + 100) % 100 == 0)
        }),
{
    let a = cpu.a;
    let v = cpu.spec_r8(r, mem);
    let op = if with_carry { AluOp::Sbc } else { AluOp::Sub };
    let cin: u8 = if with_carry && cpu.f.c { 1 } else { 0 };
    let c1 = cpu.spec_sub_a(v, with_carry);
    assert(cpu.spec_run(mem, Instruction::AluR8(op, r)) == (c1, mem));
    assert(c1.spec_run(mem, Instruction::Daa) == (c1.sem_daa(), mem));
    assert(c1.a == ((a - v - cin + 512) % 256) as u8);
    assert(c1.f.h == (a % 16 < v % 16 + cin));
    assert(c1.f.c == (a < v + cin));
    assert(c1.f.n);
    lemma_bcd_sub_adjust(a, v, cin);
}

proof fn lemma_bcd_adc_adjust(a: u8, v: u8, cin: u8)
    by (bit_vector)
    requires
        a / 16 <= 9,
        a % 16 <= 9,
        v / 16 <= 9,
        v % 16 <= 9,
        cin <= 1,
    ensures
        ({
            let r = (a + v + cin) % 256;
            let carry = a + v + cin > 255 || r > 0x99;
            let r1 = if carry { (r + 0x60) % 256 } else { r };
            let r2 = if (a % 16) + (v % 16) + cin > 15 || r1 % 16 > 9 { (r1 + 6) % 256 } else { r1 };
            let s = (a / 16) * 10 + a % 16 + (v / 16) * 10 + v % 16 + cin;
            &&& r2 / 16 <= 9
            &&& r2 % 16 <= 9
            &&& (r2 / 16) * 10 + r2 % 16 == s % 100
            &&& carry == (s >= 100)
        }),
{
}

/// ADC followed by DAA adds in decimal with the carry: for two packed BCD bytes, A ends up
/// as the packed BCD of their sum plus the carry, modulo 100, and the carry flag says
/// whether that sum reached 100.
#[verifier::spinoff_prover]
pub proof fn lemma_adc_then_daa_is_bcd_sum<M: MemoryInterface>(cpu: CPU, mem: M, r: Register8)
    requires
        is_bcd(cpu.a),
        is_bcd(cpu.spec_r8(r, mem)),
    ensures
        ({
            let (c1, m1) = cpu.spec_run(mem, Instruction::AluR8(AluOp::Adc, r));
            let (c2, m2) = c1.spec_run(m1, Instruction::Daa);
            let cin: int = if cpu.f.c { 1 } else { 0 };
            let s = bcd_value(cpu.a) + bcd_value(cpu.spec_r8(r, mem)) + cin;
            &&& is_bcd(c2.a)
            &&& bcd_value(c2.a) == s % 100
            &&& c2.f.c == (s >= 100)
            &&& !c2.f.n
            &&& !c2.f.h
        }),
{
    let a = cpu.a;
    let v = cpu.spec_r8(r, mem);
    let cin: u8 = if cpu.f.c { 1 } else { 0 };
    let c1 = cpu.spec_add_a(v, true);
    assert(cpu.spec_run(mem, Instruction::AluR8(AluOp::Adc, r)) == (c1, mem));
    assert(c1.spec_run(mem, Instruction::Daa) == (c1.sem_daa(), mem));
    assert(c1.a == ((a + v + cin) % 256) as u8);
    assert(c1.f.h == ((a % 16) + (v % 16) + cin > 15));
    assert(c1.f.c == (a + v + cin > 255));
    assert(!c1.f.n);
    lemma_bcd_adc_adjust(a, v, cin);
}

/// Every instruction but DI leaves the interrupt master enable as it was.
proof fn lemma_run_keeps_ime<M: MemoryInterface>(cpu: CPU, mem: M, instr: Instruction)
    requires
        !(instr is Di),
    ensures
        cpu.spec_run(mem, instr).0.ime == cpu.ime,
{
}

/// EI takes effect only after the next instruction. From interrupts off with no enable
/// pending, the step that runs EI leaves them off (so no interrupt is taken right after EI)
/// and memory as it was; the next step's instruction then runs with them on, and ends
/// with them on unless it is DI.
pub proof fn lemma_ei_takes_effect_after_next_instruction<M: MemoryInterface>(cpu: CPU, mem: M)
    requires
        !cpu.halt,
        !cpu.ime,
        !cpu.ime_scheduled,
        mem.spec_read_byte(cpu.pc) == 0xFB,
    ensures
        ({
            let (c1, m1) = cpu.spec_tick(mem);
            let (s2, m2) = c1.spec_execute_step(m1);
            &&& !c1.ime
            &&& c1.ime_scheduled
            &&& !c1.halt
            &&& m1 == mem
            &&& s2.ime == (m1.spec_read_byte(c1.pc) != 0xF3)
        }),
{
    let fetched = cpu.spec_after_fetch();
    assert(crate::cpu::instruction::spec_decode(0xFB) is Ei);
    let (c1, m1) = cpu.spec_tick(mem);
    let next = c1.spec_after_fetch();
    let op = m1.spec_read_byte(c1.pc);
    if op == 0xCB {
        let cb = m1.spec_read_byte(next.pc);
        assert(!(crate::cpu::instruction::spec_decode_cb(cb) is Di));
        lemma_run_keeps_ime(next.skip(1), m1, crate::cpu::instruction::spec_decode_cb(cb));
    } else {
        let instr = crate::cpu::instruction::spec_decode(op);
        assert((instr is Di) == (op == 0xF3));
        if !(instr is Di) {
            lemma_run_keeps_ime(next, m1, instr);
        }
    }
}

/// Setting a stack register pair to the value it holds changes nothing.
proof fn lemma_with_own_r16stk(cpu: CPU, r: Register16Stk)
    ensures
        cpu.with_r16stk(r, cpu.spec_r16stk(r)) == cpu,
{
    crate::flags::lemma_flags_bits_roundtrip(cpu.f);
    crate::bits::lemma_word_bits();
}

/// PUSH then POP of the same register pair gives the processor back on plain memory:
/// the pair holds its value again and SP is where it was.
pub proof fn lemma_push_then_pop_restores_cpu_on_memory(cpu: CPU, mem: crate::memory::Memory, r: Register16Stk)
    ensures
        ({
            let (c1, m1) = cpu.sem_push(mem, r);
            c1.sem_pop(m1, r) == cpu
        }),
{
    crate::cpu::block3::lemma_push_pop_memory(mem, cpu.sp, cpu.spec_r16stk(r));
    lemma_with_own_r16stk(cpu, r);
}

/// PUSH then POP of the same register pair gives the processor back on the bus when it
/// stores both stack bytes (plain storage, or external RAM the cartridge maps).
pub proof fn lemma_push_then_pop_restores_cpu_on_bus(cpu: CPU, b: crate::bus::Bus, r: Register16Stk)
    requires
        b.wf(),
        b.stores(cpu.sp.wrapping_sub(1)),
        b.stores(cpu.sp.wrapping_sub(2)),
    ensures
        ({
            let (c1, m1) = cpu.sem_push(b, r);
            c1.sem_pop(m1, r) == cpu
        }),
{
    crate::cpu::block3::lemma_push_pop_bus(b, cpu.sp, cpu.spec_r16stk(r));
    lemma_with_own_r16stk(cpu, r);
}

} // verus!
