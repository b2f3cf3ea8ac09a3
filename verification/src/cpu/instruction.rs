use vstd::prelude::*;
use crate::cpu::block1::ShiftOp;
use crate::cpu::block3::RstVec;
use crate::cpu::registers::{Register16, Register16Mem, Register16Stk, Register8};
use crate::flags::Condition;

verus! {

/// The eight operations of the 8-bit accumulator ALU.
#[derive(Debug, Clone, Copy, PartialEq, Eq, Structural)]
pub enum AluOp {
    Add,
    Adc,
    Sub,
    Sbc,
    And,
    Xor,
    Or,
    Cp,
}

/// A decoded SM83 instruction.
#[derive(Debug, Clone, Copy, PartialEq, Eq, Structural)]
pub enum Instruction {
    Nop,
    LdR16Imm16(Register16),
    LdR16MemA(Register16Mem),
    LdAR16Mem(Register16Mem),
    LdImm16Sp,
    IncR16(Register16),
    DecR16(Register16),
    AddHlR16(Register16),
    IncR8(Register8),
    DecR8(Register8),
    LdR8Imm8(Register8),
    Rlca,
    Rrca,
    Rla,
    Rra,
    Daa,
    Cpl,
    Scf,
    Ccf,
    JrImm8,
    JrCondImm8(Condition),
    Stop,
    LdR8R8(Register8, Register8),
    Halt,
    AluR8(AluOp, Register8),
    AluImm8(AluOp),
    RetCond(Condition),
    Ret,
    Reti,
    JpCondImm16(Condition),
    JpImm16,
    JpHl,
    CallCondImm16(Condition),
    CallImm16,
    Rst(RstVec),
    Pop(Register16Stk),
    Push(Register16Stk),
    LdhCA,
    LdhImm8A,
    LdImm16A,
    LdhAC,
    LdhAImm8,
    LdAImm16,
    AddSpImm8,
    LdHlSpImm8,
    LdSpHl,
    Di,
    Ei,
    /// The 0xCB prefix: the next byte selects an instruction of the second table.
    Prefix,
    /// An opcode the SM83 does not define.
    Invalid,
    Shift(ShiftOp, Register8),
    TestBit(u8, Register8),
    ResBit(u8, Register8),
    SetBit(u8, Register8),
}

/// The operand encoded by a 3-bit register field.
pub open spec fn r8_field(i: int) -> Register8 {
    if i == 0 { Register8::B }
    else if i == 1 { Register8::C }
    else if i == 2 { Register8::D }
    else if i == 3 { Register8::E }
    else if i == 4 { Register8::H }
    else if i == 5 { Register8::L }
    else if i == 6 { Register8::HLIndirect }
    else { Register8::A }
}

pub open spec fn r16_field(i: int) -> Register16 {
    if i == 0 { Register16::BC } else if i == 1 { Register16::DE } else if i == 2 { Register16::HL } else { Register16::SP }
}

pub open spec fn r16mem_field(i: int) -> Register16Mem {
    if i == 0 { Register16Mem::BC } else if i == 1 { Register16Mem::DE } else if i == 2 { Register16Mem::HLi } else { Register16Mem::HLd }
}

pub open spec fn r16stk_field(i: int) -> Register16Stk {
    if i == 0 { Register16Stk::BC } else if i == 1 { Register16Stk::DE } else if i == 2 { Register16Stk::HL } else { Register16Stk::AF }
}

pub open spec fn cond_field(i: int) -> Condition {
    if i == 0 { Condition::NZ } else if i == 1 { Condition::Z } else if i == 2 { Condition::NC } else { Condition::C }
}

pub open spec fn alu_field(i: int) -> AluOp {
    if i == 0 { AluOp::Add }
    else if i == 1 { AluOp::Adc }
    else if i == 2 { AluOp::Sub }
    else if i == 3 { AluOp::Sbc }
    else if i == 4 { AluOp::And }
    else if i == 5 { AluOp::Xor }
    else if i == 6 { AluOp::Or }
    else { AluOp::Cp }
}

pub open spec fn shift_field(i: int) -> ShiftOp {
    if i == 0 { ShiftOp::Rlc }
    else if i == 1 { ShiftOp::Rrc }
    else if i == 2 { ShiftOp::Rl }
    else if i == 3 { ShiftOp::Rr }
    else if i == 4 { ShiftOp::Sla }
    else if i == 5 { ShiftOp::Sra }
    else if i == 6 { ShiftOp::Swap }
    else { ShiftOp::Srl }
}

pub open spec fn rst_field(i: int) -> RstVec {
    if i == 0 { RstVec::Rst00 }
    else if i == 1 { RstVec::Rst08 }
    else if i == 2 { RstVec::Rst10 }
    else if i == 3 { RstVec::Rst18 }
    else if i == 4 { RstVec::Rst20 }
    else if i == 5 { RstVec::Rst28 }
    else if i == 6 { RstVec::Rst30 }
    else { RstVec::Rst38 }
}

/// The instruction an opcode of the main table encodes, read from its fields
/// x = bits 7-6, y = bits 5-3 (p = y / 2, q = y % 2) and z = bits 2-0.
pub open spec fn spec_decode(opcode: u8) -> Instruction {
    let x = opcode as int / 64;
    let y = (opcode as int / 8) % 8;
    let z = opcode as int % 8;
    let p = y / 2;
    let q = y % 2;
    if x == 0 {
        if z == 0 {
            if y == 0 { Instruction::Nop }
            else if y == 1 { Instruction::LdImm16Sp }
            else if y == 2 { Instruction::Stop }
            else if y == 3 { Instruction::JrImm8 }
            else { Instruction::JrCondImm8(cond_field(y - 4)) }
        } else if z == 1 {
            if q == 0 { Instruction::LdR16Imm16(r16_field(p)) } else { Instruction::AddHlR16(r16_field(p)) }
        } else if z == 2 {
            if q == 0 { Instruction::LdR16MemA(r16mem_field(p)) } else { Instruction::LdAR16Mem(r16mem_field(p)) }
        } else if z == 3 {
            if q == 0 { Instruction::IncR16(r16_field(p)) } else { Instruction::DecR16(r16_field(p)) }
        } else if z == 4 {
            Instruction::IncR8(r8_field(y))
        } else if z == 5 {
            Instruction::DecR8(r8_field(y))
        } else if z == 6 {
            Instruction::LdR8Imm8(r8_field(y))
        } else {
            if y == 0 { Instruction::Rlca }
            else if y == 1 { Instruction::Rrca }
            else if y == 2 { Instruction::Rla }
            else if y == 3 { Instruction::Rra }
            else if y == 4 { Instruction::Daa }
            else if y == 5 { Instruction::Cpl }
            else if y == 6 { Instruction::Scf }
            else { Instruction::Ccf }
        }
    } else if x == 1 {
        if y == 6 && z == 6 { Instruction::Halt } else { Instruction::LdR8R8(r8_field(y), r8_field(z)) }
    } else if x == 2 {
        Instruction::AluR8(alu_field(y), r8_field(z))
    } else {
        if z == 0 {
            if y < 4 { Instruction::RetCond(cond_field(y)) }
            else if y == 4 { Instruction::LdhImm8A }
            else if y == 5 { Instruction::AddSpImm8 }
            else if y == 6 { Instruction::LdhAImm8 }
            else { Instruction::LdHlSpImm8 }
        } else if z == 1 {
            if q == 0 { Instruction::Pop(r16stk_field(p)) }
            else if p == 0 { Instruction::Ret }
            else if p == 1 { Instruction::Reti }
            else if p == 2 { Instruction::JpHl }
            else { Instruction::LdSpHl }
        } else if z == 2 {
            if y < 4 { Instruction::JpCondImm16(cond_field(y)) }
            else if y == 4 { Instruction::LdhCA }
            else if y == 5 { Instruction::LdImm16A }
            else if y == 6 { Instruction::LdhAC }
            else { Instruction::LdAImm16 }
        } else if z == 3 {
            if y == 0 { Instruction::JpImm16 }
            else if y == 1 { Instruction::Prefix }
            else if y == 6 { Instruction::Di }
            else if y == 7 { Instruction::Ei }
            else { Instruction::Invalid }
        } else if z == 4 {
            if y < 4 { Instruction::CallCondImm16(cond_field(y)) } else { Instruction::Invalid }
        } else if z == 5 {
            if q == 0 { Instruction::Push(r16stk_field(p)) }
            else if p == 0 { Instruction::CallImm16 }
            else { Instruction::Invalid }
        } else if z == 6 {
            Instruction::AluImm8(alu_field(y))
        } else {
            Instruction::Rst(rst_field(y))
        }
    }
}

/// The instruction a byte after the 0xCB prefix encodes.
pub open spec fn spec_decode_cb(opcode: u8) -> Instruction {
    let x = opcode as int / 64;
    let y = (opcode as int / 8) % 8;
    let z = opcode as int % 8;
    if x == 0 {
        Instruction::Shift(shift_field(y), r8_field(z))
    } else if x == 1 {
        Instruction::TestBit(y as u8, r8_field(z))
    } else if x == 2 {
        Instruction::ResBit(y as u8, r8_field(z))
    } else {
        Instruction::SetBit(y as u8, r8_field(z))
    }
}

fn r8_of(i: u8) -> (r: Register8)
    requires i < 8,
    ensures r == r8_field(i as int),
{
    match i {
        0 => Register8::B,
        1 => Register8::C,
        2 => Register8::D,
        3 => Register8::E,
        4 => Register8::H,
        5 => Register8::L,
        6 => Register8::HLIndirect,
        _ => Register8::A,
    }
}

fn shift_of(i: u8) -> (r: ShiftOp)
    requires i < 8,
    ensures r == shift_field(i as int),
{
    match i {
        0 => ShiftOp::Rlc,
        1 => ShiftOp::Rrc,
        2 => ShiftOp::Rl,
        3 => ShiftOp::Rr,
        4 => ShiftOp::Sla,
        5 => ShiftOp::Sra,
        6 => ShiftOp::Swap,
        _ => ShiftOp::Srl,
    }
}

/// Decodes a byte of the 0xCB-prefixed table.
pub fn decode_cb(opcode: u8) -> (r: Instruction)
    ensures
        r == spec_decode_cb(opcode),
{
    let y = (opcode >> 3) & 7;
    let z = opcode & 7;
    proof {
        assert((opcode >> 3) & 7 == (opcode / 8) % 8) by { crate::bits::lemma_byte_bits(); crate::bits::lemma_word_bits(); }
        assert(opcode & 7 == opcode % 8) by { crate::bits::lemma_byte_bits(); crate::bits::lemma_word_bits(); }
    }
    let reg = r8_of(z);
    if opcode < 0x40 {
        Instruction::Shift(shift_of(y), reg)
    } else if opcode < 0x80 {
        Instruction::TestBit(y, reg)
    } else if opcode < 0xC0 {
        Instruction::ResBit(y, reg)
    } else {
        Instruction::SetBit(y, reg)
    }
}


fn decode_block0(opcode: u8) -> (r: Instruction)
    requires
        0 <= opcode < 64,
    ensures
        r == spec_decode(opcode),
{
    match opcode {
        0x00 => Instruction::Nop,
        0x01 => Instruction::LdR16Imm16(Register16::BC),
        0x02 => Instruction::LdR16MemA(Register16Mem::BC),
        0x03 => Instruction::IncR16(Register16::BC),
        0x04 => Instruction::IncR8(Register8::B),
        0x05 => Instruction::DecR8(Register8::B),
        0x06 => Instruction::LdR8Imm8(Register8::B),
        0x07 => Instruction::Rlca,
        0x08 => Instruction::LdImm16Sp,
        0x09 => Instruction::AddHlR16(Register16::BC),
        0x0A => Instruction::LdAR16Mem(Register16Mem::BC),
        0x0B => Instruction::DecR16(Register16::BC),
        0x0C => Instruction::IncR8(Register8::C),
        0x0D => Instruction::DecR8(Register8::C),
        0x0E => Instruction::LdR8Imm8(Register8::C),
        0x0F => Instruction::Rrca,
        0x10 => Instruction::Stop,
        0x11 => Instruction::LdR16Imm16(Register16::DE),
        0x12 => Instruction::LdR16MemA(Register16Mem::DE),
        0x13 => Instruction::IncR16(Register16::DE),
        0x14 => Instruction::IncR8(Register8::D),
        0x15 => Instruction::DecR8(Register8::D),
        0x16 => Instruction::LdR8Imm8(Register8::D),
        0x17 => Instruction::Rla,
        0x18 => Instruction::JrImm8,
        0x19 => Instruction::AddHlR16(Register16::DE),
        0x1A => Instruction::LdAR16Mem(Register16Mem::DE),
        0x1B => Instruction::DecR16(Register16::DE),
        0x1C => Instruction::IncR8(Register8::E),
        0x1D => Instruction::DecR8(Register8::E),
        0x1E => Instruction::LdR8Imm8(Register8::E),
        0x1F => Instruction::Rra,
        0x20 => Instruction::JrCondImm8(Condition::NZ),
        0x21 => Instruction::LdR16Imm16(Register16::HL),
        0x22 => Instruction::LdR16MemA(Register16Mem::HLi),
        0x23 => Instruction::IncR16(Register16::HL),
        0x24 => Instruction::IncR8(Register8::H),
        0x25 => Instruction::DecR8(Register8::H),
        0x26 => Instruction::LdR8Imm8(Register8::H),
        0x27 => Instruction::Daa,
        0x28 => Instruction::JrCondImm8(Condition::Z),
        0x29 => Instruction::AddHlR16(Register16::HL),
        0x2A => Instruction::LdAR16Mem(Register16Mem::HLi),
        0x2B => Instruction::DecR16(Register16::HL),
        0x2C => Instruction::IncR8(Register8::L),
        0x2D => Instruction::DecR8(Register8::L),
        0x2E => Instruction::LdR8Imm8(Register8::L),
        0x2F => Instruction::Cpl,
        0x30 => Instruction::JrCondImm8(Condition::NC),
        0x31 => Instruction::LdR16Imm16(Register16::SP),
        0x32 => Instruction::LdR16MemA(Register16Mem::HLd),
        0x33 => Instruction::IncR16(Register16::SP),
        0x34 => Instruction::IncR8(Register8::HLIndirect),
        0x35 => Instruction::DecR8(Register8::HLIndirect),
        0x36 => Instruction::LdR8Imm8(Register8::HLIndirect),
        0x37 => Instruction::Scf,
        0x38 => Instruction::JrCondImm8(Condition::C),
        0x39 => Instruction::AddHlR16(Register16::SP),
        0x3A => Instruction::LdAR16Mem(Register16Mem::HLd),
        0x3B => Instruction::DecR16(Register16::SP),
        0x3C => Instruction::IncR8(Register8::A),
        0x3D => Instruction::DecR8(Register8::A),
        0x3E => Instruction::LdR8Imm8(Register8::A),
        _ => Instruction::Ccf,
    }
}

fn decode_block1(opcode: u8) -> (r: Instruction)
    requires
        64 <= opcode < 128,
    ensures
        r == spec_decode(opcode),
{
    match opcode {
        0x40 => Instruction::LdR8R8(Register8::B, Register8::B),
        0x41 => Instruction::LdR8R8(Register8::B, Register8::C),
        0x42 => Instruction::LdR8R8(Register8::B, Register8::D),
        0x43 => Instruction::LdR8R8(Register8::B, Register8::E),
        0x44 => Instruction::LdR8R8(Register8::B, Register8::H),
        0x45 => Instruction::LdR8R8(Register8::B, Register8::L),
        0x46 => Instruction::LdR8R8(Register8::B, Register8::HLIndirect),
        0x47 => Instruction::LdR8R8(Register8::B, Register8::A),
        0x48 => Instruction::LdR8R8(Register8::C, Register8::B),
        0x49 => Instruction::LdR8R8(Register8::C, Register8::C),
        0x4A => Instruction::LdR8R8(Register8::C, Register8::D),
        0x4B => Instruction::LdR8R8(Register8::C, Register8::E),
        0x4C => Instruction::LdR8R8(Register8::C, Register8::H),
        0x4D => Instruction::LdR8R8(Register8::C, Register8::L),
        0x4E => Instruction::LdR8R8(Register8::C, Register8::HLIndirect),
        0x4F => Instruction::LdR8R8(Register8::C, Register8::A),
        0x50 => Instruction::LdR8R8(Register8::D, Register8::B),
        0x51 => Instruction::LdR8R8(Register8::D, Register8::C),
        0x52 => Instruction::LdR8R8(Register8::D, Register8::D),
        0x53 => Instruction::LdR8R8(Register8::D, Register8::E),
        0x54 => Instruction::LdR8R8(Register8::D, Register8::H),
        0x55 => Instruction::LdR8R8(Register8::D, Register8::L),
        0x56 => Instruction::LdR8R8(Register8::D, Register8::HLIndirect),
        0x57 => Instruction::LdR8R8(Register8::D, Register8::A),
        0x58 => Instruction::LdR8R8(Register8::E, Register8::B),
        0x59 => Instruction::LdR8R8(Register8::E, Register8::C),
        0x5A => Instruction::LdR8R8(Register8::E, Register8::D),
        0x5B => Instruction::LdR8R8(Register8::E, Register8::E),
        0x5C => Instruction::LdR8R8(Register8::E, Register8::H),
        0x5D => Instruction::LdR8R8(Register8::E, Register8::L),
        0x5E => Instruction::LdR8R8(Register8::E, Register8::HLIndirect),
        0x5F => Instruction::LdR8R8(Register8::E, Register8::A),
        0x60 => Instruction::LdR8R8(Register8::H, Register8::B),
        0x61 => Instruction::LdR8R8(Register8::H, Register8::C),
        0x62 => Instruction::LdR8R8(Register8::H, Register8::D),
        0x63 => Instruction::LdR8R8(Register8::H, Register8::E),
        0x64 => Instruction::LdR8R8(Register8::H, Register8::H),
        0x65 => Instruction::LdR8R8(Register8::H, Register8::L),
        0x66 => Instruction::LdR8R8(Register8::H, Register8::HLIndirect),
        0x67 => Instruction::LdR8R8(Register8::H, Register8::A),
        0x68 => Instruction::LdR8R8(Register8::L, Register8::B),
        0x69 => Instruction::LdR8R8(Register8::L, Register8::C),
        0x6A => Instruction::LdR8R8(Register8::L, Register8::D),
        0x6B => Instruction::LdR8R8(Register8::L, Register8::E),
        0x6C => Instruction::LdR8R8(Register8::L, Register8::H),
        0x6D => Instruction::LdR8R8(Register8::L, Register8::L),
        0x6E => Instruction::LdR8R8(Register8::L, Register8::HLIndirect),
        0x6F => Instruction::LdR8R8(Register8::L, Register8::A),
        0x70 => Instruction::LdR8R8(Register8::HLIndirect, Register8::B),
        0x71 => Instruction::LdR8R8(Register8::HLIndirect, Register8::C),
        0x72 => Instruction::LdR8R8(Register8::HLIndirect, Register8::D),
        0x73 => Instruction::LdR8R8(Register8::HLIndirect, Register8::E),
        0x74 => Instruction::LdR8R8(Register8::HLIndirect, Register8::H),
        0x75 => Instruction::LdR8R8(Register8::HLIndirect, Register8::L),
        0x76 => Instruction::Halt,
        0x77 => Instruction::LdR8R8(Register8::HLIndirect, Register8::A),
        0x78 => Instruction::LdR8R8(Register8::A, Register8::B),
        0x79 => Instruction::LdR8R8(Register8::A, Register8::C),
        0x7A => Instruction::LdR8R8(Register8::A, Register8::D),
        0x7B => Instruction::LdR8R8(Register8::A, Register8::E),
        0x7C => Instruction::LdR8R8(Register8::A, Register8::H),
        0x7D => Instruction::LdR8R8(Register8::A, Register8::L),
        0x7E => Instruction::LdR8R8(Register8::A, Register8::HLIndirect),
        _ => Instruction::LdR8R8(Register8::A, Register8::A),
    }
}

fn decode_block2(opcode: u8) -> (r: Instruction)
    requires
        128 <= opcode < 192,
    ensures
        r == spec_decode(opcode),
{
    match opcode {
        0x80 => Instruction::AluR8(AluOp::Add, Register8::B),
        0x81 => Instruction::AluR8(AluOp::Add, Register8::C),
        0x82 => Instruction::AluR8(AluOp::Add, Register8::D),
        0x83 => Instruction::AluR8(AluOp::Add, Register8::E),
        0x84 => Instruction::AluR8(AluOp::Add, Register8::H),
        0x85 => Instruction::AluR8(AluOp::Add, Register8::L),
        0x86 => Instruction::AluR8(AluOp::Add, Register8::HLIndirect),
        0x87 => Instruction::AluR8(AluOp::Add, Register8::A),
        0x88 => Instruction::AluR8(AluOp::Adc, Register8::B),
        0x89 => Instruction::AluR8(AluOp::Adc, Register8::C),
        0x8A => Instruction::AluR8(AluOp::Adc, Register8::D),
        0x8B => Instruction::AluR8(AluOp::Adc, Register8::E),
        0x8C => Instruction::AluR8(AluOp::Adc, Register8::H),
        0x8D => Instruction::AluR8(AluOp::Adc, Register8::L),
        0x8E => Instruction::AluR8(AluOp::Adc, Register8::HLIndirect),
        0x8F => Instruction::AluR8(AluOp::Adc, Register8::A),
        0x90 => Instruction::AluR8(AluOp::Sub, Register8::B),
        0x91 => Instruction::AluR8(AluOp::Sub, Register8::C),
        0x92 => Instruction::AluR8(AluOp::Sub, Register8::D),
        0x93 => Instruction::AluR8(AluOp::Sub, Register8::E),
        0x94 => Instruction::AluR8(AluOp::Sub, Register8::H),
        0x95 => Instruction::AluR8(AluOp::Sub, Register8::L),
        0x96 => Instruction::AluR8(AluOp::Sub, Register8::HLIndirect),
        0x97 => Instruction::AluR8(AluOp::Sub, Register8::A),
        0x98 => Instruction::AluR8(AluOp::Sbc, Register8::B),
        0x99 => Instruction::AluR8(AluOp::Sbc, Register8::C),
        0x9A => Instruction::AluR8(AluOp::Sbc, Register8::D),
        0x9B => Instruction::AluR8(AluOp::Sbc, Register8::E),
        0x9C => Instruction::AluR8(AluOp::Sbc, Register8::H),
        0x9D => Instruction::AluR8(AluOp::Sbc, Register8::L),
        0x9E => Instruction::AluR8(AluOp::Sbc, Register8::HLIndirect),
        0x9F => Instruction::AluR8(AluOp::Sbc, Register8::A),
        0xA0 => Instruction::AluR8(AluOp::And, Register8::B),
        0xA1 => Instruction::AluR8(AluOp::And, Register8::C),
        0xA2 => Instruction::AluR8(AluOp::And, Register8::D),
        0xA3 => Instruction::AluR8(AluOp::And, Register8::E),
        0xA4 => Instruction::AluR8(AluOp::And, Register8::H),
        0xA5 => Instruction::AluR8(AluOp::And, Register8::L),
        0xA6 => Instruction::AluR8(AluOp::And, Register8::HLIndirect),
        0xA7 => Instruction::AluR8(AluOp::And, Register8::A),
        0xA8 => Instruction::AluR8(AluOp::Xor, Register8::B),
        0xA9 => Instruction::AluR8(AluOp::Xor, Register8::C),
        0xAA => Instruction::AluR8(AluOp::Xor, Register8::D),
        0xAB => Instruction::AluR8(AluOp::Xor, Register8::E),
        0xAC => Instruction::AluR8(AluOp::Xor, Register8::H),
        0xAD => Instruction::AluR8(AluOp::Xor, Register8::L),
        0xAE => Instruction::AluR8(AluOp::Xor, Register8::HLIndirect),
        0xAF => Instruction::AluR8(AluOp::Xor, Register8::A),
        0xB0 => Instruction::AluR8(AluOp::Or, Register8::B),
        0xB1 => Instruction::AluR8(AluOp::Or, Register8::C),
        0xB2 => Instruction::AluR8(AluOp::Or, Register8::D),
        0xB3 => Instruction::AluR8(AluOp::Or, Register8::E),
        0xB4 => Instruction::AluR8(AluOp::Or, Register8::H),
        0xB5 => Instruction::AluR8(AluOp::Or, Register8::L),
        0xB6 => Instruction::AluR8(AluOp::Or, Register8::HLIndirect),
        0xB7 => Instruction::AluR8(AluOp::Or, Register8::A),
        0xB8 => Instruction::AluR8(AluOp::Cp, Register8::B),
        0xB9 => Instruction::AluR8(AluOp::Cp, Register8::C),
        0xBA => Instruction::AluR8(AluOp::Cp, Register8::D),
        0xBB => Instruction::AluR8(AluOp::Cp, Register8::E),
        0xBC => Instruction::AluR8(AluOp::Cp, Register8::H),
        0xBD => Instruction::AluR8(AluOp::Cp, Register8::L),
        0xBE => Instruction::AluR8(AluOp::Cp, Register8::HLIndirect),
        _ => Instruction::AluR8(AluOp::Cp, Register8::A),
    }
}

fn decode_block3(opcode: u8) -> (r: Instruction)
    requires
        192 <= opcode < 256,
    ensures
        r == spec_decode(opcode),
{
    match opcode {
        0xC0 => Instruction::RetCond(Condition::NZ),
        0xC1 => Instruction::Pop(Register16Stk::BC),
        0xC2 => Instruction::JpCondImm16(Condition::NZ),
        0xC3 => Instruction::JpImm16,
        0xC4 => Instruction::CallCondImm16(Condition::NZ),
        0xC5 => Instruction::Push(Register16Stk::BC),
        0xC6 => Instruction::AluImm8(AluOp::Add),
        0xC7 => Instruction::Rst(RstVec::Rst00),
        0xC8 => Instruction::RetCond(Condition::Z),
        0xC9 => Instruction::Ret,
        0xCA => Instruction::JpCondImm16(Condition::Z),
        0xCB => Instruction::Prefix,
        0xCC => Instruction::CallCondImm16(Condition::Z),
        0xCD => Instruction::CallImm16,
        0xCE => Instruction::AluImm8(AluOp::Adc),
        0xCF => Instruction::Rst(RstVec::Rst08),
        0xD0 => Instruction::RetCond(Condition::NC),
        0xD1 => Instruction::Pop(Register16Stk::DE),
        0xD2 => Instruction::JpCondImm16(Condition::NC),
        0xD3 => Instruction::Invalid,
        0xD4 => Instruction::CallCondImm16(Condition::NC),
        0xD5 => Instruction::Push(Register16Stk::DE),
        0xD6 => Instruction::AluImm8(AluOp::Sub),
        0xD7 => Instruction::Rst(RstVec::Rst10),
        0xD8 => Instruction::RetCond(Condition::C),
        0xD9 => Instruction::Reti,
        0xDA => Instruction::JpCondImm16(Condition::C),
        0xDB => Instruction::Invalid,
        0xDC => Instruction::CallCondImm16(Condition::C),
        0xDD => Instruction::Invalid,
        0xDE => Instruction::AluImm8(AluOp::Sbc),
        0xDF => Instruction::Rst(RstVec::Rst18),
        0xE0 => Instruction::LdhImm8A,
        0xE1 => Instruction::Pop(Register16Stk::HL),
        0xE2 => Instruction::LdhCA,
        0xE3 => Instruction::Invalid,
        0xE4 => Instruction::Invalid,
        0xE5 => Instruction::Push(Register16Stk::HL),
        0xE6 => Instruction::AluImm8(AluOp::And),
        0xE7 => Instruction::Rst(RstVec::Rst20),
        0xE8 => Instruction::AddSpImm8,
        0xE9 => Instruction::JpHl,
        0xEA => Instruction::LdImm16A,
        0xEB => Instruction::Invalid,
        0xEC => Instruction::Invalid,
        0xED => Instruction::Invalid,
        0xEE => Instruction::AluImm8(AluOp::Xor),
        0xEF => Instruction::Rst(RstVec::Rst28),
        0xF0 => Instruction::LdhAImm8,
        0xF1 => Instruction::Pop(Register16Stk::AF),
        0xF2 => Instruction::LdhAC,
        0xF3 => Instruction::Di,
        0xF4 => Instruction::Invalid,
        0xF5 => Instruction::Push(Register16Stk::AF),
        0xF6 => Instruction::AluImm8(AluOp::Or),
        0xF7 => Instruction::Rst(RstVec::Rst30),
        0xF8 => Instruction::LdHlSpImm8,
        0xF9 => Instruction::LdSpHl,
        0xFA => Instruction::LdAImm16,
        0xFB => Instruction::Ei,
        0xFC => Instruction::Invalid,
        0xFD => Instruction::Invalid,
        0xFE => Instruction::AluImm8(AluOp::Cp),
        _ => Instruction::Rst(RstVec::Rst38),
    }
}

/// Decodes an opcode of the main table.
pub fn decode(opcode: u8) -> (r: Instruction)
    ensures
        r == spec_decode(opcode),
{
    if opcode < 0x40 {
        decode_block0(opcode)
    } else if opcode < 0x80 {
        decode_block1(opcode)
    } else if opcode < 0xC0 {
        decode_block2(opcode)
    } else {
        decode_block3(opcode)
    }
}

} // verus!
