use vstd::prelude::*;
use crate::bus::MemoryInterface;
use crate::cpu::CPU;
use crate::cpu::registers::Register8;

verus! {

impl CPU {
    /// ADD/ADC/SUB/SBC/CP with an 8-bit register operand.
    fn arithmetic_op_r8<M: MemoryInterface>(
        &mut self,
        register: Register8,
        is_subtract: bool,
        use_carry: bool,
        update_register: bool,
        memory: &mut M,
    )
        requires
            old(memory).mem_wf(),
        ensures
            ({
                let v = old(self).spec_r8(register, *old(memory));
                &&& !is_subtract ==> *final(self) == old(self).spec_add_a(v, use_carry)
                &&& is_subtract && update_register ==> *final(self) == old(self).spec_sub_a(v, use_carry)
                &&& is_subtract && !update_register && !use_carry ==> *final(self) == old(self).spec_cp_a(v)
            }),
            *final(memory) == *old(memory),
    {
        let value = self.get_r8(&register, memory);
        self.alu_arith(value, is_subtract, use_carry, update_register);
    }

    pub fn add_a_r8<M: MemoryInterface>(&mut self, register: Register8, memory: &mut M)
        requires
            old(memory).mem_wf(),
        ensures
            *final(self) == old(self).spec_add_a(old(self).spec_r8(register, *old(memory)), false),
            *final(memory) == *old(memory),
    {
        self.arithmetic_op_r8(register, false, false, true, memory);
    }

    pub fn adc_a_r8<M: MemoryInterface>(&mut self, register: Register8, memory: &mut M)
        requires
            old(memory).mem_wf(),
        ensures
            *final(self) == old(self).spec_add_a(old(self).spec_r8(register, *old(memory)), true),
            *final(memory) == *old(memory),
    {
        self.arithmetic_op_r8(register, false, true, true, memory);
    }

    pub fn sub_a_r8<M: MemoryInterface>(&mut self, register: Register8, memory: &mut M)
        requires
            old(memory).mem_wf(),
        ensures
            *final(self) == old(self).spec_sub_a(old(self).spec_r8(register, *old(memory)), false),
            *final(memory) == *old(memory),
    {
        self.arithmetic_op_r8(register, true, false, true, memory);
    }

    pub fn sbc_a_r8<M: MemoryInterface>(&mut self, register: Register8, memory: &mut M)
        requires
            old(memory).mem_wf(),
        ensures
            *final(self) == old(self).spec_sub_a(old(self).spec_r8(register, *old(memory)), true),
            *final(memory) == *old(memory),
    {
        self.arithmetic_op_r8(register, true, true, true, memory);
    }

    pub fn and_a_r8<M: MemoryInterface>(&mut self, register: Register8, memory: &mut M)
        requires
            old(memory).mem_wf(),
        ensures
            *final(self) == old(self).spec_and_a(old(self).spec_r8(register, *old(memory))),
            *final(memory) == *old(memory),
    {
        let value = self.get_r8(&register, memory);
        self.alu_logic(self.a & value, true);
    }

    pub fn xor_a_r8<M: MemoryInterface>(&mut self, register: Register8, memory: &mut M)
        requires
            old(memory).mem_wf(),
        ensures
            *final(self) == old(self).spec_xor_a(old(self).spec_r8(register, *old(memory))),
            *final(memory) == *old(memory),
    {
        let value = self.get_r8(&register, memory);
        self.alu_logic(self.a ^ value, false);
    }

    pub fn or_a_r8<M: MemoryInterface>(&mut self, register: Register8, memory: &mut M)
        requires
            old(memory).mem_wf(),
        ensures
            *final(self) == old(self).spec_or_a(old(self).spec_r8(register, *old(memory))),
            *final(memory) == *old(memory),
    {
        let value = self.get_r8(&register, memory);
        self.alu_logic(self.a | value, false);
    }

    /// CP A, r8: the flags of A - r8; A unchanged.
    pub fn cp_a_r8<M: MemoryInterface>(&mut self, register: Register8, memory: &mut M)
        requires
            old(memory).mem_wf(),
        ensures
            *final(self) == old(self).spec_cp_a(old(self).spec_r8(register, *old(memory))),
            *final(memory) == *old(memory),
    {
        self.arithmetic_op_r8(register, true, false, false, memory);
    }
}

} // verus!
