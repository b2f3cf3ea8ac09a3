use vstd::prelude::*;

verus! {

/// The joypad: the pressed buttons (0 = pressed) and the select bits of JOYP.
/// Key bits: 0 Right, 1 Left, 2 Up, 3 Down, 4 A, 5 B, 6 Select, 7 Start.
#[derive(Clone, Copy, Debug, PartialEq, Eq, Structural)]
pub struct Joypad {
    pub keys: u8,
    pub register: u8,
}

impl Joypad {
    pub fn new() -> (r: Joypad)
        ensures
            r == (Joypad { keys: 0xFF, register: 0xFF }),
    {
        Joypad { keys: 0xFF, register: 0xFF }
    }

    /// Sets the state of all eight buttons at once (0 = pressed).
    pub fn update_keys(&mut self, keys: u8)
        ensures
            *final(self) == (Joypad { keys: keys, ..*old(self) }),
    {
        self.keys = keys;
    }

    /// JOYP as the CPU reads it: bits 6-7 set; the low nibble shows the pressed direction
    /// keys (bit 4 of the select register clear) and/or action keys (bit 5 clear) as 0.
    pub open spec fn spec_read(self) -> u8 {
        let r1: u8 = if self.register & 0x10 == 0 { 0xCF & !(0x0F & !self.keys) } else { 0xCF };
        if self.register & 0x20 == 0 { r1 & !(0x0F & !(self.keys >> 4)) } else { r1 }
    }

    pub fn read(&self) -> (r: u8)
        ensures
            r == self.spec_read(),
    {
        let mut result: u8 = 0xCF;
        let direction_select = self.register & 0x10 == 0;
        let action_select = self.register & 0x20 == 0;
        if direction_select {
            result &= !(0x0F & !self.keys);
        }
        if action_select {
            result &= !(0x0F & !(self.keys >> 4));
        }
        result
    }

    /// Only the select bits 4-5 are writable.
    pub fn write(&mut self, value: u8)
        ensures
            *final(self) == (Joypad { register: (value & 0x30) | (old(self).register & 0xCF), ..*old(self) }),
    {
        self.register = (value & 0x30) | (self.register & 0xCF);
    }
}

/// A read of JOYP always has bits 6 and 7 set and bits 4 and 5 clear,
/// and with no button pressed it reads 0xCF.
pub proof fn lemma_joypad_read_bits(j: Joypad)
    ensures
        j.spec_read() & 0xC0 == 0xC0,
        j.spec_read() & 0x30 == 0,
        j.keys == 0xFF ==> j.spec_read() == 0xCF,
{
    let k = j.keys;
    let reg = j.register;
    assert(({
        let r1: u8 = if reg & 0x10 == 0 { 0xCF & !(0x0F & !k) } else { 0xCF };
        let r: u8 = if reg & 0x20 == 0 { r1 & !(0x0F & !(k >> 4)) } else { r1 };
        &&& r & 0xC0 == 0xC0
        &&& r & 0x30 == 0
        &&& k == 0xFF ==> r == 0xCF
    })) by (bit_vector);
}

} // verus!
