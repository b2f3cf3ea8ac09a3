use vstd::prelude::*;

verus! {

/// The colour model's extra registers: VRAM/WRAM bank select, palette RAM with its
/// index registers, the speed switch and the HDMA registers.
#[derive(Clone, Copy, Debug)]
pub struct CgbRegisters {
    pub vram_bank: u8,
    pub wram_bank: u8,
    pub bg_palette_index: u8,
    pub obj_palette_index: u8,
    pub bg_palette_ram: [u8; 64],
    pub obj_palette_ram: [u8; 64],
    pub speed_switch: u8,
    pub dma_source: u16,
    pub dma_dest: u16,
    pub dma_length: u16,
    pub dma_active: bool,
    pub hdma_active: bool,
}

/// The addresses of the colour-model registers.
pub open spec fn is_cgb_register(addr: u16) -> bool {
    addr == 0xFF4D || addr == 0xFF4F || (0xFF51 <= addr <= 0xFF55) || addr == 0xFF68 || addr == 0xFF69
        || addr == 0xFF6A || addr == 0xFF6B || addr == 0xFF70
}

/// The RGB888 colour of a little-endian RGB555 colour: each 5-bit component c becomes
/// c * 8 + c / 4.
pub open spec fn spec_convert_color(low: u8, high: u8) -> (u8, u8, u8) {
    let color = high as int * 256 + low as int;
    let b = color % 32;
    let g = (color / 32) % 32;
    let r = (color / 1024) % 32;
    ((r * 8 + r / 4) as u8, (g * 8 + g / 4) as u8, (b * 8 + b / 4) as u8)
}

/// The index register after a data write: with bit 7 set the 6-bit index steps.
pub open spec fn stepped_index(index: u8) -> u8 {
    if index & 0x80 != 0 { (0x80 | (index.wrapping_add(1) & 0x3F)) as u8 } else { index }
}

impl CgbRegisters {
    pub open spec fn wf(&self) -> bool {
        self.vram_bank <= 1 && 1 <= self.wram_bank <= 7
    }

    pub fn default() -> (r: CgbRegisters)
        ensures
            r.vram_bank == 0,
            r.wram_bank == 1,
            r.bg_palette_index == 0,
            r.obj_palette_index == 0,
            forall|i: int| 0 <= i < 64 ==> r.bg_palette_ram@[i] == 0 && r.obj_palette_ram@[i] == 0,
            r.speed_switch == 0,
            r.dma_source == 0,
            r.dma_dest == 0,
            r.dma_length == 0,
            !r.dma_active,
            !r.hdma_active,
            r.wf(),
    {
        CgbRegisters {
            vram_bank: 0,
            wram_bank: 1,
            bg_palette_index: 0,
            obj_palette_index: 0,
            bg_palette_ram: [0; 64],
            obj_palette_ram: [0; 64],
            speed_switch: 0,
            dma_source: 0,
            dma_dest: 0,
            dma_length: 0,
            dma_active: false,
            hdma_active: false,
        }
    }

    pub open spec fn spec_read_register(&self, addr: u16) -> u8 {
        if addr == 0xFF4F {
            self.vram_bank | 0xFE
        } else if addr == 0xFF4D {
            self.speed_switch
        } else if addr == 0xFF68 {
            self.bg_palette_index
        } else if addr == 0xFF69 {
            self.bg_palette_ram@[(self.bg_palette_index & 0x3F) as int]
        } else if addr == 0xFF6A {
            self.obj_palette_index
        } else if addr == 0xFF6B {
            self.obj_palette_ram@[(self.obj_palette_index & 0x3F) as int]
        } else if addr == 0xFF70 {
            self.wram_bank
        } else {
            if self.hdma_active { (self.dma_length / 16) as u8 } else { 0xFF }
        }
    }

    /// Reads VBK (other bits 1), KEY1, the palette index and data registers, SVBK and HDMA5.
    pub fn read_register(&self, addr: u16) -> (r: u8)
        requires
            addr == 0xFF4F || addr == 0xFF4D || addr == 0xFF68 || addr == 0xFF69 || addr == 0xFF6A
                || addr == 0xFF6B || addr == 0xFF70 || addr == 0xFF55,
        ensures
            r == self.spec_read_register(addr),
    {
        match addr {
            0xFF4F => self.vram_bank | 0xFE,
            0xFF4D => self.speed_switch,
            0xFF68 => self.bg_palette_index,
            0xFF69 => {
                let i = self.bg_palette_index;
                proof { assert(i & 0x3F < 64) by { crate::bits::lemma_byte_bits(); crate::bits::lemma_word_bits(); } }
                let index = (self.bg_palette_index & 0x3F) as usize;
                self.bg_palette_ram[index]
            },
            0xFF6A => self.obj_palette_index,
            0xFF6B => {
                let i = self.obj_palette_index;
                proof { assert(i & 0x3F < 64) by { crate::bits::lemma_byte_bits(); crate::bits::lemma_word_bits(); } }
                let index = (self.obj_palette_index & 0x3F) as usize;
                self.obj_palette_ram[index]
            },
            0xFF70 => self.wram_bank,
            _ => {
                let l = self.dma_length;
                proof { assert(l >> 4 == l / 16) by { crate::bits::lemma_byte_bits(); crate::bits::lemma_word_bits(); } }
                if self.hdma_active {
                    (self.dma_length >> 4) as u8
                } else {
                    0xFF
                }
            },
        }
    }

    pub open spec fn spec_write_register(self, addr: u16, value: u8) -> CgbRegisters {
        if addr == 0xFF4F {
            CgbRegisters { vram_bank: value & 0x01, ..self }
        } else if addr == 0xFF4D {
            CgbRegisters { speed_switch: (self.speed_switch & 0x80) | (value & 0x01), ..self }
        } else if addr == 0xFF68 {
            CgbRegisters { bg_palette_index: value, ..self }
        } else if addr == 0xFF69 {
            self.spec_write_bg_palette(value)
        } else if addr == 0xFF6A {
            CgbRegisters { obj_palette_index: value, ..self }
        } else if addr == 0xFF6B {
            self.spec_write_obj_palette(value)
        } else if addr == 0xFF70 {
            CgbRegisters { wram_bank: if value & 0x07 == 0 { 1 } else { value & 0x07 }, ..self }
        } else if addr == 0xFF51 {
            CgbRegisters { dma_source: (self.dma_source & 0x00FF) | ((value as u16) << 8), ..self }
        } else if addr == 0xFF52 {
            CgbRegisters { dma_source: (self.dma_source & 0xFF00) | ((value as u16) & 0xF0), ..self }
        } else if addr == 0xFF53 {
            CgbRegisters { dma_dest: (self.dma_dest & 0x00FF) | (((value as u16) & 0x1F) << 8), ..self }
        } else if addr == 0xFF54 {
            CgbRegisters { dma_dest: (self.dma_dest & 0xFF00) | ((value as u16) & 0xF0), ..self }
        } else {
            self.spec_handle_hdma(value)
        }
    }

    /// Writes one of the colour-model registers.
    pub fn write_register(&mut self, addr: u16, value: u8)
        requires
            old(self).wf(),
            is_cgb_register(addr),
        ensures
            *final(self) == old(self).spec_write_register(addr, value),
            final(self).wf(),
    {
        match addr {
            0xFF4F => {
                proof { assert(value & 0x01 <= 1) by { crate::bits::lemma_byte_bits(); crate::bits::lemma_word_bits(); } }
                self.vram_bank = value & 0x01
            },
            0xFF4D => self.handle_speed_switch(value),
            0xFF68 => self.bg_palette_index = value,
            0xFF69 => self.write_bg_palette(value),
            0xFF6A => self.obj_palette_index = value,
            0xFF6B => self.write_obj_palette(value),
            0xFF70 => self.set_wram_bank(value),
            0xFF51 => self.dma_source = (self.dma_source & 0x00FF) | ((value as u16) << 8),
            0xFF52 => self.dma_source = (self.dma_source & 0xFF00) | ((value as u16) & 0xF0),
            0xFF53 => self.dma_dest = (self.dma_dest & 0x00FF) | (((value as u16) & 0x1F) << 8),
            0xFF54 => self.dma_dest = (self.dma_dest & 0xFF00) | ((value as u16) & 0xF0),
            _ => self.handle_hdma(value),
        }
    }

    pub open spec fn spec_write_bg_palette(self, value: u8) -> CgbRegisters {
        CgbRegisters {
            bg_palette_ram: vstd::array::spec_array_update(self.bg_palette_ram, (self.bg_palette_index & 0x3F) as int, value),
            bg_palette_index: stepped_index(self.bg_palette_index),
            ..self
        }
    }

    pub open spec fn spec_write_obj_palette(self, value: u8) -> CgbRegisters {
        CgbRegisters {
            obj_palette_ram: vstd::array::spec_array_update(self.obj_palette_ram, (self.obj_palette_index & 0x3F) as int, value),
            obj_palette_index: stepped_index(self.obj_palette_index),
            ..self
        }
    }

    /// BCPD: stores a byte at the background palette index, which steps when bit 7 is set.
    pub fn write_bg_palette(&mut self, value: u8)
        ensures
            *final(self) == old(self).spec_write_bg_palette(value),
    {
        let i = self.bg_palette_index;
        proof { assert(i & 0x3F < 64) by { crate::bits::lemma_byte_bits(); crate::bits::lemma_word_bits(); } }
        let index = (self.bg_palette_index & 0x3F) as usize;
        self.bg_palette_ram[index] = value;
        if self.bg_palette_index & 0x80 != 0 {
            self.bg_palette_index = 0x80 | ((self.bg_palette_index.wrapping_add(1)) & 0x3F);
        }
    }

    /// OCPD: stores a byte at the object palette index, which steps when bit 7 is set.
    pub fn write_obj_palette(&mut self, value: u8)
        ensures
            *final(self) == old(self).spec_write_obj_palette(value),
    {
        let i = self.obj_palette_index;
        proof { assert(i & 0x3F < 64) by { crate::bits::lemma_byte_bits(); crate::bits::lemma_word_bits(); } }
        let index = (self.obj_palette_index & 0x3F) as usize;
        self.obj_palette_ram[index] = value;
        if self.obj_palette_index & 0x80 != 0 {
            self.obj_palette_index = 0x80 | ((self.obj_palette_index.wrapping_add(1)) & 0x3F);
        }
    }

    /// SVBK: WRAM bank 1-7 at 0xD000; 0 selects 1.
    pub fn set_wram_bank(&mut self, value: u8)
        ensures
            *final(self) == (CgbRegisters { wram_bank: if value & 0x07 == 0 { 1 } else { value & 0x07 }, ..*old(self) }),
            1 <= final(self).wram_bank <= 7,
    {
        proof { assert(value & 0x07 <= 7) by { crate::bits::lemma_byte_bits(); crate::bits::lemma_word_bits(); } }
        self.wram_bank = if value & 0x07 == 0 { 1 } else { value & 0x07 };
    }

    /// KEY1: only the prepare bit (bit 0) is writable; the switch itself happens on STOP.
    pub fn handle_speed_switch(&mut self, value: u8)
        ensures
            *final(self) == (CgbRegisters { speed_switch: (old(self).speed_switch & 0x80) | (value & 0x01), ..*old(self) }),
    {
        self.speed_switch = (self.speed_switch & 0x80) | (value & 0x01);
    }

    pub open spec fn spec_handle_hdma(self, value: u8) -> CgbRegisters {
        let length = (((value & 0x7F) as int + 1) * 0x10) as u16;
        if value & 0x80 != 0 {
            CgbRegisters { hdma_active: true, dma_length: length, ..self }
        } else {
            CgbRegisters {
                hdma_active: if self.hdma_active { false } else { self.hdma_active },
                dma_active: true,
                dma_length: length,
                ..self
            }
        }
    }

    /// HDMA5: bit 7 starts an H-Blank DMA, clear starts a general-purpose DMA (and stops an
    /// active H-Blank DMA); the low 7 bits give the length in 16-byte blocks minus one.
    pub fn handle_hdma(&mut self, value: u8)
        ensures
            *final(self) == old(self).spec_handle_hdma(value),
    {
        if self.hdma_active && value & 0x80 == 0 {
            self.hdma_active = false;
        }
        proof { assert(value & 0x7F <= 0x7F) by { crate::bits::lemma_byte_bits(); crate::bits::lemma_word_bits(); } }
        let length = ((value & 0x7F) as u16 + 1) * 0x10;
        if value & 0x80 != 0 {
            self.hdma_active = true;
            self.dma_length = length;
        } else {
            self.dma_active = true;
            self.dma_length = length;
        }
    }

    pub fn get_vram_bank(&self) -> (r: usize)
        ensures
            r == self.vram_bank,
    {
        self.vram_bank as usize
    }

    pub fn get_wram_bank(&self) -> (r: usize)
        ensures
            r == self.wram_bank,
    {
        self.wram_bank as usize
    }

    /// The RGB888 colour `color_id` (0-3) of background palette `palette` (0-7).
    pub fn get_bg_color(&self, palette: u8, color_id: u8) -> (r: (u8, u8, u8))
        ensures
            ({
                let index = (palette % 8) * 8 + (color_id % 4) * 2;
                r == spec_convert_color(self.bg_palette_ram@[index], self.bg_palette_ram@[index + 1])
            }),
    {
        proof {
            assert(palette & 0x07 == palette % 8) by { crate::bits::lemma_byte_bits(); crate::bits::lemma_word_bits(); }
            assert(color_id & 0x03 == color_id % 4) by { crate::bits::lemma_byte_bits(); crate::bits::lemma_word_bits(); }
        }
        let base_index = (palette & 0x07) * 8;
        let color_offset = (color_id & 0x03) * 2;
        let index = (base_index + color_offset) as usize;
        let low = self.bg_palette_ram[index];
        let high = self.bg_palette_ram[index + 1];
        Self::convert_color(low, high)
    }

    /// The RGB888 colour `color_id` (0-3) of object palette `palette` (0-7).
    pub fn get_obj_color(&self, palette: u8, color_id: u8) -> (r: (u8, u8, u8))
        ensures
            ({
                let index = (palette % 8) * 8 + (color_id % 4) * 2;
                r == spec_convert_color(self.obj_palette_ram@[index], self.obj_palette_ram@[index + 1])
            }),
    {
        proof {
            assert(palette & 0x07 == palette % 8) by { crate::bits::lemma_byte_bits(); crate::bits::lemma_word_bits(); }
            assert(color_id & 0x03 == color_id % 4) by { crate::bits::lemma_byte_bits(); crate::bits::lemma_word_bits(); }
        }
        let base_index = (palette & 0x07) * 8;
        let color_offset = (color_id & 0x03) * 2;
        let index = (base_index + color_offset) as usize;
        let low = self.obj_palette_ram[index];
        let high = self.obj_palette_ram[index + 1];
        Self::convert_color(low, high)
    }

    /// Expands a little-endian RGB555 colour to RGB888.
    pub fn convert_color(low: u8, high: u8) -> (r: (u8, u8, u8))
        ensures
            r == spec_convert_color(low, high),
    {
        let color = ((high as u16) << 8) | (low as u16);
        proof {
            assert(((high as u16) << 8) | (low as u16) == high as u16 * 256 + low as u16) by (bit_vector);
            assert((color & 0x1F) as u8 == (color % 32) as u8 && ((color >> 5) & 0x1F) as u8 == ((color / 32) % 32) as u8
                && ((color >> 10) & 0x1F) as u8 == ((color / 1024) % 32) as u8) by (bit_vector);
        }
        let b = (color & 0x1F) as u8;
        let g = ((color >> 5) & 0x1F) as u8;
        let r = ((color >> 10) & 0x1F) as u8;
        proof {
            assert(forall|x: u8| #![auto] x < 32 ==> (x << 3) | (x >> 2) == (x * 8 + x / 4) as u8) by (bit_vector);
        }
        let r_8bit = (r << 3) | (r >> 2);
        let g_8bit = (g << 3) | (g >> 2);
        let b_8bit = (b << 3) | (b >> 2);
        (r_8bit, g_8bit, b_8bit)
    }
}

} // verus!
