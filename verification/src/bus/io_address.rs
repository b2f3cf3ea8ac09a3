use vstd::prelude::*;

verus! {

/// The memory-mapped hardware registers.
#[derive(Clone, Copy, Debug, PartialEq, Eq, Structural)]
pub enum IoRegister {
    Joyp,
    Sb,
    Sc,
    Div,
    Tima,
    Tma,
    Tac,
    If,
    Ie,
    Nr10,
    Nr11,
    Nr12,
    Nr13,
    Nr14,
    Nr21,
    Nr22,
    Nr23,
    Nr24,
    Nr30,
    Nr31,
    Nr32,
    Nr33,
    Nr34,
    Nr41,
    Nr42,
    Nr43,
    Nr44,
    Nr50,
    Nr51,
    Nr52,
    WaveRamStart,
    WaveRamEnd,
    Lcdc,
    Stat,
    Scy,
    Scx,
    Ly,
    Lyc,
    Dma,
    Bgp,
    Obp0,
    Obp1,
    Wy,
    Wx,
    Key1,
    Vbk,
    Hdma1,
    Hdma2,
    Hdma3,
    Hdma4,
    Hdma5,
    Rp,
    Bcps,
    Bcpd,
    Ocps,
    Ocpd,
    Opri,
    Svbk,
    Pcm12,
    Pcm34,
}

impl IoRegister {
    /// The register's address.
    pub open spec fn spec_address(self) -> u16 {
        match self {
            IoRegister::Joyp => 0xFF00,
            IoRegister::Sb => 0xFF01,
            IoRegister::Sc => 0xFF02,
            IoRegister::Div => 0xFF04,
            IoRegister::Tima => 0xFF05,
            IoRegister::Tma => 0xFF06,
            IoRegister::Tac => 0xFF07,
            IoRegister::If => 0xFF0F,
            IoRegister::Ie => 0xFFFF,
            IoRegister::Nr10 => 0xFF10,
            IoRegister::Nr11 => 0xFF11,
            IoRegister::Nr12 => 0xFF12,
            IoRegister::Nr13 => 0xFF13,
            IoRegister::Nr14 => 0xFF14,
            IoRegister::Nr21 => 0xFF16,
            IoRegister::Nr22 => 0xFF17,
            IoRegister::Nr23 => 0xFF18,
            IoRegister::Nr24 => 0xFF19,
            IoRegister::Nr30 => 0xFF1A,
            IoRegister::Nr31 => 0xFF1B,
            IoRegister::Nr32 => 0xFF1C,
            IoRegister::Nr33 => 0xFF1D,
            IoRegister::Nr34 => 0xFF1E,
            IoRegister::Nr41 => 0xFF20,
            IoRegister::Nr42 => 0xFF21,
            IoRegister::Nr43 => 0xFF22,
            IoRegister::Nr44 => 0xFF23,
            IoRegister::Nr50 => 0xFF24,
            IoRegister::Nr51 => 0xFF25,
            IoRegister::Nr52 => 0xFF26,
            IoRegister::WaveRamStart => 0xFF30,
            IoRegister::WaveRamEnd => 0xFF3F,
            IoRegister::Lcdc => 0xFF40,
            IoRegister::Stat => 0xFF41,
            IoRegister::Scy => 0xFF42,
            IoRegister::Scx => 0xFF43,
            IoRegister::Ly => 0xFF44,
            IoRegister::Lyc => 0xFF45,
            IoRegister::Dma => 0xFF46,
            IoRegister::Bgp => 0xFF47,
            IoRegister::Obp0 => 0xFF48,
            IoRegister::Obp1 => 0xFF49,
            IoRegister::Wy => 0xFF4A,
            IoRegister::Wx => 0xFF4B,
            IoRegister::Key1 => 0xFF4D,
            IoRegister::Vbk => 0xFF4F,
            IoRegister::Hdma1 => 0xFF51,
            IoRegister::Hdma2 => 0xFF52,
            IoRegister::Hdma3 => 0xFF53,
            IoRegister::Hdma4 => 0xFF54,
            IoRegister::Hdma5 => 0xFF55,
            IoRegister::Rp => 0xFF56,
            IoRegister::Bcps => 0xFF68,
            IoRegister::Bcpd => 0xFF69,
            IoRegister::Ocps => 0xFF6A,
            IoRegister::Ocpd => 0xFF6B,
            IoRegister::Opri => 0xFF6C,
            IoRegister::Svbk => 0xFF70,
            IoRegister::Pcm12 => 0xFF76,
            IoRegister::Pcm34 => 0xFF77,
        }
    }

    pub fn address(self) -> (r: u16)
        ensures
            r == self.spec_address(),
    {
        match self {
            IoRegister::Joyp => 0xFF00,
            IoRegister::Sb => 0xFF01,
            IoRegister::Sc => 0xFF02,
            IoRegister::Div => 0xFF04,
            IoRegister::Tima => 0xFF05,
            IoRegister::Tma => 0xFF06,
            IoRegister::Tac => 0xFF07,
            IoRegister::If => 0xFF0F,
            IoRegister::Ie => 0xFFFF,
            IoRegister::Nr10 => 0xFF10,
            IoRegister::Nr11 => 0xFF11,
            IoRegister::Nr12 => 0xFF12,
            IoRegister::Nr13 => 0xFF13,
            IoRegister::Nr14 => 0xFF14,
            IoRegister::Nr21 => 0xFF16,
            IoRegister::Nr22 => 0xFF17,
            IoRegister::Nr23 => 0xFF18,
            IoRegister::Nr24 => 0xFF19,
            IoRegister::Nr30 => 0xFF1A,
            IoRegister::Nr31 => 0xFF1B,
            IoRegister::Nr32 => 0xFF1C,
            IoRegister::Nr33 => 0xFF1D,
            IoRegister::Nr34 => 0xFF1E,
            IoRegister::Nr41 => 0xFF20,
            IoRegister::Nr42 => 0xFF21,
            IoRegister::Nr43 => 0xFF22,
            IoRegister::Nr44 => 0xFF23,
            IoRegister::Nr50 => 0xFF24,
            IoRegister::Nr51 => 0xFF25,
            IoRegister::Nr52 => 0xFF26,
            IoRegister::WaveRamStart => 0xFF30,
            IoRegister::WaveRamEnd => 0xFF3F,
            IoRegister::Lcdc => 0xFF40,
            IoRegister::Stat => 0xFF41,
            IoRegister::Scy => 0xFF42,
            IoRegister::Scx => 0xFF43,
            IoRegister::Ly => 0xFF44,
            IoRegister::Lyc => 0xFF45,
            IoRegister::Dma => 0xFF46,
            IoRegister::Bgp => 0xFF47,
            IoRegister::Obp0 => 0xFF48,
            IoRegister::Obp1 => 0xFF49,
            IoRegister::Wy => 0xFF4A,
            IoRegister::Wx => 0xFF4B,
            IoRegister::Key1 => 0xFF4D,
            IoRegister::Vbk => 0xFF4F,
            IoRegister::Hdma1 => 0xFF51,
            IoRegister::Hdma2 => 0xFF52,
            IoRegister::Hdma3 => 0xFF53,
            IoRegister::Hdma4 => 0xFF54,
            IoRegister::Hdma5 => 0xFF55,
            IoRegister::Rp => 0xFF56,
            IoRegister::Bcps => 0xFF68,
            IoRegister::Bcpd => 0xFF69,
            IoRegister::Ocps => 0xFF6A,
            IoRegister::Ocpd => 0xFF6B,
            IoRegister::Opri => 0xFF6C,
            IoRegister::Svbk => 0xFF70,
            IoRegister::Pcm12 => 0xFF76,
            IoRegister::Pcm34 => 0xFF77,
        }
    }
}

/// Distinct registers have distinct addresses.
pub proof fn lemma_io_addresses_distinct(a: IoRegister, b: IoRegister)
    requires
        a != b,
    ensures
        a.spec_address() != b.spec_address(),
{
}

} // verus!
