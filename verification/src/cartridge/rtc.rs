use vstd::prelude::*;

verus! {

/// T-cycles in one second of the real-time clock.
pub const RTC_CYCLES_PER_SECOND: usize = 4194304;

/// The MBC3 real-time clock: live counters and the copy latched for reading.
#[derive(Clone, Copy, Debug, PartialEq, Eq, Structural)]
pub struct Rtc {
    /// Seconds.
    pub s_reg: u8,
    /// Minutes.
    pub m_reg: u8,
    /// Hours.
    pub h_reg: u8,
    /// Day counter, low 8 bits.
    pub dl_reg: u8,
    /// Day counter bit 8 (bit 0), halt (bit 6) and day carry (bit 7).
    pub dh_reg: u8,
    pub cycles: usize,
    pub s_reg_latched: u8,
    pub m_reg_latched: u8,
    pub h_reg_latched: u8,
    pub dl_reg_latched: u8,
    pub dh_reg_latched: u8,
    pub is_latched: bool,
}

/// Advances the 9-bit day counter held in DL and bit 0 of DH.
fn next_day(dl: u8, dh: u8) -> (r: (u8, u8))
    ensures
        ({
            let day = (dh % 2) * 256 + dl + 1;
            let new_day = if day > 511 { 1 } else { day };
            r == ((new_day % 256) as u8, ((new_day / 256) + (dh & 0x7E)) as u8)
        }),
{
    proof {
        assert((((dh & 0x01) as u16) << 8) | (dl as u16) == (dh % 2) as u16 * 256 + dl as u16) by (bit_vector);
    }
    let mut day: u16 = (((dh & 0x01) as u16) << 8) | dl as u16;
    day += 1;
    let mut dh_new = dh;
    if day > 0x1FF {
        day = 1;
        dh_new = dh_new | 0x80;
    }
    proof {
        assert((day <= 0x1FF ==> (day & 0xFF) == day % 256)
            && (day <= 0x1FF ==> (((day >> 8) as u8) & 0x01) == (day / 256) as u8)
            && (dh | 0x80) & 0x7E == dh & 0x7E
            && (forall|x: u8| #![auto] x <= 1 ==> (x | (dh & 0x7E)) == x + (dh & 0x7E))) by (bit_vector);
    }
    let high = ((day >> 8) as u8) & 0x01;
    ((day & 0xFF) as u8, high | (dh_new & 0x7E))
}

impl Rtc {
    /// The counters stay in range: seconds and minutes below 60, hours below 24.
    pub open spec fn wf(self) -> bool {
        &&& self.s_reg < 60
        &&& self.m_reg < 60
        &&& self.h_reg < 24
        &&& self.cycles < RTC_CYCLES_PER_SECOND
    }

    pub open spec fn spec_new() -> Rtc {
        Rtc {
            s_reg: 0,
            m_reg: 0,
            h_reg: 0,
            dl_reg: 0,
            dh_reg: 0,
            cycles: 0,
            s_reg_latched: 0,
            m_reg_latched: 0,
            h_reg_latched: 0,
            dl_reg_latched: 0,
            dh_reg_latched: 0,
            is_latched: false,
        }
    }

    pub fn new() -> (r: Rtc)
        ensures
            r == Rtc::spec_new(),
            r.wf(),
    {
        Rtc {
            s_reg: 0,
            m_reg: 0,
            h_reg: 0,
            dl_reg: 0,
            dh_reg: 0,
            cycles: 0,
            s_reg_latched: 0,
            m_reg_latched: 0,
            h_reg_latched: 0,
            dl_reg_latched: 0,
            dh_reg_latched: 0,
            is_latched: false,
        }
    }

    /// Copies the live counters into the latched registers.
    pub fn latch(&mut self)
        ensures
            *final(self) == (Rtc {
                is_latched: true,
                s_reg_latched: old(self).s_reg,
                m_reg_latched: old(self).m_reg,
                h_reg_latched: old(self).h_reg,
                dl_reg_latched: old(self).dl_reg,
                dh_reg_latched: old(self).dh_reg,
                ..*old(self)
            }),
    {
        self.is_latched = true;
        self.s_reg_latched = self.s_reg;
        self.m_reg_latched = self.m_reg;
        self.h_reg_latched = self.h_reg;
        self.dl_reg_latched = self.dl_reg;
        self.dh_reg_latched = self.dh_reg;
    }

    /// The 9-bit day counter.
    pub open spec fn spec_day(self) -> int {
        (self.dh_reg % 2) * 256 + self.dl_reg
    }

    /// One T-cycle of the clock: after a full second the time advances by one second,
    /// carrying into minutes, hours and days; past day 511 the counter restarts at 1.
    /// A day rollover keeps the halt bit (bit 6) of DH and clears its bit 7.
    pub open spec fn spec_tick(self) -> Rtc {
        if self.cycles + 1 < RTC_CYCLES_PER_SECOND {
            Rtc { cycles: (self.cycles + 1) as usize, ..self }
        } else {
            let s = self.s_reg + 1;
            let m = if s == 60 { self.m_reg + 1 } else { self.m_reg as int };
            let h = if m == 60 { self.h_reg + 1 } else { self.h_reg as int };
            let day = if h == 24 { self.spec_day() + 1 } else { self.spec_day() };
            let new_day = if day > 511 { 1 } else { day };
            Rtc {
                cycles: 0,
                s_reg: (if s == 60 { 0 } else { s }) as u8,
                m_reg: (if m == 60 { 0 } else { m }) as u8,
                h_reg: (if h == 24 { 0 } else { h }) as u8,
                dl_reg: if h == 24 { (new_day % 256) as u8 } else { self.dl_reg },
                dh_reg: if h == 24 {
                    ((new_day / 256) + (self.dh_reg & 0x7E)) as u8
                } else {
                    self.dh_reg
                },
                ..self
            }
        }
    }

    pub fn tick(&mut self)
        requires
            old(self).wf(),
        ensures
            *final(self) == old(self).spec_tick(),
            final(self).wf(),
    {
        self.cycles += 1;
        if self.cycles < RTC_CYCLES_PER_SECOND {
            return;
        }
        self.cycles = 0;
        let s = self.s_reg + 1;
        proof { crate::bits::lemma_byte_bits(); }
        self.s_reg = s & 0x3F;
        if self.s_reg == 60 {
            self.s_reg = 0;
            let m = self.m_reg + 1;
            proof { crate::bits::lemma_byte_bits(); }
            self.m_reg = m & 0x3F;
        }
        if self.m_reg == 60 {
            self.m_reg = 0;
            let h = self.h_reg + 1;
            proof { crate::bits::lemma_byte_bits(); }
            self.h_reg = h & 0x1F;
        }
        if self.h_reg == 24 {
            self.h_reg = 0;
            let dh = self.dh_reg;
            let dl = self.dl_reg;
            let (dl_new, dh_new) = next_day(dl, dh);
            self.dl_reg = dl_new;
            self.dh_reg = dh_new;
        }
    }

    pub open spec fn spec_read(self, address: u8) -> u8 {
        if !self.is_latched {
            0xFF
        } else if address == 0x08 {
            self.s_reg_latched | 0xC0
        } else if address == 0x09 {
            self.m_reg_latched | 0xC0
        } else if address == 0x0A {
            self.h_reg_latched | 0xE0
        } else if address == 0x0B {
            self.dl_reg_latched
        } else if address == 0x0C {
            self.dh_reg_latched | 0x3E
        } else {
            0xFF
        }
    }

    /// Reads a latched register (0x08..0x0C); unused bits read as 1. Before the first latch, 0xFF.
    pub fn read(&self, address: u8) -> (r: u8)
        ensures
            r == self.spec_read(address),
    {
        if !self.is_latched {
            return 0xFF;
        }
        match address {
            0x08 => self.s_reg_latched | 0xC0,
            0x09 => self.m_reg_latched | 0xC0,
            0x0A => self.h_reg_latched | 0xE0,
            0x0B => self.dl_reg_latched,
            0x0C => self.dh_reg_latched | 0x3E,
            _ => 0xFF,
        }
    }

    pub open spec fn spec_write(self, address: u8, value: u8) -> Rtc {
        if address == 0x08 {
            Rtc { s_reg_latched: value & 0x3F, ..self }
        } else if address == 0x09 {
            Rtc { m_reg_latched: value & 0x3F, ..self }
        } else if address == 0x0A {
            Rtc { h_reg_latched: value & 0x1F, ..self }
        } else if address == 0x0B {
            Rtc { dl_reg_latched: value, ..self }
        } else if address == 0x0C {
            Rtc { dh_reg_latched: value & 0xC1, ..self }
        } else {
            self
        }
    }

    /// Writes a latched register, keeping only its defined bits.
    pub fn write(&mut self, address: u8, value: u8)
        ensures
            *final(self) == old(self).spec_write(address, value),
    {
        match address {
            0x08 => self.s_reg_latched = value & 0x3F,
            0x09 => self.m_reg_latched = value & 0x3F,
            0x0A => self.h_reg_latched = value & 0x1F,
            0x0B => self.dl_reg_latched = value,
            0x0C => self.dh_reg_latched = value & 0xC1,
            _ => {},
        }
    }
}

impl Rtc {
    /// The clock after `n` ticks.
    pub open spec fn spec_ticks(self, n: nat) -> Rtc
        decreases n,
    {
        if n == 0 { self } else { self.spec_ticks((n - 1) as nat).spec_tick() }
    }
}

/// Ticks that stay within the current second only count cycles.
proof fn lemma_ticks_within_second(r: Rtc, n: nat)
    requires
        r.cycles + n < RTC_CYCLES_PER_SECOND,
    ensures
        r.spec_ticks(n) == (Rtc { cycles: (r.cycles + n) as usize, ..r }),
    decreases n,
{
    if n > 0 {
        lemma_ticks_within_second(r, (n - 1) as nat);
    }
}

/// The clock counts seconds of RTC_CYCLES_PER_SECOND ticks: from the start of a second,
/// fewer ticks leave the time as it was, and exactly that many advance it by one second
/// (the seconds register goes up by one when below 59; minutes, hours and days stay).
pub proof fn lemma_one_second_per_rtc_cycles(r: Rtc, n: nat)
    requires
        r.wf(),
        r.cycles == 0,
    ensures
        n < RTC_CYCLES_PER_SECOND ==> r.spec_ticks(n) == (Rtc { cycles: n as usize, ..r }),
        r.spec_ticks(RTC_CYCLES_PER_SECOND as nat) == (Rtc { cycles: (RTC_CYCLES_PER_SECOND - 1) as usize, ..r }).spec_tick(),
        r.s_reg < 59 ==> r.spec_ticks(RTC_CYCLES_PER_SECOND as nat) == (Rtc { s_reg: (r.s_reg + 1) as u8, ..r }),
{
    if n < RTC_CYCLES_PER_SECOND {
        lemma_ticks_within_second(r, n);
    }
    lemma_ticks_within_second(r, (RTC_CYCLES_PER_SECOND - 1) as nat);
}

} // verus!
