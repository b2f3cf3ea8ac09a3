use vstd::prelude::*;

verus! {

/// The timer: DIV counts up every 256 T-cycles; TIMA counts at the rate TAC selects
/// while TAC bit 2 is set, and on overflow reloads from TMA and requests the timer interrupt.
#[derive(Clone, Copy, Debug, PartialEq, Eq, Structural)]
pub struct Timer {
    pub div_counter: usize,
    pub tima_counter: usize,
    pub rgs: TimerRegisters,
}

#[derive(Clone, Copy, Debug, PartialEq, Eq, Structural)]
pub struct TimerRegisters {
    pub div: u8,
    pub tima: u8,
    pub tma: u8,
    pub tac: u8,
}

/// The internal counters, as a save state keeps them.
#[derive(Clone, Copy, Debug, PartialEq, Eq, Structural)]
pub struct TimerState {
    pub div_counter: usize,
    pub tima_counter: usize,
}

/// T-cycles per TIMA increment for the clock-select bits of TAC.
pub open spec fn tima_period(tac: u8) -> usize {
    let sel = tac % 4;
    if sel == 0 { 1024 } else if sel == 1 { 16 } else if sel == 2 { 64 } else { 256 }
}

impl Timer {
    /// The counters can still be stepped.
    pub open spec fn wf(&self) -> bool {
        self.div_counter < usize::MAX && self.tima_counter < usize::MAX
    }

    pub open spec fn spec_new() -> Timer {
        Timer { div_counter: 0, tima_counter: 0, rgs: TimerRegisters { div: 0, tima: 0, tma: 0, tac: 0 } }
    }

    pub fn new() -> (r: Timer)
        ensures
            r == Timer::spec_new(),
            r.wf(),
    {
        Timer { div_counter: 0, tima_counter: 0, rgs: TimerRegisters { div: 0, tima: 0, tma: 0, tac: 0 } }
    }

    pub open spec fn spec_read_timer_register(&self, address: u16) -> u8 {
        if address == 0xFF04 { self.rgs.div }
        else if address == 0xFF05 { self.rgs.tima }
        else if address == 0xFF06 { self.rgs.tma }
        else if address == 0xFF07 { self.rgs.tac }
        else { 0xFF }
    }

    /// DIV, TIMA, TMA and TAC at 0xFF04-0xFF07; other addresses read 0xFF.
    pub fn read_timer_register(&self, address: u16) -> (r: u8)
        ensures
            r == self.spec_read_timer_register(address),
    {
        match address {
            0xFF04 => self.rgs.div,
            0xFF05 => self.rgs.tima,
            0xFF06 => self.rgs.tma,
            0xFF07 => self.rgs.tac,
            _ => 0xFF,
        }
    }

    pub open spec fn spec_write_timer_register(self, address: u16, value: u8) -> Timer {
        if address == 0xFF04 { Timer { rgs: TimerRegisters { div: value, ..self.rgs }, ..self } }
        else if address == 0xFF05 { Timer { rgs: TimerRegisters { tima: value, ..self.rgs }, ..self } }
        else if address == 0xFF06 { Timer { rgs: TimerRegisters { tma: value, ..self.rgs }, ..self } }
        else if address == 0xFF07 { Timer { rgs: TimerRegisters { tac: value, ..self.rgs }, ..self } }
        else { self }
    }

    pub fn write_timer_register(&mut self, address: u16, value: u8)
        ensures
            *final(self) == old(self).spec_write_timer_register(address, value),
    {
        match address {
            0xFF04 => self.rgs.div = value,
            0xFF05 => self.rgs.tima = value,
            0xFF06 => self.rgs.tma = value,
            0xFF07 => self.rgs.tac = value,
            _ => {},
        }
    }

    pub fn save_state(&self) -> (r: TimerState)
        ensures
            r == (TimerState { div_counter: self.div_counter, tima_counter: self.tima_counter }),
    {
        TimerState { div_counter: self.div_counter, tima_counter: self.tima_counter }
    }

    /// Restores the counters; the registers are kept as they are.
    pub fn load_state(&mut self, state: TimerState)
        ensures
            *final(self) == (Timer {
                div_counter: state.div_counter,
                tima_counter: state.tima_counter,
                ..*old(self)
            }),
    {
        self.div_counter = state.div_counter;
        self.tima_counter = state.tima_counter;
    }

    pub open spec fn spec_div_step(self) -> Timer {
        if self.div_counter + 1 >= 256 {
            Timer { div_counter: 0, rgs: TimerRegisters { div: self.rgs.div.wrapping_add(1), ..self.rgs }, ..self }
        } else {
            Timer { div_counter: (self.div_counter + 1) as usize, ..self }
        }
    }

    /// The timer after one TIMA step, and whether TIMA overflowed.
    pub open spec fn spec_tima_step(self) -> (Timer, bool) {
        if self.rgs.tac & 0b0000_0100 == 0 {
            (self, false)
        } else if self.tima_counter + 1 >= tima_period(self.rgs.tac) {
            let t = self.rgs.tima.wrapping_add(1);
            if t == 0 {
                (Timer { tima_counter: 0, rgs: TimerRegisters { tima: self.rgs.tma, ..self.rgs }, ..self }, true)
            } else {
                (Timer { tima_counter: 0, rgs: TimerRegisters { tima: t, ..self.rgs }, ..self }, false)
            }
        } else {
            (Timer { tima_counter: (self.tima_counter + 1) as usize, ..self }, false)
        }
    }

    fn increment_div(&mut self)
        requires
            old(self).wf(),
        ensures
            *final(self) == old(self).spec_div_step(),
    {
        self.div_counter += 1;
        if self.div_counter >= 256 {
            self.div_counter = 0;
            self.rgs.div = self.rgs.div.wrapping_add(1);
        }
    }

    fn get_tima_frequency(&self) -> (r: usize)
        ensures
            r == tima_period(self.rgs.tac),
    {
        let tac = self.rgs.tac;
        proof { assert(tac & 0x03 == tac % 4) by { crate::bits::lemma_byte_bits(); crate::bits::lemma_word_bits(); } }
        match self.rgs.tac & 0x03 {
            0 => 1024,
            1 => 16,
            2 => 64,
            _ => 256,
        }
    }

    fn increment_tima(&mut self) -> (r: bool)
        requires
            old(self).wf(),
        ensures
            (*final(self), r) == old(self).spec_tima_step(),
    {
        if (self.rgs.tac & 0b0000_0100) == 0 {
            return false;
        }
        let frequency = self.get_tima_frequency();
        self.tima_counter += 1;
        if self.tima_counter >= frequency {
            self.tima_counter = 0;
            self.rgs.tima = self.rgs.tima.wrapping_add(1);
            if self.rgs.tima == 0 {
                self.rgs.tima = self.rgs.tma;
                return true;
            }
        }
        false
    }

    /// The timer after one T-cycle, and the interrupt-request bits it raises
    /// (0b100 when TIMA overflowed, else 0).
    pub open spec fn spec_tick(self) -> (Timer, u8) {
        let (t, overflow) = self.spec_div_step().spec_tima_step();
        (t, if overflow { 0b0000_0100u8 } else { 0 })
    }

    /// Advances the timer by one T-cycle and returns the interrupt-request bits.
    pub fn tick(&mut self) -> (r: u8)
        requires
            old(self).wf(),
        ensures
            (*final(self), r) == old(self).spec_tick(),
            final(self).wf(),
    {
        let mut interrupts: u8 = 0;
        self.increment_div();
        if self.increment_tima() {
            interrupts = 0b0000_0100;
        }
        interrupts
    }
}


/// Restoring the timer's counters from its own save gives the timer back.
pub proof fn lemma_timer_save_load_roundtrip(t: Timer, st: TimerState, r: Timer)
    requires
        st == (TimerState { div_counter: t.div_counter, tima_counter: t.tima_counter }),
        r == (Timer { div_counter: st.div_counter, tima_counter: st.tima_counter, ..t }),
    ensures
        r == t,
{
}

/// A read of a timer register (0xFF04-0xFF07) gives the value last written to it, and a
/// write leaves the other registers as they were.
pub proof fn lemma_timer_register_read_after_write(t: Timer, address: u16, value: u8, other: u16)
    requires
        0xFF04 <= address <= 0xFF07,
    ensures
        t.spec_write_timer_register(address, value).spec_read_timer_register(address) == value,
        other != address ==> t.spec_write_timer_register(address, value).spec_read_timer_register(other)
            == t.spec_read_timer_register(other),
{
}

impl Timer {
    /// The timer after `n` T-cycles.
    pub open spec fn spec_ticks(self, n: nat) -> Timer
        decreases n,
    {
        if n == 0 { self } else { self.spec_ticks((n - 1) as nat).spec_tick().0 }
    }
}

/// Within one TIMA period from a zero counter, ticks only count: TIMA, TMA and TAC stay.
proof fn lemma_ticks_within_tima_period(t: Timer, k: nat)
    requires
        t.wf(),
        t.rgs.tac & 0b0000_0100 != 0,
        t.tima_counter == 0,
        k < tima_period(t.rgs.tac),
    ensures
        t.spec_ticks(k).wf(),
        t.spec_ticks(k).tima_counter == k,
        t.spec_ticks(k).rgs.tima == t.rgs.tima,
        t.spec_ticks(k).rgs.tma == t.rgs.tma,
        t.spec_ticks(k).rgs.tac == t.rgs.tac,
    decreases k,
{
    if k > 0 {
        lemma_ticks_within_tima_period(t, (k - 1) as nat);
    }
}

/// TIMA counts at the rate TAC selects from the 4194304 Hz clock: 4096 Hz, 262144 Hz,
/// 65536 Hz or 16384 Hz for clock select 0, 1, 2, 3. With the timer enabled and its counter
/// at 0, TIMA stays as it is (and no interrupt is requested) for fewer ticks than one period
/// of that rate; after exactly one period it has risen by one, or, from 0xFF, it is reloaded
/// from TMA and the last tick requests the timer interrupt (bit 2).
pub proof fn lemma_tima_counts_at_selected_rate(t: Timer, n: nat)
    requires
        t.wf(),
        t.rgs.tac & 0b0000_0100 != 0,
        t.tima_counter == 0,
    ensures
        ({
            let sel = t.rgs.tac % 4;
            let hz: int = if sel == 0 { 4096 } else if sel == 1 { 262144 } else if sel == 2 { 65536 } else { 16384 };
            let period: int = 4194304int / hz;
            let last = t.spec_ticks((period - 1) as nat).spec_tick();
            &&& n < period ==> t.spec_ticks(n).rgs.tima == t.rgs.tima
            &&& 0 < n < period ==> t.spec_ticks((n - 1) as nat).spec_tick().1 == 0
            &&& t.spec_ticks(period as nat) == last.0
            &&& last.0.tima_counter == 0
            &&& t.rgs.tima < 0xFF ==> last.0.rgs.tima == t.rgs.tima + 1 && last.1 == 0
            &&& t.rgs.tima == 0xFF ==> last.0.rgs.tima == t.rgs.tma && last.1 == 0b0000_0100
        }),
{
    let sel = t.rgs.tac % 4;
    let hz: int = if sel == 0 { 4096 } else if sel == 1 { 262144 } else if sel == 2 { 65536 } else { 16384 };
    let period: int = 4194304int / hz;
    assert(period == tima_period(t.rgs.tac));
    if n < period {
        lemma_ticks_within_tima_period(t, n);
    }
    if 0 < n < period {
        lemma_ticks_within_tima_period(t, (n - 1) as nat);
    }
    lemma_ticks_within_tima_period(t, (period - 1) as nat);
}

} // verus!
