use vstd::prelude::*;
use crate::bus::{is_plain_storage, unecho, Bus, MemoryInterface};
use crate::cpu::CPU;
use crate::flags::Flags;
use crate::gameboy::{spec_cycles, spec_write_all, Gameboy};

verus! {

// ---------------------------------------------------------------------------------------
// Trace logs: one processor state per line, compared step by step with a running machine.
// ---------------------------------------------------------------------------------------

/// A processor state as a trace log records it: the registers and the four bytes at PC.
#[derive(Debug, Clone, Copy, PartialEq, Eq)]
pub struct CPUState {
    pub a: u8,
    pub b: u8,
    pub c: u8,
    pub d: u8,
    pub e: u8,
    pub h: u8,
    pub l: u8,
    pub f: u8,
    pub sp: u16,
    pub pc: u16,
    pub mem: [u8; 4],
}

/// The length of a trace-log record.
pub const LOG_RECORD_LEN: usize = 82;

/// The layout of a trace-log record,
/// "A: ## F: ## B: ## C: ## D: ## E: ## H: ## L: ## SP: #### PC: ##:#### (## ## ## ##)",
/// where each '#' (35) stands for an upper-case hexadecimal digit.
pub open spec fn log_layout() -> Seq<u8> {
    seq![65u8, 58u8, 32u8, 35u8, 35u8, 32u8, 70u8, 58u8, 32u8, 35u8, 35u8, 32u8, 66u8, 58u8, 32u8, 35u8, 35u8, 32u8, 67u8, 58u8, 32u8, 35u8, 35u8, 32u8, 68u8, 58u8, 32u8, 35u8, 35u8, 32u8, 69u8, 58u8, 32u8, 35u8, 35u8, 32u8, 72u8, 58u8, 32u8, 35u8, 35u8, 32u8, 76u8, 58u8, 32u8, 35u8, 35u8, 32u8, 83u8, 80u8, 58u8, 32u8, 35u8, 35u8, 35u8, 35u8, 32u8, 80u8, 67u8, 58u8, 32u8, 35u8, 35u8, 58u8, 35u8, 35u8, 35u8, 35u8, 32u8, 40u8, 35u8, 35u8, 32u8, 35u8, 35u8, 32u8, 35u8, 35u8, 32u8, 35u8, 35u8, 41u8]
}

pub open spec fn is_upper_hex(c: u8) -> bool {
    (48 <= c <= 57) || (65 <= c <= 70)
}

/// The value of an upper-case hexadecimal digit.
pub open spec fn hex_value(c: u8) -> int {
    if c <= 57 { c - 48 } else { c - 55 }
}

/// The offsets of a record that hold hexadecimal digits (the '#' of the layout).
pub open spec fn is_hex_slot(k: int) -> bool {
    (3 <= k < 5) || (9 <= k < 11) || (15 <= k < 17) || (21 <= k < 23) || (27 <= k < 29) || (33 <= k < 35)
        || (39 <= k < 41) || (45 <= k < 47) || (52 <= k < 56) || (61 <= k < 63) || (64 <= k < 68)
        || (70 <= k < 72) || (73 <= k < 75) || (76 <= k < 78) || (79 <= k < 81)
}

/// Whether a record starts at offset `i` of `line`.
pub open spec fn matches_at(line: Seq<u8>, i: int) -> bool {
    &&& 0 <= i
    &&& i + LOG_RECORD_LEN <= line.len()
    &&& forall|k: int|
        0 <= k < LOG_RECORD_LEN ==> if is_hex_slot(k) {
            is_upper_hex(#[trigger] line[i + k])
        } else {
            line[i + k] == log_layout()[k]
        }
}

/// The number written with `n` hexadecimal digits at `p`.
pub open spec fn hex_at(line: Seq<u8>, p: int, n: nat) -> int
    decreases n,
{
    if n == 0 { 0 } else { hex_at(line, p, (n - 1) as nat) * 16 + hex_value(line[p + n - 1]) }
}

/// The state recorded at offset `i`.
pub open spec fn state_at(line: Seq<u8>, i: int) -> CPUState {
    CPUState {
        a: hex_at(line, i + 3, 2) as u8,
        f: hex_at(line, i + 9, 2) as u8,
        b: hex_at(line, i + 15, 2) as u8,
        c: hex_at(line, i + 21, 2) as u8,
        d: hex_at(line, i + 27, 2) as u8,
        e: hex_at(line, i + 33, 2) as u8,
        h: hex_at(line, i + 39, 2) as u8,
        l: hex_at(line, i + 45, 2) as u8,
        sp: hex_at(line, i + 52, 4) as u16,
        pc: hex_at(line, i + 64, 4) as u16,
        mem: [
            hex_at(line, i + 70, 2) as u8,
            hex_at(line, i + 73, 2) as u8,
            hex_at(line, i + 76, 2) as u8,
            hex_at(line, i + 79, 2) as u8,
        ],
    }
}

fn layout() -> (r: [u8; 82])
    ensures
        r@ == log_layout(),
{
    let r: [u8; 82] = [65u8, 58u8, 32u8, 35u8, 35u8, 32u8, 70u8, 58u8, 32u8, 35u8, 35u8, 32u8, 66u8, 58u8, 32u8, 35u8, 35u8, 32u8, 67u8, 58u8, 32u8, 35u8, 35u8, 32u8, 68u8, 58u8, 32u8, 35u8, 35u8, 32u8, 69u8, 58u8, 32u8, 35u8, 35u8, 32u8, 72u8, 58u8, 32u8, 35u8, 35u8, 32u8, 76u8, 58u8, 32u8, 35u8, 35u8, 32u8, 83u8, 80u8, 58u8, 32u8, 35u8, 35u8, 35u8, 35u8, 32u8, 80u8, 67u8, 58u8, 32u8, 35u8, 35u8, 58u8, 35u8, 35u8, 35u8, 35u8, 32u8, 40u8, 35u8, 35u8, 32u8, 35u8, 35u8, 32u8, 35u8, 35u8, 32u8, 35u8, 35u8, 41u8];
    assert(r@ =~= log_layout());
    r
}

fn hex_digit(c: u8) -> (r: u8)
    requires
        is_upper_hex(c),
    ensures
        r == hex_value(c),
        r < 16,
{
    if c <= 57 { c - 48 } else { c - 55 }
}

fn hex_number(line: &[u8], p: usize, n: usize) -> (r: u16)
    requires
        n <= 4,
        p + n <= line@.len(),
        forall|k: int| p <= k < p + n ==> is_upper_hex(#[trigger] line@[k]),
    ensures
        r == hex_at(line@, p as int, n as nat),
{
    let len = line.len();
    let mut v: u16 = 0;
    let mut k: usize = 0;
    while k < n
        invariant
            len == line@.len(),
            k <= n <= 4,
            p + n <= line@.len(),
            forall|j: int| p <= j < p + n ==> is_upper_hex(#[trigger] line@[j]),
            v == hex_at(line@, p as int, k as nat),
            v < pow16(k as nat),
        decreases n - k,
    {
        let d = hex_digit(line[p + k]);
        proof {
            assert(pow16((k + 1) as nat) == pow16(k as nat) * 16);
            assert(v * 16 + d < pow16((k + 1) as nat)) by (nonlinear_arith)
                requires v < pow16(k as nat), d < 16, pow16((k + 1) as nat) == pow16(k as nat) * 16;
            assert(pow16((k + 1) as nat) <= 65536) by {
                reveal_with_fuel(pow16, 5);
            }
        }
        v = v * 16 + d as u16;
        k += 1;
    }
    v
}

/// 16 to the power n.
pub open spec fn pow16(n: nat) -> int
    decreases n,
{
    if n == 0 { 1 } else { 16 * pow16((n - 1) as nat) }
}

fn matches_at_exec(line: &[u8], layout: &[u8; 82], i: usize) -> (r: bool)
    requires
        layout@ == log_layout(),
        i + LOG_RECORD_LEN <= line@.len(),
    ensures
        r == matches_at(line@, i as int),
{
    let len = line.len();
    let mut k: usize = 0;
    while k < LOG_RECORD_LEN
        invariant
            k <= LOG_RECORD_LEN,
            len == line@.len(),
            layout@ == log_layout(),
            i + LOG_RECORD_LEN <= line@.len(),
            forall|j: int|
                0 <= j < k ==> if is_hex_slot(j) {
                    is_upper_hex(#[trigger] line@[i + j])
                } else {
                    line@[i + j] == log_layout()[j]
                },
        decreases LOG_RECORD_LEN - k,
    {
        let c = line[i + k];
        let hex_slot = (3 <= k && k < 5) || (9 <= k && k < 11) || (15 <= k && k < 17) || (21 <= k && k < 23)
            || (27 <= k && k < 29) || (33 <= k && k < 35) || (39 <= k && k < 41) || (45 <= k && k < 47)
            || (52 <= k && k < 56) || (61 <= k && k < 63) || (64 <= k && k < 68) || (70 <= k && k < 72)
            || (73 <= k && k < 75) || (76 <= k && k < 78) || (79 <= k && k < 81);
        let ok = if hex_slot { (48 <= c && c <= 57) || (65 <= c && c <= 70) } else { c == layout[k] };
        if !ok {
            return false;
        }
        k += 1;
    }
    true
}

/// The state recorded in a trace-log line: the first record found in it, if any.
pub fn parse_log_line(line: &[u8]) -> (r: Option<CPUState>)
    ensures
        r is None <==> forall|i: int| !matches_at(line@, i),
        r matches Some(s) ==> exists|i: int|
            matches_at(line@, i) && (forall|j: int| 0 <= j < i ==> !matches_at(line@, j)) && s == state_at(line@, i),
{
    if line.len() < LOG_RECORD_LEN {
        return None;
    }
    let lay = layout();
    let len = line.len();
    let last = len - LOG_RECORD_LEN;
    let mut i: usize = 0;
    while i <= last
        invariant
            len == line@.len(),
            last + LOG_RECORD_LEN == line@.len(),
            lay@ == log_layout(),
            forall|j: int| 0 <= j < i ==> !matches_at(line@, j),
        decreases last + 1 - i,
    {
        if matches_at_exec(line, &lay, i) {
            proof {
                assert forall|k: int| #![auto] i + 3 <= k < i + 5 || i + 9 <= k < i + 11 || i + 15 <= k < i + 17
                    || i + 21 <= k < i + 23 || i + 27 <= k < i + 29 || i + 33 <= k < i + 35 || i + 39 <= k < i + 41
                    || i + 45 <= k < i + 47 || i + 52 <= k < i + 56 || i + 64 <= k < i + 68 || i + 70 <= k < i + 72
                    || i + 73 <= k < i + 75 || i + 76 <= k < i + 78 || i + 79 <= k < i + 81 implies is_upper_hex(line@[k]) by {
                    let k2 = k - i;
                    assert(is_hex_slot(k2));
                    assert(is_upper_hex(line@[i + k2]));
                }
                assert(forall|j: int| 0 <= j < i + 1 ==> !matches_at(line@, j) || j == i);
            }
            let s = CPUState {
                a: hex_number(line, i + 3, 2) as u8,
                f: hex_number(line, i + 9, 2) as u8,
                b: hex_number(line, i + 15, 2) as u8,
                c: hex_number(line, i + 21, 2) as u8,
                d: hex_number(line, i + 27, 2) as u8,
                e: hex_number(line, i + 33, 2) as u8,
                h: hex_number(line, i + 39, 2) as u8,
                l: hex_number(line, i + 45, 2) as u8,
                sp: hex_number(line, i + 52, 4),
                pc: hex_number(line, i + 64, 4),
                mem: [
                    hex_number(line, i + 70, 2) as u8,
                    hex_number(line, i + 73, 2) as u8,
                    hex_number(line, i + 76, 2) as u8,
                    hex_number(line, i + 79, 2) as u8,
                ],
            };
            assert(s == state_at(line@, i as int));
            return Some(s);
        }
        i += 1;
    }
    None
}


/// The offset of the first line break (10) in `t`, or its length.
pub open spec fn first_newline(t: Seq<u8>) -> int
    decreases t.len(),
{
    if t.len() == 0 {
        0
    } else if t[0] == 10 {
        0
    } else {
        1 + first_newline(t.drop_first())
    }
}

pub proof fn lemma_first_newline(t: Seq<u8>, e: int)
    requires
        0 <= e <= t.len(),
        forall|j: int| 0 <= j < e ==> #[trigger] t[j] != 10,
        e == t.len() || t[e] == 10,
    ensures
        first_newline(t) == e,
    decreases e,
{
    if e > 0 {
        let u = t.drop_first();
        assert forall|j: int| 0 <= j < e - 1 implies #[trigger] u[j] != 10 by {
            assert(u[j] == t[j + 1]);
        }
        lemma_first_newline(u, e - 1);
    }
}

/// The record of a line, if it has one, as a sequence of at most one state.
#[verifier::opaque]
pub open spec fn line_states(line: Seq<u8>) -> Seq<CPUState> {
    if exists|i: int| matches_at(line, i) {
        let i = choose|i: int| matches_at(line, i) && forall|j: int| 0 <= j < i ==> !matches_at(line, j);
        seq![state_at(line, i)]
    } else {
        Seq::empty()
    }
}

/// The states a trace log records, line by line (lines end at a line break, 10).
#[verifier::opaque]
pub open spec fn log_states(t: Seq<u8>) -> Seq<CPUState>
    decreases t.len(),
{
    if t.len() == 0 {
        Seq::empty()
    } else {
        let e = first_newline(t);
        if 0 <= e < t.len() {
            line_states(t.subrange(0, e)) + log_states(t.skip(e + 1))
        } else {
            line_states(t)
        }
    }
}

/// The first record of a line is unique.
proof fn lemma_first_match_unique(line: Seq<u8>, i: int, k: int)
    requires
        matches_at(line, i),
        forall|j: int| 0 <= j < i ==> !matches_at(line, j),
        matches_at(line, k),
        forall|j: int| 0 <= j < k ==> !matches_at(line, j),
    ensures
        i == k,
{
    if i < k {
        assert(!matches_at(line, i));
    } else if k < i {
        assert(!matches_at(line, k));
    }
}

/// The end of the line that starts at `start`: the next line break, or the end of the text.
fn line_end(log: &[u8], start: usize) -> (end: usize)
    requires
        start < log@.len(),
    ensures
        start <= end <= log@.len(),
        end - start == first_newline(log@.skip(start as int)),
{
    let n = log.len();
    let mut end = start;
    while end < n && log[end] != 10
        invariant
            start <= end <= n,
            n == log@.len(),
            forall|j: int| start <= j < end ==> log@[j] != 10,
        decreases n - end,
    {
        end += 1;
    }
    proof {
        let rest = log@.skip(start as int);
        assert forall|j: int| 0 <= j < end - start implies #[trigger] rest[j] != 10 by {
            assert(rest[j] == log@[start + j]);
        }
        if end < n {
            assert(rest[end - start] == log@[end as int]);
        }
        lemma_first_newline(rest, end - start);
    }
    end
}

/// The record of one line, as `line_states` describes it.
fn line_record(line: &[u8]) -> (r: Option<CPUState>)
    ensures
        line_states(line@) == (match r {
            Some(s) => seq![s],
            None => Seq::<CPUState>::empty(),
        }),
{
    let parsed = parse_log_line(line);
    proof {
        reveal(line_states);
        match parsed {
            Some(s) => {
                let i = choose|i: int|
                    matches_at(line@, i) && (forall|j: int| 0 <= j < i ==> !matches_at(line@, j)) && s == state_at(line@, i);
                let k = choose|k: int| matches_at(line@, k) && forall|j: int| 0 <= j < k ==> !matches_at(line@, j);
                lemma_first_match_unique(line@, i, k);
            },
            None => {},
        }
    }
    parsed
}

/// One line of a log: its record, then the rest of the log.
proof fn lemma_log_step(t: Seq<u8>, e: int)
    requires
        t.len() > 0,
        e == first_newline(t),
    ensures
        e < t.len() ==> log_states(t) == line_states(t.subrange(0, e)) + log_states(t.skip(e + 1)),
        e >= t.len() ==> log_states(t) == line_states(t),
{
    reveal(log_states);
    lemma_first_newline_bound(t);
}

proof fn lemma_first_newline_bound(t: Seq<u8>)
    ensures
        0 <= first_newline(t) <= t.len(),
    decreases t.len(),
{
    if t.len() > 0 {
        lemma_first_newline_bound(t.drop_first());
    }
}

/// Compares a running machine with a trace log, one processor step at a time.
pub struct TestHarness {
    pub expected_states: Vec<CPUState>,
    pub current_state: usize,
}

/// Why a harness step did not advance.
#[derive(Debug, Clone, Copy, PartialEq, Eq, Structural)]
pub enum HarnessError {
    /// Every logged state has been matched.
    Completed,
    /// The machine's state differs from the logged one.
    Mismatch,
}

/// The state the machine shows a trace log: registers, flags and the four bytes at PC.
pub open spec fn spec_current_state(gb: Gameboy) -> CPUState {
    CPUState {
        a: gb.cpu.a,
        b: gb.cpu.b,
        c: gb.cpu.c,
        d: gb.cpu.d,
        e: gb.cpu.e,
        h: gb.cpu.h,
        l: gb.cpu.l,
        f: gb.cpu.f.spec_bits(),
        sp: gb.cpu.sp,
        pc: gb.cpu.pc,
        mem: [
            gb.bus.spec_read_byte(gb.cpu.pc),
            gb.bus.spec_read_byte(gb.cpu.pc.wrapping_add(1)),
            gb.bus.spec_read_byte(gb.cpu.pc.wrapping_add(2)),
            gb.bus.spec_read_byte(gb.cpu.pc.wrapping_add(3)),
        ],
    }
}

fn same_state(x: &CPUState, y: &CPUState) -> (r: bool)
    ensures
        r == (*x == *y),
{
    let r = x.a == y.a && x.b == y.b && x.c == y.c && x.d == y.d && x.e == y.e && x.h == y.h && x.l == y.l
        && x.f == y.f && x.sp == y.sp && x.pc == y.pc && x.mem[0] == y.mem[0] && x.mem[1] == y.mem[1]
        && x.mem[2] == y.mem[2] && x.mem[3] == y.mem[3];
    proof {
        if r {
            assert(x.mem =~= y.mem) by {
                broadcast use vstd::array::axiom_array_ext_equal;
            }
        }
    }
    r
}

impl TestHarness {
    /// A harness for the states recorded in the text of a trace log.
    pub fn new(log: &[u8]) -> (r: TestHarness)
        ensures
            r.expected_states@ == log_states(log@),
            r.current_state == 0,
    {
        let n = log.len();
        let mut states: Vec<CPUState> = Vec::new();
        let mut start: usize = 0;
        assert(log@.skip(0) =~= log@);
        assert(states@ + log_states(log@) =~= log_states(log@));
        while start < n
            invariant
                start <= n,
                n == log@.len(),
                states@ + log_states(log@.skip(start as int)) == log_states(log@),
            decreases n - start,
        {
            let ghost rest = log@.skip(start as int);
            let end = line_end(log, start);
            let line = vstd::slice::slice_subrange(log, start, end);
            let parsed = line_record(line);
            proof {
                assert(line@ =~= rest.subrange(0, end - start));
                lemma_log_step(rest, end - start);
            }
            let ghost before = states@;
            if let Some(s) = parsed {
                states.push(s);
            }
            let next = if end < n { end + 1 } else { n };
            proof {
                if end < n {
                    assert(log@.skip(next as int) =~= rest.skip(end - start + 1));
                } else {
                    assert(rest =~= rest.subrange(0, end - start));
                    assert(log@.skip(next as int) =~= Seq::<u8>::empty());
                    reveal(log_states);
                    assert(log_states(log@.skip(next as int)) =~= Seq::<CPUState>::empty());
                }
                assert(states@ + log_states(log@.skip(next as int)) =~= before + log_states(rest));
            }
            start = next;
        }
        proof {
            assert(log@.skip(start as int) =~= Seq::<u8>::empty());
            reveal(log_states);
            assert(states@ =~= states@ + log_states(log@.skip(start as int)));
        }
        TestHarness { expected_states: states, current_state: 0 }
    }

    /// The machine's state as a trace log shows it.
    pub fn get_current_state(&self, gb: &Gameboy) -> (r: CPUState)
        requires
            gb.wf(),
        ensures
            r == spec_current_state(*gb),
    {
        CPUState {
            a: gb.cpu.a,
            b: gb.cpu.b,
            c: gb.cpu.c,
            d: gb.cpu.d,
            e: gb.cpu.e,
            h: gb.cpu.h,
            l: gb.cpu.l,
            f: gb.cpu.f.bits(),
            sp: gb.cpu.sp,
            pc: gb.cpu.pc,
            mem: [
                gb.bus.read_byte(gb.cpu.pc),
                gb.bus.read_byte(gb.cpu.pc.wrapping_add(1)),
                gb.bus.read_byte(gb.cpu.pc.wrapping_add(2)),
                gb.bus.read_byte(gb.cpu.pc.wrapping_add(3)),
            ],
        }
    }

    /// Checks the machine against the next logged state: past the end of the log the run is
    /// complete; on a match the harness moves to the next state; otherwise it stays.
    pub fn step(&mut self, gb: &Gameboy) -> (r: Result<(), HarnessError>)
        requires
            gb.wf(),
        ensures
            final(self).expected_states@ == old(self).expected_states@,
            old(self).current_state >= old(self).expected_states@.len() ==> r == Err::<(), HarnessError>(
                HarnessError::Completed,
            ) && final(self).current_state == old(self).current_state,
            old(self).current_state < old(self).expected_states@.len() ==> {
                let matches = old(self).expected_states@[old(self).current_state as int] == spec_current_state(*gb);
                &&& matches ==> r == Ok::<(), HarnessError>(()) && final(self).current_state == old(self).current_state + 1
                &&& !matches ==> r == Err::<(), HarnessError>(HarnessError::Mismatch)
                    && final(self).current_state == old(self).current_state
            },
    {
        if self.current_state >= self.expected_states.len() {
            return Err(HarnessError::Completed);
        }
        let actual = self.get_current_state(gb);
        let expected = self.expected_states[self.current_state];
        if !same_state(&actual, &expected) {
            return Err(HarnessError::Mismatch);
        }
        self.current_state += 1;
        Ok(())
    }

    pub fn total_states(&self) -> (r: usize)
        ensures
            r == self.expected_states@.len(),
    {
        self.expected_states.len()
    }
}


// ---------------------------------------------------------------------------------------
// Single-step tests: a processor state and RAM contents before and after one instruction.
// ---------------------------------------------------------------------------------------

/// A processor state of a single-step test: registers, IME, EI and the listed RAM bytes as
/// (address, value) pairs.
#[derive(Debug, Clone)]
pub struct SingleStepState {
    pub pc: u16,
    pub sp: u16,
    pub a: u8,
    pub b: u8,
    pub c: u8,
    pub d: u8,
    pub e: u8,
    pub f: u8,
    pub h: u8,
    pub l: u8,
    pub ime: u8,
    pub ei: u8,
    pub ram: Vec<[u16; 2]>,
}

/// The first difference found between the machine and an expected state.
#[allow(inconsistent_fields)]
#[derive(Debug, Clone, Copy, PartialEq, Eq, Structural)]
pub enum StateMismatch {
    Pc { expected: u16, actual: u16 },
    Sp { expected: u16, actual: u16 },
    A { expected: u8, actual: u8 },
    B { expected: u8, actual: u8 },
    C { expected: u8, actual: u8 },
    D { expected: u8, actual: u8 },
    E { expected: u8, actual: u8 },
    F { expected: u8, actual: u8 },
    H { expected: u8, actual: u8 },
    L { expected: u8, actual: u8 },
    Ime { expected: u8, actual: u8 },
    Ram { address: u16, expected: u16, actual: u8 },
}

/// One bus cycle listed by a single-step test: the address and data seen, and the kind of
/// access.
#[derive(Debug, Clone)]
pub struct CycleState {
    pub address: Option<u16>,
    pub data: Option<u8>,
    pub bus_state: String,
}

/// A single-step test: a name, the state before and after one instruction, and the bus
/// cycles it takes.
#[derive(Debug, Clone)]
pub struct CPUTest {
    pub name: String,
    pub initial: SingleStepState,
    pub final_state: SingleStepState,
    pub cycles: Vec<CycleState>,
}

/// Why a single-step test failed.
#[derive(Debug, Clone, Copy, PartialEq, Eq, Structural)]
pub enum CaseFailure {
    /// The instruction at PC is one the processor does not define.
    Undefined,
    /// The machine's final state differs from the expected one.
    Mismatch(StateMismatch),
}

/// The machine with a test's initial state installed (see `Gameboy::init_cpu_state`).
pub open spec fn spec_installed(g: Gameboy, initial: SingleStepState) -> Gameboy {
    Gameboy {
        cpu: CPU {
            pc: initial.pc,
            sp: initial.sp,
            a: initial.a,
            b: initial.b,
            c: initial.c,
            d: initial.d,
            e: initial.e,
            f: Flags::spec_from_bits(initial.f),
            h: initial.h,
            l: initial.l,
            ime: initial.ime != 0,
            ..g.cpu
        },
        bus: spec_write_all(g.bus, ram_writes(initial.ram@)),
        ppu: g.ppu,
    }
}

/// The RAM entries of a test state as bus writes (values cut to a byte).
pub open spec fn ram_writes(ram: Seq<[u16; 2]>) -> Seq<(u16, u8)> {
    Seq::new(ram.len(), |i: int| (ram[i]@[0], ram[i]@[1] as u8))
}

/// The index of the first RAM entry whose byte the bus does not hold, or the length.
pub open spec fn first_ram_mismatch(bus: Bus, ram: Seq<[u16; 2]>) -> int
    decreases ram.len(),
{
    if ram.len() == 0 {
        0
    } else if bus.spec_read_byte(ram[0]@[0]) != ram[0]@[1] as u8 {
        0
    } else {
        1 + first_ram_mismatch(bus, ram.drop_first())
    }
}

proof fn lemma_first_ram_mismatch(bus: Bus, ram: Seq<[u16; 2]>, i: int)
    requires
        0 <= i <= ram.len(),
        forall|j: int| 0 <= j < i ==> bus.spec_read_byte(#[trigger] ram[j]@[0]) == ram[j]@[1] as u8,
        i == ram.len() || bus.spec_read_byte(ram[i]@[0]) != ram[i]@[1] as u8,
    ensures
        first_ram_mismatch(bus, ram) == i,
    decreases i,
{
    if i > 0 {
        let t = ram.drop_first();
        assert(bus.spec_read_byte(ram[0]@[0]) == ram[0]@[1] as u8);
        assert forall|j: int| 0 <= j < i - 1 implies bus.spec_read_byte(#[trigger] t[j]@[0]) == t[j]@[1] as u8 by {
            assert(t[j] == ram[j + 1]);
        }
        lemma_first_ram_mismatch(bus, t, i - 1);
    }
}

/// RAM entries that name distinct plain-storage bytes (echo RAM counting as the work RAM it
/// mirrors).
pub open spec fn ram_distinct_plain(ram: Seq<[u16; 2]>) -> bool {
    &&& forall|i: int| 0 <= i < ram.len() ==> is_plain_storage(#[trigger] ram[i]@[0])
    &&& forall|i: int, j: int| 0 <= i < j < ram.len() ==> unecho(#[trigger] ram[i]@[0]) != unecho(#[trigger] ram[j]@[0])
}

proof fn lemma_write_all_reads(b: Bus, w: Seq<(u16, u8)>)
    requires
        b.wf(),
        forall|i: int| 0 <= i < w.len() ==> is_plain_storage(#[trigger] w[i].0),
        forall|i: int, j: int| 0 <= i < j < w.len() ==> unecho(#[trigger] w[i].0) != unecho(#[trigger] w[j].0),
    ensures
        spec_write_all(b, w).wf(),
        forall|i: int| 0 <= i < w.len() ==> spec_write_all(b, w).spec_read_byte(#[trigger] w[i].0) == w[i].1,
    decreases w.len(),
{
    if w.len() > 0 {
        let init = w.drop_last();
        let last = w.last();
        assert forall|i: int, j: int| 0 <= i < j < init.len() implies unecho(#[trigger] init[i].0) != unecho(#[trigger] init[j].0) by {
            assert(init[i] == w[i] && init[j] == w[j]);
        }
        assert forall|i: int| 0 <= i < init.len() implies is_plain_storage(#[trigger] init[i].0) by {
            assert(init[i] == w[i]);
        }
        lemma_write_all_reads(b, init);
        let mid = spec_write_all(b, init);
        crate::bus::lemma_bus_read_after_write(mid, last.0, last.1, last.0);
        assert forall|i: int| 0 <= i < w.len() implies spec_write_all(b, w).spec_read_byte(#[trigger] w[i].0) == w[i].1 by {
            if i < w.len() - 1 {
                assert(init[i] == w[i]);
                assert(unecho(w[i].0) != unecho(w[w.len() - 1].0));
                crate::bus::lemma_bus_read_after_write(mid, last.0, last.1, w[i].0);
            }
        }
    }
}

/// A machine set up from a test state validates against that same state, provided the
/// state's flags byte has a clear low nibble, its IME is 0 or 1, and its RAM entries name
/// distinct plain-storage bytes.
pub proof fn lemma_install_then_validate(g: Gameboy, x: SingleStepState)
    requires
        g.wf(),
        x.f & 0x0F == 0,
        x.ime <= 1,
        ram_distinct_plain(x.ram@),
    ensures
        spec_validate(spec_installed(g, x), x) == Ok::<(), StateMismatch>(()),
{
    let w = ram_writes(x.ram@);
    let h = spec_installed(g, x);
    crate::flags::lemma_flags_from_bits_truncates(x.f);
    let f = x.f;
    assert(f & 0xF0 == f) by (bit_vector)
        requires f & 0x0F == 0;
    assert forall|i: int| 0 <= i < w.len() implies is_plain_storage(#[trigger] w[i].0) by {
        assert(w[i].0 == x.ram@[i]@[0]);
    }
    assert forall|i: int, j: int| 0 <= i < j < w.len() implies unecho(#[trigger] w[i].0) != unecho(#[trigger] w[j].0) by {
        assert(w[i].0 == x.ram@[i]@[0] && w[j].0 == x.ram@[j]@[0]);
    }
    lemma_write_all_reads(g.bus, w);
    assert forall|j: int| 0 <= j < x.ram@.len() implies h.bus.spec_read_byte(#[trigger] x.ram@[j]@[0]) == x.ram@[j]@[1] as u8 by {
        assert(w[j].0 == x.ram@[j]@[0]);
    }
    lemma_first_ram_mismatch(h.bus, x.ram@, x.ram@.len() as int);
}

/// The result of comparing a machine with an expected state: the first register that
/// differs, in the order PC, SP, A, B, C, D, E, F, H, L, IME, then the first RAM entry that
/// differs; Ok when all agree.
pub open spec fn spec_validate(gb: Gameboy, x: SingleStepState) -> Result<(), StateMismatch> {
    let cpu = gb.cpu;
    let ime: u8 = if cpu.ime { 1 } else { 0 };
    let k = first_ram_mismatch(gb.bus, x.ram@);
    if cpu.pc != x.pc {
        Err(StateMismatch::Pc { expected: x.pc, actual: cpu.pc })
    } else if cpu.sp != x.sp {
        Err(StateMismatch::Sp { expected: x.sp, actual: cpu.sp })
    } else if cpu.a != x.a {
        Err(StateMismatch::A { expected: x.a, actual: cpu.a })
    } else if cpu.b != x.b {
        Err(StateMismatch::B { expected: x.b, actual: cpu.b })
    } else if cpu.c != x.c {
        Err(StateMismatch::C { expected: x.c, actual: cpu.c })
    } else if cpu.d != x.d {
        Err(StateMismatch::D { expected: x.d, actual: cpu.d })
    } else if cpu.e != x.e {
        Err(StateMismatch::E { expected: x.e, actual: cpu.e })
    } else if cpu.f.spec_bits() != x.f {
        Err(StateMismatch::F { expected: x.f, actual: cpu.f.spec_bits() })
    } else if cpu.h != x.h {
        Err(StateMismatch::H { expected: x.h, actual: cpu.h })
    } else if cpu.l != x.l {
        Err(StateMismatch::L { expected: x.l, actual: cpu.l })
    } else if ime != x.ime {
        Err(StateMismatch::Ime { expected: x.ime, actual: ime })
    } else if k < x.ram@.len() {
        Err(StateMismatch::Ram {
            address: x.ram@[k]@[0],
            expected: x.ram@[k]@[1],
            actual: gb.bus.spec_read_byte(x.ram@[k]@[0]),
        })
    } else {
        Ok(())
    }
}

impl Gameboy {
    /// Puts the machine in a test's initial state: the registers (F through its flag bits),
    /// IME (set when nonzero), and the listed RAM bytes written through the bus in order.
    pub fn init_cpu_state(&mut self, initial: &SingleStepState) -> (r: Result<(), String>)
        requires
            old(self).wf(),
        ensures
            r is Ok,
            final(self).wf(),
            final(self).ppu == old(self).ppu,
            final(self).cpu == (CPU {
                pc: initial.pc,
                sp: initial.sp,
                a: initial.a,
                b: initial.b,
                c: initial.c,
                d: initial.d,
                e: initial.e,
                f: Flags::spec_from_bits(initial.f),
                h: initial.h,
                l: initial.l,
                ime: initial.ime != 0,
                ..old(self).cpu
            }),
            final(self).bus == spec_write_all(old(self).bus, ram_writes(initial.ram@)),
    {
        self.cpu.pc = initial.pc;
        self.cpu.sp = initial.sp;
        self.cpu.a = initial.a;
        self.cpu.b = initial.b;
        self.cpu.c = initial.c;
        self.cpu.d = initial.d;
        self.cpu.e = initial.e;
        self.cpu.f = Flags::from_bits_truncate(initial.f);
        self.cpu.h = initial.h;
        self.cpu.l = initial.l;
        self.cpu.ime = initial.ime != 0;
        let ghost w = ram_writes(initial.ram@);
        let mut i: usize = 0;
        while i < initial.ram.len()
            invariant
                i <= initial.ram@.len(),
                w == ram_writes(initial.ram@),
                self.wf(),
                self.ppu == old(self).ppu,
                self.cpu == (CPU {
                    pc: initial.pc,
                    sp: initial.sp,
                    a: initial.a,
                    b: initial.b,
                    c: initial.c,
                    d: initial.d,
                    e: initial.e,
                    f: Flags::spec_from_bits(initial.f),
                    h: initial.h,
                    l: initial.l,
                    ime: initial.ime != 0,
                    ..old(self).cpu
                }),
                self.bus == spec_write_all(old(self).bus, w.take(i as int)),
            decreases initial.ram@.len() - i,
        {
            let entry = initial.ram[i];
            proof {
                assert(w.take(i as int + 1).drop_last() =~= w.take(i as int));
            }
            self.bus.write_byte(entry[0], entry[1] as u8);
            i += 1;
        }
        assert(w.take(w.len() as int) =~= w);
        Ok(())
    }

    /// Compares the machine with a test's expected final state.
    pub fn validate_final_state(&self, expected: &SingleStepState) -> (r: Result<(), StateMismatch>)
        requires
            self.wf(),
        ensures
            r == spec_validate(*self, *expected),
    {
        if self.cpu.pc != expected.pc {
            return Err(StateMismatch::Pc { expected: expected.pc, actual: self.cpu.pc });
        }
        if self.cpu.sp != expected.sp {
            return Err(StateMismatch::Sp { expected: expected.sp, actual: self.cpu.sp });
        }
        if self.cpu.a != expected.a {
            return Err(StateMismatch::A { expected: expected.a, actual: self.cpu.a });
        }
        if self.cpu.b != expected.b {
            return Err(StateMismatch::B { expected: expected.b, actual: self.cpu.b });
        }
        if self.cpu.c != expected.c {
            return Err(StateMismatch::C { expected: expected.c, actual: self.cpu.c });
        }
        if self.cpu.d != expected.d {
            return Err(StateMismatch::D { expected: expected.d, actual: self.cpu.d });
        }
        if self.cpu.e != expected.e {
            return Err(StateMismatch::E { expected: expected.e, actual: self.cpu.e });
        }
        let f = self.cpu.f.bits();
        if f != expected.f {
            return Err(StateMismatch::F { expected: expected.f, actual: f });
        }
        if self.cpu.h != expected.h {
            return Err(StateMismatch::H { expected: expected.h, actual: self.cpu.h });
        }
        if self.cpu.l != expected.l {
            return Err(StateMismatch::L { expected: expected.l, actual: self.cpu.l });
        }
        let ime: u8 = if self.cpu.ime { 1 } else { 0 };
        if ime != expected.ime {
            return Err(StateMismatch::Ime { expected: expected.ime, actual: ime });
        }
        let mut i: usize = 0;
        while i < expected.ram.len()
            invariant
                i <= expected.ram@.len(),
                self.wf(),
                self.cpu.pc == expected.pc && self.cpu.sp == expected.sp && self.cpu.a == expected.a,
                self.cpu.b == expected.b && self.cpu.c == expected.c && self.cpu.d == expected.d,
                self.cpu.e == expected.e && self.cpu.f.spec_bits() == expected.f && self.cpu.h == expected.h,
                self.cpu.l == expected.l && (if self.cpu.ime { 1u8 } else { 0u8 }) == expected.ime,
                forall|j: int| 0 <= j < i ==> self.bus.spec_read_byte(#[trigger] expected.ram@[j]@[0])
                    == expected.ram@[j]@[1] as u8,
            decreases expected.ram@.len() - i,
        {
            let entry = expected.ram[i];
            let actual_value = self.bus.read_byte(entry[0]);
            if actual_value != entry[1] as u8 {
                proof {
                    assert(entry == expected.ram@[i as int]);
                    lemma_first_ram_mismatch(self.bus, expected.ram@, i as int);
                    assert(first_ram_mismatch(self.bus, expected.ram@) == i);
                }
                return Err(StateMismatch::Ram { address: entry[0], expected: entry[1], actual: actual_value });
            }
            i += 1;
        }
        proof { lemma_first_ram_mismatch(self.bus, expected.ram@, i as int); }
        Ok(())
    }

    /// Runs one single-step test: installs its initial state, executes one instruction, adds
    /// four T-cycles per listed bus cycle to `total_cycles`, and compares the machine with the
    /// expected final state. An undefined instruction fails the test before it runs.
    pub fn run_test_case(&mut self, test: &CPUTest, total_cycles: &mut u64) -> (r: Result<(), CaseFailure>)
        requires
            old(self).wf(),
            *old(total_cycles) + test.cycles@.len() * 4 <= u64::MAX,
        ensures
            final(self).wf(),
            ({
                let g = spec_installed(*old(self), test.initial);
                if !g.spec_can_step() {
                    &&& r == Err::<(), CaseFailure>(CaseFailure::Undefined)
                    &&& *final(self) == g
                    &&& *final(total_cycles) == *old(total_cycles)
                } else {
                    let (c, b) = g.cpu.spec_tick(g.bus);
                    &&& final(self).cpu == c
                    &&& spec_cycles((g.ppu@, b), (final(self).ppu@, final(self).bus), c.cycles as nat)
                    &&& *final(total_cycles) == *old(total_cycles) + test.cycles@.len() * 4
                    &&& r == (match spec_validate(*final(self), test.final_state) {
                        Ok(()) => Ok::<(), CaseFailure>(()),
                        Err(m) => Err(CaseFailure::Mismatch(m)),
                    })
                }
            }),
    {
        let _ = self.init_cpu_state(&test.initial);
        proof {
            assert(*self == spec_installed(*old(self), test.initial));
        }
        if !self.can_step() {
            return Err(CaseFailure::Undefined);
        }
        self.tick();
        *total_cycles = *total_cycles + test.cycles.len() as u64 * 4;
        match self.validate_final_state(&test.final_state) {
            Ok(()) => Ok(()),
            Err(m) => Err(CaseFailure::Mismatch(m)),
        }
    }
}

} // verus!
