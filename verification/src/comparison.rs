use vstd::prelude::*;
use crate::bus::{Bus, MemoryInterface};
use crate::conformance::SingleStepState;
use crate::cpu::CPU;
use crate::gameboy::Gameboy;

verus! {

// A side-by-side view of a single-step test that failed: each register's initial, expected
// and actual value, the memory bytes that differ, and the flag bits when F differs.

/// The registers a comparison lists, in its order.
#[derive(Debug, Clone, Copy, PartialEq, Eq, Structural)]
pub enum ComparedRegister {
    Pc,
    Sp,
    A,
    B,
    C,
    D,
    E,
    F,
    H,
    L,
    Ime,
}

#[derive(Debug, Clone, Copy, PartialEq, Eq, Structural)]
pub struct RegisterRow {
    pub register: ComparedRegister,
    pub initial: u16,
    pub expected: u16,
    pub actual: u16,
    /// The expected value is the actual one.
    pub matches: bool,
}

#[derive(Debug, Clone, Copy, PartialEq, Eq, Structural)]
pub struct MemoryRow {
    pub address: u16,
    pub initial: u8,
    pub expected: u8,
    pub actual: u8,
    /// The expected value is the actual one.
    pub matches: bool,
}

/// The flag bits of F: Z (bit 7), N (bit 6), H (bit 5), C (bit 4).
#[derive(Debug, Clone, Copy, PartialEq, Eq, Structural)]
pub enum FlagName {
    Zero,
    Subtract,
    HalfCarry,
    Carry,
}

#[derive(Debug, Clone, Copy, PartialEq, Eq, Structural)]
pub struct FlagRow {
    pub flag: FlagName,
    pub initial: bool,
    pub expected: bool,
    pub actual: bool,
    /// The expected bit is the actual one.
    pub matches: bool,
}

/// The comparison of a machine with a test's initial and expected states.
#[derive(Debug, Clone)]
pub struct StateComparison {
    /// One row per register, in the order PC, SP, A, B, C, D, E, F, H, L, IME.
    pub registers: Vec<RegisterRow>,
    /// The listed addresses (of either state) whose actual byte differs from the expected or
    /// the initial one, in increasing order.
    pub memory: Vec<MemoryRow>,
    /// The four flag bits when F differs from the expected value; empty otherwise.
    pub flags: Vec<FlagRow>,
}

pub open spec fn register_row(register: ComparedRegister, initial: u16, expected: u16, actual: u16) -> RegisterRow {
    RegisterRow { register, initial, expected, actual, matches: expected == actual }
}

/// The register rows for a machine, an expected and an initial state.
pub open spec fn spec_register_rows(cpu: CPU, x: SingleStepState, init: SingleStepState) -> Seq<RegisterRow> {
    let ime: u8 = if cpu.ime { 1 } else { 0 };
    seq![
        register_row(ComparedRegister::Pc, init.pc, x.pc, cpu.pc),
        register_row(ComparedRegister::Sp, init.sp, x.sp, cpu.sp),
        register_row(ComparedRegister::A, init.a as u16, x.a as u16, cpu.a as u16),
        register_row(ComparedRegister::B, init.b as u16, x.b as u16, cpu.b as u16),
        register_row(ComparedRegister::C, init.c as u16, x.c as u16, cpu.c as u16),
        register_row(ComparedRegister::D, init.d as u16, x.d as u16, cpu.d as u16),
        register_row(ComparedRegister::E, init.e as u16, x.e as u16, cpu.e as u16),
        register_row(ComparedRegister::F, init.f as u16, x.f as u16, cpu.f.spec_bits() as u16),
        register_row(ComparedRegister::H, init.h as u16, x.h as u16, cpu.h as u16),
        register_row(ComparedRegister::L, init.l as u16, x.l as u16, cpu.l as u16),
        register_row(ComparedRegister::Ime, init.ime as u16, x.ime as u16, ime as u16)
    ]
}

/// Whether a RAM list has an entry for `address`.
pub open spec fn lists_address(ram: Seq<[u16; 2]>, address: u16) -> bool {
    exists|i: int| 0 <= i < ram.len() && #[trigger] ram[i]@[0] == address
}

/// The byte a RAM list gives `address`: the value of its first entry for it (cut to a
/// byte), or 0 when it has none.
pub open spec fn listed_value(ram: Seq<[u16; 2]>, address: u16) -> u8
    decreases ram.len(),
{
    if ram.len() == 0 {
        0
    } else if ram[0]@[0] == address {
        ram[0]@[1] as u8
    } else {
        listed_value(ram.drop_first(), address)
    }
}

/// The memory row for `address`.
pub open spec fn memory_row<M: MemoryInterface>(bus: M, x: SingleStepState, init: SingleStepState, address: u16) -> MemoryRow {
    let expected = listed_value(x.ram@, address);
    let actual = bus.spec_read_byte(address);
    MemoryRow {
        address,
        initial: listed_value(init.ram@, address),
        expected,
        actual,
        matches: expected == actual,
    }
}

/// Whether `address` gets a memory row: it is listed in either state and its actual byte
/// differs from the expected or the initial one.
pub open spec fn memory_differs<M: MemoryInterface>(bus: M, x: SingleStepState, init: SingleStepState, address: u16) -> bool {
    let row = memory_row(bus, x, init, address);
    &&& lists_address(init.ram@, address) || lists_address(x.ram@, address)
    &&& (row.expected != row.actual || row.initial != row.actual)
}

/// Exactly the differing addresses, each once, in increasing order, with their rows.
pub open spec fn spec_memory_rows<M: MemoryInterface>(bus: M, x: SingleStepState, init: SingleStepState, rows: Seq<MemoryRow>) -> bool {
    &&& forall|i: int, j: int| 0 <= i < j < rows.len() ==> rows[i].address < rows[j].address
    &&& forall|i: int| 0 <= i < rows.len() ==> #[trigger] rows[i] == memory_row(bus, x, init, rows[i].address)
    &&& forall|a: u16| memory_differs(bus, x, init, a) <==> exists|i: int| 0 <= i < rows.len() && #[trigger] rows[i].address == a
}

pub open spec fn flag_row(flag: FlagName, mask: u8, init_f: u8, x_f: u8, actual_f: u8) -> FlagRow {
    FlagRow {
        flag,
        initial: init_f & mask != 0,
        expected: x_f & mask != 0,
        actual: actual_f & mask != 0,
        matches: x_f & mask == actual_f & mask,
    }
}

/// The flag rows: the four bits of F when it differs from the expected value, else none.
pub open spec fn spec_flag_rows(cpu: CPU, x: SingleStepState, init: SingleStepState) -> Seq<FlagRow> {
    let f = cpu.f.spec_bits();
    if x.f == f {
        Seq::empty()
    } else {
        seq![
            flag_row(FlagName::Zero, 0x80, init.f, x.f, f),
            flag_row(FlagName::Subtract, 0x40, init.f, x.f, f),
            flag_row(FlagName::HalfCarry, 0x20, init.f, x.f, f),
            flag_row(FlagName::Carry, 0x10, init.f, x.f, f)
        ]
    }
}

proof fn lemma_listed_value(ram: Seq<[u16; 2]>, address: u16, i: int)
    requires
        0 <= i <= ram.len(),
        forall|j: int| 0 <= j < i ==> #[trigger] ram[j]@[0] != address,
        i < ram.len() ==> ram[i]@[0] == address,
    ensures
        listed_value(ram, address) == (if i < ram.len() { ram[i]@[1] as u8 } else { 0u8 }),
        i == ram.len() ==> !lists_address(ram, address),
    decreases i,
{
    if i > 0 {
        let t = ram.drop_first();
        assert forall|j: int| 0 <= j < i - 1 implies #[trigger] t[j]@[0] != address by {
            assert(t[j] == ram[j + 1]);
        }
        lemma_listed_value(t, address, i - 1);
        if i == ram.len() {
            assert forall|k: int| 0 <= k < ram.len() implies #[trigger] ram[k]@[0] != address by {}
        }
    }
}

/// The byte a RAM list gives an address (see `listed_value`).
fn find_listed(ram: &Vec<[u16; 2]>, address: u16) -> (r: u8)
    ensures
        r == listed_value(ram@, address),
{
    let mut i: usize = 0;
    while i < ram.len()
        invariant
            i <= ram@.len(),
            forall|j: int| 0 <= j < i ==> #[trigger] ram@[j]@[0] != address,
        decreases ram@.len() - i,
    {
        let entry = ram[i];
        if entry[0] == address {
            proof { lemma_listed_value(ram@, address, i as int); }
            return entry[1] as u8;
        }
        i += 1;
    }
    proof { lemma_listed_value(ram@, address, i as int); }
    0
}

/// Strictly increasing.
pub open spec fn increasing(v: Seq<u16>) -> bool {
    forall|i: int, j: int| 0 <= i < j < v.len() ==> v[i] < v[j]
}

/// Inserts `a` into a strictly increasing vector unless it is already there.
fn insert_sorted(v: &mut Vec<u16>, a: u16)
    requires
        increasing(old(v)@),
    ensures
        increasing(final(v)@),
        forall|b: u16| final(v)@.contains(b) <==> (old(v)@.contains(b) || b == a),
{
    let n = v.len();
    let mut k: usize = 0;
    while k < n && v[k] < a
        invariant
            k <= n,
            n == v@.len(),
            v@ == old(v)@,
            forall|j: int| 0 <= j < k ==> v@[j] < a,
        decreases n - k,
    {
        k += 1;
    }
    if k < n && v[k] == a {
        return;
    }
    let ghost before = v@;
    v.insert(k, a);
    proof {
        assert(v@ == before.insert(k as int, a));
        assert forall|i: int, j: int| 0 <= i < j < v@.len() implies v@[i] < v@[j] by {
            if j < k {
            } else if j == k {
            } else if i < k {
                assert(before[j - 1] > a || j - 1 == k as int || before[k as int] < before[j - 1]);
            } else if i == k {
                assert(before[k as int] > a);
                assert(j - 1 == k || before[k as int] < before[j - 1]);
            } else {
            }
        }
        assert forall|b: u16| v@.contains(b) <==> (before.contains(b) || b == a) by {
            if v@.contains(b) {
                let i = choose|i: int| 0 <= i < v@.len() && v@[i] == b;
                if i < k {
                    assert(before[i] == b);
                } else if i > k {
                    assert(before[i - 1] == b);
                }
            }
            if before.contains(b) {
                let i = choose|i: int| 0 <= i < before.len() && before[i] == b;
                if i < k {
                    assert(v@[i] == b);
                } else {
                    assert(v@[i + 1] == b);
                }
            }
            if b == a {
                assert(v@[k as int] == a);
            }
        }
    }
}

/// The addresses listed in either RAM list, each once, in increasing order.
fn listed_addresses(x: &Vec<[u16; 2]>, y: &Vec<[u16; 2]>) -> (r: Vec<u16>)
    ensures
        increasing(r@),
        forall|b: u16| r@.contains(b) <==> (lists_address(x@, b) || lists_address(y@, b)),
{
    let mut v: Vec<u16> = Vec::new();
    let mut i: usize = 0;
    while i < x.len()
        invariant
            i <= x@.len(),
            increasing(v@),
            forall|b: u16| v@.contains(b) <==> exists|j: int| 0 <= j < i && #[trigger] x@[j]@[0] == b,
        decreases x@.len() - i,
    {
        let entry = x[i];
        insert_sorted(&mut v, entry[0]);
        proof {
            assert forall|b: u16| v@.contains(b) <==> exists|j: int| 0 <= j < i + 1 && #[trigger] x@[j]@[0] == b by {
                if b == entry[0] {
                    assert(x@[i as int]@[0] == b);
                }
            }
        }
        i += 1;
    }
    let mut k: usize = 0;
    while k < y.len()
        invariant
            k <= y@.len(),
            increasing(v@),
            forall|b: u16| v@.contains(b) <==> (lists_address(x@, b)
                || exists|j: int| 0 <= j < k && #[trigger] y@[j]@[0] == b),
        decreases y@.len() - k,
    {
        let entry = y[k];
        insert_sorted(&mut v, entry[0]);
        proof {
            assert forall|b: u16| v@.contains(b) <==> (lists_address(x@, b)
                || exists|j: int| 0 <= j < k + 1 && #[trigger] y@[j]@[0] == b) by {
                if b == entry[0] {
                    assert(y@[k as int]@[0] == b);
                }
            }
        }
        k += 1;
    }
    v
}

fn flag_row_of(flag: FlagName, mask: u8, init_f: u8, x_f: u8, actual_f: u8) -> (r: FlagRow)
    ensures
        r == flag_row(flag, mask, init_f, x_f, actual_f),
{
    FlagRow {
        flag,
        initial: init_f & mask != 0,
        expected: x_f & mask != 0,
        actual: actual_f & mask != 0,
        matches: x_f & mask == actual_f & mask,
    }
}

/// The actual byte at `address` differs from the expected or the initial one.
pub open spec fn values_differ<M: MemoryInterface>(mem: M, x: SingleStepState, init: SingleStepState, address: u16) -> bool {
    let row = memory_row(mem, x, init, address);
    row.expected != row.actual || row.initial != row.actual
}

/// The rows of the addresses in `addrs` whose values differ, in the order of `addrs`.
pub open spec fn rows_of<M: MemoryInterface>(mem: M, x: SingleStepState, init: SingleStepState, addrs: Seq<u16>) -> Seq<MemoryRow>
    decreases addrs.len(),
{
    if addrs.len() == 0 {
        Seq::empty()
    } else {
        let rest = rows_of(mem, x, init, addrs.drop_last());
        if values_differ(mem, x, init, addrs.last()) {
            rest.push(memory_row(mem, x, init, addrs.last()))
        } else {
            rest
        }
    }
}

proof fn lemma_rows_of<M: MemoryInterface>(mem: M, x: SingleStepState, init: SingleStepState, addrs: Seq<u16>)
    requires
        increasing(addrs),
    ensures
        ({
            let rows = rows_of(mem, x, init, addrs);
            &&& forall|p: int| 0 <= p < rows.len() ==> #[trigger] rows[p] == memory_row(mem, x, init, rows[p].address)
                && addrs.contains(rows[p].address)
            &&& forall|p: int, q: int| 0 <= p < q < rows.len() ==> rows[p].address < rows[q].address
            &&& forall|a: u16| (addrs.contains(a) && values_differ(mem, x, init, a))
                <==> exists|p: int| 0 <= p < rows.len() && #[trigger] rows[p].address == a
        }),
    decreases addrs.len(),
{
    if addrs.len() > 0 {
        let init_part = addrs.drop_last();
        let last = addrs.last();
        assert(increasing(init_part));
        lemma_rows_of(mem, x, init, init_part);
        let rest = rows_of(mem, x, init, init_part);
        let rows = rows_of(mem, x, init, addrs);
        assert forall|p: int| 0 <= p < rest.len() implies rest[p].address < last by {
            let k = choose|k: int| 0 <= k < init_part.len() && init_part[k] == rest[p].address;
            assert(addrs[k] == init_part[k]);
        }
        assert forall|a: u16| addrs.contains(a) <==> (init_part.contains(a) || a == last) by {
            if addrs.contains(a) {
                let k = choose|k: int| 0 <= k < addrs.len() && addrs[k] == a;
                if k < addrs.len() - 1 {
                    assert(init_part[k] == a);
                }
            }
            if init_part.contains(a) {
                let k = choose|k: int| 0 <= k < init_part.len() && init_part[k] == a;
                assert(addrs[k] == a);
            }
            if a == last {
                assert(addrs[addrs.len() - 1] == a);
            }
        }
        assert(!init_part.contains(last)) by {
            if init_part.contains(last) {
                let k = choose|k: int| 0 <= k < init_part.len() && init_part[k] == last;
                assert(addrs[k] < addrs[addrs.len() - 1]);
            }
        }
        if values_differ(mem, x, init, last) {
            assert(rows == rest.push(memory_row(mem, x, init, last)));
            assert forall|p: int| 0 <= p < rows.len() implies #[trigger] rows[p] == memory_row(mem, x, init, rows[p].address)
                && addrs.contains(rows[p].address) by {
                if p < rest.len() {
                    assert(rows[p] == rest[p]);
                }
            }
            assert forall|a: u16| (addrs.contains(a) && values_differ(mem, x, init, a))
                <==> exists|p: int| 0 <= p < rows.len() && #[trigger] rows[p].address == a by {
                if addrs.contains(a) && values_differ(mem, x, init, a) {
                    if a == last {
                        assert(rows[rest.len() as int].address == a);
                    } else {
                        let p = choose|p: int| 0 <= p < rest.len() && #[trigger] rest[p].address == a;
                        assert(rows[p] == rest[p]);
                    }
                }
                if exists|p: int| 0 <= p < rows.len() && #[trigger] rows[p].address == a {
                    let p = choose|p: int| 0 <= p < rows.len() && #[trigger] rows[p].address == a;
                    if p < rest.len() {
                        assert(rows[p] == rest[p]);
                    }
                }
            }
        } else {
            assert(rows == rest);
            assert forall|a: u16| (addrs.contains(a) && values_differ(mem, x, init, a))
                <==> exists|p: int| 0 <= p < rows.len() && #[trigger] rows[p].address == a by {
                if exists|p: int| 0 <= p < rows.len() && #[trigger] rows[p].address == a {
                    let p = choose|p: int| 0 <= p < rows.len() && #[trigger] rows[p].address == a;
                    assert(rest[p].address == a);
                }
            }
        }
    }
}

/// The memory rows of a comparison (see `spec_memory_rows`).
fn memory_rows<M: MemoryInterface>(mem: &M, expected: &SingleStepState, initial: &SingleStepState) -> (r: Vec<MemoryRow>)
    requires
        mem.mem_wf(),
    ensures
        spec_memory_rows(*mem, *expected, *initial, r@),
{
    let addresses = listed_addresses(&initial.ram, &expected.ram);
    let mut memory: Vec<MemoryRow> = Vec::new();
    let mut i: usize = 0;
    while i < addresses.len()
        invariant
            i <= addresses@.len(),
            mem.mem_wf(),
            memory@ == rows_of(*mem, *expected, *initial, addresses@.take(i as int)),
        decreases addresses@.len() - i,
    {
        let address = addresses[i];
        let initial_value = find_listed(&initial.ram, address);
        let expected_value = find_listed(&expected.ram, address);
        let actual_value = mem.read_byte(address);
        proof {
            assert(addresses@.take(i as int + 1).drop_last() =~= addresses@.take(i as int));
            assert(addresses@.take(i as int + 1).last() == address);
        }
        if expected_value != actual_value || initial_value != actual_value {
            memory.push(MemoryRow {
                address,
                initial: initial_value,
                expected: expected_value,
                actual: actual_value,
                matches: expected_value == actual_value,
            });
        }
        i += 1;
    }
    proof {
        assert(addresses@.take(i as int) =~= addresses@);
        lemma_rows_of(*mem, *expected, *initial, addresses@);
        let rows = memory@;
        assert forall|a: u16| memory_differs(*mem, *expected, *initial, a)
            <==> exists|p: int| 0 <= p < rows.len() && #[trigger] rows[p].address == a by {
            if exists|p: int| 0 <= p < rows.len() && #[trigger] rows[p].address == a {
                let p = choose|p: int| 0 <= p < rows.len() && #[trigger] rows[p].address == a;
                assert(rows[p] == memory_row(*mem, *expected, *initial, rows[p].address));
                assert(addresses@.contains(a));
            }
        }
    }
    memory
}

fn row(register: ComparedRegister, initial: u16, expected: u16, actual: u16) -> (r: RegisterRow)
    ensures
        r == register_row(register, initial, expected, actual),
{
    RegisterRow { register, initial, expected, actual, matches: expected == actual }
}

fn register_rows(cpu: &CPU, expected: &SingleStepState, initial: &SingleStepState) -> (r: Vec<RegisterRow>)
    ensures
        r@ == spec_register_rows(*cpu, *expected, *initial),
{
    let f = cpu.f.bits();
    let ime: u8 = if cpu.ime { 1 } else { 0 };
    let registers = vec![
        row(ComparedRegister::Pc, initial.pc, expected.pc, cpu.pc),
        row(ComparedRegister::Sp, initial.sp, expected.sp, cpu.sp),
        row(ComparedRegister::A, initial.a as u16, expected.a as u16, cpu.a as u16),
        row(ComparedRegister::B, initial.b as u16, expected.b as u16, cpu.b as u16),
        row(ComparedRegister::C, initial.c as u16, expected.c as u16, cpu.c as u16),
        row(ComparedRegister::D, initial.d as u16, expected.d as u16, cpu.d as u16),
        row(ComparedRegister::E, initial.e as u16, expected.e as u16, cpu.e as u16),
        row(ComparedRegister::F, initial.f as u16, expected.f as u16, f as u16),
        row(ComparedRegister::H, initial.h as u16, expected.h as u16, cpu.h as u16),
        row(ComparedRegister::L, initial.l as u16, expected.l as u16, cpu.l as u16),
        row(ComparedRegister::Ime, initial.ime as u16, expected.ime as u16, ime as u16),
    ];
    assert(registers@ =~= spec_register_rows(*cpu, *expected, *initial));
    registers
}

fn flag_rows(cpu: &CPU, expected: &SingleStepState, initial: &SingleStepState) -> (r: Vec<FlagRow>)
    ensures
        r@ == spec_flag_rows(*cpu, *expected, *initial),
{
    let f = cpu.f.bits();
    let mut flags: Vec<FlagRow> = Vec::new();
    if expected.f != f {
        flags.push(flag_row_of(FlagName::Zero, 0x80, initial.f, expected.f, f));
        flags.push(flag_row_of(FlagName::Subtract, 0x40, initial.f, expected.f, f));
        flags.push(flag_row_of(FlagName::HalfCarry, 0x20, initial.f, expected.f, f));
        flags.push(flag_row_of(FlagName::Carry, 0x10, initial.f, expected.f, f));
    }
    assert(flags@ =~= spec_flag_rows(*cpu, *expected, *initial));
    flags
}

impl Gameboy {
    /// Compares the machine with a test's expected state, beside its initial state: every
    /// register, the listed memory bytes that differ, and the flag bits when F differs.
    pub fn state_comparison(&self, expected: &SingleStepState, initial: &SingleStepState) -> (r: StateComparison)
        requires
            self.wf(),
        ensures
            r.registers@ == spec_register_rows(self.cpu, *expected, *initial),
            spec_memory_rows(self.bus, *expected, *initial, r.memory@),
            r.flags@ == spec_flag_rows(self.cpu, *expected, *initial),
    {
        let registers = register_rows(&self.cpu, expected, initial);
        let memory = memory_rows(&self.bus, expected, initial);
        let flags = flag_rows(&self.cpu, expected, initial);
        StateComparison { registers, memory, flags }
    }
}

} // verus!
