//! Block data transfer: LDM and STM.
use vstd::prelude::*;
use vstd::std_specs::bits::u32_trailing_zeros;
use crate::util::{bits_spec, bit_spec, BitField, add32, sub32};
use crate::cpu::{CPU, CpuView};
use crate::cpu::register::{PSRMode, psr_write};
use crate::memory::{Memory, MemView};

verus! {

/// Fields: pre-indexing, up, PSR / user bank, write back, load, Rn,
/// register list.
pub open spec fn bdt_fields(instruction: u32) -> (bool, bool, bool, bool, bool, u32, u32) {
    (
        bit_spec(instruction, 24),
        bit_spec(instruction, 23),
        bit_spec(instruction, 22),
        bit_spec(instruction, 21),
        bit_spec(instruction, 20),
        bits_spec(instruction, 19, 16),
        bits_spec(instruction, 15, 0),
    )
}

/// Number of set bits among the `n` low bits of `x`.
pub open spec fn popcount(x: u32, n: nat) -> nat
    decreases n,
{
    if n == 0 {
        0
    } else {
        popcount(x, (n - 1) as nat) + if bit_spec(x, (n - 1) as u32) { 1nat } else { 0nat }
    }
}

/// Transfers of the registers `i` to 15 of the list (in ascending order
/// when `u` is set, else descending), starting at `address`.
pub open spec fn bdt_loop(
    c: CpuView,
    m: MemView,
    address: u32,
    i: nat,
    f: (bool, bool, bool, bool, bool, u32, u32),
    base: u32,
) -> (CpuView, MemView)
    decreases 16 - i,
{
    if i >= 16 {
        (c, m)
    } else {
        let (p, u, s, w, l, rn, rlist) = f;
        let j: u32 = if u { i as u32 } else { (15 - i) as u32 };
        if bit_spec(rlist, j) {
            let t: (CpuView, MemView) = if l {
                let c0 = c.set_reg(j as int, m.load32(address));
                (if j == 15 { c0.flushed() } else { c0 }, m)
            } else {
                let m0 = m.store32(address, c.r[j as int]);
                let m1 = if j == 15 { m0.store32(address, add32(c.r[15], 4)) } else { m0 };
                (c, if w && j == rn && u32_trailing_zeros(rlist) == rn { m1.store32(address, base) } else { m1 })
            };
            bdt_loop(t.0, t.1, if u { add32(address, 4) } else { sub32(address, 4) }, i + 1, f, base)
        } else {
            bdt_loop(c, m, address, i + 1, f, base)
        }
    }
}

/// Processor and memory after a block transfer. With the S bit, the
/// transfer runs with the User mode CPSR (unless it is an LDM that loads
/// R15), and afterwards the CPSR is restored (or, for an LDM that loads
/// R15, copied from the SPSR). Write back happens before the transfer; a
/// stored R15 is the address of the instruction + 12; when Rn is stored
/// and is the first register of the list, its unchanged value is stored.
pub open spec fn bdt_spec(c: CpuView, m: MemView, f: (bool, bool, bool, bool, bool, u32, u32)) -> (CpuView, MemView) {
    let (p, u, s, w, l, rn, rlist) = f;
    let a0 = c.r[rn as int];
    let b15 = bit_spec(rlist, 15);
    let c1 = if s && !(l && b15) { c.with_cpsr(psr_write(c.cpsr, 0b10000, false)) } else { c };
    let n = popcount(rlist, 32);
    let c2 = if w {
        c1.set_reg(rn as int, if u { add32(a0, (4 * n) as u32) } else { sub32(a0, (4 * n) as u32) })
    } else {
        c1
    };
    let a = if p { if u { add32(a0, 4) } else { sub32(a0, 4) } } else { a0 };
    let t = bdt_loop(c2, m, a, 0, f, a0);
    let c4 = if s {
        if l && b15 { t.0.with_cpsr(t.0.spsr) } else { t.0.with_cpsr(psr_write(t.0.cpsr, c.cpsr, false)) }
    } else {
        t.0
    };
    (c4, t.1)
}

/// A block transfer refills the pipeline at most once: when it loads
/// R15, which is the last register of an ascending transfer and the first
/// of a descending one.
pub proof fn lemma_bdt_loop_cycles(
    c: CpuView,
    m: MemView,
    address: u32,
    i: nat,
    f: (bool, bool, bool, bool, bool, u32, u32),
    base: u32,
)
    ensures
        ({
            let r = bdt_loop(c, m, address, i, f, base).0.counter;
            &&& r == c.counter || r == crate::cpu::tick(c.counter, 2)
            &&& !f.1 && i >= 1 ==> r == c.counter
        }),
    decreases 16 - i,
{
    if i < 16 {
        let (p, u, s, w, l, rn, rlist) = f;
        let j: u32 = if u { i as u32 } else { (15 - i) as u32 };
        let a2 = if u { add32(address, 4) } else { sub32(address, 4) };
        if bit_spec(rlist, j) {
            if l {
                let c0 = c.set_reg(j as int, m.load32(address));
                let c1 = if j == 15 { c0.flushed() } else { c0 };
                lemma_bdt_loop_cycles(c1, m, a2, i + 1, f, base);
            } else {
                let m0 = m.store32(address, c.r[j as int]);
                let m1 = if j == 15 { m0.store32(address, add32(c.r[15], 4)) } else { m0 };
                let m2 = if w && j == rn && u32_trailing_zeros(rlist) == rn { m1.store32(address, base) } else { m1 };
                lemma_bdt_loop_cycles(c, m2, a2, i + 1, f, base);
            }
        } else {
            lemma_bdt_loop_cycles(c, m, address, i + 1, f, base);
        }
    }
}

/// The cycle counter after a block transfer: unchanged, or two more
/// cycles for a pipeline refill.
pub proof fn lemma_bdt_cycles(c: CpuView, m: MemView, f: (bool, bool, bool, bool, bool, u32, u32))
    ensures
        bdt_spec(c, m, f).0.counter == c.counter
            || bdt_spec(c, m, f).0.counter == crate::cpu::tick(c.counter, 2),
{
    let (p, u, s, w, l, rn, rlist) = f;
    let a0 = c.r[rn as int];
    let b15 = bit_spec(rlist, 15);
    let c1 = if s && !(l && b15) { c.with_cpsr(psr_write(c.cpsr, 0b10000, false)) } else { c };
    let n = popcount(rlist, 32);
    let c2 = if w {
        c1.set_reg(rn as int, if u { add32(a0, (4 * n) as u32) } else { sub32(a0, (4 * n) as u32) })
    } else {
        c1
    };
    let a = if p { if u { add32(a0, 4) } else { sub32(a0, 4) } } else { a0 };
    lemma_bdt_loop_cycles(c2, m, a, 0, f, a0);
}

/// Decode and execute a block transfer.
pub fn interpret(cpu: &mut CPU, memory: &mut Memory, instruction: u32)
    requires
        old(memory).wf(),
    ensures
        final(memory).wf(),
        (final(cpu)@, final(memory)@) == bdt_spec(old(cpu)@, old(memory)@, bdt_fields(instruction)),
{
    execute(cpu, memory, decode(instruction));
}

/// Split a block transfer into its fields.
pub fn decode(instruction: u32) -> (r: (bool, bool, bool, bool, bool, u32, u32))
    ensures
        r == bdt_fields(instruction),
        r.5 < 16,
{
    let p = instruction.bit(24);
    let u = instruction.bit(23);
    let s = instruction.bit(22);
    let w = instruction.bit(21);
    let l = instruction.bit(20);
    let rn = instruction.bits(19, 16);
    let rlist = instruction.bits(15, 0);
    (p, u, s, w, l, rn, rlist)
}

/// Number of set bits of a word.
pub fn count_ones(x: u32) -> (r: u32)
    ensures
        r == popcount(x, 32),
        r <= 32,
{
    let mut n: u32 = 0;
    let mut i: u32 = 0;
    while i < 32
        invariant
            i <= 32,
            n == popcount(x, i as nat),
            n <= i,
        decreases 32 - i,
    {
        if x.bit(i) {
            n = n + 1;
        }
        i = i + 1;
    }
    n
}

/// Execute a decoded block transfer.
pub fn execute(cpu: &mut CPU, memory: &mut Memory, f: (bool, bool, bool, bool, bool, u32, u32))
    requires
        old(memory).wf(),
        f.5 < 16,
    ensures
        final(memory).wf(),
        (final(cpu)@, final(memory)@) == bdt_spec(old(cpu)@, old(memory)@, f),
{
    let (p, u, s, w, l, rn, rlist) = f;
    // Misaligned addresses are not handled.
    let mut address = cpu.r[rn as usize];
    let base = address;
    let saved_cpsr = cpu.get_cpsr();
    let b15 = rlist.bit(15);
    if s {
        if !(l && b15) {
            // Switch to the User mode register bank.
            cpu.set_cpsr(PSRMode::User.value(), false);
        }
    }
    // Whether or not P is set, the final address after the transfer is the same.
    if w {
        let n = count_ones(rlist);
        if u {
            cpu.r[rn as usize] = address.wrapping_add(4 * n);
        } else {
            cpu.r[rn as usize] = address.wrapping_sub(4 * n);
        }
    }
    if p {
        address = if u {
            address.wrapping_add(4)
        } else {
            address.wrapping_sub(4)
        };
    }
    let ghost c2 = cpu@;
    let ghost a = address;
    let tz = rlist.trailing_zeros();
    let mut i: u32 = 0;
    while i < 16
        invariant
            i <= 16,
            memory.wf(),
            tz == u32_trailing_zeros(rlist),
            bdt_loop(cpu@, memory@, address, i as nat, f, base) == bdt_loop(c2, old(memory)@, a, 0, f, base),
            f == (p, u, s, w, l, rn, rlist),
            rn < 16,
        decreases 16 - i,
    {
        let j = if u {
            i
        } else {
            15 - i
        };
        if rlist.bit(j) {
            if l {
                cpu.r[j as usize] = memory.load32(address);
                if j == 15 {
                    cpu.flush();
                }
            } else {
                memory.store32(address, cpu.r[j as usize]);
                if j == 15 {
                    memory.store32(address, cpu.r[15].wrapping_add(4));
                }
                // The first register to be stored stores the unchanged base.
                if w && j == rn && tz == rn {
                    memory.store32(address, base);
                }
            }
            address = if u {
                address.wrapping_add(4)
            } else {
                address.wrapping_sub(4)
            };
        }
        i = i + 1;
    }
    if s {
        // An LDM that loads R15 copies the SPSR of the mode to the CPSR.
        if l && b15 {
            cpu.restore_cpsr();
        } else {
            cpu.set_cpsr(saved_cpsr, false);
        }
    }
}

/// Counting set bits over more low bits counts at least as many, and at
/// most one more per bit.
proof fn lemma_popcount_mono(x: u32, i: nat, j: nat)
    requires
        i <= j,
    ensures
        popcount(x, i) <= popcount(x, j) <= popcount(x, i) + (j - i),
    decreases j,
{
    if j > i {
        lemma_popcount_mono(x, i, (j - 1) as nat);
    }
}

/// An ascending LDM leaves alone the registers below R15 that it has
/// passed.
proof fn lemma_ldm_up_keeps(
    c: CpuView,
    m: MemView,
    address: u32,
    i: nat,
    f: (bool, bool, bool, bool, bool, u32, u32),
    base: u32,
    j: int,
)
    requires
        f.1 && f.4,
        c.r.len() == 16,
        0 <= j < i,
        j < 15,
    ensures
        bdt_loop(c, m, address, i, f, base).0.r[j] == c.r[j],
        bdt_loop(c, m, address, i, f, base).0.r.len() == 16,
        bdt_loop(c, m, address, i, f, base).1 == m,
    decreases 16 - i,
{
    if i < 16 {
        let c0 = c.set_reg(i as int, m.load32(address));
        let c1 = if i == 15 { c0.flushed() } else { c0 };
        if bit_spec(f.6, i as u32) {
            lemma_ldm_up_keeps(c1, m, add32(address, 4), i + 1, f, base, j);
        } else {
            lemma_ldm_up_keeps(c, m, address, i + 1, f, base, j);
        }
    }
}

proof fn lemma_ldm_up_from(
    c: CpuView,
    m: MemView,
    address: u32,
    i: nat,
    f: (bool, bool, bool, bool, bool, u32, u32),
    base: u32,
    j: int,
)
    requires
        f.1 && f.4,
        c.r.len() == 16,
        i <= j < 15,
        bit_spec(f.6, j as u32),
    ensures
        popcount(f.6, i) <= popcount(f.6, j as nat) <= popcount(f.6, i) + (j - i),
        bdt_loop(c, m, address, i, f, base).0.r[j] == m.load32(
            add32(address, (4 * (popcount(f.6, j as nat) - popcount(f.6, i))) as u32),
        ),
    decreases 16 - i,
{
    lemma_popcount_mono(f.6, i, j as nat);
    let c0 = c.set_reg(i as int, m.load32(address));
    if bit_spec(f.6, i as u32) {
        if i == j {
            lemma_ldm_up_keeps(c0, m, add32(address, 4), i + 1, f, base, j);
        } else {
            lemma_ldm_up_from(c0, m, add32(address, 4), i + 1, f, base, j);
            assert(popcount(f.6, i + 1) == popcount(f.6, i) + 1);
        }
    } else {
        lemma_ldm_up_from(c, m, address, i + 1, f, base, j);
        assert(popcount(f.6, i + 1) == popcount(f.6, i));
    }
}

/// An ascending LDM loads each listed register below R15 with the word at
/// the first transfer address plus four times the number of listed
/// registers below it.
pub proof fn lemma_ldm_up_loads(
    c: CpuView,
    m: MemView,
    address: u32,
    f: (bool, bool, bool, bool, bool, u32, u32),
    base: u32,
    j: int,
)
    requires
        f.1 && f.4,
        c.r.len() == 16,
        0 <= j < 15,
        bit_spec(f.6, j as u32),
    ensures
        bdt_loop(c, m, address, 0, f, base).0.r[j] == m.load32(add32(address, (4 * popcount(f.6, j as nat)) as u32)),
{
    lemma_ldm_up_from(c, m, address, 0, f, base, j);
}

} // verus!
