//! What the interactive debugger decides: hexadecimal arguments, the set
//! of breakpoints and the memory dump it prints.
use vstd::prelude::*;
use crate::memory::Memory;
use std::collections::HashSet;
use vstd::std_specs::hash::spec_hash_keys_iter;
use vstd::std_specs::iter::IteratorSpec;

verus! {

/// Value of an ASCII hexadecimal digit (either case), if `c` is one.
pub open spec fn hex_digit_value(c: u8) -> Option<nat> {
    if 0x30 <= c <= 0x39 {
        Some((c - 0x30) as nat)
    } else if 0x61 <= c <= 0x66 {
        Some((c - 0x61 + 10) as nat)
    } else if 0x41 <= c <= 0x46 {
        Some((c - 0x41 + 10) as nat)
    } else {
        None
    }
}

/// Value of the hexadecimal digits `s`, most significant first; `None`
/// where one of them is no digit.
pub open spec fn hex_digits_value(s: Seq<u8>) -> Option<nat>
    decreases s.len(),
{
    if s.len() == 0 {
        Some(0)
    } else {
        match (hex_digits_value(s.drop_last()), hex_digit_value(s.last())) {
            (Some(v), Some(d)) => Some(v * 16 + d),
            _ => None,
        }
    }
}

/// A hexadecimal number as the debugger reads it: an optional `+`, then
/// at least one digit, with a value that fits in 32 bits.
pub open spec fn parse_hex_spec(s: Seq<u8>) -> Option<u32> {
    let digits = if s.len() > 0 && s[0] == 0x2b {
        s.drop_first()
    } else {
        s
    };
    if digits.len() == 0 {
        None
    } else {
        match hex_digits_value(digits) {
            Some(v) => if v <= 0xffff_ffff {
                Some(v as u32)
            } else {
                None
            },
            None => None,
        }
    }
}

/// Read a hexadecimal number; `None` where the text is not one or does
/// not fit in 32 bits.
pub fn parse_hex(s: &[u8]) -> (r: Option<u32>)
    ensures
        r == parse_hex_spec(s@),
{
    let start: usize = if s.len() > 0 && s[0] == 0x2b {
        1
    } else {
        0
    };
    let ghost digits = if s@.len() > 0 && s@[0] == 0x2b {
        s@.drop_first()
    } else {
        s@
    };
    assert(digits =~= s@.subrange(start as int, s@.len() as int));
    if start == s.len() {
        return None;
    }
    let mut acc: u32 = 0;
    let mut invalid = false;
    let mut overflow = false;
    let mut i: usize = start;
    while i < s.len()
        invariant
            start <= i <= s.len(),
            digits == s@.subrange(start as int, s@.len() as int),
            match hex_digits_value(s@.subrange(start as int, i as int)) {
                None => invalid,
                Some(v) => !invalid && (v <= 0xffff_ffff ==> !overflow && acc == v) && (v
                    > 0xffff_ffff ==> overflow),
            },
        decreases s.len() - i,
    {
        let c = s[i];
        let ghost prefix = s@.subrange(start as int, i as int);
        assert(s@.subrange(start as int, i + 1).drop_last() =~= prefix);
        assert(s@.subrange(start as int, i + 1).last() == c);
        let d: u32 = if 0x30 <= c && c <= 0x39 {
            (c - 0x30) as u32
        } else if 0x61 <= c && c <= 0x66 {
            (c - 0x61 + 10) as u32
        } else if 0x41 <= c && c <= 0x46 {
            (c - 0x41 + 10) as u32
        } else {
            invalid = true;
            0
        };
        if !invalid && !overflow {
            let next: u64 = acc as u64 * 16 + d as u64;
            if next > 0xffff_ffff {
                overflow = true;
            } else {
                acc = next as u32;
            }
        }
        i = i + 1;
    }
    assert(s@.subrange(start as int, s@.len() as int) == digits);
    if invalid || overflow {
        None
    } else {
        Some(acc)
    }
}

/// A set of breakpoint addresses.
pub struct Breakpoints {
    addrs: HashSet<u32>,
}

impl View for Breakpoints {
    type V = Set<u32>;

    closed spec fn view(&self) -> Set<u32> {
        self.addrs@
    }
}

impl Breakpoints {
    /// No breakpoint.
    pub fn new() -> (r: Self)
        ensures
            r@ == Set::<u32>::empty(),
    {
        Breakpoints { addrs: HashSet::new() }
    }

    /// Whether execution stops at `address`.
    pub fn contains(&self, address: u32) -> (r: bool)
        ensures
            r == self@.contains(address),
    {
        broadcast use vstd::std_specs::hash::group_hash_axioms;
        self.addrs.contains(&address)
    }

    /// Stop at `address` too.
    pub fn insert(&mut self, address: u32)
        ensures
            final(self)@ == old(self)@.insert(address),
    {
        broadcast use vstd::std_specs::hash::group_hash_axioms;
        self.addrs.insert(address);
    }

    /// No longer stop at `address`.
    pub fn remove(&mut self, address: u32)
        ensures
            final(self)@ == old(self)@.remove(address),
    {
        broadcast use vstd::std_specs::hash::group_hash_axioms;
        self.addrs.remove(&address);
    }

    /// The addresses, each once, in the order the set gives them.
    pub fn list(&self) -> (r: Vec<u32>)
        ensures
            r@.no_duplicates(),
            r@.to_set() == self@,
    {
        broadcast use vstd::std_specs::hash::group_hash_axioms;
        let mut r: Vec<u32> = Vec::new();
        let ghost keys = spec_hash_keys_iter(&self.addrs).remaining().unref();
        for a in it: self.addrs.iter()
            invariant
                keys.to_set() == self.addrs@,
                keys.no_duplicates(),
                it.seq().unref() == keys,
                r@ == keys.take(it.index()),
        {
            r.push(*a);
            proof {
                assert(r@ =~= keys.take(it.index() + 1));
            }
        }
        proof {
            assert(r@ =~= keys);
        }
        r
    }
}

impl Memory {
    /// The 256 bytes from `address` on, as the debugger prints them in
    /// 16 rows of 16.
    pub fn dump(&self, address: u32) -> (r: Vec<u8>)
        requires
            self.wf(),
            address <= 0xffff_ff00,
        ensures
            r.len() == 256,
            forall|k: int| 0 <= k < 256 ==> #[trigger] r[k] == self@.load8((address + k) as u32),
    {
        let mut r: Vec<u8> = Vec::new();
        let mut k: u32 = 0;
        while k < 256
            invariant
                self.wf(),
                address <= 0xffff_ff00,
                k <= 256,
                r.len() == k,
                forall|j: int| 0 <= j < k ==> #[trigger] r[j] == self@.load8((address + j) as u32),
            decreases 256 - k,
        {
            r.push(self.load8(address + k));
            k = k + 1;
        }
        r
    }
}

} // verus!
