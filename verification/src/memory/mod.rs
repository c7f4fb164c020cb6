//! The memory map: BIOS, on-board and on-chip work RAM, IO registers,
//! palette RAM, video RAM, object attribute memory, game pak ROM and SRAM.


pub mod ioreg;
pub mod vram;
pub mod palette;
pub mod oam;
pub mod io;

use vstd::prelude::*;
use crate::util::{ror, ror_spec, lemma_and_bound};

verus! {

/// Number of memory regions.
pub open spec fn n_regions() -> int {
    9
}

/// Size in bytes of region `k`: 0 BIOS, 1 EWRAM, 2 IWRAM, 3 IO RAM,
/// 4 palette RAM, 5 VRAM, 6 OAM, 7 ROM, 8 SRAM.
pub open spec fn region_size(k: int) -> nat {
    if k == 0 {
        0x4000
    } else if k == 1 {
        0x4_0000
    } else if k == 2 {
        0x8000
    } else if k == 3 {
        0x1_0000
    } else if k == 4 {
        0x400
    } else if k == 5 {
        0x1_8000
    } else if k == 6 {
        0x400
    } else if k == 7 {
        0x200_0000
    } else {
        0x1_0000
    }
}

/// Region that address `a` falls in (by bits 31 - 24), or -1 when none.
pub open spec fn region_of(a: u32) -> int {
    let h = a >> 24;
    if h == 0x00 {
        0
    } else if h == 0x02 {
        1
    } else if h == 0x03 {
        2
    } else if h == 0x04 {
        3
    } else if h == 0x05 {
        4
    } else if h == 0x06 {
        5
    } else if h == 0x07 {
        6
    } else if 0x08 <= h <= 0x0d {
        7
    } else if h == 0x0e {
        8
    } else {
        -1
    }
}

/// Equivalent base address of a mirrored address.
pub open spec fn mirror_spec(a: u32) -> u32 {
    let h = a >> 24;
    if h == 0x02 {
        a % 0x4_0000
    } else if h == 0x03 {
        a % 0x8000
    } else if h == 0x04 {
        a % 0x1_0000
    } else if h == 0x05 {
        a % 0x400
    } else if h == 0x06 {
        let b = a % 0x2_0000;
        if b > 0x1_7fff {
            (b - 0x8000) as u32
        } else {
            b
        }
    } else if h == 0x07 {
        a % 0x400
    } else if 0x08 <= h <= 0x0d {
        a % 0x200_0000
    } else {
        a
    }
}

/// Offset in its region of a byte, halfword or word access (halfword and
/// word accesses are forced to be aligned).
pub open spec fn offset_spec(a: u32, align: u32) -> int {
    (mirror_spec(a) & align) as int
}

/// Little endian halfword at offset `o` of `s`.
pub open spec fn le16(s: Seq<u8>, o: int) -> u16 {
    (s[o] as int + 0x100 * (s[o + 1] as int)) as u16
}

/// Little endian word at offset `o` of `s`.
pub open spec fn le32(s: Seq<u8>, o: int) -> u32 {
    (s[o] as int + 0x100 * (s[o + 1] as int) + 0x1_0000 * (s[o + 2] as int) + 0x100_0000 * (s[o
        + 3] as int)) as u32
}

/// `s` with the `n` little endian bytes of `v` written at offset `o`.
pub open spec fn put_le(s: Seq<u8>, o: int, v: u32, n: int) -> Seq<u8>
    decreases n,
{
    if n <= 0 {
        s
    } else {
        put_le(s.update(o, (v % 0x100) as u8), o + 1, v / 0x100, n - 1)
    }
}

/// Contents of memory: the byte regions, and the IO register halfword
/// writes that the devices have not yet seen.
#[verifier::ext_equal]
pub struct MemView {
    pub regions: Seq<Seq<u8>>,
    pub io_writes: Seq<(u32, u16)>,
}

impl MemView {
    /// Byte that a load of address `a` returns (0 where no byte is mapped).
    pub open spec fn load8(self, a: u32) -> u8 {
        let k = region_of(a);
        let o = offset_spec(a, 0x00ff_ffff);
        if k >= 0 && o < self.regions[k].len() {
            self.regions[k][o]
        } else {
            0
        }
    }

    /// Halfword that a load of address `a` returns.
    pub open spec fn load16(self, a: u32) -> u16 {
        let k = region_of(a);
        let o = offset_spec(a, 0x00ff_fffe);
        if k >= 0 && o + 1 < self.regions[k].len() {
            le16(self.regions[k], o)
        } else {
            0
        }
    }

    /// Word that a load of address `a` returns: the aligned word, rotated
    /// so that the addressed byte is the least significant.
    pub open spec fn load32(self, a: u32) -> u32 {
        let k = region_of(a);
        let o = offset_spec(a, 0x00ff_fffc);
        if k >= 0 && o + 3 < self.regions[k].len() {
            ror_spec(le32(self.regions[k], o), ((a & 3) * 8) as u32)
        } else {
            0
        }
    }

    /// Contents after a store of the `n` low bytes of `v` at address `a`,
    /// when region `k` is one that such a store reaches.
    pub open spec fn store(self, a: u32, v: u32, n: int, align: u32, writable: bool) -> MemView {
        let k = region_of(a);
        let o = offset_spec(a, align);
        if writable && k >= 0 && o + n <= self.regions[k].len() {
            MemView {
                regions: self.regions.update(k, put_le(self.regions[k], o, v, n)),
                ..self
            }
        } else {
            self
        }
    }

    /// Contents after storing byte `v` at address `a`: only EWRAM, IWRAM,
    /// IO RAM and SRAM take bytes.
    pub open spec fn store8(self, a: u32, v: u8) -> MemView {
        let k = region_of(a);
        self.store(a, v as u32, 1, 0x00ff_ffff, k == 1 || k == 2 || k == 3 || k == 8)
    }

    /// Contents after storing halfword `v` at address `a`: BIOS, ROM and
    /// SRAM are not written; a write to IO RAM is logged for the devices.
    pub open spec fn store16(self, a: u32, v: u16) -> MemView {
        let k = region_of(a);
        let m = self.store(a, v as u32, 2, 0x00ff_fffe, 1 <= k <= 6);
        if k == 3 {
            MemView { io_writes: m.io_writes.push((a, v)), ..m }
        } else {
            m
        }
    }

    /// Contents after storing word `v` at address `a`: BIOS, ROM and SRAM
    /// are not written; a write to IO RAM is logged as two halfwords.
    pub open spec fn store32(self, a: u32, v: u32) -> MemView {
        let k = region_of(a);
        let m = self.store(a, v, 4, 0x00ff_fffc, 1 <= k <= 6);
        if k == 3 {
            MemView {
                io_writes: m.io_writes.push((a, (v % 0x1_0000) as u16)).push(
                    (crate::util::add32(a, 2), (v / 0x1_0000) as u16),
                ),
                ..m
            }
        } else {
            m
        }
    }
}

/// The memory of the machine.
pub struct Memory {
    pub bios: Vec<u8>,
    pub ewram: Vec<u8>,
    pub iwram: Vec<u8>,
    pub ioram: Vec<u8>,
    pub param: Vec<u8>,
    pub vram: Vec<u8>,
    pub oam: Vec<u8>,
    pub rom: Vec<u8>,
    pub sram: Vec<u8>,
    /// IO register halfword writes not yet applied to the devices, oldest first.
    pub io_writes: Vec<(u32, u16)>,
}

impl View for Memory {
    type V = MemView;

    open spec fn view(&self) -> MemView {
        MemView {
            regions: seq![
                self.bios@,
                self.ewram@,
                self.iwram@,
                self.ioram@,
                self.param@,
                self.vram@,
                self.oam@,
                self.rom@,
                self.sram@,
            ],
            io_writes: self.io_writes@,
        }
    }
}

/// Every region has its size.
pub open spec fn view_wf(v: MemView) -> bool {
    &&& v.regions.len() == n_regions()
    &&& forall|k: int| 0 <= k < n_regions() ==> (#[trigger] v.regions[k]).len() == region_size(k)
}

impl Memory {
    /// Every region has its size.
    pub open spec fn wf(&self) -> bool {
        view_wf(self@)
    }

    /// Contents after reset.
    pub open spec fn is_reset(&self) -> bool {
        &&& forall|k: int, i: int|
                0 <= k < n_regions() && 0 <= i < region_size(k) ==> #[trigger] self@.regions[k][i] == 0
        &&& self@.io_writes.len() == 0
    }

    /// All memory zero, nothing logged.
    pub fn new() -> (m: Self)
        ensures
            m.wf(),
            m.is_reset(),
    {
        Memory {
            bios: vec![0u8; 0x4000],
            ewram: vec![0u8; 0x4_0000],
            iwram: vec![0u8; 0x8000],
            ioram: vec![0u8; 0x1_0000],
            param: vec![0u8; 0x400],
            vram: vec![0u8; 0x1_8000],
            oam: vec![0u8; 0x400],
            rom: vec![0u8; 0x200_0000],
            sram: vec![0u8; 0x1_0000],
            io_writes: Vec::new(),
        }
    }

    /// Region `k` by reference.
    fn region(&self, k: usize) -> (r: &Vec<u8>)
        requires
            k < 9,
        ensures
            r@ == self@.regions[k as int],
    {
        match k {
            0 => &self.bios,
            1 => &self.ewram,
            2 => &self.iwram,
            3 => &self.ioram,
            4 => &self.param,
            5 => &self.vram,
            6 => &self.oam,
            7 => &self.rom,
            _ => &self.sram,
        }
    }

    /// Write byte `v` at offset `o` of region `k`.
    fn put(&mut self, k: usize, o: usize, v: u8)
        requires
            k < 9,
            o < old(self)@.regions[k as int].len(),
            old(self).wf(),
        ensures
            final(self)@ == (MemView {
                regions: old(self)@.regions.update(
                    k as int,
                    old(self)@.regions[k as int].update(o as int, v),
                ),
                ..old(self)@
            }),
            final(self).wf(),
    {
        match k {
            0 => self.bios[o] = v,
            1 => self.ewram[o] = v,
            2 => self.iwram[o] = v,
            3 => self.ioram[o] = v,
            4 => self.param[o] = v,
            5 => self.vram[o] = v,
            6 => self.oam[o] = v,
            7 => self.rom[o] = v,
            _ => self.sram[o] = v,
        }
        assert(self@.regions =~~= old(self)@.regions.update(
            k as int,
            old(self)@.regions[k as int].update(o as int, v),
        ));
    }
}

impl Memory {
    /// Load a byte. Where no byte is mapped at the address, 0.
    pub fn load8(&self, address: u32) -> (r: u8)
        requires
            self.wf(),
        ensures
            r == self@.load8(address),
    {
        let k = region_index(address);
        let o = offset(address, 0x00ff_ffff);
        if k < 9 {
            let reg = self.region(k);
            if o < reg.len() {
                return reg[o];
            }
        }
        0
    }

    /// Load a halfword (forced to halfword alignment). Where no halfword is
    /// mapped at the address, 0.
    pub fn load16(&self, address: u32) -> (r: u16)
        requires
            self.wf(),
        ensures
            r == self@.load16(address),
    {
        let k = region_index(address);
        let o = offset(address, 0x00ff_fffe);
        if k < 9 {
            let reg = self.region(k);
            if o < reg.len() - 1 {
                return reg[o] as u16 + 0x100 * (reg[o + 1] as u16);
            }
        }
        0
    }

    /// Load a word: the aligned word, rotated right so that the addressed
    /// byte is the least significant. Where no word is mapped, 0.
    pub fn load32(&self, address: u32) -> (r: u32)
        requires
            self.wf(),
        ensures
            r == self@.load32(address),
    {
        let k = region_index(address);
        let o = offset(address, 0x00ff_fffc);
        if k < 9 {
            let reg = self.region(k);
            if o < reg.len() - 3 {
                let value: u32 = reg[o] as u32 + 0x100 * (reg[o + 1] as u32) + 0x1_0000 * (reg[o
                    + 2] as u32) + 0x100_0000 * (reg[o + 3] as u32);
                proof {
                    lemma_and_bound(address, 3);
                }
                let shift = (address & 0b11) * 8;
                return ror(value, shift);
            }
        }
        0
    }

    /// Write the `n` low bytes of `v` at offset `o` of region `k`.
    fn put_bytes(&mut self, k: usize, o: usize, v: u32, n: usize)
        requires
            k < 9,
            n <= 4,
            o + n <= old(self)@.regions[k as int].len(),
            old(self).wf(),
        ensures
            final(self)@ == (MemView {
                regions: old(self)@.regions.update(
                    k as int,
                    put_le(old(self)@.regions[k as int], o as int, v, n as int),
                ),
                ..old(self)@
            }),
            final(self).wf(),
        decreases n,
    {
        if n > 0 {
            self.put(k, o, (v % 0x100) as u8);
            self.put_bytes(k, o + 1, v / 0x100, n - 1);
            assert(self@.regions =~~= old(self)@.regions.update(
                k as int,
                put_le(old(self)@.regions[k as int], o as int, v, n as int),
            ));
        } else {
            assert(self@.regions =~~= old(self)@.regions.update(
                k as int,
                put_le(old(self)@.regions[k as int], o as int, v, n as int),
            ));
        }
    }

    /// Store a byte; only EWRAM, IWRAM, IO RAM and SRAM take bytes, other
    /// stores are dropped.
    pub fn store8(&mut self, address: u32, value: u8)
        requires
            old(self).wf(),
        ensures
            final(self).wf(),
            final(self)@ == old(self)@.store8(address, value),
    {
        let k = region_index(address);
        let o = offset(address, 0x00ff_ffff);
        if k == 1 || k == 2 || k == 3 || k == 8 {
            if o < self.region(k).len() {
                self.put_bytes(k, o, value as u32, 1);
            }
        }
    }

    /// Store a halfword (forced to halfword alignment); BIOS, ROM and SRAM
    /// are not written. A write to IO RAM is logged for the devices.
    pub fn store16(&mut self, address: u32, value: u16)
        requires
            old(self).wf(),
        ensures
            final(self).wf(),
            final(self)@ == old(self)@.store16(address, value),
    {
        let k = region_index(address);
        let o = offset(address, 0x00ff_fffe);
        if 1 <= k && k <= 6 {
            if o < self.region(k).len() - 1 {
                self.put_bytes(k, o, value as u32, 2);
            }
        }
        if k == 3 {
            self.io_writes.push((address, value));
        }
    }

    /// Store a word (forced to word alignment); BIOS, ROM and SRAM are not
    /// written. A write to IO RAM is logged for the devices as two halfwords.
    pub fn store32(&mut self, address: u32, value: u32)
        requires
            old(self).wf(),
        ensures
            final(self).wf(),
            final(self)@ == old(self)@.store32(address, value),
    {
        let k = region_index(address);
        let o = offset(address, 0x00ff_fffc);
        if 1 <= k && k <= 6 {
            if o < self.region(k).len() - 3 {
                self.put_bytes(k, o, value, 4);
            }
        }
        if k == 3 {
            self.io_writes.push((address, (value % 0x1_0000) as u16));
            self.io_writes.push((address.wrapping_add(2), (value / 0x1_0000) as u16));
        }
    }
}

/// Offset in its region of an access with alignment mask `align`.
fn offset(address: u32, align: u32) -> (r: usize)
    ensures
        r as int == offset_spec(address, align),
{
    let m = mirror(address) as u32;
    (m & align) as usize
}

/// Region of an address, or 9 when none.
fn region_index(address: u32) -> (k: usize)
    ensures
        k <= 9,
        k < 9 ==> k as int == region_of(address),
        k == 9 ==> region_of(address) == -1,
{
    let h = address >> 24u32;
    if h == 0x00 {
        0
    } else if h == 0x02 {
        1
    } else if h == 0x03 {
        2
    } else if h == 0x04 {
        3
    } else if h == 0x05 {
        4
    } else if h == 0x06 {
        5
    } else if h == 0x07 {
        6
    } else if 0x08 <= h && h <= 0x0d {
        7
    } else if h == 0x0e {
        8
    } else {
        9
    }
}

/// Return the equivalent base address.
pub fn mirror(address: u32) -> (r: usize)
    ensures
        r == mirror_spec(address),
{
    let h = address >> 24u32;
    let a = if h == 0x02 {
        address % 0x4_0000
    } else if h == 0x03 {
        address % 0x8000
    } else if h == 0x04 {
        address % 0x1_0000
    } else if h == 0x05 {
        address % 0x400
    } else if h == 0x06 {
        // The last 32 KiB of each 128 KiB block mirror the 32 KiB before.
        let b = address % 0x2_0000;
        if b > 0x1_7fff {
            b - 0x8000
        } else {
            b
        }
    } else if h == 0x07 {
        address % 0x400
    } else if 0x08 <= h && h <= 0x0d {
        address % 0x200_0000
    } else {
        address
    };
    a as usize
}

} // verus!

verus! {

/// Reading back a little endian halfword just written.
proof fn lemma_le16_put(s: Seq<u8>, o: int, v: u16)
    requires
        0 <= o,
        o + 2 <= s.len(),
    ensures
        le16(put_le(s, o, v as u32, 2), o) == v,
        put_le(s, o, v as u32, 2).len() == s.len(),
{
    reveal_with_fuel(put_le, 3);
    let t = put_le(s, o, v as u32, 2);

}

/// Reading back a little endian word just written.
proof fn lemma_le32_put(s: Seq<u8>, o: int, v: u32)
    requires
        0 <= o,
        o + 4 <= s.len(),
    ensures
        le32(put_le(s, o, v, 4), o) == v,
        put_le(s, o, v, 4).len() == s.len(),
{
    reveal_with_fuel(put_le, 5);
    let b0 = (v % 0x100) as u8;
    let b1 = ((v / 0x100) % 0x100) as u8;
    let b2 = ((v / 0x100 / 0x100) % 0x100) as u8;
    let b3 = ((v / 0x100 / 0x100 / 0x100) % 0x100) as u8;
    let t = put_le(s, o, v, 4);

    assert(b0 as int + 0x100 * (b1 as int) + 0x1_0000 * (b2 as int) + 0x100_0000 * (b3 as int) == v) by (nonlinear_arith)
        requires
            b0 == v % 0x100,
            b1 == (v / 0x100) % 0x100,
            b2 == (v / 0x100 / 0x100) % 0x100,
            b3 == (v / 0x100 / 0x100 / 0x100) % 0x100,
            v < 0x1_0000_0000,
    ;
}

/// A halfword load gives back what a halfword store wrote at that address,
/// in every region that takes halfwords (EWRAM, IWRAM, IO RAM, palette
/// RAM, VRAM, OAM), where the halfword lies inside the region.
pub proof fn lemma_store16_load16(m: MemView, a: u32, v: u16)
    requires
        view_wf(m),
        1 <= region_of(a) <= 6,
        offset_spec(a, 0x00ff_fffe) + 2 <= region_size(region_of(a)),
    ensures
        m.store16(a, v).load16(a) == v,
{
    let k = region_of(a);
    let o = offset_spec(a, 0x00ff_fffe);
    lemma_le16_put(m.regions[k], o, v);
}

/// A word load at a word aligned address gives back what a word store
/// wrote there, in every region that takes words, where the word lies
/// inside the region.
pub proof fn lemma_store32_load32(m: MemView, a: u32, v: u32)
    requires
        view_wf(m),
        1 <= region_of(a) <= 6,
        a % 4 == 0,
        offset_spec(a, 0x00ff_fffc) + 4 <= region_size(region_of(a)),
    ensures
        m.store32(a, v).load32(a) == v,
{
    let k = region_of(a);
    let o = offset_spec(a, 0x00ff_fffc);
    lemma_le32_put(m.regions[k], o, v);
    assert(a & 3 == 0 && (0u32 & 31u32) == 0) by (bit_vector)
        requires
            a % 4 == 0,
    ;

}

/// A byte load gives back what a byte store wrote at that address, in
/// every region that takes bytes (EWRAM, IWRAM, IO RAM, SRAM).
pub proof fn lemma_store8_load8(m: MemView, a: u32, v: u8)
    requires
        view_wf(m),
        region_of(a) == 1 || region_of(a) == 2 || region_of(a) == 3 || region_of(a) == 8,
        offset_spec(a, 0x00ff_ffff) < region_size(region_of(a)),
    ensures
        m.store8(a, v).load8(a) == v,
{
    reveal_with_fuel(put_le, 2);
}

/// A store into one region leaves every load from another region as it was.
pub proof fn lemma_store_other_region(m: MemView, a: u32, b: u32, v: u32)
    requires
        view_wf(m),
        region_of(a) != region_of(b),
    ensures
        m.store32(a, v).load8(b) == m.load8(b),
        m.store32(a, v).load16(b) == m.load16(b),
        m.store32(a, v).load32(b) == m.load32(b),
        m.store16(a, v as u16).load32(b) == m.load32(b),
        m.store8(a, v as u8).load32(b) == m.load32(b),
{
}

/// Writing `n` bytes at offset `o` leaves the other bytes as they were.
proof fn lemma_put_le_other(s: Seq<u8>, o: int, v: u32, n: int, i: int)
    requires
        0 <= o,
        o + n <= s.len(),
        i < o || o + n <= i,
    ensures
        put_le(s, o, v, n).len() == s.len(),
        0 <= i < s.len() ==> put_le(s, o, v, n)[i] == s[i],
    decreases n,
{
    if n > 0 {
        lemma_put_le_other(s.update(o, (v % 0x100) as u8), o + 1, v / 0x100, n - 1, i);
    }
}

/// A word offset (address bits with the two low ones cleared) is a
/// multiple of four.
proof fn lemma_word_offset(x: u32)
    by (bit_vector)
    ensures
        (x & 0x00ff_fffc) % 4 == 0,
{
}

/// A word store is seen at every address that mirrors the stored one: an
/// aligned word load in the same region at the same equivalent base
/// address gives back the stored word.
pub proof fn lemma_store32_load32_mirror(m: MemView, a: u32, b: u32, v: u32)
    requires
        view_wf(m),
        1 <= region_of(a) <= 6,
        a % 4 == 0,
        b % 4 == 0,
        region_of(b) == region_of(a),
        mirror_spec(b) == mirror_spec(a),
        offset_spec(a, 0x00ff_fffc) + 4 <= region_size(region_of(a)),
    ensures
        m.store32(a, v).load32(b) == v,
{
    let k = region_of(a);
    let o = offset_spec(a, 0x00ff_fffc);
    lemma_le32_put(m.regions[k], o, v);
    assert(b & 3 == 0 && (0u32 & 31u32) == 0) by (bit_vector)
        requires
            b % 4 == 0,
    ;
}

/// A word store leaves every other aligned word as it was: in other
/// regions, and in its own region at another offset.
pub proof fn lemma_store32_other_word(m: MemView, a: u32, b: u32, v: u32)
    requires
        view_wf(m),
        region_of(b) != region_of(a) || offset_spec(b, 0x00ff_fffc) != offset_spec(a, 0x00ff_fffc),
    ensures
        m.store32(a, v).load32(b) == m.load32(b),
{
    let k = region_of(a);
    if region_of(b) == k && k >= 0 {
        let o = offset_spec(a, 0x00ff_fffc);
        let o2 = offset_spec(b, 0x00ff_fffc);
        lemma_word_offset(mirror_spec(a));
        lemma_word_offset(mirror_spec(b));
        let s = m.regions[k];
        if o + 4 <= s.len() {
            lemma_put_le_other(s, o, v, 4, o2);
            lemma_put_le_other(s, o, v, 4, o2 + 1);
            lemma_put_le_other(s, o, v, 4, o2 + 2);
            lemma_put_le_other(s, o, v, 4, o2 + 3);
        }
    }
}

/// A halfword offset (address bits with the low one cleared) is even.
proof fn lemma_half_offset(x: u32)
    by (bit_vector)
    ensures
        (x & 0x00ff_fffe) % 2 == 0,
{
}

/// Word and halfword stores keep every region at its size.
pub proof fn lemma_store_wf(m: MemView, a: u32, v: u32)
    requires
        view_wf(m),
    ensures
        view_wf(m.store32(a, v)),
        view_wf(m.store16(a, v as u16)),
{
    let k = region_of(a);
    if k >= 0 {
        let o4 = offset_spec(a, 0x00ff_fffc);
        let o2 = offset_spec(a, 0x00ff_fffe);
        if o4 + 4 <= m.regions[k].len() {
            lemma_put_le_other(m.regions[k], o4, v, 4, -1);
        }
        if o2 + 2 <= m.regions[k].len() {
            lemma_put_le_other(m.regions[k], o2, v as u16 as u32, 2, -1);
        }
    }
}

/// A halfword store leaves every other halfword as it was: in other
/// regions, and in its own region at another offset.
pub proof fn lemma_store16_other_half(m: MemView, a: u32, b: u32, v: u16)
    requires
        view_wf(m),
        region_of(b) != region_of(a) || offset_spec(b, 0x00ff_fffe) != offset_spec(a, 0x00ff_fffe),
    ensures
        m.store16(a, v).load16(b) == m.load16(b),
{
    let k = region_of(a);
    if region_of(b) == k && k >= 0 {
        let o = offset_spec(a, 0x00ff_fffe);
        let o2 = offset_spec(b, 0x00ff_fffe);
        lemma_half_offset(mirror_spec(a));
        lemma_half_offset(mirror_spec(b));
        let s = m.regions[k];
        if o + 2 <= s.len() {
            lemma_put_le_other(s, o, v as u32, 2, o2);
            lemma_put_le_other(s, o, v as u32, 2, o2 + 1);
        }
    }
}

/// Equivalent base addresses keep the two low address bits: clearing them
/// before or after mirroring gives the same word offset.
proof fn lemma_mirror_word(a: u32)
    by (bit_vector)
    ensures
        mirror_spec(a & !3u32) & 0x00ff_fffc == mirror_spec(a) & 0x00ff_fffc,
        (a & !3u32) >> 24 == a >> 24,
        (a & !3u32) & 3 == 0,
{
}

/// A misaligned word load gives the aligned word that holds the address,
/// rotated right by eight bits per byte of misalignment.
pub proof fn lemma_load32_misaligned(m: MemView, a: u32)
    ensures
        m.load32(a) == ror_spec(m.load32(a & !3u32), ((a & 3) * 8) as u32),
{
    lemma_mirror_word(a);
    let b = a & !3u32;
    assert(ror_spec(0, ((a & 3) * 8) as u32) == 0 && ((0u32 * 8) as u32) & 31 == 0) by (bit_vector);
}

/// EWRAM repeats every 256 KiB of its 16 MiB address range: two addresses
/// of the range that are 256 KiB apart load the same byte.
pub proof fn lemma_ewram_mirror(m: MemView, a: u32)
    requires
        a >> 24u32 == 2,
        a + 0x4_0000 <= u32::MAX,
        ((a + 0x4_0000) as u32) >> 24u32 == 2,
    ensures
        m.load8(a) == m.load8((a + 0x4_0000) as u32),
{
    let b = (a + 0x4_0000) as u32;

}

} // verus!

verus! {

/// `r` holds the first bytes of `data` (as many as fit in `size`), then zeros.
pub open spec fn loaded_image(r: Seq<u8>, data: Seq<u8>, size: int) -> bool {
    &&& r.len() == size
    &&& forall|i: int| 0 <= i < size ==> #[trigger] r[i] == if i < data.len() { data[i] } else { 0 }
}

/// `v` filled with the bytes of `data` that fit, then zeros; returns how
/// many bytes of `data` were taken.
fn fill_image(v: &mut Vec<u8>, data: &[u8]) -> (n: usize)
    ensures
        final(v)@.len() == old(v)@.len(),
        loaded_image(final(v)@, data@, old(v)@.len() as int),
        n as int == if data@.len() < old(v)@.len() { data@.len() as int } else { old(v)@.len() as int },
{
    let size = v.len();
    let mut i: usize = 0;
    while i < size
        invariant
            i <= size,
            v@.len() == size,
            size == old(v)@.len(),
            forall|j: int| 0 <= j < i ==> #[trigger] v@[j] == if j < data@.len() { data@[j] } else { 0 },
        decreases size - i,
    {
        if i < data.len() {
            v.set(i, data[i]);
        } else {
            v.set(i, 0);
        }
        i = i + 1;
    }
    if data.len() < size {
        data.len()
    } else {
        size
    }
}

impl Memory {
    /// Load a game pak ROM image: ROM holds its bytes (up to 32 MiB), then
    /// zeros. Returns the number of bytes loaded.
    pub fn load_rom(&mut self, data: &[u8]) -> (n: usize)
        requires
            old(self).wf(),
        ensures
            final(self).wf(),
            loaded_image(final(self).rom@, data@, 0x200_0000),
            final(self)@.regions == old(self)@.regions.update(7, final(self).rom@),
            final(self)@.io_writes == old(self)@.io_writes,
            n as int == if data@.len() < 0x200_0000 { data@.len() as int } else { 0x200_0000 },
    {
        let n = fill_image(&mut self.rom, data);
        n
    }

    /// Load a BIOS image: BIOS holds its bytes (up to 16 KiB), then zeros.
    /// Returns the number of bytes loaded.
    pub fn load_bios(&mut self, data: &[u8]) -> (n: usize)
        requires
            old(self).wf(),
        ensures
            final(self).wf(),
            loaded_image(final(self).bios@, data@, 0x4000),
            final(self)@.regions == old(self)@.regions.update(0, final(self).bios@),
            final(self)@.io_writes == old(self)@.io_writes,
            n as int == if data@.len() < 0x4000 { data@.len() as int } else { 0x4000 },
    {
        let n = fill_image(&mut self.bios, data);
        n
    }
}

} // verus!

verus! {

proof fn lemma_even_neighbour(x: u32)
    by (bit_vector)
    requires
        x % 2 == 0,
    ensures
        ((x + 1) as u32) & 0x00ff_fffe == x & 0x00ff_fffe,
        ((x + 1) as u32) >> 24u32 == x >> 24u32,
        x < 0xffff_ffff,
{
}

proof fn lemma_even_mod(a: u32)
    by (bit_vector)
    requires
        a % 2 == 0,
        a < 0xffff_ffff,
    ensures
        ((a + 1) as u32) % 0x4_0000 == a % 0x4_0000 + 1 && (a % 0x4_0000) % 2 == 0,
        ((a + 1) as u32) % 0x8000 == a % 0x8000 + 1 && (a % 0x8000) % 2 == 0,
        ((a + 1) as u32) % 0x1_0000 == a % 0x1_0000 + 1 && (a % 0x1_0000) % 2 == 0,
        ((a + 1) as u32) % 0x400 == a % 0x400 + 1 && (a % 0x400) % 2 == 0,
        ((a + 1) as u32) % 0x2_0000 == a % 0x2_0000 + 1 && (a % 0x2_0000) % 2 == 0,
        ((a + 1) as u32) % 0x200_0000 == a % 0x200_0000 + 1 && (a % 0x200_0000) % 2 == 0,
{
}

/// Halfword accesses are forced to be aligned: the two byte addresses of a
/// halfword load the same halfword.
pub proof fn lemma_load16_aligned(m: MemView, a: u32)
    requires
        a % 2 == 0,
    ensures
        m.load16(a) == m.load16((a + 1) as u32),
{
    lemma_even_neighbour(a);
    lemma_even_mod(a);
    let b = (a + 1) as u32;
    let x = mirror_spec(a);

    lemma_even_neighbour(x);

}

} // verus!
