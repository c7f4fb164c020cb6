//! Helpers for bitwise operations and for extracting bitfields.
use vstd::prelude::*;

verus! {

/// All ones in the `w` least significant bits, for widths 1 to 32.
pub open spec fn low_mask(w: u32) -> u32 {
    if w == 1 { 0x1 } else if w == 2 { 0x3 } else if w == 3 { 0x7 } else if w == 4 { 0xf }
    else if w == 5 { 0x1f } else if w == 6 { 0x3f } else if w == 7 { 0x7f } else if w == 8 { 0xff }
    else if w == 9 { 0x1ff } else if w == 10 { 0x3ff } else if w == 11 { 0x7ff }
    else if w == 12 { 0xfff } else if w == 13 { 0x1fff } else if w == 14 { 0x3fff }
    else if w == 15 { 0x7fff } else if w == 16 { 0xffff } else if w == 17 { 0x1_ffff }
    else if w == 18 { 0x3_ffff } else if w == 19 { 0x7_ffff } else if w == 20 { 0xf_ffff }
    else if w == 21 { 0x1f_ffff } else if w == 22 { 0x3f_ffff } else if w == 23 { 0x7f_ffff }
    else if w == 24 { 0xff_ffff } else if w == 25 { 0x1ff_ffff } else if w == 26 { 0x3ff_ffff }
    else if w == 27 { 0x7ff_ffff } else if w == 28 { 0xfff_ffff } else if w == 29 { 0x1fff_ffff }
    else if w == 30 { 0x3fff_ffff } else if w == 31 { 0x7fff_ffff } else if w == 32 { 0xffff_ffff }
    else { 0 }
}

/// Bits `hi` down to `lo` of `a`, moved down to bit 0.
pub open spec fn bits_spec(a: u32, hi: u32, lo: u32) -> u32 {
    (a >> lo) & low_mask((hi - lo + 1) as u32)
}

/// Whether bit `b` of `a` is set.
pub open spec fn bit_spec(a: u32, b: u32) -> bool {
    (a >> b) & 1 == 1
}

/// The bounds on a bit field that `bits` accepts: a range of at least two
/// bits inside the type.
pub open spec fn field_ok(hi: u32, lo: u32, width: u32) -> bool {
    lo < hi && hi < width
}

/// `a` with every bit above bit `s` set when bit `s` is set, read as a signed word.
pub open spec fn sign_extend_spec(a: u32, s: u32) -> i32 {
    if bit_spec(a, s) {
        (a | !(((1u32 << s) - 1) as u32)) as i32
    } else {
        a as i32
    }
}

/// Conversion of an RGB15 color (bits 4-0 red, 9-5 green, 14-10 blue) to RGB24.
pub open spec fn rgb24_spec(c: u16) -> u32 {
    (bits_spec(c as u32, 4, 0) << 19) | (bits_spec(c as u32, 9, 5) << 11) | (bits_spec(
        c as u32,
        14,
        10,
    ) << 3)
}

pub proof fn lemma_field(a: u32, hi: u32, lo: u32)
    by (bit_vector)
    requires
        lo < hi,
        hi < 32,
        hi - lo < 31,
    ensures
        (a >> lo) & (((1u32 << (hi - lo + 1) as u32) - 1) as u32) == (a >> lo) & low_mask(
            (hi - lo + 1) as u32,
        ),
        (a >> lo) & low_mask((hi - lo + 1) as u32) <= low_mask((hi - lo + 1) as u32),
        (1u32 << (hi - lo + 1) as u32) >= 1,
{
}

pub proof fn lemma_bit(a: u32, b: u32)
    by (bit_vector)
    requires
        b < 32,
    ensures
        (a & (1u32 << b) == (1u32 << b)) == ((a >> b) & 1 == 1),
        (a >> b) & 1 == 1 || (a >> b) & 1 == 0,
        (1u32 << b) >= 1,
{
}

/// Return bits `hi` down to `lo` of a word, as an unsigned integer.
pub fn bits(a: u32, hi: u32, lo: u32) -> (r: u32)
    requires
        field_ok(hi, lo, 32),
    ensures
        r == bits_spec(a, hi, lo),
        r <= low_mask((hi - lo + 1) as u32),
{
    if hi - lo == 31 {
        // The whole word.
        assert((a >> 0u32) & 0xffff_ffffu32 == a) by (bit_vector);
        return a;
    }
    proof {
        lemma_field(a, hi, lo);
    }
    (a >> lo) & ((1u32 << (hi - lo + 1)) - 1)
}

/// Test a single bit of a word, true when it is set.
pub fn bit(a: u32, b: u32) -> (r: bool)
    requires
        b < 32,
    ensures
        r == bit_spec(a, b),
{
    proof {
        lemma_bit(a, b);
    }
    a & (1u32 << b) == (1u32 << b)
}

/// Sign extend a word; `s` is the place of the most significant bit.
pub fn sign_extend(a: u32, s: u32) -> (r: i32)
    requires
        s < 32,
    ensures
        r == sign_extend_spec(a, s),
{
    proof {
        lemma_bit(a, s);
    }
    if bit(a, s) {
        let extension: u32 = !((1u32 << s) - 1);
        #[verifier::truncate] ((a | extension) as i32)
    } else {
        #[verifier::truncate] (a as i32)
    }
}

/// Bitfield access on unsigned integers.
pub trait BitField: Sized {
    /// Number of bits of the type.
    spec fn width() -> u32;

    /// The value as a word.
    spec fn word(self) -> u32;

    /// Test a single bit, true when it is set.
    fn bit(self, b: u32) -> (r: bool)
        requires
            b < Self::width(),
        ensures
            r == bit_spec(self.word(), b),
    ;

    /// Return bits `hi` down to `lo` as an unsigned integer.
    fn bits(self, hi: u32, lo: u32) -> (r: u32)
        requires
            field_ok(hi, lo, Self::width()),
        ensures
            r == bits_spec(self.word(), hi, lo),
            r <= low_mask((hi - lo + 1) as u32),
    ;
}

impl BitField for u32 {
    open spec fn width() -> u32 {
        32
    }

    open spec fn word(self) -> u32 {
        self
    }

    fn bit(self, b: u32) -> (r: bool) {
        bit(self, b)
    }

    fn bits(self, hi: u32, lo: u32) -> (r: u32) {
        bits(self, hi, lo)
    }
}

impl BitField for u16 {
    open spec fn width() -> u32 {
        16
    }

    open spec fn word(self) -> u32 {
        self as u32
    }

    fn bit(self, b: u32) -> (r: bool) {
        bit(self as u32, b)
    }

    fn bits(self, hi: u32, lo: u32) -> (r: u32) {
        bits(self as u32, hi, lo)
    }
}

/// Little endian halfword from the first two bytes of `a`.
pub fn into16(a: &[u8]) -> (r: u16)
    requires
        a@.len() >= 2,
    ensures
        r as int == a@[0] as int + 256 * (a@[1] as int),
{
    let lo = a[0];
    let hi = a[1];
    let r: u16 = (lo as u16) | ((hi as u16) << 8u16);
    assert(r as int == lo as int + 256 * (hi as int)) by (bit_vector)
        requires
            r == (lo as u16) | ((hi as u16) << 8u16),
    ;
    r
}

/// Little endian word from the first four bytes of `a`.
pub fn into32(a: &[u8]) -> (r: u32)
    requires
        a@.len() >= 4,
    ensures
        r as int == a@[0] as int + 0x100 * (a@[1] as int) + 0x1_0000 * (a@[2] as int)
            + 0x100_0000 * (a@[3] as int),
{
    let b0 = a[0];
    let b1 = a[1];
    let b2 = a[2];
    let b3 = a[3];
    let r: u32 = (b0 as u32) | ((b1 as u32) << 8u32) | ((b2 as u32) << 16u32) | ((b3 as u32)
        << 24u32);
    assert(r as int == b0 as int + 0x100 * (b1 as int) + 0x1_0000 * (b2 as int) + 0x100_0000 * (
    b3 as int)) by (bit_vector)
        requires
            r == (b0 as u32) | ((b1 as u32) << 8u32) | ((b2 as u32) << 16u32) | ((b3 as u32)
                << 24u32),
    ;
    r
}

/// Color conversion.
pub trait Color: Sized {
    /// The converted color.
    spec fn rgb24(self) -> u32;

    /// RGB15 -> RGB24 conversion.
    fn to_rgb24(self) -> (r: u32)
        ensures
            r == self.rgb24(),
    ;
}

impl Color for u16 {
    open spec fn rgb24(self) -> u32 {
        rgb24_spec(self)
    }

    fn to_rgb24(self) -> (r: u32) {
        crate::ppu::color::RGB(self)
    }
}

} // verus!

verus! {

/// A word masked by `m` is at most `m`.
pub proof fn lemma_and_bound(x: u32, m: u32)
    by (bit_vector)
    ensures
        x & m <= m,
{
}

/// Truncating casts keep the low bits.
pub proof fn lemma_truncate(x: u32)
    by (bit_vector)
    ensures
        x as u16 == (x & 0xffff) as u16,
        x & 0xffff == x % 0x1_0000,
        x as u8 == (x & 0xff) as u8,
        x & 0xff == x % 0x100,
{
}

/// Truncating a double word keeps its low word.
pub proof fn lemma_truncate64(y: u64)
    by (bit_vector)
    ensures
        y as u32 == (y & 0xffff_ffff) as u32,
        y & 0xffff_ffff == y % 0x1_0000_0000,
{
}

/// Setting bits below bit `b` keeps bit `b` of a halfword.
pub proof fn lemma_or_bit16(x: u16, m: u16, b: u32)
    by (bit_vector)
    requires
        m < 4,
        3 <= b < 16,
    ensures
        ((x | m) as u32 >> b) & 1 == (x as u32 >> b) & 1,
{
}

/// An arithmetic shift by 8 leaves a 24-bit signed number.
pub proof fn lemma_shift8(v: i32)
    by (bit_vector)
    ensures
        -0x80_0000 <= v >> 8i32 < 0x80_0000,
{
}

/// Sum of two words, modulo 2^32.
pub open spec fn add32(x: u32, y: u32) -> u32 {
    if x + y > u32::MAX {
        (x + y - 0x1_0000_0000) as u32
    } else {
        (x + y) as u32
    }
}

/// Difference of two words, modulo 2^32.
pub open spec fn sub32(x: u32, y: u32) -> u32 {
    if x - y < 0 {
        (x - y + 0x1_0000_0000) as u32
    } else {
        (x - y) as u32
    }
}

/// `x` rotated right by `n` places, modulo 32.
pub open spec fn ror_spec(x: u32, n: u32) -> u32 {
    let m = n & 31;
    if m == 0 {
        x
    } else {
        (x >> m) | (x << (32 - m) as u32)
    }
}

/// Rotate a word right by `n` places (only the low five bits of `n` count).
pub fn ror(x: u32, n: u32) -> (r: u32)
    ensures
        r == ror_spec(x, n),
{
    let m = n & 31;
    proof {
        lemma_and_bound(n, 31);
    }
    if m == 0 {
        x
    } else {
        (x >> m) | (x << (32 - m))
    }
}

} // verus!

verus! {

/// Byte addressed memory; halfwords and words are little endian.
pub trait Bus {
    /// Whether a byte is mapped at `address`.
    spec fn mapped(&self, address: u32) -> bool;

    /// The byte at `address`.
    spec fn byte(&self, address: u32) -> u8;

    /// Load a byte.
    fn load8(&self, address: u32) -> (r: u8)
        requires
            self.mapped(address),
        ensures
            r == self.byte(address),
    ;

    /// Store a byte; no other byte changes.
    fn store8(&mut self, address: u32, value: u8)
        requires
            old(self).mapped(address),
        ensures
            final(self).byte(address) == value,
            forall|b: u32| b != address ==> #[trigger] final(self).byte(b) == old(self).byte(b),
            forall|b: u32| #[trigger] final(self).mapped(b) == old(self).mapped(b),
    ;

    /// Load the halfword at `address`: the byte there and the next one.
    fn load16(&self, address: u32) -> (r: u16)
        requires
            address < u32::MAX,
            self.mapped(address),
            self.mapped((address + 1) as u32),
        ensures
            r == self.byte(address) + 0x100 * self.byte((address + 1) as u32),
    {
        let lo = self.load8(address);
        let hi = self.load8(address + 1);
        lo as u16 + 0x100 * (hi as u16)
    }

    /// Load the word at `address`: the halfword there and the next one.
    fn load32(&self, address: u32) -> (r: u32)
        requires
            address < u32::MAX - 2,
            forall|i: u32| address <= i <= address + 3 ==> #[trigger] self.mapped(i),
        ensures
            r == self.byte(address) + 0x100 * self.byte((address + 1) as u32) + 0x1_0000 * self.byte(
                (address + 2) as u32,
            ) + 0x100_0000 * self.byte((address + 3) as u32),
    {


        let lo = self.load16(address);
        let hi = self.load16(address + 2);
        (hi as u32) * 0x1_0000 + lo as u32
    }

    /// Store a halfword, low byte first.
    fn store16(&mut self, address: u32, value: u16)
        requires
            address < u32::MAX,
            old(self).mapped(address),
            old(self).mapped((address + 1) as u32),
        ensures
            final(self).byte(address) == value % 0x100,
            final(self).byte((address + 1) as u32) == value / 0x100,
            forall|b: u32| b != address && b != address + 1 ==> #[trigger] final(self).byte(b) == old(self).byte(b),
            forall|b: u32| #[trigger] final(self).mapped(b) == old(self).mapped(b),
    {
        self.store8(address, (value % 0x100) as u8);
        self.store8(address + 1, (value / 0x100) as u8);
    }

    /// Store a word, low halfword first.
    fn store32(&mut self, address: u32, value: u32)
        requires
            address < u32::MAX - 2,
            forall|i: u32| address <= i <= address + 3 ==> #[trigger] old(self).mapped(i),
        ensures
            final(self).byte(address) == value % 0x100,
            final(self).byte((address + 1) as u32) == (value / 0x100) % 0x100,
            final(self).byte((address + 2) as u32) == (value / 0x1_0000) % 0x100,
            final(self).byte((address + 3) as u32) == value / 0x100_0000,
            forall|b: u32| !(address <= b <= address + 3) ==> #[trigger] final(self).byte(b) == old(self).byte(b),
            forall|b: u32| #[trigger] final(self).mapped(b) == old(self).mapped(b),
    {


        self.store16(address, (value % 0x1_0000) as u16);
        self.store16(address + 2, (value / 0x1_0000) as u16);
    }
}

impl Bus for [u8] {
    open spec fn mapped(&self, address: u32) -> bool {
        address < self@.len()
    }

    open spec fn byte(&self, address: u32) -> u8 {
        if address < self@.len() {
            self@[address as int]
        } else {
            0
        }
    }

    fn load8(&self, address: u32) -> (r: u8) {
        self[address as usize]
    }

    fn store8(&mut self, address: u32, value: u8) {
        self[address as usize] = value;
    }
}

} // verus!
