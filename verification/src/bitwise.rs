//! Typed bit fields of registers: a field is a mask at a shift, a field
//! value is a mask and the bits it sets.
use vstd::prelude::*;

verus! {

/// Unsigned integers with bitwise operations.
pub trait Bitwise: Sized + Copy {
    /// Number of bits.
    spec fn width() -> nat;

    spec fn and_spec(self, o: Self) -> Self;

    spec fn or_spec(self, o: Self) -> Self;

    spec fn not_spec(self) -> Self;

    spec fn shl_spec(self, n: usize) -> Self;

    spec fn shr_spec(self, n: usize) -> Self;

    /// Whether the value is zero.
    spec fn is_zero(self) -> bool;

    /// Zero.
    fn zero() -> (r: Self)
        ensures
            r.is_zero(),
    ;

    fn band(self, o: Self) -> (r: Self)
        ensures
            r == self.and_spec(o),
    ;

    fn bor(self, o: Self) -> (r: Self)
        ensures
            r == self.or_spec(o),
    ;

    fn bnot(self) -> (r: Self)
        ensures
            r == self.not_spec(),
    ;

    fn shl(self, n: usize) -> (r: Self)
        requires
            n < Self::width(),
        ensures
            r == self.shl_spec(n),
    ;

    fn shr(self, n: usize) -> (r: Self)
        requires
            n < Self::width(),
        ensures
            r == self.shr_spec(n),
    ;

    fn equals(self, o: Self) -> (r: bool)
        ensures
            r == (self == o),
    ;

    fn nonzero(self) -> (r: bool)
        ensures
            r == !self.is_zero(),
    ;
}

impl Bitwise for u8 {
    open spec fn width() -> nat {
        8
    }

    open spec fn and_spec(self, o: Self) -> Self {
        self & o
    }

    open spec fn or_spec(self, o: Self) -> Self {
        self | o
    }

    open spec fn not_spec(self) -> Self {
        !self
    }

    open spec fn shl_spec(self, n: usize) -> Self {
        self << n
    }

    open spec fn shr_spec(self, n: usize) -> Self {
        self >> n
    }

    open spec fn is_zero(self) -> bool {
        self == 0
    }

    fn zero() -> (r: Self) {
        0
    }

    fn band(self, o: Self) -> (r: Self) {
        self & o
    }

    fn bor(self, o: Self) -> (r: Self) {
        self | o
    }

    fn bnot(self) -> (r: Self) {
        !self
    }

    fn shl(self, n: usize) -> (r: Self) {
        self << n
    }

    fn shr(self, n: usize) -> (r: Self) {
        self >> n
    }

    fn equals(self, o: Self) -> (r: bool) {
        self == o
    }

    fn nonzero(self) -> (r: bool) {
        self != 0
    }
}

impl Bitwise for u16 {
    open spec fn width() -> nat {
        16
    }

    open spec fn and_spec(self, o: Self) -> Self {
        self & o
    }

    open spec fn or_spec(self, o: Self) -> Self {
        self | o
    }

    open spec fn not_spec(self) -> Self {
        !self
    }

    open spec fn shl_spec(self, n: usize) -> Self {
        self << n
    }

    open spec fn shr_spec(self, n: usize) -> Self {
        self >> n
    }

    open spec fn is_zero(self) -> bool {
        self == 0
    }

    fn zero() -> (r: Self) {
        0
    }

    fn band(self, o: Self) -> (r: Self) {
        self & o
    }

    fn bor(self, o: Self) -> (r: Self) {
        self | o
    }

    fn bnot(self) -> (r: Self) {
        !self
    }

    fn shl(self, n: usize) -> (r: Self) {
        self << n
    }

    fn shr(self, n: usize) -> (r: Self) {
        self >> n
    }

    fn equals(self, o: Self) -> (r: bool) {
        self == o
    }

    fn nonzero(self) -> (r: bool) {
        self != 0
    }
}

impl Bitwise for u32 {
    open spec fn width() -> nat {
        32
    }

    open spec fn and_spec(self, o: Self) -> Self {
        self & o
    }

    open spec fn or_spec(self, o: Self) -> Self {
        self | o
    }

    open spec fn not_spec(self) -> Self {
        !self
    }

    open spec fn shl_spec(self, n: usize) -> Self {
        self << n
    }

    open spec fn shr_spec(self, n: usize) -> Self {
        self >> n
    }

    open spec fn is_zero(self) -> bool {
        self == 0
    }

    fn zero() -> (r: Self) {
        0
    }

    fn band(self, o: Self) -> (r: Self) {
        self & o
    }

    fn bor(self, o: Self) -> (r: Self) {
        self | o
    }

    fn bnot(self) -> (r: Self) {
        !self
    }

    fn shl(self, n: usize) -> (r: Self) {
        self << n
    }

    fn shr(self, n: usize) -> (r: Self) {
        self >> n
    }

    fn equals(self, o: Self) -> (r: bool) {
        self == o
    }

    fn nonzero(self) -> (r: bool) {
        self != 0
    }
}

/// Conversion of a field value to an enumeration, for users to implement.
pub trait TryFromValue<V> {
    type EnumType;

    /// The variant that `value` names, if any.
    spec fn try_from_value_spec(value: V) -> Option<Self::EnumType>;

    /// The variant that `value` names, if any.
    fn try_from_value(value: V) -> (r: Option<Self::EnumType>)
        ensures
            r == Self::try_from_value_spec(value),
    ;
}

/// A bit field: `mask` (at bit 0) moved up by `shift`.
pub struct Field<T: Bitwise> {
    pub mask: T,
    pub shift: usize,
}

impl<T: Bitwise> Field<T> {
    /// The field's bits of `val`, moved down to bit 0.
    pub open spec fn read_spec(self, val: T) -> T {
        val.and_spec(self.mask.shl_spec(self.shift)).shr_spec(self.shift)
    }

    /// The field of `mask` at `shift`.
    pub fn new(mask: T, shift: usize) -> (r: Self)
        ensures
            r.mask == mask && r.shift == shift,
    {
        Self { mask, shift }
    }

    /// The field's bits of `val`.
    pub fn read(self, val: T) -> (r: T)
        requires
            self.shift < T::width(),
        ensures
            r == self.read_spec(val),
    {
        val.band(self.mask.shl(self.shift)).shr(self.shift)
    }

    /// Whether any bit of the field is set in `val`.
    pub fn is_set(self, val: T) -> (r: bool)
        requires
            self.shift < T::width(),
        ensures
            r == !val.and_spec(self.mask.shl_spec(self.shift)).is_zero(),
    {
        val.band(self.mask.shl(self.shift)).nonzero()
    }

    /// The variant that the field's bits of `val` name, if any.
    pub fn read_as_enum<E: TryFromValue<T, EnumType = E>>(self, val: T) -> (r: Option<E>)
        requires
            self.shift < T::width(),
        ensures
            r == E::try_from_value_spec(self.read_spec(val)),
    {
        E::try_from_value(self.read(val))
    }
}

/// A value for some fields: the bits it covers (`mask`) and their value.
#[derive(Clone, Copy)]
pub struct FieldValue<T: Bitwise> {
    pub mask: T,
    pub value: T,
}

impl<T: Bitwise> FieldValue<T> {
    /// `val` with the covered bits replaced by the field value.
    pub open spec fn modify_spec(self, val: T) -> T {
        val.and_spec(self.mask.not_spec()).or_spec(self.value)
    }

    /// The covered bits.
    pub fn mask(&self) -> (r: T)
        ensures
            r == self.mask,
    {
        self.mask
    }

    /// The value.
    pub fn get(&self) -> (r: T)
        ensures
            r == self.value,
    {
        self.value
    }

    /// Field `field` of the value.
    pub fn read(&self, field: Field<T>) -> (r: T)
        requires
            field.shift < T::width(),
        ensures
            r == field.read_spec(self.value),
    {
        field.read(self.value)
    }

    /// `val` with the covered bits replaced by the field value.
    pub fn modify(self, val: T) -> (r: T)
        ensures
            r == self.modify_spec(val),
    {
        val.band(self.mask.bnot()).bor(self.value)
    }

    /// Whether the covered bits of `val` hold the field value.
    pub fn matches(&self, val: T) -> (r: bool)
        ensures
            r == (val.and_spec(self.mask) == self.value),
    {
        val.band(self.mask).equals(self.value)
    }

    /// The union of two field values: both masks, both values.
    pub fn add(self, rhs: Self) -> (r: Self)
        ensures
            r.mask == self.mask.or_spec(rhs.mask),
            r.value == self.value.or_spec(rhs.value),
    {
        FieldValue { mask: self.mask.bor(rhs.mask), value: self.value.bor(rhs.value) }
    }
}

/// A register holding a value of fields.
pub struct Register<T: Bitwise> {
    pub value: T,
}

impl<T: Bitwise> Register<T> {
    /// A register holding `value`.
    pub fn new(value: T) -> (r: Self)
        ensures
            r.value == value,
    {
        Self { value }
    }

    /// The value.
    pub fn get(&self) -> (r: T)
        ensures
            r == self.value,
    {
        self.value
    }

    /// Replace the value.
    pub fn set(&mut self, value: T)
        ensures
            final(self).value == value,
    {
        self.value = value
    }

    /// Field `field` of the value.
    pub fn read(&self, field: Field<T>) -> (r: T)
        requires
            field.shift < T::width(),
        ensures
            r == field.read_spec(self.value),
    {
        field.read(self.get())
    }

    /// The variant that field `field` of the value names, if any.
    pub fn read_as_enum<E: TryFromValue<T, EnumType = E>>(self, field: Field<T>) -> (r: Option<E>)
        requires
            field.shift < T::width(),
        ensures
            r == E::try_from_value_spec(field.read_spec(self.value)),
    {
        field.read_as_enum(self.get())
    }

    /// Whether any bit of field `field` is set.
    pub fn is_set(&self, field: Field<T>) -> (r: bool)
        requires
            field.shift < T::width(),
        ensures
            r == !self.value.and_spec(field.mask.shl_spec(field.shift)).is_zero(),
    {
        field.is_set(self.get())
    }

    /// Replace the whole value by the field value (other bits cleared).
    pub fn write(&mut self, field: FieldValue<T>)
        ensures
            final(self).value == field.value,
    {
        self.set(field.get());
    }

    /// Replace the covered bits by the field value.
    pub fn modify(&mut self, field: FieldValue<T>)
        ensures
            final(self).value == field.modify_spec(old(self).value),
    {
        self.set(field.modify(self.get()));
    }

    /// Whether the covered bits hold the field value.
    pub fn matches(&self, field: FieldValue<T>) -> (r: bool)
        ensures
            r == (self.value.and_spec(field.mask) == field.value),
    {
        field.matches(self.get())
    }
}

} // verus!
