use vstd::arithmetic::div_mod::{
    lemma_fundamental_div_mod, lemma_mod_equivalence, lemma_mod_multiples_basic,
};
use vstd::prelude::*;

use crate::wrap::{
    lemma_as_i16, lemma_as_i32, lemma_as_i64, lemma_as_i8, lemma_as_isize,
    lemma_as_u16, lemma_as_u32, lemma_as_u64, lemma_as_u8, lemma_as_usize, lemma_wrap_signed,
    lemma_wrap_unsigned, wrap_signed, wrap_unsigned,
};

verus! {

/// A primitive integer kind, seen as the mathematical integer it holds.
///
/// Every conversion between kinds behaves as Rust's `as` operator does: the
/// result keeps the low bits of the value, as many as the target kind has,
/// and reads them as signed or unsigned according to the target kind. A
/// value that fits in the target kind is thus kept exactly.
pub trait Primitive: Sized + Copy {
    /// The integer that this value stands for.
    spec fn value(&self) -> int;

    /// The smallest value of the kind.
    spec fn lo() -> int;

    /// The largest value of the kind.
    spec fn hi() -> int;

    /// `2^n` for a kind of `n` bits.
    spec fn modulus() -> int;

    /// The value of this kind that a conversion of the integer `i` gives.
    spec fn wrap(i: int) -> int;

    /// The kind's range is `2^n` consecutive integers that hold 0 and 1, and
    /// lies within what `i64` and `u64` hold together.
    proof fn lemma_kind()
        ensures
            i64::MIN <= Self::lo() <= 0 < Self::hi() <= u64::MAX,
            Self::hi() - Self::lo() + 1 == Self::modulus(),
    ;

    /// A value of the kind lies in its range.
    proof fn lemma_value_in_range(&self)
        ensures
            Self::lo() <= self.value() <= Self::hi(),
    ;

    /// Two values of the kind that stand for the same integer are equal.
    proof fn lemma_value_determines(&self, other: Self)
        ensures
            self.value() == other.value() ==> *self == other,
    ;

    /// A conversion lands in the kind's range, keeps an integer that is
    /// already there, and moves any other by a multiple of `2^n`.
    proof fn lemma_wrap(i: int)
        ensures
            Self::lo() <= Self::wrap(i) <= Self::hi(),
            Self::lo() <= i <= Self::hi() ==> Self::wrap(i) == i,
            (Self::wrap(i) - i) % Self::modulus() == 0,
    ;

    /// A conversion depends only on the remainder modulo `2^n`.
    proof fn lemma_wrap_congruent(i: int, j: int)
        requires
            i % Self::modulus() == j % Self::modulus(),
        ensures
            Self::wrap(i) == Self::wrap(j),
    ;

    /// Converts to `u8`, as `as` does.
    fn to_u8(&self) -> (r: u8)
        ensures
            r as int == wrap_unsigned(self.value(), 256),
    ;

    /// Converts to `u16`, as `as` does.
    fn to_u16(&self) -> (r: u16)
        ensures
            r as int == wrap_unsigned(self.value(), 0x1_0000),
    ;

    /// Converts to `u32`, as `as` does.
    fn to_u32(&self) -> (r: u32)
        ensures
            r as int == wrap_unsigned(self.value(), 0x1_0000_0000),
    ;

    /// Converts to `u64`, as `as` does.
    fn to_u64(&self) -> (r: u64)
        ensures
            r as int == wrap_unsigned(self.value(), 0x1_0000_0000_0000_0000),
    ;

    /// Converts to `usize`, the unsigned integer of the platform width, as `as` does.
    fn to_uint(&self) -> (r: usize)
        ensures
            r as int == wrap_unsigned(self.value(), usize::MAX + 1),
    ;

    /// Converts to `i8`, as `as` does.
    fn to_i8(&self) -> (r: i8)
        ensures
            r as int == wrap_signed(self.value(), 256),
    ;

    /// Converts to `i16`, as `as` does.
    fn to_i16(&self) -> (r: i16)
        ensures
            r as int == wrap_signed(self.value(), 0x1_0000),
    ;

    /// Converts to `i32`, as `as` does.
    fn to_i32(&self) -> (r: i32)
        ensures
            r as int == wrap_signed(self.value(), 0x1_0000_0000),
    ;

    /// Converts to `i64`, as `as` does.
    fn to_i64(&self) -> (r: i64)
        ensures
            r as int == wrap_signed(self.value(), 0x1_0000_0000_0000_0000),
    ;

    /// Converts to `isize`, the signed integer of the platform width, as `as` does.
    fn to_int(&self) -> (r: isize)
        ensures
            r as int == wrap_signed(self.value(), usize::MAX + 1),
    ;
}

/// A primitive integer kind that can be built from any other.
pub trait NumCast: Primitive {
    /// Converts `n` into this kind, as `n as Self` does.
    fn from<T: Primitive>(n: T) -> (r: Self)
        ensures
            r.value() == Self::wrap(n.value()),
    ;
}

/// The generic entry point to every conversion: `x.cast::<T>()` is
/// `T::from(x)`.
pub trait CastTo: Primitive {
    fn cast<T: NumCast>(&self) -> (r: T)
        ensures
            r.value() == T::wrap(self.value()),
    ;
}

impl<S: Primitive> CastTo for S {
    fn cast<T: NumCast>(&self) -> (r: T) {
        T::from(*self)
    }
}

/// Converts `n` of one primitive kind into another, as `as` does.
pub fn cast<T: Primitive, U: NumCast>(n: T) -> (r: U)
    ensures
        r.value() == U::wrap(n.value()),
{
    n.cast()
}

impl Primitive for u8 {
    open spec fn value(&self) -> int {
        *self as int
    }

    open spec fn lo() -> int {
        u8::MIN as int
    }

    open spec fn hi() -> int {
        u8::MAX as int
    }

    open spec fn modulus() -> int {
        256
    }

    open spec fn wrap(i: int) -> int {
        wrap_unsigned(i, 256)
    }

    proof fn lemma_kind() {}

    proof fn lemma_value_in_range(&self) {
    }

    proof fn lemma_value_determines(&self, other: Self) {
    }

    proof fn lemma_wrap(i: int) {
        Self::lemma_kind();
        lemma_wrap_unsigned(i, Self::modulus());
    }

    proof fn lemma_wrap_congruent(i: int, j: int) {
    }

    fn to_u8(&self) -> (r: u8) {
        proof {
            lemma_as_u8(self.value());
        }
        *self
    }

    fn to_u16(&self) -> (r: u16) {
        proof {
            lemma_as_u16(self.value());
        }
        *self as u16
    }

    fn to_u32(&self) -> (r: u32) {
        proof {
            lemma_as_u32(self.value());
        }
        *self as u32
    }

    fn to_u64(&self) -> (r: u64) {
        proof {
            lemma_as_u64(self.value());
        }
        *self as u64
    }

    fn to_uint(&self) -> (r: usize) {
        proof {
            lemma_as_usize(self.value());
        }
        *self as usize
    }

    fn to_i8(&self) -> (r: i8) {
        proof {
            lemma_as_i8(self.value());
        }
        #[verifier::truncate]
        (*self as i8)
    }

    fn to_i16(&self) -> (r: i16) {
        proof {
            lemma_as_i16(self.value());
        }
        *self as i16
    }

    fn to_i32(&self) -> (r: i32) {
        proof {
            lemma_as_i32(self.value());
        }
        *self as i32
    }

    fn to_i64(&self) -> (r: i64) {
        proof {
            lemma_as_i64(self.value());
        }
        *self as i64
    }

    fn to_int(&self) -> (r: isize) {
        proof {
            lemma_as_isize(self.value());
        }
        *self as isize
    }
}

impl NumCast for u8 {
    fn from<T: Primitive>(n: T) -> (r: u8) {
        proof {
            n.lemma_value_in_range();
            T::lemma_kind();
        }
        n.to_u8()
    }
}

impl Primitive for u16 {
    open spec fn value(&self) -> int {
        *self as int
    }

    open spec fn lo() -> int {
        u16::MIN as int
    }

    open spec fn hi() -> int {
        u16::MAX as int
    }

    open spec fn modulus() -> int {
        0x1_0000
    }

    open spec fn wrap(i: int) -> int {
        wrap_unsigned(i, 0x1_0000)
    }

    proof fn lemma_kind() {}

    proof fn lemma_value_in_range(&self) {
    }

    proof fn lemma_value_determines(&self, other: Self) {
    }

    proof fn lemma_wrap(i: int) {
        Self::lemma_kind();
        lemma_wrap_unsigned(i, Self::modulus());
    }

    proof fn lemma_wrap_congruent(i: int, j: int) {
    }

    fn to_u8(&self) -> (r: u8) {
        proof {
            lemma_as_u8(self.value());
        }
        #[verifier::truncate]
        (*self as u8)
    }

    fn to_u16(&self) -> (r: u16) {
        proof {
            lemma_as_u16(self.value());
        }
        *self
    }

    fn to_u32(&self) -> (r: u32) {
        proof {
            lemma_as_u32(self.value());
        }
        *self as u32
    }

    fn to_u64(&self) -> (r: u64) {
        proof {
            lemma_as_u64(self.value());
        }
        *self as u64
    }

    fn to_uint(&self) -> (r: usize) {
        proof {
            lemma_as_usize(self.value());
        }
        *self as usize
    }

    fn to_i8(&self) -> (r: i8) {
        proof {
            lemma_as_i8(self.value());
        }
        #[verifier::truncate]
        (*self as i8)
    }

    fn to_i16(&self) -> (r: i16) {
        proof {
            lemma_as_i16(self.value());
        }
        #[verifier::truncate]
        (*self as i16)
    }

    fn to_i32(&self) -> (r: i32) {
        proof {
            lemma_as_i32(self.value());
        }
        *self as i32
    }

    fn to_i64(&self) -> (r: i64) {
        proof {
            lemma_as_i64(self.value());
        }
        *self as i64
    }

    fn to_int(&self) -> (r: isize) {
        proof {
            lemma_as_isize(self.value());
        }
        *self as isize
    }
}

impl NumCast for u16 {
    fn from<T: Primitive>(n: T) -> (r: u16) {
        proof {
            n.lemma_value_in_range();
            T::lemma_kind();
        }
        n.to_u16()
    }
}

impl Primitive for u32 {
    open spec fn value(&self) -> int {
        *self as int
    }

    open spec fn lo() -> int {
        u32::MIN as int
    }

    open spec fn hi() -> int {
        u32::MAX as int
    }

    open spec fn modulus() -> int {
        0x1_0000_0000
    }

    open spec fn wrap(i: int) -> int {
        wrap_unsigned(i, 0x1_0000_0000)
    }

    proof fn lemma_kind() {}

    proof fn lemma_value_in_range(&self) {
    }

    proof fn lemma_value_determines(&self, other: Self) {
    }

    proof fn lemma_wrap(i: int) {
        Self::lemma_kind();
        lemma_wrap_unsigned(i, Self::modulus());
    }

    proof fn lemma_wrap_congruent(i: int, j: int) {
    }

    fn to_u8(&self) -> (r: u8) {
        proof {
            lemma_as_u8(self.value());
        }
        #[verifier::truncate]
        (*self as u8)
    }

    fn to_u16(&self) -> (r: u16) {
        proof {
            lemma_as_u16(self.value());
        }
        #[verifier::truncate]
        (*self as u16)
    }

    fn to_u32(&self) -> (r: u32) {
        proof {
            lemma_as_u32(self.value());
        }
        *self
    }

    fn to_u64(&self) -> (r: u64) {
        proof {
            lemma_as_u64(self.value());
        }
        *self as u64
    }

    fn to_uint(&self) -> (r: usize) {
        proof {
            lemma_as_usize(self.value());
        }
        *self as usize
    }

    fn to_i8(&self) -> (r: i8) {
        proof {
            lemma_as_i8(self.value());
        }
        #[verifier::truncate]
        (*self as i8)
    }

    fn to_i16(&self) -> (r: i16) {
        proof {
            lemma_as_i16(self.value());
        }
        #[verifier::truncate]
        (*self as i16)
    }

    fn to_i32(&self) -> (r: i32) {
        proof {
            lemma_as_i32(self.value());
        }
        #[verifier::truncate]
        (*self as i32)
    }

    fn to_i64(&self) -> (r: i64) {
        proof {
            lemma_as_i64(self.value());
        }
        *self as i64
    }

    fn to_int(&self) -> (r: isize) {
        proof {
            lemma_as_isize(self.value());
        }
        #[verifier::truncate]
        (*self as isize)
    }
}

impl NumCast for u32 {
    fn from<T: Primitive>(n: T) -> (r: u32) {
        proof {
            n.lemma_value_in_range();
            T::lemma_kind();
        }
        n.to_u32()
    }
}

impl Primitive for u64 {
    open spec fn value(&self) -> int {
        *self as int
    }

    open spec fn lo() -> int {
        u64::MIN as int
    }

    open spec fn hi() -> int {
        u64::MAX as int
    }

    open spec fn modulus() -> int {
        0x1_0000_0000_0000_0000
    }

    open spec fn wrap(i: int) -> int {
        wrap_unsigned(i, 0x1_0000_0000_0000_0000)
    }

    proof fn lemma_kind() {}

    proof fn lemma_value_in_range(&self) {
    }

    proof fn lemma_value_determines(&self, other: Self) {
    }

    proof fn lemma_wrap(i: int) {
        Self::lemma_kind();
        lemma_wrap_unsigned(i, Self::modulus());
    }

    proof fn lemma_wrap_congruent(i: int, j: int) {
    }

    fn to_u8(&self) -> (r: u8) {
        proof {
            lemma_as_u8(self.value());
        }
        #[verifier::truncate]
        (*self as u8)
    }

    fn to_u16(&self) -> (r: u16) {
        proof {
            lemma_as_u16(self.value());
        }
        #[verifier::truncate]
        (*self as u16)
    }

    fn to_u32(&self) -> (r: u32) {
        proof {
            lemma_as_u32(self.value());
        }
        #[verifier::truncate]
        (*self as u32)
    }

    fn to_u64(&self) -> (r: u64) {
        proof {
            lemma_as_u64(self.value());
        }
        *self
    }

    fn to_uint(&self) -> (r: usize) {
        proof {
            lemma_as_usize(self.value());
        }
        #[verifier::truncate]
        (*self as usize)
    }

    fn to_i8(&self) -> (r: i8) {
        proof {
            lemma_as_i8(self.value());
        }
        #[verifier::truncate]
        (*self as i8)
    }

    fn to_i16(&self) -> (r: i16) {
        proof {
            lemma_as_i16(self.value());
        }
        #[verifier::truncate]
        (*self as i16)
    }

    fn to_i32(&self) -> (r: i32) {
        proof {
            lemma_as_i32(self.value());
        }
        #[verifier::truncate]
        (*self as i32)
    }

    fn to_i64(&self) -> (r: i64) {
        proof {
            lemma_as_i64(self.value());
        }
        #[verifier::truncate]
        (*self as i64)
    }

    fn to_int(&self) -> (r: isize) {
        proof {
            lemma_as_isize(self.value());
        }
        #[verifier::truncate]
        (*self as isize)
    }
}

impl NumCast for u64 {
    fn from<T: Primitive>(n: T) -> (r: u64) {
        proof {
            n.lemma_value_in_range();
            T::lemma_kind();
        }
        n.to_u64()
    }
}

impl Primitive for usize {
    open spec fn value(&self) -> int {
        *self as int
    }

    open spec fn lo() -> int {
        usize::MIN as int
    }

    open spec fn hi() -> int {
        usize::MAX as int
    }

    open spec fn modulus() -> int {
        usize::MAX + 1
    }

    open spec fn wrap(i: int) -> int {
        wrap_unsigned(i, usize::MAX + 1)
    }

    proof fn lemma_kind() {
        if usize::BITS == 64 {
            assert(usize::MAX + 1 == 0x1_0000_0000_0000_0000);
        } else {
            assert(usize::MAX + 1 == 0x1_0000_0000);
        }
    }

    proof fn lemma_value_in_range(&self) {
    }

    proof fn lemma_value_determines(&self, other: Self) {
    }

    proof fn lemma_wrap(i: int) {
        Self::lemma_kind();
        lemma_wrap_unsigned(i, Self::modulus());
    }

    proof fn lemma_wrap_congruent(i: int, j: int) {
    }

    fn to_u8(&self) -> (r: u8) {
        proof {
            lemma_as_u8(self.value());
        }
        #[verifier::truncate]
        (*self as u8)
    }

    fn to_u16(&self) -> (r: u16) {
        proof {
            lemma_as_u16(self.value());
        }
        #[verifier::truncate]
        (*self as u16)
    }

    fn to_u32(&self) -> (r: u32) {
        proof {
            lemma_as_u32(self.value());
        }
        #[verifier::truncate]
        (*self as u32)
    }

    fn to_u64(&self) -> (r: u64) {
        proof {
            lemma_as_u64(self.value());
        }
        *self as u64
    }

    fn to_uint(&self) -> (r: usize) {
        proof {
            lemma_as_usize(self.value());
        }
        *self
    }

    fn to_i8(&self) -> (r: i8) {
        proof {
            lemma_as_i8(self.value());
        }
        #[verifier::truncate]
        (*self as i8)
    }

    fn to_i16(&self) -> (r: i16) {
        proof {
            lemma_as_i16(self.value());
        }
        #[verifier::truncate]
        (*self as i16)
    }

    fn to_i32(&self) -> (r: i32) {
        proof {
            lemma_as_i32(self.value());
        }
        #[verifier::truncate]
        (*self as i32)
    }

    fn to_i64(&self) -> (r: i64) {
        proof {
            lemma_as_i64(self.value());
        }
        #[verifier::truncate]
        (*self as i64)
    }

    fn to_int(&self) -> (r: isize) {
        proof {
            lemma_as_isize(self.value());
        }
        #[verifier::truncate]
        (*self as isize)
    }
}

impl NumCast for usize {
    fn from<T: Primitive>(n: T) -> (r: usize) {
        proof {
            n.lemma_value_in_range();
            T::lemma_kind();
        }
        n.to_uint()
    }
}

impl Primitive for i8 {
    open spec fn value(&self) -> int {
        *self as int
    }

    open spec fn lo() -> int {
        i8::MIN as int
    }

    open spec fn hi() -> int {
        i8::MAX as int
    }

    open spec fn modulus() -> int {
        256
    }

    open spec fn wrap(i: int) -> int {
        wrap_signed(i, 256)
    }

    proof fn lemma_kind() {}

    proof fn lemma_value_in_range(&self) {
    }

    proof fn lemma_value_determines(&self, other: Self) {
    }

    proof fn lemma_wrap(i: int) {
        Self::lemma_kind();
        lemma_wrap_signed(i, Self::modulus());
    }

    proof fn lemma_wrap_congruent(i: int, j: int) {
    }

    fn to_u8(&self) -> (r: u8) {
        proof {
            lemma_as_u8(self.value());
        }
        #[verifier::truncate]
        (*self as u8)
    }

    fn to_u16(&self) -> (r: u16) {
        proof {
            lemma_as_u16(self.value());
        }
        #[verifier::truncate]
        (*self as u16)
    }

    fn to_u32(&self) -> (r: u32) {
        proof {
            lemma_as_u32(self.value());
        }
        #[verifier::truncate]
        (*self as u32)
    }

    fn to_u64(&self) -> (r: u64) {
        proof {
            lemma_as_u64(self.value());
        }
        #[verifier::truncate]
        (*self as u64)
    }

    fn to_uint(&self) -> (r: usize) {
        proof {
            lemma_as_usize(self.value());
        }
        #[verifier::truncate]
        (*self as usize)
    }

    fn to_i8(&self) -> (r: i8) {
        proof {
            lemma_as_i8(self.value());
        }
        *self
    }

    fn to_i16(&self) -> (r: i16) {
        proof {
            lemma_as_i16(self.value());
        }
        *self as i16
    }

    fn to_i32(&self) -> (r: i32) {
        proof {
            lemma_as_i32(self.value());
        }
        *self as i32
    }

    fn to_i64(&self) -> (r: i64) {
        proof {
            lemma_as_i64(self.value());
        }
        *self as i64
    }

    fn to_int(&self) -> (r: isize) {
        proof {
            lemma_as_isize(self.value());
        }
        *self as isize
    }
}

impl NumCast for i8 {
    fn from<T: Primitive>(n: T) -> (r: i8) {
        proof {
            n.lemma_value_in_range();
            T::lemma_kind();
        }
        n.to_i8()
    }
}

impl Primitive for i16 {
    open spec fn value(&self) -> int {
        *self as int
    }

    open spec fn lo() -> int {
        i16::MIN as int
    }

    open spec fn hi() -> int {
        i16::MAX as int
    }

    open spec fn modulus() -> int {
        0x1_0000
    }

    open spec fn wrap(i: int) -> int {
        wrap_signed(i, 0x1_0000)
    }

    proof fn lemma_kind() {}

    proof fn lemma_value_in_range(&self) {
    }

    proof fn lemma_value_determines(&self, other: Self) {
    }

    proof fn lemma_wrap(i: int) {
        Self::lemma_kind();
        lemma_wrap_signed(i, Self::modulus());
    }

    proof fn lemma_wrap_congruent(i: int, j: int) {
    }

    fn to_u8(&self) -> (r: u8) {
        proof {
            lemma_as_u8(self.value());
        }
        #[verifier::truncate]
        (*self as u8)
    }

    fn to_u16(&self) -> (r: u16) {
        proof {
            lemma_as_u16(self.value());
        }
        #[verifier::truncate]
        (*self as u16)
    }

    fn to_u32(&self) -> (r: u32) {
        proof {
            lemma_as_u32(self.value());
        }
        #[verifier::truncate]
        (*self as u32)
    }

    fn to_u64(&self) -> (r: u64) {
        proof {
            lemma_as_u64(self.value());
        }
        #[verifier::truncate]
        (*self as u64)
    }

    fn to_uint(&self) -> (r: usize) {
        proof {
            lemma_as_usize(self.value());
        }
        #[verifier::truncate]
        (*self as usize)
    }

    fn to_i8(&self) -> (r: i8) {
        proof {
            lemma_as_i8(self.value());
        }
        #[verifier::truncate]
        (*self as i8)
    }

    fn to_i16(&self) -> (r: i16) {
        proof {
            lemma_as_i16(self.value());
        }
        *self
    }

    fn to_i32(&self) -> (r: i32) {
        proof {
            lemma_as_i32(self.value());
        }
        *self as i32
    }

    fn to_i64(&self) -> (r: i64) {
        proof {
            lemma_as_i64(self.value());
        }
        *self as i64
    }

    fn to_int(&self) -> (r: isize) {
        proof {
            lemma_as_isize(self.value());
        }
        *self as isize
    }
}

impl NumCast for i16 {
    fn from<T: Primitive>(n: T) -> (r: i16) {
        proof {
            n.lemma_value_in_range();
            T::lemma_kind();
        }
        n.to_i16()
    }
}

impl Primitive for i32 {
    open spec fn value(&self) -> int {
        *self as int
    }

    open spec fn lo() -> int {
        i32::MIN as int
    }

    open spec fn hi() -> int {
        i32::MAX as int
    }

    open spec fn modulus() -> int {
        0x1_0000_0000
    }

    open spec fn wrap(i: int) -> int {
        wrap_signed(i, 0x1_0000_0000)
    }

    proof fn lemma_kind() {}

    proof fn lemma_value_in_range(&self) {
    }

    proof fn lemma_value_determines(&self, other: Self) {
    }

    proof fn lemma_wrap(i: int) {
        Self::lemma_kind();
        lemma_wrap_signed(i, Self::modulus());
    }

    proof fn lemma_wrap_congruent(i: int, j: int) {
    }

    fn to_u8(&self) -> (r: u8) {
        proof {
            lemma_as_u8(self.value());
        }
        #[verifier::truncate]
        (*self as u8)
    }

    fn to_u16(&self) -> (r: u16) {
        proof {
            lemma_as_u16(self.value());
        }
        #[verifier::truncate]
        (*self as u16)
    }

    fn to_u32(&self) -> (r: u32) {
        proof {
            lemma_as_u32(self.value());
        }
        #[verifier::truncate]
        (*self as u32)
    }

    fn to_u64(&self) -> (r: u64) {
        proof {
            lemma_as_u64(self.value());
        }
        #[verifier::truncate]
        (*self as u64)
    }

    fn to_uint(&self) -> (r: usize) {
        proof {
            lemma_as_usize(self.value());
        }
        #[verifier::truncate]
        (*self as usize)
    }

    fn to_i8(&self) -> (r: i8) {
        proof {
            lemma_as_i8(self.value());
        }
        #[verifier::truncate]
        (*self as i8)
    }

    fn to_i16(&self) -> (r: i16) {
        proof {
            lemma_as_i16(self.value());
        }
        #[verifier::truncate]
        (*self as i16)
    }

    fn to_i32(&self) -> (r: i32) {
        proof {
            lemma_as_i32(self.value());
        }
        *self
    }

    fn to_i64(&self) -> (r: i64) {
        proof {
            lemma_as_i64(self.value());
        }
        *self as i64
    }

    fn to_int(&self) -> (r: isize) {
        proof {
            lemma_as_isize(self.value());
        }
        *self as isize
    }
}

impl NumCast for i32 {
    fn from<T: Primitive>(n: T) -> (r: i32) {
        proof {
            n.lemma_value_in_range();
            T::lemma_kind();
        }
        n.to_i32()
    }
}

impl Primitive for i64 {
    open spec fn value(&self) -> int {
        *self as int
    }

    open spec fn lo() -> int {
        i64::MIN as int
    }

    open spec fn hi() -> int {
        i64::MAX as int
    }

    open spec fn modulus() -> int {
        0x1_0000_0000_0000_0000
    }

    open spec fn wrap(i: int) -> int {
        wrap_signed(i, 0x1_0000_0000_0000_0000)
    }

    proof fn lemma_kind() {}

    proof fn lemma_value_in_range(&self) {
    }

    proof fn lemma_value_determines(&self, other: Self) {
    }

    proof fn lemma_wrap(i: int) {
        Self::lemma_kind();
        lemma_wrap_signed(i, Self::modulus());
    }

    proof fn lemma_wrap_congruent(i: int, j: int) {
    }

    fn to_u8(&self) -> (r: u8) {
        proof {
            lemma_as_u8(self.value());
        }
        #[verifier::truncate]
        (*self as u8)
    }

    fn to_u16(&self) -> (r: u16) {
        proof {
            lemma_as_u16(self.value());
        }
        #[verifier::truncate]
        (*self as u16)
    }

    fn to_u32(&self) -> (r: u32) {
        proof {
            lemma_as_u32(self.value());
        }
        #[verifier::truncate]
        (*self as u32)
    }

    fn to_u64(&self) -> (r: u64) {
        proof {
            lemma_as_u64(self.value());
        }
        #[verifier::truncate]
        (*self as u64)
    }

    fn to_uint(&self) -> (r: usize) {
        proof {
            lemma_as_usize(self.value());
        }
        #[verifier::truncate]
        (*self as usize)
    }

    fn to_i8(&self) -> (r: i8) {
        proof {
            lemma_as_i8(self.value());
        }
        #[verifier::truncate]
        (*self as i8)
    }

    fn to_i16(&self) -> (r: i16) {
        proof {
            lemma_as_i16(self.value());
        }
        #[verifier::truncate]
        (*self as i16)
    }

    fn to_i32(&self) -> (r: i32) {
        proof {
            lemma_as_i32(self.value());
        }
        #[verifier::truncate]
        (*self as i32)
    }

    fn to_i64(&self) -> (r: i64) {
        proof {
            lemma_as_i64(self.value());
        }
        *self
    }

    fn to_int(&self) -> (r: isize) {
        proof {
            lemma_as_isize(self.value());
        }
        #[verifier::truncate]
        (*self as isize)
    }
}

impl NumCast for i64 {
    fn from<T: Primitive>(n: T) -> (r: i64) {
        proof {
            n.lemma_value_in_range();
            T::lemma_kind();
        }
        n.to_i64()
    }
}

impl Primitive for isize {
    open spec fn value(&self) -> int {
        *self as int
    }

    open spec fn lo() -> int {
        isize::MIN as int
    }

    open spec fn hi() -> int {
        isize::MAX as int
    }

    open spec fn modulus() -> int {
        usize::MAX + 1
    }

    open spec fn wrap(i: int) -> int {
        wrap_signed(i, usize::MAX + 1)
    }

    proof fn lemma_kind() {
        if usize::BITS == 64 {
            assert(usize::MAX + 1 == 0x1_0000_0000_0000_0000);
        } else {
            assert(usize::MAX + 1 == 0x1_0000_0000);
        }
    }

    proof fn lemma_value_in_range(&self) {
    }

    proof fn lemma_value_determines(&self, other: Self) {
    }

    proof fn lemma_wrap(i: int) {
        Self::lemma_kind();
        lemma_wrap_signed(i, Self::modulus());
    }

    proof fn lemma_wrap_congruent(i: int, j: int) {
    }

    fn to_u8(&self) -> (r: u8) {
        proof {
            lemma_as_u8(self.value());
        }
        #[verifier::truncate]
        (*self as u8)
    }

    fn to_u16(&self) -> (r: u16) {
        proof {
            lemma_as_u16(self.value());
        }
        #[verifier::truncate]
        (*self as u16)
    }

    fn to_u32(&self) -> (r: u32) {
        proof {
            lemma_as_u32(self.value());
        }
        #[verifier::truncate]
        (*self as u32)
    }

    fn to_u64(&self) -> (r: u64) {
        proof {
            lemma_as_u64(self.value());
        }
        #[verifier::truncate]
        (*self as u64)
    }

    fn to_uint(&self) -> (r: usize) {
        proof {
            lemma_as_usize(self.value());
        }
        #[verifier::truncate]
        (*self as usize)
    }

    fn to_i8(&self) -> (r: i8) {
        proof {
            lemma_as_i8(self.value());
        }
        #[verifier::truncate]
        (*self as i8)
    }

    fn to_i16(&self) -> (r: i16) {
        proof {
            lemma_as_i16(self.value());
        }
        #[verifier::truncate]
        (*self as i16)
    }

    fn to_i32(&self) -> (r: i32) {
        proof {
            lemma_as_i32(self.value());
        }
        #[verifier::truncate]
        (*self as i32)
    }

    fn to_i64(&self) -> (r: i64) {
        proof {
            lemma_as_i64(self.value());
        }
        *self as i64
    }

    fn to_int(&self) -> (r: isize) {
        proof {
            lemma_as_isize(self.value());
        }
        *self
    }
}

impl NumCast for isize {
    fn from<T: Primitive>(n: T) -> (r: isize) {
        proof {
            n.lemma_value_in_range();
            T::lemma_kind();
        }
        n.to_int()
    }
}

/// Casting a value to its own kind and converting the result back with
/// `from` gives the value itself.
pub proof fn lemma_cast_to_own_kind_round_trips<K: Primitive>(x: K)
    ensures
        K::wrap(K::wrap(x.value())) == x.value(),
        forall|y: K| y.value() == K::wrap(K::wrap(x.value())) ==> y == x,
{
    x.lemma_value_in_range();
    K::lemma_wrap(x.value());
    assert forall|y: K| y.value() == K::wrap(K::wrap(x.value())) implies y == x by {
        y.lemma_value_determines(x);
    }
}

/// A cast into a kind whose range holds the whole range of the source kind
/// keeps the value exactly, and casting the result back gives the source
/// value again.
pub proof fn lemma_widening_cast_keeps_value<K: Primitive, T: Primitive>(x: K)
    requires
        T::lo() <= K::lo(),
        K::hi() <= T::hi(),
    ensures
        T::wrap(x.value()) == x.value(),
        K::wrap(T::wrap(x.value())) == x.value(),
{
    x.lemma_value_in_range();
    T::lemma_wrap(x.value());
    K::lemma_wrap(x.value());
}

/// Any cast lands in the range of the target kind and moves the value by a
/// multiple of `2^n`, `n` the width of the target kind: it keeps the low `n`
/// bits. A value that the target kind can hold passes through unchanged.
pub proof fn lemma_cast_keeps_low_bits<K: Primitive, T: Primitive>(x: K)
    ensures
        T::lo() <= T::wrap(x.value()) <= T::hi(),
        (T::wrap(x.value()) - x.value()) % T::modulus() == 0,
        T::lo() <= x.value() <= T::hi() ==> T::wrap(x.value()) == x.value(),
{
    T::lemma_wrap(x.value());
}

/// Narrowing in steps, through a kind at least as wide as the target, gives
/// what a direct cast into the target gives.
pub proof fn lemma_narrowing_in_steps<K: Primitive, W: Primitive, T: Primitive>(x: K)
    requires
        W::modulus() % T::modulus() == 0,
    ensures
        T::wrap(W::wrap(x.value())) == T::wrap(x.value()),
{
    let v = x.value();
    let w = W::wrap(v);
    let mw = W::modulus();
    let mt = T::modulus();
    W::lemma_kind();
    T::lemma_kind();
    W::lemma_wrap(v);
    lemma_fundamental_div_mod(w - v, mw);
    lemma_fundamental_div_mod(mw, mt);
    let k = (mw / mt) * ((w - v) / mw);
    assert(w - v == k * mt) by (nonlinear_arith)
        requires
            w - v == mw * ((w - v) / mw),
            mw == mt * (mw / mt),
            k == (mw / mt) * ((w - v) / mw),
    ;
    lemma_mod_multiples_basic(k, mt);
    lemma_mod_equivalence(w, v, mt);
    T::lemma_wrap_congruent(w, v);
}

} // verus!
