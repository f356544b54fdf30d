//! The mathematical model behind every truncation operation.
//!
//! Each supported machine integer is mapped to its value as an unbounded
//! mathematical integer, and each destination type to its representable
//! range.  The contracts of the operation traits are stated purely over
//! this model: an operation is correct exactly when the mathematical value
//! of its result relates to the mathematical value of its input as the
//! contract demands.

use vstd::prelude::*;

verus! {

/// A machine integer seen as a mathematical integer.
pub trait IntValue: Sized {
    /// The value of `self` as an unbounded mathematical integer.
    spec fn as_int(self) -> int;
}

/// A destination type of a truncation: a machine integer type whose
/// representable range `[min_int(), max_int()]` bounds every value,
/// and whose values are determined by their mathematical value.
pub trait IntRange: IntValue + Copy {
    /// The least value the type can represent.
    spec fn min_int() -> int;

    /// The greatest value the type can represent.
    spec fn max_int() -> int;

    /// Every value of the type lies within its representable range.
    proof fn lemma_as_int_in_range(self)
        ensures
            Self::min_int() <= self.as_int() <= Self::max_int(),
    ;

    /// Two values of the type with the same mathematical value are equal:
    /// a result pinned down by its mathematical value is pinned down fully.
    proof fn lemma_as_int_injective(a: Self, b: Self)
        ensures
            a.as_int() == b.as_int() ==> a == b,
    ;
}

/// `v` clamped into the range `[lo, hi]`: the exact value when it fits,
/// otherwise the nearer boundary.
pub open spec fn clamped(v: int, lo: int, hi: int) -> int {
    if v < lo {
        lo
    } else if v > hi {
        hi
    } else {
        v
    }
}

/// `v` reduced modulo the size of the range `[lo, hi]` and then shifted
/// into that range.  For a destination range of a width-`w` unsigned type
/// (`lo == 0`) this is `v` modulo `2^w`; for a width-`w` signed type
/// (`lo == -2^(w-1)`) it is the two's-complement reading of the low `w`
/// bits of a non-negative `v`.
pub open spec fn wrapped(v: int, lo: int, hi: int) -> int {
    if v % (hi - lo + 1) > hi {
        v % (hi - lo + 1) - (hi - lo + 1)
    } else {
        v % (hi - lo + 1)
    }
}

/// Clamping an in-range value returns it unchanged.
pub proof fn lemma_clamped_in_range(v: int, lo: int, hi: int)
    requires
        lo <= v <= hi,
    ensures
        clamped(v, lo, hi) == v,
{
}

/// Clamping a value above the range returns the upper boundary.
pub proof fn lemma_clamped_above(v: int, lo: int, hi: int)
    requires
        lo <= hi < v,
    ensures
        clamped(v, lo, hi) == hi,
{
}

/// Clamping a value below the range returns the lower boundary.
pub proof fn lemma_clamped_below(v: int, lo: int, hi: int)
    requires
        v < lo <= hi,
    ensures
        clamped(v, lo, hi) == lo,
{
}

/// Wrapping a non-negative value into a range that starts at or below zero
/// always lands inside the range.
pub proof fn lemma_wrapped_in_range(v: int, lo: int, hi: int)
    requires
        0 <= v,
        lo <= 0 <= hi,
    ensures
        lo <= wrapped(v, lo, hi) <= hi,
{
    let span = hi - lo + 1;
    vstd::arithmetic::div_mod::lemma_mod_pos_bound(v, span);
}

/// Wrapping a value that already lies in the range returns it unchanged:
/// on in-range inputs, bitwise truncation agrees with the exact conversion.
pub proof fn lemma_wrapped_identity(v: int, lo: int, hi: int)
    requires
        lo <= 0 <= v <= hi,
    ensures
        wrapped(v, lo, hi) == v,
{
    let span = hi - lo + 1;
    vstd::arithmetic::div_mod::lemma_small_mod(v as nat, span as nat);
}

impl IntValue for u8 {
    open spec fn as_int(self) -> int {
        self as int
    }
}

impl IntValue for u16 {
    open spec fn as_int(self) -> int {
        self as int
    }
}

impl IntValue for u32 {
    open spec fn as_int(self) -> int {
        self as int
    }
}

impl IntValue for u64 {
    open spec fn as_int(self) -> int {
        self as int
    }
}

impl IntValue for u128 {
    open spec fn as_int(self) -> int {
        self as int
    }
}

impl IntValue for usize {
    open spec fn as_int(self) -> int {
        self as int
    }
}

impl IntValue for i8 {
    open spec fn as_int(self) -> int {
        self as int
    }
}

impl IntValue for i16 {
    open spec fn as_int(self) -> int {
        self as int
    }
}

impl IntValue for i32 {
    open spec fn as_int(self) -> int {
        self as int
    }
}

impl IntValue for i64 {
    open spec fn as_int(self) -> int {
        self as int
    }
}

impl IntValue for i128 {
    open spec fn as_int(self) -> int {
        self as int
    }
}

impl IntRange for u8 {
    open spec fn min_int() -> int {
        u8::MIN as int
    }

    open spec fn max_int() -> int {
        u8::MAX as int
    }

    proof fn lemma_as_int_in_range(self) {
    }

    proof fn lemma_as_int_injective(a: u8, b: u8) {
    }
}

impl IntRange for u16 {
    open spec fn min_int() -> int {
        u16::MIN as int
    }

    open spec fn max_int() -> int {
        u16::MAX as int
    }

    proof fn lemma_as_int_in_range(self) {
    }

    proof fn lemma_as_int_injective(a: u16, b: u16) {
    }
}

impl IntRange for u32 {
    open spec fn min_int() -> int {
        u32::MIN as int
    }

    open spec fn max_int() -> int {
        u32::MAX as int
    }

    proof fn lemma_as_int_in_range(self) {
    }

    proof fn lemma_as_int_injective(a: u32, b: u32) {
    }
}

impl IntRange for u64 {
    open spec fn min_int() -> int {
        u64::MIN as int
    }

    open spec fn max_int() -> int {
        u64::MAX as int
    }

    proof fn lemma_as_int_in_range(self) {
    }

    proof fn lemma_as_int_injective(a: u64, b: u64) {
    }
}

impl IntRange for u128 {
    open spec fn min_int() -> int {
        u128::MIN as int
    }

    open spec fn max_int() -> int {
        u128::MAX as int
    }

    proof fn lemma_as_int_in_range(self) {
    }

    proof fn lemma_as_int_injective(a: u128, b: u128) {
    }
}

impl IntRange for i8 {
    open spec fn min_int() -> int {
        i8::MIN as int
    }

    open spec fn max_int() -> int {
        i8::MAX as int
    }

    proof fn lemma_as_int_in_range(self) {
    }

    proof fn lemma_as_int_injective(a: i8, b: i8) {
    }
}

impl IntRange for i16 {
    open spec fn min_int() -> int {
        i16::MIN as int
    }

    open spec fn max_int() -> int {
        i16::MAX as int
    }

    proof fn lemma_as_int_in_range(self) {
    }

    proof fn lemma_as_int_injective(a: i16, b: i16) {
    }
}

impl IntRange for i32 {
    open spec fn min_int() -> int {
        i32::MIN as int
    }

    open spec fn max_int() -> int {
        i32::MAX as int
    }

    proof fn lemma_as_int_in_range(self) {
    }

    proof fn lemma_as_int_injective(a: i32, b: i32) {
    }
}

impl IntRange for i64 {
    open spec fn min_int() -> int {
        i64::MIN as int
    }

    open spec fn max_int() -> int {
        i64::MAX as int
    }

    proof fn lemma_as_int_in_range(self) {
    }

    proof fn lemma_as_int_injective(a: i64, b: i64) {
    }
}

impl IntRange for i128 {
    open spec fn min_int() -> int {
        i128::MIN as int
    }

    open spec fn max_int() -> int {
        i128::MAX as int
    }

    proof fn lemma_as_int_in_range(self) {
    }

    proof fn lemma_as_int_injective(a: i128, b: i128) {
    }
}

} // verus!
