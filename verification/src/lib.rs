//! Explicit, intention-revealing narrowing conversions between integer types.
//!
//! A plain `as` cast silently discards high-order bits, which is often not
//! what a call site means.  This crate offers four named truncation
//! semantics, each a pure function of its input, implemented for every
//! ordered pair of integer types where the destination is strictly narrower
//! than the source or has the same width but the opposite signedness:
//!
//! - [`TruncateUnchecked`]: keep the low-order bits, discarding the rest.
//!   Offered only for unsigned sources, where the meaning of the low-order
//!   bits is unambiguous.
//! - [`TryTruncate`]: return the exact value when it fits the destination
//!   type, and `None` otherwise.
//! - [`Chop`]: return the exact value when it fits; an out-of-range input
//!   is a caller error, excluded by the precondition, and aborts at run
//!   time when reached from unverified code.
//! - [`Shrink`]: return the exact value when it fits, and the nearer
//!   boundary of the destination's range otherwise.
//!
//! Each family has a dual whose generic parameter is the destination type
//! rather than the source, for call sites whose bounds name the destination:
//! [`TryTruncateFrom`], [`ChopFrom`], and [`ShrinkFrom`] forward to the
//! primary forms and carry contracts identical to them.  Bitwise truncation
//! has no `from`-oriented dual, since its primary form is itself restricted
//! to unsigned sources.
//!
//! Every contract is stated over the mathematical value of the integers
//! involved, defined in [`model`]: see [`model::IntValue::as_int`],
//! [`model::clamped`] and [`model::wrapped`].

pub mod model;
pub mod signed_sources;
pub mod unsigned_sources;

use vstd::prelude::*;

verus! {

use crate::model::{IntRange, IntValue, clamped, wrapped};

/// Checked truncation: the exact value, if it is representable.
pub trait TryTruncate<T>: IntValue where T: IntRange {
    /// Try to truncate an integer to fit into the type `T`.
    ///
    /// Returns `Some` exactly when the value is within `T`'s representable
    /// range, and the value carried is the input re-expressed in `T`.
    fn try_truncate(self) -> (r: Option<T>)
        ensures
            (r is Some) <==> (T::min_int() <= self.as_int() <= T::max_int()),
            r matches Some(v) ==> v.as_int() == self.as_int(),
    ;
}

/// The dual of [`TryTruncate`]: the destination type is the implementor.
pub trait TryTruncateFrom<T>: Sized where Self: IntRange, T: TryTruncate<Self> {
    /// Try to truncate an integer to fit into the `Self` type.
    ///
    /// Returns `Some` exactly when the value is within `Self`'s
    /// representable range, and the value carried is the input
    /// re-expressed in `Self`.
    fn try_truncate_from(value: T) -> (r: Option<Self>)
        ensures
            (r is Some) <==> (Self::min_int() <= value.as_int() <= Self::max_int()),
            r matches Some(v) ==> v.as_int() == value.as_int(),
    ;
}

impl<Source, Dest> TryTruncateFrom<Source> for Dest where
    Dest: IntRange,
    Source: TryTruncate<Dest>,
 {
    fn try_truncate_from(value: Source) -> (r: Option<Self>)
        ensures
            (r is Some) <==> (Dest::min_int() <= value.as_int() <= Dest::max_int()),
            r matches Some(v) ==> v.as_int() == value.as_int(),
    {
        value.try_truncate()
    }
}

/// Aborting truncation: the exact value, owed only inside the range.
pub trait Chop<T>: IntValue where T: IntRange {
    /// Truncate an integer known to fit into the type `T`.
    ///
    /// The precondition restricts the input to `T`'s representable range,
    /// so a verified caller can never reach the overflow abort; an
    /// unverified caller that passes an out-of-range value aborts.
    fn chop(self) -> (r: T)
        requires
            T::min_int() <= self.as_int() <= T::max_int(),
        ensures
            r.as_int() == self.as_int(),
    ;
}

/// The dual of [`Chop`]: the destination type is the implementor.
pub trait ChopFrom<T> where Self: IntRange, T: Chop<Self> {
    /// Truncate an integer known to fit into the `Self` type.
    ///
    /// The precondition restricts the input to `Self`'s representable
    /// range, so a verified caller can never reach the overflow abort; an
    /// unverified caller that passes an out-of-range value aborts.
    fn chop_from(value: T) -> (r: Self)
        requires
            Self::min_int() <= value.as_int() <= Self::max_int(),
        ensures
            r.as_int() == value.as_int(),
    ;
}

impl<Source, Dest> ChopFrom<Source> for Dest where
    Dest: IntRange,
    Source: Chop<Dest>,
 {
    fn chop_from(value: Source) -> (r: Self)
        ensures
            r.as_int() == value.as_int(),
    {
        value.chop()
    }
}

/// Bitwise truncation: keep the destination's width of low-order bits.
pub trait TruncateUnchecked<T>: IntValue where T: IntRange {
    /// Truncate an integer to the type `T` by discarding high-order bits.
    ///
    /// Total: the result is the input reduced modulo the size of `T`'s
    /// range and shifted into it — the value of the low-order bits, read
    /// as two's complement when `T` is signed.  Implemented only for
    /// unsigned sources.
    fn truncate_unchecked(self) -> (r: T)
        ensures
            r.as_int() == wrapped(self.as_int(), T::min_int(), T::max_int()),
    ;
}

/// The dual of [`TruncateUnchecked`]: the destination type is the
/// implementor.
pub trait TruncateFromUnchecked<T> where Self: IntRange, T: TruncateUnchecked<Self> {
    /// Truncate an integer to the `Self` type by discarding high-order
    /// bits.
    ///
    /// Total: the result is the input reduced modulo the size of `Self`'s
    /// range and shifted into it — the value of the low-order bits, read
    /// as two's complement when `Self` is signed.
    fn truncate_from_unchecked(value: T) -> (r: Self)
        ensures
            r.as_int() == wrapped(value.as_int(), Self::min_int(), Self::max_int()),
    ;
}

impl<Source, Dest> TruncateFromUnchecked<Source> for Dest where
    Dest: IntRange,
    Source: TruncateUnchecked<Dest>,
 {
    fn truncate_from_unchecked(value: Source) -> (r: Self)
        ensures
            r.as_int() == wrapped(value.as_int(), Dest::min_int(), Dest::max_int()),
    {
        value.truncate_unchecked()
    }
}

/// Saturating truncation: the exact value, or the nearer boundary.
pub trait Shrink<T>: IntValue where T: IntRange {
    /// Truncate an integer to the type `T`, saturating at its boundaries.
    ///
    /// Total: the result is the input clamped into `T`'s representable
    /// range — the exact value when it fits, `T`'s minimum below the
    /// range, and `T`'s maximum above it.
    fn shrink(self) -> (r: T)
        ensures
            r.as_int() == clamped(self.as_int(), T::min_int(), T::max_int()),
    ;
}

/// The dual of [`Shrink`]: the destination type is the implementor.
pub trait ShrinkFrom<T> where Self: IntRange, T: Shrink<Self> {
    /// Truncate an integer to the `Self` type, saturating at its
    /// boundaries.
    ///
    /// Total: the result is the input clamped into `Self`'s representable
    /// range — the exact value when it fits, `Self`'s minimum below the
    /// range, and `Self`'s maximum above it.
    fn shrink_from(value: T) -> (r: Self)
        ensures
            r.as_int() == clamped(value.as_int(), Self::min_int(), Self::max_int()),
    ;
}

impl<Source, Dest> ShrinkFrom<Source> for Dest where
    Dest: IntRange,
    Source: Shrink<Dest>,
 {
    fn shrink_from(value: Source) -> (r: Self)
        ensures
            r.as_int() == clamped(value.as_int(), Dest::min_int(), Dest::max_int()),
    {
        value.shrink()
    }
}

/// Any two results that meet the checked-truncation contract for the same
/// source value are equal.  Since a primary operation and its dual carry
/// the same contract, their results agree on every input.
pub proof fn lemma_checked_result_unique<D: IntRange>(v: int, r1: Option<D>, r2: Option<D>)
    requires
        (r1 is Some) <==> (D::min_int() <= v <= D::max_int()),
        r1 matches Some(a) ==> a.as_int() == v,
        (r2 is Some) <==> (D::min_int() <= v <= D::max_int()),
        r2 matches Some(b) ==> b.as_int() == v,
    ensures
        r1 == r2,
{
    match (r1, r2) {
        (Some(a), Some(b)) => {
            D::lemma_as_int_injective(a, b);
        },
        _ => {},
    }
}

/// Any two destination values with the same mathematical value are equal:
/// a contract that pins the result's mathematical value pins the result.
/// Applied to aborting, bitwise and saturating truncation, whose contracts
/// each pin the result's value, it says that a primary operation and its
/// dual agree on every input.
pub proof fn lemma_exact_result_unique<D: IntRange>(a: D, b: D)
    requires
        a.as_int() == b.as_int(),
    ensures
        a == b,
{
    D::lemma_as_int_injective(a, b);
}

} // verus!
