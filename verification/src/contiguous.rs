//! Converting between a type with a contiguous range of valid values and
//! the integer that represents it.
use crate::casts::size_violation;
use crate::checks::{CheckMode, InvariantViolation};
use crate::layout::same_size;
use crate::panicking::BoundValue;
use crate::sealed::Sealed;
use core::marker::PhantomData;
use vstd::prelude::*;

verus! {

/// The integer types that [`from_integer`] supports: the twelve primitive
/// integer types.
///
/// This trait cannot be implemented outside this crate.
pub trait Integer: Copy + Sealed {
    /// The integer, widened.
    spec fn bound_value(self) -> BoundValue;

    /// Whether this integer is less than `other`.
    fn is_less_than(self, other: Self) -> (r: bool)
        ensures
            r == (self.bound_value().as_int() < other.bound_value().as_int()),
    ;

    /// Widens the integer.
    fn to_bound_value(self) -> (r: BoundValue)
        ensures
            r == self.bound_value(),
    ;
}

impl Integer for i8 {
    open spec fn bound_value(self) -> BoundValue {
        BoundValue::Signed(self as i128)
    }

    fn is_less_than(self, other: Self) -> (r: bool) {
        self < other
    }

    fn to_bound_value(self) -> (r: BoundValue) {
        BoundValue::Signed(self as i128)
    }
}

impl Integer for i16 {
    open spec fn bound_value(self) -> BoundValue {
        BoundValue::Signed(self as i128)
    }

    fn is_less_than(self, other: Self) -> (r: bool) {
        self < other
    }

    fn to_bound_value(self) -> (r: BoundValue) {
        BoundValue::Signed(self as i128)
    }
}

impl Integer for i32 {
    open spec fn bound_value(self) -> BoundValue {
        BoundValue::Signed(self as i128)
    }

    fn is_less_than(self, other: Self) -> (r: bool) {
        self < other
    }

    fn to_bound_value(self) -> (r: BoundValue) {
        BoundValue::Signed(self as i128)
    }
}

impl Integer for i64 {
    open spec fn bound_value(self) -> BoundValue {
        BoundValue::Signed(self as i128)
    }

    fn is_less_than(self, other: Self) -> (r: bool) {
        self < other
    }

    fn to_bound_value(self) -> (r: BoundValue) {
        BoundValue::Signed(self as i128)
    }
}

impl Integer for i128 {
    open spec fn bound_value(self) -> BoundValue {
        BoundValue::Signed(self as i128)
    }

    fn is_less_than(self, other: Self) -> (r: bool) {
        self < other
    }

    fn to_bound_value(self) -> (r: BoundValue) {
        BoundValue::Signed(self as i128)
    }
}

impl Integer for isize {
    open spec fn bound_value(self) -> BoundValue {
        BoundValue::Signed(self as i128)
    }

    fn is_less_than(self, other: Self) -> (r: bool) {
        self < other
    }

    fn to_bound_value(self) -> (r: BoundValue) {
        BoundValue::Signed(self as i128)
    }
}

impl Integer for u8 {
    open spec fn bound_value(self) -> BoundValue {
        BoundValue::Unsigned(self as u128)
    }

    fn is_less_than(self, other: Self) -> (r: bool) {
        self < other
    }

    fn to_bound_value(self) -> (r: BoundValue) {
        BoundValue::Unsigned(self as u128)
    }
}

impl Integer for u16 {
    open spec fn bound_value(self) -> BoundValue {
        BoundValue::Unsigned(self as u128)
    }

    fn is_less_than(self, other: Self) -> (r: bool) {
        self < other
    }

    fn to_bound_value(self) -> (r: BoundValue) {
        BoundValue::Unsigned(self as u128)
    }
}

impl Integer for u32 {
    open spec fn bound_value(self) -> BoundValue {
        BoundValue::Unsigned(self as u128)
    }

    fn is_less_than(self, other: Self) -> (r: bool) {
        self < other
    }

    fn to_bound_value(self) -> (r: BoundValue) {
        BoundValue::Unsigned(self as u128)
    }
}

impl Integer for u64 {
    open spec fn bound_value(self) -> BoundValue {
        BoundValue::Unsigned(self as u128)
    }

    fn is_less_than(self, other: Self) -> (r: bool) {
        self < other
    }

    fn to_bound_value(self) -> (r: BoundValue) {
        BoundValue::Unsigned(self as u128)
    }
}

impl Integer for u128 {
    open spec fn bound_value(self) -> BoundValue {
        BoundValue::Unsigned(self as u128)
    }

    fn is_less_than(self, other: Self) -> (r: bool) {
        self < other
    }

    fn to_bound_value(self) -> (r: BoundValue) {
        BoundValue::Unsigned(self as u128)
    }
}

impl Integer for usize {
    open spec fn bound_value(self) -> BoundValue {
        BoundValue::Unsigned(self as u128)
    }

    fn is_less_than(self, other: Self) -> (r: bool) {
        self < other
    }

    fn to_bound_value(self) -> (r: BoundValue) {
        BoundValue::Unsigned(self as u128)
    }
}

/// The mathematical integer that `integer` holds.
pub open spec fn int_of<I: Integer>(integer: I) -> int {
    integer.bound_value().as_int()
}

/// Stands for the claim that `T` is represented as an `I` and that the
/// valid values of `T` are those represented by the integers from
/// `min_value` to `max_value`, both included.
#[derive(Debug)]
pub struct IsContiguous<T, I> {
    min_value: I,
    max_value: I,
    _subject: PhantomData<T>,
}

impl<T, I: Copy> Clone for IsContiguous<T, I> {
    fn clone(&self) -> (r: Self) {
        *self
    }
}

impl<T, I: Copy> Copy for IsContiguous<T, I> {

}

impl<T, I: Integer> IsContiguous<T, I> {
    /// The least integer that represents a `T`.
    pub closed spec fn spec_min_value(self) -> I {
        self.min_value
    }

    /// The greatest integer that represents a `T`.
    pub closed spec fn spec_max_value(self) -> I {
        self.max_value
    }

    /// Whether `integer` lies within the bounds.
    pub open spec fn contains(self, integer: I) -> bool {
        int_of(self.spec_min_value()) <= int_of(integer) <= int_of(self.spec_max_value())
    }

    /// What the marker claims, as far as it can be compared: `T` is as
    /// large as `I`, and the least integer is not above the greatest.
    pub open spec fn holds(self) -> bool {
        same_size::<T, I>() && int_of(self.spec_min_value()) <= int_of(self.spec_max_value())
    }

    /// Makes the marker for a `T` that is as large as `I`, with bounds of
    /// which the least is not above the greatest.
    pub fn new(min_value: I, max_value: I) -> (r: Self)
        requires
            same_size::<T, I>(),
            int_of(min_value) <= int_of(max_value),
        ensures
            r.spec_min_value() == min_value,
            r.spec_max_value() == max_value,
            r.holds(),
    {
        IsContiguous { min_value, max_value, _subject: PhantomData }
    }

    /// Whether the marker holds, as far as it can be compared.
    pub fn is_contiguous(&self) -> (r: bool)
        ensures
            r == self.holds(),
    {
        core::mem::size_of::<T>() == core::mem::size_of::<I>() && !self.max_value.is_less_than(
            self.min_value,
        )
    }

    /// Makes the marker without any check: that the integers from
    /// `min_value` to `max_value` represent the values of `T` is the caller's
    /// claim.
    pub fn new_unchecked(min_value: I, max_value: I) -> (r: Self)
        ensures
            r.spec_min_value() == min_value,
            r.spec_max_value() == max_value,
    {
        IsContiguous { min_value, max_value, _subject: PhantomData }
    }

    /// The least integer that represents a `T`.
    pub fn min_value(&self) -> (r: I)
        ensures
            r == self.spec_min_value(),
    {
        self.min_value
    }

    /// The greatest integer that represents a `T`.
    pub fn max_value(&self) -> (r: I)
        ensures
            r == self.spec_max_value(),
    {
        self.max_value
    }
}

/// A value of `T`, given by the integer that represents it.
#[derive(Debug, PartialEq, Eq)]
pub struct IntRepr<T, I> {
    integer: I,
    _subject: PhantomData<T>,
}

impl<T, I: Integer> View for IntRepr<T, I> {
    type V = I;

    closed spec fn view(&self) -> I {
        self.integer
    }
}

impl<T, I: Integer> IntRepr<T, I> {
    /// Takes `integer` as the representation of a `T`.
    pub fn new(integer: I) -> (r: Self)
        ensures
            r@ == integer,
    {
        IntRepr { integer, _subject: PhantomData }
    }

    /// The integer that represents the value.
    pub fn integer(&self) -> (r: I)
        ensures
            r == self@,
    {
        self.integer
    }
}

/// The outcome `r` of [`from_integer`] with the integer in place of the
/// value that it represents.
pub open spec fn integers<T, I: Integer>(
    r: Result<Option<IntRepr<T, I>>, InvariantViolation>,
) -> Result<Option<I>, InvariantViolation> {
    match r {
        Ok(Some(value)) => Ok(Some(value@)),
        Ok(None) => Ok(None),
        Err(found) => Err(found),
    }
}

/// The outcome of [`into_integer`] on a `T` that `integer` represents.
pub open spec fn into_integer_result<T, I: Integer>(integer: I, checks: CheckMode) -> Result<
    I,
    InvariantViolation,
> {
    match size_violation::<T, I>(checks) {
        Some(found) => Err(found),
        None => Ok(integer),
    }
}

/// The outcome of [`from_integer`]: the bounds are compared with each
/// other, then `integer` with the bounds, then the sizes of `I` and `T`.
pub open spec fn from_integer_result<T, I: Integer>(
    integer: I,
    bounds: IsContiguous<T, I>,
    checks: CheckMode,
) -> Result<Option<I>, InvariantViolation> {
    if checks == CheckMode::Checked && int_of(bounds.spec_max_value()) < int_of(
        bounds.spec_min_value(),
    ) {
        Err(
            InvariantViolation::ImpossibleBounds {
                min_value: bounds.spec_min_value().bound_value(),
                max_value: bounds.spec_max_value().bound_value(),
            },
        )
    } else if !bounds.contains(integer) {
        Ok(None)
    } else {
        match size_violation::<I, T>(checks) {
            Some(found) => Err(found),
            None => Ok(Some(integer)),
        }
    }
}

/// Converts a `T` into the integer that represents it.
///
/// Under [`CheckMode::Checked`] it is reported where `T` is not as large
/// as `I`.
pub fn into_integer<T, I: Integer>(
    value: IntRepr<T, I>,
    _bounds: IsContiguous<T, I>,
    checks: CheckMode,
) -> (r: Result<I, InvariantViolation>)
    requires
        checks == CheckMode::Unchecked ==> same_size::<T, I>(),
    ensures
        r == into_integer_result::<T, I>(value@, checks),
{
    match crate::casts::check_size::<T, I>(checks) {
        Ok(()) => Ok(value.integer),
        Err(found) => Err(found),
    }
}

/// Converts `integer` into the `T` that it represents, if it lies within
/// the bounds; gives `None` if it does not.
///
/// Under [`CheckMode::Checked`] it is reported where the least integer of
/// the bounds lies above the greatest and, for an integer within the bounds,
/// where `I` is not as large as `T`.
pub fn from_integer<T, I: Integer>(integer: I, bounds: IsContiguous<T, I>, checks: CheckMode) -> (r:
    Result<Option<IntRepr<T, I>>, InvariantViolation>)
    requires
        checks == CheckMode::Unchecked && bounds.contains(integer) ==> same_size::<I, T>(),
    ensures
        integers(r) == from_integer_result(integer, bounds, checks),
{
    let min_value = bounds.min_value();
    let max_value = bounds.max_value();
    if checks.is_checked() && max_value.is_less_than(min_value) {
        return Err(
            InvariantViolation::ImpossibleBounds {
                min_value: min_value.to_bound_value(),
                max_value: max_value.to_bound_value(),
            },
        );
    }
    if integer.is_less_than(min_value) || max_value.is_less_than(integer) {
        return Ok(None);
    }
    match crate::casts::check_size::<I, T>(checks) {
        Ok(()) => Ok(Some(IntRepr::new(integer))),
        Err(found) => Err(found),
    }
}

/// At the bounds and around them: where the marker holds, the integers
/// from the least to the greatest are converted and all others are not, and
/// converting back gives the integer that was converted.
pub proof fn lemma_contiguous_boundary<T, I: Integer>(
    integer: I,
    bounds: IsContiguous<T, I>,
    checks: CheckMode,
)
    requires
        bounds.holds(),
    ensures
        from_integer_result(integer, bounds, checks) == Ok::<Option<I>, InvariantViolation>(
            if bounds.contains(integer) {
                Some(integer)
            } else {
                None
            },
        ),
        int_of(integer) == int_of(bounds.spec_min_value()) - 1 ==> from_integer_result(
            integer,
            bounds,
            checks,
        ) == Ok::<Option<I>, InvariantViolation>(None),
        int_of(integer) == int_of(bounds.spec_min_value()) ==> from_integer_result(
            integer,
            bounds,
            checks,
        ) == Ok::<Option<I>, InvariantViolation>(Some(integer)),
        int_of(integer) == int_of(bounds.spec_max_value()) ==> from_integer_result(
            integer,
            bounds,
            checks,
        ) == Ok::<Option<I>, InvariantViolation>(Some(integer)),
        int_of(integer) == int_of(bounds.spec_max_value()) + 1 ==> from_integer_result(
            integer,
            bounds,
            checks,
        ) == Ok::<Option<I>, InvariantViolation>(None),
        from_integer_result(integer, bounds, checks) matches Ok(Some(value))
            ==> into_integer_result::<T, I>(value, checks) == Ok::<I, InvariantViolation>(integer),
{
}

} // verus!
