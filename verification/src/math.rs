//! Scalar helpers shared by the vector, blob and world modules.

use std::cmp::Ordering;
use std::ops::{Add, Div, Mul, Neg, Sub};
use vstd::prelude::*;
use vstd::std_specs::cmp::PartialOrdSpec;
use vstd::std_specs::ops::{AddSpec, DivSpec, MulSpec, NegSpec, SubSpec};

verus! {

/// The component type of positions, velocities and forces.
///
/// Every type with copy semantics, an order, a default value and the five
/// arithmetic operators is a scalar; the trait only gathers those bounds.
pub trait Scalar: Copy + PartialOrd + Default + Add<Output = Self> + Sub<Output = Self> + Mul<
    Output = Self,
> + Div<Output = Self> + Neg<Output = Self> {

}

impl<
    T: Copy + PartialOrd + Default + Add<Output = T> + Sub<Output = T> + Mul<Output = T> + Div<
        Output = T,
    > + Neg<Output = T>,
> Scalar for T {

}

/// The value that `T::default()` returns: the zero of a numeric scalar.
pub open spec fn zero<T: Default>() -> T {
    choose|z: T| call_ensures(T::default, (), z)
}

/// `z` is a value that `T::default()` may return.
pub open spec fn is_zero<T: Default>(z: T) -> bool {
    call_ensures(T::default, (), z)
}

/// `T::default()` has exactly one possible result.
pub open spec fn zero_is_fixed<T: Default>() -> bool {
    forall|a: T, b: T|
        call_ensures(T::default, (), a) && call_ensures(T::default, (), b) ==> a == b
}

/// The operators and the comparisons of `T` return what their
/// specifications say, and `T::default()` is one value.
pub open spec fn obeys_arithmetic<T: Scalar>() -> bool {
    &&& T::obeys_add_spec()
    &&& T::obeys_sub_spec()
    &&& T::obeys_mul_spec()
    &&& T::obeys_div_spec()
    &&& T::obeys_neg_spec()
    &&& T::obeys_partial_cmp_spec()
    &&& zero_is_fixed::<T>()
}

/// `f` accepts every argument and maps each argument to one result.
pub open spec fn is_function<A, B, F: Fn(A) -> B>(f: &F) -> bool {
    &&& forall|x: A| call_requires(*f, (x,))
    &&& forall|x: A, a: B, b: B|
        call_ensures(*f, (x,), a) && call_ensures(*f, (x,), b) ==> a == b
}

/// The result of `f` on `x`, for an `f` that `is_function`.
pub open spec fn apply<A, B, F: Fn(A) -> B>(f: &F, x: A) -> B {
    choose|r: B| call_ensures(*f, (x,), r)
}

/// `a < b` in the order that `T` declares.
pub open spec fn lt<T: PartialOrd>(a: T, b: T) -> bool {
    a.partial_cmp_spec(&b) == Some(Ordering::Less)
}

/// `a > b` in the order that `T` declares.
pub open spec fn gt<T: PartialOrd>(a: T, b: T) -> bool {
    a.partial_cmp_spec(&b) == Some(Ordering::Greater)
}

/// `a <= b` in the order that `T` declares.
pub open spec fn le<T: PartialOrd>(a: T, b: T) -> bool {
    a.partial_cmp_spec(&b) == Some(Ordering::Less) || a.partial_cmp_spec(&b) == Some(
        Ordering::Equal,
    )
}

/// `a >= b` in the order that `T` declares.
pub open spec fn ge<T: PartialOrd>(a: T, b: T) -> bool {
    a.partial_cmp_spec(&b) == Some(Ordering::Greater) || a.partial_cmp_spec(&b) == Some(
        Ordering::Equal,
    )
}

/// The order of `T` is irreflexive, and `a < b` means the same as `b > a`.
///
/// Every total order has both properties, and so has an order with values
/// that compare with nothing, themselves included.
pub open spec fn obeys_order_laws<T: PartialOrd>() -> bool {
    &&& forall|a: T| !lt(a, a) && !gt(a, a)
    &&& forall|a: T, b: T| #[trigger] lt(a, b) <==> #[trigger] gt(b, a)
}

/// `value` is neither below `min` nor above `max`.
pub open spec fn within<T: PartialOrd>(value: T, min: T, max: T) -> bool {
    !lt(value, min) && !gt(value, max)
}

/// What `clamp` returns: `min` for a value below it, else `max` for a value
/// above it, else the value itself.
pub open spec fn clamp_spec<T: PartialOrd>(value: T, min: T, max: T) -> T {
    if lt(value, min) {
        min
    } else if gt(value, max) {
        max
    } else {
        value
    }
}

/// The scalar's zero.
pub fn origin<T: Default>() -> (z: T)
    ensures
        is_zero(z),
        zero_is_fixed::<T>() ==> z == zero::<T>(),
{
    T::default()
}

/// Restricts `value` to the closed interval from `min` to `max`.
///
/// The lower bound is tested first, so with `min > max` a value below `min`
/// still comes back as `min`. A value that the order cannot compare with the
/// bounds comes back unchanged.
pub fn clamp<T: PartialOrd>(value: T, min: T, max: T) -> (r: T)
    ensures
        T::obeys_partial_cmp_spec() ==> r == clamp_spec(value, min, max),
        r == value || r == min || r == max,
{
    if value < min {
        min
    } else if value > max {
        max
    } else {
        value
    }
}

/// A clamped value is never outside the interval, provided the interval is
/// not empty.
pub proof fn lemma_clamp_within<T: PartialOrd>(value: T, min: T, max: T)
    requires
        obeys_order_laws::<T>(),
        !gt(min, max),
    ensures
        within(clamp_spec(value, min, max), min, max),
{
    assert(lt(max, min) <==> gt(min, max));
}

/// A value within the interval is clamped to itself.
pub proof fn lemma_clamp_fixes_within<T: PartialOrd>(value: T, min: T, max: T)
    requires
        within(value, min, max),
    ensures
        clamp_spec(value, min, max) == value,
{
}

} // verus!
