//! A two-dimensional vector over any component type.

use crate::math::{apply, is_function, Scalar};
use std::ops::{Add, Div, Mul, Neg, Sub};
use vstd::prelude::*;
use vstd::std_specs::ops::{AddSpec, DivSpec, MulSpec, NegSpec, SubSpec};

verus! {

/// An ordered pair `(x, y)`.
#[derive(Debug, Clone, Copy)]
pub struct Vector2<T> {
    pub x: T,
    pub y: T,
}

impl<T> Vector2<T> {
    /// The vector `(x, y)`.
    pub fn new(x: T, y: T) -> (v: Self)
        ensures
            v == (Vector2 { x, y }),
    {
        Self { x, y }
    }
}

/// What `from` returns of a pair.
impl<T> vstd::std_specs::convert::FromSpecImpl<(T, T)> for Vector2<T> {
    open spec fn obeys_from_spec() -> bool {
        true
    }

    open spec fn from_spec(pair: (T, T)) -> Self {
        Vector2 { x: pair.0, y: pair.1 }
    }
}

impl<T> From<(T, T)> for Vector2<T> {
    /// The vector whose components are those of the pair, in its order.
    fn from(pair: (T, T)) -> (v: Self) {
        Self { x: pair.0, y: pair.1 }
    }
}

impl<T: Default> Default for Vector2<T> {
    /// Both components are the component type's default.
    fn default() -> (v: Self)
        ensures
            call_ensures(T::default, (), v.x),
            call_ensures(T::default, (), v.y),
    {
        Self { x: T::default(), y: T::default() }
    }
}

/// The meaning of `+`: componentwise, defined where it is for both components.
impl<T: Add<Output = T>> vstd::std_specs::ops::AddSpecImpl for Vector2<T> {
    open spec fn obeys_add_spec() -> bool {
        T::obeys_add_spec()
    }

    open spec fn add_req(self, rhs: Vector2<T>) -> bool {
        self.x.add_req(rhs.x) && self.y.add_req(rhs.y)
    }

    open spec fn add_spec(self, rhs: Vector2<T>) -> Vector2<T> {
        Vector2 { x: self.x.add_spec(rhs.x), y: self.y.add_spec(rhs.y) }
    }
}

impl<T: Add<Output = T>> Add for Vector2<T> {
    type Output = Vector2<T>;

    /// Componentwise sum.
    fn add(self, rhs: Vector2<T>) -> (r: Vector2<T>) {
        Vector2 { x: self.x + rhs.x, y: self.y + rhs.y }
    }
}

/// The meaning of `-`: componentwise, defined where it is for both components.
impl<T: Sub<Output = T>> vstd::std_specs::ops::SubSpecImpl for Vector2<T> {
    open spec fn obeys_sub_spec() -> bool {
        T::obeys_sub_spec()
    }

    open spec fn sub_req(self, rhs: Vector2<T>) -> bool {
        self.x.sub_req(rhs.x) && self.y.sub_req(rhs.y)
    }

    open spec fn sub_spec(self, rhs: Vector2<T>) -> Vector2<T> {
        Vector2 { x: self.x.sub_spec(rhs.x), y: self.y.sub_spec(rhs.y) }
    }
}

impl<T: Sub<Output = T>> Sub for Vector2<T> {
    type Output = Vector2<T>;

    /// Componentwise difference.
    fn sub(self, rhs: Vector2<T>) -> (r: Vector2<T>) {
        Vector2 { x: self.x - rhs.x, y: self.y - rhs.y }
    }
}

/// The meaning of unary `-`: componentwise, defined where it is for both components.
impl<T: Neg<Output = T>> vstd::std_specs::ops::NegSpecImpl for Vector2<T> {
    open spec fn obeys_neg_spec() -> bool {
        T::obeys_neg_spec()
    }

    open spec fn neg_req(self) -> bool {
        self.x.neg_req() && self.y.neg_req()
    }

    open spec fn neg_spec(self) -> Vector2<T> {
        Vector2 { x: self.x.neg_spec(), y: self.y.neg_spec() }
    }
}

impl<T: Neg<Output = T>> Neg for Vector2<T> {
    type Output = Vector2<T>;

    /// Componentwise negation.
    fn neg(self) -> (r: Vector2<T>) {
        Vector2 { x: self.x.neg(), y: self.y.neg() }
    }
}

/// The meaning of `*` by a scalar: on both components, defined where it is for both.
impl<T: Mul<Output = T> + Copy> vstd::std_specs::ops::MulSpecImpl<T> for Vector2<T> {
    open spec fn obeys_mul_spec() -> bool {
        T::obeys_mul_spec()
    }

    open spec fn mul_req(self, rhs: T) -> bool {
        self.x.mul_req(rhs) && self.y.mul_req(rhs)
    }

    open spec fn mul_spec(self, rhs: T) -> Vector2<T> {
        Vector2 { x: self.x.mul_spec(rhs), y: self.y.mul_spec(rhs) }
    }
}

impl<T: Mul<Output = T> + Copy> Mul<T> for Vector2<T> {
    type Output = Vector2<T>;

    /// Scales both components by `rhs`.
    fn mul(self, rhs: T) -> (r: Vector2<T>) {
        Vector2 { x: self.x * rhs, y: self.y * rhs }
    }
}

/// The meaning of `/` by a scalar: on both components, defined where it is for both.
impl<T: Div<Output = T> + Copy> vstd::std_specs::ops::DivSpecImpl<T> for Vector2<T> {
    open spec fn obeys_div_spec() -> bool {
        T::obeys_div_spec()
    }

    open spec fn div_req(self, rhs: T) -> bool {
        self.x.div_req(rhs) && self.y.div_req(rhs)
    }

    open spec fn div_spec(self, rhs: T) -> Vector2<T> {
        Vector2 { x: self.x.div_spec(rhs), y: self.y.div_spec(rhs) }
    }
}

impl<T: Div<Output = T> + Copy> Div<T> for Vector2<T> {
    type Output = Vector2<T>;

    /// Divides both components by `rhs`.
    fn div(self, rhs: T) -> (r: Vector2<T>) {
        Vector2 { x: self.x / rhs, y: self.y / rhs }
    }
}

impl<T: Scalar> Vector2<T> {
    /// `x * x + y * y`, the square of the length.
    pub open spec fn norm_squared_spec(self) -> T {
        self.x.mul_spec(self.x).add_spec(self.y.mul_spec(self.y))
    }

    /// The operations of `norm_squared_spec` are all defined.
    pub open spec fn norm_squared_req(self) -> bool {
        &&& self.x.mul_req(self.x)
        &&& self.y.mul_req(self.y)
        &&& self.x.mul_spec(self.x).add_req(self.y.mul_spec(self.y))
    }

    /// The length: the square root of `x * x + y * y`.
    pub open spec fn magnitude_spec<F: Fn(T) -> T>(self, sqrt: &F) -> T {
        apply(sqrt, self.norm_squared_spec())
    }

    /// The vector scaled to length one: each component divided by the length.
    pub open spec fn normalized_spec<F: Fn(T) -> T>(self, sqrt: &F) -> Vector2<T> {
        self.div_spec(self.magnitude_spec(sqrt))
    }

    /// The operations of `normalized_spec` are all defined.
    pub open spec fn normalized_req<F: Fn(T) -> T>(self, sqrt: &F) -> bool {
        &&& self.norm_squared_req()
        &&& self.div_req(self.magnitude_spec(sqrt))
    }

    /// The vector from `target` to `self`: `self - target`.
    pub fn vector_to(&self, target: &Vector2<T>) -> (r: Vector2<T>)
        requires
            self.sub_req(*target),
        ensures
            T::obeys_sub_spec() ==> r == self.sub_spec(*target),
    {
        *self - *target
    }

    /// The length of the vector, with `sqrt` as the scalar's square root.
    pub fn magnitude<F: Fn(T) -> T>(&self, sqrt: &F) -> (m: T)
        requires
            is_function(sqrt),
            T::obeys_add_spec(),
            T::obeys_mul_spec(),
            self.norm_squared_req(),
        ensures
            m == self.magnitude_spec(sqrt),
    {
        sqrt(self.x * self.x + self.y * self.y)
    }

    /// The length of `self - other`.
    pub fn distance<F: Fn(T) -> T>(&self, other: &Vector2<T>, sqrt: &F) -> (m: T)
        requires
            is_function(sqrt),
            T::obeys_add_spec(),
            T::obeys_mul_spec(),
            T::obeys_sub_spec(),
            self.sub_req(*other),
            self.sub_spec(*other).norm_squared_req(),
        ensures
            m == self.sub_spec(*other).magnitude_spec(sqrt),
    {
        self.vector_to(other).magnitude(sqrt)
    }

    /// The vector divided by its own length.
    ///
    /// What a zero vector gives is whatever the scalar's division by zero
    /// gives; a scalar whose division refuses zero refuses it here.
    pub fn normalized<F: Fn(T) -> T>(&self, sqrt: &F) -> (r: Vector2<T>)
        requires
            is_function(sqrt),
            T::obeys_add_spec(),
            T::obeys_mul_spec(),
            self.normalized_req(sqrt),
        ensures
            T::obeys_div_spec() ==> r == self.normalized_spec(sqrt),
    {
        let magnitude = self.magnitude(sqrt);
        Vector2 { x: self.x / magnitude, y: self.y / magnitude }
    }
}

} // verus!
