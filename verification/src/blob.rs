//! One simulated particle.

use crate::math::{clamp, clamp_spec, ge, gt, is_zero, le, obeys_arithmetic, origin, zero, Scalar};
use crate::vector2::Vector2;
use vstd::prelude::*;
use vstd::std_specs::cmp::PartialOrdSpec;
use vstd::std_specs::convert::IntoSpec;
use vstd::std_specs::ops::{AddSpec, DivSpec, MulSpec, NegSpec};

verus! {

/// A particle with a square extent of side `size` whose corner of least
/// coordinates is `position`.
///
/// `id` is the particle's index in its world at the time it was added.
#[derive(Debug, Clone, Copy)]
pub struct Blob<T> {
    pub id: usize,
    pub size: T,
    pub position: Vector2<T>,
    pub velocity: Vector2<T>,
    pub acceleration: Vector2<T>,
}

impl<T: Default> Default for Blob<T> {
    /// Id zero, and every scalar the scalar type's default.
    fn default() -> (b: Self)
        ensures
            b.id == 0,
            is_zero(b.size),
            is_zero(b.position.x),
            is_zero(b.position.y),
            b.at_rest(),
    {
        Self {
            id: 0,
            size: T::default(),
            position: Vector2::default(),
            velocity: Vector2::default(),
            acceleration: Vector2::default(),
        }
    }
}

impl<T: Default> Blob<T> {
    /// Velocity and acceleration are both zero.
    pub open spec fn at_rest(self) -> bool {
        &&& is_zero(self.velocity.x)
        &&& is_zero(self.velocity.y)
        &&& is_zero(self.acceleration.x)
        &&& is_zero(self.acceleration.y)
    }

    /// A particle at rest at `position`.
    pub fn new<P: Into<Vector2<T>>>(id: usize, size: T, position: P) -> (b: Self)
        ensures
            b.id == id,
            b.size == size,
            P::obeys_into_spec() ==> b.position == position.into_spec(),
            b.at_rest(),
    {
        Self {
            id,
            size,
            position: position.into(),
            velocity: Vector2::default(),
            acceleration: Vector2::default(),
        }
    }
}

impl<T: Scalar> Blob<T> {
    /// `point` lies in the closed square from `position` to
    /// `position + size` on both axes.
    pub open spec fn contains_point_spec(self, point: Vector2<T>) -> bool {
        &&& ge(point.x, self.position.x)
        &&& le(point.x, self.position.x.add_spec(self.size))
        &&& ge(point.y, self.position.y)
        &&& le(point.y, self.position.y.add_spec(self.size))
    }

    /// Whether `point` lies in the particle's bounding square, borders
    /// included. The test is on the square, not on a disc.
    pub fn contains_point(&self, point: &Vector2<T>) -> (r: bool)
        requires
            self.position.x.add_req(self.size),
            self.position.y.add_req(self.size),
        ensures
            T::obeys_partial_cmp_spec() && T::obeys_add_spec() ==> r == self.contains_point_spec(
                *point,
            ),
    {
        point.x >= self.position.x && point.x <= self.position.x + self.size && point.y
            >= self.position.y && point.y <= self.position.y + self.size
    }
}

/// A particle at coordinate `p` with extent `size` touches or crosses one of
/// the two walls of its axis: `p <= 0`, or `p + size > limit`.
pub open spec fn hits_wall<T: Scalar>(p: T, size: T, limit: T) -> bool {
    le(p, zero::<T>()) || gt(p.add_spec(size), limit)
}

/// The velocity component after the wall test: negated if the particle
/// touches or crosses a wall of that axis, else unchanged.
pub open spec fn bounce_spec<T: Scalar>(p: T, v: T, size: T, limit: T) -> T {
    if hits_wall(p, size, limit) {
        v.neg_spec()
    } else {
        v
    }
}

/// The operations of `bounce_spec` are all defined.
pub open spec fn bounce_req<T: Scalar>(p: T, v: T, size: T, limit: T) -> bool {
    &&& p.add_req(size)
    &&& hits_wall(p, size, limit) ==> v.neg_req()
}

/// One axis of the wall test.
fn bounce<T: Scalar>(p: T, v: T, size: T, limit: T) -> (r: T)
    requires
        obeys_arithmetic::<T>(),
        bounce_req(p, v, size, limit),
    ensures
        r == bounce_spec(p, v, size, limit),
{
    let far = p + size;
    if p <= origin() || far > limit {
        v.neg()
    } else {
        v
    }
}

impl<T: Scalar> Blob<T> {
    /// The particle after one force has acted on it for `dt`:
    /// `acceleration + force * dt`.
    pub open spec fn apply_force_spec(self, force: Vector2<T>, dt: T) -> Blob<T> {
        Blob { acceleration: self.acceleration.add_spec(force.mul_spec(dt)), ..self }
    }

    /// The operations of `apply_force_spec` are all defined.
    pub open spec fn apply_force_req(self, force: Vector2<T>, dt: T) -> bool {
        &&& force.mul_req(dt)
        &&& self.acceleration.add_req(force.mul_spec(dt))
    }

    /// The particle after each of `forces` has acted on it, first to last.
    pub open spec fn apply_forces_spec(self, forces: Seq<Vector2<T>>, dt: T) -> Blob<T>
        decreases forces.len(),
    {
        if forces.len() == 0 {
            self
        } else {
            self.apply_forces_spec(forces.drop_last(), dt).apply_force_spec(forces.last(), dt)
        }
    }

    /// The operations of `apply_forces_spec` are all defined.
    pub open spec fn apply_forces_req(self, forces: Seq<Vector2<T>>, dt: T) -> bool
        decreases forces.len(),
    {
        forces.len() > 0 ==> {
            &&& self.apply_forces_req(forces.drop_last(), dt)
            &&& self.apply_forces_spec(forces.drop_last(), dt).apply_force_req(forces.last(), dt)
        }
    }

    /// The particle after the wall test on both axes, in an arena that
    /// reaches from zero to `bounds`.
    pub open spec fn reflect_spec(self, bounds: Vector2<T>) -> Blob<T> {
        Blob {
            velocity: Vector2 {
                x: bounce_spec(self.position.x, self.velocity.x, self.size, bounds.x),
                y: bounce_spec(self.position.y, self.velocity.y, self.size, bounds.y),
            },
            ..self
        }
    }

    /// The operations of `reflect_spec` are all defined.
    pub open spec fn reflect_req(self, bounds: Vector2<T>) -> bool {
        &&& bounce_req(self.position.x, self.velocity.x, self.size, bounds.x)
        &&& bounce_req(self.position.y, self.velocity.y, self.size, bounds.y)
    }

    /// The particle after friction: `acceleration / (friction * dt)`.
    pub open spec fn apply_friction_spec(self, friction: T, dt: T) -> Blob<T> {
        Blob { acceleration: self.acceleration.div_spec(friction.mul_spec(dt)), ..self }
    }

    /// The operations of `apply_friction_spec` are all defined.
    pub open spec fn apply_friction_req(self, friction: T, dt: T) -> bool {
        &&& friction.mul_req(dt)
        &&& self.acceleration.div_req(friction.mul_spec(dt))
    }

    /// The velocity after integration: `velocity + acceleration * dt`.
    pub open spec fn next_velocity(self, dt: T) -> Vector2<T> {
        self.velocity.add_spec(self.acceleration.mul_spec(dt))
    }

    /// The particle after integration: the velocity first, then the position
    /// by the new velocity.
    pub open spec fn integrate_spec(self, dt: T) -> Blob<T> {
        Blob {
            velocity: self.next_velocity(dt),
            position: self.position.add_spec(self.next_velocity(dt).mul_spec(dt)),
            ..self
        }
    }

    /// The operations of `integrate_spec` are all defined.
    pub open spec fn integrate_req(self, dt: T) -> bool {
        &&& self.acceleration.mul_req(dt)
        &&& self.velocity.add_req(self.acceleration.mul_spec(dt))
        &&& self.next_velocity(dt).mul_req(dt)
        &&& self.position.add_req(self.next_velocity(dt).mul_spec(dt))
    }

    /// The particle with its position clamped into the arena.
    pub open spec fn confine_spec(self, bounds: Vector2<T>) -> Blob<T> {
        Blob {
            position: Vector2 {
                x: clamp_spec(self.position.x, zero::<T>(), bounds.x),
                y: clamp_spec(self.position.y, zero::<T>(), bounds.y),
            },
            ..self
        }
    }

    /// Adds `force * dt` to the acceleration.
    pub fn apply_force(&mut self, force: Vector2<T>, dt: T)
        requires
            obeys_arithmetic::<T>(),
            old(self).apply_force_req(force, dt),
        ensures
            *final(self) == old(self).apply_force_spec(force, dt),
    {
        self.acceleration = self.acceleration + force * dt;
    }

    /// Negates the velocity on each axis on which the particle touches or
    /// crosses a wall. The position is left as it is.
    pub fn reflect(&mut self, bounds: Vector2<T>)
        requires
            obeys_arithmetic::<T>(),
            old(self).reflect_req(bounds),
        ensures
            *final(self) == old(self).reflect_spec(bounds),
    {
        let x = bounce(self.position.x, self.velocity.x, self.size, bounds.x);
        let y = bounce(self.position.y, self.velocity.y, self.size, bounds.y);
        self.velocity = Vector2 { x, y };
    }

    /// Divides the acceleration by `friction * dt`.
    pub fn apply_friction(&mut self, friction: T, dt: T)
        requires
            obeys_arithmetic::<T>(),
            old(self).apply_friction_req(friction, dt),
        ensures
            *final(self) == old(self).apply_friction_spec(friction, dt),
    {
        self.acceleration = self.acceleration / (friction * dt);
    }

    /// Advances the velocity by the acceleration, then the position by the
    /// new velocity.
    pub fn integrate(&mut self, dt: T)
        requires
            obeys_arithmetic::<T>(),
            old(self).integrate_req(dt),
        ensures
            *final(self) == old(self).integrate_spec(dt),
    {
        self.velocity = self.velocity + self.acceleration * dt;
        self.position = self.position + self.velocity * dt;
    }

    /// Clamps the position into the arena, whatever the velocity.
    pub fn confine(&mut self, bounds: Vector2<T>)
        requires
            obeys_arithmetic::<T>(),
        ensures
            *final(self) == old(self).confine_spec(bounds),
    {
        let x = clamp(self.position.x, origin(), bounds.x);
        let y = clamp(self.position.y, origin(), bounds.y);
        self.position = Vector2 { x, y };
    }

    /// The particle after one whole step: the forces act, the walls reflect,
    /// friction damps, the motion is integrated, and the position is clamped
    /// into the arena, in that order.
    pub open spec fn step_spec(
        self,
        forces: Seq<Vector2<T>>,
        dt: T,
        friction: T,
        bounds: Vector2<T>,
    ) -> Blob<T> {
        self.apply_forces_spec(forces, dt).reflect_spec(bounds).apply_friction_spec(
            friction,
            dt,
        ).integrate_spec(dt).confine_spec(bounds)
    }

    /// The operations of `step_spec` are all defined.
    pub open spec fn step_req(
        self,
        forces: Seq<Vector2<T>>,
        dt: T,
        friction: T,
        bounds: Vector2<T>,
    ) -> bool {
        let pushed = self.apply_forces_spec(forces, dt);
        let reflected = pushed.reflect_spec(bounds);
        let damped = reflected.apply_friction_spec(friction, dt);
        &&& self.apply_forces_req(forces, dt)
        &&& pushed.reflect_req(bounds)
        &&& reflected.apply_friction_req(friction, dt)
        &&& damped.integrate_req(dt)
    }

    /// If the operations are defined for all of `forces`, they are defined
    /// for the first `k` of them.
    pub proof fn lemma_apply_forces_prefix(self, forces: Seq<Vector2<T>>, dt: T, k: int)
        requires
            0 <= k <= forces.len(),
            self.apply_forces_req(forces, dt),
        ensures
            self.apply_forces_req(forces.take(k), dt),
        decreases forces.len(),
    {
        if k < forces.len() {
            self.lemma_apply_forces_prefix(forces.drop_last(), dt, k);
            assert(forces.drop_last().take(k) =~= forces.take(k));
        } else {
            assert(forces.take(k) =~= forces);
        }
    }

    /// Adds `force * dt` to the acceleration for each of `forces`, first to
    /// last.
    pub fn apply_forces(&mut self, forces: &Vec<Vector2<T>>, dt: T)
        requires
            obeys_arithmetic::<T>(),
            old(self).apply_forces_req(forces@, dt),
        ensures
            *final(self) == old(self).apply_forces_spec(forces@, dt),
    {
        let ghost start = *self;
        let mut k: usize = 0;
        while k < forces.len()
            invariant
                obeys_arithmetic::<T>(),
                k <= forces.len(),
                start.apply_forces_req(forces@, dt),
                *self == start.apply_forces_spec(forces@.take(k as int), dt),
            decreases forces.len() - k,
        {
            proof {
                start.lemma_apply_forces_prefix(forces@, dt, k + 1);
                assert(forces@.take(k + 1).drop_last() =~= forces@.take(k as int));
                assert(forces@.take(k + 1).last() == forces@[k as int]);
            }
            self.apply_force(forces[k], dt);
            k += 1;
        }
        proof {
            assert(forces@.take(k as int) =~= forces@);
        }
    }

    /// Advances the particle by one step of length `dt`.
    ///
    /// The position that comes out lies between zero and `bounds` on each
    /// axis on which the scalar's order can compare it with them.
    pub fn step(&mut self, forces: &Vec<Vector2<T>>, dt: T, friction: T, bounds: Vector2<T>)
        requires
            obeys_arithmetic::<T>(),
            old(self).step_req(forces@, dt, friction, bounds),
        ensures
            *final(self) == old(self).step_spec(forces@, dt, friction, bounds),
    {
        self.apply_forces(forces, dt);
        self.reflect(bounds);
        self.apply_friction(friction, dt);
        self.integrate(dt);
        self.confine(bounds);
    }
}

} // verus!
