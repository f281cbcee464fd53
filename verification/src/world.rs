//! The arena: the particles, the forces between them, and one step of time.

use crate::blob::Blob;
use crate::config::Config;
use crate::laws::{contained, lemma_update_contained};
use crate::math::{gt, is_function, le, obeys_arithmetic, obeys_order_laws, zero, Scalar};
use crate::random::random_below;
use crate::vector2::Vector2;
use vstd::prelude::*;
use vstd::std_specs::cmp::PartialOrdSpec;
use vstd::std_specs::ops::{DivSpec, MulSpec, SubSpec};

verus! {

/// Two particles whose distance is `magnitude` repel each other.
pub open spec fn in_range<T: Scalar>(magnitude: T, config: Config<T>) -> bool {
    le(magnitude, config.repel_distance)
}

/// The force on a particle from another one, where `v` points from the other
/// to the particle and `magnitude` is the length of `v`: the direction of `v`
/// scaled to length `repel_force`.
pub open spec fn repulsion_spec<T: Scalar>(v: Vector2<T>, magnitude: T, config: Config<T>)
    -> Vector2<T> {
    Vector2 {
        x: config.repel_force.mul_spec(v.x.div_spec(magnitude)),
        y: config.repel_force.mul_spec(v.y.div_spec(magnitude)),
    }
}

/// The operations of `repulsion_spec` are all defined.
pub open spec fn repulsion_req<T: Scalar>(v: Vector2<T>, magnitude: T, config: Config<T>)
    -> bool {
    &&& v.div_req(magnitude)
    &&& config.repel_force.mul_req(v.x.div_spec(magnitude))
    &&& config.repel_force.mul_req(v.y.div_spec(magnitude))
}

/// The force on a particle from another one at offset `v` and distance
/// `magnitude`, or `None` if they are farther apart than `repel_distance`.
pub fn repulsion<T: Scalar>(v: Vector2<T>, magnitude: T, config: &Config<T>) -> (r: Option<
    Vector2<T>,
>)
    requires
        obeys_arithmetic::<T>(),
        in_range(magnitude, *config) ==> repulsion_req(v, magnitude, *config),
    ensures
        r == if in_range(magnitude, *config) {
            Some(repulsion_spec(v, magnitude, *config))
        } else {
            None
        },
{
    if magnitude <= config.repel_distance {
        let direction = v / magnitude;
        Some(
            Vector2 { x: config.repel_force * direction.x, y: config.repel_force * direction.y },
        )
    } else {
        None
    }
}

/// The offset from particle `j` to particle `i`.
pub open spec fn offset<T: Scalar>(blobs: Seq<Blob<T>>, i: int, j: int) -> Vector2<T> {
    blobs[i].position.sub_spec(blobs[j].position)
}

/// Particle `j` exerts a force on particle `i`: it is another particle, by
/// its id, and it is in range.
pub open spec fn repels<T: Scalar, F: Fn(T) -> T>(
    blobs: Seq<Blob<T>>,
    i: int,
    j: int,
    config: Config<T>,
    sqrt: &F,
) -> bool {
    &&& blobs[j].id != blobs[i].id
    &&& in_range(offset(blobs, i, j).magnitude_spec(sqrt), config)
}

/// The forces on particle `i` from the first `upto` particles, in their
/// order, each computed from the positions in `blobs`.
pub open spec fn forces_on<T: Scalar, F: Fn(T) -> T>(
    blobs: Seq<Blob<T>>,
    i: int,
    upto: int,
    config: Config<T>,
    sqrt: &F,
) -> Seq<Vector2<T>>
    decreases upto,
{
    if upto <= 0 {
        Seq::empty()
    } else {
        let rest = forces_on(blobs, i, upto - 1, config, sqrt);
        let v = offset(blobs, i, upto - 1);
        if repels(blobs, i, upto - 1, config, sqrt) {
            rest.push(repulsion_spec(v, v.magnitude_spec(sqrt), config))
        } else {
            rest
        }
    }
}

/// The operations that the force of particle `j` on particle `i` takes are
/// all defined.
pub open spec fn pair_req<T: Scalar, F: Fn(T) -> T>(
    blobs: Seq<Blob<T>>,
    i: int,
    j: int,
    config: Config<T>,
    sqrt: &F,
) -> bool {
    let v = offset(blobs, i, j);
    blobs[j].id != blobs[i].id ==> {
        &&& blobs[i].position.sub_req(blobs[j].position)
        &&& v.norm_squared_req()
        &&& in_range(v.magnitude_spec(sqrt), config) ==> repulsion_req(
            v,
            v.magnitude_spec(sqrt),
            config,
        )
    }
}

/// The particles after one step of length `dt`: each one stepped under the
/// forces that the positions in `blobs` give.
pub open spec fn updated<T: Scalar, F: Fn(T) -> T>(
    blobs: Seq<Blob<T>>,
    dt: T,
    config: Config<T>,
    bounds: Vector2<T>,
    sqrt: &F,
) -> Seq<Blob<T>> {
    Seq::new(
        blobs.len(),
        |i: int|
            blobs[i].step_spec(
                forces_on(blobs, i, blobs.len() as int, config, sqrt),
                dt,
                config.friction_force,
                bounds,
            ),
    )
}

/// The operations of `updated` are all defined.
pub open spec fn update_req<T: Scalar, F: Fn(T) -> T>(
    blobs: Seq<Blob<T>>,
    dt: T,
    config: Config<T>,
    bounds: Vector2<T>,
    sqrt: &F,
) -> bool {
    &&& forall|i: int, j: int|
        0 <= i < blobs.len() && 0 <= j < blobs.len() ==> #[trigger] pair_req(
            blobs,
            i,
            j,
            config,
            sqrt,
        )
    &&& forall|i: int|
        0 <= i < blobs.len() ==> (#[trigger] blobs[i]).step_req(
            forces_on(blobs, i, blobs.len() as int, config, sqrt),
            dt,
            config.friction_force,
            bounds,
        )
}

/// A rectangular arena and the particles in it.
///
/// The arena is `width` by `height` pixels; `bounds` is the same extent in
/// the scalar type, the corner opposite to zero.
pub struct World<T> {
    pub width: usize,
    pub height: usize,
    pub bounds: Vector2<T>,
    pub config: Config<T>,
    pub blobs: Vec<Blob<T>>,
}

impl<T: Scalar> World<T> {
    /// Every particle's id is its index.
    pub open spec fn wf(&self) -> bool {
        forall|i: int| 0 <= i < self.blobs@.len() ==> (#[trigger] self.blobs@[i]).id == i
    }

    /// An arena without particles.
    pub fn new(width: usize, height: usize, bounds: Vector2<T>, config: Config<T>) -> (w: Self)
        ensures
            w.width == width,
            w.height == height,
            w.bounds == bounds,
            w.config == config,
            w.blobs@.len() == 0,
            w.wf(),
    {
        Self { width, height, bounds, config, blobs: Vec::new() }
    }

    /// Sets the size of the particles created from now on.
    pub fn blob_size(&mut self, size: T) -> (w: &mut Self)
        ensures
            *w == (World { config: Config { blob_size: size, ..old(self).config }, ..*old(self) }),
            *final(self) == *final(w),
    {
        self.config.blob_size = size;
        self
    }

    /// Sets the length of the force between two particles in range.
    pub fn repel_force(&mut self, force: T) -> (w: &mut Self)
        ensures
            *w == (World { config: Config { repel_force: force, ..old(self).config }, ..*old(self) }),
            *final(self) == *final(w),
    {
        self.config.repel_force = force;
        self
    }

    /// Sets the greatest distance at which two particles repel each other.
    pub fn repel_distance(&mut self, distance: T) -> (w: &mut Self)
        ensures
            *w == (World {
                config: Config { repel_distance: distance, ..old(self).config },
                ..*old(self)
            }),
            *final(self) == *final(w),
    {
        self.config.repel_distance = distance;
        self
    }

    /// Sets the divisor that friction applies to the acceleration.
    pub fn friction_force(&mut self, force: T) -> (w: &mut Self)
        ensures
            *w == (World {
                config: Config { friction_force: force, ..old(self).config },
                ..*old(self)
            }),
            *final(self) == *final(w),
    {
        self.config.friction_force = force;
        self
    }

    /// Appends a particle at rest at `(x, y)`, of the configured size, with
    /// the number of particles so far as its id.
    pub fn add_blob(&mut self, x: T, y: T)
        ensures
            final(self).blobs@.len() == old(self).blobs@.len() + 1,
            final(self).blobs@.drop_last() == old(self).blobs@,
            final(self).blobs@.last().id == old(self).blobs@.len(),
            final(self).blobs@.last().size == old(self).config.blob_size,
            final(self).blobs@.last().position == (Vector2 { x, y }),
            final(self).blobs@.last().at_rest(),
            final(self).width == old(self).width,
            final(self).height == old(self).height,
            final(self).bounds == old(self).bounds,
            final(self).config == old(self).config,
            old(self).wf() ==> final(self).wf(),
    {
        let id = self.blobs.len();
        let blob = Blob::new(id, self.config.blob_size, (x, y));
        self.blobs.push(blob);
        proof {
            assert(self.blobs@.drop_last() =~= old(self).blobs@);
        }
    }

    /// `blob` is a particle at rest of the configured size, with `id` as its
    /// id, at a pixel of the arena: its coordinates are what `lift` makes
    /// of a column below `width` and a row below `height`.
    pub open spec fn placed_in_arena<G: Fn(usize) -> T>(
        &self,
        blob: Blob<T>,
        id: int,
        lift: &G,
    ) -> bool {
        &&& blob.id == id
        &&& blob.size == self.config.blob_size
        &&& blob.at_rest()
        &&& exists|x: usize, y: usize|
            {
                &&& x < self.width
                &&& y < self.height
                &&& #[trigger] call_ensures(*lift, (x,), blob.position.x)
                &&& #[trigger] call_ensures(*lift, (y,), blob.position.y)
            }
    }

    /// Appends a particle at a pixel of the arena drawn at random, each
    /// column and each row being equally likely. `lift` turns a pixel
    /// coordinate into a scalar.
    pub fn add_random_blob<G: Fn(usize) -> T>(&mut self, lift: &G)
        requires
            old(self).width > 0,
            old(self).height > 0,
            forall|n: usize| call_requires(*lift, (n,)),
        ensures
            final(self).blobs@.len() == old(self).blobs@.len() + 1,
            final(self).blobs@.drop_last() == old(self).blobs@,
            final(self).placed_in_arena(
                final(self).blobs@.last(),
                old(self).blobs@.len() as int,
                lift,
            ),
            final(self).width == old(self).width,
            final(self).height == old(self).height,
            final(self).bounds == old(self).bounds,
            final(self).config == old(self).config,
            old(self).wf() ==> final(self).wf(),
    {
        let column = random_below(self.width);
        let row = random_below(self.height);
        let x = lift(column);
        let y = lift(row);
        self.add_blob(x, y);
        proof {
            let blob = self.blobs@.last();
            assert(column < self.width && row < self.height && call_ensures(
                *lift,
                (column,),
                blob.position.x,
            ) && call_ensures(*lift, (row,), blob.position.y));
        }
    }

    /// Appends `count` particles, each at a pixel of the arena drawn at
    /// random.
    pub fn add_random_blobs<G: Fn(usize) -> T>(&mut self, count: usize, lift: &G)
        requires
            count > 0 ==> old(self).width > 0 && old(self).height > 0,
            forall|n: usize| call_requires(*lift, (n,)),
        ensures
            final(self).blobs@.len() == old(self).blobs@.len() + count,
            final(self).blobs@.take(old(self).blobs@.len() as int) == old(self).blobs@,
            forall|i: int|
                old(self).blobs@.len() <= i < final(self).blobs@.len()
                    ==> final(self).placed_in_arena(#[trigger] final(self).blobs@[i], i, lift),
            final(self).width == old(self).width,
            final(self).height == old(self).height,
            final(self).bounds == old(self).bounds,
            final(self).config == old(self).config,
            old(self).wf() ==> final(self).wf(),
    {
        let ghost start = self.blobs@;
        let mut done: usize = 0;
        while done < count
            invariant
                done <= count,
                count > 0 ==> self.width > 0 && self.height > 0,
                forall|n: usize| call_requires(*lift, (n,)),
                start == old(self).blobs@,
                self.blobs@.len() == start.len() + done,
                self.blobs@.take(start.len() as int) == start,
                forall|i: int|
                    start.len() <= i < self.blobs@.len() ==> self.placed_in_arena(
                        #[trigger] self.blobs@[i],
                        i,
                        lift,
                    ),
                self.width == old(self).width,
                self.height == old(self).height,
                self.bounds == old(self).bounds,
                self.config == old(self).config,
                old(self).wf() ==> self.wf(),
            decreases count - done,
        {
            let ghost earlier = self.blobs@;
            self.add_random_blob(lift);
            proof {
                assert(self.blobs@.drop_last() == earlier);
                assert(self.blobs@.take(start.len() as int) =~= earlier.take(start.len() as int));
                assert forall|i: int| start.len() <= i < self.blobs@.len() implies self.placed_in_arena(
                    #[trigger] self.blobs@[i],
                    i,
                    lift,
                ) by {
                    if i < earlier.len() {
                        assert(self.blobs@[i] == earlier[i]);
                    }
                }
            }
            done += 1;
        }
    }

    /// The forces on particle `index` from all the others, in their order.
    pub fn forces_on<F: Fn(T) -> T>(&self, index: usize, sqrt: &F) -> (forces: Vec<Vector2<T>>)
        requires
            obeys_arithmetic::<T>(),
            is_function(sqrt),
            index < self.blobs@.len(),
            forall|j: int|
                0 <= j < self.blobs@.len() ==> #[trigger] pair_req(
                    self.blobs@,
                    index as int,
                    j,
                    self.config,
                    sqrt,
                ),
        ensures
            forces@ == forces_on(
                self.blobs@,
                index as int,
                self.blobs@.len() as int,
                self.config,
                sqrt,
            ),
    {
        let mut forces: Vec<Vector2<T>> = Vec::new();
        let blob = self.blobs[index];
        let mut j: usize = 0;
        while j < self.blobs.len()
            invariant
                obeys_arithmetic::<T>(),
                is_function(sqrt),
                index < self.blobs@.len(),
                j <= self.blobs@.len(),
                blob == self.blobs@[index as int],
                forall|k: int|
                    0 <= k < self.blobs@.len() ==> #[trigger] pair_req(
                        self.blobs@,
                        index as int,
                        k,
                        self.config,
                        sqrt,
                    ),
                forces@ == forces_on(self.blobs@, index as int, j as int, self.config, sqrt),
            decreases self.blobs@.len() - j,
        {
            let other = self.blobs[j];
            assert(pair_req(self.blobs@, index as int, j as int, self.config, sqrt));
            if blob.id != other.id {
                let v = blob.position.vector_to(&other.position);
                let magnitude = v.magnitude(sqrt);
                match repulsion(v, magnitude, &self.config) {
                    Some(force) => forces.push(force),
                    None => {},
                }
            }
            j += 1;
        }
        forces
    }

    /// The forces on every particle, all computed from the positions as they
    /// stand now.
    fn all_forces<F: Fn(T) -> T>(&self, sqrt: &F) -> (forces: Vec<Vec<Vector2<T>>>)
        requires
            obeys_arithmetic::<T>(),
            is_function(sqrt),
            forall|i: int, j: int|
                0 <= i < self.blobs@.len() && 0 <= j < self.blobs@.len() ==> #[trigger] pair_req(
                    self.blobs@,
                    i,
                    j,
                    self.config,
                    sqrt,
                ),
        ensures
            forces@.len() == self.blobs@.len(),
            forall|i: int|
                0 <= i < forces@.len() ==> (#[trigger] forces@[i])@ == forces_on(
                    self.blobs@,
                    i,
                    self.blobs@.len() as int,
                    self.config,
                    sqrt,
                ),
    {
        let mut forces: Vec<Vec<Vector2<T>>> = Vec::new();
        let mut i: usize = 0;
        while i < self.blobs.len()
            invariant
                obeys_arithmetic::<T>(),
                is_function(sqrt),
                i <= self.blobs@.len(),
                forces@.len() == i,
                forall|a: int, b: int|
                    0 <= a < self.blobs@.len() && 0 <= b < self.blobs@.len()
                        ==> #[trigger] pair_req(self.blobs@, a, b, self.config, sqrt),
                forall|k: int|
                    0 <= k < i ==> (#[trigger] forces@[k])@ == forces_on(
                        self.blobs@,
                        k,
                        self.blobs@.len() as int,
                        self.config,
                        sqrt,
                    ),
            decreases self.blobs@.len() - i,
        {
            let on_blob = self.forces_on(i, sqrt);
            forces.push(on_blob);
            i += 1;
        }
        forces
    }

    /// Advances every particle by one step of length `delta_time`, with
    /// `sqrt` as the scalar's square root.
    ///
    /// All forces are computed from the positions before the step; only then
    /// is any particle moved. Afterwards no particle is outside the arena.
    pub fn update<F: Fn(T) -> T>(&mut self, delta_time: T, sqrt: &F)
        requires
            obeys_arithmetic::<T>(),
            is_function(sqrt),
            update_req(old(self).blobs@, delta_time, old(self).config, old(self).bounds, sqrt),
        ensures
            final(self).blobs@ == updated(
                old(self).blobs@,
                delta_time,
                old(self).config,
                old(self).bounds,
                sqrt,
            ),
            final(self).width == old(self).width,
            final(self).height == old(self).height,
            final(self).bounds == old(self).bounds,
            final(self).config == old(self).config,
            obeys_order_laws::<T>() && !gt(zero::<T>(), old(self).bounds.x) && !gt(
                zero::<T>(),
                old(self).bounds.y,
            ) ==> forall|i: int|
                0 <= i < final(self).blobs@.len() ==> contained(
                    (#[trigger] final(self).blobs@[i]).position,
                    old(self).bounds,
                ),
    {
        let forces = self.all_forces(sqrt);
        let ghost before = self.blobs@;
        let friction = self.config.friction_force;
        let bounds = self.bounds;
        let mut i: usize = 0;
        while i < self.blobs.len()
            invariant
                obeys_arithmetic::<T>(),
                self.blobs@.len() == before.len(),
                forces@.len() == before.len(),
                i <= before.len(),
                friction == self.config.friction_force,
                bounds == self.bounds,
                self.width == old(self).width,
                self.height == old(self).height,
                self.bounds == old(self).bounds,
                self.config == old(self).config,
                before == old(self).blobs@,
                update_req(before, delta_time, self.config, self.bounds, sqrt),
                forall|k: int|
                    0 <= k < forces@.len() ==> (#[trigger] forces@[k])@ == forces_on(
                        before,
                        k,
                        before.len() as int,
                        self.config,
                        sqrt,
                    ),
                forall|k: int|
                    0 <= k < i ==> #[trigger] self.blobs@[k] == updated(
                        before,
                        delta_time,
                        self.config,
                        self.bounds,
                        sqrt,
                    )[k],
                forall|k: int| i <= k < before.len() ==> #[trigger] self.blobs@[k] == before[k],
            decreases before.len() - i,
        {
            let mut blob = self.blobs[i];
            assert(before[i as int].step_req(forces@[i as int]@, delta_time, friction, bounds));
            blob.step(&forces[i], delta_time, friction, bounds);
            self.blobs.set(i, blob);
            i += 1;
        }
        proof {
            assert(self.blobs@ =~= updated(before, delta_time, self.config, self.bounds, sqrt));
            if obeys_order_laws::<T>() && !gt(zero::<T>(), self.bounds.x) && !gt(
                zero::<T>(),
                self.bounds.y,
            ) {
                lemma_update_contained(before, delta_time, self.config, self.bounds, sqrt);
            }
        }
    }
}

} // verus!
