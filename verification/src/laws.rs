//! What holds of every world and every step.

use crate::blob::{hits_wall, Blob};
use crate::config::Config;
use crate::math::{
    gt, le, lemma_clamp_within, obeys_arithmetic, obeys_order_laws, within, zero, Scalar,
};
use crate::vector2::Vector2;
use crate::world::{
    forces_on, in_range, offset, repels, repulsion_spec, update_req, updated,
};
use vstd::prelude::*;
use vstd::std_specs::ops::{AddSpec, DivSpec, MulSpec, NegSpec, SubSpec};

verus! {

/// `position` is not outside the arena on either axis.
pub open spec fn contained<T: Scalar>(position: Vector2<T>, bounds: Vector2<T>) -> bool {
    &&& within(position.x, zero::<T>(), bounds.x)
    &&& within(position.y, zero::<T>(), bounds.y)
}

/// A stepped particle is inside the arena, wherever it was before and
/// whatever forces acted on it.
pub proof fn lemma_step_contained<T: Scalar>(
    blob: Blob<T>,
    forces: Seq<Vector2<T>>,
    dt: T,
    friction: T,
    bounds: Vector2<T>,
)
    requires
        obeys_order_laws::<T>(),
        !gt(zero::<T>(), bounds.x),
        !gt(zero::<T>(), bounds.y),
    ensures
        contained(blob.step_spec(forces, dt, friction, bounds).position, bounds),
{
    let moved = blob.apply_forces_spec(forces, dt).reflect_spec(bounds).apply_friction_spec(
        friction,
        dt,
    ).integrate_spec(dt);
    lemma_clamp_within(moved.position.x, zero::<T>(), bounds.x);
    lemma_clamp_within(moved.position.y, zero::<T>(), bounds.y);
}

/// After an update every particle is inside the arena. Nothing is asked of
/// the state before, so this holds after any number of updates.
pub proof fn lemma_update_contained<T: Scalar, F: Fn(T) -> T>(
    blobs: Seq<Blob<T>>,
    dt: T,
    config: Config<T>,
    bounds: Vector2<T>,
    sqrt: &F,
)
    requires
        obeys_order_laws::<T>(),
        !gt(zero::<T>(), bounds.x),
        !gt(zero::<T>(), bounds.y),
    ensures
        forall|i: int|
            0 <= i < blobs.len() ==> contained(
                (#[trigger] updated(blobs, dt, config, bounds, sqrt)[i]).position,
                bounds,
            ),
{
    assert forall|i: int| 0 <= i < blobs.len() implies contained(
        (#[trigger] updated(blobs, dt, config, bounds, sqrt)[i]).position,
        bounds,
    ) by {
        lemma_step_contained(
            blobs[i],
            forces_on(blobs, i, blobs.len() as int, config, sqrt),
            dt,
            config.friction_force,
            bounds,
        );
    }
}

/// A particle exerts no force on itself: its own turn adds nothing to the
/// forces on it.
pub proof fn lemma_no_self_force<T: Scalar, F: Fn(T) -> T>(
    blobs: Seq<Blob<T>>,
    i: int,
    config: Config<T>,
    sqrt: &F,
)
    requires
        0 <= i < blobs.len(),
    ensures
        !repels(blobs, i, i, config, sqrt),
        forces_on(blobs, i, i + 1, config, sqrt) == forces_on(blobs, i, i, config, sqrt),
{
}

/// Among the first `upto` particles, one that is among them is acted on by
/// fewer than `upto` forces; no particle is acted on by more than `upto`.
pub proof fn lemma_forces_count<T: Scalar, F: Fn(T) -> T>(
    blobs: Seq<Blob<T>>,
    i: int,
    upto: int,
    config: Config<T>,
    sqrt: &F,
)
    requires
        0 <= i < blobs.len(),
        0 <= upto <= blobs.len(),
    ensures
        forces_on(blobs, i, upto, config, sqrt).len() <= upto,
        i < upto ==> forces_on(blobs, i, upto, config, sqrt).len() < upto,
    decreases upto,
{
    if upto > 0 {
        lemma_forces_count(blobs, i, upto - 1, config, sqrt);
    }
}

/// A particle alone in its world is acted on by no force.
pub proof fn lemma_alone_no_force<T: Scalar, F: Fn(T) -> T>(
    blob: Blob<T>,
    config: Config<T>,
    sqrt: &F,
)
    ensures
        forces_on(seq![blob], 0, 1, config, sqrt) == Seq::<Vector2<T>>::empty(),
{
    lemma_forces_count(seq![blob], 0, 1, config, sqrt);
    assert(forces_on(seq![blob], 0, 1, config, sqrt) =~= Seq::<Vector2<T>>::empty());
}

/// Two particles repel each other by one rule: the force on each is the
/// offset from the other to it, divided by the distance and scaled by
/// `repel_force`, and it acts exactly if that distance is in range.
pub proof fn lemma_repulsion_rule<T: Scalar, F: Fn(T) -> T>(
    blobs: Seq<Blob<T>>,
    i: int,
    j: int,
    config: Config<T>,
    sqrt: &F,
)
    requires
        0 <= i < blobs.len(),
        0 <= j < blobs.len(),
        blobs[i].id != blobs[j].id,
    ensures
        forces_on(blobs, i, j + 1, config, sqrt) == if in_range(
            offset(blobs, i, j).magnitude_spec(sqrt),
            config,
        ) {
            forces_on(blobs, i, j, config, sqrt).push(
                repulsion_spec(
                    offset(blobs, i, j),
                    offset(blobs, i, j).magnitude_spec(sqrt),
                    config,
                ),
            )
        } else {
            forces_on(blobs, i, j, config, sqrt)
        },
        forces_on(blobs, j, i + 1, config, sqrt) == if in_range(
            offset(blobs, j, i).magnitude_spec(sqrt),
            config,
        ) {
            forces_on(blobs, j, i, config, sqrt).push(
                repulsion_spec(
                    offset(blobs, j, i),
                    offset(blobs, j, i).magnitude_spec(sqrt),
                    config,
                ),
            )
        } else {
            forces_on(blobs, j, i, config, sqrt)
        },
{
}

/// A particle that touches or crosses a wall of the x axis leaves a step
/// with its x velocity negated, plus what the damped acceleration adds; the
/// same on the y axis.
pub proof fn lemma_reflection<T: Scalar>(
    blob: Blob<T>,
    dt: T,
    friction: T,
    bounds: Vector2<T>,
)
    ensures
        hits_wall(blob.position.x, blob.size, bounds.x) ==> blob.step_spec(
            Seq::empty(),
            dt,
            friction,
            bounds,
        ).velocity.x == blob.velocity.x.neg_spec().add_spec(
            blob.acceleration.x.div_spec(friction.mul_spec(dt)).mul_spec(dt),
        ),
        hits_wall(blob.position.y, blob.size, bounds.y) ==> blob.step_spec(
            Seq::empty(),
            dt,
            friction,
            bounds,
        ).velocity.y == blob.velocity.y.neg_spec().add_spec(
            blob.acceleration.y.div_spec(friction.mul_spec(dt)).mul_spec(dt),
        ),
        le(blob.position.x, zero::<T>()) ==> hits_wall(blob.position.x, blob.size, bounds.x),
        le(blob.position.y, zero::<T>()) ==> hits_wall(blob.position.y, blob.size, bounds.y),
{
    assert(blob.apply_forces_spec(Seq::empty(), dt) == blob);
}

/// No particle in range of particle `i` means no force on it.
pub proof fn lemma_out_of_range_no_force<T: Scalar, F: Fn(T) -> T>(
    blobs: Seq<Blob<T>>,
    i: int,
    upto: int,
    config: Config<T>,
    sqrt: &F,
)
    requires
        0 <= i < blobs.len(),
        0 <= upto <= blobs.len(),
        forall|j: int|
            0 <= j < blobs.len() && blobs[j].id != blobs[i].id ==> !in_range(
                (#[trigger] offset(blobs, i, j)).magnitude_spec(sqrt),
                config,
            ),
    ensures
        forces_on(blobs, i, upto, config, sqrt) == Seq::<Vector2<T>>::empty(),
    decreases upto,
{
    if upto > 0 {
        lemma_out_of_range_no_force(blobs, i, upto - 1, config, sqrt);
        let v = offset(blobs, i, upto - 1);
    }
}

/// A particle with no other particle in range comes out of an update with
/// its acceleration changed by friction alone: divided by `friction_force`
/// times the elapsed time.
pub proof fn lemma_out_of_range_acceleration<T: Scalar, F: Fn(T) -> T>(
    blobs: Seq<Blob<T>>,
    i: int,
    dt: T,
    config: Config<T>,
    bounds: Vector2<T>,
    sqrt: &F,
)
    requires
        0 <= i < blobs.len(),
        forall|j: int|
            0 <= j < blobs.len() && blobs[j].id != blobs[i].id ==> !in_range(
                (#[trigger] offset(blobs, i, j)).magnitude_spec(sqrt),
                config,
            ),
    ensures
        updated(blobs, dt, config, bounds, sqrt)[i].acceleration == blobs[i].acceleration.div_spec(
            config.friction_force.mul_spec(dt),
        ),
{
    lemma_out_of_range_no_force(blobs, i, blobs.len() as int, config, sqrt);
    assert(blobs[i].apply_forces_spec(Seq::empty(), dt) == blobs[i]);
}

/// The forces on a particle depend on the ids and positions of the
/// particles and on nothing else: two worlds that agree on those give the
/// same forces, whatever their velocities and accelerations.
pub proof fn lemma_forces_read_positions<T: Scalar, F: Fn(T) -> T>(
    a: Seq<Blob<T>>,
    b: Seq<Blob<T>>,
    i: int,
    upto: int,
    config: Config<T>,
    sqrt: &F,
)
    requires
        a.len() == b.len(),
        0 <= i < a.len(),
        0 <= upto <= a.len(),
        forall|k: int|
            0 <= k < a.len() ==> (#[trigger] a[k]).id == b[k].id && a[k].position
                == b[k].position,
    ensures
        forces_on(a, i, upto, config, sqrt) == forces_on(b, i, upto, config, sqrt),
    decreases upto,
{
    if upto > 0 {
        lemma_forces_read_positions(a, b, i, upto - 1, config, sqrt);
        assert(a[upto - 1].id == b[upto - 1].id);
        assert(a[i].id == b[i].id);
    }
}

/// Every particle is stepped under the forces that the positions before the
/// update give, whatever its place in the order and whichever particles
/// were stepped before it.
pub proof fn lemma_update_reads_old_positions<T: Scalar, F: Fn(T) -> T>(
    blobs: Seq<Blob<T>>,
    i: int,
    dt: T,
    config: Config<T>,
    bounds: Vector2<T>,
    sqrt: &F,
)
    requires
        0 <= i < blobs.len(),
    ensures
        updated(blobs, dt, config, bounds, sqrt)[i] == blobs[i].step_spec(
            forces_on(blobs, i, blobs.len() as int, config, sqrt),
            dt,
            config.friction_force,
            bounds,
        ),
{
}

/// An update changes neither the number of particles, nor any particle's id
/// or size.
pub proof fn lemma_update_keeps_ids<T: Scalar, F: Fn(T) -> T>(
    blobs: Seq<Blob<T>>,
    dt: T,
    config: Config<T>,
    bounds: Vector2<T>,
    sqrt: &F,
)
    ensures
        updated(blobs, dt, config, bounds, sqrt).len() == blobs.len(),
        forall|i: int|
            0 <= i < blobs.len() ==> {
                &&& (#[trigger] updated(blobs, dt, config, bounds, sqrt)[i]).id == blobs[i].id
                &&& updated(blobs, dt, config, bounds, sqrt)[i].size == blobs[i].size
            },
{
    assert forall|i: int| 0 <= i < blobs.len() implies {
        &&& (#[trigger] updated(blobs, dt, config, bounds, sqrt)[i]).id == blobs[i].id
        &&& updated(blobs, dt, config, bounds, sqrt)[i].size == blobs[i].size
    } by {
        lemma_step_keeps_id(
            blobs[i],
            forces_on(blobs, i, blobs.len() as int, config, sqrt),
            dt,
            config.friction_force,
            bounds,
        );
    }
}

/// Negation in `T` goes through the other operators as it does in a field,
/// wherever the operations are defined: `b - a` is `-(a - b)`, `(-a) * (-a)`
/// is `a * a`, `(-a) / m` is `-(a / m)`, and `f * (-a)` is `-(f * a)`.
pub open spec fn obeys_sign_laws<T: Scalar>() -> bool {
    &&& forall|a: T, b: T|
        a.sub_req(b) && b.sub_req(a) && a.sub_spec(b).neg_req() ==> #[trigger] b.sub_spec(a)
            == a.sub_spec(b).neg_spec()
    &&& forall|a: T|
        a.neg_req() && a.mul_req(a) && a.neg_spec().mul_req(a.neg_spec())
            ==> #[trigger] a.neg_spec().mul_spec(a.neg_spec()) == a.mul_spec(a)
    &&& forall|a: T, m: T|
        a.neg_req() && a.div_req(m) && a.neg_spec().div_req(m) && a.div_spec(m).neg_req()
            ==> #[trigger] a.neg_spec().div_spec(m) == a.div_spec(m).neg_spec()
    &&& forall|f: T, a: T|
        a.neg_req() && f.mul_req(a) && f.mul_req(a.neg_spec()) && f.mul_spec(a).neg_req()
            ==> #[trigger] f.mul_spec(a.neg_spec()) == f.mul_spec(a).neg_spec()
}

/// The operations that the force along one axis takes are defined for the
/// offset component `a` and for `-a`, at distance `m`.
pub open spec fn axis_req<T: Scalar>(a: T, m: T, config: Config<T>) -> bool {
    let f = config.repel_force.mul_spec(a.div_spec(m));
    &&& a.neg_req()
    &&& a.mul_req(a)
    &&& a.neg_spec().mul_req(a.neg_spec())
    &&& a.div_req(m)
    &&& a.neg_spec().div_req(m)
    &&& a.div_spec(m).neg_req()
    &&& config.repel_force.mul_req(a.div_spec(m))
    &&& config.repel_force.mul_req(a.div_spec(m).neg_spec())
    &&& f.neg_req()
    &&& f.mul_req(f)
    &&& f.neg_spec().mul_req(f.neg_spec())
}

/// Two particles are as far from each other as each is from the other, one
/// repels the other exactly if the other repels it, and the two forces are
/// opposite and equally long.
pub proof fn lemma_repulsion_symmetric<T: Scalar, F: Fn(T) -> T>(
    blobs: Seq<Blob<T>>,
    i: int,
    j: int,
    config: Config<T>,
    sqrt: &F,
)
    requires
        obeys_sign_laws::<T>(),
        0 <= i < blobs.len(),
        0 <= j < blobs.len(),
        blobs[i].position.sub_req(blobs[j].position),
        blobs[j].position.sub_req(blobs[i].position),
        axis_req(
            offset(blobs, i, j).x,
            offset(blobs, i, j).magnitude_spec(sqrt),
            config,
        ),
        axis_req(
            offset(blobs, i, j).y,
            offset(blobs, i, j).magnitude_spec(sqrt),
            config,
        ),
    ensures
        offset(blobs, j, i) == offset(blobs, i, j).neg_spec(),
        offset(blobs, j, i).magnitude_spec(sqrt) == offset(blobs, i, j).magnitude_spec(sqrt),
        repels(blobs, j, i, config, sqrt) == repels(blobs, i, j, config, sqrt),
        repulsion_spec(offset(blobs, j, i), offset(blobs, j, i).magnitude_spec(sqrt), config)
            == repulsion_spec(
            offset(blobs, i, j),
            offset(blobs, i, j).magnitude_spec(sqrt),
            config,
        ).neg_spec(),
        repulsion_spec(
            offset(blobs, j, i),
            offset(blobs, j, i).magnitude_spec(sqrt),
            config,
        ).magnitude_spec(sqrt) == repulsion_spec(
            offset(blobs, i, j),
            offset(blobs, i, j).magnitude_spec(sqrt),
            config,
        ).magnitude_spec(sqrt),
{
    let v = offset(blobs, i, j);
    let w = offset(blobs, j, i);
    assert(w.x == v.x.neg_spec());
    assert(w.y == v.y.neg_spec());
    assert(w.norm_squared_spec() == v.norm_squared_spec());
    let m = v.magnitude_spec(sqrt);
    let f = repulsion_spec(v, m, config);
    let g = repulsion_spec(w, m, config);
    assert(g.x == f.x.neg_spec());
    assert(g.y == f.y.neg_spec());
    assert(g.norm_squared_spec() == f.norm_squared_spec());
}

/// A step changes neither a particle's id nor its size.
pub proof fn lemma_step_keeps_id<T: Scalar>(
    blob: Blob<T>,
    forces: Seq<Vector2<T>>,
    dt: T,
    friction: T,
    bounds: Vector2<T>,
)
    ensures
        blob.step_spec(forces, dt, friction, bounds).id == blob.id,
        blob.step_spec(forces, dt, friction, bounds).size == blob.size,
{
    lemma_apply_forces_keeps_id(blob, forces, dt);
}

/// Forces change neither a particle's id, nor its size, position or
/// velocity.
pub proof fn lemma_apply_forces_keeps_id<T: Scalar>(blob: Blob<T>, forces: Seq<Vector2<T>>, dt: T)
    ensures
        blob.apply_forces_spec(forces, dt).id == blob.id,
        blob.apply_forces_spec(forces, dt).size == blob.size,
        blob.apply_forces_spec(forces, dt).position == blob.position,
        blob.apply_forces_spec(forces, dt).velocity == blob.velocity,
    decreases forces.len(),
{
    if forces.len() > 0 {
        lemma_apply_forces_keeps_id(blob, forces.drop_last(), dt);
    }
}

/// Every operator of `T` is defined on every argument, as the operators of
/// a floating-point or a saturating scalar are.
pub open spec fn total_arithmetic<T: Scalar>() -> bool {
    &&& forall|a: T, b: T| #[trigger] a.add_req(b)
    &&& forall|a: T, b: T| #[trigger] a.sub_req(b)
    &&& forall|a: T, b: T| #[trigger] a.mul_req(b)
    &&& forall|a: T, b: T| #[trigger] a.div_req(b)
    &&& forall|a: T| #[trigger] a.neg_req()
}

/// With a scalar whose operators are defined everywhere, forces act on a
/// particle whatever they are.
pub proof fn lemma_total_apply_forces_defined<T: Scalar>(
    blob: Blob<T>,
    forces: Seq<Vector2<T>>,
    dt: T,
)
    requires
        total_arithmetic::<T>(),
    ensures
        blob.apply_forces_req(forces, dt),
    decreases forces.len(),
{
    if forces.len() > 0 {
        lemma_total_apply_forces_defined(blob, forces.drop_last(), dt);
    }
}

/// With a scalar whose operators are defined everywhere, an update is
/// defined in every state of every world.
pub proof fn lemma_total_update_defined<T: Scalar, F: Fn(T) -> T>(
    blobs: Seq<Blob<T>>,
    dt: T,
    config: Config<T>,
    bounds: Vector2<T>,
    sqrt: &F,
)
    requires
        total_arithmetic::<T>(),
    ensures
        update_req(blobs, dt, config, bounds, sqrt),
{
    assert forall|i: int| 0 <= i < blobs.len() implies (#[trigger] blobs[i]).step_req(
        forces_on(blobs, i, blobs.len() as int, config, sqrt),
        dt,
        config.friction_force,
        bounds,
    ) by {
        lemma_total_apply_forces_defined(
            blobs[i],
            forces_on(blobs, i, blobs.len() as int, config, sqrt),
            dt,
        );
    }
}

/// The 64-bit signed integers are a scalar of which all the laws above
/// speak: their operators return what they specify, their order is a total
/// order, and negation goes through their operators as in a field.
pub proof fn lemma_i64_is_lawful()
    ensures
        obeys_arithmetic::<i64>(),
        obeys_order_laws::<i64>(),
        obeys_sign_laws::<i64>(),
{
    assert forall|a: i64|
        a.neg_req() && a.mul_req(a) && a.neg_spec().mul_req(
            a.neg_spec(),
        ) implies #[trigger] a.neg_spec().mul_spec(a.neg_spec()) == a.mul_spec(a) by {
        assert((-a) * (-a) == a * a) by (nonlinear_arith);
    }
    assert forall|a: i64, m: i64|
        a.neg_req() && a.div_req(m) && a.neg_spec().div_req(m) && a.div_spec(
            m,
        ).neg_req() implies #[trigger] a.neg_spec().div_spec(m) == a.div_spec(m).neg_spec() by {
        let p: int = if a >= 0 {
            a as int
        } else {
            -(a as int)
        };
        let q: int = p / (m as int);
        assert(-p <= q <= p) by (nonlinear_arith)
            requires
                p >= 0,
                m != 0,
                q == p / (m as int),
        ;
    }
    assert forall|f: i64, a: i64|
        a.neg_req() && f.mul_req(a) && f.mul_req(a.neg_spec()) && f.mul_spec(
            a,
        ).neg_req() implies #[trigger] f.mul_spec(a.neg_spec()) == f.mul_spec(a).neg_spec() by {
        assert(f * (-a) == -(f * a)) by (nonlinear_arith);
    }
}

} // verus!
