//! The tunable constants of the simulation.

use vstd::prelude::*;

verus! {

/// The physical constants that one simulation step reads.
///
/// Friction is divisive: each step divides a particle's acceleration by
/// `friction_force` times the elapsed time.
#[derive(Debug, Clone, Copy)]
pub struct Config<T> {
    /// Side of the bounding square of every particle created from now on.
    pub blob_size: T,
    /// Length of the force that one particle exerts on another in range.
    pub repel_force: T,
    /// Greatest distance at which two particles still repel each other.
    pub repel_distance: T,
    /// Divisor of the acceleration, per unit of time.
    pub friction_force: T,
}

} // verus!
