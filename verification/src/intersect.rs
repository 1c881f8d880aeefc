//! Where a ray meets a sphere or a plane: the rules that turn the quantities
//! of the geometry into a distance along the ray, or into no hit at all.
//!
//! The quantities themselves are sums, products and roots of coordinates, and
//! the caller computes them. For a sphere with centre `c` and radius `r`, and
//! a ray from `o` along the unit vector `d`, let `l = c - o` and
//! `adj = l . d`. Then
//!
//! * `d2 = l . l - adj * adj` is the squared distance from the centre to the
//!   line of the ray,
//! * `radius2 = r * r`,
//! * `t0 = adj - sqrt(radius2 - d2)` and `t1 = adj + sqrt(radius2 - d2)` are
//!   the distances along the ray at which its line enters and leaves the
//!   sphere.
//!
//! For a plane through `p` with unit normal `n`,
//!
//! * `denom = n . d`,
//! * `distance = ((p - o) . n) / denom`.

use vstd::prelude::*;
use crate::data::{Plane, Sphere};
use crate::number::Double;

verus! {

/// The pattern of 1e-6 in double precision: a ray whose direction has no
/// larger component along a plane's normal counts as parallel to the plane.
pub const EPSILON: u64 = 0x3EB0_C6F7_A0B5_ED8D;

impl Sphere {
    /// The distance at which a ray meets a sphere, from the quantities named
    /// in the module's description.
    ///
    /// The line misses the sphere where `d2` exceeds `radius2`. The sphere
    /// lies behind the ray where both roots are negative. Otherwise the ray
    /// meets it at `t0` if that is the smaller root, and else at `t1`; for a
    /// ray that starts inside the sphere this distance is negative.
    pub open spec fn spec_intersection(
        d2: Double,
        radius2: Double,
        t0: Double,
        t1: Double,
    ) -> Option<Double> {
        if d2.spec_gt(radius2) {
            None
        } else if t0.spec_lt(Double::spec_zero()) && t1.spec_lt(Double::spec_zero()) {
            None
        } else if t0.spec_lt(t1) {
            Some(t0)
        } else {
            Some(t1)
        }
    }

    /// The distance at which a ray meets a sphere, from the quantities named
    /// in the module's description.
    pub fn intersection(d2: Double, radius2: Double, t0: Double, t1: Double) -> (hit: Option<
        Double,
    >)
        ensures
            hit == Sphere::spec_intersection(d2, radius2, t0, t1),
    {
        let zero: Double = Double::zero();
        if d2.gt(&radius2) {
            return None;
        }
        if t0.lt(&zero) && t1.lt(&zero) {
            return None;
        }
        if t0.lt(&t1) {
            Some(t0)
        } else {
            Some(t1)
        }
    }
}

impl Plane {
    /// The distance at which a ray meets a plane, from the quantities named
    /// in the module's description.
    ///
    /// The ray meets the plane where it heads against the plane's normal by
    /// more than `EPSILON` and the plane does not lie behind it.
    pub open spec fn spec_intersection(denom: Double, distance: Double) -> Option<Double> {
        if denom.spec_gt(Double { bits: EPSILON }) && distance.spec_ge(Double::spec_zero()) {
            Some(distance)
        } else {
            None
        }
    }

    /// The distance at which a ray meets a plane, from the quantities named
    /// in the module's description.
    pub fn intersection(denom: Double, distance: Double) -> (hit: Option<Double>)
        ensures
            hit == Plane::spec_intersection(denom, distance),
    {
        let epsilon: Double = Double { bits: EPSILON };
        let zero: Double = Double::zero();
        if denom.gt(&epsilon) && distance.ge(&zero) {
            Some(distance)
        } else {
            None
        }
    }
}

/// A plane is never met at a distance that is NaN or negative.
pub proof fn lemma_plane_distance_is_a_length(denom: Double, distance: Double)
    ensures
        Plane::spec_intersection(denom, distance) matches Some(d) ==> !d.is_nan() && d.key() >= 0,
{
}

/// A ray that runs along a plane, to within `EPSILON`, does not meet it.
pub proof fn lemma_parallel_ray_misses_plane(denom: Double, distance: Double)
    requires
        denom.magnitude() <= EPSILON,
    ensures
        Plane::spec_intersection(denom, distance) is None,
{
}

/// A sphere is met at one of the two roots, and at a number as long as the
/// far root is a number.
pub proof fn lemma_sphere_distance_is_a_root(d2: Double, radius2: Double, t0: Double, t1: Double)
    ensures
        Sphere::spec_intersection(d2, radius2, t0, t1) matches Some(d) ==> {
            &&& d == t0 || d == t1
            &&& !t1.is_nan() ==> !d.is_nan()
        },
{
}

/// A sphere that lies behind the ray is not met.
pub proof fn lemma_sphere_behind_is_missed(d2: Double, radius2: Double, t0: Double, t1: Double)
    requires
        t0.spec_lt(Double::spec_zero()),
        t1.spec_lt(Double::spec_zero()),
    ensures
        Sphere::spec_intersection(d2, radius2, t0, t1) is None,
{
}

/// A sphere that lies ahead of the ray is met at its near root: where the
/// line does not miss it, the near root is not negative and the far root lies
/// beyond the near one.
pub proof fn lemma_sphere_ahead_is_met_at_near_root(
    d2: Double,
    radius2: Double,
    t0: Double,
    t1: Double,
)
    requires
        !d2.spec_gt(radius2),
        t0.spec_ge(Double::spec_zero()),
        t0.spec_lt(t1),
    ensures
        Sphere::spec_intersection(d2, radius2, t0, t1) == Some(t0),
{
}

} // verus!
