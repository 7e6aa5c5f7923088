//! Methods common to 2D and 3D axis-aligned bounding boxes (AABB).  A box
//! over `NDIM` dimensions is stored as `2 * NDIM` scalars: the minima of
//! each axis, then the maxima.

use crate::fx::{fadd, fdiv, fmul, fsub, mag, Fix, SAT_RAW, SCALE};
use vstd::prelude::*;

verus! {

/// The running entry and exit parameters of a line against the first `n`
/// slabs of a box, or `None` when an axis-parallel line misses a slab.
/// The fold starts from the whole parameter range.
pub open spec fn line_fold(
    aabb: Seq<Fix>,
    org: Seq<Fix>,
    dir: Seq<Fix>,
    ndim: int,
    n: int,
) -> Option<(int, int)>
    decreases n,
{
    if n <= 0 {
        Some((-(SAT_RAW as int), SAT_RAW as int))
    } else {
        match line_fold(aabb, org, dir, ndim, n - 1) {
            None => None,
            Some((tmin, tmax)) => {
                let i = n - 1;
                if mag(dir[i]@) != 0 {
                    let t1 = fdiv(fsub(aabb[i]@, org[i]@), dir[i]@);
                    let t2 = fdiv(fsub(aabb[i + ndim]@, org[i]@), dir[i]@);
                    let lo = if t1 <= t2 {
                        t1
                    } else {
                        t2
                    };
                    let hi = if t1 >= t2 {
                        t1
                    } else {
                        t2
                    };
                    Some(
                        (
                            if tmin >= lo {
                                tmin
                            } else {
                                lo
                            },
                            if tmax <= hi {
                                tmax
                            } else {
                                hi
                            },
                        ),
                    )
                } else if org[i]@ < aabb[i]@ || org[i]@ > aabb[i + ndim]@ {
                    None
                } else {
                    Some((tmin, tmax))
                }
            },
        }
    }
}

/// A miss against an early slab stays a miss.
proof fn lemma_line_fold_none(aabb: Seq<Fix>, org: Seq<Fix>, dir: Seq<Fix>, ndim: int, i: int, n: int)
    requires
        0 <= i <= n,
        line_fold(aabb, org, dir, ndim, i) is None,
    ensures
        line_fold(aabb, org, dir, ndim, n) is None,
    decreases n - i,
{
    if i < n {
        lemma_line_fold_none(aabb, org, dir, ndim, i, n - 1);
    }
}

/// The intersection parameters of a line against a box: `Some((tmin, tmax))`
/// when the line meets the box, where the two parameters are the entry and
/// exit ratios along the direction, and `None` otherwise.  The parameters
/// come from folding the slab intervals of every axis; the line misses
/// exactly when the fold collapses (an axis-parallel line outside a slab) or
/// leaves an empty interval.
pub fn intersections_against_line<const NDIM: usize, const SIZE_AABB: usize>(
    aabb: &[Fix; SIZE_AABB],
    line_org: &[Fix; NDIM],
    line_dir: &[Fix; NDIM],
) -> (r: Option<(Fix, Fix)>)
    requires
        NDIM * 2 == SIZE_AABB,
    ensures
        ({
            let f = line_fold(aabb@, line_org@, line_dir@, NDIM as int, NDIM as int);
            match r {
                Some((tmin, tmax)) => f == Some((tmin@, tmax@)) && tmax@ >= tmin@,
                None => f is None || (f matches Some((a, b)) && b < a),
            }
        }),
{
    let mut tmin = Fix::min_value();
    let mut tmax = Fix::max_value();
    let mut i_dim: usize = 0;
    while i_dim < NDIM
        invariant
            i_dim <= NDIM,
            NDIM * 2 == SIZE_AABB,
            line_fold(aabb@, line_org@, line_dir@, NDIM as int, i_dim as int) == Some(
                (tmin@, tmax@),
            ),
        decreases NDIM - i_dim,
    {
        if !line_dir[i_dim].abs().is_zero() {
            let t1 = aabb[i_dim].sub(line_org[i_dim]).div(line_dir[i_dim]);
            let t2 = aabb[i_dim + NDIM].sub(line_org[i_dim]).div(line_dir[i_dim]);
            tmin = tmin.max(t1.min(t2));
            tmax = tmax.min(t1.max(t2));
        } else if line_org[i_dim].lt(aabb[i_dim]) || line_org[i_dim].gt(aabb[i_dim + NDIM]) {
            proof {
                lemma_line_fold_none(
                    aabb@,
                    line_org@,
                    line_dir@,
                    NDIM as int,
                    i_dim as int + 1,
                    NDIM as int,
                );
            }
            return None;
        }
        i_dim = i_dim + 1;
    }
    if tmax.ge(tmin) {
        Some((tmin, tmax))
    } else {
        None
    }
}

/// The intersection parameters of a ray against a box: as the line test,
/// but a box entirely behind the ray origin (negative exit parameter) is a
/// miss.
pub fn intersections_against_ray<const NDIM: usize, const SIZE_AABB: usize>(
    aabb: &[Fix; SIZE_AABB],
    ray_org: &[Fix; NDIM],
    ray_dir: &[Fix; NDIM],
) -> (r: Option<(Fix, Fix)>)
    requires
        NDIM * 2 == SIZE_AABB,
    ensures
        ({
            let f = line_fold(aabb@, ray_org@, ray_dir@, NDIM as int, NDIM as int);
            match r {
                Some((tmin, tmax)) => f == Some((tmin@, tmax@)) && tmax@ >= tmin@ && tmax@ >= 0,
                None => f is None || (f matches Some((a, b)) && (b < a || b < 0)),
            }
        }),
{
    let r = intersections_against_line(aabb, ray_org, ray_dir);
    match r {
        Some((tmin, tmax)) => {
            if tmax.ge(Fix::zero()) {
                Some((tmin, tmax))
            } else {
                None
            }
        },
        None => None,
    }
}

/// Whether a point lies inside the box, boundaries included.
pub fn is_include_point<const NDIM: usize, const SIZE_AABB: usize>(
    aabb: &[Fix; SIZE_AABB],
    point: &[Fix; NDIM],
) -> (r: bool)
    requires
        NDIM * 2 == SIZE_AABB,
    ensures
        r == forall|i: int|
            0 <= i < NDIM ==> #[trigger] aabb@[i]@ <= point@[i]@ && point@[i]@ <= aabb@[i
                + NDIM]@,
{
    let mut i: usize = 0;
    while i < NDIM
        invariant
            i <= NDIM,
            NDIM * 2 == SIZE_AABB,
            forall|j: int|
                0 <= j < i ==> #[trigger] aabb@[j]@ <= point@[j]@ && point@[j]@ <= aabb@[j
                    + NDIM]@,
        decreases NDIM - i,
    {
        if point[i].lt(aabb[i]) || point[i].gt(aabb[i + NDIM]) {
            return false;
        }
        i = i + 1;
    }
    true
}

/// The center of the box: the halved sum of each axis's bounds.
pub fn center<const NDIM: usize, const SIZE_AABB: usize>(aabb: &[Fix; SIZE_AABB]) -> (r: [Fix;
    NDIM])
    requires
        NDIM * 2 == SIZE_AABB,
    ensures
        forall|i: int|
            0 <= i < NDIM ==> #[trigger] r@[i]@ == fmul(
                fadd(aabb@[i]@, aabb@[i + NDIM]@),
                (SCALE as int) / 2,
            ),
{
    let half = Fix::half();
    let mut r = [Fix::zero(); NDIM];
    let mut i: usize = 0;
    while i < NDIM
        invariant
            i <= NDIM,
            NDIM * 2 == SIZE_AABB,
            half@ == (SCALE as int) / 2,
            r@.len() == NDIM,
            forall|j: int|
                0 <= j < i ==> #[trigger] r@[j]@ == fmul(
                    fadd(aabb@[j]@, aabb@[j + NDIM]@),
                    (SCALE as int) / 2,
                ),
        decreases NDIM - i,
    {
        r[i] = aabb[i].add(aabb[i + NDIM]).mul(half);

        i = i + 1;
    }
    r
}

/// An axis-aligned bounding box over `NDIM` dimensions.
#[derive(Debug, Clone, Copy)]
pub struct AABB<const NDIM: usize, const SIZE_AABB: usize> {
    pub aabb: [Fix; SIZE_AABB],
}

impl<const NDIM: usize, const SIZE_AABB: usize> AABB<NDIM, SIZE_AABB> {
    /// Whether a point lies inside the box, boundaries included.
    pub fn is_include_point(&self, point: &[Fix; NDIM]) -> (r: bool)
        requires
            NDIM * 2 == SIZE_AABB,
        ensures
            r == forall|i: int|
                0 <= i < NDIM ==> #[trigger] self.aabb@[i]@ <= point@[i]@ && point@[i]@
                    <= self.aabb@[i + NDIM]@,
    {
        is_include_point::<NDIM, SIZE_AABB>(&self.aabb, point)
    }

    /// The intersection parameters of a ray against the box.
    pub fn intersections_against_ray(&self, ray_org: &[Fix; NDIM], ray_dir: &[Fix; NDIM]) -> (r:
        Option<(Fix, Fix)>)
        requires
            NDIM * 2 == SIZE_AABB,
        ensures
            ({
                let f = line_fold(self.aabb@, ray_org@, ray_dir@, NDIM as int, NDIM as int);
                match r {
                    Some((tmin, tmax)) => f == Some((tmin@, tmax@)) && tmax@ >= tmin@ && tmax@
                        >= 0,
                    None => f is None || (f matches Some((a, b)) && (b < a || b < 0)),
                }
            }),
    {
        intersections_against_ray::<NDIM, SIZE_AABB>(&self.aabb, ray_org, ray_dir)
    }

    /// The intersection parameters of a line against the box.
    pub fn intersections_against_line(&self, line_org: &[Fix; NDIM], line_dir: &[Fix; NDIM]) -> (r:
        Option<(Fix, Fix)>)
        requires
            NDIM * 2 == SIZE_AABB,
        ensures
            ({
                let f = line_fold(self.aabb@, line_org@, line_dir@, NDIM as int, NDIM as int);
                match r {
                    Some((tmin, tmax)) => f == Some((tmin@, tmax@)) && tmax@ >= tmin@,
                    None => f is None || (f matches Some((a, b)) && b < a),
                }
            }),
    {
        intersections_against_line::<NDIM, SIZE_AABB>(&self.aabb, line_org, line_dir)
    }

    /// The center of the box.
    pub fn center(&self) -> (r: [Fix; NDIM])
        requires
            NDIM * 2 == SIZE_AABB,
        ensures
            forall|i: int|
                0 <= i < NDIM ==> #[trigger] r@[i]@ == fmul(
                    fadd(self.aabb@[i]@, self.aabb@[i + NDIM]@),
                    (SCALE as int) / 2,
                ),
    {
        center(&self.aabb)
    }
}

} // verus!
