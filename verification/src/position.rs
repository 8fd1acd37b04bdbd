//! A position: a point paired with an orientation.

use vstd::prelude::*;
use crate::FullFloat;
use crate::point::Point3;
use crate::quat::NQuat;

verus! {

/// A position is a combination of a point and an orientation.
///
/// Orientation is more than just a facing vector: it must also
/// resolve which way is up, but needs no extra vector for that -- a
/// normalized quaternion fits the role perfectly.
#[derive(Debug, Clone, Copy, PartialEq, Eq, Hash)]
pub struct Position<F: FullFloat> {
    pub point: Point3<F>,
    pub ori: NQuat<F>,
}

impl<F: FullFloat> Position<F> {
    /// Pair a point with an orientation.
    pub fn new(point: Point3<F>, ori: NQuat<F>) -> (r: Position<F>)
        ensures
            r.point == point,
            r.ori == ori,
    {
        Position { point, ori }
    }
}

} // verus!
