//! What is decided when a ray passes through a medium of constant density:
//! which part of its way through the boundary counts, and whether it is
//! scattered on that part.

use vstd::prelude::*;
use crate::interval::Interval;
use crate::scalar::Scalar;

verus! {

/// The times at which the ray is inside the boundary and inside the window:
/// the entry is not before the window opens, the exit not after it closes,
/// and an entry before time zero counts as zero. None where nothing is left
/// between the two.
pub open spec fn spec_clip(entry: Scalar, exit: Scalar, time: Interval) -> Option<
    (Scalar, Scalar),
> {
    let entry = if entry.spec_lt(time.min) {
        time.min
    } else {
        entry
    };
    let exit = if time.max.spec_lt(exit) {
        time.max
    } else {
        exit
    };
    if exit.spec_le(entry) {
        None
    } else {
        Some(
            (
                if entry.spec_lt(Scalar { bits: 0 }) {
                    Scalar { bits: 0 }
                } else {
                    entry
                },
                exit,
            ),
        )
    }
}

/// The window in which the ray is asked for the way out of the boundary:
/// from `after`, which the caller has put a little past the way in, without end.
pub fn exit_window(after: Scalar) -> (window: Interval)
    ensures
        window == (Interval { min: after, max: Scalar { bits: crate::scalar::INFINITY_BITS } }),
{
    Interval::new(after, Scalar::infinity())
}

/// Cuts the ray's way through the boundary down to the window.
pub fn clip(entry: Scalar, exit: Scalar, time: &Interval) -> (inside: Option<(Scalar, Scalar)>)
    ensures
        inside == spec_clip(entry, exit, *time),
{
    let mut entry = entry;
    let mut exit = exit;
    if entry.lt(time.min()) {
        entry = time.min();
    }
    if exit.gt(time.max()) {
        exit = time.max();
    }
    if entry.ge(exit) {
        None
    } else {
        if entry.lt(Scalar::zero()) {
            entry = Scalar::zero();
        }
        Some((entry, exit))
    }
}

/// The ray is scattered inside the boundary: the distance drawn for its free
/// path is not longer than its way through the boundary.
pub fn scatters_inside(hit_dist: Scalar, distance_inside_boundary: Scalar) -> (scatters: bool)
    ensures
        scatters == !distance_inside_boundary.spec_lt(hit_dist),
{
    !hit_dist.gt(distance_inside_boundary)
}

/// What is left of the ray's way ends before the window closes and begins
/// at zero at the earliest; and in a window that opens at zero or later it
/// begins when the window opens at the earliest, and strictly before it ends.
pub proof fn lemma_clip_inside_window(entry: Scalar, exit: Scalar, time: Interval)
    requires
        !time.min.spec_is_nan(),
        !time.max.spec_is_nan(),
        !entry.spec_is_nan(),
        !exit.spec_is_nan(),
    ensures
        match spec_clip(entry, exit, time) {
            Some((t0, t1)) => {
                &&& t1.spec_le(time.max)
                &&& t0.key() >= 0
                &&& time.min.key() >= 0 ==> time.min.spec_le(t0) && t0.spec_lt(t1)
            },
            None => true,
        },
{
}

} // verus!
