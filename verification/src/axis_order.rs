//! The order in which a bounding-volume hierarchy lines its objects up along
//! an axis: by the lower face of each object's box.

use vstd::prelude::*;
use std::cmp::Ordering;
use crate::hittable::Bounded;

verus! {

/// Where an object stands along an axis: the key of the lower bound of its box.
pub open spec fn spec_axis_key(object: Bounded, axis: u32) -> int {
    object.bbox.spec_axis(axis).min.key()
}

/// The objects stand in a row along the axis, none before one that it should follow.
pub open spec fn spec_sorted_on(objects: Seq<Bounded>, axis: u32) -> bool {
    forall|i: int, j: int|
        0 <= i <= j < objects.len() ==> spec_axis_key(objects[i], axis) <= spec_axis_key(
            objects[j],
            axis,
        )
}

/// `left` stands before `right` along the axis.
pub fn box_compare(left: &Bounded, right: &Bounded, axis: u32) -> (before: bool)
    ensures
        before == (spec_axis_key(*left, axis) < spec_axis_key(*right, axis)),
{
    left.bbox.axis(axis).min().key_lt(right.bbox.axis(axis).min())
}

/// How two objects stand to one another along the axis.
pub fn axis_ordering(left: &Bounded, right: &Bounded, axis: u32) -> (order: Ordering)
    ensures
        order == Ordering::Less <==> spec_axis_key(*left, axis) < spec_axis_key(*right, axis),
        order == Ordering::Greater <==> spec_axis_key(*left, axis) > spec_axis_key(*right, axis),
        order == Ordering::Equal <==> spec_axis_key(*left, axis) == spec_axis_key(*right, axis),
{
    if box_compare(left, right, axis) {
        Ordering::Less
    } else if box_compare(right, left, axis) {
        Ordering::Greater
    } else {
        Ordering::Equal
    }
}

/// Calls `sort_by` of the standard library's slices, with `axis_ordering` as
/// the comparison. The standard library documents that the slice is sorted
/// by the comparison handed to it and keeps its elements; it may panic where
/// the comparison is no total order, which `axis_ordering` is, as it orders
/// by a whole number.
#[verifier::external_body]
pub(crate) fn sort_on_axis(objects: &mut Vec<Bounded>, axis: u32)
    ensures
        final(objects)@.to_multiset() == old(objects)@.to_multiset(),
        final(objects)@.len() == old(objects)@.len(),
        spec_sorted_on(final(objects)@, axis),
{
    objects.sort_by(|a, b| axis_ordering(a, b, axis));
}

} // verus!
