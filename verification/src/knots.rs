//! Searches in the knot vector of a spline: which span a knot value falls in,
//! and where the run of a repeated knot begins.

use vstd::prelude::*;
use crate::scalar::Scalar;

verus! {

/// A knot vector never decreases from one entry to the next.
pub open spec fn non_decreasing(knots: Seq<u32>) -> bool {
    forall|i: int, j: int| 0 <= i <= j < knots.len() ==> knots[i] <= knots[j]
}

/// The index of the last knot that a span search may answer with:
/// the number of control points of the curve, less one.
pub open spec fn last_span(degree: u32, knots: Seq<u32>) -> int {
    knots.len() - degree - 2
}

/// `span` is the knot span of `knot`: the value lies at or after the span's
/// first knot and before the next one, clamped at both ends of the vector.
pub open spec fn is_span_of(degree: u32, knots: Seq<u32>, knot: u32, span: int) -> bool {
    let n = last_span(degree, knots);
    if knot >= knots[n + 1] {
        span == n
    } else if knot <= knots[degree as int] {
        span == degree
    } else {
        degree <= span <= n && knots[span] <= knot < knots[span + 1]
    }
}

/// The index of the last knot that a start search looks at from above.
pub open spec fn last_start(degree: u32, knots: Seq<u32>) -> int {
    knots.len() - degree - 1
}

/// The inputs on which the start search is defined: a value inside the open
/// range of the vector has to be one of its knots, and its run has to begin
/// before the closing knots.
pub open spec fn start_searchable(degree: u32, knots: Seq<u32>, knot: u32) -> bool {
    let n = last_start(degree, knots);
    knots[degree as int] < knot < knots[n + 1] ==> {
        &&& knot <= knots[n - 1]
        &&& exists|i: int| 0 <= i < knots.len() && knots[i] == knot
    }
}

/// `start` is where the run of `knot` begins: the first index whose knot is not
/// below the value, clamped at both ends of the vector.
pub open spec fn is_start_of(degree: u32, knots: Seq<u32>, knot: u32, start: int) -> bool {
    let n = last_start(degree, knots);
    if knot >= knots[n + 1] {
        start == n
    } else if knot <= knots[degree as int] {
        start == 0
    } else {
        degree < start < n && knots[start - 1] < knot <= knots[start]
    }
}

/// In a non-decreasing vector a value has one span only.
pub proof fn lemma_span_unique(degree: u32, knots: Seq<u32>, knot: u32, a: int, b: int)
    requires
        non_decreasing(knots),
        degree + 2 <= knots.len(),
        is_span_of(degree, knots, knot, a),
        is_span_of(degree, knots, knot, b),
    ensures
        a == b,
{
    let n = last_span(degree, knots);
    if knot < knots[n + 1] && knot > knots[degree as int] {
        if a < b {
            assert(knots[a + 1] <= knots[b]);
        } else if b < a {
            assert(knots[b + 1] <= knots[a]);
        }
    }
}

/// In a non-decreasing vector the run of a value begins at one index only.
pub proof fn lemma_start_unique(degree: u32, knots: Seq<u32>, knot: u32, a: int, b: int)
    requires
        non_decreasing(knots),
        1 <= degree,
        degree + 1 <= knots.len(),
        is_start_of(degree, knots, knot, a),
        is_start_of(degree, knots, knot, b),
    ensures
        a == b,
{
    let n = last_start(degree, knots);
    if knot < knots[n + 1] && knot > knots[degree as int] {
        if a < b {
            assert(knots[a] <= knots[b - 1]);
        } else if b < a {
            assert(knots[b] <= knots[a - 1]);
        }
    }
}

/// Finds the knot span of `knot` by bisection.
pub fn find_span_knot(degree: u32, knots: &Vec<u32>, knot: u32) -> (span: u32)
    requires
        2 * knots.len() <= u32::MAX,
        degree + 2 <= knots.len(),
        non_decreasing(knots@),
    ensures
        is_span_of(degree, knots@, knot, span as int),
{
    let n: u32 = knots.len() as u32 - degree - 2;
    if knot >= knots[n as usize + 1] {
        n
    } else {
        if knot <= knots[degree as usize] {
            degree
        } else {
            let mut low: u32 = degree;
            let mut high: u32 = n + 1;
            let mut mid: u32 = (low + high) / 2;
            while (knot < knots[mid as usize] || knot >= knots[mid as usize + 1]) && low < high
                invariant
                    2 * knots.len() <= u32::MAX,
                    n == knots.len() - degree - 2,
                    non_decreasing(knots@),
                    degree <= low < high <= n + 1,
                    knots[low as int] <= knot < knots[high as int],
                    mid == (low + high) / 2,
                decreases high - low,
            {
                if knot < knots[mid as usize] {
                    high = mid;
                } else {
                    low = mid;
                }
                mid = (low + high) / 2;
            }
            mid
        }
    }
}

/// Finds the index at which the run of `knot` begins, by bisection.
pub fn find_start_knot(degree: u32, knots: &Vec<u32>, knot: u32) -> (start: u32)
    requires
        2 * knots.len() <= u32::MAX,
        1 <= degree,
        degree + 1 <= knots.len(),
        non_decreasing(knots@),
        start_searchable(degree, knots@, knot),
    ensures
        is_start_of(degree, knots@, knot, start as int),
{
    let n: u32 = knots.len() as u32 - degree - 1;
    if knot >= knots[n as usize + 1] {
        n
    } else {
        if knot <= knots[degree as usize] {
            0
        } else {
            let ghost at: int = choose|i: int| 0 <= i < knots.len() && knots[i] == knot;
            let mut low: u32 = degree + 1;
            let mut high: u32 = n - 1;
            let mut mid: u32 = (low + high) / 2;
            while !(knot > knots[(mid - 1) as usize] && knot <= knots[mid as usize])
                invariant
                    2 * knots.len() <= u32::MAX,
                    n == knots.len() - degree - 1,
                    non_decreasing(knots@),
                    0 <= at < knots.len(),
                    knots[at] == knot,
                    degree < low <= high < n,
                    knots[low - 1] < knot <= knots[high as int],
                    mid == (low + high) / 2,
                decreases high - low,
            {
                if knot <= knots[mid as usize] {
                    high = mid;
                } else if knot >= knots[mid as usize + 1] {
                    low = mid + 1;
                } else {
                    assert(false) by {
                        if at <= mid {
                            assert(knots[at] <= knots[mid as int]);
                        } else {
                            assert(knots[mid + 1] <= knots[at]);
                        }
                    }
                    low = mid;
                }
                mid = (low + high) / 2;
            }
            mid
        }
    }
}

/// Every entry is a number.
pub open spec fn all_numbers(values: Seq<Scalar>) -> bool {
    forall|i: int| 0 <= i < values.len() ==> !(#[trigger] values[i]).spec_is_nan()
}

/// The entries are numbers and never decrease from one to the next.
pub open spec fn ascending(values: Seq<Scalar>) -> bool {
    &&& all_numbers(values)
    &&& forall|i: int, j: int| 0 <= i <= j < values.len() ==> values[i].key() <= values[j].key()
}

/// `span` is the knot span of the parameter where knots count as reached a
/// tolerance early: `lowered` holds every knot less the tolerance and
/// `raised` every knot plus the tolerance.
pub open spec fn is_span_of_param(
    degree: u32,
    lowered: Seq<Scalar>,
    raised: Seq<Scalar>,
    param: Scalar,
    span: int,
) -> bool {
    let n = lowered.len() - degree - 2;
    if lowered[n + 1].spec_le(param) {
        span == n
    } else if param.spec_le(raised[degree as int]) {
        span == degree
    } else {
        degree <= span <= n && lowered[span].spec_le(param) && param.spec_lt(lowered[span + 1])
    }
}

/// The inputs on which the start search for a parameter is defined: a
/// parameter inside the open range of the vector is not beyond the last
/// knot that the search looks at, and does not fall between two neighbouring
/// knots without being within the tolerance of either.
pub open spec fn start_searchable_param(
    degree: u32,
    lowered: Seq<Scalar>,
    raised: Seq<Scalar>,
    param: Scalar,
) -> bool {
    let n = lowered.len() - degree - 1;
    !lowered[n + 1].spec_le(param) && !param.spec_le(raised[degree as int]) ==> {
        &&& param.spec_le(raised[n - 1])
        &&& forall|i: int|
            0 <= i < lowered.len() - 1 ==> !(#[trigger] raised[i].spec_lt(param) && param.spec_lt(
                lowered[i + 1],
            ))
    }
}

/// `start` is where the run of the knot begins that the parameter has
/// reached: the first index whose knot, plus the tolerance, is not below the
/// parameter, clamped at both ends of the vector.
pub open spec fn is_start_of_param(
    degree: u32,
    lowered: Seq<Scalar>,
    raised: Seq<Scalar>,
    param: Scalar,
    start: int,
) -> bool {
    let n = lowered.len() - degree - 1;
    if lowered[n + 1].spec_le(param) {
        start == n
    } else if param.spec_le(raised[degree as int]) {
        start == 0
    } else {
        degree < start < n && raised[start - 1].spec_lt(param) && param.spec_le(raised[start])
    }
}

/// Finds the knot span of a parameter by bisection, with a tolerance. The
/// caller has taken the tolerance off every knot (`lowered`) and added it to
/// every knot (`raised`).
pub fn find_span_param(
    degree: u32,
    lowered: &Vec<Scalar>,
    raised: &Vec<Scalar>,
    param: Scalar,
) -> (span: u32)
    requires
        2 * lowered.len() <= u32::MAX,
        degree + 2 <= lowered.len(),
        raised.len() == lowered.len(),
        ascending(lowered@),
        all_numbers(raised@),
        !param.spec_is_nan(),
        lowered_below_raised(lowered@, raised@),
    ensures
        is_span_of_param(degree, lowered@, raised@, param, span as int),
{
    let n: u32 = lowered.len() as u32 - degree - 2;
    if param.ge(lowered[n as usize + 1]) {
        n
    } else {
        if param.le(raised[degree as usize]) {
            degree
        } else {
            assert(lowered[degree as int].key() <= raised[degree as int].key());
            assert(degree < n + 1) by {
                if degree >= n + 1 {
                    assert(lowered[n + 1].key() <= lowered[degree as int].key());
                }
            }
            let mut low: u32 = degree;
            let mut high: u32 = n + 1;
            let mut mid: u32 = (low + high) / 2;
            while (param.lt(lowered[mid as usize]) || param.ge(lowered[mid as usize + 1])) && low
                < high
                invariant
                    2 * lowered.len() <= u32::MAX,
                    n == lowered.len() - degree - 2,
                    ascending(lowered@),
                    !param.spec_is_nan(),
                    degree <= low < high <= n + 1,
                    lowered[low as int].spec_le(param),
                    param.spec_lt(lowered[high as int]),
                    mid == (low + high) / 2,
                decreases high - low,
            {
                if param.lt(lowered[mid as usize]) {
                    high = mid;
                } else {
                    low = mid;
                }
                mid = (low + high) / 2;
            }
            mid
        }
    }
}

/// Finds the index at which the run of the knot begins that a parameter has
/// reached, by bisection, with a tolerance. The caller has taken the
/// tolerance off every knot (`lowered`) and added it to every knot (`raised`).
pub fn find_start_param(
    degree: u32,
    lowered: &Vec<Scalar>,
    raised: &Vec<Scalar>,
    param: Scalar,
) -> (start: u32)
    requires
        2 * lowered.len() <= u32::MAX,
        1 <= degree,
        degree + 2 <= lowered.len(),
        raised.len() == lowered.len(),
        all_numbers(lowered@),
        ascending(raised@),
        !param.spec_is_nan(),
        start_searchable_param(degree, lowered@, raised@, param),
    ensures
        is_start_of_param(degree, lowered@, raised@, param, start as int),
{
    let n: u32 = lowered.len() as u32 - degree - 1;
    if param.ge(lowered[n as usize + 1]) {
        n
    } else {
        if param.le(raised[degree as usize]) {
            0
        } else {
            assert(degree < n - 1) by {
                if degree >= n - 1 {
                    assert(raised[n - 1].key() <= raised[degree as int].key());
                }
            }
            let mut low: u32 = degree + 1;
            let mut high: u32 = n - 1;
            let mut mid: u32 = (low + high) / 2;
            while !(param.gt(raised[(mid - 1) as usize]) && param.le(raised[mid as usize])) && low
                < high
                invariant
                    2 * lowered.len() <= u32::MAX,
                    n == lowered.len() - degree - 1,
                    raised.len() == lowered.len(),
                    all_numbers(lowered@),
                    ascending(raised@),
                    !param.spec_is_nan(),
                    forall|i: int|
                        0 <= i < lowered.len() - 1 ==> !(#[trigger] raised[i].spec_lt(param)
                            && param.spec_lt(lowered[i + 1])),
                    degree < low <= high < n,
                    raised[low - 1].spec_lt(param),
                    param.spec_le(raised[high as int]),
                    mid == (low + high) / 2,
                decreases high - low,
            {
                if param.le(raised[mid as usize]) {
                    high = mid;
                } else if param.ge(lowered[mid as usize + 1]) {
                    low = mid + 1;
                } else {
                    assert(false) by {
                        assert(raised[mid as int].spec_lt(param) && param.spec_lt(
                            lowered[mid + 1],
                        ));
                    }
                    low = mid;
                }
                mid = (low + high) / 2;
            }
            mid
        }
    }
}

/// The vector never decreases from one entry to the next.
pub fn is_non_decreasing(knots: &Vec<u32>) -> (sorted: bool)
    ensures
        sorted == non_decreasing(knots@),
{
    if knots.len() < 2 {
        return true;
    }
    let mut i: usize = 1;
    while i < knots.len()
        invariant
            1 <= i <= knots.len(),
            forall|a: int, b: int| 0 <= a <= b < i ==> knots[a] <= knots[b],
        decreases knots.len() - i,
    {
        if knots[i - 1] > knots[i] {
            return false;
        }
        assert forall|a: int, b: int| 0 <= a <= b < i + 1 implies knots[a] <= knots[b] by {
            if b == i && a < i {
                assert(knots[a] <= knots[i - 1]);
            }
        }
        i = i + 1;
    }
    true
}

/// The value is one of the knots.
pub fn is_knot(knots: &Vec<u32>, knot: u32) -> (found: bool)
    ensures
        found == exists|i: int| 0 <= i < knots.len() && knots[i] == knot,
{
    let mut i: usize = 0;
    while i < knots.len()
        invariant
            i <= knots.len(),
            forall|a: int| 0 <= a < i ==> knots[a] != knot,
        decreases knots.len() - i,
    {
        if knots[i] == knot {
            return true;
        }
        i = i + 1;
    }
    false
}

/// The knot span of a knot value, where the search is defined: in a vector
/// that never decreases, has two knots more than the degree at least, and
/// is not too long to be indexed. None else.
pub fn checked_span_knot(degree: u32, knots: &Vec<u32>, knot: u32) -> (span: Option<u32>)
    ensures
        span.is_some() == (2 * knots.len() <= u32::MAX && degree + 2 <= knots.len()
            && non_decreasing(knots@)),
        span.is_some() ==> is_span_of(degree, knots@, knot, span.unwrap() as int),
{
    if knots.len() > 0x7FFF_FFFF || (knots.len() as u64) < degree as u64 + 2 {
        None
    } else if !is_non_decreasing(knots) {
        None
    } else {
        Some(find_span_knot(degree, knots, knot))
    }
}

/// The index at which the run of a knot value begins, where the search is
/// defined: in a vector that never decreases, for a degree of one at least,
/// and for a value that the search can find. None else.
pub fn checked_start_knot(degree: u32, knots: &Vec<u32>, knot: u32) -> (start: Option<u32>)
    ensures
        start.is_some() == (2 * knots.len() <= u32::MAX && 1 <= degree && degree + 1
            <= knots.len() && non_decreasing(knots@) && start_searchable(degree, knots@, knot)),
        start.is_some() ==> is_start_of(degree, knots@, knot, start.unwrap() as int),
{
    if knots.len() > 0x7FFF_FFFF || degree < 1 || (knots.len() as u64) < degree as u64 + 1 {
        return None;
    }
    if !is_non_decreasing(knots) {
        return None;
    }
    let n: usize = knots.len() - degree as usize - 1;
    if knots[degree as usize] < knot && knot < knots[n + 1] {
        assert(degree < n + 1) by {
            if degree >= n + 1 {
                assert(knots[n + 1] <= knots[degree as int]);
            }
        }
        if knot > knots[n - 1] || !is_knot(knots, knot) {
            return None;
        }
    }
    Some(find_start_knot(degree, knots, knot))
}

/// Every entry is a number.
pub fn are_numbers(values: &Vec<Scalar>) -> (numbers: bool)
    ensures
        numbers == all_numbers(values@),
{
    let mut i: usize = 0;
    while i < values.len()
        invariant
            i <= values.len(),
            forall|a: int| 0 <= a < i ==> !(#[trigger] values[a]).spec_is_nan(),
        decreases values.len() - i,
    {
        if values[i].is_nan() {
            return false;
        }
        i = i + 1;
    }
    true
}

/// The entries are numbers and never decrease from one to the next.
pub fn is_ascending(values: &Vec<Scalar>) -> (sorted: bool)
    ensures
        sorted == ascending(values@),
{
    if !are_numbers(values) {
        return false;
    }
    if values.len() < 2 {
        return true;
    }
    let mut i: usize = 1;
    while i < values.len()
        invariant
            1 <= i <= values.len(),
            all_numbers(values@),
            forall|a: int, b: int| 0 <= a <= b < i ==> values[a].key() <= values[b].key(),
        decreases values.len() - i,
    {
        if values[i].key_lt(values[i - 1]) {
            return false;
        }
        assert forall|a: int, b: int| 0 <= a <= b < i + 1 implies values[a].key()
            <= values[b].key() by {
            if b == i && a < i {
                assert(values[a].key() <= values[i - 1].key());
            }
        }
        i = i + 1;
    }
    true
}

/// No lowered knot lies above the knot as it was raised.
pub open spec fn lowered_below_raised(lowered: Seq<Scalar>, raised: Seq<Scalar>) -> bool {
    forall|i: int| 0 <= i < lowered.len() ==> lowered[i].key() <= raised[i].key()
}

fn are_lowered_below_raised(lowered: &Vec<Scalar>, raised: &Vec<Scalar>) -> (below: bool)
    requires
        lowered.len() == raised.len(),
    ensures
        below == lowered_below_raised(lowered@, raised@),
{
    let mut i: usize = 0;
    while i < lowered.len()
        invariant
            i <= lowered.len(),
            lowered.len() == raised.len(),
            forall|a: int| 0 <= a < i ==> lowered[a].key() <= raised[a].key(),
        decreases lowered.len() - i,
    {
        if raised[i].key_lt(lowered[i]) {
            return false;
        }
        i = i + 1;
    }
    true
}

/// The knot span of a parameter, where the search is defined: the two
/// vectors are of one length, long enough for the degree and not too long to
/// be indexed, the lowered knots are in ascending order and not above the
/// raised ones, and all that is compared is a number. None else.
pub fn checked_span_param(
    degree: u32,
    lowered: &Vec<Scalar>,
    raised: &Vec<Scalar>,
    param: Scalar,
) -> (span: Option<u32>)
    ensures
        span.is_some() == (2 * lowered.len() <= u32::MAX && degree + 2 <= lowered.len()
            && raised.len() == lowered.len() && ascending(lowered@) && all_numbers(raised@)
            && !param.spec_is_nan() && lowered_below_raised(lowered@, raised@)),
        span.is_some() ==> is_span_of_param(degree, lowered@, raised@, param, span.unwrap() as int),
{
    if lowered.len() > 0x7FFF_FFFF || (lowered.len() as u64) < degree as u64 + 2 || raised.len()
        != lowered.len() {
        None
    } else if !is_ascending(lowered) || !are_numbers(raised) || param.is_nan() {
        None
    } else if !are_lowered_below_raised(lowered, raised) {
        None
    } else {
        Some(find_span_param(degree, lowered, raised, param))
    }
}

fn falls_between(lowered: &Vec<Scalar>, raised: &Vec<Scalar>, param: Scalar) -> (between: bool)
    requires
        lowered.len() == raised.len(),
    ensures
        between == exists|i: int|
            0 <= i < lowered.len() - 1 && #[trigger] raised[i].spec_lt(param) && param.spec_lt(
                lowered[i + 1],
            ),
{
    if lowered.len() < 2 {
        return false;
    }
    let mut i: usize = 0;
    while i < lowered.len() - 1
        invariant
            i <= lowered.len() - 1,
            lowered.len() == raised.len(),
            lowered.len() >= 2,
            forall|a: int|
                0 <= a < i ==> !(#[trigger] raised[a].spec_lt(param) && param.spec_lt(
                    lowered[a + 1],
                )),
        decreases lowered.len() - 1 - i,
    {
        if raised[i].lt(param) && param.lt(lowered[i + 1]) {
            return true;
        }
        i = i + 1;
    }
    false
}

/// The index at which the run of the knot begins that a parameter has
/// reached, where the search is defined: the two vectors are of one length,
/// long enough for a degree of one at least and not too long to be indexed,
/// the raised knots are in ascending order, all that is compared is a
/// number, and the parameter can be found. None else.
pub fn checked_start_param(
    degree: u32,
    lowered: &Vec<Scalar>,
    raised: &Vec<Scalar>,
    param: Scalar,
) -> (start: Option<u32>)
    ensures
        start.is_some() == (2 * lowered.len() <= u32::MAX && 1 <= degree && degree + 2
            <= lowered.len() && raised.len() == lowered.len() && all_numbers(lowered@)
            && ascending(raised@) && !param.spec_is_nan() && start_searchable_param(
            degree,
            lowered@,
            raised@,
            param,
        )),
        start.is_some() ==> is_start_of_param(
            degree,
            lowered@,
            raised@,
            param,
            start.unwrap() as int,
        ),
{
    if lowered.len() > 0x7FFF_FFFF || degree < 1 || (lowered.len() as u64) < degree as u64 + 2
        || raised.len() != lowered.len() {
        return None;
    }
    if !are_numbers(lowered) || !is_ascending(raised) || param.is_nan() {
        return None;
    }
    let n: usize = lowered.len() - degree as usize - 1;
    if !lowered[n + 1].le(param) && !param.le(raised[degree as usize]) {
        if !param.le(raised[n - 1]) || falls_between(lowered, raised, param) {
            return None;
        }
    }
    Some(find_start_param(degree, lowered, raised, param))
}

} // verus!
