//! A list of objects with the box around all of them, and the bookkeeping of
//! a search for the nearest hit: the window that each object is asked with
//! shrinks to the nearest hit found so far.

use vstd::prelude::*;
use crate::aabb::AABB;
use crate::hittable::{Bounded, HitRecord, Probe};
use crate::interval::Interval;
use crate::rtweekend::random_u32_range;
use crate::scalar::Scalar;

verus! {

/// Objects in the order in which they were added, and the box around them.
#[derive(Clone, Debug)]
pub struct HittableList {
    pub objects: Vec<Bounded>,
    pub bbox: AABB,
}

/// The box that holds nothing.
pub open spec fn spec_empty_box() -> AABB {
    let nothing = Interval {
        min: Scalar { bits: crate::scalar::INFINITY_BITS },
        max: Scalar { bits: crate::scalar::NEG_INFINITY_BITS },
    };
    AABB { x: nothing, y: nothing, z: nothing }
}

/// The box around a row of objects: the empty box, widened by one object
/// after the other.
pub open spec fn spec_box_around(objects: Seq<Bounded>) -> AABB
    decreases objects.len(),
{
    if objects.len() == 0 {
        spec_empty_box()
    } else {
        spec_box_around(objects.drop_last()).spec_union(objects.last().bbox)
    }
}

/// The numbers under which the caller keeps a row of objects.
pub open spec fn spec_ids(objects: Seq<Bounded>) -> Seq<usize> {
    objects.map_values(|o: Bounded| o.id)
}

impl HittableList {
    /// The list's box is the box around its objects.
    pub open spec fn wf(self) -> bool {
        self.bbox == spec_box_around(self.objects@)
    }

    /// The list of nothing.
    pub fn new() -> (list: HittableList)
        ensures
            list.objects@.len() == 0,
            list.bbox == spec_empty_box(),
            list.wf(),
    {
        HittableList { objects: Vec::new(), bbox: AABB::empty() }
    }

    /// Puts an object at the end of the list and widens the list's box by the
    /// object's.
    pub fn add(&mut self, object: Bounded)
        ensures
            final(self).objects@ == old(self).objects@.push(object),
            final(self).bbox == old(self).bbox.spec_union(object.bbox),
            old(self).wf() ==> final(self).wf(),
    {
        let temp_bbox = object.bbox;
        self.bbox = AABB::from_aabbs(&self.bbox, &temp_bbox);
        self.objects.push(object);
        proof {
            assert(self.objects@.drop_last() == old(self).objects@);
        }
    }

    pub fn bounding_box(&self) -> (bbox: AABB)
        ensures
            bbox == self.bbox,
    {
        AABB::copy(&self.bbox)
    }

    /// The place in the list of one object drawn at random; none where the
    /// list is empty.
    pub fn random(&self) -> (place: Option<usize>)
        ensures
            self.objects@.len() == 0 ==> place.is_none(),
            self.objects@.len() > 0 ==> place.is_some() && place.unwrap() < self.objects@.len(),
    {
        let len = self.objects.len();
        if len == 0 {
            None
        } else if len > 0xFFFF_FFFF {
            // more objects than can be drawn from: one of the first 2^32 - 1
            Some(random_u32_range(0, 0xFFFF_FFFE) as usize)
        } else {
            Some(random_u32_range(0, (len - 1) as u32) as usize)
        }
    }
}

/// Where a search for the nearest hit stands.
#[derive(Clone, Copy, Debug)]
pub struct HitScan {
    /// The lower bound of the window, as the search was given it.
    pub window_min: Scalar,
    /// The upper bound of the window: the time of the nearest hit so far, or
    /// the bound that the search was given.
    pub closest_so_far: Scalar,
    /// The object of the nearest hit so far.
    pub nearest: Option<usize>,
    /// The record of the nearest hit so far; the record that the search was
    /// given, as long as nothing was hit.
    pub record: HitRecord,
}

impl HitScan {
    /// The window that the next object is asked with.
    pub open spec fn spec_window(self) -> Interval {
        Interval { min: self.window_min, max: self.closest_so_far }
    }

    /// The search after an object has answered: a hit replaces what was
    /// there and closes the window at its time, a miss changes nothing.
    pub open spec fn spec_record(self, id: usize, hit: Option<HitRecord>) -> HitScan {
        match hit {
            Some(rec) => HitScan {
                closest_so_far: rec.time,
                nearest: Some(id),
                record: rec,
                ..self
            },
            None => self,
        }
    }

    /// A search in the window `time` that has not asked any object yet and
    /// holds the record that it was given.
    pub open spec fn spec_new(time: Interval, hit_record: HitRecord) -> HitScan {
        HitScan {
            window_min: time.min,
            closest_so_far: time.max,
            nearest: None,
            record: hit_record,
        }
    }

    /// A search in the window `time` that has not asked any object yet.
    pub fn new(time: &Interval, hit_record: &HitRecord) -> (scan: HitScan)
        ensures
            scan == HitScan::spec_new(*time, *hit_record),
    {
        HitScan {
            window_min: time.min(),
            closest_so_far: time.max(),
            nearest: None,
            record: *hit_record,
        }
    }

    pub fn window(&self) -> (w: Interval)
        ensures
            w == self.spec_window(),
    {
        Interval::new(self.window_min, self.closest_so_far)
    }

    /// Takes the answer of object `id`: the record of its hit in the window,
    /// or none where it was missed.
    pub fn record(&mut self, id: usize, hit: Option<HitRecord>)
        ensures
            *final(self) == old(self).spec_record(id, hit),
    {
        match hit {
            Some(rec) => {
                self.closest_so_far = rec.time;
                self.nearest = Some(id);
                self.record = rec;
            },
            None => {},
        }
    }

    pub fn hit_anything(&self) -> (hit: bool)
        ensures
            hit == self.nearest.is_some(),
    {
        self.nearest.is_some()
    }
}

/// The box of a list encloses the box of each of its objects, wherever the
/// bounds of those boxes are numbers.
pub proof fn lemma_list_box_encloses(objects: Seq<Bounded>, k: int)
    requires
        0 <= k < objects.len(),
        forall|i: int| 0 <= i < objects.len() ==> (#[trigger] objects[i]).bbox.spec_of_numbers(),
    ensures
        spec_box_around(objects).spec_of_numbers(),
        spec_box_around(objects).spec_encloses(objects[k].bbox),
    decreases objects.len(),
{
    let rest = objects.drop_last();
    if rest.len() == 0 {
        crate::aabb::lemma_union_encloses(spec_empty_box(), objects.last().bbox);
    } else {
        lemma_list_box_encloses(rest, if k < rest.len() { k } else { 0 });
        crate::aabb::lemma_union_encloses(spec_box_around(rest), objects.last().bbox);
        if k < rest.len() {
            crate::aabb::lemma_encloses_transitive(
                spec_box_around(objects),
                spec_box_around(rest),
                rest[k].bbox,
            );
        }
    }
}

/// A pass over a list in search of the nearest hit of one ray: the objects
/// are asked in their order, each with the window as the ones before left it.
#[derive(Clone, Copy, Debug)]
pub struct ListWalk {
    /// The place in the list of the object that is asked next.
    pub next: usize,
    pub scan: HitScan,
}

impl HittableList {
    /// The pass before its first step.
    pub fn begin(&self, time: &Interval, hit_record: &HitRecord) -> (walk: ListWalk)
        ensures
            walk.next == 0,
            walk.scan == HitScan::spec_new(*time, *hit_record),
    {
        ListWalk { next: 0, scan: HitScan::new(time, hit_record) }
    }

    /// What the pass wants to know next: about the next object, or nothing more.
    pub fn probe(&self, walk: &ListWalk) -> (probe: Probe)
        ensures
            walk.next >= self.objects@.len() ==> probe == Probe::Done,
            walk.next < self.objects@.len() ==> probe == Probe::Object(
                self.objects@[walk.next as int].id,
                walk.scan.spec_window(),
            ),
    {
        if walk.next >= self.objects.len() {
            Probe::Done
        } else {
            Probe::Object(self.objects[walk.next].id, walk.scan.window())
        }
    }

    /// Takes the answer of the object that `probe` asked about, and moves on
    /// to the next. Where the pass is over, nothing changes.
    pub fn answer(&self, walk: &mut ListWalk, hit: Option<HitRecord>)
        ensures
            old(walk).next < self.objects@.len() ==> {
                &&& final(walk).next == old(walk).next + 1
                &&& final(walk).scan == old(walk).scan.spec_record(
                    self.objects@[old(walk).next as int].id,
                    hit,
                )
            },
            old(walk).next >= self.objects@.len() ==> *final(walk) == *old(walk),
    {
        if walk.next < self.objects.len() {
            walk.scan.record(self.objects[walk.next].id, hit);
            walk.next = walk.next + 1;
        }
    }
}

/// How an object answers one ray, whatever the window: `first` is the record
/// of the ray's first meeting with it after the window has opened, if there
/// is one, and the object reports that meeting where its time falls before
/// the window closes, or at the very moment where the object counts its
/// bound in.
pub open spec fn spec_answer(first: Option<HitRecord>, inclusive: bool, closest: Scalar) -> Option<
    HitRecord,
> {
    match first {
        Some(rec) => if rec.time.spec_lt(closest) || (inclusive && rec.time.spec_same(closest)) {
            Some(rec)
        } else {
            None
        },
        None => None,
    }
}

/// The search after the objects `ids` have been asked one after the other,
/// each with the window as the ones before it left it.
pub open spec fn spec_scan_list(
    ids: Seq<usize>,
    first: spec_fn(usize) -> Option<HitRecord>,
    inclusive: spec_fn(usize) -> bool,
    scan: HitScan,
) -> HitScan
    decreases ids.len(),
{
    if ids.len() == 0 {
        scan
    } else {
        let id = ids[0];
        let answer = spec_answer(first(id), inclusive(id), scan.closest_so_far);
        spec_scan_list(ids.drop_first(), first, inclusive, scan.spec_record(id, answer))
    }
}

/// One step of a pass keeps what the pass will find: where the next object
/// has answered as the ray meets it, the search that lies ahead ends as it
/// would have ended before the step; and a pass that is over has found it.
pub proof fn lemma_pass_keeps_outcome(
    ids: Seq<usize>,
    next: int,
    first: spec_fn(usize) -> Option<HitRecord>,
    inclusive: spec_fn(usize) -> bool,
    scan: HitScan,
)
    requires
        0 <= next <= ids.len(),
    ensures
        next < ids.len() ==> spec_scan_list(ids.skip(next), first, inclusive, scan)
            == spec_scan_list(
            ids.skip(next + 1),
            first,
            inclusive,
            scan.spec_record(
                ids[next],
                spec_answer(first(ids[next]), inclusive(ids[next]), scan.closest_so_far),
            ),
        ),
        next == ids.len() ==> spec_scan_list(ids.skip(next), first, inclusive, scan) == scan,
        spec_scan_list(ids.skip(0), first, inclusive, scan) == spec_scan_list(
            ids,
            first,
            inclusive,
            scan,
        ),
{
    assert(ids.skip(0) == ids);
    if next < ids.len() {
        assert(ids.skip(next).drop_first() == ids.skip(next + 1));
        assert(ids.skip(next)[0] == ids[next]);
    }
}

/// No two objects of the set are met at the same time.
pub open spec fn spec_no_ties(ids: Set<usize>, first: spec_fn(usize) -> Option<HitRecord>) -> bool {
    forall|i: usize, j: usize|
        #![trigger first(i), first(j)]
        ids.contains(i) && ids.contains(j) && i != j && first(i).is_some() && first(j).is_some()
            ==> first(i).unwrap().time.key() != first(j).unwrap().time.key()
}

/// Object `id` reports a hit when it is asked with a window that closes at `closest`.
pub open spec fn spec_reports(
    first: spec_fn(usize) -> Option<HitRecord>,
    inclusive: spec_fn(usize) -> bool,
    id: usize,
    closest: Scalar,
) -> bool {
    spec_answer(first(id), inclusive(id), closest).is_some()
}

/// `after` is `before` with the nearest hit among the objects `ids` taken in:
/// unchanged where none of them reports a hit, and else at the object whose
/// hit is the earliest of those reported.
pub open spec fn spec_nearest_of(
    ids: Set<usize>,
    first: spec_fn(usize) -> Option<HitRecord>,
    inclusive: spec_fn(usize) -> bool,
    before: HitScan,
    after: HitScan,
) -> bool {
    ||| {
        &&& after == before
        &&& forall|j: usize|
            ids.contains(j) ==> !#[trigger] spec_reports(first, inclusive, j, before.closest_so_far)
    }
    ||| exists|id: usize|
        {
            &&& #[trigger] ids.contains(id)
            &&& spec_reports(first, inclusive, id, before.closest_so_far)
            &&& after == before.spec_record(id, first(id))
            &&& forall|j: usize|
                ids.contains(j) && #[trigger] spec_reports(
                    first,
                    inclusive,
                    j,
                    before.closest_so_far,
                ) ==> first(id).unwrap().time.key() <= first(j).unwrap().time.key()
        }
}

/// Asking one object takes in the nearest hit of that object.
pub proof fn lemma_nearest_of_one(
    id: usize,
    first: spec_fn(usize) -> Option<HitRecord>,
    inclusive: spec_fn(usize) -> bool,
    before: HitScan,
)
    ensures
        spec_nearest_of(
            set![id],
            first,
            inclusive,
            before,
            before.spec_record(id, spec_answer(first(id), inclusive(id), before.closest_so_far)),
        ),
{
    let ids = set![id];
    if spec_reports(first, inclusive, id, before.closest_so_far) {
        assert(ids.contains(id));
    }
}

/// Taking in the nearest hit of one set and then that of another takes in
/// the nearest hit of both, ties or none.
pub proof fn lemma_nearest_of_both(
    a: Set<usize>,
    b: Set<usize>,
    first: spec_fn(usize) -> Option<HitRecord>,
    inclusive: spec_fn(usize) -> bool,
    before: HitScan,
    between: HitScan,
    after: HitScan,
)
    requires
        spec_nearest_of(a, first, inclusive, before, between),
        spec_nearest_of(b, first, inclusive, between, after),
    ensures
        spec_nearest_of(a.union(b), first, inclusive, before, after),
{
    let all = a.union(b);
    let c = before.closest_so_far;
    if between == before && (forall|j: usize|
        a.contains(j) ==> !#[trigger] spec_reports(first, inclusive, j, c)) {
        if after == between && (forall|j: usize|
            b.contains(j) ==> !#[trigger] spec_reports(first, inclusive, j, c)) {
        } else {
            let id = choose|id: usize|
                {
                    &&& #[trigger] b.contains(id)
                    &&& spec_reports(first, inclusive, id, c)
                    &&& after == between.spec_record(id, first(id))
                    &&& forall|j: usize|
                        b.contains(j) && #[trigger] spec_reports(first, inclusive, j, c)
                            ==> first(id).unwrap().time.key() <= first(j).unwrap().time.key()
                };
            assert(all.contains(id));
        }
    } else {
        let ida = choose|id: usize|
            {
                &&& #[trigger] a.contains(id)
                &&& spec_reports(first, inclusive, id, c)
                &&& between == before.spec_record(id, first(id))
                &&& forall|j: usize|
                    a.contains(j) && #[trigger] spec_reports(first, inclusive, j, c)
                        ==> first(id).unwrap().time.key() <= first(j).unwrap().time.key()
            };
        let ta = first(ida).unwrap().time;
        assert(between.closest_so_far == ta);
        assert(all.contains(ida));
        if after == between && (forall|j: usize|
            b.contains(j) ==> !#[trigger] spec_reports(first, inclusive, j, ta)) {
            assert forall|j: usize|
                all.contains(j) && #[trigger] spec_reports(first, inclusive, j, c) implies ta.key()
                <= first(j).unwrap().time.key() by {
                if !a.contains(j) {
                    assert(b.contains(j));
                    assert(!spec_reports(first, inclusive, j, ta));
                }
            }
        } else {
            let idb = choose|id: usize|
                {
                    &&& #[trigger] b.contains(id)
                    &&& spec_reports(first, inclusive, id, ta)
                    &&& after == between.spec_record(id, first(id))
                    &&& forall|j: usize|
                        b.contains(j) && #[trigger] spec_reports(first, inclusive, j, ta)
                            ==> first(id).unwrap().time.key() <= first(j).unwrap().time.key()
                };
            let tb = first(idb).unwrap().time;
            assert(all.contains(idb));
            assert(spec_reports(first, inclusive, idb, c));
            assert(after == before.spec_record(idb, first(idb)));
            assert forall|j: usize|
                all.contains(j) && #[trigger] spec_reports(first, inclusive, j, c) implies tb.key()
                <= first(j).unwrap().time.key() by {
                if a.contains(j) {
                } else {
                    assert(b.contains(j));
                    if spec_reports(first, inclusive, j, ta) {
                    } else {
                    }
                }
            }
        }
    }
}

/// The nearest hit among the objects of a set is one state and no other.
pub proof fn lemma_nearest_is_unique(
    ids: Set<usize>,
    first: spec_fn(usize) -> Option<HitRecord>,
    inclusive: spec_fn(usize) -> bool,
    before: HitScan,
    one: HitScan,
    other: HitScan,
)
    requires
        spec_no_ties(ids, first),
        spec_nearest_of(ids, first, inclusive, before, one),
        spec_nearest_of(ids, first, inclusive, before, other),
    ensures
        one == other,
{
    let c = before.closest_so_far;
    if forall|j: usize| ids.contains(j) ==> !#[trigger] spec_reports(first, inclusive, j, c) {
    } else {
        let i1 = choose|id: usize|
            {
                &&& #[trigger] ids.contains(id)
                &&& spec_reports(first, inclusive, id, c)
                &&& one == before.spec_record(id, first(id))
                &&& forall|j: usize|
                    ids.contains(j) && #[trigger] spec_reports(first, inclusive, j, c)
                        ==> first(id).unwrap().time.key() <= first(j).unwrap().time.key()
            };
        let i2 = choose|id: usize|
            {
                &&& #[trigger] ids.contains(id)
                &&& spec_reports(first, inclusive, id, c)
                &&& other == before.spec_record(id, first(id))
                &&& forall|j: usize|
                    ids.contains(j) && #[trigger] spec_reports(first, inclusive, j, c)
                        ==> first(id).unwrap().time.key() <= first(j).unwrap().time.key()
            };
        if i1 != i2 {
            assert(first(i1).is_some() && first(i2).is_some());
            assert(first(i1).unwrap().time.key() != first(i2).unwrap().time.key());
        }
    }
}

/// Two searches that took in the nearest hit of the same objects agree on
/// whether anything was hit and on the time of the hit, also where several
/// objects are met at that time; and a search that hit nothing holds the
/// record that it was given.
pub proof fn lemma_nearest_same_time(
    ids: Set<usize>,
    first: spec_fn(usize) -> Option<HitRecord>,
    inclusive: spec_fn(usize) -> bool,
    before: HitScan,
    one: HitScan,
    other: HitScan,
)
    requires
        before.nearest.is_none(),
        spec_nearest_of(ids, first, inclusive, before, one),
        spec_nearest_of(ids, first, inclusive, before, other),
    ensures
        one.nearest.is_some() == other.nearest.is_some(),
        one.closest_so_far.key() == other.closest_so_far.key(),
        one.record.time.key() == other.record.time.key(),
        one.nearest.is_none() ==> one == before && other == before,
        one.nearest.is_some() ==> ids.contains(one.nearest.unwrap()) && first(
            one.nearest.unwrap(),
        ) == Some(one.record) && one.closest_so_far == one.record.time,
{
    let c = before.closest_so_far;
    if forall|j: usize| ids.contains(j) ==> !#[trigger] spec_reports(first, inclusive, j, c) {
    } else {
        let i1 = choose|id: usize|
            {
                &&& #[trigger] ids.contains(id)
                &&& spec_reports(first, inclusive, id, c)
                &&& one == before.spec_record(id, first(id))
                &&& forall|j: usize|
                    ids.contains(j) && #[trigger] spec_reports(first, inclusive, j, c)
                        ==> first(id).unwrap().time.key() <= first(j).unwrap().time.key()
            };
        let i2 = choose|id: usize|
            {
                &&& #[trigger] ids.contains(id)
                &&& spec_reports(first, inclusive, id, c)
                &&& other == before.spec_record(id, first(id))
                &&& forall|j: usize|
                    ids.contains(j) && #[trigger] spec_reports(first, inclusive, j, c)
                        ==> first(id).unwrap().time.key() <= first(j).unwrap().time.key()
            };
        assert(first(i1).unwrap().time.key() <= first(i2).unwrap().time.key());
        assert(first(i2).unwrap().time.key() <= first(i1).unwrap().time.key());
    }
}

/// Asking the objects of a list one after the other takes in the nearest hit
/// among them: the pass ends at the least of the times that were reported,
/// with the record of an object that reported it, and ends as it began where
/// none reported a hit.
pub proof fn lemma_list_finds_nearest(
    ids: Seq<usize>,
    first: spec_fn(usize) -> Option<HitRecord>,
    inclusive: spec_fn(usize) -> bool,
    before: HitScan,
)
    ensures
        spec_nearest_of(
            ids.to_set(),
            first,
            inclusive,
            before,
            spec_scan_list(ids, first, inclusive, before),
        ),
    decreases ids.len(),
{
    if ids.len() == 0 {
        assert(forall|j: usize| !ids.to_set().contains(j));
    } else {
        let id = ids[0];
        let rest = ids.drop_first();
        let between = before.spec_record(
            id,
            spec_answer(first(id), inclusive(id), before.closest_so_far),
        );
        assert forall|j: usize| ids.to_set().contains(j) <==> (set![id].union(
            rest.to_set(),
        )).contains(j) by {
            if ids.contains(j) {
                let k = choose|k: int| 0 <= k < ids.len() && ids[k] == j;
                if k > 0 {
                    assert(rest[k - 1] == j);
                }
            }
            if rest.contains(j) {
                let k = choose|k: int| 0 <= k < rest.len() && rest[k] == j;
                assert(ids[k + 1] == j);
            }
            if j == id {
                assert(ids[0] == j);
            }
        }
        assert(ids.to_set() =~= set![id].union(rest.to_set()));
        lemma_nearest_of_one(id, first, inclusive, before);
        lemma_list_finds_nearest(rest, first, inclusive, between);
        lemma_nearest_of_both(
            set![id],
            rest.to_set(),
            first,
            inclusive,
            before,
            between,
            spec_scan_list(rest, first, inclusive, between),
        );
    }
}

} // verus!
