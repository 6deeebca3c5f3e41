//! The bounding-volume hierarchy: a binary tree of boxes over the objects of
//! a scene, split at the median along an axis drawn at random, and the walk
//! through it that looks for the nearest hit of a ray.

use vstd::prelude::*;
use crate::aabb::AABB;
use crate::axis_order::{box_compare, sort_on_axis, spec_axis_key};
use crate::hittable::{Bounded, HitRecord, Probe};
use crate::hittable_list::{
    lemma_list_finds_nearest, lemma_nearest_is_unique, lemma_nearest_of_both,
    lemma_nearest_of_one, lemma_nearest_same_time, spec_answer, spec_nearest_of, spec_no_ties,
    spec_reports,
    spec_scan_list, HitScan, HittableList,
};
use crate::interval::Interval;
use crate::rtweekend::random_axis;
use crate::scalar::Scalar;

verus! {

/// What hangs below a node: one object, or another node.
#[derive(Debug)]
pub enum BVHChild {
    Object(Bounded),
    Node(Box<BVHNode>),
}

/// A node of the hierarchy: two children and the box around both.
#[derive(Debug)]
pub struct BVHNode {
    pub left: BVHChild,
    pub right: BVHChild,
    pub bbox: AABB,
}

/// Every object of `left` stands before every object of `right` along the
/// axis, or level with it.
pub open spec fn spec_split_on(left: Seq<Bounded>, right: Seq<Bounded>, axis: u32) -> bool {
    forall|i: int, j: int|
        0 <= i < left.len() && 0 <= j < right.len() ==> spec_axis_key(left[i], axis)
            <= spec_axis_key(right[j], axis)
}

/// How many leaves the hierarchy over `span` objects has: a node over one
/// object holds it twice, a node over two holds each once, and a node over
/// more holds the hierarchies over the two halves.
pub open spec fn spec_leaf_count(span: int) -> int
    decreases span,
{
    if span <= 2 {
        2
    } else {
        spec_leaf_count(span / 2) + spec_leaf_count(span - span / 2)
    }
}

impl BVHChild {
    pub open spec fn spec_bbox(self) -> AABB {
        match self {
            BVHChild::Object(o) => o.bbox,
            BVHChild::Node(n) => n.bbox,
        }
    }

    /// The objects below, from left to right.
    pub open spec fn spec_leaves(self) -> Seq<Bounded>
        decreases self,
    {
        match self {
            BVHChild::Object(o) => seq![o],
            BVHChild::Node(n) => n.left.spec_leaves() + n.right.spec_leaves(),
        }
    }

    /// The numbers of the objects below.
    pub open spec fn spec_leaf_ids(self) -> Set<usize>
        decreases self,
    {
        match self {
            BVHChild::Object(o) => set![o.id],
            BVHChild::Node(n) => n.left.spec_leaf_ids().union(n.right.spec_leaf_ids()),
        }
    }

    /// Every node below has the box around its two children as its box, and
    /// its left objects before its right objects along one of the three axes.
    pub open spec fn wf(self) -> bool
        decreases self,
    {
        match self {
            BVHChild::Object(o) => true,
            BVHChild::Node(n) => {
                &&& n.bbox == n.left.spec_bbox().spec_union(n.right.spec_bbox())
                &&& exists|axis: u32|
                    axis <= 2 && #[trigger] spec_split_on(
                        n.left.spec_leaves(),
                        n.right.spec_leaves(),
                        axis,
                    )
                &&& n.left.wf()
                &&& n.right.wf()
            },
        }
    }

    pub fn bounding_box(&self) -> (bbox: AABB)
        ensures
            bbox == self.spec_bbox(),
    {
        match self {
            BVHChild::Object(o) => o.bbox,
            BVHChild::Node(n) => n.bbox,
        }
    }
}

impl BVHNode {
    /// The node has the shape of a hierarchy over `span` objects: one object
    /// hangs below it twice, two objects hang below it side by side, and
    /// more are halved, the smaller half to the left, with a node of this
    /// shape over each half.
    pub open spec fn spec_built_over(self, span: int) -> bool
        decreases self,
    {
        if span <= 1 {
            self.left is Object && self.right == self.left
        } else if span == 2 {
            self.left is Object && self.right is Object
        } else {
            match (self.left, self.right) {
                (BVHChild::Node(l), BVHChild::Node(r)) => l.spec_built_over(span / 2)
                    && r.spec_built_over(span - span / 2),
                _ => false,
            }
        }
    }

    /// The node as something that can hang below another.
    pub open spec fn spec_child(self) -> BVHChild {
        BVHChild::Node(Box::new(self))
    }

    pub open spec fn spec_leaves(self) -> Seq<Bounded> {
        self.spec_child().spec_leaves()
    }

    pub open spec fn wf(self) -> bool {
        self.spec_child().wf()
    }

    pub fn bounding_box(&self) -> (bbox: AABB)
        ensures
            bbox == self.bbox,
    {
        AABB::copy(&self.bbox)
    }

    /// Builds the hierarchy over the objects from `start` up to `end`.
    ///
    /// An axis is drawn at random. One object hangs below the node twice. Of
    /// two objects the one that stands first along the axis goes left. More
    /// are lined up along the axis and halved, and each half is built in the
    /// same way.
    pub fn from_vec(objects: &Vec<Bounded>, start: usize, end: usize) -> (node: BVHNode)
        requires
            start < end <= objects@.len(),
        ensures
            node.wf(),
            forall|i: int| start <= i < end ==> node.spec_leaves().contains(#[trigger] objects@[i]),
            forall|k: int|
                0 <= k < node.spec_leaves().len() ==> objects@.subrange(
                    start as int,
                    end as int,
                ).contains(#[trigger] node.spec_leaves()[k]),
            node.spec_built_over(end - start),
            node.spec_leaves().len() == spec_leaf_count(end - start),
            end - start == 1 ==> node.left == BVHChild::Object(objects@[start as int]),
        decreases end - start,
    {
        let axis = random_axis();
        let span = end - start;
        let ghost span_objects = objects@.subrange(start as int, end as int);
        let mut left = BVHChild::Object(objects[start]);
        let mut right = BVHChild::Object(objects[start]);
        if span == 2 {
            if box_compare(&objects[start], &objects[start + 1], axis) {
                right = BVHChild::Object(objects[start + 1]);
            } else {
                left = BVHChild::Object(objects[start + 1]);
            }
            proof {
                assert(span_objects[0] == objects@[start as int]);
                assert(span_objects[1] == objects@[start + 1]);
                assert(spec_split_on(left.spec_leaves(), right.spec_leaves(), axis));
            }
        } else if span != 1 {
            let mut slice = copy_span(objects, start, end);
            let ghost unsorted = slice@;
            sort_on_axis(&mut slice, axis);
            let mid = span / 2;
            let left_node = BVHNode::from_vec(&slice, 0, mid);
            let right_node = BVHNode::from_vec(&slice, mid, slice.len());
            proof {
                let ll = left_node.spec_leaves();
                let rl = right_node.spec_leaves();
                assert forall|i: int, j: int| 0 <= i < ll.len() && 0 <= j < rl.len() implies spec_axis_key(
                    ll[i],
                    axis,
                ) <= spec_axis_key(rl[j], axis) by {
                    let lo = slice@.subrange(0, mid as int);
                    let hi = slice@.subrange(mid as int, slice@.len() as int);
                    assert(lo.contains(ll[i]));
                    assert(hi.contains(rl[j]));
                    let a = choose|a: int| 0 <= a < lo.len() && lo[a] == ll[i];
                    let b = choose|b: int| 0 <= b < hi.len() && hi[b] == rl[j];
                    assert(slice@[a] == ll[i]);
                    assert(slice@[mid + b] == rl[j]);
                }
                assert(spec_split_on(ll, rl, axis));
                assert forall|i: int| start <= i < end implies (ll + rl).contains(
                    #[trigger] objects@[i],
                ) by {
                    let o = objects@[i];
                    assert(unsorted[i - start] == o);
                    assert(unsorted.contains(o));
                    vstd::seq_lib::to_multiset_contains(unsorted, o);
                    vstd::seq_lib::to_multiset_contains(slice@, o);
                    let k = choose|k: int| 0 <= k < slice@.len() && slice@[k] == o;
                    if k < mid {
                        assert(ll.contains(slice@[k]));
                        let p = choose|p: int| 0 <= p < ll.len() && ll[p] == o;
                        assert((ll + rl)[p] == o);
                    } else {
                        assert(rl.contains(slice@[k]));
                        let p = choose|p: int| 0 <= p < rl.len() && rl[p] == o;
                        assert((ll + rl)[ll.len() + p] == o);
                    }
                }
                assert forall|k: int| 0 <= k < (ll + rl).len() implies span_objects.contains(
                    #[trigger] (ll + rl)[k],
                ) by {
                    let o = (ll + rl)[k];
                    if k < ll.len() {
                        assert(slice@.subrange(0, mid as int).contains(ll[k]));
                        let a = choose|a: int|
                            0 <= a < mid && slice@.subrange(0, mid as int)[a] == ll[k];
                        assert(slice@[a] == o);
                    } else {
                        let hi = slice@.subrange(mid as int, slice@.len() as int);
                        assert(hi.contains(rl[k - ll.len()]));
                        let b = choose|b: int| 0 <= b < hi.len() && hi[b] == rl[k - ll.len()];
                        assert(slice@[mid + b] == o);
                    }
                    assert(slice@.contains(o));
                    vstd::seq_lib::to_multiset_contains(unsorted, o);
                    vstd::seq_lib::to_multiset_contains(slice@, o);
                }
            }
            let ghost left_leaves = left_node.spec_leaves();
            let ghost right_leaves = right_node.spec_leaves();
            left = BVHChild::Node(Box::new(left_node));
            right = BVHChild::Node(Box::new(right_node));
            proof {
                assert(left.spec_leaves() == left_leaves);
                assert(right.spec_leaves() == right_leaves);
                assert(left.wf() && right.wf());
            }
        } else {
            proof {
                assert(span_objects[0] == objects@[start as int]);
                assert(spec_split_on(left.spec_leaves(), right.spec_leaves(), axis));
            }
        }
        let bbox = AABB::from_aabbs(&left.bounding_box(), &right.bounding_box());
        let node = BVHNode { left, right, bbox };
        proof {
            assert(node.spec_leaves() == node.left.spec_leaves() + node.right.spec_leaves());
            assert(spec_split_on(node.left.spec_leaves(), node.right.spec_leaves(), axis));
            assert(node.left.wf() && node.right.wf());
            if span <= 2 {
                assert forall|i: int| start <= i < end implies node.spec_leaves().contains(
                    #[trigger] objects@[i],
                ) by {
                    let l = node.spec_leaves();
                    assert(l.len() == 2);
                    if objects@[i] == l[0] {
                    } else {
                        assert(objects@[i] == l[1]);
                    }
                }
                assert forall|k: int|
                    0 <= k < node.spec_leaves().len() implies span_objects.contains(
                    #[trigger] node.spec_leaves()[k],
                ) by {
                    let l = node.spec_leaves();
                    if l[k] == span_objects[0] {
                    } else {
                        assert(l[k] == span_objects[1]);
                    }
                }
            }
        }
        node
    }

    /// The box around a hierarchy that may hold nothing: the box of its root,
    /// and the box that holds nothing where there is no root.
    pub fn bounding_box_of(tree: &Option<BVHNode>) -> (bbox: AABB)
        ensures
            bbox == match *tree {
                Some(root) => root.bbox,
                None => crate::hittable_list::spec_empty_box(),
            },
    {
        match tree {
            Some(root) => root.bounding_box(),
            None => AABB::empty(),
        }
    }

    /// Builds the hierarchy over all objects of a list; none over an empty list.
    pub fn from_list(list: &HittableList) -> (node: Option<BVHNode>)
        ensures
            node.is_some() == (list.objects@.len() > 0),
            node.is_some() ==> {
                let tree = node.unwrap();
                &&& tree.wf()
                &&& forall|i: int|
                    0 <= i < list.objects@.len() ==> tree.spec_leaves().contains(
                        #[trigger] list.objects@[i],
                    )
                &&& forall|k: int|
                    0 <= k < tree.spec_leaves().len() ==> list.objects@.contains(
                        #[trigger] tree.spec_leaves()[k],
                    )
                &&& tree.spec_built_over(list.objects@.len() as int)
                &&& tree.spec_leaves().len() == spec_leaf_count(list.objects@.len() as int)
            },
    {
        if list.objects.len() == 0 {
            None
        } else {
            let tree = BVHNode::from_vec(&list.objects, 0, list.objects.len());
            proof {
                assert(list.objects@.subrange(0, list.objects@.len() as int) == list.objects@);
            }
            Some(tree)
        }
    }
}

/// The objects from `start` up to `end`, in a vector of their own.
fn copy_span(objects: &Vec<Bounded>, start: usize, end: usize) -> (span: Vec<Bounded>)
    requires
        start <= end <= objects@.len(),
    ensures
        span@ == objects@.subrange(start as int, end as int),
{
    let mut span: Vec<Bounded> = Vec::new();
    let mut i: usize = start;
    while i < end
        invariant
            start <= i <= end <= objects@.len(),
            span@ == objects@.subrange(start as int, i as int),
        decreases end - i,
    {
        span.push(objects[i]);
        i = i + 1;
    }
    span
}

/// What a walk through the hierarchy has still to look at.
#[derive(Clone, Copy, Debug)]
pub enum Pending<'a> {
    Node(&'a BVHNode),
    Object(Bounded),
}

/// A walk through the hierarchy in search of the nearest hit of one ray.
///
/// The walk does not cross the ray with anything itself. It says what is to
/// be tested next (`probe`), is told the outcome (`answer_box`,
/// `answer_object`) and goes on from there, until nothing is left.
#[derive(Debug)]
pub struct BVHTraversal<'a> {
    /// What is still to be looked at, the next on top.
    pub stack: Vec<Pending<'a>>,
    pub scan: HitScan,
}

impl<'a> Pending<'a> {
    pub open spec fn spec_child(self) -> BVHChild {
        match self {
            Pending::Node(n) => BVHChild::Node(Box::new(*n)),
            Pending::Object(o) => BVHChild::Object(o),
        }
    }

    fn of(child: &'a BVHChild) -> (p: Pending<'a>)
        ensures
            p.spec_child() == *child,
    {
        match child {
            BVHChild::Object(o) => Pending::Object(*o),
            BVHChild::Node(n) => Pending::Node(&**n),
        }
    }
}

impl<'a> BVHTraversal<'a> {
    /// What is still to be looked at, the next at the end.
    pub open spec fn spec_pending(self) -> Seq<BVHChild> {
        self.stack@.map_values(|p: Pending<'a>| p.spec_child())
    }

    /// The walk before its first step: the root is still to be looked at,
    /// nothing was hit, and the record is the one that the walk was given.
    pub fn begin(
        root: &'a BVHNode,
        time: &Interval,
        hit_record: &HitRecord,
    ) -> (walk: BVHTraversal<'a>)
        ensures
            walk.scan == HitScan::spec_new(*time, *hit_record),
            walk.spec_pending() == seq![root.spec_child()],
    {
        let mut stack: Vec<Pending<'a>> = Vec::new();
        stack.push(Pending::Node(root));
        let walk = BVHTraversal { stack, scan: HitScan::new(time, hit_record) };
        proof {
            assert(walk.spec_pending() =~= seq![root.spec_child()]);
        }
        walk
    }

    /// The walk through a hierarchy that may hold nothing, before its first
    /// step. Over no hierarchy nothing is left to look at from the start: the
    /// walk is over at once, and nothing was hit.
    pub fn begin_over(
        tree: &'a Option<BVHNode>,
        time: &Interval,
        hit_record: &HitRecord,
    ) -> (walk: BVHTraversal<'a>)
        ensures
            walk.scan == HitScan::spec_new(*time, *hit_record),
            walk.spec_pending() == match *tree {
                Some(root) => seq![root.spec_child()],
                None => Seq::empty(),
            },
    {
        match tree {
            Some(root) => BVHTraversal::begin(root, time, hit_record),
            None => {
                let walk = BVHTraversal {
                    stack: Vec::new(),
                    scan: HitScan::new(time, hit_record),
                };
                proof {
                    assert(walk.spec_pending() =~= Seq::empty());
                }
                walk
            },
        }
    }

    /// What the walk wants to know next: about the box of the node on top,
    /// about the object on top, or nothing more.
    pub fn probe(&self) -> (probe: Probe)
        ensures
            self.spec_pending().len() == 0 ==> probe == Probe::Done,
            self.spec_pending().len() > 0 ==> match self.spec_pending().last() {
                BVHChild::Node(n) => probe == Probe::Box(n.bbox, self.scan.spec_window()),
                BVHChild::Object(o) => probe == Probe::Object(o.id, self.scan.spec_window()),
            },
    {
        let len = self.stack.len();
        if len == 0 {
            Probe::Done
        } else {
            match self.stack[len - 1] {
                Pending::Node(n) => Probe::Box(n.bbox, self.scan.window()),
                Pending::Object(o) => Probe::Object(o.id, self.scan.window()),
            }
        }
    }

    /// Takes the outcome of the box test that `probe` asked for. After a hit
    /// the two children of the node take its place, the left one on top;
    /// after a miss the node is dropped with all that hangs below it. Where
    /// no node is on top, nothing changes.
    pub fn answer_box(&mut self, hit: bool)
        ensures
            final(self).scan == old(self).scan,
            old(self).spec_pending().len() > 0 && old(self).spec_pending().last() is Node ==> {
                let rest = old(self).spec_pending().drop_last();
                let node = old(self).spec_pending().last()->Node_0;
                final(self).spec_pending() == if hit {
                    rest.push(node.right).push(node.left)
                } else {
                    rest
                }
            },
            !(old(self).spec_pending().len() > 0 && old(self).spec_pending().last() is Node)
                ==> final(self).spec_pending() == old(self).spec_pending(),
    {
        let len = self.stack.len();
        if len > 0 {
            let top = self.stack[len - 1];
            match top {
                Pending::Node(n) => {
                    self.stack.pop();
                    if hit {
                        self.stack.push(Pending::of(&n.right));
                        self.stack.push(Pending::of(&n.left));
                    }
                    proof {
                        let rest = old(self).spec_pending().drop_last();
                        if hit {
                            assert(self.spec_pending() =~= rest.push(n.right).push(n.left));
                        } else {
                            assert(self.spec_pending() =~= rest);
                        }
                    }
                },
                Pending::Object(_) => {},
            }
        }
    }

    /// Takes the answer of the object that `probe` asked about: the time of
    /// its hit in the window, or none where the ray missed it. Where no
    /// object is on top, nothing changes.
    pub fn answer_object(&mut self, hit: Option<HitRecord>)
        ensures
            old(self).spec_pending().len() > 0 && old(self).spec_pending().last() is Object ==> {
                &&& final(self).spec_pending() == old(self).spec_pending().drop_last()
                &&& final(self).scan == old(self).scan.spec_record(
                    old(self).spec_pending().last()->Object_0.id,
                    hit,
                )
            },
            !(old(self).spec_pending().len() > 0 && old(self).spec_pending().last() is Object) ==> {
                &&& final(self).spec_pending() == old(self).spec_pending()
                &&& final(self).scan == old(self).scan
            },
    {
        let len = self.stack.len();
        if len > 0 {
            let top = self.stack[len - 1];
            match top {
                Pending::Object(o) => {
                    self.stack.pop();
                    self.scan.record(o.id, hit);
                    proof {
                        assert(self.spec_pending() =~= old(self).spec_pending().drop_last());
                    }
                },
                Pending::Node(_) => {},
            }
        }
    }

    /// The walk is over.
    pub fn finished(&self) -> (done: bool)
        ensures
            done == (self.spec_pending().len() == 0),
    {
        self.stack.len() == 0
    }
}

/// The search after a ray has gone through all that hangs at `child`, where
/// `box_hit` says which boxes the ray hits in which window, and each object
/// answers as `spec_answer` has it: a node whose box is missed is passed
/// over, and below a node whose box is hit the left child comes first and the
/// right child second, with the window as the left one left it.
pub open spec fn spec_scan_child(
    child: BVHChild,
    first: spec_fn(usize) -> Option<HitRecord>,
    inclusive: spec_fn(usize) -> bool,
    box_hit: spec_fn(AABB, Interval) -> bool,
    scan: HitScan,
) -> HitScan
    decreases child,
{
    match child {
        BVHChild::Object(o) => scan.spec_record(
            o.id,
            spec_answer(first(o.id), inclusive(o.id), scan.closest_so_far),
        ),
        BVHChild::Node(n) => if box_hit(n.bbox, scan.spec_window()) {
            let after_left = spec_scan_child(n.left, first, inclusive, box_hit, scan);
            spec_scan_child(n.right, first, inclusive, box_hit, after_left)
        } else {
            scan
        },
    }
}

/// The search after a ray has gone through everything that a walk has still
/// to look at, the last of `pending` first.
pub open spec fn spec_scan_pending(
    pending: Seq<BVHChild>,
    first: spec_fn(usize) -> Option<HitRecord>,
    inclusive: spec_fn(usize) -> bool,
    box_hit: spec_fn(AABB, Interval) -> bool,
    scan: HitScan,
) -> HitScan
    decreases pending.len(),
{
    if pending.len() == 0 {
        scan
    } else {
        spec_scan_pending(
            pending.drop_last(),
            first,
            inclusive,
            box_hit,
            spec_scan_child(pending.last(), first, inclusive, box_hit, scan),
        )
    }
}

/// No box gives a hit away: the ray hits the box of a node in every window
/// in which it hits an object below that node. The windows open at `window_min`.
pub open spec fn spec_boxes_hold(
    child: BVHChild,
    first: spec_fn(usize) -> Option<HitRecord>,
    inclusive: spec_fn(usize) -> bool,
    box_hit: spec_fn(AABB, Interval) -> bool,
    window_min: Scalar,
) -> bool
    decreases child,
{
    match child {
        BVHChild::Object(o) => true,
        BVHChild::Node(n) => {
            &&& forall|id: usize, closest: Scalar|
                #![trigger child.spec_leaf_ids().contains(id), spec_reports(first, inclusive, id, closest)]
                child.spec_leaf_ids().contains(id) && spec_reports(first, inclusive, id, closest)
                    ==> box_hit(n.bbox, Interval { min: window_min, max: closest })
            &&& spec_boxes_hold(n.left, first, inclusive, box_hit, window_min)
            &&& spec_boxes_hold(n.right, first, inclusive, box_hit, window_min)
        },
    }
}

/// One step of a walk keeps what the walk will find: where the object on top
/// has answered as the ray meets it, or the box of the node on top has been
/// tested as the ray hits it, the search that lies ahead ends as it would
/// have ended before the step.
pub proof fn lemma_step_keeps_outcome(
    pending: Seq<BVHChild>,
    first: spec_fn(usize) -> Option<HitRecord>,
    inclusive: spec_fn(usize) -> bool,
    box_hit: spec_fn(AABB, Interval) -> bool,
    scan: HitScan,
)
    requires
        pending.len() > 0,
    ensures
        match pending.last() {
            BVHChild::Object(o) => spec_scan_pending(pending, first, inclusive, box_hit, scan)
                == spec_scan_pending(
                pending.drop_last(),
                first,
                inclusive,
                box_hit,
                scan.spec_record(o.id, spec_answer(first(o.id), inclusive(o.id), scan.closest_so_far)),
            ),
            BVHChild::Node(n) => spec_scan_pending(pending, first, inclusive, box_hit, scan)
                == spec_scan_pending(
                if box_hit(n.bbox, scan.spec_window()) {
                    pending.drop_last().push(n.right).push(n.left)
                } else {
                    pending.drop_last()
                },
                first,
                inclusive,
                box_hit,
                scan,
            ),
        },
{
    let rest = pending.drop_last();
    let top = pending.last();
    assert(spec_scan_pending(pending, first, inclusive, box_hit, scan) == spec_scan_pending(
        rest,
        first,
        inclusive,
        box_hit,
        spec_scan_child(top, first, inclusive, box_hit, scan),
    ));
    match top {
        BVHChild::Object(o) => {},
        BVHChild::Node(n) => {
            if box_hit(n.bbox, scan.spec_window()) {
                let with_right = rest.push(n.right);
                let with_both = with_right.push(n.left);
                let after_left = spec_scan_child(n.left, first, inclusive, box_hit, scan);
                let after_right = spec_scan_child(n.right, first, inclusive, box_hit, after_left);
                assert(with_both.drop_last() == with_right);
                assert(with_right.drop_last() == rest);
                assert(with_both.last() == n.left);
                assert(with_right.last() == n.right);
                assert(spec_scan_pending(with_both, first, inclusive, box_hit, scan)
                    == spec_scan_pending(with_right, first, inclusive, box_hit, after_left));
                assert(spec_scan_pending(with_right, first, inclusive, box_hit, after_left)
                    == spec_scan_pending(rest, first, inclusive, box_hit, after_right));
                assert(spec_scan_child(top, first, inclusive, box_hit, scan) == after_right);
            } else {
                assert(spec_scan_child(top, first, inclusive, box_hit, scan) == scan);
            }
        },
    }
}

/// A walk that has only the root to look at will find what the hierarchy
/// holds for the ray, and a walk with nothing left has found it.
pub proof fn lemma_walk_ends(
    root: BVHChild,
    first: spec_fn(usize) -> Option<HitRecord>,
    inclusive: spec_fn(usize) -> bool,
    box_hit: spec_fn(AABB, Interval) -> bool,
    scan: HitScan,
)
    ensures
        spec_scan_pending(seq![root], first, inclusive, box_hit, scan) == spec_scan_child(
            root,
            first,
            inclusive,
            box_hit,
            scan,
        ),
        spec_scan_pending(Seq::empty(), first, inclusive, box_hit, scan) == scan,
{
    let one = seq![root];
    assert(one.drop_last() =~= Seq::<BVHChild>::empty());
    assert(one.last() == root);
    reveal_with_fuel(spec_scan_pending, 3);
}

/// Going through a hierarchy takes in the nearest hit among its objects,
/// where no box gives a hit away: the walk ends at the least of the times
/// that the objects report, with the record of an object that reported it.
pub proof fn lemma_tree_finds_nearest(
    child: BVHChild,
    first: spec_fn(usize) -> Option<HitRecord>,
    inclusive: spec_fn(usize) -> bool,
    box_hit: spec_fn(AABB, Interval) -> bool,
    scan: HitScan,
)
    requires
        spec_boxes_hold(child, first, inclusive, box_hit, scan.window_min),
    ensures
        spec_nearest_of(
            child.spec_leaf_ids(),
            first,
            inclusive,
            scan,
            spec_scan_child(child, first, inclusive, box_hit, scan),
        ),
        spec_scan_child(child, first, inclusive, box_hit, scan).window_min == scan.window_min,
    decreases child,
{
    match child {
        BVHChild::Object(o) => {
            lemma_nearest_of_one(o.id, first, inclusive, scan);
        },
        BVHChild::Node(n) => {
            let ids = child.spec_leaf_ids();
            if box_hit(n.bbox, scan.spec_window()) {
                let after_left = spec_scan_child(n.left, first, inclusive, box_hit, scan);
                lemma_tree_finds_nearest(n.left, first, inclusive, box_hit, scan);
                lemma_tree_finds_nearest(n.right, first, inclusive, box_hit, after_left);
                lemma_nearest_of_both(
                    n.left.spec_leaf_ids(),
                    n.right.spec_leaf_ids(),
                    first,
                    inclusive,
                    scan,
                    after_left,
                    spec_scan_child(n.right, first, inclusive, box_hit, after_left),
                );
            } else {
                assert forall|j: usize| ids.contains(j) implies !#[trigger] spec_reports(
                    first,
                    inclusive,
                    j,
                    scan.closest_so_far,
                ) by {
                    if spec_reports(first, inclusive, j, scan.closest_so_far) {
                        assert(child.spec_leaf_ids().contains(j));
                        assert(box_hit(
                            n.bbox,
                            Interval { min: scan.window_min, max: scan.closest_so_far },
                        ));
                    }
                }
            }
        },
    }
}

/// The hierarchy finds what the list finds. For one ray, let every object
/// answer as `spec_answer` has it, let no two objects be met at the same
/// time, and let no box give a hit away. Then the walk through a hierarchy
/// and the pass over a list of the same objects end alike: with the same
/// object at the same time and with the same record, point, normal and
/// material and all, or with nothing hit and the record as it was given.
pub proof fn lemma_bvh_matches_list(
    tree: BVHNode,
    ids: Seq<usize>,
    first: spec_fn(usize) -> Option<HitRecord>,
    inclusive: spec_fn(usize) -> bool,
    box_hit: spec_fn(AABB, Interval) -> bool,
    time: Interval,
    hit_record: HitRecord,
)
    requires
        ids.to_set() == tree.spec_child().spec_leaf_ids(),
        spec_no_ties(ids.to_set(), first),
        spec_boxes_hold(tree.spec_child(), first, inclusive, box_hit, time.min),
    ensures
        spec_scan_child(
            tree.spec_child(),
            first,
            inclusive,
            box_hit,
            HitScan::spec_new(time, hit_record),
        ) == spec_scan_list(ids, first, inclusive, HitScan::spec_new(time, hit_record)),
        spec_scan_list(ids, first, inclusive, HitScan::spec_new(time, hit_record)).nearest.is_none()
            ==> spec_scan_list(
            ids,
            first,
            inclusive,
            HitScan::spec_new(time, hit_record),
        ).record == hit_record,
{
    let start = HitScan::spec_new(time, hit_record);
    lemma_tree_finds_nearest(tree.spec_child(), first, inclusive, box_hit, start);
    lemma_list_finds_nearest(ids, first, inclusive, start);
    lemma_nearest_is_unique(
        ids.to_set(),
        first,
        inclusive,
        start,
        spec_scan_child(tree.spec_child(), first, inclusive, box_hit, start),
        spec_scan_list(ids, first, inclusive, start),
    );
    lemma_nearest_same_time(
        ids.to_set(),
        first,
        inclusive,
        start,
        spec_scan_list(ids, first, inclusive, start),
        spec_scan_list(ids, first, inclusive, start),
    );
}

/// The hierarchy is hit when the list is, and at the same time, also where
/// several objects are met at once. For one ray, let every object answer as
/// `spec_answer` has it and let no box give a hit away. Then the walk through
/// a hierarchy and the pass over a list of the same objects agree on whether
/// anything is hit and on the time of the nearest hit; each ends with the
/// record of an object that is met at that time, and with the record as it
/// was given where nothing is hit.
pub proof fn lemma_bvh_matches_list_in_time(
    tree: BVHNode,
    ids: Seq<usize>,
    first: spec_fn(usize) -> Option<HitRecord>,
    inclusive: spec_fn(usize) -> bool,
    box_hit: spec_fn(AABB, Interval) -> bool,
    time: Interval,
    hit_record: HitRecord,
)
    requires
        ids.to_set() == tree.spec_child().spec_leaf_ids(),
        spec_boxes_hold(tree.spec_child(), first, inclusive, box_hit, time.min),
    ensures
        ({
            let start = HitScan::spec_new(time, hit_record);
            let from_tree = spec_scan_child(tree.spec_child(), first, inclusive, box_hit, start);
            let from_list = spec_scan_list(ids, first, inclusive, start);
            &&& from_tree.nearest.is_some() == from_list.nearest.is_some()
            &&& from_tree.closest_so_far.key() == from_list.closest_so_far.key()
            &&& from_tree.record.time.key() == from_list.record.time.key()
            &&& from_list.nearest.is_none() ==> from_tree == start && from_list == start
            &&& from_tree.nearest.is_some() ==> first(from_tree.nearest.unwrap()) == Some(
                from_tree.record,
            )
            &&& from_list.nearest.is_some() ==> first(from_list.nearest.unwrap()) == Some(
                from_list.record,
            )
        }),
{
    let start = HitScan::spec_new(time, hit_record);
    let from_tree = spec_scan_child(tree.spec_child(), first, inclusive, box_hit, start);
    let from_list = spec_scan_list(ids, first, inclusive, start);
    lemma_tree_finds_nearest(tree.spec_child(), first, inclusive, box_hit, start);
    lemma_list_finds_nearest(ids, first, inclusive, start);
    lemma_nearest_same_time(ids.to_set(), first, inclusive, start, from_tree, from_list);
    lemma_nearest_same_time(ids.to_set(), first, inclusive, start, from_list, from_tree);
}

/// The numbers of the objects below a node are the numbers of its leaves.
pub proof fn lemma_leaf_ids_of_leaves(child: BVHChild)
    ensures
        child.spec_leaf_ids() =~= child.spec_leaves().map_values(|o: Bounded| o.id).to_set(),
    decreases child,
{
    match child {
        BVHChild::Object(o) => {
            let ids = child.spec_leaves().map_values(|o: Bounded| o.id);
            assert(ids[0] == o.id);
            assert forall|j: usize| ids.to_set().contains(j) implies j == o.id by {
                let k = choose|k: int| 0 <= k < ids.len() && ids[k] == j;
            }
        },
        BVHChild::Node(n) => {
            lemma_leaf_ids_of_leaves(n.left);
            lemma_leaf_ids_of_leaves(n.right);
            let l = n.left.spec_leaves().map_values(|o: Bounded| o.id);
            let r = n.right.spec_leaves().map_values(|o: Bounded| o.id);
            let all = child.spec_leaves().map_values(|o: Bounded| o.id);
            assert(all =~= l + r);
            assert forall|j: usize| all.to_set().contains(j) <==> (l.to_set().union(
                r.to_set(),
            )).contains(j) by {
                if all.contains(j) {
                    let k = choose|k: int| 0 <= k < all.len() && all[k] == j;
                    if k < l.len() {
                        assert(l[k] == j);
                    } else {
                        assert(r[k - l.len()] == j);
                    }
                }
                if l.contains(j) {
                    let k = choose|k: int| 0 <= k < l.len() && l[k] == j;
                    assert(all[k] == j);
                }
                if r.contains(j) {
                    let k = choose|k: int| 0 <= k < r.len() && r[k] == j;
                    assert(all[l.len() + k] == j);
                }
            }
        },
    }
}

/// The box of every node encloses the boxes of all objects below it,
/// wherever the bounds of those boxes are numbers.
pub proof fn lemma_node_box_encloses_leaves(child: BVHChild, k: int)
    requires
        child.wf(),
        0 <= k < child.spec_leaves().len(),
        forall|i: int|
            0 <= i < child.spec_leaves().len() ==> (#[trigger] child.spec_leaves()[i]).bbox.spec_of_numbers(),
    ensures
        child.spec_bbox().spec_of_numbers(),
        child.spec_bbox().spec_encloses(child.spec_leaves()[k].bbox),
    decreases child,
{
    match child {
        BVHChild::Object(o) => {
            assert(child.spec_leaves()[0] == o);
        },
        BVHChild::Node(n) => {
            let ll = n.left.spec_leaves();
            let rl = n.right.spec_leaves();
            let all = child.spec_leaves();
            assert(all == ll + rl);
            lemma_leaves_never_empty(n.left);
            lemma_leaves_never_empty(n.right);
            assert forall|i: int| 0 <= i < ll.len() implies (#[trigger] ll[i]).bbox.spec_of_numbers() by {
                assert(all[i] == ll[i]);
            }
            assert forall|i: int| 0 <= i < rl.len() implies (#[trigger] rl[i]).bbox.spec_of_numbers() by {
                assert(all[ll.len() + i] == rl[i]);
            }
            lemma_node_box_encloses_leaves(n.left, if k < ll.len() { k } else { 0 });
            lemma_node_box_encloses_leaves(n.right, if k < ll.len() { 0 } else { k - ll.len() });
            crate::aabb::lemma_union_encloses(n.left.spec_bbox(), n.right.spec_bbox());
            if k < ll.len() {
                assert(all[k] == ll[k]);
                crate::aabb::lemma_encloses_transitive(n.bbox, n.left.spec_bbox(), ll[k].bbox);
            } else {
                assert(all[k] == rl[k - ll.len()]);
                crate::aabb::lemma_encloses_transitive(
                    n.bbox,
                    n.right.spec_bbox(),
                    rl[k - ll.len()].bbox,
                );
            }
        },
    }
}

/// Below every child hangs one object at least.
pub proof fn lemma_leaves_never_empty(child: BVHChild)
    ensures
        child.spec_leaves().len() > 0,
    decreases child,
{
    match child {
        BVHChild::Object(o) => {},
        BVHChild::Node(n) => {
            lemma_leaves_never_empty(n.left);
        },
    }
}

/// A hierarchy that holds the objects of a list, and no others, holds their
/// numbers, and no others.
pub proof fn lemma_tree_holds_the_list(tree: BVHNode, objects: Seq<Bounded>)
    requires
        forall|i: int| 0 <= i < objects.len() ==> tree.spec_leaves().contains(#[trigger] objects[i]),
        forall|k: int|
            0 <= k < tree.spec_leaves().len() ==> objects.contains(#[trigger] tree.spec_leaves()[k]),
    ensures
        crate::hittable_list::spec_ids(objects).to_set() == tree.spec_child().spec_leaf_ids(),
{
    let leaves = tree.spec_leaves();
    let leaf_ids = leaves.map_values(|o: Bounded| o.id);
    let ids = crate::hittable_list::spec_ids(objects);
    lemma_leaf_ids_of_leaves(tree.spec_child());
    assert forall|j: usize| ids.to_set().contains(j) <==> leaf_ids.to_set().contains(j) by {
        if ids.contains(j) {
            let i = choose|i: int| 0 <= i < ids.len() && ids[i] == j;
            assert(leaves.contains(objects[i]));
            let k = choose|k: int| 0 <= k < leaves.len() && leaves[k] == objects[i];
            assert(leaf_ids[k] == j);
        }
        if leaf_ids.contains(j) {
            let k = choose|k: int| 0 <= k < leaf_ids.len() && leaf_ids[k] == j;
            assert(objects.contains(leaves[k]));
            let i = choose|i: int| 0 <= i < objects.len() && objects[i] == leaves[k];
            assert(ids[i] == j);
        }
    }
    assert(ids.to_set() =~= tree.spec_child().spec_leaf_ids());
}

/// How much a walk has to look at below a child: the child itself and all
/// that hangs below it.
pub open spec fn spec_size(child: BVHChild) -> nat
    decreases child,
{
    match child {
        BVHChild::Object(o) => 1,
        BVHChild::Node(n) => 1 + spec_size(n.left) + spec_size(n.right),
    }
}

/// How much a walk has still to look at, at most.
pub open spec fn spec_work(pending: Seq<BVHChild>) -> nat
    decreases pending.len(),
{
    if pending.len() == 0 {
        0
    } else {
        spec_work(pending.drop_last()) + spec_size(pending.last())
    }
}

/// Every walk ends: whatever the answer, a step leaves less to look at than
/// there was before it.
pub proof fn lemma_step_shortens_walk(pending: Seq<BVHChild>)
    requires
        pending.len() > 0,
    ensures
        spec_work(pending.drop_last()) < spec_work(pending),
        match pending.last() {
            BVHChild::Object(o) => true,
            BVHChild::Node(n) => spec_work(pending.drop_last().push(n.right).push(n.left))
                < spec_work(pending),
        },
{
    match pending.last() {
        BVHChild::Object(o) => {},
        BVHChild::Node(n) => {
            let rest = pending.drop_last();
            let with_right = rest.push(n.right);
            let with_both = with_right.push(n.left);
            assert(with_both.drop_last() == with_right);
            assert(with_right.drop_last() == rest);
            assert(with_both.last() == n.left);
            assert(with_right.last() == n.right);
            assert(spec_work(with_both) == spec_work(with_right) + spec_size(n.left));
            assert(spec_work(with_right) == spec_work(rest) + spec_size(n.right));
        },
    }
}

} // verus!
