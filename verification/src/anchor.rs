//! Choice of the anchor and the transforms that are re-centred on it.

use vstd::prelude::*;
use crate::bits::{double_cancels, double_less, double_rank, double_same};
use crate::pose::{
    all_valid, find_invalid, first_invalid, transposed, Column, Matrix, NodePose, PoseError,
};

verus! {

/// A node's matrix, with what re-centring takes off its translation.
///
/// `matrix` is the pose's own; `origin` is the anchor's translation. The
/// node's re-centred translation is `matrix.w_axis` minus `origin`,
/// component by component, taken in double precision; the basis columns
/// stay as they are.
#[derive(Debug)]
pub struct NodeTransform {
    pub node_uuid: String,
    pub matrix: Matrix,
    pub origin: Column,
}

/// The transforms of a pose set, one per node, in the order of the poses.
#[derive(Debug)]
pub struct NodeTransforms {
    pub entries: Vec<NodeTransform>,
    pub anchor: usize,
}

/// Translation `a` comes before `b`: smaller X, or equal X and smaller Y.
pub open spec fn precedes(a: Column, b: Column) -> bool {
    ||| double_rank(a.x) < double_rank(b.x)
    ||| (double_rank(a.x) == double_rank(b.x) && double_rank(a.y) < double_rank(b.y))
}

/// Pose `a` is the anchor: no translation comes before its own, and it is the
/// first pose of which that holds.
pub open spec fn is_anchor(poses: Seq<NodePose>, a: int) -> bool {
    &&& 0 <= a < poses.len()
    &&& forall|j: int|
        0 <= j < poses.len() ==> !precedes(#[trigger] poses[j].translation(), poses[a].translation())
    &&& forall|j: int|
        0 <= j < a ==> precedes(poses[a].translation(), #[trigger] poses[j].translation())
}

/// No identifier occurs on two of the first `n` poses.
pub open spec fn distinct_nodes(poses: Seq<NodePose>, n: int) -> bool {
    forall|i: int, j: int|
        0 <= i < j < n ==> (#[trigger] poses[i]).node_uuid@ != (#[trigger] poses[j]).node_uuid@
}

/// Pose `j` is the first whose identifier an earlier pose already bears.
pub open spec fn duplicated_at(poses: Seq<NodePose>, j: int) -> bool {
    &&& 0 <= j < poses.len()
    &&& distinct_nodes(poses, j)
    &&& exists|i: int| 0 <= i < j && (#[trigger] poses[i]).node_uuid@ == poses[j].node_uuid@
}

/// No identifier occurs on two of the first `n` transforms.
pub open spec fn distinct_ids(entries: Seq<NodeTransform>, n: int) -> bool {
    forall|i: int, j: int|
        0 <= i < j < n ==> (#[trigger] entries[i]).node_uuid@ != (#[trigger] entries[j]).node_uuid@
}

/// Transform `j` is the first whose identifier an earlier one already bears.
pub open spec fn first_duplicate(entries: Seq<NodeTransform>, j: int) -> bool {
    &&& 0 <= j < entries.len()
    &&& distinct_ids(entries, j)
    &&& exists|i: int| 0 <= i < j && (#[trigger] entries[i]).node_uuid@ == entries[j].node_uuid@
}

impl NodeTransform {
    /// This transform is `pose`, re-centred on `origin`.
    pub open spec fn recentres(&self, pose: NodePose, origin: Column) -> bool {
        &&& self.node_uuid@ == pose.node_uuid@
        &&& self.matrix == transposed(pose.opt_pos@)
        &&& self.origin == origin
    }
}

impl NodeTransforms {
    /// The anchor is one of the entries, every entry is re-centred on the
    /// anchor's translation, and no identifier occurs twice.
    pub open spec fn wf(&self) -> bool {
        &&& self.anchor < self.entries@.len()
        &&& distinct_ids(self.entries@, self.entries@.len() as int)
        &&& forall|i: int|
            0 <= i < self.entries@.len() ==> (#[trigger] self.entries@[i]).origin
                == self.entries@[self.anchor as int].matrix.w_axis
    }

    /// These are the transforms of `poses`: one per pose and in their order,
    /// each with the pose's identifier and columns, all re-centred on the
    /// translation of the anchor.
    pub open spec fn resolves(&self, poses: Seq<NodePose>) -> bool {
        &&& self.entries@.len() == poses.len()
        &&& is_anchor(poses, self.anchor as int)
        &&& forall|i: int|
            0 <= i < poses.len() ==> (#[trigger] self.entries@[i]).recentres(
                poses[i],
                poses[self.anchor as int].translation(),
            )
    }

    /// Whether some transform bears the identifier `id`.
    pub open spec fn knows(&self, id: Seq<char>) -> bool {
        exists|i: int| 0 <= i < self.entries@.len() && (#[trigger] self.entries@[i]).node_uuid@ == id
    }

    /// The place of the transform that bears `id`, looked for among the
    /// first `limit` entries.
    pub fn position(&self, id: &String, limit: usize) -> (r: Option<usize>)
        requires
            limit <= self.entries@.len(),
        ensures
            match r {
                Some(i) => {
                    &&& i < limit
                    &&& self.entries@[i as int].node_uuid@ == id@
                    &&& forall|k: int|
                        0 <= k < i ==> (#[trigger] self.entries@[k]).node_uuid@ != id@
                },
                None => forall|k: int|
                    0 <= k < limit ==> (#[trigger] self.entries@[k]).node_uuid@ != id@,
            },
    {
        let mut i: usize = 0;
        while i < limit
            invariant
                i <= limit,
                limit <= self.entries@.len(),
                forall|k: int| 0 <= k < i ==> (#[trigger] self.entries@[k]).node_uuid@ != id@,
            decreases limit - i,
        {
            if self.entries[i].node_uuid == *id {
                return Some(i);
            }
            i += 1;
        }
        None
    }

    /// The place of the transform that bears `id`.
    pub fn find(&self, id: &String) -> (r: Option<usize>)
        ensures
            r is Some <==> self.knows(id@),
            r is Some ==> r.unwrap() < self.entries@.len() && self.entries@[r.unwrap() as int].node_uuid@
                == id@,
            r is Some ==> forall|k: int|
                0 <= k < r.unwrap() ==> (#[trigger] self.entries@[k]).node_uuid@ != id@,
    {
        self.position(id, self.entries.len())
    }
}

/// Whether translation `a` comes before translation `b`.
pub fn comes_before(a: &Column, b: &Column) -> (r: bool)
    ensures
        r == precedes(*a, *b),
{
    if double_less(a.x, b.x) {
        true
    } else if double_same(a.x, b.x) {
        double_less(a.y, b.y)
    } else {
        false
    }
}

/// The translation column of a pose of sixteen entries.
pub fn translation_of(pose: &NodePose) -> (c: Column)
    requires
        pose.opt_pos@.len() == 16,
    ensures
        c == pose.translation(),
{
    pose.columns().w_axis
}

/// Chooses the anchor: the pose whose translation has the least X, the least
/// Y among those, and the first of several that agree in both.
pub fn select_anchor(poses: &Vec<NodePose>) -> (r: Option<usize>)
    requires
        all_valid(poses@),
    ensures
        r is None <==> poses@.len() == 0,
        r is Some ==> is_anchor(poses@, r.unwrap() as int),
{
    if poses.len() == 0 {
        return None;
    }
    let mut best: usize = 0;
    let mut least: Column = translation_of(&poses[0]);
    let mut i: usize = 1;
    while i < poses.len()
        invariant
            1 <= i <= poses.len(),
            all_valid(poses@),
            best < i,
            least == poses@[best as int].translation(),
            forall|j: int| 0 <= j < i ==> !precedes(#[trigger] poses@[j].translation(), least),
            forall|j: int| 0 <= j < best ==> precedes(least, #[trigger] poses@[j].translation()),
        decreases poses.len() - i,
    {
        let candidate: Column = translation_of(&poses[i]);
        if comes_before(&candidate, &least) {
            best = i;
            least = candidate;
        }
        i += 1;
    }
    Some(best)
}

/// Looks for the first transform whose identifier an earlier one bears.
pub fn find_duplicate(transforms: &NodeTransforms) -> (r: Option<usize>)
    ensures
        match r {
            Some(j) => first_duplicate(transforms.entries@, j as int),
            None => distinct_ids(transforms.entries@, transforms.entries@.len() as int),
        },
{
    let mut j: usize = 0;
    while j < transforms.entries.len()
        invariant
            j <= transforms.entries@.len(),
            distinct_ids(transforms.entries@, j as int),
        decreases transforms.entries@.len() - j,
    {
        if transforms.position(&transforms.entries[j].node_uuid, j).is_some() {
            return Some(j);
        }
        proof {
            lemma_distinct_extends(transforms.entries@, j as int);
        }
        j += 1;
    }
    None
}

/// Identifiers that are distinct up to `j` stay so with one more that none
/// of them equals.
proof fn lemma_distinct_extends(entries: Seq<NodeTransform>, j: int)
    requires
        0 <= j < entries.len(),
        distinct_ids(entries, j),
        forall|k: int| 0 <= k < j ==> (#[trigger] entries[k]).node_uuid@ != entries[j].node_uuid@,
    ensures
        distinct_ids(entries, j + 1),
{
}

/// Re-centres every pose on the anchor.
///
/// Fails on the first record that is not valid, then on an empty set, then
/// on the first identifier that occurs a second time. Otherwise there is one
/// transform per pose, in the order of the poses.
pub fn resolve_transforms(poses: &Vec<NodePose>) -> (r: Result<NodeTransforms, PoseError>)
    ensures
        match r {
            Ok(t) => {
                &&& all_valid(poses@)
                &&& distinct_nodes(poses@, poses@.len() as int)
                &&& t.wf()
                &&& t.resolves(poses@)
            },
            Err(PoseError::Parse { index }) => first_invalid(poses@, index as int),
            Err(PoseError::EmptyPoseSet) => poses@.len() == 0,
            Err(PoseError::DuplicateNode { node_uuid }) => {
                &&& all_valid(poses@)
                &&& exists|j: int|
                    0 <= j < poses@.len() && duplicated_at(poses@, j) && node_uuid@ == (
                    #[trigger] poses@[j]).node_uuid@
            },
        },
{
    if let Some(index) = find_invalid(poses) {
        return Err(PoseError::Parse { index });
    }
    let anchor: usize = match select_anchor(poses) {
        Some(a) => a,
        None => {
            return Err(PoseError::EmptyPoseSet);
        },
    };
    let origin: Column = translation_of(&poses[anchor]);
    let mut entries: Vec<NodeTransform> = Vec::with_capacity(poses.len());
    let mut i: usize = 0;
    while i < poses.len()
        invariant
            i <= poses.len(),
            entries@.len() == i,
            all_valid(poses@),
            forall|k: int| 0 <= k < i ==> (#[trigger] entries@[k]).recentres(poses@[k], origin),
        decreases poses.len() - i,
    {
        let pose = &poses[i];
        assert(pose.valid());
        entries.push(
            NodeTransform { node_uuid: pose.node_uuid.clone(), matrix: pose.columns(), origin },
        );
        i += 1;
    }
    let transforms = NodeTransforms { entries, anchor };
    match find_duplicate(&transforms) {
        Some(j) => {
            proof {
                let i = choose|i: int|
                    0 <= i < j && (#[trigger] transforms.entries@[i]).node_uuid@
                        == transforms.entries@[j as int].node_uuid@;
                assert(transforms.entries@[i].recentres(poses@[i], origin));
                assert(transforms.entries@[j as int].recentres(poses@[j as int], origin));
                assert(poses@[i].node_uuid@ == poses@[j as int].node_uuid@);
                assert forall|a: int, b: int| 0 <= a < b < j implies (#[trigger] poses@[a]).node_uuid@
                    != (#[trigger] poses@[b]).node_uuid@ by {
                    assert(transforms.entries@[a].recentres(poses@[a], origin));
                    assert(transforms.entries@[b].recentres(poses@[b], origin));
                }
                assert(duplicated_at(poses@, j as int));
            }
            Err(PoseError::DuplicateNode { node_uuid: transforms.entries[j].node_uuid.clone() })
        },
        None => {
            proof {
                assert forall|a: int, b: int| 0 <= a < b < poses@.len() implies (
                #[trigger] poses@[a]).node_uuid@ != (#[trigger] poses@[b]).node_uuid@ by {
                    assert(transforms.entries@[a].recentres(poses@[a], origin));
                    assert(transforms.entries@[b].recentres(poses@[b], origin));
                }
            }
            Ok(transforms)
        },
    }
}

/// The anchor's own translation cancels: it is re-centred on itself, and its
/// entries are finite, so its X and Y, and its Z too, come out as zero.
pub proof fn lemma_anchor_at_origin(poses: Seq<NodePose>, t: NodeTransforms)
    requires
        all_valid(poses),
        t.resolves(poses),
    ensures
        t.entries@[t.anchor as int].matrix.w_axis == t.entries@[t.anchor as int].origin,
        double_cancels(t.entries@[t.anchor as int].matrix.w_axis.x, t.entries@[t.anchor as int].origin.x),
        double_cancels(t.entries@[t.anchor as int].matrix.w_axis.y, t.entries@[t.anchor as int].origin.y),
        double_cancels(t.entries@[t.anchor as int].matrix.w_axis.z, t.entries@[t.anchor as int].origin.z),
{
    let a = t.anchor as int;
    assert(t.entries@[a].recentres(poses[a], poses[a].translation()));
    assert(poses[a].valid());
}

/// A pose set has one anchor only: the choice does not depend on how it is
/// looked for.
pub proof fn lemma_anchor_unique(poses: Seq<NodePose>, a: int, b: int)
    requires
        is_anchor(poses, a),
        is_anchor(poses, b),
    ensures
        a == b,
{
    if a < b {
        assert(precedes(poses[b].translation(), poses[a].translation()));
    } else if b < a {
        assert(precedes(poses[a].translation(), poses[b].translation()));
    }
}

/// Of two poses with equal X, the one with the larger Y is never the anchor.
pub proof fn lemma_anchor_tie_break(poses: Seq<NodePose>, a: int, i: int, j: int)
    requires
        is_anchor(poses, a),
        0 <= i < poses.len(),
        0 <= j < poses.len(),
        double_rank(poses[i].translation().x) == double_rank(poses[j].translation().x),
        double_rank(poses[i].translation().y) < double_rank(poses[j].translation().y),
    ensures
        a != j,
{
    assert(precedes(poses[i].translation(), poses[j].translation()));
}

/// Re-centring moves the whole frame and nothing else: each transform keeps
/// its pose's identifier and basis columns, and its translation is the
/// pose's translation taken relative to the anchor's.
pub proof fn lemma_recentring_is_translation(poses: Seq<NodePose>, t: NodeTransforms, i: int)
    requires
        t.resolves(poses),
        0 <= i < poses.len(),
    ensures
        t.entries@[i].node_uuid@ == poses[i].node_uuid@,
        t.entries@[i].matrix.x_axis == transposed(poses[i].opt_pos@).x_axis,
        t.entries@[i].matrix.y_axis == transposed(poses[i].opt_pos@).y_axis,
        t.entries@[i].matrix.z_axis == transposed(poses[i].opt_pos@).z_axis,
        t.entries@[i].matrix.w_axis == poses[i].translation(),
        t.entries@[i].origin == poses[t.anchor as int].translation(),
{
    assert(t.entries@[i].recentres(poses[i], poses[t.anchor as int].translation()));
}

} // verus!
