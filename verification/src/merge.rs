//! The merge of the cloud with the transforms into the render buffer.

use vstd::prelude::*;
use crate::anchor::NodeTransforms;
use crate::cloud::{Point, PointCloudData, PointModel};

verus! {

/// Alpha of every colour: opaque.
pub const OPAQUE: u8 = 255;

/// Where a point goes: its coordinates in the frame of its node, as
/// single-precision patterns, and the place of that node's transform among
/// the transforms of the buffer. The global position is that transform
/// applied to the coordinates.
#[derive(Clone, Copy, Debug, PartialEq, Eq)]
pub struct Placement {
    pub transform: usize,
    pub x: u32,
    pub y: u32,
    pub z: u32,
}

/// A colour by its four channels. A channel `c` stands for the component
/// `c / 255`.
#[derive(Clone, Copy, Debug, PartialEq, Eq)]
pub struct Rgba {
    pub r: u8,
    pub g: u8,
    pub b: u8,
    pub a: u8,
}

/// Positions and colours, index by index for the same point, and the
/// transforms that the positions refer to.
#[derive(Debug)]
pub struct RenderBuffer {
    pub transforms: NodeTransforms,
    pub positions: Vec<Placement>,
    pub colors: Vec<Rgba>,
}

/// Why the merge yields no buffer.
#[derive(Debug)]
pub enum MergeError {
    /// A point names a node that has no transform.
    UnresolvedNode { node_uuid: String },
}

/// The colour of a point: its three channels, opaque.
pub open spec fn colour_of(p: PointModel) -> Rgba {
    Rgba { r: p.r, g: p.g, b: p.b, a: OPAQUE }
}

/// `at` places point `p`: it keeps the point's coordinates and names the
/// first transform that bears the point's node.
pub open spec fn places(t: NodeTransforms, p: PointModel, at: Placement) -> bool {
    &&& at.transform < t.entries@.len()
    &&& t.entries@[at.transform as int].node_uuid@ == p.node_uuid
    &&& forall|k: int| 0 <= k < at.transform ==> (#[trigger] t.entries@[k]).node_uuid@ != p.node_uuid
    &&& at.x == p.x
    &&& at.y == p.y
    &&& at.z == p.z
}

/// Every one of the first `n` points names a node that has a transform.
pub open spec fn all_resolved(t: NodeTransforms, points: Seq<Point>, n: int) -> bool {
    forall|i: int| 0 <= i < n ==> t.knows((#[trigger] points[i]).node_uuid@)
}

/// Point `i` is the first that names a node without a transform.
pub open spec fn first_unresolved(t: NodeTransforms, points: Seq<Point>, i: int) -> bool {
    &&& 0 <= i < points.len()
    &&& !t.knows(points[i].node_uuid@)
    &&& all_resolved(t, points, i)
}

impl RenderBuffer {
    /// The buffer holds, index by index, the placement and the colour of
    /// each of `points`.
    pub open spec fn merges(&self, t: NodeTransforms, points: Seq<Point>) -> bool {
        &&& self.transforms == t
        &&& self.positions@.len() == points.len()
        &&& self.colors@.len() == points.len()
        &&& forall|i: int|
            0 <= i < points.len() ==> places(t, (#[trigger] points[i])@, self.positions@[i])
        &&& forall|i: int|
            0 <= i < points.len() ==> self.colors@[i] == colour_of((#[trigger] points[i])@)
    }
}

/// `r` is what merging `points` with the transforms `t` gives: the buffer
/// if every point names a node that has a transform, else the node of the
/// first point that does not.
pub open spec fn merge_gives(
    r: Result<RenderBuffer, MergeError>,
    t: NodeTransforms,
    points: Seq<Point>,
) -> bool {
    match r {
        Ok(buffer) => all_resolved(t, points, points.len() as int) && buffer.merges(t, points),
        Err(MergeError::UnresolvedNode { node_uuid }) => exists|i: int|
            first_unresolved(t, points, i) && node_uuid@ == (#[trigger] points[i]).node_uuid@,
    }
}

/// Places and colours every point of the cloud, in the order of the cloud.
///
/// Fails on the first point whose node has no transform, with that node's
/// identifier; no buffer comes out then.
pub fn merge_points(transforms: NodeTransforms, cloud: &PointCloudData) -> (r: Result<
    RenderBuffer,
    MergeError,
>)
    ensures
        merge_gives(r, transforms, cloud.points@),
        r is Ok <==> all_resolved(transforms, cloud.points@, cloud.points@.len() as int),
{
    let size: usize = cloud.points.len();
    let mut positions: Vec<Placement> = Vec::with_capacity(size);
    let mut colors: Vec<Rgba> = Vec::with_capacity(size);
    let mut i: usize = 0;
    while i < size
        invariant
            i <= size,
            size == cloud.points@.len(),
            positions@.len() == i,
            colors@.len() == i,
            all_resolved(transforms, cloud.points@, i as int),
            forall|k: int|
                0 <= k < i ==> places(transforms, (#[trigger] cloud.points@[k])@, positions@[k]),
            forall|k: int| 0 <= k < i ==> colors@[k] == colour_of((#[trigger] cloud.points@[k])@),
        decreases size - i,
    {
        let point = &cloud.points[i];
        match transforms.find(&point.node_uuid) {
            Some(at) => {
                positions.push(Placement { transform: at, x: point.x, y: point.y, z: point.z });
                colors.push(Rgba { r: point.r, g: point.g, b: point.b, a: OPAQUE });
            },
            None => {
                assert(first_unresolved(transforms, cloud.points@, i as int));
                return Err(MergeError::UnresolvedNode { node_uuid: point.node_uuid.clone() });
            },
        }
        i += 1;
    }
    Ok(RenderBuffer { transforms, positions, colors })
}

/// A point whose node has no transform fails the merge: it is never passed
/// over, and no part of a buffer comes out.
pub proof fn lemma_unresolved_point_fails(
    r: Result<RenderBuffer, MergeError>,
    t: NodeTransforms,
    points: Seq<Point>,
    i: int,
)
    requires
        merge_gives(r, t, points),
        0 <= i < points.len(),
        !t.knows(points[i].node_uuid@),
    ensures
        r is Err,
{
}

} // verus!
