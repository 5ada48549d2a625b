//! Pose records: a node identifier and a flattened 4x4 matrix.

use vstd::prelude::*;
use crate::bits::{double_is_finite, is_finite_double};

verus! {

/// One column of a 4x4 matrix, each component a double-precision pattern.
#[derive(Clone, Copy, Debug)]
pub struct Column {
    pub x: u64,
    pub y: u64,
    pub z: u64,
    pub w: u64,
}

/// A 4x4 matrix by its columns: the three basis vectors and the translation.
#[derive(Clone, Copy, Debug)]
pub struct Matrix {
    pub x_axis: Column,
    pub y_axis: Column,
    pub z_axis: Column,
    pub w_axis: Column,
}

/// A pose record as it is read: the node's identifier and the entries of its
/// matrix, flattened row by row.
#[derive(Debug)]
pub struct NodePose {
    pub node_uuid: String,
    pub opt_pos: Vec<u64>,
}

/// Why a pose set yields no transforms.
#[derive(Debug)]
pub enum PoseError {
    /// The record at `index` does not hold sixteen finite entries.
    Parse { index: usize },
    /// There is no pose to take the anchor from.
    EmptyPoseSet,
    /// The identifier occurs on more than one record.
    DuplicateNode { node_uuid: String },
}

/// A record of the pose document as it was read. A field that the record
/// lacks, or holds with another type, is `None`.
#[derive(Debug)]
pub struct PoseRecord {
    pub node_uuid: Option<String>,
    pub opt_pos: Option<Vec<u64>>,
}

/// Column `c` of the matrix whose rows are flattened in `entries`.
pub open spec fn column_of(entries: Seq<u64>, c: int) -> Column {
    Column { x: entries[c], y: entries[4 + c], z: entries[8 + c], w: entries[12 + c] }
}

/// The matrix whose rows are flattened in `entries`, by its columns.
pub open spec fn transposed(entries: Seq<u64>) -> Matrix {
    Matrix {
        x_axis: column_of(entries, 0),
        y_axis: column_of(entries, 1),
        z_axis: column_of(entries, 2),
        w_axis: column_of(entries, 3),
    }
}

/// Sixteen entries, each of them finite.
pub open spec fn entries_valid(entries: Seq<u64>) -> bool {
    &&& entries.len() == 16
    &&& forall|k: int| 0 <= k < 16 ==> double_is_finite(#[trigger] entries[k])
}

impl NodePose {
    pub open spec fn valid(&self) -> bool {
        entries_valid(self.opt_pos@)
    }

    /// The pose's matrix, where the record is valid.
    pub open spec fn matrix_spec(&self) -> Option<Matrix> {
        if self.valid() {
            Some(transposed(self.opt_pos@))
        } else {
            None
        }
    }

    /// The translation column of the pose's matrix.
    pub open spec fn translation(&self) -> Column {
        column_of(self.opt_pos@, 3)
    }

    pub fn is_valid(&self) -> (r: bool)
        ensures
            r == self.valid(),
    {
        if self.opt_pos.len() != 16 {
            return false;
        }
        let mut k: usize = 0;
        while k < 16
            invariant
                k <= 16,
                self.opt_pos@.len() == 16,
                forall|j: int| 0 <= j < k ==> double_is_finite(#[trigger] self.opt_pos@[j]),
            decreases 16 - k,
        {
            if !is_finite_double(self.opt_pos[k]) {
                return false;
            }
            k += 1;
        }
        true
    }

    /// Reads the sixteen row-major entries as a matrix in column layout.
    pub fn columns(&self) -> (m: Matrix)
        requires
            self.opt_pos@.len() == 16,
        ensures
            m == transposed(self.opt_pos@),
    {
        let e = &self.opt_pos;
        Matrix {
            x_axis: Column { x: e[0], y: e[4], z: e[8], w: e[12] },
            y_axis: Column { x: e[1], y: e[5], z: e[9], w: e[13] },
            z_axis: Column { x: e[2], y: e[6], z: e[10], w: e[14] },
            w_axis: Column { x: e[3], y: e[7], z: e[11], w: e[15] },
        }
    }

    /// The pose's matrix, where the record is valid.
    pub fn matrix(&self) -> (m: Option<Matrix>)
        ensures
            m == self.matrix_spec(),
    {
        if self.is_valid() {
            Some(self.columns())
        } else {
            None
        }
    }
}

/// Every record of `poses` is valid.
pub open spec fn all_valid(poses: Seq<NodePose>) -> bool {
    forall|i: int| 0 <= i < poses.len() ==> (#[trigger] poses[i]).valid()
}

/// Record `index` is the first one that is not valid.
pub open spec fn first_invalid(poses: Seq<NodePose>, index: int) -> bool {
    &&& 0 <= index < poses.len()
    &&& !poses[index].valid()
    &&& forall|i: int| 0 <= i < index ==> (#[trigger] poses[i]).valid()
}

/// Looks for the first record that does not hold sixteen finite entries.
pub fn find_invalid(poses: &Vec<NodePose>) -> (r: Option<usize>)
    ensures
        match r {
            Some(index) => first_invalid(poses@, index as int),
            None => all_valid(poses@),
        },
{
    let mut i: usize = 0;
    while i < poses.len()
        invariant
            i <= poses.len(),
            forall|j: int| 0 <= j < i ==> (#[trigger] poses@[j]).valid(),
        decreases poses.len() - i,
    {
        if !poses[i].is_valid() {
            return Some(i);
        }
        i += 1;
    }
    None
}

impl PoseRecord {
    /// The record has both fields, and its matrix sixteen finite entries.
    pub open spec fn well_formed(&self) -> bool {
        &&& self.node_uuid is Some
        &&& self.opt_pos is Some
        &&& entries_valid(self.opt_pos.unwrap()@)
    }

    /// `pose` holds what the record holds.
    pub open spec fn describes(&self, pose: NodePose) -> bool {
        &&& self.well_formed()
        &&& pose.node_uuid@ == self.node_uuid.unwrap()@
        &&& pose.opt_pos@ == self.opt_pos.unwrap()@
    }
}

/// A copy of the entries, where there are sixteen and all are finite.
pub fn checked_entries(entries: &Vec<u64>) -> (r: Option<Vec<u64>>)
    ensures
        r is Some <==> entries_valid(entries@),
        r is Some ==> r.unwrap()@ == entries@,
{
    if entries.len() != 16 {
        return None;
    }
    let mut copy: Vec<u64> = Vec::with_capacity(16);
    let mut k: usize = 0;
    while k < 16
        invariant
            k <= 16,
            entries@.len() == 16,
            copy@ == entries@.take(k as int),
            forall|j: int| 0 <= j < k ==> double_is_finite(#[trigger] entries@[j]),
        decreases 16 - k,
    {
        if !is_finite_double(entries[k]) {
            return None;
        }
        copy.push(entries[k]);
        assert(copy@ =~= entries@.take(k + 1));
        k += 1;
    }
    assert(entries@.take(16) =~= entries@);
    Some(copy)
}

/// Turns the records of a pose document into poses. Fails on the first
/// record that lacks a field or whose matrix does not consist of sixteen
/// finite entries, and names its place.
pub fn parse_poses(records: &Vec<PoseRecord>) -> (r: Result<Vec<NodePose>, PoseError>)
    ensures
        match r {
            Ok(poses) => {
                &&& poses@.len() == records@.len()
                &&& all_valid(poses@)
                &&& forall|i: int|
                    0 <= i < records@.len() ==> (#[trigger] records@[i]).describes(poses@[i])
            },
            Err(PoseError::Parse { index }) => {
                &&& index < records@.len()
                &&& !records@[index as int].well_formed()
                &&& forall|i: int| 0 <= i < index ==> (#[trigger] records@[i]).well_formed()
            },
            Err(_) => false,
        },
{
    let mut poses: Vec<NodePose> = Vec::with_capacity(records.len());
    let mut i: usize = 0;
    while i < records.len()
        invariant
            i <= records.len(),
            poses@.len() == i,
            all_valid(poses@),
            forall|k: int| 0 <= k < i ==> (#[trigger] records@[k]).describes(poses@[k]),
        decreases records.len() - i,
    {
        let record = &records[i];
        let node_uuid: String = match &record.node_uuid {
            Some(id) => id.clone(),
            None => {
                return Err(PoseError::Parse { index: i });
            },
        };
        let opt_pos: Vec<u64> = match &record.opt_pos {
            Some(entries) => match checked_entries(entries) {
                Some(copy) => copy,
                None => {
                    return Err(PoseError::Parse { index: i });
                },
            },
            None => {
                return Err(PoseError::Parse { index: i });
            },
        };
        poses.push(NodePose { node_uuid, opt_pos });
        i += 1;
    }
    Ok(poses)
}

} // verus!
