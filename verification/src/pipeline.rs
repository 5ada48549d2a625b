//! The two decoded inputs, each held until the merge takes it.

use vstd::prelude::*;
use crate::anchor::NodeTransforms;
use crate::cloud::PointCloudData;
use crate::merge::{merge_gives, merge_points, MergeError, RenderBuffer};

verus! {

/// The slots of one load. Each input is put in once and taken once.
#[derive(Debug)]
pub struct Pipeline {
    pub transforms: Option<NodeTransforms>,
    pub cloud: Option<PointCloudData>,
}

impl Pipeline {
    /// Both inputs are there.
    pub open spec fn ready(&self) -> bool {
        self.transforms is Some && self.cloud is Some
    }

    /// The slots after one call of `merge`: emptied if both were full, else
    /// as they were.
    pub open spec fn stepped(&self) -> Pipeline {
        if self.ready() {
            Pipeline { transforms: None, cloud: None }
        } else {
            *self
        }
    }

    pub fn new() -> (p: Pipeline)
        ensures
            p.transforms is None,
            p.cloud is None,
    {
        Pipeline { transforms: None, cloud: None }
    }

    pub fn provide_transforms(&mut self, transforms: NodeTransforms)
        ensures
            final(self).transforms == Some(transforms),
            final(self).cloud == old(self).cloud,
    {
        self.transforms = Some(transforms);
    }

    pub fn provide_cloud(&mut self, cloud: PointCloudData)
        ensures
            final(self).cloud == Some(cloud),
            final(self).transforms == old(self).transforms,
    {
        self.cloud = Some(cloud);
    }

    /// Runs the merge if both inputs are there, and takes both; does nothing
    /// and hands back `None` while one is missing or after both were taken.
    pub fn merge(&mut self) -> (r: Option<Result<RenderBuffer, MergeError>>)
        ensures
            *final(self) == old(self).stepped(),
            r is Some <==> old(self).ready(),
            r matches Some(outcome) ==> merge_gives(
                outcome,
                old(self).transforms.unwrap(),
                old(self).cloud.unwrap().points@,
            ),
    {
        if self.transforms.is_none() || self.cloud.is_none() {
            return None;
        }
        let transforms = self.transforms.take().unwrap();
        let cloud = self.cloud.take().unwrap();
        Some(merge_points(transforms, &cloud))
    }
}

/// Once a merge has run, the slots are empty: a further call finds nothing
/// to do and leaves them as they are.
pub proof fn lemma_merge_runs_once(p: Pipeline)
    ensures
        !p.stepped().ready() || !p.ready(),
        p.ready() ==> !p.stepped().ready(),
        p.stepped().stepped() == p.stepped(),
{
}

} // verus!
