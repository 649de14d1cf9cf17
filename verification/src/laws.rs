//! Library-wide laws that tie several modules together.

use vstd::prelude::*;
use crate::image_data::ImageView;
use crate::ops::Op;
use crate::pipeline::{ThreadsafeAugmenterPipeline, elems_plan_ok, lemma_empty_pipeline_plan};
use crate::runner::apply_direct_ops;

verus! {

/// Identity of the empty pipeline: a pipeline with no stages can only draw
/// the empty plan, and running the empty plan returns any image unchanged
/// — equal in content and dimensions.
pub proof fn lemma_empty_pipeline_identity(
    p: ThreadsafeAugmenterPipeline,
    ops: Seq<Op>,
    v: ImageView,
)
    requires
        p.augmenters@.len() == 0,
        elems_plan_ok(p.augmenters@, ops),
    ensures
        ops == Seq::<Op>::empty(),
        apply_direct_ops(v, ops) == v,
{
    lemma_empty_pipeline_plan(p.augmenters@, ops);
}

} // verus!
