use vstd::prelude::*;
use crate::ops::Op;

verus! {

/// The capability every transform strategy offers: drawing one concrete,
/// fully determined sequence of primitive transforms for a single
/// application. Strategies hold configuration only; randomness is drawn
/// fresh inside `plan`, so one strategy value can serve many applications.
pub trait Augmenter {
    /// The strategy's configuration invariant, established at construction.
    spec fn wf(&self) -> bool;

    /// The transform sequences this strategy can draw: order, count and
    /// parameter ranges.
    spec fn plan_ok(&self, ops: Seq<Op>) -> bool;

    /// Draws one randomized transform sequence.
    fn plan(&self) -> (r: Vec<Op>)
        requires
            self.wf(),
        ensures
            self.plan_ok(r@),
    ;
}

/// An augmenter that can be duplicated and handed to concurrent workers:
/// any augmenter whose state is independently copyable and free of shared
/// mutable resources qualifies structurally, through the blanket
/// implementation below.
pub trait ClonableAugmenter: Augmenter + Clone + Send + Sync {}

impl<T: Augmenter + Clone + Send + Sync> ClonableAugmenter for T {}

} // verus!
