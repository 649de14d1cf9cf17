use vstd::prelude::*;
use crate::augmenters::{BlurAugmenter, ColorAugmenter, GeometricAugmenter};
use crate::augmenters::{blur_plan_ok, color_plan_ok, geometric_plan_ok};
use crate::ops::Op;
use crate::traits::Augmenter;

verus! {

/// One stage of a pipeline. The set of strategies is closed, so stages are
/// a sum type; a whole duplicable pipeline can itself be a stage, which
/// makes pipelines-of-pipelines possible.
#[derive(Clone)]
pub enum PipelineElement {
    Geometric(GeometricAugmenter),
    Color(ColorAugmenter),
    Blur(BlurAugmenter),
    Nested(Box<ThreadsafeAugmenterPipeline>),
}

/// A pipeline of augmenters which can be freely duplicated and shared
/// across workers: an ordered sequence of stages, applied first to last.
pub struct ThreadsafeAugmenterPipeline {
    pub augmenters: Vec<PipelineElement>,
}

/// A pipeline of augmenters which are not duplicated (for example because a
/// stage holds a resource that is expensive or unsafe to copy): same
/// application semantics, but no duplication operation is offered.
pub struct AugmenterPipeline {
    pub augmenters: Vec<PipelineElement>,
}

/// Configuration validity of one stage.
pub open spec fn elem_wf(e: PipelineElement) -> bool
    decreases e,
{
    match e {
        PipelineElement::Geometric(_) => true,
        PipelineElement::Color(c) => c.valid(),
        PipelineElement::Blur(b) => b.valid(),
        PipelineElement::Nested(p) => elems_wf(p.augmenters@),
    }
}

/// Configuration validity of a stage sequence.
pub open spec fn elems_wf(elems: Seq<PipelineElement>) -> bool
    decreases elems,
{
    elems.len() == 0 || (elem_wf(elems[0]) && elems_wf(elems.subrange(1, elems.len() as int)))
}

/// Every stage of a well-formed sequence is well-formed.
pub proof fn lemma_elems_wf_index(elems: Seq<PipelineElement>, i: int)
    requires
        elems_wf(elems),
        0 <= i < elems.len(),
    ensures
        elem_wf(elems[i]),
    decreases i,
{
    if i > 0 {
        lemma_elems_wf_index(elems.subrange(1, elems.len() as int), i - 1);
    }
}

/// The record of one concrete draw: which transforms each stage
/// contributed, with nesting mirrored, so that a plan's decomposition into
/// per-stage parts is explicit.
pub enum PlanPart {
    Leaf(Seq<Op>),
    Node(Seq<PlanPart>),
}

/// The flat transform sequence a draw record describes.
pub open spec fn part_ops(p: PlanPart) -> Seq<Op>
    decreases p,
{
    match p {
        PlanPart::Leaf(ops) => ops,
        PlanPart::Node(children) => parts_ops(children),
    }
}

/// The concatenation, in order, of the transforms of a sequence of draw
/// records.
pub open spec fn parts_ops(ps: Seq<PlanPart>) -> Seq<Op>
    decreases ps,
{
    if ps.len() == 0 {
        Seq::<Op>::empty()
    } else {
        part_ops(ps[0]) + parts_ops(ps.subrange(1, ps.len() as int))
    }
}

/// Appending a draw record appends its transforms.
pub proof fn lemma_parts_ops_push(ps: Seq<PlanPart>, p: PlanPart)
    ensures
        parts_ops(ps.push(p)) == parts_ops(ps) + part_ops(p),
    decreases ps.len(),
{
    let grown = ps.push(p);
    if ps.len() == 0 {
        assert(grown.subrange(1, grown.len() as int) =~= Seq::<PlanPart>::empty());
        assert(parts_ops(Seq::<PlanPart>::empty()) == Seq::<Op>::empty());
        assert(grown[0] == p);
        assert(parts_ops(grown) =~= parts_ops(ps) + part_ops(p));
    } else {
        lemma_parts_ops_push(ps.subrange(1, ps.len() as int), p);
        assert(grown.subrange(1, grown.len() as int) =~= ps.subrange(1, ps.len() as int).push(p));
        assert(grown[0] == ps[0]);
        assert(parts_ops(ps.subrange(1, ps.len() as int).push(p)) == parts_ops(
            ps.subrange(1, ps.len() as int),
        ) + part_ops(p));
        assert(parts_ops(grown) =~= parts_ops(ps) + part_ops(p));
    }
}

/// Whether `p` records one draw that stage `e` can make: the stage kinds
/// match, and every drawn magnitude lies in its configured range.
pub open spec fn elem_plan_evident(e: PipelineElement, p: PlanPart) -> bool
    decreases e,
{
    match e {
        PipelineElement::Geometric(_) => p matches PlanPart::Leaf(ops) && geometric_plan_ok(ops),
        PipelineElement::Color(c) => p matches PlanPart::Leaf(ops) && color_plan_ok(c, ops),
        PipelineElement::Blur(b) => p matches PlanPart::Leaf(ops) && blur_plan_ok(b, ops),
        PipelineElement::Nested(q) => p matches PlanPart::Node(children) && elems_plan_evident(
            q.augmenters@,
            children,
        ),
    }
}

/// Whether `ps` records one draw per stage of `elems`, in listed order.
pub open spec fn elems_plan_evident(elems: Seq<PipelineElement>, ps: Seq<PlanPart>) -> bool
    decreases elems,
{
    if elems.len() == 0 {
        ps.len() == 0
    } else {
        &&& ps.len() == elems.len()
        &&& elem_plan_evident(elems[0], ps[0])
        &&& elems_plan_evident(
            elems.subrange(1, elems.len() as int),
            ps.subrange(1, ps.len() as int),
        )
    }
}

/// Appending a stage and a matching draw record keeps the evidence intact.
pub proof fn lemma_elems_plan_evident_push(
    elems: Seq<PipelineElement>,
    ps: Seq<PlanPart>,
    e: PipelineElement,
    p: PlanPart,
)
    requires
        elems_plan_evident(elems, ps),
        elem_plan_evident(e, p),
    ensures
        elems_plan_evident(elems.push(e), ps.push(p)),
    decreases elems.len(),
{
    let ge = elems.push(e);
    let gp = ps.push(p);
    if elems.len() == 0 {
        assert(ge.subrange(1, ge.len() as int) =~= Seq::<PipelineElement>::empty());
        assert(gp.subrange(1, gp.len() as int) =~= Seq::<PlanPart>::empty());
        assert(elems_plan_evident(Seq::<PipelineElement>::empty(), Seq::<PlanPart>::empty()));
        assert(ge[0] == e && gp[0] == p);
    } else {
        lemma_elems_plan_evident_push(
            elems.subrange(1, elems.len() as int),
            ps.subrange(1, ps.len() as int),
            e,
            p,
        );
        assert(ge.subrange(1, ge.len() as int) =~= elems.subrange(1, elems.len() as int).push(e));
        assert(gp.subrange(1, gp.len() as int) =~= ps.subrange(1, ps.len() as int).push(p));
        assert(ge[0] == elems[0] && gp[0] == ps[0]);
        assert(elems_plan_evident(
            elems.subrange(1, elems.len() as int).push(e),
            ps.subrange(1, ps.len() as int).push(p),
        ));
    }
}

/// The transform sequences one stage can draw.
pub open spec fn elem_plan_ok(e: PipelineElement, ops: Seq<Op>) -> bool {
    exists|p: PlanPart| #[trigger] elem_plan_evident(e, p) && ops == part_ops(p)
}

/// The transform sequences a stage sequence can draw: a concatenation, in
/// listed order, of one valid part per stage. An empty sequence draws only
/// the empty plan.
pub open spec fn elems_plan_ok(elems: Seq<PipelineElement>, ops: Seq<Op>) -> bool {
    exists|ps: Seq<PlanPart>| #[trigger] elems_plan_evident(elems, ps) && ops == parts_ops(ps)
}

/// An empty pipeline admits only the empty plan.
pub proof fn lemma_empty_pipeline_plan(elems: Seq<PipelineElement>, ops: Seq<Op>)
    requires
        elems.len() == 0,
        elems_plan_ok(elems, ops),
    ensures
        ops == Seq::<Op>::empty(),
{
    let ps = choose|ps: Seq<PlanPart>| #[trigger] elems_plan_evident(elems, ps) && ops == parts_ops(ps);
    assert(ps.len() == 0);
}

/// Structural equality of stages, through any nesting: what a deep
/// duplicate guarantees about its result.
pub open spec fn elem_equiv(a: PipelineElement, b: PipelineElement) -> bool
    decreases a,
{
    match (a, b) {
        (PipelineElement::Geometric(x), PipelineElement::Geometric(y)) => x == y,
        (PipelineElement::Color(x), PipelineElement::Color(y)) => x == y,
        (PipelineElement::Blur(x), PipelineElement::Blur(y)) => x == y,
        (PipelineElement::Nested(p), PipelineElement::Nested(q)) => elems_equiv(
            p.augmenters@,
            q.augmenters@,
        ),
        _ => false,
    }
}

/// Structural equality of stage sequences.
pub open spec fn elems_equiv(s: Seq<PipelineElement>, t: Seq<PipelineElement>) -> bool
    decreases s,
{
    &&& s.len() == t.len()
    &&& (s.len() == 0 || (elem_equiv(s[0], t[0]) && elems_equiv(
        s.subrange(1, s.len() as int),
        t.subrange(1, t.len() as int),
    )))
}

/// Appending equal stages keeps sequences structurally equal.
pub proof fn lemma_elems_equiv_push(
    s: Seq<PipelineElement>,
    t: Seq<PipelineElement>,
    e: PipelineElement,
    f: PipelineElement,
)
    requires
        elems_equiv(s, t),
        elem_equiv(e, f),
    ensures
        elems_equiv(s.push(e), t.push(f)),
    decreases s.len(),
{
    let gs = s.push(e);
    let gt = t.push(f);
    if s.len() == 0 {
        assert(gs.subrange(1, gs.len() as int) =~= Seq::<PipelineElement>::empty());
        assert(gt.subrange(1, gt.len() as int) =~= Seq::<PipelineElement>::empty());
        assert(elems_equiv(Seq::<PipelineElement>::empty(), Seq::<PipelineElement>::empty()));
        assert(gs[0] == e && gt[0] == f);
    } else {
        lemma_elems_equiv_push(s.subrange(1, s.len() as int), t.subrange(1, t.len() as int), e, f);
        assert(gs.subrange(1, gs.len() as int) =~= s.subrange(1, s.len() as int).push(e));
        assert(gt.subrange(1, gt.len() as int) =~= t.subrange(1, t.len() as int).push(f));
        assert(gs[0] == s[0] && gt[0] == t[0]);
        assert(elems_equiv(
            s.subrange(1, s.len() as int).push(e),
            t.subrange(1, t.len() as int).push(f),
        ));
    }
}

/// Structurally equal stages accept exactly the same draw records and have
/// the same validity.
pub proof fn lemma_elem_equiv_same_evidence(a: PipelineElement, b: PipelineElement, p: PlanPart)
    requires
        elem_equiv(a, b),
    ensures
        elem_plan_evident(a, p) == elem_plan_evident(b, p),
        elem_wf(a) == elem_wf(b),
    decreases a,
{
    match (a, b) {
        (PipelineElement::Nested(x), PipelineElement::Nested(y)) => {
            match p {
                PlanPart::Node(children) => {
                    lemma_elems_equiv_same_evidence(x.augmenters@, y.augmenters@, children);
                },
                PlanPart::Leaf(_) => {
                    lemma_elems_equiv_same_evidence(
                        x.augmenters@,
                        y.augmenters@,
                        Seq::<PlanPart>::empty(),
                    );
                },
            }
        },
        _ => {},
    }
}

/// Structurally equal stage sequences accept exactly the same draw records
/// and have the same validity.
pub proof fn lemma_elems_equiv_same_evidence(
    s: Seq<PipelineElement>,
    t: Seq<PipelineElement>,
    ps: Seq<PlanPart>,
)
    requires
        elems_equiv(s, t),
    ensures
        elems_plan_evident(s, ps) == elems_plan_evident(t, ps),
        elems_wf(s) == elems_wf(t),
    decreases s,
{
    if s.len() > 0 {
        if ps.len() > 0 {
            lemma_elem_equiv_same_evidence(s[0], t[0], ps[0]);
            lemma_elems_equiv_same_evidence(
                s.subrange(1, s.len() as int),
                t.subrange(1, t.len() as int),
                ps.subrange(1, ps.len() as int),
            );
        } else {
            lemma_elem_equiv_same_evidence(s[0], t[0], PlanPart::Leaf(Seq::<Op>::empty()));
            lemma_elems_equiv_same_evidence(
                s.subrange(1, s.len() as int),
                t.subrange(1, t.len() as int),
                Seq::<PlanPart>::empty(),
            );
        }
    }
}

/// Duplication independence: structurally equal pipelines admit exactly the
/// same plans and have the same validity, so a duplicate behaves as the
/// original does and its outputs satisfy the same guarantees.
pub proof fn lemma_equiv_same_plans(s: Seq<PipelineElement>, t: Seq<PipelineElement>, ops: Seq<Op>)
    requires
        elems_equiv(s, t),
    ensures
        elems_plan_ok(s, ops) == elems_plan_ok(t, ops),
        elems_wf(s) == elems_wf(t),
{
    lemma_elems_equiv_same_evidence(s, t, Seq::<PlanPart>::empty());
    if elems_plan_ok(s, ops) {
        let ps = choose|ps: Seq<PlanPart>|
            #[trigger] elems_plan_evident(s, ps) && ops == parts_ops(ps);
        lemma_elems_equiv_same_evidence(s, t, ps);
        assert(elems_plan_evident(t, ps) && ops == parts_ops(ps));
    }
    if elems_plan_ok(t, ops) {
        let ps = choose|ps: Seq<PlanPart>|
            #[trigger] elems_plan_evident(t, ps) && ops == parts_ops(ps);
        lemma_elems_equiv_same_evidence(s, t, ps);
        assert(elems_plan_evident(s, ps) && ops == parts_ops(ps));
    }
}

/// Draws one transform sequence for a stage sequence: the concatenation of
/// one fresh draw per stage, in listed order.
pub fn elems_plan(elems: &Vec<PipelineElement>) -> (r: Vec<Op>)
    requires
        elems_wf(elems@),
    ensures
        elems_plan_ok(elems@, r@),
    decreases elems@,
{
    let mut ops: Vec<Op> = Vec::new();
    let ghost mut ps: Seq<PlanPart> = Seq::empty();
    let mut i: usize = 0;
    while i < elems.len()
        invariant
            0 <= i <= elems@.len(),
            elems_wf(elems@),
            ps.len() == i,
            elems_plan_evident(elems@.subrange(0, i as int), ps),
            ops@ == parts_ops(ps),
        decreases elems@.len() - i,
    {
        proof {
            lemma_elems_wf_index(elems@, i as int);
        }
        let mut part = elem_plan(&elems[i]);
        proof {
            let p = choose|p: PlanPart|
                #[trigger] elem_plan_evident(elems@[i as int], p) && part@ == part_ops(p);
            lemma_elems_plan_evident_push(elems@.subrange(0, i as int), ps, elems@[i as int], p);
            lemma_parts_ops_push(ps, p);
            assert(elems@.subrange(0, i as int).push(elems@[i as int]) =~= elems@.subrange(
                0,
                i + 1,
            ));
            ps = ps.push(p);
        }
        ops.append(&mut part);
        i += 1;
    }
    proof {
        assert(elems@.subrange(0, elems@.len() as int) =~= elems@);
    }
    ops
}

/// Draws one transform sequence for a single stage.
pub fn elem_plan(e: &PipelineElement) -> (r: Vec<Op>)
    requires
        elem_wf(*e),
    ensures
        elem_plan_ok(*e, r@),
    decreases *e,
{
    match e {
        PipelineElement::Geometric(g) => {
            let r = g.plan();
            proof {
                assert(elem_plan_evident(*e, PlanPart::Leaf(r@)) && r@ == part_ops(
                    PlanPart::Leaf(r@),
                ));
            }
            r
        },
        PipelineElement::Color(c) => {
            let r = c.plan();
            proof {
                assert(elem_plan_evident(*e, PlanPart::Leaf(r@)) && r@ == part_ops(
                    PlanPart::Leaf(r@),
                ));
            }
            r
        },
        PipelineElement::Blur(b) => {
            let r = b.plan();
            proof {
                assert(elem_plan_evident(*e, PlanPart::Leaf(r@)) && r@ == part_ops(
                    PlanPart::Leaf(r@),
                ));
            }
            r
        },
        PipelineElement::Nested(p) => {
            let r = elems_plan(&p.augmenters);
            proof {
                let ps = choose|ps: Seq<PlanPart>|
                    #[trigger] elems_plan_evident(p.augmenters@, ps) && r@ == parts_ops(ps);
                assert(elem_plan_evident(*e, PlanPart::Node(ps)) && r@ == part_ops(
                    PlanPart::Node(ps),
                ));
            }
            r
        },
    }
}

/// Executable twin of [`elem_wf`].
pub fn elem_is_valid(e: &PipelineElement) -> (r: bool)
    ensures
        r == elem_wf(*e),
    decreases *e,
{
    match e {
        PipelineElement::Geometric(_) => true,
        PipelineElement::Color(c) => c.is_valid(),
        PipelineElement::Blur(b) => b.is_valid(),
        PipelineElement::Nested(p) => elems_are_valid(&p.augmenters),
    }
}

/// Executable twin of [`elems_wf`].
pub fn elems_are_valid(elems: &Vec<PipelineElement>) -> (r: bool)
    ensures
        r == elems_wf(elems@),
    decreases elems@,
{
    proof {
        assert(elems@.subrange(0, elems@.len() as int) =~= elems@);
    }
    let mut i: usize = 0;
    while i < elems.len()
        invariant
            0 <= i <= elems@.len(),
            elems_wf(elems@) == elems_wf(elems@.subrange(i as int, elems@.len() as int)),
        decreases elems@.len() - i,
    {
        let stage_ok = elem_is_valid(&elems[i]);
        proof {
            let cur = elems@.subrange(i as int, elems@.len() as int);
            assert(cur[0] == elems@[i as int]);
            assert(cur.subrange(1, cur.len() as int) =~= elems@.subrange(
                i + 1,
                elems@.len() as int,
            ));
        }
        if !stage_ok {
            return false;
        }
        i += 1;
    }
    proof {
        assert(elems@.subrange(elems@.len() as int, elems@.len() as int)
            =~= Seq::<PipelineElement>::empty());
        assert(elems_wf(Seq::<PipelineElement>::empty()));
    }
    true
}

/// Deep-copies one stage: the result shares no storage with the original.
pub fn elem_duplicate(e: &PipelineElement) -> (r: PipelineElement)
    ensures
        elem_equiv(r, *e),
    decreases *e,
{
    match e {
        PipelineElement::Geometric(g) => PipelineElement::Geometric(*g),
        PipelineElement::Color(c) => PipelineElement::Color(*c),
        PipelineElement::Blur(b) => PipelineElement::Blur(*b),
        PipelineElement::Nested(p) => PipelineElement::Nested(Box::new(p.duplicate())),
    }
}

impl ThreadsafeAugmenterPipeline {
    /// Whether every stage's configuration is valid; an executable check
    /// for callers that built the pipeline outside verified code.
    pub fn is_valid(&self) -> (r: bool)
        ensures
            r == elems_wf(self.augmenters@),
    {
        elems_are_valid(&self.augmenters)
    }

    /// Produces an independent pipeline with the same length and order,
    /// each stage deep-copied: no stage is shared between the original and
    /// the duplicate.
    pub fn duplicate(&self) -> (r: ThreadsafeAugmenterPipeline)
        ensures
            elems_equiv(r.augmenters@, self.augmenters@),
        decreases *self,
    {
        let mut out: Vec<PipelineElement> = Vec::new();
        let mut i: usize = 0;
        while i < self.augmenters.len()
            invariant
                0 <= i <= self.augmenters@.len(),
                elems_equiv(out@, self.augmenters@.subrange(0, i as int)),
            decreases self.augmenters@.len() - i,
        {
            let d = elem_duplicate(&self.augmenters[i]);
            proof {
                lemma_elems_equiv_push(
                    out@,
                    self.augmenters@.subrange(0, i as int),
                    d,
                    self.augmenters@[i as int],
                );
                assert(self.augmenters@.subrange(0, i as int).push(self.augmenters@[i as int])
                    =~= self.augmenters@.subrange(0, i + 1));
            }
            out.push(d);
            i += 1;
        }
        proof {
            assert(self.augmenters@.subrange(0, self.augmenters@.len() as int)
                =~= self.augmenters@);
        }
        ThreadsafeAugmenterPipeline { augmenters: out }
    }
}

impl Clone for ThreadsafeAugmenterPipeline {
    /// Cloning is the duplication operation: a deep, independent copy.
    fn clone(&self) -> (r: ThreadsafeAugmenterPipeline)
        ensures
            elems_equiv(r.augmenters@, self.augmenters@),
    {
        self.duplicate()
    }
}

impl Augmenter for PipelineElement {
    open spec fn wf(&self) -> bool {
        elem_wf(*self)
    }

    open spec fn plan_ok(&self, ops: Seq<Op>) -> bool {
        elem_plan_ok(*self, ops)
    }

    fn plan(&self) -> (r: Vec<Op>) {
        elem_plan(self)
    }
}

impl Augmenter for ThreadsafeAugmenterPipeline {
    open spec fn wf(&self) -> bool {
        elems_wf(self.augmenters@)
    }

    open spec fn plan_ok(&self, ops: Seq<Op>) -> bool {
        elems_plan_ok(self.augmenters@, ops)
    }

    fn plan(&self) -> (r: Vec<Op>) {
        elems_plan(&self.augmenters)
    }
}

impl AugmenterPipeline {
    /// Whether every stage's configuration is valid; an executable check
    /// for callers that built the pipeline outside verified code.
    pub fn is_valid(&self) -> (r: bool)
        ensures
            r == elems_wf(self.augmenters@),
    {
        elems_are_valid(&self.augmenters)
    }
}

impl Augmenter for AugmenterPipeline {
    open spec fn wf(&self) -> bool {
        elems_wf(self.augmenters@)
    }

    open spec fn plan_ok(&self, ops: Seq<Op>) -> bool {
        elems_plan_ok(self.augmenters@, ops)
    }

    fn plan(&self) -> (r: Vec<Op>) {
        elems_plan(&self.augmenters)
    }
}

} // verus!
