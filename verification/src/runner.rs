use vstd::prelude::*;
use crate::image_data::{Image, ImageView};
use crate::ops::{Op, is_direct};
use crate::service::{
    brighten, brightened, flip_horizontal, flip_vertical, flipped_horizontal, flipped_vertical,
    hue_rotated, rotate_hue,
};

verus! {

/// The image a direct transform produces, at the specification level.
/// Transforms that are not direct leave the value untouched here; a run
/// pauses at them instead (see [`PlanRun::advance`]).
pub open spec fn apply_direct_op(v: ImageView, op: Op) -> ImageView {
    match op {
        Op::FlipHorizontal => ImageView {
            width: v.width,
            height: v.height,
            pixels: flipped_horizontal(v.pixels, v.width, v.height),
        },
        Op::FlipVertical => ImageView {
            width: v.width,
            height: v.height,
            pixels: flipped_vertical(v.pixels, v.width, v.height),
        },
        Op::RotateHue { degrees } => ImageView {
            width: v.width,
            height: v.height,
            pixels: hue_rotated(v.pixels, v.width, v.height, degrees as int),
        },
        Op::Brighten { amount } => ImageView {
            width: v.width,
            height: v.height,
            pixels: brightened(v.pixels, v.width, v.height, amount as int),
        },
        Op::AdjustContrast { .. } => v,
        Op::Blur { .. } => v,
    }
}

/// The image a sequence of direct transforms produces, applied first to
/// last. The empty sequence is the identity.
pub open spec fn apply_direct_ops(v: ImageView, ops: Seq<Op>) -> ImageView
    decreases ops.len(),
{
    if ops.len() == 0 {
        v
    } else {
        apply_direct_op(apply_direct_ops(v, ops.drop_last()), ops.last())
    }
}

/// Dimension preservation: no direct transform, and hence no run of direct
/// transforms, changes the image's dimensions.
pub proof fn lemma_apply_direct_ops_dims(v: ImageView, ops: Seq<Op>)
    ensures
        apply_direct_ops(v, ops).width == v.width,
        apply_direct_ops(v, ops).height == v.height,
    decreases ops.len(),
{
    if ops.len() > 0 {
        lemma_apply_direct_ops_dims(v, ops.drop_last());
    }
}

/// The image a run ends with when the rest of its plan is direct: the
/// fold of the remaining transforms over the run's current image.
pub open spec fn remaining_direct_result(run: PlanRun) -> ImageView {
    apply_direct_ops(run.img@, run.plan@.subrange(run.pos as int, run.plan@.len() as int))
}

/// The outcome of advancing a run: either the plan is exhausted, or the
/// run waits for the caller to perform one transform whose fractional
/// parameter is out of this library's integer-only reach.
#[derive(Clone, Copy, PartialEq, Eq, Structural, Debug)]
pub enum StepOutcome {
    Finished,
    AwaitContrast { hundredths: i32 },
    AwaitBlur { sigma_hundredths: i32 },
}

/// One application of a plan to one image, in progress. Direct transforms
/// are applied by `advance`; at each awaited transform the caller performs
/// the drawn step on the current image and hands the result to `resume`.
pub struct PlanRun {
    pub plan: Vec<Op>,
    pub pos: usize,
    pub img: Image,
    pub initial: Ghost<ImageView>,
}

impl PlanRun {
    pub open spec fn wf(self) -> bool {
        &&& self.img.wf()
        &&& self.pos <= self.plan@.len()
        &&& self.img@.width == self.initial@.width
        &&& self.img@.height == self.initial@.height
    }

    /// The transform the run is waiting on, if any.
    pub open spec fn pending(self) -> Option<Op> {
        if self.pos < self.plan@.len() && !is_direct(self.plan@[self.pos as int]) {
            Some(self.plan@[self.pos as int])
        } else {
            None
        }
    }

    /// Begins applying `plan` to `img`, which the run takes over.
    pub fn start(img: Image, plan: Vec<Op>) -> (r: PlanRun)
        requires
            img.wf(),
        ensures
            r.wf(),
            r.plan@ == plan@,
            r.pos == 0,
            r.img == img,
            r.initial@ == img@,
    {
        let ghost view = img@;
        PlanRun { plan, pos: 0, img, initial: Ghost(view) }
    }

    /// Applies direct transforms in plan order until the plan ends or a
    /// transform the caller must perform comes up. The image after the
    /// call is exactly the direct transforms of the traversed plan
    /// segment, folded in order over the image before the call.
    pub fn advance(self) -> (r: (PlanRun, StepOutcome))
        requires
            self.wf(),
        ensures
            r.0.wf(),
            r.0.plan@ == self.plan@,
            r.0.initial == self.initial,
            self.pos <= r.0.pos <= r.0.plan@.len(),
            forall|j: int| self.pos <= j < r.0.pos ==> is_direct(self.plan@[j]),
            r.0.img@ == apply_direct_ops(
                self.img@,
                self.plan@.subrange(self.pos as int, r.0.pos as int),
            ),
            r.1 is Finished <==> r.0.pos == r.0.plan@.len(),
            r.1 is Finished ==> r.0.pending() is None,
            r.1 matches StepOutcome::AwaitContrast { hundredths } ==> r.0.pending() == Some(
                Op::AdjustContrast { hundredths },
            ),
            r.1 matches StepOutcome::AwaitBlur { sigma_hundredths } ==> r.0.pending() == Some(
                Op::Blur { sigma_hundredths },
            ),
    {
        let ghost init = self;
        let PlanRun { plan, mut pos, mut img, initial } = self;
        loop
            invariant
                init == self,
                img.wf(),
                plan@ == init.plan@,
                initial == init.initial,
                img@.width == init.img@.width,
                img@.height == init.img@.height,
                init.wf(),
                init.pos <= pos <= plan@.len(),
                forall|j: int| init.pos <= j < pos ==> is_direct(init.plan@[j]),
                img@ == apply_direct_ops(
                    init.img@,
                    init.plan@.subrange(init.pos as int, pos as int),
                ),
            decreases plan@.len() - pos,
        {
            if pos == plan.len() {
                return (PlanRun { plan, pos, img, initial }, StepOutcome::Finished);
            }
            let op = plan[pos];
            match op {
                Op::AdjustContrast { hundredths } => {
                    return (
                        PlanRun { plan, pos, img, initial },
                        StepOutcome::AwaitContrast { hundredths },
                    );
                },
                Op::Blur { sigma_hundredths } => {
                    return (
                        PlanRun { plan, pos, img, initial },
                        StepOutcome::AwaitBlur { sigma_hundredths },
                    );
                },
                Op::FlipHorizontal => {
                    img = flip_horizontal(img);
                },
                Op::FlipVertical => {
                    img = flip_vertical(img);
                },
                Op::RotateHue { degrees } => {
                    img = rotate_hue(img, degrees);
                },
                Op::Brighten { amount } => {
                    img = brighten(img, amount);
                },
            }
            proof {
                let seg = init.plan@.subrange(init.pos as int, pos + 1);
                assert(seg.drop_last() =~= init.plan@.subrange(init.pos as int, pos as int));
                assert(seg.last() == init.plan@[pos as int]);
            }
            pos += 1;
        }
    }

    /// Hands back the image after the caller performed the awaited
    /// transform on the run's image. Every transform of the image service
    /// preserves dimensions, so the returned image must have the same
    /// dimensions as the one handed out.
    pub fn resume(self, img: Image) -> (r: PlanRun)
        requires
            self.wf(),
            self.pending() is Some,
            img.wf(),
            img@.width == self.img@.width,
            img@.height == self.img@.height,
        ensures
            r.wf(),
            r.plan@ == self.plan@,
            r.initial == self.initial,
            r.pos == self.pos + 1,
            r.img == img,
    {
        let n = self.plan.len();
        proof {
            assert(self.pos < n);
        }
        PlanRun { plan: self.plan, pos: self.pos + 1, img, initial: self.initial }
    }

    /// The current image, for the caller to perform an awaited transform
    /// on.
    pub fn current_image(&self) -> (r: &Image)
        ensures
            r == self.img,
    {
        &self.img
    }

    /// Takes the finished image out of an exhausted run: its dimensions
    /// are those of the image the run started from.
    pub fn finish(self) -> (r: Image)
        requires
            self.wf(),
            self.pos == self.plan@.len(),
        ensures
            r == self.img,
            r.wf(),
            r@.width == self.initial@.width,
            r@.height == self.initial@.height,
    {
        self.img
    }
}

} // verus!
