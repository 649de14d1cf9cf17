use vstd::prelude::*;
use crate::ops::Op;
use crate::service::{random_coin, random_in_range};
use crate::traits::Augmenter;

verus! {

/// A configuration parameter violated its precondition; raised at
/// construction time, before any job runs.
#[derive(Clone, Copy, PartialEq, Eq, Structural, Debug)]
pub struct ConstructionError;

/// Horizontal / vertical flips: with probability one half, independently
/// per axis, mirrors the image across that axis.
#[derive(Clone, Copy)]
pub struct GeometricAugmenter;

/// The transform sequences a geometric augmenter can draw: first an
/// optional vertical flip, then an optional horizontal flip.
pub open spec fn geometric_plan_ok(ops: Seq<Op>) -> bool {
    ||| ops == Seq::<Op>::empty()
    ||| ops == seq![Op::FlipVertical]
    ||| ops == seq![Op::FlipHorizontal]
    ||| ops == seq![Op::FlipVertical, Op::FlipHorizontal]
}

impl Augmenter for GeometricAugmenter {
    open spec fn wf(&self) -> bool {
        true
    }

    open spec fn plan_ok(&self, ops: Seq<Op>) -> bool {
        geometric_plan_ok(ops)
    }

    fn plan(&self) -> (r: Vec<Op>) {
        let mut ops: Vec<Op> = Vec::new();
        if random_coin() {
            ops.push(Op::FlipVertical);
        }
        if random_coin() {
            ops.push(Op::FlipHorizontal);
        }
        proof {
            assert(geometric_plan_ok(ops@)) by {
                if ops@.len() == 0 {
                    assert(ops@ =~= Seq::<Op>::empty());
                } else if ops@.len() == 1 && ops@[0] == Op::FlipVertical {
                    assert(ops@ =~= seq![Op::FlipVertical]);
                } else if ops@.len() == 1 {
                    assert(ops@ =~= seq![Op::FlipHorizontal]);
                } else {
                    assert(ops@ =~= seq![Op::FlipVertical, Op::FlipHorizontal]);
                }
            }
        }
        ops
    }
}

/// Optional independent color perturbations. Each enabled component stores
/// a positive bound; a disabled component is skipped entirely, not drawn as
/// a zero-magnitude transform. The contrast bound is in hundredths of the
/// image service's contrast unit; hue is in degrees; brightness in channel
/// units.
#[derive(Clone, Copy)]
pub struct ColorAugmenter {
    pub contrast: Option<i32>,
    pub hue: Option<i32>,
    pub brightness: Option<i32>,
}

impl ColorAugmenter {
    /// Every enabled bound is strictly positive.
    pub open spec fn valid(self) -> bool {
        &&& (self.contrast matches Some(c) ==> c > 0)
        &&& (self.hue matches Some(h) ==> h > 0)
        &&& (self.brightness matches Some(b) ==> b > 0)
    }

    /// Executable twin of [`ColorAugmenter::valid`].
    pub fn is_valid(&self) -> (r: bool)
        ensures
            r == self.valid(),
    {
        let contrast_ok = match self.contrast {
            Some(c) => c > 0,
            None => true,
        };
        let hue_ok = match self.hue {
            Some(h) => h > 0,
            None => true,
        };
        let brightness_ok = match self.brightness {
            Some(b) => b > 0,
            None => true,
        };
        contrast_ok && hue_ok && brightness_ok
    }

    /// Validates the three optional bounds eagerly: a non-positive bound is
    /// rejected here, never at apply time.
    pub fn new(contrast: Option<i32>, hue: Option<i32>, brightness: Option<i32>) -> (r: Result<
        ColorAugmenter,
        ConstructionError,
    >)
        ensures
            r is Ok <==> ((contrast matches Some(c) ==> c > 0) && (hue matches Some(h) ==> h > 0)
                && (brightness matches Some(b) ==> b > 0)),
            r matches Ok(a) ==> a == (ColorAugmenter { contrast, hue, brightness }),
    {
        let contrast_ok = match contrast {
            Some(c) => c > 0,
            None => true,
        };
        let hue_ok = match hue {
            Some(h) => h > 0,
            None => true,
        };
        let brightness_ok = match brightness {
            Some(b) => b > 0,
            None => true,
        };
        if contrast_ok && hue_ok && brightness_ok {
            Ok(ColorAugmenter { contrast, hue, brightness })
        } else {
            Err(ConstructionError)
        }
    }
}

/// The transform sequences a color augmenter can draw: one transform per
/// enabled component, in the order contrast, hue, brightness, each with a
/// magnitude drawn from the symmetric range its bound spans.
pub open spec fn color_plan_ok(a: ColorAugmenter, ops: Seq<Op>) -> bool {
    let n1: int = if a.contrast is Some {
        1
    } else {
        0
    };
    let n2: int = if a.hue is Some {
        1
    } else {
        0
    };
    let n3: int = if a.brightness is Some {
        1
    } else {
        0
    };
    &&& ops.len() == n1 + n2 + n3
    &&& (a.contrast matches Some(c) ==> (ops[0] matches Op::AdjustContrast { hundredths } && -c
        <= hundredths <= c))
    &&& (a.hue matches Some(h) ==> (ops[n1] matches Op::RotateHue { degrees } && -h <= degrees
        <= h))
    &&& (a.brightness matches Some(b) ==> (ops[n1 + n2] matches Op::Brighten { amount } && -b
        <= amount <= b))
}

impl Augmenter for ColorAugmenter {
    open spec fn wf(&self) -> bool {
        self.valid()
    }

    open spec fn plan_ok(&self, ops: Seq<Op>) -> bool {
        color_plan_ok(*self, ops)
    }

    fn plan(&self) -> (r: Vec<Op>) {
        let mut ops: Vec<Op> = Vec::new();
        if let Some(c) = self.contrast {
            let hundredths = random_in_range(-c, c);
            ops.push(Op::AdjustContrast { hundredths });
        }
        if let Some(h) = self.hue {
            let degrees = random_in_range(-h, h);
            ops.push(Op::RotateHue { degrees });
        }
        if let Some(b) = self.brightness {
            let amount = random_in_range(-b, b);
            ops.push(Op::Brighten { amount });
        }
        ops
    }
}

/// Smoothing with a sigma drawn uniformly from zero up to a positive bound,
/// in hundredths of the image service's sigma unit.
#[derive(Clone, Copy)]
pub struct BlurAugmenter {
    pub max_sigma_hundredths: i32,
}

impl BlurAugmenter {
    pub open spec fn valid(self) -> bool {
        self.max_sigma_hundredths > 0
    }

    /// Executable twin of [`BlurAugmenter::valid`].
    pub fn is_valid(&self) -> (r: bool)
        ensures
            r == self.valid(),
    {
        self.max_sigma_hundredths > 0
    }

    /// Validates the bound eagerly: a non-positive maximum sigma is
    /// rejected here, never at apply time.
    pub fn new(max_sigma_hundredths: i32) -> (r: Result<BlurAugmenter, ConstructionError>)
        ensures
            r is Ok <==> max_sigma_hundredths > 0,
            r matches Ok(a) ==> a == (BlurAugmenter { max_sigma_hundredths }),
    {
        if max_sigma_hundredths > 0 {
            Ok(BlurAugmenter { max_sigma_hundredths })
        } else {
            Err(ConstructionError)
        }
    }
}

/// The transform sequences a blur augmenter can draw: exactly one blur,
/// with a sigma between zero and the configured bound.
pub open spec fn blur_plan_ok(a: BlurAugmenter, ops: Seq<Op>) -> bool {
    &&& ops.len() == 1
    &&& (ops[0] matches Op::Blur { sigma_hundredths } && 0 <= sigma_hundredths
        <= a.max_sigma_hundredths)
}

impl Augmenter for BlurAugmenter {
    open spec fn wf(&self) -> bool {
        self.valid()
    }

    open spec fn plan_ok(&self, ops: Seq<Op>) -> bool {
        blur_plan_ok(*self, ops)
    }

    fn plan(&self) -> (r: Vec<Op>) {
        let sigma_hundredths = random_in_range(0, self.max_sigma_hundredths);
        let mut ops: Vec<Op> = Vec::new();
        ops.push(Op::Blur { sigma_hundredths });
        ops
    }
}

} // verus!
