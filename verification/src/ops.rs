use vstd::prelude::*;

verus! {

/// One primitive, fully determined transform of the image service: the
/// concrete step an augmenter has drawn for a single application. Fractional
/// service parameters (the contrast factor and the blur sigma) are carried
/// in hundredths of a unit.
#[derive(Clone, Copy, PartialEq, Eq, Structural, Debug)]
pub enum Op {
    /// Mirror across the vertical axis.
    FlipHorizontal,
    /// Mirror across the horizontal axis.
    FlipVertical,
    /// Adjust contrast by `hundredths / 100` of the service's contrast unit.
    AdjustContrast { hundredths: i32 },
    /// Rotate the hue of every pixel by the given number of degrees.
    RotateHue { degrees: i32 },
    /// Shift every channel of every pixel by the given amount.
    Brighten { amount: i32 },
    /// Gaussian-style smoothing with sigma `sigma_hundredths / 100`.
    Blur { sigma_hundredths: i32 },
}

/// Whether this library applies the transform itself. The two transforms
/// with fractional service parameters are applied by the embedding
/// application instead: the run of a plan pauses at each of them and hands
/// the drawn parameter out (see `runner`).
pub open spec fn is_direct(op: Op) -> bool {
    !(op is AdjustContrast || op is Blur)
}

} // verus!
