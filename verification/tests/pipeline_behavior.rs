use augmenter_pipeline::augmenters::{BlurAugmenter, ColorAugmenter, GeometricAugmenter};
use augmenter_pipeline::image_data::Image;
use augmenter_pipeline::ops::Op;
use augmenter_pipeline::pipeline::{AugmenterPipeline, PipelineElement, ThreadsafeAugmenterPipeline};
use augmenter_pipeline::runner::{PlanRun, StepOutcome};
use augmenter_pipeline::traits::Augmenter;

fn rgba_image(width: u32, height: u32, pixels: Vec<u8>) -> Image {
    Image::new(width, height, pixels).unwrap()
}

/// Performs one awaited transform with the image crate, mirroring what the
/// embedding application does.
fn perform_external(img: Image, outcome: StepOutcome) -> Image {
    let buf = image::RgbaImage::from_raw(img.width, img.height, img.pixels).unwrap();
    let dynamic = image::DynamicImage::ImageRgba8(buf);
    let done = match outcome {
        StepOutcome::AwaitContrast { hundredths } => {
            dynamic.adjust_contrast(hundredths as f32 / 100.0)
        }
        StepOutcome::AwaitBlur { sigma_hundredths } => {
            dynamic.fast_blur(sigma_hundredths as f32 / 100.0)
        }
        StepOutcome::Finished => panic!("nothing to perform"),
    };
    let (w, h) = (done.width(), done.height());
    rgba_image(w, h, done.into_rgba8().into_raw())
}

/// Runs a plan to completion, performing awaited transforms through the
/// image crate.
fn run_plan(img: Image, plan: Vec<Op>) -> Image {
    let mut run = PlanRun::start(img, plan);
    loop {
        let (next, outcome) = run.advance();
        run = next;
        match outcome {
            StepOutcome::Finished => return run.finish(),
            pending => {
                let current = run.current_image().pixels.clone();
                let handed = rgba_image(run.current_image().width, run.current_image().height, current);
                let done = perform_external(handed, pending);
                run = run.resume(done);
            }
        }
    }
}

#[test]
fn image_new_rejects_wrong_length() {
    assert!(Image::new(2, 2, vec![0u8; 15]).is_none());
    assert!(Image::new(2, 2, vec![0u8; 16]).is_some());
    assert!(Image::new(0, 5, vec![]).is_some());
}

#[test]
fn color_new_rejects_nonpositive_bounds() {
    assert!(ColorAugmenter::new(Some(0), None, None).is_err());
    assert!(ColorAugmenter::new(Some(-3), Some(10), Some(10)).is_err());
    assert!(ColorAugmenter::new(Some(10), Some(0), Some(10)).is_err());
    assert!(ColorAugmenter::new(Some(10), Some(10), Some(-1)).is_err());
}

#[test]
fn color_new_accepts_positive_bounds() {
    assert!(ColorAugmenter::new(Some(10), Some(10), Some(10)).is_ok());
    assert!(ColorAugmenter::new(None, None, None).is_ok());
    assert!(ColorAugmenter::new(None, Some(1), None).is_ok());
}

#[test]
fn blur_new_rejects_nonpositive_bound() {
    assert!(BlurAugmenter::new(0).is_err());
    assert!(BlurAugmenter::new(-300).is_err());
}

#[test]
fn blur_new_accepts_positive_bound() {
    assert!(BlurAugmenter::new(300).is_ok());
}

#[test]
fn geometric_plan_is_one_of_four_shapes() {
    let g = GeometricAugmenter;
    for _ in 0..64 {
        let plan = g.plan();
        let ok = plan == vec![]
            || plan == vec![Op::FlipVertical]
            || plan == vec![Op::FlipHorizontal]
            || plan == vec![Op::FlipVertical, Op::FlipHorizontal];
        assert!(ok, "unexpected geometric plan {plan:?}");
    }
}

#[test]
fn color_plan_order_and_ranges() {
    let c = ColorAugmenter::new(Some(25), Some(10), Some(7)).unwrap();
    for _ in 0..64 {
        let plan = c.plan();
        assert_eq!(plan.len(), 3);
        match plan[0] {
            Op::AdjustContrast { hundredths } => assert!(-25 <= hundredths && hundredths <= 25),
            other => panic!("expected contrast first, got {other:?}"),
        }
        match plan[1] {
            Op::RotateHue { degrees } => assert!(-10 <= degrees && degrees <= 10),
            other => panic!("expected hue second, got {other:?}"),
        }
        match plan[2] {
            Op::Brighten { amount } => assert!(-7 <= amount && amount <= 7),
            other => panic!("expected brightness third, got {other:?}"),
        }
    }
}

#[test]
fn color_plan_skips_disabled_components() {
    let c = ColorAugmenter::new(None, Some(5), None).unwrap();
    for _ in 0..16 {
        let plan = c.plan();
        assert_eq!(plan.len(), 1);
        assert!(matches!(plan[0], Op::RotateHue { .. }));
    }
}

#[test]
fn blur_plan_draws_in_range() {
    let b = BlurAugmenter::new(250).unwrap();
    for _ in 0..64 {
        let plan = b.plan();
        assert_eq!(plan.len(), 1);
        match plan[0] {
            Op::Blur { sigma_hundredths } => {
                assert!(0 <= sigma_hundredths && sigma_hundredths <= 250)
            }
            other => panic!("expected blur, got {other:?}"),
        }
    }
}

#[test]
fn empty_pipeline_is_identity() {
    let p = ThreadsafeAugmenterPipeline { augmenters: vec![] };
    let plan = p.plan();
    assert!(plan.is_empty());
    let img = rgba_image(2, 1, vec![1, 2, 3, 255, 4, 5, 6, 255]);
    let out = run_plan(img, plan);
    assert_eq!(out.width, 2);
    assert_eq!(out.height, 1);
    assert_eq!(out.pixels, vec![1, 2, 3, 255, 4, 5, 6, 255]);
}

#[test]
fn flip_horizontal_swaps_columns() {
    let img = rgba_image(2, 1, vec![10, 20, 30, 255, 40, 50, 60, 255]);
    let out = run_plan(img, vec![Op::FlipHorizontal]);
    assert_eq!(out.pixels, vec![40, 50, 60, 255, 10, 20, 30, 255]);
}

#[test]
fn flip_vertical_swaps_rows() {
    let img = rgba_image(1, 2, vec![10, 20, 30, 255, 40, 50, 60, 255]);
    let out = run_plan(img, vec![Op::FlipVertical]);
    assert_eq!(out.pixels, vec![40, 50, 60, 255, 10, 20, 30, 255]);
}

#[test]
fn brighten_shifts_channels() {
    let img = rgba_image(1, 1, vec![100, 100, 100, 255]);
    let out = run_plan(img, vec![Op::Brighten { amount: 10 }]);
    assert_eq!(out.pixels, vec![110, 110, 110, 255]);
}

#[test]
fn rotate_hue_changes_pixels_and_keeps_dimensions() {
    let img = rgba_image(1, 1, vec![255, 0, 0, 255]);
    let out = run_plan(img, vec![Op::RotateHue { degrees: 180 }]);
    assert_eq!((out.width, out.height), (1, 1));
    assert_ne!(out.pixels, vec![255, 0, 0, 255]);
}

#[test]
fn order_of_augmenters_matters() {
    let pixels = vec![200, 30, 30, 255, 20, 180, 60, 255, 5, 5, 250, 255, 120, 120, 120, 255];
    let a = Op::AdjustContrast { hundredths: 5000 };
    let b = Op::RotateHue { degrees: 90 };
    let first = run_plan(rgba_image(2, 2, pixels.clone()), vec![a, b]);
    let second = run_plan(rgba_image(2, 2, pixels), vec![b, a]);
    assert_eq!((first.width, first.height), (2, 2));
    assert_eq!((second.width, second.height), (2, 2));
    assert_ne!(first.pixels, second.pixels, "the two orders agreed on every pixel");
}

#[test]
fn dimensions_preserved_through_composed_pipeline() {
    let color = ColorAugmenter::new(Some(10), Some(15), Some(10)).unwrap();
    let blur = BlurAugmenter::new(150).unwrap();
    let base = ThreadsafeAugmenterPipeline {
        augmenters: vec![
            PipelineElement::Geometric(GeometricAugmenter),
            PipelineElement::Color(color),
            PipelineElement::Blur(blur),
        ],
    };
    let nested = ThreadsafeAugmenterPipeline {
        augmenters: vec![
            PipelineElement::Nested(Box::new(base.clone())),
            PipelineElement::Nested(Box::new(base)),
        ],
    };
    let img = rgba_image(3, 2, vec![7u8; 24]);
    let out = run_plan(img, nested.plan());
    assert_eq!((out.width, out.height), (3, 2));
    assert_eq!(out.pixels.len(), 24);
}

#[test]
fn nonduplicable_pipeline_applies_in_order() {
    let p = AugmenterPipeline {
        augmenters: vec![PipelineElement::Geometric(GeometricAugmenter)],
    };
    let plan = p.plan();
    assert!(plan.len() <= 2);
    let img = rgba_image(2, 2, vec![9u8; 16]);
    let out = run_plan(img, plan);
    assert_eq!((out.width, out.height), (2, 2));
}

#[test]
fn duplicate_is_independent_and_behaves_alike() {
    let color = ColorAugmenter::new(Some(10), Some(15), Some(10)).unwrap();
    let blur = BlurAugmenter::new(150).unwrap();
    let original = ThreadsafeAugmenterPipeline {
        augmenters: vec![PipelineElement::Color(color), PipelineElement::Blur(blur)],
    };
    let duplicate = original.clone();
    // Both draw plans of the shape the shared configuration dictates.
    assert_eq!(original.plan().len(), 4);
    assert_eq!(duplicate.plan().len(), 4);
    // Running both on their own images raises no error and preserves
    // dimensions independently.
    let out_a = run_plan(rgba_image(2, 2, vec![50u8; 16]), original.plan());
    let out_b = run_plan(rgba_image(1, 2, vec![80u8; 8]), duplicate.plan());
    assert_eq!((out_a.width, out_a.height), (2, 2));
    assert_eq!((out_b.width, out_b.height), (1, 2));
}

#[test]
fn image_duplicate_is_equal_and_independent() {
    let img = rgba_image(1, 1, vec![9, 8, 7, 255]);
    let copy = img.duplicate();
    assert_eq!(copy.pixels, img.pixels);
    assert_eq!((copy.width, copy.height), (1, 1));
    drop(img);
    assert_eq!(copy.pixels, vec![9, 8, 7, 255]);
}
