use augmenter_pipeline::augmenters::{BlurAugmenter, ColorAugmenter, GeometricAugmenter};
use augmenter_pipeline::engine::{
    assign_jobs, begin_job, finish_job, spawn_workers, EngineRun, EngineStep, JobArtifact,
};
use augmenter_pipeline::image_data::Image;
use augmenter_pipeline::pipeline::{PipelineElement, ThreadsafeAugmenterPipeline};
use augmenter_pipeline::runner::StepOutcome;

fn direct_only_pipeline() -> ThreadsafeAugmenterPipeline {
    let color = ColorAugmenter::new(None, Some(20), Some(10)).unwrap();
    ThreadsafeAugmenterPipeline {
        augmenters: vec![
            PipelineElement::Geometric(GeometricAugmenter),
            PipelineElement::Color(color),
        ],
    }
}

fn tiny_image() -> Image {
    Image::new(1, 1, vec![120, 140, 160, 255]).unwrap()
}

/// Processes `n_jobs` distinct jobs over a pool of `n_workers` workers and
/// returns the artifacts and the number of pipeline duplications.
fn process_all(n_jobs: usize, n_workers: usize) -> (Vec<JobArtifact>, usize) {
    let prototype = direct_only_pipeline();
    let (mut workers, duplications) = spawn_workers(&prototype, n_workers);
    let chunks = assign_jobs(n_jobs, n_workers);
    assert_eq!(workers.len(), chunks.len());
    let mut artifacts = Vec::new();
    for (worker, chunk) in workers.iter_mut().zip(chunks) {
        for index in chunk {
            let run = begin_job(worker, tiny_image());
            let (run, outcome) = run.advance();
            assert!(matches!(outcome, StepOutcome::Finished));
            let img = run.finish();
            artifacts.push(finish_job(worker, index, &img).unwrap());
        }
    }
    (artifacts, duplications)
}

fn assert_complete(artifacts: &[JobArtifact], n_jobs: usize) {
    assert_eq!(artifacts.len(), n_jobs);
    let mut seen = vec![false; n_jobs];
    for artifact in artifacts {
        assert!(artifact.index < n_jobs);
        assert!(!seen[artifact.index], "index {} persisted twice", artifact.index);
        seen[artifact.index] = true;
        assert!(!artifact.bytes.is_empty());
    }
    assert!(seen.iter().all(|s| *s), "an index is missing");
}

#[test]
fn thousand_jobs_complete_with_one_worker() {
    let (artifacts, _) = process_all(1000, 1);
    assert_complete(&artifacts, 1000);
}

#[test]
fn thousand_jobs_complete_with_four_workers() {
    let (artifacts, _) = process_all(1000, 4);
    assert_complete(&artifacts, 1000);
}

#[test]
fn thousand_jobs_complete_with_sixteen_workers() {
    let (artifacts, _) = process_all(1000, 16);
    assert_complete(&artifacts, 1000);
}

#[test]
fn duplications_equal_workers_not_jobs() {
    let (artifacts, duplications) = process_all(1000, 4);
    assert_eq!(artifacts.len(), 1000);
    assert_eq!(duplications, 4);
    let (_, duplications) = process_all(200, 16);
    assert_eq!(duplications, 16);
}

#[test]
fn assign_jobs_partitions_indices_exactly() {
    for workers in [1usize, 3, 7, 16] {
        for jobs in [0usize, 1, 5, 16, 100] {
            let chunks = assign_jobs(jobs, workers);
            assert_eq!(chunks.len(), workers);
            let flat: Vec<usize> = chunks.into_iter().flatten().collect();
            let expected: Vec<usize> = (0..jobs).collect();
            assert_eq!(flat, expected);
        }
    }
}

#[test]
fn encoded_artifact_decodes_back_to_the_image() {
    let prototype = ThreadsafeAugmenterPipeline { augmenters: vec![] };
    let (mut workers, _) = spawn_workers(&prototype, 1);
    let img = Image::new(2, 2, vec![
        10, 20, 30, 255, 40, 50, 60, 255, 70, 80, 90, 255, 100, 110, 120, 255,
    ])
    .unwrap();
    let artifact = finish_job(&mut workers[0], 7, &img).unwrap();
    assert_eq!(artifact.index, 7);
    let decoded = image::load_from_memory(&artifact.bytes).unwrap().into_rgba8();
    assert_eq!(decoded.dimensions(), (2, 2));
    assert_eq!(decoded.into_raw(), img.pixels);
}

#[test]
fn scratch_buffer_is_reused_across_jobs() {
    let prototype = ThreadsafeAugmenterPipeline { augmenters: vec![] };
    let (mut workers, _) = spawn_workers(&prototype, 1);
    let img_a = Image::new(1, 1, vec![1, 2, 3, 255]).unwrap();
    let img_b = Image::new(1, 1, vec![200, 150, 100, 255]).unwrap();
    let first = finish_job(&mut workers[0], 0, &img_a).unwrap();
    let second = finish_job(&mut workers[0], 1, &img_b).unwrap();
    // The second job's bytes describe the second image only: the buffer was
    // cleared, not appended to.
    let decoded = image::load_from_memory(&second.bytes).unwrap().into_rgba8();
    assert_eq!(decoded.into_raw(), img_b.pixels);
    assert_ne!(first.bytes, second.bytes);
}

/// Performs one awaited transform with the image crate, as the embedding
/// application does.
fn perform_awaited(img: Image, hundredths: Option<i32>, sigma_hundredths: Option<i32>) -> Image {
    let buf = image::RgbaImage::from_raw(img.width, img.height, img.pixels).unwrap();
    let dynamic = image::DynamicImage::ImageRgba8(buf);
    let done = match (hundredths, sigma_hundredths) {
        (Some(c), None) => dynamic.adjust_contrast(c as f32 / 100.0),
        (None, Some(s)) => dynamic.fast_blur(s as f32 / 100.0),
        _ => unreachable!(),
    };
    let (w, h) = (done.width(), done.height());
    Image::new(w, h, done.into_rgba8().into_raw()).unwrap()
}

#[test]
fn engine_run_yields_one_result_per_index() {
    let color = ColorAugmenter::new(Some(10), Some(10), Some(10)).unwrap();
    let blur = BlurAugmenter::new(120).unwrap();
    let prototype = ThreadsafeAugmenterPipeline {
        augmenters: vec![
            PipelineElement::Geometric(GeometricAugmenter),
            PipelineElement::Color(color),
            PipelineElement::Blur(blur),
        ],
    };
    let images: Vec<Image> = (0..50).map(|_| tiny_image()).collect();
    let mut engine = EngineRun::new(&prototype, images, 4);
    loop {
        let (next, step) = engine.step();
        engine = next;
        let (hundredths, sigma) = match step {
            EngineStep::Done => break,
            EngineStep::Progressed => continue,
            EngineStep::NeedContrast { hundredths } => (Some(hundredths), None),
            EngineStep::NeedBlur { sigma_hundredths } => (None, Some(sigma_hundredths)),
        };
        let img = engine.awaiting_image();
        let handed = Image::new(img.width, img.height, img.pixels.clone()).unwrap();
        let done = perform_awaited(handed, hundredths, sigma);
        engine = engine.provide(done);
    }
    let (results, duplications) = engine.into_results();
    assert_eq!(duplications, 4);
    assert_eq!(results.len(), 50);
    for (k, res) in results.iter().enumerate() {
        match res {
            Ok(artifact) => assert_eq!(artifact.index, k),
            Err(failure) => assert_eq!(failure.index, k),
        }
    }
}

#[test]
fn engine_run_handles_zero_jobs_and_many_workers() {
    let prototype = ThreadsafeAugmenterPipeline { augmenters: vec![] };
    let engine = EngineRun::new(&prototype, vec![], 8);
    let (engine, step) = engine.step();
    assert!(matches!(step, EngineStep::Done));
    let (results, duplications) = engine.into_results();
    assert!(results.is_empty());
    assert_eq!(duplications, 8);
}

#[test]
fn encode_failure_is_reported_under_the_job_index() {
    let prototype = ThreadsafeAugmenterPipeline { augmenters: vec![] };
    let (mut workers, _) = spawn_workers(&prototype, 1);
    let img = Image::new(0, 0, vec![]).unwrap();
    match finish_job(&mut workers[0], 3, &img) {
        Err(failure) => assert_eq!(failure.index, 3),
        Ok(_) => panic!("encoding a zero-sized bitmap unexpectedly succeeded"),
    }
}
