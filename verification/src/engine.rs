use vstd::prelude::*;
use crate::image_data::Image;
use crate::ops::Op;
use crate::pipeline::{
    ThreadsafeAugmenterPipeline, elems_equiv, elems_plan_ok, elems_wf, lemma_equiv_same_plans,
};
use crate::ops::is_direct;
use crate::runner::{PlanRun, StepOutcome, remaining_direct_result};
use crate::service::{encode_png, png_encoded};
use crate::traits::Augmenter;

verus! {

/// The private, reusable bundle one pool worker owns: its own duplicate of
/// the pipeline, and a scratch buffer for encoding that is cleared and
/// reused — not reallocated — between the jobs the worker processes.
pub struct WorkerState {
    pub pipeline: ThreadsafeAugmenterPipeline,
    pub scratch: Vec<u8>,
}

/// One finished job's output, keyed by the job's stable index.
#[derive(Debug)]
pub struct JobArtifact {
    pub index: usize,
    pub bytes: Vec<u8>,
}

/// A job's failure, reported — not silently dropped — under the job's
/// index; other jobs are unaffected.
#[derive(Clone, Copy, PartialEq, Eq, Structural, Debug)]
pub struct JobError {
    pub index: usize,
}

/// Creates the per-worker states of a pool from one prototype pipeline:
/// each worker gets its own deep duplicate and a fresh, empty scratch
/// buffer. The second result is the number of duplications performed,
/// which equals the worker count — the prototype is duplicated once per
/// worker at pool setup, never per job.
pub fn spawn_workers(prototype: &ThreadsafeAugmenterPipeline, n_workers: usize) -> (r: (
    Vec<WorkerState>,
    usize,
))
    ensures
        r.0@.len() == n_workers,
        forall|i: int|
            0 <= i < n_workers ==> elems_equiv(
                (#[trigger] r.0@[i]).pipeline.augmenters@,
                prototype.augmenters@,
            ) && r.0@[i].scratch@.len() == 0,
        r.1 == n_workers,
{
    let mut workers: Vec<WorkerState> = Vec::new();
    let mut duplications: usize = 0;
    let mut i: usize = 0;
    while i < n_workers
        invariant
            0 <= i <= n_workers,
            workers@.len() == i,
            duplications == i,
            forall|j: int|
                0 <= j < i ==> elems_equiv(
                    (#[trigger] workers@[j]).pipeline.augmenters@,
                    prototype.augmenters@,
                ) && workers@[j].scratch@.len() == 0,
        decreases n_workers - i,
    {
        let copy = prototype.duplicate();
        duplications = duplications + 1;
        workers.push(WorkerState { pipeline: copy, scratch: Vec::new() });
        i += 1;
    }
    (workers, duplications)
}

/// Splits the job indices `0 .. n_jobs` into one contiguous chunk per
/// worker: concatenated in order, the chunks are exactly the indices
/// `0 .. n_jobs`, so every job is assigned to exactly one worker — none is
/// dropped, none is duplicated.
pub fn assign_jobs(n_jobs: usize, n_workers: usize) -> (r: Vec<Vec<usize>>)
    requires
        1 <= n_workers,
    ensures
        r@.len() == n_workers,
        r@.map_values(|chunk: Vec<usize>| chunk@).flatten() == Seq::new(
            n_jobs as nat,
            |i: int| i as usize,
        ),
{
    let mut chunks: Vec<Vec<usize>> = Vec::new();
    let mut next: usize = 0;
    let mut w: usize = 0;
    while w < n_workers
        invariant
            0 <= w <= n_workers,
            next <= n_jobs,
            w == n_workers ==> next == n_jobs,
            chunks@.len() == w,
            chunks@.map_values(|chunk: Vec<usize>| chunk@).flatten() == Seq::new(
                next as nat,
                |i: int| i as usize,
            ),
        decreases n_workers - w,
    {
        let remaining = n_jobs - next;
        let remaining_workers = n_workers - w;
        proof {
            let r_i = remaining as int;
            let rw_i = remaining_workers as int;
            vstd::arithmetic::div_mod::lemma_fundamental_div_mod(r_i, rw_i);
            vstd::arithmetic::div_mod::lemma_mod_division_less_than_divisor(r_i, rw_i);
            vstd::arithmetic::div_mod::lemma_div_pos_is_pos(r_i, rw_i);
            let b = r_i / rw_i;
            assert(rw_i * b >= b) by (nonlinear_arith)
                requires
                    b >= 0,
                    rw_i >= 1,
            ;
        }
        let base = remaining / remaining_workers;
        let take = if remaining % remaining_workers != 0 {
            base + 1
        } else {
            base
        };
        proof {
            assert(take <= remaining);
            assert(remaining_workers == 1 ==> take == remaining);
        }
        let mut chunk: Vec<usize> = Vec::new();
        let mut j: usize = 0;
        while j < take
            invariant
                0 <= j <= take,
                next + take <= n_jobs,
                chunk@ == Seq::new(j as nat, |k: int| (next + k) as usize),
            decreases take - j,
        {
            chunk.push(next + j);
            proof {
                assert(chunk@ =~= Seq::new((j + 1) as nat, |k: int| (next + k) as usize));
            }
            j += 1;
        }
        proof {
            let to_seq = |c: Vec<usize>| c@;
            chunks@.map_values(to_seq).lemma_flatten_push(chunk@);
            assert(chunks@.push(chunk).map_values(to_seq) =~= chunks@.map_values(to_seq).push(
                chunk@,
            ));
            assert(chunks@.map_values(to_seq).flatten() + chunk@ =~= Seq::new(
                (next + take) as nat,
                |i: int| i as usize,
            ));
        }
        chunks.push(chunk);
        next = next + take;
        w += 1;
    }
    chunks
}

/// Starts one job on a worker: draws a plan from the worker's own private
/// pipeline — no duplication happens per job — and begins running it on
/// the job's image.
pub fn begin_job(worker: &WorkerState, img: Image) -> (r: PlanRun)
    requires
        elems_wf(worker.pipeline.augmenters@),
        img.wf(),
    ensures
        r.wf(),
        elems_plan_ok(worker.pipeline.augmenters@, r.plan@),
        r.pos == 0,
        r.img == img,
        r.initial@ == img@,
{
    let plan = worker.pipeline.plan();
    PlanRun::start(img, plan)
}

/// An independent copy of a byte buffer.
fn copy_bytes(src: &Vec<u8>) -> (r: Vec<u8>)
    ensures
        r@ == src@,
{
    let mut out: Vec<u8> = Vec::new();
    let mut i: usize = 0;
    while i < src.len()
        invariant
            0 <= i <= src@.len(),
            out@ == src@.subrange(0, i as int),
        decreases src@.len() - i,
    {
        out.push(src[i]);
        proof {
            assert(out@ =~= src@.subrange(0, i + 1));
        }
        i += 1;
    }
    proof {
        assert(out@ =~= src@);
    }
    out
}

/// Completes one job on a worker: encodes the processed image into the
/// worker's scratch buffer — cleared and reused, not reallocated, between
/// jobs — and returns the PNG bytes keyed by the job's index. The artifact
/// carries its own copy of the bytes so that it can outlive the worker;
/// the scratch keeps its capacity for the next job. Encoding fails exactly
/// when the image has zero width or height; such a failure is isolated: it
/// is reported under this job's index and leaves the worker's pipeline
/// untouched, so no other job is affected and no duplication is
/// triggered.
pub fn finish_job(worker: &mut WorkerState, index: usize, img: &Image) -> (r: Result<
    JobArtifact,
    JobError,
>)
    requires
        img.wf(),
    ensures
        final(worker).pipeline == old(worker).pipeline,
        r is Ok ==> img@.width > 0 && img@.height > 0,
        r is Err ==> img@.width == 0 || img@.height == 0,
        r matches Ok(a) ==> a.index == index && a.bytes@ == png_encoded(
            img@.pixels,
            img@.width,
            img@.height,
        ),
        r matches Err(e) ==> e.index == index,
{
    worker.scratch.clear();
    match encode_png(img, &mut worker.scratch) {
        Ok(()) => {
            let bytes = copy_bytes(&worker.scratch);
            Ok(JobArtifact { index, bytes })
        },
        Err(()) => Err(JobError { index }),
    }
}

} // verus!

verus! {

/// The job index a result is keyed by, whether the job succeeded or
/// failed.
pub open spec fn result_index(r: Result<JobArtifact, JobError>) -> int {
    match r {
        Ok(a) => a.index as int,
        Err(e) => e.index as int,
    }
}

/// The number of jobs assigned to the first `k` workers.
pub open spec fn sum_prefix(sizes: Seq<usize>, k: int) -> int
    decreases k,
{
    if k <= 0 {
        0
    } else {
        sum_prefix(sizes, k - 1) + sizes[k - 1]
    }
}

/// Skips workers whose share is exhausted (or empty), keeping the
/// bookkeeping equation between jobs done and worker shares.
fn advance_worker(
    sizes: &Vec<usize>,
    w: usize,
    done_in_worker: usize,
    done_total: usize,
    n_jobs: usize,
) -> (r: (usize, usize))
    requires
        w <= sizes@.len(),
        w < sizes@.len() ==> done_in_worker <= sizes@[w as int],
        w == sizes@.len() ==> done_in_worker == 0,
        done_total == sum_prefix(sizes@, w as int) + done_in_worker,
        sum_prefix(sizes@, sizes@.len() as int) == n_jobs,
        done_total <= n_jobs,
    ensures
        r.0 <= sizes@.len(),
        done_total == sum_prefix(sizes@, r.0 as int) + r.1,
        r.0 < sizes@.len() ==> r.1 < sizes@[r.0 as int],
        r.0 == sizes@.len() ==> r.1 == 0 && done_total == n_jobs,
{
    let mut w = w;
    let mut done_in_worker = done_in_worker;
    while w < sizes.len() && done_in_worker == sizes[w]
        invariant
            w <= sizes@.len(),
            w < sizes@.len() ==> done_in_worker <= sizes@[w as int],
            w == sizes@.len() ==> done_in_worker == 0,
            done_total == sum_prefix(sizes@, w as int) + done_in_worker,
            sum_prefix(sizes@, sizes@.len() as int) == n_jobs,
            done_total <= n_jobs,
        decreases sizes@.len() - w,
    {
        proof {
            assert(sum_prefix(sizes@, w + 1) == sum_prefix(sizes@, w as int) + sizes@[w as int]);
        }
        w += 1;
        done_in_worker = 0;
    }
    (w, done_in_worker)
}

/// Computes each worker's share of `n_jobs` jobs: every worker gets the
/// remaining jobs divided by the remaining workers, rounded up, so the
/// shares sum to exactly `n_jobs`.
fn worker_shares(n_jobs: usize, n_workers: usize) -> (r: Vec<usize>)
    requires
        1 <= n_workers,
    ensures
        r@.len() == n_workers,
        sum_prefix(r@, r@.len() as int) == n_jobs,
{
    let mut sizes: Vec<usize> = Vec::new();
    let mut next: usize = 0;
    let mut w: usize = 0;
    while w < n_workers
        invariant
            0 <= w <= n_workers,
            next <= n_jobs,
            w == n_workers ==> next == n_jobs,
            sizes@.len() == w,
            sum_prefix(sizes@, w as int) == next,
        decreases n_workers - w,
    {
        let remaining = n_jobs - next;
        let remaining_workers = n_workers - w;
        proof {
            let r_i = remaining as int;
            let rw_i = remaining_workers as int;
            vstd::arithmetic::div_mod::lemma_fundamental_div_mod(r_i, rw_i);
            vstd::arithmetic::div_mod::lemma_mod_division_less_than_divisor(r_i, rw_i);
            vstd::arithmetic::div_mod::lemma_div_pos_is_pos(r_i, rw_i);
            vstd::arithmetic::div_mod::lemma_div_basics(r_i);
            let b = r_i / rw_i;
            assert(rw_i * b >= b) by (nonlinear_arith)
                requires
                    b >= 0,
                    rw_i >= 1,
            ;
        }
        let base = remaining / remaining_workers;
        let take = if remaining % remaining_workers != 0 {
            base + 1
        } else {
            base
        };
        proof {
            assert(take <= remaining);
            assert(remaining_workers == 1 ==> take == remaining);
            let s = sizes@.push(take);
            assert(s.len() == w + 1);
            assert(s[w as int] == take);
            assert(sum_prefix(s, w as int + 1) == sum_prefix(s, w as int) + s[w as int]);
            lemma_sum_prefix_agree(sizes@, s, w as int);
        }
        sizes.push(take);
        next = next + take;
        w += 1;
    }
    sizes
}

/// Share sequences that agree on a prefix have the same prefix sums.
pub proof fn lemma_sum_prefix_agree(a: Seq<usize>, b: Seq<usize>, k: int)
    requires
        0 <= k <= a.len(),
        k <= b.len(),
        forall|i: int| 0 <= i < k ==> a[i] == b[i],
    ensures
        sum_prefix(a, k) == sum_prefix(b, k),
    decreases k,
{
    if k > 0 {
        lemma_sum_prefix_agree(a, b, k - 1);
    }
}

} // verus!

verus! {

/// What one step of a sequential engine run did: finished everything,
/// made progress, or stopped at a transform the caller must perform on the
/// awaited image (see [`EngineRun::awaiting_image`] and
/// [`EngineRun::provide`]).
#[derive(Clone, Copy, PartialEq, Eq, Structural, Debug)]
pub enum EngineStep {
    Done,
    Progressed,
    NeedContrast { hundredths: i32 },
    NeedBlur { sigma_hundredths: i32 },
}

/// A sequential run of the execution engine over `n_jobs` independent
/// jobs: the verified model of the worker pool's contract. The prototype
/// is duplicated exactly once per worker at setup; jobs are processed in
/// index order on their assigned worker's private state; every job ends in
/// exactly one result — artifact or reported failure — keyed by its index.
pub struct EngineRun {
    pub workers: Vec<WorkerState>,
    pub sizes: Vec<usize>,
    pub pending_images: Vec<Image>,
    pub w: usize,
    pub done_in_worker: usize,
    pub done_total: usize,
    pub n_jobs: usize,
    pub current: Option<PlanRun>,
    pub results: Vec<Result<JobArtifact, JobError>>,
    pub duplications: usize,
}

impl EngineRun {
    pub open spec fn wf(self) -> bool {
        &&& self.workers@.len() == self.sizes@.len()
        &&& self.sizes@.len() >= 1
        &&& forall|i: int|
            0 <= i < self.workers@.len() ==> elems_wf(
                (#[trigger] self.workers@[i]).pipeline.augmenters@,
            )
        &&& sum_prefix(self.sizes@, self.sizes@.len() as int) == self.n_jobs
        &&& self.w <= self.sizes@.len()
        &&& (self.w < self.sizes@.len() ==> self.done_in_worker <= self.sizes@[self.w as int])
        &&& (self.w == self.sizes@.len() ==> self.done_in_worker == 0)
        &&& self.done_total == sum_prefix(self.sizes@, self.w as int) + self.done_in_worker
        &&& self.done_total <= self.n_jobs
        &&& (self.done_total < self.n_jobs ==> self.w < self.sizes@.len() && self.done_in_worker
            < self.sizes@[self.w as int])
        &&& self.results@.len() == self.done_total
        &&& (forall|k: int|
            0 <= k < self.results@.len() ==> result_index(#[trigger] self.results@[k]) == k)
        &&& self.pending_images@.len() + self.done_total + (if self.current is Some {
            1int
        } else {
            0int
        }) == self.n_jobs
        &&& (forall|i: int|
            0 <= i < self.pending_images@.len() ==> (#[trigger] self.pending_images@[i]).wf())
        &&& (self.current matches Some(run) ==> run.wf())
    }

    /// The transform the run is waiting on, if any.
    pub open spec fn awaiting(self) -> Option<Op> {
        match self.current {
            Some(run) => run.pending(),
            None => None,
        }
    }

    /// Sets up the pool: duplicates the prototype once per worker —
    /// `duplications` comes back equal to `n_workers` — and assigns each
    /// worker its share of the jobs.
    pub fn new(
        prototype: &ThreadsafeAugmenterPipeline,
        images: Vec<Image>,
        n_workers: usize,
    ) -> (r: EngineRun)
        requires
            elems_wf(prototype.augmenters@),
            1 <= n_workers,
            forall|i: int| 0 <= i < images@.len() ==> (#[trigger] images@[i]).wf(),
        ensures
            r.wf(),
            r.n_jobs == images@.len(),
            r.duplications == n_workers,
            r.workers@.len() == n_workers,
            forall|i: int|
                0 <= i < n_workers ==> elems_equiv(
                    (#[trigger] r.workers@[i]).pipeline.augmenters@,
                    prototype.augmenters@,
                ) && r.workers@[i].scratch@.len() == 0,
            r.pending_images@ == images@,
            r.results@.len() == 0,
            r.done_total == 0,
            r.current is None,
    {
        let n_jobs = images.len();
        let (workers, duplications) = spawn_workers(prototype, n_workers);
        proof {
            assert forall|i: int| 0 <= i < workers@.len() implies elems_wf(
                (#[trigger] workers@[i]).pipeline.augmenters@,
            ) by {
                lemma_equiv_same_plans(
                    workers@[i].pipeline.augmenters@,
                    prototype.augmenters@,
                    Seq::<Op>::empty(),
                );
            }
        }
        let sizes = worker_shares(n_jobs, n_workers);
        proof {
            assert(sum_prefix(sizes@, 0) == 0);
        }
        let (w, done_in_worker) = advance_worker(&sizes, 0, 0, 0, n_jobs);
        EngineRun {
            workers,
            sizes,
            pending_images: images,
            w,
            done_in_worker,
            done_total: 0,
            n_jobs,
            current: None,
            results: Vec::new(),
            duplications,
        }
    }

    /// Performs one unit of engine work: starts the next job on its
    /// worker, advances the job in hand, or completes it — encoding on the
    /// worker's scratch buffer and recording exactly one result under the
    /// job's index. Answers `Done` exactly when every job has its result.
    pub fn step(self) -> (r: (EngineRun, EngineStep))
        requires
            self.wf(),
        ensures
            r.0.wf(),
            r.0.n_jobs == self.n_jobs,
            r.0.duplications == self.duplications,
            r.0.workers@.len() == self.workers@.len(),
            r.1 is Done <==> (self.done_total == self.n_jobs && self.current is None),
            r.1 is Done ==> r.0.done_total == r.0.n_jobs && r.0.current is None,
            r.1 is Progressed ==> r.0.pending_images@.len() < self.pending_images@.len()
                || r.0.results@.len() > self.results@.len(),
            self.current is None && self.done_total < self.n_jobs ==> (r.0.current matches Some(
                run,
            ) && run.pos == 0 && run.img == self.pending_images@.last() && elems_plan_ok(
                self.workers@[self.w as int].pipeline.augmenters@,
                run.plan@,
            ) && r.0.pending_images@ == self.pending_images@.drop_last() && r.0.results@
                == self.results@ && r.0.workers@ == self.workers@),
            r.1 is NeedContrast || r.1 is NeedBlur ==> r.0.results@ == self.results@
                && r.0.pending_images@ == self.pending_images@ && r.0.done_total
                == self.done_total && r.0.workers@ == self.workers@,
            self.current matches Some(run0) ==> ((r.1 is NeedContrast || r.1 is NeedBlur) ==> (
            r.0.current matches Some(run2) && run2.plan@ == run0.plan@ && run2.initial
                == run0.initial && run0.pos <= run2.pos && run2.img@.width == run0.img@.width
                && run2.img@.height == run0.img@.height)),
            self.current matches Some(run0) ==> (r.1 is Progressed ==> (forall|j: int|
                run0.pos <= j < run0.plan@.len() ==> is_direct(run0.plan@[j]))
                && (r.0.results@.last() matches Ok(
                a,
            ) ==> a.bytes@ == png_encoded(
                remaining_direct_result(run0).pixels,
                remaining_direct_result(run0).width,
                remaining_direct_result(run0).height,
            )) && (run0.img@.width > 0 && run0.img@.height > 0 ==> r.0.results@.last() is Ok)
                && r.0.results@.len() == self.results@.len() + 1),
            (r.1 matches EngineStep::NeedContrast { hundredths } ==> r.0.awaiting() == Some(
                Op::AdjustContrast { hundredths },
            )),
            (r.1 matches EngineStep::NeedBlur { sigma_hundredths } ==> r.0.awaiting() == Some(
                Op::Blur { sigma_hundredths },
            )),
    {
        let EngineRun {
            mut workers,
            sizes,
            mut pending_images,
            mut w,
            mut done_in_worker,
            mut done_total,
            n_jobs,
            current,
            mut results,
            duplications,
        } = self;
        match current {
            None => {
                if done_total == n_jobs {
                    return (
                        EngineRun {
                            workers,
                            sizes,
                            pending_images,
                            w,
                            done_in_worker,
                            done_total,
                            n_jobs,
                            current: None,
                            results,
                            duplications,
                        },
                        EngineStep::Done,
                    );
                }
                let img = pending_images.pop().unwrap();
                let run = begin_job(&workers[w], img);
                (
                    EngineRun {
                        workers,
                        sizes,
                        pending_images,
                        w,
                        done_in_worker,
                        done_total,
                        n_jobs,
                        current: Some(run),
                        results,
                        duplications,
                    },
                    EngineStep::Progressed,
                )
            },
            Some(job_run) => {
                let (job_run, outcome) = job_run.advance();
                match outcome {
                    StepOutcome::Finished => {
                        let ghost workers_before = workers@;
                        let img = job_run.finish();
                        let mut worker = workers.remove(w);
                        let res = finish_job(&mut worker, done_total, &img);
                        workers.insert(w, worker);
                        proof {
                            assert(workers@ =~= workers_before.update(w as int, worker));
                            assert(result_index(res) == done_total as int);
                            assert forall|k: int| 0 <= k < results@.push(res).len() implies
                                result_index(#[trigger] results@.push(res)[k]) == k by {
                                if k < results@.len() {
                                    assert(results@.push(res)[k] == results@[k]);
                                }
                            }
                        }
                        results.push(res);
                        done_in_worker += 1;
                        done_total += 1;
                        let (w2, d2) = advance_worker(&sizes, w, done_in_worker, done_total, n_jobs);
                        w = w2;
                        done_in_worker = d2;
                        (
                            EngineRun {
                                workers,
                                sizes,
                                pending_images,
                                w,
                                done_in_worker,
                                done_total,
                                n_jobs,
                                current: None,
                                results,
                                duplications,
                            },
                            EngineStep::Progressed,
                        )
                    },
                    StepOutcome::AwaitContrast { hundredths } => (
                        EngineRun {
                            workers,
                            sizes,
                            pending_images,
                            w,
                            done_in_worker,
                            done_total,
                            n_jobs,
                            current: Some(job_run),
                            results,
                            duplications,
                        },
                        EngineStep::NeedContrast { hundredths },
                    ),
                    StepOutcome::AwaitBlur { sigma_hundredths } => (
                        EngineRun {
                            workers,
                            sizes,
                            pending_images,
                            w,
                            done_in_worker,
                            done_total,
                            n_jobs,
                            current: Some(job_run),
                            results,
                            duplications,
                        },
                        EngineStep::NeedBlur { sigma_hundredths },
                    ),
                }
            },
        }
    }

    /// The image the run is waiting on, for the caller to perform the
    /// awaited transform on.
    pub fn awaiting_image(&self) -> (r: &Image)
        requires
            self.current is Some,
        ensures
            self.current matches Some(run) ==> *r == run.img,
    {
        match &self.current {
            Some(run) => run.current_image(),
            None => unreached(),
        }
    }

    /// Hands back the image after the caller performed the awaited
    /// transform; the image service preserves dimensions, so the returned
    /// image must have the dimensions of the one handed out.
    pub fn provide(self, img: Image) -> (r: EngineRun)
        requires
            self.wf(),
            self.current matches Some(run) && run.pending() is Some && img.wf() && img@.width
                == run.img@.width && img@.height == run.img@.height,
        ensures
            r.wf(),
            r.n_jobs == self.n_jobs,
            r.duplications == self.duplications,
            r.workers@.len() == self.workers@.len(),
            r.results@ == self.results@,
            self.current matches Some(run1) ==> (r.current matches Some(run2) && run2.plan@
                == run1.plan@ && run2.pos == run1.pos + 1 && run2.img == img),
    {
        let EngineRun {
            workers,
            sizes,
            pending_images,
            w,
            done_in_worker,
            done_total,
            n_jobs,
            current,
            results,
            duplications,
        } = self;
        match current {
            Some(job_run) => {
                let job_run = job_run.resume(img);
                EngineRun {
                    workers,
                    sizes,
                    pending_images,
                    w,
                    done_in_worker,
                    done_total,
                    n_jobs,
                    current: Some(job_run),
                    results,
                    duplications,
                }
            },
            None => unreached(),
        }
    }

    /// Job completeness: once every job is done, there are exactly
    /// `n_jobs` results — one per index, in index order, with no index
    /// missing or duplicated — and the duplication count equals the number
    /// of workers, not the number of jobs.
    pub fn into_results(self) -> (r: (Vec<Result<JobArtifact, JobError>>, usize))
        requires
            self.wf(),
            self.done_total == self.n_jobs,
            self.current is None,
        ensures
            r.0@.len() == self.n_jobs,
            forall|k: int| 0 <= k < r.0@.len() ==> result_index(#[trigger] r.0@[k]) == k,
            r.1 == self.duplications,
    {
        (self.results, self.duplications)
    }
}

} // verus!
