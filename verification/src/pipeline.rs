//! The pipeline runner on host memory: three calls into the image backend,
//! each on the output of the one before, stopped at the first failure.
use vstd::prelude::*;
use crate::stage::{Shape, Stage, StageCall};
use crate::timing::{ITERS, TimingResult, time_it};

verus! {

/// A rectangular grid of pixels: its shape, and the storage that holds it.
/// The storage belongs to the backend and is opaque here.
pub struct PixelBuffer<M> {
    pub shape: Shape,
    pub pixels: M,
}

/// Why a run of the pipeline was given up.
pub enum PipelineError<E> {
    /// The backend failed in `stage`.
    Backend { stage: Stage, cause: E },
    /// The backend's output of `stage` has another shape than the stage's
    /// transform implies.
    Malformed { stage: Stage, expected: Shape, found: Shape },
    /// The wait for the device to finish its work failed.
    Barrier { cause: E },
}

/// What the runner makes of the backend's answer to `stage` on an input of
/// shape `input`.
pub open spec fn checked<M, E>(
    stage: Stage,
    input: Shape,
    outcome: Result<PixelBuffer<M>, E>,
) -> Result<PixelBuffer<M>, PipelineError<E>> {
    match outcome {
        Err(cause) => Err(PipelineError::Backend { stage, cause }),
        Ok(out) => if out.shape == stage.spec_output_shape(input) {
            Ok(out)
        } else {
            Err(
                PipelineError::Malformed {
                    stage,
                    expected: stage.spec_output_shape(input),
                    found: out.shape,
                },
            )
        },
    }
}

/// Accepts the backend's output of `stage` if it has the shape that the stage
/// implies for an input of shape `input`, and turns every other answer into
/// the error that ends the run.
pub fn check_output<M, E>(stage: Stage, input: Shape, outcome: Result<PixelBuffer<M>, E>) -> (r:
    Result<PixelBuffer<M>, PipelineError<E>>)
    ensures
        r == checked(stage, input, outcome),
{
    match outcome {
        Err(cause) => Err(PipelineError::Backend { stage, cause }),
        Ok(out) => {
            let expected = stage.output_shape(input);
            if out.shape == expected {
                Ok(out)
            } else {
                let found = out.shape;
                Err(PipelineError::Malformed { stage, expected, found })
            }
        },
    }
}

/// The backend accepts every request of the pipeline, on every buffer.
pub open spec fn accepts_all<M, E, F: Fn(StageCall, &PixelBuffer<M>) -> Result<PixelBuffer<M>, E>>(
    backend: F,
) -> bool {
    forall|stage: Stage, input: PixelBuffer<M>| #[trigger]
        call_requires(backend, (stage.spec_call(), &input))
}

/// `r` is what the runner makes of one of the answers that the backend can
/// give to `stage` on `input`.
pub open spec fn stage_yields<
    M,
    E,
    F: Fn(StageCall, &PixelBuffer<M>) -> Result<PixelBuffer<M>, E>,
>(backend: F, stage: Stage, input: PixelBuffer<M>, r: Result<PixelBuffer<M>, PipelineError<E>>) -> bool {
    exists|outcome: Result<PixelBuffer<M>, E>| #[trigger]
        call_ensures(backend, (stage.spec_call(), &input), outcome) && r == checked(
            stage,
            input.shape,
            outcome,
        )
}

/// `r` is a possible result of the pipeline once smoothing has ended with
/// `blur`: its error, or what edge detection yields on its output.
pub open spec fn continues_after_blur<
    M,
    E,
    F: Fn(StageCall, &PixelBuffer<M>) -> Result<PixelBuffer<M>, E>,
>(
    backend: F,
    blur: Result<PixelBuffer<M>, PipelineError<E>>,
    r: Result<PixelBuffer<M>, PipelineError<E>>,
) -> bool {
    match blur {
        Err(e) => r == Err::<PixelBuffer<M>, PipelineError<E>>(e),
        Ok(b) => stage_yields(backend, Stage::Edges, b, r),
    }
}

/// `r` is a possible result of the pipeline once the grayscale stage has
/// ended with `gray`: its error, or what the two later stages yield on its
/// output.
pub open spec fn continues_after_gray<
    M,
    E,
    F: Fn(StageCall, &PixelBuffer<M>) -> Result<PixelBuffer<M>, E>,
>(
    backend: F,
    gray: Result<PixelBuffer<M>, PipelineError<E>>,
    r: Result<PixelBuffer<M>, PipelineError<E>>,
) -> bool {
    match gray {
        Err(e) => r == Err::<PixelBuffer<M>, PipelineError<E>>(e),
        Ok(g) => exists|blur: Result<PixelBuffer<M>, PipelineError<E>>| #[trigger]
            stage_yields(backend, Stage::Blur, g, blur) && continues_after_blur(backend, blur, r),
    }
}

/// `r` is a possible result of the whole pipeline on `img`: the three stages
/// in order, each on the accepted output of the one before, and the first
/// error in place of everything after it.
pub open spec fn pipeline_yields<
    M,
    E,
    F: Fn(StageCall, &PixelBuffer<M>) -> Result<PixelBuffer<M>, E>,
>(backend: F, img: PixelBuffer<M>, r: Result<PixelBuffer<M>, PipelineError<E>>) -> bool {
    exists|gray: Result<PixelBuffer<M>, PipelineError<E>>| #[trigger]
        stage_yields(backend, Stage::Grayscale, img, gray) && continues_after_gray(backend, gray, r)
}

/// The backend never fails on a request of the pipeline and always answers
/// with a buffer of the shape that the stage implies.
pub open spec fn reliable<M, E, F: Fn(StageCall, &PixelBuffer<M>) -> Result<PixelBuffer<M>, E>>(
    backend: F,
) -> bool {
    forall|stage: Stage, input: PixelBuffer<M>, outcome: Result<PixelBuffer<M>, E>| #[trigger]
        call_ensures(backend, (stage.spec_call(), &input), outcome) ==> outcome is Ok
            && outcome->Ok_0.shape == stage.spec_output_shape(input.shape)
}

/// Sends one stage's request to the backend and checks the answer.
pub fn run_stage<M, E, F: Fn(StageCall, &PixelBuffer<M>) -> Result<PixelBuffer<M>, E>>(
    stage: Stage,
    input: &PixelBuffer<M>,
    backend: &F,
) -> (r: Result<PixelBuffer<M>, PipelineError<E>>)
    requires
        accepts_all(*backend),
    ensures
        stage_yields(*backend, stage, *input, r),
        r is Ok ==> r->Ok_0.shape == stage.spec_output_shape(input.shape),
        reliable(*backend) ==> r is Ok,
{
    let outcome = backend(stage.call(), input);
    check_output(stage, input.shape, outcome)
}

/// Runs the pipeline on host memory: grayscale, then smoothing, then edge
/// detection, with a fresh output buffer from each stage.
///
/// The edge map has one channel and the rows and columns of `img`. The first
/// stage that fails, or whose output is malformed, ends the run with its
/// error, and the later stages are not called.
pub fn cpu_pipeline<M, E, F: Fn(StageCall, &PixelBuffer<M>) -> Result<PixelBuffer<M>, E>>(
    img: &PixelBuffer<M>,
    backend: &F,
) -> (r: Result<PixelBuffer<M>, PipelineError<E>>)
    requires
        accepts_all(*backend),
    ensures
        pipeline_yields(*backend, *img, r),
        r is Ok ==> r->Ok_0.shape == img.shape.single_channel(),
        reliable(*backend) ==> r is Ok,
{
    let gray = run_stage(Stage::Grayscale, img, backend);
    let g = match gray {
        Ok(g) => g,
        Err(e) => {
            return Err(e);
        },
    };
    let blur = run_stage(Stage::Blur, &g, backend);
    let b = match blur {
        Ok(b) => b,
        Err(e) => {
            proof {
                assert(continues_after_blur(*backend, blur, Err::<PixelBuffer<M>, PipelineError<E>>(e)));
            }
            return Err(e);
        },
    };
    let edges = run_stage(Stage::Edges, &b, backend);
    proof {
        assert(continues_after_blur(*backend, blur, edges));
    }
    edges
}

/// Measures the pipeline on host memory: [`ITERS`] runs on `img`, each with
/// fresh output buffers, and the edge maps thrown away.
///
/// The first run that fails ends the measurement with its error.
pub fn time_host<M, E, F: Fn(StageCall, &PixelBuffer<M>) -> Result<PixelBuffer<M>, E>>(
    label: &str,
    img: &PixelBuffer<M>,
    backend: &F,
) -> (r: Result<TimingResult, PipelineError<E>>)
    requires
        accepts_all(*backend),
    ensures
        r is Ok ==> r->Ok_0.label() == label@ && r->Ok_0.iterations() == ITERS,
        r is Ok ==> exists|edges: PixelBuffer<M>|
            pipeline_yields(*backend, *img, Ok::<PixelBuffer<M>, PipelineError<E>>(edges)),
        r is Err ==> pipeline_yields(
            *backend,
            *img,
            Err::<PixelBuffer<M>, PipelineError<E>>(r->Err_0),
        ),
        reliable(*backend) ==> r is Ok,
{
    let run = || -> (o: Result<(), PipelineError<E>>)
        ensures
            o is Ok ==> exists|edges: PixelBuffer<M>|
                pipeline_yields(*backend, *img, Ok::<PixelBuffer<M>, PipelineError<E>>(edges)),
            o is Err ==> pipeline_yields(
                *backend,
                *img,
                Err::<PixelBuffer<M>, PipelineError<E>>(o->Err_0),
            ),
            reliable(*backend) ==> o is Ok,
        {
            match cpu_pipeline(img, backend) {
                Ok(_) => Ok(()),
                Err(e) => Err(e),
            }
        };
    time_it(label, run)
}

} // verus!
