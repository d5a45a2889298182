//! The pipeline runner on device memory. The three output buffers are made
//! once and used again by every iteration; what they hold may be read only
//! after a barrier has waited for the device's work.
use vstd::prelude::*;
use crate::pipeline::{PipelineError, PixelBuffer, checked, check_output};
use crate::stage::{Shape, Stage, StageCall};
use crate::timing::{ITERS, TimingResult};
use std::time::Instant;

verus! {

/// The output buffers of the three stages, in device memory.
pub struct DeviceBuffers<M> {
    gray: PixelBuffer<M>,
    blur: PixelBuffer<M>,
    edges: PixelBuffer<M>,
    settled: bool,
}

impl<M> DeviceBuffers<M> {
    /// No work that writes these buffers is still in flight.
    pub closed spec fn settled(&self) -> bool {
        self.settled
    }

    /// The output buffer of the grayscale stage.
    pub closed spec fn gray(&self) -> PixelBuffer<M> {
        self.gray
    }

    /// The output buffer of the smoothing stage.
    pub closed spec fn blur(&self) -> PixelBuffer<M> {
        self.blur
    }

    /// The output buffer of the edge detector.
    pub closed spec fn edges(&self) -> PixelBuffer<M> {
        self.edges
    }

    /// The three buffers hold the output of a run on an input of shape
    /// `input`, as far as their shapes tell.
    pub open spec fn shaped_for(&self, input: Shape) -> bool {
        self.gray().shape == input.single_channel() && self.blur().shape == input.single_channel()
            && self.edges().shape == input.single_channel()
    }

    /// The two sets hold the same three buffers, settled or not.
    pub open spec fn same_buffers(&self, other: DeviceBuffers<M>) -> bool {
        self.gray() == other.gray() && self.blur() == other.blur() && self.edges() == other.edges()
    }

    /// Takes three buffers that no work has been given yet.
    pub fn new(gray: PixelBuffer<M>, blur: PixelBuffer<M>, edges: PixelBuffer<M>) -> (b: Self)
        ensures
            b.settled(),
            b.gray() == gray,
            b.blur() == blur,
            b.edges() == edges,
    {
        DeviceBuffers { gray, blur, edges, settled: true }
    }

    /// Whether the buffers may be read.
    pub fn is_settled(&self) -> (b: bool)
        ensures
            b == self.settled(),
    {
        self.settled
    }

    /// The edge map, once the device has finished: while work is in flight
    /// there is nothing to read.
    pub fn edge_map(&self) -> (r: Option<&PixelBuffer<M>>)
        ensures
            r is Some <==> self.settled(),
            r is Some ==> *r->0 == self.edges(),
    {
        if self.settled {
            Some(&self.edges)
        } else {
            None
        }
    }

    /// Waits for the device by one call of `finish`. After a successful wait
    /// the buffers are settled; they are otherwise as they were.
    pub fn synchronize<E, H: Fn() -> Result<(), E>>(self, finish: &H) -> (r: Result<
        Self,
        PipelineError<E>,
    >)
        requires
            call_requires(*finish, ()),
        ensures
            r is Ok ==> r->Ok_0.settled() && r->Ok_0.same_buffers(self),
            r is Ok ==> call_ensures(*finish, (), Ok::<(), E>(())),
            r is Err ==> r->Err_0 is Barrier && call_ensures(
                *finish,
                (),
                Err::<(), E>(r->Err_0->Barrier_cause),
            ),
            (forall|e: E| !call_ensures(*finish, (), Err::<(), E>(e))) ==> r is Ok,
            !call_ensures(*finish, (), Ok::<(), E>(())) ==> r is Err,
    {
        let outcome = finish();
        match outcome {
            Ok(u) => {
                assert(u == ());
                Ok(DeviceBuffers { gray: self.gray, blur: self.blur, edges: self.edges, settled: true })
            },
            Err(cause) => Err(PipelineError::Barrier { cause }),
        }
    }
}

/// The backend accepts every request of the pipeline, on every pair of a
/// source and a destination buffer.
pub open spec fn device_accepts_all<
    M,
    E,
    G: Fn(StageCall, &PixelBuffer<M>, PixelBuffer<M>) -> Result<PixelBuffer<M>, E>,
>(backend: G) -> bool {
    forall|stage: Stage, input: PixelBuffer<M>, dst: PixelBuffer<M>| #[trigger]
        call_requires(backend, (stage.spec_call(), &input, dst))
}

/// The backend never fails on a request of the pipeline and always answers
/// with a buffer of the shape that the stage implies.
pub open spec fn device_reliable<
    M,
    E,
    G: Fn(StageCall, &PixelBuffer<M>, PixelBuffer<M>) -> Result<PixelBuffer<M>, E>,
>(backend: G) -> bool {
    forall|
        stage: Stage,
        input: PixelBuffer<M>,
        dst: PixelBuffer<M>,
        outcome: Result<PixelBuffer<M>, E>,
    | #[trigger]
        call_ensures(backend, (stage.spec_call(), &input, dst), outcome) ==> outcome is Ok
            && outcome->Ok_0.shape == stage.spec_output_shape(input.shape)
}

/// `r` is what the runner makes of one of the answers that the backend can
/// give to `stage` on `input`, writing into `dst`.
pub open spec fn device_stage_yields<
    M,
    E,
    G: Fn(StageCall, &PixelBuffer<M>, PixelBuffer<M>) -> Result<PixelBuffer<M>, E>,
>(
    backend: G,
    stage: Stage,
    input: PixelBuffer<M>,
    dst: PixelBuffer<M>,
    r: Result<PixelBuffer<M>, PipelineError<E>>,
) -> bool {
    exists|outcome: Result<PixelBuffer<M>, E>| #[trigger]
        call_ensures(backend, (stage.spec_call(), &input, dst), outcome) && r == checked(
            stage,
            input.shape,
            outcome,
        )
}

/// Sends one stage's request to the backend, with the buffer to write into,
/// and checks the answer.
pub fn run_device_stage<
    M,
    E,
    G: Fn(StageCall, &PixelBuffer<M>, PixelBuffer<M>) -> Result<PixelBuffer<M>, E>,
>(stage: Stage, input: &PixelBuffer<M>, dst: PixelBuffer<M>, backend: &G) -> (r: Result<
    PixelBuffer<M>,
    PipelineError<E>,
>)
    requires
        device_accepts_all(*backend),
    ensures
        device_stage_yields(*backend, stage, *input, dst, r),
        r is Ok ==> r->Ok_0.shape == stage.spec_output_shape(input.shape),
        device_reliable(*backend) ==> r is Ok,
{
    let outcome = backend(stage.call(), input, dst);
    check_output(stage, input.shape, outcome)
}

/// `r` is the result of a run whose first two stages gave `g` and `b` and
/// whose edge detection ended with `edges`: its error, or the three outputs
/// as a set that is not settled.
pub open spec fn device_after_edges<M, E>(
    g: PixelBuffer<M>,
    b: PixelBuffer<M>,
    edges: Result<PixelBuffer<M>, PipelineError<E>>,
    r: Result<DeviceBuffers<M>, PipelineError<E>>,
) -> bool {
    match edges {
        Err(e) => r == Err::<DeviceBuffers<M>, PipelineError<E>>(e),
        Ok(d) => r is Ok && !r->Ok_0.settled() && r->Ok_0.gray() == g && r->Ok_0.blur() == b
            && r->Ok_0.edges() == d,
    }
}

/// `r` is a possible result of a run whose grayscale stage gave `g` and whose
/// smoothing ended with `blur`.
pub open spec fn device_after_blur<
    M,
    E,
    G: Fn(StageCall, &PixelBuffer<M>, PixelBuffer<M>) -> Result<PixelBuffer<M>, E>,
>(
    backend: G,
    outputs: DeviceBuffers<M>,
    g: PixelBuffer<M>,
    blur: Result<PixelBuffer<M>, PipelineError<E>>,
    r: Result<DeviceBuffers<M>, PipelineError<E>>,
) -> bool {
    match blur {
        Err(e) => r == Err::<DeviceBuffers<M>, PipelineError<E>>(e),
        Ok(b) => exists|edges: Result<PixelBuffer<M>, PipelineError<E>>| #[trigger]
            device_stage_yields(backend, Stage::Edges, b, outputs.edges(), edges)
                && device_after_edges(g, b, edges, r),
    }
}

/// `r` is a possible result of a run whose grayscale stage ended with `gray`.
pub open spec fn device_after_gray<
    M,
    E,
    G: Fn(StageCall, &PixelBuffer<M>, PixelBuffer<M>) -> Result<PixelBuffer<M>, E>,
>(
    backend: G,
    outputs: DeviceBuffers<M>,
    gray: Result<PixelBuffer<M>, PipelineError<E>>,
    r: Result<DeviceBuffers<M>, PipelineError<E>>,
) -> bool {
    match gray {
        Err(e) => r == Err::<DeviceBuffers<M>, PipelineError<E>>(e),
        Ok(g) => exists|blur: Result<PixelBuffer<M>, PipelineError<E>>| #[trigger]
            device_stage_yields(backend, Stage::Blur, g, outputs.blur(), blur)
                && device_after_blur(backend, outputs, g, blur, r),
    }
}

/// `r` is a possible result of one run of the pipeline on `img` into the
/// buffers `outputs`: the three stages in order, each reading the accepted
/// output of the one before and writing into its own buffer, and the first
/// error in place of everything after it. The buffers of a finished run are
/// not settled.
pub open spec fn device_yields<
    M,
    E,
    G: Fn(StageCall, &PixelBuffer<M>, PixelBuffer<M>) -> Result<PixelBuffer<M>, E>,
>(
    backend: G,
    img: PixelBuffer<M>,
    outputs: DeviceBuffers<M>,
    r: Result<DeviceBuffers<M>, PipelineError<E>>,
) -> bool {
    exists|gray: Result<PixelBuffer<M>, PipelineError<E>>| #[trigger]
        device_stage_yields(backend, Stage::Grayscale, img, outputs.gray(), gray)
            && device_after_gray(backend, outputs, gray, r)
}

/// Runs the pipeline on device memory, writing into the three buffers of
/// `outputs` and handing them back.
///
/// Each buffer then has one channel and the rows and columns of `img`, and
/// the set is not settled: the device may still be at work. The first stage
/// that fails, or whose output is malformed, ends the run with its error.
pub fn gpu_pipeline<
    M,
    E,
    G: Fn(StageCall, &PixelBuffer<M>, PixelBuffer<M>) -> Result<PixelBuffer<M>, E>,
>(img: &PixelBuffer<M>, outputs: DeviceBuffers<M>, backend: &G) -> (r: Result<
    DeviceBuffers<M>,
    PipelineError<E>,
>)
    requires
        device_accepts_all(*backend),
    ensures
        device_yields(*backend, *img, outputs, r),
        r is Ok ==> r->Ok_0.shaped_for(img.shape) && !r->Ok_0.settled(),
        r is Err ==> !(r->Err_0 is Barrier),
        device_reliable(*backend) ==> r is Ok,
{
    let gray = run_device_stage(Stage::Grayscale, img, outputs.gray, backend);
    assert(device_stage_yields(*backend, Stage::Grayscale, *img, outputs.gray(), gray));
    let g = match gray {
        Ok(g) => g,
        Err(e) => {
            proof {
                assert(device_after_gray(
                    *backend,
                    outputs,
                    gray,
                    Err::<DeviceBuffers<M>, PipelineError<E>>(e),
                ));
            }
            return Err(e);
        },
    };
    let blur = run_device_stage(Stage::Blur, &g, outputs.blur, backend);
    assert(device_stage_yields(*backend, Stage::Blur, g, outputs.blur(), blur));
    let b = match blur {
        Ok(b) => b,
        Err(e) => {
            proof {
                assert(device_after_blur(
                    *backend,
                    outputs,
                    g,
                    blur,
                    Err::<DeviceBuffers<M>, PipelineError<E>>(e),
                ));
                assert(device_after_gray(
                    *backend,
                    outputs,
                    gray,
                    Err::<DeviceBuffers<M>, PipelineError<E>>(e),
                ));
            }
            return Err(e);
        },
    };
    let edges = run_device_stage(Stage::Edges, &b, outputs.edges, backend);
    assert(device_stage_yields(*backend, Stage::Edges, b, outputs.edges(), edges));
    let r = match edges {
        Ok(d) => Ok(DeviceBuffers { gray: g, blur: b, edges: d, settled: false }),
        Err(e) => Err(e),
    };
    proof {
        assert(device_after_edges(g, b, edges, r));
        assert(device_after_blur(*backend, outputs, g, blur, r));
        assert(device_after_gray(*backend, outputs, gray, r));
    }
    r
}

/// `r` is a possible result of one run of the pipeline on `img`, into some
/// set of output buffers.
pub open spec fn some_run_yields<
    M,
    E,
    G: Fn(StageCall, &PixelBuffer<M>, PixelBuffer<M>) -> Result<PixelBuffer<M>, E>,
>(backend: G, img: PixelBuffer<M>, r: Result<DeviceBuffers<M>, PipelineError<E>>) -> bool {
    exists|outputs: DeviceBuffers<M>| #[trigger] device_yields(backend, img, outputs, r)
}

/// Measures the pipeline on device memory.
///
/// One run is made first and not timed: it takes what the device spends once
/// on a first use. Then [`ITERS`] runs are timed, all writing into the same
/// three buffers, and the clock is read only after `finish` has waited for
/// the device, so that the measurement covers the work and not only its
/// dispatch. A measurement is handed out with settled buffers, which hold
/// what the last run wrote, and never otherwise; the first failure of a stage
/// or of the wait ends the run.
pub fn time_device<
    M,
    E,
    G: Fn(StageCall, &PixelBuffer<M>, PixelBuffer<M>) -> Result<PixelBuffer<M>, E>,
    H: Fn() -> Result<(), E>,
>(label: &str, img: &PixelBuffer<M>, outputs: DeviceBuffers<M>, backend: &G, finish: &H) -> (r:
    Result<(TimingResult, DeviceBuffers<M>), PipelineError<E>>)
    requires
        device_accepts_all(*backend),
        call_requires(*finish, ()),
    ensures
        r is Ok ==> r->Ok_0.0.label() == label@ && r->Ok_0.0.iterations() == ITERS,
        r is Ok ==> r->Ok_0.1.settled() && r->Ok_0.1.shaped_for(img.shape),
        r is Ok ==> exists|last: DeviceBuffers<M>|
            #![trigger last.same_buffers(r->Ok_0.1)]
            some_run_yields(*backend, *img, Ok::<DeviceBuffers<M>, PipelineError<E>>(last))
                && last.same_buffers(r->Ok_0.1),
        r is Ok ==> call_ensures(*finish, (), Ok::<(), E>(())),
        r is Err && r->Err_0 is Barrier ==> call_ensures(
            *finish,
            (),
            Err::<(), E>(r->Err_0->Barrier_cause),
        ),
        r is Err && !(r->Err_0 is Barrier) ==> some_run_yields(
            *backend,
            *img,
            Err::<DeviceBuffers<M>, PipelineError<E>>(r->Err_0),
        ),
        device_reliable(*backend) && (forall|e: E| !call_ensures(*finish, (), Err::<(), E>(e)))
            ==> r is Ok,
        !call_ensures(*finish, (), Ok::<(), E>(())) ==> r is Err,
{
    let warm = gpu_pipeline(img, outputs, backend);
    let mut buffers = match warm {
        Ok(b) => b,
        Err(e) => {
            return Err(e);
        },
    };
    let start = Instant::now();
    let mut done: usize = 0;
    while done < ITERS
        invariant
            done <= ITERS,
            device_accepts_all(*backend),
            buffers.shaped_for(img.shape),
            some_run_yields(*backend, *img, Ok::<DeviceBuffers<M>, PipelineError<E>>(buffers)),
        decreases ITERS - done,
    {
        let run = gpu_pipeline(img, buffers, backend);
        buffers = match run {
            Ok(b) => b,
            Err(e) => {
                return Err(e);
            },
        };
        done = done + 1;
    }
    let ghost last = buffers;
    let settled = match buffers.synchronize(finish) {
        Ok(b) => b,
        Err(e) => {
            return Err(e);
        },
    };
    let elapsed = start.elapsed();
    let r = Ok((TimingResult::measured(label, done, elapsed.as_nanos()), settled));
    proof {
        assert(some_run_yields(*backend, *img, Ok::<DeviceBuffers<M>, PipelineError<E>>(last)));
        assert(last.same_buffers(r->Ok_0.1));
    }
    r
}

} // verus!
