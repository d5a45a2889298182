//! The three stages of the pipeline, their fixed parameters, and what each
//! does to the shape of a pixel buffer.
use vstd::prelude::*;

verus! {

/// Rows, columns and channels of a pixel buffer.
#[derive(Clone, Copy, Debug, PartialEq, Eq, Structural)]
pub struct Shape {
    pub rows: u32,
    pub cols: u32,
    pub channels: u32,
}

impl Shape {
    /// A decoded colour image: not empty, three channels.
    pub open spec fn is_color_image(&self) -> bool {
        self.rows > 0 && self.cols > 0 && self.channels == 3
    }

    /// The same rows and columns with one channel.
    pub open spec fn single_channel(&self) -> Shape {
        Shape { rows: self.rows, cols: self.cols, channels: 1 }
    }

    /// Whether this is the shape of a decoded colour image.
    pub fn color_image(&self) -> (b: bool)
        ensures
            b == self.is_color_image(),
    {
        self.rows > 0 && self.cols > 0 && self.channels == 3
    }
}

/// Parameters of the Gaussian smoothing filter. The standard deviations are
/// held in tenths; a deviation of zero stands for "derive it from the other
/// one, or from the window".
#[derive(Clone, Copy, Debug, PartialEq, Eq, Structural)]
pub struct BlurParams {
    pub kernel_width: u32,
    pub kernel_height: u32,
    pub sigma_x_tenths: u32,
    pub sigma_y_tenths: u32,
}

impl BlurParams {
    /// The window has odd, positive sides.
    pub open spec fn wf(&self) -> bool {
        self.kernel_width % 2 == 1 && self.kernel_height % 2 == 1
    }
}

/// Parameters of the Canny edge detector.
#[derive(Clone, Copy, Debug, PartialEq, Eq, Structural)]
pub struct EdgeParams {
    pub low_threshold: u32,
    pub high_threshold: u32,
    pub aperture: u32,
    /// `true` for the exact gradient magnitude, `false` for the sum of the
    /// absolute derivatives.
    pub l2_gradient: bool,
}

impl EdgeParams {
    /// The thresholds are ordered and the Sobel aperture is 3, 5 or 7.
    pub open spec fn wf(&self) -> bool {
        self.low_threshold <= self.high_threshold && (self.aperture == 3 || self.aperture == 5
            || self.aperture == 7)
    }
}

/// One request to the image backend: a transform with its parameters. Every
/// transform extrapolates beyond the border by the backend's default policy.
#[derive(Clone, Copy, Debug, PartialEq, Eq, Structural)]
pub enum StageCall {
    /// Blue-green-red colour to single-channel grayscale.
    Grayscale,
    Blur(BlurParams),
    Edges(EdgeParams),
}

/// A stage of the pipeline, in the order in which they run.
#[derive(Clone, Copy, Debug, PartialEq, Eq, Structural)]
pub enum Stage {
    Grayscale,
    Blur,
    Edges,
}

/// The smoothing window: 7 by 7, standard deviation 1.5 along the rows, the
/// same along the columns.
pub open spec fn blur_params() -> BlurParams {
    BlurParams { kernel_width: 7, kernel_height: 7, sigma_x_tenths: 15, sigma_y_tenths: 0 }
}

/// The edge detector: thresholds 0 and 50, aperture 3, and the cheaper
/// gradient magnitude.
pub open spec fn edge_params() -> EdgeParams {
    EdgeParams { low_threshold: 0, high_threshold: 50, aperture: 3, l2_gradient: false }
}

impl Stage {
    /// The request that this stage sends to the backend.
    pub open spec fn spec_call(self) -> StageCall {
        match self {
            Stage::Grayscale => StageCall::Grayscale,
            Stage::Blur => StageCall::Blur(blur_params()),
            Stage::Edges => StageCall::Edges(edge_params()),
        }
    }

    /// The shape that this stage gives to its output, for an input of shape
    /// `input`: grayscale and edge detection yield one channel whatever the
    /// input has, smoothing keeps the channels, and none changes the rows or
    /// columns.
    pub open spec fn spec_output_shape(self, input: Shape) -> Shape {
        match self {
            Stage::Grayscale => input.single_channel(),
            Stage::Blur => input,
            Stage::Edges => input.single_channel(),
        }
    }

    /// The request that this stage sends to the backend, with the fixed
    /// parameters.
    #[verifier::when_used_as_spec(spec_call)]
    pub fn call(self) -> (c: StageCall)
        ensures
            c == self.spec_call(),
            c matches StageCall::Blur(p) ==> p.wf(),
            c matches StageCall::Edges(p) ==> p.wf(),
    {
        match self {
            Stage::Grayscale => StageCall::Grayscale,
            Stage::Blur => StageCall::Blur(
                BlurParams {
                    kernel_width: 7,
                    kernel_height: 7,
                    sigma_x_tenths: 15,
                    sigma_y_tenths: 0,
                },
            ),
            Stage::Edges => StageCall::Edges(
                EdgeParams { low_threshold: 0, high_threshold: 50, aperture: 3, l2_gradient: false },
            ),
        }
    }

    /// The shape of this stage's output for an input of shape `input`.
    #[verifier::when_used_as_spec(spec_output_shape)]
    pub fn output_shape(self, input: Shape) -> (s: Shape)
        ensures
            s == self.spec_output_shape(input),
    {
        match self {
            Stage::Blur => input,
            _ => Shape { rows: input.rows, cols: input.cols, channels: 1 },
        }
    }
}

/// The shape that the whole pipeline gives to its result.
pub open spec fn pipeline_output_shape(input: Shape) -> Shape {
    Stage::Edges.spec_output_shape(
        Stage::Blur.spec_output_shape(Stage::Grayscale.spec_output_shape(input)),
    )
}

/// The edge map of the pipeline has one channel and the rows and columns of
/// the input.
pub proof fn lemma_pipeline_output_shape(input: Shape)
    ensures
        pipeline_output_shape(input) == input.single_channel(),
        pipeline_output_shape(input).channels == 1,
        pipeline_output_shape(input).rows == input.rows,
        pipeline_output_shape(input).cols == input.cols,
{
}

} // verus!
