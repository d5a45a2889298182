//! A benchmarking harness for a fixed three-stage image pipeline (grayscale,
//! Gaussian blur, Canny edges) that runs on the host and, where an
//! accelerated backend is present, on a device.
pub mod device;
pub mod harness;
pub mod pipeline;
pub mod probe;
pub mod stage;
pub mod text;
pub mod timing;
