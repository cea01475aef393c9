//! Verified core of a scheduled plant-camera snapshot utility.
//!
//! One run selects a capture device, grabs a single frame, crops it to a
//! configured region, writes it to local storage as a timestamped JPEG and
//! uploads it to an S3-compatible bucket.  The decision-making parts live
//! here with contracts: configuration defaults and validation, device
//! matching and fallback policy, the pixel-exact crop, filename/path/key
//! construction, and the linear pipeline state machine.  Device drivers,
//! the JPEG codec, the filesystem and the object-store transport are
//! outside collaborators driven by the surrounding application.

use vstd::prelude::*;

pub mod config;
pub mod device;
pub mod clock;
pub mod frame;
pub mod pipeline;
pub mod snapshot;

verus! {

/// The error taxonomy of the pipeline.  Every error is terminal: a run
/// either reaches `Done` or aborts at the first failing stage.
#[derive(Clone, Copy, Debug, PartialEq, Eq, Structural)]
pub enum PipelineError {
    /// The configuration file is malformed, missing, or holds an invalid value.
    ConfigError,
    /// No enumerated device matches the configured identifier and strict mode is on.
    DeviceNotFound,
    /// The selected device cannot be opened at the requested format.
    DeviceOpenError,
    /// The open stream delivered no usable frame.
    CaptureError,
    /// The crop rectangle does not fit inside the frame.
    CropBoundsError,
    /// The snapshot could not be written to local storage.
    PersistError,
    /// The upload to the object store failed.
    UploadError,
}

} // verus!
