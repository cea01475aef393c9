//! Run configuration: the value object loaded once at startup, its
//! documented defaults, and the validation that must reject a crop
//! rectangle that does not fit inside the requested capture resolution
//! before any device is touched.

use vstd::prelude::*;
use crate::PipelineError;

verus! {

/// The immutable run configuration.  Loading and parsing the backing file
/// is the surrounding application's job; the library receives the plain
/// values and validates them.
pub struct Config {
    /// Identifier substring-matched (case-insensitively) against device metadata.
    pub camera_id: String,
    /// Requested capture width in pixels.
    pub camera_width: u32,
    /// Requested capture height in pixels.
    pub camera_height: u32,
    /// Requested frame rate.
    pub camera_frame_rate: u32,
    /// Directory the snapshot is written into.
    pub output_dir: String,
    /// Optional filename prefix; empty means no prefix.
    pub output_prefix: String,
    /// Left edge of the crop rectangle.
    pub crop_x: u32,
    /// Top edge of the crop rectangle.
    pub crop_y: u32,
    /// Width of the crop rectangle.
    pub crop_width: u32,
    /// Height of the crop rectangle.
    pub crop_height: u32,
    /// Strict mode: fail instead of falling back to device index 0.
    pub no_default_camera: bool,
    /// Account identifier of the object store.
    pub r2_accound_id: String,
    /// Bucket the snapshot is uploaded into.
    pub r2_bucket_name: String,
    /// Access key id for the object store.
    pub r2_access_key_id: String,
    /// Secret access key for the object store.
    pub r2_secret_access_key: String,
    /// Prefix of every upload key, e.g. `"plant-cam/"`.
    pub r2_project_prefix: String,
}

impl Default for Config {
    /// The documented defaults: 640x480 at 30 fps, a full-frame crop,
    /// output under `pictures`, strict device matching, and the
    /// `plant-cam/` upload prefix.
    fn default() -> (r: Config)
        ensures
            r.camera_id@ == ""@,
            r.camera_width == 640u32,
            r.camera_height == 480u32,
            r.camera_frame_rate == 30u32,
            r.output_dir@ == "pictures"@,
            r.output_prefix@ == ""@,
            r.crop_x == 0u32,
            r.crop_y == 0u32,
            r.crop_width == 640u32,
            r.crop_height == 480u32,
            r.no_default_camera == true,
            r.r2_accound_id@ == ""@,
            r.r2_bucket_name@ == ""@,
            r.r2_access_key_id@ == ""@,
            r.r2_secret_access_key@ == ""@,
            r.r2_project_prefix@ == "plant-cam/"@,
    {
        Config {
            camera_id: "".to_owned(),
            camera_width: 640,
            camera_height: 480,
            camera_frame_rate: 30,
            output_dir: "pictures".to_owned(),
            output_prefix: "".to_owned(),
            crop_x: 0,
            crop_y: 0,
            crop_width: 640,
            crop_height: 480,
            no_default_camera: true,
            r2_accound_id: "".to_owned(),
            r2_bucket_name: "".to_owned(),
            r2_access_key_id: "".to_owned(),
            r2_secret_access_key: "".to_owned(),
            r2_project_prefix: "plant-cam/".to_owned(),
        }
    }
}

/// What validation decides: a zero resolution or frame rate is a
/// configuration error; a crop rectangle reaching past the requested
/// resolution is a crop-bounds error; anything else is accepted.
pub open spec fn spec_validate(c: Config) -> Result<(), PipelineError> {
    if !(c.camera_width > 0 && c.camera_height > 0 && c.camera_frame_rate > 0) {
        Err(PipelineError::ConfigError)
    } else if !(c.crop_x + c.crop_width <= c.camera_width && c.crop_y + c.crop_height
        <= c.camera_height) {
        Err(PipelineError::CropBoundsError)
    } else {
        Ok(())
    }
}

impl Config {
    /// Checks the numeric fields before the pipeline starts: the crop
    /// rectangle must fit inside the capture resolution, which is the
    /// error that must be caught before any frame is captured.
    pub fn validate(&self) -> (r: Result<(), PipelineError>)
        ensures
            r == spec_validate(*self),
    {
        if !(self.camera_width > 0 && self.camera_height > 0 && self.camera_frame_rate > 0) {
            Err(PipelineError::ConfigError)
        } else if !((self.crop_x as u64 + self.crop_width as u64 <= self.camera_width as u64)
            && (self.crop_y as u64 + self.crop_height as u64 <= self.camera_height as u64)) {
            Err(PipelineError::CropBoundsError)
        } else {
            Ok(())
        }
    }
}

} // verus!
