//! The pipeline state machine.  A run walks the stages
//! `Start -> ConfigLoaded -> DeviceSelected -> StreamOpened -> Cropped ->
//! Persisted -> Done` strictly in order; any stage failure moves to
//! `Failed`, which accepts no further event.  The machine makes every
//! decision (validation, device selection, cropping, naming); the caller
//! performs the outside work each `Action` asks for and feeds the outcome
//! back as the next `Event`.

use vstd::prelude::*;
use crate::PipelineError;
use crate::clock::Timestamp;
use crate::config::Config;
use crate::config::spec_validate;
use crate::device::DeviceDescriptor;
use crate::device::device_matches;
use crate::device::lemma_select_no_match_strict;
use crate::device::select;
use crate::device::spec_select;
use crate::frame::Frame;
use crate::frame::crop;
use crate::frame::is_crop_of;
use crate::snapshot::build_filename;
use crate::snapshot::build_output_path;
use crate::snapshot::build_upload_key;
use crate::snapshot::spec_filename;
use crate::snapshot::spec_output_path;
use crate::snapshot::spec_upload_key;

verus! {

/// Where a run stands between two outside interactions.
pub enum PipelineState {
    /// Nothing has happened yet; the configuration is to be loaded.
    Start,
    /// The configuration was loaded and validated.
    ConfigLoaded {
        /// The validated run configuration.
        config: Config,
    },
    /// A device was picked; its stream is to be opened.
    DeviceSelected {
        /// The validated run configuration.
        config: Config,
        /// The selected device's own enumeration index.
        camera_index: usize,
    },
    /// The stream is open; one frame is to be captured.
    StreamOpened {
        /// The validated run configuration.
        config: Config,
    },
    /// The frame was captured and cropped; the snapshot is being written.
    Cropped {
        /// The validated run configuration.
        config: Config,
        /// The timestamped snapshot filename.
        filename: String,
        /// The local path the snapshot is written to.
        path: String,
    },
    /// The snapshot is on local storage; the upload is in flight.
    Persisted {
        /// The validated run configuration.
        config: Config,
        /// The timestamped snapshot filename.
        filename: String,
        /// The local path the snapshot was written to.
        path: String,
    },
    /// Every stage completed.
    Done,
    /// A stage failed; the run is over.
    Failed {
        /// The terminal error.
        error: PipelineError,
    },
}

/// The outcome of one piece of outside work, fed back into the machine.
pub enum Event {
    /// The configuration file was read and parsed into plain values.
    ConfigRead {
        /// The loaded configuration, not yet validated.
        config: Config,
    },
    /// The configuration file is missing or malformed.
    ConfigReadFailed,
    /// Device enumeration finished; an empty list is not itself an error.
    DevicesListed {
        /// The discovered devices, in enumeration order.
        devices: Vec<DeviceDescriptor>,
    },
    /// The stream was opened at the requested format.
    Opened,
    /// The device could not be opened at the requested format.
    OpenFailed,
    /// A frame arrived, together with a clock reading for the filename.
    Captured {
        /// The raw frame as delivered by the device.
        frame: Frame,
        /// The clock reading, `None` when no usable time was available.
        time: Option<Timestamp>,
    },
    /// The stream delivered no frame.
    CaptureFailed,
    /// The snapshot was written to local storage.
    PersistDone,
    /// The snapshot could not be written.
    PersistFailed,
    /// The upload completed.
    UploadDone,
    /// The upload failed.
    UploadFailed,
}

/// The outside work the caller must perform next.
pub enum Action {
    /// Load and parse the configuration file.
    LoadConfig,
    /// Enumerate the capture devices.
    ListDevices,
    /// Open the device at `camera_index` with the requested format.
    OpenStream {
        /// The device index to open.
        camera_index: usize,
        /// Requested capture width.
        width: u32,
        /// Requested capture height.
        height: u32,
        /// Requested frame rate.
        frame_rate: u32,
    },
    /// Block for exactly one frame and read the clock.
    CaptureFrame,
    /// Create the parent directories of `path`, encode `image` as JPEG
    /// and write it there.
    Persist {
        /// The local path to write to.
        path: String,
        /// The cropped image to encode.
        image: Frame,
    },
    /// Read the file at `path` back and PUT it to the bucket under `key`.
    Upload {
        /// The remote object key.
        key: String,
        /// The local path to read back.
        path: String,
        /// The content type of the PUT, always `image/jpeg`.
        content_type: String,
    },
    /// Report success; the run reached `Done`.
    Finish,
    /// Log the error and terminate with a non-zero status.
    Abort {
        /// The terminal error.
        error: PipelineError,
    },
}

/// Which event each state accepts.  `Done` and `Failed` are terminal and
/// accept none: no stage runs after a failure.
pub open spec fn fits(state: PipelineState, ev: Event) -> bool {
    match (state, ev) {
        (PipelineState::Start, Event::ConfigRead { .. }) => true,
        (PipelineState::Start, Event::ConfigReadFailed) => true,
        (PipelineState::ConfigLoaded { .. }, Event::DevicesListed { .. }) => true,
        (PipelineState::DeviceSelected { .. }, Event::Opened) => true,
        (PipelineState::DeviceSelected { .. }, Event::OpenFailed) => true,
        (PipelineState::StreamOpened { .. }, Event::Captured { .. }) => true,
        (PipelineState::StreamOpened { .. }, Event::CaptureFailed) => true,
        (PipelineState::Cropped { .. }, Event::PersistDone) => true,
        (PipelineState::Cropped { .. }, Event::PersistFailed) => true,
        (PipelineState::Persisted { .. }, Event::UploadDone) => true,
        (PipelineState::Persisted { .. }, Event::UploadFailed) => true,
        _ => false,
    }
}

/// The transition failed with `e`: the machine is in the terminal failed
/// state and the only action left is to abort with that same error.
pub open spec fn failed(post: PipelineState, act: Action, e: PipelineError) -> bool {
    post == (PipelineState::Failed { error: e }) && act == (Action::Abort { error: e })
}

/// The crop rectangle of `config` lies fully inside a `width` by `height`
/// frame.
pub open spec fn crop_fits(config: Config, width: u32, height: u32) -> bool {
    config.crop_x + config.crop_width <= width && config.crop_y + config.crop_height <= height
}

/// The full transition relation of the machine: for each accepted
/// state/event pair, exactly which state comes next and which action the
/// caller is handed.
pub open spec fn step_rel(pre: PipelineState, ev: Event, post: PipelineState, act: Action) -> bool {
    match (pre, ev) {
        (PipelineState::Start, Event::ConfigRead { config }) => match spec_validate(config) {
            Ok(_) => post == (PipelineState::ConfigLoaded { config }) && act
                == Action::ListDevices,
            Err(e) => failed(post, act, e),
        },
        (PipelineState::Start, Event::ConfigReadFailed) => failed(
            post,
            act,
            PipelineError::ConfigError,
        ),
        (PipelineState::ConfigLoaded { config }, Event::DevicesListed { devices }) => match
            spec_select(devices@, config.camera_id@, config.no_default_camera) {
            Ok(i) => post == (PipelineState::DeviceSelected { config, camera_index: i }) && act
                == (Action::OpenStream {
                camera_index: i,
                width: config.camera_width,
                height: config.camera_height,
                frame_rate: config.camera_frame_rate,
            }),
            Err(e) => failed(post, act, e),
        },
        (PipelineState::DeviceSelected { config, camera_index: _ }, Event::Opened) => post
            == (PipelineState::StreamOpened { config }) && act == Action::CaptureFrame,
        (PipelineState::DeviceSelected { .. }, Event::OpenFailed) => failed(
            post,
            act,
            PipelineError::DeviceOpenError,
        ),
        (PipelineState::StreamOpened { config }, Event::Captured { frame, time }) => if !frame.wf() {
            failed(post, act, PipelineError::CaptureError)
        } else if !(time matches Some(t) && t.wf()) {
            failed(post, act, PipelineError::PersistError)
        } else if !crop_fits(config, frame.width, frame.height) {
            failed(post, act, PipelineError::CropBoundsError)
        } else {
            let fname = spec_filename(config.output_prefix@, time->Some_0);
            let lpath = spec_output_path(config.output_dir@, fname);
            &&& post matches PipelineState::Cropped { config: c2, filename, path } && c2 == config
                && filename@ == fname && path@ == lpath
            &&& act matches Action::Persist { path: p2, image } && p2@ == lpath && is_crop_of(
                image,
                frame,
                config.crop_x as int,
                config.crop_y as int,
                config.crop_width as int,
                config.crop_height as int,
            )
        },
        (PipelineState::StreamOpened { .. }, Event::CaptureFailed) => failed(
            post,
            act,
            PipelineError::CaptureError,
        ),
        (PipelineState::Cropped { config, filename, path }, Event::PersistDone) => {
            &&& post == (PipelineState::Persisted { config, filename, path })
            &&& act matches Action::Upload { key, path: p2, content_type } && key@
                == spec_upload_key(config.r2_project_prefix@, filename@) && p2@ == path@
                && content_type@ == "image/jpeg"@
        },
        (PipelineState::Cropped { .. }, Event::PersistFailed) => failed(
            post,
            act,
            PipelineError::PersistError,
        ),
        (PipelineState::Persisted { .. }, Event::UploadDone) => post == PipelineState::Done && act
            == Action::Finish,
        (PipelineState::Persisted { .. }, Event::UploadFailed) => failed(
            post,
            act,
            PipelineError::UploadError,
        ),
        _ => false,
    }
}

/// Advances the machine by one event and hands back the next state and
/// the next piece of outside work.
pub fn step(state: PipelineState, event: Event) -> (r: (PipelineState, Action))
    requires
        fits(state, event),
    ensures
        step_rel(state, event, r.0, r.1),
{
    match (state, event) {
        (PipelineState::Start, Event::ConfigRead { config }) => match config.validate() {
            Ok(_) => (PipelineState::ConfigLoaded { config }, Action::ListDevices),
            Err(e) => (PipelineState::Failed { error: e }, Action::Abort { error: e }),
        },
        (PipelineState::Start, Event::ConfigReadFailed) => (
            PipelineState::Failed { error: PipelineError::ConfigError },
            Action::Abort { error: PipelineError::ConfigError },
        ),
        (PipelineState::ConfigLoaded { config }, Event::DevicesListed { devices }) => match select(
            &devices,
            config.camera_id.as_str(),
            config.no_default_camera,
        ) {
            Ok(i) => {
                let act = Action::OpenStream {
                    camera_index: i,
                    width: config.camera_width,
                    height: config.camera_height,
                    frame_rate: config.camera_frame_rate,
                };
                (PipelineState::DeviceSelected { config, camera_index: i }, act)
            },
            Err(e) => (PipelineState::Failed { error: e }, Action::Abort { error: e }),
        },
        (PipelineState::DeviceSelected { config, camera_index: _ }, Event::Opened) => (
            PipelineState::StreamOpened { config },
            Action::CaptureFrame,
        ),
        (PipelineState::DeviceSelected { .. }, Event::OpenFailed) => (
            PipelineState::Failed { error: PipelineError::DeviceOpenError },
            Action::Abort { error: PipelineError::DeviceOpenError },
        ),
        (PipelineState::StreamOpened { config }, Event::Captured { frame, time }) => {
            proof {
                let wv = frame.width as int;
                let hv = frame.height as int;
                assert(wv * hv * 3 <= 0xffff_ffff * 0xffff_ffff * 3) by (nonlinear_arith)
                    requires
                        0 <= wv <= 0xffff_ffff,
                        0 <= hv <= 0xffff_ffff,
                ;
            }
            let frame_ok = frame.width as u128 * frame.height as u128 * 3 == frame.data.len()
                as u128;
            if !frame_ok {
                (
                    PipelineState::Failed { error: PipelineError::CaptureError },
                    Action::Abort { error: PipelineError::CaptureError },
                )
            } else {
                match time {
                    None => (
                        PipelineState::Failed { error: PipelineError::PersistError },
                        Action::Abort { error: PipelineError::PersistError },
                    ),
                    Some(t) => {
                        if !t.check_wf() {
                            (
                                PipelineState::Failed { error: PipelineError::PersistError },
                                Action::Abort { error: PipelineError::PersistError },
                            )
                        } else if !(config.crop_x as u64 + config.crop_width as u64 <= frame.width
                            as u64 && config.crop_y as u64 + config.crop_height as u64
                            <= frame.height as u64) {
                            (
                                PipelineState::Failed { error: PipelineError::CropBoundsError },
                                Action::Abort { error: PipelineError::CropBoundsError },
                            )
                        } else {
                            let image = crop(
                                &frame,
                                config.crop_x,
                                config.crop_y,
                                config.crop_width,
                                config.crop_height,
                            );
                            let filename = build_filename(config.output_prefix.as_str(), &t);
                            let path = build_output_path(
                                config.output_dir.as_str(),
                                filename.as_str(),
                            );
                            let act_path = path.clone();
                            (
                                PipelineState::Cropped { config, filename, path },
                                Action::Persist { path: act_path, image },
                            )
                        }
                    },
                }
            }
        },
        (PipelineState::StreamOpened { .. }, Event::CaptureFailed) => (
            PipelineState::Failed { error: PipelineError::CaptureError },
            Action::Abort { error: PipelineError::CaptureError },
        ),
        (PipelineState::Cropped { config, filename, path }, Event::PersistDone) => {
            let key = build_upload_key(config.r2_project_prefix.as_str(), filename.as_str());
            let act_path = path.clone();
            let content_type = "image/jpeg".to_owned();
            (
                PipelineState::Persisted { config, filename, path },
                Action::Upload { key, path: act_path, content_type },
            )
        },
        (PipelineState::Cropped { .. }, Event::PersistFailed) => (
            PipelineState::Failed { error: PipelineError::PersistError },
            Action::Abort { error: PipelineError::PersistError },
        ),
        (PipelineState::Persisted { .. }, Event::UploadDone) => (
            PipelineState::Done,
            Action::Finish,
        ),
        (PipelineState::Persisted { .. }, Event::UploadFailed) => (
            PipelineState::Failed { error: PipelineError::UploadError },
            Action::Abort { error: PipelineError::UploadError },
        ),
        _ => {
            proof {
                assert(false);
            }
            (PipelineState::Done, Action::Finish)
        },
    }
}

/// With strict mode on and no enumerated device matching the configured
/// identifier, the very next step aborts with DeviceNotFound: no stream
/// is opened and nothing is captured, written or uploaded.
pub proof fn lemma_strict_no_match_aborts(
    config: Config,
    devices: Vec<DeviceDescriptor>,
    post: PipelineState,
    act: Action,
)
    requires
        config.no_default_camera,
        forall|j: int|
            0 <= j < devices@.len() ==> !device_matches(devices@[j], config.camera_id@),
        step_rel(
            PipelineState::ConfigLoaded { config },
            Event::DevicesListed { devices },
            post,
            act,
        ),
    ensures
        post == (PipelineState::Failed { error: PipelineError::DeviceNotFound }),
        act == (Action::Abort { error: PipelineError::DeviceNotFound }),
{
    lemma_select_no_match_strict(devices@, config.camera_id@);
}

/// An upload failure after a successful persist terminates the run with
/// UploadError.  The only action handed out is the abort: the machine has
/// no action that deletes or rewrites a file, so the snapshot already on
/// local storage stays intact.
pub proof fn lemma_upload_failure_terminal(
    config: Config,
    filename: String,
    path: String,
    post: PipelineState,
    act: Action,
)
    requires
        step_rel(
            PipelineState::Persisted { config, filename, path },
            Event::UploadFailed,
            post,
            act,
        ),
    ensures
        post == (PipelineState::Failed { error: PipelineError::UploadError }),
        act == (Action::Abort { error: PipelineError::UploadError }),
{
}

/// A failed run accepts no further event: every error is terminal.
pub proof fn lemma_failed_is_terminal(e: PipelineError, ev: Event)
    ensures
        !fits(PipelineState::Failed { error: e }, ev),
{
}

} // verus!
