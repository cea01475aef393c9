use plant_cam::PipelineError;
use plant_cam::clock::Timestamp;
use plant_cam::config::Config;
use plant_cam::device::DeviceDescriptor;
use plant_cam::frame::Frame;
use plant_cam::pipeline::Action;
use plant_cam::pipeline::Event;
use plant_cam::pipeline::PipelineState;
use plant_cam::pipeline::step;

fn scenario_config() -> Config {
    let mut c = Config::default();
    c.camera_id = "usb".to_string();
    c.output_prefix = "".to_string();
    c.output_dir = "pictures".to_string();
    c.crop_x = 0;
    c.crop_y = 0;
    c.crop_width = 640;
    c.crop_height = 480;
    c.r2_project_prefix = "plant-cam/".to_string();
    c
}

fn solid_frame(width: u32, height: u32, value: u8) -> Frame {
    Frame { width, height, data: vec![value; (width * height * 3) as usize] }
}

#[test]
fn end_to_end_scenario_reaches_done() {
    let time = Timestamp { year: 2024, month: 6, day: 15, hour: 9, minute: 30, second: 0 };

    let (st, act) = step(PipelineState::Start, Event::ConfigRead { config: scenario_config() });
    assert!(matches!(st, PipelineState::ConfigLoaded { .. }));
    assert!(matches!(act, Action::ListDevices));

    let devices = vec![DeviceDescriptor { index: 0, misc: "USB Camera 2.0".to_string() }];
    let (st, act) = step(st, Event::DevicesListed { devices });
    match &st {
        PipelineState::DeviceSelected { camera_index, .. } => assert_eq!(*camera_index, 0),
        other => panic!("unexpected state {:?}", std::mem::discriminant(other)),
    }
    match act {
        Action::OpenStream { camera_index, width, height, frame_rate } => {
            assert_eq!(camera_index, 0);
            assert_eq!(width, 640);
            assert_eq!(height, 480);
            assert_eq!(frame_rate, 30);
        }
        _ => panic!("expected the open-stream action"),
    }

    let (st, act) = step(st, Event::Opened);
    assert!(matches!(st, PipelineState::StreamOpened { .. }));
    assert!(matches!(act, Action::CaptureFrame));

    let frame = solid_frame(640, 480, 77);
    let (st, act) = step(st, Event::Captured { frame: frame.clone(), time: Some(time) });
    let persist_path = match act {
        Action::Persist { path, image } => {
            assert_eq!(path, "pictures/20240615_0930.jpg");
            assert_eq!(image.width, 640);
            assert_eq!(image.height, 480);
            assert_eq!(image.data, frame.data);
            path
        }
        _ => panic!("expected the persist action"),
    };
    match &st {
        PipelineState::Cropped { filename, path, .. } => {
            assert_eq!(filename, "20240615_0930.jpg");
            assert_eq!(path, &persist_path);
        }
        _ => panic!("expected the cropped state"),
    }

    let (st, act) = step(st, Event::PersistDone);
    assert!(matches!(st, PipelineState::Persisted { .. }));
    match act {
        Action::Upload { key, path, content_type } => {
            assert_eq!(key, "plant-cam/pictures/20240615_0930.jpg");
            assert_eq!(path, "pictures/20240615_0930.jpg");
            assert_eq!(content_type, "image/jpeg");
        }
        _ => panic!("expected the upload action"),
    }

    let (st, act) = step(st, Event::UploadDone);
    assert!(matches!(st, PipelineState::Done));
    assert!(matches!(act, Action::Finish));
}

#[test]
fn oversized_crop_is_rejected_at_config_time() {
    let mut config = scenario_config();
    config.crop_x = 100;
    config.crop_y = 100;
    config.crop_width = 700;
    config.crop_height = 700;
    let (st, act) = step(PipelineState::Start, Event::ConfigRead { config });
    assert!(matches!(st, PipelineState::Failed { error: PipelineError::CropBoundsError }));
    assert!(matches!(act, Action::Abort { error: PipelineError::CropBoundsError }));
}

#[test]
fn oversized_crop_against_the_delivered_frame_fails_before_any_write() {
    // The crop fits the requested 800x800 resolution, so validation
    // passes, but the device delivers only 640x480.
    let mut config = scenario_config();
    config.camera_width = 800;
    config.camera_height = 800;
    config.crop_x = 100;
    config.crop_y = 100;
    config.crop_width = 700;
    config.crop_height = 700;
    let st = PipelineState::StreamOpened { config };
    let time = Timestamp { year: 2024, month: 6, day: 15, hour: 9, minute: 30, second: 0 };
    let (st, act) = step(st, Event::Captured { frame: solid_frame(640, 480, 1), time: Some(time) });
    assert!(matches!(st, PipelineState::Failed { error: PipelineError::CropBoundsError }));
    assert!(matches!(act, Action::Abort { error: PipelineError::CropBoundsError }));
}

#[test]
fn upload_failure_after_persist_aborts_and_leaves_the_file_alone() {
    let st = PipelineState::Persisted {
        config: scenario_config(),
        filename: "20240615_0930.jpg".to_string(),
        path: "pictures/20240615_0930.jpg".to_string(),
    };
    let (st, act) = step(st, Event::UploadFailed);
    assert!(matches!(st, PipelineState::Failed { error: PipelineError::UploadError }));
    // The only action handed out is the abort; the machine never asks the
    // caller to delete or rewrite the persisted file.
    assert!(matches!(act, Action::Abort { error: PipelineError::UploadError }));
}

#[test]
fn no_matching_device_in_strict_mode_aborts_at_selection() {
    let (st, _) = step(PipelineState::Start, Event::ConfigRead { config: scenario_config() });
    let devices = vec![DeviceDescriptor { index: 0, misc: "Integrated Webcam".to_string() }];
    let (st, act) = step(st, Event::DevicesListed { devices });
    assert!(matches!(st, PipelineState::Failed { error: PipelineError::DeviceNotFound }));
    assert!(matches!(act, Action::Abort { error: PipelineError::DeviceNotFound }));
}

#[test]
fn no_matching_device_with_fallback_opens_index_zero() {
    let mut config = scenario_config();
    config.no_default_camera = false;
    let (st, _) = step(PipelineState::Start, Event::ConfigRead { config });
    let devices = vec![DeviceDescriptor { index: 4, misc: "Integrated Webcam".to_string() }];
    let (st, act) = step(st, Event::DevicesListed { devices });
    assert!(matches!(st, PipelineState::DeviceSelected { camera_index: 0, .. }));
    assert!(matches!(act, Action::OpenStream { camera_index: 0, .. }));
}

#[test]
fn each_outside_failure_maps_to_its_error() {
    let (st, act) = step(PipelineState::Start, Event::ConfigReadFailed);
    assert!(matches!(st, PipelineState::Failed { error: PipelineError::ConfigError }));
    assert!(matches!(act, Action::Abort { error: PipelineError::ConfigError }));

    let st = PipelineState::DeviceSelected { config: scenario_config(), camera_index: 0 };
    let (st, _) = step(st, Event::OpenFailed);
    assert!(matches!(st, PipelineState::Failed { error: PipelineError::DeviceOpenError }));

    let st = PipelineState::StreamOpened { config: scenario_config() };
    let (st, _) = step(st, Event::CaptureFailed);
    assert!(matches!(st, PipelineState::Failed { error: PipelineError::CaptureError }));

    let st = PipelineState::Cropped {
        config: scenario_config(),
        filename: "a.jpg".to_string(),
        path: "pictures/a.jpg".to_string(),
    };
    let (st, _) = step(st, Event::PersistFailed);
    assert!(matches!(st, PipelineState::Failed { error: PipelineError::PersistError }));
}

#[test]
fn a_frame_with_a_short_buffer_is_a_capture_error() {
    let st = PipelineState::StreamOpened { config: scenario_config() };
    let time = Timestamp { year: 2024, month: 6, day: 15, hour: 9, minute: 30, second: 0 };
    let bad = Frame { width: 640, height: 480, data: vec![0; 10] };
    let (st, _) = step(st, Event::Captured { frame: bad, time: Some(time) });
    assert!(matches!(st, PipelineState::Failed { error: PipelineError::CaptureError }));
}

#[test]
fn a_missing_clock_reading_is_a_persist_error() {
    let st = PipelineState::StreamOpened { config: scenario_config() };
    let (st, _) = step(st, Event::Captured { frame: solid_frame(640, 480, 0), time: None });
    assert!(matches!(st, PipelineState::Failed { error: PipelineError::PersistError }));
}
