use plant_cam::clock::Timestamp;
use plant_cam::snapshot::build_filename;
use plant_cam::snapshot::build_output_path;
use plant_cam::snapshot::build_upload_key;

fn ts(year: u32, month: u32, day: u32, hour: u32, minute: u32, second: u32) -> Timestamp {
    Timestamp { year, month, day, hour, minute, second }
}

#[test]
fn filename_with_prefix_and_minute_granularity() {
    let early = ts(2024, 1, 1, 12, 34, 5);
    let late = ts(2024, 1, 1, 12, 34, 55);
    let a = build_filename("cam1", &early);
    let b = build_filename("cam1", &late);
    assert_eq!(a, "cam1-20240101_1234.jpg");
    assert_eq!(a, b);
}

#[test]
fn filename_without_prefix_has_no_dash() {
    let t = ts(2024, 6, 15, 9, 30, 0);
    assert_eq!(build_filename("", &t), "20240615_0930.jpg");
}

#[test]
fn filename_zero_pads_every_component() {
    let t = ts(987, 3, 4, 5, 6, 7);
    assert_eq!(build_filename("", &t), "09870304_0506.jpg");
}

#[test]
fn output_path_joins_with_separator() {
    assert_eq!(build_output_path("pictures", "20240615_0930.jpg"), "pictures/20240615_0930.jpg");
}

#[test]
fn output_path_keeps_existing_trailing_separator() {
    assert_eq!(build_output_path("pictures/", "a.jpg"), "pictures/a.jpg");
}

#[test]
fn output_path_with_empty_directory_is_the_filename() {
    assert_eq!(build_output_path("", "a.jpg"), "a.jpg");
}

#[test]
fn upload_key_is_prefix_pictures_filename() {
    assert_eq!(
        build_upload_key("plant-cam/", "20240615_0930.jpg"),
        "plant-cam/pictures/20240615_0930.jpg"
    );
    assert_eq!(build_upload_key("", "a.jpg"), "pictures/a.jpg");
}
