use plant_cam::PipelineError;
use plant_cam::device::DeviceDescriptor;
use plant_cam::device::contains_substr;
use plant_cam::device::select;

fn dev(index: usize, misc: &str) -> DeviceDescriptor {
    DeviceDescriptor { index, misc: misc.to_string() }
}

#[test]
fn unique_match_returns_that_devices_index() {
    let devices = vec![dev(5, "Integrated Webcam"), dev(7, "USB Camera 2.0"), dev(9, "Virtual Loopback")];
    assert_eq!(select(&devices, "usb", true), Ok(7));
}

#[test]
fn matching_is_case_insensitive_both_ways() {
    let devices = vec![dev(0, "usb camera 2.0")];
    assert_eq!(select(&devices, "USB", true), Ok(0));
    let devices = vec![dev(3, "USB CAMERA 2.0")];
    assert_eq!(select(&devices, "usb cam", true), Ok(3));
}

#[test]
fn first_match_wins() {
    let devices = vec![dev(2, "USB Camera A"), dev(4, "USB Camera B")];
    assert_eq!(select(&devices, "usb", true), Ok(2));
}

#[test]
fn no_match_strict_fails_with_device_not_found() {
    let devices = vec![dev(0, "Integrated Webcam")];
    assert_eq!(select(&devices, "usb", true), Err(PipelineError::DeviceNotFound));
}

#[test]
fn no_match_fallback_returns_zero_with_warning_path() {
    let devices = vec![dev(6, "Integrated Webcam")];
    assert_eq!(select(&devices, "usb", false), Ok(0));
}

#[test]
fn empty_enumeration_strict_fails() {
    let devices: Vec<DeviceDescriptor> = Vec::new();
    assert_eq!(select(&devices, "usb", true), Err(PipelineError::DeviceNotFound));
}

#[test]
fn empty_enumeration_fallback_still_returns_zero() {
    let devices: Vec<DeviceDescriptor> = Vec::new();
    assert_eq!(select(&devices, "usb", false), Ok(0));
}

#[test]
fn empty_identifier_matches_the_first_device() {
    let devices = vec![dev(8, "Anything At All"), dev(9, "Other")];
    assert_eq!(select(&devices, "", true), Ok(8));
}

#[test]
fn substring_search_finds_inner_and_edge_occurrences() {
    assert!(contains_substr("usb camera 2.0", "camera"));
    assert!(contains_substr("usb camera 2.0", "usb"));
    assert!(contains_substr("usb camera 2.0", "2.0"));
    assert!(contains_substr("anything", ""));
    assert!(!contains_substr("usb camera", "webcam"));
    assert!(!contains_substr("", "a"));
}
