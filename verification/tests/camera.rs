use camera_settings::camera::{get_name, get_path};

#[test]
fn camera_path_falls_back_to_the_first_device() {
    assert_eq!(get_path(Some("/dev/video4".to_string())), "/dev/video4");
    assert_eq!(get_path(Some(String::new())), "");
    assert_eq!(get_path(None), "/dev/video0");
}

#[test]
fn camera_name_falls_back_to_unknown() {
    assert_eq!(get_name(Some("Integrated Camera".to_string())), "Integrated Camera");
    assert_eq!(get_name(None), "Unknown");
}
