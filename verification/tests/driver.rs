use anx7625::driver::{edid_result, status_result};
use anx7625::{edid_modes, Edid, EdidModes};

#[test]
fn status_zero_and_positive_are_ok() {
    assert_eq!(status_result(0), Ok(()));
    assert_eq!(status_result(7), Ok(()));
    assert_eq!(status_result(i32::MAX), Ok(()));
}

#[test]
fn status_negative_is_error_with_code() {
    assert_eq!(status_result(-1), Err(-1));
    assert_eq!(status_result(-22), Err(-22));
    assert_eq!(status_result(i32::MIN), Err(i32::MIN));
}

#[test]
fn edid_result_cases() {
    let mut e = Edid::zeroed();
    e.x_resolution = 1920;
    e.y_resolution = 1080;
    match edid_result(0, e) {
        Ok(got) => assert_eq!((got.x_resolution, got.y_resolution), (1920, 1080)),
        Err(_) => panic!("status 0 must give the record"),
    }
    match edid_result(-5, e) {
        Err((code, got)) => {
            assert_eq!(code, -5);
            assert_eq!(got.x_resolution, 1920);
        }
        Ok(_) => panic!("negative status must be an error"),
    }
}

#[test]
fn zeroed_edid_is_all_zero() {
    let e = Edid::zeroed();
    assert_eq!(e.framebuffer_bits_per_pixel, 0);
    assert_eq!(e.mode.name, 0);
    assert_eq!(e.mode.pixel_clock, 0);
    assert_eq!(e.mode.y_mm, 0);
    assert_eq!(e.mode_is_supported, [0u8; 7]);
    assert_eq!(e.ascii_string, [0i8; 14]);
    assert_eq!(e.manufacturer_name, [0i8; 4]);
    assert_eq!(e.hdmi_monitor_detected, 0);
}

#[test]
fn mode_codes() {
    assert_eq!(EdidModes::EDID_MODE_640x480_60Hz.code(), 0);
    assert_eq!(edid_modes::EDID_MODE_720x480_60Hz.code(), 1);
    assert_eq!(edid_modes::EDID_MODE_800x600_59Hz.code(), 2);
    assert_eq!(edid_modes::EDID_MODE_1024x768_60Hz.code(), 3);
    assert_eq!(edid_modes::EDID_MODE_1280x768_60Hz.code(), 4);
    assert_eq!(edid_modes::EDID_MODE_1280x720_60Hz.code(), 5);
    assert_eq!(edid_modes::EDID_MODE_1920x1080_60Hz.code(), 6);
    assert_eq!(edid_modes::NUM_KNOWN_MODES.code(), 7);
    assert_eq!(edid_modes::EDID_MODE_AUTO.code(), 8);
}
