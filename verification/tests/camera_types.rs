use toolchanger_utils::decimal::decimal_string;
use toolchanger_utils::preprocess::{PreprocessStep, PreprocessStepType, ThresholdType};
use toolchanger_utils::ui_types::{Axis, Tab};
use toolchanger_utils::vision_types::{
    frame_file_name, CameraControl, CameraControlKind, CameraFormat, CameraSettings,
    NozzlePosition,
};

#[test]
fn axis_names() {
    assert_eq!(Axis::X.to_str(), "X");
    assert_eq!(Axis::Y.to_str(), "Y");
    assert_eq!(Axis::Z.to_str(), "Z");
    assert_eq!(Axis::default(), Axis::X);
    assert_eq!(Tab::default(), Tab::Webcam);
}

#[test]
fn decimal_rendering_matches_format() {
    for n in [0u64, 7, 9, 10, 99, 100, 1234, 65535, u64::MAX] {
        assert_eq!(decimal_string(n), format!("{}", n));
    }
}

#[test]
fn camera_format_label() {
    let f = CameraFormat::from_parts(1280, 800, 0, 30);
    assert_eq!(f.to_string(), "30 fps, 1280x800");
    let f = CameraFormat::from_parts(640, 480, 1, 5);
    assert_eq!(f.to_string(), " 5 fps, 640x480");
    let f = CameraFormat::from_parts(3840, 2160, 2, 120);
    assert_eq!(f.to_string(), "120 fps, 3840x2160");
    for (w, h, r) in [(0u32, 0u32, 0u32), (1, 2, 9), (1920, 1080, 60), (u32::MAX, 1, 10)] {
        let f = CameraFormat { size: (w, h), format: 3, framerate: r };
        assert_eq!(f.to_string(), format!("{: >2} fps, {}x{}", r, w, h));
    }
}

#[test]
fn camera_format_names() {
    let names = ["MJPEG", "YUYV", "NV12", "GRAY", "RAWRGB", "Unknown", "Unknown"];
    for (code, name) in names.iter().enumerate() {
        let f = CameraFormat::from_parts(1, 1, code as u32, 1);
        assert_eq!(f.get_format(), *name);
    }
    assert_eq!(CameraFormat::from_parts(1, 1, u32::MAX, 1).get_format(), "Unknown");
}

#[test]
fn camera_settings_default() {
    let s = CameraSettings::default();
    assert_eq!(s.brightness, 0);
    assert_eq!(s.contrast, 38);
    assert_eq!(s.saturation, 64);
    assert_eq!(s.sharpness, 93);
    assert_eq!(s.gamma, 400);
    assert_eq!(s.white_balance, 4600);
    assert_eq!(s.backlight_comp, 1);
}

#[test]
fn camera_control_targets() {
    assert_eq!(CameraControl::Brightness(-3).to_control(), (CameraControlKind::Brightness, -3));
    assert_eq!(CameraControl::Contrast(38).to_control(), (CameraControlKind::Contrast, 38));
    assert_eq!(CameraControl::Saturation(64).to_control(), (CameraControlKind::Saturation, 64));
    assert_eq!(CameraControl::Sharpness(93).to_control(), (CameraControlKind::Sharpness, 93));
    assert_eq!(CameraControl::Gamma(400).to_control(), (CameraControlKind::Gamma, 400));
    assert_eq!(
        CameraControl::WhiteBalance(4600).to_control(),
        (CameraControlKind::WhiteBalance, 4600)
    );
    assert_eq!(
        CameraControl::BacklightComp(1).to_control(),
        (CameraControlKind::BacklightComp, 1)
    );
}

#[test]
fn nozzle_positions_compare() {
    assert_eq!(NozzlePosition::Centered, NozzlePosition::Centered);
    assert_ne!(NozzlePosition::Up, NozzlePosition::NotVisible);
}

#[test]
fn frame_paths() {
    assert_eq!(frame_file_name(0), "test_images/frame_0000.jpg");
    assert_eq!(frame_file_name(46), "test_images/frame_0046.jpg");
    assert_eq!(frame_file_name(12345), "test_images/frame_12345.jpg");
    for n in [1u64, 999, 1000, 9999] {
        assert_eq!(frame_file_name(n), format!("test_images/frame_{:0>4}.jpg", n));
    }
}

#[test]
fn threshold_settings() {
    assert_eq!(ThresholdType::from_setting(0), Some(ThresholdType::BinaryInv));
    assert_eq!(ThresholdType::from_setting(1), Some(ThresholdType::BinaryInvTriangle));
    assert_eq!(ThresholdType::from_setting(2), Some(ThresholdType::BinaryInvOtsu));
    assert_eq!(ThresholdType::from_setting(3), None);
}

#[test]
fn preprocess_labels() {
    assert_eq!(PreprocessStepType::<f64>::ConvertGrayscale.to_str(), "Convert Grayscale");
    assert_eq!(PreprocessStepType::<f64>::ConvertLuma.to_str(), "Convert Luma");
    assert_eq!(
        PreprocessStepType::GaussianBlur { ksize: 7, sigma: 6.0 }.to_str(),
        "Gaussian Blur"
    );
    assert_eq!(
        PreprocessStepType::Threshold { threshold: 127.0, threshold_type: ThresholdType::Binary }
            .to_str(),
        "Threshold"
    );
    assert_eq!(PreprocessStepType::<f64>::AdaptiveThreshold.to_str(), "Adaptive Threshold");
    assert_eq!(PreprocessStepType::<f64>::default(), PreprocessStepType::ConvertLuma);
    let step = PreprocessStep { step: PreprocessStepType::<f64>::ConvertLuma, enabled: true };
    assert!(step.enabled);
}

#[test]
fn frame_paths_never_collide() {
    let mut seen = std::collections::HashSet::new();
    for n in (0..2000u64).chain([9999, 10000, 99999, 100000, u64::MAX]) {
        assert!(seen.insert(frame_file_name(n)), "frame {} reuses a name", n);
    }
}

#[test]
fn decimal_renderings_never_collide() {
    let mut seen = std::collections::HashSet::new();
    for n in (0..5000u64).chain([u64::MAX - 1, u64::MAX]) {
        assert!(seen.insert(decimal_string(n)));
    }
}
