use kamera::camera_idea::{
    CameraCapabilities, CameraConstraints, CameraFrame, CameraSettings, CameraState, Capability,
    Constraint, State,
};
use kamera::CameraInfo;

#[test]
fn defaults_are_unconstrained() {
    assert!(matches!(CameraConstraints::default().width, Constraint::Any));
    assert!(matches!(CameraCapabilities::default().frame_rate, Capability::Any));
    let settings = CameraSettings::default();
    assert_eq!((settings.width, settings.height, settings.frame_rate), (0, 0, 0));
}

#[test]
fn camera_state_starts_without_camera() {
    let state = CameraState::new();
    assert!(matches!(state.state, State::NoCamera));
    assert!(state.available_cameras.is_empty());
}

#[test]
fn empty_frame() {
    let frame = CameraFrame::new();
    assert_eq!(frame.width(), 0);
    assert_eq!(frame.height(), 0);
    assert!(frame.pixels().is_empty());
}

#[test]
fn frame_accessors_report_fields() {
    let frame = CameraFrame {
        frame_counter: 4,
        width: 2,
        height: 1,
        raw_format: kamera::camera_idea::RawFormat::RGBA,
        raw_data: vec![1, 2, 3, 4, 5, 6, 7, 8],
        camera_info: CameraInfo::default(),
    };
    assert_eq!(frame.width(), 2);
    assert_eq!(frame.height(), 1);
    assert_eq!(frame.pixels(), &[1, 2, 3, 4, 5, 6, 7, 8]);
}

#[test]
fn camera_info_clone_keeps_fields() {
    let info = CameraInfo { id: "dev-7".to_string(), label: "Desk".to_string() };
    let copy = info.clone();
    assert_eq!(copy.id, info.id);
    assert_eq!(copy.label, info.label);
}
