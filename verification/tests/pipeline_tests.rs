use face_loop::config::DetectorConfig;
use face_loop::frame::ColorFrame;
use face_loop::pipeline::{Action, Event, FailureKind, Pipeline};
use face_loop::region::Region;

fn black(width: usize, height: usize) -> ColorFrame {
    ColorFrame::from_raw(width, height, vec![0u8; width * height * 3]).unwrap()
}

fn started() -> Pipeline {
    let (p, a) = Pipeline::new(DetectorConfig::default());
    assert!(matches!(a, Action::LoadModel));
    let (p, a) = p.step(Event::ModelLoaded);
    assert!(matches!(a, Action::OpenCamera));
    let (p, a) = p.step(Event::CameraOpened);
    assert!(matches!(a, Action::CaptureFrame));
    p
}

#[test]
fn config_defaults_are_documented_values() {
    let c = DetectorConfig::default();
    assert_eq!(c.scale_factor_tenths, 14);
    assert_eq!(c.min_neighbors, 2);
    assert!(c.scale_image);
    assert_eq!(c.min_width, 10);
    assert_eq!(c.min_height, 10);
    assert_eq!(c.max_width, 0);
    assert_eq!(c.max_height, 0);
}

#[test]
fn missing_model_halts_before_any_camera_access() {
    let (p, first) = Pipeline::new(DetectorConfig::default());
    assert!(matches!(first, Action::LoadModel));
    let (_, a) = p.step(Event::ModelLoadFailed);
    assert!(matches!(a, Action::Halt { failure: FailureKind::ModelUnavailable }));
}

#[test]
fn unavailable_camera_halts_on_open() {
    let (p, _) = Pipeline::new(DetectorConfig::default());
    let (p, a) = p.step(Event::ModelLoaded);
    assert!(matches!(a, Action::OpenCamera));
    let (_, a) = p.step(Event::CameraOpenFailed);
    assert!(matches!(a, Action::Halt { failure: FailureKind::CameraUnavailable }));
}

#[test]
fn frame_read_failure_halts() {
    let p = started();
    let (_, a) = p.step(Event::FrameReadFailed);
    assert!(matches!(a, Action::Halt { failure: FailureKind::FrameReadError }));
}

#[test]
fn detection_failure_halts() {
    let p = started();
    let (p, _) = p.step(Event::FrameCaptured { frame: black(4, 4) });
    let (_, a) = p.step(Event::DetectionFailed);
    assert!(matches!(a, Action::Halt { failure: FailureKind::DetectionError }));
}

#[test]
fn display_failure_halts() {
    let p = started();
    let (p, _) = p.step(Event::FrameCaptured { frame: black(4, 4) });
    let (p, _) = p.step(Event::RegionsComputed { regions: vec![] });
    let (_, a) = p.step(Event::DisplayFailed);
    assert!(matches!(a, Action::Halt { failure: FailureKind::DisplayError }));
}

#[test]
fn uniform_black_round_trip() {
    let p = started();
    let (p, a) = p.step(Event::FrameCaptured { frame: black(8, 8) });
    let gray = match a {
        Action::Detect { gray } => gray,
        _ => panic!("expected a detect instruction"),
    };
    assert_eq!(gray.width, 8);
    assert_eq!(gray.height, 8);
    assert!(gray.data.iter().all(|&v| v == 0));
    let (p, a) = p.step(Event::RegionsComputed { regions: vec![] });
    let shown = match a {
        Action::Present { frame } => frame,
        _ => panic!("expected a present instruction"),
    };
    assert!(shown.data.iter().all(|&v| v == 0));
    let (p, a) = p.step(Event::FramePresented);
    assert!(matches!(a, Action::CaptureFrame));
    assert_eq!(p.iterations, 1);
}

#[test]
fn one_face_round_draws_one_rectangle() {
    let p = started();
    let (p, a) = p.step(Event::FrameCaptured { frame: black(200, 200) });
    assert!(matches!(a, Action::Detect { .. }));
    let region = Region { x: 50, y: 50, width: 100, height: 100 };
    let (_, a) = p.step(Event::RegionsComputed { regions: vec![region] });
    let shown = match a {
        Action::Present { frame } => frame,
        _ => panic!("expected a present instruction"),
    };
    let at = |x: usize, y: usize, c: usize| shown.data[3 * (y * 200 + x) + c];
    assert_eq!(at(50, 50, 1), 255);
    assert_eq!(at(149, 50, 1), 255);
    assert_eq!(at(50, 149, 1), 255);
    assert_eq!(at(149, 149, 1), 255);
    assert_eq!(at(50, 50, 0), 0);
    assert_eq!(at(50, 50, 2), 0);
    assert_eq!(at(100, 100, 1), 0);
    assert_eq!(at(49, 50, 1), 0);
    assert_eq!(at(50, 49, 1), 0);
    assert_eq!(at(150, 50, 1), 0);
}

#[test]
fn second_round_presents_second_frame() {
    let p = started();
    let (p, _) = p.step(Event::FrameCaptured { frame: black(4, 4) });
    let (p, _) = p.step(Event::RegionsComputed { regions: vec![] });
    let (p, a) = p.step(Event::FramePresented);
    assert!(matches!(a, Action::CaptureFrame));
    assert_eq!(p.iterations, 1);
    let f2 = ColorFrame::from_raw(4, 4, vec![7u8; 48]).unwrap();
    let (p, a) = p.step(Event::FrameCaptured { frame: f2 });
    let gray = match a {
        Action::Detect { gray } => gray,
        _ => panic!("expected a detect instruction"),
    };
    assert!(gray.data.iter().all(|&v| v == 7));
    let (p, a) = p.step(Event::RegionsComputed { regions: vec![] });
    let shown = match a {
        Action::Present { frame } => frame,
        _ => panic!("expected a present instruction"),
    };
    assert!(shown.data.iter().all(|&v| v == 7));
    let (p, _) = p.step(Event::FramePresented);
    assert_eq!(p.iterations, 2);
}
