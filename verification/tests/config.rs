use clearframe::config::{FormatInfo, State, SurfaceCaps};
use clearframe::event::EventKind;

fn caps(formats: Vec<FormatInfo>) -> SurfaceCaps {
    SurfaceCaps { formats, present_modes: vec![7, 8], alpha_modes: vec![3] }
}

#[test]
fn initial_config_takes_window_size_and_first_modes() {
    let c = caps(vec![FormatInfo { id: 0, srgb: true }]);
    let s = State::new(&c, 800, 600);
    assert_eq!(s.width, 800);
    assert_eq!(s.height, 600);
    assert_eq!(s.config.width, 800);
    assert_eq!(s.config.height, 600);
    assert_eq!(s.config.present_mode, 7);
    assert_eq!(s.config.alpha_mode, 3);
    assert_eq!(s.config.desired_maximum_frame_latency, 2);
}

#[test]
fn format_choice_prefers_first_srgb() {
    let c = caps(vec![
        FormatInfo { id: 0, srgb: false },
        FormatInfo { id: 1, srgb: true },
        FormatInfo { id: 2, srgb: true },
    ]);
    let s = State::new(&c, 100, 100);
    assert_eq!(s.config.format, FormatInfo { id: 1, srgb: true });
}

#[test]
fn format_choice_falls_back_to_first_reported() {
    let c = caps(vec![
        FormatInfo { id: 5, srgb: false },
        FormatInfo { id: 6, srgb: false },
    ]);
    let s = State::new(&c, 100, 100);
    assert_eq!(s.config.format, FormatInfo { id: 5, srgb: false });
}

#[test]
fn resize_with_zero_width_is_ignored() {
    let c = caps(vec![FormatInfo { id: 0, srgb: true }]);
    let mut s = State::new(&c, 800, 600);
    let before = s;
    assert!(!s.resize(0, 400));
    assert_eq!(s, before);
}

#[test]
fn resize_with_zero_height_is_ignored() {
    let c = caps(vec![FormatInfo { id: 0, srgb: true }]);
    let mut s = State::new(&c, 800, 600);
    let before = s;
    assert!(!s.resize(400, 0));
    assert_eq!(s, before);
}

#[test]
fn resize_with_both_zero_is_ignored() {
    let c = caps(vec![FormatInfo { id: 0, srgb: true }]);
    let mut s = State::new(&c, 800, 600);
    let before = s;
    assert!(!s.resize(0, 0));
    assert_eq!(s, before);
}

#[test]
fn resize_with_positive_dimensions_is_stored() {
    let c = caps(vec![FormatInfo { id: 0, srgb: true }]);
    let mut s = State::new(&c, 800, 600);
    assert!(s.resize(1024, 768));
    assert_eq!(s.width, 1024);
    assert_eq!(s.height, 768);
    assert_eq!(s.config.width, 1024);
    assert_eq!(s.config.height, 768);
    assert_eq!(s.config.present_mode, 7);
    assert_eq!(s.config.alpha_mode, 3);
    assert_eq!(s.config.desired_maximum_frame_latency, 2);
}

#[test]
fn resize_to_one_pixel_is_stored() {
    let c = caps(vec![FormatInfo { id: 0, srgb: true }]);
    let mut s = State::new(&c, 800, 600);
    assert!(s.resize(1, 1));
    assert_eq!(s.width, 1);
    assert_eq!(s.height, 1);
}

#[test]
fn input_consumes_nothing_and_changes_nothing() {
    let c = caps(vec![FormatInfo { id: 0, srgb: true }]);
    let mut s = State::new(&c, 800, 600);
    let before = s;
    assert!(!s.input(&EventKind::CloseRequested));
    assert!(!s.input(&EventKind::EscapePressed));
    assert!(!s.input(&EventKind::Resized(10, 10)));
    assert!(!s.input(&EventKind::RedrawRequested));
    assert!(!s.input(&EventKind::Other));
    assert_eq!(s, before);
}

#[test]
fn update_changes_nothing() {
    let c = caps(vec![FormatInfo { id: 0, srgb: true }]);
    let mut s = State::new(&c, 800, 600);
    let before = s;
    s.update();
    assert_eq!(s, before);
}
