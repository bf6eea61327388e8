use planet_simulator::camera::CameraData;
use planet_simulator::capture::{CaptureButtons, CaptureInput, CaptureState, PointerMode};

fn input(focus_pressed: bool, exit_pressed: bool, pointer_over_ui: bool) -> CaptureInput {
    CaptureInput { focus_pressed, exit_pressed, pointer_over_ui }
}

#[test]
fn a_session_starts_captured() {
    assert_eq!(CaptureState::initial(), CaptureState::Captured);
    assert!(CameraData::default().enabled);
}

#[test]
fn decision_for_every_input() {
    assert_eq!(input(false, false, false).decision(), None);
    assert_eq!(input(false, false, true).decision(), None);
    assert_eq!(input(true, false, false).decision(), Some(CaptureState::Captured));
    assert_eq!(input(true, false, true).decision(), None);
    assert_eq!(input(false, true, false).decision(), Some(CaptureState::Free));
    assert_eq!(input(false, true, true).decision(), Some(CaptureState::Free));
    assert_eq!(input(true, true, false).decision(), Some(CaptureState::Free));
    assert_eq!(input(true, true, true).decision(), Some(CaptureState::Free));
}

#[test]
fn focus_captures_only_off_the_overlay() {
    assert_eq!(CaptureState::Free.step(&input(true, false, false)), CaptureState::Captured);
    assert_eq!(CaptureState::Free.step(&input(true, false, true)), CaptureState::Free);
    assert_eq!(CaptureState::Free.step(&input(false, false, false)), CaptureState::Free);
}

#[test]
fn exit_frees_wherever_the_pointer_is() {
    assert_eq!(CaptureState::Captured.step(&input(false, true, false)), CaptureState::Free);
    assert_eq!(CaptureState::Captured.step(&input(false, true, true)), CaptureState::Free);
    assert_eq!(CaptureState::Captured.step(&input(true, true, false)), CaptureState::Free);
    assert_eq!(CaptureState::Free.step(&input(true, true, false)), CaptureState::Free);
}

#[test]
fn without_a_press_the_state_stays() {
    for over_ui in [false, true] {
        assert_eq!(CaptureState::Captured.step(&input(false, false, over_ui)), CaptureState::Captured);
        assert_eq!(CaptureState::Free.step(&input(false, false, over_ui)), CaptureState::Free);
    }
    assert_eq!(CaptureState::Captured.step(&input(true, false, true)), CaptureState::Captured);
    assert_eq!(CaptureState::Captured.step(&input(true, false, false)), CaptureState::Captured);
}

#[test]
fn pointer_is_hidden_and_locked_while_captured() {
    assert_eq!(CaptureState::Captured.pointer(), PointerMode { visible: false, locked: true });
    assert_eq!(CaptureState::Free.pointer(), PointerMode { visible: true, locked: false });
}

#[test]
fn cameras_take_input_while_captured() {
    assert!(CaptureState::Captured.enables_cameras());
    assert!(!CaptureState::Free.enables_cameras());
}

#[test]
fn a_press_is_a_button_that_went_down() {
    let up = CaptureButtons { focus_held: false, exit_held: false };
    let focus = CaptureButtons { focus_held: true, exit_held: false };
    let exit = CaptureButtons { focus_held: false, exit_held: true };
    let both = CaptureButtons { focus_held: true, exit_held: true };
    assert_eq!(CaptureInput::from_held(&up, &focus, false), input(true, false, false));
    assert_eq!(CaptureInput::from_held(&up, &exit, true), input(false, true, true));
    assert_eq!(CaptureInput::from_held(&up, &both, false), input(true, true, false));
    assert_eq!(CaptureInput::from_held(&focus, &both, false), input(false, true, false));
    assert_eq!(CaptureInput::from_held(&up, &up, true), input(false, false, true));
}

#[test]
fn a_button_that_stays_down_is_no_press() {
    let both = CaptureButtons { focus_held: true, exit_held: true };
    let up = CaptureButtons { focus_held: false, exit_held: false };
    assert_eq!(CaptureInput::from_held(&both, &both, false), input(false, false, false));
    assert_eq!(CaptureInput::from_held(&both, &up, false), input(false, false, false));
    let held = CaptureInput::from_held(&both, &both, false);
    assert_eq!(CaptureState::Free.step(&held), CaptureState::Free);
    assert_eq!(CaptureState::Captured.step(&held), CaptureState::Captured);
}

#[test]
fn capture_sets_the_flag_of_a_camera() {
    let mut cam = CameraData::default();
    cam.capture(&input(false, true, true));
    assert!(!cam.enabled);
    cam.capture(&input(true, false, true));
    assert!(!cam.enabled);
    cam.capture(&input(false, false, false));
    assert!(!cam.enabled);
    cam.capture(&input(true, false, false));
    assert!(cam.enabled);
    cam.capture(&input(false, false, false));
    assert!(cam.enabled);
    cam.capture(&input(true, true, false));
    assert!(!cam.enabled);
}

#[test]
fn capture_changes_nothing_but_the_flag() {
    let mut cam = CameraData::default();
    cam.yaw = 5;
    cam.pitch = -6;
    let before = cam;
    cam.capture(&input(false, true, false));
    assert_eq!(CameraData { enabled: true, ..cam }, before);
}
