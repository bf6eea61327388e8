use planet_simulator::camera::CameraData;
use planet_simulator::capture::{CaptureInput, CaptureState};
use planet_simulator::frame::{Frame, Outcome};
use planet_simulator::input::{MovementKeys, PointerDelta};
use planet_simulator::systems::{grab_mouse, keyboard_movement_system, mouse_handling_system, tick, Report};
use planet_simulator::vector::Vec3;

fn motion(x: i64, y: i64) -> PointerDelta {
    PointerDelta::Motion { x, y }
}

fn quiet() -> CaptureInput {
    CaptureInput { focus_pressed: false, exit_pressed: false, pointer_over_ui: false }
}

fn three_cameras() -> Vec<CameraData> {
    let first = CameraData::default();
    let second = CameraData { enabled: false, yaw: 1_000_000, ..CameraData::default() };
    let third = CameraData { sensitivity: 6_000_000, acceleration: 3_000_000, ..CameraData::default() };
    vec![first, second, third]
}

#[test]
fn mouse_system_turns_every_enabled_camera() {
    let mut cameras = three_cameras();
    let mut samples = vec![motion(4_000_000, 1_000_000), motion(6_000_000, 1_000_000)];
    let turned = mouse_handling_system(&mut cameras, &mut samples, 100_000);
    assert_eq!(turned, vec![true, false, true]);
    assert!(samples.is_empty());
    assert_eq!((cameras[0].yaw, cameras[0].pitch), (-12_000_000, 2_400_000));
    assert_eq!(cameras[1], three_cameras()[1]);
    assert_eq!((cameras[2].yaw, cameras[2].pitch), (-6_000_000, 1_200_000));
}

#[test]
fn mouse_system_passes_over_a_disabled_camera_in_front() {
    let mut cameras = three_cameras();
    cameras[0].enabled = false;
    let turned = mouse_handling_system(&mut cameras, &mut vec![motion(10_000_000, 0)], 100_000);
    assert_eq!(turned, vec![false, false, true]);
    assert_eq!(cameras[2].yaw, -6_000_000);
}

#[test]
fn mouse_system_skips_a_tick_without_motion() {
    for mut samples in [vec![], vec![motion(0, 0)], vec![motion(3, -3), motion(-3, 3)]] {
        let mut cameras = three_cameras();
        let turned = mouse_handling_system(&mut cameras, &mut samples, 100_000);
        assert_eq!(turned, vec![false, false, false]);
        assert_eq!(cameras, three_cameras());
        assert!(samples.is_empty());
    }
}

#[test]
fn mouse_system_skips_a_tick_with_a_non_finite_sample() {
    let mut cameras = three_cameras();
    let mut samples = vec![motion(10_000_000, 0), PointerDelta::NonFinite];
    let turned = mouse_handling_system(&mut cameras, &mut samples, 100_000);
    assert_eq!(turned, vec![false, false, false]);
    assert_eq!(cameras, three_cameras());
    assert!(samples.is_empty());
    let mut samples = vec![motion(i64::MAX, 0), motion(i64::MAX, 0)];
    let turned = mouse_handling_system(&mut cameras, &mut samples, 100_000);
    assert_eq!(turned, vec![false, false, false]);
    assert_eq!(cameras, three_cameras());
}

#[test]
fn mouse_system_without_cameras() {
    let mut cameras: Vec<CameraData> = vec![];
    assert_eq!(mouse_handling_system(&mut cameras, &mut vec![motion(1, 1)], 1), Vec::<bool>::new());
    assert!(cameras.is_empty());
}

#[test]
fn keyboard_system_drives_every_enabled_camera() {
    let mut cameras = three_cameras();
    let keys = MovementKeys { forward: true, ..MovementKeys::released() };
    let moved = keyboard_movement_system(&mut cameras, &keys, 1_000_000);
    assert_eq!(
        moved,
        vec![Some(Vec3 { x: 0, y: 0, z: -250_000 }), None, Some(Vec3 { x: 0, y: 0, z: -1_750_000 })]
    );
    assert_eq!(cameras[0].velocity, Vec3 { x: 0, y: 0, z: -250_000 });
    assert_eq!(cameras[1], three_cameras()[1]);
    assert_eq!(cameras[2].velocity, Vec3 { x: 0, y: 0, z: -1_750_000 });
}

#[test]
fn keyboard_system_passes_over_a_disabled_camera_in_front() {
    let mut cameras = three_cameras();
    cameras[0].enabled = false;
    let keys = MovementKeys { up: true, ..MovementKeys::released() };
    let moved = keyboard_movement_system(&mut cameras, &keys, 1_000_000);
    assert_eq!(moved, vec![None, None, Some(Vec3 { x: 0, y: 1_750_000, z: 0 })]);
}

#[test]
fn grab_mouse_releases_every_camera_on_exit() {
    let mut cameras = three_cameras();
    let input = CaptureInput { focus_pressed: false, exit_pressed: true, pointer_over_ui: true };
    assert_eq!(grab_mouse(&mut cameras, &input), Some(CaptureState::Free));
    assert!(cameras.iter().all(|cam| !cam.enabled));
    let expected: Vec<CameraData> =
        three_cameras().into_iter().map(|cam| CameraData { enabled: false, ..cam }).collect();
    assert_eq!(cameras, expected);
}

#[test]
fn grab_mouse_captures_every_camera_on_focus() {
    let mut cameras = three_cameras();
    let input = CaptureInput { focus_pressed: true, exit_pressed: false, pointer_over_ui: false };
    assert_eq!(grab_mouse(&mut cameras, &input), Some(CaptureState::Captured));
    assert!(cameras.iter().all(|cam| cam.enabled));
}

#[test]
fn grab_mouse_ignores_focus_over_the_overlay() {
    let mut cameras = three_cameras();
    let input = CaptureInput { focus_pressed: true, exit_pressed: false, pointer_over_ui: true };
    assert_eq!(grab_mouse(&mut cameras, &input), None);
    assert_eq!(cameras, three_cameras());
}

#[test]
fn grab_mouse_without_a_press_changes_nothing() {
    let mut cameras = three_cameras();
    assert_eq!(grab_mouse(&mut cameras, &quiet()), None);
    assert_eq!(cameras, three_cameras());
}

#[test]
fn exit_has_the_last_word_over_focus() {
    let mut cameras = three_cameras();
    let input = CaptureInput { focus_pressed: true, exit_pressed: true, pointer_over_ui: false };
    assert_eq!(grab_mouse(&mut cameras, &input), Some(CaptureState::Free));
    assert!(cameras.iter().all(|cam| !cam.enabled));
}

#[test]
fn tick_runs_the_systems_in_order() {
    let mut cameras = three_cameras();
    let keys = MovementKeys { forward: true, ..MovementKeys::released() };
    let focus = CaptureInput { focus_pressed: true, exit_pressed: false, pointer_over_ui: false };
    let mut samples = vec![motion(4_000_000, 0), motion(6_000_000, 0)];
    let report = tick(&mut cameras, &mut samples, &focus, &keys, 100_000);
    assert!(samples.is_empty());
    // the second camera was disabled when the pointer was applied, and
    // enabled by the time the keys were
    assert_eq!(
        report,
        Report {
            change: Some(CaptureState::Captured),
            turned: vec![true, false, true],
            moved: vec![
                Some(Vec3 { x: 0, y: 0, z: -25_000 }),
                Some(Vec3 { x: 0, y: 0, z: -25_000 }),
                Some(Vec3 { x: 0, y: 0, z: -175_000 }),
            ],
        }
    );
    assert_eq!(cameras[1].yaw, 1_000_000);
    assert!(cameras[1].enabled);
}

#[test]
fn tick_with_exit_turns_but_does_not_move() {
    let mut cameras = three_cameras();
    let keys = MovementKeys { forward: true, ..MovementKeys::released() };
    let exit = CaptureInput { focus_pressed: false, exit_pressed: true, pointer_over_ui: false };
    let report = tick(&mut cameras, &mut vec![motion(10_000_000, 0)], &exit, &keys, 100_000);
    assert_eq!(report.change, Some(CaptureState::Free));
    assert_eq!(report.turned, vec![true, false, true]);
    assert_eq!(report.moved, vec![None, None, None]);
    assert_eq!(cameras[0].yaw, -12_000_000);
    assert_eq!(cameras[0].velocity, Vec3 { x: 0, y: 0, z: 0 });
}

#[test]
fn camera_tick_matches_the_three_steps() {
    let frame = Frame {
        delta: motion(-2_000_000, 3_000_000),
        capture: quiet(),
        keys: MovementKeys { left: true, down: true, ..MovementKeys::released() },
        dt: 16_667,
    };
    let mut whole = CameraData::default();
    let outcome = whole.tick(&frame);
    let mut stepwise = CameraData::default();
    let turned = stepwise.turn(&frame.delta, frame.dt);
    stepwise.capture(&frame.capture);
    let moved = stepwise.advance(&frame.keys, frame.dt);
    assert_eq!(whole, stepwise);
    assert_eq!(outcome, Outcome { turned, moved });
    assert_eq!((whole.yaw, whole.pitch), (400_008, 600_012));
    assert_eq!(whole.velocity, Vec3 { x: -10_269, y: -10_269, z: 0 });
}

#[test]
fn camera_run_matches_tick_after_tick() {
    let mut frames = Vec::new();
    for i in 0..50u32 {
        frames.push(Frame {
            delta: if i % 7 == 0 { PointerDelta::NonFinite } else { motion(i as i64 * 1000, -(i as i64) * 3000) },
            capture: CaptureInput {
                focus_pressed: i % 11 == 0,
                exit_pressed: i % 13 == 5,
                pointer_over_ui: i % 2 == 0,
            },
            keys: MovementKeys { forward: i < 30, right: i % 3 == 0, ..MovementKeys::released() },
            dt: 10_000 + i * 100,
        });
    }
    let mut whole = CameraData::default();
    let outcomes = whole.run(&frames);
    let mut stepwise = CameraData::default();
    let expected: Vec<Outcome> = frames.iter().map(|frame| stepwise.tick(frame)).collect();
    assert_eq!(outcomes, expected);
    assert_eq!(whole, stepwise);
    assert!(outcomes.iter().any(|o| o.turned));
    assert!(outcomes.iter().any(|o| o.moved.is_none()));
}

#[test]
fn camera_run_of_no_ticks_changes_nothing() {
    let mut cam = CameraData::default();
    assert_eq!(cam.run(&vec![]), vec![]);
    assert_eq!(cam, CameraData::default());
}
