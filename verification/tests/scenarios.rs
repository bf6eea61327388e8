use planet_simulator::camera::CameraData;
use planet_simulator::input::{MovementKeys, PointerDelta};
use planet_simulator::vector::Vec3;

fn keys() -> MovementKeys {
    MovementKeys::released()
}

#[test]
fn ten_counts_in_a_tenth_of_a_second_lower_yaw_by_twelve_degrees() {
    let mut cam = CameraData::default();
    let turned = cam.turn(&PointerDelta::Motion { x: 10_000_000, y: 0 }, 100_000);
    assert!(turned);
    assert_eq!(cam.yaw, -12_000_000);
    assert_eq!(cam.pitch, 0);
}

#[test]
fn forward_for_one_second_then_decay() {
    let cam = CameraData::default();
    let held = MovementKeys { forward: true, ..keys() };
    let impulse = held.impulse(1_000_000, cam.acceleration);
    assert_eq!(impulse, Vec3 { x: 0, y: 0, z: -1_500_000 });
    let boosted = cam.velocity.boosted(impulse, cam.max_speed);
    assert_eq!(boosted, Vec3 { x: 0, y: 0, z: -1_500_000 });
    let decayed = boosted.decelerated(1_000_000, cam.deceleration);
    assert_eq!(decayed, Vec3 { x: 0, y: 0, z: -250_000 });

    let mut whole = CameraData::default();
    let moved = whole.advance(&held, 1_000_000);
    assert_eq!(moved, Some(Vec3 { x: 0, y: 0, z: -250_000 }));
    assert_eq!(whole.velocity, Vec3 { x: 0, y: 0, z: -250_000 });
}

#[test]
fn opposing_keys_cancel() {
    let held = MovementKeys { forward: true, backward: true, ..keys() };
    assert_eq!(planet_simulator::input::axis(true, true), 0);
    assert_eq!(held.impulse(1_000_000, 1_500_000), Vec3 { x: 0, y: 0, z: 0 });
    let mut cam = CameraData::default();
    cam.advance(&held, 1_000_000);
    assert_eq!(cam.velocity, Vec3 { x: 0, y: 0, z: 0 });
}
