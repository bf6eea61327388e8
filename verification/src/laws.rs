//! What holds of the motion model whatever the input.

use vstd::prelude::*;
use vstd::arithmetic::div_mod::{lemma_fundamental_div_mod, lemma_mod_pos_bound};
use crate::camera::{CameraData, CameraModel};
use crate::capture::{CaptureInput, CaptureState};
use crate::fixed::{larger, UNIT};
use crate::frame::Frame;
use crate::input::{accumulated, all_finite, sum_dx, sum_dy, MovementKeys, PointerDelta};
use crate::vector::{lemma_decelerate_pace, lemma_decelerate_shrinks, Vec3Model};

verus! {

/// The smaller of two integers.
pub open spec fn smaller(a: int, b: int) -> int {
    if a < b {
        a
    } else {
        b
    }
}

/// The amount by which one tick of length `dt` is sure to lower the speed
/// of a coasting camera, unless it brings the camera to rest: half the
/// deceleration times the step, rounded down.
pub open spec fn pace(dt: int, deceleration: int) -> int {
    (dt * deceleration) / (2 * UNIT)
}

/// The paces of a run of ticks, added up.
pub open spec fn total_pace(deceleration: int, frames: Seq<Frame>) -> int
    decreases frames.len(),
{
    if frames.len() == 0 {
        0
    } else {
        total_pace(deceleration, frames.drop_last()) + pace(
            frames.last().dt as int,
            deceleration,
        )
    }
}

/// Whether a run of ticks lets a camera coast: no tick asks for movement on
/// any axis, and none releases the pointer.
pub open spec fn coasting(frames: Seq<Frame>) -> bool {
    forall|i: int|
        0 <= i < frames.len() ==> (#[trigger] frames[i]).keys.idle() && !frames[i].capture.exit_pressed
}

/// Whether the numbers of a model are those of a camera: none of the
/// settings is negative.
pub open spec fn settings_valid(cam: CameraModel) -> bool {
    0 <= cam.sensitivity && 0 <= cam.acceleration && 0 <= cam.max_speed && 0 <= cam.deceleration
}

/// Whether two states have the same settings.
pub open spec fn same_settings(a: CameraModel, b: CameraModel) -> bool {
    a.sensitivity == b.sensitivity && a.acceleration == b.acceleration && a.max_speed
        == b.max_speed && a.deceleration == b.deceleration
}

proof fn lemma_frame_keeps(cam: CameraModel, frame: Frame)
    requires
        settings_valid(cam),
    ensures
        same_settings(cam, cam.frame(frame)),
        cam.pitch_in_range() ==> cam.frame(frame).pitch_in_range(),
        cam.within_speed() ==> cam.frame(frame).within_speed(),
        cam.frame(frame).enabled ==> cam.frame(frame).within_speed(),
        cam.velocity == Vec3Model::zero() && frame.keys.idle() ==> cam.frame(frame).velocity
            == Vec3Model::zero(),
{
    let dt = frame.dt as int;
    let before = cam.turn(frame.delta, dt).capture(frame.capture);
    let impulse = frame.keys.spec_impulse(dt, before.acceleration);
    let boosted = before.velocity.boost(impulse, before.max_speed);
    lemma_decelerate_shrinks(boosted, dt, before.deceleration);
    if frame.keys.idle() {
        lemma_idle_impulse(frame.keys, dt, before.acceleration);
    }
}

proof fn lemma_idle_impulse(keys: MovementKeys, dt: int, acceleration: int)
    requires
        keys.idle(),
    ensures
        keys.spec_impulse(dt, acceleration) == Vec3Model::zero(),
{
    let gain = (dt * acceleration) / (UNIT as int);
    assert(0 * gain == 0) by (nonlinear_arith);
}

proof fn lemma_run_keeps(cam: CameraModel, frames: Seq<Frame>)
    requires
        settings_valid(cam),
    ensures
        same_settings(cam, cam.run(frames)),
        cam.pitch_in_range() ==> cam.run(frames).pitch_in_range(),
        cam.within_speed() ==> cam.run(frames).within_speed(),
        cam.velocity == Vec3Model::zero() && (forall|i: int|
            0 <= i < frames.len() ==> (#[trigger] frames[i]).keys.idle()) ==> cam.run(frames).velocity == Vec3Model::zero(),
    decreases frames.len(),
{
    if frames.len() > 0 {
        lemma_run_keeps(cam, frames.drop_last());
        lemma_frame_keeps(cam.run(frames.drop_last()), frames.last());
        if forall|i: int| 0 <= i < frames.len() ==> (#[trigger] frames[i]).keys.idle() {
            assert forall|i: int| 0 <= i < frames.drop_last().len() implies (
            #[trigger] frames.drop_last()[i]).keys.idle() by {
                assert(frames.drop_last()[i] == frames[i]);
            }
        }
    }
}

proof fn lemma_sums_of_concatenation(a: Seq<PointerDelta>, b: Seq<PointerDelta>)
    ensures
        sum_dx(a + b) == sum_dx(a) + sum_dx(b),
        sum_dy(a + b) == sum_dy(a) + sum_dy(b),
        all_finite(a + b) == (all_finite(a) && all_finite(b)),
    decreases b.len(),
{
    if b.len() == 0 {
        assert(a + b =~= a);
    } else {
        assert((a + b).drop_last() =~= a + b.drop_last());
        lemma_sums_of_concatenation(a, b.drop_last());
        assert((a + b).last() == b.last());
    }
    if all_finite(a + b) {
        assert forall|i: int| 0 <= i < a.len() implies a[i] is Motion by {
            assert((a + b)[i] == a[i]);
        }
        assert forall|i: int| 0 <= i < b.len() implies b[i] is Motion by {
            assert((a + b)[a.len() + i] == b[i]);
        }
    }
}

/// The pointer displacement of a tick does not depend on the order in
/// which its samples arrived.
pub proof fn accumulated_ignores_order(a: Seq<PointerDelta>, b: Seq<PointerDelta>)
    ensures
        accumulated(a + b) == accumulated(b + a),
{
    lemma_sums_of_concatenation(a, b);
    lemma_sums_of_concatenation(b, a);
}

/// Two opposing keys held together ask for no movement on their axis, and
/// the impulse of the tick is zero along it.
pub proof fn opposing_keys_cancel(keys: MovementKeys, dt: u32, acceleration: u32)
    ensures
        keys.forward && keys.backward ==> keys.forward_axis() == 0 && keys.spec_impulse(
            dt as int,
            acceleration as int,
        ).z == 0,
        keys.right && keys.left ==> keys.side_axis() == 0 && keys.spec_impulse(
            dt as int,
            acceleration as int,
        ).x == 0,
        keys.up && keys.down ==> keys.vertical_axis() == 0 && keys.spec_impulse(
            dt as int,
            acceleration as int,
        ).y == 0,
{
    let gain = (dt * acceleration) / (UNIT as int);
    assert(0 * gain == 0) by (nonlinear_arith);
}

/// Whatever the pointer does, tick after tick, the pitch of a camera stays
/// between straight down and straight up.
pub proof fn pitch_stays_in_range(cam: CameraData, frames: Seq<Frame>)
    requires
        cam@.pitch_in_range(),
    ensures
        forall|n: int|
            0 <= n <= frames.len() ==> (#[trigger] cam@.run(frames.take(n))).pitch_in_range(),
{
    assert forall|n: int| 0 <= n <= frames.len() implies (#[trigger] cam@.run(frames.take(n))).pitch_in_range() by {
        lemma_run_keeps(cam@, frames.take(n));
    }
}

/// A pointer displacement that is zero or not finite leaves the whole
/// state of a camera as it was, yaw and pitch included.
pub proof fn still_pointer_keeps_orientation(cam: CameraData, delta: PointerDelta, dt: u32)
    requires
        delta == (PointerDelta::Motion { x: 0, y: 0 }) || delta == PointerDelta::NonFinite,
    ensures
        !delta.drives(),
        cam@.turn(delta, dt as int) == cam@,
{
}

/// Whatever the ticks bring, no component of the velocity ever exceeds the
/// top speed, in either direction.
pub proof fn velocity_stays_within_top_speed(cam: CameraData, frames: Seq<Frame>)
    requires
        cam@.within_speed(),
    ensures
        forall|n: int|
            0 <= n <= frames.len() ==> (#[trigger] cam@.run(frames.take(n))).within_speed(),
{
    assert forall|n: int| 0 <= n <= frames.len() implies (#[trigger] cam@.run(frames.take(n))).within_speed() by {
        lemma_run_keeps(cam@, frames.take(n));
    }
}

/// A tick that leaves a camera enabled confines its velocity to the top
/// speed, whatever the velocity was before.
pub proof fn enabled_tick_confines_velocity(cam: CameraData, frame: Frame)
    requires
        cam@.frame(frame).enabled,
    ensures
        cam@.frame(frame).within_speed(),
{
    lemma_frame_keeps(cam@, frame);
}

proof fn lemma_pace(dt: int, deceleration: int)
    requires
        0 <= dt,
        0 <= deceleration,
    ensures
        0 <= pace(dt, deceleration),
        dt * deceleration >= 2 * pace(dt, deceleration) * UNIT,
{
    let rate = dt * deceleration;
    assert(0 <= rate) by (nonlinear_arith)
        requires
            rate == dt * deceleration,
            0 <= dt,
            0 <= deceleration,
    ;
    let q = pace(dt, deceleration);
    lemma_fundamental_div_mod(rate, 2 * UNIT);
    lemma_mod_pos_bound(rate, 2 * UNIT);
    assert((2 * UNIT) * q == 2 * q * UNIT) by (nonlinear_arith);
    if q < 0 {
        assert((2 * UNIT) * q <= -(2 * UNIT)) by (nonlinear_arith)
            requires
                q <= -1,
                UNIT == 1_000_000,
        ;
    }
}

proof fn lemma_total_pace(deceleration: int, frames: Seq<Frame>)
    requires
        0 <= deceleration,
    ensures
        0 <= total_pace(deceleration, frames),
    decreases frames.len(),
{
    if frames.len() > 0 {
        lemma_total_pace(deceleration, frames.drop_last());
        lemma_pace(frames.last().dt as int, deceleration);
    }
}

proof fn lemma_coast_step(cam: CameraModel, frame: Frame)
    requires
        settings_valid(cam),
        cam.enabled,
        frame.keys.idle(),
        !frame.capture.exit_pressed,
    ensures
        cam.frame(frame).enabled,
        cam.frame(frame).velocity.max_norm() <= larger(
            0,
            smaller(cam.velocity.max_norm(), cam.max_speed) - pace(
                frame.dt as int,
                cam.deceleration,
            ),
        ),
{
    let dt = frame.dt as int;
    let before = cam.turn(frame.delta, dt).capture(frame.capture);
    lemma_idle_impulse(frame.keys, dt, before.acceleration);
    let boosted = before.velocity.boost(Vec3Model::zero(), before.max_speed);
    lemma_pace(dt, cam.deceleration);
    lemma_decelerate_pace(boosted, dt, cam.deceleration, pace(dt, cam.deceleration));
}

/// A coasting camera slows down: after a run of ticks in which no movement
/// is asked for, the largest component of its velocity has fallen by the
/// paces of those ticks, or the camera is at rest.
pub proof fn coasting_slows_down(cam: CameraData, frames: Seq<Frame>)
    requires
        cam.enabled,
        coasting(frames),
        frames.len() > 0,
    ensures
        cam@.run(frames).enabled,
        cam@.run(frames).velocity.max_norm() <= larger(
            0,
            smaller(cam@.velocity.max_norm(), cam.max_speed as int) - total_pace(
                cam.deceleration as int,
                frames,
            ),
        ),
    decreases frames.len(),
{
    let front = frames.drop_last();
    assert forall|i: int| 0 <= i < front.len() implies (#[trigger] front[i]).keys.idle()
        && !front[i].capture.exit_pressed by {
        assert(front[i] == frames[i]);
    }
    lemma_run_keeps(cam@, front);
    lemma_total_pace(cam.deceleration as int, front);
    lemma_pace(frames.last().dt as int, cam.deceleration as int);
    if front.len() > 0 {
        coasting_slows_down(cam, front);
    }
    lemma_coast_step(cam@.run(front), frames.last());
}

/// A camera whose movement keys are left alone comes to rest: once the
/// paces of the ticks add up to its speed, its velocity is exactly zero,
/// and it stays zero for as long as the coasting lasts.
pub proof fn coasting_comes_to_rest(cam: CameraData, frames: Seq<Frame>)
    requires
        cam.enabled,
        coasting(frames),
        frames.len() > 0,
        total_pace(cam.deceleration as int, frames) >= smaller(
            cam@.velocity.max_norm(),
            cam.max_speed as int,
        ),
    ensures
        cam@.run(frames).velocity == Vec3Model::zero(),
{
    coasting_slows_down(cam, frames);
}

/// A camera at rest stays at rest through every tick in which no movement
/// is asked for, whether it takes input or not.
pub proof fn rest_is_kept(cam: CameraData, frames: Seq<Frame>)
    requires
        cam@.velocity == Vec3Model::zero(),
        forall|i: int| 0 <= i < frames.len() ==> (#[trigger] frames[i]).keys.idle(),
    ensures
        cam@.run(frames).velocity == Vec3Model::zero(),
{
    lemma_run_keeps(cam@, frames);
}

/// A camera goes from disabled to enabled only in a tick in which the
/// focus button went down while the pointer was not over the overlay; and
/// in such a tick it does, unless the exit key went down as well.
pub proof fn capture_needs_fresh_focus_off_overlay(cam: CameraData, input: CaptureInput)
    ensures
        !cam.enabled && cam@.capture(input).enabled ==> input.focus_pressed
            && !input.pointer_over_ui,
        input.focus_pressed && !input.pointer_over_ui && !input.exit_pressed ==> cam@.capture(input).enabled,
        CaptureState::Free.spec_step(input) == CaptureState::Captured <==> input.focus_pressed
            && !input.pointer_over_ui && !input.exit_pressed,
{
}

/// A tick in which the exit key went down leaves every camera disabled,
/// wherever the pointer is.
pub proof fn exit_always_releases(cam: CameraData, state: CaptureState, input: CaptureInput)
    requires
        input.exit_pressed,
    ensures
        !cam@.capture(input).enabled,
        state.spec_step(input) == CaptureState::Free,
{
}

/// Without a fresh press of either the focus button or the exit key,
/// capture stays as it is.
pub proof fn capture_holds_without_press(cam: CameraData, state: CaptureState, input: CaptureInput)
    requires
        !input.focus_pressed,
        !input.exit_pressed,
    ensures
        cam@.capture(input) == cam@,
        state.spec_step(input) == state,
{
}

} // verus!
