//! The three systems of a tick, each over every camera of the scene. The
//! cameras live in one vector and are known by their index in it; a system
//! visits all of them, and a camera that is disabled is passed over without
//! holding up the ones behind it.

use vstd::prelude::*;
use crate::camera::CameraData;
use crate::capture::{CaptureInput, CaptureState};
use crate::frame::Frame;
use crate::input::{accumulate, accumulated, MovementKeys, PointerDelta};
use crate::vector::Vec3;

verus! {

/// Turns every camera by the pointer motion of one tick of length `dt`.
/// `samples` holds the displacements that arrived since the tick before;
/// only their sum counts, and the buffer is left empty for the next tick.
/// The result tells, camera by camera, whether its orientation was set anew
/// and its rotation has to follow.
pub fn mouse_handling_system(
    cameras: &mut Vec<CameraData>,
    samples: &mut Vec<PointerDelta>,
    dt: u32,
) -> (turned: Vec<bool>)
    ensures
        final(samples)@ == Seq::<PointerDelta>::empty(),
        final(cameras).len() == old(cameras).len(),
        turned.len() == old(cameras).len(),
        forall|i: int|
            0 <= i < old(cameras).len() ==> (#[trigger] final(cameras)[i])@ == old(cameras)[i]@.turn(
                accumulated(old(samples)@),
                dt as int,
            ),
        forall|i: int|
            0 <= i < old(cameras).len() ==> #[trigger] turned[i] == (old(cameras)[i].enabled
                && accumulated(old(samples)@).drives()),
        !accumulated(old(samples)@).drives() ==> final(cameras)@ == old(cameras)@,
{
    let delta = accumulate(samples);
    samples.clear();
    let mut turned: Vec<bool> = Vec::new();
    let mut i: usize = 0;
    while i < cameras.len()
        invariant
            i <= cameras.len(),
            cameras.len() == old(cameras).len(),
            turned.len() == i,
            delta == accumulated(old(samples)@),
            forall|j: int| i <= j < cameras.len() ==> cameras[j] == old(cameras)[j],
            forall|j: int|
                0 <= j < i ==> (#[trigger] cameras[j])@ == old(cameras)[j]@.turn(delta, dt as int),
            forall|j: int|
                0 <= j < i ==> #[trigger] turned[j] == (old(cameras)[j].enabled && delta.drives()),
            !delta.drives() ==> cameras@ == old(cameras)@,
        decreases cameras.len() - i,
    {
        let did = cameras[i].turn(&delta, dt);
        turned.push(did);
        i = i + 1;
    }
    turned
}

/// Drives every camera by the movement keys held during one tick of length
/// `dt`. The result gives, camera by camera, the displacement of this tick in
/// the camera's own frame, to be rotated into the world by the camera's
/// orientation and added to its position; it is `None` for a camera that is
/// disabled, which stays where it is.
pub fn keyboard_movement_system(cameras: &mut Vec<CameraData>, keys: &MovementKeys, dt: u32) -> (moved:
    Vec<Option<Vec3>>)
    ensures
        final(cameras).len() == old(cameras).len(),
        moved.len() == old(cameras).len(),
        forall|i: int|
            0 <= i < old(cameras).len() ==> (#[trigger] final(cameras)[i])@
                == old(cameras)[i]@.advance(*keys, dt as int),
        forall|i: int|
            0 <= i < old(cameras).len() ==> #[trigger] moved[i] == (if old(cameras)[i].enabled {
                Some(final(cameras)[i].velocity)
            } else {
                None
            }),
        forall|i: int|
            0 <= i < old(cameras).len() && !old(cameras)[i].enabled ==> #[trigger] final(cameras)[i] == old(cameras)[i],
{
    let mut moved: Vec<Option<Vec3>> = Vec::new();
    let mut i: usize = 0;
    while i < cameras.len()
        invariant
            i <= cameras.len(),
            cameras.len() == old(cameras).len(),
            moved.len() == i,
            forall|j: int| i <= j < cameras.len() ==> cameras[j] == old(cameras)[j],
            forall|j: int|
                0 <= j < i ==> (#[trigger] cameras[j])@ == old(cameras)[j]@.advance(
                    *keys,
                    dt as int,
                ),
            forall|j: int|
                0 <= j < i ==> #[trigger] moved[j] == (if old(cameras)[j].enabled {
                    Some(cameras[j].velocity)
                } else {
                    None
                }),
            forall|j: int|
                0 <= j < i && !old(cameras)[j].enabled ==> #[trigger] cameras[j] == old(cameras)[j],
        decreases cameras.len() - i,
    {
        let step = cameras[i].advance(keys, dt);
        moved.push(step);
        i = i + 1;
    }
    moved
}

/// Applies the capture events of one tick to every camera. The result is the
/// state that the events call for, if any; the caller then shows or hides
/// the pointer, unlocks or locks it, and moves it to the middle of the
/// window. With no such event nothing changes.
pub fn grab_mouse(cameras: &mut Vec<CameraData>, input: &CaptureInput) -> (change: Option<
    CaptureState,
>)
    ensures
        change == input.spec_decision(),
        final(cameras).len() == old(cameras).len(),
        forall|i: int|
            0 <= i < old(cameras).len() ==> #[trigger] final(cameras)[i] == (CameraData {
                enabled: match change {
                    Some(state) => state.enables(),
                    None => old(cameras)[i].enabled,
                },
                ..old(cameras)[i]
            }),
        forall|i: int|
            0 <= i < old(cameras).len() ==> (#[trigger] final(cameras)[i])@
                == old(cameras)[i]@.capture(*input),
        change is None ==> final(cameras)@ == old(cameras)@,
{
    let change = input.decision();
    let mut i: usize = 0;
    while i < cameras.len()
        invariant
            i <= cameras.len(),
            cameras.len() == old(cameras).len(),
            change == input.spec_decision(),
            forall|j: int| i <= j < cameras.len() ==> cameras[j] == old(cameras)[j],
            forall|j: int|
                0 <= j < i ==> #[trigger] cameras[j] == (CameraData {
                    enabled: match change {
                        Some(state) => state.enables(),
                        None => old(cameras)[j].enabled,
                    },
                    ..old(cameras)[j]
                }),
            forall|j: int|
                0 <= j < i ==> (#[trigger] cameras[j])@ == old(cameras)[j]@.capture(*input),
            change is None ==> cameras@ == old(cameras)@,
        decreases cameras.len() - i,
    {
        cameras[i].capture(input);
        i = i + 1;
    }
    change
}

/// What a whole tick leaves for the caller to carry out.
#[derive(Debug, PartialEq, Eq)]
pub struct Report {
    /// The capture state that the events of the tick call for, if any.
    pub change: Option<CaptureState>,
    /// Camera by camera, whether its orientation was set anew.
    pub turned: Vec<bool>,
    /// Camera by camera, the displacement in its own frame, if it took
    /// input.
    pub moved: Vec<Option<Vec3>>,
}

/// Runs the three systems of one tick in their fixed order: the pointer
/// turns the cameras, the capture events are applied, the movement keys
/// drive the cameras. The buffer of pointer samples is left empty.
pub fn tick(
    cameras: &mut Vec<CameraData>,
    samples: &mut Vec<PointerDelta>,
    capture: &CaptureInput,
    keys: &MovementKeys,
    dt: u32,
) -> (report: Report)
    ensures
        final(samples)@ == Seq::<PointerDelta>::empty(),
        final(cameras).len() == old(cameras).len(),
        report.turned.len() == old(cameras).len(),
        report.moved.len() == old(cameras).len(),
        report.change == capture.spec_decision(),
        forall|i: int|
            0 <= i < old(cameras).len() ==> (#[trigger] final(cameras)[i])@ == old(cameras)[i]@.frame(
                Frame { delta: accumulated(old(samples)@), capture: *capture, keys: *keys, dt },
            ),
        forall|i: int|
            0 <= i < old(cameras).len() ==> #[trigger] report.turned[i] == (old(cameras)[i].enabled
                && accumulated(old(samples)@).drives()),
        forall|i: int|
            0 <= i < old(cameras).len() ==> #[trigger] report.moved[i] == (if final(cameras)[i].enabled {
                Some(final(cameras)[i].velocity)
            } else {
                None
            }),
{
    let turned = mouse_handling_system(cameras, samples, dt);
    let change = grab_mouse(cameras, capture);
    let ghost before = cameras@;
    let moved = keyboard_movement_system(cameras, keys, dt);
    assert forall|i: int| 0 <= i < cameras.len() implies #[trigger] moved[i] == (if cameras[i].enabled {
        Some(cameras[i].velocity)
    } else {
        None
    }) by {
        assert(cameras[i]@ == before[i]@.advance(*keys, dt as int));
    }
    Report { change, turned, moved }
}

} // verus!
