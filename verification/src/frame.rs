//! One whole tick of a camera, and runs of ticks.
//!
//! Within a tick the order is fixed: first the pointer turns the camera,
//! then the capture events are applied, then the movement keys drive it.
//! The orientation is therefore settled before the caller rotates the
//! displacement of the tick into the world.

use vstd::prelude::*;
use crate::camera::{CameraData, CameraModel};
use crate::capture::CaptureInput;
use crate::input::{MovementKeys, PointerDelta};
use crate::vector::Vec3;

verus! {

/// Everything that one tick hands to a camera.
#[derive(Clone, Copy, Debug, PartialEq, Eq, Structural)]
pub struct Frame {
    /// The pointer displacement gathered since the tick before.
    pub delta: PointerDelta,
    /// The capture events of the tick.
    pub capture: CaptureInput,
    /// The movement keys held during the tick.
    pub keys: MovementKeys,
    /// The length of the tick in millionths of a second.
    pub dt: u32,
}

/// What the caller has to carry over to the camera's place in the world
/// after a tick.
#[derive(Clone, Copy, Debug, PartialEq, Eq)]
pub struct Outcome {
    /// The orientation was set anew: the rotation has to follow yaw and
    /// pitch.
    pub turned: bool,
    /// The displacement in the camera's own frame, if the camera took
    /// input.
    pub moved: Option<Vec3>,
}

impl CameraModel {
    /// The state after one whole tick.
    pub open spec fn frame(self, frame: Frame) -> CameraModel {
        self.turn(frame.delta, frame.dt as int).capture(frame.capture).advance(
            frame.keys,
            frame.dt as int,
        )
    }

    /// The state after a run of ticks, the first of `frames` first.
    pub open spec fn run(self, frames: Seq<Frame>) -> CameraModel
        decreases frames.len(),
    {
        if frames.len() == 0 {
            self
        } else {
            self.run(frames.drop_last()).frame(frames.last())
        }
    }
}

impl CameraData {
    /// Carries the camera through one whole tick.
    pub fn tick(&mut self, frame: &Frame) -> (outcome: Outcome)
        ensures
            final(self)@ == old(self)@.frame(*frame),
            outcome.turned == (old(self).enabled && frame.delta.drives()),
            outcome.moved == (if final(self).enabled {
                Some(final(self).velocity)
            } else {
                None
            }),
            final(self).enabled == old(self)@.capture(frame.capture).enabled,
    {
        let turned = self.turn(&frame.delta, frame.dt);
        self.capture(&frame.capture);
        let moved = self.advance(&frame.keys, frame.dt);
        Outcome { turned, moved }
    }

    /// Carries the camera through a run of ticks, the first of `frames`
    /// first, and returns the outcome of each.
    pub fn run(&mut self, frames: &Vec<Frame>) -> (outcomes: Vec<Outcome>)
        ensures
            final(self)@ == old(self)@.run(frames@),
            outcomes.len() == frames.len(),
            forall|i: int|
                0 <= i < frames.len() ==> (#[trigger] outcomes[i]).turned == (old(self)@.run(
                    frames@.take(i),
                ).enabled && frames[i].delta.drives()),
            forall|i: int|
                0 <= i < frames.len() ==> match (#[trigger] outcomes[i]).moved {
                    Some(v) => old(self)@.run(frames@.take(i + 1)).enabled && v@ == old(self)@.run(
                        frames@.take(i + 1),
                    ).velocity,
                    None => !old(self)@.run(frames@.take(i + 1)).enabled,
                },
    {
        let mut outcomes: Vec<Outcome> = Vec::new();
        let mut i: usize = 0;
        while i < frames.len()
            invariant
                i <= frames.len(),
                outcomes.len() == i,
                self@ == old(self)@.run(frames@.take(i as int)),
                forall|j: int|
                    0 <= j < i ==> (#[trigger] outcomes[j]).turned == (old(self)@.run(
                        frames@.take(j),
                    ).enabled && frames[j].delta.drives()),
                forall|j: int|
                    0 <= j < i ==> match (#[trigger] outcomes[j]).moved {
                        Some(v) => old(self)@.run(frames@.take(j + 1)).enabled && v@ == old(
                            self
                        )@.run(frames@.take(j + 1)).velocity,
                        None => !old(self)@.run(frames@.take(j + 1)).enabled,
                    },
            decreases frames.len() - i,
        {
            assert(frames@.take(i + 1).drop_last() =~= frames@.take(i as int));
            let outcome = self.tick(&frames[i]);
            outcomes.push(outcome);
            i = i + 1;
        }
        assert(frames@.take(i as int) =~= frames@);
        outcomes
    }
}

} // verus!
