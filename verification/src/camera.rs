//! The state of one camera and the two updates that a tick applies to it:
//! the pointer turns it, the movement keys drive it.

use vstd::prelude::*;
use crate::capture::CaptureInput;
use crate::fixed::{clamp, lemma_trunc_div, magnitude, trunc_div, UNIT};
use crate::input::{MovementKeys, PointerDelta};
use crate::vector::{lemma_decelerate_shrinks, Vec3, Vec3Model};

verus! {

/// The steepest pitch, upward or downward: ninety degrees.
pub const PITCH_LIMIT: i64 = 90_000_000;

/// The state of a camera. Angles are in degrees, `sensitivity` in degrees
/// per pointer count and second, `velocity` and `max_speed` in lengths per
/// second, `acceleration` and `deceleration` in lengths per second squared;
/// all of them count millionths.
#[derive(Clone, Copy, Debug, PartialEq, Eq, Structural)]
pub struct CameraData {
    pub pitch: i64,
    pub yaw: i64,
    pub sensitivity: u32,
    pub enabled: bool,
    pub velocity: Vec3,
    pub acceleration: u32,
    pub max_speed: u32,
    pub deceleration: u32,
}

/// The mathematical state that a `CameraData` stands for.
pub struct CameraModel {
    pub pitch: int,
    pub yaw: int,
    pub sensitivity: int,
    pub enabled: bool,
    pub velocity: Vec3Model,
    pub acceleration: int,
    pub max_speed: int,
    pub deceleration: int,
}

impl View for CameraData {
    type V = CameraModel;

    open spec fn view(&self) -> CameraModel {
        CameraModel {
            pitch: self.pitch as int,
            yaw: self.yaw as int,
            sensitivity: self.sensitivity as int,
            enabled: self.enabled,
            velocity: self.velocity@,
            acceleration: self.acceleration as int,
            max_speed: self.max_speed as int,
            deceleration: self.deceleration as int,
        }
    }
}

/// The angle by which a pointer displacement `d` turns a camera in a step of
/// `dt`: their product with the sensitivity, rounded toward zero.
pub open spec fn swing(d: int, dt: int, sensitivity: int) -> int {
    trunc_div(d * (dt * sensitivity), UNIT * UNIT)
}

impl CameraModel {
    /// Whether the pitch lies between straight down and straight up.
    pub open spec fn pitch_in_range(self) -> bool {
        -PITCH_LIMIT <= self.pitch <= PITCH_LIMIT
    }

    /// Whether no component of the velocity exceeds the top speed.
    pub open spec fn within_speed(self) -> bool {
        self.velocity.within(self.max_speed)
    }

    /// The state after the pointer displacement of one tick. A camera that
    /// is disabled, and a displacement that is zero or not finite, change
    /// nothing. Otherwise the swing of the horizontal part is taken from the
    /// yaw and the swing of the vertical part is added to the pitch, which
    /// stops at the limit. The yaw has no limit of its own and stops where
    /// `i64` ends.
    pub open spec fn turn(self, delta: PointerDelta, dt: int) -> CameraModel {
        if self.enabled && delta.drives() {
            CameraModel {
                yaw: clamp(
                    self.yaw - swing(delta.dx(), dt, self.sensitivity),
                    i64::MIN as int,
                    i64::MAX as int,
                ),
                pitch: clamp(
                    self.pitch + swing(delta.dy(), dt, self.sensitivity),
                    -PITCH_LIMIT,
                    PITCH_LIMIT as int,
                ),
                ..self
            }
        } else {
            self
        }
    }

    /// The state after the movement keys of one tick. A disabled camera
    /// stays as it is. Otherwise the velocity takes the impulse of the keys,
    /// is confined to the top speed on each axis, and then decays.
    pub open spec fn advance(self, keys: MovementKeys, dt: int) -> CameraModel {
        if self.enabled {
            CameraModel {
                velocity: self.velocity.boost(
                    keys.spec_impulse(dt, self.acceleration),
                    self.max_speed,
                ).decelerate(dt, self.deceleration),
                ..self
            }
        } else {
            self
        }
    }

    /// The state after the capture events of one tick: where they call for
    /// a state, the camera takes input exactly if that state lets it.
    pub open spec fn capture(self, input: CaptureInput) -> CameraModel {
        match input.spec_decision() {
            Some(state) => CameraModel { enabled: state.enables(), ..self },
            None => self,
        }
    }
}

impl Default for CameraData {
    /// A camera at rest that looks along the horizon and takes input.
    fn default() -> (r: CameraData)
        ensures
            r == (CameraData {
                pitch: 0,
                yaw: 0,
                sensitivity: 12_000_000,
                enabled: true,
                velocity: Vec3 { x: 0, y: 0, z: 0 },
                acceleration: 1_500_000,
                max_speed: 3_000_000,
                deceleration: 1_250_000,
            }),
    {
        CameraData {
            pitch: 0,
            yaw: 0,
            sensitivity: 12_000_000,
            enabled: true,
            velocity: Vec3 { x: 0, y: 0, z: 0 },
            acceleration: 1_500_000,
            max_speed: 3_000_000,
            deceleration: 1_250_000,
        }
    }
}

/// Computes `swing` for a step whose `dt * sensitivity` is `rate`.
fn swing_of(d: i64, rate: u64) -> (r: i128)
    ensures
        r == trunc_div(d * rate, UNIT * UNIT),
        magnitude(r as int) <= 0x1_0000_0000_0000_0000_0000_0000,
{
    let wide: i128 = d as i128;
    assert(-0x8000_0000_0000_0000_0000_0000_0000_0000 < wide * rate
        < 0x8000_0000_0000_0000_0000_0000_0000_0000) by (nonlinear_arith)
        requires
            -0x8000_0000_0000_0000 <= wide < 0x8000_0000_0000_0000,
            0 <= rate < 0x1_0000_0000_0000_0000,
    ;
    let product: i128 = wide * (rate as i128);
    assert(UNIT * UNIT == 1_000_000_000_000);
    proof {
        lemma_trunc_div(product as int, 1_000_000_000_000);
    }
    product / 1_000_000_000_000
}

impl CameraData {
    /// Turns the camera by the pointer displacement of one tick of length
    /// `dt`, and tells whether its orientation was set anew.
    pub fn turn(&mut self, delta: &PointerDelta, dt: u32) -> (turned: bool)
        ensures
            final(self)@ == old(self)@.turn(*delta, dt as int),
            turned == (old(self).enabled && delta.drives()),
            turned ==> final(self)@.pitch_in_range(),
            !turned ==> *final(self) == *old(self),
    {
        if !self.enabled {
            return false;
        }
        match delta {
            PointerDelta::Motion { x, y } => {
                if *x == 0 && *y == 0 {
                    return false;
                }
                assert(dt * self.sensitivity <= 0xffff_ffff * 0xffff_ffff) by (nonlinear_arith)
                    requires
                        0 <= dt <= 0xffff_ffff,
                        0 <= self.sensitivity <= 0xffff_ffff,
                ;
                let rate: u64 = (dt as u64) * (self.sensitivity as u64);
                let yaw: i128 = self.yaw as i128 - swing_of(*x, rate);
                let pitch: i128 = self.pitch as i128 + swing_of(*y, rate);
                self.yaw = if yaw < i64::MIN as i128 {
                    i64::MIN
                } else if yaw > i64::MAX as i128 {
                    i64::MAX
                } else {
                    yaw as i64
                };
                self.pitch = if pitch < -(PITCH_LIMIT as i128) {
                    -PITCH_LIMIT
                } else if pitch > PITCH_LIMIT as i128 {
                    PITCH_LIMIT
                } else {
                    pitch as i64
                };
                true
            },
            PointerDelta::NonFinite => false,
        }
    }

    /// Drives the camera by the movement keys held during one tick of length
    /// `dt`. Where the camera takes input, the result is the displacement of
    /// this tick in the camera's own frame, which is its new velocity.
    pub fn advance(&mut self, keys: &MovementKeys, dt: u32) -> (moved: Option<Vec3>)
        ensures
            final(self)@ == old(self)@.advance(*keys, dt as int),
            moved == (if old(self).enabled {
                Some(final(self).velocity)
            } else {
                None
            }),
            old(self).enabled ==> final(self)@.within_speed(),
            !old(self).enabled ==> *final(self) == *old(self),
    {
        if !self.enabled {
            return None;
        }
        let impulse = keys.impulse(dt, self.acceleration);
        let boosted = self.velocity.boosted(impulse, self.max_speed);
        let velocity = boosted.decelerated(dt, self.deceleration);
        proof {
            lemma_decelerate_shrinks(boosted@, dt as int, self.deceleration as int);
        }
        self.velocity = velocity;
        Some(velocity)
    }

    /// Applies the capture events of one tick to this camera.
    pub fn capture(&mut self, input: &CaptureInput)
        ensures
            final(self)@ == old(self)@.capture(*input),
            *final(self) == (CameraData {
                enabled: match input.spec_decision() {
                    Some(state) => state.enables(),
                    None => old(self).enabled,
                },
                ..*old(self)
            }),
    {
        match input.decision() {
            Some(state) => {
                self.enabled = state.enables_cameras();
            },
            None => {},
        }
    }
}

} // verus!
