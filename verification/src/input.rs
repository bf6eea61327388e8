//! What one tick hands to the camera: the pointer motion gathered since the
//! tick before, the movement keys that are held, and the capture events.

use vstd::prelude::*;
use crate::fixed::UNIT;
use crate::vector::{Vec3, Vec3Model};

verus! {

/// A pointer displacement in millionths of a count, or the mark of a sample
/// that no finite number describes.
#[derive(Clone, Copy, Debug, PartialEq, Eq, Structural)]
pub enum PointerDelta {
    Motion { x: i64, y: i64 },
    NonFinite,
}

impl PointerDelta {
    /// Whether the displacement turns a camera: it is finite and not zero.
    pub open spec fn drives(self) -> bool {
        self matches PointerDelta::Motion { x, y } && (x != 0 || y != 0)
    }

    /// The horizontal part, zero where there is none.
    pub open spec fn dx(self) -> int {
        match self {
            PointerDelta::Motion { x, y } => x as int,
            PointerDelta::NonFinite => 0,
        }
    }

    /// The vertical part, zero where there is none.
    pub open spec fn dy(self) -> int {
        match self {
            PointerDelta::Motion { x, y } => y as int,
            PointerDelta::NonFinite => 0,
        }
    }

    /// Tells whether the displacement turns a camera.
    pub fn is_driving(&self) -> (r: bool)
        ensures
            r == self.drives(),
    {
        match self {
            PointerDelta::Motion { x, y } => *x != 0 || *y != 0,
            PointerDelta::NonFinite => false,
        }
    }
}

/// Whether every sample is a finite displacement.
pub open spec fn all_finite(samples: Seq<PointerDelta>) -> bool {
    forall|i: int| 0 <= i < samples.len() ==> samples[i] is Motion
}

/// The sum of the horizontal parts.
pub open spec fn sum_dx(samples: Seq<PointerDelta>) -> int
    decreases samples.len(),
{
    if samples.len() == 0 {
        0
    } else {
        sum_dx(samples.drop_last()) + samples.last().dx()
    }
}

/// The sum of the vertical parts.
pub open spec fn sum_dy(samples: Seq<PointerDelta>) -> int
    decreases samples.len(),
{
    if samples.len() == 0 {
        0
    } else {
        sum_dy(samples.drop_last()) + samples.last().dy()
    }
}

/// The displacement of a whole tick: the sum of its samples. It is not
/// finite where a sample is not, or where a sum leaves the range of `i64`.
pub open spec fn accumulated(samples: Seq<PointerDelta>) -> PointerDelta {
    let (x, y) = (sum_dx(samples), sum_dy(samples));
    if all_finite(samples) && i64::MIN <= x <= i64::MAX && i64::MIN <= y <= i64::MAX {
        PointerDelta::Motion { x: x as i64, y: y as i64 }
    } else {
        PointerDelta::NonFinite
    }
}

/// Sums the samples of one tick.
pub fn accumulate(samples: &Vec<PointerDelta>) -> (r: PointerDelta)
    ensures
        r == accumulated(samples@),
{
    let mut x: i128 = 0;
    let mut y: i128 = 0;
    let mut i: usize = 0;
    while i < samples.len()
        invariant
            i <= samples.len(),
            all_finite(samples@.take(i as int)),
            x == sum_dx(samples@.take(i as int)),
            y == sum_dy(samples@.take(i as int)),
            -0x8000_0000_0000_0000 * i <= x <= 0x8000_0000_0000_0000 * i,
            -0x8000_0000_0000_0000 * i <= y <= 0x8000_0000_0000_0000 * i,
        decreases samples.len() - i,
    {
        assert(samples@.take(i + 1).drop_last() =~= samples@.take(i as int));
        match samples[i] {
            PointerDelta::Motion { x: sx, y: sy } => {
                x = x + sx as i128;
                y = y + sy as i128;
            },
            PointerDelta::NonFinite => {
                assert(!(samples@[i as int] is Motion));
                return PointerDelta::NonFinite;
            },
        }
        i = i + 1;
    }
    assert(samples@.take(i as int) =~= samples@);
    if x < i64::MIN as i128 || x > i64::MAX as i128 || y < i64::MIN as i128 || y > i64::MAX as i128 {
        PointerDelta::NonFinite
    } else {
        PointerDelta::Motion { x: x as i64, y: y as i64 }
    }
}

/// The movement keys that are held during a tick.
#[derive(Clone, Copy, Debug, PartialEq, Eq, Structural)]
pub struct MovementKeys {
    pub forward: bool,
    pub backward: bool,
    pub left: bool,
    pub right: bool,
    pub up: bool,
    pub down: bool,
}

/// The value of an axis with two opposing keys: `+1`, `-1`, or `0` where
/// neither or both are held.
pub open spec fn axis_value(positive: bool, negative: bool) -> int {
    (if positive {
        1int
    } else {
        0int
    }) - (if negative {
        1int
    } else {
        0int
    })
}

/// Computes the value of an axis from its two keys.
pub fn axis(positive: bool, negative: bool) -> (r: i8)
    ensures
        r == axis_value(positive, negative),
        -1 <= r <= 1,
        positive == negative ==> r == 0,
{
    let mut value: i8 = 0;
    if positive {
        value = value + 1;
    }
    if negative {
        value = value - 1;
    }
    value
}

impl MovementKeys {
    /// `+1` toward the front, `-1` toward the back.
    pub open spec fn forward_axis(self) -> int {
        axis_value(self.forward, self.backward)
    }

    /// `+1` toward the right, `-1` toward the left.
    pub open spec fn side_axis(self) -> int {
        axis_value(self.right, self.left)
    }

    /// `+1` upward, `-1` downward.
    pub open spec fn vertical_axis(self) -> int {
        axis_value(self.up, self.down)
    }

    /// Whether the keys ask for no movement on any axis.
    pub open spec fn idle(self) -> bool {
        self.forward_axis() == 0 && self.side_axis() == 0 && self.vertical_axis() == 0
    }

    /// The change of velocity that the held keys work in a step of `dt` at
    /// the given acceleration, in the camera's own frame: right is `+x`, up
    /// is `+y`, forward is `-z`.
    pub open spec fn spec_impulse(self, dt: int, acceleration: int) -> Vec3Model {
        let gain = (dt * acceleration) / (UNIT as int);
        Vec3Model {
            x: self.side_axis() * gain,
            y: self.vertical_axis() * gain,
            z: -(self.forward_axis() * gain),
        }
    }

    /// No key held.
    pub fn released() -> (r: MovementKeys)
        ensures
            r == (MovementKeys {
                forward: false,
                backward: false,
                left: false,
                right: false,
                up: false,
                down: false,
            }),
            r.idle(),
    {
        MovementKeys {
            forward: false,
            backward: false,
            left: false,
            right: false,
            up: false,
            down: false,
        }
    }

    /// Computes the impulse of one step.
    pub fn impulse(&self, dt: u32, acceleration: u32) -> (r: Vec3)
        ensures
            r@ == self.spec_impulse(dt as int, acceleration as int),
    {
        assert(dt * acceleration <= 0xffff_ffff * 0xffff_ffff) by (nonlinear_arith)
            requires
                0 <= dt <= 0xffff_ffff,
                0 <= acceleration <= 0xffff_ffff,
        ;
        let gain: i64 = (((dt as u64) * (acceleration as u64)) / 1_000_000) as i64;
        assert(gain == (dt * acceleration) / (UNIT as int));
        let side: i64 = axis(self.right, self.left) as i64;
        let vertical: i64 = axis(self.up, self.down) as i64;
        let forward: i64 = axis(self.forward, self.backward) as i64;
        assert(side * gain == self.side_axis() * gain && vertical * gain == self.vertical_axis()
            * gain && forward * gain == self.forward_axis() * gain);
        assert(-gain <= side * gain <= gain && -gain <= vertical * gain <= gain && -gain <= forward
            * gain <= gain) by (nonlinear_arith)
            requires
                -1 <= side <= 1,
                -1 <= vertical <= 1,
                -1 <= forward <= 1,
                0 <= gain,
        ;
        Vec3 { x: side * gain, y: vertical * gain, z: -(forward * gain) }
    }
}

} // verus!
