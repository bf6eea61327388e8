//! Three-component vectors of fixed-point numbers, and the stages that a
//! velocity passes through in one tick: it is boosted by an impulse and
//! confined to the top speed, then it decays, and comes to rest where the
//! decay would carry it past rest.

use vstd::prelude::*;
use crate::fixed::{
    clamp, is_sqrt, isqrt, larger, lemma_sqrt_exists, lemma_trunc_div, magnitude, sqrt, trunc_div,
    UNIT,
};

verus! {

/// A vector in the camera's own frame; each component counts millionths.
#[derive(Clone, Copy, Debug, PartialEq, Eq, Structural)]
pub struct Vec3 {
    pub x: i64,
    pub y: i64,
    pub z: i64,
}

/// The mathematical vector that a `Vec3` stands for.
pub struct Vec3Model {
    pub x: int,
    pub y: int,
    pub z: int,
}

impl View for Vec3 {
    type V = Vec3Model;

    open spec fn view(&self) -> Vec3Model {
        Vec3Model { x: self.x as int, y: self.y as int, z: self.z as int }
    }
}

/// Whether `a` and `b` lie on different sides of rest. Zero counts as
/// positive: a component that decays from above lands on zero unharmed, one
/// that reaches zero from below has changed sides. The choice does not show
/// in a velocity: see `lemma_landing_is_rest`.
pub open spec fn changes_side(a: int, b: int) -> bool {
    (a < 0) != (b < 0)
}

/// The decay of one component `a` of a velocity of length `len`, where the
/// deceleration times the step is `rate`: the share `a / len` of the rate,
/// rounded toward zero, with the sign turned.
pub open spec fn drag(a: int, rate: int, len: int) -> int {
    -trunc_div(a * rate, len * UNIT)
}

/// Whether the change `d` points against `a` (or is zero) and its magnitude,
/// scaled up, does not exceed `rate`.
pub open spec fn opposes(a: int, d: int, rate: int) -> bool {
    &&& a >= 0 ==> d <= 0
    &&& a <= 0 ==> d >= 0
    &&& magnitude(d) * UNIT <= rate
}

impl Vec3Model {
    pub open spec fn zero() -> Vec3Model {
        Vec3Model { x: 0, y: 0, z: 0 }
    }

    /// The sum of the squares of the components.
    pub open spec fn norm_sq(self) -> int {
        self.x * self.x + self.y * self.y + self.z * self.z
    }

    /// The Euclidean length, rounded down to a whole count.
    pub open spec fn length(self) -> int {
        sqrt(self.norm_sq() as nat) as int
    }

    /// The largest magnitude among the components.
    pub open spec fn max_norm(self) -> int {
        larger(magnitude(self.x), larger(magnitude(self.y), magnitude(self.z)))
    }

    /// Whether every component lies between `-limit` and `limit`.
    pub open spec fn within(self, limit: int) -> bool {
        &&& -limit <= self.x <= limit
        &&& -limit <= self.y <= limit
        &&& -limit <= self.z <= limit
    }

    /// The sum with `impulse`, each component confined to `-limit ..= limit`.
    pub open spec fn boost(self, impulse: Vec3Model, limit: int) -> Vec3Model {
        Vec3Model {
            x: clamp(self.x + impulse.x, -limit, limit),
            y: clamp(self.y + impulse.y, -limit, limit),
            z: clamp(self.z + impulse.z, -limit, limit),
        }
    }

    /// The change of velocity that a deceleration of `deceleration` works in
    /// a step of `dt`: it points against `self` and is zero at rest.
    pub open spec fn decay(self, dt: int, deceleration: int) -> Vec3Model {
        let len = self.length();
        if len == 0 {
            Vec3Model::zero()
        } else {
            Vec3Model {
                x: drag(self.x, dt * deceleration, len),
                y: drag(self.y, dt * deceleration, len),
                z: drag(self.z, dt * deceleration, len),
            }
        }
    }

    /// Whether some component of `next` lies on the other side of rest than
    /// the same component of `self`.
    pub open spec fn overshoots(self, next: Vec3Model) -> bool {
        changes_side(self.x, next.x) || changes_side(self.y, next.y) || changes_side(
            self.z,
            next.z,
        )
    }

    /// The velocity after the decay of one step: the sum of `self` and its
    /// decay, or rest where that sum overshoots on any axis.
    pub open spec fn decelerate(self, dt: int, deceleration: int) -> Vec3Model {
        let d = self.decay(dt, deceleration);
        let next = Vec3Model { x: self.x + d.x, y: self.y + d.y, z: self.z + d.z };
        if self.overshoots(next) {
            Vec3Model::zero()
        } else {
            next
        }
    }
}

/// No component of a vector is longer than the vector.
pub proof fn lemma_component_within_length(v: Vec3Model)
    ensures
        0 <= v.norm_sq(),
        is_sqrt(v.norm_sq(), v.length()),
        magnitude(v.x) <= v.length(),
        magnitude(v.y) <= v.length(),
        magnitude(v.z) <= v.length(),
        v.length() == 0 <==> v == Vec3Model::zero(),
{
    let (x, y, z) = (magnitude(v.x), magnitude(v.y), magnitude(v.z));
    assert(x * x == v.x * v.x && y * y == v.y * v.y && z * z == v.z * v.z) by (nonlinear_arith)
        requires
            x == magnitude(v.x),
            y == magnitude(v.y),
            z == magnitude(v.z),
    ;
    assert(0 <= x * x && 0 <= y * y && 0 <= z * z) by (nonlinear_arith);
    lemma_sqrt_exists(v.norm_sq() as nat);
    let len = v.length();
    lemma_square_order(x, len);
    lemma_square_order(y, len);
    lemma_square_order(z, len);
    if v == Vec3Model::zero() {
        assert(len == 0) by (nonlinear_arith)
            requires
                0 <= len,
                len * len <= 0,
        ;
    }
}

/// A decay points against the velocity on every axis, and on no axis is it
/// larger than the deceleration times the step.
pub proof fn lemma_decay_opposes(v: Vec3Model, dt: int, deceleration: int)
    requires
        0 <= dt,
        0 <= deceleration,
    ensures
        ({
            let d = v.decay(dt, deceleration);
            &&& opposes(v.x, d.x, dt * deceleration)
            &&& opposes(v.y, d.y, dt * deceleration)
            &&& opposes(v.z, d.z, dt * deceleration)
        }),
{
    let len = v.length();
    let rate = dt * deceleration;
    assert(0 <= rate) by (nonlinear_arith)
        requires
            rate == dt * deceleration,
            0 <= dt,
            0 <= deceleration,
    ;
    lemma_component_within_length(v);
    if len != 0 {
        lemma_drag(v.x, rate, len);
        lemma_drag(v.y, rate, len);
        lemma_drag(v.z, rate, len);
    }
}

/// The decay of a single component points against it, and its magnitude is
/// the floor of `|a| * rate / (len * UNIT)`.
proof fn lemma_drag(a: int, rate: int, len: int)
    requires
        0 <= rate,
        0 < len,
    ensures
        ({
            let d = drag(a, rate, len);
            &&& a >= 0 ==> d <= 0
            &&& a <= 0 ==> d >= 0
            &&& magnitude(d) * (len * UNIT) <= magnitude(a) * rate
            &&& magnitude(a) * rate < (magnitude(d) + 1) * (len * UNIT)
            &&& magnitude(a) <= len ==> magnitude(d) * UNIT <= rate
        }),
{
    let span = len * UNIT;
    assert(span > 0) by (nonlinear_arith)
        requires
            span == len * UNIT,
            UNIT == 1_000_000,
            0 < len,
    ;
    lemma_trunc_div(a * rate, span);
    let q = magnitude(trunc_div(a * rate, span));
    let m = magnitude(a);
    assert(magnitude(a * rate) == m * rate && (a >= 0 ==> a * rate >= 0) && (a <= 0 ==> a * rate
        <= 0)) by (nonlinear_arith)
        requires
            m == magnitude(a),
            rate >= 0,
    ;
    if m <= len {
        assert(q * UNIT <= rate) by (nonlinear_arith)
            requires
                q * span <= m * rate,
                span == len * UNIT,
                0 <= m <= len,
                0 < len,
                0 <= q,
                0 <= rate,
                UNIT == 1_000_000,
        ;
    }
}

/// A vector is at most twice as long as its largest component.
proof fn lemma_length_at_most_twice_max(v: Vec3Model)
    ensures
        v.length() <= 2 * v.max_norm(),
{
    lemma_component_within_length(v);
    let m = v.max_norm();
    let len = v.length();
    assert(v.x * v.x <= m * m && v.y * v.y <= m * m && v.z * v.z <= m * m) by (nonlinear_arith)
        requires
            -m <= v.x <= m,
            -m <= v.y <= m,
            -m <= v.z <= m,
    ;
    if len > 2 * m {
        assert(len * len >= (2 * m + 1) * (2 * m + 1) && (2 * m + 1) * (2 * m + 1) > 3 * (m * m))
            by (nonlinear_arith)
            requires
                0 <= m,
                len >= 2 * m + 1,
        ;
    }
}

/// The largest component of a velocity decays by at least `q` where the
/// rate is at least `2 * q * UNIT`.
proof fn lemma_leading_pace(m: int, len: int, rate: int, q: int, t: int)
    requires
        1 <= m,
        0 < len <= 2 * m,
        0 <= q,
        rate >= 2 * q * UNIT,
        0 <= t,
        m * rate < (t + 1) * (len * UNIT),
    ensures
        t >= q,
{
    if t < q {
        assert((t + 1) * (len * UNIT) <= m * rate) by (nonlinear_arith)
            requires
                0 <= t + 1 <= q,
                0 < len <= 2 * m,
                rate >= 2 * q * UNIT,
                UNIT == 1_000_000,
                1 <= m,
        ;
    }
}

/// A component of magnitude `alpha`, in a velocity whose largest component
/// has magnitude `m`, ends at `m - q` or below where it decays by `t`.
proof fn lemma_component_pace(alpha: int, m: int, len: int, rate: int, q: int, t: int)
    requires
        0 <= alpha <= m,
        0 < len <= 2 * m,
        0 <= q <= m,
        rate >= 2 * q * UNIT,
        0 <= t,
        alpha * rate < (t + 1) * (len * UNIT),
    ensures
        alpha - t <= m - q,
{
    if alpha - t > m - q {
        let k = alpha - m + q;
        assert(alpha * rate >= alpha * (2 * q * UNIT)) by (nonlinear_arith)
            requires
                alpha >= 0,
                rate >= 2 * q * UNIT,
        ;
        assert((t + 1) * (len * UNIT) <= k * (2 * m * UNIT)) by (nonlinear_arith)
            requires
                0 <= t + 1 <= k,
                0 < len <= 2 * m,
                UNIT == 1_000_000,
        ;
        assert(alpha * q < k * m) by (nonlinear_arith)
            requires
                alpha * (2 * q * UNIT) < k * (2 * m * UNIT),
                UNIT == 1_000_000,
        ;
        assert(k * m - alpha * q == (alpha - m) * (m - q)) by (nonlinear_arith)
            requires
                k == alpha - m + q,
        ;
        assert((alpha - m) * (m - q) <= 0) by (nonlinear_arith)
            requires
                alpha <= m,
                q <= m,
        ;
    }
}

/// One step of decay never lengthens a component and never carries it to
/// the other side of rest.
pub proof fn lemma_decelerate_shrinks(v: Vec3Model, dt: int, deceleration: int)
    requires
        0 <= dt,
        0 <= deceleration,
    ensures
        ({
            let r = v.decelerate(dt, deceleration);
            &&& magnitude(r.x) <= magnitude(v.x)
            &&& magnitude(r.y) <= magnitude(v.y)
            &&& magnitude(r.z) <= magnitude(v.z)
            &&& r.x == 0 || (r.x < 0) == (v.x < 0)
            &&& r.y == 0 || (r.y < 0) == (v.y < 0)
            &&& r.z == 0 || (r.z < 0) == (v.z < 0)
            &&& r.max_norm() <= v.max_norm()
        }),
{
    lemma_decay_opposes(v, dt, deceleration);
}

/// Where the decay of one step brings a moving component exactly to zero, it
/// brings the whole velocity to rest.
pub proof fn lemma_landing_is_rest(v: Vec3Model, dt: int, deceleration: int)
    requires
        0 <= dt,
        0 <= deceleration,
        ({
            let d = v.decay(dt, deceleration);
            (v.x != 0 && v.x + d.x == 0) || (v.y != 0 && v.y + d.y == 0) || (v.z != 0 && v.z + d.z
                == 0)
        }),
    ensures
        v.decelerate(dt, deceleration) == Vec3Model::zero(),
{
    let rate = dt * deceleration;
    let len = v.length();
    let d = v.decay(dt, deceleration);
    lemma_component_within_length(v);
    lemma_decay_opposes(v, dt, deceleration);
    lemma_drag(v.x, rate, len);
    lemma_drag(v.y, rate, len);
    lemma_drag(v.z, rate, len);
    let a = if v.x != 0 && v.x + d.x == 0 {
        magnitude(v.x)
    } else if v.y != 0 && v.y + d.y == 0 {
        magnitude(v.y)
    } else {
        magnitude(v.z)
    };
    assert(rate >= len * UNIT) by (nonlinear_arith)
        requires
            a * (len * UNIT) <= a * rate,
            a > 0,
    ;
    lemma_whole_share(magnitude(v.x), magnitude(d.x), rate, len);
    lemma_whole_share(magnitude(v.y), magnitude(d.y), rate, len);
    lemma_whole_share(magnitude(v.z), magnitude(d.z), rate, len);
}

/// At a rate of `len * UNIT` or more, a component decays by its whole
/// magnitude at least.
proof fn lemma_whole_share(b: int, t: int, rate: int, len: int)
    requires
        0 <= b,
        0 <= t,
        0 < len,
        rate >= len * UNIT,
        b * rate < (t + 1) * (len * UNIT),
    ensures
        b <= t,
{
    if b > t {
        assert((t + 1) * (len * UNIT) <= b * rate) by (nonlinear_arith)
            requires
                0 <= t + 1 <= b,
                0 < len,
                rate >= len * UNIT,
                UNIT == 1_000_000,
        ;
    }
}

/// One step of decay at a rate of at least `2 * q * UNIT` lowers the largest
/// component of a velocity by at least `q`, or brings the velocity to rest.
pub proof fn lemma_decelerate_pace(v: Vec3Model, dt: int, deceleration: int, q: int)
    requires
        0 <= dt,
        0 <= deceleration,
        0 <= q,
        dt * deceleration >= 2 * q * UNIT,
    ensures
        v.decelerate(dt, deceleration).max_norm() <= larger(0, v.max_norm() - q),
{
    let rate = dt * deceleration;
    let len = v.length();
    let m = v.max_norm();
    let d = v.decay(dt, deceleration);
    let next = Vec3Model { x: v.x + d.x, y: v.y + d.y, z: v.z + d.z };
    lemma_component_within_length(v);
    if len != 0 && !v.overshoots(next) {
        lemma_length_at_most_twice_max(v);
        lemma_drag(v.x, rate, len);
        lemma_drag(v.y, rate, len);
        lemma_drag(v.z, rate, len);
        let (ax, ay, az) = (magnitude(v.x), magnitude(v.y), magnitude(v.z));
        let (tx, ty, tz) = (magnitude(d.x), magnitude(d.y), magnitude(d.z));
        assert(tx <= ax && ty <= ay && tz <= az);
        if ax == m {
            lemma_leading_pace(m, len, rate, q, tx);
        } else if ay == m {
            lemma_leading_pace(m, len, rate, q, ty);
        } else {
            lemma_leading_pace(m, len, rate, q, tz);
        }
        lemma_component_pace(ax, m, len, rate, q, tx);
        lemma_component_pace(ay, m, len, rate, q, ty);
        lemma_component_pace(az, m, len, rate, q, tz);
    }
}

/// A magnitude whose square is below the square of `len + 1` is at most `len`.
proof fn lemma_square_order(a: int, len: int)
    requires
        0 <= a,
        0 <= len,
        a * a < (len + 1) * (len + 1),
    ensures
        a <= len,
{
    if a > len {
        assert((len + 1) * (len + 1) <= a * a) by (nonlinear_arith)
            requires
                0 <= len,
                len + 1 <= a,
        ;
    }
}

/// The sum `a + b`, confined to `-limit ..= limit`.
fn confine(a: i64, b: i64, limit: u32) -> (r: i64)
    ensures
        r == clamp(a + b, -limit, limit as int),
{
    let sum: i128 = a as i128 + b as i128;
    let bound: i128 = limit as i128;
    if sum < -bound {
        (-bound) as i64
    } else if sum > bound {
        bound as i64
    } else {
        sum as i64
    }
}

/// The square of a component.
fn square(a: i64) -> (r: u128)
    ensures
        r == a * a,
        r <= 0x4000_0000_0000_0000_0000_0000_0000_0000,
{
    let wide: i128 = a as i128;
    assert(0 <= wide * wide <= 0x4000_0000_0000_0000_0000_0000_0000_0000) by (nonlinear_arith)
        requires
            -0x8000_0000_0000_0000 <= wide <= 0x8000_0000_0000_0000,
    ;
    (wide * wide) as u128
}

/// Computes the decay of one component.
fn opposed(a: i64, rate: u64, len: u64) -> (r: i64)
    requires
        0 < len,
        magnitude(a as int) <= len,
    ensures
        r == drag(a as int, rate as int, len as int),
{
    assert(0 < len * UNIT <= 0xffff_ffff_ffff_ffff * 1_000_000) by (nonlinear_arith)
        requires
            UNIT == 1_000_000,
            0 < len <= 0xffff_ffff_ffff_ffff,
    ;
    let span: i128 = len as i128 * (UNIT as i128);
    let wide: i128 = a as i128;
    assert(-0x8000_0000_0000_0000_0000_0000_0000_0000 < wide * rate
        < 0x8000_0000_0000_0000_0000_0000_0000_0000) by (nonlinear_arith)
        requires
            -0x8000_0000_0000_0000 <= wide < 0x8000_0000_0000_0000,
            0 <= rate < 0x1_0000_0000_0000_0000,
    ;
    let product: i128 = wide * (rate as i128);
    let quotient: i128 = product / span;
    proof {
        lemma_drag(a as int, rate as int, len as int);
    }
    (-quotient) as i64
}

impl Vec3 {
    /// The vector at rest.
    pub fn zero() -> (r: Vec3)
        ensures
            r@ == Vec3Model::zero(),
    {
        Vec3 { x: 0, y: 0, z: 0 }
    }

    /// Adds `impulse` and confines each component to `-limit ..= limit`.
    pub fn boosted(self, impulse: Vec3, limit: u32) -> (r: Vec3)
        ensures
            r@ == self@.boost(impulse@, limit as int),
            r@.within(limit as int),
    {
        Vec3 {
            x: confine(self.x, impulse.x, limit),
            y: confine(self.y, impulse.y, limit),
            z: confine(self.z, impulse.z, limit),
        }
    }

    /// The Euclidean length, rounded down.
    pub fn length(self) -> (r: u64)
        ensures
            r == self@.length(),
    {
        let n: u128 = square(self.x) + square(self.y) + square(self.z);
        isqrt(n)
    }

    /// The change of velocity that `deceleration` works in a step of `dt`.
    pub fn decay(self, dt: u32, deceleration: u32) -> (r: Vec3)
        ensures
            r@ == self@.decay(dt as int, deceleration as int),
    {
        let len: u64 = self.length();
        if len == 0 {
            return Vec3::zero();
        }
        assert(dt * deceleration <= 0xffff_ffff * 0xffff_ffff) by (nonlinear_arith)
            requires
                0 <= dt <= 0xffff_ffff,
                0 <= deceleration <= 0xffff_ffff,
        ;
        let rate: u64 = (dt as u64) * (deceleration as u64);
        proof {
            lemma_component_within_length(self@);
        }
        Vec3 {
            x: opposed(self.x, rate, len),
            y: opposed(self.y, rate, len),
            z: opposed(self.z, rate, len),
        }
    }

    /// The velocity after the decay of one step; rest where the decay would
    /// carry any axis over to the other side.
    pub fn decelerated(self, dt: u32, deceleration: u32) -> (r: Vec3)
        ensures
            r@ == self@.decelerate(dt as int, deceleration as int),
    {
        let d = self.decay(dt, deceleration);
        proof {
            lemma_decay_opposes(self@, dt as int, deceleration as int);
        }
        let x: i128 = self.x as i128 + d.x as i128;
        let y: i128 = self.y as i128 + d.y as i128;
        let z: i128 = self.z as i128 + d.z as i128;
        if (self.x < 0) != (x < 0) || (self.y < 0) != (y < 0) || (self.z < 0) != (z < 0) {
            Vec3::zero()
        } else {
            Vec3 { x: x as i64, y: y as i64, z: z as i64 }
        }
    }
}

} // verus!
