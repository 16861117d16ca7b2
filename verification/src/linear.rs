use vstd::prelude::*;

verus! {

use crate::fx::FX_LIMIT;
use crate::fx::SCALE;
use crate::fx::div_trunc;
use crate::fx::fx_mul;
use crate::fx::fx_mul_spec;
use crate::fx::i64_div_trunc;
use crate::fx::sin_turns;
use crate::fx::cos_turns;
use crate::fx::sin_turns_spec;
use crate::fx::cos_turns_spec;

/// Largest magnitude, in ticks, that a quaternion component of a stored
/// rotation may have: four units, comfortably above the unit quaternions
/// the controllers keep.
pub const QUAT_LIMIT: i64 = 4_000_000;

/// Largest magnitude, in ticks, that a quaternion component handed to
/// `quat_mul` may have: wide enough for the product of a stored rotation
/// and an axis rotation to go through a second product before it is clamped
/// back into the stored range.
pub const QUAT_MUL_LIMIT: i64 = 16_000_000;

/// A three-component vector of fixed-point scalars, in ticks.
#[derive(Clone, Copy, Debug, PartialEq, Eq, Structural)]
pub struct FxVec3 {
    pub x: i64,
    pub y: i64,
    pub z: i64,
}

/// A quaternion of fixed-point scalars, in ticks; `w` is the real part.
#[derive(Clone, Copy, Debug, PartialEq, Eq, Structural)]
pub struct FxQuat {
    pub x: i64,
    pub y: i64,
    pub z: i64,
    pub w: i64,
}

impl FxQuat {
    /// The identity rotation.
    pub fn identity() -> (q: FxQuat)
        ensures
            q == (FxQuat { x: 0i64, y: 0i64, z: 0i64, w: SCALE as i64 }),
            q.bounded(),
    {
        FxQuat { x: 0, y: 0, z: 0, w: SCALE }
    }

    /// Every component is within `QUAT_LIMIT`, the range the controllers
    /// keep their stored rotations in.
    pub open spec fn bounded(self) -> bool {
        &&& -QUAT_LIMIT <= self.x <= QUAT_LIMIT
        &&& -QUAT_LIMIT <= self.y <= QUAT_LIMIT
        &&& -QUAT_LIMIT <= self.z <= QUAT_LIMIT
        &&& -QUAT_LIMIT <= self.w <= QUAT_LIMIT
    }

    /// Every component is within `QUAT_MUL_LIMIT`, the range `quat_mul`
    /// accepts.
    pub open spec fn mul_ready(self) -> bool {
        &&& -QUAT_MUL_LIMIT <= self.x <= QUAT_MUL_LIMIT
        &&& -QUAT_MUL_LIMIT <= self.y <= QUAT_MUL_LIMIT
        &&& -QUAT_MUL_LIMIT <= self.z <= QUAT_MUL_LIMIT
        &&& -QUAT_MUL_LIMIT <= self.w <= QUAT_MUL_LIMIT
    }
}

/// The `x` component of the Hamilton product of two fixed-point quaternions.
pub open spec fn qmul_x(a: FxQuat, b: FxQuat) -> int {
    fx_mul_spec(a.w as int, b.x as int) + fx_mul_spec(a.x as int, b.w as int)
        + fx_mul_spec(a.y as int, b.z as int) - fx_mul_spec(a.z as int, b.y as int)
}

/// The `y` component of the Hamilton product of two fixed-point quaternions.
pub open spec fn qmul_y(a: FxQuat, b: FxQuat) -> int {
    fx_mul_spec(a.w as int, b.y as int) - fx_mul_spec(a.x as int, b.z as int)
        + fx_mul_spec(a.y as int, b.w as int) + fx_mul_spec(a.z as int, b.x as int)
}

/// The `z` component of the Hamilton product of two fixed-point quaternions.
pub open spec fn qmul_z(a: FxQuat, b: FxQuat) -> int {
    fx_mul_spec(a.w as int, b.z as int) + fx_mul_spec(a.x as int, b.y as int)
        - fx_mul_spec(a.y as int, b.x as int) + fx_mul_spec(a.z as int, b.w as int)
}

/// The `w` component of the Hamilton product of two fixed-point quaternions.
pub open spec fn qmul_w(a: FxQuat, b: FxQuat) -> int {
    fx_mul_spec(a.w as int, b.w as int) - fx_mul_spec(a.x as int, b.x as int)
        - fx_mul_spec(a.y as int, b.y as int) - fx_mul_spec(a.z as int, b.z as int)
}

/// The Hamilton product `a * b` in fixed point: the rotation that applies
/// `b` first and `a` second.
pub fn quat_mul(a: &FxQuat, b: &FxQuat) -> (r: FxQuat)
    requires
        a.mul_ready(),
        b.mul_ready(),
    ensures
        r.x as int == qmul_x(*a, *b),
        r.y as int == qmul_y(*a, *b),
        r.z as int == qmul_z(*a, *b),
        r.w as int == qmul_w(*a, *b),
{
    let x = fx_mul(a.w, b.x) + fx_mul(a.x, b.w) + fx_mul(a.y, b.z) - fx_mul(a.z, b.y);
    let y = fx_mul(a.w, b.y) - fx_mul(a.x, b.z) + fx_mul(a.y, b.w) + fx_mul(a.z, b.x);
    let z = fx_mul(a.w, b.z) + fx_mul(a.x, b.y) - fx_mul(a.y, b.x) + fx_mul(a.z, b.w);
    let w = fx_mul(a.w, b.w) - fx_mul(a.x, b.x) - fx_mul(a.y, b.y) - fx_mul(a.z, b.z);
    FxQuat { x, y, z, w }
}

/// The rotation by `angle` turn ticks about the local X axis: the
/// half-angle sine and cosine placed in the `x` and `w` components.
pub fn quat_from_x_turns(angle: i64) -> (q: FxQuat)
    requires
        -FX_LIMIT <= angle <= FX_LIMIT,
    ensures
        q.x as int == sin_turns_spec(div_trunc(angle as int, 2)),
        q.y == 0,
        q.z == 0,
        q.w as int == cos_turns_spec(div_trunc(angle as int, 2)),
        -SCALE <= q.x <= SCALE,
        -SCALE <= q.w <= SCALE,
        q.bounded(),
{
    let half = i64_div_trunc(angle, 2);
    FxQuat { x: sin_turns(half), y: 0, z: 0, w: cos_turns(half) }
}

/// The rotation by `angle` turn ticks about the local Y axis: the
/// half-angle sine and cosine placed in the `y` and `w` components.
pub fn quat_from_y_turns(angle: i64) -> (q: FxQuat)
    requires
        -FX_LIMIT <= angle <= FX_LIMIT,
    ensures
        q.y as int == sin_turns_spec(div_trunc(angle as int, 2)),
        q.x == 0,
        q.z == 0,
        q.w as int == cos_turns_spec(div_trunc(angle as int, 2)),
        -SCALE <= q.y <= SCALE,
        -SCALE <= q.w <= SCALE,
        q.bounded(),
{
    let half = i64_div_trunc(angle, 2);
    FxQuat { x: 0, y: sin_turns(half), z: 0, w: cos_turns(half) }
}

/// Componentwise bounds on a Hamilton product whose left factor is a stored
/// rotation and whose right factor has unit-range components (an axis
/// rotation): each product component stays within `QUAT_MUL_LIMIT`.
pub proof fn lemma_qmul_stays_mul_ready(a: FxQuat, b: FxQuat)
    requires
        a.bounded(),
        -SCALE <= b.x <= SCALE,
        -SCALE <= b.y <= SCALE,
        -SCALE <= b.z <= SCALE,
        -SCALE <= b.w <= SCALE,
    ensures
        -QUAT_MUL_LIMIT <= qmul_x(a, b) <= QUAT_MUL_LIMIT,
        -QUAT_MUL_LIMIT <= qmul_y(a, b) <= QUAT_MUL_LIMIT,
        -QUAT_MUL_LIMIT <= qmul_z(a, b) <= QUAT_MUL_LIMIT,
        -QUAT_MUL_LIMIT <= qmul_w(a, b) <= QUAT_MUL_LIMIT,
{
    crate::fx::lemma_fx_mul_spec_bound(a.w as int, b.x as int, QUAT_LIMIT as int, SCALE as int);
    crate::fx::lemma_fx_mul_spec_bound(a.x as int, b.w as int, QUAT_LIMIT as int, SCALE as int);
    crate::fx::lemma_fx_mul_spec_bound(a.y as int, b.z as int, QUAT_LIMIT as int, SCALE as int);
    crate::fx::lemma_fx_mul_spec_bound(a.z as int, b.y as int, QUAT_LIMIT as int, SCALE as int);
    crate::fx::lemma_fx_mul_spec_bound(a.w as int, b.y as int, QUAT_LIMIT as int, SCALE as int);
    crate::fx::lemma_fx_mul_spec_bound(a.x as int, b.z as int, QUAT_LIMIT as int, SCALE as int);
    crate::fx::lemma_fx_mul_spec_bound(a.y as int, b.w as int, QUAT_LIMIT as int, SCALE as int);
    crate::fx::lemma_fx_mul_spec_bound(a.z as int, b.x as int, QUAT_LIMIT as int, SCALE as int);
    crate::fx::lemma_fx_mul_spec_bound(a.w as int, b.z as int, QUAT_LIMIT as int, SCALE as int);
    crate::fx::lemma_fx_mul_spec_bound(a.x as int, b.y as int, QUAT_LIMIT as int, SCALE as int);
    crate::fx::lemma_fx_mul_spec_bound(a.y as int, b.x as int, QUAT_LIMIT as int, SCALE as int);
    crate::fx::lemma_fx_mul_spec_bound(a.z as int, b.w as int, QUAT_LIMIT as int, SCALE as int);
    crate::fx::lemma_fx_mul_spec_bound(a.w as int, b.w as int, QUAT_LIMIT as int, SCALE as int);
    crate::fx::lemma_fx_mul_spec_bound(a.x as int, b.x as int, QUAT_LIMIT as int, SCALE as int);
    crate::fx::lemma_fx_mul_spec_bound(a.y as int, b.y as int, QUAT_LIMIT as int, SCALE as int);
    crate::fx::lemma_fx_mul_spec_bound(a.z as int, b.z as int, QUAT_LIMIT as int, SCALE as int);
}

} // verus!
