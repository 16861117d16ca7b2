use vstd::prelude::*;

verus! {

use crate::fx::FX_LIMIT;
use crate::fx::SCALE;
use crate::fx::clamp_spec;
use crate::fx::cos_turns_spec;
use crate::fx::div_trunc;
use crate::fx::fx_clamp;
use crate::fx::fx_mul;
use crate::fx::fx_mul_spec;
use crate::fx::i64_div_trunc;
use crate::fx::lemma_fx_mul_spec_bound;
use crate::fx::sin_turns_spec;
use crate::linear::FxQuat;
use crate::linear::FxVec3;
use crate::linear::QUAT_LIMIT;
use crate::linear::lemma_qmul_stays_mul_ready;
use crate::linear::quat_from_x_turns;
use crate::linear::quat_from_y_turns;
use crate::linear::quat_mul;
use crate::orbit::DELTA_LIMIT;
use crate::orbit::SCROLL_LIMIT;

/// Epsilon floor for the boom's scale, in ticks: a hundred-thousandth of a
/// unit.  A zoom that would drive any scale component to or below this
/// floor is dropped whole, so the scale can never collapse or invert.
pub const SCALE_EPSILON: i64 = 10;

/// Rotation sensitivity, in turn ticks per pixel unit: about a hundredth of
/// a radian of rotation per pixel of pointer motion, stated in turns.
pub const ROTATE_SENS: i64 = 1_592;

/// Pointer motion whose scaled delta stays within this many ticks on both
/// axes is treated as no motion and rotates nothing.
pub const MOTION_EPSILON: i64 = 10;

/// The state of the boom/gimbal rig: a parent boom that carries a uniform
/// zoom scale and its own orientation, and a child gimbal whose world
/// orientation composes with the boom's.
#[derive(Clone, Copy, Debug, PartialEq, Eq, Structural)]
pub struct BoomGimbalState {
    /// The boom's scale, in ticks per component; every component stays
    /// strictly above `SCALE_EPSILON`.
    pub boom_scale: FxVec3,
    /// The boom's orientation.
    pub boom_rotation: FxQuat,
    /// The gimbal's orientation, relative to the boom.
    pub gimbal_rotation: FxQuat,
}

/// The input one tick hands the rig controller: the accumulated scroll and
/// pointer deltas, in ticks, and the two rotation keys' held state.
#[derive(Clone, Copy, Debug, PartialEq, Eq, Structural)]
pub struct RigInput {
    /// Accumulated vertical scroll delta, in ticks (lines).
    pub scroll: i64,
    /// The boom rotation key is held.
    pub boom_key: bool,
    /// The gimbal rotation key is held.
    pub gimbal_key: bool,
    /// Accumulated horizontal pointer delta, in ticks (pixels).
    pub dx: i64,
    /// Accumulated vertical pointer delta, in ticks (pixels).
    pub dy: i64,
}

impl RigInput {
    /// The machine bounds the fixed-point arithmetic needs of one tick's
    /// input.
    pub open spec fn wf(self) -> bool {
        &&& -DELTA_LIMIT <= self.dx <= DELTA_LIMIT
        &&& -DELTA_LIMIT <= self.dy <= DELTA_LIMIT
        &&& -SCROLL_LIMIT <= self.scroll <= SCROLL_LIMIT
    }
}

/// The uniform scale decrement of one tick's zoom: a hundredth of the
/// scroll delta.
pub open spec fn rig_zoom_delta(inp: RigInput) -> int {
    div_trunc(inp.scroll as int, 100)
}

/// Whether the zoom of this tick is accepted: every scale component must
/// stay strictly above the epsilon floor and inside the fixed-point range,
/// else the whole update is dropped and the prior scale kept.
pub open spec fn rig_zoom_accepted(pre: BoomGimbalState, inp: RigInput) -> bool {
    let d = rig_zoom_delta(inp);
    &&& pre.boom_scale.x - d > SCALE_EPSILON
    &&& pre.boom_scale.y - d > SCALE_EPSILON
    &&& pre.boom_scale.z - d > SCALE_EPSILON
    &&& pre.boom_scale.x - d <= FX_LIMIT
    &&& pre.boom_scale.y - d <= FX_LIMIT
    &&& pre.boom_scale.z - d <= FX_LIMIT
}

/// The pointer delta scaled by the rotation sensitivity, per axis.
pub open spec fn rig_scaled_dx(inp: RigInput) -> int {
    fx_mul_spec(inp.dx as int, ROTATE_SENS as int)
}

/// The pointer delta scaled by the rotation sensitivity, per axis.
pub open spec fn rig_scaled_dy(inp: RigInput) -> int {
    fx_mul_spec(inp.dy as int, ROTATE_SENS as int)
}

/// Whether this tick's pointer motion is large enough to rotate: at least
/// one scaled axis delta must exceed the motion epsilon in magnitude.
pub open spec fn rig_rotating(inp: RigInput) -> bool {
    let sdx = rig_scaled_dx(inp);
    let sdy = rig_scaled_dy(inp);
    ||| sdx > MOTION_EPSILON
    ||| sdx < -MOTION_EPSILON
    ||| sdy > MOTION_EPSILON
    ||| sdy < -MOTION_EPSILON
}

/// The components of a stored rotation after the two sequential local-axis
/// rotations of one tick: first about its own X axis by `pitch_t` turn
/// ticks, then about its own (new) Y axis by `yaw_t` turn ticks, each as a
/// Hamilton product on the right, with the result clamped back into the
/// stored component range.  Returned as `(x, y, z, w)`.
pub open spec fn rotated_components(rot: FxQuat, pitch_t: int, yaw_t: int) -> (int, int, int, int) {
    let s1 = sin_turns_spec(div_trunc(pitch_t, 2));
    let c1 = cos_turns_spec(div_trunc(pitch_t, 2));
    let s2 = sin_turns_spec(div_trunc(yaw_t, 2));
    let c2 = cos_turns_spec(div_trunc(yaw_t, 2));
    let ix = fx_mul_spec(rot.w as int, s1) + fx_mul_spec(rot.x as int, c1)
        + fx_mul_spec(rot.y as int, 0) - fx_mul_spec(rot.z as int, 0);
    let iy = fx_mul_spec(rot.w as int, 0) - fx_mul_spec(rot.x as int, 0)
        + fx_mul_spec(rot.y as int, c1) + fx_mul_spec(rot.z as int, s1);
    let iz = fx_mul_spec(rot.w as int, 0) + fx_mul_spec(rot.x as int, 0)
        - fx_mul_spec(rot.y as int, s1) + fx_mul_spec(rot.z as int, c1);
    let iw = fx_mul_spec(rot.w as int, c1) - fx_mul_spec(rot.x as int, s1)
        - fx_mul_spec(rot.y as int, 0) - fx_mul_spec(rot.z as int, 0);
    let rx = fx_mul_spec(iw, 0) + fx_mul_spec(ix, c2) + fx_mul_spec(iy, 0) - fx_mul_spec(iz, s2);
    let ry = fx_mul_spec(iw, s2) - fx_mul_spec(ix, 0) + fx_mul_spec(iy, c2) + fx_mul_spec(iz, 0);
    let rz = fx_mul_spec(iw, 0) + fx_mul_spec(ix, s2) - fx_mul_spec(iy, 0) + fx_mul_spec(iz, c2);
    let rw = fx_mul_spec(iw, c2) - fx_mul_spec(ix, 0) - fx_mul_spec(iy, s2) - fx_mul_spec(iz, 0);
    (
        clamp_spec(rx, -QUAT_LIMIT as int, QUAT_LIMIT as int),
        clamp_spec(ry, -QUAT_LIMIT as int, QUAT_LIMIT as int),
        clamp_spec(rz, -QUAT_LIMIT as int, QUAT_LIMIT as int),
        clamp_spec(rw, -QUAT_LIMIT as int, QUAT_LIMIT as int),
    )
}

/// Whether `post` is `pre` rotated by this tick's local-axis rotations.
pub open spec fn rotation_step_ok(rot: FxQuat, inp: RigInput, post: FxQuat) -> bool {
    let c = rotated_components(rot, -rig_scaled_dy(inp), -rig_scaled_dx(inp));
    &&& post.x as int == c.0
    &&& post.y as int == c.1
    &&& post.z as int == c.2
    &&& post.w as int == c.3
}

/// The full functional specification of one rig tick: the zoom is applied
/// (or dropped whole at the epsilon guard), then each of the boom and the
/// gimbal rotates exactly when its key is held and the pointer moved, each
/// about its own local axes.  The three operations touch disjoint state and
/// are applied in this fixed order.
pub open spec fn rig_step_ok(pre: BoomGimbalState, inp: RigInput, post: BoomGimbalState) -> bool {
    let d = rig_zoom_delta(inp);
    &&& if rig_zoom_accepted(pre, inp) {
        &&& post.boom_scale.x == pre.boom_scale.x - d
        &&& post.boom_scale.y == pre.boom_scale.y - d
        &&& post.boom_scale.z == pre.boom_scale.z - d
    } else {
        post.boom_scale == pre.boom_scale
    }
    &&& if inp.boom_key && rig_rotating(inp) {
        rotation_step_ok(pre.boom_rotation, inp, post.boom_rotation)
    } else {
        post.boom_rotation == pre.boom_rotation
    }
    &&& if inp.gimbal_key && rig_rotating(inp) {
        rotation_step_ok(pre.gimbal_rotation, inp, post.gimbal_rotation)
    } else {
        post.gimbal_rotation == pre.gimbal_rotation
    }
}

/// Rotate a stored orientation about its own X axis by `pitch_t` and then
/// its own Y axis by `yaw_t`, in turn ticks, clamping the result back into
/// the stored component range.
fn rotate_by_local_axes(rot: &FxQuat, pitch_t: i64, yaw_t: i64) -> (r: FxQuat)
    requires
        rot.bounded(),
        -FX_LIMIT <= pitch_t <= FX_LIMIT,
        -FX_LIMIT <= yaw_t <= FX_LIMIT,
    ensures
        ({
            let c = rotated_components(*rot, pitch_t as int, yaw_t as int);
            r.x as int == c.0 && r.y as int == c.1 && r.z as int == c.2 && r.w as int == c.3
        }),
        r.bounded(),
{
    let qx = quat_from_x_turns(pitch_t);
    let qy = quat_from_y_turns(yaw_t);
    proof {
        lemma_qmul_stays_mul_ready(*rot, qx);
    }
    let mid = quat_mul(rot, &qx);
    let full = quat_mul(&mid, &qy);
    FxQuat {
        x: fx_clamp(full.x, -QUAT_LIMIT, QUAT_LIMIT),
        y: fx_clamp(full.y, -QUAT_LIMIT, QUAT_LIMIT),
        z: fx_clamp(full.z, -QUAT_LIMIT, QUAT_LIMIT),
        w: fx_clamp(full.w, -QUAT_LIMIT, QUAT_LIMIT),
    }
}

impl BoomGimbalState {
    /// The state's invariant: every scale component strictly above the
    /// epsilon floor and inside the fixed-point range, both rotations
    /// inside the stored component range.
    pub open spec fn wf(self) -> bool {
        &&& SCALE_EPSILON < self.boom_scale.x <= FX_LIMIT
        &&& SCALE_EPSILON < self.boom_scale.y <= FX_LIMIT
        &&& SCALE_EPSILON < self.boom_scale.z <= FX_LIMIT
        &&& self.boom_rotation.bounded()
        &&& self.gimbal_rotation.bounded()
    }

    /// A fresh rig: unit scale and identity orientations.
    pub fn new() -> (s: BoomGimbalState)
        ensures
            s.boom_scale == (FxVec3 { x: SCALE as i64, y: SCALE as i64, z: SCALE as i64 }),
            s.boom_rotation == (FxQuat { x: 0i64, y: 0i64, z: 0i64, w: SCALE as i64 }),
            s.gimbal_rotation == (FxQuat { x: 0i64, y: 0i64, z: 0i64, w: SCALE as i64 }),
            s.wf(),
    {
        BoomGimbalState {
            boom_scale: FxVec3 { x: SCALE, y: SCALE, z: SCALE },
            boom_rotation: FxQuat::identity(),
            gimbal_rotation: FxQuat::identity(),
        }
    }

    /// The gimbal's world orientation, computed on demand: the rigid
    /// parent/child hierarchy composes the boom's rotation with the
    /// gimbal's.
    pub fn world_orientation(&self) -> (r: FxQuat)
        requires
            self.wf(),
        ensures
            r.x as int == crate::linear::qmul_x(self.boom_rotation, self.gimbal_rotation),
            r.y as int == crate::linear::qmul_y(self.boom_rotation, self.gimbal_rotation),
            r.z as int == crate::linear::qmul_z(self.boom_rotation, self.gimbal_rotation),
            r.w as int == crate::linear::qmul_w(self.boom_rotation, self.gimbal_rotation),
    {
        quat_mul(&self.boom_rotation, &self.gimbal_rotation)
    }

    /// Advance the rig by one tick of accumulated input.  The new state is
    /// pinned down by `rig_step_ok`; in particular no scale component ever
    /// reaches the epsilon floor.
    pub fn tick(&mut self, inp: &RigInput)
        requires
            old(self).wf(),
            inp.wf(),
        ensures
            rig_step_ok(*old(self), *inp, *final(self)),
            final(self).wf(),
    {
        let d = i64_div_trunc(inp.scroll, 100);
        let nx = self.boom_scale.x - d;
        let ny = self.boom_scale.y - d;
        let nz = self.boom_scale.z - d;
        if nx > SCALE_EPSILON && ny > SCALE_EPSILON && nz > SCALE_EPSILON && nx <= FX_LIMIT
            && ny <= FX_LIMIT && nz <= FX_LIMIT {
            self.boom_scale = FxVec3 { x: nx, y: ny, z: nz };
        }
        let sdx = fx_mul(inp.dx, ROTATE_SENS);
        let sdy = fx_mul(inp.dy, ROTATE_SENS);
        proof {
            lemma_fx_mul_spec_bound(inp.dx as int, ROTATE_SENS as int, DELTA_LIMIT as int, 1_592);
            lemma_fx_mul_spec_bound(inp.dy as int, ROTATE_SENS as int, DELTA_LIMIT as int, 1_592);
        }
        if sdx > MOTION_EPSILON || sdx < -MOTION_EPSILON || sdy > MOTION_EPSILON || sdy
            < -MOTION_EPSILON {
            if inp.boom_key {
                self.boom_rotation = rotate_by_local_axes(&self.boom_rotation, -sdy, -sdx);
            }
            if inp.gimbal_key {
                self.gimbal_rotation = rotate_by_local_axes(&self.gimbal_rotation, -sdy, -sdx);
            }
        }
    }
}

/// One rig step keeps the state's invariant: in particular the scale stays
/// strictly above its epsilon floor.
pub proof fn lemma_rig_step_preserves_wf(pre: BoomGimbalState, inp: RigInput, post: BoomGimbalState)
    requires
        pre.wf(),
        inp.wf(),
        rig_step_ok(pre, inp, post),
    ensures
        post.wf(),
{
}

/// The epsilon floor holds along any run of the rig: however long the
/// scroll sequence and however large its deltas, every state of the trace
/// keeps each scale component strictly above the floor — a rejected zoom
/// freezes the scale at its last valid value.
pub proof fn lemma_rig_trace_scale_above_epsilon(
    states: Seq<BoomGimbalState>,
    inputs: Seq<RigInput>,
)
    requires
        states.len() == inputs.len() + 1,
        states[0].wf(),
        forall|i: int| 0 <= i < inputs.len() ==> (#[trigger] inputs[i]).wf(),
        forall|i: int|
            0 <= i < inputs.len() ==> rig_step_ok(states[i], #[trigger] inputs[i], states[i + 1]),
    ensures
        forall|i: int| 0 <= i < states.len() ==> (#[trigger] states[i]).wf(),
        forall|i: int|
            0 <= i < states.len() ==> (#[trigger] states[i]).boom_scale.x > SCALE_EPSILON
                && states[i].boom_scale.y > SCALE_EPSILON
                && states[i].boom_scale.z > SCALE_EPSILON,
    decreases inputs.len(),
{
    if inputs.len() == 0 {
    } else {
        lemma_rig_step_preserves_wf(states[0], inputs[0], states[1]);
        let states2 = states.subrange(1, states.len() as int);
        let inputs2 = inputs.subrange(1, inputs.len() as int);
        assert forall|i: int|
            0 <= i < inputs2.len() implies rig_step_ok(
            states2[i],
            #[trigger] inputs2[i],
            states2[i + 1],
        ) by {
            assert(inputs2[i] == inputs[i + 1]);
            assert(states2[i] == states[i + 1]);
            assert(states2[i + 1] == states[i + 2]);
        }
        lemma_rig_trace_scale_above_epsilon(states2, inputs2);
        assert forall|i: int| 0 <= i < states.len() implies (#[trigger] states[i]).wf() by {
            if i >= 1 {
                assert(states2[i - 1] == states[i]);
            }
        }
    }
}

} // verus!
