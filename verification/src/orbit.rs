use vstd::prelude::*;

verus! {

use crate::fx::FX_LIMIT;
use crate::fx::QUARTER_TURN;
use crate::fx::SCALE;
use crate::fx::TURN;
use crate::fx::clamp_spec;
use crate::fx::cos_turns;
use crate::fx::cos_turns_spec;
use crate::fx::div_trunc;
use crate::fx::fx_clamp;
use crate::fx::fx_div;
use crate::fx::fx_div_spec;
use crate::fx::fx_mul;
use crate::fx::fx_mul_spec;
use crate::fx::i64_div_trunc;
use crate::fx::lemma_fx_mul_spec_bound;
use crate::fx::norm_turn;
use crate::fx::sin_turns;
use crate::fx::sin_turns_spec;
use crate::linear::FxQuat;
use crate::linear::FxVec3;
use vstd::arithmetic::div_mod::lemma_mod_bound;

/// Smallest orbit radius, in ticks: 0.05 units.  Zooming clamps here and
/// never collapses the eye onto the focus.
pub const RADIUS_FLOOR: i64 = 50_000;

/// Largest magnitude, in ticks, of an accumulated pointer delta or a window
/// extent for one tick: ten thousand units (pixels).
pub const DELTA_LIMIT: i64 = 10_000_000_000;

/// Largest magnitude, in ticks, of an accumulated scroll delta for one
/// tick: a thousand units (lines).
pub const SCROLL_LIMIT: i64 = 1_000_000_000;

/// Largest vertical field of view, in ticks: four units (radians).
pub const FOV_LIMIT: i64 = 4_000_000;

/// Largest aspect ratio, in ticks: ten units.
pub const ASPECT_LIMIT: i64 = 10_000_000;

/// The persistent state of the orbit camera: the point the eye looks at and
/// circles, the eye's distance from it, the orientation as yaw and pitch
/// angles in turn ticks, and the hysteresis flag that keeps pan and orbit
/// directions stable while the camera hangs upside down.
///
/// The orientation is the composition "yaw about the global up axis, then
/// pitch about the resulting local right axis"; both per-tick orbit
/// rotations preserve that shape, so the two angles model it exactly.
#[derive(Clone, Copy, Debug, PartialEq, Eq, Structural)]
pub struct CameraOrbitState {
    /// The orbit focus point, in ticks per component.
    pub focus: FxVec3,
    /// The eye's distance behind the focus, in ticks; at least
    /// `RADIUS_FLOOR`.
    pub radius: i64,
    /// Rotation about the global up axis, in turn ticks, in `[0, TURN)`.
    pub yaw: i64,
    /// Rotation about the local right axis, in turn ticks, in `[0, TURN)`.
    pub pitch: i64,
    /// Whether the camera's local up axis pointed downward at the last
    /// orbit-button edge.
    pub upside_down: bool,
}

/// The input one tick hands the orbit controller: button state sampled for
/// the tick, the accumulated pointer and scroll deltas, and the window and
/// perspective-projection parameters that make panning resolution- and
/// FOV-independent.  All scalars are in ticks.
#[derive(Clone, Copy, Debug, PartialEq, Eq, Structural)]
pub struct OrbitInput {
    /// The orbit pointer button is held.
    pub orbit_held: bool,
    /// The pan pointer button is held.
    pub pan_held: bool,
    /// The orbit button was pressed or released this tick.
    pub orbit_edge: bool,
    /// Accumulated horizontal pointer delta, in ticks (pixels).
    pub dx: i64,
    /// Accumulated vertical pointer delta, in ticks (pixels).
    pub dy: i64,
    /// Accumulated vertical scroll delta, in ticks (lines).
    pub scroll: i64,
    /// Window width, in ticks (pixels); at least one pixel.
    pub width: i64,
    /// Window height, in ticks (pixels); at least one pixel.
    pub height: i64,
    /// Vertical field of view of the perspective projection, in ticks
    /// (radians); positive.
    pub fov: i64,
    /// Aspect ratio of the projection, in ticks; positive.
    pub aspect: i64,
}

impl OrbitInput {
    /// The machine bounds the fixed-point arithmetic needs of one tick's
    /// input.
    pub open spec fn wf(self) -> bool {
        &&& -DELTA_LIMIT <= self.dx <= DELTA_LIMIT
        &&& -DELTA_LIMIT <= self.dy <= DELTA_LIMIT
        &&& -SCROLL_LIMIT <= self.scroll <= SCROLL_LIMIT
        &&& SCALE <= self.width <= DELTA_LIMIT
        &&& SCALE <= self.height <= DELTA_LIMIT
        &&& 0 < self.fov <= FOV_LIMIT
        &&& 0 < self.aspect <= ASPECT_LIMIT
    }
}

/// Whether the camera's local up axis has a non-positive vertical
/// component, for a canonical pitch in `[0, TURN)`: the vertical component
/// is the cosine of the pitch (see `lemma_upside_down_is_cos_sign`), which
/// is non-positive exactly on the middle half of the turn.
pub open spec fn up_vertical_nonpositive(pitch: int) -> bool {
    QUARTER_TURN <= pitch <= 3 * (QUARTER_TURN as int)
}

/// The upside-down flag after a tick: recomputed from the pitch at an
/// orbit-button edge, untouched otherwise.
pub open spec fn upside_down_after(pre: CameraOrbitState, inp: OrbitInput) -> bool {
    if inp.orbit_edge {
        up_vertical_nonpositive(pre.pitch as int)
    } else {
        pre.upside_down
    }
}

/// The yaw delta of an orbit operation, in turn ticks: the horizontal
/// pointer delta as a fraction of the window width is a whole-turn angle;
/// it is applied in the direction that matches the drag, and reversed while
/// the camera is upside down.
pub open spec fn orbit_yaw_delta(inp: OrbitInput, ud: bool) -> int {
    let d = fx_div_spec(inp.dx as int, inp.width as int);
    if ud {
        d
    } else {
        -d
    }
}

/// The yaw after an orbit operation, normalized to `[0, TURN)`.
pub open spec fn orbit_yaw_after(pre: CameraOrbitState, inp: OrbitInput, ud: bool) -> int {
    (pre.yaw + orbit_yaw_delta(inp, ud)) % (TURN as int)
}

/// The pitch delta of an orbit operation, in turn ticks: the vertical
/// pointer delta as a fraction of the window height is a half-turn angle.
pub open spec fn orbit_pitch_delta(inp: OrbitInput) -> int {
    div_trunc(fx_div_spec(inp.dy as int, inp.height as int), 2)
}

/// The pitch after an orbit operation, normalized to `[0, TURN)`.
pub open spec fn orbit_pitch_after(pre: CameraOrbitState, inp: OrbitInput) -> int {
    (pre.pitch - orbit_pitch_delta(inp)) % (TURN as int)
}

/// The horizontal pan delta scaled by `fov * aspect / width`, making pan
/// speed independent of resolution and field of view.
pub open spec fn pan_dx_scaled(inp: OrbitInput) -> int {
    fx_mul_spec(
        fx_div_spec(inp.dx as int, inp.width as int),
        fx_mul_spec(inp.fov as int, inp.aspect as int),
    )
}

/// The vertical pan delta scaled by `fov / height`.
pub open spec fn pan_dy_scaled(inp: OrbitInput) -> int {
    fx_mul_spec(fx_div_spec(inp.dy as int, inp.height as int), inp.fov as int)
}

/// The `x` component of the camera's local right axis.
pub open spec fn right_x(pre: CameraOrbitState) -> int {
    cos_turns_spec(pre.yaw as int)
}

/// The `z` component of the camera's local right axis (its `y` component is
/// zero: yaw-then-pitch orientations keep the right axis horizontal).
pub open spec fn right_z(pre: CameraOrbitState) -> int {
    -sin_turns_spec(pre.yaw as int)
}

/// The `x` component of the camera's local up axis.
pub open spec fn up_x(pre: CameraOrbitState) -> int {
    fx_mul_spec(sin_turns_spec(pre.yaw as int), sin_turns_spec(pre.pitch as int))
}

/// The `y` (vertical) component of the camera's local up axis: the cosine
/// of the pitch.
pub open spec fn up_y(pre: CameraOrbitState) -> int {
    cos_turns_spec(pre.pitch as int)
}

/// The `z` component of the camera's local up axis.
pub open spec fn up_z(pre: CameraOrbitState) -> int {
    fx_mul_spec(cos_turns_spec(pre.yaw as int), sin_turns_spec(pre.pitch as int))
}

/// One focus translation term: a scaled pointer delta, projected on a local
/// axis component and scaled by the orbit radius, so that panning keeps
/// pace with the eye's distance.
pub open spec fn pan_shift(d_scaled: int, axis: int, radius: int) -> int {
    fx_mul_spec(fx_mul_spec(d_scaled, axis), radius)
}

/// The focus `x` after a pan, kept inside the fixed-point range.
pub open spec fn pan_focus_x(pre: CameraOrbitState, inp: OrbitInput) -> int {
    clamp_spec(
        pre.focus.x - pan_shift(pan_dx_scaled(inp), right_x(pre), pre.radius as int)
            + pan_shift(pan_dy_scaled(inp), up_x(pre), pre.radius as int),
        -FX_LIMIT as int,
        FX_LIMIT as int,
    )
}

/// The focus `y` after a pan: the right axis is horizontal, so only the up
/// axis contributes.
pub open spec fn pan_focus_y(pre: CameraOrbitState, inp: OrbitInput) -> int {
    clamp_spec(
        pre.focus.y + pan_shift(pan_dy_scaled(inp), up_y(pre), pre.radius as int),
        -FX_LIMIT as int,
        FX_LIMIT as int,
    )
}

/// The focus `z` after a pan, kept inside the fixed-point range.
pub open spec fn pan_focus_z(pre: CameraOrbitState, inp: OrbitInput) -> int {
    clamp_spec(
        pre.focus.z - pan_shift(pan_dx_scaled(inp), right_z(pre), pre.radius as int)
            + pan_shift(pan_dy_scaled(inp), up_z(pre), pre.radius as int),
        -FX_LIMIT as int,
        FX_LIMIT as int,
    )
}

/// The radius after a zoom: shrunk (or grown) by a fifth of itself per
/// scroll unit, then clamped between `RADIUS_FLOOR` and the fixed-point
/// range.
pub open spec fn zoom_radius_after(pre: CameraOrbitState, inp: OrbitInput) -> int {
    clamp_spec(
        pre.radius - div_trunc(fx_mul_spec(inp.scroll as int, pre.radius as int), 5),
        RADIUS_FLOOR as int,
        FX_LIMIT as int,
    )
}

/// The full functional specification of one orbit-controller tick: exactly
/// one of orbit, pan and zoom fires, chosen by button priority
/// orbit > pan > zoom, and the upside-down flag is recomputed only at an
/// orbit-button edge, from the pitch before the tick.
pub open spec fn orbit_step_ok(
    pre: CameraOrbitState,
    inp: OrbitInput,
    post: CameraOrbitState,
) -> bool {
    let ud = upside_down_after(pre, inp);
    &&& post.upside_down == ud
    &&& if inp.orbit_held {
        &&& post.yaw as int == orbit_yaw_after(pre, inp, ud)
        &&& post.pitch as int == orbit_pitch_after(pre, inp)
        &&& post.focus == pre.focus
        &&& post.radius == pre.radius
    } else if inp.pan_held {
        &&& post.yaw == pre.yaw
        &&& post.pitch == pre.pitch
        &&& post.focus.x as int == pan_focus_x(pre, inp)
        &&& post.focus.y as int == pan_focus_y(pre, inp)
        &&& post.focus.z as int == pan_focus_z(pre, inp)
        &&& post.radius == pre.radius
    } else if inp.scroll != 0 {
        &&& post.yaw == pre.yaw
        &&& post.pitch == pre.pitch
        &&& post.focus == pre.focus
        &&& post.radius as int == zoom_radius_after(pre, inp)
    } else {
        &&& post.yaw == pre.yaw
        &&& post.pitch == pre.pitch
        &&& post.focus == pre.focus
        &&& post.radius == pre.radius
    }
}

impl CameraOrbitState {
    /// The state's invariant: the radius sits between its floor and the
    /// fixed-point range, the focus inside the range, and both angles are
    /// canonical.
    pub open spec fn wf(self) -> bool {
        &&& RADIUS_FLOOR <= self.radius <= FX_LIMIT
        &&& -FX_LIMIT <= self.focus.x <= FX_LIMIT
        &&& -FX_LIMIT <= self.focus.y <= FX_LIMIT
        &&& -FX_LIMIT <= self.focus.z <= FX_LIMIT
        &&& 0 <= self.yaw < TURN
        &&& 0 <= self.pitch < TURN
    }

    /// A fresh orbit state: the given focus and radius, identity
    /// orientation, right side up.  The radius is clamped to its floor, as
    /// every later zoom keeps it.
    pub fn new(focus: FxVec3, radius: i64) -> (s: CameraOrbitState)
        requires
            -FX_LIMIT <= focus.x <= FX_LIMIT,
            -FX_LIMIT <= focus.y <= FX_LIMIT,
            -FX_LIMIT <= focus.z <= FX_LIMIT,
            radius <= FX_LIMIT,
        ensures
            s.focus == focus,
            s.radius == clamp_spec(radius as int, RADIUS_FLOOR as int, FX_LIMIT as int),
            s.yaw == 0,
            s.pitch == 0,
            s.upside_down == false,
            s.wf(),
    {
        CameraOrbitState {
            focus,
            radius: fx_clamp(radius, RADIUS_FLOOR, FX_LIMIT),
            yaw: 0,
            pitch: 0,
            upside_down: false,
        }
    }

    /// Advance the camera by one tick of accumulated input.  The new state
    /// is pinned down by `orbit_step_ok`; in particular the radius never
    /// leaves `[RADIUS_FLOOR, FX_LIMIT]`.
    pub fn tick(&mut self, inp: &OrbitInput)
        requires
            old(self).wf(),
            inp.wf(),
        ensures
            orbit_step_ok(*old(self), *inp, *final(self)),
            final(self).wf(),
            final(self).radius >= RADIUS_FLOOR,
    {
        if inp.orbit_edge {
            self.upside_down = QUARTER_TURN <= self.pitch && self.pitch <= 3 * QUARTER_TURN;
        }
        if inp.orbit_held {
            let d = fx_div(inp.dx, inp.width);
            let applied = if self.upside_down {
                d
            } else {
                -d
            };
            self.yaw = norm_turn(self.yaw + applied);
            let dp = i64_div_trunc(fx_div(inp.dy, inp.height), 2);
            self.pitch = norm_turn(self.pitch - dp);
        } else if inp.pan_held {
            let sy = sin_turns(self.yaw);
            let cy = cos_turns(self.yaw);
            let sp = sin_turns(self.pitch);
            let cp = cos_turns(self.pitch);
            let d1 = fx_div(inp.dx, inp.width);
            let m1 = fx_mul(inp.fov, inp.aspect);
            proof {
                lemma_fx_mul_spec_bound(
                    inp.fov as int,
                    inp.aspect as int,
                    FOV_LIMIT as int,
                    ASPECT_LIMIT as int,
                );
            }
            let dxs = fx_mul(d1, m1);
            proof {
                lemma_fx_mul_spec_bound(
                    d1 as int,
                    m1 as int,
                    DELTA_LIMIT as int,
                    40_000_000,
                );
            }
            let d2 = fx_div(inp.dy, inp.height);
            let dys = fx_mul(d2, inp.fov);
            proof {
                lemma_fx_mul_spec_bound(d2 as int, inp.fov as int, DELTA_LIMIT as int, FOV_LIMIT as int);
            }
            let ux = fx_mul(sy, sp);
            let uz = fx_mul(cy, sp);
            proof {
                lemma_fx_mul_spec_bound(sy as int, sp as int, SCALE as int, SCALE as int);
                lemma_fx_mul_spec_bound(cy as int, sp as int, SCALE as int, SCALE as int);
                lemma_fx_mul_spec_bound(dxs as int, cy as int, 400_000_000_000, SCALE as int);
                lemma_fx_mul_spec_bound(dxs as int, -(sy as int), 400_000_000_000, SCALE as int);
                lemma_fx_mul_spec_bound(dys as int, ux as int, 40_000_000_000, SCALE as int);
                lemma_fx_mul_spec_bound(dys as int, cp as int, 40_000_000_000, SCALE as int);
                lemma_fx_mul_spec_bound(dys as int, uz as int, 40_000_000_000, SCALE as int);
            }
            let tx = fx_mul(fx_mul(dxs, cy), self.radius);
            let tz = fx_mul(fx_mul(dxs, -sy), self.radius);
            let px = fx_mul(fx_mul(dys, ux), self.radius);
            let py = fx_mul(fx_mul(dys, cp), self.radius);
            let pz = fx_mul(fx_mul(dys, uz), self.radius);
            self.focus.x = fx_clamp(self.focus.x - tx + px, -FX_LIMIT, FX_LIMIT);
            self.focus.y = fx_clamp(self.focus.y + py, -FX_LIMIT, FX_LIMIT);
            self.focus.z = fx_clamp(self.focus.z - tz + pz, -FX_LIMIT, FX_LIMIT);
        } else if inp.scroll != 0 {
            let d = i64_div_trunc(fx_mul(inp.scroll, self.radius), 5);
            self.radius = fx_clamp(self.radius - d, RADIUS_FLOOR, FX_LIMIT);
        }
    }

    /// The derived world transform: the eye sits `radius` behind the focus
    /// along the orientation's local forward axis, and the orientation is
    /// the yaw-then-pitch rotation as a quaternion.
    pub fn world_transform(&self) -> (r: (FxVec3, FxQuat))
        requires
            self.wf(),
        ensures
            r.0.x as int == eye_x(*self),
            r.0.y as int == eye_y(*self),
            r.0.z as int == eye_z(*self),
            r.1.x as int == orientation_x(*self),
            r.1.y as int == orientation_y(*self),
            r.1.z as int == orientation_z(*self),
            r.1.w as int == orientation_w(*self),
    {
        let sy = sin_turns(self.yaw);
        let cy = cos_turns(self.yaw);
        let sp = sin_turns(self.pitch);
        let cp = cos_turns(self.pitch);
        let rc = fx_mul(self.radius, cp);
        proof {
            lemma_fx_mul_spec_bound(self.radius as int, cp as int, FX_LIMIT as int, SCALE as int);
            lemma_fx_mul_spec_bound(self.radius as int, sp as int, FX_LIMIT as int, SCALE as int);
        }
        let eye = FxVec3 {
            x: self.focus.x + fx_mul(rc, sy),
            y: self.focus.y - fx_mul(self.radius, sp),
            z: self.focus.z + fx_mul(rc, cy),
        };
        let hy = i64_div_trunc(self.yaw, 2);
        let hp = i64_div_trunc(self.pitch, 2);
        let shy = sin_turns(hy);
        let chy = cos_turns(hy);
        let shp = sin_turns(hp);
        let chp = cos_turns(hp);
        let ori = FxQuat {
            x: fx_mul(chy, shp),
            y: fx_mul(shy, chp),
            z: -fx_mul(shy, shp),
            w: fx_mul(chy, chp),
        };
        (eye, ori)
    }
}

/// The eye's world `x`: the focus plus the radius rotated to the local
/// forward direction.
pub open spec fn eye_x(s: CameraOrbitState) -> int {
    s.focus.x + fx_mul_spec(
        fx_mul_spec(s.radius as int, cos_turns_spec(s.pitch as int)),
        sin_turns_spec(s.yaw as int),
    )
}

/// The eye's world `y`.
pub open spec fn eye_y(s: CameraOrbitState) -> int {
    s.focus.y - fx_mul_spec(s.radius as int, sin_turns_spec(s.pitch as int))
}

/// The eye's world `z`.
pub open spec fn eye_z(s: CameraOrbitState) -> int {
    s.focus.z + fx_mul_spec(
        fx_mul_spec(s.radius as int, cos_turns_spec(s.pitch as int)),
        cos_turns_spec(s.yaw as int),
    )
}

/// The `x` component of the yaw-then-pitch orientation quaternion, from the
/// half-angle sines and cosines.
pub open spec fn orientation_x(s: CameraOrbitState) -> int {
    fx_mul_spec(
        cos_turns_spec(div_trunc(s.yaw as int, 2)),
        sin_turns_spec(div_trunc(s.pitch as int, 2)),
    )
}

/// The `y` component of the orientation quaternion.
pub open spec fn orientation_y(s: CameraOrbitState) -> int {
    fx_mul_spec(
        sin_turns_spec(div_trunc(s.yaw as int, 2)),
        cos_turns_spec(div_trunc(s.pitch as int, 2)),
    )
}

/// The `z` component of the orientation quaternion.
pub open spec fn orientation_z(s: CameraOrbitState) -> int {
    -fx_mul_spec(
        sin_turns_spec(div_trunc(s.yaw as int, 2)),
        sin_turns_spec(div_trunc(s.pitch as int, 2)),
    )
}

/// The `w` component of the orientation quaternion.
pub open spec fn orientation_w(s: CameraOrbitState) -> int {
    fx_mul_spec(
        cos_turns_spec(div_trunc(s.yaw as int, 2)),
        cos_turns_spec(div_trunc(s.pitch as int, 2)),
    )
}

/// One orbit step keeps the state's invariant: in particular, any zoom
/// leaves the radius at or above its floor.
pub proof fn lemma_orbit_step_preserves_wf(
    pre: CameraOrbitState,
    inp: OrbitInput,
    post: CameraOrbitState,
)
    requires
        pre.wf(),
        inp.wf(),
        orbit_step_ok(pre, inp, post),
    ensures
        post.wf(),
{
    lemma_mod_bound(pre.yaw + orbit_yaw_delta(inp, upside_down_after(pre, inp)), TURN as int);
    lemma_mod_bound(pre.pitch - orbit_pitch_delta(inp), TURN as int);
}

/// The radius floor holds along any run of the controller: given a trace of
/// states linked tick by tick, every state keeps the invariant and its
/// radius never goes at or below the floor.
pub proof fn lemma_orbit_trace_stays_above_floor(
    states: Seq<CameraOrbitState>,
    inputs: Seq<OrbitInput>,
)
    requires
        states.len() == inputs.len() + 1,
        states[0].wf(),
        forall|i: int| 0 <= i < inputs.len() ==> (#[trigger] inputs[i]).wf(),
        forall|i: int|
            0 <= i < inputs.len() ==> orbit_step_ok(states[i], #[trigger] inputs[i], states[i + 1]),
    ensures
        forall|i: int| 0 <= i < states.len() ==> (#[trigger] states[i]).wf(),
        forall|i: int| 0 <= i < states.len() ==> (#[trigger] states[i]).radius >= RADIUS_FLOOR,
    decreases inputs.len(),
{
    if inputs.len() == 0 {
    } else {
        lemma_orbit_step_preserves_wf(states[0], inputs[0], states[1]);
        let states2 = states.subrange(1, states.len() as int);
        let inputs2 = inputs.subrange(1, inputs.len() as int);
        assert forall|i: int|
            0 <= i < inputs2.len() implies orbit_step_ok(
            states2[i],
            #[trigger] inputs2[i],
            states2[i + 1],
        ) by {
            assert(inputs2[i] == inputs[i + 1]);
            assert(states2[i] == states[i + 1]);
            assert(states2[i + 1] == states[i + 2]);
        }
        lemma_orbit_trace_stays_above_floor(states2, inputs2);
        assert forall|i: int| 0 <= i < states.len() implies (#[trigger] states[i]).wf() by {
            if i >= 1 {
                assert(states2[i - 1] == states[i]);
            }
        }
    }
}

/// The upside-down flag moves only at an orbit-button edge, and then holds
/// exactly when the local up axis's vertical component is non-positive —
/// evaluated at the pitch the camera had when the edge arrived.
pub proof fn lemma_upside_down_edges_only(
    pre: CameraOrbitState,
    inp: OrbitInput,
    post: CameraOrbitState,
)
    requires
        orbit_step_ok(pre, inp, post),
    ensures
        !inp.orbit_edge ==> post.upside_down == pre.upside_down,
        inp.orbit_edge ==> (post.upside_down <==> up_vertical_nonpositive(pre.pitch as int)),
{
}

/// While a drag goes on with no orbit-button edge, the upside-down flag is
/// constant along the whole trace.
pub proof fn lemma_upside_down_constant_while_dragging(
    states: Seq<CameraOrbitState>,
    inputs: Seq<OrbitInput>,
)
    requires
        states.len() == inputs.len() + 1,
        forall|i: int| 0 <= i < inputs.len() ==> !(#[trigger] inputs[i]).orbit_edge,
        forall|i: int|
            0 <= i < inputs.len() ==> orbit_step_ok(states[i], #[trigger] inputs[i], states[i + 1]),
    ensures
        forall|i: int|
            0 <= i < states.len() ==> (#[trigger] states[i]).upside_down
                == states[0].upside_down,
    decreases inputs.len(),
{
    if inputs.len() == 0 {
    } else {
        let states2 = states.subrange(1, states.len() as int);
        let inputs2 = inputs.subrange(1, inputs.len() as int);
        assert forall|i: int|
            0 <= i < inputs2.len() implies orbit_step_ok(
            states2[i],
            #[trigger] inputs2[i],
            states2[i + 1],
        ) && !inputs2[i].orbit_edge by {
            assert(inputs2[i] == inputs[i + 1]);
            assert(states2[i] == states[i + 1]);
            assert(states2[i + 1] == states[i + 2]);
        }
        lemma_upside_down_constant_while_dragging(states2, inputs2);
        assert(orbit_step_ok(states[0], inputs[0], states[1]));
        assert(states[1].upside_down == states[0].upside_down);
        assert forall|i: int|
            0 <= i < states.len() implies (#[trigger] states[i]).upside_down
            == states[0].upside_down by {
            if i >= 1 {
                assert(states2[i - 1] == states[i]);
                assert(states2[0] == states[1]);
            }
        }
    }
}

/// The range test behind the upside-down flag is exactly the sign of the
/// up axis's vertical component: for a canonical pitch, the fixed-point
/// cosine of the pitch is non-positive if and only if the pitch lies in the
/// middle half of the turn.
pub proof fn lemma_upside_down_is_cos_sign(pitch: int)
    requires
        0 <= pitch < TURN,
    ensures
        up_vertical_nonpositive(pitch) <==> cos_turns_spec(pitch) <= 0,
{
    let t = TURN as int;
    let h = crate::fx::HALF_TURN as int;
    let q = QUARTER_TURN as int;
    let m = (pitch + q) % t;
    if pitch < 3 * q {
        vstd::arithmetic::div_mod::lemma_fundamental_div_mod_converse(pitch + q, t, 0, pitch + q);
    } else {
        vstd::arithmetic::div_mod::lemma_fundamental_div_mod_converse(
            pitch + q,
            t,
            1,
            pitch + q - t,
        );
    }
    lemma_parabola_sign(m);
    assert(cos_turns_spec(pitch) == sin_turns_spec(pitch + q));
}

/// Sign of the sine parabola over one canonical turn: zero at 0 and at the
/// half turn, strictly positive strictly inside the first half, strictly
/// negative strictly inside the second half.
proof fn lemma_parabola_sign(m: int)
    requires
        0 <= m < TURN,
    ensures
        m == 0 || m == crate::fx::HALF_TURN ==> sin_turns_spec(m) == 0,
        0 < m < crate::fx::HALF_TURN ==> sin_turns_spec(m) > 0,
        crate::fx::HALF_TURN < m ==> sin_turns_spec(m) < 0,
{
    let t = TURN as int;
    let h = crate::fx::HALF_TURN as int;
    let s = SCALE as int;
    vstd::arithmetic::div_mod::lemma_small_mod(m as nat, t as nat);
    if m == 0 {
        assert(16 * m * (h - m) == 0);
        assert(sin_turns_spec(m) == 0);
    } else if m == h {
        assert(16 * m * (h - m) == 0) by (nonlinear_arith)
            requires
                m == h,
        ;
        assert(sin_turns_spec(m) == 0);
    }
    if 0 < m < h {
        assert(s <= 16 * m * (h - m)) by (nonlinear_arith)
            requires
                1 <= m <= h - 1,
                h == 500_000,
                s == 1_000_000,
        ;
        vstd::arithmetic::div_mod::lemma_div_is_ordered(s, 16 * m * (h - m), s);
    } else if h < m {
        assert(s <= 16 * (m - h) * (t - m)) by (nonlinear_arith)
            requires
                h + 1 <= m <= t - 1,
                h == 500_000,
                t == 1_000_000,
                s == 1_000_000,
        ;
        vstd::arithmetic::div_mod::lemma_div_is_ordered(s, 16 * (m - h) * (t - m), s);
    }
}

} // verus!
