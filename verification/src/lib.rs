//! Fixed-point core of a small interactive 3-D viewer: a procedural torus
//! tessellator that turns a descriptor into a triangle mesh with exact
//! grid, winding and count guarantees, and two camera controllers — an
//! orbit-around-focus model and a two-stage boom/gimbal rig — that map
//! per-tick pointer, scroll and key input into a smoothly updated
//! viewpoint.  All scalars are fixed-point ticks (see `fx::SCALE`); the
//! engine boundary converts at the edge.

pub mod fx;
pub mod linear;
pub mod orbit;
pub mod rig;
pub mod torus;
