//! Orbit camera state.
//!
//! The camera is parameterized by a look-at target, a distance from it
//! and yaw/pitch angles; the Cartesian eye position is a pure function
//! of those four values (spherical-to-Cartesian around the target) and
//! is derived by the rendering shell rather than stored, so it can
//! never go stale after a partial update. Angles and distances are
//! carried in thousandths (milliradians, milli-units); pitch is clamped
//! to avoid the axis-aligned degeneracy and yaw is kept as the
//! principal angle in `[0, TAU_MILLI)`.

use vstd::prelude::*;
use crate::fixed::{clamp_spec, clamp_i64, mod_euclid_i64, sqrt_floor, div_trunc_spec,
    div_trunc_i128, lemma_div_trunc_bound};
use crate::vec3::{Vec3Fixed, vec3i, sub_spec, norm_sq_spec, vec_sub, vec_len, MAX_COORD};

verus! {

/// Pitch never leaves `[-1.5 rad, 1.5 rad]`.
pub const PITCH_LIMIT: i64 = 1500;

/// Zoom distance is clamped to `[0.1, 100.0]` world units.
pub const MIN_DISTANCE: i64 = 100;

/// Upper end of the zoom clamp.
pub const MAX_DISTANCE: i64 = 100_000;

/// Distance the camera starts at.
pub const DEFAULT_DISTANCE: i64 = 5_000;

/// Vertical field of view: 45 degrees, in milliradians.
pub const FOV_MILLI: i64 = 785;

/// Near clip plane, 0.1 world units.
pub const NEAR_PLANE: i64 = 100;

/// Far clip plane, 1000 world units.
pub const FAR_PLANE: i64 = 1_000_000;

/// One full turn in milliradians.
pub const TAU_MILLI: i64 = 6_283;

/// Milliradians of yaw or pitch per pixel of pointer travel (0.01 rad).
pub const ORBIT_SENSITIVITY: i64 = 10;

/// Milli-units of distance per discrete scroll line (0.5 units).
pub const ZOOM_LINE_SENSITIVITY: i64 = 500;

/// Milli-units of distance per pixel of continuous scroll (0.01 units).
pub const ZOOM_PIXEL_SENSITIVITY: i64 = 10;

/// Bound on pointer coordinates the camera accepts, far beyond any
/// physical screen, so that pointer deltas cannot overflow.
pub const MAX_POINTER_COORD: i64 = 1_000_000_000;

/// Bound on a single scroll step, so that scaling it cannot overflow.
pub const MAX_SCROLL_STEP: i64 = 1_000_000_000_000;

/// Bound the camera keeps on its own distance field; zooming clamps far
/// below it and auto-fit of bounded geometry stays far below it too.
pub const MAX_RAW_DISTANCE: i64 = 1_000_000_000;

/// A scroll step, either in discrete lines or in continuous pixels.
#[derive(Clone, Copy, Debug, PartialEq, Eq, Structural)]
pub enum ScrollAmount {
    Lines(i64),
    Pixels(i64),
}

/// A window event the camera reacts to.
#[derive(Clone, Copy, Debug, PartialEq, Eq, Structural)]
pub enum CameraInput {
    /// The orbit pointer button went down or up.
    OrbitButton { pressed: bool },
    /// The pointer moved to this position (in pixels).
    PointerMoved { x: i64, y: i64 },
    /// The scroll wheel moved.
    Scroll { amount: ScrollAmount },
    /// The viewport took a new size.
    ViewportResized { width: u32, height: u32 },
}

/// Orbit camera: look-at target, orbit parameters, projection
/// parameters and transient pointer-drag state.
#[derive(Clone, Debug, PartialEq)]
pub struct Camera {
    pub target: Vec3Fixed,
    pub distance: i64,
    pub yaw: i64,
    pub pitch: i64,
    pub viewport_width: u32,
    pub viewport_height: u32,
    pub fov: i64,
    pub near: i64,
    pub far: i64,
    pub is_orbiting: bool,
    pub last_pointer: Option<(i64, i64)>,
}

pub open spec fn pitch_in_range(c: Camera) -> bool {
    -PITCH_LIMIT <= c.pitch <= PITCH_LIMIT
}

pub open spec fn distance_in_range(c: Camera) -> bool {
    MIN_DISTANCE <= c.distance <= MAX_DISTANCE
}

/// Internal camera invariant: angles in their principal ranges and all
/// stored magnitudes small enough that one more event cannot overflow.
pub open spec fn camera_wf(c: Camera) -> bool {
    &&& pitch_in_range(c)
    &&& 0 <= c.yaw < TAU_MILLI
    &&& 0 <= c.distance <= MAX_RAW_DISTANCE
    &&& -MAX_COORD <= c.target.x <= MAX_COORD
    &&& -MAX_COORD <= c.target.y <= MAX_COORD
    &&& -MAX_COORD <= c.target.z <= MAX_COORD
    &&& match c.last_pointer {
        Some(p) => -MAX_POINTER_COORD <= p.0 <= MAX_POINTER_COORD
            && -MAX_POINTER_COORD <= p.1 <= MAX_POINTER_COORD,
        None => true,
    }
}

/// An event whose payload the camera's arithmetic accepts.
pub open spec fn input_in_bounds(e: CameraInput) -> bool {
    match e {
        CameraInput::PointerMoved { x, y } =>
            -MAX_POINTER_COORD <= x <= MAX_POINTER_COORD
                && -MAX_POINTER_COORD <= y <= MAX_POINTER_COORD,
        CameraInput::Scroll { amount } => match amount {
            ScrollAmount::Lines(n) => -MAX_SCROLL_STEP <= n <= MAX_SCROLL_STEP,
            ScrollAmount::Pixels(p) => -MAX_SCROLL_STEP <= p <= MAX_SCROLL_STEP,
        },
        _ => true,
    }
}

/// One orbit step: yaw advances (mod a full turn) and pitch is clamped.
pub open spec fn orbit_step(c: Camera, dx: int, dy: int) -> Camera {
    Camera {
        yaw: ((c.yaw + dx * ORBIT_SENSITIVITY) % (TAU_MILLI as int)) as i64,
        pitch: clamp_spec(
            c.pitch + dy * ORBIT_SENSITIVITY,
            -PITCH_LIMIT as int,
            PITCH_LIMIT as int,
        ) as i64,
        ..c
    }
}

/// One zoom step: the distance moves against the scroll direction and
/// is clamped into `[MIN_DISTANCE, MAX_DISTANCE]`.
pub open spec fn zoom_step(c: Camera, amount_milli: int) -> Camera {
    Camera {
        distance: clamp_spec(
            c.distance - amount_milli,
            MIN_DISTANCE as int,
            MAX_DISTANCE as int,
        ) as i64,
        ..c
    }
}

/// Milli-units of zoom carried by one scroll step.
pub open spec fn scroll_milli(a: ScrollAmount) -> int {
    match a {
        ScrollAmount::Lines(n) => n * ZOOM_LINE_SENSITIVITY,
        ScrollAmount::Pixels(p) => p * ZOOM_PIXEL_SENSITIVITY,
    }
}

/// The camera after one window event: presses arm the drag, releases
/// disarm it and forget the anchor, pointer motion orbits by the delta
/// since the last recorded position (so multi-step drags accumulate),
/// scrolling zooms, and a viewport change updates the aspect source —
/// unless the new size has zero area (a minimized window), which
/// changes nothing at all.
pub open spec fn step_input(c: Camera, e: CameraInput) -> Camera {
    match e {
        CameraInput::OrbitButton { pressed } => if pressed {
            Camera { is_orbiting: true, ..c }
        } else {
            Camera { is_orbiting: false, last_pointer: None, ..c }
        },
        CameraInput::PointerMoved { x, y } => if c.is_orbiting {
            match c.last_pointer {
                Some(lp) => Camera {
                    last_pointer: Some((x, y)),
                    ..orbit_step(c, x - lp.0, y - lp.1)
                },
                None => Camera { last_pointer: Some((x, y)), ..c },
            }
        } else {
            c
        },
        CameraInput::Scroll { amount } => zoom_step(c, scroll_milli(amount)),
        CameraInput::ViewportResized { width, height } => if width == 0 || height == 0 {
            c
        } else {
            Camera { viewport_width: width, viewport_height: height, ..c }
        },
    }
}

/// The camera after auto-fit: the target moves to the box center
/// (componentwise midpoint, rounded toward zero) and the distance
/// becomes twice the box diagonal; nothing else changes, and in
/// particular the distance is deliberately not clamped here.
pub open spec fn auto_fit_spec(c: Camera, bounds_min: Vec3Fixed, bounds_max: Vec3Fixed) -> Camera {
    Camera {
        target: Vec3Fixed {
            x: div_trunc_spec(bounds_min.x + bounds_max.x, 2) as i64,
            y: div_trunc_spec(bounds_min.y + bounds_max.y, 2) as i64,
            z: div_trunc_spec(bounds_min.z + bounds_max.z, 2) as i64,
        },
        distance: (2 * sqrt_floor(
            norm_sq_spec(sub_spec(vec3i(bounds_max), vec3i(bounds_min))),
        )) as i64,
        ..c
    }
}

/// The camera the viewer starts with: five units back from the
/// origin, straight on.
pub open spec fn initial_camera(viewport_width: u32, viewport_height: u32) -> Camera {
    Camera {
        target: Vec3Fixed { x: 0, y: 0, z: 0 },
        distance: DEFAULT_DISTANCE,
        yaw: 0,
        pitch: 0,
        viewport_width,
        viewport_height,
        fov: FOV_MILLI,
        near: NEAR_PLANE,
        far: FAR_PLANE,
        is_orbiting: false,
        last_pointer: None,
    }
}

impl Camera {
    /// A camera five units back from the origin, straight on.
    pub fn new(viewport_width: u32, viewport_height: u32) -> (c: Camera)
        ensures
            c == initial_camera(viewport_width, viewport_height),
            camera_wf(c),
    {
        Camera {
            target: Vec3Fixed { x: 0, y: 0, z: 0 },
            distance: DEFAULT_DISTANCE,
            yaw: 0,
            pitch: 0,
            viewport_width,
            viewport_height,
            fov: FOV_MILLI,
            near: NEAR_PLANE,
            far: FAR_PLANE,
            is_orbiting: false,
            last_pointer: None,
        }
    }

    /// Turn the orbit by a pointer delta: yaw wraps, pitch clamps.
    pub fn apply_orbit_delta(&mut self, dx: i64, dy: i64)
        requires
            camera_wf(*old(self)),
            -2 * MAX_POINTER_COORD <= dx <= 2 * MAX_POINTER_COORD,
            -2 * MAX_POINTER_COORD <= dy <= 2 * MAX_POINTER_COORD,
        ensures
            *final(self) == orbit_step(*old(self), dx as int, dy as int),
            camera_wf(*final(self)),
            pitch_in_range(*final(self)),
    {
        let yaw_raw = self.yaw + dx * ORBIT_SENSITIVITY;
        self.yaw = mod_euclid_i64(yaw_raw, TAU_MILLI);
        let pitch_raw = self.pitch + dy * ORBIT_SENSITIVITY;
        self.pitch = clamp_i64(pitch_raw, -PITCH_LIMIT, PITCH_LIMIT);
    }

    /// Zoom by a milli-unit amount; the new distance is always inside
    /// `[MIN_DISTANCE, MAX_DISTANCE]`, however large the step and
    /// whatever the distance was before.
    pub fn apply_zoom_delta(&mut self, amount_milli: i64)
        requires
            camera_wf(*old(self)),
            -600 * MAX_SCROLL_STEP <= amount_milli <= 600 * MAX_SCROLL_STEP,
        ensures
            *final(self) == zoom_step(*old(self), amount_milli as int),
            camera_wf(*final(self)),
            distance_in_range(*final(self)),
    {
        let moved = self.distance - amount_milli;
        self.distance = clamp_i64(moved, MIN_DISTANCE, MAX_DISTANCE);
    }

    /// Feed one window event through the orbit state machine.
    pub fn handle_input(&mut self, e: &CameraInput)
        requires
            camera_wf(*old(self)),
            input_in_bounds(*e),
        ensures
            *final(self) == step_input(*old(self), *e),
            camera_wf(*final(self)),
    {
        match e {
            CameraInput::OrbitButton { pressed } => {
                if *pressed {
                    self.is_orbiting = true;
                } else {
                    self.is_orbiting = false;
                    self.last_pointer = None;
                }
            },
            CameraInput::PointerMoved { x, y } => {
                if self.is_orbiting {
                    match self.last_pointer {
                        Some(lp) => {
                            self.apply_orbit_delta(*x - lp.0, *y - lp.1);
                            self.last_pointer = Some((*x, *y));
                        },
                        None => {
                            self.last_pointer = Some((*x, *y));
                        },
                    }
                }
            },
            CameraInput::Scroll { amount } => {
                match amount {
                    ScrollAmount::Lines(n) => {
                        self.apply_zoom_delta(*n * ZOOM_LINE_SENSITIVITY);
                    },
                    ScrollAmount::Pixels(p) => {
                        self.apply_zoom_delta(*p * ZOOM_PIXEL_SENSITIVITY);
                    },
                }
            },
            CameraInput::ViewportResized { width, height } => {
                if *width > 0 && *height > 0 {
                    self.viewport_width = *width;
                    self.viewport_height = *height;
                }
            },
        }
    }

    /// Frame a model: aim at the center of its bounding box from twice
    /// the diagonal. A degenerate box gives distance zero, healed only
    /// by the next zoom event's clamp.
    pub fn auto_fit_to_model(&mut self, bounds_min: Vec3Fixed, bounds_max: Vec3Fixed)
        requires
            camera_wf(*old(self)),
            -MAX_COORD <= bounds_min.x <= MAX_COORD,
            -MAX_COORD <= bounds_min.y <= MAX_COORD,
            -MAX_COORD <= bounds_min.z <= MAX_COORD,
            -MAX_COORD <= bounds_max.x <= MAX_COORD,
            -MAX_COORD <= bounds_max.y <= MAX_COORD,
            -MAX_COORD <= bounds_max.z <= MAX_COORD,
        ensures
            *final(self) == auto_fit_spec(*old(self), bounds_min, bounds_max),
            camera_wf(*final(self)),
    {
        proof {
            lemma_div_trunc_bound(
                bounds_min.x as int + bounds_max.x as int, 2, MAX_COORD as int);
            lemma_div_trunc_bound(
                bounds_min.y as int + bounds_max.y as int, 2, MAX_COORD as int);
            lemma_div_trunc_bound(
                bounds_min.z as int + bounds_max.z as int, 2, MAX_COORD as int);
        }
        let cx = div_trunc_i128((bounds_min.x + bounds_max.x) as i128, 2) as i64;
        let cy = div_trunc_i128((bounds_min.y + bounds_max.y) as i128, 2) as i64;
        let cz = div_trunc_i128((bounds_min.z + bounds_max.z) as i128, 2) as i64;
        let diagonal = vec_sub(&bounds_max, &bounds_min);
        let size = vec_len(&diagonal);
        proof {
            let d = vec3i(diagonal);
            let n = norm_sq_spec(d);
            crate::vec3::lemma_mul_bound(d.x, d.x, 200_000_000, 200_000_000);
            crate::vec3::lemma_mul_bound(d.y, d.y, 200_000_000, 200_000_000);
            crate::vec3::lemma_mul_bound(d.z, d.z, 200_000_000, 200_000_000);
            assert(d.x * d.x >= 0 && d.y * d.y >= 0 && d.z * d.z >= 0) by (nonlinear_arith);
            crate::fixed::lemma_sqrt_floor_bounds(n);
            assert(size as int * size as int <= n);
            assert(size as int <= 400_000_000) by (nonlinear_arith)
                requires
                    size as int * size as int <= n,
                    n <= 120_000_000_000_000_000,
                    size >= 0,
            ;
        }
        self.target = Vec3Fixed { x: cx, y: cy, z: cz };
        self.distance = 2 * (size as i64);
    }
}

/// Truncating division by two misses the exact midpoint by at most a
/// half: `a - 1 <= 2 * (a / 2) <= a + 1`.
pub proof fn lemma_div_trunc_by2(a: int)
    ensures
        a - 1 <= 2 * div_trunc_spec(a, 2) <= a + 1,
{
    if a >= 0 {
        vstd::arithmetic::div_mod::lemma_fundamental_div_mod(a, 2);
        vstd::arithmetic::div_mod::lemma_mod_bound(a, 2);
    } else {
        vstd::arithmetic::div_mod::lemma_fundamental_div_mod(-a, 2);
        vstd::arithmetic::div_mod::lemma_mod_bound(-a, 2);
    }
}

/// The camera frames a point when the ball around its target that
/// reaches the point fits inside the viewing frustum whatever the yaw
/// and pitch: the offset `r` from the target satisfies
/// `||r|| <= 0.382 * distance` (0.382 is below the sine of the 22.5
/// degree vertical half-angle of the 45 degree field of view, and of
/// the horizontal half-angle whenever the viewport is at least as wide
/// as it is tall), the near plane stays in front of the ball and the
/// far plane behind it. Everything is stated over squared lengths to
/// stay in integers.
pub open spec fn frames_point(c: Camera, p: Vec3Fixed) -> bool {
    let r2 = crate::vec3::dist_sq_spec(p, c.target);
    let d = c.distance as int;
    &&& r2 * 1_000_000 <= (d * d) * 145_924
    &&& c.near <= d <= c.far
    &&& r2 <= (d - c.near) * (d - c.near)
    &&& r2 <= (c.far - d) * (c.far - d)
}

/// A ball of squared radius `r2` with `2 * ||r|| <= s + 4` fits the
/// frustum of a camera at distance `2 * s` with the default clip
/// planes, for any diagonal `s` in the supported window.
proof fn lemma_frames_from_radius(r2: int, s: int)
    by (nonlinear_arith)
    requires
        0 <= r2,
        4 * r2 <= (s + 4) * (s + 4),
        100 <= s <= 399_000,
    ensures
        r2 * 1_000_000 <= ((2 * s) * (2 * s)) * 145_924,
        r2 <= (2 * s - 100) * (2 * s - 100),
        r2 <= (1_000_000 - 2 * s) * (1_000_000 - 2 * s),
{
}

/// Auto-fit frames the model: after `auto_fit_to_model(bmin, bmax)`
/// both corners of the bounding box (and with them the whole box) lie
/// inside the viewing frustum, for every box whose diagonal is long
/// enough to stay in front of the near plane and short enough that the
/// camera is not pushed past the far plane.
pub proof fn lemma_auto_fit_frames_box(c: Camera, bmin: Vec3Fixed, bmax: Vec3Fixed)
    requires
        c.near == NEAR_PLANE,
        c.far == FAR_PLANE,
        bmin.x <= bmax.x,
        bmin.y <= bmax.y,
        bmin.z <= bmax.z,
        -MAX_COORD <= bmin.x && bmax.x <= MAX_COORD,
        -MAX_COORD <= bmin.y && bmax.y <= MAX_COORD,
        -MAX_COORD <= bmin.z && bmax.z <= MAX_COORD,
        100 <= sqrt_floor(norm_sq_spec(sub_spec(vec3i(bmax), vec3i(bmin)))) <= 399_000,
    ensures
        frames_point(auto_fit_spec(c, bmin, bmax), bmin),
        frames_point(auto_fit_spec(c, bmin, bmax), bmax),
{
    let dv = sub_spec(vec3i(bmax), vec3i(bmin));
    let n = norm_sq_spec(dv);
    let s = sqrt_floor(n);
    assert(dv.x * dv.x >= 0 && dv.y * dv.y >= 0 && dv.z * dv.z >= 0) by (nonlinear_arith);
    crate::fixed::lemma_sqrt_floor_bounds(n);
    crate::vec3::lemma_component_le_norm(dv.x, dv.y * dv.y + dv.z * dv.z, s);
    crate::vec3::lemma_component_le_norm(dv.y, dv.x * dv.x + dv.z * dv.z, s);
    crate::vec3::lemma_component_le_norm(dv.z, dv.x * dv.x + dv.y * dv.y, s);

    let after = auto_fit_spec(c, bmin, bmax);
    let sx = bmin.x as int + bmax.x as int;
    let sy = bmin.y as int + bmax.y as int;
    let sz = bmin.z as int + bmax.z as int;
    lemma_div_trunc_by2(sx);
    lemma_div_trunc_by2(sy);
    lemma_div_trunc_by2(sz);
    lemma_div_trunc_bound(sx, 2, MAX_COORD as int);
    lemma_div_trunc_bound(sy, 2, MAX_COORD as int);
    lemma_div_trunc_bound(sz, 2, MAX_COORD as int);
    let tx = div_trunc_spec(sx, 2);
    let ty = div_trunc_spec(sy, 2);
    let tz = div_trunc_spec(sz, 2);
    assert(after.target.x as int == tx);
    assert(after.target.y as int == ty);
    assert(after.target.z as int == tz);
    assert(after.distance as int == 2 * s);

    lemma_corner_in_ball(bmin.x as int, bmax.x as int, bmin.y as int, bmax.y as int,
        bmin.z as int, bmax.z as int, tx, ty, tz, s, n);
    assert(4 * crate::vec3::dist_sq_spec(bmin, after.target) <= (s + 4) * (s + 4));
    assert(4 * crate::vec3::dist_sq_spec(bmax, after.target) <= (s + 4) * (s + 4));
    assert(crate::vec3::dist_sq_spec(bmin, after.target) >= 0) by (nonlinear_arith);
    assert(crate::vec3::dist_sq_spec(bmax, after.target) >= 0) by (nonlinear_arith);
    lemma_frames_from_radius(crate::vec3::dist_sq_spec(bmin, after.target), s);
    lemma_frames_from_radius(crate::vec3::dist_sq_spec(bmax, after.target), s);
}

/// Along one axis, either end of `[lo, hi]` sits within half the span
/// (plus rounding slack) of the truncated midpoint `t`.
proof fn lemma_axis_offset(lo: int, hi: int, t: int)
    by (nonlinear_arith)
    requires
        lo <= hi,
        (lo + hi) - 1 <= 2 * t <= (lo + hi) + 1,
    ensures
        4 * ((lo - t) * (lo - t)) <= (hi - lo) * (hi - lo) + 2 * (hi - lo) + 1,
        4 * ((hi - t) * (hi - t)) <= (hi - lo) * (hi - lo) + 2 * (hi - lo) + 1,
{
}

/// Folding the per-axis slack into the diagonal bound.
proof fn lemma_radius_total(q: int, n: int, s: int)
    by (nonlinear_arith)
    requires
        4 * q <= n + 6 * s + 3,
        n < (s + 1) * (s + 1),
        0 <= s,
    ensures
        4 * q <= (s + 4) * (s + 4),
{
}

/// Both corners of an axis-aligned box sit within half the diagonal
/// (plus rounding slack) of the truncated midpoint.
proof fn lemma_corner_in_ball(
    lx: int, hx: int, ly: int, hy: int, lz: int, hz: int,
    tx: int, ty: int, tz: int, s: int, n: int,
)
    requires
        lx <= hx && ly <= hy && lz <= hz,
        (lx + hx) - 1 <= 2 * tx <= (lx + hx) + 1,
        (ly + hy) - 1 <= 2 * ty <= (ly + hy) + 1,
        (lz + hz) - 1 <= 2 * tz <= (lz + hz) + 1,
        n == (hx - lx) * (hx - lx) + (hy - ly) * (hy - ly) + (hz - lz) * (hz - lz),
        n < (s + 1) * (s + 1),
        hx - lx <= s,
        hy - ly <= s,
        hz - lz <= s,
        0 <= s,
    ensures
        4 * ((lx - tx) * (lx - tx) + (ly - ty) * (ly - ty) + (lz - tz) * (lz - tz))
            <= (s + 4) * (s + 4),
        4 * ((hx - tx) * (hx - tx) + (hy - ty) * (hy - ty) + (hz - tz) * (hz - tz))
            <= (s + 4) * (s + 4),
{
    lemma_axis_offset(lx, hx, tx);
    lemma_axis_offset(ly, hy, ty);
    lemma_axis_offset(lz, hz, tz);
    lemma_radius_total(
        (lx - tx) * (lx - tx) + (ly - ty) * (ly - ty) + (lz - tz) * (lz - tz), n, s);
    lemma_radius_total(
        (hx - tx) * (hx - tx) + (hy - ty) * (hy - ty) + (hz - tz) * (hz - tz), n, s);
}

/// A sequence of events folded through the camera, oldest first.
pub open spec fn run_inputs(c: Camera, es: Seq<CameraInput>) -> Camera
    decreases es.len(),
{
    if es.len() == 0 {
        c
    } else {
        run_inputs(step_input(c, es[0]), es.drop_first())
    }
}

/// However long the event sequence and however large its pointer
/// deltas, the pitch never leaves `[-PITCH_LIMIT, PITCH_LIMIT]` once it
/// is inside (and a fresh camera starts at pitch zero).
pub proof fn lemma_pitch_stays_clamped(c: Camera, es: Seq<CameraInput>)
    requires
        pitch_in_range(c),
    ensures
        pitch_in_range(run_inputs(c, es)),
    decreases es.len(),
{
    if es.len() > 0 {
        lemma_pitch_stays_clamped(step_input(c, es[0]), es.drop_first());
    }
}

/// However long the event sequence and however large its scroll steps,
/// the zoom distance never leaves `[MIN_DISTANCE, MAX_DISTANCE]` once
/// it is inside; a single scroll event lands it inside from anywhere.
pub proof fn lemma_distance_stays_clamped(c: Camera, es: Seq<CameraInput>)
    requires
        distance_in_range(c),
    ensures
        distance_in_range(run_inputs(c, es)),
    decreases es.len(),
{
    if es.len() > 0 {
        lemma_distance_stays_clamped(step_input(c, es[0]), es.drop_first());
    }
}

} // verus!
