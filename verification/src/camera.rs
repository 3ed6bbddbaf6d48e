//! The orbit camera: its state, its configuration, and the per-frame updates
//! that pointer, wheel and keyboard input apply to it.
//!
//! The camera is parameterized by a horizontal angle `x`, a polar angle `y`,
//! a distance from a look-at `center`, and sensitivity and clamp settings.
//! Every update clamps the polar angle into `[min_polar_angle,
//! max_polar_angle]` and the distance into `[min_zoom_distance,
//! max_zoom_distance]`; a negative zoom bound means that side is unbounded.

use crate::fixed::{
    clamp, clamp_spec, fx_div, fx_div_spec, fx_mul, fx_mul_spec, fx_pow, fx_pow_spec, fx_root10,
    fx_root10_spec, lemma_fx_mul_abs_le, lemma_fx_mul_fits, lemma_fx_pow_lower_half,
    lemma_fx_pow_upper, mul_div_spec, SCALE,
};
use crate::input::{
    sum_delta_x, sum_delta_y, total_decilines, InputState, MouseMotion, MouseWheel,
};
use crate::trig::{cos_fx, cos_fx_spec, sin_fx, sin_fx_spec, SIN_BOUND};
use crate::vec3::{norm_spec, norm_sq_spec, Vec3Fx};
use vstd::arithmetic::power2::pow2;
use vstd::math::abs;
use vstd::prelude::*;

verus! {

/// Sensitivities above ten units per pixel-second are not supported.
pub const MAX_SENSITIVITY: i64 = 10_000_000;

/// Distances and zoom bounds are capped at a hundred thousand units.
pub const DIST_LIMIT: i64 = 100_000_000_000;

/// Orbit angles may accumulate up to a hundred million radians.
pub const ANGLE_STATE_LIMIT: i64 = 100_000_000_000_000;

/// Center and camera positions are capped at a billion units.
pub const CENTER_LIMIT: i64 = 1_000_000_000_000_000;

/// One pointer event may move at most a thousand pixels per axis.
pub const DELTA_LIMIT: i64 = 1_000_000_000;

/// A frame lasts at most one second.
pub const DT_LIMIT: i64 = 1_000_000;

/// At most this many pointer events are drained in one frame.
pub const MAX_MOTION_EVENTS: usize = 100;

/// One frame changes each orbit angle by at most a million radians.
pub const STEP_LIMIT: i64 = 1_000_000_000_000;

/// Polar-angle bounds stay within a million radians.
pub const POLAR_LIMIT: i64 = 1_000_000_000_000;

/// One frame's scroll magnitude is at most six lines either way.
pub const ZOOM_STEP_LIMIT: i64 = 60;

/// The orbit-camera state and configuration attached to a camera entity.
#[derive(Clone, Copy, PartialEq, Eq, Structural, Debug)]
pub struct OrbitCamera {
    /// Horizontal orbit angle, millionths of a radian.
    pub x: i64,
    /// Polar orbit angle, millionths of a radian.
    pub y: i64,
    /// Distance from the center, millionths of a unit.
    pub distance: i64,
    /// The look-at point the camera orbits.
    pub center: Vec3Fx,
    /// Radians of orbit per pixel-second of drag.
    pub rotate_sensitivity: i64,
    /// The zoom ratio one scroll line applies to the distance.
    pub zoom_sensitivity: i64,
    /// Units of pan per pixel-second of drag.
    pub pan_sensitivity: i64,
    /// Upper distance clamp; negative means unbounded above.
    pub max_zoom_distance: i64,
    /// Lower distance clamp; negative means unbounded below.
    pub min_zoom_distance: i64,
    /// Upper polar-angle clamp.
    pub max_polar_angle: i64,
    /// Lower polar-angle clamp.
    pub min_polar_angle: i64,
}

/// The world transform of the camera entity: the part of it the controller
/// writes. The engine orients the camera toward the center on its own.
#[derive(Clone, Copy, PartialEq, Eq, Structural, Debug)]
pub struct CameraTransform {
    /// World-space camera position, millionths of a unit per axis.
    pub translation: Vec3Fx,
}

impl OrbitCamera {
    /// The configuration invariant every update relies on: ordered clamp
    /// bounds and sensitivities within the supported ranges.
    pub open spec fn well_formed(self) -> bool {
        &&& -POLAR_LIMIT <= self.min_polar_angle <= self.max_polar_angle <= POLAR_LIMIT
        &&& 0 <= self.rotate_sensitivity <= MAX_SENSITIVITY
        &&& 0 <= self.pan_sensitivity <= MAX_SENSITIVITY
        &&& SCALE / 2 <= self.zoom_sensitivity <= 2 * SCALE
        &&& abs(self.min_zoom_distance as int) <= DIST_LIMIT
        &&& abs(self.max_zoom_distance as int) <= DIST_LIMIT
        &&& (0 <= self.min_zoom_distance && 0 <= self.max_zoom_distance
            ==> self.min_zoom_distance <= self.max_zoom_distance)
    }

    /// The camera state the frame updates may be applied to: a well-formed
    /// configuration with angles, distance and center within machine limits.
    pub open spec fn in_limits(self) -> bool {
        &&& self.well_formed()
        &&& abs(self.x as int) <= ANGLE_STATE_LIMIT
        &&& abs(self.y as int) <= ANGLE_STATE_LIMIT
        &&& 0 <= self.distance <= DIST_LIMIT
        &&& abs(self.center.x as int) <= CENTER_LIMIT
        &&& abs(self.center.y as int) <= CENTER_LIMIT
        &&& abs(self.center.z as int) <= CENTER_LIMIT
    }

    /// A camera at `dist` from `center`, under the given orbit angles, with
    /// the demo's sensitivities and clamp bounds.
    pub fn new(x: i64, y: i64, dist: i64, center: Vec3Fx) -> (r: OrbitCamera)
        ensures
            r == (OrbitCamera {
                x,
                y,
                distance: dist,
                center,
                rotate_sensitivity: SCALE,
                zoom_sensitivity: 800_000,
                pan_sensitivity: SCALE,
                max_zoom_distance: 120_000_000,
                min_zoom_distance: 8_000_000,
                max_polar_angle: 3_130_000,
                min_polar_angle: 10_000,
            }),
            r.well_formed(),
    {
        OrbitCamera {
            x,
            y,
            distance: dist,
            center,
            rotate_sensitivity: SCALE,
            zoom_sensitivity: 800_000,
            pan_sensitivity: SCALE,
            max_zoom_distance: 120_000_000,
            min_zoom_distance: 8_000_000,
            max_polar_angle: 3_130_000,
            min_polar_angle: 10_000,
        }
    }
}

impl Default for OrbitCamera {
    /// The stock camera: five units from the origin, zoom unclamped on both
    /// sides, polar angle kept just off the poles.
    fn default() -> (r: OrbitCamera)
        ensures
            r == (OrbitCamera {
                x: 0,
                y: 0,
                distance: 5_000_000,
                center: Vec3Fx { x: 0, y: 0, z: 0 },
                rotate_sensitivity: SCALE,
                zoom_sensitivity: 800_000,
                pan_sensitivity: SCALE,
                max_zoom_distance: -1_000_000i64,
                min_zoom_distance: -1_000_000i64,
                max_polar_angle: 3_130_000,
                min_polar_angle: 10_000,
            }),
            r.well_formed(),
            r.in_limits(),
    {
        OrbitCamera {
            x: 0,
            y: 0,
            distance: 5_000_000,
            center: Vec3Fx { x: 0, y: 0, z: 0 },
            rotate_sensitivity: SCALE,
            zoom_sensitivity: 800_000,
            pan_sensitivity: SCALE,
            max_zoom_distance: -1_000_000,
            min_zoom_distance: -1_000_000,
            max_polar_angle: 3_130_000,
            min_polar_angle: 10_000,
        }
    }
}

/// The ratio one frame's scroll applies to the distance: the zoom
/// sensitivity raised to the scroll magnitude, where `z` counts tenths of a
/// line. Whole lines multiply the sensitivity in directly; each remaining
/// tenth contributes one factor of the sensitivity's tenth root.
pub open spec fn zoom_factor_spec(sens: int, z: int) -> int {
    let q = z / 10;
    let rm = z % 10;
    let whole = if q >= 0 {
        fx_pow_spec(sens, q as nat)
    } else {
        fx_div_spec(SCALE as int, fx_pow_spec(sens, (-q) as nat))
    };
    let part = fx_pow_spec(fx_root10_spec(sens), rm as nat);
    fx_mul_spec(whole, part)
}

/// `d` clamped into the zoom bounds, each side applied only when its bound
/// is non-negative.
pub open spec fn clamp_zoom_spec(d: int, lo: int, hi: int) -> int {
    let d1 = if lo >= 0 && d < lo {
        lo
    } else {
        d
    };
    if hi >= 0 && d1 > hi {
        hi
    } else {
        d1
    }
}

/// The distance after a scroll of `z` tenths of a line: scaled by the zoom
/// factor, then clamped into the active bounds.
pub open spec fn zoomed_distance_spec(c: OrbitCamera, z: int) -> int {
    clamp_zoom_spec(
        fx_mul_spec(c.distance as int, zoom_factor_spec(c.zoom_sensitivity as int, z)),
        c.min_zoom_distance as int,
        c.max_zoom_distance as int,
    )
}

/// The vector from the orbit center to the camera.
pub open spec fn offset_spec(t: Vec3Fx, c: Vec3Fx) -> Vec3Fx {
    Vec3Fx { x: (t.x - c.x) as i64, y: (t.y - c.y) as i64, z: (t.z - c.z) as i64 }
}

/// `d` forced into `[lo, hi]`, where a negative bound switches its side of
/// the clamp off.
pub fn clamp_zoom(d: i64, lo: i64, hi: i64) -> (r: i64)
    ensures
        r == clamp_zoom_spec(d as int, lo as int, hi as int),
        0 <= lo && 0 <= hi && lo <= hi ==> lo <= r <= hi,
        0 <= lo ==> lo <= r || r == hi,
        0 <= hi ==> r <= hi,
        lo < 0 && hi < 0 ==> r == d,
        lo < 0 ==> r == d || r == hi,
        hi < 0 ==> r == d || r == lo,
        0 <= d || 0 <= lo ==> 0 <= r,
{
    let d1 = if lo >= 0 && d < lo {
        lo
    } else {
        d
    };
    if hi >= 0 && d1 > hi {
        hi
    } else {
        d1
    }
}

/// The fixed-point zoom ratio for a scroll of `z` tenths of a line.
pub fn zoom_factor(sens: i64, z: i64) -> (r: i64)
    requires
        SCALE / 2 <= sens <= 2 * SCALE,
        -ZOOM_STEP_LIMIT <= z <= ZOOM_STEP_LIMIT,
    ensures
        r == zoom_factor_spec(sens as int, z as int),
        0 <= r <= 40_000_000_000,
{
    let ghost zq: int = (z as int) / 10;
    let ghost zr: int = (z as int) % 10;
    let (q, rm): (i64, i64) = if z >= 0 {
        (((z as u64) / 10) as i64, ((z as u64) % 10) as i64)
    } else {
        let n: u64 = (-z) as u64;
        let qn: i64 = (n / 10) as i64;
        let rn: i64 = (n % 10) as i64;
        if rn == 0 {
            (-qn, 0)
        } else {
            (-qn - 1, 10 - rn)
        }
    };
    proof {
        if z < 0 {
            let n = -(z as int);
            vstd::arithmetic::div_mod::lemma_fundamental_div_mod(n, 10);
            vstd::arithmetic::div_mod::lemma_fundamental_div_mod_converse(
                z as int,
                10,
                q as int,
                rm as int,
            );
        }
        assert(q == zq && rm == zr);
        assert(-6 <= q <= 6 && 0 <= rm <= 9);
    }
    let whole: i64 = if q >= 0 {
        let w = fx_pow(sens, q as u32);
        proof {
            lemma_fx_pow_upper(sens as int, q as nat);
            assert(pow2(q as nat) <= 64) by {
                vstd::arithmetic::power2::lemma2_to64();
                if (q as nat) < 6 {
                    vstd::arithmetic::power2::lemma_pow2_strictly_increases(q as nat, 6);
                }
            }
        }
        w
    } else {
        let p = fx_pow(sens, (-q) as u32);
        proof {
            lemma_fx_pow_lower_half(sens as int, (-q) as nat);
            vstd::arithmetic::div_mod::lemma_div_is_ordered_by_denominator(
                (SCALE as int) * (SCALE as int),
                15_625,
                p as int,
            );
            assert((1_000_000int * 1_000_000) / 15_625 == 64_000_000) by (nonlinear_arith);
            vstd::arithmetic::div_mod::lemma_div_pos_is_pos(
                (SCALE as int) * (SCALE as int),
                p as int,
            );
        }
        fx_div(SCALE, p)
    };
    let t = fx_root10(sens);
    let part = fx_pow(t, rm as u32);
    proof {
        lemma_fx_pow_upper(t as int, rm as nat);
        assert(pow2(rm as nat) <= 512) by {
            vstd::arithmetic::power2::lemma2_to64();
            if (rm as nat) < 9 {
                vstd::arithmetic::power2::lemma_pow2_strictly_increases(rm as nat, 9);
            }
        }
        lemma_fx_mul_fits(whole as int, part as int, 64_000_000, 512_000_000);
        lemma_fx_mul_abs_le(whole as int, part as int, 64_000_000, 512_000_000, 40_000_000_000);
        crate::fixed::lemma_fx_mul_nonneg_mono(0, 0, whole as int, part as int);
    }
    fx_mul(whole, part)
}

/// The plugin: the per-frame systems that drive the orbit camera from the
/// frame's input.
pub struct OrbitCameraPlugin;

impl OrbitCameraPlugin {
    /// Applies a scroll of `zoom` tenths of a line: the distance is scaled
    /// by the zoom factor and clamped into the active bounds, and the camera
    /// position is re-projected onto the new orbit radius along its current
    /// direction from the center.
    pub fn set_zoom_level(
        zoom: i64,
        camera: &mut OrbitCamera,
        transform: &mut CameraTransform,
    )
        requires
            old(camera).in_limits(),
            -ZOOM_STEP_LIMIT <= zoom <= ZOOM_STEP_LIMIT,
            abs(old(transform).translation.x as int) <= 3 * CENTER_LIMIT,
            abs(old(transform).translation.y as int) <= 3 * CENTER_LIMIT,
            abs(old(transform).translation.z as int) <= 3 * CENTER_LIMIT,
            old(transform).translation != old(camera).center,
        ensures
            *final(camera) == (OrbitCamera { distance: final(camera).distance, ..*old(camera) }),
            final(camera).distance == zoomed_distance_spec(*old(camera), zoom as int),
            0 <= final(camera).distance <= 4_000_000_000_000_000,
            0 <= old(camera).min_zoom_distance && 0 <= old(camera).max_zoom_distance
                ==> old(camera).min_zoom_distance <= final(camera).distance <= old(
                camera,
            ).max_zoom_distance,
            0 <= old(camera).max_zoom_distance ==> final(camera).distance <= old(
                camera,
            ).max_zoom_distance,
            final(transform).translation.x == old(camera).center.x + mul_div_spec(
                offset_spec(old(transform).translation, old(camera).center).x as int,
                final(camera).distance as int,
                norm_spec(offset_spec(old(transform).translation, old(camera).center)),
            ),
            final(transform).translation.y == old(camera).center.y + mul_div_spec(
                offset_spec(old(transform).translation, old(camera).center).y as int,
                final(camera).distance as int,
                norm_spec(offset_spec(old(transform).translation, old(camera).center)),
            ),
            final(transform).translation.z == old(camera).center.z + mul_div_spec(
                offset_spec(old(transform).translation, old(camera).center).z as int,
                final(camera).distance as int,
                norm_spec(offset_spec(old(transform).translation, old(camera).center)),
            ),
            abs(final(transform).translation.x as int) <= 5 * CENTER_LIMIT,
            abs(final(transform).translation.y as int) <= 5 * CENTER_LIMIT,
            abs(final(transform).translation.z as int) <= 5 * CENTER_LIMIT,
    {
        let factor = zoom_factor(camera.zoom_sensitivity, zoom);
        proof {
            lemma_fx_mul_fits(camera.distance as int, factor as int, DIST_LIMIT as int,
                40_000_000_000);
            lemma_fx_mul_abs_le(camera.distance as int, factor as int, DIST_LIMIT as int,
                40_000_000_000, 4_000_000_000_000_000);
            crate::fixed::lemma_fx_mul_nonneg_mono(0, 0, camera.distance as int, factor as int);
        }
        let d_raw = fx_mul(camera.distance, factor);
        let d_new = clamp_zoom(d_raw, camera.min_zoom_distance, camera.max_zoom_distance);
        camera.distance = d_new;
        let diff = transform.translation.sub(camera.center);
        proof {
            let od = offset_spec(old(transform).translation, old(camera).center);
            assert(diff == od);
            assert(diff.x != 0 || diff.y != 0 || diff.z != 0);
            assert(norm_sq_spec(diff) >= 1) by (nonlinear_arith)
                requires
                    diff.x != 0 || diff.y != 0 || diff.z != 0,
                    norm_sq_spec(diff) == diff.x * diff.x + diff.y * diff.y + diff.z * diff.z,
            ;
        }
        let scaled = diff.scale_to(camera.distance);
        let new_translation = camera.center.add(scaled);
        transform.translation = new_translation;
    }
}

/// The unit direction from center to camera, horizontal axis: the yaw and
/// pitch rotations applied to the up vector.
pub open spec fn orbit_dir_x_spec(x: int, y: int) -> int {
    -fx_mul_spec(sin_fx_spec(x), sin_fx_spec(y))
}

/// The unit direction from center to camera, vertical axis.
pub open spec fn orbit_dir_y_spec(y: int) -> int {
    cos_fx_spec(y)
}

/// The unit direction from center to camera, depth axis.
pub open spec fn orbit_dir_z_spec(x: int, y: int) -> int {
    -fx_mul_spec(cos_fx_spec(x), sin_fx_spec(y))
}

/// The camera position `direction * distance + center`, per axis.
pub open spec fn orbit_pos_x_spec(x: int, y: int, d: int, c: Vec3Fx) -> int {
    c.x + fx_mul_spec(orbit_dir_x_spec(x, y), d)
}

/// See `orbit_pos_x_spec`.
pub open spec fn orbit_pos_y_spec(y: int, d: int, c: Vec3Fx) -> int {
    c.y + fx_mul_spec(orbit_dir_y_spec(y), d)
}

/// See `orbit_pos_x_spec`.
pub open spec fn orbit_pos_z_spec(x: int, y: int, d: int, c: Vec3Fx) -> int {
    c.z + fx_mul_spec(orbit_dir_z_spec(x, y), d)
}

/// Places the camera on its orbit: yaw around the up axis and pitch around
/// the negated right axis, applied to the up vector, scaled by the distance
/// and shifted to the center.
pub fn orbit_position(x: i64, y: i64, distance: i64, center: Vec3Fx) -> (r: Vec3Fx)
    requires
        abs(x as int) <= 2 * ANGLE_STATE_LIMIT,
        abs(y as int) <= 2 * ANGLE_STATE_LIMIT,
        0 <= distance <= DIST_LIMIT,
        abs(center.x as int) <= 2 * CENTER_LIMIT,
        abs(center.y as int) <= 2 * CENTER_LIMIT,
        abs(center.z as int) <= 2 * CENTER_LIMIT,
    ensures
        r.x == orbit_pos_x_spec(x as int, y as int, distance as int, center),
        r.y == orbit_pos_y_spec(y as int, distance as int, center),
        r.z == orbit_pos_z_spec(x as int, y as int, distance as int, center),
        abs(r.x as int) <= 3 * CENTER_LIMIT,
        abs(r.y as int) <= 3 * CENTER_LIMIT,
        abs(r.z as int) <= 3 * CENTER_LIMIT,
{
    let sx = sin_fx(x);
    let cx = cos_fx(x);
    let sy = sin_fx(y);
    let cy = cos_fx(y);
    proof {
        lemma_fx_mul_fits(sx as int, sy as int, SIN_BOUND as int, SIN_BOUND as int);
        lemma_fx_mul_fits(cx as int, sy as int, SIN_BOUND as int, SIN_BOUND as int);
        lemma_fx_mul_abs_le(sx as int, sy as int, SIN_BOUND as int, SIN_BOUND as int, 3_000_000);
        lemma_fx_mul_abs_le(cx as int, sy as int, SIN_BOUND as int, SIN_BOUND as int, 3_000_000);
    }
    let dir_x = -fx_mul(sx, sy);
    let dir_z = -fx_mul(cx, sy);
    proof {
        lemma_fx_mul_fits(dir_x as int, distance as int, 3_000_000, DIST_LIMIT as int);
        lemma_fx_mul_fits(cy as int, distance as int, 3_000_000, DIST_LIMIT as int);
        lemma_fx_mul_fits(dir_z as int, distance as int, 3_000_000, DIST_LIMIT as int);
        lemma_fx_mul_abs_le(dir_x as int, distance as int, 3_000_000, DIST_LIMIT as int,
            CENTER_LIMIT as int);
        lemma_fx_mul_abs_le(cy as int, distance as int, 3_000_000, DIST_LIMIT as int,
            CENTER_LIMIT as int);
        lemma_fx_mul_abs_le(dir_z as int, distance as int, 3_000_000, DIST_LIMIT as int,
            CENTER_LIMIT as int);
    }
    Vec3Fx {
        x: center.x + fx_mul(dir_x, distance),
        y: center.y + fx_mul(cy, distance),
        z: center.z + fx_mul(dir_z, distance),
    }
}

/// One axis of a drag, scaled by a sensitivity and the frame time:
/// `delta * sensitivity * dt` in fixed point.
pub open spec fn drag_step_spec(delta: int, sens: int, dt: int) -> int {
    fx_mul_spec(fx_mul_spec(delta, sens), dt)
}

/// The camera after a pan: the orbit center shifts by the scaled drag in the
/// screen plane; angles and distance stay.
pub open spec fn pan_camera_spec(c: OrbitCamera, dx: int, dy: int, dt: int) -> OrbitCamera {
    OrbitCamera {
        center: Vec3Fx {
            x: (c.center.x + drag_step_spec(dx, c.pan_sensitivity as int, dt)) as i64,
            y: (c.center.y + drag_step_spec(dy, c.pan_sensitivity as int, dt)) as i64,
            z: c.center.z,
        },
        ..c
    }
}

/// The camera position after a pan: shifted by the same screen-plane vector
/// as the center.
pub open spec fn pan_translation_spec(t: Vec3Fx, c: OrbitCamera, dx: int, dy: int, dt: int) -> Vec3Fx {
    Vec3Fx {
        x: (t.x + drag_step_spec(dx, c.pan_sensitivity as int, dt)) as i64,
        y: (t.y + drag_step_spec(dy, c.pan_sensitivity as int, dt)) as i64,
        z: t.z,
    }
}

/// The camera after a rotation drag: the horizontal angle falls by the
/// scaled horizontal drag, the polar angle falls by the scaled vertical drag
/// and is clamped into the polar bounds.
pub open spec fn rotate_camera_spec(c: OrbitCamera, dx: int, dy: int, dt: int) -> OrbitCamera {
    OrbitCamera {
        x: (c.x - drag_step_spec(dx, c.rotate_sensitivity as int, dt)) as i64,
        y: clamp_spec(
            c.y - drag_step_spec(dy, c.rotate_sensitivity as int, dt),
            c.min_polar_angle as int,
            c.max_polar_angle as int,
        ) as i64,
        ..c
    }
}

/// Whether the frame's input selects the pan mode: the modifier with the
/// primary button, or the secondary button alone.
pub open spec fn pan_mode_spec(input: InputState) -> bool {
    if input.shift_pressed {
        input.left_pressed
    } else {
        !input.left_pressed && input.right_pressed
    }
}

/// Whether the frame's input selects the rotate mode: the primary button
/// without the modifier.
pub open spec fn rotate_mode_spec(input: InputState) -> bool {
    !input.shift_pressed && input.left_pressed
}

/// The camera and camera position after one frame of pointer motion.
pub open spec fn motion_update_spec(
    c: OrbitCamera,
    t: Vec3Fx,
    input: InputState,
    dx: int,
    dy: int,
    dt: int,
) -> (OrbitCamera, Vec3Fx) {
    if pan_mode_spec(input) {
        (pan_camera_spec(c, dx, dy, dt), pan_translation_spec(t, c, dx, dy, dt))
    } else if rotate_mode_spec(input) {
        let c2 = rotate_camera_spec(c, dx, dy, dt);
        (
            c2,
            Vec3Fx {
                x: orbit_pos_x_spec(c2.x as int, c2.y as int, c2.distance as int, c2.center) as i64,
                y: orbit_pos_y_spec(c2.y as int, c2.distance as int, c2.center) as i64,
                z: orbit_pos_z_spec(c2.x as int, c2.y as int, c2.distance as int, c2.center) as i64,
            },
        )
    } else {
        (c, t)
    }
}

/// The bounds every pointer-event batch must respect.
pub open spec fn motion_events_ok(events: Seq<MouseMotion>) -> bool {
    &&& events.len() <= MAX_MOTION_EVENTS
    &&& forall|i: int|
        0 <= i < events.len() ==> abs(events[i].delta_x as int) <= DELTA_LIMIT && abs(
            events[i].delta_y as int,
        ) <= DELTA_LIMIT
}

impl OrbitCameraPlugin {
    /// Shifts the orbit center and the camera position together by the
    /// drag, scaled by the pan sensitivity and the frame time.
    fn apply_pan(
        dx: i64,
        dy: i64,
        dt: i64,
        camera: &mut OrbitCamera,
        transform: &mut CameraTransform,
    )
        requires
            old(camera).in_limits(),
            abs(dx as int) <= 100 * DELTA_LIMIT,
            abs(dy as int) <= 100 * DELTA_LIMIT,
            0 <= dt <= DT_LIMIT,
            abs(old(transform).translation.x as int) <= 3 * CENTER_LIMIT,
            abs(old(transform).translation.y as int) <= 3 * CENTER_LIMIT,
            abs(old(transform).translation.z as int) <= 3 * CENTER_LIMIT,
        ensures
            *final(camera) == pan_camera_spec(*old(camera), dx as int, dy as int, dt as int),
            final(transform).translation == pan_translation_spec(
                old(transform).translation,
                *old(camera),
                dx as int,
                dy as int,
                dt as int,
            ),
    {
        proof {
            lemma_fx_mul_fits(dx as int, old(camera).pan_sensitivity as int,
                100 * DELTA_LIMIT as int, MAX_SENSITIVITY as int);
            lemma_fx_mul_abs_le(dx as int, old(camera).pan_sensitivity as int,
                100 * DELTA_LIMIT as int, MAX_SENSITIVITY as int, STEP_LIMIT as int);
            lemma_fx_mul_fits(dy as int, old(camera).pan_sensitivity as int,
                100 * DELTA_LIMIT as int, MAX_SENSITIVITY as int);
            lemma_fx_mul_abs_le(dy as int, old(camera).pan_sensitivity as int,
                100 * DELTA_LIMIT as int, MAX_SENSITIVITY as int, STEP_LIMIT as int);
        }
        let step_x0 = fx_mul(dx, camera.pan_sensitivity);
        let step_y0 = fx_mul(dy, camera.pan_sensitivity);
        proof {
            lemma_fx_mul_fits(step_x0 as int, dt as int, STEP_LIMIT as int, DT_LIMIT as int);
            lemma_fx_mul_abs_le(step_x0 as int, dt as int, STEP_LIMIT as int, DT_LIMIT as int,
                STEP_LIMIT as int);
            lemma_fx_mul_fits(step_y0 as int, dt as int, STEP_LIMIT as int, DT_LIMIT as int);
            lemma_fx_mul_abs_le(step_y0 as int, dt as int, STEP_LIMIT as int, DT_LIMIT as int,
                STEP_LIMIT as int);
        }
        let step_x = fx_mul(step_x0, dt);
        let step_y = fx_mul(step_y0, dt);
        camera.center = Vec3Fx {
            x: camera.center.x + step_x,
            y: camera.center.y + step_y,
            z: camera.center.z,
        };
        transform.translation = Vec3Fx {
            x: transform.translation.x + step_x,
            y: transform.translation.y + step_y,
            z: transform.translation.z,
        };
    }

    /// One frame of pointer motion: with the modifier held the primary
    /// button pans, without it the primary button rotates around the center
    /// and the secondary button pans. The polar angle is clamped into its
    /// bounds on every rotation, and a rotation recomputes the camera
    /// position on the orbit.
    pub fn mouse_motion_system(
        dt: i64,
        events: &Vec<MouseMotion>,
        input: &InputState,
        camera: &mut OrbitCamera,
        transform: &mut CameraTransform,
    )
        requires
            old(camera).in_limits(),
            motion_events_ok(events@),
            0 <= dt <= DT_LIMIT,
            abs(old(transform).translation.x as int) <= 3 * CENTER_LIMIT,
            abs(old(transform).translation.y as int) <= 3 * CENTER_LIMIT,
            abs(old(transform).translation.z as int) <= 3 * CENTER_LIMIT,
        ensures
            (*final(camera), final(transform).translation) == motion_update_spec(
                *old(camera),
                old(transform).translation,
                *input,
                sum_delta_x(events@),
                sum_delta_y(events@),
                dt as int,
            ),
            rotate_mode_spec(*input) ==> old(camera).min_polar_angle <= final(camera).y <= old(
                camera,
            ).max_polar_angle,
            final(camera).well_formed(),
    {
        let mut dx: i64 = 0;
        let mut dy: i64 = 0;
        let mut i: usize = 0;
        while i < events.len()
            invariant
                i <= events@.len(),
                motion_events_ok(events@),
                dx == sum_delta_x(events@.take(i as int)),
                dy == sum_delta_y(events@.take(i as int)),
                abs(dx as int) <= i * DELTA_LIMIT,
                abs(dy as int) <= i * DELTA_LIMIT,
            decreases events@.len() - i,
        {
            proof {
                assert(events@.take(i + 1 as int).drop_last() =~= events@.take(i as int));
                assert(events@.take(i + 1 as int).last() == events@[i as int]);
            }
            dx = dx + events[i].delta_x;
            dy = dy + events[i].delta_y;
            i = i + 1;
        }
        proof {
            assert(events@.take(events@.len() as int) =~= events@);
        }
        if input.shift_pressed {
            if input.left_pressed {
                Self::apply_pan(dx, dy, dt, camera, transform);
            }
        } else if input.left_pressed {
            proof {
                lemma_fx_mul_fits(dx as int, old(camera).rotate_sensitivity as int,
                    100 * DELTA_LIMIT as int, MAX_SENSITIVITY as int);
                lemma_fx_mul_abs_le(dx as int, old(camera).rotate_sensitivity as int,
                    100 * DELTA_LIMIT as int, MAX_SENSITIVITY as int, STEP_LIMIT as int);
                lemma_fx_mul_fits(dy as int, old(camera).rotate_sensitivity as int,
                    100 * DELTA_LIMIT as int, MAX_SENSITIVITY as int);
                lemma_fx_mul_abs_le(dy as int, old(camera).rotate_sensitivity as int,
                    100 * DELTA_LIMIT as int, MAX_SENSITIVITY as int, STEP_LIMIT as int);
            }
            let step_x0 = fx_mul(dx, camera.rotate_sensitivity);
            let step_y0 = fx_mul(dy, camera.rotate_sensitivity);
            proof {
                lemma_fx_mul_fits(step_x0 as int, dt as int, STEP_LIMIT as int, DT_LIMIT as int);
                lemma_fx_mul_abs_le(step_x0 as int, dt as int, STEP_LIMIT as int,
                    DT_LIMIT as int, STEP_LIMIT as int);
                lemma_fx_mul_fits(step_y0 as int, dt as int, STEP_LIMIT as int, DT_LIMIT as int);
                lemma_fx_mul_abs_le(step_y0 as int, dt as int, STEP_LIMIT as int,
                    DT_LIMIT as int, STEP_LIMIT as int);
            }
            let step_x = fx_mul(step_x0, dt);
            let step_y = fx_mul(step_y0, dt);
            camera.x = camera.x - step_x;
            camera.y = clamp(camera.y - step_y, camera.min_polar_angle, camera.max_polar_angle);
            let pos = orbit_position(camera.x, camera.y, camera.distance, camera.center);
            transform.translation = pos;
        } else if input.right_pressed {
            Self::apply_pan(dx, dy, dt, camera, transform);
        }
    }

    /// One frame of scroll-wheel input: the events are summed into tenths of
    /// a line, pixels weighing a tenth of a line each, and the total drives
    /// one zoom step.
    pub fn mouse_zoom_system(
        events: &Vec<MouseWheel>,
        camera: &mut OrbitCamera,
        transform: &mut CameraTransform,
    )
        requires
            old(camera).in_limits(),
            events@.len() <= 100,
            forall|i: int|
                0 <= i < events@.len() ==> abs(events@[i].amount as int) <= 1_000_000,
            -ZOOM_STEP_LIMIT <= total_decilines(events@) <= ZOOM_STEP_LIMIT,
            abs(old(transform).translation.x as int) <= 3 * CENTER_LIMIT,
            abs(old(transform).translation.y as int) <= 3 * CENTER_LIMIT,
            abs(old(transform).translation.z as int) <= 3 * CENTER_LIMIT,
            old(transform).translation != old(camera).center,
        ensures
            *final(camera) == (OrbitCamera { distance: final(camera).distance, ..*old(camera) }),
            final(camera).distance == zoomed_distance_spec(*old(camera), total_decilines(events@)),
            0 <= old(camera).min_zoom_distance && 0 <= old(camera).max_zoom_distance
                ==> old(camera).min_zoom_distance <= final(camera).distance <= old(
                camera,
            ).max_zoom_distance,
            0 <= final(camera).distance <= 4_000_000_000_000_000,
            final(transform).translation.x == old(camera).center.x + mul_div_spec(
                offset_spec(old(transform).translation, old(camera).center).x as int,
                final(camera).distance as int,
                norm_spec(offset_spec(old(transform).translation, old(camera).center)),
            ),
            final(transform).translation.y == old(camera).center.y + mul_div_spec(
                offset_spec(old(transform).translation, old(camera).center).y as int,
                final(camera).distance as int,
                norm_spec(offset_spec(old(transform).translation, old(camera).center)),
            ),
            final(transform).translation.z == old(camera).center.z + mul_div_spec(
                offset_spec(old(transform).translation, old(camera).center).z as int,
                final(camera).distance as int,
                norm_spec(offset_spec(old(transform).translation, old(camera).center)),
            ),
    {
        let mut total: i64 = 0;
        let mut i: usize = 0;
        while i < events.len()
            invariant
                i <= events@.len(),
                events@.len() <= 100,
                forall|j: int|
                    0 <= j < events@.len() ==> abs(events@[j].amount as int) <= 1_000_000,
                total == total_decilines(events@.take(i as int)),
                abs(total as int) <= i * 1_000_000,
            decreases events@.len() - i,
        {
            proof {
                assert(events@.take(i + 1 as int).drop_last() =~= events@.take(i as int));
                assert(events@.take(i + 1 as int).last() == events@[i as int]);
            }
            let e = events[i];
            let contribution: i64 = match e.unit {
                crate::input::MouseScrollUnit::Line => e.amount,
                crate::input::MouseScrollUnit::Pixel => {
                    if e.amount >= 0 {
                        ((e.amount as u64) / 10) as i64
                    } else {
                        -((((-e.amount) as u64) / 10) as i64)
                    }
                },
            };
            proof {
                assert(abs(contribution as int) <= 1_000_000);
            }
            total = total + contribution;
            i = i + 1;
        }
        proof {
            assert(events@.take(events@.len() as int) =~= events@);
        }
        Self::set_zoom_level(total, camera, transform);
    }

    /// One frame of keyboard zoom: the up key zooms by a fifth of a line in,
    /// the down key by a fifth of a line out.
    pub fn keyboard_controls_system(
        input: &InputState,
        camera: &mut OrbitCamera,
        transform: &mut CameraTransform,
    )
        requires
            old(camera).in_limits(),
            abs(old(transform).translation.x as int) <= 3 * CENTER_LIMIT,
            abs(old(transform).translation.y as int) <= 3 * CENTER_LIMIT,
            abs(old(transform).translation.z as int) <= 3 * CENTER_LIMIT,
            input.up_pressed || input.down_pressed ==> old(transform).translation != old(
                camera).center,
        ensures
            *final(camera) == (OrbitCamera { distance: final(camera).distance, ..*old(camera) }),
            input.up_pressed ==> final(camera).distance == zoomed_distance_spec(*old(camera), 2),
            !input.up_pressed && input.down_pressed ==> final(camera).distance
                == zoomed_distance_spec(*old(camera), -2),
            !input.up_pressed && !input.down_pressed ==> *final(camera) == *old(camera)
                && *final(transform) == *old(transform),
    {
        if input.up_pressed {
            Self::set_zoom_level(2, camera, transform);
        } else if input.down_pressed {
            Self::set_zoom_level(-2, camera, transform);
        }
    }
}

/// Rotating by a drag and then by the exactly opposite drag returns both
/// orbit angles to their starting values, provided the polar clamp never
/// bites: the starting polar angle and the once-rotated polar angle both lie
/// within the polar bounds.
pub proof fn lemma_rotate_round_trip(c: OrbitCamera, dx: int, dy: int, dt: int)
    requires
        c.well_formed(),
        abs(c.x as int) <= ANGLE_STATE_LIMIT,
        abs(c.y as int) <= ANGLE_STATE_LIMIT,
        abs(dx) <= 100 * DELTA_LIMIT,
        abs(dy) <= 100 * DELTA_LIMIT,
        0 <= dt <= DT_LIMIT,
        c.min_polar_angle <= c.y <= c.max_polar_angle,
        c.min_polar_angle <= c.y - drag_step_spec(dy, c.rotate_sensitivity as int, dt)
            <= c.max_polar_angle,
    ensures
        rotate_camera_spec(rotate_camera_spec(c, dx, dy, dt), -dx, -dy, dt) == c,
{
    let sx = drag_step_spec(dx, c.rotate_sensitivity as int, dt);
    let sy = drag_step_spec(dy, c.rotate_sensitivity as int, dt);
    lemma_fx_mul_abs_le(dx, c.rotate_sensitivity as int, 100 * DELTA_LIMIT as int,
        MAX_SENSITIVITY as int, STEP_LIMIT as int);
    lemma_fx_mul_abs_le(fx_mul_spec(dx, c.rotate_sensitivity as int), dt, STEP_LIMIT as int,
        DT_LIMIT as int, STEP_LIMIT as int);
    lemma_fx_mul_abs_le(dy, c.rotate_sensitivity as int, 100 * DELTA_LIMIT as int,
        MAX_SENSITIVITY as int, STEP_LIMIT as int);
    lemma_fx_mul_abs_le(fx_mul_spec(dy, c.rotate_sensitivity as int), dt, STEP_LIMIT as int,
        DT_LIMIT as int, STEP_LIMIT as int);
    crate::fixed::lemma_fx_mul_neg_left(dx, c.rotate_sensitivity as int);
    crate::fixed::lemma_fx_mul_neg_left(fx_mul_spec(dx, c.rotate_sensitivity as int), dt);
    crate::fixed::lemma_fx_mul_neg_left(dy, c.rotate_sensitivity as int);
    crate::fixed::lemma_fx_mul_neg_left(fx_mul_spec(dy, c.rotate_sensitivity as int), dt);
    assert(drag_step_spec(-dx, c.rotate_sensitivity as int, dt) == -sx);
    assert(drag_step_spec(-dy, c.rotate_sensitivity as int, dt) == -sy);
    let c1 = rotate_camera_spec(c, dx, dy, dt);
    assert(c1.x == c.x - sx && c1.y == c.y - sy);
    let c2 = rotate_camera_spec(c1, -dx, -dy, dt);
    assert(c2.x == c.x && c2.y == c.y);
}

/// A zoom step of zero lines leaves the distance unchanged, as long as the
/// distance already respects whichever zoom bounds are switched on.
pub proof fn lemma_zero_zoom_keeps_distance(c: OrbitCamera)
    requires
        c.well_formed(),
        0 <= c.distance,
        0 <= c.min_zoom_distance ==> c.min_zoom_distance <= c.distance,
        0 <= c.max_zoom_distance ==> c.distance <= c.max_zoom_distance,
    ensures
        zoomed_distance_spec(c, 0) == c.distance,
{
    assert(fx_mul_spec(1_000_000, 1_000_000) == 1_000_000) by (nonlinear_arith);
    assert(zoom_factor_spec(c.zoom_sensitivity as int, 0) == SCALE);
    assert((c.distance as int) * (SCALE as int) >= 0) by (nonlinear_arith)
        requires
            0 <= c.distance,
            SCALE == 1_000_000,
    ;
    lemma_div_multiples_vanish_local(c.distance as int);
    assert(fx_mul_spec(c.distance as int, SCALE as int) == c.distance);
}

/// A frame in which no button or key is held and the pointer and wheel are
/// still leaves the whole camera state and the camera position unchanged.
pub proof fn lemma_idle_frame_keeps_state(c: OrbitCamera, t: Vec3Fx, input: InputState, dt: int)
    requires
        c.well_formed(),
        !input.left_pressed,
        !input.right_pressed,
        !input.up_pressed,
        !input.down_pressed,
        0 <= c.distance,
        0 <= c.min_zoom_distance ==> c.min_zoom_distance <= c.distance,
        0 <= c.max_zoom_distance ==> c.distance <= c.max_zoom_distance,
    ensures
        motion_update_spec(c, t, input, 0, 0, dt) == (c, t),
        zoomed_distance_spec(c, 0) == c.distance,
{
    lemma_zero_zoom_keeps_distance(c);
}

/// A rotation drag of zero pixels leaves both orbit angles unchanged, as
/// long as the polar angle already lies within its bounds.
pub proof fn lemma_zero_drag_keeps_angles(c: OrbitCamera, dt: int)
    requires
        c.well_formed(),
        c.min_polar_angle <= c.y <= c.max_polar_angle,
    ensures
        rotate_camera_spec(c, 0, 0, dt) == c,
{
    assert(fx_mul_spec(0, c.rotate_sensitivity as int) == 0);
    assert(fx_mul_spec(0, dt) == 0);
    assert(drag_step_spec(0, c.rotate_sensitivity as int, dt) == 0);
}

proof fn lemma_div_multiples_vanish_local(d: int)
    ensures
        (d * (SCALE as int)) / (SCALE as int) == d,
{
    vstd::arithmetic::div_mod::lemma_div_multiples_vanish(d, SCALE as int);
}

} // verus!
