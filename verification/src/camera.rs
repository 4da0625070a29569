//! The camera controller: each frame it computes a target translation and
//! scale from the cursor's pixel position, the viewport width and the
//! longest line, then moves the actual transform a proportional step toward
//! that target (gain 2, scaled by the frame time).
//!
//! The zoom-to-fit heuristic is `width / 3 / (maxLineLen * 0.75)`, clamped
//! at scale 3; at the clamp the camera centers on the cursor, below it the
//! cursor is kept right of a fixed left margin by horizontal scrolling.
//! An empty longest line, which would divide by zero, is treated as the
//! clamped branch (the value a non-finite quotient would select); a
//! non-positive camera scale in the margin quotient degenerates to a zero
//! margin for that frame.  When no directional key is held, the stored
//! translation velocity is zeroed after the transform has already advanced
//! by it, while the scale velocity is not: a deliberate asymmetry, kept
//! and pinned exactly by the contracts rather than smoothed away.

use vstd::prelude::*;
use vstd::arithmetic::div_mod::lemma_div_is_ordered;
use crate::cursor::{cursor_x_raw, cursor_y_raw, nav_col, nav_row, ArrowKeys, TextEditor};
use crate::fixed::{
    fx_div_raw, fx_mul_raw, lemma_step_between, lemma_tdiv_between_zero_and_x, step_toward,
    tdiv, Fx, Fx3,
};
use crate::text::{lemma_max_line_len_is_bound, max_line_len_of, TextBuffer, MAX_COLS};

verus! {

/// Translation magnitude the camera state never exceeds per axis, in raw
/// fixed-point units; every reachable target stays below it.
pub const CAM_LIMIT: i64 = 400_000_000_000_000_000;

/// Largest accepted viewport width, in raw units (a million pixels).
pub const MAX_WIDTH_RAW: i64 = 1_000_000_000_000;

/// The clamp of the zoom-to-fit scale: 3.0, in raw units.
pub const MAX_ZOOM_RAW: i64 = 3_000_000;

/// Longest accepted frame time: half a second, in raw units.  Beyond it
/// the gain-2 filter would overshoot and the state bounds would not hold.
pub const MAX_DT_RAW: i64 = 500_000;

/// The unclamped zoom-to-fit scale `w / 3 / (maxlen * 0.75)`, in raw units
/// and exact fixed-point arithmetic.
pub open spec fn raw_target_scale(w: int, maxlen: int) -> int
    recommends
        maxlen >= 1,
{
    fx_div_raw(fx_div_raw(w, 3_000_000), maxlen * 750_000)
}

/// Whether the zoom-to-fit scale is clamped at 3.0.  An empty longest line
/// counts as clamped: its zoom-to-fit quotient has no finite value, and any
/// value beyond the clamp selects the clamp branch.
pub open spec fn scale_clamped(w: int, maxlen: int) -> bool {
    maxlen == 0 || raw_target_scale(w, maxlen) > 3_000_000
}

/// The target scale: zoom-to-fit, clamped at 3.0.
pub open spec fn target_scale_raw(w: int, maxlen: int) -> int {
    if scale_clamped(w, maxlen) {
        3_000_000
    } else {
        raw_target_scale(w, maxlen)
    }
}

/// The left margin `w / 3 / scale_x` the cursor is kept right of while
/// scrolling, in raw units; zero when the scale is not positive.
pub open spec fn margin_raw(w: int, scale_x: int) -> int {
    if scale_x > 0 {
        fx_div_raw(fx_div_raw(w, 3_000_000), scale_x)
    } else {
        0
    }
}

/// The target x translation: the raw cursor x at the clamp, otherwise the
/// margin plus however far the cursor lies beyond it — that is, the larger
/// of margin and cursor x.
pub open spec fn target_x_raw(w: int, maxlen: int, scale_x: int, cx: int) -> int {
    if scale_clamped(w, maxlen) {
        cx
    } else {
        let m = margin_raw(w, scale_x);
        if cx >= m {
            cx
        } else {
            m
        }
    }
}

/// The camera transform: a translation and a per-axis scale.
#[derive(Clone, Copy, PartialEq, Eq, Structural, Debug)]
pub struct Transform {
    pub translation: Fx3,
    pub scale: Fx3,
}

/// The camera's translation velocity, kept between frames only to be
/// observable (each frame recomputes it before use).
#[derive(Clone, Copy, PartialEq, Eq, Structural, Debug)]
pub struct RigidBody {
    pub velocity: Fx3,
}

impl Transform {
    /// The state bounds the follow step preserves: translation within
    /// `CAM_LIMIT` per axis, scale within `[0, 3.0]` per axis.
    pub open spec fn wf(&self) -> bool {
        &&& -CAM_LIMIT <= self.translation.x.raw <= CAM_LIMIT
        &&& -CAM_LIMIT <= self.translation.y.raw <= CAM_LIMIT
        &&& -CAM_LIMIT <= self.translation.z.raw <= CAM_LIMIT
        &&& 0 <= self.scale.x.raw <= MAX_ZOOM_RAW
        &&& 0 <= self.scale.y.raw <= MAX_ZOOM_RAW
        &&& 0 <= self.scale.z.raw <= MAX_ZOOM_RAW
    }

    /// The startup transform: the origin, at the fixed initial scale 3.0.
    pub fn initial() -> (r: Transform)
        ensures
            r.translation.x.raw == 0,
            r.translation.y.raw == 0,
            r.translation.z.raw == 0,
            r.scale.x.raw == MAX_ZOOM_RAW,
            r.scale.y.raw == MAX_ZOOM_RAW,
            r.scale.z.raw == MAX_ZOOM_RAW,
            r.wf(),
    {
        Transform { translation: Fx3::zero(), scale: Fx3::splat(Fx::from_raw(3_000_000)) }
    }
}

impl RigidBody {
    /// The startup state: no velocity.
    pub fn new() -> (r: RigidBody)
        ensures
            r.velocity.x.raw == 0,
            r.velocity.y.raw == 0,
            r.velocity.z.raw == 0,
    {
        RigidBody { velocity: Fx3::zero() }
    }
}

/// Law: the follow filter is stationary at its target — stepping from a
/// value toward itself returns it unchanged, for any frame time.
pub proof fn lemma_follow_fixed_point(cur: int, dt: int)
    requires
        0 <= dt,
    ensures
        step_toward(cur, cur, dt) == cur,
{
    assert(2 * (cur - cur) * dt == 0) by (nonlinear_arith);
    assert(tdiv(0, 1_000_000) == 0);
}

/// Law: a frame whose camera already sits at its target translation and
/// target scale leaves translation and scale exactly unchanged: the state
/// is a fixed point of the smoothing filter.
pub proof fn lemma_frame_stable(cam: Transform, w: int, maxlen: int, cx: int, dt: int)
    requires
        0 <= dt,
        cam.translation.x.raw == target_x_raw(w, maxlen, cam.scale.x.raw as int, cx),
        cam.scale.x.raw == target_scale_raw(w, maxlen),
        cam.scale.y.raw == target_scale_raw(w, maxlen),
        cam.scale.z.raw == target_scale_raw(w, maxlen),
    ensures
        step_toward(
            cam.translation.x.raw as int,
            target_x_raw(w, maxlen, cam.scale.x.raw as int, cx),
            dt,
        ) == cam.translation.x.raw,
        step_toward(cam.translation.y.raw as int, cam.translation.y.raw as int, dt)
            == cam.translation.y.raw,
        step_toward(cam.translation.z.raw as int, cam.translation.z.raw as int, dt)
            == cam.translation.z.raw,
        step_toward(cam.scale.x.raw as int, target_scale_raw(w, maxlen), dt)
            == cam.scale.x.raw,
        step_toward(cam.scale.y.raw as int, target_scale_raw(w, maxlen), dt)
            == cam.scale.y.raw,
        step_toward(cam.scale.z.raw as int, target_scale_raw(w, maxlen), dt)
            == cam.scale.z.raw,
{
    lemma_follow_fixed_point(cam.translation.x.raw as int, dt);
    lemma_follow_fixed_point(cam.translation.y.raw as int, dt);
    lemma_follow_fixed_point(cam.translation.z.raw as int, dt);
    lemma_follow_fixed_point(cam.scale.x.raw as int, dt);
    lemma_follow_fixed_point(cam.scale.y.raw as int, dt);
    lemma_follow_fixed_point(cam.scale.z.raw as int, dt);
}

/// One axis of the follow step: returns the proportional velocity
/// `2 * (target - cur)` and the advanced position, which never overshoots
/// the target.
fn axis_step(cur: Fx, target: Fx, dt: Fx) -> (r: (Fx, Fx))
    requires
        -CAM_LIMIT <= cur.raw <= CAM_LIMIT,
        -CAM_LIMIT <= target.raw <= CAM_LIMIT,
        0 <= dt.raw <= MAX_DT_RAW,
    ensures
        r.0.raw == 2 * (target.raw - cur.raw),
        r.1.raw == step_toward(cur.raw as int, target.raw as int, dt.raw as int),
        cur.raw <= target.raw ==> cur.raw <= r.1.raw <= target.raw,
        target.raw <= cur.raw ==> target.raw <= r.1.raw <= cur.raw,
{
    let d: i64 = target.raw - cur.raw;
    let v: i64 = 2 * d;
    let vel = Fx::from_raw(v);
    proof {
        lemma_step_between(cur.raw as int, target.raw as int, dt.raw as int);
        assert(v as int * (dt.raw as int) == 2 * (target.raw - cur.raw) * (dt.raw as int));
        assert(fx_mul_raw(v as int, dt.raw as int) == step_toward(
            cur.raw as int,
            target.raw as int,
            dt.raw as int,
        ) - cur.raw);
    }
    let step = vel.mul(dt);
    let next = cur.add(step);
    (vel, next)
}

/// Advances the camera transform one frame toward the given target,
/// storing the translation velocity in the rigid body and the scale
/// velocity beside the cursor, exactly as computed this frame.
pub fn follow_step(
    cam: &mut Transform,
    rb: &mut RigidBody,
    ed: &mut TextEditor,
    target: Fx3,
    tscale: Fx,
    dt: Fx,
)
    requires
        old(cam).wf(),
        -CAM_LIMIT <= target.x.raw <= CAM_LIMIT,
        -CAM_LIMIT <= target.y.raw <= CAM_LIMIT,
        -CAM_LIMIT <= target.z.raw <= CAM_LIMIT,
        0 <= tscale.raw <= MAX_ZOOM_RAW,
        0 <= dt.raw <= MAX_DT_RAW,
    ensures
        final(cam).translation.x.raw == step_toward(
            old(cam).translation.x.raw as int,
            target.x.raw as int,
            dt.raw as int,
        ),
        final(cam).translation.y.raw == step_toward(
            old(cam).translation.y.raw as int,
            target.y.raw as int,
            dt.raw as int,
        ),
        final(cam).translation.z.raw == step_toward(
            old(cam).translation.z.raw as int,
            target.z.raw as int,
            dt.raw as int,
        ),
        final(cam).scale.x.raw == step_toward(
            old(cam).scale.x.raw as int,
            tscale.raw as int,
            dt.raw as int,
        ),
        final(cam).scale.y.raw == step_toward(
            old(cam).scale.y.raw as int,
            tscale.raw as int,
            dt.raw as int,
        ),
        final(cam).scale.z.raw == step_toward(
            old(cam).scale.z.raw as int,
            tscale.raw as int,
            dt.raw as int,
        ),
        final(rb).velocity.x.raw == 2 * (target.x.raw - old(cam).translation.x.raw),
        final(rb).velocity.y.raw == 2 * (target.y.raw - old(cam).translation.y.raw),
        final(rb).velocity.z.raw == 2 * (target.z.raw - old(cam).translation.z.raw),
        final(ed).camera_scale_velocity.x.raw == 2 * (tscale.raw - old(cam).scale.x.raw),
        final(ed).camera_scale_velocity.y.raw == 2 * (tscale.raw - old(cam).scale.y.raw),
        final(ed).camera_scale_velocity.z.raw == 2 * (tscale.raw - old(cam).scale.z.raw),
        final(ed).row == old(ed).row,
        final(ed).column == old(ed).column,
        final(cam).wf(),
{
    let (vx, nx) = axis_step(cam.translation.x, target.x, dt);
    let (vy, ny) = axis_step(cam.translation.y, target.y, dt);
    let (vz, nz) = axis_step(cam.translation.z, target.z, dt);
    let (sx, mx) = axis_step(cam.scale.x, tscale, dt);
    let (sy, my) = axis_step(cam.scale.y, tscale, dt);
    let (sz, mz) = axis_step(cam.scale.z, tscale, dt);
    cam.translation = Fx3::new(nx, ny, nz);
    cam.scale = Fx3::new(mx, my, mz);
    rb.velocity = Fx3::new(vx, vy, vz);
    ed.camera_scale_velocity = Fx3::new(sx, sy, sz);
}

/// Computes the frame's camera target (translation and scale) from the
/// cursor's pixel position, the camera's current x scale, the viewport
/// width and the longest line's character count.
pub fn camera_target(cursor: Fx3, scale_x: Fx, w: Fx, maxlen: usize) -> (r: (Fx3, Fx))
    requires
        0 <= w.raw <= MAX_WIDTH_RAW,
        maxlen <= MAX_COLS,
    ensures
        r.0.x.raw == target_x_raw(w.raw as int, maxlen as int, scale_x.raw as int, cursor.x.raw as int),
        r.0.y == cursor.y,
        r.0.z.raw == 0,
        r.1.raw == target_scale_raw(w.raw as int, maxlen as int),
        0 <= r.1.raw <= MAX_ZOOM_RAW,
        0 <= cursor.x.raw <= CAM_LIMIT ==> 0 <= r.0.x.raw <= CAM_LIMIT,
{
    let tx: Fx;
    let ts: Fx;
    if maxlen == 0 {
        ts = Fx::from_raw(3_000_000);
        tx = cursor.x;
    } else {
        proof {
            lemma_tdiv_between_zero_and_x(w.raw as int * 1_000_000, 3_000_000);
        }
        let w3 = w.div_pos(Fx::from_raw(3_000_000));
        proof {
            lemma_div_is_ordered(
                w.raw as int * 1_000_000,
                1_000_000_000_000_000_000,
                3_000_000,
            );
            assert(w3.raw <= 333_333_333_333);
            lemma_tdiv_between_zero_and_x(maxlen as int * 1_000_000 * 750_000, 1_000_000);
        }
        let ml = Fx::from_units(maxlen as i64);
        let denom = ml.mul(Fx::from_raw(750_000));
        proof {
            assert(maxlen as int * 1_000_000 * 750_000 == 1_000_000 * (maxlen as int
                * 750_000));
            vstd::arithmetic::div_mod::lemma_div_multiples_vanish(
                maxlen as int * 750_000,
                1_000_000,
            );
            assert(denom.raw == maxlen as int * 750_000);
            lemma_tdiv_between_zero_and_x(w3.raw as int * 1_000_000, denom.raw as int);
        }
        let raw_ts = w3.div_pos(denom);
        if raw_ts.raw > 3_000_000 {
            ts = Fx::from_raw(3_000_000);
            tx = cursor.x;
        } else {
            ts = raw_ts;
            let m: Fx;
            if scale_x.raw > 0 {
                proof {
                    lemma_tdiv_between_zero_and_x(w3.raw as int * 1_000_000, scale_x.raw as int);
                }
                m = w3.div_pos(scale_x);
            } else {
                m = Fx::zero();
            }
            tx = if cursor.x.raw >= m.raw {
                cursor.x
            } else {
                m
            };
        }
    }
    (Fx3::new(tx, cursor.y, Fx::zero()), ts)
}

/// One whole frame, in a fixed order: apply at most one cursor move from
/// the held keys, resolve the moved cursor's pixel position, compute the
/// camera target from it, advance the transform toward that target, and
/// finally zero the stored translation velocity if no directional key is
/// held (the scale velocity keeps its value: the deliberate asymmetry).
pub fn update_frame(
    ed: &mut TextEditor,
    rb: &mut RigidBody,
    cam: &mut Transform,
    buf: &TextBuffer,
    w: Fx,
    dt: Fx,
    keys: ArrowKeys,
)
    requires
        buf.wf(),
        old(ed).in_buffer(buf@),
        old(cam).wf(),
        0 <= w.raw <= MAX_WIDTH_RAW,
        0 <= dt.raw <= MAX_DT_RAW,
    ensures
        final(ed).row == nav_row(old(ed).row as int, buf@.len() as int, keys),
        final(ed).column == nav_col(
            old(ed).column as int,
            buf@[old(ed).row as int].len() as int,
            keys,
        ),
        final(ed).in_buffer(buf@),
        final(cam).wf(),
        ({
            let nr = nav_row(old(ed).row as int, buf@.len() as int, keys);
            let nc = nav_col(old(ed).column as int, buf@[old(ed).row as int].len() as int, keys);
            let cx = cursor_x_raw(nc, buf@[nr].len() as int);
            let cy = cursor_y_raw(nr);
            let ml = max_line_len_of(buf@);
            let tx = target_x_raw(w.raw as int, ml, old(cam).scale.x.raw as int, cx);
            let ts = target_scale_raw(w.raw as int, ml);
            let d = dt.raw as int;
            &&& final(cam).translation.x.raw == step_toward(old(cam).translation.x.raw as int, tx, d)
            &&& final(cam).translation.y.raw == step_toward(old(cam).translation.y.raw as int, cy, d)
            &&& final(cam).translation.z.raw == step_toward(old(cam).translation.z.raw as int, 0, d)
            &&& final(cam).scale.x.raw == step_toward(old(cam).scale.x.raw as int, ts, d)
            &&& final(cam).scale.y.raw == step_toward(old(cam).scale.y.raw as int, ts, d)
            &&& final(cam).scale.z.raw == step_toward(old(cam).scale.z.raw as int, ts, d)
            &&& final(ed).camera_scale_velocity.x.raw == 2 * (ts - old(cam).scale.x.raw)
            &&& final(ed).camera_scale_velocity.y.raw == 2 * (ts - old(cam).scale.y.raw)
            &&& final(ed).camera_scale_velocity.z.raw == 2 * (ts - old(cam).scale.z.raw)
            &&& final(rb).velocity.x.raw == (if keys.any() {
                2 * (tx - old(cam).translation.x.raw)
            } else {
                0
            })
            &&& final(rb).velocity.y.raw == (if keys.any() {
                2 * (cy - old(cam).translation.y.raw)
            } else {
                0
            })
            &&& final(rb).velocity.z.raw == (if keys.any() {
                2 * (0 - old(cam).translation.z.raw)
            } else {
                0
            })
        }),
{
    ed.navigate(buf, keys);
    let maxlen = buf.max_line_len();
    proof {
        lemma_max_line_len_is_bound(buf@);
    }
    let cpos = ed.pixel_position(buf);
    let (target, tscale) = camera_target(cpos, cam.scale.x, w, maxlen);
    follow_step(cam, rb, ed, target, tscale, dt);
    if !keys.any_pressed() {
        rb.velocity = Fx3::zero();
    }
}

} // verus!
