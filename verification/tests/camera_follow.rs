use ted::camera::{camera_target, update_frame, RigidBody, Transform};
use ted::cursor::{ArrowKeys, TextEditor};
use ted::fixed::{Fx, Fx3};
use ted::text::TextBuffer;

fn buffer(lines: &[&str]) -> TextBuffer {
    TextBuffer::new(lines.iter().map(|s| s.to_string()).collect())
}

fn no_keys() -> ArrowKeys {
    ArrowKeys::none()
}

const DT_60FPS: i64 = 16_666;

#[test]
fn fx_addition_and_subtraction_are_exact() {
    let a = Fx::from_units(2);
    let b = Fx::from_raw(500_000);
    assert_eq!(a.add(b).raw, 2_500_000);
    assert_eq!(a.sub(b).raw, 1_500_000);
}

#[test]
fn fx_multiplication_is_exact() {
    let a = Fx::from_units(2);
    let b = Fx::from_units(3);
    assert_eq!(a.mul(b).raw, 6_000_000);
}

#[test]
fn fx_division_truncates() {
    let one = Fx::from_units(1);
    let three = Fx::from_units(3);
    assert_eq!(one.div_pos(three).raw, 333_333);
}

#[test]
fn fx_multiplication_truncates_toward_zero() {
    let tiny = Fx::from_raw(-1);
    let one = Fx::from_units(1);
    assert_eq!(tiny.mul(one).raw, -1);
    let half = Fx::from_raw(500_000);
    assert_eq!(tiny.mul(half).raw, 0);
}

#[test]
fn wide_viewport_clamps_scale_and_centers_cursor() {
    // viewport 900 px, longest line 10: 900/3/(10*0.75) = 40, clamped to 3;
    // the target translation is the raw cursor position.
    let cursor = Fx3::new(Fx::zero(), Fx::from_raw(-9_000_000), Fx::zero());
    let (target, tscale) = camera_target(
        cursor,
        Fx::from_units(3),
        Fx::from_units(900),
        10,
    );
    assert_eq!(tscale.raw, 3_000_000);
    assert_eq!(target.x.raw, 0);
    assert_eq!(target.y.raw, -9_000_000);
    assert_eq!(target.z.raw, 0);
}

#[test]
fn narrow_viewport_takes_scroll_branch() {
    // viewport 90 px, longest line 50: 90/3/(50*0.75) = 0.8, no clamp; the
    // cursor at column 0 sits left of the margin 90/3/3 = 10, so the target
    // x is the margin itself.
    let cursor = Fx3::new(Fx::zero(), Fx::from_raw(-9_000_000), Fx::zero());
    let (target, tscale) = camera_target(
        cursor,
        Fx::from_units(3),
        Fx::from_units(90),
        50,
    );
    assert_eq!(tscale.raw, 800_000);
    assert_eq!(target.x.raw, 10_000_000);
    assert_eq!(target.y.raw, -9_000_000);
}

#[test]
fn scroll_branch_follows_cursor_beyond_margin() {
    // Cursor at column 40: x = 720, far right of the margin 10, so the
    // target x is the cursor itself.
    let cursor = Fx3::new(Fx::from_raw(40 * 18_000_000), Fx::from_raw(-9_000_000), Fx::zero());
    let (target, tscale) = camera_target(
        cursor,
        Fx::from_units(3),
        Fx::from_units(90),
        50,
    );
    assert_eq!(tscale.raw, 800_000);
    assert_eq!(target.x.raw, 40 * 18_000_000);
}

#[test]
fn empty_longest_line_is_treated_as_clamped() {
    let cursor = Fx3::new(Fx::zero(), Fx::from_raw(-9_000_000), Fx::zero());
    let (target, tscale) = camera_target(
        cursor,
        Fx::from_units(3),
        Fx::from_units(900),
        0,
    );
    assert_eq!(tscale.raw, 3_000_000);
    assert_eq!(target.x.raw, 0);
}

#[test]
fn zero_scale_margin_degenerates_to_cursor() {
    let cursor = Fx3::new(Fx::from_raw(36_000_000), Fx::from_raw(-9_000_000), Fx::zero());
    let (target, tscale) = camera_target(
        cursor,
        Fx::zero(),
        Fx::from_units(90),
        50,
    );
    assert_eq!(tscale.raw, 800_000);
    assert_eq!(target.x.raw, 36_000_000);
}

#[test]
fn frame_at_target_is_stable() {
    // Camera already at its target (clamped branch): repeated frames with
    // no input change nothing at all.
    let b = buffer(&["hi"]);
    let mut ed = TextEditor::new();
    let mut rb = RigidBody::new();
    let mut cam = Transform::initial();
    cam.translation = Fx3::new(Fx::zero(), Fx::from_raw(-9_000_000), Fx::zero());
    for _ in 0..3 {
        update_frame(
            &mut ed,
            &mut rb,
            &mut cam,
            &b,
            Fx::from_units(900),
            Fx::from_raw(DT_60FPS),
            no_keys(),
        );
        assert_eq!(cam.translation.x.raw, 0);
        assert_eq!(cam.translation.y.raw, -9_000_000);
        assert_eq!(cam.translation.z.raw, 0);
        assert_eq!(cam.scale.x.raw, 3_000_000);
        assert_eq!(cam.scale.y.raw, 3_000_000);
        assert_eq!(cam.scale.z.raw, 3_000_000);
        assert_eq!(rb.velocity.y.raw, 0);
    }
}

#[test]
fn released_keys_zero_stored_velocity_after_motion() {
    // With no key held the transform still advances by the velocity
    // computed this frame, but the stored velocity is zeroed afterwards,
    // and stays zero at the start of the next frame.
    let b = buffer(&["hi"]);
    let mut ed = TextEditor::new();
    let mut rb = RigidBody::new();
    let mut cam = Transform::initial();
    update_frame(
        &mut ed,
        &mut rb,
        &mut cam,
        &b,
        Fx::from_units(900),
        Fx::from_raw(DT_60FPS),
        no_keys(),
    );
    // 2 * (-9_000_000 - 0) * 16_666 / 1_000_000, truncated.
    assert_eq!(cam.translation.y.raw, -299_988);
    assert_eq!(rb.velocity.x.raw, 0);
    assert_eq!(rb.velocity.y.raw, 0);
    assert_eq!(rb.velocity.z.raw, 0);
    update_frame(
        &mut ed,
        &mut rb,
        &mut cam,
        &b,
        Fx::from_units(900),
        Fx::from_raw(DT_60FPS),
        no_keys(),
    );
    assert_eq!(cam.translation.y.raw, -299_988 - 289_988);
    assert_eq!(rb.velocity.y.raw, 0);
}

#[test]
fn held_key_keeps_stored_velocity() {
    // The cursor moves first, so the camera chases the post-move position:
    // Right from column 0 puts the target x at 18 units this same frame.
    let b = buffer(&["hi"]);
    let mut ed = TextEditor::new();
    let mut rb = RigidBody::new();
    let mut cam = Transform::initial();
    let right = ArrowKeys { left: false, right: true, up: false, down: false };
    update_frame(
        &mut ed,
        &mut rb,
        &mut cam,
        &b,
        Fx::from_units(900),
        Fx::from_raw(DT_60FPS),
        right,
    );
    assert_eq!(ed.column, 1);
    assert_eq!(rb.velocity.x.raw, 2 * (18_000_000 - 0));
    assert_eq!(rb.velocity.y.raw, 2 * (-9_000_000 - 0));
    // 2 * 18_000_000 * 16_666 / 1_000_000, truncated.
    assert_eq!(cam.translation.x.raw, 599_976);
}

#[test]
fn scale_velocity_is_not_zeroed_on_release() {
    // The stored scale velocity keeps its computed value even with no key
    // held, unlike the translation velocity: the deliberate asymmetry.
    let b = buffer(&["hi"]);
    let mut ed = TextEditor::new();
    let mut rb = RigidBody::new();
    let mut cam = Transform::initial();
    cam.scale = Fx3::splat(Fx::from_raw(2_000_000));
    update_frame(
        &mut ed,
        &mut rb,
        &mut cam,
        &b,
        Fx::from_units(900),
        Fx::from_raw(DT_60FPS),
        no_keys(),
    );
    assert_eq!(ed.camera_scale_velocity.x.raw, 2 * (3_000_000 - 2_000_000));
    assert_eq!(rb.velocity.y.raw, 0);
}

#[test]
fn scale_moves_toward_clamped_target() {
    let b = buffer(&["hi"]);
    let mut ed = TextEditor::new();
    let mut rb = RigidBody::new();
    let mut cam = Transform::initial();
    cam.scale = Fx3::splat(Fx::from_raw(2_000_000));
    update_frame(
        &mut ed,
        &mut rb,
        &mut cam,
        &b,
        Fx::from_units(900),
        Fx::from_raw(DT_60FPS),
        no_keys(),
    );
    // 2_000_000 + 2 * 1_000_000 * 16_666 / 1_000_000 = 2_033_332.
    assert_eq!(cam.scale.x.raw, 2_033_332);
}

#[test]
fn startup_transform_matches_initial_values() {
    let cam = Transform::initial();
    assert_eq!(cam.translation.x.raw, 0);
    assert_eq!(cam.scale.x.raw, 3_000_000);
    let rb = RigidBody::new();
    assert_eq!(rb.velocity.x.raw, 0);
}
