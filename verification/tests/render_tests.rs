use mvisual::fixed::{div_fx, SCALE};
use mvisual::matrix::{identity, mat_eq};
use mvisual::projection::{
    build_sphere_mvp, get_3d_projection_matrix, perspective_matrix, transform_point, Z_FAR,
    Z_NEAR,
};
use mvisual::render::{
    graph_frame, model_rotation_angle, sphere_view_transform, SphereProgram, AMBIENT_DIM,
    HALF_FX, LIGHT_X, LIGHT_Z, ONE_FX, SPIN_DIVISOR, STRONG_FX,
};
use mvisual::sphere::generate_sphere;
use mvisual::state::AppState;

const S: i64 = 65536;

fn unit_sphere() -> mvisual::sphere::Sphere {
    let sin_v: Vec<i64> = vec![65536, 0, -65536];
    let cos_v: Vec<i64> = vec![0, 65536, 0];
    let sin_h: Vec<i64> = vec![0, 32768, -32768, 65536];
    generate_sphere(S, 0, &sin_v, &cos_v, &sin_h)
}

#[test]
fn spin_angle_after_three_seconds_is_two_radians() {
    // 3000 ms divided by the 1500 ms spin divisor: exactly 2.
    assert_eq!(SPIN_DIVISOR, 1500);
    let mut state = AppState::new();
    let r = state.advance(3000 * S, 480 * S, 640 * S);
    assert!(r.is_ok());
    let angle = model_rotation_angle(state.time);
    assert_eq!(angle, 2 * S);
}

#[test]
fn spin_angle_truncates_like_its_divisor() {
    assert_eq!(model_rotation_angle(0), 0);
    assert_eq!(model_rotation_angle(1500 * S), S);
    assert_eq!(model_rotation_angle(750 * S), S / 2);
    assert_eq!(model_rotation_angle(-1500 * S), -S);
}

#[test]
fn pole_point_projects_onto_the_view_axis() {
    // Identity model and view: the pole at (0, 0, radius) keeps clip
    // x and y at exactly zero for any radius and focal scalar.
    let id_model = identity();
    let id_view = identity();
    let f = 95000;
    let aspect = div_fx(640 * S, 480 * S);
    let (mv, mvp) = build_sphere_mvp(&id_model, &id_view, f, aspect, Z_NEAR, Z_FAR);
    assert!(mat_eq(&mv, &identity()));
    for radius in [S / 2, S, 3 * S, 100 * S] {
        let (cx, cy, _, _) = transform_point(&mvp, 0, 0, radius);
        assert_eq!(cx, 0);
        assert_eq!(cy, 0);
    }
}

#[test]
fn perspective_matrix_layout() {
    let f = 65536;
    let aspect = div_fx(640 * S, 480 * S);
    let p = perspective_matrix(f, aspect, Z_NEAR, Z_FAR);
    assert_eq!(p.e[0], div_fx(f, aspect));
    assert_eq!(p.e[5], f);
    assert_eq!(p.e[11], -S);
    assert_eq!(p.e[15], 0);
    // The off-diagonal entries of the first two columns stay zero.
    for k in [1, 2, 3, 4, 6, 7, 8, 9, 12, 13] {
        assert_eq!(p.e[k], 0);
    }
}

#[test]
fn sphere_frame_carries_the_lighting_constants() {
    let program = SphereProgram::new(unit_sphere(), identity(), false);
    let frame = program.render_frame(S, 0, S, S);
    assert_eq!(frame.diffuse_light_color, [ONE_FX, ONE_FX, ONE_FX]);
    assert_eq!(frame.diffuse_light_position, [LIGHT_X, HALF_FX, LIGHT_Z]);
    assert_eq!(frame.opacity, ONE_FX);
    assert_eq!(
        frame.solid.ambient_light_color,
        [AMBIENT_DIM, AMBIENT_DIM, AMBIENT_DIM]
    );
    assert_eq!(frame.solid.material_color, [HALF_FX, HALF_FX, STRONG_FX]);
    assert!(frame.wire.is_none());
}

#[test]
fn wireframe_pass_appears_only_when_enabled() {
    let with_wire = SphereProgram::new(unit_sphere(), identity(), true);
    let frame = with_wire.render_frame(S, 0, S, S);
    let wire = frame.wire.expect("wireframe pass expected");
    assert_eq!(wire.ambient_light_color, [ONE_FX, ONE_FX, ONE_FX]);
    assert_eq!(wire.material_color, [HALF_FX, STRONG_FX, HALF_FX]);
    let without = SphereProgram::new(unit_sphere(), identity(), false);
    assert!(without.render_frame(S, 0, S, S).wire.is_none());
}

#[test]
fn unrotated_frame_reduces_to_the_perspective() {
    // Identity model and view, no spin: the solid pass's model/view is
    // the identity and its projection is the bare perspective.
    let program = SphereProgram::new(unit_sphere(), identity(), false);
    let aspect = div_fx(640 * S, 480 * S);
    let f = 90000;
    let frame = program.render_frame(S, 0, f, aspect);
    assert!(mat_eq(&frame.solid.model_view, &identity()));
    let p = perspective_matrix(f, aspect, Z_NEAR, Z_FAR);
    assert!(mat_eq(&frame.solid.model_view_projection, &p));
}

#[test]
fn view_transform_carries_the_camera_offset() {
    // No rotation: the view is the bare camera translation, so its
    // storage holds the z offset in the translation slot.
    let v = sphere_view_transform(S, 0);
    assert_eq!(v.e[14], -163840);
    assert_eq!(v.e[0], S);
    assert_eq!(v.e[5], S);
    assert_eq!(v.e[10], S);
}

#[test]
fn graph_frame_builds_a_projection_for_a_sane_viewport() {
    let mut state = AppState::new();
    assert!(state.advance(0, 480 * S, 640 * S).is_ok());
    state.control_bottom = 0;
    state.control_top = 480 * S;
    state.control_left = 0;
    state.control_right = 640 * S;
    let frame = graph_frame(&state, S, 0, S, 0, S).expect("projection expected");
    assert_eq!(frame.opacity, ONE_FX);
    let direct = get_3d_projection_matrix(0, 480 * S, 0, 640 * S, 480 * S, 640 * S, S, 0, S, 0, S)
        .expect("projection expected");
    assert!(mat_eq(&frame.projection, &direct));
}

#[test]
fn grid_projection_keeps_the_camera_offset() {
    // With no rotation, the last storage entry of the uploaded grid
    // matrix is the negated camera plane: the viewport translation
    // stays in the fourth column instead of leaking into the w row.
    let p = get_3d_projection_matrix(0, 480 * S, 0, 640 * S, 480 * S, 640 * S, S, 0, S, 0, S)
        .expect("projection expected");
    assert_eq!(p.e[15], 163840);
    // An unshifted full-canvas viewport has no x translation at all...
    assert_eq!(p.e[12], 0);
    // ...and dragging its left edge moves the x translation term.
    let shifted =
        get_3d_projection_matrix(0, 480 * S, 100 * S, 640 * S, 480 * S, 640 * S, S, 0, S, 0, S)
            .expect("projection expected");
    assert_eq!(shifted.e[15], 163840);
    assert_eq!(shifted.e[12], 7680);
}

#[test]
fn grid_projection_scales_with_the_viewport() {
    // A viewport half the canvas height halves the generic scale, and
    // the resulting projection differs.
    let p_full = get_3d_projection_matrix(0, 480 * S, 0, 640 * S, 480 * S, 640 * S, S, 0, S, 0, S)
        .expect("projection expected");
    let p_half = get_3d_projection_matrix(0, 240 * S, 0, 640 * S, 480 * S, 640 * S, S, 0, S, 0, S)
        .expect("projection expected");
    assert!(!mat_eq(&p_full, &p_half));
}
