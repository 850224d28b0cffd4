use transform_gizmo::config::{
    AxisConfig, GizmoDirection, GizmoMode, GizmoModes, GizmoVisibility,
};
use transform_gizmo::layout::{add_scale, build_subgizmos, needs_rebuild, SubGizmoKind, TransformKind};

use GizmoDirection::{View, X, Y, Z};
use TransformKind::{Axis, Plane};

#[test]
fn rotation_layout_has_arcs_then_arcball() {
    let modes = GizmoModes::only(GizmoMode::Rotate);
    let r = build_subgizmos(&modes, &GizmoVisibility::default());
    assert_eq!(
        r,
        vec![
            SubGizmoKind::Rotation(X),
            SubGizmoKind::Rotation(Y),
            SubGizmoKind::Rotation(Z),
            SubGizmoKind::Rotation(View),
            SubGizmoKind::Arcball,
        ]
    );
}

#[test]
fn rotation_layout_respects_flags() {
    let modes = GizmoModes::only(GizmoMode::Rotate);
    let mut vis = GizmoVisibility::default();
    vis.rotation_arc = AxisConfig { x: false, y: true, z: false, view: false };
    vis.rotation_arc_ball = false;
    assert_eq!(build_subgizmos(&modes, &vis), vec![SubGizmoKind::Rotation(Y)]);
}

#[test]
fn translation_layout_alone_has_planes() {
    let modes = GizmoModes::only(GizmoMode::Translate);
    let r = build_subgizmos(&modes, &GizmoVisibility::default());
    assert_eq!(
        r,
        vec![
            SubGizmoKind::Translation(X, Axis),
            SubGizmoKind::Translation(Y, Axis),
            SubGizmoKind::Translation(Z, Axis),
            SubGizmoKind::Translation(View, Plane),
            SubGizmoKind::Translation(X, Plane),
            SubGizmoKind::Translation(Y, Plane),
            SubGizmoKind::Translation(Z, Plane),
        ]
    );
}

#[test]
fn scale_layout_alone_has_uniform_handle_and_planes() {
    let modes = GizmoModes::only(GizmoMode::Scale);
    let r = build_subgizmos(&modes, &GizmoVisibility::default());
    assert_eq!(
        r,
        vec![
            SubGizmoKind::Scale(X, Axis),
            SubGizmoKind::Scale(Y, Axis),
            SubGizmoKind::Scale(Z, Axis),
            SubGizmoKind::Scale(View, Plane),
            SubGizmoKind::Scale(X, Plane),
            SubGizmoKind::Scale(Y, Plane),
            SubGizmoKind::Scale(Z, Plane),
        ]
    );
}

#[test]
fn translate_and_scale_drop_planes_and_uniform_handle() {
    let mut modes = GizmoModes::only(GizmoMode::Translate);
    modes.insert(GizmoMode::Scale);
    let r = build_subgizmos(&modes, &GizmoVisibility::default());
    assert_eq!(
        r,
        vec![
            SubGizmoKind::Translation(X, Axis),
            SubGizmoKind::Translation(Y, Axis),
            SubGizmoKind::Translation(Z, Axis),
            SubGizmoKind::Translation(View, Plane),
            SubGizmoKind::Scale(X, Axis),
            SubGizmoKind::Scale(Y, Axis),
            SubGizmoKind::Scale(Z, Axis),
        ]
    );
}

#[test]
fn all_modes_in_iteration_order() {
    let mut modes = GizmoModes::only(GizmoMode::Scale);
    modes.insert(GizmoMode::Rotate);
    let r = build_subgizmos(&modes, &GizmoVisibility::default());
    assert_eq!(r.len(), 5 + 3 + 3);
    assert_eq!(r[0], SubGizmoKind::Rotation(X));
    assert_eq!(r[4], SubGizmoKind::Arcball);
    assert_eq!(r[5], SubGizmoKind::Scale(X, Axis));
    assert_eq!(r[8], SubGizmoKind::Scale(X, Plane));
}

#[test]
fn scale_planes_follow_translation_plane_flags() {
    let modes = GizmoModes::only(GizmoMode::Scale);
    let mut vis = GizmoVisibility::default();
    vis.translation_plane = AxisConfig { x: false, y: false, z: true, view: false };
    vis.scaling_plane = AxisConfig { x: false, y: false, z: false, view: false };
    vis.scaling_arrow = AxisConfig { x: false, y: false, z: false, view: false };
    assert_eq!(build_subgizmos(&modes, &vis), vec![SubGizmoKind::Scale(Z, Plane)]);
}

#[test]
fn no_modes_no_subgizmos() {
    let modes = GizmoModes::default();
    assert!(build_subgizmos(&modes, &GizmoVisibility::default()).is_empty());
}

#[test]
fn rebuild_only_on_change() {
    let modes = GizmoModes::only(GizmoMode::Rotate);
    let vis = GizmoVisibility::default();
    assert!(!needs_rebuild(&modes, &vis, &modes, &vis));
    let other = GizmoModes::only(GizmoMode::Scale);
    assert!(needs_rebuild(&modes, &vis, &other, &vis));
    let mut vis2 = vis;
    vis2.rotation_arc_ball = false;
    assert!(needs_rebuild(&modes, &vis, &modes, &vis2));
}

#[test]
fn uniform_scale_handle_needs_scale_mode() {
    let mut list = Vec::new();
    add_scale(&mut list, &GizmoModes::only(GizmoMode::Rotate), &GizmoVisibility::default());
    assert!(!list.contains(&SubGizmoKind::Scale(View, Plane)));
    let mut list = Vec::new();
    add_scale(&mut list, &GizmoModes::only(GizmoMode::Scale), &GizmoVisibility::default());
    assert!(list.contains(&SubGizmoKind::Scale(View, Plane)));
}
