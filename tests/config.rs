use transform_gizmo::config::{
    effective_orientation, is_local_space, rotates_in_local_frame, AxisConfig, GizmoDirection,
    GizmoMode, GizmoModes, GizmoOrientation, GizmoVisibility, TransformPivotPoint,
};

#[test]
fn axis_config_default_enables_everything() {
    let c = AxisConfig::default();
    assert!(c.is_active(GizmoDirection::X));
    assert!(c.is_active(GizmoDirection::Y));
    assert!(c.is_active(GizmoDirection::Z));
    assert!(c.is_active(GizmoDirection::View));
}

#[test]
fn axis_config_is_active_reads_each_flag() {
    let c = AxisConfig { x: true, y: false, z: false, view: true };
    assert!(c.is_active(GizmoDirection::X));
    assert!(!c.is_active(GizmoDirection::Y));
    assert!(!c.is_active(GizmoDirection::Z));
    assert!(c.is_active(GizmoDirection::View));
    let d = AxisConfig { x: false, y: true, z: true, view: false };
    assert!(!d.is_active(GizmoDirection::X));
    assert!(d.is_active(GizmoDirection::Y));
    assert!(d.is_active(GizmoDirection::Z));
    assert!(!d.is_active(GizmoDirection::View));
}

#[test]
fn visibility_default_shows_all() {
    let v = GizmoVisibility::default();
    assert_eq!(v.translation_arrow, AxisConfig::default());
    assert_eq!(v.translation_plane, AxisConfig::default());
    assert_eq!(v.scaling_arrow, AxisConfig::default());
    assert_eq!(v.scaling_plane, AxisConfig::default());
    assert_eq!(v.rotation_arc, AxisConfig::default());
    assert!(v.rotation_arc_ball);
}

#[test]
fn enum_defaults() {
    assert_eq!(TransformPivotPoint::default(), TransformPivotPoint::MedianPoint);
    assert_eq!(GizmoOrientation::default(), GizmoOrientation::Global);
}

#[test]
fn modes_set_operations() {
    let mut m = GizmoModes::default();
    assert!(m.is_empty());
    assert_eq!(m.len(), 0);
    assert!(m.to_vec().is_empty());
    m.insert(GizmoMode::Scale);
    m.insert(GizmoMode::Rotate);
    m.insert(GizmoMode::Scale);
    assert_eq!(m.len(), 2);
    assert!(!m.is_empty());
    assert!(m.contains(GizmoMode::Rotate));
    assert!(!m.contains(GizmoMode::Translate));
    assert!(m.contains(GizmoMode::Scale));
    assert_eq!(m.to_vec(), vec![GizmoMode::Rotate, GizmoMode::Scale]);
    let only = GizmoModes::only(GizmoMode::Translate);
    assert_eq!(only.len(), 1);
    assert_eq!(only.to_vec(), vec![GizmoMode::Translate]);
}

#[test]
fn scale_forces_local_orientation() {
    let rotate = GizmoModes::only(GizmoMode::Rotate);
    assert_eq!(effective_orientation(&rotate, GizmoOrientation::Global), GizmoOrientation::Global);
    assert_eq!(effective_orientation(&rotate, GizmoOrientation::Local), GizmoOrientation::Local);
    assert!(!is_local_space(&rotate, GizmoOrientation::Global));
    let mut scale = GizmoModes::only(GizmoMode::Translate);
    scale.insert(GizmoMode::Scale);
    assert_eq!(effective_orientation(&scale, GizmoOrientation::Global), GizmoOrientation::Local);
    assert!(is_local_space(&scale, GizmoOrientation::Global));
}

#[test]
fn view_axis_rotation_stays_in_camera_frame() {
    let rotate = GizmoModes::only(GizmoMode::Rotate);
    assert!(rotates_in_local_frame(&rotate, GizmoOrientation::Local, false));
    assert!(!rotates_in_local_frame(&rotate, GizmoOrientation::Local, true));
    assert!(!rotates_in_local_frame(&rotate, GizmoOrientation::Global, false));
}
