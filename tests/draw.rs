use transform_gizmo::draw::GizmoDrawData;

fn lists(n: usize, indices: Vec<u32>) -> GizmoDrawData<(u32, u32), u8> {
    let mut d = GizmoDrawData::new();
    for k in 0..n {
        d.vertices.push((k as u32, k as u32));
        d.colors.push(k as u8);
    }
    d.indices = indices;
    d
}

#[test]
fn merge_rebases_second_indices() {
    let mut a = lists(3, vec![0, 1, 2]);
    let b = lists(2, vec![1, 0, 1]);
    a.add_assign(b);
    assert_eq!(a.vertices.len(), 5);
    assert_eq!(a.colors, vec![0, 1, 2, 0, 1]);
    assert_eq!(a.indices, vec![0, 1, 2, 4, 3, 4]);
    assert!(a.indices.iter().all(|&i| (i as usize) < a.vertices.len()));
}

#[test]
fn merge_into_empty_keeps_indices() {
    let a = lists(0, vec![]);
    let b = lists(3, vec![2, 1, 0]);
    let r = a.add(b);
    assert_eq!(r.indices, vec![2, 1, 0]);
    assert_eq!(r.vertices, vec![(0, 0), (1, 1), (2, 2)]);
}

#[test]
fn merge_with_empty_is_unchanged() {
    let a = lists(2, vec![0, 1, 1]);
    let r = a.add(GizmoDrawData::new());
    assert_eq!(r.indices, vec![0, 1, 1]);
    assert_eq!(r.vertices.len(), 2);
    assert_eq!(r.colors.len(), 2);
}
