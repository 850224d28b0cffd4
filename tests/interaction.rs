use transform_gizmo::interaction::{pick_closest, FrameStep, InteractionState, SubGizmoStatus};

fn active_count(s: &InteractionState) -> usize {
    (0..s.len()).filter(|&i| s.status(i).active).count()
}

#[test]
fn pick_closest_prefers_smaller_distance() {
    assert_eq!(pick_closest(&vec![Some(7), Some(3)]), Some(1));
    assert_eq!(pick_closest(&vec![Some(3), Some(7)]), Some(0));
    assert_eq!(pick_closest(&vec![None, Some(9), None, Some(2), Some(5)]), Some(3));
}

#[test]
fn pick_closest_tie_goes_to_first_and_is_stable() {
    let hits = vec![None, Some(4), Some(4), Some(6)];
    assert_eq!(pick_closest(&hits), Some(1));
    assert_eq!(pick_closest(&hits), Some(1));
}

#[test]
fn pick_closest_without_hits() {
    assert_eq!(pick_closest(&vec![]), None);
    assert_eq!(pick_closest(&vec![None, None]), None);
}

#[test]
fn hover_focuses_closest_without_dragging() {
    let mut s = InteractionState::new(3);
    let step = s.frame(&vec![Some(5), Some(2), None], false, false);
    assert_eq!(step, FrameStep { drive: None, started: false });
    assert_eq!(s.active(), None);
    assert!(s.any_focused());
    assert_eq!(s.status(1), SubGizmoStatus { focused: true, active: false });
    assert_eq!(s.status(0), SubGizmoStatus { focused: false, active: false });
}

#[test]
fn idle_frames_repeat_without_effect() {
    let mut s = InteractionState::new(2);
    let hits = vec![None, Some(1)];
    let first = s.frame(&hits, false, false);
    let after_first = s.clone();
    for _ in 0..3 {
        let step = s.frame(&hits, false, false);
        assert_eq!(step, first);
        assert_eq!(step.drive, None);
        assert_eq!(s, after_first);
    }
}

#[test]
fn drag_gesture_drives_then_releases() {
    // One X-axis subgizmo under the pointer.
    let mut s = InteractionState::new(1);
    let step = s.frame(&vec![Some(0)], true, true);
    assert_eq!(step, FrameStep { drive: Some(0), started: true });
    assert_eq!(s.active(), Some(0));
    assert!(s.is_dragging());
    assert_eq!(s.status(0), SubGizmoStatus { focused: true, active: true });

    // The pointer has moved away; the drag still holds the subgizmo.
    let step = s.frame(&vec![None], false, true);
    assert_eq!(step, FrameStep { drive: Some(0), started: false });
    assert_eq!(s.active(), Some(0));

    let step = s.frame(&vec![None], false, false);
    assert_eq!(step, FrameStep { drive: None, started: false });
    assert_eq!(s.active(), None);
    assert_eq!(s.status(0), SubGizmoStatus { focused: false, active: false });
    assert!(!s.any_focused());
}

#[test]
fn drag_started_on_empty_space_does_nothing() {
    let mut s = InteractionState::new(2);
    let step = s.frame(&vec![None, None], true, true);
    assert_eq!(step, FrameStep { drive: None, started: false });
    assert_eq!(s.active(), None);
}

#[test]
fn at_most_one_active_across_frames() {
    let mut s = InteractionState::new(3);
    let frames = [
        (vec![Some(3), Some(1), Some(2)], true, true),
        (vec![Some(0), Some(9), Some(2)], true, true),
        (vec![Some(0), None, None], false, false),
        (vec![Some(0), None, None], true, true),
        (vec![None, Some(0), None], true, true),
        (vec![None, None, Some(0)], false, false),
    ];
    let expected_active = [Some(1), Some(1), None, Some(0), Some(0), None];
    for (k, (hits, started, dragging)) in frames.iter().enumerate() {
        s.frame(hits, *started, *dragging);
        assert!(active_count(&s) <= 1);
        assert_eq!(s.active(), expected_active[k]);
    }
}

#[test]
fn drawing_suppresses_others_during_drag() {
    let mut s = InteractionState::new(3);
    assert!(s.is_drawn(0) && s.is_drawn(1) && s.is_drawn(2));
    s.frame(&vec![None, Some(1), None], true, true);
    assert!(!s.is_drawn(0));
    assert!(s.is_drawn(1));
    assert!(!s.is_drawn(2));
}
