use tube_segment::editor::{ControlPointEditor, DragState};
use tube_segment::vec::Vec3;

fn editor() -> ControlPointEditor {
    ControlPointEditor::new(
        Vec3::new(-10, 0, 10),
        Vec3::new(-10, 0, -10),
        Vec3::new(10, 0, -10),
        Vec3::new(10, 0, 10),
    )
}

#[test]
fn drag_session_moves_only_the_dragged_point() {
    // from Idle, a press on point 1 followed by update ticks moves point 1
    // to each successive intersection and leaves the others unchanged;
    // releasing returns to Idle and freezes the point
    let mut e = editor();
    assert_eq!(e.drag_state(), DragState::Idle);

    e.begin_drag(1);
    assert_eq!(e.drag_state(), DragState::Dragging { point: 1 });

    let stops = [Vec3::new(1, 2, 3), Vec3::new(-4, 5, -6), Vec3::new(7, 0, 7)];
    for p in stops {
        e.drag_to(p);
        assert_eq!(e.point(1), p);
        assert_eq!(e.drag_state(), DragState::Dragging { point: 1 });
    }
    assert_eq!(e.point(0), Vec3::new(-10, 0, 10));
    assert_eq!(e.point(2), Vec3::new(10, 0, -10));
    assert_eq!(e.point(3), Vec3::new(10, 0, 10));

    e.release();
    assert_eq!(e.drag_state(), DragState::Idle);
    assert_eq!(e.point(1), Vec3::new(7, 0, 7));
}

#[test]
fn updates_while_idle_change_nothing() {
    let mut e = editor();
    e.drag_to(Vec3::new(100, 100, 100));
    for i in 0..4 {
        assert_eq!(e.point(i), editor().point(i));
    }
    assert_eq!(e.drag_state(), DragState::Idle);
}

#[test]
fn at_most_one_point_drags_at_a_time() {
    let mut e = editor();
    e.begin_drag(0);
    // a press over another point during a drag does not switch the drag
    e.begin_drag(2);
    assert_eq!(e.drag_state(), DragState::Dragging { point: 0 });
    e.drag_to(Vec3::new(9, 9, 9));
    assert_eq!(e.point(0), Vec3::new(9, 9, 9));
    assert_eq!(e.point(2), Vec3::new(10, 0, -10));
}

#[test]
fn press_on_no_point_is_ignored() {
    let mut e = editor();
    e.begin_drag(4);
    assert_eq!(e.drag_state(), DragState::Idle);
}

#[test]
fn release_without_drag_is_harmless() {
    let mut e = editor();
    e.release();
    assert_eq!(e.drag_state(), DragState::Idle);
    for i in 0..4 {
        assert_eq!(e.point(i), editor().point(i));
    }
}
