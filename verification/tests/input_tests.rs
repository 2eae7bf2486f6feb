use render_cx::area::Area;
use render_cx::input::FocusChange;
use render_cx::input::HoverChange;
use render_cx::input::InputRouter;
use render_cx::pos::Pos;

fn router() -> InputRouter {
    InputRouter::new(500, 10)
}

#[test]
fn three_taps_within_threshold_then_reset() {
    let mut r = router();
    let p = Pos { x: 100, y: 50 };
    assert_eq!(r.on_press(0, p, p, 1000), 1);
    assert_eq!(r.on_press(0, p, p, 1300), 2);
    assert_eq!(r.on_press(0, p, p, 1700), 3);
    // The fourth press comes after the time threshold elapsed.
    assert_eq!(r.on_press(0, p, p, 2300), 1);
}

#[test]
fn tap_run_ends_when_position_moves() {
    let mut r = router();
    let p = Pos { x: 100, y: 50 };
    assert_eq!(r.on_press(0, p, p, 1000), 1);
    assert_eq!(r.on_press(0, Pos { x: 105, y: 55 }, p, 1100), 2);
    let far = Pos { x: 150, y: 50 };
    assert_eq!(r.on_press(0, far, far, 1200), 1);
}

#[test]
fn fingers_accumulate_taps_independently() {
    let mut r = router();
    let p = Pos { x: 0, y: 0 };
    assert_eq!(r.on_press(0, p, p, 1000), 1);
    assert_eq!(r.on_press(1, p, p, 1050), 1);
    assert_eq!(r.on_press(0, p, p, 1100), 2);
    assert_eq!(r.on_press(1, p, p, 1150), 2);
}

#[test]
fn press_records_down_positions() {
    let mut r = router();
    let abs = Pos { x: 30, y: 40 };
    let rel = Pos { x: 3, y: 4 };
    r.on_press(2, abs, rel, 500);
    let f = r.finger(2);
    assert_eq!(f.down_abs_start, abs);
    assert_eq!(f.down_rel_start, rel);
}

#[test]
fn capture_is_cleared_on_release() {
    let mut r = router();
    let target = Area::View { view_id: 4 };
    r.capture(0, target);
    assert_eq!(r.finger(0).captured, target);
    assert!(!r.finger(0).captured.is_empty());
    r.on_release(0);
    assert_eq!(r.finger(0).captured, Area::Empty);
    assert!(r.finger(0).captured.is_empty());
}

#[test]
fn hover_change_emits_enter_leave_against_previous_cycle() {
    let mut r = router();
    let v2 = Area::View { view_id: 2 };
    assert_eq!(
        r.on_move(0, v2),
        HoverChange::Changed { left: Area::Empty, entered: v2 }
    );
    r.end_hover_cycle();
    // Same target as the previous cycle: no notification.
    assert_eq!(r.on_move(0, v2), HoverChange::Unchanged);
    r.end_hover_cycle();
    let inst = Area::Instance { view_id: 2, instance_id: 7 };
    assert_eq!(r.on_move(0, inst), HoverChange::Changed { left: v2, entered: inst });
}

#[test]
fn focus_rotation_emits_one_pair_then_nothing() {
    let mut r = router();
    let b = Area::View { view_id: 1 };
    // previous == current == Empty, next == b.
    r.set_key_focus(b);
    let change = r.rotate_key_focus();
    assert_eq!(change, Some(FocusChange { lost: Area::Empty, gained: b }));
    assert_eq!(r.get_prev_key_focus(), Area::Empty);
    assert_eq!(r.get_key_focus(), b);
    // A second cycle with no further request emits nothing.
    assert_eq!(r.rotate_key_focus(), None);
    assert_eq!(r.get_key_focus(), b);
    assert_eq!(r.get_prev_key_focus(), Area::Empty);
}

#[test]
fn focus_moves_between_views_across_cycles() {
    let mut r = router();
    let a = Area::View { view_id: 1 };
    let b = Area::View { view_id: 2 };
    r.set_key_focus(a);
    assert_eq!(r.rotate_key_focus(), Some(FocusChange { lost: Area::Empty, gained: a }));
    r.set_key_focus(b);
    assert_eq!(r.rotate_key_focus(), Some(FocusChange { lost: a, gained: b }));
    assert_eq!(r.get_prev_key_focus(), a);
    assert_eq!(r.get_key_focus(), b);
    assert_eq!(r.rotate_key_focus(), None);
}

#[test]
fn drag_source_is_acknowledged_at_cycle_end() {
    let mut r = router();
    let src = Area::Instance { view_id: 3, instance_id: 1 };
    r.set_drag_source(src);
    assert_eq!(r.get_drag_area(), Area::Empty);
    r.end_drag_cycle();
    assert_eq!(r.get_drag_area(), src);
}
