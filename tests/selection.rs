use mandelbrot::{
    force_square, selection_rect, Action, EventType, Rect, State, ViewController, CANVAS_HEIGHT,
    CANVAS_WIDTH,
};

#[test]
fn force_square_keeps_vertical_extent_in_all_directions() {
    let anchor = (100, 100);
    for &(x, y) in &[(150, 130), (50, 130), (150, 70), (50, 70)] {
        let xf = force_square(anchor.0, anchor.1, x, y);
        assert_eq!((xf - anchor.0 as i64).abs(), (y as i64 - anchor.1 as i64).abs());
    }
}

#[test]
fn force_square_exact_values() {
    assert_eq!(force_square(100, 100, 150, 130), 130);
    assert_eq!(force_square(100, 100, 50, 130), 70);
    assert_eq!(force_square(100, 100, 150, 70), 130);
    assert_eq!(force_square(100, 100, 50, 70), 70);
}

#[test]
fn force_square_zero_horizontal_motion_counts_as_negative() {
    // dx == 0 is negative, dy > 0 positive: the box goes left
    assert_eq!(force_square(100, 100, 100, 120), 80);
    // a perfectly horizontal drag collapses onto the anchor
    assert_eq!(force_square(100, 100, 180, 100), 100);
}

#[test]
fn selection_rect_is_ordered_for_all_four_diagonals() {
    let expected = [
        ((150, 130), Rect { top: 100, bottom: 130, left: 100, right: 130 }),
        ((50, 130), Rect { top: 100, bottom: 130, left: 70, right: 100 }),
        ((150, 70), Rect { top: 70, bottom: 100, left: 100, right: 130 }),
        ((50, 70), Rect { top: 70, bottom: 100, left: 70, right: 100 }),
    ];
    for &((x, y), want) in &expected {
        let r = selection_rect(100, 100, x, y);
        assert_eq!(r, want);
        assert!(r.left <= r.right);
        assert!(r.top <= r.bottom);
        assert_eq!(r.right - r.left, r.bottom - r.top);
    }
}

#[test]
fn click_move_click_renders_once_and_draws_once() {
    let mut v = ViewController::new();
    let actions = [
        v.handle(EventType::Click, 10, 10),
        v.handle(EventType::Move, 20, 20),
        v.handle(EventType::Click, 30, 30),
    ];
    assert_eq!(v.state, State::Idle);
    let draws = actions.iter().filter(|a| matches!(a, Action::DrawSelection { .. })).count();
    let zooms = actions.iter().filter(|a| matches!(a, Action::Zoom(_))).count();
    assert_eq!(draws, 1);
    assert_eq!(zooms, 1);
    assert_eq!(actions[0], Action::Nothing);
    assert_eq!(
        actions[1],
        Action::DrawSelection { anchor_x: 10, anchor_y: 10, corner_x: 20, corner_y: 20 }
    );
    assert_eq!(actions[2], Action::Zoom(Rect { top: 10, bottom: 30, left: 10, right: 30 }));
}

#[test]
fn move_while_idle_does_nothing() {
    let mut v = ViewController::new();
    assert_eq!(v.handle(EventType::Move, 5, 5), Action::Nothing);
    assert_eq!(v.state, State::Idle);
}

#[test]
fn first_click_sets_anchor() {
    let mut v = ViewController::new();
    assert_eq!(v.handle(EventType::Click, 7, 9), Action::Nothing);
    assert_eq!(v.state, State::Selecting { anchor_x: 7, anchor_y: 9 });
    v.handle(EventType::Move, 40, 3);
    assert_eq!(v.state, State::Selecting { anchor_x: 7, anchor_y: 9 });
}

#[test]
fn click_on_anchor_row_cancels_without_zoom() {
    let mut v = ViewController::new();
    v.handle(EventType::Click, 50, 50);
    assert_eq!(v.handle(EventType::Click, 50, 50), Action::Nothing);
    assert_eq!(v.state, State::Idle);
    v.handle(EventType::Click, 50, 50);
    assert_eq!(v.handle(EventType::Click, 90, 50), Action::Nothing);
    assert_eq!(v.state, State::Idle);
}

#[test]
fn full_canvas_drag_selects_whole_canvas() {
    let w = CANVAS_WIDTH as i32;
    let h = CANVAS_HEIGHT as i32;
    let mut v = ViewController::new();
    v.handle(EventType::Click, 0, 0);
    let a = v.handle(EventType::Click, w, h);
    assert_eq!(
        a,
        Action::Zoom(Rect { top: 0, bottom: h as i64, left: 0, right: w as i64 })
    );
}

#[test]
fn up_left_drag_zoom_is_normalised() {
    let mut v = ViewController::new();
    v.handle(EventType::Click, 300, 300);
    let a = v.handle(EventType::Click, 100, 200);
    assert_eq!(a, Action::Zoom(Rect { top: 200, bottom: 300, left: 200, right: 300 }));
}
