use mouse_mover::click_plan;
use mouse_mover::display_under;
use mouse_mover::next_display;
use mouse_mover::next_index;
use mouse_mover::plan_warp;
use mouse_mover::MouseEvent;
use mouse_mover::MouseEventKind;
use mouse_mover::Point;
use mouse_mover::Rect;
use mouse_mover::WarpDecision;

fn two_displays() -> Vec<Rect> {
    vec![
        Rect { x: 0, y: 0, width: 1000, height: 800 },
        Rect { x: 1000, y: 0, width: 1000, height: 800 },
    ]
}

#[test]
fn ring_wraps_forward_at_last_index() {
    assert_eq!(next_index(2, 3, true), 0);
    assert_eq!(next_index(1, 2, true), 0);
}

#[test]
fn ring_wraps_backward_at_first_index() {
    assert_eq!(next_index(0, 3, false), 2);
    assert_eq!(next_index(0, 2, false), 1);
}

#[test]
fn ring_steps_inside_the_range() {
    assert_eq!(next_index(0, 3, true), 1);
    assert_eq!(next_index(1, 3, true), 2);
    assert_eq!(next_index(2, 3, false), 1);
    assert_eq!(next_index(1, 3, false), 0);
}

#[test]
fn display_under_finds_the_containing_display() {
    let displays = two_displays();
    assert_eq!(display_under(&displays, Point { x: 400, y: 400 }), Some(0));
    assert_eq!(display_under(&displays, Point { x: 1400, y: 400 }), Some(1));
}

#[test]
fn display_under_reports_nothing_outside_all_bounds() {
    let displays = two_displays();
    assert_eq!(display_under(&displays, Point { x: 2500, y: 400 }), None);
    assert_eq!(display_under(&displays, Point { x: 400, y: 900 }), None);
}

#[test]
fn display_bounds_are_half_open() {
    let displays = two_displays();
    // the left and top edges belong to a display, the right and bottom do not
    assert_eq!(display_under(&displays, Point { x: 0, y: 0 }), Some(0));
    assert_eq!(display_under(&displays, Point { x: 1000, y: 0 }), Some(1));
    assert_eq!(display_under(&displays, Point { x: 2000, y: 0 }), None);
    assert_eq!(display_under(&displays, Point { x: 400, y: 800 }), None);
}

#[test]
fn next_display_returns_the_ring_neighbor() {
    let displays = two_displays();
    let p = Point { x: 400, y: 400 };
    assert_eq!(
        next_display(&displays, p, true),
        Some(Rect { x: 1000, y: 0, width: 1000, height: 800 })
    );
    assert_eq!(
        next_display(&displays, p, false),
        Some(Rect { x: 1000, y: 0, width: 1000, height: 800 })
    );
    let q = Point { x: 1400, y: 400 };
    assert_eq!(
        next_display(&displays, q, true),
        Some(Rect { x: 0, y: 0, width: 1000, height: 800 })
    );
}

#[test]
fn next_display_needs_two_displays() {
    let one = vec![Rect { x: 0, y: 0, width: 1000, height: 800 }];
    assert_eq!(next_display(&one, Point { x: 400, y: 400 }, true), None);
    let none: Vec<Rect> = Vec::new();
    assert_eq!(next_display(&none, Point { x: 400, y: 400 }, true), None);
}

#[test]
fn next_display_fails_when_pointer_is_nowhere() {
    let displays = two_displays();
    assert_eq!(next_display(&displays, Point { x: -1, y: 0 }, true), None);
}

#[test]
fn mid_point_is_origin_plus_half_size() {
    let r = Rect { x: 1000, y: 0, width: 1000, height: 800 };
    assert_eq!(r.mid_point(), Point { x: 1500, y: 400 });
    let odd = Rect { x: 10, y: 20, width: 5, height: 7 };
    assert_eq!(odd.mid_point(), Point { x: 12, y: 23 });
    let negative_origin = Rect { x: -1000, y: -500, width: 1000, height: 500 };
    assert_eq!(negative_origin.mid_point(), Point { x: -500, y: -250 });
}

#[test]
fn warp_with_one_display_stays_put() {
    let one = vec![Rect { x: 0, y: 0, width: 1000, height: 800 }];
    let p = Some(Point { x: 400, y: 400 });
    assert_eq!(plan_warp(&one, p, true, true), WarpDecision::Stay);
    assert_eq!(plan_warp(&one, p, true, false), WarpDecision::Stay);
    assert_eq!(plan_warp(&one, p, false, true), WarpDecision::Stay);
    assert_eq!(plan_warp(&one, p, false, false), WarpDecision::Stay);
}

#[test]
fn warp_with_no_displays_aborts() {
    // an empty display list is a failure, not a success no-op
    let none: Vec<Rect> = Vec::new();
    let p = Some(Point { x: 400, y: 400 });
    assert_eq!(plan_warp(&none, p, true, true), WarpDecision::NoTarget);
    assert_eq!(plan_warp(&none, p, false, false), WarpDecision::NoTarget);
    assert_eq!(plan_warp(&none, None, true, true), WarpDecision::NoTarget);
}

#[test]
fn warp_aborts_without_a_pointer_sample() {
    let displays = two_displays();
    assert_eq!(plan_warp(&displays, None, true, true), WarpDecision::NoTarget);
}

#[test]
fn warp_aborts_when_no_display_holds_the_pointer() {
    let displays = two_displays();
    let lost = Some(Point { x: 5000, y: 5000 });
    assert_eq!(plan_warp(&displays, lost, true, true), WarpDecision::NoTarget);
}

#[test]
fn warp_end_to_end_example() {
    // displays side by side, pointer on the first, going forward:
    // the target is the second display and the warp point its midpoint
    let displays = two_displays();
    let p = Some(Point { x: 400, y: 400 });
    assert_eq!(
        plan_warp(&displays, p, true, true),
        WarpDecision::Warp { target: Point { x: 1500, y: 400 }, click: true }
    );
    assert_eq!(
        plan_warp(&displays, p, true, false),
        WarpDecision::Warp { target: Point { x: 1500, y: 400 }, click: false }
    );
}

#[test]
fn click_plan_is_press_then_release() {
    let p = Point { x: 1500, y: 400 };
    let events = click_plan(p);
    assert_eq!(events.len(), 2);
    assert_eq!(events[0], MouseEvent { kind: MouseEventKind::LeftDown, at: p });
    assert_eq!(events[1], MouseEvent { kind: MouseEventKind::LeftUp, at: p });
}
