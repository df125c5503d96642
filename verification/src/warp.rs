//! Pointer-warp planning: from the current display list and pointer
//! sample, decide whether to move the pointer at all, and if so where to
//! put it and which click events to post afterwards.
//!
//! The surrounding binary samples the pointer, carries out the warp, and
//! posts the events; everything it does is decided here first, so a
//! failure before the warp can never leave a click behind.

use vstd::prelude::*;

use crate::geometry::Point;
use crate::geometry::Rect;
use crate::ring::all_wf;
use crate::ring::is_first_hit;
use crate::ring::next_display;
use crate::ring::ring_step;

verus! {

/// What one invocation should do to the pointer.
#[derive(Clone, Copy, PartialEq, Eq, Structural, Debug)]
pub enum WarpDecision {
    /// Exactly one display: there is nowhere else to go, so the
    /// invocation succeeds with the pointer left where it is and no
    /// click posted.
    Stay,
    /// No displays at all, a failed pointer sample, or a pointer that
    /// no display's bounds contain: the whole action is abandoned with
    /// no effect.
    NoTarget,
    /// Move the pointer to `target`, then post a click there when
    /// `click` is set.
    Warp { target: Point, click: bool },
}

/// A synthetic mouse event to post, in order, after a warp.
#[derive(Clone, Copy, PartialEq, Eq, Structural, Debug)]
pub enum MouseEventKind {
    LeftDown,
    LeftUp,
}

/// One synthetic input event: a button transition at a point.
#[derive(Clone, Copy, PartialEq, Eq, Structural, Debug)]
pub struct MouseEvent {
    pub kind: MouseEventKind,
    pub at: Point,
}

/// Decide one warp invocation from plain values: the displays the system
/// reported, the sampled pointer position (`None` when sampling failed),
/// the direction, and whether a focus click was requested.
pub fn plan_warp(displays: &Vec<Rect>, pointer: Option<Point>, forward: bool, click: bool) -> (d:
    WarpDecision)
    requires
        all_wf(displays@),
    ensures
        d is Stay <==> displays@.len() == 1,
        displays@.len() == 0 ==> d is NoTarget,
        displays@.len() >= 2 && pointer is None ==> d is NoTarget,
        displays@.len() >= 2 && pointer is Some ==> ((d is NoTarget) <==> forall|k: int|
            0 <= k < displays@.len() ==> !(#[trigger] displays@[k]).spec_contains(
                pointer->Some_0,
            )),
        d matches WarpDecision::Warp { target, click: c } ==> {
            &&& c == click
            &&& pointer is Some
            &&& exists|i: int|
                #[trigger] is_first_hit(displays@, pointer->Some_0, i) && target == displays@[
                    ring_step(i, displays@.len() as int, forward)
                ].spec_mid_point()
        },
{
    if displays.len() == 1 {
        return WarpDecision::Stay;
    }
    match pointer {
        None => WarpDecision::NoTarget,
        Some(p) => match next_display(displays, p, forward) {
            None => WarpDecision::NoTarget,
            Some(bounds) => WarpDecision::Warp { target: bounds.mid_point(), click },
        },
    }
}

/// The events of one focus click: a left-button press followed by a
/// left-button release, both at the clicked point, in that order.
pub fn click_plan(p: Point) -> (events: Vec<MouseEvent>)
    ensures
        events@.len() == 2,
        events@[0] == (MouseEvent { kind: MouseEventKind::LeftDown, at: p }),
        events@[1] == (MouseEvent { kind: MouseEventKind::LeftUp, at: p }),
{
    let mut events: Vec<MouseEvent> = Vec::new();
    events.push(MouseEvent { kind: MouseEventKind::LeftDown, at: p });
    events.push(MouseEvent { kind: MouseEventKind::LeftUp, at: p });
    events
}

} // verus!
