use crate::state::{EventType, Rect, State};
use vstd::prelude::*;

verus! {

/// The sign used by square-forcing: `1` for a positive value, `-1` otherwise
/// (zero counts as negative).
pub open spec fn sign(v: int) -> int {
    if v > 0 {
        1
    } else {
        -1
    }
}

/// Horizontal coordinate of the live corner once the box anchored at
/// `(x0, y0)` and dragged to `(x, y)` is forced square: the horizontal extent
/// takes the length of the vertical one, added when the drag goes the same
/// way on both axes and subtracted otherwise (no movement counts as negative).
pub open spec fn forced_x(x0: int, y0: int, x: int, y: int) -> int {
    if (x > x0) == (y > y0) {
        x0 + (y - y0)
    } else {
        x0 - (y - y0)
    }
}

/// The smaller of two integers.
pub open spec fn min_int(a: int, b: int) -> int {
    if a <= b {
        a
    } else {
        b
    }
}

/// The larger of two integers.
pub open spec fn max_int(a: int, b: int) -> int {
    if a <= b {
        b
    } else {
        a
    }
}

/// The square selection, in canvas pixels with `top <= bottom`, spanned by
/// the anchor `(x0, y0)` and the square-forced live corner for `(x, y)`.
pub open spec fn selection_spec(x0: int, y0: int, x: int, y: int) -> Rect<int> {
    let xf = forced_x(x0, y0, x, y);
    Rect { top: min_int(y0, y), bottom: max_int(y0, y), left: min_int(x0, xf), right: max_int(x0, xf) }
}

/// A pixel rectangle read as one over mathematical integers.
pub open spec fn rect_int(r: Rect<i64>) -> Rect<int> {
    Rect { top: r.top as int, bottom: r.bottom as int, left: r.left as int, right: r.right as int }
}

/// `forced_x` as a product of signs: `x0 + sign(x - x0) * sign(y - y0) * (y - y0)`.
pub proof fn lemma_forced_x_by_signs(x0: int, y0: int, x: int, y: int)
    ensures
        forced_x(x0, y0, x, y) == x0 + sign(x - x0) * sign(y - y0) * (y - y0),
{
    let d = y - y0;
    if x > x0 {
        if y > y0 {
            assert(sign(x - x0) * sign(y - y0) == 1);
        } else {
            assert(sign(x - x0) * sign(y - y0) == -1);
        }
    } else {
        if y > y0 {
            assert(sign(x - x0) * sign(y - y0) == -1);
        } else {
            assert(sign(x - x0) * sign(y - y0) == 1);
        }
    }
    assert(1 * d == d && -1 * d == -d);
}

/// Square-forces the live corner of a drag anchored at `(x0, y0)`: returns
/// the new horizontal coordinate, which lies as far from `x0` as `y` lies
/// from `y0`.
pub fn force_square(x0: i32, y0: i32, x: i32, y: i32) -> (r: i64)
    ensures
        r == forced_x(x0 as int, y0 as int, x as int, y as int),
        r == x0 + sign(x - x0) * sign(y - y0) * (y - y0),
        r - x0 == y - y0 || r - x0 == y0 - y,
{
    proof {
        lemma_forced_x_by_signs(x0 as int, y0 as int, x as int, y as int);
    }
    let dy: i64 = y as i64 - y0 as i64;
    if (x > x0) == (y > y0) {
        x0 as i64 + dy
    } else {
        x0 as i64 - dy
    }
}

/// The selection box of a drag, normalised so that `left <= right` and
/// `top <= bottom` whichever of the four diagonal directions the drag took.
pub fn selection_rect(x0: i32, y0: i32, x: i32, y: i32) -> (r: Rect<i64>)
    ensures
        rect_int(r) == selection_spec(x0 as int, y0 as int, x as int, y as int),
        r.left <= r.right,
        r.top <= r.bottom,
        r.right - r.left == r.bottom - r.top,
{
    let xf: i64 = force_square(x0, y0, x, y);
    let (left, right) = if (x0 as i64) <= xf {
        (x0 as i64, xf)
    } else {
        (xf, x0 as i64)
    };
    let (top, bottom) = if y0 <= y {
        (y0 as i64, y as i64)
    } else {
        (y as i64, y0 as i64)
    };
    Rect { top, bottom, left, right }
}

/// What the host does after an event.
#[derive(Clone, Copy, Debug, PartialEq, Eq, Structural)]
pub enum Action {
    /// Nothing to draw.
    Nothing,
    /// Redraw the last rendered image, then outline the square with corners
    /// `(anchor_x, anchor_y)` and `(corner_x, corner_y)`.
    DrawSelection { anchor_x: i64, anchor_y: i64, corner_x: i64, corner_y: i64 },
    /// Remap this pixel rectangle (`left < right`, `top < bottom`) through
    /// the current complex view, make it the new view, and re-render.
    Zoom(Rect<i64>),
}

/// One step of the selection state machine: the next state and the action
/// for `event` at canvas pixel `(x, y)`.
///
/// A completing click level with the anchor would select an empty box; it
/// cancels the selection instead and leaves the view as it is.
pub open spec fn transition(s: State, event: EventType, x: i32, y: i32) -> (State, Action) {
    match s {
        State::Idle => match event {
            EventType::Click => (State::Selecting { anchor_x: x, anchor_y: y }, Action::Nothing),
            EventType::Move => (State::Idle, Action::Nothing),
        },
        State::Selecting { anchor_x, anchor_y } => match event {
            EventType::Move => (
                s,
                Action::DrawSelection {
                    anchor_x: anchor_x as i64,
                    anchor_y: anchor_y as i64,
                    corner_x: forced_x(anchor_x as int, anchor_y as int, x as int, y as int) as i64,
                    corner_y: y as i64,
                },
            ),
            EventType::Click => if y == anchor_y {
                (State::Idle, Action::Nothing)
            } else {
                let r = selection_spec(anchor_x as int, anchor_y as int, x as int, y as int);
                (
                    State::Idle,
                    Action::Zoom(
                        Rect {
                            top: r.top as i64,
                            bottom: r.bottom as i64,
                            left: r.left as i64,
                            right: r.right as i64,
                        },
                    ),
                )
            },
        },
    }
}

/// Holds the selection state between pointer events.
pub struct ViewController {
    pub state: State,
}

impl ViewController {
    /// A controller waiting for the first click of a selection.
    pub fn new() -> (r: ViewController)
        ensures
            r.state == State::Idle,
    {
        ViewController { state: State::Idle }
    }

    /// Feeds one pointer event at canvas pixel `(x, y)` to the state machine
    /// and returns what the host should draw.
    pub fn handle(&mut self, event: EventType, x: i32, y: i32) -> (a: Action)
        ensures
            (final(self).state, a) == transition(old(self).state, event, x, y),
    {
        match self.state {
            State::Idle => match event {
                EventType::Click => {
                    self.state = State::Selecting { anchor_x: x, anchor_y: y };
                    Action::Nothing
                },
                EventType::Move => Action::Nothing,
            },
            State::Selecting { anchor_x, anchor_y } => match event {
                EventType::Move => {
                    let corner_x: i64 = force_square(anchor_x, anchor_y, x, y);
                    Action::DrawSelection {
                        anchor_x: anchor_x as i64,
                        anchor_y: anchor_y as i64,
                        corner_x,
                        corner_y: y as i64,
                    }
                },
                EventType::Click => {
                    self.state = State::Idle;
                    if y == anchor_y {
                        Action::Nothing
                    } else {
                        Action::Zoom(selection_rect(anchor_x, anchor_y, x, y))
                    }
                },
            },
        }
    }
}

/// Every zoom the state machine asks for is a non-empty square in canvas
/// pixels with `left < right` and `top < bottom`, whatever the direction of
/// the drag.
pub proof fn lemma_zoom_rect_ordered(s: State, event: EventType, x: i32, y: i32)
    ensures
        match transition(s, event, x, y).1 {
            Action::Zoom(r) => r.left < r.right && r.top < r.bottom && r.right - r.left
                == r.bottom - r.top,
            _ => true,
        },
{
}

/// On a square canvas of side `size`, a drag from the top-left corner to the
/// bottom-right corner selects the whole canvas, so completing it maps the
/// current view onto itself.
pub proof fn lemma_full_canvas_drag_selects_canvas(size: i32)
    requires
        size > 0,
    ensures
        transition(State::Selecting { anchor_x: 0, anchor_y: 0 }, EventType::Click, size, size)
            == (State::Idle, Action::Zoom(Rect { top: 0, bottom: size as i64, left: 0, right: size as i64 })),
{
}

/// A click, a move, and a second click away from the anchor's row leave the
/// controller idle, with an outline drawn at the move and a zoom at the
/// second click.
pub proof fn lemma_click_move_click(x0: i32, y0: i32, x1: i32, y1: i32, x2: i32, y2: i32)
    requires
        y2 != y0,
    ensures
        ({
            let (s1, a1) = transition(State::Idle, EventType::Click, x0, y0);
            let (s2, a2) = transition(s1, EventType::Move, x1, y1);
            let (s3, a3) = transition(s2, EventType::Click, x2, y2);
            &&& a1 == Action::Nothing
            &&& a2 is DrawSelection
            &&& a3 is Zoom
            &&& s3 == State::Idle
        }),
{
}

} // verus!
