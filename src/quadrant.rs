//! Which half of the screen, per axis, the window's center lies in, decided
//! with a hysteresis band around the midline.

use vstd::prelude::*;

use crate::placement::{left_of, top_of, Size, WindowPlacement};

verus! {

/// Half-width in pixels of the band around the screen midline inside which
/// the classification keeps its previous answer.
pub const HYSTERESIS_PX: i64 = 50;

/// The half of the screen, per axis, that holds the window's center.
#[derive(Clone, Copy, Debug, PartialEq, Eq, Structural)]
pub struct Quadrant {
    pub right_half: bool,
    pub bottom_half: bool,
}

/// One axis: whether the center is in the far (right or bottom) half, given
/// the previous answer. The far half is left only at `mid - H` or below, and
/// entered only at `mid + H` or above.
pub open spec fn next_half(prev_far: bool, center: int, mid: int) -> bool {
    if prev_far {
        center > mid - HYSTERESIS_PX
    } else {
        center >= mid + HYSTERESIS_PX
    }
}

/// Horizontal coordinate of the window's center.
pub open spec fn center_x(p: WindowPlacement, window: Size, screen: Size) -> int {
    left_of(p, window, screen) + window.width as int / 2
}

/// Vertical coordinate of the window's center.
pub open spec fn center_y(p: WindowPlacement, window: Size, screen: Size) -> int {
    top_of(p, window, screen) + window.height as int / 2
}

/// The quadrant of a placed window, each axis classified on its own.
pub open spec fn classified(prev: Quadrant, p: WindowPlacement, window: Size, screen: Size) -> Quadrant {
    Quadrant {
        right_half: next_half(prev.right_half, center_x(p, window, screen), screen.width as int / 2),
        bottom_half: next_half(prev.bottom_half, center_y(p, window, screen), screen.height as int / 2),
    }
}

/// The answer on one axis after the center visits `centers` in turn.
pub open spec fn half_after(prev_far: bool, centers: Seq<int>, mid: int) -> bool
    decreases centers.len(),
{
    if centers.len() == 0 {
        prev_far
    } else {
        half_after(next_half(prev_far, centers[0], mid), centers.drop_first(), mid)
    }
}

fn next_half_exec(prev_far: bool, center: i64, mid: i64) -> (r: bool)
    requires
        -0x1_0000_0000_0000 <= mid <= 0x1_0000_0000_0000,
    ensures
        r == next_half(prev_far, center as int, mid as int),
{
    if prev_far {
        center > mid - HYSTERESIS_PX
    } else {
        center >= mid + HYSTERESIS_PX
    }
}

/// Classifies the window's quadrant against the previous one, each axis with
/// the hysteresis band of `HYSTERESIS_PX`.
pub fn classify(prev: Quadrant, placement: &WindowPlacement, window: Size, screen: Size) -> (r: Quadrant)
    ensures
        r == classified(prev, *placement, window, screen),
{
    let left = placement.left(window, screen);
    let top = placement.top(window, screen);
    let cx = left + (window.width / 2) as i64;
    let cy = top + (window.height / 2) as i64;
    Quadrant {
        right_half: next_half_exec(prev.right_half, cx, (screen.width / 2) as i64),
        bottom_half: next_half_exec(prev.bottom_half, cy, (screen.height / 2) as i64),
    }
}

/// While the center stays strictly within `HYSTERESIS_PX` of the midline, one
/// axis keeps its previous answer, whatever sequence of positions it visits.
pub proof fn lemma_stable_inside_band(prev_far: bool, centers: Seq<int>, mid: int)
    requires
        forall|i: int| 0 <= i < centers.len() ==> mid - HYSTERESIS_PX < #[trigger] centers[i] < mid
            + HYSTERESIS_PX,
    ensures
        half_after(prev_far, centers, mid) == prev_far,
    decreases centers.len(),
{
    if centers.len() > 0 {
        let rest = centers.drop_first();
        assert forall|i: int| 0 <= i < rest.len() implies mid - HYSTERESIS_PX < #[trigger] rest[i]
            < mid + HYSTERESIS_PX by {
            assert(rest[i] == centers[i + 1]);
        }
        lemma_stable_inside_band(next_half(prev_far, centers[0], mid), rest, mid);
    }
}

/// A window whose center lies strictly within `HYSTERESIS_PX` of the midline
/// on an axis keeps that axis's half.
pub proof fn lemma_quadrant_stable_inside_band(prev: Quadrant, p: WindowPlacement, window: Size, screen: Size)
    ensures
        screen.width as int / 2 - HYSTERESIS_PX < center_x(p, window, screen) < screen.width as int / 2
            + HYSTERESIS_PX ==> classified(prev, p, window, screen).right_half == prev.right_half,
        screen.height as int / 2 - HYSTERESIS_PX < center_y(p, window, screen) < screen.height as int
            / 2 + HYSTERESIS_PX ==> classified(prev, p, window, screen).bottom_half == prev.bottom_half,
{
}

/// One move of the center to `HYSTERESIS_PX + 1` beyond the midline decides
/// the half on that side, whatever the previous answer was.
pub proof fn lemma_flips_beyond_band(prev_far: bool, mid: int)
    ensures
        next_half(prev_far, mid + HYSTERESIS_PX + 1, mid),
        !next_half(prev_far, mid - HYSTERESIS_PX - 1, mid),
{
}

} // verus!
