use vstd::prelude::*;

use crate::geometry::{Position, Size};

verus! {

/// Window width assumed when the live outer size cannot be read.
pub const FALLBACK_WIDTH: u32 = 400;

/// Window height assumed when the live outer size cannot be read.
pub const FALLBACK_HEIGHT: u32 = 280;

/// Gap kept between the window's bottom edge and the display's bottom edge.
pub const BOTTOM_MARGIN: u32 = 60;

/// The tunable parameters of the initial placement.
#[derive(Clone, Copy, Debug, PartialEq, Eq, Structural)]
pub struct PlacementPolicy {
    /// Size used in place of the window's own size when that size is unknown.
    pub fallback: Size,
    /// Distance from the bottom of the display to the bottom of the window.
    pub bottom_margin: u32,
}

/// What startup placement decided: move the window, or leave it where the toolkit put it.
#[derive(Clone, Copy, Debug, PartialEq, Eq, Structural)]
pub enum Placement {
    MoveTo(Position),
    Unchanged,
}

/// Integer halving that rounds toward zero, as machine division does.
pub open spec fn half_toward_zero(v: int) -> int {
    if v >= 0 {
        v / 2
    } else {
        -((-v) / 2)
    }
}

/// Horizontal coordinate that centres a window of size `w` on a display of size `d`.
pub open spec fn centered_x(d: Size, w: Size) -> int {
    half_toward_zero(d.width - w.width)
}

/// Vertical coordinate that puts the window's bottom edge `margin` pixels above the display's.
pub open spec fn anchored_y(d: Size, w: Size, margin: int) -> int {
    d.height - w.height - margin
}

/// The window size used by placement: the live one when known, else the fallback.
pub open spec fn effective_size(live: Option<Size>, fallback: Size) -> Size {
    match live {
        Some(s) => s,
        None => fallback,
    }
}

/// The position placement computes for a display and a window size.
pub open spec fn target_of(policy: PlacementPolicy, display: Size, window: Size) -> Position {
    Position {
        x: centered_x(display, window) as i64,
        y: anchored_y(display, window, policy.bottom_margin as int) as i64,
    }
}

/// The whole startup decision, from what could be read of the monitor and the window.
pub open spec fn plan_of(
    policy: PlacementPolicy,
    monitor: Option<Size>,
    live: Option<Size>,
) -> Placement {
    match monitor {
        Some(d) => Placement::MoveTo(target_of(policy, d, effective_size(live, policy.fallback))),
        None => Placement::Unchanged,
    }
}

/// Where the window stands once a plan has been carried out; a refused move leaves it in place.
pub open spec fn settled_of(before: Position, plan: Placement, move_accepted: bool) -> Position {
    match plan {
        Placement::MoveTo(p) => if move_accepted {
            p
        } else {
            before
        },
        Placement::Unchanged => before,
    }
}

/// The policy of a small utility window: 400 by 280 fallback, 60 pixels above the bottom.
pub open spec fn standard_policy() -> PlacementPolicy {
    PlacementPolicy {
        fallback: Size { width: FALLBACK_WIDTH, height: FALLBACK_HEIGHT },
        bottom_margin: BOTTOM_MARGIN,
    }
}

impl PlacementPolicy {
    /// The policy of a small utility window: 400 by 280 fallback, 60 pixels above the bottom.
    pub fn standard() -> (r: PlacementPolicy)
        ensures
            r == standard_policy(),
    {
        PlacementPolicy {
            fallback: Size { width: FALLBACK_WIDTH, height: FALLBACK_HEIGHT },
            bottom_margin: BOTTOM_MARGIN,
        }
    }
}

/// Centre the window horizontally and anchor it near the bottom of the display.
/// Nothing is clamped: a window larger than the display gets negative coordinates.
pub fn placement_position(display: Size, window: Size, bottom_margin: u32) -> (r: Position)
    ensures
        r.x == centered_x(display, window),
        r.y == anchored_y(display, window, bottom_margin as int),
{
    let x: i64 = if display.width >= window.width {
        ((display.width - window.width) / 2) as i64
    } else {
        -(((window.width - display.width) / 2) as i64)
    };
    let y: i64 = display.height as i64 - window.height as i64 - bottom_margin as i64;
    Position { x, y }
}

/// The live window size when it could be read, otherwise the fallback.
pub fn window_size_or(live: Option<Size>, fallback: Size) -> (r: Size)
    ensures
        r == effective_size(live, fallback),
{
    match live {
        Some(s) => s,
        None => fallback,
    }
}

/// Decide the startup placement. Without a monitor nothing is guessed and the window stays.
pub fn plan_placement(policy: PlacementPolicy, monitor: Option<Size>, live: Option<Size>) -> (r:
    Placement)
    ensures
        r == plan_of(policy, monitor, live),
{
    match monitor {
        Some(display) => {
            let window = window_size_or(live, policy.fallback);
            Placement::MoveTo(placement_position(display, window, policy.bottom_margin))
        },
        None => Placement::Unchanged,
    }
}

/// The window's position after the plan ran, given whether the toolkit accepted the move.
pub fn settled_position(before: Position, plan: Placement, move_accepted: bool) -> (r: Position)
    ensures
        r == settled_of(before, plan, move_accepted),
{
    match plan {
        Placement::MoveTo(p) => if move_accepted {
            p
        } else {
            before
        },
        Placement::Unchanged => before,
    }
}

/// When the window fits on the display, the standard placement centres it horizontally
/// (halving the spare width) and leaves 60 pixels below it.
pub proof fn lemma_fitting_window_placement(display: Size, window: Size)
    requires
        window.width <= display.width,
        window.height <= display.height,
    ensures
        plan_of(standard_policy(), Some(display), Some(window)) is MoveTo,
        plan_of(standard_policy(), Some(display), Some(window))->MoveTo_0.x == (display.width
            - window.width) / 2,
        plan_of(standard_policy(), Some(display), Some(window))->MoveTo_0.y == display.height
            - window.height - 60,
{
}

/// Without a monitor, placement decides nothing and the window ends where it started,
/// whatever the window's size and whatever the toolkit would have done with a move.
pub proof fn lemma_no_monitor_keeps_position(
    policy: PlacementPolicy,
    live: Option<Size>,
    before: Position,
    move_accepted: bool,
)
    ensures
        plan_of(policy, None, live) == Placement::Unchanged,
        settled_of(before, plan_of(policy, None, live), move_accepted) == before,
{
}

/// When the window's size cannot be read, the standard placement is the one of a
/// 400 by 280 window, on any display.
pub proof fn lemma_unknown_size_uses_fallback(display: Size)
    ensures
        plan_of(standard_policy(), Some(display), None) == plan_of(
            standard_policy(),
            Some(display),
            Some(Size { width: 400, height: 280 }),
        ),
        plan_of(standard_policy(), Some(display), None) is MoveTo,
        plan_of(standard_policy(), Some(display), None)->MoveTo_0.x == half_toward_zero(
            display.width - 400,
        ),
        plan_of(standard_policy(), Some(display), None)->MoveTo_0.y == display.height - 280 - 60,
{
}

} // verus!
