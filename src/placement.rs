//! The anchor-margin model: a window position stored as a margin from one
//! anchored edge on each axis.

use vstd::prelude::*;

verus! {

/// Width and height of a window or a screen, in pixels.
#[derive(Clone, Copy, Debug, PartialEq, Eq, Structural)]
pub struct Size {
    pub width: u32,
    pub height: u32,
}

/// Where the window sits: a margin from the anchored edge of each axis.
/// `anchored_right == false` measures from the left edge, and
/// `anchored_bottom == false` from the top edge.
#[derive(Clone, Copy, Debug, PartialEq, Eq, Structural)]
pub struct WindowPlacement {
    pub margin_horizontal: i32,
    pub margin_vertical: i32,
    pub anchored_right: bool,
    pub anchored_bottom: bool,
}

/// A screen edge a layer surface can be anchored to.
#[derive(Clone, Copy, Debug, PartialEq, Eq, Structural)]
pub enum Edge {
    Left,
    Right,
    Top,
    Bottom,
}

/// One instruction to the windowing layer.
#[derive(Clone, Copy, Debug, PartialEq, Eq, Structural)]
pub enum LayerDirective {
    /// Bind (or unbind) the window to an edge.
    Anchor { edge: Edge, anchored: bool },
    /// Distance from an anchored edge.
    Margin { edge: Edge, pixels: i32 },
}

/// A width or height that the windowing layer can express (it counts in `i32`).
pub open spec fn size_wf(s: Size) -> bool {
    s.width <= i32::MAX && s.height <= i32::MAX
}

/// Margins are never negative.
pub open spec fn placement_wf(p: WindowPlacement) -> bool {
    p.margin_horizontal >= 0 && p.margin_vertical >= 0
}

/// A margin as stored: below zero becomes zero, above `i32::MAX` becomes `i32::MAX`.
pub open spec fn clamp_margin(v: int) -> int {
    if v < 0 {
        0
    } else if v > i32::MAX {
        i32::MAX as int
    } else {
        v
    }
}

/// Coordinate of the near (left or top) edge of a window of `extent` pixels,
/// held `margin` pixels from the near edge of the screen, or from the far edge
/// when `anchored_far`.
pub open spec fn near_edge(margin: int, anchored_far: bool, extent: int, screen: int) -> int {
    if anchored_far {
        screen - margin - extent
    } else {
        margin
    }
}

/// Left coordinate of the window on the screen.
pub open spec fn left_of(p: WindowPlacement, window: Size, screen: Size) -> int {
    near_edge(p.margin_horizontal as int, p.anchored_right, window.width as int, screen.width as int)
}

/// Top coordinate of the window on the screen.
pub open spec fn top_of(p: WindowPlacement, window: Size, screen: Size) -> int {
    near_edge(p.margin_vertical as int, p.anchored_bottom, window.height as int, screen.height as int)
}

/// The margin on one axis after the anchor moves from `from_far` to `to_far`:
/// the same when the anchor stays, else measured from the opposite edge.
pub open spec fn rebased_margin(margin: int, from_far: bool, to_far: bool, extent: int, screen: int) -> int {
    if from_far == to_far {
        margin
    } else {
        clamp_margin(screen - margin - extent)
    }
}

/// The placement after rebasing onto new anchors.
pub open spec fn rebased(
    p: WindowPlacement,
    anchored_right: bool,
    anchored_bottom: bool,
    window: Size,
    screen: Size,
) -> WindowPlacement {
    WindowPlacement {
        margin_horizontal: rebased_margin(
            p.margin_horizontal as int,
            p.anchored_right,
            anchored_right,
            window.width as int,
            screen.width as int,
        ) as i32,
        margin_vertical: rebased_margin(
            p.margin_vertical as int,
            p.anchored_bottom,
            anchored_bottom,
            window.height as int,
            screen.height as int,
        ) as i32,
        anchored_right,
        anchored_bottom,
    }
}

/// The edge a horizontal margin is measured from.
pub open spec fn horizontal_edge(anchored_right: bool) -> Edge {
    if anchored_right { Edge::Right } else { Edge::Left }
}

/// The edge a vertical margin is measured from.
pub open spec fn vertical_edge(anchored_bottom: bool) -> Edge {
    if anchored_bottom { Edge::Bottom } else { Edge::Top }
}

/// Anchors and margin of the horizontal axis: bound to exactly one of left
/// and right, with the margin on that edge.
pub open spec fn horizontal_directives(p: WindowPlacement) -> Seq<LayerDirective> {
    seq![
        LayerDirective::Anchor { edge: Edge::Left, anchored: !p.anchored_right },
        LayerDirective::Anchor { edge: Edge::Right, anchored: p.anchored_right },
        LayerDirective::Margin { edge: horizontal_edge(p.anchored_right), pixels: p.margin_horizontal },
    ]
}

/// Anchors and margin of the vertical axis.
pub open spec fn vertical_directives(p: WindowPlacement) -> Seq<LayerDirective> {
    seq![
        LayerDirective::Anchor { edge: Edge::Top, anchored: !p.anchored_bottom },
        LayerDirective::Anchor { edge: Edge::Bottom, anchored: p.anchored_bottom },
        LayerDirective::Margin { edge: vertical_edge(p.anchored_bottom), pixels: p.margin_vertical },
    ]
}

/// Clamps a 64-bit margin candidate into `0..=i32::MAX`.
pub fn clamp_to_margin(v: i64) -> (r: i32)
    ensures
        r == clamp_margin(v as int),
{
    if v < 0 {
        0
    } else if v > i32::MAX as i64 {
        i32::MAX
    } else {
        v as i32
    }
}

fn near_edge_exec(margin: i32, anchored_far: bool, extent: u32, screen: u32) -> (r: i64)
    ensures
        r == near_edge(margin as int, anchored_far, extent as int, screen as int),
{
    if anchored_far {
        screen as i64 - margin as i64 - extent as i64
    } else {
        margin as i64
    }
}

fn rebase_axis(margin: i32, from_far: bool, to_far: bool, extent: u32, screen: u32) -> (r: i32)
    ensures
        r == rebased_margin(margin as int, from_far, to_far, extent as int, screen as int),
{
    if from_far == to_far {
        margin
    } else {
        clamp_to_margin(screen as i64 - margin as i64 - extent as i64)
    }
}

impl WindowPlacement {
    /// The placement with margins measured from new anchors, keeping the
    /// window where it is on screen as far as non-negative margins allow.
    pub fn rebase(
        &self,
        new_anchored_right: bool,
        new_anchored_bottom: bool,
        window: Size,
        screen: Size,
    ) -> (r: WindowPlacement)
        ensures
            r == rebased(*self, new_anchored_right, new_anchored_bottom, window, screen),
    {
        WindowPlacement {
            margin_horizontal: rebase_axis(
                self.margin_horizontal,
                self.anchored_right,
                new_anchored_right,
                window.width,
                screen.width,
            ),
            margin_vertical: rebase_axis(
                self.margin_vertical,
                self.anchored_bottom,
                new_anchored_bottom,
                window.height,
                screen.height,
            ),
            anchored_right: new_anchored_right,
            anchored_bottom: new_anchored_bottom,
        }
    }

    /// Left coordinate of the window on the screen.
    pub fn left(&self, window: Size, screen: Size) -> (r: i64)
        ensures
            r == left_of(*self, window, screen),
    {
        near_edge_exec(self.margin_horizontal, self.anchored_right, window.width, screen.width)
    }

    /// Top coordinate of the window on the screen.
    pub fn top(&self, window: Size, screen: Size) -> (r: i64)
        ensures
            r == top_of(*self, window, screen),
    {
        near_edge_exec(self.margin_vertical, self.anchored_bottom, window.height, screen.height)
    }

    /// The directives that put the window where this placement says: for each
    /// axis, the two anchors and then the margin on the anchored edge.
    pub fn apply(&self) -> (r: Vec<LayerDirective>)
        ensures
            r@ == horizontal_directives(*self) + vertical_directives(*self),
    {
        let mut r = horizontal_directives_of(self);
        let mut v = vertical_directives_of(self);
        r.append(&mut v);
        r
    }
}

/// Builds `horizontal_directives(*p)`.
pub fn horizontal_directives_of(p: &WindowPlacement) -> (r: Vec<LayerDirective>)
    ensures
        r@ == horizontal_directives(*p),
{
    let edge = if p.anchored_right { Edge::Right } else { Edge::Left };
    let r = vec![
        LayerDirective::Anchor { edge: Edge::Left, anchored: !p.anchored_right },
        LayerDirective::Anchor { edge: Edge::Right, anchored: p.anchored_right },
        LayerDirective::Margin { edge, pixels: p.margin_horizontal },
    ];
    assert(r@ =~= horizontal_directives(*p));
    r
}

/// Builds `vertical_directives(*p)`.
pub fn vertical_directives_of(p: &WindowPlacement) -> (r: Vec<LayerDirective>)
    ensures
        r@ == vertical_directives(*p),
{
    let edge = if p.anchored_bottom { Edge::Bottom } else { Edge::Top };
    let r = vec![
        LayerDirective::Anchor { edge: Edge::Top, anchored: !p.anchored_bottom },
        LayerDirective::Anchor { edge: Edge::Bottom, anchored: p.anchored_bottom },
        LayerDirective::Margin { edge, pixels: p.margin_vertical },
    ];
    assert(r@ =~= vertical_directives(*p));
    r
}

/// Rebasing onto other anchors and then back onto the starting ones restores
/// the starting margins exactly, for a window that lies within the screen.
pub proof fn lemma_rebase_round_trip(
    p: WindowPlacement,
    anchored_right: bool,
    anchored_bottom: bool,
    window: Size,
    screen: Size,
)
    requires
        placement_wf(p),
        size_wf(window),
        size_wf(screen),
        p.margin_horizontal + window.width <= screen.width,
        p.margin_vertical + window.height <= screen.height,
    ensures
        rebased(
            rebased(p, anchored_right, anchored_bottom, window, screen),
            p.anchored_right,
            p.anchored_bottom,
            window,
            screen,
        ) == p,
{
}

/// Rebasing keeps the window's top-left corner where it is, for a window that
/// lies within the screen.
pub proof fn lemma_rebase_keeps_position(
    p: WindowPlacement,
    anchored_right: bool,
    anchored_bottom: bool,
    window: Size,
    screen: Size,
)
    requires
        placement_wf(p),
        size_wf(window),
        size_wf(screen),
        p.margin_horizontal + window.width <= screen.width,
        p.margin_vertical + window.height <= screen.height,
    ensures
        left_of(rebased(p, anchored_right, anchored_bottom, window, screen), window, screen)
            == left_of(p, window, screen),
        top_of(rebased(p, anchored_right, anchored_bottom, window, screen), window, screen)
            == top_of(p, window, screen),
        placement_wf(rebased(p, anchored_right, anchored_bottom, window, screen)),
{
}

} // verus!
