//! The pet window's event-loop state: placement, drag session and quadrant,
//! and what each pointer or geometry event does to them.

use vstd::prelude::*;

use crate::placement::{
    clamp_margin, clamp_to_margin, horizontal_directives, horizontal_directives_of, horizontal_edge,
    lemma_rebase_keeps_position, left_of, placement_wf, rebased, size_wf, top_of, vertical_directives,
    vertical_directives_of, vertical_edge, Edge, LayerDirective, Size, WindowPlacement,
};
use crate::quadrant::{classified, classify, Quadrant};

verus! {

/// Width of the window while only the character shows.
pub const COLLAPSED_WIDTH: u32 = 160;

/// Height of the window while only the character shows.
pub const COLLAPSED_HEIGHT: u32 = 380;

/// Margin from the bottom-right corner at start-up.
pub const START_MARGIN: i32 = 20;

/// Delay between a resize and the keyboard-mode switch that follows it.
pub const FOCUS_SWITCH_DELAY_MS: u32 = 50;

/// The margins captured when a drag starts.
#[derive(Clone, Copy, Debug, PartialEq, Eq, Structural)]
pub struct DragSession {
    pub active: bool,
    pub origin_margin_horizontal: i32,
    pub origin_margin_vertical: i32,
}

/// How the window takes keyboard focus.
#[derive(Clone, Copy, Debug, PartialEq, Eq, Structural)]
pub enum KeyboardMode {
    /// Focus only when the user clicks the window.
    OnDemand,
    /// Hold the keyboard.
    Exclusive,
}

/// An event for the renderer.
#[derive(Clone, Copy, Debug, PartialEq, Eq, Structural)]
pub enum OutboundEvent {
    /// The window moved during a drag; margins from the anchored edges.
    CharacterMove { margin_horizontal: i32, margin_vertical: i32 },
    /// The window's quadrant changed.
    QuadrantChange { is_right_half: bool, is_bottom_half: bool },
    /// Position, quadrant and screen size, on request.
    InitialState {
        x: i64,
        y: i64,
        is_right_half: bool,
        is_bottom_half: bool,
        screen_width: u32,
        screen_height: u32,
    },
}

/// Something for the host to do, in order.
#[derive(Clone, Copy, Debug, PartialEq, Eq, Structural)]
pub enum Action {
    /// Pass a directive to the windowing layer.
    Layer(LayerDirective),
    /// Send an event to the renderer.
    Emit(OutboundEvent),
    /// Resize the window.
    Resize(Size),
    /// After `delay_ms`, switch the keyboard mode.
    KeyboardModeAfter { delay_ms: u32, mode: KeyboardMode },
}

/// The state the event loop owns.
#[derive(Clone, Copy, Debug, PartialEq, Eq, Structural)]
pub struct PetWindow {
    pub placement: WindowPlacement,
    pub session: DragSession,
    pub quadrant: Quadrant,
    pub window: Size,
}

/// Margins are non-negative, the window size is expressible, the anchors are
/// on the sides of the quadrant, and a drag's origin is a valid margin pair.
pub open spec fn pet_wf(s: PetWindow) -> bool {
    &&& placement_wf(s.placement)
    &&& size_wf(s.window)
    &&& s.quadrant.right_half == s.placement.anchored_right
    &&& s.quadrant.bottom_half == s.placement.anchored_bottom
    &&& s.session.origin_margin_horizontal >= 0
    &&& s.session.origin_margin_vertical >= 0
}

/// The margin after a drag by `offset` from `origin`. A positive offset moves
/// the window right (or down), so it shrinks a margin kept from the far edge
/// and grows one kept from the near edge.
pub open spec fn dragged_margin(origin: int, anchored_far: bool, offset: int) -> int {
    clamp_margin(
        if anchored_far {
            origin - offset
        } else {
            origin + offset
        },
    )
}

/// The placement after a drag by `(dx, dy)` from the session's origin.
pub open spec fn dragged(p: WindowPlacement, s: DragSession, dx: int, dy: int) -> WindowPlacement {
    WindowPlacement {
        margin_horizontal: dragged_margin(s.origin_margin_horizontal as int, p.anchored_right, dx) as i32,
        margin_vertical: dragged_margin(s.origin_margin_vertical as int, p.anchored_bottom, dy) as i32,
        ..p
    }
}

/// What a drag tick asks of the host: both margins, then the move event.
pub open spec fn drag_actions(p: WindowPlacement) -> Seq<Action> {
    seq![
        Action::Layer(LayerDirective::Margin { edge: horizontal_edge(p.anchored_right), pixels: p.margin_horizontal }),
        Action::Layer(LayerDirective::Margin { edge: vertical_edge(p.anchored_bottom), pixels: p.margin_vertical }),
        Action::Emit(OutboundEvent::CharacterMove {
            margin_horizontal: p.margin_horizontal,
            margin_vertical: p.margin_vertical,
        }),
    ]
}

/// Directives as host actions.
pub open spec fn layer_actions(ds: Seq<LayerDirective>) -> Seq<Action> {
    ds.map_values(|d: LayerDirective| Action::Layer(d))
}

/// A screen size that geometry-dependent decisions can use.
pub open spec fn screen_usable(screen: Option<Size>) -> bool {
    screen matches Some(s) && s.width > 0 && s.height > 0 && size_wf(s)
}

/// The state after the quadrant is re-evaluated on `screen`: the new quadrant,
/// and on each axis whose half changed, anchors on the new side with margins
/// rebased so that the window stays put.
pub open spec fn reclassified(s: PetWindow, screen: Size) -> PetWindow {
    let q = classified(s.quadrant, s.placement, s.window, screen);
    PetWindow {
        placement: rebased(s.placement, q.right_half, q.bottom_half, s.window, screen),
        quadrant: q,
        ..s
    }
}

/// The host actions of a re-evaluation from `s` to `n`: nothing when the
/// quadrant stayed; else the directives of each changed axis, then the event.
pub open spec fn rebind_actions(s: PetWindow, n: PetWindow) -> Seq<Action> {
    if n.quadrant == s.quadrant {
        seq![]
    } else {
        (if n.quadrant.right_half != s.quadrant.right_half {
            layer_actions(horizontal_directives(n.placement))
        } else {
            seq![]
        }) + (if n.quadrant.bottom_half != s.quadrant.bottom_half {
            layer_actions(vertical_directives(n.placement))
        } else {
            seq![]
        }) + seq![
            Action::Emit(
                OutboundEvent::QuadrantChange {
                    is_right_half: n.quadrant.right_half,
                    is_bottom_half: n.quadrant.bottom_half,
                },
            ),
        ]
    }
}

/// The event that answers a quadrant query in state `s`.
pub open spec fn initial_state_event(s: PetWindow, screen: Size) -> Action {
    Action::Emit(
        OutboundEvent::InitialState {
            x: left_of(s.placement, s.window, screen) as i64,
            y: top_of(s.placement, s.window, screen) as i64,
            is_right_half: s.quadrant.right_half,
            is_bottom_half: s.quadrant.bottom_half,
            screen_width: screen.width,
            screen_height: screen.height,
        },
    )
}

/// The keyboard mode after a resize to `width`: held while the window is wider
/// than the collapsed character, released otherwise.
pub open spec fn mode_after_resize(width: int) -> KeyboardMode {
    if width > COLLAPSED_WIDTH {
        KeyboardMode::Exclusive
    } else {
        KeyboardMode::OnDemand
    }
}

/// Appends `ds` to `out` as host actions.
fn push_directives(out: &mut Vec<Action>, ds: &Vec<LayerDirective>)
    ensures
        final(out)@ == old(out)@ + layer_actions(ds@),
{
    let ghost start = out@;
    let mut i: usize = 0;
    while i < ds.len()
        invariant
            i <= ds.len(),
            out@ == start + layer_actions(ds@.subrange(0, i as int)),
        decreases ds.len() - i,
    {
        let d = ds[i];
        out.push(Action::Layer(d));
        proof {
            assert(layer_actions(ds@.subrange(0, i + 1)) =~= layer_actions(ds@.subrange(0, i as int)).push(
                Action::Layer(d),
            ));
        }
        i += 1;
    }
    assert(ds@.subrange(0, ds@.len() as int) =~= ds@);
}

fn screen_is_usable(screen: Option<Size>) -> (r: bool)
    ensures
        r == screen_usable(screen),
{
    match screen {
        Some(s) => s.width > 0 && s.height > 0 && s.width <= i32::MAX as u32 && s.height <= i32::MAX as u32,
        None => false,
    }
}

impl PetWindow {
    /// A window at `placement`, not dragging, with the quadrant its anchors name.
    pub fn new(placement: WindowPlacement, window: Size) -> (r: PetWindow)
        requires
            placement_wf(placement),
            size_wf(window),
        ensures
            pet_wf(r),
            r.placement == placement,
            r.window == window,
            !r.session.active,
            r.quadrant == (Quadrant { right_half: placement.anchored_right, bottom_half: placement.anchored_bottom }),
    {
        PetWindow {
            placement,
            session: DragSession { active: false, origin_margin_horizontal: 0, origin_margin_vertical: 0 },
            quadrant: Quadrant { right_half: placement.anchored_right, bottom_half: placement.anchored_bottom },
            window,
        }
    }

    /// The start-up state: the collapsed window `START_MARGIN` pixels from the
    /// bottom-right corner, in the bottom-right quadrant.
    pub fn initial() -> (r: PetWindow)
        ensures
            pet_wf(r),
            r.placement == (WindowPlacement {
                margin_horizontal: START_MARGIN,
                margin_vertical: START_MARGIN,
                anchored_right: true,
                anchored_bottom: true,
            }),
            r.window == (Size { width: COLLAPSED_WIDTH, height: COLLAPSED_HEIGHT }),
            r.quadrant == (Quadrant { right_half: true, bottom_half: true }),
            !r.session.active,
    {
        PetWindow::new(
            WindowPlacement {
                margin_horizontal: START_MARGIN,
                margin_vertical: START_MARGIN,
                anchored_right: true,
                anchored_bottom: true,
            },
            Size { width: COLLAPSED_WIDTH, height: COLLAPSED_HEIGHT },
        )
    }

    /// Begins a drag from the current margins. A start while a drag is
    /// already running is out of order and changes nothing.
    pub fn start_drag(&mut self)
        requires
            pet_wf(*old(self)),
        ensures
            pet_wf(*final(self)),
            old(self).session.active ==> *final(self) == *old(self),
            !old(self).session.active ==> *final(self) == (PetWindow {
                session: DragSession {
                    active: true,
                    origin_margin_horizontal: old(self).placement.margin_horizontal,
                    origin_margin_vertical: old(self).placement.margin_vertical,
                },
                ..*old(self)
            }),
    {
        if !self.session.active {
            self.session = DragSession {
                active: true,
                origin_margin_horizontal: self.placement.margin_horizontal,
                origin_margin_vertical: self.placement.margin_vertical,
            };
        }
    }

    /// Moves the window by `(offset_x, offset_y)` pixels from where the drag
    /// started and returns the margin directives and the move event. Outside a
    /// drag it changes nothing and returns nothing.
    pub fn drag(&mut self, offset_x: i32, offset_y: i32) -> (r: Vec<Action>)
        requires
            pet_wf(*old(self)),
        ensures
            pet_wf(*final(self)),
            !old(self).session.active ==> *final(self) == *old(self) && r@ == Seq::<Action>::empty(),
            old(self).session.active ==> *final(self) == (PetWindow {
                placement: dragged(old(self).placement, old(self).session, offset_x as int, offset_y as int),
                ..*old(self)
            }) && r@ == drag_actions(final(self).placement),
    {
        if !self.session.active {
            return Vec::new();
        }
        let mh = if self.placement.anchored_right {
            clamp_to_margin(self.session.origin_margin_horizontal as i64 - offset_x as i64)
        } else {
            clamp_to_margin(self.session.origin_margin_horizontal as i64 + offset_x as i64)
        };
        let mv = if self.placement.anchored_bottom {
            clamp_to_margin(self.session.origin_margin_vertical as i64 - offset_y as i64)
        } else {
            clamp_to_margin(self.session.origin_margin_vertical as i64 + offset_y as i64)
        };
        self.placement.margin_horizontal = mh;
        self.placement.margin_vertical = mv;
        let h_edge = if self.placement.anchored_right { Edge::Right } else { Edge::Left };
        let v_edge = if self.placement.anchored_bottom { Edge::Bottom } else { Edge::Top };
        let r = vec![
            Action::Layer(LayerDirective::Margin { edge: h_edge, pixels: mh }),
            Action::Layer(LayerDirective::Margin { edge: v_edge, pixels: mv }),
            Action::Emit(OutboundEvent::CharacterMove { margin_horizontal: mh, margin_vertical: mv }),
        ];
        assert(r@ =~= drag_actions(self.placement));
        r
    }

    /// Re-evaluates the quadrant on `screen` and, where a half changed, moves
    /// the anchors to that side without moving the window.
    fn rebind(&mut self, screen: Size) -> (r: Vec<Action>)
        requires
            pet_wf(*old(self)),
            screen.width > 0,
            screen.height > 0,
            size_wf(screen),
        ensures
            *final(self) == reclassified(*old(self), screen),
            pet_wf(*final(self)),
            r@ == rebind_actions(*old(self), *final(self)),
    {
        let prev = self.quadrant;
        let q = classify(prev, &self.placement, self.window, screen);
        let p = self.placement.rebase(q.right_half, q.bottom_half, self.window, screen);
        self.placement = p;
        self.quadrant = q;
        let mut r: Vec<Action> = Vec::new();
        if q.right_half == prev.right_half && q.bottom_half == prev.bottom_half {
            assert(r@ =~= rebind_actions(*old(self), *self));
            return r;
        }
        if q.right_half != prev.right_half {
            let ds = horizontal_directives_of(&p);
            push_directives(&mut r, &ds);
        }
        if q.bottom_half != prev.bottom_half {
            let ds = vertical_directives_of(&p);
            push_directives(&mut r, &ds);
        }
        r.push(
            Action::Emit(OutboundEvent::QuadrantChange { is_right_half: q.right_half, is_bottom_half: q.bottom_half }),
        );
        assert(r@ =~= rebind_actions(*old(self), *self));
        r
    }

    /// Answers a quadrant query. With a usable screen size, re-evaluates the
    /// quadrant as at the end of a drag and then reports position, quadrant and
    /// screen size; without one, does nothing.
    pub fn get_quadrant(&mut self, screen: Option<Size>) -> (r: Vec<Action>)
        requires
            pet_wf(*old(self)),
        ensures
            pet_wf(*final(self)),
            screen_usable(screen) ==> *final(self) == reclassified(*old(self), screen->0) && r@
                == rebind_actions(*old(self), *final(self)).push(initial_state_event(*final(self), screen->0)),
            !screen_usable(screen) ==> *final(self) == *old(self) && r@ == Seq::<Action>::empty(),
    {
        if screen_is_usable(screen) {
            let s = screen.unwrap();
            let mut r = self.rebind(s);
            let x = self.placement.left(self.window, s);
            let y = self.placement.top(self.window, s);
            r.push(
                Action::Emit(
                    OutboundEvent::InitialState {
                        x,
                        y,
                        is_right_half: self.quadrant.right_half,
                        is_bottom_half: self.quadrant.bottom_half,
                        screen_width: s.width,
                        screen_height: s.height,
                    },
                ),
            );
            r
        } else {
            Vec::new()
        }
    }

    /// Resizes the window to `width` by `height` and, after
    /// `FOCUS_SWITCH_DELAY_MS`, holds the keyboard if the window is now wider
    /// than the collapsed character and releases it otherwise. A size that is
    /// not positive is malformed and changes nothing.
    pub fn resize(&mut self, width: i32, height: i32) -> (r: Vec<Action>)
        requires
            pet_wf(*old(self)),
        ensures
            pet_wf(*final(self)),
            (width <= 0 || height <= 0) ==> *final(self) == *old(self) && r@ == Seq::<Action>::empty(),
            (width > 0 && height > 0) ==> {
                let size = Size { width: width as u32, height: height as u32 };
                &&& *final(self) == (PetWindow { window: size, ..*old(self) })
                &&& r@ == seq![
                    Action::Resize(size),
                    Action::KeyboardModeAfter { delay_ms: FOCUS_SWITCH_DELAY_MS, mode: mode_after_resize(width as int) },
                ]
            },
    {
        if width <= 0 || height <= 0 {
            return Vec::new();
        }
        let size = Size { width: width as u32, height: height as u32 };
        self.window = size;
        let mode = if width as u32 > COLLAPSED_WIDTH {
            KeyboardMode::Exclusive
        } else {
            KeyboardMode::OnDemand
        };
        let r = vec![
            Action::Resize(size),
            Action::KeyboardModeAfter { delay_ms: FOCUS_SWITCH_DELAY_MS, mode },
        ];
        assert(r@ =~= seq![
            Action::Resize(size),
            Action::KeyboardModeAfter { delay_ms: FOCUS_SWITCH_DELAY_MS, mode: mode_after_resize(width as int) },
        ]);
        r
    }

    /// Ends the drag and clears its session. With a usable screen size, re-evaluates the quadrant and
    /// rebinds the anchors of each axis whose half changed; without one, keeps
    /// the placement and quadrant as they are.
    pub fn end_drag(&mut self, screen: Option<Size>) -> (r: Vec<Action>)
        requires
            pet_wf(*old(self)),
        ensures
            pet_wf(*final(self)),
            !final(self).session.active,
            ({
                let stopped = PetWindow {
                    session: DragSession { active: false, origin_margin_horizontal: 0, origin_margin_vertical: 0 },
                    ..*old(self)
                };
                &&& screen_usable(screen) ==> *final(self) == reclassified(stopped, screen->0)
                    && r@ == rebind_actions(stopped, *final(self))
                &&& !screen_usable(screen) ==> *final(self) == stopped && r@ == Seq::<Action>::empty()
            }),
    {
        self.session = DragSession { active: false, origin_margin_horizontal: 0, origin_margin_vertical: 0 };
        if screen_is_usable(screen) {
            let s = screen.unwrap();
            self.rebind(s)
        } else {
            Vec::new()
        }
    }
}

/// Offsets count from where the drag started, so within one drag the last
/// offset alone decides the placement: a drag to `(dx2, dy2)` after one to
/// `(dx1, dy1)` lands where a single drag to `(dx2, dy2)` lands, applying the
/// same offset twice changes nothing, and an offset of zero returns the
/// window to the margins it had when the drag started.
pub proof fn lemma_last_offset_wins(p: WindowPlacement, s: DragSession, dx1: int, dy1: int, dx2: int, dy2: int)
    requires
        s.origin_margin_horizontal >= 0,
        s.origin_margin_vertical >= 0,
    ensures
        dragged(dragged(p, s, dx1, dy1), s, dx2, dy2) == dragged(p, s, dx2, dy2),
        dragged(dragged(p, s, dx1, dy1), s, dx1, dy1) == dragged(p, s, dx1, dy1),
        dragged(p, s, 0, 0).margin_horizontal == s.origin_margin_horizontal,
        dragged(p, s, 0, 0).margin_vertical == s.origin_margin_vertical,
{
}

/// A drag never makes a margin negative: an offset that would push a margin
/// below zero leaves it at zero.
pub proof fn lemma_drag_clamps_at_zero(p: WindowPlacement, s: DragSession, dx: int, dy: int)
    ensures
        dragged(p, s, dx, dy).margin_horizontal >= 0,
        dragged(p, s, dx, dy).margin_vertical >= 0,
        (if p.anchored_right {
            s.origin_margin_horizontal - dx
        } else {
            s.origin_margin_horizontal + dx
        }) < 0 ==> dragged(p, s, dx, dy).margin_horizontal == 0,
        (if p.anchored_bottom {
            s.origin_margin_vertical - dy
        } else {
            s.origin_margin_vertical + dy
        }) < 0 ==> dragged(p, s, dx, dy).margin_vertical == 0,
{
}

/// Rebinding after a quadrant change moves the anchors, never the window: a
/// window that lies within the screen keeps its top-left corner.
pub proof fn lemma_rebind_keeps_window_in_place(s: PetWindow, screen: Size)
    requires
        pet_wf(s),
        size_wf(screen),
        s.placement.margin_horizontal + s.window.width <= screen.width,
        s.placement.margin_vertical + s.window.height <= screen.height,
    ensures
        left_of(reclassified(s, screen).placement, s.window, screen) == left_of(s.placement, s.window, screen),
        top_of(reclassified(s, screen).placement, s.window, screen) == top_of(s.placement, s.window, screen),
{
    let q = classified(s.quadrant, s.placement, s.window, screen);
    lemma_rebase_keeps_position(s.placement, q.right_half, q.bottom_half, s.window, screen);
}

} // verus!
