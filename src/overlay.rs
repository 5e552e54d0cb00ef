//! One set of overlay-input operations over four windowing backends with
//! different capabilities. Each operation updates a model of the window's
//! input state and returns the platform steps that carry it out.

use vstd::prelude::*;

use crate::protocol::{text_eq, InputRegionRequest};

verus! {

/// The windowing backend the process runs on, fixed at start-up.
#[derive(Clone, Copy, Debug, PartialEq, Eq, Structural)]
pub enum Backend {
    WaylandLayerShell,
    X11,
    Windows,
    MacOs,
}

/// How finely the backend can let pointer input pass through.
#[derive(Clone, Copy, Debug, PartialEq, Eq, Structural)]
pub enum ClickThrough {
    PerPixel,
    WholeWindow,
}

/// How the backend keeps the window above others.
#[derive(Clone, Copy, Debug, PartialEq, Eq, Structural)]
pub enum OverlayLevel {
    /// A layer-shell overlay layer, managed by the compositor.
    CompositorLayer,
    /// The window manager's always-on-top hint.
    AlwaysOnTopHint,
    /// A topmost window.
    Topmost,
    /// A raised window level that joins every space.
    AllSpaces,
}

/// What a backend can do.
#[derive(Clone, Copy, Debug, PartialEq, Eq, Structural)]
pub struct Capabilities {
    /// Input can be limited to a rectangle of the window.
    pub partial_input_region: bool,
    pub click_through: ClickThrough,
    pub overlay_level: OverlayLevel,
}

/// A rectangle in window coordinates.
#[derive(Clone, Copy, Debug, PartialEq, Eq, Structural)]
pub struct Rect {
    pub x: i32,
    pub y: i32,
    pub width: i32,
    pub height: i32,
}

/// One call into the platform's windowing system.
#[derive(Clone, Copy, Debug, PartialEq, Eq, Structural)]
pub enum PlatformStep {
    /// Let all pointer input pass through the whole window, or stop doing so.
    IgnorePointerInput(bool),
    /// Accept input only inside the rectangle.
    SetInputRegion(Rect),
    /// Accept input on the whole window again.
    ClearInputRegion,
    /// Raise the window into (or lower it out of) overlay mode.
    SetOverlay(bool),
}

/// The window's input state as the operations left it.
#[derive(Clone, Copy, Debug, PartialEq, Eq, Structural)]
pub struct InputState {
    /// All pointer input passes through.
    pub click_through: bool,
    /// Where input is accepted; `None` is the whole window.
    pub region: Option<Rect>,
    pub overlay: bool,
    /// Region requests that the backend could not honour and answered as a
    /// successful no-op (saturating).
    pub unsupported_region_requests: u64,
}

/// A backend together with the input state of its window.
#[derive(Clone, Copy, Debug, PartialEq, Eq, Structural)]
pub struct Overlay {
    pub backend: Backend,
    pub state: InputState,
}

/// The capability matrix.
pub open spec fn capabilities_of(b: Backend) -> Capabilities {
    match b {
        Backend::WaylandLayerShell => Capabilities {
            partial_input_region: true,
            click_through: ClickThrough::PerPixel,
            overlay_level: OverlayLevel::CompositorLayer,
        },
        Backend::X11 => Capabilities {
            partial_input_region: false,
            click_through: ClickThrough::WholeWindow,
            overlay_level: OverlayLevel::AlwaysOnTopHint,
        },
        Backend::Windows => Capabilities {
            partial_input_region: true,
            click_through: ClickThrough::WholeWindow,
            overlay_level: OverlayLevel::Topmost,
        },
        Backend::MacOs => Capabilities {
            partial_input_region: false,
            click_through: ClickThrough::WholeWindow,
            overlay_level: OverlayLevel::AllSpaces,
        },
    }
}

/// The backend for an operating system (as Rust names it) and session:
/// macOS and Windows have their own, other systems use the layer shell in a
/// Wayland session and X11 otherwise.
pub open spec fn backend_for(os: Seq<char>, wayland: bool) -> Backend {
    if os == "macos"@ {
        Backend::MacOs
    } else if os == "windows"@ {
        Backend::Windows
    } else if wayland {
        Backend::WaylandLayerShell
    } else {
        Backend::X11
    }
}

/// Selects the backend at start-up.
pub fn select_backend(os: &str, wayland: bool) -> (r: Backend)
    ensures
        r == backend_for(os@, wayland),
{
    if text_eq(os, "macos") {
        Backend::MacOs
    } else if text_eq(os, "windows") {
        Backend::Windows
    } else if wayland {
        Backend::WaylandLayerShell
    } else {
        Backend::X11
    }
}

/// A backend without partial regions never holds one.
pub open spec fn overlay_wf(o: Overlay) -> bool {
    !capabilities_of(o.backend).partial_input_region ==> o.state.region is None
}

/// Whether a pointer at `(px, py)` reaches the window.
pub open spec fn accepts_input_at(s: InputState, px: int, py: int) -> bool {
    !s.click_through && match s.region {
        None => true,
        Some(r) => r.x <= px < r.x + r.width && r.y <= py < r.y + r.height,
    }
}

/// A rectangle with non-negative sides whose far corner is expressible.
pub open spec fn rect_valid(r: Rect) -> bool {
    r.width >= 0 && r.height >= 0 && r.x + r.width <= i32::MAX && r.y + r.height <= i32::MAX
}

/// The empty rectangle, which takes no input.
pub open spec fn empty_rect() -> Rect {
    Rect { x: 0, y: 0, width: 0, height: 0 }
}

/// `n + 1`, staying at `u64::MAX`.
pub open spec fn saturating_inc(n: u64) -> u64 {
    if n < u64::MAX {
        (n + 1) as u64
    } else {
        n
    }
}

/// Steps of `set_click_through(enabled)`.
pub open spec fn click_through_steps(b: Backend, enabled: bool) -> Seq<PlatformStep> {
    match b {
        Backend::WaylandLayerShell => if enabled {
            seq![PlatformStep::SetInputRegion(empty_rect())]
        } else {
            seq![PlatformStep::ClearInputRegion]
        },
        _ => seq![PlatformStep::IgnorePointerInput(enabled)],
    }
}

/// State after `set_click_through(enabled)`. On the layer shell the region
/// itself carries click-through, so any earlier region is replaced.
pub open spec fn after_click_through(o: Overlay, enabled: bool) -> Overlay {
    match o.backend {
        Backend::WaylandLayerShell => Overlay {
            state: InputState { click_through: enabled, region: None, ..o.state },
            ..o
        },
        _ => Overlay { state: InputState { click_through: enabled, ..o.state }, ..o },
    }
}

/// Whether `set_input_region(r)` succeeds: always on a backend without
/// partial regions, else exactly for a valid rectangle.
pub open spec fn region_request_ok(b: Backend, r: Rect) -> bool {
    !capabilities_of(b).partial_input_region || rect_valid(r)
}

/// Steps of a successful `set_input_region(r)`.
pub open spec fn region_steps(b: Backend, r: Rect) -> Seq<PlatformStep> {
    match b {
        Backend::WaylandLayerShell => seq![PlatformStep::SetInputRegion(r)],
        Backend::Windows => seq![PlatformStep::IgnorePointerInput(false), PlatformStep::SetInputRegion(r)],
        Backend::X11 => seq![PlatformStep::IgnorePointerInput(false)],
        Backend::MacOs => seq![],
    }
}

/// State after `set_input_region(r)`. Backends with partial regions take the
/// rectangle; the others record the request as a capability no-op, X11 making
/// sure the window takes input and macOS leaving its toggle as it is.
pub open spec fn after_region(o: Overlay, r: Rect) -> Overlay {
    if !region_request_ok(o.backend, r) {
        o
    } else {
        match o.backend {
            Backend::WaylandLayerShell | Backend::Windows => Overlay {
                state: InputState { click_through: false, region: Some(r), ..o.state },
                ..o
            },
            Backend::X11 => Overlay {
                state: InputState {
                    click_through: false,
                    unsupported_region_requests: saturating_inc(o.state.unsupported_region_requests),
                    ..o.state
                },
                ..o
            },
            Backend::MacOs => Overlay {
                state: InputState {
                    unsupported_region_requests: saturating_inc(o.state.unsupported_region_requests),
                    ..o.state
                },
                ..o
            },
        }
    }
}

/// Steps of `clear_input_region()`.
pub open spec fn clear_steps(b: Backend) -> Seq<PlatformStep> {
    match b {
        Backend::WaylandLayerShell => seq![PlatformStep::ClearInputRegion],
        Backend::Windows => seq![PlatformStep::IgnorePointerInput(false), PlatformStep::ClearInputRegion],
        _ => seq![PlatformStep::IgnorePointerInput(false)],
    }
}

/// State after `clear_input_region()`: the whole window takes input.
pub open spec fn after_clear(o: Overlay) -> Overlay {
    Overlay { state: InputState { click_through: false, region: None, ..o.state }, ..o }
}

/// State after `set_overlay_mode(enabled)`. On Windows the style change that
/// raises or lowers the window also drops whole-window transparency.
pub open spec fn after_overlay_mode(o: Overlay, enabled: bool) -> Overlay {
    match o.backend {
        Backend::Windows => Overlay {
            state: InputState { overlay: enabled, click_through: false, ..o.state },
            ..o
        },
        _ => Overlay { state: InputState { overlay: enabled, ..o.state }, ..o },
    }
}

fn has_partial_region(b: Backend) -> (r: bool)
    ensures
        r == capabilities_of(b).partial_input_region,
{
    match b {
        Backend::WaylandLayerShell | Backend::Windows => true,
        Backend::X11 | Backend::MacOs => false,
    }
}

fn saturating_increment(n: u64) -> (r: u64)
    ensures
        r == saturating_inc(n),
{
    if n < u64::MAX {
        n + 1
    } else {
        n
    }
}

impl Backend {
    /// The backend's row of the capability matrix.
    pub fn capabilities(&self) -> (r: Capabilities)
        ensures
            r == capabilities_of(*self),
    {
        match self {
            Backend::WaylandLayerShell => Capabilities {
                partial_input_region: true,
                click_through: ClickThrough::PerPixel,
                overlay_level: OverlayLevel::CompositorLayer,
            },
            Backend::X11 => Capabilities {
                partial_input_region: false,
                click_through: ClickThrough::WholeWindow,
                overlay_level: OverlayLevel::AlwaysOnTopHint,
            },
            Backend::Windows => Capabilities {
                partial_input_region: true,
                click_through: ClickThrough::WholeWindow,
                overlay_level: OverlayLevel::Topmost,
            },
            Backend::MacOs => Capabilities {
                partial_input_region: false,
                click_through: ClickThrough::WholeWindow,
                overlay_level: OverlayLevel::AllSpaces,
            },
        }
    }
}

impl Overlay {
    /// A window on `backend` that takes input everywhere and is not in overlay mode.
    pub fn new(backend: Backend) -> (r: Overlay)
        ensures
            overlay_wf(r),
            r.backend == backend,
            r.state == (InputState {
                click_through: false,
                region: None,
                overlay: false,
                unsupported_region_requests: 0,
            }),
    {
        Overlay {
            backend,
            state: InputState { click_through: false, region: None, overlay: false, unsupported_region_requests: 0 },
        }
    }

    /// Lets all pointer input pass through the window, or stops doing so.
    pub fn set_click_through(&mut self, enabled: bool) -> (r: Result<Vec<PlatformStep>, String>)
        requires
            overlay_wf(*old(self)),
        ensures
            overlay_wf(*final(self)),
            *final(self) == after_click_through(*old(self), enabled),
            r matches Ok(steps) && steps@ == click_through_steps(old(self).backend, enabled),
    {
        match self.backend {
            Backend::WaylandLayerShell => {
                self.state.click_through = enabled;
                self.state.region = None;
                if enabled {
                    Ok(vec![PlatformStep::SetInputRegion(Rect { x: 0, y: 0, width: 0, height: 0 })])
                } else {
                    Ok(vec![PlatformStep::ClearInputRegion])
                }
            },
            _ => {
                self.state.click_through = enabled;
                Ok(vec![PlatformStep::IgnorePointerInput(enabled)])
            },
        }
    }

    /// Limits input to the rectangle at `(x, y)` of `width` by `height`; the
    /// rest of the window lets input through. A backend without partial
    /// regions answers with success and records a capability no-op; one with
    /// them refuses a rectangle with a negative side or an inexpressible far
    /// corner.
    pub fn set_input_region(&mut self, x: i32, y: i32, width: i32, height: i32) -> (r: Result<
        Vec<PlatformStep>,
        String,
    >)
        requires
            overlay_wf(*old(self)),
        ensures
            overlay_wf(*final(self)),
            *final(self) == after_region(*old(self), Rect { x, y, width, height }),
            r is Ok == region_request_ok(old(self).backend, Rect { x, y, width, height }),
            r matches Ok(steps) ==> steps@ == region_steps(old(self).backend, Rect { x, y, width, height }),
    {
        let rect = Rect { x, y, width, height };
        if has_partial_region(self.backend) {
            if width < 0 || height < 0 || x as i64 + width as i64 > i32::MAX as i64 || y as i64 + height as i64
                > i32::MAX as i64 {
                return Err(String::from_str("input region has a negative side or lies beyond the coordinate range"));
            }
        }
        match self.backend {
            Backend::WaylandLayerShell => {
                self.state.click_through = false;
                self.state.region = Some(rect);
                Ok(vec![PlatformStep::SetInputRegion(rect)])
            },
            Backend::Windows => {
                self.state.click_through = false;
                self.state.region = Some(rect);
                Ok(vec![PlatformStep::IgnorePointerInput(false), PlatformStep::SetInputRegion(rect)])
            },
            Backend::X11 => {
                self.state.click_through = false;
                self.state.unsupported_region_requests = saturating_increment(
                    self.state.unsupported_region_requests,
                );
                Ok(vec![PlatformStep::IgnorePointerInput(false)])
            },
            Backend::MacOs => {
                self.state.unsupported_region_requests = saturating_increment(
                    self.state.unsupported_region_requests,
                );
                Ok(Vec::new())
            },
        }
    }

    /// Makes the whole window take input again.
    pub fn clear_input_region(&mut self) -> (r: Result<Vec<PlatformStep>, String>)
        requires
            overlay_wf(*old(self)),
        ensures
            overlay_wf(*final(self)),
            *final(self) == after_clear(*old(self)),
            r matches Ok(steps) && steps@ == clear_steps(old(self).backend),
    {
        self.state.click_through = false;
        self.state.region = None;
        match self.backend {
            Backend::WaylandLayerShell => Ok(vec![PlatformStep::ClearInputRegion]),
            Backend::Windows => Ok(vec![PlatformStep::IgnorePointerInput(false), PlatformStep::ClearInputRegion]),
            _ => Ok(vec![PlatformStep::IgnorePointerInput(false)]),
        }
    }

    /// Carries out an input-region message: the character's rectangle, or the
    /// whole window.
    pub fn apply_region_request(&mut self, request: InputRegionRequest) -> (r: Result<
        Vec<PlatformStep>,
        String,
    >)
        requires
            overlay_wf(*old(self)),
        ensures
            overlay_wf(*final(self)),
            request matches InputRegionRequest::Character(rect) ==> {
                &&& *final(self) == after_region(*old(self), rect)
                &&& r is Ok == region_request_ok(old(self).backend, rect)
                &&& r matches Ok(steps) ==> steps@ == region_steps(old(self).backend, rect)
            },
            request is Full ==> {
                &&& *final(self) == after_clear(*old(self))
                &&& r matches Ok(steps) && steps@ == clear_steps(old(self).backend)
            },
    {
        match request {
            InputRegionRequest::Character(rect) => self.set_input_region(rect.x, rect.y, rect.width, rect.height),
            InputRegionRequest::Full => self.clear_input_region(),
        }
    }

    /// Raises the window into overlay mode (always on top, borderless, on every
    /// workspace where the backend can) or lowers it out of it.
    pub fn set_overlay_mode(&mut self, enabled: bool) -> (r: Result<Vec<PlatformStep>, String>)
        requires
            overlay_wf(*old(self)),
        ensures
            overlay_wf(*final(self)),
            *final(self) == after_overlay_mode(*old(self), enabled),
            r matches Ok(steps) && steps@ == seq![PlatformStep::SetOverlay(enabled)],
    {
        self.state.overlay = enabled;
        match self.backend {
            Backend::Windows => {
                self.state.click_through = false;
            },
            _ => {},
        }
        Ok(vec![PlatformStep::SetOverlay(enabled)])
    }
}

/// A region request on a backend without partial regions succeeds, applies no
/// partial restriction, never turns into whole-window click-through, is
/// recorded as a capability no-op, and leaves every point that took input
/// still taking it; unless click-through was already on, the whole window
/// takes input afterwards.
pub proof fn lemma_region_request_without_support(o: Overlay, r: Rect)
    requires
        overlay_wf(o),
        !capabilities_of(o.backend).partial_input_region,
    ensures
        region_request_ok(o.backend, r),
        after_region(o, r).state.region is None,
        after_region(o, r).state.click_through ==> o.state.click_through,
        after_region(o, r).state.unsupported_region_requests == saturating_inc(
            o.state.unsupported_region_requests,
        ),
        forall|px: int, py: int|
            accepts_input_at(o.state, px, py) ==> #[trigger] accepts_input_at(after_region(o, r).state, px, py),
        !after_region(o, r).state.click_through ==> forall|px: int, py: int|
            #[trigger] accepts_input_at(after_region(o, r).state, px, py),
        !region_steps(o.backend, r).contains(PlatformStep::SetInputRegion(r)),
        !region_steps(o.backend, r).contains(PlatformStep::IgnorePointerInput(true)),
{
    let steps = region_steps(o.backend, r);
    if o.backend == Backend::X11 {
        assert(steps[0] == PlatformStep::IgnorePointerInput(false));
        assert(steps.len() == 1);
    } else {
        assert(steps.len() == 0);
    }
}

} // verus!
