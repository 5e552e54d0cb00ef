//! Placement, drag and overlay-input logic for a borderless always-on-top
//! desktop pet window.
//!
//! The window's position is kept as margins from one anchored edge per axis.
//! Pointer drags move those margins, a hysteretic quadrant classifier decides
//! which half of the screen the window lives in, and the anchors follow the
//! quadrant without moving the window. Overlay input operations are planned
//! per windowing backend as a list of platform steps.

pub mod attachment;
pub mod drag;
pub mod host;
pub mod ipc;
pub mod overlay;
pub mod placement;
pub mod presence;
pub mod protocol;
pub mod quadrant;
pub mod tray;

pub use overlay::{
    select_backend, Backend, Capabilities, ClickThrough, InputState, Overlay, OverlayLevel, PlatformStep, Rect,
};
pub use attachment::{attachment, mime_type_for, Attachment};
pub use drag::{Action, DragSession, KeyboardMode, OutboundEvent, PetWindow};
pub use protocol::{
    input_region_request, is_resize, move_action, window_control, InputRegionRequest, MoveAction, WindowControl,
};
pub use presence::{socket_command, Presence, RendererEvent, ShellAction, SocketCommand};
pub use tray::{DesktopWaifuTray, TrayMenuEntry, TrayMessage};
pub use host::{is_overlay_available, is_wayland, CommandOutput, Startup, SystemInfo};
pub use ipc::{AnimationState, OverlayEvent};
pub use placement::{Edge, LayerDirective, Size, WindowPlacement};
pub use quadrant::{classify, Quadrant, HYSTERESIS_PX};
