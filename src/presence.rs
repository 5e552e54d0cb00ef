//! Whether the window is shown, and how requests from the tray, the command
//! socket and the renderer change that.

use vstd::prelude::*;

use crate::protocol::text_eq;
use crate::tray::TrayMessage;

verus! {

/// A browser event the renderer listens for.
#[derive(Clone, Copy, Debug, PartialEq, Eq, Structural)]
pub enum RendererEvent {
    /// The hotkey asks to show: open the chat and focus its input.
    HotkeyShow,
    /// The hotkey asks to hide: animate out, then ask the host to hide.
    HotkeyHide,
    /// The tray showed the window.
    TrayShow,
}

/// Something for the host to do to the window, the renderer or the tray.
#[derive(Clone, Copy, Debug, PartialEq, Eq, Structural)]
pub enum ShellAction {
    PresentWindow,
    HideWindow,
    CloseWindow,
    Dispatch(RendererEvent),
    /// Tell the tray whether the window is shown.
    UpdateTray(bool),
    /// Stop polling the tray's channel.
    StopTrayPolling,
}

/// A command from the control socket.
#[derive(Clone, Copy, Debug, PartialEq, Eq, Structural)]
pub enum SocketCommand {
    Toggle,
    Show,
    Hide,
}

/// Visibility as the host tracks it, and whether socket commands are honoured.
#[derive(Clone, Copy, Debug, PartialEq, Eq, Structural)]
pub struct Presence {
    pub visible: bool,
    pub hotkey_enabled: bool,
}

/// The command a socket message names, if any.
pub open spec fn socket_command_of(text: Seq<char>) -> Option<SocketCommand> {
    if text == "toggle"@ {
        Some(SocketCommand::Toggle)
    } else if text == "show"@ {
        Some(SocketCommand::Show)
    } else if text == "hide"@ {
        Some(SocketCommand::Hide)
    } else {
        None
    }
}

/// Decodes a socket message; anything but the three commands is `None`.
pub fn socket_command(text: &str) -> (r: Option<SocketCommand>)
    ensures
        r == socket_command_of(text@),
{
    if text_eq(text, "toggle") {
        Some(SocketCommand::Toggle)
    } else if text_eq(text, "show") {
        Some(SocketCommand::Show)
    } else if text_eq(text, "hide") {
        Some(SocketCommand::Hide)
    } else {
        None
    }
}

/// Showing the window: present it, tell the renderer `event`, update the tray.
pub open spec fn show_actions(event: RendererEvent) -> Seq<ShellAction> {
    seq![ShellAction::PresentWindow, ShellAction::Dispatch(event), ShellAction::UpdateTray(true)]
}

/// What a socket command does in state `p`: the next state and the actions.
/// Commands are ignored while the hotkey is disabled. Hiding only asks the
/// renderer to animate out; the window hides when the renderer says so.
pub open spec fn on_socket_command(p: Presence, c: SocketCommand) -> (Presence, Seq<ShellAction>) {
    if !p.hotkey_enabled {
        (p, seq![])
    } else {
        match c {
            SocketCommand::Toggle => if p.visible {
                (p, seq![ShellAction::Dispatch(RendererEvent::HotkeyHide)])
            } else {
                (Presence { visible: true, ..p }, show_actions(RendererEvent::HotkeyShow))
            },
            SocketCommand::Show => if p.visible {
                (p, seq![])
            } else {
                (Presence { visible: true, ..p }, show_actions(RendererEvent::HotkeyShow))
            },
            SocketCommand::Hide => if p.visible {
                (p, seq![ShellAction::Dispatch(RendererEvent::HotkeyHide)])
            } else {
                (p, seq![])
            },
        }
    }
}

/// What a tray message does in state `p`.
pub open spec fn on_tray_message(p: Presence, m: TrayMessage) -> (Presence, Seq<ShellAction>) {
    match m {
        TrayMessage::Show => (
            Presence { visible: true, ..p },
            seq![
                ShellAction::PresentWindow,
                ShellAction::Dispatch(RendererEvent::TrayShow),
                ShellAction::UpdateTray(true),
            ],
        ),
        TrayMessage::Hide => (
            Presence { visible: false, ..p },
            seq![ShellAction::HideWindow, ShellAction::UpdateTray(false)],
        ),
        TrayMessage::Quit => (p, seq![ShellAction::CloseWindow, ShellAction::StopTrayPolling]),
    }
}

impl Presence {
    /// A shown window with socket commands ignored until the renderer enables them.
    pub fn new() -> (r: Presence)
        ensures
            r == (Presence { visible: true, hotkey_enabled: false }),
    {
        Presence { visible: true, hotkey_enabled: false }
    }

    /// The renderer enables or disables socket commands.
    pub fn set_hotkey_enabled(&mut self, enabled: bool)
        ensures
            *final(self) == (Presence { hotkey_enabled: enabled, ..*old(self) }),
    {
        self.hotkey_enabled = enabled;
    }

    /// Handles a command from the control socket.
    pub fn socket_command(&mut self, c: SocketCommand) -> (r: Vec<ShellAction>)
        ensures
            (*final(self), r@) == on_socket_command(*old(self), c),
    {
        if !self.hotkey_enabled {
            return Vec::new();
        }
        let show = vec![
            ShellAction::PresentWindow,
            ShellAction::Dispatch(RendererEvent::HotkeyShow),
            ShellAction::UpdateTray(true),
        ];
        assert(show@ =~= show_actions(RendererEvent::HotkeyShow));
        let r = match c {
            SocketCommand::Toggle => {
                if self.visible {
                    vec![ShellAction::Dispatch(RendererEvent::HotkeyHide)]
                } else {
                    self.visible = true;
                    show
                }
            },
            SocketCommand::Show => {
                if self.visible {
                    Vec::new()
                } else {
                    self.visible = true;
                    show
                }
            },
            SocketCommand::Hide => {
                if self.visible {
                    vec![ShellAction::Dispatch(RendererEvent::HotkeyHide)]
                } else {
                    Vec::new()
                }
            },
        };
        assert(r@ =~= on_socket_command(*old(self), c).1);
        r
    }

    /// Handles a message from the tray.
    pub fn tray_message(&mut self, m: TrayMessage) -> (r: Vec<ShellAction>)
        ensures
            (*final(self), r@) == on_tray_message(*old(self), m),
    {
        let r = match m {
            TrayMessage::Show => {
                self.visible = true;
                vec![
                    ShellAction::PresentWindow,
                    ShellAction::Dispatch(RendererEvent::TrayShow),
                    ShellAction::UpdateTray(true),
                ]
            },
            TrayMessage::Hide => {
                self.visible = false;
                vec![ShellAction::HideWindow, ShellAction::UpdateTray(false)]
            },
            TrayMessage::Quit => vec![ShellAction::CloseWindow, ShellAction::StopTrayPolling],
        };
        assert(r@ =~= on_tray_message(*old(self), m).1);
        r
    }

    /// The renderer asks to hide (`show == false`) or show the window, after
    /// its own animation: done at once, and the tray is told.
    pub fn window_control(&mut self, show: bool) -> (r: Vec<ShellAction>)
        ensures
            *final(self) == (Presence { visible: show, ..*old(self) }),
            show ==> r@ == seq![ShellAction::PresentWindow, ShellAction::UpdateTray(true)],
            !show ==> r@ == seq![ShellAction::HideWindow, ShellAction::UpdateTray(false)],
    {
        self.visible = show;
        if show {
            let r = vec![ShellAction::PresentWindow, ShellAction::UpdateTray(true)];
            assert(r@ =~= seq![ShellAction::PresentWindow, ShellAction::UpdateTray(true)]);
            r
        } else {
            let r = vec![ShellAction::HideWindow, ShellAction::UpdateTray(false)];
            assert(r@ =~= seq![ShellAction::HideWindow, ShellAction::UpdateTray(false)]);
            r
        }
    }
}

} // verus!
