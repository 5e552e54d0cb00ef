//! The system-tray icon's state: whether it believes the window is shown, and
//! what its click and menu entries ask of the application.

use vstd::prelude::*;

verus! {

/// A request from the tray to the application.
#[derive(Clone, Copy, Debug, PartialEq, Eq, Structural)]
pub enum TrayMessage {
    Show,
    Hide,
    Quit,
}

/// An entry of the tray's menu.
#[derive(Clone, Copy, Debug, PartialEq, Eq, Structural)]
pub enum TrayMenuEntry {
    /// Shows or hides the window, as `message` says.
    ShowHide { message: TrayMessage },
    Separator,
    Quit,
}

/// The tray icon's state.
#[derive(Clone, Copy, Debug, PartialEq, Eq, Structural)]
pub struct DesktopWaifuTray {
    pub visible: bool,
}

/// The message that flips the window's visibility from `visible`.
pub open spec fn toggle_message(visible: bool) -> TrayMessage {
    if visible {
        TrayMessage::Hide
    } else {
        TrayMessage::Show
    }
}

impl DesktopWaifuTray {
    /// A tray for a window that starts shown.
    pub fn new() -> (r: DesktopWaifuTray)
        ensures
            r.visible,
    {
        DesktopWaifuTray { visible: true }
    }

    /// The tray's identifier on the status-notifier bus.
    pub fn id(&self) -> (r: String)
        ensures
            r@ == "desktop-waifu"@,
    {
        String::from_str("desktop-waifu")
    }

    /// The tray's title.
    pub fn title(&self) -> (r: String)
        ensures
            r@ == "Desktop Waifu"@,
    {
        String::from_str("Desktop Waifu")
    }

    /// The themed icon the tray shows.
    pub fn icon_name(&self) -> (r: String)
        ensures
            r@ == "user-available"@,
    {
        String::from_str("user-available")
    }

    /// A click on the icon: returns the message that flips the window's
    /// visibility and flips the tray's own record of it.
    pub fn activate(&mut self) -> (r: TrayMessage)
        ensures
            r == toggle_message(old(self).visible),
            final(self).visible == !old(self).visible,
    {
        let msg = if self.visible {
            TrayMessage::Hide
        } else {
            TrayMessage::Show
        };
        self.visible = !self.visible;
        msg
    }

    /// Label of the show/hide entry: what choosing it would do.
    pub fn show_hide_label(&self) -> (r: String)
        ensures
            self.visible ==> r@ == "Hide"@,
            !self.visible ==> r@ == "Show"@,
    {
        if self.visible {
            String::from_str("Hide")
        } else {
            String::from_str("Show")
        }
    }

    /// The menu: the show/hide entry, a separator, and quit.
    pub fn menu(&self) -> (r: Vec<TrayMenuEntry>)
        ensures
            r@ == seq![
                TrayMenuEntry::ShowHide { message: toggle_message(self.visible) },
                TrayMenuEntry::Separator,
                TrayMenuEntry::Quit,
            ],
    {
        let message = if self.visible {
            TrayMessage::Hide
        } else {
            TrayMessage::Show
        };
        let r = vec![TrayMenuEntry::ShowHide { message }, TrayMenuEntry::Separator, TrayMenuEntry::Quit];
        assert(r@ =~= seq![
            TrayMenuEntry::ShowHide { message: toggle_message(self.visible) },
            TrayMenuEntry::Separator,
            TrayMenuEntry::Quit,
        ]);
        r
    }

    /// Choosing a menu entry: the show/hide entry sends its message and flips
    /// the tray's record; quit sends `Quit`; the separator does nothing.
    pub fn select(&mut self, entry: TrayMenuEntry) -> (r: Option<TrayMessage>)
        ensures
            entry matches TrayMenuEntry::ShowHide { message } ==> r == Some(message) && final(self).visible
                == !old(self).visible,
            entry is Quit ==> r == Some(TrayMessage::Quit) && *final(self) == *old(self),
            entry is Separator ==> r is None && *final(self) == *old(self),
    {
        match entry {
            TrayMenuEntry::ShowHide { message } => {
                self.visible = !self.visible;
                Some(message)
            },
            TrayMenuEntry::Separator => None,
            TrayMenuEntry::Quit => Some(TrayMessage::Quit),
        }
    }

    /// Records the window's visibility when it changed from elsewhere.
    pub fn set_visible(&mut self, visible: bool)
        ensures
            final(self).visible == visible,
    {
        self.visible = visible;
    }
}

} // verus!
