//! Decoding of the renderer's and the command socket's message tags.

use vstd::prelude::*;

use crate::drag::{COLLAPSED_HEIGHT, COLLAPSED_WIDTH};
use crate::overlay::Rect;

verus! {

/// Whether two strings hold the same characters.
pub fn text_eq(a: &str, b: &str) -> (r: bool)
    ensures
        r == (a@ == b@),
{
    let n = a.unicode_len();
    if n != b.unicode_len() {
        return false;
    }
    let mut i: usize = 0;
    while i < n
        invariant
            n == a@.len(),
            n == b@.len(),
            i <= n,
            forall|j: int| 0 <= j < i ==> a@[j] == b@[j],
        decreases n - i,
    {
        if a.get_char(i) != b.get_char(i) {
            return false;
        }
        i += 1;
    }
    assert(a@ =~= b@);
    true
}

/// The three phases of a pointer drag.
#[derive(Clone, Copy, Debug, PartialEq, Eq, Structural)]
pub enum MoveAction {
    StartDrag,
    Drag,
    EndDrag,
}

/// The phase a move message's `action` tag names, if any.
pub open spec fn move_action_of(tag: Seq<char>) -> Option<MoveAction> {
    if tag == "startDrag"@ {
        Some(MoveAction::StartDrag)
    } else if tag == "drag"@ {
        Some(MoveAction::Drag)
    } else if tag == "endDrag"@ {
        Some(MoveAction::EndDrag)
    } else {
        None
    }
}

/// Decodes a move message's `action` tag; an unknown tag is `None`.
pub fn move_action(tag: &str) -> (r: Option<MoveAction>)
    ensures
        r == move_action_of(tag@),
{
    if text_eq(tag, "startDrag") {
        Some(MoveAction::StartDrag)
    } else if text_eq(tag, "drag") {
        Some(MoveAction::Drag)
    } else if text_eq(tag, "endDrag") {
        Some(MoveAction::EndDrag)
    } else {
        None
    }
}

/// What a window-control message asks for.
#[derive(Clone, Copy, Debug, PartialEq, Eq, Structural)]
pub enum WindowControl {
    Hide,
    Show,
}

/// The request a window-control message's `action` tag names, if any.
pub open spec fn window_control_of(tag: Seq<char>) -> Option<WindowControl> {
    if tag == "hide"@ {
        Some(WindowControl::Hide)
    } else if tag == "show"@ {
        Some(WindowControl::Show)
    } else {
        None
    }
}

/// Decodes a window-control message's `action` tag.
pub fn window_control(tag: &str) -> (r: Option<WindowControl>)
    ensures
        r == window_control_of(tag@),
{
    if text_eq(tag, "hide") {
        Some(WindowControl::Hide)
    } else if text_eq(tag, "show") {
        Some(WindowControl::Show)
    } else {
        None
    }
}

/// Whether a resize message's `action` tag asks for a resize.
pub fn is_resize(tag: &str) -> (r: bool)
    ensures
        r == (tag@ == "resize"@),
{
    text_eq(tag, "resize")
}

/// What an input-region message asks for.
#[derive(Clone, Copy, Debug, PartialEq, Eq, Structural)]
pub enum InputRegionRequest {
    /// Take input only over the character's rectangle.
    Character(Rect),
    /// Take input over the whole window.
    Full,
}

/// The request a message with `mode` and optional rectangle fields makes:
/// `"character"` selects the rectangle, each missing field taking the
/// collapsed character's value (origin, `COLLAPSED_WIDTH` by
/// `COLLAPSED_HEIGHT`); any other or missing mode is the whole window.
pub open spec fn input_region_request_of(
    mode: Option<Seq<char>>,
    x: Option<i32>,
    y: Option<i32>,
    width: Option<i32>,
    height: Option<i32>,
) -> InputRegionRequest {
    if mode == Some("character"@) {
        InputRegionRequest::Character(
            Rect {
                x: x.unwrap_or(0),
                y: y.unwrap_or(0),
                width: width.unwrap_or(COLLAPSED_WIDTH as i32),
                height: height.unwrap_or(COLLAPSED_HEIGHT as i32),
            },
        )
    } else {
        InputRegionRequest::Full
    }
}

/// Decodes an input-region message.
pub fn input_region_request(
    mode: Option<&str>,
    x: Option<i32>,
    y: Option<i32>,
    width: Option<i32>,
    height: Option<i32>,
) -> (r: InputRegionRequest)
    ensures
        r == input_region_request_of(
            match mode {
                Some(m) => Some(m@),
                None => None,
            },
            x,
            y,
            width,
            height,
        ),
{
    let character = match mode {
        Some(m) => text_eq(m, "character"),
        None => false,
    };
    if character {
        InputRegionRequest::Character(
            Rect {
                x: x.unwrap_or(0),
                y: y.unwrap_or(0),
                width: width.unwrap_or(COLLAPSED_WIDTH as i32),
                height: height.unwrap_or(COLLAPSED_HEIGHT as i32),
            },
        )
    } else {
        InputRegionRequest::Full
    }
}

} // verus!
