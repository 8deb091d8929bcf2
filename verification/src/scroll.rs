//! Keyboard scrolling of focusable scroll containers: which keystrokes scroll,
//! along which axis and by how much (a line, a page, or to an end). The
//! offsets themselves are computed by the renderer from this decision.

use vstd::prelude::*;

use crate::text_util::str_eq;

verus! {

/// The modifier keys held with a keystroke.
#[derive(Debug, Clone, Copy, PartialEq, Eq, Structural)]
pub struct KeyModifiers {
    pub shift: bool,
    pub control: bool,
    pub alt: bool,
    /// Cmd on macOS, the Windows key elsewhere.
    pub platform: bool,
}

/// How a keystroke scrolls a container.
#[derive(Debug, Clone, Copy, PartialEq, Eq, Structural)]
pub enum ScrollAction {
    /// One line towards the top (Up).
    LineUp,
    /// One line towards the bottom (Down).
    LineDown,
    /// One line towards the left edge (Left).
    LineLeft,
    /// One line towards the right edge (Right).
    LineRight,
    /// One page up (PageUp, Shift+Space).
    PageUp,
    /// One page down (PageDown, Space).
    PageDown,
    /// To the start of the vertical axis (Home).
    HomeY,
    /// To the start of the horizontal axis (Home, horizontal-only container).
    HomeX,
    /// To the end of the vertical axis (End).
    EndY,
    /// To the end of the horizontal axis (End, horizontal-only container).
    EndX,
}

/// The scrolling a keystroke asks of a container that scrolls horizontally
/// (`has_x`) and/or vertically (`has_y`), or `None` when the key passes
/// through: Ctrl/Alt/Cmd chords never scroll; Shift only turns Space into
/// PageUp; vertical keys need a vertical axis and Left/Right a horizontal
/// one; Home/End act on the vertical axis when there is one, else on the
/// horizontal one.
pub open spec fn spec_scroll_action(key: Seq<char>, mods: KeyModifiers, has_x: bool, has_y: bool) -> Option<
    ScrollAction,
> {
    if mods.control || mods.alt || mods.platform {
        None
    } else if mods.shift && key != "space"@ {
        None
    } else {
        let k = if mods.shift { "pageup"@ } else { key };
        if k == "up"@ && has_y {
            Some(ScrollAction::LineUp)
        } else if k == "down"@ && has_y {
            Some(ScrollAction::LineDown)
        } else if k == "left"@ && has_x {
            Some(ScrollAction::LineLeft)
        } else if k == "right"@ && has_x {
            Some(ScrollAction::LineRight)
        } else if k == "pageup"@ && has_y {
            Some(ScrollAction::PageUp)
        } else if (k == "pagedown"@ || k == "space"@) && has_y {
            Some(ScrollAction::PageDown)
        } else if k == "home"@ {
            if has_y {
                Some(ScrollAction::HomeY)
            } else if has_x {
                Some(ScrollAction::HomeX)
            } else {
                None
            }
        } else if k == "end"@ {
            if has_y {
                Some(ScrollAction::EndY)
            } else if has_x {
                Some(ScrollAction::EndX)
            } else {
                None
            }
        } else {
            None
        }
    }
}

/// The scrolling a keystroke asks for (see [`spec_scroll_action`]).
pub fn scroll_action_for_key(key: &str, mods: KeyModifiers, has_x: bool, has_y: bool) -> (r: Option<
    ScrollAction,
>)
    ensures
        r == spec_scroll_action(key@, mods, has_x, has_y),
{
    if mods.control || mods.alt || mods.platform {
        return None;
    }
    let k: &str = if mods.shift {
        if str_eq(key, "space") {
            "pageup"
        } else {
            return None;
        }
    } else {
        key
    };
    if str_eq(k, "up") && has_y {
        Some(ScrollAction::LineUp)
    } else if str_eq(k, "down") && has_y {
        Some(ScrollAction::LineDown)
    } else if str_eq(k, "left") && has_x {
        Some(ScrollAction::LineLeft)
    } else if str_eq(k, "right") && has_x {
        Some(ScrollAction::LineRight)
    } else if str_eq(k, "pageup") && has_y {
        Some(ScrollAction::PageUp)
    } else if (str_eq(k, "pagedown") || str_eq(k, "space")) && has_y {
        Some(ScrollAction::PageDown)
    } else if str_eq(k, "home") {
        if has_y {
            Some(ScrollAction::HomeY)
        } else if has_x {
            Some(ScrollAction::HomeX)
        } else {
            None
        }
    } else if str_eq(k, "end") {
        if has_y {
            Some(ScrollAction::EndY)
        } else if has_x {
            Some(ScrollAction::EndX)
        } else {
            None
        }
    } else {
        None
    }
}

} // verus!
