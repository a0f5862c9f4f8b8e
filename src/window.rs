//! What a hotkey toggle does to the main window.
use vstd::prelude::*;

verus! {

/// The change a toggle makes to the window.
#[derive(Clone, Copy, Debug, PartialEq, Eq, Structural)]
pub enum WindowAction {
    /// Hide the visible window.
    Hide,
    /// Show the hidden window and give it focus.
    ShowAndFocus,
}

/// The toggle for a window that is, or is not, visible.
pub fn toggle_action(visible: bool) -> (r: WindowAction)
    ensures
        r == (if visible {
            WindowAction::Hide
        } else {
            WindowAction::ShowAndFocus
        }),
{
    if visible {
        WindowAction::Hide
    } else {
        WindowAction::ShowAndFocus
    }
}

} // verus!
