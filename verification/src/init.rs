//! What the global shortcut does to the main window.

use vstd::prelude::*;

verus! {

/// What to do with the main window.
#[derive(Clone, Copy, Debug, PartialEq, Eq, Structural)]
pub enum WindowAction {
    /// Show it, take it out of the minimized state and give it the focus.
    Show,
    /// Take it out of the minimized state and give it the focus.
    Restore,
    /// Hide it.
    Hide,
}

/// The shortcut toggles the window: one that is hidden is shown, one that is
/// minimized is restored, and one that is in plain view is hidden.
pub fn shortcut_action(is_visible: bool, is_minimized: bool) -> (action: WindowAction)
    ensures
        !is_visible ==> action == WindowAction::Show,
        is_visible && is_minimized ==> action == WindowAction::Restore,
        is_visible && !is_minimized ==> action == WindowAction::Hide,
{
    if !is_visible {
        WindowAction::Show
    } else if is_minimized {
        WindowAction::Restore
    } else {
        WindowAction::Hide
    }
}

} // verus!
