//! When the history window hides itself.

use vstd::prelude::*;

verus! {

/// The window hides on focus loss (or on the toggle shortcut) only when it
/// is visible and not minimized.
pub fn should_hide_on_focus_loss(is_visible: bool, is_minimized: bool) -> (r: bool)
    ensures
        r == (is_visible && !is_minimized),
{
    is_visible && !is_minimized
}

} // verus!
