//! The pet window's context menu vocabulary.
use vstd::prelude::*;

use crate::menu_bar::focus_mode_title_spec;

verus! {

/// The context menu's focus-mode item title for the current state.
pub fn context_focus_mode_title(focus_mode: bool) -> (r: &'static str)
    ensures
        r@ == focus_mode_title_spec(focus_mode),
{
    if focus_mode {
        "Disable Focus Mode"
    } else {
        "Enable Focus Mode"
    }
}

} // verus!
