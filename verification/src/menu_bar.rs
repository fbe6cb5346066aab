//! Menu bar vocabulary: item tags, the commands they send, and titles.
use vstd::prelude::*;

verus! {

pub const MENU_TAG_SETTINGS: isize = 1001;
pub const MENU_TAG_SHOW_HIDE: isize = 1002;
pub const MENU_TAG_RESET: isize = 1003;
pub const MENU_TAG_QUIT: isize = 1004;
pub const MENU_TAG_FOCUS_MODE: isize = 1005;
pub const MENU_TAG_NAP: isize = 1006;
pub const MENU_TAG_CHEER_UP: isize = 1007;
pub const MENU_TAG_PERSONALITY: isize = 1101;
pub const MENU_TAG_SCALE: isize = 1102;
pub const MENU_TAG_MOVEMENT_SPEED: isize = 1103;
pub const MENU_TAG_HOVER_INTENSITY: isize = 1104;
pub const MENU_TAG_MONITOR_BEHAVIOR: isize = 1105;
pub const MENU_TAG_FOLLOW_CURSOR_WHEN_IDLE: isize = 1106;
pub const MENU_TAG_AVOID_TEXT_CURSOR: isize = 1107;
pub const MENU_TAG_HIDE_ON_FULLSCREEN: isize = 1108;
pub const MENU_TAG_REREQUEST_ACCESSIBILITY: isize = 1109;
pub const MENU_TAG_AX_STATUS_LABEL: isize = 1110;

/// A command that a menu item or a settings checkbox sends to the app.
#[derive(Debug, Clone, Copy, PartialEq, Eq, Structural)]
pub enum MenuCommand {
    OpenSettings,
    TogglePetVisibility,
    ResetPosition,
    Quit,
    ToggleFocusMode,
    Nap,
    CheerUp,
    RequestAccessibilityPermission,
    SetFollowCursorWhenIdle(bool),
    SetAvoidTextCursor(bool),
    SetHideOnFullscreen(bool),
}

/// The command a menu item's tag stands for.
pub open spec fn command_for_tag_spec(tag: isize) -> Option<MenuCommand> {
    if tag == MENU_TAG_SETTINGS {
        Some(MenuCommand::OpenSettings)
    } else if tag == MENU_TAG_SHOW_HIDE {
        Some(MenuCommand::TogglePetVisibility)
    } else if tag == MENU_TAG_RESET {
        Some(MenuCommand::ResetPosition)
    } else if tag == MENU_TAG_QUIT {
        Some(MenuCommand::Quit)
    } else if tag == MENU_TAG_FOCUS_MODE {
        Some(MenuCommand::ToggleFocusMode)
    } else if tag == MENU_TAG_NAP {
        Some(MenuCommand::Nap)
    } else if tag == MENU_TAG_CHEER_UP {
        Some(MenuCommand::CheerUp)
    } else if tag == MENU_TAG_REREQUEST_ACCESSIBILITY {
        Some(MenuCommand::RequestAccessibilityPermission)
    } else {
        None
    }
}

/// The command a clicked menu item sends; `None` for a tag that sends none.
pub fn command_from_tag(tag: isize) -> (c: Option<MenuCommand>)
    ensures
        c == command_for_tag_spec(tag),
{
    if tag == MENU_TAG_SETTINGS {
        Some(MenuCommand::OpenSettings)
    } else if tag == MENU_TAG_SHOW_HIDE {
        Some(MenuCommand::TogglePetVisibility)
    } else if tag == MENU_TAG_RESET {
        Some(MenuCommand::ResetPosition)
    } else if tag == MENU_TAG_QUIT {
        Some(MenuCommand::Quit)
    } else if tag == MENU_TAG_FOCUS_MODE {
        Some(MenuCommand::ToggleFocusMode)
    } else if tag == MENU_TAG_NAP {
        Some(MenuCommand::Nap)
    } else if tag == MENU_TAG_CHEER_UP {
        Some(MenuCommand::CheerUp)
    } else if tag == MENU_TAG_REREQUEST_ACCESSIBILITY {
        Some(MenuCommand::RequestAccessibilityPermission)
    } else {
        None
    }
}

/// The command a settings checkbox sends for its new state; `None` for any
/// control that is not one of the three checkboxes.
pub fn settings_command_for_button(tag: isize, state_is_on: bool) -> (c: Option<MenuCommand>)
    ensures
        c == if tag == MENU_TAG_FOLLOW_CURSOR_WHEN_IDLE {
            Some(MenuCommand::SetFollowCursorWhenIdle(state_is_on))
        } else if tag == MENU_TAG_AVOID_TEXT_CURSOR {
            Some(MenuCommand::SetAvoidTextCursor(state_is_on))
        } else if tag == MENU_TAG_HIDE_ON_FULLSCREEN {
            Some(MenuCommand::SetHideOnFullscreen(state_is_on))
        } else {
            None
        },
{
    if tag == MENU_TAG_FOLLOW_CURSOR_WHEN_IDLE {
        Some(MenuCommand::SetFollowCursorWhenIdle(state_is_on))
    } else if tag == MENU_TAG_AVOID_TEXT_CURSOR {
        Some(MenuCommand::SetAvoidTextCursor(state_is_on))
    } else if tag == MENU_TAG_HIDE_ON_FULLSCREEN {
        Some(MenuCommand::SetHideOnFullscreen(state_is_on))
    } else {
        None
    }
}

/// The focus-mode item's title: it names the action the item performs.
pub open spec fn focus_mode_title_spec(focus_mode: bool) -> Seq<char> {
    if focus_mode {
        "Disable Focus Mode"@
    } else {
        "Enable Focus Mode"@
    }
}

/// The menu bar's focus-mode item title for the current state.
pub fn focus_mode_title(focus_mode: bool) -> (r: &'static str)
    ensures
        r@ == focus_mode_title_spec(focus_mode),
{
    if focus_mode {
        "Disable Focus Mode"
    } else {
        "Enable Focus Mode"
    }
}

} // verus!
