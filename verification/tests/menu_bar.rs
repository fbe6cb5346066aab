use happy_cappy::menu_bar::{
    command_from_tag, focus_mode_title, settings_command_for_button, MenuCommand,
    MENU_TAG_AVOID_TEXT_CURSOR, MENU_TAG_AX_STATUS_LABEL, MENU_TAG_CHEER_UP, MENU_TAG_FOCUS_MODE,
    MENU_TAG_FOLLOW_CURSOR_WHEN_IDLE, MENU_TAG_HIDE_ON_FULLSCREEN, MENU_TAG_NAP, MENU_TAG_QUIT,
    MENU_TAG_REREQUEST_ACCESSIBILITY, MENU_TAG_RESET, MENU_TAG_SCALE, MENU_TAG_SETTINGS,
    MENU_TAG_SHOW_HIDE,
};
use happy_cappy::window_macos::context_focus_mode_title;

#[test]
fn command_tags_map_to_app_commands() {
    assert_eq!(command_from_tag(MENU_TAG_SETTINGS), Some(MenuCommand::OpenSettings));
    assert_eq!(command_from_tag(MENU_TAG_SHOW_HIDE), Some(MenuCommand::TogglePetVisibility));
    assert_eq!(command_from_tag(MENU_TAG_RESET), Some(MenuCommand::ResetPosition));
    assert_eq!(command_from_tag(MENU_TAG_FOCUS_MODE), Some(MenuCommand::ToggleFocusMode));
    assert_eq!(command_from_tag(MENU_TAG_NAP), Some(MenuCommand::Nap));
    assert_eq!(command_from_tag(MENU_TAG_CHEER_UP), Some(MenuCommand::CheerUp));
    assert_eq!(command_from_tag(MENU_TAG_QUIT), Some(MenuCommand::Quit));
    assert_eq!(command_from_tag(999), None);
}

#[test]
fn focus_mode_titles_match_runtime_state() {
    assert_eq!(focus_mode_title(false), "Enable Focus Mode");
    assert_eq!(focus_mode_title(true), "Disable Focus Mode");
}

#[test]
fn settings_command_for_button_maps_follow_cursor() {
    assert_eq!(
        settings_command_for_button(MENU_TAG_FOLLOW_CURSOR_WHEN_IDLE, true),
        Some(MenuCommand::SetFollowCursorWhenIdle(true))
    );
    assert_eq!(
        settings_command_for_button(MENU_TAG_FOLLOW_CURSOR_WHEN_IDLE, false),
        Some(MenuCommand::SetFollowCursorWhenIdle(false))
    );
}

#[test]
fn settings_command_for_button_maps_avoid_text_cursor() {
    assert_eq!(
        settings_command_for_button(MENU_TAG_AVOID_TEXT_CURSOR, true),
        Some(MenuCommand::SetAvoidTextCursor(true))
    );
}

#[test]
fn settings_command_for_button_maps_hide_on_fullscreen() {
    assert_eq!(
        settings_command_for_button(MENU_TAG_HIDE_ON_FULLSCREEN, false),
        Some(MenuCommand::SetHideOnFullscreen(false))
    );
}

#[test]
fn settings_command_for_button_returns_none_for_non_checkbox_tags() {
    assert_eq!(settings_command_for_button(MENU_TAG_SCALE, true), None);
    assert_eq!(settings_command_for_button(MENU_TAG_AX_STATUS_LABEL, true), None);
    assert_eq!(settings_command_for_button(MENU_TAG_REREQUEST_ACCESSIBILITY, true), None);
}

#[test]
fn command_from_tag_maps_rerequest_accessibility() {
    assert_eq!(
        command_from_tag(MENU_TAG_REREQUEST_ACCESSIBILITY),
        Some(MenuCommand::RequestAccessibilityPermission)
    );
}

#[test]
fn context_focus_mode_title_tracks_current_focus_mode() {
    assert_eq!(context_focus_mode_title(false), "Enable Focus Mode");
    assert_eq!(context_focus_mode_title(true), "Disable Focus Mode");
}
