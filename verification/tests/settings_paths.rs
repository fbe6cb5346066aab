use happy_cappy::settings::{
    app_support_dir_in, control_socket_path, custom_pets_dir, default_focus_mode,
    default_monitor_behavior, default_personality, default_pet_visible, default_settings_path,
    default_true, MonitorBehavior,
};
use happy_cappy::pet::Personality;

#[test]
fn app_support_dir_is_happy_cappy_root() {
    let path = app_support_dir_in("/Users/someone");
    assert!(path.ends_with("Library/Application Support/Happy Cappy"));
    assert_eq!(path, "/Users/someone/Library/Application Support/Happy Cappy");
}

#[test]
fn settings_and_pets_paths_live_under_app_support_dir() {
    let root = app_support_dir_in("/Users/someone");
    assert_eq!(default_settings_path(&root), format!("{root}/settings.json"));
    assert_eq!(custom_pets_dir(&root), format!("{root}/pets"));
}

#[test]
fn custom_pets_dir_lives_under_happy_cappy_app_support() {
    let root = app_support_dir_in("/tmp/fake-home");
    let path = custom_pets_dir(&root);
    assert!(path.ends_with("Library/Application Support/Happy Cappy/pets"));
}

#[test]
fn control_socket_lives_in_app_support_dir() {
    let root = app_support_dir_in("/h");
    assert_eq!(control_socket_path(&root), "/h/Library/Application Support/Happy Cappy/control.sock");
}

#[test]
fn settings_defaults_start_cheerful_visible_and_unfocused() {
    assert_eq!(default_personality(), Personality::Cheerful);
    assert_eq!(default_monitor_behavior(), MonitorBehavior::CurrentDisplay);
    assert!(default_pet_visible());
    assert!(!default_focus_mode());
    assert!(default_true());
}
