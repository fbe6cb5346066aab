//! Settings vocabulary and where the settings live.
use vstd::prelude::*;

use crate::paths::{path_join, path_join_spec};
use crate::pet::Personality;

verus! {

/// Which display the pet stays on.
#[derive(Debug, Clone, Copy, PartialEq, Eq, Structural)]
pub enum MonitorBehavior {
    CurrentDisplay,
    PrimaryDisplay,
}

/// The personality a new settings file starts with.
pub fn default_personality() -> (p: Personality)
    ensures
        p == Personality::Cheerful,
{
    Personality::Cheerful
}

/// The display behavior a new settings file starts with.
pub fn default_monitor_behavior() -> (m: MonitorBehavior)
    ensures
        m == MonitorBehavior::CurrentDisplay,
{
    MonitorBehavior::CurrentDisplay
}

/// A new settings file shows the pet.
pub fn default_pet_visible() -> (v: bool)
    ensures
        v,
{
    true
}

/// A new settings file starts outside focus mode.
pub fn default_focus_mode() -> (f: bool)
    ensures
        !f,
{
    false
}

/// The default of the settings that start switched on.
pub fn default_true() -> (t: bool)
    ensures
        t,
{
    true
}

/// The app's support directory under a home directory:
/// `<home>/Library/Application Support/Happy Cappy`.
pub open spec fn app_support_dir_spec(home: Seq<char>) -> Seq<char> {
    path_join_spec(
        path_join_spec(path_join_spec(home, "Library"@), "Application Support"@),
        "Happy Cappy"@,
    )
}

/// The app's support directory under `home`.
pub fn app_support_dir_in(home: &str) -> (r: String)
    ensures
        r@ == app_support_dir_spec(home@),
{
    let library = path_join(home, "Library");
    let support = path_join(library.as_str(), "Application Support");
    path_join(support.as_str(), "Happy Cappy")
}

/// The settings file inside the app's support directory.
pub fn default_settings_path(app_support_dir: &str) -> (r: String)
    ensures
        r@ == path_join_spec(app_support_dir@, "settings.json"@),
{
    path_join(app_support_dir, "settings.json")
}

/// The directory of custom pets inside the app's support directory.
pub fn custom_pets_dir(app_support_dir: &str) -> (r: String)
    ensures
        r@ == path_join_spec(app_support_dir@, "pets"@),
{
    path_join(app_support_dir, "pets")
}

/// The control socket inside the app's support directory.
pub fn control_socket_path(app_support_dir: &str) -> (r: String)
    ensures
        r@ == path_join_spec(app_support_dir@, "control.sock"@),
{
    path_join(app_support_dir, "control.sock")
}

} // verus!
