//! Where the app's resources live: inside a macOS app bundle, or `assets`.
use vstd::prelude::*;

use crate::paths::{
    path_extension, path_extension_spec, path_file_name, path_file_name_spec, path_join,
    path_join_spec, path_parent, path_parent_spec,
};
use crate::text::{opt_string_view, str_eq};

verus! {

/// The app's name.
pub const APP_NAME: &'static str = "DesktopPet";
/// The sprite sheet's file name.
pub const SPRITE_FILE_NAME: &'static str = "pet_spritesheet.png";

/// Paths of the app's resources.
#[derive(Debug, Clone, PartialEq, Eq)]
pub struct ResourcePaths {
    pub sprite_sheet: String,
}

/// `o` holds exactly `lit`.
pub open spec fn names(o: Option<Seq<char>>, lit: Seq<char>) -> bool {
    o == Some(lit)
}

/// An executable sits in `<name>.app/Contents/MacOS/`: its directory is named
/// `MacOS`, that directory's parent `Contents`, and the parent of that has the
/// extension `app`.
pub open spec fn bundle_layout(
    macos_dir_name: Option<Seq<char>>,
    contents_dir_name: Option<Seq<char>>,
    bundle_extension: Option<Seq<char>>,
) -> bool {
    names(macos_dir_name, "MacOS"@) && names(contents_dir_name, "Contents"@) && names(
        bundle_extension,
        "app"@,
    )
}

/// The resources directory for an executable path.
pub open spec fn resources_dir_spec(exe: Seq<char>) -> Seq<char> {
    match path_parent_spec(exe) {
        Some(macos_dir) => match path_parent_spec(macos_dir) {
            Some(contents_dir) => {
                let bundle_ext = match path_parent_spec(contents_dir) {
                    Some(app_dir) => path_extension_spec(app_dir),
                    None => None,
                };
                if bundle_layout(
                    path_file_name_spec(macos_dir),
                    path_file_name_spec(contents_dir),
                    bundle_ext,
                ) {
                    path_join_spec(contents_dir, "Resources"@)
                } else {
                    "assets"@
                }
            },
            None => "assets"@,
        },
        None => "assets"@,
    }
}

fn opt_is(o: &Option<String>, lit: &str) -> (r: bool)
    ensures
        r == names(opt_string_view(*o), lit@),
{
    match o {
        Some(s) => str_eq(s.as_str(), lit),
        None => false,
    }
}

/// Whether the three names describe an executable inside an app bundle.
pub fn is_bundle_layout(
    macos_dir_name: &Option<String>,
    contents_dir_name: &Option<String>,
    bundle_extension: &Option<String>,
) -> (r: bool)
    ensures
        r == bundle_layout(
            opt_string_view(*macos_dir_name),
            opt_string_view(*contents_dir_name),
            opt_string_view(*bundle_extension),
        ),
{
    opt_is(macos_dir_name, "MacOS") && opt_is(contents_dir_name, "Contents") && opt_is(
        bundle_extension,
        "app",
    )
}

fn resources_dir_from_executable(executable_path: &str) -> (r: String)
    ensures
        r@ == resources_dir_spec(executable_path@),
{
    match path_parent(executable_path) {
        Some(macos_dir) => match path_parent(macos_dir.as_str()) {
            Some(contents_dir) => {
                let bundle_ext = match path_parent(contents_dir.as_str()) {
                    Some(app_dir) => path_extension(app_dir.as_str()),
                    None => None,
                };
                let macos_name = path_file_name(macos_dir.as_str());
                let contents_name = path_file_name(contents_dir.as_str());
                if is_bundle_layout(&macos_name, &contents_name, &bundle_ext) {
                    path_join(contents_dir.as_str(), "Resources")
                } else {
                    "assets".to_owned()
                }
            },
            None => "assets".to_owned(),
        },
        None => "assets".to_owned(),
    }
}

/// The resource paths for an executable: inside `Contents/Resources` of its app
/// bundle, or under `assets` when it does not run from a bundle.
pub fn resource_paths_from_executable(executable_path: &str) -> (r: ResourcePaths)
    ensures
        r.sprite_sheet@ == path_join_spec(
            resources_dir_spec(executable_path@),
            "pet_spritesheet.png"@,
        ),
{
    let resources = resources_dir_from_executable(executable_path);
    ResourcePaths { sprite_sheet: path_join(resources.as_str(), SPRITE_FILE_NAME) }
}

} // verus!
