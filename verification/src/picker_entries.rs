//! The data behind the pet picker: one row per pet, failures included.
use vstd::prelude::*;

use crate::external::io_error_text;
use crate::paths::{path_file_name, path_file_name_spec, path_parent, path_parent_spec};
use crate::pet::catalog::CatalogLoadError;
use crate::pet::manifest::{manifest_message, ManifestError};
use crate::text::{concat, decimal, decimal_spec, str_eq};

verus! {

/// Whether a picker row is the bundled pet or one the user supplied.
#[derive(Debug, Clone, Copy, PartialEq, Eq, Structural)]
pub enum PickerSource {
    Bundled,
    Custom,
}

/// The plain data of one picker row.
#[derive(Debug, Clone)]
pub struct PickerEntryBase {
    pub id: String,
    pub display_name: String,
    pub source: PickerSource,
    pub frame_width: u32,
    pub frame_height: u32,
    pub animations: Vec<String>,
    pub error: Option<String>,
    /// The pet's directory for a custom pet; `None` for the bundled pet.
    pub source_path: Option<String>,
}

/// The longest message, in characters, that the detail pane shows.
pub const MAX_ERROR_CHARS: usize = 140;

/// `s` cut to at most `max` characters: unchanged when it fits, else its
/// first `max - 1` characters followed by an ellipsis.
pub open spec fn ellipsized(s: Seq<char>, max: nat) -> Seq<char> {
    if s.len() <= max {
        s
    } else {
        s.take(if max == 0 { 0 } else { max - 1 }).push('…')
    }
}

/// The name shown for a missing spritesheet: its file name, or the whole
/// path when it has none.
pub open spec fn sprite_display_name(sprite_path: Seq<char>) -> Seq<char> {
    match path_file_name_spec(sprite_path) {
        Some(n) => n,
        None => sprite_path,
    }
}

/// Whether `msg` is the picker's one-line message for `e`. Where `e` carries
/// an outside error, its text is the error's own and only the frame around
/// it is fixed.
pub open spec fn catalog_error_message(e: CatalogLoadError, msg: Seq<char>) -> bool {
    match e {
        CatalogLoadError::DirRead { .. } => exists|t: Seq<char>|
            #[trigger] ellipsized("Couldn't read pet directory: "@ + t, 140) == msg,
        CatalogLoadError::ManifestParse { error, .. } => exists|d: Seq<char>|
            manifest_message(error, d) && #[trigger] ellipsized("Invalid pet.json: "@ + d, 140) == msg,
        CatalogLoadError::SpritesheetMissing { sprite_path, .. } => msg == ellipsized(
            "Spritesheet not found: "@ + sprite_display_name(sprite_path@),
            140,
        ),
        CatalogLoadError::DuplicateId { id, .. } => msg == ellipsized(
            "ID `"@ + id@ + "` conflicts with the bundled pet"@,
            140,
        ),
    }
}

/// The directory that holds `child` and that directory's own name.
pub open spec fn folder_and_parent_spec(child: Seq<char>) -> Option<(Seq<char>, Seq<char>)> {
    match path_parent_spec(child) {
        None => None,
        Some(parent) => match path_file_name_spec(parent) {
            None => None,
            Some(name) => Some((name, parent)),
        },
    }
}

/// The path of the pet directory that a load failure points at (through the
/// file named in it); `None` for a failure of the whole catalog.
pub open spec fn failing_file(e: CatalogLoadError) -> Option<Seq<char>> {
    match e {
        CatalogLoadError::DirRead { .. } => None,
        CatalogLoadError::ManifestParse { path, .. } => Some(path@),
        CatalogLoadError::SpritesheetMissing { manifest_path, .. } => Some(manifest_path@),
        CatalogLoadError::DuplicateId { dropped, .. } => Some(dropped@),
    }
}

/// `input` cut to `max_len` characters, ending in an ellipsis when cut.
fn truncate_with_ellipsis(input: &str, max_len: usize) -> (r: String)
    ensures
        r@ == ellipsized(input@, max_len as nat),
{
    let n = input.unicode_len();
    if n <= max_len {
        return input.to_owned();
    }
    let take: usize = if max_len == 0 {
        0
    } else {
        max_len - 1
    };
    let mut out = String::from_str(input.substring_char(0, take));
    let dots = "…";
    proof {
        reveal_strlit("…");
    }
    out.append(dots);
    assert(out@ =~= input@.take(take as int).push('…'));
    out
}

/// A catalog load failure as one line for the user, at most 140 characters.
pub fn format_catalog_error(error: &CatalogLoadError) -> (r: String)
    ensures
        catalog_error_message(*error, r@),
        r@.len() <= 140,
{
    let raw = match error {
        CatalogLoadError::DirRead { error, .. } => {
            let t = io_error_text(error);
            concat("Couldn't read pet directory: ", t.as_str())
        },
        CatalogLoadError::ManifestParse { error, .. } => {
            let d = error.describe();
            let raw = concat("Invalid pet.json: ", d.as_str());
            assert(raw@.subrange("Invalid pet.json: "@.len() as int, raw@.len() as int) =~= d@);
            raw
        },
        CatalogLoadError::SpritesheetMissing { sprite_path, .. } => {
            let name = match path_file_name(sprite_path.as_str()) {
                Some(n) => n,
                None => sprite_path.clone(),
            };
            concat("Spritesheet not found: ", name.as_str())
        },
        CatalogLoadError::DuplicateId { id, .. } => {
            let a = concat("ID `", id.as_str());
            concat(a.as_str(), "` conflicts with the bundled pet")
        },
    };
    let r = truncate_with_ellipsis(raw.as_str(), MAX_ERROR_CHARS);
    proof {
        match error {
            CatalogLoadError::DirRead { .. } => {
                let t = raw@.subrange("Couldn't read pet directory: "@.len() as int, raw@.len() as int);
                assert("Couldn't read pet directory: "@ + t =~= raw@);
                assert(ellipsized("Couldn't read pet directory: "@ + t, 140) == r@);
            },
            CatalogLoadError::ManifestParse { error: me, .. } => {
                let d = raw@.subrange("Invalid pet.json: "@.len() as int, raw@.len() as int);
                assert("Invalid pet.json: "@ + d =~= raw@);
                assert(ellipsized("Invalid pet.json: "@ + d, 140) == r@);
                assert(manifest_message(*me, d));
            },
            _ => {},
        }
    }
    r
}

/// The directory that holds `child_path`, with that directory's name.
fn folder_and_parent(child_path: &str) -> (r: Option<(String, String)>)
    ensures
        match r {
            Some((name, parent)) => folder_and_parent_spec(child_path@) == Some((name@, parent@)),
            None => folder_and_parent_spec(child_path@) is None,
        },
{
    let parent = match path_parent(child_path) {
        Some(p) => p,
        None => return None,
    };
    let name = match path_file_name(parent.as_str()) {
        Some(n) => n,
        None => return None,
    };
    Some((name, parent))
}

/// A picker row for a pet that failed to load, named after its directory;
/// `None` for a failure of the whole catalog, or when the failing file has no
/// named directory.
pub fn picker_entry_from_load_error(error: &CatalogLoadError) -> (r: Option<PickerEntryBase>)
    ensures
        match failing_file(*error) {
            None => r is None,
            Some(file) => match folder_and_parent_spec(file) {
                None => r is None,
                Some((name, parent)) => r matches Some(entry) && {
                    &&& entry.id@ == name
                    &&& entry.display_name@ == name
                    &&& entry.source == PickerSource::Custom
                    &&& entry.frame_width == 0
                    &&& entry.frame_height == 0
                    &&& entry.animations@.len() == 0
                    &&& entry.error matches Some(msg) && catalog_error_message(*error, msg@)
                        && msg@.len() <= 140
                    &&& entry.source_path matches Some(p) && p@ == parent
                },
            },
        },
{
    let found = match error {
        CatalogLoadError::ManifestParse { path, .. } => folder_and_parent(path.as_str()),
        CatalogLoadError::SpritesheetMissing { manifest_path, .. } => folder_and_parent(
            manifest_path.as_str(),
        ),
        CatalogLoadError::DuplicateId { dropped, .. } => folder_and_parent(dropped.as_str()),
        CatalogLoadError::DirRead { .. } => return None,
    };
    let (folder, source_path) = match found {
        Some(pair) => pair,
        None => return None,
    };
    let message = format_catalog_error(error);
    Some(
        PickerEntryBase {
            id: folder.clone(),
            display_name: folder,
            source: PickerSource::Custom,
            frame_width: 0,
            frame_height: 0,
            animations: Vec::new(),
            error: Some(message),
            source_path: Some(source_path),
        },
    )
}

/// The row the picker selects when it is handed `entries`: the first whose id
/// is `active_id`, else the first row; `None` when there are no rows.
pub fn initial_selection(entries: &[PickerEntryBase], active_id: &str) -> (r: Option<usize>)
    ensures
        entries@.len() == 0 <==> r is None,
        r matches Some(i) ==> i < entries@.len() && ({
            ||| entries@[i as int].id@ == active_id@ && forall|j: int|
                0 <= j < i ==> (#[trigger] entries@[j]).id@ != active_id@
            ||| i == 0 && forall|j: int|
                0 <= j < entries@.len() ==> (#[trigger] entries@[j]).id@ != active_id@
        }),
{
    if entries.len() == 0 {
        return None;
    }
    let mut i: usize = 0;
    while i < entries.len()
        invariant
            i <= entries@.len(),
            forall|j: int| 0 <= j < i ==> (#[trigger] entries@[j]).id@ != active_id@,
        decreases entries@.len() - i,
    {
        if str_eq(entries[i].id.as_str(), active_id) {
            return Some(i);
        }
        i += 1;
    }
    Some(0)
}

/// Whether the row can be made the active pet: it loaded, and it is not the
/// active pet already.
pub fn can_apply(entry: &PickerEntryBase, active_id: &str) -> (r: bool)
    ensures
        r == (entry.error is None && entry.id@ != active_id@),
{
    entry.error.is_none() && !str_eq(entry.id.as_str(), active_id)
}

/// The word for where a pet comes from.
pub open spec fn source_word(s: PickerSource) -> Seq<char> {
    match s {
        PickerSource::Bundled => "bundled"@,
        PickerSource::Custom => "custom"@,
    }
}

/// A frame size as `width×height`, or a dash when it is not known (zero).
pub open spec fn dimensions_text(width: u32, height: u32) -> Seq<char> {
    if width == 0 {
        "—"@
    } else {
        decimal_spec(width as nat) + "×"@ + decimal_spec(height as nat)
    }
}

/// The detail pane's line on where the pet comes from and its frame size.
pub fn source_label(entry: &PickerEntryBase) -> (r: String)
    ensures
        r@ == source_word(entry.source) + " · "@ + dimensions_text(entry.frame_width, entry.frame_height),
{
    let word = match entry.source {
        PickerSource::Bundled => "bundled",
        PickerSource::Custom => "custom",
    };
    let dims = if entry.frame_width == 0 {
        "—".to_owned()
    } else {
        let w = decimal(entry.frame_width as u64);
        let with_sign = concat(w.as_str(), "×");
        let h = decimal(entry.frame_height as u64);
        concat(with_sign.as_str(), h.as_str())
    };
    let head = concat(word, " · ");
    concat(head.as_str(), dims.as_str())
}

/// The text of each string.
pub open spec fn texts(v: Seq<String>) -> Seq<Seq<char>> {
    v.map_values(|s: String| s@)
}

/// `items` written one after another with `sep` between each two.
pub open spec fn joined(items: Seq<Seq<char>>, sep: Seq<char>) -> Seq<char>
    decreases items.len(),
{
    if items.len() == 0 {
        Seq::empty()
    } else if items.len() == 1 {
        items[0]
    } else {
        joined(items.drop_last(), sep) + sep + items.last()
    }
}

/// The detail pane's line naming the pet's animations, comma separated, or
/// a dash when it has none.
pub fn animations_label(entry: &PickerEntryBase) -> (r: String)
    ensures
        r@ == "anims: "@ + if entry.animations@.len() == 0 {
            "—"@
        } else {
            joined(texts(entry.animations@), ", "@)
        },
{
    let names = &entry.animations;
    if names.len() == 0 {
        return concat("anims: ", "—");
    }
    let ghost items = texts(names@);
    let mut out = names[0].clone();
    proof {
        assert(items.take(1) =~= seq![items[0]]);
    }
    let mut i: usize = 1;
    while i < names.len()
        invariant
            1 <= i <= names@.len(),
            items == texts(names@),
            out@ == joined(items.take(i as int), ", "@),
        decreases names@.len() - i,
    {
        let with_sep = concat(out.as_str(), ", ");
        out = concat(with_sep.as_str(), names[i].as_str());
        proof {
            assert(items.take(i + 1).drop_last() =~= items.take(i as int));
        }
        i += 1;
    }
    proof {
        assert(items.take(names@.len() as int) =~= items);
    }
    concat("anims: ", out.as_str())
}

/// The row's title in the list: a warning sign before the name of a pet that
/// failed to load.
pub fn row_title(entry: &PickerEntryBase) -> (r: String)
    ensures
        r@ == if entry.error is Some {
            "\u{26a0} "@ + entry.display_name@
        } else {
            entry.display_name@
        },
{
    if entry.error.is_some() {
        concat("\u{26a0} ", entry.display_name.as_str())
    } else {
        entry.display_name.clone()
    }
}

} // verus!
