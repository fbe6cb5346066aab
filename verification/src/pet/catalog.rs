//! The pet catalog: the bundled pet and any custom pets.
use vstd::prelude::*;

use crate::external::io_error_text;
use crate::pet::manifest::{manifest_message, ManifestError, PetManifest};
use crate::text::{concat, debug_str, debug_str_spec, str_eq};

verus! {

/// One pet the user can pick.
#[derive(Debug)]
pub struct CatalogEntry {
    pub id: String,
    pub display_name: String,
    pub manifest: PetManifest,
    pub source: CatalogSource,
    pub spritesheet_path: String,
}

/// Where a pet comes from.
#[derive(Debug, Clone, Copy, PartialEq, Eq, Structural)]
pub enum CatalogSource {
    Bundled,
    Custom,
}

/// Why part of the catalog could not be loaded.
#[derive(Debug)]
pub enum CatalogLoadError {
    DirRead { path: String, error: std::io::Error },
    ManifestParse { path: String, error: ManifestError },
    SpritesheetMissing { manifest_path: String, sprite_path: String },
    DuplicateId { id: String, kept: String, dropped: String },
}

impl CatalogLoadError {
    /// The error's message (what its `Display` writes). Where the error
    /// carries an outside error, its text is that error's own.
    pub fn describe(&self) -> (r: String)
        ensures
            match *self {
                CatalogLoadError::DirRead { path, .. } => exists|t: Seq<char>|
                    #[trigger] ("catalog dir read failed at "@ + path@ + ": "@ + t) == r@,
                CatalogLoadError::ManifestParse { path, error } => exists|d: Seq<char>|
                    manifest_message(error, d) && #[trigger] ("manifest parse failed at "@ + path@
                        + ": "@ + d) == r@,
                CatalogLoadError::SpritesheetMissing { manifest_path, sprite_path } => r@
                    == "spritesheet for "@ + manifest_path@ + " missing at "@ + sprite_path@,
                CatalogLoadError::DuplicateId { id, kept, dropped } => r@ == "duplicate pet id "@
                    + debug_str_spec(id@) + ": keeping "@ + kept@ + " dropping "@ + dropped@,
            },
    {
        match self {
            CatalogLoadError::DirRead { path, error } => {
                let a = concat("catalog dir read failed at ", path.as_str());
                let b = concat(a.as_str(), ": ");
                let t = io_error_text(error);
                let r = concat(b.as_str(), t.as_str());
                assert(("catalog dir read failed at "@ + path@ + ": "@ + t@) == r@);
                r
            },
            CatalogLoadError::ManifestParse { path, error } => {
                let a = concat("manifest parse failed at ", path.as_str());
                let b = concat(a.as_str(), ": ");
                let d = error.describe();
                let r = concat(b.as_str(), d.as_str());
                assert(("manifest parse failed at "@ + path@ + ": "@ + d@) == r@);
                r
            },
            CatalogLoadError::SpritesheetMissing { manifest_path, sprite_path } => {
                let a = concat("spritesheet for ", manifest_path.as_str());
                let b = concat(a.as_str(), " missing at ");
                concat(b.as_str(), sprite_path.as_str())
            },
            CatalogLoadError::DuplicateId { id, kept, dropped } => {
                let q = debug_str(id.as_str());
                let a = concat("duplicate pet id ", q.as_str());
                let b = concat(a.as_str(), ": keeping ");
                let c = concat(b.as_str(), kept.as_str());
                let d = concat(c.as_str(), " dropping ");
                concat(d.as_str(), dropped.as_str())
            },
        }
    }
}

/// The pet that ships with the app.
pub struct BundledPet {
    pub manifest: PetManifest,
    pub spritesheet_path: String,
}

/// The pets the user can pick, and what failed to load.
#[derive(Debug)]
pub struct PetCatalog {
    entries: Vec<CatalogEntry>,
    load_errors: Vec<CatalogLoadError>,
}

/// The position of the first entry from `from` on whose id is `id` (the entry
/// count when there is none).
pub open spec fn first_with_id(entries: Seq<CatalogEntry>, id: Seq<char>, from: int) -> int
    decreases entries.len() - from,
{
    if from < 0 || from >= entries.len() {
        entries.len() as int
    } else if entries[from].id@ == id {
        from
    } else {
        first_with_id(entries, id, from + 1)
    }
}

impl PetCatalog {
    /// The entries, bundled pet first.
    pub closed spec fn spec_entries(&self) -> Seq<CatalogEntry> {
        self.entries@
    }

    /// The load errors, in the order they occurred.
    pub closed spec fn spec_load_errors(&self) -> Seq<CatalogLoadError> {
        self.load_errors@
    }

    /// A catalog with no entries and no errors.
    pub fn empty() -> (c: Self)
        ensures
            c.spec_entries().len() == 0,
            c.spec_load_errors().len() == 0,
    {
        PetCatalog { entries: Vec::new(), load_errors: Vec::new() }
    }

    /// The catalog a scan yields: the bundled pet, then whatever preparing the
    /// custom directory `custom_dir` reported (`prepared` is the outcome of
    /// creating it). A directory that cannot be created is one `DirRead` error.
    pub fn from_scan(bundled: BundledPet, custom_dir: &str, prepared: Result<(), std::io::Error>) -> (c:
        Self)
        ensures
            c.spec_entries().len() == 1,
            c.spec_entries()[0].id == bundled.manifest.id,
            c.spec_entries()[0].display_name == bundled.manifest.display_name,
            c.spec_entries()[0].manifest == bundled.manifest,
            c.spec_entries()[0].source == CatalogSource::Bundled,
            c.spec_entries()[0].spritesheet_path == bundled.spritesheet_path,
            prepared is Ok ==> c.spec_load_errors().len() == 0,
            prepared is Err ==> c.spec_load_errors().len() == 1 && (c.spec_load_errors()[0] matches CatalogLoadError::DirRead {
                path,
                ..
            } && path@ == custom_dir@),
    {
        let BundledPet { manifest, spritesheet_path } = bundled;
        let entry = CatalogEntry {
            id: manifest.id.clone(),
            display_name: manifest.display_name.clone(),
            manifest,
            source: CatalogSource::Bundled,
            spritesheet_path,
        };
        let mut entries: Vec<CatalogEntry> = Vec::new();
        entries.push(entry);
        let mut load_errors: Vec<CatalogLoadError> = Vec::new();
        match prepared {
            Ok(()) => {},
            Err(error) => {
                load_errors.push(CatalogLoadError::DirRead { path: String::from_str(custom_dir), error });
            },
        }
        PetCatalog { entries, load_errors }
    }

    /// The entries, bundled pet first.
    pub fn entries(&self) -> (e: &[CatalogEntry])
        ensures
            e@ == self.spec_entries(),
    {
        self.entries.as_slice()
    }

    /// The first entry whose id is `id`.
    pub fn lookup(&self, id: &str) -> (r: Option<&CatalogEntry>)
        ensures
            first_with_id(self.spec_entries(), id@, 0) < self.spec_entries().len() ==> r == Some(
                &self.spec_entries()[first_with_id(self.spec_entries(), id@, 0)],
            ),
            first_with_id(self.spec_entries(), id@, 0) >= self.spec_entries().len() ==> r is None,
    {
        let mut i: usize = 0;
        while i < self.entries.len()
            invariant
                i <= self.entries@.len(),
                first_with_id(self.entries@, id@, 0) == first_with_id(self.entries@, id@, i as int),
            decreases self.entries@.len() - i,
        {
            if str_eq(self.entries[i].id.as_str(), id) {
                return Some(&self.entries[i]);
            }
            i += 1;
        }
        None
    }

    /// The first entry whose id is `id`, taken out of the catalog.
    pub fn into_entry(self, id: &str) -> (r: Option<CatalogEntry>)
        ensures
            first_with_id(self.spec_entries(), id@, 0) < self.spec_entries().len() ==> r == Some(
                self.spec_entries()[first_with_id(self.spec_entries(), id@, 0)],
            ),
            first_with_id(self.spec_entries(), id@, 0) >= self.spec_entries().len() ==> r is None,
    {
        let ghost all = self.spec_entries();
        let mut entries = self.entries;
        let mut i: usize = 0;
        while i < entries.len()
            invariant
                entries@ == all,
                all == self.spec_entries(),
                i <= all.len(),
                first_with_id(all, id@, 0) == first_with_id(all, id@, i as int),
            decreases all.len() - i,
        {
            if str_eq(entries[i].id.as_str(), id) {
                assert(first_with_id(all, id@, i as int) == i);
                return Some(entries.swap_remove(i));
            }
            i += 1;
        }
        None
    }

    /// What failed to load.
    pub fn load_errors(&self) -> (e: &[CatalogLoadError])
        ensures
            e@ == self.spec_load_errors(),
    {
        self.load_errors.as_slice()
    }
}

} // verus!
