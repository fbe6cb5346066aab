use happy_cappy::pet::catalog::{BundledPet, CatalogLoadError, CatalogSource, PetCatalog};
use happy_cappy::pet::manifest::{Animation, FrameGeometry, PetManifest};
use happy_cappy::pet::table::AnimationTable;

fn test_bundled_pet() -> BundledPet {
    let mut animations = AnimationTable::new();
    animations.insert("idle".to_string(), Animation::from_indices(&[0, 1, 2, 3]));
    let manifest = PetManifest {
        manifest_version: 1,
        id: "happy-cappy".to_string(),
        display_name: "Happy Cappy".to_string(),
        spritesheet_path: "happy_cappy_spritesheet.png".to_string(),
        frame: FrameGeometry { width: 64, height: 64, columns: 4, rows: 1 },
        animations,
    };
    BundledPet { manifest, spritesheet_path: "/bundled/happy_cappy_spritesheet.png".to_string() }
}

#[test]
fn lookup_returns_none_when_empty() {
    let catalog = PetCatalog::empty();
    assert!(catalog.lookup("anything").is_none());
}

#[test]
fn scan_empty_dir_returns_bundled_only() {
    let catalog = PetCatalog::from_scan(test_bundled_pet(), "/tmp/home/pets", Ok(()));

    assert_eq!(catalog.entries().len(), 1);
    assert_eq!(catalog.entries()[0].id, "happy-cappy");
    assert_eq!(catalog.entries()[0].source, CatalogSource::Bundled);
    assert!(catalog.load_errors().is_empty());
}

#[test]
fn scan_dir_already_exists_returns_bundled_only() {
    let catalog = PetCatalog::from_scan(test_bundled_pet(), "/tmp/existing", Ok(()));

    assert_eq!(catalog.entries().len(), 1);
    assert_eq!(catalog.entries()[0].source, CatalogSource::Bundled);
    assert!(catalog.load_errors().is_empty());
}

#[test]
fn scan_lookup_finds_bundled_pet() {
    let catalog = PetCatalog::from_scan(test_bundled_pet(), "/tmp/existing", Ok(()));

    let entry = catalog.lookup("happy-cappy").unwrap();
    assert_eq!(entry.source, CatalogSource::Bundled);
    assert_eq!(entry.display_name, "Happy Cappy");
    assert_eq!(entry.spritesheet_path, "/bundled/happy_cappy_spritesheet.png");
}

#[test]
fn scan_reports_an_uncreatable_dir_and_keeps_the_bundled_pet() {
    let failure = std::io::Error::new(std::io::ErrorKind::PermissionDenied, "denied");
    let catalog = PetCatalog::from_scan(test_bundled_pet(), "/root/pets", Err(failure));
    assert_eq!(catalog.entries().len(), 1);
    assert_eq!(catalog.load_errors().len(), 1);
    match &catalog.load_errors()[0] {
        CatalogLoadError::DirRead { path, .. } => assert_eq!(path, "/root/pets"),
        other => panic!("unexpected error {other:?}"),
    }
    assert!(catalog.load_errors()[0].describe().starts_with("catalog dir read failed at /root/pets: "));
}

#[test]
fn catalog_errors_describe_their_paths() {
    let missing = CatalogLoadError::SpritesheetMissing {
        manifest_path: "/p/x/pet.json".to_string(),
        sprite_path: "/p/x/s.png".to_string(),
    };
    assert_eq!(missing.describe(), "spritesheet for /p/x/pet.json missing at /p/x/s.png");
    let duplicate = CatalogLoadError::DuplicateId {
        id: "happy-cappy".to_string(),
        kept: "/a".to_string(),
        dropped: "/b".to_string(),
    };
    assert_eq!(duplicate.describe(), "duplicate pet id \"happy-cappy\": keeping /a dropping /b");
}

#[test]
fn into_entry_takes_the_pet_with_that_id() {
    let catalog = PetCatalog::from_scan(test_bundled_pet(), "/tmp/home/pets", Ok(()));
    let entry = catalog.into_entry("happy-cappy").expect("bundled pet is in the catalog");
    assert_eq!(entry.display_name, "Happy Cappy");
    assert_eq!(entry.spritesheet_path, "/bundled/happy_cappy_spritesheet.png");
    assert_eq!(entry.source, CatalogSource::Bundled);
}

#[test]
fn into_entry_unknown_id_is_none() {
    let catalog = PetCatalog::from_scan(test_bundled_pet(), "/tmp/home/pets", Ok(()));
    assert!(catalog.into_entry("someone-else").is_none());
}
