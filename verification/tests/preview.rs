use happy_cappy::pet::manifest::{Animation, FrameGeometry, PetManifest};
use happy_cappy::pet::table::AnimationTable;
use happy_cappy::pixels::RgbaImage;
use happy_cappy::preview::{build_preview_frames, crop_frame_rgba, PreviewBuildError};
use happy_cappy::sprite::SpriteSheet;

fn checkered_sheet() -> SpriteSheet {
    let mut img = RgbaImage::new(4, 2);
    img.put_pixel(0, 0, [10, 0, 0, 255]);
    img.put_pixel(1, 0, [20, 0, 0, 255]);
    img.put_pixel(0, 1, [30, 0, 0, 255]);
    img.put_pixel(1, 1, [40, 0, 0, 255]);
    img.put_pixel(2, 0, [50, 0, 0, 255]);
    img.put_pixel(3, 0, [60, 0, 0, 255]);
    img.put_pixel(2, 1, [70, 0, 0, 255]);
    img.put_pixel(3, 1, [80, 0, 0, 255]);
    let geometry = FrameGeometry { width: 2, height: 2, columns: 2, rows: 1 };
    SpriteSheet::from_image(img, &geometry).unwrap()
}

fn manifest(names: &[(&str, &[u32])]) -> PetManifest {
    let mut animations = AnimationTable::new();
    for (name, frames) in names {
        animations.insert(name.to_string(), Animation::from_indices(frames));
    }
    PetManifest {
        manifest_version: 1,
        id: "p".to_string(),
        display_name: "P".to_string(),
        spritesheet_path: "p.png".to_string(),
        frame: FrameGeometry { width: 2, height: 2, columns: 2, rows: 1 },
        animations,
    }
}

#[test]
fn crop_first_frame_returns_top_left_pixels() {
    let sheet = checkered_sheet();
    let rgba = crop_frame_rgba(&sheet, 0);
    assert_eq!(rgba.len(), 2 * 2 * 4);
    assert_eq!(rgba[0], 10);
    assert_eq!(rgba[4], 20);
    assert_eq!(rgba[8], 30);
    assert_eq!(rgba[12], 40);
}

#[test]
fn crop_second_frame_returns_top_right_pixels() {
    let sheet = checkered_sheet();
    let rgba = crop_frame_rgba(&sheet, 1);
    assert_eq!(rgba[0], 50);
    assert_eq!(rgba[4], 60);
    assert_eq!(rgba[8], 70);
    assert_eq!(rgba[12], 80);
}

#[test]
fn preview_plays_idle_frames_in_order() {
    let sheet = checkered_sheet();
    let frames = build_preview_frames(&sheet, &manifest(&[("walk", &[0]), ("idle", &[1, 0])])).unwrap();
    assert_eq!(frames.len(), 2);
    assert_eq!(frames[0][0], 50);
    assert_eq!(frames[1][0], 10);
}

#[test]
fn preview_without_idle_uses_first_animation_by_name() {
    let sheet = checkered_sheet();
    let frames = build_preview_frames(&sheet, &manifest(&[("zoom", &[0]), ("bounce", &[1])])).unwrap();
    assert_eq!(frames.len(), 1);
    assert_eq!(frames[0][0], 50);
}

#[test]
fn preview_of_manifest_without_animations_fails() {
    let sheet = checkered_sheet();
    let err = build_preview_frames(&sheet, &manifest(&[])).unwrap_err();
    assert!(matches!(err, PreviewBuildError::NoAnimation));
    assert_eq!(err.describe(), "no animations defined in manifest");
}
