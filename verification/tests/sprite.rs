use happy_cappy::pet::manifest::FrameGeometry;
use happy_cappy::pixels::RgbaImage;
use happy_cappy::sprite::{FrameRect, SpriteError, SpriteSheet};

fn sheet(width: u32, height: u32) -> RgbaImage {
    RgbaImage::from_pixel(width, height, [0, 0, 0, 0])
}

fn happy_cappy_geometry() -> FrameGeometry {
    FrameGeometry { width: 64, height: 64, columns: 4, rows: 10 }
}

fn png_bytes(width: u32, height: u32) -> Vec<u8> {
    let mut img = image::RgbaImage::new(width, height);
    img.put_pixel(1, 0, image::Rgba([1, 2, 3, 4]));
    let mut out = std::io::Cursor::new(Vec::new());
    img.write_to(&mut out, image::ImageFormat::Png).unwrap();
    out.into_inner()
}

#[test]
fn frame_rect_for_zero_returns_top_left() {
    let sheet = SpriteSheet::from_image(sheet(256, 640), &happy_cappy_geometry()).unwrap();
    assert_eq!(sheet.frame_rect(0), FrameRect { x: 0, y: 0, width: 64, height: 64 });
}

#[test]
fn frame_rect_for_32_returns_walk_row_first_column() {
    let sheet = SpriteSheet::from_image(sheet(256, 640), &happy_cappy_geometry()).unwrap();
    assert_eq!(sheet.frame_rect(32), FrameRect { x: 0, y: 8 * 64, width: 64, height: 64 });
}

#[test]
fn frame_rect_for_39_returns_drag_row_last_column() {
    let sheet = SpriteSheet::from_image(sheet(256, 640), &happy_cappy_geometry()).unwrap();
    assert_eq!(sheet.frame_rect(39), FrameRect { x: 3 * 64, y: 9 * 64, width: 64, height: 64 });
}

#[test]
fn from_image_rejects_mismatched_dimensions() {
    let err = SpriteSheet::from_image(sheet(250, 640), &happy_cappy_geometry()).unwrap_err();
    assert!(matches!(err, SpriteError::InvalidDimensions { .. }));
}

#[test]
fn from_image_accepts_matching_image() {
    let result = SpriteSheet::from_image(sheet(256, 640), &happy_cappy_geometry());
    assert!(result.is_ok());
}

#[test]
fn dimension_error_describes_actual_and_expected_sizes() {
    let err = SpriteSheet::from_image(sheet(250, 640), &happy_cappy_geometry()).unwrap_err();
    assert_eq!(
        err.describe(),
        "invalid sprite sheet dimensions: actual 250x640, expected 256x640, frame size 64"
    );
    let huge = FrameGeometry { width: u32::MAX, height: 2, columns: 2, rows: 1 };
    let err = SpriteSheet::from_image(sheet(4, 2), &huge).unwrap_err();
    assert_eq!(
        err.describe(),
        "invalid sprite sheet dimensions: actual 4x2, expected overflow, frame size 4294967295"
    );
}

#[test]
fn load_decodes_png_bytes_into_a_sheet() {
    let geometry = FrameGeometry { width: 2, height: 1, columns: 2, rows: 3 };
    let sheet = SpriteSheet::load(&png_bytes(4, 3), &geometry).unwrap();
    assert_eq!(sheet.image().width(), 4);
    assert_eq!(sheet.image().height(), 3);
    assert_eq!(sheet.image().get_pixel(1, 0), [1, 2, 3, 4]);
    assert_eq!(sheet.geometry(), &geometry);
}

#[test]
fn load_rejects_undecodable_bytes_and_wrong_sizes() {
    let geometry = FrameGeometry { width: 2, height: 1, columns: 2, rows: 3 };
    let err = SpriteSheet::load(b"not a png", &geometry).unwrap_err();
    assert!(matches!(err, SpriteError::Image(_)));
    assert!(err.describe().starts_with("failed to load sprite image: "));
    let err = SpriteSheet::load(&png_bytes(5, 3), &geometry).unwrap_err();
    assert!(matches!(err, SpriteError::InvalidDimensions { width: 5, height: 3, .. }));
}
