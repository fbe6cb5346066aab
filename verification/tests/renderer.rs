use happy_cappy::pixels::RgbaImage;
use happy_cappy::renderer::{blit_frame, clear_rgba, BlitOptions};
use happy_cappy::sprite::FrameRect;

fn whole(width: u32, height: u32) -> FrameRect {
    FrameRect { x: 0, y: 0, width, height }
}

#[test]
fn clear_sets_every_byte_to_zero() {
    let mut frame = vec![255; 16];
    clear_rgba(&mut frame);
    assert_eq!(frame, vec![0; 16]);
}

#[test]
fn blit_copies_opaque_source_pixel() {
    let source = RgbaImage::from_pixel(1, 1, [10, 20, 30, 255]);
    let mut frame = vec![0; 4 * 2 * 2];
    blit_frame(&source, whole(1, 1), &mut frame, 2, 2, BlitOptions { dest_x: 1, dest_y: 1, flip_x: false });
    assert_eq!(&frame[12..16], &[10, 20, 30, 255]);
}

#[test]
fn blit_alpha_blends_translucent_source_pixel() {
    let source = RgbaImage::from_pixel(1, 1, [100, 0, 0, 128]);
    let mut frame = vec![0; 4];
    frame.copy_from_slice(&[0, 0, 100, 255]);
    blit_frame(&source, whole(1, 1), &mut frame, 1, 1, BlitOptions { dest_x: 0, dest_y: 0, flip_x: false });
    assert_eq!(frame[3], 255);
    assert!(frame[0] >= 49 && frame[0] <= 51);
    assert!(frame[2] >= 49 && frame[2] <= 51);
}

#[test]
fn blit_flip_x_mirrors_source_columns() {
    let mut source = RgbaImage::new(2, 1);
    source.put_pixel(0, 0, [10, 0, 0, 255]);
    source.put_pixel(1, 0, [20, 0, 0, 255]);
    let mut frame = vec![0; 4 * 2];

    blit_frame(&source, whole(2, 1), &mut frame, 2, 1, BlitOptions { dest_x: 0, dest_y: 0, flip_x: true });

    assert_eq!(&frame[0..4], &[20, 0, 0, 255]);
    assert_eq!(&frame[4..8], &[10, 0, 0, 255]);
}

#[test]
fn blit_clips_negative_destination_without_panicking() {
    let mut source = RgbaImage::new(2, 1);
    source.put_pixel(0, 0, [10, 0, 0, 255]);
    source.put_pixel(1, 0, [20, 0, 0, 255]);
    let mut frame = vec![0; 4];

    blit_frame(&source, whole(2, 1), &mut frame, 1, 1, BlitOptions { dest_x: -1, dest_y: 0, flip_x: false });

    assert_eq!(frame, vec![20, 0, 0, 255]);
}

#[test]
fn blit_skips_fully_transparent_source_pixels() {
    let source = RgbaImage::from_pixel(1, 1, [100, 0, 0, 0]);
    let mut frame = vec![1, 2, 3, 4];

    blit_frame(&source, whole(1, 1), &mut frame, 1, 1, BlitOptions { dest_x: 0, dest_y: 0, flip_x: false });

    assert_eq!(frame, vec![1, 2, 3, 4]);
}

fn blend_one(src: [u8; 4], dst: [u8; 4]) -> Vec<u8> {
    let source = RgbaImage::from_pixel(1, 1, src);
    let mut frame = dst.to_vec();
    blit_frame(&source, whole(1, 1), &mut frame, 1, 1, BlitOptions { dest_x: 0, dest_y: 0, flip_x: false });
    frame
}

#[test]
fn blending_over_transparent_copies_and_over_opaque_mixes() {
    assert_eq!(blend_one([9, 8, 7, 200], [0, 0, 0, 0]), vec![9, 8, 7, 200]);
    assert_eq!(blend_one([255, 0, 0, 255], [0, 0, 255, 255]), vec![255, 0, 0, 255]);
    assert_eq!(blend_one([200, 0, 0, 51], [0, 100, 0, 255]), vec![40, 80, 0, 255]);
}

#[test]
fn blit_off_the_bottom_right_draws_only_the_overlap() {
    let source = RgbaImage::from_pixel(2, 2, [7, 7, 7, 255]);
    let mut frame = vec![0; 4 * 2 * 2];
    blit_frame(&source, whole(2, 2), &mut frame, 2, 2, BlitOptions { dest_x: 1, dest_y: 1, flip_x: false });
    assert_eq!(&frame[0..12], &[0; 12]);
    assert_eq!(&frame[12..16], &[7, 7, 7, 255]);
}

#[test]
fn blit_into_a_zero_height_wide_frame_draws_nothing() {
    let source = RgbaImage::from_pixel(1, 1, [7, 7, 7, 255]);
    let mut frame: Vec<u8> = Vec::new();
    blit_frame(&source, whole(1, 1), &mut frame, 3_000_000_000, 0, BlitOptions { dest_x: 0, dest_y: 0, flip_x: false });
    assert!(frame.is_empty());
}
