//! Pixels for the pet picker's previews.
use vstd::prelude::*;

use crate::pet::manifest::{sprite_count, Animation, FrameGeometry, PetManifest};
use crate::pixels::{pixel_offset, RgbaImage};
use crate::sprite::{frame_rect_spec, SpriteError, SpriteSheet};
use crate::text::concat;

verus! {

/// `out` holds the pixels of frame `index` of a sheet with geometry `g` over
/// `img`: the frame's width times height pixels, row by row.
pub open spec fn is_frame_crop(g: FrameGeometry, img: RgbaImage, index: int, out: Seq<u8>) -> bool {
    let r = frame_rect_spec(g, index as u32);
    &&& out.len() == g.width as int * g.height as int * 4
    &&& forall|x: int, y: int, c: int|
        0 <= x < g.width && 0 <= y < g.height && 0 <= c < 4 ==> #[trigger] out[pixel_offset(
            g.width as int,
            x,
            y,
        ) + c] == img.spec_data()[pixel_offset(img.spec_width() as int, r.x + x, r.y + y) + c]
}

/// Why a picker preview could not be built.
#[derive(Debug)]
pub enum PreviewBuildError {
    Sprite(SpriteError),
    NoAnimation,
}

impl PreviewBuildError {
    /// The error's message (what its `Display` writes).
    pub fn describe(&self) -> (r: String)
        ensures
            match *self {
                PreviewBuildError::Sprite(_) => "sprite decode failed: "@.is_prefix_of(r@),
                PreviewBuildError::NoAnimation => r@ == "no animations defined in manifest"@,
            },
    {
        match self {
            PreviewBuildError::Sprite(e) => {
                let t = e.describe();
                let r = concat("sprite decode failed: ", t.as_str());
                assert(r@.subrange(0, "sprite decode failed: "@.len() as int) =~= "sprite decode failed: "@);
                r
            },
            PreviewBuildError::NoAnimation => "no animations defined in manifest".to_owned(),
        }
    }
}

/// Every frame of every animation is on a sheet of `count` sprites.
pub open spec fn frames_on_sheet(animations: Map<Seq<char>, Animation>, count: int) -> bool {
    forall|k: Seq<char>, p: int|
        #![trigger animations[k].frames@[p]]
        animations.contains_key(k) && 0 <= p < animations[k].frames@.len() ==> animations[k].frames@[p].index
            < count
}

/// The animation a preview shows: `idle`, else the first by name.
pub open spec fn preview_animation_spec(m: PetManifest) -> Option<Animation> {
    if m.animations@.contains_key("idle"@) {
        Some(m.animations@["idle"@])
    } else if m.animations.spec_keys().len() > 0 {
        Some(m.animations.spec_values()[0])
    } else {
        None
    }
}

/// The RGBA frames of a pet's preview: every frame of its preview animation,
/// cut from `sheet`; `NoAnimation` when the manifest declares none.
pub fn build_preview_frames(sheet: &SpriteSheet, manifest: &PetManifest) -> (r: Result<Vec<Vec<u8>>, PreviewBuildError>)
    requires
        sheet.spec_geometry().columns == manifest.frame.columns,
        sheet.spec_geometry().rows == manifest.frame.rows,
        frames_on_sheet(manifest.animations@, sprite_count(manifest.frame)),
    ensures
        match preview_animation_spec(*manifest) {
            None => r matches Err(PreviewBuildError::NoAnimation),
            Some(a) => r matches Ok(frames) && frames@.len() == a.frames@.len() && forall|i: int|
                0 <= i < a.frames@.len() ==> is_frame_crop(
                    sheet.spec_geometry(),
                    sheet.spec_image(),
                    a.frames@[i].index as int,
                    #[trigger] frames@[i]@,
                ),
        },
{
    let animation = match manifest.animations.get("idle") {
        Some(a) => a,
        None => {
            if manifest.animations.len() == 0 {
                return Err(PreviewBuildError::NoAnimation);
            }
            manifest.animations.value_at(0)
        },
    };
    let mut frames: Vec<Vec<u8>> = Vec::new();
    let mut i: usize = 0;
    while i < animation.frames.len()
        invariant
            i <= animation.frames@.len(),
            frames@.len() == i,
            preview_animation_spec(*manifest) == Some(*animation),
            sheet.spec_geometry().columns == manifest.frame.columns,
            sheet.spec_geometry().rows == manifest.frame.rows,
            forall|p: int|
                0 <= p < animation.frames@.len() ==> (#[trigger] animation.frames@[p]).index < sprite_count(
                    manifest.frame,
                ),
            forall|j: int|
                0 <= j < i ==> is_frame_crop(
                    sheet.spec_geometry(),
                    sheet.spec_image(),
                    animation.frames@[j].index as int,
                    #[trigger] frames@[j]@,
                ),
        decreases animation.frames@.len() - i,
    {
        let rgba = crop_frame_rgba(sheet, animation.frames[i].index as usize);
        frames.push(rgba);
        i += 1;
    }
    Ok(frames)
}

/// Copy the pixels of frame `index` out of the sheet into a packed RGBA buffer:
/// the frame's width times height pixels, row by row.
pub fn crop_frame_rgba(sheet: &SpriteSheet, index: usize) -> (out: Vec<u8>)
    requires
        index < sheet.spec_geometry().columns as int * sheet.spec_geometry().rows as int,
    ensures
        is_frame_crop(sheet.spec_geometry(), sheet.spec_image(), index as int, out@),
{
    let g = *sheet.geometry();
    let idx: u32 = index as u32;
    proof {
        assert((idx / g.columns) as int * g.height as int <= u32::MAX) by (nonlinear_arith)
            requires
                idx < g.columns as int * g.rows as int,
                g.columns > 0,
                g.height as int * g.rows as int <= u32::MAX,
        {
            assert(idx / g.columns < g.rows) by (nonlinear_arith)
                requires
                    idx < g.columns as int * g.rows as int,
                    g.columns > 0,
            ;
            let q: int = (idx / g.columns) as int;
            let hh: int = g.height as int;
            let rr: int = g.rows as int;
            assert(q * hh <= rr * hh) by (nonlinear_arith)
                requires
                    0 <= q < rr,
                    0 <= hh,
            ;
        }
    }
    let rect = sheet.frame_rect(idx);
    let image = sheet.image();
    let ghost img = sheet.spec_image();
    let ghost w = g.width as int;
    let ghost h = g.height as int;
    let mut out: Vec<u8> = Vec::new();
    let mut y: u32 = 0;
    while y < rect.height
        invariant
            rect == frame_rect_spec(g, idx),
            g == sheet.spec_geometry(),
            *image == img,
            img == sheet.spec_image(),
            w == g.width,
            h == g.height,
            y <= h,
            rect.x as int + rect.width as int <= img.spec_width(),
            rect.y as int + rect.height as int <= img.spec_height(),
            out@.len() == pixel_offset(w, 0, y as int),
            forall|xx: int, yy: int, c: int|
                0 <= xx < w && 0 <= yy < y && 0 <= c < 4 ==> #[trigger] out@[pixel_offset(w, xx, yy) + c]
                    == img.spec_data()[pixel_offset(
                    img.spec_width() as int,
                    rect.x + xx,
                    rect.y + yy,
                ) + c],
        decreases h - y,
    {
        let mut x: u32 = 0;
        while x < rect.width
            invariant
                rect == frame_rect_spec(g, idx),
                g == sheet.spec_geometry(),
                *image == img,
                w == g.width,
                h == g.height,
                y < h,
                x <= w,
                rect.x as int + rect.width as int <= img.spec_width(),
                rect.y as int + rect.height as int <= img.spec_height(),
                out@.len() == pixel_offset(w, x as int, y as int),
                forall|xx: int, yy: int, c: int|
                    0 <= xx < w && 0 <= yy < y && 0 <= c < 4 ==> #[trigger] out@[pixel_offset(w, xx, yy)
                        + c] == img.spec_data()[pixel_offset(
                        img.spec_width() as int,
                        rect.x + xx,
                        rect.y + yy,
                    ) + c],
                forall|xx: int, c: int|
                    0 <= xx < x && 0 <= c < 4 ==> #[trigger] out@[pixel_offset(w, xx, y as int) + c]
                        == img.spec_data()[pixel_offset(
                        img.spec_width() as int,
                        rect.x + xx,
                        rect.y + y,
                    ) + c],
            decreases w - x,
        {
            let pixel = image.get_pixel(rect.x + x, rect.y + y);
            let ghost before = out@;
            out.push(pixel[0]);
            out.push(pixel[1]);
            out.push(pixel[2]);
            out.push(pixel[3]);
            proof {
                assert(pixel_offset(w, x as int + 1, y as int) == pixel_offset(w, x as int, y as int) + 4);
                assert forall|xx: int, yy: int, c: int|
                    0 <= xx < w && 0 <= yy < y && 0 <= c < 4 implies #[trigger] out@[pixel_offset(w, xx, yy)
                        + c] == img.spec_data()[pixel_offset(
                        img.spec_width() as int,
                        rect.x + xx,
                        rect.y + yy,
                    ) + c] by {
                    assert(pixel_offset(w, xx, yy) + 4 <= pixel_offset(w, 0, y as int)) by (nonlinear_arith)
                        requires
                            0 <= xx < w,
                            0 <= yy < y,
                    ;
                    assert(out@[pixel_offset(w, xx, yy) + c] == before[pixel_offset(w, xx, yy) + c]);
                }
                assert forall|xx: int, c: int|
                    0 <= xx < x + 1 && 0 <= c < 4 implies #[trigger] out@[pixel_offset(w, xx, y as int) + c]
                        == img.spec_data()[pixel_offset(
                        img.spec_width() as int,
                        rect.x + xx,
                        rect.y + y,
                    ) + c] by {
                    if xx < x {
                        assert(pixel_offset(w, xx, y as int) + 4 <= pixel_offset(w, x as int, y as int));
                        assert(out@[pixel_offset(w, xx, y as int) + c] == before[pixel_offset(w, xx, y as int) + c]);
                    }
                }
            }
            x += 1;
        }
        proof {
            assert(pixel_offset(w, w, y as int) == pixel_offset(w, 0, y as int + 1)) by (nonlinear_arith);
        }
        y += 1;
    }
    proof {
        assert(pixel_offset(w, 0, h) == w * h * 4) by (nonlinear_arith);
    }
    out
}

} // verus!
