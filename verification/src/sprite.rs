//! Sprite sheets: an image cut into a grid of equally sized frames.
use vstd::prelude::*;

use crate::pet::manifest::FrameGeometry;
use crate::external::image_error_text;
use crate::pixels::RgbaImage;
use crate::text::{concat, decimal, decimal_spec};

verus! {

/// A rectangle of pixels on the sheet.
#[derive(Debug, Clone, Copy, PartialEq, Eq, Structural)]
pub struct FrameRect {
    pub x: u32,
    pub y: u32,
    pub width: u32,
    pub height: u32,
}

/// What the `image` crate decodes from `bytes`: width, height and the pixel
/// buffer in RGBA order; `None` when it cannot decode them.
pub uninterp spec fn decoded_rgba(bytes: Seq<u8>) -> Option<(u32, u32, Seq<u8>)>;

/// `image::load_from_memory` followed by `DynamicImage::into_rgba8`: the
/// picture in `bytes` as RGBA pixels. The result is named by `decoded_rgba`.
/// An `ImageBuffer` only exists over a buffer that holds all its pixels
/// (`ImageBuffer::from_raw` refuses a smaller one), so the buffer is at least
/// width x height x 4 bytes; the pixels are its first bytes.
#[verifier::external_body]
fn decode_rgba(bytes: &[u8]) -> (r: Result<(u32, u32, Vec<u8>), image::ImageError>)
    ensures
        match r {
            Ok((w, h, data)) => decoded_rgba(bytes@) == Some((w, h, data@)) && data@.len() >= w as int
                * h as int * 4,
            Err(_) => decoded_rgba(bytes@) is None,
        },
{
    let image = image::load_from_memory(bytes)?.into_rgba8();
    let (w, h) = image.dimensions();
    Ok((w, h, image.into_raw()))
}

/// Why a sprite sheet could not be built.
#[derive(Debug)]
pub enum SpriteError {
    Image(image::ImageError),
    InvalidDimensions {
        width: u32,
        height: u32,
        expected_width: Option<u32>,
        expected_height: Option<u32>,
        frame_size: u32,
    },
}

/// `a * b` when it fits in a `u32`.
pub open spec fn checked_product(a: u32, b: u32) -> Option<u32> {
    if a as int * b as int <= u32::MAX {
        Some((a * b) as u32)
    } else {
        None
    }
}

/// The image is exactly a `columns` x `rows` grid of non-empty frames.
pub open spec fn sheet_matches(w: u32, h: u32, g: FrameGeometry) -> bool {
    &&& g.width != 0
    &&& g.height != 0
    &&& g.columns != 0
    &&& g.rows != 0
    &&& checked_product(g.width, g.columns) == Some(w)
    &&& checked_product(g.height, g.rows) == Some(h)
}

/// The rectangle of sprite `index`: row-major over a grid `g.columns` wide.
pub open spec fn frame_rect_spec(g: FrameGeometry, index: u32) -> FrameRect {
    FrameRect {
        x: ((index % g.columns) * g.width) as u32,
        y: ((index / g.columns) * g.height) as u32,
        width: g.width,
        height: g.height,
    }
}


/// The message of a dimension error: actual and expected sizes ("overflow"
/// when the expected size does not fit) and the frame size.
pub open spec fn dimensions_message(
    width: u32,
    height: u32,
    expected_width: Option<u32>,
    expected_height: Option<u32>,
    frame_size: u32,
) -> Seq<char> {
    let expected = match (expected_width, expected_height) {
        (Some(w), Some(h)) => decimal_spec(w as nat) + "x"@ + decimal_spec(h as nat),
        _ => "overflow"@,
    };
    "invalid sprite sheet dimensions: actual "@ + decimal_spec(width as nat) + "x"@ + decimal_spec(
        height as nat,
    ) + ", expected "@ + expected + ", frame size "@ + decimal_spec(frame_size as nat)
}

impl SpriteError {
    /// The error's message (what its `Display` writes); a decoding error ends
    /// in the `image` crate's own text.
    pub fn describe(&self) -> (r: String)
        ensures
            match *self {
                SpriteError::Image(_) => "failed to load sprite image: "@.is_prefix_of(r@),
                SpriteError::InvalidDimensions {
                    width,
                    height,
                    expected_width,
                    expected_height,
                    frame_size,
                } => r@ == dimensions_message(width, height, expected_width, expected_height, frame_size),
            },
    {
        match self {
            SpriteError::Image(e) => {
                let t = image_error_text(e);
                let r = concat("failed to load sprite image: ", t.as_str());
                assert(r@.subrange(0, "failed to load sprite image: "@.len() as int)
                    =~= "failed to load sprite image: "@);
                r
            },
            SpriteError::InvalidDimensions {
                width,
                height,
                expected_width,
                expected_height,
                frame_size,
            } => {
                let expected = match (expected_width, expected_height) {
                    (Some(w), Some(h)) => {
                        let a = decimal(*w as u64);
                        let b = concat(a.as_str(), "x");
                        let c = decimal(*h as u64);
                        concat(b.as_str(), c.as_str())
                    },
                    _ => "overflow".to_owned(),
                };
                let w = decimal(*width as u64);
                let h = decimal(*height as u64);
                let f = decimal(*frame_size as u64);
                let s1 = concat("invalid sprite sheet dimensions: actual ", w.as_str());
                let s2 = concat(s1.as_str(), "x");
                let s3 = concat(s2.as_str(), h.as_str());
                let s4 = concat(s3.as_str(), ", expected ");
                let s5 = concat(s4.as_str(), expected.as_str());
                let s6 = concat(s5.as_str(), ", frame size ");
                concat(s6.as_str(), f.as_str())
            },
        }
    }
}

/// An image cut into a grid of frames.
#[derive(Debug)]
pub struct SpriteSheet {
    image: RgbaImage,
    geometry: FrameGeometry,
}

impl SpriteSheet {
    /// The sheet's image.
    pub closed spec fn spec_image(&self) -> RgbaImage {
        self.image
    }

    /// The sheet's frame geometry.
    pub closed spec fn spec_geometry(&self) -> FrameGeometry {
        self.geometry
    }

    #[verifier::type_invariant]
    spec fn inv(&self) -> bool {
        sheet_matches(self.image.spec_width(), self.image.spec_height(), self.geometry)
    }

    /// Decode the picture in `bytes` and build a sheet from it (see
    /// `from_image`); bytes that do not decode give `SpriteError::Image`.
    pub fn load(bytes: &[u8], geometry: &FrameGeometry) -> (r: Result<Self, SpriteError>)
        ensures
            decoded_rgba(bytes@) is None <==> r matches Err(SpriteError::Image(_)),
            decoded_rgba(bytes@) matches Some((w, h, data)) ==> {
                &&& r is Ok <==> sheet_matches(w, h, *geometry)
                &&& r matches Ok(s) ==> s.spec_image().spec_width() == w && s.spec_image().spec_height()
                    == h && s.spec_image().spec_data() == data.subrange(0, w as int * h as int * 4)
                    && s.spec_geometry() == *geometry
            },
    {
        match decode_rgba(bytes) {
            Err(e) => Err(SpriteError::Image(e)),
            Ok((width, height, data)) => {
                let mut data = data;
                let available = data.len();
                proof {
                    assert(0 <= width as int * height as int) by (nonlinear_arith);
                    assert(width as int * height as int * 4 <= available);
                }
                let n: usize = (width as usize) * (height as usize) * 4;
                data.truncate(n);
                let image = RgbaImage::from_raw(width, height, data).unwrap();
                Self::from_image(image, geometry)
            },
        }
    }

    /// Build a sheet when the image is exactly the grid the geometry describes.
    pub fn from_image(image: RgbaImage, geometry: &FrameGeometry) -> (r: Result<Self, SpriteError>)
        ensures
            r is Ok <==> sheet_matches(image.spec_width(), image.spec_height(), *geometry),
            r matches Ok(s) ==> s.spec_image() == image && s.spec_geometry() == *geometry,
            r matches Err(e) ==> (e matches SpriteError::InvalidDimensions {
                width,
                height,
                expected_width,
                expected_height,
                frame_size,
            } && width == image.spec_width() && height == image.spec_height() && expected_width
                == checked_product(geometry.width, geometry.columns) && expected_height
                == checked_product(geometry.height, geometry.rows) && frame_size == if geometry.width
                >= geometry.height {
                geometry.width
            } else {
                geometry.height
            }),
    {
        let width = image.width();
        let height = image.height();
        let expected_width = geometry.width.checked_mul(geometry.columns);
        let expected_height = geometry.height.checked_mul(geometry.rows);
        let width_ok = match expected_width {
            Some(w) => w == width,
            None => false,
        };
        let height_ok = match expected_height {
            Some(h) => h == height,
            None => false,
        };
        if geometry.width == 0 || geometry.height == 0 || geometry.columns == 0 || geometry.rows == 0
            || !width_ok || !height_ok {
            let frame_size = if geometry.width >= geometry.height {
                geometry.width
            } else {
                geometry.height
            };
            return Err(
                SpriteError::InvalidDimensions {
                    width,
                    height,
                    expected_width,
                    expected_height,
                    frame_size,
                },
            );
        }
        Ok(SpriteSheet { image, geometry: *geometry })
    }

    /// The sheet's image.
    pub fn image(&self) -> (i: &RgbaImage)
        ensures
            *i == self.spec_image(),
    {
        &self.image
    }

    /// The sheet's frame geometry.
    pub fn geometry(&self) -> (g: &FrameGeometry)
        ensures
            *g == self.spec_geometry(),
            sheet_matches(
                self.spec_image().spec_width(),
                self.spec_image().spec_height(),
                self.spec_geometry(),
            ),
    {
        proof {
            use_type_invariant(self);
        }
        &self.geometry
    }

    /// The rectangle of sprite `sprite_index`, counting row by row.
    pub fn frame_rect(&self, sprite_index: u32) -> (r: FrameRect)
        requires
            (sprite_index / self.spec_geometry().columns) as int * self.spec_geometry().height as int
                <= u32::MAX,
        ensures
            r == frame_rect_spec(self.spec_geometry(), sprite_index),
            sprite_index < self.spec_geometry().columns as int * self.spec_geometry().rows as int
                ==> r.x as int + r.width as int <= self.spec_image().spec_width() && r.y as int
                + r.height as int <= self.spec_image().spec_height(),
    {
        proof {
            use_type_invariant(self);
        }
        let g = self.geometry;
        let row = sprite_index / g.columns;
        let col = sprite_index % g.columns;
        proof {
            assert(col as int * g.width as int <= (g.columns as int - 1) * g.width as int) by (nonlinear_arith)
                requires
                    col < g.columns,
            ;
            assert((g.columns as int - 1) * g.width as int + g.width as int == g.columns as int * g.width as int) by (nonlinear_arith);
            if sprite_index < g.columns as int * g.rows as int {
                assert(row < g.rows) by (nonlinear_arith)
                    requires
                        sprite_index < g.columns as int * g.rows as int,
                        row == sprite_index / g.columns,
                        g.columns > 0,
                ;
                assert(row as int * g.height as int + g.height as int <= g.rows as int * g.height as int) by (nonlinear_arith)
                    requires
                        row < g.rows,
                ;
            }
        }
        FrameRect { x: col * g.width, y: row * g.height, width: g.width, height: g.height }
    }
}

} // verus!
