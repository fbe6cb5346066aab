//! An RGBA image held as plain bytes: four bytes per pixel, rows top to bottom.
use vstd::prelude::*;

verus! {

/// The byte offset of pixel `(x, y)` in an image `w` pixels wide.
pub open spec fn pixel_offset(w: int, x: int, y: int) -> int {
    (y * w + x) * 4
}

/// Whether `(x, y)` lies inside a `w` x `h` image, and the image's bytes fit.
pub proof fn lemma_pixel_offset_bounds(w: int, h: int, x: int, y: int)
    requires
        0 <= x < w,
        0 <= y < h,
    ensures
        0 <= pixel_offset(w, x, y),
        pixel_offset(w, x, y) + 4 <= w * h * 4,
{
    assert(0 <= y * w) by (nonlinear_arith)
        requires
            0 <= y,
            0 <= w,
    ;
    assert(y * w + x + 1 <= w * h) by (nonlinear_arith)
        requires
            0 <= x < w,
            0 <= y < h,
    ;
}

/// An 8-bit RGBA image.
#[derive(Debug)]
pub struct RgbaImage {
    width: u32,
    height: u32,
    data: Vec<u8>,
}

impl RgbaImage {
    /// Width in pixels.
    pub closed spec fn spec_width(&self) -> u32 {
        self.width
    }

    /// Height in pixels.
    pub closed spec fn spec_height(&self) -> u32 {
        self.height
    }

    /// The bytes, four per pixel, row by row.
    pub closed spec fn spec_data(&self) -> Seq<u8> {
        self.data@
    }

    #[verifier::type_invariant]
    spec fn inv(&self) -> bool {
        self.data@.len() == self.width as int * self.height as int * 4
    }

    /// The byte count always matches the dimensions.
    pub fn data_len(&self) -> (n: usize)
        ensures
            n == self.spec_data().len(),
            n == self.spec_width() as int * self.spec_height() as int * 4,
    {
        proof {
            use_type_invariant(self);
        }
        self.data.len()
    }

    /// An image of `width` x `height` pixels, every one set to `pixel`.
    pub fn from_pixel(width: u32, height: u32, pixel: [u8; 4]) -> (img: Self)
        requires
            width as int * height as int * 4 <= usize::MAX,
        ensures
            img.spec_width() == width,
            img.spec_height() == height,
            img.spec_data().len() == width as int * height as int * 4,
            forall|i: int| 0 <= i < img.spec_data().len() ==> #[trigger] img.spec_data()[i] == pixel@[i % 4],
    {
        let n: usize = (width as usize) * (height as usize) * 4;
        let mut data: Vec<u8> = Vec::new();
        let mut i: usize = 0;
        while i < n
            invariant
                i <= n,
                data@.len() == i,
                forall|j: int| 0 <= j < i ==> #[trigger] data@[j] == pixel@[j % 4],
            decreases n - i,
        {
            data.push(pixel[i % 4]);
            i += 1;
        }
        RgbaImage { width, height, data }
    }

    /// An image of `width` x `height` fully transparent black pixels.
    pub fn new(width: u32, height: u32) -> (img: Self)
        requires
            width as int * height as int * 4 <= usize::MAX,
        ensures
            img.spec_width() == width,
            img.spec_height() == height,
            img.spec_data().len() == width as int * height as int * 4,
            forall|i: int| 0 <= i < img.spec_data().len() ==> #[trigger] img.spec_data()[i] == 0,
    {
        let img = Self::from_pixel(width, height, [0u8, 0u8, 0u8, 0u8]);
        img
    }

    /// An image over the given bytes, when their count matches the dimensions.
    pub fn from_raw(width: u32, height: u32, data: Vec<u8>) -> (img: Option<Self>)
        ensures
            img is Some <==> data@.len() == width as int * height as int * 4,
            img matches Some(i) ==> i.spec_width() == width && i.spec_height() == height
                && i.spec_data() == data@,
    {
        proof {
            assert((width as int) * (height as int) <= 0xffff_ffff_int * 0xffff_ffff_int) by (nonlinear_arith)
                requires
                    width <= 0xffff_ffff_int,
                    height <= 0xffff_ffff_int,
            ;
        }
        let wh: u128 = (width as u128) * (height as u128);
        if wh * 4 == data.len() as u128 {
            Some(RgbaImage { width, height, data })
        } else {
            None
        }
    }

    /// A copy of the image.
    pub fn duplicate(&self) -> (r: Self)
        ensures
            r.spec_width() == self.spec_width(),
            r.spec_height() == self.spec_height(),
            r.spec_data() == self.spec_data(),
    {
        proof {
            use_type_invariant(self);
        }
        let data = self.data.clone();
        proof {
            assert(data@ =~= self.data@);
        }
        RgbaImage { width: self.width, height: self.height, data }
    }

    /// Width in pixels.
    pub fn width(&self) -> (w: u32)
        ensures
            w == self.spec_width(),
    {
        self.width
    }

    /// Height in pixels.
    pub fn height(&self) -> (h: u32)
        ensures
            h == self.spec_height(),
    {
        self.height
    }

    /// The bytes, four per pixel, row by row.
    pub fn as_raw(&self) -> (d: &[u8])
        ensures
            d@ == self.spec_data(),
    {
        self.data.as_slice()
    }

    /// The pixel at `(x, y)`.
    pub fn get_pixel(&self, x: u32, y: u32) -> (p: [u8; 4])
        requires
            x < self.spec_width(),
            y < self.spec_height(),
        ensures
            forall|c: int| 0 <= c < 4 ==> #[trigger] p@[c] == self.spec_data()[pixel_offset(
                self.spec_width() as int,
                x as int,
                y as int,
            ) + c],
    {
        proof {
            use_type_invariant(self);
            lemma_pixel_offset_bounds(self.width as int, self.height as int, x as int, y as int);
        }
        let n: usize = self.data.len();
        proof {
            assert((y as int) * (self.width as int) + (x as int) <= (y as int) * (self.width as int) + (x as int) + 1);
        }
        let o: usize = ((y as usize) * (self.width as usize) + (x as usize)) * 4;
        [self.data[o], self.data[o + 1], self.data[o + 2], self.data[o + 3]]
    }

    /// Set the pixel at `(x, y)`.
    pub fn put_pixel(&mut self, x: u32, y: u32, p: [u8; 4])
        requires
            x < old(self).spec_width(),
            y < old(self).spec_height(),
        ensures
            final(self).spec_width() == old(self).spec_width(),
            final(self).spec_height() == old(self).spec_height(),
            final(self).spec_data().len() == old(self).spec_data().len(),
            forall|i: int|
                0 <= i < old(self).spec_data().len() ==> #[trigger] final(self).spec_data()[i] == {
                    let o = pixel_offset(old(self).spec_width() as int, x as int, y as int);
                    if o <= i < o + 4 {
                        p@[i - o]
                    } else {
                        old(self).spec_data()[i]
                    }
                },
    {
        proof {
            use_type_invariant(&*self);
            lemma_pixel_offset_bounds(self.width as int, self.height as int, x as int, y as int);
        }
        let n: usize = self.data.len();
        let o: usize = ((y as usize) * (self.width as usize) + (x as usize)) * 4;
        let mut empty = RgbaImage { width: 0, height: 0, data: Vec::new() };
        std::mem::swap(self, &mut empty);
        let RgbaImage { width, height, mut data } = empty;
        data.set(o, p[0]);
        data.set(o + 1, p[1]);
        data.set(o + 2, p[2]);
        data.set(o + 3, p[3]);
        *self = RgbaImage { width, height, data };
    }
}

} // verus!
