//! Software rendering of sprite frames into an RGBA frame buffer.
//!
//! Alpha compositing is "source over": with straight alpha `a_s`, `a_d` in
//! `[0, 1]`, the result alpha is `a_s + a_d (1 - a_s)` and each color channel is
//! `(c_s a_s + c_d a_d (1 - a_s)) / a_out`. Here it is computed exactly on the
//! 8-bit values and rounded to the nearest 8-bit value (halves round up).
use vstd::prelude::*;

use crate::pixels::{pixel_offset, RgbaImage};
use crate::sprite::FrameRect;

verus! {

/// Where and how a frame is drawn into the frame buffer.
#[derive(Debug, Clone, Copy, PartialEq, Eq, Structural)]
pub struct BlitOptions {
    pub dest_x: i32,
    pub dest_y: i32,
    pub flip_x: bool,
}

/// `num / den` rounded to the nearest integer, halves up.
pub open spec fn round_div(num: int, den: int) -> int {
    (2 * num + den) / (2 * den)
}

/// The result alpha, scaled by 255 * 255: `255 a_s + a_d (255 - a_s)`.
pub open spec fn blend_weight(sa: int, da: int) -> int {
    255 * sa + da * (255 - sa)
}

/// One color channel of `src` composited over `dst`.
pub open spec fn blend_channel(sc: int, sa: int, dc: int, da: int) -> int {
    round_div(255 * sc * sa + dc * da * (255 - sa), blend_weight(sa, da))
}

/// The alpha of `src` composited over `dst`.
pub open spec fn blend_alpha(sa: int, da: int) -> int {
    round_div(blend_weight(sa, da), 255)
}

/// The pixel `src` composited over `dst` (both straight-alpha RGBA).
pub open spec fn blend_pixel(src: Seq<u8>, dst: Seq<u8>) -> Seq<u8> {
    let sa = src[3] as int;
    let da = dst[3] as int;
    if blend_weight(sa, da) == 0 {
        seq![0u8, 0u8, 0u8, 0u8]
    } else {
        seq![
            blend_channel(src[0] as int, sa, dst[0] as int, da) as u8,
            blend_channel(src[1] as int, sa, dst[1] as int, da) as u8,
            blend_channel(src[2] as int, sa, dst[2] as int, da) as u8,
            blend_alpha(sa, da) as u8,
        ]
    }
}

proof fn lemma_blend_bounds(sc: int, sa: int, dc: int, da: int)
    requires
        0 <= sc <= 255,
        0 <= sa <= 255,
        0 <= dc <= 255,
        0 <= da <= 255,
        blend_weight(sa, da) > 0,
    ensures
        0 <= 255 * sc * sa + dc * da * (255 - sa) <= 255 * blend_weight(sa, da),
        0 <= blend_channel(sc, sa, dc, da) <= 255,
        0 <= blend_weight(sa, da) <= 255 * 255,
        0 <= blend_alpha(sa, da) <= 255,
{
    let num = 255 * sc * sa + dc * da * (255 - sa);
    let den = blend_weight(sa, da);
    assert(0 <= num <= 255 * den) by (nonlinear_arith)
        requires
            0 <= sc <= 255,
            0 <= sa <= 255,
            0 <= dc <= 255,
            0 <= da <= 255,
            num == 255 * sc * sa + dc * da * (255 - sa),
            den == 255 * sa + da * (255 - sa),
    ;
    assert(0 <= den <= 255 * 255) by (nonlinear_arith)
        requires
            0 <= sa <= 255,
            0 <= da <= 255,
            den == 255 * sa + da * (255 - sa),
    ;
    assert((2 * num + den) / (2 * den) <= 255) by (nonlinear_arith)
        requires
            0 <= num <= 255 * den,
            den > 0,
    ;
    assert((2 * num + den) / (2 * den) >= 0) by (nonlinear_arith)
        requires
            0 <= num,
            den > 0,
    ;
    assert((2 * den + 255) / 510int <= 255) by (nonlinear_arith)
        requires
            0 <= den <= 255 * 255,
    ;
}

/// Compositing an opaque source gives the source; compositing a visible
/// source over a fully transparent pixel gives the source too.
pub proof fn lemma_blend_identities(src: Seq<u8>, dst: Seq<u8>)
    requires
        src.len() == 4,
        dst.len() == 4,
    ensures
        src[3] == 255 ==> blend_pixel(src, dst) == src,
        src[3] > 0 && dst[3] == 0 ==> blend_pixel(src, dst) == src,
{
    let sa = src[3] as int;
    let da = dst[3] as int;
    if sa == 255 {
        assert(blend_weight(sa, da) == 65025) by (nonlinear_arith)
            requires
                sa == 255,
        ;
        assert forall|sc: int, dc: int| 0 <= sc <= 255 implies #[trigger] blend_channel(sc, sa, dc, da) == sc by {
            assert(255 * sc * sa + dc * da * (255 - sa) == 65025 * sc) by (nonlinear_arith)
                requires
                    sa == 255,
            ;
            assert((2 * (65025 * sc) + 65025) / (2 * 65025int) == sc) by (nonlinear_arith)
                requires
                    0 <= sc,
            ;
        }
        assert(blend_alpha(sa, da) == 255);
        assert(blend_channel(src[0] as int, sa, dst[0] as int, da) == src[0]);
        assert(blend_channel(src[1] as int, sa, dst[1] as int, da) == src[1]);
        assert(blend_channel(src[2] as int, sa, dst[2] as int, da) == src[2]);
        assert(blend_pixel(src, dst) =~= src);
    }
    if sa > 0 && da == 0 {
        assert(blend_weight(sa, da) == 255 * sa);
        assert forall|sc: int, dc: int| 0 <= sc <= 255 implies #[trigger] blend_channel(sc, sa, dc, da) == sc by {
            assert(255 * sc * sa + dc * da * (255 - sa) == 255 * sa * sc) by (nonlinear_arith)
                requires
                    da == 0,
            ;
            assert((2 * (255 * sa * sc) + 255 * sa) / (2 * (255 * sa)) == sc) by (nonlinear_arith)
                requires
                    0 <= sc,
                    sa > 0,
            ;
        }
        assert((2 * (255 * sa) + 255) / (2 * 255int) == sa) by (nonlinear_arith)
            requires
                sa >= 0,
        ;
        assert(blend_alpha(sa, da) == sa);
        assert(blend_channel(src[0] as int, sa, dst[0] as int, da) == src[0]);
        assert(blend_channel(src[1] as int, sa, dst[1] as int, da) == src[1]);
        assert(blend_channel(src[2] as int, sa, dst[2] as int, da) == src[2]);
        assert(blend_pixel(src, dst) =~= src);
    }
}

/// Composite `src` over `dst`.
fn alpha_blend_pixel(src: [u8; 4], dst: [u8; 4]) -> (out: [u8; 4])
    ensures
        out@ == blend_pixel(src@, dst@),
{
    let sa: u32 = src[3] as u32;
    let da: u32 = dst[3] as u32;
    assert(da * (255 - sa) <= 255 * 255) by (nonlinear_arith)
        requires
            da <= 255,
            sa <= 255,
    ;
    let weight: u32 = 255 * sa + da * (255 - sa);
    if weight == 0 {
        let out = [0u8, 0u8, 0u8, 0u8];
        assert(out@ =~= seq![0u8, 0u8, 0u8, 0u8]);
        return out;
    }
    let mut out: [u8; 4] = dst;
    let mut c: usize = 0;
    while c < 3
        invariant
            c <= 3,
            out@.len() == 4,
            weight as int == blend_weight(sa as int, da as int),
            weight > 0,
            sa == src@[3],
            da == dst@[3],
            forall|k: int| c <= k < 4 ==> out@[k] == dst@[k],
            forall|k: int|
                0 <= k < c ==> out@[k] == blend_channel(src@[k] as int, sa as int, dst@[k] as int, da as int) as u8,
        decreases 3 - c,
    {
        let sc: u32 = src[c] as u32;
        let dc: u32 = dst[c] as u32;
        proof {
            lemma_blend_bounds(sc as int, sa as int, dc as int, da as int);
            assert(dc * da <= 255 * 255) by (nonlinear_arith)
                requires
                    dc <= 255,
                    da <= 255,
            ;
            assert(dc * da * (255 - sa) <= 255 * 255 * 255) by (nonlinear_arith)
                requires
                    dc * da <= 255 * 255,
                    sa <= 255,
            ;
            assert(255 * sc * sa <= 255 * 255 * 255) by (nonlinear_arith)
                requires
                    sc <= 255,
                    sa <= 255,
            ;
        }
        let num: u32 = 255 * sc * sa + dc * da * (255 - sa);
        let v: u32 = (2 * num + weight) / (2 * weight);
        out[c] = v as u8;
        c += 1;
    }
    proof {
        lemma_blend_bounds(0, sa as int, 0, da as int);
    }
    let a: u32 = (2 * weight + 255) / 510;
    out[3] = a as u8;
    assert(out@ =~= blend_pixel(src@, dst@));
    out
}

/// Set every byte of the frame buffer to zero.
pub fn clear_rgba(frame: &mut [u8])
    ensures
        final(frame)@.len() == old(frame)@.len(),
        forall|i: int| 0 <= i < final(frame)@.len() ==> #[trigger] final(frame)@[i] == 0,
{
    let n: usize = frame.len();
    let mut i: usize = 0;
    while i < n
        invariant
            i <= n,
            frame@.len() == n,
            forall|j: int| 0 <= j < i ==> #[trigger] frame@[j] == 0,
        decreases n - i,
    {
        frame[i] = 0;
        i += 1;
    }
}

/// The source column that local column `lx` of `rect` samples.
pub open spec fn source_column(rect: FrameRect, lx: int, flip_x: bool) -> int {
    if flip_x {
        rect.x + rect.width - 1 - lx
    } else {
        rect.x + lx
    }
}

/// The source pixel drawn at local coordinates `(lx, ly)` of `rect`.
pub open spec fn source_pixel(src: RgbaImage, rect: FrameRect, lx: int, ly: int, flip_x: bool) -> Seq<
    u8,
> {
    let o = pixel_offset(src.spec_width() as int, source_column(rect, lx, flip_x), rect.y + ly);
    src.spec_data().subrange(o, o + 4)
}

/// Local pixel `(lx, ly)` is drawn before local pixel `(lx0, ly0)` (row by row).
pub open spec fn drawn_before(lx: int, ly: int, lx0: int, ly0: int) -> bool {
    ly < ly0 || (ly == ly0 && lx < lx0)
}

/// The local coordinates of `rect` that land on frame pixel `p`, and whether
/// that local pixel is drawn there (inside the frame and not fully transparent).
pub open spec fn lands(
    src: RgbaImage,
    rect: FrameRect,
    fw: int,
    fh: int,
    opts: BlitOptions,
    p: int,
) -> bool {
    let lx = p % fw - opts.dest_x;
    let ly = p / fw - opts.dest_y;
    &&& fw > 0
    &&& 0 <= p < fw * fh
    &&& 0 <= lx < rect.width
    &&& 0 <= ly < rect.height
    &&& source_pixel(src, rect, lx, ly, opts.flip_x)[3] != 0
}

/// Byte `i` of the frame buffer once every local pixel before `(lx0, ly0)` is drawn.
pub open spec fn blit_byte(
    src: RgbaImage,
    rect: FrameRect,
    old: Seq<u8>,
    fw: int,
    fh: int,
    opts: BlitOptions,
    lx0: int,
    ly0: int,
    i: int,
) -> u8 {
    let p = i / 4;
    let lx = p % fw - opts.dest_x;
    let ly = p / fw - opts.dest_y;
    if lands(src, rect, fw, fh, opts, p) && drawn_before(lx, ly, lx0, ly0) {
        blend_pixel(source_pixel(src, rect, lx, ly, opts.flip_x), old.subrange(4 * p, 4 * p + 4))[i
            % 4]
    } else {
        old[i]
    }
}

/// The frame buffer after drawing all of `rect` at the options' position.
pub open spec fn blit_spec(
    src: RgbaImage,
    rect: FrameRect,
    old: Seq<u8>,
    fw: int,
    fh: int,
    opts: BlitOptions,
) -> Seq<u8> {
    Seq::new(old.len(), |i: int| blit_byte(src, rect, old, fw, fh, opts, 0, rect.height as int, i))
}

/// Every pixel that is drawn lies inside the frame buffer.
pub open spec fn blit_fits(
    src: RgbaImage,
    rect: FrameRect,
    frame_len: int,
    fw: int,
    fh: int,
    opts: BlitOptions,
) -> bool {
    forall|lx: int, ly: int|
        #![trigger source_pixel(src, rect, lx, ly, opts.flip_x)]
        0 <= lx < rect.width && 0 <= ly < rect.height && 0 <= opts.dest_x + lx < fw && 0
            <= opts.dest_y + ly < fh && source_pixel(src, rect, lx, ly, opts.flip_x)[3] != 0
            ==> pixel_offset(fw, opts.dest_x + lx, opts.dest_y + ly) + 4 <= frame_len
}

proof fn lemma_pixel_coords(fw: int, dx: int, dy: int)
    requires
        fw > 0,
        0 <= dx < fw,
        0 <= dy,
    ensures
        (dy * fw + dx) / fw == dy,
        (dy * fw + dx) % fw == dx,
        0 <= dy * fw + dx,
{
    vstd::arithmetic::div_mod::lemma_fundamental_div_mod_converse(dy * fw + dx, fw, dy, dx);
    assert(0 <= dy * fw) by (nonlinear_arith)
        requires
            0 <= dy,
            fw > 0,
    ;
}

proof fn lemma_byte_of_pixel(p: int, c: int)
    requires
        0 <= p,
        0 <= c < 4,
    ensures
        (4 * p + c) / 4 == p,
        (4 * p + c) % 4 == c,
{
    vstd::arithmetic::div_mod::lemma_fundamental_div_mod_converse(4 * p + c, 4, p, c);
}

proof fn lemma_pixel_of_byte(i: int)
    requires
        0 <= i,
    ensures
        4 * (i / 4) <= i < 4 * (i / 4) + 4,
        i / 4 >= 0,
{
}

proof fn lemma_pixel_decompose(fw: int, p: int)
    requires
        fw > 0,
        0 <= p,
    ensures
        p == (p / fw) * fw + p % fw,
        0 <= p % fw < fw,
        p / fw >= 0,
{
    vstd::arithmetic::div_mod::lemma_fundamental_div_mod(p, fw);
    vstd::arithmetic::mul::lemma_mul_is_commutative(fw, p / fw);
    vstd::arithmetic::div_mod::lemma_mod_pos_bound(p, fw);
    vstd::arithmetic::div_mod::lemma_div_pos_is_pos(p, fw);
}

/// Every local offset below `len` added to `d` stays an `i32`, with offsets
/// from `2^31` on taken as the negative `i32` they wrap to: either the whole
/// span ends by `i32::MAX`, or it starts at 0 and the wrapped part is negative.
pub open spec fn dest_fits(d: i32, len: u32) -> bool {
    if len as int <= 0x8000_0000 {
        d as int + len as int <= 0x8000_0000
    } else {
        d == 0
    }
}

/// Draw `rect` of `source` into the `frame_width` x `frame_height` RGBA frame
/// buffer with its top-left corner at `(dest_x, dest_y)`, mirrored horizontally
/// when `flip_x`. Pixels outside the frame are clipped, fully transparent
/// source pixels are skipped, the others are composited over the frame.
pub fn blit_frame(
    source: &RgbaImage,
    rect: FrameRect,
    frame: &mut [u8],
    frame_width: u32,
    frame_height: u32,
    options: BlitOptions,
)
    requires
        rect.x as int + rect.width as int <= source.spec_width(),
        rect.y as int + rect.height as int <= source.spec_height(),
        dest_fits(options.dest_x, rect.width),
        dest_fits(options.dest_y, rect.height),
        frame_width as int * frame_height as int * 4 <= u32::MAX as int + 4,
        blit_fits(
            *source,
            rect,
            old(frame)@.len() as int,
            frame_width as int,
            frame_height as int,
            options,
        ),
    ensures
        final(frame)@ == blit_spec(
            *source,
            rect,
            old(frame)@,
            frame_width as int,
            frame_height as int,
            options,
        ),
{
    let ghost old_frame = frame@;
    let ghost fw = frame_width as int;
    let ghost fh = frame_height as int;
    let n: usize = frame.len();
    let sw: u32 = source.width();
    let data_len: usize = source.data_len();
    let mut ly: u32 = 0;
    while ly < rect.height
        invariant
            ly <= rect.height,
            frame@.len() == old_frame.len(),
            n == old_frame.len(),
            sw == source.spec_width(),
            data_len == source.spec_data().len(),
            source.spec_data().len() == source.spec_width() as int * source.spec_height() as int * 4,
            rect.x as int + rect.width as int <= source.spec_width(),
            rect.y as int + rect.height as int <= source.spec_height(),
            fw == frame_width as int,
            fh == frame_height as int,
            frame_width as int * frame_height as int * 4 <= u32::MAX as int + 4,
            blit_fits(*source, rect, n as int, fw, fh, options),
            forall|i: int|
                0 <= i < n ==> #[trigger] frame@[i] == blit_byte(
                    *source,
                    rect,
                    old_frame,
                    fw,
                    fh,
                    options,
                    0,
                    ly as int,
                    i,
                ),
        decreases rect.height - ly,
    {
        let dest_y: i64 = options.dest_y as i64 + ly as i64;
        if dest_y < 0 || dest_y >= frame_height as i64 {
            proof {
                assert forall|i: int| 0 <= i < n implies #[trigger] frame@[i] == blit_byte(
                    *source,
                    rect,
                    old_frame,
                    fw,
                    fh,
                    options,
                    0,
                    ly + 1,
                    i,
                ) by {
                    let p = i / 4;
                    if fw > 0 && p / fw - options.dest_y == ly as int {
                        lemma_pixel_of_byte(i);
                        lemma_pixel_decompose(fw, p);
                        if p < fw * fh {
                            assert(p / fw < fh) by (nonlinear_arith)
                                requires
                                    p < fw * fh,
                                    p == (p / fw) * fw + p % fw,
                                    0 <= p % fw,
                                    fw > 0,
                            ;
                        }
                    }
                }
            }
            ly += 1;
            continue;
        }
        let mut lx: u32 = 0;
        while lx < rect.width
            invariant
                ly < rect.height,
                lx <= rect.width,
                0 <= dest_y < frame_height,
                dest_y as int == options.dest_y as int + ly as int,
                frame@.len() == old_frame.len(),
                n == old_frame.len(),
                sw == source.spec_width(),
                data_len == source.spec_data().len(),
                source.spec_data().len() == source.spec_width() as int * source.spec_height() as int * 4,
            source.spec_data().len() == source.spec_width() as int * source.spec_height() as int * 4,
                rect.x as int + rect.width as int <= source.spec_width(),
                rect.y as int + rect.height as int <= source.spec_height(),
                fw == frame_width as int,
                fh == frame_height as int,
                frame_width as int * frame_height as int * 4 <= u32::MAX as int + 4,
                blit_fits(*source, rect, n as int, fw, fh, options),
                forall|i: int|
                    0 <= i < n ==> #[trigger] frame@[i] == blit_byte(
                        *source,
                        rect,
                        old_frame,
                        fw,
                        fh,
                        options,
                        lx as int,
                        ly as int,
                        i,
                    ),
            decreases rect.width - lx,
        {
            let dest_x: i64 = options.dest_x as i64 + lx as i64;
            if dest_x < 0 || dest_x >= frame_width as i64 {
                proof {
                    assert forall|i: int| 0 <= i < n implies #[trigger] frame@[i] == blit_byte(
                        *source,
                        rect,
                        old_frame,
                        fw,
                        fh,
                        options,
                        lx + 1,
                        ly as int,
                        i,
                    ) by {
                        let p = i / 4;
                        if fw > 0 && p % fw - options.dest_x == lx as int {
                            lemma_pixel_decompose(fw, p);
                        }
                    }
                }
                lx += 1;
                continue;
            }
            let source_x: u32 = if options.flip_x {
                rect.x + rect.width - 1 - lx
            } else {
                rect.x + lx
            };
            let source_y: u32 = rect.y + ly;
            let src = source.get_pixel(source_x, source_y);
            proof {
                let o = pixel_offset(sw as int, source_x as int, source_y as int);
                crate::pixels::lemma_pixel_offset_bounds(
                    sw as int,
                    source.spec_height() as int,
                    source_x as int,
                    source_y as int,
                );
                assert(source_x as int == source_column(rect, lx as int, options.flip_x));
                assert(o == pixel_offset(source.spec_width() as int, source_column(rect, lx as int, options.flip_x), rect.y + ly));
                assert(o + 4 <= source.spec_data().len());
                assert(forall|c: int| 0 <= c < 4 ==> #[trigger] src@[c] == source.spec_data()[o + c]);
                assert(src@ =~= source_pixel(*source, rect, lx as int, ly as int, options.flip_x));
            }
            if src[3] == 0 {
                proof {
                    assert forall|i: int| 0 <= i < n implies #[trigger] frame@[i] == blit_byte(
                        *source,
                        rect,
                        old_frame,
                        fw,
                        fh,
                        options,
                        lx + 1,
                        ly as int,
                        i,
                    ) by {
                        let p = i / 4;
                        if fw > 0 && p % fw - options.dest_x == lx as int && p / fw - options.dest_y
                            == ly as int {
                            lemma_pixel_decompose(fw, p);
                        }
                    }
                }
                lx += 1;
                continue;
            }
            let ghost p0: int = dest_y as int * fw + dest_x as int;
            proof {
                lemma_pixel_coords(fw, dest_x as int, dest_y as int);
                assert(p0 < fw * fh) by (nonlinear_arith)
                    requires
                        p0 == dest_y as int * fw + dest_x as int,
                        0 <= dest_x < fw,
                        0 <= dest_y < fh,
                ;
                assert(pixel_offset(fw, options.dest_x + lx, options.dest_y + ly) + 4 <= n);
                assert(4 * p0 + 4 <= fw * fh * 4) by (nonlinear_arith)
                    requires
                        p0 < fw * fh,
                ;
            }
            let offset: usize = (((dest_y as u32) * frame_width + (dest_x as u32)) * 4) as usize;
            assert(offset as int == 4 * p0);
            let cur: [u8; 4] = [frame[offset], frame[offset + 1], frame[offset + 2], frame[offset + 3]];
            let ghost before = frame@;
            proof {
                assert forall|c: int| 0 <= c < 4 implies cur@[c] == old_frame[4 * p0 + c] by {
                    lemma_byte_of_pixel(p0, c);
                    assert(before[4 * p0 + c] == blit_byte(
                        *source,
                        rect,
                        old_frame,
                        fw,
                        fh,
                        options,
                        lx as int,
                        ly as int,
                        4 * p0 + c,
                    ));
                }
                assert(cur@ =~= old_frame.subrange(4 * p0, 4 * p0 + 4));
            }
            let out = alpha_blend_pixel(src, cur);
            frame[offset] = out[0];
            frame[offset + 1] = out[1];
            frame[offset + 2] = out[2];
            frame[offset + 3] = out[3];
            proof {
                assert forall|i: int| 0 <= i < n implies #[trigger] frame@[i] == blit_byte(
                    *source,
                    rect,
                    old_frame,
                    fw,
                    fh,
                    options,
                    lx + 1,
                    ly as int,
                    i,
                ) by {
                    let p = i / 4;
                    lemma_pixel_of_byte(i);
                    lemma_pixel_decompose(fw, p);
                    if 4 * p0 <= i < 4 * p0 + 4 {
                        lemma_byte_of_pixel(p0, i - 4 * p0);
                        assert(p == p0);
                    } else {
                        assert(frame@[i] == before[i]);
                        if p % fw - options.dest_x == lx as int && p / fw - options.dest_y
                            == ly as int {
                            assert(p == p0);
                        }
                    }
                }
            }
            lx += 1;
        }
        proof {
            assert forall|i: int| 0 <= i < n implies #[trigger] frame@[i] == blit_byte(
                *source,
                rect,
                old_frame,
                fw,
                fh,
                options,
                0,
                ly + 1,
                i,
            ) by {
                let p = i / 4;
                if fw > 0 && lands(*source, rect, fw, fh, options, p) {
                    lemma_pixel_decompose(fw, p);
                }
            }
        }
        ly += 1;
    }
    assert(frame@ =~= blit_spec(*source, rect, old_frame, fw, fh, options));
}

} // verus!
