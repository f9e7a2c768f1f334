//! Pixel-level geometry of the recognition extractor and the
//! preprocessor: clamping a pixel rectangle to the image, cropping a
//! region out of an interleaved RGB image, and reordering interleaved
//! samples into the channel-major (planar) layout the models take. The
//! per-sample value scaling is floating-point arithmetic and is done by
//! the hosting adapter; everything about positions and layout is proved
//! here.

use vstd::prelude::*;

verus! {

/// A decoded image: `width * height` pixels in row-major order, three
/// interleaved 8-bit samples (red, green, blue) per pixel.
pub struct RawImage {
    pub width: u32,
    pub height: u32,
    pub pixels: Vec<u8>,
}

impl RawImage {
    /// The sample buffer holds exactly three bytes per pixel.
    pub open spec fn wf(&self) -> bool {
        self.pixels@.len() == 3 * (self.width as int) * (self.height as int)
    }
}

/// The rectangle the extractor crops for a detected box, clamped to the
/// image: `x` and `y` are capped to the last valid pixel, and the
/// extent is capped so the crop never leaves the image.
pub open spec fn spec_clamp_rect(
    x: u32,
    y: u32,
    w: u32,
    h: u32,
    img_w: u32,
    img_h: u32,
) -> (u32, u32, u32, u32) {
    let max_x = if img_w == 0 { 0 } else { (img_w - 1) as u32 };
    let max_y = if img_h == 0 { 0 } else { (img_h - 1) as u32 };
    let cx = if x < max_x { x } else { max_x };
    let cy = if y < max_y { y } else { max_y };
    let cw = if w < (img_w - cx) as u32 { w } else { (img_w - cx) as u32 };
    let ch = if h < (img_h - cy) as u32 { h } else { (img_h - cy) as u32 };
    (cx, cy, cw, ch)
}

/// Clamp a pixel rectangle against the image bounds, exactly as
/// [`spec_clamp_rect`] says; the result never reaches outside an
/// `img_w` by `img_h` image.
pub fn clamp_rect(x: u32, y: u32, w: u32, h: u32, img_w: u32, img_h: u32) -> (r: (
    u32,
    u32,
    u32,
    u32,
))
    ensures
        r == spec_clamp_rect(x, y, w, h, img_w, img_h),
        r.0 + r.2 <= img_w,
        r.1 + r.3 <= img_h,
{
    let max_x: u32 = if img_w == 0 { 0 } else { img_w - 1 };
    let max_y: u32 = if img_h == 0 { 0 } else { img_h - 1 };
    let cx: u32 = if x < max_x { x } else { max_x };
    let cy: u32 = if y < max_y { y } else { max_y };
    let cw: u32 = if w < img_w - cx { w } else { img_w - cx };
    let ch: u32 = if h < img_h - cy { h } else { img_h - cy };
    (cx, cy, cw, ch)
}

/// The bytes of row `r` of the crop at `(cx, cy)` of extent `cw`: one
/// contiguous run of `3 * cw` samples of the source image, starting at
/// pixel `(cx, cy + r)`.
pub open spec fn crop_row(img: RawImage, cx: int, cy: int, cw: int, r: int) -> Seq<u8> {
    img.pixels@.subrange(
        3 * ((cy + r) * (img.width as int) + cx),
        3 * ((cy + r) * (img.width as int) + cx) + 3 * cw,
    )
}

/// The first `rows` rows of the crop at `(cx, cy)` of extent `cw`,
/// concatenated.
pub open spec fn crop_rows(img: RawImage, cx: int, cy: int, cw: int, rows: int) -> Seq<u8>
    decreases rows,
{
    if rows <= 0 {
        Seq::<u8>::empty()
    } else {
        crop_rows(img, cx, cy, cw, rows - 1) + crop_row(img, cx, cy, cw, rows - 1)
    }
}

/// Each crop row is a full-length run, so `rows` rows hold
/// `rows * 3 * cw` samples.
proof fn lemma_crop_rows_len(img: RawImage, cx: int, cy: int, cw: int, rows: int)
    requires
        img.wf(),
        0 <= cx,
        0 <= cy,
        0 <= cw,
        0 <= rows,
        cx + cw <= img.width,
        cy + rows <= img.height,
    ensures
        crop_rows(img, cx, cy, cw, rows).len() == rows * (3 * cw),
    decreases rows,
{
    if rows > 0 {
        lemma_crop_rows_len(img, cx, cy, cw, rows - 1);
        assert(0 <= 3 * ((cy + rows - 1) * (img.width as int) + cx) && 3 * ((cy + rows - 1) * (
        img.width as int) + cx) + 3 * cw <= 3 * (img.width as int) * (img.height as int))
            by (nonlinear_arith)
            requires
                0 <= cx,
                0 <= cy,
                0 <= cw,
                0 < rows,
                cx + cw <= img.width,
                cy + rows <= img.height,
        ;
        assert(crop_row(img, cx, cy, cw, rows - 1).len() == 3 * cw);
        assert(crop_rows(img, cx, cy, cw, rows) == crop_rows(img, cx, cy, cw, rows - 1) + crop_row(
            img,
            cx,
            cy,
            cw,
            rows - 1,
        ));
        assert((crop_rows(img, cx, cy, cw, rows - 1) + crop_row(img, cx, cy, cw, rows - 1)).len()
            == crop_rows(img, cx, cy, cw, rows - 1).len() + crop_row(
            img,
            cx,
            cy,
            cw,
            rows - 1,
        ).len());
        assert((rows - 1) * (3 * cw) + 3 * cw == rows * (3 * cw)) by (nonlinear_arith);
    } else {
        assert(crop_rows(img, cx, cy, cw, rows) == Seq::<u8>::empty());
        assert(rows * (3 * cw) == 0) by (nonlinear_arith)
            requires
                rows == 0,
        ;
    }
}

/// Crop the rectangle at `(cx, cy)` of extent `cw` by `ch` out of the
/// image: the result is a well-formed `cw` by `ch` image whose rows are
/// the corresponding sample runs of the source.
pub fn crop_image(img: &RawImage, cx: u32, cy: u32, cw: u32, ch: u32) -> (r: RawImage)
    requires
        img.wf(),
        cx + cw <= img.width,
        cy + ch <= img.height,
    ensures
        r.wf(),
        r.width == cw,
        r.height == ch,
        r.pixels@ == crop_rows(*img, cx as int, cy as int, cw as int, ch as int),
{
    let mut out: Vec<u8> = Vec::new();
    let mut row: u32 = 0;
    while row < ch
        invariant
            img.wf(),
            cx + cw <= img.width,
            cy + ch <= img.height,
            row <= ch,
            out@ == crop_rows(*img, cx as int, cy as int, cw as int, row as int),
        decreases ch - row,
    {
        proof {
            assert(((cy + row) as int) * (img.width as int) + cx + cw <= (img.height as int) * (
            img.width as int) && 3 * (((cy + row) as int) * (img.width as int) + (cx as int)) + 3
                * (cw as int) <= 3 * (img.width as int) * (img.height as int)) by (nonlinear_arith)
                requires
                    cx + cw <= img.width,
                    cy + ch <= img.height,
                    row < ch,
            ;
            assert(img.pixels@.len() == 3 * (img.width as int) * (img.height as int));
        }
        let plen: usize = img.pixels.len();
        let base: usize = 3 * (((cy + row) as usize) * (img.width as usize) + (cx as usize));
        let run: usize = 3 * (cw as usize);
        let mut t: usize = 0;
        while t < run
            invariant
                img.wf(),
                cx + cw <= img.width,
                cy + ch <= img.height,
                row < ch,
                t <= run,
                run == 3 * (cw as int),
                base == 3 * (((cy + row) as int) * (img.width as int) + (cx as int)),
                plen == img.pixels@.len(),
                base + run <= plen,
                out@ == crop_rows(*img, cx as int, cy as int, cw as int, row as int)
                    + img.pixels@.subrange(base as int, base as int + t as int),
            decreases run - t,
        {
            let s = img.pixels[base + t];
            out.push(s);
            t = t + 1;
            proof {
                assert(img.pixels@.subrange(base as int, base as int + t as int)
                    =~= img.pixels@.subrange(base as int, base as int + t - 1).push(s));
            }
        }
        row = row + 1;
        proof {
            assert(out@ =~= crop_rows(*img, cx as int, cy as int, cw as int, row as int));
        }
    }
    proof {
        lemma_crop_rows_len(*img, cx as int, cy as int, cw as int, ch as int);
        assert((ch as int) * (3 * (cw as int)) == 3 * (cw as int) * (ch as int))
            by (nonlinear_arith);
    }
    RawImage { width: cw, height: ch, pixels: out }
}

/// Plane `k` of an interleaved sample buffer of `n` pixels: the `k`-th
/// sample of every pixel, in pixel order.
pub open spec fn channel_plane(pixels: Seq<u8>, k: int, n: int) -> Seq<u8> {
    Seq::new(n as nat, |j: int| pixels[3 * j + k])
}

/// Reorder the interleaved RGB samples of `n = len / 3` pixels into the
/// channel-major (planar) layout: the red plane, then the green plane,
/// then the blue plane, each in pixel order. Sample values are
/// untouched; the models' value scaling is applied to this buffer by
/// the caller. For a row-major image, pixel order is row-major, so the
/// result is the `[1, 3, height, width]` layout the models take.
pub fn planar_layout(pixels: &Vec<u8>) -> (r: Vec<u8>)
    requires
        pixels@.len() % 3 == 0,
    ensures
        r@.len() == pixels@.len(),
        r@ == channel_plane(pixels@, 0, pixels@.len() as int / 3) + channel_plane(
            pixels@,
            1,
            pixels@.len() as int / 3,
        ) + channel_plane(pixels@, 2, pixels@.len() as int / 3),
{
    let plen: usize = pixels.len();
    let n: usize = plen / 3;
    proof {
        assert(pixels@.len() == 3 * (n as int));
    }
    let mut out: Vec<u8> = Vec::new();
    let mut k: usize = 0;
    while k < 3
        invariant
            plen == pixels@.len(),
            pixels@.len() == 3 * (n as int),
            n == pixels@.len() as int / 3,
            k <= 3,
            k == 0 ==> out@ == Seq::<u8>::empty(),
            k == 1 ==> out@ == channel_plane(pixels@, 0, n as int),
            k == 2 ==> out@ == channel_plane(pixels@, 0, n as int) + channel_plane(
                pixels@,
                1,
                n as int,
            ),
            k == 3 ==> out@ == channel_plane(pixels@, 0, n as int) + channel_plane(
                pixels@,
                1,
                n as int,
            ) + channel_plane(pixels@, 2, n as int),
        decreases 3 - k,
    {
        let ghost prefix = out@;
        let mut j: usize = 0;
        while j < n
            invariant
                plen == pixels@.len(),
                pixels@.len() == 3 * (n as int),
                k < 3,
                j <= n,
                out@ == prefix + channel_plane(pixels@, k as int, j as int),
            decreases n - j,
        {
            let s = pixels[3 * j + k];
            out.push(s);
            j = j + 1;
            proof {
                assert(channel_plane(pixels@, k as int, j as int) =~= channel_plane(
                    pixels@,
                    k as int,
                    j - 1,
                ).push(s));
            }
        }
        k = k + 1;
        proof {
            assert(out@ =~= prefix + channel_plane(pixels@, (k - 1) as int, n as int));
        }
    }
    proof {
        assert(out@ =~= channel_plane(pixels@, 0, n as int) + channel_plane(pixels@, 1, n as int)
            + channel_plane(pixels@, 2, n as int));
    }
    out
}

} // verus!
