//! In-memory 8-bit RGB rasters, stored row-major with three bytes per pixel,
//! and the exact pixel operations the pipeline is built from: fill, crop and
//! centred overlay.

use vstd::prelude::*;
use vstd::arithmetic::div_mod::{lemma_div_pos_is_pos, lemma_fundamental_div_mod, lemma_mod_pos_bound};

verus! {

/// Byte at channel `c` of pixel `(x, y)` in a row-major RGB buffer of width `w`.
pub open spec fn byte_at(data: Seq<u8>, w: int, x: int, y: int, c: int) -> u8 {
    data[3 * (y * w + x) + c]
}

/// Offset that centres an extent `inner` inside an extent `outer`.
pub open spec fn centered_offset(outer: int, inner: int) -> int {
    (outer - inner) / 2
}

/// Channel `c` of pixel `(x, y)` after `top` is pasted, centred, over `bottom`.
pub open spec fn overlaid_at(bottom: Raster, top: Raster, x: int, y: int, c: int) -> u8 {
    let ox = centered_offset(bottom.width as int, top.width as int);
    let oy = centered_offset(bottom.height as int, top.height as int);
    if ox <= x < ox + top.width && oy <= y < oy + top.height {
        top.at(x - ox, y - oy, c)
    } else {
        bottom.at(x, y, c)
    }
}

/// Relies on `image::imageops::resize` with `FilterType::Lanczos3` (image 0.24):
/// it returns a buffer of exactly the requested size, three bytes per pixel.
/// The pixel values come from floating-point weights whose last bits may differ
/// between platforms, so nothing is stated of them. Its intermediate
/// buffer holds four channels for `width` by `new_height` pixels, which must fit
/// in `usize`, as must the result.
#[verifier::external_body]
pub(crate) fn resize_lanczos(src: &Raster, new_width: u32, new_height: u32) -> (r: Raster)
    requires
        src.wf(),
        0 < src.width,
        0 < src.height,
        0 < new_width,
        0 < new_height,
        4 * (src.width as int) * (new_height as int) <= usize::MAX,
        3 * (new_width as int) * (new_height as int) <= usize::MAX,
    ensures
        r.wf(),
        r.width == new_width,
        r.height == new_height,
{
    let source: image::RgbImage = image::ImageBuffer::from_raw(src.width, src.height, src.data.clone()).unwrap();
    let out = image::imageops::resize(&source, new_width, new_height, image::imageops::FilterType::Lanczos3);
    Raster { width: out.width(), height: out.height(), data: out.into_raw() }
}

/// The byte offset of a pixel channel lies inside the buffer.
pub proof fn lemma_pixel_index_bound(w: int, h: int, x: int, y: int, c: int)
    requires
        0 <= x < w,
        0 <= y < h,
        0 <= c < 3,
    ensures
        0 <= y * w + x,
        0 <= 3 * (y * w + x) + c < 3 * w * h,
{
    assert(0 <= y * w) by (nonlinear_arith)
        requires
            0 <= y,
            0 <= w,
    ;
    assert(y * w + x < h * w) by (nonlinear_arith)
        requires
            0 <= x < w,
            0 <= y < h,
    ;
    assert(3 * (h * w) == 3 * w * h) by (nonlinear_arith);
}

/// A pixel in an earlier row, or earlier in the same row, has a smaller offset.
proof fn lemma_row_major_before(w: int, x: int, y: int, i: int, j: int)
    requires
        0 <= x < w,
        0 <= i,
        0 <= y,
        y < j || (y == j && x < i),
    ensures
        y * w + x < j * w + i,
{
    if y < j {
        assert(y * w + w <= j * w) by (nonlinear_arith)
            requires
                y + 1 <= j,
                0 <= w,
        ;
    }
}

/// Byte offset of pixel `(x, y)` in a row-major RGB buffer of `w` by `h` pixels.
fn pixel_offset(w: u32, h: u32, len: usize, x: u32, y: u32) -> (r: usize)
    requires
        x < w,
        y < h,
        len == 3 * (w as int) * (h as int),
    ensures
        r == 3 * (y * w + x),
        r + 2 < 3 * (w as int) * (h as int),
{
    proof {
        lemma_pixel_index_bound(w as int, h as int, x as int, y as int, 2);
        assert(y * w <= y * w + x);
    }
    let row: usize = y as usize * w as usize;
    3 * (row + x as usize)
}

/// Two rasters of the same size whose pixels agree hold the same bytes.
pub proof fn lemma_pixels_determine_data(a: Raster, b: Raster)
    requires
        a.wf(),
        b.wf(),
        a.width == b.width,
        a.height == b.height,
        forall|x: int, y: int, c: int|
            #![trigger a.at(x, y, c), b.at(x, y, c)]
            a.in_bounds(x, y, c) ==> a.at(x, y, c) == b.at(x, y, c),
    ensures
        a.data@ == b.data@,
{
    let w = a.width as int;
    let h = a.height as int;
    assert forall|k: int| 0 <= k < a.data@.len() implies a.data@[k] == b.data@[k] by {
        let p = k / 3;
        let c = k % 3;
        lemma_fundamental_div_mod(k, 3);
        lemma_mod_pos_bound(k, 3);
        assert(3 * w * h == 3 * (w * h)) by (nonlinear_arith);
        assert(w > 0) by (nonlinear_arith)
            requires
                0 <= k < 3 * w * h,
                0 <= w,
                0 <= h,
        ;
        let x = p % w;
        let y = p / w;
        lemma_fundamental_div_mod(p, w);
        lemma_mod_pos_bound(p, w);
        assert(y * w == w * y) by (nonlinear_arith);
        assert(0 <= p < w * h);
        lemma_div_pos_is_pos(p, w);
        assert(y < h) by (nonlinear_arith)
            requires
                p == w * y + x,
                0 <= x,
                0 <= p < w * h,
                0 < w,
        ;
        assert(a.at(x, y, c) == b.at(x, y, c));
    }
    assert(a.data@ =~= b.data@);
}

/// An RGB raster of `width` by `height` pixels; `data` holds the channels of
/// each pixel in row-major order.
#[derive(Debug)]
pub struct Raster {
    pub width: u32,
    pub height: u32,
    pub data: Vec<u8>,
}

impl Raster {
    /// The buffer holds exactly three bytes for every pixel.
    pub open spec fn wf(&self) -> bool {
        self.data@.len() == 3 * (self.width as int) * (self.height as int)
    }

    /// Channel `c` of the pixel at column `x`, row `y`.
    pub open spec fn at(&self, x: int, y: int, c: int) -> u8 {
        byte_at(self.data@, self.width as int, x, y, c)
    }

    /// Whether `(x, y, c)` names a channel of a pixel of this raster.
    pub open spec fn in_bounds(&self, x: int, y: int, c: int) -> bool {
        0 <= x < self.width && 0 <= y < self.height && 0 <= c < 3
    }

    /// Wraps a row-major RGB buffer; fails unless it holds exactly three bytes
    /// per pixel.
    pub fn from_raw(width: u32, height: u32, data: Vec<u8>) -> (r: Option<Raster>)
        ensures
            r is Some <==> data@.len() == 3 * (width as int) * (height as int),
            r matches Some(img) ==> img.width == width && img.height == height && img.data@
                == data@ && img.wf(),
    {
        proof {
            assert((width as int) * (height as int) <= 0xffff_ffff * 0xffff_ffff) by (nonlinear_arith)
                requires
                    width <= 0xffff_ffff,
                    height <= 0xffff_ffff,
            ;
            assert(3 * ((width as int) * (height as int)) == 3 * (width as int) * (height as int)) by (nonlinear_arith);
        }
        let expected: u128 = 3 * ((width as u128) * (height as u128));
        if data.len() as u128 == expected {
            Some(Raster { width, height, data })
        } else {
            None
        }
    }

    pub fn width(&self) -> (r: u32)
        ensures
            r == self.width,
    {
        self.width
    }

    pub fn height(&self) -> (r: u32)
        ensures
            r == self.height,
    {
        self.height
    }

    /// The three channels of the pixel at column `x`, row `y`.
    pub fn pixel(&self, x: u32, y: u32) -> (r: [u8; 3])
        requires
            self.wf(),
            x < self.width,
            y < self.height,
        ensures
            forall|c: int| 0 <= c < 3 ==> r@[c] == self.at(x as int, y as int, c),
    {
        let base = pixel_offset(self.width, self.height, self.data.len(), x, y);
        [self.data[base], self.data[base + 1], self.data[base + 2]]
    }

    /// The underlying row-major buffer.
    pub fn into_raw(self) -> (r: Vec<u8>)
        ensures
            r@ == self.data@,
    {
        self.data
    }

    /// A raster of the given size with every pixel set to `color`.
    pub fn from_pixel(width: u32, height: u32, color: [u8; 3]) -> (r: Raster)
        requires
            3 * (width as int) * (height as int) <= usize::MAX,
        ensures
            r.wf(),
            r.width == width,
            r.height == height,
            forall|x: int, y: int, c: int|
                #![trigger r.at(x, y, c)]
                r.in_bounds(x, y, c) ==> r.at(x, y, c) == color@[c],
    {
        let mut data: Vec<u8> = Vec::new();
        if width == 0 {
            proof {
                assert(3 * (width as int) * (height as int) == 0) by (nonlinear_arith)
                    requires
                        width == 0,
                ;
            }
            return Raster { width, height, data };
        }
        let mut i: u32 = 0;
        let mut j: u32 = 0;
        while j < height
            invariant
                0 < width,
                i < width,
                j <= height,
                j == height ==> i == 0,
                3 * (width as int) * (height as int) <= usize::MAX,
                data@.len() == 3 * (j * width + i),
                forall|x: int, y: int, c: int|
                    #![trigger byte_at(data@, width as int, x, y, c)]
                    0 <= x < width && 0 <= y < height && 0 <= c < 3 && (y < j || (y == j && x
                        < i)) ==> byte_at(data@, width as int, x, y, c) == color@[c],
            decreases height - j, width - i,
        {
            let ghost prev = data@;
            data.push(color[0]);
            data.push(color[1]);
            data.push(color[2]);
            proof {
                assert forall|x: int, y: int, c: int|
                    #![trigger byte_at(data@, width as int, x, y, c)]
                    0 <= x < width && 0 <= y < height && 0 <= c < 3 && (y < j || (y == j && x
                        <= i)) implies byte_at(data@, width as int, x, y, c) == color@[c] by {
                    if y < j || x < i {
                        lemma_row_major_before(width as int, x, y, i as int, j as int);
                        assert(byte_at(prev, width as int, x, y, c) == color@[c]);
                    }
                }
            }
            i = i + 1;
            if i == width {
                i = 0;
                j = j + 1;
                proof {
                    assert((j - 1) * width + width == j * width) by (nonlinear_arith);
                }
            }
        }
        proof {
            assert(3 * (height * width) == 3 * (width as int) * (height as int)) by (nonlinear_arith);
        }
        Raster { width, height, data }
    }

    /// A copy of the `w` by `h` window whose top-left corner is `(x0, y0)`.
    pub fn crop(&self, x0: u32, y0: u32, w: u32, h: u32) -> (r: Raster)
        requires
            self.wf(),
            x0 + w <= self.width,
            y0 + h <= self.height,
        ensures
            r.wf(),
            r.width == w,
            r.height == h,
            forall|x: int, y: int, c: int|
                #![trigger r.at(x, y, c)]
                r.in_bounds(x, y, c) ==> r.at(x, y, c) == self.at(x0 + x, y0 + y, c),
    {
        let mut data: Vec<u8> = Vec::new();
        let len = self.data.len();
        proof {
            assert(3 * (w as int) * (h as int) <= 3 * (self.width as int) * (self.height as int))
                by (nonlinear_arith)
                requires
                    w <= self.width,
                    h <= self.height,
            ;
        }
        if w == 0 {
            proof {
                assert(3 * (w as int) * (h as int) == 0) by (nonlinear_arith)
                    requires
                        w == 0,
                ;
            }
            return Raster { width: w, height: h, data };
        }
        let mut i: u32 = 0;
        let mut j: u32 = 0;
        while j < h
            invariant
                self.wf(),
                len == self.data@.len(),
                x0 + w <= self.width,
                y0 + h <= self.height,
                0 < w,
                i < w,
                j <= h,
                j == h ==> i == 0,
                3 * (w as int) * (h as int) <= usize::MAX,
                data@.len() == 3 * (j * w + i),
                forall|x: int, y: int, c: int|
                    #![trigger byte_at(data@, w as int, x, y, c)]
                    0 <= x < w && 0 <= y < h && 0 <= c < 3 && (y < j || (y == j && x < i))
                        ==> byte_at(data@, w as int, x, y, c) == self.at(x0 + x, y0 + y, c),
            decreases h - j, w - i,
        {
            let src = pixel_offset(self.width, self.height, len, x0 + i, y0 + j);
            proof {
                lemma_pixel_index_bound(w as int, h as int, i as int, j as int, 2);
            }
            let ghost prev = data@;
            data.push(self.data[src]);
            data.push(self.data[src + 1]);
            data.push(self.data[src + 2]);
            proof {
                assert forall|x: int, y: int, c: int|
                    #![trigger byte_at(data@, w as int, x, y, c)]
                    0 <= x < w && 0 <= y < h && 0 <= c < 3 && (y < j || (y == j && x <= i))
                        implies byte_at(data@, w as int, x, y, c) == self.at(x0 + x, y0 + y, c) by {
                    if y < j || x < i {
                        lemma_row_major_before(w as int, x, y, i as int, j as int);
                        assert(byte_at(prev, w as int, x, y, c) == self.at(x0 + x, y0 + y, c));
                    }
                }
            }
            i = i + 1;
            if i == w {
                i = 0;
                j = j + 1;
                proof {
                    assert((j - 1) * w + w == j * w) by (nonlinear_arith);
                }
            }
        }
        proof {
            assert(3 * (h * w) == 3 * (w as int) * (h as int)) by (nonlinear_arith);
        }
        Raster { width: w, height: h, data }
    }

    /// Pastes `top` over this raster so that it sits centred, replacing the
    /// covered pixels outright.
    pub fn overlay_centered(&mut self, top: &Raster)
        requires
            old(self).wf(),
            top.wf(),
            top.width <= old(self).width,
            top.height <= old(self).height,
        ensures
            final(self).wf(),
            final(self).width == old(self).width,
            final(self).height == old(self).height,
            forall|x: int, y: int, c: int|
                #![trigger final(self).at(x, y, c)]
                final(self).in_bounds(x, y, c) ==> final(self).at(x, y, c) == overlaid_at(
                    *old(self),
                    *top,
                    x,
                    y,
                    c,
                ),
    {
        let bw = self.width;
        let bh = self.height;
        let tw = top.width;
        let th = top.height;
        let ox = (bw - tw) / 2;
        let oy = (bh - th) / 2;
        let blen = self.data.len();
        let tlen = top.data.len();
        let mut data: Vec<u8> = Vec::new();
        if bw == 0 {
            return;
        }
        let mut i: u32 = 0;
        let mut j: u32 = 0;
        while j < bh
            invariant
                self.wf(),
                top.wf(),
                blen == self.data@.len(),
                tlen == top.data@.len(),
                bw == self.width,
                bh == self.height,
                tw == top.width,
                th == top.height,
                tw <= bw,
                th <= bh,
                ox == centered_offset(bw as int, tw as int),
                oy == centered_offset(bh as int, th as int),
                0 < bw,
                i < bw,
                j <= bh,
                j == bh ==> i == 0,
                data@.len() == 3 * (j * bw + i),
                forall|x: int, y: int, c: int|
                    #![trigger byte_at(data@, bw as int, x, y, c)]
                    0 <= x < bw && 0 <= y < bh && 0 <= c < 3 && (y < j || (y == j && x < i))
                        ==> byte_at(data@, bw as int, x, y, c) == overlaid_at(*self, *top, x, y, c),
            decreases bh - j, bw - i,
        {
            let inside = ox <= i && i - ox < tw && oy <= j && j - oy < th;
            let src = if inside {
                pixel_offset(tw, th, tlen, i - ox, j - oy)
            } else {
                pixel_offset(bw, bh, blen, i, j)
            };
            proof {
                lemma_pixel_index_bound(bw as int, bh as int, i as int, j as int, 2);
            }
            let ghost prev = data@;
            if inside {
                data.push(top.data[src]);
                data.push(top.data[src + 1]);
                data.push(top.data[src + 2]);
            } else {
                data.push(self.data[src]);
                data.push(self.data[src + 1]);
                data.push(self.data[src + 2]);
            }
            proof {
                assert forall|x: int, y: int, c: int|
                    #![trigger byte_at(data@, bw as int, x, y, c)]
                    0 <= x < bw && 0 <= y < bh && 0 <= c < 3 && (y < j || (y == j && x <= i))
                        implies byte_at(data@, bw as int, x, y, c) == overlaid_at(*self, *top, x, y, c) by {
                    if y < j || x < i {
                        lemma_row_major_before(bw as int, x, y, i as int, j as int);
                        assert(byte_at(prev, bw as int, x, y, c) == overlaid_at(*self, *top, x, y, c));
                    }
                }
            }
            i = i + 1;
            if i == bw {
                i = 0;
                j = j + 1;
                proof {
                    assert((j - 1) * bw + bw == j * bw) by (nonlinear_arith);
                }
            }
        }
        proof {
            assert(3 * (bh * bw) == 3 * (bw as int) * (bh as int)) by (nonlinear_arith);
        }
        self.data = data;
    }
}

} // verus!
