//! The validated pipeline configuration and the two exports built on it: the
//! carousel of equal-width panels and the cover composite.

use vstd::prelude::*;
use vstd::arithmetic::div_mod::{lemma_div_pos_is_pos, lemma_fundamental_div_mod, lemma_mod_pos_bound};
use crate::geometry::{
    derive_geometry,
    geometry_error,
    thumbnail_height_of,
    thumbnail_width_of,
    ConfigError,
    ImageSize,
    Ratio,
};
use crate::raster::{centered_offset, resize_lanczos, Raster};

verus! {

/// Whether an optional border color has the three channels it needs.
pub open spec fn border_color_ok(color: Option<Vec<u8>>) -> bool {
    match color {
        Some(v) => v@.len() == 3,
        None => true,
    }
}

/// The border color's channels: the given ones, or black.
pub open spec fn border_color_of(color: Option<Vec<u8>>) -> Seq<u8> {
    match color {
        Some(v) => v@,
        None => seq![0u8, 0u8, 0u8],
    }
}

/// Width of a `width` by `height` source rescaled to height `target`, keeping
/// its aspect ratio.
pub open spec fn rescaled_width(width: int, height: int, target: int) -> int {
    width * target / height
}

/// Source dimensions after the optional rescale to the requested panel height.
pub open spec fn prepared_size(width: int, height: int, target: Option<u32>) -> (int, int) {
    match target {
        Some(t) => (rescaled_width(width, height, t as int), t as int),
        None => (width, height),
    }
}

/// The first check that the source and the optional rescale fail, if any.
pub open spec fn rescale_error(width: int, height: int, target: Option<u32>) -> Option<ConfigError> {
    if width == 0 || height == 0 {
        Some(ConfigError::EmptySource)
    } else {
        match target {
            None => None,
            Some(t) => {
                let nw = rescaled_width(width, height, t as int);
                if t == 0 {
                    Some(ConfigError::ZeroPanelHeight)
                } else if nw > u32::MAX || 4 * width * t > usize::MAX || 3 * nw * t > usize::MAX {
                    Some(ConfigError::SizeOverflow)
                } else if nw == 0 {
                    Some(ConfigError::EmptySource)
                } else {
                    None
                }
            },
        }
    }
}

/// The first check that a configuration fails, if any: the border color, then
/// the rescale, then the geometry of the prepared source, then the room its
/// resampling needs.
pub open spec fn config_error(
    width: int,
    height: int,
    num_panels: int,
    target: Option<u32>,
    frac: Ratio,
    radius: int,
    color: Option<Vec<u8>>,
) -> Option<ConfigError> {
    let (w, h) = prepared_size(width, height, target);
    if !border_color_ok(color) {
        Some(ConfigError::BorderColorLength)
    } else if rescale_error(width, height, target) is Some {
        rescale_error(width, height, target)
    } else {
        prepared_error(w, h, num_panels, frac, radius, color)
    }
}

/// The first check that a configuration over an already prepared `width` by
/// `height` source fails, if any: the border color, then the geometry, then
/// the room that resampling the source needs.
pub open spec fn prepared_error(
    width: int,
    height: int,
    num_panels: int,
    frac: Ratio,
    radius: int,
    color: Option<Vec<u8>>,
) -> Option<ConfigError> {
    if !border_color_ok(color) {
        Some(ConfigError::BorderColorLength)
    } else if geometry_error(width, height, num_panels, frac, radius) is Some {
        geometry_error(width, height, num_panels, frac, radius)
    } else if 4 * width * height > usize::MAX {
        Some(ConfigError::SizeOverflow)
    } else {
        None
    }
}

/// Panel `idx` of `n` lies inside a source of width `w`.
proof fn lemma_panel_window_inside(w: int, n: int, idx: int)
    requires
        0 <= w,
        0 <= idx < n,
    ensures
        0 <= (w / n) * idx,
        (w / n) * idx + w / n <= (w / n) * n <= w,
{
    lemma_fundamental_div_mod(w, n);
    lemma_mod_pos_bound(w, n);
    lemma_div_pos_is_pos(w, n);
    assert((w / n) * n == n * (w / n)) by (nonlinear_arith);
    assert(0 <= (w / n) * idx) by (nonlinear_arith)
        requires
            0 <= w / n,
            0 <= idx,
    ;
    assert((w / n) * idx + w / n <= (w / n) * n) by (nonlinear_arith)
        requires
            0 <= w / n,
            idx + 1 <= n,
    ;
}

/// A product of non-negative factors grows with each factor.
proof fn lemma_product_le(a: int, b: int, c: int, d: int)
    requires
        0 <= a <= c,
        0 <= b <= d,
    ensures
        a * b <= c * d,
        4 * a * b <= 4 * c * d,
        3 * a * b <= 4 * c * d,
{
    assert(a * b <= c * d) by (nonlinear_arith)
        requires
            0 <= a <= c,
            0 <= b <= d,
    ;
    assert(0 <= c * d) by (nonlinear_arith)
        requires
            0 <= c,
            0 <= d,
    ;
    assert(4 * a * b == 4 * (a * b) && 3 * a * b == 3 * (a * b) && 4 * c * d == 4 * (c * d)) by (nonlinear_arith);
}

/// Reads an optional border color: black when absent, its three channels when
/// it has exactly three, an error otherwise.
pub fn parse_border_color(color: Option<Vec<u8>>) -> (r: Result<[u8; 3], ConfigError>)
    ensures
        r is Err <==> !border_color_ok(color),
        r matches Err(e) ==> e == ConfigError::BorderColorLength,
        r matches Ok(c) ==> c@ == border_color_of(color),
{
    match color {
        Some(v) => {
            if v.len() != 3 {
                Err(ConfigError::BorderColorLength)
            } else {
                let c = [v[0], v[1], v[2]];
                proof {
                    assert(c@ =~= v@);
                }
                Ok(c)
            }
        },
        None => {
            let c = [0u8, 0u8, 0u8];
            proof {
                assert(c@ =~= seq![0u8, 0u8, 0u8]);
            }
            Ok(c)
        },
    }
}

/// Whether an optional border color has exactly three channels when present.
pub fn border_color_length_ok(color: &Option<Vec<u8>>) -> (r: bool)
    ensures
        r == border_color_ok(*color),
{
    match color {
        Some(v) => v.len() == 3,
        None => true,
    }
}

/// Rescales `source` to height `target` with Lanczos3 resampling, keeping its
/// aspect ratio, when a target is given; hands it back unchanged otherwise.
pub fn rescale_source(source: Raster, target: Option<u32>) -> (r: Result<Raster, ConfigError>)
    requires
        source.wf(),
    ensures
        r is Err <==> rescale_error(source.width as int, source.height as int, target) is Some,
        r matches Err(e) ==> rescale_error(source.width as int, source.height as int, target) == Some(e),
        r matches Ok(p) ==> {
            &&& p.wf()
            &&& (p.width as int, p.height as int) == prepared_size(
                source.width as int,
                source.height as int,
                target,
            )
            &&& target is None ==> p.data@ == source.data@
        },
{
    let w = source.width;
    let h = source.height;
    if w == 0 || h == 0 {
        return Err(ConfigError::EmptySource);
    }
    match target {
        None => Ok(source),
        Some(t) => {
            if t == 0 {
                return Err(ConfigError::ZeroPanelHeight);
            }
            proof {
                assert((w as int) * (t as int) <= 0xffff_ffff * 0xffff_ffff && 4 * (w as int) * (t as int)
                    <= 4 * 0xffff_ffff * 0xffff_ffff) by (nonlinear_arith)
                    requires
                        w <= 0xffff_ffff,
                        t <= 0xffff_ffff,
                ;
            }
            let nw: u64 = (w as u64) * (t as u64) / (h as u64);
            if nw > u32::MAX as u64 {
                return Err(ConfigError::SizeOverflow);
            }
            proof {
                assert(3 * (nw as int) * (t as int) <= 3 * 0xffff_ffff * 0xffff_ffff) by (nonlinear_arith)
                    requires
                        nw <= 0xffff_ffff,
                        t <= 0xffff_ffff,
                ;
            }
            if 4 * (w as u128) * (t as u128) > usize::MAX as u128 || 3 * (nw as u128) * (t as u128)
                > usize::MAX as u128 {
                return Err(ConfigError::SizeOverflow);
            }
            if nw == 0 {
                return Err(ConfigError::EmptySource);
            }
            Ok(resize_lanczos(&source, nw as u32, t))
        },
    }
}

/// Everything the two exports need: the prepared source and the sizes derived
/// from it.
#[derive(Debug)]
pub struct PipelineConfig {
    pub source: Raster,
    pub num_panels: u32,
    pub panel_size: ImageSize,
    pub thumbnail_size: ImageSize,
    pub thumbnail_border_radius: u32,
    pub thumbnail_border_color: [u8; 3],
}

impl PipelineConfig {
    /// The derived sizes agree with the source, the thumbnail fits both its
    /// border and a panel, and the cover window lies inside the source.
    pub open spec fn wf(&self) -> bool {
        let w = self.source.width as int;
        let h = self.source.height as int;
        let r = self.thumbnail_border_radius as int;
        &&& self.source.wf()
        &&& self.num_panels > 0
        &&& self.panel_size.height == self.source.height
        &&& self.panel_size.width == w / (self.num_panels as int)
        &&& self.panel_size.width > 0
        &&& w / 2 >= self.panel_size.width
        &&& 2 * r < self.thumbnail_size.width <= self.panel_size.width
        &&& 2 * r < self.thumbnail_size.height <= self.panel_size.height
        &&& 4 * w * h <= usize::MAX
    }

    /// The sizes, border radius and border color are the ones that the given
    /// parameters derive for this configuration's source.
    pub open spec fn fits_parameters(
        &self,
        num_panels: u32,
        frac: Ratio,
        border_radius: u32,
        border_color: Option<Vec<u8>>,
    ) -> bool {
        &&& self.num_panels == num_panels
        &&& self.thumbnail_border_radius == border_radius
        &&& self.thumbnail_border_color@ == border_color_of(border_color)
        &&& self.panel_size.height == self.source.height
        &&& self.panel_size.width == self.source.width / num_panels
        &&& self.thumbnail_size.width == thumbnail_width_of(self.panel_size.width as int, frac)
        &&& self.thumbnail_size.height == thumbnail_height_of(
            self.thumbnail_size.width as int,
            self.source.width as int,
            self.source.height as int,
            border_radius as int,
        )
    }

    /// `r` is the cover's background before blurring: the panel-sized window of
    /// the source at `cover_origin`.
    pub open spec fn is_cover_background(&self, r: Raster) -> bool {
        &&& r.wf()
        &&& r.width == self.panel_size.width
        &&& r.height == self.panel_size.height
        &&& forall|x: int, y: int, c: int|
            #![trigger r.at(x, y, c)]
            r.in_bounds(x, y, c) ==> r.at(x, y, c) == self.source.at(self.cover_origin() + x, y, c)
    }

    /// Inner thumbnail size: the outer size less the border on both sides.
    pub open spec fn inner_size(&self) -> ImageSize {
        ImageSize {
            height: (self.thumbnail_size.height - 2 * self.thumbnail_border_radius) as u32,
            width: (self.thumbnail_size.width - 2 * self.thumbnail_border_radius) as u32,
        }
    }

    /// Horizontal origin of panel `idx` in the source.
    pub open spec fn panel_origin(&self, idx: int) -> int {
        self.panel_size.width * idx
    }

    /// `r` is panel `idx`: the panel-sized window of the source at the panel's
    /// origin.
    pub open spec fn is_panel(&self, idx: int, r: Raster) -> bool {
        &&& r.wf()
        &&& r.width == self.panel_size.width
        &&& r.height == self.panel_size.height
        &&& forall|x: int, y: int, c: int|
            #![trigger r.at(x, y, c)]
            r.in_bounds(x, y, c) ==> r.at(x, y, c) == self.source.at(self.panel_origin(idx) + x, y, c)
    }

    /// `s` is the carousel: exactly `num_panels` panels, in order.
    pub open spec fn is_carousel(&self, s: Seq<Raster>) -> bool {
        &&& s.len() == self.num_panels
        &&& forall|i: int| #![trigger s[i]] 0 <= i < s.len() ==> self.is_panel(i, s[i])
    }

    /// Horizontal origin of the cover's background window.
    pub open spec fn cover_origin(&self) -> int {
        self.source.width / 2 - self.panel_size.width
    }

    /// Whether `thumb` has the inner thumbnail size.
    pub open spec fn fits_inner(&self, thumb: Raster) -> bool {
        &&& thumb.wf()
        &&& thumb.width == self.inner_size().width
        &&& thumb.height == self.inner_size().height
    }

    /// Whether `(x, y)` lies in the border band of the bordered thumbnail:
    /// within `thumbnail_border_radius` of one of its edges.
    pub open spec fn in_border_band(&self, x: int, y: int) -> bool {
        let r = self.thumbnail_border_radius as int;
        !(r <= x < self.thumbnail_size.width - r && r <= y < self.thumbnail_size.height - r)
    }

    /// Channel `c` of pixel `(x, y)` of `thumb` framed by the border: the
    /// border color in the band, `thumb` shifted by the radius inside it.
    pub open spec fn framed_at(&self, thumb: Raster, x: int, y: int, c: int) -> u8 {
        let r = self.thumbnail_border_radius as int;
        if self.in_border_band(x, y) {
            self.thumbnail_border_color@[c]
        } else {
            thumb.at(x - r, y - r, c)
        }
    }

    /// `r` is the bordered thumbnail: outer size, border color in the band.
    pub open spec fn is_bordered(&self, r: Raster) -> bool {
        &&& r.wf()
        &&& r.width == self.thumbnail_size.width
        &&& r.height == self.thumbnail_size.height
        &&& forall|x: int, y: int, c: int|
            #![trigger r.at(x, y, c)]
            r.in_bounds(x, y, c) && self.in_border_band(x, y) ==> r.at(x, y, c)
                == self.thumbnail_border_color@[c]
    }

    /// Channel `c` of pixel `(x, y)` of the cover: `thumb` framed by the
    /// border where the frame sits, centred, and the background elsewhere.
    pub open spec fn cover_at(&self, background: Raster, thumb: Raster, x: int, y: int, c: int) -> u8 {
        let ox = centered_offset(self.panel_size.width as int, self.thumbnail_size.width as int);
        let oy = centered_offset(self.panel_size.height as int, self.thumbnail_size.height as int);
        if ox <= x < ox + self.thumbnail_size.width && oy <= y < oy + self.thumbnail_size.height {
            self.framed_at(thumb, x - ox, y - oy, c)
        } else {
            background.at(x, y, c)
        }
    }

    /// `r` is the cover composed from `background` and the inner thumbnail
    /// `thumb`.
    pub open spec fn is_cover(&self, background: Raster, thumb: Raster, r: Raster) -> bool {
        &&& r.wf()
        &&& r.width == self.panel_size.width
        &&& r.height == self.panel_size.height
        &&& forall|x: int, y: int, c: int|
            #![trigger r.at(x, y, c)]
            r.in_bounds(x, y, c) ==> r.at(x, y, c) == self.cover_at(background, thumb, x, y, c)
    }

    /// Validates the parameters against an already prepared source, which the
    /// configuration then holds as it is, and derives the panel and thumbnail
    /// sizes.
    pub fn from_prepared(
        source: Raster,
        num_panels: u32,
        frac: Ratio,
        border_radius: u32,
        border_color: Option<Vec<u8>>,
    ) -> (r: Result<PipelineConfig, ConfigError>)
        requires
            source.wf(),
        ensures
            r is Err <==> prepared_error(
                source.width as int,
                source.height as int,
                num_panels as int,
                frac,
                border_radius as int,
                border_color,
            ) is Some,
            r matches Err(e) ==> prepared_error(
                source.width as int,
                source.height as int,
                num_panels as int,
                frac,
                border_radius as int,
                border_color,
            ) == Some(e),
            r matches Ok(cfg) ==> {
                &&& cfg.wf()
                &&& cfg.source.width == source.width
                &&& cfg.source.height == source.height
                &&& cfg.source.data@ == source.data@
                &&& cfg.fits_parameters(num_panels, frac, border_radius, border_color)
            },
    {
        let color = match parse_border_color(border_color) {
            Ok(c) => c,
            Err(e) => {
                return Err(e);
            },
        };
        let geometry = match derive_geometry(source.width, source.height, num_panels, frac, border_radius) {
            Ok(g) => g,
            Err(e) => {
                return Err(e);
            },
        };
        proof {
            assert(4 * (source.width as int) * (source.height as int) <= 4 * 0xffff_ffff * 0xffff_ffff)
                by (nonlinear_arith)
                requires
                    source.width <= 0xffff_ffff,
                    source.height <= 0xffff_ffff,
            ;
        }
        if 4 * (source.width as u128) * (source.height as u128) > usize::MAX as u128 {
            return Err(ConfigError::SizeOverflow);
        }
        Ok(
            PipelineConfig {
                source,
                num_panels,
                panel_size: geometry.panel_size,
                thumbnail_size: geometry.thumbnail_size,
                thumbnail_border_radius: border_radius,
                thumbnail_border_color: color,
            },
        )
    }

    /// Validates the parameters, rescales the source to `panel_height_px` when
    /// one is given, and derives the panel and thumbnail sizes.
    pub fn try_new(
        source: Raster,
        num_panels: u32,
        panel_height_px: Option<u32>,
        frac: Ratio,
        border_radius: u32,
        border_color: Option<Vec<u8>>,
    ) -> (r: Result<PipelineConfig, ConfigError>)
        requires
            source.wf(),
        ensures
            r is Err <==> config_error(
                source.width as int,
                source.height as int,
                num_panels as int,
                panel_height_px,
                frac,
                border_radius as int,
                border_color,
            ) is Some,
            r matches Err(e) ==> config_error(
                source.width as int,
                source.height as int,
                num_panels as int,
                panel_height_px,
                frac,
                border_radius as int,
                border_color,
            ) == Some(e),
            r matches Ok(cfg) ==> {
                &&& cfg.wf()
                &&& (cfg.source.width as int, cfg.source.height as int) == prepared_size(
                    source.width as int,
                    source.height as int,
                    panel_height_px,
                )
                &&& panel_height_px is None ==> cfg.source.data@ == source.data@
                &&& cfg.fits_parameters(num_panels, frac, border_radius, border_color)
            },
    {
        if !border_color_length_ok(&border_color) {
            return Err(ConfigError::BorderColorLength);
        }
        let prepared = match rescale_source(source, panel_height_px) {
            Ok(p) => p,
            Err(e) => {
                return Err(e);
            },
        };
        PipelineConfig::from_prepared(prepared, num_panels, frac, border_radius, border_color)
    }

    /// The outer, border-inclusive thumbnail size.
    pub fn outer_thumbnail_size(&self) -> (r: ImageSize)
        ensures
            r == self.thumbnail_size,
    {
        self.thumbnail_size
    }

    /// The size of the resampled source inside the border.
    pub fn inner_thumbnail_size(&self) -> (r: ImageSize)
        requires
            self.wf(),
        ensures
            r == self.inner_size(),
            r.width + 2 * self.thumbnail_border_radius == self.thumbnail_size.width,
            r.height + 2 * self.thumbnail_border_radius == self.thumbnail_size.height,
            r.width > 0,
            r.height > 0,
    {
        ImageSize {
            height: self.thumbnail_size.height - 2 * self.thumbnail_border_radius,
            width: self.thumbnail_size.width - 2 * self.thumbnail_border_radius,
        }
    }

    /// Panel `idx`, counted from zero: the panel-sized window of the source at
    /// `panel_size.width * idx`.
    pub fn panel(&self, idx: u32) -> (r: Raster)
        requires
            self.wf(),
            idx < self.num_panels,
        ensures
            self.is_panel(idx as int, r),
    {
        proof {
            lemma_panel_window_inside(self.source.width as int, self.num_panels as int, idx as int);
        }
        let pw = self.panel_size.width;
        self.source.crop(pw * idx, 0, pw, self.panel_size.height)
    }

    /// All panels, in order from the left edge of the source.
    pub fn panels(&self) -> (r: Vec<Raster>)
        requires
            self.wf(),
        ensures
            self.is_carousel(r@),
    {
        let mut out: Vec<Raster> = Vec::new();
        let mut idx: u32 = 0;
        while idx < self.num_panels
            invariant
                self.wf(),
                idx <= self.num_panels,
                out@.len() == idx,
                forall|i: int| #![trigger out@[i]] 0 <= i < idx ==> self.is_panel(i, out@[i]),
            decreases self.num_panels - idx,
        {
            let p = self.panel(idx);
            out.push(p);
            idx = idx + 1;
        }
        out
    }

    /// The cover's background before blurring: the panel-sized window of the
    /// source at `source.width / 2 - panel_size.width`.
    pub fn cover_background(&self) -> (r: Raster)
        requires
            self.wf(),
        ensures
            self.is_cover_background(r),
    {
        let pw = self.panel_size.width;
        self.source.crop(self.source.width / 2 - pw, 0, pw, self.panel_size.height)
    }

    /// The full source resampled with Lanczos3 to the inner thumbnail size.
    pub fn resized_thumbnail(&self) -> (r: Raster)
        requires
            self.wf(),
        ensures
            self.fits_inner(r),
    {
        let inner = self.inner_thumbnail_size();
        proof {
            let w = self.source.width as int;
            let h = self.source.height as int;
            lemma_product_le(w, inner.height as int, w, h);
            lemma_product_le(inner.width as int, inner.height as int, w, h);
        }
        resize_lanczos(&self.source, inner.width, inner.height)
    }

    /// Frames `thumb` with the border: a raster of the outer thumbnail size in
    /// the border color, with `thumb` pasted in its centre.
    pub fn frame_thumbnail(&self, thumb: &Raster) -> (r: Raster)
        requires
            self.wf(),
            self.fits_inner(*thumb),
        ensures
            r.wf(),
            r.width == self.thumbnail_size.width,
            r.height == self.thumbnail_size.height,
            forall|x: int, y: int, c: int|
                #![trigger r.at(x, y, c)]
                r.in_bounds(x, y, c) ==> r.at(x, y, c) == self.framed_at(*thumb, x, y, c),
    {
        let outer = self.outer_thumbnail_size();
        proof {
            lemma_product_le(
                outer.width as int,
                outer.height as int,
                self.source.width as int,
                self.source.height as int,
            );
        }
        let mut framed = Raster::from_pixel(outer.width, outer.height, self.thumbnail_border_color);
        let ghost blank = framed;
        framed.overlay_centered(thumb);
        proof {
            assert forall|x: int, y: int, c: int|
                #![trigger framed.at(x, y, c)]
                framed.in_bounds(x, y, c) implies framed.at(x, y, c) == self.framed_at(*thumb, x, y, c) by {
                assert(blank.in_bounds(x, y, c) ==> blank.at(x, y, c) == self.thumbnail_border_color@[c]);
            }
        }
        framed
    }

    /// The thumbnail with its border: the resampled source framed by the
    /// border color.
    pub fn bordered_thumbnail(&self) -> (r: Raster)
        requires
            self.wf(),
        ensures
            self.is_bordered(r),
    {
        let thumb = self.resized_thumbnail();
        self.frame_thumbnail(&thumb)
    }

    /// The cover: `thumb`, the inner thumbnail, framed by the border and
    /// pasted, centred, over `background`, which is the blurred cover
    /// background.
    pub fn cover(&self, background: Raster, thumb: &Raster) -> (r: Raster)
        requires
            self.wf(),
            background.wf(),
            background.width == self.panel_size.width,
            background.height == self.panel_size.height,
            self.fits_inner(*thumb),
        ensures
            self.is_cover(background, *thumb, r),
    {
        let framed = self.frame_thumbnail(thumb);
        let mut out = background;
        out.overlay_centered(&framed);
        out
    }
}

} // verus!
