//! Statements that relate several calls or hold of every input: how the
//! carousel tiles the source, and that each export is a function of its
//! inputs.

use vstd::prelude::*;
use vstd::arithmetic::div_mod::lemma_fundamental_div_mod_converse;
use crate::geometry::Ratio;
use crate::pipeline::PipelineConfig;
use crate::raster::{lemma_pixels_determine_data, Raster};

verus! {

/// Same size and same bytes.
pub open spec fn same_pixels(a: Raster, b: Raster) -> bool {
    &&& a.width == b.width
    &&& a.height == b.height
    &&& a.data@ == b.data@
}

/// The panel windows sit side by side: the first starts at column zero, each
/// one starts where the one before it ends, and the last ends at
/// `num_panels * panel_size.width`.
pub proof fn lemma_panel_windows_adjacent(cfg: PipelineConfig, idx: int)
    requires
        cfg.wf(),
        0 <= idx < cfg.num_panels,
    ensures
        cfg.panel_origin(0) == 0,
        cfg.panel_origin(idx + 1) == cfg.panel_origin(idx) + cfg.panel_size.width,
        cfg.panel_origin(cfg.num_panels as int) == cfg.num_panels * cfg.panel_size.width,
{
    let pw = cfg.panel_size.width as int;
    assert(pw * 0 == 0);
    assert(pw * (idx + 1) == pw * idx + pw) by (nonlinear_arith);
    assert(pw * (cfg.num_panels as int) == (cfg.num_panels as int) * pw) by (nonlinear_arith);
}

/// Every column left of `num_panels * panel_size.width` lies in exactly one
/// panel window, the one numbered `x / panel_size.width`, and that panel shows
/// the source's pixels there; no column from there on lies in any panel
/// window.
pub proof fn lemma_carousel_coverage(cfg: PipelineConfig, panels: Seq<Raster>, x: int, y: int, c: int)
    requires
        cfg.wf(),
        cfg.is_carousel(panels),
        cfg.source.in_bounds(x, y, c),
    ensures
        x < cfg.num_panels * cfg.panel_size.width ==> {
            let idx = x / (cfg.panel_size.width as int);
            &&& 0 <= idx < cfg.num_panels
            &&& cfg.panel_origin(idx) <= x < cfg.panel_origin(idx) + cfg.panel_size.width
            &&& panels[idx].at(x - cfg.panel_origin(idx), y, c) == cfg.source.at(x, y, c)
        },
        forall|idx: int|
            #![trigger cfg.panel_origin(idx)]
            0 <= idx < cfg.num_panels && cfg.panel_origin(idx) <= x < cfg.panel_origin(idx)
                + cfg.panel_size.width ==> idx == x / (cfg.panel_size.width as int),
        x >= cfg.num_panels * cfg.panel_size.width ==> forall|idx: int|
            #![trigger cfg.panel_origin(idx)]
            0 <= idx < cfg.num_panels ==> !(cfg.panel_origin(idx) <= x < cfg.panel_origin(idx)
                + cfg.panel_size.width),
{
    let pw = cfg.panel_size.width as int;
    let n = cfg.num_panels as int;
    assert forall|idx: int|
        #![trigger cfg.panel_origin(idx)]
        0 <= idx < n && cfg.panel_origin(idx) <= x < cfg.panel_origin(idx) + pw implies idx == x / pw by {
        assert(pw * idx == idx * pw) by (nonlinear_arith);
        lemma_fundamental_div_mod_converse(x, pw, idx, x - pw * idx);
    }
    if x < n * pw {
        let idx = x / pw;
        assert(0 <= idx < n) by (nonlinear_arith)
            requires
                0 <= x < n * pw,
                0 < pw,
                idx == x / pw,
        ;
        assert(pw * idx <= x < pw * idx + pw) by (nonlinear_arith)
            requires
                0 <= x,
                0 < pw,
                idx == x / pw,
        ;
        let p = panels[idx];
        assert(p.in_bounds(x - pw * idx, y, c));
        assert(p.at(x - pw * idx, y, c) == cfg.source.at(pw * idx + (x - pw * idx), y, c));
    } else {
        assert forall|idx: int|
            #![trigger cfg.panel_origin(idx)]
            0 <= idx < n implies !(cfg.panel_origin(idx) <= x < cfg.panel_origin(idx) + pw) by {
            assert(pw * idx + pw <= n * pw) by (nonlinear_arith)
                requires
                    idx + 1 <= n,
                    0 <= pw,
            ;
        }
    }
}

/// Two carousels of one configuration hold the same panels.
pub proof fn lemma_carousel_deterministic(cfg: PipelineConfig, a: Seq<Raster>, b: Seq<Raster>)
    requires
        cfg.wf(),
        cfg.is_carousel(a),
        cfg.is_carousel(b),
    ensures
        a.len() == b.len(),
        forall|i: int| #![trigger a[i], b[i]] 0 <= i < a.len() ==> same_pixels(a[i], b[i]),
{
    assert forall|i: int| #![trigger a[i], b[i]] 0 <= i < a.len() implies same_pixels(a[i], b[i]) by {
        assert(cfg.is_panel(i, a[i]));
        assert(cfg.is_panel(i, b[i]));
        lemma_pixels_determine_data(a[i], b[i]);
    }
}

/// Two configurations over sources with the same pixels, derived from the
/// same parameters, agree in every field.
pub proof fn lemma_config_deterministic(
    a: PipelineConfig,
    b: PipelineConfig,
    num_panels: u32,
    frac: Ratio,
    border_radius: u32,
    border_color: Option<Vec<u8>>,
)
    requires
        same_pixels(a.source, b.source),
        a.fits_parameters(num_panels, frac, border_radius, border_color),
        b.fits_parameters(num_panels, frac, border_radius, border_color),
    ensures
        a.num_panels == b.num_panels,
        a.panel_size == b.panel_size,
        a.thumbnail_size == b.thumbnail_size,
        a.thumbnail_border_radius == b.thumbnail_border_radius,
        a.thumbnail_border_color == b.thumbnail_border_color,
{
    assert(a.thumbnail_border_color@ =~= b.thumbnail_border_color@);
}

/// Two background windows of one configuration are the same image.
pub proof fn lemma_cover_background_deterministic(cfg: PipelineConfig, a: Raster, b: Raster)
    requires
        cfg.wf(),
        cfg.is_cover_background(a),
        cfg.is_cover_background(b),
    ensures
        same_pixels(a, b),
{
    lemma_pixels_determine_data(a, b);
}

/// Two covers of one configuration from one background and one inner
/// thumbnail are the same image.
pub proof fn lemma_cover_deterministic(
    cfg: PipelineConfig,
    background: Raster,
    thumb: Raster,
    a: Raster,
    b: Raster,
)
    requires
        cfg.wf(),
        cfg.is_cover(background, thumb, a),
        cfg.is_cover(background, thumb, b),
    ensures
        same_pixels(a, b),
{
    lemma_pixels_determine_data(a, b);
}

} // verus!
