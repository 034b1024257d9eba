use panorama_carousel::geometry::{derive_geometry, ConfigError, ImageSize, Ratio};
use panorama_carousel::pipeline::{parse_border_color, rescale_source, PipelineConfig};
use panorama_carousel::raster::Raster;

const DEFAULT_FRAC: Ratio = Ratio { numerator: 4, denominator: 5 };

/// A raster whose pixel (x, y) is (x mod 256, y mod 256, (x + y) mod 256).
fn gradient(width: u32, height: u32) -> Raster {
    let mut data = Vec::new();
    for y in 0..height {
        for x in 0..width {
            data.push((x % 256) as u8);
            data.push((y % 256) as u8);
            data.push(((x + y) % 256) as u8);
        }
    }
    Raster::from_raw(width, height, data).unwrap()
}

fn build(source: Raster, num_panels: u32) -> Result<PipelineConfig, ConfigError> {
    PipelineConfig::try_new(source, num_panels, None, DEFAULT_FRAC, 1, Some(vec![0, 0, 0]))
}

#[test]
fn scenario_four_panels_of_a_wide_source() {
    let cfg = build(gradient(400, 100), 4).unwrap();
    assert_eq!(cfg.panel_size, ImageSize { height: 100, width: 100 });
    assert_eq!(cfg.outer_thumbnail_size(), ImageSize { height: 20, width: 80 });
    assert_eq!(cfg.inner_thumbnail_size(), ImageSize { height: 18, width: 78 });
    let panels = cfg.panels();
    assert_eq!(panels.len(), 4);
    for p in &panels {
        assert_eq!((p.width(), p.height()), (100, 100));
    }
}

#[test]
fn border_color_of_two_channels_is_refused() {
    let r = PipelineConfig::try_new(gradient(400, 100), 4, None, DEFAULT_FRAC, 1, Some(vec![0, 0]));
    assert_eq!(r.unwrap_err(), ConfigError::BorderColorLength);
    assert_eq!(parse_border_color(Some(vec![0, 0])), Err(ConfigError::BorderColorLength));
}

#[test]
fn border_color_defaults_to_black() {
    assert_eq!(parse_border_color(None), Ok([0, 0, 0]));
    assert_eq!(parse_border_color(Some(vec![255, 255, 0])), Ok([255, 255, 0]));
}

#[test]
fn zero_panels_is_refused() {
    assert_eq!(build(gradient(400, 100), 0).unwrap_err(), ConfigError::ZeroPanels);
}

#[test]
fn panel_count_and_size_follow_floor_division() {
    let cfg = build(gradient(403, 50), 4).unwrap();
    assert_eq!(cfg.panel_size, ImageSize { height: 50, width: 100 });
    let panels = cfg.panels();
    assert_eq!(panels.len(), 4);
    for p in &panels {
        assert_eq!((p.width(), p.height()), (100, 50));
    }
}

#[test]
fn panels_tile_the_source_and_drop_the_remainder() {
    let source = gradient(403, 50);
    let cfg = build(source, 4).unwrap();
    let panels = cfg.panels();
    for x in 0..400u32 {
        for y in [0u32, 17, 49] {
            assert_eq!(panels[(x / 100) as usize].pixel(x % 100, y), cfg.source.pixel(x, y));
        }
    }
}

#[test]
fn remainder_columns_appear_in_no_panel() {
    let mut data = Vec::new();
    for _y in 0..20u32 {
        for x in 0..403u32 {
            let px = if x < 400 { [1u8, 2, 3] } else { [255u8, 255, 255] };
            data.extend_from_slice(&px);
        }
    }
    let source = Raster::from_raw(403, 20, data).unwrap();
    let cfg = PipelineConfig::try_new(source, 4, None, Ratio { numerator: 1, denominator: 2 }, 0, None).unwrap();
    for panel in cfg.panels() {
        for y in 0..20u32 {
            for x in 0..100u32 {
                assert_eq!(panel.pixel(x, y), [1, 2, 3]);
            }
        }
    }
}

#[test]
fn cover_has_the_panel_size() {
    for (radius, frac) in [(1u32, DEFAULT_FRAC), (3, Ratio { numerator: 1, denominator: 2 }), (0, Ratio { numerator: 1, denominator: 1 })] {
        let cfg = PipelineConfig::try_new(gradient(600, 120), 3, None, frac, radius, None).unwrap();
        let background = cfg.cover_background();
        assert_eq!((background.width(), background.height()), (200, 120));
        let thumb = cfg.resized_thumbnail();
        let cover = cfg.cover(background, &thumb);
        assert_eq!((cover.width(), cover.height()), (200, 120));
    }
}

#[test]
fn cover_background_window_starts_at_half_width_less_a_panel() {
    let cfg = build(gradient(400, 100), 4).unwrap();
    let background = cfg.cover_background();
    assert_eq!(background.pixel(0, 0), [100, 0, 100]);
    assert_eq!(background.pixel(99, 5), [199, 5, 204]);
}

#[test]
fn thumbnail_border_is_uniform() {
    let uniform = Raster::from_pixel(400, 100, [200, 100, 50]);
    let cfg = PipelineConfig::try_new(uniform, 4, None, DEFAULT_FRAC, 2, Some(vec![1, 2, 3])).unwrap();
    let framed = cfg.bordered_thumbnail();
    assert_eq!((framed.width(), framed.height()), (80, 20));
    for y in 0..20u32 {
        for x in 0..80u32 {
            let border = x < 2 || x >= 78 || y < 2 || y >= 18;
            if border {
                assert_eq!(framed.pixel(x, y), [1, 2, 3]);
            } else {
                assert_eq!(framed.pixel(x, y), [200, 100, 50]);
            }
        }
    }
}

#[test]
fn cover_places_the_framed_thumbnail_in_the_centre() {
    let cfg = build(gradient(400, 100), 4).unwrap();
    let background = Raster::from_pixel(100, 100, [9, 9, 9]);
    let thumb = cfg.resized_thumbnail();
    let cover = cfg.cover(background, &thumb);
    // thumbnail 80 x 20 centred in 100 x 100: offset (10, 40)
    assert_eq!(cover.pixel(9, 50), [9, 9, 9]);
    assert_eq!(cover.pixel(10, 40), [0, 0, 0]);
    assert_eq!(cover.pixel(89, 59), [0, 0, 0]);
    assert_eq!(cover.pixel(90, 59), [9, 9, 9]);
    assert_eq!(cover.pixel(50, 60), [9, 9, 9]);
    assert_eq!(cover.pixel(50, 50), thumb.pixel(39, 9));
}

#[test]
fn pipeline_is_deterministic() {
    let a = build(gradient(400, 100), 4).unwrap();
    let b = build(gradient(400, 100), 4).unwrap();
    let pa = a.panels();
    let pb = b.panels();
    for (x, y) in pa.into_iter().zip(pb) {
        assert_eq!(x.into_raw(), y.into_raw());
    }
    let ca = a.cover(a.cover_background(), &a.resized_thumbnail()).into_raw();
    let cb = b.cover(b.cover_background(), &b.resized_thumbnail()).into_raw();
    assert_eq!(ca, cb);
}

#[test]
fn rescale_to_panel_height_keeps_aspect_ratio() {
    let cfg = PipelineConfig::try_new(gradient(400, 100), 4, Some(50), DEFAULT_FRAC, 1, None).unwrap();
    assert_eq!((cfg.source.width(), cfg.source.height()), (200, 50));
    assert_eq!(cfg.panel_size, ImageSize { height: 50, width: 50 });
    assert_eq!(cfg.outer_thumbnail_size(), ImageSize { height: 10, width: 40 });
}

#[test]
fn rescale_of_a_uniform_source_keeps_its_color() {
    let uniform = Raster::from_pixel(400, 100, [10, 20, 30]);
    let cfg = PipelineConfig::try_new(uniform, 4, Some(60), DEFAULT_FRAC, 1, None).unwrap();
    assert_eq!((cfg.source.width(), cfg.source.height()), (240, 60));
    assert_eq!(cfg.source.pixel(120, 30), [10, 20, 30]);
}

#[test]
fn each_configuration_error_has_its_input() {
    let frac = DEFAULT_FRAC;
    let go = |w: u32, h: u32, n: u32, t: Option<u32>, f: Ratio, r: u32| {
        PipelineConfig::try_new(gradient(w, h), n, t, f, r, None).unwrap_err()
    };
    assert_eq!(go(0, 100, 4, None, frac, 1), ConfigError::EmptySource);
    assert_eq!(go(400, 100, 4, Some(0), frac, 1), ConfigError::ZeroPanelHeight);
    assert_eq!(go(50, 100, 4, Some(1), frac, 1), ConfigError::EmptySource);
    assert_eq!(go(400, 100, 4, None, Ratio { numerator: 1, denominator: 0 }, 1), ConfigError::ZeroFractionDenominator);
    assert_eq!(go(3, 100, 4, None, frac, 1), ConfigError::EmptyPanel);
    assert_eq!(go(400, 100, 4, None, Ratio { numerator: u32::MAX, denominator: 1 }, 1), ConfigError::SizeOverflow);
    assert_eq!(go(400, 100, 4, None, frac, 12), ConfigError::DegenerateThumbnail);
    assert_eq!(go(400, 100, 4, None, Ratio { numerator: 2, denominator: 1 }, 1), ConfigError::ThumbnailExceedsPanel);
    assert_eq!(go(400, 100, 1, None, Ratio { numerator: 1, denominator: 2 }, 1), ConfigError::CoverWindowOutOfBounds);
}

#[test]
fn derive_geometry_matches_the_formulas() {
    let g = derive_geometry(400, 100, 4, DEFAULT_FRAC, 1).unwrap();
    assert_eq!(g.panel_size, ImageSize { height: 100, width: 100 });
    assert_eq!(g.thumbnail_size, ImageSize { height: 20, width: 80 });
    let g = derive_geometry(1000, 300, 5, Ratio { numerator: 1, denominator: 2 }, 0).unwrap();
    assert_eq!(g.panel_size, ImageSize { height: 300, width: 200 });
    assert_eq!(g.thumbnail_size, ImageSize { height: 30, width: 100 });
}

#[test]
fn from_raw_checks_the_buffer_length() {
    assert!(Raster::from_raw(2, 2, vec![0; 11]).is_none());
    assert!(Raster::from_raw(2, 2, vec![0; 12]).is_some());
}

#[test]
fn crop_copies_the_window() {
    let src = gradient(10, 8);
    let c = src.crop(3, 2, 4, 5);
    assert_eq!((c.width(), c.height()), (4, 5));
    assert_eq!(c.pixel(0, 0), [3, 2, 5]);
    assert_eq!(c.pixel(3, 4), [6, 6, 12]);
}

#[test]
fn overlay_centered_replaces_the_middle() {
    let mut bottom = Raster::from_pixel(5, 4, [1, 1, 1]);
    let top = Raster::from_pixel(2, 2, [7, 8, 9]);
    bottom.overlay_centered(&top);
    assert_eq!(bottom.pixel(1, 1), [7, 8, 9]);
    assert_eq!(bottom.pixel(2, 2), [7, 8, 9]);
    assert_eq!(bottom.pixel(0, 1), [1, 1, 1]);
    assert_eq!(bottom.pixel(3, 1), [1, 1, 1]);
    assert_eq!(bottom.pixel(1, 3), [1, 1, 1]);
}

#[test]
fn frame_thumbnail_puts_the_thumbnail_inside_the_band() {
    let cfg = PipelineConfig::try_new(gradient(400, 100), 4, None, DEFAULT_FRAC, 2, Some(vec![5, 6, 7])).unwrap();
    // outer 80 x 20, radius 2: inner 76 x 16
    let thumb = gradient(76, 16);
    let framed = cfg.frame_thumbnail(&thumb);
    assert_eq!((framed.width(), framed.height()), (80, 20));
    assert_eq!(framed.pixel(1, 10), [5, 6, 7]);
    assert_eq!(framed.pixel(40, 18), [5, 6, 7]);
    assert_eq!(framed.pixel(2, 2), [0, 0, 0]);
    assert_eq!(framed.pixel(77, 17), [75, 15, 90]);
}

#[test]
fn rescale_source_sizes_and_errors() {
    let same = rescale_source(gradient(40, 10), None).unwrap();
    assert_eq!((same.width(), same.height()), (40, 10));
    assert_eq!(same.pixel(7, 3), [7, 3, 10]);
    let scaled = rescale_source(gradient(40, 10), Some(25)).unwrap();
    assert_eq!((scaled.width(), scaled.height()), (100, 25));
    assert_eq!(rescale_source(gradient(40, 10), Some(0)).unwrap_err(), ConfigError::ZeroPanelHeight);
    assert_eq!(rescale_source(gradient(4, 10), Some(1)).unwrap_err(), ConfigError::EmptySource);
}

#[test]
fn from_prepared_keeps_the_source() {
    let cfg = PipelineConfig::from_prepared(gradient(400, 100), 4, DEFAULT_FRAC, 1, None).unwrap();
    assert_eq!(cfg.source.pixel(321, 45), [65, 45, 110]);
    assert_eq!(cfg.outer_thumbnail_size(), ImageSize { height: 20, width: 80 });
    let r = PipelineConfig::from_prepared(gradient(400, 100), 4, DEFAULT_FRAC, 1, Some(vec![1]));
    assert_eq!(r.unwrap_err(), ConfigError::BorderColorLength);
}
