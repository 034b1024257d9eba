//! Derivation of panel and thumbnail sizes from the source dimensions and the
//! user's counts and ratios, with every degenerate or overflowing case reported
//! as a configuration error.

use vstd::prelude::*;

verus! {

/// A width and height in pixels.
#[derive(Clone, Copy, Debug, PartialEq, Eq, Structural)]
pub struct ImageSize {
    pub height: u32,
    pub width: u32,
}

/// A non-negative fraction `numerator / denominator`.
#[derive(Clone, Copy, Debug, PartialEq, Eq, Structural)]
pub struct Ratio {
    pub numerator: u32,
    pub denominator: u32,
}

/// Why a configuration was refused.
#[derive(Clone, Copy, Debug, PartialEq, Eq, Structural)]
pub enum ConfigError {
    /// The border color does not have exactly three channels.
    BorderColorLength,
    /// The panel count is zero.
    ZeroPanels,
    /// The requested panel height is zero.
    ZeroPanelHeight,
    /// The thumbnail fraction has a zero denominator.
    ZeroFractionDenominator,
    /// The source raster, possibly after rescaling, has no pixels.
    EmptySource,
    /// The source is narrower than the panel count, so panels would be empty.
    EmptyPanel,
    /// A derived size does not fit the integer or buffer limits.
    SizeOverflow,
    /// The border leaves no room for the inner thumbnail.
    DegenerateThumbnail,
    /// The bordered thumbnail is larger than a panel.
    ThumbnailExceedsPanel,
    /// The cover's background window would start left of the source.
    CoverWindowOutOfBounds,
}

/// Panel and outer (border-inclusive) thumbnail sizes.
#[derive(Clone, Copy, Debug, PartialEq, Eq, Structural)]
pub struct Geometry {
    pub panel_size: ImageSize,
    pub thumbnail_size: ImageSize,
}

/// Width of each panel: the source width split evenly, remainder dropped.
pub open spec fn panel_width_of(width: int, num_panels: int) -> int {
    width / num_panels
}

/// Outer thumbnail width: the given fraction of a panel's width, rounded down.
pub open spec fn thumbnail_width_of(panel_width: int, frac: Ratio) -> int {
    panel_width * frac.numerator / (frac.denominator as int)
}

/// Outer thumbnail height: the thumbnail follows the aspect ratio of the whole
/// source, with the border added to both of its dimensions.
pub open spec fn thumbnail_height_of(thumbnail_width: int, width: int, height: int, radius: int) -> int {
    thumbnail_width * (height + 2 * radius) / (width + 2 * radius)
}

/// The first check that the given dimensions and parameters fail, if any.
pub open spec fn geometry_error(
    width: int,
    height: int,
    num_panels: int,
    frac: Ratio,
    radius: int,
) -> Option<ConfigError> {
    let pw = panel_width_of(width, num_panels);
    let tw = thumbnail_width_of(pw, frac);
    let th = thumbnail_height_of(tw, width, height, radius);
    if num_panels == 0 {
        Some(ConfigError::ZeroPanels)
    } else if frac.denominator == 0 {
        Some(ConfigError::ZeroFractionDenominator)
    } else if width == 0 || height == 0 {
        Some(ConfigError::EmptySource)
    } else if pw == 0 {
        Some(ConfigError::EmptyPanel)
    } else if tw > u32::MAX || th > u32::MAX {
        Some(ConfigError::SizeOverflow)
    } else if tw <= 2 * radius || th <= 2 * radius {
        Some(ConfigError::DegenerateThumbnail)
    } else if tw > pw || th > height {
        Some(ConfigError::ThumbnailExceedsPanel)
    } else if width / 2 < pw {
        Some(ConfigError::CoverWindowOutOfBounds)
    } else {
        None
    }
}

/// Derives the panel size and the outer thumbnail size for a source of
/// `width` by `height` pixels.
pub fn derive_geometry(
    width: u32,
    height: u32,
    num_panels: u32,
    frac: Ratio,
    radius: u32,
) -> (r: Result<Geometry, ConfigError>)
    ensures
        r is Err <==> geometry_error(width as int, height as int, num_panels as int, frac, radius as int) is Some,
        r matches Err(e) ==> geometry_error(width as int, height as int, num_panels as int, frac, radius as int)
            == Some(e),
        r matches Ok(g) ==> {
            &&& g.panel_size.height == height
            &&& g.panel_size.width == panel_width_of(width as int, num_panels as int)
            &&& g.thumbnail_size.width == thumbnail_width_of(g.panel_size.width as int, frac)
            &&& g.thumbnail_size.height == thumbnail_height_of(
                g.thumbnail_size.width as int,
                width as int,
                height as int,
                radius as int,
            )
        },
{
    if num_panels == 0 {
        return Err(ConfigError::ZeroPanels);
    }
    if frac.denominator == 0 {
        return Err(ConfigError::ZeroFractionDenominator);
    }
    if width == 0 || height == 0 {
        return Err(ConfigError::EmptySource);
    }
    let pw: u32 = width / num_panels;
    if pw == 0 {
        return Err(ConfigError::EmptyPanel);
    }
    proof {
        assert((pw as int) * (frac.numerator as int) <= 0xffff_ffff * 0xffff_ffff) by (nonlinear_arith)
            requires
                pw <= 0xffff_ffff,
                frac.numerator <= 0xffff_ffff,
        ;
    }
    let tw: u64 = (pw as u64) * (frac.numerator as u64) / (frac.denominator as u64);
    let r2: u64 = 2 * (radius as u64);
    proof {
        assert((tw as int) * ((height as int) + r2) <= 0xffff_ffff_ffff_ffff * 0x3_ffff_ffff) by (nonlinear_arith)
            requires
                tw <= 0xffff_ffff_ffff_ffff,
                r2 <= 0x1_ffff_fffe,
                height <= 0xffff_ffff,
        ;
    }
    let th: u128 = (tw as u128) * ((height as u128) + (r2 as u128)) / ((width as u128) + (r2 as u128));
    if tw > u32::MAX as u64 || th > u32::MAX as u128 {
        return Err(ConfigError::SizeOverflow);
    }
    if tw <= r2 || th <= r2 as u128 {
        return Err(ConfigError::DegenerateThumbnail);
    }
    if tw > pw as u64 || th > height as u128 {
        return Err(ConfigError::ThumbnailExceedsPanel);
    }
    if width / 2 < pw {
        return Err(ConfigError::CoverWindowOutOfBounds);
    }
    Ok(
        Geometry {
            panel_size: ImageSize { height, width: pw },
            thumbnail_size: ImageSize { height: th as u32, width: tw as u32 },
        },
    )
}

} // verus!
