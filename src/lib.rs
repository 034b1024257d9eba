//! Splits a panorama into equal-width carousel panels and composes a cover
//! image: a blurred background crop with a bordered thumbnail of the whole
//! panorama centred on it.

pub mod geometry;
pub mod laws;
pub mod pipeline;
pub mod raster;
