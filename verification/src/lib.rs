//! Verified core of a PDF annotation editor.
//!
//! Every length is an integer count of thousandths: PDF-space values are
//! thousandths of a point, canvas values thousandths of a pixel.  The zoom is
//! a whole number of quarter steps, so that every transform is exact integer
//! arithmetic with a stated rounding.

pub mod geometry;
pub mod annotation;
pub mod text_metrics;
pub mod intent;
pub mod raster;
pub mod editor;
pub mod document;
pub mod panels;
