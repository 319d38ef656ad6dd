//! A desktop overlay panel: the content pipeline that turns module
//! descriptors into styled text lines, the scroll controller, the buffer
//! pool policy, the rasterizer's layout and the surface lifecycle.
//!
//! Vertical lengths are fixed-point integers in thousandths of a pixel and
//! font sizes are in hundredths of a point, so that every rule about
//! scrolling and culling is exact.

pub mod clock;
pub mod color;
pub mod config;
pub mod metrics;
pub mod modules;
pub mod pipeline;
pub mod pool;
pub mod raster;
pub mod script;
pub mod scroll;
pub mod styled;
pub mod surface;
pub mod text;
