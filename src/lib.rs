pub mod pixel;
pub mod raster;
pub mod render;
pub mod surface;
