//! What the render pipelines draw.
pub mod video;
