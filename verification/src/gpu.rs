//! The bookkeeping of GPU buffers and textures: what a buffer of each kind
//! is bound as, and how many bytes a texture row takes.
pub mod buffer;
pub mod texture;
