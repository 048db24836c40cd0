//! The verified core of a renderer that plays video into a 3D scene:
//! frame scheduling, seeking, MP4 sample unpacking, plane copying, mesh
//! building and the small decisions around them.
pub mod shared;
pub mod thread_utils;
pub mod video;
pub mod cube;
pub mod gpu;
pub mod canvas;
pub mod camera_controller;
pub mod frontend;
pub mod fs_utils;
pub mod pipelines;
pub mod video_example;
pub mod window_input;
