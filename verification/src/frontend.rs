//! The tabs of the editor's dock area.
pub mod code_view;
pub mod fancy_view;
pub mod regular_view;
