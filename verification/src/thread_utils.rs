//! Channels between the playback threads.
pub mod custom_beams;
