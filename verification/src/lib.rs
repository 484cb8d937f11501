//! Decisions of a native desktop video player.
pub mod desktop;
pub mod double;
pub mod error;
pub mod latch;
pub mod meter;
pub mod models;
pub mod ordered;
pub mod text;
pub mod tracks;
