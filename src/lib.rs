//! Blur rendering state for a compositor: per-output effect buffers, the
//! dual-pass Kawase schedule, and the cached blur element with its damage rules.
pub mod geometry;
pub mod counter;
pub mod config;
pub mod kawase;
pub mod commit_tracker;
pub mod effects;
pub mod element;
pub mod blur;
pub mod laws;
pub mod kde_blur;
