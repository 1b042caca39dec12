//! Frame-synchronised subtitle scheduling: cues read from tab-separated lines
//! are placed on a virtual clock that advances one frame per tick, and each
//! tick decides whether the subtitle image is redrawn, cleared or reused.

pub mod compositor;
pub mod cue;
pub mod engine;
pub mod text;
pub mod timeline;
