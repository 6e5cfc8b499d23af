//! Core of a media-to-text-art conversion service: the progress-reporting
//! protocol between a running conversion job and an observer, and the
//! output-persistence contract (existence checking, overwrite semantics,
//! row-based writing).
//!
//! The conversion engine itself (pixels to glyphs) and the desktop shell are
//! external collaborators: the engine hands rendered rows and progress
//! reports to this crate, and the shell performs the actual file system
//! writes and the timed polling that the watcher logic here drives.

pub mod output;
pub mod progress;
pub mod job;
