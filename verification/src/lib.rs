//! Save-file handling and progress guidance for Hollow Knight and Silksong.
//!
//! The library decodes and re-encodes the encrypted save format, reads the
//! player's progress out of a decoded save, and turns that progress into the
//! items, statistics and next-step suggestions that the companion window shows.
use vstd::prelude::*;

pub mod editor;
pub mod plugins;
pub mod progress;
pub mod text;
pub mod watch;
