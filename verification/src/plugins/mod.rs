//! The game-specific parts: the save codec, and reading each game's saves.
pub mod codec;
pub mod discovery;
pub mod hollow_knight;
pub mod json;
pub mod save_crypto;
pub mod silksong;
