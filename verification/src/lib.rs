pub mod backspace;
pub mod cli;
pub mod compose;
pub mod composer;
pub mod config;
pub mod diagnose;
pub mod engine;
pub mod keymap_2beolsik;
pub mod keys;
pub mod setup;
pub mod sources;
pub mod state;
pub mod syllable;
pub mod text;

pub use composer::{HangulComposer, InputResult};
