//! Client-side gameplay core: turns per-tick input and authoritative character
//! state into at most one resolved player intention.

pub mod actions;
pub mod asset_names;
pub mod clock;
pub mod components;
pub mod consts;
pub mod cursor;
pub mod map;
pub mod overlay;
pub mod sprite_files;
pub mod systems;
pub mod time;
