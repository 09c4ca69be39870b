//! The controller-side components: keys, bindings, and what the player
//! currently points at.

pub mod keys;
pub mod char_state;
pub mod skills;
pub mod controller;
pub mod local_player;
pub mod status;
pub mod events;
