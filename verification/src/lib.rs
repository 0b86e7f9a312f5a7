//! Decision logic of a Lua plugin loader that runs inside a 32-bit game
//! process: how the functions it exposes to Lua read their arguments, what
//! they print, which game state they change, and which bytes the loader
//! patches into the process to take over the game's Lua chunk loading.
//!
//! Everything that touches the process (the Lua stack, memory protection,
//! logging, the console) is done by the caller; this crate computes what is
//! to be done and states it in its contracts.

pub mod plugin;
pub mod lua_value;
pub mod text;
pub mod printing;
pub mod fps;
pub mod solo;
pub mod notify;
pub mod patch;
pub mod loader;
pub mod dll;
