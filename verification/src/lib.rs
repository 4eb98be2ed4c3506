//! The per-window state engine of an X11 windowing backend.
//!
//! Nothing here talks to a display server. Every operation reads and updates
//! the window's local state and returns the protocol calls that are to be
//! issued for it, in order; where a call's answer decides what comes next, the
//! operation stops with a query and is resumed with the reply.

pub mod creation;
pub mod cursor;
pub mod error;
pub mod fullscreen;
pub mod geometry;
pub mod handle;
pub mod hints;
pub mod host;
pub mod ime;
pub mod laws;
pub mod monitor;
pub mod protocol;
pub mod sizing;
pub mod state;
pub mod wayland;
pub mod window;
