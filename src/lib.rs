//! The per-frame logic that bridges an immediate-mode GUI to a game framework's window:
//! input events are diffed from polled device state, the OS cursor is reconciled with the
//! shape the GUI asks for, and the GUI's draw lists become a sequence of rasteriser calls.
//! Every decision is made on plain values; the caller polls the host and performs the
//! returned actions.

pub mod clipboard;
pub mod cursor;
pub mod frame_state;
pub mod image;
pub mod input;
pub mod render;
pub mod renderer;
