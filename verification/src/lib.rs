//! Verified core of a sprite-sheet animation player.
//!
//! The library holds the coordination logic of the player: validating the
//! fetched frame metadata into a frame table, naming frames, the one-shot
//! image-load rendezvous, the fixed-rate playback loop that advances a frame
//! cursor and produces draw commands, and the startup orchestration that
//! gates playback on both resources being ready. Host wiring (DOM lookup,
//! network fetch, timers) lives outside the library and hands it plain values.

pub mod errors;
pub mod frames;
pub mod json;
pub mod naming;
pub mod playback;
pub mod rendezvous;
pub mod startup;
