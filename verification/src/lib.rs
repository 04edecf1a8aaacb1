//! Core of a tracker-style music sequencer.
//!
//! The library holds the musical state shared between an editor and the
//! audio thread, and the decision engine that turns that state into note
//! events on every audio callback: tick scheduling from tempo, per-channel
//! note lifecycle (trigger, legato, release, preview), and voice topology
//! management. Audio rendering itself (per-sample DSP, mixing, clipping)
//! is carried out by a host that applies the engine's commands to real
//! signal processors; instrument parameters are held here in exact
//! thousandth units so that every decision about them is verified.

pub mod channel;
pub mod engine;
pub mod instrument;
pub mod pattern;
pub mod render;
pub mod state;
pub mod voice;
