//! Chord-driven window placement engine.
//!
//! The library keeps a race-free model of the keys currently held, resolves a
//! snapshot of that model into a placement intent, normalizes the physical
//! display layout into a single top-left-origin coordinate space, and turns an
//! intent plus a display's bounds into an absolute target rectangle. The
//! platform glue that observes raw key events, enumerates displays and moves
//! windows lives outside this crate and exchanges plain values with it.

pub mod chord;
pub mod engine;
pub mod keys;
pub mod screens;
