//! Core policy layer of a small real-time two-player paddle-and-ball game.
//!
//! The host engine (entity storage, rendering, physics integration, input
//! devices, asset I/O) is an external collaborator: it hands plain values
//! (frame deltas, key states, collision-start events, viewport sizes) into
//! this crate and carries the resulting component writes back out.
//! Everything that decides — the screen state machine, loading progress and
//! its completion edge, fades, per-screen entity lifetimes, paddle movement
//! and goal scoring — lives here, with its behavior stated in contracts.

pub mod fade;
pub mod game;
pub mod gameplay;
pub mod lifecycle;
pub mod progress;
pub mod score;
pub mod screen;
pub mod text;
pub mod widget;
