//! Shared level-session mechanics for a 2D arcade-style game: a per-level
//! countdown timer tied to a high-score commit, one-shot bootstrap helpers
//! for the camera, the timer readout and the level title, a small factory
//! for per-state system pipelines, and an escape-to-menu input trigger.
//!
//! Time is measured in whole milliseconds, so every step of the timer state
//! machine is exact integer arithmetic. The game world is modelled
//! explicitly: the at-most-one invariants of the timer readout and the
//! level title are enforced structurally with `Option` fields, and the
//! high-score store is a verified map from level keys to best scores.

pub mod dispatcher;
pub mod high_scores;
pub mod input;
pub mod session;
pub mod time;
pub mod world;
