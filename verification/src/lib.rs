//! Simulation core of a 2D shooting-gallery game: a finite game-state machine
//! (Playing / GameOver) driving per-tick entity motion, mouse hit detection,
//! countdown and score bookkeeping, and HUD digit-sprite selection. The
//! rendering, windowing and input plumbing live outside this crate; the core
//! works on plain integer world coordinates and an explicit entity arena.

pub mod digits;
pub mod game;
pub mod hit;
pub mod hud;
pub mod input;
pub mod motion;
pub mod scoring;
pub mod sim;
pub mod spawn;
pub mod world;
