//! Simulation core of a single-screen fishing minigame.
//!
//! A player-controlled bar and an oscillating fish move inside a bounded
//! vertical column; a catch-progress scalar fills while the bar covers the
//! fish and drains otherwise. Every quantity is a fixed-point number held in
//! an `i64` (see [`fixed`]), and every stage of the per-tick pipeline carries a
//! machine-checked contract.

pub mod fixed;
pub mod config;
pub mod column;
pub mod bar;
pub mod fish;
pub mod progress;
pub mod simulation;
