//! Aiming and flight rules of a one-shot archery game.
//!
//! The library decides, frame by frame, what happens to the arrow: while the
//! player aims, the arrow turns towards the pointer; releasing the button
//! launches it; in flight it falls under gravity unless the game is paused;
//! and the session ends the first time the arrow drops below the launch line.
//! The arithmetic on real-valued positions, angles and velocities is left to
//! the frame driver, which carries out the actions that the library returns.

pub mod config;
pub mod simulation;
pub mod laws;

pub use config::{AimDelta, Config, Point};
pub use simulation::{Frame, FrameAction, FrameInput, Phase, SimState, Simulation};

