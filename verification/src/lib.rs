//! Simulation core of a colour-switching arena survival game.
//!
//! All world quantities are fixed-point integers: positions and sizes in
//! milli-pixels, angles in milli-degrees, timers in milliseconds, and enemy
//! health in milli-points.  The frame driver, rendering, audio playback and
//! persistent storage live outside this crate; the core consumes plain input
//! samples and a frame delta and hands back plain draw/audio data.

pub mod bullet;
pub mod collect;
pub mod color;
pub mod combat;
pub mod config;
pub mod enemy;
pub mod game;
pub mod geom;
pub mod hazard;
pub mod input;
pub mod player;
mod rng;
pub mod wave;
