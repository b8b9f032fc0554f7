//! Simulation core of a kart combat-racing game: waypoint path management,
//! a kinematic character controller, bot steering, tower/projectile combat,
//! health, and live race placement, all over integer (fixed-point) state.
//!
//! Geometry is measured in milli-units (one thousandth of a world unit) and
//! time in milliseconds, so every rule of the simulation is exact integer
//! arithmetic.

pub mod bot;
pub mod combat;
pub mod controller;
pub mod game;
pub mod health;
pub mod markers;
pub mod math;
pub mod num_ext;
pub mod path;
pub mod placement;
pub mod race;
pub mod rng;
pub mod timer;
pub mod tower;
