//! Objects of the game world.
pub mod controller;
pub mod equilibrium;
pub mod hovercrab;
