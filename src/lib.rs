//! A snake-like body moving over a normalised field, modelled in fixed point,
//! with the per-frame decisions of its game loop.

pub mod vec2;
pub mod snake;
pub mod command;
pub mod clock;
pub mod term;
pub mod game;
