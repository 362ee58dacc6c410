//! Flocking simulation core: agents that steer by separation, alignment and
//! cohesion, on integer positions and fixed-point headings.

pub mod boids;
pub mod rule;
pub mod utils;
