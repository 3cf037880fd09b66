//! A small N-body gravity simulator with an ASCII frame rasterizer.
//!
//! Scalars are fixed-point numbers (`fixed::Fx`) so that every arithmetic
//! step has an exact, machine-checked meaning. `physics` holds the bodies,
//! the pairwise gravity solver and the semi-implicit Euler integrator;
//! `screen` holds the frame buffer, the rasterizer and the simulation clock;
//! `galaxy` holds the orbit-speed helper used when seeding initial bodies.

pub mod fixed;
pub mod galaxy;
pub mod physics;
pub mod screen;
