//! The decisions of a boids flocking simulation: which neighbours a boid
//! follows, when a wall ahead makes it turn and towards which probe, how far a
//! frame moves it, and the named worlds of boids that a frame reads and writes.
pub mod flock;
pub mod motion;
pub mod steering;
pub mod world;
