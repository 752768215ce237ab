//! Simulation core of an orbital debris viewer: a simulation clock that maps
//! elapsed wall time to a Julian date, a debris field that turns propagator
//! output into world positions, and an orbit camera driven by pointer input.
//!
//! Every quantity is an integer. Angles, distances, speeds and factors are
//! fixed-point numbers counted in millionths of their unit (see [`fixed`]);
//! times are counted in nanoseconds, and the propagator's positions in
//! metres.
//!
//! The library computes no sine or cosine and runs no propagator: the caller
//! hands in the sines and cosines of the camera's angles and the outcome of
//! each body's propagation, and the library states what follows from them.

pub mod camera;
pub mod clock;
pub mod debris;
pub mod fixed;
pub mod loader;
pub mod vector;
