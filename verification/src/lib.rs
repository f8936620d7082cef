//! A verified bridge layer between a component-based scene graph and a native
//! rigid-body/vehicle physics engine.
//!
//! The numerical simulation itself lives in the native engine; this crate owns
//! the data shapes and decisions that surround it: the numeric encoding of the
//! tank control model, the smoothing-rate and steer-table buffers handed to
//! the vehicle input routines, the field mappings between the two engines'
//! transform representations, and the per-entity decisions of the scene
//! synchronization passes.
//!
//! Scalar values (rates, coordinates, densities) pass through this layer
//! untouched: the bridge never computes with them, it only moves them between
//! layouts. They are therefore carried as their 32-bit machine words
//! ([`bridge::ScalarBits`]), which keeps every move exact and provable.

pub mod actors;
pub mod bridge;
pub mod control;
pub mod tank;
