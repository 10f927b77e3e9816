//! A fixed-capacity sliding window: a container that keeps the most recently
//! stacked items and lets the oldest one go once its capacity is reached.
//!
//! [`Window`] is the container. Its contracts are written over the spec
//! functions of [`model`], which describe a window as a plain sequence running
//! from its oldest item to its newest. [`laws`] proves what follows for whole
//! runs of insertions.

pub mod laws;
pub mod model;
pub mod window;

pub use window::Window;
