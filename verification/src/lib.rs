//! A minimal fixed-topology feed-forward neural network evaluator.
//!
//! Values are signed 64-bit fixed-point numbers with [`fixed::SCALE`]
//! fraction steps per unit, so `SCALE` itself stands for 1.0.  A network
//! is a chain of fully-connected layers; a forward pass feeds an input
//! vector through each layer's linear transform and activation in order.

pub mod brain;
pub mod fixed;
pub mod layer;
