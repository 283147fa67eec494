//! Race-car design model evaluated in exact decimal fixed-point arithmetic.

pub mod car;
pub mod catalog;
pub mod constants;
pub mod constraints;
pub mod error;
pub mod fixed;
pub mod physics;
pub mod random;
pub mod utils;
