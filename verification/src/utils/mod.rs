//! Numeric and structural helpers shared by the gameplay and presentation layers.
pub mod file_utils;
pub mod fixed;
pub mod hierarchy;
pub mod input;
pub mod math_algorithms;
pub mod plan;
pub mod plugins;
pub mod quat;
pub mod sqrt;
pub mod vector;
