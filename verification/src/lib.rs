//! The verified core of a screenshot annotation tool.
//!
//! Image-space coordinates are whole sub-pixels (see [`units`]), so every
//! geometric rule below is exact integer arithmetic.
pub mod units;
pub mod wide;
pub mod math;
pub mod style;
pub mod pixels;
pub mod input;
pub mod text;
pub mod text_bands;
pub mod tools;
pub mod state;
pub mod state_file;
pub mod legacy;
pub mod board;
pub mod laws;
