//! The laws in terms of the functions that are called: what comes back of a
//! call, and what one call leaves to the next.
pub mod arrow;
pub mod blur;
pub mod canvas;
pub mod crop;
pub mod geometry;
pub mod handles;
pub mod output;
pub mod panel;
pub mod scrolling;
pub mod session;
pub mod shapes;
pub mod state;
pub mod text_bands;
pub mod tools;
