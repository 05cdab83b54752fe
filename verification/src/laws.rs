//! What the operations come to, in plain terms: where things end up, what
//! stays, and what undoes what. The laws speak of the steps that the tools and
//! the board promise to make, and measure the outcome against the input.
pub mod arrow;
pub mod blur;
pub mod calls;
pub mod canvas;
pub mod crop;
pub mod crop_session;
pub mod ellipse;
pub mod geometry;
pub mod handles;
pub mod images;
pub mod keys;
pub mod layers;
pub mod legacy;
pub mod marker;
pub mod output;
pub mod overlay;
pub mod panel;
pub mod scroll;
pub mod state;
pub mod strokes;
pub mod text;
pub mod text_bands;
pub mod toolbar;
pub mod update;
