//! Geometry of a smoothly animated text cursor: how the corners of a cursor
//! box are labelled and ordered, which corners a motion trail is drawn
//! between, and how each cursor shape sizes its box within a text line.
//!
//! Coordinates are left abstract (any `Copy` value): the pixel arithmetic
//! itself lives with the renderer, while the combinatorial rules that decide
//! *which* coordinates go where are stated and proved here.

pub mod corners;
pub mod shape;
pub mod trail;
