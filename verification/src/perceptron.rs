//! A two-class demonstration on points of the plane: the line that labels
//! the points, the data, and how points, labels and network outputs
//! translate into each other.
pub mod color_palette;
pub mod data;
pub mod function;
pub mod label;
pub mod position;
pub mod session;
