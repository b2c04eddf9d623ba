//! The components that a chart is composed of.

pub mod axis;
pub mod graphic;

pub use axis::Axis;
pub use graphic::Graphics;
