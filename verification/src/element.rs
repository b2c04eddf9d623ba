//! The elements that components are configured with.

pub mod axis_label;
pub mod color;
pub mod formatter;
pub mod text_style;

pub use axis_label::AxisLabel;
pub use color::Color;
pub use formatter::Formatter;
pub use text_style::TextStyle;
