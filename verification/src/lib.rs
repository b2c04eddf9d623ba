//! Typed chart options and the bridge that hands them to a rendering engine.
//!
//! A chart is described with builders: each is a record of optional fields,
//! set one by one. [`Record::document`] turns a builder into the canonical
//! document that the engine reads: a field that is set becomes a member under
//! the field's fixed key, a field that is not set leaves no trace.
//!
//! [`WasmRenderer`] attaches a chart to an element of the page. It does not
//! reach for the page or the engine itself: it is told what the host found
//! and answers with the engine calls to make, and the [`Echarts`] handle
//! follows the render target through updates, resizes and exports until its
//! host element is removed.

pub mod chart;
pub mod component;
pub mod document;
pub mod element;
pub mod error;
pub mod number;
pub mod record;
pub mod renderer;
pub mod theme;
pub mod writer;

pub use chart::Chart;
pub use document::{Json, Member, Value};
pub use error::EchartsError;
pub use number::{Float32, Float64};
pub use record::Record;
pub use renderer::{
    add_resize_listener, Animation, ChartResize, Easing, Echarts, EngineCall, HostLookup,
    ImageFormat, ImageOptions, Phase, WasmRenderer,
};
pub use theme::Theme;
