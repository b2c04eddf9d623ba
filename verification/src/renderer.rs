//! Renderers: what it takes to get a chart drawn.

pub mod animation;
pub mod bridge;
pub mod wasm_renderer;

pub use animation::{Animation, Easing};
pub use bridge::{Echarts, EngineCall, HostLookup, Phase};
pub use wasm_renderer::{
    add_resize_listener, ChartResize, ImageFormat, ImageOptions, WasmRenderer,
};
