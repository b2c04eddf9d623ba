//! The renderer for a browser host: it attaches a chart to an element of the
//! page and keeps the render target in step with later charts.
//!
//! Looking up the element, calling the engine and listening to the window are
//! the caller's part. The renderer is told what the lookup found and answers
//! with the engine calls to make.

use crate::chart::Chart;
use crate::document::{Json, Value};
use crate::error::EchartsError;
use crate::number::Float64;
use crate::record::{assign, distinct_keys, emit, is_lower_camel, Field, Record};
use crate::renderer::animation::Animation;
use crate::renderer::bridge::{
    calls_of, Call, Echarts, EchartsView, EngineCall, Event, HostLookup,
};
use crate::theme::Theme;
use crate::writer::{
    json_float, json_text, opt_float, opt_record, opt_text, text_of, view_opt, ObjectWriter,
};
use vstd::prelude::*;
use vstd::string::StringExecFns;

verus! {

/// The message of the error that a failed lookup ends in; `None` where the
/// element was found.
pub open spec fn lookup_failure(host: HostLookup, id: Seq<char>) -> Option<Seq<char>> {
    match host {
        HostLookup::NoWindow => Some("no `window` object found"@),
        HostLookup::NoDocument => Some("no `document` object found"@),
        HostLookup::NoElement => Some("no element with id `"@ + id + "` found"@),
        HostLookup::Found => None,
    }
}

/// The message for a missing element bears the identifier that was asked
/// for, in full and unchanged.
pub proof fn lemma_missing_element_is_named(id: Seq<char>)
    ensures
        lookup_failure(HostLookup::NoElement, id) is Some,
        ({
            let message = lookup_failure(HostLookup::NoElement, id)->0;
            let start = "no element with id `"@.len() as int;
            message.subrange(start, start + id.len()) == id
        }),
{
    let prefix = "no element with id `"@;
    let message = prefix + id + "` found"@;
    assert(message.subrange(prefix.len() as int, prefix.len() as int + id.len()) =~= id);
}

/// A renderer: the theme and the size that its render targets are created
/// with.
pub struct WasmRenderer {
    theme: Theme,
    width: Option<u32>,
    height: Option<u32>,
}

/// What a [`WasmRenderer`] holds.
pub struct WasmRendererView {
    pub theme: Theme,
    pub width: Option<u32>,
    pub height: Option<u32>,
}

/// The document of an optional measure, if there is one.
pub open spec fn json_u32(value: Option<u32>) -> Option<Json> {
    match value {
        Some(n) => Some(Json::UInt(n as u64)),
        None => None,
    }
}

fn opt_u32(value: Option<u32>) -> (r: Option<Value>)
    ensures
        view_opt(r) == json_u32(value),
{
    match value {
        Some(n) => Some(Value::UInt(n as u64)),
        None => None,
    }
}

impl WasmRendererView {
    /// The size as a record: a measure that is not given is left out, for the
    /// engine to take from the host element's layout.
    pub open spec fn size_fields(self) -> Seq<Field> {
        seq![
            Field { key: "width"@, value: json_u32(self.width) },
            Field { key: "height"@, value: json_u32(self.height) },
        ]
    }

    /// The size as a document.
    pub open spec fn size(self) -> Json {
        Json::Object(emit(self.size_fields()))
    }
}

impl View for WasmRenderer {
    type V = WasmRendererView;

    closed spec fn view(&self) -> WasmRendererView {
        WasmRendererView { theme: self.theme, width: self.width, height: self.height }
    }
}

impl WasmRenderer {
    /// A renderer of the default theme whose targets have the given size.
    pub fn new(width: u32, height: u32) -> (r: Self)
        ensures
            r@ == (WasmRendererView {
                theme: Theme::Default,
                width: Some(width),
                height: Some(height),
            }),
    {
        WasmRenderer { theme: Theme::Default, width: Some(width), height: Some(height) }
    }

    /// A renderer of the default theme; a measure that is not given is taken
    /// from the host element.
    pub fn new_opt(width: Option<u32>, height: Option<u32>) -> (r: Self)
        ensures
            r@ == (WasmRendererView { theme: Theme::Default, width, height }),
    {
        WasmRenderer { theme: Theme::Default, width, height }
    }

    /// The renderer with its theme replaced.
    pub fn theme(self, theme: Theme) -> (r: Self)
        ensures
            r@ == (WasmRendererView { theme, ..self@ }),
    {
        let mut r = self;
        r.theme = theme;
        r
    }

    /// The size that targets are created with, as a document.
    pub fn size(&self) -> (doc: Value)
        ensures
            doc@ == self@.size(),
    {
        let mut w = ObjectWriter::new();
        w.field("width", opt_u32(self.width));
        w.field("height", opt_u32(self.height));
        assert(w.fields() =~= self@.size_fields());
        w.finish()
    }

    /// Attaches `chart` to the element with identifier `id`, given what the
    /// host answered when asked for that element.
    ///
    /// Where the element was found, the result is the handle of the new
    /// target and the two calls that bring it about: create the target with
    /// this renderer's theme and size, then hand it the chart's document.
    /// Where the lookup failed, the result is the error that says what is
    /// missing, and there is neither a handle nor a call.
    pub fn render(&self, id: &str, host: HostLookup, chart: &Chart) -> (r: Result<
        (Echarts, Vec<EngineCall>),
        EchartsError,
    >)
        ensures
            match r {
                Ok((echarts, calls)) => {
                    &&& host == HostLookup::Found
                    &&& echarts@ == EchartsView::attached()
                    &&& calls_of(calls@) == seq![
                        Call::Init { theme: self@.theme.name(), size: self@.size() },
                        Call::SetOption { option: chart@.document() },
                    ]
                },
                Err(error) => lookup_failure(host, id@) == Some(error@),
            },
    {
        match host {
            HostLookup::NoWindow => Err(
                EchartsError::WasmError("no `window` object found".to_owned()),
            ),
            HostLookup::NoDocument => Err(
                EchartsError::WasmError("no `document` object found".to_owned()),
            ),
            HostLookup::NoElement => {
                let message = "no element with id `".to_owned().concat(id).concat("` found");
                Err(EchartsError::WasmError(message))
            },
            HostLookup::Found => {
                let mut calls: Vec<EngineCall> = Vec::new();
                calls.push(
                    EngineCall::Init { theme: self.theme.to_str().to_owned(), size: self.size() },
                );
                calls.push(EngineCall::SetOption { option: chart.document() });
                proof {
                    assert(calls_of(calls@) =~= seq![
                        Call::Init { theme: self@.theme.name(), size: self@.size() },
                        Call::SetOption { option: chart@.document() },
                    ]);
                }
                Ok((Echarts::attached(), calls))
            },
        }
    }

    /// Asks for a resize of the target. The descriptor is accepted and not
    /// forwarded: the engine is asked to fit the host element as it is now,
    /// without the descriptor's size or animation.
    pub fn resize_chart(echarts: &Echarts, chart_size: ChartResize) -> (calls: Vec<EngineCall>)
        ensures
            calls_of(calls@) == echarts@.calls(Event::Resize),
    {
        echarts.resize()
    }

    /// Pushes `chart` to the target: the whole document is sent again, with
    /// no comparison to what was sent before.
    pub fn update(echarts: &mut Echarts, chart: &Chart) -> (calls: Vec<EngineCall>)
        ensures
            final(echarts)@ == old(echarts)@.step(Event::Update { option: chart@.document() }),
            calls_of(calls@) == old(echarts)@.calls(Event::Update { option: chart@.document() }),
    {
        echarts.push(chart.document())
    }

    /// Asks the target for its image under the given options.
    pub fn save_image(echarts: &Echarts, option: ImageOptions) -> (calls: Vec<EngineCall>)
        ensures
            calls_of(calls@) == echarts@.calls(Event::Export { option: option@.document() }),
    {
        echarts.export(option.document())
    }
}

/// Registers a resize listener for the target and returns its token; a
/// disposed target takes no listener. The listener stays registered until it
/// is cancelled or the host element is removed.
pub fn add_resize_listener(chart: &mut Echarts) -> (token: Option<usize>)
    ensures
        final(chart)@ == old(chart)@.step(Event::AddListener),
        match token {
            Some(t) => {
                &&& old(chart)@.live()
                &&& t == old(chart)@.issued
                &&& !old(chart)@.listeners.contains(t as nat)
                &&& final(chart)@.listeners.contains(t as nat)
            },
            None => !old(chart)@.live(),
        },
{
    proof {
        chart.lemma_wf();
    }
    chart.add_listener()
}

/// How a target is to be resized.
#[derive(Clone, Copy, Debug, PartialEq, Eq, Structural)]
pub struct ChartResize {
    width: u32,
    height: u32,
    silent: bool,
    animation: Option<Animation>,
}

/// What a [`ChartResize`] holds.
pub struct ChartResizeView {
    /// The new width, in pixels.
    pub width: u32,
    /// The new height, in pixels.
    pub height: u32,
    /// Whether the resize goes without resize events.
    pub silent: bool,
    /// The transition, if the resize is animated.
    pub animation: Option<Animation>,
}

/// The document of an optional transition, if there is one.
pub open spec fn json_resize_animation(value: Option<Animation>) -> Option<Json> {
    match value {
        Some(animation) => Some(Json::Object(emit(animation.fields()))),
        None => None,
    }
}

impl ChartResizeView {
    /// The fields in the order in which they are written, each under its key.
    pub open spec fn fields(self) -> Seq<Field> {
        seq![
            Field { key: "width"@, value: Some(Json::UInt(self.width as u64)) },
            Field { key: "height"@, value: Some(Json::UInt(self.height as u64)) },
            Field { key: "silent"@, value: Some(Json::Bool(self.silent)) },
            Field { key: "animation"@, value: json_resize_animation(self.animation) },
        ]
    }

    /// The document: one member for each field that is set.
    pub open spec fn document(self) -> Json {
        Json::Object(emit(self.fields()))
    }
}

impl View for ChartResize {
    type V = ChartResizeView;

    closed spec fn view(&self) -> ChartResizeView {
        ChartResizeView {
            width: self.width,
            height: self.height,
            silent: self.silent,
            animation: self.animation,
        }
    }
}

impl ChartResize {
    /// A resize to the given size, silent or not, animated or not.
    pub fn new(width: u32, height: u32, silent: bool, animation: Option<Animation>) -> (r: Self)
        ensures
            r@ == (ChartResizeView { width, height, silent, animation }),
    {
        ChartResize { width, height, silent, animation }
    }
}

impl Record for ChartResize {
    open spec fn fields(&self) -> Seq<Field> {
        self@.fields()
    }

    proof fn lemma_keys(&self, other: &Self) {
        reveal_strlit("width");
        reveal_strlit("height");
        reveal_strlit("silent");
        reveal_strlit("animation");
        assert(is_lower_camel("width"@));
        assert(is_lower_camel("height"@));
        assert(is_lower_camel("silent"@));
        assert(is_lower_camel("animation"@));
        assert(distinct_keys(self.fields()));
    }

    fn document(&self) -> (doc: Value) {
        let mut w = ObjectWriter::new();
        w.field("width", Some(Value::UInt(self.width as u64)));
        w.field("height", Some(Value::UInt(self.height as u64)));
        w.field("silent", Some(Value::Bool(self.silent)));
        w.field("animation", opt_record(&self.animation));
        assert(w.fields() =~= self.fields());
        w.finish()
    }
}

/// The encoding of an exported image.
#[derive(Clone, Copy, Debug, PartialEq, Eq, Structural)]
pub enum ImageFormat {
    Png,
    Jpeg,
}

impl ImageFormat {
    /// The format's name in a document.
    pub open spec fn name(self) -> Seq<char> {
        match self {
            ImageFormat::Png => "png"@,
            ImageFormat::Jpeg => "jpeg"@,
        }
    }

    /// The format's name in a document.
    pub fn as_str(&self) -> (name: &'static str)
        ensures
            name@ == self.name(),
    {
        match self {
            ImageFormat::Png => "png",
            ImageFormat::Jpeg => "jpeg",
        }
    }
}

/// How a target's image is exported.
pub struct ImageOptions {
    format: ImageFormat,
    pixel_ratio: Option<Float64>,
    background_color: Option<String>,
}

/// What an [`ImageOptions`] holds.
pub struct ImageOptionsView {
    pub format: ImageFormat,
    pub pixel_ratio: Option<Float64>,
    pub background_color: Option<Seq<char>>,
}

impl ImageOptionsView {
    /// The fields in the order in which they are written, each under its key.
    pub open spec fn fields(self) -> Seq<Field> {
        seq![
            Field { key: "type"@, value: Some(Json::Str(self.format.name())) },
            Field { key: "pixelRatio"@, value: json_float(self.pixel_ratio) },
            Field { key: "backgroundColor"@, value: json_text(self.background_color) },
        ]
    }

    /// The document: one member for each field that is set.
    pub open spec fn document(self) -> Json {
        Json::Object(emit(self.fields()))
    }
}

impl View for ImageOptions {
    type V = ImageOptionsView;

    closed spec fn view(&self) -> ImageOptionsView {
        ImageOptionsView {
            format: self.format,
            pixel_ratio: self.pixel_ratio,
            background_color: text_of(self.background_color),
        }
    }
}

impl ImageOptions {
    /// An image of the given format, at the engine's own pixel ratio and
    /// without a background color.
    pub fn new(format: ImageFormat) -> (r: Self)
        ensures
            r@ == (ImageOptionsView { format, pixel_ratio: None, background_color: None }),
    {
        ImageOptions { format, pixel_ratio: None, background_color: None }
    }

    /// The factor by which the image's resolution is scaled.
    pub fn pixel_ratio(self, pixel_ratio: Float64) -> (r: Self)
        ensures
            r@ == (ImageOptionsView { pixel_ratio: Some(pixel_ratio), ..self@ }),
            r.fields() == assign(self.fields(), 1, Json::Float64(pixel_ratio)),
    {
        let mut r = self;
        r.pixel_ratio = Some(pixel_ratio);
        proof {
            assert(r.fields() =~= assign(self.fields(), 1, Json::Float64(pixel_ratio)));
        }
        r
    }

    /// The color behind the chart in the image.
    pub fn background_color(self, background_color: &str) -> (r: Self)
        ensures
            r@ == (ImageOptionsView { background_color: Some(background_color@), ..self@ }),
            r.fields() == assign(self.fields(), 2, Json::Str(background_color@)),
    {
        let mut r = self;
        r.background_color = Some(background_color.to_owned());
        proof {
            assert(r.fields() =~= assign(self.fields(), 2, Json::Str(background_color@)));
        }
        r
    }
}

impl Record for ImageOptions {
    open spec fn fields(&self) -> Seq<Field> {
        self@.fields()
    }

    proof fn lemma_keys(&self, other: &Self) {
        reveal_strlit("type");
        reveal_strlit("pixelRatio");
        reveal_strlit("backgroundColor");
        assert(is_lower_camel("type"@));
        assert(is_lower_camel("pixelRatio"@));
        assert(is_lower_camel("backgroundColor"@));
        assert(distinct_keys(self.fields()));
    }

    fn document(&self) -> (doc: Value) {
        let mut w = ObjectWriter::new();
        w.field("type", Some(Value::Str(self.format.as_str().to_owned())));
        w.field("pixelRatio", opt_float(self.pixel_ratio));
        w.field("backgroundColor", opt_text(&self.background_color));
        assert(w.fields() =~= self.fields());
        w.finish()
    }
}

} // verus!
