//! Graphic overlays: visual primitives drawn on top of a chart.

use crate::document::{Json, Value};
use crate::number::Float64;
use crate::record::{
    assign, distinct_keys, emit, is_lower_camel, lemma_unset_record_is_empty, Field, Record,
};
use crate::writer::{
    json_bool, json_float, json_pair, json_text, json_uint, opt_bool, opt_float, opt_pair,
    opt_record, opt_text, opt_uint, pair, text_of, ObjectWriter,
};
use vstd::prelude::*;

verus! {

/// How a graphic is painted.
pub struct Style {
    fill: Option<String>,
    stroke: Option<String>,
    line_width: Option<Float64>,
}

/// What a [`Style`] holds.
pub struct StyleView {
    pub fill: Option<Seq<char>>,
    pub stroke: Option<Seq<char>>,
    pub line_width: Option<Float64>,
}

impl StyleView {
    /// The record with no field set.
    pub open spec fn unset() -> Self {
        StyleView { fill: None, stroke: None, line_width: None }
    }

    /// The fields in the order in which they are written, each under its key.
    pub open spec fn fields(self) -> Seq<Field> {
        seq![
            Field { key: "fill"@, value: json_text(self.fill) },
            Field { key: "stroke"@, value: json_text(self.stroke) },
            Field { key: "lineWidth"@, value: json_float(self.line_width) },
        ]
    }

    /// The document: one member for each field that is set.
    pub open spec fn document(self) -> Json {
        Json::Object(emit(self.fields()))
    }
}

impl View for Style {
    type V = StyleView;

    closed spec fn view(&self) -> StyleView {
        StyleView {
            fill: text_of(self.fill),
            stroke: text_of(self.stroke),
            line_width: self.line_width,
        }
    }
}

impl Style {
    /// A style with nothing set; its document is the empty object.
    pub fn new() -> (r: Self)
        ensures
            r@ == StyleView::unset(),
            r@.document() == Json::Object(Seq::empty()),
    {
        proof {
            lemma_unset_record_is_empty(StyleView::unset().fields());
        }
        Style { fill: None, stroke: None, line_width: None }
    }

    /// The color of the inside.
    pub fn fill(self, fill: &str) -> (r: Self)
        ensures
            r@ == (StyleView { fill: Some(fill@), ..self@ }),
            r.fields() == assign(self.fields(), 0, Json::Str(fill@)),
    {
        let mut r = self;
        r.fill = Some(fill.to_owned());
        proof {
            assert(r.fields() =~= assign(self.fields(), 0, Json::Str(fill@)));
        }
        r
    }

    /// The color of the outline.
    pub fn stroke(self, stroke: &str) -> (r: Self)
        ensures
            r@ == (StyleView { stroke: Some(stroke@), ..self@ }),
            r.fields() == assign(self.fields(), 1, Json::Str(stroke@)),
    {
        let mut r = self;
        r.stroke = Some(stroke.to_owned());
        proof {
            assert(r.fields() =~= assign(self.fields(), 1, Json::Str(stroke@)));
        }
        r
    }

    /// The width of the outline.
    pub fn line_width(self, line_width: Float64) -> (r: Self)
        ensures
            r@ == (StyleView { line_width: Some(line_width), ..self@ }),
            r.fields() == assign(self.fields(), 2, Json::Float64(line_width)),
    {
        let mut r = self;
        r.line_width = Some(line_width);
        proof {
            assert(r.fields() =~= assign(self.fields(), 2, Json::Float64(line_width)));
        }
        r
    }
}

impl Record for Style {
    open spec fn fields(&self) -> Seq<Field> {
        self@.fields()
    }

    proof fn lemma_keys(&self, other: &Self) {
        reveal_strlit("fill");
        reveal_strlit("stroke");
        reveal_strlit("lineWidth");
        assert(is_lower_camel("fill"@));
        assert(is_lower_camel("stroke"@));
        assert(is_lower_camel("lineWidth"@));
        assert(distinct_keys(self.fields()));
    }

    fn document(&self) -> (doc: Value) {
        let mut w = ObjectWriter::new();
        w.field("fill", opt_text(&self.fill));
        w.field("stroke", opt_text(&self.stroke));
        w.field("lineWidth", opt_float(self.line_width));
        assert(w.fields() =~= self.fields());
        w.finish()
    }
}

/// The geometry of a graphic: a radius for a circle; a corner, a width and a
/// height for a rectangle.
pub struct Shape {
    r: Option<Float64>,
    width: Option<Float64>,
    height: Option<Float64>,
    x: Option<Float64>,
    y: Option<Float64>,
}

/// What a [`Shape`] holds.
pub struct ShapeView {
    pub r: Option<Float64>,
    pub width: Option<Float64>,
    pub height: Option<Float64>,
    pub x: Option<Float64>,
    pub y: Option<Float64>,
}

impl ShapeView {
    /// The record with no field set.
    pub open spec fn unset() -> Self {
        ShapeView { r: None, width: None, height: None, x: None, y: None }
    }

    /// The fields in the order in which they are written, each under its key.
    pub open spec fn fields(self) -> Seq<Field> {
        seq![
            Field { key: "r"@, value: json_float(self.r) },
            Field { key: "width"@, value: json_float(self.width) },
            Field { key: "height"@, value: json_float(self.height) },
            Field { key: "x"@, value: json_float(self.x) },
            Field { key: "y"@, value: json_float(self.y) },
        ]
    }

    /// The document: one member for each field that is set.
    pub open spec fn document(self) -> Json {
        Json::Object(emit(self.fields()))
    }
}

impl View for Shape {
    type V = ShapeView;

    closed spec fn view(&self) -> ShapeView {
        ShapeView { r: self.r, width: self.width, height: self.height, x: self.x, y: self.y }
    }
}

impl Shape {
    /// A shape with nothing set; its document is the empty object.
    pub fn new() -> (r: Self)
        ensures
            r@ == ShapeView::unset(),
            r@.document() == Json::Object(Seq::empty()),
    {
        proof {
            lemma_unset_record_is_empty(ShapeView::unset().fields());
        }
        Shape { r: None, width: None, height: None, x: None, y: None }
    }

    /// The radius of a circle.
    pub fn r(self, r: Float64) -> (s: Self)
        ensures
            s@ == (ShapeView { r: Some(r), ..self@ }),
            s.fields() == assign(self.fields(), 0, Json::Float64(r)),
    {
        let mut s = self;
        s.r = Some(r);
        proof {
            assert(s.fields() =~= assign(self.fields(), 0, Json::Float64(r)));
        }
        s
    }

    pub fn width(self, width: Float64) -> (r: Self)
        ensures
            r@ == (ShapeView { width: Some(width), ..self@ }),
            r.fields() == assign(self.fields(), 1, Json::Float64(width)),
    {
        let mut r = self;
        r.width = Some(width);
        proof {
            assert(r.fields() =~= assign(self.fields(), 1, Json::Float64(width)));
        }
        r
    }

    pub fn height(self, height: Float64) -> (r: Self)
        ensures
            r@ == (ShapeView { height: Some(height), ..self@ }),
            r.fields() == assign(self.fields(), 2, Json::Float64(height)),
    {
        let mut r = self;
        r.height = Some(height);
        proof {
            assert(r.fields() =~= assign(self.fields(), 2, Json::Float64(height)));
        }
        r
    }

    pub fn x(self, x: Float64) -> (r: Self)
        ensures
            r@ == (ShapeView { x: Some(x), ..self@ }),
            r.fields() == assign(self.fields(), 3, Json::Float64(x)),
    {
        let mut r = self;
        r.x = Some(x);
        proof {
            assert(r.fields() =~= assign(self.fields(), 3, Json::Float64(x)));
        }
        r
    }

    pub fn y(self, y: Float64) -> (r: Self)
        ensures
            r@ == (ShapeView { y: Some(y), ..self@ }),
            r.fields() == assign(self.fields(), 4, Json::Float64(y)),
    {
        let mut r = self;
        r.y = Some(y);
        proof {
            assert(r.fields() =~= assign(self.fields(), 4, Json::Float64(y)));
        }
        r
    }
}

impl Record for Shape {
    open spec fn fields(&self) -> Seq<Field> {
        self@.fields()
    }

    proof fn lemma_keys(&self, other: &Self) {
        reveal_strlit("r");
        reveal_strlit("width");
        reveal_strlit("height");
        reveal_strlit("x");
        reveal_strlit("y");
        assert(is_lower_camel("r"@));
        assert(is_lower_camel("width"@));
        assert(is_lower_camel("height"@));
        assert(is_lower_camel("x"@));
        assert(is_lower_camel("y"@));
        assert(distinct_keys(self.fields()));
    }

    fn document(&self) -> (doc: Value) {
        let mut w = ObjectWriter::new();
        w.field("r", opt_float(self.r));
        w.field("width", opt_float(self.width));
        w.field("height", opt_float(self.height));
        w.field("x", opt_float(self.x));
        w.field("y", opt_float(self.y));
        assert(w.fields() =~= self.fields());
        w.finish()
    }
}

/// How a graphic moves into place.
pub struct Animation {
    duration: Option<u64>,
    easing: Option<String>,
    delay: Option<u64>,
}

/// What an [`Animation`] holds.
pub struct AnimationView {
    pub duration: Option<u64>,
    pub easing: Option<Seq<char>>,
    pub delay: Option<u64>,
}

impl AnimationView {
    /// The record with no field set.
    pub open spec fn unset() -> Self {
        AnimationView { duration: None, easing: None, delay: None }
    }

    /// The fields in the order in which they are written, each under its key.
    pub open spec fn fields(self) -> Seq<Field> {
        seq![
            Field { key: "duration"@, value: json_uint(self.duration) },
            Field { key: "easing"@, value: json_text(self.easing) },
            Field { key: "delay"@, value: json_uint(self.delay) },
        ]
    }

    /// The document: one member for each field that is set.
    pub open spec fn document(self) -> Json {
        Json::Object(emit(self.fields()))
    }
}

impl View for Animation {
    type V = AnimationView;

    closed spec fn view(&self) -> AnimationView {
        AnimationView { duration: self.duration, easing: text_of(self.easing), delay: self.delay }
    }
}

impl Animation {
    /// An animation with nothing set; its document is the empty object.
    pub fn new() -> (r: Self)
        ensures
            r@ == AnimationView::unset(),
            r@.document() == Json::Object(Seq::empty()),
    {
        proof {
            lemma_unset_record_is_empty(AnimationView::unset().fields());
        }
        Animation { duration: None, easing: None, delay: None }
    }

    pub fn duration(self, duration: u64) -> (r: Self)
        ensures
            r@ == (AnimationView { duration: Some(duration), ..self@ }),
            r.fields() == assign(self.fields(), 0, Json::UInt(duration)),
    {
        let mut r = self;
        r.duration = Some(duration);
        proof {
            assert(r.fields() =~= assign(self.fields(), 0, Json::UInt(duration)));
        }
        r
    }

    /// The name of the easing curve, as the engine knows it.
    pub fn easing(self, easing: &str) -> (r: Self)
        ensures
            r@ == (AnimationView { easing: Some(easing@), ..self@ }),
            r.fields() == assign(self.fields(), 1, Json::Str(easing@)),
    {
        let mut r = self;
        r.easing = Some(easing.to_owned());
        proof {
            assert(r.fields() =~= assign(self.fields(), 1, Json::Str(easing@)));
        }
        r
    }

    pub fn delay(self, delay: u64) -> (r: Self)
        ensures
            r@ == (AnimationView { delay: Some(delay), ..self@ }),
            r.fields() == assign(self.fields(), 2, Json::UInt(delay)),
    {
        let mut r = self;
        r.delay = Some(delay);
        proof {
            assert(r.fields() =~= assign(self.fields(), 2, Json::UInt(delay)));
        }
        r
    }
}

impl Record for Animation {
    open spec fn fields(&self) -> Seq<Field> {
        self@.fields()
    }

    proof fn lemma_keys(&self, other: &Self) {
        reveal_strlit("duration");
        reveal_strlit("easing");
        reveal_strlit("delay");
        assert(is_lower_camel("duration"@));
        assert(is_lower_camel("easing"@));
        assert(is_lower_camel("delay"@));
        assert(distinct_keys(self.fields()));
    }

    fn document(&self) -> (doc: Value) {
        let mut w = ObjectWriter::new();
        w.field("duration", opt_uint(self.duration));
        w.field("easing", opt_text(&self.easing));
        w.field("delay", opt_uint(self.delay));
        assert(w.fields() =~= self.fields());
        w.finish()
    }
}

/// The document of an optional shape, if there is one.
pub open spec fn json_shape(value: Option<ShapeView>) -> Option<Json> {
    match value {
        Some(shape) => Some(shape.document()),
        None => None,
    }
}

/// The document of an optional style, if there is one.
pub open spec fn json_style(value: Option<StyleView>) -> Option<Json> {
    match value {
        Some(style) => Some(style.document()),
        None => None,
    }
}

/// The document of an optional animation, if there is one.
pub open spec fn json_animation(value: Option<AnimationView>) -> Option<Json> {
    match value {
        Some(animation) => Some(animation.document()),
        None => None,
    }
}

/// One visual overlay.
pub struct Graphics {
    id: Option<String>,
    z: Option<Float64>,
    shape: Option<Shape>,
    position: Option<(Float64, Float64)>,
    rotation: Option<Float64>,
    scale: Option<(Float64, Float64)>,
    style: Option<Style>,
    animation: Option<Animation>,
    invisible: Option<bool>,
}

/// What a [`Graphics`] holds.
pub struct GraphicsView {
    pub id: Option<Seq<char>>,
    pub z: Option<Float64>,
    pub shape: Option<ShapeView>,
    pub position: Option<(Float64, Float64)>,
    pub rotation: Option<Float64>,
    pub scale: Option<(Float64, Float64)>,
    pub style: Option<StyleView>,
    pub animation: Option<AnimationView>,
    pub invisible: Option<bool>,
}

impl GraphicsView {
    /// The record with no field set.
    pub open spec fn unset() -> Self {
        GraphicsView {
            id: None,
            z: None,
            shape: None,
            position: None,
            rotation: None,
            scale: None,
            style: None,
            animation: None,
            invisible: None,
        }
    }

    /// The fields in the order in which they are written, each under its key.
    pub open spec fn fields(self) -> Seq<Field> {
        seq![
            Field { key: "id"@, value: json_text(self.id) },
            Field { key: "z"@, value: json_float(self.z) },
            Field { key: "shape"@, value: json_shape(self.shape) },
            Field { key: "position"@, value: json_pair(self.position) },
            Field { key: "rotation"@, value: json_float(self.rotation) },
            Field { key: "scale"@, value: json_pair(self.scale) },
            Field { key: "style"@, value: json_style(self.style) },
            Field { key: "animation"@, value: json_animation(self.animation) },
            Field { key: "invisible"@, value: json_bool(self.invisible) },
        ]
    }

    /// The document: one member for each field that is set.
    pub open spec fn document(self) -> Json {
        Json::Object(emit(self.fields()))
    }
}

impl View for Graphics {
    type V = GraphicsView;

    closed spec fn view(&self) -> GraphicsView {
        GraphicsView {
            id: text_of(self.id),
            z: self.z,
            shape: match self.shape {
                Some(shape) => Some(shape@),
                None => None,
            },
            position: self.position,
            rotation: self.rotation,
            scale: self.scale,
            style: match self.style {
                Some(style) => Some(style@),
                None => None,
            },
            animation: match self.animation {
                Some(animation) => Some(animation@),
                None => None,
            },
            invisible: self.invisible,
        }
    }
}

impl Graphics {
    /// A graphic with nothing set; its document is the empty object.
    pub fn new() -> (r: Self)
        ensures
            r@ == GraphicsView::unset(),
            r@.document() == Json::Object(Seq::empty()),
    {
        proof {
            lemma_unset_record_is_empty(GraphicsView::unset().fields());
        }
        Graphics {
            id: None,
            z: None,
            shape: None,
            position: None,
            rotation: None,
            scale: None,
            style: None,
            animation: None,
            invisible: None,
        }
    }

    pub fn id(self, id: &str) -> (r: Self)
        ensures
            r@ == (GraphicsView { id: Some(id@), ..self@ }),
            r.fields() == assign(self.fields(), 0, Json::Str(id@)),
    {
        let mut r = self;
        r.id = Some(id.to_owned());
        proof {
            assert(r.fields() =~= assign(self.fields(), 0, Json::Str(id@)));
        }
        r
    }

    /// The stacking order.
    pub fn z(self, z: Float64) -> (r: Self)
        ensures
            r@ == (GraphicsView { z: Some(z), ..self@ }),
            r.fields() == assign(self.fields(), 1, Json::Float64(z)),
    {
        let mut r = self;
        r.z = Some(z);
        proof {
            assert(r.fields() =~= assign(self.fields(), 1, Json::Float64(z)));
        }
        r
    }

    pub fn shape(self, shape: Shape) -> (r: Self)
        ensures
            r@ == (GraphicsView { shape: Some(shape@), ..self@ }),
            r.fields() == assign(self.fields(), 2, shape@.document()),
    {
        let ghost value = shape@;
        let mut r = self;
        r.shape = Some(shape);
        proof {
            assert(r.fields() =~= assign(self.fields(), 2, value.document()));
        }
        r
    }

    /// Where the graphic is placed; written as the pair `[x, y]`.
    pub fn position(self, x: Float64, y: Float64) -> (r: Self)
        ensures
            r@ == (GraphicsView { position: Some((x, y)), ..self@ }),
            r.fields() == assign(self.fields(), 3, pair(x, y)),
    {
        let mut r = self;
        r.position = Some((x, y));
        proof {
            assert(r.fields() =~= assign(self.fields(), 3, pair(x, y)));
        }
        r
    }

    pub fn rotation(self, rotation: Float64) -> (r: Self)
        ensures
            r@ == (GraphicsView { rotation: Some(rotation), ..self@ }),
            r.fields() == assign(self.fields(), 4, Json::Float64(rotation)),
    {
        let mut r = self;
        r.rotation = Some(rotation);
        proof {
            assert(r.fields() =~= assign(self.fields(), 4, Json::Float64(rotation)));
        }
        r
    }

    /// The factors by which the graphic is scaled; written as the pair `[x, y]`.
    pub fn scale(self, x: Float64, y: Float64) -> (r: Self)
        ensures
            r@ == (GraphicsView { scale: Some((x, y)), ..self@ }),
            r.fields() == assign(self.fields(), 5, pair(x, y)),
    {
        let mut r = self;
        r.scale = Some((x, y));
        proof {
            assert(r.fields() =~= assign(self.fields(), 5, pair(x, y)));
        }
        r
    }

    pub fn style(self, style: Style) -> (r: Self)
        ensures
            r@ == (GraphicsView { style: Some(style@), ..self@ }),
            r.fields() == assign(self.fields(), 6, style@.document()),
    {
        let ghost value = style@;
        let mut r = self;
        r.style = Some(style);
        proof {
            assert(r.fields() =~= assign(self.fields(), 6, value.document()));
        }
        r
    }

    pub fn animation(self, animation: Animation) -> (r: Self)
        ensures
            r@ == (GraphicsView { animation: Some(animation@), ..self@ }),
            r.fields() == assign(self.fields(), 7, animation@.document()),
    {
        let ghost value = animation@;
        let mut r = self;
        r.animation = Some(animation);
        proof {
            assert(r.fields() =~= assign(self.fields(), 7, value.document()));
        }
        r
    }

    pub fn invisible(self, invisible: bool) -> (r: Self)
        ensures
            r@ == (GraphicsView { invisible: Some(invisible), ..self@ }),
            r.fields() == assign(self.fields(), 8, Json::Bool(invisible)),
    {
        let mut r = self;
        r.invisible = Some(invisible);
        proof {
            assert(r.fields() =~= assign(self.fields(), 8, Json::Bool(invisible)));
        }
        r
    }
}

impl Record for Graphics {
    open spec fn fields(&self) -> Seq<Field> {
        self@.fields()
    }

    proof fn lemma_keys(&self, other: &Self) {
        reveal_strlit("id");
        reveal_strlit("z");
        reveal_strlit("shape");
        reveal_strlit("position");
        reveal_strlit("rotation");
        reveal_strlit("scale");
        reveal_strlit("style");
        reveal_strlit("animation");
        reveal_strlit("invisible");
        assert(is_lower_camel("id"@));
        assert(is_lower_camel("z"@));
        assert(is_lower_camel("shape"@));
        assert(is_lower_camel("position"@));
        assert(is_lower_camel("rotation"@));
        assert(is_lower_camel("scale"@));
        assert(is_lower_camel("style"@));
        assert(is_lower_camel("animation"@));
        assert(is_lower_camel("invisible"@));
        assert("shape"@[1] == 'h' && "scale"@[1] == 'c' && "style"@[1] == 't');
        assert(distinct_keys(self.fields()));
    }

    fn document(&self) -> (doc: Value) {
        let mut w = ObjectWriter::new();
        w.field("id", opt_text(&self.id));
        w.field("z", opt_float(self.z));
        w.field("shape", opt_record(&self.shape));
        w.field("position", opt_pair(self.position));
        w.field("rotation", opt_float(self.rotation));
        w.field("scale", opt_pair(self.scale));
        w.field("style", opt_record(&self.style));
        w.field("animation", opt_record(&self.animation));
        w.field("invisible", opt_bool(self.invisible));
        assert(w.fields() =~= self.fields());
        w.finish()
    }
}

} // verus!
