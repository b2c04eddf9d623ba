//! Axis labels.

use crate::document::{Json, Value};
use crate::element::color::{color_of, opt_color, Color};
use crate::element::formatter::{formatter_of, opt_formatter, Formatter};
use crate::element::text_style::{json_text_style, TextStyle, TextStyleView};
use crate::number::{Float32, Float64};
use crate::record::{
    assign, distinct_keys, emit, is_lower_camel, lemma_unset_record_is_empty, Field, Record,
};
use crate::writer::{
    float32s, float32s_of, json_bool, json_float, json_float32s, json_text, opt_bool, opt_float,
    opt_float32s, opt_record, ObjectWriter,
};
use vstd::prelude::*;

verus! {

/// How the labels of one axis are drawn.
pub struct AxisLabel {
    show: Option<bool>,
    distance: Option<Float64>,
    font_size: Option<Float64>,
    color: Option<Color>,
    formatter: Option<Formatter>,
    rotate: Option<Float64>,
    interval: Option<Float64>,
    inside: Option<bool>,
    padding: Option<Vec<Float32>>,
    text_style: Option<TextStyle>,
}

/// What an [`AxisLabel`] holds.
pub struct AxisLabelView {
    pub show: Option<bool>,
    pub distance: Option<Float64>,
    pub font_size: Option<Float64>,
    pub color: Option<Seq<char>>,
    pub formatter: Option<Seq<char>>,
    pub rotate: Option<Float64>,
    pub interval: Option<Float64>,
    pub inside: Option<bool>,
    pub padding: Option<Seq<Float32>>,
    pub text_style: Option<TextStyleView>,
}

impl AxisLabelView {
    /// The record with no field set.
    pub open spec fn unset() -> Self {
        AxisLabelView {
            show: None,
            distance: None,
            font_size: None,
            color: None,
            formatter: None,
            rotate: None,
            interval: None,
            inside: None,
            padding: None,
            text_style: None,
        }
    }

    /// The fields in the order in which they are written, each under its key.
    pub open spec fn fields(self) -> Seq<Field> {
        seq![
            Field { key: "show"@, value: json_bool(self.show) },
            Field { key: "distance"@, value: json_float(self.distance) },
            Field { key: "fontSize"@, value: json_float(self.font_size) },
            Field { key: "color"@, value: json_text(self.color) },
            Field { key: "formatter"@, value: json_text(self.formatter) },
            Field { key: "rotate"@, value: json_float(self.rotate) },
            Field { key: "interval"@, value: json_float(self.interval) },
            Field { key: "inside"@, value: json_bool(self.inside) },
            Field { key: "padding"@, value: json_float32s(self.padding) },
            Field { key: "textStyle"@, value: json_text_style(self.text_style) },
        ]
    }

    /// The document: one member for each field that is set.
    pub open spec fn document(self) -> Json {
        Json::Object(emit(self.fields()))
    }
}

impl View for AxisLabel {
    type V = AxisLabelView;

    closed spec fn view(&self) -> AxisLabelView {
        AxisLabelView {
            show: self.show,
            distance: self.distance,
            font_size: self.font_size,
            color: color_of(self.color),
            formatter: formatter_of(self.formatter),
            rotate: self.rotate,
            interval: self.interval,
            inside: self.inside,
            padding: float32s_of(self.padding),
            text_style: match self.text_style {
                Some(text_style) => Some(text_style@),
                None => None,
            },
        }
    }
}

impl AxisLabel {
    /// An axis label with nothing set; its document is the empty object.
    pub fn new() -> (r: Self)
        ensures
            r@ == AxisLabelView::unset(),
            r@.document() == Json::Object(Seq::empty()),
    {
        proof {
            lemma_unset_record_is_empty(AxisLabelView::unset().fields());
        }
        AxisLabel {
            show: None,
            distance: None,
            font_size: None,
            color: None,
            formatter: None,
            rotate: None,
            interval: None,
            inside: None,
            padding: None,
            text_style: None,
        }
    }

    /// Whether the labels are drawn at all.
    pub fn show(self, show: bool) -> (r: Self)
        ensures
            r@ == (AxisLabelView { show: Some(show), ..self@ }),
            r.fields() == assign(self.fields(), 0, Json::Bool(show)),
    {
        let mut r = self;
        r.show = Some(show);
        proof {
            assert(r.fields() =~= assign(self.fields(), 0, Json::Bool(show)));
        }
        r
    }

    /// The distance between the labels and the axis line.
    pub fn distance(self, distance: Float64) -> (r: Self)
        ensures
            r@ == (AxisLabelView { distance: Some(distance), ..self@ }),
            r.fields() == assign(self.fields(), 1, Json::Float64(distance)),
    {
        let mut r = self;
        r.distance = Some(distance);
        proof {
            assert(r.fields() =~= assign(self.fields(), 1, Json::Float64(distance)));
        }
        r
    }

    pub fn font_size(self, font_size: Float64) -> (r: Self)
        ensures
            r@ == (AxisLabelView { font_size: Some(font_size), ..self@ }),
            r.fields() == assign(self.fields(), 2, Json::Float64(font_size)),
    {
        let mut r = self;
        r.font_size = Some(font_size);
        proof {
            assert(r.fields() =~= assign(self.fields(), 2, Json::Float64(font_size)));
        }
        r
    }

    pub fn color(self, color: Color) -> (r: Self)
        ensures
            r@ == (AxisLabelView { color: Some(color@), ..self@ }),
            r.fields() == assign(self.fields(), 3, Json::Str(color@)),
    {
        let ghost value = color@;
        let mut r = self;
        r.color = Some(color);
        proof {
            assert(r.fields() =~= assign(self.fields(), 3, Json::Str(value)));
        }
        r
    }

    pub fn formatter(self, formatter: Formatter) -> (r: Self)
        ensures
            r@ == (AxisLabelView { formatter: Some(formatter@), ..self@ }),
            r.fields() == assign(self.fields(), 4, Json::Str(formatter@)),
    {
        let ghost value = formatter@;
        let mut r = self;
        r.formatter = Some(formatter);
        proof {
            assert(r.fields() =~= assign(self.fields(), 4, Json::Str(value)));
        }
        r
    }

    /// The angle by which the labels are turned.
    pub fn rotate(self, rotate: Float64) -> (r: Self)
        ensures
            r@ == (AxisLabelView { rotate: Some(rotate), ..self@ }),
            r.fields() == assign(self.fields(), 5, Json::Float64(rotate)),
    {
        let mut r = self;
        r.rotate = Some(rotate);
        proof {
            assert(r.fields() =~= assign(self.fields(), 5, Json::Float64(rotate)));
        }
        r
    }

    /// How many ticks lie between two labels.
    pub fn interval(self, interval: Float64) -> (r: Self)
        ensures
            r@ == (AxisLabelView { interval: Some(interval), ..self@ }),
            r.fields() == assign(self.fields(), 6, Json::Float64(interval)),
    {
        let mut r = self;
        r.interval = Some(interval);
        proof {
            assert(r.fields() =~= assign(self.fields(), 6, Json::Float64(interval)));
        }
        r
    }

    /// Whether the labels are drawn inside the chart.
    pub fn inside(self, inside: bool) -> (r: Self)
        ensures
            r@ == (AxisLabelView { inside: Some(inside), ..self@ }),
            r.fields() == assign(self.fields(), 7, Json::Bool(inside)),
    {
        let mut r = self;
        r.inside = Some(inside);
        proof {
            assert(r.fields() =~= assign(self.fields(), 7, Json::Bool(inside)));
        }
        r
    }

    /// The space around a label, side by side; written as an array.
    pub fn padding(self, padding: Vec<Float32>) -> (r: Self)
        ensures
            r@ == (AxisLabelView { padding: Some(padding@), ..self@ }),
            r.fields() == assign(self.fields(), 8, float32s(padding@)),
    {
        let ghost value = padding@;
        let mut r = self;
        r.padding = Some(padding);
        proof {
            assert(r.fields() =~= assign(self.fields(), 8, float32s(value)));
        }
        r
    }

    pub fn text_style(self, text_style: TextStyle) -> (r: Self)
        ensures
            r@ == (AxisLabelView { text_style: Some(text_style@), ..self@ }),
            r.fields() == assign(self.fields(), 9, text_style@.document()),
    {
        let ghost value = text_style@;
        let mut r = self;
        r.text_style = Some(text_style);
        proof {
            assert(r.fields() =~= assign(self.fields(), 9, value.document()));
        }
        r
    }
}

impl Record for AxisLabel {
    open spec fn fields(&self) -> Seq<Field> {
        self@.fields()
    }

    proof fn lemma_keys(&self, other: &Self) {
        reveal_strlit("show");
        reveal_strlit("distance");
        reveal_strlit("fontSize");
        reveal_strlit("color");
        reveal_strlit("formatter");
        reveal_strlit("rotate");
        reveal_strlit("interval");
        reveal_strlit("inside");
        reveal_strlit("padding");
        reveal_strlit("textStyle");
        assert(is_lower_camel("show"@));
        assert(is_lower_camel("distance"@));
        assert(is_lower_camel("fontSize"@));
        assert(is_lower_camel("color"@));
        assert(is_lower_camel("formatter"@));
        assert(is_lower_camel("rotate"@));
        assert(is_lower_camel("interval"@));
        assert(is_lower_camel("inside"@));
        assert(is_lower_camel("padding"@));
        assert(is_lower_camel("textStyle"@));
        assert(distinct_keys(self.fields()));
    }

    fn document(&self) -> (doc: Value) {
        let mut w = ObjectWriter::new();
        w.field("show", opt_bool(self.show));
        w.field("distance", opt_float(self.distance));
        w.field("fontSize", opt_float(self.font_size));
        w.field("color", opt_color(&self.color));
        w.field("formatter", opt_formatter(&self.formatter));
        w.field("rotate", opt_float(self.rotate));
        w.field("interval", opt_float(self.interval));
        w.field("inside", opt_bool(self.inside));
        w.field("padding", opt_float32s(&self.padding));
        w.field("textStyle", opt_record(&self.text_style));
        assert(w.fields() =~= self.fields());
        w.finish()
    }
}

/// The document of an optional axis label, if there is one.
pub open spec fn json_axis_label(value: Option<AxisLabelView>) -> Option<Json> {
    match value {
        Some(axis_label) => Some(axis_label.document()),
        None => None,
    }
}

} // verus!
