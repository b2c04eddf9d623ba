//! Text styles.

use crate::document::{Json, Value};
use crate::element::color::{color_of, opt_color, Color};
use crate::number::Float64;
use crate::record::{
    assign, distinct_keys, emit, is_lower_camel, lemma_unset_record_is_empty, Field, Record,
};
use crate::writer::{json_float, json_text, opt_float, opt_text, text_of, ObjectWriter};
use vstd::prelude::*;

verus! {

/// How a piece of text is set.
pub struct TextStyle {
    color: Option<Color>,
    font_style: Option<String>,
    font_weight: Option<String>,
    font_family: Option<String>,
    font_size: Option<Float64>,
}

/// What a [`TextStyle`] holds.
pub struct TextStyleView {
    pub color: Option<Seq<char>>,
    pub font_style: Option<Seq<char>>,
    pub font_weight: Option<Seq<char>>,
    pub font_family: Option<Seq<char>>,
    pub font_size: Option<Float64>,
}

impl TextStyleView {
    /// The record with no field set.
    pub open spec fn unset() -> Self {
        TextStyleView {
            color: None,
            font_style: None,
            font_weight: None,
            font_family: None,
            font_size: None,
        }
    }

    /// The fields in the order in which they are written, each under its key.
    pub open spec fn fields(self) -> Seq<Field> {
        seq![
            Field { key: "color"@, value: json_text(self.color) },
            Field { key: "fontStyle"@, value: json_text(self.font_style) },
            Field { key: "fontWeight"@, value: json_text(self.font_weight) },
            Field { key: "fontFamily"@, value: json_text(self.font_family) },
            Field { key: "fontSize"@, value: json_float(self.font_size) },
        ]
    }

    /// The document: one member for each field that is set.
    pub open spec fn document(self) -> Json {
        Json::Object(emit(self.fields()))
    }
}

impl View for TextStyle {
    type V = TextStyleView;

    closed spec fn view(&self) -> TextStyleView {
        TextStyleView {
            color: color_of(self.color),
            font_style: text_of(self.font_style),
            font_weight: text_of(self.font_weight),
            font_family: text_of(self.font_family),
            font_size: self.font_size,
        }
    }
}

impl TextStyle {
    /// A text style with nothing set; its document is the empty object.
    pub fn new() -> (r: Self)
        ensures
            r@ == TextStyleView::unset(),
            r@.document() == Json::Object(Seq::empty()),
    {
        proof {
            lemma_unset_record_is_empty(TextStyleView::unset().fields());
        }
        TextStyle {
            color: None,
            font_style: None,
            font_weight: None,
            font_family: None,
            font_size: None,
        }
    }

    pub fn color(self, color: Color) -> (r: Self)
        ensures
            r@ == (TextStyleView { color: Some(color@), ..self@ }),
            r.fields() == assign(self.fields(), 0, Json::Str(color@)),
    {
        let ghost value = color@;
        let mut r = self;
        r.color = Some(color);
        proof {
            assert(r.fields() =~= assign(self.fields(), 0, Json::Str(value)));
        }
        r
    }

    pub fn font_style(self, font_style: &str) -> (r: Self)
        ensures
            r@ == (TextStyleView { font_style: Some(font_style@), ..self@ }),
            r.fields() == assign(self.fields(), 1, Json::Str(font_style@)),
    {
        let mut r = self;
        r.font_style = Some(font_style.to_owned());
        proof {
            assert(r.fields() =~= assign(self.fields(), 1, Json::Str(font_style@)));
        }
        r
    }

    pub fn font_weight(self, font_weight: &str) -> (r: Self)
        ensures
            r@ == (TextStyleView { font_weight: Some(font_weight@), ..self@ }),
            r.fields() == assign(self.fields(), 2, Json::Str(font_weight@)),
    {
        let mut r = self;
        r.font_weight = Some(font_weight.to_owned());
        proof {
            assert(r.fields() =~= assign(self.fields(), 2, Json::Str(font_weight@)));
        }
        r
    }

    pub fn font_family(self, font_family: &str) -> (r: Self)
        ensures
            r@ == (TextStyleView { font_family: Some(font_family@), ..self@ }),
            r.fields() == assign(self.fields(), 3, Json::Str(font_family@)),
    {
        let mut r = self;
        r.font_family = Some(font_family.to_owned());
        proof {
            assert(r.fields() =~= assign(self.fields(), 3, Json::Str(font_family@)));
        }
        r
    }

    pub fn font_size(self, font_size: Float64) -> (r: Self)
        ensures
            r@ == (TextStyleView { font_size: Some(font_size), ..self@ }),
            r.fields() == assign(self.fields(), 4, Json::Float64(font_size)),
    {
        let mut r = self;
        r.font_size = Some(font_size);
        proof {
            assert(r.fields() =~= assign(self.fields(), 4, Json::Float64(font_size)));
        }
        r
    }
}

impl Record for TextStyle {
    open spec fn fields(&self) -> Seq<Field> {
        self@.fields()
    }

    proof fn lemma_keys(&self, other: &Self) {
        reveal_strlit("color");
        reveal_strlit("fontStyle");
        reveal_strlit("fontWeight");
        reveal_strlit("fontFamily");
        reveal_strlit("fontSize");
        assert(is_lower_camel("color"@));
        assert(is_lower_camel("fontStyle"@));
        assert(is_lower_camel("fontWeight"@));
        assert(is_lower_camel("fontFamily"@));
        assert(is_lower_camel("fontSize"@));
        assert("fontWeight"@[4] == 'W' && "fontFamily"@[4] == 'F');
        assert(distinct_keys(self.fields()));
    }

    fn document(&self) -> (doc: Value) {
        let mut w = ObjectWriter::new();
        w.field("color", opt_color(&self.color));
        w.field("fontStyle", opt_text(&self.font_style));
        w.field("fontWeight", opt_text(&self.font_weight));
        w.field("fontFamily", opt_text(&self.font_family));
        w.field("fontSize", opt_float(self.font_size));
        assert(w.fields() =~= self.fields());
        w.finish()
    }
}

/// The document of an optional text style, if there is one.
pub open spec fn json_text_style(value: Option<TextStyleView>) -> Option<Json> {
    match value {
        Some(text_style) => Some(text_style.document()),
        None => None,
    }
}

} // verus!
