//! Colors.

use crate::document::{Json, Value};
use crate::writer::{json_text, view_opt};
use vstd::prelude::*;

verus! {

/// A color as the engine reads it: a name such as `red`, or a code such as
/// `#5470c6`.
pub struct Color {
    value: String,
}

impl View for Color {
    type V = Seq<char>;

    closed spec fn view(&self) -> Seq<char> {
        self.value@
    }
}

impl Color {
    /// The color with the given name or code.
    pub fn new(value: &str) -> (r: Self)
        ensures
            r@ == value@,
    {
        Color { value: value.to_owned() }
    }

    /// A color is written as its text.
    pub fn document(&self) -> (doc: Value)
        ensures
            doc@ == Json::Str(self@),
    {
        Value::Str(self.value.clone())
    }
}

/// The characters of an optional color.
pub open spec fn color_of(value: Option<Color>) -> Option<Seq<char>> {
    match value {
        Some(color) => Some(color@),
        None => None,
    }
}

/// The document of an optional color, if there is a color.
pub fn opt_color(value: &Option<Color>) -> (r: Option<Value>)
    ensures
        view_opt(r) == json_text(color_of(*value)),
{
    match value {
        Some(color) => Some(color.document()),
        None => None,
    }
}

} // verus!
