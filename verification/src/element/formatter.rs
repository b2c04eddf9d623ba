//! Label formatters.

use crate::document::{Json, Value};
use crate::writer::{json_text, view_opt};
use vstd::prelude::*;

verus! {

/// A template by which the engine formats a value, such as `{value} kg`.
pub struct Formatter {
    template: String,
}

impl View for Formatter {
    type V = Seq<char>;

    closed spec fn view(&self) -> Seq<char> {
        self.template@
    }
}

impl Formatter {
    /// The formatter with the given template.
    pub fn new(template: &str) -> (r: Self)
        ensures
            r@ == template@,
    {
        Formatter { template: template.to_owned() }
    }

    /// A formatter is written as its template.
    pub fn document(&self) -> (doc: Value)
        ensures
            doc@ == Json::Str(self@),
    {
        Value::Str(self.template.clone())
    }
}

/// The template of an optional formatter.
pub open spec fn formatter_of(value: Option<Formatter>) -> Option<Seq<char>> {
    match value {
        Some(formatter) => Some(formatter@),
        None => None,
    }
}

/// The document of an optional formatter, if there is a formatter.
pub fn opt_formatter(value: &Option<Formatter>) -> (r: Option<Value>)
    ensures
        view_opt(r) == json_text(formatter_of(*value)),
{
    match value {
        Some(formatter) => Some(formatter.document()),
        None => None,
    }
}

} // verus!
