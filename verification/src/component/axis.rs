//! Axes.

use crate::document::{Json, Value};
use crate::element::axis_label::{json_axis_label, AxisLabel, AxisLabelView};
use crate::record::{
    assign, distinct_keys, emit, is_lower_camel, lemma_unset_record_is_empty, Field, Record,
};
use crate::writer::{opt_record, ObjectWriter};
use vstd::prelude::*;

verus! {

/// One axis of a chart.
pub struct Axis {
    axis_label: Option<AxisLabel>,
}

/// What an [`Axis`] holds.
pub struct AxisView {
    pub axis_label: Option<AxisLabelView>,
}

impl AxisView {
    /// The record with no field set.
    pub open spec fn unset() -> Self {
        AxisView { axis_label: None }
    }

    /// The fields in the order in which they are written, each under its key.
    pub open spec fn fields(self) -> Seq<Field> {
        seq![Field { key: "axisLabel"@, value: json_axis_label(self.axis_label) }]
    }

    /// The document: one member for each field that is set.
    pub open spec fn document(self) -> Json {
        Json::Object(emit(self.fields()))
    }
}

impl View for Axis {
    type V = AxisView;

    closed spec fn view(&self) -> AxisView {
        AxisView {
            axis_label: match self.axis_label {
                Some(axis_label) => Some(axis_label@),
                None => None,
            },
        }
    }
}

impl Axis {
    /// An axis with nothing set; its document is the empty object.
    pub fn new() -> (r: Self)
        ensures
            r@ == AxisView::unset(),
            r@.document() == Json::Object(Seq::empty()),
    {
        proof {
            lemma_unset_record_is_empty(AxisView::unset().fields());
        }
        Axis { axis_label: None }
    }

    /// How the labels along the axis are drawn.
    pub fn axis_label(self, axis_label: AxisLabel) -> (r: Self)
        ensures
            r@ == (AxisView { axis_label: Some(axis_label@), ..self@ }),
            r.fields() == assign(self.fields(), 0, axis_label@.document()),
    {
        let ghost value = axis_label@;
        let mut r = self;
        r.axis_label = Some(axis_label);
        proof {
            assert(r.fields() =~= assign(self.fields(), 0, value.document()));
        }
        r
    }
}

impl Record for Axis {
    open spec fn fields(&self) -> Seq<Field> {
        self@.fields()
    }

    proof fn lemma_keys(&self, other: &Self) {
        reveal_strlit("axisLabel");
        assert(is_lower_camel("axisLabel"@));
        assert(distinct_keys(self.fields()));
    }

    fn document(&self) -> (doc: Value) {
        let mut w = ObjectWriter::new();
        w.field("axisLabel", opt_record(&self.axis_label));
        assert(w.fields() =~= self.fields());
        w.finish()
    }
}

} // verus!
