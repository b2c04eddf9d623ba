//! The chart: the root of a description, composed of components.

use crate::component::axis::{Axis, AxisView};
use crate::component::graphic::{Graphics, GraphicsView};
use crate::document::{Json, Value};
use crate::record::{
    assign, distinct_keys, emit, is_lower_camel, lemma_unset_record_is_empty, Field, Record,
};
use crate::writer::{json_list, opt_records, ObjectWriter};
use vstd::prelude::*;

verus! {

/// A chart: its axes and the graphics drawn over it.
pub struct Chart {
    x_axis: Vec<Axis>,
    y_axis: Vec<Axis>,
    graphic: Vec<Graphics>,
}

/// What a [`Chart`] holds: its components in the order they were added.
pub struct ChartView {
    pub x_axis: Seq<AxisView>,
    pub y_axis: Seq<AxisView>,
    pub graphic: Seq<GraphicsView>,
}

/// The documents of a list of axes, in order.
pub open spec fn axis_documents(axes: Seq<AxisView>) -> Seq<Json> {
    Seq::new(axes.len(), |i: int| axes[i].document())
}

/// The documents of a list of graphics, in order.
pub open spec fn graphic_documents(graphics: Seq<GraphicsView>) -> Seq<Json> {
    Seq::new(graphics.len(), |i: int| graphics[i].document())
}

impl ChartView {
    /// The chart with no component.
    pub open spec fn unset() -> Self {
        ChartView { x_axis: Seq::empty(), y_axis: Seq::empty(), graphic: Seq::empty() }
    }

    /// The fields in the order in which they are written, each under its key.
    pub open spec fn fields(self) -> Seq<Field> {
        seq![
            Field { key: "xAxis"@, value: json_list(axis_documents(self.x_axis)) },
            Field { key: "yAxis"@, value: json_list(axis_documents(self.y_axis)) },
            Field { key: "graphic"@, value: json_list(graphic_documents(self.graphic)) },
        ]
    }

    /// The document: one member for each list that has an item.
    pub open spec fn document(self) -> Json {
        Json::Object(emit(self.fields()))
    }
}

impl View for Chart {
    type V = ChartView;

    closed spec fn view(&self) -> ChartView {
        ChartView {
            x_axis: Seq::new(self.x_axis@.len(), |i: int| self.x_axis@[i]@),
            y_axis: Seq::new(self.y_axis@.len(), |i: int| self.y_axis@[i]@),
            graphic: Seq::new(self.graphic@.len(), |i: int| self.graphic@[i]@),
        }
    }
}

impl Chart {
    /// A chart with no component; its document is the empty object.
    pub fn new() -> (r: Self)
        ensures
            r@ == ChartView::unset(),
            r@.document() == Json::Object(Seq::empty()),
    {
        let r = Chart { x_axis: Vec::new(), y_axis: Vec::new(), graphic: Vec::new() };
        proof {
            assert(r@.x_axis =~= Seq::empty());
            assert(r@.y_axis =~= Seq::empty());
            assert(r@.graphic =~= Seq::empty());
            lemma_unset_record_is_empty(ChartView::unset().fields());
        }
        r
    }

    /// Adds a horizontal axis after those already there.
    pub fn x_axis(self, axis: Axis) -> (r: Self)
        ensures
            r@ == (ChartView { x_axis: self@.x_axis.push(axis@), ..self@ }),
            r.fields() == assign(
                self.fields(),
                0,
                Json::Array(axis_documents(self@.x_axis.push(axis@))),
            ),
    {
        let ghost added = self@.x_axis.push(axis@);
        let mut r = self;
        r.x_axis.push(axis);
        proof {
            assert(r@.x_axis =~= added);
            assert(r.fields() =~= assign(self.fields(), 0, Json::Array(axis_documents(added))));
        }
        r
    }

    /// Adds a vertical axis after those already there.
    pub fn y_axis(self, axis: Axis) -> (r: Self)
        ensures
            r@ == (ChartView { y_axis: self@.y_axis.push(axis@), ..self@ }),
            r.fields() == assign(
                self.fields(),
                1,
                Json::Array(axis_documents(self@.y_axis.push(axis@))),
            ),
    {
        let ghost added = self@.y_axis.push(axis@);
        let mut r = self;
        r.y_axis.push(axis);
        proof {
            assert(r@.y_axis =~= added);
            assert(r.fields() =~= assign(self.fields(), 1, Json::Array(axis_documents(added))));
        }
        r
    }

    /// Adds a graphic after those already there.
    pub fn graphic(self, graphic: Graphics) -> (r: Self)
        ensures
            r@ == (ChartView { graphic: self@.graphic.push(graphic@), ..self@ }),
            r.fields() == assign(
                self.fields(),
                2,
                Json::Array(graphic_documents(self@.graphic.push(graphic@))),
            ),
    {
        let ghost added = self@.graphic.push(graphic@);
        let mut r = self;
        r.graphic.push(graphic);
        proof {
            assert(r@.graphic =~= added);
            assert(r.fields() =~= assign(self.fields(), 2, Json::Array(graphic_documents(added))));
        }
        r
    }
}

impl Record for Chart {
    open spec fn fields(&self) -> Seq<Field> {
        self@.fields()
    }

    proof fn lemma_keys(&self, other: &Self) {
        reveal_strlit("xAxis");
        reveal_strlit("yAxis");
        reveal_strlit("graphic");
        assert(is_lower_camel("xAxis"@));
        assert(is_lower_camel("yAxis"@));
        assert(is_lower_camel("graphic"@));
        assert(distinct_keys(self.fields()));
    }

    fn document(&self) -> (doc: Value) {
        let mut w = ObjectWriter::new();
        let x_axis = opt_records(&self.x_axis);
        let y_axis = opt_records(&self.y_axis);
        let graphic = opt_records(&self.graphic);
        proof {
            assert(axis_documents(self@.x_axis) =~= Seq::new(
                self.x_axis@.len(),
                |i: int| Json::Object(emit(self.x_axis@[i].fields())),
            ));
            assert(axis_documents(self@.y_axis) =~= Seq::new(
                self.y_axis@.len(),
                |i: int| Json::Object(emit(self.y_axis@[i].fields())),
            ));
            assert(graphic_documents(self@.graphic) =~= Seq::new(
                self.graphic@.len(),
                |i: int| Json::Object(emit(self.graphic@[i].fields())),
            ));
        }
        w.field("xAxis", x_axis);
        w.field("yAxis", y_axis);
        w.field("graphic", graphic);
        assert(w.fields() =~= self.fields());
        w.finish()
    }
}

} // verus!
