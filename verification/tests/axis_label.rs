use charming::component::Axis;
use charming::element::{AxisLabel, Color, Formatter, TextStyle};
use charming::{Chart, Float32, Float64, Member, Record, Value};

fn num(x: f64) -> Float64 {
    Float64::from_bits(x.to_bits())
}

fn float(x: f64) -> Value {
    Value::Float64(num(x))
}

fn single(x: f32) -> Float32 {
    Float32::from_bits(x.to_bits())
}

fn text(s: &str) -> Value {
    Value::Str(s.to_string())
}

fn member(key: &str, value: Value) -> Member {
    Member { key: key.to_string(), value }
}

#[test]
fn new_axis_label_is_the_empty_object() {
    assert_eq!(AxisLabel::new().document(), Value::Object(vec![]));
}

#[test]
fn every_axis_label_field_is_written_under_its_key() {
    let doc = AxisLabel::new()
        .show(true)
        .distance(num(8.0))
        .font_size(num(12.0))
        .color(Color::new("#333"))
        .formatter(Formatter::new("{value} kg"))
        .rotate(num(45.0))
        .interval(num(2.0))
        .inside(false)
        .padding(vec![single(1.0), single(2.0), single(3.0), single(4.0)])
        .text_style(TextStyle::new().font_family("serif"))
        .document();
    assert_eq!(
        doc,
        Value::Object(vec![
            member("show", Value::Bool(true)),
            member("distance", float(8.0)),
            member("fontSize", float(12.0)),
            member("color", text("#333")),
            member("formatter", text("{value} kg")),
            member("rotate", float(45.0)),
            member("interval", float(2.0)),
            member("inside", Value::Bool(false)),
            member(
                "padding",
                Value::Array(vec![
                    Value::Float32(single(1.0)),
                    Value::Float32(single(2.0)),
                    Value::Float32(single(3.0)),
                    Value::Float32(single(4.0)),
                ])
            ),
            member("textStyle", Value::Object(vec![member("fontFamily", text("serif"))])),
        ])
    );
}

#[test]
fn unset_axis_label_fields_have_no_key() {
    let doc = AxisLabel::new().rotate(num(90.0)).document();
    assert_eq!(doc, Value::Object(vec![member("rotate", float(90.0))]));
    for key in [
        "show", "distance", "fontSize", "color", "formatter", "interval", "inside", "padding",
        "textStyle",
    ] {
        assert_eq!(doc.get(key), None, "{key}");
    }
}

#[test]
fn an_empty_padding_is_written_as_an_empty_array() {
    let doc = AxisLabel::new().padding(vec![]).document();
    assert_eq!(doc, Value::Object(vec![member("padding", Value::Array(vec![]))]));
}

#[test]
fn false_and_zero_are_written() {
    let doc = AxisLabel::new().show(false).inside(false).distance(num(0.0)).document();
    assert_eq!(doc.get("show"), Some(&Value::Bool(false)));
    assert_eq!(doc.get("inside"), Some(&Value::Bool(false)));
    assert_eq!(doc.get("distance"), Some(&float(0.0)));
}

#[test]
fn font_size_and_text_style_are_written_in_camel_case() {
    let doc = AxisLabel::new().font_size(num(9.0)).text_style(TextStyle::new()).document();
    assert_eq!(doc.get("fontSize"), Some(&float(9.0)));
    assert_eq!(doc.get("font_size"), None);
    assert_eq!(doc.get("textStyle"), Some(&Value::Object(vec![])));
    assert_eq!(doc.get("text_style"), None);
}

#[test]
fn axis_label_setters_commute() {
    let a = AxisLabel::new().show(true).rotate(num(1.0)).color(Color::new("red")).document();
    let b = AxisLabel::new().color(Color::new("red")).rotate(num(1.0)).show(true).document();
    assert_eq!(a, b);
}

#[test]
fn text_style_fields() {
    let doc = TextStyle::new()
        .color(Color::new("blue"))
        .font_style("italic")
        .font_weight("bold")
        .font_family("monospace")
        .font_size(num(14.0))
        .document();
    assert_eq!(
        doc,
        Value::Object(vec![
            member("color", text("blue")),
            member("fontStyle", text("italic")),
            member("fontWeight", text("bold")),
            member("fontFamily", text("monospace")),
            member("fontSize", float(14.0)),
        ])
    );
    assert_eq!(TextStyle::new().document(), Value::Object(vec![]));
}

#[test]
fn color_and_formatter_are_written_as_text() {
    assert_eq!(Color::new("#5470c6").document(), text("#5470c6"));
    assert_eq!(Formatter::new("{b}: {c}").document(), text("{b}: {c}"));
}

#[test]
fn new_chart_is_the_empty_object() {
    assert_eq!(Chart::new().document(), Value::Object(vec![]));
}

#[test]
fn a_chart_nests_the_documents_of_its_components() {
    let chart = Chart::new()
        .x_axis(Axis::new().axis_label(AxisLabel::new().rotate(num(30.0))))
        .y_axis(Axis::new())
        .graphic(charming::component::Graphics::new().id("a"))
        .graphic(charming::component::Graphics::new().id("b"));
    assert_eq!(
        chart.document(),
        Value::Object(vec![
            member(
                "xAxis",
                Value::Array(vec![Value::Object(vec![member(
                    "axisLabel",
                    Value::Object(vec![member("rotate", float(30.0))])
                )])])
            ),
            member("yAxis", Value::Array(vec![Value::Object(vec![])])),
            member(
                "graphic",
                Value::Array(vec![
                    Value::Object(vec![member("id", text("a"))]),
                    Value::Object(vec![member("id", text("b"))]),
                ])
            ),
        ])
    );
}

#[test]
fn a_chart_without_graphics_has_no_graphic_key() {
    let chart = Chart::new().x_axis(Axis::new());
    let doc = chart.document();
    assert_eq!(doc.get("graphic"), None);
    assert_eq!(doc.get("yAxis"), None);
    assert_eq!(doc.get("xAxis"), Some(&Value::Array(vec![Value::Object(vec![])])));
}

#[test]
fn get_finds_nothing_in_what_is_not_an_object() {
    assert_eq!(Value::Bool(true).get("a"), None);
    assert_eq!(Value::Array(vec![]).get("a"), None);
    assert_eq!(text("a").get("a"), None);
}

#[test]
fn get_returns_the_first_member_with_the_key() {
    let doc = Value::Object(vec![
        member("a", Value::UInt(1)),
        member("b", Value::UInt(2)),
        member("a", Value::UInt(3)),
    ]);
    assert_eq!(doc.get("a"), Some(&Value::UInt(1)));
    assert_eq!(doc.get("b"), Some(&Value::UInt(2)));
    assert_eq!(doc.get("c"), None);
    assert_eq!(doc.get(""), None);
}
