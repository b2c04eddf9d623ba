use charming::component::graphic::{Animation, Graphics, Shape, Style};
use charming::component::Axis;
use charming::element::{AxisLabel, Color, TextStyle};
use charming::{Chart, Float32, Float64, Record, Value};

fn num(x: f64) -> Float64 {
    Float64::from_bits(x.to_bits())
}

fn single(x: f32) -> Float32 {
    Float32::from_bits(x.to_bits())
}

fn to_json(value: &Value) -> serde_json::Value {
    match value {
        Value::Bool(b) => serde_json::Value::Bool(*b),
        Value::UInt(n) => serde_json::Value::Number(serde_json::Number::from(*n)),
        Value::Float32(x) => serde_json::Value::from(f32::from_bits(x.to_bits())),
        Value::Float64(x) => serde_json::Value::from(f64::from_bits(x.to_bits())),
        Value::Str(s) => serde_json::Value::String(s.clone()),
        Value::Array(items) => serde_json::Value::Array(items.iter().map(to_json).collect()),
        Value::Object(members) => {
            let mut map = serde_json::Map::new();
            for member in members {
                assert!(
                    map.insert(member.key.clone(), to_json(&member.value)).is_none(),
                    "the key {} is written twice",
                    member.key
                );
            }
            serde_json::Value::Object(map)
        },
    }
}

fn parse(text: &str) -> serde_json::Value {
    serde_json::from_str(text).expect("the expected document is well formed")
}

#[test]
fn position_renders_as_a_json_pair() {
    let doc = Graphics::new().position(num(3.5), num(-2.0)).document();
    assert_eq!(to_json(&doc), parse(r#"{"position":[3.5,-2.0]}"#));
    assert_eq!(serde_json::to_string(&to_json(&doc)).unwrap(), r#"{"position":[3.5,-2.0]}"#);
}

#[test]
fn an_empty_builder_renders_as_an_empty_json_object() {
    assert_eq!(to_json(&Graphics::new().document()), parse("{}"));
    assert_eq!(to_json(&AxisLabel::new().document()), parse("{}"));
    assert_eq!(to_json(&Chart::new().document()), parse("{}"));
}

#[test]
fn a_full_graphic_as_json() {
    let doc = Graphics::new()
        .id("badge")
        .z(num(100.0))
        .shape(Shape::new().x(num(0.0)).y(num(0.0)).width(num(120.0)).height(num(40.0)))
        .position(num(10.0), num(20.0))
        .rotation(num(0.5))
        .scale(num(1.0), num(1.0))
        .style(Style::new().fill("#fff").stroke("#000").line_width(num(1.5)))
        .animation(Animation::new().duration(1000).easing("cubicOut").delay(50))
        .invisible(false)
        .document();
    assert_eq!(
        to_json(&doc),
        parse(
            r##"{
                "id": "badge",
                "z": 100.0,
                "shape": {"width": 120.0, "height": 40.0, "x": 0.0, "y": 0.0},
                "position": [10.0, 20.0],
                "rotation": 0.5,
                "scale": [1.0, 1.0],
                "style": {"fill": "#fff", "stroke": "#000", "lineWidth": 1.5},
                "animation": {"duration": 1000, "easing": "cubicOut", "delay": 50},
                "invisible": false
            }"##
        )
    );
}

#[test]
fn a_chart_as_json() {
    let chart = Chart::new()
        .x_axis(
            Axis::new().axis_label(
                AxisLabel::new()
                    .show(true)
                    .font_size(num(11.0))
                    .padding(vec![single(0.5), single(2.0)])
                    .text_style(TextStyle::new().color(Color::new("gray"))),
            ),
        )
        .graphic(Graphics::new().invisible(true));
    assert_eq!(
        to_json(&chart.document()),
        parse(
            r#"{
                "xAxis": [{"axisLabel": {
                    "show": true,
                    "fontSize": 11.0,
                    "padding": [0.5, 2.0],
                    "textStyle": {"color": "gray"}
                }}],
                "graphic": [{"invisible": true}]
            }"#
        )
    );
}

#[test]
fn the_same_chart_renders_to_the_same_bytes() {
    let build = || {
        Chart::new()
            .graphic(Graphics::new().id("a").z(num(1.0)))
            .graphic(Graphics::new().style(Style::new().line_width(num(3.0))))
    };
    let first = serde_json::to_string(&to_json(&build().document())).unwrap();
    let second = serde_json::to_string(&to_json(&build().document())).unwrap();
    assert_eq!(first, second);
}
