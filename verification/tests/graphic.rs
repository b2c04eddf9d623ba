use charming::component::graphic::{Animation, Graphics, Shape, Style};
use charming::{Float64, Member, Record, Value};

fn num(x: f64) -> Float64 {
    Float64::from_bits(x.to_bits())
}

fn float(x: f64) -> Value {
    Value::Float64(num(x))
}

fn text(s: &str) -> Value {
    Value::Str(s.to_string())
}

fn member(key: &str, value: Value) -> Member {
    Member { key: key.to_string(), value }
}

fn keys(doc: &Value) -> Vec<String> {
    match doc {
        Value::Object(members) => members.iter().map(|m| m.key.clone()).collect(),
        _ => panic!("not an object"),
    }
}

#[test]
fn new_graphics_is_the_empty_object() {
    assert_eq!(Graphics::new().document(), Value::Object(vec![]));
}

#[test]
fn new_shape_style_and_animation_are_empty_objects() {
    assert_eq!(Shape::new().document(), Value::Object(vec![]));
    assert_eq!(Style::new().document(), Value::Object(vec![]));
    assert_eq!(Animation::new().document(), Value::Object(vec![]));
}

#[test]
fn unset_fields_have_no_key() {
    let doc = Graphics::new().id("logo").document();
    assert_eq!(doc, Value::Object(vec![member("id", text("logo"))]));
    for key in ["z", "shape", "position", "rotation", "scale", "style", "animation", "invisible"] {
        assert_eq!(doc.get(key), None, "{key}");
    }
}

#[test]
fn every_graphics_field_is_written_under_its_key() {
    let doc = Graphics::new()
        .id("logo")
        .z(num(10.0))
        .shape(Shape::new().r(num(4.0)))
        .position(num(3.5), num(-2.0))
        .rotation(num(0.25))
        .scale(num(2.0), num(0.5))
        .style(Style::new().fill("red"))
        .animation(Animation::new().duration(300))
        .invisible(true)
        .document();
    assert_eq!(
        doc,
        Value::Object(vec![
            member("id", text("logo")),
            member("z", float(10.0)),
            member("shape", Value::Object(vec![member("r", float(4.0))])),
            member("position", Value::Array(vec![float(3.5), float(-2.0)])),
            member("rotation", float(0.25)),
            member("scale", Value::Array(vec![float(2.0), float(0.5)])),
            member("style", Value::Object(vec![member("fill", text("red"))])),
            member("animation", Value::Object(vec![member("duration", Value::UInt(300))])),
            member("invisible", Value::Bool(true)),
        ])
    );
}

#[test]
fn falsy_values_are_written() {
    let doc = Graphics::new()
        .id("")
        .z(num(0.0))
        .rotation(num(-0.0))
        .invisible(false)
        .animation(Animation::new().duration(0).delay(0).easing(""))
        .document();
    assert_eq!(doc.get("id"), Some(&text("")));
    assert_eq!(doc.get("z"), Some(&float(0.0)));
    assert_eq!(doc.get("rotation"), Some(&float(-0.0)));
    assert_eq!(doc.get("invisible"), Some(&Value::Bool(false)));
    assert_eq!(
        doc.get("animation"),
        Some(&Value::Object(vec![
            member("duration", Value::UInt(0)),
            member("easing", text("")),
            member("delay", Value::UInt(0)),
        ]))
    );
}

#[test]
fn position_is_an_ordered_pair() {
    let doc = Graphics::new().position(num(3.5), num(-2.0)).document();
    assert_eq!(doc.get("position"), Some(&Value::Array(vec![float(3.5), float(-2.0)])));
    assert_ne!(doc.get("position"), Some(&Value::Array(vec![float(-2.0), float(3.5)])));
    match doc.get("position") {
        Some(Value::Array(items)) => assert_eq!(items.len(), 2),
        other => panic!("position is not an array: {other:?}"),
    }
}

#[test]
fn scale_is_an_ordered_pair() {
    let doc = Graphics::new().scale(num(1.5), num(2.5)).document();
    assert_eq!(doc.get("scale"), Some(&Value::Array(vec![float(1.5), float(2.5)])));
}

#[test]
fn line_width_is_written_in_camel_case() {
    let doc = Style::new().line_width(num(2.0)).document();
    assert_eq!(keys(&doc), vec!["lineWidth".to_string()]);
    assert_eq!(doc.get("lineWidth"), Some(&float(2.0)));
    assert_eq!(doc.get("line_width"), None);
    assert_eq!(doc.get("LineWidth"), None);
}

#[test]
fn style_fields_keep_their_order_whatever_the_order_of_the_setters() {
    let a = Style::new().fill("red").stroke("blue").line_width(num(1.0)).document();
    let b = Style::new().line_width(num(1.0)).stroke("blue").fill("red").document();
    let c = Style::new().stroke("blue").line_width(num(1.0)).fill("red").document();
    assert_eq!(a, b);
    assert_eq!(a, c);
    assert_eq!(keys(&a), vec!["fill".to_string(), "stroke".to_string(), "lineWidth".to_string()]);
}

#[test]
fn graphics_setters_commute() {
    let a = Graphics::new().invisible(false).z(num(1.0)).id("a").document();
    let b = Graphics::new().id("a").z(num(1.0)).invisible(false).document();
    assert_eq!(a, b);
    assert_eq!(keys(&a), vec!["id".to_string(), "z".to_string(), "invisible".to_string()]);
}

#[test]
fn the_last_value_set_wins() {
    let doc = Graphics::new().z(num(1.0)).z(num(2.0)).id("a").id("b").document();
    assert_eq!(doc, Value::Object(vec![member("id", text("b")), member("z", float(2.0))]));
}

#[test]
fn a_setter_changes_no_other_field() {
    let before = Graphics::new().id("a").rotation(num(1.0));
    let after = Graphics::new().id("a").rotation(num(1.0)).invisible(true);
    let before = before.document();
    let after = after.document();
    assert_eq!(after.get("id"), before.get("id"));
    assert_eq!(after.get("rotation"), before.get("rotation"));
    assert_eq!(before.get("invisible"), None);
    assert_eq!(after.get("invisible"), Some(&Value::Bool(true)));
}

#[test]
fn shape_of_a_rectangle() {
    let doc = Shape::new().x(num(1.0)).y(num(2.0)).width(num(30.0)).height(num(40.0)).document();
    assert_eq!(
        doc,
        Value::Object(vec![
            member("width", float(30.0)),
            member("height", float(40.0)),
            member("x", float(1.0)),
            member("y", float(2.0)),
        ])
    );
}

#[test]
fn shape_of_a_circle() {
    let doc = Shape::new().r(num(12.5)).document();
    assert_eq!(doc, Value::Object(vec![member("r", float(12.5))]));
}

#[test]
fn values_pass_through_unchanged() {
    let doc = Graphics::new()
        .z(num(-1e300))
        .rotation(num(f64::INFINITY))
        .animation(Animation::new().duration(u64::MAX))
        .document();
    assert_eq!(doc.get("z"), Some(&float(-1e300)));
    assert_eq!(doc.get("rotation"), Some(&float(f64::INFINITY)));
    assert_eq!(
        doc.get("animation"),
        Some(&Value::Object(vec![member("duration", Value::UInt(u64::MAX))]))
    );
}

#[test]
fn a_number_keeps_its_bits() {
    let nan = f64::from_bits(0x7ff8_0000_0000_1234);
    assert_eq!(num(nan).to_bits(), 0x7ff8_0000_0000_1234);
    assert_eq!(f64::from_bits(num(3.5).to_bits()), 3.5);
    assert_ne!(num(0.0), num(-0.0));
}

#[test]
fn the_same_builder_gives_the_same_document_twice() {
    let g = Graphics::new().id("a").position(num(1.0), num(2.0));
    assert_eq!(g.document(), g.document());
}
