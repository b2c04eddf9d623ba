use charming::{Animation, ChartResize, Easing, Member, Record, Theme, Value};

fn text(s: &str) -> Value {
    Value::Str(s.to_string())
}

fn member(key: &str, value: Value) -> Member {
    Member { key: key.to_string(), value }
}

fn all_easings() -> Vec<(Easing, &'static str)> {
    vec![
        (Easing::Linear, "linear"),
        (Easing::QuadraticIn, "quadraticIn"),
        (Easing::QuadraticOut, "quadraticOut"),
        (Easing::QuadraticInOut, "quadraticInOut"),
        (Easing::CubicIn, "cubicIn"),
        (Easing::CubicOut, "cubicOut"),
        (Easing::CubicInOut, "cubicInOut"),
        (Easing::QuarticIn, "quarticIn"),
        (Easing::QuarticOut, "quarticOut"),
        (Easing::QuarticInOut, "quarticInOut"),
        (Easing::QuinticIn, "quinticIn"),
        (Easing::QuinticOut, "quinticOut"),
        (Easing::QuinticInOut, "quinticInOut"),
        (Easing::SinusoidalIn, "sinusoidalIn"),
        (Easing::SinusoidalOut, "sinusoidalOut"),
        (Easing::SinusoidalInOut, "sinusoidalInOut"),
        (Easing::ExponentialIn, "exponentialIn"),
        (Easing::ExponentialOut, "exponentialOut"),
        (Easing::ExponentialInOut, "exponentialInOut"),
        (Easing::CircularIn, "circularIn"),
        (Easing::CircularOut, "circularOut"),
        (Easing::CircularInOut, "circularInOut"),
        (Easing::ElasticIn, "elasticIn"),
        (Easing::ElasticOut, "elasticOut"),
        (Easing::ElasticInOut, "elasticInOut"),
        (Easing::BackIn, "backIn"),
        (Easing::BackOut, "backOut"),
        (Easing::BackInOut, "backInOut"),
        (Easing::BounceIn, "bounceIn"),
        (Easing::BounceOut, "bounceOut"),
        (Easing::BounceInOut, "bounceInOut"),
    ]
}

#[test]
fn each_easing_has_its_fixed_name() {
    let all = all_easings();
    assert_eq!(all.len(), 31);
    for (easing, name) in all {
        assert_eq!(easing.as_str(), name);
        assert_eq!(easing.document(), text(name));
    }
}

#[test]
fn no_two_easings_share_a_name() {
    let all = all_easings();
    for (i, (a, _)) in all.iter().enumerate() {
        for (j, (b, _)) in all.iter().enumerate() {
            assert_eq!(a.as_str() == b.as_str(), i == j, "{a:?} {b:?}");
            assert_eq!(a == b, i == j);
        }
    }
}

#[test]
fn quadratic_in_out_is_camel_cased() {
    assert_eq!(Easing::QuadraticInOut.as_str(), "quadraticInOut");
}

#[test]
fn the_default_easing_is_linear() {
    assert_eq!(Easing::default(), Easing::Linear);
    assert_eq!(Easing::default().as_str(), "linear");
}

#[test]
fn the_default_animation() {
    let animation = Animation::default();
    assert_eq!(animation.duration, 100);
    assert_eq!(animation.easing, Some(Easing::Linear));
}

#[test]
fn new_animation_without_easing_is_linear() {
    let animation = Animation::new(250, None);
    assert_eq!(animation.duration, 250);
    assert_eq!(animation.easing, Some(Easing::Linear));
    assert_eq!(
        animation.document(),
        Value::Object(vec![member("duration", Value::UInt(250)), member("easing", text("linear"))])
    );
}

#[test]
fn new_animation_keeps_the_easing_given() {
    let animation = Animation::new(0, Some(Easing::BounceOut));
    assert_eq!(animation.duration, 0);
    assert_eq!(animation.easing, Some(Easing::BounceOut));
    assert_eq!(
        animation.document(),
        Value::Object(vec![member("duration", Value::UInt(0)), member("easing", text("bounceOut"))])
    );
}

#[test]
fn an_animation_whose_easing_was_taken_away_has_no_easing_key() {
    let animation = Animation { duration: 7, easing: None };
    let doc = animation.document();
    assert_eq!(doc, Value::Object(vec![member("duration", Value::UInt(7))]));
    assert_eq!(doc.get("easing"), None);
}

#[test]
fn the_largest_duration_is_kept() {
    let animation = Animation::new(u32::MAX, None);
    assert_eq!(animation.document().get("duration"), Some(&Value::UInt(4294967295)));
}

#[test]
fn resize_descriptor_document() {
    let plain = ChartResize::new(640, 480, true, None);
    assert_eq!(
        plain.document(),
        Value::Object(vec![
            member("width", Value::UInt(640)),
            member("height", Value::UInt(480)),
            member("silent", Value::Bool(true)),
        ])
    );
    let animated = ChartResize::new(0, 0, false, Some(Animation::default()));
    assert_eq!(
        animated.document(),
        Value::Object(vec![
            member("width", Value::UInt(0)),
            member("height", Value::UInt(0)),
            member("silent", Value::Bool(false)),
            member(
                "animation",
                Value::Object(vec![
                    member("duration", Value::UInt(100)),
                    member("easing", text("linear")),
                ])
            ),
        ])
    );
}

#[test]
fn theme_names() {
    assert_eq!(Theme::Default.to_str(), "echarts");
    assert_eq!(Theme::Dark.to_str(), "dark");
    assert_eq!(Theme::Vintage.to_str(), "vintage");
    assert_eq!(Theme::Westeros.to_str(), "westeros");
    assert_eq!(Theme::Essos.to_str(), "essos");
    assert_eq!(Theme::Wonderland.to_str(), "wonderland");
    assert_eq!(Theme::Walden.to_str(), "walden");
    assert_eq!(Theme::Chalk.to_str(), "chalk");
    assert_eq!(Theme::Infographic.to_str(), "infographic");
    assert_eq!(Theme::Macarons.to_str(), "macarons");
    assert_eq!(Theme::Roma.to_str(), "roma");
    assert_eq!(Theme::Shine.to_str(), "shine");
    assert_eq!(Theme::PurplePassion.to_str(), "purple-passion");
    assert_eq!(Theme::Halloween.to_str(), "halloween");
}
