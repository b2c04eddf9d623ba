use charming::component::graphic::Graphics;
use charming::{
    add_resize_listener, Chart, ChartResize, EchartsError, EngineCall, Float64, HostLookup,
    ImageFormat, ImageOptions, Member, Phase, Record, Theme, Value, WasmRenderer,
};

fn num(x: f64) -> Float64 {
    Float64::from_bits(x.to_bits())
}

fn text(s: &str) -> Value {
    Value::Str(s.to_string())
}

fn member(key: &str, value: Value) -> Member {
    Member { key: key.to_string(), value }
}

fn sample_chart() -> Chart {
    Chart::new().graphic(Graphics::new().id("logo").position(num(3.5), num(-2.0)))
}

fn other_chart() -> Chart {
    Chart::new().graphic(Graphics::new().id("other"))
}

fn attach() -> charming::Echarts {
    let (echarts, _) = WasmRenderer::new(800, 600)
        .render("chart", HostLookup::Found, &sample_chart())
        .expect("the element was found");
    echarts
}

#[test]
fn render_creates_the_target_then_sets_the_option() {
    let chart = sample_chart();
    let (echarts, calls) = WasmRenderer::new(800, 600)
        .theme(Theme::Dark)
        .render("chart", HostLookup::Found, &chart)
        .expect("the element was found");
    assert_eq!(
        calls,
        vec![
            EngineCall::Init {
                theme: "dark".to_string(),
                size: Value::Object(vec![
                    member("width", Value::UInt(800)),
                    member("height", Value::UInt(600)),
                ]),
            },
            EngineCall::SetOption { option: chart.document() },
        ]
    );
    assert_eq!(echarts.phase(), Phase::Attached);
    assert!(echarts.is_live());
}

#[test]
fn render_uses_the_default_theme_unless_told() {
    let (_, calls) = WasmRenderer::new(1, 2)
        .render("chart", HostLookup::Found, &Chart::new())
        .expect("the element was found");
    match &calls[0] {
        EngineCall::Init { theme, .. } => assert_eq!(theme, "echarts"),
        other => panic!("not an init call: {other:?}"),
    }
    assert_eq!(calls[1], EngineCall::SetOption { option: Value::Object(vec![]) });
}

#[test]
fn render_leaves_out_a_measure_that_is_not_given() {
    let chart = Chart::new();
    let size_of = |renderer: WasmRenderer| {
        let (_, mut calls) =
            renderer.render("chart", HostLookup::Found, &chart).expect("the element was found");
        match calls.remove(0) {
            EngineCall::Init { size, .. } => size,
            other => panic!("not an init call: {other:?}"),
        }
    };
    assert_eq!(size_of(WasmRenderer::new_opt(None, None)), Value::Object(vec![]));
    assert_eq!(
        size_of(WasmRenderer::new_opt(Some(300), None)),
        Value::Object(vec![member("width", Value::UInt(300))])
    );
    assert_eq!(
        size_of(WasmRenderer::new_opt(None, Some(0))),
        Value::Object(vec![member("height", Value::UInt(0))])
    );
    assert_eq!(
        size_of(WasmRenderer::new_opt(Some(1), Some(2))),
        size_of(WasmRenderer::new(1, 2))
    );
}

#[test]
fn render_fails_for_a_missing_element() {
    let result = WasmRenderer::new(800, 600).render(
        "missing-id",
        HostLookup::NoElement,
        &sample_chart(),
    );
    match result {
        Err(error) => {
            assert_eq!(
                error,
                EchartsError::WasmError("no element with id `missing-id` found".to_string())
            );
            assert!(error.message().contains("missing-id"));
        },
        Ok(_) => panic!("a handle was produced"),
    }
}

#[test]
fn render_fails_without_a_window() {
    let result = WasmRenderer::new(800, 600).render("chart", HostLookup::NoWindow, &sample_chart());
    assert_eq!(
        result.err(),
        Some(EchartsError::WasmError("no `window` object found".to_string()))
    );
}

#[test]
fn render_fails_without_a_document() {
    let result =
        WasmRenderer::new(800, 600).render("chart", HostLookup::NoDocument, &sample_chart());
    assert_eq!(
        result.err(),
        Some(EchartsError::WasmError("no `document` object found".to_string()))
    );
}

#[test]
fn the_error_names_the_identifier_as_given() {
    let result = WasmRenderer::new(1, 1).render("", HostLookup::NoElement, &Chart::new());
    assert_eq!(
        result.err().map(|e| e.message()),
        Some("no element with id `` found".to_string())
    );
    let result = WasmRenderer::new(1, 1).render("a `b` c", HostLookup::NoElement, &Chart::new());
    assert_eq!(
        result.err().map(|e| e.message()),
        Some("no element with id `a `b` c` found".to_string())
    );
}

#[test]
fn update_sends_the_whole_document() {
    let mut echarts = attach();
    let chart = other_chart();
    let calls = WasmRenderer::update(&mut echarts, &chart);
    assert_eq!(calls, vec![EngineCall::SetOption { option: chart.document() }]);
    assert_eq!(echarts.phase(), Phase::Updated);
}

#[test]
fn update_twice_with_the_same_chart_asks_for_the_same_call() {
    let mut echarts = attach();
    let chart = sample_chart();
    let first = WasmRenderer::update(&mut echarts, &chart);
    let after_first = echarts.phase();
    let second = WasmRenderer::update(&mut echarts, &chart);
    assert_eq!(first, second);
    assert_eq!(first.len(), 1);
    assert_eq!(echarts.phase(), after_first);
    assert_eq!(echarts.phase(), Phase::Updated);
}

#[test]
fn updates_are_not_merged_or_reordered() {
    let mut echarts = attach();
    let a = sample_chart();
    let b = other_chart();
    let mut calls = Vec::new();
    calls.extend(WasmRenderer::update(&mut echarts, &a));
    calls.extend(WasmRenderer::update(&mut echarts, &b));
    calls.extend(WasmRenderer::update(&mut echarts, &a));
    assert_eq!(
        calls,
        vec![
            EngineCall::SetOption { option: a.document() },
            EngineCall::SetOption { option: b.document() },
            EngineCall::SetOption { option: a.document() },
        ]
    );
}

#[test]
fn resize_asks_for_a_plain_resize() {
    let echarts = attach();
    let calls = WasmRenderer::resize_chart(&echarts, ChartResize::new(10, 20, true, None));
    assert_eq!(calls, vec![EngineCall::Resize]);
    assert_eq!(echarts.phase(), Phase::Attached);
}

#[test]
fn save_image_asks_for_a_data_url() {
    let echarts = attach();
    let options = ImageOptions::new(ImageFormat::Png).pixel_ratio(num(2.0)).background_color("#fff");
    let calls = WasmRenderer::save_image(&echarts, options);
    assert_eq!(
        calls,
        vec![EngineCall::GetDataUrl {
            option: Value::Object(vec![
                member("type", text("png")),
                member("pixelRatio", Value::Float64(num(2.0))),
                member("backgroundColor", text("#fff")),
            ]),
        }]
    );
}

#[test]
fn image_options_leave_out_what_is_not_set() {
    assert_eq!(
        ImageOptions::new(ImageFormat::Jpeg).document(),
        Value::Object(vec![member("type", text("jpeg"))])
    );
    assert_eq!(ImageFormat::Png.as_str(), "png");
    assert_eq!(ImageFormat::Jpeg.as_str(), "jpeg");
}

#[test]
fn a_listener_answers_after_it_was_registered() {
    let mut echarts = attach();
    let token = add_resize_listener(&mut echarts).expect("the target is live");
    assert_eq!(token, 0);
    assert!(echarts.has_listener(token));
    assert_eq!(echarts.on_resize(token), vec![EngineCall::Resize]);
    assert_eq!(echarts.on_resize(token), vec![EngineCall::Resize]);
}

#[test]
fn a_listener_outlives_updates_resizes_exports_and_other_listeners() {
    let mut echarts = attach();
    let token = add_resize_listener(&mut echarts).expect("the target is live");
    WasmRenderer::update(&mut echarts, &other_chart());
    WasmRenderer::resize_chart(&echarts, ChartResize::new(1, 1, false, None));
    WasmRenderer::save_image(&echarts, ImageOptions::new(ImageFormat::Png));
    let second = add_resize_listener(&mut echarts).expect("the target is live");
    assert!(echarts.remove_resize_listener(second));
    WasmRenderer::update(&mut echarts, &sample_chart());
    assert!(echarts.has_listener(token));
    assert_eq!(echarts.on_resize(token), vec![EngineCall::Resize]);
}

#[test]
fn tokens_are_handed_out_in_order_and_never_again() {
    let mut echarts = attach();
    assert_eq!(add_resize_listener(&mut echarts), Some(0));
    assert_eq!(add_resize_listener(&mut echarts), Some(1));
    assert!(echarts.remove_resize_listener(0));
    assert_eq!(add_resize_listener(&mut echarts), Some(2));
    assert!(!echarts.has_listener(0));
    assert!(echarts.has_listener(1));
    assert!(echarts.has_listener(2));
}

#[test]
fn a_cancelled_listener_no_longer_answers() {
    let mut echarts = attach();
    let first = add_resize_listener(&mut echarts).expect("the target is live");
    let second = add_resize_listener(&mut echarts).expect("the target is live");
    assert!(echarts.remove_resize_listener(first));
    assert!(!echarts.has_listener(first));
    assert_eq!(echarts.on_resize(first), vec![]);
    assert!(echarts.has_listener(second));
    assert_eq!(echarts.on_resize(second), vec![EngineCall::Resize]);
    assert!(!echarts.remove_resize_listener(first));
}

#[test]
fn an_unknown_token_is_no_listener() {
    let mut echarts = attach();
    assert!(!echarts.has_listener(0));
    assert_eq!(echarts.on_resize(0), vec![]);
    assert!(!echarts.remove_resize_listener(0));
    assert!(!echarts.remove_resize_listener(usize::MAX));
    assert_eq!(echarts.on_resize(usize::MAX), vec![]);
}

#[test]
fn a_disposed_target_is_left_alone() {
    let mut echarts = attach();
    let token = add_resize_listener(&mut echarts).expect("the target is live");
    echarts.host_removed();
    assert_eq!(echarts.phase(), Phase::Disposed);
    assert!(!echarts.is_live());
    assert!(!echarts.has_listener(token));
    assert_eq!(echarts.on_resize(token), vec![]);
    assert_eq!(WasmRenderer::update(&mut echarts, &sample_chart()), vec![]);
    assert_eq!(
        WasmRenderer::resize_chart(&echarts, ChartResize::new(1, 1, false, None)),
        vec![]
    );
    assert_eq!(
        WasmRenderer::save_image(&echarts, ImageOptions::new(ImageFormat::Png)),
        vec![]
    );
    assert_eq!(add_resize_listener(&mut echarts), None);
    assert!(!echarts.remove_resize_listener(token));
    echarts.host_removed();
    assert_eq!(echarts.phase(), Phase::Disposed);
}

#[test]
fn each_render_gives_a_target_of_its_own() {
    let renderer = WasmRenderer::new(10, 10);
    let chart = sample_chart();
    let (mut a, _) = renderer.render("a", HostLookup::Found, &chart).expect("found");
    let (b, _) = renderer.render("b", HostLookup::Found, &chart).expect("found");
    WasmRenderer::update(&mut a, &chart);
    assert_eq!(add_resize_listener(&mut a), Some(0));
    assert_eq!(a.phase(), Phase::Updated);
    assert_eq!(b.phase(), Phase::Attached);
    assert!(!b.has_listener(0));
}
