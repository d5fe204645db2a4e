use handlebarrz::error::HelperError;
use handlebarrz::helpers::{IfEqualsHelper, JsonHelper, UnlessEqualsHelper};
use handlebars::{
    Context, Handlebars, Helper, HelperDef, Output, RenderContext, RenderError, RenderErrorReason,
};

fn failure(e: HelperError) -> RenderError {
    RenderError::from(RenderErrorReason::Other(format!("{:?}", e)))
}

/// `ifEquals` as the engine calls it.
struct IfEquals;

impl HelperDef for IfEquals {
    fn call<'reg: 'rc, 'rc>(
        &self,
        h: &Helper<'rc>,
        reg: &'reg Handlebars<'reg>,
        ctx: &'rc Context,
        rc: &mut RenderContext<'reg, 'rc>,
        out: &mut dyn Output,
    ) -> Result<(), RenderError> {
        let text = IfEqualsHelper {}.render(h, reg, ctx, rc).map_err(failure)?;
        out.write(&text)?;
        Ok(())
    }
}

/// `unlessEquals` as the engine calls it.
struct UnlessEquals;

impl HelperDef for UnlessEquals {
    fn call<'reg: 'rc, 'rc>(
        &self,
        h: &Helper<'rc>,
        reg: &'reg Handlebars<'reg>,
        ctx: &'rc Context,
        rc: &mut RenderContext<'reg, 'rc>,
        out: &mut dyn Output,
    ) -> Result<(), RenderError> {
        let text = UnlessEqualsHelper {}.render(h, reg, ctx, rc).map_err(failure)?;
        out.write(&text)?;
        Ok(())
    }
}

/// `json` as the engine calls it.
struct Json;

impl HelperDef for Json {
    fn call<'reg: 'rc, 'rc>(
        &self,
        h: &Helper<'rc>,
        _reg: &'reg Handlebars<'reg>,
        ctx: &'rc Context,
        _rc: &mut RenderContext<'reg, 'rc>,
        out: &mut dyn Output,
    ) -> Result<(), RenderError> {
        out.write(&JsonHelper {}.render(h, ctx))?;
        Ok(())
    }
}

fn if_equals() -> Box<IfEquals> {
    Box::new(IfEquals)
}

fn unless_equals() -> Box<UnlessEquals> {
    Box::new(UnlessEquals)
}

fn json() -> Box<Json> {
    Box::new(Json)
}

fn empty_object() -> serde_json::Value {
    serde_json::Value::Object(serde_json::Map::new())
}

fn a1_b2() -> serde_json::Value {
    let mut map = serde_json::Map::new();
    map.insert("a".to_string(), serde_json::Value::from(1));
    map.insert("b".to_string(), serde_json::Value::from(2));
    serde_json::Value::Object(map)
}

fn one_two_three() -> serde_json::Value {
    serde_json::Value::Array(vec![
        serde_json::Value::from(1),
        serde_json::Value::from(2),
        serde_json::Value::from(3),
    ])
}

#[test]
fn with_true_condition_renders_main_block() {
    let mut handlebars = Handlebars::new();
    handlebars.register_helper("ifEquals", if_equals());

    assert_eq!(
        handlebars
            .render_template("{{#ifEquals 1 1}}yes{{else}}no{{/ifEquals}}", &empty_object())
            .unwrap(),
        "yes"
    );
}

#[test]
fn with_true_condition_renders_main_block_without_else_block() {
    let mut handlebars = Handlebars::new();
    handlebars.register_helper("ifEquals", if_equals());

    assert_eq!(
        handlebars
            .render_template("{{#ifEquals 1 1}}yes{{/ifEquals}}", &empty_object())
            .unwrap(),
        "yes"
    );
}

#[test]
fn with_false_condition_renders_else_block() {
    let mut handlebars = Handlebars::new();
    handlebars.register_helper("ifEquals", if_equals());

    assert_eq!(
        handlebars
            .render_template("{{#ifEquals 1 2}}yes{{else}}no{{/ifEquals}}", &empty_object())
            .unwrap(),
        "no"
    );
}

#[test]
fn with_false_condition_and_no_else_renders_empty_string() {
    let mut handlebars = Handlebars::new();
    handlebars.register_helper("ifEquals", if_equals());

    assert_eq!(
        handlebars
            .render_template("{{#ifEquals 1 2}}yes{{/ifEquals}}", &empty_object())
            .unwrap(),
        ""
    );
}

#[test]
fn with_false_condition_renders_main_block() {
    let mut handlebars = Handlebars::new();
    handlebars.register_helper("unlessEquals", unless_equals());

    assert_eq!(
        handlebars
            .render_template(
                "{{#unlessEquals 1 2}}yes{{else}}no{{/unlessEquals}}",
                &empty_object()
            )
            .unwrap(),
        "yes"
    );
}

#[test]
fn with_false_condition_renders_main_block_without_else_block() {
    let mut handlebars = Handlebars::new();
    handlebars.register_helper("unlessEquals", unless_equals());

    assert_eq!(
        handlebars
            .render_template("{{#unlessEquals 1 2}}yes{{/unlessEquals}}", &empty_object())
            .unwrap(),
        "yes"
    );
}

#[test]
fn with_true_condition_renders_else_block() {
    let mut handlebars = Handlebars::new();
    handlebars.register_helper("unlessEquals", unless_equals());

    assert_eq!(
        handlebars
            .render_template(
                "{{#unlessEquals 1 1}}yes{{else}}no{{/unlessEquals}}",
                &empty_object()
            )
            .unwrap(),
        "no"
    );
}

#[test]
fn with_true_condition_and_no_else_renders_empty_string() {
    let mut handlebars = Handlebars::new();
    handlebars.register_helper("unlessEquals", unless_equals());

    assert_eq!(
        handlebars
            .render_template("{{#unlessEquals 1 1}}yes{{/unlessEquals}}", &empty_object())
            .unwrap(),
        ""
    );
}

#[test]
fn renders_object_as_json() {
    let mut handlebars = Handlebars::new();
    handlebars.register_helper("json", json());

    let data = a1_b2();
    let rendered = handlebars.render_template("{{json this}}", &data).unwrap();
    assert_eq!(rendered, r#"{"a":1,"b":2}"#);
}

#[test]
fn renders_object_with_indent() {
    let mut handlebars = Handlebars::new();
    handlebars.register_helper("json", json());

    let data = a1_b2();
    let rendered_indent = handlebars
        .render_template("{{json this indent=2}}", &data)
        .unwrap();
    assert!(rendered_indent.contains("\"a\": 1"));
    assert!(rendered_indent.contains("\"b\": 2"));
}

#[test]
fn renders_object_with_the_indent_width_asked_for() {
    let mut handlebars = Handlebars::new();
    handlebars.register_helper("json", json());

    let mut map = serde_json::Map::new();
    map.insert("a".to_string(), serde_json::Value::from(1));
    let data = serde_json::Value::Object(map);
    assert_eq!(
        handlebars
            .render_template("{{{json this indent=4}}}", &data)
            .unwrap(),
        "{\n    \"a\": 1\n}"
    );
    assert_eq!(
        handlebars
            .render_template("{{{json this indent=2}}}", &data)
            .unwrap(),
        "{\n  \"a\": 1\n}"
    );
    assert_eq!(
        handlebars
            .render_template("{{{json this indent=\"wide\"}}}", &data)
            .unwrap(),
        "{\n  \"a\": 1\n}"
    );
    assert_eq!(
        handlebars.render_template("{{{json this}}}", &data).unwrap(),
        "{\"a\":1}"
    );
}

#[test]
fn handles_empty_params() {
    let mut handlebars = Handlebars::new();
    handlebars.register_helper("json", json());

    let rendered_empty_params = handlebars
        .render_template("{{json}}", &empty_object())
        .unwrap();
    assert_eq!(rendered_empty_params, "");
}

#[test]
fn renders_array_as_json() {
    let mut handlebars = Handlebars::new();
    handlebars.register_helper("json", json());

    let array_data = one_two_three();
    let rendered_array = handlebars
        .render_template("{{json this}}", &array_data)
        .unwrap();
    assert_eq!(rendered_array, r#"[1,2,3]"#);
}

#[test]
fn renders_array_with_indent() {
    let mut handlebars = Handlebars::new();
    handlebars.register_helper("json", json());

    let array_data = one_two_three();
    let rendered_array_pretty = handlebars
        .render_template("{{json this indent=2}}", &array_data)
        .unwrap();
    assert!(rendered_array_pretty.contains("1,"));
    assert!(rendered_array_pretty.contains("2,"));
    assert!(rendered_array_pretty.contains("3"));
}

#[test]
fn renders_empty_object() {
    let mut handlebars = Handlebars::new();
    handlebars.register_helper("json", json());

    let empty_map = empty_object();
    let rendered_empty = handlebars
        .render_template("{{json this}}", &empty_map)
        .unwrap();
    assert_eq!(rendered_empty, "{}");
}

#[test]
fn missing_parameter_aborts_the_render() {
    let mut handlebars = Handlebars::new();
    handlebars.register_helper("ifEquals", if_equals());

    let failed = handlebars.render_template("{{#ifEquals 1}}yes{{/ifEquals}}", &empty_object());
    let message = failed.unwrap_err().to_string();
    assert!(message.contains("MissingParameter"));
    assert!(message.contains("index: 1"));
}

#[test]
fn json_dump_escapes_through_the_engine_unless_told_otherwise() {
    let mut handlebars = Handlebars::new();
    handlebars.register_helper("json", json());

    let data = a1_b2();
    let rendered = handlebars.render_template("{{{json this}}}", &data).unwrap();
    assert_eq!(rendered, "{\"a\":1,\"b\":2}");
}

#[test]
fn main_block_sees_the_data_of_the_call_site() {
    let mut handlebars = Handlebars::new();
    handlebars.register_helper("ifEquals", if_equals());

    let rendered = handlebars
        .render_template("{{#ifEquals a 1}}b is {{b}}{{else}}no{{/ifEquals}}", &a1_b2())
        .unwrap();
    assert_eq!(rendered, "b is 2");
}
