use handlebarrz::bridge::{conclude, HandlerOutcome};
use handlebarrz::call_site::{
    begin_handler_call, chosen_region, handle, perform, plan_block, render_block, snapshot,
    BlockPlan,
};
use handlebarrz::error::HelperError;
use handlebarrz::helpers::{Block, HelperAction, IfEqualsHelper, UnlessEqualsHelper};
use handlebars::{
    Context, Handlebars, Helper, HelperDef, Output, RenderContext, RenderError, RenderErrorReason,
};

fn reported(e: HelperError) -> RenderError {
    RenderError::from(RenderErrorReason::Other(format!("{:?}", e)))
}

fn nothing() -> serde_json::Value {
    serde_json::Value::Object(serde_json::Map::new())
}

fn named(name: &str) -> serde_json::Value {
    let mut map = serde_json::Map::new();
    map.insert("name".to_string(), serde_json::Value::from(name));
    serde_json::Value::Object(map)
}

/// Renders its main block twice and its inverse block once, between marks.
struct Repeat;

impl HelperDef for Repeat {
    fn call<'reg: 'rc, 'rc>(
        &self,
        h: &Helper<'rc>,
        reg: &'reg Handlebars<'reg>,
        ctx: &'rc Context,
        rc: &mut RenderContext<'reg, 'rc>,
        out: &mut dyn Output,
    ) -> Result<(), RenderError> {
        let options = handle(h, ctx);
        let first = render_block(&options, Block::Main, h, reg, ctx, rc).map_err(reported)?;
        let second = render_block(&options, Block::Main, h, reg, ctx, rc).map_err(reported)?;
        let other = render_block(&options, Block::Inverse, h, reg, ctx, rc).map_err(reported)?;
        out.write(&format!("[{}|{}|{}]", first, second, other))?;
        Ok(())
    }
}

/// Puts out one block of its call, and no other.
struct Only(Block);

impl HelperDef for Only {
    fn call<'reg: 'rc, 'rc>(
        &self,
        h: &Helper<'rc>,
        reg: &'reg Handlebars<'reg>,
        ctx: &'rc Context,
        rc: &mut RenderContext<'reg, 'rc>,
        out: &mut dyn Output,
    ) -> Result<(), RenderError> {
        let options = handle(h, ctx);
        let text = render_block(&options, self.0, h, reg, ctx, rc).map_err(reported)?;
        out.write(&text)?;
        Ok(())
    }
}

/// Says which region a block stands for, without rendering it.
struct Chosen(Block);

impl HelperDef for Chosen {
    fn call<'reg: 'rc, 'rc>(
        &self,
        h: &Helper<'rc>,
        _reg: &'reg Handlebars<'reg>,
        ctx: &'rc Context,
        _rc: &mut RenderContext<'reg, 'rc>,
        out: &mut dyn Output,
    ) -> Result<(), RenderError> {
        let options = handle(h, ctx);
        let same_as_main = chosen_region(h, self.0) == h.template();
        let same_as_inverse = chosen_region(h, self.0) == h.inverse();
        let planned = match plan_block(&options, self.0, h).map_err(reported)? {
            BlockPlan::Text(text) => format!("text {:?}", text),
            BlockPlan::Engine(region) => format!(
                "engine {} {}",
                Some(region) == h.template(),
                Some(region) == h.inverse()
            ),
        };
        out.write(&format!("{} {} {}", same_as_main, same_as_inverse, planned))?;
        Ok(())
    }
}

/// Revokes its handle and then asks for the main block.
struct TooLate;

impl HelperDef for TooLate {
    fn call<'reg: 'rc, 'rc>(
        &self,
        h: &Helper<'rc>,
        reg: &'reg Handlebars<'reg>,
        ctx: &'rc Context,
        rc: &mut RenderContext<'reg, 'rc>,
        out: &mut dyn Output,
    ) -> Result<(), RenderError> {
        let mut options = handle(h, ctx);
        options.revoke();
        match render_block(&options, Block::Main, h, reg, ctx, rc) {
            Err(HelperError::ExpiredHandle) => out.write("refused")?,
            Ok(text) => out.write(&text)?,
            Err(e) => return Err(reported(e)),
        }
        Ok(())
    }
}

/// Stands for an outside handler: puts out what the handler would be
/// called with.
struct Echo;

impl HelperDef for Echo {
    fn call<'reg: 'rc, 'rc>(
        &self,
        h: &Helper<'rc>,
        _reg: &'reg Handlebars<'reg>,
        ctx: &'rc Context,
        _rc: &mut RenderContext<'reg, 'rc>,
        out: &mut dyn Output,
    ) -> Result<(), RenderError> {
        let (mut options, call) = begin_handler_call(h, ctx).map_err(reported)?;
        let returned = format!(
            "{} {} {} {} {}",
            call.params_json,
            call.hash_json,
            call.context_json,
            options.hash_value_json("sep").map_err(reported)?,
            options.hash_value_json("absent").map_err(reported)?,
        );
        options.revoke();
        let text = conclude(HandlerOutcome::Returned(returned)).map_err(reported)?;
        out.write(&text)?;
        Ok(())
    }
}

/// Stands for an outside handler that fails.
struct Failing;

impl HelperDef for Failing {
    fn call<'reg: 'rc, 'rc>(
        &self,
        _h: &Helper<'rc>,
        _reg: &'reg Handlebars<'reg>,
        _ctx: &'rc Context,
        _rc: &mut RenderContext<'reg, 'rc>,
        out: &mut dyn Output,
    ) -> Result<(), RenderError> {
        let text = conclude(HandlerOutcome::Raised("ZeroDivisionError".to_string()))
            .map_err(reported)?;
        out.write(&text)?;
        Ok(())
    }
}

/// `ifEquals` by way of the decision and its carrying out.
struct Stepwise;

impl HelperDef for Stepwise {
    fn call<'reg: 'rc, 'rc>(
        &self,
        h: &Helper<'rc>,
        reg: &'reg Handlebars<'reg>,
        ctx: &'rc Context,
        rc: &mut RenderContext<'reg, 'rc>,
        out: &mut dyn Output,
    ) -> Result<(), RenderError> {
        let options = handle(h, ctx);
        let action = IfEqualsHelper {}.call(options.invocation()).map_err(reported)?;
        let text = perform(action, &options, h, reg, ctx, rc).map_err(reported)?;
        out.write(&text)?;
        Ok(())
    }
}

/// Puts out a fixed text whatever it is called with.
struct Written;

impl HelperDef for Written {
    fn call<'reg: 'rc, 'rc>(
        &self,
        h: &Helper<'rc>,
        reg: &'reg Handlebars<'reg>,
        ctx: &'rc Context,
        rc: &mut RenderContext<'reg, 'rc>,
        out: &mut dyn Output,
    ) -> Result<(), RenderError> {
        let options = handle(h, ctx);
        let action = HelperAction::Write("<b>&</b>".to_string());
        let text = perform(action, &options, h, reg, ctx, rc).map_err(reported)?;
        out.write(&text)?;
        Ok(())
    }
}

/// Puts out how many parameters and options the call site holds.
struct Count;

impl HelperDef for Count {
    fn call<'reg: 'rc, 'rc>(
        &self,
        h: &Helper<'rc>,
        _reg: &'reg Handlebars<'reg>,
        ctx: &'rc Context,
        _rc: &mut RenderContext<'reg, 'rc>,
        out: &mut dyn Output,
    ) -> Result<(), RenderError> {
        let invocation = snapshot(h, ctx);
        out.write(&format!(
            "{} {}",
            invocation.params().len(),
            invocation.hash().len()
        ))?;
        Ok(())
    }
}

struct IfEquals;

impl HelperDef for IfEquals {
    fn call<'reg: 'rc, 'rc>(
        &self,
        h: &Helper<'rc>,
        reg: &'reg Handlebars<'reg>,
        ctx: &'rc Context,
        rc: &mut RenderContext<'reg, 'rc>,
        out: &mut dyn Output,
    ) -> Result<(), RenderError> {
        let text = IfEqualsHelper {}.render(h, reg, ctx, rc).map_err(reported)?;
        out.write(&text)?;
        Ok(())
    }
}

struct UnlessEquals;

impl HelperDef for UnlessEquals {
    fn call<'reg: 'rc, 'rc>(
        &self,
        h: &Helper<'rc>,
        reg: &'reg Handlebars<'reg>,
        ctx: &'rc Context,
        rc: &mut RenderContext<'reg, 'rc>,
        out: &mut dyn Output,
    ) -> Result<(), RenderError> {
        let text = UnlessEqualsHelper {}.render(h, reg, ctx, rc).map_err(reported)?;
        out.write(&text)?;
        Ok(())
    }
}

#[test]
fn a_request_for_a_block_renders_that_block_and_no_other() {
    let mut handlebars = Handlebars::new();
    handlebars.register_helper("inverse", Box::new(Only(Block::Inverse)));
    handlebars.register_helper("main", Box::new(Only(Block::Main)));
    assert_eq!(
        handlebars
            .render_template("{{#inverse}}a{{else}}b{{/inverse}}", &nothing())
            .unwrap(),
        "b"
    );
    assert_eq!(
        handlebars
            .render_template("{{#main}}a{{else}}b{{/main}}", &nothing())
            .unwrap(),
        "a"
    );
    assert_eq!(
        handlebars
            .render_template("{{#inverse}}a{{/inverse}}|{{#main}}a{{/main}}", &nothing())
            .unwrap(),
        "|a"
    );
}

#[test]
fn the_engine_is_handed_the_region_of_the_block_asked_for() {
    let mut handlebars = Handlebars::new();
    handlebars.register_helper("inverse", Box::new(Chosen(Block::Inverse)));
    handlebars.register_helper("main", Box::new(Chosen(Block::Main)));
    assert_eq!(
        handlebars
            .render_template("{{#main}}a{{else}}b{{/main}}", &nothing())
            .unwrap(),
        "true false engine true false"
    );
    assert_eq!(
        handlebars
            .render_template("{{#inverse}}a{{else}}b{{/inverse}}", &nothing())
            .unwrap(),
        "false true engine false true"
    );
    assert_eq!(
        handlebars
            .render_template("{{#inverse}}a{{/inverse}}", &nothing())
            .unwrap(),
        "false true text \"\""
    );
}

#[test]
fn a_block_can_be_rendered_more_than_once_in_one_call() {
    let mut handlebars = Handlebars::new();
    handlebars.register_helper("repeat", Box::new(Repeat));
    assert_eq!(
        handlebars
            .render_template("{{#repeat}}hi {{name}}{{else}}bye{{/repeat}}", &named("Ada"))
            .unwrap(),
        "[hi Ada|hi Ada|bye]"
    );
}

#[test]
fn absent_blocks_render_as_empty_text_in_the_engine() {
    let mut handlebars = Handlebars::new();
    handlebars.register_helper("repeat", Box::new(Repeat));
    assert_eq!(
        handlebars
            .render_template("{{#repeat}}x{{/repeat}}", &nothing())
            .unwrap(),
        "[x|x|]"
    );
    assert_eq!(handlebars.render_template("{{repeat}}", &nothing()).unwrap(), "[||]");
}

#[test]
fn a_revoked_handle_does_not_reach_the_engine() {
    let mut handlebars = Handlebars::new();
    handlebars.register_helper("late", Box::new(TooLate));
    assert_eq!(
        handlebars
            .render_template("{{#late}}rendered{{/late}}", &nothing())
            .unwrap(),
        "refused"
    );
}

#[test]
fn a_failure_inside_a_block_is_a_render_error() {
    let mut handlebars = Handlebars::new();
    handlebars.set_strict_mode(true);
    handlebars.register_helper("ifEquals", Box::new(IfEquals));
    let failed = handlebars
        .render_template("{{#ifEquals 1 1}}{{missing}}{{/ifEquals}}", &nothing())
        .unwrap_err()
        .to_string();
    assert!(failed.contains("RenderError"));
    assert!(failed.contains("missing"));
    assert_eq!(
        handlebars
            .render_template("{{#ifEquals 1 2}}{{missing}}{{/ifEquals}}", &nothing())
            .unwrap(),
        ""
    );
}

#[test]
fn an_outside_handler_is_handed_the_resolved_call() {
    let mut handlebars = Handlebars::new();
    handlebars.register_helper("echo", Box::new(Echo));
    assert_eq!(
        handlebars
            .render_template("{{{echo 1 name \"x\" sep=\", \" n=2}}}", &named("Ada"))
            .unwrap(),
        "[1,\"Ada\",\"x\"] {\"n\":2,\"sep\":\", \"} {\"name\":\"Ada\"} \", \" "
    );
}

#[test]
fn a_failing_handler_aborts_the_render() {
    let mut handlebars = Handlebars::new();
    handlebars.register_helper("failing", Box::new(Failing));
    let failed = handlebars
        .render_template("before {{failing}} after", &nothing())
        .unwrap_err()
        .to_string();
    assert!(failed.contains("HandlerExecutionError"));
    assert!(failed.contains("Helper execution failed: ZeroDivisionError"));
}

#[test]
fn deciding_and_carrying_out_is_the_whole_call() {
    let mut handlebars = Handlebars::new();
    handlebars.register_helper("stepwise", Box::new(Stepwise));
    handlebars.register_helper("ifEquals", Box::new(IfEquals));
    for (first, second) in [("1", "1"), ("1", "2"), ("\"a\"", "\"a\""), ("name", "\"Ada\"")] {
        let stepwise = format!("{{{{#stepwise {first} {second}}}}}yes{{{{else}}}}no{{{{/stepwise}}}}");
        let whole = format!("{{{{#ifEquals {first} {second}}}}}yes{{{{else}}}}no{{{{/ifEquals}}}}");
        assert_eq!(
            handlebars.render_template(&stepwise, &named("Ada")).unwrap(),
            handlebars.render_template(&whole, &named("Ada")).unwrap()
        );
    }
}

#[test]
fn written_text_is_put_out_as_it_is() {
    let mut handlebars = Handlebars::new();
    handlebars.register_helper("written", Box::new(Written));
    assert_eq!(handlebars.render_template("{{written}}", &nothing()).unwrap(), "<b>&</b>");
}

#[test]
fn the_snapshot_holds_every_parameter_and_option() {
    let mut handlebars = Handlebars::new();
    handlebars.register_helper("count", Box::new(Count));
    assert_eq!(handlebars.render_template("{{count}}", &nothing()).unwrap(), "0 0");
    assert_eq!(
        handlebars
            .render_template("{{count 1 2 3 a=1 b=2}}", &nothing())
            .unwrap(),
        "3 2"
    );
}

#[test]
fn equality_in_the_engine_is_structural() {
    let mut left = serde_json::Map::new();
    left.insert("a".to_string(), serde_json::Value::from(1));
    left.insert("b".to_string(), serde_json::Value::from(vec![1, 2]));
    let mut right = serde_json::Map::new();
    right.insert("b".to_string(), serde_json::Value::from(vec![1, 2]));
    right.insert("a".to_string(), serde_json::Value::from(1));
    let mut data = serde_json::Map::new();
    data.insert("left".to_string(), serde_json::Value::Object(left));
    data.insert("right".to_string(), serde_json::Value::Object(right));
    data.insert("one".to_string(), serde_json::Value::from(1));
    data.insert("one_point".to_string(), serde_json::Value::from(1.0));
    let data = serde_json::Value::Object(data);

    let mut handlebars = Handlebars::new();
    handlebars.register_helper("ifEquals", Box::new(IfEquals));
    handlebars.register_helper("unlessEquals", Box::new(UnlessEquals));
    assert_eq!(
        handlebars
            .render_template("{{#ifEquals left right}}same{{else}}not{{/ifEquals}}", &data)
            .unwrap(),
        "same"
    );
    assert_eq!(
        handlebars
            .render_template("{{#unlessEquals left right}}not{{else}}same{{/unlessEquals}}", &data)
            .unwrap(),
        "same"
    );
    assert_eq!(
        handlebars
            .render_template("{{#ifEquals one one_point}}same{{else}}not{{/ifEquals}}", &data)
            .unwrap(),
        "not"
    );
}

#[test]
fn registering_again_in_the_engine_replaces_the_helper() {
    let mut handlebars = Handlebars::new();
    handlebars.register_helper("pick", Box::new(IfEquals));
    assert_eq!(
        handlebars
            .render_template("{{#pick 1 1}}yes{{else}}no{{/pick}}", &nothing())
            .unwrap(),
        "yes"
    );
    handlebars.register_helper("pick", Box::new(UnlessEquals));
    for _ in 0..3 {
        assert_eq!(
            handlebars
                .render_template("{{#pick 1 1}}yes{{else}}no{{/pick}}", &nothing())
                .unwrap(),
            "no"
        );
    }
}
