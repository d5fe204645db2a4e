//! The call site as the engine presents it: the helper reference with its
//! resolved arguments and nested blocks, the data it renders against, and
//! the state of the render. The contracts of the engine's calls restate
//! what the `handlebars` source shows; nothing of them is proved.

use vstd::prelude::*;
use crate::codec::encode;
use crate::context::{invocation_well_formed, InvocationContext, InvocationView};
use crate::engine::engine_value;
use crate::error::{HelperError, HelperErrorView};
use crate::bridge::{handler_call, prepare_call, HandlerCall, HandlerCallView};
use crate::helpers::{
    action_result, if_equals_action, json_action, unless_equals_action, ActionView, Block,
    HelperAction, IfEqualsHelper, JsonHelper, UnlessEqualsHelper,
};
use crate::keyed::{has_key, upsert};
use crate::options::{
    block_present, block_request, outcome_view, rendered_text, BlockRequest, BlockRequestView,
    HandlebarrzHelperOptions, OptionsView,
};
use crate::value::{structurally_equal, views_of, well_formed, JsonValue, JsonView, Object};

verus! {

/// `handlebars::Helper`, the helper reference of a call site.
#[verifier::external_type_specification]
#[verifier::external_body]
pub struct ExEngineHelper<'rc>(handlebars::Helper<'rc>);

/// `handlebars::Context`, the data that a call site renders against.
#[verifier::external_type_specification]
#[verifier::external_body]
pub struct ExEngineContext(handlebars::Context);

/// `handlebars::Handlebars`, the engine's registry.
#[verifier::external_type_specification]
#[verifier::external_body]
pub struct ExEngineRegistry<'reg>(handlebars::Handlebars<'reg>);

/// `handlebars::RenderContext`, the state of a render.
#[verifier::external_type_specification]
#[verifier::external_body]
pub struct ExEngineRenderContext<'reg, 'rc>(handlebars::RenderContext<'reg, 'rc>);

/// `handlebars::Template`, a nested region of a template.
#[verifier::external_type_specification]
#[verifier::external_body]
pub struct ExEngineTemplate(handlebars::Template);

/// The resolved positional parameters of a helper reference, in the order
/// of the call.
pub uninterp spec fn call_params(h: handlebars::Helper<'_>) -> Seq<JsonView>;

/// The resolved named options of a helper reference, in the order in which
/// the engine walks them.
pub uninterp spec fn call_hash(h: handlebars::Helper<'_>) -> Seq<(Seq<char>, JsonView)>;

/// The main block of a helper reference: the region between the opening
/// tag and `{{else}}` or the closing tag, where the reference has one.
pub uninterp spec fn call_main_region(h: handlebars::Helper<'_>) -> Option<handlebars::Template>;

/// The inverse block of a helper reference: the region after `{{else}}`,
/// where the reference has one.
pub uninterp spec fn call_inverse_region(h: handlebars::Helper<'_>) -> Option<
    handlebars::Template,
>;

/// The data that a render context wraps.
pub uninterp spec fn context_data(context: handlebars::Context) -> JsonView;

/// The region that `block` stands for at a helper reference.
pub open spec fn call_region(h: handlebars::Helper<'_>, block: Block) -> Option<
    handlebars::Template,
> {
    match block {
        Block::Main => call_main_region(h),
        Block::Inverse => call_inverse_region(h),
    }
}

/// Whether a helper reference came with a main block.
pub open spec fn call_has_main(h: handlebars::Helper<'_>) -> bool {
    call_main_region(h) is Some
}

/// Whether a helper reference came with a block after `{{else}}`.
pub open spec fn call_has_inverse(h: handlebars::Helper<'_>) -> bool {
    call_inverse_region(h) is Some
}

/// Whether a helper reference came with `block`.
pub open spec fn call_has_block(h: handlebars::Helper<'_>, block: Block) -> bool {
    call_region(h, block) is Some
}

/// The region behind a borrowed region, if there is one.
pub open spec fn region_view(r: Option<&handlebars::Template>) -> Option<handlebars::Template> {
    match r {
        Some(region) => Some(*region),
        None => None,
    }
}

/// How the text of a block is to be had.
pub enum BlockPlan<'rc> {
    /// The text is known without the engine.
    Text(String),
    /// The engine renders this region against the data of the call site.
    Engine(&'rc handlebars::Template),
}

/// The mathematical form of a `BlockPlan`.
pub enum BlockPlanView {
    Text(Seq<char>),
    Engine(handlebars::Template),
}

impl<'rc> View for BlockPlan<'rc> {
    type V = BlockPlanView;

    open spec fn view(&self) -> BlockPlanView {
        match self {
            BlockPlan::Text(text) => BlockPlanView::Text(text@),
            BlockPlan::Engine(region) => BlockPlanView::Engine(**region),
        }
    }
}

/// The views of a plan or a failure.
pub open spec fn plan_view(r: Result<BlockPlan<'_>, HelperError>) -> Result<
    BlockPlanView,
    HelperErrorView,
> {
    match r {
        Ok(plan) => Ok(plan@),
        Err(e) => Err(e@),
    }
}

/// How the text of `block` is to be had through a handle at a helper
/// reference: the handle's refusal once it is revoked; the empty text where
/// the handle or the reference has no such block; else the engine's
/// rendering of the very region that `block` stands for at the reference.
pub open spec fn block_plan(options: OptionsView, h: handlebars::Helper<'_>, block: Block) -> Result<
    BlockPlanView,
    HelperErrorView,
> {
    match block_request(options, block) {
        Err(e) => Err(e),
        Ok(BlockRequestView::Text(text)) => Ok(BlockPlanView::Text(text)),
        Ok(BlockRequestView::Engine) => match call_region(h, block) {
            Some(region) => Ok(BlockPlanView::Engine(region)),
            None => Ok(BlockPlanView::Text(Seq::empty())),
        },
    }
}

/// What the engine's call site holds for a helper.
pub open spec fn call_invocation(
    h: handlebars::Helper<'_>,
    context: handlebars::Context,
) -> InvocationView {
    InvocationView {
        params: call_params(h),
        hash: call_hash(h),
        data_context: context_data(context),
    }
}

/// The handle that a call site starts with.
pub open spec fn call_options(h: handlebars::Helper<'_>, context: handlebars::Context) -> OptionsView {
    OptionsView {
        invocation: call_invocation(h, context),
        has_template: call_has_main(h),
        has_inverse: call_has_inverse(h),
        live: true,
    }
}

/// Whether `r` is what following a plan may give: the plan's failure, the
/// text that the plan holds, or whatever the engine makes of the region
/// that it is handed, text or a `RenderError`.
pub open spec fn is_block_text(
    plan: Result<BlockPlanView, HelperErrorView>,
    r: Result<Seq<char>, HelperErrorView>,
) -> bool {
    match plan {
        Err(e) => r == Err::<Seq<char>, HelperErrorView>(e),
        Ok(BlockPlanView::Text(text)) => r == Ok::<Seq<char>, HelperErrorView>(text),
        Ok(BlockPlanView::Engine(_)) => r is Ok || r->Err_0 is RenderError,
    }
}

/// Whether `r` is what carrying out `action` may give: the text that the
/// helper wrote, or the text of the block that it chose.
pub open spec fn is_action_text(
    action: ActionView,
    options: OptionsView,
    h: handlebars::Helper<'_>,
    r: Result<Seq<char>, HelperErrorView>,
) -> bool {
    match action {
        ActionView::Write(text) => r == Ok::<Seq<char>, HelperErrorView>(text),
        ActionView::Render(block) => is_block_text(block_plan(options, h, block), r),
    }
}

/// Whether `r` is what a whole call of a helper may give, where `decided` is
/// what the helper decides for the call site: its failure, or what carrying
/// out its action gives through the handle that the call site starts with.
pub open spec fn is_call_text(
    decided: Result<ActionView, HelperErrorView>,
    h: handlebars::Helper<'_>,
    context: handlebars::Context,
    r: Result<Seq<char>, HelperErrorView>,
) -> bool {
    match decided {
        Err(e) => r == Err::<Seq<char>, HelperErrorView>(e),
        Ok(action) => is_action_text(action, call_options(h, context), h, r),
    }
}

/// `Helper::params`, each parameter by its value.
#[verifier::external_body]
pub(crate) fn engine_params<'a, 'rc>(h: &'a handlebars::Helper<'rc>) -> (r: Vec<
    &'a serde_json::Value,
>)
    ensures
        r@.len() == call_params(*h).len(),
        forall|i: int| 0 <= i < r@.len() ==> engine_value(*#[trigger] r@[i]) == call_params(*h)[i],
{
    h.params().iter().map(|p| p.value()).collect()
}

/// `Helper::hash`, each option by its name and value; no name twice.
#[verifier::external_body]
pub(crate) fn engine_hash<'a, 'rc>(h: &'a handlebars::Helper<'rc>) -> (r: Vec<
    (String, &'a serde_json::Value),
>)
    ensures
        r@.len() == call_hash(*h).len(),
        forall|i: int|
            0 <= i < r@.len() ==> (#[trigger] r@[i]).0@ == call_hash(*h)[i].0 && engine_value(
                *r@[i].1,
            ) == call_hash(*h)[i].1,
        forall|i: int, j: int|
            0 <= i < j < r@.len() ==> (#[trigger] r@[i]).0@ != (#[trigger] r@[j]).0@,
{
    h.hash().iter().map(|(name, value)| (name.to_string(), value.value())).collect()
}

/// `Helper::template`: the main block, where the reference came with one.
#[verifier::external_body]
pub(crate) fn engine_main_block<'rc>(h: &handlebars::Helper<'rc>) -> (r: Option<
    &'rc handlebars::Template,
>)
    ensures
        region_view(r) == call_main_region(*h),
{
    h.template()
}

/// `Helper::inverse`: the block after `{{else}}`, where the reference came
/// with one.
#[verifier::external_body]
pub(crate) fn engine_inverse_block<'rc>(h: &handlebars::Helper<'rc>) -> (r: Option<
    &'rc handlebars::Template,
>)
    ensures
        region_view(r) == call_inverse_region(*h),
{
    h.inverse()
}

/// `Context::data`: the data that the context wraps.
#[verifier::external_body]
pub(crate) fn engine_data<'a>(context: &'a handlebars::Context) -> (r: &'a serde_json::Value)
    ensures
        engine_value(*r) == context_data(*context),
{
    context.data()
}

/// `Renderable::renders` of a nested region, with the error turned into its
/// message. What it gives depends on the template and on the state of the
/// render, so nothing is claimed of it.
#[verifier::external_body]
pub(crate) fn engine_render<'reg: 'rc, 'rc>(
    template: &'rc handlebars::Template,
    registry: &'reg handlebars::Handlebars<'reg>,
    context: &'rc handlebars::Context,
    render_context: &mut handlebars::RenderContext<'reg, 'rc>,
) -> (r: Result<String, String>) {
    match handlebars::Renderable::renders(template, registry, context, render_context) {
        Ok(text) => Ok(text),
        Err(e) => Err(e.to_string()),
    }
}

/// The snapshot of the call that the engine is making.
pub fn snapshot(h: &handlebars::Helper<'_>, context: &handlebars::Context) -> (r:
    InvocationContext)
    ensures
        r@ == call_invocation(*h, *context),
        invocation_well_formed(r@),
{
    let values = engine_params(h);
    let mut params: Vec<JsonValue> = Vec::new();
    let mut i: usize = 0;
    while i < values.len()
        invariant
            i <= values.len(),
            params@.len() == i,
            values@.len() == call_params(*h).len(),
            forall|k: int|
                0 <= k < values@.len() ==> engine_value(*#[trigger] values@[k]) == call_params(
                    *h,
                )[k],
            forall|k: int|
                0 <= k < i ==> (#[trigger] params@[k])@ == call_params(*h)[k] && well_formed(
                    params@[k]@,
                ),
        decreases values.len() - i,
    {
        params.push(encode(values[i]));
        i += 1;
    }
    assert(views_of(params@) =~= call_params(*h));
    let options = engine_hash(h);
    let ghost all = call_hash(*h);
    let mut hash = Object::new();
    let mut j: usize = 0;
    assert(hash@ =~= all.take(0));
    while j < options.len()
        invariant
            j <= options.len(),
            all == call_hash(*h),
            options@.len() == all.len(),
            forall|k: int|
                0 <= k < options@.len() ==> (#[trigger] options@[k]).0@ == all[k].0
                    && engine_value(*options@[k].1) == all[k].1,
            forall|a: int, b: int|
                0 <= a < b < options@.len() ==> (#[trigger] options@[a]).0@ != (
                #[trigger] options@[b]).0@,
            hash@ == all.take(j as int),
            forall|k: int| 0 <= k < j ==> well_formed((#[trigger] all[k]).1),
        decreases options.len() - j,
    {
        let name = options[j].0.clone();
        let value = encode(options[j].1);
        proof {
            let before = hash@;
            assert(!has_key(before, name@)) by {
                if has_key(before, name@) {
                    let k = choose|k: int|
                        0 <= k < before.len() && (#[trigger] before[k]).0 == name@;
                    assert(options@[k].0@ == all[k].0);
                    assert(options@[j as int].0@ == all[j as int].0);
                }
            }
            assert(upsert(before, name@, value@) =~= all.take(j + 1));
        }
        hash.insert(name, value);
        j += 1;
    }
    assert(all.take(j as int) =~= all);
    proof {
        use_type_invariant(&hash);
    }
    InvocationContext::new(params, hash, encode(engine_data(context)))
}

/// The handle of the call that the engine is making: live, and with the
/// blocks that the helper reference came with.
pub fn handle(h: &handlebars::Helper<'_>, context: &handlebars::Context) -> (r:
    HandlebarrzHelperOptions)
    ensures
        r@ == call_options(*h, *context),
        invocation_well_formed(r@.invocation),
{
    let has_template = chosen_region(h, Block::Main).is_some();
    let has_inverse = chosen_region(h, Block::Inverse).is_some();
    HandlebarrzHelperOptions::new(snapshot(h, context), has_template, has_inverse)
}

/// The region that `block` stands for at the helper reference, if the
/// reference came with it.
pub fn chosen_region<'rc>(h: &handlebars::Helper<'rc>, block: Block) -> (r: Option<
    &'rc handlebars::Template,
>)
    ensures
        region_view(r) == call_region(*h, block),
        r is Some == call_has_block(*h, block),
{
    match block {
        Block::Main => engine_main_block(h),
        Block::Inverse => engine_inverse_block(h),
    }
}

/// Decides how the text of one block is to be had: whether the engine is
/// asked at all, and which region it is handed.
pub fn plan_block<'rc>(
    options: &HandlebarrzHelperOptions,
    block: Block,
    h: &handlebars::Helper<'rc>,
) -> (r: Result<BlockPlan<'rc>, HelperError>)
    ensures
        plan_view(r) == block_plan(options@, *h, block),
{
    match options.request(block) {
        Err(e) => Err(e),
        Ok(BlockRequest::Text(text)) => Ok(BlockPlan::Text(text)),
        Ok(BlockRequest::Engine) => match chosen_region(h, block) {
            Some(region) => Ok(BlockPlan::Engine(region)),
            None => Ok(BlockPlan::Text(String::new())),
        },
    }
}

/// Renders one block of the call through its handle, against the data of
/// the call site: it follows the plan of `plan_block`, and where that hands
/// a region to the engine, the text is what `rendered_text` makes of the
/// engine's outcome. It may be called any number of times while the handle
/// is live.
pub fn render_block<'reg: 'rc, 'rc>(
    options: &HandlebarrzHelperOptions,
    block: Block,
    h: &handlebars::Helper<'rc>,
    registry: &'reg handlebars::Handlebars<'reg>,
    context: &'rc handlebars::Context,
    render_context: &mut handlebars::RenderContext<'reg, 'rc>,
) -> (r: Result<String, HelperError>)
    ensures
        is_block_text(block_plan(options@, *h, block), outcome_view(r)),
{
    match plan_block(options, block, h) {
        Err(e) => Err(e),
        Ok(BlockPlan::Text(text)) => Ok(text),
        Ok(BlockPlan::Engine(region)) => rendered_text(
            engine_render(region, registry, context, render_context),
        ),
    }
}

/// Carries out what a helper decided: the text that it wrote, or the text
/// of the block that it chose. The text is to be put out as it is.
pub fn perform<'reg: 'rc, 'rc>(
    action: HelperAction,
    options: &HandlebarrzHelperOptions,
    h: &handlebars::Helper<'rc>,
    registry: &'reg handlebars::Handlebars<'reg>,
    context: &'rc handlebars::Context,
    render_context: &mut handlebars::RenderContext<'reg, 'rc>,
) -> (r: Result<String, HelperError>)
    ensures
        is_action_text(action@, options@, *h, outcome_view(r)),
{
    match action {
        HelperAction::Write(text) => Ok(text),
        HelperAction::Render(block) => render_block(
            options,
            block,
            h,
            registry,
            context,
            render_context,
        ),
    }
}

/// Carries out what a helper decided for the call site, if it did not fail.
fn run_decided<'reg: 'rc, 'rc>(
    decided: Result<HelperAction, HelperError>,
    options: &HandlebarrzHelperOptions,
    h: &handlebars::Helper<'rc>,
    registry: &'reg handlebars::Handlebars<'reg>,
    context: &'rc handlebars::Context,
    render_context: &mut handlebars::RenderContext<'reg, 'rc>,
) -> (r: Result<String, HelperError>)
    requires
        options@ == call_options(*h, *context),
    ensures
        is_call_text(action_result(decided), *h, *context, outcome_view(r)),
{
    match decided {
        Err(e) => Err(e),
        Ok(action) => perform(action, options, h, registry, context, render_context),
    }
}

impl IfEqualsHelper {
    /// One whole call at the engine's call site: the text to put out is
    /// that of the main block when the two parameters are equal, that of
    /// the `{{else}}` block when they are not, and empty where the chosen
    /// block is absent.
    pub fn render<'reg: 'rc, 'rc>(
        &self,
        h: &handlebars::Helper<'rc>,
        registry: &'reg handlebars::Handlebars<'reg>,
        context: &'rc handlebars::Context,
        render_context: &mut handlebars::RenderContext<'reg, 'rc>,
    ) -> (r: Result<String, HelperError>)
        ensures
            is_call_text(
                if_equals_action(call_invocation(*h, *context)),
                *h,
                *context,
                outcome_view(r),
            ),
    {
        let options = handle(h, context);
        let decided = self.call(options.invocation());
        run_decided(decided, &options, h, registry, context, render_context)
    }
}

impl UnlessEqualsHelper {
    /// One whole call at the engine's call site: the text to put out is
    /// that of the main block when the two parameters differ, that of the
    /// `{{else}}` block when they are equal, and empty where the chosen
    /// block is absent.
    pub fn render<'reg: 'rc, 'rc>(
        &self,
        h: &handlebars::Helper<'rc>,
        registry: &'reg handlebars::Handlebars<'reg>,
        context: &'rc handlebars::Context,
        render_context: &mut handlebars::RenderContext<'reg, 'rc>,
    ) -> (r: Result<String, HelperError>)
        ensures
            is_call_text(
                unless_equals_action(call_invocation(*h, *context)),
                *h,
                *context,
                outcome_view(r),
            ),
    {
        let options = handle(h, context);
        let decided = self.call(options.invocation());
        run_decided(decided, &options, h, registry, context, render_context)
    }
}

impl JsonHelper {
    /// One whole call at the engine's call site: the JSON text to put out.
    pub fn render(&self, h: &handlebars::Helper<'_>, context: &handlebars::Context) -> (r: String)
        ensures
            json_action(call_invocation(*h, *context)) == ActionView::Write(r@),
    {
        self.dump(&snapshot(h, context))
    }
}

/// What the call of an outside handler starts with: the handle that the
/// handler is given, and the texts that it is called with.
pub fn begin_handler_call(h: &handlebars::Helper<'_>, context: &handlebars::Context) -> (r:
    Result<(HandlebarrzHelperOptions, HandlerCall), HelperError>)
    ensures
        match r {
            Ok((options, call)) => options@ == call_options(*h, *context)
                && invocation_well_formed(options@.invocation) && handler_call(
                call_invocation(*h, *context),
            ) == Ok::<HandlerCallView, HelperErrorView>(call@),
            Err(e) => handler_call(call_invocation(*h, *context)) == Err::<
                HandlerCallView,
                HelperErrorView,
            >(e@),
        },
{
    let options = handle(h, context);
    match prepare_call(options.invocation()) {
        Ok(call) => Ok((options, call)),
        Err(e) => Err(e),
    }
}

/// Through a revoked handle no block gives any text, and the engine is
/// not asked.
pub proof fn lemma_revoked_handle_renders_nothing(
    options: OptionsView,
    h: handlebars::Helper<'_>,
    block: Block,
    r: Result<Seq<char>, HelperErrorView>,
)
    requires
        !options.live,
        is_block_text(block_plan(options, h, block), r),
    ensures
        block_plan(options, h, block) == Err::<BlockPlanView, HelperErrorView>(
            HelperErrorView::ExpiredHandle,
        ),
        r == Err::<Seq<char>, HelperErrorView>(HelperErrorView::ExpiredHandle),
{
}

/// A block that the handle or the helper reference does not have renders
/// as the empty text, not as a failure, and the engine is not asked.
pub proof fn lemma_absent_block_renders_empty(
    options: OptionsView,
    h: handlebars::Helper<'_>,
    block: Block,
    r: Result<Seq<char>, HelperErrorView>,
)
    requires
        options.live,
        !block_present(options, block) || !call_has_block(h, block),
        is_block_text(block_plan(options, h, block), r),
    ensures
        block_plan(options, h, block) == Ok::<BlockPlanView, HelperErrorView>(
            BlockPlanView::Text(Seq::empty()),
        ),
        r == Ok::<Seq<char>, HelperErrorView>(Seq::empty()),
{
}

/// Through the live handle of its own call site, a block that is there is
/// had from the engine, and the engine is handed the region of that very
/// block: the region after `{{else}}` for the inverse block, the one before
/// it for the main block.
pub proof fn lemma_present_block_is_handed_over(
    h: handlebars::Helper<'_>,
    context: handlebars::Context,
    block: Block,
)
    requires
        call_has_block(h, block),
    ensures
        block_plan(call_options(h, context), h, block) == Ok::<BlockPlanView, HelperErrorView>(
            BlockPlanView::Engine(call_region(h, block)->0),
        ),
        block == Block::Main ==> call_region(h, block) == call_main_region(h),
        block == Block::Inverse ==> call_region(h, block) == call_inverse_region(h),
{
}

/// A whole call of an equality helper with two parameters to compare is
/// the rendering of one block: for `ifEquals` the main block when they are
/// structurally equal and the inverse block when not, for `unlessEquals`
/// the other way round.
pub proof fn lemma_equality_helpers_render_their_block(
    h: handlebars::Helper<'_>,
    context: handlebars::Context,
    r: Result<Seq<char>, HelperErrorView>,
)
    requires
        call_params(h).len() >= 2,
    ensures
        ({
            let equal = structurally_equal(call_params(h)[0], call_params(h)[1]);
            let options = call_options(h, context);
            let invocation = call_invocation(h, context);
            &&& is_call_text(if_equals_action(invocation), h, context, r) == is_block_text(
                block_plan(
                    options,
                    h,
                    if equal {
                        Block::Main
                    } else {
                        Block::Inverse
                    },
                ),
                r,
            )
            &&& is_call_text(unless_equals_action(invocation), h, context, r) == is_block_text(
                block_plan(
                    options,
                    h,
                    if equal {
                        Block::Inverse
                    } else {
                        Block::Main
                    },
                ),
                r,
            )
        }),
{
}

/// A whole call of an equality helper whose comparison fails, at a call
/// site without an `{{else}}` block, gives the empty text and no failure.
pub proof fn lemma_failed_comparison_gives_empty_text(
    h: handlebars::Helper<'_>,
    context: handlebars::Context,
    r: Result<Seq<char>, HelperErrorView>,
)
    requires
        call_params(h).len() >= 2,
        !call_has_inverse(h),
    ensures
        !structurally_equal(call_params(h)[0], call_params(h)[1]) && is_call_text(
            if_equals_action(call_invocation(h, context)),
            h,
            context,
            r,
        ) ==> r == Ok::<Seq<char>, HelperErrorView>(Seq::empty()),
        structurally_equal(call_params(h)[0], call_params(h)[1]) && is_call_text(
            unless_equals_action(call_invocation(h, context)),
            h,
            context,
            r,
        ) ==> r == Ok::<Seq<char>, HelperErrorView>(Seq::empty()),
{
}

} // verus!
