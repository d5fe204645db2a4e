//! The built-in helpers: the two equality block helpers and the JSON dump.

use vstd::prelude::*;
use crate::codec::{spaces, to_json, to_json_indented, to_json_pretty};
use crate::context::{InvocationContext, InvocationView};
use crate::engine::{
    compact_json, engine_number_as_u64, indented_json, pretty_json, text_result,
};
use crate::error::{HelperError, HelperErrorView};
use crate::keyed::{has_key, value_of};
use crate::value::{
    lemma_equal_reflexive, structurally_equal, well_formed, whole_number, JsonValue, JsonView,
};

verus! {

/// One of the two nested regions of a block helper: the body, or what
/// follows `{{else}}`.
#[derive(Clone, Copy, Debug, PartialEq, Eq, Structural)]
pub enum Block {
    Main,
    Inverse,
}

/// What a helper asks of the engine when its call is over.
#[derive(Clone, Debug, PartialEq, Eq)]
pub enum HelperAction {
    /// Render this block against the data of the call site and put out
    /// what it gives.
    Render(Block),
    /// Put out this text as it is.
    Write(String),
}

/// The mathematical form of a `HelperAction`.
pub enum ActionView {
    Render(Block),
    Write(Seq<char>),
}

impl View for HelperAction {
    type V = ActionView;

    open spec fn view(&self) -> ActionView {
        match self {
            HelperAction::Render(block) => ActionView::Render(*block),
            HelperAction::Write(text) => ActionView::Write(text@),
        }
    }
}

/// The views of a helper's result.
pub open spec fn action_result(r: Result<HelperAction, HelperError>) -> Result<
    ActionView,
    HelperErrorView,
> {
    match r {
        Ok(action) => Ok(action@),
        Err(e) => Err(e@),
    }
}

/// What an equality helper named `helper` decides: it needs its first two
/// parameters, and renders the main block when their being equal is
/// `main_when_equal`, the inverse block otherwise.
pub open spec fn equality_action(
    invocation: InvocationView,
    helper: Seq<char>,
    main_when_equal: bool,
) -> Result<ActionView, HelperErrorView> {
    if invocation.params.len() < 1 {
        Err(HelperErrorView::MissingParameter { helper, index: 0 })
    } else if invocation.params.len() < 2 {
        Err(HelperErrorView::MissingParameter { helper, index: 1 })
    } else if structurally_equal(invocation.params[0], invocation.params[1]) == main_when_equal {
        Ok(ActionView::Render(Block::Main))
    } else {
        Ok(ActionView::Render(Block::Inverse))
    }
}

/// What `ifEquals` decides.
pub open spec fn if_equals_action(invocation: InvocationView) -> Result<
    ActionView,
    HelperErrorView,
> {
    equality_action(invocation, "ifEquals"@, true)
}

/// What `unlessEquals` decides.
pub open spec fn unless_equals_action(invocation: InvocationView) -> Result<
    ActionView,
    HelperErrorView,
> {
    equality_action(invocation, "unlessEquals"@, false)
}

/// The text of a serialisation, or the fallback token where it failed.
pub open spec fn text_or_fallback(rendered: Result<Seq<char>, Seq<char>>) -> Seq<char> {
    match rendered {
        Ok(text) => text,
        Err(_) => "{}"@,
    }
}

/// The widest indent that `json` honours.
pub const MAX_INDENT_WIDTH: u64 = 32;

/// The indent width that the option `indent` asks for: the number that it
/// holds, where that is a whole number up to `MAX_INDENT_WIDTH`.
pub open spec fn indent_width(indent: JsonView) -> Option<nat> {
    match indent {
        JsonView::Number(number) => match whole_number(number) {
            Some(width) => if width <= MAX_INDENT_WIDTH {
                Some(width as nat)
            } else {
                None
            },
            None => None,
        },
        _ => None,
    }
}

/// The JSON text of `value` as the option `indent` asks for it: with the
/// requested number of spaces per level, or in the engine's default
/// indented form where the option holds anything but such a width.
pub open spec fn indented_as_asked(value: JsonView, indent: JsonView) -> Result<
    Seq<char>,
    Seq<char>,
> {
    match indent_width(indent) {
        Some(width) => indented_json(value, spaces(width)),
        None => pretty_json(value),
    }
}

/// What `json` puts out: nothing without a parameter, else the JSON text of
/// the first parameter, compact without the option `indent` and indented
/// as that option asks with it.
pub open spec fn json_action(invocation: InvocationView) -> ActionView {
    if invocation.params.len() == 0 {
        ActionView::Write(Seq::empty())
    } else if has_key(invocation.hash, "indent"@) {
        ActionView::Write(
            text_or_fallback(
                indented_as_asked(invocation.params[0], value_of(invocation.hash, "indent"@)),
            ),
        )
    } else {
        ActionView::Write(text_or_fallback(compact_json(invocation.params[0])))
    }
}

/// The shared decision of the two equality helpers.
fn decide_equality(invocation: &InvocationContext, helper: &str, main_when_equal: bool) -> (r:
    Result<HelperAction, HelperError>)
    ensures
        action_result(r) == equality_action(invocation@, helper@, main_when_equal),
{
    let first = match invocation.require_param(helper, 0) {
        Ok(value) => value,
        Err(e) => {
            return Err(e);
        },
    };
    let second = match invocation.require_param(helper, 1) {
        Ok(value) => value,
        Err(e) => {
            return Err(e);
        },
    };
    if first.equals(second) == main_when_equal {
        Ok(HelperAction::Render(Block::Main))
    } else {
        Ok(HelperAction::Render(Block::Inverse))
    }
}

/// Renders its block when its two parameters are equal, and the `{{else}}`
/// block, if there is one, when they are not.
#[derive(Clone, Copy, Debug)]
pub struct IfEqualsHelper {}

impl IfEqualsHelper {
    /// Decides which block to render.
    pub fn call(&self, invocation: &InvocationContext) -> (r: Result<HelperAction, HelperError>)
        ensures
            action_result(r) == if_equals_action(invocation@),
    {
        decide_equality(invocation, "ifEquals", true)
    }
}

/// Renders its block when its two parameters differ, and the `{{else}}`
/// block, if there is one, when they are equal.
#[derive(Clone, Copy, Debug)]
pub struct UnlessEqualsHelper {}

impl UnlessEqualsHelper {
    /// Decides which block to render.
    pub fn call(&self, invocation: &InvocationContext) -> (r: Result<HelperAction, HelperError>)
        ensures
            action_result(r) == unless_equals_action(invocation@),
    {
        decide_equality(invocation, "unlessEquals", false)
    }
}

/// The text of a serialisation, or `{}` where it failed: the dump never
/// fails a render.
pub fn json_or_fallback(rendered: Result<String, String>) -> (text: String)
    ensures
        text@ == text_or_fallback(text_result(rendered)),
{
    match rendered {
        Ok(text) => text,
        Err(_) => "{}".to_owned(),
    }
}

/// Puts out its parameter as JSON text.
#[derive(Clone, Copy, Debug)]
pub struct JsonHelper {}

/// The indent width that the option `indent` asks for, if it asks for one.
pub fn requested_indent(indent: &JsonValue) -> (r: Option<usize>)
    ensures
        r is Some == indent_width(indent@) is Some,
        r is Some ==> r->0 as nat == indent_width(indent@)->0,
{
    match indent {
        JsonValue::Number(number) => match engine_number_as_u64(number) {
            Some(width) => if width <= MAX_INDENT_WIDTH {
                Some(width as usize)
            } else {
                None
            },
            None => None,
        },
        _ => None,
    }
}

/// The JSON text of `value` as the option `indent` asks for it.
pub fn to_json_as_asked(value: &JsonValue, indent: &JsonValue) -> (r: Result<String, String>)
    ensures
        text_result(r) == indented_as_asked(value@, indent@),
{
    match requested_indent(indent) {
        Some(width) => to_json_indented(value, width),
        None => to_json_pretty(value),
    }
}

impl JsonHelper {
    /// The text that the helper puts out: nothing without a parameter, else
    /// the JSON text of the first one, compact without the option `indent`,
    /// and with it indented by the width that it holds, or in the default
    /// indented form where it holds no width.
    pub fn dump(&self, invocation: &InvocationContext) -> (text: String)
        ensures
            json_action(invocation@) == ActionView::Write(text@),
    {
        let value = match invocation.param(0) {
            Some(value) => value,
            None => {
                return String::new();
            },
        };
        let rendered = match invocation.hash_get("indent") {
            Some(indent) => to_json_as_asked(value, indent),
            None => to_json(value),
        };
        json_or_fallback(rendered)
    }

    /// Decides what to put out; the dump never fails.
    pub fn call(&self, invocation: &InvocationContext) -> (r: Result<HelperAction, HelperError>)
        ensures
            action_result(r) == Ok::<ActionView, HelperErrorView>(json_action(invocation@)),
    {
        Ok(HelperAction::Write(self.dump(invocation)))
    }
}

/// With two parameters to compare, `ifEquals` renders its main block
/// exactly when they are structurally equal, and `unlessEquals` exactly when
/// they are not; each renders its inverse block otherwise.
pub proof fn lemma_equality_helpers(invocation: InvocationView)
    requires
        invocation.params.len() >= 2,
    ensures
        if_equals_action(invocation) == Ok::<ActionView, HelperErrorView>(
            ActionView::Render(Block::Main),
        ) <==> structurally_equal(invocation.params[0], invocation.params[1]),
        if_equals_action(invocation) == Ok::<ActionView, HelperErrorView>(
            ActionView::Render(Block::Inverse),
        ) <==> !structurally_equal(invocation.params[0], invocation.params[1]),
        unless_equals_action(invocation) == Ok::<ActionView, HelperErrorView>(
            ActionView::Render(Block::Main),
        ) <==> !structurally_equal(invocation.params[0], invocation.params[1]),
        unless_equals_action(invocation) == Ok::<ActionView, HelperErrorView>(
            ActionView::Render(Block::Inverse),
        ) <==> structurally_equal(invocation.params[0], invocation.params[1]),
{
}

/// An equality helper that is given the same well-formed value twice
/// finds it equal to itself: `ifEquals` chooses its main block and
/// `unlessEquals` its inverse block.
pub proof fn lemma_same_parameter_twice(invocation: InvocationView)
    requires
        invocation.params.len() >= 2,
        invocation.params[0] == invocation.params[1],
        well_formed(invocation.params[0]),
    ensures
        if_equals_action(invocation) == Ok::<ActionView, HelperErrorView>(
            ActionView::Render(Block::Main),
        ),
        unless_equals_action(invocation) == Ok::<ActionView, HelperErrorView>(
            ActionView::Render(Block::Inverse),
        ),
{
    lemma_equal_reflexive(invocation.params[0]);
}

/// Without a parameter `json` puts out the empty text, whatever the named
/// options and the data are.
pub proof fn lemma_json_without_parameter(invocation: InvocationView)
    requires
        invocation.params.len() == 0,
    ensures
        json_action(invocation) == ActionView::Write(Seq::empty()),
{
}

} // verus!
