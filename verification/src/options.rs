//! The block render handle: what a helper holds, for the length of one
//! call, to ask for its nested blocks and to read the call's data.

use vstd::prelude::*;
use crate::codec::to_json;
use crate::context::{InvocationContext, InvocationView};
use crate::engine::{compact_json, text_result};
use crate::error::{HelperError, HelperErrorView};
use crate::helpers::Block;
use crate::keyed::{has_key, value_of};

verus! {

/// The answer to a request for a block.
#[derive(Clone, Debug, PartialEq, Eq)]
pub enum BlockRequest {
    /// The block is there: the engine renders it against the data of the
    /// call site, and `rendered_text` takes what the engine gives.
    Engine,
    /// The text is known without the engine.
    Text(String),
}

/// The mathematical form of a `BlockRequest`.
pub enum BlockRequestView {
    Engine,
    Text(Seq<char>),
}

impl View for BlockRequest {
    type V = BlockRequestView;

    open spec fn view(&self) -> BlockRequestView {
        match self {
            BlockRequest::Engine => BlockRequestView::Engine,
            BlockRequest::Text(text) => BlockRequestView::Text(text@),
        }
    }
}

/// The handle of one helper call. It can be asked any number of times while
/// the call runs; once the call has returned it is revoked, and every
/// request made through it after that is refused. There is no way to copy
/// it: a copy would outlive the revocation.
#[derive(Debug)]
pub struct HandlebarrzHelperOptions {
    invocation: InvocationContext,
    has_template: bool,
    has_inverse: bool,
    live: bool,
}

/// The mathematical form of a `HandlebarrzHelperOptions`.
pub struct OptionsView {
    pub invocation: InvocationView,
    pub has_template: bool,
    pub has_inverse: bool,
    pub live: bool,
}

/// Whether the helper reference came with this block.
pub open spec fn block_present(options: OptionsView, block: Block) -> bool {
    match block {
        Block::Main => options.has_template,
        Block::Inverse => options.has_inverse,
    }
}

/// What a request for `block` gives: a refusal once the handle is revoked,
/// the empty text where the block is absent, else the engine's turn.
pub open spec fn block_request(options: OptionsView, block: Block) -> Result<
    BlockRequestView,
    HelperErrorView,
> {
    if !options.live {
        Err(HelperErrorView::ExpiredHandle)
    } else if block_present(options, block) {
        Ok(BlockRequestView::Engine)
    } else {
        Ok(BlockRequestView::Text(Seq::empty()))
    }
}

/// What the engine gave for a block: its text, or its failure as a
/// `RenderError`.
pub open spec fn engine_text(outcome: Result<Seq<char>, Seq<char>>) -> Result<
    Seq<char>,
    HelperErrorView,
> {
    match outcome {
        Ok(text) => Ok(text),
        Err(message) => Err(HelperErrorView::RenderError { message }),
    }
}

/// JSON text, or its failure as an `EncodingError`.
pub open spec fn json_or_error(rendered: Result<Seq<char>, Seq<char>>) -> Result<
    Seq<char>,
    HelperErrorView,
> {
    match rendered {
        Ok(text) => Ok(text),
        Err(message) => Err(HelperErrorView::EncodingError { message }),
    }
}

/// What `context_json` gives.
pub open spec fn context_json_result(options: OptionsView) -> Result<Seq<char>, HelperErrorView> {
    if !options.live {
        Err(HelperErrorView::ExpiredHandle)
    } else {
        json_or_error(compact_json(options.invocation.data_context))
    }
}

/// What `hash_value_json` gives: the JSON text of the option, the empty
/// text where the call has no such option.
pub open spec fn hash_value_json_result(options: OptionsView, key: Seq<char>) -> Result<
    Seq<char>,
    HelperErrorView,
> {
    if !options.live {
        Err(HelperErrorView::ExpiredHandle)
    } else if has_key(options.invocation.hash, key) {
        json_or_error(compact_json(value_of(options.invocation.hash, key)))
    } else {
        Ok(Seq::empty())
    }
}

/// The views of a text or a failure.
pub open spec fn outcome_view(r: Result<String, HelperError>) -> Result<
    Seq<char>,
    HelperErrorView,
> {
    match r {
        Ok(text) => Ok(text@),
        Err(e) => Err(e@),
    }
}

/// The views of a request's answer or a failure.
pub open spec fn request_view(r: Result<BlockRequest, HelperError>) -> Result<
    BlockRequestView,
    HelperErrorView,
> {
    match r {
        Ok(request) => Ok(request@),
        Err(e) => Err(e@),
    }
}

/// JSON text as it came from the codec, with a failure turned into an
/// `EncodingError`.
pub fn json_or_encoding_error(rendered: Result<String, String>) -> (r: Result<String, HelperError>)
    ensures
        outcome_view(r) == json_or_error(text_result(rendered)),
{
    match rendered {
        Ok(text) => Ok(text),
        Err(message) => Err(HelperError::EncodingError { message }),
    }
}

/// What the engine gave for a block, with a failure turned into a
/// `RenderError` that the helper may handle or pass on.
pub fn rendered_text(outcome: Result<String, String>) -> (r: Result<String, HelperError>)
    ensures
        outcome_view(r) == engine_text(text_result(outcome)),
{
    match outcome {
        Ok(text) => Ok(text),
        Err(message) => Err(HelperError::RenderError { message }),
    }
}

impl View for HandlebarrzHelperOptions {
    type V = OptionsView;

    closed spec fn view(&self) -> OptionsView {
        OptionsView {
            invocation: self.invocation@,
            has_template: self.has_template,
            has_inverse: self.has_inverse,
            live: self.live,
        }
    }
}

impl HandlebarrzHelperOptions {
    /// The handle of a call that came with these blocks. It starts live.
    pub fn new(invocation: InvocationContext, has_template: bool, has_inverse: bool) -> (r:
        HandlebarrzHelperOptions)
        ensures
            r@ == (OptionsView { invocation: invocation@, has_template, has_inverse, live: true }),
    {
        HandlebarrzHelperOptions { invocation, has_template, has_inverse, live: true }
    }

    /// What the call was given.
    pub fn invocation(&self) -> (r: &InvocationContext)
        ensures
            r@ == self@.invocation,
    {
        &self.invocation
    }

    /// Whether the call that owns the handle is still running.
    pub fn is_live(&self) -> (r: bool)
        ensures
            r == self@.live,
    {
        self.live
    }

    /// Ends the handle's life: the call that owns it has returned.
    pub fn revoke(&mut self)
        ensures
            final(self)@ == (OptionsView { live: false, ..old(self)@ }),
    {
        self.live = false;
    }

    /// Asks for one of the two blocks.
    pub fn request(&self, block: Block) -> (r: Result<BlockRequest, HelperError>)
        ensures
            request_view(r) == block_request(self@, block),
    {
        if !self.live {
            return Err(HelperError::ExpiredHandle);
        }
        let present = match block {
            Block::Main => self.has_template,
            Block::Inverse => self.has_inverse,
        };
        if present {
            Ok(BlockRequest::Engine)
        } else {
            Ok(BlockRequest::Text(String::new()))
        }
    }

    /// Asks for the main block.
    pub fn template(&self) -> (r: Result<BlockRequest, HelperError>)
        ensures
            request_view(r) == block_request(self@, Block::Main),
    {
        self.request(Block::Main)
    }

    /// Asks for the block after `{{else}}`.
    pub fn inverse(&self) -> (r: Result<BlockRequest, HelperError>)
        ensures
            request_view(r) == block_request(self@, Block::Inverse),
    {
        self.request(Block::Inverse)
    }

    /// The JSON text of the data against which the call site renders; it is
    /// never empty.
    pub fn context_json(&self) -> (r: Result<String, HelperError>)
        ensures
            outcome_view(r) == context_json_result(self@),
            r matches Ok(text) ==> text@.len() > 0,
    {
        if !self.live {
            return Err(HelperError::ExpiredHandle);
        }
        json_or_encoding_error(to_json(self.invocation.data_context()))
    }

    /// The JSON text of the named option `key`: through a live handle it is
    /// the empty text exactly where the call has no such option.
    pub fn hash_value_json(&self, key: &str) -> (r: Result<String, HelperError>)
        ensures
            outcome_view(r) == hash_value_json_result(self@, key@),
            self@.live ==> (r matches Ok(text) && text@.len() == 0) == !has_key(
                self@.invocation.hash,
                key@,
            ),
    {
        if !self.live {
            return Err(HelperError::ExpiredHandle);
        }
        match self.invocation.hash_get(key) {
            Some(value) => json_or_encoding_error(to_json(value)),
            None => Ok(String::new()),
        }
    }
}

/// A handle that has been revoked refuses every request, whatever was
/// asked and whatever the call held.
pub proof fn lemma_revoked_handle_refuses(options: OptionsView, block: Block, key: Seq<char>)
    requires
        !options.live,
    ensures
        block_request(options, block) == Err::<BlockRequestView, HelperErrorView>(
            HelperErrorView::ExpiredHandle,
        ),
        context_json_result(options) == Err::<Seq<char>, HelperErrorView>(
            HelperErrorView::ExpiredHandle,
        ),
        hash_value_json_result(options, key) == Err::<Seq<char>, HelperErrorView>(
            HelperErrorView::ExpiredHandle,
        ),
{
}

} // verus!
