//! The ways in which a helper call can fail.

use vstd::prelude::*;

verus! {

/// A failure of one helper call. It ends that call and, through it, the
/// render that made it.
#[derive(Clone, Debug, PartialEq, Eq)]
pub enum HelperError {
    /// The helper needs a positional parameter at `index` and got none.
    MissingParameter { helper: String, index: usize },
    /// No helper is registered under `name`.
    UnknownHelper { name: String },
    /// A value could not be turned into JSON text.
    EncodingError { message: String },
    /// An outside handler returned something that is not text.
    InvalidHandlerResult { message: String },
    /// An outside handler failed while it ran.
    HandlerExecutionError { message: String },
    /// The engine failed while it rendered a nested block.
    RenderError { message: String },
    /// A block render handle was used after its helper call had returned.
    ExpiredHandle,
}

/// The mathematical form of a `HelperError`.
pub enum HelperErrorView {
    MissingParameter { helper: Seq<char>, index: nat },
    UnknownHelper { name: Seq<char> },
    EncodingError { message: Seq<char> },
    InvalidHandlerResult { message: Seq<char> },
    HandlerExecutionError { message: Seq<char> },
    RenderError { message: Seq<char> },
    ExpiredHandle,
}

impl View for HelperError {
    type V = HelperErrorView;

    open spec fn view(&self) -> HelperErrorView {
        match self {
            HelperError::MissingParameter { helper, index } => HelperErrorView::MissingParameter {
                helper: helper@,
                index: *index as nat,
            },
            HelperError::UnknownHelper { name } => HelperErrorView::UnknownHelper { name: name@ },
            HelperError::EncodingError { message } => HelperErrorView::EncodingError {
                message: message@,
            },
            HelperError::InvalidHandlerResult { message } => HelperErrorView::InvalidHandlerResult {
                message: message@,
            },
            HelperError::HandlerExecutionError { message } => {
                HelperErrorView::HandlerExecutionError { message: message@ }
            },
            HelperError::RenderError { message } => HelperErrorView::RenderError {
                message: message@,
            },
            HelperError::ExpiredHandle => HelperErrorView::ExpiredHandle,
        }
    }
}

} // verus!
