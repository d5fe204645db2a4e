//! The choice of the function that escapes interpolated text.

use vstd::prelude::*;
use vstd::string::StringExecFns;

verus! {

/// The escape functions that the engine can be told to use.
#[derive(Clone, Copy, Debug, PartialEq, Eq, Structural)]
pub enum EscapeFn {
    /// Replace the characters that are special in HTML by entities.
    HtmlEscape,
    /// Leave the text as it is.
    NoEscape,
}

/// The escape function that `name` stands for, or the message that says
/// that it stands for none.
pub open spec fn escape_fn_named(name: Seq<char>) -> Result<EscapeFn, Seq<char>> {
    if name == "html_escape"@ {
        Ok(EscapeFn::HtmlEscape)
    } else if name == "no_escape"@ {
        Ok(EscapeFn::NoEscape)
    } else {
        Err("Unknown escape function: "@ + name)
    }
}

/// The views of a choice or a message.
pub open spec fn choice_view(r: Result<EscapeFn, String>) -> Result<EscapeFn, Seq<char>> {
    match r {
        Ok(choice) => Ok(choice),
        Err(message) => Err(message@),
    }
}

impl EscapeFn {
    /// The escape function named `name`: `html_escape` or `no_escape`.
    pub fn from_name(name: &str) -> (r: Result<EscapeFn, String>)
        ensures
            choice_view(r) == escape_fn_named(name@),
    {
        let wanted = name.to_owned();
        if wanted == "html_escape".to_owned() {
            Ok(EscapeFn::HtmlEscape)
        } else if wanted == "no_escape".to_owned() {
            Ok(EscapeFn::NoEscape)
        } else {
            Err("Unknown escape function: ".to_owned().concat(name))
        }
    }
}

} // verus!
